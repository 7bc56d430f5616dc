use vstd::prelude::*;

verus! {

/// A key as the browser sees it in one input cycle.
#[derive(Clone, Copy, Debug, PartialEq, Eq, Structural)]
pub enum Key {
    LeftArrow,
    RightArrow,
    Escape,
    Enter,
    Char(char),
}

/// A step through the records.
#[derive(Clone, Copy, Debug, PartialEq, Eq, Structural)]
pub enum Direction {
    Next,
    Previous,
}

/// Why a browser could not be made.
#[derive(Clone, Copy, Debug, PartialEq, Eq, Structural)]
pub enum BrowserError {
    /// There is no record to show.
    NoRecords,
}

/// The index after one step from `i` among `len` records: steps stop at
/// either end instead of wrapping around.
pub open spec fn step_index(dir: Direction, i: int, len: int) -> int {
    match dir {
        Direction::Next => if i + 1 < len { i + 1 } else { len - 1 },
        Direction::Previous => if i > 0 { i - 1 } else { 0 },
    }
}

/// The index after `n` steps forward from `i` among `len` records.
pub open spec fn steps_forward(i: int, len: int, n: nat) -> int
    decreases n,
{
    if n == 0 {
        i
    } else {
        step_index(Direction::Next, steps_forward(i, len, (n - 1) as nat), len)
    }
}

/// Whether no action in `actions` before position `end` is bound to `k`.
pub open spec fn unbound_before(actions: Seq<(Key, Seq<char>)>, k: Key, end: int) -> bool {
    forall|j: int| 0 <= j < end ==> #[trigger] actions[j].0 != k
}

/// Steps through a non-empty, fixed sequence of records one at a time, and
/// tells which named action the last input cycle fired.
pub struct RecordBrowser<T> {
    records: Vec<T>,
    current: usize,
    title: String,
    noun: String,
    actions: Vec<(Key, String)>,
    fired: Option<usize>,
}

impl<T> RecordBrowser<T> {
    /// The records, in order.
    pub closed spec fn records(&self) -> Seq<T> {
        self.records@
    }

    /// The index of the record shown.
    pub closed spec fn index(&self) -> int {
        self.current as int
    }

    /// The title shown above the records.
    pub closed spec fn title_text(&self) -> Seq<char> {
        self.title@
    }

    /// What one record is called in the pagination line.
    pub closed spec fn noun_text(&self) -> Seq<char> {
        self.noun@
    }

    /// The named actions with the keys that fire them.
    pub closed spec fn actions(&self) -> Seq<(Key, Seq<char>)> {
        self.actions@.map_values(|a: (Key, String)| (a.0, a.1@))
    }

    /// The position among the actions of the one that the last cycle fired.
    pub closed spec fn fired(&self) -> Option<int> {
        match self.fired {
            Some(i) => Some(i as int),
            None => None,
        }
    }

    /// The name of the action that the last cycle fired.
    pub open spec fn fired_name(&self) -> Option<Seq<char>> {
        match self.fired() {
            Some(i) => Some(self.actions()[i].1),
            None => None,
        }
    }

    pub open spec fn wf(&self) -> bool {
        &&& self.records().len() > 0
        &&& 0 <= self.index() < self.records().len()
        &&& self.fired() matches Some(i) ==> 0 <= i < self.actions().len()
    }

    /// A browser over `records`, on the first one, with no action fired yet;
    /// fails when there is no record.
    pub fn new(records: Vec<T>, title: &str, noun: &str, actions: Vec<(Key, String)>) -> (r: Result<
        RecordBrowser<T>,
        BrowserError,
    >)
        ensures
            records@.len() == 0 <==> r is Err,
            r is Err ==> r == Err::<RecordBrowser<T>, BrowserError>(BrowserError::NoRecords),
            r matches Ok(b) ==> {
                &&& b.wf()
                &&& b.records() == records@
                &&& b.index() == 0
                &&& b.title_text() == title@
                &&& b.noun_text() == noun@
                &&& b.actions() == actions@.map_values(|a: (Key, String)| (a.0, a.1@))
                &&& b.fired() is None
            },
    {
        if records.len() == 0 {
            return Err(BrowserError::NoRecords);
        }
        Ok(RecordBrowser {
            records,
            current: 0,
            title: title.to_owned(),
            noun: noun.to_owned(),
            actions,
            fired: None,
        })
    }

    /// The number of records.
    pub fn len(&self) -> (r: usize)
        ensures
            r == self.records().len(),
    {
        self.records.len()
    }

    /// The index of the record shown, and that record.
    pub fn current(&self) -> (r: (usize, &T))
        requires
            self.wf(),
        ensures
            r.0 == self.index(),
            *r.1 == self.records()[self.index()],
    {
        (self.current, &self.records[self.current])
    }

    /// Moves one record forward or back, stopping at either end.
    pub fn advance(&mut self, dir: Direction)
        requires
            old(self).wf(),
        ensures
            final(self).wf(),
            final(self).index() == step_index(dir, old(self).index(), old(self).records().len() as int),
            final(self).records() == old(self).records(),
            final(self).actions() == old(self).actions(),
            final(self).fired() == old(self).fired(),
            final(self).title_text() == old(self).title_text(),
            final(self).noun_text() == old(self).noun_text(),
    {
        match dir {
            Direction::Next => {
                let n = self.records.len();
                if self.current < n - 1 {
                    self.current = self.current + 1;
                }
            },
            Direction::Previous => {
                if self.current > 0 {
                    self.current = self.current - 1;
                }
            },
        }
    }

    /// One input cycle: the arrows move between records; any other key fires
    /// the first action bound to it. What an earlier cycle fired is forgotten.
    pub fn event(&mut self, input: Option<Key>)
        requires
            old(self).wf(),
        ensures
            final(self).wf(),
            final(self).records() == old(self).records(),
            final(self).actions() == old(self).actions(),
            final(self).title_text() == old(self).title_text(),
            final(self).noun_text() == old(self).noun_text(),
            final(self).index() == match input {
                Some(Key::RightArrow) => step_index(
                    Direction::Next,
                    old(self).index(),
                    old(self).records().len() as int,
                ),
                Some(Key::LeftArrow) => step_index(
                    Direction::Previous,
                    old(self).index(),
                    old(self).records().len() as int,
                ),
                _ => old(self).index(),
            },
            match input {
                Some(Key::RightArrow) => final(self).fired() is None,
                Some(Key::LeftArrow) => final(self).fired() is None,
                Some(k) => match final(self).fired() {
                    Some(i) => final(self).actions()[i].0 == k && unbound_before(
                        final(self).actions(),
                        k,
                        i,
                    ),
                    None => unbound_before(final(self).actions(), k, final(self).actions().len() as int),
                },
                None => final(self).fired() is None,
            },
    {
        self.fired = None;
        match input {
            Some(Key::RightArrow) => self.advance(Direction::Next),
            Some(Key::LeftArrow) => self.advance(Direction::Previous),
            Some(k) => {
                let n = self.actions.len();
                let mut i: usize = 0;
                while i < n
                    invariant
                        n == self.actions@.len(),
                        i <= n,
                        self.fired is None,
                        forall|j: int| 0 <= j < i ==> #[trigger] self.actions@[j].0 != k,
                    ensures
                        i <= n,
                        i < n ==> self.actions@[i as int].0 == k,
                        forall|j: int| 0 <= j < i ==> #[trigger] self.actions@[j].0 != k,
                    decreases n - i,
                {
                    if self.actions[i].0 == k {
                        break;
                    }
                    i = i + 1;
                }
                if i < n {
                    self.fired = Some(i);
                }
                proof {
                    let acts = self.actions();
                    assert forall|j: int| 0 <= j < i implies #[trigger] acts[j].0 != k by {
                        assert(acts[j] == (self.actions@[j].0, self.actions@[j].1@));
                    }
                    if i < n {
                        assert(acts[i as int] == (self.actions@[i as int].0, self.actions@[i as int].1@));
                    }
                }
            },
            None => {},
        }
    }

    /// Whether the last input cycle fired the action called `name`.
    pub fn action(&self, name: &str) -> (r: bool)
        requires
            self.wf(),
        ensures
            r == (self.fired_name() == Some(name@)),
    {
        match self.fired {
            Some(i) => {
                let fired_name = &self.actions[i].1;
                *fired_name == name.to_owned()
            },
            None => false,
        }
    }

    /// The one-based number of the record shown, and how many there are, as
    /// the pagination line shows them.
    pub fn page(&self) -> (r: (usize, usize))
        requires
            self.wf(),
        ensures
            r.0 == self.index() + 1,
            r.1 == self.records().len(),
    {
        let n = self.records.len();
        (self.current + 1, n)
    }

    /// The title shown above the records.
    pub fn title(&self) -> (r: &str)
        ensures
            r@ == self.title_text(),
    {
        self.title.as_str()
    }

    /// What one record is called.
    pub fn noun(&self) -> (r: &str)
        ensures
            r@ == self.noun_text(),
    {
        self.noun.as_str()
    }
}

/// From the first of `len` records, `len - 1` steps forward reach the last
/// one, each step before that moves by exactly one, and no further step goes
/// past the end.
pub proof fn lemma_forward_reaches_last(len: int, n: nat)
    requires
        len > 0,
    ensures
        n < len ==> steps_forward(0, len, n) == n,
        n >= len - 1 ==> steps_forward(0, len, n) == len - 1,
    decreases n,
{
    if n > 0 {
        lemma_forward_reaches_last(len, (n - 1) as nat);
    }
}

/// A step back from the first record stays on the first record.
pub proof fn lemma_previous_at_start(len: int)
    requires
        len > 0,
    ensures
        step_index(Direction::Previous, 0, len) == 0,
{
}

} // verus!
