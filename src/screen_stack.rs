use vstd::prelude::*;

verus! {

/// A request that the active screen hands to the host after one input cycle.
#[derive(Clone, Debug, PartialEq, Eq)]
pub enum Transition<S> {
    /// Leave the stack as it is.
    Keep,
    /// Suspend the active screen and put a new one on top.
    Push(S),
    /// Discard the active screen; the one beneath becomes active.
    Pop,
    /// Discard the active screen and put a new one in its place.
    Replace(S),
    /// Discard the active screen and the one beneath it, and put a new one in
    /// their place.
    PopThenReplace(S),
}

/// The stack a transition turns `s` into.
pub open spec fn applied<S>(s: Seq<S>, t: Transition<S>) -> Seq<S> {
    match t {
        Transition::Keep => s,
        Transition::Push(x) => s.push(x),
        Transition::Pop => s.drop_last(),
        Transition::Replace(x) => s.drop_last().push(x),
        Transition::PopThenReplace(x) => s.drop_last().drop_last().push(x),
    }
}

/// Whether a stack of `n` screens may take the transition and still have an
/// active screen: the root screen is never popped.
pub open spec fn permitted<S>(n: nat, t: Transition<S>) -> bool {
    match t {
        Transition::Pop => n >= 2,
        Transition::PopThenReplace(_) => n >= 2,
        Transition::Replace(_) => n >= 1,
        _ => true,
    }
}

/// The stack of screens; the last one is active, the others are suspended
/// with their state intact.
pub struct ScreenStack<S> {
    screens: Vec<S>,
}

impl<S> View for ScreenStack<S> {
    type V = Seq<S>;

    closed spec fn view(&self) -> Seq<S> {
        self.screens@
    }
}

impl<S> ScreenStack<S> {
    /// A stack whose only screen is `root`.
    pub fn new(root: S) -> (r: ScreenStack<S>)
        ensures
            r@ == seq![root],
    {
        let mut screens: Vec<S> = Vec::new();
        screens.push(root);
        proof {
            assert(screens@ =~= seq![root]);
        }
        ScreenStack { screens }
    }

    /// The number of screens, active and suspended.
    pub fn len(&self) -> (r: usize)
        ensures
            r == self@.len(),
    {
        self.screens.len()
    }

    /// The screen that receives input and is drawn.
    pub fn active(&self) -> (r: &S)
        requires
            self@.len() > 0,
        ensures
            *r == self@.last(),
    {
        let n = self.screens.len();
        &self.screens[n - 1]
    }

    /// The screen at position `i`, counted from the bottom of the stack.
    pub fn get(&self, i: usize) -> (r: &S)
        requires
            i < self@.len(),
        ensures
            *r == self@[i as int],
    {
        &self.screens[i]
    }

    /// Whether the stack can take `t` without losing its last screen.
    pub fn permits(&self, t: &Transition<S>) -> (r: bool)
        ensures
            r == permitted(self@.len(), *t),
    {
        let n = self.screens.len();
        match t {
            Transition::Pop => n >= 2,
            Transition::PopThenReplace(_) => n >= 2,
            Transition::Replace(_) => n >= 1,
            _ => true,
        }
    }

    /// Carries out one transition.
    pub fn apply(&mut self, t: Transition<S>)
        requires
            permitted(old(self)@.len(), t),
        ensures
            final(self)@ == applied(old(self)@, t),
    {
        match t {
            Transition::Keep => {},
            Transition::Push(x) => {
                self.screens.push(x);
            },
            Transition::Pop => {
                self.screens.pop();
            },
            Transition::Replace(x) => {
                self.screens.pop();
                self.screens.push(x);
            },
            Transition::PopThenReplace(x) => {
                self.screens.pop();
                self.screens.pop();
                self.screens.push(x);
            },
        }
    }
}

/// Pushing a screen and then popping it gives back the stack as it was: the
/// same active screen, and the same suspended screens beneath it.
pub proof fn lemma_push_then_pop<S>(s: Seq<S>, x: S)
    ensures
        applied(applied(s, Transition::Push(x)), Transition::Pop) == s,
        s.len() > 0 ==> applied(applied(s, Transition::Push(x)), Transition::Pop).last()
            == s.last(),
{
    assert(s.push(x).drop_last() =~= s);
}

/// Popping and then replacing in one step is the same as a pop followed by a
/// replace; on a stack of two screens it leaves only the new one.
pub proof fn lemma_pop_then_replace<S>(s: Seq<S>, x: S)
    requires
        s.len() >= 2,
    ensures
        applied(s, Transition::PopThenReplace(x)) == applied(
            applied(s, Transition::Pop),
            Transition::Replace(x),
        ),
        s.len() == 2 ==> applied(s, Transition::PopThenReplace(x)) == seq![x],
{
    if s.len() == 2 {
        assert(s.drop_last().drop_last().push(x) =~= seq![x]);
    }
}

} // verus!
