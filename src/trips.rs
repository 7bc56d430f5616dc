use vstd::prelude::*;

use crate::record_browser::{step_index, BrowserError, Direction, Key, RecordBrowser};

verus! {

/// The name of the action that leaves the trip browser.
pub open spec fn quit_action() -> Seq<char> {
    "quit"@
}

/// Steps through trips one at a time, until Escape asks to leave.
pub struct TripsVisualizer<T> {
    slider: RecordBrowser<T>,
}

impl<T> TripsVisualizer<T> {
    /// The browser over the trips.
    pub closed spec fn browser(&self) -> RecordBrowser<T> {
        self.slider
    }

    pub open spec fn wf(&self) -> bool {
        &&& self.browser().wf()
        &&& self.browser().actions() == seq![(Key::Escape, quit_action())]
    }

    /// A browser over `trips`, titled for trips, that Escape leaves; fails
    /// when there is no trip.
    pub fn new(trips: Vec<T>) -> (r: Result<TripsVisualizer<T>, BrowserError>)
        ensures
            trips@.len() == 0 <==> r is Err,
            r is Err ==> r == Err::<TripsVisualizer<T>, BrowserError>(BrowserError::NoRecords),
            r matches Ok(v) ==> {
                &&& v.wf()
                &&& v.browser().records() == trips@
                &&& v.browser().index() == 0
                &&& v.browser().title_text() == "Trips Visualizer"@
                &&& v.browser().noun_text() == "trip"@
                &&& v.browser().fired() is None
            },
    {
        let actions: Vec<(Key, String)> = vec![(Key::Escape, "quit".to_owned())];
        let ghost named = actions@.map_values(|a: (Key, String)| (a.0, a.1@));
        proof {
            assert(named =~= seq![(Key::Escape, quit_action())]);
        }
        match RecordBrowser::new(trips, "Trips Visualizer", "trip", actions) {
            Ok(slider) => Ok(TripsVisualizer { slider }),
            Err(e) => Err(e),
        }
    }

    /// The browser over the trips, for reading the trip shown.
    pub fn slider(&self) -> (r: &RecordBrowser<T>)
        ensures
            *r == self.browser(),
    {
        &self.slider
    }

    /// One input cycle; true when the user asked to leave.
    pub fn event(&mut self, input: Option<Key>) -> (done: bool)
        requires
            old(self).wf(),
        ensures
            final(self).wf(),
            done == (input == Some(Key::Escape)),
            done == (final(self).browser().fired_name() == Some(quit_action())),
            input != Some(Key::Escape) ==> final(self).browser().fired() is None,
            final(self).browser().records() == old(self).browser().records(),
            final(self).browser().title_text() == old(self).browser().title_text(),
            final(self).browser().noun_text() == old(self).browser().noun_text(),
            final(self).browser().index() == match input {
                Some(Key::RightArrow) => step_index(
                    Direction::Next,
                    old(self).browser().index(),
                    old(self).browser().records().len() as int,
                ),
                Some(Key::LeftArrow) => step_index(
                    Direction::Previous,
                    old(self).browser().index(),
                    old(self).browser().records().len() as int,
                ),
                _ => old(self).browser().index(),
            },
    {
        self.slider.event(input);
        proof {
            let acts = self.slider.actions();
            if input == Some(Key::Escape) {
                assert(acts[0].0 == Key::Escape);
            }
        }
        self.slider.action("quit")
    }
}

} // verus!
