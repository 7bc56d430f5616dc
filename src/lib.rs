//! Navigation core of an interactive map editor: a record browser that steps
//! through a fixed sequence of records, a stack of modal screens driven by
//! transition requests, and the menu and picker logic that decides those
//! transitions.

use vstd::prelude::*;

pub mod devtools;
pub mod record_browser;
pub mod screen_stack;
pub mod text;
pub mod trips;

verus! {

} // verus!
