//! Verified core of a terminal dashboard that hosts a row of productivity
//! module cards: a pomodoro timer, a mood journal, and three placeholders.
//!
//! The library holds everything with real logic: the module catalog, the two
//! engine state machines, the dashboard controller that routes keys and ticks,
//! and the card-grid layout arithmetic. Terminal drawing and event polling
//! live outside, in the thin binary that drives this crate.

pub mod dashboard;
pub mod key;
pub mod layout;
pub mod mood_journal;
pub mod pomodoro;
pub mod state;

use vstd::prelude::*;

verus! {

} // verus!
