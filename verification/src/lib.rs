//! Supervision core for the Stasis desktop shell.
//!
//! The shell keeps a long-running background worker process alive behind a
//! tray icon. This crate is the part with real invariants: the single
//! process-tracking slot, the spawn/stop decisions, and the lifecycle rules
//! that translate user intents (open, hide, quit-with-confirmation) into
//! actions. The unverified shell performs the operating-system work —
//! spawning, killing, showing windows, presenting dialogs — and feeds every
//! outcome back into the functions here, which make all decisions.

use vstd::prelude::*;

pub mod lifecycle;
pub mod supervisor;

verus! {

/// Entry hook for embeddings that configure nothing themselves: the desktop
/// shell drives the supervisor directly, so there is nothing to set up here.
pub fn run() {
}

} // verus!
