//! The shutdown signal: one flag that every loop of a session shares.
//!
//! Whoever wants the session to end sets the flag: an interrupt handler,
//! the closing of the window, the primary loop on its way out. Setting it
//! twice is the same as setting it once, and nothing ever clears it. Each
//! loop reads it once per tick.
use std::sync::atomic::AtomicBool;
use std::sync::atomic::Ordering;
use std::sync::Arc;
use vstd::prelude::*;

verus! {

/// A handle on the session's shutdown flag. Clones share the flag.
///
/// What a read returns depends on what other threads have done, so the
/// contracts here promise nothing about the value; the rules that follow
/// from an observed value are those of [`crate::tick::TickLoop`].
#[derive(Clone)]
pub struct ShouldExit(pub Arc<AtomicBool>);

impl ShouldExit {
    /// A fresh flag, not set.
    pub fn new() -> ShouldExit {
        ShouldExit(Arc::new(AtomicBool::new(false)))
    }

    /// Asks every loop that shares the flag to stop at its next check.
    pub fn request(&self) {
        self.0.store(true, Ordering::Relaxed);
    }

    /// Whether a stop was asked for, as far as this thread can see.
    pub fn is_requested(&self) -> bool {
        self.0.load(Ordering::Relaxed)
    }
}

} // verus!
