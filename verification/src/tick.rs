//! The order of work inside a tick, and the rule by which a loop stops.
//!
//! A tick purges the connections that were seen to disconnect in the tick
//! before, pumps the transport's callbacks, drains and applies the
//! connection events, runs the simulation and then looks at the shutdown
//! flag. A set flag ends the loop at the end of the tick in which it is
//! seen; there is no stopping in the middle of a tick, and no tick begins
//! after the loop has stopped.
//!
//! [`TickLoop`] holds where a loop stands. The driver calls
//! [`TickLoop::advance`], does what the returned phase names, and calls
//! again.
use crate::shutdown::ShouldExit;
use vstd::prelude::*;

verus! {

/// Where a loop stands, which is also what its driver has to do now.
#[derive(Clone, Copy, Debug, PartialEq, Eq, Structural)]
pub enum TickPhase {
    /// Between ticks: wait for the next tick to fall due.
    Idle,
    /// Purge the tracker of disconnected entries.
    Purge,
    /// Pump the transport's pending callbacks.
    Pump,
    /// Poll the pending connection events and apply them.
    Drain,
    /// Run the simulation systems.
    Simulate,
    /// Read the shutdown flag.
    Check,
    /// The loop is over: tear down.
    Stopped,
}

/// A loop's position: its phase and the number of ticks it has begun.
pub struct TickState {
    pub phase: TickPhase,
    pub ticks: nat,
}

/// The position after one step. `observed` is the value of the shutdown
/// flag as the driver read it; it counts only at the end of the `Check`
/// phase.
pub open spec fn step(state: TickState, observed: bool) -> TickState {
    match state.phase {
        TickPhase::Idle => TickState {
            phase: TickPhase::Purge,
            ticks: if state.ticks < u64::MAX {
                state.ticks + 1
            } else {
                state.ticks
            },
        },
        TickPhase::Purge => TickState { phase: TickPhase::Pump, ..state },
        TickPhase::Pump => TickState { phase: TickPhase::Drain, ..state },
        TickPhase::Drain => TickState { phase: TickPhase::Simulate, ..state },
        TickPhase::Simulate => TickState { phase: TickPhase::Check, ..state },
        TickPhase::Check => TickState {
            phase: if observed {
                TickPhase::Stopped
            } else {
                TickPhase::Idle
            },
            ..state
        },
        TickPhase::Stopped => state,
    }
}

/// The position after a run of steps, one observation of the flag each.
pub open spec fn run(state: TickState, observed: Seq<bool>) -> TickState
    decreases observed.len(),
{
    if observed.len() == 0 {
        state
    } else {
        step(run(state, observed.drop_last()), observed.last())
    }
}

/// Whether the flag reads as set at every step of the run.
pub open spec fn all_set(observed: Seq<bool>) -> bool {
    forall|i: int| 0 <= i < observed.len() ==> #[trigger] observed[i]
}

/// The tick loop of one execution context.
#[derive(Clone, Copy, Debug)]
pub struct TickLoop {
    phase: TickPhase,
    ticks: u64,
}

impl View for TickLoop {
    type V = TickState;

    closed spec fn view(&self) -> TickState {
        TickState { phase: self.phase, ticks: self.ticks as nat }
    }
}

impl TickLoop {
    /// A loop that has not begun its first tick.
    pub fn new() -> (fresh: TickLoop)
        ensures
            fresh@ == (TickState { phase: TickPhase::Idle, ticks: 0 }),
    {
        TickLoop { phase: TickPhase::Idle, ticks: 0 }
    }

    /// The current phase.
    pub fn phase(&self) -> (phase: TickPhase)
        ensures
            phase == self@.phase,
    {
        self.phase
    }

    /// The number of ticks begun so far. The count stays at `u64::MAX`
    /// once it is there.
    pub fn ticks(&self) -> (ticks: u64)
        ensures
            ticks == self@.ticks,
    {
        self.ticks
    }

    /// Whether the loop is over.
    pub fn is_stopped(&self) -> (stopped: bool)
        ensures
            stopped == (self@.phase == TickPhase::Stopped),
    {
        match self.phase {
            TickPhase::Stopped => true,
            _ => false,
        }
    }

    /// Completes the current phase and enters the next one, which is
    /// returned. `shutdown_observed` is what the driver read from the
    /// shutdown flag; it decides, at the end of `Check`, between another
    /// tick and the end of the loop, and is not looked at elsewhere.
    pub fn advance(&mut self, shutdown_observed: bool) -> (entered: TickPhase)
        ensures
            final(self)@ == step(old(self)@, shutdown_observed),
            entered == final(self)@.phase,
    {
        match self.phase {
            TickPhase::Idle => {
                if self.ticks < u64::MAX {
                    self.ticks = self.ticks + 1;
                }
                self.phase = TickPhase::Purge;
            },
            TickPhase::Purge => {
                self.phase = TickPhase::Pump;
            },
            TickPhase::Pump => {
                self.phase = TickPhase::Drain;
            },
            TickPhase::Drain => {
                self.phase = TickPhase::Simulate;
            },
            TickPhase::Simulate => {
                self.phase = TickPhase::Check;
            },
            TickPhase::Check => {
                if shutdown_observed {
                    self.phase = TickPhase::Stopped;
                } else {
                    self.phase = TickPhase::Idle;
                }
            },
            TickPhase::Stopped => {},
        }
        self.phase
    }
}

/// Reads the shutdown flag and advances the loop with what was read. In
/// the `Check` phase this is the loop's exit check: the loop stops if the
/// flag was seen set and goes on to the next tick if not. What is read
/// depends on the other holders of the flag, so the loop is promised to
/// be in one of the two positions that [`step`] allows.
pub fn watch_exit(should_exit: &ShouldExit, tick: &mut TickLoop) -> (entered: TickPhase)
    ensures
        final(tick)@ == step(old(tick)@, true) || final(tick)@ == step(old(tick)@, false),
        entered == final(tick)@.phase,
{
    let observed = should_exit.is_requested();
    tick.advance(observed)
}

/// A loop that has stopped stays stopped and begins no tick, whatever
/// the flag reads afterwards.
pub proof fn law_stopped_is_final(state: TickState, observed: Seq<bool>)
    requires
        state.phase == TickPhase::Stopped,
    ensures
        run(state, observed) == state,
    decreases observed.len(),
{
    if observed.len() > 0 {
        law_stopped_is_final(state, observed.drop_last());
    }
}

/// The number of ticks begun never goes down, and a step begins a tick
/// only from `Idle`.
pub proof fn law_ticks_only_begin_when_idle(state: TickState, observed: bool)
    ensures
        step(state, observed).ticks >= state.ticks,
        step(state, observed).ticks != state.ticks ==> state.phase == TickPhase::Idle,
        step(state, observed).phase == TickPhase::Purge ==> state.phase == TickPhase::Idle,
{
}

/// Once the flag is set during a tick, no further tick begins: from any
/// point inside a tick, on a flag that reads as set from then on, the
/// loop finishes the tick it is in, never returns to `Idle`, from where
/// alone a tick begins, and has stopped after at most five steps.
pub proof fn law_no_tick_after_signal(state: TickState, observed: Seq<bool>)
    requires
        state.phase != TickPhase::Idle,
        all_set(observed),
    ensures
        run(state, observed).ticks == state.ticks,
        run(state, observed).phase != TickPhase::Idle,
        observed.len() >= 5 ==> run(state, observed).phase == TickPhase::Stopped,
    decreases observed.len(),
{
    if observed.len() > 0 {
        let head = observed.drop_last();
        assert(all_set(head)) by {
            assert forall|i: int| 0 <= i < head.len() implies #[trigger] head[i] by {
                assert(observed[i]);
            }
        }
        law_no_tick_after_signal(state, head);
        lemma_progress(state, observed);
    }
}

spec fn depth(phase: TickPhase) -> int {
    match phase {
        TickPhase::Idle => 0,
        TickPhase::Purge => 1,
        TickPhase::Pump => 2,
        TickPhase::Drain => 3,
        TickPhase::Simulate => 4,
        TickPhase::Check => 5,
        TickPhase::Stopped => 6,
    }
}

proof fn lemma_progress(state: TickState, observed: Seq<bool>)
    requires
        state.phase != TickPhase::Idle,
        all_set(observed),
    ensures
        depth(run(state, observed).phase) >= depth(state.phase) + observed.len()
            || run(state, observed).phase == TickPhase::Stopped,
    decreases observed.len(),
{
    if observed.len() > 0 {
        let head = observed.drop_last();
        assert(all_set(head)) by {
            assert forall|i: int| 0 <= i < head.len() implies #[trigger] head[i] by {
                assert(observed[i]);
            }
        }
        lemma_progress(state, head);
    }
}

/// The flag seen set at the check of a tick ends the loop with that
/// tick: whatever follows, the count of ticks begun stays what it was.
pub proof fn law_check_ends_loop(state: TickState, later: Seq<bool>)
    requires
        state.phase == TickPhase::Check,
    ensures
        step(state, true).phase == TickPhase::Stopped,
        run(step(state, true), later).phase == TickPhase::Stopped,
        run(step(state, true), later).ticks == state.ticks,
{
    law_stopped_is_final(step(state, true), later);
}

/// A loop whose flag is never seen set never stops.
pub proof fn law_unset_flag_keeps_running(state: TickState, observed: Seq<bool>)
    requires
        state.phase != TickPhase::Stopped,
        forall|i: int| 0 <= i < observed.len() ==> !#[trigger] observed[i],
    ensures
        run(state, observed).phase != TickPhase::Stopped,
    decreases observed.len(),
{
    if observed.len() > 0 {
        let head = observed.drop_last();
        assert forall|i: int| 0 <= i < head.len() implies !#[trigger] head[i] by {
            assert(!observed[i]);
        }
        law_unset_flag_keeps_running(state, head);
    }
}

} // verus!
