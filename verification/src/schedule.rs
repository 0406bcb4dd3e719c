//! The tick schedule of a fixed-rate loop.
use vstd::arithmetic::div_mod::lemma_fundamental_div_mod;
use vstd::prelude::*;

verus! {

/// Nanoseconds in a second.
pub const NANOS_PER_SECOND: u64 = 1_000_000_000;

/// A configuration that no session can run on.
#[derive(Clone, Copy, Debug, PartialEq, Eq, Structural)]
pub enum ConfigError {
    /// The tick rate is zero: there is no period of `1 / 0` seconds.
    ZeroTickRate,
    /// The session is asked to be a dedicated server without a server.
    NothingToRun,
}

/// What a loop does between the end of one tick's work and the next tick.
#[derive(Clone, Copy, Debug, PartialEq, Eq, Structural)]
pub enum Pacing {
    /// The work took no longer than a period: wait for the rest of it.
    Sleep { nanos: u64 },
    /// The work took longer than a period by `nanos`: log the overrun and
    /// start the next tick at once. No tick is skipped.
    Overrun { nanos: u64 },
}

/// The pacing after work that took `elapsed` nanoseconds, on a period of
/// `period` nanoseconds.
pub open spec fn pacing(period: nat, elapsed: u64) -> Pacing {
    if elapsed <= period {
        Pacing::Sleep { nanos: (period - elapsed) as u64 }
    } else {
        Pacing::Overrun { nanos: (elapsed - period) as u64 }
    }
}

/// A tick rate, in ticks per second, and the period that follows from it.
#[derive(Clone, Copy, Debug)]
pub struct TickSchedule {
    rate: u16,
}

impl TickSchedule {
    /// The rate, in ticks per second.
    pub closed spec fn ticks_per_second(&self) -> nat {
        self.rate as nat
    }

    /// The schedule's invariant: the rate is strictly positive.
    pub open spec fn wf(&self) -> bool {
        0 < self.ticks_per_second() <= u16::MAX
    }

    /// The target period in whole nanoseconds: a second divided by the
    /// rate, rounded down.
    pub open spec fn period(&self) -> nat {
        NANOS_PER_SECOND as nat / self.ticks_per_second()
    }

    /// The schedule for `rate` ticks per second. A rate of zero is a
    /// configuration error.
    pub fn new(rate: u16) -> (schedule: Result<TickSchedule, ConfigError>)
        ensures
            match schedule {
                Ok(s) => rate > 0 && s.wf() && s.ticks_per_second() == rate,
                Err(e) => rate == 0 && e == ConfigError::ZeroTickRate,
            },
    {
        if rate == 0 {
            Err(ConfigError::ZeroTickRate)
        } else {
            Ok(TickSchedule { rate })
        }
    }

    /// The rate, in ticks per second.
    pub fn rate(&self) -> (rate: u16)
        ensures
            rate == self.ticks_per_second(),
    {
        self.rate
    }

    /// The target period of a tick, in nanoseconds.
    pub fn period_nanos(&self) -> (nanos: u64)
        requires
            self.wf(),
        ensures
            nanos == self.period(),
    {
        NANOS_PER_SECOND / (self.rate as u64)
    }

    /// Decides what follows a tick whose work took `elapsed_nanos`: the
    /// rest of the period is slept, an overrun is reported and not slept.
    pub fn pace(&self, elapsed_nanos: u64) -> (next: Pacing)
        requires
            self.wf(),
        ensures
            next == pacing(self.period(), elapsed_nanos),
    {
        let period: u64 = self.period_nanos();
        if elapsed_nanos <= period {
            Pacing::Sleep { nanos: period - elapsed_nanos }
        } else {
            Pacing::Overrun { nanos: elapsed_nanos - period }
        }
    }
}

/// The period is the longest whole number of nanoseconds of which `rate`
/// fit into a second: `rate` periods do not exceed a second, and a period
/// one nanosecond longer would.
pub proof fn law_period_fills_second(schedule: TickSchedule)
    requires
        schedule.wf(),
    ensures
        schedule.period() * schedule.ticks_per_second() <= NANOS_PER_SECOND,
        NANOS_PER_SECOND < (schedule.period() + 1) * schedule.ticks_per_second(),
        1 <= schedule.period() <= NANOS_PER_SECOND,
{
    let rate: int = schedule.ticks_per_second() as int;
    let second: int = NANOS_PER_SECOND as int;
    lemma_fundamental_div_mod(second, rate);
    assert((second / rate + 1) * rate == rate * (second / rate) + rate) by (nonlinear_arith);
    assert((second / rate) * rate == rate * (second / rate)) by (nonlinear_arith);
    assert(second / rate >= 1) by (nonlinear_arith)
        requires
            0 < rate <= 65535,
            second == 1_000_000_000,
            second == rate * (second / rate) + second % rate,
            0 <= second % rate < rate,
    ;
    assert(second / rate <= second) by (nonlinear_arith)
        requires
            0 < rate,
            second >= 0,
            second == rate * (second / rate) + second % rate,
            0 <= second % rate < rate,
    ;
}

/// A tick that is not behind takes exactly one period: its work and its
/// sleep add up to it. A tick that is behind is not slept at all.
pub proof fn law_pacing_keeps_period(schedule: TickSchedule, elapsed: u64)
    requires
        schedule.wf(),
    ensures
        elapsed <= schedule.period() ==> pacing(schedule.period(), elapsed) is Sleep && elapsed
            + pacing(schedule.period(), elapsed)->Sleep_nanos == schedule.period(),
        elapsed > schedule.period() ==> pacing(schedule.period(), elapsed) is Overrun
            && schedule.period() + pacing(schedule.period(), elapsed)->Overrun_nanos == elapsed,
{
    law_period_fills_second(schedule);
}

} // verus!
