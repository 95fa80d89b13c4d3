//! The progress indicator as decisions. It always warms up for a fixed
//! number of ticks before it first asks whether the lookup has finished,
//! so every lookup is seen to take at least that long; after that it
//! stops as soon as the answer to that question is yes. The caller draws
//! the animation and sleeps.

use vstd::prelude::*;

verus! {

/// How many ticks the indicator makes before it first polls.
pub const WARMUP_TICKS: u32 = 100;

/// The pause after a warm-up tick, in microseconds.
pub const WARMUP_PAUSE: u64 = 3000;

/// The pause after a poll that found nothing, in microseconds.
pub const POLL_PAUSE: u64 = 1;

/// The state of the indicator: the warm-up ticks made so far, and whether
/// it has stopped.
#[derive(Debug, Clone, Copy, PartialEq, Eq, Structural)]
pub struct Indicator {
    pub ticks: u32,
    pub finished: bool,
}

/// What the caller does next.
#[derive(Debug, Clone, Copy, PartialEq, Eq, Structural)]
pub enum IndicatorStep {
    /// Advance the animation by one tick, then sleep this many
    /// microseconds.
    Tick(u64),
    /// Clear the animation and stop.
    Finish,
}

/// The indicator before its first tick.
pub open spec fn indicator_start() -> Indicator {
    Indicator { ticks: 0, finished: false }
}

/// Whether the indicator looks at the completion signal in its next step.
pub open spec fn indicator_polls(s: Indicator) -> bool {
    !s.finished && s.ticks >= WARMUP_TICKS
}

/// One step of the indicator. `arrived` says whether the completion
/// signal has come; during the warm-up it is not looked at.
pub open spec fn indicator_step(s: Indicator, arrived: bool) -> (Indicator, IndicatorStep) {
    if s.finished {
        (s, IndicatorStep::Finish)
    } else if s.ticks < WARMUP_TICKS {
        (Indicator { ticks: (s.ticks + 1) as u32, finished: false }, IndicatorStep::Tick(WARMUP_PAUSE))
    } else if arrived {
        (Indicator { ticks: s.ticks, finished: true }, IndicatorStep::Finish)
    } else {
        (s, IndicatorStep::Tick(POLL_PAUSE))
    }
}

/// The indicator after a run of steps, one for each entry of `signals`.
pub open spec fn indicator_after(signals: Seq<bool>) -> Indicator
    decreases signals.len(),
{
    if signals.len() == 0 {
        indicator_start()
    } else {
        indicator_step(indicator_after(signals.drop_last()), signals.last()).0
    }
}

/// The warm-up cannot be cut short: whatever the completion signal does,
/// the first `WARMUP_TICKS` steps are warm-up ticks with their full pause,
/// and the indicator has not stopped after them.
pub proof fn lemma_warm_up_runs_in_full(signals: Seq<bool>, arrived: bool)
    requires
        signals.len() <= WARMUP_TICKS,
    ensures
        indicator_after(signals) == (Indicator { ticks: signals.len() as u32, finished: false }),
        signals.len() < WARMUP_TICKS ==> indicator_step(indicator_after(signals), arrived).1
            == IndicatorStep::Tick(WARMUP_PAUSE),
    decreases signals.len(),
{
    if signals.len() > 0 {
        lemma_warm_up_runs_in_full(signals.drop_last(), signals.last());
    }
}

/// After the warm-up the indicator stops exactly when the signal has
/// come, and once stopped it stays stopped.
pub proof fn lemma_stops_on_signal(s: Indicator, arrived: bool)
    requires
        s.ticks >= WARMUP_TICKS,
    ensures
        indicator_step(s, arrived).1 == IndicatorStep::Finish <==> (s.finished || arrived),
        indicator_step(s, arrived).0.finished == (s.finished || arrived),
{
}

impl Indicator {
    /// The indicator before its first tick.
    pub fn new() -> (s: Indicator)
        ensures
            s == indicator_start(),
    {
        Indicator { ticks: 0, finished: false }
    }

    /// Whether the next step looks at the completion signal. The caller
    /// asks for the signal only then.
    pub fn polls(&self) -> (r: bool)
        ensures
            r == indicator_polls(*self),
    {
        !self.finished && self.ticks >= WARMUP_TICKS
    }

    /// Makes one step: see `indicator_step`.
    pub fn step(&mut self, arrived: bool) -> (action: IndicatorStep)
        ensures
            (*final(self), action) == indicator_step(*old(self), arrived),
    {
        if self.finished {
            IndicatorStep::Finish
        } else if self.ticks < WARMUP_TICKS {
            self.ticks = self.ticks + 1;
            IndicatorStep::Tick(WARMUP_PAUSE)
        } else if arrived {
            self.finished = true;
            IndicatorStep::Finish
        } else {
            IndicatorStep::Tick(POLL_PAUSE)
        }
    }
}

} // verus!
