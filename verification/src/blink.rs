//! The application loop's single-iteration body: drive the output line to a
//! level, record the transition, and hold the level for one delay interval.
//! The loop itself runs forever on hardware; its body is extracted here so
//! the pattern it produces — alternating levels, each held for exactly one
//! delay's worth of ticks — can be stated and checked on the first `n`
//! transitions.

use crate::delay::delay;
use crate::delay::spec_elapsed;
use crate::tick::TickCounter;
use vstd::prelude::*;

verus! {

/// One observed transition of the output line.
#[derive(Clone, Copy, PartialEq, Eq, Structural, Debug)]
pub struct Transition {
    /// The counter sample at the instant the line was driven.
    pub at: u32,
    /// The level the line was driven to; `true` is high.
    pub level: bool,
}

/// The level the loop drives at its `i`-th transition when it starts high:
/// high on even transitions, low on odd ones.
pub open spec fn spec_level_at(i: nat) -> bool {
    i % 2 == 0
}

/// Adjacent transitions always drive opposite levels: the pattern alternates.
pub proof fn lemma_levels_alternate(i: nat)
    ensures
        spec_level_at(i + 1) == !spec_level_at(i),
{
}

/// One iteration of the application loop: drive the line to `level`, record
/// the transition, and hold that level for `interval` ticks. Returns the
/// level the next iteration must drive — always the opposite one.
pub fn blink_step(
    trace: &mut Vec<Transition>,
    clock: &mut TickCounter,
    level: bool,
    interval: u32,
) -> (next: bool)
    ensures
        next == !level,
        final(trace)@ == old(trace)@.push(Transition { at: old(clock).ticks, level }),
        spec_elapsed(old(clock).ticks, final(clock).ticks) == interval,
{
    let at = clock.read();
    trace.push(Transition { at, level });
    delay(clock, interval);
    !level
}

/// Captures the first `n` transitions of the application loop, started on a
/// high level against a simulated tick source. The captured levels
/// alternate, beginning high, and consecutive transitions stand exactly
/// `interval` ticks apart — so each level was held for one full delay.
pub fn capture_blink(clock: &mut TickCounter, interval: u32, n: usize) -> (trace: Vec<
    Transition,
>)
    ensures
        trace@.len() == n,
        forall|k: int| 0 <= k < n ==> trace@[k].level == spec_level_at(k as nat),
        forall|k: int|
            0 <= k < n - 1 ==> spec_elapsed(#[trigger] trace@[k].at, trace@[k + 1].at)
                == interval,
        n > 0 ==> trace@[0].at == old(clock).ticks,
{
    let mut trace: Vec<Transition> = Vec::new();
    let mut level = true;
    let mut i: usize = 0;
    while i < n
        invariant
            i <= n,
            trace@.len() == i,
            level == spec_level_at(i as nat),
            forall|k: int| 0 <= k < i ==> trace@[k].level == spec_level_at(k as nat),
            forall|k: int|
                0 <= k < i - 1 ==> spec_elapsed(#[trigger] trace@[k].at, trace@[k + 1].at)
                    == interval,
            i > 0 ==> spec_elapsed(trace@[i - 1].at, clock.ticks) == interval,
            i == 0 ==> clock.ticks == old(clock).ticks,
            i > 0 ==> trace@[0].at == old(clock).ticks,
        decreases n - i,
    {
        level = blink_step(&mut trace, clock, level, interval);
        i = i + 1;
    }
    trace
}

} // verus!
