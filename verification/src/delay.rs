//! The delay service: block the caller until at least a requested number of
//! tick quanta have elapsed. Elapsed time is the difference of two counter
//! samples taken in the counter's native unsigned width, so a counter wrap
//! during the wait still yields the correct delta.

use crate::tick::TickCounter;
use crate::tick::spec_next_tick;
use vstd::prelude::*;

verus! {

/// Elapsed ticks from the sample `start` to the sample `now`: wraparound-safe
/// subtraction in the counter's native width.
pub open spec fn spec_elapsed(start: u32, now: u32) -> u32 {
    if now >= start {
        (now - start) as u32
    } else {
        (now - start + 0x1_0000_0000) as u32
    }
}

/// Advancing the counter by one firing advances the elapsed delta by exactly
/// one, until the delta itself would wrap.
pub proof fn lemma_elapsed_step(start: u32, now: u32)
    requires
        spec_elapsed(start, now) < u32::MAX,
    ensures
        spec_elapsed(start, spec_next_tick(now)) == spec_elapsed(start, now) + 1,
{
}

/// Decides whether a delay that snapshotted the counter at `start` is over
/// once the counter reads `now`: true exactly when at least `wait` quanta
/// have elapsed. The spin loop over the live hardware counter re-evaluates
/// this, and nothing else, each round.
pub fn delay_done(start: u32, now: u32, wait: u32) -> (done: bool)
    ensures
        done == (spec_elapsed(start, now) >= wait),
{
    now.wrapping_sub(start) >= wait
}

/// Blocks until at least `wait` tick quanta have elapsed, against a simulated
/// tick source: the counter is snapshotted at entry, and each poll that finds
/// the delay unfinished is followed by one timer firing, as a periodic
/// interrupt would supply. The caller resumes no earlier than `wait` quanta
/// after entry; with this one-firing-per-poll source it resumes exactly then.
pub fn delay(clock: &mut TickCounter, wait: u32)
    ensures
        spec_elapsed(old(clock).ticks, final(clock).ticks) >= wait,
        spec_elapsed(old(clock).ticks, final(clock).ticks) == wait,
{
    let start = clock.read();
    loop
        invariant
            spec_elapsed(start, clock.ticks) <= wait,
        ensures
            spec_elapsed(start, clock.ticks) == wait,
        decreases wait - spec_elapsed(start, clock.ticks),
    {
        let now = clock.read();
        if delay_done(start, now, wait) {
            break;
        }
        proof {
            lemma_elapsed_step(start, now);
        }
        clock.fire();
    }
}

} // verus!
