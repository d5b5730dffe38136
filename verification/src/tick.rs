//! The tick counter: a single shared unsigned word, initialized to zero when
//! the timer is armed, incremented by exactly one per timer firing, never
//! otherwise written, and wrapping at its width. The firing handler is the
//! sole writer; any number of readers may sample it at any time.

use vstd::prelude::*;

verus! {

/// The counter value after one more timer firing: an increment in the
/// counter's native width, wrapping at the top.
pub open spec fn spec_next_tick(t: u32) -> u32 {
    if t == u32::MAX {
        0
    } else {
        (t + 1) as u32
    }
}

/// The counter value after `k` firings starting from `initial`.
pub open spec fn spec_ticks_after(initial: u32, k: nat) -> u32
    decreases k,
{
    if k == 0 {
        initial
    } else {
        spec_next_tick(spec_ticks_after(initial, (k - 1) as nat))
    }
}

/// The process-wide tick counter.
pub struct TickCounter {
    /// Timer firings seen so far, modulo the counter's width.
    pub ticks: u32,
}

impl TickCounter {
    /// A freshly armed counter: it starts at zero.
    pub fn new() -> (c: TickCounter)
        ensures
            c.ticks == 0,
    {
        TickCounter { ticks: 0 }
    }

    /// A counter that already reads `t`: lets a test double place the counter
    /// anywhere, in particular just below the wraparound boundary.
    pub fn starting_at(t: u32) -> (c: TickCounter)
        ensures
            c.ticks == t,
    {
        TickCounter { ticks: t }
    }

    /// One timer firing: the sole write the counter ever sees, an increment
    /// by exactly one in the counter's native width.
    pub fn fire(&mut self)
        ensures
            final(self).ticks == spec_next_tick(old(self).ticks),
    {
        self.ticks = self.ticks.wrapping_add(1);
    }

    /// Samples the current count; no side effect.
    pub fn read(&self) -> (t: u32)
        ensures
            t == self.ticks,
    {
        self.ticks
    }
}

/// After exactly `k` timer firings with no overflow, the counter reads its
/// initial value plus `k`.
pub proof fn lemma_ticks_after_no_overflow(initial: u32, k: nat)
    requires
        initial + k <= u32::MAX,
    ensures
        spec_ticks_after(initial, k) == initial + k,
    decreases k,
{
    if k > 0 {
        lemma_ticks_after_no_overflow(initial, (k - 1) as nat);
    }
}

/// In full generality the counter counts firings modulo its width: after `k`
/// firings it reads `(initial + k) mod 2^32`, which covers the wraparound
/// case that the no-overflow law leaves out.
pub proof fn lemma_ticks_after_wraps(initial: u32, k: nat)
    ensures
        spec_ticks_after(initial, k) == ((initial + k) % 0x1_0000_0000) as u32,
    decreases k,
{
    if k > 0 {
        lemma_ticks_after_wraps(initial, (k - 1) as nat);
    }
}

} // verus!
