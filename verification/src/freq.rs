//! The target clock profile: one declared core-clock target, with every PLL
//! divider, multiplier and timer reload derived from it as a named constant,
//! so that a frequency change is a one-point edit.

use vstd::prelude::*;

verus! {

/// Core clock frequency after bring-up, in hertz. The one declared target.
pub const CORE_CLOCK_HZ: u32 = 480_000_000;

/// Tick frequency of the timekeeping timer, in hertz: one tick per millisecond.
pub const TICK_FREQ_HZ: u32 = 1_000;

/// Frequency of the internal high-speed oscillator that feeds the PLL, in hertz.
pub const HSI_FREQ_HZ: u32 = 64_000_000;

/// Largest input frequency the PLL accepts, in hertz.
pub const PLL_MAX_INPUT_HZ: u32 = 16_000_000;

/// PLL input divider: reduces the oscillator into the PLL's allowed input range.
pub const PLL_DIVM: u32 = 4;

/// PLL output divider on the output that drives the system clock.
pub const PLL_DIVP: u32 = 1;

/// PLL integer multiplier, derived from the declared core-clock target.
pub const PLL_DIVN: u32 = CORE_CLOCK_HZ / (HSI_FREQ_HZ / PLL_DIVM) * PLL_DIVP;

/// Core-clock cycles per tick quantum: the timer period.
pub const CYCLES_PER_TICK: u32 = CORE_CLOCK_HZ / TICK_FREQ_HZ;

/// The frequency one PLL output runs at for a given configuration:
/// `reference / input_divider * multiplier / output_divider`.
pub open spec fn spec_pll_output(reference: int, divm: int, divn: int, divp: int) -> int {
    reference / divm * divn / divp
}

/// The PLL input-range constraint: the divided reference frequency must not
/// exceed the largest input the PLL accepts.
pub open spec fn spec_pll_input_ok(reference: int, divm: int) -> bool {
    divm > 0 && reference / divm <= PLL_MAX_INPUT_HZ
}

/// Computes the output frequency of a candidate PLL configuration.
pub fn pll_output_freq(reference: u32, divm: u32, divn: u32, divp: u32) -> (freq: u32)
    requires
        divm > 0,
        divp > 0,
        (reference as int) / (divm as int) * (divn as int) <= u32::MAX,
    ensures
        freq == spec_pll_output(reference as int, divm as int, divn as int, divp as int),
{
    reference / divm * divn / divp
}

/// Decides whether a reference frequency and input divider respect the PLL
/// input-range constraint.
pub fn pll_input_ok(reference: u32, divm: u32) -> (ok: bool)
    ensures
        ok == spec_pll_input_ok(reference as int, divm as int),
{
    divm > 0 && reference / divm <= PLL_MAX_INPUT_HZ
}

/// The reference configuration's PLL arithmetic lands exactly on the declared
/// core-clock target, and its divided reference respects the PLL input range.
pub proof fn lemma_profile_hits_target()
    ensures
        spec_pll_output(
            HSI_FREQ_HZ as int,
            PLL_DIVM as int,
            PLL_DIVN as int,
            PLL_DIVP as int,
        ) == CORE_CLOCK_HZ,
        spec_pll_input_ok(HSI_FREQ_HZ as int, PLL_DIVM as int),
{
    assert(HSI_FREQ_HZ as int / (PLL_DIVM as int) == 16_000_000);
    vstd::arithmetic::div_mod::lemma_div_multiples_vanish(30, 16_000_000);
    assert(CORE_CLOCK_HZ as int / 16_000_000 == 30);
    assert(PLL_DIVN == 30);
    assert(16_000_000 * (PLL_DIVN as int) == 480_000_000);
    vstd::arithmetic::div_mod::lemma_div_basics_2(480_000_000);
}

/// Reload value for the tick timer: it counts down from this and fires on
/// reaching zero, so the reload is one cycle less than the timer period.
pub fn tick_timer_reload() -> (reload: u32)
    ensures
        reload == CYCLES_PER_TICK - 1,
{
    CYCLES_PER_TICK - 1
}

} // verus!
