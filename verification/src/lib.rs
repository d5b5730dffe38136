//! Cold-start clock/power bring-up for a multi-domain system-on-chip,
//! together with a tick-based timekeeping and blocking-delay service.
//!
//! The hard part of a cold start is ordering: regulator mode, voltage scale,
//! overdrive, PLL configuration, bus prescalers, the clock-source switch and
//! flash access timing must each be applied and then confirmed by a hardware
//! readiness poll before the next stage may run. This crate models that
//! sequence as an explicit state machine ([`sequencer`]), the PLL arithmetic
//! as named constants derived from one declared target frequency ([`freq`]),
//! and the timekeeping service as a single-writer tick counter ([`tick`])
//! with a busy-wait delay ([`delay`]). The register writes themselves are
//! plain side effects a thin hardware shim performs on the sequencer's
//! instructions.

pub mod freq;

pub mod tick;

pub mod delay;

pub mod sequencer;

pub mod blink;
