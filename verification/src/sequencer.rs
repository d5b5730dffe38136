//! The clock/power bring-up sequencer: an explicit state machine over the
//! ordered stages that take the chip from reset defaults to the target
//! operating point. Each stage is either a register write or a readiness
//! poll; the machine, handed the latest readiness observation, decides the
//! next stage, and a thin hardware shim performs the writes and reads the
//! status bits. A poll that never becomes ready keeps the machine in place
//! forever: fail-stop is the designed behaviour, there is no fallback
//! operating point.

use vstd::prelude::*;

verus! {

/// Control-register bits kept when selecting the direct regulator supply on
/// the primary power domain: every bit outside this mask is cleared.
pub const REGULATOR_DIRECT_KEEP_MASK: u32 = 0xffff_ffc4;

/// Voltage-scale code programmed on the power controller before overdrive.
pub const VOLTAGE_SCALE_CODE: u8 = 0x03;

/// Code the clock-switch status field reports once the system clock runs
/// from the PLL; the switch poll compares the read-back against this.
pub const SYSCLK_PLL_STATUS_CODE: u8 = 0x3;

/// Flash frequency-class parameter sized for the new bus clock and voltage.
pub const FLASH_WRHIGHFREQ_CODE: u8 = 0x02;

/// Flash access latency, in wait states, for the new bus clock and voltage.
pub const FLASH_LATENCY_CODE: u8 = 0x04;

/// System-clock prescaler programmed after the PLL runs: undivided.
pub const SYSCLK_PRESCALE_DIV: u32 = 1;

/// First peripheral-bus prescaler: that bus runs at half the core clock.
pub const BUS_PRESCALE_DIV: u32 = 2;

/// The ordered stages of the bring-up sequence. Write stages issue one
/// register write; `Await` stages poll one hardware readiness condition.
#[derive(Clone, Copy, PartialEq, Eq, Structural, Debug)]
pub enum Stage {
    /// Clear the regulator control bits that select anything but the direct
    /// supply mode on the primary power domain.
    SelectRegulatorMode,
    /// Program the target voltage scale on the power controller.
    ProgramVoltageScale,
    /// Poll the voltage-ready flag for the new scale.
    AwaitVoltageReady,
    /// Gate the system-configuration block's clock on.
    EnableSysCfgClock,
    /// Enable overdrive through the system-configuration block.
    EnableOverdrive,
    /// Poll the voltage-ready flag again: overdrive changes its meaning.
    AwaitOverdriveReady,
    /// Select the PLL input source and the input divider that brings the
    /// reference into the PLL's allowed input range.
    SelectPllSource,
    /// Enable only the PLL output that feeds the system clock, disable the
    /// unused outputs and fractional mode, and pick the oscillator range
    /// matching the divided reference.
    ConfigurePllOutputs,
    /// Program the PLL output divider and integer multiplier.
    ProgramPllDividers,
    /// Switch the PLL on.
    EnablePll,
    /// Poll the PLL lock flag.
    AwaitPllReady,
    /// Program the system-clock and peripheral-bus prescalers.
    ProgramBusPrescalers,
    /// Switch the system-clock multiplexer to the PLL.
    SwitchSystemClock,
    /// Poll the switch status field until it reads the PLL back.
    AwaitClockSwitch,
    /// Program flash access latency and frequency class for the new bus clock.
    ProgramFlashTiming,
    /// Poll until both flash timing fields read back as written.
    AwaitFlashTiming,
    /// Arm the periodic tick timer; the sequencer's final act.
    ArmTickTimer,
    /// Bring-up finished; the machine stays here.
    Complete,
}

/// The register writes a hardware shim must know how to issue, one per write
/// stage. The field values each write carries are the named constants of
/// this module and of [`crate::freq`].
#[derive(Clone, Copy, PartialEq, Eq, Structural, Debug)]
pub enum RegWrite {
    /// Keep only [`REGULATOR_DIRECT_KEEP_MASK`] in the regulator control word.
    RegulatorSmpsDirect,
    /// Voltage scale := [`VOLTAGE_SCALE_CODE`].
    VoltageScale,
    /// System-configuration clock gate := enabled.
    SysCfgClockEnable,
    /// Overdrive := enabled.
    OverdriveEnable,
    /// PLL source := internal oscillator, input divider := [`crate::freq::PLL_DIVM`].
    PllSource,
    /// System-clock output on, other outputs off, integer mode, wide
    /// oscillator range for the divided reference.
    PllOutputs,
    /// Output divider := [`crate::freq::PLL_DIVP`], multiplier := [`crate::freq::PLL_DIVN`].
    PllDividers,
    /// PLL := on.
    PllEnable,
    /// System prescaler := [`SYSCLK_PRESCALE_DIV`], bus prescaler := [`BUS_PRESCALE_DIV`].
    BusPrescalers,
    /// System-clock source := PLL.
    SystemClockSelect,
    /// Flash latency := [`FLASH_LATENCY_CODE`], class := [`FLASH_WRHIGHFREQ_CODE`].
    FlashTiming,
    /// Tick timer reload := [`crate::freq::CYCLES_PER_TICK`] − 1, counter
    /// cleared, counting and interrupt enabled.
    TickTimerArm,
}

/// The hardware readiness conditions the poll stages wait on.
#[derive(Clone, Copy, PartialEq, Eq, Structural, Debug)]
pub enum ReadyFlag {
    /// The power controller reports the programmed voltage reached.
    VoltageReady,
    /// The PLL reports lock.
    PllLocked,
    /// The clock-switch status field reads [`SYSCLK_PLL_STATUS_CODE`] back.
    SystemClockIsPll,
    /// Both flash timing fields read back as written.
    FlashTimingApplied,
}

/// What the shim must do for one stage: issue a write, evaluate a readiness
/// condition, or nothing because bring-up is complete.
#[derive(Clone, Copy, PartialEq, Eq, Structural, Debug)]
pub enum Action {
    /// Issue this register write, then step the machine.
    Write(RegWrite),
    /// Read this readiness condition and hand the observation to the machine.
    Poll(ReadyFlag),
    /// Bring-up is complete; there is nothing left to do.
    Done,
}

/// Position of a stage in the fixed bring-up order.
pub open spec fn spec_stage_index(s: Stage) -> nat {
    match s {
        Stage::SelectRegulatorMode => 0,
        Stage::ProgramVoltageScale => 1,
        Stage::AwaitVoltageReady => 2,
        Stage::EnableSysCfgClock => 3,
        Stage::EnableOverdrive => 4,
        Stage::AwaitOverdriveReady => 5,
        Stage::SelectPllSource => 6,
        Stage::ConfigurePllOutputs => 7,
        Stage::ProgramPllDividers => 8,
        Stage::EnablePll => 9,
        Stage::AwaitPllReady => 10,
        Stage::ProgramBusPrescalers => 11,
        Stage::SwitchSystemClock => 12,
        Stage::AwaitClockSwitch => 13,
        Stage::ProgramFlashTiming => 14,
        Stage::AwaitFlashTiming => 15,
        Stage::ArmTickTimer => 16,
        Stage::Complete => 17,
    }
}

/// The stage is a readiness poll.
pub open spec fn spec_is_poll(s: Stage) -> bool {
    match s {
        Stage::AwaitVoltageReady => true,
        Stage::AwaitOverdriveReady => true,
        Stage::AwaitPllReady => true,
        Stage::AwaitClockSwitch => true,
        Stage::AwaitFlashTiming => true,
        _ => false,
    }
}

/// The write stage whose effect a poll stage confirms. Meaningful only on
/// poll stages; elsewhere it returns the stage itself.
pub open spec fn spec_write_of(p: Stage) -> Stage {
    match p {
        Stage::AwaitVoltageReady => Stage::ProgramVoltageScale,
        Stage::AwaitOverdriveReady => Stage::EnableOverdrive,
        Stage::AwaitPllReady => Stage::EnablePll,
        Stage::AwaitClockSwitch => Stage::SwitchSystemClock,
        Stage::AwaitFlashTiming => Stage::ProgramFlashTiming,
        _ => p,
    }
}

/// What the shim must do at a stage.
pub open spec fn spec_action(s: Stage) -> Action {
    match s {
        Stage::SelectRegulatorMode => Action::Write(RegWrite::RegulatorSmpsDirect),
        Stage::ProgramVoltageScale => Action::Write(RegWrite::VoltageScale),
        Stage::AwaitVoltageReady => Action::Poll(ReadyFlag::VoltageReady),
        Stage::EnableSysCfgClock => Action::Write(RegWrite::SysCfgClockEnable),
        Stage::EnableOverdrive => Action::Write(RegWrite::OverdriveEnable),
        Stage::AwaitOverdriveReady => Action::Poll(ReadyFlag::VoltageReady),
        Stage::SelectPllSource => Action::Write(RegWrite::PllSource),
        Stage::ConfigurePllOutputs => Action::Write(RegWrite::PllOutputs),
        Stage::ProgramPllDividers => Action::Write(RegWrite::PllDividers),
        Stage::EnablePll => Action::Write(RegWrite::PllEnable),
        Stage::AwaitPllReady => Action::Poll(ReadyFlag::PllLocked),
        Stage::ProgramBusPrescalers => Action::Write(RegWrite::BusPrescalers),
        Stage::SwitchSystemClock => Action::Write(RegWrite::SystemClockSelect),
        Stage::AwaitClockSwitch => Action::Poll(ReadyFlag::SystemClockIsPll),
        Stage::ProgramFlashTiming => Action::Write(RegWrite::FlashTiming),
        Stage::AwaitFlashTiming => Action::Poll(ReadyFlag::FlashTimingApplied),
        Stage::ArmTickTimer => Action::Write(RegWrite::TickTimerArm),
        Stage::Complete => Action::Done,
    }
}

/// The transition function: where the machine stands after one stage runs.
/// A write stage always moves on once its write is issued; a poll stage
/// moves on exactly when the observation was ready, and otherwise re-polls;
/// the complete stage stays put. `ready` is the latest readiness
/// observation and is read only at poll stages.
pub open spec fn spec_advance(s: Stage, ready: bool) -> Stage {
    match s {
        Stage::SelectRegulatorMode => Stage::ProgramVoltageScale,
        Stage::ProgramVoltageScale => Stage::AwaitVoltageReady,
        Stage::AwaitVoltageReady => if ready {
            Stage::EnableSysCfgClock
        } else {
            Stage::AwaitVoltageReady
        },
        Stage::EnableSysCfgClock => Stage::EnableOverdrive,
        Stage::EnableOverdrive => Stage::AwaitOverdriveReady,
        Stage::AwaitOverdriveReady => if ready {
            Stage::SelectPllSource
        } else {
            Stage::AwaitOverdriveReady
        },
        Stage::SelectPllSource => Stage::ConfigurePllOutputs,
        Stage::ConfigurePllOutputs => Stage::ProgramPllDividers,
        Stage::ProgramPllDividers => Stage::EnablePll,
        Stage::EnablePll => Stage::AwaitPllReady,
        Stage::AwaitPllReady => if ready {
            Stage::ProgramBusPrescalers
        } else {
            Stage::AwaitPllReady
        },
        Stage::ProgramBusPrescalers => Stage::SwitchSystemClock,
        Stage::SwitchSystemClock => Stage::AwaitClockSwitch,
        Stage::AwaitClockSwitch => if ready {
            Stage::ProgramFlashTiming
        } else {
            Stage::AwaitClockSwitch
        },
        Stage::ProgramFlashTiming => Stage::AwaitFlashTiming,
        Stage::AwaitFlashTiming => if ready {
            Stage::ArmTickTimer
        } else {
            Stage::AwaitFlashTiming
        },
        Stage::ArmTickTimer => Stage::Complete,
        Stage::Complete => Stage::Complete,
    }
}

/// The stage the sequencer starts at after reset.
pub fn initial_stage() -> (s: Stage)
    ensures
        s == Stage::SelectRegulatorMode,
{
    Stage::SelectRegulatorMode
}

/// What the shim must do at stage `s`.
pub fn action_of(s: Stage) -> (a: Action)
    ensures
        a == spec_action(s),
{
    match s {
        Stage::SelectRegulatorMode => Action::Write(RegWrite::RegulatorSmpsDirect),
        Stage::ProgramVoltageScale => Action::Write(RegWrite::VoltageScale),
        Stage::AwaitVoltageReady => Action::Poll(ReadyFlag::VoltageReady),
        Stage::EnableSysCfgClock => Action::Write(RegWrite::SysCfgClockEnable),
        Stage::EnableOverdrive => Action::Write(RegWrite::OverdriveEnable),
        Stage::AwaitOverdriveReady => Action::Poll(ReadyFlag::VoltageReady),
        Stage::SelectPllSource => Action::Write(RegWrite::PllSource),
        Stage::ConfigurePllOutputs => Action::Write(RegWrite::PllOutputs),
        Stage::ProgramPllDividers => Action::Write(RegWrite::PllDividers),
        Stage::EnablePll => Action::Write(RegWrite::PllEnable),
        Stage::AwaitPllReady => Action::Poll(ReadyFlag::PllLocked),
        Stage::ProgramBusPrescalers => Action::Write(RegWrite::BusPrescalers),
        Stage::SwitchSystemClock => Action::Write(RegWrite::SystemClockSelect),
        Stage::AwaitClockSwitch => Action::Poll(ReadyFlag::SystemClockIsPll),
        Stage::ProgramFlashTiming => Action::Write(RegWrite::FlashTiming),
        Stage::AwaitFlashTiming => Action::Poll(ReadyFlag::FlashTimingApplied),
        Stage::ArmTickTimer => Action::Write(RegWrite::TickTimerArm),
        Stage::Complete => Action::Done,
    }
}

/// Steps the machine: `ready` is the observation the shim just made for the
/// current stage's readiness condition (and is ignored at write stages).
pub fn advance(s: Stage, ready: bool) -> (n: Stage)
    ensures
        n == spec_advance(s, ready),
{
    match s {
        Stage::SelectRegulatorMode => Stage::ProgramVoltageScale,
        Stage::ProgramVoltageScale => Stage::AwaitVoltageReady,
        Stage::AwaitVoltageReady => if ready {
            Stage::EnableSysCfgClock
        } else {
            Stage::AwaitVoltageReady
        },
        Stage::EnableSysCfgClock => Stage::EnableOverdrive,
        Stage::EnableOverdrive => Stage::AwaitOverdriveReady,
        Stage::AwaitOverdriveReady => if ready {
            Stage::SelectPllSource
        } else {
            Stage::AwaitOverdriveReady
        },
        Stage::SelectPllSource => Stage::ConfigurePllOutputs,
        Stage::ConfigurePllOutputs => Stage::ProgramPllDividers,
        Stage::ProgramPllDividers => Stage::EnablePll,
        Stage::EnablePll => Stage::AwaitPllReady,
        Stage::AwaitPllReady => if ready {
            Stage::ProgramBusPrescalers
        } else {
            Stage::AwaitPllReady
        },
        Stage::ProgramBusPrescalers => Stage::SwitchSystemClock,
        Stage::SwitchSystemClock => Stage::AwaitClockSwitch,
        Stage::AwaitClockSwitch => if ready {
            Stage::ProgramFlashTiming
        } else {
            Stage::AwaitClockSwitch
        },
        Stage::ProgramFlashTiming => Stage::AwaitFlashTiming,
        Stage::AwaitFlashTiming => if ready {
            Stage::ArmTickTimer
        } else {
            Stage::AwaitFlashTiming
        },
        Stage::ArmTickTimer => Stage::Complete,
        Stage::Complete => Stage::Complete,
    }
}

/// The machine is done.
pub fn is_complete(s: Stage) -> (r: bool)
    ensures
        r == (s == Stage::Complete),
{
    match s {
        Stage::Complete => true,
        _ => false,
    }
}

/// The sequencer only moves forward: no observation sends it to an earlier
/// stage, and one step advances by at most one stage.
pub proof fn lemma_advance_monotone(s: Stage, ready: bool)
    ensures
        spec_stage_index(s) <= spec_stage_index(spec_advance(s, ready)),
        spec_stage_index(spec_advance(s, ready)) <= spec_stage_index(s) + 1,
{
}

/// A stage repeats only while it is an unsatisfied readiness poll, or once
/// the whole sequence is complete: every register write, once issued, is
/// left behind in one step, so no write is ever issued twice.
pub proof fn lemma_only_polls_repeat(s: Stage, ready: bool)
    ensures
        (spec_advance(s, ready) == s) <==> ((spec_is_poll(s) && !ready) || s == Stage::Complete),
{
}

/// Each readiness poll stands immediately after the register write it
/// confirms, so the write's position in the order is strictly earlier.
pub proof fn lemma_write_precedes_its_poll(p: Stage)
    requires
        spec_is_poll(p),
    ensures
        spec_stage_index(spec_write_of(p)) + 1 == spec_stage_index(p),
{
}

/// The only stage that steps into a readiness poll, other than the poll
/// itself re-polling, is the register write the poll confirms.
pub proof fn lemma_poll_entered_from_its_write(s: Stage, ready: bool)
    requires
        spec_is_poll(spec_advance(s, ready)),
        spec_advance(s, ready) != s,
    ensures
        s == spec_write_of(spec_advance(s, ready)),
{
}

/// The stages the sequencer visits when it starts at `s` and consumes the
/// readiness observations `readies` in order: the access trace a simulated
/// hardware double records.
pub open spec fn spec_trace(s: Stage, readies: Seq<bool>) -> Seq<Stage>
    decreases readies.len(),
{
    if readies.len() == 0 {
        seq![s]
    } else {
        seq![s] + spec_trace(spec_advance(s, readies[0]), readies.skip(1))
    }
}

/// Two distinct stages never share a position in the bring-up order.
proof fn lemma_stage_index_injective(s1: Stage, s2: Stage)
    requires
        spec_stage_index(s1) == spec_stage_index(s2),
    ensures
        s1 == s2,
{
}

/// A trace holds one more entry than there are observations to consume.
proof fn lemma_trace_len(s: Stage, readies: Seq<bool>)
    ensures
        spec_trace(s, readies).len() == readies.len() + 1,
    decreases readies.len(),
{
    if readies.len() > 0 {
        lemma_trace_len(spec_advance(s, readies[0]), readies.skip(1));
    }
}

/// Adjacent entries of a trace are one transition apart: the successor of
/// the stage at `i` under the observation consumed there.
proof fn lemma_trace_adjacent(s: Stage, readies: Seq<bool>, i: int)
    requires
        0 <= i < spec_trace(s, readies).len() - 1,
    ensures
        spec_trace(s, readies)[i + 1] == spec_advance(spec_trace(s, readies)[i], readies[i]),
    decreases readies.len(),
{
    let tr = spec_trace(s, readies);
    lemma_trace_len(s, readies);
    let s2 = spec_advance(s, readies[0]);
    let tail = spec_trace(s2, readies.skip(1));
    lemma_trace_len(s2, readies.skip(1));
    assert(tr == seq![s] + tail);
    if i == 0 {
        assert(tr[1] == tail[0]);
    } else {
        lemma_trace_adjacent(s2, readies.skip(1), i - 1);
        assert(tr[i] == tail[i - 1]);
        assert(tr[i + 1] == tail[i]);
        assert(readies.skip(1)[i - 1] == readies[i]);
    }
}

/// Forward-only progress over whole runs: along any trace, stage positions
/// never decrease, whatever the readiness observations were.
pub proof fn lemma_trace_monotone(s: Stage, readies: Seq<bool>, i: int, j: int)
    requires
        0 <= i <= j < spec_trace(s, readies).len(),
    ensures
        spec_stage_index(spec_trace(s, readies)[i]) <= spec_stage_index(
            spec_trace(s, readies)[j],
        ),
    decreases j - i,
{
    if i < j {
        lemma_trace_len(s, readies);
        lemma_trace_adjacent(s, readies, i);
        lemma_advance_monotone(spec_trace(s, readies)[i], readies[i]);
        lemma_trace_monotone(s, readies, i + 1, j);
    }
}

/// No stage is reentrant: once a run leaves a write stage — and one step
/// after the write is issued it always has — the run never returns to it,
/// so every register write of the sequence is issued at most once per boot.
pub proof fn lemma_write_issued_at_most_once(s: Stage, readies: Seq<bool>, i: int, j: int)
    requires
        0 <= i < j < spec_trace(s, readies).len(),
        !spec_is_poll(spec_trace(s, readies)[i]),
        spec_trace(s, readies)[i] != Stage::Complete,
    ensures
        spec_trace(s, readies)[j] != spec_trace(s, readies)[i],
{
    let tr = spec_trace(s, readies);
    lemma_trace_len(s, readies);
    lemma_trace_adjacent(s, readies, i);
    lemma_only_polls_repeat(tr[i], readies[i]);
    lemma_advance_monotone(tr[i], readies[i]);
    if spec_stage_index(tr[i + 1]) == spec_stage_index(tr[i]) {
        lemma_stage_index_injective(tr[i + 1], tr[i]);
    }
    assert(spec_stage_index(tr[i + 1]) > spec_stage_index(tr[i]));
    lemma_trace_monotone(s, readies, i + 1, j);
    if tr[j] == tr[i] {
        assert(false);
    }
}

proof fn lemma_trace_poll_after_write_from(s: Stage, readies: Seq<bool>, i: int)
    requires
        0 <= i < spec_trace(s, readies).len(),
        spec_is_poll(spec_trace(s, readies)[i]),
    ensures
        spec_trace(s, readies)[i] == s || exists|j: int|
            0 <= j < i && spec_trace(s, readies)[j] == spec_write_of(spec_trace(s, readies)[i]),
    decreases readies.len(),
{
    let tr = spec_trace(s, readies);
    if i > 0 {
        let s2 = spec_advance(s, readies[0]);
        let tail = spec_trace(s2, readies.skip(1));
        assert(tr == seq![s] + tail);
        assert(tr[i] == tail[i - 1]);
        lemma_trace_poll_after_write_from(s2, readies.skip(1), i - 1);
        if tail[i - 1] == s2 {
            if s == s2 {
                assert(tr[i] == s);
            } else {
                lemma_poll_entered_from_its_write(s, readies[0]);
                assert(tr[0] == spec_write_of(tr[i]));
            }
        } else {
            let j2 = choose|j2: int|
                0 <= j2 < i - 1 && #[trigger] tail[j2] == spec_write_of(tail[i - 1]);
            assert(tr[j2 + 1] == spec_write_of(tr[i]));
        }
    }
}

/// Bring-up ordering: in every run of the sequencer from its first stage,
/// whatever readiness observations the hardware supplies, a readiness poll
/// is reached only strictly after the register write it confirms was issued.
pub proof fn lemma_poll_strictly_after_write(readies: Seq<bool>, i: int)
    requires
        0 <= i < spec_trace(Stage::SelectRegulatorMode, readies).len(),
        spec_is_poll(spec_trace(Stage::SelectRegulatorMode, readies)[i]),
    ensures
        exists|j: int|
            0 <= j < i && spec_trace(Stage::SelectRegulatorMode, readies)[j] == spec_write_of(
                spec_trace(Stage::SelectRegulatorMode, readies)[i],
            ),
{
    lemma_trace_poll_after_write_from(Stage::SelectRegulatorMode, readies, i);
}

} // verus!
