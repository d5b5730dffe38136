use bringup::freq::CORE_CLOCK_HZ;
use bringup::freq::CYCLES_PER_TICK;
use bringup::freq::HSI_FREQ_HZ;
use bringup::freq::PLL_DIVM;
use bringup::freq::PLL_DIVN;
use bringup::freq::PLL_DIVP;
use bringup::freq::TICK_FREQ_HZ;
use bringup::freq::pll_input_ok;
use bringup::freq::pll_output_freq;
use bringup::freq::tick_timer_reload;
use bringup::sequencer::Action;
use bringup::sequencer::ReadyFlag;
use bringup::sequencer::RegWrite;
use bringup::sequencer::Stage;
use bringup::sequencer::action_of;
use bringup::sequencer::advance;
use bringup::sequencer::initial_stage;
use bringup::sequencer::is_complete;

#[test]
fn reference_profile_reaches_declared_target() {
    // 64 MHz / 4 * 30 / 1 = 480 MHz, the declared core clock.
    assert_eq!(pll_output_freq(HSI_FREQ_HZ, PLL_DIVM, PLL_DIVN, PLL_DIVP), 480_000_000);
    assert_eq!(pll_output_freq(HSI_FREQ_HZ, PLL_DIVM, PLL_DIVN, PLL_DIVP), CORE_CLOCK_HZ);
    assert_eq!(PLL_DIVM, 4);
    assert_eq!(PLL_DIVN, 30);
    assert_eq!(PLL_DIVP, 1);
}

#[test]
fn reference_profile_respects_pll_input_range() {
    // 64 MHz / 4 = 16 MHz, exactly the largest allowed PLL input.
    assert!(pll_input_ok(HSI_FREQ_HZ, PLL_DIVM));
    // Undivided, the oscillator is far above the allowed input range.
    assert!(!pll_input_ok(HSI_FREQ_HZ, 1));
    // A zero divider never satisfies the constraint.
    assert!(!pll_input_ok(HSI_FREQ_HZ, 0));
}

#[test]
fn pll_formula_on_other_profiles() {
    // 25 MHz / 5 * 96 / 2 = 240 MHz.
    assert_eq!(pll_output_freq(25_000_000, 5, 96, 2), 240_000_000);
    // 8 MHz / 1 * 1 / 1 passes straight through.
    assert_eq!(pll_output_freq(8_000_000, 1, 1, 1), 8_000_000);
}

#[test]
fn tick_timer_reload_is_one_cycle_short_of_the_period() {
    assert_eq!(CYCLES_PER_TICK, CORE_CLOCK_HZ / TICK_FREQ_HZ);
    assert_eq!(CYCLES_PER_TICK, 480_000);
    assert_eq!(tick_timer_reload(), 479_999);
}

#[test]
fn sequencer_visits_every_stage_in_order_when_always_ready() {
    let expected = [
        Stage::SelectRegulatorMode,
        Stage::ProgramVoltageScale,
        Stage::AwaitVoltageReady,
        Stage::EnableSysCfgClock,
        Stage::EnableOverdrive,
        Stage::AwaitOverdriveReady,
        Stage::SelectPllSource,
        Stage::ConfigurePllOutputs,
        Stage::ProgramPllDividers,
        Stage::EnablePll,
        Stage::AwaitPllReady,
        Stage::ProgramBusPrescalers,
        Stage::SwitchSystemClock,
        Stage::AwaitClockSwitch,
        Stage::ProgramFlashTiming,
        Stage::AwaitFlashTiming,
        Stage::ArmTickTimer,
        Stage::Complete,
    ];
    let mut stage = initial_stage();
    let mut visited = vec![stage];
    while !is_complete(stage) {
        stage = advance(stage, true);
        visited.push(stage);
    }
    assert_eq!(visited.as_slice(), &expected);
}

#[test]
fn sequencer_polls_repeat_until_ready_and_writes_do_not() {
    // An unsatisfied poll re-polls.
    assert_eq!(advance(Stage::AwaitVoltageReady, false), Stage::AwaitVoltageReady);
    assert_eq!(advance(Stage::AwaitPllReady, false), Stage::AwaitPllReady);
    assert_eq!(advance(Stage::AwaitClockSwitch, false), Stage::AwaitClockSwitch);
    assert_eq!(advance(Stage::AwaitFlashTiming, false), Stage::AwaitFlashTiming);
    assert_eq!(advance(Stage::AwaitOverdriveReady, false), Stage::AwaitOverdriveReady);
    // A satisfied poll moves on.
    assert_eq!(advance(Stage::AwaitVoltageReady, true), Stage::EnableSysCfgClock);
    // A write stage moves on whatever the observation was.
    assert_eq!(advance(Stage::EnablePll, false), Stage::AwaitPllReady);
    assert_eq!(advance(Stage::EnablePll, true), Stage::AwaitPllReady);
    // The machine stays complete.
    assert_eq!(advance(Stage::Complete, true), Stage::Complete);
    assert_eq!(advance(Stage::Complete, false), Stage::Complete);
}

#[test]
fn sequencer_actions_name_the_right_accesses() {
    assert_eq!(action_of(Stage::SelectRegulatorMode), Action::Write(RegWrite::RegulatorSmpsDirect));
    assert_eq!(action_of(Stage::ProgramVoltageScale), Action::Write(RegWrite::VoltageScale));
    assert_eq!(action_of(Stage::AwaitVoltageReady), Action::Poll(ReadyFlag::VoltageReady));
    assert_eq!(action_of(Stage::AwaitOverdriveReady), Action::Poll(ReadyFlag::VoltageReady));
    assert_eq!(action_of(Stage::EnablePll), Action::Write(RegWrite::PllEnable));
    assert_eq!(action_of(Stage::AwaitPllReady), Action::Poll(ReadyFlag::PllLocked));
    assert_eq!(action_of(Stage::AwaitClockSwitch), Action::Poll(ReadyFlag::SystemClockIsPll));
    assert_eq!(action_of(Stage::AwaitFlashTiming), Action::Poll(ReadyFlag::FlashTimingApplied));
    assert_eq!(action_of(Stage::ArmTickTimer), Action::Write(RegWrite::TickTimerArm));
    assert_eq!(action_of(Stage::Complete), Action::Done);
}

#[test]
fn every_poll_is_evaluated_only_after_its_write_was_issued() {
    // Drive the machine with a stuttering readiness source: every poll is
    // observed unready three times before it becomes ready. The recorded
    // access trace is then fully determined; in it every write is issued
    // exactly once, strictly before the poll that confirms it, and an
    // unready poll repeats without re-issuing its write.
    let mut stage = initial_stage();
    let mut unready_left = 3;
    let mut actions = Vec::new();
    while !is_complete(stage) {
        let action = action_of(stage);
        actions.push(action);
        let ready = match action {
            Action::Poll(_) => {
                if unready_left > 0 {
                    unready_left -= 1;
                    false
                } else {
                    unready_left = 3;
                    true
                }
            }
            _ => false,
        };
        stage = advance(stage, ready);
    }
    let mut expected = Vec::new();
    let stretches: [(&[RegWrite], ReadyFlag); 5] = [
        (
            &[RegWrite::RegulatorSmpsDirect, RegWrite::VoltageScale],
            ReadyFlag::VoltageReady,
        ),
        (&[RegWrite::SysCfgClockEnable, RegWrite::OverdriveEnable], ReadyFlag::VoltageReady),
        (
            &[
                RegWrite::PllSource,
                RegWrite::PllOutputs,
                RegWrite::PllDividers,
                RegWrite::PllEnable,
            ],
            ReadyFlag::PllLocked,
        ),
        (
            &[RegWrite::BusPrescalers, RegWrite::SystemClockSelect],
            ReadyFlag::SystemClockIsPll,
        ),
        (&[RegWrite::FlashTiming], ReadyFlag::FlashTimingApplied),
    ];
    for (writes, flag) in stretches {
        for write in writes {
            expected.push(Action::Write(*write));
        }
        for _ in 0..4 {
            expected.push(Action::Poll(flag));
        }
    }
    expected.push(Action::Write(RegWrite::TickTimerArm));
    assert_eq!(actions, expected);
}
