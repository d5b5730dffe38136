use bringup::blink::Transition;
use bringup::blink::blink_step;
use bringup::blink::capture_blink;
use bringup::delay::delay;
use bringup::delay::delay_done;
use bringup::tick::TickCounter;

#[test]
fn tick_counter_starts_at_zero() {
    let clock = TickCounter::new();
    assert_eq!(clock.read(), 0);
}

#[test]
fn tick_counter_counts_firings() {
    let mut clock = TickCounter::new();
    clock.fire();
    assert_eq!(clock.read(), 1);
    for _ in 0..999 {
        clock.fire();
    }
    assert_eq!(clock.read(), 1000);
}

#[test]
fn tick_counter_adds_k_to_any_initial_value() {
    let mut clock = TickCounter::starting_at(123_456);
    for _ in 0..789 {
        clock.fire();
    }
    assert_eq!(clock.read(), 123_456 + 789);
}

#[test]
fn tick_counter_wraps_at_its_width() {
    let mut clock = TickCounter::starting_at(u32::MAX);
    clock.fire();
    assert_eq!(clock.read(), 0);

    let mut clock = TickCounter::starting_at(u32::MAX - 1);
    clock.fire();
    assert_eq!(clock.read(), u32::MAX);
    clock.fire();
    assert_eq!(clock.read(), 0);
    clock.fire();
    assert_eq!(clock.read(), 1);
}

#[test]
fn delay_done_compares_elapsed_ticks() {
    assert!(delay_done(0, 10, 10));
    assert!(delay_done(0, 11, 10));
    assert!(!delay_done(0, 9, 10));
    // A zero-length delay is done at once.
    assert!(delay_done(7, 7, 0));
    // The delta is taken in the counter's width: a wrapped counter still
    // reports the true elapsed count.
    assert!(delay_done(u32::MAX, 4, 5));
    assert!(!delay_done(u32::MAX, 3, 5));
}

#[test]
fn delay_of_zero_returns_immediately() {
    let mut clock = TickCounter::starting_at(5);
    delay(&mut clock, 0);
    assert_eq!(clock.read(), 5);
}

#[test]
fn delay_of_1000_returns_after_exactly_1000_quanta() {
    // At a 1000 Hz tick, a requested delay of 1000 returns only once 1000
    // simulated milliseconds have passed, and not before.
    let mut clock = TickCounter::new();
    delay(&mut clock, 1000);
    assert_eq!(clock.read(), 1000);
}

#[test]
fn delay_spans_a_counter_wrap() {
    let mut clock = TickCounter::starting_at(u32::MAX - 10);
    delay(&mut clock, 100);
    assert_eq!(clock.read(), (u32::MAX - 10).wrapping_add(100));
}

#[test]
fn blink_step_toggles_and_holds_for_the_interval() {
    let mut clock = TickCounter::new();
    let mut trace: Vec<Transition> = Vec::new();
    let next = blink_step(&mut trace, &mut clock, true, 1000);
    assert!(!next);
    assert_eq!(trace.len(), 1);
    assert_eq!(trace[0], Transition { at: 0, level: true });
    assert_eq!(clock.read(), 1000);
}

#[test]
fn blink_alternates_high_low_spaced_one_interval_apart() {
    let mut clock = TickCounter::new();
    let trace = capture_blink(&mut clock, 1000, 6);
    let levels: Vec<bool> = trace.iter().map(|t| t.level).collect();
    assert_eq!(levels, vec![true, false, true, false, true, false]);
    let times: Vec<u32> = trace.iter().map(|t| t.at).collect();
    assert_eq!(times, vec![0, 1000, 2000, 3000, 4000, 5000]);
    for pair in trace.windows(2) {
        assert!(pair[0].level != pair[1].level);
        assert!(pair[1].at.wrapping_sub(pair[0].at) >= 1000);
    }
}
