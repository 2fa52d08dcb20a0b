use rust_game_engine::util::timing::{
    SpicyTiming, TickTiming, TimingStep, HALF_A_SECOND, MAX_BACKLOG_TICKS, SIXTIETH_OF_A_SECOND,
};

#[test]
fn tick_timing_starts_empty() {
    let mut t = TickTiming::new(1000);
    assert_eq!(t.get_partial_ticks(), (0, 1000));
    assert!(!t.try_consume_tick());
    assert_eq!(t.get_partial_ticks(), (0, 1000));
}

#[test]
fn tick_timing_three_point_two_ticks_gives_three_ticks() {
    // 3.2 ticks of a sixtieth of a second.
    let mut t = TickTiming::new(SIXTIETH_OF_A_SECOND);
    t.add_delta(53_333_334);
    assert!(t.try_consume_tick());
    assert!(t.try_consume_tick());
    assert!(t.try_consume_tick());
    assert!(!t.try_consume_tick());
    let (backlog, tick) = t.get_partial_ticks();
    assert_eq!(backlog, 53_333_334 - 3 * 16_666_667);
    assert_eq!(tick, 16_666_667);
    let partial = backlog as f64 / tick as f64;
    assert!((partial - 0.2).abs() < 1e-6);
}

#[test]
fn tick_timing_exact_values_in_round_numbers() {
    let mut t = TickTiming::new(10);
    t.add_delta(32);
    assert_eq!(t.get_partial_ticks(), (32, 10));
    assert!(t.try_consume_tick());
    assert_eq!(t.get_partial_ticks(), (22, 10));
    assert!(t.try_consume_tick());
    assert!(t.try_consume_tick());
    assert_eq!(t.get_partial_ticks(), (2, 10));
    assert!(!t.try_consume_tick());
    assert_eq!(t.get_partial_ticks(), (2, 10));
}

#[test]
fn tick_timing_clamps_an_oversized_delta() {
    let mut t = TickTiming::new(SIXTIETH_OF_A_SECOND);
    t.add_delta(100 * SIXTIETH_OF_A_SECOND as u128);
    assert_eq!(
        t.get_partial_ticks(),
        (MAX_BACKLOG_TICKS as u128 * SIXTIETH_OF_A_SECOND as u128, SIXTIETH_OF_A_SECOND)
    );
    let mut consumed = 0;
    while t.try_consume_tick() {
        consumed += 1;
        assert!(consumed <= 5);
    }
    assert_eq!(consumed, 5);
    assert_eq!(t.get_partial_ticks().0, 0);
}

#[test]
fn tick_timing_clamps_what_has_built_up() {
    let mut t = TickTiming::new(10);
    t.add_delta(45);
    t.add_delta(45);
    assert_eq!(t.get_partial_ticks(), (50, 10));
}

#[test]
fn tick_timing_survives_the_largest_delta() {
    let mut t = TickTiming::new(u64::MAX);
    t.add_delta(u128::MAX);
    assert_eq!(t.get_partial_ticks(), (5 * u64::MAX as u128, u64::MAX));
    t.add_delta(u128::MAX);
    assert_eq!(t.get_partial_ticks(), (5 * u64::MAX as u128, u64::MAX));
}

#[test]
fn tick_timing_exactly_one_tick_is_consumed() {
    let mut t = TickTiming::new(7);
    t.add_delta(7);
    assert!(t.try_consume_tick());
    assert!(!t.try_consume_tick());
    assert_eq!(t.get_partial_ticks(), (0, 7));
}

#[test]
fn tick_timing_just_under_one_tick_is_kept() {
    let mut t = TickTiming::new(7);
    t.add_delta(6);
    assert!(!t.try_consume_tick());
    assert_eq!(t.get_partial_ticks(), (6, 7));
}

#[test]
fn spicy_timing_sleeps_until_the_frame_is_due() {
    let mut t = SpicyTiming::new();
    assert_eq!(t.update(0), TimingStep::Sleep(SIXTIETH_OF_A_SECOND));
    assert_eq!(t.update(6_666_667), TimingStep::Sleep(10_000_000));
    // Exactly the target is not yet more than the target.
    assert_eq!(t.update(10_000_000), TimingStep::Sleep(0));
    assert_eq!(t.update(1), TimingStep::Frame { ticks: 1 });
    // One nanosecond is left over.
    assert_eq!(t.update(0), TimingStep::Sleep(SIXTIETH_OF_A_SECOND - 1));
}

#[test]
fn spicy_timing_hands_out_whole_ticks() {
    let mut t = SpicyTiming::new();
    assert_eq!(t.update(50_000_002), TimingStep::Frame { ticks: 3 });
    assert_eq!(t.update(0), TimingStep::Sleep(SIXTIETH_OF_A_SECOND - 1));
}

#[test]
fn spicy_timing_drops_what_is_beyond_half_a_second() {
    let mut t = SpicyTiming::new();
    // 500_000_000 / 16_666_667 = 29, remainder 16_666_657.
    assert_eq!(t.update(u64::MAX), TimingStep::Frame { ticks: 29 });
    assert_eq!(HALF_A_SECOND - 29 * SIXTIETH_OF_A_SECOND, 16_666_657);
    assert_eq!(t.update(0), TimingStep::Sleep(10));
    assert_eq!(t.update(u64::MAX), TimingStep::Frame { ticks: 29 });
}

#[test]
fn tick_timing_consume_ticks_counts_whole_ticks() {
    let mut t = TickTiming::new(SIXTIETH_OF_A_SECOND);
    t.add_delta(53_333_334);
    assert_eq!(t.consume_ticks(), 3);
    assert_eq!(t.get_partial_ticks(), (3_333_333, SIXTIETH_OF_A_SECOND));
    assert_eq!(t.consume_ticks(), 0);
    assert!(!t.try_consume_tick());
}

#[test]
fn tick_timing_consume_ticks_never_exceeds_the_backlog_limit() {
    let mut t = TickTiming::new(1);
    t.add_delta(u128::MAX);
    assert_eq!(t.consume_ticks(), 5);
    assert_eq!(t.get_partial_ticks(), (0, 1));
}
