use primordium::timing::FrameTiming;

#[test]
fn one_interval_gives_exactly_one_tick() {
    let mut t = FrameTiming::new();
    t.set_tick_rate(10);
    let interval = 1_000_000 / 10;
    assert_eq!(t.ticks_due(interval), 1);
    assert_eq!(t.tick_accumulator, 0);
}

#[test]
fn ten_intervals_give_three_ticks_and_reset() {
    let mut t = FrameTiming::new();
    t.set_tick_rate(10);
    let interval = 1_000_000 / 10;
    assert_eq!(t.ticks_due(10 * interval), 3);
    assert_eq!(t.tick_accumulator, 0);
}

#[test]
fn paused_scheduler_returns_zero() {
    let mut t = FrameTiming::new();
    t.set_paused(true);
    assert_eq!(t.ticks_due(1_000_000), 0);
    assert_eq!(t.ticks_due(1_000_000), 0);
}

#[test]
fn single_step_returns_one_then_zero() {
    let mut t = FrameTiming::new();
    t.set_paused(true);
    t.request_single_step();
    assert_eq!(t.ticks_due(0), 1);
    assert_eq!(t.ticks_due(0), 0);
}

#[test]
fn tick_rate_clamps_to_range() {
    let mut t = FrameTiming::new();
    t.set_tick_rate(0);
    assert_eq!(t.tick_rate, 1);
    t.set_tick_rate(100);
    assert_eq!(t.tick_rate, 60);
    t.set_tick_rate(30);
    assert_eq!(t.tick_rate, 30);
}

#[test]
fn partial_intervals_accumulate() {
    let mut t = FrameTiming::new();
    t.set_tick_rate(10);
    // Three 40 ms frames at 10 ticks per second: 0, 0, then 1 tick.
    assert_eq!(t.ticks_due(40_000), 0);
    assert_eq!(t.ticks_due(40_000), 0);
    assert_eq!(t.ticks_due(40_000), 1);
    assert_eq!(t.tick_accumulator, 20_000);
}

#[test]
fn update_counts_frames() {
    let mut t = FrameTiming::new();
    t.update(16_000);
    t.update(17_000);
    assert_eq!(t.frame_count, 2);
    assert_eq!(t.last_dt, 17_000);
}
