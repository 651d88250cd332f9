use quadbench::physics::{
    PhysicsRuntimeConfig, RateWindow, TickAction, TickClock, DEFAULT_PHYSICS_RATE_HZ,
    SPIN_MARGIN_NS,
};

#[test]
fn physics_config_default_and_effective_rate() {
    let config = PhysicsRuntimeConfig::default();
    assert_eq!(config.tick_rate_hz, DEFAULT_PHYSICS_RATE_HZ);
    assert_eq!(config.effective_tick_rate_hz(), 500);
    assert_eq!(PhysicsRuntimeConfig { tick_rate_hz: 0 }.effective_tick_rate_hz(), 1);
    assert_eq!(PhysicsRuntimeConfig { tick_rate_hz: 7 }.effective_tick_rate_hz(), 7);
}

#[test]
fn paused_clock_pushes_next_tick() {
    let mut clock = TickClock::new(2_000_000, 0);
    assert_eq!(clock.next_tick_ns, 2_000_000);
    assert_eq!(clock.before_tick(false, 5_000_000), TickAction::Paused);
    assert_eq!(clock.next_tick_ns, 7_000_000);
    assert_eq!(clock.rate_window_started_ns, 5_000_000);
    assert_eq!(clock.rate_window_ticks, 0);
}

#[test]
fn running_clock_sleeps_yields_and_steps() {
    let mut clock = TickClock::new(2_000_000, 0);
    assert_eq!(clock.before_tick(true, 0), TickAction::Sleep(2_000_000 - SPIN_MARGIN_NS));
    assert_eq!(clock.before_tick(true, 1_900_000), TickAction::Yield);
    assert_eq!(clock.before_tick(true, 2_000_000), TickAction::Step);
    assert_eq!(clock.next_tick_ns, 2_000_000);
}

#[test]
fn ticks_and_overruns_are_counted() {
    let mut clock = TickClock::new(2_000_000, 0);
    assert_eq!(clock.after_tick(2_100_000), None);
    assert_eq!(clock.tick_count, 1);
    assert_eq!(clock.next_tick_ns, 4_000_000);
    assert_eq!(clock.overrun_count, 0);
    assert_eq!(clock.last_tick_ns, Some(2_100_000));

    assert_eq!(clock.after_tick(9_000_000), None);
    assert_eq!(clock.tick_count, 2);
    assert_eq!(clock.overrun_count, 1);
    assert_eq!(clock.next_tick_ns, 11_000_000);
}

#[test]
fn rate_window_closes_after_half_a_second() {
    let mut clock = TickClock::new(2_000_000, 0);
    for tick in 1..250_u64 {
        assert_eq!(clock.after_tick(tick * 2_000_000), None);
    }
    let window = clock.after_tick(500_000_000);
    assert_eq!(window, Some(RateWindow { ticks: 250, elapsed_ns: 500_000_000 }));
    assert_eq!(clock.rate_window_ticks, 0);
    assert_eq!(clock.rate_window_started_ns, 500_000_000);
    assert_eq!(clock.tick_count, 250);
}
