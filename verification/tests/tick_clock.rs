use simple_snake::SimulationClock;

#[test]
fn half_interval_samples_fire_every_second_call() {
    let mut clock = SimulationClock::new(40_000);
    for _ in 0..5 {
        assert!(!clock.advance(20_000));
        assert!(clock.advance(20_000));
    }
}

#[test]
fn one_large_sample_fires_a_single_tick_and_discards_the_excess() {
    let mut clock = SimulationClock::new(40_000);
    assert!(clock.advance(1_000_000));
    // The accumulator was hard-reset: nothing of the excess carries over.
    assert!(!clock.advance(39_999));
    assert!(clock.advance(1));
}

#[test]
fn sample_equal_to_the_interval_fires_at_once() {
    let mut clock = SimulationClock::new(40_000);
    assert!(clock.advance(40_000));
    assert!(clock.advance(40_000));
}

#[test]
fn short_samples_accumulate_until_the_threshold() {
    let mut clock = SimulationClock::new(10);
    for _ in 0..9 {
        assert!(!clock.advance(1));
    }
    assert!(clock.advance(1));
    assert!(!clock.advance(0));
}
