use sixfive::SampleClock;

#[test]
fn fires_once_per_interval() {
    // 4 samples per second, 1 instruction per second: every 4th tick.
    let mut clock = SampleClock::new(4, 1);
    let fires: Vec<bool> = (0..12).map(|_| clock.tick(true)).collect();
    let expected: Vec<bool> = (0..12).map(|i| i % 4 == 0).collect();
    assert_eq!(fires, expected);
}

#[test]
fn fires_every_sample_when_clock_outruns_rate() {
    let mut clock = SampleClock::new(1, 3);
    for _ in 0..10 {
        assert!(clock.tick(true));
    }
}

#[test]
fn fractional_interval_keeps_the_long_run_rate() {
    // 5 samples per second, 2 instructions per second: 2 firings in
    // any 5 consecutive samples, with no drift over many seconds.
    let mut clock = SampleClock::new(5, 2);
    let mut fired = 0;
    for _ in 0..5000 {
        if clock.tick(true) {
            fired += 1;
        }
    }
    assert_eq!(fired, 2000);
}

#[test]
fn stopped_clock_rests_at_zero() {
    let mut clock = SampleClock::new(4, 1);
    assert!(clock.tick(true));
    assert!(!clock.tick(false));
    assert_eq!(clock.counter, 0);
    // Restarting fires immediately, as on the first tick.
    assert!(clock.tick(true));
}

#[test]
fn new_clock_starts_ready() {
    let clock = SampleClock::new(44100, 10);
    assert_eq!(clock.counter, 0);
    assert_eq!(clock.sample_rate, 44100);
    assert_eq!(clock.clock_speed, 10);
}
