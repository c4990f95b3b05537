use gstscream::debounce::RateDebounceState;
use gstscream::debounce::RateObservation;
use gstscream::debounce::Timestamp;

fn obs(rate: u32, secs: u64, micros: u32) -> RateObservation {
    RateObservation { rate, observed_at: Timestamp::new(secs, micros) }
}

#[test]
fn first_observation_is_logged_unconditionally() {
    let mut s = RateDebounceState::init();
    let r = s.observe(obs(500, 0, 0));
    let rec = r.expect("first observation must be logged");
    assert_eq!(rec.rate, 500);
    assert_eq!(rec.prev_rate, 0);
    assert_eq!(rec.prev_at, Timestamp::new(0, 0));
    assert_eq!(rec.suppressed, 0);
    assert!(s.has_baseline);
    assert_eq!(s.last_logged_rate, 500);
    assert_eq!(s.suppressed_count, 0);
}

#[test]
fn scenario_rapid_then_slow() {
    // Observations at t=0 (rate 500), t=0.5s (rate 600), t=1.2s (rate 600).
    let mut s = RateDebounceState::init();

    let r1 = s.observe(obs(500, 0, 0));
    assert!(r1.is_some(), "baseline observation is logged");

    let r2 = s.observe(obs(600, 0, 500_000));
    assert!(r2.is_none(), "sub-second observation is suppressed");
    assert_eq!(s.suppressed_count, 1);
    assert_eq!(s.last_logged_rate, 500);

    let r3 = s.observe(obs(600, 1, 200_000));
    let rec = r3.expect("elapsed >= 1s and rate differs, so it is logged");
    assert_eq!(rec.rate, 600);
    assert_eq!(rec.prev_rate, 500);
    assert_eq!(rec.prev_at, Timestamp::new(0, 0));
    assert_eq!(rec.suppressed, 1);
    assert_eq!(rec.elapsed_secs, 1);
    assert_eq!(rec.elapsed_sub_micros, 200_000);
    assert_eq!(s.suppressed_count, 0);
    assert_eq!(s.last_logged_rate, 600);
    assert_eq!(s.last_logged_at, Timestamp::new(1, 200_000));
}

#[test]
fn unchanged_rate_after_window_changes_nothing() {
    let mut s = RateDebounceState::init();
    s.observe(obs(500, 0, 0));
    let before = s;
    let r = s.observe(obs(500, 5, 0));
    assert!(r.is_none());
    assert_eq!(s, before, "steady-state polling neither logs nor counts");
}

#[test]
fn sub_second_counts_even_when_rate_is_unchanged() {
    let mut s = RateDebounceState::init();
    s.observe(obs(500, 10, 0));
    let r = s.observe(obs(500, 10, 999_999));
    assert!(r.is_none());
    assert_eq!(s.suppressed_count, 1);
}

#[test]
fn exactly_one_second_with_changed_rate_logs() {
    let mut s = RateDebounceState::init();
    s.observe(obs(500, 2, 300_000));
    let r = s.observe(obs(501, 3, 300_000));
    let rec = r.expect("exactly one second elapsed");
    assert_eq!(rec.elapsed_secs, 1);
    assert_eq!(rec.elapsed_sub_micros, 0);
}

#[test]
fn just_under_one_second_is_suppressed() {
    let mut s = RateDebounceState::init();
    s.observe(obs(500, 2, 300_000));
    let r = s.observe(obs(501, 3, 299_999));
    assert!(r.is_none());
    assert_eq!(s.suppressed_count, 1);
}

#[test]
fn clock_running_backwards_saturates_to_zero_elapsed() {
    let mut s = RateDebounceState::init();
    s.observe(obs(500, 10, 0));
    let r = s.observe(obs(900, 8, 0));
    assert!(r.is_none(), "negative elapsed saturates to zero, below one second");
    assert_eq!(s.suppressed_count, 1);
    assert_eq!(s.last_logged_rate, 500);
}

#[test]
fn suppressed_count_saturates_at_max() {
    let mut s = RateDebounceState::init();
    s.observe(obs(500, 1, 0));
    s.suppressed_count = u32::MAX;
    let r = s.observe(obs(600, 1, 1));
    assert!(r.is_none());
    assert_eq!(s.suppressed_count, u32::MAX);
}

#[test]
fn suppressed_count_never_decreases_between_transitions() {
    let mut s = RateDebounceState::init();
    s.observe(obs(500, 0, 0));
    let mut last_count = s.suppressed_count;
    for i in 0..5u32 {
        let r = s.observe(obs(600 + i, 0, 100_000 + i));
        assert!(r.is_none());
        assert!(s.suppressed_count >= last_count);
        last_count = s.suppressed_count;
    }
    assert_eq!(s.suppressed_count, 5);
}
