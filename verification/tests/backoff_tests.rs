//! Tests of the exponential rate-limit backoff.

use xemm_core::backoff::RateLimitTracker;

#[test]
fn test_backoff_doubles_and_caps() {
    // 1, 2, 4, 8, 16, 32, then capped at 60 seconds.
    let mut t = RateLimitTracker::new();
    assert_eq!(t.get_backoff_secs(), 0);
    assert_eq!(t.consecutive_errors(), 0);

    let expected = [1u64, 2, 4, 8, 16, 32, 60, 60, 60];
    for (i, want) in expected.iter().enumerate() {
        t.record_error(0);
        assert_eq!(t.consecutive_errors(), (i + 1) as u32);
        assert_eq!(t.get_backoff_secs(), *want);
    }
}

#[test]
fn test_backoff_resets_on_success() {
    let mut t = RateLimitTracker::new();
    t.record_error(0);
    t.record_error(0);
    assert_eq!(t.get_backoff_secs(), 2);
    t.record_success();
    assert_eq!(t.consecutive_errors(), 0);
    assert_eq!(t.get_backoff_secs(), 0);
    assert!(!t.should_skip(0));
    // The next error starts over at one second.
    t.record_error(0);
    assert_eq!(t.get_backoff_secs(), 1);
}

#[test]
fn test_should_skip_window() {
    let mut t = RateLimitTracker::new();
    assert!(!t.should_skip(0));
    // An error at t = 10 s backs off for 1 s: skip until t = 11 s.
    t.record_error(10_000);
    assert!(t.should_skip(10_000));
    assert!(t.should_skip(10_999));
    assert!(!t.should_skip(11_000));
}

#[test]
fn test_remaining_backoff_secs() {
    let mut t = RateLimitTracker::new();
    assert_eq!(t.remaining_backoff_secs(0), 0);
    t.record_error(0);
    t.record_error(0);
    t.record_error(0);
    // Backoff 4 s from t = 0: 4 whole seconds remain at t = 0.
    assert_eq!(t.remaining_backoff_secs(0), 4);
    assert_eq!(t.remaining_backoff_secs(1_500), 2);
    assert_eq!(t.remaining_backoff_secs(4_000), 0);
    assert_eq!(t.remaining_backoff_secs(9_999), 0);
}
