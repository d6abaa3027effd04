use exchange::limiter::{DynamicBucket, ForexLimiter};

#[test]
fn effective_limit_keeps_the_buffer() {
    assert_eq!(ForexLimiter::new(2400, 60_000).max_weight(), 2328);
    assert_eq!(ForexLimiter::new(100, 60_000).max_weight(), 97);
    assert_eq!(ForexLimiter::new(1, 60_000).max_weight(), 0);
    assert_eq!(ForexLimiter::new(0, 60_000).max_weight(), 0);
    assert_eq!(ForexLimiter::new(usize::MAX, 60_000).max_weight(), {
        let l = usize::MAX as u128;
        (l * 97 / 100) as usize
    });
}

#[test]
fn requests_within_the_limit_go_at_once() {
    let mut limiter = ForexLimiter::new(100, 60_000);
    assert_eq!(limiter.prepare_request(40, 1_000), None);
    assert_eq!(limiter.prepare_request(40, 2_000), None);
    assert_eq!(limiter.prepare_request(17, 3_000), None);
    assert_eq!(limiter.used_weight(), 97);
}

#[test]
fn the_request_that_exceeds_the_limit_waits_for_the_window() {
    let mut limiter = ForexLimiter::new(100, 60_000);
    assert_eq!(limiter.prepare_request(40, 1_000), None);
    assert_eq!(limiter.prepare_request(40, 2_000), None);
    assert_eq!(limiter.prepare_request(20, 10_000), Some(50_000));
    assert_eq!(limiter.used_weight(), 80);
    assert_eq!(limiter.prepare_request(17, 10_000), None);
}

#[test]
fn a_new_window_refills_the_bucket() {
    let mut limiter = ForexLimiter::new(100, 60_000);
    assert_eq!(limiter.prepare_request(97, 1_000), None);
    assert_eq!(limiter.prepare_request(1, 59_999), Some(1));
    assert_eq!(limiter.prepare_request(1, 60_000), None);
    assert_eq!(limiter.used_weight(), 1);
    assert_eq!(limiter.prepare_request(97, 60_001), Some(59_999));
}

#[test]
fn a_request_heavier_than_the_limit_always_waits() {
    let mut limiter = ForexLimiter::new(100, 60_000);
    assert_eq!(limiter.prepare_request(98, 0), Some(60_000));
    assert_eq!(limiter.prepare_request(98, 60_000), Some(60_000));
    assert_eq!(limiter.prepare_request(usize::MAX, 60_001), Some(59_999));
    assert_eq!(limiter.used_weight(), 0);
}

#[test]
fn a_lower_report_replaces_the_local_count() {
    let mut limiter = ForexLimiter::new(100, 60_000);
    assert_eq!(limiter.prepare_request(90, 1_000), None);
    assert_eq!(limiter.prepare_request(10, 2_000), Some(58_000));
    limiter.update_from_response(Some("15"), 90);
    assert_eq!(limiter.used_weight(), 15);
    assert_eq!(limiter.prepare_request(10, 3_000), None);
    assert_eq!(limiter.used_weight(), 25);
}

#[test]
fn a_higher_report_replaces_the_local_count() {
    let mut limiter = ForexLimiter::new(100, 60_000);
    assert_eq!(limiter.prepare_request(10, 1_000), None);
    limiter.update_from_response(Some("95"), 10);
    assert_eq!(limiter.prepare_request(10, 2_000), Some(58_000));
}

#[test]
fn a_report_that_cannot_be_read_changes_nothing() {
    let mut limiter = ForexLimiter::new(100, 60_000);
    assert_eq!(limiter.prepare_request(30, 1_000), None);
    for header in [None, Some(""), Some("+"), Some("12a"), Some("-3"), Some(" 7"), Some("1.5")] {
        limiter.update_from_response(header, 30);
        assert_eq!(limiter.used_weight(), 30);
    }
    limiter.update_from_response(Some("99999999999999999999999999"), 30);
    assert_eq!(limiter.used_weight(), 30);
    limiter.update_from_response(Some("+0"), 30);
    assert_eq!(limiter.used_weight(), 0);
}

#[test]
fn hard_stops_are_told_by_the_status() {
    let limiter = ForexLimiter::new(100, 60_000);
    assert!(limiter.should_exit_on_response(429));
    assert!(limiter.should_exit_on_response(418));
    assert!(!limiter.should_exit_on_response(200));
    assert!(!limiter.should_exit_on_response(500));
    assert!(!limiter.should_exit_on_response(419));
}

#[test]
fn a_clock_that_reads_earlier_counts_as_no_time_passed() {
    let mut bucket = DynamicBucket::new(10, 1_000);
    assert_eq!(bucket.prepare_request(10, 5_000), None);
    assert_eq!(bucket.prepare_request(1, 4_000), Some(1_000));
    bucket.update_weight(3);
    assert_eq!(bucket.used_weight(), 3);
    assert_eq!(bucket.max_weight(), 10);
}

#[test]
fn a_window_of_no_length_refills_at_every_request() {
    let mut bucket = DynamicBucket::new(10, 0);
    assert_eq!(bucket.prepare_request(10, 5), None);
    assert_eq!(bucket.prepare_request(10, 5), None);
    assert_eq!(bucket.prepare_request(11, 5), Some(0));
}
