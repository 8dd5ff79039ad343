use airtally_restapi::rate_limit::{RateLimitStatus, RateLimiter, RequestTracker};

const SECOND: u64 = 1_000_000_000;

#[test]
fn test_rate_limiter_basic() {
    let limiter = RateLimiter::new(5, SECOND, 5 * SECOND);
    let mut tracker = RequestTracker::new(0);

    // first 5 requests are allowed
    for i in 0..5u64 {
        assert!(limiter.is_allowed(&mut tracker, i), "request {} should be allowed", i + 1);
    }
    // the 6th is denied
    assert!(!limiter.is_allowed(&mut tracker, 5), "6th request should be denied");
    // once the window has passed, requests are allowed again
    assert!(limiter.is_allowed(&mut tracker, SECOND + 5), "request after reset should be allowed");
}

#[test]
fn test_multiple_ips() {
    let limiter = RateLimiter::new(2, SECOND, 5 * SECOND);
    let mut first = RequestTracker::new(0);
    let mut second = RequestTracker::new(0);

    assert!(limiter.is_allowed(&mut first, 1));
    assert!(limiter.is_allowed(&mut first, 2));
    assert!(!limiter.is_allowed(&mut first, 3));

    assert!(limiter.is_allowed(&mut second, 4));
    assert!(limiter.is_allowed(&mut second, 5));
    assert!(!limiter.is_allowed(&mut second, 6));
}

#[test]
fn test_rate_limit_status() {
    let limiter = RateLimiter::new(3, 60 * SECOND, 300 * SECOND);

    let status = limiter.get_status(None, 10);
    assert!(status.allowed);
    assert_eq!(status.current_requests, 0);
    assert_eq!(status.max_requests, 3);

    let mut tracker = RequestTracker::new(10);
    limiter.is_allowed(&mut tracker, 11);
    limiter.is_allowed(&mut tracker, 12);

    let status = limiter.get_status(Some(&tracker), 13);
    assert!(status.allowed);
    assert_eq!(status.current_requests, 2);
    assert_eq!(status.max_requests, 3);

    limiter.is_allowed(&mut tracker, 14);
    let status = limiter.get_status(Some(&tracker), 15);
    assert!(!status.allowed);
    assert_eq!(status.current_requests, 3);
    assert_eq!(status.max_requests, 3);
}

#[test]
fn status_in_full() {
    let limiter = RateLimiter::new(3, 60 * SECOND, 300 * SECOND);
    assert_eq!(
        limiter.get_status(None, 7),
        RateLimitStatus {
            allowed: true,
            current_requests: 0,
            max_requests: 3,
            window_duration: 60 * SECOND,
            reset_time: 7 + 60 * SECOND,
        }
    );
    let tracker = RequestTracker { requests: vec![100, 200, 60 * SECOND], last_cleanup: 0 };
    // at 60 s + 150 the request at 100 has left the window, the others have not
    assert_eq!(
        limiter.get_status(Some(&tracker), 60 * SECOND + 150),
        RateLimitStatus {
            allowed: true,
            current_requests: 2,
            max_requests: 3,
            window_duration: 60 * SECOND,
            reset_time: 100 + 60 * SECOND,
        }
    );
    // the status does not change the tracker
    assert_eq!(tracker.requests, vec![100, 200, 60 * SECOND]);
    let empty = RequestTracker::new(5);
    assert_eq!(limiter.get_status(Some(&empty), 9).reset_time, 9 + 60 * SECOND);
}

#[test]
fn a_limit_of_zero_allows_only_the_unknown_client() {
    let limiter = RateLimiter::new(0, SECOND, SECOND);
    assert!(limiter.get_status(None, 0).allowed);
    let mut tracker = RequestTracker::new(0);
    assert!(!limiter.get_status(Some(&tracker), 0).allowed);
    assert!(!limiter.is_allowed(&mut tracker, 0));
    assert!(tracker.requests.is_empty());
}

#[test]
fn window_ends_are_inclusive() {
    let limiter = RateLimiter::new(1, 100, 1000);
    let mut tracker = RequestTracker::new(0);
    assert!(limiter.is_allowed(&mut tracker, 50));
    // exactly one window later the first request still counts
    assert!(!limiter.is_allowed(&mut tracker, 150));
    assert!(limiter.is_allowed(&mut tracker, 151));
    assert_eq!(tracker.requests, vec![151]);
}

#[test]
fn accepted_requests_are_noted_in_order() {
    let limiter = RateLimiter::new(3, 100, 1000);
    let mut tracker = RequestTracker::new(0);
    for now in [10u64, 20, 30, 40, 120, 125] {
        limiter.is_allowed(&mut tracker, now);
    }
    // 40 was refused; at 120 the request at 10 had left the window, at 125
    // the one at 20
    assert_eq!(tracker.requests, vec![30, 120, 125]);
}

#[test]
fn a_clock_that_ran_backwards_counts_as_no_time() {
    let limiter = RateLimiter::new(2, 100, 1000);
    let mut tracker = RequestTracker { requests: vec![500], last_cleanup: 500 };
    assert!(limiter.is_allowed(&mut tracker, 10));
    assert_eq!(tracker.requests, vec![500, 10]);
    assert_eq!(tracker.last_cleanup, 500);
}

#[test]
fn cleanup_time_moves_after_the_interval() {
    let limiter = RateLimiter::new(10, 100, 1000);
    let mut tracker = RequestTracker::new(0);
    limiter.is_allowed(&mut tracker, 1000);
    assert_eq!(tracker.last_cleanup, 0);
    limiter.is_allowed(&mut tracker, 1001);
    assert_eq!(tracker.last_cleanup, 1001);
    limiter.is_allowed(&mut tracker, 1500);
    assert_eq!(tracker.last_cleanup, 1001);
}

#[test]
fn prune_drops_what_left_the_window() {
    let mut tracker = RequestTracker { requests: vec![1, 50, 100, 150, 200], last_cleanup: 3 };
    tracker.prune(200, 100);
    assert_eq!(tracker.requests, vec![100, 150, 200]);
    assert_eq!(tracker.last_cleanup, 3);
    tracker.prune(1000, 100);
    assert!(tracker.requests.is_empty());
}

#[test]
fn stale_after_three_intervals() {
    let tracker = RequestTracker::new(100);
    assert!(!tracker.is_stale(100, 10));
    assert!(!tracker.is_stale(129, 10));
    assert!(tracker.is_stale(130, 10));
    assert!(tracker.is_stale(131, 10));
    assert!(tracker.is_stale(100, 0));
    assert!(!tracker.is_stale(50, 10));
    assert!(!tracker.is_stale(u64::MAX, u64::MAX));
}

#[test]
fn limits() {
    assert_eq!(
        RateLimiter::default(),
        RateLimiter { max_requests: 60, window_duration: 60 * SECOND, cleanup_interval: 300 * SECOND }
    );
    assert_eq!(RateLimiter::from_value(None), RateLimiter::default());
    assert_eq!(RateLimiter::from_value(Some("120".to_string())).max_requests, 120);
    assert_eq!(RateLimiter::from_value(Some("lots".to_string())).max_requests, 60);
    assert_eq!(RateLimiter::from_value(Some("4294967296".to_string())).max_requests, 60);
    assert_eq!(RateLimiter::from_value(Some("4294967295".to_string())).max_requests, u32::MAX);
    assert_eq!(RateLimiter::from_value(Some("0".to_string())).window_duration, 60 * SECOND);
}

#[test]
fn remaining_and_retry_after() {
    let status = RateLimitStatus {
        allowed: true,
        current_requests: 2,
        max_requests: 5,
        window_duration: 90 * SECOND + 999_999_999,
        reset_time: 0,
    };
    assert_eq!(status.remaining(), 3);
    assert_eq!(status.retry_after_secs(), 90);
}
