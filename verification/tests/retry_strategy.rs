use azure_devops_artifacts::retry::is_retryable_status;
use azure_devops_artifacts::retry::RetryOptions;

#[test]
fn retryable_statuses() {
    for status in [408u16, 429, 500, 502, 503, 504] {
        assert!(is_retryable_status(status));
    }
    for status in [200u16, 201, 301, 400, 401, 403, 404, 409, 501] {
        assert!(!is_retryable_status(status));
    }
}

#[test]
fn exponential_delays_double_and_cap() {
    let options = RetryOptions::exponential();
    assert_eq!(options.sleep_duration_ms(0, 0), 200);
    assert_eq!(options.sleep_duration_ms(1, 0), 400);
    assert_eq!(options.sleep_duration_ms(2, 0), 800);
    assert_eq!(options.sleep_duration_ms(3, 7), 1607);
    assert_eq!(options.sleep_duration_ms(20, 0), 30000);
    assert_eq!(options.sleep_duration_ms(200, 255), 30000);
}

#[test]
fn fixed_delays_stay_put() {
    let options = RetryOptions::fixed();
    assert_eq!(options.sleep_duration_ms(0, 0), 200);
    assert_eq!(options.sleep_duration_ms(5, 37), 237);
}

#[test]
fn off_never_sleeps_and_is_always_expired() {
    let options = RetryOptions::off();
    assert_eq!(options.sleep_duration_ms(3, 99), 0);
    assert!(options.is_expired(0, 0));
}

#[test]
fn expiry_by_count_and_elapsed_time() {
    let options = RetryOptions::exponential();
    assert!(!options.is_expired(0, 0));
    assert!(!options.is_expired(59999, 7));
    assert!(options.is_expired(0, 8));
    assert!(options.is_expired(60000, 0));
}
