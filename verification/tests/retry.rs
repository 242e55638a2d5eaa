use clipboard_monitor::retry::{Attempts, RetryDecision, RetryPolicy};

#[test]
fn policies_have_their_limits_and_pauses() {
    assert_eq!(RetryPolicy::clipboard(), RetryPolicy { max_attempts: 3, delay_millis: 1000 });
    assert_eq!(RetryPolicy::image_directory(), RetryPolicy { max_attempts: 3, delay_millis: 100 });
    assert_eq!(RetryPolicy::text_directory(), RetryPolicy { max_attempts: 1, delay_millis: 0 });
}

#[test]
fn directory_created_on_the_third_attempt_counts_three_attempts() {
    let mut attempts = Attempts::new(RetryPolicy::image_directory());
    assert_eq!(attempts.made, 0);
    assert_eq!(attempts.failed(), RetryDecision::Retry { delay_millis: 100 });
    assert_eq!(attempts.made, 1);
    assert_eq!(attempts.failed(), RetryDecision::Retry { delay_millis: 100 });
    assert_eq!(attempts.made, 2);
    assert!(!attempts.exhausted());
    attempts.succeeded();
    assert_eq!(attempts.made, 3);
}

#[test]
fn third_failure_gives_up() {
    let mut attempts = Attempts::new(RetryPolicy::clipboard());
    assert_eq!(attempts.failed(), RetryDecision::Retry { delay_millis: 1000 });
    assert_eq!(attempts.failed(), RetryDecision::Retry { delay_millis: 1000 });
    assert_eq!(attempts.failed(), RetryDecision::GiveUp);
    assert_eq!(attempts.made, 3);
    assert!(attempts.exhausted());
}

#[test]
fn single_attempt_gives_up_at_once() {
    let mut attempts = Attempts::new(RetryPolicy::text_directory());
    assert_eq!(attempts.failed(), RetryDecision::GiveUp);
    assert_eq!(attempts.made, 1);
}

#[test]
fn count_never_passes_the_limit() {
    let mut attempts = Attempts::new(RetryPolicy { max_attempts: 2, delay_millis: 5 });
    assert_eq!(attempts.failed(), RetryDecision::Retry { delay_millis: 5 });
    assert_eq!(attempts.failed(), RetryDecision::GiveUp);
    assert_eq!(attempts.failed(), RetryDecision::GiveUp);
    attempts.succeeded();
    assert_eq!(attempts.made, 2);

    let mut none = Attempts::new(RetryPolicy { max_attempts: 0, delay_millis: 5 });
    assert!(none.exhausted());
    assert_eq!(none.failed(), RetryDecision::GiveUp);
    assert_eq!(none.made, 0);
}
