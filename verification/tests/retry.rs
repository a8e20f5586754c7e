use blobstore::error::StorageError;
use blobstore::retry::backoff_delay_ms;
use blobstore::retry::UploadTask;

#[test]
fn zero_budget_completes_immediately() {
    let task = UploadTask::new(0);
    assert!(task.is_finished());
    assert!(!task.has_succeeded());
    assert_eq!(task.attempt_count(), 0);
    assert_eq!(task.sleep_count(), 0);
    assert_eq!(task.failure(), Some(StorageError::RetryExhausted));
}

#[test]
fn immediate_success_takes_one_attempt() {
    let mut task = UploadTask::new(3);
    assert!(!task.is_finished());
    let sleep = task.record_attempt(true);
    assert_eq!(sleep, None);
    assert!(task.is_finished());
    assert!(task.has_succeeded());
    assert_eq!(task.attempt_count(), 1);
    assert_eq!(task.sleep_count(), 0);
    assert_eq!(task.failure(), None);
}

#[test]
fn all_failures_spend_the_whole_budget() {
    let mut task = UploadTask::new(3);
    assert_eq!(task.record_attempt(false), Some(100));
    assert_eq!(task.record_attempt(false), Some(120));
    assert_eq!(task.record_attempt(false), None);
    assert!(task.is_finished());
    assert!(!task.has_succeeded());
    assert_eq!(task.attempt_count(), 3);
    assert_eq!(task.sleep_count(), 2);
    assert_eq!(task.failure(), Some(StorageError::RetryExhausted));
}

#[test]
fn success_on_third_attempt_sleeps_twice() {
    let mut task = UploadTask::new(5);
    assert_eq!(task.record_attempt(false), Some(100));
    assert_eq!(task.record_attempt(false), Some(120));
    assert_eq!(task.record_attempt(true), None);
    assert!(task.has_succeeded());
    assert_eq!(task.attempt_count(), 3);
    assert_eq!(task.sleep_count(), 2);
    assert_eq!(task.failure(), None);
}

#[test]
fn single_attempt_budget_never_sleeps() {
    let mut task = UploadTask::new(1);
    assert_eq!(task.record_attempt(false), None);
    assert!(task.is_finished());
    assert!(!task.has_succeeded());
    assert_eq!(task.attempt_count(), 1);
    assert_eq!(task.sleep_count(), 0);
}

#[test]
fn budget_is_kept() {
    let task = UploadTask::new(7);
    assert_eq!(task.attempt_budget(), 7);
}

#[test]
fn backoff_delays_grow_by_a_fifth() {
    assert_eq!(backoff_delay_ms(0), 100);
    assert_eq!(backoff_delay_ms(1), 120);
    assert_eq!(backoff_delay_ms(2), 144);
    assert_eq!(backoff_delay_ms(3), 172);
    assert_eq!(backoff_delay_ms(4), 206);
    assert_eq!(backoff_delay_ms(5), 247);
}
