use pdf_shuffler::{BatchState, SUMMARY_LIFETIME_MS};

#[test]
fn new_state_is_idle() {
    let state = BatchState::new();
    assert!(!state.is_processing());
    assert_eq!(state.pending_count(), 0);
    assert_eq!(state.processed_count(), 0);
    assert_eq!(state.summary(), "");
    assert_eq!(state.progress(), None);
}

#[test]
fn empty_submission_is_refused() {
    let mut state = BatchState::new();
    assert!(state.submit(0).is_none());
    assert!(!state.is_processing());
}

#[test]
fn submission_while_processing_is_refused() {
    let mut state = BatchState::new();
    let _sender = state.submit(3).unwrap();
    assert!(state.submit(2).is_none());
    assert_eq!(state.pending_count(), 3);
    assert!(state.is_processing());
}

#[test]
fn poll_before_any_result_does_not_wait() {
    let mut state = BatchState::new();
    let _sender = state.submit(2).unwrap();
    state.poll(5);
    assert_eq!(state.processed_count(), 0);
    assert!(state.is_processing());
    assert_eq!(state.progress(), Some("Processing 1 of 2 files...".to_string()));
}

#[test]
fn poll_with_all_senders_gone_does_not_wait() {
    let mut state = BatchState::new();
    let sender = state.submit(2).unwrap();
    sender.send(true).unwrap();
    drop(sender);
    state.poll(5);
    assert_eq!(state.processed_count(), 1);
    assert!(state.is_processing());
}

#[test]
fn results_counted_across_polls() {
    let mut state = BatchState::new();
    let sender = state.submit(3).unwrap();
    sender.send(true).unwrap();
    state.poll(1);
    assert_eq!(state.processed_count(), 1);
    assert_eq!(state.summary(), "");
    sender.send(true).unwrap();
    sender.send(true).unwrap();
    state.poll(2);
    assert_eq!(state.processed_count(), 3);
    assert_eq!(state.successful_count(), 3);
    assert!(!state.is_processing());
    assert_eq!(state.summary(), "Successfully processed 3 files");
}

#[test]
fn all_failed_summary() {
    let mut state = BatchState::new();
    let sender = state.submit(1).unwrap();
    sender.send(false).unwrap();
    state.poll(0);
    assert_eq!(state.failed_count(), 1);
    assert_eq!(state.summary(), "Failed to process 1 file");
}

#[test]
fn record_result_counts_directly() {
    let mut state = BatchState::new();
    let _sender = state.submit(2).unwrap();
    state.record_result(false, 3);
    assert_eq!(state.failed_count(), 1);
    assert!(state.is_processing());
    state.record_result(true, 4);
    assert_eq!(state.successful_count(), 1);
    assert!(!state.is_processing());
    assert_eq!(state.summary(), "Processed 2 files: 1 successful, 1 failed");
}

#[test]
fn summary_expires_after_its_lifetime() {
    let mut state = BatchState::new();
    let sender = state.submit(1).unwrap();
    sender.send(true).unwrap();
    state.poll(1000);
    assert_eq!(state.summary(), "Successfully processed 1 file");
    state.poll(1000 + SUMMARY_LIFETIME_MS - 1);
    assert_eq!(state.summary(), "Successfully processed 1 file");
    state.poll(1000 + SUMMARY_LIFETIME_MS);
    assert_eq!(state.summary(), "");
    assert_eq!(state.processed_count(), 1);
}

#[test]
fn summary_lifetime_is_three_seconds() {
    assert_eq!(SUMMARY_LIFETIME_MS, 3000);
}

#[test]
fn summary_kept_while_next_batch_runs() {
    let mut state = BatchState::new();
    let sender = state.submit(1).unwrap();
    sender.send(true).unwrap();
    state.poll(0);
    let _next = state.submit(2).unwrap();
    assert_eq!(state.processed_count(), 0);
    state.poll(10_000);
    assert_eq!(state.summary(), "Successfully processed 1 file");
    state.expire_summary(10_000);
    assert_eq!(state.summary(), "Successfully processed 1 file");
}

#[test]
fn new_batch_resets_counters() {
    let mut state = BatchState::new();
    let sender = state.submit(2).unwrap();
    sender.send(true).unwrap();
    sender.send(false).unwrap();
    state.poll(0);
    let _next = state.submit(4).unwrap();
    assert_eq!(state.pending_count(), 4);
    assert_eq!(state.processed_count(), 0);
    assert_eq!(state.successful_count(), 0);
    assert_eq!(state.failed_count(), 0);
}
