use progress_download::config::DownloadProgress;
use progress_download::error::{DownloadError, FailureKind};
use progress_download::limiter::ConcurrencyLimiter;
use progress_download::orchestrator::{aggregate_outcomes, DownloadTask};

#[test]
fn permits_stop_at_the_bound() {
    let mut l = ConcurrencyLimiter::new(2);
    assert!(l.try_acquire());
    assert!(l.try_acquire());
    assert!(!l.try_acquire());
    assert_eq!(l.outstanding, 2);
    l.release();
    assert_eq!(l.outstanding, 1);
    assert!(l.try_acquire());
    assert!(!l.try_acquire());
}

#[test]
fn more_tasks_than_permits_never_overlap_past_the_bound() {
    // Five tasks over two permits, released in an arbitrary order: the
    // outstanding count never passes the bound.
    let mut l = ConcurrencyLimiter::new(2);
    let mut granted: usize = 0;
    let mut done: usize = 0;
    while done < 5 {
        while granted < 5 && l.try_acquire() {
            granted += 1;
            assert!(l.outstanding <= l.max_permits);
        }
        l.release();
        done += 1;
        assert!(l.outstanding <= l.max_permits);
    }
    assert_eq!(granted, 5);
}

#[test]
fn empty_batch_succeeds() {
    let results: Vec<Result<(), DownloadError>> = vec![];
    assert_eq!(aggregate_outcomes(&results), Ok(()));
}

#[test]
fn batch_succeeds_only_when_every_task_did() {
    let results: Vec<Result<(), DownloadError>> = vec![Ok(()), Ok(()), Ok(())];
    assert_eq!(aggregate_outcomes(&results), Ok(()));
}

#[test]
fn first_failure_wins() {
    let first = DownloadError::Exhausted(FailureKind::Timeout);
    let second = DownloadError::Fatal(FailureKind::FsOpen);
    let results: Vec<Result<(), DownloadError>> = vec![Ok(()), Err(first), Err(second), Ok(())];
    assert_eq!(aggregate_outcomes(&results), Err(first));
}

#[test]
fn error_carries_its_failure() {
    assert_eq!(DownloadError::Fatal(FailureKind::FsRename).kind(), FailureKind::FsRename);
    assert_eq!(DownloadError::Exhausted(FailureKind::Connect).kind(), FailureKind::Connect);
}

#[test]
fn configuration_defaults_and_adjustments() {
    let c = DownloadProgress::new();
    assert_eq!(c.connect_timeout_ms, 2000);
    assert_eq!(c.timeout_ms, 60_000);
    assert_eq!(c.flush_threshold, 512 * 1024);
    assert_eq!(c.max_concurrent, 2);
    assert_eq!(c, DownloadProgress::default());

    let c = c
        .with_connect_timeout_ms(100)
        .with_timeout_ms(9000)
        .with_flush_threshold(1024)
        .with_max_concurrent(8);
    assert_eq!(c.connect_timeout_ms, 100);
    assert_eq!(c.timeout_ms, 9000);
    assert_eq!(c.flush_threshold, 1024);
    assert_eq!(c.max_concurrent, 8);
}

#[test]
fn a_task_keeps_its_fields() {
    let t = DownloadTask::new(
        String::from("https://host/a.bin"),
        String::from("a.bin"),
    );
    assert_eq!(t.source_url, "https://host/a.bin");
    assert_eq!(t.destination_path, "a.bin");
}
