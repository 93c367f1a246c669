use progress_download::error::FailureKind;
use progress_download::transfer::{range_header_bytes, ChunkStep, OpenMode, Phase, TransferEngine};

#[test]
fn range_header_spells_the_offset_in_decimal() {
    assert_eq!(range_header_bytes(0), b"bytes=0-");
    assert_eq!(range_header_bytes(7), b"bytes=7-");
    assert_eq!(range_header_bytes(10), b"bytes=10-");
    assert_eq!(range_header_bytes(4_194_304), b"bytes=4194304-");
    assert_eq!(range_header_bytes(u64::MAX), b"bytes=18446744073709551615-");
}

#[test]
fn resume_offset_matches_probe() {
    for len in [0u64, 1, 4096, 4 * 1024 * 1024] {
        let mut e = TransferEngine::new(512 * 1024);
        let offset = e.start_attempt(len);
        assert_eq!(offset, len);
        assert_eq!(e.downloaded, len);
        assert_eq!(e.phase, Phase::Requesting);
    }
}

#[test]
fn partial_content_with_prior_bytes_appends() {
    let mut e = TransferEngine::new(512 * 1024);
    e.start_attempt(4096);
    let r = e.on_response(206, Some(10_000));
    assert_eq!(r, Ok(OpenMode::Append));
    assert!(e.supports_resume);
    assert_eq!(e.downloaded, 4096);
    assert_eq!(e.total, 14_096);
    assert_eq!(e.phase, Phase::Streaming);
}

#[test]
fn full_response_truncates_despite_prior_bytes() {
    let mut e = TransferEngine::new(512 * 1024);
    e.start_attempt(4096);
    let r = e.on_response(200, Some(10_000));
    assert_eq!(r, Ok(OpenMode::Truncate));
    assert!(!e.supports_resume);
    assert_eq!(e.downloaded, 0);
    assert_eq!(e.total, 10_000);
}

#[test]
fn partial_content_without_prior_bytes_truncates() {
    let mut e = TransferEngine::new(512 * 1024);
    e.start_attempt(0);
    let r = e.on_response(206, Some(10_000));
    assert_eq!(r, Ok(OpenMode::Truncate));
    assert!(e.supports_resume);
    assert_eq!(e.downloaded, 0);
    assert_eq!(e.total, 10_000);
}

#[test]
fn missing_content_length_reads_as_zero_remaining() {
    let mut e = TransferEngine::new(512 * 1024);
    e.start_attempt(777);
    let r = e.on_response(206, None);
    assert_eq!(r, Ok(OpenMode::Append));
    assert_eq!(e.total, 777);
}

#[test]
fn total_saturates_at_the_greatest_count() {
    let mut e = TransferEngine::new(512 * 1024);
    e.start_attempt(u64::MAX - 5);
    let r = e.on_response(206, Some(100));
    assert_eq!(r, Ok(OpenMode::Append));
    assert_eq!(e.total, u64::MAX);
}

#[test]
fn error_status_is_a_failure_of_its_own() {
    for status in [101u16, 301, 404, 500, 503] {
        let mut e = TransferEngine::new(512 * 1024);
        e.start_attempt(0);
        let r = e.on_response(status, None);
        assert_eq!(r, Err(FailureKind::HttpStatus(status)));
        assert_eq!(e.phase, Phase::Failed(FailureKind::HttpStatus(status)));
    }
}

#[test]
fn flush_fires_exactly_at_the_threshold() {
    let mut e = TransferEngine::new(100);
    e.start_attempt(0);
    e.on_response(200, Some(1000)).unwrap();
    let s1 = e.on_chunk(60);
    assert_eq!(s1, ChunkStep { position: 60, flush: false });
    assert_eq!(e.buffered, 60);
    let s2 = e.on_chunk(39);
    assert!(!s2.flush);
    assert_eq!(e.buffered, 99);
    let s3 = e.on_chunk(1);
    assert!(s3.flush);
    assert_eq!(s3.position, 100);
    assert_eq!(e.buffered, 0);
}

#[test]
fn oversized_chunk_flushes_at_once() {
    let mut e = TransferEngine::new(100);
    e.start_attempt(0);
    e.on_response(200, None).unwrap();
    let s = e.on_chunk(250);
    assert!(s.flush);
    assert_eq!(s.position, 250);
    assert_eq!(e.buffered, 0);
}

#[test]
fn stream_end_then_rename_completes() {
    let mut e = TransferEngine::new(100);
    e.start_attempt(0);
    e.on_response(200, Some(30)).unwrap();
    e.on_chunk(30);
    e.on_stream_end();
    assert_eq!(e.phase, Phase::Finalizing);
    assert_eq!(e.buffered, 0);
    e.on_renamed();
    assert_eq!(e.phase, Phase::Complete);
}

#[test]
fn failure_keeps_the_counts_for_the_next_probe() {
    let mut e = TransferEngine::new(100);
    e.start_attempt(0);
    e.on_response(200, Some(500)).unwrap();
    e.on_chunk(70);
    e.on_failure(FailureKind::Timeout);
    assert_eq!(e.phase, Phase::Failed(FailureKind::Timeout));
    assert_eq!(e.downloaded, 70);
    let offset = e.start_attempt(42);
    assert_eq!(offset, 42);
    assert_eq!(e.downloaded, 42);
}
