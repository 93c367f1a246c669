use progress_download::transfer::{OpenMode, Phase, TransferEngine};

/// A stand-in for the task's two paths: the temporary file with its write
/// buffer, and the destination.
struct Files {
    temp_disk: Vec<u8>,
    pending: Vec<u8>,
    dest: Option<Vec<u8>>,
}

impl Files {
    fn new() -> Files {
        Files { temp_disk: Vec::new(), pending: Vec::new(), dest: None }
    }

    fn open(&mut self, mode: OpenMode) {
        self.pending.clear();
        if mode == OpenMode::Truncate {
            self.temp_disk.clear();
        }
    }

    fn write(&mut self, chunk: &[u8]) {
        self.pending.extend_from_slice(chunk);
    }

    fn flush(&mut self) {
        self.temp_disk.append(&mut self.pending);
    }

    fn rename(&mut self) {
        self.flush();
        self.dest = Some(std::mem::take(&mut self.temp_disk));
    }

    /// An interruption loses whatever was buffered and not yet flushed.
    fn interrupt(&mut self) {
        self.pending.clear();
    }
}

/// Drives one attempt: probe the temporary file, follow every decision the
/// engine makes, stop after `stop_after` bytes of the stream if that comes
/// first. Returns whether the attempt ran to completion.
fn run_attempt(
    e: &mut TransferEngine,
    files: &mut Files,
    remote: &[u8],
    chunk_size: usize,
    stop_after: Option<usize>,
) -> bool {
    let offset = e.start_attempt(files.temp_disk.len() as u64);
    assert_eq!(offset, files.temp_disk.len() as u64);

    // The server honours the range request.
    let body = &remote[offset as usize..];
    let mode = e.on_response(206, Some(body.len() as u64)).unwrap();
    files.open(mode);
    assert_eq!(e.total, remote.len() as u64);

    let mut sent: usize = 0;
    for chunk in body.chunks(chunk_size) {
        if let Some(stop) = stop_after {
            if sent >= stop {
                files.interrupt();
                return false;
            }
        }
        files.write(chunk);
        let step = e.on_chunk(chunk.len());
        if step.flush {
            files.flush();
        }
        sent += chunk.len();
        assert_eq!(step.position, offset + sent as u64);
        // Unflushed bytes never pass the threshold by more than one chunk.
        assert!(files.pending.len() < e.flush_threshold);
    }
    e.on_stream_end();
    files.flush();
    files.rename();
    e.on_renamed();
    true
}

#[test]
fn interrupted_ten_mebibyte_transfer_resumes_to_the_byte() {
    const MIB: usize = 1024 * 1024;
    let remote: Vec<u8> = (0..10 * MIB).map(|i| (i % 251) as u8).collect();
    let mut files = Files::new();
    let mut e = TransferEngine::new(MIB);

    // First attempt, interrupted after 4 MiB of the stream.
    let done = run_attempt(&mut e, &mut files, &remote, 64 * 1024, Some(4 * MIB));
    assert!(!done);
    assert_eq!(files.dest, None);
    assert_eq!(files.temp_disk.len(), 4 * MIB);
    let pre_interruption = files.temp_disk.clone();

    // The resumed attempt asks for the bytes from 4 MiB on and finishes.
    let done = run_attempt(&mut e, &mut files, &remote, 64 * 1024, None);
    assert!(done);
    assert_eq!(e.phase, Phase::Complete);

    let dest = files.dest.expect("the destination holds the finished file");
    assert_eq!(dest.len(), 10 * MIB);
    assert_eq!(&dest[..4 * MIB], &pre_interruption[..]);
    assert_eq!(dest, remote);
}

#[test]
fn a_server_that_ignores_the_range_header_forces_a_clean_restart() {
    let remote: Vec<u8> = (0..10_000).map(|i| (i % 13) as u8).collect();
    let mut files = Files::new();
    // Stale partial bytes that do not match the remote content.
    files.temp_disk = vec![0xAA; 3000];
    let mut e = TransferEngine::new(1024);

    let offset = e.start_attempt(files.temp_disk.len() as u64);
    assert_eq!(offset, 3000);
    // The server answers with the full body instead of partial content.
    let mode = e.on_response(200, Some(remote.len() as u64)).unwrap();
    assert_eq!(mode, OpenMode::Truncate);
    files.open(mode);
    assert!(files.temp_disk.is_empty());
    assert_eq!(e.downloaded, 0);
    assert_eq!(e.total, remote.len() as u64);

    for chunk in remote.chunks(1000) {
        files.write(chunk);
        if e.on_chunk(chunk.len()).flush {
            files.flush();
        }
    }
    e.on_stream_end();
    files.flush();
    files.rename();
    e.on_renamed();

    assert_eq!(files.dest.unwrap(), remote);
}
