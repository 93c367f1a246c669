use vstd::prelude::*;

verus! {

/// Configuration of the download engine. Durations are in milliseconds.
///
/// Every field has a documented default; the `with_*` methods adjust one
/// field at a time starting from `new()`.
#[derive(Clone, Copy, PartialEq, Eq, Structural, Debug)]
pub struct DownloadProgress {
    /// Time allowed for establishing a connection, in milliseconds.
    pub connect_timeout_ms: u64,
    /// Time allowed for one whole request, in milliseconds.
    pub timeout_ms: u64,
    /// Buffered byte count at which the writer is flushed to disk.
    pub flush_threshold: usize,
    /// Greatest number of transfers allowed to stream at the same time.
    pub max_concurrent: usize,
}

impl DownloadProgress {
    /// A configuration is usable when at least one transfer may run and the
    /// flush threshold is positive.
    pub open spec fn wf(self) -> bool {
        &&& self.max_concurrent >= 1
        &&& self.flush_threshold >= 1
    }

    /// The default configuration: 2 s connect timeout, 60 s request timeout,
    /// 512 KiB flush threshold, 2 concurrent transfers.
    pub fn new() -> (r: DownloadProgress)
        ensures
            r.connect_timeout_ms == 2000,
            r.timeout_ms == 60_000,
            r.flush_threshold == 512 * 1024,
            r.max_concurrent == 2,
            r.wf(),
    {
        DownloadProgress {
            connect_timeout_ms: 2000,
            timeout_ms: 60_000,
            flush_threshold: 512 * 1024,
            max_concurrent: 2,
        }
    }

    /// The same configuration with the connect timeout replaced.
    pub fn with_connect_timeout_ms(self, connect_timeout_ms: u64) -> (r: DownloadProgress)
        ensures
            r == (DownloadProgress { connect_timeout_ms, ..self }),
    {
        DownloadProgress { connect_timeout_ms, ..self }
    }

    /// The same configuration with the request timeout replaced.
    pub fn with_timeout_ms(self, timeout_ms: u64) -> (r: DownloadProgress)
        ensures
            r == (DownloadProgress { timeout_ms, ..self }),
    {
        DownloadProgress { timeout_ms, ..self }
    }

    /// The same configuration with the flush threshold replaced; the
    /// threshold must be positive.
    pub fn with_flush_threshold(self, flush_threshold: usize) -> (r: DownloadProgress)
        requires
            flush_threshold >= 1,
        ensures
            r == (DownloadProgress { flush_threshold, ..self }),
    {
        DownloadProgress { flush_threshold, ..self }
    }

    /// The same configuration with the concurrency bound replaced; the
    /// bound must admit at least one transfer.
    pub fn with_max_concurrent(self, max_concurrent: usize) -> (r: DownloadProgress)
        requires
            max_concurrent >= 1,
        ensures
            r == (DownloadProgress { max_concurrent, ..self }),
    {
        DownloadProgress { max_concurrent, ..self }
    }
}

impl Default for DownloadProgress {
    fn default() -> (r: DownloadProgress)
        ensures
            r.connect_timeout_ms == 2000,
            r.timeout_ms == 60_000,
            r.flush_threshold == 512 * 1024,
            r.max_concurrent == 2,
            r.wf(),
    {
        DownloadProgress::new()
    }
}

} // verus!
