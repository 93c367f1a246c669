//! A resumable, concurrency-bounded file download engine.
//!
//! The crate holds the decision core of a batch downloader: the per-file
//! transfer state machine that probes a partial file, picks the range-request
//! offset, decides between appending and truncating, bounds the write
//! buffer's unflushed bytes, and promotes a finished temporary file by a
//! single rename; the retry policy that classifies failures and derives a
//! bounded, jittered backoff schedule; the permit accounting that bounds how
//! many transfers stream at once; and the aggregation of the batch outcome.
//! A thin asynchronous shell performs the network and file I/O and feeds
//! every observation back into these verified functions.

pub mod config;
pub mod error;
pub mod limiter;
pub mod orchestrator;
pub mod retry;
pub mod transfer;
