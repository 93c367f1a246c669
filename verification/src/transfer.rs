use vstd::prelude::*;

use crate::error::FailureKind;

verus! {

/// Phase of one transfer attempt.
#[derive(Clone, Copy, PartialEq, Eq, Structural, Debug)]
pub enum Phase {
    /// Reading the length of the partial file on disk.
    Probing,
    /// The range request is out; no response yet.
    Requesting,
    /// Chunks are being pulled from the response and written.
    Streaming,
    /// The stream is exhausted; the final flush and the rename are due.
    Finalizing,
    /// The file stands at its destination.
    Complete,
    /// The attempt ended in a failure of the given kind.
    Failed(FailureKind),
}

/// How the temporary file must be opened for the streaming phase.
#[derive(Clone, Copy, PartialEq, Eq, Structural, Debug)]
pub enum OpenMode {
    /// Keep the bytes on disk and write after them.
    Append,
    /// Cut the file back to nothing and write from the start.
    Truncate,
}

/// What the caller must do after handing one chunk to the engine.
#[derive(Clone, Copy, PartialEq, Eq, Structural, Debug)]
pub struct ChunkStep {
    /// The new progress position: every byte obtained so far.
    pub position: u64,
    /// Whether the write buffer must be flushed to disk now.
    pub flush: bool,
}

/// The decision core of one resumable transfer.
///
/// The engine never touches the network or the disk itself: the caller
/// probes, requests, reads and writes, and reports each observation here;
/// the engine answers with the offset to request, the mode to open the
/// temporary file with, and when to flush. Its byte counts mirror the
/// caller's file exactly as long as the caller performs what each step
/// prescribes.
pub struct TransferEngine {
    /// Buffered byte count at which a flush is forced.
    pub flush_threshold: usize,
    /// Phase of the current attempt.
    pub phase: Phase,
    /// Bytes of the file obtained so far, on disk and in the buffer.
    pub downloaded: u64,
    /// Expected length of the whole file; meaningful from Streaming on.
    pub total: u64,
    /// Whether the server honoured the range request.
    pub supports_resume: bool,
    /// Unflushed bytes sitting in the write buffer.
    pub buffered: usize,
}

impl TransferEngine {
    /// The buffer is lawful when it sits strictly below the flush threshold:
    /// every step that reaches the threshold flushes at once.
    pub open spec fn wf(self) -> bool {
        &&& self.flush_threshold >= 1
        &&& self.buffered < self.flush_threshold
    }

    /// A fresh engine, ready to probe.
    pub fn new(flush_threshold: usize) -> (e: TransferEngine)
        requires
            flush_threshold >= 1,
        ensures
            e.wf(),
            e.flush_threshold == flush_threshold,
            e.phase == Phase::Probing,
            e.downloaded == 0,
            e.total == 0,
            e.buffered == 0,
            !e.supports_resume,
    {
        TransferEngine {
            flush_threshold,
            phase: Phase::Probing,
            downloaded: 0,
            total: 0,
            supports_resume: false,
            buffered: 0,
        }
    }

    /// Begins an attempt from the probed length of the temporary file on
    /// disk (absence reads as length 0). Returns the offset that the range
    /// request must carry: exactly the probed length, so that the request
    /// asks for the bytes the disk does not yet hold. The count is taken
    /// from the disk anew on every attempt; nothing carries over from a
    /// prior attempt in memory.
    pub fn start_attempt(&mut self, temp_len: u64) -> (offset: u64)
        requires
            old(self).wf(),
        ensures
            final(self).wf(),
            offset == temp_len,
            final(self).downloaded == temp_len,
            final(self).phase == Phase::Requesting,
            final(self).buffered == 0,
            final(self).total == 0,
            !final(self).supports_resume,
            final(self).flush_threshold == old(self).flush_threshold,
    {
        self.downloaded = temp_len;
        self.total = 0;
        self.supports_resume = false;
        self.buffered = 0;
        self.phase = Phase::Requesting;
        temp_len
    }

    /// Digests the response to the range request: its status and, if the
    /// server sent one, the length of the body it is about to stream.
    ///
    /// A status outside the success range is a transient failure of its
    /// own. Otherwise the attempt resumes — keeping its bytes and appending
    /// — exactly when the server answered with partial content (status 206)
    /// and prior bytes exist; any full response forces a truncating restart
    /// from offset 0, whatever is on disk, so that honoured and ignored
    /// range headers can never be concatenated. The expected total is the
    /// bytes kept plus the remaining body length (0 when absent), saturated
    /// at the greatest representable count.
    pub fn on_response(&mut self, status: u16, content_length: Option<u64>) -> (r: Result<
        OpenMode,
        FailureKind,
    >)
        requires
            old(self).wf(),
            old(self).phase == Phase::Requesting,
        ensures
            final(self).wf(),
            final(self).flush_threshold == old(self).flush_threshold,
            r is Ok <==> (200 <= status < 300),
            !(200 <= status < 300) ==> {
                &&& r == Err::<OpenMode, FailureKind>(FailureKind::HttpStatus(status))
                &&& final(self).phase == Phase::Failed(FailureKind::HttpStatus(status))
                &&& final(self).downloaded == old(self).downloaded
            },
            (200 <= status < 300) ==> {
                let resumed = status == 206 && old(self).downloaded > 0;
                let kept = if resumed {
                    old(self).downloaded
                } else {
                    0
                };
                let remaining = content_length->Some_0;
                let expected = if content_length is Some {
                    kept + remaining
                } else {
                    kept as int
                };
                &&& r == Ok::<OpenMode, FailureKind>(
                    spec_open_mode(status == 206, old(self).downloaded as nat),
                )
                &&& final(self).supports_resume == (status == 206)
                &&& final(self).downloaded == kept
                &&& final(self).total == if expected <= u64::MAX {
                    expected
                } else {
                    u64::MAX as int
                }
                &&& final(self).phase == Phase::Streaming
                &&& final(self).buffered == 0
            },
    {
        if !(200 <= status && status < 300) {
            self.phase = Phase::Failed(FailureKind::HttpStatus(status));
            return Err(FailureKind::HttpStatus(status));
        }
        self.supports_resume = status == 206;
        let resumed = self.supports_resume && self.downloaded > 0;
        if !resumed {
            self.downloaded = 0;
        }
        let remaining: u64 = match content_length {
            Some(n) => n,
            None => 0,
        };
        self.total = if remaining > u64::MAX - self.downloaded {
            u64::MAX
        } else {
            self.downloaded + remaining
        };
        self.buffered = 0;
        self.phase = Phase::Streaming;
        Ok(
            if resumed {
                OpenMode::Append
            } else {
                OpenMode::Truncate
            },
        )
    }

    /// Takes one chunk of the body. The byte count advances by the chunk's
    /// length, the caller is told the new progress position, and the buffer
    /// is flushed exactly when the chunk carries it to the threshold — so
    /// the unflushed bytes never exceed the threshold by more than one
    /// chunk, and between chunks they always sit below it.
    pub fn on_chunk(&mut self, chunk_len: usize) -> (step: ChunkStep)
        requires
            old(self).wf(),
            old(self).phase == Phase::Streaming,
            old(self).downloaded + chunk_len <= u64::MAX,
            old(self).buffered + chunk_len <= usize::MAX,
        ensures
            final(self).wf(),
            final(self).downloaded == old(self).downloaded + chunk_len,
            step.position == final(self).downloaded,
            step.flush == (old(self).buffered + chunk_len >= old(self).flush_threshold),
            final(self).buffered == if step.flush {
                0int
            } else {
                old(self).buffered + chunk_len
            },
            final(self).phase == Phase::Streaming,
            final(self).flush_threshold == old(self).flush_threshold,
            final(self).total == old(self).total,
            final(self).supports_resume == old(self).supports_resume,
    {
        self.downloaded = self.downloaded + chunk_len as u64;
        let grown = self.buffered + chunk_len;
        let flush = grown >= self.flush_threshold;
        self.buffered = if flush {
            0
        } else {
            grown
        };
        ChunkStep { position: self.downloaded, flush }
    }

    /// The stream is exhausted: the caller must flush whatever is buffered
    /// — unconditionally — and then rename the temporary file onto the
    /// destination path, the one and only write that path ever receives.
    pub fn on_stream_end(&mut self)
        requires
            old(self).wf(),
            old(self).phase == Phase::Streaming,
        ensures
            final(self).wf(),
            final(self).phase == Phase::Finalizing,
            final(self).buffered == 0,
            final(self).downloaded == old(self).downloaded,
            final(self).total == old(self).total,
            final(self).supports_resume == old(self).supports_resume,
            final(self).flush_threshold == old(self).flush_threshold,
    {
        self.buffered = 0;
        self.phase = Phase::Finalizing;
    }

    /// The rename succeeded: the transfer is complete.
    pub fn on_renamed(&mut self)
        requires
            old(self).wf(),
            old(self).phase == Phase::Finalizing,
        ensures
            final(self).wf(),
            final(self).phase == Phase::Complete,
            final(self).downloaded == old(self).downloaded,
            final(self).total == old(self).total,
    {
        self.phase = Phase::Complete;
    }

    /// Any observation of a failure moves the attempt to the failed phase;
    /// the byte counts stay as they were, and the next attempt re-probes
    /// the disk rather than trusting them.
    pub fn on_failure(&mut self, kind: FailureKind)
        requires
            old(self).wf(),
        ensures
            final(self).wf(),
            final(self).phase == Phase::Failed(kind),
            final(self).downloaded == old(self).downloaded,
            final(self).buffered == old(self).buffered,
            final(self).flush_threshold == old(self).flush_threshold,
    {
        self.phase = Phase::Failed(kind);
    }
}

/// The decimal digits of `n`, most significant first, as ASCII bytes.
pub open spec fn spec_decimal(n: nat) -> Seq<u8>
    decreases n,
{
    if n < 10 {
        seq![(48 + n) as u8]
    } else {
        spec_decimal(n / 10) + seq![(48 + n % 10) as u8]
    }
}

/// The value of the range header that asks for the bytes from `offset`
/// onward: the ASCII bytes of `bytes=<offset>-`.
pub open spec fn spec_range_header(offset: nat) -> Seq<u8> {
    seq![98u8, 121u8, 116u8, 101u8, 115u8, 61u8] + spec_decimal(offset) + seq![45u8]
}

/// Renders the range header value `bytes=<offset>-` that the request for
/// an attempt beginning at `offset` must carry.
pub fn range_header_bytes(offset: u64) -> (v: Vec<u8>)
    ensures
        v@ == spec_range_header(offset as nat),
{
    let mut digits: Vec<u8> = Vec::new();
    let mut n: u64 = offset;
    loop
        invariant_except_break
            spec_decimal(offset as nat) == spec_decimal(n as nat) + digits@,
        ensures
            spec_decimal(offset as nat) == digits@,
        decreases n,
    {
        let d: u8 = (n % 10) as u8 + 48;
        let pre: Ghost<Seq<u8>> = Ghost(digits@);
        let prev: Ghost<u64> = Ghost(n);
        digits.insert(0, d);
        proof {
            assert(digits@ =~= seq![d] + pre@);
        }
        if n < 10 {
            proof {
                assert(spec_decimal(n as nat) =~= seq![d]);
                assert(spec_decimal(n as nat) + pre@ =~= digits@);
            }
            break;
        }
        n = n / 10;
        proof {
            assert(spec_decimal(prev@ as nat) == spec_decimal(n as nat) + seq![d]);
            assert(spec_decimal(n as nat) + digits@ =~= (spec_decimal(n as nat) + seq![d]) + pre@);
        }
    }
    let mut v: Vec<u8> = vec![98u8, 121u8, 116u8, 101u8, 115u8, 61u8];
    v.append(&mut digits);
    v.push(45);
    proof {
        assert(v@ =~= spec_range_header(offset as nat));
    }
    v
}

/// The bytes of a body stream, chunk after chunk.
pub open spec fn concat_bytes(chunks: Seq<Seq<u8>>) -> Seq<u8>
    decreases chunks.len(),
{
    if chunks.len() == 0 {
        Seq::empty()
    } else {
        chunks[0] + concat_bytes(chunks.drop_first())
    }
}

/// The open mode a streaming attempt must use: appending only when the
/// server honoured the range request and prior bytes exist, truncating
/// otherwise — the decision `on_response` takes.
pub open spec fn spec_open_mode(partial_content: bool, prior_len: nat) -> OpenMode {
    if partial_content && prior_len > 0 {
        OpenMode::Append
    } else {
        OpenMode::Truncate
    }
}

/// The bytes of the temporary file after one streaming attempt that found
/// `temp0` on disk: appended to when the server honoured the range request
/// and prior bytes existed, rebuilt from the stream alone otherwise.
pub open spec fn attempt_bytes(temp0: Seq<u8>, partial_content: bool, chunks: Seq<Seq<u8>>) -> Seq<
    u8,
> {
    if partial_content && temp0.len() > 0 {
        temp0 + concat_bytes(chunks)
    } else {
        concat_bytes(chunks)
    }
}

/// Resume correctness: when the bytes already on disk agree with the start
/// of the remote content and the server honours the range request by
/// streaming exactly the remaining bytes, the attempt reproduces the remote
/// content in full — same length, and the bytes that were on disk stand
/// untouched at the front.
pub proof fn lemma_resume_correct(temp0: Seq<u8>, remote: Seq<u8>, chunks: Seq<Seq<u8>>)
    requires
        temp0.len() <= remote.len(),
        temp0 == remote.take(temp0.len() as int),
        concat_bytes(chunks) == remote.skip(temp0.len() as int),
    ensures
        attempt_bytes(temp0, true, chunks) == remote,
        attempt_bytes(temp0, true, chunks).len() == remote.len(),
        attempt_bytes(temp0, true, chunks).take(temp0.len() as int) == temp0,
{
    let l = temp0.len() as int;
    if temp0.len() > 0 {
        assert(attempt_bytes(temp0, true, chunks) =~= remote.take(l) + remote.skip(l));
        assert(remote.take(l) + remote.skip(l) =~= remote);
    } else {
        assert(attempt_bytes(temp0, true, chunks) =~= remote.skip(0));
        assert(remote.skip(0) =~= remote);
    }
    assert(attempt_bytes(temp0, true, chunks).take(l) =~= temp0);
}

/// Opening the temporary file in the mode the engine picks and then
/// appending the stream's chunks yields exactly the attempt's bytes: the
/// prior bytes are kept only when the server honoured the range request
/// and prior bytes exist.
pub proof fn lemma_open_mode_realizes_attempt(
    temp0: Seq<u8>,
    partial_content: bool,
    chunks: Seq<Seq<u8>>,
)
    ensures
        ({
            let kept = if spec_open_mode(partial_content, temp0.len()) is Append {
                temp0
            } else {
                Seq::<u8>::empty()
            };
            kept + concat_bytes(chunks) == attempt_bytes(temp0, partial_content, chunks)
        }),
{
    assert(Seq::<u8>::empty() + concat_bytes(chunks) =~= concat_bytes(chunks));
}

/// Non-resumable fallback: when the server answers with a full response the
/// attempt's bytes are the stream alone — whatever partial bytes were on
/// disk are discarded, never concatenated with the full body.
pub proof fn lemma_full_response_restarts(temp0: Seq<u8>, chunks: Seq<Seq<u8>>)
    ensures
        attempt_bytes(temp0, false, chunks) == concat_bytes(chunks),
{
}

/// The two paths one task touches: its temporary file and its destination.
pub struct TaskFiles {
    /// Bytes of the temporary file.
    pub temp: Seq<u8>,
    /// Bytes at the destination path, if the path exists.
    pub dest: Option<Seq<u8>>,
}

/// One filesystem step of a transfer.
pub enum FileAction {
    /// Open the temporary file cut back to nothing.
    OpenTruncate,
    /// Open the temporary file keeping its bytes, writing at the end.
    OpenAppend,
    /// Append a chunk to the temporary file.
    Write(Seq<u8>),
    /// Force buffered bytes to disk; the byte content is unchanged.
    Flush,
    /// Atomically move the temporary file onto the destination path.
    Rename,
}

/// What one filesystem step does to the task's two paths. Only the rename
/// touches the destination.
pub open spec fn apply_action(f: TaskFiles, a: FileAction) -> TaskFiles {
    match a {
        FileAction::OpenTruncate => TaskFiles { temp: Seq::empty(), dest: f.dest },
        FileAction::OpenAppend => f,
        FileAction::Write(chunk) => TaskFiles { temp: f.temp + chunk, dest: f.dest },
        FileAction::Flush => f,
        FileAction::Rename => TaskFiles { temp: Seq::empty(), dest: Some(f.temp) },
    }
}

/// The task's two paths after a sequence of filesystem steps, first to last.
pub open spec fn apply_actions(f: TaskFiles, s: Seq<FileAction>) -> TaskFiles
    decreases s.len(),
{
    if s.len() == 0 {
        f
    } else {
        apply_actions(apply_action(f, s[0]), s.drop_first())
    }
}

/// Atomicity, first half: however a run of filesystem steps is cut short,
/// as long as no rename is among them the destination path is exactly what
/// it was — an interruption at any point before finalizing leaves the
/// destination absent or unchanged.
pub proof fn lemma_dest_unchanged_without_rename(f: TaskFiles, s: Seq<FileAction>)
    requires
        forall|i: int| 0 <= i < s.len() ==> !(s[i] is Rename),
    ensures
        apply_actions(f, s).dest == f.dest,
    decreases s.len(),
{
    if s.len() > 0 {
        assert(!(s[0] is Rename));
        lemma_dest_unchanged_without_rename(apply_action(f, s[0]), s.drop_first());
    }
}

/// Atomicity, second half: the rename publishes the complete temporary
/// bytes at the destination in one step; partial data never appears there.
pub proof fn lemma_rename_publishes(f: TaskFiles)
    ensures
        apply_action(f, FileAction::Rename).dest == Some(f.temp),
{
}

/// Flush bound: with the buffer lawful — strictly below the threshold, as
/// every step of the engine leaves it — the unflushed bytes sit below the
/// threshold between chunks, and while a chunk of length `c` is absorbed
/// they peak below the threshold plus that one chunk's size.
pub proof fn lemma_flush_bound(e: TransferEngine, c: usize)
    requires
        e.wf(),
    ensures
        e.buffered < e.flush_threshold,
        e.buffered + c < e.flush_threshold + c,
{
}

} // verus!
