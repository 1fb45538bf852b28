//! Streaming execution: the pipeline's two output streams are wired to OS
//! pipes, background readers forward chunks over a channel, and a verified
//! control loop on the calling thread relays each chunk to its sink while
//! it enforces the wall-clock deadline and watches for completion.

use std::sync::mpsc::Receiver;
use std::time::Instant;
use vstd::prelude::*;
use vstd::seq_lib::*;
use vstd::string::StringExecFns;
use crate::error::ProcessError;
use crate::executor::{
    allowed_view, build_expression, evaluate_success, piped_pipeline_model, saturating_elapsed,
    spec_success, status_code_of, PipelineExecutor, ProcessResult,
};
use crate::model::ExprModel;
use crate::sys::{
    clock_now, decode_lossy, expr_stderr_file, expr_stdout_file, expr_unchecked, handle_kill_quiet,
    handle_try_wait, handle_wait, lossy_decode, make_pipe, recv_event, start_expr,
};

verus! {

/// Which of the two output streams a chunk or an end-of-stream mark
/// belongs to.
#[derive(Clone, Copy, Debug)]
pub enum StreamKind {
    Stdout,
    Stderr,
}

/// What a background reader forwards to the control loop: a chunk of
/// bytes in read order, the end of its stream, or a read failure.
#[derive(Clone, Debug)]
pub enum StreamMessage {
    Data(StreamKind, Vec<u8>),
    Eof(StreamKind),
    ReadFailed(String),
}

/// One bounded wait on the event channel: a message, a quiet wait, or a
/// closed channel (every sender gone).
pub enum RecvOutcome {
    Message(StreamMessage),
    Idle,
    Closed,
}

/// A destination for streamed text: either a caller-supplied sink or a
/// buffering one. A sink that claims to track its content (`tracks`)
/// promises that every accepted chunk is appended, so its content is the
/// concatenation of the chunks in delivery order; a sink that does not
/// track — a pass-through, a callback — promises nothing of its state.
pub trait ChunkSink {
    /// Whether this sink accounts for the characters it has accepted.
    open spec fn tracks(&self) -> bool {
        false
    }

    /// The characters this sink has accepted so far, when it tracks them.
    open spec fn taken(&self) -> Seq<char> {
        Seq::empty()
    }

    /// Accept one chunk of decoded text.
    fn on_chunk(&mut self, text: &str)
        ensures
            old(self).tracks() ==> final(self).tracks()
                && final(self).taken() == old(self).taken() + text@,
    ;
}

/// A sink that keeps everything it is handed, in order.
pub struct BufferSink {
    pub data: String,
}

impl BufferSink {
    /// An empty buffer.
    pub fn new() -> (r: Self)
        ensures
            r.data@ == Seq::<char>::empty(),
    {
        BufferSink { data: String::new() }
    }
}

impl ChunkSink for BufferSink {
    open spec fn tracks(&self) -> bool {
        true
    }

    open spec fn taken(&self) -> Seq<char> {
        self.data@
    }

    fn on_chunk(&mut self, text: &str) {
        self.data.append(text);
    }
}

/// Decode one chunk as text, invalid sequences replaced, and hand it to
/// the sink of its stream; the other sink is untouched.
pub fn dispatch_chunk<A: ChunkSink, B: ChunkSink>(
    kind: StreamKind,
    chunk: &Vec<u8>,
    out_sink: &mut A,
    err_sink: &mut B,
)
    ensures
        kind is Stdout && old(out_sink).tracks() ==> final(out_sink).tracks()
            && final(out_sink).taken() == old(out_sink).taken() + lossy_decode(chunk@),
        kind is Stdout ==> *final(err_sink) == *old(err_sink),
        kind is Stderr && old(err_sink).tracks() ==> final(err_sink).tracks()
            && final(err_sink).taken() == old(err_sink).taken() + lossy_decode(chunk@),
        kind is Stderr ==> *final(out_sink) == *old(out_sink),
{
    let text = decode_lossy(chunk);
    match kind {
        StreamKind::Stdout => out_sink.on_chunk(text.as_str()),
        StreamKind::Stderr => err_sink.on_chunk(text.as_str()),
    }
}

/// A started streaming run: the process handle, the clock reading taken at
/// start, the per-run settings the control loop needs, and the ghost
/// record of what was handed to the OS.
pub struct StreamSession {
    pub handle: duct::Handle,
    pub started: Instant,
    pub timeout_ms: Option<u64>,
    pub allowed_exit_codes: Option<Vec<i64>>,
    pub spawned: Ghost<ExprModel>,
}

/// Which of the two streams are still open: the control loop runs until
/// both have reported end of stream.
pub struct StreamProgress {
    pub stdout_open: bool,
    pub stderr_open: bool,
}

/// The control loop's reaction to one message, exactly: a data chunk is
/// decoded and delivered to its stream's sink and nothing else changes; an
/// end-of-stream mark closes its stream and nothing else changes; a read
/// failure asks the caller to stop with an I/O failure carrying the
/// reader's message, leaving progress and sinks untouched.
pub fn apply_event<A: ChunkSink, B: ChunkSink>(
    progress: &mut StreamProgress,
    event: StreamMessage,
    out_sink: &mut A,
    err_sink: &mut B,
) -> (r: Option<ProcessError>)
    ensures
        r matches Some(e) ==> e is Io,
        event matches StreamMessage::Data(kind, chunk) ==> {
            &&& r is None
            &&& *final(progress) == *old(progress)
            &&& (kind is Stdout && old(out_sink).tracks() ==> final(out_sink).tracks()
                && final(out_sink).taken() == old(out_sink).taken() + lossy_decode(chunk@))
            &&& (kind is Stdout ==> *final(err_sink) == *old(err_sink))
            &&& (kind is Stderr && old(err_sink).tracks() ==> final(err_sink).tracks()
                && final(err_sink).taken() == old(err_sink).taken() + lossy_decode(chunk@))
            &&& (kind is Stderr ==> *final(out_sink) == *old(out_sink))
        },
        event matches StreamMessage::Eof(kind) ==> {
            &&& r is None
            &&& (kind is Stdout ==> *final(progress) == (StreamProgress {
                stdout_open: false,
                stderr_open: old(progress).stderr_open,
            }))
            &&& (kind is Stderr ==> *final(progress) == (StreamProgress {
                stdout_open: old(progress).stdout_open,
                stderr_open: false,
            }))
            &&& *final(out_sink) == *old(out_sink)
            &&& *final(err_sink) == *old(err_sink)
        },
        event matches StreamMessage::ReadFailed(m) ==> {
            &&& r == Some(ProcessError::Io(m))
            &&& *final(progress) == *old(progress)
            &&& *final(out_sink) == *old(out_sink)
            &&& *final(err_sink) == *old(err_sink)
        },
{
    match event {
        StreamMessage::Data(kind, chunk) => {
            dispatch_chunk(kind, &chunk, out_sink, err_sink);
            None
        },
        StreamMessage::Eof(StreamKind::Stdout) => {
            progress.stdout_open = false;
            None
        },
        StreamMessage::Eof(StreamKind::Stderr) => {
            progress.stderr_open = false;
            None
        },
        StreamMessage::ReadFailed(m) => Some(ProcessError::Io(m)),
    }
}

impl PipelineExecutor {
    /// Spawn the pipeline with both output streams wired to fresh OS
    /// pipes, for live delivery. Hands back the session for the control
    /// loop together with the two pipe read ends, one per stream, each to
    /// be drained by a dedicated reader. An empty pipeline is a usage
    /// error and nothing is spawned.
    pub fn start_stream(self) -> (r: Result<
        (StreamSession, os_pipe::PipeReader, os_pipe::PipeReader),
        ProcessError,
    >)
        ensures
            self.commands@.len() == 0 <==> (r matches Err(e) && e is Usage),
            r matches Err(e) ==> (e is Usage || e is Io),
            r matches Err(e) ==> (e matches ProcessError::Usage(m) ==> m@
                == "no command specified"@),
            r matches Ok(s) ==> {
                &&& s.0.timeout_ms == self.spec_effective_timeout()
                &&& s.0.allowed_exit_codes == self.allowed_exit_codes
                &&& s.0.spawned@ == piped_pipeline_model(self.commands@, self.cwd)
            },
    {
        if self.commands.len() == 0 {
            return Err(ProcessError::Usage(String::from_str("no command specified")));
        }
        let timeout_ms = self.effective_timeout();
        let expression = build_expression(&self.commands, &self.cwd);
        let (stdout_reader, stdout_writer) = match make_pipe() {
            Ok(ends) => ends,
            Err(m) => {
                return Err(ProcessError::Io(m));
            },
        };
        let (stderr_reader, stderr_writer) = match make_pipe() {
            Ok(ends) => ends,
            Err(m) => {
                return Err(ProcessError::Io(m));
            },
        };
        let wired = expr_unchecked(
            expr_stderr_file(expr_stdout_file(expression, stdout_writer), stderr_writer),
        );
        let ghost spawned_model = wired.model@;
        let handle = match start_expr(wired) {
            Ok(h) => h,
            Err(m) => {
                return Err(ProcessError::Io(m));
            },
        };
        let started = clock_now();
        let session = StreamSession {
            handle,
            started,
            timeout_ms,
            allowed_exit_codes: self.allowed_exit_codes,
            spawned: Ghost(spawned_model),
        };
        Ok((session, stdout_reader, stderr_reader))
    }
}

impl StreamSession {
    /// The control loop: drain the event channel with a short bounded
    /// wait, relay each data chunk to its stream's sink, mark streams
    /// closed on their end-of-stream events, enforce the deadline between
    /// events, and probe for early process completion on quiet waits. Once
    /// both streams are closed, wait for the process and normalize the
    /// outcome; the result's texts are empty, the content having passed
    /// through the sinks. A deadline expiry or a reader failure kills the
    /// process tree and reports a timeout or I/O failure; either way each
    /// sink only ever grows by delivered chunks.
    pub fn drive<A: ChunkSink, B: ChunkSink>(
        self,
        events: &Receiver<StreamMessage>,
        out_sink: &mut A,
        err_sink: &mut B,
    ) -> (r: Result<ProcessResult, ProcessError>)
        ensures
            r matches Err(e) ==> (e is Io || e is Timeout),
            self.timeout_ms is None ==> !(r matches Err(e) && e is Timeout),
            r matches Ok(out) ==> {
                &&& out.stdout@ == Seq::<char>::empty()
                &&& out.stderr@ == Seq::<char>::empty()
                &&& out.success == spec_success(
                    out.status,
                    allowed_view(self.allowed_exit_codes),
                )
                &&& out.spawned == self.spawned
            },
            old(out_sink).tracks() ==> final(out_sink).tracks() && old(out_sink)
                .taken()
                .is_prefix_of(final(out_sink).taken()),
            old(err_sink).tracks() ==> final(err_sink).tracks() && old(err_sink)
                .taken()
                .is_prefix_of(final(err_sink).taken()),
    {
        let mut progress = StreamProgress { stdout_open: true, stderr_open: true };
        let mut process_finished = false;
        // The loop's termination measure. At one bounded wait per pass the
        // budget outlasts any real session by ages; it exists so that the
        // loop provably terminates.
        let mut patience: u64 = u64::MAX;
        while (progress.stdout_open || progress.stderr_open) && patience > 0
            invariant
                old(out_sink).tracks() ==> out_sink.tracks() && old(out_sink)
                    .taken()
                    .is_prefix_of(out_sink.taken()),
                old(err_sink).tracks() ==> err_sink.tracks() && old(err_sink)
                    .taken()
                    .is_prefix_of(err_sink.taken()),
            decreases patience,
        {
            patience = patience - 1;
            match self.timeout_ms {
                Some(limit) => {
                    if saturating_elapsed(&self.started) >= limit {
                        handle_kill_quiet(&self.handle);
                        return Err(ProcessError::Timeout);
                    }
                },
                None => {},
            }
            match recv_event(events, 50) {
                RecvOutcome::Message(event) => {
                    match apply_event(&mut progress, event, out_sink, err_sink) {
                        Some(failure) => {
                            handle_kill_quiet(&self.handle);
                            return Err(failure);
                        },
                        None => {},
                    }
                },
                RecvOutcome::Idle => {
                    if !process_finished {
                        match handle_try_wait(&self.handle) {
                            Ok(Some(_)) => {
                                process_finished = true;
                            },
                            Ok(None) => {},
                            Err(m) => {
                                return Err(ProcessError::Io(m));
                            },
                        }
                    }
                },
                RecvOutcome::Closed => {
                    progress.stdout_open = false;
                    progress.stderr_open = false;
                },
            }
        }
        let raw = match handle_wait(&self.handle) {
            Ok(output) => output,
            Err(m) => {
                return Err(ProcessError::Io(m));
            },
        };
        let duration_ms = saturating_elapsed(&self.started);
        let status = status_code_of(&raw.code);
        let success = evaluate_success(status, &self.allowed_exit_codes);
        Ok(
            ProcessResult {
                success,
                status,
                stdout: String::new(),
                stderr: String::new(),
                duration_ms,
                spawned: self.spawned,
            },
        )
    }
}

} // verus!
