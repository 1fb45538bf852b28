//! Trusted boundary to the outside world. The engine's process work goes
//! through `duct` (spawning, pipe chaining, capture, timed waits) and
//! `os_pipe` (raw pipe endpoints); a few helpers cover shared ownership of
//! the configuration, the monotonic clock, lossy text decoding and bounded
//! channel receives. Each item's contract states only what the relied-on
//! function's documentation or source shows; results that depend on the
//! operating system are left unconstrained and are interpreted by verified
//! functions that take them as arguments.

use std::sync::Arc;
use std::sync::mpsc::Receiver;
use std::time::Instant;
use vstd::prelude::*;
use crate::model::{views_of, ExprModel, OutDest, StageModel};
use crate::policy::Config;
use crate::stream::{RecvOutcome, StreamMessage};

verus! {

#[verifier::external_type_specification]
#[verifier::external_body]
pub struct ExExpression(duct::Expression);

#[verifier::external_type_specification]
#[verifier::external_body]
pub struct ExHandle(duct::Handle);

#[verifier::external_type_specification]
#[verifier::external_body]
pub struct ExPipeReader(os_pipe::PipeReader);

#[verifier::external_type_specification]
#[verifier::external_body]
pub struct ExPipeWriter(os_pipe::PipeWriter);

#[verifier::external_type_specification]
#[verifier::external_body]
pub struct ExInstant(Instant);

#[verifier::external_type_specification]
#[verifier::external_body]
#[verifier::reject_recursive_types(T)]
pub struct ExReceiver<T>(Receiver<T>);

/// What a process left behind, as plain values: its exit code if the
/// operating system reported one, and whatever of its two output streams
/// was captured in memory.
pub struct RawOutput {
    pub code: Option<i32>,
    pub stdout: Vec<u8>,
    pub stderr: Vec<u8>,
}

/// The characters that lossy UTF-8 decoding yields for a byte sequence:
/// a function of the bytes alone.
pub uninterp spec fn lossy_decode(bytes: Seq<u8>) -> Seq<char>;

/// Relies on `alloc::string::String::from_utf8_lossy`: the decoding depends
/// on the bytes alone, and no bytes decode to no characters.
#[verifier::external_body]
pub fn decode_lossy(bytes: &Vec<u8>) -> (r: String)
    ensures
        r@ == lossy_decode(bytes@),
        bytes@.len() == 0 ==> r@.len() == 0,
{
    String::from_utf8_lossy(bytes).into_owned()
}

/// Relies on `alloc::sync::Arc::clone`: the returned handle refers to the
/// same allocation, hence carries the same value.
#[verifier::external_body]
pub fn share_config(c: &Arc<Config>) -> (r: Arc<Config>)
    ensures
        r == *c,
{
    Arc::clone(c)
}

/// Relies on the standard `Deref` impl of `alloc::sync::Arc`: a shared
/// reference to the owned value.
#[verifier::external_body]
pub fn config_ref(c: &Arc<Config>) -> (r: &Config)
    ensures
        *r == **c,
{
    &**c
}

/// Relies on `alloc::sync::Arc::ptr_eq`: it returns true only when both
/// handles point to one allocation, which then holds one value.
#[verifier::external_body]
pub fn same_config(a: &Arc<Config>, b: &Arc<Config>) -> (r: bool)
    ensures
        r ==> **a == **b,
{
    Arc::ptr_eq(a, b)
}

/// A prepared expression: the `duct` expression itself, paired with the
/// ghost model that the trusted constructors below maintain. The model is
/// the contracts' vocabulary for "what will be handed to the OS".
pub struct Expr {
    pub inner: duct::Expression,
    pub model: Ghost<ExprModel>,
}

/// Relies on `duct::cmd`: an expression for one program with its argument
/// list, not yet started — one stage, no working directory, no overrides,
/// streams inherited, exit status checked.
#[verifier::external_body]
pub fn expr_new(program: &String, args: &Vec<String>) -> (r: Expr)
    ensures
        r.model@ == (ExprModel {
            stages: seq![
                (StageModel {
                    program: program@,
                    args: views_of(args@),
                    dir: None,
                    env: Map::empty(),
                }),
            ],
            stdout: OutDest::Inherit,
            stderr: OutDest::Inherit,
            unchecked: false,
        }),
{
    Expr { inner: duct::cmd(program.as_str(), args.clone()), model: Ghost(arbitrary()) }
}

/// Relies on `duct::Expression::pipe`: the left expression's standard
/// output is wired to the right expression's standard input, so the
/// combined expression runs the left stages then the right stages, in
/// order. Stated only for plain operands — no redirections, no
/// `unchecked` — which is how the builders chain stages.
#[verifier::external_body]
pub fn expr_pipe(left: Expr, right: Expr) -> (r: Expr)
    requires
        left.model@.stdout is Inherit,
        left.model@.stderr is Inherit,
        !left.model@.unchecked,
        right.model@.stdout is Inherit,
        right.model@.stderr is Inherit,
        !right.model@.unchecked,
    ensures
        r.model@ == (ExprModel {
            stages: left.model@.stages + right.model@.stages,
            stdout: OutDest::Inherit,
            stderr: OutDest::Inherit,
            unchecked: false,
        }),
{
    Expr { inner: left.inner.pipe(right.inner), model: Ghost(arbitrary()) }
}

/// Relies on `duct::Expression::dir`: the expression will run with the
/// given working directory. Stated for a single stage that has none yet.
#[verifier::external_body]
pub fn expr_dir(e: Expr, path: &String) -> (r: Expr)
    requires
        e.model@.stages.len() == 1,
        e.model@.stages[0].dir is None,
    ensures
        r.model@ == (ExprModel {
            stages: seq![
                (StageModel { dir: Some(path@), ..e.model@.stages[0] }),
            ],
            ..e.model@
        }),
{
    Expr { inner: e.inner.dir(path.as_str()), model: Ghost(arbitrary()) }
}

/// Relies on `duct::Expression::env`: the expression will run with this
/// variable set on top of the inherited environment. duct applies nested
/// layers from the outside in, and a later insertion overwrites, so an
/// existing (inner) binding for the key prevails over this new outer one:
/// the binding is added only where the key is not bound yet. Stated for a
/// single stage.
#[verifier::external_body]
pub fn expr_env(e: Expr, key: &String, value: &String) -> (r: Expr)
    requires
        e.model@.stages.len() == 1,
    ensures
        r.model@ == (ExprModel {
            stages: seq![
                (StageModel {
                    env: if e.model@.stages[0].env.contains_key(key@) {
                        e.model@.stages[0].env
                    } else {
                        e.model@.stages[0].env.insert(key@, value@)
                    },
                    ..e.model@.stages[0]
                }),
            ],
            ..e.model@
        }),
{
    Expr { inner: e.inner.env(key.as_str(), value.as_str()), model: Ghost(arbitrary()) }
}

/// Relies on `duct::Expression::stdout_capture`: standard output will be
/// collected in memory instead of being inherited.
#[verifier::external_body]
pub fn expr_stdout_capture(e: Expr) -> (r: Expr)
    requires
        e.model@.stdout is Inherit,
    ensures
        r.model@ == (ExprModel { stdout: OutDest::Capture, ..e.model@ }),
{
    Expr { inner: e.inner.stdout_capture(), model: Ghost(arbitrary()) }
}

/// Relies on `duct::Expression::stderr_capture`: standard error will be
/// collected in memory instead of being inherited.
#[verifier::external_body]
pub fn expr_stderr_capture(e: Expr) -> (r: Expr)
    requires
        e.model@.stderr is Inherit,
    ensures
        r.model@ == (ExprModel { stderr: OutDest::Capture, ..e.model@ }),
{
    Expr { inner: e.inner.stderr_capture(), model: Ghost(arbitrary()) }
}

/// Relies on `duct::Expression::unchecked`: a non-zero exit status is
/// reported in the output instead of being turned into an error, leaving
/// the success verdict to this engine.
#[verifier::external_body]
pub fn expr_unchecked(e: Expr) -> (r: Expr)
    ensures
        r.model@ == (ExprModel { unchecked: true, ..e.model@ }),
{
    Expr { inner: e.inner.unchecked(), model: Ghost(arbitrary()) }
}

/// Relies on `duct::Expression::stdout_file`: standard output is sent to
/// the given pipe's write end.
#[verifier::external_body]
pub fn expr_stdout_file(e: Expr, sink: os_pipe::PipeWriter) -> (r: Expr)
    requires
        e.model@.stdout is Inherit,
    ensures
        r.model@ == (ExprModel { stdout: OutDest::Piped, ..e.model@ }),
{
    Expr { inner: e.inner.stdout_file(sink), model: Ghost(arbitrary()) }
}

/// Relies on `duct::Expression::stderr_file`: standard error is sent to
/// the given pipe's write end.
#[verifier::external_body]
pub fn expr_stderr_file(e: Expr, sink: os_pipe::PipeWriter) -> (r: Expr)
    requires
        e.model@.stderr is Inherit,
    ensures
        r.model@ == (ExprModel { stderr: OutDest::Piped, ..e.model@ }),
{
    Expr { inner: e.inner.stderr_file(sink), model: Ghost(arbitrary()) }
}

/// Relies on `duct::Expression::run`: it starts the whole pipeline, waits
/// for it to finish, and hands back exit status and captured bytes; on a
/// spawn or I/O failure it reports an error instead. The expression and
/// the pipe write ends it holds are released before returning. The engine
/// only runs fully captured, unchecked expressions, as the precondition
/// records.
#[verifier::external_body]
pub fn run_expr(e: Expr) -> Result<RawOutput, String>
    requires
        e.model@.stdout is Capture,
        e.model@.stderr is Capture,
        e.model@.unchecked,
{
    match e.inner.run() {
        Ok(output) => Ok(
            RawOutput {
                code: output.status.code(),
                stdout: output.stdout,
                stderr: output.stderr,
            },
        ),
        Err(err) => Err(err.to_string()),
    }
}

/// Relies on `duct::Expression::start`: the pipeline is spawned without
/// waiting; the expression and the pipe write ends it holds are released
/// before returning, so that readers of those pipes can observe end of
/// stream once the children are done. The engine only starts unchecked
/// expressions, as the precondition records.
#[verifier::external_body]
pub fn start_expr(e: Expr) -> Result<duct::Handle, String>
    requires
        e.model@.unchecked,
{
    match e.inner.start() {
        Ok(handle) => Ok(handle),
        Err(err) => Err(err.to_string()),
    }
}

/// Relies on `duct::Handle::wait_timeout`: it blocks up to the given number
/// of milliseconds; `None` means the deadline passed with the pipeline
/// still running, otherwise the pipeline's output is handed back.
#[verifier::external_body]
pub fn handle_wait_timeout(h: &duct::Handle, ms: u64) -> Result<Option<RawOutput>, String> {
    match h.wait_timeout(core::time::Duration::from_millis(ms)) {
        Ok(Some(output)) => Ok(
            Some(
                RawOutput {
                    code: output.status.code(),
                    stdout: output.stdout.clone(),
                    stderr: output.stderr.clone(),
                },
            ),
        ),
        Ok(None) => Ok(None),
        Err(err) => Err(err.to_string()),
    }
}

/// Relies on `duct::Handle::wait`: it blocks until the pipeline finishes
/// and hands back its output.
#[verifier::external_body]
pub fn handle_wait(h: &duct::Handle) -> Result<RawOutput, String> {
    match h.wait() {
        Ok(output) => Ok(
            RawOutput {
                code: output.status.code(),
                stdout: output.stdout.clone(),
                stderr: output.stderr.clone(),
            },
        ),
        Err(err) => Err(err.to_string()),
    }
}

/// Relies on `duct::Handle::try_wait`: it reports, without blocking,
/// whether the pipeline has already finished.
#[verifier::external_body]
pub fn handle_try_wait(h: &duct::Handle) -> Result<Option<RawOutput>, String> {
    match h.try_wait() {
        Ok(Some(output)) => Ok(
            Some(
                RawOutput {
                    code: output.status.code(),
                    stdout: output.stdout.clone(),
                    stderr: output.stderr.clone(),
                },
            ),
        ),
        Ok(None) => Ok(None),
        Err(err) => Err(err.to_string()),
    }
}

/// Relies on `duct::Handle::kill`: a best-effort termination of the whole
/// process tree; a kill failure is discarded, since the caller is already
/// reporting a stronger failure.
#[verifier::external_body]
pub fn handle_kill_quiet(h: &duct::Handle) {
    let _ = h.kill();
}

/// Relies on `os_pipe::pipe`: a fresh pipe, read end and write end.
#[verifier::external_body]
pub fn make_pipe() -> Result<(os_pipe::PipeReader, os_pipe::PipeWriter), String> {
    match os_pipe::pipe() {
        Ok((reader, writer)) => Ok((reader, writer)),
        Err(err) => Err(err.to_string()),
    }
}

/// Relies on `std::time::Instant::now`: a reading of the monotonic clock.
#[verifier::external_body]
pub fn clock_now() -> Instant {
    Instant::now()
}

/// Relies on `std::time::Instant::elapsed`: the whole milliseconds of wall
/// clock since the reading was taken.
#[verifier::external_body]
pub fn elapsed_millis(t: &Instant) -> u128 {
    t.elapsed().as_millis()
}

/// Relies on `std::sync::mpsc::Receiver::recv_timeout`: a message when one
/// arrives within the wait, `Idle` when the wait passes quietly, `Closed`
/// once every sender is gone and the queue is drained.
#[verifier::external_body]
pub fn recv_event(rx: &Receiver<StreamMessage>, wait_ms: u64) -> RecvOutcome {
    match rx.recv_timeout(core::time::Duration::from_millis(wait_ms)) {
        Ok(message) => RecvOutcome::Message(message),
        Err(std::sync::mpsc::RecvTimeoutError::Timeout) => RecvOutcome::Idle,
        Err(std::sync::mpsc::RecvTimeoutError::Disconnected) => RecvOutcome::Closed,
    }
}

} // verus!
