//! The executor: per-run overrides layered on a pipeline, buffered
//! execution with capture, and the success policy that turns a raw exit
//! code into a verdict.

use std::sync::Arc;
use std::time::Instant;
use vstd::prelude::*;
use vstd::string::StringExecFns;
use crate::command::{env_map_of, lemma_env_map_cons, stage_wf, CommandSpec};
use crate::error::ProcessError;
use crate::model::{views_of, ExprModel, OutDest, StageModel};
use crate::policy::Config;
use crate::sys::{
    clock_now, config_ref, decode_lossy, elapsed_millis, expr_dir, expr_env, expr_new, expr_pipe,
    expr_stderr_capture, expr_stdout_capture, expr_unchecked, handle_kill_quiet,
    handle_wait_timeout, lossy_decode, run_expr, start_expr, Expr, RawOutput,
};

verus! {

/// The exit code as this engine reports it: the code itself when the
/// operating system reported one, and the `-1` sentinel when it could not
/// (for instance after a termination by signal).
pub open spec fn spec_status(code: Option<i32>) -> int {
    match code {
        Some(c) => c as int,
        None => -1,
    }
}

/// The success policy: exit code zero is success, and so is any exit code
/// the caller has explicitly allowed; everything else is failure.
pub open spec fn spec_success(status: i64, allowed: Option<Seq<i64>>) -> bool {
    status == 0 || (allowed matches Some(list) && list.contains(status))
}

/// The allowed-exit-code override as a mathematical value.
pub open spec fn allowed_view(allowed: Option<Vec<i64>>) -> Option<Seq<i64>> {
    match allowed {
        None => None,
        Some(v) => Some(v@),
    }
}

/// The outcome of one pipeline run: the success verdict, the pipeline's
/// exit status as `duct` reports it — an earlier failing stage's non-zero
/// status prevails over a later stage's success, and `-1` stands in when
/// the operating system reported none — the captured output texts (empty
/// in streaming mode), and the wall-clock duration in milliseconds.
#[derive(Clone)]
pub struct ProcessResult {
    pub success: bool,
    pub status: i64,
    pub stdout: String,
    pub stderr: String,
    pub duration_ms: u64,
    /// Ghost record of the prepared expression this result came from; the
    /// execution entry points tie it to the pipeline's stages.
    pub spawned: Ghost<ExprModel>,
}

/// The effective working directory of a stage: its own when set, else the
/// per-run override, else the inherited one.
pub open spec fn effective_dir(stage_cwd: Option<String>, run_cwd: Option<String>) -> Option<
    Seq<char>,
> {
    match stage_cwd {
        Some(d) => Some(d@),
        None => match run_cwd {
            Some(d) => Some(d@),
            None => None,
        },
    }
}

/// What one stage asks of the OS: its program and arguments verbatim, its
/// effective working directory, and the mapping its overrides denote.
pub open spec fn stage_model_of(s: CommandSpec, cwd: Option<String>) -> StageModel {
    StageModel {
        program: s.program@,
        args: views_of(s.args@),
        dir: effective_dir(s.cwd, cwd),
        env: env_map_of(s.env@),
    }
}

/// The stages of a whole pipeline, left to right.
pub open spec fn stages_model_of(commands: Seq<CommandSpec>, cwd: Option<String>) -> Seq<
    StageModel,
> {
    commands.map_values(|c: CommandSpec| stage_model_of(c, cwd))
}

/// What a buffered run hands to the OS: the pipeline's stages, both
/// streams captured, exit status left to this engine.
pub open spec fn captured_pipeline_model(commands: Seq<CommandSpec>, cwd: Option<String>)
    -> ExprModel {
    ExprModel {
        stages: stages_model_of(commands, cwd),
        stdout: OutDest::Capture,
        stderr: OutDest::Capture,
        unchecked: true,
    }
}

/// What a streaming run hands to the OS: the pipeline's stages, both
/// streams wired to pipes, exit status left to this engine.
pub open spec fn piped_pipeline_model(commands: Seq<CommandSpec>, cwd: Option<String>)
    -> ExprModel {
    ExprModel {
        stages: stages_model_of(commands, cwd),
        stdout: OutDest::Piped,
        stderr: OutDest::Piped,
        unchecked: true,
    }
}

/// Linear search for an exit code in the allowed list.
fn contains_code(list: &Vec<i64>, code: i64) -> (r: bool)
    ensures
        r == list@.contains(code),
{
    let mut i: usize = 0;
    while i < list.len()
        invariant
            0 <= i <= list@.len(),
            forall|j: int| 0 <= j < i ==> list@[j] != code,
        decreases list@.len() - i,
    {
        if list[i] == code {
            return true;
        }
        i = i + 1;
    }
    false
}

/// Decide success from an exit code: true exactly when the code is zero or
/// is a member of the allowed set.
pub fn evaluate_success(status: i64, allowed: &Option<Vec<i64>>) -> (r: bool)
    ensures
        r == spec_success(status, allowed_view(*allowed)),
{
    if status == 0 {
        true
    } else {
        match allowed {
            None => false,
            Some(list) => contains_code(list, status),
        }
    }
}

/// Collapse an exit-code override to its stored form: an empty list means
/// no override at all, anything else is kept as given.
pub fn normalize_exit_codes(codes: Vec<i64>) -> (r: Option<Vec<i64>>)
    ensures
        codes@.len() == 0 ==> r is None,
        codes@.len() > 0 ==> r == Some(codes),
{
    if codes.len() == 0 {
        None
    } else {
        Some(codes)
    }
}

/// The `-1` sentinel rule, executably.
pub fn status_code_of(code: &Option<i32>) -> (r: i64)
    ensures
        r == spec_status(*code),
{
    match code {
        Some(c) => *c as i64,
        None => -1,
    }
}

/// Interpret what a finished pipeline left behind: the exit code becomes
/// the status (with the `-1` sentinel), the success policy is applied to
/// it, and the captured bytes are decoded as text, invalid sequences
/// replaced rather than fatal.
pub fn build_result(raw: RawOutput, allowed: &Option<Vec<i64>>, duration_ms: u64) -> (r:
    ProcessResult)
    ensures
        r.status == spec_status(raw.code),
        r.success == spec_success(r.status, allowed_view(*allowed)),
        r.stdout@ == lossy_decode(raw.stdout@),
        r.stderr@ == lossy_decode(raw.stderr@),
        r.duration_ms == duration_ms,
{
    let status = status_code_of(&raw.code);
    let success = evaluate_success(status, allowed);
    ProcessResult {
        success,
        status,
        stdout: decode_lossy(&raw.stdout),
        stderr: decode_lossy(&raw.stderr),
        duration_ms,
        spawned: Ghost(arbitrary()),
    }
}

/// The saturation step of the reported duration: a millisecond count is
/// clamped into the unsigned 64-bit range instead of overflowing.
pub fn saturate_ms(ms: u128) -> (r: u64)
    ensures
        ms > u64::MAX ==> r == u64::MAX,
        ms <= u64::MAX ==> r == ms,
{
    if ms > u64::MAX as u128 {
        u64::MAX
    } else {
        ms as u64
    }
}

/// Milliseconds since the given clock reading, saturating at the unsigned
/// range's maximum rather than overflowing.
pub(crate) fn saturating_elapsed(t: &Instant) -> u64 {
    saturate_ms(elapsed_millis(t))
}

/// An expression for one stage, modeling it exactly: its program and
/// arguments, the effective working directory (the stage's own, else the
/// per-run override), and the mapping its environment overrides denote.
pub(crate) fn expr_from_stage(stage: &CommandSpec, cwd: &Option<String>) -> (r: Expr)
    ensures
        r.model@ == (ExprModel {
            stages: seq![stage_model_of(*stage, *cwd)],
            stdout: OutDest::Inherit,
            stderr: OutDest::Inherit,
            unchecked: false,
        }),
{
    let mut e = expr_new(&stage.program, &stage.args);
    match &stage.cwd {
        Some(dir) => {
            e = expr_dir(e, dir);
        },
        None => {
            match cwd {
                Some(dir) => {
                    e = expr_dir(e, dir);
                },
                None => {},
            }
        },
    }
    proof {
        assert(stage.env@.skip(stage.env@.len() as int) =~= Seq::<(String, String)>::empty());
    }
    // duct applies nested env layers from the outside in, so the innermost
    // layer — the first one chained — wins for a repeated key. Chaining the
    // newest entry first therefore realizes the stage's denoted mapping,
    // where a later entry for the same key overrides an earlier one.
    let mut i: usize = stage.env.len();
    while i > 0
        invariant
            i <= stage.env@.len(),
            e.model@.stages.len() == 1,
            e.model@.stages[0].program == stage.program@,
            e.model@.stages[0].args == views_of(stage.args@),
            e.model@.stages[0].dir == effective_dir(stage.cwd, *cwd),
            e.model@.stages[0].env == env_map_of(stage.env@.skip(i as int)),
            e.model@.stdout is Inherit,
            e.model@.stderr is Inherit,
            !e.model@.unchecked,
        decreases i,
    {
        i = i - 1;
        e = expr_env(e, &stage.env[i].0, &stage.env[i].1);
        proof {
            assert(stage.env@.skip(i as int) =~= seq![stage.env@[i as int]] + stage.env@.skip(
                i as int + 1,
            ));
            lemma_env_map_cons(stage.env@[i as int], stage.env@.skip(i as int + 1));
        }
    }
    proof {
        assert(stage.env@.skip(0) =~= stage.env@);
        assert(e.model@.stages[0] == stage_model_of(*stage, *cwd));
        assert(e.model@.stages =~= seq![stage_model_of(*stage, *cwd)]);
    }
    e
}

/// The whole pipeline as one expression, modeled exactly: the stages
/// chained left to right, stage `i`'s standard output feeding stage
/// `i + 1`'s standard input.
pub(crate) fn build_expression(commands: &Vec<CommandSpec>, cwd: &Option<String>) -> (r: Expr)
    requires
        commands@.len() >= 1,
    ensures
        r.model@ == (ExprModel {
            stages: stages_model_of(commands@, *cwd),
            stdout: OutDest::Inherit,
            stderr: OutDest::Inherit,
            unchecked: false,
        }),
{
    let mut e = expr_from_stage(&commands[0], cwd);
    proof {
        assert(stages_model_of(commands@.take(1), *cwd) =~= seq![
            stage_model_of(commands@[0], *cwd),
        ]);
    }
    let mut i: usize = 1;
    while i < commands.len()
        invariant
            1 <= i <= commands@.len(),
            e.model@ == (ExprModel {
                stages: stages_model_of(commands@.take(i as int), *cwd),
                stdout: OutDest::Inherit,
                stderr: OutDest::Inherit,
                unchecked: false,
            }),
        decreases commands@.len() - i,
    {
        e = expr_pipe(e, expr_from_stage(&commands[i], cwd));
        proof {
            assert(stages_model_of(commands@.take(i as int + 1), *cwd) =~= stages_model_of(
                commands@.take(i as int),
                *cwd,
            ) + seq![stage_model_of(commands@[i as int], *cwd)]);
        }
        i = i + 1;
    }
    proof {
        assert(commands@.take(commands@.len() as int) =~= commands@);
    }
    e
}

/// Consumes a pipeline and per-run overrides, spawns the chained OS
/// processes, and produces a normalized result.
#[derive(Clone, Debug)]
pub struct PipelineExecutor {
    pub config: Arc<Config>,
    pub commands: Vec<CommandSpec>,
    pub timeout_override_ms: Option<u64>,
    pub allowed_exit_codes: Option<Vec<i64>>,
    pub cwd: Option<String>,
}

impl PipelineExecutor {
    /// Every stage has passed the policy checks of the shared
    /// configuration.
    pub open spec fn wf(&self) -> bool {
        forall|i: int|
            0 <= i < self.commands@.len() ==> stage_wf(*self.config, self.commands@[i])
    }

    /// The timeout this run will enforce: the per-run override when
    /// present, else the configuration's default, else none.
    pub open spec fn spec_effective_timeout(&self) -> Option<u64> {
        if self.timeout_override_ms is Some {
            self.timeout_override_ms
        } else {
            self.config.default_timeout_ms
        }
    }

    /// An executor with no overrides yet.
    pub fn new(config: Arc<Config>, commands: Vec<CommandSpec>) -> (r: Self)
        requires
            forall|i: int| 0 <= i < commands@.len() ==> stage_wf(*config, commands@[i]),
        ensures
            r.config == config,
            r.commands == commands,
            r.timeout_override_ms is None,
            r.allowed_exit_codes is None,
            r.cwd is None,
            r.wf(),
    {
        PipelineExecutor {
            config,
            commands,
            timeout_override_ms: None,
            allowed_exit_codes: None,
            cwd: None,
        }
    }

    /// Set the per-run working directory; the empty string clears the
    /// override.
    pub fn cwd(self, path: String) -> (r: Result<Self, ProcessError>)
        ensures
            r matches Ok(u) ==> {
                &&& path@.len() == 0 ==> u.cwd is None
                &&& path@.len() > 0 ==> u.cwd == Some(path)
                &&& u.config == self.config
                &&& u.commands == self.commands
                &&& u.timeout_override_ms == self.timeout_override_ms
                &&& u.allowed_exit_codes == self.allowed_exit_codes
            },
            r is Ok,
    {
        let mut updated = self;
        if path.as_str().is_empty() {
            updated.cwd = None;
        } else {
            updated.cwd = Some(path);
        }
        Ok(updated)
    }

    /// Set the per-run timeout in milliseconds. Only a positive value is
    /// accepted; zero or less is a usage error.
    pub fn timeout(self, timeout: i64) -> (r: Result<Self, ProcessError>)
        ensures
            timeout <= 0 ==> (r matches Err(e) && e matches ProcessError::Usage(m) && m@
                == "timeout must be a positive integer"@),
            timeout > 0 ==> (r matches Ok(u) && {
                &&& u.timeout_override_ms == Some(timeout as u64)
                &&& u.config == self.config
                &&& u.commands == self.commands
                &&& u.allowed_exit_codes == self.allowed_exit_codes
                &&& u.cwd == self.cwd
            }),
    {
        if timeout <= 0 {
            return Err(
                ProcessError::Usage(String::from_str("timeout must be a positive integer")),
            );
        }
        let mut updated = self;
        updated.timeout_override_ms = Some(timeout as u64);
        Ok(updated)
    }

    /// Set the exit codes that count as success besides zero. An empty
    /// list is equivalent to never calling this: no override is recorded.
    pub fn allow_exit_codes(self, codes: Vec<i64>) -> (r: Result<Self, ProcessError>)
        ensures
            r matches Ok(u) ==> {
                &&& codes@.len() == 0 ==> u.allowed_exit_codes is None
                &&& codes@.len() > 0 ==> u.allowed_exit_codes == Some(codes)
                &&& u.config == self.config
                &&& u.commands == self.commands
                &&& u.timeout_override_ms == self.timeout_override_ms
                &&& u.cwd == self.cwd
            },
            r is Ok,
    {
        let mut updated = self;
        updated.allowed_exit_codes = normalize_exit_codes(codes);
        Ok(updated)
    }

    /// The timeout this run will enforce, executably.
    pub fn effective_timeout(&self) -> (r: Option<u64>)
        ensures
            r == self.spec_effective_timeout(),
    {
        match self.timeout_override_ms {
            Some(ms) => Some(ms),
            None => config_ref(&self.config).default_timeout_ms,
        }
    }

    /// Buffered execution: spawn the pipeline with both streams captured,
    /// wait — bounded by the effective timeout when one is set — and
    /// normalize the outcome. An empty pipeline is a usage error and
    /// nothing is spawned; a deadline expiry kills the process tree and is
    /// a timeout failure; on success the result's verdict follows the
    /// success policy exactly and the result records that what was handed
    /// to the OS was exactly this pipeline's stages, fully captured and
    /// unchecked.
    pub fn run(self) -> (r: Result<ProcessResult, ProcessError>)
        ensures
            self.commands@.len() == 0 <==> (r matches Err(e) && e is Usage),
            r matches Err(e) ==> (e is Usage || e is Io || e is Timeout),
            r matches Err(e) ==> (e matches ProcessError::Usage(m) ==> m@
                == "no command specified"@),
            self.spec_effective_timeout() is None ==> !(r matches Err(e) && e is Timeout),
            r matches Ok(out) ==> out.success == spec_success(
                out.status,
                allowed_view(self.allowed_exit_codes),
            ),
            r matches Ok(out) ==> out.spawned@ == captured_pipeline_model(
                self.commands@,
                self.cwd,
            ),
    {
        if self.commands.len() == 0 {
            return Err(ProcessError::Usage(String::from_str("no command specified")));
        }
        let timeout = self.effective_timeout();
        let expression = expr_unchecked(
            expr_stderr_capture(expr_stdout_capture(build_expression(&self.commands, &self.cwd))),
        );
        let started = clock_now();
        let raw = match timeout {
            Some(ms) => {
                let handle = match start_expr(expression) {
                    Ok(h) => h,
                    Err(m) => {
                        return Err(ProcessError::Io(m));
                    },
                };
                match handle_wait_timeout(&handle, ms) {
                    Ok(Some(output)) => output,
                    Ok(None) => {
                        handle_kill_quiet(&handle);
                        return Err(ProcessError::Timeout);
                    },
                    Err(m) => {
                        return Err(ProcessError::Io(m));
                    },
                }
            },
            None => {
                match run_expr(expression) {
                    Ok(output) => output,
                    Err(m) => {
                        return Err(ProcessError::Io(m));
                    },
                }
            },
        };
        let duration_ms = saturating_elapsed(&started);
        let mut outcome = build_result(raw, &self.allowed_exit_codes, duration_ms);
        outcome.spawned = Ghost(captured_pipeline_model(self.commands@, self.cwd));
        Ok(outcome)
    }
}

} // verus!
