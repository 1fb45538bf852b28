//! Chaining stages into a pipeline. All stages of one pipeline must come
//! from the very same shared policy instance — compared by identity, not by
//! content — so that a command built under one trust boundary can never be
//! smuggled into a pipeline governed by another.

use std::sync::Arc;
use vstd::prelude::*;
use crate::command::{stage_wf, CommandBuilder, CommandSpec};
use crate::error::ProcessError;
use crate::executor::PipelineExecutor;
use crate::policy::Config;
use crate::sys::same_config;

verus! {

/// Refuse to combine parts built from different policy instances. Only
/// identity counts: two configurations of equal content built separately
/// are still refused.
fn ensure_same_config(a: &Arc<Config>, b: &Arc<Config>) -> (r: Result<(), ProcessError>)
    ensures
        r is Ok ==> **a == **b,
        r matches Err(e) ==> e is ConfigMismatch,
{
    if same_config(a, b) {
        Ok(())
    } else {
        Err(ProcessError::ConfigMismatch)
    }
}

/// An ordered, non-empty chain of policy-checked stages sharing one policy
/// instance. Stage order is spawn order: each stage's standard output feeds
/// the next stage's standard input.
#[derive(Clone, Debug)]
pub struct PipeBuilder {
    pub config: Arc<Config>,
    pub commands: Vec<CommandSpec>,
}

impl PipeBuilder {
    /// At least one stage, and every stage policy-checked under the shared
    /// configuration.
    pub open spec fn wf(&self) -> bool {
        &&& self.commands@.len() >= 1
        &&& forall|i: int|
            0 <= i < self.commands@.len() ==> stage_wf(*self.config, self.commands@[i])
    }

    /// A pipeline of one stage.
    pub fn from_single(config: Arc<Config>, command: CommandSpec) -> (r: Self)
        requires
            stage_wf(*config, command),
        ensures
            r.config == config,
            r.commands@ == seq![command],
            r.wf(),
    {
        let mut commands = Vec::new();
        commands.push(command);
        PipeBuilder { config, commands }
    }

    /// Append one stage at the right end of the chain.
    pub fn push_command(&mut self, stage: CommandSpec)
        requires
            old(self).wf(),
            stage_wf(*old(self).config, stage),
        ensures
            final(self).config == old(self).config,
            final(self).commands@ == old(self).commands@.push(stage),
            final(self).wf(),
    {
        self.commands.push(stage);
    }

    /// Append the next command, after checking that it was built from this
    /// very policy instance.
    pub fn pipe(self, next: CommandBuilder) -> (r: Result<Self, ProcessError>)
        requires
            self.wf(),
            next.wf(),
        ensures
            r matches Ok(p) ==> {
                &&& p.config == self.config
                &&& p.commands@ == self.commands@.push(next.command)
                &&& p.wf()
            },
            r matches Err(e) ==> e is ConfigMismatch,
    {
        match ensure_same_config(&self.config, &next.config) {
            Ok(()) => {
                let mut updated = self;
                updated.push_command(next.command);
                Ok(updated)
            },
            Err(e) => Err(e),
        }
    }

    /// Hand the finished chain to an executor, with no per-run overrides
    /// yet.
    pub fn into_executor(self) -> (r: PipelineExecutor)
        requires
            self.wf(),
        ensures
            r.config == self.config,
            r.commands == self.commands,
            r.timeout_override_ms is None,
            r.allowed_exit_codes is None,
            r.cwd is None,
            r.wf(),
    {
        PipelineExecutor::new(self.config, self.commands)
    }

    /// The terminal builder step: an executor for this chain.
    pub fn exec(self) -> (r: PipelineExecutor)
        requires
            self.wf(),
        ensures
            r.config == self.config,
            r.commands == self.commands,
            r.timeout_override_ms is None,
            r.allowed_exit_codes is None,
            r.cwd is None,
            r.wf(),
    {
        self.into_executor()
    }
}

impl CommandBuilder {
    /// Begin a two-stage pipeline, after checking that both commands were
    /// built from this very policy instance.
    pub fn pipe(self, next: CommandBuilder) -> (r: Result<PipeBuilder, ProcessError>)
        requires
            self.wf(),
            next.wf(),
        ensures
            r matches Ok(p) ==> {
                &&& p.config == self.config
                &&& p.commands@ == seq![self.command, next.command]
                &&& p.wf()
            },
            r matches Err(e) ==> e is ConfigMismatch,
    {
        match ensure_same_config(&self.config, &next.config) {
            Ok(()) => {
                let mut builder = PipeBuilder::from_single(self.config, self.command);
                builder.push_command(next.command);
                Ok(builder)
            },
            Err(e) => Err(e),
        }
    }

    /// An executor for this single command, with no per-run overrides yet.
    pub fn build(self) -> (r: PipelineExecutor)
        requires
            self.wf(),
        ensures
            r.config == self.config,
            r.commands@ == seq![self.command],
            r.timeout_override_ms is None,
            r.allowed_exit_codes is None,
            r.cwd is None,
            r.wf(),
    {
        PipeBuilder::from_single(self.config, self.command).into_executor()
    }
}

/// The stage list that a run of successive appends produces: each added
/// stage is pushed at the right end, first to last, exactly as a chain of
/// `pipe` calls does.
pub open spec fn chained(base: Seq<CommandSpec>, added: Seq<CommandSpec>) -> Seq<CommandSpec>
    decreases added.len(),
{
    if added.len() == 0 {
        base
    } else {
        chained(base.push(added[0]), added.skip(1))
    }
}

/// Law: chaining is left-to-right composition. However many stages are
/// appended one by one, the pipeline holds exactly the base stages followed
/// by the added stages, in the order the additions were made — so stage
/// `i`'s standard output feeds stage `i + 1`'s standard input for the whole
/// chain.
pub proof fn lemma_pipeline_chain_order(base: Seq<CommandSpec>, added: Seq<CommandSpec>)
    ensures
        chained(base, added) == base + added,
    decreases added.len(),
{
    if added.len() == 0 {
        assert(chained(base, added) =~= base + added);
    } else {
        lemma_pipeline_chain_order(base.push(added[0]), added.skip(1));
        assert(base.push(added[0]) + added.skip(1) =~= base + added);
    }
}

} // verus!
