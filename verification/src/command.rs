//! One pipeline stage: the command data model and its policy-checked
//! builder. A builder never stores a program name or an environment key
//! that the shared policy has not admitted.

use std::sync::Arc;
use vstd::prelude::*;
use vstd::string::StringExecFns;
use crate::error::ProcessError;
use crate::policy::{command_violation_msg, env_violation_msg, spec_allows, Config};
use crate::sys::config_ref;

verus! {

/// One stage of a pipeline: a program, its arguments (passed verbatim, with
/// no shell interpretation), an optional working directory, and per-stage
/// environment overrides.
#[derive(Clone, Debug)]
pub struct CommandSpec {
    pub program: String,
    pub args: Vec<String>,
    pub cwd: Option<String>,
    pub env: Vec<(String, String)>,
}

/// The mapping that a list of environment overrides denotes when applied
/// left to right: a later entry for the same key wins.
pub open spec fn env_map_of(pairs: Seq<(String, String)>) -> Map<Seq<char>, Seq<char>>
    decreases pairs.len(),
{
    if pairs.len() == 0 {
        Map::empty()
    } else {
        env_map_of(pairs.drop_last()).insert(pairs.last().0@, pairs.last().1@)
    }
}

/// Putting one entry in front of an override list changes the denoted
/// mapping only where no entry of the list binds the same key: the later
/// binding for a key always prevails.
pub proof fn lemma_env_map_cons(p: (String, String), rest: Seq<(String, String)>)
    ensures
        env_map_of(seq![p] + rest) == (if env_map_of(rest).contains_key(p.0@) {
            env_map_of(rest)
        } else {
            env_map_of(rest).insert(p.0@, p.1@)
        }),
    decreases rest.len(),
{
    if rest.len() == 0 {
        assert(seq![p] + rest =~= seq![p]);
        assert((seq![p]).drop_last() =~= rest);
        assert((seq![p] + rest).len() == 1);
        assert((seq![p] + rest).last() == p);
        assert(env_map_of(seq![p] + rest) == env_map_of(rest).insert(p.0@, p.1@));
    } else {
        let q = rest.last();
        let shorter = rest.drop_last();
        assert((seq![p] + rest).drop_last() =~= seq![p] + shorter);
        assert((seq![p] + rest).last() == q);
        lemma_env_map_cons(p, shorter);
        let base = env_map_of(shorter);
        if q.0@ == p.0@ {
            if base.contains_key(p.0@) {
                assert(env_map_of(seq![p] + rest) =~= env_map_of(rest));
            } else {
                assert(base.insert(p.0@, p.1@).insert(q.0@, q.1@) =~= base.insert(q.0@, q.1@));
                assert(env_map_of(seq![p] + rest) =~= env_map_of(rest));
            }
        } else {
            if base.contains_key(p.0@) {
                assert(env_map_of(seq![p] + rest) =~= env_map_of(rest));
            } else {
                assert(base.insert(p.0@, p.1@).insert(q.0@, q.1@) =~= base.insert(
                    q.0@,
                    q.1@,
                ).insert(p.0@, p.1@));
                assert(env_map_of(seq![p] + rest) =~= env_map_of(rest).insert(p.0@, p.1@));
            }
        }
    }
}

impl CommandSpec {
    /// The environment overrides of this stage, as the mapping they denote.
    pub open spec fn env_map(&self) -> Map<Seq<char>, Seq<char>> {
        env_map_of(self.env@)
    }

    /// A fresh stage: the given program and arguments, no working-directory
    /// override and no environment overrides.
    pub fn new(program: String, args: Vec<String>) -> (r: Self)
        ensures
            r.program == program,
            r.args == args,
            r.cwd is None,
            r.env@.len() == 0,
    {
        CommandSpec { program, args, cwd: None, env: Vec::new() }
    }
}

/// Builds one policy-checked command. The command name is checked when the
/// builder is created and each environment key is checked when it is added,
/// so a rejected command never reaches the operating system.
#[derive(Clone, Debug)]
pub struct CommandBuilder {
    pub config: Arc<Config>,
    pub command: CommandSpec,
}

/// A stage is well formed under a configuration when its program and every
/// stored environment key have passed the respective policy checks.
pub open spec fn stage_wf(c: Config, s: CommandSpec) -> bool {
    &&& spec_allows(c.command_policy, s.program@)
    &&& forall|i: int| 0 <= i < s.env@.len() ==> spec_allows(c.env_policy, s.env@[i].0@)
}

impl CommandBuilder {
    /// The stored command has passed every policy check.
    pub open spec fn wf(&self) -> bool {
        stage_wf(*self.config, self.command)
    }

    /// Build a command from the words of a request: the first word is the
    /// program, the rest are its arguments. An empty request is a usage
    /// error; a program the policy refuses is a policy violation.
    pub fn new(config: Arc<Config>, words: Vec<String>) -> (r: Result<Self, ProcessError>)
        ensures
            words@.len() == 0 ==> (r matches Err(e) && e matches ProcessError::Usage(m) && m@
                == "process::cmd requires at least one argument"@),
            words@.len() > 0 && words@[0]@.len() == 0 ==> (r matches Err(e) && e matches
                ProcessError::Usage(m) && m@ == "command name must not be empty"@),
            words@.len() > 0 && words@[0]@.len() > 0 ==> ((r is Ok) <==> spec_allows(
                config.command_policy,
                words@[0]@,
            )),
            r matches Ok(b) ==> {
                &&& b.config == config
                &&& b.command.program == words@[0]
                &&& b.command.args@ == words@.skip(1)
                &&& b.command.cwd is None
                &&& b.command.env@.len() == 0
                &&& b.wf()
            },
            words@.len() > 0 && words@[0]@.len() > 0 ==> (r matches Err(e) ==> (e matches
                ProcessError::PolicyViolation(m) && m@ == command_violation_msg(words@[0]@))),
    {
        if words.len() == 0 {
            return Err(
                ProcessError::Usage(
                    String::from_str("process::cmd requires at least one argument"),
                ),
            );
        }
        let ghost all_words = words@;
        let mut rest = words;
        let program = rest.remove(0);
        proof {
            assert(rest@ =~= all_words.skip(1));
        }
        if program.as_str().is_empty() {
            return Err(ProcessError::Usage(String::from_str("command name must not be empty")));
        }
        match config_ref(&config).ensure_command_allowed(&program) {
            Ok(()) => Ok(
                CommandBuilder { config, command: CommandSpec::new(program, rest) },
            ),
            Err(e) => Err(e),
        }
    }

    /// Add one environment override. The key is checked against the policy
    /// at this very moment: a refused key is reported and nothing is stored.
    pub fn with_env_var(self, key: String, value: String) -> (r: Result<Self, ProcessError>)
        requires
            self.wf(),
        ensures
            (r is Ok) <==> spec_allows(self.config.env_policy, key@),
            r matches Ok(b) ==> {
                &&& b.config == self.config
                &&& b.command.program == self.command.program
                &&& b.command.args == self.command.args
                &&& b.command.cwd == self.command.cwd
                &&& b.command.env@ == self.command.env@.push((key, value))
                &&& b.command.env_map() == self.command.env_map().insert(key@, value@)
                &&& b.wf()
            },
            r matches Err(e) ==> (e matches ProcessError::PolicyViolation(m) && m@
                == env_violation_msg(key@)),
    {
        match config_ref(&self.config).ensure_env_allowed(&key) {
            Ok(()) => {
                let mut updated = self;
                updated.command.env.push((key, value));
                proof {
                    assert(updated.command.env@.drop_last() == self.command.env@);
                }
                Ok(updated)
            },
            Err(e) => Err(e),
        }
    }

    /// Add a batch of environment overrides, in order. The first refused
    /// key stops the batch: the error is reported and the builder is gone,
    /// exactly as when a single refused key is added.
    pub fn with_env_map(self, entries: Vec<(String, String)>) -> (r: Result<Self, ProcessError>)
        requires
            self.wf(),
        ensures
            (r is Ok) <==> (forall|i: int|
                0 <= i < entries@.len() ==> spec_allows(self.config.env_policy, entries@[i].0@)),
            r matches Ok(b) ==> {
                &&& b.config == self.config
                &&& b.command.program == self.command.program
                &&& b.command.args == self.command.args
                &&& b.command.cwd == self.command.cwd
                &&& b.command.env@ == self.command.env@ + entries@
                &&& b.wf()
            },
            r matches Err(e) ==> (e matches ProcessError::PolicyViolation(m) && (exists|j: int|
                #![auto]
                {
                    &&& 0 <= j < entries@.len()
                    &&& !spec_allows(self.config.env_policy, entries@[j].0@)
                    &&& (forall|j2: int|
                        0 <= j2 < j ==> spec_allows(self.config.env_policy, entries@[j2].0@))
                    &&& m@ == env_violation_msg(entries@[j].0@)
                })),
    {
        let mut updated = self;
        let mut i: usize = 0;
        while i < entries.len()
            invariant
                0 <= i <= entries@.len(),
                updated.wf(),
                updated.config == self.config,
                updated.command.program == self.command.program,
                updated.command.args == self.command.args,
                updated.command.cwd == self.command.cwd,
                updated.command.env@ == self.command.env@ + entries@.take(i as int),
                forall|j: int| 0 <= j < i ==> spec_allows(self.config.env_policy, entries@[j].0@),
            decreases entries@.len() - i,
        {
            let key = entries[i].0.clone();
            let value = entries[i].1.clone();
            match updated.with_env_var(key, value) {
                Ok(next) => {
                    updated = next;
                },
                Err(e) => {
                    proof {
                        assert(key@ == entries@[i as int].0@);
                    }
                    return Err(e);
                },
            }
            proof {
                assert(entries@.take(i + 1) == entries@.take(i as int).push(entries@[i as int]));
            }
            i = i + 1;
        }
        proof {
            assert(entries@.take(entries@.len() as int) == entries@);
        }
        Ok(updated)
    }
}

} // verus!
