//! The policy layer: allow/deny lists for command names and environment
//! variable keys, plus the optional default timeout. A policy is built once,
//! then only consulted; the checks are pure predicates over the stored lists.

use vstd::prelude::*;
use vstd::string::StringExecFns;
use crate::error::ProcessError;

verus! {

/// True when some entry of `list` spells exactly the characters `x`.
pub open spec fn has_name(list: Seq<String>, x: Seq<char>) -> bool {
    exists|i: int| 0 <= i < list.len() && list[i]@ == x
}

/// One dimension of the policy: either unrestricted, or an allow list,
/// or a deny list. The two list modes are mutually exclusive: once one is
/// chosen, only further insertions into that same mode are accepted.
#[derive(Clone, Debug)]
pub enum ListPolicy {
    Unrestricted,
    Allow(Vec<String>),
    Deny(Vec<String>),
}

/// True when an allow-list insertion is accepted: the dimension must not
/// already be in deny mode.
pub open spec fn accepts_allow_insert(p: ListPolicy) -> bool {
    !(p is Deny)
}

/// True when a deny-list insertion is accepted: the dimension must not
/// already be in allow mode.
pub open spec fn accepts_deny_insert(p: ListPolicy) -> bool {
    !(p is Allow)
}

/// What a policy dimension answers for a name: everything in unrestricted
/// mode, membership in allow mode, absence in deny mode.
pub open spec fn spec_allows(p: ListPolicy, x: Seq<char>) -> bool {
    match p {
        ListPolicy::Unrestricted => true,
        ListPolicy::Allow(list) => has_name(list@, x),
        ListPolicy::Deny(list) => !has_name(list@, x),
    }
}

/// The exact message of a command policy violation, naming the offender.
pub open spec fn command_violation_msg(name: Seq<char>) -> Seq<char> {
    "command '"@ + name + "' is not permitted"@
}

/// The exact message of an environment-key policy violation, naming the
/// offending key.
pub open spec fn env_violation_msg(key: Seq<char>) -> Seq<char> {
    "environment variable '"@ + key + "' is not permitted"@
}

/// Law: the two list modes of a dimension exclude each other. Once a
/// dimension is in allow mode, a deny insertion is rejected, and once it is
/// in deny mode, an allow insertion is rejected — whichever was configured
/// first wins, regardless of call order.
pub proof fn lemma_allow_deny_exclusive(p: ListPolicy)
    ensures
        p is Allow ==> !accepts_deny_insert(p),
        p is Deny ==> !accepts_allow_insert(p),
{
}

/// Linear search for a string among the stored names.
fn contains_name(list: &Vec<String>, x: &String) -> (r: bool)
    ensures
        r == has_name(list@, x@),
{
    let mut i: usize = 0;
    while i < list.len()
        invariant
            0 <= i <= list@.len(),
            forall|j: int| 0 <= j < i ==> list@[j]@ != x@,
        decreases list@.len() - i,
    {
        if list[i] == *x {
            proof {
                assert(list@[i as int]@ == x@);
            }
            return true;
        }
        i = i + 1;
    }
    false
}

impl ListPolicy {
    /// Switch to (or extend) allow mode with the given names. Calling this
    /// on a dimension already in deny mode is a programming error, excluded
    /// by precondition.
    pub fn insert_allow(&mut self, values: Vec<String>)
        requires
            accepts_allow_insert(*old(self)),
        ensures
            *final(self) is Allow,
            *old(self) is Unrestricted ==> *final(self) == ListPolicy::Allow(values),
            *old(self) matches ListPolicy::Allow(ex) ==> (*final(self) matches ListPolicy::Allow(
                l,
            ) && l@ == ex@ + values@),
    {
        match self {
            ListPolicy::Unrestricted => {
                *self = ListPolicy::Allow(values);
            },
            ListPolicy::Allow(existing) => {
                let mut incoming = values;
                existing.append(&mut incoming);
            },
            ListPolicy::Deny(_) => {
                vstd::pervasive::unreached::<()>()
            },
        }
    }

    /// Switch to (or extend) deny mode with the given names. Calling this
    /// on a dimension already in allow mode is a programming error, excluded
    /// by precondition.
    pub fn insert_deny(&mut self, values: Vec<String>)
        requires
            accepts_deny_insert(*old(self)),
        ensures
            *final(self) is Deny,
            *old(self) is Unrestricted ==> *final(self) == ListPolicy::Deny(values),
            *old(self) matches ListPolicy::Deny(ex) ==> (*final(self) matches ListPolicy::Deny(l)
                && l@ == ex@ + values@),
    {
        match self {
            ListPolicy::Unrestricted => {
                *self = ListPolicy::Deny(values);
            },
            ListPolicy::Deny(existing) => {
                let mut incoming = values;
                existing.append(&mut incoming);
            },
            ListPolicy::Allow(_) => {
                vstd::pervasive::unreached::<()>()
            },
        }
    }

    /// The policy verdict for one name: always allowed when unrestricted,
    /// allowed iff present in allow mode, allowed iff absent in deny mode.
    pub fn is_allowed(&self, value: &String) -> (r: bool)
        ensures
            r == spec_allows(*self, value@),
    {
        match self {
            ListPolicy::Unrestricted => true,
            ListPolicy::Allow(list) => contains_name(list, value),
            ListPolicy::Deny(list) => !contains_name(list, value),
        }
    }
}

/// The immutable configuration shared by every command, pipeline and
/// executor built from it: a command-name policy, an environment-key
/// policy, and an optional default timeout in milliseconds.
#[derive(Clone, Debug)]
pub struct Config {
    pub command_policy: ListPolicy,
    pub env_policy: ListPolicy,
    pub default_timeout_ms: Option<u64>,
}

impl Default for Config {
    /// The unrestricted configuration: every command and key allowed,
    /// no default timeout.
    fn default() -> (r: Self)
        ensures
            r.command_policy is Unrestricted,
            r.env_policy is Unrestricted,
            r.default_timeout_ms is None,
    {
        Config {
            command_policy: ListPolicy::Unrestricted,
            env_policy: ListPolicy::Unrestricted,
            default_timeout_ms: None,
        }
    }
}

impl Config {
    /// Restrict command names to the given allow list (or extend it).
    pub fn allow_commands(self, commands: Vec<String>) -> (r: Self)
        requires
            accepts_allow_insert(self.command_policy),
        ensures
            r.command_policy is Allow,
            self.command_policy is Unrestricted ==> r.command_policy == ListPolicy::Allow(
                commands,
            ),
            self.command_policy matches ListPolicy::Allow(ex) ==> (r.command_policy matches
                ListPolicy::Allow(l) && l@ == ex@ + commands@),
            r.env_policy == self.env_policy,
            r.default_timeout_ms == self.default_timeout_ms,
    {
        let mut updated = self;
        updated.command_policy.insert_allow(commands);
        updated
    }

    /// Deny the given command names (or extend the deny list).
    pub fn deny_commands(self, commands: Vec<String>) -> (r: Self)
        requires
            accepts_deny_insert(self.command_policy),
        ensures
            r.command_policy is Deny,
            self.command_policy is Unrestricted ==> r.command_policy == ListPolicy::Deny(commands),
            self.command_policy matches ListPolicy::Deny(ex) ==> (r.command_policy matches
                ListPolicy::Deny(l) && l@ == ex@ + commands@),
            r.env_policy == self.env_policy,
            r.default_timeout_ms == self.default_timeout_ms,
    {
        let mut updated = self;
        updated.command_policy.insert_deny(commands);
        updated
    }

    /// Restrict environment keys to the given allow list (or extend it).
    pub fn allow_env_vars(self, keys: Vec<String>) -> (r: Self)
        requires
            accepts_allow_insert(self.env_policy),
        ensures
            r.env_policy is Allow,
            self.env_policy is Unrestricted ==> r.env_policy == ListPolicy::Allow(keys),
            self.env_policy matches ListPolicy::Allow(ex) ==> (r.env_policy matches
                ListPolicy::Allow(l) && l@ == ex@ + keys@),
            r.command_policy == self.command_policy,
            r.default_timeout_ms == self.default_timeout_ms,
    {
        let mut updated = self;
        updated.env_policy.insert_allow(keys);
        updated
    }

    /// Deny the given environment keys (or extend the deny list).
    pub fn deny_env_vars(self, keys: Vec<String>) -> (r: Self)
        requires
            accepts_deny_insert(self.env_policy),
        ensures
            r.env_policy is Deny,
            self.env_policy is Unrestricted ==> r.env_policy == ListPolicy::Deny(keys),
            self.env_policy matches ListPolicy::Deny(ex) ==> (r.env_policy matches
                ListPolicy::Deny(l) && l@ == ex@ + keys@),
            r.command_policy == self.command_policy,
            r.default_timeout_ms == self.default_timeout_ms,
    {
        let mut updated = self;
        updated.env_policy.insert_deny(keys);
        updated
    }

    /// Set the default timeout. Zero is invalid and excluded by
    /// precondition: a configuration with a zero timeout is a programming
    /// error, not a runtime failure.
    pub fn default_timeout_ms(self, timeout: u64) -> (r: Self)
        requires
            timeout > 0,
        ensures
            r.default_timeout_ms == Some(timeout),
            r.command_policy == self.command_policy,
            r.env_policy == self.env_policy,
    {
        if timeout == 0 {
            return vstd::pervasive::unreached();
        }
        let mut updated = self;
        updated.default_timeout_ms = Some(timeout);
        updated
    }

    /// The policy verdict for a command name, as a result: `Ok` when the
    /// command policy allows the name, otherwise a policy violation naming
    /// the offending command.
    pub fn ensure_command_allowed(&self, name: &String) -> (r: Result<(), ProcessError>)
        ensures
            r is Ok <==> spec_allows(self.command_policy, name@),
            r matches Err(e) ==> (e matches ProcessError::PolicyViolation(m) && m@
                == command_violation_msg(name@)),
    {
        if self.command_policy.is_allowed(name) {
            Ok(())
        } else {
            let msg = String::from_str("command '").concat(name.as_str()).concat(
                "' is not permitted",
            );
            Err(ProcessError::PolicyViolation(msg))
        }
    }

    /// The policy verdict for an environment key, as a result: `Ok` when
    /// the environment policy allows the key, otherwise a policy violation
    /// naming the offending key.
    pub fn ensure_env_allowed(&self, key: &String) -> (r: Result<(), ProcessError>)
        ensures
            r is Ok <==> spec_allows(self.env_policy, key@),
            r matches Err(e) ==> (e matches ProcessError::PolicyViolation(m) && m@
                == env_violation_msg(key@)),
    {
        if self.env_policy.is_allowed(key) {
            Ok(())
        } else {
            let msg = String::from_str("environment variable '").concat(key.as_str()).concat(
                "' is not permitted",
            );
            Err(ProcessError::PolicyViolation(msg))
        }
    }
}

} // verus!
