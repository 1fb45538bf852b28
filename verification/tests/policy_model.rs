use procpipe::error::ProcessError;
use procpipe::executor::build_result;
use procpipe::sys::RawOutput;
use procpipe::executor::{evaluate_success, normalize_exit_codes};
use procpipe::policy::{Config, ListPolicy};

fn strings(words: &[&str]) -> Vec<String> {
    words.iter().map(|w| w.to_string()).collect()
}

#[test]
fn unrestricted_mode_allows_everything() {
    let policy = ListPolicy::Unrestricted;
    assert!(policy.is_allowed(&"anything".to_string()));
    assert!(policy.is_allowed(&"".to_string()));
}

#[test]
fn allow_mode_is_membership() {
    let mut policy = ListPolicy::Unrestricted;
    policy.insert_allow(strings(&["ls", "cat"]));
    assert!(policy.is_allowed(&"ls".to_string()));
    assert!(policy.is_allowed(&"cat".to_string()));
    assert!(!policy.is_allowed(&"rm".to_string()));
}

#[test]
fn deny_mode_is_absence() {
    let mut policy = ListPolicy::Unrestricted;
    policy.insert_deny(strings(&["rm"]));
    assert!(policy.is_allowed(&"ls".to_string()));
    assert!(!policy.is_allowed(&"rm".to_string()));
}

#[test]
fn allow_mode_extends_with_further_inserts() {
    let mut policy = ListPolicy::Unrestricted;
    policy.insert_allow(strings(&["ls"]));
    policy.insert_allow(strings(&["cat"]));
    assert!(policy.is_allowed(&"ls".to_string()));
    assert!(policy.is_allowed(&"cat".to_string()));
    assert!(!policy.is_allowed(&"rm".to_string()));
}

#[test]
fn config_policies_are_independent_dimensions() {
    let config = Config::default()
        .allow_commands(strings(&["env"]))
        .deny_env_vars(strings(&["SECRET"]));
    assert!(config.ensure_command_allowed(&"env".to_string()).is_ok());
    assert!(config.ensure_command_allowed(&"ls".to_string()).is_err());
    assert!(config.ensure_env_allowed(&"HARMLESS".to_string()).is_ok());
    assert!(config.ensure_env_allowed(&"SECRET".to_string()).is_err());
}

#[test]
fn policy_violation_message_names_the_offender() {
    let config = Config::default().allow_commands(strings(&["env"]));
    let err = config
        .ensure_command_allowed(&"ls".to_string())
        .expect_err("ls is outside the allow list");
    let message = err.message();
    assert_eq!(message, "command 'ls' is not permitted");

    let config = Config::default().deny_env_vars(strings(&["BLOCKED"]));
    let err = config
        .ensure_env_allowed(&"BLOCKED".to_string())
        .expect_err("BLOCKED is denied");
    assert_eq!(
        err.message(),
        "environment variable 'BLOCKED' is not permitted"
    );
}

#[test]
fn success_policy_exact_cases() {
    assert!(evaluate_success(0, &None));
    assert!(!evaluate_success(1, &None));
    assert!(!evaluate_success(-1, &None));
    assert!(evaluate_success(1, &Some(vec![1, 7])));
    assert!(evaluate_success(7, &Some(vec![1, 7])));
    assert!(!evaluate_success(2, &Some(vec![1, 7])));
    assert!(evaluate_success(0, &Some(vec![5])));
    assert!(evaluate_success(-1, &Some(vec![-1])));
}

#[test]
fn empty_exit_code_list_means_no_override() {
    assert!(normalize_exit_codes(Vec::new()).is_none());
    assert_eq!(normalize_exit_codes(vec![4]), Some(vec![4]));
}

#[test]
fn fixed_error_messages() {
    assert_eq!(
        ProcessError::Timeout.message(),
        "process I/O error: process execution timed out"
    );
    assert_eq!(
        ProcessError::ConfigMismatch.message(),
        "command builders come from different modules"
    );
    assert_eq!(
        ProcessError::Io("broken pipe".to_string()).message(),
        "process I/O error: broken pipe"
    );
}

#[test]
fn missing_exit_code_maps_to_sentinel() {
    let raw = RawOutput { code: None, stdout: b"partial".to_vec(), stderr: Vec::new() };
    let result = build_result(raw, &None, 5);
    assert_eq!(result.status, -1);
    assert!(!result.success);
    assert_eq!(result.stdout, "partial");
    assert_eq!(result.stderr, "");
    assert_eq!(result.duration_ms, 5);

    let raw = RawOutput { code: None, stdout: Vec::new(), stderr: Vec::new() };
    let tolerated = build_result(raw, &Some(vec![-1]), 5);
    assert_eq!(tolerated.status, -1);
    assert!(tolerated.success, "the sentinel itself can be allow-listed");
}

#[test]
fn reported_exit_code_is_kept() {
    let raw = RawOutput { code: Some(7), stdout: Vec::new(), stderr: Vec::new() };
    let result = build_result(raw, &None, 0);
    assert_eq!(result.status, 7);
    assert!(!result.success);
}

#[test]
#[should_panic]
fn default_timeout_zero_rejected() {
    let _ = Config::default().default_timeout_ms(0);
}
