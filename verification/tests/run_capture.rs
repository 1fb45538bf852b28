use std::sync::Arc;
use procpipe::command::{CommandBuilder, CommandSpec};
use procpipe::pipeline::PipeBuilder;
use procpipe::error::ProcessError;
use procpipe::executor::PipelineExecutor;
use procpipe::policy::Config;

fn strings(words: &[&str]) -> Vec<String> {
    words.iter().map(|w| w.to_string()).collect()
}

fn cmd(config: &Arc<Config>, words: &[&str]) -> CommandBuilder {
    CommandBuilder::new(Arc::clone(config), strings(words)).expect("command should pass policy")
}

fn run_err(outcome: Result<procpipe::executor::ProcessResult, ProcessError>, why: &str) -> ProcessError {
    match outcome {
        Ok(_) => panic!("{}", why),
        Err(err) => err,
    }
}

#[test]
fn capture_returns_stdout_and_status() {
    let config = Arc::new(Config::default());
    let result = cmd(&config, &["printf", "%s", "hello"])
        .build()
        .run()
        .expect("printf should run");
    assert!(result.success);
    assert_eq!(result.status, 0);
    assert_eq!(result.stdout, "hello");
}

#[test]
fn scenario_printf_ok() {
    let config = Arc::new(Config::default());
    let result = cmd(&config, &["printf", "%s", "ok"])
        .build()
        .run()
        .expect("printf should run");
    assert!(result.success);
    assert_eq!(result.status, 0);
    assert_eq!(result.stdout, "ok");
    assert_eq!(result.stderr, "");
}

#[test]
fn pipeline_passes_stdout() {
    let config = Arc::new(Config::default());
    let first = cmd(&config, &["printf", "%s", "foo"]);
    let second = cmd(&config, &["tr", "a-z", "A-Z"]);
    let result = first
        .pipe(second)
        .expect("same policy instance")
        .exec()
        .run()
        .expect("pipeline should run");
    assert!(result.success);
    assert_eq!(result.stdout, "FOO");
}

#[test]
fn three_stage_pipeline_composes_left_to_right() {
    let config = Arc::new(Config::default());
    let first = cmd(&config, &["printf", "%s", "foo-bar"]);
    let second = cmd(&config, &["tr", "a-z", "A-Z"]);
    let third = cmd(&config, &["tr", "-d", "-"]);
    let result = first
        .pipe(second)
        .expect("same policy instance")
        .pipe(third)
        .expect("same policy instance")
        .exec()
        .run()
        .expect("pipeline should run");
    assert_eq!(result.stdout, "FOOBAR");
}

#[test]
fn scenario_false_with_allowed_exit_code() {
    let config = Arc::new(Config::default());
    let result = cmd(&config, &["false"])
        .build()
        .allow_exit_codes(vec![1])
        .expect("override accepted")
        .run()
        .expect("false should run");
    assert!(result.success);
    assert_eq!(result.status, 1);
}

#[test]
fn nonzero_exit_without_override_is_failure() {
    let config = Arc::new(Config::default());
    let result = cmd(&config, &["false"])
        .build()
        .run()
        .expect("false should run");
    assert!(!result.success);
    assert_eq!(result.status, 1);
}

#[test]
fn empty_exit_code_override_is_no_override() {
    let config = Arc::new(Config::default());
    let executor = cmd(&config, &["false"])
        .build()
        .allow_exit_codes(Vec::new())
        .expect("override accepted");
    assert!(executor.allowed_exit_codes.is_none());
    let result = executor.run().expect("false should run");
    assert!(!result.success);
}

#[test]
fn scenario_sleep_times_out() {
    let config = Arc::new(Config::default());
    let err = run_err(
        cmd(&config, &["sleep", "2"])
            .build()
            .timeout(100)
            .expect("positive timeout accepted")
            .run(),
        "the deadline should expire first",
    );
    assert!(matches!(err, ProcessError::Timeout));
    assert!(err.message().contains("timed out"));
}

#[test]
fn default_timeout_triggers_error() {
    let config = Arc::new(Config::default().default_timeout_ms(100));
    let err = run_err(
        cmd(&config, &["sleep", "2"]).build().run(),
        "the default deadline should expire first",
    );
    assert!(matches!(err, ProcessError::Timeout));
}

#[test]
fn timeout_must_be_positive() {
    let config = Arc::new(Config::default());
    let err = cmd(&config, &["printf", "x"])
        .build()
        .timeout(0)
        .expect_err("zero timeout is a usage error");
    assert!(matches!(err, ProcessError::Usage(_)));
    assert_eq!(err.message(), "timeout must be a positive integer");
    let err = cmd(&config, &["printf", "x"])
        .build()
        .timeout(-3)
        .expect_err("negative timeout is a usage error");
    assert!(matches!(err, ProcessError::Usage(_)));
}

#[test]
fn empty_pipeline_is_a_usage_error() {
    let config = Arc::new(Config::default());
    let executor = PipelineExecutor::new(config, Vec::new());
    let err = run_err(executor.run(), "nothing to run");
    assert!(matches!(err, ProcessError::Usage(_)));
    assert_eq!(err.message(), "no command specified");
}

#[test]
fn empty_request_is_a_usage_error() {
    let config = Arc::new(Config::default());
    let err = CommandBuilder::new(config, Vec::new()).expect_err("no words");
    assert!(matches!(err, ProcessError::Usage(_)));
    assert_eq!(err.message(), "process::cmd requires at least one argument");
}

#[test]
fn empty_program_name_is_a_usage_error() {
    let config = Arc::new(Config::default());
    let err = CommandBuilder::new(config, strings(&["", "arg"])).expect_err("no program");
    assert!(matches!(err, ProcessError::Usage(_)));
    assert_eq!(err.message(), "command name must not be empty");
}

#[test]
fn cwd_switches_directory() {
    let config = Arc::new(Config::default());
    let result = cmd(&config, &["pwd"])
        .build()
        .cwd("/".to_string())
        .expect("cwd accepted")
        .run()
        .expect("pwd should run");
    assert_eq!(result.stdout, "/\n");
}

#[test]
fn cwd_empty_string_clears_override() {
    let config = Arc::new(Config::default());
    let executor = cmd(&config, &["pwd"])
        .build()
        .cwd("/".to_string())
        .expect("cwd accepted")
        .cwd(String::new())
        .expect("clearing accepted");
    assert!(executor.cwd.is_none());
}

#[test]
fn cwd_invalid_directory_errors() {
    let config = Arc::new(Config::default());
    let err = run_err(
        cmd(&config, &["pwd"])
            .build()
            .cwd("/definitely/not/a/dir".to_string())
            .expect("cwd accepted")
            .run(),
        "invalid cwd should fail",
    );
    assert!(matches!(err, ProcessError::Io(_)));
    assert!(err.message().contains("process I/O error"));
}

#[test]
fn capture_reports_duration() {
    let config = Arc::new(Config::default());
    let result = cmd(&config, &["printf", "%s", "ok"])
        .build()
        .run()
        .expect("printf should run");
    assert!(result.duration_ms < 60_000);
}

#[test]
fn allow_commands_whitelist() {
    let config = Arc::new(Config::default().allow_commands(strings(&["printf"])));
    let err = CommandBuilder::new(Arc::clone(&config), strings(&["ls"]))
        .expect_err("ls should be blocked");
    assert_eq!(err.message(), "command 'ls' is not permitted");
    let result = cmd(&config, &["printf", "%s", "fine"])
        .build()
        .run()
        .expect("printf is allowed");
    assert!(result.success);
}

#[test]
fn deny_commands_blacklist() {
    let config = Arc::new(Config::default().deny_commands(strings(&["ls"])));
    let err = CommandBuilder::new(Arc::clone(&config), strings(&["ls"]))
        .expect_err("ls should be denied");
    assert!(err.message().contains("not permitted"));
}

#[test]
fn env_injection_and_whitelist() {
    let config = Arc::new(Config::default().allow_env_vars(strings(&["PROCPIPE_TEST"])));
    let result = cmd(&config, &["env"])
        .with_env_var("PROCPIPE_TEST".to_string(), "ok".to_string())
        .expect("the key is allowed")
        .build()
        .run()
        .expect("env should run");
    assert!(result.stdout.contains("PROCPIPE_TEST=ok"));

    let err = cmd(&config, &["env"])
        .with_env_var("OTHER".to_string(), "nope".to_string())
        .expect_err("OTHER should be blocked before anything is spawned");
    assert!(err.message().contains("not permitted"));
}

#[test]
fn deny_env_vars_blocks_key() {
    let config = Arc::new(Config::default().deny_env_vars(strings(&["BLOCKED"])));
    let err = cmd(&config, &["env"])
        .with_env_var("BLOCKED".to_string(), "1".to_string())
        .expect_err("BLOCKED should be denied");
    assert!(err.message().contains("not permitted"));
}

#[test]
fn env_map_applies_every_entry() {
    let config = Arc::new(Config::default());
    let result = cmd(&config, &["env"])
        .with_env_map(vec![
            ("PROCPIPE_ONE".to_string(), "1".to_string()),
            ("PROCPIPE_TWO".to_string(), "2".to_string()),
        ])
        .expect("both keys allowed")
        .build()
        .run()
        .expect("env should run");
    assert!(result.stdout.contains("PROCPIPE_ONE=1"));
    assert!(result.stdout.contains("PROCPIPE_TWO=2"));
}

#[test]
fn config_mismatch_is_refused_by_identity() {
    let first_config = Arc::new(Config::default());
    let second_config = Arc::new(Config::default());
    let left = cmd(&first_config, &["printf", "x"]);
    let right = cmd(&second_config, &["tr", "a-z", "A-Z"]);
    let err = left.pipe(right).expect_err("separate policy instances");
    assert!(matches!(err, ProcessError::ConfigMismatch));

    let left = cmd(&first_config, &["printf", "x"]);
    let right = cmd(&first_config, &["tr", "a-z", "A-Z"]);
    assert!(left.pipe(right).is_ok());
}

#[test]
fn signal_termination_maps_to_sentinel() {
    let config = Arc::new(Config::default());
    let result = cmd(&config, &["sh", "-c", "kill -9 $$"])
        .build()
        .run()
        .expect("the run itself succeeds; only the process dies");
    assert_eq!(result.status, -1);
    assert!(!result.success);
}

#[test]
fn pipe_builder_assembles_stages_in_order() {
    let config = Arc::new(Config::default());
    let mut pipeline = PipeBuilder::from_single(
        Arc::clone(&config),
        CommandSpec::new("printf".to_string(), strings(&["%s", "x"])),
    );
    pipeline.push_command(CommandSpec::new("tr".to_string(), strings(&["x", "y"])));
    let executor = pipeline.into_executor();
    assert_eq!(executor.commands.len(), 2);
    assert_eq!(executor.commands[0].program, "printf");
    assert_eq!(executor.commands[1].program, "tr");
    let result = executor.run().expect("pipeline should run");
    assert_eq!(result.stdout, "y");
}

#[test]
fn later_env_entry_for_the_same_key_wins() {
    let config = Arc::new(Config::default());
    let result = cmd(&config, &["env"])
        .with_env_var("PROCPIPE_DUP".to_string(), "first".to_string())
        .expect("key allowed")
        .with_env_var("PROCPIPE_DUP".to_string(), "second".to_string())
        .expect("key allowed")
        .build()
        .run()
        .expect("env should run");
    assert!(result.stdout.contains("PROCPIPE_DUP=second"));
    assert!(!result.stdout.contains("PROCPIPE_DUP=first"));
}
