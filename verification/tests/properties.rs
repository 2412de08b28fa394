use shellcommand::about;
use shellcommand::ShellCommand;

#[test]
fn about_text_is_exact() {
    assert_eq!(
        about(),
        "A simple library to run shell commands in rust programs"
    );
}

#[test]
fn program_name_survives_builder_calls() {
    let cmd = ShellCommand::new("echo");
    assert_eq!(cmd.command().as_str(), "echo");
    let cmd = cmd.args(vec!["hello".to_string()]);
    assert_eq!(cmd.command().as_str(), "echo");
    let cmd = cmd.envs(vec![("TESTVAR".to_string(), "value1".to_string())]);
    assert_eq!(cmd.command().as_str(), "echo");
    let cmd = cmd.pipe_string("ignored");
    assert_eq!(cmd.command().as_str(), "echo");
}

#[test]
fn args_batches_accumulate_in_order() {
    let cmd = ShellCommand::new("echo")
        .args(vec!["one".to_string(), "two".to_string()])
        .args(vec!["three".to_string()]);
    let output = cmd.run().unwrap();
    assert!(output.success);
    assert_eq!(output.stdout, "one two three\n");
}

#[test]
fn empty_args_batch_changes_nothing() {
    let cmd = ShellCommand::new("echo")
        .args(vec![])
        .args(vec!["solo".to_string()]);
    let output = cmd.run().unwrap();
    assert_eq!(output.stdout, "solo\n");
}

#[test]
fn env_later_batch_wins() {
    let cmd = ShellCommand::new("printenv")
        .args(vec!["TESTVAR".to_string()])
        .envs(vec![("TESTVAR".to_string(), "value1".to_string())])
        .envs(vec![("TESTVAR".to_string(), "value2".to_string())]);
    let output = cmd.run().unwrap();
    assert_eq!(output.stdout, "value2\n");
}

#[test]
fn env_later_pair_wins_within_one_batch() {
    let cmd = ShellCommand::new("printenv")
        .args(vec!["TESTVAR".to_string()])
        .envs(vec![
            ("TESTVAR".to_string(), "value1".to_string()),
            ("TESTVAR".to_string(), "value2".to_string()),
        ]);
    let output = cmd.run().unwrap();
    assert_eq!(output.stdout, "value2\n");
}

#[test]
fn env_overlays_rather_than_replaces() {
    // PATH comes from the inherited environment; an unrelated override must
    // not wipe it out.
    let cmd = ShellCommand::new("printenv")
        .args(vec!["PATH".to_string()])
        .envs(vec![("TESTVAR".to_string(), "value1".to_string())]);
    let output = cmd.run().unwrap();
    assert!(output.success);
    assert!(!output.stdout.is_empty());
}

#[test]
fn env_overlay_yields_both_lines() {
    let cmd = ShellCommand::new("printenv").envs(vec![
        ("TESTVAR".to_string(), "value1".to_string()),
        ("ANOTHERVAR".to_string(), "value2".to_string()),
    ]);
    let output = cmd.run().unwrap();
    assert!(output.stdout.lines().any(|line| line == "TESTVAR=value1"));
    assert!(output.stdout.lines().any(|line| line == "ANOTHERVAR=value2"));
}

#[test]
fn round_trip_through_grep() {
    let cmd = ShellCommand::new("grep")
        .args(vec!["a.".to_string()])
        .pipe_string("x\nay\nz\n");
    let output = cmd.run().unwrap();
    assert!(output.success);
    assert_eq!(output.stdout, "ay\n");
    assert_eq!(output.stderr, "");
}

#[test]
fn last_piped_string_wins() {
    let cmd = ShellCommand::new("cat").pipe_string("first").pipe_string("second");
    let output = cmd.run().unwrap();
    assert_eq!(output.stdout, "second");
}

#[test]
fn failure_path_carries_full_outcome() {
    let cmd = ShellCommand::new("grep")
        .args(vec!["nomatch".to_string()])
        .pipe_string("abc\n");
    let output = cmd.run();
    assert!(output.is_err());
    let payload = output.unwrap_err();
    assert!(!payload.success);
    assert_eq!(payload.stdout, "");
    let cmd = ShellCommand::new("grep")
        .args(vec!["nomatch".to_string()])
        .pipe_string("abc\n");
    let plain = cmd.result();
    assert!(!plain.success);
    assert_eq!(plain.stdout, "");
}

#[test]
fn run_and_result_report_identical_fields() {
    // A deterministic child: both entry points must report the same outcome
    // fields; only the channel differs.
    let via_run = ShellCommand::new("echo")
        .args(vec!["same".to_string()])
        .run()
        .unwrap();
    let via_result = ShellCommand::new("echo")
        .args(vec!["same".to_string()])
        .result();
    assert_eq!(via_run.success, via_result.success);
    assert_eq!(via_run.stdout, via_result.stdout);
    assert_eq!(via_run.stderr, via_result.stderr);
}

#[test]
fn chaining_through_a_string_matches_a_native_pipe() {
    // `printf 'x\nay\nz\n' | grep a.` would print "ay"; capturing first and
    // piping the captured text reproduces that.
    let first = ShellCommand::new("printf")
        .args(vec!["x\\nay\\nz\\n".to_string()])
        .run()
        .unwrap();
    let second = ShellCommand::new("grep")
        .args(vec!["a.".to_string()])
        .pipe_string(&first.stdout);
    let output = second.run().unwrap();
    assert_eq!(output.stdout, "ay\n");
}
