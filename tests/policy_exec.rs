use tutodecode::commands::{command_response, exec_error_message};
use tutodecode::exec::{exit_code_of, finish_command, plan_command, CommandOutput, ExecError, RawOutput};
use tutodecode::policy::{command_name, is_allowed};
use tutodecode::stats::AppStats;

fn strings(v: &[&str]) -> Vec<String> {
    v.iter().map(|s| s.to_string()).collect()
}

fn policy_name(r: Result<tutodecode::exec::CommandPlan, ExecError>) -> Option<String> {
    match r {
        Err(ExecError::Policy(n)) => Some(n),
        _ => None,
    }
}

#[test]
fn rm_is_rejected_before_execution() {
    let r = plan_command("rm", &strings(&["-rf", "/"]));
    assert_eq!(policy_name(r), Some("rm".to_string()));
}

#[test]
fn unknown_and_empty_names_are_rejected() {
    for name in ["python", "bash", "sh", "", "   ", "gitx", "GIT", "rm -rf /"] {
        let r = plan_command(name, &Vec::new());
        assert!(policy_name(r).is_some(), "{:?} should be refused", name);
    }
}

#[test]
fn only_the_first_token_is_checked() {
    assert_eq!(command_name("  git status"), "git");
    assert_eq!(command_name("ls"), "ls");
    assert_eq!(command_name(" \t "), "");
    assert_eq!(policy_name(plan_command("cat; rm -rf /", &Vec::new())), Some("cat;".to_string()));
    match plan_command("git status", &Vec::new()) {
        Ok(p) => {
            assert_eq!(p.program, "git");
            assert!(p.args.is_empty());
        }
        Err(_) => panic!("git should pass"),
    }
}

#[test]
fn whitelist_members() {
    for name in ["cargo", "rustc", "rustup", "git", "echo", "pwd", "ls", "cat", "mkdir", "cp", "mv", "touch", "head", "tail", "grep"] {
        assert!(is_allowed(name), "{} should pass", name);
    }
    assert!(!is_allowed("rm"));
}

#[test]
fn metacharacters_stay_literal_arguments() {
    let args = strings(&["a; rm -rf /", "$(whoami)", "x | y", "`id`"]);
    match plan_command("echo", &args) {
        Ok(p) => {
            assert_eq!(p.program, "echo");
            assert_eq!(p.args, args);
        }
        Err(_) => panic!("echo should pass"),
    }
}

#[test]
fn finished_output_is_decoded_permissively() {
    let raw = RawOutput { stdout: b"hi\n".to_vec(), stderr: vec![0x66, 0xff, 0x6f], code: Some(3) };
    match finish_command(Ok(raw)) {
        Ok(out) => {
            assert_eq!(out.stdout, "hi\n");
            assert_eq!(out.stderr, "f\u{fffd}o");
            assert_eq!(out.exit_code, 3);
        }
        Err(_) => panic!("should succeed"),
    }
}

#[test]
fn missing_exit_code_becomes_minus_one() {
    assert_eq!(exit_code_of(None), -1);
    assert_eq!(exit_code_of(Some(0)), 0);
    let raw = RawOutput { stdout: vec![], stderr: vec![], code: None };
    match finish_command(Ok(raw)) {
        Ok(out) => assert_eq!(out.exit_code, -1),
        Err(_) => panic!("should succeed"),
    }
}

#[test]
fn spawn_failure_is_an_execution_error() {
    match finish_command(Err("No such file or directory".to_string())) {
        Err(ExecError::Execution(m)) => assert_eq!(m, "No such file or directory"),
        _ => panic!("expected an execution error"),
    }
}

#[test]
fn policy_error_message() {
    assert_eq!(exec_error_message(&ExecError::Policy("rm".to_string())), "Commande 'rm' non autorisée");
    assert_eq!(exec_error_message(&ExecError::Execution("boom".to_string())), "boom");
}

#[test]
fn command_response_counts_and_wraps() {
    let mut stats = AppStats::new();
    let ok = CommandOutput { stdout: "x".to_string(), stderr: String::new(), exit_code: 0 };
    let r = command_response(&mut stats, "ls", Ok(ok), 4);
    assert!(r.success);
    assert!(r.error.is_none());
    assert_eq!(r.data.map(|d| d.stdout), Some("x".to_string()));
    let r = command_response(&mut stats, "rm", Err(ExecError::Policy("rm".to_string())), 1);
    assert!(!r.success);
    assert!(r.data.is_none());
    assert_eq!(r.error, Some("Commande 'rm' non autorisée".to_string()));
    let r = command_response(&mut stats, "ls", Err(ExecError::Execution("not found".to_string())), 1);
    assert!(!r.success);
    assert!(r.data.is_none());
    assert_eq!(r.error, Some("not found".to_string()));
    assert_eq!(stats.commands_executed, 3);
    assert_eq!(stats.errors_count, 2);
    assert_eq!(stats.command_history.len(), 3);
    assert_eq!(stats.command_history[1].command, "rm");
    assert!(!stats.command_history[1].success);
    assert_eq!(stats.command_history[0].duration_ms, 4);
}

#[test]
fn the_checked_name_is_what_runs() {
    match plan_command("cat x/sh", &strings(&["-c", "id"])) {
        Ok(p) => {
            assert_eq!(p.program, "cat");
            assert_eq!(p.args, strings(&["-c", "id"]));
        }
        Err(_) => panic!("cat should pass"),
    }
}
