use syncgit::error::GitError;
use syncgit::process::{
    describe_exit_failure, is_sensitive, note, CommandOutcome, Invocation, Launch, RootState,
    RunReport,
};
use syncgit::repo::GitRepo;

fn repo() -> GitRepo {
    GitRepo { root: "/w/repo".to_string(), name: "repo".to_string() }
}

fn args(parts: &[&str]) -> Vec<String> {
    parts.iter().map(|p| p.to_string()).collect()
}

fn exited(success: bool, stdout: &[u8], stderr: &[u8]) -> Launch {
    let status = if success { "exit status: 0" } else { "exit status: 1" };
    Launch::Exited(
        status.to_string(),
        CommandOutcome { success, stdout: stdout.to_vec(), stderr: stderr.to_vec() },
    )
}

#[test]
fn root_must_be_a_usable_directory() {
    let r = repo();
    assert_eq!(r.check_root(&RootState::Usable), Ok(()));
    assert_eq!(
        r.check_root(&RootState::Missing),
        Err(GitError::CommandFailed(
            "Repository root directory does not exist: /w/repo".to_string()
        ))
    );
    assert_eq!(
        r.check_root(&RootState::NotDirectory),
        Err(GitError::CommandFailed("Repository root is not a directory: /w/repo".to_string()))
    );
    assert_eq!(
        r.check_root(&RootState::Unreadable("denied".to_string())),
        Err(GitError::CommandFailed(
            "Cannot access repository directory /w/repo: denied".to_string()
        ))
    );
    assert_eq!(
        r.check_root(&RootState::ReadOnly),
        Err(GitError::CommandFailed(
            "Insufficient permissions to read repository: /w/repo".to_string()
        ))
    );
}

#[test]
fn command_runs_in_the_root_with_discrete_arguments() {
    let r = repo();
    assert_eq!(
        r.plain_command(&args(&["add", "--", "my dir; rm -rf /"])),
        vec!["-C", "/w/repo", "add", "--", "my dir; rm -rf /"]
    );
    assert_eq!(r.plain_command(&args(&[])), vec!["-C", "/w/repo"]);
    assert_eq!(
        r.create_command(&args(&["push", "--"]), Some("SECRET-REDACTED".to_string())),
        Invocation {
            args: args(&["-C", "/w/repo", "push", "--"]),
            token: Some("SECRET-REDACTED".to_string()),
        }
    );
    assert_eq!(
        r.create_command(&args(&["status"]), None),
        Invocation { args: args(&["-C", "/w/repo", "status"]), token: None }
    );
}

#[test]
fn remote_commands_are_sensitive() {
    assert!(is_sensitive(&args(&["push", "--"])));
    assert!(is_sensitive(&args(&["-v", "pull"])));
    assert!(is_sensitive(&args(&["fetch", "origin"])));
    assert!(is_sensitive(&args(&["remote", "add", "origin", "u"])));
    assert!(!is_sensitive(&args(&["status", "-sb"])));
    assert!(!is_sensitive(&args(&["commit", "-m", "pushed"])));
    assert!(!is_sensitive(&args(&[])));
}

#[test]
fn note_is_the_trimmed_output_if_any() {
    assert_eq!(note(&b"  hello\n".to_vec()), Some("hello".to_string()));
    assert_eq!(note(&b"\n \t".to_vec()), None);
    assert_eq!(note(&vec![]), None);
    assert_eq!(note(&vec![0x61, 0xff, 0x62]), Some("a\u{fffd}b".to_string()));
}

#[test]
fn successful_command_reports_its_output() {
    let report = repo().run_command(&args(&["status"]), &exited(true, b"clean\n", b"hint\n"));
    assert_eq!(
        report,
        RunReport {
            stderr_note: Some("hint".to_string()),
            stdout_note: Some("clean".to_string()),
            result: Ok(()),
        }
    );
}

#[test]
fn sensitive_command_keeps_its_output_back() {
    let report = repo().run_command(&args(&["push", "--"]), &exited(true, b"To remote\n", b""));
    assert_eq!(report, RunReport { stderr_note: None, stdout_note: None, result: Ok(()) });
}

#[test]
fn failed_command_names_itself_and_the_error() {
    let report = repo().run_command(
        &args(&["commit", "-m", "x"]),
        &exited(false, b"", b" nothing to commit \n"),
    );
    assert_eq!(report.stderr_note, Some("nothing to commit".to_string()));
    assert_eq!(report.stdout_note, None);
    assert_eq!(
        report.result,
        Err(GitError::CommandFailed(
            "git command failed with status exit status: 1: git commit -m x\nError: nothing to commit"
                .to_string()
        ))
    );
}

#[test]
fn command_that_cannot_start_or_end_fails() {
    let r = repo();
    assert_eq!(
        r.run_command(&args(&["status"]), &Launch::SpawnFailed("no such file".to_string())),
        RunReport {
            stderr_note: None,
            stdout_note: None,
            result: Err(GitError::CommandFailed(
                "Failed to spawn git command: no such file".to_string()
            )),
        }
    );
    assert_eq!(
        r.run_command(&args(&["status"]), &Launch::WaitFailed("interrupted".to_string())).result,
        Err(GitError::CommandFailed("Failed to wait for git command: interrupted".to_string()))
    );
}

#[test]
fn output_is_trimmed_text() {
    let r = repo();
    assert_eq!(
        r.run_command_with_output(&args(&["rev-parse"]), &exited(true, b"  main\n", b"")),
        Ok("main".to_string())
    );
    assert_eq!(
        r.run_command_with_output(&args(&["rev-parse"]), &exited(true, b"", b"")),
        Ok(String::new())
    );
}

#[test]
fn output_of_a_failure_is_an_error() {
    let r = repo();
    assert_eq!(
        r.run_command_with_output(
            &args(&["rev-parse", "HEAD"]),
            &exited(false, b"main\n", b"fatal: bad\n")
        ),
        Err(GitError::CommandFailed(
            "git command failed with status exit status: 1: rev-parse HEAD\nError: fatal: bad"
                .to_string()
        ))
    );
    assert_eq!(
        r.run_command_with_output(&args(&["x"]), &Launch::SpawnFailed("gone".to_string())),
        Err(GitError::CommandFailed("Failed to execute git command: gone".to_string()))
    );
    assert_eq!(
        r.run_command_with_output(&args(&["x"]), &exited(true, &[0xc3, 0x28], b"")),
        Err(GitError::CommandFailed("Failed to parse command output".to_string()))
    );
}

#[test]
fn exit_failure_joins_the_arguments() {
    assert_eq!(
        describe_exit_failure("git ", "signal: 9", &args(&["a", "b c"]), &b"boom".to_vec()),
        GitError::CommandFailed(
            "git command failed with status signal: 9: git a b c\nError: boom".to_string()
        )
    );
}
