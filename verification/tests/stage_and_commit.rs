use syncgit::error::GitError;
use syncgit::exchange::{Gate, Outcome, Prompt, Request, Response};
use syncgit::process::CommandOutcome;
use syncgit::stage_commit::{is_acknowledged, Stage, StageCommit};

fn args(parts: &[&str]) -> Vec<String> {
    parts.iter().map(|p| p.to_string()).collect()
}

fn line(s: &str) -> Response {
    Response::Text(Some(s.to_string()))
}

fn exit(success: bool) -> Response {
    Response::Captured(Ok(CommandOutcome { success, stdout: vec![], stderr: vec![] }))
}

fn run(pathspec: &str, answers: Vec<Response>) -> (StageCommit, Vec<Request>) {
    let mut flow = StageCommit::new(pathspec.to_string());
    let mut asked = Vec::new();
    for answer in answers {
        asked.push(flow.step(answer));
    }
    (flow, asked)
}

fn up_to_message() -> Vec<Response> {
    vec![
        Response::Done,
        Response::Done,
        Response::Flag(true),
        line("\n"),
        Response::Status(Ok(())),
        exit(false),
        Response::Status(Ok(())),
        line("\n"),
    ]
}

#[test]
fn full_run_stages_and_commits_the_pathspec_only() {
    let mut answers = up_to_message();
    answers.push(line("  fix the thing \n"));
    answers.push(Response::Status(Ok(())));
    let (flow, asked) = run("src", answers);
    assert_eq!(
        asked,
        vec![
            Request::ShowStatus("src".to_string()),
            Request::HasChanges(Some("src".to_string())),
            Request::Acknowledge(Gate::Stage),
            Request::Run(args(&["add", "--", "src"])),
            Request::Capture(args(&["diff", "--cached", "--quiet", "--", "src"])),
            Request::Run(args(&["diff", "--cached", "--stat", "--", "src"])),
            Request::Acknowledge(Gate::Commit),
            Request::Ask(Prompt::CommitMessage),
            Request::Run(args(&["commit", "-m", "fix the thing", "--", "src"])),
            Request::Finish(Outcome::Completed),
        ]
    );
    assert_eq!(flow.stage, Stage::Ended);
    assert_eq!(flow.pathspec, "src");
}

#[test]
fn every_path_named_is_the_pathspec() {
    let mut answers = up_to_message();
    answers.push(line("message"));
    answers.push(Response::Status(Ok(())));
    let (_, asked) = run("docs/guide", answers);
    for request in asked {
        match request {
            Request::Run(a) | Request::Capture(a) => {
                let at = a.iter().position(|x| x == "--").unwrap();
                assert_eq!(a[at + 1..].to_vec(), vec!["docs/guide".to_string()]);
                assert!(!a.iter().any(|x| x == "." || x == "--all" || x == "-A" || x == "-a"));
            }
            Request::HasChanges(scope) => assert_eq!(scope, Some("docs/guide".to_string())),
            Request::ShowStatus(scope) => assert_eq!(scope, "docs/guide"),
            Request::Acknowledge(_) | Request::Ask(_) | Request::Finish(_) => {}
            other => panic!("not expected: {:?}", other),
        }
    }
}

#[test]
fn nothing_to_stage_is_no_changes() {
    let (flow, asked) = run("src", vec![Response::Done, Response::Done, Response::Flag(false)]);
    assert_eq!(asked[2], Request::Finish(Outcome::Failed(GitError::NoChanges)));
    assert_eq!(flow.stage, Stage::Ended);
}

#[test]
fn zero_net_change_is_no_changes_and_no_commit() {
    let answers = vec![
        Response::Done,
        Response::Done,
        Response::Flag(true),
        line(""),
        Response::Status(Ok(())),
        exit(true),
        line(""),
        line("a message"),
        Response::Status(Ok(())),
    ];
    let (_, asked) = run("src", answers);
    assert_eq!(asked[5], Request::Finish(Outcome::Failed(GitError::NoChanges)));
    for request in &asked[5..] {
        assert!(matches!(request, Request::Finish(_)));
    }
    for request in &asked {
        if let Request::Run(a) = request {
            assert_ne!(a[0], "commit");
        }
    }
}

#[test]
fn unreadable_staged_diff_is_no_changes() {
    let answers = vec![
        Response::Done,
        Response::Done,
        Response::Flag(true),
        line(""),
        Response::Status(Ok(())),
        Response::Captured(Err("cannot run".to_string())),
    ];
    let (_, asked) = run("src", answers);
    assert_eq!(asked[5], Request::Finish(Outcome::Failed(GitError::NoChanges)));
}

#[test]
fn empty_message_is_no_commit_message_and_no_commit() {
    for message in ["", "   ", "\n", "\t \r\n"] {
        let mut answers = up_to_message();
        answers.push(line(message));
        answers.push(Response::Status(Ok(())));
        let (_, asked) = run("src", answers);
        assert_eq!(asked[8], Request::Finish(Outcome::Failed(GitError::NoCommitMessage)));
        assert!(matches!(asked[9], Request::Finish(_)));
        for request in &asked {
            if let Request::Run(a) = request {
                assert_ne!(a[0], "commit");
            }
        }
    }
}

#[test]
fn unread_message_is_no_commit_message() {
    let mut answers = up_to_message();
    answers.push(Response::Text(None));
    let (_, asked) = run("src", answers);
    assert_eq!(asked[8], Request::Finish(Outcome::Failed(GitError::NoCommitMessage)));
}

#[test]
fn anything_but_enter_cancels_before_staging() {
    for answer in [line("no"), line("q\n"), Response::Text(None)] {
        let (_, asked) =
            run("src", vec![Response::Done, Response::Done, Response::Flag(true), answer]);
        assert_eq!(asked[3], Request::Finish(Outcome::Cancelled));
        assert!(!asked.iter().any(|r| matches!(r, Request::Run(_))));
    }
}

#[test]
fn anything_but_enter_cancels_before_committing() {
    for answer in [line("wait"), Response::Text(None)] {
        let mut answers = up_to_message();
        answers.pop();
        answers.push(answer);
        let (_, asked) = run("src", answers);
        assert_eq!(asked[7], Request::Finish(Outcome::Cancelled));
    }
}

#[test]
fn failed_command_ends_the_run_with_its_error() {
    let failure = GitError::CommandFailed("git add failed".to_string());
    let answers = vec![
        Response::Done,
        Response::Done,
        Response::Flag(true),
        line(""),
        Response::Status(Err(failure.duplicate())),
    ];
    let (_, asked) = run("src", answers);
    assert_eq!(asked[4], Request::Finish(Outcome::Failed(failure)));

    let failure = GitError::CommandFailed("git commit failed".to_string());
    let mut answers = up_to_message();
    answers.push(line("m"));
    answers.push(Response::Status(Err(failure.duplicate())));
    let (_, asked) = run("src", answers);
    assert_eq!(asked[9], Request::Finish(Outcome::Failed(failure)));
}

#[test]
fn answer_out_of_turn_ends_the_run() {
    let (_, asked) = run("src", vec![Response::Done, Response::Flag(true)]);
    assert_eq!(
        asked[1],
        Request::Finish(Outcome::Failed(GitError::Other("unexpected answer".to_string())))
    );
}

#[test]
fn acknowledgement_is_a_blank_line() {
    assert!(is_acknowledged(&Some("\n".to_string())));
    assert!(is_acknowledged(&Some(String::new())));
    assert!(!is_acknowledged(&Some("y".to_string())));
    assert!(!is_acknowledged(&None));
}
