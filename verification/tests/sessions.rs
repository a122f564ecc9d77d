use syncgit::error::GitError;
use syncgit::exchange::{Block, Flow, Gate, Outcome, Question, Request, Response};
use syncgit::initialize::{
    default_ignore_text, default_repo_name, initialize_git_repo, name_or_new, Initialize,
};
use syncgit::process::CommandOutcome;
use syncgit::repo::GitRepo;
use syncgit::session::{is_no_upstream_complaint, Session};

fn args(parts: &[&str]) -> Vec<String> {
    parts.iter().map(|p| p.to_string()).collect()
}

fn text(s: &str) -> Response {
    Response::Text(Some(s.to_string()))
}

fn ok() -> Response {
    Response::Status(Ok(()))
}

fn run(current_dir: &str, answers: Vec<Response>) -> (Session, Vec<Request>) {
    let mut session = Session::new(current_dir.to_string());
    let asked = answers.into_iter().map(|a| session.step(a)).collect();
    (session, asked)
}

fn up_to_changes(root: &str) -> Vec<Response> {
    vec![
        Response::Done,
        text(root),
        Response::Ended(Outcome::Completed),
        Response::Ended(Outcome::Completed),
        ok(),
        Response::Ended(Outcome::Skipped),
        text("https://h/o/p.git"),
        ok(),
    ]
}

#[test]
fn scoped_no_op() {
    let mut answers = up_to_changes("/w/repo");
    answers.extend(vec![
        Response::Flag(true),
        Response::Flag(false),
        Response::Folders(vec!["docs".to_string()]),
        Response::Flag(true),
    ]);
    let (session, asked) = run("/w/repo/src", answers);
    assert_eq!(session.pathspec, "src");
    assert_eq!(asked[8], Request::HasChanges(Some("src".to_string())));
    assert_eq!(asked[9], Request::ListFolders(".".to_string()));
    assert_eq!(asked[10], Request::Finish(Outcome::Elsewhere(vec!["docs".to_string()])));
    assert!(matches!(asked[11], Request::Finish(_)));
    assert!(!asked.iter().any(|r| matches!(r, Request::StageCommit(_))));
    for request in &asked {
        if let Request::Run(a) = request {
            assert!(a[0] != "add" && a[0] != "commit");
        }
    }
}

#[test]
fn whole_run_with_a_remote() {
    let mut answers = up_to_changes("/w/repo");
    answers.extend(vec![
        Response::Flag(true),
        Response::Flag(true),
        Response::Ended(Outcome::Completed),
        text("\n"),
        Response::Flag(true),
        Response::Ended(Outcome::Completed),
    ]);
    let (session, asked) = run("/w/repo/src/deep", answers);
    assert_eq!(session.root, "/w/repo");
    assert_eq!(session.pathspec, "src/deep");
    assert_eq!(
        asked,
        vec![
            Request::Locate("/w/repo/src/deep".to_string()),
            Request::Sub(Flow::Preflight),
            Request::Sub(Flow::SyncStatus),
            Request::Run(args(&["status", "-sb"])),
            Request::Sub(Flow::PendingPushes),
            Request::RemoteUrl,
            Request::Run(args(&["pull", "--"])),
            Request::HasChanges(None),
            Request::HasChanges(Some("src/deep".to_string())),
            Request::StageCommit("src/deep".to_string()),
            Request::Acknowledge(Gate::Push),
            Request::Internet,
            Request::Sub(Flow::Publish),
            Request::Finish(Outcome::Completed),
        ]
    );
}

#[test]
fn run_at_the_root_is_scoped_to_the_dot() {
    let (session, _) = run("/w/repo", vec![Response::Done, text("/w/repo")]);
    assert_eq!(session.pathspec, ".");
}

#[test]
fn no_changes_anywhere_still_goes_through_the_staging() {
    let mut answers = up_to_changes("/w/repo");
    answers.extend(vec![
        Response::Flag(false),
        Response::Flag(false),
        Response::Ended(Outcome::Failed(GitError::NoChanges)),
    ]);
    let (_, asked) = run("/w/repo", answers);
    assert_eq!(asked[9], Request::StageCommit(".".to_string()));
    assert_eq!(asked[10], Request::Finish(Outcome::Failed(GitError::NoChanges)));
}

#[test]
fn pull_without_upstream_is_no_failure() {
    let complaint = GitError::CommandFailed(
        "git command failed with status exit status: 1: git pull --\nError: There is no tracking information for the current branch."
            .to_string(),
    );
    let mut answers = up_to_changes("/w/repo");
    answers.pop();
    answers.push(Response::Status(Err(complaint)));
    let (_, asked) = run("/w/repo", answers);
    assert_eq!(asked[7], Request::HasChanges(None));

    let failure = GitError::CommandFailed("could not resolve host".to_string());
    let mut answers = up_to_changes("/w/repo");
    answers.pop();
    answers.push(Response::Status(Err(failure.duplicate())));
    let (_, asked) = run("/w/repo", answers);
    assert_eq!(asked[7], Request::Finish(Outcome::Failed(failure)));
}

#[test]
fn complaint_about_the_upstream_is_recognised() {
    assert!(is_no_upstream_complaint("fatal: no upstream configured for branch 'x'"));
    assert!(is_no_upstream_complaint("There is no tracking information for the current branch."));
    assert!(!is_no_upstream_complaint("fatal: unable to access"));
    assert!(!is_no_upstream_complaint(""));
}

#[test]
fn blocked_guard_ends_the_run() {
    let (_, asked) = run(
        "/w/repo",
        vec![
            Response::Done,
            text("/w/repo"),
            Response::Ended(Outcome::Blocked(Block::UnresolvedConflicts)),
            Response::Ended(Outcome::Completed),
        ],
    );
    assert_eq!(asked[1], Request::Sub(Flow::Preflight));
    assert_eq!(asked[2], Request::Finish(Outcome::Blocked(Block::UnresolvedConflicts)));
    assert!(matches!(asked[3], Request::Finish(_)));
    assert!(!asked.iter().any(|r| matches!(
        r,
        Request::Sub(Flow::SyncStatus) | Request::Sub(Flow::PendingPushes) | Request::Run(_)
    )));
}

#[test]
fn failed_pending_push_ends_the_run() {
    let (_, asked) = run(
        "/w/repo",
        vec![
            Response::Done,
            text("/w/repo"),
            Response::Ended(Outcome::Completed),
            Response::Ended(Outcome::Completed),
            ok(),
            Response::Ended(Outcome::Failed(GitError::NoToken)),
        ],
    );
    assert_eq!(asked[4], Request::Sub(Flow::PendingPushes));
    assert_eq!(asked[5], Request::Finish(Outcome::Failed(GitError::NoToken)));
}

#[test]
fn failed_sync_check_is_only_a_warning() {
    let (_, asked) = run(
        "/w/repo",
        vec![
            Response::Done,
            text("/w/repo"),
            Response::Ended(Outcome::Completed),
            Response::Ended(Outcome::Failed(GitError::CommandFailed("fetch".to_string()))),
        ],
    );
    assert_eq!(asked[3], Request::Run(args(&["status", "-sb"])));
}

fn committed_without_remote() -> Vec<Response> {
    vec![
        Response::Done,
        text("/w/repo"),
        Response::Ended(Outcome::Completed),
        Response::Ended(Outcome::Completed),
        ok(),
        Response::Ended(Outcome::Skipped),
        Response::Text(None),
        Response::Flag(true),
        Response::Flag(true),
        Response::Ended(Outcome::Completed),
    ]
}

#[test]
fn commit_without_a_remote_offers_to_create_one() {
    let mut answers = committed_without_remote();
    answers.push(Response::Flag(true));
    answers.push(Response::Ended(Outcome::Unpublished(vec!["git push".to_string()])));
    let (_, asked) = run("/w/repo", answers);
    assert_eq!(asked[6], Request::HasChanges(None));
    assert_eq!(asked[9], Request::Confirm(Question::CreateRemote));
    assert_eq!(asked[10], Request::CreateRemote("repo".to_string()));
    assert_eq!(asked[11], Request::Finish(Outcome::Unpublished(vec!["git push".to_string()])));

    let mut declined = committed_without_remote();
    declined.push(Response::Flag(false));
    let (_, asked) = run("/w/repo", declined);
    assert_eq!(asked[10], Request::Finish(Outcome::Completed));
}

#[test]
fn push_waits_for_enter_and_the_network() {
    let mut answers = up_to_changes("/w/repo");
    answers.extend(vec![
        Response::Flag(true),
        Response::Flag(true),
        Response::Ended(Outcome::Completed),
        Response::Text(None),
    ]);
    let (_, asked) = run("/w/repo", answers);
    assert_eq!(asked[11], Request::Finish(Outcome::Cancelled));

    let mut answers = up_to_changes("/w/repo");
    answers.extend(vec![
        Response::Flag(true),
        Response::Flag(true),
        Response::Ended(Outcome::Completed),
        text("\n"),
        Response::Flag(false),
    ]);
    let (_, asked) = run("/w/repo", answers);
    assert_eq!(asked[12], Request::Finish(Outcome::Unpublished(vec!["git push".to_string()])));
    assert!(!asked.iter().any(|r| matches!(r, Request::Run(a) if a[0] == "push")));
}

#[test]
fn outcome_of_the_push_is_the_outcome_of_the_run() {
    let manual = vec!["git push -u origin main".to_string()];
    let mut answers = up_to_changes("/w/repo");
    answers.extend(vec![
        Response::Flag(true),
        Response::Flag(true),
        Response::Ended(Outcome::Completed),
        text("\n"),
        Response::Flag(true),
        Response::Ended(Outcome::Unpublished(manual.clone())),
    ]);
    let (_, asked) = run("/w/repo", answers);
    assert_eq!(asked[12], Request::Sub(Flow::Publish));
    assert_eq!(asked[13], Request::Finish(Outcome::Unpublished(manual)));
}

#[test]
fn scope_is_normalized_once() {
    let (session, _) = run("/w/repo/a\\b", vec![Response::Done, text("/w/repo")]);
    assert_eq!(session.pathspec, "a/b");
}

#[test]
fn cancelled_commit_ends_the_run_as_cancelled() {
    let mut answers = up_to_changes("/w/repo");
    answers.extend(vec![
        Response::Flag(true),
        Response::Flag(true),
        Response::Ended(Outcome::Cancelled),
    ]);
    let (_, asked) = run("/w/repo", answers);
    assert_eq!(asked[10], Request::Finish(Outcome::Cancelled));
}

#[test]
fn no_repository_offers_to_make_one() {
    let (_, asked) = run("/w/new", vec![Response::Done, Response::Text(None), Response::Flag(false)]);
    assert_eq!(asked[1], Request::Confirm(Question::InitializeRepository));
    assert_eq!(asked[2], Request::Finish(Outcome::Skipped));

    let (session, asked) = run(
        "/w/new",
        vec![
            Response::Done,
            Response::Text(None),
            Response::Flag(true),
            Response::Ended(Outcome::Completed),
            Response::Flag(true),
            Response::Ended(Outcome::Completed),
        ],
    );
    assert_eq!(asked[2], Request::Sub(Flow::Initialize));
    assert_eq!(asked[3], Request::Confirm(Question::CreateRemote));
    assert_eq!(asked[4], Request::CreateRemote("new".to_string()));
    assert_eq!(asked[5], Request::Finish(Outcome::Completed));
    assert_eq!(session.root, "/w/new");
    assert_eq!(session.pathspec, ".");
}

#[test]
fn new_repository_without_remote_goes_on_with_the_run() {
    let (_, asked) = run(
        "/w/new",
        vec![
            Response::Done,
            Response::Text(None),
            Response::Flag(true),
            Response::Ended(Outcome::Completed),
            Response::Flag(true),
            Response::Ended(Outcome::Failed(GitError::NoToken)),
            Response::Ended(Outcome::Completed),
        ],
    );
    assert_eq!(asked[5], Request::Sub(Flow::Preflight));
    assert_eq!(asked[6], Request::Sub(Flow::SyncStatus));
}

fn initialize(answers: Vec<Response>) -> Vec<Request> {
    let mut flow = Initialize::new();
    answers.into_iter().map(|a| flow.step(a)).collect()
}

fn exited(success: bool) -> Response {
    Response::Captured(Ok(CommandOutcome { success, stdout: vec![], stderr: vec![] }))
}

#[test]
fn new_repository_gets_main_an_ignore_file_and_a_commit() {
    let asked = initialize(vec![
        Response::Done,
        exited(true),
        Response::Output(Ok("master\n".to_string())),
        ok(),
        Response::Flag(false),
        ok(),
        ok(),
        Response::Flag(true),
        ok(),
    ]);
    assert_eq!(
        asked,
        vec![
            Request::Capture(args(&["init", "-b", "main"])),
            Request::Query(args(&["rev-parse", "--abbrev-ref", "HEAD"])),
            Request::Run(args(&["branch", "-m", "master", "main"])),
            Request::Exists(".gitignore".to_string()),
            Request::Write(".gitignore".to_string(), default_ignore_text()),
            Request::Run(args(&["add", "--all"])),
            Request::HasChanges(None),
            Request::Run(args(&["commit", "-m", "Initial commit"])),
            Request::Finish(Outcome::Completed),
        ]
    );
}

#[test]
fn existing_ignore_file_is_kept_and_empty_tree_not_committed() {
    let asked = initialize(vec![
        Response::Done,
        exited(true),
        Response::Output(Ok("main".to_string())),
        Response::Flag(true),
        ok(),
        Response::Flag(false),
    ]);
    assert_eq!(asked[2], Request::Exists(".gitignore".to_string()));
    assert_eq!(asked[3], Request::Run(args(&["add", "--all"])));
    assert_eq!(asked[5], Request::Finish(Outcome::Completed));
    assert!(!asked.iter().any(|r| matches!(r, Request::Write(_, _))));
}

#[test]
fn failed_initialisation_is_explained() {
    assert_eq!(
        initialize(vec![Response::Done, exited(false)])[1],
        Request::Finish(Outcome::Failed(GitError::Other(
            "Failed to initialize Git repository".to_string()
        )))
    );
    assert_eq!(
        initialize(vec![Response::Done, Response::Captured(Err("no git".to_string()))])[1],
        Request::Finish(Outcome::Failed(GitError::Other(
            "Failed to run git init: no git".to_string()
        )))
    );
    assert_eq!(
        initialize(vec![
            Response::Done,
            exited(true),
            Response::Output(Ok("master".to_string())),
            Response::Status(Err(GitError::CommandFailed("locked".to_string()))),
        ])[3],
        Request::Finish(Outcome::Failed(GitError::Other(
            "Failed to rename branch to main: Command failed: locked".to_string()
        )))
    );
    assert_eq!(
        initialize(vec![
            Response::Done,
            exited(true),
            Response::Output(Err(GitError::NoChanges)),
            Response::Flag(false),
            Response::Status(Err(GitError::Other("disk full".to_string()))),
        ])[4],
        Request::Finish(Outcome::Failed(GitError::Other(
            "Failed to create .gitignore: disk full".to_string()
        )))
    );
}

#[test]
fn ignore_file_names_what_tools_leave_behind() {
    let content = default_ignore_text();
    assert!(content.starts_with("# Default .gitignore for new repositories\n"));
    for pattern in [".DS_Store", "Thumbs.db", "target/", "**/*.rs.bk", ".idea", ".vscode", "*.swp", "*~"] {
        assert!(content.lines().any(|l| l == pattern), "{}", pattern);
    }
}

#[test]
fn new_repository_is_named_after_its_directory() {
    assert_eq!(default_repo_name("/w/tools"), "tools");
    assert_eq!(default_repo_name("/"), "new-repo");
    assert_eq!(name_or_new(Some(String::new())), "new-repo");
    assert_eq!(name_or_new(None), "new-repo");
    assert_eq!(name_or_new(Some("x".to_string())), "x");
    assert_eq!(
        initialize_git_repo("/w/tools"),
        GitRepo { root: "/w/tools".to_string(), name: "tools".to_string() }
    );
}
