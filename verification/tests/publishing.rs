use syncgit::auth::ConfigureAuth;
use syncgit::create_remote::{branch_name, manual_push_commands, CreateRemote};
use syncgit::divergence::{DivergenceCount, DivergenceTracker};
use syncgit::error::GitError;
use syncgit::exchange::{ApiCall, Block, Flow, Outcome, Prompt, Question, Request, Response};
use syncgit::pending::PendingPushes;
use syncgit::preflight::{check, Preflight, Verdict};
use syncgit::process::CommandOutcome;
use syncgit::publish::Publish;
use syncgit::sync_status::SyncStatus;

fn args(parts: &[&str]) -> Vec<String> {
    parts.iter().map(|p| p.to_string()).collect()
}

fn text(s: &str) -> Response {
    Response::Text(Some(s.to_string()))
}

fn captured(success: bool, stdout: &[u8]) -> Response {
    Response::Captured(Ok(CommandOutcome { success, stdout: stdout.to_vec(), stderr: vec![] }))
}

fn ok() -> Response {
    Response::Status(Ok(()))
}

fn failed(detail: &str) -> Response {
    Response::Status(Err(GitError::CommandFailed(detail.to_string())))
}

fn create(answers: Vec<Response>) -> Vec<Request> {
    let mut flow = CreateRemote::new("proj".to_string());
    answers.into_iter().map(|a| flow.step(a)).collect()
}

fn pending(answers: Vec<Response>) -> Vec<Request> {
    let mut flow = PendingPushes::new();
    answers.into_iter().map(|a| flow.step(a)).collect()
}

fn guard(answers: Vec<Response>) -> Vec<Request> {
    let mut flow = Preflight::new();
    answers.into_iter().map(|a| flow.step(a)).collect()
}

fn auth(answers: Vec<Response>) -> Vec<Request> {
    let mut flow = ConfigureAuth::new();
    answers.into_iter().map(|a| flow.step(a)).collect()
}

fn sync(answers: Vec<Response>) -> Vec<Request> {
    let mut flow = SyncStatus::new();
    answers.into_iter().map(|a| flow.step(a)).collect()
}

fn creation_call(body: &str) -> Request {
    Request::Http(ApiCall {
        url: "https://api.github.com/user/repos".to_string(),
        authorization: "Bearer SECRET-REDACTED".to_string(),
        body: Some(body.to_string()),
    })
}

fn described() -> Vec<Response> {
    vec![
        Response::Done,
        Response::Flag(true),
        text("SECRET-REDACTED"),
        text("\n"),
        text("\n"),
        Response::Flag(false),
    ]
}

#[test]
fn ahead_with_no_token() {
    let asked = pending(vec![
        Response::Done,
        Response::Counts(3, 0),
        Response::Flag(true),
        Response::Text(None),
        Response::Flag(true),
        ok(),
    ]);
    assert_eq!(
        asked[..4],
        vec![
            Request::Divergence,
            Request::Confirm(Question::PushExistingFirst),
            Request::Token,
            Request::Finish(Outcome::Failed(GitError::NoToken)),
        ]
    );
    assert!(!asked.iter().any(|r| matches!(r, Request::Run(_))));
    assert!(asked[4..].iter().all(|r| matches!(r, Request::Finish(_))));
}

#[test]
fn ahead_with_no_network() {
    let asked = pending(vec![
        Response::Done,
        Response::Counts(1, 4),
        Response::Flag(true),
        text("SECRET-REDACTED"),
        Response::Flag(false),
    ]);
    assert_eq!(asked[3], Request::Internet);
    assert_eq!(asked[4], Request::Finish(Outcome::Failed(GitError::NoInternet)));
    assert!(!asked.iter().any(|r| matches!(r, Request::Run(_))));
}

#[test]
fn in_sync_never_offers_a_push() {
    for behind in [0usize, 5] {
        let asked = pending(vec![
            Response::Done,
            Response::Counts(0, behind),
            Response::Flag(true),
            text("SECRET-REDACTED"),
        ]);
        assert_eq!(asked[1], Request::Finish(Outcome::Skipped));
        assert!(asked.iter().all(|r| !matches!(
            r,
            Request::Run(_) | Request::Confirm(_) | Request::Token | Request::Internet
        )));
    }
}

#[test]
fn ahead_and_accepted_pushes_after_the_set_up() {
    let asked = pending(vec![
        Response::Done,
        Response::Counts(2, 0),
        Response::Flag(true),
        text("SECRET-REDACTED"),
        Response::Flag(true),
        Response::Ended(Outcome::Completed),
        ok(),
    ]);
    assert_eq!(
        asked[4..],
        vec![
            Request::Sub(Flow::ConfigureAuth),
            Request::Run(args(&["push", "--"])),
            Request::Finish(Outcome::Completed),
        ]
    );
}

#[test]
fn ahead_and_declined_is_skipped() {
    let asked = pending(vec![Response::Done, Response::Counts(2, 0), Response::Flag(false)]);
    assert_eq!(asked[2], Request::Finish(Outcome::Skipped));
}

#[test]
fn verdict_takes_the_first_that_holds() {
    assert_eq!(check(false, false, false), Verdict::Clear);
    assert_eq!(check(true, true, true), Verdict::Blocked(Block::UnresolvedConflicts));
    assert_eq!(check(false, true, true), Verdict::Blocked(Block::MergeInProgress));
    assert_eq!(check(false, false, true), Verdict::NeedsConfirmation(Block::StashPending));
}

#[test]
fn guard_blocks_on_unmerged_files() {
    let asked = guard(vec![Response::Done, captured(true, b"src/a.rs\n")]);
    assert_eq!(asked[0], Request::Capture(args(&["diff", "--name-only", "--diff-filter=U"])));
    assert_eq!(asked[1], Request::Finish(Outcome::Blocked(Block::UnresolvedConflicts)));
}

#[test]
fn guard_blocks_on_a_merge_in_progress() {
    let asked = guard(vec![Response::Done, captured(true, b""), Response::Flag(true)]);
    assert_eq!(asked[1], Request::Exists(".git/MERGE_HEAD".to_string()));
    assert_eq!(asked[2], Request::Finish(Outcome::Blocked(Block::MergeInProgress)));
}

fn stash_found() -> Vec<Response> {
    vec![
        Response::Done,
        captured(true, b""),
        Response::Flag(false),
        captured(true, b"stash@{0}\n"),
    ]
}

#[test]
fn guard_asks_about_a_stash() {
    let mut yes = stash_found();
    yes.push(Response::Flag(true));
    let asked = guard(yes);
    assert_eq!(asked[2], Request::Capture(args(&["stash", "list"])));
    assert_eq!(asked[3], Request::Confirm(Question::ContinueDespiteStash));
    assert_eq!(asked[4], Request::Finish(Outcome::Completed));
    let mut no = stash_found();
    no.push(Response::Flag(false));
    assert_eq!(guard(no)[4], Request::Finish(Outcome::Blocked(Block::StashPending)));
}

#[test]
fn guard_is_clear_on_a_clean_repository() {
    let asked = guard(vec![
        Response::Done,
        captured(true, b""),
        Response::Flag(false),
        captured(true, b""),
    ]);
    assert_eq!(asked[3], Request::Finish(Outcome::Completed));
}

#[test]
fn guard_fails_when_it_cannot_look() {
    let asked = guard(vec![Response::Done, Response::Captured(Err("no git".to_string()))]);
    assert_eq!(
        asked[1],
        Request::Finish(Outcome::Failed(GitError::CommandFailed(
            "Failed to check for merge conflicts: no git".to_string()
        )))
    );
    let asked = guard(vec![
        Response::Done,
        captured(true, b""),
        Response::Flag(false),
        Response::Captured(Err("no git".to_string())),
    ]);
    assert_eq!(
        asked[3],
        Request::Finish(Outcome::Failed(GitError::CommandFailed(
            "Failed to check for stashed changes: no git".to_string()
        )))
    );
}

#[test]
fn repository_creation_conflict() {
    let mut answers = described();
    answers.extend(vec![
        Response::Http(Ok((422, "{\"message\":\"name already exists on this account\"}".to_string()))),
        Response::Flag(true),
        Response::Http(Ok((200, "{\"login\":\"octo\"}".to_string()))),
        text("https://old.example/x.git"),
        ok(),
        Response::Output(Ok("main\n".to_string())),
        Response::Ended(Outcome::Completed),
        ok(),
    ]);
    let asked = create(answers);
    assert_eq!(
        asked,
        vec![
            Request::Internet,
            Request::Token,
            Request::Ask(Prompt::RepositoryName),
            Request::Ask(Prompt::Description),
            Request::Confirm(Question::PrivateRepository),
            creation_call("{\"name\":\"proj\",\"private\":false}"),
            Request::Confirm(Question::AdoptExisting),
            Request::Http(ApiCall {
                url: "https://api.github.com/user".to_string(),
                authorization: "Bearer SECRET-REDACTED".to_string(),
                body: None,
            }),
            Request::RemoteUrl,
            Request::Run(args(&["remote", "set-url", "origin", "https://github.com/octo/proj.git"])),
            Request::Query(args(&["rev-parse", "--abbrev-ref", "HEAD"])),
            Request::Sub(Flow::ConfigureAuth),
            Request::Run(args(&["push", "-u", "origin", "main"])),
            Request::Finish(Outcome::Completed),
        ]
    );
}

#[test]
fn adoption_adds_the_remote_where_there_is_none() {
    let mut answers = described();
    answers.extend(vec![
        Response::Http(Ok((422, "already exists".to_string()))),
        Response::Flag(true),
        Response::Http(Err("timeout".to_string())),
        Response::Text(None),
        ok(),
        Response::Output(Err(GitError::CommandFailed("no HEAD".to_string()))),
        Response::Ended(Outcome::Skipped),
    ]);
    let asked = create(answers);
    assert_eq!(
        asked[9],
        Request::Run(args(&["remote", "add", "origin", "https://github.com/unknown/proj.git"]))
    );
    assert_eq!(asked[12], Request::Run(args(&["push", "-u", "origin", "main"])));
}

#[test]
fn failed_set_up_stops_before_the_push() {
    let failure = GitError::CommandFailed("Failed to get remote URL".to_string());
    let mut answers = created();
    answers.extend(vec![
        ok(),
        Response::Output(Ok("3".to_string())),
        Response::Ended(Outcome::Failed(failure.duplicate())),
    ]);
    let asked = create(answers);
    assert_eq!(asked[9], Request::Sub(Flow::ConfigureAuth));
    assert_eq!(asked[10], Request::Finish(Outcome::Failed(failure)));
    assert!(!asked.iter().any(|r| matches!(r, Request::Run(a) if a[0] == "push")));
}

#[test]
fn unread_commit_count_never_stages_the_repository() {
    let mut answers = created();
    answers.extend(vec![
        ok(),
        Response::Output(Err(GitError::CommandFailed("cannot count".to_string()))),
        Response::Ended(Outcome::Completed),
        ok(),
    ]);
    let asked = create(answers);
    assert_eq!(asked[9], Request::Sub(Flow::ConfigureAuth));
    assert_eq!(asked[10], Request::Run(args(&["push", "-u", "origin", "trunk"])));
    assert_eq!(asked[11], Request::Finish(Outcome::Completed));
    for request in &asked {
        if let Request::Run(a) = request {
            assert!(a[0] != "add" && a[0] != "commit", "{:?}", a);
        }
        assert!(!matches!(request, Request::Ask(Prompt::InitialMessage)));
    }
}

#[test]
fn first_commit_is_made_only_on_a_count_of_zero() {
    for count in ["1", "12", "", "zero", "00", "0 0"] {
        let mut answers = created();
        answers.extend(vec![ok(), Response::Output(Ok(count.to_string()))]);
        let asked = create(answers);
        assert_eq!(asked[9], Request::Sub(Flow::ConfigureAuth), "{:?}", count);
    }
    for count in ["0", " 0\n"] {
        let mut answers = created();
        answers.extend(vec![ok(), Response::Output(Ok(count.to_string()))]);
        let asked = create(answers);
        assert_eq!(asked[9], Request::Ask(Prompt::InitialMessage), "{:?}", count);
    }
}

#[test]
fn adoption_declined_is_a_cancellation() {
    let mut answers = described();
    answers.extend(vec![
        Response::Http(Ok((422, "already exists".to_string()))),
        Response::Flag(false),
    ]);
    let asked = create(answers);
    assert_eq!(asked[7], Request::Finish(Outcome::Cancelled));
}

#[test]
fn creation_needs_network_and_token() {
    assert_eq!(
        create(vec![Response::Done, Response::Flag(false)])[1],
        Request::Finish(Outcome::Failed(GitError::NoInternet))
    );
    assert_eq!(
        create(vec![Response::Done, Response::Flag(true), Response::Text(None)])[2],
        Request::Finish(Outcome::Failed(GitError::NoToken))
    );
}

#[test]
fn invalid_name_is_asked_again() {
    let asked = create(vec![
        Response::Done,
        Response::Flag(true),
        text("SECRET-REDACTED"),
        text("bad name"),
        text("bad/name"),
        text(" good-name \n"),
        text(" a tool \n"),
        Response::Flag(true),
    ]);
    assert_eq!(asked[3], Request::Ask(Prompt::RepositoryName));
    assert_eq!(asked[4], Request::Ask(Prompt::RepositoryName));
    assert_eq!(asked[5], Request::Ask(Prompt::Description));
    assert_eq!(
        asked[7],
        creation_call("{\"name\":\"good-name\",\"private\":true,\"description\":\"a tool\"}")
    );
}

#[test]
fn rejected_creation_is_explained() {
    let cases = [
        (401u16, "Authentication failed. Please check your GitHub token. Error: body"),
        (403, "Permission denied. Your token may not have 'repo' scope. Error: body"),
        (422, "Invalid repository name or repository already exists. Error: body"),
        (500, "GitHub API error (status 500): body"),
    ];
    for (status, message) in cases {
        let mut answers = described();
        answers.push(Response::Http(Ok((status, "body".to_string()))));
        assert_eq!(
            create(answers)[6],
            Request::Finish(Outcome::Failed(GitError::Other(message.to_string())))
        );
    }
    let mut answers = described();
    answers.push(Response::Http(Err("dns".to_string())));
    assert_eq!(
        create(answers)[6],
        Request::Finish(Outcome::Failed(GitError::Other(
            "Failed to send request to GitHub API: dns".to_string()
        )))
    );
}

fn created() -> Vec<Response> {
    let mut answers = described();
    answers.push(Response::Http(Ok((
        201,
        "{\"html_url\":\"https://h/o/proj\",\"clone_url\":\"https://h/o/proj.git\"}".to_string(),
    ))));
    answers.push(Response::Output(Ok("trunk".to_string())));
    answers
}

#[test]
fn created_repository_gets_the_first_commit_and_the_push() {
    let mut answers = created();
    answers.extend(vec![
        ok(),
        Response::Output(Ok("0".to_string())),
        text("\n"),
        ok(),
        ok(),
        Response::Ended(Outcome::Completed),
        ok(),
    ]);
    let asked = create(answers);
    assert_eq!(
        asked[6..],
        vec![
            Request::Query(args(&["rev-parse", "--abbrev-ref", "HEAD"])),
            Request::Run(args(&["remote", "add", "origin", "https://h/o/proj.git"])),
            Request::Query(args(&["rev-list", "--count", "--all"])),
            Request::Ask(Prompt::InitialMessage),
            Request::Run(args(&["add", "."])),
            Request::Run(args(&["commit", "-m", "Initial commit"])),
            Request::Sub(Flow::ConfigureAuth),
            Request::Run(args(&["push", "-u", "origin", "trunk"])),
            Request::Finish(Outcome::Completed),
        ]
    );
}

#[test]
fn failed_push_is_repaired_and_retried_on_confirmation() {
    let mut answers = created();
    answers.extend(vec![
        ok(),
        Response::Output(Ok("12".to_string())),
        Response::Ended(Outcome::Skipped),
        failed("rejected"),
        failed("fetch failed"),
        failed("no such branch"),
        Response::Flag(true),
        ok(),
    ]);
    let asked = create(answers);
    assert_eq!(
        asked[9..],
        vec![
            Request::Sub(Flow::ConfigureAuth),
            Request::Run(args(&["push", "-u", "origin", "trunk"])),
            Request::Run(args(&["fetch"])),
            Request::Run(args(&["branch", "--set-upstream-to", "origin/trunk", "trunk"])),
            Request::Confirm(Question::RetryPush),
            Request::Run(args(&["push"])),
            Request::Finish(Outcome::Completed),
        ]
    );
}

#[test]
fn push_that_keeps_failing_leaves_the_manual_commands() {
    let manual = vec![
        "git branch --set-upstream-to=origin/trunk trunk".to_string(),
        "git push -u origin trunk".to_string(),
    ];
    assert_eq!(manual_push_commands("trunk"), manual);
    let mut answers = created();
    answers.extend(vec![
        ok(),
        Response::Output(Ok("12".to_string())),
        Response::Ended(Outcome::Completed),
        failed("rejected"),
        ok(),
        ok(),
        Response::Flag(true),
        failed("rejected again"),
    ]);
    assert_eq!(create(answers)[15], Request::Finish(Outcome::Unpublished(manual.clone())));

    let mut answers = created();
    answers.extend(vec![
        ok(),
        Response::Output(Ok("12".to_string())),
        Response::Ended(Outcome::Completed),
        failed("rejected"),
        ok(),
        ok(),
        Response::Flag(false),
    ]);
    let asked = create(answers);
    assert_eq!(asked[14], Request::Finish(Outcome::Unpublished(manual)));
    assert_eq!(asked.iter().filter(|r| matches!(r, Request::Run(a) if a[0] == "push")).count(), 1);
}

#[test]
fn existing_remote_is_updated_only_on_confirmation() {
    let mut answers = created();
    answers.extend(vec![
        failed("remote origin already exists"),
        Response::Output(Ok("https://other/x.git".to_string())),
        Response::Flag(true),
        ok(),
    ]);
    let asked = create(answers);
    assert_eq!(asked[8], Request::Query(args(&["remote", "get-url", "origin"])));
    assert_eq!(asked[9], Request::Confirm(Question::UpdateRemote));
    assert_eq!(
        asked[10],
        Request::Run(args(&["remote", "set-url", "origin", "https://h/o/proj.git"]))
    );
    assert_eq!(asked[11], Request::Query(args(&["rev-list", "--count", "--all"])));

    let mut answers = created();
    answers.extend(vec![
        failed("remote origin already exists"),
        Response::Output(Err(GitError::CommandFailed("no origin".to_string()))),
    ]);
    assert_eq!(
        create(answers)[9],
        Request::Finish(Outcome::Failed(GitError::CommandFailed(
            "remote origin already exists".to_string()
        )))
    );
}

#[test]
fn branch_defaults_to_main() {
    assert_eq!(branch_name(Ok(" dev \n".to_string())), "dev");
    assert_eq!(branch_name(Err(GitError::NoChanges)), "main");
}

#[test]
fn credentials_are_kept_in_memory_for_a_time() {
    let asked = auth(vec![
        Response::Done,
        text("SECRET-REDACTED"),
        text("https://h/o/proj.git"),
        ok(),
        ok(),
        ok(),
        captured(true, b""),
    ]);
    assert_eq!(
        asked,
        vec![
            Request::Token,
            Request::RemoteUrl,
            Request::Run(args(&["config", "--local", "credential.helper", "cache"])),
            Request::Run(args(&["config", "--local", "credential.helper", "cache --timeout=3600"])),
            Request::Run(args(&["remote", "set-url", "origin", "https://h/o/proj.git"])),
            Request::Feed(
                args(&["credential", "approve"]),
                "url=https://h/o/proj.git\nusername=SECRET-REDACTED\npassword=x-oauth-basic\n"
                    .to_string()
            ),
            Request::Finish(Outcome::Completed),
        ]
    );
    for request in &asked {
        if let Request::Run(a) = request {
            assert!(!a.iter().any(|x| x.contains("store") || x.contains("--file")));
            assert!(!a.iter().any(|x| x.contains("SECRET-REDACTED")));
        }
    }
}

#[test]
fn https_remote_without_token_is_no_token() {
    let asked = auth(vec![Response::Done, Response::Text(None), text("https://h/o/proj.git"), ok()]);
    assert_eq!(asked[0], Request::Token);
    assert_eq!(asked[1], Request::RemoteUrl);
    assert_eq!(asked[2], Request::Finish(Outcome::Failed(GitError::NoToken)));
    assert!(matches!(asked[3], Request::Finish(_)));
    assert!(!asked.iter().any(|r| matches!(r, Request::Run(_) | Request::Feed(_, _))));
}

#[test]
fn set_up_is_skipped_where_no_token_is_needed() {
    assert_eq!(
        auth(vec![Response::Done, text("t"), text("git@h:o/proj.git")])[2],
        Request::Finish(Outcome::Skipped)
    );
    assert_eq!(
        auth(vec![Response::Done, Response::Text(None), text("git@h:o/proj.git")])[2],
        Request::Finish(Outcome::Skipped)
    );
    assert_eq!(
        auth(vec![Response::Done, text("t"), Response::Text(None)])[2],
        Request::Finish(Outcome::Failed(GitError::CommandFailed(
            "Failed to get remote URL".to_string()
        )))
    );
    assert_eq!(
        auth(vec![Response::Done, Response::Text(None), Response::Text(None)])[2],
        Request::Finish(Outcome::Failed(GitError::CommandFailed(
            "Failed to get remote URL".to_string()
        )))
    );
}

#[test]
fn set_up_stops_at_the_first_failure() {
    let asked = auth(vec![
        Response::Done,
        text("t"),
        text("https://h/o/proj.git"),
        ok(),
        failed("config locked"),
    ]);
    assert_eq!(
        asked[4],
        Request::Finish(Outcome::Failed(GitError::CommandFailed("config locked".to_string())))
    );
    let asked = auth(vec![
        Response::Done,
        text("t"),
        text("https://h/o/proj.git"),
        ok(),
        ok(),
        ok(),
        captured(false, b""),
    ]);
    assert_eq!(
        asked[6],
        Request::Finish(Outcome::Failed(GitError::CommandFailed(
            "Failed to store credentials".to_string()
        )))
    );
}

#[test]
fn sync_check_ends_at_once_when_level() {
    let asked = sync(vec![Response::Done, Response::Counts(0, 0)]);
    assert_eq!(asked, vec![Request::Divergence, Request::Finish(Outcome::Completed)]);
}

#[test]
fn sync_check_leaves_what_is_ahead_alone() {
    let asked = sync(vec![Response::Done, Response::Counts(2, 0)]);
    assert_eq!(asked, vec![Request::Divergence, Request::Finish(Outcome::Completed)]);
}

#[test]
fn sync_check_is_skipped_without_the_network() {
    let asked = sync(vec![Response::Done, Response::Counts(0, 2), Response::Flag(false)]);
    assert_eq!(asked[1], Request::Internet);
    assert_eq!(asked[2], Request::Finish(Outcome::Skipped));
}

#[test]
fn sync_check_brings_in_what_is_behind() {
    let asked = sync(vec![
        Response::Done,
        Response::Counts(0, 3),
        Response::Flag(true),
        text("\n"),
        ok(),
        text("\n"),
        ok(),
        Response::Flag(true),
        ok(),
        Response::Output(Ok("origin/dev".to_string())),
        ok(),
        ok(),
    ]);
    assert_eq!(
        asked[5..],
        vec![
            Request::Run(args(&["fetch", "origin"])),
            Request::HasChanges(None),
            Request::Run(args(&["stash", "push", "--include-untracked"])),
            Request::Query(args(&["rev-parse", "--abbrev-ref", "--symbolic-full-name", "@{u}"])),
            Request::Run(args(&["reset", "--hard", "origin/dev"])),
            Request::Run(args(&["stash", "pop"])),
            Request::Finish(Outcome::Completed),
        ]
    );
    assert_eq!(
        asked[3],
        Request::Run(args(&[
            "log",
            "--oneline",
            "--graph",
            "--decorate",
            "--all",
            "-n",
            "5",
            "--no-merges",
            "--"
        ]))
    );
}

#[test]
fn sync_check_with_a_clean_tree_stashes_and_pops_nothing() {
    let asked = sync(vec![
        Response::Done,
        Response::Counts(0, 1),
        Response::Flag(true),
        text("\n"),
        ok(),
        text("\n"),
        ok(),
        Response::Flag(false),
        Response::Output(Err(GitError::CommandFailed("no upstream".to_string()))),
        ok(),
    ]);
    assert_eq!(asked[8], Request::Run(args(&["reset", "--hard", "origin/main"])));
    assert_eq!(asked[9], Request::Finish(Outcome::Completed));
    assert!(!asked.iter().any(|r| matches!(r, Request::Run(a) if a[0] == "stash")));
}

#[test]
fn sync_check_never_resets_over_what_it_cannot_put_aside() {
    let failure = GitError::CommandFailed("cannot stash".to_string());
    let asked = sync(vec![
        Response::Done,
        Response::Counts(0, 1),
        Response::Flag(true),
        text("\n"),
        ok(),
        text("\n"),
        ok(),
        Response::Flag(true),
        Response::Status(Err(failure.duplicate())),
        ok(),
    ]);
    assert_eq!(asked[8], Request::Finish(Outcome::Failed(failure)));
    assert!(!asked.iter().any(|r| matches!(r, Request::Run(a) if a[0] == "reset")));
}

#[test]
fn sync_check_leaves_a_diverged_branch_alone() {
    let asked = sync(vec![Response::Done, Response::Counts(2, 3), Response::Flag(true)]);
    assert_eq!(asked[1], Request::Finish(Outcome::Skipped));
    assert!(matches!(asked[2], Request::Finish(_)));
}

#[test]
fn sync_check_is_cancelled_when_nothing_can_be_read() {
    let asked =
        sync(vec![Response::Done, Response::Counts(0, 1), Response::Flag(true), Response::Text(None)]);
    assert_eq!(asked[3], Request::Finish(Outcome::Cancelled));
}

fn track(answers: Vec<Response>) -> (DivergenceTracker, Vec<Request>) {
    let mut flow = DivergenceTracker::new();
    let asked = answers.into_iter().map(|a| flow.step(a)).collect();
    (flow, asked)
}

#[test]
fn divergence_is_level_without_an_upstream() {
    let (flow, asked) = track(vec![Response::Done, captured(false, b"")]);
    assert_eq!(
        asked[0],
        Request::Capture(args(&["rev-parse", "--abbrev-ref", "--symbolic-full-name", "@{u}"]))
    );
    assert_eq!(asked[1], Request::Finish(Outcome::Completed));
    assert_eq!(flow.count, DivergenceCount { ahead: 0, behind: 0 });
}

#[test]
fn divergence_is_level_without_a_branch() {
    let (flow, asked) = track(vec![
        Response::Done,
        captured(true, b"origin/main\n"),
        Response::Output(Err(GitError::CommandFailed("detached".to_string()))),
    ]);
    assert_eq!(asked[1], Request::Query(args(&["symbolic-ref", "--short", "HEAD"])));
    assert_eq!(asked[2], Request::Finish(Outcome::Completed));
    assert_eq!(flow.count, DivergenceCount { ahead: 0, behind: 0 });
}

#[test]
fn divergence_is_what_the_comparison_counts() {
    let (flow, asked) = track(vec![
        Response::Done,
        captured(true, b"origin/main\n"),
        Response::Output(Ok("main".to_string())),
        captured(true, b"4\t3\n"),
    ]);
    assert_eq!(
        asked[2],
        Request::Capture(args(&["rev-list", "--left-right", "--count", "main@{u}...main"]))
    );
    assert_eq!(asked[3], Request::Finish(Outcome::Completed));
    assert_eq!(flow.count, DivergenceCount { ahead: 3, behind: 4 });
}

fn publish(answers: Vec<Response>) -> Vec<Request> {
    let mut flow = Publish::new();
    answers.into_iter().map(|a| flow.step(a)).collect()
}

#[test]
fn missing_token_stops_the_publishing_before_the_push() {
    let asked = publish(vec![
        Response::Done,
        Response::Ended(Outcome::Failed(GitError::NoToken)),
        ok(),
    ]);
    assert_eq!(asked[1], Request::Finish(Outcome::Failed(GitError::NoToken)));
    assert!(!asked.iter().any(|r| matches!(r, Request::Run(_))));
}

#[test]
fn push_that_succeeds_ends_the_publishing() {
    let asked = publish(vec![Response::Done, Response::Ended(Outcome::Completed), ok()]);
    assert_eq!(
        asked,
        vec![
            Request::Sub(Flow::ConfigureAuth),
            Request::Run(args(&["push", "--"])),
            Request::Finish(Outcome::Completed),
        ]
    );
}

#[test]
fn publishing_needs_the_credentials_set_up() {
    let failure = GitError::CommandFailed("Failed to get remote URL".to_string());
    let asked = publish(vec![Response::Done, Response::Ended(Outcome::Failed(failure.duplicate()))]);
    assert_eq!(asked[1], Request::Finish(Outcome::Failed(failure)));
}

#[test]
fn failed_push_climbs_the_ladder() {
    let asked = publish(vec![
        Response::Done,
        Response::Ended(Outcome::Completed),
        failed("rejected"),
        failed("offline"),
        Response::Output(Ok("dev\n".to_string())),
        failed("no such ref"),
        Response::Flag(true),
        ok(),
    ]);
    assert_eq!(
        asked,
        vec![
            Request::Sub(Flow::ConfigureAuth),
            Request::Run(args(&["push", "--"])),
            Request::Run(args(&["fetch"])),
            Request::Query(args(&["rev-parse", "--abbrev-ref", "HEAD"])),
            Request::Run(args(&["branch", "--set-upstream-to", "origin/dev", "dev"])),
            Request::Confirm(Question::RetryPush),
            Request::Run(args(&["push", "--"])),
            Request::Finish(Outcome::Completed),
        ]
    );
}

#[test]
fn ladder_ends_with_the_manual_commands() {
    let manual = vec![
        "git branch --set-upstream-to=origin/dev dev".to_string(),
        "git push -u origin dev".to_string(),
    ];
    let asked = publish(vec![
        Response::Done,
        Response::Ended(Outcome::Completed),
        failed("rejected"),
        ok(),
        Response::Output(Ok("dev".to_string())),
        ok(),
        Response::Flag(false),
    ]);
    assert_eq!(asked[6], Request::Finish(Outcome::Unpublished(manual.clone())));
    assert_eq!(asked.iter().filter(|r| matches!(r, Request::Run(a) if a[0] == "push")).count(), 1);

    let asked = publish(vec![
        Response::Done,
        Response::Ended(Outcome::Completed),
        failed("rejected"),
        ok(),
        Response::Output(Ok("dev".to_string())),
        ok(),
        Response::Flag(true),
        failed("rejected again"),
        ok(),
    ]);
    assert_eq!(asked[7], Request::Finish(Outcome::Unpublished(manual)));
    assert!(matches!(asked[8], Request::Finish(_)));
    assert_eq!(asked.iter().filter(|r| matches!(r, Request::Run(a) if a[0] == "push")).count(), 2);
}
