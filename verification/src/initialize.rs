//! Making a repository where there is none: on the branch `main`, with an
//! ignore-file if none is there, and with a first commit if there is
//! anything to commit.

use vstd::prelude::*;
use vstd::string::*;
use crate::error::{GitError, GitErrorView};
use crate::exchange::{
    answered_out_of_turn, finish, out_of_turn, Outcome, OutcomeView, Request, RequestView, Response,
    ResponseView,
};
use crate::paths;
use crate::repo::{name_to_show, shown, GitRepo};
use crate::text::{list2, list3, list4, opt_text, same_text};
use crate::trim::{trim, trim_text};

verus! {

/// Where the workflow stands: what it asked last.
#[derive(Debug, Clone, Copy, PartialEq, Eq, Structural)]
pub enum Phase {
    Start,
    Init,
    Branch,
    Rename,
    Ignore,
    WriteIgnore,
    AddAll,
    Changes,
    Commit,
    Ended,
}

/// The workflow.
#[derive(Debug, Clone, Copy, PartialEq, Eq, Structural)]
pub struct Initialize {
    pub phase: Phase,
}

/// What the ignore-file of a new repository holds: the files that systems,
/// builds and editors leave behind.
pub open spec fn default_ignore() -> Seq<char> {
    "# Default .gitignore for new repositories\n# OS generated files\n.DS_Store\n.DS_Store?\n._*\n.Spotlight-V100\n.Trashes\nehthumbs.db\nThumbs.db\n\n# Build artifacts\ntarget/\n**/*.rs.bk\nCargo.lock\n\n# Editor directories and files\n.idea\n.vscode\n*.swp\n*.swo\n*~"@
}

/// The request that looks for the ignore-file.
pub open spec fn ignore_probe() -> RequestView {
    RequestView::Exists(".gitignore"@)
}

/// The request that stages everything.
pub open spec fn add_everything() -> RequestView {
    RequestView::Run(seq!["add"@, "--all"@])
}

/// The failure `e` with `context` in front of its message.
pub open spec fn in_context(context: Seq<char>, e: GitErrorView) -> GitErrorView {
    GitErrorView::Other(context + e.message())
}

impl Initialize {
    /// This workflow in the phase `phase`.
    pub open spec fn at(phase: Phase) -> Initialize {
        Initialize { phase }
    }

    /// The end of the workflow with `outcome`.
    pub open spec fn end(outcome: OutcomeView) -> (Initialize, RequestView) {
        (Self::at(Phase::Ended), finish(outcome))
    }

    /// The state after `response`, and the next request.
    pub open spec fn next(self, response: ResponseView) -> (Initialize, RequestView) {
        match (self.phase, response) {
            (Phase::Start, _) => (
                Self::at(Phase::Init),
                RequestView::Capture(seq!["init"@, "-b"@, "main"@]),
            ),
            (Phase::Init, ResponseView::Captured(Err(message))) => Self::end(
                OutcomeView::Failed(GitErrorView::Other("Failed to run git init: "@ + message)),
            ),
            (Phase::Init, ResponseView::Captured(Ok(outcome))) => if outcome.success {
                (
                    Self::at(Phase::Branch),
                    RequestView::Query(seq!["rev-parse"@, "--abbrev-ref"@, "HEAD"@]),
                )
            } else {
                Self::end(
                    OutcomeView::Failed(
                        GitErrorView::Other("Failed to initialize Git repository"@),
                    ),
                )
            },
            (Phase::Branch, ResponseView::Output(Ok(branch))) => if trim(branch) == "master"@ {
                (
                    Self::at(Phase::Rename),
                    RequestView::Run(seq!["branch"@, "-m"@, "master"@, "main"@]),
                )
            } else {
                (Self::at(Phase::Ignore), ignore_probe())
            },
            (Phase::Branch, ResponseView::Output(Err(_))) => (
                Self::at(Phase::Ignore),
                ignore_probe(),
            ),
            (Phase::Rename, ResponseView::Status(Ok(_))) => (
                Self::at(Phase::Ignore),
                ignore_probe(),
            ),
            (Phase::Rename, ResponseView::Status(Err(e))) => Self::end(
                OutcomeView::Failed(in_context("Failed to rename branch to main: "@, e)),
            ),
            (Phase::Ignore, ResponseView::Flag(true)) => (
                Self::at(Phase::AddAll),
                add_everything(),
            ),
            (Phase::Ignore, ResponseView::Flag(false)) => (
                Self::at(Phase::WriteIgnore),
                RequestView::Write(".gitignore"@, default_ignore()),
            ),
            (Phase::WriteIgnore, ResponseView::Status(Ok(_))) => (
                Self::at(Phase::AddAll),
                add_everything(),
            ),
            (Phase::WriteIgnore, ResponseView::Status(Err(e))) => Self::end(
                OutcomeView::Failed(in_context("Failed to create .gitignore: "@, e)),
            ),
            (Phase::AddAll, ResponseView::Status(Ok(_))) => (
                Self::at(Phase::Changes),
                RequestView::HasChanges(None),
            ),
            (Phase::AddAll, ResponseView::Status(Err(e))) => Self::end(OutcomeView::Failed(e)),
            (Phase::Changes, ResponseView::Flag(true)) => (
                Self::at(Phase::Commit),
                RequestView::Run(seq!["commit"@, "-m"@, "Initial commit"@]),
            ),
            (Phase::Changes, ResponseView::Flag(false)) => Self::end(OutcomeView::Completed),
            (Phase::Commit, ResponseView::Status(Ok(_))) => Self::end(OutcomeView::Completed),
            (Phase::Commit, ResponseView::Status(Err(e))) => Self::end(OutcomeView::Failed(e)),
            _ => Self::end(out_of_turn()),
        }
    }

    /// The workflow before its first step.
    pub fn new() -> (s: Initialize)
        ensures
            s == (Initialize { phase: Phase::Start }),
    {
        Initialize { phase: Phase::Start }
    }

    fn finish_with(&mut self, outcome: Outcome) -> (r: Request)
        ensures
            (*final(self), r@) == Self::end(outcome@),
    {
        self.phase = Phase::Ended;
        Request::Finish(outcome)
    }

    fn probe_ignore(&mut self) -> (r: Request)
        ensures
            (*final(self), r@) == (Self::at(Phase::Ignore), ignore_probe()),
    {
        self.phase = Phase::Ignore;
        Request::Exists(String::from_str(".gitignore"))
    }

    fn stage_everything(&mut self) -> (r: Request)
        ensures
            (*final(self), r@) == (Self::at(Phase::AddAll), add_everything()),
    {
        self.phase = Phase::AddAll;
        Request::Run(list2("add", "--all"))
    }

    /// Takes the answer to the last request and gives the next request.
    pub fn step(&mut self, response: Response) -> (r: Request)
        ensures
            (*final(self), r@) == old(self).next(response@),
    {
        match (self.phase, response) {
            (Phase::Start, _) => {
                self.phase = Phase::Init;
                Request::Capture(list3("init", "-b", "main"))
            },
            (Phase::Init, Response::Captured(Err(message))) => {
                let detail = String::from_str("Failed to run git init: ").concat(
                    message.as_str(),
                );
                self.finish_with(Outcome::Failed(GitError::Other(detail)))
            },
            (Phase::Init, Response::Captured(Ok(outcome))) => {
                if outcome.success {
                    self.phase = Phase::Branch;
                    Request::Query(list3("rev-parse", "--abbrev-ref", "HEAD"))
                } else {
                    self.finish_with(
                        Outcome::Failed(GitError::other("Failed to initialize Git repository")),
                    )
                }
            },
            (Phase::Branch, Response::Output(Ok(branch))) => {
                if same_text(trim_text(branch.as_str()).as_str(), "master") {
                    self.phase = Phase::Rename;
                    Request::Run(list4("branch", "-m", "master", "main"))
                } else {
                    self.probe_ignore()
                }
            },
            (Phase::Branch, Response::Output(Err(_))) => self.probe_ignore(),
            (Phase::Rename, Response::Status(Ok(_))) => self.probe_ignore(),
            (Phase::Rename, Response::Status(Err(e))) => {
                let detail = String::from_str("Failed to rename branch to main: ").concat(
                    e.message().as_str(),
                );
                self.finish_with(Outcome::Failed(GitError::Other(detail)))
            },
            (Phase::Ignore, Response::Flag(true)) => self.stage_everything(),
            (Phase::Ignore, Response::Flag(false)) => {
                self.phase = Phase::WriteIgnore;
                Request::Write(String::from_str(".gitignore"), default_ignore_text())
            },
            (Phase::WriteIgnore, Response::Status(Ok(_))) => self.stage_everything(),
            (Phase::WriteIgnore, Response::Status(Err(e))) => {
                let detail = String::from_str("Failed to create .gitignore: ").concat(
                    e.message().as_str(),
                );
                self.finish_with(Outcome::Failed(GitError::Other(detail)))
            },
            (Phase::AddAll, Response::Status(Ok(_))) => {
                self.phase = Phase::Changes;
                Request::HasChanges(None)
            },
            (Phase::AddAll, Response::Status(Err(e))) => self.finish_with(Outcome::Failed(e)),
            (Phase::Changes, Response::Flag(true)) => {
                self.phase = Phase::Commit;
                Request::Run(list3("commit", "-m", "Initial commit"))
            },
            (Phase::Changes, Response::Flag(false)) => self.finish_with(Outcome::Completed),
            (Phase::Commit, Response::Status(Ok(_))) => self.finish_with(Outcome::Completed),
            (Phase::Commit, Response::Status(Err(e))) => self.finish_with(Outcome::Failed(e)),
            _ => self.finish_with(answered_out_of_turn()),
        }
    }
}

/// How far the workflow has come: each step takes it further.
pub open spec fn rank(phase: Phase) -> nat {
    match phase {
        Phase::Start => 0,
        Phase::Init => 1,
        Phase::Branch => 2,
        Phase::Rename => 3,
        Phase::Ignore => 4,
        Phase::WriteIgnore => 5,
        Phase::AddAll => 6,
        Phase::Changes => 7,
        Phase::Commit => 8,
        Phase::Ended => 9,
    }
}

/// The workflow goes forward only: every step takes it further, so it
/// ends after at most nine answers.
pub proof fn law_goes_forward(s: Initialize, response: ResponseView)
    requires
        s.phase != Phase::Ended,
    ensures
        rank(s.next(response).0.phase) > rank(s.phase),
{
}

/// Once over, always over: after its end the workflow asks for nothing
/// but to finish.
pub proof fn law_over_is_over(s: Initialize, response: ResponseView)
    requires
        s.phase == Phase::Ended,
    ensures
        s.next(response).0.phase == Phase::Ended,
        s.next(response).1 is Finish,
{
}

/// An ignore-file that is there is left alone: one is written only where
/// the look for it found none.
pub proof fn law_ignore_file_kept(s: Initialize, response: ResponseView)
    requires
        s.next(response).1 is Write,
    ensures
        s.phase == Phase::Ignore,
        response == ResponseView::Flag(false),
        s.next(response).1 == RequestView::Write(".gitignore"@, default_ignore()),
{
}

/// What the ignore-file of a new repository holds.
pub fn default_ignore_text() -> (r: String)
    ensures
        r@ == default_ignore(),
{
    String::from_str(
        "# Default .gitignore for new repositories\n# OS generated files\n.DS_Store\n.DS_Store?\n._*\n.Spotlight-V100\n.Trashes\nehthumbs.db\nThumbs.db\n\n# Build artifacts\ntarget/\n**/*.rs.bk\nCargo.lock\n\n# Editor directories and files\n.idea\n.vscode\n*.swp\n*.swo\n*~",
    )
}

/// The name to go by, from the name of the directory: `new-repo` where it
/// has none or an empty one.
pub open spec fn name_or(directory: Option<Seq<char>>) -> Seq<char> {
    match shown(directory) {
        Some(name) => name,
        None => "new-repo"@,
    }
}

/// The name of the directory at `path`, or `new-repo` where it has none.
pub open spec fn directory_name(path: Seq<char>) -> Seq<char> {
    name_or(paths::file_name_of(path))
}

/// The name to go by, from the name of the directory if it has one.
pub fn name_or_new(directory: Option<String>) -> (r: String)
    ensures
        r@ == name_or(opt_text(directory)),
        r@.len() > 0,
{
    proof {
        reveal_strlit("new-repo");
    }
    match name_to_show(directory) {
        Some(name) => name,
        None => String::from_str("new-repo"),
    }
}

/// The name of the directory at `path`, or `new-repo`. It is never empty.
pub fn default_repo_name(path: &str) -> (r: String)
    ensures
        r@ == directory_name(path@),
        r@.len() > 0,
{
    name_or_new(paths::file_name(path))
}

/// The repository that the workflow leaves at `path`, named after its
/// directory.
pub fn initialize_git_repo(path: &str) -> (r: GitRepo)
    ensures
        r.root@ == path@,
        r.name@ == directory_name(path@),
        r.name@.len() > 0,
{
    GitRepo { root: String::from_str(path), name: default_repo_name(path) }
}

} // verus!
