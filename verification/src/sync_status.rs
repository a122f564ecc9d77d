//! The check at startup of how far the branch is behind its upstream:
//! what it lacks is shown and, on the operator's word twice, brought in.
//! Nothing local is lost on the way: a branch with commits of its own is
//! left alone, for the pull to reconcile, and changes that are not
//! committed are put aside before the branch is moved and put back after.
//! The check never pushes: commits that are ahead are settled as pending
//! pushes, where a token and the network are asked for first.

use vstd::prelude::*;
use vstd::string::*;
use crate::error::GitErrorView;
use crate::exchange::{
    answered_out_of_turn, finish, out_of_turn, Gate, Outcome, OutcomeView, Request, RequestView,
    Response, ResponseView,
};
use crate::text::{list2, list3, list4, list5, push_text, texts};

verus! {

/// Where the check stands: what it asked last.
#[derive(Debug, Clone, Copy, PartialEq, Eq, Structural)]
pub enum Phase {
    Start,
    Counting,
    Internet,
    ViewGate,
    Preview,
    SyncGate,
    Fetching,
    Changes,
    Stashing,
    Upstream,
    Resetting,
    Restoring,
    Ended,
}

/// The check: its phase, and whether local changes were put aside.
#[derive(Debug, Clone, Copy, PartialEq, Eq, Structural)]
pub struct SyncStatus {
    pub phase: Phase,
    pub stashed: bool,
}

/// The command that shows the latest commits.
pub open spec fn preview_args() -> Seq<Seq<char>> {
    seq![
        "log"@,
        "--oneline"@,
        "--graph"@,
        "--decorate"@,
        "--all"@,
        "-n"@,
        "5"@,
        "--no-merges"@,
        "--"@,
    ]
}

/// The query for the upstream of the current branch.
pub open spec fn upstream_args() -> Seq<Seq<char>> {
    seq!["rev-parse"@, "--abbrev-ref"@, "--symbolic-full-name"@, "@{u}"@]
}

/// The upstream to reset to: the one the query named, or `origin/main`.
pub open spec fn upstream_or_default(r: Result<Seq<char>, GitErrorView>) -> Seq<char> {
    match r {
        Ok(upstream) => upstream,
        Err(_) => "origin/main"@,
    }
}

/// Whether `response` says that a command succeeded.
pub open spec fn succeeded(response: ResponseView) -> bool {
    response is Status && response->Status_0 is Ok
}

/// How far the check has come: each step takes it further.
pub open spec fn rank(phase: Phase) -> nat {
    match phase {
        Phase::Start => 0,
        Phase::Counting => 1,
        Phase::Internet => 2,
        Phase::ViewGate => 3,
        Phase::Preview => 4,
        Phase::SyncGate => 5,
        Phase::Fetching => 6,
        Phase::Changes => 7,
        Phase::Stashing => 8,
        Phase::Upstream => 9,
        Phase::Resetting => 10,
        Phase::Restoring => 11,
        Phase::Ended => 12,
    }
}

impl SyncStatus {
    /// This check in the phase `phase`.
    pub open spec fn at(self, phase: Phase) -> SyncStatus {
        SyncStatus { phase, ..self }
    }

    /// The end of the check with `outcome`.
    pub open spec fn end(self, outcome: OutcomeView) -> (SyncStatus, RequestView) {
        (self.at(Phase::Ended), finish(outcome))
    }

    /// The state after `response`, and the next request.
    pub open spec fn next(self, response: ResponseView) -> (SyncStatus, RequestView) {
        match (self.phase, response) {
            (Phase::Start, _) => (self.at(Phase::Counting), RequestView::Divergence),
            (Phase::Counting, ResponseView::Counts(ahead, behind)) => if behind == 0 {
                self.end(OutcomeView::Completed)
            } else if ahead > 0 {
                self.end(OutcomeView::Skipped)
            } else {
                (self.at(Phase::Internet), RequestView::Internet)
            },
            (Phase::Internet, ResponseView::Flag(true)) => (
                self.at(Phase::ViewGate),
                RequestView::Acknowledge(Gate::ViewIncoming),
            ),
            (Phase::Internet, ResponseView::Flag(false)) => self.end(OutcomeView::Skipped),
            (Phase::ViewGate, ResponseView::Text(Some(_))) => (
                self.at(Phase::Preview),
                RequestView::Run(preview_args()),
            ),
            (Phase::ViewGate, ResponseView::Text(None)) => self.end(OutcomeView::Cancelled),
            (Phase::Preview, ResponseView::Status(_)) => (
                self.at(Phase::SyncGate),
                RequestView::Acknowledge(Gate::Sync),
            ),
            (Phase::SyncGate, ResponseView::Text(Some(_))) => (
                self.at(Phase::Fetching),
                RequestView::Run(seq!["fetch"@, "origin"@]),
            ),
            (Phase::SyncGate, ResponseView::Text(None)) => self.end(OutcomeView::Cancelled),
            (Phase::Fetching, ResponseView::Status(Ok(_))) => (
                self.at(Phase::Changes),
                RequestView::HasChanges(None),
            ),
            (Phase::Fetching, ResponseView::Status(Err(e))) => self.end(OutcomeView::Failed(e)),
            (Phase::Changes, ResponseView::Flag(true)) => (
                self.at(Phase::Stashing),
                RequestView::Run(seq!["stash"@, "push"@, "--include-untracked"@]),
            ),
            (Phase::Changes, ResponseView::Flag(false)) => (
                SyncStatus { phase: Phase::Upstream, stashed: false },
                RequestView::Query(upstream_args()),
            ),
            (Phase::Stashing, ResponseView::Status(Ok(_))) => (
                SyncStatus { phase: Phase::Upstream, stashed: true },
                RequestView::Query(upstream_args()),
            ),
            (Phase::Stashing, ResponseView::Status(Err(e))) => self.end(OutcomeView::Failed(e)),
            (Phase::Upstream, ResponseView::Output(r)) => (
                self.at(Phase::Resetting),
                RequestView::Run(seq!["reset"@, "--hard"@, upstream_or_default(r)]),
            ),
            (Phase::Resetting, ResponseView::Status(Ok(_))) => if self.stashed {
                (self.at(Phase::Restoring), RequestView::Run(seq!["stash"@, "pop"@]))
            } else {
                self.end(OutcomeView::Completed)
            },
            (Phase::Resetting, ResponseView::Status(Err(e))) => self.end(OutcomeView::Failed(e)),
            (Phase::Restoring, ResponseView::Status(Ok(_))) => self.end(OutcomeView::Completed),
            (Phase::Restoring, ResponseView::Status(Err(e))) => self.end(OutcomeView::Failed(e)),
            _ => self.end(out_of_turn()),
        }
    }

    /// The check before its first step.
    pub fn new() -> (s: SyncStatus)
        ensures
            s == (SyncStatus { phase: Phase::Start, stashed: false }),
    {
        SyncStatus { phase: Phase::Start, stashed: false }
    }

    fn finish_with(&mut self, outcome: Outcome) -> (r: Request)
        ensures
            (*final(self), r@) == old(self).end(outcome@),
    {
        self.phase = Phase::Ended;
        Request::Finish(outcome)
    }

    /// Takes the answer to the last request and gives the next request.
    pub fn step(&mut self, response: Response) -> (r: Request)
        ensures
            (*final(self), r@) == old(self).next(response@),
    {
        match (self.phase, response) {
            (Phase::Start, _) => {
                self.phase = Phase::Counting;
                Request::Divergence
            },
            (Phase::Counting, Response::Counts(ahead, behind)) => {
                if behind == 0 {
                    self.finish_with(Outcome::Completed)
                } else if ahead > 0 {
                    self.finish_with(Outcome::Skipped)
                } else {
                    self.phase = Phase::Internet;
                    Request::Internet
                }
            },
            (Phase::Internet, Response::Flag(true)) => {
                self.phase = Phase::ViewGate;
                Request::Acknowledge(Gate::ViewIncoming)
            },
            (Phase::Internet, Response::Flag(false)) => self.finish_with(Outcome::Skipped),
            (Phase::ViewGate, Response::Text(Some(_))) => {
                self.phase = Phase::Preview;
                Request::Run(preview_command())
            },
            (Phase::ViewGate, Response::Text(None)) => self.finish_with(Outcome::Cancelled),
            (Phase::Preview, Response::Status(_)) => {
                self.phase = Phase::SyncGate;
                Request::Acknowledge(Gate::Sync)
            },
            (Phase::SyncGate, Response::Text(Some(_))) => {
                self.phase = Phase::Fetching;
                Request::Run(list2("fetch", "origin"))
            },
            (Phase::SyncGate, Response::Text(None)) => self.finish_with(Outcome::Cancelled),
            (Phase::Fetching, Response::Status(Ok(_))) => {
                self.phase = Phase::Changes;
                Request::HasChanges(None)
            },
            (Phase::Fetching, Response::Status(Err(e))) => self.finish_with(Outcome::Failed(e)),
            (Phase::Changes, Response::Flag(true)) => {
                self.phase = Phase::Stashing;
                Request::Run(list3("stash", "push", "--include-untracked"))
            },
            (Phase::Changes, Response::Flag(false)) => {
                self.phase = Phase::Upstream;
                self.stashed = false;
                Request::Query(list4("rev-parse", "--abbrev-ref", "--symbolic-full-name", "@{u}"))
            },
            (Phase::Stashing, Response::Status(Ok(_))) => {
                self.phase = Phase::Upstream;
                self.stashed = true;
                Request::Query(list4("rev-parse", "--abbrev-ref", "--symbolic-full-name", "@{u}"))
            },
            (Phase::Stashing, Response::Status(Err(e))) => self.finish_with(Outcome::Failed(e)),
            (Phase::Upstream, Response::Output(r)) => {
                self.phase = Phase::Resetting;
                let upstream = match r {
                    Ok(upstream) => upstream,
                    Err(_) => String::from_str("origin/main"),
                };
                Request::Run(list3("reset", "--hard", upstream.as_str()))
            },
            (Phase::Resetting, Response::Status(Ok(_))) => {
                if self.stashed {
                    self.phase = Phase::Restoring;
                    Request::Run(list2("stash", "pop"))
                } else {
                    self.finish_with(Outcome::Completed)
                }
            },
            (Phase::Resetting, Response::Status(Err(e))) => self.finish_with(Outcome::Failed(e)),
            (Phase::Restoring, Response::Status(Ok(_))) => self.finish_with(Outcome::Completed),
            (Phase::Restoring, Response::Status(Err(e))) => self.finish_with(Outcome::Failed(e)),
            _ => self.finish_with(answered_out_of_turn()),
        }
    }
}

/// The command that shows the latest commits.
fn preview_command() -> (r: Vec<String>)
    ensures
        texts(r@) == preview_args(),
{
    let mut r = list5("log", "--oneline", "--graph", "--decorate", "--all");
    push_text(&mut r, "-n");
    push_text(&mut r, "5");
    push_text(&mut r, "--no-merges");
    push_text(&mut r, "--");
    r
}

/// The check goes forward only: every step takes it further, so it ends
/// after at most twelve answers.
pub proof fn law_goes_forward(s: SyncStatus, response: ResponseView)
    requires
        s.phase != Phase::Ended,
    ensures
        rank(s.next(response).0.phase) > rank(s.phase),
{
}

/// Once over, always over: after its end the check asks for nothing but to
/// finish.
pub proof fn law_over_is_over(s: SyncStatus, response: ResponseView)
    requires
        s.phase == Phase::Ended,
    ensures
        s.next(response).0.phase == Phase::Ended,
        s.next(response).1 is Finish,
{
}

/// Nothing is brought in without the operator's word, twice: the remote is
/// fetched, and the branch reset, only in a run in which a line was read at
/// both gates.
pub proof fn law_sync_needs_both_gates(s: SyncStatus, response: ResponseView)
    ensures
        s.next(response).0.phase == Phase::Preview ==> s.phase == Phase::ViewGate
            && response is Text && response->Text_0 is Some,
        s.next(response).0.phase == Phase::Fetching ==> s.phase == Phase::SyncGate
            && response is Text && response->Text_0 is Some,
{
}

/// Not behind, nothing to bring in: where the branch lacks no commit of its
/// upstream, the check ends at once.
pub proof fn law_not_behind_ends(s: SyncStatus, ahead: usize)
    requires
        s.phase == Phase::Counting,
    ensures
        s.next(ResponseView::Counts(ahead, 0)) == s.end(OutcomeView::Completed),
{
}

/// No commit is lost: the check goes on from the count only where the
/// branch holds no commit that its upstream lacks, so the branch is never
/// moved away from a commit of its own.
pub proof fn law_keeps_local_commits(s: SyncStatus, response: ResponseView)
    requires
        s.next(response).0.phase == Phase::Internet,
    ensures
        s.phase == Phase::Counting,
        response matches ResponseView::Counts(ahead, behind) && ahead == 0 && behind > 0,
{
}

/// No change is lost: the branch is moved only when the working tree holds
/// no change or the changes were put aside, and what was put aside is put
/// back once the branch has moved.
pub proof fn law_keeps_local_changes(s: SyncStatus, response: ResponseView)
    ensures
        s.next(response).0.phase == Phase::Upstream ==> (s.phase == Phase::Changes && response
            == ResponseView::Flag(false) && !s.next(response).0.stashed) || (s.phase
            == Phase::Stashing && succeeded(response) && s.next(response).0.stashed),
        s.next(response).0.phase == Phase::Resetting ==> s.phase == Phase::Upstream && s.next(
            response,
        ).0.stashed == s.stashed,
        s.phase == Phase::Resetting && s.stashed && succeeded(response) ==> s.next(response) == (
            s.at(Phase::Restoring),
            RequestView::Run(seq!["stash"@, "pop"@]),
        ),
{
}

} // verus!
