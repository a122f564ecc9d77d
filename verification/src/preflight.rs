//! The guard that runs before anything is measured, staged or published:
//! unresolved conflicts and a merge in progress stop the run, stashed
//! changes stop it unless the operator says otherwise.

use vstd::prelude::*;
use vstd::string::*;
use crate::error::{GitError, GitErrorView};
use crate::exchange::{
    answered_out_of_turn, finish, out_of_turn, Block, Outcome, OutcomeView, Question, Request,
    RequestView, Response, ResponseView,
};
use crate::text::{list2, list3};

verus! {

/// What the guard finds, from what it has looked at.
#[derive(Debug, Clone, Copy, PartialEq, Eq, Structural)]
pub enum Verdict {
    /// Nothing stands in the way.
    Clear,
    /// The run must stop.
    Blocked(Block),
    /// The run may go on if the operator confirms.
    NeedsConfirmation(Block),
}

/// The verdict on a repository, from whether it has unmerged files, a merge
/// in progress, and stashed changes. The first that holds decides.
pub open spec fn verdict(unmerged: bool, merging: bool, stashed: bool) -> Verdict {
    if unmerged {
        Verdict::Blocked(Block::UnresolvedConflicts)
    } else if merging {
        Verdict::Blocked(Block::MergeInProgress)
    } else if stashed {
        Verdict::NeedsConfirmation(Block::StashPending)
    } else {
        Verdict::Clear
    }
}

/// The verdict on a repository.
pub fn check(unmerged: bool, merging: bool, stashed: bool) -> (v: Verdict)
    ensures
        v == verdict(unmerged, merging, stashed),
{
    if unmerged {
        Verdict::Blocked(Block::UnresolvedConflicts)
    } else if merging {
        Verdict::Blocked(Block::MergeInProgress)
    } else if stashed {
        Verdict::NeedsConfirmation(Block::StashPending)
    } else {
        Verdict::Clear
    }
}

/// Where the guard stands: what it asked last.
#[derive(Debug, Clone, Copy, PartialEq, Eq, Structural)]
pub enum Phase {
    Start,
    Conflicts,
    Merge,
    Stash,
    Confirm,
    Ended,
}

/// The guard.
#[derive(Debug, Clone, Copy, PartialEq, Eq, Structural)]
pub struct Preflight {
    pub phase: Phase,
}

/// The command that lists the unmerged files.
pub open spec fn unmerged_args() -> Seq<Seq<char>> {
    seq!["diff"@, "--name-only"@, "--diff-filter=U"@]
}

/// Where the marker of a merge in progress lies, below the root.
pub open spec fn merge_marker() -> Seq<char> {
    ".git/MERGE_HEAD"@
}

/// Whether the command printed anything.
pub open spec fn printed(outcome: crate::process::CommandOutcomeView) -> bool {
    outcome.stdout.len() > 0
}

impl Preflight {
    /// The end of the guard with `outcome`.
    pub open spec fn end(self, outcome: OutcomeView) -> (Preflight, RequestView) {
        (Preflight { phase: Phase::Ended }, finish(outcome))
    }

    /// The state after `response`, and the next request. Each look is made
    /// only if the one before found nothing.
    pub open spec fn next(self, response: ResponseView) -> (Preflight, RequestView) {
        match (self.phase, response) {
            (Phase::Start, _) => (
                Preflight { phase: Phase::Conflicts },
                RequestView::Capture(unmerged_args()),
            ),
            (Phase::Conflicts, ResponseView::Captured(Err(message))) => self.end(
                OutcomeView::Failed(
                    GitErrorView::CommandFailed("Failed to check for merge conflicts: "@ + message),
                ),
            ),
            (Phase::Conflicts, ResponseView::Captured(Ok(outcome))) => match verdict(
                printed(outcome),
                false,
                false,
            ) {
                Verdict::Blocked(b) => self.end(OutcomeView::Blocked(b)),
                _ => (Preflight { phase: Phase::Merge }, RequestView::Exists(merge_marker())),
            },
            (Phase::Merge, ResponseView::Flag(merging)) => match verdict(false, merging, false) {
                Verdict::Blocked(b) => self.end(OutcomeView::Blocked(b)),
                _ => (
                    Preflight { phase: Phase::Stash },
                    RequestView::Capture(seq!["stash"@, "list"@]),
                ),
            },
            (Phase::Stash, ResponseView::Captured(Err(message))) => self.end(
                OutcomeView::Failed(
                    GitErrorView::CommandFailed(
                        "Failed to check for stashed changes: "@ + message,
                    ),
                ),
            ),
            (Phase::Stash, ResponseView::Captured(Ok(outcome))) => match verdict(
                false,
                false,
                printed(outcome),
            ) {
                Verdict::NeedsConfirmation(_) => (
                    Preflight { phase: Phase::Confirm },
                    RequestView::Confirm(Question::ContinueDespiteStash),
                ),
                _ => self.end(OutcomeView::Completed),
            },
            (Phase::Confirm, ResponseView::Flag(true)) => self.end(OutcomeView::Completed),
            (Phase::Confirm, ResponseView::Flag(false)) => self.end(
                OutcomeView::Blocked(Block::StashPending),
            ),
            _ => self.end(out_of_turn()),
        }
    }

    /// The guard before its first step.
    pub fn new() -> (s: Preflight)
        ensures
            s == (Preflight { phase: Phase::Start }),
    {
        Preflight { phase: Phase::Start }
    }

    fn finish_with(&mut self, outcome: Outcome) -> (r: Request)
        ensures
            (*final(self), r@) == old(self).end(outcome@),
    {
        self.phase = Phase::Ended;
        Request::Finish(outcome)
    }

    /// Takes the answer to the last request and gives the next request.
    pub fn step(&mut self, response: Response) -> (r: Request)
        ensures
            (*final(self), r@) == old(self).next(response@),
    {
        match (self.phase, response) {
            (Phase::Start, _) => {
                self.phase = Phase::Conflicts;
                Request::Capture(list3("diff", "--name-only", "--diff-filter=U"))
            },
            (Phase::Conflicts, Response::Captured(Err(message))) => {
                let detail = String::from_str("Failed to check for merge conflicts: ").concat(
                    message.as_str(),
                );
                self.finish_with(Outcome::Failed(GitError::CommandFailed(detail)))
            },
            (Phase::Conflicts, Response::Captured(Ok(outcome))) => {
                match check(outcome.stdout.len() > 0, false, false) {
                    Verdict::Blocked(b) => self.finish_with(Outcome::Blocked(b)),
                    _ => {
                        self.phase = Phase::Merge;
                        Request::Exists(String::from_str(".git/MERGE_HEAD"))
                    },
                }
            },
            (Phase::Merge, Response::Flag(merging)) => {
                match check(false, merging, false) {
                    Verdict::Blocked(b) => self.finish_with(Outcome::Blocked(b)),
                    _ => {
                        self.phase = Phase::Stash;
                        Request::Capture(list2("stash", "list"))
                    },
                }
            },
            (Phase::Stash, Response::Captured(Err(message))) => {
                let detail = String::from_str("Failed to check for stashed changes: ").concat(
                    message.as_str(),
                );
                self.finish_with(Outcome::Failed(GitError::CommandFailed(detail)))
            },
            (Phase::Stash, Response::Captured(Ok(outcome))) => {
                match check(false, false, outcome.stdout.len() > 0) {
                    Verdict::NeedsConfirmation(_) => {
                        self.phase = Phase::Confirm;
                        Request::Confirm(Question::ContinueDespiteStash)
                    },
                    _ => self.finish_with(Outcome::Completed),
                }
            },
            (Phase::Confirm, Response::Flag(true)) => self.finish_with(Outcome::Completed),
            (Phase::Confirm, Response::Flag(false)) => self.finish_with(
                Outcome::Blocked(Block::StashPending),
            ),
            _ => self.finish_with(answered_out_of_turn()),
        }
    }
}

/// How far the guard has come: each step takes it further.
pub open spec fn rank(phase: Phase) -> nat {
    match phase {
        Phase::Start => 0,
        Phase::Conflicts => 1,
        Phase::Merge => 2,
        Phase::Stash => 3,
        Phase::Confirm => 4,
        Phase::Ended => 5,
    }
}

/// The guard goes forward only: every step takes it further, so it ends
/// after at most five answers.
pub proof fn law_goes_forward(s: Preflight, response: ResponseView)
    requires
        s.phase != Phase::Ended,
    ensures
        rank(s.next(response).0.phase) > rank(s.phase),
{
}

/// Once over, always over: after its end the guard asks for nothing but to
/// finish.
pub proof fn law_over_is_over(s: Preflight, response: ResponseView)
    requires
        s.phase == Phase::Ended,
    ensures
        s.next(response).0.phase == Phase::Ended,
        s.next(response).1 is Finish,
{
}

/// What the guard ends with is the verdict on what it found: conflicts and
/// a merge in progress block, a stash blocks unless the operator confirms.
pub proof fn law_guard_follows_verdict(
    unmerged: ResponseView,
    merging: bool,
    stashed: ResponseView,
    confirmed: bool,
)
    requires
        unmerged matches ResponseView::Captured(Ok(_)),
        stashed matches ResponseView::Captured(Ok(_)),
    ensures
        ({
            let has_unmerged = printed(unmerged->Captured_0->Ok_0);
            let has_stash = printed(stashed->Captured_0->Ok_0);
            let start = Preflight { phase: Phase::Start };
            let (s1, _) = start.next(ResponseView::Done);
            let (s2, r2) = s1.next(unmerged);
            let (s3, r3) = s2.next(ResponseView::Flag(merging));
            let (s4, r4) = s3.next(stashed);
            let (s5, r5) = s4.next(ResponseView::Flag(confirmed));
            match verdict(has_unmerged, merging, has_stash) {
                Verdict::Clear => r4 == finish(OutcomeView::Completed),
                Verdict::Blocked(Block::UnresolvedConflicts) => r2 == finish(
                    OutcomeView::Blocked(Block::UnresolvedConflicts),
                ),
                Verdict::Blocked(b) => r3 == finish(OutcomeView::Blocked(b)),
                Verdict::NeedsConfirmation(b) => r4 == RequestView::Confirm(
                    Question::ContinueDespiteStash,
                ) && r5 == (if confirmed {
                    finish(OutcomeView::Completed)
                } else {
                    finish(OutcomeView::Blocked(b))
                }),
            }
        }),
{
}

/// The guard mutates nothing: whatever the state and the answer, it only
/// looks, asks, or ends.
pub proof fn law_guard_only_looks(s: Preflight, response: ResponseView)
    ensures
        match s.next(response).1 {
            RequestView::Capture(args) => args == unmerged_args() || args == seq![
                "stash"@,
                "list"@,
            ],
            RequestView::Exists(_) | RequestView::Confirm(_) | RequestView::Finish(_) => true,
            _ => false,
        },
{
}

} // verus!
