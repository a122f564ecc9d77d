//! Publishing what was committed: the credentials are set up and the push
//! is made, or neither where the set-up fails, as it does for want of a
//! token; where the push fails, the remote is fetched, the tracking of the
//! branch is set up again, and the push is retried once if the operator
//! says so. What still cannot be pushed stays committed locally.

use vstd::prelude::*;
use vstd::string::*;
use crate::create_remote::{branch_name, branch_or_main, manual_commands, manual_push_commands};
use crate::error::GitErrorView;
use crate::exchange::{
    answered_out_of_turn, finish, out_of_turn, Flow, Outcome, OutcomeView, Question, Request,
    RequestView, Response, ResponseView,
};
use crate::text::{list1, list2, list3, list4};

verus! {

/// The address that the network is probed at: a name server that is
/// expected to answer from anywhere.
pub fn probe_address() -> (r: String)
    ensures
        r@ == "8.8.8.8:53"@,
{
    String::from_str("8.8.8.8:53")
}

/// How many seconds the probe of the network may take.
pub fn probe_timeout_seconds() -> (r: u64)
    ensures
        r == 3,
{
    3
}

/// Where the workflow stands: what it asked last.
#[derive(Debug, Clone, Copy, PartialEq, Eq, Structural)]
pub enum Phase {
    Start,
    Auth,
    Pushing,
    Fetching,
    Branch,
    Tracking,
    RetryConfirm,
    Retrying,
    Ended,
}

/// The workflow: its phase, and the branch once it is known.
#[derive(Debug, PartialEq, Eq)]
pub struct Publish {
    pub phase: Phase,
    pub branch: String,
}

/// `Publish` with its branch as a character sequence.
pub struct PublishView {
    pub phase: Phase,
    pub branch: Seq<char>,
}

impl View for Publish {
    type V = PublishView;

    open spec fn view(&self) -> PublishView {
        PublishView { phase: self.phase, branch: self.branch@ }
    }
}

/// The push of what the branch holds.
pub open spec fn push_args() -> Seq<Seq<char>> {
    seq!["push"@, "--"@]
}

/// The command that makes `branch` track its namesake on the remote.
pub open spec fn tracking_args(branch: Seq<char>) -> Seq<Seq<char>> {
    seq!["branch"@, "--set-upstream-to"@, "origin/"@ + branch, branch]
}

/// How far the workflow has come: each step takes it further.
pub open spec fn rank(phase: Phase) -> nat {
    match phase {
        Phase::Start => 0,
        Phase::Auth => 1,
        Phase::Pushing => 2,
        Phase::Fetching => 3,
        Phase::Branch => 4,
        Phase::Tracking => 5,
        Phase::RetryConfirm => 6,
        Phase::Retrying => 7,
        Phase::Ended => 8,
    }
}

impl PublishView {
    /// This workflow in the phase `phase`.
    pub open spec fn at(self, phase: Phase) -> PublishView {
        PublishView { phase, ..self }
    }

    /// The end of the workflow with `outcome`.
    pub open spec fn end(self, outcome: OutcomeView) -> (PublishView, RequestView) {
        (self.at(Phase::Ended), finish(outcome))
    }

    /// The end of the workflow with the commits unpushed.
    pub open spec fn give_up(self) -> (PublishView, RequestView) {
        self.end(OutcomeView::Unpublished(manual_commands(self.branch)))
    }

    /// The state after `response`, and the next request.
    pub open spec fn next(self, response: ResponseView) -> (PublishView, RequestView) {
        match (self.phase, response) {
            (Phase::Start, _) => (self.at(Phase::Auth), RequestView::Sub(Flow::ConfigureAuth)),
            (Phase::Auth, ResponseView::Ended(OutcomeView::Failed(e))) => self.end(
                OutcomeView::Failed(e),
            ),
            (Phase::Auth, ResponseView::Ended(_)) => (
                self.at(Phase::Pushing),
                RequestView::Run(push_args()),
            ),
            (Phase::Pushing, ResponseView::Status(Ok(_))) => self.end(OutcomeView::Completed),
            (Phase::Pushing, ResponseView::Status(Err(_))) => (
                self.at(Phase::Fetching),
                RequestView::Run(seq!["fetch"@]),
            ),
            (Phase::Fetching, ResponseView::Status(_)) => (
                self.at(Phase::Branch),
                RequestView::Query(seq!["rev-parse"@, "--abbrev-ref"@, "HEAD"@]),
            ),
            (Phase::Branch, ResponseView::Output(r)) => (
                PublishView { phase: Phase::Tracking, branch: branch_or_main(r) },
                RequestView::Run(tracking_args(branch_or_main(r))),
            ),
            (Phase::Tracking, ResponseView::Status(_)) => (
                self.at(Phase::RetryConfirm),
                RequestView::Confirm(Question::RetryPush),
            ),
            (Phase::RetryConfirm, ResponseView::Flag(true)) => (
                self.at(Phase::Retrying),
                RequestView::Run(push_args()),
            ),
            (Phase::RetryConfirm, ResponseView::Flag(false)) => self.give_up(),
            (Phase::Retrying, ResponseView::Status(Ok(_))) => self.end(OutcomeView::Completed),
            (Phase::Retrying, ResponseView::Status(Err(_))) => self.give_up(),
            _ => self.end(out_of_turn()),
        }
    }
}

/// Once over, always over: after its end the workflow asks for nothing
/// but to finish.
pub proof fn law_over_is_over(s: PublishView, response: ResponseView)
    requires
        s.phase == Phase::Ended,
    ensures
        s.next(response).0.phase == Phase::Ended,
        s.next(response).1 is Finish,
{
}

/// No set-up, no push: where the credentials could not be set up, be it
/// for want of a token for a remote reached over HTTPS, the workflow ends
/// with that failure and asks for no push.
pub proof fn law_failed_set_up_stops(s: PublishView, e: GitErrorView)
    requires
        s.phase == Phase::Auth,
    ensures
        s.next(ResponseView::Ended(OutcomeView::Failed(e))) == s.end(OutcomeView::Failed(e)),
{
}

/// The ladder is climbed once: every step takes the workflow further, so it
/// ends after at most eight answers and pushes at most twice.
pub proof fn law_ladder_climbs(s: PublishView, response: ResponseView)
    requires
        s.phase != Phase::Ended,
    ensures
        rank(s.next(response).0.phase) > rank(s.phase),
{
}

/// No retry without a yes: the push is asked for when the credentials are
/// set up and, after a failure, only when the operator has confirmed the
/// retry.
pub proof fn law_retry_needs_confirmation(s: PublishView, response: ResponseView)
    requires
        s.next(response).1 == RequestView::Run(push_args()),
    ensures
        (s.phase == Phase::Auth && response is Ended) || (s.phase == Phase::RetryConfirm
            && response == ResponseView::Flag(true)),
{
    if s.phase == Phase::Pushing || s.phase == Phase::Fetching || s.phase == Phase::Branch {
        reveal_strlit("push");
        reveal_strlit("fetch");
        reveal_strlit("branch");
        let args = s.next(response).1->Run_0;
        if s.phase == Phase::Pushing {
            assert(args[0] == "fetch"@);
        } else if s.phase == Phase::Branch {
            assert(args[0] == "branch"@);
        }
    }
}

/// A push that fails costs no commit: where the retry fails or is declined,
/// the workflow ends, not as a failure, with the commands that finish the
/// job by hand.
pub proof fn law_failed_push_is_reported(s: PublishView, e: GitErrorView)
    requires
        s.phase == Phase::RetryConfirm || s.phase == Phase::Retrying,
    ensures
        s.phase == Phase::RetryConfirm ==> s.next(ResponseView::Flag(false)) == s.give_up(),
        s.phase == Phase::Retrying ==> s.next(ResponseView::Status(Err(e))) == s.give_up(),
{
}

impl Publish {
    /// The workflow before its first step.
    pub fn new() -> (s: Publish)
        ensures
            s@ == (PublishView { phase: Phase::Start, branch: Seq::empty() }),
    {
        Publish { phase: Phase::Start, branch: String::new() }
    }

    fn end(&mut self, outcome: Outcome) -> (r: Request)
        ensures
            (final(self)@, r@) == old(self)@.end(outcome@),
    {
        self.phase = Phase::Ended;
        Request::Finish(outcome)
    }

    fn give_up(&mut self) -> (r: Request)
        ensures
            (final(self)@, r@) == old(self)@.give_up(),
    {
        let commands = manual_push_commands(self.branch.as_str());
        self.end(Outcome::Unpublished(commands))
    }

    /// Takes the answer to the last request and gives the next request.
    pub fn step(&mut self, response: Response) -> (r: Request)
        ensures
            (final(self)@, r@) == old(self)@.next(response@),
    {
        match (self.phase, response) {
            (Phase::Start, _) => {
                self.phase = Phase::Auth;
                Request::Sub(Flow::ConfigureAuth)
            },
            (Phase::Auth, Response::Ended(Outcome::Failed(e))) => self.end(Outcome::Failed(e)),
            (Phase::Auth, Response::Ended(_)) => {
                self.phase = Phase::Pushing;
                Request::Run(list2("push", "--"))
            },
            (Phase::Pushing, Response::Status(Ok(_))) => self.end(Outcome::Completed),
            (Phase::Pushing, Response::Status(Err(_))) => {
                self.phase = Phase::Fetching;
                Request::Run(list1("fetch"))
            },
            (Phase::Fetching, Response::Status(_)) => {
                self.phase = Phase::Branch;
                Request::Query(list3("rev-parse", "--abbrev-ref", "HEAD"))
            },
            (Phase::Branch, Response::Output(r)) => {
                self.phase = Phase::Tracking;
                self.branch = branch_name(r);
                let upstream = String::from_str("origin/").concat(self.branch.as_str());
                Request::Run(
                    list4(
                        "branch",
                        "--set-upstream-to",
                        upstream.as_str(),
                        self.branch.as_str(),
                    ),
                )
            },
            (Phase::Tracking, Response::Status(_)) => {
                self.phase = Phase::RetryConfirm;
                Request::Confirm(Question::RetryPush)
            },
            (Phase::RetryConfirm, Response::Flag(true)) => {
                self.phase = Phase::Retrying;
                Request::Run(list2("push", "--"))
            },
            (Phase::RetryConfirm, Response::Flag(false)) => self.give_up(),
            (Phase::Retrying, Response::Status(Ok(_))) => self.end(Outcome::Completed),
            (Phase::Retrying, Response::Status(Err(_))) => self.give_up(),
            _ => self.end(answered_out_of_turn()),
        }
    }
}

} // verus!
