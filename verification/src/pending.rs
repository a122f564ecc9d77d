//! Commits that were made before this run and never pushed: before a new
//! commit is made, the operator may push them. A push is tried only with a
//! token at hand and the network in reach.

use vstd::prelude::*;
use crate::error::{GitError, GitErrorView};
use crate::exchange::{
    answered_out_of_turn, finish, out_of_turn, Flow, Outcome, OutcomeView, Question, Request,
    RequestView, Response, ResponseView,
};
use crate::text::list2;

verus! {

/// Where the workflow stands: what it asked last.
#[derive(Debug, Clone, Copy, PartialEq, Eq, Structural)]
pub enum Phase {
    Start,
    Counting,
    Offer,
    Token,
    Internet,
    Auth,
    Pushing,
    Ended,
}

/// The workflow.
#[derive(Debug, Clone, Copy, PartialEq, Eq, Structural)]
pub struct PendingPushes {
    pub phase: Phase,
}

/// The push of what the branch holds.
pub open spec fn push_args() -> Seq<Seq<char>> {
    seq!["push"@, "--"@]
}

impl PendingPushes {
    /// This workflow in the phase `phase`.
    pub open spec fn at(phase: Phase) -> PendingPushes {
        PendingPushes { phase }
    }

    /// The end of the workflow with `outcome`.
    pub open spec fn end(outcome: OutcomeView) -> (PendingPushes, RequestView) {
        (Self::at(Phase::Ended), finish(outcome))
    }

    /// The state after `response`, and the next request.
    pub open spec fn next(self, response: ResponseView) -> (PendingPushes, RequestView) {
        match (self.phase, response) {
            (Phase::Start, _) => (Self::at(Phase::Counting), RequestView::Divergence),
            (Phase::Counting, ResponseView::Counts(ahead, _)) => if ahead == 0 {
                Self::end(OutcomeView::Skipped)
            } else {
                (Self::at(Phase::Offer), RequestView::Confirm(Question::PushExistingFirst))
            },
            (Phase::Offer, ResponseView::Flag(true)) => (
                Self::at(Phase::Token),
                RequestView::Token,
            ),
            (Phase::Offer, ResponseView::Flag(false)) => Self::end(OutcomeView::Skipped),
            (Phase::Token, ResponseView::Text(Some(_))) => (
                Self::at(Phase::Internet),
                RequestView::Internet,
            ),
            (Phase::Token, ResponseView::Text(None)) => Self::end(
                OutcomeView::Failed(GitErrorView::NoToken),
            ),
            (Phase::Internet, ResponseView::Flag(true)) => (
                Self::at(Phase::Auth),
                RequestView::Sub(Flow::ConfigureAuth),
            ),
            (Phase::Internet, ResponseView::Flag(false)) => Self::end(
                OutcomeView::Failed(GitErrorView::NoInternet),
            ),
            (Phase::Auth, ResponseView::Ended(OutcomeView::Failed(e))) => Self::end(
                OutcomeView::Failed(e),
            ),
            (Phase::Auth, ResponseView::Ended(_)) => (
                Self::at(Phase::Pushing),
                RequestView::Run(push_args()),
            ),
            (Phase::Pushing, ResponseView::Status(Ok(_))) => Self::end(OutcomeView::Completed),
            (Phase::Pushing, ResponseView::Status(Err(e))) => Self::end(OutcomeView::Failed(e)),
            _ => Self::end(out_of_turn()),
        }
    }

    /// The requests that the workflow makes, one for each of `responses`
    /// in turn.
    pub open spec fn requests(self, responses: Seq<ResponseView>) -> Seq<RequestView>
        decreases responses.len(),
    {
        if responses.len() == 0 {
            Seq::empty()
        } else {
            let (after, request) = self.next(responses[0]);
            seq![request] + after.requests(responses.skip(1))
        }
    }

    /// The workflow before its first step.
    pub fn new() -> (s: PendingPushes)
        ensures
            s == (PendingPushes { phase: Phase::Start }),
    {
        PendingPushes { phase: Phase::Start }
    }

    fn finish_with(&mut self, outcome: Outcome) -> (r: Request)
        ensures
            (*final(self), r@) == Self::end(outcome@),
    {
        self.phase = Phase::Ended;
        Request::Finish(outcome)
    }

    /// Takes the answer to the last request and gives the next request.
    pub fn step(&mut self, response: Response) -> (r: Request)
        ensures
            (*final(self), r@) == old(self).next(response@),
    {
        match (self.phase, response) {
            (Phase::Start, _) => {
                self.phase = Phase::Counting;
                Request::Divergence
            },
            (Phase::Counting, Response::Counts(ahead, _)) => {
                if ahead == 0 {
                    self.finish_with(Outcome::Skipped)
                } else {
                    self.phase = Phase::Offer;
                    Request::Confirm(Question::PushExistingFirst)
                }
            },
            (Phase::Offer, Response::Flag(true)) => {
                self.phase = Phase::Token;
                Request::Token
            },
            (Phase::Offer, Response::Flag(false)) => self.finish_with(Outcome::Skipped),
            (Phase::Token, Response::Text(Some(_))) => {
                self.phase = Phase::Internet;
                Request::Internet
            },
            (Phase::Token, Response::Text(None)) => self.finish_with(
                Outcome::Failed(GitError::NoToken),
            ),
            (Phase::Internet, Response::Flag(true)) => {
                self.phase = Phase::Auth;
                Request::Sub(Flow::ConfigureAuth)
            },
            (Phase::Internet, Response::Flag(false)) => self.finish_with(
                Outcome::Failed(GitError::NoInternet),
            ),
            (Phase::Auth, Response::Ended(Outcome::Failed(e))) => self.finish_with(
                Outcome::Failed(e),
            ),
            (Phase::Auth, Response::Ended(_)) => {
                self.phase = Phase::Pushing;
                Request::Run(list2("push", "--"))
            },
            (Phase::Pushing, Response::Status(Ok(_))) => self.finish_with(Outcome::Completed),
            (Phase::Pushing, Response::Status(Err(e))) => self.finish_with(Outcome::Failed(e)),
            _ => self.finish_with(answered_out_of_turn()),
        }
    }
}

/// How far the workflow has come: each step takes it further.
pub open spec fn rank(phase: Phase) -> nat {
    match phase {
        Phase::Start => 0,
        Phase::Counting => 1,
        Phase::Offer => 2,
        Phase::Token => 3,
        Phase::Internet => 4,
        Phase::Auth => 5,
        Phase::Pushing => 6,
        Phase::Ended => 7,
    }
}

/// The workflow goes forward only: every step takes it further, so it
/// ends after at most seven answers and pushes at most once.
pub proof fn law_goes_forward(s: PendingPushes, response: ResponseView)
    requires
        s.phase != Phase::Ended,
    ensures
        rank(s.next(response).0.phase) > rank(s.phase),
{
}

/// A run makes one request for each answer.
pub proof fn lemma_requests_len(s: PendingPushes, responses: Seq<ResponseView>)
    ensures
        s.requests(responses).len() == responses.len(),
    decreases responses.len(),
{
    if responses.len() > 0 {
        lemma_requests_len(s.next(responses[0]).0, responses.skip(1));
    }
}

/// After its end the workflow asks for nothing but to finish.
pub proof fn lemma_ended_asks_nothing(s: PendingPushes, responses: Seq<ResponseView>, i: int)
    requires
        s.phase == Phase::Ended,
        0 <= i < responses.len(),
    ensures
        s.requests(responses).len() == responses.len(),
        s.requests(responses)[i] is Finish,
    decreases responses.len(),
{
    let after = s.next(responses[0]).0;
    lemma_requests_len(after, responses.skip(1));
    if i > 0 {
        lemma_ended_asks_nothing(after, responses.skip(1), i - 1);
    }
}

/// Nothing ahead, nothing pushed: where the count says that no commit is
/// ahead of the upstream, the workflow ends as skipped, and whatever
/// answers follow, it asks for no push, no token and no question.
pub proof fn law_nothing_ahead_never_pushes(
    s: PendingPushes,
    behind: usize,
    later: Seq<ResponseView>,
    i: int,
)
    requires
        s.phase == Phase::Counting,
        0 <= i < later.len() + 1,
    ensures
        s.next(ResponseView::Counts(0, behind)) == PendingPushes::end(OutcomeView::Skipped),
        s.requests(seq![ResponseView::Counts(0, behind)] + later).len() == later.len() + 1,
        s.requests(seq![ResponseView::Counts(0, behind)] + later)[i] is Finish,
{
    let responses = seq![ResponseView::Counts(0, behind)] + later;
    let after = s.next(responses[0]).0;
    assert(responses.skip(1) =~= later);
    lemma_requests_len(after, later);
    if i > 0 {
        lemma_ended_asks_nothing(after, later, i - 1);
    }
}

/// Never a blind push: a push is asked for only after the token was found,
/// the network was reached, and the credentials were set up. Without a token
/// the workflow ends with `NoToken`, without the network with `NoInternet`.
pub proof fn law_push_needs_token_and_network(s: PendingPushes, response: ResponseView)
    ensures
        s.next(response).1 is Run ==> s.phase == Phase::Auth && s.next(response).1
            == RequestView::Run(push_args()),
        s.next(response).0.phase == Phase::Auth ==> s.phase == Phase::Internet && response
            == ResponseView::Flag(true),
        s.next(response).0.phase == Phase::Internet ==> s.phase == Phase::Token
            && response is Text && response->Text_0 is Some,
        s.phase == Phase::Token && response == ResponseView::Text(None) ==> s.next(response)
            == PendingPushes::end(OutcomeView::Failed(GitErrorView::NoToken)),
        s.phase == Phase::Internet && response == ResponseView::Flag(false) ==> s.next(response)
            == PendingPushes::end(OutcomeView::Failed(GitErrorView::NoInternet)),
{
}

} // verus!
