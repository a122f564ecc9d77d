//! Staging and committing the changes of one pathspec. The operator sees
//! the changes and must acknowledge before they are staged, and again
//! before they are committed; nothing is staged or committed outside the
//! pathspec, nothing empty is committed, and no step is tried twice.

use vstd::prelude::*;
use vstd::string::*;
use crate::error::{GitError, GitErrorView};
use crate::exchange::{
    answer_text, answered_out_of_turn, finish, out_of_turn, text_of_answer, Gate, Outcome,
    OutcomeView, Prompt, Request, RequestView, Response, ResponseView,
};
use crate::text::{list3, list5, opt_text};
use crate::trim::{is_blank, is_blank_text, trim, trim_text};

verus! {

/// Where the workflow stands: what it asked last.
#[derive(Debug, Clone, Copy, PartialEq, Eq, Structural)]
pub enum Stage {
    /// Nothing has been asked yet.
    Idle,
    /// The changes are being shown.
    Listing,
    /// Whether there is anything to stage is being looked up.
    Detecting,
    /// The operator is asked to acknowledge the staging.
    StageGate,
    /// The pathspec is being staged.
    Staging,
    /// Staged: whether the staged diff holds anything is being looked up.
    Staged,
    /// Verified: the staged changes are being summarised.
    StagedVerified,
    /// The operator is asked to acknowledge the commit.
    CommitGate,
    /// The commit message is being asked.
    Message,
    /// The message is collected and the commit is being made.
    MessageCollected,
    /// The workflow is over.
    Ended,
}

/// The workflow for one pathspec.
#[derive(Debug, PartialEq, Eq)]
pub struct StageCommit {
    pub pathspec: String,
    pub stage: Stage,
}

/// `StageCommit` with its pathspec as a character sequence.
pub struct StageCommitView {
    pub pathspec: Seq<char>,
    pub stage: Stage,
}

impl View for StageCommit {
    type V = StageCommitView;

    open spec fn view(&self) -> StageCommitView {
        StageCommitView { pathspec: self.pathspec@, stage: self.stage }
    }
}

/// The command that stages `pathspec` and nothing else.
pub open spec fn stage_args(pathspec: Seq<char>) -> Seq<Seq<char>> {
    seq!["add"@, "--"@, pathspec]
}

/// The command that tells, by failing, that the staged diff of `pathspec`
/// holds something.
pub open spec fn staged_diff_args(pathspec: Seq<char>) -> Seq<Seq<char>> {
    seq!["diff"@, "--cached"@, "--quiet"@, "--"@, pathspec]
}

/// The command that summarises what is staged in `pathspec`.
pub open spec fn summary_args(pathspec: Seq<char>) -> Seq<Seq<char>> {
    seq!["diff"@, "--cached"@, "--stat"@, "--"@, pathspec]
}

/// Whether `args` end with the terminator and `pathspec`: they name no
/// other path, and the pathspec cannot be read as an option.
pub open spec fn ends_in_scope(args: Seq<Seq<char>>, pathspec: Seq<char>) -> bool {
    args.len() >= 3 && args[args.len() - 2] == "--"@ && args[args.len() - 1] == pathspec
}

/// The command that commits what is staged in `pathspec` with `message`.
pub open spec fn commit_args(message: Seq<char>, pathspec: Seq<char>) -> Seq<Seq<char>> {
    seq!["commit"@, "-m"@, message, "--"@, pathspec]
}

/// Whether the operator acknowledged: a line was read and it is blank.
pub open spec fn acknowledged(line: Option<Seq<char>>) -> bool {
    match line {
        Some(l) => is_blank(l),
        None => false,
    }
}

/// Whether the staged diff holds something: the command ran and ended
/// without success.
pub open spec fn has_staged(response: ResponseView) -> bool {
    match response {
        ResponseView::Captured(Ok(outcome)) => !outcome.success,
        _ => false,
    }
}

impl StageCommitView {
    /// This workflow at `stage`.
    pub open spec fn at(self, stage: Stage) -> StageCommitView {
        StageCommitView { stage, ..self }
    }

    /// The end of the workflow with `outcome`.
    pub open spec fn end(self, outcome: OutcomeView) -> (StageCommitView, RequestView) {
        (self.at(Stage::Ended), finish(outcome))
    }

    /// The state after `response`, and the next request.
    pub open spec fn next(self, response: ResponseView) -> (StageCommitView, RequestView) {
        match (self.stage, response) {
            (Stage::Idle, _) => (self.at(Stage::Listing), RequestView::ShowStatus(self.pathspec)),
            (Stage::Listing, ResponseView::Done) => (
                self.at(Stage::Detecting),
                RequestView::HasChanges(Some(self.pathspec)),
            ),
            (Stage::Detecting, ResponseView::Flag(true)) => (
                self.at(Stage::StageGate),
                RequestView::Acknowledge(Gate::Stage),
            ),
            (Stage::Detecting, ResponseView::Flag(false)) => self.end(
                OutcomeView::Failed(GitErrorView::NoChanges),
            ),
            (Stage::StageGate, ResponseView::Text(line)) => if acknowledged(line) {
                (self.at(Stage::Staging), RequestView::Run(stage_args(self.pathspec)))
            } else {
                self.end(OutcomeView::Cancelled)
            },
            (Stage::Staging, ResponseView::Status(Ok(_))) => (
                self.at(Stage::Staged),
                RequestView::Capture(staged_diff_args(self.pathspec)),
            ),
            (Stage::Staging, ResponseView::Status(Err(e))) => self.end(OutcomeView::Failed(e)),
            (Stage::Staged, ResponseView::Captured(_)) => if has_staged(response) {
                (self.at(Stage::StagedVerified), RequestView::Run(summary_args(self.pathspec)))
            } else {
                self.end(OutcomeView::Failed(GitErrorView::NoChanges))
            },
            (Stage::StagedVerified, ResponseView::Status(Ok(_))) => (
                self.at(Stage::CommitGate),
                RequestView::Acknowledge(Gate::Commit),
            ),
            (Stage::StagedVerified, ResponseView::Status(Err(e))) => self.end(
                OutcomeView::Failed(e),
            ),
            (Stage::CommitGate, ResponseView::Text(line)) => if acknowledged(line) {
                (self.at(Stage::Message), RequestView::Ask(Prompt::CommitMessage))
            } else {
                self.end(OutcomeView::Cancelled)
            },
            (Stage::Message, ResponseView::Text(answer)) => if is_blank(answer_text(answer)) {
                self.end(OutcomeView::Failed(GitErrorView::NoCommitMessage))
            } else {
                (
                    self.at(Stage::MessageCollected),
                    RequestView::Run(commit_args(trim(answer_text(answer)), self.pathspec)),
                )
            },
            (Stage::MessageCollected, ResponseView::Status(Ok(_))) => self.end(
                OutcomeView::Completed,
            ),
            (Stage::MessageCollected, ResponseView::Status(Err(e))) => self.end(
                OutcomeView::Failed(e),
            ),
            _ => self.end(out_of_turn()),
        }
    }
}

impl StageCommitView {
    /// The requests that the workflow makes, one for each of `responses`
    /// in turn.
    pub open spec fn requests(self, responses: Seq<ResponseView>) -> Seq<RequestView>
        decreases responses.len(),
    {
        if responses.len() == 0 {
            Seq::empty()
        } else {
            let (after, request) = self.next(responses[0]);
            seq![request] + after.requests(responses.skip(1))
        }
    }
}

/// How far the workflow has come: each step takes it further.
pub open spec fn rank(phase: Stage) -> nat {
    match phase {
        Stage::Idle => 0,
        Stage::Listing => 1,
        Stage::Detecting => 2,
        Stage::StageGate => 3,
        Stage::Staging => 4,
        Stage::Staged => 5,
        Stage::StagedVerified => 6,
        Stage::CommitGate => 7,
        Stage::Message => 8,
        Stage::MessageCollected => 9,
        Stage::Ended => 10,
    }
}

/// The workflow goes forward only: every step takes it further, so it
/// ends after at most ten answers and neither stages nor commits twice.
pub proof fn law_goes_forward(s: StageCommitView, response: ResponseView)
    requires
        s.stage != Stage::Ended,
    ensures
        rank(s.next(response).0.stage) > rank(s.stage),
{
}

/// Whether `request` stays within `pathspec`: it stages, inspects or
/// commits that pathspec and no other, or touches no path at all.
pub open spec fn scoped(request: RequestView, pathspec: Seq<char>) -> bool {
    match request {
        RequestView::Run(args) => {
            ||| args == stage_args(pathspec)
            ||| args == summary_args(pathspec)
            ||| exists|message: Seq<char>| args == commit_args(message, pathspec)
        },
        RequestView::Capture(args) => args == staged_diff_args(pathspec),
        RequestView::HasChanges(scope) => scope == Some(pathspec),
        RequestView::ShowStatus(scope) => scope == pathspec,
        RequestView::Acknowledge(_) | RequestView::Ask(_) | RequestView::Finish(_) => true,
        _ => false,
    }
}

/// Scoping, one step: whatever the state and the answer, the next request
/// stays within the pathspec, and the pathspec stays what it was.
pub proof fn law_step_scoped(s: StageCommitView, response: ResponseView)
    ensures
        scoped(s.next(response).1, s.pathspec),
        s.next(response).0.pathspec == s.pathspec,
{
    let (after, request) = s.next(response);
    match request {
        RequestView::Run(args) => {
        },
        _ => {},
    }
}

/// Every command of the workflow ends with the terminator and the
/// pathspec of the run.
pub proof fn law_commands_end_in_scope(s: StageCommitView, response: ResponseView)
    ensures
        match s.next(response).1 {
            RequestView::Run(args) => ends_in_scope(args, s.pathspec),
            RequestView::Capture(args) => ends_in_scope(args, s.pathspec),
            _ => true,
        },
{
}

/// Scoping, whole runs: whatever the answers, every request of a run stays
/// within the pathspec that the run was started with. Nothing outside it is
/// ever staged or committed.
pub proof fn law_run_scoped(s: StageCommitView, responses: Seq<ResponseView>, i: int)
    requires
        0 <= i < responses.len(),
    ensures
        s.requests(responses).len() == responses.len(),
        scoped(s.requests(responses)[i], s.pathspec),
    decreases responses.len(),
{
    let (after, request) = s.next(responses[0]);
    law_step_scoped(s, responses[0]);
    lemma_requests_len(after, responses.skip(1));
    if i > 0 {
        law_run_scoped(after, responses.skip(1), i - 1);
    }
}

/// A run makes one request for each answer.
pub proof fn lemma_requests_len(s: StageCommitView, responses: Seq<ResponseView>)
    ensures
        s.requests(responses).len() == responses.len(),
    decreases responses.len(),
{
    if responses.len() > 0 {
        lemma_requests_len(s.next(responses[0]).0, responses.skip(1));
    }
}

/// No acknowledgement, no action: at either gate, anything but a blank
/// line, and a line that cannot be read, ends the workflow as cancelled.
pub proof fn law_gate_cancels(s: StageCommitView, line: Option<Seq<char>>)
    requires
        s.stage == Stage::StageGate || s.stage == Stage::CommitGate,
        !acknowledged(line),
    ensures
        s.next(ResponseView::Text(line)) == s.end(OutcomeView::Cancelled),
{
}

/// No message, no commit: a blank commit message, or none, ends the
/// workflow with `NoCommitMessage`.
pub proof fn law_blank_message_ends(s: StageCommitView, answer: Option<Seq<char>>)
    requires
        s.stage == Stage::Message,
        is_blank(answer_text(answer)),
    ensures
        s.next(ResponseView::Text(answer)) == s.end(
            OutcomeView::Failed(GitErrorView::NoCommitMessage),
        ),
{
}

/// A commit takes a message: the workflow asks for a commit only in answer
/// to a commit message that is not blank, and commits with that message,
/// trimmed, in the pathspec of the run.
pub proof fn law_commit_needs_message(s: StageCommitView, response: ResponseView)
    requires
        s.next(response).1 matches RequestView::Run(args) && args.len() > 0 && args[0]
            == "commit"@,
    ensures
        s.stage == Stage::Message,
        response matches ResponseView::Text(answer) && !is_blank(answer_text(answer))
            && s.next(response).1 == RequestView::Run(
            commit_args(trim(answer_text(answer)), s.pathspec),
        ),
{
    reveal_strlit("commit");
    reveal_strlit("add");
    reveal_strlit("diff");
    let args = s.next(response).1->Run_0;
    if s.stage == Stage::StageGate {
        assert(args[0] == "add"@);
    } else if s.stage == Stage::Staged {
        assert(args[0] == "diff"@);
    }
}

/// Staging takes an acknowledgement: the workflow asks to stage only in
/// answer to a blank line at the first gate, and stages the pathspec of the
/// run and nothing else.
pub proof fn law_staging_needs_acknowledgement(s: StageCommitView, response: ResponseView)
    requires
        s.next(response).1 matches RequestView::Run(args) && args.len() > 0 && args[0]
            == "add"@,
    ensures
        s.stage == Stage::StageGate,
        response matches ResponseView::Text(line) && acknowledged(line),
        s.next(response).1 == RequestView::Run(stage_args(s.pathspec)),
{
    reveal_strlit("commit");
    reveal_strlit("add");
    reveal_strlit("diff");
    let args = s.next(response).1->Run_0;
    if s.stage == Stage::Message {
        assert(args[0] == "commit"@);
    } else if s.stage == Stage::Staged {
        assert(args[0] == "diff"@);
    }
}

/// No net change, no commit: where the staged diff of the pathspec is
/// empty, or there was nothing to stage, the workflow ends with `NoChanges`.
pub proof fn law_nothing_staged_ends(s: StageCommitView, response: ResponseView)
    requires
        (s.stage == Stage::Staged && response is Captured && !has_staged(response)) || (s.stage
            == Stage::Detecting && response == ResponseView::Flag(false)),
    ensures
        s.next(response) == s.end(OutcomeView::Failed(GitErrorView::NoChanges)),
{
}

/// Once over, always over: after its end the workflow asks for nothing but
/// to finish, so what ended without a commit never commits.
pub proof fn law_ended_asks_nothing(s: StageCommitView, responses: Seq<ResponseView>, i: int)
    requires
        s.stage == Stage::Ended,
        0 <= i < responses.len(),
    ensures
        s.requests(responses).len() == responses.len(),
        s.requests(responses)[i] is Finish,
    decreases responses.len(),
{
    let (after, request) = s.next(responses[0]);
    lemma_requests_len(after, responses.skip(1));
    if i > 0 {
        law_ended_asks_nothing(after, responses.skip(1), i - 1);
    }
}

impl StageCommit {
    /// The workflow for `pathspec`, before its first step.
    pub fn new(pathspec: String) -> (s: StageCommit)
        ensures
            s@ == (StageCommitView { pathspec: pathspec@, stage: Stage::Idle }),
    {
        StageCommit { pathspec, stage: Stage::Idle }
    }

    fn end(&mut self, outcome: Outcome) -> (r: Request)
        ensures
            (final(self)@, r@) == old(self)@.end(outcome@),
    {
        self.stage = Stage::Ended;
        Request::Finish(outcome)
    }

    /// Takes the answer to the last request and gives the next request.
    pub fn step(&mut self, response: Response) -> (r: Request)
        ensures
            (final(self)@, r@) == old(self)@.next(response@),
    {
        let pathspec = self.pathspec.as_str();
        match (self.stage, response) {
            (Stage::Idle, _) => {
                self.stage = Stage::Listing;
                Request::ShowStatus(self.pathspec.clone())
            },
            (Stage::Listing, Response::Done) => {
                self.stage = Stage::Detecting;
                Request::HasChanges(Some(self.pathspec.clone()))
            },
            (Stage::Detecting, Response::Flag(true)) => {
                self.stage = Stage::StageGate;
                Request::Acknowledge(Gate::Stage)
            },
            (Stage::Detecting, Response::Flag(false)) => self.end(
                Outcome::Failed(GitError::NoChanges),
            ),
            (Stage::StageGate, Response::Text(line)) => {
                if is_acknowledged(&line) {
                    self.stage = Stage::Staging;
                    Request::Run(list3("add", "--", pathspec))
                } else {
                    self.end(Outcome::Cancelled)
                }
            },
            (Stage::Staging, Response::Status(Ok(_))) => {
                self.stage = Stage::Staged;
                Request::Capture(list5("diff", "--cached", "--quiet", "--", pathspec))
            },
            (Stage::Staging, Response::Status(Err(e))) => self.end(Outcome::Failed(e)),
            (Stage::Staged, Response::Captured(r)) => {
                let staged = match r {
                    Ok(outcome) => !outcome.success,
                    Err(_) => false,
                };
                if staged {
                    self.stage = Stage::StagedVerified;
                    Request::Run(list5("diff", "--cached", "--stat", "--", pathspec))
                } else {
                    self.end(Outcome::Failed(GitError::NoChanges))
                }
            },
            (Stage::StagedVerified, Response::Status(Ok(_))) => {
                self.stage = Stage::CommitGate;
                Request::Acknowledge(Gate::Commit)
            },
            (Stage::StagedVerified, Response::Status(Err(e))) => self.end(Outcome::Failed(e)),
            (Stage::CommitGate, Response::Text(line)) => {
                if is_acknowledged(&line) {
                    self.stage = Stage::Message;
                    Request::Ask(Prompt::CommitMessage)
                } else {
                    self.end(Outcome::Cancelled)
                }
            },
            (Stage::Message, Response::Text(answer)) => {
                let text = text_of_answer(answer);
                if is_blank_text(text.as_str()) {
                    self.end(Outcome::Failed(GitError::NoCommitMessage))
                } else {
                    let message = trim_text(text.as_str());
                    self.stage = Stage::MessageCollected;
                    Request::Run(list5("commit", "-m", message.as_str(), "--", pathspec))
                }
            },
            (Stage::MessageCollected, Response::Status(Ok(_))) => self.end(Outcome::Completed),
            (Stage::MessageCollected, Response::Status(Err(e))) => self.end(Outcome::Failed(e)),
            _ => self.end(answered_out_of_turn()),
        }
    }
}

/// Whether the operator acknowledged: a line was read and it is blank.
pub fn is_acknowledged(line: &Option<String>) -> (b: bool)
    ensures
        b == acknowledged(opt_text(*line)),
{
    match line {
        Some(l) => is_blank_text(l.as_str()),
        None => false,
    }
}

} // verus!
