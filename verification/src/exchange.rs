//! What a workflow asks of its host, and what the host answers.
//!
//! A workflow never touches the repository, the terminal or the network
//! itself. It hands its host one `Request` at a time; the host carries it
//! out and hands back the `Response`; the workflow decides the next request
//! from that, until it asks to `Finish`.

use vstd::prelude::*;
use crate::error::{GitError, GitErrorView};
use crate::process::{CommandOutcome, CommandOutcomeView};
use crate::text::{opt_text, texts};

verus! {

/// Why the preflight guard stops a run.
#[derive(Debug, Clone, Copy, PartialEq, Eq, Structural)]
pub enum Block {
    /// Files are reported as unmerged.
    UnresolvedConflicts,
    /// A merge has been started and not concluded.
    MergeInProgress,
    /// Changes are stashed and the operator would not go on.
    StashPending,
}

/// A yes-or-no question to the operator.
#[derive(Debug, Clone, Copy, PartialEq, Eq, Structural)]
pub enum Question {
    ContinueDespiteStash,
    PushExistingFirst,
    CreateRemote,
    PrivateRepository,
    AdoptExisting,
    UpdateRemote,
    RetryPush,
    InitializeRepository,
}

/// A point where the operator must press Enter to go on.
#[derive(Debug, Clone, Copy, PartialEq, Eq, Structural)]
pub enum Gate {
    Stage,
    Commit,
    Push,
    ViewIncoming,
    Sync,
}

/// A line of text asked of the operator.
#[derive(Debug, Clone, Copy, PartialEq, Eq, Structural)]
pub enum Prompt {
    CommitMessage,
    RepositoryName,
    Description,
    InitialMessage,
}

/// A workflow that another workflow asks its host to run.
#[derive(Debug, Clone, Copy, PartialEq, Eq, Structural)]
pub enum Flow {
    Preflight,
    ConfigureAuth,
    PendingPushes,
    SyncStatus,
    Publish,
    Initialize,
}

/// How a workflow ended.
#[derive(Debug, PartialEq, Eq)]
pub enum Outcome {
    /// It ran to its end.
    Completed,
    /// There was nothing for it to do, or the operator chose not to do it.
    Skipped,
    /// The operator stopped it at an interactive gate.
    Cancelled,
    /// The preflight guard stopped it.
    Blocked(Block),
    /// The changes are in these top-level folders, none in the scope.
    Elsewhere(Vec<String>),
    /// The commits are kept locally and were not pushed; these commands
    /// finish the job by hand.
    Unpublished(Vec<String>),
    /// It failed.
    Failed(GitError),
}

/// An `Outcome` with its texts as character sequences.
pub enum OutcomeView {
    Completed,
    Skipped,
    Cancelled,
    Blocked(Block),
    Elsewhere(Seq<Seq<char>>),
    Unpublished(Seq<Seq<char>>),
    Failed(GitErrorView),
}

impl View for Outcome {
    type V = OutcomeView;

    open spec fn view(&self) -> OutcomeView {
        match self {
            Outcome::Completed => OutcomeView::Completed,
            Outcome::Skipped => OutcomeView::Skipped,
            Outcome::Cancelled => OutcomeView::Cancelled,
            Outcome::Blocked(b) => OutcomeView::Blocked(*b),
            Outcome::Elsewhere(folders) => OutcomeView::Elsewhere(texts(folders@)),
            Outcome::Unpublished(commands) => OutcomeView::Unpublished(texts(commands@)),
            Outcome::Failed(e) => OutcomeView::Failed(e@),
        }
    }
}

/// A call of the hosting service: a `POST` with `body`, or a `GET` without
/// one, carrying `authorization` as its credential.
#[derive(Debug, PartialEq, Eq)]
pub struct ApiCall {
    pub url: String,
    pub authorization: String,
    pub body: Option<String>,
}

/// An `ApiCall` with its texts as character sequences.
pub struct ApiCallView {
    pub url: Seq<char>,
    pub authorization: Seq<char>,
    pub body: Option<Seq<char>>,
}

impl View for ApiCall {
    type V = ApiCallView;

    open spec fn view(&self) -> ApiCallView {
        ApiCallView {
            url: self.url@,
            authorization: self.authorization@,
            body: opt_text(self.body),
        }
    }
}

/// What a workflow asks of its host.
#[derive(Debug, PartialEq, Eq)]
pub enum Request {
    /// Run the version-control tool with these arguments in the repository
    /// root, echoing its output. Answered by `Status`.
    Run(Vec<String>),
    /// Run it and hand back what it printed. Answered by `Output`.
    Query(Vec<String>),
    /// Run it and hand back the raw outcome. Answered by `Captured`.
    Capture(Vec<String>),
    /// Run it with this text on its standard input. Answered by `Captured`.
    Feed(Vec<String>, String),
    /// Ask the operator a yes-or-no question. Answered by `Flag`.
    Confirm(Question),
    /// Wait for the operator to press Enter. Answered by `Text`: the line
    /// read, or nothing if reading failed.
    Acknowledge(Gate),
    /// Ask the operator for a line of text. Answered by `Text`.
    Ask(Prompt),
    /// Find the repository that holds this directory. Answered by `Text`:
    /// its root, or nothing if there is none.
    Locate(String),
    /// Resolve the access token. Answered by `Text`.
    Token,
    /// Probe whether the network can be reached. Answered by `Flag`.
    Internet,
    /// Look up the URL of the remote. Answered by `Text`.
    RemoteUrl,
    /// Tell whether there are changes, in this pathspec or anywhere.
    /// Answered by `Flag`.
    HasChanges(Option<String>),
    /// Measure the divergence from the upstream. Answered by `Counts`.
    Divergence,
    /// Show the status of this pathspec, grouped by folder. Answered by
    /// `Done`.
    ShowStatus(String),
    /// List the top-level folders with changes in this pathspec. Answered
    /// by `Folders`.
    ListFolders(String),
    /// Tell whether this path below the repository root exists. Answered by
    /// `Flag`.
    Exists(String),
    /// Write this text to this path below the repository root. Answered by
    /// `Status`.
    Write(String, String),
    /// Call the hosting service. Answered by `Http`.
    Http(ApiCall),
    /// Run another workflow. Answered by `Ended`.
    Sub(Flow),
    /// Stage and commit the changes of this pathspec. Answered by `Ended`.
    StageCommit(String),
    /// Create the remote repository, offering this name. Answered by
    /// `Ended`.
    CreateRemote(String),
    /// The workflow is over.
    Finish(Outcome),
}

/// A `Request` with its texts as character sequences.
pub enum RequestView {
    Run(Seq<Seq<char>>),
    Query(Seq<Seq<char>>),
    Capture(Seq<Seq<char>>),
    Feed(Seq<Seq<char>>, Seq<char>),
    Confirm(Question),
    Acknowledge(Gate),
    Ask(Prompt),
    Locate(Seq<char>),
    Token,
    Internet,
    RemoteUrl,
    HasChanges(Option<Seq<char>>),
    Divergence,
    ShowStatus(Seq<char>),
    ListFolders(Seq<char>),
    Exists(Seq<char>),
    Write(Seq<char>, Seq<char>),
    Http(ApiCallView),
    Sub(Flow),
    StageCommit(Seq<char>),
    CreateRemote(Seq<char>),
    Finish(OutcomeView),
}

impl View for Request {
    type V = RequestView;

    open spec fn view(&self) -> RequestView {
        match self {
            Request::Run(args) => RequestView::Run(texts(args@)),
            Request::Query(args) => RequestView::Query(texts(args@)),
            Request::Capture(args) => RequestView::Capture(texts(args@)),
            Request::Feed(args, input) => RequestView::Feed(texts(args@), input@),
            Request::Confirm(q) => RequestView::Confirm(*q),
            Request::Acknowledge(g) => RequestView::Acknowledge(*g),
            Request::Ask(p) => RequestView::Ask(*p),
            Request::Locate(from) => RequestView::Locate(from@),
            Request::Token => RequestView::Token,
            Request::Internet => RequestView::Internet,
            Request::RemoteUrl => RequestView::RemoteUrl,
            Request::HasChanges(scope) => RequestView::HasChanges(opt_text(*scope)),
            Request::Divergence => RequestView::Divergence,
            Request::ShowStatus(scope) => RequestView::ShowStatus(scope@),
            Request::ListFolders(scope) => RequestView::ListFolders(scope@),
            Request::Exists(path) => RequestView::Exists(path@),
            Request::Write(path, content) => RequestView::Write(path@, content@),
            Request::Http(call) => RequestView::Http(call@),
            Request::Sub(flow) => RequestView::Sub(*flow),
            Request::StageCommit(pathspec) => RequestView::StageCommit(pathspec@),
            Request::CreateRemote(name) => RequestView::CreateRemote(name@),
            Request::Finish(outcome) => RequestView::Finish(outcome@),
        }
    }
}

/// What the host answers.
#[derive(Debug, PartialEq, Eq)]
pub enum Response {
    /// The request was carried out; also the answer that starts a workflow.
    Done,
    Flag(bool),
    Text(Option<String>),
    Folders(Vec<String>),
    Status(Result<(), GitError>),
    Output(Result<String, GitError>),
    /// The outcome of the command, or the system's message if it could not
    /// be run.
    Captured(Result<CommandOutcome, String>),
    /// Commits ahead of the upstream, and behind it.
    Counts(usize, usize),
    /// The status code and body of the reply, or the message of the
    /// transport if there was no reply.
    Http(Result<(u16, String), String>),
    Ended(Outcome),
}

/// A `Response` with its texts as character sequences.
pub enum ResponseView {
    Done,
    Flag(bool),
    Text(Option<Seq<char>>),
    Folders(Seq<Seq<char>>),
    Status(Result<(), GitErrorView>),
    Output(Result<Seq<char>, GitErrorView>),
    Captured(Result<CommandOutcomeView, Seq<char>>),
    Counts(usize, usize),
    Http(Result<(u16, Seq<char>), Seq<char>>),
    Ended(OutcomeView),
}

impl View for Response {
    type V = ResponseView;

    open spec fn view(&self) -> ResponseView {
        match self {
            Response::Done => ResponseView::Done,
            Response::Flag(b) => ResponseView::Flag(*b),
            Response::Text(t) => ResponseView::Text(opt_text(*t)),
            Response::Folders(f) => ResponseView::Folders(texts(f@)),
            Response::Status(r) => ResponseView::Status(
                match r {
                    Ok(_) => Ok(()),
                    Err(e) => Err(e@),
                },
            ),
            Response::Output(r) => ResponseView::Output(
                match r {
                    Ok(s) => Ok(s@),
                    Err(e) => Err(e@),
                },
            ),
            Response::Captured(r) => ResponseView::Captured(
                match r {
                    Ok(o) => Ok(o@),
                    Err(m) => Err(m@),
                },
            ),
            Response::Counts(ahead, behind) => ResponseView::Counts(*ahead, *behind),
            Response::Http(r) => ResponseView::Http(
                match r {
                    Ok((status, body)) => Ok((*status, body@)),
                    Err(m) => Err(m@),
                },
            ),
            Response::Ended(outcome) => ResponseView::Ended(outcome@),
        }
    }
}

/// The request that ends a workflow with `outcome`.
pub open spec fn finish(outcome: OutcomeView) -> RequestView {
    RequestView::Finish(outcome)
}

/// How a workflow ends when it is given an answer that does not fit what
/// it asked.
pub open spec fn out_of_turn() -> OutcomeView {
    OutcomeView::Failed(GitErrorView::Other("unexpected answer"@))
}

/// How a workflow ends when it is given an answer that does not fit what
/// it asked.
pub fn answered_out_of_turn() -> (r: Outcome)
    ensures
        r@ == out_of_turn(),
{
    Outcome::Failed(GitError::other("unexpected answer"))
}

/// The text of an answer; a failed read counts as an empty answer.
pub open spec fn answer_text(answer: Option<Seq<char>>) -> Seq<char> {
    match answer {
        Some(t) => t,
        None => Seq::empty(),
    }
}

/// The text of an answer; a failed read counts as an empty answer.
pub fn text_of_answer(answer: Option<String>) -> (r: String)
    ensures
        r@ == answer_text(opt_text(answer)),
{
    match answer {
        Some(t) => t,
        None => String::new(),
    }
}

} // verus!
