//! Creating the remote repository when none is configured, and publishing
//! to it: the name is asked and checked, the hosting service is called, and
//! an existing repository of that name can be adopted. The credentials are
//! set up before the first push, and a failed push, after adoption too, is
//! followed by fetch, tracking and one confirmed retry. A first commit is
//! made only in a repository known to have none: a number of commits that
//! cannot be read counts as commits.

use vstd::prelude::*;
use vstd::string::*;
use crate::error::{GitError, GitErrorView};
use crate::exchange::{
    answer_text, answered_out_of_turn, finish, out_of_turn, text_of_answer, ApiCall, ApiCallView,
    Flow, Outcome, OutcomeView, Prompt, Question, Request, RequestView, Response, ResponseView,
};
use crate::hosting::{
    answer_or, answer_or_default, api_failure, bearer, created_urls, creation_request,
    creation_request_body, describe_api_failure, identity_login, is_name_conflict, is_valid_name,
    login_of, name_conflict, repository_page, repository_page_url, success_status, urls_of,
    valid_name,
};
use crate::json;
use crate::text::{list1, list2, list3, list4, same_text, texts};
use crate::trim::{trim, trim_text};

verus! {

/// Where the workflow stands: what it asked last.
#[derive(Debug, Clone, Copy, PartialEq, Eq, Structural)]
pub enum Phase {
    Start,
    Internet,
    Token,
    Name,
    Description,
    Visibility,
    Creating,
    Adopting,
    Identity,
    Remote,
    Pointing,
    AdoptBranch,
    Branch,
    AddRemote,
    ExistingRemote,
    UpdateRemote,
    SetUrl,
    CommitCount,
    InitialMessage,
    AddAll,
    InitialCommit,
    Auth,
    Push,
    Fetch,
    Tracking,
    RetryConfirm,
    RetryPush,
    Finished,
}

/// The workflow: its phase and what it has learned so far.
#[derive(Debug, PartialEq, Eq)]
pub struct CreateRemote {
    pub phase: Phase,
    /// The name offered to the operator: that of the repository's directory.
    pub default_name: String,
    pub token: String,
    pub name: String,
    pub description: String,
    pub private: bool,
    /// Where the repository is shown, once known.
    pub page: String,
    /// Where it is pushed to, once known.
    pub clone_url: String,
    pub branch: String,
    pub message: String,
    /// Why adding the remote failed, kept while the existing one is looked up.
    pub rejected: Option<GitError>,
}

/// `CreateRemote` with its texts as character sequences.
pub struct CreateRemoteView {
    pub phase: Phase,
    pub default_name: Seq<char>,
    pub token: Seq<char>,
    pub name: Seq<char>,
    pub description: Seq<char>,
    pub private: bool,
    pub page: Seq<char>,
    pub clone_url: Seq<char>,
    pub branch: Seq<char>,
    pub message: Seq<char>,
    pub rejected: Option<GitErrorView>,
}

impl View for CreateRemote {
    type V = CreateRemoteView;

    open spec fn view(&self) -> CreateRemoteView {
        CreateRemoteView {
            phase: self.phase,
            default_name: self.default_name@,
            token: self.token@,
            name: self.name@,
            description: self.description@,
            private: self.private,
            page: self.page@,
            clone_url: self.clone_url@,
            branch: self.branch@,
            message: self.message@,
            rejected: match self.rejected {
                Some(e) => Some(e@),
                None => None,
            },
        }
    }
}

/// The branch to push: the one the query named, or `main` where it failed.
pub open spec fn branch_or_main(r: Result<Seq<char>, GitErrorView>) -> Seq<char> {
    match r {
        Ok(b) => trim(b),
        Err(_) => "main"@,
    }
}

/// The commands that finish a push by hand.
pub open spec fn manual_commands(branch: Seq<char>) -> Seq<Seq<char>> {
    seq![
        "git branch --set-upstream-to=origin/"@ + branch + " "@ + branch,
        "git push -u origin "@ + branch,
    ]
}

/// The call that creates the repository.
pub open spec fn creation_call(token: Seq<char>, body: Seq<char>) -> ApiCallView {
    ApiCallView {
        url: "https://api.github.com/user/repos"@,
        authorization: "Bearer "@ + token,
        body: Some(body),
    }
}

/// The call that asks who the token belongs to.
pub open spec fn identity_call(token: Seq<char>) -> ApiCallView {
    ApiCallView {
        url: "https://api.github.com/user"@,
        authorization: "Bearer "@ + token,
        body: None,
    }
}

/// Whether the repository has commits, from the answer to the query for
/// their number: it has none only where the number was read and is zero. A
/// number that cannot be read never leads to a first commit.
pub open spec fn has_commits(r: Result<Seq<char>, GitErrorView>) -> bool {
    match r {
        Ok(count) => trim(count) != "0"@,
        Err(_) => true,
    }
}

/// The request that sets up the credentials.
pub open spec fn set_up() -> RequestView {
    RequestView::Sub(Flow::ConfigureAuth)
}

/// The push that publishes `branch` and sets its upstream.
pub open spec fn push_upstream(branch: Seq<char>) -> RequestView {
    RequestView::Run(seq!["push"@, "-u"@, "origin"@, branch])
}

/// The query for the current branch.
pub open spec fn branch_query() -> RequestView {
    RequestView::Query(seq!["rev-parse"@, "--abbrev-ref"@, "HEAD"@])
}

/// The query for the number of commits.
pub open spec fn commit_count_query() -> RequestView {
    RequestView::Query(seq!["rev-list"@, "--count"@, "--all"@])
}

impl CreateRemoteView {
    /// The workflow before its first step: nothing is known but the name
    /// to offer.
    pub open spec fn initial(default_name: Seq<char>) -> CreateRemoteView {
        CreateRemoteView {
            phase: Phase::Start,
            default_name,
            token: Seq::empty(),
            name: Seq::empty(),
            description: Seq::empty(),
            private: false,
            page: Seq::empty(),
            clone_url: Seq::empty(),
            branch: Seq::empty(),
            message: Seq::empty(),
            rejected: None,
        }
    }

    /// This state, in the phase `phase`.
    pub open spec fn at(self, phase: Phase) -> CreateRemoteView {
        CreateRemoteView { phase, ..self }
    }

    /// The end of the workflow with `outcome`.
    pub open spec fn end(self, outcome: OutcomeView) -> (CreateRemoteView, RequestView) {
        (self.at(Phase::Finished), finish(outcome))
    }

    /// The end of the workflow with the failure `e`.
    pub open spec fn end_failed(self, e: GitErrorView) -> (CreateRemoteView, RequestView) {
        self.end(OutcomeView::Failed(e))
    }

    /// The end of the workflow on an answer that does not fit.
    pub open spec fn end_out_of_turn(self) -> (CreateRemoteView, RequestView) {
        self.end(out_of_turn())
    }

    /// The step while the preconditions are checked and the operator
    /// describes the repository.
    pub open spec fn next_gathering(self, response: ResponseView) -> (
        CreateRemoteView,
        RequestView,
    ) {
        match (self.phase, response) {
            (Phase::Start, _) => (self.at(Phase::Internet), RequestView::Internet),
            (Phase::Internet, ResponseView::Flag(true)) => (
                self.at(Phase::Token),
                RequestView::Token,
            ),
            (Phase::Internet, ResponseView::Flag(false)) => self.end_failed(
                GitErrorView::NoInternet,
            ),
            (Phase::Token, ResponseView::Text(Some(token))) => (
                CreateRemoteView { phase: Phase::Name, token, ..self },
                RequestView::Ask(Prompt::RepositoryName),
            ),
            (Phase::Token, ResponseView::Text(None)) => self.end_failed(GitErrorView::NoToken),
            (Phase::Name, ResponseView::Text(answer)) => {
                let name = answer_or(answer_text(answer), self.default_name);
                if valid_name(name) {
                    (
                        CreateRemoteView { phase: Phase::Description, name, ..self },
                        RequestView::Ask(Prompt::Description),
                    )
                } else {
                    (self, RequestView::Ask(Prompt::RepositoryName))
                }
            },
            (Phase::Description, ResponseView::Text(answer)) => (
                CreateRemoteView {
                    phase: Phase::Visibility,
                    description: answer_text(answer),
                    ..self
                },
                RequestView::Confirm(Question::PrivateRepository),
            ),
            (Phase::Visibility, ResponseView::Flag(private)) => {
                (
                    CreateRemoteView { phase: Phase::Creating, private, ..self },
                    RequestView::Http(
                        creation_call(
                            self.token,
                            creation_request(self.name, private, self.description),
                        ),
                    ),
                )
            },
            _ => self.end_out_of_turn(),
        }
    }

    /// The step on the reply of the creation call.
    pub open spec fn next_created(self, response: ResponseView) -> (
        CreateRemoteView,
        RequestView,
    ) {
        match response {
            ResponseView::Http(Err(message)) => self.end_failed(
                GitErrorView::Other("Failed to send request to GitHub API: "@ + message),
            ),
            ResponseView::Http(Ok((status, body))) => {
                if success_status(status) {
                    match urls_of(json::parsed_members(body)) {
                        Ok(urls) => (
                            CreateRemoteView {
                                phase: Phase::Branch,
                                page: urls.html_url,
                                clone_url: urls.clone_url,
                                ..self
                            },
                            branch_query(),
                        ),
                        Err(e) => self.end_failed(e),
                    }
                } else if name_conflict(status, body) {
                    (self.at(Phase::Adopting), RequestView::Confirm(Question::AdoptExisting))
                } else {
                    self.end_failed(GitErrorView::Other(api_failure(status, body)))
                }
            },
            _ => self.end_out_of_turn(),
        }
    }

    /// The step while an existing repository of the same name is adopted.
    pub open spec fn next_adopting(self, response: ResponseView) -> (
        CreateRemoteView,
        RequestView,
    ) {
        match (self.phase, response) {
            (Phase::Adopting, ResponseView::Flag(true)) => (
                self.at(Phase::Identity),
                RequestView::Http(identity_call(self.token)),
            ),
            (Phase::Adopting, ResponseView::Flag(false)) => self.end(OutcomeView::Cancelled),
            (Phase::Identity, ResponseView::Http(reply)) => {
                let login = match reply {
                    Ok((_, body)) => login_of(json::parsed_members(body)),
                    Err(_) => "unknown"@,
                };
                let page = repository_page(login, self.name);
                (
                    CreateRemoteView {
                        phase: Phase::Remote,
                        page,
                        clone_url: page + ".git"@,
                        ..self
                    },
                    RequestView::RemoteUrl,
                )
            },
            (Phase::Remote, ResponseView::Text(None)) => (
                self.at(Phase::Pointing),
                RequestView::Run(seq!["remote"@, "add"@, "origin"@, self.clone_url]),
            ),
            (Phase::Remote, ResponseView::Text(Some(_))) => (
                self.at(Phase::Pointing),
                RequestView::Run(seq!["remote"@, "set-url"@, "origin"@, self.clone_url]),
            ),
            (Phase::Pointing, ResponseView::Status(Ok(_))) => (
                self.at(Phase::AdoptBranch),
                branch_query(),
            ),
            (Phase::Pointing, ResponseView::Status(Err(e))) => self.end_failed(e),
            (Phase::AdoptBranch, ResponseView::Output(r)) => (
                CreateRemoteView { phase: Phase::Auth, branch: branch_or_main(r), ..self },
                set_up(),
            ),
            _ => self.end_out_of_turn(),
        }
    }

    /// The step while the new repository is made the remote and the first
    /// commit is prepared.
    pub open spec fn next_connecting(self, response: ResponseView) -> (
        CreateRemoteView,
        RequestView,
    ) {
        match (self.phase, response) {
            (Phase::Branch, ResponseView::Output(r)) => (
                CreateRemoteView { phase: Phase::AddRemote, branch: branch_or_main(r), ..self },
                RequestView::Run(seq!["remote"@, "add"@, "origin"@, self.clone_url]),
            ),
            (Phase::AddRemote, ResponseView::Status(Ok(_))) => (
                self.at(Phase::CommitCount),
                commit_count_query(),
            ),
            (Phase::AddRemote, ResponseView::Status(Err(e))) => (
                CreateRemoteView { phase: Phase::ExistingRemote, rejected: Some(e), ..self },
                RequestView::Query(seq!["remote"@, "get-url"@, "origin"@]),
            ),
            (Phase::ExistingRemote, ResponseView::Output(Ok(_))) => (
                self.at(Phase::UpdateRemote),
                RequestView::Confirm(Question::UpdateRemote),
            ),
            (Phase::ExistingRemote, ResponseView::Output(Err(e))) => self.end_failed(
                match self.rejected {
                    Some(first) => first,
                    None => e,
                },
            ),
            (Phase::UpdateRemote, ResponseView::Flag(true)) => (
                self.at(Phase::SetUrl),
                RequestView::Run(seq!["remote"@, "set-url"@, "origin"@, self.clone_url]),
            ),
            (Phase::UpdateRemote, ResponseView::Flag(false)) => self.end(
                OutcomeView::Unpublished(manual_commands(self.branch)),
            ),
            (Phase::SetUrl, ResponseView::Status(Ok(_))) => (
                self.at(Phase::CommitCount),
                commit_count_query(),
            ),
            (Phase::SetUrl, ResponseView::Status(Err(e))) => self.end_failed(e),
            (Phase::CommitCount, ResponseView::Output(r)) => {
                if has_commits(r) {
                    (self.at(Phase::Auth), set_up())
                } else {
                    (self.at(Phase::InitialMessage), RequestView::Ask(Prompt::InitialMessage))
                }
            },
            (Phase::InitialMessage, ResponseView::Text(answer)) => (
                CreateRemoteView {
                    phase: Phase::AddAll,
                    message: answer_or(answer_text(answer), "Initial commit"@),
                    ..self
                },
                RequestView::Run(seq!["add"@, "."@]),
            ),
            (Phase::AddAll, ResponseView::Status(Ok(_))) => (
                self.at(Phase::InitialCommit),
                RequestView::Run(seq!["commit"@, "-m"@, self.message]),
            ),
            (Phase::AddAll, ResponseView::Status(Err(e))) => self.end_failed(e),
            (Phase::InitialCommit, ResponseView::Status(Ok(_))) => (
                self.at(Phase::Auth),
                set_up(),
            ),
            (Phase::InitialCommit, ResponseView::Status(Err(e))) => self.end_failed(e),
            _ => self.end_out_of_turn(),
        }
    }

    /// The step while the push is made and, where it fails, repaired: fetch,
    /// tracking, and one retry that the operator must confirm.
    pub open spec fn next_publishing(self, response: ResponseView) -> (
        CreateRemoteView,
        RequestView,
    ) {
        match (self.phase, response) {
            (Phase::Auth, ResponseView::Ended(OutcomeView::Failed(e))) => self.end_failed(e),
            (Phase::Auth, ResponseView::Ended(_)) => (
                self.at(Phase::Push),
                push_upstream(self.branch),
            ),
            (Phase::Push, ResponseView::Status(Ok(_))) => self.end(OutcomeView::Completed),
            (Phase::Push, ResponseView::Status(Err(_))) => (
                self.at(Phase::Fetch),
                RequestView::Run(seq!["fetch"@]),
            ),
            (Phase::Fetch, ResponseView::Status(_)) => (
                self.at(Phase::Tracking),
                RequestView::Run(
                    seq!["branch"@, "--set-upstream-to"@, "origin/"@ + self.branch, self.branch],
                ),
            ),
            (Phase::Tracking, ResponseView::Status(_)) => (
                self.at(Phase::RetryConfirm),
                RequestView::Confirm(Question::RetryPush),
            ),
            (Phase::RetryConfirm, ResponseView::Flag(true)) => (
                self.at(Phase::RetryPush),
                RequestView::Run(seq!["push"@]),
            ),
            (Phase::RetryConfirm, ResponseView::Flag(false)) => self.end(
                OutcomeView::Unpublished(manual_commands(self.branch)),
            ),
            (Phase::RetryPush, ResponseView::Status(Ok(_))) => self.end(OutcomeView::Completed),
            (Phase::RetryPush, ResponseView::Status(Err(_))) => self.end(
                OutcomeView::Unpublished(manual_commands(self.branch)),
            ),
            _ => self.end_out_of_turn(),
        }
    }

    /// The state after `response`, and the next request.
    pub open spec fn next(self, response: ResponseView) -> (CreateRemoteView, RequestView) {
        match self.phase {
            Phase::Start
            | Phase::Internet
            | Phase::Token
            | Phase::Name
            | Phase::Description
            | Phase::Visibility => self.next_gathering(response),
            Phase::Creating => self.next_created(response),
            Phase::Adopting
            | Phase::Identity
            | Phase::Remote
            | Phase::Pointing
            | Phase::AdoptBranch => self.next_adopting(response),
            Phase::Branch
            | Phase::AddRemote
            | Phase::ExistingRemote
            | Phase::UpdateRemote
            | Phase::SetUrl
            | Phase::CommitCount
            | Phase::InitialMessage
            | Phase::AddAll
            | Phase::InitialCommit => self.next_connecting(response),
            Phase::Auth
            | Phase::Push
            | Phase::Fetch
            | Phase::Tracking
            | Phase::RetryConfirm
            | Phase::RetryPush => self.next_publishing(response),
            Phase::Finished => self.end_out_of_turn(),
        }
    }
}

/// How far the workflow has come: each step takes it further.
pub open spec fn rank(phase: Phase) -> nat {
    match phase {
        Phase::Start => 0,
        Phase::Internet => 1,
        Phase::Token => 2,
        Phase::Name => 3,
        Phase::Description => 4,
        Phase::Visibility => 5,
        Phase::Creating => 6,
        Phase::Adopting => 7,
        Phase::Identity => 8,
        Phase::Remote => 9,
        Phase::Pointing => 10,
        Phase::AdoptBranch => 11,
        Phase::Branch => 12,
        Phase::AddRemote => 13,
        Phase::ExistingRemote => 14,
        Phase::UpdateRemote => 15,
        Phase::SetUrl => 16,
        Phase::CommitCount => 17,
        Phase::InitialMessage => 18,
        Phase::AddAll => 19,
        Phase::InitialCommit => 20,
        Phase::Auth => 21,
        Phase::Push => 22,
        Phase::Fetch => 23,
        Phase::Tracking => 24,
        Phase::RetryConfirm => 25,
        Phase::RetryPush => 26,
        Phase::Finished => 27,
    }
}

/// The workflow goes forward only: every step takes it further, but for a
/// name that cannot be used, which is asked again and changes nothing.
pub proof fn law_goes_forward(s: CreateRemoteView, response: ResponseView)
    requires
        s.phase != Phase::Finished,
    ensures
        rank(s.next(response).0.phase) > rank(s.phase) || (s.phase == Phase::Name && s.next(
            response,
        ) == (s, RequestView::Ask(Prompt::RepositoryName))),
{
}

/// Once over, always over: after its end the workflow asks for nothing
/// but to finish.
pub proof fn law_over_is_over(s: CreateRemoteView, response: ResponseView)
    requires
        s.phase == Phase::Finished,
    ensures
        s.next(response).0.phase == Phase::Finished,
        s.next(response).1 is Finish,
{
}

/// Nothing is sent without a name that the service can take: the creation
/// call is made only once the operator's name, or the default, is valid.
pub proof fn law_name_is_checked(s: CreateRemoteView, answer: Option<Seq<char>>)
    requires
        s.phase == Phase::Name,
    ensures
        ({
            let (after, request) = s.next(ResponseView::Text(answer));
            let name = answer_or(answer_text(answer), s.default_name);
            if valid_name(name) {
                after.phase == Phase::Description && after.name == name
            } else {
                after == s && request == RequestView::Ask(Prompt::RepositoryName)
            }
        }),
{
}

/// The token travels as a credential only: of all that the workflow asks,
/// only the calls of the hosting service carry it.
pub proof fn law_token_only_in_calls(s: CreateRemoteView, response: ResponseView)
    ensures
        match s.next(response).1 {
            RequestView::Http(call) => call.authorization == "Bearer "@ + s.token,
            RequestView::Feed(_, _) | RequestView::Write(_, _) => false,
            _ => true,
        },
{
}

/// Adoption points the remote at the existing repository and pushes: once
/// the operator has accepted, the remote is added or re-pointed at the page
/// of the repository under the account, and the push follows the set-up of
/// the credentials.
pub proof fn law_adoption_repoints(s: CreateRemoteView, configured: Option<Seq<char>>)
    requires
        s.phase == Phase::Remote,
    ensures
        ({
            let (after, request) = s.next(ResponseView::Text(configured));
            &&& after.phase == Phase::Pointing
            &&& request is Run
            &&& request->Run_0.len() == 4
            &&& request->Run_0[0] == "remote"@
            &&& request->Run_0[2] == "origin"@
            &&& request->Run_0[3] == s.clone_url
        }),
{
}

/// Everything is staged only for a first commit: the workflow asks to
/// stage the whole repository only where the number of commits was read and
/// is zero, so never in a repository that was committed to before.
pub proof fn law_first_commit_needs_empty_history(s: CreateRemoteView, response: ResponseView)
    requires
        s.next(response).0.phase == Phase::InitialMessage || s.next(response).0.phase
            == Phase::AddAll || s.next(response).0.phase == Phase::InitialCommit,
    ensures
        s.phase == Phase::CommitCount ==> response is Output && !has_commits(
            response->Output_0,
        ) && response->Output_0 is Ok && trim(response->Output_0->Ok_0) == "0"@,
        s.phase != Phase::CommitCount ==> s.phase == Phase::InitialMessage || s.phase
            == Phase::AddAll,
{
}

/// No push before the credentials: the first push is asked for only in
/// answer to the set-up of the credentials, and only where that did not
/// fail.
pub proof fn law_push_follows_set_up(s: CreateRemoteView, response: ResponseView)
    requires
        s.next(response).0.phase == Phase::Push,
    ensures
        s.phase == Phase::Auth,
        response is Ended,
        !(response->Ended_0 is Failed),
        s.next(response).1 == push_upstream(s.branch),
{
}

/// No retry without a yes: after a failed push the remote is fetched and
/// the tracking set up, and the push is tried again only when the operator
/// has confirmed it.
pub proof fn law_retry_needs_confirmation(s: CreateRemoteView, response: ResponseView)
    requires
        s.next(response).0.phase == Phase::RetryPush,
    ensures
        s.phase == Phase::RetryConfirm,
        response == ResponseView::Flag(true),
        s.next(response).1 == RequestView::Run(seq!["push"@]),
{
}

/// A push that fails costs no commit: where the retry fails or is declined,
/// the workflow ends, not as a failure, with the commands that finish the
/// job by hand.
pub proof fn law_failed_push_is_reported(s: CreateRemoteView, e: GitErrorView)
    requires
        s.phase == Phase::RetryConfirm || s.phase == Phase::RetryPush,
    ensures
        s.phase == Phase::RetryConfirm ==> s.next(ResponseView::Flag(false)) == s.end(
            OutcomeView::Unpublished(manual_commands(s.branch)),
        ),
        s.phase == Phase::RetryPush ==> s.next(ResponseView::Status(Err(e))) == s.end(
            OutcomeView::Unpublished(manual_commands(s.branch)),
        ),
{
}

/// The commands that finish a push by hand.
pub fn manual_push_commands(branch: &str) -> (r: Vec<String>)
    ensures
        texts(r@) == manual_commands(branch@),
{
    let track = String::from_str("git branch --set-upstream-to=origin/").concat(branch).concat(
        " ",
    ).concat(branch);
    let push = String::from_str("git push -u origin ").concat(branch);
    list2(track.as_str(), push.as_str())
}

/// The request that runs the push that publishes `branch`.
fn push_upstream_request(branch: &str) -> (r: Request)
    ensures
        r@ == push_upstream(branch@),
{
    Request::Run(list4("push", "-u", "origin", branch))
}

/// The request that asks for the current branch.
fn branch_request() -> (r: Request)
    ensures
        r@ == branch_query(),
{
    Request::Query(list3("rev-parse", "--abbrev-ref", "HEAD"))
}

/// The request that asks for the number of commits.
fn commit_count_request() -> (r: Request)
    ensures
        r@ == commit_count_query(),
{
    Request::Query(list3("rev-list", "--count", "--all"))
}

impl CreateRemote {
    /// The workflow before its first step, for a repository whose directory
    /// is named `default_name`.
    pub fn new(default_name: String) -> (s: CreateRemote)
        ensures
            s@ == CreateRemoteView::initial(default_name@),
    {
        CreateRemote {
            phase: Phase::Start,
            default_name,
            token: String::new(),
            name: String::new(),
            description: String::new(),
            private: false,
            page: String::new(),
            clone_url: String::new(),
            branch: String::new(),
            message: String::new(),
            rejected: None,
        }
    }

    fn end(&mut self, outcome: Outcome) -> (r: Request)
        ensures
            (final(self)@, r@) == old(self)@.end(outcome@),
    {
        self.phase = Phase::Finished;
        Request::Finish(outcome)
    }

    fn end_failed(&mut self, e: GitError) -> (r: Request)
        ensures
            (final(self)@, r@) == old(self)@.end_failed(e@),
    {
        self.end(Outcome::Failed(e))
    }

    fn end_out_of_turn(&mut self) -> (r: Request)
        ensures
            (final(self)@, r@) == old(self)@.end_out_of_turn(),
    {
        self.end(answered_out_of_turn())
    }

    fn step_gathering(&mut self, response: Response) -> (r: Request)
        ensures
            (final(self)@, r@) == old(self)@.next_gathering(response@),
    {
        match (self.phase, response) {
            (Phase::Start, _) => {
                self.phase = Phase::Internet;
                Request::Internet
            },
            (Phase::Internet, Response::Flag(true)) => {
                self.phase = Phase::Token;
                Request::Token
            },
            (Phase::Internet, Response::Flag(false)) => self.end_failed(GitError::NoInternet),
            (Phase::Token, Response::Text(Some(token))) => {
                self.phase = Phase::Name;
                self.token = token;
                Request::Ask(Prompt::RepositoryName)
            },
            (Phase::Token, Response::Text(None)) => self.end_failed(GitError::NoToken),
            (Phase::Name, Response::Text(answer)) => {
                let input = text_of_answer(answer);
                let name = answer_or_default(input.as_str(), self.default_name.as_str());
                if is_valid_name(name.as_str()) {
                    self.phase = Phase::Description;
                    self.name = name;
                    Request::Ask(Prompt::Description)
                } else {
                    Request::Ask(Prompt::RepositoryName)
                }
            },
            (Phase::Description, Response::Text(answer)) => {
                self.phase = Phase::Visibility;
                self.description = text_of_answer(answer);
                Request::Confirm(Question::PrivateRepository)
            },
            (Phase::Visibility, Response::Flag(private)) => {
                self.private = private;
                self.phase = Phase::Creating;
                let body = creation_request_body(
                    self.name.as_str(),
                    private,
                    self.description.as_str(),
                );
                Request::Http(
                    ApiCall {
                        url: String::from_str("https://api.github.com/user/repos"),
                        authorization: bearer(self.token.as_str()),
                        body: Some(body),
                    },
                )
            },
            _ => self.end_out_of_turn(),
        }
    }

    fn step_created(&mut self, response: Response) -> (r: Request)
        ensures
            (final(self)@, r@) == old(self)@.next_created(response@),
    {
        match response {
            Response::Http(Err(message)) => {
                let detail = String::from_str("Failed to send request to GitHub API: ").concat(
                    message.as_str(),
                );
                self.end_failed(GitError::Other(detail))
            },
            Response::Http(Ok((status, body))) => {
                if 200 <= status && status < 300 {
                    match created_urls(body.as_str()) {
                        Ok(urls) => {
                            self.phase = Phase::Branch;
                            self.page = urls.html_url;
                            self.clone_url = urls.clone_url;
                            branch_request()
                        },
                        Err(e) => self.end_failed(e),
                    }
                } else if is_name_conflict(status, body.as_str()) {
                    self.phase = Phase::Adopting;
                    Request::Confirm(Question::AdoptExisting)
                } else {
                    self.end_failed(GitError::Other(describe_api_failure(status, body.as_str())))
                }
            },
            _ => self.end_out_of_turn(),
        }
    }

    fn step_adopting(&mut self, response: Response) -> (r: Request)
        ensures
            (final(self)@, r@) == old(self)@.next_adopting(response@),
    {
        match (self.phase, response) {
            (Phase::Adopting, Response::Flag(true)) => {
                self.phase = Phase::Identity;
                Request::Http(
                    ApiCall {
                        url: String::from_str("https://api.github.com/user"),
                        authorization: bearer(self.token.as_str()),
                        body: None,
                    },
                )
            },
            (Phase::Adopting, Response::Flag(false)) => self.end(Outcome::Cancelled),
            (Phase::Identity, Response::Http(reply)) => {
                let login = match reply {
                    Ok((_, body)) => identity_login(body.as_str()),
                    Err(_) => String::from_str("unknown"),
                };
                let page = repository_page_url(login.as_str(), self.name.as_str());
                self.phase = Phase::Remote;
                self.clone_url = page.clone().concat(".git");
                self.page = page;
                Request::RemoteUrl
            },
            (Phase::Remote, Response::Text(None)) => {
                self.phase = Phase::Pointing;
                Request::Run(list4("remote", "add", "origin", self.clone_url.as_str()))
            },
            (Phase::Remote, Response::Text(Some(_))) => {
                self.phase = Phase::Pointing;
                Request::Run(list4("remote", "set-url", "origin", self.clone_url.as_str()))
            },
            (Phase::Pointing, Response::Status(Ok(_))) => {
                self.phase = Phase::AdoptBranch;
                branch_request()
            },
            (Phase::Pointing, Response::Status(Err(e))) => self.end_failed(e),
            (Phase::AdoptBranch, Response::Output(r)) => {
                self.phase = Phase::Auth;
                self.branch = branch_name(r);
                Request::Sub(Flow::ConfigureAuth)
            },
            _ => self.end_out_of_turn(),
        }
    }

    fn step_connecting(&mut self, response: Response) -> (r: Request)
        ensures
            (final(self)@, r@) == old(self)@.next_connecting(response@),
    {
        match (self.phase, response) {
            (Phase::Branch, Response::Output(r)) => {
                self.phase = Phase::AddRemote;
                self.branch = branch_name(r);
                Request::Run(list4("remote", "add", "origin", self.clone_url.as_str()))
            },
            (Phase::AddRemote, Response::Status(Ok(_))) => {
                self.phase = Phase::CommitCount;
                commit_count_request()
            },
            (Phase::AddRemote, Response::Status(Err(e))) => {
                self.phase = Phase::ExistingRemote;
                self.rejected = Some(e);
                Request::Query(list3("remote", "get-url", "origin"))
            },
            (Phase::ExistingRemote, Response::Output(Ok(_))) => {
                self.phase = Phase::UpdateRemote;
                Request::Confirm(Question::UpdateRemote)
            },
            (Phase::ExistingRemote, Response::Output(Err(e))) => {
                let first = match &self.rejected {
                    Some(first) => first.duplicate(),
                    None => e,
                };
                self.end_failed(first)
            },
            (Phase::UpdateRemote, Response::Flag(true)) => {
                self.phase = Phase::SetUrl;
                Request::Run(list4("remote", "set-url", "origin", self.clone_url.as_str()))
            },
            (Phase::UpdateRemote, Response::Flag(false)) => {
                let commands = manual_push_commands(self.branch.as_str());
                self.end(Outcome::Unpublished(commands))
            },
            (Phase::SetUrl, Response::Status(Ok(_))) => {
                self.phase = Phase::CommitCount;
                commit_count_request()
            },
            (Phase::SetUrl, Response::Status(Err(e))) => self.end_failed(e),
            (Phase::CommitCount, Response::Output(r)) => {
                let has_commits = match r {
                    Ok(count) => !same_text(trim_text(count.as_str()).as_str(), "0"),
                    Err(_) => true,
                };
                if has_commits {
                    self.phase = Phase::Auth;
                    Request::Sub(Flow::ConfigureAuth)
                } else {
                    self.phase = Phase::InitialMessage;
                    Request::Ask(Prompt::InitialMessage)
                }
            },
            (Phase::InitialMessage, Response::Text(answer)) => {
                let input = text_of_answer(answer);
                self.phase = Phase::AddAll;
                self.message = answer_or_default(input.as_str(), "Initial commit");
                Request::Run(list2("add", "."))
            },
            (Phase::AddAll, Response::Status(Ok(_))) => {
                self.phase = Phase::InitialCommit;
                Request::Run(list3("commit", "-m", self.message.as_str()))
            },
            (Phase::AddAll, Response::Status(Err(e))) => self.end_failed(e),
            (Phase::InitialCommit, Response::Status(Ok(_))) => {
                self.phase = Phase::Auth;
                Request::Sub(Flow::ConfigureAuth)
            },
            (Phase::InitialCommit, Response::Status(Err(e))) => self.end_failed(e),
            _ => self.end_out_of_turn(),
        }
    }

    fn step_publishing(&mut self, response: Response) -> (r: Request)
        ensures
            (final(self)@, r@) == old(self)@.next_publishing(response@),
    {
        match (self.phase, response) {
            (Phase::Auth, Response::Ended(Outcome::Failed(e))) => self.end_failed(e),
            (Phase::Auth, Response::Ended(_)) => {
                self.phase = Phase::Push;
                push_upstream_request(self.branch.as_str())
            },
            (Phase::Push, Response::Status(Ok(_))) => self.end(Outcome::Completed),
            (Phase::Push, Response::Status(Err(_))) => {
                self.phase = Phase::Fetch;
                Request::Run(list1("fetch"))
            },
            (Phase::Fetch, Response::Status(_)) => {
                self.phase = Phase::Tracking;
                let upstream = String::from_str("origin/").concat(self.branch.as_str());
                Request::Run(
                    list4(
                        "branch",
                        "--set-upstream-to",
                        upstream.as_str(),
                        self.branch.as_str(),
                    ),
                )
            },
            (Phase::Tracking, Response::Status(_)) => {
                self.phase = Phase::RetryConfirm;
                Request::Confirm(Question::RetryPush)
            },
            (Phase::RetryConfirm, Response::Flag(true)) => {
                self.phase = Phase::RetryPush;
                Request::Run(list1("push"))
            },
            (Phase::RetryConfirm, Response::Flag(false)) => {
                let commands = manual_push_commands(self.branch.as_str());
                self.end(Outcome::Unpublished(commands))
            },
            (Phase::RetryPush, Response::Status(Ok(_))) => self.end(Outcome::Completed),
            (Phase::RetryPush, Response::Status(Err(_))) => {
                let commands = manual_push_commands(self.branch.as_str());
                self.end(Outcome::Unpublished(commands))
            },
            _ => self.end_out_of_turn(),
        }
    }

    /// Takes the answer to the last request and gives the next request.
    pub fn step(&mut self, response: Response) -> (r: Request)
        ensures
            (final(self)@, r@) == old(self)@.next(response@),
    {
        match self.phase {
            Phase::Start
            | Phase::Internet
            | Phase::Token
            | Phase::Name
            | Phase::Description
            | Phase::Visibility => self.step_gathering(response),
            Phase::Creating => self.step_created(response),
            Phase::Adopting
            | Phase::Identity
            | Phase::Remote
            | Phase::Pointing
            | Phase::AdoptBranch => self.step_adopting(response),
            Phase::Branch
            | Phase::AddRemote
            | Phase::ExistingRemote
            | Phase::UpdateRemote
            | Phase::SetUrl
            | Phase::CommitCount
            | Phase::InitialMessage
            | Phase::AddAll
            | Phase::InitialCommit => self.step_connecting(response),
            Phase::Auth
            | Phase::Push
            | Phase::Fetch
            | Phase::Tracking
            | Phase::RetryConfirm
            | Phase::RetryPush => self.step_publishing(response),
            Phase::Finished => self.end_out_of_turn(),
        }
    }
}

/// The branch to push: the one the query named, or `main` where it failed.
pub fn branch_name(r: Result<String, GitError>) -> (b: String)
    ensures
        b@ == branch_or_main(
            match r {
                Ok(s) => Ok(s@),
                Err(e) => Err(e@),
            },
        ),
{
    match r {
        Ok(s) => trim_text(s.as_str()),
        Err(_) => String::from_str("main"),
    }
}

} // verus!
