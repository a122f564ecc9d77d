//! The access token, and how the remote is set up to take it: as a
//! credential that the version-control tool keeps in memory for a time,
//! never as part of the remote's address and never in a file. A remote that
//! is reached over HTTPS cannot be set up without a token.

use vstd::prelude::*;
use vstd::string::*;
use crate::error::{GitError, GitErrorView};
use crate::exchange::{
    answer_text, answered_out_of_turn, finish, out_of_turn, text_of_answer, Outcome, OutcomeView,
    Request, RequestView, Response, ResponseView,
};
use crate::search::{has_prefix, starts_with};
use crate::text::{list2, list3, list4, opt_text, texts, to_chars};
use crate::trim::{is_blank, is_blank_text, trim, trim_text};

verus! {

/// The token among `values`, which are what the environment holds under
/// each of the names that may carry it, in order: the first that is not
/// blank, without the white space around it.
pub open spec fn first_token(values: Seq<Option<Seq<char>>>) -> Option<Seq<char>>
    decreases values.len(),
{
    if values.len() == 0 {
        None
    } else {
        match values[0] {
            Some(v) if !is_blank(v) => Some(trim(v)),
            _ => first_token(values.skip(1)),
        }
    }
}

/// What `values` hold, as character sequences.
pub open spec fn opt_texts(values: Seq<Option<String>>) -> Seq<Option<Seq<char>>> {
    Seq::new(values.len(), |i: int| opt_text(values[i]))
}

/// The names under which the environment may carry the token, in the order
/// in which they are tried.
pub fn token_names() -> (r: Vec<String>)
    ensures
        texts(r@) == seq!["GITHUB_TOKEN"@, "GH_TOKEN"@, "GIT_TOKEN"@],
{
    list3("GITHUB_TOKEN", "GH_TOKEN", "GIT_TOKEN")
}

/// The name under which a command is handed the token in its environment.
pub fn token_variable() -> (r: String)
    ensures
        r@ == "GITHUB_TOKEN"@,
{
    String::from_str("GITHUB_TOKEN")
}

/// The token among `values`: the first that is not blank.
pub fn get_github_token(values: &Vec<Option<String>>) -> (r: Option<String>)
    ensures
        opt_text(r) == first_token(opt_texts(values@)),
{
    let mut i: usize = 0;
    assert(opt_texts(values@).skip(0) =~= opt_texts(values@));
    while i < values.len()
        invariant
            i <= values.len(),
            first_token(opt_texts(values@)) == first_token(opt_texts(values@).skip(i as int)),
        decreases values.len() - i,
    {
        let ghost rest = opt_texts(values@).skip(i as int);
        assert(rest.skip(1) =~= opt_texts(values@).skip(i + 1));
        match &values[i] {
            Some(v) => {
                if !is_blank_text(v.as_str()) {
                    return Some(trim_text(v.as_str()));
                }
            },
            None => {},
        }
        i += 1;
    }
    None
}

/// Where the set-up stands: what it asked last.
#[derive(Debug, Clone, Copy, PartialEq, Eq, Structural)]
pub enum Phase {
    Start,
    Token,
    Remote,
    HelperCache,
    HelperTimeout,
    SetUrl,
    Approve,
    Ended,
}

/// The set-up: its phase, the token if there is one, and the address of
/// the remote.
#[derive(Debug, PartialEq, Eq)]
pub struct ConfigureAuth {
    pub phase: Phase,
    pub has_token: bool,
    pub token: String,
    pub remote_url: String,
}

/// `ConfigureAuth` with its texts as character sequences.
pub struct ConfigureAuthView {
    pub phase: Phase,
    pub has_token: bool,
    pub token: Seq<char>,
    pub remote_url: Seq<char>,
}

impl View for ConfigureAuth {
    type V = ConfigureAuthView;

    open spec fn view(&self) -> ConfigureAuthView {
        ConfigureAuthView {
            phase: self.phase,
            has_token: self.has_token,
            token: self.token@,
            remote_url: self.remote_url@,
        }
    }
}

/// The command that sets the credential helper to `helper`.
pub open spec fn helper_args(helper: Seq<char>) -> Seq<Seq<char>> {
    seq!["config"@, "--local"@, "credential.helper"@, helper]
}

/// The setting that makes the tool keep credentials in memory.
pub open spec fn keep_in_memory() -> Seq<char> {
    "cache"@
}

/// The setting that makes the tool forget them after an hour.
pub open spec fn keep_for_an_hour() -> Seq<char> {
    "cache --timeout=3600"@
}

/// What the credential helper is told: the token as the user name for the
/// address of the remote.
pub open spec fn credential_input(remote_url: Seq<char>, token: Seq<char>) -> Seq<char> {
    "url="@ + remote_url + "\nusername="@ + token + "\npassword=x-oauth-basic\n"@
}

impl ConfigureAuthView {
    /// This set-up in the phase `phase`.
    pub open spec fn at(self, phase: Phase) -> ConfigureAuthView {
        ConfigureAuthView { phase, ..self }
    }

    /// The end of the set-up with `outcome`.
    pub open spec fn end(self, outcome: OutcomeView) -> (ConfigureAuthView, RequestView) {
        (self.at(Phase::Ended), finish(outcome))
    }

    /// The step after a command of the set-up: on success go on to `phase`
    /// with `request`, on failure end with it.
    pub open spec fn after(self, response: ResponseView, phase: Phase, request: RequestView) -> (
        ConfigureAuthView,
        RequestView,
    ) {
        match response {
            ResponseView::Status(Ok(_)) => (self.at(phase), request),
            ResponseView::Status(Err(e)) => self.end(OutcomeView::Failed(e)),
            _ => self.end(out_of_turn()),
        }
    }

    /// The state after `response`, and the next request. A remote that is
    /// not reached over HTTPS needs no token and nothing is set up; one that
    /// is cannot do without, and the set-up fails with `NoToken` where none
    /// was found.
    pub open spec fn next(self, response: ResponseView) -> (ConfigureAuthView, RequestView) {
        match (self.phase, response) {
            (Phase::Start, _) => (self.at(Phase::Token), RequestView::Token),
            (Phase::Token, ResponseView::Text(found)) => (
                ConfigureAuthView {
                    phase: Phase::Remote,
                    has_token: found is Some,
                    token: answer_text(found),
                    ..self
                },
                RequestView::RemoteUrl,
            ),
            (Phase::Remote, ResponseView::Text(None)) => self.end(
                OutcomeView::Failed(GitErrorView::CommandFailed("Failed to get remote URL"@)),
            ),
            (Phase::Remote, ResponseView::Text(Some(url))) => if !starts_with(url, "https://"@) {
                self.end(OutcomeView::Skipped)
            } else if !self.has_token {
                self.end(OutcomeView::Failed(GitErrorView::NoToken))
            } else {
                (
                    ConfigureAuthView { phase: Phase::HelperCache, remote_url: url, ..self },
                    RequestView::Run(helper_args(keep_in_memory())),
                )
            },
            (Phase::HelperCache, _) => self.after(
                response,
                Phase::HelperTimeout,
                RequestView::Run(helper_args(keep_for_an_hour())),
            ),
            (Phase::HelperTimeout, _) => self.after(
                response,
                Phase::SetUrl,
                RequestView::Run(seq!["remote"@, "set-url"@, "origin"@, self.remote_url]),
            ),
            (Phase::SetUrl, _) => self.after(
                response,
                Phase::Approve,
                RequestView::Feed(
                    seq!["credential"@, "approve"@],
                    credential_input(self.remote_url, self.token),
                ),
            ),
            (Phase::Approve, ResponseView::Captured(Err(message))) => self.end(
                OutcomeView::Failed(
                    GitErrorView::CommandFailed(
                        "Failed to spawn git credential command: "@ + message,
                    ),
                ),
            ),
            (Phase::Approve, ResponseView::Captured(Ok(outcome))) => if outcome.success {
                self.end(OutcomeView::Completed)
            } else {
                self.end(
                    OutcomeView::Failed(
                        GitErrorView::CommandFailed("Failed to store credentials"@),
                    ),
                )
            },
            _ => self.end(out_of_turn()),
        }
    }
}

/// The address of the remote is left as it was found: the only address the
/// set-up ever gives the remote is the one it read, so the token never
/// becomes part of it.
pub proof fn law_remote_address_kept(s: ConfigureAuthView, response: ResponseView)
    requires
        s.phase == Phase::HelperTimeout,
    ensures
        s.next(response).1 is Run ==> s.next(response).1 == RequestView::Run(
            seq!["remote"@, "set-url"@, "origin"@, s.remote_url],
        ),
        s.next(response).0.remote_url == s.remote_url,
{
}

/// How far the set-up has come: each step takes it further.
pub open spec fn rank(phase: Phase) -> nat {
    match phase {
        Phase::Start => 0,
        Phase::Token => 1,
        Phase::Remote => 2,
        Phase::HelperCache => 3,
        Phase::HelperTimeout => 4,
        Phase::SetUrl => 5,
        Phase::Approve => 6,
        Phase::Ended => 7,
    }
}

/// The set-up goes forward only: every step takes it further, so it ends
/// after at most seven answers.
pub proof fn law_goes_forward(s: ConfigureAuthView, response: ResponseView)
    requires
        s.phase != Phase::Ended,
    ensures
        rank(s.next(response).0.phase) > rank(s.phase),
{
}

/// Once over, always over: after its end the set-up asks for nothing but
/// to finish.
pub proof fn law_over_is_over(s: ConfigureAuthView, response: ResponseView)
    requires
        s.phase == Phase::Ended,
    ensures
        s.next(response).0.phase == Phase::Ended,
        s.next(response).1 is Finish,
{
}

/// The token is fed to the helper and put nowhere else: no command line of
/// the set-up holds anything but fixed words and the address of the remote,
/// and the only helper it ever sets keeps credentials in memory, for a
/// time, never in a file.
pub proof fn law_token_is_fed(s: ConfigureAuthView, response: ResponseView)
    ensures
        match s.next(response).1 {
            RequestView::Run(args) => {
                ||| args == helper_args(keep_in_memory())
                ||| args == helper_args(keep_for_an_hour())
                ||| args == seq!["remote"@, "set-url"@, "origin"@, s.next(response).0.remote_url]
            },
            RequestView::Feed(args, input) => args == seq!["credential"@, "approve"@] && input
                == credential_input(s.remote_url, s.token),
            RequestView::Token | RequestView::RemoteUrl | RequestView::Finish(_) => true,
            _ => false,
        },
{
}

/// No token, no authenticated operation: where the remote is reached over
/// HTTPS and no token was found, the set-up fails with `NoToken`, and
/// whoever asked for it stops before the push.
pub proof fn law_https_needs_token(s: ConfigureAuthView, url: Seq<char>)
    requires
        s.phase == Phase::Remote,
        !s.has_token,
        starts_with(url, "https://"@),
    ensures
        s.next(ResponseView::Text(Some(url))) == s.end(
            OutcomeView::Failed(GitErrorView::NoToken),
        ),
{
}

/// Nothing is set up without a token: the set-up asks for a command only
/// when a token was found, and feeds the helper that token.
pub proof fn law_set_up_has_token(s: ConfigureAuthView, found: Option<Seq<char>>, url: Seq<char>)
    requires
        s.phase == Phase::Token,
    ensures
        ({
            let held = s.next(ResponseView::Text(found)).0;
            let (after, request) = held.next(ResponseView::Text(Some(url)));
            &&& held.has_token == (found is Some)
            &&& request is Run ==> found == Some(after.token)
        }),
{
}

impl ConfigureAuth {
    /// The set-up before its first step.
    pub fn new() -> (s: ConfigureAuth)
        ensures
            s@ == (ConfigureAuthView {
                phase: Phase::Start,
                has_token: false,
                token: Seq::empty(),
                remote_url: Seq::empty(),
            }),
    {
        ConfigureAuth {
            phase: Phase::Start,
            has_token: false,
            token: String::new(),
            remote_url: String::new(),
        }
    }

    fn end(&mut self, outcome: Outcome) -> (r: Request)
        ensures
            (final(self)@, r@) == old(self)@.end(outcome@),
    {
        self.phase = Phase::Ended;
        Request::Finish(outcome)
    }

    fn after(&mut self, response: Response, phase: Phase, request: Request) -> (r: Request)
        ensures
            (final(self)@, r@) == old(self)@.after(response@, phase, request@),
    {
        match response {
            Response::Status(Ok(_)) => {
                self.phase = phase;
                request
            },
            Response::Status(Err(e)) => self.end(Outcome::Failed(e)),
            _ => self.end(answered_out_of_turn()),
        }
    }

    /// Takes the answer to the last request and gives the next request.
    pub fn step(&mut self, response: Response) -> (r: Request)
        ensures
            (final(self)@, r@) == old(self)@.next(response@),
    {
        match (self.phase, response) {
            (Phase::Start, _) => {
                self.phase = Phase::Token;
                Request::Token
            },
            (Phase::Token, Response::Text(found)) => {
                self.phase = Phase::Remote;
                self.has_token = found.is_some();
                self.token = text_of_answer(found);
                Request::RemoteUrl
            },
            (Phase::Remote, Response::Text(None)) => self.end(
                Outcome::Failed(GitError::command_failed("Failed to get remote URL")),
            ),
            (Phase::Remote, Response::Text(Some(url))) => {
                if !has_prefix(&to_chars(url.as_str()), &to_chars("https://")) {
                    self.end(Outcome::Skipped)
                } else if !self.has_token {
                    self.end(Outcome::Failed(GitError::NoToken))
                } else {
                    self.phase = Phase::HelperCache;
                    self.remote_url = url;
                    Request::Run(list4("config", "--local", "credential.helper", "cache"))
                }
            },
            (Phase::HelperCache, response) => {
                let request = Request::Run(
                    list4("config", "--local", "credential.helper", "cache --timeout=3600"),
                );
                self.after(response, Phase::HelperTimeout, request)
            },
            (Phase::HelperTimeout, response) => {
                let request = Request::Run(
                    list4("remote", "set-url", "origin", self.remote_url.as_str()),
                );
                self.after(response, Phase::SetUrl, request)
            },
            (Phase::SetUrl, response) => {
                let input = String::from_str("url=").concat(self.remote_url.as_str()).concat(
                    "\nusername=",
                ).concat(self.token.as_str()).concat("\npassword=x-oauth-basic\n");
                let request = Request::Feed(list2("credential", "approve"), input);
                self.after(response, Phase::Approve, request)
            },
            (Phase::Approve, Response::Captured(Err(message))) => {
                let detail = String::from_str("Failed to spawn git credential command: ").concat(
                    message.as_str(),
                );
                self.end(Outcome::Failed(GitError::CommandFailed(detail)))
            },
            (Phase::Approve, Response::Captured(Ok(outcome))) => {
                if outcome.success {
                    self.end(Outcome::Completed)
                } else {
                    self.end(
                        Outcome::Failed(GitError::command_failed("Failed to store credentials")),
                    )
                }
            },
            _ => self.end(answered_out_of_turn()),
        }
    }
}

} // verus!
