//! A whole run: find the repository, run the preflight guard, bring in what
//! the branch lacks, settle what was left unpushed, pull, look for changes
//! where the operator stands, stage and commit them, and publish. One
//! pathspec, fixed when the repository is found, scopes all of it.

use vstd::prelude::*;
use vstd::string::*;
use crate::exchange::{
    answered_out_of_turn, finish, out_of_turn, Flow, Gate, Outcome, OutcomeView, Question, Request,
    RequestView, Response, ResponseView,
};
use crate::initialize::{default_repo_name, directory_name};
use crate::paths;
use crate::pathspec::{
    compute_pathspec, law_normalized_is_one_line, law_normalized_names_no_metadata,
    law_normalized_settles, normalized, pathspec_of,
};
use crate::repo::GitRepo;
use crate::search::{contains, has_part};
use crate::text::{list1, list2, to_chars};

verus! {

/// Where the run stands: what it asked last.
#[derive(Debug, Clone, Copy, PartialEq, Eq, Structural)]
pub enum Phase {
    Start,
    Locating,
    OfferInit,
    Initializing,
    OfferFirstRemote,
    FirstRemote,
    Guard,
    SyncCheck,
    Status,
    Pending,
    RemoteCheck,
    Pulling,
    AllChanges,
    ScopedChanges,
    Elsewhere,
    Committing,
    PushGate,
    PushInternet,
    Publishing,
    OfferRemote,
    Creating,
    Ended,
}

/// The run: its phase and what it has learned so far.
#[derive(Debug, PartialEq, Eq)]
pub struct Session {
    pub phase: Phase,
    /// Where the operator stands.
    pub current_dir: String,
    /// The root of the repository, once found.
    pub root: String,
    /// The scope of the run, once the repository is found.
    pub pathspec: String,
    pub has_remote: bool,
    /// Whether there are changes anywhere in the repository.
    pub any_changes: bool,
}

/// `Session` with its texts as character sequences.
pub struct SessionView {
    pub phase: Phase,
    pub current_dir: Seq<char>,
    pub root: Seq<char>,
    pub pathspec: Seq<char>,
    pub has_remote: bool,
    pub any_changes: bool,
}

impl View for Session {
    type V = SessionView;

    open spec fn view(&self) -> SessionView {
        SessionView {
            phase: self.phase,
            current_dir: self.current_dir@,
            root: self.root@,
            pathspec: self.pathspec@,
            has_remote: self.has_remote,
            any_changes: self.any_changes,
        }
    }
}

/// Whether the message of a failed pull only says that the branch has no
/// upstream to pull from.
pub open spec fn no_upstream_complaint(message: Seq<char>) -> bool {
    contains(message, "no upstream configured"@) || contains(message, "no tracking information"@)
}

/// The request for the changes anywhere in the repository.
pub open spec fn all_changes() -> RequestView {
    RequestView::HasChanges(None)
}

/// The request that starts the preflight guard.
pub open spec fn guard() -> RequestView {
    RequestView::Sub(Flow::Preflight)
}

/// How far the run has come: each step takes it further.
pub open spec fn rank(phase: Phase) -> nat {
    match phase {
        Phase::Start => 0,
        Phase::Locating => 1,
        Phase::OfferInit => 2,
        Phase::Initializing => 3,
        Phase::OfferFirstRemote => 4,
        Phase::FirstRemote => 5,
        Phase::Guard => 6,
        Phase::SyncCheck => 7,
        Phase::Status => 8,
        Phase::Pending => 9,
        Phase::RemoteCheck => 10,
        Phase::Pulling => 11,
        Phase::AllChanges => 12,
        Phase::ScopedChanges => 13,
        Phase::Elsewhere => 14,
        Phase::Committing => 15,
        Phase::PushGate => 16,
        Phase::PushInternet => 17,
        Phase::Publishing => 18,
        Phase::OfferRemote => 19,
        Phase::Creating => 20,
        Phase::Ended => 21,
    }
}

impl SessionView {
    /// The run before its first step: nothing is known but where the
    /// operator stands.
    pub open spec fn initial(current_dir: Seq<char>) -> SessionView {
        SessionView {
            phase: Phase::Start,
            current_dir,
            root: Seq::empty(),
            pathspec: Seq::empty(),
            has_remote: false,
            any_changes: false,
        }
    }

    /// This run in the phase `phase`.
    pub open spec fn at(self, phase: Phase) -> SessionView {
        SessionView { phase, ..self }
    }

    /// The end of the run with `outcome`.
    pub open spec fn end(self, outcome: OutcomeView) -> (SessionView, RequestView) {
        (self.at(Phase::Ended), finish(outcome))
    }

    /// This run in the repository at `root`, with the scope that follows
    /// from where the operator stands.
    pub open spec fn within(self, root: Seq<char>) -> SessionView {
        SessionView {
            root,
            pathspec: normalized(pathspec_of(paths::below(self.current_dir, root))),
            ..self
        }
    }

    /// The step while the repository is found or made.
    pub open spec fn next_opening(self, response: ResponseView) -> (SessionView, RequestView) {
        match (self.phase, response) {
            (Phase::Start, _) => (
                self.at(Phase::Locating),
                RequestView::Locate(self.current_dir),
            ),
            (Phase::Locating, ResponseView::Text(Some(root))) => (
                self.within(root).at(Phase::Guard),
                guard(),
            ),
            (Phase::Locating, ResponseView::Text(None)) => (
                self.at(Phase::OfferInit),
                RequestView::Confirm(Question::InitializeRepository),
            ),
            (Phase::OfferInit, ResponseView::Flag(true)) => (
                self.at(Phase::Initializing),
                RequestView::Sub(Flow::Initialize),
            ),
            (Phase::OfferInit, ResponseView::Flag(false)) => self.end(OutcomeView::Skipped),
            (Phase::Initializing, ResponseView::Ended(OutcomeView::Completed)) => (
                self.within(self.current_dir).at(Phase::OfferFirstRemote),
                RequestView::Confirm(Question::CreateRemote),
            ),
            (Phase::Initializing, ResponseView::Ended(stopped)) => self.end(stopped),
            (Phase::OfferFirstRemote, ResponseView::Flag(true)) => (
                self.at(Phase::FirstRemote),
                RequestView::CreateRemote(directory_name(self.root)),
            ),
            (Phase::OfferFirstRemote, ResponseView::Flag(false)) => (
                self.at(Phase::Guard),
                guard(),
            ),
            (Phase::FirstRemote, ResponseView::Ended(OutcomeView::Completed)) => self.end(
                OutcomeView::Completed,
            ),
            (Phase::FirstRemote, ResponseView::Ended(_)) => (self.at(Phase::Guard), guard()),
            (Phase::Guard, ResponseView::Ended(OutcomeView::Completed)) => (
                self.at(Phase::SyncCheck),
                RequestView::Sub(Flow::SyncStatus),
            ),
            (Phase::Guard, ResponseView::Ended(stopped)) => self.end(stopped),
            _ => self.end(out_of_turn()),
        }
    }

    /// The step while the repository is brought in line with its remote
    /// and the changes are looked for.
    pub open spec fn next_preparing(self, response: ResponseView) -> (SessionView, RequestView) {
        match (self.phase, response) {
            (Phase::SyncCheck, ResponseView::Ended(_)) => (
                self.at(Phase::Status),
                RequestView::Run(seq!["status"@, "-sb"@]),
            ),
            (Phase::Status, ResponseView::Status(Ok(_))) => (
                self.at(Phase::Pending),
                RequestView::Sub(Flow::PendingPushes),
            ),
            (Phase::Status, ResponseView::Status(Err(e))) => self.end(OutcomeView::Failed(e)),
            (Phase::Pending, ResponseView::Ended(OutcomeView::Completed)) => (
                self.at(Phase::RemoteCheck),
                RequestView::RemoteUrl,
            ),
            (Phase::Pending, ResponseView::Ended(OutcomeView::Skipped)) => (
                self.at(Phase::RemoteCheck),
                RequestView::RemoteUrl,
            ),
            (Phase::Pending, ResponseView::Ended(stopped)) => self.end(stopped),
            (Phase::RemoteCheck, ResponseView::Text(Some(_))) => (
                SessionView { phase: Phase::Pulling, has_remote: true, ..self },
                RequestView::Run(seq!["pull"@, "--"@]),
            ),
            (Phase::RemoteCheck, ResponseView::Text(None)) => (
                SessionView { phase: Phase::AllChanges, has_remote: false, ..self },
                all_changes(),
            ),
            (Phase::Pulling, ResponseView::Status(Ok(_))) => (
                self.at(Phase::AllChanges),
                all_changes(),
            ),
            (Phase::Pulling, ResponseView::Status(Err(e))) => if no_upstream_complaint(
                e.message(),
            ) {
                (self.at(Phase::AllChanges), all_changes())
            } else {
                self.end(OutcomeView::Failed(e))
            },
            (Phase::AllChanges, ResponseView::Flag(any)) => (
                SessionView { phase: Phase::ScopedChanges, any_changes: any, ..self },
                RequestView::HasChanges(Some(self.pathspec)),
            ),
            (Phase::ScopedChanges, ResponseView::Flag(scoped)) => if self.any_changes && !scoped {
                (self.at(Phase::Elsewhere), RequestView::ListFolders("."@))
            } else {
                (self.at(Phase::Committing), RequestView::StageCommit(self.pathspec))
            },
            (Phase::Elsewhere, ResponseView::Folders(folders)) => self.end(
                OutcomeView::Elsewhere(folders),
            ),
            _ => self.end(out_of_turn()),
        }
    }

    /// The step once the commit is being made: the commit, then the push or
    /// the offer of a remote.
    pub open spec fn next_publishing(self, response: ResponseView) -> (SessionView, RequestView) {
        match (self.phase, response) {
            (Phase::Committing, ResponseView::Ended(OutcomeView::Completed)) => if self.has_remote {
                (self.at(Phase::PushGate), RequestView::Acknowledge(Gate::Push))
            } else {
                (self.at(Phase::OfferRemote), RequestView::Confirm(Question::CreateRemote))
            },
            (Phase::Committing, ResponseView::Ended(stopped)) => self.end(stopped),
            (Phase::PushGate, ResponseView::Text(Some(_))) => (
                self.at(Phase::PushInternet),
                RequestView::Internet,
            ),
            (Phase::PushGate, ResponseView::Text(None)) => self.end(OutcomeView::Cancelled),
            (Phase::PushInternet, ResponseView::Flag(true)) => (
                self.at(Phase::Publishing),
                RequestView::Sub(Flow::Publish),
            ),
            (Phase::PushInternet, ResponseView::Flag(false)) => self.end(
                OutcomeView::Unpublished(seq!["git push"@]),
            ),
            (Phase::Publishing, ResponseView::Ended(outcome)) => self.end(outcome),
            (Phase::OfferRemote, ResponseView::Flag(true)) => (
                self.at(Phase::Creating),
                RequestView::CreateRemote(directory_name(self.root)),
            ),
            (Phase::OfferRemote, ResponseView::Flag(false)) => self.end(OutcomeView::Completed),
            (Phase::Creating, ResponseView::Ended(outcome)) => self.end(outcome),
            _ => self.end(out_of_turn()),
        }
    }

    /// The state after `response`, and the next request.
    pub open spec fn next(self, response: ResponseView) -> (SessionView, RequestView) {
        match self.phase {
            Phase::Start
            | Phase::Locating
            | Phase::OfferInit
            | Phase::Initializing
            | Phase::OfferFirstRemote
            | Phase::FirstRemote
            | Phase::Guard => self.next_opening(response),
            Phase::SyncCheck
            | Phase::Status
            | Phase::Pending
            | Phase::RemoteCheck
            | Phase::Pulling
            | Phase::AllChanges
            | Phase::ScopedChanges
            | Phase::Elsewhere => self.next_preparing(response),
            Phase::Committing
            | Phase::PushGate
            | Phase::PushInternet
            | Phase::Publishing
            | Phase::OfferRemote
            | Phase::Creating => self.next_publishing(response),
            Phase::Ended => self.end(
                out_of_turn(),
            ),
        }
    }
}

/// Once over, always over: after its end the run asks for nothing but to
/// finish.
pub proof fn law_over_is_over(s: SessionView, response: ResponseView)
    requires
        s.phase == Phase::Ended,
    ensures
        s.next(response).0.phase == Phase::Ended,
        s.next(response).1 is Finish,
{
}

/// The run goes forward only: every step takes it further, so it ends
/// after at most twenty-one answers and starts no workflow twice.
pub proof fn law_run_goes_forward(s: SessionView, response: ResponseView)
    requires
        s.phase != Phase::Ended,
    ensures
        rank(s.next(response).0.phase) > rank(s.phase),
{
}

/// The guard comes first: nothing is measured, pulled, staged or published
/// before the preflight guard has run and found nothing in the way.
pub proof fn law_guard_comes_first(s: SessionView, response: ResponseView)
    requires
        rank(s.next(response).0.phase) > rank(Phase::Guard),
        s.next(response).0.phase != Phase::Ended,
    ensures
        rank(s.phase) >= rank(Phase::Guard),
        s.phase == Phase::Guard ==> response == ResponseView::Ended(OutcomeView::Completed),
{
}

/// One scope for the whole run: once the repository is found or made, no
/// answer changes the pathspec.
pub proof fn law_pathspec_fixed(s: SessionView, response: ResponseView)
    requires
        s.phase != Phase::Locating,
        s.phase != Phase::Initializing,
    ensures
        s.next(response).0.pathspec == s.pathspec,
        s.next(response).0.root == s.root,
{
}

/// The scope is fit to hand on: whatever the directory and the root, the
/// pathspec of the run is one line, holds no backslash and names no
/// metadata directory.
pub proof fn law_scope_is_normalized(s: SessionView, root: Seq<char>)
    ensures
        !contains(s.within(root).pathspec, "/.git/"@),
        !s.within(root).pathspec.contains('\n'),
        !s.within(root).pathspec.contains('\r'),
        !s.within(root).pathspec.contains('\\'),
        normalized(s.within(root).pathspec) == s.within(root).pathspec,
{
    let position = pathspec_of(paths::below(s.current_dir, root));
    law_normalized_names_no_metadata(position);
    law_normalized_is_one_line(position);
    law_normalized_settles(position);
}

/// Changes elsewhere only: where the repository has changes and the scope
/// has none, the run lists the folders that have them and ends by naming
/// them. It starts no staging and no commit.
pub proof fn law_out_of_scope_stops(s: SessionView, folders: Seq<Seq<char>>)
    requires
        s.phase == Phase::ScopedChanges,
        s.any_changes,
    ensures
        s.next(ResponseView::Flag(false)) == (
            s.at(Phase::Elsewhere),
            RequestView::ListFolders("."@),
        ),
        s.at(Phase::Elsewhere).next(ResponseView::Folders(folders)) == s.at(Phase::Elsewhere).end(
            OutcomeView::Elsewhere(folders),
        ),
{
}

/// The staging is started only for the scope of the run, and only where
/// that scope has changes or the repository has none at all.
pub proof fn law_staging_needs_scope(s: SessionView, response: ResponseView)
    requires
        s.next(response).1 is StageCommit,
    ensures
        s.next(response).1 == RequestView::StageCommit(s.pathspec),
        s.phase == Phase::ScopedChanges,
        response == ResponseView::Flag(true) || !s.any_changes,
{
}

/// Every request of a run that names a scope names the scope of the run, or
/// the whole repository where it only looks.
pub proof fn law_requests_scoped(s: SessionView, response: ResponseView)
    requires
        s.phase != Phase::Locating,
        s.phase != Phase::Initializing,
    ensures
        match s.next(response).1 {
            RequestView::StageCommit(scope) => scope == s.pathspec,
            RequestView::HasChanges(Some(scope)) => scope == s.pathspec,
            RequestView::ShowStatus(_) => false,
            RequestView::ListFolders(scope) => scope == "."@,
            _ => true,
        },
{
}

impl Session {
    /// The run of an operator who stands in `current_dir`, before its first
    /// step.
    pub fn new(current_dir: String) -> (s: Session)
        ensures
            s@ == SessionView::initial(current_dir@),
    {
        Session {
            phase: Phase::Start,
            current_dir,
            root: String::new(),
            pathspec: String::new(),
            has_remote: false,
            any_changes: false,
        }
    }

    fn end(&mut self, outcome: Outcome) -> (r: Request)
        ensures
            (final(self)@, r@) == old(self)@.end(outcome@),
    {
        self.phase = Phase::Ended;
        Request::Finish(outcome)
    }

    fn out_of_turn(&mut self) -> (r: Request)
        ensures
            (final(self)@, r@) == old(self)@.end(
                out_of_turn(),
            ),
    {
        self.end(answered_out_of_turn())
    }

    fn enter(&mut self, root: String)
        ensures
            final(self)@ == old(self)@.within(root@),
    {
        let position = compute_pathspec(root.as_str(), self.current_dir.as_str());
        self.pathspec = GitRepo::normalize_pathspec(position.as_str());
        self.root = root;
    }

    fn start_guard(&mut self) -> (r: Request)
        ensures
            (final(self)@, r@) == (old(self)@.at(Phase::Guard), guard()),
    {
        self.phase = Phase::Guard;
        Request::Sub(Flow::Preflight)
    }

    fn look_everywhere(&mut self) -> (r: Request)
        ensures
            (final(self)@, r@) == (old(self)@.at(Phase::AllChanges), all_changes()),
    {
        self.phase = Phase::AllChanges;
        Request::HasChanges(None)
    }

    fn step_opening(&mut self, response: Response) -> (r: Request)
        ensures
            (final(self)@, r@) == old(self)@.next_opening(response@),
    {
        match (self.phase, response) {
            (Phase::Start, _) => {
                self.phase = Phase::Locating;
                Request::Locate(self.current_dir.clone())
            },
            (Phase::Locating, Response::Text(Some(root))) => {
                self.enter(root);
                self.start_guard()
            },
            (Phase::Locating, Response::Text(None)) => {
                self.phase = Phase::OfferInit;
                Request::Confirm(Question::InitializeRepository)
            },
            (Phase::OfferInit, Response::Flag(true)) => {
                self.phase = Phase::Initializing;
                Request::Sub(Flow::Initialize)
            },
            (Phase::OfferInit, Response::Flag(false)) => self.end(Outcome::Skipped),
            (Phase::Initializing, Response::Ended(Outcome::Completed)) => {
                let root = self.current_dir.clone();
                self.enter(root);
                self.phase = Phase::OfferFirstRemote;
                Request::Confirm(Question::CreateRemote)
            },
            (Phase::Initializing, Response::Ended(stopped)) => self.end(stopped),
            (Phase::OfferFirstRemote, Response::Flag(true)) => {
                self.phase = Phase::FirstRemote;
                Request::CreateRemote(default_repo_name(self.root.as_str()))
            },
            (Phase::OfferFirstRemote, Response::Flag(false)) => self.start_guard(),
            (Phase::FirstRemote, Response::Ended(Outcome::Completed)) => self.end(
                Outcome::Completed,
            ),
            (Phase::FirstRemote, Response::Ended(_)) => self.start_guard(),
            (Phase::Guard, Response::Ended(Outcome::Completed)) => {
                self.phase = Phase::SyncCheck;
                Request::Sub(Flow::SyncStatus)
            },
            (Phase::Guard, Response::Ended(stopped)) => self.end(stopped),
            _ => self.out_of_turn(),
        }
    }

    fn step_preparing(&mut self, response: Response) -> (r: Request)
        ensures
            (final(self)@, r@) == old(self)@.next_preparing(response@),
    {
        match (self.phase, response) {
            (Phase::SyncCheck, Response::Ended(_)) => {
                self.phase = Phase::Status;
                Request::Run(list2("status", "-sb"))
            },
            (Phase::Status, Response::Status(Ok(_))) => {
                self.phase = Phase::Pending;
                Request::Sub(Flow::PendingPushes)
            },
            (Phase::Status, Response::Status(Err(e))) => self.end(Outcome::Failed(e)),
            (Phase::Pending, Response::Ended(Outcome::Completed)) => {
                self.phase = Phase::RemoteCheck;
                Request::RemoteUrl
            },
            (Phase::Pending, Response::Ended(Outcome::Skipped)) => {
                self.phase = Phase::RemoteCheck;
                Request::RemoteUrl
            },
            (Phase::Pending, Response::Ended(stopped)) => self.end(stopped),
            (Phase::RemoteCheck, Response::Text(Some(_))) => {
                self.phase = Phase::Pulling;
                self.has_remote = true;
                Request::Run(list2("pull", "--"))
            },
            (Phase::RemoteCheck, Response::Text(None)) => {
                self.has_remote = false;
                self.look_everywhere()
            },
            (Phase::Pulling, Response::Status(Ok(_))) => self.look_everywhere(),
            (Phase::Pulling, Response::Status(Err(e))) => {
                if is_no_upstream_complaint(e.message().as_str()) {
                    self.look_everywhere()
                } else {
                    self.end(Outcome::Failed(e))
                }
            },
            (Phase::AllChanges, Response::Flag(any)) => {
                self.phase = Phase::ScopedChanges;
                self.any_changes = any;
                Request::HasChanges(Some(self.pathspec.clone()))
            },
            (Phase::ScopedChanges, Response::Flag(scoped)) => {
                if self.any_changes && !scoped {
                    self.phase = Phase::Elsewhere;
                    Request::ListFolders(String::from_str("."))
                } else {
                    self.phase = Phase::Committing;
                    Request::StageCommit(self.pathspec.clone())
                }
            },
            (Phase::Elsewhere, Response::Folders(folders)) => self.end(
                Outcome::Elsewhere(folders),
            ),
            _ => self.out_of_turn(),
        }
    }

    fn step_publishing(&mut self, response: Response) -> (r: Request)
        ensures
            (final(self)@, r@) == old(self)@.next_publishing(response@),
    {
        match (self.phase, response) {
            (Phase::Committing, Response::Ended(Outcome::Completed)) => {
                if self.has_remote {
                    self.phase = Phase::PushGate;
                    Request::Acknowledge(Gate::Push)
                } else {
                    self.phase = Phase::OfferRemote;
                    Request::Confirm(Question::CreateRemote)
                }
            },
            (Phase::Committing, Response::Ended(stopped)) => self.end(stopped),
            (Phase::PushGate, Response::Text(Some(_))) => {
                self.phase = Phase::PushInternet;
                Request::Internet
            },
            (Phase::PushGate, Response::Text(None)) => self.end(Outcome::Cancelled),
            (Phase::PushInternet, Response::Flag(true)) => {
                self.phase = Phase::Publishing;
                Request::Sub(Flow::Publish)
            },
            (Phase::PushInternet, Response::Flag(false)) => self.end(
                Outcome::Unpublished(list1("git push")),
            ),
            (Phase::Publishing, Response::Ended(outcome)) => self.end(outcome),
            (Phase::OfferRemote, Response::Flag(true)) => {
                self.phase = Phase::Creating;
                Request::CreateRemote(default_repo_name(self.root.as_str()))
            },
            (Phase::OfferRemote, Response::Flag(false)) => self.end(Outcome::Completed),
            (Phase::Creating, Response::Ended(outcome)) => self.end(outcome),
            _ => self.out_of_turn(),
        }
    }

    /// Takes the answer to the last request and gives the next request.
    pub fn step(&mut self, response: Response) -> (r: Request)
        ensures
            (final(self)@, r@) == old(self)@.next(response@),
    {
        match self.phase {
            Phase::Start
            | Phase::Locating
            | Phase::OfferInit
            | Phase::Initializing
            | Phase::OfferFirstRemote
            | Phase::FirstRemote
            | Phase::Guard => self.step_opening(response),
            Phase::SyncCheck
            | Phase::Status
            | Phase::Pending
            | Phase::RemoteCheck
            | Phase::Pulling
            | Phase::AllChanges
            | Phase::ScopedChanges
            | Phase::Elsewhere => self.step_preparing(response),
            Phase::Committing
            | Phase::PushGate
            | Phase::PushInternet
            | Phase::Publishing
            | Phase::OfferRemote
            | Phase::Creating => self.step_publishing(response),
            Phase::Ended => self.out_of_turn(),
        }
    }
}

/// Whether the message of a failed pull only says that the branch has no
/// upstream to pull from.
pub fn is_no_upstream_complaint(message: &str) -> (b: bool)
    ensures
        b == no_upstream_complaint(message@),
{
    let text = to_chars(message);
    has_part(&text, &to_chars("no upstream configured")) || has_part(
        &text,
        &to_chars("no tracking information"),
    )
}

} // verus!
