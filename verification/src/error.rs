//! The ways a run can fail.

use vstd::prelude::*;
use vstd::string::*;

verus! {

/// A failure of the tool. Precondition failures (`NoChanges`,
/// `NoCommitMessage`, `NoToken`, `NoInternet`) leave the repository as it
/// was; `CommandFailed` and `Other` carry the text to show the operator.
#[derive(Debug, PartialEq, Eq)]
pub enum GitError {
    NoChanges,
    NoCommitMessage,
    CommandFailed(String),
    NoToken,
    NoInternet,
    Other(String),
}

/// A `GitError` with its texts as character sequences.
pub enum GitErrorView {
    NoChanges,
    NoCommitMessage,
    CommandFailed(Seq<char>),
    NoToken,
    NoInternet,
    Other(Seq<char>),
}

impl View for GitError {
    type V = GitErrorView;

    open spec fn view(&self) -> GitErrorView {
        match self {
            GitError::NoChanges => GitErrorView::NoChanges,
            GitError::NoCommitMessage => GitErrorView::NoCommitMessage,
            GitError::CommandFailed(detail) => GitErrorView::CommandFailed(detail@),
            GitError::NoToken => GitErrorView::NoToken,
            GitError::NoInternet => GitErrorView::NoInternet,
            GitError::Other(detail) => GitErrorView::Other(detail@),
        }
    }
}

impl GitErrorView {
    /// The line shown to the operator for this failure.
    pub open spec fn message(self) -> Seq<char> {
        match self {
            GitErrorView::NoChanges => "No changes to commit"@,
            GitErrorView::NoCommitMessage => "No commit message provided"@,
            GitErrorView::CommandFailed(detail) => "Command failed: "@ + detail,
            GitErrorView::NoToken => "No GitHub token found"@,
            GitErrorView::NoInternet => "No internet connection"@,
            GitErrorView::Other(detail) => detail,
        }
    }
}

impl GitError {
    /// A `CommandFailed` whose detail is `detail`.
    pub fn command_failed(detail: &str) -> (e: GitError)
        ensures
            e@ == GitErrorView::CommandFailed(detail@),
    {
        GitError::CommandFailed(String::from_str(detail))
    }

    /// An `Other` whose detail is `detail`.
    pub fn other(detail: &str) -> (e: GitError)
        ensures
            e@ == GitErrorView::Other(detail@),
    {
        GitError::Other(String::from_str(detail))
    }

    /// The line shown to the operator for this failure.
    pub fn message(&self) -> (text: String)
        ensures
            text@ == self@.message(),
    {
        match self {
            GitError::NoChanges => String::from_str("No changes to commit"),
            GitError::NoCommitMessage => String::from_str("No commit message provided"),
            GitError::CommandFailed(detail) => {
                String::from_str("Command failed: ").concat(detail.as_str())
            },
            GitError::NoToken => String::from_str("No GitHub token found"),
            GitError::NoInternet => String::from_str("No internet connection"),
            GitError::Other(detail) => detail.clone(),
        }
    }

    /// A copy of this failure.
    pub fn duplicate(&self) -> (e: GitError)
        ensures
            e@ == self@,
    {
        match self {
            GitError::NoChanges => GitError::NoChanges,
            GitError::NoCommitMessage => GitError::NoCommitMessage,
            GitError::CommandFailed(detail) => GitError::CommandFailed(detail.clone()),
            GitError::NoToken => GitError::NoToken,
            GitError::NoInternet => GitError::NoInternet,
            GitError::Other(detail) => GitError::Other(detail.clone()),
        }
    }
}

/// The view of a result that carries nothing on success.
pub open spec fn status_view(r: Result<(), GitError>) -> Result<(), GitErrorView> {
    match r {
        Ok(_) => Ok(()),
        Err(e) => Err(e@),
    }
}

/// The view of a result that carries a text on success.
pub open spec fn output_view(r: Result<String, GitError>) -> Result<Seq<char>, GitErrorView> {
    match r {
        Ok(s) => Ok(s@),
        Err(e) => Err(e@),
    }
}

} // verus!
