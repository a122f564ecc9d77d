//! External commands: what one invocation yields, and how its result is
//! classified.

use vstd::prelude::*;
use vstd::string::*;
use vstd::utf8::{decode_utf8, valid_utf8};
use crate::error::{output_view, status_view, GitError, GitErrorView};
use crate::repo::GitRepo;
use crate::std_text::{decode_lossy, decode_strict, lossy_text};
use crate::text::{join, joined, opt_text, same_text, texts, to_chars, to_text};
use crate::trim::{trim, trimmed};

verus! {

/// What one external invocation yielded. `success` tells whether the
/// process ended with a success code.
#[derive(Debug, PartialEq, Eq)]
pub struct CommandOutcome {
    pub success: bool,
    pub stdout: Vec<u8>,
    pub stderr: Vec<u8>,
}

/// A `CommandOutcome` with its output as byte sequences.
pub struct CommandOutcomeView {
    pub success: bool,
    pub stdout: Seq<u8>,
    pub stderr: Seq<u8>,
}

impl View for CommandOutcome {
    type V = CommandOutcomeView;

    open spec fn view(&self) -> CommandOutcomeView {
        CommandOutcomeView { success: self.success, stdout: self.stdout@, stderr: self.stderr@ }
    }
}

/// What the file system says of the repository root.
#[derive(Debug, PartialEq, Eq)]
pub enum RootState {
    Missing,
    NotDirectory,
    /// Its metadata cannot be read; the system's message.
    Unreadable(String),
    ReadOnly,
    Usable,
}

/// How an attempt to run a command went.
#[derive(Debug, PartialEq, Eq)]
pub enum Launch {
    /// It could not be started; the system's message.
    SpawnFailed(String),
    /// It could not be waited for; the system's message.
    WaitFailed(String),
    /// It ran; how the system words its exit status, and what it yielded.
    Exited(String, CommandOutcome),
}

/// What running a command leaves to show and to return.
#[derive(Debug, PartialEq, Eq)]
pub struct RunReport {
    /// What to print on standard error, if anything.
    pub stderr_note: Option<String>,
    /// What to print on standard output, if anything.
    pub stdout_note: Option<String>,
    pub result: Result<(), GitError>,
}

/// A command line for the version-control tool, and the token to put in
/// its environment.
#[derive(Debug, PartialEq, Eq)]
pub struct Invocation {
    pub args: Vec<String>,
    pub token: Option<String>,
}

/// Whether `arg` names a subcommand that talks to the remote, whose output
/// is not echoed.
pub open spec fn sensitive_word(arg: Seq<char>) -> bool {
    arg == "push"@ || arg == "pull"@ || arg == "fetch"@ || arg == "remote"@
}

/// Whether one of `args` names a subcommand that talks to the remote.
pub open spec fn sensitive(args: Seq<Seq<char>>) -> bool {
    exists|i: int| 0 <= i < args.len() && sensitive_word(#[trigger] args[i])
}

/// Whether one of `args` names a subcommand that talks to the remote.
pub fn is_sensitive(args: &Vec<String>) -> (b: bool)
    ensures
        b == sensitive(texts(args@)),
{
    let mut i: usize = 0;
    while i < args.len()
        invariant
            i <= args.len(),
            forall|j: int| 0 <= j < i ==> !sensitive_word(#[trigger] texts(args@)[j]),
        decreases args.len() - i,
    {
        let arg = args[i].as_str();
        if same_text(arg, "push") || same_text(arg, "pull") || same_text(arg, "fetch")
            || same_text(arg, "remote") {
            assert(sensitive_word(texts(args@)[i as int]));
            return true;
        }
        i += 1;
    }
    false
}

/// What to print of some output: the text without the white space around
/// it, unless nothing is left.
pub open spec fn note_of(text: Seq<char>) -> Option<Seq<char>> {
    if trim(text).len() == 0 {
        None
    } else {
        Some(trim(text))
    }
}

/// What to print of the output `bytes`.
pub fn note(bytes: &Vec<u8>) -> (r: Option<String>)
    ensures
        opt_text(r) == note_of(lossy_text(bytes@)),
{
    let text = decode_lossy(bytes);
    let t = trimmed(&to_chars(text.as_str()));
    if t.len() == 0 {
        None
    } else {
        Some(to_text(&t))
    }
}

/// The failure reported for a command that ended without success.
pub open spec fn exit_failure(
    prefix: Seq<char>,
    status: Seq<char>,
    args: Seq<Seq<char>>,
    stderr: Seq<u8>,
) -> GitErrorView {
    GitErrorView::CommandFailed(
        "git command failed with status "@ + status + ": "@ + prefix + joined(args, " "@)
            + "\nError: "@ + trim(lossy_text(stderr)),
    )
}

/// The failure reported for a command that ended without success.
pub fn describe_exit_failure(
    prefix: &str,
    status: &str,
    args: &Vec<String>,
    stderr: &Vec<u8>,
) -> (e: GitError)
    ensures
        e@ == exit_failure(prefix@, status@, texts(args@), stderr@),
{
    let detail = to_text(&trimmed(&to_chars(decode_lossy(stderr).as_str())));
    let line = join(args, " ");
    GitError::CommandFailed(
        String::from_str("git command failed with status ").concat(status).concat(": ").concat(
            prefix,
        ).concat(line.as_str()).concat("\nError: ").concat(detail.as_str()),
    )
}

/// Why no command can be run in a root in this state, if that is so.
pub open spec fn root_failure(root: Seq<char>, state: RootState) -> Option<GitErrorView> {
    match state {
        RootState::Missing => Some(
            GitErrorView::CommandFailed("Repository root directory does not exist: "@ + root),
        ),
        RootState::NotDirectory => Some(
            GitErrorView::CommandFailed("Repository root is not a directory: "@ + root),
        ),
        RootState::Unreadable(message) => Some(
            GitErrorView::CommandFailed(
                "Cannot access repository directory "@ + root + ": "@ + message@,
            ),
        ),
        RootState::ReadOnly => Some(
            GitErrorView::CommandFailed("Insufficient permissions to read repository: "@ + root),
        ),
        RootState::Usable => None,
    }
}

/// What `run_command` leaves after the attempt `launch` to run `args`.
/// Standard error is always shown, standard output unless the command talks
/// to the remote; the result is a success exactly when the command ran and
/// ended with a success code.
pub open spec fn run_report(args: Seq<Seq<char>>, launch: Launch) -> (
    Option<Seq<char>>,
    Option<Seq<char>>,
    Result<(), GitErrorView>,
) {
    match launch {
        Launch::SpawnFailed(message) => (
            None,
            None,
            Err(GitErrorView::CommandFailed("Failed to spawn git command: "@ + message@)),
        ),
        Launch::WaitFailed(message) => (
            None,
            None,
            Err(GitErrorView::CommandFailed("Failed to wait for git command: "@ + message@)),
        ),
        Launch::Exited(status, outcome) => (
            note_of(lossy_text(outcome.stderr@)),
            if sensitive(args) {
                None
            } else {
                note_of(lossy_text(outcome.stdout@))
            },
            if outcome.success {
                Ok(())
            } else {
                Err(exit_failure("git "@, status@, args, outcome.stderr@))
            },
        ),
    }
}

/// What `run_command_with_output` returns after the attempt `launch` to run
/// `args`: the output without the white space around it, where the command
/// succeeded and printed UTF-8.
pub open spec fn run_output(args: Seq<Seq<char>>, launch: Launch) -> Result<
    Seq<char>,
    GitErrorView,
> {
    match launch {
        Launch::SpawnFailed(message) => Err(
            GitErrorView::CommandFailed("Failed to execute git command: "@ + message@),
        ),
        Launch::WaitFailed(message) => Err(
            GitErrorView::CommandFailed("Failed to execute git command: "@ + message@),
        ),
        Launch::Exited(status, outcome) => if !outcome.success {
            Err(exit_failure(""@, status@, args, outcome.stderr@))
        } else if !valid_utf8(outcome.stdout@) {
            Err(GitErrorView::CommandFailed("Failed to parse command output"@))
        } else {
            Ok(trim(decode_utf8(outcome.stdout@)))
        },
    }
}

impl GitRepo {
    /// Why no command can be run in the root, if it is in no state for it.
    pub fn check_root(&self, state: &RootState) -> (r: Result<(), GitError>)
        ensures
            status_view(r) == (match root_failure(self.root@, *state) {
                Some(e) => Err(e),
                None => Ok(()),
            }),
    {
        let root = self.root.as_str();
        match state {
            RootState::Missing => Err(
                GitError::CommandFailed(
                    String::from_str("Repository root directory does not exist: ").concat(root),
                ),
            ),
            RootState::NotDirectory => Err(
                GitError::CommandFailed(
                    String::from_str("Repository root is not a directory: ").concat(root),
                ),
            ),
            RootState::Unreadable(message) => Err(
                GitError::CommandFailed(
                    String::from_str("Cannot access repository directory ").concat(root).concat(
                        ": ",
                    ).concat(message.as_str()),
                ),
            ),
            RootState::ReadOnly => Err(
                GitError::CommandFailed(
                    String::from_str("Insufficient permissions to read repository: ").concat(
                        root,
                    ),
                ),
            ),
            RootState::Usable => Ok(()),
        }
    }

    /// The command line that runs `args` in the repository root, whatever
    /// the directory of the process, each argument on its own.
    pub fn plain_command(&self, args: &Vec<String>) -> (r: Vec<String>)
        ensures
            texts(r@) == seq!["-C"@, self.root@] + texts(args@),
    {
        let mut r: Vec<String> = Vec::new();
        r.push(String::from_str("-C"));
        r.push(self.root.clone());
        let mut i: usize = 0;
        while i < args.len()
            invariant
                i <= args.len(),
                r@.len() == i + 2,
                r@[0]@ == "-C"@,
                r@[1]@ == self.root@,
                forall|j: int| 0 <= j < i ==> r@[j + 2]@ == args@[j]@,
            decreases args.len() - i,
        {
            r.push(args[i].clone());
            i += 1;
        }
        r
    }

    /// The command line that runs `args` in the repository root, with the
    /// token, where there is one, for its environment.
    pub fn create_command(&self, args: &Vec<String>, token: Option<String>) -> (r: Invocation)
        ensures
            texts(r.args@) == seq!["-C"@, self.root@] + texts(args@),
            opt_text(r.token) == opt_text(token),
    {
        Invocation { args: self.plain_command(args), token }
    }

    /// What to show and to return after the attempt `launch` to run `args`.
    pub fn run_command(&self, args: &Vec<String>, launch: &Launch) -> (r: RunReport)
        ensures
            (opt_text(r.stderr_note), opt_text(r.stdout_note), status_view(r.result))
                == run_report(texts(args@), *launch),
    {
        match launch {
            Launch::SpawnFailed(message) => RunReport {
                stderr_note: None,
                stdout_note: None,
                result: Err(
                    GitError::CommandFailed(
                        String::from_str("Failed to spawn git command: ").concat(
                            message.as_str(),
                        ),
                    ),
                ),
            },
            Launch::WaitFailed(message) => RunReport {
                stderr_note: None,
                stdout_note: None,
                result: Err(
                    GitError::CommandFailed(
                        String::from_str("Failed to wait for git command: ").concat(
                            message.as_str(),
                        ),
                    ),
                ),
            },
            Launch::Exited(status, outcome) => {
                let stderr_note = note(&outcome.stderr);
                let stdout_note = if is_sensitive(args) {
                    None
                } else {
                    note(&outcome.stdout)
                };
                let result = if outcome.success {
                    Ok(())
                } else {
                    Err(describe_exit_failure("git ", status.as_str(), args, &outcome.stderr))
                };
                RunReport { stderr_note, stdout_note, result }
            },
        }
    }

    /// What the attempt `launch` to run `args` printed.
    pub fn run_command_with_output(&self, args: &Vec<String>, launch: &Launch) -> (r: Result<
        String,
        GitError,
    >)
        ensures
            output_view(r) == run_output(texts(args@), *launch),
    {
        match launch {
            Launch::SpawnFailed(message) => Err(
                GitError::CommandFailed(
                    String::from_str("Failed to execute git command: ").concat(message.as_str()),
                ),
            ),
            Launch::WaitFailed(message) => Err(
                GitError::CommandFailed(
                    String::from_str("Failed to execute git command: ").concat(message.as_str()),
                ),
            ),
            Launch::Exited(status, outcome) => {
                if !outcome.success {
                    return Err(describe_exit_failure("", status.as_str(), args, &outcome.stderr));
                }
                match decode_strict(&outcome.stdout) {
                    None => Err(GitError::command_failed("Failed to parse command output")),
                    Some(text) => Ok(to_text(&trimmed(&to_chars(text.as_str())))),
                }
            },
        }
    }
}

} // verus!
