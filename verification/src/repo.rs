//! The repository: where it is, what it is called, and what its remote is.

use vstd::prelude::*;
use vstd::string::*;
use vstd::utf8::{decode_utf8, valid_utf8};
use crate::paths;
use crate::process::CommandOutcome;
use crate::search::{after_last, strip_suffix, tail_after_last, without_suffix};
use crate::std_text::decode_strict;
use crate::text::{list3, opt_text, texts, to_chars, to_text};
use crate::trim::{trim, trimmed};

verus! {

/// A repository. `root` is the first directory, from where the operator
/// stands upwards, that holds version-control metadata; `name` is for
/// display only.
#[derive(Debug, PartialEq, Eq)]
pub struct GitRepo {
    pub root: String,
    pub name: String,
}

/// A directory on the way from where the operator stands up to the root of
/// the file system, and what was found there.
#[derive(Debug, PartialEq, Eq)]
pub struct Candidate {
    pub path: String,
    /// Whether it holds version-control metadata.
    pub has_metadata: bool,
    /// The address of its remote, where it has metadata and a remote.
    pub remote_url: Option<String>,
}

/// The name in the address `url` of a remote: its last path segment,
/// without `.git` at the end; none where that is empty or `url` has no `/`.
pub open spec fn name_in_url(url: Seq<char>) -> Option<Seq<char>> {
    match after_last(without_suffix(url, ".git"@), '/') {
        Some(name) => if name.len() == 0 {
            None
        } else {
            Some(name)
        },
        None => None,
    }
}

/// A name that can be shown: an empty name is no name.
pub open spec fn shown(name: Option<Seq<char>>) -> Option<Seq<char>> {
    match name {
        Some(n) => if n.len() == 0 {
            None
        } else {
            Some(n)
        },
        None => None,
    }
}

/// The name to show, from the name in the address of the remote and the
/// name of the directory, whichever there is, else `unknown`.
pub open spec fn chosen_name(from_url: Option<Seq<char>>, directory: Option<Seq<char>>) -> Seq<
    char,
> {
    match shown(from_url) {
        Some(name) => name,
        None => match shown(directory) {
            Some(name) => name,
            None => "unknown"@,
        },
    }
}

/// The name to show for the repository at `root`: the one in the address of
/// its remote, else the name of its directory, else `unknown`.
pub open spec fn display_name(root: Seq<char>, remote_url: Option<Seq<char>>) -> Seq<char> {
    chosen_name(
        match remote_url {
            Some(url) => name_in_url(url),
            None => None,
        },
        paths::file_name_of(root),
    )
}

/// There is always a name to show: whatever the root and the remote, the
/// name of a repository is not empty.
pub proof fn law_display_name_not_empty(root: Seq<char>, remote_url: Option<Seq<char>>)
    ensures
        display_name(root, remote_url).len() > 0,
{
    reveal_strlit("unknown");
}

/// A name that can be shown: an empty name is no name.
pub fn name_to_show(name: Option<String>) -> (r: Option<String>)
    ensures
        opt_text(r) == shown(opt_text(name)),
{
    match name {
        Some(n) => {
            if n.as_str().is_empty() {
                None
            } else {
                Some(n)
            }
        },
        None => None,
    }
}

/// The name to show, from the name in the address of the remote and the
/// name of the directory, whichever there is.
pub fn choose_name(from_url: Option<String>, directory: Option<String>) -> (r: String)
    ensures
        r@ == chosen_name(opt_text(from_url), opt_text(directory)),
        r@.len() > 0,
{
    proof {
        reveal_strlit("unknown");
    }
    match name_to_show(from_url) {
        Some(name) => name,
        None => match name_to_show(directory) {
            Some(name) => name,
            None => String::from_str("unknown"),
        },
    }
}

/// Whether `at` is the first of `candidates` that holds metadata.
pub open spec fn first_with_metadata(candidates: Seq<Candidate>, at: int) -> bool {
    &&& 0 <= at < candidates.len()
    &&& candidates[at].has_metadata
    &&& forall|j: int| 0 <= j < at ==> !(#[trigger] candidates[j]).has_metadata
}

/// The address of the remote in the outcome of the query for it: what was
/// printed, without the white space around it, where the query succeeded
/// and printed UTF-8 that is not blank.
pub open spec fn remote_url_of(outcome: Option<CommandOutcome>) -> Option<Seq<char>> {
    match outcome {
        Some(o) => if o.success && valid_utf8(o.stdout@) && trim(decode_utf8(o.stdout@)).len()
            > 0 {
            Some(trim(decode_utf8(o.stdout@)))
        } else {
            None
        },
        None => None,
    }
}

impl GitRepo {
    /// The repository among `candidates`, which are the directory where the
    /// operator stands and each of its ancestors, nearest first: the first
    /// that holds metadata. There is none where no candidate holds any.
    pub fn find_from_path(candidates: &Vec<Candidate>) -> (r: Option<GitRepo>)
        ensures
            match r {
                Some(repo) => repo.name@.len() > 0 && exists|at: int|
                    first_with_metadata(candidates@, at) && repo.root@ == candidates@[at].path@
                        && repo.name@ == display_name(
                        candidates@[at].path@,
                        opt_text(candidates@[at].remote_url),
                    ),
                None => forall|j: int|
                    0 <= j < candidates.len() ==> !(#[trigger] candidates@[j]).has_metadata,
            },
    {
        let mut i: usize = 0;
        while i < candidates.len()
            invariant
                i <= candidates.len(),
                forall|j: int| 0 <= j < i ==> !(#[trigger] candidates@[j]).has_metadata,
            decreases candidates.len() - i,
        {
            let candidate = &candidates[i];
            if candidate.has_metadata {
                let path = candidate.path.as_str();
                let name = match &candidate.remote_url {
                    Some(url) => Self::extract_repo_name(path, Some(url.as_str())),
                    None => Self::extract_repo_name(path, None),
                };
                assert(first_with_metadata(candidates@, i as int));
                return Some(GitRepo { root: candidate.path.clone(), name });
            }
            i += 1;
        }
        None
    }

    /// The name to show for the repository at `root`. It is never empty.
    pub fn extract_repo_name(root: &str, remote_url: Option<&str>) -> (r: String)
        ensures
            r@ == display_name(
                root@,
                match remote_url {
                    Some(url) => Some(url@),
                    None => None,
                },
            ),
            r@.len() > 0,
    {
        let from_url = match remote_url {
            Some(url) => Self::parse_repo_name_from_url(url),
            None => None,
        };
        choose_name(from_url, paths::file_name(root))
    }

    /// The name in the address `url` of a remote.
    pub fn parse_repo_name_from_url(url: &str) -> (r: Option<String>)
        ensures
            opt_text(r) == name_in_url(url@),
    {
        let stem = strip_suffix(&to_chars(url), &to_chars(".git"));
        match tail_after_last(&stem, '/') {
            Some(name) => {
                if name.len() == 0 {
                    None
                } else {
                    Some(to_text(&name))
                }
            },
            None => None,
        }
    }

    /// The query for the address of the remote.
    pub fn remote_url_query() -> (r: Vec<String>)
        ensures
            texts(r@) == seq!["config"@, "--get"@, "remote.origin.url"@],
    {
        list3("config", "--get", "remote.origin.url")
    }

    /// The address of the remote, from the outcome of the query for it;
    /// `outcome` is `None` where the query could not be run.
    pub fn get_remote_url(outcome: &Option<CommandOutcome>) -> (r: Option<String>)
        ensures
            opt_text(r) == remote_url_of(*outcome),
    {
        match outcome {
            None => None,
            Some(o) => {
                if !o.success {
                    return None;
                }
                match decode_strict(&o.stdout) {
                    None => None,
                    Some(text) => {
                        let url = trimmed(&to_chars(text.as_str()));
                        if url.len() == 0 {
                            None
                        } else {
                            Some(to_text(&url))
                        }
                    },
                }
            },
        }
    }

    /// Whether a remote is configured, from the outcome of the query for
    /// its address.
    pub fn has_remote(&self, outcome: &Option<CommandOutcome>) -> (r: bool)
        ensures
            r == (remote_url_of(*outcome) is Some),
    {
        Self::get_remote_url(outcome).is_some()
    }
}

} // verus!
