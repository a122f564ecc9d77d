//! The pathspec: the one scope of a run, which is where the operator
//! stands, relative to the repository root.

use vstd::prelude::*;
use vstd::string::*;
use crate::paths;
use crate::process::CommandOutcome;
use crate::repo::GitRepo;
use crate::search::{
    contains, count, has_part, lemma_replaced_counts_less, lemma_replaced_keeps_out, replace_all,
    replaced,
};
use crate::text::{list3, opt_text, push_text, texts, to_chars, to_text};

verus! {

/// `s` with backslashes turned into slashes and without line feeds and
/// carriage returns.
pub open spec fn cleaned(s: Seq<char>) -> Seq<char>
    decreases s.len(),
{
    if s.len() == 0 {
        Seq::empty()
    } else {
        let head = cleaned(s.drop_last());
        let c = s.last();
        if c == '\n' || c == '\r' {
            head
        } else if c == '\\' {
            head.push('/')
        } else {
            head.push(c)
        }
    }
}

/// The segment that names the metadata directory, between its slashes.
pub open spec fn metadata_segment() -> Seq<char> {
    "/.git/"@
}

/// What stands for the metadata directory in a pathspec that is handed on.
pub open spec fn escape() -> Seq<char> {
    "/GIT_ESCAPED/"@
}

/// `s` with every segment that names the metadata directory replaced by
/// the escape: the replacement is repeated until no such segment is left,
/// since two of them may share a slash.
pub open spec fn escaped(s: Seq<char>) -> Seq<char>
    decreases count(s, '.'),
    via escaped_ends
{
    if contains(s, metadata_segment()) {
        escaped(replaced(s, metadata_segment(), escape()))
    } else {
        s
    }
}

/// The segment holds a dot and the escape holds none.
pub proof fn lemma_escape_has_no_dot()
    ensures
        metadata_segment().contains('.'),
        !escape().contains('.'),
{
    reveal_strlit("/.git/");
    reveal_strlit("/GIT_ESCAPED/");
    assert(metadata_segment()[1] == '.');
    assert forall|j: int| 0 <= j < escape().len() implies escape()[j] != '.' by {}
}

/// Each round of replacement takes a dot away, so the rounds end.
#[via_fn]
proof fn escaped_ends(s: Seq<char>) {
    if contains(s, metadata_segment()) {
        lemma_escape_has_no_dot();
        lemma_replaced_counts_less(s, metadata_segment(), escape(), '.');
    }
}

/// The pathspec that is handed on for `path`: one line, with slashes, in
/// which no segment names the metadata directory.
pub open spec fn normalized(path: Seq<char>) -> Seq<char> {
    escaped(cleaned(path))
}

/// The pathspec for a position that lies `relative` below the repository
/// root: `.` at the root itself, and where the position is not below it.
pub open spec fn pathspec_of(relative: Option<Seq<char>>) -> Seq<char> {
    match relative {
        Some(r) => if r.len() == 0 {
            "."@
        } else {
            r
        },
        None => "."@,
    }
}

/// Cleaning leaves no line feed, no carriage return and no backslash.
pub proof fn lemma_cleaned_is_clean(s: Seq<char>)
    ensures
        !cleaned(s).contains('\n'),
        !cleaned(s).contains('\r'),
        !cleaned(s).contains('\\'),
    decreases s.len(),
{
    if s.len() > 0 {
        lemma_cleaned_is_clean(s.drop_last());
        let head = cleaned(s.drop_last());
        let result = cleaned(s);
        assert forall|j: int| 0 <= j < result.len() implies result[j] != '\n' && result[j]
            != '\r' && result[j] != '\\' by {
            if j < head.len() {
                assert(head.contains(head[j]));
            }
        }
    }
}

/// Escaping brings in no character that neither the text nor the escape
/// holds.
pub proof fn lemma_escaped_keeps_out(s: Seq<char>, c: char)
    requires
        !s.contains(c),
        !escape().contains(c),
    ensures
        !escaped(s).contains(c),
    decreases count(s, '.'),
{
    if contains(s, metadata_segment()) {
        lemma_escape_has_no_dot();
        lemma_replaced_counts_less(s, metadata_segment(), escape(), '.');
        lemma_replaced_keeps_out(s, metadata_segment(), escape(), c);
        lemma_escaped_keeps_out(replaced(s, metadata_segment(), escape()), c);
    }
}

/// What is escaped holds no segment that names the metadata directory, and
/// what holds none is left as it is.
pub proof fn lemma_escaped_holds_none(s: Seq<char>)
    ensures
        !contains(escaped(s), metadata_segment()),
        !contains(s, metadata_segment()) ==> escaped(s) == s,
    decreases count(s, '.'),
{
    if contains(s, metadata_segment()) {
        lemma_escape_has_no_dot();
        lemma_replaced_counts_less(s, metadata_segment(), escape(), '.');
        lemma_escaped_holds_none(replaced(s, metadata_segment(), escape()));
    }
}

/// What holds no line feed, no carriage return and no backslash is clean
/// already.
pub proof fn lemma_clean_stays(s: Seq<char>)
    requires
        !s.contains('\n'),
        !s.contains('\r'),
        !s.contains('\\'),
    ensures
        cleaned(s) == s,
    decreases s.len(),
{
    if s.len() > 0 {
        let head = s.drop_last();
        assert forall|j: int| 0 <= j < head.len() implies head[j] != '\n' && head[j] != '\r'
            && head[j] != '\\' by {
            assert(s.contains(s[j]));
        }
        lemma_clean_stays(head);
        assert(s.contains(s.last()));
        assert(head.push(s.last()) =~= s);
    } else {
        assert(cleaned(s) =~= s);
    }
}

/// No reference to the metadata directory survives: whatever the path, the
/// pathspec that is handed on holds no segment `.git` between slashes, be
/// they written as slashes or as backslashes, once or in a row.
pub proof fn law_normalized_names_no_metadata(path: Seq<char>)
    ensures
        !contains(normalized(path), "/.git/"@),
{
    lemma_escaped_holds_none(cleaned(path));
}

/// One line, one kind of separator: whatever the path, the pathspec that
/// is handed on holds no line feed, no carriage return and no backslash.
pub proof fn law_normalized_is_one_line(path: Seq<char>)
    ensures
        !normalized(path).contains('\n'),
        !normalized(path).contains('\r'),
        !normalized(path).contains('\\'),
{
    lemma_cleaned_is_clean(path);
    reveal_strlit("/GIT_ESCAPED/");
    assert forall|j: int| 0 <= j < escape().len() implies escape()[j] != '\n' && escape()[j]
        != '\r' && escape()[j] != '\\' by {}
    lemma_escaped_keeps_out(cleaned(path), '\n');
    lemma_escaped_keeps_out(cleaned(path), '\r');
    lemma_escaped_keeps_out(cleaned(path), '\\');
}

/// Normalizing settles: a pathspec that was handed on is handed on as it
/// is, so it can be normalized again wherever it is used and stays the one
/// scope of the run.
pub proof fn law_normalized_settles(path: Seq<char>)
    ensures
        normalized(normalized(path)) == normalized(path),
{
    law_normalized_is_one_line(path);
    law_normalized_names_no_metadata(path);
    lemma_clean_stays(normalized(path));
    lemma_escaped_holds_none(normalized(path));
}

/// The pathspec for a position that lies `relative` below the root.
pub fn pathspec_from(relative: Option<String>) -> (r: String)
    ensures
        r@ == pathspec_of(opt_text(relative)),
{
    match relative {
        Some(rest) => {
            if to_chars(rest.as_str()).len() == 0 {
                String::from_str(".")
            } else {
                rest
            }
        },
        None => String::from_str("."),
    }
}

/// The pathspec of `current`, which is where the operator stands, in the
/// repository at `repo_root`.
pub fn compute_pathspec(repo_root: &str, current: &str) -> (r: String)
    ensures
        r@ == pathspec_of(paths::below(current@, repo_root@)),
{
    pathspec_from(paths::strip_prefix(current, repo_root))
}

/// The query for the changes in `scope`, or anywhere where there is none or
/// it is empty. The scope follows a terminator, so that it is never read as
/// an option.
pub open spec fn changes_query(scope: Option<Seq<char>>) -> Seq<Seq<char>> {
    let base = seq!["status"@, "--porcelain=v1"@, "-z"@];
    match scope {
        Some(p) => if p.len() == 0 {
            base
        } else {
            base + seq!["--"@, p]
        },
        None => base,
    }
}

/// Whether there are changes, from whether the root exists and the outcome
/// of the query: it ran, succeeded and printed something.
pub open spec fn changes_found(root_exists: bool, outcome: Option<CommandOutcome>) -> bool {
    root_exists && match outcome {
        Some(o) => o.success && o.stdout@.len() > 0,
        None => false,
    }
}

impl GitRepo {
    /// The pathspec that is handed on for `path`: one line, with slashes,
    /// in which no segment names the metadata directory.
    pub fn normalize_pathspec(path: &str) -> (r: String)
        ensures
            r@ == normalized(path@),
            !contains(r@, "/.git/"@),
            !r@.contains('\n'),
            !r@.contains('\r'),
            !r@.contains('\\'),
    {
        proof {
            law_normalized_names_no_metadata(path@);
            law_normalized_is_one_line(path@);
        }
        let chars = to_chars(path);
        let mut clean: Vec<char> = Vec::new();
        let mut i: usize = 0;
        while i < chars.len()
            invariant
                i <= chars.len(),
                clean@ == cleaned(chars@.take(i as int)),
            decreases chars.len() - i,
        {
            let c = chars[i];
            proof {
                let next = chars@.take(i + 1);
                assert(next.drop_last() =~= chars@.take(i as int));
            }
            if c == '\\' {
                clean.push('/');
            } else if c != '\n' && c != '\r' {
                clean.push(c);
            }
            i += 1;
        }
        assert(chars@.take(chars.len() as int) =~= chars@);
        let segment = to_chars("/.git/");
        let with = to_chars("/GIT_ESCAPED/");
        let mut current = clean;
        while has_part(&current, &segment)
            invariant
                segment@ == metadata_segment(),
                with@ == escape(),
                escaped(current@) == normalized(path@),
            decreases count(current@, '.'),
        {
            proof {
                lemma_escape_has_no_dot();
                lemma_replaced_counts_less(current@, metadata_segment(), escape(), '.');
            }
            current = replace_all(&current, &segment, &with);
        }
        to_text(&current)
    }

    /// The query for the changes in `scope`, or anywhere.
    pub fn changes_query(scope: Option<&str>) -> (r: Vec<String>)
        ensures
            texts(r@) == changes_query(
                match scope {
                    Some(p) => Some(p@),
                    None => None,
                },
            ),
    {
        let mut r = list3("status", "--porcelain=v1", "-z");
        match scope {
            Some(p) => {
                if to_chars(p).len() > 0 {
                    push_text(&mut r, "--");
                    push_text(&mut r, p);
                }
            },
            None => {},
        }
        r
    }

    /// Whether there are changes, from whether the root exists and the
    /// outcome of the query; `outcome` is `None` where it could not be run.
    pub fn has_changes(&self, root_exists: bool, outcome: &Option<CommandOutcome>) -> (r: bool)
        ensures
            r == changes_found(root_exists, *outcome),
    {
        if !root_exists {
            return false;
        }
        match outcome {
            Some(o) => o.success && o.stdout.len() > 0,
            None => false,
        }
    }
}

} // verus!
