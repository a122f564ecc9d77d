//! What kinds of change a status listing reports for a scope.

use vstd::prelude::*;
use crate::pathspec::changes_found;
use crate::process::CommandOutcome;
use crate::repo::GitRepo;
use crate::split::{split, split_on};
use crate::std_text::{decode_lossy, lossy_text};
use crate::text::{rows, to_chars};

verus! {

/// The kinds of change in a scope: changes not yet staged, changes staged
/// for the next commit, and files that are not tracked.
#[derive(Debug, Clone, Copy, PartialEq, Eq, Structural)]
pub struct ChangeSet {
    pub unstaged: bool,
    pub staged: bool,
    pub untracked: bool,
}

impl ChangeSet {
    /// No change of any kind.
    pub open spec fn none() -> ChangeSet {
        ChangeSet { unstaged: false, staged: false, untracked: false }
    }

    /// Whether there is a change of some kind.
    pub open spec fn any(self) -> bool {
        self.unstaged || self.staged || self.untracked
    }

    /// The changes of either.
    pub open spec fn merged(self, other: ChangeSet) -> ChangeSet {
        ChangeSet {
            unstaged: self.unstaged || other.unstaged,
            staged: self.staged || other.staged,
            untracked: self.untracked || other.untracked,
        }
    }

    /// Whether there is a change of some kind.
    pub fn has_any(&self) -> (b: bool)
        ensures
            b == self.any(),
    {
        self.unstaged || self.staged || self.untracked
    }
}

/// Whether a status letter stands for a change: neither a blank nor the
/// mark of an untracked or ignored file.
pub open spec fn is_change(letter: char) -> bool {
    letter != ' ' && letter != '?' && letter != '!'
}

/// The changes that one entry with the status code `x`, `y` reports: `x` is
/// the state of the index, `y` that of the working tree, `??` an untracked
/// file.
pub open spec fn entry_changes(x: char, y: char) -> ChangeSet {
    ChangeSet { unstaged: is_change(y), staged: is_change(x), untracked: x == '?' && y == '?' }
}

/// Whether an entry with the status code `x`, `y` is followed by the path
/// it was renamed or copied from.
pub open spec fn has_origin(x: char, y: char) -> bool {
    x == 'R' || x == 'C' || y == 'R' || y == 'C'
}

/// The changes that `fields` report, which are the pieces of a listing
/// between its NUL characters. A field holds a status code, a blank and a
/// path; the field after a rename or a copy holds the former path only and
/// is passed over, as `skip` says of the first.
pub open spec fn changes_in(fields: Seq<Seq<char>>, skip: bool) -> ChangeSet
    decreases fields.len(),
{
    if fields.len() == 0 {
        ChangeSet::none()
    } else if skip || fields[0].len() < 2 {
        changes_in(fields.skip(1), false)
    } else {
        entry_changes(fields[0][0], fields[0][1]).merged(
            changes_in(fields.skip(1), has_origin(fields[0][0], fields[0][1])),
        )
    }
}

/// The changes that a listing reports.
pub open spec fn detected(listing: Seq<char>) -> ChangeSet {
    changes_in(split(listing, '\0'), false)
}

/// The changes in a scope, from whether the root exists and the outcome of
/// the query for them: none unless it ran and succeeded.
pub open spec fn changes_of(root_exists: bool, outcome: Option<CommandOutcome>) -> ChangeSet {
    match outcome {
        Some(o) => if root_exists && o.success {
            detected(lossy_text(o.stdout@))
        } else {
            ChangeSet::none()
        },
        None => ChangeSet::none(),
    }
}

/// The changes that one entry with the status code `x`, `y` reports.
pub fn classify(x: char, y: char) -> (r: ChangeSet)
    ensures
        r == entry_changes(x, y),
{
    ChangeSet {
        unstaged: y != ' ' && y != '?' && y != '!',
        staged: x != ' ' && x != '?' && x != '!',
        untracked: x == '?' && y == '?',
    }
}

/// The changes that a listing reports.
pub fn detect_in(listing: &Vec<char>) -> (r: ChangeSet)
    ensures
        r == detected(listing@),
{
    let fields = split_on(listing, '\0');
    let mut found = ChangeSet { unstaged: false, staged: false, untracked: false };
    let mut skip = false;
    let mut i: usize = 0;
    assert(rows(fields@).skip(0) =~= rows(fields@));
    while i < fields.len()
        invariant
            i <= fields.len(),
            rows(fields@) == split(listing@, '\0'),
            found.merged(changes_in(rows(fields@).skip(i as int), skip)) == detected(listing@),
        decreases fields.len() - i,
    {
        let ghost rest = rows(fields@).skip(i as int);
        assert(rest.skip(1) =~= rows(fields@).skip(i + 1));
        let field = &fields[i];
        if skip || field.len() < 2 {
            skip = false;
        } else {
            let x = field[0];
            let y = field[1];
            let entry = classify(x, y);
            found =
            ChangeSet {
                unstaged: found.unstaged || entry.unstaged,
                staged: found.staged || entry.staged,
                untracked: found.untracked || entry.untracked,
            };
            skip = x == 'R' || x == 'C' || y == 'R' || y == 'C';
        }
        i += 1;
    }
    found
}

impl GitRepo {
    /// The changes in a scope, from whether the root exists and the outcome
    /// of the query for them; `outcome` is `None` where it could not be run.
    /// Where this reports a change, `has_changes` finds one.
    pub fn detect(&self, root_exists: bool, outcome: &Option<CommandOutcome>) -> (r: ChangeSet)
        ensures
            r == changes_of(root_exists, *outcome),
            r.any() ==> changes_found(root_exists, *outcome),
    {
        match outcome {
            Some(o) => {
                if root_exists && o.success {
                    let listing = to_chars(decode_lossy(&o.stdout).as_str());
                    let found = detect_in(&listing);
                    proof {
                        if found.any() {
                            law_detected_is_found(listing@);
                        }
                    }
                    found
                } else {
                    ChangeSet { unstaged: false, staged: false, untracked: false }
                }
            },
            None => ChangeSet { unstaged: false, staged: false, untracked: false },
        }
    }
}

/// Fields without entries report nothing.
pub proof fn lemma_short_fields_report_nothing(fields: Seq<Seq<char>>, skip: bool)
    requires
        forall|i: int| 0 <= i < fields.len() ==> (#[trigger] fields[i]).len() < 2,
    ensures
        changes_in(fields, skip) == ChangeSet::none(),
    decreases fields.len(),
{
    if fields.len() > 0 {
        let rest = fields.skip(1);
        assert forall|i: int| 0 <= i < rest.len() implies (#[trigger] rest[i]).len() < 2 by {}
        lemma_short_fields_report_nothing(rest, false);
    }
}

/// A change of any kind takes a listing that is not empty: what `detect`
/// reports, `has_changes` finds.
pub proof fn law_detected_is_found(listing: Seq<char>)
    requires
        detected(listing).any(),
    ensures
        listing.len() > 0,
{
    if listing.len() == 0 {
        lemma_short_fields_report_nothing(split(listing, '\0'), false);
    }
}

} // verus!
