//! The status listing, grouped by top-level folder, in the order of the
//! folders' names.

use vstd::prelude::*;
use vstd::string::*;
use crate::order::{is_less, lemma_lex_total, lemma_lex_transitive, lex_less};
use crate::search::{
    after_first, before_first, find_from, head_before_first, lemma_after_first,
    lemma_after_first_none,
};
use crate::split::{lines, split_lines};
use crate::std_text::{decode_lossy, lossy_text};
use crate::text::{list4, rows, same_chars, same_text, slice, texts, to_chars, to_text};
use crate::trim::{is_blank, trimmed};

verus! {

/// The status lines of one top-level folder.
#[derive(Debug, PartialEq, Eq)]
pub struct Group {
    /// The folder, or `.` for what lies directly at the root.
    pub key: String,
    /// Its lines, in the order of the listing.
    pub lines: Vec<String>,
}

/// A `Group` with its texts as character sequences.
pub struct GroupView {
    pub key: Seq<char>,
    pub lines: Seq<Seq<char>>,
}

impl View for Group {
    type V = GroupView;

    open spec fn view(&self) -> GroupView {
        GroupView { key: self.key@, lines: texts(self.lines@) }
    }
}

/// What a group is shown as: its folder, or `(root)` for what lies
/// directly at the root.
pub open spec fn title_of(key: Seq<char>) -> Seq<char> {
    if key == "."@ {
        "(root)"@
    } else {
        key
    }
}

/// The query for the status listing of `scope`, one entry to a line.
pub open spec fn listing_args(scope: Seq<char>) -> Seq<Seq<char>> {
    seq!["status"@, "--porcelain=v1"@, "--"@, scope]
}

/// The query for the status listing of `scope`.
pub fn listing_query(scope: &str) -> (r: Vec<String>)
    ensures
        texts(r@) == listing_args(scope@),
{
    list4("status", "--porcelain=v1", "--", scope)
}

/// What the folder `key` is shown as.
pub fn folder_title(key: &str) -> (r: String)
    ensures
        r@ == title_of(key@),
{
    if same_text(key, ".") {
        String::from_str("(root)")
    } else {
        String::from_str(key)
    }
}

impl Group {
    /// What the group is shown as.
    pub fn title(&self) -> (r: String)
        ensures
            r@ == title_of(self.key@),
    {
        folder_title(self.key.as_str())
    }
}

/// The views of a list of groups, in order.
pub open spec fn group_views(groups: Seq<Group>) -> Seq<GroupView> {
    Seq::new(groups.len(), |i: int| groups[i]@)
}

/// The status code of the status line `entry`: its first two characters,
/// the state of the index and that of the working tree.
pub open spec fn code_of(entry: Seq<char>) -> Seq<char> {
    if entry.len() >= 2 {
        entry.take(2)
    } else {
        entry
    }
}

/// What the status line `entry` says of paths: what follows the status
/// code and the blank after it.
pub open spec fn subject_of(entry: Seq<char>) -> Seq<char> {
    if entry.len() >= 3 {
        entry.skip(3)
    } else {
        Seq::empty()
    }
}

/// The path that the status line `entry` is about: what follows the status
/// code and, in a rename, the arrow.
pub open spec fn path_of(entry: Seq<char>) -> Seq<char> {
    match after_first(subject_of(entry), " -> "@) {
        Some(new_path) => new_path,
        None => subject_of(entry),
    }
}

/// The folder that `path` belongs to: its first segment, or `.` where it
/// has one segment only.
pub open spec fn key_of(path: Seq<char>) -> Seq<char> {
    match before_first(path, '/') {
        Some(folder) => folder,
        None => "."@,
    }
}

/// The status lines among `raw`: every line that is not blank, as it was
/// printed.
pub open spec fn entries_of(raw: Seq<Seq<char>>) -> Seq<Seq<char>>
    decreases raw.len(),
{
    if raw.len() == 0 {
        Seq::empty()
    } else {
        let head = entries_of(raw.drop_last());
        if is_blank(raw.last()) {
            head
        } else {
            head.push(raw.last())
        }
    }
}

/// `groups` with `line` added under `key`: at the end of the group of that
/// key if there is one, else as a new group at its place in the order.
pub open spec fn placed(groups: Seq<GroupView>, key: Seq<char>, line: Seq<char>) -> Seq<
    GroupView,
>
    decreases groups.len(),
{
    if groups.len() == 0 {
        seq![GroupView { key, lines: seq![line] }]
    } else if groups[0].key == key {
        groups.update(0, GroupView { key, lines: groups[0].lines.push(line) })
    } else if lex_less(key, groups[0].key) {
        seq![GroupView { key, lines: seq![line] }] + groups
    } else {
        seq![groups[0]] + placed(groups.skip(1), key, line)
    }
}

/// The groups of the status lines `entries`.
pub open spec fn grouped(entries: Seq<Seq<char>>) -> Seq<GroupView>
    decreases entries.len(),
{
    if entries.len() == 0 {
        Seq::empty()
    } else {
        placed(grouped(entries.drop_last()), key_of(path_of(entries.last())), entries.last())
    }
}

/// The groups of a status listing.
pub open spec fn grouped_status(listing: Seq<char>) -> Seq<GroupView> {
    grouped(entries_of(lines(listing)))
}

/// Whether the keys of `groups` rise strictly from each group to the next.
pub open spec fn ordered(groups: Seq<GroupView>) -> bool {
    forall|i: int|
        0 <= i < groups.len() - 1 ==> lex_less(#[trigger] groups[i].key, groups[i + 1].key)
}

/// Adding a line keeps the order of the groups, and puts no key before the
/// first unless it is the new one.
pub proof fn lemma_placed_ordered(groups: Seq<GroupView>, key: Seq<char>, line: Seq<char>)
    requires
        ordered(groups),
    ensures
        ordered(placed(groups, key, line)),
        placed(groups, key, line).len() >= 1,
        groups.len() > 0 ==> placed(groups, key, line)[0].key == groups[0].key || placed(
            groups,
            key,
            line,
        )[0].key == key,
        groups.len() == 0 ==> placed(groups, key, line)[0].key == key,
    decreases groups.len(),
{
    let result = placed(groups, key, line);
    if groups.len() == 0 {
        assert(result.len() == 1);
    } else if groups[0].key == key {
        assert forall|i: int| 0 <= i < result.len() - 1 implies lex_less(
            #[trigger] result[i].key,
            result[i + 1].key,
        ) by {}
    } else if lex_less(key, groups[0].key) {
        assert forall|i: int| 0 <= i < result.len() - 1 implies lex_less(
            #[trigger] result[i].key,
            result[i + 1].key,
        ) by {}
    } else {
        let rest = groups.skip(1);
        assert forall|i: int| 0 <= i < rest.len() - 1 implies lex_less(
            #[trigger] rest[i].key,
            rest[i + 1].key,
        ) by {}
        lemma_placed_ordered(rest, key, line);
        lemma_lex_total(key, groups[0].key);
        assert forall|i: int| 0 <= i < result.len() - 1 implies lex_less(
            #[trigger] result[i].key,
            result[i + 1].key,
        ) by {}
    }
}

/// Order: the groups of any listing come in the strict order of their
/// keys, so no key occurs twice and the same listing always gives the same
/// groups in the same order.
pub proof fn law_groups_ordered(entries: Seq<Seq<char>>)
    ensures
        ordered(grouped(entries)),
    decreases entries.len(),
{
    if entries.len() > 0 {
        law_groups_ordered(entries.drop_last());
        lemma_placed_ordered(
            grouped(entries.drop_last()),
            key_of(path_of(entries.last())),
            entries.last(),
        );
    }
}

/// Grouping twice gives the same: the groups depend on the listing alone,
/// so an unchanged listing is grouped as before, group for group and line
/// for line, in the order of the keys.
pub proof fn law_grouping_repeats(first: Seq<char>, second: Seq<char>)
    requires
        first == second,
    ensures
        grouped_status(first) == grouped_status(second),
        ordered(grouped_status(first)),
{
    law_groups_ordered(entries_of(lines(first)));
}

/// How often `line` stands among `lines`.
pub open spec fn occurrences(lines: Seq<Seq<char>>, line: Seq<char>) -> nat
    decreases lines.len(),
{
    if lines.len() == 0 {
        0
    } else {
        occurrences(lines.drop_last(), line) + if lines.last() == line {
            1nat
        } else {
            0nat
        }
    }
}

/// How often `line` stands in the groups together.
pub open spec fn listed(groups: Seq<GroupView>, line: Seq<char>) -> nat
    decreases groups.len(),
{
    if groups.len() == 0 {
        0
    } else {
        occurrences(groups[0].lines, line) + listed(groups.skip(1), line)
    }
}

/// Adding a line lists it once more and every other line as often as
/// before.
pub proof fn lemma_placed_lists(
    groups: Seq<GroupView>,
    key: Seq<char>,
    line: Seq<char>,
    other: Seq<char>,
)
    ensures
        listed(placed(groups, key, line), other) == listed(groups, other) + if line == other {
            1nat
        } else {
            0nat
        },
    decreases groups.len(),
{
    let result = placed(groups, key, line);
    let single = seq![line];
    let extra = if line == other {
        1nat
    } else {
        0nat
    };
    assert(single.drop_last() =~= Seq::<Seq<char>>::empty());
    assert(occurrences(single.drop_last(), other) == 0);
    assert(single.last() == line);
    assert(occurrences(single, other) == extra);
    if groups.len() == 0 {
        assert(result[0].lines == single);
        assert(result.skip(1) =~= Seq::<GroupView>::empty());
        assert(listed(result.skip(1), other) == 0);
    } else if groups[0].key == key {
        let longer = groups[0].lines.push(line);
        assert(result[0].lines == longer);
        assert(longer.drop_last() =~= groups[0].lines);
        assert(occurrences(longer, other) == occurrences(groups[0].lines, other) + extra);
        assert(result.skip(1) =~= groups.skip(1));
    } else if lex_less(key, groups[0].key) {
        assert(result[0].lines == single);
        assert(result.skip(1) =~= groups);
    } else {
        lemma_placed_lists(groups.skip(1), key, line, other);
        assert(result[0] == groups[0]);
        assert(result.skip(1) =~= placed(groups.skip(1), key, line));
    }
}

/// The groups are the listing, rearranged: every status line stands in the
/// groups exactly as often as it was printed, so none is lost, none is
/// added, and each keeps its status code.
pub proof fn law_groups_rearrange_the_lines(entries: Seq<Seq<char>>, line: Seq<char>)
    ensures
        listed(grouped(entries), line) == occurrences(entries, line),
    decreases entries.len(),
{
    if entries.len() > 0 {
        law_groups_rearrange_the_lines(entries.drop_last(), line);
        lemma_placed_lists(
            grouped(entries.drop_last()),
            key_of(path_of(entries.last())),
            entries.last(),
            line,
        );
    }
}

/// Only blank lines are left out: every other line of the listing is a
/// status line as often as it was printed, and as it was printed.
pub proof fn law_lines_listed_as_printed(raw: Seq<Seq<char>>, line: Seq<char>)
    ensures
        occurrences(entries_of(raw), line) == if is_blank(line) {
            0nat
        } else {
            occurrences(raw, line)
        },
    decreases raw.len(),
{
    if raw.len() > 0 {
        law_lines_listed_as_printed(raw.drop_last(), line);
        if !is_blank(raw.last()) {
            assert(entries_of(raw).drop_last() =~= entries_of(raw.drop_last()));
        }
    }
}

/// The lines that `groups` hold under `key`: those of the first group of
/// that key, none where there is no such group.
pub open spec fn lines_under(groups: Seq<GroupView>, key: Seq<char>) -> Seq<Seq<char>>
    decreases groups.len(),
{
    if groups.len() == 0 {
        Seq::empty()
    } else if groups[0].key == key {
        groups[0].lines
    } else {
        lines_under(groups.skip(1), key)
    }
}

/// The status lines among `entries` whose path lies in the folder `key`,
/// in the order of the listing.
pub open spec fn entries_under(entries: Seq<Seq<char>>, key: Seq<char>) -> Seq<Seq<char>>
    decreases entries.len(),
{
    if entries.len() == 0 {
        Seq::empty()
    } else {
        let head = entries_under(entries.drop_last(), key);
        if key_of(path_of(entries.last())) == key {
            head.push(entries.last())
        } else {
            head
        }
    }
}

/// Ordered groups hold nothing under a key that comes before their first.
pub proof fn lemma_nothing_before_first(groups: Seq<GroupView>, key: Seq<char>)
    requires
        ordered(groups),
        groups.len() > 0,
        lex_less(key, groups[0].key),
    ensures
        lines_under(groups, key) == Seq::<Seq<char>>::empty(),
    decreases groups.len(),
{
    lemma_lex_total(key, groups[0].key);
    let rest = groups.skip(1);
    if rest.len() > 0 {
        lemma_lex_transitive(key, groups[0].key, groups[1].key);
        assert forall|i: int| 0 <= i < rest.len() - 1 implies lex_less(
            #[trigger] rest[i].key,
            rest[i + 1].key,
        ) by {}
        lemma_nothing_before_first(rest, key);
    } else {
        assert(lines_under(rest, key) == Seq::<Seq<char>>::empty());
    }
}

/// Adding a line under a key adds it at the end of what is held under that
/// key, changes nothing under any other, and leaves no group empty.
pub proof fn lemma_placed_lines(
    groups: Seq<GroupView>,
    key: Seq<char>,
    line: Seq<char>,
    other: Seq<char>,
)
    requires
        ordered(groups),
    ensures
        lines_under(placed(groups, key, line), key) == lines_under(groups, key).push(line),
        other != key ==> lines_under(placed(groups, key, line), other) == lines_under(
            groups,
            other,
        ),
        (forall|i: int| 0 <= i < groups.len() ==> (#[trigger] groups[i]).lines.len() > 0)
            ==> forall|i: int|
            0 <= i < placed(groups, key, line).len() ==> (#[trigger] placed(
                groups,
                key,
                line,
            )[i]).lines.len() > 0,
    decreases groups.len(),
{
    let result = placed(groups, key, line);
    if groups.len() == 0 {
        assert(lines_under(result.skip(1), other) == Seq::<Seq<char>>::empty());
    } else if groups[0].key == key {
        assert(result.skip(1) =~= groups.skip(1));
    } else if lex_less(key, groups[0].key) {
        lemma_nothing_before_first(groups, key);
        assert(result.skip(1) =~= groups);
    } else {
        let rest = groups.skip(1);
        assert forall|i: int| 0 <= i < rest.len() - 1 implies lex_less(
            #[trigger] rest[i].key,
            rest[i + 1].key,
        ) by {}
        lemma_placed_lines(rest, key, line, other);
        assert(result.skip(1) =~= placed(rest, key, line));
        if forall|i: int| 0 <= i < groups.len() ==> (#[trigger] groups[i]).lines.len() > 0 {
            assert forall|i: int| 0 <= i < rest.len() implies (#[trigger] rest[i]).lines.len()
                > 0 by {}
            assert forall|i: int| 0 <= i < result.len() implies (#[trigger] result[i]).lines.len()
                > 0 by {}
        }
    }
}

/// Nothing is lost and nothing is moved: under each key the groups hold
/// exactly the status lines of that folder, in the order of the listing,
/// and no group is empty.
pub proof fn law_groups_hold_their_lines(entries: Seq<Seq<char>>, key: Seq<char>)
    ensures
        lines_under(grouped(entries), key) == entries_under(entries, key),
        forall|i: int|
            0 <= i < grouped(entries).len() ==> (#[trigger] grouped(entries)[i]).lines.len() > 0,
    decreases entries.len(),
{
    if entries.len() > 0 {
        let before = grouped(entries.drop_last());
        law_groups_hold_their_lines(entries.drop_last(), key);
        law_groups_ordered(entries.drop_last());
        lemma_placed_lines(before, key_of(path_of(entries.last())), entries.last(), key);
    }
}

/// The status code of the status line `entry`.
pub fn entry_code(entry: &Vec<char>) -> (r: Vec<char>)
    ensures
        r@ == code_of(entry@),
{
    let end = if entry.len() >= 2 {
        2
    } else {
        entry.len()
    };
    assert(entry@.take(end as int) =~= entry@.subrange(0, end as int));
    assert(entry@.take(entry.len() as int) =~= entry@);
    slice(entry, 0, end)
}

/// The path that the status line `entry` is about.
pub fn entry_path(entry: &Vec<char>) -> (r: Vec<char>)
    ensures
        r@ == path_of(entry@),
{
    let subject = if entry.len() >= 3 {
        assert(entry@.skip(3) =~= entry@.subrange(3, entry.len() as int));
        slice(entry, 3, entry.len())
    } else {
        Vec::new()
    };
    let arrow = to_chars(" -> ");
    proof {
        reveal_strlit(" -> ");
    }
    match find_from(&subject, &arrow, 0) {
        Some(at) => {
            proof {
                lemma_after_first(subject@, arrow@, at as int);
                assert(subject@.skip(at + 4) =~= subject@.subrange(
                    at + 4,
                    subject.len() as int,
                ));
            }
            slice(&subject, at + 4, subject.len())
        },
        None => {
            proof {
                lemma_after_first_none(subject@, arrow@, 0);
                assert(subject@.skip(0) =~= subject@);
            }
            subject
        },
    }
}

/// The folder that `path` belongs to.
pub fn path_key(path: &Vec<char>) -> (r: Vec<char>)
    ensures
        r@ == key_of(path@),
{
    match head_before_first(path, '/') {
        Some(folder) => folder,
        None => to_chars("."),
    }
}

/// Adds `line` to `groups` under `key`.
pub fn place(groups: &mut Vec<Group>, key: &Vec<char>, line: String)
    ensures
        group_views(final(groups)@) == placed(group_views(old(groups)@), key@, line@),
{
    let ghost before = group_views(groups@);
    let mut i: usize = 0;
    assert(before.take(0) + placed(before.skip(0), key@, line@) =~= placed(before, key@, line@))
        by {
        assert(before.skip(0) =~= before);
    }
    while i < groups.len()
        invariant
            i <= groups.len(),
            group_views(groups@) == before,
            before == group_views(old(groups)@),
            before.len() == groups.len(),
            before.take(i as int) + placed(before.skip(i as int), key@, line@) == placed(
                before,
                key@,
                line@,
            ),
        decreases groups.len() - i,
    {
        let ghost rest = before.skip(i as int);
        let existing = to_chars(groups[i].key.as_str());
        if same_chars(&existing, key) {
            let mut group = groups.remove(i);
            group.lines.push(line);
            assert(texts(group.lines@) =~= rest[0].lines.push(line@));
            groups.insert(i, group);
            return ;
        }
        if is_less(key, &existing) {
            let mut lines: Vec<String> = Vec::new();
            lines.push(line);
            assert(texts(lines@) =~= seq![line@]);
            groups.insert(i, Group { key: to_text(key), lines });
            return ;
        }
        assert(before.take(i + 1) + placed(before.skip(i + 1), key@, line@) =~= before.take(
            i as int,
        ) + (seq![rest[0]] + placed(rest.skip(1), key@, line@))) by {
            assert(rest.skip(1) =~= before.skip(i + 1));
        }
        i += 1;
    }
    let mut lines: Vec<String> = Vec::new();
    lines.push(line);
    assert(texts(lines@) =~= seq![line@]);
    groups.push(Group { key: to_text(key), lines });
}

/// The groups of the status listing `listing`, in the order of their
/// keys. Every line that is not blank is listed as it was printed, status
/// code and all, under the folder of its path.
pub fn group_listing(listing: &str) -> (r: Vec<Group>)
    ensures
        group_views(r@) == grouped_status(listing@),
        ordered(group_views(r@)),
{
    let raw = split_lines(&to_chars(listing));
    let mut groups: Vec<Group> = Vec::new();
    let mut i: usize = 0;
    assert(group_views(groups@) =~= Seq::<GroupView>::empty());
    assert(rows(raw@).take(0) =~= Seq::<Seq<char>>::empty());
    while i < raw.len()
        invariant
            i <= raw.len(),
            group_views(groups@) == grouped(entries_of(rows(raw@).take(i as int))),
        decreases raw.len() - i,
    {
        proof {
            let next = rows(raw@).take(i + 1);
            assert(next.drop_last() =~= rows(raw@).take(i as int));
            assert(next.last() == raw@[i as int]@);
        }
        let line = &raw[i];
        if trimmed(line).len() > 0 {
            let key = path_key(&entry_path(line));
            proof {
                let entries = entries_of(rows(raw@).take(i + 1));
                assert(entries.drop_last() =~= entries_of(rows(raw@).take(i as int)));
            }
            place(&mut groups, &key, to_text(line));
        }
        i += 1;
    }
    proof {
        assert(rows(raw@).take(raw.len() as int) =~= rows(raw@));
        law_groups_ordered(entries_of(lines(listing@)));
    }
    groups
}

/// The groups of the status listing `stdout`, in the order of their keys.
pub fn print_grouped_status(stdout: &Vec<u8>) -> (r: Vec<Group>)
    ensures
        group_views(r@) == grouped_status(lossy_text(stdout@)),
        ordered(group_views(r@)),
{
    group_listing(decode_lossy(stdout).as_str())
}

/// The keys of `groups`, in order.
pub open spec fn keys_of(groups: Seq<GroupView>) -> Seq<Seq<char>> {
    Seq::new(groups.len(), |i: int| groups[i].key)
}

/// The top-level folders that the status listing `listing` names, in
/// order.
pub fn listed_folders(listing: &str) -> (r: Vec<String>)
    ensures
        texts(r@) == keys_of(grouped_status(listing@)),
{
    let groups = group_listing(listing);
    let mut r: Vec<String> = Vec::new();
    let mut i: usize = 0;
    while i < groups.len()
        invariant
            i <= groups.len(),
            r@.len() == i,
            forall|j: int| 0 <= j < i ==> (#[trigger] r@[j])@ == groups@[j].key@,
        decreases groups.len() - i,
    {
        r.push(groups[i].key.clone());
        i += 1;
    }
    assert(texts(r@) =~= keys_of(group_views(groups@)));
    r
}

/// The top-level folders that the status listing `stdout` names, in order.
pub fn changed_folders(stdout: &Vec<u8>) -> (r: Vec<String>)
    ensures
        texts(r@) == keys_of(grouped_status(lossy_text(stdout@))),
{
    listed_folders(decode_lossy(stdout).as_str())
}

} // verus!
