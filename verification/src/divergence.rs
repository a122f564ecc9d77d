//! How far the branch and its upstream have moved apart.

use vstd::prelude::*;
use vstd::string::*;
use vstd::utf8::{decode_utf8, valid_utf8};
use crate::exchange::{finish, Outcome, OutcomeView, Request, RequestView, Response, ResponseView};
use crate::number::{count_of, parse_count};
use crate::repo::GitRepo;
use crate::split::{split_words, words};
use crate::std_text::decode_strict;
use crate::text::{list3, list4, opt_text, to_chars};
use crate::trim::{is_blank, is_blank_text, trim, trim_text};

verus! {

/// The commits that only the branch has (`ahead`) and that only its
/// upstream has (`behind`). Both are zero where there is no upstream.
#[derive(Debug, Clone, Copy, PartialEq, Eq, Structural)]
pub struct DivergenceCount {
    pub ahead: usize,
    pub behind: usize,
}

/// No divergence.
pub open spec fn level() -> DivergenceCount {
    DivergenceCount { ahead: 0, behind: 0 }
}

/// The counts that the comparison printed: two numbers, the one for the
/// upstream first. Anything else counts as no divergence.
pub open spec fn counts_in(text: Seq<char>) -> DivergenceCount {
    let parts = words(text);
    if parts.len() == 2 && count_of(parts[0]) is Some && count_of(parts[1]) is Some {
        DivergenceCount { ahead: count_of(parts[1])->0, behind: count_of(parts[0])->0 }
    } else {
        level()
    }
}

/// The counts in the answer to the comparison: those it printed, where it
/// ran and printed UTF-8.
pub open spec fn counts_of(response: ResponseView) -> DivergenceCount {
    match response {
        ResponseView::Captured(Ok(outcome)) => if valid_utf8(outcome.stdout) {
            counts_in(decode_utf8(outcome.stdout))
        } else {
            level()
        },
        _ => level(),
    }
}

/// The counts that the comparison printed.
pub fn parse_counts(text: &str) -> (r: DivergenceCount)
    ensures
        r == counts_in(text@),
{
    let parts = split_words(&to_chars(text));
    if parts.len() != 2 {
        return DivergenceCount { ahead: 0, behind: 0 };
    }
    match (parse_count(&parts[0]), parse_count(&parts[1])) {
        (Some(behind), Some(ahead)) => DivergenceCount { ahead, behind },
        _ => DivergenceCount { ahead: 0, behind: 0 },
    }
}

/// Where the measuring stands: what it asked last.
#[derive(Debug, Clone, Copy, PartialEq, Eq, Structural)]
pub enum Phase {
    Start,
    Upstream,
    Branch,
    Comparing,
    Ended,
}

/// The measuring of the divergence, and its result once it has ended.
#[derive(Debug, Clone, Copy, PartialEq, Eq, Structural)]
pub struct DivergenceTracker {
    pub phase: Phase,
    pub count: DivergenceCount,
}

/// The query that succeeds where the branch has an upstream.
pub open spec fn upstream_query() -> Seq<Seq<char>> {
    seq!["rev-parse"@, "--abbrev-ref"@, "--symbolic-full-name"@, "@{u}"@]
}

/// The query for the name of the branch.
pub open spec fn branch_query() -> Seq<Seq<char>> {
    seq!["symbolic-ref"@, "--short"@, "HEAD"@]
}

/// The comparison of the upstream of `branch` with `branch`: the commits
/// of either that the other lacks, counted, those of the upstream first.
pub open spec fn comparison(branch: Seq<char>) -> Seq<Seq<char>> {
    seq!["rev-list"@, "--left-right"@, "--count"@, branch + "@{u}..."@ + branch]
}

/// The name of the branch in the answer to the query for it, if it has one.
pub open spec fn branch_in(response: ResponseView) -> Option<Seq<char>> {
    match response {
        ResponseView::Output(Ok(name)) => if is_blank(name) {
            None
        } else {
            Some(trim(name))
        },
        _ => None,
    }
}

/// Whether the branch has an upstream: the query for it ran and succeeded.
pub open spec fn upstream_found(response: ResponseView) -> bool {
    match response {
        ResponseView::Captured(Ok(outcome)) => outcome.success,
        _ => false,
    }
}

impl GitRepo {
    /// Whether the branch has an upstream, from the answer to the query
    /// for it.
    pub fn has_upstream(response: &Response) -> (b: bool)
        ensures
            b == upstream_found(response@),
    {
        match response {
            Response::Captured(Ok(outcome)) => outcome.success,
            _ => false,
        }
    }

    /// The name of the branch, from the answer to the query for it.
    pub fn get_branch(response: &Response) -> (r: Option<String>)
        ensures
            opt_text(r) == branch_in(response@),
    {
        match response {
            Response::Output(Ok(name)) => {
                if is_blank_text(name.as_str()) {
                    None
                } else {
                    Some(trim_text(name.as_str()))
                }
            },
            _ => None,
        }
    }

    /// The divergence, from the answer to the comparison.
    pub fn get_ahead_behind_count(response: &Response) -> (r: DivergenceCount)
        ensures
            r == counts_of(response@),
    {
        match response {
            Response::Captured(Ok(outcome)) => match decode_strict(&outcome.stdout) {
                Some(text) => parse_counts(text.as_str()),
                None => DivergenceCount { ahead: 0, behind: 0 },
            },
            _ => DivergenceCount { ahead: 0, behind: 0 },
        }
    }
}

impl DivergenceTracker {
    /// The end of the measuring with the result `count`.
    pub open spec fn end(count: DivergenceCount) -> (DivergenceTracker, RequestView) {
        (DivergenceTracker { phase: Phase::Ended, count }, finish(OutcomeView::Completed))
    }

    /// The state after `response`, and the next request. Without an
    /// upstream, and where the branch has no name, nothing is compared and
    /// the result is no divergence.
    pub open spec fn next(self, response: ResponseView) -> (DivergenceTracker, RequestView) {
        match (self.phase, response) {
            (Phase::Start, _) => (
                DivergenceTracker { phase: Phase::Upstream, count: level() },
                RequestView::Capture(upstream_query()),
            ),
            (Phase::Upstream, _) => if upstream_found(response) {
                (
                    DivergenceTracker { phase: Phase::Branch, count: level() },
                    RequestView::Query(branch_query()),
                )
            } else {
                Self::end(level())
            },
            (Phase::Branch, _) => match branch_in(response) {
                Some(branch) => (
                    DivergenceTracker { phase: Phase::Comparing, count: level() },
                    RequestView::Capture(comparison(branch)),
                ),
                None => Self::end(level()),
            },
            (Phase::Comparing, _) => Self::end(counts_of(response)),
            (Phase::Ended, _) => Self::end(self.count),
        }
    }

    /// The measuring before its first step.
    pub fn new() -> (s: DivergenceTracker)
        ensures
            s == (DivergenceTracker { phase: Phase::Start, count: level() }),
    {
        DivergenceTracker { phase: Phase::Start, count: DivergenceCount { ahead: 0, behind: 0 } }
    }

    fn finish_with(&mut self, count: DivergenceCount) -> (r: Request)
        ensures
            (*final(self), r@) == Self::end(count),
    {
        self.phase = Phase::Ended;
        self.count = count;
        Request::Finish(Outcome::Completed)
    }

    /// Takes the answer to the last request and gives the next request.
    pub fn step(&mut self, response: Response) -> (r: Request)
        ensures
            (*final(self), r@) == old(self).next(response@),
    {
        let none = DivergenceCount { ahead: 0, behind: 0 };
        match (self.phase, response) {
            (Phase::Start, _) => {
                self.phase = Phase::Upstream;
                self.count = none;
                Request::Capture(
                    list4("rev-parse", "--abbrev-ref", "--symbolic-full-name", "@{u}"),
                )
            },
            (Phase::Upstream, response) => {
                if GitRepo::has_upstream(&response) {
                    self.phase = Phase::Branch;
                    self.count = none;
                    Request::Query(list3("symbolic-ref", "--short", "HEAD"))
                } else {
                    self.finish_with(none)
                }
            },
            (Phase::Branch, response) => {
                match GitRepo::get_branch(&response) {
                    Some(name) => {
                        self.phase = Phase::Comparing;
                        self.count = none;
                        let range = name.clone().concat("@{u}...").concat(name.as_str());
                        Request::Capture(
                            list4("rev-list", "--left-right", "--count", range.as_str()),
                        )
                    },
                    None => self.finish_with(none),
                }
            },
            (Phase::Comparing, response) => {
                let count = GitRepo::get_ahead_behind_count(&response);
                self.finish_with(count)
            },
            (Phase::Ended, _) => {
                let count = self.count;
                self.finish_with(count)
            },
        }
    }
}

/// How far the measuring has come: each step takes it further.
pub open spec fn rank(phase: Phase) -> nat {
    match phase {
        Phase::Start => 0,
        Phase::Upstream => 1,
        Phase::Branch => 2,
        Phase::Comparing => 3,
        Phase::Ended => 4,
    }
}

/// The measuring goes forward only: every step takes it further, so it
/// ends after at most four answers.
pub proof fn law_goes_forward(s: DivergenceTracker, response: ResponseView)
    requires
        s.phase != Phase::Ended,
    ensures
        rank(s.next(response).0.phase) > rank(s.phase),
{
}

/// Once over, always over: after its end the measuring asks for nothing
/// but to finish, and its result stays.
pub proof fn law_over_is_over(s: DivergenceTracker, response: ResponseView)
    requires
        s.phase == Phase::Ended,
    ensures
        s.next(response).0 == s,
        s.next(response).1 is Finish,
{
}

/// No upstream, no divergence: where the branch has no upstream, the
/// measuring ends at once with zero ahead and zero behind.
pub proof fn law_no_upstream_is_level(s: DivergenceTracker, response: ResponseView)
    requires
        s.phase == Phase::Upstream,
        !upstream_found(response),
    ensures
        s.next(response) == DivergenceTracker::end(level()),
{
}

} // verus!
