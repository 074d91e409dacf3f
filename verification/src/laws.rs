//! What holds of every run, stated over the plain values of the host's
//! answers.

use crate::error::Error;
use crate::model::{drawn_from, group, is_run, judge, reply_at, verdict, verdict_from, Reply};
use crate::outcome::{Fault, Outcome, Report};
use crate::policy::is_forbidden;
use vstd::prelude::*;

verus! {

/// A walk may start further on when the cells that it leaves out are
/// harmless.
pub proof fn lemma_verdict_skips(replies: Seq<Reply>, from: int, to: int)
    requires
        0 <= from <= to <= usize::MAX,
        forall|j: int| from <= j < to ==> judge(#[trigger] reply_at(replies, j)) is None,
    ensures
        verdict_from(replies, from) == verdict_from(replies, to),
    decreases to - from,
{
    if from < to {
        lemma_verdict_skips(replies, from + 1, to);
    }
}

/// A walk that starts at `from` ends at the first index from there on whose
/// answer is not a harmless cell, and reports what that answer decides. It
/// breaks off at the last index that the machine can count, should the
/// cell there be harmless too.
pub proof fn lemma_walk_ends_at_first_decision(replies: Seq<Reply>, from: int)
    requires
        0 <= from <= usize::MAX,
    ensures
        ({
            let report = verdict_from(replies, from);
            &&& from <= report.index
            &&& forall|j: int|
                from <= j < report.index ==> judge(#[trigger] reply_at(replies, j)) is None
            &&& match judge(reply_at(replies, report.index as int)) {
                Some(outcome) => report.outcome == outcome,
                None => report.index == usize::MAX && report.outcome == Outcome::Fatal(
                    Fault::IndexOverflow,
                ),
            }
        }),
    decreases usize::MAX - from,
{
    if judge(reply_at(replies, from)) is None && from < usize::MAX {
        lemma_walk_ends_at_first_decision(replies, from + 1);
    }
}

/// Cells are inspected in index order: the report names the first index
/// whose answer is not a harmless cell, and its outcome is what that answer
/// decides. Of two forbidden cells it is therefore always the one with
/// the lower index that rejects.
pub proof fn lemma_first_decision_wins(replies: Seq<Reply>)
    ensures
        ({
            let report = verdict(replies);
            &&& report.index <= replies.len()
            &&& forall|j: int|
                0 <= j < report.index ==> judge(#[trigger] reply_at(replies, j)) is None
            &&& match judge(reply_at(replies, report.index as int)) {
                Some(outcome) => report.outcome == outcome,
                None => report.index == usize::MAX && report.outcome == Outcome::Fatal(
                    Fault::IndexOverflow,
                ),
            }
        }),
{
    lemma_walk_ends_at_first_decision(replies, 0);
    let report = verdict(replies);
    if report.index > replies.len() {
        assert(judge(reply_at(replies, replies.len() as int)) is Some);
    }
}

/// The walk is short-circuiting: no answer above the one that settles the
/// outcome bears on the report. A host that differs from another only
/// above that index gets the same report.
pub proof fn lemma_later_answers_ignored(replies: Seq<Reply>, other: Seq<Reply>)
    requires
        forall|k: int|
            0 <= k <= verdict(replies).index ==> reply_at(other, k) == reply_at(replies, k),
    ensures
        verdict(other) == verdict(replies),
{
    let report = verdict(replies);
    let last = report.index as int;
    lemma_first_decision_wins(replies);
    assert forall|j: int| 0 <= j < last implies judge(#[trigger] reply_at(other, j)) is None by {
        assert(reply_at(other, j) == reply_at(replies, j));
    }
    lemma_verdict_skips(replies, 0, last);
    lemma_verdict_skips(other, 0, last);
    assert(reply_at(other, last) == reply_at(replies, last));
}

/// A run reports what the host's answers call for: when the answers that a
/// run drew are those of a host with the answers `replies`, index by index,
/// the run's report is the report for `replies`.
pub proof fn lemma_run_reports_host(trace: Seq<Reply>, replies: Seq<Reply>)
    requires
        is_run(trace),
        drawn_from(trace, replies),
    ensures
        verdict(trace) == verdict(replies),
{
    assert forall|k: int| 0 <= k <= verdict(trace).index implies reply_at(replies, k)
        == reply_at(trace, k) by {
        assert(trace[k] == reply_at(replies, k));
    }
    lemma_later_answers_ignored(trace, replies);
}

/// Evaluating the same group twice gives the same result: two runs against
/// one host draw the same answers and end with the same report.
pub proof fn lemma_runs_agree(first: Seq<Reply>, second: Seq<Reply>, replies: Seq<Reply>)
    requires
        is_run(first),
        is_run(second),
        drawn_from(first, replies),
        drawn_from(second, replies),
    ensures
        verdict(first) == verdict(second),
        first == second,
{
    lemma_run_reports_host(first, replies);
    lemma_run_reports_host(second, replies);
    assert(first.len() == second.len());
    assert(first =~= second);
}

/// A group without a forbidden cell is accepted, with exit code 0, after
/// every one of its cells was inspected.
pub proof fn lemma_clean_group_accepted(cells: Seq<Seq<u8>>)
    requires
        cells.len() <= usize::MAX,
        forall|i: int| 0 <= i < cells.len() ==> !is_forbidden(#[trigger] cells[i]),
    ensures
        verdict(group(cells)) == (Report {
            outcome: Outcome::Accept,
            index: cells.len() as usize,
        }),
        verdict(group(cells)).outcome.status() == Ok::<i8, Fault>(0i8),
{
    let replies = group(cells);
    assert forall|j: int| 0 <= j < cells.len() implies judge(#[trigger] reply_at(replies, j))
        is None by {
        assert(!is_forbidden(cells[j]));
    }
    lemma_verdict_skips(replies, 0, cells.len() as int);
}

/// A group with a forbidden cell is rejected as a carrot attack, with exit
/// code 9, at the first of its forbidden cells: the cells below it were
/// found harmless, and the run asks for no cell above it.
pub proof fn lemma_carrot_rejected(cells: Seq<Seq<u8>>)
    requires
        exists|i: int| 0 <= i < cells.len() && i <= usize::MAX && is_forbidden(#[trigger] cells[i]),
    ensures
        ({
            let report = verdict(group(cells));
            &&& report.outcome == Outcome::Reject(Error::CarrotAttack)
            &&& report.outcome.status() == Ok::<i8, Fault>(9i8)
            &&& report.index < cells.len()
            &&& is_forbidden(cells[report.index as int])
            &&& forall|j: int| 0 <= j < report.index ==> !is_forbidden(#[trigger] cells[j])
            &&& is_run(group(cells.take(report.index + 1)))
        }),
{
    let replies = group(cells);
    let report = verdict(replies);
    let witness = choose|i: int|
        0 <= i < cells.len() && i <= usize::MAX && is_forbidden(#[trigger] cells[i]);
    lemma_first_decision_wins(replies);
    if report.index > witness {
        assert(judge(reply_at(replies, witness)) is Some);
    }
    if judge(reply_at(replies, report.index as int)) is None {
        assert(report.index == witness);
    }
    assert forall|j: int| 0 <= j < report.index implies !is_forbidden(#[trigger] cells[j]) by {
        assert(judge(reply_at(replies, j)) is None);
    }
    let asked = group(cells.take(report.index + 1));
    assert forall|k: int| 0 <= k <= report.index implies reply_at(asked, k) == reply_at(
        replies,
        k,
    ) by {}
    lemma_later_answers_ignored(replies, asked);
}

/// An empty group is accepted at once: the report's index is 0, so no cell
/// was inspected.
pub proof fn lemma_empty_group_accepted(cells: Seq<Seq<u8>>)
    requires
        cells.len() == 0,
    ensures
        verdict(group(cells)) == (Report { outcome: Outcome::Accept, index: 0 }),
        verdict(group(cells)).outcome.status() == Ok::<i8, Fault>(0i8),
{
}

} // verus!
