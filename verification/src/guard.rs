//! The guard itself: the walk over the cells of the script's group.

use crate::error::Error;
use crate::host::{load_group_output_data, Answer, HostFailure};
use crate::laws::{lemma_first_decision_wins, lemma_run_reports_host, lemma_verdict_skips};
use crate::model::{drawn_from, is_run, judge, replies_of, reply_at, reply_of, verdict, Reply};
use crate::outcome::{Fault, Outcome, Report};
use crate::policy::has_forbidden_prefix;
use vstd::prelude::*;

verus! {

/// Decides on one answer of the host.
pub fn inspect(answer: &Answer) -> (decision: Option<Outcome>)
    ensures
        decision == judge(reply_of(*answer)),
{
    match answer {
        Ok(bytes) => {
            if has_forbidden_prefix(bytes.as_slice()) {
                Some(Outcome::Reject(Error::CarrotAttack))
            } else {
                None
            }
        },
        Err(failure) => Some(Outcome::from_failure(*failure)),
    }
}

/// Whether `load` may have given `answers`, in this order, to queries for
/// the indices 0, 1, 2 and so on.
pub open spec fn answered_by<F: Fn(usize) -> Answer>(load: F, answers: Seq<Answer>) -> bool {
    forall|k: int|
        0 <= k < answers.len() ==> call_ensures(load, (k as usize,), #[trigger] answers[k])
}

/// Walks over the cells that `load` hands out, from index 0 on, and stops
/// at the first answer that is not a harmless cell.
///
/// `load` is asked once for each index up to the one in the report, in
/// rising order, and never again after the answer that settles the outcome.
pub fn scan<F: Fn(usize) -> Answer>(load: F) -> (report: Report)
    requires
        forall|index: usize| call_requires(load, (index,)),
    ensures
        exists|answers: Seq<Answer>|
            {
                &&& #[trigger] answered_by(load, answers)
                &&& is_run(replies_of(answers))
                &&& report == verdict(replies_of(answers))
            },
{
    let mut index: usize = 0;
    let ghost mut answers: Seq<Answer> = Seq::empty();
    loop
        invariant
            forall|i: usize| call_requires(load, (i,)),
            answers.len() == index,
            answered_by(load, answers),
            forall|j: int|
                0 <= j < index ==> judge(#[trigger] reply_at(replies_of(answers), j)) is None,
        decreases usize::MAX - index,
    {
        let answer = load(index);
        let decision = inspect(&answer);
        proof {
            let before = answers;
            answers = answers.push(answer);
            let replies = replies_of(answers);
            assert(answered_by(load, answers)) by {
                assert forall|k: int| 0 <= k < answers.len() implies call_ensures(
                    load,
                    (k as usize,),
                    #[trigger] answers[k],
                ) by {
                    if k < index {
                        assert(answers[k] == before[k]);
                    }
                }
            }
            assert forall|j: int| 0 <= j < index implies judge(
                #[trigger] reply_at(replies, j),
            ) is None by {
                assert(reply_at(replies, j) == reply_at(replies_of(before), j));
            }
            lemma_verdict_skips(replies, 0, index as int);
            assert(reply_at(replies, index as int) == reply_of(answer));
        }
        match decision {
            Some(outcome) => {
                return Report { outcome, index };
            },
            None => {
                if index == usize::MAX {
                    return Report { outcome: Outcome::Fatal(Fault::IndexOverflow), index };
                }
                index += 1;
            },
        }
    }
}

/// A copy of one answer.
fn copy_answer(answer: &Answer) -> (copy: Answer)
    ensures
        reply_of(copy) == reply_of(*answer),
{
    match answer {
        Ok(bytes) => Ok(bytes.clone()),
        Err(failure) => Err(*failure),
    }
}

/// Runs the guard against a host that answers the query for index `i` with
/// `answers[i]`, and with the end of the group past the end of the list.
///
/// The report is the verdict on these answers. In other words: the first
/// answer that is not a harmless cell settles the outcome, and a list of
/// nothing but harmless cells is accepted at its end.
pub fn evaluate(answers: &Vec<Answer>) -> (report: Report)
    ensures
        report == verdict(replies_of(answers@)),
        report.index <= answers.len(),
        forall|j: int| 0 <= j < report.index ==> judge(reply_of(#[trigger] answers[j])) is None,
        report.index < answers.len() ==> judge(reply_of(answers[report.index as int])) == Some(
            report.outcome,
        ),
        report.index == answers.len() ==> report.outcome == Outcome::Accept,
{
    let load = |index: usize| -> (answer: Answer)
        ensures
            reply_of(answer) == reply_at(replies_of(answers@), index as int),
        {
            if index < answers.len() {
                copy_answer(&answers[index])
            } else {
                Err(HostFailure::IndexOutOfBound)
            }
        };
    let report = scan(load);
    proof {
        let replies = replies_of(answers@);
        let drawn = choose|drawn: Seq<Answer>|
            {
                &&& #[trigger] answered_by(load, drawn)
                &&& is_run(replies_of(drawn))
                &&& report == verdict(replies_of(drawn))
            };
        assert(drawn_from(replies_of(drawn), replies)) by {
            assert forall|k: int| 0 <= k < drawn.len() implies #[trigger] replies_of(drawn)[k]
                == reply_at(replies, k) by {
                assert(call_ensures(load, (k as usize,), drawn[k]));
            }
        }
        lemma_run_reports_host(replies_of(drawn), replies);
        lemma_first_decision_wins(replies);
        assert forall|j: int| 0 <= j < report.index implies judge(
            reply_of(#[trigger] answers[j]),
        ) is None by {
            assert(reply_at(replies, j) == reply_of(answers[j]));
        }
    }
    report
}

/// Runs the guard against the host: walks over the output cells of the
/// script's own group.
///
/// What the host answers is not known before it is asked. Whatever it
/// answers, the report is the verdict on the answers that this run drew
/// from it, and the run drew none beyond the one that settled the outcome.
pub fn carrot_forbidden() -> (report: Report)
    ensures
        exists|replies: Seq<Reply>| #[trigger] is_run(replies) && report == verdict(replies),
{
    let load = |index: usize| -> (answer: Answer) { load_group_output_data(index) };
    let report = scan(load);
    proof {
        let drawn = choose|drawn: Seq<Answer>|
            {
                &&& #[trigger] answered_by(load, drawn)
                &&& is_run(replies_of(drawn))
                &&& report == verdict(replies_of(drawn))
            };
        assert(is_run(replies_of(drawn)));
    }
    report
}

/// The script's entry point: runs the guard against the host and gives the
/// exit code for its outcome, or the fault that broke the run off.
///
/// The code is 0 where the run accepts and the reason's own code, between 1
/// and 9, where it rejects.
pub fn program_entry() -> (status: Result<i8, Fault>)
    ensures
        exists|replies: Seq<Reply>| #[trigger]
            is_run(replies) && status == verdict(replies).outcome.status(),
        status matches Ok(code) ==> 0 <= code <= 9,
{
    carrot_forbidden().outcome.exit_status()
}

} // verus!
