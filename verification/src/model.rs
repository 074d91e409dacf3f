//! The run of the guard as mathematics: the host's answers as plain values,
//! and the report that a list of answers calls for.

use crate::error::Error;
use crate::host::{Answer, HostFailure};
use crate::outcome::{Fault, Outcome, Report};
use crate::policy::is_forbidden;
use vstd::prelude::*;

verus! {

/// An answer of the host as a plain value: the bytes of a cell, or a failure.
pub type Reply = Result<Seq<u8>, HostFailure>;

/// The plain value of one answer.
pub open spec fn reply_of(answer: Answer) -> Reply {
    match answer {
        Ok(bytes) => Ok(bytes@),
        Err(failure) => Err(failure),
    }
}

/// The plain values of a list of answers.
pub open spec fn replies_of(answers: Seq<Answer>) -> Seq<Reply> {
    answers.map_values(|answer: Answer| reply_of(answer))
}

/// The answers of a host whose group holds `cells`, each of them read
/// without failure.
pub open spec fn group(cells: Seq<Seq<u8>>) -> Seq<Reply> {
    cells.map_values(|bytes: Seq<u8>| Ok::<Seq<u8>, HostFailure>(bytes))
}

/// What the host answers at `index` when `replies` lists its answers from
/// index 0 on: past the end of the list there are no more cells.
pub open spec fn reply_at(replies: Seq<Reply>, index: int) -> Reply {
    if 0 <= index < replies.len() {
        replies[index]
    } else {
        Err(HostFailure::IndexOutOfBound)
    }
}

/// What one answer decides: `None` for a harmless cell, after which the walk
/// goes on, else the outcome of the whole run.
pub open spec fn judge(reply: Reply) -> Option<Outcome> {
    match reply {
        Ok(bytes) => if is_forbidden(bytes) {
            Some(Outcome::Reject(Error::CarrotAttack))
        } else {
            None
        },
        Err(failure) => Some(Outcome::of_failure(failure)),
    }
}

/// The report of a walk that starts at `index`. The walk goes on over
/// harmless cells and ends with the first answer that decides; it breaks
/// off where the index cannot be counted up any more.
pub open spec fn verdict_from(replies: Seq<Reply>, index: int) -> Report
    decreases replies.len() - index,
{
    match judge(reply_at(replies, index)) {
        Some(outcome) => Report { outcome, index: index as usize },
        None => if index >= usize::MAX {
            Report { outcome: Outcome::Fatal(Fault::IndexOverflow), index: index as usize }
        } else {
            verdict_from(replies, index + 1)
        },
    }
}

/// The report of a run against a host that answers with `replies`: the walk
/// starts at index 0.
pub open spec fn verdict(replies: Seq<Reply>) -> Report {
    verdict_from(replies, 0)
}

/// Whether a run asks for exactly `replies`: its walk ends at the last of
/// them.
pub open spec fn is_run(replies: Seq<Reply>) -> bool {
    replies.len() == verdict(replies).index + 1
}

/// Whether `trace` lists what a host with the answers `replies` gives to
/// queries for the indices 0, 1, 2 and so on.
pub open spec fn drawn_from(trace: Seq<Reply>, replies: Seq<Reply>) -> bool {
    forall|k: int| 0 <= k < trace.len() ==> #[trigger] trace[k] == reply_at(replies, k)
}

} // verus!
