//! How a run of the script ends, and what the host is told.

use crate::error::Error;
use crate::host::HostFailure;
use vstd::prelude::*;

verus! {

/// A breach of what the script relies on. The script cannot judge the
/// transaction then, and ends without an exit code of its own.
#[derive(Clone, Copy, Debug, PartialEq, Eq)]
pub enum Fault {
    /// The host reported a failure under a code that it is not known to use.
    UnknownFailure(u64),
    /// The host went on handing out cells up to the last index that the
    /// machine can count.
    IndexOverflow,
}

/// How a run of the script ends.
#[derive(Clone, Copy, Debug, PartialEq, Eq)]
pub enum Outcome {
    /// No cell of the group is forbidden.
    Accept,
    /// The transaction is refused, for the reason given.
    Reject(Error),
    /// The run broke off.
    Fatal(Fault),
}

/// The result of a run: how it ended, and at which index.
///
/// Every cell below `index` was inspected and found harmless, and no cell
/// above it was asked for. The answer at `index` settled the outcome; only
/// where the run broke off for want of a further index was that answer
/// one more harmless cell.
#[derive(Clone, Copy, Debug, PartialEq, Eq)]
pub struct Report {
    pub outcome: Outcome,
    pub index: usize,
}

impl Outcome {
    /// The outcome that a failure reported by the host leads to. The end of
    /// the group is no fault of the transaction: it ends the walk in success.
    /// A code that the host is not known to use breaks the run off. Every
    /// other failure refuses the transaction under its own name.
    pub open spec fn of_failure(failure: HostFailure) -> Outcome {
        match failure {
            HostFailure::IndexOutOfBound => Outcome::Accept,
            HostFailure::ItemMissing => Outcome::Reject(Error::ItemMissing),
            HostFailure::LengthNotEnough(_) => Outcome::Reject(Error::LengthNotEnough),
            HostFailure::Encoding => Outcome::Reject(Error::Encoding),
            HostFailure::WaitFailure => Outcome::Reject(Error::WaitFailure),
            HostFailure::InvalidFd => Outcome::Reject(Error::InvalidFd),
            HostFailure::OtherEndClosed => Outcome::Reject(Error::OtherEndClosed),
            HostFailure::MaxVmsSpawned => Outcome::Reject(Error::MaxVmsSpawned),
            HostFailure::MaxFdsCreated => Outcome::Reject(Error::MaxFdsCreated),
            HostFailure::Unknown(errno) => Outcome::Fatal(Fault::UnknownFailure(errno)),
        }
    }

    /// What the host is told at the end of a run: exit code 0 to accept, the
    /// reason's own code to reject, and no code at all where the run broke
    /// off.
    pub open spec fn status(self) -> Result<i8, Fault> {
        match self {
            Outcome::Accept => Ok(0i8),
            Outcome::Reject(reason) => Ok(reason.ordinal() as i8),
            Outcome::Fatal(fault) => Err(fault),
        }
    }

    /// Translates a failure reported by the host into the outcome of the run.
    pub fn from_failure(failure: HostFailure) -> (outcome: Outcome)
        ensures
            outcome == Outcome::of_failure(failure),
    {
        match failure {
            HostFailure::IndexOutOfBound => Outcome::Accept,
            HostFailure::ItemMissing => Outcome::Reject(Error::ItemMissing),
            HostFailure::LengthNotEnough(_) => Outcome::Reject(Error::LengthNotEnough),
            HostFailure::Encoding => Outcome::Reject(Error::Encoding),
            HostFailure::WaitFailure => Outcome::Reject(Error::WaitFailure),
            HostFailure::InvalidFd => Outcome::Reject(Error::InvalidFd),
            HostFailure::OtherEndClosed => Outcome::Reject(Error::OtherEndClosed),
            HostFailure::MaxVmsSpawned => Outcome::Reject(Error::MaxVmsSpawned),
            HostFailure::MaxFdsCreated => Outcome::Reject(Error::MaxFdsCreated),
            HostFailure::Unknown(errno) => Outcome::Fatal(Fault::UnknownFailure(errno)),
        }
    }

    /// The exit code for this outcome, or the fault that leaves the run
    /// without one.
    pub fn exit_status(self) -> (status: Result<i8, Fault>)
        ensures
            status == self.status(),
            self is Accept <==> status == Ok::<i8, Fault>(0i8),
            self is Reject ==> status is Ok && 1 <= status->Ok_0 <= 9,
    {
        match self {
            Outcome::Accept => Ok(0),
            Outcome::Reject(reason) => Ok(reason.exit_code()),
            Outcome::Fatal(fault) => Err(fault),
        }
    }
}

} // verus!
