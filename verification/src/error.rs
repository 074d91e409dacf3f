//! The reasons for which the script rejects a transaction.

use vstd::prelude::*;

verus! {

/// Why the script rejects. The first eight reasons repeat a failure that the
/// host reported while a cell was being read; the last one is the policy's own.
///
/// The order of the variants is the order of the exit codes, which start at 1.
#[derive(Clone, Copy, Debug, PartialEq, Eq)]
pub enum Error {
    /// The host had no item at the place that was asked for.
    ItemMissing,
    /// A buffer was too short for the data.
    LengthNotEnough,
    /// The data was not encoded as expected.
    Encoding,
    /// Waiting for another process failed.
    WaitFailure,
    /// A file descriptor was not valid.
    InvalidFd,
    /// The other end of a pipe was closed.
    OtherEndClosed,
    /// No more processes can be spawned.
    MaxVmsSpawned,
    /// No more file descriptors can be created.
    MaxFdsCreated,
    /// A cell's data begins with the forbidden pattern.
    CarrotAttack,
}

impl Error {
    /// The position of the reason in the list of reasons, counted from 1.
    pub open spec fn ordinal(self) -> int {
        match self {
            Error::ItemMissing => 1,
            Error::LengthNotEnough => 2,
            Error::Encoding => 3,
            Error::WaitFailure => 4,
            Error::InvalidFd => 5,
            Error::OtherEndClosed => 6,
            Error::MaxVmsSpawned => 7,
            Error::MaxFdsCreated => 8,
            Error::CarrotAttack => 9,
        }
    }

    /// The exit code that reports this reason to the host.
    pub fn exit_code(self) -> (code: i8)
        ensures
            code == self.ordinal(),
            1 <= code <= 9,
    {
        match self {
            Error::ItemMissing => 1,
            Error::LengthNotEnough => 2,
            Error::Encoding => 3,
            Error::WaitFailure => 4,
            Error::InvalidFd => 5,
            Error::OtherEndClosed => 6,
            Error::MaxVmsSpawned => 7,
            Error::MaxFdsCreated => 8,
            Error::CarrotAttack => 9,
        }
    }
}

} // verus!
