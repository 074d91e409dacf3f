//! The host's side of the script: the one query that the script makes, and
//! the failures that the host may answer with.

use ckb_std::ckb_constants::Source;
use ckb_std::error::SysError;
use vstd::prelude::*;

verus! {

/// A failure that the host reports in place of data.
#[derive(Clone, Copy, Debug, PartialEq, Eq)]
pub enum HostFailure {
    /// There is no item at this index: the list that was walked has ended.
    IndexOutOfBound,
    /// The item exists, but not the field that was asked for.
    ItemMissing,
    /// The buffer was too short; the number is the length of the data.
    LengthNotEnough(usize),
    /// The data was not encoded as expected.
    Encoding,
    /// Waiting for another process failed.
    WaitFailure,
    /// A file descriptor was not valid.
    InvalidFd,
    /// The other end of a pipe was closed.
    OtherEndClosed,
    /// No more processes can be spawned.
    MaxVmsSpawned,
    /// No more file descriptors can be created.
    MaxFdsCreated,
    /// A code that the host is not known to return.
    Unknown(u64),
}

/// What the host gives for one query: the data of a cell, or a failure.
pub type Answer = Result<Vec<u8>, HostFailure>;

/// Asks the host for the data of the output cell at `index` within the
/// script's own group.
///
/// This calls `ckb_std::high_level::load_cell_data` with
/// `Source::GroupOutput` and hands on what it returned, each variant of
/// `SysError` as the variant of [`HostFailure`] with the same name. Nothing
/// is claimed of the answer: it is the host's to give. The call itself
/// stops the script where the host breaks the protocol of the syscall, or
/// where the data does not fit into memory.
#[verifier::external_body]
pub(crate) fn load_group_output_data(index: usize) -> (answer: Answer) {
    match ckb_std::high_level::load_cell_data(index, Source::GroupOutput) {
        Ok(bytes) => Ok(bytes),
        Err(SysError::IndexOutOfBound) => Err(HostFailure::IndexOutOfBound),
        Err(SysError::ItemMissing) => Err(HostFailure::ItemMissing),
        Err(SysError::LengthNotEnough(actual)) => Err(HostFailure::LengthNotEnough(actual)),
        Err(SysError::Encoding) => Err(HostFailure::Encoding),
        Err(SysError::WaitFailure) => Err(HostFailure::WaitFailure),
        Err(SysError::InvalidFd) => Err(HostFailure::InvalidFd),
        Err(SysError::OtherEndClosed) => Err(HostFailure::OtherEndClosed),
        Err(SysError::MaxVmsSpawned) => Err(HostFailure::MaxVmsSpawned),
        Err(SysError::MaxFdsCreated) => Err(HostFailure::MaxFdsCreated),
        Err(SysError::Unknown(errno)) => Err(HostFailure::Unknown(errno)),
    }
}

} // verus!
