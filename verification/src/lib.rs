//! A type script for CKB that refuses to let a cell be created when its data
//! begins with the bytes of the word "carrot".
//!
//! The script walks over the output cells of its own group, in index order,
//! and stops at the first answer of the host that settles the matter: a
//! cell with the forbidden prefix, a failure, or the end of the group.
//!
//! - [`policy`] says which data is forbidden.
//! - [`host`] holds the query that the script makes and the failures that
//!   the host may answer with.
//! - [`error`] and [`outcome`] name the ways in which a run ends, and the
//!   exit code of each.
//! - [`model`] states, over plain values, the report that a list of answers
//!   calls for.
//! - [`guard`] is the walk itself.
//! - [`laws`] proves what holds of every run.

pub mod error;
pub mod guard;
pub mod host;
pub mod laws;
pub mod model;
pub mod outcome;
pub mod policy;

pub use error::Error;
pub use guard::program_entry;
pub use host::{Answer, HostFailure};
pub use outcome::{Fault, Outcome, Report};
