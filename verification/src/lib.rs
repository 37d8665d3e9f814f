//! Phased mode dispatch and child-process output multiplexing for a
//! model-checker front end.
//!
//! The crate models a command-line front end that resolves exactly one
//! applicable run-mode out of a registered set, in three ordered phases,
//! and that relays the interleaved output of a delegated external tool
//! while preserving each line's stream of origin and the tool's real
//! exit status.

pub mod apalache;
pub mod args;
pub mod dispatch;
pub mod invocation;
pub mod kind;
pub mod launch;
pub mod mode;
pub mod mux;
pub mod outcome;

use vstd::prelude::*;

verus! {

/// Which of the two captured output streams a line came from.
#[derive(Clone, Copy, Debug, PartialEq, Eq, Structural)]
pub enum Origin {
    /// The child's standard output.
    Primary,
    /// The child's standard error.
    Secondary,
}

} // verus!
