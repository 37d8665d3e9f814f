//! The parsed command line, reduced to what mode selection reads.
//!
//! Parsing itself happens upstream; the dispatcher only asks which
//! subcommand, if any, the parser matched, and what that subcommand's
//! options were.

use vstd::prelude::*;

use crate::kind::ModeKind;

verus! {

/// One parsed invocation of the front end.
///
/// Immutable once constructed; owned by the top-level driver for the length
/// of one run.
#[derive(Debug)]
pub struct Invocation {
    /// The subcommand the parser matched, if any.
    pub selected: Option<ModeKind>,
    /// Raw trailing tokens destined for an external tool, as parsed.
    pub raw_tail: Vec<String>,
    /// Whether the resolved tool configuration should be printed before
    /// launching.
    pub show_config: bool,
    /// The project path, if it resolved.
    pub project_path: Option<String>,
}

impl Invocation {
    /// Whether this invocation selects mode `k`.
    pub open spec fn selects(self, k: ModeKind) -> bool {
        self.selected == Some(k)
    }

    /// Runtime test for [`Invocation::selects`].
    pub fn has_mode(&self, k: ModeKind) -> (b: bool)
        ensures
            b == self.selects(k),
    {
        match self.selected {
            Some(m) => m == k,
            None => false,
        }
    }
}

} // verus!
