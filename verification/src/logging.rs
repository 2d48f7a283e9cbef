//! The user-selectable logging verbosity.
//!
//! The mapping to a concrete logger lives at the process boundary; here the
//! level is plain data carried in the parsed command line.

use vstd::prelude::*;

verus! {

/// Logging verbosity selected on the command line or by environment
/// variable.
#[derive(Debug, Clone, Copy, PartialEq, Eq, Structural)]
pub enum Level {
    /// The build-dependent default verbosity.
    Default,
    /// Debug verbosity.
    Debug,
    /// Trace verbosity.
    Trace,
}

impl Default for Level {
    /// When no level is given, the default verbosity applies.
    fn default() -> (r: Self)
        ensures
            r == Level::Default,
    {
        Level::Default
    }
}

} // verus!
