//! The fatal error taxonomy of the resolution pipeline.
//!
//! Every failure a resolver can report is one of these kinds; the process
//! boundary prints the message and exits with a nonzero code. Resolver
//! contracts speak of the kind through [`kind_of`], so callers know exactly
//! which inputs produce which kind.

use vstd::prelude::*;

verus! {

/// A condition on which the tool cannot proceed.
///
/// Each variant carries a human-readable diagnostic; contracts guarantee the
/// diagnostic is never empty.
#[derive(Debug, Clone)]
pub enum FatalError {
    /// A required operating-system facility (current directory, `PATH`) was
    /// unavailable.
    EnvPrecondition(String),
    /// Something required was not found: no project root, no matching
    /// compiler, a missing explicit compiler file.
    NotFound(String),
    /// User input that is invalid or cannot be resolved unambiguously: an
    /// absolute configuration path, a compiler whose kind cannot be
    /// determined, an unusable project directory.
    InvalidInput(String),
    /// The configuration file exists but does not parse.
    MalformedConfig(String),
    /// A file existed but could not be read.
    Io(String),
}

/// The kind of a fatal error, without its message.
#[derive(PartialEq, Eq, Structural)]
pub ghost enum FatalKind {
    EnvPrecondition,
    NotFound,
    InvalidInput,
    MalformedConfig,
    Io,
}

/// The kind of `e`.
pub open spec fn kind_of(e: FatalError) -> FatalKind {
    match e {
        FatalError::EnvPrecondition(_) => FatalKind::EnvPrecondition,
        FatalError::NotFound(_) => FatalKind::NotFound,
        FatalError::InvalidInput(_) => FatalKind::InvalidInput,
        FatalError::MalformedConfig(_) => FatalKind::MalformedConfig,
        FatalError::Io(_) => FatalKind::Io,
    }
}

/// The diagnostic message of `e`.
pub open spec fn message_of(e: FatalError) -> Seq<char> {
    match e {
        FatalError::EnvPrecondition(m) => m@,
        FatalError::NotFound(m) => m@,
        FatalError::InvalidInput(m) => m@,
        FatalError::MalformedConfig(m) => m@,
        FatalError::Io(m) => m@,
    }
}

impl FatalError {
    /// The diagnostic message, for reporting at the process boundary.
    pub fn message(&self) -> (r: &String)
        ensures
            r@ == message_of(*self),
    {
        match self {
            FatalError::EnvPrecondition(m) => m,
            FatalError::NotFound(m) => m,
            FatalError::InvalidInput(m) => m,
            FatalError::MalformedConfig(m) => m,
            FatalError::Io(m) => m,
        }
    }
}

} // verus!
