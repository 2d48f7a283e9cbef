//! Environment resolution for a small C build tool: locate the project root
//! by a sentinel build file, resolve and load the project configuration,
//! discover a C compiler, and assemble the resolved build environment.
//!
//! Every decision in this crate is pure: the few filesystem and environment
//! facts that the decisions depend on (does a path name a regular file, what
//! directories are on `PATH`, what a file read returned) enter as plain
//! values, so each resolver is verified for every possible state of the
//! outside world.

use vstd::prelude::*;

pub mod chars;
pub mod compiler;
pub mod environment;
pub mod errors;
pub mod init;
pub mod logging;
pub mod paths;
pub mod project_configuration;
pub mod project_root;
pub mod scan;
pub mod user_arguments;

verus! {

/// Name of the sentinel build file that marks the project root.
pub open spec fn spec_default_build_file_name() -> Seq<char> {
    "build.c"@
}

/// Name of the sentinel build file that marks the project root.
pub fn default_build_file_name() -> (r: &'static str)
    ensures
        r@ == spec_default_build_file_name(),
{
    "build.c"
}

/// Name of the configuration file, resolved relative to the project root.
pub open spec fn spec_default_config_file_name() -> Seq<char> {
    "bold.toml"@
}

/// Name of the configuration file, resolved relative to the project root.
pub fn default_config_file_name() -> (r: &'static str)
    ensures
        r@ == spec_default_config_file_name(),
{
    "bold.toml"
}

} // verus!
