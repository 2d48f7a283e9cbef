//! The parsed command line: global flags and the selected action.
//!
//! Parsing itself is surface wiring at the process boundary; here the
//! arguments are plain data, and the build action exposes the compiler
//! flags the resolver consumes.

use vstd::prelude::*;

use crate::chars::opt_str_view;
use crate::compiler::{CompilerFlags, CompilerType};
use crate::init::InitAction;
use crate::logging::Level;

verus! {

/// Flags that apply to every action.
#[derive(Debug, Clone)]
pub struct GlobalFlags {
    /// The logging verbosity.
    pub log_level: Level,
    /// Relative path from the project root to the configuration file.
    pub configuration_file: Option<String>,
}

/// The flags of the `build` action.
#[derive(Debug, Clone)]
pub struct BuildAction {
    /// Name of the sentinel build file.
    pub build_file: String,
    /// Kind filter for the compiler resolver; empty means unfiltered.
    pub compiler_filter: Vec<CompilerType>,
    /// Manually selected compiler executable.
    pub compiler: Option<String>,
    /// Manually selected compiler kind, beside a manually selected
    /// compiler.
    pub compiler_type: Option<CompilerType>,
}

impl CompilerFlags for BuildAction {
    open spec fn spec_compiler(&self) -> Option<Seq<char>> {
        opt_str_view(self.compiler)
    }

    open spec fn spec_compiler_type(&self) -> Option<CompilerType> {
        self.compiler_type
    }

    open spec fn spec_compiler_filter(&self) -> Seq<CompilerType> {
        self.compiler_filter@
    }

    fn compiler(&self) -> (r: &Option<String>) {
        &self.compiler
    }

    fn compiler_type(&self) -> (r: &Option<CompilerType>) {
        &self.compiler_type
    }

    fn compiler_filter(&self) -> (r: &Vec<CompilerType>) {
        &self.compiler_filter
    }
}

/// The flags of the reserved `compile` action.
#[derive(Debug, Clone)]
pub struct CompileAction {}

/// The action the invocation performs.
#[derive(Debug, Clone)]
pub enum Action {
    /// Scaffold a new project.
    Init(InitAction),
    /// Resolve the build environment.
    Build(BuildAction),
    /// Reserved; not yet supported.
    Compile(CompileAction),
}

/// A whole parsed command line.
#[derive(Debug)]
pub struct CliArguments {
    /// Flags that apply to every action.
    pub global_flags: GlobalFlags,
    /// The action to be performed.
    pub action: Action,
}

/// Assemble the parsed command line from its two parts.
pub fn get_cli_arguments(global_flags: GlobalFlags, action: Action) -> (r: CliArguments)
    ensures
        r.global_flags == global_flags,
        r.action == action,
{
    CliArguments { global_flags, action }
}

} // verus!
