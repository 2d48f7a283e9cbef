//! The environment assembler.
//!
//! One invocation of `build` resolves the project root, loads the
//! configuration, and chooses a compiler, in that order; the three results
//! compose into a single immutable build environment. Any failure along
//! the way is the pipeline's failure: there is no partial success.

use vstd::prelude::*;

use crate::compiler::{
    choose_c_compiler, spec_choose_c_compiler, ChosenCompiler, Compiler, CompilerFlags,
    CompilerType, dirs_view, grid_view, spec_candidate_list,
};
use crate::chars::opt_str_view;
use crate::errors::{kind_of, message_of, FatalError, FatalKind};
use crate::paths::{join_path, spec_join_path, spec_ancestors_of};
use crate::project_configuration::{
    get_toml_arguments, resolve_configuration_file, spec_load_config,
    spec_resolve_configuration_file, ConfigFileRead, ConfigReadModel,
};
use crate::project_root::{find_project_root, spec_find_project_root};
use crate::user_arguments::{BuildAction, GlobalFlags};

verus! {

/// The fully resolved build environment: the project root, the sentinel
/// build file inside it, and the chosen compiler. Constructed once and
/// read-only thereafter.
#[derive(Debug)]
pub struct BuildEnvironment {
    /// The project root.
    pub project_root: String,
    /// The sentinel build file's path: the root joined with its name.
    pub build_file: String,
    /// The chosen compiler.
    pub compiler: Compiler,
}

/// The mathematical value of a build environment.
pub ghost struct BuildEnvironmentModel {
    /// The project root.
    pub project_root: Seq<char>,
    /// The sentinel build file's path.
    pub build_file: Seq<char>,
    /// The chosen compiler.
    pub compiler: ChosenCompiler,
}

impl View for BuildEnvironment {
    type V = BuildEnvironmentModel;

    open spec fn view(&self) -> BuildEnvironmentModel {
        BuildEnvironmentModel {
            project_root: self.project_root@,
            build_file: self.build_file@,
            compiler: self.compiler@,
        }
    }
}

impl BuildEnvironment {
    /// Package a resolved root and compiler, computing the build file path
    /// by joining the root with the sentinel's name.
    pub fn new(project_root: String, build_file_name: &str, compiler: Compiler) -> (r: Self)
        ensures
            r.project_root@ == project_root@,
            r.build_file@ == spec_join_path(project_root@, build_file_name@),
            r.compiler == compiler,
    {
        let build_file = join_path(project_root.as_str(), build_file_name);
        BuildEnvironment { project_root, build_file, compiler }
    }
}

/// The outcome of the whole resolution pipeline, in its order: locate the
/// root, resolve and load the configuration, choose the compiler, then
/// compose.
pub open spec fn spec_build_environment(
    build_file_name: Seq<char>,
    compiler: Option<Seq<char>>,
    compiler_type: Option<CompilerType>,
    filter: Seq<CompilerType>,
    config_override: Option<Seq<char>>,
    cwd: Option<Seq<char>>,
    has_sentinel: Seq<bool>,
    override_is_file: bool,
    config_read: ConfigReadModel,
    explicit_is_file: bool,
    path_dirs: Option<Seq<Seq<char>>>,
    present: Seq<Seq<bool>>,
) -> Result<BuildEnvironmentModel, FatalKind> {
    match spec_find_project_root(cwd, has_sentinel) {
        Err(k) => Err(k),
        Ok(root) => match spec_resolve_configuration_file(root, config_override, override_is_file) {
            Err(k) => Err(k),
            Ok(_) => match spec_load_config(config_read) {
                Err(k) => Err(k),
                Ok(_) => match spec_choose_c_compiler(
                    compiler,
                    compiler_type,
                    filter,
                    explicit_is_file,
                    path_dirs,
                    present,
                ) {
                    Err(k) => Err(k),
                    Ok(c) => Ok(
                        BuildEnvironmentModel {
                            project_root: root,
                            build_file: spec_join_path(root, build_file_name),
                            compiler: c,
                        },
                    ),
                },
            },
        },
    }
}

/// Run the resolution pipeline and assemble the build environment.
///
/// The filesystem and environment facts enter as plain values:
/// `current_dir` and `has_sentinel` as for the locator, `override_is_file`
/// as for configuration path resolution, `config_read` as what reading the
/// resolved configuration path yielded, and `explicit_is_file`,
/// `path_dirs` and `present` as for the compiler resolver.
pub fn build_environment(
    build_action: &BuildAction,
    global_flags: &GlobalFlags,
    current_dir: Option<&String>,
    has_sentinel: &Vec<bool>,
    override_is_file: bool,
    config_read: &ConfigFileRead,
    explicit_is_file: bool,
    path_dirs: Option<&Vec<String>>,
    present: &Vec<Vec<bool>>,
) -> (r: Result<BuildEnvironment, FatalError>)
    requires
        current_dir matches Some(c) ==> has_sentinel@.len() == spec_ancestors_of(c@).len(),
        build_action.spec_compiler() is None ==> (path_dirs matches Some(d) ==> present@.len()
            == d@.len() && forall|i: int|
            0 <= i < present@.len() ==> (#[trigger] present@[i])@.len() == spec_candidate_list(
                build_action.spec_compiler_filter(),
            ).len()),
    ensures
        match spec_build_environment(
            build_action.build_file@,
            build_action.spec_compiler(),
            build_action.spec_compiler_type(),
            build_action.spec_compiler_filter(),
            opt_str_view(global_flags.configuration_file),
            match current_dir {
                Some(c) => Some(c@),
                None => None,
            },
            has_sentinel@,
            override_is_file,
            config_read@,
            explicit_is_file,
            match path_dirs {
                Some(d) => Some(dirs_view(d@)),
                None => None,
            },
            grid_view(present@),
        ) {
            Ok(env) => r matches Ok(e) && e@ == env,
            Err(k) => r matches Err(e) && kind_of(e) == k && message_of(e).len() > 0,
        },
{
    let project_root = match find_project_root(
        build_action.build_file.as_str(),
        current_dir,
        has_sentinel,
    ) {
        Ok(p) => p,
        Err(e) => {
            return Err(e);
        },
    };
    let _config_path = match resolve_configuration_file(
        project_root.as_str(),
        &global_flags.configuration_file,
        override_is_file,
    ) {
        Ok(p) => p,
        Err(e) => {
            return Err(e);
        },
    };
    let _toml_arguments = match get_toml_arguments(config_read) {
        Ok(t) => t,
        Err(e) => {
            return Err(e);
        },
    };
    let compiler = match choose_c_compiler(build_action, explicit_is_file, path_dirs, present) {
        Ok(c) => c,
        Err(e) => {
            return Err(e);
        },
    };
    Ok(BuildEnvironment::new(project_root, build_action.build_file.as_str(), compiler))
}

} // verus!
