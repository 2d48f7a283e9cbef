//! Scaffolding a new project.
//!
//! `init` needs a directory that is empty or does not exist yet, and it
//! writes a default configuration file there. The decision — whether the
//! target is usable, whether the directory must be created, where the
//! configuration file goes and what it holds — is pure and verified here;
//! the caller supplies the filesystem facts and performs the plan.

use vstd::prelude::*;

use crate::chars::opt_str_view;
use crate::errors::{kind_of, message_of, FatalError, FatalKind};
use crate::paths::{
    has_extension, last_component, parent_of, spec_has_extension, spec_last_component,
    spec_parent_of,
};
use crate::project_configuration::{
    config_file_content, resolve_configuration_file, spec_config_content,
    spec_resolve_configuration_file, ConfigModel, TomlArguments,
};

verus! {

/// The flags of the `init` action.
#[derive(Debug, Clone)]
pub struct InitAction {
    /// The directory to initialize; the current directory when absent.
    pub project_root: Option<String>,
}

/// What a successful `init` decision asks the caller to do: create the
/// directory if needed, then write the configuration file.
#[derive(Debug)]
pub struct InitPlan {
    /// The directory the project is initialized in.
    pub project_root: String,
    /// Whether the directory must be created first.
    pub create_directory: bool,
    /// Where the default configuration file goes.
    pub config_path: String,
    /// What the default configuration file holds.
    pub config_content: String,
}

/// The mathematical value of an `init` plan.
pub ghost struct InitPlanModel {
    /// The directory the project is initialized in.
    pub project_root: Seq<char>,
    /// Whether the directory must be created first.
    pub create_directory: bool,
    /// Where the default configuration file goes.
    pub config_path: Seq<char>,
    /// What the default configuration file holds.
    pub config_content: Seq<char>,
}

impl View for InitPlan {
    type V = InitPlanModel;

    open spec fn view(&self) -> InitPlanModel {
        InitPlanModel {
            project_root: self.project_root@,
            create_directory: self.create_directory,
            config_path: self.config_path@,
            config_content: self.config_content@,
        }
    }
}

/// The default configuration record written on `init`: the name of the
/// directory holding the configuration file, when it has one, and no
/// compiler preference.
pub open spec fn spec_default_config_for(config_path: Seq<char>) -> ConfigModel {
    let nm = spec_last_component(spec_parent_of(config_path));
    ConfigModel {
        name: if nm.len() == 0 {
            None
        } else {
            Some(nm)
        },
        compiler: None,
    }
}

/// The outcome of the `init` decision.
///
/// The target is the action's directory, or the current directory when the
/// action names none; without either the environment fails. A target that
/// is a regular file or carries an extension is rejected. An existing
/// target must be readable and empty; a nonexistent one is planned for
/// creation. The configuration path is resolved as for loading, and the
/// content is the serialized default record.
pub open spec fn spec_init_project(
    target: Option<Seq<char>>,
    cwd: Option<Seq<char>>,
    target_is_file: bool,
    target_exists: bool,
    directory_entries: Option<u64>,
    config_override: Option<Seq<char>>,
    override_is_file: bool,
) -> Result<InitPlanModel, FatalKind> {
    let root_opt = if target is Some {
        target
    } else {
        cwd
    };
    match root_opt {
        None => Err(FatalKind::EnvPrecondition),
        Some(root) => {
            if target_is_file || spec_has_extension(root) {
                Err(FatalKind::InvalidInput)
            } else if target_exists {
                match directory_entries {
                    None => Err(FatalKind::Io),
                    Some(n) => if n > 0 {
                        Err(FatalKind::InvalidInput)
                    } else {
                        spec_init_plan(root, false, config_override, override_is_file)
                    },
                }
            } else {
                spec_init_plan(root, true, config_override, override_is_file)
            }
        },
    }
}

/// The outcome of default configuration generation: the resolved path of
/// the configuration file (whose resolution may itself reject an absolute
/// override) and the serialized default record for it.
pub open spec fn spec_generate_configuration_file(
    root: Seq<char>,
    config_override: Option<Seq<char>>,
    override_is_file: bool,
) -> Result<(Seq<char>, Seq<char>), FatalKind> {
    match spec_resolve_configuration_file(root, config_override, override_is_file) {
        Err(k) => Err(k),
        Ok(cp) => Ok((cp, spec_config_content(spec_default_config_for(cp)))),
    }
}

/// The plan for a usable target: where the default configuration goes and
/// what it holds.
pub open spec fn spec_init_plan(
    root: Seq<char>,
    create_directory: bool,
    config_override: Option<Seq<char>>,
    override_is_file: bool,
) -> Result<InitPlanModel, FatalKind> {
    match spec_generate_configuration_file(root, config_override, override_is_file) {
        Err(k) => Err(k),
        Ok(pc) => Ok(
            InitPlanModel {
                project_root: root,
                create_directory,
                config_path: pc.0,
                config_content: pc.1,
            },
        ),
    }
}

/// Compute where the default configuration file of `project_root` goes and
/// what it holds: the record's name is the name of the directory holding
/// the file, and no compiler preference is set. The caller writes the
/// content to the path.
pub fn generate_configuration_file(
    project_root: &str,
    configuration_file: &Option<String>,
    override_is_file: bool,
) -> (r: Result<(String, String), FatalError>)
    ensures
        match spec_generate_configuration_file(
            project_root@,
            opt_str_view(*configuration_file),
            override_is_file,
        ) {
            Ok(pc) => r matches Ok(out) && out.0@ == pc.0 && out.1@ == pc.1,
            Err(k) => r matches Err(e) && kind_of(e) == k && message_of(e).len() > 0,
        },
{
    let config_path = match resolve_configuration_file(
        project_root,
        configuration_file,
        override_is_file,
    ) {
        Ok(p) => p,
        Err(e) => {
            return Err(e);
        },
    };
    let dir = parent_of(config_path.as_str());
    let nm = last_component(dir.as_str());
    let name: Option<String> = if nm.unicode_len() == 0 {
        None
    } else {
        Some(nm)
    };
    let args = TomlArguments { name, compiler: None };
    let config_content = config_file_content(&args);
    Ok((config_path, config_content))
}

/// Decide how to initialize a project.
///
/// `current_dir` is the working directory, or nothing when it could not be
/// determined. `target_is_file`, `target_exists` and `directory_entries`
/// describe the target directory: whether it names a regular file, whether
/// it exists, and how many entries it holds (nothing when it exists but
/// could not be read; ignored when it does not exist).
/// `configuration_file` and `override_is_file` are as for configuration
/// path resolution. Nothing is modified: a failed decision leaves every
/// directory as it was.
pub fn init_project(
    init_action: &InitAction,
    current_dir: Option<&String>,
    target_is_file: bool,
    target_exists: bool,
    directory_entries: Option<u64>,
    configuration_file: &Option<String>,
    override_is_file: bool,
) -> (r: Result<InitPlan, FatalError>)
    ensures
        match spec_init_project(
            opt_str_view(init_action.project_root),
            match current_dir {
                Some(c) => Some(c@),
                None => None,
            },
            target_is_file,
            target_exists,
            directory_entries,
            opt_str_view(*configuration_file),
            override_is_file,
        ) {
            Ok(p) => r matches Ok(plan) && plan@ == p,
            Err(k) => r matches Err(e) && kind_of(e) == k && message_of(e).len() > 0,
        },
{
    let root: String;
    match &init_action.project_root {
        Some(p) => {
            root = p.clone();
        },
        None => {
            match current_dir {
                Some(c) => {
                    root = c.clone();
                },
                None => {
                    let m = "Unable to get the current directory.".to_owned();
                    proof {
                        reveal_strlit("Unable to get the current directory.");
                    }
                    return Err(FatalError::EnvPrecondition(m));
                },
            }
        },
    }
    if target_is_file || has_extension(root.as_str()) {
        let mut m = "The project directory cannot be a file: ".to_owned();
        proof {
            reveal_strlit("The project directory cannot be a file: ");
        }
        m.append(root.as_str());
        return Err(FatalError::InvalidInput(m));
    }
    let create_directory: bool;
    if target_exists {
        match directory_entries {
            None => {
                let m = "Unable to read the specified project directory.".to_owned();
                proof {
                    reveal_strlit("Unable to read the specified project directory.");
                }
                return Err(FatalError::Io(m));
            },
            Some(n) => {
                if n > 0 {
                    let mut m = "The directory is not empty: ".to_owned();
                    proof {
                        reveal_strlit("The directory is not empty: ");
                    }
                    m.append(root.as_str());
                    return Err(FatalError::InvalidInput(m));
                }
                create_directory = false;
            },
        }
    } else {
        create_directory = true;
    }
    match generate_configuration_file(root.as_str(), configuration_file, override_is_file) {
        Ok(pc) => Ok(
            InitPlan {
                project_root: root,
                create_directory,
                config_path: pc.0,
                config_content: pc.1,
            },
        ),
        Err(e) => Err(e),
    }
}

} // verus!
