use bold::environment::{build_environment, BuildEnvironment};
use bold::errors::FatalError;
use bold::init::{init_project, InitAction};
use bold::compiler::{Compiler, CompilerType};
use bold::logging::Level;
use bold::paths::{
    file_stem, has_extension, is_absolute, join_path, last_component, parent_of, path_ancestors,
};
use bold::project_configuration::ConfigFileRead;
use bold::project_root::find_project_root;
use bold::user_arguments::{get_cli_arguments, Action, BuildAction, CompileAction, GlobalFlags};

#[test]
fn join_path_inserts_one_separator() {
    assert_eq!(join_path("/a", "b"), "/a/b");
    assert_eq!(join_path("/a/", "b"), "/a/b");
    assert_eq!(join_path("/a", ""), "/a");
    assert_eq!(join_path("", "b"), "b");
}

#[test]
fn ancestors_walk_to_the_root() {
    assert_eq!(path_ancestors("/a/b/c"), vec!["/a/b/c", "/a/b", "/a", "/"]);
    assert_eq!(path_ancestors("/"), vec!["/"]);
}

#[test]
fn path_components_and_stems() {
    assert_eq!(parent_of("/a/b"), "/a");
    assert_eq!(parent_of("/a"), "/");
    assert_eq!(last_component("/a/b.c"), "b.c");
    assert_eq!(file_stem("/usr/bin/gcc.exe"), "gcc");
    assert_eq!(file_stem("/usr/bin/clang"), "clang");
    assert_eq!(file_stem("/home/u/.bashrc"), ".bashrc");
    assert!(has_extension("/a/b.c"));
    assert!(!has_extension("/a/b"));
    assert!(!has_extension("/a/.hidden"));
    assert!(is_absolute("/a"));
    assert!(!is_absolute("a/b"));
}

#[test]
fn locator_returns_the_ancestor_holding_the_sentinel() {
    let cwd = "/home/user/proj/src/deep".to_string();
    // Ancestors closest first: deep, src, proj, user, home, /.
    // The sentinel sits two levels up.
    let has_sentinel = vec![false, false, true, false, false, false];
    let r = find_project_root("build.c", Some(&cwd), &has_sentinel).unwrap();
    assert_eq!(r, "/home/user/proj");
}

#[test]
fn locator_prefers_the_closest_ancestor() {
    let cwd = "/home/user/proj".to_string();
    // Both the directory itself and an ancestor hold the sentinel: the
    // closest wins.
    let has_sentinel = vec![true, false, true, false];
    let r = find_project_root("build.c", Some(&cwd), &has_sentinel).unwrap();
    assert_eq!(r, "/home/user/proj");
}

#[test]
fn locator_without_a_sentinel_anywhere_is_fatal() {
    let cwd = "/home/user".to_string();
    let has_sentinel = vec![false, false, false];
    let r = find_project_root("build.c", Some(&cwd), &has_sentinel);
    match r {
        Err(FatalError::NotFound(m)) => assert!(m.contains("build.c")),
        other => panic!("expected not-found failure, got {:?}", other),
    }
}

#[test]
fn locator_without_a_working_directory_is_fatal() {
    let r = find_project_root("build.c", None, &Vec::new());
    assert!(matches!(r, Err(FatalError::EnvPrecondition(_))));
}

#[test]
fn init_on_a_nonexistent_path_plans_creation() {
    let action = InitAction { project_root: Some("/home/user/newproj".to_string()) };
    let plan = init_project(&action, None, false, false, None, &None, false).unwrap();
    assert_eq!(plan.project_root, "/home/user/newproj");
    assert!(plan.create_directory);
    assert_eq!(plan.config_path, "/home/user/newproj/bold.toml");
    assert_eq!(plan.config_content, "name = \"newproj\"\n");
}

#[test]
fn init_on_an_empty_existing_directory_keeps_it() {
    let action = InitAction { project_root: Some("/home/user/empty".to_string()) };
    let plan = init_project(&action, None, false, true, Some(0), &None, false).unwrap();
    assert!(!plan.create_directory);
    assert_eq!(plan.config_path, "/home/user/empty/bold.toml");
}

#[test]
fn init_on_a_non_empty_directory_is_fatal() {
    let action = InitAction { project_root: Some("/home/user/full".to_string()) };
    let r = init_project(&action, None, false, true, Some(3), &None, false);
    assert!(matches!(r, Err(FatalError::InvalidInput(_))));
}

#[test]
fn init_on_a_file_is_fatal() {
    let action = InitAction { project_root: Some("/home/user/a.txt".to_string()) };
    let r = init_project(&action, None, true, true, Some(0), &None, false);
    assert!(matches!(r, Err(FatalError::InvalidInput(_))));
    let action = InitAction { project_root: Some("/home/user/b.d".to_string()) };
    let r = init_project(&action, None, false, false, None, &None, false);
    assert!(matches!(r, Err(FatalError::InvalidInput(_))));
}

#[test]
fn init_on_an_unreadable_directory_is_fatal() {
    let action = InitAction { project_root: Some("/home/user/locked".to_string()) };
    let r = init_project(&action, None, false, true, None, &None, false);
    assert!(matches!(r, Err(FatalError::Io(_))));
}

#[test]
fn init_falls_back_to_the_working_directory() {
    let cwd = "/home/user/here".to_string();
    let action = InitAction { project_root: None };
    let plan = init_project(&action, Some(&cwd), false, true, Some(0), &None, false).unwrap();
    assert_eq!(plan.project_root, "/home/user/here");
    assert_eq!(plan.config_content, "name = \"here\"\n");
}

#[test]
fn init_without_target_or_working_directory_is_fatal() {
    let action = InitAction { project_root: None };
    let r = init_project(&action, None, false, false, None, &None, false);
    assert!(matches!(r, Err(FatalError::EnvPrecondition(_))));
}

fn demo_build_action() -> BuildAction {
    BuildAction {
        build_file: "build.c".to_string(),
        compiler_filter: Vec::new(),
        compiler: None,
        compiler_type: None,
    }
}

fn demo_global_flags() -> GlobalFlags {
    GlobalFlags { log_level: Level::default(), configuration_file: None }
}

#[test]
fn pipeline_assembles_the_environment() {
    let cwd = "/home/user/proj/src".to_string();
    let has_sentinel = vec![false, true, false, false, false];
    let dirs = vec!["/usr/bin".to_string()];
    let present = vec![vec![true, false]];
    let env = build_environment(
        &demo_build_action(),
        &demo_global_flags(),
        Some(&cwd),
        &has_sentinel,
        false,
        &ConfigFileRead::Missing,
        false,
        Some(&dirs),
        &present,
    )
    .unwrap();
    assert_eq!(env.project_root, "/home/user/proj");
    assert_eq!(env.build_file, "/home/user/proj/build.c");
    assert_eq!(env.compiler.compiler_type, CompilerType::Clang);
    assert_eq!(env.compiler.compiler_path, "/usr/bin/clang");
}

#[test]
fn pipeline_fails_when_the_configuration_is_malformed() {
    let cwd = "/p/s".to_string();
    let has_sentinel = vec![true, false, false];
    let dirs = vec!["/usr/bin".to_string()];
    let present = vec![vec![true, false]];
    let r = build_environment(
        &demo_build_action(),
        &demo_global_flags(),
        Some(&cwd),
        &has_sentinel,
        false,
        &ConfigFileRead::Found("broken!".to_string()),
        false,
        Some(&dirs),
        &present,
    );
    assert!(matches!(r, Err(FatalError::MalformedConfig(_))));
}

#[test]
fn pipeline_fails_without_a_project_root() {
    let cwd = "/p/s".to_string();
    let has_sentinel = vec![false, false, false];
    let r = build_environment(
        &demo_build_action(),
        &demo_global_flags(),
        Some(&cwd),
        &has_sentinel,
        false,
        &ConfigFileRead::Missing,
        false,
        None,
        &Vec::new(),
    );
    assert!(matches!(r, Err(FatalError::NotFound(_))));
}

#[test]
fn environment_joins_the_sentinel_name() {
    let compiler = Compiler {
        compiler_type: CompilerType::GCC,
        compiler_path: "/usr/bin/gcc".to_string(),
    };
    let env = BuildEnvironment::new("/proj".to_string(), "main.c", compiler);
    assert_eq!(env.build_file, "/proj/main.c");
    assert_eq!(env.project_root, "/proj");
}

#[test]
fn cli_arguments_assemble_from_their_parts() {
    let flags = GlobalFlags { log_level: Level::Debug, configuration_file: None };
    let args = get_cli_arguments(flags, Action::Compile(CompileAction {}));
    assert!(matches!(args.global_flags.log_level, Level::Debug));
    assert!(matches!(args.action, Action::Compile(_)));
}

#[test]
fn default_log_level_is_the_default_variant() {
    assert_eq!(Level::default(), Level::Default);
}

#[test]
fn fatal_errors_expose_their_message() {
    let e = FatalError::NotFound("nothing here".to_string());
    assert_eq!(e.message(), "nothing here");
}

#[test]
fn generated_configuration_names_the_project_directory() {
    let (path, content) =
        bold::init::generate_configuration_file("/home/u/proj", &None, false).unwrap();
    assert_eq!(path, "/home/u/proj/bold.toml");
    assert_eq!(content, "name = \"proj\"\n");
    let back = bold::project_configuration::parse_config(&content).unwrap();
    assert_eq!(back.name, Some("proj".to_string()));
    assert_eq!(back.compiler, None);
}
