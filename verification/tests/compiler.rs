use bold::compiler::{
    candidate_list, choose_c_compiler, compiler_installation_hint, compiler_type_name,
    default_compilers, find_c_compiler, fmt_compiler_filter, CompilerType,
};
use bold::errors::FatalError;
use bold::user_arguments::BuildAction;

fn build_action(
    compiler: Option<&str>,
    compiler_type: Option<CompilerType>,
    filter: &[CompilerType],
) -> BuildAction {
    BuildAction {
        build_file: "build.c".to_string(),
        compiler_filter: filter.to_vec(),
        compiler: compiler.map(|s| s.to_string()),
        compiler_type,
    }
}

#[test]
fn compiler_type_names() {
    assert_eq!(compiler_type_name(CompilerType::Clang), "clang");
    assert_eq!(compiler_type_name(CompilerType::GCC), "gcc");
}

#[test]
fn infer_known_stems() {
    assert_eq!(CompilerType::infer_compiler_type("clang"), Some(CompilerType::Clang));
    assert_eq!(CompilerType::infer_compiler_type("gcc"), Some(CompilerType::GCC));
}

#[test]
fn infer_unknown_stem_is_none() {
    assert_eq!(CompilerType::infer_compiler_type("cc"), None);
    assert_eq!(CompilerType::infer_compiler_type("clang++"), None);
    assert_eq!(CompilerType::infer_compiler_type(""), None);
}

#[test]
fn explicit_path_and_type_returns_exactly_that_pair() {
    // The PATH state holds a different compiler; it must not be touched.
    let action = build_action(Some("/opt/weird/mycc"), Some(CompilerType::GCC), &[]);
    let dirs = vec!["/bin".to_string()];
    let present = vec![vec![true, true]];
    let r = choose_c_compiler(&action, true, Some(&dirs), &present).unwrap();
    assert_eq!(r.compiler_type, CompilerType::GCC);
    assert_eq!(r.compiler_path, "/opt/weird/mycc");
}

#[test]
fn explicit_path_missing_file_is_fatal() {
    let action = build_action(Some("/opt/none"), Some(CompilerType::GCC), &[]);
    let r = choose_c_compiler(&action, false, None, &Vec::new());
    assert!(matches!(r, Err(FatalError::NotFound(_))));
}

#[test]
fn explicit_path_with_matching_stem_infers_kind() {
    let action = build_action(Some("/usr/local/bin/clang"), None, &[]);
    let r = choose_c_compiler(&action, true, None, &Vec::new()).unwrap();
    assert_eq!(r.compiler_type, CompilerType::Clang);
    assert_eq!(r.compiler_path, "/usr/local/bin/clang");
}

#[test]
fn explicit_path_with_versioned_stem_infers_kind() {
    // The stem strips the extension: "gcc.exe" names the GCC family.
    let action = build_action(Some("/usr/bin/gcc.exe"), None, &[]);
    let r = choose_c_compiler(&action, true, None, &Vec::new()).unwrap();
    assert_eq!(r.compiler_type, CompilerType::GCC);
}

#[test]
fn explicit_path_with_unknown_stem_is_fatal() {
    let action = build_action(Some("/usr/bin/mycc"), None, &[]);
    let r = choose_c_compiler(&action, true, None, &Vec::new());
    match r {
        Err(FatalError::InvalidInput(m)) => assert!(m.contains("/usr/bin/mycc")),
        other => panic!("expected invalid-input failure, got {:?}", other),
    }
}

#[test]
fn directory_order_beats_candidate_order() {
    // PATH [A, B], candidates [Clang, GCC]; clang sits in B, gcc in A:
    // the scan returns the gcc in A.
    let compilers = vec![CompilerType::Clang, CompilerType::GCC];
    let dirs = vec!["/a".to_string(), "/b".to_string()];
    let present = vec![vec![false, true], vec![true, false]];
    let r = find_c_compiler(&compilers, Some(&dirs), &present).unwrap();
    assert_eq!(r.compiler_type, CompilerType::GCC);
    assert_eq!(r.compiler_path, "/a/gcc");
}

#[test]
fn candidate_order_decides_within_one_directory() {
    let compilers = vec![CompilerType::Clang, CompilerType::GCC];
    let dirs = vec!["/bin".to_string()];
    let present = vec![vec![true, true]];
    let r = find_c_compiler(&compilers, Some(&dirs), &present).unwrap();
    assert_eq!(r.compiler_type, CompilerType::Clang);
    assert_eq!(r.compiler_path, "/bin/clang");
}

#[test]
fn missing_path_variable_is_fatal() {
    let compilers = vec![CompilerType::Clang, CompilerType::GCC];
    let r = find_c_compiler(&compilers, None, &Vec::new());
    assert!(matches!(r, Err(FatalError::EnvPrecondition(_))));
}

#[test]
fn no_candidate_found_is_fatal() {
    let compilers = vec![CompilerType::Clang, CompilerType::GCC];
    let dirs = vec!["/a".to_string(), "/b".to_string()];
    let present = vec![vec![false, false], vec![false, false]];
    let r = find_c_compiler(&compilers, Some(&dirs), &present);
    assert!(matches!(r, Err(FatalError::NotFound(_))));
}

#[test]
fn empty_filter_searches_full_default_set() {
    assert_eq!(candidate_list(&Vec::new()), vec![CompilerType::Clang, CompilerType::GCC]);
    assert_eq!(default_compilers(), vec![CompilerType::Clang, CompilerType::GCC]);
}

#[test]
fn gcc_filter_searches_only_gcc() {
    let filter = vec![CompilerType::GCC];
    assert_eq!(candidate_list(&filter), vec![CompilerType::GCC]);
    // Even with a clang earlier on PATH, only the gcc column is scanned:
    // directory /a holds clang but no gcc, directory /b holds gcc.
    let action = build_action(None, None, &filter);
    let dirs = vec!["/a".to_string(), "/b".to_string()];
    let present = vec![vec![false], vec![true]];
    let r = choose_c_compiler(&action, false, Some(&dirs), &present).unwrap();
    assert_eq!(r.compiler_type, CompilerType::GCC);
    assert_eq!(r.compiler_path, "/b/gcc");
}

#[test]
fn filter_deduplicates_keeping_priority_order() {
    assert_eq!(
        candidate_list(&vec![CompilerType::GCC, CompilerType::GCC]),
        vec![CompilerType::GCC]
    );
    assert_eq!(
        candidate_list(&vec![CompilerType::GCC, CompilerType::Clang, CompilerType::GCC]),
        vec![CompilerType::Clang, CompilerType::GCC]
    );
}

#[test]
fn fmt_compiler_filter_renders_each_arity() {
    assert_eq!(fmt_compiler_filter(&vec![CompilerType::Clang]), "clang");
    assert_eq!(
        fmt_compiler_filter(&vec![CompilerType::Clang, CompilerType::GCC]),
        "clang and gcc"
    );
    assert_eq!(
        fmt_compiler_filter(&vec![CompilerType::Clang, CompilerType::GCC, CompilerType::Clang]),
        "clang, gcc, or clang"
    );
}

#[test]
fn installation_hint_names_every_kind() {
    let hint = compiler_installation_hint();
    assert!(hint.contains("'clang' - get started at 'https://clang.llvm.org/get_started.html'"));
    assert!(hint.contains("'gcc' - get started at 'https://gcc.gnu.org/install/'"));
    assert!(hint.contains("Please install a valid C compiler"));
}
