use bold::errors::FatalError;
use bold::project_configuration::{
    config_file_content, get_toml_arguments, parse_config, resolve_configuration_file,
    ConfigFileRead, TomlArguments,
};

#[test]
fn default_path_is_under_the_project_root() {
    let r = resolve_configuration_file("/proj", &None, false).unwrap();
    assert_eq!(r, "/proj/bold.toml");
}

#[test]
fn directory_override_gets_the_default_file_name() {
    let over = Some("conf".to_string());
    let r = resolve_configuration_file("/proj", &over, false).unwrap();
    assert_eq!(r, "/proj/conf/bold.toml");
}

#[test]
fn file_override_is_used_verbatim() {
    let over = Some("conf/custom.toml".to_string());
    let r = resolve_configuration_file("/proj", &over, true).unwrap();
    assert_eq!(r, "/proj/conf/custom.toml");
}

#[test]
fn absolute_override_is_fatal() {
    let over = Some("/etc/bold.toml".to_string());
    let r = resolve_configuration_file("/proj", &over, false);
    match r {
        Err(FatalError::InvalidInput(m)) => assert!(!m.is_empty()),
        other => panic!("expected invalid-input failure, got {:?}", other),
    }
}

#[test]
fn resolution_is_idempotent() {
    let over = Some("conf".to_string());
    let a = resolve_configuration_file("/proj", &over, false).unwrap();
    let b = resolve_configuration_file("/proj", &over, false).unwrap();
    assert_eq!(a, b);
    let c = resolve_configuration_file("/proj", &None, false).unwrap();
    let d = resolve_configuration_file("/proj", &None, false).unwrap();
    assert_eq!(c, d);
}

#[test]
fn missing_file_is_absent_not_an_error() {
    let r = get_toml_arguments(&ConfigFileRead::Missing).unwrap();
    assert!(r.is_none());
}

#[test]
fn unreadable_file_is_fatal() {
    let r = get_toml_arguments(&ConfigFileRead::Unreadable("permission denied".to_string()));
    match r {
        Err(FatalError::Io(m)) => assert!(m.contains("permission denied")),
        other => panic!("expected io failure, got {:?}", other),
    }
}

#[test]
fn invalid_file_is_fatal_with_a_diagnostic() {
    let r = get_toml_arguments(&ConfigFileRead::Found("name = 3".to_string()));
    match r {
        Err(FatalError::MalformedConfig(m)) => assert!(!m.is_empty()),
        other => panic!("expected malformed-config failure, got {:?}", other),
    }
}

#[test]
fn full_file_parses() {
    let text = "# project configuration\n\nname = \"demo\"\ncompiler = \"gcc\"\n";
    let r = get_toml_arguments(&ConfigFileRead::Found(text.to_string())).unwrap().unwrap();
    assert_eq!(r.name, Some("demo".to_string()));
    assert_eq!(r.compiler, Some("gcc".to_string()));
}

#[test]
fn empty_file_parses_to_the_empty_record() {
    let r = get_toml_arguments(&ConfigFileRead::Found(String::new())).unwrap().unwrap();
    assert_eq!(r.name, None);
    assert_eq!(r.compiler, None);
}

#[test]
fn whitespace_around_tokens_is_ignored() {
    let text = "  name   =   \"demo\"  \n";
    let r = parse_config(text).unwrap();
    assert_eq!(r.name, Some("demo".to_string()));
}

#[test]
fn value_keeps_inner_whitespace() {
    let r = parse_config("name = \" a demo \"").unwrap();
    assert_eq!(r.name, Some(" a demo ".to_string()));
}

#[test]
fn unknown_keys_are_tolerated() {
    let r = parse_config("edition = \"2021\"\nname = \"demo\"\n").unwrap();
    assert_eq!(r.name, Some("demo".to_string()));
    assert_eq!(r.compiler, None);
}

#[test]
fn duplicate_key_is_an_error() {
    let r = parse_config("name = \"a\"\nname = \"b\"\n");
    match r {
        Err(m) => assert!(!m.is_empty()),
        Ok(_) => panic!("expected a duplicate-key failure"),
    }
}

#[test]
fn unquoted_value_is_an_error() {
    assert!(parse_config("name = demo").is_err());
    assert!(parse_config("name =").is_err());
    assert!(parse_config("= \"demo\"").is_err());
    assert!(parse_config("name = \"de\"mo\"").is_err());
}

#[test]
fn serialized_content_round_trips() {
    let args = TomlArguments {
        name: Some("demo".to_string()),
        compiler: Some("gcc".to_string()),
    };
    let text = config_file_content(&args);
    assert_eq!(text, "name = \"demo\"\ncompiler = \"gcc\"\n");
    let back = parse_config(&text).unwrap();
    assert_eq!(back.name, Some("demo".to_string()));
    assert_eq!(back.compiler, Some("gcc".to_string()));
}

#[test]
fn default_record_serializes_to_nothing() {
    let args = TomlArguments::default();
    assert_eq!(args.name, None);
    assert_eq!(args.compiler, None);
    assert_eq!(config_file_content(&args), "");
}
