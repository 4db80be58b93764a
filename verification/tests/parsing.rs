use fnm_shell::parser::{
    extract_env_value, parse_bool_token, parse_fnm_env, serialize_env, FnmEnv,
};

#[test]
fn parse_env_assigns_reported_fields_and_keeps_defaults() {
    let env = parse_fnm_env("export FNM_DIR=\"/x/y\"\nexport FNM_ARCH=arm64\n").unwrap();
    assert_eq!(env.fnm_dir, "/x/y");
    assert_eq!(env.arch, "arm64");
    let defaults = FnmEnv::default();
    assert_eq!(env.node_dist_mirror, defaults.node_dist_mirror);
    assert_eq!(env.version_file_strategy, defaults.version_file_strategy);
    assert_eq!(env.corepack_enabled, defaults.corepack_enabled);
    assert_eq!(env.resolve_engines, defaults.resolve_engines);
    assert_eq!(env.loglevel, defaults.loglevel);
}

#[test]
fn parse_of_serialized_defaults_reproduces_the_defaults() {
    let defaults = FnmEnv::default();
    let text = serialize_env(&defaults);
    let parsed = parse_fnm_env(text.as_str()).unwrap();
    assert_eq!(parsed, defaults);
}

#[test]
fn parse_of_serialized_record_reproduces_the_record() {
    let record = FnmEnv {
        fnm_dir: String::from("/home/u/.local/share/fnm"),
        node_dist_mirror: String::from("https://mirror.example/dist"),
        version_file_strategy: String::from("recursive"),
        corepack_enabled: true,
        resolve_engines: false,
        arch: String::from("arm64"),
        loglevel: String::from("quiet"),
    };
    let text = serialize_env(&record);
    let parsed = parse_fnm_env(text.as_str()).unwrap();
    assert_eq!(parsed, record);
}

#[test]
fn serialize_writes_quoted_export_lines() {
    let defaults = FnmEnv::default();
    let text = serialize_env(&defaults);
    let expected = "export FNM_DIR=\"\"\nexport FNM_NODE_DIST_MIRROR=\"https://nodejs.org/dist\"\nexport FNM_VERSION_FILE_STRATEGY=\"local\"\nexport FNM_COREPACK_ENABLED=\"false\"\nexport FNM_RESOLVE_ENGINES=\"true\"\nexport FNM_ARCH=\"\"\nexport FNM_LOGLEVEL=\"info\"\n";
    assert_eq!(text, expected);
}

#[test]
fn parse_env_defaults_on_empty_or_garbage_input() {
    let defaults = FnmEnv::default();
    assert_eq!(parse_fnm_env("").unwrap(), defaults);
    assert_eq!(parse_fnm_env("fish is not a shell line\n# comment\n").unwrap(), defaults);
}

#[test]
fn parse_env_last_assignment_wins() {
    let env = parse_fnm_env("export FNM_ARCH=x64\nexport FNM_ARCH=arm64\n").unwrap();
    assert_eq!(env.arch, "arm64");
}

#[test]
fn extract_handles_the_three_assignment_shapes() {
    assert_eq!(
        extract_env_value("export FNM_DIR=\"/a/b\"", "FNM_DIR"),
        Some(String::from("/a/b"))
    );
    assert_eq!(
        extract_env_value("set FNM_DIR=\"C:\\fnm\"", "FNM_DIR"),
        Some(String::from("C:\\fnm"))
    );
    assert_eq!(extract_env_value("FNM_DIR=/plain", "FNM_DIR"), Some(String::from("/plain")));
    assert_eq!(extract_env_value("unrelated line", "FNM_DIR"), None);
}

#[test]
fn extract_strips_separator_then_quotes() {
    assert_eq!(
        extract_env_value("export FNM_DIR=\"/a/b\";", "FNM_DIR"),
        Some(String::from("/a/b"))
    );
    assert_eq!(extract_env_value("export FNM_DIR='/a/b'", "FNM_DIR"), Some(String::from("/a/b")));
    assert_eq!(
        extract_env_value("  export FNM_LOGLEVEL=info;  ", "FNM_LOGLEVEL"),
        Some(String::from("info"))
    );
}

#[test]
fn bool_tokens_accept_one_and_case_variants_of_true() {
    assert!(parse_bool_token("1"));
    assert!(parse_bool_token("true"));
    assert!(parse_bool_token("TRUE"));
    assert!(parse_bool_token("TrUe"));
    assert!(!parse_bool_token("false"));
    assert!(!parse_bool_token("0"));
    assert!(!parse_bool_token("yes"));
    assert!(!parse_bool_token(""));
}

#[test]
fn parse_env_reads_boolean_fields() {
    let env = parse_fnm_env(
        "export FNM_COREPACK_ENABLED=\"true\"\nexport FNM_RESOLVE_ENGINES=\"0\"\n",
    )
    .unwrap();
    assert!(env.corepack_enabled);
    assert!(!env.resolve_engines);
}
