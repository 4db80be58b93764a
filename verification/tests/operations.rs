use fnm_shell::alias::AliasEntry;
use fnm_shell::facade::{
    corepack_missing_message, corepack_toggle_args, corepack_toggle_result, current_args,
    env_args, fnm_dir_from_env_output, get_current_version, get_fnm_env, get_version_dir,
    install_args, interpret_outcome, list_installed_args, list_remote_args, plan_corepack_toggle,
    set_default_args, uninstall_args, use_args, EnvOverrides, ProcessOutcome,
};
use fnm_shell::platform::PlatformProfile;

fn strings(items: &[&str]) -> Vec<String> {
    items.iter().map(|s| String::from(*s)).collect()
}

fn ok(stdout: &str) -> ProcessOutcome {
    ProcessOutcome { success: true, stdout: String::from(stdout), stderr: String::new() }
}

fn failed(stderr: &str) -> ProcessOutcome {
    ProcessOutcome { success: false, stdout: String::new(), stderr: String::from(stderr) }
}

#[test]
fn list_remote_flags_in_order() {
    assert_eq!(
        list_remote_args(true, &Some(String::from("18"))),
        strings(&["list-remote", "--sort", "desc", "--lts", "--filter", "18"])
    );
    assert_eq!(
        list_remote_args(false, &Some(String::from("20"))),
        strings(&["list-remote", "--sort", "desc", "--filter", "20"])
    );
    assert_eq!(list_remote_args(true, &None), strings(&["list-remote", "--sort", "desc", "--lts"]));
    assert_eq!(
        list_remote_args(false, &Some(String::new())),
        strings(&["list-remote", "--sort", "desc"])
    );
}

#[test]
fn argument_vectors_match_the_tool_contract() {
    assert_eq!(list_installed_args(), strings(&["list"]));
    assert_eq!(install_args("18.17.0"), strings(&["install", "18.17.0"]));
    assert_eq!(uninstall_args("18.17.0"), strings(&["uninstall", "18.17.0"]));
    assert_eq!(use_args("20"), strings(&["use", "20"]));
    assert_eq!(set_default_args("20"), strings(&["default", "20"]));
    assert_eq!(current_args(), strings(&["current"]));
    assert_eq!(env_args(), strings(&["env"]));
}

#[test]
fn failures_surface_stderr_verbatim() {
    let outcome = failed("version not found");
    assert_eq!(interpret_outcome(&outcome), Err(String::from("version not found")));
    assert_eq!(
        corepack_toggle_result(true, &outcome),
        Err(String::from("version not found"))
    );
}

#[test]
fn success_surfaces_raw_stdout() {
    let outcome = ok("v18.17.0\nv20.5.0\n");
    assert_eq!(interpret_outcome(&outcome), Ok(String::from("v18.17.0\nv20.5.0\n")));
}

#[test]
fn current_version_trims_or_falls_back_to_the_alias() {
    let entry = AliasEntry::Symlink { target: String::from("/d/node-versions/v20.5.0") };
    assert_eq!(
        get_current_version(&ok("  v18.17.0\n"), &entry, PlatformProfile::Linux),
        "v18.17.0"
    );
    assert_eq!(
        get_current_version(&failed("env error"), &entry, PlatformProfile::Linux),
        "v20.5.0"
    );
    assert_eq!(
        get_current_version(&failed("env error"), &AliasEntry::Absent, PlatformProfile::Linux),
        "none"
    );
}

#[test]
fn version_dir_layout() {
    assert_eq!(
        get_version_dir("/data/fnm", "18.17.0", PlatformProfile::Linux),
        "/data/fnm/node-versions/18.17.0/installation"
    );
    assert_eq!(
        get_version_dir("C:\\fnm", "18.17.0", PlatformProfile::Windows),
        "C:\\fnm\\node-versions\\18.17.0\\installation"
    );
}

#[test]
fn corepack_plan_reports_each_missing_precondition() {
    let link = AliasEntry::Symlink { target: String::from("/d/node-versions/v20/installation") };
    assert_eq!(
        plan_corepack_toggle(&None, &link, PlatformProfile::Linux),
        Err(String::from("could not determine the fnm directory"))
    );
    assert_eq!(
        plan_corepack_toggle(&Some(String::new()), &link, PlatformProfile::Linux),
        Err(String::from("could not determine the fnm directory"))
    );
    let dir = Some(String::from("/d"));
    assert_eq!(
        plan_corepack_toggle(&dir, &AliasEntry::Absent, PlatformProfile::Linux),
        Err(String::from("set a default Node.js version first"))
    );
    assert_eq!(
        plan_corepack_toggle(
            &dir,
            &AliasEntry::File { content: String::from("v20") },
            PlatformProfile::Linux
        ),
        Err(String::from("could not read the default version"))
    );
    assert_eq!(
        plan_corepack_toggle(&dir, &link, PlatformProfile::Linux),
        Ok(String::from("/d/node-versions/v20/installation/bin/corepack"))
    );
    assert!(!corepack_missing_message().is_empty());
}

#[test]
fn corepack_toggle_arguments_and_confirmations() {
    assert_eq!(corepack_toggle_args(true), strings(&["enable"]));
    assert_eq!(corepack_toggle_args(false), strings(&["disable"]));
    assert_eq!(
        corepack_toggle_result(true, &ok("")),
        Ok(String::from("corepack enabled"))
    );
    assert_eq!(
        corepack_toggle_result(false, &ok("")),
        Ok(String::from("corepack disabled"))
    );
}

#[test]
fn data_dir_query_takes_the_first_nonempty_assignment() {
    let out = "export FNM_RESOLVE_ENGINES=\"true\"\nexport FNM_DIR=\"\"\nexport FNM_DIR=\"/first\"\nexport FNM_DIR=\"/second\"\n";
    assert_eq!(fnm_dir_from_env_output(out), Some(String::from("/first")));
    assert_eq!(fnm_dir_from_env_output("nothing here\n"), None);
}

fn no_overrides() -> EnvOverrides {
    EnvOverrides {
        node_dist_mirror: None,
        version_file_strategy: None,
        corepack_enabled: None,
        resolve_engines: None,
        loglevel: None,
    }
}

#[test]
fn env_query_prefers_parsed_output_over_overrides_over_defaults() {
    let overrides = EnvOverrides {
        node_dist_mirror: Some(String::from("https://mirror.example")),
        version_file_strategy: None,
        corepack_enabled: Some(String::from("true")),
        resolve_engines: None,
        loglevel: Some(String::from("quiet")),
    };
    let output = "export FNM_NODE_DIST_MIRROR=\"https://parsed.example\"\n";
    let dir = Some(String::from("/default/fnm"));
    let env = get_fnm_env(output, &overrides, &dir, "x86_64");
    // Parsed output wins over the override.
    assert_eq!(env.node_dist_mirror, "https://parsed.example");
    // Overrides fill what the output left open.
    assert!(env.corepack_enabled);
    assert_eq!(env.loglevel, "quiet");
    // Defaults fill the rest.
    assert_eq!(env.version_file_strategy, "local");
    assert_eq!(env.fnm_dir, "/default/fnm");
    assert_eq!(env.arch, "x64");
    assert!(env.resolve_engines);
}

#[test]
fn env_query_with_nothing_reported_uses_defaults() {
    let env = get_fnm_env("", &no_overrides(), &None, "aarch64");
    assert_eq!(env.fnm_dir, "");
    assert_eq!(env.node_dist_mirror, "https://nodejs.org/dist");
    assert_eq!(env.version_file_strategy, "local");
    assert!(!env.corepack_enabled);
    assert!(env.resolve_engines);
    assert_eq!(env.arch, "arm64");
    assert_eq!(env.loglevel, "info");
}
