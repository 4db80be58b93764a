use fnm_shell::alias::{check_corepack_enabled, resolve_default_version, AliasEntry};
use fnm_shell::environment::{build_process_env, default_data_dir, env_lookup, EnvPair};
use fnm_shell::platform::{get_system_arch, opener_command, PlatformProfile};
use fnm_shell::resolver::{
    accept_lookup, candidate_paths, parse_lookup_output, remediation_message, resolve_from_probes,
    CandidateProbe, ResolveStep,
};

fn probe(path: &str, exists: bool, is_file: bool) -> CandidateProbe {
    CandidateProbe { path: String::from(path), exists, is_file }
}

#[test]
fn resolver_picks_the_first_existing_regular_file() {
    let probes = vec![
        probe("/opt/homebrew/bin/fnm", false, false),
        probe("/usr/local/bin/fnm", true, false),
        probe("/home/u/.cargo/bin/fnm", true, true),
        probe("/home/u/.fnm/fnm", true, true),
    ];
    match resolve_from_probes(&probes) {
        ResolveStep::Found { index, path } => {
            assert_eq!(index, 2);
            assert_eq!(path, "/home/u/.cargo/bin/fnm");
        }
        ResolveStep::NeedsSystemLookup => panic!("expected a candidate"),
    }
}

#[test]
fn resolver_asks_for_lookup_only_when_nothing_exists() {
    let probes = vec![
        probe("/usr/bin/fnm", false, false),
        probe("/usr/local/bin/fnm", true, false),
    ];
    assert!(matches!(resolve_from_probes(&probes), ResolveStep::NeedsSystemLookup));
    assert!(matches!(resolve_from_probes(&Vec::new()), ResolveStep::NeedsSystemLookup));
}

#[test]
fn lookup_output_takes_the_first_line_trimmed() {
    assert_eq!(
        parse_lookup_output("/usr/local/bin/fnm\n"),
        Some(String::from("/usr/local/bin/fnm"))
    );
    assert_eq!(
        parse_lookup_output("C:\\fnm\\fnm.exe\r\nC:\\other\\fnm.exe\r\n"),
        Some(String::from("C:\\fnm\\fnm.exe"))
    );
    assert_eq!(parse_lookup_output(""), None);
    assert_eq!(parse_lookup_output("   \n"), None);
}

#[test]
fn lookup_result_is_revalidated() {
    assert_eq!(
        accept_lookup(String::from("/usr/bin/fnm"), true),
        Some(String::from("/usr/bin/fnm"))
    );
    assert_eq!(accept_lookup(String::from("/usr/bin/fnm"), false), None);
}

#[test]
fn remediation_names_all_three_platforms() {
    let msg = remediation_message();
    assert!(msg.contains("brew install fnm"));
    assert!(msg.contains("winget install Schniz.fnm"));
    assert!(msg.contains("https://fnm.vercel.app/install"));
}

#[test]
fn candidates_follow_the_declared_priority_order() {
    let home = Some(String::from("/home/u"));
    let mac = candidate_paths(PlatformProfile::MacOs, &home, &None, &None);
    assert_eq!(
        mac,
        vec![
            String::from("/opt/homebrew/bin/fnm"),
            String::from("/usr/local/bin/fnm"),
            String::from("/home/u/.cargo/bin/fnm"),
            String::from("/home/u/.fnm/fnm"),
            String::from("/home/u/.local/bin/fnm"),
        ]
    );
    let linux = candidate_paths(PlatformProfile::Linux, &home, &None, &None);
    assert_eq!(linux[0], "/usr/bin/fnm");
    assert_eq!(linux[1], "/usr/local/bin/fnm");
    assert_eq!(linux.len(), 5);
    let win_home = Some(String::from("C:\\Users\\u"));
    let lad = Some(String::from("C:\\Users\\u\\AppData\\Local"));
    let pf = Some(String::from("C:\\Program Files"));
    let win = candidate_paths(PlatformProfile::Windows, &win_home, &lad, &pf);
    assert_eq!(
        win,
        vec![
            String::from("C:\\Users\\u\\.cargo\\bin\\fnm.exe"),
            String::from("C:\\Users\\u\\scoop\\shims\\fnm.exe"),
            String::from("C:\\Users\\u\\AppData\\Local\\fnm\\fnm.exe"),
            String::from("C:\\Program Files\\fnm\\fnm.exe"),
        ]
    );
    let bare = candidate_paths(PlatformProfile::Linux, &None, &None, &None);
    assert_eq!(bare.len(), 2);
}

#[test]
fn default_data_dir_per_platform() {
    let home = Some(String::from("/Users/u"));
    assert_eq!(
        default_data_dir(PlatformProfile::MacOs, &home, &None),
        Some(String::from("/Users/u/Library/Application Support/fnm"))
    );
    assert_eq!(
        default_data_dir(PlatformProfile::Linux, &Some(String::from("/home/u")), &None),
        Some(String::from("/home/u/.local/share/fnm"))
    );
    assert_eq!(
        default_data_dir(
            PlatformProfile::Windows,
            &None,
            &Some(String::from("C:\\Users\\u\\AppData\\Local"))
        ),
        Some(String::from("C:\\Users\\u\\AppData\\Local\\fnm"))
    );
    assert_eq!(default_data_dir(PlatformProfile::Linux, &None, &None), None);
}

fn pair(k: &str, v: &str) -> EnvPair {
    EnvPair { key: String::from(k), value: String::from(v) }
}

fn lookup(env: &Vec<EnvPair>, k: &str) -> Option<String> {
    env_lookup(env, k)
}

#[test]
fn build_env_never_removes_inherited_entries() {
    let base = vec![pair("HOME", "/home/u"), pair("LANG", "C.UTF-8"), pair("PATH", "/bin")];
    let home = Some(String::from("/home/u"));
    let data = Some(String::from("/home/u/.local/share/fnm"));
    let built = build_process_env(base, PlatformProfile::Linux, &home, &data);
    assert_eq!(lookup(&built, "HOME"), Some(String::from("/home/u")));
    assert_eq!(lookup(&built, "LANG"), Some(String::from("C.UTF-8")));
    assert_eq!(
        lookup(&built, "PATH"),
        Some(String::from(
            "/bin:/usr/bin:/usr/local/bin:/home/u/.cargo/bin:/home/u/.fnm:/home/u/.local/bin"
        ))
    );
    assert_eq!(lookup(&built, "FNM_DIR"), Some(String::from("/home/u/.local/share/fnm")));
}

#[test]
fn build_env_keeps_an_inherited_data_dir() {
    let base = vec![pair("FNM_DIR", "/custom"), pair("PATH", "/bin")];
    let built = build_process_env(
        base,
        PlatformProfile::Linux,
        &None,
        &Some(String::from("/default")),
    );
    assert_eq!(lookup(&built, "FNM_DIR"), Some(String::from("/custom")));
}

#[test]
fn build_env_windows_keeps_path_as_is() {
    let base = vec![pair("PATH", "C:\\Windows")];
    let built = build_process_env(base, PlatformProfile::Windows, &None, &None);
    assert_eq!(lookup(&built, "PATH"), Some(String::from("C:\\Windows")));
    assert_eq!(lookup(&built, "FNM_DIR"), None);
}

#[test]
fn default_version_resolves_per_alias_shape() {
    assert_eq!(resolve_default_version(&AliasEntry::Absent, PlatformProfile::Linux), "none");
    assert_eq!(
        resolve_default_version(
            &AliasEntry::Symlink { target: String::from("node-versions/20.5.0") },
            PlatformProfile::Linux
        ),
        "20.5.0"
    );
    assert_eq!(
        resolve_default_version(
            &AliasEntry::Symlink { target: String::from("/data/node-versions/v18.17.0/") },
            PlatformProfile::Linux
        ),
        "v18.17.0"
    );
    assert_eq!(
        resolve_default_version(
            &AliasEntry::File { content: String::from("  v18.17.0\n") },
            PlatformProfile::Linux
        ),
        "v18.17.0"
    );
    assert_eq!(
        resolve_default_version(
            &AliasEntry::Symlink { target: String::from("///") },
            PlatformProfile::Linux
        ),
        "none"
    );
}

#[test]
fn corepack_status_needs_a_linked_default_and_a_probe_hit() {
    let link = AliasEntry::Symlink { target: String::from("/d/node-versions/v20/installation") };
    assert!(check_corepack_enabled(&link, true, false));
    assert!(check_corepack_enabled(&link, false, true));
    assert!(!check_corepack_enabled(&link, false, false));
    assert!(!check_corepack_enabled(&AliasEntry::Absent, true, true));
    assert!(!check_corepack_enabled(
        &AliasEntry::File { content: String::from("v20") },
        true,
        true
    ));
}

#[test]
fn arch_tokens_map_build_targets() {
    assert_eq!(get_system_arch("x86_64"), "x64");
    assert_eq!(get_system_arch("aarch64"), "arm64");
    assert_eq!(get_system_arch("riscv64"), "unknown");
}

#[test]
fn opener_commands_per_platform() {
    assert_eq!(opener_command(PlatformProfile::MacOs), "open");
    assert_eq!(opener_command(PlatformProfile::Linux), "xdg-open");
    assert_eq!(opener_command(PlatformProfile::Windows), "explorer");
}
