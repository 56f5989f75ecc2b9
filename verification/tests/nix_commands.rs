use darwin_rebuild::nix_commands::{
    activate_system_argv, activate_user_command, changelog_excerpt, changelog_path,
    check_activation_marker, editor_command, flake_build_target, flake_flags,
    get_flake_metadata_argv, list_generations_flags, metadata_subcommand, nix_build_argv,
    nix_edit_argv, nix_env_profile_argv, nix_env_set_profile_argv, nix_flake_build_argv,
    nix_flake_metadata_probe_argv, nix_instantiate_find_file_argv, nvd_diff_argv, rollback_flags,
    strip_install_suffix, system_config_path, CHANGELOG_LINES,
};

fn strings(items: &[&str]) -> Vec<String> {
    items.iter().map(|s| s.to_string()).collect()
}

#[test]
fn flake_flags_enable_flake_commands() {
    assert_eq!(flake_flags(), strings(&["--extra-experimental-features", "nix-command flakes"]));
}

#[test]
fn metadata_subcommand_follows_probe() {
    assert_eq!(metadata_subcommand(true), "metadata");
    assert_eq!(metadata_subcommand(false), "info");
}

#[test]
fn probe_command_checks_metadata_support() {
    let argv = nix_flake_metadata_probe_argv(&flake_flags());
    assert_eq!(
        argv,
        strings(&[
            "nix",
            "--extra-experimental-features",
            "nix-command flakes",
            "flake",
            "metadata",
            "--version",
        ])
    );
}

#[test]
fn metadata_command_queries_reference() {
    let argv = get_flake_metadata_argv(
        &flake_flags(),
        "metadata",
        &strings(&["--max-jobs", "4"]),
        "git://x",
    );
    assert_eq!(
        argv,
        strings(&[
            "nix",
            "--extra-experimental-features",
            "nix-command flakes",
            "flake",
            "metadata",
            "--json",
            "--max-jobs",
            "4",
            "--",
            "git://x",
        ])
    );
}

#[test]
fn flake_build_target_appends_system_attribute() {
    assert_eq!(
        flake_build_target("git://x", "darwinConfigurations.mac"),
        "git://x#darwinConfigurations.mac.system"
    );
}

#[test]
fn flake_build_command_streams_and_links_output() {
    let argv = nix_flake_build_argv(
        "git://x",
        "darwinConfigurations.mac",
        &flake_flags(),
        "/tmp/out",
        &strings(&["--cores", "2"]),
    );
    assert_eq!(
        argv,
        strings(&[
            "nix",
            "--extra-experimental-features",
            "nix-command flakes",
            "build",
            "--log-format",
            "internal-json",
            "-v",
            "--out-link",
            "/tmp/out",
            "--cores",
            "2",
            "--",
            "git://x#darwinConfigurations.mac.system",
        ])
    );
}

#[test]
fn legacy_build_command_names_expression_and_attr() {
    let argv = nix_build_argv("<darwin>", "system", "/tmp/out", &strings(&[]));
    assert_eq!(argv, strings(&["nix-build", "<darwin>", "--out-link", "/tmp/out", "-A", "system"]));
}

#[test]
fn diff_report_compares_default_profile_with_output() {
    assert_eq!(
        nvd_diff_argv("/tmp/out"),
        strings(&["nvd", "diff", "/nix/var/nix/profiles/system", "/tmp/out"])
    );
}

#[test]
fn profile_command_escalates_only_on_decision() {
    let argv = nix_env_profile_argv(true, "/p", &list_generations_flags());
    assert_eq!(argv, strings(&["sudo", "nix-env", "-p", "/p", "--list-generations"]));
    let argv = nix_env_profile_argv(false, "/p", &rollback_flags());
    assert_eq!(argv, strings(&["nix-env", "-p", "/p", "--rollback"]));
}

#[test]
fn set_profile_command_points_profile_at_output() {
    let argv = nix_env_set_profile_argv(false, "/p", "/built");
    assert_eq!(argv, strings(&["nix-env", "-p", "/p", "--set", "/built"]));
    let argv = nix_env_set_profile_argv(true, "/p", "/built");
    assert_eq!(argv, strings(&["sudo", "nix-env", "-p", "/p", "--set", "/built"]));
}

#[test]
fn activation_commands_follow_two_phase_protocol() {
    assert_eq!(activate_user_command("/built"), "/built/activate-user");
    assert_eq!(activate_system_argv(true, "/built"), strings(&["/built/activate"]));
    assert_eq!(activate_system_argv(false, "/built"), strings(&["sudo", "/built/activate"]));
}

#[test]
fn edit_command_targets_reference_and_attribute() {
    let argv = nix_edit_argv(&flake_flags(), "git://x", "darwinConfigurations.mac");
    assert_eq!(
        argv,
        strings(&[
            "nix",
            "--extra-experimental-features",
            "nix-command flakes",
            "edit",
            "--",
            "git://x#darwinConfigurations.mac",
        ])
    );
}

#[test]
fn find_file_command_locates_configuration() {
    assert_eq!(
        nix_instantiate_find_file_argv("darwin-config"),
        strings(&["nix-instantiate", "--find-file", "darwin-config"])
    );
}

#[test]
fn well_known_paths_are_under_the_profile() {
    assert_eq!(system_config_path("/p"), "/p/systemConfig");
    assert_eq!(changelog_path("/p"), "/p/darwin-changes");
}

#[test]
fn check_marker_signals_check_mode() {
    let (key, value) = check_activation_marker();
    assert_eq!(key, "checkActivation");
    assert_eq!(value, "1");
}

#[test]
fn editor_falls_back_to_vi() {
    assert_eq!(editor_command(Some("hx".to_string())), "hx");
    assert_eq!(editor_command(None), "vi");
}

#[test]
fn strips_install_suffix() {
    assert_eq!(strip_install_suffix("/run/current-system/sw/bin/darwin-rebuild"), "/run/current-system");
    assert_eq!(strip_install_suffix("/sw/bin/darwin-rebuild"), "");
    assert_eq!(strip_install_suffix("/usr/local/bin/other"), "/usr/local/bin/other");
}

#[test]
fn changelog_excerpt_splits_lines() {
    let v = changelog_excerpt("a\nb\r\nc", 32);
    assert_eq!(v, strings(&["a", "b", "c"]));
}

#[test]
fn changelog_excerpt_keeps_lone_carriage_return() {
    assert_eq!(changelog_excerpt("x\r", 32), strings(&["x\r"]));
}

#[test]
fn changelog_excerpt_drops_final_newline_only() {
    assert_eq!(changelog_excerpt("a\nb\n", 32), strings(&["a", "b"]));
    assert_eq!(changelog_excerpt("a\n\nb", 32), strings(&["a", "", "b"]));
}

#[test]
fn changelog_excerpt_is_capped() {
    let mut text = String::new();
    for i in 0..40 {
        text.push_str(&format!("line {}\n", i));
    }
    let v = changelog_excerpt(&text, CHANGELOG_LINES);
    assert_eq!(v.len(), 32);
    assert_eq!(v[0], "line 0");
    assert_eq!(v[31], "line 31");
}

#[test]
fn changelog_excerpt_of_empty_text_is_empty() {
    assert!(changelog_excerpt("", CHANGELOG_LINES).is_empty());
    assert!(changelog_excerpt("a\nb", 0).is_empty());
}
