use darwin_rebuild::cli::{Action, CompletionArgs, Shell};
use darwin_rebuild::metadata::ResolvedReference;
use darwin_rebuild::runner::{
    select_action, steps_for, NixDarwinAction, NixDarwinRunner, RunnerError, Step,
};

#[test]
fn rollback_flag_wins_over_subcommand() {
    let r = select_action(Some(Action::Build), true, false);
    assert_eq!(r.unwrap(), NixDarwinAction::Rollback);
}

#[test]
fn list_generations_flag_wins_over_subcommand() {
    let r = select_action(Some(Action::Build), false, true);
    assert_eq!(r.unwrap(), NixDarwinAction::ListGenerations);
}

#[test]
fn subcommand_selected_without_flags() {
    assert_eq!(select_action(Some(Action::Switch), false, false).unwrap(), NixDarwinAction::Switch);
    assert_eq!(
        select_action(Some(Action::Completions(CompletionArgs { shell: Shell::Zsh })), false, false)
            .unwrap(),
        NixDarwinAction::Completions(Shell::Zsh)
    );
}

#[test]
fn no_signal_is_refused() {
    assert_eq!(select_action(None, false, false).unwrap_err(), RunnerError::NoActionSpecified);
}

#[test]
fn test_parse_profile_without_profile() {
    let result = NixDarwinRunner::parse_profile(&None, None).unwrap();
    assert_eq!(result, "/nix/var/nix/profiles/system");
}

#[test]
fn test_parse_profile_with_system() {
    let result = NixDarwinRunner::parse_profile(&Some("system".to_string()), None).unwrap();
    assert_eq!(result, "/nix/var/nix/profiles/system");
}

#[test]
fn parse_profile_with_custom_name() {
    let result = NixDarwinRunner::parse_profile(&Some("other".to_string()), None).unwrap();
    assert_eq!(result, "/nix/var/nix/profiles/system-profiles/other");
}

#[test]
fn parse_profile_with_override() {
    let result = NixDarwinRunner::parse_profile(&None, Some("/elsewhere".to_string())).unwrap();
    assert_eq!(result, "/elsewhere");
}

#[test]
fn parse_profile_with_empty_override_fails() {
    let result = NixDarwinRunner::parse_profile(&None, Some(String::new()));
    assert_eq!(result.unwrap_err(), RunnerError::EmptyProfile);
}

#[test]
fn build_issues_only_a_build() {
    let steps = steps_for(&NixDarwinAction::Build, false);
    assert_eq!(steps, vec![Step::BuildConfiguration]);
}

#[test]
fn switch_builds_sets_profile_then_activates_twice() {
    let steps = steps_for(&NixDarwinAction::Switch, true);
    assert_eq!(
        steps,
        vec![
            Step::BuildConfiguration,
            Step::SetProfile,
            Step::ActivateUser,
            Step::ActivateSystem,
        ]
    );
}

#[test]
fn rollback_rolls_back_reads_config_then_activates() {
    let steps = steps_for(&NixDarwinAction::Rollback, false);
    assert_eq!(
        steps,
        vec![
            Step::RunProfileRollback,
            Step::ReadCurrentSystemConfig,
            Step::ActivateUser,
            Step::ActivateSystem,
        ]
    );
}

#[test]
fn check_sets_marker_before_user_activation() {
    let steps = steps_for(&NixDarwinAction::Check, false);
    assert_eq!(steps, vec![Step::BuildConfiguration, Step::SetCheckMarker, Step::ActivateUser]);
}

#[test]
fn activate_locates_config_then_activates_twice() {
    let steps = steps_for(&NixDarwinAction::Activate, false);
    assert_eq!(steps, vec![Step::LocateSelfConfig, Step::ActivateUser, Step::ActivateSystem]);
}

#[test]
fn list_generations_only_runs_profile_tool() {
    let steps = steps_for(&NixDarwinAction::ListGenerations, false);
    assert_eq!(steps, vec![Step::RunProfileList]);
}

#[test]
fn edit_opens_flake_editor_with_reference() {
    let steps = steps_for(&NixDarwinAction::Edit, true);
    assert_eq!(steps, vec![Step::FindConfigFile, Step::OpenFlakeEditor]);
    let steps = steps_for(&NixDarwinAction::Edit, false);
    assert_eq!(steps, vec![Step::FindConfigFile, Step::OpenEditor]);
}

#[test]
fn changelog_and_completions_are_single_steps() {
    assert_eq!(steps_for(&NixDarwinAction::Changelog, false), vec![Step::PrintChangelog]);
    assert_eq!(
        steps_for(&NixDarwinAction::Completions(Shell::Bash), false),
        vec![Step::EmitCompletions]
    );
}

fn flake_runner() -> NixDarwinRunner {
    NixDarwinRunner::new(
        Some(Action::Switch),
        false,
        false,
        "/nix/var/nix/profiles/system".to_string(),
        vec!["--max-jobs".to_string(), "4".to_string()],
        Some(ResolvedReference {
            flake: "git://x?submodules=1".to_string(),
            flake_attr: "darwinConfigurations.mac".to_string(),
        }),
    )
}

#[test]
fn runner_carries_its_signals() {
    let r = flake_runner();
    assert_eq!(r.action, Some(Action::Switch));
    assert!(!r.rollback);
    assert!(!r.list_generations);
    assert_eq!(r.profile, "/nix/var/nix/profiles/system");
    assert_eq!(r.flake.as_deref(), Some("git://x?submodules=1"));
    assert_eq!(r.flake_attr, "darwinConfigurations.mac");
    assert_eq!(
        r.flake_flags,
        vec!["--extra-experimental-features".to_string(), "nix-command flakes".to_string()]
    );
}

#[test]
fn runner_without_reference_is_non_flake() {
    let r = NixDarwinRunner::new(None, true, false, "/p".to_string(), vec![], None);
    assert_eq!(r.flake, None);
    assert_eq!(r.flake_attr, "");
}

#[test]
fn flake_build_command_targets_resolved_reference() {
    let r = flake_runner();
    let argv = r.build_configuration_argv("/tmp/out/result");
    assert_eq!(
        argv,
        vec![
            "nix".to_string(),
            "--extra-experimental-features".to_string(),
            "nix-command flakes".to_string(),
            "build".to_string(),
            "--log-format".to_string(),
            "internal-json".to_string(),
            "-v".to_string(),
            "--out-link".to_string(),
            "/tmp/out/result".to_string(),
            "--max-jobs".to_string(),
            "4".to_string(),
            "--".to_string(),
            "git://x?submodules=1#darwinConfigurations.mac.system".to_string(),
        ]
    );
}

#[test]
fn legacy_build_command_uses_default_expression() {
    let r = NixDarwinRunner::new(Some(Action::Build), false, false, "/p".to_string(), vec![], None);
    let argv = r.build_configuration_argv("/tmp/out/result");
    assert_eq!(
        argv,
        vec![
            "nix-build".to_string(),
            "<darwin>".to_string(),
            "--out-link".to_string(),
            "/tmp/out/result".to_string(),
            "-A".to_string(),
            "system".to_string(),
        ]
    );
}

#[test]
fn switch_profile_command_escalates_on_decision() {
    let r = flake_runner();
    let argv = r.switch_profile_argv(true, "/built");
    assert_eq!(
        argv,
        vec![
            "sudo".to_string(),
            "nix-env".to_string(),
            "-p".to_string(),
            "/nix/var/nix/profiles/system".to_string(),
            "--set".to_string(),
            "/built".to_string(),
        ]
    );
    let argv = r.switch_profile_argv(false, "/built");
    assert_eq!(argv[0], "nix-env");
    assert_eq!(argv.len(), 5);
}

#[test]
fn rollback_issues_one_profile_rollback_call() {
    let r = NixDarwinRunner::new(None, true, false, "/p".to_string(), vec![], None);
    let flags = darwin_rebuild::nix_commands::rollback_flags();
    let argv = r.run_profile_argv(false, &flags);
    assert_eq!(
        argv,
        vec![
            "nix-env".to_string(),
            "-p".to_string(),
            "/p".to_string(),
            "--rollback".to_string(),
        ]
    );
}
