//! The action orchestrator: selects the action for a run from the command
//! line's three signals, resolves the profile path, and sequences the steps
//! the action requires.  Every run starts fresh, performs exactly one
//! action, and the step order enforces the directional guarantees: a build
//! precedes any profile mutation, and user-scope activation immediately
//! precedes system-scope activation.

use vstd::prelude::*;

use crate::cli::{Action, Shell};
use crate::metadata::ResolvedReference;
use crate::nix_commands::{
    nix_build_argv, nix_env_profile_argv, nix_env_set_profile_argv, nix_flake_build_argv,
    spec_flake_build_argv, spec_flake_build_target, spec_nix_build_argv, spec_profile_argv,
    spec_set_profile_argv,
};
use crate::strings::str_eq;

verus! {

use vstd::string::StringExecFns;

/// Why a run could not be set up.
#[derive(Debug, Clone, Copy, PartialEq, Eq, Structural)]
pub enum RunnerError {
    /// Neither a subcommand nor a rollback or list-generations flag was
    /// given.
    NoActionSpecified,
    /// The profile path override was set but empty.
    EmptyProfile,
}

/// The action a run performs, selected once at the start of the run.
#[derive(Debug, Clone, Copy, PartialEq, Eq, Structural)]
pub enum NixDarwinAction {
    Rollback,
    ListGenerations,
    Edit,
    Switch,
    Activate,
    Build,
    Check,
    Changelog,
    Completions(Shell),
}

/// The action a subcommand maps to.
pub open spec fn spec_run_action_of(a: Action) -> NixDarwinAction {
    match a {
        Action::Edit => NixDarwinAction::Edit,
        Action::Switch => NixDarwinAction::Switch,
        Action::Activate => NixDarwinAction::Activate,
        Action::Build => NixDarwinAction::Build,
        Action::Check => NixDarwinAction::Check,
        Action::Changelog => NixDarwinAction::Changelog,
        Action::Completions(args) => NixDarwinAction::Completions(args.shell),
    }
}

/// Map a subcommand to the action it requests.
pub fn run_action_of(a: &Action) -> (r: NixDarwinAction)
    ensures
        r == spec_run_action_of(*a),
{
    match a {
        Action::Edit => NixDarwinAction::Edit,
        Action::Switch => NixDarwinAction::Switch,
        Action::Activate => NixDarwinAction::Activate,
        Action::Build => NixDarwinAction::Build,
        Action::Check => NixDarwinAction::Check,
        Action::Changelog => NixDarwinAction::Changelog,
        Action::Completions(args) => NixDarwinAction::Completions(args.shell),
    }
}

/// The action selected from the run's three signals, in priority order: the
/// rollback flag, then the list-generations flag, then the subcommand.
pub open spec fn spec_select_action(
    action: Option<Action>,
    rollback: bool,
    list_generations: bool,
) -> Result<NixDarwinAction, RunnerError> {
    if rollback {
        Ok(NixDarwinAction::Rollback)
    } else if list_generations {
        Ok(NixDarwinAction::ListGenerations)
    } else {
        match action {
            Some(a) => Ok(spec_run_action_of(a)),
            None => Err(RunnerError::NoActionSpecified),
        }
    }
}

/// Select the action for a run.  The rollback flag wins over everything,
/// the list-generations flag over the subcommand; with no signal at all the
/// run is refused.
pub fn select_action(action: Option<Action>, rollback: bool, list_generations: bool) -> (r: Result<
    NixDarwinAction,
    RunnerError,
>)
    ensures
        r == spec_select_action(action, rollback, list_generations),
{
    if rollback {
        Ok(NixDarwinAction::Rollback)
    } else if list_generations {
        Ok(NixDarwinAction::ListGenerations)
    } else {
        match action {
            Some(a) => Ok(run_action_of(&a)),
            None => Err(RunnerError::NoActionSpecified),
        }
    }
}

/// One step of a run.  The orchestrator sequences these; performing them is
/// the caller's business.
#[derive(Debug, Clone, Copy, PartialEq, Eq, Structural)]
pub enum Step {
    /// Build the configuration into the run's fresh output link.
    BuildConfiguration,
    /// Point the profile at the built output.
    SetProfile,
    /// Run the profile tool with the rollback flag.
    RunProfileRollback,
    /// Run the profile tool with the list-generations flag.
    RunProfileList,
    /// Read the current generation's system configuration path from the
    /// profile directory.
    ReadCurrentSystemConfig,
    /// Set the environment marker that tells the activation script it runs
    /// in check mode; meaningful only before the user-scope activation.
    SetCheckMarker,
    /// Run the user-scope activation script.
    ActivateUser,
    /// Run the system-scope activation script, escalated per the privilege
    /// policy.
    ActivateSystem,
    /// Resolve the running executable's install location to the system
    /// configuration path.
    LocateSelfConfig,
    /// Locate the user's configuration source file.
    FindConfigFile,
    /// Open the reference's source in the build tool's editor command.
    OpenFlakeEditor,
    /// Open the located configuration file in the user's editor.
    OpenEditor,
    /// Print the changelog excerpt.
    PrintChangelog,
    /// Emit the completion script for the requested shell.
    EmitCompletions,
}

/// The steps an action requires, in order.  `has_flake` tells whether the
/// run holds a resolved reference; it decides only which editor the edit
/// action opens.
pub open spec fn spec_steps(a: NixDarwinAction, has_flake: bool) -> Seq<Step> {
    match a {
        NixDarwinAction::Build => seq![Step::BuildConfiguration],
        NixDarwinAction::Check => seq![
            Step::BuildConfiguration,
            Step::SetCheckMarker,
            Step::ActivateUser,
        ],
        NixDarwinAction::Switch => seq![
            Step::BuildConfiguration,
            Step::SetProfile,
            Step::ActivateUser,
            Step::ActivateSystem,
        ],
        NixDarwinAction::Activate => seq![
            Step::LocateSelfConfig,
            Step::ActivateUser,
            Step::ActivateSystem,
        ],
        NixDarwinAction::Rollback => seq![
            Step::RunProfileRollback,
            Step::ReadCurrentSystemConfig,
            Step::ActivateUser,
            Step::ActivateSystem,
        ],
        NixDarwinAction::ListGenerations => seq![Step::RunProfileList],
        NixDarwinAction::Edit => if has_flake {
            seq![Step::FindConfigFile, Step::OpenFlakeEditor]
        } else {
            seq![Step::FindConfigFile, Step::OpenEditor]
        },
        NixDarwinAction::Changelog => seq![Step::PrintChangelog],
        NixDarwinAction::Completions(_) => seq![Step::EmitCompletions],
    }
}

/// The steps the given action requires, in order.
pub fn steps_for(a: &NixDarwinAction, has_flake: bool) -> (v: Vec<Step>)
    ensures
        v@ == spec_steps(*a, has_flake),
{
    let mut v: Vec<Step> = Vec::new();
    match a {
        NixDarwinAction::Build => {
            v.push(Step::BuildConfiguration);
        },
        NixDarwinAction::Check => {
            v.push(Step::BuildConfiguration);
            v.push(Step::SetCheckMarker);
            v.push(Step::ActivateUser);
        },
        NixDarwinAction::Switch => {
            v.push(Step::BuildConfiguration);
            v.push(Step::SetProfile);
            v.push(Step::ActivateUser);
            v.push(Step::ActivateSystem);
        },
        NixDarwinAction::Activate => {
            v.push(Step::LocateSelfConfig);
            v.push(Step::ActivateUser);
            v.push(Step::ActivateSystem);
        },
        NixDarwinAction::Rollback => {
            v.push(Step::RunProfileRollback);
            v.push(Step::ReadCurrentSystemConfig);
            v.push(Step::ActivateUser);
            v.push(Step::ActivateSystem);
        },
        NixDarwinAction::ListGenerations => {
            v.push(Step::RunProfileList);
        },
        NixDarwinAction::Edit => {
            v.push(Step::FindConfigFile);
            if has_flake {
                v.push(Step::OpenFlakeEditor);
            } else {
                v.push(Step::OpenEditor);
            }
        },
        NixDarwinAction::Changelog => {
            v.push(Step::PrintChangelog);
        },
        NixDarwinAction::Completions(_) => {
            v.push(Step::EmitCompletions);
        },
    }
    proof {
        assert(v@ =~= spec_steps(*a, has_flake));
    }
    v
}

/// In every plan a profile mutation comes only after the configuration was
/// built or the current generation's configuration is about to be reread:
/// pointing the profile at an output is always preceded by the build that
/// produced it.
pub proof fn lemma_build_precedes_set_profile(a: NixDarwinAction, has_flake: bool, i: int)
    requires
        0 <= i < spec_steps(a, has_flake).len(),
        spec_steps(a, has_flake)[i] == Step::SetProfile,
    ensures
        exists|j: int|
            0 <= j < i && spec_steps(a, has_flake)[j] == Step::BuildConfiguration,
{
    let steps = spec_steps(a, has_flake);
    match a {
        NixDarwinAction::Switch => {
            assert(steps[0] == Step::BuildConfiguration);
            assert(i != 0);
        },
        _ => {
            assert(forall|k: int| 0 <= k < steps.len() ==> steps[k] != Step::SetProfile);
        },
    }
}

/// In every plan the system-scope activation comes immediately after the
/// user-scope activation: the two-phase activation protocol is invariant
/// across the actions that activate.
pub proof fn lemma_user_activation_first(a: NixDarwinAction, has_flake: bool, i: int)
    requires
        0 <= i < spec_steps(a, has_flake).len(),
        spec_steps(a, has_flake)[i] == Step::ActivateSystem,
    ensures
        i >= 1,
        spec_steps(a, has_flake)[i - 1] == Step::ActivateUser,
{
}

/// The well-known profile path used when no profile name and no override is
/// given.
pub open spec fn spec_default_profile() -> Seq<char> {
    "/nix/var/nix/profiles/system"@
}

/// The directory under which named profiles are kept.
pub open spec fn spec_profile_prefix() -> Seq<char> {
    "/nix/var/nix/profiles/system-profiles/"@
}

/// The profile path when no (or the well-known) profile name is given: the
/// override when one is set and nonempty, the default path otherwise; a set
/// but empty override is refused.
pub open spec fn spec_profile_fallback(env_profile: Option<Seq<char>>) -> Result<
    Seq<char>,
    RunnerError,
> {
    match env_profile {
        Some(e) => if e.len() == 0 {
            Err(RunnerError::EmptyProfile)
        } else {
            Ok(e)
        },
        None => Ok(spec_default_profile()),
    }
}

/// The profile path for a run: a name other than "system" is namespaced
/// under the profiles directory; no name, or the name "system", falls back
/// to the override or the default path.
pub open spec fn spec_resolve_profile(
    profile_name: Option<Seq<char>>,
    env_profile: Option<Seq<char>>,
) -> Result<Seq<char>, RunnerError> {
    match profile_name {
        Some(n) => if n != "system"@ {
            Ok(spec_profile_prefix() + n)
        } else {
            spec_profile_fallback(env_profile)
        },
        None => spec_profile_fallback(env_profile),
    }
}

/// The run context: the selection signals, the profile path, the extra
/// build flags forwarded verbatim, and the resolved reference when the run
/// is in flake mode.
#[derive(Debug)]
pub struct NixDarwinRunner {
    pub action: Option<Action>,
    pub rollback: bool,
    pub list_generations: bool,
    pub profile: String,
    pub extra_build_flags: Vec<String>,
    pub flake: Option<String>,
    pub flake_flags: Vec<String>,
    pub flake_attr: String,
}

impl NixDarwinRunner {
    /// Resolve the profile path from the profile name and the profile-path
    /// override.
    pub fn parse_profile(profile_name: &Option<String>, env_profile: Option<String>) -> (r: Result<
        String,
        RunnerError,
    >)
        ensures
            r matches Ok(p) ==> spec_resolve_profile(
                profile_name.deep_view(),
                env_profile.deep_view(),
            ) == Ok::<Seq<char>, RunnerError>(p@),
            r matches Err(e) ==> spec_resolve_profile(
                profile_name.deep_view(),
                env_profile.deep_view(),
            ) == Err::<Seq<char>, RunnerError>(e),
    {
        match profile_name {
            Some(n) => if !str_eq(n.as_str(), "system") {
                Ok(String::from_str("/nix/var/nix/profiles/system-profiles/").concat(n.as_str()))
            } else {
                Self::profile_fallback(env_profile)
            },
            None => Self::profile_fallback(env_profile),
        }
    }

    /// The profile path when no profile name applies.
    fn profile_fallback(env_profile: Option<String>) -> (r: Result<String, RunnerError>)
        ensures
            r matches Ok(p) ==> spec_profile_fallback(env_profile.deep_view()) == Ok::<
                Seq<char>,
                RunnerError,
            >(p@),
            r matches Err(e) ==> spec_profile_fallback(env_profile.deep_view()) == Err::<
                Seq<char>,
                RunnerError,
            >(e),
    {
        match env_profile {
            Some(e) => if e.as_str().is_empty() {
                Err(RunnerError::EmptyProfile)
            } else {
                Ok(e)
            },
            None => Ok(String::from_str("/nix/var/nix/profiles/system")),
        }
    }

    /// Assemble the context for a run from the selection signals, the
    /// resolved profile path, the extra build flags and the outcome of
    /// reference resolution.  The flake flags are the fixed pair that
    /// enables the build tool's flake commands; a run without a resolved
    /// reference is in non-flake mode and carries an empty attribute path.
    pub fn new(
        action: Option<Action>,
        rollback: bool,
        list_generations: bool,
        profile: String,
        extra_build_flags: Vec<String>,
        resolved: Option<ResolvedReference>,
    ) -> (r: Self)
        ensures
            r.action == action,
            r.rollback == rollback,
            r.list_generations == list_generations,
            r.profile@ == profile@,
            r.extra_build_flags@ == extra_build_flags@,
            r.flake_flags@.len() == 2,
            r.flake_flags@[0]@ == "--extra-experimental-features"@,
            r.flake_flags@[1]@ == "nix-command flakes"@,
            resolved matches Some(rr) ==> (r.flake matches Some(f) && f@ == rr.flake@
                && r.flake_attr@ == rr.flake_attr@),
            resolved is None ==> r.flake is None && r.flake_attr@ == Seq::<char>::empty(),
    {
        let mut flake_flags: Vec<String> = Vec::new();
        flake_flags.push(String::from_str("--extra-experimental-features"));
        flake_flags.push(String::from_str("nix-command flakes"));
        let (flake, flake_attr) = match resolved {
            Some(rr) => (Some(rr.flake), rr.flake_attr),
            None => (None, String::new()),
        };
        NixDarwinRunner {
            action,
            rollback,
            list_generations,
            profile,
            extra_build_flags,
            flake,
            flake_flags,
            flake_attr,
        }
    }

    /// Select the action for this run from its three signals.
    pub fn selected_action(&self) -> (r: Result<NixDarwinAction, RunnerError>)
        ensures
            r == spec_select_action(self.action, self.rollback, self.list_generations),
    {
        select_action(self.action, self.rollback, self.list_generations)
    }

    /// The steps this run's action requires, in order.
    pub fn plan(&self, a: &NixDarwinAction) -> (v: Vec<Step>)
        ensures
            v@ == spec_steps(*a, self.flake is Some),
    {
        steps_for(a, self.flake.is_some())
    }

    /// The build command for this run: flake mode against the resolved
    /// target when a reference is present, the legacy expression mode
    /// against the well-known default expression otherwise.
    pub fn build_configuration_argv(&self, out_link: &str) -> (v: Vec<String>)
        ensures
            self.flake matches Some(f) ==> v.deep_view() == spec_flake_build_argv(
                self.flake_flags.deep_view(),
                out_link@,
                self.extra_build_flags.deep_view(),
                spec_flake_build_target(f@, self.flake_attr@),
            ),
            self.flake is None ==> v.deep_view() == spec_nix_build_argv(
                "<darwin>"@,
                "system"@,
                out_link@,
                self.extra_build_flags.deep_view(),
            ),
    {
        match &self.flake {
            Some(f) => nix_flake_build_argv(
                f.as_str(),
                self.flake_attr.as_str(),
                &self.flake_flags,
                out_link,
                &self.extra_build_flags,
            ),
            None => nix_build_argv("<darwin>", "system", out_link, &self.extra_build_flags),
        }
    }

    /// The profile command for this run, rollback or generation listing,
    /// escalated per the decision taken immediately before the call.
    pub fn run_profile_argv(&self, escalate: bool, extra_profile_flags: &Vec<String>) -> (v: Vec<
        String,
    >)
        ensures
            v.deep_view() == spec_profile_argv(
                escalate,
                self.profile@,
                extra_profile_flags.deep_view(),
            ),
    {
        nix_env_profile_argv(escalate, self.profile.as_str(), extra_profile_flags)
    }

    /// The command that points this run's profile at the built output,
    /// escalated per the decision taken immediately before the call.
    pub fn switch_profile_argv(&self, escalate: bool, system_config: &str) -> (v: Vec<String>)
        ensures
            v.deep_view() == spec_set_profile_argv(escalate, self.profile@, system_config@),
    {
        nix_env_set_profile_argv(escalate, self.profile.as_str(), system_config)
    }
}

/// In every plan a profile mutation precedes every activation step: the
/// profile is never activated before it was pointed at the run's target.
pub proof fn lemma_profile_mutation_precedes_activation(
    a: NixDarwinAction,
    has_flake: bool,
    i: int,
    j: int,
)
    requires
        0 <= i < spec_steps(a, has_flake).len(),
        0 <= j < spec_steps(a, has_flake).len(),
        spec_steps(a, has_flake)[i] == Step::SetProfile || spec_steps(a, has_flake)[i]
            == Step::RunProfileRollback,
        spec_steps(a, has_flake)[j] == Step::ActivateUser || spec_steps(a, has_flake)[j]
            == Step::ActivateSystem,
    ensures
        i < j,
{
}

} // verus!
