//! The types the command line selects: the subcommand, its completion
//! argument and the shell targets a completion script can be generated for.
//! Argument parsing itself lives outside the library; it hands these plain
//! values in.

use vstd::prelude::*;

verus! {

/// A shell a completion script can be generated for.
#[derive(Debug, Clone, Copy, PartialEq, Eq, Structural)]
pub enum Shell {
    Bash,
    Elvish,
    Fish,
    PowerShell,
    Zsh,
}

/// The argument of the completion subcommand.
#[derive(Debug, Clone, Copy, PartialEq, Eq, Structural)]
pub struct CompletionArgs {
    /// The shell to generate the completion script for.
    pub shell: Shell,
}

/// The arguments of the build subcommand.
#[derive(Debug, Clone, Copy, PartialEq, Eq, Structural)]
pub struct BuildArgs {}

/// The subcommand given on the command line.
#[derive(Debug, Clone, Copy, PartialEq, Eq, Structural)]
pub enum Action {
    Build,
    Check,
    Switch,
    Edit,
    Activate,
    Changelog,
    Completions(CompletionArgs),
}

} // verus!
