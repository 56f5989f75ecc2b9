//! Verified core of a command-line orchestrator that builds, activates and
//! rolls back a declarative machine configuration through an external
//! package-manager build tool.
//!
//! The library covers the logic of the tool: decomposing a configuration
//! source reference into its parts, resolving it against the build tool's
//! metadata output, deciding when a privileged step must escalate, selecting
//! the action for a run and sequencing the steps that the action requires,
//! and constructing the exact command lines that the external tools are
//! invoked with.  Process execution, file access and argument parsing live
//! outside the library and hand it plain values.

pub mod cli;
pub mod flake_ref;
pub mod metadata;
pub mod nix_commands;
pub mod privilege;
pub mod runner;
pub mod strings;
