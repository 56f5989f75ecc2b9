//! The privilege policy: whether a privileged step must escalate to the
//! administrator identity.  Escalation is required exactly when the current
//! identity is not the administrator and the target is not writable.  The
//! decision is computed afresh for every privileged call from plain inputs
//! that the caller reads immediately beforehand.

use vstd::prelude::*;

use crate::strings::str_eq;

verus! {

/// The two facts a privilege decision is made from.
#[derive(Debug, Clone, Copy, PartialEq, Eq, Structural)]
pub struct PrivilegeDecision {
    /// The current process identity is the administrator identity.
    pub is_admin: bool,
    /// The target path's permission metadata reports it read-only.
    pub not_writable: bool,
}

/// The platform's superuser account name.
pub open spec fn spec_admin_name() -> Seq<char> {
    "root"@
}

/// Whether `user` is the administrator account name.
pub fn is_admin_name(user: &str) -> (r: bool)
    ensures
        r == (user@ == spec_admin_name()),
{
    str_eq(user, "root")
}

/// Build the decision for a target from the current identity and the
/// target's permission metadata.  A missing target (`read_only` of `None`)
/// is treated as writable: the operation that follows will create it.
pub fn decide_privilege(is_admin: bool, read_only: Option<bool>) -> (d: PrivilegeDecision)
    ensures
        d.is_admin == is_admin,
        d.not_writable == (read_only == Some(true)),
{
    let not_writable = match read_only {
        Some(true) => true,
        _ => false,
    };
    PrivilegeDecision { is_admin, not_writable }
}

/// Escalation is required exactly when the identity is not the
/// administrator and the target is not writable.
pub open spec fn spec_needs_escalation(d: PrivilegeDecision) -> bool {
    !d.is_admin && d.not_writable
}

/// Whether the privileged call must escalate.
pub fn needs_escalation(d: &PrivilegeDecision) -> (r: bool)
    ensures
        r == spec_needs_escalation(*d),
{
    !d.is_admin && d.not_writable
}

/// The administrator identity never escalates, whatever the target's
/// permission bits report.
pub proof fn lemma_admin_never_escalates(d: PrivilegeDecision)
    requires
        d.is_admin,
    ensures
        !spec_needs_escalation(d),
{
}

} // verus!
