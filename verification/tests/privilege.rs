use darwin_rebuild::privilege::{decide_privilege, is_admin_name, needs_escalation};

#[test]
fn admin_never_escalates() {
    let d = decide_privilege(true, Some(true));
    assert!(!needs_escalation(&d));
    let d = decide_privilege(true, Some(false));
    assert!(!needs_escalation(&d));
    let d = decide_privilege(true, None);
    assert!(!needs_escalation(&d));
}

#[test]
fn non_admin_escalates_on_read_only_target() {
    let d = decide_privilege(false, Some(true));
    assert!(needs_escalation(&d));
}

#[test]
fn non_admin_does_not_escalate_on_writable_target() {
    let d = decide_privilege(false, Some(false));
    assert!(!needs_escalation(&d));
}

#[test]
fn missing_target_counts_as_writable() {
    let d = decide_privilege(false, None);
    assert!(!d.not_writable);
    assert!(!needs_escalation(&d));
}

#[test]
fn recognizes_admin_name() {
    assert!(is_admin_name("root"));
    assert!(!is_admin_name("alice"));
    assert!(!is_admin_name(""));
    assert!(!is_admin_name("Root"));
}
