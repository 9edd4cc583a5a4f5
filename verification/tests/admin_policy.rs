use waqf_policy::admin::{
    assert_admin_deletion, assert_admin_operations, can_modify_admin, count_recent_audits,
    count_role_admins, count_super_admin_approvals, count_super_admins, get_admin_device_history,
    handle_admin_activation, handle_admin_changes, is_super_admin, is_valid_email,
    process_audit_logs, validate_action, validate_device, validate_role_permissions,
    validate_time_restrictions, within_business_hours, ActivationAction, AdminError, AdminRecord,
    AdminRole, AdminUser, Approval, AuditRecord,
};

fn admin(email: &str, role: AdminRole, perms: &[&str], created_by: &str, active: bool) -> AdminUser {
    AdminUser {
        email: email.to_string(),
        role,
        permissions: perms.iter().map(|p| p.to_string()).collect(),
        created_by: created_by.to_string(),
        active,
    }
}

fn record(key: &str, a: AdminUser) -> AdminRecord {
    AdminRecord { key: key.to_string(), admin: a }
}

fn audit(action: &str, performed_by: &str, timestamp: u64) -> AuditRecord {
    AuditRecord {
        action: action.to_string(),
        performed_by: performed_by.to_string(),
        target_user_id: "t".to_string(),
        timestamp,
        user_agent: None,
    }
}

// A wall-clock instant inside the 09:00-17:00 UTC window (noon).
const NOON_MS: u64 = 12 * 3600 * 1000;

#[test]
fn viewer_with_content_permission_is_valid() {
    let a = admin("v@example.com", AdminRole::Viewer, &["content"], "boss", true);
    assert!(validate_role_permissions(&a).is_ok());
}

#[test]
fn editor_with_settings_permission_is_rejected() {
    let a = admin(
        "e@example.com",
        AdminRole::Editor,
        &["content", "settings"],
        "boss",
        true,
    );
    let r = validate_role_permissions(&a);
    assert_eq!(
        r,
        Err(AdminError::PermissionNotAllowed("settings".to_string()))
    );
}

#[test]
fn super_admin_with_full_set_is_valid() {
    let a = admin(
        "s@example.com",
        AdminRole::SuperAdmin,
        &["content", "users", "settings", "super"],
        "boss",
        true,
    );
    assert!(validate_role_permissions(&a).is_ok());
}

#[test]
fn super_admin_missing_a_permission_is_rejected() {
    let a = admin(
        "s@example.com",
        AdminRole::SuperAdmin,
        &["content", "users", "settings"],
        "boss",
        true,
    );
    assert_eq!(
        validate_role_permissions(&a),
        Err(AdminError::SuperAdminMissingPermissions)
    );
}

#[test]
fn super_admin_assignment_by_non_creator_is_rejected() {
    let a = admin(
        "s@example.com",
        AdminRole::SuperAdmin,
        &["content", "users", "settings", "super"],
        "creator",
        true,
    );
    assert_eq!(
        handle_admin_changes(&a, "someone_else"),
        Err(AdminError::SuperAdminNotCreator)
    );
    assert!(handle_admin_changes(&a, "creator").is_ok());
}

#[test]
fn business_hours_boundaries_are_inclusive() {
    assert!(within_business_hours(32400 * 1000));
    assert!(within_business_hours(61200 * 1000));
    assert!(!within_business_hours(32399 * 1000));
    assert!(!within_business_hours(61201 * 1000));
    assert!(validate_time_restrictions(NOON_MS).is_ok());
    assert_eq!(
        validate_time_restrictions(0),
        Err(AdminError::OutsideBusinessHours)
    );
}

#[test]
fn device_gate_rejects_mobile_and_missing_agent() {
    assert_eq!(validate_device(None), Err(AdminError::MissingUserAgent));
    let mobile = "Mozilla/5.0 (iPhone) Mobile Safari".to_string();
    assert_eq!(
        validate_device(Some(&mobile)),
        Err(AdminError::MobileDeviceNotAllowed)
    );
    let desktop = "Mozilla/5.0 (X11; Linux x86_64)".to_string();
    assert!(validate_device(Some(&desktop)).is_ok());
}

#[test]
fn email_validation_requires_at_sign_and_length() {
    assert!(is_valid_email("a@b.com"));
    assert!(!is_valid_email("nodomain"));
    let long = format!("{}@x.com", "a".repeat(300));
    assert!(!is_valid_email(&long));
}

#[test]
fn role_counting_counts_only_the_given_role() {
    let admins = vec![
        record("a", admin("a@x.com", AdminRole::Manager, &["content"], "b", true)),
        record("b", admin("b@x.com", AdminRole::Viewer, &["content"], "b", true)),
        record("c", admin("c@x.com", AdminRole::Manager, &["content"], "b", true)),
    ];
    assert_eq!(count_role_admins(&admins, AdminRole::Manager), 2);
    assert_eq!(count_role_admins(&admins, AdminRole::Editor), 0);
}

#[test]
fn super_admin_lookup_uses_the_super_permission() {
    let admins = vec![
        record("root", admin("r@x.com", AdminRole::SuperAdmin, &["content", "users", "settings", "super"], "r", true)),
        record("plain", admin("p@x.com", AdminRole::Viewer, &["content"], "r", true)),
    ];
    assert!(is_super_admin(&admins, "root"));
    assert!(!is_super_admin(&admins, "plain"));
    assert!(!is_super_admin(&admins, "absent"));
    assert_eq!(count_super_admins(&admins), 1);
}

#[test]
fn can_modify_admin_rules() {
    let admins = vec![
        record("root", admin("r@x.com", AdminRole::SuperAdmin, &["content", "users", "settings", "super"], "r", true)),
        record("root2", admin("r2@x.com", AdminRole::SuperAdmin, &["content", "users", "settings", "super"], "r", true)),
        record("plain", admin("p@x.com", AdminRole::Viewer, &["content"], "r", true)),
    ];
    assert!(can_modify_admin(&admins, "plain", "plain"));
    assert!(can_modify_admin(&admins, "root", "plain"));
    assert!(!can_modify_admin(&admins, "plain", "root"));
    // Another super admin may only be modified by a super admin.
    assert!(can_modify_admin(&admins, "root", "root2"));
}

fn three_managers() -> Vec<AdminRecord> {
    vec![
        record("m1", admin("m1@x.com", AdminRole::Manager, &["content"], "b", true)),
        record("m2", admin("m2@x.com", AdminRole::Manager, &["content"], "b", true)),
        record("m3", admin("m3@x.com", AdminRole::Manager, &["content"], "b", true)),
    ]
}

#[test]
fn fourth_manager_is_rejected_whatever_the_listing_order() {
    let candidate = admin("m4@x.com", AdminRole::Manager, &["content"], "b", true);
    let mut admins = three_managers();
    let r = assert_admin_operations("m4", &candidate, None, NOON_MS, &admins);
    assert_eq!(r, Err(AdminError::RoleQuotaExceeded(AdminRole::Manager)));
    // The same records listed in another order give the same refusal.
    admins.reverse();
    let r2 = assert_admin_operations("m4", &candidate, None, NOON_MS, &admins);
    assert_eq!(r2, Err(AdminError::RoleQuotaExceeded(AdminRole::Manager)));
}

#[test]
fn third_manager_is_accepted() {
    let mut admins = three_managers();
    admins.pop();
    let candidate = admin("m3@x.com", AdminRole::Manager, &["content"], "b", true);
    assert!(assert_admin_operations("m3", &candidate, None, NOON_MS, &admins).is_ok());
}

#[test]
fn role_change_away_does_not_count_as_new_holder() {
    let admins = three_managers();
    // Updating an existing manager without changing the role passes the quota.
    let candidate = admin("m1@x.com", AdminRole::Manager, &["content"], "b", true);
    let previous = admin("m1@x.com", AdminRole::Manager, &["content"], "b", true);
    let r = assert_admin_operations("m1", &candidate, Some(&previous), NOON_MS, &admins);
    assert!(r.is_ok());
}

#[test]
fn duplicate_email_is_rejected_case_insensitively() {
    let admins = vec![record(
        "a",
        admin("Taken@Example.com", AdminRole::Viewer, &["content"], "b", true),
    )];
    let candidate = admin("taken@example.com", AdminRole::Viewer, &["content"], "b", true);
    let r = assert_admin_operations("new", &candidate, None, NOON_MS, &admins);
    assert_eq!(r, Err(AdminError::EmailExists));
    // The record being updated does not conflict with itself.
    let previous = admin("Taken@Example.com", AdminRole::Viewer, &["content"], "b", true);
    let r2 = assert_admin_operations("a", &candidate, Some(&previous), NOON_MS, &admins);
    assert!(r2.is_ok());
}

#[test]
fn admin_write_outside_business_hours_is_rejected() {
    let candidate = admin("x@x.com", AdminRole::Viewer, &["content"], "b", true);
    let r = assert_admin_operations("x", &candidate, None, 0, &Vec::new());
    assert_eq!(r, Err(AdminError::OutsideBusinessHours));
}

fn two_supers() -> Vec<AdminRecord> {
    vec![
        record("s1", admin("s1@x.com", AdminRole::SuperAdmin, &["content", "users", "settings", "super"], "b", true)),
        record("s2", admin("s2@x.com", AdminRole::SuperAdmin, &["content", "users", "settings", "super"], "b", true)),
    ]
}

#[test]
fn deleting_second_to_last_super_admin_is_rejected() {
    let admins = two_supers();
    let target = admins[0].admin.clone();
    let r = assert_admin_deletion("s1", &target, "s2", NOON_MS, &admins);
    assert_eq!(r, Err(AdminError::RoleMinimumReached(AdminRole::SuperAdmin)));
}

#[test]
fn deleting_a_super_admin_at_headcount_three_is_accepted() {
    let mut admins = two_supers();
    admins.push(record(
        "s3",
        admin("s3@x.com", AdminRole::SuperAdmin, &["content", "users", "settings", "super"], "b", true),
    ));
    let target = admins[0].admin.clone();
    assert!(assert_admin_deletion("s1", &target, "s2", NOON_MS, &admins).is_ok());
}

#[test]
fn only_super_admins_or_the_owner_may_delete() {
    let admins = vec![
        record("v1", admin("v1@x.com", AdminRole::Viewer, &["content"], "b", true)),
        record("v2", admin("v2@x.com", AdminRole::Viewer, &["content"], "b", true)),
    ];
    let target = admins[0].admin.clone();
    // A plain admin deleting someone else is refused.
    let r = assert_admin_deletion("v1", &target, "v2", NOON_MS, &admins);
    assert_eq!(r, Err(AdminError::DeletionNotAuthorized));
    // Self-deletion is allowed for an unprivileged role.
    assert!(assert_admin_deletion("v1", &target, "v1", NOON_MS, &admins).is_ok());
}

fn approval(target: &str, by: &str) -> Approval {
    Approval {
        target_admin: target.to_string(),
        approved_by: by.to_string(),
        timestamp: 1,
    }
}

#[test]
fn activation_with_one_qualifying_approval_is_rejected() {
    let admins = two_supers();
    let before = admin("t@x.com", AdminRole::Viewer, &["content"], "b", false);
    let after = admin("t@x.com", AdminRole::Viewer, &["content"], "b", true);
    let approvals = vec![approval("t", "s1")];
    let r = handle_admin_activation("t", Some(&before), &after, &approvals, &admins);
    assert_eq!(r, Err(AdminError::QuorumNotMet(true)));
}

#[test]
fn activation_with_two_qualifying_approvals_is_accepted() {
    let admins = two_supers();
    let before = admin("t@x.com", AdminRole::Viewer, &["content"], "b", false);
    let after = admin("t@x.com", AdminRole::Viewer, &["content"], "b", true);
    let approvals = vec![approval("t", "s1"), approval("t", "s2")];
    let r = handle_admin_activation("t", Some(&before), &after, &approvals, &admins);
    assert_eq!(r, Ok(Some(ActivationAction::ActivateAdmin)));
}

#[test]
fn approvals_by_non_super_admins_do_not_count() {
    let mut admins = two_supers();
    admins.push(record(
        "plain",
        admin("p@x.com", AdminRole::Viewer, &["content"], "b", true),
    ));
    let approvals = vec![approval("t", "plain"), approval("t", "s1"), approval("other", "s2")];
    assert_eq!(count_super_admin_approvals(&approvals, &admins, "t"), 1);
}

#[test]
fn unchanged_active_flag_needs_no_quorum() {
    let admins: Vec<AdminRecord> = Vec::new();
    let before = admin("t@x.com", AdminRole::Viewer, &["content"], "b", true);
    let after = admin("t@x.com", AdminRole::Viewer, &["content"], "b", true);
    let r = handle_admin_activation("t", Some(&before), &after, &Vec::new(), &admins);
    assert_eq!(r, Ok(None));
    let r2 = handle_admin_activation("t", None, &after, &Vec::new(), &admins);
    assert_eq!(r2, Ok(None));
}

#[test]
fn deactivation_requires_quorum_too() {
    let admins = two_supers();
    let before = admin("t@x.com", AdminRole::Viewer, &["content"], "b", true);
    let after = admin("t@x.com", AdminRole::Viewer, &["content"], "b", false);
    let r = handle_admin_activation("t", Some(&before), &after, &Vec::new(), &admins);
    assert_eq!(r, Err(AdminError::QuorumNotMet(false)));
    let approvals = vec![approval("t", "s1"), approval("t", "s2")];
    let r2 = handle_admin_activation("t", Some(&before), &after, &approvals, &admins);
    assert_eq!(r2, Ok(Some(ActivationAction::DeactivateAdmin)));
}

#[test]
fn audit_rate_limit_counts_the_trailing_hour() {
    let now: u64 = 10 * 3_600_000;
    let mut prior = Vec::new();
    for i in 0..31 {
        // All inside the trailing hour.
        prior.push(audit("update_admin", "busy", now - 1000 - i));
    }
    // One record outside the window does not count.
    prior.push(audit("update_admin", "busy", now - 3_600_001));
    assert_eq!(count_recent_audits(&prior, "busy", now - 3_600_000), 31);
    let rec = audit("update_admin", "busy", now);
    assert_eq!(
        process_audit_logs(&rec, &prior, now),
        Err(AdminError::RateLimited)
    );
    // At exactly the limit the record passes.
    prior.truncate(30);
    assert_eq!(process_audit_logs(&rec, &prior, now), Ok(false));
}

#[test]
fn invalid_audit_action_is_rejected() {
    let rec = audit("made_up_action", "x", 1);
    assert_eq!(
        process_audit_logs(&rec, &Vec::new(), NOON_MS),
        Err(AdminError::InvalidAuditAction)
    );
}

#[test]
fn critical_audit_actions_raise_an_alert() {
    let rc = audit("role_change", "x", 1);
    assert_eq!(process_audit_logs(&rc, &Vec::new(), NOON_MS), Ok(true));
    let pc = audit("permission_change", "x", 1);
    assert_eq!(process_audit_logs(&pc, &Vec::new(), NOON_MS), Ok(true));
    let plain = audit("create_admin", "x", 1);
    assert_eq!(process_audit_logs(&plain, &Vec::new(), NOON_MS), Ok(false));
    // Toggling an admin's active state is flagged too.
    let act = audit("activate_admin", "x", 1);
    assert_eq!(process_audit_logs(&act, &Vec::new(), NOON_MS), Ok(true));
    let deact = audit("deactivate_admin", "x", 1);
    assert_eq!(process_audit_logs(&deact, &Vec::new(), NOON_MS), Ok(true));
}

#[test]
fn role_change_requires_the_role_approval_permission() {
    let a = admin("x@x.com", AdminRole::Editor, &["content"], "b", true);
    assert_eq!(
        validate_action(Some(AdminRole::Manager), &a),
        Err(AdminError::MissingRoleApprovalPermission)
    );
    assert!(validate_action(Some(AdminRole::Editor), &a).is_ok());
    assert!(validate_action(None, &a).is_ok());
    let approver = admin("y@x.com", AdminRole::Editor, &["content", "role_approval"], "b", true);
    assert!(validate_action(Some(AdminRole::Manager), &approver).is_ok());
}

#[test]
fn device_history_collects_user_agents_in_order() {
    let mut a1 = audit("update_admin", "u", 1);
    a1.user_agent = Some("Firefox".to_string());
    let a2 = audit("update_admin", "u", 2);
    let mut a3 = audit("update_admin", "other", 3);
    a3.user_agent = Some("Chrome".to_string());
    let mut a4 = audit("update_admin", "u", 4);
    a4.user_agent = Some("Safari".to_string());
    let audits = vec![a1, a2, a3, a4];
    let history = get_admin_device_history(&audits, "u");
    assert_eq!(history, vec!["Firefox".to_string(), "Safari".to_string()]);
}

#[test]
fn admin_error_messages_are_descriptive() {
    assert_eq!(
        AdminError::InvalidEmail.message(),
        "Invalid admin email format"
    );
    assert_eq!(
        AdminError::PermissionNotAllowed("super".to_string()).message(),
        "Permission not allowed for role: super"
    );
    assert_eq!(
        AdminError::QuorumNotMet(true).message(),
        "Activation requires approval from at least 2 super admins"
    );
    assert_eq!(
        AdminError::QuorumNotMet(false).message(),
        "Deactivation requires approval from at least 2 super admins"
    );
}
