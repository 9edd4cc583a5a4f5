use waqf_policy::waqf::{
    assert_waqf_deletion, assert_waqf_operations, check_permissions, creator_restriction_message,
    field_name, handle_waqf_changes, infer_waqf_action, validate_cause_allocations,
    validate_creator_field_restrictions, validate_donor_info, validate_financial_metrics,
    validate_minimum_initial_capital, validate_status_transition, validate_waqf, CauseAllocation,
    DonorProfile, FinancialMetrics, NotificationPrefs, ReportingPrefs, WaqfAction, WaqfData,
    WaqfField, WaqfStatus, WaqfValidationError, WaqfValidationResult,
};

fn donor() -> DonorProfile {
    DonorProfile {
        name: "Amina".to_string(),
        email: "amina@example.org".to_string(),
        phone: "+123456".to_string(),
        address: "1 Main St".to_string(),
    }
}

fn share(cause: &str, bps: i64) -> CauseAllocation {
    CauseAllocation {
        cause_id: cause.to_string(),
        percentage_bps: bps,
    }
}

fn metrics() -> FinancialMetrics {
    FinancialMetrics {
        total_donations: 500_000,
        total_distributed: 200_000,
        current_balance: 300_000,
        investment_returns: 0,
        total_investment_return: 0,
        growth_rate: 500,
    }
}

fn base_waqf() -> WaqfData {
    WaqfData {
        id: "waqf-1".to_string(),
        name: "Family endowment".to_string(),
        description: "Supports education".to_string(),
        donor: donor(),
        initial_capital: 1_000_000,
        selected_causes: vec!["c1".to_string()],
        cause_allocation: vec![share("c1", 6_000), share("c2", 4_000)],
        status: WaqfStatus::Active,
        is_donated: false,
        notifications: NotificationPrefs {
            contribution_reminders: true,
            impact_reports: true,
            financial_updates: false,
        },
        reporting_preferences: ReportingPrefs {
            frequency: "monthly".to_string(),
            report_types: vec!["impact".to_string()],
            delivery_method: "email".to_string(),
        },
        financial: metrics(),
        created_by: "donor-1".to_string(),
        created_at: 1,
        last_contribution_date: None,
        next_contribution_date: Some(10),
        next_report_date: Some(20),
    }
}

#[test]
fn donor_needs_a_name_and_a_well_formed_email() {
    assert!(validate_donor_info(&donor()).is_ok());
    let mut d = donor();
    d.name = "".to_string();
    assert_eq!(
        validate_donor_info(&d),
        Err(WaqfValidationError::InvalidDonorInfo(
            "Name is required".to_string()
        ))
    );
    let mut d = donor();
    d.email = "not-an-email".to_string();
    assert_eq!(
        validate_donor_info(&d),
        Err(WaqfValidationError::InvalidDonorInfo(
            "Invalid email format".to_string()
        ))
    );
}

#[test]
fn email_pattern_edge_cases() {
    let ok = ["a@b.c", "first.last@sub.domain.org", "x@y.z.w"];
    for e in ok {
        let mut d = donor();
        d.email = e.to_string();
        assert!(validate_donor_info(&d).is_ok(), "{e} should be accepted");
    }
    let bad = [
        "two@@signs.com",
        "a@b",
        "@nouser.com",
        "trailing@dot.",
        "space in@mail.com",
        "a@.x",
        "a@b.",
    ];
    for e in bad {
        let mut d = donor();
        d.email = e.to_string();
        assert!(validate_donor_info(&d).is_err(), "{e} should be rejected");
    }
}

#[test]
fn allocations_summing_to_99_99_percent_are_accepted() {
    // 99.99% is inside the 0.01% tolerance.
    let allocations = vec![share("c1", 5_000), share("c2", 4_999)];
    assert!(validate_cause_allocations(&allocations).is_ok());
    // 100.01% is the other inclusive edge.
    let allocations = vec![share("c1", 5_000), share("c2", 5_001)];
    assert!(validate_cause_allocations(&allocations).is_ok());
}

#[test]
fn allocations_summing_to_99_9_percent_are_rejected() {
    let allocations = vec![share("c1", 5_000), share("c2", 4_990)];
    assert_eq!(
        validate_cause_allocations(&allocations),
        Err(WaqfValidationError::InvalidAllocation(
            "Allocations must sum to 100%".to_string()
        ))
    );
}

#[test]
fn single_allocations_must_lie_between_zero_and_one_hundred_percent() {
    // Sums to 100% but one entry is negative and one exceeds 100%.
    let allocations = vec![share("c1", -1_000), share("c2", 11_000)];
    assert_eq!(
        validate_cause_allocations(&allocations),
        Err(WaqfValidationError::InvalidAllocation(
            "Invalid percentage for cause".to_string()
        ))
    );
}

#[test]
fn financial_metrics_violations_are_named() {
    let mut m = metrics();
    m.total_donations = -1;
    assert_eq!(
        validate_financial_metrics(&m),
        Err(WaqfValidationError::FinancialError(
            "Negative donations".to_string()
        ))
    );
    let mut m = metrics();
    m.total_distributed = 600_000;
    assert_eq!(
        validate_financial_metrics(&m),
        Err(WaqfValidationError::FinancialError(
            "Over-distribution".to_string()
        ))
    );
    let mut m = metrics();
    m.growth_rate = -10_001;
    assert_eq!(
        validate_financial_metrics(&m),
        Err(WaqfValidationError::FinancialError(
            "Growth < -100%".to_string()
        ))
    );
    let mut m = metrics();
    m.growth_rate = 100_001;
    assert_eq!(
        validate_financial_metrics(&m),
        Err(WaqfValidationError::FinancialError(
            "Growth > 1000%".to_string()
        ))
    );
    // The bounds themselves are admissible.
    let mut m = metrics();
    m.growth_rate = -10_000;
    assert!(validate_financial_metrics(&m).is_ok());
    m.growth_rate = 100_000;
    assert!(validate_financial_metrics(&m).is_ok());
}

#[test]
fn completed_waqfs_admit_no_transition() {
    assert_eq!(
        validate_status_transition(&WaqfStatus::Completed, &WaqfStatus::Active),
        Err(WaqfValidationError::IllegalStatusTransition(
            "Cannot modify completed waqf".to_string()
        ))
    );
    assert!(validate_status_transition(&WaqfStatus::Active, &WaqfStatus::Completed).is_ok());
    assert!(validate_status_transition(&WaqfStatus::Paused, &WaqfStatus::Completed).is_ok());
    assert!(validate_status_transition(&WaqfStatus::Active, &WaqfStatus::Paused).is_ok());
}

#[test]
fn waqf_validation_runs_in_order() {
    assert!(validate_waqf(&base_waqf()).is_ok());
    let mut w = base_waqf();
    w.description = "".to_string();
    assert_eq!(
        validate_waqf(&w),
        Err(WaqfValidationError::StructuralInvalid(
            "Description is required".to_string()
        ))
    );
    let mut w = base_waqf();
    w.donor.email = "bad".to_string();
    assert!(matches!(
        validate_waqf(&w),
        Err(WaqfValidationError::InvalidDonorInfo(_))
    ));
    let mut w = base_waqf();
    w.cause_allocation = vec![share("c1", 1)];
    assert!(matches!(
        validate_waqf(&w),
        Err(WaqfValidationError::InvalidAllocation(_))
    ));
    let mut w = base_waqf();
    w.financial.current_balance = -5;
    assert!(matches!(
        validate_waqf(&w),
        Err(WaqfValidationError::FinancialError(_))
    ));
}

#[test]
fn minimum_initial_capital_applies_to_creations_only() {
    let mut w = base_waqf();
    w.initial_capital = 9_999;
    assert_eq!(
        validate_minimum_initial_capital(&w),
        Err(WaqfValidationError::FinancialError(
            "Minimum initial capital required".to_string()
        ))
    );
    w.initial_capital = 10_000;
    assert!(validate_minimum_initial_capital(&w).is_ok());
    w.initial_capital = 9_999;
    assert!(matches!(
        assert_waqf_operations(&w, true),
        Err(WaqfValidationError::FinancialError(_))
    ));
    // The same document updates fine: the minimum binds only at creation.
    assert!(assert_waqf_operations(&w, false).is_ok());
}

#[test]
fn waqf_deletion_needs_inactivity_and_the_creator() {
    let w = base_waqf();
    assert!(matches!(
        assert_waqf_deletion(&w, "donor-1"),
        Err(WaqfValidationError::IllegalStatusTransition(_))
    ));
    let mut w = base_waqf();
    w.status = WaqfStatus::Paused;
    assert!(assert_waqf_deletion(&w, "donor-1").is_ok());
    assert!(matches!(
        assert_waqf_deletion(&w, "someone-else"),
        Err(WaqfValidationError::PermissionDenied(_))
    ));
}

#[test]
fn creator_may_change_description_only_fields() {
    let prev = base_waqf();
    let mut upd = base_waqf();
    upd.description = "Supports education and health".to_string();
    upd.name = "Renamed endowment".to_string();
    upd.donor.phone = "+987".to_string();
    assert!(validate_creator_field_restrictions(&prev, &upd, "donor-1").is_ok());
}

#[test]
fn creator_changing_only_status_is_rejected_listing_status() {
    let prev = base_waqf();
    let mut upd = base_waqf();
    upd.status = WaqfStatus::Paused;
    let r = validate_creator_field_restrictions(&prev, &upd, "donor-1");
    assert_eq!(r, Err(vec![WaqfField::Status]));
    let msg = creator_restriction_message(&vec![WaqfField::Status]);
    assert_eq!(
        msg,
        "Waqf creators can only update name, description, and donor fields. Unauthorized changes detected in: status"
    );
}

#[test]
fn non_creator_is_not_held_to_field_restrictions() {
    let prev = base_waqf();
    let mut upd = base_waqf();
    upd.status = WaqfStatus::Paused;
    upd.financial.total_donations += 1;
    assert!(validate_creator_field_restrictions(&prev, &upd, "admin-9").is_ok());
}

#[test]
fn every_restricted_field_is_reported_in_order() {
    let prev = base_waqf();
    let mut upd = base_waqf();
    upd.initial_capital += 1;
    upd.selected_causes.push("c9".to_string());
    upd.status = WaqfStatus::Paused;
    upd.is_donated = true;
    upd.notifications.financial_updates = true;
    upd.reporting_preferences.frequency = "weekly".to_string();
    upd.financial.current_balance += 1;
    upd.created_by = "hijacker".to_string();
    upd.created_at += 1;
    upd.last_contribution_date = Some(7);
    upd.next_contribution_date = None;
    upd.next_report_date = Some(21);
    let r = validate_creator_field_restrictions(&prev, &upd, "donor-1");
    let fields = r.unwrap_err();
    assert_eq!(
        fields,
        vec![
            WaqfField::InitialCapital,
            WaqfField::SelectedCauses,
            WaqfField::Status,
            WaqfField::IsDonated,
            WaqfField::Notifications,
            WaqfField::ReportingPreferences,
            WaqfField::Financial,
            WaqfField::CreatedBy,
            WaqfField::CreatedAt,
            WaqfField::LastContributionDate,
            WaqfField::NextContributionDate,
            WaqfField::NextReportDate,
        ]
    );
    let msg = creator_restriction_message(&fields);
    assert!(msg.ends_with(
        "initial_capital, selected_causes, status, is_donated, notifications, \
         reporting_preferences, financial, created_by, created_at, last_contribution_date, \
         next_contribution_date, next_report_date"
    ));
    for f in fields {
        assert!(!field_name(f).is_empty());
    }
}

#[test]
fn check_permissions_distinguishes_creator_admin_and_stranger() {
    let prev = base_waqf();
    let mut upd = base_waqf();
    upd.description = "new text".to_string();
    // The creator may touch unrestricted fields.
    assert!(check_permissions(&prev, &upd, "donor-1", false).is_ok());
    // The creator may not touch restricted ones.
    upd.status = WaqfStatus::Paused;
    assert_eq!(
        check_permissions(&prev, &upd, "donor-1", false),
        Err(WaqfValidationError::PermissionDenied(
            "Donors can't modify protected fields".to_string()
        ))
    );
    // An admin may, while the waqf is not completed.
    assert!(check_permissions(&prev, &upd, "admin-9", true).is_ok());
    // Nobody else may.
    assert_eq!(
        check_permissions(&prev, &upd, "stranger", false),
        Err(WaqfValidationError::PermissionDenied(
            "Permission denied".to_string()
        ))
    );
    // A completed waqf is closed even to admins.
    let mut completed = base_waqf();
    completed.status = WaqfStatus::Completed;
    assert!(matches!(
        check_permissions(&completed, &upd, "admin-9", true),
        Err(WaqfValidationError::PermissionDenied(_))
    ));
}

#[test]
fn audit_action_inference_follows_the_change() {
    let w = base_waqf();
    assert_eq!(infer_waqf_action(None, &w), WaqfAction::Create);
    let prev = base_waqf();
    let mut paused = base_waqf();
    paused.status = WaqfStatus::Paused;
    assert_eq!(infer_waqf_action(Some(&prev), &paused), WaqfAction::Pause);
    let mut completed = base_waqf();
    completed.status = WaqfStatus::Completed;
    assert_eq!(
        infer_waqf_action(Some(&prev), &completed),
        WaqfAction::Complete
    );
    let mut realloc = base_waqf();
    realloc.cause_allocation = vec![share("c1", 10_000)];
    assert_eq!(
        infer_waqf_action(Some(&prev), &realloc),
        WaqfAction::AllocationChange
    );
    let mut renamed = base_waqf();
    renamed.name = "Other".to_string();
    assert_eq!(infer_waqf_action(Some(&prev), &renamed), WaqfAction::Update);
}

#[test]
fn committed_waqf_changes_yield_audit_and_alert() {
    let prev = base_waqf();
    let mut paused = base_waqf();
    paused.status = WaqfStatus::Paused;
    // An admin pauses the waqf: audited and flagged.
    let r = handle_waqf_changes("waqf-1", &paused, Some(&prev), "admin-9", 777).unwrap();
    assert_eq!(r.audit.waqf_id, "waqf-1");
    assert_eq!(r.audit.action, WaqfAction::Pause);
    assert_eq!(r.audit.performed_by, "admin-9");
    assert_eq!(r.audit.timestamp, 777);
    assert!(r.audit.notes.is_none());
    assert!(r.alert);
    // A creation is audited but not flagged.
    let r = handle_waqf_changes("waqf-1", &prev, None, "donor-1", 1).unwrap();
    assert_eq!(r.audit.action, WaqfAction::Create);
    assert!(!r.alert);
    // The creator touching a restricted field is refused with the field named.
    let r = handle_waqf_changes("waqf-1", &paused, Some(&prev), "donor-1", 1);
    match r {
        Err(WaqfValidationError::PermissionDenied(m)) => {
            assert!(m.contains("status"));
        },
        other => panic!("expected a permission refusal, got {:?}", other),
    }
}

#[test]
fn validation_result_packs_errors() {
    let ok = WaqfValidationResult::from_errors(Vec::new());
    assert!(ok.valid);
    assert!(ok.errors.is_none());
    let bad = WaqfValidationResult::from_errors(vec![WaqfValidationError::PermissionDenied(
        "x".to_string(),
    )]);
    assert!(!bad.valid);
    assert_eq!(bad.errors.unwrap().len(), 1);
}

#[test]
fn waqf_error_messages_carry_their_prefix() {
    assert_eq!(
        WaqfValidationError::InvalidDonorInfo("Name is required".to_string()).message(),
        "Donor info: Name is required"
    );
    assert_eq!(
        WaqfValidationError::FinancialError("Over-distribution".to_string()).message(),
        "Finance: Over-distribution"
    );
    assert_eq!(
        WaqfValidationError::PermissionDenied("Permission denied".to_string()).message(),
        "Permission: Permission denied"
    );
}
