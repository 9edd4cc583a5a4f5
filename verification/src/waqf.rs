//! Endowment (waqf) records: donor and allocation validation, financial
//! invariants, the status state machine with its terminal completed state,
//! creator field-level restrictions, and the audit summary of committed
//! changes.
//!
//! Monetary amounts are fixed-point values in cents.  Percentages are
//! fixed-point values in hundredths of a percent, so 10_000 is 100% and the
//! allocation tolerance of 0.01% is one unit.

use vstd::prelude::*;
use vstd::string::{StrSliceExecFns, StringExecFns};

use crate::text::{
    matches_email_pattern, spec_email_format, spec_str_vec_eq, str_eq, string_vecs_eq,
};

verus! {

/// Smallest initial capital a new waqf may be created with, in cents.
pub const MIN_WAQF_AMOUNT_CENTS: i64 = 10_000;

/// Allocation percentages must sum to this value, in hundredths of a
/// percent (100%).
pub const ALLOCATION_TOTAL_BPS: i64 = 10_000;

/// Tolerance on the allocation sum, in hundredths of a percent (0.01%).
pub const ALLOCATION_TOLERANCE_BPS: i64 = 1;

/// Lowest admissible growth rate, in hundredths of a percent (-100%).
pub const MIN_GROWTH_RATE_BPS: i64 = -10_000;

/// Highest admissible growth rate, in hundredths of a percent (1000%).
pub const MAX_GROWTH_RATE_BPS: i64 = 100_000;

/// The life-cycle states of a waqf; `Completed` is terminal.
#[derive(Clone, Copy, Debug, PartialEq, Eq, Structural)]
pub enum WaqfStatus {
    Active,
    Paused,
    Completed,
}

/// The donor behind an endowment.
#[derive(Debug, Clone)]
pub struct DonorProfile {
    pub name: String,
    pub email: String,
    pub phone: String,
    pub address: String,
}

/// Which notifications the donor wants.
#[derive(Clone, Copy, Debug, PartialEq, Eq, Structural)]
pub struct NotificationPrefs {
    pub contribution_reminders: bool,
    pub impact_reports: bool,
    pub financial_updates: bool,
}

/// How reports are delivered to the donor.
#[derive(Debug, Clone)]
pub struct ReportingPrefs {
    pub frequency: String,
    pub report_types: Vec<String>,
    pub delivery_method: String,
}

/// The financial metrics of a waqf, in cents; the growth rate is in
/// hundredths of a percent.
#[derive(Clone, Copy, Debug, PartialEq, Eq, Structural)]
pub struct FinancialMetrics {
    pub total_donations: i64,
    pub total_distributed: i64,
    pub current_balance: i64,
    pub investment_returns: i64,
    pub total_investment_return: i64,
    pub growth_rate: i64,
}

/// One cause's share of the endowment's distributions, in hundredths of a
/// percent.
#[derive(Debug, Clone)]
pub struct CauseAllocation {
    pub cause_id: String,
    pub percentage_bps: i64,
}

/// An endowment record.
#[derive(Debug, Clone)]
pub struct WaqfData {
    pub id: String,
    pub name: String,
    pub description: String,
    pub donor: DonorProfile,
    /// Capital the waqf was created with, in cents.
    pub initial_capital: i64,
    pub selected_causes: Vec<String>,
    pub cause_allocation: Vec<CauseAllocation>,
    pub status: WaqfStatus,
    pub is_donated: bool,
    pub notifications: NotificationPrefs,
    pub reporting_preferences: ReportingPrefs,
    pub financial: FinancialMetrics,
    pub created_by: String,
    pub created_at: u64,
    pub last_contribution_date: Option<u64>,
    pub next_contribution_date: Option<u64>,
    pub next_report_date: Option<u64>,
}

/// The operation a waqf audit record reflects.
#[derive(Clone, Copy, Debug, PartialEq, Eq, Structural)]
pub enum WaqfAction {
    Create,
    Update,
    Pause,
    Complete,
    AllocationChange,
}

/// An append-only audit record of a waqf operation.
#[derive(Debug, Clone, PartialEq, Eq)]
pub struct WaqfAudit {
    pub waqf_id: String,
    pub action: WaqfAction,
    pub performed_by: String,
    pub timestamp: u64,
    pub notes: Option<String>,
}

/// Why a waqf write or deletion was refused.
#[derive(Debug, Clone, PartialEq, Eq)]
pub enum WaqfValidationError {
    /// A required structural field is missing; carries the detail.
    StructuralInvalid(String),
    InvalidDonorInfo(String),
    InvalidAllocation(String),
    IllegalStatusTransition(String),
    FinancialError(String),
    PermissionDenied(String),
}

impl WaqfValidationError {
    /// A human-readable description of the refusal.
    pub fn message(&self) -> String {
        match self {
            WaqfValidationError::StructuralInvalid(msg) => String::from_str("Structure: ").concat(msg.as_str()),
            WaqfValidationError::InvalidDonorInfo(msg) => String::from_str("Donor info: ").concat(msg.as_str()),
            WaqfValidationError::InvalidAllocation(msg) => String::from_str("Allocation: ").concat(msg.as_str()),
            WaqfValidationError::IllegalStatusTransition(msg) => String::from_str("Status: ").concat(msg.as_str()),
            WaqfValidationError::FinancialError(msg) => String::from_str("Finance: ").concat(msg.as_str()),
            WaqfValidationError::PermissionDenied(msg) => String::from_str("Permission: ").concat(msg.as_str()),
        }
    }
}

/// The outcome of running the waqf validators together.
#[derive(Debug, Clone)]
pub struct WaqfValidationResult {
    pub valid: bool,
    pub errors: Option<Vec<WaqfValidationError>>,
}

impl WaqfValidationResult {
    /// Packs a list of violations: valid exactly when the list is empty, and
    /// the list is carried only when it is not.
    pub fn from_errors(errors: Vec<WaqfValidationError>) -> (r: WaqfValidationResult)
        ensures
            r.valid == (errors@.len() == 0),
            errors@.len() == 0 ==> r.errors is None,
            errors@.len() > 0 ==> (r.errors matches Some(v) && v == errors),
    {
        if errors.len() == 0 {
            WaqfValidationResult { valid: true, errors: None }
        } else {
            WaqfValidationResult { valid: false, errors: Some(errors) }
        }
    }
}

/// A donor profile is valid when the name is non-empty and the e-mail
/// matches the address pattern.
pub open spec fn spec_donor_ok(d: DonorProfile) -> bool {
    d.name@.len() > 0 && spec_email_format(d.email@)
}

/// The message reported for the first failing donor check.
pub open spec fn spec_donor_error_message(d: DonorProfile) -> Seq<char> {
    if d.name@.len() == 0 {
        "Name is required"@
    } else {
        "Invalid email format"@
    }
}

/// Checks the donor's name and e-mail address.
pub fn validate_donor_info(donor: &DonorProfile) -> (r: Result<(), WaqfValidationError>)
    ensures
        r.is_ok() <==> spec_donor_ok(*donor),
        r.is_err() ==> r matches Err(WaqfValidationError::InvalidDonorInfo(_)),
        r matches Err(WaqfValidationError::InvalidDonorInfo(m)) ==> m@ == spec_donor_error_message(
            *donor,
        ),
{
    if donor.name.as_str().is_empty() {
        return Err(WaqfValidationError::InvalidDonorInfo(String::from_str("Name is required")));
    }
    if !matches_email_pattern(donor.email.as_str()) {
        return Err(
            WaqfValidationError::InvalidDonorInfo(String::from_str("Invalid email format")),
        );
    }
    Ok(())
}

/// The sum of the allocation percentages, in hundredths of a percent.
pub open spec fn spec_alloc_sum(s: Seq<CauseAllocation>) -> int
    decreases s.len(),
{
    if s.len() == 0 {
        0
    } else {
        spec_alloc_sum(s.drop_last()) + s.last().percentage_bps
    }
}

/// The allocation sum is 100% within the 0.01% tolerance.
pub open spec fn spec_alloc_sum_ok(s: Seq<CauseAllocation>) -> bool {
    ALLOCATION_TOTAL_BPS - ALLOCATION_TOLERANCE_BPS <= spec_alloc_sum(s) <= ALLOCATION_TOTAL_BPS
        + ALLOCATION_TOLERANCE_BPS
}

/// Every single allocation lies between 0% and 100%.
pub open spec fn spec_alloc_ranges_ok(s: Seq<CauseAllocation>) -> bool {
    forall|i: int| 0 <= i < s.len() ==> 0 <= #[trigger] s[i].percentage_bps <= ALLOCATION_TOTAL_BPS
}

/// Cause allocations are admissible: they sum to 100% within tolerance and
/// each lies between 0% and 100%.
pub open spec fn spec_allocs_ok(s: Seq<CauseAllocation>) -> bool {
    spec_alloc_sum_ok(s) && spec_alloc_ranges_ok(s)
}

/// The message reported for the first failing allocation check.
pub open spec fn spec_alloc_error_message(s: Seq<CauseAllocation>) -> Seq<char> {
    if !spec_alloc_sum_ok(s) {
        "Allocations must sum to 100%"@
    } else {
        "Invalid percentage for cause"@
    }
}

/// Checks the allocation sum (within the 0.01% tolerance) and then each
/// percentage's range.
pub fn validate_cause_allocations(allocations: &Vec<CauseAllocation>) -> (r: Result<
    (),
    WaqfValidationError,
>)
    ensures
        r.is_ok() <==> spec_allocs_ok(allocations@),
        r.is_err() ==> r matches Err(WaqfValidationError::InvalidAllocation(_)),
        r matches Err(WaqfValidationError::InvalidAllocation(m)) ==> m@
            == spec_alloc_error_message(allocations@),
{
    let n = allocations.len();
    let mut total: i128 = 0;
    let mut i: usize = 0;
    while i < n
        invariant
            n == allocations@.len(),
            0 <= i <= n,
            total == spec_alloc_sum(allocations@.take(i as int)),
            -(i as int) * 0x8000_0000_0000_0000 <= total <= (i as int) * 0x7fff_ffff_ffff_ffff,
        decreases n - i,
    {
        proof {
            assert(allocations@.take(i + 1).drop_last() =~= allocations@.take(i as int));
            assert(allocations@.take(i + 1).last() == allocations@[i as int]);
        }
        total = total + (allocations[i].percentage_bps as i128);
        i += 1;
    }
    proof {
        assert(allocations@.take(n as int) =~= allocations@);
    }
    if total < (ALLOCATION_TOTAL_BPS - ALLOCATION_TOLERANCE_BPS) as i128 || total
        > (ALLOCATION_TOTAL_BPS + ALLOCATION_TOLERANCE_BPS) as i128 {
        return Err(
            WaqfValidationError::InvalidAllocation(
                String::from_str("Allocations must sum to 100%"),
            ),
        );
    }
    let mut j: usize = 0;
    while j < n
        invariant
            n == allocations@.len(),
            0 <= j <= n,
            spec_alloc_sum_ok(allocations@),
            forall|q: int|
                0 <= q < j ==> 0 <= #[trigger] allocations@[q].percentage_bps
                    <= ALLOCATION_TOTAL_BPS,
        decreases n - j,
    {
        let p = allocations[j].percentage_bps;
        if p < 0 || p > ALLOCATION_TOTAL_BPS {
            return Err(
                WaqfValidationError::InvalidAllocation(
                    String::from_str("Invalid percentage for cause"),
                ),
            );
        }
        j += 1;
    }
    Ok(())
}

/// A status transition is admissible unless it starts from the terminal
/// `Completed` state.
pub open spec fn spec_status_transition_ok(from: WaqfStatus, to: WaqfStatus) -> bool {
    from != WaqfStatus::Completed
}

/// Checks a status transition: a completed waqf admits no further change,
/// and completing is possible only from the active or paused states.
pub fn validate_status_transition(from: &WaqfStatus, to: &WaqfStatus) -> (r: Result<
    (),
    WaqfValidationError,
>)
    ensures
        r.is_ok() <==> spec_status_transition_ok(*from, *to),
        r.is_err() ==> (r matches Err(WaqfValidationError::IllegalStatusTransition(m)) && m@
            == "Cannot modify completed waqf"@),
{
    match (from, to) {
        (WaqfStatus::Completed, _) => Err(
            WaqfValidationError::IllegalStatusTransition(
                String::from_str("Cannot modify completed waqf"),
            ),
        ),
        _ => Ok(()),
    }
}

/// The financial metrics are coherent: nothing is negative, no more was
/// distributed than donated, and the growth rate lies within bounds.
pub open spec fn spec_financial_ok(m: FinancialMetrics) -> bool {
    &&& m.total_donations >= 0
    &&& m.total_distributed >= 0
    &&& m.current_balance >= 0
    &&& m.total_distributed <= m.total_donations
    &&& m.growth_rate >= MIN_GROWTH_RATE_BPS
    &&& m.growth_rate <= MAX_GROWTH_RATE_BPS
}

/// The message reported for the first failing financial check.
pub open spec fn spec_financial_error_message(m: FinancialMetrics) -> Seq<char> {
    if m.total_donations < 0 {
        "Negative donations"@
    } else if m.total_distributed < 0 {
        "Negative distribution"@
    } else if m.current_balance < 0 {
        "Negative balance"@
    } else if m.total_distributed > m.total_donations {
        "Over-distribution"@
    } else if m.growth_rate < MIN_GROWTH_RATE_BPS {
        "Growth < -100%"@
    } else {
        "Growth > 1000%"@
    }
}

/// Checks the financial metrics, in order: non-negative donations,
/// distributions and balance, distributions capped by donations, and the
/// growth-rate bounds.
pub fn validate_financial_metrics(metrics: &FinancialMetrics) -> (r: Result<
    (),
    WaqfValidationError,
>)
    ensures
        r.is_ok() <==> spec_financial_ok(*metrics),
        r.is_err() ==> r matches Err(WaqfValidationError::FinancialError(_)),
        r matches Err(WaqfValidationError::FinancialError(m)) ==> m@
            == spec_financial_error_message(*metrics),
{
    if metrics.total_donations < 0 {
        return Err(WaqfValidationError::FinancialError(String::from_str("Negative donations")));
    }
    if metrics.total_distributed < 0 {
        return Err(WaqfValidationError::FinancialError(String::from_str("Negative distribution")));
    }
    if metrics.current_balance < 0 {
        return Err(WaqfValidationError::FinancialError(String::from_str("Negative balance")));
    }
    if metrics.total_distributed > metrics.total_donations {
        return Err(WaqfValidationError::FinancialError(String::from_str("Over-distribution")));
    }
    if metrics.growth_rate < MIN_GROWTH_RATE_BPS {
        return Err(WaqfValidationError::FinancialError(String::from_str("Growth < -100%")));
    }
    if metrics.growth_rate > MAX_GROWTH_RATE_BPS {
        return Err(WaqfValidationError::FinancialError(String::from_str("Growth > 1000%")));
    }
    Ok(())
}

/// Structural validity of a waqf document: a description, a valid donor,
/// admissible allocations, and coherent financial metrics.
pub open spec fn spec_waqf_valid(w: WaqfData) -> bool {
    &&& w.description@.len() > 0
    &&& spec_donor_ok(w.donor)
    &&& spec_allocs_ok(w.cause_allocation@)
    &&& spec_financial_ok(w.financial)
}

/// Validates a waqf document, in order: description, donor, allocations,
/// financial metrics.
pub fn validate_waqf(waqf: &WaqfData) -> (r: Result<(), WaqfValidationError>)
    ensures
        r.is_ok() <==> spec_waqf_valid(*waqf),
        (r matches Err(WaqfValidationError::StructuralInvalid(_))) <==> waqf.description@.len()
            == 0,
        (r matches Err(WaqfValidationError::InvalidDonorInfo(_))) <==> (waqf.description@.len() > 0
            && !spec_donor_ok(waqf.donor)),
        (r matches Err(WaqfValidationError::InvalidAllocation(_))) <==> (waqf.description@.len()
            > 0 && spec_donor_ok(waqf.donor) && !spec_allocs_ok(waqf.cause_allocation@)),
        (r matches Err(WaqfValidationError::FinancialError(_))) <==> (waqf.description@.len() > 0
            && spec_donor_ok(waqf.donor) && spec_allocs_ok(waqf.cause_allocation@)
            && !spec_financial_ok(waqf.financial)),
{
    if waqf.description.as_str().is_empty() {
        return Err(
            WaqfValidationError::StructuralInvalid(String::from_str("Description is required")),
        );
    }
    if let Err(e) = validate_donor_info(&waqf.donor) {
        return Err(e);
    }
    if let Err(e) = validate_cause_allocations(&waqf.cause_allocation) {
        return Err(e);
    }
    if let Err(e) = validate_financial_metrics(&waqf.financial) {
        return Err(e);
    }
    Ok(())
}

/// Enforces the minimum initial capital on a newly created waqf.
pub fn validate_minimum_initial_capital(waqf: &WaqfData) -> (r: Result<(), WaqfValidationError>)
    ensures
        r.is_ok() <==> waqf.initial_capital >= MIN_WAQF_AMOUNT_CENTS,
        r.is_err() ==> (r matches Err(WaqfValidationError::FinancialError(m)) && m@
            == "Minimum initial capital required"@),
{
    if waqf.initial_capital < MIN_WAQF_AMOUNT_CENTS {
        return Err(
            WaqfValidationError::FinancialError(
                String::from_str("Minimum initial capital required"),
            ),
        );
    }
    Ok(())
}

/// The pre-commit assertion for a write to the waqf collection: structural
/// validity, and for a creation the minimum initial capital.
pub fn assert_waqf_operations(waqf: &WaqfData, is_new: bool) -> (r: Result<
    (),
    WaqfValidationError,
>)
    ensures
        r.is_ok() <==> (spec_waqf_valid(*waqf) && (is_new ==> waqf.initial_capital
            >= MIN_WAQF_AMOUNT_CENTS)),
        (r matches Err(WaqfValidationError::StructuralInvalid(_))) <==> waqf.description@.len()
            == 0,
        (r matches Err(WaqfValidationError::InvalidDonorInfo(_))) <==> (waqf.description@.len() > 0
            && !spec_donor_ok(waqf.donor)),
        (r matches Err(WaqfValidationError::InvalidAllocation(_))) <==> (waqf.description@.len()
            > 0 && spec_donor_ok(waqf.donor) && !spec_allocs_ok(waqf.cause_allocation@)),
        (r matches Err(WaqfValidationError::FinancialError(_))) <==> ((waqf.description@.len() > 0
            && spec_donor_ok(waqf.donor) && spec_allocs_ok(waqf.cause_allocation@)
            && !spec_financial_ok(waqf.financial)) || (spec_waqf_valid(*waqf) && is_new
            && waqf.initial_capital < MIN_WAQF_AMOUNT_CENTS)),
{
    if let Err(e) = validate_waqf(waqf) {
        return Err(e);
    }
    if is_new {
        if let Err(e) = validate_minimum_initial_capital(waqf) {
            return Err(e);
        }
    }
    Ok(())
}

/// The pre-commit assertion for deleting a waqf: it must not be active, and
/// only its original creator may delete it.
pub fn assert_waqf_deletion(waqf: &WaqfData, caller: &str) -> (r: Result<(), WaqfValidationError>)
    ensures
        r.is_ok() <==> (waqf.status != WaqfStatus::Active && caller@ == waqf.created_by@),
        (r matches Err(WaqfValidationError::IllegalStatusTransition(_))) <==> waqf.status
            == WaqfStatus::Active,
        (r matches Err(WaqfValidationError::PermissionDenied(_))) <==> (waqf.status
            != WaqfStatus::Active && caller@ != waqf.created_by@),
{
    if waqf.status == WaqfStatus::Active {
        return Err(
            WaqfValidationError::IllegalStatusTransition(
                String::from_str("Cannot delete active waqf - change status first"),
            ),
        );
    }
    if !str_eq(caller, waqf.created_by.as_str()) {
        return Err(
            WaqfValidationError::PermissionDenied(
                String::from_str("Only the waqf creator can delete it"),
            ),
        );
    }
    Ok(())
}

/// The admin-only fields of a waqf; a write by the record's creator must
/// leave every one of them unchanged.
#[derive(Clone, Copy, Debug, PartialEq, Eq, Structural)]
pub enum WaqfField {
    InitialCapital,
    SelectedCauses,
    Status,
    IsDonated,
    Notifications,
    ReportingPreferences,
    Financial,
    CreatedBy,
    CreatedAt,
    LastContributionDate,
    NextContributionDate,
    NextReportDate,
}

/// Field-for-field equality of two donor profiles.
pub open spec fn spec_donor_eq(a: DonorProfile, b: DonorProfile) -> bool {
    a.name@ == b.name@ && a.email@ == b.email@ && a.phone@ == b.phone@ && a.address@ == b.address@
}

/// Field-for-field equality of two reporting-preference records.
pub open spec fn spec_reporting_eq(a: ReportingPrefs, b: ReportingPrefs) -> bool {
    a.frequency@ == b.frequency@ && spec_str_vec_eq(a.report_types@, b.report_types@)
        && a.delivery_method@ == b.delivery_method@
}

/// Element-for-element equality of two allocation lists.
pub open spec fn spec_alloc_seq_eq(a: Seq<CauseAllocation>, b: Seq<CauseAllocation>) -> bool {
    a.len() == b.len() && forall|i: int|
        0 <= i < a.len() ==> (#[trigger] a[i]).cause_id@ == b[i].cause_id@ && a[i].percentage_bps
            == b[i].percentage_bps
}

/// Decides equality of two optional timestamps.
fn opt_u64_eq(a: &Option<u64>, b: &Option<u64>) -> (r: bool)
    ensures
        r == (*a == *b),
{
    match (a, b) {
        (None, None) => true,
        (Some(x), Some(y)) => *x == *y,
        _ => false,
    }
}

/// Decides equality of two reporting-preference records.
fn reporting_prefs_eq(a: &ReportingPrefs, b: &ReportingPrefs) -> (r: bool)
    ensures
        r == spec_reporting_eq(*a, *b),
{
    str_eq(a.frequency.as_str(), b.frequency.as_str()) && string_vecs_eq(
        &a.report_types,
        &b.report_types,
    ) && str_eq(a.delivery_method.as_str(), b.delivery_method.as_str())
}

/// Decides equality of two allocation lists.
fn allocations_eq(a: &Vec<CauseAllocation>, b: &Vec<CauseAllocation>) -> (r: bool)
    ensures
        r == spec_alloc_seq_eq(a@, b@),
{
    let n = a.len();
    if n != b.len() {
        return false;
    }
    let mut i: usize = 0;
    while i < n
        invariant
            n == a@.len(),
            n == b@.len(),
            0 <= i <= n,
            forall|j: int|
                0 <= j < i ==> (#[trigger] a@[j]).cause_id@ == b@[j].cause_id@
                    && a@[j].percentage_bps == b@[j].percentage_bps,
        decreases n - i,
    {
        if !str_eq(a[i].cause_id.as_str(), b[i].cause_id.as_str()) || a[i].percentage_bps
            != b[i].percentage_bps {
            return false;
        }
        i += 1;
    }
    true
}

/// The admin-only fields that differ between two versions of a waqf, in the
/// order the engine reports them.
pub open spec fn spec_changed_restricted_fields(p: WaqfData, u: WaqfData) -> Seq<WaqfField> {
    let s = Seq::<WaqfField>::empty();
    let s = if p.initial_capital != u.initial_capital {
        s.push(WaqfField::InitialCapital)
    } else {
        s
    };
    let s = if !spec_str_vec_eq(p.selected_causes@, u.selected_causes@) {
        s.push(WaqfField::SelectedCauses)
    } else {
        s
    };
    let s = if p.status != u.status {
        s.push(WaqfField::Status)
    } else {
        s
    };
    let s = if p.is_donated != u.is_donated {
        s.push(WaqfField::IsDonated)
    } else {
        s
    };
    let s = if p.notifications != u.notifications {
        s.push(WaqfField::Notifications)
    } else {
        s
    };
    let s = if !spec_reporting_eq(p.reporting_preferences, u.reporting_preferences) {
        s.push(WaqfField::ReportingPreferences)
    } else {
        s
    };
    let s = if p.financial != u.financial {
        s.push(WaqfField::Financial)
    } else {
        s
    };
    let s = if p.created_by@ != u.created_by@ {
        s.push(WaqfField::CreatedBy)
    } else {
        s
    };
    let s = if p.created_at != u.created_at {
        s.push(WaqfField::CreatedAt)
    } else {
        s
    };
    let s = if p.last_contribution_date != u.last_contribution_date {
        s.push(WaqfField::LastContributionDate)
    } else {
        s
    };
    let s = if p.next_contribution_date != u.next_contribution_date {
        s.push(WaqfField::NextContributionDate)
    } else {
        s
    };
    let s = if p.next_report_date != u.next_report_date {
        s.push(WaqfField::NextReportDate)
    } else {
        s
    };
    s
}

/// Enforces the creator field restriction: when the caller is the record's
/// original creator, only the name, description and donor sub-fields may
/// differ from the previous version; any other caller passes through here
/// (administrative authority is checked separately).  On refusal the changed
/// admin-only fields are listed in order.
#[verifier::rlimit(100)]
pub fn validate_creator_field_restrictions(
    previous: &WaqfData,
    updated: &WaqfData,
    caller: &str,
) -> (r: Result<(), Vec<WaqfField>>)
    ensures
        r.is_ok() <==> !(caller@ == previous.created_by@ && spec_changed_restricted_fields(
            *previous,
            *updated,
        ).len() > 0),
        r matches Err(v) ==> v@ == spec_changed_restricted_fields(*previous, *updated),
{
    if !str_eq(caller, previous.created_by.as_str()) {
        return Ok(());
    }
    let mut fields: Vec<WaqfField> = Vec::new();
    let ghost mut acc: Seq<WaqfField> = Seq::empty();
    let c1 = previous.initial_capital != updated.initial_capital;
    if c1 {
        fields.push(WaqfField::InitialCapital);
    }
    proof {
        acc = if c1 {
            acc.push(WaqfField::InitialCapital)
        } else {
            acc
        };
        assert(fields@ == acc);
    }
    let c2 = !string_vecs_eq(&previous.selected_causes, &updated.selected_causes);
    if c2 {
        fields.push(WaqfField::SelectedCauses);
    }
    proof {
        acc = if c2 {
            acc.push(WaqfField::SelectedCauses)
        } else {
            acc
        };
        assert(fields@ == acc);
    }
    let c3 = previous.status != updated.status;
    if c3 {
        fields.push(WaqfField::Status);
    }
    proof {
        acc = if c3 {
            acc.push(WaqfField::Status)
        } else {
            acc
        };
        assert(fields@ == acc);
    }
    let c4 = previous.is_donated != updated.is_donated;
    if c4 {
        fields.push(WaqfField::IsDonated);
    }
    proof {
        acc = if c4 {
            acc.push(WaqfField::IsDonated)
        } else {
            acc
        };
        assert(fields@ == acc);
    }
    let c5 = previous.notifications != updated.notifications;
    if c5 {
        fields.push(WaqfField::Notifications);
    }
    proof {
        acc = if c5 {
            acc.push(WaqfField::Notifications)
        } else {
            acc
        };
        assert(fields@ == acc);
    }
    let c6 = !reporting_prefs_eq(&previous.reporting_preferences, &updated.reporting_preferences);
    if c6 {
        fields.push(WaqfField::ReportingPreferences);
    }
    proof {
        acc = if c6 {
            acc.push(WaqfField::ReportingPreferences)
        } else {
            acc
        };
        assert(fields@ == acc);
    }
    let c7 = previous.financial != updated.financial;
    if c7 {
        fields.push(WaqfField::Financial);
    }
    proof {
        acc = if c7 {
            acc.push(WaqfField::Financial)
        } else {
            acc
        };
        assert(fields@ == acc);
    }
    let c8 = !str_eq(previous.created_by.as_str(), updated.created_by.as_str());
    if c8 {
        fields.push(WaqfField::CreatedBy);
    }
    proof {
        acc = if c8 {
            acc.push(WaqfField::CreatedBy)
        } else {
            acc
        };
        assert(fields@ == acc);
    }
    let c9 = previous.created_at != updated.created_at;
    if c9 {
        fields.push(WaqfField::CreatedAt);
    }
    proof {
        acc = if c9 {
            acc.push(WaqfField::CreatedAt)
        } else {
            acc
        };
        assert(fields@ == acc);
    }
    let c10 = !opt_u64_eq(&previous.last_contribution_date, &updated.last_contribution_date);
    if c10 {
        fields.push(WaqfField::LastContributionDate);
    }
    proof {
        acc = if c10 {
            acc.push(WaqfField::LastContributionDate)
        } else {
            acc
        };
        assert(fields@ == acc);
    }
    let c11 = !opt_u64_eq(&previous.next_contribution_date, &updated.next_contribution_date);
    if c11 {
        fields.push(WaqfField::NextContributionDate);
    }
    proof {
        acc = if c11 {
            acc.push(WaqfField::NextContributionDate)
        } else {
            acc
        };
        assert(fields@ == acc);
    }
    let c12 = !opt_u64_eq(&previous.next_report_date, &updated.next_report_date);
    if c12 {
        fields.push(WaqfField::NextReportDate);
    }
    proof {
        acc = if c12 {
            acc.push(WaqfField::NextReportDate)
        } else {
            acc
        };
        assert(fields@ == acc);
        assert(fields@ == spec_changed_restricted_fields(*previous, *updated));
    }
    if fields.len() == 0 {
        Ok(())
    } else {
        Err(fields)
    }
}

/// The name under which a restricted field is reported.
pub open spec fn spec_field_name(f: WaqfField) -> Seq<char> {
    match f {
        WaqfField::InitialCapital => "initial_capital"@,
        WaqfField::SelectedCauses => "selected_causes"@,
        WaqfField::Status => "status"@,
        WaqfField::IsDonated => "is_donated"@,
        WaqfField::Notifications => "notifications"@,
        WaqfField::ReportingPreferences => "reporting_preferences"@,
        WaqfField::Financial => "financial"@,
        WaqfField::CreatedBy => "created_by"@,
        WaqfField::CreatedAt => "created_at"@,
        WaqfField::LastContributionDate => "last_contribution_date"@,
        WaqfField::NextContributionDate => "next_contribution_date"@,
        WaqfField::NextReportDate => "next_report_date"@,
    }
}

/// The name under which a restricted field is reported.
pub fn field_name(f: WaqfField) -> (r: &'static str)
    ensures
        r@ == spec_field_name(f),
{
    match f {
        WaqfField::InitialCapital => "initial_capital",
        WaqfField::SelectedCauses => "selected_causes",
        WaqfField::Status => "status",
        WaqfField::IsDonated => "is_donated",
        WaqfField::Notifications => "notifications",
        WaqfField::ReportingPreferences => "reporting_preferences",
        WaqfField::Financial => "financial",
        WaqfField::CreatedBy => "created_by",
        WaqfField::CreatedAt => "created_at",
        WaqfField::LastContributionDate => "last_contribution_date",
        WaqfField::NextContributionDate => "next_contribution_date",
        WaqfField::NextReportDate => "next_report_date",
    }
}

/// The comma-separated list of field names, in order.
pub open spec fn spec_field_list(s: Seq<WaqfField>) -> Seq<char>
    decreases s.len(),
{
    if s.len() == 0 {
        Seq::empty()
    } else if s.len() == 1 {
        spec_field_name(s.last())
    } else {
        spec_field_list(s.drop_last()) + ", "@ + spec_field_name(s.last())
    }
}

/// The message refusing a creator's change to admin-only fields, naming each
/// changed field.
pub open spec fn spec_creator_restriction_message(fields: Seq<WaqfField>) -> Seq<char> {
    "Waqf creators can only update name, description, and donor fields. Unauthorized changes detected in: "@
        + spec_field_list(fields)
}

/// Renders the refusal message for a creator's change to admin-only fields.
pub fn creator_restriction_message(fields: &Vec<WaqfField>) -> (r: String)
    ensures
        r@ == spec_creator_restriction_message(fields@),
{
    let mut msg = String::from_str(
        "Waqf creators can only update name, description, and donor fields. Unauthorized changes detected in: ",
    );
    let ghost prefix = msg@;
    let n = fields.len();
    let mut i: usize = 0;
    while i < n
        invariant
            n == fields@.len(),
            0 <= i <= n,
            msg@ == prefix + spec_field_list(fields@.take(i as int)),
        decreases n - i,
    {
        proof {
            assert(fields@.take(i + 1).drop_last() =~= fields@.take(i as int));
            assert(fields@.take(i + 1).last() == fields@[i as int]);
        }
        if i > 0 {
            msg.append(", ");
        }
        msg.append(field_name(fields[i]));
        proof {
            if i == 0 {
                assert(msg@ =~= prefix + spec_field_list(fields@.take(1)));
            } else {
                assert(msg@ =~= prefix + spec_field_list(fields@.take(i + 1)));
            }
        }
        i += 1;
    }
    proof {
        assert(fields@.take(n as int) =~= fields@);
    }
    msg
}

/// Whether a caller may write this version of a waqf: the record's creator
/// may change only the unrestricted fields; any other caller must hold
/// administrative authority and may change everything except a completed
/// waqf.
pub open spec fn spec_check_permissions_ok(
    previous: WaqfData,
    updated: WaqfData,
    caller: Seq<char>,
    is_admin: bool,
) -> bool {
    if caller == previous.created_by@ {
        spec_changed_restricted_fields(previous, updated).len() == 0
    } else {
        is_admin && previous.status != WaqfStatus::Completed
    }
}

/// The message reported when the permission check refuses a write.
pub open spec fn spec_permission_denied_message(previous: WaqfData, caller: Seq<char>) -> Seq<
    char,
> {
    if caller == previous.created_by@ {
        "Donors can't modify protected fields"@
    } else {
        "Permission denied"@
    }
}

/// Decides whether the caller may replace `previous` with `updated`: the
/// creator is held to the field restrictions, an admin may do anything to a
/// waqf that is not completed, and everyone else is refused.
pub fn check_permissions(
    previous: &WaqfData,
    updated: &WaqfData,
    caller: &str,
    is_admin: bool,
) -> (r: Result<(), WaqfValidationError>)
    ensures
        r.is_ok() <==> spec_check_permissions_ok(*previous, *updated, caller@, is_admin),
        r.is_err() ==> r matches Err(WaqfValidationError::PermissionDenied(_)),
        r matches Err(WaqfValidationError::PermissionDenied(m)) ==> m@
            == spec_permission_denied_message(*previous, caller@),
{
    if str_eq(caller, previous.created_by.as_str()) {
        match validate_creator_field_restrictions(previous, updated, caller) {
            Ok(()) => Ok(()),
            Err(_) => Err(
                WaqfValidationError::PermissionDenied(
                    String::from_str("Donors can't modify protected fields"),
                ),
            ),
        }
    } else if is_admin && !(previous.status == WaqfStatus::Completed) {
        Ok(())
    } else {
        Err(WaqfValidationError::PermissionDenied(String::from_str("Permission denied")))
    }
}

/// The previous version of a waqf document, as a value.
pub open spec fn spec_deref_waqf(p: Option<&WaqfData>) -> Option<WaqfData> {
    match p {
        Some(w) => Some(*w),
        None => None,
    }
}

/// The audit action a committed waqf write amounts to: creation without a
/// prior version; a status change to paused or completed; an allocation
/// change; otherwise a plain update.
pub open spec fn spec_infer_waqf_action(prev: Option<WaqfData>, w: WaqfData) -> WaqfAction {
    match prev {
        None => WaqfAction::Create,
        Some(p) => {
            if p.status != w.status && w.status == WaqfStatus::Paused {
                WaqfAction::Pause
            } else if p.status != w.status && w.status == WaqfStatus::Completed {
                WaqfAction::Complete
            } else if !spec_alloc_seq_eq(p.cause_allocation@, w.cause_allocation@) {
                WaqfAction::AllocationChange
            } else {
                WaqfAction::Update
            }
        },
    }
}

/// Derives the audit action for a committed waqf write.
pub fn infer_waqf_action(previous: Option<&WaqfData>, waqf: &WaqfData) -> (r: WaqfAction)
    ensures
        r == spec_infer_waqf_action(spec_deref_waqf(previous), *waqf),
{
    match previous {
        None => WaqfAction::Create,
        Some(p) => {
            if p.status != waqf.status && waqf.status == WaqfStatus::Paused {
                WaqfAction::Pause
            } else if p.status != waqf.status && waqf.status == WaqfStatus::Completed {
                WaqfAction::Complete
            } else if !allocations_eq(&p.cause_allocation, &waqf.cause_allocation) {
                WaqfAction::AllocationChange
            } else {
                WaqfAction::Update
            }
        },
    }
}

/// The pausing and completing of an endowment are the flagged operations
/// that raise a critical alert.
pub open spec fn spec_critical_waqf_action(a: WaqfAction) -> bool {
    a == WaqfAction::Pause || a == WaqfAction::Complete
}

/// What the host must do after a committed waqf write: record the audit
/// entry, and raise a critical alert for flagged actions.
#[derive(Debug, Clone, PartialEq, Eq)]
pub struct WaqfChangeOutcome {
    pub audit: WaqfAudit,
    pub alert: bool,
}

/// Validates a committed waqf change and derives its reactions: an update by
/// the record's creator must respect the field restrictions, and every
/// accepted change yields the audit record the host writes, with an alert
/// for pauses and completions.
pub fn handle_waqf_changes(
    key: &str,
    waqf: &WaqfData,
    previous: Option<&WaqfData>,
    caller: &str,
    now_ms: u64,
) -> (r: Result<WaqfChangeOutcome, WaqfValidationError>)
    ensures
        r.is_err() <==> (previous matches Some(p) && caller@ == p.created_by@
            && spec_changed_restricted_fields(*p, *waqf).len() > 0),
        r matches Err(e) ==> (e matches WaqfValidationError::PermissionDenied(m) && (
        previous matches Some(p) && m@ == spec_creator_restriction_message(
            spec_changed_restricted_fields(*p, *waqf),
        ))),
        r matches Ok(o) ==> {
            &&& o.audit.waqf_id@ == key@
            &&& o.audit.action == spec_infer_waqf_action(spec_deref_waqf(previous), *waqf)
            &&& o.audit.performed_by@ == caller@
            &&& o.audit.timestamp == now_ms
            &&& o.audit.notes is None
            &&& o.alert == spec_critical_waqf_action(
                spec_infer_waqf_action(spec_deref_waqf(previous), *waqf),
            )
        },
{
    if let Some(prev) = previous {
        if let Err(fields) = validate_creator_field_restrictions(prev, waqf, caller) {
            return Err(
                WaqfValidationError::PermissionDenied(creator_restriction_message(&fields)),
            );
        }
    }
    let action = infer_waqf_action(previous, waqf);
    let alert = action == WaqfAction::Pause || action == WaqfAction::Complete;
    Ok(
        WaqfChangeOutcome {
            audit: WaqfAudit {
                waqf_id: key.to_owned(),
                action,
                performed_by: caller.to_owned(),
                timestamp: now_ms,
                notes: None,
            },
            alert,
        },
    )
}

/// A creator's change that touches only the status field is refused with
/// exactly `status` listed as unauthorized.
pub proof fn lemma_creator_status_only_change_listed(p: WaqfData, u: WaqfData)
    requires
        p.status != u.status,
        p.initial_capital == u.initial_capital,
        spec_str_vec_eq(p.selected_causes@, u.selected_causes@),
        p.is_donated == u.is_donated,
        p.notifications == u.notifications,
        spec_reporting_eq(p.reporting_preferences, u.reporting_preferences),
        p.financial == u.financial,
        p.created_by@ == u.created_by@,
        p.created_at == u.created_at,
        p.last_contribution_date == u.last_contribution_date,
        p.next_contribution_date == u.next_contribution_date,
        p.next_report_date == u.next_report_date,
    ensures
        spec_changed_restricted_fields(p, u) =~= seq![WaqfField::Status],
{
}

/// A creator's change that leaves every admin-only field unchanged (for
/// example one that only rewrites the description) is accepted by the field
/// restriction.
pub proof fn lemma_creator_unrestricted_change_allowed(p: WaqfData, u: WaqfData)
    requires
        p.initial_capital == u.initial_capital,
        spec_str_vec_eq(p.selected_causes@, u.selected_causes@),
        p.status == u.status,
        p.is_donated == u.is_donated,
        p.notifications == u.notifications,
        spec_reporting_eq(p.reporting_preferences, u.reporting_preferences),
        p.financial == u.financial,
        p.created_by@ == u.created_by@,
        p.created_at == u.created_at,
        p.last_contribution_date == u.last_contribution_date,
        p.next_contribution_date == u.next_contribution_date,
        p.next_report_date == u.next_report_date,
    ensures
        spec_changed_restricted_fields(p, u).len() == 0,
{
}

/// Once a waqf is completed, no transition out of it is admissible: the
/// completed state is absorbing.
pub proof fn lemma_completed_waqf_is_terminal(to: WaqfStatus)
    ensures
        !spec_status_transition_ok(WaqfStatus::Completed, to),
{
}

} // verus!
