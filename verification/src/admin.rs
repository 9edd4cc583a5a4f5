//! Administrator accounts: the role/permission model, privilege-escalation
//! guards, business-hours gate, role headcount quotas, activation quorum, and
//! the audit rate limiter.
//!
//! Every decision is a pure function of the candidate document, the caller
//! identity, the clock, and a snapshot of the admin, approval and audit
//! collections supplied by the host.  Timestamps are milliseconds since the
//! Unix epoch.

use vstd::prelude::*;
use vstd::string::{StrSliceExecFns, StringExecFns};

use crate::text::{
    contains_char, contains_str, spec_contains, spec_contains_char, spec_eq_ic, str_eq, str_eq_ic,
    vec_contains_str,
};

verus! {

/// Seconds since midnight UTC at which the administrative write window opens
/// (09:00 UTC).
pub const BUSINESS_HOURS_OPEN_SECS: u64 = 32400;

/// Seconds since midnight UTC at which the administrative write window closes
/// (17:00 UTC, inclusive).
pub const BUSINESS_HOURS_CLOSE_SECS: u64 = 61200;

/// Most admins allowed to hold one privileged role at once.
pub const MAX_PRIVILEGED_ROLE_COUNT: usize = 3;

/// Fewest admins that must remain in a privileged role.
pub const MIN_PRIVILEGED_ROLE_COUNT: usize = 2;

/// Distinct super-admin approvals required to toggle an admin's active flag.
pub const ACTIVATION_QUORUM: usize = 2;

/// Most audit records one performer may write in the trailing hour.
pub const AUDIT_RATE_LIMIT: usize = 30;

/// Length of the audit rate-limit window, in milliseconds.
pub const AUDIT_WINDOW_MS: u64 = 3_600_000;

/// The tiered roles an administrator account can hold.
#[derive(Clone, Copy, Debug, PartialEq, Eq, Structural)]
pub enum AdminRole {
    Viewer,
    Editor,
    Manager,
    SuperAdmin,
}

/// An administrator account document.
#[derive(Debug, Clone)]
pub struct AdminUser {
    pub email: String,
    pub role: AdminRole,
    pub permissions: Vec<String>,
    pub created_by: String,
    pub active: bool,
}

/// One stored admin document together with its store key.
#[derive(Debug, Clone)]
pub struct AdminRecord {
    pub key: String,
    pub admin: AdminUser,
}

/// One vote toward an activation/deactivation quorum.
#[derive(Debug, Clone)]
pub struct Approval {
    pub target_admin: String,
    pub approved_by: String,
    pub timestamp: u64,
}

/// An append-only audit record of an administrative action.
#[derive(Debug, Clone)]
pub struct AuditRecord {
    pub action: String,
    pub performed_by: String,
    pub target_user_id: String,
    pub timestamp: u64,
    pub user_agent: Option<String>,
}

/// The administrative action an activation-state change resolves to; the
/// host records it in the audit log.
#[derive(Clone, Copy, Debug, PartialEq, Eq, Structural)]
pub enum ActivationAction {
    ActivateAdmin,
    DeactivateAdmin,
}

/// Why an administrative write or deletion was refused.
#[derive(Debug, Clone, PartialEq, Eq)]
pub enum AdminError {
    /// The e-mail field is not a plausible address.
    InvalidEmail,
    /// Another admin record already uses this e-mail address.
    EmailExists,
    /// A permission outside the role's allowed set; carries the permission.
    PermissionNotAllowed(String),
    /// A super admin must hold exactly the full permission set.
    SuperAdminMissingPermissions,
    /// Only the document's creator may assign the super-admin role.
    SuperAdminNotCreator,
    /// Administrative writes are restricted to 09:00-17:00 UTC.
    OutsideBusinessHours,
    /// A fourth holder of a privileged role; carries the role.
    RoleQuotaExceeded(AdminRole),
    /// Deletion would leave fewer than two holders; carries the role.
    RoleMinimumReached(AdminRole),
    /// Only super admins may delete other admins.
    DeletionNotAuthorized,
    /// Only super admins may modify other admins' records.
    ModificationNotAuthorized,
    /// Toggling the active flag needs two super-admin approvals; `true` when
    /// the change was an activation.
    QuorumNotMet(bool),
    /// The audit record's action is not in the fixed enumeration.
    InvalidAuditAction,
    /// Too many audit actions by one performer in the trailing hour.
    RateLimited,
    /// The write carried no user-agent header.
    MissingUserAgent,
    /// Administrative writes from mobile devices are refused.
    MobileDeviceNotAllowed,
    /// A role change without the role-approval permission.
    MissingRoleApprovalPermission,
}

impl AdminError {
    /// A human-readable description of the refusal.
    pub fn message(&self) -> String {
        match self {
            AdminError::InvalidEmail => String::from_str("Invalid admin email format"),
            AdminError::EmailExists => String::from_str("Email already exists"),
            AdminError::PermissionNotAllowed(p) => String::from_str("Permission not allowed for role: ").concat(p.as_str()),
            AdminError::SuperAdminMissingPermissions => String::from_str("Super admin must have all permissions"),
            AdminError::SuperAdminNotCreator => String::from_str("Only creator can assign super_admin role"),
            AdminError::OutsideBusinessHours => String::from_str("Admin changes only allowed 9AM-5PM UTC"),
            AdminError::RoleQuotaExceeded(_) => String::from_str("Maximum of 3 admins allowed for this role"),
            AdminError::RoleMinimumReached(_) => String::from_str("Cannot delete admin - minimum of 2 required for this role"),
            AdminError::DeletionNotAuthorized => String::from_str("Only super admins can delete other admins"),
            AdminError::ModificationNotAuthorized => String::from_str("Only super admins can modify other admins"),
            AdminError::QuorumNotMet(activating) => if *activating {
                String::from_str("Activation requires approval from at least 2 super admins")
            } else {
                String::from_str("Deactivation requires approval from at least 2 super admins")
            },
            AdminError::InvalidAuditAction => String::from_str("Invalid audit action"),
            AdminError::RateLimited => String::from_str("Too many audit actions - possible abuse"),
            AdminError::MissingUserAgent => String::from_str("Missing user-agent header"),
            AdminError::MobileDeviceNotAllowed => String::from_str("Admin changes not allowed from mobile devices"),
            AdminError::MissingRoleApprovalPermission => String::from_str("Missing permission for role changes"),
        }
    }
}

/// The fixed role -> allowed-permission table.
pub open spec fn role_allows_perm(role: AdminRole, p: Seq<char>) -> bool {
    match role {
        AdminRole::Viewer => p == "content"@,
        AdminRole::Editor => p == "content"@ || p == "users"@,
        AdminRole::Manager => p == "content"@ || p == "users"@ || p == "settings"@,
        AdminRole::SuperAdmin => p == "content"@ || p == "users"@ || p == "settings"@ || p
            == "super"@,
    }
}

/// Every permission the admin holds is allowed for its role.
pub open spec fn spec_perms_allowed(a: AdminUser) -> bool {
    forall|i: int| 0 <= i < a.permissions@.len() ==> role_allows_perm(a.role, a.permissions@[i]@)
}

/// The admin holds the permission `p`.
pub open spec fn spec_has_perm(a: AdminUser, p: Seq<char>) -> bool {
    exists|i: int| 0 <= i < a.permissions@.len() && a.permissions@[i]@ == p
}

/// A super admin holds each of the four permissions and nothing twice.
pub open spec fn spec_super_admin_full(a: AdminUser) -> bool {
    &&& spec_has_perm(a, "content"@)
    &&& spec_has_perm(a, "users"@)
    &&& spec_has_perm(a, "settings"@)
    &&& spec_has_perm(a, "super"@)
    &&& a.permissions@.len() == 4
}

/// Role/permission consistency for an admin document.
pub open spec fn spec_role_permissions_ok(a: AdminUser) -> bool {
    spec_perms_allowed(a) && (a.role == AdminRole::SuperAdmin ==> spec_super_admin_full(a))
}

/// Decides whether a single permission is allowed for a role.
pub fn perm_allowed_for_role(role: AdminRole, p: &str) -> (r: bool)
    ensures
        r == role_allows_perm(role, p@),
{
    match role {
        AdminRole::Viewer => str_eq(p, "content"),
        AdminRole::Editor => str_eq(p, "content") || str_eq(p, "users"),
        AdminRole::Manager => str_eq(p, "content") || str_eq(p, "users") || str_eq(p, "settings"),
        AdminRole::SuperAdmin => str_eq(p, "content") || str_eq(p, "users") || str_eq(p, "settings")
            || str_eq(p, "super"),
    }
}

/// Checks role/permission consistency: every held permission must be in the
/// role's allowed set, and a super admin must hold exactly the full set.
pub fn validate_role_permissions(admin: &AdminUser) -> (r: Result<(), AdminError>)
    ensures
        r.is_ok() <==> spec_role_permissions_ok(*admin),
        (r matches Err(AdminError::PermissionNotAllowed(_))) <==> !spec_perms_allowed(*admin),
        (r matches Err(AdminError::SuperAdminMissingPermissions)) <==> (spec_perms_allowed(*admin)
            && admin.role == AdminRole::SuperAdmin && !spec_super_admin_full(*admin)),
{
    let n = admin.permissions.len();
    let mut i: usize = 0;
    while i < n
        invariant
            n == admin.permissions@.len(),
            0 <= i <= n,
            forall|j: int| 0 <= j < i ==> role_allows_perm(admin.role, admin.permissions@[j]@),
        decreases n - i,
    {
        if !perm_allowed_for_role(admin.role, admin.permissions[i].as_str()) {
            return Err(AdminError::PermissionNotAllowed(admin.permissions[i].clone()));
        }
        i += 1;
    }
    if admin.role == AdminRole::SuperAdmin {
        let full = vec_contains_str(&admin.permissions, "content") && vec_contains_str(
            &admin.permissions,
            "users",
        ) && vec_contains_str(&admin.permissions, "settings") && vec_contains_str(
            &admin.permissions,
            "super",
        ) && admin.permissions.len() == 4;
        if !full {
            return Err(AdminError::SuperAdminMissingPermissions);
        }
    }
    Ok(())
}

/// Role/permission consistency together with the privilege-escalation guard:
/// only the document's declared creator may assign the super-admin role.
pub open spec fn spec_admin_change_ok(a: AdminUser, caller: Seq<char>) -> bool {
    spec_role_permissions_ok(a) && (a.role == AdminRole::SuperAdmin ==> caller
        == a.created_by@)
}

/// Validates a committed admin change: role/permission consistency and the
/// privilege-escalation guard.
pub fn handle_admin_changes(admin: &AdminUser, caller: &str) -> (r: Result<(), AdminError>)
    ensures
        r.is_ok() <==> spec_admin_change_ok(*admin, caller@),
        (r matches Err(AdminError::SuperAdminNotCreator)) <==> (spec_role_permissions_ok(*admin)
            && admin.role == AdminRole::SuperAdmin && caller@ != admin.created_by@),
        r.is_err() ==> (r matches Err(AdminError::PermissionNotAllowed(_)) || r matches Err(
            AdminError::SuperAdminMissingPermissions,
        ) || r matches Err(AdminError::SuperAdminNotCreator)),
{
    match validate_role_permissions(admin) {
        Err(e) => Err(e),
        Ok(()) => {
            if admin.role == AdminRole::SuperAdmin && !str_eq(caller, admin.created_by.as_str()) {
                Err(AdminError::SuperAdminNotCreator)
            } else {
                Ok(())
            }
        },
    }
}

/// Any admin document that passes role/permission validation holds only
/// permissions from its role's allowed set, and a super admin holds the
/// full set of four.
pub proof fn lemma_accepted_admin_permissions(admin: AdminUser)
    requires
        spec_role_permissions_ok(admin),
    ensures
        forall|i: int|
            0 <= i < admin.permissions@.len() ==> role_allows_perm(
                admin.role,
                admin.permissions@[i]@,
            ),
        admin.role == AdminRole::SuperAdmin ==> spec_super_admin_full(admin),
{
}

/// No caller other than the document's declared creator can have a
/// super-admin assignment accepted, whoever the caller is.
pub proof fn lemma_no_privilege_escalation(admin: AdminUser, caller: Seq<char>)
    requires
        spec_admin_change_ok(admin, caller),
        caller != admin.created_by@,
    ensures
        admin.role != AdminRole::SuperAdmin,
{
}

/// Whether a wall-clock instant, in milliseconds since the Unix epoch, falls
/// inside the 09:00-17:00 UTC window for administrative writes.
pub open spec fn spec_within_business_hours(now_ms: u64) -> bool {
    let secs_of_day = (now_ms / 1000) % 86400;
    BUSINESS_HOURS_OPEN_SECS <= secs_of_day <= BUSINESS_HOURS_CLOSE_SECS
}

/// Decides the business-hours gate.
pub fn within_business_hours(now_ms: u64) -> (r: bool)
    ensures
        r == spec_within_business_hours(now_ms),
{
    let secs_of_day: u64 = (now_ms / 1000) % 86400;
    BUSINESS_HOURS_OPEN_SECS <= secs_of_day && secs_of_day <= BUSINESS_HOURS_CLOSE_SECS
}

/// Refuses administrative writes outside business hours.
pub fn validate_time_restrictions(now_ms: u64) -> (r: Result<(), AdminError>)
    ensures
        r.is_ok() <==> spec_within_business_hours(now_ms),
        r.is_err() ==> r matches Err(AdminError::OutsideBusinessHours),
{
    if within_business_hours(now_ms) {
        Ok(())
    } else {
        Err(AdminError::OutsideBusinessHours)
    }
}

/// Refuses administrative writes from mobile devices, judged by the
/// user-agent header the host hands over; a missing header is refused too.
pub fn validate_device(user_agent: Option<&String>) -> (r: Result<(), AdminError>)
    ensures
        (r matches Err(AdminError::MissingUserAgent)) <==> user_agent is None,
        (r matches Err(AdminError::MobileDeviceNotAllowed)) <==> (user_agent matches Some(ua)
            && spec_contains(ua@, "Mobile"@)),
        r.is_ok() <==> (user_agent matches Some(ua) && !spec_contains(ua@, "Mobile"@)),
{
    match user_agent {
        None => Err(AdminError::MissingUserAgent),
        Some(ua) => {
            if contains_str(ua.as_str(), "Mobile") {
                Err(AdminError::MobileDeviceNotAllowed)
            } else {
                Ok(())
            }
        },
    }
}

/// A plausible admin e-mail address: contains an `@` and is at most 254
/// characters long.
pub open spec fn spec_valid_admin_email(e: Seq<char>) -> bool {
    spec_contains_char(e, '@') && e.len() <= 254
}

/// Decides whether an e-mail address is plausible for an admin account.
pub fn is_valid_email(email: &str) -> (r: bool)
    ensures
        r == spec_valid_admin_email(email@),
{
    contains_char(email, '@') && email.unicode_len() <= 254
}

/// How many records in the snapshot hold the given role.
pub open spec fn spec_count_role(s: Seq<AdminRecord>, role: AdminRole) -> nat
    decreases s.len(),
{
    if s.len() == 0 {
        0
    } else {
        spec_count_role(s.drop_last(), role) + (if s.last().admin.role == role {
            1nat
        } else {
            0nat
        })
    }
}

/// Counts the admin records holding the given role.
pub fn count_role_admins(admins: &Vec<AdminRecord>, role: AdminRole) -> (r: usize)
    ensures
        r == spec_count_role(admins@, role),
{
    let n = admins.len();
    let mut count: usize = 0;
    let mut i: usize = 0;
    while i < n
        invariant
            n == admins@.len(),
            0 <= i <= n,
            count <= i,
            count == spec_count_role(admins@.take(i as int), role),
        decreases n - i,
    {
        proof {
            assert(admins@.take(i + 1).drop_last() =~= admins@.take(i as int));
            assert(admins@.take(i + 1).last() == admins@[i as int]);
        }
        if admins[i].admin.role == role {
            count += 1;
        }
        i += 1;
    }
    proof {
        assert(admins@.take(n as int) =~= admins@);
    }
    count
}

/// How many records in the snapshot hold the `super` permission.
pub open spec fn spec_count_super(s: Seq<AdminRecord>) -> nat
    decreases s.len(),
{
    if s.len() == 0 {
        0
    } else {
        spec_count_super(s.drop_last()) + (if spec_has_perm(s.last().admin, "super"@) {
            1nat
        } else {
            0nat
        })
    }
}

/// Counts the admin records holding the `super` permission.
pub fn count_super_admins(admins: &Vec<AdminRecord>) -> (r: usize)
    ensures
        r == spec_count_super(admins@),
{
    let n = admins.len();
    let mut count: usize = 0;
    let mut i: usize = 0;
    while i < n
        invariant
            n == admins@.len(),
            0 <= i <= n,
            count <= i,
            count == spec_count_super(admins@.take(i as int)),
        decreases n - i,
    {
        proof {
            assert(admins@.take(i + 1).drop_last() =~= admins@.take(i as int));
            assert(admins@.take(i + 1).last() == admins@[i as int]);
        }
        if vec_contains_str(&admins[i].admin.permissions, "super") {
            count += 1;
        }
        i += 1;
    }
    proof {
        assert(admins@.take(n as int) =~= admins@);
    }
    count
}

/// The first record with the given key, if any: the single-document read the
/// engine models over a snapshot of the admin collection.
pub open spec fn spec_admin_lookup(s: Seq<AdminRecord>, k: Seq<char>) -> Option<AdminUser>
    decreases s.len(),
{
    if s.len() == 0 {
        None
    } else {
        let prefix = spec_admin_lookup(s.drop_last(), k);
        if prefix is Some {
            prefix
        } else if s.last().key@ == k {
            Some(s.last().admin)
        } else {
            None
        }
    }
}

/// The admin stored under `user_id` holds the `super` permission; an absent
/// record never does.
pub open spec fn spec_is_super_admin(s: Seq<AdminRecord>, user_id: Seq<char>) -> bool {
    match spec_admin_lookup(s, user_id) {
        Some(a) => spec_has_perm(a, "super"@),
        None => false,
    }
}

/// Decides whether the admin stored under `user_id` holds the `super`
/// permission.
pub fn is_super_admin(admins: &Vec<AdminRecord>, user_id: &str) -> (r: bool)
    ensures
        r == spec_is_super_admin(admins@, user_id@),
{
    let n = admins.len();
    let mut i: usize = 0;
    let mut found = false;
    let mut result = false;
    while i < n
        invariant
            n == admins@.len(),
            0 <= i <= n,
            found == (spec_admin_lookup(admins@.take(i as int), user_id@) is Some),
            result == spec_is_super_admin(admins@.take(i as int), user_id@),
        decreases n - i,
    {
        proof {
            assert(admins@.take(i + 1).drop_last() =~= admins@.take(i as int));
            assert(admins@.take(i + 1).last() == admins@[i as int]);
        }
        if !found && str_eq(admins[i].key.as_str(), user_id) {
            found = true;
            result = vec_contains_str(&admins[i].admin.permissions, "super");
        }
        i += 1;
    }
    proof {
        assert(admins@.take(n as int) =~= admins@);
    }
    result
}

/// The role of the admin stored under `k`, if such a record exists.
pub open spec fn spec_admin_role_of(s: Seq<AdminRecord>, k: Seq<char>) -> Option<AdminRole> {
    match spec_admin_lookup(s, k) {
        Some(a) => Some(a.role),
        None => None,
    }
}

/// Looks up the role of the admin stored under `key`.
pub fn admin_role_of(admins: &Vec<AdminRecord>, key: &str) -> (r: Option<AdminRole>)
    ensures
        r == spec_admin_role_of(admins@, key@),
{
    let n = admins.len();
    let mut i: usize = 0;
    let mut result: Option<AdminRole> = None;
    while i < n
        invariant
            n == admins@.len(),
            0 <= i <= n,
            result == spec_admin_role_of(admins@.take(i as int), key@),
            (spec_admin_lookup(admins@.take(i as int), key@) is Some) == (result is Some),
        decreases n - i,
    {
        proof {
            assert(admins@.take(i + 1).drop_last() =~= admins@.take(i as int));
            assert(admins@.take(i + 1).last() == admins@[i as int]);
        }
        if result.is_none() && str_eq(admins[i].key.as_str(), key) {
            result = Some(admins[i].admin.role);
        }
        i += 1;
    }
    proof {
        assert(admins@.take(n as int) =~= admins@);
    }
    result
}

/// Whether `caller_id` may modify the admin record of `target_id`:
/// self-modification is always permitted; otherwise the caller must hold the
/// `super` permission, and when the target is a super admin the caller must
/// be one too.
pub open spec fn spec_can_modify_admin(
    s: Seq<AdminRecord>,
    caller_id: Seq<char>,
    target_id: Seq<char>,
) -> bool {
    ||| caller_id == target_id
    ||| (spec_is_super_admin(s, caller_id) && (spec_admin_role_of(s, target_id) == Some(
        AdminRole::SuperAdmin,
    ) ==> spec_admin_role_of(s, caller_id) == Some(AdminRole::SuperAdmin)))
}

/// Decides whether one admin may modify another's record.
pub fn can_modify_admin(admins: &Vec<AdminRecord>, caller_id: &str, target_id: &str) -> (r: bool)
    ensures
        r == spec_can_modify_admin(admins@, caller_id@, target_id@),
{
    if str_eq(caller_id, target_id) {
        return true;
    }
    let caller_is_super = is_super_admin(admins, caller_id);
    if !caller_is_super {
        return false;
    }
    let target_role = admin_role_of(admins, target_id);
    let target_is_super_role = match target_role {
        Some(AdminRole::SuperAdmin) => true,
        _ => false,
    };
    if !target_is_super_role {
        return true;
    }
    let caller_role = admin_role_of(admins, caller_id);
    match caller_role {
        Some(AdminRole::SuperAdmin) => true,
        _ => false,
    }
}

/// How many approvals in the snapshot target `admin_id` and were authored by
/// an admin who holds the `super` permission at query time.
pub open spec fn spec_count_super_approvals(
    approvals: Seq<Approval>,
    admins: Seq<AdminRecord>,
    admin_id: Seq<char>,
) -> nat
    decreases approvals.len(),
{
    if approvals.len() == 0 {
        0
    } else {
        spec_count_super_approvals(approvals.drop_last(), admins, admin_id) + (if approvals.last().target_admin@
            == admin_id && spec_is_super_admin(admins, approvals.last().approved_by@) {
            1nat
        } else {
            0nat
        })
    }
}

/// Counts the qualifying super-admin approvals for `admin_id`.
pub fn count_super_admin_approvals(
    approvals: &Vec<Approval>,
    admins: &Vec<AdminRecord>,
    admin_id: &str,
) -> (r: usize)
    ensures
        r == spec_count_super_approvals(approvals@, admins@, admin_id@),
{
    let n = approvals.len();
    let mut count: usize = 0;
    let mut i: usize = 0;
    while i < n
        invariant
            n == approvals@.len(),
            0 <= i <= n,
            count <= i,
            count == spec_count_super_approvals(approvals@.take(i as int), admins@, admin_id@),
        decreases n - i,
    {
        proof {
            assert(approvals@.take(i + 1).drop_last() =~= approvals@.take(i as int));
            assert(approvals@.take(i + 1).last() == approvals@[i as int]);
        }
        if str_eq(approvals[i].target_admin.as_str(), admin_id) && is_super_admin(
            admins,
            approvals[i].approved_by.as_str(),
        ) {
            count += 1;
        }
        i += 1;
    }
    proof {
        assert(approvals@.take(n as int) =~= approvals@);
    }
    count
}

/// How many audit records in the snapshot were performed by `performer` at or
/// after `cutoff`.
pub open spec fn spec_count_recent_audits(
    audits: Seq<AuditRecord>,
    performer: Seq<char>,
    cutoff: u64,
) -> nat
    decreases audits.len(),
{
    if audits.len() == 0 {
        0
    } else {
        spec_count_recent_audits(audits.drop_last(), performer, cutoff) + (if audits.last().performed_by@
            == performer && audits.last().timestamp >= cutoff {
            1nat
        } else {
            0nat
        })
    }
}

/// Counts the audit records by `performer` stamped at or after `cutoff`.
pub fn count_recent_audits(audits: &Vec<AuditRecord>, performer: &str, cutoff: u64) -> (r: usize)
    ensures
        r == spec_count_recent_audits(audits@, performer@, cutoff),
{
    let n = audits.len();
    let mut count: usize = 0;
    let mut i: usize = 0;
    while i < n
        invariant
            n == audits@.len(),
            0 <= i <= n,
            count <= i,
            count == spec_count_recent_audits(audits@.take(i as int), performer@, cutoff),
        decreases n - i,
    {
        proof {
            assert(audits@.take(i + 1).drop_last() =~= audits@.take(i as int));
            assert(audits@.take(i + 1).last() == audits@[i as int]);
        }
        if str_eq(audits[i].performed_by.as_str(), performer) && audits[i].timestamp >= cutoff {
            count += 1;
        }
        i += 1;
    }
    proof {
        assert(audits@.take(n as int) =~= audits@);
    }
    count
}

/// The user agents recorded in audit records performed by `user_id`, in log
/// order.
pub open spec fn spec_device_history(s: Seq<AuditRecord>, user_id: Seq<char>) -> Seq<Seq<char>>
    decreases s.len(),
{
    if s.len() == 0 {
        Seq::empty()
    } else {
        spec_device_history(s.drop_last(), user_id) + (if s.last().performed_by@ == user_id {
            match s.last().user_agent {
                Some(ua) => seq![ua@],
                None => Seq::empty(),
            }
        } else {
            Seq::empty()
        })
    }
}

/// The roles subject to headcount quotas; `Viewer` has none.
pub open spec fn spec_is_privileged(role: AdminRole) -> bool {
    role == AdminRole::SuperAdmin || role == AdminRole::Manager || role == AdminRole::Editor
}

/// Some other record already uses this e-mail address (ignoring ASCII case);
/// on an update the record being rewritten does not count against itself.
pub open spec fn spec_email_taken(
    s: Seq<AdminRecord>,
    key: Seq<char>,
    email: Seq<char>,
    is_update: bool,
) -> bool {
    exists|i: int|
        0 <= i < s.len() && spec_eq_ic(s[i].admin.email@, email) && (!is_update || s[i].key@ != key)
}

/// The previous version of an admin document, as a value.
pub open spec fn spec_deref_admin(p: Option<&AdminUser>) -> Option<AdminUser> {
    match p {
        Some(a) => Some(*a),
        None => None,
    }
}

/// The write introduces a new holder of `role`: there was no previous
/// version, or the previous version held a different role.
pub open spec fn spec_is_new_role(prev: Option<AdminUser>, role: AdminRole) -> bool {
    match prev {
        None => true,
        Some(p) => p.role != role,
    }
}

/// The role-headcount quota admits the write: a privileged role may not gain
/// a new holder once the snapshot already holds the maximum.
pub open spec fn spec_role_quota_ok(
    s: Seq<AdminRecord>,
    role: AdminRole,
    prev: Option<AdminUser>,
) -> bool {
    !(spec_is_privileged(role) && spec_is_new_role(prev, role) && spec_count_role(s, role)
        >= MAX_PRIVILEGED_ROLE_COUNT)
}

/// Every pre-commit condition on an admin write.
pub open spec fn spec_admin_write_ok(
    key: Seq<char>,
    admin: AdminUser,
    prev: Option<AdminUser>,
    now_ms: u64,
    s: Seq<AdminRecord>,
) -> bool {
    &&& spec_valid_admin_email(admin.email@)
    &&& !spec_email_taken(s, key, admin.email@, prev is Some)
    &&& spec_role_permissions_ok(admin)
    &&& spec_within_business_hours(now_ms)
    &&& spec_role_quota_ok(s, admin.role, prev)
}

/// The pre-commit assertion for a write to the admin collection, checked in
/// order: e-mail plausibility, e-mail uniqueness, role/permission
/// consistency, the business-hours gate, and the role-headcount quota.
pub fn assert_admin_operations(
    key: &str,
    admin: &AdminUser,
    previous: Option<&AdminUser>,
    now_ms: u64,
    admins: &Vec<AdminRecord>,
) -> (r: Result<(), AdminError>)
    ensures
        r.is_ok() <==> spec_admin_write_ok(
            key@,
            *admin,
            spec_deref_admin(previous),
            now_ms,
            admins@,
        ),
        (r matches Err(AdminError::InvalidEmail)) <==> !spec_valid_admin_email(admin.email@),
        (r matches Err(AdminError::EmailExists)) <==> (spec_valid_admin_email(admin.email@)
            && spec_email_taken(admins@, key@, admin.email@, previous is Some)),
        (r matches Err(AdminError::PermissionNotAllowed(_))) <==> (spec_valid_admin_email(
            admin.email@,
        ) && !spec_email_taken(admins@, key@, admin.email@, previous is Some)
            && !spec_perms_allowed(*admin)),
        (r matches Err(AdminError::SuperAdminMissingPermissions)) <==> (spec_valid_admin_email(
            admin.email@,
        ) && !spec_email_taken(admins@, key@, admin.email@, previous is Some)
            && spec_perms_allowed(*admin) && admin.role == AdminRole::SuperAdmin
            && !spec_super_admin_full(*admin)),
        (r matches Err(AdminError::OutsideBusinessHours)) <==> (spec_valid_admin_email(
            admin.email@,
        ) && !spec_email_taken(admins@, key@, admin.email@, previous is Some)
            && spec_role_permissions_ok(*admin) && !spec_within_business_hours(now_ms)),
        (r matches Err(AdminError::RoleQuotaExceeded(_))) <==> (spec_valid_admin_email(
            admin.email@,
        ) && !spec_email_taken(admins@, key@, admin.email@, previous is Some)
            && spec_role_permissions_ok(*admin) && spec_within_business_hours(now_ms)
            && !spec_role_quota_ok(admins@, admin.role, spec_deref_admin(previous))),
        r matches Err(AdminError::RoleQuotaExceeded(ro)) ==> ro == admin.role,
{
    if !is_valid_email(admin.email.as_str()) {
        return Err(AdminError::InvalidEmail);
    }
    let is_update = previous.is_some();
    let n = admins.len();
    let mut i: usize = 0;
    while i < n
        invariant
            n == admins@.len(),
            0 <= i <= n,
            is_update == (previous is Some),
            spec_valid_admin_email(admin.email@),
            forall|j: int|
                0 <= j < i ==> !(spec_eq_ic(admins@[j].admin.email@, admin.email@) && (!is_update
                    || admins@[j].key@ != key@)),
        decreases n - i,
    {
        if str_eq_ic(admins[i].admin.email.as_str(), admin.email.as_str()) && (!is_update
            || !str_eq(admins[i].key.as_str(), key)) {
            proof {
                assert(spec_eq_ic(admins@[i as int].admin.email@, admin.email@));
                assert(!(previous is Some) || admins@[i as int].key@ != key@);
            }
            return Err(AdminError::EmailExists);
        }
        i += 1;
    }
    if let Err(e) = validate_role_permissions(admin) {
        return Err(e);
    }
    if !within_business_hours(now_ms) {
        return Err(AdminError::OutsideBusinessHours);
    }
    let privileged = admin.role == AdminRole::SuperAdmin || admin.role == AdminRole::Manager
        || admin.role == AdminRole::Editor;
    if privileged {
        let is_new_role = match previous {
            None => true,
            Some(p) => p.role != admin.role,
        };
        if is_new_role {
            let current_count = count_role_admins(admins, admin.role);
            if current_count >= MAX_PRIVILEGED_ROLE_COUNT {
                return Err(AdminError::RoleQuotaExceeded(admin.role));
            }
        }
    }
    Ok(())
}

/// Every pre-commit condition on deleting an admin record: the
/// business-hours gate, the role-headcount minimum, and the
/// self-or-super-admin authorization.
pub open spec fn spec_admin_delete_ok(
    key: Seq<char>,
    admin: AdminUser,
    caller: Seq<char>,
    now_ms: u64,
    s: Seq<AdminRecord>,
) -> bool {
    &&& spec_within_business_hours(now_ms)
    &&& !(spec_is_privileged(admin.role) && spec_count_role(s, admin.role)
        <= MIN_PRIVILEGED_ROLE_COUNT)
    &&& (spec_is_super_admin(s, caller) || key == caller)
}

/// The pre-commit assertion for deleting an admin record.
pub fn assert_admin_deletion(
    key: &str,
    admin: &AdminUser,
    caller: &str,
    now_ms: u64,
    admins: &Vec<AdminRecord>,
) -> (r: Result<(), AdminError>)
    ensures
        r.is_ok() <==> spec_admin_delete_ok(key@, *admin, caller@, now_ms, admins@),
        (r matches Err(AdminError::OutsideBusinessHours)) <==> !spec_within_business_hours(now_ms),
        (r matches Err(AdminError::RoleMinimumReached(_))) <==> (spec_within_business_hours(now_ms)
            && spec_is_privileged(admin.role) && spec_count_role(admins@, admin.role)
            <= MIN_PRIVILEGED_ROLE_COUNT),
        r matches Err(AdminError::RoleMinimumReached(ro)) ==> ro == admin.role,
        (r matches Err(AdminError::DeletionNotAuthorized)) <==> (spec_within_business_hours(now_ms)
            && !(spec_is_privileged(admin.role) && spec_count_role(admins@, admin.role)
            <= MIN_PRIVILEGED_ROLE_COUNT) && !spec_is_super_admin(admins@, caller@) && key@
            != caller@),
{
    if !within_business_hours(now_ms) {
        return Err(AdminError::OutsideBusinessHours);
    }
    let privileged = admin.role == AdminRole::SuperAdmin || admin.role == AdminRole::Manager
        || admin.role == AdminRole::Editor;
    if privileged {
        let role_count = count_role_admins(admins, admin.role);
        if role_count <= MIN_PRIVILEGED_ROLE_COUNT {
            return Err(AdminError::RoleMinimumReached(admin.role));
        }
    }
    let caller_is_super = is_super_admin(admins, caller);
    let is_self_delete = str_eq(key, caller);
    if !caller_is_super && !is_self_delete {
        return Err(AdminError::DeletionNotAuthorized);
    }
    Ok(())
}

/// The write toggles the admin's active flag: a previous version exists and
/// its flag differs from the new one.
pub open spec fn spec_activation_change(before: Option<AdminUser>, after: AdminUser) -> bool {
    match before {
        None => false,
        Some(b) => b.active != after.active,
    }
}

/// Quorum check for a committed activation-state change: toggling the active
/// flag requires at least two qualifying super-admin approvals; other writes
/// pass through with no action.
pub fn handle_admin_activation(
    key: &str,
    before: Option<&AdminUser>,
    after: &AdminUser,
    approvals: &Vec<Approval>,
    admins: &Vec<AdminRecord>,
) -> (r: Result<Option<ActivationAction>, AdminError>)
    ensures
        (r matches Ok(None)) <==> !spec_activation_change(spec_deref_admin(before), *after),
        (r matches Err(AdminError::QuorumNotMet(_))) <==> (spec_activation_change(
            spec_deref_admin(before),
            *after,
        ) && spec_count_super_approvals(approvals@, admins@, key@) < ACTIVATION_QUORUM),
        r matches Err(AdminError::QuorumNotMet(act)) ==> act == after.active,
        (r matches Ok(Some(_))) <==> (spec_activation_change(spec_deref_admin(before), *after)
            && spec_count_super_approvals(approvals@, admins@, key@) >= ACTIVATION_QUORUM),
        r matches Ok(Some(a)) ==> a == (if after.active {
            ActivationAction::ActivateAdmin
        } else {
            ActivationAction::DeactivateAdmin
        }),
{
    let changed = match before {
        None => false,
        Some(b) => b.active != after.active,
    };
    if !changed {
        return Ok(None);
    }
    let approvals_count = count_super_admin_approvals(approvals, admins, key);
    if approvals_count < ACTIVATION_QUORUM {
        return Err(AdminError::QuorumNotMet(after.active));
    }
    if after.active {
        Ok(Some(ActivationAction::ActivateAdmin))
    } else {
        Ok(Some(ActivationAction::DeactivateAdmin))
    }
}

/// The fixed enumeration of audit action kinds.
pub open spec fn spec_valid_audit_action(a: Seq<char>) -> bool {
    ||| a == "create_admin"@
    ||| a == "update_admin"@
    ||| a == "delete_admin"@
    ||| a == "permission_change"@
    ||| a == "role_change"@
    ||| a == "activate_admin"@
    ||| a == "deactivate_admin"@
}

/// The audit action kinds that raise a critical alert: privilege changes
/// and the toggling of an admin's active state.
pub open spec fn spec_critical_audit_action(a: Seq<char>) -> bool {
    ||| a == "role_change"@
    ||| a == "permission_change"@
    ||| a == "activate_admin"@
    ||| a == "deactivate_admin"@
}

/// The start of the trailing rate-limit window ending at `now_ms`.
pub open spec fn spec_audit_cutoff(now_ms: u64) -> u64 {
    if now_ms >= AUDIT_WINDOW_MS {
        (now_ms - AUDIT_WINDOW_MS) as u64
    } else {
        0
    }
}

/// Validates a committed audit record: the action must be in the fixed
/// enumeration and the performer must stay under the rate limit for the
/// trailing hour.  Returns whether the host must raise a critical alert.
pub fn process_audit_logs(
    audit: &AuditRecord,
    prior: &Vec<AuditRecord>,
    now_ms: u64,
) -> (r: Result<bool, AdminError>)
    ensures
        (r matches Err(AdminError::InvalidAuditAction)) <==> !spec_valid_audit_action(
            audit.action@,
        ),
        (r matches Err(AdminError::RateLimited)) <==> (spec_valid_audit_action(audit.action@)
            && spec_count_recent_audits(
            prior@,
            audit.performed_by@,
            spec_audit_cutoff(now_ms),
        ) > AUDIT_RATE_LIMIT),
        r.is_ok() <==> (spec_valid_audit_action(audit.action@) && spec_count_recent_audits(
            prior@,
            audit.performed_by@,
            spec_audit_cutoff(now_ms),
        ) <= AUDIT_RATE_LIMIT),
        r matches Ok(alert) ==> alert == spec_critical_audit_action(audit.action@),
{
    let a = audit.action.as_str();
    let valid = str_eq(a, "create_admin") || str_eq(a, "update_admin") || str_eq(a, "delete_admin")
        || str_eq(a, "permission_change") || str_eq(a, "role_change") || str_eq(
        a,
        "activate_admin",
    ) || str_eq(a, "deactivate_admin");
    if !valid {
        return Err(AdminError::InvalidAuditAction);
    }
    let alert = str_eq(a, "role_change") || str_eq(a, "permission_change") || str_eq(
        a,
        "activate_admin",
    ) || str_eq(a, "deactivate_admin");
    let cutoff: u64 = if now_ms >= AUDIT_WINDOW_MS {
        now_ms - AUDIT_WINDOW_MS
    } else {
        0
    };
    let recent_actions = count_recent_audits(prior, audit.performed_by.as_str(), cutoff);
    if recent_actions > AUDIT_RATE_LIMIT {
        return Err(AdminError::RateLimited);
    }
    Ok(alert)
}

/// Guards a role change: altering an admin's role requires the
/// `role_approval` permission on the proposed document.
pub fn validate_action(proposed_role: Option<AdminRole>, admin: &AdminUser) -> (r: Result<
    (),
    AdminError,
>)
    ensures
        r.is_ok() <==> !(proposed_role matches Some(nr) && nr != admin.role && !spec_has_perm(
            *admin,
            "role_approval"@,
        )),
        r.is_err() ==> r matches Err(AdminError::MissingRoleApprovalPermission),
{
    match proposed_role {
        Some(nr) => {
            if nr != admin.role && !vec_contains_str(&admin.permissions, "role_approval") {
                Err(AdminError::MissingRoleApprovalPermission)
            } else {
                Ok(())
            }
        },
        None => Ok(()),
    }
}

/// Collects the user agents seen in `user_id`'s audit records.
pub fn get_admin_device_history(audits: &Vec<AuditRecord>, user_id: &str) -> (r: Vec<String>)
    ensures
        r.deep_view() == spec_device_history(audits@, user_id@),
{
    let n = audits.len();
    let mut devices: Vec<String> = Vec::new();
    let mut i: usize = 0;
    while i < n
        invariant
            n == audits@.len(),
            0 <= i <= n,
            devices.deep_view() == spec_device_history(audits@.take(i as int), user_id@),
        decreases n - i,
    {
        proof {
            assert(audits@.take(i + 1).drop_last() =~= audits@.take(i as int));
            assert(audits@.take(i + 1).last() == audits@[i as int]);
        }
        let ghost before = devices.deep_view();
        if str_eq(audits[i].performed_by.as_str(), user_id) {
            match &audits[i].user_agent {
                Some(ua) => {
                    devices.push(ua.clone());
                    proof {
                        assert(devices.deep_view() =~= before + seq![audits@[i as int].user_agent->0@]);
                    }
                },
                None => {},
            }
        }
        i += 1;
    }
    proof {
        assert(audits@.take(n as int) =~= audits@);
    }
    devices
}

/// Removing one record splits the role count into the rest plus that
/// record's own contribution.
proof fn lemma_count_role_remove(s: Seq<AdminRecord>, i: int, role: AdminRole)
    requires
        0 <= i < s.len(),
    ensures
        spec_count_role(s, role) == spec_count_role(s.remove(i), role) + (if s[i].admin.role
            == role {
            1nat
        } else {
            0nat
        }),
    decreases s.len(),
{
    if i == s.len() - 1 {
        assert(s.remove(i) =~= s.drop_last());
    } else {
        let sd = s.drop_last();
        lemma_count_role_remove(sd, i, role);
        assert(s.remove(i).drop_last() =~= sd.remove(i));
        assert(s.remove(i).last() == s.last());
    }
}

/// The role count depends only on which records the snapshot holds, not on
/// the order the store listed them in.
pub proof fn lemma_count_role_permutation(s: Seq<AdminRecord>, t: Seq<AdminRecord>, role: AdminRole)
    requires
        s.to_multiset() == t.to_multiset(),
    ensures
        spec_count_role(s, role) == spec_count_role(t, role),
    decreases s.len(),
{
    broadcast use vstd::seq_lib::group_to_multiset_ensures;

    if s.len() == 0 {
        assert(t.to_multiset().len() == 0);
        assert(t.len() == 0);
    } else {
        let x = s.last();
        let sd = s.drop_last();
        assert(s =~= sd.push(x));
        assert(s.to_multiset() =~= sd.to_multiset().insert(x));
        assert(s.contains(x));
        assert(t.to_multiset().count(x) > 0);
        assert(t.contains(x));
        let i = choose|i: int| 0 <= i < t.len() && t[i] == x;
        assert(t.remove(i).to_multiset() =~= t.to_multiset().remove(x));
        assert(sd.to_multiset() =~= t.remove(i).to_multiset());
        lemma_count_role_permutation(sd, t.remove(i), role);
        lemma_count_role_remove(t, i, role);
    }
}

/// Role-quota admission is order-independent: two snapshots holding the same
/// records, however the store listed them, admit exactly the same writes
/// under the headcount quota.  In particular a fourth concurrent holder of a
/// privileged role is rejected whichever listing its write observed.
pub proof fn lemma_role_quota_order_independent(
    s: Seq<AdminRecord>,
    t: Seq<AdminRecord>,
    role: AdminRole,
    prev: Option<AdminUser>,
)
    requires
        s.to_multiset() == t.to_multiset(),
    ensures
        spec_role_quota_ok(s, role, prev) == spec_role_quota_ok(t, role, prev),
{
    lemma_count_role_permutation(s, t, role);
}

/// A write that introduces a new holder of a privileged role is rejected
/// whenever the snapshot already holds the maximum, whatever the rest of the
/// document says.
pub proof fn lemma_role_quota_excess_rejected(
    key: Seq<char>,
    admin: AdminUser,
    prev: Option<AdminUser>,
    now_ms: u64,
    s: Seq<AdminRecord>,
)
    requires
        spec_is_privileged(admin.role),
        spec_is_new_role(prev, admin.role),
        spec_count_role(s, admin.role) >= MAX_PRIVILEGED_ROLE_COUNT,
    ensures
        !spec_admin_write_ok(key, admin, prev, now_ms, s),
{
}

/// An admissible deletion of a privileged-role holder presupposes that more
/// than the minimum number of holders exist; at the minimum headcount the
/// deletion is rejected.
pub proof fn lemma_deletion_respects_role_minimum(
    key: Seq<char>,
    admin: AdminUser,
    caller: Seq<char>,
    now_ms: u64,
    s: Seq<AdminRecord>,
)
    requires
        spec_is_privileged(admin.role),
        spec_admin_delete_ok(key, admin, caller, now_ms, s),
    ensures
        spec_count_role(s, admin.role) > MIN_PRIVILEGED_ROLE_COUNT,
{
}

} // verus!
