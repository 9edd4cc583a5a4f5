//! The dispatcher: routes a proposed or committed mutation, keyed by the
//! kind of document, to the pre-commit assertions and post-commit reactions
//! of the matching entity.
//!
//! The engine never rewrites a document: the verdict is returned beside the
//! untouched proposal, so what the host commits on acceptance is the
//! proposed value itself.

use vstd::prelude::*;

use crate::admin::{
    assert_admin_deletion, assert_admin_operations, can_modify_admin, handle_admin_activation,
    handle_admin_changes, is_super_admin, process_audit_logs, spec_activation_change,
    spec_admin_change_ok, spec_admin_delete_ok, spec_admin_write_ok, spec_audit_cutoff,
    spec_can_modify_admin, spec_count_recent_audits, spec_count_super_approvals,
    spec_critical_audit_action, spec_is_super_admin, spec_valid_audit_action, ActivationAction,
    AdminError, AdminRecord, AdminRole, AdminUser, Approval, AuditRecord, ACTIVATION_QUORUM,
    AUDIT_RATE_LIMIT,
};
use crate::cause::{
    assert_cause_deletion, assert_cause_operations, handle_cause_changes, spec_cause_valid,
    spec_valid_category, Cause, CauseChangeSummary, CauseError, CauseOperation, CauseStatus,
};
use crate::text::str_eq;
use crate::waqf::{
    assert_waqf_operations, assert_waqf_deletion, check_permissions, handle_waqf_changes,
    spec_changed_restricted_fields, spec_check_permissions_ok, spec_infer_waqf_action,
    spec_status_transition_ok, spec_waqf_valid, validate_status_transition, WaqfChangeOutcome,
    WaqfData, WaqfStatus, WaqfValidationError, MIN_WAQF_AMOUNT_CENTS,
};

verus! {

/// The ambient facts of one mutation attempt, passed in explicitly: the
/// caller identity, the wall clock in milliseconds since the Unix epoch, and
/// the user-agent header if one came with the request.
#[derive(Debug, Clone)]
pub struct RequestContext {
    pub caller: String,
    pub now_ms: u64,
    pub user_agent: Option<String>,
}

/// What the cross-document checks read: a snapshot of the admin, approval
/// and audit collections, listed by the host immediately before the check.
/// The checks are read-then-decide; a concurrent writer can invalidate the
/// snapshot between the read and the commit, which is an accepted race.
#[derive(Debug, Clone)]
pub struct StoreSnapshot {
    pub admins: Vec<AdminRecord>,
    pub approvals: Vec<Approval>,
    pub audit_log: Vec<AuditRecord>,
}

/// A typed document, as decoded by the host from the collection it was
/// addressed to.
#[derive(Debug, Clone)]
pub enum Document {
    Admin(AdminUser),
    Cause(Cause),
    Waqf(WaqfData),
    AdminAudit(AuditRecord),
}

/// Why a mutation was refused, by the entity whose rules refused it.
#[derive(Debug, Clone, PartialEq, Eq)]
pub enum PolicyError {
    Admin(AdminError),
    Cause(CauseError),
    Waqf(WaqfValidationError),
}

impl PolicyError {
    /// A human-readable description of the refusal.
    pub fn message(&self) -> String {
        match self {
            PolicyError::Admin(e) => e.message(),
            PolicyError::Cause(e) => e.message(),
            PolicyError::Waqf(e) => e.message(),
        }
    }
}

/// The side effects the host must perform after a committed write.
#[derive(Debug, Clone, PartialEq, Eq)]
pub enum CommitOutcome {
    /// Nothing to do.
    NoReaction,
    /// An admin's active flag was toggled with quorum; log this action.
    AdminActivation(ActivationAction),
    /// A cause was written; log the summary.
    CauseChange(CauseChangeSummary),
    /// A waqf was written; record the audit entry and, when flagged, raise a
    /// critical alert.
    WaqfChange(WaqfChangeOutcome),
    /// An audit record was written; `true` asks for a critical alert.
    AuditAlert(bool),
}

/// The previous version, as a value.
pub open spec fn spec_deref_doc(p: Option<&Document>) -> Option<Document> {
    match p {
        Some(d) => Some(*d),
        None => None,
    }
}

/// A previous version must be of the same kind as the proposal; the store
/// keys a collection to one entity kind, so the host always satisfies this.
pub open spec fn spec_same_kind(proposed: Document, prev: Option<Document>) -> bool {
    match prev {
        None => true,
        Some(p) => match (proposed, p) {
            (Document::Admin(_), Document::Admin(_)) => true,
            (Document::Cause(_), Document::Cause(_)) => true,
            (Document::Waqf(_), Document::Waqf(_)) => true,
            (Document::AdminAudit(_), Document::AdminAudit(_)) => true,
            _ => false,
        },
    }
}

/// The previous admin version, if the previous document was one.
pub open spec fn spec_prev_admin(prev: Option<Document>) -> Option<AdminUser> {
    match prev {
        Some(Document::Admin(a)) => Some(a),
        _ => None,
    }
}

/// The previous waqf version, if the previous document was one.
pub open spec fn spec_prev_waqf(prev: Option<Document>) -> Option<WaqfData> {
    match prev {
        Some(Document::Waqf(w)) => Some(w),
        _ => None,
    }
}

/// Every pre-commit condition on a write, by document kind: admins must pass
/// the structural assertion, the privilege-escalation guard and the
/// cross-admin modification guard; causes their structural and business
/// validation; waqfs their structural validation, the creation minimum, the
/// status machine and the caller's authority; audit records have no
/// pre-commit conditions.
pub open spec fn spec_write_admissible(
    key: Seq<char>,
    proposed: Document,
    prev: Option<Document>,
    caller: Seq<char>,
    now_ms: u64,
    admins: Seq<AdminRecord>,
) -> bool {
    match proposed {
        Document::Admin(a) => {
            &&& spec_admin_write_ok(key, a, spec_prev_admin(prev), now_ms, admins)
            &&& spec_admin_change_ok(a, caller)
            &&& spec_can_modify_admin(admins, caller, key)
        },
        Document::Cause(c) => spec_cause_valid(c) && spec_valid_category(c.category@),
        Document::Waqf(w) => {
            &&& spec_waqf_valid(w)
            &&& (prev is None ==> w.initial_capital >= MIN_WAQF_AMOUNT_CENTS)
            &&& (spec_prev_waqf(prev) matches Some(p) ==> spec_status_transition_ok(
                p.status,
                w.status,
            ) && spec_check_permissions_ok(p, w, caller, spec_is_super_admin(admins, caller)))
        },
        Document::AdminAudit(_) => true,
    }
}

/// The pre-commit assertion: decides whether the proposed write is
/// admissible, short-circuiting on the first failed check of its kind.
pub fn assert_write(
    key: &str,
    proposed: &Document,
    previous: Option<&Document>,
    ctx: &RequestContext,
    store: &StoreSnapshot,
) -> (r: Result<(), PolicyError>)
    requires
        spec_same_kind(*proposed, spec_deref_doc(previous)),
    ensures
        r.is_ok() <==> spec_write_admissible(
            key@,
            *proposed,
            spec_deref_doc(previous),
            ctx.caller@,
            ctx.now_ms,
            store.admins@,
        ),
        (r matches Err(PolicyError::Admin(_))) ==> proposed is Admin,
        (r matches Err(PolicyError::Cause(_))) ==> proposed is Cause,
        (r matches Err(PolicyError::Waqf(_))) ==> proposed is Waqf,
{
    match proposed {
        Document::Admin(a) => {
            let prev_admin: Option<&AdminUser> = match previous {
                Some(Document::Admin(p)) => Some(p),
                _ => None,
            };
            if let Err(e) = assert_admin_operations(
                key,
                a,
                prev_admin,
                ctx.now_ms,
                &store.admins,
            ) {
                return Err(PolicyError::Admin(e));
            }
            if a.role == AdminRole::SuperAdmin && !str_eq(
                ctx.caller.as_str(),
                a.created_by.as_str(),
            ) {
                return Err(PolicyError::Admin(AdminError::SuperAdminNotCreator));
            }
            if !can_modify_admin(&store.admins, ctx.caller.as_str(), key) {
                return Err(PolicyError::Admin(AdminError::ModificationNotAuthorized));
            }
            Ok(())
        },
        Document::Cause(c) => {
            match assert_cause_operations(c, ctx.caller.as_str()) {
                Ok(()) => Ok(()),
                Err(e) => Err(PolicyError::Cause(e)),
            }
        },
        Document::Waqf(w) => {
            let prev_waqf: Option<&WaqfData> = match previous {
                Some(Document::Waqf(p)) => Some(p),
                _ => None,
            };
            if let Err(e) = assert_waqf_operations(w, prev_waqf.is_none()) {
                return Err(PolicyError::Waqf(e));
            }
            if let Some(p) = prev_waqf {
                if let Err(e) = validate_status_transition(&p.status, &w.status) {
                    return Err(PolicyError::Waqf(e));
                }
                let is_admin = is_super_admin(&store.admins, ctx.caller.as_str());
                if let Err(e) = check_permissions(p, w, ctx.caller.as_str(), is_admin) {
                    return Err(PolicyError::Waqf(e));
                }
            }
            Ok(())
        },
        Document::AdminAudit(_) => Ok(()),
    }
}

/// Every pre-commit condition on a deletion, by document kind.
pub open spec fn spec_delete_admissible(
    key: Seq<char>,
    current: Document,
    caller: Seq<char>,
    now_ms: u64,
    admins: Seq<AdminRecord>,
) -> bool {
    match current {
        Document::Admin(a) => spec_admin_delete_ok(key, a, caller, now_ms, admins),
        Document::Cause(c) => !c.is_active && !(c.raised_amount matches Some(ra) && ra > 0),
        Document::Waqf(w) => w.status != WaqfStatus::Active && caller == w.created_by@,
        Document::AdminAudit(_) => true,
    }
}

/// The pre-commit assertion for deleting a document.
pub fn assert_delete(
    key: &str,
    current: &Document,
    ctx: &RequestContext,
    store: &StoreSnapshot,
) -> (r: Result<(), PolicyError>)
    ensures
        r.is_ok() <==> spec_delete_admissible(
            key@,
            *current,
            ctx.caller@,
            ctx.now_ms,
            store.admins@,
        ),
        (r matches Err(PolicyError::Admin(_))) ==> current is Admin,
        (r matches Err(PolicyError::Cause(_))) ==> current is Cause,
        (r matches Err(PolicyError::Waqf(_))) ==> current is Waqf,
{
    match current {
        Document::Admin(a) => {
            match assert_admin_deletion(key, a, ctx.caller.as_str(), ctx.now_ms, &store.admins) {
                Ok(()) => Ok(()),
                Err(e) => Err(PolicyError::Admin(e)),
            }
        },
        Document::Cause(c) => {
            match assert_cause_deletion(c) {
                Ok(()) => Ok(()),
                Err(e) => Err(PolicyError::Cause(e)),
            }
        },
        Document::Waqf(w) => {
            match assert_waqf_deletion(w, ctx.caller.as_str()) {
                Ok(()) => Ok(()),
                Err(e) => Err(PolicyError::Waqf(e)),
            }
        },
        Document::AdminAudit(_) => Ok(()),
    }
}

/// The post-commit conditions: the committed write is validated once more
/// where the original flow demands it, and the reactions are derived.
pub open spec fn spec_commit_admissible(
    key: Seq<char>,
    new: Document,
    prev: Option<Document>,
    caller: Seq<char>,
    now_ms: u64,
    approvals: Seq<Approval>,
    admins: Seq<AdminRecord>,
    audit_log: Seq<AuditRecord>,
) -> bool {
    match new {
        Document::Admin(a) => spec_admin_change_ok(a, caller) && (spec_activation_change(
            spec_prev_admin(prev),
            a,
        ) ==> spec_count_super_approvals(approvals, admins, key) >= ACTIVATION_QUORUM),
        Document::Cause(_) => true,
        Document::Waqf(w) => !(spec_prev_waqf(prev) matches Some(p) && caller == p.created_by@
            && spec_changed_restricted_fields(p, w).len() > 0),
        Document::AdminAudit(rec) => spec_valid_audit_action(rec.action@)
            && spec_count_recent_audits(audit_log, rec.performed_by@, spec_audit_cutoff(now_ms))
            <= AUDIT_RATE_LIMIT,
    }
}

/// The post-commit reaction: validates the committed write where the flow
/// demands it and returns the audit and alert work the host must perform.
/// A failure here surfaces on the triggering write; the document itself
/// stays committed, and the host must reconcile out of band.
pub fn on_committed(
    key: &str,
    new: &Document,
    previous: Option<&Document>,
    ctx: &RequestContext,
    store: &StoreSnapshot,
) -> (r: Result<CommitOutcome, PolicyError>)
    requires
        spec_same_kind(*new, spec_deref_doc(previous)),
    ensures
        r.is_ok() <==> spec_commit_admissible(
            key@,
            *new,
            spec_deref_doc(previous),
            ctx.caller@,
            ctx.now_ms,
            store.approvals@,
            store.admins@,
            store.audit_log@,
        ),
        r matches Ok(o) ==> match *new {
            Document::Admin(a) => {
                if spec_activation_change(spec_deref_admin_prev(previous), a) {
                    o matches CommitOutcome::AdminActivation(act) && act == (if a.active {
                        ActivationAction::ActivateAdmin
                    } else {
                        ActivationAction::DeactivateAdmin
                    })
                } else {
                    o is NoReaction
                }
            },
            Document::Cause(c) => o matches CommitOutcome::CauseChange(s) && s.operation == (
            if previous is Some {
                CauseOperation::Update
            } else {
                CauseOperation::Create
            }) && s.approved == (c.status == CauseStatus::Approved) && s.completed == (c.status
                == CauseStatus::Completed),
            Document::Waqf(w) => o matches CommitOutcome::WaqfChange(wo) && {
                &&& wo.audit.waqf_id@ == key@
                &&& wo.audit.action == spec_infer_waqf_action(
                    spec_prev_waqf(spec_deref_doc(previous)),
                    w,
                )
                &&& wo.audit.performed_by@ == ctx.caller@
                &&& wo.audit.timestamp == ctx.now_ms
                &&& wo.alert == crate::waqf::spec_critical_waqf_action(wo.audit.action)
            },
            Document::AdminAudit(rec) => o matches CommitOutcome::AuditAlert(alert) && alert
                == spec_critical_audit_action(rec.action@),
        },
        (r matches Err(PolicyError::Admin(_))) ==> (new is Admin || new is AdminAudit),
        (r matches Err(PolicyError::Waqf(_))) ==> new is Waqf,
        !(r matches Err(PolicyError::Cause(_))),
{
    match new {
        Document::Admin(a) => {
            if let Err(e) = handle_admin_changes(a, ctx.caller.as_str()) {
                return Err(PolicyError::Admin(e));
            }
            let prev_admin: Option<&AdminUser> = match previous {
                Some(Document::Admin(p)) => Some(p),
                _ => None,
            };
            match handle_admin_activation(key, prev_admin, a, &store.approvals, &store.admins) {
                Err(e) => Err(PolicyError::Admin(e)),
                Ok(None) => Ok(CommitOutcome::NoReaction),
                Ok(Some(action)) => Ok(CommitOutcome::AdminActivation(action)),
            }
        },
        Document::Cause(c) => {
            let summary = handle_cause_changes(c, previous.is_some());
            Ok(CommitOutcome::CauseChange(summary))
        },
        Document::Waqf(w) => {
            let prev_waqf: Option<&WaqfData> = match previous {
                Some(Document::Waqf(p)) => Some(p),
                _ => None,
            };
            match handle_waqf_changes(key, w, prev_waqf, ctx.caller.as_str(), ctx.now_ms) {
                Err(e) => Err(PolicyError::Waqf(e)),
                Ok(outcome) => Ok(CommitOutcome::WaqfChange(outcome)),
            }
        },
        Document::AdminAudit(rec) => {
            match process_audit_logs(rec, &store.audit_log, ctx.now_ms) {
                Err(e) => Err(PolicyError::Admin(e)),
                Ok(alert) => Ok(CommitOutcome::AuditAlert(alert)),
            }
        },
    }
}

/// The previous admin version behind an optional document reference.
pub open spec fn spec_deref_admin_prev(p: Option<&Document>) -> Option<AdminUser> {
    spec_prev_admin(spec_deref_doc(p))
}

/// An admin write that toggles the active flag is admissible after commit
/// only with the approval quorum on record: at least two approvals targeting
/// the admin, each authored by a super admin.
pub proof fn lemma_activation_requires_quorum(
    key: Seq<char>,
    a: AdminUser,
    prev: Option<Document>,
    caller: Seq<char>,
    now_ms: u64,
    approvals: Seq<Approval>,
    admins: Seq<AdminRecord>,
    audit_log: Seq<AuditRecord>,
)
    requires
        spec_commit_admissible(
            key,
            Document::Admin(a),
            prev,
            caller,
            now_ms,
            approvals,
            admins,
            audit_log,
        ),
        spec_activation_change(spec_prev_admin(prev), a),
    ensures
        spec_count_super_approvals(approvals, admins, key) >= ACTIVATION_QUORUM,
{
}

} // verus!
