//! Charitable causes: structural validation, the status/activity state
//! machine, category and image-URL rules, and the deletion guard.
//!
//! Monetary amounts are fixed-point values in cents, so an amount of
//! 1_000_000_000 is ten million currency units, the cap on a fundraising
//! goal.

use vstd::prelude::*;
use vstd::string::{StrSliceExecFns, StringExecFns};

use crate::text::{
    contains_ic, ends_with_ic, is_blank, spec_contains_ic, spec_ends_with_ic, spec_eq_ic,
    spec_is_blank, spec_starts_with, starts_with, str_eq_ic,
};

verus! {

/// Largest fundraising goal, in cents (ten million currency units).
pub const MAX_GOAL_CENTS: i64 = 1_000_000_000;

/// The approval-workflow states of a cause.
#[derive(Clone, Copy, Debug, PartialEq, Eq, Structural)]
pub enum CauseStatus {
    Draft,
    Pending,
    Approved,
    Rejected,
    Paused,
    Completed,
}

/// The optional urgency marker on a cause.
#[derive(Clone, Copy, Debug, PartialEq, Eq, Structural)]
pub enum CausePriority {
    Low,
    Normal,
    High,
    Urgent,
}

/// A charitable-campaign document.
#[derive(Debug, Clone)]
pub struct Cause {
    pub id: String,
    pub title: String,
    pub description: String,
    pub category: String,
    /// Fundraising goal in cents; must be positive and at most
    /// [`MAX_GOAL_CENTS`].
    pub goal_amount: i64,
    /// Amount raised so far in cents, when known.
    pub raised_amount: Option<i64>,
    pub image_url: Option<String>,
    pub status: CauseStatus,
    pub is_active: bool,
    pub priority: Option<CausePriority>,
    pub created_by: String,
    pub created_at: Option<u64>,
    pub updated_at: Option<u64>,
    pub updated_by: Option<String>,
    pub approved_by: Option<String>,
    pub approved_at: Option<u64>,
    pub deleted: Option<bool>,
    pub deleted_at: Option<u64>,
    pub deleted_by: Option<String>,
}

/// Why a cause write or deletion was refused.
#[derive(Debug, Clone, PartialEq, Eq)]
pub enum CauseError {
    MissingId,
    MissingTitle,
    TitleTooLong,
    MissingDescription,
    DescriptionTooLong,
    MissingCategory,
    GoalNotPositive,
    GoalTooLarge,
    RaisedNegative,
    RaisedExceedsLimit,
    /// This status forbids the active flag; carries the status.
    StatusCannotBeActive(CauseStatus),
    /// An approved cause must carry approver metadata.
    ApprovalMetadataMissing,
    /// A completed cause must have raised at least 80% of its goal.
    CompletedUnderfunded,
    InvalidImageUrl,
    MissingCreatedBy,
    /// The category is not in the fixed list; carries the category.
    InvalidCategory(String),
    /// Active causes cannot be deleted.
    ActiveDeletion,
    /// Causes that have received donations cannot be deleted.
    HasDonationsDeletion,
}

impl CauseError {
    /// A human-readable description of the refusal.
    pub fn message(&self) -> String {
        match self {
            CauseError::MissingId => String::from_str("Cause ID is required"),
            CauseError::MissingTitle => String::from_str("Cause title is required"),
            CauseError::TitleTooLong => String::from_str("Cause title must be 200 characters or less"),
            CauseError::MissingDescription => String::from_str("Cause description is required"),
            CauseError::DescriptionTooLong => String::from_str("Cause description must be 5000 characters or less"),
            CauseError::MissingCategory => String::from_str("Cause category is required"),
            CauseError::GoalNotPositive => String::from_str("Goal amount must be positive"),
            CauseError::GoalTooLarge => String::from_str("Goal amount cannot exceed 10 million"),
            CauseError::RaisedNegative => String::from_str("Raised amount cannot be negative"),
            CauseError::RaisedExceedsLimit => String::from_str("Raised amount cannot exceed 150% of goal amount"),
            CauseError::StatusCannotBeActive(_) => String::from_str("Causes in this status cannot be active"),
            CauseError::ApprovalMetadataMissing => String::from_str("Approved causes must have approval metadata"),
            CauseError::CompletedUnderfunded => String::from_str("Completed causes should have raised at least 80% of goal"),
            CauseError::InvalidImageUrl => String::from_str("Invalid image URL format"),
            CauseError::MissingCreatedBy => String::from_str("Created by field is required"),
            CauseError::InvalidCategory(c) => String::from_str("Invalid category: ").concat(c.as_str()),
            CauseError::ActiveDeletion => String::from_str("Cannot delete active causes. Pause or complete the cause first."),
            CauseError::HasDonationsDeletion => String::from_str("Cannot delete causes that have received donations."),
        }
    }
}

/// The text fields a cause must fill in, with their length caps.
pub open spec fn spec_cause_text_ok(c: Cause) -> bool {
    &&& !spec_is_blank(c.id@)
    &&& !spec_is_blank(c.title@)
    &&& c.title@.len() <= 200
    &&& !spec_is_blank(c.description@)
    &&& c.description@.len() <= 5000
    &&& !spec_is_blank(c.category@)
}

/// The bounds on the goal and raised amounts: the goal is positive and at
/// most the cap, and any known raised amount is non-negative and at most
/// one and a half times the goal.
pub open spec fn spec_cause_amounts_ok(c: Cause) -> bool {
    &&& c.goal_amount >= 1
    &&& c.goal_amount <= MAX_GOAL_CENTS
    &&& (c.raised_amount matches Some(r) ==> r >= 0 && r * 2 <= c.goal_amount * 3)
}

/// The per-status activity invariant: only approved causes may be active;
/// approval requires approver metadata; completion requires at least 80% of
/// the goal raised (boundary inclusive) whenever the raised amount is known.
pub open spec fn spec_cause_status_ok(c: Cause) -> bool {
    match c.status {
        CauseStatus::Draft => !c.is_active,
        CauseStatus::Pending => !c.is_active,
        CauseStatus::Approved => c.approved_by is Some && c.approved_at is Some,
        CauseStatus::Rejected => !c.is_active,
        CauseStatus::Paused => !c.is_active,
        CauseStatus::Completed => !c.is_active && (c.raised_amount matches Some(r) ==> r * 5
            >= c.goal_amount * 4),
    }
}

/// A usable image URL: at most 2048 characters, `http(s)`, and either a
/// known image extension or a known image-hosting service.
pub open spec fn spec_valid_image_url(u: Seq<char>) -> bool {
    &&& u.len() <= 2048
    &&& (spec_starts_with(u, "http://"@) || spec_starts_with(u, "https://"@))
    &&& {
        ||| spec_ends_with_ic(u, ".jpg"@)
        ||| spec_ends_with_ic(u, ".jpeg"@)
        ||| spec_ends_with_ic(u, ".png"@)
        ||| spec_ends_with_ic(u, ".gif"@)
        ||| spec_ends_with_ic(u, ".webp"@)
        ||| spec_ends_with_ic(u, ".svg"@)
        ||| spec_contains_ic(u, "imgur.com"@)
        ||| spec_contains_ic(u, "cloudinary.com"@)
        ||| spec_contains_ic(u, "amazonaws.com"@)
        ||| spec_contains_ic(u, "googleusercontent.com"@)
    }
}

/// An absent or empty image URL passes; a present one must be usable.
pub open spec fn spec_cause_image_ok(c: Cause) -> bool {
    c.image_url matches Some(u) ==> (u@.len() == 0 || spec_valid_image_url(u@))
}

/// The creator field must be filled in.
pub open spec fn spec_cause_creator_ok(c: Cause) -> bool {
    !spec_is_blank(c.created_by@)
}

/// Structural validity of a cause document.
pub open spec fn spec_cause_valid(c: Cause) -> bool {
    &&& spec_cause_text_ok(c)
    &&& spec_cause_amounts_ok(c)
    &&& spec_cause_status_ok(c)
    &&& spec_cause_image_ok(c)
    &&& spec_cause_creator_ok(c)
}

/// The category is in the fixed list, compared ignoring ASCII case.
pub open spec fn spec_valid_category(c: Seq<char>) -> bool {
    ||| spec_eq_ic(c, "education"@)
    ||| spec_eq_ic(c, "healthcare"@)
    ||| spec_eq_ic(c, "poverty_alleviation"@)
    ||| spec_eq_ic(c, "disaster_relief"@)
    ||| spec_eq_ic(c, "environmental"@)
    ||| spec_eq_ic(c, "community_development"@)
    ||| spec_eq_ic(c, "orphan_care"@)
    ||| spec_eq_ic(c, "elder_care"@)
    ||| spec_eq_ic(c, "humanitarian_aid"@)
    ||| spec_eq_ic(c, "religious_services"@)
    ||| spec_eq_ic(c, "other"@)
}

/// Decides whether a URL is usable as a cause image.
pub fn is_valid_image_url(url: &str) -> (r: bool)
    ensures
        r == spec_valid_image_url(url@),
{
    if url.unicode_len() > 2048 {
        return false;
    }
    if !starts_with(url, "http://") && !starts_with(url, "https://") {
        return false;
    }
    ends_with_ic(url, ".jpg") || ends_with_ic(url, ".jpeg") || ends_with_ic(url, ".png")
        || ends_with_ic(url, ".gif") || ends_with_ic(url, ".webp") || ends_with_ic(url, ".svg")
        || contains_ic(url, "imgur.com") || contains_ic(url, "cloudinary.com") || contains_ic(
        url,
        "amazonaws.com",
    ) || contains_ic(url, "googleusercontent.com")
}

/// Checks the category against the fixed list, ignoring ASCII case.
pub fn validate_cause_category(category: &str) -> (r: Result<(), CauseError>)
    ensures
        r.is_ok() <==> spec_valid_category(category@),
        r.is_err() ==> r matches Err(CauseError::InvalidCategory(_)),
        r matches Err(CauseError::InvalidCategory(c)) ==> c@ == category@,
{
    let valid = str_eq_ic(category, "education") || str_eq_ic(category, "healthcare") || str_eq_ic(
        category,
        "poverty_alleviation",
    ) || str_eq_ic(category, "disaster_relief") || str_eq_ic(category, "environmental")
        || str_eq_ic(category, "community_development") || str_eq_ic(category, "orphan_care")
        || str_eq_ic(category, "elder_care") || str_eq_ic(category, "humanitarian_aid")
        || str_eq_ic(category, "religious_services") || str_eq_ic(category, "other");
    if valid {
        Ok(())
    } else {
        Err(CauseError::InvalidCategory(category.to_owned()))
    }
}

/// Checks the per-status activity invariant of a cause.
pub fn validate_cause_status_transition(cause: &Cause) -> (r: Result<(), CauseError>)
    ensures
        r.is_ok() <==> spec_cause_status_ok(*cause),
        (r matches Err(CauseError::StatusCannotBeActive(_))) <==> (cause.status
            != CauseStatus::Approved && cause.is_active),
        r matches Err(CauseError::StatusCannotBeActive(st)) ==> st == cause.status,
        (r matches Err(CauseError::ApprovalMetadataMissing)) <==> (cause.status
            == CauseStatus::Approved && (cause.approved_by is None || cause.approved_at is None)),
        (r matches Err(CauseError::CompletedUnderfunded)) <==> (cause.status
            == CauseStatus::Completed && !cause.is_active && (cause.raised_amount matches Some(
        ra,
        ) && ra * 5 < cause.goal_amount * 4)),
{
    match cause.status {
        CauseStatus::Draft | CauseStatus::Pending | CauseStatus::Rejected | CauseStatus::Paused => {
            if cause.is_active {
                return Err(CauseError::StatusCannotBeActive(cause.status));
            }
        },
        CauseStatus::Approved => {
            if cause.approved_by.is_none() || cause.approved_at.is_none() {
                return Err(CauseError::ApprovalMetadataMissing);
            }
        },
        CauseStatus::Completed => {
            if cause.is_active {
                return Err(CauseError::StatusCannotBeActive(cause.status));
            }
            if let Some(raised) = cause.raised_amount {
                if (raised as i128) * 5 < (cause.goal_amount as i128) * 4 {
                    return Err(CauseError::CompletedUnderfunded);
                }
            }
        },
    }
    Ok(())
}

/// Structural validation of a cause document, checked in order: required
/// text fields and their caps, amount bounds, the status invariant, the
/// image URL, and the creator field.
pub fn validate_cause_data(cause: &Cause) -> (r: Result<(), CauseError>)
    ensures
        r.is_ok() <==> spec_cause_valid(*cause),
        (r matches Err(CauseError::MissingId)) <==> spec_is_blank(cause.id@),
        (r matches Err(CauseError::MissingTitle)) <==> (!spec_is_blank(cause.id@) && spec_is_blank(
            cause.title@,
        )),
        (r matches Err(CauseError::TitleTooLong)) <==> (!spec_is_blank(cause.id@)
            && !spec_is_blank(cause.title@) && cause.title@.len() > 200),
        (r matches Err(CauseError::MissingDescription)) <==> (!spec_is_blank(cause.id@)
            && !spec_is_blank(cause.title@) && cause.title@.len() <= 200 && spec_is_blank(
            cause.description@,
        )),
        (r matches Err(CauseError::DescriptionTooLong)) <==> (!spec_is_blank(cause.id@)
            && !spec_is_blank(cause.title@) && cause.title@.len() <= 200 && !spec_is_blank(
            cause.description@,
        ) && cause.description@.len() > 5000),
        (r matches Err(CauseError::MissingCategory)) <==> (!spec_is_blank(cause.id@)
            && !spec_is_blank(cause.title@) && cause.title@.len() <= 200 && !spec_is_blank(
            cause.description@,
        ) && cause.description@.len() <= 5000 && spec_is_blank(cause.category@)),
        (r matches Err(CauseError::GoalNotPositive)) <==> (spec_cause_text_ok(*cause)
            && cause.goal_amount < 1),
        (r matches Err(CauseError::GoalTooLarge)) <==> (spec_cause_text_ok(*cause)
            && cause.goal_amount >= 1 && cause.goal_amount > MAX_GOAL_CENTS),
        (r matches Err(CauseError::RaisedNegative)) <==> (spec_cause_text_ok(*cause)
            && cause.goal_amount >= 1 && cause.goal_amount <= MAX_GOAL_CENTS
            && (cause.raised_amount matches Some(ra) && ra < 0)),
        (r matches Err(CauseError::RaisedExceedsLimit)) <==> (spec_cause_text_ok(*cause)
            && cause.goal_amount >= 1 && cause.goal_amount <= MAX_GOAL_CENTS
            && (cause.raised_amount matches Some(ra) && ra >= 0 && ra * 2 > cause.goal_amount
            * 3)),
        (r matches Err(CauseError::StatusCannotBeActive(_)) || r matches Err(
            CauseError::ApprovalMetadataMissing,
        ) || r matches Err(CauseError::CompletedUnderfunded)) <==> (spec_cause_text_ok(*cause)
            && spec_cause_amounts_ok(*cause) && !spec_cause_status_ok(*cause)),
        (r matches Err(CauseError::StatusCannotBeActive(_))) ==> (cause.status
            != CauseStatus::Approved && cause.is_active),
        (r matches Err(CauseError::ApprovalMetadataMissing)) ==> (cause.status
            == CauseStatus::Approved && (cause.approved_by is None || cause.approved_at is None)),
        (r matches Err(CauseError::CompletedUnderfunded)) ==> (cause.status
            == CauseStatus::Completed && (cause.raised_amount matches Some(ra) && ra * 5
            < cause.goal_amount * 4)),
        (r matches Err(CauseError::InvalidImageUrl)) <==> (spec_cause_text_ok(*cause)
            && spec_cause_amounts_ok(*cause) && spec_cause_status_ok(*cause)
            && (cause.image_url matches Some(u) && u@.len() > 0 && !spec_valid_image_url(u@))),
        (r matches Err(CauseError::MissingCreatedBy)) <==> (spec_cause_text_ok(*cause)
            && spec_cause_amounts_ok(*cause) && spec_cause_status_ok(*cause)
            && spec_cause_image_ok(*cause) && spec_is_blank(cause.created_by@)),
{
    if is_blank(cause.id.as_str()) {
        return Err(CauseError::MissingId);
    }
    if is_blank(cause.title.as_str()) {
        return Err(CauseError::MissingTitle);
    }
    if cause.title.unicode_len() > 200 {
        return Err(CauseError::TitleTooLong);
    }
    if is_blank(cause.description.as_str()) {
        return Err(CauseError::MissingDescription);
    }
    if cause.description.unicode_len() > 5000 {
        return Err(CauseError::DescriptionTooLong);
    }
    if is_blank(cause.category.as_str()) {
        return Err(CauseError::MissingCategory);
    }
    if cause.goal_amount < 1 {
        return Err(CauseError::GoalNotPositive);
    }
    if cause.goal_amount > MAX_GOAL_CENTS {
        return Err(CauseError::GoalTooLarge);
    }
    if let Some(raised) = cause.raised_amount {
        if raised < 0 {
            return Err(CauseError::RaisedNegative);
        }
        if (raised as i128) * 2 > (cause.goal_amount as i128) * 3 {
            return Err(CauseError::RaisedExceedsLimit);
        }
    }
    if let Err(e) = validate_cause_status_transition(cause) {
        return Err(e);
    }
    if let Some(url) = &cause.image_url {
        if url.unicode_len() > 0 && !is_valid_image_url(url.as_str()) {
            return Err(CauseError::InvalidImageUrl);
        }
    }
    if is_blank(cause.created_by.as_str()) {
        return Err(CauseError::MissingCreatedBy);
    }
    Ok(())
}

/// Caller-permission rules for causes by status; every operation is
/// currently admitted, as the store-level access rules govern instead.
pub fn validate_cause_permissions(cause: &Cause, caller: &str) -> (r: Result<(), CauseError>)
    ensures
        r.is_ok(),
{
    match cause.status {
        CauseStatus::Approved => Ok(()),
        CauseStatus::Rejected => Ok(()),
        _ => Ok(()),
    }
}

/// Rate limiting for cause creation; no limit is currently enforced.
pub fn validate_cause_rate_limits(caller: &str) -> (r: Result<(), CauseError>)
    ensures
        r.is_ok(),
{
    Ok(())
}

/// Business-rule validation for a cause: caller permissions, rate limits,
/// and the category list.
pub fn validate_cause_business_rules(cause: &Cause, caller: &str) -> (r: Result<(), CauseError>)
    ensures
        r.is_ok() <==> spec_valid_category(cause.category@),
        r.is_err() ==> r matches Err(CauseError::InvalidCategory(_)),
{
    if let Err(e) = validate_cause_permissions(cause, caller) {
        return Err(e);
    }
    if let Err(e) = validate_cause_rate_limits(caller) {
        return Err(e);
    }
    validate_cause_category(cause.category.as_str())
}

/// The pre-commit assertion for a write to the cause collection: structural
/// validity, then business rules.
pub fn assert_cause_operations(cause: &Cause, caller: &str) -> (r: Result<(), CauseError>)
    ensures
        r.is_ok() <==> (spec_cause_valid(*cause) && spec_valid_category(cause.category@)),
        (r matches Err(CauseError::InvalidCategory(_))) <==> (spec_cause_valid(*cause)
            && !spec_valid_category(cause.category@)),
        r.is_err() && !(r matches Err(CauseError::InvalidCategory(_))) ==> !spec_cause_valid(
            *cause,
        ),
{
    if let Err(e) = validate_cause_data(cause) {
        return Err(e);
    }
    validate_cause_business_rules(cause, caller)
}

/// The pre-commit assertion for deleting a cause: it must be inactive and
/// must not have received donations.
pub fn assert_cause_deletion(cause: &Cause) -> (r: Result<(), CauseError>)
    ensures
        r.is_ok() <==> (!cause.is_active && !(cause.raised_amount matches Some(ra) && ra > 0)),
        (r matches Err(CauseError::ActiveDeletion)) <==> cause.is_active,
        (r matches Err(CauseError::HasDonationsDeletion)) <==> (!cause.is_active
            && (cause.raised_amount matches Some(ra) && ra > 0)),
{
    if cause.is_active {
        return Err(CauseError::ActiveDeletion);
    }
    if let Some(raised) = cause.raised_amount {
        if raised > 0 {
            return Err(CauseError::HasDonationsDeletion);
        }
    }
    Ok(())
}

/// Whether a committed write created the document or updated it.
#[derive(Clone, Copy, Debug, PartialEq, Eq, Structural)]
pub enum CauseOperation {
    Create,
    Update,
}

/// What a committed cause write amounted to; the host logs it.
#[derive(Debug, Clone, PartialEq, Eq)]
pub struct CauseChangeSummary {
    pub operation: CauseOperation,
    /// The new version is approved, which the host reports prominently.
    pub approved: bool,
    /// The new version is completed, which the host reports prominently.
    pub completed: bool,
}

/// Summarises a committed cause write for the host's audit logging.
pub fn handle_cause_changes(cause: &Cause, had_previous: bool) -> (r: CauseChangeSummary)
    ensures
        r.operation == (if had_previous {
            CauseOperation::Update
        } else {
            CauseOperation::Create
        }),
        r.approved == (cause.status == CauseStatus::Approved),
        r.completed == (cause.status == CauseStatus::Completed),
{
    CauseChangeSummary {
        operation: if had_previous {
            CauseOperation::Update
        } else {
            CauseOperation::Create
        },
        approved: cause.status == CauseStatus::Approved,
        completed: cause.status == CauseStatus::Completed,
    }
}

/// A cause accepted as completed has raised at least 80% of its goal
/// whenever the raised amount is known; the boundary is inclusive.
pub proof fn lemma_completed_cause_funding(c: Cause)
    requires
        spec_cause_status_ok(c),
        c.status == CauseStatus::Completed,
        c.raised_amount is Some,
    ensures
        c.raised_amount->0 * 5 >= c.goal_amount * 4,
{
}

} // verus!
