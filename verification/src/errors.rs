//! Error taxonomy: validation failures, business-rule conflicts, delivery
//! failures, and unrecoverable internal faults.

use vstd::prelude::*;
use crate::store::Collection;
use crate::user::UserField;

verus! {

/// One violated validation rule. A submission is reported with the full,
/// deduplicated set of violated rules, in this fixed canonical order.
#[derive(Clone, Copy, Debug, PartialEq, Eq, Structural)]
pub enum ValidationIssue {
    /// The email address is not syntactically valid.
    InvalidEmail,
    /// The username is not 5-16 characters starting with a letter, with
    /// only letters, digits and underscores after it.
    InvalidUsername,
    /// The password is not 8-16 characters with at least one uppercase
    /// letter, one lowercase letter and one digit.
    WeakPassword,
    /// The password confirmation does not equal the password.
    PasswordMismatch,
    /// The submitted registration code is not exactly 6 characters.
    InvalidCodeLength,
}

impl ValidationIssue {
    /// Position of the issue in the canonical order of reported issues.
    pub open spec fn rank(self) -> int {
        match self {
            ValidationIssue::InvalidEmail => 0,
            ValidationIssue::InvalidUsername => 1,
            ValidationIssue::WeakPassword => 2,
            ValidationIssue::PasswordMismatch => 3,
            ValidationIssue::InvalidCodeLength => 4,
        }
    }
}

/// A business-rule conflict: the request is well-formed but collides with
/// existing state.
#[derive(Debug)]
pub enum Conflict {
    /// A user with this email already exists (code issuance).
    UserExists { email: String },
    /// An active, unexpired registration code already exists for this email
    /// (code issuance).
    ActiveCodeExists { email: String },
    /// The registration code is missing, expired, inactive or mismatched.
    /// One deliberately indistinguishable variant for all four causes, to
    /// resist enumeration of issued codes.
    InvalidCode,
    /// The persistence layer refused a write because a unique field already
    /// holds this value.
    DuplicateField { collection: Collection, field: UserField, value: String },
}

/// What a workflow can fail with. The in-memory system of record cannot
/// suffer a persistence fault, so no storage-fault variant arises here; a
/// lost record during a conditional update surfaces as `Internal`.
#[derive(Debug)]
pub enum Error {
    /// Malformed or out-of-policy input; carries every violated rule,
    /// deduplicated, in canonical order.
    Validation(Vec<ValidationIssue>),
    /// Business-rule conflict.
    Conflict(Conflict),
    /// The email transport reported a delivery failure.
    Delivery,
    /// Unrecoverable fault: credential-hasher failure or a lost record
    /// during a conditional update (a race or corruption).
    Internal,
}

} // verus!
