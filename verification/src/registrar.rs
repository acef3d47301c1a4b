//! The registration submission and the code-request submission, with their
//! validation: every violated rule is collected, deduplicated and reported
//! in one deterministic order.

use vstd::prelude::*;
use vstd::string::*;
use crate::errors::{Error, ValidationIssue};
use crate::user::{Role, User};
use crate::validate::{check_email, check_password_strength, check_username, email_ok,
    valid_password, valid_username};

verus! {

/// A registration submission: email, username, password with confirmation,
/// and the code received by email.
#[derive(Debug)]
pub struct Registrar {
    pub email: String,
    pub username: String,
    pub password: String,
    pub password_confirm: String,
    pub code: String,
}

/// Every rule a submission violates, in canonical order. Each rule appears
/// at most once, so the report is deduplicated by construction.
pub open spec fn spec_registrar_issues(r: Registrar) -> Seq<ValidationIssue> {
    (if !email_ok(r.email@) {
        seq![ValidationIssue::InvalidEmail]
    } else {
        Seq::empty()
    }) + (if !valid_username(r.username@) {
        seq![ValidationIssue::InvalidUsername]
    } else {
        Seq::empty()
    }) + (if !valid_password(r.password@) {
        seq![ValidationIssue::WeakPassword]
    } else {
        Seq::empty()
    }) + (if r.password_confirm@ != r.password@ {
        seq![ValidationIssue::PasswordMismatch]
    } else {
        Seq::empty()
    }) + (if r.code@.len() != 6 {
        seq![ValidationIssue::InvalidCodeLength]
    } else {
        Seq::empty()
    })
}

/// A submission that violates no rule.
pub open spec fn valid_registrar(r: Registrar) -> bool {
    &&& email_ok(r.email@)
    &&& valid_username(r.username@)
    &&& valid_password(r.password@)
    &&& r.password_confirm@ == r.password@
    &&& r.code@.len() == 6
}

impl Registrar {
    pub fn new(
        email: String,
        username: String,
        password: String,
        password_confirm: String,
        code: String,
    ) -> (r: Self)
        ensures
            r == (Registrar { email, username, password, password_confirm, code }),
    {
        Registrar { email, username, password, password_confirm, code }
    }

    /// Check the whole submission and collect every violated rule. The
    /// result is empty exactly when the submission is valid; it never stops
    /// at the first violation.
    pub fn validate(&self) -> (issues: Vec<ValidationIssue>)
        ensures
            issues@ == spec_registrar_issues(*self),
            issues@.len() == 0 <==> valid_registrar(*self),
    {
        let mut issues: Vec<ValidationIssue> = Vec::new();
        if !check_email(self.email.as_str()) {
            issues.push(ValidationIssue::InvalidEmail);
        }
        if !check_username(self.username.as_str()) {
            issues.push(ValidationIssue::InvalidUsername);
        }
        if !check_password_strength(self.password.as_str()) {
            issues.push(ValidationIssue::WeakPassword);
        }
        if !(self.password_confirm == self.password) {
            issues.push(ValidationIssue::PasswordMismatch);
        }
        if self.code.as_str().unicode_len() != 6 {
            issues.push(ValidationIssue::InvalidCodeLength);
        }
        proof {
            assert(issues@ =~= spec_registrar_issues(*self));
        }
        issues
    }

    /// Turn a submission into a user account with the plain user role; the
    /// password is hashed here and the plaintext goes no further.
    pub fn build(self, id: u64, now: i64) -> (r: Result<User, Error>)
        ensures
            r matches Ok(u) ==> ({
                &&& u.id == id
                &&& u.email == self.email
                &&& u.username == self.username
                &&& u.role == Role::User
                &&& u.created_at == now
                &&& u.updated_at == now
                &&& u.wf()
                &&& crate::hash::phc_verifies(self.password@, u.spec_password())
            }),
            r matches Err(e) ==> e is Internal,
    {
        User::new(id, self.email, self.username, self.password, Role::User, now)
    }
}

/// The violated rules are reported in strictly ascending canonical order:
/// sorted, without duplicates, the same order for every submission.
pub proof fn lemma_issues_sorted_and_distinct(r: Registrar)
    ensures
        forall|i: int, j: int|
            0 <= i < j < spec_registrar_issues(r).len() ==> (#[trigger] spec_registrar_issues(
                r,
            )[i]).rank() < (#[trigger] spec_registrar_issues(r)[j]).rank(),
{
}

/// A code-request submission: just the email to send a code to.
#[derive(Debug)]
pub struct MailValidator {
    pub email: String,
}

impl MailValidator {
    /// Check the submitted email address; a malformed one is reported as
    /// the single violated rule.
    pub fn validate(&self) -> (r: Result<(), Error>)
        ensures
            r is Ok <==> email_ok(self.email@),
            r matches Err(e) ==> (e matches Error::Validation(v) && v@ == seq![
                ValidationIssue::InvalidEmail,
            ]),
    {
        if check_email(self.email.as_str()) {
            Ok(())
        } else {
            let mut v: Vec<ValidationIssue> = Vec::new();
            v.push(ValidationIssue::InvalidEmail);
            proof {
                assert(v@ =~= seq![ValidationIssue::InvalidEmail]);
            }
            Err(Error::Validation(v))
        }
    }
}

} // verus!
