//! The two workflows. Code issuance: validate the email, refuse it when a
//! user or a live code exists, retire an expired code, generate a fresh
//! code, and persist it only after delivery succeeded. Registration:
//! validate the submission, consume the code exactly once, hash the
//! password, and create the account.
//!
//! Outside collaborators appear as events handed in by the caller: the
//! current time, a fresh record identifier, and the delivery outcome of the
//! email transport.

use vstd::prelude::*;
use crate::code::{generate_code, is_code_chars, Code, CodeType, MILLIS_PER_MINUTE};
use crate::errors::{Conflict, Error, ValidationIssue};
use crate::registrar::{spec_registrar_issues, valid_registrar, Registrar};
use crate::store::{deactivated, has_active_code, has_code_id, has_user_email, has_username,
    one_active_per_email, Database};
use crate::user::{PublicUser, Role, User};
use crate::validate::{check_email, email_ok};
use crate::hash::phc_verifies;

verus! {

/// An active registration code for this email that is not expired at `now`:
/// exactly what blocks a new issuance.
pub open spec fn has_active_unexpired_code(codes: Seq<Code>, email: Seq<char>, now: int) -> bool {
    exists|i: int|
        0 <= i < codes.len() && (#[trigger] codes[i]).active && codes[i].email@ == email
            && codes[i].code_type == CodeType::Registration && now <= codes[i].expired_at
}

/// An active registration code for this email that `submitted` can consume
/// at `now`: active, unexpired, and an exact value match.
pub open spec fn has_usable_code(
    codes: Seq<Code>,
    email: Seq<char>,
    submitted: Seq<char>,
    now: int,
) -> bool {
    exists|i: int|
        0 <= i < codes.len() && (#[trigger] codes[i]).active && codes[i].email@ == email
            && codes[i].code_type == CodeType::Registration && now <= codes[i].expired_at
            && codes[i].code@ == submitted
}

/// `c1` is `c0` after the issuance check retired any expired registration
/// code still flagged active for this email; every other record is
/// unchanged.
pub open spec fn retire_expired_transition(
    c0: Seq<Code>,
    c1: Seq<Code>,
    email: Seq<char>,
    now: int,
) -> bool {
    &&& c1.len() == c0.len()
    &&& forall|i: int|
        0 <= i < c0.len() ==> #[trigger] c1[i] == (if c0[i].active && c0[i].code_type
            == CodeType::Registration && c0[i].email@ == email && now > c0[i].expired_at {
            deactivated(c0[i])
        } else {
            c0[i]
        })
}

/// `c1` is `c0` with exactly one record consumed: an active registration
/// code for `email`, unexpired at `now`, whose value is `submitted`, with
/// its active flag flipped off. Nothing else changes.
pub open spec fn consume_transition(
    c0: Seq<Code>,
    c1: Seq<Code>,
    email: Seq<char>,
    submitted: Seq<char>,
    now: int,
) -> bool {
    exists|i: int|
        0 <= i < c0.len() && (#[trigger] c0[i]).active && c0[i].email@ == email
            && c0[i].code_type == CodeType::Registration && now <= c0[i].expired_at
            && c0[i].code@ == submitted && c1 == c0.update(i, deactivated(c0[i]))
}

/// The shape of the code collection after a successful issuance: one fresh
/// active record appended, any expired active record for the email retired,
/// everything else untouched.
pub open spec fn issued_state(
    c0: Seq<Code>,
    c1: Seq<Code>,
    email: Seq<char>,
    now: int,
    code_expire: int,
) -> bool {
    &&& c1.len() == c0.len() + 1
    &&& retire_expired_transition(c0, c1.take(c0.len() as int), email, now)
    &&& c1.last().active
    &&& c1.last().email@ == email
    &&& c1.last().code_type == CodeType::Registration
    &&& c1.last().created_at == now
    &&& c1.last().expired_at == now + code_expire * MILLIS_PER_MINUTE
    &&& is_code_chars(c1.last().code@)
}

/// Consume the active registration code for `email` iff `submitted` can use
/// it at `now`: the single-use step of registration. Missing, expired,
/// inactive and mismatched codes all fail with the same indistinguishable
/// conflict, to resist enumeration of issued codes.
pub fn consume_code(db: &mut Database, email: &String, submitted: &String, now: i64) -> (r: Result<
    (),
    Error,
>)
    requires
        old(db).wf(),
    ensures
        final(db).wf(),
        final(db).users@ == old(db).users@,
        r is Ok <==> has_usable_code(old(db).codes@, email@, submitted@, now as int),
        r is Ok ==> consume_transition(
            old(db).codes@,
            final(db).codes@,
            email@,
            submitted@,
            now as int,
        ),
        r is Err ==> r == Err::<(), Error>(Error::Conflict(Conflict::InvalidCode))
            && final(db).codes@ == old(db).codes@,
{
    let ghost c0 = db.codes@;
    match Code::find_one_by_email(email, CodeType::Registration, db) {
        Some(c) => {
            if c.is_valid(submitted, now) {
                proof {
                    let j = choose|j: int| 0 <= j < c0.len() && c0[j] == c;
                    assert(c0[j].active && c0[j].id == c.id);
                    assert(has_usable_code(c0, email@, submitted@, now as int));
                }
                match c.deactivate_by_id(db) {
                    Ok(u) => {
                        proof {
                            let j = choose|j: int| 0 <= j < c0.len() && c0[j] == c;
                            let i = choose|i: int|
                                0 <= i < c0.len() && (#[trigger] c0[i]).active && c0[i].id == c.id
                                    && db.codes@ == c0.update(i, deactivated(c0[i]));
                            assert(c0[i].id == c0[j].id);
                            assert(i == j);
                            assert(consume_transition(c0, db.codes@, email@, submitted@, now as int));
                        }
                        Ok(u)
                    },
                    Err(_) => {
                        proof {
                            let j = choose|j: int| 0 <= j < c0.len() && c0[j] == c;
                            assert(false);
                        }
                        Err(Error::Conflict(Conflict::InvalidCode))
                    },
                }
            } else {
                proof {
                    if has_usable_code(c0, email@, submitted@, now as int) {
                        let k = choose|k: int|
                            0 <= k < c0.len() && (#[trigger] c0[k]).active && c0[k].email@ == email@
                                && c0[k].code_type == CodeType::Registration && now as int
                                <= c0[k].expired_at && c0[k].code@ == submitted@;
                        let j = choose|j: int| 0 <= j < c0.len() && c0[j] == c;
                        assert(k == j);
                        assert(false);
                    }
                }
                Err(Error::Conflict(Conflict::InvalidCode))
            }
        },
        None => Err(Error::Conflict(Conflict::InvalidCode)),
    }
}

/// The first phase of code issuance: refuse a malformed email before any
/// side effect, refuse an email that already has an account or a live
/// code, retire an expired code found in the way, and hand back a fresh
/// 6-digit code for the caller to deliver. Nothing is persisted yet: a
/// recipient must never be left with a blocking code they did not receive,
/// so delivery comes first.
pub fn request_registration_code(db: &mut Database, email: &String, now: i64) -> (r: Result<
    String,
    Error,
>)
    requires
        old(db).wf(),
    ensures
        final(db).wf(),
        final(db).users@ == old(db).users@,
        r is Ok <==> email_ok(email@) && !has_user_email(old(db).users@, email@)
            && !has_active_unexpired_code(old(db).codes@, email@, now as int),
        !email_ok(email@) ==> ({
            &&& r matches Err(e) && e matches Error::Validation(v) && v@ == seq![
                ValidationIssue::InvalidEmail,
            ]
            &&& final(db).codes@ == old(db).codes@
        }),
        email_ok(email@) && has_user_email(old(db).users@, email@) ==> r == Err::<String, Error>(
            Error::Conflict(Conflict::UserExists { email: *email }),
        ) && final(db).codes@ == old(db).codes@,
        email_ok(email@) && !has_user_email(old(db).users@, email@) && has_active_unexpired_code(
            old(db).codes@,
            email@,
            now as int,
        ) ==> r == Err::<String, Error>(
            Error::Conflict(Conflict::ActiveCodeExists { email: *email }),
        ) && final(db).codes@ == old(db).codes@,
        r matches Ok(value) ==> ({
            &&& is_code_chars(value@)
            &&& retire_expired_transition(old(db).codes@, final(db).codes@, email@, now as int)
            &&& !has_active_code(final(db).codes@, email@, CodeType::Registration)
            &&& forall|k: int|
                0 <= k < old(db).codes@.len() ==> (#[trigger] final(db).codes@[k]).id == old(
                    db,
                ).codes@[k].id
        }),
{
    let ghost c0 = db.codes@;
    if !check_email(email.as_str()) {
        let mut v: Vec<ValidationIssue> = Vec::new();
        v.push(ValidationIssue::InvalidEmail);
        proof {
            assert(v@ =~= seq![ValidationIssue::InvalidEmail]);
        }
        return Err(Error::Validation(v));
    }
    match User::find_one_by_email(email, db) {
        Some(_) => {
            return Err(Error::Conflict(Conflict::UserExists { email: email.clone() }));
        },
        None => {},
    }
    match Code::find_one_by_email(email, CodeType::Registration, db) {
        Some(c) => {
            if !c.is_expired(now) {
                proof {
                    let j = choose|j: int| 0 <= j < c0.len() && c0[j] == c;
                    assert(has_active_unexpired_code(c0, email@, now as int));
                }
                return Err(Error::Conflict(Conflict::ActiveCodeExists { email: email.clone() }));
            }
            proof {
                if has_active_unexpired_code(c0, email@, now as int) {
                    let k = choose|k: int|
                        0 <= k < c0.len() && (#[trigger] c0[k]).active && c0[k].email@ == email@
                            && c0[k].code_type == CodeType::Registration && now as int
                            <= c0[k].expired_at;
                    let j = choose|j: int| 0 <= j < c0.len() && c0[j] == c;
                    assert(k == j);
                    assert(false);
                }
            }
            match c.deactivate_by_id(db) {
                Ok(_) => {
                    proof {
                        let j = choose|j: int| 0 <= j < c0.len() && c0[j] == c;
                        let i = choose|i: int|
                            0 <= i < c0.len() && (#[trigger] c0[i]).active && c0[i].id == c.id
                                && db.codes@ == c0.update(i, deactivated(c0[i]));
                        assert(c0[i].id == c0[j].id);
                        assert(i == j);
                        assert(now > c.expired_at);
                        assert forall|k: int| 0 <= k < c0.len() implies #[trigger] db.codes@[k]
                            == (if c0[k].active && c0[k].code_type == CodeType::Registration
                                && c0[k].email@ == email@ && now as int > c0[k].expired_at {
                            deactivated(c0[k])
                        } else {
                            c0[k]
                        }) by {
                            if k != i {
                                assert(db.codes@[k] == c0[k]);
                                if c0[k].active && c0[k].code_type == CodeType::Registration
                                    && c0[k].email@ == email@ {
                                    assert(false);
                                }
                            }
                        }
                        assert(retire_expired_transition(c0, db.codes@, email@, now as int));
                        assert forall|k: int|
                            0 <= k < db.codes@.len() implies !((#[trigger] db.codes@[k]).active
                            && db.codes@[k].email@ == email@ && db.codes@[k].code_type
                            == CodeType::Registration) by {
                            if k != i && db.codes@[k].active && db.codes@[k].email@ == email@
                                && db.codes@[k].code_type == CodeType::Registration {
                                assert(db.codes@[k] == c0[k]);
                                assert(false);
                            }
                        }
                    }
                },
                Err(_) => {
                    proof {
                        let j = choose|j: int| 0 <= j < c0.len() && c0[j] == c;
                        assert(false);
                    }
                    return Err(Error::Internal);
                },
            }
        },
        None => {
            proof {
                assert forall|k: int| 0 <= k < db.codes@.len() implies #[trigger] db.codes@[k] == (
                if c0[k].active && c0[k].code_type == CodeType::Registration && c0[k].email@
                    == email@ && now as int > c0[k].expired_at {
                    deactivated(c0[k])
                } else {
                    c0[k]
                }) by {
                    if c0[k].active && c0[k].code_type == CodeType::Registration && c0[k].email@
                        == email@ {
                        assert(has_active_code(c0, email@, CodeType::Registration));
                        assert(false);
                    }
                }
                assert(retire_expired_transition(c0, db.codes@, email@, now as int));
            }
        },
    }
    Ok(generate_code())
}

/// The second phase of code issuance: record the code that was sent, or
/// record nothing when delivery failed (`send_ok` is the transport's
/// outcome) — the one compensating-action rule of the design. The caller
/// hands in the checks it got from the first phase: no live code for the
/// email, and a fresh record identifier.
pub fn record_registration_code(
    db: &mut Database,
    email: &String,
    value: String,
    now: i64,
    code_expire: i64,
    new_id: u64,
    send_ok: bool,
) -> (r: Result<(), Error>)
    requires
        old(db).wf(),
        !has_code_id(old(db).codes@, new_id),
        !has_active_code(old(db).codes@, email@, CodeType::Registration),
        0 <= now,
        0 < code_expire,
        now + code_expire * MILLIS_PER_MINUTE <= i64::MAX,
    ensures
        final(db).wf(),
        final(db).users@ == old(db).users@,
        !send_ok ==> r == Err::<(), Error>(Error::Delivery) && final(db).codes@ == old(db).codes@,
        send_ok ==> r is Ok && final(db).codes@ == old(db).codes@.push(
            (Code {
                id: new_id,
                email: *email,
                code: value,
                code_type: CodeType::Registration,
                active: true,
                created_at: now,
                expired_at: (now + code_expire * MILLIS_PER_MINUTE) as i64,
            }),
        ),
{
    if !send_ok {
        return Err(Error::Delivery);
    }
    let code = Code::new(new_id, email.clone(), value, CodeType::Registration, code_expire, now);
    match Code::create(code, db) {
        Ok(_) => Ok(()),
        Err(_) => {
            proof {
                assert(false);
            }
            Err(Error::Internal)
        },
    }
}

/// The code-issuance workflow in one step, with the delivery outcome handed
/// in as an event: validate, check, retire an expired code, generate, and
/// persist only when delivery succeeded. Success carries no payload: the
/// recipient already holds the code.
pub fn send_registration_code(
    db: &mut Database,
    email: &String,
    now: i64,
    code_expire: i64,
    new_id: u64,
    send_ok: bool,
) -> (r: Result<(), Error>)
    requires
        old(db).wf(),
        !has_code_id(old(db).codes@, new_id),
        0 <= now,
        0 < code_expire,
        now + code_expire * MILLIS_PER_MINUTE <= i64::MAX,
    ensures
        final(db).wf(),
        final(db).users@ == old(db).users@,
        !email_ok(email@) ==> ({
            &&& r matches Err(e) && e matches Error::Validation(v) && v@ == seq![
                ValidationIssue::InvalidEmail,
            ]
            &&& final(db).codes@ == old(db).codes@
        }),
        email_ok(email@) && has_user_email(old(db).users@, email@) ==> r == Err::<(), Error>(
            Error::Conflict(Conflict::UserExists { email: *email }),
        ) && final(db).codes@ == old(db).codes@,
        email_ok(email@) && !has_user_email(old(db).users@, email@) && has_active_unexpired_code(
            old(db).codes@,
            email@,
            now as int,
        ) ==> r == Err::<(), Error>(Error::Conflict(Conflict::ActiveCodeExists { email: *email }))
            && final(db).codes@ == old(db).codes@,
        email_ok(email@) && !has_user_email(old(db).users@, email@) && !has_active_unexpired_code(
            old(db).codes@,
            email@,
            now as int,
        ) && !send_ok ==> r == Err::<(), Error>(Error::Delivery) && retire_expired_transition(
            old(db).codes@,
            final(db).codes@,
            email@,
            now as int,
        ),
        email_ok(email@) && !has_user_email(old(db).users@, email@) && !has_active_unexpired_code(
            old(db).codes@,
            email@,
            now as int,
        ) && send_ok ==> r is Ok && issued_state(
            old(db).codes@,
            final(db).codes@,
            email@,
            now as int,
            code_expire as int,
        ) && final(db).codes@.last().id == new_id,
{
    let ghost c0 = db.codes@;
    let value = match request_registration_code(db, email, now) {
        Ok(v) => v,
        Err(e) => {
            return Err(e);
        },
    };
    let ghost mid = db.codes@;
    proof {
        assert forall|k: int| 0 <= k < mid.len() implies (#[trigger] mid[k]).id != new_id by {
            assert(mid[k].id == c0[k].id);
        }
    }
    let r = record_registration_code(db, email, value, now, code_expire, new_id, send_ok);
    proof {
        if send_ok {
            assert(db.codes@.take(c0.len() as int) =~= mid);
            assert(db.codes@.last().id == new_id);
            assert(issued_state(c0, db.codes@, email@, now as int, code_expire as int));
        }
    }
    r
}

/// The registration workflow. Validates the whole submission first —
/// reporting every violated rule at once — then consumes the registration
/// code (the single-use step: a second attempt with the same code fails),
/// hashes the password, and creates the account. The response is the public
/// projection of the new account, which carries no password field.
pub fn register(db: &mut Database, registrar: Registrar, now: i64, new_user_id: u64) -> (r: Result<
    PublicUser,
    Error,
>)
    requires
        old(db).wf(),
    ensures
        final(db).wf(),
        !valid_registrar(registrar) ==> ({
            &&& r matches Err(e) && e matches Error::Validation(v) && v@ == spec_registrar_issues(
                registrar,
            )
            &&& final(db).codes@ == old(db).codes@
            &&& final(db).users@ == old(db).users@
        }),
        valid_registrar(registrar) && !has_usable_code(
            old(db).codes@,
            registrar.email@,
            registrar.code@,
            now as int,
        ) ==> r == Err::<PublicUser, Error>(Error::Conflict(Conflict::InvalidCode))
            && final(db).codes@ == old(db).codes@ && final(db).users@ == old(db).users@,
        valid_registrar(registrar) && has_usable_code(
            old(db).codes@,
            registrar.email@,
            registrar.code@,
            now as int,
        ) ==> consume_transition(
            old(db).codes@,
            final(db).codes@,
            registrar.email@,
            registrar.code@,
            now as int,
        ),
        r matches Ok(p) ==> ({
            &&& valid_registrar(registrar)
            &&& has_usable_code(old(db).codes@, registrar.email@, registrar.code@, now as int)
            &&& !has_user_email(old(db).users@, registrar.email@)
            &&& !has_username(old(db).users@, registrar.username@)
            &&& final(db).users@.len() == old(db).users@.len() + 1
            &&& final(db).users@ == old(db).users@.push(final(db).users@.last())
            &&& ({
                let u = final(db).users@.last();
                &&& u.id == new_user_id
                &&& u.email@ == registrar.email@
                &&& u.username@ == registrar.username@
                &&& u.role == Role::User
                &&& u.created_at == now
                &&& u.updated_at == now
                &&& u.wf()
                &&& phc_verifies(registrar.password@, u.spec_password())
                &&& p.id == u.id
                &&& p.email == u.email
                &&& p.username == u.username
                &&& p.role == u.role
                &&& p.created_at == now
                &&& p.updated_at == now
            })
        }),
        r is Err ==> final(db).users@ == old(db).users@,
        valid_registrar(registrar) && has_usable_code(
            old(db).codes@,
            registrar.email@,
            registrar.code@,
            now as int,
        ) && r is Err ==> ({
            ||| r == Err::<PublicUser, Error>(Error::Internal)
            ||| has_user_email(old(db).users@, registrar.email@) && r == Err::<PublicUser, Error>(
                Error::Conflict(
                    Conflict::DuplicateField {
                        collection: crate::store::Collection::Users,
                        field: crate::user::UserField::Email,
                        value: registrar.email,
                    },
                ),
            )
            ||| !has_user_email(old(db).users@, registrar.email@) && has_username(
                old(db).users@,
                registrar.username@,
            ) && r == Err::<PublicUser, Error>(
                Error::Conflict(
                    Conflict::DuplicateField {
                        collection: crate::store::Collection::Users,
                        field: crate::user::UserField::Username,
                        value: registrar.username,
                    },
                ),
            )
        }),
{
    let issues = registrar.validate();
    if issues.len() > 0 {
        return Err(Error::Validation(issues));
    }
    match consume_code(db, &registrar.email, &registrar.code, now) {
        Ok(_) => {},
        Err(e) => {
            return Err(e);
        },
    }
    let user = match registrar.build(new_user_id, now) {
        Ok(u) => u,
        Err(e) => {
            return Err(e);
        },
    };
    let p = user.public_projection();
    match User::create(user, db) {
        Ok(_) => Ok(p),
        Err(e) => Err(e),
    }
}

/// One code is consumed at most once: after any successful consumption for
/// an email, no registration code for that email can be consumed again —
/// whatever value is submitted and whenever the attempt happens — until a
/// new code is issued. Of two racing registration attempts with the same
/// valid code, the one whose conditional update runs first wins and the
/// other fails.
pub proof fn lemma_code_single_use(
    c0: Seq<Code>,
    c1: Seq<Code>,
    email: Seq<char>,
    submitted: Seq<char>,
    now: int,
    submitted2: Seq<char>,
    now2: int,
)
    requires
        one_active_per_email(c0),
        consume_transition(c0, c1, email, submitted, now),
    ensures
        !has_usable_code(c1, email, submitted2, now2),
        !has_active_unexpired_code(c1, email, now2),
{
    let i = choose|i: int|
        0 <= i < c0.len() && (#[trigger] c0[i]).active && c0[i].email@ == email && c0[i].code_type
            == CodeType::Registration && now <= c0[i].expired_at && c0[i].code@ == submitted && c1
            == c0.update(i, deactivated(c0[i]));
    assert forall|k: int|
        0 <= k < c1.len() implies !((#[trigger] c1[k]).active && c1[k].email@ == email
        && c1[k].code_type == CodeType::Registration) by {
        if k != i && c1[k].active && c1[k].email@ == email && c1[k].code_type
            == CodeType::Registration {
            assert(c1[k] == c0[k]);
            assert(false);
        }
    }
}

/// The issuance window: right after a successful issuance the fresh code —
/// and only it — blocks a new issuance for that email, until its expiry
/// passes; once `now2` lies past the expiry, nothing blocks a new issuance.
pub proof fn lemma_issuance_window(
    c0: Seq<Code>,
    c1: Seq<Code>,
    email: Seq<char>,
    now: int,
    code_expire: int,
    now2: int,
)
    requires
        one_active_per_email(c0),
        !has_active_unexpired_code(c0, email, now),
        issued_state(c0, c1, email, now, code_expire),
    ensures
        now2 <= now + code_expire * MILLIS_PER_MINUTE ==> has_active_unexpired_code(
            c1,
            email,
            now2,
        ),
        now2 > now + code_expire * MILLIS_PER_MINUTE ==> !has_active_unexpired_code(
            c1,
            email,
            now2,
        ),
{
    let mid = c1.take(c0.len() as int);
    assert(c1[c1.len() - 1] == c1.last());
    if now2 <= now + code_expire * MILLIS_PER_MINUTE {
        assert(has_active_unexpired_code(c1, email, now2));
    }
    if now2 > now + code_expire * MILLIS_PER_MINUTE {
        assert forall|k: int|
            0 <= k < c1.len() implies !((#[trigger] c1[k]).active && c1[k].email@ == email
            && c1[k].code_type == CodeType::Registration && now2 <= c1[k].expired_at) by {
            if k < c0.len() {
                assert(c1[k] == mid[k]);
                if c1[k].active && c1[k].email@ == email && c1[k].code_type
                    == CodeType::Registration {
                    assert(mid[k] == (if c0[k].active && c0[k].code_type == CodeType::Registration
                        && c0[k].email@ == email && now > c0[k].expired_at {
                        deactivated(c0[k])
                    } else {
                        c0[k]
                    }));
                    assert(c1[k] == c0[k]);
                    assert(now <= c0[k].expired_at);
                    assert(has_active_unexpired_code(c0, email, now));
                    assert(false);
                }
            }
        }
    }
}

} // verus!
