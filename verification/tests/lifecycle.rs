use signup::code::{Code, CodeType};
use signup::errors::{Conflict, Error, ValidationIssue};
use signup::registrar::Registrar;
use signup::store::{Collection, Database};
use signup::user::{Role, User, UserField};
use signup::workflow::{
    consume_code, record_registration_code, register, request_registration_code,
    send_registration_code,
};

const MINUTE: i64 = 60000;
const NOW: i64 = 1_700_000_000_000;

fn registrar(email: &str, username: &str, code: &str) -> Registrar {
    Registrar::new(
        String::from(email),
        String::from(username),
        String::from("Passw0rd"),
        String::from("Passw0rd"),
        String::from(code),
    )
}

fn issued_code(db: &Database, email: &str) -> Code {
    Code::find_one_by_email(&String::from(email), CodeType::Registration, db).unwrap()
}

#[test]
fn issue_then_reissue_then_expiry() {
    let mut db = Database::new();
    let email = String::from("a@x.com");
    // issuing for a fresh email succeeds
    assert!(send_registration_code(&mut db, &email, NOW, 15, 1, true).is_ok());
    // issuing again immediately conflicts: the code is still live
    match send_registration_code(&mut db, &email, NOW + 1, 15, 2, true) {
        Err(Error::Conflict(Conflict::ActiveCodeExists { email: e })) => assert_eq!(e, "a@x.com"),
        _ => panic!("expected an active-code conflict"),
    }
    // still blocked at the last instant of the window
    assert!(send_registration_code(&mut db, &email, NOW + 15 * MINUTE, 15, 2, true).is_err());
    // after the TTL elapses a new issuance succeeds and retires the old code
    let later = NOW + 15 * MINUTE + 1;
    assert!(send_registration_code(&mut db, &email, later, 15, 2, true).is_ok());
    assert_eq!(db.codes.len(), 2);
    assert!(!db.codes[0].active);
    assert!(db.codes[1].active);
    assert_eq!(db.codes[1].id, 2);
}

#[test]
fn issue_is_refused_for_malformed_email() {
    let mut db = Database::new();
    match send_registration_code(&mut db, &String::from("not-an-email"), NOW, 15, 1, true) {
        Err(Error::Validation(v)) => assert_eq!(v, vec![ValidationIssue::InvalidEmail]),
        _ => panic!("expected a validation error"),
    }
    assert!(db.codes.is_empty());
}

#[test]
fn issue_is_refused_when_user_exists() {
    let mut db = Database::new();
    let u = User::new(
        1,
        String::from("a@x.com"),
        String::from("alice"),
        String::from("Passw0rd"),
        Role::User,
        NOW,
    )
    .unwrap();
    User::create(u, &mut db).unwrap();
    match send_registration_code(&mut db, &String::from("a@x.com"), NOW, 15, 1, true) {
        Err(Error::Conflict(Conflict::UserExists { email })) => assert_eq!(email, "a@x.com"),
        _ => panic!("expected a user-exists conflict"),
    }
    assert!(db.codes.is_empty());
}

#[test]
fn delivery_failure_persists_nothing() {
    let mut db = Database::new();
    let email = String::from("a@x.com");
    match send_registration_code(&mut db, &email, NOW, 15, 1, false) {
        Err(Error::Delivery) => {},
        _ => panic!("expected a delivery error"),
    }
    // no email received, no blocking code left behind
    assert!(db.codes.is_empty());
    assert!(send_registration_code(&mut db, &email, NOW, 15, 1, true).is_ok());
}

#[test]
fn full_registration_scenario() {
    let mut db = Database::new();
    let email = String::from("a@x.com");
    // issue: the record is active and expires 15 minutes after `now`
    send_registration_code(&mut db, &email, NOW, 15, 1, true).unwrap();
    let c = issued_code(&db, "a@x.com");
    assert!(c.active);
    assert_eq!(c.expired_at, NOW + 15 * MINUTE);
    assert_eq!(c.code.len(), 6);
    // a wrong code is refused, no user is created, the code stays active
    let wrong = if c.code == "111111" { "111112" } else { "111111" };
    match register(&mut db, registrar("a@x.com", "alice", wrong), NOW + 1000, 10) {
        Err(Error::Conflict(Conflict::InvalidCode)) => {},
        _ => panic!("expected the generic invalid-code conflict"),
    }
    assert!(db.users.is_empty());
    assert!(issued_code(&db, "a@x.com").active);
    // the right code registers the user and consumes the code
    let p = register(&mut db, registrar("a@x.com", "alice", &c.code), NOW + 2000, 10).unwrap();
    assert_eq!(p.email, "a@x.com");
    assert_eq!(p.username, "alice");
    assert!(matches!(p.role, Role::User));
    assert_eq!(db.users.len(), 1);
    let u = User::find_one_by_email(&email, &db).unwrap();
    assert_ne!(u.password_hash().as_str(), "Passw0rd");
    assert!(matches!(u.verify_password("Passw0rd"), Ok(true)));
    assert!(!db.codes[0].active);
}

#[test]
fn consumed_code_cannot_be_used_again() {
    let mut db = Database::new();
    let email = String::from("a@x.com");
    send_registration_code(&mut db, &email, NOW, 15, 1, true).unwrap();
    let value = issued_code(&db, "a@x.com").code;
    register(&mut db, registrar("a@x.com", "alice", &value), NOW + 1000, 10).unwrap();
    // well before the TTL elapses, the same code fails with the same
    // indistinguishable conflict as a missing code
    match register(&mut db, registrar("a@x.com", "malice", &value), NOW + 2000, 11) {
        Err(Error::Conflict(Conflict::InvalidCode)) => {},
        _ => panic!("expected the generic invalid-code conflict"),
    }
    assert_eq!(db.users.len(), 1);
}

#[test]
fn racing_consumers_get_exactly_one_win() {
    let mut db = Database::new();
    let code = Code::new(
        5,
        String::from("a@x.com"),
        String::from("424242"),
        CodeType::Registration,
        15,
        NOW,
    );
    Code::create(code.duplicate(), &mut db).unwrap();
    // both racing requests found the code valid; the conditional update
    // decides: the first flip wins, the second finds no active record
    assert!(code.deactivate_by_id(&mut db).is_ok());
    assert!(matches!(code.deactivate_by_id(&mut db), Err(Error::Internal)));
    // at the workflow level: one consume succeeds, the second gets the
    // generic conflict
    let mut db2 = Database::new();
    Code::create(code.duplicate(), &mut db2).unwrap();
    let email = String::from("a@x.com");
    let submitted = String::from("424242");
    assert!(consume_code(&mut db2, &email, &submitted, NOW).is_ok());
    match consume_code(&mut db2, &email, &submitted, NOW) {
        Err(Error::Conflict(Conflict::InvalidCode)) => {},
        _ => panic!("expected the generic invalid-code conflict"),
    }
}

#[test]
fn two_registrations_with_one_code_create_one_user() {
    let mut db = Database::new();
    let email = String::from("a@x.com");
    send_registration_code(&mut db, &email, NOW, 15, 1, true).unwrap();
    let value = issued_code(&db, "a@x.com").code;
    let first = register(&mut db, registrar("a@x.com", "alice", &value), NOW, 10);
    let second = register(&mut db, registrar("a@x.com", "malice", &value), NOW, 11);
    assert!(first.is_ok());
    assert!(matches!(second, Err(Error::Conflict(Conflict::InvalidCode))));
    assert_eq!(db.users.len(), 1);
    assert_eq!(db.users[0].username, "alice");
}

#[test]
fn mismatched_confirmation_writes_nothing() {
    let mut db = Database::new();
    let email = String::from("a@x.com");
    send_registration_code(&mut db, &email, NOW, 15, 1, true).unwrap();
    let value = issued_code(&db, "a@x.com").code;
    let mut r = registrar("a@x.com", "alice", &value);
    r.password_confirm = String::from("Passw0rd2");
    match register(&mut db, r, NOW, 10) {
        Err(Error::Validation(v)) => assert_eq!(v, vec![ValidationIssue::PasswordMismatch]),
        _ => panic!("expected a validation error"),
    }
    // no persistence writes: no user, and the code was not consumed
    assert!(db.users.is_empty());
    assert!(issued_code(&db, "a@x.com").active);
}

#[test]
fn duplicate_username_is_a_structured_conflict() {
    let mut db = Database::new();
    let taken = User::new(
        1,
        String::from("b@x.com"),
        String::from("alice"),
        String::from("Passw0rd"),
        Role::User,
        NOW,
    )
    .unwrap();
    User::create(taken, &mut db).unwrap();
    let email = String::from("a@x.com");
    send_registration_code(&mut db, &email, NOW, 15, 1, true).unwrap();
    let value = issued_code(&db, "a@x.com").code;
    match register(&mut db, registrar("a@x.com", "alice", &value), NOW, 10) {
        Err(Error::Conflict(Conflict::DuplicateField { collection, field, value: v })) => {
            assert_eq!(collection, Collection::Users);
            assert_eq!(field, UserField::Username);
            assert_eq!(v, "alice");
        },
        _ => panic!("expected a duplicate-field conflict"),
    }
    assert_eq!(db.users.len(), 1);
    // the code was consumed by the failed attempt: the accepted tradeoff
    assert!(!db.codes[0].active);
}

#[test]
fn duplicate_email_is_reported_before_username() {
    let mut db = Database::new();
    let code = Code::new(
        1,
        String::from("b@x.com"),
        String::from("777777"),
        CodeType::Registration,
        15,
        NOW,
    );
    Code::create(code, &mut db).unwrap();
    let taken = User::new(
        1,
        String::from("b@x.com"),
        String::from("alice"),
        String::from("Passw0rd"),
        Role::User,
        NOW,
    )
    .unwrap();
    User::create(taken, &mut db).unwrap();
    match register(&mut db, registrar("b@x.com", "alice", "777777"), NOW, 10) {
        Err(Error::Conflict(Conflict::DuplicateField { collection, field, value: v })) => {
            assert_eq!(collection, Collection::Users);
            assert_eq!(field, UserField::Email);
            assert_eq!(v, "b@x.com");
        },
        _ => panic!("expected a duplicate-field conflict"),
    }
}

#[test]
fn two_phase_issuance_orders_delivery_before_persistence() {
    let mut db = Database::new();
    let email = String::from("a@x.com");
    // phase one: checks pass and a code comes back, but nothing is stored
    let value = request_registration_code(&mut db, &email, NOW).unwrap();
    assert_eq!(value.len(), 6);
    assert!(value.chars().all(|c| c.is_ascii_digit()));
    assert!(db.codes.is_empty());
    // delivery failed: still nothing stored
    let r = record_registration_code(&mut db, &email, value.clone(), NOW, 15, 1, false);
    assert!(matches!(r, Err(Error::Delivery)));
    assert!(db.codes.is_empty());
    // delivery succeeded: the record appears with the sent value
    record_registration_code(&mut db, &email, value.clone(), NOW, 15, 1, true).unwrap();
    let c = issued_code(&db, "a@x.com");
    assert_eq!(c.code, value);
    assert_eq!(c.id, 1);
    assert!(c.active);
    assert_eq!(c.created_at, NOW);
    assert_eq!(c.expired_at, NOW + 15 * MINUTE);
}

#[test]
fn request_is_refused_like_the_one_step_workflow() {
    let mut db = Database::new();
    let email = String::from("a@x.com");
    send_registration_code(&mut db, &email, NOW, 15, 1, true).unwrap();
    assert!(matches!(
        request_registration_code(&mut db, &email, NOW + 1),
        Err(Error::Conflict(Conflict::ActiveCodeExists { .. }))
    ));
    // a request after expiry retires the stale record and hands out a code
    let later = NOW + 15 * MINUTE + 1;
    assert!(request_registration_code(&mut db, &email, later).is_ok());
    assert!(!db.codes[0].active);
    assert_eq!(db.codes.len(), 1);
}

#[test]
fn fresh_id_queries() {
    let mut db = Database::new();
    assert!(!db.contains_code_id(1));
    send_registration_code(&mut db, &String::from("a@x.com"), NOW, 15, 1, true).unwrap();
    assert!(db.contains_code_id(1));
    assert!(!db.contains_code_id(2));
}
