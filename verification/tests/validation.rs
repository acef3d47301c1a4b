use signup::config::{EmailConfig, MongoConfig};
use signup::errors::{Error, ValidationIssue};
use signup::registrar::{MailValidator, Registrar};
use signup::store::Collection;
use signup::user::Role;
use signup::validate::{check_password_strength, check_username};

#[test]
fn password_strength_rules() {
    assert!(check_password_strength("Abcdef12"));
    assert!(check_password_strength("aB3aB3aB3aB3aB3a")); // 16 chars
    assert!(!check_password_strength("Abcde12")); // 7 chars
    assert!(!check_password_strength("Abcdefgh12345678x")); // 17 chars
    assert!(!check_password_strength("abcdef12")); // no uppercase
    assert!(!check_password_strength("ABCDEF12")); // no lowercase
    assert!(!check_password_strength("Abcdefgh")); // no digit
    assert!(!check_password_strength(""));
}

#[test]
fn username_rules() {
    assert!(check_username("alice"));
    assert!(check_username("a1234"));
    assert!(check_username("ab_c1"));
    assert!(check_username("abcdefghijklmnop")); // 16 chars
    assert!(!check_username("abcd")); // too short
    assert!(!check_username("abcdefghijklmnopq")); // 17 chars
    assert!(!check_username("1abcd")); // starts with a digit
    assert!(!check_username("_abcd")); // starts with an underscore
    assert!(!check_username("ab cd")); // space
    assert!(!check_username("ab-cde")); // hyphen
}

#[test]
fn mail_validator_accepts_and_rejects() {
    let ok = MailValidator { email: String::from("a@x.com") };
    assert!(ok.validate().is_ok());
    let bad = MailValidator { email: String::from("not-an-email") };
    match bad.validate() {
        Err(Error::Validation(v)) => assert_eq!(v, vec![ValidationIssue::InvalidEmail]),
        _ => panic!("expected a validation error"),
    }
    let empty = MailValidator { email: String::new() };
    assert!(empty.validate().is_err());
}

fn valid_registrar() -> Registrar {
    Registrar::new(
        String::from("a@x.com"),
        String::from("alice"),
        String::from("Passw0rd"),
        String::from("Passw0rd"),
        String::from("123456"),
    )
}

#[test]
fn valid_submission_has_no_issues() {
    assert_eq!(valid_registrar().validate(), vec![]);
}

#[test]
fn all_violations_are_collected_in_canonical_order() {
    let r = Registrar::new(
        String::from("nope"),
        String::from("a"),
        String::from("weak"),
        String::from("other"),
        String::from("12345"),
    );
    assert_eq!(
        r.validate(),
        vec![
            ValidationIssue::InvalidEmail,
            ValidationIssue::InvalidUsername,
            ValidationIssue::WeakPassword,
            ValidationIssue::PasswordMismatch,
            ValidationIssue::InvalidCodeLength,
        ]
    );
}

#[test]
fn mismatched_confirmation_is_the_single_issue() {
    let mut r = valid_registrar();
    r.password_confirm = String::from("Passw0rd2");
    assert_eq!(r.validate(), vec![ValidationIssue::PasswordMismatch]);
}

#[test]
fn code_must_be_exactly_six_characters() {
    let mut r = valid_registrar();
    r.code = String::from("12345");
    assert_eq!(r.validate(), vec![ValidationIssue::InvalidCodeLength]);
    r.code = String::from("1234567");
    assert_eq!(r.validate(), vec![ValidationIssue::InvalidCodeLength]);
    // any 6 characters pass the shape check; matching is the store's job
    r.code = String::from("abcdef");
    assert_eq!(r.validate(), vec![]);
}

#[test]
fn role_wire_round_trip() {
    for role in [Role::Root, Role::Admin, Role::Author, Role::User] {
        let s = role.as_wire();
        let back = Role::from_wire(s).unwrap();
        assert_eq!(back, role);
    }
    assert_eq!(Role::as_wire(&Role::User), "user");
    assert!(Role::from_wire("boss").is_none());
    assert!(Role::from_wire("").is_none());
    assert_eq!(Role::default(), Role::User);
}

#[test]
fn collection_name_round_trip() {
    assert_eq!(Collection::Users.as_name(), "users");
    assert_eq!(Collection::Codes.as_name(), "codes");
    assert_eq!(Collection::parse("users"), Some(Collection::Users));
    assert_eq!(Collection::parse("codes"), Some(Collection::Codes));
    assert_eq!(Collection::parse("posts"), None);
}

#[test]
fn config_builders_keep_their_fields() {
    let m = MongoConfig::new(String::from("mongodb://localhost"), String::from("app"));
    assert_eq!(m.mongo_url, "mongodb://localhost");
    assert_eq!(m.db_name, "app");
    let e = EmailConfig::new(
        String::from("smtp.example.com"),
        587,
        String::from("noreply@example.com"),
        String::from("contact@example.com"),
        String::from("mailer"),
        String::from("SECRET-REDACTED"),
    );
    assert_eq!(e.host, "smtp.example.com");
    assert_eq!(e.port, 587);
    assert_eq!(e.from, "noreply@example.com");
    assert_eq!(e.reply_to, "contact@example.com");
    assert_eq!(e.username, "mailer");
    assert_eq!(e.password, "SECRET-REDACTED");
}
