use signup::code::{generate_code, to_code_string, Code, CodeType};

const MINUTE: i64 = 60000;

#[test]
fn generated_code_is_six_digits_without_leading_zero() {
    for _ in 0..50 {
        let s = generate_code();
        assert_eq!(s.len(), 6);
        assert!(s.chars().all(|c| c.is_ascii_digit()));
        assert!(!s.starts_with('0'));
        let n: u32 = s.parse().unwrap();
        assert!((100000..=999999).contains(&n));
    }
}

#[test]
fn code_string_width_is_fixed() {
    assert_eq!(to_code_string(100000), "100000");
    assert_eq!(to_code_string(999999), "999999");
    assert_eq!(to_code_string(123456), "123456");
    assert_eq!(to_code_string(100001), "100001");
}

#[test]
fn new_code_record_fields() {
    let now = 1_000_000;
    let c = Code::new(
        7,
        String::from("a@x.com"),
        String::from("123456"),
        CodeType::Registration,
        15,
        now,
    );
    assert_eq!(c.id, 7);
    assert_eq!(c.email, "a@x.com");
    assert_eq!(c.code, "123456");
    assert!(c.active);
    assert_eq!(c.created_at, now);
    assert_eq!(c.expired_at, now + 15 * MINUTE);
}

#[test]
fn validity_window_and_exact_match() {
    let now = 50_000;
    let c = Code::new(
        1,
        String::from("a@x.com"),
        String::from("654321"),
        CodeType::Registration,
        15,
        now,
    );
    // valid immediately after creation
    assert!(c.is_valid(&String::from("654321"), now));
    // still valid at the expiry instant itself
    assert!(c.is_valid(&String::from("654321"), now + 15 * MINUTE));
    // exact string comparison: near misses fail
    assert!(!c.is_valid(&String::from("654322"), now));
    assert!(!c.is_valid(&String::from("65432"), now));
    assert!(!c.is_valid(&String::from("654321 "), now));
}

#[test]
fn expiry_is_independent_of_active_flag() {
    let now = 50_000;
    let c = Code::new(
        1,
        String::from("a@x.com"),
        String::from("654321"),
        CodeType::Registration,
        15,
        now,
    );
    let after = now + 15 * MINUTE + 1;
    // the flag is still nominally active, yet the code is expired and unusable
    assert!(c.active);
    assert!(c.is_expired(after));
    assert!(!c.is_valid(&String::from("654321"), after));
    assert!(!c.is_expired(now + 15 * MINUTE));
}

#[test]
fn leading_zero_codes_keep_their_width() {
    let c = Code::new(
        2,
        String::from("a@x.com"),
        String::from("012345"),
        CodeType::Registration,
        15,
        0,
    );
    assert!(!c.is_valid(&String::from("12345"), 0));
    assert!(c.is_valid(&String::from("012345"), 0));
}

#[test]
fn code_type_wire_name() {
    assert_eq!(CodeType::Registration.as_wire(), "registration");
}
