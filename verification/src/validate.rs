//! Cross-cutting validation rules: email syntax, username shape, password
//! strength.

use vstd::prelude::*;
use vstd::string::*;
use crate::code::is_ascii_digit_char;

verus! {

/// Whether a string is a syntactically valid email address, in the sense of
/// the HTML5 valid-email-address grammar.
pub uninterp spec fn email_ok(s: Seq<char>) -> bool;

/// Relies on `validator::validate_email`: the HTML5 email-address syntax
/// check, a deterministic function of the characters alone. Its source
/// rejects the empty string outright.
#[verifier::external_body]
pub(crate) fn check_email(s: &str) -> (r: bool)
    ensures
        r == email_ok(s@),
        s@.len() == 0 ==> r == false,
{
    validator::validate_email(s)
}

/// Whether `c` is an ASCII uppercase letter.
pub open spec fn is_upper_char(c: char) -> bool {
    65 <= c as u32 <= 90
}

/// Whether `c` is an ASCII lowercase letter.
pub open spec fn is_lower_char(c: char) -> bool {
    97 <= c as u32 <= 122
}

/// Whether `c` is an ASCII letter.
pub open spec fn is_letter_char(c: char) -> bool {
    is_upper_char(c) || is_lower_char(c)
}

/// Whether `c` may appear in a username after the first character.
pub open spec fn is_username_char(c: char) -> bool {
    is_letter_char(c) || is_ascii_digit_char(c) || c == '_'
}

/// A valid username: 5-16 characters, starting with a letter, the rest
/// letters, digits or underscores.
pub open spec fn valid_username(s: Seq<char>) -> bool {
    &&& 5 <= s.len() <= 16
    &&& is_letter_char(s[0])
    &&& forall|i: int| 1 <= i < s.len() ==> is_username_char(#[trigger] s[i])
}

/// A valid password: 8-16 characters with at least one uppercase letter,
/// one lowercase letter and one digit.
pub open spec fn valid_password(s: Seq<char>) -> bool {
    &&& 8 <= s.len() <= 16
    &&& (exists|i: int| 0 <= i < s.len() && is_upper_char(#[trigger] s[i]))
    &&& (exists|i: int| 0 <= i < s.len() && is_lower_char(#[trigger] s[i]))
    &&& (exists|i: int| 0 <= i < s.len() && is_ascii_digit_char(#[trigger] s[i]))
}

fn is_letter(c: char) -> (r: bool)
    ensures
        r == is_letter_char(c),
{
    let u = c as u32;
    (65 <= u && u <= 90) || (97 <= u && u <= 122)
}

fn is_username_part(c: char) -> (r: bool)
    ensures
        r == is_username_char(c),
{
    let u = c as u32;
    (65 <= u && u <= 90) || (97 <= u && u <= 122) || (48 <= u && u <= 57) || c == '_'
}

/// Whether `s` is a valid username.
pub fn check_username(s: &str) -> (r: bool)
    ensures
        r == valid_username(s@),
{
    let n = s.unicode_len();
    if n < 5 || n > 16 {
        return false;
    }
    if !is_letter(s.get_char(0)) {
        return false;
    }
    let mut i: usize = 1;
    while i < n
        invariant
            1 <= i <= n,
            n == s@.len(),
            5 <= n <= 16,
            forall|j: int| 1 <= j < i ==> is_username_char(#[trigger] s@[j]),
        decreases n - i,
    {
        if !is_username_part(s.get_char(i)) {
            return false;
        }
        i += 1;
    }
    true
}

/// Whether `s` meets the password policy: 8-16 characters and at least one
/// uppercase letter, one lowercase letter and one digit.
pub fn check_password_strength(password: &str) -> (r: bool)
    ensures
        r == valid_password(password@),
{
    let n = password.unicode_len();
    if n < 8 || n > 16 {
        return false;
    }
    let mut has_upper = false;
    let mut has_lower = false;
    let mut has_digit = false;
    let mut i: usize = 0;
    while i < n
        invariant
            i <= n,
            n == password@.len(),
            has_upper ==> exists|j: int| 0 <= j < i && is_upper_char(#[trigger] password@[j]),
            !has_upper ==> forall|j: int| 0 <= j < i ==> !is_upper_char(#[trigger] password@[j]),
            has_lower ==> exists|j: int| 0 <= j < i && is_lower_char(#[trigger] password@[j]),
            !has_lower ==> forall|j: int| 0 <= j < i ==> !is_lower_char(#[trigger] password@[j]),
            has_digit ==> exists|j: int|
                0 <= j < i && is_ascii_digit_char(#[trigger] password@[j]),
            !has_digit ==> forall|j: int|
                0 <= j < i ==> !is_ascii_digit_char(#[trigger] password@[j]),
        decreases n - i,
    {
        let c = password.get_char(i);
        let u = c as u32;
        if 65 <= u && u <= 90 {
            has_upper = true;
        } else if 97 <= u && u <= 122 {
            has_lower = true;
        } else if 48 <= u && u <= 57 {
            has_digit = true;
        }
        i += 1;
    }
    has_upper && has_lower && has_digit
}

} // verus!
