//! The verification-code model: a short-lived, single-use numeric code tied
//! to an email address, plus generation of fresh 6-digit code values.

use vstd::prelude::*;
use vstd::string::*;
use rand::Rng;

verus! {

/// Milliseconds in one minute; expiry timestamps are Unix milliseconds.
pub const MILLIS_PER_MINUTE: i64 = 60000;

/// What a code proves ownership for. Extensible; registration is the only
/// kind today.
#[derive(Clone, Copy, Debug, PartialEq, Eq, Structural)]
pub enum CodeType {
    Registration,
}

impl CodeType {
    /// The wire name of this code type.
    pub fn as_wire(&self) -> (s: &'static str)
        ensures
            self is Registration ==> s@ == "registration"@,
    {
        match self {
            CodeType::Registration => "registration",
        }
    }
}

/// The decimal digit character for `d`.
pub open spec fn spec_digit_char(d: int) -> char {
    if d == 0 {
        '0'
    } else if d == 1 {
        '1'
    } else if d == 2 {
        '2'
    } else if d == 3 {
        '3'
    } else if d == 4 {
        '4'
    } else if d == 5 {
        '5'
    } else if d == 6 {
        '6'
    } else if d == 7 {
        '7'
    } else if d == 8 {
        '8'
    } else {
        '9'
    }
}

/// Whether `c` is an ASCII decimal digit.
pub open spec fn is_ascii_digit_char(c: char) -> bool {
    48 <= c as u32 <= 57
}

/// The 6-character decimal representation of `n`, most significant digit
/// first.
pub open spec fn spec_decimal6(n: int) -> Seq<char> {
    seq![
        spec_digit_char(n / 100000 % 10),
        spec_digit_char(n / 10000 % 10),
        spec_digit_char(n / 1000 % 10),
        spec_digit_char(n / 100 % 10),
        spec_digit_char(n / 10 % 10),
        spec_digit_char(n % 10),
    ]
}

/// The shape of every generated code value: 6 ASCII digits, no leading zero.
pub open spec fn is_code_chars(s: Seq<char>) -> bool {
    &&& s.len() == 6
    &&& (forall|i: int| 0 <= i < 6 ==> is_ascii_digit_char(#[trigger] s[i]))
    &&& s[0] != '0'
}

/// The decimal representation of a number in the sampled range has 6 digit
/// characters and no leading zero.
pub proof fn lemma_decimal6_form(n: int)
    requires
        100000 <= n <= 999999,
    ensures
        is_code_chars(spec_decimal6(n)),
{
    assert(1 <= n / 100000 <= 9);
    assert forall|i: int| 0 <= i < 6 implies is_ascii_digit_char(#[trigger] spec_decimal6(n)[i]) by {
        assert(0 <= n % 10 < 10);
        assert(0 <= n / 10 % 10 < 10);
        assert(0 <= n / 100 % 10 < 10);
        assert(0 <= n / 1000 % 10 < 10);
        assert(0 <= n / 10000 % 10 < 10);
        assert(0 <= n / 100000 % 10 < 10);
    }
}

/// The single-character string slice holding the digit `d`.
fn digit_str(d: usize) -> (r: &'static str)
    requires
        d < 10,
    ensures
        r@.len() == 1,
        r@[0] == spec_digit_char(d as int),
{
    let digits: &str = "0123456789";
    proof {
        reveal_strlit("0123456789");
    }
    let r = digits.substring_ascii(d, d + 1);
    proof {
        assert(r@[0] == digits@[d as int]);
    }
    r
}

/// The 6-character decimal string of `n`, preserving leading-zero semantics
/// by fixing the width.
pub fn to_code_string(n: u32) -> (s: String)
    requires
        100000 <= n <= 999999,
    ensures
        s@ == spec_decimal6(n as int),
{
    let d5: usize = (n / 100000) as usize;
    let d4: usize = ((n / 10000) % 10) as usize;
    let d3: usize = ((n / 1000) % 10) as usize;
    let d2: usize = ((n / 100) % 10) as usize;
    let d1: usize = ((n / 10) % 10) as usize;
    let d0: usize = (n % 10) as usize;
    let mut s = String::new();
    s.append(digit_str(d5));
    s.append(digit_str(d4));
    s.append(digit_str(d3));
    s.append(digit_str(d2));
    s.append(digit_str(d1));
    s.append(digit_str(d0));
    proof {
        assert(d5 == n as int / 100000 % 10);
        assert(s@ =~= spec_decimal6(n as int));
    }
    s
}

/// Relies on `rand::thread_rng` and `rand::Rng::gen_range`: a random integer
/// drawn uniformly from the inclusive range handed to it. Nothing more is
/// assumed of the value.
#[verifier::external_body]
fn sample_code_number() -> (n: u32)
    ensures
        100000 <= n <= 999999,
{
    rand::thread_rng().gen_range(100000..=999999)
}

/// A fresh 6-digit code value, drawn uniformly from 100000-999999: every
/// code is 6 ASCII digits with no leading zero.
pub fn generate_code() -> (s: String)
    ensures
        is_code_chars(s@),
        exists|n: int| 100000 <= n <= 999999 && s@ == spec_decimal6(n),
{
    let n = sample_code_number();
    let s = to_code_string(n);
    proof {
        lemma_decimal6_form(n as int);
        assert(100000 <= n as int <= 999999 && s@ == spec_decimal6(n as int));
    }
    s
}

/// A registration code record. The persistence layer is the system of
/// record; records are deactivated, never deleted.
#[derive(Debug)]
pub struct Code {
    /// Unique record identifier.
    pub id: u64,
    /// The email address the code was issued for.
    pub email: String,
    /// The 6-digit code value, kept as a string to preserve digit-count
    /// semantics.
    pub code: String,
    pub code_type: CodeType,
    /// False once the code is consumed or explicitly retired.
    pub active: bool,
    /// Creation time, Unix milliseconds.
    pub created_at: i64,
    /// Past this time (exclusive) the code is expired, whatever its flag.
    pub expired_at: i64,
}

/// A code is usable iff it is active, unexpired at `now`, and its value is
/// exactly the submitted string.
pub open spec fn code_usable(c: Code, candidate: Seq<char>, now: int) -> bool {
    c.active && now <= c.expired_at && c.code@ == candidate
}

impl Code {
    /// A new active code record created at `now` (Unix milliseconds), valid
    /// for `code_expire` minutes.
    pub fn new(id: u64, email: String, code: String, code_type: CodeType, code_expire: i64, now: i64) -> (c: Self)
        requires
            0 <= now,
            0 < code_expire,
            now + code_expire * MILLIS_PER_MINUTE <= i64::MAX,
        ensures
            c == (Code {
                id,
                email,
                code,
                code_type,
                active: true,
                created_at: now,
                expired_at: (now + code_expire * MILLIS_PER_MINUTE) as i64,
            }),
    {
        let expired_at = now + code_expire * MILLIS_PER_MINUTE;
        Self { id, email, code, code_type, active: true, created_at: now, expired_at }
    }

    /// Whether the code is expired at `now`; independent of the active flag.
    pub fn is_expired(&self, now: i64) -> (r: bool)
        ensures
            r == (now > self.expired_at),
    {
        now > self.expired_at
    }

    /// Whether `candidate` can consume this code at `now`: active, unexpired
    /// and an exact string match.
    pub fn is_valid(&self, candidate: &String, now: i64) -> (r: bool)
        ensures
            r == code_usable(*self, candidate@, now as int),
    {
        self.active && !self.is_expired(now) && self.code == *candidate
    }

    /// An identical copy of this record.
    pub fn duplicate(&self) -> (c: Self)
        ensures
            c == *self,
    {
        Code {
            id: self.id,
            email: self.email.clone(),
            code: self.code.clone(),
            code_type: self.code_type,
            active: self.active,
            created_at: self.created_at,
            expired_at: self.expired_at,
        }
    }
}

/// Expiry is checked independently of the active flag: a code past its
/// expiry is unusable even while still flagged active.
pub proof fn lemma_expiry_independent_of_active(c: Code, candidate: Seq<char>, now: int)
    requires
        now > c.expired_at,
    ensures
        !code_usable(c, candidate, now),
{
}

/// An active code is usable with its own value from creation through its
/// expiry instant, and unusable past it — whatever its flag still says.
pub proof fn lemma_code_validity_window(c: Code, t: int)
    requires
        c.active,
    ensures
        t <= c.expired_at ==> code_usable(c, c.code@, t),
        t > c.expired_at ==> !code_usable(c, c.code@, t),
{
}

} // verus!
