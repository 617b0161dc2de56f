//! Validated wrapper types for usernames and AVS numbers.
//!
//! A username is accepted when it is 3 to 30 characters long and uses only
//! ASCII letters, digits, underscores and hyphens. An AVS number is accepted
//! when, once its dot separators are removed, it is a 13-digit code that
//! starts with the country prefix 756 and carries a valid check digit.

use vstd::prelude::*;

verus! {

/// The error returned when a value fails validation; it carries no detail.
#[derive(Debug, Clone, Copy)]
pub struct InvalidInput;

/// A character allowed in a username: an ASCII letter, a digit, an
/// underscore or a hyphen.
pub open spec fn valid_username_char(c: char) -> bool {
    ||| 'a' <= c && c <= 'z'
    ||| 'A' <= c && c <= 'Z'
    ||| '0' <= c && c <= '9'
    ||| c == '_'
    ||| c == '-'
}

/// A well-formed username: 3 to 30 characters, all from the allowed set.
pub open spec fn valid_username(s: Seq<char>) -> bool {
    &&& 3 <= s.len() <= 30
    &&& forall|i: int| 0 <= i < s.len() ==> valid_username_char(#[trigger] s[i])
}

/// Wrapper type for a username that has been validated.
#[derive(Debug)]
pub struct Username(String);

impl View for Username {
    type V = Seq<char>;

    closed spec fn view(&self) -> Seq<char> {
        self.0@
    }
}

impl Username {
    /// Wraps a string as a username without validating it; callers that
    /// need the well-formedness guarantee go through `try_new`.
    pub fn new(username: String) -> (r: Username)
        ensures
            r@ == username@,
    {
        Username(username)
    }

    /// Validates a string and wraps it as a username.
    pub fn try_new(username: String) -> (r: Result<Username, InvalidInput>)
        ensures
            r is Ok <==> valid_username(username@),
            r is Ok ==> r->Ok_0@ == username@,
    {
        match username_validation(username.as_str()) {
            Ok(()) => Ok(Username(username)),
            Err(e) => Err(e),
        }
    }

    /// The underlying string.
    pub fn as_str(&self) -> (r: &str)
        ensures
            r@ == self@,
    {
        self.0.as_str()
    }
}

/// Checks the username rule: 3 to 30 characters, each an ASCII letter, a
/// digit, an underscore or a hyphen.
pub fn username_validation(username: &str) -> (r: Result<(), InvalidInput>)
    ensures
        r is Ok <==> valid_username(username@),
{
    let n = username.unicode_len();
    if n < 3 || n > 30 {
        return Err(InvalidInput);
    }
    let mut i: usize = 0;
    while i < n
        invariant
            n == username@.len(),
            3 <= n <= 30,
            i <= n,
            forall|j: int| 0 <= j < i ==> valid_username_char(#[trigger] username@[j]),
        decreases n - i,
    {
        let c = username.get_char(i);
        let ok = ('a' <= c && c <= 'z') || ('A' <= c && c <= 'Z') || ('0' <= c && c <= '9') || c
            == '_' || c == '-';
        if !ok {
            return Err(InvalidInput);
        }
        i = i + 1;
    }
    Ok(())
}

/// Relies on zxcvbn::zxcvbn: the strength estimate also reflects the
/// machine clock's year when the password holds a date token, so only what
/// holds of every outcome is stated: the score runs from zero to four, and
/// an empty password scores zero.
#[verifier::external_body]
fn password_strength(password: &str, username: &str) -> (r: u8)
    ensures
        r <= 4,
        password@.len() == 0 ==> r == 0,
{
    let entropy = zxcvbn::zxcvbn(password, &[username]);
    u8::from(entropy.score())
}

/// The acceptance rule on a strength score: a password passes when its
/// score reaches three.
pub fn strong_enough(score: u8) -> (r: bool)
    ensures
        r == (score >= 3),
{
    score >= 3
}

/// Checks that a password is strong enough for the account with the given
/// username: its zxcvbn strength score must reach three. The score is the
/// estimator's to give; an empty password is rejected on every machine.
pub fn password_validation(password: &str, username: &str) -> (r: bool)
    ensures
        password@.len() == 0 ==> !r,
{
    let score = password_strength(password, username);
    strong_enough(score)
}

/// An ASCII digit.
pub open spec fn is_digit_char(c: char) -> bool {
    '0' <= c && c <= '9'
}

/// The numeric value of an ASCII digit.
pub open spec fn digit_val(c: char) -> int {
    (c as u32) - 48
}

/// The check sum of a digit string: digits at even positions count once,
/// digits at odd positions count three times.
pub open spec fn gtin13_sum(s: Seq<char>) -> int
    decreases s.len(),
{
    if s.len() == 0 {
        0
    } else {
        gtin13_sum(s.drop_last()) + (if (s.len() - 1) % 2 == 0 {
            1int
        } else {
            3int
        }) * digit_val(s.last())
    }
}

/// A valid GTIN-13 code: exactly 13 ASCII digits whose weighted check sum
/// is a multiple of ten.
pub open spec fn gtin13_valid(s: Seq<char>) -> bool {
    &&& s.len() == 13
    &&& forall|i: int| 0 <= i < s.len() ==> is_digit_char(#[trigger] s[i])
    &&& gtin13_sum(s) % 10 == 0
}

/// The string with its dot separators removed.
pub open spec fn strip_dots(s: Seq<char>) -> Seq<char>
    decreases s.len(),
{
    if s.len() == 0 {
        Seq::empty()
    } else {
        let rest = strip_dots(s.drop_last());
        if s.last() == '.' {
            rest
        } else {
            rest.push(s.last())
        }
    }
}

/// A well-formed AVS number: once the dots are removed, a 13-digit code
/// that starts with the country prefix 756 and has a valid check digit.
pub open spec fn avs_valid(s: Seq<char>) -> bool {
    let t = strip_dots(s);
    &&& t.len() >= 3
    &&& t[0] == '7'
    &&& t[1] == '5'
    &&& t[2] == '6'
    &&& gtin13_valid(t)
}

/// Relies on gtin_validate::gtin13::check: it returns true exactly for a
/// string of 13 ASCII digits whose weighted check sum (the GS1 check-digit
/// rule) is a multiple of ten.
#[verifier::external_body]
fn gtin13_check(code: &Vec<char>) -> (r: bool)
    ensures
        r == gtin13_valid(code@),
{
    let s: String = code.iter().collect();
    gtin_validate::gtin13::check(&s)
}

/// Checks the AVS number rule: after removing dot separators the value
/// must be a 13-digit code with the country prefix 756 and a valid check
/// digit.
pub fn validate_avs_number(avs_number: &str) -> (r: bool)
    ensures
        r == avs_valid(avs_number@),
{
    let n = avs_number.unicode_len();
    let mut stripped: Vec<char> = Vec::new();
    let mut i: usize = 0;
    while i < n
        invariant
            n == avs_number@.len(),
            i <= n,
            stripped@ == strip_dots(avs_number@.subrange(0, i as int)),
        decreases n - i,
    {
        let c = avs_number.get_char(i);
        proof {
            assert(avs_number@.subrange(0, i + 1).drop_last() =~= avs_number@.subrange(
                0,
                i as int,
            ));
        }
        if c != '.' {
            stripped.push(c);
        }
        i = i + 1;
    }
    proof {
        assert(avs_number@.subrange(0, n as int) =~= avs_number@);
    }
    if stripped.len() < 3 {
        return false;
    }
    if !(stripped[0] == '7' && stripped[1] == '5' && stripped[2] == '6') {
        return false;
    }
    gtin13_check(&stripped)
}

/// Wrapper type for an AVS number that has been validated.
#[derive(Debug)]
pub struct AVSNumber(String);

impl View for AVSNumber {
    type V = Seq<char>;

    closed spec fn view(&self) -> Seq<char> {
        self.0@
    }
}

impl AVSNumber {
    /// Validates a string and wraps it as an AVS number.
    pub fn try_new(value: String) -> (r: Result<AVSNumber, InvalidInput>)
        ensures
            r is Ok <==> avs_valid(value@),
            r is Ok ==> r->Ok_0@ == value@,
    {
        if validate_avs_number(value.as_str()) {
            Ok(AVSNumber(value))
        } else {
            Err(InvalidInput)
        }
    }

    /// The underlying string.
    pub fn as_str(&self) -> (r: &str)
        ensures
            r@ == self@,
    {
        self.0.as_str()
    }
}

} // verus!
