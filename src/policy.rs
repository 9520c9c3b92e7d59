//! The password complexity rule.
use vstd::prelude::*;
use vstd::string::StringSliceAdditionalSpecFns;
use crate::error::UserServiceError;

verus! {

pub open spec fn is_upper_byte(b: u8) -> bool {
    65 <= b <= 90
}

pub open spec fn is_lower_byte(b: u8) -> bool {
    97 <= b <= 122
}

pub open spec fn is_digit_byte(b: u8) -> bool {
    48 <= b <= 57
}

/// Some byte of `s` is an ASCII uppercase letter. In UTF-8 the bytes of a
/// multi-byte character are all above 127, so this is the same as asking
/// whether some character of the string is one.
pub open spec fn has_upper(s: Seq<u8>) -> bool {
    exists|i: int| 0 <= i < s.len() && is_upper_byte(#[trigger] s[i])
}

pub open spec fn has_lower(s: Seq<u8>) -> bool {
    exists|i: int| 0 <= i < s.len() && is_lower_byte(#[trigger] s[i])
}

pub open spec fn has_digit(s: Seq<u8>) -> bool {
    exists|i: int| 0 <= i < s.len() && is_digit_byte(#[trigger] s[i])
}

/// A password is accepted when it is at least eight bytes long and holds an
/// uppercase letter, a lowercase letter and a digit.
pub open spec fn password_ok(s: Seq<u8>) -> bool {
    s.len() >= 8 && has_upper(s) && has_lower(s) && has_digit(s)
}

/// Checks the complexity rule over the bytes of `pwd`.
pub fn meets_complexity(pwd: &str) -> (r: bool)
    ensures
        r == password_ok(pwd.spec_bytes()),
{
    let bytes = pwd.as_bytes();
    let mut upper = false;
    let mut lower = false;
    let mut digit = false;
    let mut i: usize = 0;
    while i < bytes.len()
        invariant
            bytes@ == pwd.spec_bytes(),
            0 <= i <= bytes@.len(),
            upper <==> exists|j: int| 0 <= j < i && is_upper_byte(#[trigger] bytes@[j]),
            lower <==> exists|j: int| 0 <= j < i && is_lower_byte(#[trigger] bytes@[j]),
            digit <==> exists|j: int| 0 <= j < i && is_digit_byte(#[trigger] bytes@[j]),
        decreases bytes@.len() - i,
    {
        let b = bytes[i];
        if 65 <= b && b <= 90 {
            upper = true;
        }
        if 97 <= b && b <= 122 {
            lower = true;
        }
        if 48 <= b && b <= 57 {
            digit = true;
        }
        i = i + 1;
    }
    pwd.len() >= 8 && upper && lower && digit
}

/// Accepts a password that meets the complexity rule, and refuses any other
/// with `PasswordComplexityNotMet`.
pub fn validate_pwd(pwd: &str) -> (r: Result<(), UserServiceError>)
    ensures
        r is Ok <==> password_ok(pwd.spec_bytes()),
        r matches Err(e) ==> e is PasswordComplexityNotMet,
{
    if meets_complexity(pwd) {
        Ok(())
    } else {
        Err(UserServiceError::PasswordComplexityNotMet)
    }
}

} // verus!
