use crate::errors::MrnGeneratorError;
use vstd::prelude::*;

verus! {

/// A character that carries a checksum value: an ASCII digit or an ASCII
/// letter of either case.
pub open spec fn char_ok(c: char) -> bool {
    let u = c as int;
    (48 <= u && u <= 57) || (65 <= u && u <= 90) || (97 <= u && u <= 122)
}

/// A byte that encodes an ASCII digit or an ASCII letter of either case.
pub open spec fn is_alnum_byte(b: u8) -> bool {
    (48 <= b && b <= 57) || (65 <= b && b <= 90) || (97 <= b && b <= 122)
}

/// A character that an MRN's random filler may show: an ASCII digit or an
/// uppercase ASCII letter.
pub open spec fn is_upper_alnum(c: char) -> bool {
    let u = c as int;
    (48 <= u && u <= 57) || (65 <= u && u <= 90)
}

/// Checksum value of a character, after the standard alphanumeric
/// check-digit table: digits keep their value, 'A' is 10, and the letters
/// from 'B' on are numbered so that the multiples of 11 (11, 22, 33) are
/// skipped. Letters past 'Z' in ASCII order (the lowercase ones) continue
/// with the same offset as 'V'..'Z'.
pub open spec fn char_value(c: char) -> int {
    let u = c as int;
    if 48 <= u && u <= 57 {
        u - 48
    } else if u == 65 {
        10
    } else if 66 <= u && u <= 75 {
        u - 54
    } else if 76 <= u && u <= 85 {
        u - 53
    } else {
        u - 52
    }
}

/// Over admissible characters the table stays within 0..=70.
pub proof fn lemma_char_value_bounds(c: char)
    requires
        char_ok(c),
    ensures
        0 <= char_value(c) <= 70,
{
}

/// Looks one character up in the check-digit table: its value, or a
/// `NotAlphanumeric` failure carrying the offending character.
pub fn check_character_value(c: char) -> (r: Result<u8, MrnGeneratorError>)
    ensures
        char_ok(c) ==> r == Ok::<u8, MrnGeneratorError>(char_value(c) as u8),
        !char_ok(c) ==> r == Err::<u8, MrnGeneratorError>(MrnGeneratorError::NotAlphanumeric(c)),
{
    let u = c as u32;
    if 48 <= u && u <= 57 {
        Ok((u - 48) as u8)
    } else if u == 65 {
        Ok(10)
    } else if 66 <= u && u <= 75 {
        Ok((u - 54) as u8)
    } else if 76 <= u && u <= 85 {
        Ok((u - 53) as u8)
    } else if (86 <= u && u <= 90) || (97 <= u && u <= 122) {
        Ok((u - 52) as u8)
    } else {
        Err(MrnGeneratorError::NotAlphanumeric(c))
    }
}

} // verus!
