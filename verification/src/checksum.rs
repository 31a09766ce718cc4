use crate::errors::MrnGeneratorError;
use crate::values::{char_ok, char_value, check_character_value, lemma_char_value_bounds};
use vstd::prelude::*;

verus! {

/// 2^i: the weight of the character at zero-based position i.
pub open spec fn place_weight(i: nat) -> nat
    decreases i,
{
    if i == 0 {
        1
    } else {
        2 * place_weight((i - 1) as nat)
    }
}

pub proof fn lemma_place_weight_mono(i: nat, j: nat)
    requires
        i <= j,
    ensures
        place_weight(i) <= place_weight(j),
    decreases j,
{
    if i < j {
        lemma_place_weight_mono(i, (j - 1) as nat);
    }
}

/// The weighted checksum sum of a sequence of characters: each character's
/// table value, multiplied by 2^position, summed over the sequence.
pub open spec fn weighted_sum(s: Seq<char>) -> int
    decreases s.len(),
{
    if s.len() == 0 {
        0
    } else {
        weighted_sum(s.drop_last()) + char_value(s.last()) * place_weight((s.len() - 1) as nat)
    }
}

/// Every character of the sequence carries a checksum value.
pub open spec fn body_ok(s: Seq<char>) -> bool {
    forall|i: int| 0 <= i < s.len() ==> char_ok(s[i])
}

/// Position i holds the first character of s without a checksum value.
pub open spec fn is_first_invalid(s: Seq<char>, i: int) -> bool {
    &&& 0 <= i < s.len()
    &&& !char_ok(s[i])
    &&& forall|j: int| 0 <= j < i ==> char_ok(s[j])
}

/// The answer of the check-digit comparison: `None` when the supplied last
/// character is the digit character of `check_digit mod 10`, else that digit
/// character as the replacement. When the check digit is 10, the relation is
/// satisfied only by the digit '0', although the true checksum value is 10;
/// this mirrors the identifier standard and is kept deliberately.
pub open spec fn remainder_correction(check_digit: int, last: char) -> Option<char> {
    let m = check_digit % 10;
    if last as int == 48 + m {
        None
    } else {
        Some((48 + m) as char)
    }
}

/// What checking an 18-character string answers: `None` when the last
/// character already satisfies the checksum relation over the first 17,
/// else the correct replacement character.
pub open spec fn correction(s: Seq<char>) -> Option<char> {
    remainder_correction(weighted_sum(s.take(17)) % 11, s[17])
}

/// The string with its last character corrected, where a correction is due.
pub open spec fn corrected(s: Seq<char>) -> Seq<char> {
    match correction(s) {
        Some(c) => s.update(17, c),
        None => s,
    }
}

/// Compares the supplied last character against the check digit, as
/// [`remainder_correction`] describes.
pub fn check_remainder_value(check_digit: u8, last_digit: char) -> (r: Option<char>)
    ensures
        r == remainder_correction(check_digit as int, last_digit),
{
    let m: u8 = check_digit % 10;
    let expected: u8 = 48 + m;
    if (last_digit as u32) != (expected as u32) {
        Some(expected as char)
    } else {
        None
    }
}

/// Returns `None` if the 18-character string already satisfies the checksum
/// relation, the correct last character if it does not, and a
/// `NotAlphanumeric` failure carrying the first offending character if one
/// of the first 17 characters has no checksum value.
pub fn is_mrn_valid(mrn: &str) -> (r: Result<Option<char>, MrnGeneratorError>)
    requires
        mrn@.len() == 18,
    ensures
        body_ok(mrn@.take(17)) ==> r == Ok::<Option<char>, MrnGeneratorError>(correction(mrn@)),
        !body_ok(mrn@.take(17)) ==> (r matches Err(e) && e matches MrnGeneratorError::NotAlphanumeric(c)
            && exists|i: int| is_first_invalid(mrn@.take(17), i) && c == mrn@[i]),
{
    let mut sum: u32 = 0;
    let mut weight: u32 = 1;
    let mut i: usize = 0;
    while i < 17
        invariant
            i <= 17,
            mrn@.len() == 18,
            weight == place_weight(i as nat),
            sum == weighted_sum(mrn@.take(i as int)),
            sum <= 70 * (weight - 1),
            forall|j: int| 0 <= j < i ==> char_ok(mrn@[j]),
        decreases 17 - i,
    {
        let c = mrn.get_char(i);
        match check_character_value(c) {
            Ok(v) => {
                proof {
                    lemma_char_value_bounds(c);
                    lemma_place_weight_mono(i as nat, 16);
                    reveal_with_fuel(place_weight, 18);
                    assert(place_weight(16) == 65536);
                    assert(v <= 70);
                    assert((v as u32) * weight <= 70 * weight) by (nonlinear_arith)
                        requires
                            v <= 70,
                            weight >= 0,
                    ;
                }
                let ghost prev: int = i as int;
                sum = sum + (v as u32) * weight;
                weight = weight * 2;
                i = i + 1;
                proof {
                    assert(mrn@.take(prev + 1).drop_last() =~= mrn@.take(prev));
                    assert(mrn@.take(prev + 1).last() == mrn@[prev]);
                }
            },
            Err(e) => {
                proof {
                    assert(is_first_invalid(mrn@.take(17), i as int));
                    assert(!body_ok(mrn@.take(17)));
                }
                return Err(e);
            },
        }
    }
    proof {
        assert(body_ok(mrn@.take(17)));
    }
    let check_digit: u8 = (sum % 11) as u8;
    let last = mrn.get_char(17);
    Ok(check_remainder_value(check_digit, last))
}

/// Replacing the last character of an 18-character string with the
/// correction that the check suggests yields a string that passes the next
/// check: the correction procedure is idempotent.
pub proof fn lemma_correction_idempotent(s: Seq<char>, c: char)
    requires
        s.len() == 18,
        correction(s) == Some(c),
    ensures
        correction(s.update(17, c)) is None,
{
    assert(s.update(17, c).take(17) =~= s.take(17));
    let m = (weighted_sum(s.take(17)) % 11) % 10;
    assert(0 <= m <= 9) by {
        assert(0 <= weighted_sum(s.take(17)) % 11 < 11);
    };
    assert(c == (48 + m) as char);
    assert(s.update(17, c)[17] == c);
    assert(c as int == 48 + m);
}

/// Correcting an 18-character string, where a correction is due, always
/// yields a string that the check accepts.
pub proof fn lemma_corrected_valid(s: Seq<char>)
    requires
        s.len() == 18,
    ensures
        correction(corrected(s)) is None,
{
    match correction(s) {
        Some(c) => lemma_correction_idempotent(s, c),
        None => {
        },
    }
}

} // verus!
