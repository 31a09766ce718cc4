use crate::checksum::{body_ok, corrected, correction, is_first_invalid, is_mrn_valid, lemma_corrected_valid};
use crate::errors::MrnGeneratorError;
use crate::procedure::{lemma_procedure_char_ok, procecure_category_to_char, procedure_char, Procedure};
use crate::text::{replace_last_char, to_upper, to_upper_exec, upper_chars, vec_to_string};
use crate::values::{char_ok, is_alnum_byte, is_upper_alnum};
use rand::distributions::{Alphanumeric, Distribution};
use vstd::prelude::*;

verus! {

/// The two year digits an MRN opens with: the last two decimal digits of
/// the year.
pub open spec fn year_field(y: int) -> Seq<char> {
    let m = (if y < 0 {
        -y
    } else {
        y
    }) % 100;
    seq![(48 + m / 10) as char, (48 + m % 10) as char]
}

/// The characters that a sequence of random alphanumeric bytes contributes:
/// each byte as a character, uppercased.
pub open spec fn filler_chars(bs: Seq<u8>) -> Seq<char> {
    bs.map_values(|b: u8| to_upper(b as char))
}

/// The characters of an optional office code: none when it is absent.
pub open spec fn opt_chars(o: Option<&str>) -> Seq<char> {
    match o {
        Some(s) => s@,
        None => Seq::empty(),
    }
}

/// The 18 characters of an MRN before the check digit is corrected: two
/// year digits, the uppercased country code, the office code verbatim, the
/// uppercased filler, and, when a procedure is given, its encoding
/// character overwriting position 16.
pub open spec fn mrn_draft(
    year: int,
    cc: Seq<char>,
    office: Seq<char>,
    filler: Seq<u8>,
    procedure: Option<Procedure>,
) -> Seq<char> {
    let base = year_field(year) + upper_chars(cc) + office + filler_chars(filler);
    match procedure {
        Some(p) => base.update(16, procedure_char(p)),
        None => base,
    }
}

/// Whether the caller-supplied parts of an MRN will pass the character
/// table, stated over the inputs alone: both country characters must carry
/// a checksum value after uppercasing, and so must every office character
/// that lands among the first 17 positions without being overwritten by a
/// procedure character. The year digits and the random filler always carry
/// a value, so these two conditions decide the checksum's success.
pub open spec fn inputs_checksummable(
    cc: Seq<char>,
    office: Seq<char>,
    procedure: Option<Procedure>,
) -> bool {
    &&& (forall|i: int| 0 <= i < cc.len() ==> char_ok(to_upper(cc[i])))
    &&& (forall|i: int|
        0 <= i < office.len() && i + 4 < 17 && !(procedure is Some && i + 4 == 16) ==> char_ok(
            office[i],
        ))
}

/// Both year digits are ASCII digits.
proof fn lemma_year_field_digits(y: int)
    ensures
        year_field(y).len() == 2,
        48 <= year_field(y)[0] as int <= 57,
        48 <= year_field(y)[1] as int <= 57,
{
    let m = (if y < 0 {
        -y
    } else {
        y
    }) % 100;
    assert(0 <= m < 100);
    assert(0 <= m / 10 <= 9);
    assert(0 <= m % 10 <= 9);
}

/// Uppercasing an alphanumeric byte's character yields an ASCII digit or
/// an uppercase ASCII letter, which always carries a checksum value.
proof fn lemma_filler_char_ok(b: u8)
    requires
        is_alnum_byte(b),
    ensures
        is_upper_alnum(to_upper(b as char)),
        char_ok(to_upper(b as char)),
{
}

/// Which part of the draft each position shows, before any procedure
/// overwrite.
proof fn lemma_base_index(year: int, cc: Seq<char>, office: Seq<char>, filler: Seq<u8>, j: int)
    requires
        cc.len() == 2,
        office.len() + filler.len() == 14,
        0 <= j < 18,
    ensures
        ({
            let base = year_field(year) + upper_chars(cc) + office + filler_chars(filler);
            &&& base.len() == 18
            &&& (j < 2 ==> base[j] == year_field(year)[j])
            &&& (2 <= j < 4 ==> base[j] == to_upper(cc[j - 2]))
            &&& (4 <= j < 4 + office.len() ==> base[j] == office[j - 4])
            &&& (4 + office.len() <= j ==> base[j] == to_upper(
                filler[j - 4 - office.len()] as char,
            ))
        }),
{
    assert(year_field(year).len() == 2);
    assert(upper_chars(cc).len() == 2);
    assert(filler_chars(filler).len() == filler.len());
}

/// Everything the draft of an MRN guarantees by construction: its length,
/// what each field shows, and that the checksum's success over it is
/// decided by the country code and office code alone.
proof fn lemma_draft_structure(
    year: int,
    cc: Seq<char>,
    office: Seq<char>,
    filler: Seq<u8>,
    procedure: Option<Procedure>,
)
    requires
        cc.len() == 2,
        office.len() + filler.len() == 14,
        forall|i: int| 0 <= i < filler.len() ==> is_alnum_byte(filler[i]),
    ensures
        ({
            let draft = mrn_draft(year, cc, office, filler, procedure);
            &&& draft.len() == 18
            &&& 48 <= draft[0] as int <= 57
            &&& 48 <= draft[1] as int <= 57
            &&& draft.subrange(2, 4) == upper_chars(cc)
            &&& (forall|i: int| 0 <= i < office.len() && i + 4 < 16 ==> draft[i + 4] == office[i])
            &&& (procedure matches Some(p) ==> draft[16] == procedure_char(p))
            &&& (forall|i: int| 4 + office.len() <= i < 16 ==> is_upper_alnum(draft[i]))
            &&& (procedure is None && 4 + office.len() <= 16 ==> is_upper_alnum(draft[16]))
            &&& (body_ok(draft.take(17)) <==> inputs_checksummable(cc, office, procedure))
            &&& (forall|i: int|
                0 <= i < 17 && !char_ok(#[trigger] draft[i]) ==> upper_chars(cc).contains(draft[i])
                    || office.contains(draft[i]))
        }),
{
    let base = year_field(year) + upper_chars(cc) + office + filler_chars(filler);
    let draft = mrn_draft(year, cc, office, filler, procedure);
    lemma_year_field_digits(year);
    assert forall|j: int| 0 <= j < 18 implies {
        &&& (j < 2 ==> base[j] == year_field(year)[j])
        &&& (2 <= j < 4 ==> base[j] == to_upper(cc[j - 2]))
        &&& (4 <= j < 4 + office.len() ==> base[j] == office[j - 4])
        &&& (4 + office.len() <= j ==> base[j] == to_upper(filler[j - 4 - office.len()] as char))
    } by {
        lemma_base_index(year, cc, office, filler, j);
    }
    assert(base.len() == 18);
    assert forall|j: int| 0 <= j < 18 && !(procedure is Some && j == 16) implies draft[j] == base[j]
    by {
    }
    if let Some(p) = procedure {
        lemma_procedure_char_ok(p);
        assert(draft[16] == procedure_char(p));
    }
    assert(draft.subrange(2, 4) =~= upper_chars(cc));
    assert forall|j: int| 4 + office.len() <= j < 18 && !(procedure is Some && j == 16) implies {
        &&& is_upper_alnum(draft[j])
        &&& char_ok(draft[j])
    } by {
        lemma_filler_char_ok(filler[j - 4 - office.len()]);
    }
    if inputs_checksummable(cc, office, procedure) {
        assert forall|j: int| 0 <= j < 17 implies char_ok(#[trigger] draft.take(17)[j]) by {
            if procedure is Some && j == 16 {
                lemma_procedure_char_ok(procedure->Some_0);
            } else if 4 <= j < 4 + office.len() {
                assert(char_ok(office[j - 4]));
            }
        }
        assert(body_ok(draft.take(17)));
    }
    if body_ok(draft.take(17)) {
        assert forall|i: int| 0 <= i < cc.len() implies char_ok(to_upper(cc[i])) by {
            assert(draft.take(17)[i + 2] == draft[i + 2]);
            assert(char_ok(draft.take(17)[i + 2]));
        }
        assert forall|i: int|
            0 <= i < office.len() && i + 4 < 17 && !(procedure is Some && i + 4
                == 16) implies char_ok(office[i]) by {
            assert(draft.take(17)[i + 4] == draft[i + 4]);
            assert(char_ok(draft.take(17)[i + 4]));
        }
    }
    assert forall|i: int|
        0 <= i < 17 && !char_ok(#[trigger] draft[i]) implies upper_chars(cc).contains(draft[i])
            || office.contains(draft[i]) by {
        if 2 <= i < 4 {
            assert(upper_chars(cc)[i - 2] == draft[i]);
        } else if 4 <= i < 4 + office.len() && !(procedure is Some && i == 16) {
            assert(office[i - 4] == draft[i]);
        }
    }
}

/// Relies on chrono's `Utc::now` and `Datelike::year` for the current UTC
/// year. The value depends on the clock, so nothing is assumed of it.
#[verifier::external_body]
fn current_utc_year() -> i32 {
    chrono::Datelike::year(&chrono::Utc::now())
}

/// Relies on rand's `Alphanumeric` distribution, sampled through
/// `thread_rng`: every byte it draws is an ASCII digit or an ASCII letter.
#[verifier::external_body]
fn sample_alphanumeric_bytes(len: usize) -> (r: Vec<u8>)
    ensures
        r@.len() == len,
        forall|i: int| 0 <= i < r@.len() ==> is_alnum_byte(r@[i]),
{
    Alphanumeric.sample_iter(&mut rand::thread_rng()).take(len).collect()
}

/// Composes an 18-character MRN from its parts and corrects the check
/// digit. The country code must have exactly two characters, or the call
/// fails with `CountryCodeLength`; a character without a checksum value
/// among the first 17 fails the call with `NotAlphanumeric`, as the first
/// such character is met.
pub fn assemble_mrn(
    country_code: &str,
    procedure: Option<Procedure>,
    declaration_office: Option<&str>,
    year: i32,
    filler: &Vec<u8>,
) -> (r: Result<String, MrnGeneratorError>)
    requires
        opt_chars(declaration_office).len() + filler@.len() == 14,
        forall|i: int| 0 <= i < filler@.len() ==> is_alnum_byte(filler@[i]),
    ensures
        ({
            let draft = mrn_draft(
                year as int,
                country_code@,
                opt_chars(declaration_office),
                filler@,
                procedure,
            );
            match r {
                Ok(m) => {
                    &&& country_code@.len() == 2
                    &&& body_ok(draft.take(17))
                    &&& m@ == corrected(draft)
                    &&& m@.len() == 18
                    &&& body_ok(m@.take(17))
                    &&& correction(m@) is None
                },
                Err(e) => match e {
                    MrnGeneratorError::CountryCodeLength(s) => s@ == country_code@
                        && country_code@.len() != 2,
                    MrnGeneratorError::NotAlphanumeric(c) => {
                        &&& country_code@.len() == 2
                        &&& !body_ok(draft.take(17))
                        &&& exists|i: int| is_first_invalid(draft.take(17), i) && c == draft[i]
                    },
                    _ => false,
                },
            }
        }),
{
    if country_code.unicode_len() != 2 {
        return Err(MrnGeneratorError::CountryCodeLength(String::from_str(country_code)));
    }
    let ghost office_seq: Seq<char> = opt_chars(declaration_office);
    let ghost base: Seq<char> = year_field(year as int) + upper_chars(country_code@) + office_seq
        + filler_chars(filler@);
    let ghost draft: Seq<char> = mrn_draft(
        year as int,
        country_code@,
        office_seq,
        filler@,
        procedure,
    );
    let mut v: Vec<char> = Vec::new();
    let y64: i64 = year as i64;
    let ynn: i64 = if y64 < 0 {
        -y64
    } else {
        y64
    };
    let m: i64 = ynn % 100;
    v.push((48 + (m / 10) as u8) as char);
    v.push((48 + (m % 10) as u8) as char);
    proof {
        assert(v@ =~= year_field(year as int));
    }
    let c0 = to_upper_exec(country_code.get_char(0));
    let c1 = to_upper_exec(country_code.get_char(1));
    v.push(c0);
    v.push(c1);
    proof {
        assert(upper_chars(country_code@).len() == 2);
        assert(v@ =~= year_field(year as int) + upper_chars(country_code@));
    }
    match declaration_office {
        Some(o) => {
            let k = o.unicode_len();
            let mut i: usize = 0;
            while i < k
                invariant
                    i <= k,
                    k == o@.len(),
                    o@ == office_seq,
                    v@ == year_field(year as int) + upper_chars(country_code@) + o@.take(i as int),
                decreases k - i,
            {
                v.push(o.get_char(i));
                i = i + 1;
                proof {
                    assert(year_field(year as int) + upper_chars(country_code@) + o@.take(i as int)
                        =~= (year_field(year as int) + upper_chars(country_code@) + o@.take(
                        i - 1,
                    )).push(o@[i - 1]));
                }
            }
            proof {
                assert(o@.take(k as int) =~= o@);
            }
        },
        None => {
            proof {
                assert(v@ =~= year_field(year as int) + upper_chars(country_code@) + office_seq);
            }
        },
    }
    let n = filler.len();
    let mut i: usize = 0;
    while i < n
        invariant
            i <= n,
            n == filler@.len(),
            v@ == year_field(year as int) + upper_chars(country_code@) + office_seq + filler_chars(
                filler@,
            ).take(i as int),
        decreases n - i,
    {
        let b = filler[i];
        let ub: u8 = if 97 <= b && b <= 122 {
            b - 32
        } else {
            b
        };
        v.push(ub as char);
        i = i + 1;
        proof {
            assert(filler_chars(filler@)[i - 1] == to_upper(filler@[i - 1] as char));
            assert(year_field(year as int) + upper_chars(country_code@) + office_seq + filler_chars(
                filler@,
            ).take(i as int) =~= (year_field(year as int) + upper_chars(country_code@) + office_seq
                + filler_chars(filler@).take(i - 1)).push(to_upper(filler@[i - 1] as char)));
        }
    }
    proof {
        assert(filler_chars(filler@).take(n as int) =~= filler_chars(filler@));
        assert(v@ =~= base);
        assert(base.len() == 18);
    }
    match procedure {
        Some(p) => {
            let pc = procecure_category_to_char(p);
            v[16] = pc;
            proof {
                assert(v@ =~= draft);
            }
        },
        None => {
            proof {
                assert(v@ =~= draft);
            }
        },
    }
    let s = vec_to_string(&v);
    match is_mrn_valid(s.as_str()) {
        Ok(opt) => match opt {
            Some(c) => {
                let fixed = replace_last_char(s.as_str(), c);
                proof {
                    lemma_corrected_valid(draft);
                    assert(fixed@.take(17) =~= draft.take(17));
                }
                Ok(fixed)
            },
            None => {
                proof {
                    lemma_corrected_valid(draft);
                }
                Ok(s)
            },
        },
        Err(e) => Err(e),
    }
}

/// Generates a fresh MRN: the current year's two digits, the uppercased
/// country code, the optional office code, random uppercase alphanumeric
/// filler, the optional procedure's encoding character at position 16, and
/// a corrected check digit at the end. Fails with `CountryCodeLength` when
/// the country code is not exactly two characters, and with
/// `NotAlphanumeric` when a country or office character carries no
/// checksum value.
pub fn generate_random_mrn(
    country_code: &str,
    procedure: Option<Procedure>,
    declaration_office: Option<&str>,
) -> (r: Result<String, MrnGeneratorError>)
    requires
        opt_chars(declaration_office).len() <= 14,
    ensures
        ({
            let office = opt_chars(declaration_office);
            match r {
                Ok(m) => {
                    &&& country_code@.len() == 2
                    &&& inputs_checksummable(country_code@, office, procedure)
                    &&& m@.len() == 18
                    &&& body_ok(m@.take(17))
                    &&& correction(m@) is None
                    &&& 48 <= m@[0] as int <= 57
                    &&& 48 <= m@[1] as int <= 57
                    &&& m@.subrange(2, 4) == upper_chars(country_code@)
                    &&& (forall|i: int|
                        0 <= i < office.len() && i + 4 < 16 ==> m@[i + 4] == office[i])
                    &&& (procedure matches Some(p) ==> m@[16] == procedure_char(p))
                    &&& (forall|i: int| 4 + office.len() <= i < 16 ==> is_upper_alnum(m@[i]))
                    &&& (procedure is None && 4 + office.len() <= 16 ==> is_upper_alnum(m@[16]))
                },
                Err(e) => match e {
                    MrnGeneratorError::CountryCodeLength(s) => s@ == country_code@
                        && country_code@.len() != 2,
                    MrnGeneratorError::NotAlphanumeric(c) => {
                        &&& country_code@.len() == 2
                        &&& !inputs_checksummable(country_code@, office, procedure)
                        &&& !char_ok(c)
                        &&& (upper_chars(country_code@).contains(c) || office.contains(c))
                    },
                    _ => false,
                },
            }
        }),
{
    let year = current_utc_year();
    let office_len: usize = match declaration_office {
        Some(o) => o.unicode_len(),
        None => 0,
    };
    let filler = sample_alphanumeric_bytes(14 - office_len);
    let r = assemble_mrn(country_code, procedure, declaration_office, year, &filler);
    proof {
        let office = opt_chars(declaration_office);
        let draft = mrn_draft(year as int, country_code@, office, filler@, procedure);
        if country_code@.len() == 2 {
            lemma_draft_structure(year as int, country_code@, office, filler@, procedure);
            match &r {
                Ok(m) => {
                    match correction(draft) {
                        Some(c) => {
                            assert(m@ == draft.update(17, c));
                            assert(forall|j: int| 0 <= j < 17 ==> m@[j] == draft[j]);
                            assert(m@.subrange(2, 4) =~= draft.subrange(2, 4));
                        },
                        None => {
                            assert(m@ == draft);
                        },
                    }
                },
                Err(e) => {
                    if let MrnGeneratorError::NotAlphanumeric(c) = *e {
                        let i = choose|i: int|
                            is_first_invalid(draft.take(17), i) && c == draft[i];
                        assert(!char_ok(draft.take(17)[i]));
                        assert(draft.take(17)[i] == draft[i]);
                    }
                },
            }
        }
    }
    r
}

} // verus!
