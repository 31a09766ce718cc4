use vstd::prelude::*;

verus! {

/// Relies on std's `String::push`: appends the given character to the end
/// of the string.
pub assume_specification[ String::push ](s: &mut String, ch: char)
    ensures
        final (s)@ == old(s)@.push(ch),
;

/// ASCII uppercasing of one character: a lowercase ASCII letter loses 32
/// from its code, every other character stays as it is.
pub open spec fn to_upper(c: char) -> char {
    if 97 <= c as int && c as int <= 122 {
        (c as int - 32) as char
    } else {
        c
    }
}

/// ASCII uppercasing of a whole sequence of characters.
pub open spec fn upper_chars(s: Seq<char>) -> Seq<char> {
    s.map_values(|c: char| to_upper(c))
}

/// Uppercases one character, as [`to_upper`] describes.
pub(crate) fn to_upper_exec(c: char) -> (r: char)
    ensures
        r == to_upper(c),
{
    let u = c as u32;
    if 97 <= u && u <= 122 {
        ((u - 32) as u8) as char
    } else {
        c
    }
}

/// Uppercases every ASCII letter of the string.
pub fn capitalize(s: &str) -> (r: String)
    ensures
        r@ == upper_chars(s@),
{
    let n = s.unicode_len();
    let mut out = String::new();
    let mut i: usize = 0;
    while i < n
        invariant
            i <= n,
            n == s@.len(),
            out@ == upper_chars(s@).take(i as int),
        decreases n - i,
    {
        let c = s.get_char(i);
        out.push(to_upper_exec(c));
        i = i + 1;
        proof {
            assert(upper_chars(s@).take(i as int) =~= upper_chars(s@).take(i - 1).push(
                to_upper(s@[i - 1]),
            ));
        }
    }
    proof {
        assert(upper_chars(s@).take(n as int) =~= upper_chars(s@));
    }
    out
}

/// Replaces the last character of the string with `c`; an empty string
/// becomes the one-character string `c`.
pub fn replace_last_char(s: &str, c: char) -> (r: String)
    ensures
        s@.len() > 0 ==> r@ == s@.update(s@.len() - 1, c),
        s@.len() == 0 ==> r@ == seq![c],
{
    let n = s.unicode_len();
    let m: usize = if n == 0 {
        0
    } else {
        n - 1
    };
    let mut out = String::new();
    let mut i: usize = 0;
    while i < m
        invariant
            i <= m,
            m <= n,
            n == s@.len(),
            n > 0 ==> m == n - 1,
            out@ == s@.take(i as int),
        decreases m - i,
    {
        let c0 = s.get_char(i);
        out.push(c0);
        i = i + 1;
        proof {
            assert(s@.take(i as int) =~= s@.take(i - 1).push(s@[i - 1]));
        }
    }
    out.push(c);
    proof {
        if s@.len() > 0 {
            assert(s@.take(s@.len() - 1).push(c) =~= s@.update(s@.len() - 1, c));
        } else {
            assert(s@.take(0).push(c) =~= seq![c]);
        }
    }
    out
}

/// Collects a vector of characters into a string.
pub(crate) fn vec_to_string(v: &Vec<char>) -> (r: String)
    ensures
        r@ == v@,
{
    let mut out = String::new();
    let mut i: usize = 0;
    while i < v.len()
        invariant
            i <= v@.len(),
            out@ == v@.take(i as int),
        decreases v@.len() - i,
    {
        out.push(v[i]);
        i = i + 1;
        proof {
            assert(v@.take(i as int) =~= v@.take(i - 1).push(v@[i - 1]));
        }
    }
    proof {
        assert(v@.take(v@.len() as int) =~= v@);
    }
    out
}

/// Character-by-character equality of two strings.
pub(crate) fn str_eq(a: &str, b: &str) -> (r: bool)
    ensures
        r == (a@ == b@),
{
    let na = a.unicode_len();
    let nb = b.unicode_len();
    if na != nb {
        return false;
    }
    let mut i: usize = 0;
    while i < na
        invariant
            i <= na,
            na == a@.len(),
            na == b@.len(),
            forall|j: int| 0 <= j < i ==> a@[j] == b@[j],
        decreases na - i,
    {
        let ca = a.get_char(i);
        let cb = b.get_char(i);
        if ca != cb {
            return false;
        }
        i = i + 1;
    }
    proof {
        assert(a@ =~= b@);
    }
    true
}

} // verus!
