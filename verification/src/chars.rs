//! Character and string helpers shared by the policy and parsing modules.

use vstd::prelude::*;

verus! {

use vstd::string::StrSliceExecFns;

/// ASCII lowercasing of one character: 'A'..'Z' map to 'a'..'z', everything
/// else is unchanged.
pub open spec fn lower_char(c: char) -> char {
    if 65 <= c as u32 && c as u32 <= 90 {
        (((c as u32) + 32) as u8) as char
    } else {
        c
    }
}

/// ASCII lowercasing of a whole character sequence.
pub open spec fn lower_chars(s: Seq<char>) -> Seq<char> {
    s.map_values(|c: char| lower_char(c))
}

pub fn to_lower_char(c: char) -> (r: char)
    ensures
        r == lower_char(c),
{
    let u = c as u32;
    if 65 <= u && u <= 90 {
        ((u + 32) as u8) as char
    } else {
        c
    }
}

/// Whether `c` counts as alphanumeric under Unicode's definition.
pub uninterp spec fn unicode_alphanumeric(c: char) -> bool;

/// Relies on `char::is_alphanumeric` (std): true exactly for characters in
/// the Unicode Alphabetic or Number categories, a fixed property of the
/// character alone.  The second clause is the closure of that class under
/// ASCII lowercasing: `lower_char` maps `A`..`Z` into `a`..`z`, which are
/// alphabetic, and leaves every other character unchanged.
#[verifier::external_body]
pub fn char_is_alphanumeric(c: char) -> (r: bool)
    ensures
        r == unicode_alphanumeric(c),
        r ==> unicode_alphanumeric(lower_char(c)),
{
    c.is_alphanumeric()
}

/// ASCII lowercasing is idempotent: a lowercased character is left alone.
pub proof fn lemma_lower_char_idempotent(c: char)
    ensures
        lower_char(lower_char(c)) == lower_char(c),
{
    if 65 <= c as u32 && c as u32 <= 90 {
        assert(lower_char(c) as u32 == c as u32 + 32);
    }
}

/// Relies on std's `FromIterator<char> for String`: collecting characters
/// yields the string made of exactly those characters, in order.
#[verifier::external_body]
pub fn chars_to_string(v: &Vec<char>) -> (r: String)
    ensures
        r@ == v@,
{
    v.iter().collect()
}

/// Character-wise string equality.
pub fn str_eq(a: &str, b: &str) -> (r: bool)
    ensures
        r == (a@ == b@),
{
    let alen = a.unicode_len();
    let blen = b.unicode_len();
    if alen != blen {
        return false;
    }
    let mut i: usize = 0;
    while i < alen
        invariant
            i <= alen,
            alen == a@.len(),
            alen == b@.len(),
            forall|k: int| 0 <= k < i ==> a@[k] == b@[k],
        decreases alen - i,
    {
        if a.get_char(i) != b.get_char(i) {
            return false;
        }
        i = i + 1;
    }
    proof {
        assert(a@ =~= b@);
    }
    true
}

/// Whether the character sequence `s` begins with `p`.
pub open spec fn seq_starts_with(s: Seq<char>, p: Seq<char>) -> bool {
    s.len() >= p.len() && s.subrange(0, p.len() as int) == p
}

/// Whether the characters in `v` start with the characters of `s`.
pub fn chars_start_with_str(v: &Vec<char>, s: &str) -> (r: bool)
    ensures
        r == seq_starts_with(v@, s@),
{
    let slen = s.unicode_len();
    if v.len() < slen {
        return false;
    }
    let mut i: usize = 0;
    while i < slen
        invariant
            i <= slen,
            slen == s@.len(),
            slen <= v@.len(),
            forall|k: int| 0 <= k < i ==> v@[k] == s@[k],
        decreases slen - i,
    {
        if v[i] != s.get_char(i) {
            return false;
        }
        i = i + 1;
    }
    proof {
        assert(v@.subrange(0, s@.len() as int) =~= s@);
    }
    true
}

/// The decimal digit `d` as a character; meaningful for `0 <= d < 10`.
pub open spec fn digit_char(d: int) -> char
    recommends
        0 <= d < 10,
{
    ((48 + d) as u8) as char
}

/// The decimal representation of `n`, most significant digit first, with no
/// leading zeros (a single '0' for zero).
pub open spec fn dec_chars(n: nat) -> Seq<char>
    decreases n,
{
    if n < 10 {
        seq![digit_char(n as int)]
    } else {
        dec_chars(n / 10).push(digit_char((n % 10) as int))
    }
}

proof fn lemma_reverse_push(s: Seq<char>, c: char)
    ensures
        s.push(c).reverse() =~= seq![c] + s.reverse(),
{
}

/// The decimal digits of `n`.
#[verifier::rlimit(50)]
pub fn usize_to_dec_chars(n: usize) -> (r: Vec<char>)
    ensures
        r@ == dec_chars(n as nat),
{
    let mut digits: Vec<char> = Vec::new();
    let mut m = n;
    while m >= 10
        invariant
            dec_chars(n as nat) == dec_chars(m as nat) + digits@.reverse(),
        decreases m,
    {
        let d = (48 + (m % 10) as u8) as char;
        proof {
            assert(dec_chars(m as nat) == dec_chars((m as nat) / 10).push(digit_char(
                ((m as nat) % 10) as int,
            )));
            lemma_reverse_push(digits@, d);
            assert(dec_chars((m as nat) / 10) + digits@.push(d).reverse() =~= dec_chars(
                m as nat,
            ) + digits@.reverse());
        }
        digits.push(d);
        m = m / 10;
    }
    let d = (48 + (m % 10) as u8) as char;
    proof {
        assert(dec_chars(m as nat) =~= seq![digit_char(m as int)]);
        lemma_reverse_push(digits@, d);
        assert(dec_chars(m as nat) + digits@.reverse() =~= digits@.push(d).reverse());
    }
    digits.push(d);
    let mut out: Vec<char> = Vec::new();
    let mut j = digits.len();
    while j > 0
        invariant
            j <= digits@.len(),
            out@ == digits@.skip(j as int).reverse(),
        decreases j,
    {
        j = j - 1;
        out.push(digits[j]);
        proof {
            assert(out@ =~= digits@.skip(j as int).reverse());
        }
    }
    proof {
        assert(digits@.skip(0) =~= digits@);
        assert(out@ =~= dec_chars(n as nat));
    }
    out
}

} // verus!
