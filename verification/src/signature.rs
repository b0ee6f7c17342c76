//! Webhook payload authentication.
//!
//! A delivery is accepted only when its signature header carries the
//! lowercase-hex HMAC-SHA1 of the exact body bytes under the shared webhook
//! secret, prefixed `sha1=`.  A malformed header counts as verification
//! failure, never as an error, and the digests are compared in constant time.

use vstd::prelude::*;

use crate::chars::str_eq;

verus! {

use vstd::string::StrSliceExecFns;

/// Whether `c` is a hexadecimal digit (either case).
pub open spec fn is_hex_digit(c: char) -> bool {
    ||| (48 <= c as u32 && c as u32 <= 57)
    ||| (97 <= c as u32 && c as u32 <= 102)
    ||| (65 <= c as u32 && c as u32 <= 70)
}

/// The value of a hexadecimal digit; meaningful when `is_hex_digit(c)`.
pub open spec fn hex_digit_val(c: char) -> int
    recommends
        is_hex_digit(c),
{
    let u = c as u32;
    if 48 <= u && u <= 57 {
        u - 48
    } else if 97 <= u && u <= 102 {
        u - 87
    } else if 65 <= u && u <= 70 {
        u - 55
    } else {
        0
    }
}

/// Whether `s` is a well-formed hex encoding: even length, hex digits only.
pub open spec fn hex_ok(s: Seq<char>) -> bool {
    s.len() % 2 == 0 && (forall|i: int| 0 <= i < s.len() ==> is_hex_digit(s[i]))
}

/// The bytes a well-formed hex encoding stands for.
pub open spec fn hex_bytes(s: Seq<char>) -> Seq<u8>
    recommends
        hex_ok(s),
{
    Seq::new((s.len() / 2) as nat, |i: int| (hex_digit_val(s[2 * i]) * 16 + hex_digit_val(s[2 * i + 1])) as u8)
}

/// The HMAC-SHA1 digest of `payload` keyed by `secret`, a fixed function of
/// the two alone.
pub uninterp spec fn hmac_sha1_of(secret: Seq<char>, payload: Seq<char>) -> Seq<u8>;

/// Relies on `hex::FromHex for Vec<u8>` (hex crate): succeeds exactly on an
/// even-length string of hex digits, and maps each digit pair to one byte,
/// high digit first.
#[verifier::external_body]
fn hex_decode(s: &str) -> (r: Option<Vec<u8>>)
    ensures
        match r {
            Some(b) => hex_ok(s@) && b@ == hex_bytes(s@),
            None => !hex_ok(s@),
        },
{
    <Vec<u8> as hex::FromHex>::from_hex(s).ok()
}

/// Relies on `crypto::hmac::Hmac` over `crypto::sha1::Sha1` (rust-crypto):
/// the keyed HMAC digest of the payload bytes, 20 bytes long, a fixed
/// function of secret and payload.
#[verifier::external_body]
fn hmac_sha1(secret: &str, payload: &str) -> (r: Vec<u8>)
    ensures
        r@ == hmac_sha1_of(secret@, payload@),
        r@.len() == 20,
{
    let mut mac = crypto::hmac::Hmac::new(crypto::sha1::Sha1::new(), secret.as_bytes());
    crypto::mac::Mac::input(&mut mac, payload.as_bytes());
    let result = crypto::mac::Mac::result(&mut mac);
    result.code().to_vec()
}

/// Relies on `crypto::util::fixed_time_eq` (rust-crypto): byte-slice
/// equality whose running time does not depend on where the inputs differ.
#[verifier::external_body]
fn constant_time_eq(a: &[u8], b: &[u8]) -> (r: bool)
    ensures
        r == (a@ == b@),
{
    crypto::util::fixed_time_eq(a, b)
}

/// Whether `signature` authenticates `payload` under `secret`: the fixed
/// `sha1=` prefix followed by the hex encoding of the payload's HMAC-SHA1
/// digest.
pub open spec fn sig_valid(payload: Seq<char>, signature: Seq<char>, secret: Seq<char>) -> bool {
    &&& signature.len() >= 5
    &&& signature.subrange(0, 5) == "sha1="@
    &&& hex_ok(signature.skip(5))
    &&& hex_bytes(signature.skip(5)) == hmac_sha1_of(secret, payload)
}

/// Verify a webhook delivery.  Returns true exactly when the signature
/// header is well formed and its digest matches the payload's; any malformed
/// header yields false.
pub fn verify_signature(payload: &str, signature: &str, secret: &str) -> (r: bool)
    ensures
        r == sig_valid(payload@, signature@, secret@),
{
    let n = signature.unicode_len();
    if n < 5 {
        return false;
    }
    let prefix = signature.substring_char(0, 5);
    if !str_eq(prefix, "sha1=") {
        return false;
    }
    let rest = signature.substring_char(5, n);
    proof {
        assert(rest@ =~= signature@.skip(5));
    }
    let decoded = match hex_decode(rest) {
        Some(b) => b,
        None => {
            return false;
        },
    };
    let digest = hmac_sha1(secret, payload);
    constant_time_eq(digest.as_slice(), decoded.as_slice())
}

/// The lowercase hex digit for `d`; meaningful for `0 <= d < 16`.
pub open spec fn hex_char_of(d: int) -> char
    recommends
        0 <= d < 16,
{
    if d < 10 {
        ((48 + d) as u8) as char
    } else {
        ((87 + d) as u8) as char
    }
}

/// The lowercase hex encoding of `b`, two digits per byte, high digit first.
pub open spec fn hex_of(b: Seq<u8>) -> Seq<char> {
    Seq::new(2 * b.len(), |i: int| if i % 2 == 0 {
        hex_char_of(b[i / 2] as int / 16)
    } else {
        hex_char_of(b[i / 2] as int % 16)
    })
}

proof fn lemma_hex_char_of_val(d: int)
    requires
        0 <= d < 16,
    ensures
        is_hex_digit(hex_char_of(d)),
        hex_digit_val(hex_char_of(d)) == d,
{
}

/// Hex encoding and decoding are inverse: the encoding of any byte sequence
/// is well formed and decodes back to the same bytes.
pub proof fn lemma_hex_roundtrip(b: Seq<u8>)
    ensures
        hex_ok(hex_of(b)),
        hex_bytes(hex_of(b)) == b,
{
    let h = hex_of(b);
    assert forall|i: int| 0 <= i < h.len() implies is_hex_digit(h[i]) by {
        let k = if i % 2 == 0 {
            b[i / 2] as int / 16
        } else {
            b[i / 2] as int % 16
        };
        assert(0 <= k < 16);
        lemma_hex_char_of_val(k);
    }
    assert forall|i: int| 0 <= i < b.len() implies hex_bytes(h)[i] == b[i] by {
        assert((2 * i) % 2 == 0 && (2 * i + 1) % 2 == 1);
        assert((2 * i) / 2 == i && (2 * i + 1) / 2 == i);
        lemma_hex_char_of_val(b[i] as int / 16);
        lemma_hex_char_of_val(b[i] as int % 16);
        assert(hex_bytes(h)[i] == ((b[i] as int / 16) * 16 + (b[i] as int % 16)) as u8);
        assert((b[i] as int / 16) * 16 + (b[i] as int % 16) == b[i] as int) by {
            vstd::arithmetic::div_mod::lemma_fundamental_div_mod(b[i] as int, 16);
        }
    }
    assert(hex_bytes(h) =~= b);
}

/// Law: a signature built genuinely — the `sha1=` prefix on the hex encoding
/// of the payload's HMAC-SHA1 digest under the secret — always verifies.
pub proof fn lemma_verify_accepts_genuine(payload: Seq<char>, secret: Seq<char>)
    ensures
        sig_valid(payload, "sha1="@ + hex_of(hmac_sha1_of(secret, payload)), secret),
{
    reveal_strlit("sha1=");
    let sig = "sha1="@ + hex_of(hmac_sha1_of(secret, payload));
    assert(sig.subrange(0, 5) =~= "sha1="@);
    assert(sig.skip(5) =~= hex_of(hmac_sha1_of(secret, payload)));
    lemma_hex_roundtrip(hmac_sha1_of(secret, payload));
}

/// Law: a signature whose hex content encodes any byte sequence other than
/// the payload's digest is refused.
pub proof fn lemma_verify_rejects_altered(payload: Seq<char>, secret: Seq<char>, b: Seq<u8>)
    requires
        b != hmac_sha1_of(secret, payload),
    ensures
        !sig_valid(payload, "sha1="@ + hex_of(b), secret),
{
    reveal_strlit("sha1=");
    let sig = "sha1="@ + hex_of(b);
    assert(sig.skip(5) =~= hex_of(b));
    lemma_hex_roundtrip(b);
}

} // verus!
