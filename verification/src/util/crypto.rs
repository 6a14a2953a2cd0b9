//! Signing with HMAC-SHA1, and hexadecimal text.

use vstd::prelude::*;
use vstd::utf8::encode_utf8;

verus! {

/// The length of an SHA-1 digest written in hexadecimal.
pub const SHA1_LEN: usize = 40;

/// The HMAC-SHA1 of `data` under `key`.
pub uninterp spec fn hmac_sha1(key: Seq<u8>, data: Seq<u8>) -> Seq<u8>;

/// Computes an HMAC-SHA1 with `openssl`: an HMAC key made by
/// `openssl::pkey::PKey::hmac`, fed to an `openssl::sign::Signer` over
/// SHA-1. Its result is the HMAC of `data` under `key`, 20 bytes long (the
/// length of an SHA-1 digest); OpenSSL may report an error, which is not
/// tied to the arguments.
#[verifier::external_body]
fn openssl_hmac_sha1(key: &[u8], data: &[u8]) -> (r: Option<Vec<u8>>)
    requires
        key@.len() <= i32::MAX,
    ensures
        r matches Some(v) ==> v@ == hmac_sha1(key@, data@) && v@.len() == 20,
{
    let pkey = openssl::pkey::PKey::hmac(key).ok()?;
    let mut signer = openssl::sign::Signer::new(openssl::hash::MessageDigest::sha1(), &pkey).ok()?;
    signer.update(data).ok()?;
    signer.sign_to_vec().ok()
}

/// Calls `openssl::memcmp::eq`, which tells in constant time whether two
/// byte strings of the same length are equal (it panics on different
/// lengths).
#[verifier::external_body]
fn openssl_secure_eq(a: &[u8], b: &[u8]) -> (r: bool)
    requires
        a@.len() == b@.len(),
    ensures
        r == (a@ == b@),
{
    openssl::memcmp::eq(a, b)
}

/// What a computation of the HMAC-SHA1 of `data` under `key` may give:
/// that HMAC, or nothing when OpenSSL failed.
pub open spec fn hmac_outcome(h: Option<Seq<u8>>, key: Seq<u8>, data: Seq<u8>) -> bool {
    h matches Some(v) ==> v == hmac_sha1(key, data)
}

/// The HMAC-SHA1 of `data` under `key`; `None` when OpenSSL fails.
pub fn generate_sha1_hmac(key: &[u8], data: &[u8]) -> (r: Option<Vec<u8>>)
    requires
        key@.len() <= i32::MAX,
    ensures
        r matches Some(v) ==> v@ == hmac_sha1(key@, data@) && v@.len() == 20,
        hmac_outcome(match r { Some(v) => Some(v@), None => None }, key@, data@),
{
    openssl_hmac_sha1(key, data)
}

/// Whether a computed HMAC, `None` when OpenSSL could not compute one,
/// equals `signature`; equal lengths are compared in constant time.
pub fn hmac_matches(expected: &Option<Vec<u8>>, signature: &[u8]) -> (r: bool)
    ensures
        r == (expected matches Some(e) && e@ == signature@),
{
    match expected {
        Some(e) => {
            if e.len() != signature.len() {
                return false;
            }
            openssl_secure_eq(e.as_slice(), signature)
        },
        None => false,
    }
}

/// Whether `signature` is the HMAC-SHA1 of `data` under `key`, compared in
/// constant time; a signature of another length than an SHA-1 digest's
/// never is. The answer is [`hmac_matches`] of what OpenSSL computes:
/// `false` also when OpenSSL fails, which nothing here can rule out.
pub fn verify_sha1_hmac(key: &[u8], data: &[u8], signature: &[u8]) -> (r: bool)
    requires
        key@.len() <= i32::MAX,
    ensures
        r ==> signature@ == hmac_sha1(key@, data@),
        exists|h: Option<Seq<u8>>|
            #![trigger hmac_outcome(h, key@, data@)]
            hmac_outcome(h, key@, data@) && r == (h == Some(signature@)),
{
    let expected = openssl_hmac_sha1(key, data);
    let r = hmac_matches(&expected, signature);
    proof {
        let h = match expected { Some(v) => Some(v@), None => None };
        assert(hmac_outcome(h, key@, data@) && r == (h == Some(signature@)));
    }
    r
}

/// The value of a hexadecimal digit, in either case.
pub open spec fn hex_digit(c: u8) -> Option<u8> {
    if 48 <= c <= 57 {
        Some((c - 48) as u8)
    } else if 97 <= c <= 102 {
        Some((c - 87) as u8)
    } else if 65 <= c <= 70 {
        Some((c - 55) as u8)
    } else {
        None
    }
}

/// The bytes that hexadecimal text stands for: two digits a byte, the high
/// one first; `None` for an odd length or a character that is no digit.
pub open spec fn hex_decode(s: Seq<u8>) -> Option<Seq<u8>>
    decreases s.len(),
{
    if s.len() % 2 != 0 {
        None
    } else if s.len() == 0 {
        Some(seq![])
    } else {
        match (hex_digit(s[0]), hex_digit(s[1]), hex_decode(s.skip(2))) {
            (Some(h), Some(l), Some(rest)) => Some(seq![(h * 16 + l) as u8] + rest),
            _ => None,
        }
    }
}

/// Hexadecimal text of bytes, in lower case.
pub open spec fn hex_char(d: int) -> char {
    if d < 10 {
        (d + 48) as char
    } else {
        (d + 87) as char
    }
}

pub open spec fn hex_encode(b: Seq<u8>) -> Seq<char> {
    Seq::new(2 * b.len(), |i: int| if i % 2 == 0 { hex_char((b[i / 2] / 16) as int) } else { hex_char((b[i / 2] % 16) as int) })
}

#[verifier::external_type_specification]
#[verifier::external_body]
pub struct ExFromHexError(hex::FromHexError);

/// Calls `hex::FromHex` for `Vec<u8>`, which decodes pairs of hexadecimal
/// digits (either case) and fails on an odd length or another character.
#[verifier::external_body]
fn hex_from_hex(s: &[u8]) -> (r: Result<Vec<u8>, hex::FromHexError>)
    ensures
        match r {
            Ok(v) => hex_decode(s@) == Some(v@),
            Err(_) => hex_decode(s@) is None,
        },
{
    <Vec<u8> as hex::FromHex>::from_hex(s)
}

/// Calls `hex::encode`, which writes each byte as two lower-case
/// hexadecimal digits.
#[verifier::external_body]
fn hex_encode_lower(b: &[u8]) -> (r: String)
    ensures
        r@ == hex_encode(b@),
{
    hex::encode(b)
}

/// Decode hexadecimal text; see [`hex_decode`].
pub fn from_hex(s: &[u8]) -> (r: Option<Vec<u8>>)
    ensures
        match r {
            Some(v) => hex_decode(s@) == Some(v@),
            None => hex_decode(s@) is None,
        },
{
    match hex_from_hex(s) {
        Ok(v) => Some(v),
        Err(_) => None,
    }
}

/// Write bytes as lower-case hexadecimal text; see [`hex_encode`].
pub fn to_hex(b: &[u8]) -> (r: String)
    ensures
        r@ == hex_encode(b@),
{
    hex_encode_lower(b)
}

/// Decoded hexadecimal text is half as long.
pub proof fn lemma_hex_decode_len(s: Seq<u8>)
    ensures
        hex_decode(s) matches Some(v) ==> 2 * v.len() == s.len(),
    decreases s.len(),
{
    if s.len() % 2 == 0 && s.len() > 0 {
        lemma_hex_decode_len(s.skip(2));
    }
}

/// The bytes of hexadecimal text written by [`hex_encode`].
pub open spec fn hex_encode_bytes(b: Seq<u8>) -> Seq<u8> {
    Seq::new(2 * b.len(), |i: int| hex_char(if i % 2 == 0 { (b[i / 2] / 16) as int } else { (b[i / 2] % 16) as int }) as u8)
}

proof fn lemma_hex_char_digit(d: int)
    requires
        0 <= d < 16,
    ensures
        hex_digit(hex_char(d) as u8) == Some(d as u8),
        '\0' <= hex_char(d) <= '\u{7f}',
{
    if d < 10 {
        assert(((d + 48) as char) as int == d + 48);
        assert(((d + 48) as char) as u8 == d + 48);
    } else {
        assert(((d + 87) as char) as int == d + 87);
        assert(((d + 87) as char) as u8 == d + 87);
    }
}

proof fn lemma_hex_decode_encode(b: Seq<u8>)
    ensures
        hex_decode(hex_encode_bytes(b)) == Some(b),
    decreases b.len(),
{
    let e = hex_encode_bytes(b);
    if b.len() > 0 {
        lemma_hex_char_digit((b[0] / 16) as int);
        lemma_hex_char_digit((b[0] % 16) as int);
        assert(e.skip(2) =~= hex_encode_bytes(b.drop_first()));
        lemma_hex_decode_encode(b.drop_first());
        assert(((b[0] / 16) * 16 + b[0] % 16) as u8 == b[0]);
        assert(seq![b[0]] + b.drop_first() =~= b);
    } else {
        assert(e =~= Seq::<u8>::empty());
    }
}

/// Hexadecimal text written by [`to_hex`] decodes, by [`from_hex`], back
/// to the bytes it was written from.
pub proof fn lemma_hex_round_trip(b: Seq<u8>)
    ensures
        hex_decode(encode_utf8(hex_encode(b))) == Some(b),
        encode_utf8(hex_encode(b)).len() == 2 * b.len(),
{
    let t = hex_encode(b);
    assert forall|i: int| 0 <= i < t.len() implies '\0' <= #[trigger] t[i] <= '\u{7f}' by {
        if i % 2 == 0 {
            lemma_hex_char_digit((b[i / 2] / 16) as int);
        } else {
            lemma_hex_char_digit((b[i / 2] % 16) as int);
        }
    }
    vstd::utf8::is_ascii_chars_encode_utf8(t);
    assert(encode_utf8(t) =~= hex_encode_bytes(b));
    lemma_hex_decode_encode(b);
}

} // verus!
