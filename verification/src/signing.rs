//! Signing utilities of the login handshake: the password hash and the
//! per-step client signature derived from the server-issued nonce.

use vstd::prelude::*;
use vstd::string::*;
use vstd::utf8::encode_utf8;

use crate::text::{
    dec_int, hex_upper, i64_dec, is_alnum_char, is_upper_hex_char,
    lemma_dec_int_chars, lemma_dec_int_injective, lemma_hex_upper_shape, to_hex_upper,
};

use base64ct::Encoding;
use md5::Digest;

verus! {

/// What the MD5 digest of a byte string is; fixed by the MD5 function alone.
pub uninterp spec fn md5_of(bytes: Seq<u8>) -> Seq<u8>;

/// What the SHA-1 digest of a byte string is; fixed by the SHA-1 function
/// alone.
pub uninterp spec fn sha1_of(bytes: Seq<u8>) -> Seq<u8>;

/// What the padded standard base64 rendering of a byte string is.
pub uninterp spec fn base64_of(bytes: Seq<u8>) -> Seq<char>;

pub open spec fn is_base64_char(c: char) -> bool {
    ||| is_alnum_char(c)
    ||| c == '+'
    ||| c == '/'
    ||| c == '='
}

/// Relies on `md5::Md5` through the `Digest` trait: the digest depends on the
/// input bytes alone and is 16 bytes long.
#[verifier::external_body]
fn md5_digest(bytes: &[u8]) -> (r: Vec<u8>)
    ensures
        r@ == md5_of(bytes@),
        r@.len() == 16,
{
    md5::Md5::digest(bytes).to_vec()
}

/// Relies on `sha1::Sha1` through the `Digest` trait: the digest depends on
/// the input bytes alone and is 20 bytes long.
#[verifier::external_body]
fn sha1_digest(bytes: &[u8]) -> (r: Vec<u8>)
    ensures
        r@ == sha1_of(bytes@),
        r@.len() == 20,
{
    sha1::Sha1::digest(bytes).to_vec()
}

/// Relies on `base64ct::Base64::encode_string`: standard base64 with padding
/// (RFC 4648), a function of the input bytes alone; the output takes four
/// characters of the base64 alphabet per three input bytes, rounded up, and
/// an input that is not a multiple of three bytes ends in `=` padding.  The
/// call panics on inputs longer than a quarter of the address space, which
/// the precondition keeps out.
#[verifier::external_body]
fn base64_encode(bytes: &[u8]) -> (r: String)
    requires
        bytes@.len() <= usize::MAX / 4,
    ensures
        r@ == base64_of(bytes@),
        r@.len() == 4 * ((bytes@.len() + 2) / 3),
        forall|i: int| 0 <= i < r@.len() ==> is_base64_char(#[trigger] r@[i]),
        bytes@.len() % 3 != 0 ==> r@.len() > 0 && r@[r@.len() - 1] == '=',
{
    base64ct::Base64::encode_string(bytes)
}

/// The password hash sent in the second handshake phase: the MD5 digest of
/// the UTF-8 bytes of the password, in upper-case hex.
pub open spec fn spec_hash_password(password: Seq<char>) -> Seq<char> {
    hex_upper(md5_of(encode_utf8(password)))
}

/// Hashes the account password for the handshake form.
///
/// The result is determined by the password alone: a fixed-length (32
/// character) upper-case hexadecimal rendering of the MD5 digest of the
/// password's UTF-8 bytes.
pub fn hash_password(password: &str) -> (r: String)
    ensures
        r@ == spec_hash_password(password@),
        r@.len() == 32,
        forall|i: int| 0 <= i < r@.len() ==> is_upper_hex_char(#[trigger] r@[i]),
{
    let bytes = password.as_bytes_vec();
    let digest = md5_digest(bytes.as_slice());
    let r = to_hex_upper(digest.as_slice());
    proof {
        lemma_hex_upper_shape(digest@);
    }
    r
}

/// The exact byte string signed in the token-exchange phase: the literal
/// text `nonce=`, the decimal nonce, a single `&`, and the `ssecurity`
/// secret, in that order.  Any deviation is rejected by the server.
pub open spec fn sign_input(nonce: int, ssecurity: Seq<char>) -> Seq<char> {
    "nonce="@ + dec_int(nonce) + "&"@ + ssecurity
}

/// The signature of the token-exchange phase: base64 of the SHA-1 digest of
/// the UTF-8 bytes of `sign_input`.
pub open spec fn spec_client_sign(nonce: int, ssecurity: Seq<char>) -> Seq<char> {
    base64_of(sha1_of(encode_utf8(sign_input(nonce, ssecurity))))
}

/// Computes the token-exchange signature.
///
/// The result is determined by the two inputs alone: twenty-eight
/// characters of the base64 alphabet — four per three bytes of the
/// twenty-byte digest — closed by the `=` that pads the last group.
pub fn client_sign(nonce: i64, ssecurity: &str) -> (r: String)
    ensures
        r@ == spec_client_sign(nonce as int, ssecurity@),
        r@.len() == 28,
        r@[27] == '=',
        forall|i: int| 0 <= i < r@.len() ==> is_base64_char(#[trigger] r@[i]),
{
    let mut input = String::from_str("nonce=");
    let num = i64_dec(nonce);
    input.append(num.as_str());
    input.append("&");
    input.append(ssecurity);
    assert(input@ =~= sign_input(nonce as int, ssecurity@));
    let bytes = input.as_str().as_bytes_vec();
    let digest = sha1_digest(bytes.as_slice());
    base64_encode(digest.as_slice())
}

/// The signed text determines the inputs: two equal sign inputs can only
/// come from the same nonce and the same secret.  (Nothing is claimed about
/// SHA-1 or base64 beyond being functions of this text.)
pub proof fn lemma_sign_input_injective(n1: int, s1: Seq<char>, n2: int, s2: Seq<char>)
    requires
        sign_input(n1, s1) == sign_input(n2, s2),
    ensures
        n1 == n2,
        s1 == s2,
{
    reveal_strlit("nonce=");
    reveal_strlit("&");
    let d1 = dec_int(n1);
    let d2 = dec_int(n2);
    lemma_dec_int_chars(n1);
    lemma_dec_int_chars(n2);
    let t1 = sign_input(n1, s1);
    let t2 = sign_input(n2, s2);
    assert(t1.len() == 7 + d1.len() + s1.len());
    assert(t2.len() == 7 + d2.len() + s2.len());
    // The first '&' after the fixed prefix marks the end of the numeral:
    // numerals hold only digits and a possible leading '-', never '&'.
    if d1.len() < d2.len() {
        assert(t1[6 + d1.len() as int] == '&');
        assert(t2[6 + d1.len() as int] == d2[d1.len() as int]);
        assert(false);
    }
    if d2.len() < d1.len() {
        assert(t2[6 + d2.len() as int] == '&');
        assert(t1[6 + d2.len() as int] == d1[d2.len() as int]);
        assert(false);
    }
    assert(d1.len() == d2.len());
    assert forall|i: int| 0 <= i < d1.len() implies d1[i] == d2[i] by {
        assert(t1[6 + i] == d1[i]);
        assert(t2[6 + i] == d2[i]);
    }
    assert(d1 =~= d2);
    lemma_dec_int_injective(n1, n2);
    assert(s1.len() == s2.len());
    assert forall|i: int| 0 <= i < s1.len() implies s1[i] == s2[i] by {
        assert(t1[7 + d1.len() + i] == s1[i]);
        assert(t2[7 + d2.len() + i] == s2[i]);
    }
    assert(s1 =~= s2);
}

} // verus!
