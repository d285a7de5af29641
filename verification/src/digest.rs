//! Certificate fingerprints: the SHA-256 digest of a certificate's DER
//! encoding, written in lower-case hexadecimal.

use crate::text::{ascii_chars, is_ascii_bytes};
use vstd::prelude::*;

verus! {

/// The SHA-256 digest of `data`, as computed by the `sha2` crate.
pub uninterp spec fn sha256(data: Seq<u8>) -> Seq<u8>;

/// The lower-case hexadecimal digit for a value below 16, as an ASCII byte.
pub open spec fn hex_lower_digit(d: nat) -> u8 {
    if d < 10 {
        (48 + d) as u8
    } else {
        (87 + d) as u8
    }
}

/// Two lower-case hexadecimal digits for each byte, high digit first.
pub open spec fn hex_lower_bytes(data: Seq<u8>) -> Seq<u8> {
    Seq::new(
        2 * data.len(),
        |i: int|
            if i % 2 == 0 {
                hex_lower_digit((data[i / 2] / 16) as nat)
            } else {
                hex_lower_digit((data[i / 2] % 16) as nat)
            },
    )
}

/// `data` in lower-case hexadecimal.
pub open spec fn hex_lower_text(data: Seq<u8>) -> Seq<char> {
    ascii_chars(hex_lower_bytes(data))
}

/// The fingerprint of a certificate: its SHA-256 digest in lower-case
/// hexadecimal.
pub open spec fn fingerprint_text(cert_der: Seq<u8>) -> Seq<char> {
    hex_lower_text(sha256(cert_der))
}

/// A lower-case hexadecimal digit.
pub open spec fn is_lower_hex_digit(c: char) -> bool {
    ('0' <= c && c <= '9') || ('a' <= c && c <= 'f')
}

/// Hexadecimal text has two digits for each byte, all of them lower-case.
pub proof fn lemma_hex_lower_text(data: Seq<u8>)
    ensures
        hex_lower_text(data).len() == 2 * data.len(),
        is_ascii_bytes(hex_lower_bytes(data)),
        forall|i: int|
            0 <= i < 2 * data.len() ==> is_lower_hex_digit(#[trigger] hex_lower_text(data)[i]),
{
    let bytes = hex_lower_bytes(data);
    assert forall|i: int| 0 <= i < bytes.len() implies #[trigger] bytes[i] < 128
        && is_lower_hex_digit(bytes[i] as char) by {
        let b = data[i / 2];
        assert(b / 16 < 16);
        assert(b % 16 < 16);
    }
    assert forall|i: int| 0 <= i < 2 * data.len() implies is_lower_hex_digit(
        #[trigger] hex_lower_text(data)[i],
    ) by {
        assert(hex_lower_text(data)[i] == bytes[i] as char);
    }
}

/// `Sha256::digest` of the `sha2` crate: the 32-byte SHA-256 digest of the
/// data.
#[verifier::external_body]
pub(crate) fn sha256_digest(data: &[u8]) -> (digest: Vec<u8>)
    ensures
        digest@ == sha256(data@),
        digest@.len() == 32,
{
    <sha2::Sha256 as sha2::Digest>::digest(data).to_vec()
}

/// `hex::encode`: two lower-case hexadecimal digits for each byte.
#[verifier::external_body]
pub(crate) fn hex_encode(data: &[u8]) -> (text: String)
    ensures
        text@ == hex_lower_text(data@),
{
    hex::encode(data)
}

/// The fingerprint that goes with a digest: the digest in lower-case
/// hexadecimal, two digits for each byte.
pub fn fingerprint_of_digest(digest: &[u8]) -> (fingerprint: String)
    ensures
        fingerprint@ == hex_lower_text(digest@),
        fingerprint@.len() == 2 * digest@.len(),
        forall|i: int|
            0 <= i < 2 * digest@.len() ==> is_lower_hex_digit(#[trigger] fingerprint@[i]),
{
    proof {
        lemma_hex_lower_text(digest@);
    }
    hex_encode(digest)
}

/// The fingerprint of a certificate in DER encoding: 64 lower-case
/// hexadecimal digits.
pub fn compute_fingerprint(cert_der: &[u8]) -> (fingerprint: String)
    ensures
        fingerprint@ == fingerprint_text(cert_der@),
        fingerprint@.len() == 64,
        forall|i: int| 0 <= i < 64 ==> is_lower_hex_digit(#[trigger] fingerprint@[i]),
{
    let digest = sha256_digest(cert_der);
    fingerprint_of_digest(digest.as_slice())
}

} // verus!
