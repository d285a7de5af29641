//! Certificate pinning: a peer is trusted when the fingerprint of the
//! certificate it presents is the one that was obtained beforehand.

use crate::digest::{fingerprint_of_digest, fingerprint_text, hex_lower_text, sha256_digest};
use crate::text::{
    ascii_chars, ascii_string, is_ascii_bytes, lemma_text_of_ascii_encoding,
};
use vstd::prelude::*;
use vstd::string::StringExecFns;
use vstd::utf8::*;

verus! {

/// Why a fingerprint was refused.
#[derive(Debug, Clone, Copy, PartialEq, Eq, Structural)]
pub enum FingerprintError {
    /// The text is not 64 hexadecimal digits.
    InvalidFormat,
    /// The certificate's fingerprint is not the pinned one.
    Mismatch,
}

impl FingerprintError {
    pub open spec fn message_text(self) -> Seq<char> {
        match self {
            FingerprintError::InvalidFormat => "invalid SHA-256 fingerprint format"@,
            FingerprintError::Mismatch => "certificate fingerprint mismatch"@,
        }
    }

    /// The description of the error, as a handshake reports it.
    pub fn message(&self) -> (m: String)
        ensures
            m@ == self.message_text(),
    {
        match self {
            FingerprintError::InvalidFormat => String::from_str(
                "invalid SHA-256 fingerprint format",
            ),
            FingerprintError::Mismatch => String::from_str("certificate fingerprint mismatch"),
        }
    }
}

/// A hexadecimal digit of either case.
pub open spec fn is_hex_digit(c: char) -> bool {
    ('0' <= c && c <= '9') || ('a' <= c && c <= 'f') || ('A' <= c && c <= 'F')
}

/// A character with an upper-case ASCII letter turned to lower case.
pub open spec fn ascii_lower(c: char) -> char {
    if 'A' <= c && c <= 'Z' {
        ((c as u8) + 32) as char
    } else {
        c
    }
}

/// A text with its upper-case ASCII letters turned to lower case.
pub open spec fn lower_text(s: Seq<char>) -> Seq<char> {
    Seq::new(s.len(), |i: int| ascii_lower(s[i]))
}

/// A fingerprint as it may be given: exactly 64 hexadecimal digits.
pub open spec fn is_fingerprint_text(s: Seq<char>) -> bool {
    s.len() == 64 && forall|i: int| 0 <= i < 64 ==> is_hex_digit(#[trigger] s[i])
}

/// Two texts that differ at most in the case of their ASCII letters.
pub open spec fn eq_ignore_ascii_case(a: Seq<char>, b: Seq<char>) -> bool {
    lower_text(a) == lower_text(b)
}

spec fn is_hex_byte(b: u8) -> bool {
    (48 <= b && b <= 57) || (97 <= b && b <= 102) || (65 <= b && b <= 70)
}

spec fn lower_byte(b: u8) -> u8 {
    if 65 <= b && b <= 90 {
        (b + 32) as u8
    } else {
        b
    }
}

/// Verifies that a certificate is the pinned one. The same verifier serves
/// for the certificate of a server and for that of a client.
#[derive(Debug, Clone)]
pub struct FingerprintVerifier {
    /// The pinned fingerprint, in lower case.
    pub expected_fingerprint: String,
}

impl FingerprintVerifier {
    /// Whether the verifier accepts a certificate.
    pub open spec fn accepts(&self, cert_der: Seq<u8>) -> bool {
        fingerprint_text(cert_der) == self.expected_fingerprint@
    }

    /// Pins a fingerprint. It must be 64 hexadecimal digits; their case does
    /// not matter, and the pin is kept in lower case.
    pub fn new(expected_fingerprint: String) -> (res: Result<Self, FingerprintError>)
        ensures
            match res {
                Ok(v) => is_fingerprint_text(expected_fingerprint@) && v.expected_fingerprint@
                    == lower_text(expected_fingerprint@),
                Err(e) => !is_fingerprint_text(expected_fingerprint@) && e
                    == FingerprintError::InvalidFormat,
            },
    {
        let ghost text = expected_fingerprint@;
        let bytes = expected_fingerprint.as_str().as_bytes();
        proof {
            if is_fingerprint_text(text) {
                assert(is_ascii_chars(text)) by {
                    assert forall|i: int| 0 <= i < text.len() implies '\0' <= #[trigger] text[i]
                        <= '\u{7f}' by {
                        assert(is_hex_digit(text[i]));
                    }
                }
                is_ascii_chars_encode_utf8(text);
            }
        }
        if bytes.len() != 64 {
            return Err(FingerprintError::InvalidFormat);
        }
        let mut lower: Vec<u8> = Vec::new();
        let mut i: usize = 0;
        while i < 64
            invariant
                i <= 64,
                text == expected_fingerprint@,
                bytes@.len() == 64,
                bytes@ == encode_utf8(text),
                is_fingerprint_text(text) ==> text.len() == 64 && forall|k: int|
                    #![trigger text[k]]
                    0 <= k < 64 ==> text[k] as u8 == bytes@[k],
                lower@.len() == i,
                forall|k: int| 0 <= k < i ==> is_hex_byte(#[trigger] bytes@[k]),
                forall|k: int| 0 <= k < i ==> #[trigger] lower@[k] == lower_byte(bytes@[k]),
            decreases 64 - i,
        {
            let b = bytes[i];
            let is_hex = (48 <= b && b <= 57) || (97 <= b && b <= 102) || (65 <= b && b <= 70);
            if !is_hex {
                proof {
                    if is_fingerprint_text(text) {
                        let c = text[i as int];
                        assert(is_hex_digit(c));
                        assert(c as u8 == b);
                        assert(is_hex_byte(c as u8));
                    }
                }
                return Err(FingerprintError::InvalidFormat);
            }
            lower.push(if 65 <= b && b <= 90 { b + 32 } else { b });
            i = i + 1;
        }
        proof {
            assert(is_ascii_bytes(bytes@));
            lemma_text_of_ascii_encoding(text);
            assert(text.len() == 64);
            assert forall|k: int| 0 <= k < 64 implies is_hex_digit(#[trigger] text[k]) by {
                assert(is_hex_byte(bytes@[k]));
                assert(text[k] == bytes@[k] as char);
            }
            assert(is_ascii_bytes(lower@));
            assert(ascii_chars(lower@) =~= lower_text(text)) by {
                assert forall|k: int| 0 <= k < 64 implies ascii_chars(lower@)[k] == lower_text(
                    text,
                )[k] by {
                    assert(lower@[k] == lower_byte(bytes@[k]));
                    assert(text[k] == bytes@[k] as char);
                }
            }
        }
        Ok(FingerprintVerifier { expected_fingerprint: ascii_string(lower.as_slice()) })
    }

    /// Accepts the digest whose fingerprint is the pinned one, and no other.
    pub fn verify_digest(&self, digest: &[u8]) -> (res: Result<(), FingerprintError>)
        ensures
            res is Ok <==> hex_lower_text(digest@) == self.expected_fingerprint@,
            res matches Err(e) ==> e == FingerprintError::Mismatch,
    {
        let actual = fingerprint_of_digest(digest);
        if actual == self.expected_fingerprint {
            Ok(())
        } else {
            Err(FingerprintError::Mismatch)
        }
    }

    /// Accepts the certificate whose fingerprint is the pinned one, and no
    /// other.
    pub fn verify_fingerprint(&self, cert_der: &[u8]) -> (res: Result<(), FingerprintError>)
        ensures
            res is Ok <==> self.accepts(cert_der@),
            res matches Err(e) ==> e == FingerprintError::Mismatch,
    {
        let digest = sha256_digest(cert_der);
        self.verify_digest(digest.as_slice())
    }
}

/// Lower-case hexadecimal text is left as it is by `lower_text`.
pub proof fn lemma_fingerprint_is_lower(cert_der: Seq<u8>)
    ensures
        lower_text(fingerprint_text(cert_der)) == fingerprint_text(cert_der),
{
    let f = fingerprint_text(cert_der);
    crate::digest::lemma_hex_lower_text(crate::digest::sha256(cert_der));
    assert(lower_text(f) =~= f) by {
        assert forall|i: int| 0 <= i < f.len() implies lower_text(f)[i] == f[i] by {
            assert(crate::digest::is_lower_hex_digit(f[i]));
        }
    }
}

/// A verifier made from a well-formed pin accepts a certificate exactly when
/// the certificate's fingerprint is the pin, the case of letters aside.
pub proof fn law_pinned_fingerprint(pin: Seq<char>, verifier: FingerprintVerifier, cert_der: Seq<u8>)
    requires
        is_fingerprint_text(pin),
        verifier.expected_fingerprint@ == lower_text(pin),
    ensures
        verifier.accepts(cert_der) <==> eq_ignore_ascii_case(fingerprint_text(cert_der), pin),
{
    lemma_fingerprint_is_lower(cert_der);
}

} // verus!
