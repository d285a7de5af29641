//! Text building blocks: ASCII bytes as strings, decimal numbers, and
//! concatenation.

use vstd::prelude::*;
use vstd::string::StringExecFns;
use vstd::string::StringSliceAdditionalSpecFns;
use vstd::utf8::*;

verus! {

/// Every byte is below 128.
pub open spec fn is_ascii_bytes(bytes: Seq<u8>) -> bool {
    forall|i: int| 0 <= i < bytes.len() ==> #[trigger] bytes[i] < 128
}

/// The characters that a sequence of ASCII bytes stands for.
pub open spec fn ascii_chars(bytes: Seq<u8>) -> Seq<char> {
    Seq::new(bytes.len(), |i: int| bytes[i] as char)
}

/// ASCII bytes are valid UTF-8 and decode byte by byte.
pub proof fn lemma_ascii_bytes(bytes: Seq<u8>)
    requires
        is_ascii_bytes(bytes),
    ensures
        is_ascii_chars(ascii_chars(bytes)),
        encode_utf8(ascii_chars(bytes)) == bytes,
        valid_utf8(bytes),
        decode_utf8(bytes) == ascii_chars(bytes),
{
    let chars = ascii_chars(bytes);
    assert(is_ascii_chars(chars)) by {
        assert forall|i: int| 0 <= i < chars.len() implies '\0' <= #[trigger] chars[i]
            <= '\u{7f}' by {
            assert(bytes[i] < 128);
        }
    }
    is_ascii_chars_encode_utf8(chars);
    assert(encode_utf8(chars) =~= bytes);
    encode_utf8_valid_utf8(chars);
    encode_utf8_decode_utf8(chars);
}

/// `std::str::from_utf8`: the text that the bytes encode, if they are valid
/// UTF-8, and nothing otherwise.
#[verifier::external_body]
pub(crate) fn string_from_utf8(bytes: &[u8]) -> (res: Option<String>)
    ensures
        res is Some <==> valid_utf8(bytes@),
        res matches Some(s) ==> s@ == decode_utf8(bytes@),
{
    match std::str::from_utf8(bytes) {
        Ok(s) => Some(String::from(s)),
        Err(_) => None,
    }
}

/// The string that ASCII bytes spell.
pub fn ascii_string(bytes: &[u8]) -> (res: String)
    requires
        is_ascii_bytes(bytes@),
    ensures
        res@ == ascii_chars(bytes@),
{
    proof {
        lemma_ascii_bytes(bytes@);
    }
    match string_from_utf8(bytes) {
        Some(s) => s,
        None => String::new(),
    }
}

/// The decimal digits of `n`, most significant first, as ASCII bytes.
pub open spec fn decimal_bytes(n: nat) -> Seq<u8>
    decreases n,
{
    if n < 10 {
        seq![(48 + n) as u8]
    } else {
        decimal_bytes(n / 10).push((48 + n % 10) as u8)
    }
}

/// The decimal digits of `n`, most significant first.
pub open spec fn decimal_text(n: nat) -> Seq<char> {
    ascii_chars(decimal_bytes(n))
}

/// The digits of a number are ASCII, there is at least one, and a number
/// below ten has exactly one.
pub proof fn lemma_decimal_bytes(n: nat)
    ensures
        is_ascii_bytes(decimal_bytes(n)),
        1 <= decimal_bytes(n).len(),
        n < 10 ==> decimal_bytes(n).len() == 1,
    decreases n,
{
    if n >= 10 {
        lemma_decimal_bytes(n / 10);
    }
}

/// `n` written in decimal.
pub fn decimal_string(n: u64) -> (res: String)
    ensures
        res@ == decimal_text(n as nat),
{
    // Digits come out least significant first; they are reversed below.
    let mut reversed: Vec<u8> = Vec::new();
    let mut rest: u64 = n;
    reversed.push(48 + (rest % 10) as u8);
    rest = rest / 10;
    while rest > 0
        invariant
            reversed@.len() >= 1,
            is_ascii_bytes(reversed@),
            rest == 0 ==> decimal_bytes(n as nat) == reversed@.reverse(),
            rest > 0 ==> decimal_bytes(n as nat) == decimal_bytes(rest as nat) + reversed@.reverse(),
        decreases rest,
    {
        let ghost before = reversed@;
        let ghost r0 = rest;
        let d: u8 = 48 + (rest % 10) as u8;
        reversed.push(d);
        rest = rest / 10;
        proof {
            assert(reversed@.reverse() =~= seq![d] + before.reverse());
            if r0 < 10 {
                assert(decimal_bytes(r0 as nat) =~= seq![d]);
            } else {
                assert(decimal_bytes(r0 as nat) =~= decimal_bytes(rest as nat) + seq![d]);
            }
        }
    }
    let mut digits: Vec<u8> = Vec::new();
    let mut i: usize = reversed.len();
    while i > 0
        invariant
            i <= reversed@.len(),
            digits@ == reversed@.reverse().subrange(0, reversed@.len() - i),
        decreases i,
    {
        i = i - 1;
        digits.push(reversed[i]);
        assert(digits@ =~= reversed@.reverse().subrange(0, reversed@.len() - i));
    }
    assert(digits@ =~= reversed@.reverse());
    proof {
        lemma_decimal_bytes(n as nat);
    }
    ascii_string(digits.as_slice())
}

/// Two pieces of text joined.
pub fn concat2(a: &str, b: &str) -> (res: String)
    ensures
        res@ == a@ + b@,
{
    let mut s = String::from_str(a);
    s.append(b);
    s
}


/// The upper-case hexadecimal digit for a value below 16, as an ASCII byte.
pub open spec fn hex_upper_digit(d: nat) -> u8 {
    if d < 10 {
        (48 + d) as u8
    } else {
        (55 + d) as u8
    }
}

/// A byte as two upper-case hexadecimal digits.
pub open spec fn hex_upper_text(b: u8) -> Seq<char> {
    ascii_chars(seq![hex_upper_digit((b / 16) as nat), hex_upper_digit((b % 16) as nat)])
}

/// A byte written as two upper-case hexadecimal digits.
pub fn hex_upper_string(b: u8) -> (res: String)
    ensures
        res@ == hex_upper_text(b),
{
    let hi: u8 = b / 16;
    let lo: u8 = b % 16;
    let mut digits: Vec<u8> = Vec::new();
    digits.push(if hi < 10 { 48 + hi } else { 55 + hi });
    digits.push(if lo < 10 { 48 + lo } else { 55 + lo });
    assert(digits@ =~= seq![hex_upper_digit((b / 16) as nat), hex_upper_digit((b % 16) as nat)]);
    ascii_string(digits.as_slice())
}

/// Three pieces of text joined.
pub fn concat3(a: &str, b: &str, c: &str) -> (res: String)
    ensures
        res@ == a@ + b@ + c@,
{
    let mut s = String::from_str(a);
    s.append(b);
    s.append(c);
    s
}


/// Text whose UTF-8 encoding is all ASCII has one character per byte.
pub proof fn lemma_text_of_ascii_encoding(chars: Seq<char>)
    requires
        is_ascii_bytes(encode_utf8(chars)),
    ensures
        chars == ascii_chars(encode_utf8(chars)),
        is_ascii_chars(chars),
{
    lemma_ascii_bytes(encode_utf8(chars));
    encode_utf8_decode_utf8(chars);
}


/// The index of the first colon among the bytes, or their number if there
/// is none.
pub open spec fn colon_index(bytes: Seq<u8>) -> int
    decreases bytes.len(),
{
    if bytes.len() == 0 || bytes[0] == 58 {
        0
    } else {
        1 + colon_index(bytes.drop_first())
    }
}

/// The text up to its first colon, or all of it if it has none.
pub open spec fn text_before_colon(text: Seq<char>) -> Seq<char> {
    decode_utf8(encode_utf8(text).take(colon_index(encode_utf8(text))))
}

proof fn lemma_colon_index(bytes: Seq<u8>, i: int)
    requires
        0 <= i <= bytes.len(),
        forall|k: int| 0 <= k < i ==> bytes[k] != 58,
        i == bytes.len() || bytes[i] == 58,
    ensures
        colon_index(bytes) == i,
    decreases i,
{
    if i > 0 {
        assert(bytes[0] != 58);
        let tail = bytes.drop_first();
        assert forall|k: int| 0 <= k < i - 1 implies tail[k] != 58 by {
            assert(bytes[k + 1] != 58);
        }
        lemma_colon_index(tail, i - 1);
    }
}

/// The text up to its first colon, or all of it if it has none.
pub fn before_colon(text: &str) -> (head: String)
    ensures
        head@ == text_before_colon(text@),
{
    let bytes = text.as_bytes();
    let n = bytes.len();
    let mut i: usize = 0;
    while i < n && bytes[i] != 58
        invariant
            i <= n,
            n == bytes@.len(),
            forall|k: int| 0 <= k < i ==> bytes@[k] != 58,
        decreases n - i,
    {
        i = i + 1;
    }
    proof {
        lemma_colon_index(bytes@, i as int);
        encode_utf8_valid_utf8(text@);
        encode_utf8_decode_utf8(text@);
    }
    if i == n {
        assert(bytes@.take(n as int) =~= bytes@);
        String::from_str(text)
    } else {
        proof {
            let b = bytes@[i as int];
            assert(!is_continuation_byte(b)) by {
                assert(b == 58);
                assert(58u8 & 0xC0 != 0x80) by (bit_vector);
            }
            is_char_boundary_iff_not_is_continuation_byte(bytes@, i as int);
        }
        let (first, _rest) = text.split_at(i);
        proof {
            assert(bytes@.take(i as int) =~= bytes@.subrange(0, i as int));
            encode_utf8_decode_utf8(first@);
        }
        String::from_str(first)
    }
}

/// A text without a colon is all before its first colon, and so is what
/// stands before a colon that was put behind it.
pub proof fn lemma_before_colon_of_joined(head: Seq<char>, tail: Seq<char>)
    requires
        forall|k: int| 0 <= k < encode_utf8(head).len() ==> encode_utf8(head)[k] != 58,
    ensures
        text_before_colon(head) == head,
        text_before_colon(head + seq![':'] + tail) == head,
{
    let hb = encode_utf8(head);
    lemma_colon_index(hb, hb.len() as int);
    assert(hb.take(hb.len() as int) =~= hb);
    encode_utf8_decode_utf8(head);
    let joined = head + seq![':'] + tail;
    let jb = encode_utf8(joined);
    lemma_encode_concat(head, seq![':'] + tail);
    assert(joined =~= head + (seq![':'] + tail));
    lemma_encode_concat(seq![':'], tail);
    assert(is_ascii_chars(seq![':']));
    is_ascii_chars_encode_utf8(seq![':']);
    assert(encode_utf8(seq![':'])[0] == 58);
    assert(jb =~= hb + (encode_utf8(seq![':']) + encode_utf8(tail)));
    assert(jb[hb.len() as int] == 58);
    assert forall|k: int| 0 <= k < hb.len() implies jb[k] != 58 by {
        assert(jb[k] == hb[k]);
    }
    lemma_colon_index(jb, hb.len() as int);
    assert(jb.take(hb.len() as int) =~= hb);
}

/// The encoding of two texts joined is the two encodings joined.
pub proof fn lemma_encode_concat(a: Seq<char>, b: Seq<char>)
    ensures
        encode_utf8(a + b) == encode_utf8(a) + encode_utf8(b),
    decreases a.len(),
{
    if a.len() == 0 {
        assert(a + b =~= b);
        assert(encode_utf8(a) + encode_utf8(b) =~= encode_utf8(b));
    } else {
        lemma_encode_concat(a.drop_first(), b);
        assert((a + b).drop_first() =~= a.drop_first() + b);
        assert((a + b)[0] == a[0]);
        assert(encode_utf8(a + b) =~= encode_scalar(a[0] as u32) + (encode_utf8(a.drop_first())
            + encode_utf8(b)));
        assert(encode_utf8(a + b) =~= encode_utf8(a) + encode_utf8(b));
    }
}

} // verus!
