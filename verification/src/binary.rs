//! Little-endian binary codec: a growable writer and a cursor over a byte
//! slice.
//!
//! Every encoding is given as a spec function from a value to its bytes
//! (`encode_*`), and every decoding as a spec function from the bytes that are
//! left to the value and the number of bytes it took (`decode_*`). The writer
//! and the reader are specified against these, and the round-trip laws relate
//! the two.

use crate::error::{SocketError, SocketResult};
use crate::text::{concat2, concat3, decimal_string, decimal_text, string_from_utf8};
use vstd::prelude::*;
use vstd::slice::{slice_subrange, slice_to_vec};
use vstd::string::StringExecFns;
use vstd::utf8::*;

verus! {

/// 256 to the power `n`.
pub open spec fn pow256(n: nat) -> nat
    decreases n,
{
    if n == 0 {
        1
    } else {
        256 * pow256((n - 1) as nat)
    }
}

/// The `n` low-order bytes of `v`, least significant first.
pub open spec fn le_bytes(v: nat, n: nat) -> Seq<u8>
    decreases n,
{
    if n == 0 {
        Seq::empty()
    } else {
        seq![(v % 256) as u8] + le_bytes(v / 256, (n - 1) as nat)
    }
}

/// The number whose digits in base 256, least significant first, are `s`.
pub open spec fn le_value(s: Seq<u8>) -> nat
    decreases s.len(),
{
    if s.len() == 0 {
        0
    } else {
        (s[0] as nat) + 256 * le_value(s.drop_first())
    }
}

/// The bit pattern of a signed 32-bit number, read as unsigned.
pub open spec fn i32_bits(v: i32) -> u32 {
    if v >= 0 {
        v as u32
    } else {
        (v + 0x1_0000_0000) as u32
    }
}

/// The signed 32-bit number with the given bit pattern.
pub open spec fn bits_i32(u: u32) -> i32 {
    if u < 0x8000_0000 {
        u as i32
    } else {
        (u - 0x1_0000_0000) as i32
    }
}

/// The powers of 256 that the widths of the integers call for.
pub proof fn lemma_pow256_values()
    ensures
        pow256(0) == 1,
        pow256(1) == 0x100,
        pow256(2) == 0x1_0000,
        pow256(4) == 0x1_0000_0000,
        pow256(8) == 0x1_0000_0000_0000_0000,
{
    reveal_with_fuel(pow256, 9);
}

/// The powers of 256 grow with the exponent, and none is 0.
pub proof fn lemma_pow256_monotonic(a: nat, b: nat)
    requires
        a <= b,
    ensures
        1 <= pow256(a) <= pow256(b),
    decreases b,
{
    if b == 0 {
    } else if a == b {
        lemma_pow256_monotonic(0, (b - 1) as nat);
    } else {
        lemma_pow256_monotonic(a, (b - 1) as nat);
    }
}

/// `le_bytes` yields exactly `n` bytes, and they spell `v` when `v` fits.
pub proof fn lemma_le_bytes(v: nat, n: nat)
    ensures
        le_bytes(v, n).len() == n,
        v < pow256(n) ==> le_value(le_bytes(v, n)) == v,
    decreases n,
{
    if n > 0 {
        lemma_le_bytes(v / 256, (n - 1) as nat);
        let rest = le_bytes(v / 256, (n - 1) as nat);
        let all = le_bytes(v, n);
        assert(all.drop_first() =~= rest);
        assert(all[0] == (v % 256) as u8);
        if v < pow256(n) {
            assert(v / 256 < pow256((n - 1) as nat));
        }
    }
}

/// `le_value` stays below `256^len`, and `le_bytes` writes it back.
pub proof fn lemma_le_value(s: Seq<u8>)
    ensures
        le_value(s) < pow256(s.len()),
        le_bytes(le_value(s), s.len()) == s,
    decreases s.len(),
{
    if s.len() > 0 {
        let tail = s.drop_first();
        lemma_le_value(tail);
        let v = le_value(s);
        assert(v == (s[0] as nat) + 256 * le_value(tail));
        assert(v % 256 == s[0] as nat);
        assert(v / 256 == le_value(tail));
        assert(le_bytes(v, s.len()) =~= s);
    } else {
        assert(le_bytes(0, 0) =~= s);
    }
}

// ---------------------------------------------------------------------------
// Encodings
// ---------------------------------------------------------------------------
/// A byte, as it is.
pub open spec fn encode_u8(v: u8) -> Seq<u8> {
    seq![v]
}

/// An unsigned 32-bit number in four bytes, least significant first.
pub open spec fn encode_u32(v: u32) -> Seq<u8> {
    le_bytes(v as nat, 4)
}

/// A signed 32-bit number: its bit pattern in four bytes, least significant
/// first.
pub open spec fn encode_i32(v: i32) -> Seq<u8> {
    le_bytes(i32_bits(v) as nat, 4)
}

/// An unsigned 64-bit number in eight bytes, least significant first.
pub open spec fn encode_u64(v: u64) -> Seq<u8> {
    le_bytes(v as nat, 8)
}

/// A truth value in one byte: 1 for true, 0 for false.
pub open spec fn encode_bool(v: bool) -> Seq<u8> {
    seq![if v { 1u8 } else { 0u8 }]
}

/// A string: the length of its UTF-8 encoding in two bytes, then the encoding.
pub open spec fn encode_string(s: Seq<char>) -> Seq<u8> {
    le_bytes(encode_utf8(s).len(), 2) + encode_utf8(s)
}

/// A byte array: its length in four bytes, then the bytes.
pub open spec fn encode_bytes_with_length(b: Seq<u8>) -> Seq<u8> {
    le_bytes(b.len(), 4) + b
}

// ---------------------------------------------------------------------------
// Decodings: the value at the head of `rest` and the number of bytes it takes
// ---------------------------------------------------------------------------
/// The first byte.
pub open spec fn decode_u8(rest: Seq<u8>) -> Option<(u8, nat)> {
    if rest.len() >= 1 {
        Some((rest[0], 1nat))
    } else {
        None
    }
}

/// The number that the first four bytes spell.
pub open spec fn decode_u32(rest: Seq<u8>) -> Option<(u32, nat)> {
    if rest.len() >= 4 {
        Some((le_value(rest.take(4)) as u32, 4nat))
    } else {
        None
    }
}

/// The signed number whose bit pattern the first four bytes spell.
pub open spec fn decode_i32(rest: Seq<u8>) -> Option<(i32, nat)> {
    if rest.len() >= 4 {
        Some((bits_i32(le_value(rest.take(4)) as u32), 4nat))
    } else {
        None
    }
}

/// The number that the first eight bytes spell.
pub open spec fn decode_u64(rest: Seq<u8>) -> Option<(u64, nat)> {
    if rest.len() >= 8 {
        Some((le_value(rest.take(8)) as u64, 8nat))
    } else {
        None
    }
}

/// The truth value of the first byte: false for 0, true for any other.
pub open spec fn decode_bool(rest: Seq<u8>) -> Option<(bool, nat)> {
    if rest.len() >= 1 {
        Some((rest[0] != 0, 1nat))
    } else {
        None
    }
}

/// The length that the two-byte prefix of a string announces.
pub open spec fn string_length_prefix(rest: Seq<u8>) -> nat
    recommends
        rest.len() >= 2,
{
    le_value(rest.take(2))
}

/// The bytes of a string's body, after its two-byte prefix.
pub open spec fn string_body(rest: Seq<u8>) -> Seq<u8>
    recommends
        rest.len() >= 2 + string_length_prefix(rest),
{
    rest.subrange(2, 2 + string_length_prefix(rest) as int)
}

/// The string that follows a two-byte length, if all of it is there and it is
/// valid UTF-8.
pub open spec fn decode_string(rest: Seq<u8>) -> Option<(Seq<char>, nat)> {
    if rest.len() >= 2 && rest.len() >= 2 + string_length_prefix(rest) && valid_utf8(
        string_body(rest),
    ) {
        Some((decode_utf8(string_body(rest)), 2 + string_length_prefix(rest)))
    } else {
        None
    }
}

/// The length that the four-byte prefix of a byte array announces.
pub open spec fn bytes_length_prefix(rest: Seq<u8>) -> nat
    recommends
        rest.len() >= 4,
{
    le_value(rest.take(4))
}

/// The bytes that follow a four-byte length, if all of them are there.
pub open spec fn decode_bytes_with_length(rest: Seq<u8>) -> Option<(Seq<u8>, nat)> {
    if rest.len() >= 4 && rest.len() >= 4 + bytes_length_prefix(rest) {
        Some((rest.subrange(4, 4 + bytes_length_prefix(rest) as int), 4 + bytes_length_prefix(rest)))
    } else {
        None
    }
}

// ---------------------------------------------------------------------------
// Error texts
// ---------------------------------------------------------------------------
/// The message of a read that found too few bytes.
pub open spec fn underflow_text(offset: nat, need: nat, have: nat) -> Seq<char> {
    "buffer underflow at offset "@ + decimal_text(offset) + ": need "@ + decimal_text(need)
        + ", have "@ + decimal_text(have)
}

/// The message of a string read whose bytes are not UTF-8.
pub open spec fn invalid_utf8_text(offset: nat) -> Seq<char> {
    "invalid UTF-8 string at offset "@ + decimal_text(offset)
}

/// `e` is the parse error of a read at `offset` that needed `need` bytes and
/// found `have`.
pub open spec fn is_underflow(e: SocketError, offset: nat, need: nat, have: nat) -> bool {
    e matches SocketError::ParseError(m) && m@ == underflow_text(offset, need, have)
}

/// `e` is the parse error of a string at `offset` whose bytes are not UTF-8.
pub open spec fn is_invalid_utf8(e: SocketError, offset: nat) -> bool {
    e matches SocketError::ParseError(m) && m@ == invalid_utf8_text(offset)
}

fn underflow_error(offset: usize, need: usize, have: usize) -> (e: SocketError)
    ensures
        is_underflow(e, offset as nat, need as nat, have as nat),
{
    let at = decimal_string(offset as u64);
    let n = decimal_string(need as u64);
    let h = decimal_string(have as u64);
    let mut m = concat3("buffer underflow at offset ", at.as_str(), ": need ");
    m.append(n.as_str());
    m.append(", have ");
    m.append(h.as_str());
    SocketError::ParseError(m)
}

fn invalid_utf8_error(offset: usize) -> (e: SocketError)
    ensures
        is_invalid_utf8(e, offset as nat),
{
    let at = decimal_string(offset as u64);
    SocketError::ParseError(concat2("invalid UTF-8 string at offset ", at.as_str()))
}

// ---------------------------------------------------------------------------
// Digits
// ---------------------------------------------------------------------------
/// Appends the `width` low-order bytes of `value`, least significant first.
fn push_le(buffer: &mut Vec<u8>, value: u64, width: usize)
    requires
        width <= 8,
    ensures
        final(buffer)@ == old(buffer)@ + le_bytes(value as nat, width as nat),
{
    let ghost start = buffer@;
    let mut rest: u64 = value;
    let mut i: usize = 0;
    while i < width
        invariant
            i <= width,
            start + le_bytes(value as nat, width as nat) == buffer@ + le_bytes(
                rest as nat,
                (width - i) as nat,
            ),
        decreases width - i,
    {
        let ghost before = buffer@;
        let b: u8 = (rest % 256) as u8;
        buffer.push(b);
        proof {
            let k = (width - i) as nat;
            assert(le_bytes(rest as nat, k) == seq![b] + le_bytes(
                (rest / 256) as nat,
                (k - 1) as nat,
            ));
            assert(before + (seq![b] + le_bytes((rest / 256) as nat, (k - 1) as nat))
                =~= before.push(b) + le_bytes((rest / 256) as nat, (k - 1) as nat));
        }
        rest = rest / 256;
        i = i + 1;
    }
    assert(buffer@ + le_bytes(rest as nat, 0) =~= buffer@);
}

/// The number that `width` bytes from `start` on spell, least significant
/// first.
fn le_decode(bytes: &[u8], start: usize, width: usize) -> (v: u64)
    requires
        width <= 8,
        start + width <= bytes@.len(),
    ensures
        v as nat == le_value(bytes@.subrange(start as int, start + width)),
        (v as nat) < pow256(width as nat),
{
    let total = bytes.len();
    let mut acc: u64 = 0;
    let mut i: usize = width;
    assert(bytes@.subrange(start + width, start + width) =~= Seq::<u8>::empty());
    while i > 0
        invariant
            i <= width,
            width <= 8,
            total == bytes@.len(),
            start + width <= bytes@.len(),
            acc as nat == le_value(bytes@.subrange(start + i, start + width)),
            (acc as nat) < pow256((width - i) as nat),
        decreases i,
    {
        i = i - 1;
        let b: u8 = bytes[start + i];
        proof {
            let s = bytes@.subrange(start + i, start + width);
            assert(s.drop_first() =~= bytes@.subrange(start + i + 1, start + width));
            assert(s[0] == b);
            let k = (width - i - 1) as nat;
            assert(pow256(k + 1) == 256 * pow256(k));
            lemma_pow256_monotonic(k + 1, 8);
            lemma_pow256_values();
            assert(acc * 256 + b < pow256(k + 1)) by (nonlinear_arith)
                requires
                    (acc as nat) < pow256(k),
                    b < 256,
                    pow256(k + 1) == 256 * pow256(k),
            ;
        }
        acc = acc * 256 + b as u64;
    }
    acc
}

// ---------------------------------------------------------------------------
// Writer
// ---------------------------------------------------------------------------
/// A growable buffer to which values are appended in their wire encoding.
#[derive(Debug)]
pub struct BinaryWriter {
    buffer: Vec<u8>,
}

impl View for BinaryWriter {
    type V = Seq<u8>;

    /// The bytes written so far.
    closed spec fn view(&self) -> Seq<u8> {
        self.buffer@
    }
}

impl Default for BinaryWriter {
    fn default() -> (w: Self)
        ensures
            w@ == Seq::<u8>::empty(),
    {
        BinaryWriter { buffer: Vec::new() }
    }
}

impl BinaryWriter {
    pub fn new() -> (w: Self)
        ensures
            w@ == Seq::<u8>::empty(),
    {
        BinaryWriter { buffer: Vec::new() }
    }

    pub fn with_capacity(capacity: usize) -> (w: Self)
        ensures
            w@ == Seq::<u8>::empty(),
    {
        BinaryWriter { buffer: Vec::with_capacity(capacity) }
    }

    /// Makes room for `additional` more bytes; what was written stays.
    pub fn reserve(&mut self, additional: usize)
        ensures
            final(self)@ == old(self)@,
    {
        // Asking for more than an allocation can hold would abort.
        let len = self.buffer.len();
        if len <= isize::MAX as usize && additional <= isize::MAX as usize - len {
            self.buffer.reserve(additional);
        }
    }

    pub fn write_u8(&mut self, value: u8)
        ensures
            final(self)@ == old(self)@ + encode_u8(value),
    {
        self.buffer.push(value);
        assert(self@ =~= old(self)@ + encode_u8(value));
    }

    pub fn write_i32(&mut self, value: i32)
        ensures
            final(self)@ == old(self)@ + encode_i32(value),
    {
        let bits: u32 = if value >= 0 {
            value as u32
        } else {
            (value as i64 + 0x1_0000_0000) as u32
        };
        push_le(&mut self.buffer, bits as u64, 4);
    }

    pub fn write_u32(&mut self, value: u32)
        ensures
            final(self)@ == old(self)@ + encode_u32(value),
    {
        push_le(&mut self.buffer, value as u64, 4);
    }

    /// Overwrites the four bytes at `offset` with `value`; the length stays.
    pub fn write_u32_at(&mut self, offset: usize, value: u32)
        requires
            offset + 4 <= old(self)@.len(),
        ensures
            final(self)@ == old(self)@.subrange(0, offset as int) + encode_u32(value) + old(self)@.subrange(offset + 4, old(self)@.len() as int),
    {
        let len = self.buffer.len();
        let mut patch: Vec<u8> = Vec::new();
        push_le(&mut patch, value as u64, 4);
        proof {
            lemma_le_bytes(value as nat, 4);
        }
        assert(patch@ =~= encode_u32(value));
        let mut i: usize = 0;
        while i < 4
            invariant
                i <= 4,
                patch@ == encode_u32(value),
                patch@.len() == 4,
                len == old(self)@.len(),
                offset + 4 <= old(self)@.len(),
                self@.len() == old(self)@.len(),
                self@ == old(self)@.subrange(0, offset as int) + patch@.subrange(0, i as int)
                    + old(self)@.subrange(offset + i, old(self)@.len() as int),
            decreases 4 - i,
        {
            let b = patch[i];
            self.buffer[offset + i] = b;
            i = i + 1;
            assert(self@ =~= old(self)@.subrange(0, offset as int) + patch@.subrange(0, i as int)
                + old(self)@.subrange(offset + i, old(self)@.len() as int));
        }
        assert(patch@.subrange(0, 4) =~= patch@);
    }

    pub fn write_u64(&mut self, value: u64)
        ensures
            final(self)@ == old(self)@ + encode_u64(value),
    {
        push_le(&mut self.buffer, value, 8);
    }

    /// Appends a string. Its UTF-8 encoding may be at most 65535 bytes long.
    pub fn write_string(&mut self, value: &str)
        requires
            encode_utf8(value@).len() <= u16::MAX,
        ensures
            final(self)@ == old(self)@ + encode_string(value@),
    {
        let bytes = value.as_bytes();
        push_le(&mut self.buffer, bytes.len() as u64, 2);
        self.buffer.extend_from_slice(bytes);
        assert(self@ =~= old(self)@ + encode_string(value@));
    }

    pub fn write_bytes(&mut self, bytes: &[u8])
        ensures
            final(self)@ == old(self)@ + bytes@,
    {
        self.buffer.extend_from_slice(bytes);
    }

    /// Appends a byte array behind its length. It may be at most `u32::MAX`
    /// bytes long.
    pub fn write_bytes_with_length(&mut self, bytes: &[u8])
        requires
            bytes@.len() <= u32::MAX,
        ensures
            final(self)@ == old(self)@ + encode_bytes_with_length(bytes@),
    {
        push_le(&mut self.buffer, bytes.len() as u64, 4);
        self.buffer.extend_from_slice(bytes);
        assert(self@ =~= old(self)@ + encode_bytes_with_length(bytes@));
    }

    pub fn write_bool(&mut self, value: bool)
        ensures
            final(self)@ == old(self)@ + encode_bool(value),
    {
        self.buffer.push(if value { 1 } else { 0 });
        assert(self@ =~= old(self)@ + encode_bool(value));
    }

    pub fn len(&self) -> (n: usize)
        ensures
            n == self@.len(),
    {
        self.buffer.len()
    }

    pub fn is_empty(&self) -> (b: bool)
        ensures
            b == (self@.len() == 0),
    {
        self.buffer.len() == 0
    }

    pub fn as_bytes(&self) -> (bytes: &[u8])
        ensures
            bytes@ == self@,
    {
        self.buffer.as_slice()
    }

    pub fn into_bytes(self) -> (bytes: Vec<u8>)
        ensures
            bytes@ == self@,
    {
        self.buffer
    }

    pub fn clear(&mut self)
        ensures
            final(self)@ == Seq::<u8>::empty(),
    {
        self.buffer.clear();
    }
}

// ---------------------------------------------------------------------------
// Reader
// ---------------------------------------------------------------------------
/// A cursor over a byte slice from which values are read in their wire
/// encoding. The cursor never passes the end of the slice.
#[derive(Debug)]
pub struct BinaryReader<'a> {
    buffer: &'a [u8],
    offset: usize,
}

impl<'a> BinaryReader<'a> {
    #[verifier::type_invariant]
    spec fn within(self) -> bool {
        self.offset <= self.buffer@.len()
    }

    /// All the bytes the reader was made over.
    pub closed spec fn bytes(self) -> Seq<u8> {
        self.buffer@
    }

    /// How many bytes have been read.
    pub closed spec fn position(self) -> nat {
        self.offset as nat
    }

    /// The bytes that have not been read yet.
    pub open spec fn rest(self) -> Seq<u8> {
        self.bytes().subrange(self.position() as int, self.bytes().len() as int)
    }

    /// The reader `before`, `consumed` bytes further on.
    pub open spec fn advanced(self, before: Self, consumed: nat) -> bool {
        &&& self.bytes() == before.bytes()
        &&& self.position() == before.position() + consumed
        &&& self.position() <= self.bytes().len()
    }

    pub fn new(buffer: &'a [u8]) -> (r: Self)
        ensures
            r.bytes() == buffer@,
            r.position() == 0,
            r.rest() == buffer@,
    {
        let r = BinaryReader { buffer, offset: 0 };
        assert(r.rest() =~= buffer@);
        r
    }

    /// Succeeds when `needed` more bytes can be read.
    fn check_bounds(&self, needed: usize) -> (res: SocketResult<()>)
        ensures
            self.position() <= self.bytes().len() <= usize::MAX,
            match res {
                Ok(_) => needed <= self.rest().len(),
                Err(e) => needed > self.rest().len() && is_underflow(
                    e,
                    self.position(),
                    needed as nat,
                    self.rest().len(),
                ),
            },
    {
        proof {
            use_type_invariant(self);
        }
        let total = self.buffer.len();
        let have = total - self.offset;
        if needed > have {
            Err(underflow_error(self.offset, needed, have))
        } else {
            Ok(())
        }
    }

    /// Reads `width` bytes as one little-endian number.
    fn read_le(&mut self, width: usize) -> (res: SocketResult<u64>)
        requires
            1 <= width <= 8,
        ensures
            match res {
                Ok(v) => old(self).rest().len() >= width && v as nat == le_value(
                    old(self).rest().take(width as int),
                ) && (v as nat) < pow256(width as nat) && final(self).advanced(
                    *old(self),
                    width as nat,
                ),
                Err(e) => old(self).rest().len() < width && *final(self) == *old(self)
                    && is_underflow(e, old(self).position(), width as nat, old(self).rest().len()),
            },
    {
        match self.check_bounds(width) {
            Err(e) => Err(e),
            Ok(_) => {
                let v = le_decode(self.buffer, self.offset, width);
                assert(old(self).rest().take(width as int) =~= self.buffer@.subrange(
                    self.offset as int,
                    self.offset + width,
                ));
                self.offset = self.offset + width;
                Ok(v)
            },
        }
    }

    pub fn read_u8(&mut self) -> (res: SocketResult<u8>)
        ensures
            match res {
                Ok(v) => decode_u8(old(self).rest()) == Some((v, 1nat)) && final(self).advanced(
                    *old(self),
                    1,
                ),
                Err(e) => decode_u8(old(self).rest()) is None && *final(self) == *old(self)
                    && is_underflow(e, old(self).position(), 1, old(self).rest().len()),
            },
    {
        match self.check_bounds(1) {
            Err(e) => Err(e),
            Ok(_) => {
                let value = self.buffer[self.offset];
                self.offset = self.offset + 1;
                Ok(value)
            },
        }
    }

    pub fn read_i32(&mut self) -> (res: SocketResult<i32>)
        ensures
            match res {
                Ok(v) => decode_i32(old(self).rest()) == Some((v, 4nat)) && final(self).advanced(
                    *old(self),
                    4,
                ),
                Err(e) => decode_i32(old(self).rest()) is None && *final(self) == *old(self)
                    && is_underflow(e, old(self).position(), 4, old(self).rest().len()),
            },
    {
        proof {
            lemma_pow256_values();
        }
        match self.read_le(4) {
            Err(e) => Err(e),
            Ok(bits) => {
                if bits < 0x8000_0000 {
                    Ok(bits as i32)
                } else {
                    Ok((bits as i64 - 0x1_0000_0000) as i32)
                }
            },
        }
    }

    pub fn read_u32(&mut self) -> (res: SocketResult<u32>)
        ensures
            match res {
                Ok(v) => decode_u32(old(self).rest()) == Some((v, 4nat)) && final(self).advanced(
                    *old(self),
                    4,
                ),
                Err(e) => decode_u32(old(self).rest()) is None && *final(self) == *old(self)
                    && is_underflow(e, old(self).position(), 4, old(self).rest().len()),
            },
    {
        proof {
            lemma_pow256_values();
        }
        match self.read_le(4) {
            Err(e) => Err(e),
            Ok(v) => Ok(v as u32),
        }
    }

    pub fn read_u64(&mut self) -> (res: SocketResult<u64>)
        ensures
            match res {
                Ok(v) => decode_u64(old(self).rest()) == Some((v, 8nat)) && final(self).advanced(
                    *old(self),
                    8,
                ),
                Err(e) => decode_u64(old(self).rest()) is None && *final(self) == *old(self)
                    && is_underflow(e, old(self).position(), 8, old(self).rest().len()),
            },
    {
        self.read_le(8)
    }

    /// Reads a string. The cursor stops behind the string on success, stays
    /// where it was when the length prefix is cut short, and stops behind the
    /// prefix when the body is cut short or is not UTF-8.
    pub fn read_string(&mut self) -> (res: SocketResult<String>)
        ensures
            match res {
                Ok(s) => decode_string(old(self).rest()) == Some(
                    (s@, 2 + string_length_prefix(old(self).rest())),
                ) && final(self).advanced(*old(self), 2 + string_length_prefix(old(self).rest())),
                Err(e) => {
                    let rest = old(self).rest();
                    &&& decode_string(rest) is None
                    &&& if rest.len() < 2 {
                        *final(self) == *old(self) && is_underflow(
                            e,
                            old(self).position(),
                            2,
                            rest.len(),
                        )
                    } else {
                        &&& final(self).advanced(*old(self), 2)
                        &&& if rest.len() < 2 + string_length_prefix(rest) {
                            is_underflow(
                                e,
                                old(self).position() + 2,
                                string_length_prefix(rest),
                                (rest.len() - 2) as nat,
                            )
                        } else {
                            is_invalid_utf8(e, old(self).position() + 2)
                        }
                    }
                },
            },
    {
        let ghost rest = old(self).rest();
        proof {
            lemma_pow256_values();
        }
        let length = match self.read_le(2) {
            Err(e) => {
                return Err(e);
            },
            Ok(n) => n as usize,
        };
        assert(self.rest() =~= rest.subrange(2, rest.len() as int));
        match self.check_bounds(length) {
            Err(e) => Err(e),
            Ok(_) => {
                let body = slice_subrange(self.buffer, self.offset, self.offset + length);
                assert(body@ =~= string_body(rest));
                match string_from_utf8(body) {
                    None => Err(invalid_utf8_error(self.offset)),
                    Some(s) => {
                        self.offset = self.offset + length;
                        Ok(s)
                    },
                }
            },
        }
    }

    /// Reads a byte array behind its four-byte length. The cursor stops behind
    /// the array on success, stays where it was when the prefix is cut short,
    /// and stops behind the prefix when the array is cut short.
    pub fn read_bytes_with_length(&mut self) -> (res: SocketResult<Vec<u8>>)
        ensures
            match res {
                Ok(b) => decode_bytes_with_length(old(self).rest()) == Some(
                    (b@, 4 + bytes_length_prefix(old(self).rest())),
                ) && final(self).advanced(*old(self), 4 + bytes_length_prefix(old(self).rest())),
                Err(e) => {
                    let rest = old(self).rest();
                    &&& decode_bytes_with_length(rest) is None
                    &&& if rest.len() < 4 {
                        *final(self) == *old(self) && is_underflow(
                            e,
                            old(self).position(),
                            4,
                            rest.len(),
                        )
                    } else {
                        &&& final(self).advanced(*old(self), 4)
                        &&& is_underflow(
                            e,
                            old(self).position() + 4,
                            bytes_length_prefix(rest),
                            (rest.len() - 4) as nat,
                        )
                    }
                },
            },
    {
        let ghost rest = old(self).rest();
        proof {
            lemma_pow256_values();
        }
        let length = match self.read_le(4) {
            Err(e) => {
                return Err(e);
            },
            Ok(n) => n as usize,
        };
        assert(self.rest() =~= rest.subrange(4, rest.len() as int));
        match self.check_bounds(length) {
            Err(e) => Err(e),
            Ok(_) => {
                let body = slice_subrange(self.buffer, self.offset, self.offset + length);
                assert(body@ =~= rest.subrange(4, 4 + bytes_length_prefix(rest) as int));
                let bytes = slice_to_vec(body);
                self.offset = self.offset + length;
                Ok(bytes)
            },
        }
    }

    pub fn read_bool(&mut self) -> (res: SocketResult<bool>)
        ensures
            match res {
                Ok(v) => decode_bool(old(self).rest()) == Some((v, 1nat)) && final(self).advanced(*old(self), 1),
                Err(e) => decode_bool(old(self).rest()) is None && *final(self) == *old(self)
                    && is_underflow(e, old(self).position(), 1, old(self).rest().len()),
            },
    {
        match self.read_u8() {
            Err(e) => Err(e),
            Ok(v) => Ok(v != 0),
        }
    }

    pub fn remaining_bytes(&self) -> (bytes: &'a [u8])
        ensures
            bytes@ == self.rest(),
    {
        proof {
            use_type_invariant(self);
        }
        slice_subrange(self.buffer, self.offset, self.buffer.len())
    }

    pub fn is_empty(&self) -> (b: bool)
        ensures
            b == (self.rest().len() == 0),
    {
        proof {
            use_type_invariant(self);
        }
        self.offset >= self.buffer.len()
    }

    pub fn remaining_len(&self) -> (n: usize)
        ensures
            n == self.rest().len(),
    {
        proof {
            use_type_invariant(self);
        }
        self.buffer.len() - self.offset
    }

    pub fn offset(&self) -> (n: usize)
        ensures
            n == self.position(),
            n <= self.bytes().len(),
    {
        proof {
            use_type_invariant(self);
        }
        self.offset
    }

    /// Passes over `count` bytes, or fails and stays when fewer are left.
    pub fn skip(&mut self, count: usize) -> (res: SocketResult<()>)
        ensures
            match res {
                Ok(_) => count <= old(self).rest().len() && final(self).advanced(
                    *old(self),
                    count as nat,
                ),
                Err(e) => count > old(self).rest().len() && *final(self) == *old(self)
                    && is_underflow(e, old(self).position(), count as nat, old(self).rest().len()),
            },
    {
        match self.check_bounds(count) {
            Err(e) => Err(e),
            Ok(_) => {
                self.offset = self.offset + count;
                Ok(())
            },
        }
    }
}


// ---------------------------------------------------------------------------
// Round trips: what a write appends, the matching read gives back, whatever
// follows it in the buffer
// ---------------------------------------------------------------------------
/// A `u8` that was written is read back, and one byte is taken.
pub proof fn law_round_trip_u8(v: u8, tail: Seq<u8>)
    ensures
        decode_u8(encode_u8(v) + tail) == Some((v, 1nat)),
{
}

/// A `u32` that was written is read back, and four bytes are taken.
pub proof fn law_round_trip_u32(v: u32, tail: Seq<u8>)
    ensures
        decode_u32(encode_u32(v) + tail) == Some((v, 4nat)),
{
    lemma_le_bytes(v as nat, 4);
    lemma_pow256_values();
    assert((encode_u32(v) + tail).take(4) =~= encode_u32(v));
}

/// An `i32` that was written is read back, and four bytes are taken.
pub proof fn law_round_trip_i32(v: i32, tail: Seq<u8>)
    ensures
        decode_i32(encode_i32(v) + tail) == Some((v, 4nat)),
{
    lemma_le_bytes(i32_bits(v) as nat, 4);
    lemma_pow256_values();
    assert((encode_i32(v) + tail).take(4) =~= encode_i32(v));
}

/// A `u64` that was written is read back, and eight bytes are taken.
pub proof fn law_round_trip_u64(v: u64, tail: Seq<u8>)
    ensures
        decode_u64(encode_u64(v) + tail) == Some((v, 8nat)),
{
    lemma_le_bytes(v as nat, 8);
    lemma_pow256_values();
    assert((encode_u64(v) + tail).take(8) =~= encode_u64(v));
}

/// A `bool` that was written is read back, and one byte is taken.
pub proof fn law_round_trip_bool(v: bool, tail: Seq<u8>)
    ensures
        decode_bool(encode_bool(v) + tail) == Some((v, 1nat)),
{
}

/// A string that was written is read back, and its prefix and its UTF-8
/// encoding are taken.
pub proof fn law_round_trip_string(s: Seq<char>, tail: Seq<u8>)
    requires
        encode_utf8(s).len() <= u16::MAX,
    ensures
        decode_string(encode_string(s) + tail) == Some((s, 2 + encode_utf8(s).len())),
{
    let body = encode_utf8(s);
    let all = encode_string(s) + tail;
    lemma_le_bytes(body.len(), 2);
    lemma_pow256_values();
    assert(all.take(2) =~= le_bytes(body.len(), 2));
    assert(string_length_prefix(all) == body.len());
    assert(string_body(all) =~= body);
    encode_utf8_valid_utf8(s);
    encode_utf8_decode_utf8(s);
}

/// A byte array that was written behind its length is read back, and its
/// prefix and its bytes are taken.
pub proof fn law_round_trip_bytes_with_length(b: Seq<u8>, tail: Seq<u8>)
    requires
        b.len() <= u32::MAX,
    ensures
        decode_bytes_with_length(encode_bytes_with_length(b) + tail) == Some((b, 4 + b.len())),
{
    let all = encode_bytes_with_length(b) + tail;
    lemma_le_bytes(b.len(), 4);
    lemma_pow256_values();
    assert(all.take(4) =~= le_bytes(b.len(), 4));
    assert(bytes_length_prefix(all) == b.len());
    assert(all.subrange(4, 4 + b.len() as int) =~= b);
}

} // verus!
