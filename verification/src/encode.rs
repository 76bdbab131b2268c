//! Primitive wire codec: little-endian integers, variable-length integers,
//! raw byte strings, and the checksummed payload container.
//!
//! Every decoder works on a byte slice together with an explicit position
//! and returns the decoded value with the new position; a matching spec
//! function states exactly which bytes each decoder consumes and which
//! value it yields, so nested decoders compose positionally.

use vstd::prelude::*;
use vstd::bytes::spec_u16_to_le_bytes;
use vstd::bytes::spec_u16_from_le_bytes;
use vstd::bytes::spec_u32_to_le_bytes;
use vstd::bytes::spec_u32_from_le_bytes;
use vstd::bytes::spec_u64_to_le_bytes;
use vstd::bytes::spec_u64_from_le_bytes;
use vstd::bytes::lemma_auto_spec_u16_to_from_le_bytes;
use vstd::bytes::lemma_auto_spec_u32_to_from_le_bytes;
use vstd::bytes::lemma_auto_spec_u64_to_from_le_bytes;
use vstd::bytes::u16_from_le_bytes;
use vstd::bytes::u32_from_le_bytes;
use vstd::bytes::u64_from_le_bytes;
use vstd::bytes::u16_to_le_bytes;
use vstd::bytes::u32_to_le_bytes;
use vstd::bytes::u64_to_le_bytes;
use vstd::slice::slice_subrange;
use vstd::slice::slice_to_vec;

verus! {

/// Maximum size, in bytes, of a vector this codec is willing to allocate
/// while decoding; a declared length above it is rejected before any
/// allocation happens.
pub const MAX_VEC_SIZE: usize = 4_000_000 * 4;

/// Reason carried by `DecodeError::ParseFailed`.
#[derive(Clone, Copy, Debug, PartialEq, Eq, Structural)]
pub enum ParseReason {
    /// A declared element count whose byte size overflows.
    InvalidLength,
    /// A block header inside a `headers` message was followed by a
    /// non-zero transaction-count byte.
    HeadersContainTransactions,
    /// A `reject` message carried a reason code outside the known set.
    UnknownRejectCode,
}

/// Error returned by every decoder in this crate.
#[derive(Clone, Copy, Debug, PartialEq, Eq, Structural)]
pub enum DecodeError {
    /// The input ended before the structure was complete.
    UnexpectedEnd,
    /// A variable-length integer used a wider form than its value needs.
    NonMinimalVarInt,
    /// A declared length exceeded the global maximum buffer size.
    OversizedAllocation { requested: u64, max: u64 },
    /// The stored payload checksum does not match the recomputed one;
    /// both are packed as little-endian 32-bit values.
    ChecksumMismatch { expected: u32, actual: u32 },
    /// The bytes were structurally malformed.
    ParseFailed(ParseReason),
}

/// Outcome of a spec-level decoder: a value with the position one past
/// the bytes it consumed, or the error the executable decoder reports.
pub enum SpecRes<T> {
    Val(T, int),
    Fail(DecodeError),
}

// ---------------------------------------------------------------------------
// Byte-slice helpers
// ---------------------------------------------------------------------------

/// Appends all of `data` to `out`.
pub fn push_bytes(out: &mut Vec<u8>, data: &[u8])
    ensures
        final(out)@ == old(out)@ + data@,
{
    let n = data.len();
    let mut i: usize = 0;
    while i < n
        invariant
            i <= n,
            n == data@.len(),
            out@ == old(out)@ + data@.subrange(0, i as int),
        decreases n - i,
    {
        out.push(data[i]);
        assert(data@.subrange(0, i + 1) == data@.subrange(0, i as int).push(data@[i as int]));
        i = i + 1;
    }
    assert(data@.subrange(0, n as int) == data@);
}

/// Compares two byte slices for equality.
pub fn bytes_eq(a: &[u8], b: &[u8]) -> (r: bool)
    ensures
        r == (a@ == b@),
{
    if a.len() != b.len() {
        assert(a@ != b@);
        return false;
    }
    let n = a.len();
    let mut i: usize = 0;
    while i < n
        invariant
            i <= n,
            n == a@.len(),
            n == b@.len(),
            a@.subrange(0, i as int) == b@.subrange(0, i as int),
        decreases n - i,
    {
        if a[i] != b[i] {
            assert(a@[i as int] != b@[i as int]);
            return false;
        }
        assert(a@.subrange(0, i + 1) == a@.subrange(0, i as int).push(a@[i as int]));
        assert(b@.subrange(0, i + 1) == b@.subrange(0, i as int).push(b@[i as int]));
        i = i + 1;
    }
    assert(a@.subrange(0, n as int) == a@);
    assert(b@.subrange(0, n as int) == b@);
    true
}

// ---------------------------------------------------------------------------
// Signed/unsigned bridging (two's complement, as the wire format uses)
// ---------------------------------------------------------------------------

/// The unsigned 64-bit word holding the two's-complement bits of `v`.
pub open spec fn clip64(v: i64) -> u64 {
    if v >= 0 {
        v as u64
    } else {
        ((v as int) + 0x1_0000_0000_0000_0000) as u64
    }
}

/// The signed value whose two's-complement bits are `u`.
pub open spec fn unclip64(u: u64) -> i64 {
    if u < 0x8000_0000_0000_0000 {
        u as i64
    } else {
        ((u as int) - 0x1_0000_0000_0000_0000) as i64
    }
}

/// The unsigned 32-bit word holding the two's-complement bits of `v`.
pub open spec fn clip32(v: i32) -> u32 {
    if v >= 0 {
        v as u32
    } else {
        ((v as int) + 0x1_0000_0000) as u32
    }
}

/// The signed value whose two's-complement bits are `u`.
pub open spec fn unclip32(u: u32) -> i32 {
    if u < 0x8000_0000 {
        u as i32
    } else {
        ((u as int) - 0x1_0000_0000) as i32
    }
}

pub proof fn lemma_clip64_unclip64(v: i64)
    ensures
        unclip64(clip64(v)) == v,
{
}

pub proof fn lemma_clip32_unclip32(v: i32)
    ensures
        unclip32(clip32(v)) == v,
{
}

fn u64_of_i64(v: i64) -> (r: u64)
    ensures
        r == clip64(v),
{
    if v >= 0 {
        v as u64
    } else {
        ((v as i128) + 0x1_0000_0000_0000_0000i128) as u64
    }
}

fn i64_of_u64(u: u64) -> (r: i64)
    ensures
        r == unclip64(u),
{
    if u < 0x8000_0000_0000_0000 {
        u as i64
    } else {
        ((u as i128) - 0x1_0000_0000_0000_0000i128) as i64
    }
}

fn u32_of_i32(v: i32) -> (r: u32)
    ensures
        r == clip32(v),
{
    if v >= 0 {
        v as u32
    } else {
        ((v as i64) + 0x1_0000_0000i64) as u32
    }
}

fn i32_of_u32(u: u32) -> (r: i32)
    ensures
        r == unclip32(u),
{
    if u < 0x8000_0000 {
        u as i32
    } else {
        ((u as i64) - 0x1_0000_0000i64) as i32
    }
}

// ---------------------------------------------------------------------------
// Spec-level decoders
//
// Each takes the whole input and a position and either yields the decoded
// value with the position one past the consumed bytes, or fails with the
// exact error the executable decoder reports.
// ---------------------------------------------------------------------------

pub open spec fn sp_u8(s: Seq<u8>, pos: int) -> SpecRes<u8> {
    if 0 <= pos && pos + 1 <= s.len() {
        SpecRes::Val(s[pos], pos + 1)
    } else {
        SpecRes::Fail(DecodeError::UnexpectedEnd)
    }
}

pub open spec fn sp_u16(s: Seq<u8>, pos: int) -> SpecRes<u16> {
    if 0 <= pos && pos + 2 <= s.len() {
        SpecRes::Val(spec_u16_from_le_bytes(s.subrange(pos, pos + 2)), pos + 2)
    } else {
        SpecRes::Fail(DecodeError::UnexpectedEnd)
    }
}

pub open spec fn sp_u32(s: Seq<u8>, pos: int) -> SpecRes<u32> {
    if 0 <= pos && pos + 4 <= s.len() {
        SpecRes::Val(spec_u32_from_le_bytes(s.subrange(pos, pos + 4)), pos + 4)
    } else {
        SpecRes::Fail(DecodeError::UnexpectedEnd)
    }
}

pub open spec fn sp_u64(s: Seq<u8>, pos: int) -> SpecRes<u64> {
    if 0 <= pos && pos + 8 <= s.len() {
        SpecRes::Val(spec_u64_from_le_bytes(s.subrange(pos, pos + 8)), pos + 8)
    } else {
        SpecRes::Fail(DecodeError::UnexpectedEnd)
    }
}

pub open spec fn sp_i64(s: Seq<u8>, pos: int) -> SpecRes<i64> {
    match sp_u64(s, pos) {
        SpecRes::Val(u, p) => SpecRes::Val(unclip64(u), p),
        SpecRes::Fail(e) => SpecRes::Fail(e),
    }
}

pub open spec fn sp_i32(s: Seq<u8>, pos: int) -> SpecRes<i32> {
    match sp_u32(s, pos) {
        SpecRes::Val(u, p) => SpecRes::Val(unclip32(u), p),
        SpecRes::Fail(e) => SpecRes::Fail(e),
    }
}

/// A boolean is one byte; any non-zero value reads as true.
pub open spec fn sp_bool(s: Seq<u8>, pos: int) -> SpecRes<bool> {
    match sp_u8(s, pos) {
        SpecRes::Val(b, p) => SpecRes::Val(b != 0, p),
        SpecRes::Fail(e) => SpecRes::Fail(e),
    }
}

/// `n` raw bytes.
pub open spec fn sp_bytes(s: Seq<u8>, pos: int, n: int) -> SpecRes<Seq<u8>> {
    if 0 <= pos && pos + n <= s.len() {
        SpecRes::Val(s.subrange(pos, pos + n), pos + n)
    } else {
        SpecRes::Fail(DecodeError::UnexpectedEnd)
    }
}

/// Variable-length integer; wider forms than the value needs are rejected.
pub open spec fn sp_varint(s: Seq<u8>, pos: int) -> SpecRes<u64> {
    match sp_u8(s, pos) {
        SpecRes::Fail(e) => SpecRes::Fail(e),
        SpecRes::Val(tag, p) => if tag == 0xFD {
            match sp_u16(s, p) {
                SpecRes::Fail(e) => SpecRes::Fail(e),
                SpecRes::Val(x, p2) => if x < 0xFD {
                    SpecRes::Fail(DecodeError::NonMinimalVarInt)
                } else {
                    SpecRes::Val(x as u64, p2)
                },
            }
        } else if tag == 0xFE {
            match sp_u32(s, p) {
                SpecRes::Fail(e) => SpecRes::Fail(e),
                SpecRes::Val(x, p2) => if x < 0x1_0000 {
                    SpecRes::Fail(DecodeError::NonMinimalVarInt)
                } else {
                    SpecRes::Val(x as u64, p2)
                },
            }
        } else if tag == 0xFF {
            match sp_u64(s, p) {
                SpecRes::Fail(e) => SpecRes::Fail(e),
                SpecRes::Val(x, p2) => if x < 0x1_0000_0000 {
                    SpecRes::Fail(DecodeError::NonMinimalVarInt)
                } else {
                    SpecRes::Val(x, p2)
                },
            }
        } else {
            SpecRes::Val(tag as u64, p)
        },
    }
}

/// A byte string prefixed with its length as a variable-length integer;
/// the declared length is checked against `MAX_VEC_SIZE` before any
/// allocation.
pub open spec fn sp_varbytes(s: Seq<u8>, pos: int) -> SpecRes<Seq<u8>> {
    match sp_varint(s, pos) {
        SpecRes::Fail(e) => SpecRes::Fail(e),
        SpecRes::Val(n, p) => if n > MAX_VEC_SIZE as u64 {
            SpecRes::Fail(DecodeError::OversizedAllocation {
                requested: n,
                max: MAX_VEC_SIZE as u64,
            })
        } else {
            sp_bytes(s, p, n as int)
        },
    }
}

// ---------------------------------------------------------------------------
// Spec-level encoders
// ---------------------------------------------------------------------------

/// Minimal variable-length integer encoding.
pub open spec fn enc_varint(v: u64) -> Seq<u8> {
    if v < 0xFD {
        seq![v as u8]
    } else if v <= 0xFFFF {
        seq![0xFDu8] + spec_u16_to_le_bytes(v as u16)
    } else if v <= 0xFFFF_FFFF {
        seq![0xFEu8] + spec_u32_to_le_bytes(v as u32)
    } else {
        seq![0xFFu8] + spec_u64_to_le_bytes(v)
    }
}

/// Length-prefixed byte string.
pub open spec fn enc_varbytes(b: Seq<u8>) -> Seq<u8> {
    enc_varint(b.len() as u64) + b
}

pub open spec fn enc_i64(v: i64) -> Seq<u8> {
    spec_u64_to_le_bytes(clip64(v))
}

pub open spec fn enc_i32(v: i32) -> Seq<u8> {
    spec_u32_to_le_bytes(clip32(v))
}

pub open spec fn enc_bool(b: bool) -> Seq<u8> {
    seq![if b { 1u8 } else { 0u8 }]
}

// ---------------------------------------------------------------------------
// Exec decoders
// ---------------------------------------------------------------------------

pub fn read_u8(buf: &[u8], pos: usize) -> (r: Result<(u8, usize), DecodeError>)
    ensures
        match sp_u8(buf@, pos as int) {
            SpecRes::Val(v, p) => r matches Ok(t) && t.0 == v && t.1 == p,
            SpecRes::Fail(e) => r matches Err(e2) && e2 == e,
        },
{
    if pos < buf.len() {
        Ok((buf[pos], pos + 1))
    } else {
        Err(DecodeError::UnexpectedEnd)
    }
}

pub fn read_u16(buf: &[u8], pos: usize) -> (r: Result<(u16, usize), DecodeError>)
    ensures
        match sp_u16(buf@, pos as int) {
            SpecRes::Val(v, p) => r matches Ok(t) && t.0 == v && t.1 == p,
            SpecRes::Fail(e) => r matches Err(e2) && e2 == e,
        },
{
    if buf.len() >= 2 && pos <= buf.len() - 2 {
        let v = u16_from_le_bytes(slice_subrange(buf, pos, pos + 2));
        Ok((v, pos + 2))
    } else {
        Err(DecodeError::UnexpectedEnd)
    }
}

pub fn read_u32(buf: &[u8], pos: usize) -> (r: Result<(u32, usize), DecodeError>)
    ensures
        match sp_u32(buf@, pos as int) {
            SpecRes::Val(v, p) => r matches Ok(t) && t.0 == v && t.1 == p,
            SpecRes::Fail(e) => r matches Err(e2) && e2 == e,
        },
{
    if buf.len() >= 4 && pos <= buf.len() - 4 {
        let v = u32_from_le_bytes(slice_subrange(buf, pos, pos + 4));
        Ok((v, pos + 4))
    } else {
        Err(DecodeError::UnexpectedEnd)
    }
}

pub fn read_u64(buf: &[u8], pos: usize) -> (r: Result<(u64, usize), DecodeError>)
    ensures
        match sp_u64(buf@, pos as int) {
            SpecRes::Val(v, p) => r matches Ok(t) && t.0 == v && t.1 == p,
            SpecRes::Fail(e) => r matches Err(e2) && e2 == e,
        },
{
    if buf.len() >= 8 && pos <= buf.len() - 8 {
        let v = u64_from_le_bytes(slice_subrange(buf, pos, pos + 8));
        Ok((v, pos + 8))
    } else {
        Err(DecodeError::UnexpectedEnd)
    }
}

pub fn read_i64(buf: &[u8], pos: usize) -> (r: Result<(i64, usize), DecodeError>)
    ensures
        match sp_i64(buf@, pos as int) {
            SpecRes::Val(v, p) => r matches Ok(t) && t.0 == v && t.1 == p,
            SpecRes::Fail(e) => r matches Err(e2) && e2 == e,
        },
{
    match read_u64(buf, pos) {
        Ok((u, p)) => Ok((i64_of_u64(u), p)),
        Err(e) => Err(e),
    }
}

pub fn read_i32(buf: &[u8], pos: usize) -> (r: Result<(i32, usize), DecodeError>)
    ensures
        match sp_i32(buf@, pos as int) {
            SpecRes::Val(v, p) => r matches Ok(t) && t.0 == v && t.1 == p,
            SpecRes::Fail(e) => r matches Err(e2) && e2 == e,
        },
{
    match read_u32(buf, pos) {
        Ok((u, p)) => Ok((i32_of_u32(u), p)),
        Err(e) => Err(e),
    }
}

pub fn read_bool(buf: &[u8], pos: usize) -> (r: Result<(bool, usize), DecodeError>)
    ensures
        match sp_bool(buf@, pos as int) {
            SpecRes::Val(v, p) => r matches Ok(t) && t.0 == v && t.1 == p,
            SpecRes::Fail(e) => r matches Err(e2) && e2 == e,
        },
{
    match read_u8(buf, pos) {
        Ok((b, p)) => Ok((b != 0, p)),
        Err(e) => Err(e),
    }
}

pub fn read_varint(buf: &[u8], pos: usize) -> (r: Result<(u64, usize), DecodeError>)
    ensures
        match sp_varint(buf@, pos as int) {
            SpecRes::Val(v, p) => r matches Ok(t) && t.0 == v && t.1 == p,
            SpecRes::Fail(e) => r matches Err(e2) && e2 == e,
        },
{
    let (tag, p) = read_u8(buf, pos)?;
    if tag == 0xFD {
        let (x, p2) = read_u16(buf, p)?;
        if x < 0xFD {
            Err(DecodeError::NonMinimalVarInt)
        } else {
            Ok((x as u64, p2))
        }
    } else if tag == 0xFE {
        let (x, p2) = read_u32(buf, p)?;
        if x < 0x1_0000 {
            Err(DecodeError::NonMinimalVarInt)
        } else {
            Ok((x as u64, p2))
        }
    } else if tag == 0xFF {
        let (x, p2) = read_u64(buf, p)?;
        if x < 0x1_0000_0000 {
            Err(DecodeError::NonMinimalVarInt)
        } else {
            Ok((x, p2))
        }
    } else {
        Ok((tag as u64, p))
    }
}

pub fn read_bytes(buf: &[u8], pos: usize, n: usize) -> (r: Result<(Vec<u8>, usize), DecodeError>)
    ensures
        match sp_bytes(buf@, pos as int, n as int) {
            SpecRes::Val(v, p) => r matches Ok(t) && t.0@ == v && t.1 == p,
            SpecRes::Fail(e) => r matches Err(e2) && e2 == e,
        },
{
    if n <= buf.len() && pos <= buf.len() - n {
        let v = slice_to_vec(slice_subrange(buf, pos, pos + n));
        Ok((v, pos + n))
    } else {
        Err(DecodeError::UnexpectedEnd)
    }
}

pub fn read_varbytes(buf: &[u8], pos: usize) -> (r: Result<(Vec<u8>, usize), DecodeError>)
    ensures
        match sp_varbytes(buf@, pos as int) {
            SpecRes::Val(v, p) => r matches Ok(t) && t.0@ == v && t.1 == p,
            SpecRes::Fail(e) => r matches Err(e2) && e2 == e,
        },
{
    let (n, p) = read_varint(buf, pos)?;
    if n > MAX_VEC_SIZE as u64 {
        Err(DecodeError::OversizedAllocation { requested: n, max: MAX_VEC_SIZE as u64 })
    } else {
        read_bytes(buf, p, n as usize)
    }
}

// ---------------------------------------------------------------------------
// Exec encoders
// ---------------------------------------------------------------------------

pub fn push_u16_le(out: &mut Vec<u8>, x: u16)
    ensures
        final(out)@ == old(out)@ + spec_u16_to_le_bytes(x),
{
    let b = u16_to_le_bytes(x);
    push_bytes(out, b.as_slice());
}

pub fn push_u32_le(out: &mut Vec<u8>, x: u32)
    ensures
        final(out)@ == old(out)@ + spec_u32_to_le_bytes(x),
{
    let b = u32_to_le_bytes(x);
    push_bytes(out, b.as_slice());
}

pub fn push_u64_le(out: &mut Vec<u8>, x: u64)
    ensures
        final(out)@ == old(out)@ + spec_u64_to_le_bytes(x),
{
    let b = u64_to_le_bytes(x);
    push_bytes(out, b.as_slice());
}

pub fn push_i64_le(out: &mut Vec<u8>, x: i64)
    ensures
        final(out)@ == old(out)@ + enc_i64(x),
{
    push_u64_le(out, u64_of_i64(x));
}

pub fn push_i32_le(out: &mut Vec<u8>, x: i32)
    ensures
        final(out)@ == old(out)@ + enc_i32(x),
{
    push_u32_le(out, u32_of_i32(x));
}

pub fn push_bool(out: &mut Vec<u8>, b: bool)
    ensures
        final(out)@ == old(out)@ + enc_bool(b),
{
    out.push(if b { 1u8 } else { 0u8 });
    assert(final(out)@ == old(out)@ + enc_bool(b));
}

pub fn push_varint(out: &mut Vec<u8>, v: u64)
    ensures
        final(out)@ == old(out)@ + enc_varint(v),
{
    if v < 0xFD {
        out.push(v as u8);
        assert(final(out)@ == old(out)@ + enc_varint(v));
    } else if v <= 0xFFFF {
        out.push(0xFD);
        push_u16_le(out, v as u16);
        assert(final(out)@ == old(out)@ + enc_varint(v));
    } else if v <= 0xFFFF_FFFF {
        out.push(0xFE);
        push_u32_le(out, v as u32);
        assert(final(out)@ == old(out)@ + enc_varint(v));
    } else {
        out.push(0xFF);
        push_u64_le(out, v);
        assert(final(out)@ == old(out)@ + enc_varint(v));
    }
}

pub fn push_varbytes(out: &mut Vec<u8>, b: &[u8])
    ensures
        final(out)@ == old(out)@ + enc_varbytes(b@),
{
    push_varint(out, b.len() as u64);
    push_bytes(out, b);
}

// ---------------------------------------------------------------------------
// Round-trip lemmas for the primitives
// ---------------------------------------------------------------------------

/// Splits a known concatenation at a position inside a larger sequence.
pub proof fn lemma_split(s: Seq<u8>, pos: int, a: Seq<u8>, b: Seq<u8>)
    requires
        0 <= pos,
        pos + a.len() + b.len() <= s.len(),
        s.subrange(pos, pos + a.len() + b.len()) == a + b,
    ensures
        s.subrange(pos, pos + a.len() as int) == a,
        s.subrange(pos + a.len() as int, pos + a.len() + b.len()) == b,
{
    let ab = s.subrange(pos, pos + a.len() + b.len());
    assert(s.subrange(pos, pos + a.len() as int) =~= a) by {
        assert forall|i: int| 0 <= i < a.len() implies s.subrange(
            pos,
            pos + a.len() as int,
        )[i] == a[i] by {
            assert(ab[i] == (a + b)[i]);
        }
    }
    assert(s.subrange(pos + a.len() as int, pos + a.len() + b.len()) =~= b) by {
        assert forall|i: int| 0 <= i < b.len() implies s.subrange(
            pos + a.len() as int,
            pos + a.len() + b.len(),
        )[i] == b[i] by {
            assert(ab[a.len() + i] == (a + b)[a.len() + i]);
        }
    }
}

pub proof fn lemma_varint_rt(s: Seq<u8>, pos: int, v: u64)
    requires
        0 <= pos,
        pos + enc_varint(v).len() <= s.len(),
        s.subrange(pos, pos + enc_varint(v).len()) == enc_varint(v),
    ensures
        sp_varint(s, pos) == SpecRes::<u64>::Val(v, pos + enc_varint(v).len()),
{
    let e = enc_varint(v);
    if v < 0xFD {
        assert(s[pos] == e[0]);
    } else if v <= 0xFFFF {
        lemma_auto_spec_u16_to_from_le_bytes();
        lemma_split(s, pos, seq![0xFDu8], spec_u16_to_le_bytes(v as u16));
        assert(s[pos] == seq![0xFDu8][0]);
        assert(s.subrange(pos + 1, pos + 3) == spec_u16_to_le_bytes(v as u16));
    } else if v <= 0xFFFF_FFFF {
        lemma_auto_spec_u32_to_from_le_bytes();
        lemma_split(s, pos, seq![0xFEu8], spec_u32_to_le_bytes(v as u32));
        assert(s[pos] == seq![0xFEu8][0]);
        assert(s.subrange(pos + 1, pos + 5) == spec_u32_to_le_bytes(v as u32));
    } else {
        lemma_auto_spec_u64_to_from_le_bytes();
        lemma_split(s, pos, seq![0xFFu8], spec_u64_to_le_bytes(v));
        assert(s[pos] == seq![0xFFu8][0]);
        assert(s.subrange(pos + 1, pos + 9) == spec_u64_to_le_bytes(v));
    }
}

// ---------------------------------------------------------------------------
// Checksummed payload container
// ---------------------------------------------------------------------------

/// Byte `i` of the double-SHA256 digest of `data`; the digest is a
/// function of the input bytes alone.
pub uninterp spec fn sha256d_byte(data: Seq<u8>, i: int) -> u8;

/// Relies on `bitcoin_hashes::sha256d::Hash::hash`: the 32-byte double-SHA256
/// digest of the input, depending on the input bytes alone.
#[verifier::external_body]
fn sha256d(data: &[u8]) -> (r: Vec<u8>)
    ensures
        r@.len() == 32,
        forall|i: int| 0 <= i < 32 ==> r@[i] == sha256d_byte(data@, i),
{
    bitcoin_hashes::sha256d::Hash::hash(data).to_byte_array().to_vec()
}

/// The four-byte checksum guarding a payload: the first four bytes of its
/// double-SHA256 digest.
pub open spec fn checksum4(data: Seq<u8>) -> Seq<u8> {
    seq![
        sha256d_byte(data, 0),
        sha256d_byte(data, 1),
        sha256d_byte(data, 2),
        sha256d_byte(data, 3),
    ]
}

/// Checksummed container: 4-byte length, 4-byte checksum, then the payload
/// bytes verbatim.
pub open spec fn enc_checked(data: Seq<u8>) -> Seq<u8> {
    spec_u32_to_le_bytes(data.len() as u32) + checksum4(data) + data
}

/// Container decode: the declared length is checked against `MAX_VEC_SIZE`
/// before the checksum is even read, and the checksum is verified before
/// the bytes are handed to any structural decoder.
pub open spec fn sp_checked(s: Seq<u8>, pos: int) -> SpecRes<Seq<u8>> {
    match sp_u32(s, pos) {
        SpecRes::Fail(e) => SpecRes::Fail(e),
        SpecRes::Val(len, p1) => if len as u64 > MAX_VEC_SIZE as u64 {
            SpecRes::Fail(DecodeError::OversizedAllocation {
                requested: len as u64,
                max: MAX_VEC_SIZE as u64,
            })
        } else {
            match sp_bytes(s, p1, 4) {
                SpecRes::Fail(e) => SpecRes::Fail(e),
                SpecRes::Val(ck, p2) => match sp_bytes(s, p2, len as int) {
                    SpecRes::Fail(e) => SpecRes::Fail(e),
                    SpecRes::Val(data, p3) => if checksum4(data) != ck {
                        SpecRes::Fail(DecodeError::ChecksumMismatch {
                            expected: spec_u32_from_le_bytes(checksum4(data)),
                            actual: spec_u32_from_le_bytes(ck),
                        })
                    } else {
                        SpecRes::Val(data, p3)
                    },
                },
            }
        },
    }
}

pub fn read_checked(buf: &[u8], pos: usize) -> (r: Result<(Vec<u8>, usize), DecodeError>)
    ensures
        match sp_checked(buf@, pos as int) {
            SpecRes::Val(v, p) => r matches Ok(t) && t.0@ == v && t.1 == p,
            SpecRes::Fail(e) => r matches Err(e2) && e2 == e,
        },
{
    let (len, p1) = read_u32(buf, pos)?;
    if len as u64 > MAX_VEC_SIZE as u64 {
        return Err(DecodeError::OversizedAllocation {
            requested: len as u64,
            max: MAX_VEC_SIZE as u64,
        });
    }
    let (ck, p2) = read_bytes(buf, p1, 4)?;
    let (data, p3) = read_bytes(buf, p2, len as usize)?;
    let h = sha256d(data.as_slice());
    let hh = slice_subrange(h.as_slice(), 0, 4);
    assert(hh@ =~= checksum4(data@));
    if bytes_eq(hh, ck.as_slice()) {
        Ok((data, p3))
    } else {
        let expected = u32_from_le_bytes(hh);
        let actual = u32_from_le_bytes(ck.as_slice());
        Err(DecodeError::ChecksumMismatch { expected, actual })
    }
}

pub fn push_checked(out: &mut Vec<u8>, data: &[u8])
    requires
        data@.len() <= 0xFFFF_FFFF,
    ensures
        final(out)@ == old(out)@ + enc_checked(data@),
{
    push_u32_le(out, data.len() as u32);
    let h = sha256d(data);
    let hh = slice_subrange(h.as_slice(), 0, 4);
    assert(hh@ =~= checksum4(data@));
    push_bytes(out, hh);
    push_bytes(out, data);
    assert(final(out)@ =~= old(out)@ + enc_checked(data@));
}

pub proof fn lemma_checked_rt(s: Seq<u8>, pos: int, data: Seq<u8>)
    requires
        0 <= pos,
        data.len() <= MAX_VEC_SIZE as int,
        pos + enc_checked(data).len() <= s.len(),
        s.subrange(pos, pos + enc_checked(data).len()) == enc_checked(data),
    ensures
        sp_checked(s, pos) == SpecRes::<Seq<u8>>::Val(data, pos + enc_checked(data).len()),
{
    lemma_auto_spec_u32_to_from_le_bytes();
    let lenb = spec_u32_to_le_bytes(data.len() as u32);
    assert(enc_checked(data) == lenb + (checksum4(data) + data));
    assert(s.subrange(pos, pos + (lenb + (checksum4(data) + data)).len())
        == lenb + (checksum4(data) + data)) by {
        assert(enc_checked(data).len() == (lenb + (checksum4(data) + data)).len());
    }
    lemma_split(s, pos, lenb, checksum4(data) + data);
    lemma_split(s, pos + 4, checksum4(data), data);
    assert(s.subrange(pos, pos + 4) == lenb);
    assert(sp_u32(s, pos) == SpecRes::<u32>::Val(data.len() as u32, pos + 4));
}


// ---------------------------------------------------------------------------
// Positional round-trip helpers: reading an encoded field back at the
// position where it was written yields the original value.
// ---------------------------------------------------------------------------

pub proof fn lemma_u32_rt(s: Seq<u8>, pos: int, x: u32)
    requires
        0 <= pos,
        pos + 4 <= s.len(),
        s.subrange(pos, pos + 4) == spec_u32_to_le_bytes(x),
    ensures
        sp_u32(s, pos) == SpecRes::<u32>::Val(x, pos + 4),
{
    lemma_auto_spec_u32_to_from_le_bytes();
    assert(spec_u32_to_le_bytes(x).len() == 4);
    assert(spec_u32_from_le_bytes(spec_u32_to_le_bytes(x)) == x);
}

pub proof fn lemma_u64_rt(s: Seq<u8>, pos: int, x: u64)
    requires
        0 <= pos,
        pos + 8 <= s.len(),
        s.subrange(pos, pos + 8) == spec_u64_to_le_bytes(x),
    ensures
        sp_u64(s, pos) == SpecRes::<u64>::Val(x, pos + 8),
{
    lemma_auto_spec_u64_to_from_le_bytes();
    assert(spec_u64_to_le_bytes(x).len() == 8);
    assert(spec_u64_from_le_bytes(spec_u64_to_le_bytes(x)) == x);
}

pub proof fn lemma_i64_rt(s: Seq<u8>, pos: int, x: i64)
    requires
        0 <= pos,
        pos + 8 <= s.len(),
        s.subrange(pos, pos + 8) == enc_i64(x),
    ensures
        sp_i64(s, pos) == SpecRes::<i64>::Val(x, pos + 8),
{
    lemma_u64_rt(s, pos, clip64(x));
    lemma_clip64_unclip64(x);
}

pub proof fn lemma_i32_rt(s: Seq<u8>, pos: int, x: i32)
    requires
        0 <= pos,
        pos + 4 <= s.len(),
        s.subrange(pos, pos + 4) == enc_i32(x),
    ensures
        sp_i32(s, pos) == SpecRes::<i32>::Val(x, pos + 4),
{
    lemma_u32_rt(s, pos, clip32(x));
    lemma_clip32_unclip32(x);
}

pub proof fn lemma_bool_rt(s: Seq<u8>, pos: int, b: bool)
    requires
        0 <= pos,
        pos + 1 <= s.len(),
        s.subrange(pos, pos + 1) == enc_bool(b),
    ensures
        sp_bool(s, pos) == SpecRes::<bool>::Val(b, pos + 1),
{
    assert(s[pos] == enc_bool(b)[0]);
}

pub proof fn lemma_bytes_rt(s: Seq<u8>, pos: int, b: Seq<u8>)
    requires
        0 <= pos,
        pos + b.len() <= s.len(),
        s.subrange(pos, pos + b.len()) == b,
    ensures
        sp_bytes(s, pos, b.len() as int) == SpecRes::<Seq<u8>>::Val(b, pos + b.len()),
{
}

pub proof fn lemma_varbytes_rt(s: Seq<u8>, pos: int, b: Seq<u8>)
    requires
        0 <= pos,
        b.len() <= MAX_VEC_SIZE as int,
        pos + enc_varbytes(b).len() <= s.len(),
        s.subrange(pos, pos + enc_varbytes(b).len()) == enc_varbytes(b),
    ensures
        sp_varbytes(s, pos) == SpecRes::<Seq<u8>>::Val(b, pos + enc_varbytes(b).len()),
{
    lemma_split(s, pos, enc_varint(b.len() as u64), b);
    lemma_varint_rt(s, pos, b.len() as u64);
    let p = pos + enc_varint(b.len() as u64).len();
    lemma_bytes_rt(s, p, b);
}

} // verus!
