//! Message envelope and payload union.
//!
//! A wire message is `magic (4 bytes LE) | command (12 bytes, zero-padded
//! ASCII) | checksummed payload`.  The payload union covers the known
//! message kinds plus an unknown-passthrough variant that keeps the raw
//! command and payload bytes byte-for-byte.

use vstd::prelude::*;
use vstd::string::StrSliceExecFns;
use vstd::string::StringSliceAdditionalSpecFns;
use vstd::bytes::spec_u32_to_le_bytes;
use vstd::bytes::spec_u64_to_le_bytes;
use vstd::bytes::u64_to_le_bytes;
use vstd::slice::slice_to_vec;
use crate::encode::DecodeError;
use crate::encode::ParseReason;
use crate::encode::SpecRes;
use crate::encode::MAX_VEC_SIZE;
use crate::encode::enc_i64;
use crate::encode::enc_varbytes;
use crate::encode::enc_varint;
use crate::encode::enc_checked;
use crate::encode::sp_bytes;
use crate::encode::sp_u8;
use crate::encode::sp_u32;
use crate::encode::sp_u64;
use crate::encode::sp_i64;
use crate::encode::sp_varint;
use crate::encode::sp_varbytes;
use crate::encode::sp_checked;
use crate::encode::read_bytes;
use crate::encode::read_u8;
use crate::encode::read_u32;
use crate::encode::read_u64;
use crate::encode::read_i64;
use crate::encode::read_varint;
use crate::encode::read_varbytes;
use crate::encode::read_checked;
use crate::encode::push_bytes;
use crate::encode::push_u64_le;
use crate::encode::push_i64_le;
use crate::encode::push_varint;
use crate::encode::push_varbytes;
use crate::encode::push_u32_le;
use crate::encode::push_checked;
use crate::encode::bytes_eq;
use crate::message_network::VersionMessage;
use crate::message_network::VersionV;
use crate::message_network::Reject;
use crate::message_network::RejectV;
use crate::message_network::wf_version;
use crate::message_network::wf_reject;
use crate::message_network::enc_version;
use crate::message_network::sp_version;
use crate::message_network::enc_reject;
use crate::message_network::sp_reject;
use crate::message_network::lemma_version_rt;
use crate::message_network::lemma_reject_rt;
use crate::encode::lemma_split;
use crate::encode::lemma_u32_rt;
use crate::encode::lemma_u64_rt;
use crate::encode::lemma_i64_rt;
use crate::encode::lemma_varbytes_rt;
use crate::encode::lemma_varint_rt;
use crate::encode::lemma_checked_rt;
use crate::encode::checksum4;
use vstd::bytes::lemma_auto_spec_u32_to_from_le_bytes;
use vstd::bytes::lemma_auto_spec_u64_to_from_le_bytes;

verus! {

// ---------------------------------------------------------------------------
// Command string
// ---------------------------------------------------------------------------

/// The bytes of `s` whose value is greater than zero, in order.
///
/// This is the decode-side reading of a 12-byte command field: it is a
/// filter over the whole field, not a trim of trailing padding, so an
/// embedded zero byte vanishes silently.
pub open spec fn keep_nonzero(s: Seq<u8>) -> Seq<u8> {
    s.filter(|b: u8| b != 0)
}

pub proof fn lemma_keep_nonzero_push(t: Seq<u8>, x: u8)
    ensures
        keep_nonzero(t.push(x)) == if x != 0 {
            keep_nonzero(t).push(x)
        } else {
            keep_nonzero(t)
        },
{
    reveal(Seq::filter);
    assert(t.push(x).drop_last() =~= t);
    assert(t.push(x).last() == x);
}

pub proof fn lemma_keep_nonzero_len(s: Seq<u8>)
    ensures
        keep_nonzero(s).len() <= s.len(),
    decreases s.len(),
{
    if s.len() == 0 {
        reveal(Seq::filter);
    } else {
        let t = s.drop_last();
        lemma_keep_nonzero_len(t);
        lemma_keep_nonzero_push(t, s.last());
        assert(t.push(s.last()) =~= s);
    }
}

pub proof fn lemma_keep_nonzero_add(a: Seq<u8>, b: Seq<u8>)
    ensures
        keep_nonzero(a + b) == keep_nonzero(a) + keep_nonzero(b),
    decreases b.len(),
{
    if b.len() == 0 {
        assert(a + b =~= a);
        assert(keep_nonzero(a) + keep_nonzero(b) =~= keep_nonzero(a)) by {
            reveal(Seq::filter);
        }
    } else {
        let t = b.drop_last();
        let x = b.last();
        lemma_keep_nonzero_add(a, t);
        lemma_keep_nonzero_push(a + t, x);
        lemma_keep_nonzero_push(t, x);
        assert((a + t).push(x) =~= a + b);
        assert(t.push(x) =~= b);
        if x != 0 {
            assert(keep_nonzero(a) + keep_nonzero(t).push(x)
                =~= keep_nonzero(a) + keep_nonzero(t) + seq![x]);
            assert((keep_nonzero(a) + keep_nonzero(t)).push(x)
                =~= keep_nonzero(a) + keep_nonzero(t) + seq![x]);
        }
    }
}

pub proof fn lemma_keep_nonzero_id(s: Seq<u8>)
    requires
        forall|i: int| 0 <= i < s.len() ==> s[i] != 0,
    ensures
        keep_nonzero(s) == s,
    decreases s.len(),
{
    reveal(Seq::filter);
    if s.len() == 0 {
    } else {
        let t = s.drop_last();
        lemma_keep_nonzero_id(t);
        lemma_keep_nonzero_push(t, s.last());
        assert(t.push(s.last()) =~= s);
    }
}

pub proof fn lemma_keep_nonzero_zeros(s: Seq<u8>)
    requires
        forall|i: int| 0 <= i < s.len() ==> s[i] == 0,
    ensures
        keep_nonzero(s) == Seq::<u8>::empty(),
    decreases s.len(),
{
    reveal(Seq::filter);
    if s.len() == 0 {
    } else {
        let t = s.drop_last();
        lemma_keep_nonzero_zeros(t);
        lemma_keep_nonzero_push(t, s.last());
        assert(t.push(s.last()) =~= s);
    }
}

/// The wire form of a command name: the name followed by zero padding up
/// to exactly 12 bytes.
pub open spec fn pad12(name: Seq<u8>) -> Seq<u8> {
    name + Seq::new(if name.len() <= 12 { (12 - name.len()) as nat } else { 0nat }, |i: int| 0u8)
}

/// Command-name codec: an ASCII identifier of at most 12 bytes.
///
/// Construction rejects longer names; the wire form is always exactly 12
/// bytes, zero-padded.
#[derive(Debug, PartialEq, Eq)]
pub struct CommandString {
    bytes: Vec<u8>,
}

/// Error returned when a command string of more than 12 bytes is
/// constructed.
#[derive(Clone, Copy, Debug)]
pub struct CommandStringError {
    /// Byte length of the rejected name.
    pub length: usize,
}

impl View for CommandString {
    type V = Seq<u8>;

    closed spec fn view(&self) -> Seq<u8> {
        self.bytes@
    }
}

#[verifier::type_invariant]
pub closed spec fn command_string_inv(c: CommandString) -> bool {
    c.bytes@.len() <= 12
}

impl CommandString {
    /// Converts a string into a [`CommandString`].
    ///
    /// Fails if and only if the string is longer than 12 bytes.
    pub fn try_from(s: &str) -> (r: Result<CommandString, CommandStringError>)
        ensures
            match r {
                Ok(c) => s.spec_bytes().len() <= 12 && c@ == s.spec_bytes(),
                Err(e) => s.spec_bytes().len() > 12 && e.length == s.spec_bytes().len(),
            },
    {
        let bytes = s.as_bytes_vec();
        if bytes.len() > 12 {
            Err(CommandStringError { length: bytes.len() })
        } else {
            Ok(CommandString { bytes })
        }
    }

    /// Wraps already-decoded name bytes.
    pub(crate) fn from_bytes(bytes: Vec<u8>) -> (r: CommandString)
        requires
            bytes@.len() <= 12,
        ensures
            r@ == bytes@,
    {
        CommandString { bytes }
    }

    /// The name bytes, without padding.
    pub fn as_bytes(&self) -> (r: &[u8])
        ensures
            r@ == self@,
    {
        self.bytes.as_slice()
    }

    /// Writes the 12-byte zero-padded wire form of the name.
    pub fn consensus_encode(&self, out: &mut Vec<u8>)
        ensures
            final(out)@ == old(out)@ + pad12(self@),
    {
        proof {
            use_type_invariant(self);
        }
        push_bytes(out, self.bytes.as_slice());
        let mut i: usize = self.bytes.len();
        while i < 12
            invariant
                self@.len() <= i <= 12,
                out@ == old(out)@ + self@ + Seq::new((i - self@.len()) as nat, |j: int| 0u8),
            decreases 12 - i,
        {
            out.push(0u8);
            assert(out@ =~= old(out)@ + self@ + Seq::new(
                (i + 1 - self@.len()) as nat,
                |j: int| 0u8,
            ));
            i = i + 1;
        }
        assert(final(out)@ == old(out)@ + pad12(self@));
    }

    /// Reads exactly 12 bytes and keeps, in order, every byte whose value
    /// is greater than zero.  No byte content is rejected here; only
    /// truncated input fails.
    pub fn consensus_decode(buf: &[u8], pos: usize) -> (r: Result<
        (CommandString, usize),
        DecodeError,
    >)
        ensures
            match sp_command(buf@, pos as int) {
                SpecRes::Val(v, p) => r matches Ok(t) && t.0@ == v && t.1 == p,
                SpecRes::Fail(e) => r matches Err(e2) && e2 == e,
            },
    {
        let (raw, p) = read_bytes(buf, pos, 12)?;
        let mut name: Vec<u8> = Vec::new();
        let mut i: usize = 0;
        while i < 12
            invariant
                i <= 12,
                raw@.len() == 12,
                name@ == keep_nonzero(raw@.subrange(0, i as int)),
                name@.len() <= i,
            decreases 12 - i,
        {
            proof {
                lemma_keep_nonzero_push(raw@.subrange(0, i as int), raw@[i as int]);
                assert(raw@.subrange(0, i + 1) =~= raw@.subrange(0, i as int).push(
                    raw@[i as int],
                ));
            }
            if raw[i] != 0 {
                name.push(raw[i]);
            }
            i = i + 1;
        }
        assert(raw@.subrange(0, 12) =~= raw@);
        Ok((CommandString::from_bytes(name), p))
    }
}

/// Command-field decode: 12 raw bytes, filtered through [`keep_nonzero`].
pub open spec fn sp_command(s: Seq<u8>, pos: int) -> SpecRes<Seq<u8>> {
    match sp_bytes(s, pos, 12) {
        SpecRes::Fail(e) => SpecRes::Fail(e),
        SpecRes::Val(raw, p) => SpecRes::Val(keep_nonzero(raw), p),
    }
}

/// Decoding an encoded command field yields the name back, provided the
/// name is at most 12 bytes and free of zero bytes.
pub proof fn lemma_command_rt(s: Seq<u8>, pos: int, name: Seq<u8>)
    requires
        0 <= pos,
        pos + 12 <= s.len(),
        name.len() <= 12,
        forall|i: int| 0 <= i < name.len() ==> name[i] != 0,
        s.subrange(pos, pos + 12) == pad12(name),
    ensures
        sp_command(s, pos) == SpecRes::<Seq<u8>>::Val(name, pos + 12),
{
    let zeros = Seq::new((12 - name.len()) as nat, |i: int| 0u8);
    lemma_keep_nonzero_add(name, zeros);
    lemma_keep_nonzero_id(name);
    lemma_keep_nonzero_zeros(zeros);
    assert(keep_nonzero(pad12(name)) =~= name);
}

// ---------------------------------------------------------------------------
// Command names of the known message kinds (ASCII bytes)
// ---------------------------------------------------------------------------

/// `"version"`
pub open spec fn cmd_version() -> Seq<u8> {
    seq![0x76u8, 0x65, 0x72, 0x73, 0x69, 0x6f, 0x6e]
}

/// `"verack"`
pub open spec fn cmd_verack() -> Seq<u8> {
    seq![0x76u8, 0x65, 0x72, 0x61, 0x63, 0x6b]
}

/// `"addr"`
pub open spec fn cmd_addr() -> Seq<u8> {
    seq![0x61u8, 0x64, 0x64, 0x72]
}

/// `"inv"`
pub open spec fn cmd_inv() -> Seq<u8> {
    seq![0x69u8, 0x6e, 0x76]
}

/// `"getdata"`
pub open spec fn cmd_getdata() -> Seq<u8> {
    seq![0x67u8, 0x65, 0x74, 0x64, 0x61, 0x74, 0x61]
}

/// `"notfound"`
pub open spec fn cmd_notfound() -> Seq<u8> {
    seq![0x6eu8, 0x6f, 0x74, 0x66, 0x6f, 0x75, 0x6e, 0x64]
}

/// `"getblocks"`
pub open spec fn cmd_getblocks() -> Seq<u8> {
    seq![0x67u8, 0x65, 0x74, 0x62, 0x6c, 0x6f, 0x63, 0x6b, 0x73]
}

/// `"getheaders"`
pub open spec fn cmd_getheaders() -> Seq<u8> {
    seq![0x67u8, 0x65, 0x74, 0x68, 0x65, 0x61, 0x64, 0x65, 0x72, 0x73]
}

/// `"mempool"`
pub open spec fn cmd_mempool() -> Seq<u8> {
    seq![0x6du8, 0x65, 0x6d, 0x70, 0x6f, 0x6f, 0x6c]
}

/// `"block"`
pub open spec fn cmd_block() -> Seq<u8> {
    seq![0x62u8, 0x6c, 0x6f, 0x63, 0x6b]
}

/// `"headers"`
pub open spec fn cmd_headers() -> Seq<u8> {
    seq![0x68u8, 0x65, 0x61, 0x64, 0x65, 0x72, 0x73]
}

/// `"sendheaders"`
pub open spec fn cmd_sendheaders() -> Seq<u8> {
    seq![0x73u8, 0x65, 0x6e, 0x64, 0x68, 0x65, 0x61, 0x64, 0x65, 0x72, 0x73]
}

/// `"getaddr"`
pub open spec fn cmd_getaddr() -> Seq<u8> {
    seq![0x67u8, 0x65, 0x74, 0x61, 0x64, 0x64, 0x72]
}

/// `"ping"`
pub open spec fn cmd_ping() -> Seq<u8> {
    seq![0x70u8, 0x69, 0x6e, 0x67]
}

/// `"pong"`
pub open spec fn cmd_pong() -> Seq<u8> {
    seq![0x70u8, 0x6f, 0x6e, 0x67]
}

/// `"merkleblock"`
pub open spec fn cmd_merkleblock() -> Seq<u8> {
    seq![0x6du8, 0x65, 0x72, 0x6b, 0x6c, 0x65, 0x62, 0x6c, 0x6f, 0x63, 0x6b]
}

/// `"filterload"`
pub open spec fn cmd_filterload() -> Seq<u8> {
    seq![0x66u8, 0x69, 0x6c, 0x74, 0x65, 0x72, 0x6c, 0x6f, 0x61, 0x64]
}

/// `"filteradd"`
pub open spec fn cmd_filteradd() -> Seq<u8> {
    seq![0x66u8, 0x69, 0x6c, 0x74, 0x65, 0x72, 0x61, 0x64, 0x64]
}

/// `"filterclear"`
pub open spec fn cmd_filterclear() -> Seq<u8> {
    seq![0x66u8, 0x69, 0x6c, 0x74, 0x65, 0x72, 0x63, 0x6c, 0x65, 0x61, 0x72]
}

/// `"tx"`
pub open spec fn cmd_tx() -> Seq<u8> {
    seq![0x74u8, 0x78]
}

/// `"getcfilters"`
pub open spec fn cmd_getcfilters() -> Seq<u8> {
    seq![0x67u8, 0x65, 0x74, 0x63, 0x66, 0x69, 0x6c, 0x74, 0x65, 0x72, 0x73]
}

/// `"cfilter"`
pub open spec fn cmd_cfilter() -> Seq<u8> {
    seq![0x63u8, 0x66, 0x69, 0x6c, 0x74, 0x65, 0x72]
}

/// `"getcfheaders"`
pub open spec fn cmd_getcfheaders() -> Seq<u8> {
    seq![0x67u8, 0x65, 0x74, 0x63, 0x66, 0x68, 0x65, 0x61, 0x64, 0x65, 0x72, 0x73]
}

/// `"cfheaders"`
pub open spec fn cmd_cfheaders() -> Seq<u8> {
    seq![0x63u8, 0x66, 0x68, 0x65, 0x61, 0x64, 0x65, 0x72, 0x73]
}

/// `"getcfcheckpt"`
pub open spec fn cmd_getcfcheckpt() -> Seq<u8> {
    seq![0x67u8, 0x65, 0x74, 0x63, 0x66, 0x63, 0x68, 0x65, 0x63, 0x6b, 0x70, 0x74]
}

/// `"cfcheckpt"`
pub open spec fn cmd_cfcheckpt() -> Seq<u8> {
    seq![0x63u8, 0x66, 0x63, 0x68, 0x65, 0x63, 0x6b, 0x70, 0x74]
}

/// `"reject"`
pub open spec fn cmd_reject() -> Seq<u8> {
    seq![0x72u8, 0x65, 0x6a, 0x65, 0x63, 0x74]
}

/// `"alert"`
pub open spec fn cmd_alert() -> Seq<u8> {
    seq![0x61u8, 0x6c, 0x65, 0x72, 0x74]
}

/// `"feefilter"`
pub open spec fn cmd_feefilter() -> Seq<u8> {
    seq![0x66u8, 0x65, 0x65, 0x66, 0x69, 0x6c, 0x74, 0x65, 0x72]
}

/// `"wtxidrelay"`
pub open spec fn cmd_wtxidrelay() -> Seq<u8> {
    seq![0x77u8, 0x74, 0x78, 0x69, 0x64, 0x72, 0x65, 0x6c, 0x61, 0x79]
}

/// `"addrv2"`
pub open spec fn cmd_addrv2() -> Seq<u8> {
    seq![0x61u8, 0x64, 0x64, 0x72, 0x76, 0x32]
}

/// `"sendaddrv2"`
pub open spec fn cmd_sendaddrv2() -> Seq<u8> {
    seq![0x73u8, 0x65, 0x6e, 0x64, 0x61, 0x64, 0x64, 0x72, 0x76, 0x32]
}

/// Whether `c` is the name of a message kind this codec decodes
/// structurally.
pub open spec fn is_known_command(c: Seq<u8>) -> bool {
    ||| c == cmd_version()
    ||| c == cmd_verack()
    ||| c == cmd_addr()
    ||| c == cmd_inv()
    ||| c == cmd_getdata()
    ||| c == cmd_notfound()
    ||| c == cmd_getblocks()
    ||| c == cmd_getheaders()
    ||| c == cmd_mempool()
    ||| c == cmd_block()
    ||| c == cmd_headers()
    ||| c == cmd_sendheaders()
    ||| c == cmd_getaddr()
    ||| c == cmd_ping()
    ||| c == cmd_pong()
    ||| c == cmd_merkleblock()
    ||| c == cmd_filterload()
    ||| c == cmd_filteradd()
    ||| c == cmd_filterclear()
    ||| c == cmd_tx()
    ||| c == cmd_getcfilters()
    ||| c == cmd_cfilter()
    ||| c == cmd_getcfheaders()
    ||| c == cmd_cfheaders()
    ||| c == cmd_getcfcheckpt()
    ||| c == cmd_cfcheckpt()
    ||| c == cmd_reject()
    ||| c == cmd_alert()
    ||| c == cmd_feefilter()
    ||| c == cmd_wtxidrelay()
    ||| c == cmd_addrv2()
    ||| c == cmd_sendaddrv2()
}

// ---------------------------------------------------------------------------
// Block headers (opaque 80-byte records) and the headers special case
// ---------------------------------------------------------------------------

/// Number of bytes in the wire form of one block header record.
pub const HEADER_WIRE_LEN: usize = 80;

/// A block header in its fixed-width wire form, kept opaque: this codec
/// moves the 80 bytes but never interprets them.
#[derive(Debug, PartialEq, Eq)]
pub struct BlockHeader {
    bytes: Vec<u8>,
}

#[verifier::type_invariant]
pub closed spec fn block_header_inv(h: BlockHeader) -> bool {
    h.bytes@.len() == HEADER_WIRE_LEN as int
}

impl View for BlockHeader {
    type V = Seq<u8>;

    closed spec fn view(&self) -> Seq<u8> {
        self.bytes@
    }
}

impl BlockHeader {
    /// Wraps the 80-byte wire form of a block header; `None` for any
    /// other length.
    pub fn from_wire_bytes(bytes: Vec<u8>) -> (r: Option<BlockHeader>)
        ensures
            match r {
                Some(h) => bytes@.len() == HEADER_WIRE_LEN as int && h@ == bytes@,
                None => bytes@.len() != HEADER_WIRE_LEN as int,
            },
    {
        if bytes.len() == HEADER_WIRE_LEN {
            Some(BlockHeader { bytes })
        } else {
            None
        }
    }

    /// The 80-byte wire form.
    pub fn as_bytes(&self) -> (r: &[u8])
        ensures
            r@ == self@,
    {
        self.bytes.as_slice()
    }
}

/// The views of a list of headers.
pub open spec fn headers_view(hs: Seq<BlockHeader>) -> Seq<Seq<u8>> {
    hs.map_values(|h: BlockHeader| h@)
}

/// Wire form of the header records of a `headers` message: each record is
/// followed by one literal zero byte, the wire's "zero transactions"
/// marker.
pub open spec fn enc_headers_items(hs: Seq<Seq<u8>>) -> Seq<u8>
    decreases hs.len(),
{
    if hs.len() == 0 {
        Seq::<u8>::empty()
    } else {
        hs[0] + seq![0u8] + enc_headers_items(hs.drop_first())
    }
}

/// Wire form of a `headers` message: a count, then the records.
pub open spec fn enc_headers(hs: Seq<Seq<u8>>) -> Seq<u8> {
    crate::encode::enc_varint(hs.len() as u64) + enc_headers_items(hs)
}

/// Decode of `n` header records, each followed by its marker byte; a
/// non-zero marker is a structural failure.
pub open spec fn sp_headers_items(s: Seq<u8>, pos: int, n: int) -> SpecRes<Seq<Seq<u8>>>
    decreases n,
{
    if n <= 0 {
        SpecRes::Val(Seq::<Seq<u8>>::empty(), pos)
    } else {
        match sp_bytes(s, pos, HEADER_WIRE_LEN as int) {
            SpecRes::Fail(e) => SpecRes::Fail(e),
            SpecRes::Val(h, p1) => match crate::encode::sp_u8(s, p1) {
                SpecRes::Fail(e) => SpecRes::Fail(e),
                SpecRes::Val(marker, p2) => if marker != 0 {
                    SpecRes::Fail(DecodeError::ParseFailed(
                        crate::encode::ParseReason::HeadersContainTransactions,
                    ))
                } else {
                    match sp_headers_items(s, p2, n - 1) {
                        SpecRes::Fail(e) => SpecRes::Fail(e),
                        SpecRes::Val(rest, p3) => SpecRes::Val(seq![h] + rest, p3),
                    }
                },
            },
        }
    }
}

/// Decode of a `headers` message: the declared count is bounded before
/// any storage is allocated.
pub open spec fn sp_headers(s: Seq<u8>, pos: int) -> SpecRes<Seq<Seq<u8>>> {
    match crate::encode::sp_varint(s, pos) {
        SpecRes::Fail(e) => SpecRes::Fail(e),
        SpecRes::Val(count, p1) => if count as int * HEADER_WIRE_LEN as int > u64::MAX as int {
            SpecRes::Fail(DecodeError::ParseFailed(crate::encode::ParseReason::InvalidLength))
        } else if count as int * HEADER_WIRE_LEN as int > crate::encode::MAX_VEC_SIZE as int {
            SpecRes::Fail(DecodeError::OversizedAllocation {
                requested: (count as int * HEADER_WIRE_LEN as int) as u64,
                max: crate::encode::MAX_VEC_SIZE as u64,
            })
        } else {
            sp_headers_items(s, p1, count as int)
        },
    }
}

// ---------------------------------------------------------------------------
// Payload union
// ---------------------------------------------------------------------------

/// The maximum number of inventory items in an `inv` message.
///
/// This limit is not enforced by this codec: a longer list decodes and
/// encodes unchanged.  It is recorded here as a documented property of the
/// protocol.
pub const MAX_INV_SIZE: usize = 50_000;

/// Spec-level value of a network message payload.
///
/// Domain payloads this codec does not interpret (transactions, blocks,
/// filters, address lists) are the byte strings of their own wire forms.
pub enum MessageV {
    Version(VersionV),
    Verack,
    Addr(Seq<u8>),
    Inv(Seq<u8>),
    GetData(Seq<u8>),
    NotFound(Seq<u8>),
    GetBlocks(Seq<u8>),
    GetHeaders(Seq<u8>),
    MemPool,
    Tx(Seq<u8>),
    Block(Seq<u8>),
    Headers(Seq<Seq<u8>>),
    SendHeaders,
    GetAddr,
    Ping(u64),
    Pong(u64),
    MerkleBlock(Seq<u8>),
    FilterLoad(Seq<u8>),
    FilterAdd(Seq<u8>),
    FilterClear,
    GetCFilters(Seq<u8>),
    CFilter(Seq<u8>),
    GetCFHeaders(Seq<u8>),
    CFHeaders(Seq<u8>),
    GetCFCheckpt(Seq<u8>),
    CFCheckpt(Seq<u8>),
    Alert(Seq<u8>),
    Reject(RejectV),
    FeeFilter(i64),
    WtxidRelay,
    AddrV2(Seq<u8>),
    SendAddrV2,
    Unknown { command: Seq<u8>, payload: Seq<u8> },
}

/// A network message payload.
///
/// Structured kinds (`version`, `headers`, `reject`, the scalar and
/// content-free kinds) are decoded into values; the remaining domain
/// payloads are carried as the raw bytes of their own wire form, exactly
/// as received, and re-emitted verbatim.
#[derive(Debug, PartialEq, Eq)]
pub enum NetworkMessage {
    /// `version`
    Version(VersionMessage),
    /// `verack`
    Verack,
    /// `addr`: the serialized address list, uninterpreted.
    Addr(Vec<u8>),
    /// `inv`: the serialized inventory list, uninterpreted.
    Inv(Vec<u8>),
    /// `getdata`: the serialized inventory list, uninterpreted.
    GetData(Vec<u8>),
    /// `notfound`: the serialized inventory list, uninterpreted.
    NotFound(Vec<u8>),
    /// `getblocks`: the serialized locator request, uninterpreted.
    GetBlocks(Vec<u8>),
    /// `getheaders`: the serialized locator request, uninterpreted.
    GetHeaders(Vec<u8>),
    /// `mempool`
    MemPool,
    /// `tx`: the serialized transaction, uninterpreted.
    Tx(Vec<u8>),
    /// `block`: the serialized block, uninterpreted.
    Block(Vec<u8>),
    /// `headers`: block headers, each followed on the wire by one zero
    /// byte.
    Headers(Vec<BlockHeader>),
    /// `sendheaders`
    SendHeaders,
    /// `getaddr`
    GetAddr,
    /// `ping`
    Ping(u64),
    /// `pong`
    Pong(u64),
    /// `merkleblock`: the serialized proof, uninterpreted.
    MerkleBlock(Vec<u8>),
    /// `filterload`: the serialized filter, uninterpreted.
    FilterLoad(Vec<u8>),
    /// `filteradd`: the serialized filter fragment, uninterpreted.
    FilterAdd(Vec<u8>),
    /// `filterclear`
    FilterClear,
    /// `getcfilters`: the serialized request, uninterpreted.
    GetCFilters(Vec<u8>),
    /// `cfilter`: the serialized compact filter, uninterpreted.
    CFilter(Vec<u8>),
    /// `getcfheaders`: the serialized request, uninterpreted.
    GetCFHeaders(Vec<u8>),
    /// `cfheaders`: the serialized headers, uninterpreted.
    CFHeaders(Vec<u8>),
    /// `getcfcheckpt`: the serialized request, uninterpreted.
    GetCFCheckpt(Vec<u8>),
    /// `cfcheckpt`: the serialized checkpoints, uninterpreted.
    CFCheckpt(Vec<u8>),
    /// `alert`: the alert bytes, length-prefixed on the wire.
    Alert(Vec<u8>),
    /// `reject`
    Reject(Reject),
    /// `feefilter`
    FeeFilter(i64),
    /// `wtxidrelay`
    WtxidRelay,
    /// `addrv2`: the serialized address list, uninterpreted.
    AddrV2(Vec<u8>),
    /// `sendaddrv2`
    SendAddrV2,
    /// Any other message, kept losslessly.
    Unknown {
        /// The command of this message.
        command: CommandString,
        /// The payload of this message.
        payload: Vec<u8>,
    },
}

impl View for NetworkMessage {
    type V = MessageV;

    open spec fn view(&self) -> MessageV {
        match self {
            NetworkMessage::Version(v) => MessageV::Version(v@),
            NetworkMessage::Verack => MessageV::Verack,
            NetworkMessage::Addr(b) => MessageV::Addr(b@),
            NetworkMessage::Inv(b) => MessageV::Inv(b@),
            NetworkMessage::GetData(b) => MessageV::GetData(b@),
            NetworkMessage::NotFound(b) => MessageV::NotFound(b@),
            NetworkMessage::GetBlocks(b) => MessageV::GetBlocks(b@),
            NetworkMessage::GetHeaders(b) => MessageV::GetHeaders(b@),
            NetworkMessage::MemPool => MessageV::MemPool,
            NetworkMessage::Tx(b) => MessageV::Tx(b@),
            NetworkMessage::Block(b) => MessageV::Block(b@),
            NetworkMessage::Headers(hs) => MessageV::Headers(headers_view(hs@)),
            NetworkMessage::SendHeaders => MessageV::SendHeaders,
            NetworkMessage::GetAddr => MessageV::GetAddr,
            NetworkMessage::Ping(x) => MessageV::Ping(*x),
            NetworkMessage::Pong(x) => MessageV::Pong(*x),
            NetworkMessage::MerkleBlock(b) => MessageV::MerkleBlock(b@),
            NetworkMessage::FilterLoad(b) => MessageV::FilterLoad(b@),
            NetworkMessage::FilterAdd(b) => MessageV::FilterAdd(b@),
            NetworkMessage::FilterClear => MessageV::FilterClear,
            NetworkMessage::GetCFilters(b) => MessageV::GetCFilters(b@),
            NetworkMessage::CFilter(b) => MessageV::CFilter(b@),
            NetworkMessage::GetCFHeaders(b) => MessageV::GetCFHeaders(b@),
            NetworkMessage::CFHeaders(b) => MessageV::CFHeaders(b@),
            NetworkMessage::GetCFCheckpt(b) => MessageV::GetCFCheckpt(b@),
            NetworkMessage::CFCheckpt(b) => MessageV::CFCheckpt(b@),
            NetworkMessage::Alert(b) => MessageV::Alert(b@),
            NetworkMessage::Reject(r) => MessageV::Reject(r@),
            NetworkMessage::FeeFilter(x) => MessageV::FeeFilter(*x),
            NetworkMessage::WtxidRelay => MessageV::WtxidRelay,
            NetworkMessage::AddrV2(b) => MessageV::AddrV2(b@),
            NetworkMessage::SendAddrV2 => MessageV::SendAddrV2,
            NetworkMessage::Unknown { command, payload } => MessageV::Unknown {
                command: command@,
                payload: payload@,
            },
        }
    }
}

/// Structural validity of a payload value.
pub open spec fn wf_message(m: MessageV) -> bool {
    match m {
        MessageV::Version(v) => wf_version(v),
        MessageV::Headers(hs) => forall|i: int|
            0 <= i < hs.len() ==> (#[trigger] hs[i]).len() == HEADER_WIRE_LEN as int,
        MessageV::Reject(r) => wf_reject(r),
        MessageV::Unknown { command, payload } => command.len() <= 12,
        _ => true,
    }
}

/// The command name under which a payload travels: the canonical name of
/// its kind, or the stored name of an unknown message.
pub open spec fn wire_command(m: MessageV) -> Seq<u8> {
    match m {
        MessageV::Version(_) => cmd_version(),
        MessageV::Verack => cmd_verack(),
        MessageV::Addr(_) => cmd_addr(),
        MessageV::Inv(_) => cmd_inv(),
        MessageV::GetData(_) => cmd_getdata(),
        MessageV::NotFound(_) => cmd_notfound(),
        MessageV::GetBlocks(_) => cmd_getblocks(),
        MessageV::GetHeaders(_) => cmd_getheaders(),
        MessageV::MemPool => cmd_mempool(),
        MessageV::Tx(_) => cmd_tx(),
        MessageV::Block(_) => cmd_block(),
        MessageV::Headers(_) => cmd_headers(),
        MessageV::SendHeaders => cmd_sendheaders(),
        MessageV::GetAddr => cmd_getaddr(),
        MessageV::Ping(_) => cmd_ping(),
        MessageV::Pong(_) => cmd_pong(),
        MessageV::MerkleBlock(_) => cmd_merkleblock(),
        MessageV::FilterLoad(_) => cmd_filterload(),
        MessageV::FilterAdd(_) => cmd_filteradd(),
        MessageV::FilterClear => cmd_filterclear(),
        MessageV::GetCFilters(_) => cmd_getcfilters(),
        MessageV::CFilter(_) => cmd_cfilter(),
        MessageV::GetCFHeaders(_) => cmd_getcfheaders(),
        MessageV::CFHeaders(_) => cmd_cfheaders(),
        MessageV::GetCFCheckpt(_) => cmd_getcfcheckpt(),
        MessageV::CFCheckpt(_) => cmd_cfcheckpt(),
        MessageV::Alert(_) => cmd_alert(),
        MessageV::Reject(_) => cmd_reject(),
        MessageV::FeeFilter(_) => cmd_feefilter(),
        MessageV::WtxidRelay => cmd_wtxidrelay(),
        MessageV::AddrV2(_) => cmd_addrv2(),
        MessageV::SendAddrV2 => cmd_sendaddrv2(),
        MessageV::Unknown { command, .. } => command,
    }
}

/// The short protocol name of a payload kind, as text; `"unknown"` for
/// unknown messages regardless of their stored command.
pub open spec fn cmd_text(m: MessageV) -> Seq<char> {
    match m {
        MessageV::Version(_) => "version"@,
        MessageV::Verack => "verack"@,
        MessageV::Addr(_) => "addr"@,
        MessageV::Inv(_) => "inv"@,
        MessageV::GetData(_) => "getdata"@,
        MessageV::NotFound(_) => "notfound"@,
        MessageV::GetBlocks(_) => "getblocks"@,
        MessageV::GetHeaders(_) => "getheaders"@,
        MessageV::MemPool => "mempool"@,
        MessageV::Tx(_) => "tx"@,
        MessageV::Block(_) => "block"@,
        MessageV::Headers(_) => "headers"@,
        MessageV::SendHeaders => "sendheaders"@,
        MessageV::GetAddr => "getaddr"@,
        MessageV::Ping(_) => "ping"@,
        MessageV::Pong(_) => "pong"@,
        MessageV::MerkleBlock(_) => "merkleblock"@,
        MessageV::FilterLoad(_) => "filterload"@,
        MessageV::FilterAdd(_) => "filteradd"@,
        MessageV::FilterClear => "filterclear"@,
        MessageV::GetCFilters(_) => "getcfilters"@,
        MessageV::CFilter(_) => "cfilter"@,
        MessageV::GetCFHeaders(_) => "getcfheaders"@,
        MessageV::CFHeaders(_) => "cfheaders"@,
        MessageV::GetCFCheckpt(_) => "getcfcheckpt"@,
        MessageV::CFCheckpt(_) => "cfcheckpt"@,
        MessageV::Alert(_) => "alert"@,
        MessageV::Reject(_) => "reject"@,
        MessageV::FeeFilter(_) => "feefilter"@,
        MessageV::WtxidRelay => "wtxidrelay"@,
        MessageV::AddrV2(_) => "addrv2"@,
        MessageV::SendAddrV2 => "sendaddrv2"@,
        MessageV::Unknown { .. } => "unknown"@,
    }
}

/// Wire form of a payload: the variant-specific serialization handed to
/// the checksummed container.  Content-free kinds serialize to zero
/// bytes; unknown messages re-emit their stored bytes verbatim.
pub open spec fn enc_payload(m: MessageV) -> Seq<u8> {
    match m {
        MessageV::Version(v) => enc_version(v),
        MessageV::Verack => Seq::<u8>::empty(),
        MessageV::Addr(b) => b,
        MessageV::Inv(b) => b,
        MessageV::GetData(b) => b,
        MessageV::NotFound(b) => b,
        MessageV::GetBlocks(b) => b,
        MessageV::GetHeaders(b) => b,
        MessageV::MemPool => Seq::<u8>::empty(),
        MessageV::Tx(b) => b,
        MessageV::Block(b) => b,
        MessageV::Headers(hs) => enc_headers(hs),
        MessageV::SendHeaders => Seq::<u8>::empty(),
        MessageV::GetAddr => Seq::<u8>::empty(),
        MessageV::Ping(x) => spec_u64_to_le_bytes(x),
        MessageV::Pong(x) => spec_u64_to_le_bytes(x),
        MessageV::MerkleBlock(b) => b,
        MessageV::FilterLoad(b) => b,
        MessageV::FilterAdd(b) => b,
        MessageV::FilterClear => Seq::<u8>::empty(),
        MessageV::GetCFilters(b) => b,
        MessageV::CFilter(b) => b,
        MessageV::GetCFHeaders(b) => b,
        MessageV::CFHeaders(b) => b,
        MessageV::GetCFCheckpt(b) => b,
        MessageV::CFCheckpt(b) => b,
        MessageV::Alert(b) => enc_varbytes(b),
        MessageV::Reject(r) => enc_reject(r),
        MessageV::FeeFilter(x) => enc_i64(x),
        MessageV::WtxidRelay => Seq::<u8>::empty(),
        MessageV::AddrV2(b) => b,
        MessageV::SendAddrV2 => Seq::<u8>::empty(),
        MessageV::Unknown { payload, .. } => payload,
    }
}

// ---------------------------------------------------------------------------
// Executable encoders for the union and the envelope
// ---------------------------------------------------------------------------

pub proof fn lemma_enc_headers_items_push(s: Seq<Seq<u8>>, x: Seq<u8>)
    ensures
        enc_headers_items(s.push(x)) == enc_headers_items(s) + x + seq![0u8],
    decreases s.len(),
{
    if s.len() == 0 {
        assert(s =~= Seq::<Seq<u8>>::empty());
        assert(s.push(x).drop_first() =~= s);
        assert(s.push(x)[0] == x);
        assert(enc_headers_items(s.push(x)) =~= enc_headers_items(s) + x + seq![0u8]);
    } else {
        assert(s.push(x)[0] == s[0]);
        assert(s.push(x).drop_first() =~= s.drop_first().push(x));
        lemma_enc_headers_items_push(s.drop_first(), x);
        assert(enc_headers_items(s.push(x)) =~= enc_headers_items(s) + x + seq![0u8]);
    }
}

/// Writes the wire form of a `headers` message: the count, then each
/// header followed by one literal zero byte.
pub fn encode_headers(hs: &Vec<BlockHeader>, out: &mut Vec<u8>)
    ensures
        final(out)@ == old(out)@ + enc_headers(headers_view(hs@)),
{
    let n = hs.len();
    push_varint(out, n as u64);
    let mut i: usize = 0;
    while i < n
        invariant
            i <= n,
            n == hs@.len(),
            out@ == old(out)@ + enc_varint(hs@.len() as u64) + enc_headers_items(
                headers_view(hs@.subrange(0, i as int)),
            ),
        decreases n - i,
    {
        proof {
            assert(headers_view(hs@.subrange(0, i + 1)) =~= headers_view(
                hs@.subrange(0, i as int),
            ).push(hs@[i as int]@));
            lemma_enc_headers_items_push(
                headers_view(hs@.subrange(0, i as int)),
                hs@[i as int]@,
            );
        }
        push_bytes(out, hs[i].as_bytes());
        out.push(0u8);
        assert(out@ =~= old(out)@ + enc_varint(hs@.len() as u64) + enc_headers_items(
            headers_view(hs@.subrange(0, i + 1)),
        ));
        i = i + 1;
    }
    assert(hs@.subrange(0, n as int) =~= hs@);
    assert(final(out)@ =~= old(out)@ + enc_headers(headers_view(hs@)));
}

impl NetworkMessage {
    /// Returns the message command as a static string reference.
    ///
    /// This returns `"unknown"` for [`NetworkMessage::Unknown`],
    /// regardless of the actual command in the unknown message.
    /// Use [`Self::command`] to get the command for unknown messages.
    pub fn cmd(&self) -> (r: &'static str)
        ensures
            r@ == cmd_text(self@),
    {
        match *self {
            NetworkMessage::Version(_) => "version",
            NetworkMessage::Verack => "verack",
            NetworkMessage::Addr(_) => "addr",
            NetworkMessage::Inv(_) => "inv",
            NetworkMessage::GetData(_) => "getdata",
            NetworkMessage::NotFound(_) => "notfound",
            NetworkMessage::GetBlocks(_) => "getblocks",
            NetworkMessage::GetHeaders(_) => "getheaders",
            NetworkMessage::MemPool => "mempool",
            NetworkMessage::Tx(_) => "tx",
            NetworkMessage::Block(_) => "block",
            NetworkMessage::Headers(_) => "headers",
            NetworkMessage::SendHeaders => "sendheaders",
            NetworkMessage::GetAddr => "getaddr",
            NetworkMessage::Ping(_) => "ping",
            NetworkMessage::Pong(_) => "pong",
            NetworkMessage::MerkleBlock(_) => "merkleblock",
            NetworkMessage::FilterLoad(_) => "filterload",
            NetworkMessage::FilterAdd(_) => "filteradd",
            NetworkMessage::FilterClear => "filterclear",
            NetworkMessage::GetCFilters(_) => "getcfilters",
            NetworkMessage::CFilter(_) => "cfilter",
            NetworkMessage::GetCFHeaders(_) => "getcfheaders",
            NetworkMessage::CFHeaders(_) => "cfheaders",
            NetworkMessage::GetCFCheckpt(_) => "getcfcheckpt",
            NetworkMessage::CFCheckpt(_) => "cfcheckpt",
            NetworkMessage::Alert(_) => "alert",
            NetworkMessage::Reject(_) => "reject",
            NetworkMessage::FeeFilter(_) => "feefilter",
            NetworkMessage::WtxidRelay => "wtxidrelay",
            NetworkMessage::AddrV2(_) => "addrv2",
            NetworkMessage::SendAddrV2 => "sendaddrv2",
            NetworkMessage::Unknown { .. } => "unknown",
        }
    }

    /// Returns the command name under which this payload travels: the
    /// canonical name of its kind, or the literally stored name for
    /// unknown messages.
    pub fn command(&self) -> (r: CommandString)
        ensures
            r@ == wire_command(self@),
    {
        match self {
            NetworkMessage::Version(_) => CommandString::from_bytes(
                vec![0x76u8, 0x65, 0x72, 0x73, 0x69, 0x6f, 0x6e],
            ),
            NetworkMessage::Verack => CommandString::from_bytes(
                vec![0x76u8, 0x65, 0x72, 0x61, 0x63, 0x6b],
            ),
            NetworkMessage::Addr(_) => CommandString::from_bytes(
                vec![0x61u8, 0x64, 0x64, 0x72],
            ),
            NetworkMessage::Inv(_) => CommandString::from_bytes(vec![0x69u8, 0x6e, 0x76]),
            NetworkMessage::GetData(_) => CommandString::from_bytes(
                vec![0x67u8, 0x65, 0x74, 0x64, 0x61, 0x74, 0x61],
            ),
            NetworkMessage::NotFound(_) => CommandString::from_bytes(
                vec![0x6eu8, 0x6f, 0x74, 0x66, 0x6f, 0x75, 0x6e, 0x64],
            ),
            NetworkMessage::GetBlocks(_) => CommandString::from_bytes(
                vec![0x67u8, 0x65, 0x74, 0x62, 0x6c, 0x6f, 0x63, 0x6b, 0x73],
            ),
            NetworkMessage::GetHeaders(_) => CommandString::from_bytes(
                vec![0x67u8, 0x65, 0x74, 0x68, 0x65, 0x61, 0x64, 0x65, 0x72, 0x73],
            ),
            NetworkMessage::MemPool => CommandString::from_bytes(
                vec![0x6du8, 0x65, 0x6d, 0x70, 0x6f, 0x6f, 0x6c],
            ),
            NetworkMessage::Tx(_) => CommandString::from_bytes(vec![0x74u8, 0x78]),
            NetworkMessage::Block(_) => CommandString::from_bytes(
                vec![0x62u8, 0x6c, 0x6f, 0x63, 0x6b],
            ),
            NetworkMessage::Headers(_) => CommandString::from_bytes(
                vec![0x68u8, 0x65, 0x61, 0x64, 0x65, 0x72, 0x73],
            ),
            NetworkMessage::SendHeaders => CommandString::from_bytes(
                vec![0x73u8, 0x65, 0x6e, 0x64, 0x68, 0x65, 0x61, 0x64, 0x65, 0x72, 0x73],
            ),
            NetworkMessage::GetAddr => CommandString::from_bytes(
                vec![0x67u8, 0x65, 0x74, 0x61, 0x64, 0x64, 0x72],
            ),
            NetworkMessage::Ping(_) => CommandString::from_bytes(
                vec![0x70u8, 0x69, 0x6e, 0x67],
            ),
            NetworkMessage::Pong(_) => CommandString::from_bytes(
                vec![0x70u8, 0x6f, 0x6e, 0x67],
            ),
            NetworkMessage::MerkleBlock(_) => CommandString::from_bytes(
                vec![0x6du8, 0x65, 0x72, 0x6b, 0x6c, 0x65, 0x62, 0x6c, 0x6f, 0x63, 0x6b],
            ),
            NetworkMessage::FilterLoad(_) => CommandString::from_bytes(
                vec![0x66u8, 0x69, 0x6c, 0x74, 0x65, 0x72, 0x6c, 0x6f, 0x61, 0x64],
            ),
            NetworkMessage::FilterAdd(_) => CommandString::from_bytes(
                vec![0x66u8, 0x69, 0x6c, 0x74, 0x65, 0x72, 0x61, 0x64, 0x64],
            ),
            NetworkMessage::FilterClear => CommandString::from_bytes(
                vec![0x66u8, 0x69, 0x6c, 0x74, 0x65, 0x72, 0x63, 0x6c, 0x65, 0x61, 0x72],
            ),
            NetworkMessage::GetCFilters(_) => CommandString::from_bytes(
                vec![0x67u8, 0x65, 0x74, 0x63, 0x66, 0x69, 0x6c, 0x74, 0x65, 0x72, 0x73],
            ),
            NetworkMessage::CFilter(_) => CommandString::from_bytes(
                vec![0x63u8, 0x66, 0x69, 0x6c, 0x74, 0x65, 0x72],
            ),
            NetworkMessage::GetCFHeaders(_) => CommandString::from_bytes(
                vec![0x67u8, 0x65, 0x74, 0x63, 0x66, 0x68, 0x65, 0x61, 0x64, 0x65, 0x72, 0x73],
            ),
            NetworkMessage::CFHeaders(_) => CommandString::from_bytes(
                vec![0x63u8, 0x66, 0x68, 0x65, 0x61, 0x64, 0x65, 0x72, 0x73],
            ),
            NetworkMessage::GetCFCheckpt(_) => CommandString::from_bytes(
                vec![0x67u8, 0x65, 0x74, 0x63, 0x66, 0x63, 0x68, 0x65, 0x63, 0x6b, 0x70, 0x74],
            ),
            NetworkMessage::CFCheckpt(_) => CommandString::from_bytes(
                vec![0x63u8, 0x66, 0x63, 0x68, 0x65, 0x63, 0x6b, 0x70, 0x74],
            ),
            NetworkMessage::Alert(_) => CommandString::from_bytes(
                vec![0x61u8, 0x6c, 0x65, 0x72, 0x74],
            ),
            NetworkMessage::Reject(_) => CommandString::from_bytes(
                vec![0x72u8, 0x65, 0x6a, 0x65, 0x63, 0x74],
            ),
            NetworkMessage::FeeFilter(_) => CommandString::from_bytes(
                vec![0x66u8, 0x65, 0x65, 0x66, 0x69, 0x6c, 0x74, 0x65, 0x72],
            ),
            NetworkMessage::WtxidRelay => CommandString::from_bytes(
                vec![0x77u8, 0x74, 0x78, 0x69, 0x64, 0x72, 0x65, 0x6c, 0x61, 0x79],
            ),
            NetworkMessage::AddrV2(_) => CommandString::from_bytes(
                vec![0x61u8, 0x64, 0x64, 0x72, 0x76, 0x32],
            ),
            NetworkMessage::SendAddrV2 => CommandString::from_bytes(
                vec![0x73u8, 0x65, 0x6e, 0x64, 0x61, 0x64, 0x64, 0x72, 0x76, 0x32],
            ),
            NetworkMessage::Unknown { command, .. } => {
                proof {
                    use_type_invariant(command);
                }
                CommandString::from_bytes(slice_to_vec(command.as_bytes()))
            },
        }
    }

    /// The variant-specific serialization of this payload: the bytes the
    /// checksummed container wraps.
    pub fn encode_payload(&self) -> (r: Vec<u8>)
        ensures
            r@ == enc_payload(self@),
    {
        match self {
            NetworkMessage::Version(v) => {
                let mut out: Vec<u8> = Vec::new();
                v.consensus_encode(&mut out);
                assert(out@ =~= enc_version(v@));
                out
            },
            NetworkMessage::Verack => Vec::new(),
            NetworkMessage::Addr(b) => slice_to_vec(b.as_slice()),
            NetworkMessage::Inv(b) => slice_to_vec(b.as_slice()),
            NetworkMessage::GetData(b) => slice_to_vec(b.as_slice()),
            NetworkMessage::NotFound(b) => slice_to_vec(b.as_slice()),
            NetworkMessage::GetBlocks(b) => slice_to_vec(b.as_slice()),
            NetworkMessage::GetHeaders(b) => slice_to_vec(b.as_slice()),
            NetworkMessage::MemPool => Vec::new(),
            NetworkMessage::Tx(b) => slice_to_vec(b.as_slice()),
            NetworkMessage::Block(b) => slice_to_vec(b.as_slice()),
            NetworkMessage::Headers(hs) => {
                let mut out: Vec<u8> = Vec::new();
                encode_headers(hs, &mut out);
                assert(out@ =~= enc_headers(headers_view(hs@)));
                out
            },
            NetworkMessage::SendHeaders => Vec::new(),
            NetworkMessage::GetAddr => Vec::new(),
            NetworkMessage::Ping(x) => u64_to_le_bytes(*x),
            NetworkMessage::Pong(x) => u64_to_le_bytes(*x),
            NetworkMessage::MerkleBlock(b) => slice_to_vec(b.as_slice()),
            NetworkMessage::FilterLoad(b) => slice_to_vec(b.as_slice()),
            NetworkMessage::FilterAdd(b) => slice_to_vec(b.as_slice()),
            NetworkMessage::FilterClear => Vec::new(),
            NetworkMessage::GetCFilters(b) => slice_to_vec(b.as_slice()),
            NetworkMessage::CFilter(b) => slice_to_vec(b.as_slice()),
            NetworkMessage::GetCFHeaders(b) => slice_to_vec(b.as_slice()),
            NetworkMessage::CFHeaders(b) => slice_to_vec(b.as_slice()),
            NetworkMessage::GetCFCheckpt(b) => slice_to_vec(b.as_slice()),
            NetworkMessage::CFCheckpt(b) => slice_to_vec(b.as_slice()),
            NetworkMessage::Alert(b) => {
                let mut out: Vec<u8> = Vec::new();
                push_varbytes(&mut out, b.as_slice());
                assert(out@ =~= enc_varbytes(b@));
                out
            },
            NetworkMessage::Reject(r) => {
                let mut out: Vec<u8> = Vec::new();
                r.consensus_encode(&mut out);
                assert(out@ =~= enc_reject(r@));
                out
            },
            NetworkMessage::FeeFilter(x) => {
                let mut out: Vec<u8> = Vec::new();
                push_i64_le(&mut out, *x);
                assert(out@ =~= enc_i64(*x));
                out
            },
            NetworkMessage::WtxidRelay => Vec::new(),
            NetworkMessage::AddrV2(b) => slice_to_vec(b.as_slice()),
            NetworkMessage::SendAddrV2 => Vec::new(),
            NetworkMessage::Unknown { payload, .. } => slice_to_vec(payload.as_slice()),
        }
    }
}

// ---------------------------------------------------------------------------
// Envelope
// ---------------------------------------------------------------------------

/// Spec-level value of an envelope.
pub struct RawV {
    pub magic: u32,
    pub payload: MessageV,
}

/// A network message envelope: network magic plus a payload.
#[derive(Debug, PartialEq, Eq)]
pub struct RawNetworkMessage {
    /// Magic bytes identifying the network these messages are meant for.
    pub magic: u32,
    /// The actual message data.
    pub payload: NetworkMessage,
}

impl View for RawNetworkMessage {
    type V = RawV;

    open spec fn view(&self) -> RawV {
        RawV { magic: self.magic, payload: self.payload@ }
    }
}

/// Wire form of an envelope: magic, 12-byte command, checksummed payload.
pub open spec fn enc_message(v: RawV) -> Seq<u8> {
    spec_u32_to_le_bytes(v.magic) + pad12(wire_command(v.payload)) + enc_checked(
        enc_payload(v.payload),
    )
}

impl RawNetworkMessage {
    /// Returns the message command as a static string reference; see
    /// [`NetworkMessage::cmd`].
    pub fn cmd(&self) -> (r: &'static str)
        ensures
            r@ == cmd_text(self.payload@),
    {
        self.payload.cmd()
    }

    /// Returns the command name under which this message travels; see
    /// [`NetworkMessage::command`].
    pub fn command(&self) -> (r: CommandString)
        ensures
            r@ == wire_command(self.payload@),
    {
        self.payload.command()
    }

    /// Writes the wire form of the whole message.
    ///
    /// The payload serialization must fit the container's 4-byte length
    /// field.
    pub fn consensus_encode(&self, out: &mut Vec<u8>)
        requires
            enc_payload(self.payload@).len() <= 0xFFFF_FFFF,
        ensures
            final(out)@ == old(out)@ + enc_message(self@),
    {
        push_u32_le(out, self.magic);
        let c = self.payload.command();
        c.consensus_encode(out);
        let data = self.payload.encode_payload();
        push_checked(out, data.as_slice());
        assert(final(out)@ =~= old(out)@ + enc_message(self@));
    }
}

// ---------------------------------------------------------------------------
// Decode dispatch
// ---------------------------------------------------------------------------

/// Payload decode: structural decode logic is selected by exact match on
/// the decoded command name; no match yields the unknown-passthrough
/// variant holding the command and the full raw payload.  Bytes remaining
/// after a matched decoder consumed its structure are not an error at
/// this layer.  Inner structural failures propagate unmodified.
pub open spec fn sp_payload(cmd: Seq<u8>, p: Seq<u8>) -> Result<MessageV, DecodeError> {
    if cmd == cmd_version() {
        match sp_version(p, 0) {
            SpecRes::Val(v, _) => Ok(MessageV::Version(v)),
            SpecRes::Fail(e) => Err(e),
        }
    } else if cmd == cmd_verack() {
        Ok(MessageV::Verack)
    } else if cmd == cmd_addr() {
        Ok(MessageV::Addr(p))
    } else if cmd == cmd_inv() {
        Ok(MessageV::Inv(p))
    } else if cmd == cmd_getdata() {
        Ok(MessageV::GetData(p))
    } else if cmd == cmd_notfound() {
        Ok(MessageV::NotFound(p))
    } else if cmd == cmd_getblocks() {
        Ok(MessageV::GetBlocks(p))
    } else if cmd == cmd_getheaders() {
        Ok(MessageV::GetHeaders(p))
    } else if cmd == cmd_mempool() {
        Ok(MessageV::MemPool)
    } else if cmd == cmd_block() {
        Ok(MessageV::Block(p))
    } else if cmd == cmd_headers() {
        match sp_headers(p, 0) {
            SpecRes::Val(v, _) => Ok(MessageV::Headers(v)),
            SpecRes::Fail(e) => Err(e),
        }
    } else if cmd == cmd_sendheaders() {
        Ok(MessageV::SendHeaders)
    } else if cmd == cmd_getaddr() {
        Ok(MessageV::GetAddr)
    } else if cmd == cmd_ping() {
        match sp_u64(p, 0) {
            SpecRes::Val(x, _) => Ok(MessageV::Ping(x)),
            SpecRes::Fail(e) => Err(e),
        }
    } else if cmd == cmd_pong() {
        match sp_u64(p, 0) {
            SpecRes::Val(x, _) => Ok(MessageV::Pong(x)),
            SpecRes::Fail(e) => Err(e),
        }
    } else if cmd == cmd_merkleblock() {
        Ok(MessageV::MerkleBlock(p))
    } else if cmd == cmd_filterload() {
        Ok(MessageV::FilterLoad(p))
    } else if cmd == cmd_filteradd() {
        Ok(MessageV::FilterAdd(p))
    } else if cmd == cmd_filterclear() {
        Ok(MessageV::FilterClear)
    } else if cmd == cmd_tx() {
        Ok(MessageV::Tx(p))
    } else if cmd == cmd_getcfilters() {
        Ok(MessageV::GetCFilters(p))
    } else if cmd == cmd_cfilter() {
        Ok(MessageV::CFilter(p))
    } else if cmd == cmd_getcfheaders() {
        Ok(MessageV::GetCFHeaders(p))
    } else if cmd == cmd_cfheaders() {
        Ok(MessageV::CFHeaders(p))
    } else if cmd == cmd_getcfcheckpt() {
        Ok(MessageV::GetCFCheckpt(p))
    } else if cmd == cmd_cfcheckpt() {
        Ok(MessageV::CFCheckpt(p))
    } else if cmd == cmd_reject() {
        match sp_reject(p, 0) {
            SpecRes::Val(v, _) => Ok(MessageV::Reject(v)),
            SpecRes::Fail(e) => Err(e),
        }
    } else if cmd == cmd_alert() {
        match sp_varbytes(p, 0) {
            SpecRes::Val(b, _) => Ok(MessageV::Alert(b)),
            SpecRes::Fail(e) => Err(e),
        }
    } else if cmd == cmd_feefilter() {
        match sp_i64(p, 0) {
            SpecRes::Val(x, _) => Ok(MessageV::FeeFilter(x)),
            SpecRes::Fail(e) => Err(e),
        }
    } else if cmd == cmd_wtxidrelay() {
        Ok(MessageV::WtxidRelay)
    } else if cmd == cmd_addrv2() {
        Ok(MessageV::AddrV2(p))
    } else if cmd == cmd_sendaddrv2() {
        Ok(MessageV::SendAddrV2)
    } else {
        Ok(MessageV::Unknown { command: cmd, payload: p })
    }
}

/// Reads the header records of a `headers` message after bounding the
/// declared count, failing on any non-zero marker byte.
pub fn decode_headers(buf: &[u8], pos: usize) -> (r: Result<
    (Vec<BlockHeader>, usize),
    DecodeError,
>)
    ensures
        match sp_headers(buf@, pos as int) {
            SpecRes::Val(v, p) => r matches Ok(t) && headers_view(t.0@) == v && t.1 == p,
            SpecRes::Fail(e) => r matches Err(e2) && e2 == e,
        },
{
    let (count, p1) = read_varint(buf, pos)?;
    let byte_size = match count.checked_mul(HEADER_WIRE_LEN as u64) {
        Some(b) => b,
        None => {
            return Err(DecodeError::ParseFailed(ParseReason::InvalidLength));
        },
    };
    if byte_size > MAX_VEC_SIZE as u64 {
        return Err(DecodeError::OversizedAllocation {
            requested: byte_size,
            max: MAX_VEC_SIZE as u64,
        });
    }
    let mut items: Vec<BlockHeader> = Vec::new();
    let mut p: usize = p1;
    let mut i: u64 = 0;
    proof {
        let res0 = sp_headers_items(buf@, p1 as int, count as int);
        match res0 {
            SpecRes::Val(rest, pe) => {
                assert(headers_view(items@) + rest =~= rest);
            },
            SpecRes::Fail(_) => {},
        }
    }
    while i < count
        invariant
            i <= count,
            sp_headers(buf@, pos as int) == sp_headers_items(buf@, p1 as int, count as int),
            match sp_headers_items(buf@, p as int, count - i) {
                SpecRes::Val(rest, pe) => sp_headers_items(buf@, p1 as int, count as int)
                    == SpecRes::<Seq<Seq<u8>>>::Val(headers_view(items@) + rest, pe),
                SpecRes::Fail(e) => sp_headers_items(buf@, p1 as int, count as int)
                    == SpecRes::<Seq<Seq<u8>>>::Fail(e),
            },
        decreases count - i,
    {
        let (hbytes, q1) = match read_bytes(buf, p, HEADER_WIRE_LEN) {
            Ok(t) => t,
            Err(e) => {
                return Err(e);
            },
        };
        let (marker, q2) = match read_u8(buf, q1) {
            Ok(t) => t,
            Err(e) => {
                return Err(e);
            },
        };
        if marker != 0 {
            return Err(DecodeError::ParseFailed(ParseReason::HeadersContainTransactions));
        }
        let hdr = BlockHeader { bytes: hbytes };
        proof {
            let res_next = sp_headers_items(buf@, q2 as int, count - i - 1);
            match res_next {
                SpecRes::Val(rest2, pe) => {
                    assert(headers_view(items@.push(hdr)) + rest2 =~= headers_view(items@) + (
                    seq![hdr@] + rest2));
                },
                SpecRes::Fail(_) => {},
            }
        }
        items.push(hdr);
        p = q2;
        i = i + 1;
    }
    proof {
        assert(headers_view(items@) + Seq::<Seq<u8>>::empty() =~= headers_view(items@));
    }
    Ok((items, p))
}

/// Structural decode of a checksum-validated payload buffer, dispatched
/// on the decoded command name.
pub fn decode_payload(cmd: CommandString, data: Vec<u8>) -> (r: Result<
    NetworkMessage,
    DecodeError,
>)
    ensures
        match sp_payload(cmd@, data@) {
            Ok(v) => r matches Ok(m) && m@ == v,
            Err(e) => r matches Err(e2) && e2 == e,
        },
{
    let lit: &[u8] = &[0x76, 0x65, 0x72, 0x73, 0x69, 0x6f, 0x6e];  // "version"
    proof {
        assert(lit@ =~= cmd_version());
    }
    if bytes_eq(cmd.as_bytes(), lit) {
        return match VersionMessage::consensus_decode(data.as_slice(), 0) {
            Ok((m, _)) => Ok(NetworkMessage::Version(m)),
            Err(e) => Err(e),
        };
    }
    let lit: &[u8] = &[0x76, 0x65, 0x72, 0x61, 0x63, 0x6b];  // "verack"
    proof {
        assert(lit@ =~= cmd_verack());
    }
    if bytes_eq(cmd.as_bytes(), lit) {
        return Ok(NetworkMessage::Verack);
    }
    let lit: &[u8] = &[0x61, 0x64, 0x64, 0x72];  // "addr"
    proof {
        assert(lit@ =~= cmd_addr());
    }
    if bytes_eq(cmd.as_bytes(), lit) {
        return Ok(NetworkMessage::Addr(data));
    }
    let lit: &[u8] = &[0x69, 0x6e, 0x76];  // "inv"
    proof {
        assert(lit@ =~= cmd_inv());
    }
    if bytes_eq(cmd.as_bytes(), lit) {
        return Ok(NetworkMessage::Inv(data));
    }
    let lit: &[u8] = &[0x67, 0x65, 0x74, 0x64, 0x61, 0x74, 0x61];  // "getdata"
    proof {
        assert(lit@ =~= cmd_getdata());
    }
    if bytes_eq(cmd.as_bytes(), lit) {
        return Ok(NetworkMessage::GetData(data));
    }
    let lit: &[u8] = &[0x6e, 0x6f, 0x74, 0x66, 0x6f, 0x75, 0x6e, 0x64];  // "notfound"
    proof {
        assert(lit@ =~= cmd_notfound());
    }
    if bytes_eq(cmd.as_bytes(), lit) {
        return Ok(NetworkMessage::NotFound(data));
    }
    let lit: &[u8] = &[0x67, 0x65, 0x74, 0x62, 0x6c, 0x6f, 0x63, 0x6b, 0x73];  // "getblocks"
    proof {
        assert(lit@ =~= cmd_getblocks());
    }
    if bytes_eq(cmd.as_bytes(), lit) {
        return Ok(NetworkMessage::GetBlocks(data));
    }
    let lit: &[u8] = &[0x67, 0x65, 0x74, 0x68, 0x65, 0x61, 0x64, 0x65, 0x72, 0x73];  // "getheaders"
    proof {
        assert(lit@ =~= cmd_getheaders());
    }
    if bytes_eq(cmd.as_bytes(), lit) {
        return Ok(NetworkMessage::GetHeaders(data));
    }
    let lit: &[u8] = &[0x6d, 0x65, 0x6d, 0x70, 0x6f, 0x6f, 0x6c];  // "mempool"
    proof {
        assert(lit@ =~= cmd_mempool());
    }
    if bytes_eq(cmd.as_bytes(), lit) {
        return Ok(NetworkMessage::MemPool);
    }
    let lit: &[u8] = &[0x62, 0x6c, 0x6f, 0x63, 0x6b];  // "block"
    proof {
        assert(lit@ =~= cmd_block());
    }
    if bytes_eq(cmd.as_bytes(), lit) {
        return Ok(NetworkMessage::Block(data));
    }
    let lit: &[u8] = &[0x68, 0x65, 0x61, 0x64, 0x65, 0x72, 0x73];  // "headers"
    proof {
        assert(lit@ =~= cmd_headers());
    }
    if bytes_eq(cmd.as_bytes(), lit) {
        return match decode_headers(data.as_slice(), 0) {
            Ok((hs, _)) => Ok(NetworkMessage::Headers(hs)),
            Err(e) => Err(e),
        };
    }
    let lit: &[u8] = &[0x73, 0x65, 0x6e, 0x64, 0x68, 0x65, 0x61, 0x64, 0x65, 0x72, 0x73];  // "sendheaders"
    proof {
        assert(lit@ =~= cmd_sendheaders());
    }
    if bytes_eq(cmd.as_bytes(), lit) {
        return Ok(NetworkMessage::SendHeaders);
    }
    let lit: &[u8] = &[0x67, 0x65, 0x74, 0x61, 0x64, 0x64, 0x72];  // "getaddr"
    proof {
        assert(lit@ =~= cmd_getaddr());
    }
    if bytes_eq(cmd.as_bytes(), lit) {
        return Ok(NetworkMessage::GetAddr);
    }
    let lit: &[u8] = &[0x70, 0x69, 0x6e, 0x67];  // "ping"
    proof {
        assert(lit@ =~= cmd_ping());
    }
    if bytes_eq(cmd.as_bytes(), lit) {
        return match read_u64(data.as_slice(), 0) {
            Ok((x, _)) => Ok(NetworkMessage::Ping(x)),
            Err(e) => Err(e),
        };
    }
    let lit: &[u8] = &[0x70, 0x6f, 0x6e, 0x67];  // "pong"
    proof {
        assert(lit@ =~= cmd_pong());
    }
    if bytes_eq(cmd.as_bytes(), lit) {
        return match read_u64(data.as_slice(), 0) {
            Ok((x, _)) => Ok(NetworkMessage::Pong(x)),
            Err(e) => Err(e),
        };
    }
    let lit: &[u8] = &[0x6d, 0x65, 0x72, 0x6b, 0x6c, 0x65, 0x62, 0x6c, 0x6f, 0x63, 0x6b];  // "merkleblock"
    proof {
        assert(lit@ =~= cmd_merkleblock());
    }
    if bytes_eq(cmd.as_bytes(), lit) {
        return Ok(NetworkMessage::MerkleBlock(data));
    }
    let lit: &[u8] = &[0x66, 0x69, 0x6c, 0x74, 0x65, 0x72, 0x6c, 0x6f, 0x61, 0x64];  // "filterload"
    proof {
        assert(lit@ =~= cmd_filterload());
    }
    if bytes_eq(cmd.as_bytes(), lit) {
        return Ok(NetworkMessage::FilterLoad(data));
    }
    let lit: &[u8] = &[0x66, 0x69, 0x6c, 0x74, 0x65, 0x72, 0x61, 0x64, 0x64];  // "filteradd"
    proof {
        assert(lit@ =~= cmd_filteradd());
    }
    if bytes_eq(cmd.as_bytes(), lit) {
        return Ok(NetworkMessage::FilterAdd(data));
    }
    let lit: &[u8] = &[0x66, 0x69, 0x6c, 0x74, 0x65, 0x72, 0x63, 0x6c, 0x65, 0x61, 0x72];  // "filterclear"
    proof {
        assert(lit@ =~= cmd_filterclear());
    }
    if bytes_eq(cmd.as_bytes(), lit) {
        return Ok(NetworkMessage::FilterClear);
    }
    let lit: &[u8] = &[0x74, 0x78];  // "tx"
    proof {
        assert(lit@ =~= cmd_tx());
    }
    if bytes_eq(cmd.as_bytes(), lit) {
        return Ok(NetworkMessage::Tx(data));
    }
    let lit: &[u8] = &[0x67, 0x65, 0x74, 0x63, 0x66, 0x69, 0x6c, 0x74, 0x65, 0x72, 0x73];  // "getcfilters"
    proof {
        assert(lit@ =~= cmd_getcfilters());
    }
    if bytes_eq(cmd.as_bytes(), lit) {
        return Ok(NetworkMessage::GetCFilters(data));
    }
    let lit: &[u8] = &[0x63, 0x66, 0x69, 0x6c, 0x74, 0x65, 0x72];  // "cfilter"
    proof {
        assert(lit@ =~= cmd_cfilter());
    }
    if bytes_eq(cmd.as_bytes(), lit) {
        return Ok(NetworkMessage::CFilter(data));
    }
    let lit: &[u8] = &[0x67, 0x65, 0x74, 0x63, 0x66, 0x68, 0x65, 0x61, 0x64, 0x65, 0x72, 0x73];  // "getcfheaders"
    proof {
        assert(lit@ =~= cmd_getcfheaders());
    }
    if bytes_eq(cmd.as_bytes(), lit) {
        return Ok(NetworkMessage::GetCFHeaders(data));
    }
    let lit: &[u8] = &[0x63, 0x66, 0x68, 0x65, 0x61, 0x64, 0x65, 0x72, 0x73];  // "cfheaders"
    proof {
        assert(lit@ =~= cmd_cfheaders());
    }
    if bytes_eq(cmd.as_bytes(), lit) {
        return Ok(NetworkMessage::CFHeaders(data));
    }
    let lit: &[u8] = &[0x67, 0x65, 0x74, 0x63, 0x66, 0x63, 0x68, 0x65, 0x63, 0x6b, 0x70, 0x74];  // "getcfcheckpt"
    proof {
        assert(lit@ =~= cmd_getcfcheckpt());
    }
    if bytes_eq(cmd.as_bytes(), lit) {
        return Ok(NetworkMessage::GetCFCheckpt(data));
    }
    let lit: &[u8] = &[0x63, 0x66, 0x63, 0x68, 0x65, 0x63, 0x6b, 0x70, 0x74];  // "cfcheckpt"
    proof {
        assert(lit@ =~= cmd_cfcheckpt());
    }
    if bytes_eq(cmd.as_bytes(), lit) {
        return Ok(NetworkMessage::CFCheckpt(data));
    }
    let lit: &[u8] = &[0x72, 0x65, 0x6a, 0x65, 0x63, 0x74];  // "reject"
    proof {
        assert(lit@ =~= cmd_reject());
    }
    if bytes_eq(cmd.as_bytes(), lit) {
        return match Reject::consensus_decode(data.as_slice(), 0) {
            Ok((m, _)) => Ok(NetworkMessage::Reject(m)),
            Err(e) => Err(e),
        };
    }
    let lit: &[u8] = &[0x61, 0x6c, 0x65, 0x72, 0x74];  // "alert"
    proof {
        assert(lit@ =~= cmd_alert());
    }
    if bytes_eq(cmd.as_bytes(), lit) {
        return match read_varbytes(data.as_slice(), 0) {
            Ok((b, _)) => Ok(NetworkMessage::Alert(b)),
            Err(e) => Err(e),
        };
    }
    let lit: &[u8] = &[0x66, 0x65, 0x65, 0x66, 0x69, 0x6c, 0x74, 0x65, 0x72];  // "feefilter"
    proof {
        assert(lit@ =~= cmd_feefilter());
    }
    if bytes_eq(cmd.as_bytes(), lit) {
        return match read_i64(data.as_slice(), 0) {
            Ok((x, _)) => Ok(NetworkMessage::FeeFilter(x)),
            Err(e) => Err(e),
        };
    }
    let lit: &[u8] = &[0x77, 0x74, 0x78, 0x69, 0x64, 0x72, 0x65, 0x6c, 0x61, 0x79];  // "wtxidrelay"
    proof {
        assert(lit@ =~= cmd_wtxidrelay());
    }
    if bytes_eq(cmd.as_bytes(), lit) {
        return Ok(NetworkMessage::WtxidRelay);
    }
    let lit: &[u8] = &[0x61, 0x64, 0x64, 0x72, 0x76, 0x32];  // "addrv2"
    proof {
        assert(lit@ =~= cmd_addrv2());
    }
    if bytes_eq(cmd.as_bytes(), lit) {
        return Ok(NetworkMessage::AddrV2(data));
    }
    let lit: &[u8] = &[0x73, 0x65, 0x6e, 0x64, 0x61, 0x64, 0x64, 0x72, 0x76, 0x32];  // "sendaddrv2"
    proof {
        assert(lit@ =~= cmd_sendaddrv2());
    }
    if bytes_eq(cmd.as_bytes(), lit) {
        return Ok(NetworkMessage::SendAddrV2);
    }
    Ok(NetworkMessage::Unknown { command: cmd, payload: data })
}

/// Envelope decode from the start of `s`: magic, command, checksummed
/// payload, then per-kind dispatch on the isolated payload bytes.
pub open spec fn sp_message(s: Seq<u8>) -> SpecRes<RawV> {
    match sp_u32(s, 0) {
        SpecRes::Fail(e) => SpecRes::Fail(e),
        SpecRes::Val(magic, p1) => match sp_command(s, p1) {
            SpecRes::Fail(e) => SpecRes::Fail(e),
            SpecRes::Val(cmd, p2) => match sp_checked(s, p2) {
                SpecRes::Fail(e) => SpecRes::Fail(e),
                SpecRes::Val(data, p3) => match sp_payload(cmd, data) {
                    Ok(m) => SpecRes::Val(RawV { magic, payload: m }, p3),
                    Err(e) => SpecRes::Fail(e),
                },
            },
        },
    }
}

impl RawNetworkMessage {
    /// Reads one complete message from the front of `buf` and reports how
    /// many bytes it consumed; trailing bytes are left untouched, so a
    /// buffer holding a message followed by unrelated data decodes
    /// successfully (partial decode).
    ///
    /// The declared payload length is bounded and the payload checksum
    /// verified before the payload bytes reach any structural decoder.
    pub fn consensus_decode(buf: &[u8]) -> (r: Result<(RawNetworkMessage, usize), DecodeError>)
        ensures
            match sp_message(buf@) {
                SpecRes::Val(v, n) => r matches Ok(t) && t.0@ == v && t.1 == n,
                SpecRes::Fail(e) => r matches Err(e2) && e2 == e,
            },
    {
        let (magic, p1) = read_u32(buf, 0)?;
        let (cmd, p2) = CommandString::consensus_decode(buf, p1)?;
        let (data, p3) = read_checked(buf, p2)?;
        let payload = decode_payload(cmd, data)?;
        Ok((RawNetworkMessage { magic, payload }, p3))
    }
}

// ---------------------------------------------------------------------------
// Laws
// ---------------------------------------------------------------------------

/// A payload value survives the encode/decode round trip.  This excludes
/// unknown messages whose stored command collides with a known name or
/// holds a zero byte (the wire format cannot represent those losslessly:
/// dispatch would reclassify the first, the command filter would drop
/// bytes of the second), and `reject` values whose rejected-command field
/// holds a zero byte, for the same reason.
pub open spec fn round_trippable(m: MessageV) -> bool {
    &&& wf_message(m)
    &&& enc_payload(m).len() <= MAX_VEC_SIZE as int
    &&& match m {
        MessageV::Unknown { command, .. } => !is_known_command(command) && (forall|i: int|
            0 <= i < command.len() ==> command[i] != 0),
        MessageV::Reject(r) => forall|i: int| 0 <= i < r.message.len() ==> r.message[i] != 0,
        _ => true,
    }
}

/// The known command names are pairwise distinct: their lengths, and
/// one differing byte for every pair of equal length.
pub proof fn lemma_cmd_names_distinct()
    ensures
        cmd_version().len() == 7,
        cmd_verack().len() == 6,
        cmd_addr().len() == 4,
        cmd_inv().len() == 3,
        cmd_getdata().len() == 7,
        cmd_notfound().len() == 8,
        cmd_getblocks().len() == 9,
        cmd_getheaders().len() == 10,
        cmd_mempool().len() == 7,
        cmd_block().len() == 5,
        cmd_headers().len() == 7,
        cmd_sendheaders().len() == 11,
        cmd_getaddr().len() == 7,
        cmd_ping().len() == 4,
        cmd_pong().len() == 4,
        cmd_merkleblock().len() == 11,
        cmd_filterload().len() == 10,
        cmd_filteradd().len() == 9,
        cmd_filterclear().len() == 11,
        cmd_tx().len() == 2,
        cmd_getcfilters().len() == 11,
        cmd_cfilter().len() == 7,
        cmd_getcfheaders().len() == 12,
        cmd_cfheaders().len() == 9,
        cmd_getcfcheckpt().len() == 12,
        cmd_cfcheckpt().len() == 9,
        cmd_reject().len() == 6,
        cmd_alert().len() == 5,
        cmd_feefilter().len() == 9,
        cmd_wtxidrelay().len() == 10,
        cmd_addrv2().len() == 6,
        cmd_sendaddrv2().len() == 10,
        cmd_version()[0] != cmd_getdata()[0],
        cmd_version()[0] != cmd_mempool()[0],
        cmd_version()[0] != cmd_headers()[0],
        cmd_version()[0] != cmd_getaddr()[0],
        cmd_version()[0] != cmd_cfilter()[0],
        cmd_verack()[0] != cmd_reject()[0],
        cmd_verack()[0] != cmd_addrv2()[0],
        cmd_addr()[0] != cmd_ping()[0],
        cmd_addr()[0] != cmd_pong()[0],
        cmd_getdata()[0] != cmd_mempool()[0],
        cmd_getdata()[0] != cmd_headers()[0],
        cmd_getdata()[3] != cmd_getaddr()[3],
        cmd_getdata()[0] != cmd_cfilter()[0],
        cmd_getblocks()[0] != cmd_filteradd()[0],
        cmd_getblocks()[0] != cmd_cfheaders()[0],
        cmd_getblocks()[0] != cmd_cfcheckpt()[0],
        cmd_getblocks()[0] != cmd_feefilter()[0],
        cmd_getheaders()[0] != cmd_filterload()[0],
        cmd_getheaders()[0] != cmd_wtxidrelay()[0],
        cmd_getheaders()[0] != cmd_sendaddrv2()[0],
        cmd_mempool()[0] != cmd_headers()[0],
        cmd_mempool()[0] != cmd_getaddr()[0],
        cmd_mempool()[0] != cmd_cfilter()[0],
        cmd_block()[0] != cmd_alert()[0],
        cmd_headers()[0] != cmd_getaddr()[0],
        cmd_headers()[0] != cmd_cfilter()[0],
        cmd_sendheaders()[0] != cmd_merkleblock()[0],
        cmd_sendheaders()[0] != cmd_filterclear()[0],
        cmd_sendheaders()[0] != cmd_getcfilters()[0],
        cmd_getaddr()[0] != cmd_cfilter()[0],
        cmd_ping()[1] != cmd_pong()[1],
        cmd_merkleblock()[0] != cmd_filterclear()[0],
        cmd_merkleblock()[0] != cmd_getcfilters()[0],
        cmd_filterload()[0] != cmd_wtxidrelay()[0],
        cmd_filterload()[0] != cmd_sendaddrv2()[0],
        cmd_filteradd()[0] != cmd_cfheaders()[0],
        cmd_filteradd()[0] != cmd_cfcheckpt()[0],
        cmd_filteradd()[1] != cmd_feefilter()[1],
        cmd_filterclear()[0] != cmd_getcfilters()[0],
        cmd_getcfheaders()[5] != cmd_getcfcheckpt()[5],
        cmd_cfheaders()[2] != cmd_cfcheckpt()[2],
        cmd_cfheaders()[0] != cmd_feefilter()[0],
        cmd_cfcheckpt()[0] != cmd_feefilter()[0],
        cmd_reject()[0] != cmd_addrv2()[0],
        cmd_wtxidrelay()[0] != cmd_sendaddrv2()[0],
{
}

/// The command name a payload travels under is at most 12 bytes and free
/// of zero bytes, so it survives the 12-byte padding and the decode-side
/// filter.
pub proof fn lemma_wire_command_ok(m: MessageV)
    requires
        m matches MessageV::Unknown { command, .. } ==> command.len() <= 12 && (forall|i: int|
            0 <= i < command.len() ==> command[i] != 0),
    ensures
        wire_command(m).len() <= 12,
        forall|i: int| 0 <= i < wire_command(m).len() ==> wire_command(m)[i] != 0,
{
    let c = wire_command(m);
    match m {
        MessageV::Unknown { .. } => {},
        _ => {
            assert(forall|i: int| 0 <= i < c.len() ==> c[i] != 0);
        },
    }
}

pub proof fn lemma_enc_headers_items_len(hs: Seq<Seq<u8>>)
    requires
        forall|i: int| 0 <= i < hs.len() ==> (#[trigger] hs[i]).len() == HEADER_WIRE_LEN as int,
    ensures
        enc_headers_items(hs).len() == (HEADER_WIRE_LEN + 1) * hs.len(),
    decreases hs.len(),
{
    if hs.len() == 0 {
    } else {
        assert(forall|i: int|
            0 <= i < hs.drop_first().len() ==> (#[trigger] hs.drop_first()[i]).len()
                == HEADER_WIRE_LEN as int);
        lemma_enc_headers_items_len(hs.drop_first());
    }
}

pub proof fn lemma_headers_items_rt(s: Seq<u8>, pos: int, hs: Seq<Seq<u8>>)
    requires
        0 <= pos,
        forall|i: int| 0 <= i < hs.len() ==> (#[trigger] hs[i]).len() == HEADER_WIRE_LEN as int,
        pos + enc_headers_items(hs).len() <= s.len(),
        s.subrange(pos, pos + enc_headers_items(hs).len()) == enc_headers_items(hs),
    ensures
        sp_headers_items(s, pos, hs.len() as int) == SpecRes::<Seq<Seq<u8>>>::Val(
            hs,
            pos + enc_headers_items(hs).len(),
        ),
    decreases hs.len(),
{
    if hs.len() == 0 {
        assert(hs =~= Seq::<Seq<u8>>::empty());
    } else {
        let h = hs[0];
        let rest = hs.drop_first();
        assert(forall|i: int|
            0 <= i < rest.len() ==> (#[trigger] rest[i]).len() == HEADER_WIRE_LEN as int);
        assert(enc_headers_items(hs) =~= h + (seq![0u8] + enc_headers_items(rest)));
        lemma_split(s, pos, h, seq![0u8] + enc_headers_items(rest));
        lemma_split(s, pos + h.len() as int, seq![0u8], enc_headers_items(rest));
        let p1 = pos + HEADER_WIRE_LEN as int;
        assert(s.subrange(pos, p1) == h);
        assert(s[p1] == seq![0u8][0]);
        lemma_headers_items_rt(s, p1 + 1, rest);
        assert(seq![h] + rest =~= hs);
    }
}

pub proof fn lemma_headers_rt(p: Seq<u8>, hs: Seq<Seq<u8>>)
    requires
        forall|i: int| 0 <= i < hs.len() ==> (#[trigger] hs[i]).len() == HEADER_WIRE_LEN as int,
        enc_headers(hs).len() <= MAX_VEC_SIZE as int,
        p == enc_headers(hs),
    ensures
        sp_headers(p, 0) == SpecRes::<Seq<Seq<u8>>>::Val(hs, p.len() as int),
{
    lemma_enc_headers_items_len(hs);
    let count = hs.len() as u64;
    assert(enc_varint(count).len() >= 1);
    assert(hs.len() < MAX_VEC_SIZE as int);
    assert(count as int == hs.len());
    assert(p.subrange(0, p.len() as int) =~= p);
    assert(p =~= enc_varint(count) + enc_headers_items(hs));
    lemma_split(p, 0, enc_varint(count), enc_headers_items(hs));
    lemma_varint_rt(p, 0, count);
    assert(count as int * HEADER_WIRE_LEN as int <= MAX_VEC_SIZE as int);
    lemma_headers_items_rt(p, enc_varint(count).len() as int, hs);
}

/// Decoding the variant-specific serialization of a round-trippable
/// payload under its own command name yields the payload back.
#[verifier::rlimit(100)]
pub proof fn lemma_payload_rt(m: MessageV)
    requires
        round_trippable(m),
    ensures
        sp_payload(wire_command(m), enc_payload(m)) == Ok::<MessageV, DecodeError>(m),
{
    lemma_cmd_names_distinct();
    let p = enc_payload(m);
    assert(p.subrange(0, p.len() as int) =~= p);
    match m {
        MessageV::Version(v) => {
            assert(p == enc_version(v));
            lemma_version_rt(p, 0, v);
            assert(sp_version(p, 0) == SpecRes::<VersionV>::Val(v, p.len() as int));
            assert(m == MessageV::Version(v));
            assert(sp_payload(wire_command(m), p) == Ok::<MessageV, DecodeError>(m));
        },
        MessageV::Headers(hs) => {
            lemma_headers_rt(p, hs);
        },
        MessageV::Ping(x) => {
            lemma_auto_spec_u64_to_from_le_bytes();
            lemma_u64_rt(p, 0, x);
        },
        MessageV::Pong(x) => {
            lemma_auto_spec_u64_to_from_le_bytes();
            lemma_u64_rt(p, 0, x);
        },
        MessageV::FeeFilter(x) => {
            lemma_auto_spec_u64_to_from_le_bytes();
            lemma_i64_rt(p, 0, x);
        },
        MessageV::Alert(b) => {
            assert(enc_varint(b.len() as u64).len() >= 1);
            lemma_varbytes_rt(p, 0, b);
        },
        MessageV::Reject(r) => {
            lemma_reject_rt(p, 0, r);
        },
        _ => {},
    }
}

/// Round trip of a whole message: decoding the encoding of an envelope
/// yields an equal envelope and reports exactly the encoding's length as
/// consumed.
pub proof fn lemma_round_trip(v: RawV)
    requires
        round_trippable(v.payload),
    ensures
        sp_message(enc_message(v)) == SpecRes::<RawV>::Val(v, enc_message(v).len() as int),
{
    let s = enc_message(v);
    let name = wire_command(v.payload);
    let data = enc_payload(v.payload);
    let e1 = spec_u32_to_le_bytes(v.magic);
    let e2 = pad12(name);
    let e3 = enc_checked(data);
    lemma_auto_spec_u32_to_from_le_bytes();
    lemma_wire_command_ok(v.payload);
    assert(e2.len() == 12);
    assert(s =~= e1 + (e2 + e3));
    assert(s.subrange(0, s.len() as int) =~= s);
    lemma_split(s, 0, e1, e2 + e3);
    lemma_split(s, 4, e2, e3);
    lemma_u32_rt(s, 0, v.magic);
    lemma_command_rt(s, 4, name);
    lemma_checked_rt(s, 16, data);
    lemma_payload_rt(v.payload);
    assert(v == RawV { magic: v.magic, payload: v.payload });
}

/// Checksum enforcement: the container hands bytes onward only when the
/// recomputed checksum equals the stored one; any stored checksum other
/// than the recomputed one fails with exactly a checksum-mismatch error
/// carrying both values.
pub proof fn lemma_checksum_enforced(s: Seq<u8>, pos: int)
    ensures
        crate::encode::sp_checked(s, pos) matches SpecRes::Val(data, p) ==> checksum4(data)
            == s.subrange(pos + 4, pos + 8),
        (match crate::encode::sp_u32(s, pos) {
            SpecRes::Val(len, p1) => len as int <= MAX_VEC_SIZE as int && pos + 8 + len
                <= s.len() && checksum4(s.subrange(pos + 8, pos + 8 + len)) != s.subrange(
                pos + 4,
                pos + 8,
            ),
            SpecRes::Fail(_) => false,
        }) ==> (crate::encode::sp_checked(s, pos) matches SpecRes::Fail(e)
            && e matches DecodeError::ChecksumMismatch { .. }),
{
}

/// A `headers` payload whose first record is followed by a non-zero
/// marker byte fails decode with the structural-parse error, whatever
/// else the buffer holds.
pub proof fn lemma_headers_nonzero_marker_fails(h: Seq<u8>, b: u8, count: u64, rest: Seq<u8>)
    requires
        h.len() == HEADER_WIRE_LEN as int,
        b != 0,
        count >= 1,
        count as int * HEADER_WIRE_LEN as int <= MAX_VEC_SIZE as int,
    ensures
        sp_headers(enc_varint(count) + h + seq![b] + rest, 0) == SpecRes::<Seq<Seq<u8>>>::Fail(
            DecodeError::ParseFailed(ParseReason::HeadersContainTransactions),
        ),
{
    let s = enc_varint(count) + h + seq![b] + rest;
    assert(s =~= enc_varint(count) + (h + (seq![b] + rest)));
    assert(s.subrange(0, s.len() as int) =~= s);
    lemma_split(s, 0, enc_varint(count), h + (seq![b] + rest));
    lemma_varint_rt(s, 0, count);
    let p1 = enc_varint(count).len() as int;
    lemma_split(s, p1, h, seq![b] + rest);
    lemma_split(s, p1 + h.len() as int, seq![b], rest);
    assert(s.subrange(p1, p1 + HEADER_WIRE_LEN as int) == h);
    assert(s[p1 + HEADER_WIRE_LEN as int] == seq![b][0]);
}

/// Position of the marker byte that follows header record `i` inside the
/// record area of an encoded `headers` message.
pub open spec fn marker_pos(i: int) -> int {
    i * (HEADER_WIRE_LEN + 1) + HEADER_WIRE_LEN
}

/// Encoding `N` headers emits exactly `N` marker bytes, one zero byte
/// after each 80-byte record.
pub proof fn lemma_headers_shape(hs: Seq<Seq<u8>>)
    requires
        forall|i: int| 0 <= i < hs.len() ==> (#[trigger] hs[i]).len() == HEADER_WIRE_LEN as int,
    ensures
        enc_headers_items(hs).len() == (HEADER_WIRE_LEN + 1) * hs.len(),
        forall|i: int|
            0 <= i < hs.len() ==> enc_headers_items(hs)[#[trigger] marker_pos(i)] == 0,
    decreases hs.len(),
{
    lemma_enc_headers_items_len(hs);
    if hs.len() == 0 {
    } else {
        let h = hs[0];
        let rest = hs.drop_first();
        assert(forall|i: int|
            0 <= i < rest.len() ==> (#[trigger] rest[i]).len() == HEADER_WIRE_LEN as int);
        lemma_headers_shape(rest);
        lemma_enc_headers_items_len(rest);
        let e = enc_headers_items(hs);
        assert(e =~= h + seq![0u8] + enc_headers_items(rest));
        assert forall|i: int| 0 <= i < hs.len() implies e[#[trigger] marker_pos(i)] == 0 by {
            if i == 0 {
                assert(e[marker_pos(0)] == (h + seq![0u8])[HEADER_WIRE_LEN as int]);
            } else {
                let j = i - 1;
                assert(enc_headers_items(rest)[marker_pos(j)] == 0);
                assert(marker_pos(i) == marker_pos(j) + (HEADER_WIRE_LEN + 1) as int);
                assert(enc_headers_items(rest).len() == (HEADER_WIRE_LEN + 1) * rest.len());
                assert(0 <= marker_pos(j) < (HEADER_WIRE_LEN + 1) * rest.len());
                assert(e[marker_pos(i)] == enc_headers_items(rest)[marker_pos(j)]);
            }
        }
    }
}

/// Partial decode: a successful decode consumes a prefix of the buffer
/// and is unaffected by whatever follows it, and it reports exactly that
/// prefix's length.
pub proof fn lemma_decode_prefix(s: Seq<u8>, t: Seq<u8>)
    requires
        sp_message(s) matches SpecRes::Val(v, n),
    ensures
        sp_message(s + t) == sp_message(s),
        sp_message(s) matches SpecRes::Val(v, n) ==> 0 <= n <= s.len(),
{
    let st = s + t;
    match crate::encode::sp_u32(s, 0) {
        SpecRes::Val(magic, p1) => {
            assert(st.subrange(0, 4) =~= s.subrange(0, 4));
            match sp_command(s, p1) {
                SpecRes::Val(cmd, p2) => {
                    assert(st.subrange(p1, p1 + 12) =~= s.subrange(p1, p1 + 12));
                    match crate::encode::sp_u32(s, p2) {
                        SpecRes::Val(len, q1) => {
                            assert(st.subrange(p2, p2 + 4) =~= s.subrange(p2, p2 + 4));
                            if !(len as u64 > MAX_VEC_SIZE as u64) {
                                match sp_bytes(s, q1, 4) {
                                    SpecRes::Val(ck, q2) => {
                                        assert(st.subrange(q1, q1 + 4) =~= s.subrange(
                                            q1,
                                            q1 + 4,
                                        ));
                                        match sp_bytes(s, q2, len as int) {
                                            SpecRes::Val(data, q3) => {
                                                assert(st.subrange(q2, q2 + len as int)
                                                    =~= s.subrange(q2, q2 + len as int));
                                            },
                                            SpecRes::Fail(_) => {},
                                        }
                                    },
                                    SpecRes::Fail(_) => {},
                                }
                            }
                        },
                        SpecRes::Fail(_) => {},
                    }
                },
                SpecRes::Fail(_) => {},
            }
        },
        SpecRes::Fail(_) => {},
    }
}



} // verus!
