//! Auxiliary record messages describing peers: the `version` handshake
//! message and the `reject` message with its coded reason.
//!
//! Network addresses are carried as their fixed 26-byte wire form
//! (services, IP segments, port); this layer never interprets them.

use vstd::prelude::*;
use vstd::bytes::spec_u32_to_le_bytes;
use vstd::bytes::spec_u64_to_le_bytes;
use vstd::bytes::lemma_auto_spec_u32_to_from_le_bytes;
use vstd::bytes::lemma_auto_spec_u64_to_from_le_bytes;
use crate::encode::DecodeError;
use crate::encode::ParseReason;
use crate::encode::SpecRes;
use crate::encode::MAX_VEC_SIZE;
use crate::encode::enc_bool;
use crate::encode::enc_i32;
use crate::encode::enc_i64;
use crate::encode::enc_varbytes;
use crate::encode::sp_bool;
use crate::encode::sp_bytes;
use crate::encode::sp_i32;
use crate::encode::sp_i64;
use crate::encode::sp_u32;
use crate::encode::sp_u64;
use crate::encode::sp_u8;
use crate::encode::sp_varbytes;
use crate::encode::read_bool;
use crate::encode::read_bytes;
use crate::encode::read_i32;
use crate::encode::read_i64;
use crate::encode::read_u32;
use crate::encode::read_u64;
use crate::encode::read_u8;
use crate::encode::read_varbytes;
use crate::encode::push_bool;
use crate::encode::push_bytes;
use crate::encode::push_i32_le;
use crate::encode::push_i64_le;
use crate::encode::push_u32_le;
use crate::encode::push_u64_le;
use crate::encode::push_varbytes;
use crate::encode::lemma_split;
use crate::encode::lemma_u32_rt;
use crate::encode::lemma_u64_rt;
use crate::encode::lemma_i32_rt;
use crate::encode::lemma_i64_rt;
use crate::encode::lemma_bool_rt;
use crate::encode::lemma_bytes_rt;
use crate::encode::lemma_varbytes_rt;
use crate::message::CommandString;
use crate::message::pad12;
use crate::message::sp_command;
use crate::message::lemma_command_rt;

verus! {

/// Protocol version advertised by newly constructed `version` messages.
pub const PROTOCOL_VERSION: u32 = 70001;

/// Number of bytes in the wire form of a network address (8-byte service
/// mask, 16 address bytes, 2-byte port).
pub const ADDRESS_WIRE_LEN: usize = 26;

// ---------------------------------------------------------------------------
// Address: opaque 26-byte wire form
// ---------------------------------------------------------------------------

/// A peer address in its fixed-width wire form, kept opaque: this codec
/// moves the 26 bytes but never interprets them.
#[derive(Debug, PartialEq, Eq)]
pub struct Address {
    bytes: Vec<u8>,
}

#[verifier::type_invariant]
pub closed spec fn address_inv(a: Address) -> bool {
    a.bytes@.len() == ADDRESS_WIRE_LEN as int
}

impl View for Address {
    type V = Seq<u8>;

    closed spec fn view(&self) -> Seq<u8> {
        self.bytes@
    }
}

impl Address {
    /// Wraps the 26-byte wire form of an address; `None` for any other
    /// length.
    pub fn from_wire_bytes(bytes: Vec<u8>) -> (r: Option<Address>)
        ensures
            match r {
                Some(a) => bytes@.len() == ADDRESS_WIRE_LEN as int && a@ == bytes@,
                None => bytes@.len() != ADDRESS_WIRE_LEN as int,
            },
    {
        if bytes.len() == ADDRESS_WIRE_LEN {
            Some(Address { bytes })
        } else {
            None
        }
    }

    /// The 26-byte wire form.
    pub fn as_bytes(&self) -> (r: &[u8])
        ensures
            r@ == self@,
    {
        self.bytes.as_slice()
    }

    /// Writes the address verbatim.
    pub fn consensus_encode(&self, out: &mut Vec<u8>)
        ensures
            final(out)@ == old(out)@ + self@,
    {
        push_bytes(out, self.bytes.as_slice());
    }

    /// Reads exactly 26 bytes.
    pub fn consensus_decode(buf: &[u8], pos: usize) -> (r: Result<(Address, usize), DecodeError>)
        ensures
            match sp_bytes(buf@, pos as int, ADDRESS_WIRE_LEN as int) {
                SpecRes::Val(v, p) => r matches Ok(t) && t.0@ == v && t.1 == p,
                SpecRes::Fail(e) => r matches Err(e2) && e2 == e,
            },
    {
        let (bytes, p) = read_bytes(buf, pos, ADDRESS_WIRE_LEN)?;
        Ok((Address { bytes }, p))
    }
}

// ---------------------------------------------------------------------------
// Version message
// ---------------------------------------------------------------------------

/// Spec-level value of a `version` message.
pub struct VersionV {
    pub version: u32,
    pub services: u64,
    pub timestamp: i64,
    pub receiver: Seq<u8>,
    pub sender: Seq<u8>,
    pub nonce: u64,
    pub user_agent: Seq<u8>,
    pub start_height: i32,
    pub relay: bool,
}

/// The `version` message opening a connection handshake.
#[derive(Debug, PartialEq, Eq)]
pub struct VersionMessage {
    /// The P2P network protocol version.
    pub version: u32,
    /// A bitmask describing the services supported by this node.
    pub services: u64,
    /// The time at which the `version` message was sent.
    pub timestamp: i64,
    /// The network address of the peer receiving the message.
    pub receiver: Address,
    /// The network address of the peer sending the message.
    pub sender: Address,
    /// A random nonce used to detect loops in the network.
    pub nonce: u64,
    /// The bytes of a string describing the peer's software.
    pub user_agent: Vec<u8>,
    /// The height of the maximum-work blockchain the peer is aware of.
    pub start_height: i32,
    /// Whether the receiving peer should relay messages to the sender.
    pub relay: bool,
}

impl View for VersionMessage {
    type V = VersionV;

    open spec fn view(&self) -> VersionV {
        VersionV {
            version: self.version,
            services: self.services,
            timestamp: self.timestamp,
            receiver: self.receiver@,
            sender: self.sender@,
            nonce: self.nonce,
            user_agent: self.user_agent@,
            start_height: self.start_height,
            relay: self.relay,
        }
    }
}

/// Structural validity of a `version` message value.
pub open spec fn wf_version(v: VersionV) -> bool {
    &&& v.receiver.len() == ADDRESS_WIRE_LEN as int
    &&& v.sender.len() == ADDRESS_WIRE_LEN as int
    &&& v.user_agent.len() <= MAX_VEC_SIZE as int
}

/// Wire form of a `version` message.
pub open spec fn enc_version(v: VersionV) -> Seq<u8> {
    spec_u32_to_le_bytes(v.version) + spec_u64_to_le_bytes(v.services) + enc_i64(v.timestamp)
        + v.receiver + v.sender + spec_u64_to_le_bytes(v.nonce) + enc_varbytes(v.user_agent)
        + enc_i32(v.start_height) + enc_bool(v.relay)
}

/// Decode of a `version` message, field by field.
pub open spec fn sp_version(s: Seq<u8>, pos: int) -> SpecRes<VersionV> {
    match sp_u32(s, pos) {
        SpecRes::Fail(e) => SpecRes::Fail(e),
        SpecRes::Val(version, p1) => match sp_u64(s, p1) {
            SpecRes::Fail(e) => SpecRes::Fail(e),
            SpecRes::Val(services, p2) => match sp_i64(s, p2) {
                SpecRes::Fail(e) => SpecRes::Fail(e),
                SpecRes::Val(timestamp, p3) => match sp_bytes(s, p3, ADDRESS_WIRE_LEN as int) {
                    SpecRes::Fail(e) => SpecRes::Fail(e),
                    SpecRes::Val(receiver, p4) => match sp_bytes(s, p4, ADDRESS_WIRE_LEN as int) {
                        SpecRes::Fail(e) => SpecRes::Fail(e),
                        SpecRes::Val(sender, p5) => match sp_u64(s, p5) {
                            SpecRes::Fail(e) => SpecRes::Fail(e),
                            SpecRes::Val(nonce, p6) => match sp_varbytes(s, p6) {
                                SpecRes::Fail(e) => SpecRes::Fail(e),
                                SpecRes::Val(user_agent, p7) => match sp_i32(s, p7) {
                                    SpecRes::Fail(e) => SpecRes::Fail(e),
                                    SpecRes::Val(start_height, p8) => match sp_bool(s, p8) {
                                        SpecRes::Fail(e) => SpecRes::Fail(e),
                                        SpecRes::Val(relay, p9) => SpecRes::Val(
                                            VersionV {
                                                version,
                                                services,
                                                timestamp,
                                                receiver,
                                                sender,
                                                nonce,
                                                user_agent,
                                                start_height,
                                                relay,
                                            },
                                            p9,
                                        ),
                                    },
                                },
                            },
                        },
                    },
                },
            },
        },
    }
}

impl VersionMessage {
    /// Constructs a new `version` message with `relay` set to false and
    /// the version set to [`PROTOCOL_VERSION`].
    pub fn new(
        services: u64,
        timestamp: i64,
        receiver: Address,
        sender: Address,
        nonce: u64,
        user_agent: Vec<u8>,
        start_height: i32,
    ) -> (r: VersionMessage)
        ensures
            r@ == (VersionV {
                version: PROTOCOL_VERSION,
                services,
                timestamp,
                receiver: receiver@,
                sender: sender@,
                nonce,
                user_agent: user_agent@,
                start_height,
                relay: false,
            }),
    {
        VersionMessage {
            version: PROTOCOL_VERSION,
            services,
            timestamp,
            receiver,
            sender,
            nonce,
            user_agent,
            start_height,
            relay: false,
        }
    }

    /// Writes the wire form of the message.
    pub fn consensus_encode(&self, out: &mut Vec<u8>)
        ensures
            final(out)@ == old(out)@ + enc_version(self@),
    {
        push_u32_le(out, self.version);
        push_u64_le(out, self.services);
        push_i64_le(out, self.timestamp);
        self.receiver.consensus_encode(out);
        self.sender.consensus_encode(out);
        push_u64_le(out, self.nonce);
        push_varbytes(out, self.user_agent.as_slice());
        push_i32_le(out, self.start_height);
        push_bool(out, self.relay);
        assert(final(out)@ =~= old(out)@ + enc_version(self@));
    }

    /// Reads a `version` message field by field.
    pub fn consensus_decode(buf: &[u8], pos: usize) -> (r: Result<
        (VersionMessage, usize),
        DecodeError,
    >)
        ensures
            match sp_version(buf@, pos as int) {
                SpecRes::Val(v, p) => r matches Ok(t) && t.0@ == v && t.1 == p,
                SpecRes::Fail(e) => r matches Err(e2) && e2 == e,
            },
    {
        let (version, p1) = read_u32(buf, pos)?;
        let (services, p2) = read_u64(buf, p1)?;
        let (timestamp, p3) = read_i64(buf, p2)?;
        let (receiver, p4) = Address::consensus_decode(buf, p3)?;
        let (sender, p5) = Address::consensus_decode(buf, p4)?;
        let (nonce, p6) = read_u64(buf, p5)?;
        let (user_agent, p7) = read_varbytes(buf, p6)?;
        let (start_height, p8) = read_i32(buf, p7)?;
        let (relay, p9) = read_bool(buf, p8)?;
        Ok((
            VersionMessage {
                version,
                services,
                timestamp,
                receiver,
                sender,
                nonce,
                user_agent,
                start_height,
                relay,
            },
            p9,
        ))
    }
}

/// Decoding an encoded `version` message yields the original value.
pub proof fn lemma_version_rt(s: Seq<u8>, pos: int, v: VersionV)
    requires
        0 <= pos,
        wf_version(v),
        pos + enc_version(v).len() <= s.len(),
        s.subrange(pos, pos + enc_version(v).len()) == enc_version(v),
    ensures
        sp_version(s, pos) == SpecRes::<VersionV>::Val(v, pos + enc_version(v).len()),
{
    lemma_auto_spec_u32_to_from_le_bytes();
    lemma_auto_spec_u64_to_from_le_bytes();
    let e1 = spec_u32_to_le_bytes(v.version);
    let e2 = spec_u64_to_le_bytes(v.services);
    let e3 = enc_i64(v.timestamp);
    let e4 = v.receiver;
    let e5 = v.sender;
    let e6 = spec_u64_to_le_bytes(v.nonce);
    let e7 = enc_varbytes(v.user_agent);
    let e8 = enc_i32(v.start_height);
    let e9 = enc_bool(v.relay);
    assert(enc_version(v) =~= e1 + (e2 + (e3 + (e4 + (e5 + (e6 + (e7 + (e8 + e9))))))));
    let p0 = pos;
    lemma_split(s, p0, e1, e2 + (e3 + (e4 + (e5 + (e6 + (e7 + (e8 + e9)))))));
    let p1 = p0 + e1.len();
    lemma_split(s, p1, e2, e3 + (e4 + (e5 + (e6 + (e7 + (e8 + e9))))));
    let p2 = p1 + e2.len();
    lemma_split(s, p2, e3, e4 + (e5 + (e6 + (e7 + (e8 + e9)))));
    let p3 = p2 + e3.len();
    lemma_split(s, p3, e4, e5 + (e6 + (e7 + (e8 + e9))));
    let p4 = p3 + e4.len();
    lemma_split(s, p4, e5, e6 + (e7 + (e8 + e9)));
    let p5 = p4 + e5.len();
    lemma_split(s, p5, e6, e7 + (e8 + e9));
    let p6 = p5 + e6.len();
    lemma_split(s, p6, e7, e8 + e9);
    let p7 = p6 + e7.len();
    lemma_split(s, p7, e8, e9);
    let p8 = p7 + e8.len();
    lemma_u32_rt(s, p0, v.version);
    lemma_u64_rt(s, p1, v.services);
    lemma_i64_rt(s, p2, v.timestamp);
    lemma_bytes_rt(s, p3, v.receiver);
    lemma_bytes_rt(s, p4, v.sender);
    lemma_u64_rt(s, p5, v.nonce);
    lemma_varbytes_rt(s, p6, v.user_agent);
    lemma_i32_rt(s, p7, v.start_height);
    lemma_bool_rt(s, p8, v.relay);
}

// ---------------------------------------------------------------------------
// Reject message
// ---------------------------------------------------------------------------

/// Message rejection reason as a code.
#[derive(Clone, Copy, Debug, PartialEq, Eq, Structural)]
pub enum RejectReason {
    /// Malformed message.
    Malformed,
    /// Invalid message.
    Invalid,
    /// Obsolete message.
    Obsolete,
    /// Duplicate message.
    Duplicate,
    /// Nonstandard transaction.
    NonStandard,
    /// An output is below the dust limit.
    Dust,
    /// Insufficient fee.
    Fee,
    /// Rejected by a checkpoint.
    Checkpoint,
}

/// The wire code of a rejection reason.
pub open spec fn reject_code(r: RejectReason) -> u8 {
    match r {
        RejectReason::Malformed => 0x01,
        RejectReason::Invalid => 0x10,
        RejectReason::Obsolete => 0x11,
        RejectReason::Duplicate => 0x12,
        RejectReason::NonStandard => 0x40,
        RejectReason::Dust => 0x41,
        RejectReason::Fee => 0x42,
        RejectReason::Checkpoint => 0x43,
    }
}

/// The rejection reason a wire code stands for, if any.
pub open spec fn reject_of_code(c: u8) -> Option<RejectReason> {
    if c == 0x01 {
        Some(RejectReason::Malformed)
    } else if c == 0x10 {
        Some(RejectReason::Invalid)
    } else if c == 0x11 {
        Some(RejectReason::Obsolete)
    } else if c == 0x12 {
        Some(RejectReason::Duplicate)
    } else if c == 0x40 {
        Some(RejectReason::NonStandard)
    } else if c == 0x41 {
        Some(RejectReason::Dust)
    } else if c == 0x42 {
        Some(RejectReason::Fee)
    } else if c == 0x43 {
        Some(RejectReason::Checkpoint)
    } else {
        None
    }
}

/// Decode of a rejection-reason byte; an unrecognized code is a
/// structural failure.
pub open spec fn sp_reject_reason(s: Seq<u8>, pos: int) -> SpecRes<RejectReason> {
    match sp_u8(s, pos) {
        SpecRes::Fail(e) => SpecRes::Fail(e),
        SpecRes::Val(c, p) => match reject_of_code(c) {
            Some(r) => SpecRes::Val(r, p),
            None => SpecRes::Fail(DecodeError::ParseFailed(ParseReason::UnknownRejectCode)),
        },
    }
}

impl RejectReason {
    /// The wire code of this reason.
    pub fn to_code(&self) -> (r: u8)
        ensures
            r == reject_code(*self),
    {
        match *self {
            RejectReason::Malformed => 0x01,
            RejectReason::Invalid => 0x10,
            RejectReason::Obsolete => 0x11,
            RejectReason::Duplicate => 0x12,
            RejectReason::NonStandard => 0x40,
            RejectReason::Dust => 0x41,
            RejectReason::Fee => 0x42,
            RejectReason::Checkpoint => 0x43,
        }
    }

    /// Writes the one-byte wire code.
    pub fn consensus_encode(&self, out: &mut Vec<u8>)
        ensures
            final(out)@ == old(out)@ + seq![reject_code(*self)],
    {
        out.push(self.to_code());
        assert(final(out)@ =~= old(out)@ + seq![reject_code(*self)]);
    }

    /// Reads a one-byte reason code, rejecting unknown codes.
    pub fn consensus_decode(buf: &[u8], pos: usize) -> (r: Result<
        (RejectReason, usize),
        DecodeError,
    >)
        ensures
            match sp_reject_reason(buf@, pos as int) {
                SpecRes::Val(v, p) => r matches Ok(t) && t.0 == v && t.1 == p,
                SpecRes::Fail(e) => r matches Err(e2) && e2 == e,
            },
    {
        let (c, p) = read_u8(buf, pos)?;
        let reason = if c == 0x01 {
            RejectReason::Malformed
        } else if c == 0x10 {
            RejectReason::Invalid
        } else if c == 0x11 {
            RejectReason::Obsolete
        } else if c == 0x12 {
            RejectReason::Duplicate
        } else if c == 0x40 {
            RejectReason::NonStandard
        } else if c == 0x41 {
            RejectReason::Dust
        } else if c == 0x42 {
            RejectReason::Fee
        } else if c == 0x43 {
            RejectReason::Checkpoint
        } else {
            return Err(DecodeError::ParseFailed(ParseReason::UnknownRejectCode));
        };
        Ok((reason, p))
    }
}

/// Spec-level value of a `reject` message.
pub struct RejectV {
    pub message: Seq<u8>,
    pub ccode: RejectReason,
    pub reason: Seq<u8>,
    pub hash: Seq<u8>,
}

/// `reject` message sent by peers rejecting one of our messages.
#[derive(Debug, PartialEq, Eq)]
pub struct Reject {
    /// Message type rejected.
    pub message: CommandString,
    /// Reason of rejection as a code.
    pub ccode: RejectReason,
    /// Reason of rejection as text bytes.
    pub reason: Vec<u8>,
    /// Reference to the rejected item.
    pub hash: Vec<u8>,
}

impl View for Reject {
    type V = RejectV;

    open spec fn view(&self) -> RejectV {
        RejectV {
            message: self.message@,
            ccode: self.ccode,
            reason: self.reason@,
            hash: self.hash@,
        }
    }
}

/// Structural validity of a `reject` message value.
pub open spec fn wf_reject(r: RejectV) -> bool {
    &&& r.message.len() <= 12
    &&& r.reason.len() <= MAX_VEC_SIZE as int
    &&& r.hash.len() == 32
}

/// Wire form of a `reject` message: the rejected command in its 12-byte
/// form, the reason code, the reason text, and a 32-byte hash.
pub open spec fn enc_reject(r: RejectV) -> Seq<u8> {
    pad12(r.message) + seq![reject_code(r.ccode)] + enc_varbytes(r.reason) + r.hash
}

/// Decode of a `reject` message, field by field.
pub open spec fn sp_reject(s: Seq<u8>, pos: int) -> SpecRes<RejectV> {
    match sp_command(s, pos) {
        SpecRes::Fail(e) => SpecRes::Fail(e),
        SpecRes::Val(message, p1) => match sp_reject_reason(s, p1) {
            SpecRes::Fail(e) => SpecRes::Fail(e),
            SpecRes::Val(ccode, p2) => match sp_varbytes(s, p2) {
                SpecRes::Fail(e) => SpecRes::Fail(e),
                SpecRes::Val(reason, p3) => match sp_bytes(s, p3, 32) {
                    SpecRes::Fail(e) => SpecRes::Fail(e),
                    SpecRes::Val(hash, p4) => SpecRes::Val(
                        RejectV { message, ccode, reason, hash },
                        p4,
                    ),
                },
            },
        },
    }
}

impl Reject {
    /// Writes the wire form of the message.
    pub fn consensus_encode(&self, out: &mut Vec<u8>)
        ensures
            final(out)@ == old(out)@ + enc_reject(self@),
    {
        self.message.consensus_encode(out);
        self.ccode.consensus_encode(out);
        push_varbytes(out, self.reason.as_slice());
        push_bytes(out, self.hash.as_slice());
        assert(final(out)@ =~= old(out)@ + enc_reject(self@));
    }

    /// Reads a `reject` message field by field.
    pub fn consensus_decode(buf: &[u8], pos: usize) -> (r: Result<(Reject, usize), DecodeError>)
        ensures
            match sp_reject(buf@, pos as int) {
                SpecRes::Val(v, p) => r matches Ok(t) && t.0@ == v && t.1 == p,
                SpecRes::Fail(e) => r matches Err(e2) && e2 == e,
            },
    {
        let (message, p1) = CommandString::consensus_decode(buf, pos)?;
        let (ccode, p2) = RejectReason::consensus_decode(buf, p1)?;
        let (reason, p3) = read_varbytes(buf, p2)?;
        let (hash, p4) = read_bytes(buf, p3, 32)?;
        Ok((Reject { message, ccode, reason, hash }, p4))
    }
}

/// Decoding an encoded `reject` message yields the original value,
/// provided the rejected command name holds no zero bytes.
pub proof fn lemma_reject_rt(s: Seq<u8>, pos: int, r: RejectV)
    requires
        0 <= pos,
        wf_reject(r),
        forall|i: int| 0 <= i < r.message.len() ==> r.message[i] != 0,
        pos + enc_reject(r).len() <= s.len(),
        s.subrange(pos, pos + enc_reject(r).len()) == enc_reject(r),
    ensures
        sp_reject(s, pos) == SpecRes::<RejectV>::Val(r, pos + enc_reject(r).len()),
{
    let e1 = pad12(r.message);
    let e2 = seq![reject_code(r.ccode)];
    let e3 = enc_varbytes(r.reason);
    let e4 = r.hash;
    assert(enc_reject(r) =~= e1 + (e2 + (e3 + e4)));
    let p0 = pos;
    lemma_split(s, p0, e1, e2 + (e3 + e4));
    let p1 = p0 + e1.len();
    lemma_split(s, p1, e2, e3 + e4);
    let p2 = p1 + e2.len();
    lemma_split(s, p2, e3, e4);
    let p3 = p2 + e3.len();
    lemma_command_rt(s, p0, r.message);
    assert(s[p1] == e2[0]);
    lemma_varbytes_rt(s, p2, r.reason);
    lemma_bytes_rt(s, p3, r.hash);
}

} // verus!
