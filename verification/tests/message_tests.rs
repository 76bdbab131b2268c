use bitcoin_p2p::encode::DecodeError;
use bitcoin_p2p::encode::MAX_VEC_SIZE;
use bitcoin_p2p::encode::ParseReason;
use bitcoin_p2p::message::BlockHeader;
use bitcoin_p2p::message::CommandString;
use bitcoin_p2p::message::NetworkMessage;
use bitcoin_p2p::message::RawNetworkMessage;
use bitcoin_p2p::message::decode_headers;

fn serialize(msg: &RawNetworkMessage) -> Vec<u8> {
    let mut out: Vec<u8> = Vec::new();
    msg.consensus_encode(&mut out);
    out
}

#[test]
fn commandstring_test() {
    // Test converting.
    assert_eq!(
        CommandString::try_from("AndrewAndrew").unwrap().as_bytes(),
        "AndrewAndrew".as_bytes()
    );
    assert!(CommandString::try_from("AndrewAndrewA").is_err());

    // Test serializing.
    let cs = CommandString::try_from("Andrew").unwrap();
    let mut enc: Vec<u8> = Vec::new();
    cs.consensus_encode(&mut enc);
    assert_eq!(enc, vec![0x41u8, 0x6e, 0x64, 0x72, 0x65, 0x77, 0, 0, 0, 0, 0, 0]);

    // Test deserializing.
    let cs = CommandString::consensus_decode(
        &[0x41u8, 0x6e, 0x64, 0x72, 0x65, 0x77, 0, 0, 0, 0, 0, 0],
        0,
    );
    assert!(cs.is_ok());
    let (cs, consumed) = cs.unwrap();
    assert_eq!(consumed, 12);
    assert_eq!(cs.as_bytes(), "Andrew".as_bytes());
    assert_eq!(cs, CommandString::try_from("Andrew").unwrap());

    let short_cs = CommandString::consensus_decode(
        &[0x41u8, 0x6e, 0x64, 0x72, 0x65, 0x77, 0, 0, 0, 0, 0],
        0,
    );
    assert!(short_cs.is_err());
}

#[test]
fn serialize_verack_test() {
    assert_eq!(
        serialize(&RawNetworkMessage { magic: 0xd9b4bef9, payload: NetworkMessage::Verack }),
        vec![
            0xf9, 0xbe, 0xb4, 0xd9, 0x76, 0x65, 0x72, 0x61, 0x63, 0x6b, 0x00, 0x00, 0x00, 0x00,
            0x00, 0x00, 0x00, 0x00, 0x00, 0x00, 0x5d, 0xf6, 0xe0, 0xe2
        ]
    );
}

#[test]
fn serialize_ping_test() {
    assert_eq!(
        serialize(&RawNetworkMessage { magic: 0xd9b4bef9, payload: NetworkMessage::Ping(100) }),
        vec![
            0xf9, 0xbe, 0xb4, 0xd9, 0x70, 0x69, 0x6e, 0x67, 0x00, 0x00, 0x00, 0x00, 0x00, 0x00,
            0x00, 0x00, 0x08, 0x00, 0x00, 0x00, 0x24, 0x67, 0xf1, 0x1d, 0x64, 0x00, 0x00, 0x00,
            0x00, 0x00, 0x00, 0x00
        ]
    );
}

#[test]
fn serialize_mempool_test() {
    assert_eq!(
        serialize(&RawNetworkMessage { magic: 0xd9b4bef9, payload: NetworkMessage::MemPool }),
        vec![
            0xf9, 0xbe, 0xb4, 0xd9, 0x6d, 0x65, 0x6d, 0x70, 0x6f, 0x6f, 0x6c, 0x00, 0x00, 0x00,
            0x00, 0x00, 0x00, 0x00, 0x00, 0x00, 0x5d, 0xf6, 0xe0, 0xe2
        ]
    );
}

#[test]
fn serialize_getaddr_test() {
    assert_eq!(
        serialize(&RawNetworkMessage { magic: 0xd9b4bef9, payload: NetworkMessage::GetAddr }),
        vec![
            0xf9, 0xbe, 0xb4, 0xd9, 0x67, 0x65, 0x74, 0x61, 0x64, 0x64, 0x72, 0x00, 0x00, 0x00,
            0x00, 0x00, 0x00, 0x00, 0x00, 0x00, 0x5d, 0xf6, 0xe0, 0xe2
        ]
    );
}

#[test]
fn deserialize_getaddr_test() {
    let msg = RawNetworkMessage::consensus_decode(&[
        0xf9, 0xbe, 0xb4, 0xd9, 0x67, 0x65, 0x74, 0x61, 0x64, 0x64, 0x72, 0x00, 0x00, 0x00,
        0x00, 0x00, 0x00, 0x00, 0x00, 0x00, 0x5d, 0xf6, 0xe0, 0xe2,
    ]);
    let preimage = RawNetworkMessage { magic: 0xd9b4bef9, payload: NetworkMessage::GetAddr };
    assert!(msg.is_ok());
    let (msg, _) = msg.unwrap();
    assert_eq!(preimage.magic, msg.magic);
    assert_eq!(preimage.payload, msg.payload);
}

const VERSION_MSG_DATA: [u8; 126] = [
    0xf9, 0xbe, 0xb4, 0xd9, 0x76, 0x65, 0x72, 0x73, 0x69, 0x6f, 0x6e, 0x00, 0x00, 0x00, 0x00,
    0x00, 0x66, 0x00, 0x00, 0x00, 0xbe, 0x61, 0xb8, 0x27, 0x7f, 0x11, 0x01, 0x00, 0x0d, 0x04,
    0x00, 0x00, 0x00, 0x00, 0x00, 0x00, 0xf0, 0x0f, 0x4d, 0x5c, 0x00, 0x00, 0x00, 0x00, 0x00,
    0x00, 0x00, 0x00, 0x00, 0x00, 0x00, 0x00, 0x00, 0x00, 0x00, 0x00, 0x00, 0x00, 0x00, 0x00,
    0x00, 0x00, 0xff, 0xff, 0x5b, 0xf0, 0x8c, 0x80, 0xb4, 0xbd, 0x0d, 0x04, 0x00, 0x00, 0x00,
    0x00, 0x00, 0x00, 0x00, 0x00, 0x00, 0x00, 0x00, 0x00, 0x00, 0x00, 0x00, 0x00, 0x00, 0x00,
    0x00, 0x00, 0x00, 0x00, 0x00, 0x00, 0xfa, 0xa9, 0x95, 0x59, 0xcc, 0x68, 0xa1, 0xc1, 0x10,
    0x2f, 0x53, 0x61, 0x74, 0x6f, 0x73, 0x68, 0x69, 0x3a, 0x30, 0x2e, 0x31, 0x37, 0x2e, 0x31,
    0x2f, 0x93, 0x8c, 0x08, 0x00, 0x01,
];

#[test]
fn deserialize_version_test() {
    let msg = RawNetworkMessage::consensus_decode(&VERSION_MSG_DATA);

    assert!(msg.is_ok());
    let (msg, _) = msg.unwrap();
    assert_eq!(msg.magic, 0xd9b4bef9);
    if let NetworkMessage::Version(version_msg) = msg.payload {
        assert_eq!(version_msg.version, 70015);
        // NODE_NETWORK | BLOOM | WITNESS | NETWORK_LIMITED
        assert_eq!(version_msg.services, 1 | 4 | 8 | 1024);
        assert_eq!(version_msg.timestamp, 1548554224);
        assert_eq!(version_msg.nonce, 13952548347456104954);
        assert_eq!(version_msg.user_agent, "/Satoshi:0.17.1/".as_bytes());
        assert_eq!(version_msg.start_height, 560275);
        assert_eq!(version_msg.relay, true);
    } else {
        panic!("Wrong message type");
    }
}

#[test]
fn deserialize_partial_message_test() {
    let mut data: Vec<u8> = VERSION_MSG_DATA.to_vec();
    data.push(0);
    data.push(0);
    let msg = RawNetworkMessage::consensus_decode(&data);
    assert!(msg.is_ok());

    let (msg, consumed) = msg.unwrap();
    assert_eq!(consumed, data.to_vec().len() - 2);
    assert_eq!(msg.magic, 0xd9b4bef9);
    if let NetworkMessage::Version(version_msg) = msg.payload {
        assert_eq!(version_msg.version, 70015);
        assert_eq!(version_msg.services, 1 | 4 | 8 | 1024);
        assert_eq!(version_msg.timestamp, 1548554224);
        assert_eq!(version_msg.nonce, 13952548347456104954);
        assert_eq!(version_msg.user_agent, "/Satoshi:0.17.1/".as_bytes());
        assert_eq!(version_msg.start_height, 560275);
        assert_eq!(version_msg.relay, true);
    } else {
        panic!("Wrong message type");
    }
}

#[test]
fn partial_decode_verack_consumed_test() {
    // One zero-payload message followed by two unrelated bytes: decode
    // succeeds and reports exactly 24 bytes consumed.
    let mut data = serialize(&RawNetworkMessage {
        magic: 0xd9b4bef9,
        payload: NetworkMessage::Verack,
    });
    assert_eq!(data.len(), 24);
    data.push(0xab);
    data.push(0xcd);
    let (msg, consumed) = RawNetworkMessage::consensus_decode(&data).unwrap();
    assert_eq!(consumed, 24);
    assert_eq!(msg.magic, 0xd9b4bef9);
    assert_eq!(msg.payload, NetworkMessage::Verack);
}

#[test]
fn round_trip_test() {
    let header_bytes: Vec<u8> = (0u16..80).map(|i| (i % 251) as u8).collect();
    let header = BlockHeader::from_wire_bytes(header_bytes).unwrap();
    let msgs = vec![
        NetworkMessage::Verack,
        NetworkMessage::MemPool,
        NetworkMessage::SendHeaders,
        NetworkMessage::GetAddr,
        NetworkMessage::FilterClear,
        NetworkMessage::WtxidRelay,
        NetworkMessage::SendAddrV2,
        NetworkMessage::Ping(15),
        NetworkMessage::Pong(23),
        NetworkMessage::FeeFilter(1000),
        NetworkMessage::FeeFilter(-1000),
        NetworkMessage::Tx(vec![1, 2, 3, 4]),
        NetworkMessage::Block(vec![9, 8, 7]),
        NetworkMessage::Inv(vec![0, 1, 2, 3]),
        NetworkMessage::Addr(vec![5; 31]),
        NetworkMessage::AddrV2(vec![6; 10]),
        NetworkMessage::Alert(vec![45, 66, 3, 2, 6, 8, 9, 12, 3, 130]),
        NetworkMessage::Headers(vec![header]),
        NetworkMessage::Unknown {
            command: CommandString::try_from("foobar12345").unwrap(),
            payload: vec![1, 2, 3],
        },
    ];
    for msg in msgs {
        let raw = RawNetworkMessage { magic: 57, payload: msg };
        let bytes = serialize(&raw);
        let (decoded, consumed) = RawNetworkMessage::consensus_decode(&bytes).unwrap();
        assert_eq!(decoded, raw);
        assert_eq!(consumed, bytes.len());
    }
}

#[test]
fn unknown_passthrough_test() {
    let raw = RawNetworkMessage {
        magic: 0xd9b4bef9,
        payload: NetworkMessage::Unknown {
            command: CommandString::try_from("foobar12345").unwrap(),
            payload: vec![0xde, 0xad, 0xbe, 0xef],
        },
    };
    let bytes = serialize(&raw);
    let (decoded, _) = RawNetworkMessage::consensus_decode(&bytes).unwrap();
    match &decoded.payload {
        NetworkMessage::Unknown { command, payload } => {
            assert_eq!(command.as_bytes(), "foobar12345".as_bytes());
            assert_eq!(payload, &vec![0xde, 0xad, 0xbe, 0xef]);
        }
        other => panic!("expected unknown message, got {:?}", other),
    }
    assert_eq!(decoded.cmd(), "unknown");
    // Re-encoding reproduces the original bytes exactly.
    let mut again: Vec<u8> = Vec::new();
    decoded.consensus_encode(&mut again);
    assert_eq!(again, bytes);
}

#[test]
fn checksum_bit_flip_test() {
    // Flipping any single bit in the payload region causes decode to fail
    // with a checksum mismatch.
    let raw = RawNetworkMessage { magic: 0xd9b4bef9, payload: NetworkMessage::Ping(100) };
    let bytes = serialize(&raw);
    assert_eq!(bytes.len(), 32);
    for byte_idx in 24..32 {
        for bit in 0..8 {
            let mut tampered = bytes.clone();
            tampered[byte_idx] ^= 1 << bit;
            match RawNetworkMessage::consensus_decode(&tampered) {
                Err(DecodeError::ChecksumMismatch { .. }) => {}
                other => panic!("expected checksum mismatch, got {:?}", other),
            }
        }
    }
}

#[test]
fn oversized_length_rejected_test() {
    // A declared payload length above the global maximum fails before any
    // payload byte is even present, reporting both sizes.
    let mut data: Vec<u8> = vec![0xf9, 0xbe, 0xb4, 0xd9];
    data.extend_from_slice(&[
        0x70, 0x69, 0x6e, 0x67, 0x00, 0x00, 0x00, 0x00, 0x00, 0x00, 0x00, 0x00,
    ]);
    let declared: u32 = (MAX_VEC_SIZE as u32) + 1;
    data.extend_from_slice(&declared.to_le_bytes());
    match RawNetworkMessage::consensus_decode(&data) {
        Err(DecodeError::OversizedAllocation { requested, max }) => {
            assert_eq!(requested, MAX_VEC_SIZE as u64 + 1);
            assert_eq!(max, MAX_VEC_SIZE as u64);
        }
        other => panic!("expected oversized allocation, got {:?}", other),
    }
}

#[test]
fn headers_nonzero_marker_test() {
    // A header followed by a non-zero byte is a structural failure.
    let mut payload: Vec<u8> = vec![1];
    payload.extend_from_slice(&[0x11; 80]);
    payload.push(1);
    match decode_headers(&payload, 0) {
        Err(DecodeError::ParseFailed(ParseReason::HeadersContainTransactions)) => {}
        other => panic!("expected structural parse failure, got {:?}", other),
    }
}

#[test]
fn headers_trailing_zero_shape_test() {
    // Encoding N headers emits exactly N trailing zero bytes, one after
    // each 80-byte record.
    let h1 = BlockHeader::from_wire_bytes(vec![0x22; 80]).unwrap();
    let h2 = BlockHeader::from_wire_bytes(vec![0x33; 80]).unwrap();
    let raw = RawNetworkMessage { magic: 57, payload: NetworkMessage::Headers(vec![h1, h2]) };
    let bytes = serialize(&raw);
    // magic 4 | command 12 | len 4 | checksum 4 | count 1 | 2 * (80 + 1)
    assert_eq!(bytes.len(), 24 + 1 + 2 * 81);
    let records = &bytes[25..];
    assert_eq!(records[80], 0);
    assert_eq!(records[161], 0);
    assert!(records[..80].iter().all(|&b| b == 0x22));
    assert!(records[81..161].iter().all(|&b| b == 0x33));
}

#[test]
fn headers_oversized_count_test() {
    // A declared header count whose byte size exceeds the maximum is
    // rejected before allocation; an overflowing one is invalid.
    let huge: u64 = (MAX_VEC_SIZE as u64) / 80 + 1;
    let mut payload: Vec<u8> = vec![0xFE];
    payload.extend_from_slice(&(huge as u32).to_le_bytes());
    match decode_headers(&payload, 0) {
        Err(DecodeError::OversizedAllocation { requested, max }) => {
            assert_eq!(requested, huge * 80);
            assert_eq!(max, MAX_VEC_SIZE as u64);
        }
        other => panic!("expected oversized allocation, got {:?}", other),
    }

    let mut payload: Vec<u8> = vec![0xFF];
    payload.extend_from_slice(&u64::MAX.to_le_bytes());
    match decode_headers(&payload, 0) {
        Err(DecodeError::ParseFailed(ParseReason::InvalidLength)) => {}
        other => panic!("expected invalid length, got {:?}", other),
    }
}

#[test]
fn non_minimal_varint_test() {
    // A two-byte varint holding a value below 0xFD is non-minimal.
    let payload: Vec<u8> = vec![0xFD, 0x01, 0x00];
    match decode_headers(&payload, 0) {
        Err(DecodeError::NonMinimalVarInt) => {}
        other => panic!("expected non-minimal varint, got {:?}", other),
    }
}

#[test]
fn truncated_message_test() {
    let data = [0xf9u8, 0xbe, 0xb4, 0xd9, 0x76, 0x65];
    match RawNetworkMessage::consensus_decode(&data) {
        Err(DecodeError::UnexpectedEnd) => {}
        other => panic!("expected unexpected end, got {:?}", other),
    }
}

#[test]
fn command_boundary_test() {
    // Names of exactly 12 bytes construct; 13 bytes fail.
    let twelve = "abcdefghijkl";
    let thirteen = "abcdefghijklm";
    assert!(CommandString::try_from(twelve).is_ok());
    let err = CommandString::try_from(thirteen).unwrap_err();
    assert_eq!(err.length, 13);
}

#[test]
fn cmd_names_test() {
    assert_eq!(RawNetworkMessage { magic: 0, payload: NetworkMessage::Verack }.cmd(), "verack");
    let ping = RawNetworkMessage { magic: 0, payload: NetworkMessage::Ping(0) };
    assert_eq!(ping.cmd(), "ping");
    assert_eq!(ping.command().as_bytes(), "ping".as_bytes());
    let unknown = NetworkMessage::Unknown {
        command: CommandString::try_from("foobar12345").unwrap(),
        payload: vec![],
    };
    assert_eq!(unknown.cmd(), "unknown");
    assert_eq!(unknown.command().as_bytes(), "foobar12345".as_bytes());
}
