use bitcoin_p2p::encode::DecodeError;
use bitcoin_p2p::encode::ParseReason;
use bitcoin_p2p::message::CommandString;
use bitcoin_p2p::message_network::Address;
use bitcoin_p2p::message_network::PROTOCOL_VERSION;
use bitcoin_p2p::message_network::Reject;
use bitcoin_p2p::message_network::RejectReason;
use bitcoin_p2p::message_network::VersionMessage;

#[test]
fn version_message_test() {
    // This message is from a live node, morning of May 27 2014.
    let from_sat: Vec<u8> = vec![
        0x72, 0x11, 0x01, 0x00, 0x01, 0x00, 0x00, 0x00, 0x00, 0x00, 0x00, 0x00,
        0xe6, 0xe0, 0x84, 0x53, 0x00, 0x00, 0x00, 0x00, 0x01, 0x00, 0x00, 0x00,
        0x00, 0x00, 0x00, 0x00, 0x00, 0x00, 0x00, 0x00, 0x00, 0x00, 0x00, 0x00,
        0x00, 0x00, 0xff, 0xff, 0x00, 0x00, 0x00, 0x00, 0x00, 0x00, 0x01, 0x00,
        0x00, 0x00, 0x00, 0x00, 0x00, 0x00, 0xfd, 0x87, 0xd8, 0x7e, 0xeb, 0x43,
        0x64, 0xf2, 0x2c, 0xf5, 0x4d, 0xca, 0x59, 0x41, 0x2d, 0xb7, 0x20, 0x8d,
        0x47, 0xd9, 0x20, 0xcf, 0xfc, 0xe8, 0x3e, 0xe8, 0x10, 0x2f, 0x53, 0x61,
        0x74, 0x6f, 0x73, 0x68, 0x69, 0x3a, 0x30, 0x2e, 0x39, 0x2e, 0x39, 0x39,
        0x2f, 0x2c, 0x9f, 0x04, 0x00, 0x01,
    ];

    let decode = VersionMessage::consensus_decode(&from_sat, 0);
    assert!(decode.is_ok());
    let (real_decode, consumed) = decode.unwrap();
    assert_eq!(consumed, from_sat.len());
    assert_eq!(real_decode.version, 70002);
    // NODE_NETWORK
    assert_eq!(real_decode.services, 1);
    assert_eq!(real_decode.timestamp, 1401217254);
    // address decodes should be covered by Address tests
    assert_eq!(real_decode.nonce, 16735069437859780935);
    assert_eq!(real_decode.user_agent, "/Satoshi:0.9.99/".as_bytes());
    assert_eq!(real_decode.start_height, 302892);
    assert_eq!(real_decode.relay, true);

    let mut enc: Vec<u8> = Vec::new();
    real_decode.consensus_encode(&mut enc);
    assert_eq!(enc, from_sat);
}

#[test]
fn version_message_new_test() {
    let receiver = Address::from_wire_bytes(vec![0u8; 26]).unwrap();
    let sender = Address::from_wire_bytes(vec![1u8; 26]).unwrap();
    let msg = VersionMessage::new(
        1,
        1401217254,
        receiver,
        sender,
        99,
        "/test/".as_bytes().to_vec(),
        7,
    );
    assert_eq!(msg.version, PROTOCOL_VERSION);
    assert_eq!(msg.services, 1);
    assert_eq!(msg.timestamp, 1401217254);
    assert_eq!(msg.nonce, 99);
    assert_eq!(msg.user_agent, "/test/".as_bytes());
    assert_eq!(msg.start_height, 7);
    assert_eq!(msg.relay, false);
}

#[test]
fn address_wire_length_test() {
    assert!(Address::from_wire_bytes(vec![0u8; 25]).is_none());
    let a = Address::from_wire_bytes(vec![7u8; 26]).unwrap();
    assert_eq!(a.as_bytes(), &[7u8; 26]);
}

#[test]
fn reject_reason_codes_test() {
    let cases = [
        (RejectReason::Malformed, 0x01u8),
        (RejectReason::Invalid, 0x10),
        (RejectReason::Obsolete, 0x11),
        (RejectReason::Duplicate, 0x12),
        (RejectReason::NonStandard, 0x40),
        (RejectReason::Dust, 0x41),
        (RejectReason::Fee, 0x42),
        (RejectReason::Checkpoint, 0x43),
    ];
    for (reason, code) in cases {
        let mut enc: Vec<u8> = Vec::new();
        reason.consensus_encode(&mut enc);
        assert_eq!(enc, vec![code]);
        let (back, consumed) = RejectReason::consensus_decode(&enc, 0).unwrap();
        assert_eq!(back, reason);
        assert_eq!(consumed, 1);
    }
}

#[test]
fn reject_unknown_code_test() {
    match RejectReason::consensus_decode(&[0x99], 0) {
        Err(DecodeError::ParseFailed(ParseReason::UnknownRejectCode)) => {}
        other => panic!("expected unknown reject code, got {:?}", other),
    }
}

#[test]
fn reject_round_trip_test() {
    let reject = Reject {
        message: CommandString::try_from("Test reject").unwrap(),
        ccode: RejectReason::Duplicate,
        reason: "Cause".as_bytes().to_vec(),
        hash: vec![255u8; 32],
    };
    let mut enc: Vec<u8> = Vec::new();
    reject.consensus_encode(&mut enc);
    let (back, consumed) = Reject::consensus_decode(&enc, 0).unwrap();
    assert_eq!(consumed, enc.len());
    assert_eq!(back, reject);
}
