use ppaass_core::common::{
    PpaassAddress, PpaassAddressType, PpaassMessage, PpaassMessagePayloadEncryptionType,
};
use ppaass_core::error::PpaassError;
use ppaass_core::wire::ByteCursor;

#[test]
fn encode_ipv4_address_bytes() {
    let address = PpaassAddress::new(vec![127, 0, 0, 1], 8080, PpaassAddressType::IpV4);
    let encoded = address.encode();
    assert_eq!(encoded, vec![1, 127, 0, 0, 1, 0x1F, 0x90]);
}

#[test]
fn encode_domain_address_bytes() {
    let address = PpaassAddress::new(b"example.com".to_vec(), 443, PpaassAddressType::Domain);
    let encoded = address.encode();
    let mut expected = vec![3, 0, 0, 0, 0, 0, 0, 0, 11];
    expected.extend_from_slice(b"example.com");
    expected.extend_from_slice(&[0x01, 0xBB]);
    assert_eq!(encoded, expected);
}

#[test]
fn address_round_trip_all_kinds() {
    let cases = vec![
        PpaassAddress::new(vec![10, 0, 0, 42], 1, PpaassAddressType::IpV4),
        PpaassAddress::new((0..16).collect(), 65535, PpaassAddressType::IpV6),
        PpaassAddress::new(b"proxy.test".to_vec(), 1080, PpaassAddressType::Domain),
        PpaassAddress::new(Vec::new(), 0, PpaassAddressType::Domain),
    ];
    for address in cases {
        let encoded = address.encode();
        let mut cursor = ByteCursor::new(encoded.as_slice());
        let decoded = PpaassAddress::decode(&mut cursor).expect("decode must succeed");
        assert_eq!(decoded.host, address.host);
        assert_eq!(decoded.port, address.port);
        assert_eq!(decoded.address_type, address.address_type);
        assert_eq!(cursor.position(), encoded.len());
    }
}

#[test]
fn successive_addresses_from_shared_buffer() {
    let first = PpaassAddress::new(vec![192, 168, 0, 1], 80, PpaassAddressType::IpV4);
    let second = PpaassAddress::new(b"host.example".to_vec(), 8443, PpaassAddressType::Domain);
    let mut buffer = first.encode();
    buffer.extend(second.encode());
    let mut cursor = ByteCursor::new(buffer.as_slice());
    let a = PpaassAddress::decode(&mut cursor).expect("first address");
    let b = PpaassAddress::decode(&mut cursor).expect("second address");
    assert_eq!(a.host, vec![192, 168, 0, 1]);
    assert_eq!(a.port, 80);
    assert_eq!(b.host, b"host.example".to_vec());
    assert_eq!(b.port, 8443);
    assert_eq!(cursor.position(), buffer.len());
}

#[test]
fn address_invalid_tag_consumes_only_tag() {
    let buffer = vec![9, 1, 2, 3, 4, 5, 6];
    let mut cursor = ByteCursor::new(buffer.as_slice());
    let result = PpaassAddress::decode(&mut cursor);
    assert_eq!(result.unwrap_err(), PpaassError::FailToParsePpaassAddressType(9));
    assert_eq!(cursor.position(), 1);
}

#[test]
fn address_truncated_buffers_underflow() {
    // Empty buffer.
    let mut cursor = ByteCursor::new(&[]);
    assert_eq!(
        PpaassAddress::decode(&mut cursor).unwrap_err(),
        PpaassError::BufferUnderflow
    );
    // IPv4 frame cut inside the host bytes.
    let buffer = vec![1, 127, 0, 0];
    let mut cursor = ByteCursor::new(buffer.as_slice());
    assert_eq!(
        PpaassAddress::decode(&mut cursor).unwrap_err(),
        PpaassError::BufferUnderflow
    );
    // Domain frame whose length field declares more bytes than remain.
    let buffer = vec![3, 0, 0, 0, 0, 0, 0, 0, 5, b'a', b'b'];
    let mut cursor = ByteCursor::new(buffer.as_slice());
    assert_eq!(
        PpaassAddress::decode(&mut cursor).unwrap_err(),
        PpaassError::BufferUnderflow
    );
    // Domain frame cut inside the port bytes.
    let buffer = vec![3, 0, 0, 0, 0, 0, 0, 0, 2, b'a', b'b', 0x01];
    let mut cursor = ByteCursor::new(buffer.as_slice());
    assert_eq!(
        PpaassAddress::decode(&mut cursor).unwrap_err(),
        PpaassError::BufferUnderflow
    );
}

#[test]
fn address_type_tag_round_trip() {
    assert_eq!(PpaassAddressType::from_byte(1).unwrap(), PpaassAddressType::IpV4);
    assert_eq!(PpaassAddressType::from_byte(2).unwrap(), PpaassAddressType::IpV6);
    assert_eq!(PpaassAddressType::from_byte(3).unwrap(), PpaassAddressType::Domain);
    assert_eq!(PpaassAddressType::IpV4.to_byte(), 1);
    assert_eq!(PpaassAddressType::IpV6.to_byte(), 2);
    assert_eq!(PpaassAddressType::Domain.to_byte(), 3);
    assert_eq!(
        PpaassAddressType::from_byte(0).unwrap_err(),
        PpaassError::FailToParsePpaassAddressType(0)
    );
    assert_eq!(
        PpaassAddressType::from_byte(255).unwrap_err(),
        PpaassError::FailToParsePpaassAddressType(255)
    );
}

#[test]
fn encode_plain_envelope_bytes() {
    let message = PpaassMessage {
        id: Vec::new(),
        payload_encryption_token: Vec::new(),
        payload_encryption_type: PpaassMessagePayloadEncryptionType::Plain,
        encrypted_payload: vec![0x41, 0x42],
    };
    let encoded = message.encode();
    let expected = vec![
        0, 0, 0, 0, 0, 0, 0, 0, // id length
        0, 0, 0, 0, 0, 0, 0, 0, // token length
        0x00, // encryption tag
        0, 0, 0, 0, 0, 0, 0, 2, // payload length
        0x41, 0x42,
    ];
    assert_eq!(encoded, expected);
}

#[test]
fn envelope_round_trip_all_encryption_types() {
    let encryption_types = vec![
        PpaassMessagePayloadEncryptionType::Plain,
        PpaassMessagePayloadEncryptionType::Blowfish,
        PpaassMessagePayloadEncryptionType::AES,
    ];
    for payload_encryption_type in encryption_types {
        let message = PpaassMessage {
            id: b"message-id-001".to_vec(),
            payload_encryption_token: vec![0xDE, 0xAD, 0xBE, 0xEF],
            payload_encryption_type,
            encrypted_payload: vec![9, 8, 7, 6, 5],
        };
        let encoded = message.encode();
        let mut cursor = ByteCursor::new(encoded.as_slice());
        let decoded = PpaassMessage::decode(&mut cursor).expect("decode must succeed");
        assert_eq!(decoded.id, message.id);
        assert_eq!(decoded.payload_encryption_token, message.payload_encryption_token);
        assert_eq!(decoded.payload_encryption_type, message.payload_encryption_type);
        assert_eq!(decoded.encrypted_payload, message.encrypted_payload);
        assert_eq!(cursor.position(), encoded.len());
    }
}

#[test]
fn envelope_round_trip_empty_fields() {
    let message = PpaassMessage {
        id: Vec::new(),
        payload_encryption_token: Vec::new(),
        payload_encryption_type: PpaassMessagePayloadEncryptionType::AES,
        encrypted_payload: Vec::new(),
    };
    let encoded = message.encode();
    assert_eq!(encoded.len(), 25);
    let mut cursor = ByteCursor::new(encoded.as_slice());
    let decoded = PpaassMessage::decode(&mut cursor).expect("decode must succeed");
    assert_eq!(decoded.id, Vec::<u8>::new());
    assert_eq!(decoded.payload_encryption_token, Vec::<u8>::new());
    assert_eq!(
        decoded.payload_encryption_type,
        PpaassMessagePayloadEncryptionType::AES
    );
    assert_eq!(decoded.encrypted_payload, Vec::<u8>::new());
}

#[test]
fn envelope_invalid_encryption_tag() {
    let message = PpaassMessage {
        id: vec![1, 2],
        payload_encryption_token: vec![3],
        payload_encryption_type: PpaassMessagePayloadEncryptionType::Plain,
        encrypted_payload: vec![4, 5, 6],
    };
    let mut corrupted = message.encode();
    // The encryption tag sits after both length-prefixed fields.
    let tag_index = 8 + 2 + 8 + 1;
    corrupted[tag_index] = 7;
    let mut cursor = ByteCursor::new(corrupted.as_slice());
    let result = PpaassMessage::decode(&mut cursor);
    assert_eq!(
        result.unwrap_err(),
        PpaassError::FailToParsePpaassMessagePayloadEncryptionType(7)
    );
    // The decode consumed nothing past the tag byte.
    assert_eq!(cursor.position(), tag_index + 1);
}

#[test]
fn envelope_truncated_buffers_underflow() {
    // Buffer shorter than the first length field.
    let mut cursor = ByteCursor::new(&[0, 0, 0]);
    assert_eq!(
        PpaassMessage::decode(&mut cursor).unwrap_err(),
        PpaassError::BufferUnderflow
    );
    // Id length declares more bytes than remain.
    let buffer = vec![0, 0, 0, 0, 0, 0, 0, 9, 1, 2];
    let mut cursor = ByteCursor::new(buffer.as_slice());
    assert_eq!(
        PpaassMessage::decode(&mut cursor).unwrap_err(),
        PpaassError::BufferUnderflow
    );
    // Every strict prefix of a whole frame underflows.
    let message = PpaassMessage {
        id: vec![1],
        payload_encryption_token: vec![2, 3],
        payload_encryption_type: PpaassMessagePayloadEncryptionType::Blowfish,
        encrypted_payload: vec![4],
    };
    let encoded = message.encode();
    for cut in 0..encoded.len() {
        let mut cursor = ByteCursor::new(&encoded[..cut]);
        assert_eq!(
            PpaassMessage::decode(&mut cursor).unwrap_err(),
            PpaassError::BufferUnderflow
        );
    }
}

#[test]
fn envelope_ignores_trailing_bytes() {
    let message = PpaassMessage {
        id: vec![1, 2, 3],
        payload_encryption_token: Vec::new(),
        payload_encryption_type: PpaassMessagePayloadEncryptionType::Plain,
        encrypted_payload: vec![0xAA],
    };
    let mut buffer = message.encode();
    let frame_len = buffer.len();
    buffer.extend_from_slice(&[0xFF, 0xFF, 0xFF]);
    let mut cursor = ByteCursor::new(buffer.as_slice());
    let decoded = PpaassMessage::decode(&mut cursor).expect("decode must succeed");
    assert_eq!(decoded.id, vec![1, 2, 3]);
    assert_eq!(cursor.position(), frame_len);
    assert_eq!(cursor.remaining(), 3);
}

#[test]
fn encryption_type_tag_round_trip() {
    assert_eq!(
        PpaassMessagePayloadEncryptionType::from_byte(0).unwrap(),
        PpaassMessagePayloadEncryptionType::Plain
    );
    assert_eq!(
        PpaassMessagePayloadEncryptionType::from_byte(1).unwrap(),
        PpaassMessagePayloadEncryptionType::Blowfish
    );
    assert_eq!(
        PpaassMessagePayloadEncryptionType::from_byte(2).unwrap(),
        PpaassMessagePayloadEncryptionType::AES
    );
    assert_eq!(PpaassMessagePayloadEncryptionType::Plain.to_byte(), 0);
    assert_eq!(PpaassMessagePayloadEncryptionType::Blowfish.to_byte(), 1);
    assert_eq!(PpaassMessagePayloadEncryptionType::AES.to_byte(), 2);
    assert_eq!(
        PpaassMessagePayloadEncryptionType::from_byte(3).unwrap_err(),
        PpaassError::FailToParsePpaassMessagePayloadEncryptionType(3)
    );
}
