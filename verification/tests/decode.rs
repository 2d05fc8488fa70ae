use proxy_v2::parse_v2_header;
use proxy_v2::types::Address;
use proxy_v2::types::AddressFamily;
use proxy_v2::types::Command;
use proxy_v2::types::DecodeError;
use proxy_v2::types::DecodeOutcome;
use proxy_v2::types::Header;
use proxy_v2::types::TransportProtocol;
use proxy_v2::types::Version;

#[test]
fn no_address_local() {
    let result = parse_v2_header(&b"\r\n\r\n\0\r\nQUIT\n\x20\x02\0\0"[..]);
    let expected = Header {
        version: Version::Two,
        command: Command::Local,
        protocol: TransportProtocol::Datagram,
        address_family: AddressFamily::Unspec,
        address: Address::Unspec(Vec::new()),
    };

    assert_eq!(result, DecodeOutcome::Decoded { header: expected, consumed: 16 });
}

#[test]
fn no_address_proxy() {
    let result = parse_v2_header(&b"\r\n\r\n\0\r\nQUIT\n\x21\x02\0\x01\xFF"[..]);
    let expected = Header {
        version: Version::Two,
        command: Command::Proxy,
        protocol: TransportProtocol::Datagram,
        address_family: AddressFamily::Unspec,
        address: Address::Unspec(vec![0xFF]),
    };

    assert_eq!(result, DecodeOutcome::Decoded { header: expected, consumed: 17 });
}

#[test]
fn wrong_version() {
    let result = parse_v2_header(&b"\r\n\r\n\0\r\nQUIT\n\x13\x02\0\x01\xFF"[..]);

    assert_eq!(result, DecodeOutcome::Failed { error: DecodeError::UnsupportedVersion });
}

#[test]
fn not_prefixed() {
    let result = parse_v2_header(&b"\r\n\r\n\x01\r\nQUIT\n"[..]);

    assert_eq!(result, DecodeOutcome::Failed { error: DecodeError::InvalidSignature });
}

#[test]
fn incomplete() {
    let bytes = [0x0D, 0x0A, 0x0D, 0x0A, 0x00];
    let result = parse_v2_header(&bytes[..]);

    assert!(matches!(result, DecodeOutcome::Incomplete { .. }));
}

#[test]
fn incomplete_signature_needs_the_rest() {
    let bytes = [0x0D, 0x0A, 0x0D, 0x0A, 0x00];
    let result = parse_v2_header(&bytes[..]);

    assert_eq!(result, DecodeOutcome::Incomplete { need_at_least: 7 });
}

#[test]
fn empty_input_is_incomplete() {
    let result = parse_v2_header(&[]);

    assert_eq!(result, DecodeOutcome::Incomplete { need_at_least: 12 });
}

#[test]
fn signature_mismatch_detected_before_twelve_bytes() {
    let bytes = [0x0D, 0x0A, 0xFF];
    let result = parse_v2_header(&bytes[..]);

    assert_eq!(result, DecodeOutcome::Failed { error: DecodeError::InvalidSignature });
}

#[test]
fn signature_alone_is_incomplete() {
    let result = parse_v2_header(&b"\r\n\r\n\0\r\nQUIT\n"[..]);

    assert_eq!(result, DecodeOutcome::Incomplete { need_at_least: 4 });
}

#[test]
fn fixed_fields_cut_short_are_incomplete() {
    let result = parse_v2_header(&b"\r\n\r\n\0\r\nQUIT\n\x21"[..]);
    assert_eq!(result, DecodeOutcome::Incomplete { need_at_least: 3 });

    let result = parse_v2_header(&b"\r\n\r\n\0\r\nQUIT\n\x21\x11"[..]);
    assert_eq!(result, DecodeOutcome::Incomplete { need_at_least: 2 });

    let result = parse_v2_header(&b"\r\n\r\n\0\r\nQUIT\n\x21\x11\x00"[..]);
    assert_eq!(result, DecodeOutcome::Incomplete { need_at_least: 1 });
}

#[test]
fn address_block_cut_short_is_incomplete() {
    let result = parse_v2_header(&b"\r\n\r\n\0\r\nQUIT\n\x21\x11\x00\x0C\x01\x02\x03\x04\x05"[..]);

    assert_eq!(result, DecodeOutcome::Incomplete { need_at_least: 7 });
}

#[test]
fn invalid_command_nibble() {
    let result = parse_v2_header(&b"\r\n\r\n\0\r\nQUIT\n\x2F\x02\0\0"[..]);

    assert_eq!(result, DecodeOutcome::Failed { error: DecodeError::InvalidCommand });
}

#[test]
fn invalid_address_family_nibble() {
    let result = parse_v2_header(&b"\r\n\r\n\0\r\nQUIT\n\x21\x40\0\0"[..]);

    assert_eq!(result, DecodeOutcome::Failed { error: DecodeError::InvalidAddressFamily });
}

#[test]
fn invalid_transport_protocol_nibble() {
    let result = parse_v2_header(&b"\r\n\r\n\0\r\nQUIT\n\x21\x03\0\0"[..]);

    assert_eq!(result, DecodeOutcome::Failed { error: DecodeError::InvalidTransportProtocol });
}

#[test]
fn failure_stays_failed_when_more_bytes_arrive() {
    let mut bytes: Vec<u8> = vec![0x0D, 0x0A, 0xFF];
    assert_eq!(
        parse_v2_header(&bytes),
        DecodeOutcome::Failed { error: DecodeError::InvalidSignature }
    );

    // a well-formed tail cannot repair a byte that already contradicted
    bytes.extend_from_slice(b"\r\n\r\n\0\r\nQUIT\n\x20\x02\0\0");
    assert_eq!(
        parse_v2_header(&bytes),
        DecodeOutcome::Failed { error: DecodeError::InvalidSignature }
    );
}

#[test]
fn need_at_least_is_a_floor() {
    // fixed fields declare a 12-byte block that is absent entirely
    let mut bytes: Vec<u8> = b"\r\n\r\n\0\r\nQUIT\n\x21\x11\x00\x0C".to_vec();
    assert_eq!(parse_v2_header(&bytes), DecodeOutcome::Incomplete { need_at_least: 12 });

    // eleven of the twelve bytes are still one too few
    bytes.extend_from_slice(&[0; 11]);
    assert_eq!(parse_v2_header(&bytes), DecodeOutcome::Incomplete { need_at_least: 1 });
}

#[test]
fn unspec_block_kept_verbatim_with_trailing_payload() {
    let mut bytes: Vec<u8> = b"\r\n\r\n\0\r\nQUIT\n\x20\x01\x00\x03".to_vec();
    bytes.extend_from_slice(&[0xAA, 0x00, 0xBB]);
    bytes.extend_from_slice(b"proxied payload");
    let result = parse_v2_header(&bytes);

    let expected = Header {
        version: Version::Two,
        command: Command::Local,
        protocol: TransportProtocol::Stream,
        address_family: AddressFamily::Unspec,
        address: Address::Unspec(vec![0xAA, 0x00, 0xBB]),
    };
    assert_eq!(result, DecodeOutcome::Decoded { header: expected, consumed: 19 });
}
