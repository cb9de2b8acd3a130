use packet_codec::dns::{DnsHeader, DnsOpcode, DnsPacket};
use packet_codec::parse::{Parse, ParseError};
use packet_codec::{TxPacket, WriteOut};

fn query_packet(id: u16, hostname: &str) -> DnsPacket {
    DnsPacket {
        header: DnsHeader { id, query_response: false, opcode: DnsOpcode::Query },
        hostname: hostname.to_string(),
    }
}

/// Twelve header bytes (id, flags, zero counts) followed by `rest`.
fn wire_bytes(id: u16, flags: u16, rest: &[u8]) -> Vec<u8> {
    let mut bytes = vec![
        (id >> 8) as u8,
        (id & 0xff) as u8,
        (flags >> 8) as u8,
        (flags & 0xff) as u8,
        0,
        0,
        0,
        0,
        0,
        0,
        0,
        0,
    ];
    bytes.extend_from_slice(rest);
    bytes
}

#[test]
fn round_trip_query() {
    let packet = query_packet(0x1234, "foobar");
    let tx = TxPacket::write_out(packet.clone()).unwrap();
    let bytes = tx.into_boxed_slice();
    assert_eq!(
        &bytes[..],
        &[0x12, 0x34, 0, 0, 0, 0, 0, 0, 0, 0, 0, 0, 6, b'f', b'o', b'o', b'b', b'a', b'r', 0],
    );
    let parsed = DnsPacket::parse(&bytes).unwrap();
    assert_eq!(parsed, packet);
}

#[test]
fn round_trip_empty_hostname() {
    let packet = query_packet(7, "");
    let tx = TxPacket::write_out(packet.clone()).unwrap();
    let bytes = tx.into_boxed_slice();
    assert_eq!(&bytes[..], &[0, 7, 0, 0, 0, 0, 0, 0, 0, 0, 0, 0, 0]);
    let parsed = DnsPacket::parse(&bytes).unwrap();
    assert_eq!(parsed, packet);
}

#[test]
fn round_trip_response_header() {
    let packet = DnsPacket {
        header: DnsHeader { id: 0xbeef, query_response: true, opcode: DnsOpcode::Status },
        hostname: String::new(),
    };
    let tx = TxPacket::write_out(packet.clone()).unwrap();
    let bytes = tx.into_boxed_slice();
    // Bit 15 set and opcode 2 in bits [11, 15).
    assert_eq!(bytes[2], 0x90);
    assert_eq!(bytes[3], 0x00);
    let parsed = DnsPacket::parse(&bytes).unwrap();
    assert_eq!(parsed, packet);
}

#[test]
fn round_trip_multibyte_hostname() {
    let packet = query_packet(1, "h\u{e9}llo");
    let tx = TxPacket::write_out(packet.clone()).unwrap();
    let bytes = tx.into_boxed_slice();
    let parsed = DnsPacket::parse(&bytes).unwrap();
    assert_eq!(parsed, packet);
}

#[test]
fn encoded_length_matches_bytes_written() {
    for hostname in ["", "a", "some.long.hostname"] {
        let packet = query_packet(9, hostname);
        let expected = packet.len();
        let tx = TxPacket::write_out(packet).unwrap();
        assert_eq!(tx.into_boxed_slice().len(), expected);
    }
}

#[test]
fn write_out_fails_when_buffer_too_small() {
    let packet = query_packet(1, "foo");
    let mut tx = TxPacket::new(5);
    assert_eq!(packet.write_out(&mut tx), Err(()));
}

#[test]
fn query_name_parses_from_labels() {
    // Labels "foo" and "bar" concatenate without separators, and the walk
    // stops at the zero terminator: the trailing bytes change nothing.
    let bytes = wire_bytes(0, 0, &[3, b'f', b'o', b'o', 3, b'b', b'a', b'r', 0, 0x51, 0x52]);
    let parsed = DnsPacket::parse(&bytes).unwrap();
    assert_eq!(parsed.header.opcode, DnsOpcode::Query);
    assert_eq!(parsed.hostname, "foobar");
}

#[test]
fn truncated_header_is_error() {
    assert_eq!(DnsPacket::parse(&[]), Err(ParseError::Truncated));
    assert_eq!(DnsPacket::parse(&[0, 1, 2]), Err(ParseError::Truncated));
}

#[test]
fn truncated_query_before_first_label_is_error() {
    // A query whose bytes end before the first label length at offset 12.
    let bytes = [0u8, 1, 0, 0, 0, 0, 0, 0];
    assert_eq!(DnsPacket::parse(&bytes), Err(ParseError::Truncated));
}

#[test]
fn unknown_opcode_decodes_to_other() {
    // Opcode bits holding 9, outside the named range 0 through 5.
    let bytes = wire_bytes(0x0001, 9 << 11, &[]);
    let parsed = DnsPacket::parse(&bytes).unwrap();
    assert_eq!(parsed.header.opcode, DnsOpcode::Other(9));
    assert_eq!(parsed.hostname, "");
}

#[test]
fn named_opcodes_decode_to_their_variants() {
    let expected = [
        DnsOpcode::Query,
        DnsOpcode::Inverse_Query,
        DnsOpcode::Status,
        DnsOpcode::Reserved,
        DnsOpcode::Notify,
        DnsOpcode::Update,
    ];
    for (value, opcode) in expected.iter().enumerate() {
        let mut rest = vec![];
        if *opcode == DnsOpcode::Query {
            rest.push(0);
        }
        let bytes = wire_bytes(0, (value as u16) << 11, &rest);
        let parsed = DnsPacket::parse(&bytes).unwrap();
        assert_eq!(parsed.header.opcode, *opcode);
    }
}

#[test]
fn query_response_bit_decodes() {
    let query = DnsPacket::parse(&wire_bytes(0, 0, &[0])).unwrap();
    assert!(!query.header.query_response);
    let response = DnsPacket::parse(&wire_bytes(0, 0x8000, &[0])).unwrap();
    assert!(response.header.query_response);
}

#[test]
fn overlong_label_stops_walk_with_name_so_far() {
    // The second label claims 200 bytes but only two remain: the walk keeps
    // the first label and reads no further.
    let bytes = wire_bytes(0, 0, &[3, b'f', b'o', b'o', 200, 1, 2]);
    let parsed = DnsPacket::parse(&bytes).unwrap();
    assert_eq!(parsed.hostname, "foo");
}

#[test]
fn overlong_first_label_yields_empty_name() {
    let bytes = wire_bytes(0, 0, &[5, b'a', b'b']);
    let parsed = DnsPacket::parse(&bytes).unwrap();
    assert_eq!(parsed.hostname, "");
}

#[test]
fn label_ending_exactly_at_slice_end_is_not_read() {
    // The label fits, but its terminator would lie past the end, so the walk
    // stops before reading it.
    let bytes = wire_bytes(0, 0, &[3, b'f', b'o', b'o']);
    let parsed = DnsPacket::parse(&bytes).unwrap();
    assert_eq!(parsed.hostname, "");
}

#[test]
fn invalid_utf8_label_is_skipped() {
    let bytes = wire_bytes(0, 0, &[2, 0xff, 0xfe, 2, b'o', b'k', 0]);
    let parsed = DnsPacket::parse(&bytes).unwrap();
    assert_eq!(parsed.hostname, "ok");
}

#[test]
fn non_query_opcode_skips_name_parsing() {
    // The same label bytes follow, but a Status header parses no name.
    let bytes = wire_bytes(3, 2 << 11, &[3, b'f', b'o', b'o', 0]);
    let parsed = DnsPacket::parse(&bytes).unwrap();
    assert_eq!(parsed.header.opcode, DnsOpcode::Status);
    assert_eq!(parsed.hostname, "");
}
