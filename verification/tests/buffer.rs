use packet_codec::TxPacket;

#[test]
fn new_buffer_is_empty() {
    let packet = TxPacket::new(16);
    let bytes = packet.into_boxed_slice();
    assert_eq!(bytes.len(), 0);
}

#[test]
fn push_bytes_returns_start_offsets() {
    let mut packet = TxPacket::new(8);
    assert_eq!(packet.push_bytes(&[1, 2, 3]), Ok(0));
    assert_eq!(packet.push_bytes(&[4, 5]), Ok(3));
    let bytes = packet.into_boxed_slice();
    assert_eq!(&bytes[..], &[1, 2, 3, 4, 5]);
}

#[test]
fn push_bytes_fails_beyond_capacity_and_leaves_buffer_unchanged() {
    let mut packet = TxPacket::new(4);
    assert_eq!(packet.push_bytes(&[1, 2]), Ok(0));
    // Three more bytes do not fit into the two remaining.
    assert_eq!(packet.push_bytes(&[9, 9, 9]), Err(()));
    // The failed push wrote nothing: the next offset is still 2.
    assert_eq!(packet.push_bytes(&[3, 4]), Ok(2));
    let bytes = packet.into_boxed_slice();
    assert_eq!(&bytes[..], &[1, 2, 3, 4]);
}

#[test]
fn push_bytes_fails_on_zero_capacity() {
    let mut packet = TxPacket::new(0);
    assert_eq!(packet.push_bytes(&[1]), Err(()));
    assert_eq!(packet.push_bytes(&[]), Ok(0));
}

#[test]
fn push_byte_appends_one_byte() {
    let mut packet = TxPacket::new(2);
    assert_eq!(packet.push_byte(0xab), Ok(0));
    assert_eq!(packet.push_byte(0xcd), Ok(1));
    assert_eq!(packet.push_byte(0xef), Err(()));
    let bytes = packet.into_boxed_slice();
    assert_eq!(&bytes[..], &[0xab, 0xcd]);
}

#[test]
fn push_u16_writes_network_order() {
    let mut packet = TxPacket::new(2);
    assert_eq!(packet.push_u16(0x1234), Ok(0));
    let bytes = packet.into_boxed_slice();
    assert_eq!(&bytes[..], &[0x12, 0x34]);
}

#[test]
fn push_u32_writes_network_order() {
    let mut packet = TxPacket::new(4);
    assert_eq!(packet.push_u32(0xdead_beef), Ok(0));
    let bytes = packet.into_boxed_slice();
    assert_eq!(&bytes[..], &[0xde, 0xad, 0xbe, 0xef]);
}

#[test]
fn get_bytes_returns_written_range() {
    let mut packet = TxPacket::new(6);
    packet.push_bytes(&[10, 20, 30, 40]).unwrap();
    assert_eq!(packet.get_bytes(1, 2), &[20, 30]);
    assert_eq!(packet.get_bytes(0, 4), &[10, 20, 30, 40]);
}

#[test]
fn set_bytes_overwrites_in_place() {
    let mut packet = TxPacket::new(4);
    packet.push_bytes(&[1, 2, 3, 4]).unwrap();
    packet.set_bytes(1, &[8, 9]);
    let bytes = packet.into_boxed_slice();
    assert_eq!(&bytes[..], &[1, 8, 9, 4]);
}

#[test]
fn backpatch_length_field_after_inner_write() {
    // The two-phase pattern every outer layer uses: reserve a length field
    // with a placeholder, let the inner payload be written, then patch the
    // field with the now-known total length.
    let mut packet = TxPacket::new(6);
    let length_offset = packet.push_u16(0).unwrap();
    packet.push_bytes(&[7, 7, 7, 7]).unwrap();
    packet.set_u16(length_offset, 6);
    assert_eq!(packet.get_bytes(length_offset, 2), &[0, 6]);
    let bytes = packet.into_boxed_slice();
    assert_eq!(&bytes[..], &[0, 6, 7, 7, 7, 7]);
}

#[test]
fn update_u16_applies_transformation_to_stored_value() {
    let mut packet = TxPacket::new(4);
    packet.push_u16(0x00ff).unwrap();
    packet.push_u16(0xffff).unwrap();
    packet.update_u16(0, |value| value.wrapping_add(1));
    assert_eq!(packet.get_bytes(0, 2), &[0x01, 0x00]);
    // The neighbouring field is untouched.
    assert_eq!(packet.get_bytes(2, 2), &[0xff, 0xff]);
}
