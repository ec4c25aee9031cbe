use ble_hci_codec::command::copy_command_into_slice;
use ble_hci_codec::opcode::Opcode;
use ble_hci_codec::vendor::command::l2cap::L2CapCocConnect;
use ble_hci_codec::wire::copy_bytes;
use ble_hci_codec::ConnectionHandle;

#[test]
fn opcode_packs_group_and_command() {
    assert_eq!(Opcode::new(0x3f, 0x0181), Opcode(0xfd81));
    assert_eq!(Opcode::new(0x01, 0x0006), Opcode(0x0406));
    assert_eq!(Opcode::new(0, 0), Opcode(0));
    assert_eq!(Opcode::new(0x3f, 0x03ff), Opcode(0xffff));
}

#[test]
fn opcode_drops_bits_without_room() {
    assert_eq!(Opcode::new(0x40, 0x0400), Opcode(0));
    assert_eq!(Opcode::new(0x7f, 0x07ff), Opcode(0xffff));
}

#[test]
fn opcode_fields_come_back() {
    let opcode = Opcode::new(0x3f, 0x0181);
    assert_eq!(opcode.ogf(), 0x3f);
    assert_eq!(opcode.ocf(), 0x0181);
    assert_eq!(Opcode(0x0c03).ogf(), 0x03);
    assert_eq!(Opcode(0x0c03).ocf(), 0x0003);
    for raw in [0u16, 1, 0x03ff, 0x0400, 0x1234, 0xfd81, 0xffff] {
        let opcode = Opcode(raw);
        assert_eq!(Opcode::new(opcode.ogf(), opcode.ocf()), opcode);
    }
}

#[test]
fn command_packet_is_opcode_length_parameters() {
    let mut packet = [0xeeu8; 8];
    let written = copy_command_into_slice(Opcode(0xfd81), &[1, 2, 3], &mut packet);
    assert_eq!(written, 6);
    assert_eq!(packet, [0x81, 0xfd, 0x03, 0x01, 0x02, 0x03, 0xee, 0xee]);
}

#[test]
fn command_packet_without_parameters() {
    let mut packet = [0xeeu8; 3];
    let written = copy_command_into_slice(Opcode(0x0c03), &[], &mut packet);
    assert_eq!(written, 3);
    assert_eq!(packet, [0x03, 0x0c, 0x00]);
}

#[test]
fn command_packet_with_the_longest_parameters() {
    let params = [0x5au8; 255];
    let mut packet = [0u8; 258];
    let written = copy_command_into_slice(Opcode(0x0001), &params, &mut packet);
    assert_eq!(written, 258);
    assert_eq!(packet[..3], [0x01, 0x00, 0xff]);
    assert_eq!(packet[3..], params);
}

#[test]
fn command_packet_around_serialized_parameters() {
    let params = L2CapCocConnect {
        conn_handle: ConnectionHandle(0x0801),
        spsm: 0x0080,
        mtu: 23,
        mps: 23,
        initial_credits: 1,
        channel_number: 0,
    };
    let mut bytes = [0u8; 11];
    params.copy_into_slice(&mut bytes);
    let mut packet = [0u8; 14];
    let written = copy_command_into_slice(Opcode::new(0x3f, 0x0185), &bytes, &mut packet);
    assert_eq!(written, 14);
    assert_eq!(
        packet,
        [0x85, 0xfd, 11, 0x01, 0x08, 0x80, 0x00, 23, 0, 23, 0, 1, 0, 0]
    );
}

#[test]
fn copy_bytes_overwrites_only_its_range() {
    let mut bytes = [0u8; 6];
    copy_bytes(&mut bytes, 2, &[7, 8, 9]);
    assert_eq!(bytes, [0, 0, 7, 8, 9, 0]);
    copy_bytes(&mut bytes, 6, &[]);
    assert_eq!(bytes, [0, 0, 7, 8, 9, 0]);
    copy_bytes(&mut bytes, 0, &[1, 2, 3, 4, 5, 6]);
    assert_eq!(bytes, [1, 2, 3, 4, 5, 6]);
}
