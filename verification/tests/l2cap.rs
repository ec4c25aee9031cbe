use ble_hci_codec::vendor::command::l2cap::{
    L2CapCocConnect, L2CapCocConnectConfirm, L2CapCocReconfig,
};
use ble_hci_codec::ConnectionHandle;

fn table() -> [u8; 246] {
    let mut list = [0u8; 246];
    for (i, entry) in list.iter_mut().enumerate() {
        *entry = (i + 1) as u8;
    }
    list
}

#[test]
fn coc_connect_is_eleven_bytes() {
    let params = L2CapCocConnect {
        conn_handle: ConnectionHandle(0x0801),
        spsm: 0x0080,
        mtu: 0x0201,
        mps: 0x00f8,
        initial_credits: 0xfffe,
        channel_number: 5,
    };
    let mut bytes = [0u8; 11];
    params.copy_into_slice(&mut bytes);
    assert_eq!(
        bytes,
        [0x01, 0x08, 0x80, 0x00, 0x01, 0x02, 0xf8, 0x00, 0xfe, 0xff, 0x05]
    );
}

#[test]
fn coc_connect_confirm_header_then_table() {
    let params = L2CapCocConnectConfirm {
        conn_handle: ConnectionHandle(0x0801),
        mtu: 0x0017,
        mps: 0x00f8,
        initial_credits: 0x0102,
        result: 0x000c,
        channel_number: 3,
        channel_index_list: table(),
    };
    let mut bytes = [0xeeu8; 258];
    params.copy_into_slice(&mut bytes);
    assert_eq!(
        bytes[..11],
        [0x01, 0x08, 0x17, 0x00, 0xf8, 0x00, 0x02, 0x01, 0x0c, 0x00, 0x03]
    );
    assert_eq!(bytes[11..257], table());
    assert_eq!(bytes[257], 0xee);
}

#[test]
fn coc_reconfig_header_then_table() {
    let params = L2CapCocReconfig {
        conn_handle: ConnectionHandle(0xabcd),
        mtu: 0xffff,
        mps: 0x0017,
        channel_number: 1,
        channel_index_list: table(),
    };
    let mut bytes = [0xeeu8; 254];
    params.copy_into_slice(&mut bytes);
    assert_eq!(bytes[..7], [0xcd, 0xab, 0xff, 0xff, 0x17, 0x00, 0x01]);
    assert_eq!(bytes[7..253], table());
    assert_eq!(bytes[253], 0xee);
}

#[test]
fn coc_reconfig_into_a_longer_buffer() {
    let params = L2CapCocReconfig {
        conn_handle: ConnectionHandle(1),
        mtu: 2,
        mps: 3,
        channel_number: 4,
        channel_index_list: [9u8; 246],
    };
    let mut bytes = [0x11u8; 300];
    params.copy_into_slice(&mut bytes);
    assert_eq!(bytes[..7], [1, 0, 2, 0, 3, 0, 4]);
    assert_eq!(bytes[7..253], [9u8; 246]);
    assert_eq!(bytes[253..], [0x11u8; 47]);
}

#[test]
fn transmitted_length_counts_one_entry_per_channel() {
    let mut confirm = L2CapCocConnectConfirm {
        conn_handle: ConnectionHandle(1),
        mtu: 23,
        mps: 23,
        initial_credits: 0,
        result: 0,
        channel_number: 0,
        channel_index_list: [0u8; 246],
    };
    assert_eq!(confirm.length(), 11);
    confirm.channel_number = 5;
    assert_eq!(confirm.length(), 16);
    confirm.channel_number = 246;
    assert_eq!(confirm.length(), 257);
    confirm.channel_number = 255;
    assert_eq!(confirm.length(), 257);
    let mut reconfig = L2CapCocReconfig {
        conn_handle: ConnectionHandle(1),
        mtu: 23,
        mps: 23,
        channel_number: 0,
        channel_index_list: [0u8; 246],
    };
    assert_eq!(reconfig.length(), 7);
    reconfig.channel_number = 3;
    assert_eq!(reconfig.length(), 10);
    reconfig.channel_number = 247;
    assert_eq!(reconfig.length(), 253);
}
