use ble_hci_codec::event::{Event, EventError};
use ble_hci_codec::opcode::Opcode;

#[test]
fn command_complete_is_decoded() {
    let packet = [0x0e, 0x05, 0x01, 0x81, 0xfd, 0x00, 0x42];
    match Event::new(&packet) {
        Ok(Event::CommandComplete {
            num_hci_command_packets,
            opcode,
            return_params,
        }) => {
            assert_eq!(num_hci_command_packets, 1);
            assert_eq!(opcode, Opcode(0xfd81));
            assert_eq!(return_params, [0x00, 0x42]);
        }
        other => panic!("decoded as {:?}", other),
    }
}

#[test]
fn command_complete_without_return_parameters() {
    let packet = [0x0e, 0x03, 0x02, 0x03, 0x0c];
    match Event::new(&packet) {
        Ok(Event::CommandComplete {
            num_hci_command_packets,
            opcode,
            return_params,
        }) => {
            assert_eq!(num_hci_command_packets, 2);
            assert_eq!(opcode, Opcode(0x0c03));
            assert!(return_params.is_empty());
        }
        other => panic!("decoded as {:?}", other),
    }
}

#[test]
fn command_status_is_decoded() {
    let packet = [0x0f, 0x04, 0x12, 0x01, 0x82, 0xfd];
    match Event::new(&packet) {
        Ok(Event::CommandStatus {
            status,
            num_hci_command_packets,
            opcode,
        }) => {
            assert_eq!(status, 0x12);
            assert_eq!(num_hci_command_packets, 1);
            assert_eq!(opcode, Opcode(0xfd82));
        }
        other => panic!("decoded as {:?}", other),
    }
}

#[test]
fn vendor_event_keeps_its_code_and_parameters() {
    let packet = [0xff, 0x05, 0x00, 0x08, 0x01, 0x02, 0x03];
    match Event::new(&packet) {
        Ok(Event::Vendor { code, params }) => {
            assert_eq!(code, 0x0800);
            assert_eq!(params, [0x01, 0x02, 0x03]);
        }
        other => panic!("decoded as {:?}", other),
    }
}

#[test]
fn unknown_code_is_an_unrecognized_event() {
    let packet = [0x3e, 0x02, 0xaa, 0xbb];
    match Event::new(&packet) {
        Ok(Event::Unrecognized { code, params }) => {
            assert_eq!(code, 0x3e);
            assert_eq!(params, [0xaa, 0xbb]);
        }
        other => panic!("decoded as {:?}", other),
    }
    let packet = [0x00, 0x00];
    match Event::new(&packet) {
        Ok(Event::Unrecognized { code, params }) => {
            assert_eq!(code, 0x00);
            assert!(params.is_empty());
        }
        other => panic!("decoded as {:?}", other),
    }
}

#[test]
fn packet_without_header_is_refused() {
    assert_eq!(Event::new(&[]).err(), Some(EventError::MissingHeader(0)));
    assert_eq!(Event::new(&[0x0e]).err(), Some(EventError::MissingHeader(1)));
}

#[test]
fn wrong_length_byte_is_refused() {
    assert_eq!(
        Event::new(&[0x0e, 0x04, 0x01, 0x81, 0xfd]).err(),
        Some(EventError::BadLength(4, 3))
    );
    assert_eq!(
        Event::new(&[0x3e, 0x00, 0x01]).err(),
        Some(EventError::BadLength(0, 1))
    );
}

#[test]
fn wrong_parameter_length_is_refused() {
    assert_eq!(
        Event::new(&[0x0e, 0x02, 0x01, 0x81]).err(),
        Some(EventError::BadParameterLength(0x0e, 2))
    );
    assert_eq!(
        Event::new(&[0x0f, 0x03, 0x00, 0x01, 0x81]).err(),
        Some(EventError::BadParameterLength(0x0f, 3))
    );
    assert_eq!(
        Event::new(&[0x0f, 0x05, 0x00, 0x01, 0x81, 0xfd, 0x00]).err(),
        Some(EventError::BadParameterLength(0x0f, 5))
    );
    assert_eq!(
        Event::new(&[0xff, 0x01, 0x00]).err(),
        Some(EventError::BadParameterLength(0xff, 1))
    );
}

#[test]
fn longest_event_is_decoded() {
    let mut packet = [0x77u8; 257];
    packet[0] = 0xff;
    packet[1] = 0xff;
    packet[2] = 0x10;
    packet[3] = 0x08;
    match Event::new(&packet) {
        Ok(Event::Vendor { code, params }) => {
            assert_eq!(code, 0x0810);
            assert_eq!(params, [0x77u8; 253]);
        }
        other => panic!("decoded as {:?}", other),
    }
}
