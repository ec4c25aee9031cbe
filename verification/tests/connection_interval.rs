use ble_hci_codec::types::{
    ConnectionInterval, ConnectionIntervalError, ExpectedConnectionLength,
    ExpectedConnectionLengthError,
};
use ble_hci_codec::vendor::command::l2cap::{
    ConnectionParameterUpdateRequest, ConnectionParameterUpdateResponse,
};
use ble_hci_codec::ConnectionHandle;
use core::time::Duration;

fn ms(n: u64) -> Duration {
    Duration::from_millis(n)
}

#[test]
fn connection_interval_is_four_little_endian_fields() {
    let interval = ConnectionInterval::new(ms(50), ms(500), 10, ms(15_000)).unwrap();
    let mut bytes = [0xeeu8; 9];
    interval.copy_into_slice(&mut bytes);
    // 50 ms = 40 units, 500 ms = 400 units, 15 s = 1500 units
    assert_eq!(bytes, [0x28, 0x00, 0x90, 0x01, 0x0a, 0x00, 0xdc, 0x05, 0xee]);
}

#[test]
fn connection_interval_limits_are_accepted() {
    let shortest = Duration::from_micros(7_500);
    let interval = ConnectionInterval::new(shortest, Duration::from_secs(4), 0, ms(32_000))
        .unwrap();
    let mut bytes = [0u8; 8];
    interval.copy_into_slice(&mut bytes);
    // 7.5 ms = 6 units, 4 s = 3200 units, 32 s = 3200 units
    assert_eq!(bytes, [0x06, 0x00, 0x80, 0x0c, 0x00, 0x00, 0x80, 0x0c]);
    let interval = ConnectionInterval::new(shortest, shortest, 499, ms(7_501)).unwrap();
    interval.copy_into_slice(&mut bytes);
    assert_eq!(bytes, [0x06, 0x00, 0x06, 0x00, 0xf3, 0x01, 0xee, 0x02]);
}

#[test]
fn connection_interval_units_truncate() {
    let interval =
        ConnectionInterval::new(Duration::from_micros(8_749), Duration::from_micros(8_750), 0, ms(109))
            .unwrap();
    let mut bytes = [0u8; 8];
    interval.copy_into_slice(&mut bytes);
    assert_eq!(bytes, [0x06, 0x00, 0x07, 0x00, 0x00, 0x00, 0x0a, 0x00]);
}

#[test]
fn connection_interval_written_at_an_offset() {
    let interval = ConnectionInterval::new(ms(10), ms(20), 1, ms(100)).unwrap();
    let mut bytes = [0x11u8; 12];
    interval.copy_into_slice_at(&mut bytes, 3);
    assert_eq!(
        bytes,
        [0x11, 0x11, 0x11, 0x08, 0x00, 0x10, 0x00, 0x01, 0x00, 0x0a, 0x00, 0x11]
    );
}

#[test]
fn connection_interval_errors() {
    let short = Duration::from_micros(7_499);
    assert_eq!(
        ConnectionInterval::new(short, ms(10), 0, ms(100)).err(),
        Some(ConnectionIntervalError::IntervalTooShort(short))
    );
    let long = ms(4_001);
    assert_eq!(
        ConnectionInterval::new(ms(10), long, 0, ms(32_000)).err(),
        Some(ConnectionIntervalError::IntervalTooLong(long))
    );
    assert_eq!(
        ConnectionInterval::new(ms(20), ms(10), 0, ms(100)).err(),
        Some(ConnectionIntervalError::IntervalInverted(ms(20), ms(10)))
    );
    assert_eq!(
        ConnectionInterval::new(ms(10), ms(10), 500, ms(32_000)).err(),
        Some(ConnectionIntervalError::BadConnectionLatency(500))
    );
    assert_eq!(
        ConnectionInterval::new(ms(10), ms(10), 0, ms(99)).err(),
        Some(ConnectionIntervalError::SupervisionTimeoutTooShort(ms(99)))
    );
    assert_eq!(
        ConnectionInterval::new(ms(10), ms(10), 0, ms(32_001)).err(),
        Some(ConnectionIntervalError::SupervisionTimeoutTooLong(ms(32_001)))
    );
}

#[test]
fn supervision_timeout_must_exceed_the_latency_window() {
    // 2 * (1 + 4) * 100 ms = 1 s
    assert_eq!(
        ConnectionInterval::new(ms(50), ms(100), 4, ms(1_000)).err(),
        Some(ConnectionIntervalError::SupervisionTimeoutWithinLatency(ms(1_000)))
    );
    assert!(ConnectionInterval::new(ms(50), ms(100), 4, ms(1_001)).is_ok());
    // 2 * (1 + 499) * 4 s is beyond every timeout
    assert_eq!(
        ConnectionInterval::new(ms(50), ms(4_000), 499, ms(32_000)).err(),
        Some(ConnectionIntervalError::SupervisionTimeoutWithinLatency(ms(32_000)))
    );
}

#[test]
fn connection_interval_errors_come_in_order() {
    let short = ms(1);
    assert_eq!(
        ConnectionInterval::new(short, ms(5_000), 1_000, ms(1)).err(),
        Some(ConnectionIntervalError::IntervalTooShort(short))
    );
    assert_eq!(
        ConnectionInterval::new(ms(6_000), ms(5_000), 1_000, ms(1)).err(),
        Some(ConnectionIntervalError::IntervalTooLong(ms(5_000)))
    );
    assert_eq!(
        ConnectionInterval::new(ms(10), ms(20), 1_000, ms(1)).err(),
        Some(ConnectionIntervalError::BadConnectionLatency(1_000))
    );
}

#[test]
fn expected_connection_length_is_two_little_endian_fields() {
    let range = ExpectedConnectionLength::new(ms(500), ms(1_250)).unwrap();
    let mut bytes = [0xeeu8; 5];
    range.copy_into_slice(&mut bytes);
    // 500 ms = 800 ticks, 1.25 s = 2000 ticks
    assert_eq!(bytes, [0x20, 0x03, 0xd0, 0x07, 0xee]);
}

#[test]
fn expected_connection_length_limits() {
    let longest = Duration::from_micros(40_959_375);
    let range = ExpectedConnectionLength::new(Duration::from_secs(0), longest).unwrap();
    let mut bytes = [0u8; 4];
    range.copy_into_slice(&mut bytes);
    assert_eq!(bytes, [0x00, 0x00, 0xff, 0xff]);
    let too_long = Duration::from_nanos(40_959_375_001);
    assert_eq!(
        ExpectedConnectionLength::new(ms(1), too_long).err(),
        Some(ExpectedConnectionLengthError::TooLong(too_long))
    );
    assert_eq!(
        ExpectedConnectionLength::new(ms(2), ms(1)).err(),
        Some(ExpectedConnectionLengthError::Inverted(ms(2), ms(1)))
    );
    assert_eq!(
        ExpectedConnectionLength::new(Duration::from_secs(50), Duration::from_secs(45)).err(),
        Some(ExpectedConnectionLengthError::TooLong(Duration::from_secs(45)))
    );
}

#[test]
fn expected_connection_length_written_at_an_offset() {
    let range = ExpectedConnectionLength::new(Duration::from_micros(625), Duration::from_micros(1_249))
        .unwrap();
    let mut bytes = [0x11u8; 6];
    range.copy_into_slice_at(&mut bytes, 2);
    assert_eq!(bytes, [0x11, 0x11, 0x01, 0x00, 0x01, 0x00]);
}

#[test]
fn update_request_is_ten_bytes() {
    let params = ConnectionParameterUpdateRequest {
        conn_handle: ConnectionHandle(0x0201),
        conn_interval: ConnectionInterval::new(ms(30), ms(300), 10, ms(10_000)).unwrap(),
    };
    let mut bytes = [0u8; 10];
    params.copy_into_slice(&mut bytes);
    assert_eq!(
        bytes,
        [0x01, 0x02, 0x18, 0x00, 0xf0, 0x00, 0x0a, 0x00, 0xe8, 0x03]
    );
}

#[test]
fn update_response_is_sixteen_bytes() {
    let mut params = ConnectionParameterUpdateResponse {
        conn_handle: ConnectionHandle(0x0201),
        conn_interval: ConnectionInterval::new(ms(30), ms(300), 10, ms(10_000)).unwrap(),
        expected_connection_length_range: ExpectedConnectionLength::new(ms(500), ms(1_250))
            .unwrap(),
        identifier: 0x10,
        accepted: true,
    };
    let mut bytes = [0u8; 16];
    params.copy_into_slice(&mut bytes);
    assert_eq!(
        bytes,
        [
            0x01, 0x02, 0x18, 0x00, 0xf0, 0x00, 0x0a, 0x00, 0xe8, 0x03, 0x20, 0x03, 0xd0, 0x07,
            0x10, 0x01
        ]
    );
    params.accepted = false;
    params.copy_into_slice(&mut bytes);
    assert_eq!(bytes[14..], [0x10, 0x00]);
}

#[test]
fn connection_interval_hands_its_parts_back() {
    let interval = ConnectionInterval::new(ms(50), ms(500), 10, ms(15_000)).unwrap();
    assert_eq!(interval.interval(), (ms(50), ms(500)));
    assert_eq!(interval.conn_latency(), 10);
    assert_eq!(interval.supervision_timeout(), ms(15_000));
}
