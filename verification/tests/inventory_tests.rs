use gateway_sp_comms::error::{CommunicationError, TlvPaginationError};
use gateway_sp_comms::inventory::{
    device_tag, encode_device_record, parse_device_record, SpDevice,
};
use gateway_sp_comms::types::{DeviceCapabilities, DevicePresence, SpComponent};

fn sample_device() -> SpDevice {
    let mut id = [0u8; 16];
    id[0] = b't';
    id[1] = b'm';
    id[2] = b'p';
    SpDevice {
        component: SpComponent { id },
        device: "tmp117".to_string(),
        description: "temp sensor — north".to_string(),
        capabilities: DeviceCapabilities { bits: 0x5 },
        presence: DevicePresence::Present,
    }
}

fn encoded(d: &SpDevice) -> Vec<u8> {
    let mut out = Vec::new();
    encode_device_record(d, &mut out);
    out
}

#[test]
fn device_record_round_trips() {
    let d = sample_device();
    let got = parse_device_record(&encoded(&d)).unwrap().unwrap();
    assert_eq!(got, d);
}

#[test]
fn device_record_layout_is_exact() {
    let d = SpDevice {
        component: SpComponent { id: [9u8; 16] },
        device: "ab".to_string(),
        description: "c".to_string(),
        capabilities: DeviceCapabilities { bits: 0x0102_0304 },
        presence: DevicePresence::Failed,
    };
    let bytes = encoded(&d);
    let mut expected = vec![9u8; 16];
    expected.extend_from_slice(&[2, 0, 0, 0]); // device length
    expected.extend_from_slice(&[1, 0, 0, 0]); // description length
    expected.extend_from_slice(&[4, 3, 2, 1]); // capabilities, little endian
    expected.push(2); // presence: failed
    expected.extend_from_slice(b"abc");
    assert_eq!(bytes, expected);
}

#[test]
fn device_record_length_mismatch_is_rejected() {
    let d = sample_device();
    let mut bytes = encoded(&d);
    bytes.push(0); // one byte more than the header's lengths
    assert_eq!(
        parse_device_record(&bytes).unwrap_err(),
        CommunicationError::TlvPagination { reason: TlvPaginationError::LengthMismatch }
    );
}

#[test]
fn device_record_non_utf8_device_is_rejected() {
    let d = SpDevice { device: "xy".to_string(), ..sample_device() };
    let mut bytes = encoded(&d);
    bytes[29] = 0xFF; // first device byte: not UTF-8
    assert_eq!(
        parse_device_record(&bytes).unwrap_err(),
        CommunicationError::TlvPagination { reason: TlvPaginationError::NotUtf8Device }
    );
}

#[test]
fn device_record_non_utf8_description_is_rejected() {
    let d = SpDevice { device: "xy".to_string(), ..sample_device() };
    let mut bytes = encoded(&d);
    let n = bytes.len();
    bytes[n - 1] = 0xFE; // last description byte: not UTF-8
    assert_eq!(
        parse_device_record(&bytes).unwrap_err(),
        CommunicationError::TlvPagination { reason: TlvPaginationError::NotUtf8Description }
    );
}

#[test]
fn device_record_bad_presence_is_rejected() {
    let d = sample_device();
    let mut bytes = encoded(&d);
    bytes[28] = 17; // no such presence
    assert_eq!(
        parse_device_record(&bytes).unwrap_err(),
        CommunicationError::TlvDeserialize { tag: device_tag() }
    );
}

#[test]
fn device_record_short_value_is_rejected() {
    assert_eq!(
        parse_device_record(&[0u8; 28]).unwrap_err(),
        CommunicationError::TlvDeserialize { tag: device_tag() }
    );
}
