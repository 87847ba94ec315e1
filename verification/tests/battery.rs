use headset_battery::codec::{battery_packet, decode_response};
use headset_battery::locator::{is_whitelisted, locate, DeviceIdentity};
use headset_battery::DeviceError;

#[test]
fn locate_returns_first_match() {
    let devices = vec![
        DeviceIdentity { vendor_id: 0x1234, product_id: 0x5678 },
        DeviceIdentity { vendor_id: 0x0951, product_id: 0x1718 },
        DeviceIdentity { vendor_id: 0x03F0, product_id: 0x018B },
    ];
    assert_eq!(locate(&devices), Ok(1));
}

#[test]
fn locate_accepts_cross_pairings() {
    let devices = vec![DeviceIdentity { vendor_id: 0x0951, product_id: 0x018B }];
    assert_eq!(locate(&devices), Ok(0));
    let devices = vec![DeviceIdentity { vendor_id: 0x03F0, product_id: 0x1718 }];
    assert_eq!(locate(&devices), Ok(0));
}

#[test]
fn locate_empty_list_fails() {
    let devices: Vec<DeviceIdentity> = Vec::new();
    assert_eq!(locate(&devices), Err(DeviceError::NoDeviceFound()));
}

#[test]
fn locate_without_match_fails() {
    let devices = vec![
        DeviceIdentity { vendor_id: 0x0951, product_id: 0x5678 },
        DeviceIdentity { vendor_id: 0x1234, product_id: 0x1718 },
        DeviceIdentity { vendor_id: 0xFFFF, product_id: 0xFFFF },
    ];
    assert_eq!(locate(&devices), Err(DeviceError::NoDeviceFound()));
}

#[test]
fn whitelist_needs_both_ids() {
    assert!(is_whitelisted(&DeviceIdentity { vendor_id: 0x0951, product_id: 0x1718 }));
    assert!(is_whitelisted(&DeviceIdentity { vendor_id: 0x03F0, product_id: 0x018B }));
    assert!(!is_whitelisted(&DeviceIdentity { vendor_id: 0x0951, product_id: 0x0000 }));
    assert!(!is_whitelisted(&DeviceIdentity { vendor_id: 0x0000, product_id: 0x1718 }));
}

#[test]
fn packet_is_header_then_zeros() {
    let p = battery_packet();
    assert_eq!(p.len(), 20);
    assert_eq!(&p[..4], &[0x06, 0xff, 0xbb, 0x02]);
    assert_eq!(&p[4..], &[0u8; 16]);
}

#[test]
fn zero_read_means_headset_off() {
    let buf = [6, 255, 187, 2, 0, 0x10, 0, 99];
    assert_eq!(decode_response(&buf, 0), Err(DeviceError::HeadSetOff()));
    let garbage = [0xAA; 8];
    assert_eq!(decode_response(&garbage, 0), Err(DeviceError::HeadSetOff()));
}

#[test]
fn bad_preamble_means_unknown_response() {
    let buf = [1, 2, 3, 4, 5, 0x10, 0, 73];
    assert_eq!(decode_response(&buf, 8), Err(DeviceError::UnknownResponse()));
}

#[test]
fn short_read_is_still_validated() {
    let buf = [6, 255, 0, 0, 0, 0, 0, 0];
    assert_eq!(decode_response(&buf, 3), Err(DeviceError::UnknownResponse()));
}

#[test]
fn charging_reading_decodes() {
    let buf = [6, 255, 187, 2, 0, 0x10, 0, 73];
    assert_eq!(decode_response(&buf, 8), Ok((73, true)));
}

#[test]
fn not_charging_reading_decodes() {
    let buf = [6, 255, 187, 2, 0, 0x0F, 0, 42];
    assert_eq!(decode_response(&buf, 8), Ok((42, false)));
}

#[test]
fn unknown_charging_state_fails() {
    let buf = [6, 255, 187, 2, 0, 0x02, 0, 42];
    assert_eq!(decode_response(&buf, 8), Err(DeviceError::UnknownResponse()));
}

#[test]
fn battery_byte_passes_through_unclamped() {
    let buf = [6, 255, 187, 2, 0, 0x0F, 0, 255];
    assert_eq!(decode_response(&buf, 8), Ok((255, false)));
}
