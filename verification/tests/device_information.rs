use hidpp::bcd::bcd;
use hidpp::features::device_information::{
    count_ones, get_device_info, get_device_serial_number, get_fw_info, unused_model_ids_are_zero, EntityType,
};
use hidpp::packet::Packet;

fn packet(bytes: &[u8]) -> Packet {
    let mut p = Packet::new();
    p.extend_from_slice(bytes);
    p
}

#[test]
fn test_bcd() {
    assert_eq!(bcd(0x34_u8), 34);
    assert_eq!(bcd(0x3456_u16), 3456);
}

#[test]
fn bcd_wider_and_edge_values() {
    assert_eq!(bcd(0x0_u8), 0);
    assert_eq!(bcd(0x99_u8), 99);
    assert_eq!(bcd(0x12345678_u32), 12345678);
    assert_eq!(bcd(0x1234567890123456_u64), 1234567890123456);
    // Nibbles above nine count as their binary value.
    assert_eq!(bcd(0x1A_u8), 20);
}

#[test]
fn count_ones_counts_set_bits() {
    assert_eq!(count_ones(0), 0);
    assert_eq!(count_ones(0b1011), 3);
    assert_eq!(count_ones(0xFFFF), 16);
}

#[test]
fn device_info_keeps_one_model_id_per_transport() {
    let response = packet(&[
        0x11, 0x01, 0x02, 0x00, // header
        0x03, // entity count
        0xDE, 0xAD, 0xBE, 0xEF, // unit id
        0x00, 0x05, // transports: bluetooth and e-quad
        0x40, 0x01, 0x40, 0x02, 0x00, 0x00, // model ids
        0x07, // extended model id
        0x01, // capabilities
        0x00,
    ]);
    let info = get_device_info(&response);
    assert_eq!(info.entity_cnt, 3);
    assert_eq!(info.unit_id, [0xDE, 0xAD, 0xBE, 0xEF]);
    assert_eq!(info.transports.value, 5);
    assert!(info.transports.bluetooth());
    assert!(!info.transports.ble());
    assert!(info.transports.e_quad());
    assert!(!info.transports.usb());
    assert_eq!(info.model_ids.as_slice(), &[0x4001, 0x4002]);
    assert_eq!(info.extended_model_id, 7);
    assert!(info.capabilities.serial_number());
}

#[test]
fn device_info_caps_model_ids_at_three() {
    let response = packet(&[
        0x11, 0x01, 0x02, 0x00, 0x01, 1, 2, 3, 4, 0x00, 0x0F, 0x00, 0x01, 0x00, 0x02, 0x00, 0x03, 0x00,
        0x00,
    ]);
    let info = get_device_info(&response);
    assert_eq!(info.model_ids.as_slice(), &[1, 2, 3]);
    assert!(!info.capabilities.serial_number());
}

#[test]
fn firmware_info_decodes_bcd_except_for_soft_devices() {
    let mut bytes = [
        0x11, 0x01, 0x02, 0x10, // header
        0x00, // main application
        b'R', b'Q', b'R', // name prefix
        0x12, // name number (bcd)
        0x03, // revision
        0x01, 0x23, // build
        0x01, // active
        0xC0, 0x8B, // transport pid
        1, 2, 3, 4, 5, // extra version
    ];
    let info = get_fw_info(&packet(&bytes));
    assert_eq!(info.entity_type, EntityType::MainApplication);
    assert_eq!(info.fw_name.0.all_bytes(), b"RQR");
    assert_eq!(info.fw_name.1, 12);
    assert_eq!(info.revision, 3);
    assert_eq!(info.build, 123);
    assert!(info.active);
    assert_eq!(info.tr_pid, 0xC08B);
    assert_eq!(info.extra_ver, [1, 2, 3, 4, 5]);

    bytes[4] = 5;
    bytes[12] = 0;
    let soft = get_fw_info(&packet(&bytes));
    assert_eq!(soft.entity_type, EntityType::SoftDevice);
    assert_eq!(soft.build, 0x0123);
    assert!(!soft.active);

    bytes[4] = 42;
    assert_eq!(get_fw_info(&packet(&bytes)).entity_type, EntityType::Other(42));
}

#[test]
fn serial_number_is_twelve_payload_bytes() {
    let mut bytes = vec![0x11, 0x01, 0x02, 0x20];
    bytes.extend_from_slice(b"ABC123\0\0\0\0\0\0");
    let serial = get_device_serial_number(&packet(&bytes));
    assert_eq!(serial.all_bytes(), b"ABC123\0\0\0\0\0\0");
}

#[test]
fn unused_model_id_slots_must_be_zero() {
    let mut bytes = [
        0x11, 0x01, 0x02, 0x00, 0x01, 1, 2, 3, 4, 0x00, 0x01, 0x00, 0x01, 0x00, 0x00, 0x00, 0x00, 0x00,
        0x00,
    ];
    assert!(unused_model_ids_are_zero(&packet(&bytes)));
    bytes[14] = 9;
    assert!(!unused_model_ids_are_zero(&packet(&bytes)));
}
