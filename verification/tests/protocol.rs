use hidpp::feature_lookup::FeatureLookup;
use hidpp::features::device_friendly_name::{
    get_default_friendly_name, get_friendly_name, get_friendly_name_len, reset_friendly_name, set_friendly_name,
};
use hidpp::features::device_type_and_name::{get_device_name, get_device_name_count, get_device_type, DeviceType};
use hidpp::features::feature_set::{get_count, get_feature_id};
use hidpp::features::root::get_feature;
use hidpp::features::FeatureId;
use hidpp::packet::Packet;
use hidpp::request::{build_request, handle_response, response_readable};
use hidpp::{HidppError, ProtocolError};

fn packet(bytes: &[u8]) -> Packet {
    let mut p = Packet::new();
    p.extend_from_slice(bytes);
    p
}

#[test]
fn request_header_then_params() {
    let mut t = FeatureLookup::new();
    t.insert(2, 0x0005);
    let req = build_request(&t, 0xFF, FeatureId::DeviceTypeAndName, 1, 0x0A, &3u8);
    assert_eq!(req.as_slice(), &[0x11, 0xFF, 0x02, 0x1A, 0x03]);
    let root = build_request(&t, 0x01, FeatureId::Root, 0, 0x01, &0x0003u16);
    assert_eq!(root.as_slice(), &[0x11, 0x01, 0x00, 0x01, 0x00, 0x03]);
}

#[test]
fn the_echoing_packet_is_the_response() {
    let t = FeatureLookup::new();
    let req = build_request(&t, 0xFF, FeatureId::Root, 0, 0x03, &());
    let resp = packet(&[0x11, 0xFF, 0x00, 0x03, 0x05, 0x00, 0x02]);
    assert!(response_readable(&req, &resp));
    assert_eq!(handle_response(&req, resp), Some(Ok(resp)));
}

#[test]
fn error_packets_report_their_code() {
    let t = FeatureLookup::new();
    let req = build_request(&t, 0xFF, FeatureId::Root, 0, 0x03, &());
    let codes = [
        (0u8, ProtocolError::NoError),
        (1, ProtocolError::Unknown),
        (2, ProtocolError::InvalidArgument),
        (3, ProtocolError::OutOfRange),
        (4, ProtocolError::HwError),
        (5, ProtocolError::LogitechInternal),
        (6, ProtocolError::InvalidFeatureIndex),
        (7, ProtocolError::InvalidFunctionId),
        (8, ProtocolError::Busy),
        (9, ProtocolError::Unsupported),
        (10, ProtocolError::Other(10)),
    ];
    for (code, err) in codes {
        let resp = packet(&[0x11, 0xFF, 0xFF, 0x00, 0x03, code, 0x00]);
        assert!(response_readable(&req, &resp));
        assert_eq!(handle_response(&req, resp), Some(Err(HidppError::Protocol(err))));
        assert_eq!(u8::from(err), code);
        assert_eq!(ProtocolError::from(code), err);
    }
}

#[test]
fn unrelated_packets_are_skipped() {
    let t = FeatureLookup::new();
    let req = build_request(&t, 0xFF, FeatureId::Root, 0, 0x03, &());
    // Another software id.
    let other = packet(&[0x11, 0xFF, 0x00, 0x04, 0x05]);
    assert_eq!(handle_response(&req, other), None);
    // An error for another request.
    let other_error = packet(&[0x11, 0xFF, 0xFF, 0x02, 0x03, 0x05]);
    assert_eq!(handle_response(&req, other_error), None);
}

#[test]
fn short_packets_are_not_readable() {
    let t = FeatureLookup::new();
    let req = build_request(&t, 0xFF, FeatureId::Root, 0, 0x03, &());
    assert!(!response_readable(&req, &packet(&[0x11, 0xFF, 0x00])));
    assert!(!response_readable(&req, &packet(&[0x11, 0xFF, 0xFF, 0x00])));
    assert!(!response_readable(&req, &packet(&[0x11, 0xFF, 0xFF, 0x00, 0x03])));
    assert!(response_readable(&req, &packet(&[0x11, 0xFF, 0xFF, 0x01, 0x03])));
    assert!(response_readable(&req, &packet(&[0x11, 0xFF, 0x00, 0x03])));
}

#[test]
fn get_feature_records_known_features() {
    let mut t = FeatureLookup::new();
    let resp = packet(&[0x11, 0xFF, 0x00, 0x01, 0x03, 0x40, 0x02, 0x00]);
    let d = get_feature(&mut t, FeatureId::DeviceInformation, &resp).unwrap();
    assert_eq!(d.index, 3);
    assert!(d.tags.hidden());
    assert_eq!(d.version, 2);
    assert_eq!(t.get_index(0x0003), Some(3));
    assert_eq!(t.get_id(3), Some(0x0003));
}

#[test]
fn get_feature_of_an_absent_feature_is_none() {
    let mut t = FeatureLookup::new();
    let resp = packet(&[0x11, 0xFF, 0x00, 0x01, 0x00, 0x00, 0x00]);
    assert_eq!(get_feature(&mut t, FeatureId::DeviceTypeAndName, &resp), None);
    assert_eq!(t.get_index(0x0005), None);
    assert_eq!(t.iter(), vec![(0, 0)]);
}

#[test]
fn feature_set_names_the_feature_at_an_index() {
    let mut t = FeatureLookup::new();
    let count = packet(&[0x11, 0xFF, 0x01, 0x01, 0x07]);
    assert_eq!(get_count(&count), 7);
    let resp = packet(&[0x11, 0xFF, 0x01, 0x11, 0x00, 0x05, 0x00, 0x01]);
    let d = get_feature_id(&mut t, 2, &resp);
    assert_eq!(d.id, FeatureId::DeviceTypeAndName);
    assert_eq!(d.tags.value, 0);
    assert_eq!(d.version, 1);
    assert_eq!(t.get_index(0x0005), Some(2));
}

#[test]
fn device_name_chunks_and_type() {
    assert_eq!(get_device_name_count(&packet(&[0x11, 0xFF, 0x02, 0x01, 12])), 12);
    let mut bytes = vec![0x11, 0xFF, 0x02, 0x11];
    bytes.extend_from_slice(b"POP Mouse\0\0\0\0\0\0\0");
    let chunk = get_device_name(&packet(&bytes));
    assert_eq!(chunk.all_bytes(), b"POP Mouse\0\0\0\0\0\0\0");
    assert_eq!(get_device_type(&packet(&[0x11, 0xFF, 0x02, 0x21, 3])), DeviceType::Mouse);
    assert_eq!(get_device_type(&packet(&[0x11, 0xFF, 0x02, 0x21, 19])), DeviceType::Adapter);
    assert_eq!(get_device_type(&packet(&[0x11, 0xFF, 0x02, 0x21, 20])), DeviceType::Other(20));
    assert_eq!(u8::from(DeviceType::Keyboard), 0);
}

#[test]
fn friendly_name_answers() {
    let lens = get_friendly_name_len(&packet(&[0x11, 0xFF, 0x05, 0x01, 8, 32, 10]));
    assert_eq!((lens.name_len, lens.name_max_len, lens.default_name_len), (8, 32, 10));
    let mut bytes = vec![0x11, 0xFF, 0x05, 0x11, 0x00];
    bytes.extend_from_slice(b"My mouse\0\0\0\0\0\0\0");
    assert_eq!(get_friendly_name(&packet(&bytes)).all_bytes(), b"My mouse\0\0\0\0\0\0\0");
    assert_eq!(get_default_friendly_name(&packet(&bytes)).all_bytes(), b"My mouse\0\0\0\0\0\0\0");
    assert_eq!(set_friendly_name(&packet(&[0x11, 0xFF, 0x05, 0x31, 8])), 8);
    assert_eq!(reset_friendly_name(&packet(&[0x11, 0xFF, 0x05, 0x41, 10])), 10);
}
