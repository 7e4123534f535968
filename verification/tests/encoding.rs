use hidpp::ascii::AsciiStr;
use hidpp::encode::{Decode, Encode};
use hidpp::features::root::FeatureType;
use hidpp::features::FeatureId;
use hidpp::packet::Packet;
use hidpp::to_params::ToParams;

#[test]
fn integers_encode_most_significant_byte_first() {
    let mut p = Packet::new();
    Encode::encode(&0xABu8, &mut p);
    Encode::encode(&0x1234u16, &mut p);
    assert_eq!(p.as_slice(), &[0xAB, 0x12, 0x34]);
}

#[test]
fn params_encode_like_values() {
    let mut p = Packet::new();
    ToParams::encode(&(0x01u8, 0x0203u16, &0x04u8), &mut p);
    assert_eq!(p.as_slice(), &[0x01, 0x02, 0x03, 0x04]);
    let mut q = Packet::new();
    ToParams::encode(&(), &mut q);
    assert!(q.is_empty());
}

#[test]
fn tuples_encode_member_by_member() {
    let mut p = Packet::new();
    Encode::encode(&(1u8, 2u16, (3u8,), FeatureId::DeviceTypeAndName), &mut p);
    assert_eq!(p.as_slice(), &[1, 0, 2, 3, 0, 5]);
}

#[test]
fn a_full_packet_takes_sixteen_more_bytes_after_the_header() {
    let mut p = Packet::new();
    Encode::encode(&(1u8, 2u8, 3u8, 4u8), &mut p);
    Encode::encode(&(5u8, 6u8, 7u8, 8u8, 9u8, 10u8, 11u8, 12u8, 13u8, 14u8, 15u8, 16u8, 17u8, 18u8, 19u8, 20u8), &mut p);
    assert_eq!(p.len(), 20);
    assert_eq!(p[19], 20);
}

#[test]
fn decoding_consumes_the_bytes_it_reads() {
    let bytes = [0x12u8, 0x34, 0x00, 0x07, 0xFF];
    let mut buf: &[u8] = &bytes;
    assert_eq!(u16::decode(&mut buf), 0x1234);
    assert_eq!(buf, &[0x00, 0x07, 0xFF]);
    assert_eq!(u8::decode(&mut buf), 0);
    assert!(bool::decode(&mut buf));
    assert!(buf == &[0xFF]);
    let zero = [0u8];
    assert!(!bool::decode(&mut &zero[..]));
}

#[test]
fn roundtrip_u16_through_a_packet() {
    for v in [0u16, 1, 0x00FF, 0x0100, 0xBEEF, 0xFFFF] {
        let mut p = Packet::new();
        Encode::encode(&v, &mut p);
        let mut buf: &[u8] = p.as_slice();
        assert_eq!(u16::decode(&mut buf), v);
        assert!(buf.is_empty());
    }
}

#[test]
fn arrays_and_tuples_decode_in_order() {
    let bytes = [1u8, 2, 3, 4, 5, 6, 7];
    let mut buf: &[u8] = &bytes;
    let a: [u16; 2] = Decode::decode(&mut buf);
    assert_eq!(a, [0x0102, 0x0304]);
    let t: (u8, bool, u8) = Decode::decode(&mut buf);
    assert_eq!(t, (5, true, 7));
    assert!(buf.is_empty());
    let mut empty: &[u8] = &[];
    let none: [u8; 0] = Decode::decode(&mut empty);
    assert_eq!(none, []);
    let unit: () = Decode::decode(&mut empty);
    assert_eq!(unit, ());
}

#[test]
fn feature_ids_decode_to_names_or_other() {
    let bytes = [0x00u8, 0x03, 0x12, 0x34, 0x00, 0x01];
    let mut buf: &[u8] = &bytes;
    assert_eq!(FeatureId::decode(&mut buf), FeatureId::DeviceInformation);
    assert_eq!(FeatureId::decode(&mut buf), FeatureId::Other(0x1234));
    assert_eq!(FeatureId::decode(&mut buf), FeatureId::FeatureSet);
    assert_eq!(u16::from(FeatureId::Other(7)), 7);
    assert_eq!(FeatureId::from(0u16), FeatureId::Root);
    assert_eq!(FeatureId::from(5u16), FeatureId::DeviceTypeAndName);
}

#[test]
fn feature_type_flags_are_the_upper_bits() {
    let t = FeatureType::from(0b1010_1000);
    assert!(t.compliance_deactivatable());
    assert!(!t.manufacturing_deactivatable());
    assert!(t.engineering());
    assert!(!t.hidden());
    assert!(t.obsolete());
    assert_eq!(u8::from(t), 0b1010_1000);
    assert_eq!(FeatureType::default().value, 0);
}

#[test]
fn ascii_text_is_checked_by_tinystr() {
    let ok = AsciiStr::<4>::try_from_raw(*b"MX\0\0").unwrap();
    assert_eq!(ok.all_bytes(), b"MX\0\0");
    assert!(AsciiStr::<4>::try_from_raw(*b"MX\0A").is_none());
    assert!(AsciiStr::<2>::try_from_raw([0x4D, 0x80]).is_none());
    let mut buf: &[u8] = b"ABCDE";
    let s = AsciiStr::<3>::decode(&mut buf);
    assert_eq!(s.all_bytes(), b"ABC");
    assert_eq!(buf, b"DE");
}

#[test]
fn text_params_are_their_bytes() {
    let mut p = Packet::new();
    ToParams::encode(&(3u8, "Mouse"), &mut p);
    assert_eq!(p.as_slice(), &[3, b'M', b'o', b'u', b's', b'e']);
}
