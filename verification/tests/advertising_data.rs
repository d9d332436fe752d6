use hat_ble::bluetooth::adtype::Adtype;
use hat_ble::bluetooth::advertising_data::parse_ad;

#[test]
fn good_data_test() {
    let data = [
        0x03, 0x03, 0x9f, 0xfe, 0x17, 0x16, 0x9f, 0xfe, 0x00, 0x00, 0x00, 0x00, 0x00, 0x00,
        0x00, 0x00, 0x00, 0x00, 0x00, 0x00, 0x00, 0x00, 0x00, 0x00, 0x00, 0x00, 0x00, 0x00,
    ];

    parse_ad(&data);
}

#[test]
fn bad_data_test() {
    // This is just bad data, so we can't parse it properly
    let data = [
        0x02, 0x01, 0x06, 0x03, 0x02, 0xf0, 0x18, 0x11, 0x06, 0xf2, 0xc3, 0xf0, 0xae, 0xa9,
        0xfa, 0x15, 0x8c, 0x9d, 0x49, 0xae, 0x73, 0x71, 0x0a, 0x81, 0xe7, 0x02, 0x0a, 0x04,
        0x00, 0x00, 0x00,
    ];

    assert!(parse_ad(&data).is_none())
}

#[test]
fn good_data_has_two_elements() {
    let data = [
        0x03, 0x03, 0x9f, 0xfe, 0x17, 0x16, 0x9f, 0xfe, 0x00, 0x00, 0x00, 0x00, 0x00, 0x00,
        0x00, 0x00, 0x00, 0x00, 0x00, 0x00, 0x00, 0x00, 0x00, 0x00, 0x00, 0x00, 0x00, 0x00,
    ];
    let ads = parse_ad(&data).unwrap();
    assert_eq!(ads.len(), 2);
    assert_eq!(ads[0].length, 3);
    assert_eq!(ads[0].adtype, Adtype::CompleteListof16BitServiceClassUUIDs);
    assert_eq!(ads[0].data, &[0x9f, 0xfe]);
    assert_eq!(ads[1].length, 0x17);
    assert_eq!(ads[1].adtype, Adtype::ServiceData);
    assert_eq!(ads[1].data.len(), 22);
    let used: usize = ads.iter().map(|ad| 1 + ad.length).sum();
    assert_eq!(used, data.len());
}

const SCALE_PACKET: [u8; 24] = [
    0x02, 0x01, 0x06, 0x03, 0x02, 0x1b, 0x18, 0x10, 0x16, 0x1b, 0x18, 0x02, 0xa6, 0xe3, 0x07,
    0x05, 0x01, 0x16, 0x20, 0x2a, 0x96, 0x01, 0xb0, 0x4a,
];

#[test]
fn scale_packet_has_three_elements() {
    let ads = parse_ad(&SCALE_PACKET).unwrap();
    assert_eq!(ads.len(), 3);
    assert_eq!(ads[0].adtype, Adtype::Flags);
    assert_eq!(ads[0].length, 2);
    assert_eq!(ads[0].data, &[0x06]);
    assert_eq!(ads[1].adtype, Adtype::IncompleteListOf16bitServiceClassUUIDs);
    assert_eq!(ads[1].data, &[0x1b, 0x18]);
    assert_eq!(ads[2].adtype, Adtype::ServiceData);
    assert_eq!(ads[2].length, 0x10);
    assert_eq!(ads[2].data, &SCALE_PACKET[9..]);
    assert_eq!(ads[2].kind_name(), "Service Data/Service Data - 16-bit UUID");
}

#[test]
fn decoding_twice_gives_the_same_elements() {
    let first = parse_ad(&SCALE_PACKET).unwrap();
    let second = parse_ad(&SCALE_PACKET).unwrap();
    assert_eq!(first.len(), second.len());
    for (a, b) in first.iter().zip(second.iter()) {
        assert_eq!(a.length, b.length);
        assert_eq!(a.adtype, b.adtype);
        assert_eq!(a.data, b.data);
    }
}

#[test]
fn every_byte_is_accounted_for() {
    let ads = parse_ad(&SCALE_PACKET).unwrap();
    let used: usize = ads.iter().map(|ad| 1 + ad.length).sum();
    assert_eq!(used, SCALE_PACKET.len());
    for ad in ads.iter() {
        assert_eq!(ad.length, 1 + ad.data.len());
    }
}

#[test]
fn empty_payload_has_no_elements() {
    let ads = parse_ad(&[]).unwrap();
    assert!(ads.is_empty());
}

#[test]
fn zero_length_is_rejected() {
    assert!(parse_ad(&[0x00]).is_none());
    assert!(parse_ad(&[0x02, 0x01, 0x06, 0x00]).is_none());
    assert!(parse_ad(&[0x02, 0x01, 0x06, 0x00, 0x01, 0x02]).is_none());
}

#[test]
fn missing_type_byte_is_rejected() {
    assert!(parse_ad(&[0x01]).is_none());
    assert!(parse_ad(&[0x02, 0x01, 0x06, 0x03]).is_none());
}

#[test]
fn overrunning_element_is_rejected() {
    assert!(parse_ad(&[0x03, 0x01, 0x06]).is_none());
    assert!(parse_ad(&[0x02, 0x01, 0x06, 0x05, 0x16, 0x01, 0x02]).is_none());
    assert!(parse_ad(&SCALE_PACKET[..SCALE_PACKET.len() - 1]).is_none());
}

#[test]
fn unassigned_kind_is_rejected() {
    assert!(parse_ad(&[0x02, 0x0b, 0x06]).is_none());
    assert!(parse_ad(&[0x02, 0x01, 0x06, 0x02, 0x00, 0x06]).is_none());
    assert!(parse_ad(&[0x02, 0xfe, 0x06]).is_none());
}

#[test]
fn element_without_data_is_accepted() {
    let ads = parse_ad(&[0x01, 0xff]).unwrap();
    assert_eq!(ads.len(), 1);
    assert_eq!(ads[0].adtype, Adtype::ManufacturerSpecificData);
    assert_eq!(ads[0].length, 1);
    assert!(ads[0].data.is_empty());
}

#[test]
fn adtype_codes_round_trip() {
    let mut known = 0;
    for code in 0..=255u8 {
        if let Some(kind) = Adtype::from_u8(code) {
            known += 1;
            assert_eq!(kind.to_u8(), code);
            assert_eq!(Adtype::from(code), kind);
            assert!(!kind.to_string().is_empty());
            assert_eq!(kind.to_string(), kind.label());
        }
    }
    assert_eq!(known, 42);
}

#[test]
fn adtype_known_codes() {
    assert_eq!(Adtype::from_u8(0x01), Some(Adtype::Flags));
    assert_eq!(Adtype::from_u8(0x16), Some(Adtype::ServiceData));
    assert_eq!(Adtype::from_u8(0x3d), Some(Adtype::ThreeDInformationData));
    assert_eq!(Adtype::from_u8(0xff), Some(Adtype::ManufacturerSpecificData));
    assert_eq!(Adtype::from_u8(0x00), None);
    assert_eq!(Adtype::from_u8(0x0b), None);
    assert_eq!(Adtype::from_u8(0x13), None);
    assert_eq!(Adtype::from_u8(0x2c), None);
}

#[test]
fn adtype_names() {
    assert_eq!(Adtype::Flags.to_string(), "Flags");
    assert_eq!(
        Adtype::IncompleteListOf16bitServiceClassUUIDs.to_string(),
        "Incomplete List of 16-bit Service Class UUIDs"
    );
    assert_eq!(Adtype::PBADV.to_string(), "PB-ADV");
    assert_eq!(Adtype::ThreeDInformationData.to_string(), "3D Information Data");
    assert_eq!(
        Adtype::SimplePairingRandomizerR.to_string(),
        "Simple Pairing Randomizer R/Simple Pairing Randomizer R-192"
    );
}
