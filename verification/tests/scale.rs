use hat_ble::bluetooth::advertising_data::parse_ad;
use hat_ble::btlepasvscan::Data;
use hat_ble::mibcs::cli::Cli;
use hat_ble::mibcs::scanner::MIBCSScanner;
use hat_ble::mibcs::weight_data::WeightData;

const ADDRESS: &str = "C8:47:8C:D4:89:4B";

const FIXTURE_A: [u8; 24] = [
    0x02, 0x01, 0x06, 0x03, 0x02, 0x1b, 0x18, 0x10, 0x16, 0x1b, 0x18, 0x02, 0xa6, 0xe3, 0x07,
    0x05, 0x01, 0x16, 0x20, 0x2a, 0x96, 0x01, 0xb0, 0x4a,
];

const FIXTURE_B1: [u8; 24] = [
    0x02, 0x01, 0x06, 0x03, 0x02, 0x1b, 0x18, 0x10, 0x16, 0x1b, 0x18, 0x02, 0xa6, 0xe2, 0x07,
    0x05, 0x15, 0x0a, 0x25, 0x1d, 0xf4, 0x01, 0x44, 0x3e,
];

const FIXTURE_B2: [u8; 24] = [
    0x02, 0x01, 0x06, 0x03, 0x02, 0x1b, 0x18, 0x10, 0x16, 0x1b, 0x18, 0x02, 0xa6, 0xe2, 0x07,
    0x05, 0x18, 0x0c, 0x0d, 0x04, 0xd7, 0x01, 0x94, 0x3e,
];

/// A broadcast of the scale with the given status byte, impedance and weight.
fn packet(status1: u8, impedance: u16, weight: u16) -> Vec<u8> {
    let mut bytes = FIXTURE_A.to_vec();
    bytes[12] = status1;
    bytes[20] = (impedance & 0xff) as u8;
    bytes[21] = (impedance >> 8) as u8;
    bytes[22] = (weight & 0xff) as u8;
    bytes[23] = (weight >> 8) as u8;
    bytes
}

fn kilograms(raw: u16) -> f32 {
    raw as f32 * 0.01 / 2.0
}

fn reading(bytes: &[u8], now: i64) -> WeightData {
    let ads = parse_ad(bytes).unwrap();
    WeightData::parse_at(ADDRESS, &ads, now).unwrap()
}

#[test]
fn scale_fixture_a() {
    let w = reading(&FIXTURE_A, 1000);
    assert_eq!(w.address, ADDRESS);
    assert_eq!(w.weight, 19120);
    assert!((kilograms(w.weight) - 95.6).abs() < 1e-4);
    assert_eq!(w.weight_grams(), 95_600);
    assert_eq!(w.impedance, 406);
    assert_eq!(w.statusbits0, 0x02);
    assert_eq!(w.statusbits1, 0xa6);
    assert!(w.got_weight);
    assert!(w.got_impedance);
    assert!(w.weight_stabilized);
    assert!(w.impedance_stabilized);
    assert!(!w.announced);
    assert!(!w.announcable);
    assert_eq!(w.created_at, 1000);
    assert_eq!(w.updated_at, 1000);
    assert_eq!(w.status_updated_at, 1000);
}

#[test]
fn scale_fixture_b() {
    let first = reading(&FIXTURE_B1, 0);
    assert_eq!(first.weight, 15940);
    assert!((kilograms(first.weight) - 79.7).abs() < 1e-4);
    assert_eq!(first.weight_grams(), 79_700);
    assert_eq!(first.impedance, 500);

    let second = reading(&FIXTURE_B2, 0);
    assert_eq!(second.address, first.address);
    assert_eq!(second.weight, 16020);
    assert!((kilograms(second.weight) - 80.1).abs() < 1e-4);
    assert_eq!(second.weight_grams(), 80_100);
    assert_eq!(second.impedance, 471);
}

#[test]
fn status_bits_are_told_apart() {
    let w = reading(&packet(0b0000_0010, 1, 2), 0);
    assert!(w.got_impedance && !w.got_weight && !w.weight_stabilized && !w.impedance_stabilized);
    let w = reading(&packet(0b0000_0100, 1, 2), 0);
    assert!(!w.got_impedance && w.got_weight && !w.weight_stabilized && !w.impedance_stabilized);
    let w = reading(&packet(0b0010_0000, 1, 2), 0);
    assert!(!w.got_impedance && !w.got_weight && w.weight_stabilized && !w.impedance_stabilized);
    let w = reading(&packet(0b1000_0000, 1, 2), 0);
    assert!(!w.got_impedance && !w.got_weight && !w.weight_stabilized && w.impedance_stabilized);
    let w = reading(&packet(0b0101_1001, 0x1234, 0xfffe), 0);
    assert!(!w.got_impedance && !w.got_weight && !w.weight_stabilized && !w.impedance_stabilized);
    assert_eq!(w.impedance, 0x1234);
    assert_eq!(w.weight, 0xfffe);
    assert_eq!(w.weight_grams(), 327_670);
}

#[test]
fn other_broadcasts_are_not_of_the_scale() {
    // two elements only
    let ads = parse_ad(&[0x02, 0x01, 0x06, 0x03, 0x02, 0x1b, 0x18]).unwrap();
    assert!(WeightData::parse_at(ADDRESS, &ads, 0).is_none());
    // wrong first kind
    let mut bytes = FIXTURE_A.to_vec();
    bytes[1] = 0x09;
    let ads = parse_ad(&bytes).unwrap();
    assert!(WeightData::parse_at(ADDRESS, &ads, 0).is_none());
    // wrong second kind
    let mut bytes = FIXTURE_A.to_vec();
    bytes[4] = 0x03;
    let ads = parse_ad(&bytes).unwrap();
    assert!(WeightData::parse_at(ADDRESS, &ads, 0).is_none());
    // wrong third kind
    let mut bytes = FIXTURE_A.to_vec();
    bytes[8] = 0xff;
    let ads = parse_ad(&bytes).unwrap();
    assert!(WeightData::parse_at(ADDRESS, &ads, 0).is_none());
    // wrong mark
    let mut bytes = FIXTURE_A.to_vec();
    bytes[9] = 0x1c;
    let ads = parse_ad(&bytes).unwrap();
    assert!(WeightData::parse_at(ADDRESS, &ads, 0).is_none());
    let mut bytes = FIXTURE_A.to_vec();
    bytes[10] = 0x19;
    let ads = parse_ad(&bytes).unwrap();
    assert!(WeightData::parse_at(ADDRESS, &ads, 0).is_none());
    // service data too short for the fields
    let bytes = [0x02, 0x01, 0x06, 0x03, 0x02, 0x1b, 0x18, 0x03, 0x16, 0x1b, 0x18];
    let ads = parse_ad(&bytes).unwrap();
    assert!(WeightData::parse_at(ADDRESS, &ads, 0).is_none());
    // no element at all
    assert!(WeightData::parse_at(ADDRESS, &[], 0).is_none());
}

#[test]
fn parse_reads_the_clock() {
    let ads = parse_ad(&FIXTURE_A).unwrap();
    let w = WeightData::parse(ADDRESS, &ads).unwrap();
    assert!(w.created_at > 1_500_000_000_000);
    assert_eq!(w.updated_at, w.created_at);
    assert_eq!(w.status_updated_at, w.created_at);
    assert_eq!(w.impedance, 406);
}

#[test]
fn update_takes_over_the_broadcast() {
    let mut w = reading(&packet(0x00, 10, 20), 100);
    let incoming = reading(&packet(0xa6, 406, 19120), 2100);
    w.update_at(&incoming, 2100);
    assert_eq!(w.created_at, 100);
    assert_eq!(w.updated_at, 2100);
    assert_eq!(w.status_updated_at, 2100);
    assert_eq!(w.weight, 19120);
    assert_eq!(w.impedance, 406);
    assert_eq!(w.statusbits1, 0xa6);
    assert!(w.got_weight && w.got_impedance && w.weight_stabilized && w.impedance_stabilized);
    assert!(w.announcable);
    assert!(!w.announced);
    assert!(w.due());

    // same status: the time of the last change of status stays
    let again = reading(&packet(0xa6, 407, 19121), 3100);
    w.update_at(&again, 3100);
    assert_eq!(w.updated_at, 3100);
    assert_eq!(w.status_updated_at, 2100);
    assert_eq!(w.weight, 19121);
}

#[test]
fn update_reads_the_clock() {
    let mut w = reading(&packet(0x00, 10, 20), 100);
    let incoming = reading(&packet(0xa6, 406, 19120), 100);
    w.update(&incoming);
    assert!(w.updated_at > 1_500_000_000_000);
    assert_eq!(w.created_at, 100);
    assert_eq!(w.weight, 19120);
    // the clock shows far more than five seconds after the reading was made
    assert!(!w.announced);
    assert!(w.announcable);
}

#[test]
fn announcement_tells_what_the_scale_has() {
    let mut w = reading(&FIXTURE_A, 1234);
    let a = w.announcement();
    assert_eq!(a.source, "hat-mibcs");
    assert_eq!(a.address, ADDRESS);
    assert_eq!(a.datetime, 1234);
    assert_eq!(a.weight, Some(19120));
    assert_eq!(a.impedance, Some(406));
    assert!(w.announced);

    let mut w = reading(&packet(0b0000_0100, 406, 19120), 5);
    let a = w.announcement();
    assert_eq!(a.weight, Some(19120));
    assert_eq!(a.impedance, None);

    let mut w = reading(&packet(0b0000_0010, 406, 19120), 5);
    let a = w.announcement();
    assert_eq!(a.weight, None);
    assert_eq!(a.impedance, Some(406));
}

#[test]
fn regression_of_a_flag_resets_the_reading() {
    let mut w = reading(&packet(0xa6, 406, 19120), 0);
    let settled = reading(&packet(0xa6, 406, 19120), 1000);
    w.update_at(&settled, 1000);
    assert!(w.due());
    w.announcement();
    assert!(w.announced && !w.due());

    // the weight is no longer settled: a new measurement begins
    let unsettled = reading(&packet(0x86, 406, 100), 2000);
    w.update_at(&unsettled, 2000);
    assert!(!w.announced);
    assert!(!w.announcable);

    let settled = reading(&packet(0xa6, 406, 19120), 3000);
    w.update_at(&settled, 3000);
    assert!(w.due());
}

#[test]
fn five_seconds_are_not_yet_stale() {
    let mut w = reading(&packet(0xa6, 406, 19120), 0);
    let next = reading(&packet(0xa6, 406, 19120), 1000);
    w.update_at(&next, 1000);
    w.announcement();
    // 5.999 s later: still the same measurement
    let next = reading(&packet(0xa6, 406, 19120), 6999);
    w.update_at(&next, 6999);
    assert!(w.announced);
    // 6 s after that: a new one
    let next = reading(&packet(0xa6, 406, 19120), 12_999);
    w.update_at(&next, 12_999);
    assert!(!w.announced);
    assert!(w.due());
}

fn scanner() -> MIBCSScanner {
    MIBCSScanner::new(&Cli { until_data: false, duration: 60 })
}

fn hear(scanner: &mut MIBCSScanner, address: &str, bytes: &[u8], now: i64) -> bool {
    let data = Data { buffer: bytes, address };
    scanner.handle_data_at(&data, now).is_some()
}

#[test]
fn debounce_announces_exactly_once() {
    let mut s = scanner();
    // weight not settled, then settled, then settled again
    assert!(!hear(&mut s, ADDRESS, &packet(0x86, 406, 19000), 0));
    assert!(hear(&mut s, ADDRESS, &packet(0xa6, 406, 19120), 500));
    assert!(!hear(&mut s, ADDRESS, &packet(0xa6, 406, 19120), 1000));
    assert!(!hear(&mut s, ADDRESS, &packet(0xa6, 406, 19120), 1500));
    assert!(!hear(&mut s, ADDRESS, &packet(0xa6, 406, 19120), 6000));
}

#[test]
fn debounce_rearms_after_a_gap() {
    let mut s = scanner();
    assert!(!hear(&mut s, ADDRESS, &packet(0x86, 406, 19000), 0));
    assert!(hear(&mut s, ADDRESS, &packet(0xa6, 406, 19120), 1000));
    assert!(!hear(&mut s, ADDRESS, &packet(0xa6, 406, 19120), 2000));
    // more than five seconds of silence: the next measurement
    assert!(hear(&mut s, ADDRESS, &packet(0xa6, 410, 19200), 8000));
    assert!(!hear(&mut s, ADDRESS, &packet(0xa6, 410, 19200), 9000));
}

#[test]
fn announcement_of_the_scanner_carries_the_reading() {
    let mut s = scanner();
    let data = Data { buffer: &FIXTURE_B1, address: ADDRESS };
    assert!(s.handle_data_at(&data, 10).is_none());
    let data = Data { buffer: &FIXTURE_B2, address: ADDRESS };
    let a = s.handle_data_at(&data, 20).unwrap();
    assert_eq!(a.source, "hat-mibcs");
    assert_eq!(a.address, ADDRESS);
    assert_eq!(a.datetime, 10);
    assert_eq!(a.weight, Some(16020));
    assert_eq!(a.impedance, Some(471));
}

#[test]
fn scanner_keeps_one_reading_for_each_address() {
    let mut s = scanner();
    let other = "AA:BB:CC:DD:EE:FF";
    assert!(!hear(&mut s, ADDRESS, &packet(0xa6, 406, 19120), 0));
    assert!(!hear(&mut s, other, &packet(0xa6, 300, 12000), 100));
    assert!(hear(&mut s, ADDRESS, &packet(0xa6, 406, 19120), 200));
    assert!(hear(&mut s, other, &packet(0xa6, 300, 12000), 300));
    assert!(!hear(&mut s, ADDRESS, &packet(0xa6, 406, 19120), 400));
    assert!(!hear(&mut s, other, &packet(0xa6, 300, 12000), 500));
}

#[test]
fn scanner_passes_over_bad_broadcasts() {
    let mut s = scanner();
    assert!(!hear(&mut s, ADDRESS, &packet(0xa6, 406, 19120), 0));
    // malformed, and well-formed but not of the scale
    assert!(!hear(&mut s, ADDRESS, &[0x02, 0x01], 100));
    assert!(!hear(&mut s, ADDRESS, &[0x02, 0x01, 0x06], 200));
    assert!(hear(&mut s, ADDRESS, &packet(0xa6, 406, 19120), 300));
}

#[test]
fn scanner_reads_the_clock() {
    let mut s = scanner();
    let data = Data { buffer: &FIXTURE_A, address: ADDRESS };
    assert!(s.handle_data(&data).is_none());
    let a = s.handle_data(&data).unwrap();
    assert!(a.datetime > 1_500_000_000_000);
    assert!(s.handle_data(&data).is_none());
}

#[test]
fn scan_ends_as_asked() {
    let s = MIBCSScanner::new(&Cli { until_data: true, duration: 60 });
    assert!(s.done(true, false, 0));
    assert!(!s.done(false, false, 60));
    assert!(s.done(false, false, 61));
    assert!(s.done(false, true, 0));
    let s = MIBCSScanner::new(&Cli { until_data: false, duration: 0 });
    assert!(!s.done(true, false, 0));
    assert!(!s.done(false, false, u64::MAX));
    assert!(s.done(false, true, 0));
}
