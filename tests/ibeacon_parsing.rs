use tilted::event::RED_UUID;
use tilted::ibeacon_parsing::{ibeacon_parser, IBeacon};

const FIXTURE: &[u8] =
    b"\x1a\xffL\0\x02\x15\xa4\x95\xbb\x10\xc5\xb1KD\xb5\x12\x13p\xf0-t\xde\0:\x04,\xbf";

#[test]
fn test_parse_valid() {
    let r = ibeacon_parser(
        b"\x1a\xffL\0\x02\x15\xa4\x95\xbb\x10\xc5\xb1KD\xb5\x12\x13p\xf0-t\xde\0:\x04,\xbf",
    );
    assert!(r.is_some());
}

#[test]
fn fixture_fields_match_bytes() {
    let b: IBeacon = ibeacon_parser(FIXTURE).unwrap();
    assert_eq!(b.length, 0x1a);
    assert_eq!(b.record_type, 0xff);
    assert_eq!(b.manufacturer_id, 0x4c00);
    assert_eq!(b.sub_type, 0x02);
    assert_eq!(b.sub_type_length, 0x15);
    assert_eq!(b.proximity_uuid, RED_UUID);
    assert_eq!(b.major, 0x003a);
    assert_eq!(b.minor, 0x042c);
    assert_eq!(b.signal_power, 0xbf);
}

#[test]
fn flipped_constant_fields_fail() {
    for i in 0..6 {
        let mut bytes = FIXTURE.to_vec();
        bytes[i] ^= 0x01;
        assert!(ibeacon_parser(&bytes).is_none(), "byte {} flipped", i);
    }
}

#[test]
fn short_record_fails() {
    assert!(ibeacon_parser(&FIXTURE[..26]).is_none());
    assert!(ibeacon_parser(&[]).is_none());
}

#[test]
fn trailing_bytes_are_left_alone() {
    let mut bytes = FIXTURE.to_vec();
    bytes.extend_from_slice(&[1, 2, 3]);
    let b = ibeacon_parser(&bytes).unwrap();
    assert_eq!(b.major, 58);
    assert_eq!(b.minor, 1068);
}

#[test]
fn big_endian_numbers() {
    let mut bytes = FIXTURE.to_vec();
    bytes[22] = 0x12;
    bytes[23] = 0x34;
    bytes[24] = 0xff;
    bytes[25] = 0xfe;
    let b = ibeacon_parser(&bytes).unwrap();
    assert_eq!(b.major, 0x1234);
    assert_eq!(b.minor, 0xfffe);
}
