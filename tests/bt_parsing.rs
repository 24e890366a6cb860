use tilted::bt_parsing::{bt_parser, frame_len, AddressType, EventType};

fn batch_frame(
    event_types: &[u8],
    address_types: &[u8],
    data: &[Vec<u8>],
    rssis: &[u8],
) -> Vec<u8> {
    let n = event_types.len();
    let mut body = vec![0x02, n as u8];
    body.extend_from_slice(event_types);
    body.extend_from_slice(address_types);
    for i in 0..n {
        body.extend_from_slice(&[0x10 + i as u8, 0x20, 0x30, 0x40, 0x50, 0x60]);
    }
    for d in data {
        body.push(d.len() as u8);
    }
    for d in data {
        body.extend_from_slice(d);
    }
    body.extend_from_slice(rssis);
    let mut f = vec![0x04, 0x3e, body.len() as u8];
    f.extend_from_slice(&body);
    f
}

#[test]
fn invalid_address_type_drops_only_that_report() {
    let f = batch_frame(
        &[0x00, 0x01, 0x04],
        &[0x00, 0x09, 0x03],
        &[vec![0xaa], vec![0xbb, 0xbb], vec![]],
        &[0xc8, 0xc9, 0x05],
    );
    let r = bt_parser(&f).unwrap();
    assert_eq!(r.len(), 2);
    assert_eq!(r[0].event_type, EventType::AdvInd);
    assert_eq!(r[0].address_type, AddressType::PublicDevice);
    assert_eq!(r[0].address, [0x10, 0x20, 0x30, 0x40, 0x50, 0x60]);
    assert_eq!(r[0].data, vec![0xaa]);
    assert_eq!(r[0].rssi, -56);
    assert_eq!(r[1].event_type, EventType::ScanRsp);
    assert_eq!(r[1].address_type, AddressType::RandomIdentity);
    assert_eq!(r[1].address, [0x12, 0x20, 0x30, 0x40, 0x50, 0x60]);
    assert_eq!(r[1].data, Vec::<u8>::new());
    assert_eq!(r[1].rssi, 5);
}

#[test]
fn invalid_event_type_drops_only_that_report() {
    let f = batch_frame(&[0x05, 0x02], &[0x01, 0x02], &[vec![1], vec![2]], &[0x80, 0x7f]);
    let r = bt_parser(&f).unwrap();
    assert_eq!(r.len(), 1);
    assert_eq!(r[0].event_type, EventType::AdvScanInd);
    assert_eq!(r[0].address_type, AddressType::PublicIdentity);
    assert_eq!(r[0].data, vec![2]);
    assert_eq!(r[0].rssi, 127);
}

#[test]
fn empty_batch_decodes_to_nothing() {
    let f = batch_frame(&[], &[], &[], &[]);
    assert_eq!(f, vec![0x04, 0x3e, 0x02, 0x02, 0x00]);
    assert_eq!(bt_parser(&f).unwrap().len(), 0);
}

#[test]
fn frame_of_declared_length_is_accepted() {
    let f = batch_frame(&[0x00], &[0x00], &[vec![9, 9, 9]], &[0xff]);
    assert_eq!(f.len(), 3 + f[2] as usize);
    let r = bt_parser(&f).unwrap();
    assert_eq!(r.len(), 1);
    assert_eq!(r[0].rssi, -1);
}

#[test]
fn truncated_frame_fails() {
    let f = batch_frame(&[0x00], &[0x00], &[vec![9, 9, 9]], &[0xff]);
    for cut in 0..f.len() {
        assert!(bt_parser(&f[..cut]).is_none(), "cut at {}", cut);
    }
}

#[test]
fn frame_with_extra_bytes_fails() {
    let mut f = batch_frame(&[0x00], &[0x00], &[vec![9, 9, 9]], &[0xff]);
    f.push(0);
    assert!(bt_parser(&f).is_none());
}

#[test]
fn declared_length_disagreeing_with_body_fails() {
    let mut f = batch_frame(&[0x00], &[0x00], &[vec![9, 9, 9]], &[0xff]);
    f[2] -= 1;
    assert!(bt_parser(&f).is_none());
    let mut g = batch_frame(&[0x00], &[0x00], &[vec![9, 9, 9]], &[0xff]);
    g[2] += 1;
    g.push(0);
    assert!(bt_parser(&g).is_none());
}

#[test]
fn data_length_past_the_body_fails() {
    let mut f = batch_frame(&[0x00], &[0x00], &[vec![9, 9, 9]], &[0xff]);
    // the data length byte sits after count, one event type, one address type, one address
    let at = 3 + 2 + 1 + 1 + 6;
    f[at] = 200;
    assert!(bt_parser(&f).is_none());
}

#[test]
fn wrong_header_bytes_fail() {
    let f = batch_frame(&[0x00], &[0x00], &[vec![1]], &[0x01]);
    let mut a = f.clone();
    a[0] = 0x01;
    assert!(bt_parser(&a).is_none());
    let mut b = f.clone();
    b[1] = 0x3f;
    assert!(bt_parser(&b).is_none());
    let mut c = f.clone();
    c[3] = 0x01;
    assert!(bt_parser(&c).is_none());
}

#[test]
fn frame_length_from_header() {
    assert_eq!(frame_len([0x04, 0x3e, 0]), 3);
    assert_eq!(frame_len([0x04, 0x3e, 22]), 25);
    assert_eq!(frame_len([0x04, 0x3e, 255]), 258);
}
