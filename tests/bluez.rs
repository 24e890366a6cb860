use tilted::bluez::{
    le_scan_enable_command, make_filter, HciEvent, HciFilter, HciType, LeCtl, Ocf, Ogf, Opcode,
};

#[test]
fn filter_for_le_meta_events() {
    let f = HciFilter::new(HciType::EventPkt, HciEvent::LeMetaEvent);
    assert_eq!(f.type_mask, 1 << 4);
    assert_eq!(f.event_mask, 1u64 << 0x3e);
    assert_eq!(f.opcode, 0);
}

#[test]
fn filter_for_command_complete() {
    let f = HciFilter::new(HciType::CommandPkt, HciEvent::CmdComplete);
    assert_eq!(f.type_mask, 2);
    assert_eq!(f.event_mask, 1u64 << 0x0e);
}

#[test]
fn filter_bytes_layout() {
    let f = HciFilter { type_mask: 0x0403_0201, event_mask: 0x0c0b_0a09_0807_0605, opcode: 0x0e0d };
    assert_eq!(f.to_bytes(), (1u8..=14).collect::<Vec<u8>>());
}

#[test]
fn filter_bytes_round_trip() {
    let f = HciFilter::new(HciType::EventPkt, HciEvent::LeMetaEvent);
    let b = f.to_bytes();
    assert_eq!(b.len(), 14);
    assert_eq!(HciFilter::from_bytes(&b), Some(f));
}

#[test]
fn filter_from_wrong_length_fails() {
    assert_eq!(HciFilter::from_bytes(&[0u8; 13]), None);
    assert_eq!(HciFilter::from_bytes(&[0u8; 15]), None);
    assert_eq!(
        HciFilter::from_bytes(&[0u8; 14]),
        Some(HciFilter { type_mask: 0, event_mask: 0, opcode: 0 })
    );
}

#[test]
fn scan_enable_opcode() {
    let op = Opcode::new(Ogf::LeCtl, Ocf::LeCtl(LeCtl::SetScanEnable));
    assert_eq!(op.0, 0x200c);
    assert_eq!(op.to_le_bytes(), [0x0c, 0x20]);
    let op = Opcode::new(Ogf::VendorCmd, Ocf::LeCtl(LeCtl::SetAddressResolutionEnable));
    assert_eq!(op.0, (0x3f << 10) | 0x2d);
}

#[test]
fn scan_enable_command_bytes() {
    assert_eq!(le_scan_enable_command(), [1, 0, 0, 0, 0x0c, 0x20, 2, 1, 1]);
}

#[test]
fn event_codes_and_masks() {
    assert_eq!(HciEvent::InquiryComplete.code(), 1);
    assert_eq!(HciEvent::LeMetaEvent.code(), 0x3e);
    assert_eq!(HciEvent::RemoteHostFeaturesNotify.mask(), 1u64 << 0x3d);
    assert_eq!(HciType::VendorPkt.value(), 0xff);
}

#[test]
fn make_filter_sets_one_bit_per_listed_value() {
    let f = make_filter(
        &[HciType::EventPkt, HciType::CommandPkt, HciType::EventPkt],
        &[HciEvent::LeMetaEvent, HciEvent::CmdStatus],
    );
    assert_eq!(f.type_mask, (1 << 4) | (1 << 1));
    assert_eq!(f.event_mask, (1u64 << 0x3e) | (1u64 << 0x0f));
    assert_eq!(f.opcode, 0);
}

#[test]
fn make_filter_of_nothing_passes_nothing() {
    let f = make_filter(&[], &[]);
    assert_eq!(f, HciFilter { type_mask: 0, event_mask: 0, opcode: 0 });
}

#[test]
fn make_filter_agrees_with_new() {
    assert_eq!(
        make_filter(&[HciType::EventPkt], &[HciEvent::LeMetaEvent]),
        HciFilter::new(HciType::EventPkt, HciEvent::LeMetaEvent)
    );
}
