//! Host Controller Interface constants, the kernel event filter, and the
//! command frame that turns on low-energy scanning.

use vstd::prelude::*;

verus! {

/// Packet type tags of the host-controller protocol.
#[derive(Copy, Clone, Debug, PartialEq, Eq, Structural)]
pub enum HciType {
    CommandPkt,
    AclDataPkt,
    ScoDataPkt,
    EventPkt,
    VendorPkt,
}

/// The wire value of a packet type tag.
pub open spec fn hci_type_value(t: HciType) -> u32 {
    match t {
        HciType::CommandPkt => 1,
        HciType::AclDataPkt => 2,
        HciType::ScoDataPkt => 3,
        HciType::EventPkt => 4,
        HciType::VendorPkt => 0xff,
    }
}

impl HciType {
    /// The number that stands for this constant on the wire.
    pub fn value(self) -> (r: u32)
        ensures
            r == hci_type_value(self),
    {
        match self {
            HciType::CommandPkt => 1,
            HciType::AclDataPkt => 2,
            HciType::ScoDataPkt => 3,
            HciType::EventPkt => 4,
            HciType::VendorPkt => 0xff,
        }
    }
}

/// The kernel-side event filter of a raw socket: which packet types, which
/// event codes and which command opcode it lets through.
#[derive(Copy, Clone, Debug, PartialEq, Eq, Structural)]
pub struct HciFilter {
    pub type_mask: u32,
    pub event_mask: u64,
    pub opcode: u16,
}

impl HciFilter {
    /// A filter that passes packets of type `type_mask` carrying the event
    /// `event_mask`, and no command opcode.
    pub fn new(type_mask: HciType, event_mask: HciEvent) -> (r: HciFilter)
        requires
            hci_type_value(type_mask) < 32,
        ensures
            r.type_mask == 1u32 << hci_type_value(type_mask),
            r.event_mask == 1u64 << event_code(event_mask),
            r.opcode == 0,
    {
        HciFilter { type_mask: 1u32 << type_mask.value(), event_mask: event_mask.mask(), opcode: 0 }
    }
}

/// Bluetooth socket protocols.
#[derive(Copy, Clone, Debug, PartialEq, Eq, Structural)]
pub enum BtProto {
    L2CAP,
    HCI,
    RFCOMM,
    AVDTP,
}

impl BtProto {
    /// The number that stands for this constant on the wire.
    pub fn value(self) -> (r: i32)
        ensures
            r == match self {
                BtProto::L2CAP => 0i32,
                BtProto::HCI => 1,
                BtProto::RFCOMM => 3,
                BtProto::AVDTP => 7,
            },
    {
        match self {
            BtProto::L2CAP => 0,
            BtProto::HCI => 1,
            BtProto::RFCOMM => 3,
            BtProto::AVDTP => 7,
        }
    }
}

/// Socket option levels of the Bluetooth protocols.
#[derive(Copy, Clone, Debug, PartialEq, Eq, Structural)]
pub enum Sol {
    HCI,
    L2CAP,
    SCO,
    RFCOMM,
    BLUETOOTH,
}

impl Sol {
    /// The number that stands for this constant on the wire.
    pub fn value(self) -> (r: i32)
        ensures
            r == match self {
                Sol::HCI => 0i32,
                Sol::L2CAP => 6,
                Sol::SCO => 17,
                Sol::RFCOMM => 18,
                Sol::BLUETOOTH => 274,
            },
    {
        match self {
            Sol::HCI => 0,
            Sol::L2CAP => 6,
            Sol::SCO => 17,
            Sol::RFCOMM => 18,
            Sol::BLUETOOTH => 274,
        }
    }
}

/// Channels a host-controller socket can be bound to.
#[derive(Copy, Clone, Debug, PartialEq, Eq, Structural)]
pub enum HciChannel {
    Raw,
    User,
    Monitor,
    Control,
}

impl HciChannel {
    /// The number that stands for this constant on the wire.
    pub fn value(self) -> (r: u16)
        ensures
            r == match self {
                HciChannel::Raw => 0u16,
                HciChannel::User => 1,
                HciChannel::Monitor => 2,
                HciChannel::Control => 3,
            },
    {
        match self {
            HciChannel::Raw => 0,
            HciChannel::User => 1,
            HciChannel::Monitor => 2,
            HciChannel::Control => 3,
        }
    }
}

/// Socket options at the host-controller level.
#[derive(Copy, Clone, Debug, PartialEq, Eq, Structural)]
pub enum HciSocketOption {
    DataDir,
    Filter,
    TimeStamp,
}

impl HciSocketOption {
    /// The number that stands for this constant on the wire.
    pub fn value(self) -> (r: i32)
        ensures
            r == match self {
                HciSocketOption::DataDir => 1i32,
                HciSocketOption::Filter => 2,
                HciSocketOption::TimeStamp => 3,
            },
    {
        match self {
            HciSocketOption::DataDir => 1,
            HciSocketOption::Filter => 2,
            HciSocketOption::TimeStamp => 3,
        }
    }
}

/// The device index that binds a socket to no device in particular.
pub const HCI_DEV_NONE: u16 = 0;

/// Event codes of the host-controller protocol.
#[derive(Copy, Clone, Debug, PartialEq, Eq, Structural)]
pub enum HciEvent {
    InquiryComplete,
    InquiryResult,
    ConnComplete,
    ConnRequest,
    DisconnComplete,
    AuthComplete,
    RemoteNameReqComplete,
    EncryptChange,
    ChangeConnLinkKeyComplete,
    MasterLinkKeyComplete,
    ReadRemoteFeaturesComplete,
    ReadRemoteVersionComplete,
    QosSetupComplete,
    CmdComplete,
    CmdStatus,
    HardwareError,
    RoleChange,
    NumCompPkts,
    ModeChange,
    ReturnLinkKeys,
    PinCodeReq,
    LinkKeyReq,
    LinkKeyNotify,
    LoopbackCommand,
    DataBufferOverflow,
    MaxSlotsChange,
    ReadClockOffsetComplete,
    ConnPtypeChanged,
    QosViolation,
    PscanRepModeChange,
    FlowSpecComplete,
    InquiryResultWithRssi,
    ReadRemoteExtFeaturesComplete,
    SyncConnComplete,
    SyncConnChanged,
    SniffSubrating,
    ExtendedInquiryResult,
    EncryptionKeyRefreshComplete,
    IoCapabilityRequest,
    IoCapabilityResponse,
    UserConfirmRequest,
    UserPasskeyRequest,
    RemoteOobDataRequest,
    SimplePairingComplete,
    LinkSupervisionTimeoutChanged,
    EnhancedFlushComplete,
    UserPasskeyNotify,
    KeypressNotify,
    RemoteHostFeaturesNotify,
    LeMetaEvent,
}

/// The numeric code of an event.
pub open spec fn event_code(e: HciEvent) -> u8 {
    match e {
        HciEvent::InquiryComplete => 0x01,
        HciEvent::InquiryResult => 0x02,
        HciEvent::ConnComplete => 0x03,
        HciEvent::ConnRequest => 0x04,
        HciEvent::DisconnComplete => 0x05,
        HciEvent::AuthComplete => 0x06,
        HciEvent::RemoteNameReqComplete => 0x07,
        HciEvent::EncryptChange => 0x08,
        HciEvent::ChangeConnLinkKeyComplete => 0x09,
        HciEvent::MasterLinkKeyComplete => 0x0a,
        HciEvent::ReadRemoteFeaturesComplete => 0x0b,
        HciEvent::ReadRemoteVersionComplete => 0x0c,
        HciEvent::QosSetupComplete => 0x0d,
        HciEvent::CmdComplete => 0x0e,
        HciEvent::CmdStatus => 0x0f,
        HciEvent::HardwareError => 0x10,
        HciEvent::RoleChange => 0x12,
        HciEvent::NumCompPkts => 0x13,
        HciEvent::ModeChange => 0x14,
        HciEvent::ReturnLinkKeys => 0x15,
        HciEvent::PinCodeReq => 0x16,
        HciEvent::LinkKeyReq => 0x17,
        HciEvent::LinkKeyNotify => 0x18,
        HciEvent::LoopbackCommand => 0x19,
        HciEvent::DataBufferOverflow => 0x1a,
        HciEvent::MaxSlotsChange => 0x1b,
        HciEvent::ReadClockOffsetComplete => 0x1c,
        HciEvent::ConnPtypeChanged => 0x1d,
        HciEvent::QosViolation => 0x1e,
        HciEvent::PscanRepModeChange => 0x20,
        HciEvent::FlowSpecComplete => 0x21,
        HciEvent::InquiryResultWithRssi => 0x22,
        HciEvent::ReadRemoteExtFeaturesComplete => 0x23,
        HciEvent::SyncConnComplete => 0x2c,
        HciEvent::SyncConnChanged => 0x2d,
        HciEvent::SniffSubrating => 0x2e,
        HciEvent::ExtendedInquiryResult => 0x2f,
        HciEvent::EncryptionKeyRefreshComplete => 0x30,
        HciEvent::IoCapabilityRequest => 0x31,
        HciEvent::IoCapabilityResponse => 0x32,
        HciEvent::UserConfirmRequest => 0x33,
        HciEvent::UserPasskeyRequest => 0x34,
        HciEvent::RemoteOobDataRequest => 0x35,
        HciEvent::SimplePairingComplete => 0x36,
        HciEvent::LinkSupervisionTimeoutChanged => 0x38,
        HciEvent::EnhancedFlushComplete => 0x39,
        HciEvent::UserPasskeyNotify => 0x3b,
        HciEvent::KeypressNotify => 0x3c,
        HciEvent::RemoteHostFeaturesNotify => 0x3d,
        HciEvent::LeMetaEvent => 0x3e,
    }
}

impl HciEvent {
    /// The numeric code of this event.
    pub fn code(self) -> (r: u8)
        ensures
            r == event_code(self),
    {
        match self {
            HciEvent::InquiryComplete => 0x01,
            HciEvent::InquiryResult => 0x02,
            HciEvent::ConnComplete => 0x03,
            HciEvent::ConnRequest => 0x04,
            HciEvent::DisconnComplete => 0x05,
            HciEvent::AuthComplete => 0x06,
            HciEvent::RemoteNameReqComplete => 0x07,
            HciEvent::EncryptChange => 0x08,
            HciEvent::ChangeConnLinkKeyComplete => 0x09,
            HciEvent::MasterLinkKeyComplete => 0x0a,
            HciEvent::ReadRemoteFeaturesComplete => 0x0b,
            HciEvent::ReadRemoteVersionComplete => 0x0c,
            HciEvent::QosSetupComplete => 0x0d,
            HciEvent::CmdComplete => 0x0e,
            HciEvent::CmdStatus => 0x0f,
            HciEvent::HardwareError => 0x10,
            HciEvent::RoleChange => 0x12,
            HciEvent::NumCompPkts => 0x13,
            HciEvent::ModeChange => 0x14,
            HciEvent::ReturnLinkKeys => 0x15,
            HciEvent::PinCodeReq => 0x16,
            HciEvent::LinkKeyReq => 0x17,
            HciEvent::LinkKeyNotify => 0x18,
            HciEvent::LoopbackCommand => 0x19,
            HciEvent::DataBufferOverflow => 0x1a,
            HciEvent::MaxSlotsChange => 0x1b,
            HciEvent::ReadClockOffsetComplete => 0x1c,
            HciEvent::ConnPtypeChanged => 0x1d,
            HciEvent::QosViolation => 0x1e,
            HciEvent::PscanRepModeChange => 0x20,
            HciEvent::FlowSpecComplete => 0x21,
            HciEvent::InquiryResultWithRssi => 0x22,
            HciEvent::ReadRemoteExtFeaturesComplete => 0x23,
            HciEvent::SyncConnComplete => 0x2c,
            HciEvent::SyncConnChanged => 0x2d,
            HciEvent::SniffSubrating => 0x2e,
            HciEvent::ExtendedInquiryResult => 0x2f,
            HciEvent::EncryptionKeyRefreshComplete => 0x30,
            HciEvent::IoCapabilityRequest => 0x31,
            HciEvent::IoCapabilityResponse => 0x32,
            HciEvent::UserConfirmRequest => 0x33,
            HciEvent::UserPasskeyRequest => 0x34,
            HciEvent::RemoteOobDataRequest => 0x35,
            HciEvent::SimplePairingComplete => 0x36,
            HciEvent::LinkSupervisionTimeoutChanged => 0x38,
            HciEvent::EnhancedFlushComplete => 0x39,
            HciEvent::UserPasskeyNotify => 0x3b,
            HciEvent::KeypressNotify => 0x3c,
            HciEvent::RemoteHostFeaturesNotify => 0x3d,
            HciEvent::LeMetaEvent => 0x3e,
        }
    }

    /// The bit of this event in a 64-bit event mask.
    pub fn mask(self) -> (r: u64)
        ensures
            r == 1u64 << event_code(self),
    {
        let c = self.code();
        1u64 << c
    }
}

/// Command fields of the low-energy controller command group.
#[derive(Copy, Clone, Debug, PartialEq, Eq, Structural)]
pub enum LeCtl {
    SetEventMask,
    ReadBufferSize,
    ReadLocalSupportedFeatures,
    SetRandomAddress,
    SetAdvertisingParameters,
    ReadAdvertisingChanelTxPower,
    SetAdvertisingData,
    SetScanResponseData,
    SetAdvertiseEnable,
    SetScanParameters,
    SetScanEnable,
    CreateConn,
    CreateConnCancel,
    ReadWhiteListSize,
    ClearWhiteList,
    AddDeviceToWhiteList,
    RemoveDeviceFromWhiteList,
    ConnUpdate,
    SetHostChannelClassification,
    ReadChannelMap,
    ReadRemoteUsedFeatures,
    Encrypt,
    Rand,
    StartEncryption,
    LtkReply,
    LtkNegReply,
    ReadSupportedStates,
    ReceiverList,
    TransmitterTest,
    TestEnd,
    AddDeviceToResolvList,
    RemoveDeviceFromResolvList,
    ClearResolvList,
    ReadResolvListSize,
    SetAddressResolutionEnable,
}

/// The command field value of a low-energy controller command.
pub open spec fn le_ctl_value(c: LeCtl) -> u16 {
    match c {
        LeCtl::SetEventMask => 0x01,
        LeCtl::ReadBufferSize => 0x02,
        LeCtl::ReadLocalSupportedFeatures => 0x03,
        LeCtl::SetRandomAddress => 0x05,
        LeCtl::SetAdvertisingParameters => 0x06,
        LeCtl::ReadAdvertisingChanelTxPower => 0x07,
        LeCtl::SetAdvertisingData => 0x08,
        LeCtl::SetScanResponseData => 0x09,
        LeCtl::SetAdvertiseEnable => 0x0a,
        LeCtl::SetScanParameters => 0x0b,
        LeCtl::SetScanEnable => 0x0c,
        LeCtl::CreateConn => 0x0d,
        LeCtl::CreateConnCancel => 0x0e,
        LeCtl::ReadWhiteListSize => 0x0f,
        LeCtl::ClearWhiteList => 0x10,
        LeCtl::AddDeviceToWhiteList => 0x11,
        LeCtl::RemoveDeviceFromWhiteList => 0x12,
        LeCtl::ConnUpdate => 0x013,
        LeCtl::SetHostChannelClassification => 0x14,
        LeCtl::ReadChannelMap => 0x15,
        LeCtl::ReadRemoteUsedFeatures => 0x16,
        LeCtl::Encrypt => 0x17,
        LeCtl::Rand => 0x18,
        LeCtl::StartEncryption => 0x19,
        LeCtl::LtkReply => 0x1a,
        LeCtl::LtkNegReply => 0x1b,
        LeCtl::ReadSupportedStates => 0x1c,
        LeCtl::ReceiverList => 0x1d,
        LeCtl::TransmitterTest => 0x1e,
        LeCtl::TestEnd => 0x1f,
        LeCtl::AddDeviceToResolvList => 0x27,
        LeCtl::RemoveDeviceFromResolvList => 0x28,
        LeCtl::ClearResolvList => 0x29,
        LeCtl::ReadResolvListSize => 0x2a,
        LeCtl::SetAddressResolutionEnable => 0x2d,
    }
}

impl LeCtl {
    /// The number that stands for this constant on the wire.
    pub fn value(self) -> (r: u16)
        ensures
            r == le_ctl_value(self),
    {
        match self {
            LeCtl::SetEventMask => 0x01,
            LeCtl::ReadBufferSize => 0x02,
            LeCtl::ReadLocalSupportedFeatures => 0x03,
            LeCtl::SetRandomAddress => 0x05,
            LeCtl::SetAdvertisingParameters => 0x06,
            LeCtl::ReadAdvertisingChanelTxPower => 0x07,
            LeCtl::SetAdvertisingData => 0x08,
            LeCtl::SetScanResponseData => 0x09,
            LeCtl::SetAdvertiseEnable => 0x0a,
            LeCtl::SetScanParameters => 0x0b,
            LeCtl::SetScanEnable => 0x0c,
            LeCtl::CreateConn => 0x0d,
            LeCtl::CreateConnCancel => 0x0e,
            LeCtl::ReadWhiteListSize => 0x0f,
            LeCtl::ClearWhiteList => 0x10,
            LeCtl::AddDeviceToWhiteList => 0x11,
            LeCtl::RemoveDeviceFromWhiteList => 0x12,
            LeCtl::ConnUpdate => 0x013,
            LeCtl::SetHostChannelClassification => 0x14,
            LeCtl::ReadChannelMap => 0x15,
            LeCtl::ReadRemoteUsedFeatures => 0x16,
            LeCtl::Encrypt => 0x17,
            LeCtl::Rand => 0x18,
            LeCtl::StartEncryption => 0x19,
            LeCtl::LtkReply => 0x1a,
            LeCtl::LtkNegReply => 0x1b,
            LeCtl::ReadSupportedStates => 0x1c,
            LeCtl::ReceiverList => 0x1d,
            LeCtl::TransmitterTest => 0x1e,
            LeCtl::TestEnd => 0x1f,
            LeCtl::AddDeviceToResolvList => 0x27,
            LeCtl::RemoveDeviceFromResolvList => 0x28,
            LeCtl::ClearResolvList => 0x29,
            LeCtl::ReadResolvListSize => 0x2a,
            LeCtl::SetAddressResolutionEnable => 0x2d,
        }
    }
}

/// Command groups of the host-controller protocol.
#[derive(Copy, Clone, Debug, PartialEq, Eq, Structural)]
pub enum Ogf {
    Nop,
    LinkControl,
    LinkPolicy,
    HostCtl,
    InfoParam,
    StatusParam,
    TestingCmd,
    LeCtl,
    VendorCmd,
}

/// The wire value of a command group.
pub open spec fn ogf_value(g: Ogf) -> u16 {
    match g {
        Ogf::Nop => 0,
        Ogf::LinkControl => 0x01,
        Ogf::LinkPolicy => 0x02,
        Ogf::HostCtl => 0x03,
        Ogf::InfoParam => 0x04,
        Ogf::StatusParam => 0x05,
        Ogf::TestingCmd => 0x3e,
        Ogf::LeCtl => 0x08,
        Ogf::VendorCmd => 0x3f,
    }
}

impl Ogf {
    /// The number that stands for this constant on the wire.
    pub fn value(self) -> (r: u16)
        ensures
            r == ogf_value(self),
    {
        match self {
            Ogf::Nop => 0,
            Ogf::LinkControl => 0x01,
            Ogf::LinkPolicy => 0x02,
            Ogf::HostCtl => 0x03,
            Ogf::InfoParam => 0x04,
            Ogf::StatusParam => 0x05,
            Ogf::TestingCmd => 0x3e,
            Ogf::LeCtl => 0x08,
            Ogf::VendorCmd => 0x3f,
        }
    }
}

/// A command field, qualified by the group it belongs to.
#[derive(Copy, Clone, Debug, PartialEq, Eq, Structural)]
pub enum Ocf {
    LeCtl(LeCtl),
}

/// The wire value of a command field.
pub open spec fn ocf_value(c: Ocf) -> u16 {
    match c {
        Ocf::LeCtl(l) => le_ctl_value(l),
    }
}

impl Ocf {
    /// The number that stands for this constant on the wire.
    pub fn value(self) -> (r: u16)
        ensures
            r == ocf_value(self),
    {
        match self {
            Ocf::LeCtl(l) => l.value(),
        }
    }
}

/// A 16-bit command opcode: the group in the upper six bits, the command
/// field in the lower ten.
#[derive(Copy, Clone, Debug, PartialEq, Eq, Structural)]
pub struct Opcode(pub u16);

/// The opcode of command field `c` in group `g`.
pub open spec fn opcode_value(g: Ogf, c: Ocf) -> int {
    ogf_value(g) * 1024 + ocf_value(c) % 1024
}

impl Opcode {
    /// Combines a command group and a command field into an opcode.
    pub fn new(ogf: Ogf, ocf: Ocf) -> (r: Opcode)
        ensures
            r.0 == opcode_value(ogf, ocf),
    {
        let g = ogf.value();
        let c = ocf.value();
        assert(g < 64);
        let v: u16 = (g << 10) | (c & 0x3ff);
        assert(g < 64 ==> (g << 10) | (c & 0x3ff) == g * 1024 + c % 1024) by (bit_vector);
        Opcode(v)
    }

    /// The opcode as it stands on the wire: low byte first.
    pub fn to_le_bytes(self) -> (r: [u8; 2])
        ensures
            r@ == le_bytes(self.0 as int, 2),
    {
        let v = self.0;
        let r = [(v % 256) as u8, (v / 256) as u8];
        proof {
            reveal_with_fuel(le_bytes, 3);
            assert(r@ =~= le_bytes(v as int, 2));
        }
        r
    }
}

/// The `n` low bytes of `x`, least significant first.
pub open spec fn le_bytes(x: int, n: nat) -> Seq<u8>
    decreases n,
{
    if n == 0 {
        Seq::empty()
    } else {
        seq![(x % 256) as u8].add(le_bytes(x / 256, (n - 1) as nat))
    }
}

/// The number that bytes `s` encode, least significant first.
pub open spec fn le_value(s: Seq<u8>) -> int
    decreases s.len(),
{
    if s.len() == 0 {
        0
    } else {
        s[0] + 256 * le_value(s.drop_first())
    }
}

/// The command frame that enables low-energy scanning with duplicate
/// filtering: the command packet tag as four bytes, the opcode as two, the
/// parameter length 2, then enable = 1 and filter-duplicates = 1.
pub open spec fn scan_enable_frame() -> Seq<u8> {
    le_bytes(hci_type_value(HciType::CommandPkt) as int, 4)
        + le_bytes(opcode_value(Ogf::LeCtl, Ocf::LeCtl(LeCtl::SetScanEnable)), 2)
        + seq![2u8, 1u8, 1u8]
}

/// Builds the nine bytes that ask the controller to start a low-energy scan.
pub fn le_scan_enable_command() -> (r: [u8; 9])
    ensures
        r@ == scan_enable_frame(),
{
    let t = HciType::CommandPkt.value();
    let op = Opcode::new(Ogf::LeCtl, Ocf::LeCtl(LeCtl::SetScanEnable)).to_le_bytes();
    let r = [
        (t % 256) as u8,
        ((t / 256) % 256) as u8,
        ((t / 65536) % 256) as u8,
        (t / 16777216) as u8,
        op[0],
        op[1],
        2,
        1,
        1,
    ];
    proof {
        reveal_with_fuel(le_bytes, 5);
        assert(r@ =~= scan_enable_frame());
    }
    r
}

/// `256` to the power `n`.
pub open spec fn pow256(n: nat) -> int
    decreases n,
{
    if n == 0 {
        1
    } else {
        256 * pow256((n - 1) as nat)
    }
}

/// Powers of 256 are positive and grow with the exponent.
pub proof fn lemma_pow256_monotonic(a: nat, b: nat)
    requires
        a <= b,
    ensures
        1 <= pow256(a) <= pow256(b),
    decreases b,
{
    if b > a {
        lemma_pow256_monotonic(a, (b - 1) as nat);
    } else if a > 0 {
        lemma_pow256_monotonic((a - 1) as nat, (a - 1) as nat);
    }
}

/// Appends the `n` low bytes of `x` to `out`, least significant first.
fn push_le(out: &mut Vec<u8>, x: u64, n: usize)
    ensures
        final(out)@ == old(out)@ + le_bytes(x as int, n as nat),
{
    let ghost start = old(out)@;
    let mut cur: u64 = x;
    let mut i: usize = 0;
    while i < n
        invariant
            i <= n,
            out@ + le_bytes(cur as int, (n - i) as nat) == start + le_bytes(x as int, n as nat),
        decreases n - i,
    {
        let ghost before = out@;
        proof {
            assert(le_bytes(cur as int, (n - i) as nat) == seq![(cur % 256) as u8].add(
                le_bytes(cur as int / 256, (n - i - 1) as nat),
            ));
        }
        out.push((cur % 256) as u8);
        proof {
            assert(before + seq![(cur % 256) as u8].add(le_bytes(cur as int / 256, (n - i - 1) as nat))
                =~= out@ + le_bytes(cur as int / 256, (n - i - 1) as nat));
        }
        cur = cur / 256;
        i = i + 1;
    }
    assert(out@ =~= out@ + le_bytes(cur as int, 0));
}

/// Reads the number that the `n` bytes of `b` from `start` encode, least
/// significant first.
fn read_le(b: &[u8], start: usize, n: usize) -> (r: u64)
    requires
        start + n <= b@.len(),
        n <= 8,
    ensures
        r == le_value(b@.subrange(start as int, start + n)),
{
    let len = b.len();
    let mut acc: u64 = 0;
    let mut i: usize = n;
    proof {
        assert(b@.subrange(start + n, start + n) =~= Seq::<u8>::empty());
    }
    while i > 0
        invariant
            i <= n <= 8,
            start + n <= b@.len(),
            len == b@.len(),
            acc == le_value(b@.subrange(start + i, start + n)),
            acc < pow256((n - i) as nat),
        decreases i,
    {
        i = i - 1;
        proof {
            let s = b@.subrange(start + i, start + n);
            assert(s.drop_first() =~= b@.subrange(start + i + 1, start + n));
            lemma_pow256_monotonic((n - i) as nat, 8);
            reveal_with_fuel(pow256, 9);
            assert(pow256(8) == 0x1_0000_0000_0000_0000);
            assert(pow256((n - i) as nat) == 256 * pow256((n - i - 1) as nat));
        }
        let byte = b[start + i];
        acc = (byte as u64) + 256 * acc;
    }
    acc
}

/// The 14 bytes that the kernel keeps for a filter: the type mask, the event
/// mask and the opcode, each least significant byte first.
pub open spec fn filter_bytes(f: HciFilter) -> Seq<u8> {
    le_bytes(f.type_mask as int, 4) + le_bytes(f.event_mask as int, 8) + le_bytes(f.opcode as int, 2)
}

impl HciFilter {
    /// Encodes the filter in the layout of the kernel's socket option.
    pub fn to_bytes(&self) -> (r: Vec<u8>)
        ensures
            r@ == filter_bytes(*self),
            r@.len() == 14,
    {
        let mut r: Vec<u8> = Vec::new();
        push_le(&mut r, self.type_mask as u64, 4);
        push_le(&mut r, self.event_mask, 8);
        push_le(&mut r, self.opcode as u64, 2);
        proof {
            reveal_with_fuel(le_bytes, 9);
            assert(r@ =~= filter_bytes(*self));
        }
        r
    }

    /// Decodes a filter from the layout of the kernel's socket option; `None`
    /// unless `b` holds exactly 14 bytes.
    pub fn from_bytes(b: &[u8]) -> (r: Option<HciFilter>)
        ensures
            r is Some <==> b@.len() == 14,
            r matches Some(f) ==> {
                &&& f.type_mask == le_value(b@.subrange(0, 4))
                &&& f.event_mask == le_value(b@.subrange(4, 12))
                &&& f.opcode == le_value(b@.subrange(12, 14))
            },
    {
        if b.len() != 14 {
            return None;
        }
        let t = read_le(b, 0, 4);
        let e = read_le(b, 4, 8);
        let o = read_le(b, 12, 2);
        proof {
            lemma_le_value_bound(b@.subrange(0, 4));
            lemma_le_value_bound(b@.subrange(12, 14));
            reveal_with_fuel(pow256, 5);
            assert(pow256(4) == 0x1_0000_0000);
            assert(pow256(2) == 0x1_0000);
        }
        Some(HciFilter { type_mask: t as u32, event_mask: e, opcode: o as u16 })
    }
}

proof fn lemma_le_value_bound(s: Seq<u8>)
    ensures
        0 <= le_value(s) < pow256(s.len()),
    decreases s.len(),
{
    if s.len() > 0 {
        lemma_le_value_bound(s.drop_first());
    }
}

proof fn lemma_le_bytes_len(x: int, n: nat)
    ensures
        le_bytes(x, n).len() == n,
    decreases n,
{
    if n > 0 {
        lemma_le_bytes_len(x / 256, (n - 1) as nat);
    }
}

proof fn lemma_le_value_of_bytes(x: int, n: nat)
    requires
        0 <= x < pow256(n),
    ensures
        le_value(le_bytes(x, n)) == x,
    decreases n,
{
    if n > 0 {
        let p = pow256((n - 1) as nat);
        let q = x / 256;
        assert(0 <= q < p) by (nonlinear_arith)
            requires
                0 <= x < 256 * p,
                q == x / 256,
        ;
        lemma_le_value_of_bytes(q, (n - 1) as nat);
        let s = le_bytes(x, n);
        assert(s.drop_first() =~= le_bytes(q, (n - 1) as nat));
    }
}

/// Decoding the kernel layout of a filter gives back each of its fields.
pub proof fn lemma_filter_bytes_round_trip(f: HciFilter)
    ensures
        filter_bytes(f).len() == 14,
        le_value(filter_bytes(f).subrange(0, 4)) == f.type_mask,
        le_value(filter_bytes(f).subrange(4, 12)) == f.event_mask,
        le_value(filter_bytes(f).subrange(12, 14)) == f.opcode,
{
    let t = le_bytes(f.type_mask as int, 4);
    let e = le_bytes(f.event_mask as int, 8);
    let o = le_bytes(f.opcode as int, 2);
    lemma_le_bytes_len(f.type_mask as int, 4);
    lemma_le_bytes_len(f.event_mask as int, 8);
    lemma_le_bytes_len(f.opcode as int, 2);
    let b = filter_bytes(f);
    assert(b.subrange(0, 4) =~= t);
    assert(b.subrange(4, 12) =~= e);
    assert(b.subrange(12, 14) =~= o);
    reveal_with_fuel(pow256, 9);
    lemma_le_value_of_bytes(f.type_mask as int, 4);
    lemma_le_value_of_bytes(f.event_mask as int, 8);
    lemma_le_value_of_bytes(f.opcode as int, 2);
}

/// Whether bit `k` of `x` is set.
pub open spec fn bit32(x: u32, k: u32) -> bool {
    (x >> k) & 1 == 1
}

/// Whether bit `k` of `x` is set.
pub open spec fn bit64(x: u64, k: u64) -> bool {
    (x >> k) & 1 == 1
}

proof fn lemma_set_bit32(acc: u32, v: u32)
    requires
        v < 32,
    ensures
        forall|k: u32| k < 32 ==> (#[trigger] bit32(acc | (1u32 << v), k) <==> (bit32(acc, k) || k == v)),
{
    assert forall|k: u32| k < 32 implies (#[trigger] bit32(acc | (1u32 << v), k) <==> (bit32(acc, k) || k == v)) by {
        assert(v < 32 && k < 32 ==> ((((acc | (1u32 << v)) >> k) & 1 == 1) <==> (((acc >> k) & 1 == 1) || k == v))) by (bit_vector);
    }
}

proof fn lemma_set_bit64(acc: u64, v: u64)
    requires
        v < 64,
    ensures
        forall|k: u64| k < 64 ==> (#[trigger] bit64(acc | (1u64 << v), k) <==> (bit64(acc, k) || k == v)),
{
    assert forall|k: u64| k < 64 implies (#[trigger] bit64(acc | (1u64 << v), k) <==> (bit64(acc, k) || k == v)) by {
        assert(v < 64 && k < 64 ==> ((((acc | (1u64 << v)) >> k) & 1 == 1) <==> (((acc >> k) & 1 == 1) || k == v))) by (bit_vector);
    }
}

/// A filter that passes packets of any of the types in `packet_types` that
/// carry any of the events in `event_codes`, and no command opcode: bit `k`
/// of each mask is set exactly when a listed type or event has the value `k`.
pub fn make_filter(packet_types: &[HciType], event_codes: &[HciEvent]) -> (r: HciFilter)
    requires
        forall|i: int| 0 <= i < packet_types@.len() ==> hci_type_value(#[trigger] packet_types@[i]) < 32,
    ensures
        forall|k: u32|
            k < 32 ==> (#[trigger] bit32(r.type_mask, k) <==> exists|i: int|
                0 <= i < packet_types@.len() && hci_type_value(#[trigger] packet_types@[i]) == k),
        forall|k: u64|
            k < 64 ==> (#[trigger] bit64(r.event_mask, k) <==> exists|i: int|
                0 <= i < event_codes@.len() && event_code(#[trigger] event_codes@[i]) == k),
        r.opcode == 0,
{
    let mut type_mask: u32 = 0;
    let mut i: usize = 0;
    proof {
        assert forall|k: u32| k < 32 implies !#[trigger] bit32(0u32, k) by {
            assert(k < 32 ==> (0u32 >> k) & 1 == 0) by (bit_vector);
        }
    }
    while i < packet_types.len()
        invariant
            i <= packet_types@.len(),
            forall|j: int| 0 <= j < packet_types@.len() ==> hci_type_value(#[trigger] packet_types@[j]) < 32,
            forall|k: u32|
                k < 32 ==> (#[trigger] bit32(type_mask, k) <==> exists|j: int|
                    0 <= j < i && hci_type_value(#[trigger] packet_types@[j]) == k),
        decreases packet_types@.len() - i,
    {
        let v = packet_types[i].value();
        proof {
            lemma_set_bit32(type_mask, v);
            assert forall|k: u32| k < 32 implies (#[trigger] bit32(type_mask | (1u32 << v), k) <==> exists|j: int|
                0 <= j < i + 1 && hci_type_value(#[trigger] packet_types@[j]) == k) by {
                if bit32(type_mask | (1u32 << v), k) && k != v {
                    let j = choose|j: int| 0 <= j < i && hci_type_value(#[trigger] packet_types@[j]) == k;
                    assert(0 <= j < i + 1);
                }
                if exists|j: int| 0 <= j < i + 1 && hci_type_value(#[trigger] packet_types@[j]) == k {
                    let j = choose|j: int| 0 <= j < i + 1 && hci_type_value(#[trigger] packet_types@[j]) == k;
                    if j < i {
                        assert(bit32(type_mask, k));
                    }
                }
            }
        }
        type_mask = type_mask | (1u32 << v);
        i = i + 1;
    }
    let mut event_mask: u64 = 0;
    let mut i: usize = 0;
    proof {
        assert forall|k: u64| k < 64 implies !#[trigger] bit64(0u64, k) by {
            assert(k < 64 ==> (0u64 >> k) & 1 == 0) by (bit_vector);
        }
    }
    while i < event_codes.len()
        invariant
            i <= event_codes@.len(),
            forall|k: u64|
                k < 64 ==> (#[trigger] bit64(event_mask, k) <==> exists|j: int|
                    0 <= j < i && event_code(#[trigger] event_codes@[j]) == k),
        decreases event_codes@.len() - i,
    {
        let c = event_codes[i].code();
        let v = c as u64;
        proof {
            assert(v < 64);
            lemma_set_bit64(event_mask, v);
            assert forall|k: u64| k < 64 implies (#[trigger] bit64(event_mask | (1u64 << v), k) <==> exists|j: int|
                0 <= j < i + 1 && event_code(#[trigger] event_codes@[j]) == k) by {
                if bit64(event_mask | (1u64 << v), k) && k != v {
                    let j = choose|j: int| 0 <= j < i && event_code(#[trigger] event_codes@[j]) == k;
                    assert(0 <= j < i + 1);
                }
                if exists|j: int| 0 <= j < i + 1 && event_code(#[trigger] event_codes@[j]) == k {
                    let j = choose|j: int| 0 <= j < i + 1 && event_code(#[trigger] event_codes@[j]) == k;
                    if j < i {
                        assert(bit64(event_mask, k));
                    }
                }
            }
        }
        event_mask = event_mask | (1u64 << v);
        i = i + 1;
    }
    HciFilter { type_mask, event_mask, opcode: 0 }
}

} // verus!
