//! Decoding of host-controller event frames into low-energy advertising
//! reports.
//!
//! A frame is `[packet type][event code][plen][plen bytes]`. For an LE meta
//! event the `plen` bytes are a sub-event code followed by an advertising
//! report batch: a count `n`, then `n` event types, `n` address types, `n`
//! six-byte addresses, `n` data lengths, the `n` data blocks those lengths
//! describe, and `n` signed signal strengths. A report whose event type or
//! address type is not known is dropped; the others are kept in order.

use vstd::prelude::*;
use vstd::slice::{slice_subrange, slice_to_vec};

verus! {

/// Packet type tags of the host-controller protocol.
#[derive(Copy, Clone, Debug, PartialEq, Eq, Structural)]
pub enum PacketType {
    Command,
    AsynchronousData,
    SynchronousData,
    Event,
    ExtendedCommand,
}

/// The packet type that byte `b` stands for, if any.
pub open spec fn packet_type_from(b: u8) -> Option<PacketType> {
    if b == 0x01 {
        Some(PacketType::Command)
    } else if b == 0x02 {
        Some(PacketType::AsynchronousData)
    } else if b == 0x03 {
        Some(PacketType::SynchronousData)
    } else if b == 0x04 {
        Some(PacketType::Event)
    } else if b == 0x09 {
        Some(PacketType::ExtendedCommand)
    } else {
        None
    }
}

impl PacketType {
    /// Decodes a byte; `None` for a byte that stands for no variant.
    pub fn from_u8(b: u8) -> (r: Option<PacketType>)
        ensures
            r == packet_type_from(b),
    {
        if b == 0x01 {
            Some(PacketType::Command)
        } else if b == 0x02 {
            Some(PacketType::AsynchronousData)
        } else if b == 0x03 {
            Some(PacketType::SynchronousData)
        } else if b == 0x04 {
            Some(PacketType::Event)
        } else if b == 0x09 {
            Some(PacketType::ExtendedCommand)
        } else {
            None
        }
    }
}

/// The event codes this decoder understands.
#[derive(Copy, Clone, Debug, PartialEq, Eq, Structural)]
pub enum EventCode {
    LeMeta,
}

/// The event code that byte `b` stands for, if any.
pub open spec fn event_code_from(b: u8) -> Option<EventCode> {
    if b == 0x3e {
        Some(EventCode::LeMeta)
    } else {
        None
    }
}

impl EventCode {
    /// Decodes a byte; `None` for a byte that stands for no variant.
    pub fn from_u8(b: u8) -> (r: Option<EventCode>)
        ensures
            r == event_code_from(b),
    {
        if b == 0x3e {
            Some(EventCode::LeMeta)
        } else {
            None
        }
    }
}

/// Sub-event codes of an LE meta event.
#[derive(Copy, Clone, Debug, PartialEq, Eq, Structural)]
pub enum LeEventSubcode {
    ConnectionCompleteEvent,
    AdvertisingReport,
}

/// The LE meta sub-event that byte `b` stands for, if any.
pub open spec fn le_subcode_from(b: u8) -> Option<LeEventSubcode> {
    if b == 0x01 {
        Some(LeEventSubcode::ConnectionCompleteEvent)
    } else if b == 0x02 {
        Some(LeEventSubcode::AdvertisingReport)
    } else {
        None
    }
}

impl LeEventSubcode {
    /// Decodes a byte; `None` for a byte that stands for no variant.
    pub fn from_u8(b: u8) -> (r: Option<LeEventSubcode>)
        ensures
            r == le_subcode_from(b),
    {
        if b == 0x01 {
            Some(LeEventSubcode::ConnectionCompleteEvent)
        } else if b == 0x02 {
            Some(LeEventSubcode::AdvertisingReport)
        } else {
            None
        }
    }
}

/// Kinds of advertisement.
#[derive(Copy, Clone, Debug, PartialEq, Eq, Structural)]
pub enum EventType {
    AdvInd,
    AdvDirectInd,
    AdvScanInd,
    AdvNonConnInd,
    ScanRsp,
}

/// The advertisement kind that byte `b` stands for, if any.
pub open spec fn event_type_from(b: u8) -> Option<EventType> {
    if b == 0x00 {
        Some(EventType::AdvInd)
    } else if b == 0x01 {
        Some(EventType::AdvDirectInd)
    } else if b == 0x02 {
        Some(EventType::AdvScanInd)
    } else if b == 0x03 {
        Some(EventType::AdvNonConnInd)
    } else if b == 0x04 {
        Some(EventType::ScanRsp)
    } else {
        None
    }
}

impl EventType {
    /// Decodes a byte; `None` for a byte that stands for no variant.
    pub fn from_u8(b: u8) -> (r: Option<EventType>)
        ensures
            r == event_type_from(b),
    {
        if b == 0x00 {
            Some(EventType::AdvInd)
        } else if b == 0x01 {
            Some(EventType::AdvDirectInd)
        } else if b == 0x02 {
            Some(EventType::AdvScanInd)
        } else if b == 0x03 {
            Some(EventType::AdvNonConnInd)
        } else if b == 0x04 {
            Some(EventType::ScanRsp)
        } else {
            None
        }
    }
}

/// Kinds of advertiser address.
#[derive(Copy, Clone, Debug, PartialEq, Eq, Structural)]
pub enum AddressType {
    PublicDevice,
    RandomDevice,
    PublicIdentity,
    RandomIdentity,
}

/// The address kind that byte `b` stands for, if any.
pub open spec fn address_type_from(b: u8) -> Option<AddressType> {
    if b == 0x00 {
        Some(AddressType::PublicDevice)
    } else if b == 0x01 {
        Some(AddressType::RandomDevice)
    } else if b == 0x02 {
        Some(AddressType::PublicIdentity)
    } else if b == 0x03 {
        Some(AddressType::RandomIdentity)
    } else {
        None
    }
}

impl AddressType {
    /// Decodes a byte; `None` for a byte that stands for no variant.
    pub fn from_u8(b: u8) -> (r: Option<AddressType>)
        ensures
            r == address_type_from(b),
    {
        if b == 0x00 {
            Some(AddressType::PublicDevice)
        } else if b == 0x01 {
            Some(AddressType::RandomDevice)
        } else if b == 0x02 {
            Some(AddressType::PublicIdentity)
        } else if b == 0x03 {
            Some(AddressType::RandomIdentity)
        } else {
            None
        }
    }
}

/// One advertising report.
#[derive(Debug)]
pub struct LeEvent {
    pub event_type: EventType,
    pub address_type: AddressType,
    pub address: [u8; 6],
    pub data: Vec<u8>,
    pub rssi: i8,
}

/// What an advertising report holds.
pub struct LeEventView {
    pub event_type: EventType,
    pub address_type: AddressType,
    pub address: Seq<u8>,
    pub data: Seq<u8>,
    pub rssi: i8,
}

impl View for LeEvent {
    type V = LeEventView;

    open spec fn view(&self) -> LeEventView {
        LeEventView {
            event_type: self.event_type,
            address_type: self.address_type,
            address: self.address@,
            data: self.data@,
            rssi: self.rssi,
        }
    }
}

/// What each of a sequence of reports holds.
pub open spec fn views(s: Seq<LeEvent>) -> Seq<LeEventView> {
    s.map_values(|e: LeEvent| e@)
}

/// A report as the batch lays it out, before its type bytes are checked.
pub struct RawReport {
    pub event_type: u8,
    pub address_type: u8,
    pub address: Seq<u8>,
    pub data: Seq<u8>,
    pub rssi: u8,
}

/// A byte read as a two's complement signed number.
pub open spec fn signed(b: u8) -> i8 {
    if b < 128 {
        b as i8
    } else {
        (b - 256) as i8
    }
}

/// The report that a raw report becomes, unless one of its type bytes is
/// unknown.
pub open spec fn accept(r: RawReport) -> Option<LeEventView> {
    match (event_type_from(r.event_type), address_type_from(r.address_type)) {
        (Some(e), Some(a)) => Some(
            LeEventView {
                event_type: e,
                address_type: a,
                address: r.address,
                data: r.data,
                rssi: signed(r.rssi),
            },
        ),
        _ => None,
    }
}

/// The reports among `raws` that are accepted, in their order.
pub open spec fn accepted_reports(raws: Seq<RawReport>) -> Seq<LeEventView>
    decreases raws.len(),
{
    if raws.len() == 0 {
        Seq::empty()
    } else {
        let init = accepted_reports(raws.drop_last());
        match accept(raws.last()) {
            Some(v) => init.push(v),
            None => init,
        }
    }
}

/// The sum of the first `i` lengths.
pub open spec fn data_offset(lens: Seq<u8>, i: int) -> int
    decreases i,
{
    if i <= 0 {
        0
    } else {
        data_offset(lens, i - 1) + lens[i - 1]
    }
}

/// The data lengths of a batch of `n` reports laid out in `b`.
pub open spec fn batch_lens(b: Seq<u8>, n: int) -> Seq<u8> {
    b.subrange(8 * n, 9 * n)
}

/// The number of bytes that `n` reports take at the start of `b`.
pub open spec fn batch_size(b: Seq<u8>, n: int) -> int {
    10 * n + data_offset(batch_lens(b, n), n)
}

/// Report `i` of the `n` reports laid out in `b`.
pub open spec fn raw_report(b: Seq<u8>, n: int, i: int) -> RawReport {
    let lens = batch_lens(b, n);
    let data_start = 9 * n + data_offset(lens, i);
    RawReport {
        event_type: b[i],
        address_type: b[n + i],
        address: b.subrange(2 * n + 6 * i, 2 * n + 6 * i + 6),
        data: b.subrange(data_start, data_start + lens[i]),
        rssi: b[9 * n + data_offset(lens, n) + i],
    }
}

/// The `n` reports laid out in `b`, in order.
pub open spec fn raw_reports(b: Seq<u8>, n: int) -> Seq<RawReport> {
    Seq::new(n as nat, |i: int| raw_report(b, n, i))
}

/// `n` reports at the start of `b`: the bytes they take and the accepted ones.
pub open spec fn spec_reports(b: Seq<u8>, n: int) -> Option<(int, Seq<LeEventView>)> {
    if 9 * n <= b.len() && batch_size(b, n) <= b.len() {
        Some((batch_size(b, n), accepted_reports(raw_reports(b, n))))
    } else {
        None
    }
}

/// A counted batch of reports at the start of `b`.
pub open spec fn spec_advertising_report(b: Seq<u8>) -> Option<(int, Seq<LeEventView>)> {
    if b.len() >= 1 {
        match spec_reports(b.drop_first(), b[0] as int) {
            Some((k, v)) => Some((k + 1, v)),
            None => None,
        }
    } else {
        None
    }
}

/// The payload of an LE meta event, which must be used up exactly.
pub open spec fn spec_le_event(p: Seq<u8>) -> Option<Seq<LeEventView>> {
    if p.len() >= 1 && le_subcode_from(p[0]) == Some(LeEventSubcode::AdvertisingReport) {
        match spec_advertising_report(p.drop_first()) {
            Some((k, v)) => if k == p.len() - 1 {
                Some(v)
            } else {
                None
            },
            None => None,
        }
    } else {
        None
    }
}

/// An event at the start of `e`: its code, its length byte and that many
/// payload bytes.
pub open spec fn spec_event(e: Seq<u8>) -> Option<(int, Seq<LeEventView>)> {
    if e.len() >= 2 && event_code_from(e[0]) == Some(EventCode::LeMeta) && e.len() >= 2 + e[1] {
        match spec_le_event(e.subrange(2, 2 + e[1])) {
            Some(v) => Some((2 + e[1], v)),
            None => None,
        }
    } else {
        None
    }
}

/// The reports that a whole frame carries, or `None` if it does not decode.
pub open spec fn spec_frame(s: Seq<u8>) -> Option<Seq<LeEventView>> {
    if s.len() >= 1 && packet_type_from(s[0]) == Some(PacketType::Event) {
        match spec_event(s.drop_first()) {
            Some((k, v)) => if 1 + k == s.len() {
                Some(v)
            } else {
                None
            },
            None => None,
        }
    } else {
        None
    }
}

proof fn lemma_data_offset_monotonic(lens: Seq<u8>, i: int, j: int)
    requires
        0 <= i <= j,
    ensures
        data_offset(lens, i) <= data_offset(lens, j),
    decreases j,
{
    if j > i {
        lemma_data_offset_monotonic(lens, i, j - 1);
    }
}

proof fn lemma_data_offset_bound(lens: Seq<u8>, i: int)
    requires
        0 <= i,
    ensures
        0 <= data_offset(lens, i) <= 255 * i,
    decreases i,
{
    if i > 0 {
        lemma_data_offset_bound(lens, i - 1);
    }
}

/// Slices `input` into blocks of the lengths in `nums`, one after another.
/// Gives the bytes used and the blocks, or `None` if `input` is too short.
fn take_nums(nums: &[u8], input: &[u8]) -> (r: Option<(usize, Vec<Vec<u8>>)>)
    requires
        nums@.len() <= 255,
    ensures
        r is Some <==> data_offset(nums@, nums@.len() as int) <= input@.len(),
        r matches Some((k, blocks)) ==> {
            &&& k == data_offset(nums@, nums@.len() as int)
            &&& blocks@.len() == nums@.len()
            &&& forall|i: int|
                0 <= i < nums@.len() ==> #[trigger] blocks@[i]@ == input@.subrange(
                    data_offset(nums@, i),
                    data_offset(nums@, i) + nums@[i],
                )
        },
{
    let n = nums.len();
    let len = input.len();
    let mut out: Vec<Vec<u8>> = Vec::new();
    let mut pos: usize = 0;
    let mut i: usize = 0;
    while i < n
        invariant
            i <= n == nums@.len() <= 255,
            len == input@.len(),
            pos == data_offset(nums@, i as int),
            pos <= len,
            out@.len() == i,
            forall|j: int|
                0 <= j < i ==> #[trigger] out@[j]@ == input@.subrange(
                    data_offset(nums@, j),
                    data_offset(nums@, j) + nums@[j],
                ),
        decreases n - i,
    {
        let k = nums[i] as usize;
        if k > len - pos {
            proof {
                lemma_data_offset_monotonic(nums@, i + 1, n as int);
            }
            return None;
        }
        let block = slice_to_vec(slice_subrange(input, pos, pos + k));
        out.push(block);
        pos = pos + k;
        i = i + 1;
    }
    Some((pos, out))
}

/// Reads a byte as a two's complement signed number.
fn to_signed(b: u8) -> (r: i8)
    ensures
        r == signed(b),
{
    if b < 128 {
        b as i8
    } else {
        (b as i16 - 256) as i8
    }
}

/// Decodes `n` reports laid out at the start of `input`.
fn n_le_reports(input: &[u8], n: usize) -> (r: Option<(usize, Vec<LeEvent>)>)
    requires
        n <= 255,
    ensures
        r is Some <==> spec_reports(input@, n as int) is Some,
        r matches Some((k, v)) ==> spec_reports(input@, n as int) == Some((k as int, views(v@))),
{
    let len = input.len();
    if len < 9 * n {
        return None;
    }
    let lens = slice_subrange(input, 8 * n, 9 * n);
    let data = slice_subrange(input, 9 * n, len);
    let ghost b = input@;
    let ghost raws = raw_reports(b, n as int);
    proof {
        assert(lens@ =~= batch_lens(b, n as int));
        lemma_data_offset_bound(lens@, n as int);
    }
    let (k, mut blocks) = match take_nums(lens, data) {
        Some(t) => t,
        None => {
            return None;
        },
    };
    if len - 9 * n - k < n {
        return None;
    }
    let rssi_start = 9 * n + k;
    let ghost all_blocks = blocks@;
    let mut out: Vec<LeEvent> = Vec::new();
    let mut i: usize = 0;
    while i < n
        invariant
            n <= 255,
            i <= n,
            b == input@,
            len == input@.len(),
            lens@ == batch_lens(b, n as int),
            k == data_offset(lens@, n as int),
            rssi_start == 9 * n + k,
            rssi_start + n <= len,
            raws == raw_reports(b, n as int),
            all_blocks.len() == n,
            blocks@ == all_blocks.subrange(i as int, n as int),
            forall|j: int|
                0 <= j < n ==> #[trigger] all_blocks[j]@ == data@.subrange(
                    data_offset(lens@, j),
                    data_offset(lens@, j) + lens@[j],
                ),
            data@ == b.subrange(9 * n, len as int),
            views(out@) == accepted_reports(raws.take(i as int)),
        decreases n - i,
    {
        let block = blocks.remove(0);
        let ghost raw = raws[i as int];
        proof {
            let ii = i as int;
            let x = data_offset(lens@, ii);
            let l = lens@[ii];
            lemma_data_offset_monotonic(lens@, ii + 1, n as int);
            lemma_data_offset_bound(lens@, ii);
            assert(block@ == data@.subrange(x, x + l));
            assert forall|t: int| 0 <= t < l implies #[trigger] data@.subrange(x, x + l)[t] == b[9 * n + x + t] by {
                assert(data@[x + t] == b[9 * n + x + t]);
            }
            assert(block@ =~= raw.data);
            assert(raws.take(ii + 1).drop_last() =~= raws.take(ii));
            assert(blocks@ =~= all_blocks.subrange(ii + 1, n as int));
        }
        let et = EventType::from_u8(input[i]);
        let at = AddressType::from_u8(input[n + i]);
        let a = 2 * n + 6 * i;
        match (et, at) {
            (Some(event_type), Some(address_type)) => {
                let address = [
                    input[a],
                    input[a + 1],
                    input[a + 2],
                    input[a + 3],
                    input[a + 4],
                    input[a + 5],
                ];
                let rssi = to_signed(input[rssi_start + i]);
                let ev = LeEvent { event_type, address_type, address, data: block, rssi };
                proof {
                    assert(address@ =~= raw.address);
                    assert(accept(raw) == Some(ev@));
                }
                let ghost before = out@;
                out.push(ev);
                proof {
                    assert(views(out@) =~= views(before).push(ev@));
                }
            },
            _ => {},
        }
        i = i + 1;
    }
    proof {
        assert(raws.take(n as int) =~= raws);
    }
    Some((rssi_start + n, out))
}

/// Decodes a counted batch of reports at the start of `input`.
fn advertising_report_parser(input: &[u8]) -> (r: Option<(usize, Vec<LeEvent>)>)
    ensures
        r is Some <==> spec_advertising_report(input@) is Some,
        r matches Some((k, v)) ==> spec_advertising_report(input@) == Some((k as int, views(v@))),
{
    let len = input.len();
    if len < 1 {
        return None;
    }
    let rest = slice_subrange(input, 1, len);
    proof {
        assert(rest@ =~= input@.drop_first());
    }
    match n_le_reports(rest, input[0] as usize) {
        Some((k, v)) => Some((k + 1, v)),
        None => None,
    }
}

/// Decodes the payload of an LE meta event, which must hold an advertising
/// report batch and nothing after it.
fn le_event_parser(input: &[u8]) -> (r: Option<Vec<LeEvent>>)
    ensures
        r is Some <==> spec_le_event(input@) is Some,
        r matches Some(v) ==> spec_le_event(input@) == Some(views(v@)),
{
    let len = input.len();
    if len < 1 {
        return None;
    }
    match LeEventSubcode::from_u8(input[0]) {
        Some(LeEventSubcode::AdvertisingReport) => {},
        _ => {
            return None;
        },
    }
    let rest = slice_subrange(input, 1, len);
    proof {
        assert(rest@ =~= input@.drop_first());
    }
    match advertising_report_parser(rest) {
        Some((k, v)) => if k == len - 1 {
            Some(v)
        } else {
            None
        },
        None => None,
    }
}

/// Decodes an event at the start of `input`: the LE meta event code, a
/// length byte, and that many payload bytes.
fn event_parser(input: &[u8]) -> (r: Option<(usize, Vec<LeEvent>)>)
    ensures
        r is Some <==> spec_event(input@) is Some,
        r matches Some((k, v)) ==> spec_event(input@) == Some((k as int, views(v@))),
{
    let len = input.len();
    if len < 2 {
        return None;
    }
    match EventCode::from_u8(input[0]) {
        Some(EventCode::LeMeta) => {},
        None => {
            return None;
        },
    }
    let plen = input[1] as usize;
    if len - 2 < plen {
        return None;
    }
    match le_event_parser(slice_subrange(input, 2, 2 + plen)) {
        Some(v) => Some((2 + plen, v)),
        None => None,
    }
}

/// Decodes a whole event frame into the advertising reports it carries.
/// Reports with an unknown event type or address type are left out; the
/// others keep their order. `None` when the frame is not an LE advertising
/// report event, is cut short, or has bytes past its declared length.
pub fn bt_parser(input: &[u8]) -> (r: Option<Vec<LeEvent>>)
    ensures
        r is Some <==> spec_frame(input@) is Some,
        r matches Some(v) ==> spec_frame(input@) == Some(views(v@)),
{
    let len = input.len();
    if len < 1 {
        return None;
    }
    match PacketType::from_u8(input[0]) {
        Some(PacketType::Event) => {},
        _ => {
            return None;
        },
    }
    let rest = slice_subrange(input, 1, len);
    proof {
        assert(rest@ =~= input@.drop_first());
    }
    match event_parser(rest) {
        Some((k, v)) => if k == len - 1 {
            Some(v)
        } else {
            None
        },
        None => None,
    }
}

/// The full length of a frame whose three header bytes are `header`: the
/// header and the `plen` body bytes that its last byte declares.
pub fn frame_len(header: [u8; 3]) -> (r: usize)
    ensures
        r == 3 + header@[2],
        3 <= r <= 258,
{
    3 + header[2] as usize
}

/// A frame that decodes holds exactly its three header bytes and the `plen`
/// body bytes its header declares.
pub proof fn lemma_frame_length(s: Seq<u8>)
    requires
        spec_frame(s) is Some,
    ensures
        s.len() >= 3,
        s.len() == 3 + s[2],
{
    let e = s.drop_first();
    assert(spec_event(e) is Some);
    assert(e[1] == s[2]);
}

/// A frame never decodes from part of its bytes, nor with bytes past its
/// declared length: cutting a decodable frame short, or adding bytes after
/// it, makes it fail.
pub proof fn lemma_frame_not_partial(s: Seq<u8>, cut: int, extra: Seq<u8>)
    requires
        spec_frame(s) is Some,
        0 <= cut < s.len(),
        extra.len() > 0,
    ensures
        spec_frame(s.subrange(0, cut)) is None,
        spec_frame(s + extra) is None,
{
    lemma_frame_length(s);
    let short = s.subrange(0, cut);
    if spec_frame(short) is Some {
        lemma_frame_length(short);
        assert(short[2] == s[2]);
    }
    let long = s + extra;
    if spec_frame(long) is Some {
        lemma_frame_length(long);
        assert(long[2] == s[2]);
    }
}

} // verus!
