//! Decoding of the beacon record carried in an advertisement's data.
//!
//! The record is `0x1A, 0xFF, 0x4C, 0x00, 0x02, 0x15`, a 16-byte identifier,
//! a 16-bit major, a 16-bit minor (all big-endian) and a signal power byte.

use vstd::prelude::*;
use crate::bluez::{pow256, lemma_pow256_monotonic};

verus! {

/// The number of bytes a beacon record takes.
pub const IBEACON_LEN: usize = 27;

/// A decoded beacon record.
#[derive(Copy, Clone, Debug, PartialEq, Eq, Structural)]
pub struct IBeacon {
    pub length: u8,
    pub record_type: u8,
    pub manufacturer_id: u16,
    pub sub_type: u8,
    pub sub_type_length: u8,
    pub proximity_uuid: u128,
    pub major: u16,
    pub minor: u16,
    pub signal_power: u8,
}

/// The number that bytes `s` encode, most significant first.
pub open spec fn be_value(s: Seq<u8>) -> int
    decreases s.len(),
{
    if s.len() == 0 {
        0
    } else {
        be_value(s.drop_last()) * 256 + s.last()
    }
}

/// Whether `s` starts with a beacon record: long enough, and with every fixed
/// field holding its constant.
pub open spec fn is_beacon_record(s: Seq<u8>) -> bool {
    &&& s.len() >= 27
    &&& s[0] == 0x1a
    &&& s[1] == 0xff
    &&& s[2] == 0x4c
    &&& s[3] == 0x00
    &&& s[4] == 0x02
    &&& s[5] == 0x15
}

/// The record that the first 27 bytes of `s` hold.
pub open spec fn beacon_of(s: Seq<u8>) -> IBeacon {
    IBeacon {
        length: s[0],
        record_type: s[1],
        manufacturer_id: be_value(s.subrange(2, 4)) as u16,
        sub_type: s[4],
        sub_type_length: s[5],
        proximity_uuid: be_value(s.subrange(6, 22)) as u128,
        major: be_value(s.subrange(22, 24)) as u16,
        minor: be_value(s.subrange(24, 26)) as u16,
        signal_power: s[26],
    }
}

proof fn lemma_be_value_bound(s: Seq<u8>)
    ensures
        0 <= be_value(s) < pow256(s.len()),
    decreases s.len(),
{
    if s.len() > 0 {
        lemma_be_value_bound(s.drop_last());
        assert(pow256(s.len()) == 256 * pow256((s.len() - 1) as nat));
    }
}

/// Reads the number that the `n` bytes of `b` from `start` encode, most
/// significant first.
fn read_be(b: &[u8], start: usize, n: usize) -> (r: u128)
    requires
        start + n <= b@.len(),
        n <= 16,
    ensures
        r == be_value(b@.subrange(start as int, start + n)),
{
    let len = b.len();
    let mut acc: u128 = 0;
    let mut i: usize = 0;
    proof {
        assert(b@.subrange(start as int, start as int) =~= Seq::<u8>::empty());
    }
    while i < n
        invariant
            i <= n <= 16,
            start + n <= b@.len(),
            len == b@.len(),
            acc == be_value(b@.subrange(start as int, start + i)),
            acc < pow256(i as nat),
        decreases n - i,
    {
        proof {
            let s = b@.subrange(start as int, start + i + 1);
            assert(s.drop_last() =~= b@.subrange(start as int, start + i));
            lemma_pow256_monotonic(i as nat + 1, 16);
            reveal_with_fuel(pow256, 17);
            assert(pow256(16) == 0x1_0000_0000_0000_0000_0000_0000_0000_0000);
            assert(pow256(i as nat + 1) == 256 * pow256(i as nat));
        }
        let byte = b[start + i];
        acc = acc * 256 + (byte as u128);
        i = i + 1;
    }
    acc
}

/// Decodes the beacon record at the start of `input`; bytes after it are
/// left alone. `None` when `input` is too short or a fixed field differs from
/// its constant.
pub fn ibeacon_parser(input: &[u8]) -> (r: Option<IBeacon>)
    ensures
        r is Some <==> is_beacon_record(input@),
        r matches Some(b) ==> b == beacon_of(input@),
{
    if input.len() < IBEACON_LEN {
        return None;
    }
    if input[0] != 0x1a || input[1] != 0xff || input[2] != 0x4c || input[3] != 0x00
        || input[4] != 0x02 || input[5] != 0x15 {
        return None;
    }
    let manufacturer_id = read_be(input, 2, 2);
    let proximity_uuid = read_be(input, 6, 16);
    let major = read_be(input, 22, 2);
    let minor = read_be(input, 24, 2);
    proof {
        lemma_be_value_bound(input@.subrange(2, 4));
        lemma_be_value_bound(input@.subrange(22, 24));
        lemma_be_value_bound(input@.subrange(24, 26));
        reveal_with_fuel(pow256, 3);
    }
    Some(
        IBeacon {
            length: input[0],
            record_type: input[1],
            manufacturer_id: manufacturer_id as u16,
            sub_type: input[4],
            sub_type_length: input[5],
            proximity_uuid,
            major: major as u16,
            minor: minor as u16,
            signal_power: input[26],
        },
    )
}

/// Changing any byte of the fixed fields of a beacon record makes it fail to
/// decode.
pub proof fn lemma_changed_constant_field(s: Seq<u8>, i: int, v: u8)
    requires
        is_beacon_record(s),
        0 <= i < 6,
        v != s[i],
    ensures
        !is_beacon_record(s.update(i, v)),
{
    assert(s.update(i, v)[i] == v);
}

} // verus!
