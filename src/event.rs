//! Hydrometer readings: which hydrometer a beacon identifier names, the
//! reading its record carries, and the readings that one event frame yields.

use vstd::prelude::*;
use crate::bt_parsing::{bt_parser, spec_frame, views, LeEvent, LeEventView};
use crate::ibeacon_parsing::{beacon_of, ibeacon_parser, is_beacon_record, IBeacon};

verus! {

/// The identifier that the red hydrometer advertises.
pub const RED_UUID: u128 = 0xa495bb10c5b14b44b5121370f02d74de;

/// The identifier that the green hydrometer advertises.
pub const GREEN_UUID: u128 = 0xa495bb20c5b14b44b5121370f02d74de;

/// The identifier that the black hydrometer advertises.
pub const BLACK_UUID: u128 = 0xa495bb30c5b14b44b5121370f02d74de;

/// The identifier that the purple hydrometer advertises.
pub const PURPLE_UUID: u128 = 0xa495bb40c5b14b44b5121370f02d74de;

/// The identifier that the orange hydrometer advertises.
pub const ORANGE_UUID: u128 = 0xa495bb50c5b14b44b5121370f02d74de;

/// The identifier that the blue hydrometer advertises.
pub const BLUE_UUID: u128 = 0xa495bb60c5b14b44b5121370f02d74de;

/// The identifier that the yellow hydrometer advertises.
pub const YELLOW_UUID: u128 = 0xa495bb70c5b14b44b5121370f02d74de;

/// The identifier that the pink hydrometer advertises.
pub const PINK_UUID: u128 = 0xa495bb80c5b14b44b5121370f02d74de;

/// The hydrometers, by the color of their casing.
#[derive(Copy, Clone, Debug, PartialEq, Eq, Structural)]
pub enum Color {
    Red,
    Green,
    Black,
    Purple,
    Orange,
    Blue,
    Yellow,
    Pink,
}

/// Why a beacon record gives no reading.
#[derive(Copy, Clone, Debug, PartialEq, Eq, Structural)]
pub enum EventError {
    /// The record's identifier is not one of the known hydrometers.
    UnknownUuidError(u128),
}

/// A hydrometer reading.
#[derive(Copy, Clone, Debug, PartialEq, Eq, Structural)]
pub struct Event {
    pub color: Color,
    /// Temperature in degrees Fahrenheit.
    pub temperature: u16,
    /// Specific gravity in thousandths: the specific gravity is
    /// `gravity / 1000`.
    pub gravity: u16,
}

/// The hydrometer that identifier `id` names, if any.
pub open spec fn color_of(id: u128) -> Option<Color> {
    if id == RED_UUID {
        Some(Color::Red)
    } else if id == GREEN_UUID {
        Some(Color::Green)
    } else if id == BLACK_UUID {
        Some(Color::Black)
    } else if id == PURPLE_UUID {
        Some(Color::Purple)
    } else if id == ORANGE_UUID {
        Some(Color::Orange)
    } else if id == BLUE_UUID {
        Some(Color::Blue)
    } else if id == YELLOW_UUID {
        Some(Color::Yellow)
    } else if id == PINK_UUID {
        Some(Color::Pink)
    } else {
        None
    }
}

/// The lower-case name of a color.
pub open spec fn color_name(c: Color) -> Seq<char> {
    match c {
        Color::Red => seq!['r', 'e', 'd'],
        Color::Green => seq!['g', 'r', 'e', 'e', 'n'],
        Color::Black => seq!['b', 'l', 'a', 'c', 'k'],
        Color::Purple => seq!['p', 'u', 'r', 'p', 'l', 'e'],
        Color::Orange => seq!['o', 'r', 'a', 'n', 'g', 'e'],
        Color::Blue => seq!['b', 'l', 'u', 'e'],
        Color::Yellow => seq!['y', 'e', 'l', 'l', 'o', 'w'],
        Color::Pink => seq!['p', 'i', 'n', 'k'],
    }
}

impl Color {
    /// The hydrometer that identifier `uuid` names; an error for any other
    /// identifier.
    pub fn try_from(uuid: u128) -> (r: Result<Color, EventError>)
        ensures
            r == match color_of(uuid) {
                Some(c) => Ok(c),
                None => Err(EventError::UnknownUuidError(uuid)),
            },
    {
        if uuid == RED_UUID {
            Ok(Color::Red)
        } else if uuid == GREEN_UUID {
            Ok(Color::Green)
        } else if uuid == BLACK_UUID {
            Ok(Color::Black)
        } else if uuid == PURPLE_UUID {
            Ok(Color::Purple)
        } else if uuid == ORANGE_UUID {
            Ok(Color::Orange)
        } else if uuid == BLUE_UUID {
            Ok(Color::Blue)
        } else if uuid == YELLOW_UUID {
            Ok(Color::Yellow)
        } else if uuid == PINK_UUID {
            Ok(Color::Pink)
        } else {
            Err(EventError::UnknownUuidError(uuid))
        }
    }

    /// The lower-case name of this color.
    pub fn as_str(&self) -> (r: &'static str)
        ensures
            r@ == color_name(*self),
    {
        proof {
            reveal_strlit("red");
            reveal_strlit("green");
            reveal_strlit("black");
            reveal_strlit("purple");
            reveal_strlit("orange");
            reveal_strlit("blue");
            reveal_strlit("yellow");
            reveal_strlit("pink");
        }
        match self {
            Color::Red => "red",
            Color::Green => "green",
            Color::Black => "black",
            Color::Purple => "purple",
            Color::Orange => "orange",
            Color::Blue => "blue",
            Color::Yellow => "yellow",
            Color::Pink => "pink",
        }
    }
}

/// The reading a beacon record gives: its hydrometer, its major as the
/// temperature and its minor as the gravity in thousandths.
pub open spec fn event_of(b: IBeacon) -> Result<Event, EventError> {
    match color_of(b.proximity_uuid) {
        Some(c) => Ok(Event { color: c, temperature: b.major, gravity: b.minor }),
        None => Err(EventError::UnknownUuidError(b.proximity_uuid)),
    }
}

impl Event {
    /// The reading that a beacon record carries; an error when its identifier
    /// names no known hydrometer.
    pub fn try_from(ibeacon: IBeacon) -> (r: Result<Event, EventError>)
        ensures
            r == event_of(ibeacon),
    {
        let color = Color::try_from(ibeacon.proximity_uuid)?;
        Ok(Event { color, temperature: ibeacon.major, gravity: ibeacon.minor })
    }
}

/// The reading an advertising report gives, if its data starts with a beacon
/// record of a known hydrometer.
pub open spec fn report_reading(r: LeEventView) -> Option<Event> {
    if is_beacon_record(r.data) {
        match event_of(beacon_of(r.data)) {
            Ok(e) => Some(e),
            Err(_) => None,
        }
    } else {
        None
    }
}

/// The readings that `reports` give, in their order.
pub open spec fn readings_of(reports: Seq<LeEventView>) -> Seq<Event>
    decreases reports.len(),
{
    if reports.len() == 0 {
        Seq::empty()
    } else {
        let init = readings_of(reports.drop_last());
        match report_reading(reports.last()) {
            Some(e) => init.push(e),
            None => init,
        }
    }
}

/// The readings that an event frame yields: none when it does not decode.
pub open spec fn frame_readings(s: Seq<u8>) -> Seq<Event> {
    match spec_frame(s) {
        Some(reports) => readings_of(reports),
        None => Seq::empty(),
    }
}

/// The readings of the reports in `reports`, in their order.
fn reports_readings(reports: &Vec<LeEvent>) -> (r: Vec<Event>)
    ensures
        r@ == readings_of(views(reports@)),
{
    let ghost all = views(reports@);
    let mut out: Vec<Event> = Vec::new();
    let mut i: usize = 0;
    while i < reports.len()
        invariant
            i <= reports@.len(),
            all == views(reports@),
            out@ == readings_of(all.take(i as int)),
        decreases reports@.len() - i,
    {
        proof {
            assert(all.take(i as int + 1).drop_last() =~= all.take(i as int));
            assert(all[i as int] == reports@[i as int]@);
        }
        if let Some(b) = ibeacon_parser(reports[i].data.as_slice()) {
            if let Ok(e) = Event::try_from(b) {
                out.push(e);
            }
        }
        i = i + 1;
    }
    proof {
        assert(all.take(reports@.len() as int) =~= all);
    }
    out
}

/// Decodes one event frame into the readings it carries, in the order of
/// its reports. A frame that does not decode gives none; a report without a
/// beacon record, or whose identifier is unknown, is skipped without
/// affecting the others.
pub fn decode_readings(frame: &[u8]) -> (r: Vec<Event>)
    ensures
        r@ == frame_readings(frame@),
{
    match bt_parser(frame) {
        Some(reports) => reports_readings(&reports),
        None => Vec::new(),
    }
}

} // verus!
