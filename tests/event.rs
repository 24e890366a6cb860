use tilted::event::{
    decode_readings, Color, Event, EventError, BLACK_UUID, BLUE_UUID, GREEN_UUID, ORANGE_UUID,
    PINK_UUID, PURPLE_UUID, RED_UUID, YELLOW_UUID,
};
use tilted::ibeacon_parsing::ibeacon_parser;

const FIXTURE: &[u8] =
    b"\x1a\xffL\0\x02\x15\xa4\x95\xbb\x10\xc5\xb1KD\xb5\x12\x13p\xf0-t\xde\0:\x04,\xbf";

fn record(id: u128, major: u16, minor: u16) -> Vec<u8> {
    let mut v = vec![0x1a, 0xff, 0x4c, 0x00, 0x02, 0x15];
    v.extend_from_slice(&id.to_be_bytes());
    v.extend_from_slice(&major.to_be_bytes());
    v.extend_from_slice(&minor.to_be_bytes());
    v.push(0xc5);
    v
}

fn frame(reports: &[(u8, u8, Vec<u8>)]) -> Vec<u8> {
    let n = reports.len();
    let mut body = vec![0x02, n as u8];
    for r in reports {
        body.push(r.0);
    }
    for r in reports {
        body.push(r.1);
    }
    for i in 0..n {
        body.extend_from_slice(&[i as u8, 1, 2, 3, 4, 5]);
    }
    for r in reports {
        body.push(r.2.len() as u8);
    }
    for r in reports {
        body.extend_from_slice(&r.2);
    }
    for _ in reports {
        body.push(0xc0);
    }
    let mut f = vec![0x04, 0x3e, body.len() as u8];
    f.extend_from_slice(&body);
    f
}

#[test]
fn known_identifiers_map_to_colors() {
    let table = [
        (RED_UUID, Color::Red),
        (GREEN_UUID, Color::Green),
        (BLACK_UUID, Color::Black),
        (PURPLE_UUID, Color::Purple),
        (ORANGE_UUID, Color::Orange),
        (BLUE_UUID, Color::Blue),
        (YELLOW_UUID, Color::Yellow),
        (PINK_UUID, Color::Pink),
    ];
    for (id, c) in table {
        assert_eq!(Color::try_from(id), Ok(c));
    }
}

#[test]
fn unknown_identifier_fails() {
    let other = RED_UUID ^ 1;
    assert_eq!(Color::try_from(other), Err(EventError::UnknownUuidError(other)));
    assert_eq!(Color::try_from(0), Err(EventError::UnknownUuidError(0)));
    let near = 0xa495bb90c5b14b44b5121370f02d74de_u128;
    assert_eq!(Color::try_from(near), Err(EventError::UnknownUuidError(near)));
}

#[test]
fn color_names() {
    assert_eq!(Color::Red.as_str(), "red");
    assert_eq!(Color::Green.as_str(), "green");
    assert_eq!(Color::Black.as_str(), "black");
    assert_eq!(Color::Purple.as_str(), "purple");
    assert_eq!(Color::Orange.as_str(), "orange");
    assert_eq!(Color::Blue.as_str(), "blue");
    assert_eq!(Color::Yellow.as_str(), "yellow");
    assert_eq!(Color::Pink.as_str(), "pink");
}

#[test]
fn beacon_becomes_reading() {
    let b = ibeacon_parser(FIXTURE).unwrap();
    let e = Event::try_from(b).unwrap();
    assert_eq!(e, Event { color: Color::Red, temperature: 58, gravity: 1068 });
}

#[test]
fn beacon_of_unknown_hydrometer_gives_error() {
    let rec = record(0x1234, 70, 1010);
    let b = ibeacon_parser(&rec).unwrap();
    assert_eq!(Event::try_from(b), Err(EventError::UnknownUuidError(0x1234)));
}

#[test]
fn frame_gives_readings_in_order() {
    let f = frame(&[
        (0x00, 0x00, record(BLUE_UUID, 65, 1050)),
        (0x03, 0x01, vec![1, 2, 3]),
        (0x00, 0x00, record(0x99, 1, 2)),
        (0x04, 0x02, record(PINK_UUID, 70, 998)),
    ]);
    let r = decode_readings(&f);
    assert_eq!(
        r,
        vec![
            Event { color: Color::Blue, temperature: 65, gravity: 1050 },
            Event { color: Color::Pink, temperature: 70, gravity: 998 },
        ]
    );
}

#[test]
fn report_with_bad_type_gives_no_reading() {
    let f = frame(&[
        (0x07, 0x00, record(RED_UUID, 60, 1000)),
        (0x00, 0x00, record(GREEN_UUID, 61, 1001)),
    ]);
    let r = decode_readings(&f);
    assert_eq!(r, vec![Event { color: Color::Green, temperature: 61, gravity: 1001 }]);
}

#[test]
fn undecodable_frame_gives_no_reading() {
    let mut f = frame(&[(0x00, 0x00, record(RED_UUID, 60, 1000))]);
    f.push(0);
    assert!(decode_readings(&f).is_empty());
    assert!(decode_readings(&[]).is_empty());
}
