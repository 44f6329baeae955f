use input_replay::input::MouseButton;
use input_replay::persist::{decode, encode, load, LoadError};
use input_replay::state::{Event, Record, TimedEvent};

fn moved(x: i32, y: i32, t_nanos: u128) -> TimedEvent {
    TimedEvent { event: Event::MouseMove { x, y }, t_nanos }
}

fn pressed(button: MouseButton, down: bool, t_nanos: u128) -> TimedEvent {
    TimedEvent { event: Event::MouseButton { button, down }, t_nanos }
}

fn sample() -> Record {
    Record {
        events: vec![
            moved(-2, 3, 5_000_000),
            pressed(MouseButton::Right, true, 0x0102030405060708090a0b0c0d0e0f10),
        ],
    }
}

fn sample_bytes() -> Vec<u8> {
    let mut bytes = vec![2, 0, 0, 0, 0, 0, 0, 0];
    bytes.extend([0, 0, 0, 0]);
    bytes.extend([254, 255, 255, 255]);
    bytes.extend([3, 0, 0, 0]);
    bytes.extend([64, 75, 76, 0, 0, 0, 0, 0, 0, 0, 0, 0, 0, 0, 0, 0]);
    bytes.extend([1, 0, 0, 0]);
    bytes.extend([1, 0, 0, 0]);
    bytes.extend([1]);
    bytes.extend([16, 15, 14, 13, 12, 11, 10, 9, 8, 7, 6, 5, 4, 3, 2, 1]);
    bytes
}

#[test]
fn empty_record_is_eight_zero_bytes() {
    assert_eq!(encode(&Record { events: vec![] }), vec![0u8; 8]);
    assert_eq!(decode(&[0u8; 8]), Ok(Record { events: vec![] }));
}

#[test]
fn encode_lays_fields_out_little_endian() {
    assert_eq!(encode(&sample()), sample_bytes());
}

#[test]
fn encode_writes_each_button_and_direction() {
    let record = Record {
        events: vec![pressed(MouseButton::Left, false, 1), pressed(MouseButton::Left, true, 2)],
    };
    let bytes = encode(&record);
    assert_eq!(bytes.len(), 8 + 25 + 25);
    assert_eq!(&bytes[8..17], &[1, 0, 0, 0, 0, 0, 0, 0, 0]);
    assert_eq!(&bytes[33..42], &[1, 0, 0, 0, 0, 0, 0, 0, 1]);
    assert_eq!(bytes[42], 2);
}

#[test]
fn decode_reads_fields_back() {
    assert_eq!(decode(&sample_bytes()), Ok(sample()));
}

#[test]
fn decode_inverts_encode() {
    let records = [
        Record { events: vec![] },
        sample(),
        Record {
            events: vec![
                moved(i32::MIN, i32::MAX, 0),
                moved(-1, 0, u128::MAX),
                pressed(MouseButton::Left, true, 1),
                pressed(MouseButton::Left, false, u64::MAX as u128 + 1),
                pressed(MouseButton::Right, true, 7),
                pressed(MouseButton::Right, false, 7),
            ],
        },
    ];
    for record in records {
        assert_eq!(decode(&encode(&record)), Ok(record));
    }
}

#[test]
fn decode_inverts_encode_on_thousands_of_events() {
    let mut events = Vec::new();
    for i in 0..5_000u32 {
        let t_nanos = (i as u128) * 1_000_003;
        if i % 3 == 0 {
            events.push(pressed(
                if i % 2 == 0 { MouseButton::Left } else { MouseButton::Right },
                i % 5 < 2,
                t_nanos,
            ));
        } else {
            events.push(moved(i as i32 - 2_500, 7 - i as i32, t_nanos));
        }
    }
    let record = Record { events };
    let bytes = encode(&record);
    assert_eq!(decode(&bytes), Ok(record));
}

#[test]
fn decode_ignores_bytes_after_the_last_event() {
    let mut bytes = sample_bytes();
    bytes.extend([9, 9, 9]);
    assert_eq!(decode(&bytes), Ok(sample()));
}

#[test]
fn decode_refuses_a_short_count() {
    assert_eq!(decode(&[]), Err(LoadError::Corrupt));
    assert_eq!(decode(&[1, 0, 0, 0, 0, 0, 0]), Err(LoadError::Corrupt));
}

#[test]
fn decode_refuses_missing_events() {
    assert_eq!(decode(&[1, 0, 0, 0, 0, 0, 0, 0]), Err(LoadError::Corrupt));
    let mut bytes = sample_bytes();
    bytes[0] = 3;
    assert_eq!(decode(&bytes), Err(LoadError::Corrupt));
    assert_eq!(decode(&[255; 8]), Err(LoadError::Corrupt));
}

#[test]
fn decode_refuses_a_cut_event() {
    let bytes = sample_bytes();
    for len in 8..bytes.len() {
        assert_eq!(decode(&bytes[..len]), Err(LoadError::Corrupt));
    }
}

#[test]
fn decode_refuses_an_unknown_event_tag() {
    let mut bytes = sample_bytes();
    bytes[8] = 2;
    assert_eq!(decode(&bytes), Err(LoadError::Corrupt));
    let mut bytes = sample_bytes();
    bytes[11] = 1;
    assert_eq!(decode(&bytes), Err(LoadError::Corrupt));
}

#[test]
fn decode_refuses_an_unknown_button_tag() {
    let mut bytes = sample_bytes();
    bytes[40] = 2;
    assert_eq!(decode(&bytes), Err(LoadError::Corrupt));
}

#[test]
fn decode_refuses_a_malformed_flag() {
    let mut bytes = sample_bytes();
    bytes[44] = 2;
    assert_eq!(decode(&bytes), Err(LoadError::Corrupt));
    bytes[44] = 0;
    let mut expected = sample();
    expected.events[1] = pressed(MouseButton::Right, false, 0x0102030405060708090a0b0c0d0e0f10);
    assert_eq!(decode(&bytes), Ok(expected));
}

#[test]
fn moves_are_stored_as_the_serializer_stores_their_fields() {
    let fields: Vec<(u32, i32, i32, u128)> =
        vec![(0, 100, 200, 5_000_000), (0, -7, i32::MIN, u128::MAX), (0, 0, 0, 0)];
    let record = Record { events: fields.iter().map(|f| moved(f.1, f.2, f.3)).collect() };
    let stored = bincode::serialize(&fields).unwrap();
    assert_eq!(encode(&record), stored);
    assert_eq!(decode(&stored), Ok(record));
}

#[test]
fn button_transitions_are_stored_as_the_serializer_stores_their_fields() {
    let fields: Vec<(u32, u32, bool, u128)> =
        vec![(1, 0, true, 1), (1, 0, false, 2), (1, 1, true, 3), (1, 1, false, 1 << 100)];
    let button = |tag| if tag == 0 { MouseButton::Left } else { MouseButton::Right };
    let record =
        Record { events: fields.iter().map(|f| pressed(button(f.1), f.2, f.3)).collect() };
    let stored = bincode::serialize(&fields).unwrap();
    assert_eq!(encode(&record), stored);
    assert_eq!(decode(&stored), Ok(record));
}

#[test]
fn load_hands_a_failed_read_on() {
    assert_eq!(load(Err(LoadError::NotFound)), Err(LoadError::NotFound));
    assert_eq!(load(Err(LoadError::Io)), Err(LoadError::Io));
}

#[test]
fn load_decodes_what_was_read() {
    assert_eq!(load(Ok(sample_bytes())), Ok(sample()));
    assert_eq!(load(Ok(vec![])), Err(LoadError::Corrupt));
    assert_eq!(load(Ok(vec![0; 8])), Ok(Record { events: vec![] }));
}
