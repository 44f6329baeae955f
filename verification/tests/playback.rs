use input_replay::input::{MouseButton, MouseInput};
use input_replay::persist::{encode, LoadError};
use input_replay::play::{replay_input, Playback};
use input_replay::state::{Event, Record, TimedEvent};

fn three_events() -> Record {
    Record {
        events: vec![
            TimedEvent { event: Event::MouseMove { x: 10, y: 20 }, t_nanos: 0 },
            TimedEvent {
                event: Event::MouseButton { button: MouseButton::Left, down: true },
                t_nanos: 10_000_000,
            },
            TimedEvent {
                event: Event::MouseButton { button: MouseButton::Left, down: false },
                t_nanos: 50_000_000,
            },
        ],
    }
}

/// Polls at each reading in turn and notes what came out, and when.
fn drive(playback: &mut Playback, clock: &[u128]) -> Vec<(u128, Event)> {
    let mut emitted = Vec::new();
    for elapsed in clock {
        if let Some(event) = playback.poll(*elapsed) {
            emitted.push((*elapsed, event));
        }
    }
    emitted
}

#[test]
fn scenario_three_events_are_emitted_on_schedule() {
    let record = three_events();
    let mut playback = Playback::new(record.clone());
    let clock = [
        0, 1, 2, 9_999_999, 10_000_000, 10_000_001, 10_000_002, 49_000_000, 50_000_000,
        50_000_003, 50_000_004,
    ];
    let emitted = drive(&mut playback, &clock);
    assert_eq!(
        emitted,
        vec![
            (1, record.events[0].event),
            (10_000_001, record.events[1].event),
            (50_000_003, record.events[2].event),
        ]
    );
    for (at, timed) in emitted.iter().zip(&record.events) {
        assert!(at.0 >= timed.t_nanos);
    }
    assert!(playback.is_finished());
}

#[test]
fn late_polls_still_emit_in_recorded_order() {
    let record = three_events();
    let mut playback = Playback::new(record.clone());
    assert!(!playback.is_finished());
    assert_eq!(playback.poll(1_000_000_000), Some(record.events[0].event));
    assert!(!playback.is_finished());
    assert_eq!(playback.poll(1_000_000_000), Some(record.events[1].event));
    assert_eq!(playback.poll(1_000_000_000), Some(record.events[2].event));
    assert!(playback.is_finished());
    assert_eq!(playback.poll(2_000_000_000), None);
    assert!(playback.is_finished());
}

#[test]
fn an_event_is_due_only_after_its_time() {
    let mut playback = Playback::new(three_events());
    assert_eq!(playback.poll(0), None);
    assert!(playback.poll(1).is_some());
    assert_eq!(playback.poll(10_000_000), None);
    assert!(playback.poll(10_000_001).is_some());
}

#[test]
fn a_clock_that_goes_back_emits_nothing_early() {
    let mut playback = Playback::new(three_events());
    assert!(playback.poll(5).is_some());
    assert_eq!(playback.poll(60_000_000), Some(three_events().events[1].event));
    assert_eq!(playback.poll(3), None);
    assert_eq!(playback.poll(50_000_000), None);
    assert_eq!(playback.poll(50_000_001), Some(three_events().events[2].event));
}

#[test]
fn empty_record_is_finished_at_once() {
    let mut playback = Playback::new(Record { events: vec![] });
    assert!(playback.is_finished());
    assert_eq!(playback.poll(u128::MAX), None);
}

#[test]
fn event_at_the_largest_time_is_never_due() {
    let mut playback = Playback::new(Record {
        events: vec![TimedEvent { event: Event::MouseMove { x: 0, y: 0 }, t_nanos: u128::MAX }],
    });
    assert_eq!(playback.poll(u128::MAX), None);
    assert!(!playback.is_finished());
}

#[test]
fn missing_file_is_propagated_and_nothing_is_played() {
    let outcome = Playback::begin(Err(LoadError::NotFound));
    assert_eq!(outcome.err(), Some(LoadError::NotFound));
}

#[test]
fn unreadable_file_is_propagated() {
    assert_eq!(Playback::begin(Err(LoadError::Io)).err(), Some(LoadError::Io));
}

#[test]
fn corrupt_file_is_refused_and_nothing_is_played() {
    let mut bytes = encode(&three_events());
    bytes.truncate(bytes.len() - 1);
    assert_eq!(Playback::begin(Ok(bytes)).err(), Some(LoadError::Corrupt));
    assert_eq!(Playback::begin(Ok(vec![])).err(), Some(LoadError::Corrupt));
}

#[test]
fn begin_plays_the_stored_record() {
    let record = three_events();
    let mut playback = Playback::begin(Ok(encode(&record))).unwrap();
    let emitted = drive(&mut playback, &[1, 10_000_001, 50_000_001]);
    let events: Vec<Event> = emitted.iter().map(|e| e.1).collect();
    let recorded: Vec<Event> = record.events.iter().map(|t| t.event).collect();
    assert_eq!(events, recorded);
    assert!(playback.is_finished());
}

#[test]
fn replay_input_places_the_cursor_or_clicks() {
    assert_eq!(
        replay_input(Event::MouseMove { x: 960, y: 540 }, [1920, 1080]),
        MouseInput { dx: 32767, dy: 32767, mouse_data: 0, flags: 0xA001, time: 0, extra_info: 0 }
    );
    assert_eq!(
        replay_input(Event::MouseButton { button: MouseButton::Right, down: false }, [1920, 1080]),
        MouseInput { dx: 0, dy: 0, mouse_data: 0, flags: 0x0010, time: 0, extra_info: 0 }
    );
}
