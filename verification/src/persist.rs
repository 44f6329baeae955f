//! The binary layout of a stored record.
//!
//! A record is stored as the number of its events in eight bytes, followed
//! by the events in order. An event is a four-byte tag and its fields; the
//! time follows in sixteen bytes. Every number is little-endian. There is no
//! version field and no terminator: bytes after the last event are ignored.

use vstd::prelude::*;
use vstd::slice::slice_subrange;
use crate::input::MouseButton;
use crate::state::Event;
use crate::state::Record;
use crate::state::TimedEvent;
use crate::wire::from_twos_complement;
use crate::wire::le_bytes;
use crate::wire::le_value;
use crate::wire::lemma_le_bytes_len;
use crate::wire::lemma_le_value_of_le_bytes;
use crate::wire::lemma_radix_values;
use crate::wire::read_bool;
use crate::wire::read_i32;
use crate::wire::read_u128;
use crate::wire::read_u32;
use crate::wire::read_u64;
use crate::wire::twos_complement;
use crate::wire::write_bool;
use crate::wire::write_i32;
use crate::wire::write_u128;
use crate::wire::write_u32;
use crate::wire::write_u64;

verus! {

/// Why a record could not be loaded.
#[derive(Clone, Copy, Debug, PartialEq, Eq)]
pub enum LoadError {
    /// There is no record file.
    NotFound,
    /// The record file could not be read.
    Io,
    /// The bytes of the record file are not a record.
    Corrupt,
}

/// Tag of a stored pointer move.
pub const TAG_MOUSE_MOVE: u32 = 0;

/// Tag of a stored button transition.
pub const TAG_MOUSE_BUTTON: u32 = 1;

/// Tag of the left button.
pub const TAG_LEFT: u32 = 0;

/// Tag of the right button.
pub const TAG_RIGHT: u32 = 1;

/// Stored length of a pointer move with its time.
pub const MOVE_LEN: usize = 28;

/// Stored length of a button transition with its time.
pub const BUTTON_LEN: usize = 25;

/// The tag that stands for a button.
pub open spec fn button_tag(button: MouseButton) -> u32 {
    match button {
        MouseButton::Left => TAG_LEFT,
        MouseButton::Right => TAG_RIGHT,
    }
}

/// The bytes of one event with its time.
pub open spec fn event_bytes(e: TimedEvent) -> Seq<u8> {
    match e.event {
        Event::MouseMove { x, y } => le_bytes(TAG_MOUSE_MOVE as nat, 4) + le_bytes(
            twos_complement(x),
            4,
        ) + le_bytes(twos_complement(y), 4) + le_bytes(e.t_nanos as nat, 16),
        Event::MouseButton { button, down } => le_bytes(TAG_MOUSE_BUTTON as nat, 4) + le_bytes(
            button_tag(button) as nat,
            4,
        ) + seq![if down { 1u8 } else { 0u8 }] + le_bytes(e.t_nanos as nat, 16),
    }
}

/// The bytes of a sequence of events, one after the other.
pub open spec fn events_bytes(events: Seq<TimedEvent>) -> Seq<u8>
    decreases events.len(),
{
    if events.len() == 0 {
        Seq::empty()
    } else {
        event_bytes(events.first()) + events_bytes(events.drop_first())
    }
}

/// The bytes of a record: the number of its events, then the events.
pub open spec fn record_bytes(events: Seq<TimedEvent>) -> Seq<u8> {
    le_bytes(events.len(), 8) + events_bytes(events)
}

/// The event at the front of `bytes` and the number of bytes it takes, or
/// `None` where the front of `bytes` is no event.
pub open spec fn parse_event(bytes: Seq<u8>) -> Option<(TimedEvent, nat)> {
    if bytes.len() < 4 {
        None
    } else if le_value(bytes.take(4)) == TAG_MOUSE_MOVE {
        if bytes.len() < MOVE_LEN {
            None
        } else {
            Some(
                (
                    TimedEvent {
                        event: Event::MouseMove {
                            x: from_twos_complement(le_value(bytes.subrange(4, 8))),
                            y: from_twos_complement(le_value(bytes.subrange(8, 12))),
                        },
                        t_nanos: le_value(bytes.subrange(12, 28)) as u128,
                    },
                    MOVE_LEN as nat,
                ),
            )
        }
    } else if le_value(bytes.take(4)) == TAG_MOUSE_BUTTON {
        if bytes.len() < BUTTON_LEN || le_value(bytes.subrange(4, 8)) > TAG_RIGHT || bytes[8] > 1 {
            None
        } else {
            Some(
                (
                    TimedEvent {
                        event: Event::MouseButton {
                            button: if le_value(bytes.subrange(4, 8)) == TAG_LEFT {
                                MouseButton::Left
                            } else {
                                MouseButton::Right
                            },
                            down: bytes[8] == 1,
                        },
                        t_nanos: le_value(bytes.subrange(9, 25)) as u128,
                    },
                    BUTTON_LEN as nat,
                ),
            )
        }
    } else {
        None
    }
}

/// The `count` events at the front of `bytes`, or `None` where the front
/// of `bytes` does not hold that many.
pub open spec fn parse_events(bytes: Seq<u8>, count: nat) -> Option<Seq<TimedEvent>>
    decreases count,
{
    if count == 0 {
        Some(Seq::empty())
    } else {
        match parse_event(bytes) {
            None => None,
            Some((first, len)) => match parse_events(bytes.skip(len as int), (count - 1) as nat) {
                None => None,
                Some(rest) => Some(seq![first] + rest),
            },
        }
    }
}

/// The record that `bytes` hold, or `None` where they hold none.
pub open spec fn parse_record(bytes: Seq<u8>) -> Option<Seq<TimedEvent>> {
    if bytes.len() < 8 {
        None
    } else {
        parse_events(bytes.skip(8), le_value(bytes.take(8)))
    }
}

/// An event takes as many bytes as its kind says.
pub proof fn lemma_event_bytes_len(e: TimedEvent)
    ensures
        event_bytes(e).len() == match e.event {
            Event::MouseMove { x, y } => MOVE_LEN,
            Event::MouseButton { button, down } => BUTTON_LEN,
        },
{
    lemma_le_bytes_len(TAG_MOUSE_MOVE as nat, 4);
    lemma_le_bytes_len(TAG_MOUSE_BUTTON as nat, 4);
    lemma_le_bytes_len(e.t_nanos as nat, 16);
    match e.event {
        Event::MouseMove { x, y } => {
            lemma_le_bytes_len(twos_complement(x), 4);
            lemma_le_bytes_len(twos_complement(y), 4);
        },
        Event::MouseButton { button, down } => {
            lemma_le_bytes_len(button_tag(button) as nat, 4);
        },
    }
}

/// The bytes of a log that grew by one event are the bytes of the log,
/// then those of the event.
pub proof fn lemma_events_bytes_push(events: Seq<TimedEvent>, e: TimedEvent)
    ensures
        events_bytes(events.push(e)) == events_bytes(events) + event_bytes(e),
    decreases events.len(),
{
    let grown = events.push(e);
    if events.len() == 0 {
        assert(events_bytes(grown.drop_first()) =~= Seq::<u8>::empty());
    } else {
        lemma_events_bytes_push(events.drop_first(), e);
        assert(grown.drop_first() =~= events.drop_first().push(e));
    }
}

/// An event is read back from its bytes, whatever follows them.
pub proof fn lemma_parse_event_of_bytes(e: TimedEvent, tail: Seq<u8>)
    ensures
        parse_event(event_bytes(e) + tail) == Some((e, event_bytes(e).len())),
{
    lemma_radix_values();
    lemma_event_bytes_len(e);
    let bytes = event_bytes(e) + tail;
    let time = le_bytes(e.t_nanos as nat, 16);
    lemma_le_bytes_len(e.t_nanos as nat, 16);
    lemma_le_value_of_le_bytes(e.t_nanos as nat, 16);
    match e.event {
        Event::MouseMove { x, y } => {
            let tag = le_bytes(TAG_MOUSE_MOVE as nat, 4);
            let xs = le_bytes(twos_complement(x), 4);
            let ys = le_bytes(twos_complement(y), 4);
            lemma_le_bytes_len(TAG_MOUSE_MOVE as nat, 4);
            lemma_le_bytes_len(twos_complement(x), 4);
            lemma_le_bytes_len(twos_complement(y), 4);
            lemma_le_value_of_le_bytes(TAG_MOUSE_MOVE as nat, 4);
            lemma_le_value_of_le_bytes(twos_complement(x), 4);
            lemma_le_value_of_le_bytes(twos_complement(y), 4);
            assert(bytes.take(4) =~= tag);
            assert(bytes.subrange(4, 8) =~= xs);
            assert(bytes.subrange(8, 12) =~= ys);
            assert(bytes.subrange(12, 28) =~= time);
        },
        Event::MouseButton { button, down } => {
            let tag = le_bytes(TAG_MOUSE_BUTTON as nat, 4);
            let which = le_bytes(button_tag(button) as nat, 4);
            lemma_le_bytes_len(TAG_MOUSE_BUTTON as nat, 4);
            lemma_le_bytes_len(button_tag(button) as nat, 4);
            lemma_le_value_of_le_bytes(TAG_MOUSE_BUTTON as nat, 4);
            lemma_le_value_of_le_bytes(button_tag(button) as nat, 4);
            assert(bytes.take(4) =~= tag);
            assert(bytes.subrange(4, 8) =~= which);
            assert(bytes.subrange(9, 25) =~= time);
        },
    }
}

/// A log is read back from its bytes, whatever follows them.
pub proof fn lemma_parse_events_of_bytes(events: Seq<TimedEvent>, tail: Seq<u8>)
    ensures
        parse_events(events_bytes(events) + tail, events.len()) == Some(events),
    decreases events.len(),
{
    if events.len() == 0 {
        assert(events =~= Seq::<TimedEvent>::empty());
    } else {
        let first = events.first();
        let rest = events.drop_first();
        let bytes = events_bytes(events) + tail;
        let after = events_bytes(rest) + tail;
        assert(bytes =~= event_bytes(first) + after);
        lemma_parse_event_of_bytes(first, after);
        assert(bytes.skip(event_bytes(first).len() as int) =~= after);
        lemma_parse_events_of_bytes(rest, tail);
    }
}

/// A record is read back from its bytes, whatever follows them.
pub proof fn lemma_decode_ignores_tail(events: Seq<TimedEvent>, tail: Seq<u8>)
    requires
        events.len() <= u64::MAX,
    ensures
        parse_record(record_bytes(events) + tail) == Some(events),
{
    lemma_radix_values();
    lemma_le_bytes_len(events.len(), 8);
    lemma_le_value_of_le_bytes(events.len(), 8);
    let bytes = record_bytes(events) + tail;
    assert(bytes.take(8) =~= le_bytes(events.len(), 8));
    assert(bytes.skip(8) =~= events_bytes(events) + tail);
    lemma_parse_events_of_bytes(events, tail);
}

/// Decoding inverts encoding: every record is read back from its bytes
/// exactly as it was, the empty record included.
pub proof fn lemma_decode_inverts_encode(events: Seq<TimedEvent>)
    requires
        events.len() <= u64::MAX,
    ensures
        parse_record(record_bytes(events)) == Some(events),
{
    lemma_decode_ignores_tail(events, Seq::empty());
}

/// Appends the bytes that a write gave.
fn put(out: &mut Vec<u8>, piece: Result<Vec<u8>, bincode::Error>)
    requires
        piece is Ok,
    ensures
        final(out)@ == old(out)@ + piece->Ok_0@,
{
    match piece {
        Ok(mut bytes) => {
            out.append(&mut bytes);
        },
        Err(_) => {},
    }
}

/// Appends the bytes of one event with its time.
fn encode_event(out: &mut Vec<u8>, e: &TimedEvent)
    ensures
        final(out)@ == old(out)@ + event_bytes(*e),
{
    match e.event {
        Event::MouseMove { x, y } => {
            put(out, write_u32(TAG_MOUSE_MOVE));
            put(out, write_i32(x));
            put(out, write_i32(y));
        },
        Event::MouseButton { button, down } => {
            put(out, write_u32(TAG_MOUSE_BUTTON));
            let which: u32 = match button {
                MouseButton::Left => TAG_LEFT,
                MouseButton::Right => TAG_RIGHT,
            };
            put(out, write_u32(which));
            put(out, write_bool(down));
        },
    }
    put(out, write_u128(e.t_nanos));
}

/// The bytes under which a record is stored. Decoding them gives the
/// record back.
pub fn encode(record: &Record) -> (bytes: Vec<u8>)
    ensures
        bytes@ == record_bytes(record@),
        parse_record(bytes@) == Some(record@),
{
    let mut out: Vec<u8> = Vec::new();
    put(&mut out, write_u64(record.events.len() as u64));
    let mut i: usize = 0;
    while i < record.events.len()
        invariant
            i <= record.events.len(),
            out@ == le_bytes(record@.len(), 8) + events_bytes(record@.take(i as int)),
        decreases record.events.len() - i,
    {
        encode_event(&mut out, &record.events[i]);
        proof {
            lemma_events_bytes_push(record@.take(i as int), record@[i as int]);
            assert(record@.take(i as int).push(record@[i as int]) =~= record@.take(i + 1));
        }
        i += 1;
    }
    proof {
        assert(record@.take(i as int) =~= record@);
        lemma_decode_inverts_encode(record@);
    }
    out
}

/// The bytes from position `at` on.
fn from(bytes: &[u8], at: usize) -> (rest: &[u8])
    requires
        at <= bytes@.len(),
    ensures
        rest@ == bytes@.skip(at as int),
{
    slice_subrange(bytes, at, bytes.len())
}

/// Reads the event that begins at position `pos`, and says where the next
/// one begins.
fn decode_event(bytes: &[u8], pos: usize) -> (r: Result<(TimedEvent, usize), LoadError>)
    requires
        pos <= bytes@.len(),
    ensures
        match parse_event(bytes@.skip(pos as int)) {
            Some((e, len)) => r matches Ok((event, next)) && event == e && next == pos + len
                && next <= bytes@.len(),
            None => r == Err::<(TimedEvent, usize), LoadError>(LoadError::Corrupt),
        },
{
    let rest = from(bytes, pos);
    assert(rest@.len() == bytes.len() - pos);
    let tag: u32 = match read_u32(rest) {
        Ok(tag) => tag,
        Err(_) => {
            return Err(LoadError::Corrupt);
        },
    };
    if tag == TAG_MOUSE_MOVE {
        let x: i32 = match read_i32(from(rest, 4)) {
            Ok(x) => x,
            Err(_) => {
                return Err(LoadError::Corrupt);
            },
        };
        let y: i32 = match read_i32(from(rest, 8)) {
            Ok(y) => y,
            Err(_) => {
                return Err(LoadError::Corrupt);
            },
        };
        let t_nanos: u128 = match read_u128(from(rest, 12)) {
            Ok(t) => t,
            Err(_) => {
                return Err(LoadError::Corrupt);
            },
        };
        proof {
            assert(rest@.skip(4).take(4) =~= rest@.subrange(4, 8));
            assert(rest@.skip(8).take(4) =~= rest@.subrange(8, 12));
            assert(rest@.skip(12).take(16) =~= rest@.subrange(12, 28));
        }
        Ok((TimedEvent { event: Event::MouseMove { x, y }, t_nanos }, pos + MOVE_LEN))
    } else if tag == TAG_MOUSE_BUTTON {
        let which: u32 = match read_u32(from(rest, 4)) {
            Ok(which) => which,
            Err(_) => {
                return Err(LoadError::Corrupt);
            },
        };
        proof {
            assert(rest@.skip(4).take(4) =~= rest@.subrange(4, 8));
        }
        let button = if which == TAG_LEFT {
            MouseButton::Left
        } else if which == TAG_RIGHT {
            MouseButton::Right
        } else {
            return Err(LoadError::Corrupt);
        };
        let down: bool = match read_bool(from(rest, 8)) {
            Ok(down) => down,
            Err(_) => {
                return Err(LoadError::Corrupt);
            },
        };
        let t_nanos: u128 = match read_u128(from(rest, 9)) {
            Ok(t) => t,
            Err(_) => {
                return Err(LoadError::Corrupt);
            },
        };
        proof {
            assert(rest@.skip(9).take(16) =~= rest@.subrange(9, 25));
        }
        Ok((TimedEvent { event: Event::MouseButton { button, down }, t_nanos }, pos + BUTTON_LEN))
    } else {
        Err(LoadError::Corrupt)
    }
}

/// Reads a record back from the bytes under which it was stored.
///
/// Bytes after the last event are ignored. Bytes that hold no record are
/// refused as [`LoadError::Corrupt`].
pub fn decode(bytes: &[u8]) -> (r: Result<Record, LoadError>)
    ensures
        match parse_record(bytes@) {
            Some(events) => r matches Ok(record) && record@ == events,
            None => r == Err::<Record, LoadError>(LoadError::Corrupt),
        },
{
    let count: u64 = match read_u64(bytes) {
        Ok(count) => count,
        Err(_) => {
            return Err(LoadError::Corrupt);
        },
    };
    let mut events: Vec<TimedEvent> = Vec::new();
    let mut pos: usize = 8;
    let mut i: u64 = 0;
    while i < count
        invariant
            i <= count,
            8 <= pos <= bytes@.len(),
            parse_record(bytes@) == parse_events(bytes@.skip(8), count as nat),
            parse_events(bytes@.skip(8), count as nat) == match parse_events(
                bytes@.skip(pos as int),
                (count - i) as nat,
            ) {
                Some(rest) => Some(events@ + rest),
                None => None,
            },
        decreases count - i,
    {
        let ghost here = bytes@.skip(pos as int);
        match decode_event(bytes, pos) {
            Ok((e, next)) => {
                events.push(e);
                assert(here.skip(next - pos) =~= bytes@.skip(next as int));
                pos = next;
            },
            Err(e) => {
                return Err(e);
            },
        }
        i += 1;
    }
    Ok(Record { events })
}

/// The record that reading the record file gave.
///
/// `contents` is what the read returned: the bytes of the file, or why
/// there are none. A failed read is handed on as it is; bytes that hold no
/// record are refused as [`LoadError::Corrupt`]. An empty record is never
/// made up in their place.
pub fn load(contents: Result<Vec<u8>, LoadError>) -> (r: Result<Record, LoadError>)
    ensures
        match contents {
            Err(e) => r == Err::<Record, LoadError>(e),
            Ok(bytes) => match parse_record(bytes@) {
                Some(events) => r matches Ok(record) && record@ == events,
                None => r == Err::<Record, LoadError>(LoadError::Corrupt),
            },
        },
{
    match contents {
        Err(e) => Err(e),
        Ok(bytes) => decode(bytes.as_slice()),
    }
}

} // verus!
