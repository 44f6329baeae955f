//! The schedule by which a record is played back.
//!
//! Playing is a loop of two things that this crate cannot do: reading a
//! clock and handing an input to the system. What the loop decides stands
//! here. A [`Playback`] is asked, with the time elapsed since playing
//! began, whether the next event is due; the caller emits what it is given
//! and asks again until the playback is finished.

use vstd::prelude::*;
use crate::input::click;
use crate::input::click_input;
use crate::input::cursor_input;
use crate::input::cursor_move;
use crate::input::MouseInput;
use crate::persist::load;
use crate::persist::parse_record;
use crate::persist::LoadError;
use crate::state::Event;
use crate::state::Record;
use crate::state::TimedEvent;

verus! {

/// The input that replays `event` on a screen of `screen_dims` pixels,
/// width first.
pub open spec fn replayed(event: Event, screen_dims: [i32; 2]) -> MouseInput {
    match event {
        Event::MouseMove { x, y } => cursor_move(x, y, screen_dims),
        Event::MouseButton { button, down } => click(button, down),
    }
}

/// Builds the input that replays `event` on a screen of `screen_dims`
/// pixels, width first. For a move, neither extent may be zero.
pub fn replay_input(event: Event, screen_dims: [i32; 2]) -> (input: MouseInput)
    requires
        event is MouseMove ==> screen_dims[0] != 0 && screen_dims[1] != 0,
    ensures
        input == replayed(event, screen_dims),
{
    match event {
        Event::MouseMove { x, y } => cursor_input(x, y, screen_dims),
        Event::MouseButton { button, down } => click_input(button, down),
    }
}

/// The event that is due when `position` events of `events` have been
/// emitted and `elapsed` nanoseconds have passed: the next one, once the
/// elapsed time exceeds its time.
pub open spec fn due_event(events: Seq<TimedEvent>, position: nat, elapsed: u128) -> Option<Event> {
    if position < events.len() && elapsed > events[position as int].t_nanos {
        Some(events[position as int].event)
    } else {
        None
    }
}

/// A record that is being played, and how far.
pub struct Playback {
    record: Record,
    next: usize,
}

impl Playback {
    #[verifier::type_invariant]
    spec fn well_formed(&self) -> bool {
        self.next <= self.record@.len()
    }

    /// The events of the record that is played.
    pub closed spec fn events(&self) -> Seq<TimedEvent> {
        self.record@
    }

    /// The number of events emitted so far.
    pub closed spec fn position(&self) -> nat {
        self.next as nat
    }

    /// Starts playing `record` from its first event.
    pub fn new(record: Record) -> (playback: Playback)
        ensures
            playback.events() == record@,
            playback.position() == 0,
    {
        Playback { record, next: 0 }
    }

    /// Starts playing what reading the record file gave.
    ///
    /// A failed read and bytes that hold no record give the error, and no
    /// playback from which anything could be emitted.
    pub fn begin(contents: Result<Vec<u8>, LoadError>) -> (r: Result<Playback, LoadError>)
        ensures
            match contents {
                Err(e) => r == Err::<Playback, LoadError>(e),
                Ok(bytes) => match parse_record(bytes@) {
                    Some(events) => r matches Ok(playback) && playback.events() == events
                        && playback.position() == 0,
                    None => r == Err::<Playback, LoadError>(LoadError::Corrupt),
                },
            },
    {
        match load(contents) {
            Ok(record) => Ok(Playback::new(record)),
            Err(e) => Err(e),
        }
    }

    /// Whether every event has been emitted.
    pub fn is_finished(&self) -> (finished: bool)
        ensures
            finished == (self.position() == self.events().len()),
            self.position() <= self.events().len(),
    {
        proof {
            use_type_invariant(self);
        }
        self.next == self.record.events.len()
    }

    /// Asks for the event that is due `elapsed` nanoseconds after playing
    /// began. The event that is handed out counts as emitted.
    pub fn poll(&mut self, elapsed: u128) -> (due: Option<Event>)
        ensures
            due == due_event(old(self).events(), old(self).position(), elapsed),
            final(self).events() == old(self).events(),
            final(self).position() == old(self).position() + (if due is Some {
                1nat
            } else {
                0nat
            }),
            final(self).position() <= final(self).events().len(),
    {
        proof {
            use_type_invariant(&*self);
        }
        if self.next < self.record.events.len() {
            let timed: TimedEvent = self.record.events[self.next];
            if elapsed > timed.t_nanos {
                self.next = self.next + 1;
                return Some(timed.event);
            }
        }
        None
    }
}

/// One event handed out by a poll, with the elapsed time of that poll.
pub struct Emission {
    pub elapsed: u128,
    pub event: Event,
}

/// The number of events emitted after polls at the elapsed times
/// `readings`, in order, when `position` events had been emitted before.
pub open spec fn position_after(events: Seq<TimedEvent>, position: nat, readings: Seq<u128>) -> nat
    decreases readings.len(),
{
    if readings.len() == 0 {
        position
    } else {
        let before = position_after(events, position, readings.drop_last());
        if due_event(events, before, readings.last()) is Some {
            before + 1
        } else {
            before
        }
    }
}

/// What those polls hand out, in order.
pub open spec fn emissions(events: Seq<TimedEvent>, position: nat, readings: Seq<u128>) -> Seq<
    Emission,
>
    decreases readings.len(),
{
    if readings.len() == 0 {
        Seq::empty()
    } else {
        let sofar = emissions(events, position, readings.drop_last());
        let before = position_after(events, position, readings.drop_last());
        match due_event(events, before, readings.last()) {
            Some(event) => sofar.push(Emission { elapsed: readings.last(), event }),
            None => sofar,
        }
    }
}

/// Events are emitted in recorded order, none skipped and none twice, and
/// each only once the elapsed time exceeds its recorded time: whatever the
/// clock does, the emissions of any run of polls are the next events of the
/// record, one for one.
pub proof fn lemma_emitted_in_recorded_order(
    events: Seq<TimedEvent>,
    position: nat,
    readings: Seq<u128>,
)
    requires
        position <= events.len(),
    ensures
        position <= position_after(events, position, readings) <= events.len(),
        emissions(events, position, readings).len() == position_after(events, position, readings)
            - position,
        forall|k: int|
            0 <= k < emissions(events, position, readings).len() ==> {
                &&& (#[trigger] emissions(events, position, readings)[k]).event == events[position
                    + k].event
                &&& emissions(events, position, readings)[k].elapsed > events[position + k].t_nanos
            },
    decreases readings.len(),
{
    if readings.len() > 0 {
        lemma_emitted_in_recorded_order(events, position, readings.drop_last());
    }
}

} // verus!
