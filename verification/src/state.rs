//! The recorded data and the recording state machine.

use vstd::prelude::*;
use crate::capture::mouse_event;
use crate::capture::translate_mouse;
use crate::capture::VK_F2;
use crate::capture::VK_F3;
use crate::capture::VK_LWIN;
use crate::input::MouseButton;
use crate::input::Point;

verus! {

/// One captured input.
#[derive(Clone, Copy, Debug, PartialEq, Eq, Hash)]
pub enum Event {
    /// The pointer moved to the absolute screen position `(x, y)`.
    MouseMove { x: i32, y: i32 },
    /// `button` went down (`down`) or up.
    MouseButton { button: MouseButton, down: bool },
}

/// An event with the time at which it happened, in nanoseconds since the
/// recording began.
#[derive(Clone, Copy, Debug, PartialEq, Eq, Hash)]
pub struct TimedEvent {
    pub event: Event,
    pub t_nanos: u128,
}

/// The ordered log of one capture session.
#[derive(Clone, Debug, PartialEq, Eq)]
pub struct Record {
    pub events: Vec<TimedEvent>,
}

impl View for Record {
    type V = Seq<TimedEvent>;

    open spec fn view(&self) -> Seq<TimedEvent> {
        self.events@
    }
}

impl Default for Record {
    fn default() -> (record: Record)
        ensures
            record@ == Seq::<TimedEvent>::empty(),
    {
        Record { events: Vec::new() }
    }
}

/// Whether the times of a log never go back.
pub open spec fn chronological(events: Seq<TimedEvent>) -> bool {
    forall|i: int, j: int| 0 <= i <= j < events.len() ==> events[i].t_nanos <= events[j].t_nanos
}

/// Whether a capture is running.
#[derive(Clone, Debug, PartialEq, Eq)]
pub enum RecordingState {
    /// No capture is running.
    Idle,
    /// A capture is running: `record` is its log so far and `start_time` the
    /// clock reading, in nanoseconds, at which it began.
    Recording { record: Record, start_time: u128 },
}

/// The mathematical value of a [`RecordingState`].
pub enum RecordingModel {
    Idle,
    Recording { events: Seq<TimedEvent>, start_time: u128 },
}

impl View for RecordingState {
    type V = RecordingModel;

    open spec fn view(&self) -> RecordingModel {
        match *self {
            RecordingState::Idle => RecordingModel::Idle,
            RecordingState::Recording { record, start_time } => RecordingModel::Recording {
                events: record@,
                start_time,
            },
        }
    }
}

/// Work that the hook thread leaves for the worker.
#[derive(Clone, Debug, PartialEq, Eq)]
pub enum PendingOperation {
    /// Persist the finished `record`.
    SaveRecord { record: Record },
    /// Play the record that was persisted last.
    PlaySavedRecord,
}

/// The mathematical value of a [`PendingOperation`].
pub enum PendingModel {
    SaveRecord { events: Seq<TimedEvent> },
    PlaySavedRecord,
}

impl View for PendingOperation {
    type V = PendingModel;

    open spec fn view(&self) -> PendingModel {
        match *self {
            PendingOperation::SaveRecord { record } => PendingModel::SaveRecord { events: record@ },
            PendingOperation::PlaySavedRecord => PendingModel::PlaySavedRecord,
        }
    }
}

/// The state that the hook callbacks and the worker share.
#[derive(Clone, Debug, PartialEq, Eq)]
pub struct AppState {
    /// Whether a capture is running, and its log.
    pub recording: RecordingState,
    /// The operations that wait for the worker, oldest first.
    pub pending: Vec<PendingOperation>,
    /// Whether the modifier key is held.
    pub modkey_down: bool,
}

/// The mathematical value of an [`AppState`].
pub struct AppModel {
    pub recording: RecordingModel,
    pub pending: Seq<PendingModel>,
    pub modkey_down: bool,
}

impl View for AppState {
    type V = AppModel;

    open spec fn view(&self) -> AppModel {
        AppModel {
            recording: self.recording@,
            pending: self.pending@.map_values(|op: PendingOperation| op@),
            modkey_down: self.modkey_down,
        }
    }
}

/// What a key notification did to the state machine.
#[derive(Clone, Copy, Debug, PartialEq, Eq)]
pub enum KeyOutcome {
    /// Nothing beyond the modifier latch was touched.
    Ignored,
    /// A capture began.
    StartedRecording,
    /// The running capture ended with `events` events and was queued for saving.
    StoppedRecording { events: usize },
    /// Playing the saved record was queued.
    PlayRequested,
}

/// Nanoseconds from the clock reading `start` to the clock reading `now`;
/// zero where `now` lies before `start`.
pub open spec fn elapsed_nanos(start: u128, now: u128) -> u128 {
    if now >= start {
        (now - start) as u128
    } else {
        0
    }
}

/// The log with which a capture begins: one move to where the pointer is, at
/// time zero.
pub open spec fn seed_events(cursor: Point) -> Seq<TimedEvent> {
    seq![TimedEvent { event: Event::MouseMove { x: cursor.x, y: cursor.y }, t_nanos: 0 }]
}

/// The state after a mouse notification that arrives at clock reading `now`.
///
/// While a capture runs, a message that stands for an event appends that
/// event with the time elapsed since the capture began. Nothing else changes.
pub open spec fn mouse_step(s: AppModel, message: u32, pt: Point, now: u128) -> AppModel {
    match (s.recording, mouse_event(message, pt)) {
        (RecordingModel::Recording { events, start_time }, Some(event)) => AppModel {
            recording: RecordingModel::Recording {
                events: events.push(
                    TimedEvent { event, t_nanos: elapsed_nanos(start_time, now) },
                ),
                start_time,
            },
            pending: s.pending,
            modkey_down: s.modkey_down,
        },
        _ => s,
    }
}

/// The modifier latch after the key `vk_code` went down (`down`) or up.
pub open spec fn latch_after(latch: bool, down: bool, vk_code: u32) -> bool {
    if vk_code == VK_LWIN {
        down
    } else {
        latch
    }
}

/// Whether a key notification toggles the capture: the start/stop key goes
/// down while the modifier is held.
pub open spec fn toggles_recording(latch: bool, down: bool, vk_code: u32) -> bool {
    latch_after(latch, down, vk_code) && down && vk_code == VK_F2
}

/// Whether a key notification asks for playback: the play key goes down
/// while the modifier is held.
pub open spec fn triggers_play(latch: bool, down: bool, vk_code: u32) -> bool {
    latch_after(latch, down, vk_code) && down && vk_code == VK_F3
}

/// The state after a key notification that arrives at clock reading `now`
/// while the pointer is at `cursor`.
///
/// The latch follows the modifier key whatever else holds. A toggle starts a
/// capture from idle, seeded with the pointer position, and ends a running
/// one by moving its log into a queued save. A play trigger queues a playback
/// while idle and does nothing while a capture runs.
pub open spec fn key_step(s: AppModel, down: bool, vk_code: u32, cursor: Point, now: u128)
    -> AppModel {
    let latch = latch_after(s.modkey_down, down, vk_code);
    if toggles_recording(s.modkey_down, down, vk_code) {
        match s.recording {
            RecordingModel::Idle => AppModel {
                recording: RecordingModel::Recording {
                    events: seed_events(cursor),
                    start_time: now,
                },
                pending: s.pending,
                modkey_down: latch,
            },
            RecordingModel::Recording { events, start_time } => AppModel {
                recording: RecordingModel::Idle,
                pending: s.pending.push(PendingModel::SaveRecord { events }),
                modkey_down: latch,
            },
        }
    } else if triggers_play(s.modkey_down, down, vk_code) && s.recording is Idle {
        AppModel {
            recording: s.recording,
            pending: s.pending.push(PendingModel::PlaySavedRecord),
            modkey_down: latch,
        }
    } else {
        AppModel { recording: s.recording, pending: s.pending, modkey_down: latch }
    }
}

/// What a key notification reports back, given the state it arrives in.
pub open spec fn key_outcome(s: AppModel, down: bool, vk_code: u32) -> KeyOutcome {
    if toggles_recording(s.modkey_down, down, vk_code) {
        match s.recording {
            RecordingModel::Idle => KeyOutcome::StartedRecording,
            RecordingModel::Recording { events, start_time } => KeyOutcome::StoppedRecording {
                events: events.len() as usize,
            },
        }
    } else if triggers_play(s.modkey_down, down, vk_code) && s.recording is Idle {
        KeyOutcome::PlayRequested
    } else {
        KeyOutcome::Ignored
    }
}

/// The value of the state with which a process starts.
pub open spec fn initial_state() -> AppModel {
    AppModel {
        recording: RecordingModel::Idle,
        pending: Seq::empty(),
        modkey_down: false,
    }
}

impl AppState {
    /// The state at process start: idle, nothing queued, modifier released.
    pub fn new() -> (state: AppState)
        ensures
            state@ == initial_state(),
    {
        let state = AppState {
            recording: RecordingState::Idle,
            pending: Vec::new(),
            modkey_down: false,
        };
        assert(state@.pending =~= Seq::empty());
        state
    }

    /// Handles a mouse notification with message number `message` and
    /// pointer position `pt`, seen at clock reading `now` (nanoseconds).
    pub fn on_mouse_action(&mut self, message: u32, pt: Point, now: u128)
        ensures
            final(self)@ == mouse_step(old(self)@, message, pt, now),
    {
        match &mut self.recording {
            RecordingState::Recording { record, start_time } => {
                let t_nanos: u128 = if now >= *start_time {
                    now - *start_time
                } else {
                    0
                };
                match translate_mouse(message, pt) {
                    Some(event) => {
                        record.events.push(TimedEvent { event, t_nanos });
                    },
                    None => {},
                }
            },
            RecordingState::Idle => {},
        }
    }

    /// Handles a key notification: the key `vk_code` went down (`down`) or
    /// up at clock reading `now` (nanoseconds), with the pointer at `cursor`.
    ///
    /// The result says which notification, if any, the user is owed.
    pub fn on_key_action(&mut self, down: bool, vk_code: u32, cursor: Point, now: u128) -> (outcome:
        KeyOutcome)
        ensures
            final(self)@ == key_step(old(self)@, down, vk_code, cursor, now),
            outcome == key_outcome(old(self)@, down, vk_code),
    {
        if vk_code == VK_LWIN {
            self.modkey_down = down;
        }
        if !self.modkey_down || !down {
            return KeyOutcome::Ignored;
        }
        if vk_code == VK_F2 {
            let mut recorded = RecordingState::Idle;
            core::mem::swap(&mut self.recording, &mut recorded);
            match recorded {
                RecordingState::Idle => {
                    let mut events: Vec<TimedEvent> = Vec::new();
                    events.push(
                        TimedEvent {
                            event: Event::MouseMove { x: cursor.x, y: cursor.y },
                            t_nanos: 0,
                        },
                    );
                    self.recording = RecordingState::Recording {
                        record: Record { events },
                        start_time: now,
                    };
                    KeyOutcome::StartedRecording
                },
                RecordingState::Recording { record, start_time } => {
                    let events: usize = record.events.len();
                    self.pending.push(PendingOperation::SaveRecord { record });
                    assert(self@.pending =~= old(self)@.pending.push(
                        PendingModel::SaveRecord { events: record@ },
                    ));
                    KeyOutcome::StoppedRecording { events }
                },
            }
        } else if vk_code == VK_F3 {
            match self.recording {
                RecordingState::Idle => {
                    self.pending.push(PendingOperation::PlaySavedRecord);
                    assert(self@.pending =~= old(self)@.pending.push(
                        PendingModel::PlaySavedRecord,
                    ));
                    KeyOutcome::PlayRequested
                },
                RecordingState::Recording { .. } => KeyOutcome::Ignored,
            }
        } else {
            KeyOutcome::Ignored
        }
    }

    /// Hands the queued operations to the worker, oldest first, and leaves
    /// the queue empty.
    pub fn take_pending(&mut self) -> (taken: Vec<PendingOperation>)
        ensures
            taken@.map_values(|op: PendingOperation| op@) == old(self)@.pending,
            final(self)@.pending == Seq::<PendingModel>::empty(),
            final(self)@.recording == old(self)@.recording,
            final(self)@.modkey_down == old(self)@.modkey_down,
    {
        let mut taken: Vec<PendingOperation> = Vec::new();
        core::mem::swap(&mut self.pending, &mut taken);
        taken
    }
}

} // verus!
