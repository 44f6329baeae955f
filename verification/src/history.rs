//! Runs of the recording state machine, and what holds of every run.
//!
//! A run is a sequence of hook notifications, each with the clock reading at
//! which it arrived. The functions of [`crate::state::AppState`] are stated
//! over single steps; the proof functions here speak of whole runs.

use vstd::prelude::*;
use crate::capture::mouse_event;
use crate::capture::VK_F2;
use crate::capture::VK_F3;
use crate::capture::VK_LWIN;
use crate::input::Point;
use crate::state::chronological;
use crate::state::elapsed_nanos;
use crate::state::initial_state;
use crate::state::key_outcome;
use crate::state::key_step;
use crate::state::mouse_step;
use crate::state::seed_events;
use crate::state::toggles_recording;
use crate::state::AppModel;
use crate::state::KeyOutcome;
use crate::state::PendingModel;
use crate::state::RecordingModel;
use crate::state::TimedEvent;

verus! {

/// One hook notification, with the clock reading `now` at which it arrived.
pub enum Notification {
    /// A mouse message with the pointer position of its payload.
    Mouse { message: u32, pt: Point, now: u128 },
    /// A key going down or up, with the pointer position at that moment.
    Key { down: bool, vk_code: u32, cursor: Point, now: u128 },
}

/// The clock reading of a notification.
pub open spec fn arrival(n: Notification) -> u128 {
    match n {
        Notification::Mouse { message, pt, now } => now,
        Notification::Key { down, vk_code, cursor, now } => now,
    }
}

/// The state after one notification.
pub open spec fn step(s: AppModel, n: Notification) -> AppModel {
    match n {
        Notification::Mouse { message, pt, now } => mouse_step(s, message, pt, now),
        Notification::Key { down, vk_code, cursor, now } => key_step(s, down, vk_code, cursor, now),
    }
}

/// The state after the notifications `ns`, taken in order.
pub open spec fn run(s: AppModel, ns: Seq<Notification>) -> AppModel
    decreases ns.len(),
{
    if ns.len() == 0 {
        s
    } else {
        step(run(s, ns.drop_last()), ns.last())
    }
}

/// Whether the clock readings never go back along `ns`.
pub open spec fn clock_monotone(ns: Seq<Notification>) -> bool {
    forall|i: int, j: int| 0 <= i <= j < ns.len() ==> arrival(ns[i]) <= arrival(ns[j])
}

/// Whether every log that the state holds, in flight or queued for saving,
/// is chronological.
pub open spec fn logs_chronological(s: AppModel) -> bool {
    &&& s.recording matches RecordingModel::Recording { events, start_time } ==> chronological(
        events,
    )
    &&& forall|k: int|
        0 <= k < s.pending.len() ==> (#[trigger] s.pending[k] matches PendingModel::SaveRecord {
            events,
        } ==> chronological(events))
}

/// Whether no time in the log in flight lies after the clock reading `now`.
pub open spec fn caught_up(s: AppModel, now: u128) -> bool {
    s.recording matches RecordingModel::Recording { events, start_time } ==> forall|i: int|
        0 <= i < events.len() ==> (#[trigger] events[i]).t_nanos <= elapsed_nanos(start_time, now)
}

/// One step keeps every log chronological, as long as the clock has not
/// gone back behind the log in flight.
pub proof fn lemma_step_keeps_order(s: AppModel, n: Notification)
    requires
        logs_chronological(s),
        caught_up(s, arrival(n)),
    ensures
        logs_chronological(step(s, n)),
        caught_up(step(s, n), arrival(n)),
{
    let after = step(s, n);
    assert forall|k: int| 0 <= k < after.pending.len() implies (
    #[trigger] after.pending[k] matches PendingModel::SaveRecord { events } ==> chronological(
        events,
    )) by {
        if k < s.pending.len() {
            assert(after.pending[k] == s.pending[k]);
        }
    }
}

/// Along a clock that never goes back, every log stays chronological: the
/// log in flight and every log queued for saving, after any run.
pub proof fn lemma_run_keeps_order(s: AppModel, ns: Seq<Notification>)
    requires
        logs_chronological(s),
        clock_monotone(ns),
        ns.len() > 0 ==> caught_up(s, arrival(ns[0])),
    ensures
        logs_chronological(run(s, ns)),
        ns.len() > 0 ==> caught_up(run(s, ns), arrival(ns.last())),
    decreases ns.len(),
{
    if ns.len() > 0 {
        let before = ns.drop_last();
        lemma_run_keeps_order(s, before);
        let mid = run(s, before);
        if before.len() > 0 {
            assert(before.last() == ns[ns.len() - 2]);
            assert(arrival(before.last()) <= arrival(ns.last()));
        } else {
            assert(ns.last() == ns[0]);
        }
        lemma_step_keeps_order(mid, ns.last());
    }
}

/// From process start, along a clock that never goes back, every record
/// that is captured has times that never go back.
pub proof fn lemma_records_are_chronological(ns: Seq<Notification>)
    requires
        clock_monotone(ns),
    ensures
        logs_chronological(run(initial_state(), ns)),
{
    lemma_run_keeps_order(initial_state(), ns);
}

/// Whether a notification toggles the capture in the state in which it
/// arrives.
pub open spec fn is_toggle(s: AppModel, n: Notification) -> bool {
    n matches Notification::Key { down, vk_code, cursor, now } && toggles_recording(
        s.modkey_down,
        down,
        vk_code,
    )
}

/// Whether none of `ns` toggles the capture when they arrive in order,
/// the first of them in state `s`.
pub open spec fn no_toggle(s: AppModel, ns: Seq<Notification>) -> bool {
    forall|k: int| 0 <= k < ns.len() ==> !is_toggle(run(s, #[trigger] ns.take(k)), ns[k])
}

/// The events that the notifications `ns` append, in order, to a capture
/// that began at clock reading `start`.
pub open spec fn captured(start: u128, ns: Seq<Notification>) -> Seq<TimedEvent>
    decreases ns.len(),
{
    if ns.len() == 0 {
        Seq::empty()
    } else {
        let before = captured(start, ns.drop_last());
        match ns.last() {
            Notification::Mouse { message, pt, now } => match mouse_event(message, pt) {
                Some(event) => before.push(
                    TimedEvent { event, t_nanos: elapsed_nanos(start, now) },
                ),
                None => before,
            },
            Notification::Key { down, vk_code, cursor, now } => before,
        }
    }
}

/// While no notification toggles it, a running capture keeps running: its
/// log grows by exactly the captured events, and nothing is queued.
pub proof fn lemma_capture_grows(
    s: AppModel,
    events: Seq<TimedEvent>,
    start: u128,
    ns: Seq<Notification>,
)
    requires
        s.recording == (RecordingModel::Recording { events, start_time: start }),
        no_toggle(s, ns),
    ensures
        run(s, ns).recording == (RecordingModel::Recording {
            events: events + captured(start, ns),
            start_time: start,
        }),
        run(s, ns).pending == s.pending,
    decreases ns.len(),
{
    if ns.len() == 0 {
        assert(events + captured(start, ns) =~= events);
    } else {
        let before = ns.drop_last();
        assert forall|k: int| 0 <= k < before.len() implies !is_toggle(
            run(s, #[trigger] before.take(k)),
            before[k],
        ) by {
            assert(before.take(k) =~= ns.take(k));
        }
        lemma_capture_grows(s, events, start, before);
        assert(ns.take(ns.len() - 1) =~= before);
        assert(!is_toggle(run(s, before), ns.last()));
        let grown = events + captured(start, before);
        match ns.last() {
            Notification::Mouse { message, pt, now } => {
                match mouse_event(message, pt) {
                    Some(event) => {
                        let last = TimedEvent { event, t_nanos: elapsed_nanos(start, now) };
                        assert(grown.push(last) =~= events + captured(start, ns));
                    },
                    None => {},
                }
            },
            Notification::Key { down, vk_code, cursor, now } => {},
        }
    }
}

/// A capture window yields exactly one queued save, which holds everything.
///
/// Take an idle state with the modifier held. The start/stop key goes down
/// with the pointer at `cursor`; then come the notifications `window`, none
/// of which toggles the capture, and which leave the modifier held; then the
/// start/stop key goes down again. The state is idle once more, and the
/// queue has grown by one operation: the save of a log that begins with a
/// move to `cursor` at time zero and goes on with the events captured from
/// `window`, in order.
pub proof fn lemma_window_yields_one_save(
    s: AppModel,
    cursor: Point,
    start: u128,
    window: Seq<Notification>,
    stop_cursor: Point,
    stop: u128,
)
    requires
        s.recording is Idle,
        s.modkey_down,
        no_toggle(key_step(s, true, VK_F2, cursor, start), window),
        run(key_step(s, true, VK_F2, cursor, start), window).modkey_down,
    ensures
        ({
            let begun = key_step(s, true, VK_F2, cursor, start);
            let during = run(begun, window);
            let ended = key_step(during, true, VK_F2, stop_cursor, stop);
            let log = seed_events(cursor) + captured(start, window);
            &&& begun.recording == (RecordingModel::Recording {
                events: seed_events(cursor),
                start_time: start,
            })
            &&& during.recording == (RecordingModel::Recording { events: log, start_time: start })
            &&& during.pending == s.pending
            &&& ended.recording is Idle
            &&& ended.pending == s.pending.push(PendingModel::SaveRecord { events: log })
            &&& log[0] == (TimedEvent {
                event: crate::state::Event::MouseMove { x: cursor.x, y: cursor.y },
                t_nanos: 0,
            })
            &&& key_outcome(during, true, VK_F2) == (KeyOutcome::StoppedRecording {
                events: log.len() as usize,
            })
        }),
{
    let begun = key_step(s, true, VK_F2, cursor, start);
    lemma_capture_grows(begun, seed_events(cursor), start, window);
}

/// The modifier latch follows the modifier key whatever the state is, and
/// no other key moves it.
pub proof fn lemma_latch_follows_modifier(
    s: AppModel,
    down: bool,
    vk_code: u32,
    cursor: Point,
    now: u128,
)
    ensures
        key_step(s, down, vk_code, cursor, now).modkey_down == (if vk_code == VK_LWIN {
            down
        } else {
            s.modkey_down
        }),
{
}

/// The play key does nothing while a capture runs.
pub proof fn lemma_play_ignored_while_recording(
    s: AppModel,
    down: bool,
    cursor: Point,
    now: u128,
)
    requires
        s.recording is Recording,
    ensures
        key_step(s, down, VK_F3, cursor, now) == s,
        key_outcome(s, down, VK_F3) == KeyOutcome::Ignored,
{
}

/// Without the modifier held, the start/stop key neither starts nor stops a
/// capture: the state stays as it is, the log in flight included.
pub proof fn lemma_toggle_needs_modifier(s: AppModel, down: bool, cursor: Point, now: u128)
    requires
        !s.modkey_down,
    ensures
        key_step(s, down, VK_F2, cursor, now) == s,
        key_outcome(s, down, VK_F2) == KeyOutcome::Ignored,
{
}

} // verus!
