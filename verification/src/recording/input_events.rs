//! Which input events a recording keeps: button presses and releases, and
//! pointer moves at most about sixty times a second.
use vstd::prelude::*;

verus! {

/// Least time between two recorded pointer moves, in microseconds (about
/// sixty a second).
pub const MOVE_THROTTLE_MICROS: u64 = 16_667;

/// An input event as far as the recorder cares.
#[derive(Debug, Clone, Copy, PartialEq, Eq, Structural)]
pub enum InputEventKind {
    PointerMove,
    ButtonPress,
    ButtonRelease,
    Other,
}

/// The kind of record written for an event.
#[derive(Debug, Clone, Copy, PartialEq, Eq, Structural)]
pub enum MouseRecordKind {
    Move,
    Down,
    Up,
}

/// The recorder's memory: when it last recorded a pointer move, in
/// microseconds on a clock that does not go back; `None` before the first.
/// A time before the last recorded move counts as no time elapsed.
#[derive(Debug, Clone, Copy, PartialEq, Eq, Structural)]
pub struct MoveThrottle {
    pub last_move_at: Option<u64>,
}

/// Is a move at `now` far enough from the last recorded one?
pub open spec fn move_due(t: MoveThrottle, now: u64) -> bool {
    match t.last_move_at {
        None => true,
        Some(last) => now >= last + MOVE_THROTTLE_MICROS,
    }
}

/// The recorder after an event at `now`, and the record it writes, if any:
/// nothing while the streams must not write; a move only when due (see
/// [`move_due`]); every press and release; nothing for other events.
pub open spec fn record_event(t: MoveThrottle, now: u64, kind: InputEventKind, should_write: bool) -> (
    MoveThrottle,
    Option<MouseRecordKind>,
) {
    if !should_write {
        (t, None)
    } else {
        match kind {
            InputEventKind::PointerMove => if move_due(t, now) {
                (MoveThrottle { last_move_at: Some(now) }, Some(MouseRecordKind::Move))
            } else {
                (t, None)
            },
            InputEventKind::ButtonPress => (t, Some(MouseRecordKind::Down)),
            InputEventKind::ButtonRelease => (t, Some(MouseRecordKind::Up)),
            InputEventKind::Other => (t, None),
        }
    }
}

impl MoveThrottle {
    /// A recorder that has recorded no move yet.
    pub fn new() -> (t: MoveThrottle)
        ensures
            t.last_move_at is None,
    {
        MoveThrottle { last_move_at: None }
    }

    /// Handles one event (see [`record_event`]).
    pub fn on_event(&mut self, now: u64, kind: InputEventKind, should_write: bool) -> (r: Option<
        MouseRecordKind,
    >)
        ensures
            (*final(self), r) == record_event(*old(self), now, kind, should_write),
    {
        if !should_write {
            return None;
        }
        match kind {
            InputEventKind::PointerMove => {
                let due = match self.last_move_at {
                    None => true,
                    Some(last) => now >= last && now - last >= MOVE_THROTTLE_MICROS,
                };
                if due {
                    self.last_move_at = Some(now);
                    Some(MouseRecordKind::Move)
                } else {
                    None
                }
            },
            InputEventKind::ButtonPress => Some(MouseRecordKind::Down),
            InputEventKind::ButtonRelease => Some(MouseRecordKind::Up),
            InputEventKind::Other => None,
        }
    }
}

/// A recorded move comes at least
/// [`MOVE_THROTTLE_MICROS`] after the previous recorded move; presses and
/// releases are always recorded while writing, and nothing is recorded
/// while not.
pub proof fn law_moves_are_throttled(t: MoveThrottle, now: u64, kind: InputEventKind, should_write: bool)
    ensures
        ({
            let (after, rec) = record_event(t, now, kind, should_write);
            &&& rec == Some(MouseRecordKind::Move) ==> (t.last_move_at matches Some(last) ==> now - last
                >= MOVE_THROTTLE_MICROS)
            &&& rec == Some(MouseRecordKind::Move) ==> after.last_move_at == Some(now)
            &&& rec != Some(MouseRecordKind::Move) ==> after == t
            &&& should_write && kind == InputEventKind::ButtonPress ==> rec == Some(MouseRecordKind::Down)
            &&& should_write && kind == InputEventKind::ButtonRelease ==> rec == Some(MouseRecordKind::Up)
            &&& !should_write ==> rec is None
        }),
{
}

/// While writing, a pointer move is recorded whenever it is due: it is the
/// first move, or at least [`MOVE_THROTTLE_MICROS`] have passed since the
/// last recorded one; the recorder then remembers it. A move that is not
/// due, and any other event, leaves the recorder as it was.
pub proof fn law_due_moves_are_recorded(t: MoveThrottle, now: u64, kind: InputEventKind, should_write: bool)
    ensures
        ({
            let (after, rec) = record_event(t, now, kind, should_write);
            &&& should_write && kind == InputEventKind::PointerMove && (t.last_move_at is None
                || t.last_move_at->0 + MOVE_THROTTLE_MICROS <= now) ==> rec == Some(MouseRecordKind::Move)
                && after.last_move_at == Some(now)
            &&& kind == InputEventKind::PointerMove && t.last_move_at is Some && now < t.last_move_at->0
                + MOVE_THROTTLE_MICROS ==> rec is None && after == t
            &&& rec == Some(MouseRecordKind::Move) ==> should_write && kind == InputEventKind::PointerMove
            &&& kind == InputEventKind::Other ==> rec is None && after == t
        }),
{
}

} // verus!
