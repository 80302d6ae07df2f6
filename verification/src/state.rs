//! The drag state machine: idle, dragging, or canceled-and-waiting-for-release,
//! together with the pointer events that drive it and the spec-level
//! transition the store's operations are proved against.

use crate::geometry::{Point, Rect};
use crate::payload::DragPayload;
use std::rc::Rc;
use vstd::prelude::*;

verus! {

/// A pointer-drag-continuation event as the host's event layer delivers it:
/// the window it happened in, the pointer's current and previous positions,
/// and the screen rectangle of the element being dragged.
pub struct DragMoveEvent {
    pub window_id: u64,
    pub position: Point,
    pub prev_position: Point,
    pub region: Rect,
}

impl DragMoveEvent {
    /// Coordinates small enough for the offset and anchor arithmetic.
    pub open spec fn in_bounds(self) -> bool {
        self.position.in_bounds() && self.prev_position.in_bounds() && self.region.in_bounds()
    }
}

/// The live record of an in-progress drag gesture.
pub struct DragSession {
    /// Window the drag originated in; immutable for the session's lifetime.
    pub window_id: u64,
    /// Pointer position, updated on every continuation event.
    pub position: Point,
    /// Vector from the dragged region's origin to the pointer at grab time;
    /// computed from the first event only.
    pub grab_offset: Point,
    /// Screen rectangle of the dragged element at grab time.
    pub grab_region: Rect,
    /// The type-tagged payload, shared between the drag's origin and every
    /// render of the session; never copied.
    pub payload: Rc<DragPayload>,
    /// Which registered render capability draws the payload in the overlay.
    pub renderer_id: u64,
}

impl DragSession {
    /// Every stored coordinate is in range, with the grab offset allowed the
    /// doubled range a difference of two coordinates can reach.
    pub open spec fn in_bounds(self) -> bool {
        &&& self.position.in_bounds()
        &&& -2 * crate::geometry::COORD_LIMIT <= self.grab_offset.x <= 2
            * crate::geometry::COORD_LIMIT
        &&& -2 * crate::geometry::COORD_LIMIT <= self.grab_offset.y <= 2
            * crate::geometry::COORD_LIMIT
        &&& self.grab_region.in_bounds()
    }
}

/// The store's state: at most one drag exists, and after a cancel the session
/// is gone but the window still owes us one pointer release.
pub enum DragState {
    Idle,
    Dragging(DragSession),
    Canceled { window_id: u64 },
}

/// The grab offset a session created from `e` records: the dragged region's
/// origin relative to the pointer position before this event.
pub open spec fn grab_offset_of(e: DragMoveEvent) -> Point {
    Point {
        x: (e.region.origin.x - e.prev_position.x) as i64,
        y: (e.region.origin.y - e.prev_position.y) as i64,
    }
}

/// The session a first continuation event starts.
pub open spec fn fresh_session(
    e: DragMoveEvent,
    payload: Rc<DragPayload>,
    renderer_id: u64,
) -> DragSession {
    DragSession {
        window_id: e.window_id,
        position: e.position,
        grab_offset: grab_offset_of(e),
        grab_region: e.region,
        payload,
        renderer_id,
    }
}

/// One step of the state machine on a drag-continuation event.
///
/// Canceled freezes the drag until release. An event from the window that
/// holds the session moves only the pointer. An event from any other window
/// is ignored. From idle, the event starts a session.
pub open spec fn drag_step(
    st: DragState,
    e: DragMoveEvent,
    payload: Rc<DragPayload>,
    renderer_id: u64,
) -> DragState {
    match st {
        DragState::Canceled { window_id } => DragState::Canceled { window_id },
        DragState::Dragging(s) => {
            if s.window_id == e.window_id {
                DragState::Dragging(
                    DragSession {
                        window_id: s.window_id,
                        position: e.position,
                        grab_offset: s.grab_offset,
                        grab_region: s.grab_region,
                        payload: s.payload,
                        renderer_id: s.renderer_id,
                    },
                )
            } else {
                DragState::Dragging(s)
            }
        },
        DragState::Idle => DragState::Dragging(fresh_session(e, payload, renderer_id)),
    }
}

/// What a drop target's query sees: the live session's position and shared
/// payload exactly when the session is dragging, belongs to the asking
/// window, and carries the asked-for payload type; otherwise nothing.
pub open spec fn current_drag_spec(st: DragState, window_id: u64, type_tag: u64) -> Option<
    (Point, Rc<DragPayload>),
> {
    match st {
        DragState::Dragging(s) => {
            if s.window_id == window_id && s.payload.type_tag == type_tag {
                Some((s.position, s.payload))
            } else {
                None
            }
        },
        _ => None,
    }
}

/// The state after a whole sequence of drag-continuation events, applied in
/// order with their payloads and render capabilities.
pub open spec fn run_drag_steps(
    st: DragState,
    events: Seq<DragMoveEvent>,
    payloads: Seq<Rc<DragPayload>>,
    renderer_ids: Seq<u64>,
) -> DragState
    decreases events.len(),
{
    if events.len() == 0 {
        st
    } else {
        drag_step(
            run_drag_steps(st, events.drop_last(), payloads.drop_last(), renderer_ids.drop_last()),
            events.last(),
            payloads.last(),
            renderer_ids.last(),
        )
    }
}

/// For any run of drag-continuation events in one window with no intervening
/// release: the session's grab offset, grab region, payload and render
/// capability are the ones computed from the first event alone, and its
/// pointer position is the latest event's position.
pub proof fn lemma_first_event_pins_grab(
    events: Seq<DragMoveEvent>,
    payloads: Seq<Rc<DragPayload>>,
    renderer_ids: Seq<u64>,
    window_id: u64,
)
    requires
        events.len() >= 1,
        payloads.len() == events.len(),
        renderer_ids.len() == events.len(),
        forall|i: int|
            0 <= i < events.len() ==> (#[trigger] events[i]).window_id == window_id,
    ensures
        run_drag_steps(DragState::Idle, events, payloads, renderer_ids) == DragState::Dragging(
            DragSession {
                window_id,
                position: events.last().position,
                grab_offset: grab_offset_of(events[0]),
                grab_region: events[0].region,
                payload: payloads[0],
                renderer_id: renderer_ids[0],
            },
        ),
    decreases events.len(),
{
    if events.len() == 1 {
        assert(run_drag_steps(
            DragState::Idle,
            events.drop_last(),
            payloads.drop_last(),
            renderer_ids.drop_last(),
        ) == DragState::Idle);
    } else {
        lemma_first_event_pins_grab(
            events.drop_last(),
            payloads.drop_last(),
            renderer_ids.drop_last(),
            window_id,
        );
        assert(events.drop_last()[0] == events[0]);
        assert(payloads.drop_last()[0] == payloads[0]);
        assert(renderer_ids.drop_last()[0] == renderer_ids[0]);
    }
}

} // verus!
