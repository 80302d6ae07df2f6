//! Scenario tests for the drag session store: the state machine, the
//! type-tagged payload queries, and the renderer output.

use drag_and_drop::geometry::{Point, Rect, COORD_LIMIT};
use drag_and_drop::payload::{try_downcast, DragPayload};
use drag_and_drop::registry::ContainerHandle;
use drag_and_drop::state::{DragMoveEvent, DragState};
use drag_and_drop::store::{DragAndDrop, RenderOutput};
use std::rc::Rc;

const TAG_STRING: u64 = 1;
const TAG_NUMBER: u64 = 2;
const W1: u64 = 101;
const W2: u64 = 102;

fn string_payload(s: &str) -> Rc<DragPayload> {
    Rc::new(DragPayload {
        type_tag: TAG_STRING,
        data: s.as_bytes().to_vec(),
    })
}

fn move_event(window_id: u64, x: i64, y: i64) -> DragMoveEvent {
    DragMoveEvent {
        window_id,
        position: Point { x, y },
        prev_position: Point { x: 5, y: 5 },
        region: Rect {
            origin: Point { x: 8, y: 9 },
            width: 40,
            height: 30,
        },
    }
}

#[test]
fn fresh_store_is_idle_and_empty() {
    let dnd = DragAndDrop::default();
    assert!(matches!(dnd.state, DragState::Idle));
    assert_eq!(dnd.containers.len(), 0);
    assert!(dnd.currently_dragged(W1, TAG_STRING).is_none());
    assert!(dnd.render(W1).is_none());
}

#[test]
fn current_drag_reports_latest_position_and_shared_payload() {
    let mut dnd = DragAndDrop::default();
    let payload = string_payload("item-42");
    dnd.dragging(move_event(W1, 10, 10), Rc::clone(&payload), 0);
    dnd.dragging(move_event(W1, 20, 30), Rc::clone(&payload), 0);

    let (pos, got) = dnd.currently_dragged(W1, TAG_STRING).expect("drag is live");
    assert_eq!(pos, Point { x: 20, y: 30 });
    assert_eq!(got.type_tag, TAG_STRING);
    assert_eq!(got.data, b"item-42".to_vec());
    // Shared, not copied: same allocation as the payload handed in.
    assert!(Rc::ptr_eq(&got, &payload));

    assert!(dnd.currently_dragged(W1, TAG_NUMBER).is_none());
    assert!(dnd.currently_dragged(W2, TAG_STRING).is_none());
}

#[test]
fn grab_offset_and_region_come_from_the_first_event_only() {
    let mut dnd = DragAndDrop::default();
    let first = DragMoveEvent {
        window_id: W1,
        position: Point { x: 10, y: 10 },
        prev_position: Point { x: 7, y: 6 },
        region: Rect {
            origin: Point { x: 3, y: 2 },
            width: 50,
            height: 20,
        },
    };
    let second = DragMoveEvent {
        window_id: W1,
        position: Point { x: 25, y: 35 },
        prev_position: Point { x: 10, y: 10 },
        region: Rect {
            origin: Point { x: 999, y: 999 },
            width: 1,
            height: 1,
        },
    };
    dnd.dragging(first, string_payload("x"), 9);
    dnd.dragging(second, string_payload("y"), 4);

    match dnd.state {
        DragState::Dragging(ref s) => {
            // offset = first region origin - first previous pointer position
            assert_eq!(s.grab_offset, Point { x: -4, y: -4 });
            assert_eq!(s.grab_region.width, 50);
            assert_eq!(s.grab_region.height, 20);
            assert_eq!(s.position, Point { x: 25, y: 35 });
            assert_eq!(s.renderer_id, 9);
            assert_eq!(s.payload.data, b"x".to_vec());
        }
        _ => panic!("expected a live session"),
    }

    // The overlay is anchored at position + grab offset and sized like the
    // grabbed region.
    match dnd.render(W1) {
        Some(RenderOutput::Overlay {
            anchor,
            width,
            height,
            renderer_id,
            payload,
        }) => {
            assert_eq!(anchor, Point { x: 21, y: 31 });
            assert_eq!(width, 50);
            assert_eq!(height, 20);
            assert_eq!(renderer_id, 9);
            assert_eq!(payload.data, b"x".to_vec());
        }
        _ => panic!("expected the overlay"),
    }
    // A window that does not hold the session renders nothing.
    assert!(dnd.render(W2).is_none());
}

#[test]
fn cancel_with_wrong_type_is_ignored_and_right_type_cancels() {
    let mut dnd = DragAndDrop::default();
    let payload = string_payload("item-42");
    dnd.dragging(move_event(W1, 10, 10), Rc::clone(&payload), 0);
    dnd.dragging(move_event(W1, 20, 30), payload, 0);

    dnd.cancel_dragging(TAG_NUMBER);
    assert!(matches!(dnd.state, DragState::Dragging(_)));
    assert!(dnd.currently_dragged(W1, TAG_STRING).is_some());

    dnd.cancel_dragging(TAG_STRING);
    assert!(matches!(dnd.state, DragState::Canceled { window_id } if window_id == W1));
    assert!(dnd.currently_dragged(W1, TAG_STRING).is_none());
    // While canceled the window shows only the release-capture element.
    assert!(matches!(dnd.render(W1), Some(RenderOutput::Capture)));
}

#[test]
fn release_after_cancel_returns_to_idle() {
    let mut dnd = DragAndDrop::default();
    dnd.dragging(move_event(W1, 10, 10), string_payload("item-42"), 0);
    dnd.cancel_dragging(TAG_STRING);

    // Pointer released outside any capture element: the host still routes it
    // to clear_canceled.
    dnd.clear_canceled();
    assert!(matches!(dnd.state, DragState::Idle));
    assert!(dnd.currently_dragged(W1, TAG_STRING).is_none());
    assert!(dnd.render(W1).is_none());
}

#[test]
fn dragging_is_frozen_while_canceled() {
    let mut dnd = DragAndDrop::default();
    dnd.dragging(move_event(W1, 10, 10), string_payload("a"), 0);
    dnd.cancel_dragging(TAG_STRING);
    dnd.dragging(move_event(W1, 50, 50), string_payload("b"), 0);
    assert!(matches!(dnd.state, DragState::Canceled { window_id } if window_id == W1));
}

#[test]
fn event_from_foreign_window_changes_no_state() {
    let mut dnd = DragAndDrop::default();
    dnd.dragging(move_event(W1, 10, 10), string_payload("a"), 0);
    dnd.dragging(move_event(W2, 77, 77), string_payload("b"), 3);
    match dnd.state {
        DragState::Dragging(ref s) => {
            assert_eq!(s.window_id, W1);
            assert_eq!(s.position, Point { x: 10, y: 10 });
            assert_eq!(s.payload.data, b"a".to_vec());
        }
        _ => panic!("expected the session from the first window"),
    }
}

#[test]
fn register_container_twice_keeps_one_entry() {
    let mut dnd = DragAndDrop::default();
    let handle = ContainerHandle {
        id: 1,
        window_id: W1,
        alive: true,
    };
    dnd.register_container(handle);
    dnd.register_container(handle);
    assert_eq!(dnd.containers.len(), 1);
}

#[test]
fn try_downcast_checks_the_type_tag() {
    let payload = string_payload("item-42");
    let got = try_downcast(&payload, TAG_STRING).expect("tags match");
    assert!(Rc::ptr_eq(&got, &payload));
    assert!(try_downcast(&payload, TAG_NUMBER).is_none());
}

#[test]
fn coordinates_at_the_limit_stay_exact() {
    let mut dnd = DragAndDrop::default();
    let event = DragMoveEvent {
        window_id: W1,
        position: Point { x: COORD_LIMIT, y: COORD_LIMIT },
        prev_position: Point { x: -COORD_LIMIT, y: -COORD_LIMIT },
        region: Rect {
            origin: Point { x: COORD_LIMIT, y: COORD_LIMIT },
            width: COORD_LIMIT,
            height: COORD_LIMIT,
        },
    };
    dnd.dragging(event, string_payload("big"), 0);
    match dnd.render(W1) {
        Some(RenderOutput::Overlay { anchor, width, height, .. }) => {
            // offset = origin - prev = 2 * COORD_LIMIT; anchor = position + offset
            assert_eq!(anchor, Point { x: 3 * COORD_LIMIT, y: 3 * COORD_LIMIT });
            assert_eq!(width, COORD_LIMIT);
            assert_eq!(height, COORD_LIMIT);
        }
        _ => panic!("expected the overlay"),
    }
}

#[test]
fn finish_while_idle_is_a_defensive_no_op() {
    let mut dnd = DragAndDrop::default();
    let notified = dnd.finish_dragging();
    assert!(notified.is_empty());
    assert!(matches!(dnd.state, DragState::Idle));

    // A stale clear after the state already moved on must not corrupt it.
    dnd.dragging(move_event(W1, 10, 10), string_payload("a"), 0);
    dnd.clear_canceled();
    assert!(matches!(dnd.state, DragState::Dragging(_)));
}
