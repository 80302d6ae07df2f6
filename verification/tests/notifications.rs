//! Tests of the redraw-notification side of the store: who is told to
//! redraw, exactly once, and when dead containers are pruned.

use drag_and_drop::geometry::{Point, Rect};
use drag_and_drop::payload::DragPayload;
use drag_and_drop::registry::ContainerHandle;
use drag_and_drop::state::{DragMoveEvent, DragState};
use drag_and_drop::store::DragAndDrop;
use std::rc::Rc;

const TAG: u64 = 7;
const W1: u64 = 101;
const W2: u64 = 102;

fn payload() -> Rc<DragPayload> {
    Rc::new(DragPayload {
        type_tag: TAG,
        data: vec![42],
    })
}

fn move_event(window_id: u64) -> DragMoveEvent {
    DragMoveEvent {
        window_id,
        position: Point { x: 1, y: 2 },
        prev_position: Point { x: 0, y: 0 },
        region: Rect {
            origin: Point { x: 0, y: 0 },
            width: 10,
            height: 10,
        },
    }
}

fn handle(id: u64, window_id: u64, alive: bool) -> ContainerHandle {
    ContainerHandle {
        id,
        window_id,
        alive,
    }
}

fn store_with_registry() -> DragAndDrop {
    let mut dnd = DragAndDrop::default();
    dnd.register_container(handle(1, W1, true));
    dnd.register_container(handle(2, W1, false));
    dnd.register_container(handle(3, W2, true));
    dnd.register_container(handle(4, W1, true));
    dnd
}

#[test]
fn dragging_notifies_live_containers_of_the_events_window() {
    let mut dnd = store_with_registry();
    let notified = dnd.dragging(move_event(W1), payload(), 0);
    // Only the live containers of the event's window, in registration order;
    // the dead one is neither notified nor kept.
    assert_eq!(notified, vec![1, 4]);
    assert_eq!(dnd.containers.len(), 3);
    assert!(dnd.containers.iter().all(|h| h.alive));
}

#[test]
fn foreign_window_event_still_notifies_its_own_window() {
    let mut dnd = store_with_registry();
    dnd.dragging(move_event(W1), payload(), 0);
    let notified = dnd.dragging(move_event(W2), payload(), 0);
    assert_eq!(notified, vec![3]);
    assert!(matches!(dnd.state, DragState::Dragging(ref s) if s.window_id == W1));
}

#[test]
fn release_while_dragging_notifies_the_sessions_window_once() {
    let mut dnd = store_with_registry();
    dnd.dragging(move_event(W1), payload(), 0);
    let notified = dnd.finish_dragging();
    assert_eq!(notified, vec![1, 4]);
    assert!(matches!(dnd.state, DragState::Idle));
}

#[test]
fn cancel_notifies_only_on_a_type_match() {
    let mut dnd = store_with_registry();
    dnd.dragging(move_event(W1), payload(), 0);

    let none_notified = dnd.cancel_dragging(TAG + 1);
    assert!(none_notified.is_empty());

    let notified = dnd.cancel_dragging(TAG);
    assert_eq!(notified, vec![1, 4]);
    assert!(matches!(dnd.state, DragState::Canceled { window_id } if window_id == W1));
}

#[test]
fn release_while_canceled_notifies_nobody() {
    let mut dnd = store_with_registry();
    dnd.dragging(move_event(W1), payload(), 0);
    dnd.cancel_dragging(TAG);
    let before = dnd.containers.clone();
    dnd.clear_canceled();
    // No notification pass at all: the registry is not even pruned.
    assert_eq!(dnd.containers, before);
    assert!(matches!(dnd.state, DragState::Idle));
}
