//! The drag session store: one value owns the drag state machine and the
//! container registry, and every operation says exactly what it changes and
//! which containers it tells to redraw.
//!
//! The host UI layer owns the control flow: it feeds pointer events in,
//! performs the redraws an operation returns, and — because a release
//! callback must not mutate the store while the store is still being read
//! for the render that produced it — defers `finish_dragging` and
//! `clear_canceled` to run after the current dispatch pass.

use crate::geometry::Point;
use crate::payload::{share_payload, try_downcast, DragPayload};
use crate::registry::{
    has_id, ids_unique, lemma_pruned_keeps_ids_unique, lemma_register_keeps_ids_unique,
    notified_ids, pruned, register_step, ContainerHandle,
};
use crate::state::{
    current_drag_spec, drag_step, grab_offset_of, DragMoveEvent, DragSession, DragState,
};
use std::rc::Rc;
use vstd::prelude::*;

verus! {

/// What the window root splices into the frame for the current drag state.
///
/// An `Overlay` follows the pointer: it is anchored at the dragged region's
/// current origin, sized like the grabbed region, and drawn by the session's
/// render capability applied to the shared payload. It must not intercept
/// hover events meant for the elements beneath it, but it does capture the
/// pointer release: on release — inside or outside its bounds — the host
/// calls `finish_dragging`, deferred past the current dispatch pass.
///
/// A `Capture` is a zero-size, invisible element whose sole purpose is to
/// absorb the pointer release still owed after a cancel: on release —
/// inside or outside — the host calls `clear_canceled`, deferred the same
/// way.
pub enum RenderOutput {
    Overlay {
        anchor: Point,
        width: i64,
        height: i64,
        renderer_id: u64,
        payload: Rc<DragPayload>,
    },
    Capture,
}

/// What `render` returns in each state: nothing while idle or for a window
/// that does not hold the session; the overlay, anchored at
/// `position + grab_offset`, for the session's own window; the release
/// capture element while canceled.
pub open spec fn render_spec(st: DragState, window_id: u64) -> Option<RenderOutput> {
    match st {
        DragState::Idle => None,
        DragState::Dragging(s) => {
            if s.window_id == window_id {
                Some(
                    RenderOutput::Overlay {
                        anchor: Point {
                            x: (s.position.x + s.grab_offset.x) as i64,
                            y: (s.position.y + s.grab_offset.y) as i64,
                        },
                        width: s.grab_region.width,
                        height: s.grab_region.height,
                        renderer_id: s.renderer_id,
                        payload: s.payload,
                    },
                )
            } else {
                None
            }
        },
        DragState::Canceled { .. } => Some(RenderOutput::Capture),
    }
}

/// The drag-and-drop context: the registry of redraw-interested containers
/// and the at-most-one drag session. The host creates one per application
/// and passes it to every drag operation.
pub struct DragAndDrop {
    pub containers: Vec<ContainerHandle>,
    pub state: DragState,
}

impl Default for DragAndDrop {
    /// The initial context: idle, with no registered containers.
    fn default() -> (r: Self)
        ensures
            r.wf(),
            r.state is Idle,
            r.containers@.len() == 0,
    {
        DragAndDrop { containers: Vec::new(), state: DragState::Idle }
    }
}

impl DragAndDrop {
    /// The store's invariant: container ids are unique, and a live session's
    /// coordinates stay in range.
    pub open spec fn wf(self) -> bool {
        &&& ids_unique(self.containers@)
        &&& (self.state matches DragState::Dragging(s) ==> s.in_bounds())
    }

    /// Opts a container in to drag redraw notifications. Idempotent: a handle
    /// whose id is already registered changes nothing.
    pub fn register_container(&mut self, handle: ContainerHandle)
        requires
            old(self).wf(),
        ensures
            final(self).wf(),
            final(self).containers@ == register_step(old(self).containers@, handle),
            final(self).state == old(self).state,
    {
        let n = self.containers.len();
        let mut i: usize = 0;
        while i < n
            invariant
                old(self).wf(),
                *self == *old(self),
                n == self.containers@.len(),
                i <= n,
                forall|k: int| 0 <= k < i ==> (#[trigger] self.containers@[k]).id != handle.id,
            decreases n - i,
        {
            if self.containers[i].id == handle.id {
                assert(has_id(self.containers@, handle.id));
                return ;
            }
            i += 1;
        }
        assert(!has_id(self.containers@, handle.id));
        proof {
            lemma_register_keeps_ids_unique(self.containers@, handle);
        }
        self.containers.push(handle);
    }

    /// One notification pass for `window_id`: prunes every dead handle and
    /// returns, in registry order, the ids of the live containers of that
    /// window — the containers the host must redraw.
    fn notify_containers_for_window(&mut self, window_id: u64) -> (notified: Vec<u64>)
        requires
            old(self).wf(),
        ensures
            final(self).wf(),
            final(self).state == old(self).state,
            final(self).containers@ == pruned(old(self).containers@),
            notified@ == notified_ids(old(self).containers@, window_id),
    {
        let n = self.containers.len();
        let mut kept: Vec<ContainerHandle> = Vec::new();
        let mut notified: Vec<u64> = Vec::new();
        let mut i: usize = 0;
        while i < n
            invariant
                *self == *old(self),
                n == self.containers@.len(),
                i <= n,
                kept@ == pruned(self.containers@.subrange(0, i as int)),
                notified@ == notified_ids(self.containers@.subrange(0, i as int), window_id),
            decreases n - i,
        {
            let h = self.containers[i];
            if h.alive {
                kept.push(h);
                if h.window_id == window_id {
                    notified.push(h.id);
                }
            }
            proof {
                let prefix = self.containers@.subrange(0, i as int);
                let ext = self.containers@.subrange(0, i + 1 as int);
                assert(ext.drop_last() =~= prefix);
                assert(ext.last() == self.containers@[i as int]);
            }
            i += 1;
        }
        proof {
            assert(self.containers@.subrange(0, n as int) =~= self.containers@);
            lemma_pruned_keeps_ids_unique(self.containers@);
        }
        self.containers = kept;
        notified
    }

    /// Answers a drop target's question: is something of my type being
    /// dragged over my window right now, and if so, where and what? Returns
    /// the session's position and shared payload exactly when a session is
    /// dragging, it belongs to `window_id`, and the payload's runtime type
    /// tag equals `type_tag`; every mismatch is an ordinary empty answer.
    pub fn currently_dragged(&self, window_id: u64, type_tag: u64) -> (r: Option<
        (Point, Rc<DragPayload>),
    >)
        ensures
            r == current_drag_spec(self.state, window_id, type_tag),
            r is Some <==> (self.state matches DragState::Dragging(s) && s.window_id == window_id
                && s.payload.type_tag == type_tag),
    {
        match &self.state {
            DragState::Dragging(s) => {
                if s.window_id == window_id {
                    match try_downcast(&s.payload, type_tag) {
                        Some(payload) => Some((s.position, payload)),
                        None => None,
                    }
                } else {
                    None
                }
            },
            _ => None,
        }
    }

    /// Feeds one pointer-drag-continuation event in. Containers of the
    /// event's window are notified first — the previous tick's state is
    /// flushed before this tick's change is applied — and the state then
    /// takes one `drag_step`: a canceled drag stays frozen, the session's
    /// own window moves the pointer, a foreign window changes nothing, and
    /// from idle the event starts a session that grabs offset, region,
    /// payload and render capability once and for all.
    pub fn dragging(
        &mut self,
        event: DragMoveEvent,
        payload: Rc<DragPayload>,
        renderer_id: u64,
    ) -> (notified: Vec<u64>)
        requires
            old(self).wf(),
            event.in_bounds(),
        ensures
            final(self).wf(),
            notified@ == notified_ids(old(self).containers@, event.window_id),
            final(self).containers@ == pruned(old(self).containers@),
            final(self).state == drag_step(old(self).state, event, payload, renderer_id),
    {
        let notified = self.notify_containers_for_window(event.window_id);
        match &mut self.state {
            DragState::Canceled { .. } => {},
            DragState::Dragging(s) => {
                if s.window_id == event.window_id {
                    s.position = event.position;
                }
            },
            DragState::Idle => {
                let grab_offset = Point {
                    x: event.region.origin.x - event.prev_position.x,
                    y: event.region.origin.y - event.prev_position.y,
                };
                self.state = DragState::Dragging(
                    DragSession {
                        window_id: event.window_id,
                        position: event.position,
                        grab_offset,
                        grab_region: event.region,
                        payload,
                        renderer_id,
                    },
                );
            },
        }
        notified
    }

    /// Cancels the live drag, but only when its payload's runtime type tag
    /// equals `type_tag` — a cancel must not abort someone else's drag. On a
    /// match the state becomes canceled for the session's window, whose
    /// containers are notified; on any mismatch, and in every other state,
    /// nothing happens and nothing is notified.
    pub fn cancel_dragging(&mut self, type_tag: u64) -> (notified: Vec<u64>)
        requires
            old(self).wf(),
        ensures
            final(self).wf(),
            old(self).state matches DragState::Dragging(s) ==> (if s.payload.type_tag == type_tag {
                final(self).state == (DragState::Canceled { window_id: s.window_id })
                    && final(self).containers@ == pruned(old(self).containers@)
                    && notified@ == notified_ids(old(self).containers@, s.window_id)
            } else {
                *final(self) == *old(self) && notified@.len() == 0
            }),
            !(old(self).state is Dragging) ==> (*final(self) == *old(self) && notified@.len()
                == 0),
    {
        let mut cancel_window: Option<u64> = None;
        match &self.state {
            DragState::Dragging(s) => {
                if s.payload.type_tag == type_tag {
                    cancel_window = Some(s.window_id);
                }
            },
            _ => {},
        }
        match cancel_window {
            Some(window_id) => {
                self.state = DragState::Canceled { window_id };
                self.notify_containers_for_window(window_id)
            },
            None => Vec::new(),
        }
    }

    /// Ends a live drag: the session's window is notified and the state
    /// returns to idle. Called by the host from the overlay's release
    /// callback, deferred past the dispatch pass that produced it; a stale
    /// call in any other state is a defensive no-op that notifies nothing.
    pub fn finish_dragging(&mut self) -> (notified: Vec<u64>)
        requires
            old(self).wf(),
        ensures
            final(self).wf(),
            old(self).state matches DragState::Dragging(s) ==> (final(self).state is Idle
                && final(self).containers@ == pruned(old(self).containers@) && notified@
                == notified_ids(old(self).containers@, s.window_id)),
            !(old(self).state is Dragging) ==> (*final(self) == *old(self) && notified@.len()
                == 0),
    {
        let mut finish_window: Option<u64> = None;
        match &self.state {
            DragState::Dragging(s) => {
                finish_window = Some(s.window_id);
            },
            _ => {},
        }
        match finish_window {
            Some(window_id) => {
                self.state = DragState::Idle;
                self.notify_containers_for_window(window_id)
            },
            None => Vec::new(),
        }
    }

    /// Clears a canceled session on the pointer release that was still owed:
    /// the state returns to idle with no notification — the cancel itself
    /// already surfaced the change. A stale call in any other state is a
    /// defensive no-op. Called by the host from the capture element's
    /// release callback, deferred like `finish_dragging`.
    pub fn clear_canceled(&mut self)
        requires
            old(self).wf(),
        ensures
            final(self).wf(),
            final(self).containers@ == old(self).containers@,
            old(self).state is Canceled ==> final(self).state is Idle,
            !(old(self).state is Canceled) ==> *final(self) == *old(self),
    {
        match &self.state {
            DragState::Canceled { .. } => {
                self.state = DragState::Idle;
            },
            _ => {},
        }
    }

    /// The pure mapping from the current state to what the asking window's
    /// root splices into its frame: see `render_spec` and `RenderOutput`.
    pub fn render(&self, window_id: u64) -> (r: Option<RenderOutput>)
        requires
            self.wf(),
        ensures
            r == render_spec(self.state, window_id),
    {
        match &self.state {
            DragState::Idle => None,
            DragState::Dragging(s) => {
                if s.window_id == window_id {
                    Some(
                        RenderOutput::Overlay {
                            anchor: Point {
                                x: s.position.x + s.grab_offset.x,
                                y: s.position.y + s.grab_offset.y,
                            },
                            width: s.grab_region.width,
                            height: s.grab_region.height,
                            renderer_id: s.renderer_id,
                            payload: share_payload(&s.payload),
                        },
                    )
                } else {
                    None
                }
            },
            DragState::Canceled { .. } => Some(RenderOutput::Capture),
        }
    }
}

} // verus!
