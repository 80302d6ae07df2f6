//! The container registry: the set of UI containers that asked to be redrawn
//! whenever drag state changes in their window.
//!
//! A handle stands for a weak reference into the host's view arena: `alive`
//! is the host-maintained liveness of the referent, and a dead handle is
//! pruned, never notified. Handles are identified by `id`; the registry keeps
//! at most one entry per id.

use vstd::prelude::*;

verus! {

/// A weak handle to a UI container that opted in to drag redraw.
#[derive(Clone, Copy, PartialEq, Eq, Structural, Debug)]
pub struct ContainerHandle {
    /// Identity of the container in the host's arena.
    pub id: u64,
    /// Window the container lives in.
    pub window_id: u64,
    /// Whether the referent still exists; a dead handle is pruned lazily.
    pub alive: bool,
}

/// No two entries share an id.
pub open spec fn ids_unique(reg: Seq<ContainerHandle>) -> bool {
    forall|i: int, j: int|
        0 <= i < reg.len() && 0 <= j < reg.len() && i != j ==> (#[trigger] reg[i]).id != (
        #[trigger] reg[j]).id
}

/// Some entry already carries this id.
pub open spec fn has_id(reg: Seq<ContainerHandle>, id: u64) -> bool {
    exists|i: int| 0 <= i < reg.len() && (#[trigger] reg[i]).id == id
}

/// What registering a handle does: nothing when the id is already present,
/// otherwise append.
pub open spec fn register_step(reg: Seq<ContainerHandle>, h: ContainerHandle) -> Seq<
    ContainerHandle,
> {
    if has_id(reg, h.id) {
        reg
    } else {
        reg.push(h)
    }
}

/// A handle that a notification pass for `window_id` must reach: still alive
/// and in that window.
pub open spec fn notifiable(h: ContainerHandle, window_id: u64) -> bool {
    h.alive && h.window_id == window_id
}

/// The registry after one notification pass: dead handles pruned, order kept.
pub open spec fn pruned(reg: Seq<ContainerHandle>) -> Seq<ContainerHandle>
    decreases reg.len(),
{
    if reg.len() == 0 {
        Seq::empty()
    } else {
        let rest = pruned(reg.drop_last());
        if reg.last().alive {
            rest.push(reg.last())
        } else {
            rest
        }
    }
}

/// The containers a notification pass for `window_id` redraws, in registry
/// order: the live entries of that window, each once.
pub open spec fn notified_ids(reg: Seq<ContainerHandle>, window_id: u64) -> Seq<u64>
    decreases reg.len(),
{
    if reg.len() == 0 {
        Seq::empty()
    } else {
        let rest = notified_ids(reg.drop_last(), window_id);
        if notifiable(reg.last(), window_id) {
            rest.push(reg.last().id)
        } else {
            rest
        }
    }
}

/// Registering the same handle twice is the same as registering it once.
pub proof fn lemma_register_idempotent(reg: Seq<ContainerHandle>, h: ContainerHandle)
    ensures
        register_step(register_step(reg, h), h) == register_step(reg, h),
{
    if !has_id(reg, h.id) {
        let reg1 = reg.push(h);
        assert(reg1[reg.len() as int].id == h.id);
        assert(has_id(reg1, h.id));
    }
}

/// Every id found after pruning was already in the registry.
pub proof fn lemma_pruned_has_id(reg: Seq<ContainerHandle>, id: u64)
    requires
        has_id(pruned(reg), id),
    ensures
        has_id(reg, id),
    decreases reg.len(),
{
    let p = pruned(reg);
    let k = choose|k: int| 0 <= k < p.len() && (#[trigger] p[k]).id == id;
    if reg.last().alive && k == pruned(reg.drop_last()).len() {
        assert(reg[reg.len() - 1].id == id);
    } else {
        assert(has_id(pruned(reg.drop_last()), id));
        lemma_pruned_has_id(reg.drop_last(), id);
        let j = choose|j: int|
            0 <= j < reg.drop_last().len() && (#[trigger] reg.drop_last()[j]).id == id;
        assert(reg[j].id == id);
    }
}

/// Pruning removes exactly the dead handles: what is left is alive, and a
/// handle survives the pass if and only if it was registered and alive.
pub proof fn lemma_pruned_exactly_live(reg: Seq<ContainerHandle>)
    ensures
        forall|i: int| 0 <= i < pruned(reg).len() ==> (#[trigger] pruned(reg)[i]).alive,
        forall|h: ContainerHandle|
            #[trigger] pruned(reg).contains(h) <==> reg.contains(h) && h.alive,
    decreases reg.len(),
{
    let p = pruned(reg);
    if reg.len() == 0 {
        assert(forall|h: ContainerHandle| !(#[trigger] p.contains(h)));
        assert(forall|h: ContainerHandle| !(#[trigger] reg.contains(h)));
    } else {
        let rest = reg.drop_last();
        lemma_pruned_exactly_live(rest);
        let sub = pruned(rest);
        assert forall|h: ContainerHandle| #[trigger] p.contains(h) implies reg.contains(h)
            && h.alive by {
            let k = choose|k: int| 0 <= k < p.len() && p[k] == h;
            if reg.last().alive && k == sub.len() {
                assert(reg[reg.len() - 1] == h);
            } else {
                assert(sub.contains(h));
                let j = choose|j: int| 0 <= j < rest.len() && rest[j] == h;
                assert(reg[j] == h);
            }
        }
        assert forall|h: ContainerHandle| reg.contains(h) && h.alive implies #[trigger] p.contains(
            h,
        ) by {
            let j = choose|j: int| 0 <= j < reg.len() && reg[j] == h;
            if j == reg.len() - 1 {
                assert(p[p.len() - 1] == h);
            } else {
                assert(rest[j] == h);
                assert(sub.contains(h));
                let k = choose|k: int| 0 <= k < sub.len() && sub[k] == h;
                assert(p[k] == h);
            }
        }
    }
}

/// Pruning keeps ids unique.
pub proof fn lemma_pruned_keeps_ids_unique(reg: Seq<ContainerHandle>)
    requires
        ids_unique(reg),
    ensures
        ids_unique(pruned(reg)),
    decreases reg.len(),
{
    if reg.len() > 0 {
        let rest = reg.drop_last();
        assert forall|i: int, j: int|
            0 <= i < rest.len() && 0 <= j < rest.len() && i != j implies (#[trigger] rest[i]).id
            != (#[trigger] rest[j]).id by {
            assert(reg[i].id != reg[j].id);
        }
        lemma_pruned_keeps_ids_unique(rest);
        if reg.last().alive {
            let p = pruned(rest);
            if has_id(p, reg.last().id) {
                lemma_pruned_has_id(rest, reg.last().id);
                let j = choose|j: int| 0 <= j < rest.len() && (#[trigger] rest[j]).id == reg.last().id;
                assert(reg[j].id == reg[reg.len() - 1].id);
                assert(false);
            }
            let q = p.push(reg.last());
            assert forall|i: int, j: int|
                0 <= i < q.len() && 0 <= j < q.len() && i != j implies (#[trigger] q[i]).id != (
            #[trigger] q[j]).id by {
                if i < p.len() && j < p.len() {
                } else if j == p.len() {
                    assert(q[i] == p[i]);
                    assert(!has_id(p, reg.last().id));
                } else {
                    assert(q[j] == p[j]);
                    assert(!has_id(p, reg.last().id));
                }
            }
        }
    }
}

/// What one notification pass reaches: exactly the ids of the live containers
/// of the window, and — ids being unique — each of them exactly once. Dead
/// containers are never notified.
pub proof fn lemma_notified_exactly_live(reg: Seq<ContainerHandle>, window_id: u64)
    requires
        ids_unique(reg),
    ensures
        notified_ids(reg, window_id).no_duplicates(),
        forall|id: u64|
            #[trigger] notified_ids(reg, window_id).contains(id) <==> exists|i: int|
                0 <= i < reg.len() && (#[trigger] reg[i]).id == id && notifiable(reg[i], window_id),
    decreases reg.len(),
{
    let out = notified_ids(reg, window_id);
    if reg.len() == 0 {
        assert(forall|id: u64| !(#[trigger] out.contains(id)));
    } else {
        let rest = reg.drop_last();
        assert forall|i: int, j: int|
            0 <= i < rest.len() && 0 <= j < rest.len() && i != j implies (#[trigger] rest[i]).id
            != (#[trigger] rest[j]).id by {
            assert(reg[i].id != reg[j].id);
        }
        lemma_notified_exactly_live(rest, window_id);
        let sub = notified_ids(rest, window_id);
        assert forall|id: u64| #[trigger] out.contains(id) implies exists|i: int|
            0 <= i < reg.len() && (#[trigger] reg[i]).id == id && notifiable(reg[i], window_id) by {
            let k = choose|k: int| 0 <= k < out.len() && out[k] == id;
            if notifiable(reg.last(), window_id) && k == sub.len() {
                assert(reg[reg.len() - 1].id == id && notifiable(reg[reg.len() - 1], window_id));
            } else {
                assert(sub.contains(id));
                let i = choose|i: int|
                    0 <= i < rest.len() && (#[trigger] rest[i]).id == id && notifiable(
                        rest[i],
                        window_id,
                    );
                assert(reg[i].id == id && notifiable(reg[i], window_id));
            }
        }
        assert forall|id: u64|
            (exists|i: int|
                0 <= i < reg.len() && (#[trigger] reg[i]).id == id && notifiable(
                    reg[i],
                    window_id,
                )) implies #[trigger] out.contains(id) by {
            let i = choose|i: int|
                0 <= i < reg.len() && (#[trigger] reg[i]).id == id && notifiable(
                    reg[i],
                    window_id,
                );
            if i == reg.len() - 1 {
                assert(out[out.len() - 1] == id);
            } else {
                assert(rest[i].id == id && notifiable(rest[i], window_id));
                assert(sub.contains(id));
                let k = choose|k: int| 0 <= k < sub.len() && sub[k] == id;
                assert(out[k] == id);
            }
        }
        if notifiable(reg.last(), window_id) {
            if sub.contains(reg.last().id) {
                let i = choose|i: int|
                    0 <= i < rest.len() && (#[trigger] rest[i]).id == reg.last().id && notifiable(
                        rest[i],
                        window_id,
                    );
                assert(reg[i].id == reg[reg.len() - 1].id);
                assert(false);
            }
        }
    }
}

/// Registration keeps ids unique, so no container is ever notified twice.
pub proof fn lemma_register_keeps_ids_unique(reg: Seq<ContainerHandle>, h: ContainerHandle)
    requires
        ids_unique(reg),
    ensures
        ids_unique(register_step(reg, h)),
{
    if !has_id(reg, h.id) {
        let reg1 = reg.push(h);
        assert forall|i: int, j: int|
            0 <= i < reg1.len() && 0 <= j < reg1.len() && i != j implies (#[trigger] reg1[i]).id
            != (#[trigger] reg1[j]).id by {
            if i < reg.len() && j < reg.len() {
            } else if j == reg.len() {
                assert(reg1[j] == h);
                assert(!(reg[i].id == h.id));
            } else {
                assert(reg1[i] == h);
                assert(!(reg[j].id == h.id));
            }
        }
    }
}

} // verus!
