//! The effect of performing a plan on the backend's uniform state.
//!
//! The backend's uniform store is modeled as a map from slot identifier to
//! the value last written there. Performing a plan writes each upload in
//! order. Two facts about synchronization follow and are proved here:
//! re-performing the same plan never changes the state (best-effort frame
//! sync is idempotent), and a sync pass touches only the live-count slot and
//! the slots cached in the registered entries — any other uniform, the
//! viewport resolution among them, keeps its value.

use vstd::prelude::*;

use crate::registry::{push_plan, sync_plan};
use crate::sphere::{sphere_uploads, Sphere};
use crate::uniforms::{UniformValue, Upload};

verus! {

/// The uniform state after performing every upload of the plan, in order.
pub open spec fn apply_plan(
    state: Map<i32, UniformValue>,
    plan: Seq<Upload>,
) -> Map<i32, UniformValue>
    decreases plan.len(),
{
    if plan.len() == 0 {
        state
    } else {
        apply_plan(state.insert(plan[0].slot, plan[0].value), plan.drop_first())
    }
}

/// The slots a plan writes to.
pub open spec fn written_slots(plan: Seq<Upload>) -> Set<i32>
    decreases plan.len(),
{
    if plan.len() == 0 {
        Set::empty()
    } else {
        written_slots(plan.drop_first()).insert(plan[0].slot)
    }
}

/// Two states agree at a slot: both hold it or neither, with equal values.
pub open spec fn agrees_at(
    s1: Map<i32, UniformValue>,
    s2: Map<i32, UniformValue>,
    slot: i32,
) -> bool {
    &&& s1.dom().contains(slot) <==> s2.dom().contains(slot)
    &&& s1.dom().contains(slot) ==> s1[slot] == s2[slot]
}

/// A slot the plan never writes keeps exactly the value it had.
pub proof fn lemma_apply_unwritten(
    state: Map<i32, UniformValue>,
    plan: Seq<Upload>,
    slot: i32,
)
    requires
        !written_slots(plan).contains(slot),
    ensures
        agrees_at(apply_plan(state, plan), state, slot),
    decreases plan.len(),
{
    if plan.len() > 0 {
        lemma_apply_unwritten(state.insert(plan[0].slot, plan[0].value), plan.drop_first(), slot);
    }
}

/// Performing a plan looks only at the slots it writes: states that agree
/// everywhere else end up equal.
pub proof fn lemma_apply_agree(
    s1: Map<i32, UniformValue>,
    s2: Map<i32, UniformValue>,
    plan: Seq<Upload>,
)
    requires
        forall|slot: i32| !(#[trigger] written_slots(plan).contains(slot)) ==> agrees_at(
            s1,
            s2,
            slot,
        ),
    ensures
        apply_plan(s1, plan) =~= apply_plan(s2, plan),
    decreases plan.len(),
{
    if plan.len() == 0 {
        assert forall|slot: i32| #[trigger] s1.dom().contains(slot)
            <==> s2.dom().contains(slot) by {
            assert(!written_slots(plan).contains(slot));
        }
        assert forall|slot: i32| s1.dom().contains(slot) implies #[trigger] s1[slot]
            == s2[slot] by {
            assert(!written_slots(plan).contains(slot));
        }
        assert(s1 =~= s2);
    } else {
        let s1p = s1.insert(plan[0].slot, plan[0].value);
        let s2p = s2.insert(plan[0].slot, plan[0].value);
        assert forall|slot: i32|
            !(#[trigger] written_slots(plan.drop_first()).contains(slot)) implies agrees_at(
            s1p,
            s2p,
            slot,
        ) by {
            if slot != plan[0].slot {
                assert(!written_slots(plan).contains(slot));
            }
        }
        lemma_apply_agree(s1p, s2p, plan.drop_first());
    }
}

/// Idempotence of synchronization: re-performing the very same plan — as a
/// frame sync does when no sphere was added in between — uploads identical
/// values and leaves the uniform state exactly where it was.
pub proof fn lemma_plan_idempotent(state: Map<i32, UniformValue>, plan: Seq<Upload>)
    ensures
        apply_plan(apply_plan(state, plan), plan) =~= apply_plan(state, plan),
{
    let once = apply_plan(state, plan);
    assert forall|slot: i32|
        !(#[trigger] written_slots(plan).contains(slot)) implies agrees_at(once, state, slot) by {
        lemma_apply_unwritten(state, plan, slot);
    }
    lemma_apply_agree(once, state, plan);
}

/// The slots written by a concatenation are those written by its parts.
pub proof fn lemma_written_concat(p1: Seq<Upload>, p2: Seq<Upload>)
    ensures
        written_slots(p1 + p2) =~= written_slots(p1) + written_slots(p2),
    decreases p1.len(),
{
    if p1.len() == 0 {
        assert(p1 + p2 =~= p2);
    } else {
        assert((p1 + p2).drop_first() =~= p1.drop_first() + p2);
        assert((p1 + p2)[0] == p1[0]);
        lemma_written_concat(p1.drop_first(), p2);
    }
}

/// A sphere's own uploads write exactly its two cached slots.
pub proof fn lemma_sphere_written_slots(s: Sphere)
    ensures
        written_slots(sphere_uploads(s)) =~= Set::empty().insert(s.center_slot).insert(
            s.radius_slot,
        ),
{
    let plan = sphere_uploads(s);
    let p1 = plan.drop_first();
    let p2 = p1.drop_first();
    assert(plan[0].slot == s.center_slot);
    assert(p1[0] == plan[1]);
    assert(plan[1].slot == s.radius_slot);
    assert(p2 =~= Seq::<Upload>::empty());
    assert(written_slots(p2) =~= Set::<i32>::empty());
    assert(written_slots(p1) =~= Set::<i32>::empty().insert(s.radius_slot));
    assert(written_slots(plan) =~= written_slots(p1).insert(s.center_slot));
}

/// The per-entry part of a pass writes no slot beyond those cached in the
/// entries.
pub proof fn lemma_plan_writes_only_cached_slots(entries: Seq<Sphere>, slot: i32)
    requires
        forall|i: int|
            0 <= i < entries.len() ==> (#[trigger] entries[i]).center_slot != slot
                && entries[i].radius_slot != slot,
    ensures
        !written_slots(push_plan(entries)).contains(slot),
    decreases entries.len(),
{
    if entries.len() > 0 {
        let last = entries.last();
        lemma_plan_writes_only_cached_slots(entries.drop_last(), slot);
        lemma_written_concat(push_plan(entries.drop_last()), sphere_uploads(last));
        lemma_sphere_written_slots(last);
    }
}

/// A uniform that is neither the live count nor bound to any entry — the
/// viewport resolution, set once by the host at startup, is the case in
/// point — is never re-uploaded or clobbered by a synchronization pass: it
/// keeps exactly the value it had.
pub proof fn lemma_push_all_preserves_other_uniforms(
    state: Map<i32, UniformValue>,
    entries: Seq<Sphere>,
    count_slot: i32,
    slot: i32,
)
    requires
        slot != count_slot,
        forall|i: int|
            0 <= i < entries.len() ==> (#[trigger] entries[i]).center_slot != slot
                && entries[i].radius_slot != slot,
    ensures
        agrees_at(apply_plan(state, sync_plan(entries, count_slot)), state, slot),
{
    let count_upload = Upload {
        slot: count_slot,
        value: UniformValue::Int { value: entries.len() as i32 },
    };
    lemma_plan_writes_only_cached_slots(entries, slot);
    lemma_written_concat(seq![count_upload], push_plan(entries));
    assert(seq![count_upload].drop_first() =~= Seq::<Upload>::empty());
    assert(written_slots(Seq::<Upload>::empty()) =~= Set::<i32>::empty());
    assert(written_slots(seq![count_upload]) =~= Set::<i32>::empty().insert(count_slot));
    assert(!written_slots(sync_plan(entries, count_slot)).contains(slot));
    lemma_apply_unwritten(state, sync_plan(entries, count_slot), slot);
}

} // verus!
