//! The sphere registry: an append-only, ordered collection of spheres kept
//! in sync with the shader's uniform state.
//!
//! Registration (`add`) binds a sphere to the slots resolved for its index
//! and immediately plans the updated live count; the per-frame sync
//! (`push_all`) plans an upload of the live count followed by a re-upload of
//! every cached value, in insertion order, unless the capacity bound is
//! exceeded — in which case nothing at all is planned for that pass.

use vstd::prelude::*;

use crate::sphere::{sphere_uploads, Sphere};
use crate::uniforms::{UniformValue, Upload};
use crate::MAX_SPHERES;

verus! {

/// The one domain error: the collection has outgrown the shader's
/// fixed-size uniform array.
#[derive(Clone, Copy, Debug, PartialEq, Eq, Structural)]
pub enum SyncError {
    CapacityExceeded,
}

/// The per-entry uploads of a synchronization pass: for each entry, in
/// insertion order, its center then its radius, at the slots cached in the
/// entry.
pub open spec fn push_plan(entries: Seq<Sphere>) -> Seq<Upload>
    decreases entries.len(),
{
    if entries.len() == 0 {
        Seq::empty()
    } else {
        push_plan(entries.drop_last()) + sphere_uploads(entries.last())
    }
}

/// The full plan of a successful synchronization pass: the live count first,
/// then every entry's cached values, in insertion order.
pub open spec fn sync_plan(entries: Seq<Sphere>, count_slot: i32) -> Seq<Upload> {
    seq![
        Upload { slot: count_slot, value: UniformValue::Int { value: entries.len() as i32 } },
    ] + push_plan(entries)
}

/// The ordered collection of spheres plus the slot for the live count.
/// Insertion order is slot-index order: entry `i` is bound to uniform array
/// element `i`, so entries are never reordered or removed.
pub struct SphereRegistry {
    pub entries: Vec<Sphere>,
    pub count_slot: i32,
}

impl SphereRegistry {
    /// A fresh, empty registry against the already-resolved slot of the
    /// live-count uniform (the host resolves [`crate::names::count_name`]
    /// once, at construction time).
    pub fn new(count_slot: i32) -> (r: Self)
        ensures
            r.entries@ == Seq::<Sphere>::empty(),
            r.count_slot == count_slot,
    {
        SphereRegistry { entries: Vec::new(), count_slot }
    }

    /// Number of registered spheres.
    pub fn len(&self) -> (n: usize)
        ensures
            n == self.entries@.len(),
    {
        self.entries.len()
    }

    /// The index the next added sphere will occupy, i.e. the index whose
    /// uniform names the host must resolve before calling [`Self::add`].
    pub fn next_index(&self) -> (i: usize)
        ensures
            i == self.entries@.len(),
    {
        self.entries.len()
    }

    /// Register a sphere: bind it to the slots the host resolved for the
    /// current length, append it, and plan the immediate upload of the new
    /// live count. There is deliberately no capacity check here — the bound
    /// is enforced only at `push_all` time, so over-capacity registration
    /// succeeds and only synchronization fails.
    pub fn add(&mut self, sphere: Sphere, center_slot: i32, radius_slot: i32) -> (count_upload:
        Upload)
        requires
            old(self).entries@.len() + 1 <= i32::MAX,
        ensures
            final(self).count_slot == old(self).count_slot,
            final(self).entries@ == old(self).entries@.push(
                (Sphere {
                    center: sphere.center,
                    radius: sphere.radius,
                    center_slot: center_slot,
                    radius_slot: radius_slot,
                }),
            ),
            count_upload == (Upload {
                slot: old(self).count_slot,
                value: UniformValue::Int { value: (old(self).entries@.len() + 1) as i32 },
            }),
    {
        let mut bound = sphere;
        bound.bind_slots(center_slot, radius_slot);
        self.entries.push(bound);
        let n = self.entries.len();
        Upload { slot: self.count_slot, value: UniformValue::Int { value: n as i32 } }
    }

    /// Plan one full synchronization pass. If the collection exceeds
    /// [`MAX_SPHERES`] the pass fails as a whole and plans no upload at all
    /// (all-or-nothing: the check precedes everything else); otherwise the
    /// plan uploads the live count first and then re-uploads every entry's
    /// cached values in insertion order. The host performs the planned
    /// uploads once per frame, before the draw call; a failed pass is
    /// non-fatal there (best-effort frame sync: the shader keeps the state
    /// of the last successful pass).
    pub fn push_all(&self) -> (r: Result<Vec<Upload>, SyncError>)
        ensures
            r is Ok <==> self.entries@.len() <= MAX_SPHERES,
            r matches Ok(plan) ==> plan@ == sync_plan(self.entries@, self.count_slot),
            r matches Err(e) ==> e == SyncError::CapacityExceeded,
    {
        if self.entries.len() > MAX_SPHERES {
            return Err(SyncError::CapacityExceeded);
        }
        let n = self.entries.len();
        let ghost count_upload = Upload {
            slot: self.count_slot,
            value: UniformValue::Int { value: self.entries@.len() as i32 },
        };
        let mut plan: Vec<Upload> = Vec::new();
        plan.push(Upload { slot: self.count_slot, value: UniformValue::Int { value: n as i32 } });
        proof {
            assert(self.entries@.subrange(0, 0) =~= Seq::<Sphere>::empty());
            assert(push_plan(self.entries@.subrange(0, 0)) =~= Seq::<Upload>::empty());
            assert(plan@ =~= seq![count_upload] + push_plan(self.entries@.subrange(0, 0)));
        }
        let mut i: usize = 0;
        while i < self.entries.len()
            invariant
                i <= self.entries@.len(),
                count_upload == (Upload {
                    slot: self.count_slot,
                    value: UniformValue::Int { value: self.entries@.len() as i32 },
                }),
                plan@ == seq![count_upload] + push_plan(self.entries@.subrange(0, i as int)),
            decreases self.entries@.len() - i,
        {
            let mut u = self.entries[i].push();
            plan.append(&mut u);
            proof {
                let pre = self.entries@.subrange(0, i as int + 1);
                assert(pre.drop_last() =~= self.entries@.subrange(0, i as int));
                assert(plan@ =~= seq![count_upload] + push_plan(pre));
            }
            i = i + 1;
        }
        proof {
            assert(self.entries@.subrange(0, self.entries@.len() as int) =~= self.entries@);
            assert(plan@ =~= sync_plan(self.entries@, self.count_slot));
        }
        Ok(plan)
    }
}

/// The per-entry part of a pass plans exactly two uploads per entry.
pub proof fn lemma_plan_len(entries: Seq<Sphere>)
    ensures
        push_plan(entries).len() == 2 * entries.len(),
    decreases entries.len(),
{
    if entries.len() > 0 {
        lemma_plan_len(entries.drop_last());
    }
}

/// Uploads happen in insertion order, reusing the slots resolved at
/// registration: entry `i` contributes exactly its cached center upload at
/// plan position `2*i` and its cached radius upload at `2*i + 1`, on every
/// pass, however many entries were added after it.
pub proof fn lemma_plan_entry_positions(entries: Seq<Sphere>, i: int)
    requires
        0 <= i < entries.len(),
    ensures
        push_plan(entries).len() == 2 * entries.len(),
        push_plan(entries)[2 * i] == sphere_uploads(entries[i])[0],
        push_plan(entries)[2 * i + 1] == sphere_uploads(entries[i])[1],
    decreases entries.len(),
{
    lemma_plan_len(entries);
    lemma_plan_len(entries.drop_last());
    if i < entries.len() - 1 {
        lemma_plan_entry_positions(entries.drop_last(), i);
        assert(entries.drop_last()[i] == entries[i]);
    }
}

/// A successful pass uploads exactly the live count plus two uploads per
/// entry, in insertion order: the count stands first, and entry `i`
/// contributes its cached center upload at plan position `1 + 2*i` and its
/// cached radius upload at `2 + 2*i`, on every pass, however many entries
/// were added after it.
pub proof fn lemma_sync_plan_positions(entries: Seq<Sphere>, count_slot: i32, i: int)
    requires
        0 <= i < entries.len(),
    ensures
        sync_plan(entries, count_slot).len() == 1 + 2 * entries.len(),
        sync_plan(entries, count_slot)[0] == (Upload {
            slot: count_slot,
            value: UniformValue::Int { value: entries.len() as i32 },
        }),
        sync_plan(entries, count_slot)[1 + 2 * i] == sphere_uploads(entries[i])[0],
        sync_plan(entries, count_slot)[2 + 2 * i] == sphere_uploads(entries[i])[1],
{
    lemma_plan_entry_positions(entries, i);
}

/// Adding never disturbs what is already registered: an `add` extends the
/// sequence and leaves every existing entry — hence the slot identifiers it
/// was bound to — unchanged, for the lifetime of the registry.
pub proof fn lemma_add_keeps_existing_entries(entries: Seq<Sphere>, bound: Sphere, i: int)
    requires
        0 <= i < entries.len(),
    ensures
        entries.push(bound)[i] == entries[i],
{
}

} // verus!
