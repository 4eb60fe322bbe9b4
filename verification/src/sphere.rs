//! The sphere value object: geometry plus its cached uniform slots.

use vstd::prelude::*;

use crate::uniforms::{UniformValue, Upload};
use crate::UNRESOLVED_SLOT;

verus! {

/// A 3-component world-space position, each component a 32-bit IEEE-754 bit
/// pattern.
#[derive(Clone, Copy, Debug, PartialEq, Eq, Structural)]
pub struct Vec3Bits {
    pub x: u32,
    pub y: u32,
    pub z: u32,
}

/// One scene object: its geometry and the uniform slots it was bound to at
/// registration time. Geometry is set at construction and never mutated; the
/// slots are resolved once, by the registry, when the sphere is added.
#[derive(Clone, Copy, Debug, PartialEq, Eq, Structural)]
pub struct Sphere {
    pub center: Vec3Bits,
    pub radius: u32,
    pub center_slot: i32,
    pub radius_slot: i32,
}

/// The two uploads a sphere contributes to a synchronization pass: its
/// center, then its radius, each at the slot cached in the sphere.
pub open spec fn sphere_uploads(s: Sphere) -> Seq<Upload> {
    seq![
        Upload {
            slot: s.center_slot,
            value: UniformValue::Vec3 { x: s.center.x, y: s.center.y, z: s.center.z },
        },
        Upload { slot: s.radius_slot, value: UniformValue::Scalar { bits: s.radius } },
    ]
}

impl Sphere {
    /// True while the sphere has not been bound to a registry index.
    pub open spec fn slots_unresolved(&self) -> bool {
        self.center_slot == UNRESOLVED_SLOT && self.radius_slot == UNRESOLVED_SLOT
    }

    /// Construct a sphere with unresolved slots. The radius is any 32-bit
    /// pattern; a negative radius is geometrically a silent no-op and is not
    /// rejected here.
    pub fn new(center: Vec3Bits, radius: u32) -> (s: Self)
        ensures
            s.center == center,
            s.radius == radius,
            s.slots_unresolved(),
    {
        Sphere { center, radius, center_slot: UNRESOLVED_SLOT, radius_slot: UNRESOLVED_SLOT }
    }

    /// Assign the cached slot identifiers. Intended to be called exactly
    /// once, by the registry, at registration time; a re-bind overwrites the
    /// prior slots and leaves the geometry untouched.
    pub fn bind_slots(&mut self, center_slot: i32, radius_slot: i32)
        ensures
            final(self).center == old(self).center,
            final(self).radius == old(self).radius,
            final(self).center_slot == center_slot,
            final(self).radius_slot == radius_slot,
    {
        self.center_slot = center_slot;
        self.radius_slot = radius_slot;
    }

    /// Plan this sphere's own uploads: center first, then radius, at the
    /// cached slots. If the slots are still unresolved the sentinel is
    /// planned as-is (the backend ignores it); that is the caller's
    /// responsibility, not guarded here.
    pub fn push(&self) -> (r: Vec<Upload>)
        ensures
            r@ == sphere_uploads(*self),
    {
        let mut r: Vec<Upload> = Vec::new();
        r.push(Upload {
            slot: self.center_slot,
            value: UniformValue::Vec3 { x: self.center.x, y: self.center.y, z: self.center.z },
        });
        r.push(Upload { slot: self.radius_slot, value: UniformValue::Scalar { bits: self.radius } });
        proof {
            assert(r@ =~= sphere_uploads(*self));
        }
        r
    }
}

} // verus!
