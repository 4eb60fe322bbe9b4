//! A verified registry that keeps a bounded set of sphere descriptions in
//! sync with a shader's uniform state.
//!
//! The registry owns an ordered list of spheres, each bound once to a pair of
//! uniform slots, and plans the exact sequence of uniform uploads that a host
//! must perform each frame. The host (a thin, unverified layer around this
//! crate) resolves uniform names to slot identifiers against the live shader
//! and performs the planned uploads; everything it does is dictated by the
//! contracts here.
//!
//! Scalar uniform values are carried as 32-bit IEEE-754 bit patterns
//! (`f32::to_bits` on the host side), so the verified core works on plain
//! integers throughout.

use vstd::prelude::*;

pub mod effects;
pub mod names;
pub mod registry;
pub mod sphere;
pub mod uniforms;

verus! {

/// Capacity bound shared with the shader's fixed-size uniform array.
/// Exceeding it without shader-side adjustment is undefined on the shader
/// side, hence the host-side guard at synchronization time.
pub const MAX_SPHERES: usize = 20;

/// Sentinel slot identifier carried by a sphere before it is bound to a
/// registry index.
pub const UNRESOLVED_SLOT: i32 = -1;

} // verus!
