//! Uniform upload commands.
//!
//! The registry never touches the shader directly: it plans uploads as plain
//! values, and the host performs them in order. An [`Upload`] names a slot
//! and the typed value to write there.

use vstd::prelude::*;

verus! {

/// A typed uniform value. Floating-point components are carried as 32-bit
/// IEEE-754 bit patterns; the host converts with `f32::from_bits` when it
/// performs the upload.
#[derive(Clone, Copy, Debug, PartialEq, Eq, Structural)]
pub enum UniformValue {
    /// A 2-component float vector (the viewport resolution, written once by
    /// the host at startup; the registry never plans such an upload).
    Vec2 { x: u32, y: u32 },
    /// A 3-component float vector (a world-space position).
    Vec3 { x: u32, y: u32, z: u32 },
    /// A float scalar (a radius).
    Scalar { bits: u32 },
    /// An integer (the live sphere count).
    Int { value: i32 },
}

/// One uniform write: the value to store at the given slot.
#[derive(Clone, Copy, Debug, PartialEq, Eq, Structural)]
pub struct Upload {
    pub slot: i32,
    pub value: UniformValue,
}

} // verus!
