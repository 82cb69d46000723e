//! What every draw has in common.

use vstd::prelude::*;

verus! {

/// How a vertex list is assembled into triangles.
#[derive(Clone, Copy, Debug, PartialEq, Eq, Structural)]
pub enum Primitive {
    TriangleList,
    TriangleStrip,
}

/// The fixed configuration every draw uses.
#[derive(Clone, Copy, Debug, PartialEq, Eq, Structural)]
pub struct DrawState {
    /// Whether alpha blending is on.
    pub blend_alpha: bool,
}

/// The draw state shared by all draws: alpha blending on.
pub open spec fn shared_state() -> DrawState {
    DrawState { blend_alpha: true }
}

} // verus!
