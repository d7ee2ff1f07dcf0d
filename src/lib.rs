//! The combinatorial core of a software 3D renderer: the plan for cutting a convex
//! quadrilateral by a plane, binary space partitioning trees with their painter's
//! order, the choice of the face a ray meets first, depth ordering, colors and
//! pixel-art patterns. Geometry in floating point is left to the caller, which plugs
//! in through `bsp::PlaneSplitter` and `bsp::Viewer`.
use vstd::prelude::*;

pub mod boxy_world;
pub mod bsp;
pub mod color;
pub mod controls;
pub mod frame;
pub mod line;
pub mod render;
pub mod split;
pub mod textures;

verus! {

/// Width of the screen, in pixels.
pub const WIDTH: u32 = 480;

/// Height of the screen, in pixels.
pub const HEIGHT: u32 = 320;

} // verus!
