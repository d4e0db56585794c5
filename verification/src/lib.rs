//! Core of a small 3D engine: a software model of a deferred rendering
//! pipeline (framebuffers, resource bindings, render passes such as screen
//! space ambient occlusion), together with the scene and UI pieces that feed
//! it. Scalar quantities are carried as 16.16 fixed-point numbers so that
//! every computation in the crate is exact and verified.

use vstd::prelude::*;

pub mod algebra;
pub mod blur;
pub mod buffer;
pub mod check_box;
pub mod color;
pub mod commands;
pub mod error;
pub mod fixed;
pub mod framebuffer;
pub mod geom;
pub mod geometry_buffer;
pub mod light_point;
pub mod gpu_program;
pub mod gpu_texture;
pub mod params;
pub mod pool;
pub mod rectangle;
pub mod rng;
pub mod scene;
pub mod server;
pub mod ssao;
pub mod stats;
pub mod style;
pub mod texel;
pub mod uniform;
pub mod ui;
pub mod widget;

verus! {

/// Smallest sanity check of the fixed-point scale: one whole unit is 65536
/// raw steps.
pub fn fixed_scale() -> (r: i64)
    ensures
        r == fixed::FX_ONE,
{
    fixed::FX_ONE
}

} // verus!
