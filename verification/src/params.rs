//! Explicit per-draw pipeline state. A [`DrawParameters`] value fully
//! determines the state of one draw call; there is no hidden global state,
//! and each draw applies its own parameters from scratch.

use vstd::prelude::*;
use crate::geom::Rect;

verus! {

/// Which triangle faces are discarded.
#[derive(Clone, Copy, Debug, PartialEq, Eq, Structural)]
pub enum CullFace {
    /// Discard back faces.
    Back,
    /// Discard front faces.
    Front,
}

/// Per-channel color write switches.
#[derive(Clone, Copy, Debug, PartialEq, Eq, Structural)]
pub struct ColorMask {
    /// Write red.
    pub red: bool,
    /// Write green.
    pub green: bool,
    /// Write blue.
    pub blue: bool,
    /// Write alpha.
    pub alpha: bool,
}

impl ColorMask {
    /// A mask with every channel set the same way.
    pub fn all(value: bool) -> (m: ColorMask)
        ensures
            m == (ColorMask { red: value, green: value, blue: value, alpha: value }),
    {
        ColorMask { red: value, green: value, blue: value, alpha: value }
    }
}

impl Default for ColorMask {
    /// By default every channel is written.
    fn default() -> (m: ColorMask)
        ensures
            m == (ColorMask { red: true, green: true, blue: true, alpha: true }),
    {
        ColorMask { red: true, green: true, blue: true, alpha: true }
    }
}

/// Comparison applied by depth and stencil tests.
#[derive(Clone, Copy, Debug, PartialEq, Eq, Structural)]
pub enum CompareFunc {
    /// Never passes.
    Never,
    /// Passes when incoming < stored.
    Less,
    /// Passes when incoming == stored.
    Equal,
    /// Passes when incoming <= stored.
    LessOrEqual,
    /// Passes when incoming > stored.
    Greater,
    /// Passes when incoming != stored.
    NotEqual,
    /// Passes when incoming >= stored.
    GreaterOrEqual,
    /// Always passes.
    Always,
}

/// Stencil test configuration.
#[derive(Clone, Copy, Debug, PartialEq, Eq, Structural)]
pub struct StencilFunc {
    /// Comparison between reference and stored stencil.
    pub func: CompareFunc,
    /// Reference value.
    pub ref_value: u32,
    /// Bits of the stored value that take part.
    pub mask: u32,
}

/// Action on the stored stencil value.
#[derive(Clone, Copy, Debug, PartialEq, Eq, Structural)]
pub enum StencilAction {
    /// Leave the stored value.
    Keep,
    /// Store zero.
    Zero,
    /// Store the reference value.
    Replace,
    /// Increment, clamping at the maximum.
    Incr,
    /// Decrement, clamping at zero.
    Decr,
}

/// Stencil actions for the three test outcomes.
#[derive(Clone, Copy, Debug, PartialEq, Eq, Structural)]
pub struct StencilOp {
    /// When the stencil test fails.
    pub fail: StencilAction,
    /// When the stencil test passes but the depth test fails.
    pub zfail: StencilAction,
    /// When both tests pass.
    pub zpass: StencilAction,
    /// Which stencil bits may be written.
    pub write_mask: u32,
}

impl Default for StencilOp {
    /// By default every outcome keeps the stored value and all bits are
    /// writable.
    fn default() -> (o: StencilOp)
        ensures
            o == (StencilOp {
                fail: StencilAction::Keep,
                zfail: StencilAction::Keep,
                zpass: StencilAction::Keep,
                write_mask: 0xFFFF_FFFFu32,
            }),
    {
        StencilOp {
            fail: StencilAction::Keep,
            zfail: StencilAction::Keep,
            zpass: StencilAction::Keep,
            write_mask: 0xFFFF_FFFF,
        }
    }
}

/// One blend factor.
#[derive(Clone, Copy, Debug, PartialEq, Eq, Structural)]
pub enum BlendFactor {
    /// Zero.
    Zero,
    /// One.
    One,
    /// Source alpha.
    SrcAlpha,
    /// One minus source alpha.
    OneMinusSrcAlpha,
}

/// Blend configuration for one draw.
#[derive(Clone, Copy, Debug, PartialEq, Eq, Structural)]
pub struct BlendParameters {
    /// Factor applied to the incoming color.
    pub src_factor: BlendFactor,
    /// Factor applied to the stored color.
    pub dst_factor: BlendFactor,
}

/// Complete pipeline state for one draw call.
#[derive(Clone, Copy, Debug, PartialEq, Eq, Structural)]
pub struct DrawParameters {
    /// Face culling; `None` draws both faces.
    pub cull_face: Option<CullFace>,
    /// Color channel write switches.
    pub color_write: ColorMask,
    /// Whether the depth plane is written.
    pub depth_write: bool,
    /// Stencil test; `None` disables it.
    pub stencil_test: Option<StencilFunc>,
    /// Depth test; `None` disables it.
    pub depth_test: Option<CompareFunc>,
    /// Blending; `None` overwrites.
    pub blend: Option<BlendParameters>,
    /// Stencil actions.
    pub stencil_op: StencilOp,
    /// Scissor box; `None` leaves the whole target writable.
    pub scissor_box: Option<Rect<i32>>,
}

impl Default for DrawParameters {
    /// The neutral state: cull back faces, write color and depth, test
    /// depth with `Less`, no stencil, no blend, no scissor.
    fn default() -> (p: DrawParameters)
        ensures
            p == (DrawParameters {
                cull_face: Option::Some(CullFace::Back),
                color_write: ColorMask { red: true, green: true, blue: true, alpha: true },
                depth_write: true,
                stencil_test: Option::None,
                depth_test: Option::Some(CompareFunc::Less),
                blend: Option::None,
                stencil_op: StencilOp {
                    fail: StencilAction::Keep,
                    zfail: StencilAction::Keep,
                    zpass: StencilAction::Keep,
                    write_mask: 0xFFFF_FFFFu32,
                },
                scissor_box: Option::None,
            }),
    {
        DrawParameters {
            cull_face: Option::Some(CullFace::Back),
            color_write: ColorMask { red: true, green: true, blue: true, alpha: true },
            depth_write: true,
            stencil_test: Option::None,
            depth_test: Option::Some(CompareFunc::Less),
            blend: Option::None,
            stencil_op: StencilOp {
                fail: StencilAction::Keep,
                zfail: StencilAction::Keep,
                zpass: StencilAction::Keep,
                write_mask: 0xFFFF_FFFF,
            },
            scissor_box: Option::None,
        }
    }
}

} // verus!
