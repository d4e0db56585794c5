//! GPU textures as the software backend models them: a descriptor plus a
//! flat store of 32-bit texel words (and, for combined depth-stencil
//! textures, a parallel stencil plane).

use vstd::prelude::*;

verus! {

/// Largest side length the backend accepts for a texture.
pub const MAX_TEXTURE_SIZE: usize = 16384;

/// Shape of a texture.
#[derive(Clone, Copy, Debug, PartialEq, Eq, Structural)]
pub enum GpuTextureKind {
    /// A plain 2D texture.
    Rectangle {
        /// Texel columns.
        width: usize,
        /// Texel rows.
        height: usize,
    },
    /// A cube map: six square 2D faces.
    Cube {
        /// Texel columns of one face.
        width: usize,
        /// Texel rows of one face.
        height: usize,
    },
}

impl GpuTextureKind {
    /// Texel columns of the texture (of one face for a cube map).
    pub open spec fn spec_width(self) -> usize {
        match self {
            GpuTextureKind::Rectangle { width, .. } => width,
            GpuTextureKind::Cube { width, .. } => width,
        }
    }

    /// Texel rows of the texture (of one face for a cube map).
    pub open spec fn spec_height(self) -> usize {
        match self {
            GpuTextureKind::Rectangle { height, .. } => height,
            GpuTextureKind::Cube { height, .. } => height,
        }
    }

    /// How many texel words the texture stores in all.
    pub open spec fn spec_pixel_count(self) -> int {
        match self {
            GpuTextureKind::Rectangle { width, height } => width * height,
            GpuTextureKind::Cube { width, height } => 6 * (width * height),
        }
    }

    /// Texel columns (of one face for a cube map).
    pub fn width(&self) -> (w: usize)
        ensures
            w == self.spec_width(),
    {
        match self {
            GpuTextureKind::Rectangle { width, .. } => *width,
            GpuTextureKind::Cube { width, .. } => *width,
        }
    }

    /// Texel rows (of one face for a cube map).
    pub fn height(&self) -> (h: usize)
        ensures
            h == self.spec_height(),
    {
        match self {
            GpuTextureKind::Rectangle { height, .. } => *height,
            GpuTextureKind::Cube { height, .. } => *height,
        }
    }

    /// Total texel words, for sides no larger than [`MAX_TEXTURE_SIZE`].
    pub fn pixel_count(&self) -> (n: usize)
        requires
            self.spec_width() <= MAX_TEXTURE_SIZE,
            self.spec_height() <= MAX_TEXTURE_SIZE,
        ensures
            n == self.spec_pixel_count(),
    {
        let w = self.width();
        let h = self.height();
        proof {
            assert(w * h <= MAX_TEXTURE_SIZE * MAX_TEXTURE_SIZE) by (nonlinear_arith)
                requires
                    w <= MAX_TEXTURE_SIZE,
                    h <= MAX_TEXTURE_SIZE,
            ;
        }
        let n: usize = match self {
            GpuTextureKind::Rectangle { .. } => w * h,
            GpuTextureKind::Cube { .. } => 6 * (w * h),
        };
        n
    }
}

/// Storage format of one texel.
#[derive(Clone, Copy, Debug, PartialEq, Eq, Structural)]
pub enum PixelKind {
    /// One scalar per texel (occlusion maps, shadow maps).
    R32F,
    /// Three 8-bit channels per texel.
    RGB8,
    /// Four 8-bit channels per texel.
    RGBA8,
    /// One depth scalar per texel.
    D32F,
    /// Depth plus an 8-bit stencil plane.
    D24S8,
}

impl PixelKind {
    /// True for the formats a color attachment may use.
    pub open spec fn spec_is_color(self) -> bool {
        match self {
            PixelKind::R32F | PixelKind::RGB8 | PixelKind::RGBA8 => true,
            _ => false,
        }
    }

    /// True for the formats a color attachment may use.
    pub fn is_color(&self) -> (r: bool)
        ensures
            r == self.spec_is_color(),
    {
        match self {
            PixelKind::R32F | PixelKind::RGB8 | PixelKind::RGBA8 => true,
            _ => false,
        }
    }

}

/// How a texture is sampled when it covers fewer screen pixels than texels.
#[derive(Clone, Copy, Debug, PartialEq, Eq, Structural)]
pub enum MinificationFilter {
    /// Nearest texel.
    Nearest,
    /// Bilinear blend.
    Linear,
}

/// How a texture is sampled when it covers more screen pixels than texels.
#[derive(Clone, Copy, Debug, PartialEq, Eq, Structural)]
pub enum MagnificationFilter {
    /// Nearest texel.
    Nearest,
    /// Bilinear blend.
    Linear,
}

/// A texture coordinate axis.
#[derive(Clone, Copy, Debug, PartialEq, Eq, Structural)]
pub enum Coordinate {
    /// Horizontal texture axis.
    S,
    /// Vertical texture axis.
    T,
}

/// Addressing of texture coordinates outside the unit interval.
#[derive(Clone, Copy, Debug, PartialEq, Eq, Structural)]
pub enum WrapMode {
    /// Edge texels extend outward.
    ClampToEdge,
    /// Coordinates wrap around.
    Repeat,
}

/// One face of a cube map.
#[derive(Clone, Copy, Debug, PartialEq, Eq, Structural)]
pub enum CubeMapFace {
    /// The +X face.
    PositiveX,
    /// The -X face.
    NegativeX,
    /// The +Y face.
    PositiveY,
    /// The -Y face.
    NegativeY,
    /// The +Z face.
    PositiveZ,
    /// The -Z face.
    NegativeZ,
}

impl CubeMapFace {
    /// Index of the face in cube map storage order.
    pub open spec fn spec_index(self) -> int {
        match self {
            CubeMapFace::PositiveX => 0,
            CubeMapFace::NegativeX => 1,
            CubeMapFace::PositiveY => 2,
            CubeMapFace::NegativeY => 3,
            CubeMapFace::PositiveZ => 4,
            CubeMapFace::NegativeZ => 5,
        }
    }

    /// Index of the face in cube map storage order.
    pub fn face_index(&self) -> (i: usize)
        ensures
            i == self.spec_index(),
    {
        match self {
            CubeMapFace::PositiveX => 0,
            CubeMapFace::NegativeX => 1,
            CubeMapFace::PositiveY => 2,
            CubeMapFace::NegativeY => 3,
            CubeMapFace::PositiveZ => 4,
            CubeMapFace::NegativeZ => 5,
        }
    }
}

/// Identifies a texture owned by a [`crate::server::GraphicsServer`].
#[derive(Clone, Copy, Debug, PartialEq, Eq, Structural, Hash)]
pub struct TextureId {
    /// Index of the texture in the server's texture list.
    pub index: usize,
}

/// One texture as the software backend stores it.
#[derive(Clone, Debug)]
pub struct GpuTexture {
    /// Shape.
    pub kind: GpuTextureKind,
    /// Texel format.
    pub pixel_kind: PixelKind,
    /// Minification sampling.
    pub min_filter: MinificationFilter,
    /// Magnification sampling.
    pub mag_filter: MagnificationFilter,
    /// Number of mip levels (the model stores texels of level 0 only).
    pub mip_count: usize,
    /// Addressing along the horizontal axis.
    pub wrap_s: WrapMode,
    /// Addressing along the vertical axis.
    pub wrap_t: WrapMode,
    /// Texel words, row-major, faces consecutive for a cube map.
    pub texels: Vec<u32>,
    /// Stencil plane; non-empty exactly for combined depth-stencil textures.
    pub stencil: Vec<i32>,
}

impl GpuTexture {
    /// Structural soundness of a texture record.
    pub open spec fn well_formed(self) -> bool {
        &&& 1 <= self.kind.spec_width() <= MAX_TEXTURE_SIZE
        &&& 1 <= self.kind.spec_height() <= MAX_TEXTURE_SIZE
        &&& self.mip_count >= 1
        &&& self.texels@.len() == self.kind.spec_pixel_count()
        &&& self.stencil@.len() == if self.pixel_kind == PixelKind::D24S8 {
            self.kind.spec_pixel_count()
        } else {
            0int
        }
    }
}

/// Two texture records that differ at most in their texel and stencil
/// planes.
pub open spec fn same_shape(a: GpuTexture, b: GpuTexture) -> bool {
    &&& a.kind == b.kind
    &&& a.pixel_kind == b.pixel_kind
    &&& a.min_filter == b.min_filter
    &&& a.mag_filter == b.mag_filter
    &&& a.mip_count == b.mip_count
    &&& a.wrap_s == b.wrap_s
    &&& a.wrap_t == b.wrap_t
}

} // verus!
