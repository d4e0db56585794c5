//! Render targets and the draw path. A framebuffer is an ordered list of
//! color attachments plus at most one depth-class attachment; it offers
//! clear, blit, draw and instanced draw, each parameterized by explicit
//! per-draw state and a declarative resource-binding list.

use vstd::prelude::*;
use crate::buffer::BufferId;
use crate::error::FrameworkError;
use crate::gpu_program::UniformLocation;
use crate::color::{color_word, Color};
use crate::fixed::{fx_to_word, fx_word_spec, Fx};
use crate::geom::Rect;
use crate::geometry_buffer::{ElementRange, GeometryBuffer};
use crate::gpu_program::ProgramId;
use crate::params::DrawParameters;
use crate::server::{AppliedBinding, PipelineState};
use crate::stats::DrawCallStatistics;
use crate::gpu_texture::{same_shape, CubeMapFace, GpuTexture, GpuTextureKind, PixelKind,
    TextureId};
use crate::server::GraphicsServer;
use crate::texel::{copy_plane, copy_region_scaled, copy_spec, fill_region, fill_spec};

verus! {

/// Class of a framebuffer attachment.
#[derive(Clone, Copy, Debug, PartialEq, Eq, Structural, Hash, PartialOrd, Ord)]
pub enum AttachmentKind {
    /// A color target.
    Color,
    /// A combined depth and stencil target.
    DepthStencil,
    /// A depth-only target.
    Depth,
}

/// One render target of a framebuffer: a class and the texture that backs
/// it. The texture stays readable by other passes while the framebuffer
/// renders to it.
#[derive(Clone, Copy, Debug, PartialEq, Eq, Structural)]
pub struct Attachment {
    /// Class of the target.
    pub kind: AttachmentKind,
    /// The backing texture.
    pub texture: TextureId,
}

/// How much of a bound buffer one draw reads.
#[derive(Clone, Copy, Debug, PartialEq, Eq, Structural)]
pub enum BufferDataUsage {
    /// The whole buffer.
    UseEverything,
    /// One contiguous word range of the buffer.
    UseSegment {
        /// First word read.
        offset: usize,
        /// Number of words read.
        size: usize,
    },
}

impl Default for BufferDataUsage {
    /// By default a draw reads the whole buffer.
    fn default() -> (u: BufferDataUsage)
        ensures
            u == BufferDataUsage::UseEverything,
    {
        BufferDataUsage::UseEverything
    }
}

/// Where a texture binding attaches: through a reflected sampler uniform,
/// or directly to an explicit binding slot for backends without
/// reflection.
#[derive(Clone, Copy, Debug, PartialEq, Eq, Structural)]
pub enum TextureShaderLocation {
    /// A sampler uniform resolved from the program.
    Uniform(UniformLocation),
    /// A fixed binding slot.
    ExplicitBinding(usize),
}

/// Where a buffer binding attaches: mirror of [`TextureShaderLocation`]
/// for uniform blocks.
#[derive(Clone, Copy, Debug, PartialEq, Eq, Structural)]
pub enum BufferLocation {
    /// A uniform block index resolved from the program.
    Auto {
        /// The block index.
        shader_location: usize,
    },
    /// A fixed binding slot.
    Explicit {
        /// The slot.
        binding: usize,
    },
}

/// One resource a draw call reads: a texture or a buffer range, paired
/// with the shader slot it feeds.
#[derive(Clone, Copy, Debug, PartialEq, Eq, Structural)]
pub enum ResourceBinding {
    /// A texture sampled by the draw.
    Texture {
        /// The texture.
        texture: TextureId,
        /// The slot it feeds.
        shader_location: TextureShaderLocation,
    },
    /// A buffer range read by the draw.
    Buffer {
        /// The buffer.
        buffer: BufferId,
        /// The slot it feeds.
        binding: BufferLocation,
        /// How much of the buffer is read.
        data_usage: BufferDataUsage,
    },
}

impl ResourceBinding {
    /// A texture binding through a reflected sampler uniform.
    pub fn texture(texture: &TextureId, shader_location: &UniformLocation) -> (r: ResourceBinding)
        ensures
            r == (ResourceBinding::Texture {
                texture: *texture,
                shader_location: TextureShaderLocation::Uniform(*shader_location),
            }),
    {
        ResourceBinding::Texture {
            texture: *texture,
            shader_location: TextureShaderLocation::Uniform(*shader_location),
        }
    }

    /// A texture binding to an explicit slot, bypassing reflection.
    pub fn texture_with_binding(texture: &TextureId, binding: usize) -> (r: ResourceBinding)
        ensures
            r == (ResourceBinding::Texture {
                texture: *texture,
                shader_location: TextureShaderLocation::ExplicitBinding(binding),
            }),
    {
        ResourceBinding::Texture {
            texture: *texture,
            shader_location: TextureShaderLocation::ExplicitBinding(binding),
        }
    }
}

/// The ordered resource bindings of one draw call. Built fresh for every
/// draw; never retained across frames. Two bindings aiming at the same
/// slot are a caller error: the backend accepts the list, and which one
/// the hardware reads is undefined.
pub struct ResourceBindGroup<'a> {
    /// The bindings, in declaration order.
    pub bindings: &'a [ResourceBinding],
}

/// A render target: ordered color attachments (index order is binding
/// order) plus at most one depth-class attachment. Attachment order and
/// identity are fixed for the framebuffer's lifetime; a cube-map-backed
/// color attachment can be redirected to a face.
#[derive(Debug)]
pub struct FrameBuffer {
    /// Color attachments, in binding order.
    pub colors: Vec<Attachment>,
    /// The depth-class attachment, if any.
    pub depth: Option<Attachment>,
    /// Selected cube map face of each color attachment.
    pub faces: Vec<CubeMapFace>,
}

/// Position of the first color attachment backed by texture `ti`, if any.
pub open spec fn att_color_index(colors: Seq<Attachment>, ti: int) -> Option<int>
    decreases colors.len(),
{
    if colors.len() == 0 {
        Option::None
    } else if colors[0].texture.index == ti {
        Option::Some(0int)
    } else {
        match att_color_index(colors.skip(1), ti) {
            Option::Some(j) => Option::Some(j + 1),
            Option::None => Option::None,
        }
    }
}

/// With pairwise distinct backing textures, the first-match search finds
/// each attachment at its own position.
pub proof fn lemma_att_color_index_self(colors: Seq<Attachment>, j: int)
    requires
        0 <= j < colors.len(),
        forall|a: int, b: int|
            0 <= a < b < colors.len() ==> colors[a].texture.index != colors[b].texture.index,
    ensures
        att_color_index(colors, colors[j].texture.index as int) == Option::Some(j),
    decreases j,
{
    if j == 0 {
    } else {
        assert(colors[0].texture.index != colors[j].texture.index);
        assert(colors.skip(1)[j - 1] == colors[j]);
        assert(forall|a: int, b: int|
            0 <= a < b < colors.skip(1).len() ==> colors.skip(1)[a].texture.index != colors.skip(
                1,
            )[b].texture.index);
        lemma_att_color_index_self(colors.skip(1), j - 1);
    }
}

/// A found position lies inside the attachment list and names an
/// attachment backed by the searched texture.
pub proof fn lemma_att_color_index_range(colors: Seq<Attachment>, ti: int)
    requires
        att_color_index(colors, ti) is Some,
    ensures
        0 <= att_color_index(colors, ti).unwrap() < colors.len(),
        colors[att_color_index(colors, ti).unwrap()].texture.index == ti,
    decreases colors.len(),
{
    if colors.len() > 0 && colors[0].texture.index != ti {
        lemma_att_color_index_range(colors.skip(1), ti);
        assert(colors.skip(1)[att_color_index(colors.skip(1), ti).unwrap()] == colors[
            att_color_index(colors, ti).unwrap()]);
    }
}

/// A texture that backs no color attachment is never found.
pub proof fn lemma_att_color_index_miss(colors: Seq<Attachment>, ti: int)
    requires
        forall|j: int| 0 <= j < colors.len() ==> colors[j].texture.index != ti,
    ensures
        att_color_index(colors, ti) is None,
    decreases colors.len(),
{
    if colors.len() > 0 {
        assert(forall|j: int| 0 <= j < colors.skip(1).len() ==> colors.skip(1)[j] == colors[j + 1]);
        lemma_att_color_index_miss(colors.skip(1), ti);
    }
}

impl FrameBuffer {
    /// The color attachments, in binding order.
    pub fn color_attachments(&self) -> (r: &Vec<Attachment>)
        ensures
            r@ == self.spec_colors(),
    {
        &self.colors
    }

    /// The depth-class attachment, if the framebuffer has one.
    pub fn depth_attachment(&self) -> (r: Option<&Attachment>)
        ensures
            match r {
                Option::Some(a) => self.spec_depth() == Option::Some(*a),
                Option::None => self.spec_depth() is None,
            },
    {
        self.depth.as_ref()
    }

    /// The color attachments.
    pub open spec fn spec_colors(self) -> Seq<Attachment> {
        self.colors@
    }

    /// The depth-class attachment.
    pub open spec fn spec_depth(self) -> Option<Attachment> {
        self.depth
    }

    /// The selected cube map face of each color attachment.
    pub open spec fn spec_faces(self) -> Seq<CubeMapFace> {
        self.faces@
    }

    /// Texel columns of every attachment.
    pub open spec fn spec_width(self, server: GraphicsServer) -> int {
        atts_width(server, self.depth, self.colors@)
    }

    /// Texel rows of every attachment.
    pub open spec fn spec_height(self, server: GraphicsServer) -> int {
        atts_height(server, self.depth, self.colors@)
    }

    /// The framebuffer is a usable render target of `server`: every
    /// attachment is a live texture of a matching pixel format, all
    /// attachments share one size, no texture backs two attachments, and
    /// each color attachment carries a face selector.
    pub open spec fn valid(self, server: GraphicsServer) -> bool {
        &&& self.faces@.len() == self.colors@.len()
        &&& spec_attachments_ok(server, self.depth, self.colors@)
    }

    /// Redirects a color attachment to one face of its cube map texture
    /// for subsequent draws and clears. On an attachment that is not
    /// cube-map-backed the selector is recorded and has no effect: the
    /// mismatch is a caller error this layer does not check.
    pub fn set_cubemap_face(&mut self, attachment_index: usize, face: CubeMapFace)
        requires
            attachment_index < old(self).spec_faces().len(),
        ensures
            final(self).spec_colors() == old(self).spec_colors(),
            final(self).spec_depth() == old(self).spec_depth(),
            final(self).spec_faces() == old(self).spec_faces().update(
                attachment_index as int,
                face,
            ),
    {
        self.faces[attachment_index] = face;
    }
}

impl GraphicsServer {
    /// Assembles a framebuffer from attachments created on this server.
    /// Fails exactly when the attachment set is unusable: a dead texture
    /// handle is reported as `InvalidResource`, any other mismatch of
    /// classes, formats or sizes as `InvalidAttachment`.
    pub fn create_frame_buffer(
        &self,
        depth_attachment: Option<Attachment>,
        color_attachments: Vec<Attachment>,
    ) -> (r: Result<FrameBuffer, FrameworkError>)
        ensures
            match r {
                Result::Ok(fb) => {
                    &&& spec_attachments_ok(*self, depth_attachment, color_attachments@)
                    &&& fb.spec_colors() == color_attachments@
                    &&& fb.spec_depth() == depth_attachment
                    &&& fb.spec_faces() == Seq::new(
                        color_attachments@.len(),
                        |j: int| CubeMapFace::PositiveX,
                    )
                    &&& fb.valid(*self)
                },
                Result::Err(e) => {
                    &&& !spec_attachments_ok(*self, depth_attachment, color_attachments@)
                    &&& (e == FrameworkError::InvalidResource || e
                        == FrameworkError::InvalidAttachment)
                },
            },
    {
        let mut faces: Vec<CubeMapFace> = Vec::new();
        let n = color_attachments.len();
        if n == 0 && matches!(depth_attachment, Option::None) {
            return Result::Err(FrameworkError::InvalidAttachment);
        }
        let (w, h) = if n > 0 {
            let ti = color_attachments[0].texture;
            if ti.index >= self.textures.len() {
                proof {
                    if spec_attachments_ok(*self, depth_attachment, color_attachments@) {
                        assert(color_attachments@[0].texture.index < self.textures@.len());
                    }
                }
                return Result::Err(FrameworkError::InvalidResource);
            }
            let k = self.textures[ti.index].kind;
            (k.width(), k.height())
        } else {
            let a = match &depth_attachment {
                Option::Some(a) => a,
                Option::None => { return Result::Err(FrameworkError::InvalidAttachment) },
            };
            if a.texture.index >= self.textures.len() {
                return Result::Err(FrameworkError::InvalidResource);
            }
            let k = self.textures[a.texture.index].kind;
            (k.width(), k.height())
        };
        let mut j: usize = 0;
        while j < n
            invariant
                j <= n,
                n == color_attachments@.len(),
                n > 0 ==> color_attachments@[0].texture.index < self.textures@.len(),
                w == atts_width(*self, depth_attachment, color_attachments@),
                h == atts_height(*self, depth_attachment, color_attachments@),
                faces@.len() == j,
                forall|i: int| 0 <= i < j ==> faces@[i] == CubeMapFace::PositiveX,
                forall|i: int|
                    0 <= i < j ==> {
                        &&& (#[trigger] color_attachments@[i]).texture.index
                            < self.textures@.len()
                        &&& color_attachments@[i].kind == AttachmentKind::Color
                        &&& self.textures@[color_attachments@[i].texture.index as int].pixel_kind.spec_is_color()
                        &&& self.textures@[color_attachments@[i].texture.index as int].kind.spec_width()
                            == w
                        &&& self.textures@[color_attachments@[i].texture.index as int].kind.spec_height()
                            == h
                    },
                forall|a: int, b: int|
                    0 <= a < b < j ==> color_attachments@[a].texture.index
                        != color_attachments@[b].texture.index,
            decreases n - j,
        {
            let a = color_attachments[j];
            if a.texture.index >= self.textures.len() {
                proof {
                    if spec_attachments_ok(*self, depth_attachment, color_attachments@) {
                        assert(color_attachments@[j as int].texture.index
                            < self.textures@.len());
                    }
                }
                return Result::Err(FrameworkError::InvalidResource);
            }
            let t = &self.textures[a.texture.index];
            if !matches!(a.kind, AttachmentKind::Color) || !t.pixel_kind.is_color()
                || t.kind.width() != w || t.kind.height() != h {
                proof {
                    if spec_attachments_ok(*self, depth_attachment, color_attachments@) {
                        assert({
                            &&& color_attachments@[j as int].kind == AttachmentKind::Color
                            &&& self.textures@[color_attachments@[j as int].texture.index as int].pixel_kind.spec_is_color()
                            &&& self.textures@[color_attachments@[j as int].texture.index as int].kind.spec_width()
                                == w
                            &&& self.textures@[color_attachments@[j as int].texture.index as int].kind.spec_height()
                                == h
                        });
                    }
                }
                return Result::Err(FrameworkError::InvalidAttachment);
            }
            let mut i: usize = 0;
            while i < j
                invariant
                    i <= j,
                    j < n,
                    n == color_attachments@.len(),
                    a == color_attachments@[j as int],
                    forall|b: int|
                        0 <= b < i ==> color_attachments@[b].texture.index != (
                        color_attachments@[j as int]).texture.index,
                decreases j - i,
            {
                if color_attachments[i].texture.index == a.texture.index {
                    proof {
                        if spec_attachments_ok(*self, depth_attachment, color_attachments@) {
                            assert(color_attachments@[i as int].texture.index
                                != color_attachments@[j as int].texture.index);
                        }
                    }
                    return Result::Err(FrameworkError::InvalidAttachment);
                }
                i = i + 1;
            }
            faces.push(CubeMapFace::PositiveX);
            j = j + 1;
        }
        match &depth_attachment {
            Option::Some(a) => {
                if a.texture.index >= self.textures.len() {
                    return Result::Err(FrameworkError::InvalidResource);
                }
                let t = &self.textures[a.texture.index];
                let kind_ok = match a.kind {
                    AttachmentKind::Depth => matches!(t.pixel_kind, PixelKind::D32F),
                    AttachmentKind::DepthStencil => matches!(t.pixel_kind, PixelKind::D24S8),
                    AttachmentKind::Color => false,
                };
                if !kind_ok || t.kind.width() != w || t.kind.height() != h {
                    return Result::Err(FrameworkError::InvalidAttachment);
                }
                let mut i: usize = 0;
                while i < n
                    invariant
                        i <= n,
                        n == color_attachments@.len(),
                        depth_attachment == Option::Some(*a),
                        forall|b: int|
                            0 <= b < i ==> color_attachments@[b].texture.index != a.texture.index,
                    decreases n - i,
                {
                    if color_attachments[i].texture.index == a.texture.index {
                        proof {
                            if spec_attachments_ok(*self, depth_attachment, color_attachments@) {
                                assert(color_attachments@[i as int].texture.index
                                    != a.texture.index);
                            }
                        }
                        return Result::Err(FrameworkError::InvalidAttachment);
                    }
                    i = i + 1;
                }
            },
            Option::None => {},
        }
        let fb = FrameBuffer { colors: color_attachments, depth: depth_attachment, faces };
        proof {
            assert(fb.spec_faces() =~= Seq::new(
                fb.spec_colors().len(),
                |j: int| CubeMapFace::PositiveX,
            ));
        }
        Result::Ok(fb)
    }
}

/// Texel columns shared by a prospective attachment set (read from the
/// first color attachment, else from the depth attachment).
pub open spec fn atts_width(
    server: GraphicsServer,
    depth: Option<Attachment>,
    colors: Seq<Attachment>,
) -> int {
    if colors.len() > 0 {
        server.textures@[colors[0].texture.index as int].kind.spec_width() as int
    } else {
        server.textures@[depth.unwrap().texture.index as int].kind.spec_width() as int
    }
}

/// Texel rows shared by a prospective attachment set.
pub open spec fn atts_height(
    server: GraphicsServer,
    depth: Option<Attachment>,
    colors: Seq<Attachment>,
) -> int {
    if colors.len() > 0 {
        server.textures@[colors[0].texture.index as int].kind.spec_height() as int
    } else {
        server.textures@[depth.unwrap().texture.index as int].kind.spec_height() as int
    }
}

/// The conditions under which an attachment set assembles into a
/// framebuffer: at least one attachment; every color attachment is a live
/// color-format texture; the depth attachment, if any, is a live texture
/// of the format its class demands; all attachments share one size; and
/// no texture backs two attachments.
pub open spec fn spec_attachments_ok(
    server: GraphicsServer,
    depth: Option<Attachment>,
    colors: Seq<Attachment>,
) -> bool {
    &&& colors.len() + (if depth is Some {
        1int
    } else {
        0int
    }) >= 1
    &&& forall|j: int|
        0 <= j < colors.len() ==> {
            &&& (#[trigger] colors[j]).texture.index < server.textures@.len()
            &&& colors[j].kind == AttachmentKind::Color
            &&& server.textures@[colors[j].texture.index as int].pixel_kind.spec_is_color()
            &&& server.textures@[colors[j].texture.index as int].kind.spec_width() == atts_width(
                server,
                depth,
                colors,
            )
            &&& server.textures@[colors[j].texture.index as int].kind.spec_height() == atts_height(
                server,
                depth,
                colors,
            )
        }
    &&& match depth {
        Option::Some(a) => {
            &&& a.texture.index < server.textures@.len()
            &&& match a.kind {
                AttachmentKind::Depth => server.textures@[a.texture.index as int].pixel_kind
                    == PixelKind::D32F,
                AttachmentKind::DepthStencil => server.textures@[a.texture.index as int].pixel_kind
                    == PixelKind::D24S8,
                AttachmentKind::Color => false,
            }
            &&& server.textures@[a.texture.index as int].kind.spec_width() == atts_width(
                server,
                depth,
                colors,
            )
            &&& server.textures@[a.texture.index as int].kind.spec_height() == atts_height(
                server,
                depth,
                colors,
            )
            &&& forall|j: int|
                0 <= j < colors.len() ==> (#[trigger] colors[j]).texture.index != a.texture.index
        },
        Option::None => true,
    }
    &&& forall|a: int, b: int|
        0 <= a < b < colors.len() ==> colors[a].texture.index != colors[b].texture.index
}

/// A coordinate clamped to the interval `[0, hi]`.
pub open spec fn clip_coord(v: int, hi: int) -> int {
    if v < 0 {
        0
    } else if v > hi {
        hi
    } else {
        v
    }
}

/// Left edge of a viewport clipped to a `w`-column plane.
pub open spec fn clip_x0(vp: Rect<i32>, w: int) -> int {
    clip_coord(vp.x as int, w)
}

/// Right edge of a viewport clipped to a `w`-column plane; never to the
/// left of the left edge.
pub open spec fn clip_x1(vp: Rect<i32>, w: int) -> int {
    let c = clip_coord(vp.x + vp.w, w);
    if c < clip_x0(vp, w) {
        clip_x0(vp, w)
    } else {
        c
    }
}

/// Top edge of a viewport clipped to an `h`-row plane.
pub open spec fn clip_y0(vp: Rect<i32>, h: int) -> int {
    clip_coord(vp.y as int, h)
}

/// Bottom edge of a viewport clipped to an `h`-row plane; never above the
/// top edge.
pub open spec fn clip_y1(vp: Rect<i32>, h: int) -> int {
    let c = clip_coord(vp.y + vp.h, h);
    if c < clip_y0(vp, h) {
        clip_y0(vp, h)
    } else {
        c
    }
}

/// A coordinate clamped to the interval `[0, hi]`.
fn clip_to(v: i64, hi: usize) -> (r: usize)
    requires
        hi <= 0x7FFF_FFFF_FFFF_FFFF,
    ensures
        r == clip_coord(v as int, hi as int),
{
    if v < 0 {
        0
    } else if v > hi as i64 {
        hi
    } else {
        v as usize
    }
}

/// First texel word of the face a color attachment writes: face selectors
/// take effect on cube map textures only.
pub open spec fn face_base(t: GpuTexture, face: CubeMapFace) -> int {
    match t.kind {
        GpuTextureKind::Cube { width, height } => face.spec_index() * (width * height),
        GpuTextureKind::Rectangle { .. } => 0,
    }
}

/// The texel plane of texture `ti` after a clear of `fb` with these
/// arguments.
pub open spec fn spec_cleared_texels(
    server: GraphicsServer,
    fb: FrameBuffer,
    ti: int,
    vp: Rect<i32>,
    color: Option<Color>,
    depth: Option<Fx>,
) -> Seq<u32> {
    let t = server.textures@[ti];
    let w = t.kind.spec_width() as int;
    let h = t.kind.spec_height() as int;
    if att_color_index(fb.spec_colors(), ti) is Some && color is Some {
        let j = att_color_index(fb.spec_colors(), ti).unwrap();
        fill_spec(
            t.texels@,
            face_base(t, fb.spec_faces()[j]),
            w,
            h,
            clip_x0(vp, w),
            clip_x1(vp, w),
            clip_y0(vp, h),
            clip_y1(vp, h),
            color_word(color.unwrap()) as u32,
        )
    } else if fb.spec_depth() is Some && fb.spec_depth().unwrap().texture.index == ti && depth
        is Some {
        fill_spec(
            t.texels@,
            0,
            w,
            h,
            clip_x0(vp, w),
            clip_x1(vp, w),
            clip_y0(vp, h),
            clip_y1(vp, h),
            fx_word_spec(depth.unwrap().raw as int) as u32,
        )
    } else {
        t.texels@
    }
}

/// The stencil plane of texture `ti` after a clear of `fb` with these
/// arguments.
pub open spec fn spec_cleared_stencil(
    server: GraphicsServer,
    fb: FrameBuffer,
    ti: int,
    vp: Rect<i32>,
    stencil: Option<i32>,
) -> Seq<i32> {
    let t = server.textures@[ti];
    let w = t.kind.spec_width() as int;
    let h = t.kind.spec_height() as int;
    if fb.spec_depth() is Some && fb.spec_depth().unwrap().texture.index == ti && t.pixel_kind
        == PixelKind::D24S8 && stencil is Some {
        fill_spec(
            t.stencil@,
            0,
            w,
            h,
            clip_x0(vp, w),
            clip_x1(vp, w),
            clip_y0(vp, h),
            clip_y1(vp, h),
            stencil.unwrap(),
        )
    } else {
        t.stencil@
    }
}

impl FrameBuffer {
    /// Clears the channels whose clear value is present, over the part of
    /// the viewport that lies inside the attachments: a present color
    /// clears every color attachment (each through its selected face), a
    /// present depth clears the depth attachment, a present stencil
    /// clears the stencil plane of a combined depth-stencil attachment.
    /// Absent channels, and every other texture, keep their content.
    pub fn clear(
        &self,
        server: &mut GraphicsServer,
        viewport: Rect<i32>,
        color: Option<Color>,
        depth: Option<Fx>,
        stencil: Option<i32>,
    )
        requires
            old(server).wf(),
            self.valid(*old(server)),
        ensures
            final(server).wf(),
            self.valid(*final(server)),
            final(server).buffers == old(server).buffers,
            final(server).programs == old(server).programs,
            final(server).state == old(server).state,
            final(server).draws == old(server).draws,
            final(server).textures@.len() == old(server).textures@.len(),
            forall|ti: int|
                0 <= ti < old(server).textures@.len() ==> {
                    &&& same_shape(
                        #[trigger] final(server).textures@[ti],
                        old(server).textures@[ti],
                    )
                    &&& final(server).textures@[ti].texels@ == spec_cleared_texels(
                        *old(server),
                        *self,
                        ti,
                        viewport,
                        color,
                        depth,
                    )
                    &&& final(server).textures@[ti].stencil@ == spec_cleared_stencil(
                        *old(server),
                        *self,
                        ti,
                        viewport,
                        stencil,
                    )
                },
    {
        let ghost srv0 = *server;
        match color {
            Option::Some(c) => {
                let word = c.to_word();
                let n = self.colors.len();
                let mut j: usize = 0;
                while j < n
                    invariant
                        j <= n,
                        n == self.spec_colors().len(),
                        srv0.wf(),
                        self.valid(srv0),
                        server.wf(),
                        self.valid(*server),
                        word == color_word(c) as u32,
                        server.buffers == srv0.buffers,
                        server.programs == srv0.programs,
                        server.state == srv0.state,
                        server.draws == srv0.draws,
                        server.textures@.len() == srv0.textures@.len(),
                        forall|ti: int|
                            0 <= ti < srv0.textures@.len() ==> same_shape(
                                #[trigger] server.textures@[ti],
                                srv0.textures@[ti],
                            ),
                        forall|ti: int|
                            0 <= ti < srv0.textures@.len()
                                ==> #[trigger] server.textures@[ti].stencil@
                                == srv0.textures@[ti].stencil@,
                        forall|ti: int|
                            0 <= ti < srv0.textures@.len()
                                ==> #[trigger] server.textures@[ti].texels@ == (
                            if att_color_index(self.spec_colors(), ti) is Some && 0
                                <= att_color_index(self.spec_colors(), ti).unwrap() < j {
                                spec_cleared_texels(
                                    srv0,
                                    *self,
                                    ti,
                                    viewport,
                                    Option::Some(c),
                                    Option::None,
                                )
                            } else {
                                srv0.textures@[ti].texels@
                            }),
                    decreases n - j,
                {
                    let ti = self.colors[j].texture.index;
                    proof {
                        lemma_att_color_index_self(self.spec_colors(), j as int);
                    }
                    let tw = server.textures[ti].kind.width();
                    let th = server.textures[ti].kind.height();
                    let tl = server.textures[ti].texels.len();
                    let base: usize = match server.textures[ti].kind {
                        GpuTextureKind::Cube { .. } => {
                            let f = self.faces[j].face_index();
                            proof {
                                assert(f * (tw * th) + tw * th <= 6 * (tw * th))
                                    by (nonlinear_arith)
                                    requires
                                        f <= 5,
                                        tw * th >= 0,
                                ;
                                assert(6 * (tw * th) == tl);
                            }
                            f * (tw * th)
                        },
                        GpuTextureKind::Rectangle { .. } => 0,
                    };
                    let cx0 = clip_to(viewport.x as i64, tw);
                    let cx1r = clip_to(viewport.x as i64 + viewport.w as i64, tw);
                    let cx1 = if cx1r < cx0 {
                        cx0
                    } else {
                        cx1r
                    };
                    let cy0 = clip_to(viewport.y as i64, th);
                    let cy1r = clip_to(viewport.y as i64 + viewport.h as i64, th);
                    let cy1 = if cy1r < cy0 {
                        cy0
                    } else {
                        cy1r
                    };
                    fill_region(
                        &mut server.textures[ti].texels,
                        base,
                        tw,
                        th,
                        cx0,
                        cx1,
                        cy0,
                        cy1,
                        word,
                    );
                    proof {
                        assert forall|ti2: int| 0 <= ti2 < srv0.textures@.len() implies
                            #[trigger] server.textures@[ti2].texels@ == (
                        if att_color_index(self.spec_colors(), ti2) is Some && 0
                            <= att_color_index(self.spec_colors(), ti2).unwrap() < j + 1 {
                            spec_cleared_texels(
                                srv0,
                                *self,
                                ti2,
                                viewport,
                                Option::Some(c),
                                Option::None,
                            )
                        } else {
                            srv0.textures@[ti2].texels@
                        }) by {
                            if att_color_index(self.spec_colors(), ti2) is Some {
                                lemma_att_color_index_range(self.spec_colors(), ti2);
                                let jj = att_color_index(self.spec_colors(), ti2).unwrap();
                                if jj == j {
                                    assert(ti2 == ti);
                                } else {
                                    assert(self.spec_colors()[jj].texture.index
                                        != self.spec_colors()[j as int].texture.index);
                                    assert(ti2 != ti);
                                }
                            } else {
                                assert(ti2 != ti);
                            }
                        }
                    }
                    j = j + 1;
                }
            },
            Option::None => {},
        }
        match (&self.depth, depth) {
            (Option::Some(a), Option::Some(d)) => {
                let ti = a.texture.index;
                proof {
                    lemma_att_color_index_miss(self.spec_colors(), ti as int);
                }
                let word = fx_to_word(d);
                let tw = server.textures[ti].kind.width();
                let th = server.textures[ti].kind.height();
                let cx0 = clip_to(viewport.x as i64, tw);
                let cx1r = clip_to(viewport.x as i64 + viewport.w as i64, tw);
                let cx1 = if cx1r < cx0 {
                    cx0
                } else {
                    cx1r
                };
                let cy0 = clip_to(viewport.y as i64, th);
                let cy1r = clip_to(viewport.y as i64 + viewport.h as i64, th);
                let cy1 = if cy1r < cy0 {
                    cy0
                } else {
                    cy1r
                };
                fill_region(&mut server.textures[ti].texels, 0, tw, th, cx0, cx1, cy0, cy1, word);
            },
            _ => {},
        }
        match (&self.depth, stencil) {
            (Option::Some(a), Option::Some(sv)) => {
                let ti = a.texture.index;
                proof {
                    lemma_att_color_index_miss(self.spec_colors(), ti as int);
                }
                let is_ds = matches!(server.textures[ti].pixel_kind, PixelKind::D24S8);
                if is_ds {
                    let tw = server.textures[ti].kind.width();
                    let th = server.textures[ti].kind.height();
                    let cx0 = clip_to(viewport.x as i64, tw);
                    let cx1r = clip_to(viewport.x as i64 + viewport.w as i64, tw);
                    let cx1 = if cx1r < cx0 {
                        cx0
                    } else {
                        cx1r
                    };
                    let cy0 = clip_to(viewport.y as i64, th);
                    let cy1r = clip_to(viewport.y as i64 + viewport.h as i64, th);
                    let cy1 = if cy1r < cy0 {
                        cy0
                    } else {
                        cy1r
                    };
                    fill_region(
                        &mut server.textures[ti].stencil,
                        0,
                        tw,
                        th,
                        cx0,
                        cx1,
                        cy0,
                        cy1,
                        sv,
                    );
                }
            },
            _ => {},
        }
        proof {
            assert forall|ti: int| 0 <= ti < srv0.textures@.len() implies {
                &&& same_shape(#[trigger] server.textures@[ti], srv0.textures@[ti])
                &&& server.textures@[ti].texels@ == spec_cleared_texels(
                    srv0,
                    *self,
                    ti,
                    viewport,
                    color,
                    depth,
                )
                &&& server.textures@[ti].stencil@ == spec_cleared_stencil(
                    srv0,
                    *self,
                    ti,
                    viewport,
                    stencil,
                )
            } by {
                if att_color_index(self.spec_colors(), ti) is Some {
                    lemma_att_color_index_range(self.spec_colors(), ti);
                }
            }
        }
    }
}

/// Resolution of one declarative binding to its flat backend slot, or the
/// error that stops it: a dead handle, a uniform location of another
/// program, a block index the program does not have, or a segment outside
/// its buffer.
pub open spec fn spec_resolve_binding(
    server: GraphicsServer,
    program: ProgramId,
    b: ResourceBinding,
) -> Result<AppliedBinding, FrameworkError> {
    match b {
        ResourceBinding::Texture { texture, shader_location } => {
            if texture.index >= server.textures@.len() {
                Result::Err(FrameworkError::InvalidResource)
            } else {
                match shader_location {
                    TextureShaderLocation::Uniform(loc) => {
                        if loc.program != program || loc.index
                            >= server.programs@[program.index as int].samplers@.len() {
                            Result::Err(FrameworkError::InvalidUniformLocation)
                        } else {
                            Result::Ok(AppliedBinding::Texture { texture, unit: loc.index })
                        }
                    },
                    TextureShaderLocation::ExplicitBinding(n) => Result::Ok(
                        AppliedBinding::Texture { texture, unit: n },
                    ),
                }
            }
        },
        ResourceBinding::Buffer { buffer, binding, data_usage } => {
            if buffer.index >= server.buffers@.len() {
                Result::Err(FrameworkError::InvalidResource)
            } else {
                let bsize = server.buffers@[buffer.index as int].size;
                let point = match binding {
                    BufferLocation::Auto { shader_location } => {
                        if shader_location >= server.programs@[program.index as int].blocks@.len() {
                            Result::Err(FrameworkError::InvalidUniformLocation)
                        } else {
                            Result::Ok(shader_location)
                        }
                    },
                    BufferLocation::Explicit { binding } => Result::Ok(binding),
                };
                match point {
                    Result::Err(e) => Result::Err(e),
                    Result::Ok(p) => match data_usage {
                        BufferDataUsage::UseEverything => Result::Ok(
                            AppliedBinding::Buffer {
                                buffer,
                                binding_point: p,
                                offset: 0,
                                size: bsize,
                            },
                        ),
                        BufferDataUsage::UseSegment { offset, size } => {
                            if offset + size > bsize {
                                Result::Err(FrameworkError::InvalidBufferSegment)
                            } else {
                                Result::Ok(
                                    AppliedBinding::Buffer {
                                        buffer,
                                        binding_point: p,
                                        offset,
                                        size,
                                    },
                                )
                            }
                        },
                    },
                }
            }
        },
    }
}

/// Resolution of the bindings of one group from position `i` on: the
/// resolved list, or the first error.
pub open spec fn spec_resolve_bindings(
    server: GraphicsServer,
    program: ProgramId,
    bs: Seq<ResourceBinding>,
    i: int,
) -> Result<Seq<AppliedBinding>, FrameworkError>
    decreases bs.len() - i,
{
    if i < 0 || i >= bs.len() {
        Result::Ok(Seq::empty())
    } else {
        match spec_resolve_binding(server, program, bs[i]) {
            Result::Err(e) => Result::Err(e),
            Result::Ok(a) => match spec_resolve_bindings(server, program, bs, i + 1) {
                Result::Err(e) => Result::Err(e),
                Result::Ok(rest) => Result::Ok(seq![a] + rest),
            },
        }
    }
}

/// The binding lists of a sequence of bind groups.
pub open spec fn groups_view(groups: Seq<ResourceBindGroup>) -> Seq<Seq<ResourceBinding>> {
    groups.map_values(|g: ResourceBindGroup| g.bindings@)
}

/// Resolution of all groups from position `g` on, concatenated in order:
/// the resolved list, or the first error.
pub open spec fn spec_resolve_groups(
    server: GraphicsServer,
    program: ProgramId,
    groups: Seq<Seq<ResourceBinding>>,
    g: int,
) -> Result<Seq<AppliedBinding>, FrameworkError>
    decreases groups.len() - g,
{
    if g < 0 || g >= groups.len() {
        Result::Ok(Seq::empty())
    } else {
        match spec_resolve_bindings(server, program, groups[g], 0) {
            Result::Err(e) => Result::Err(e),
            Result::Ok(a) => match spec_resolve_groups(server, program, groups, g + 1) {
                Result::Err(e) => Result::Err(e),
                Result::Ok(rest) => Result::Ok(a + rest),
            },
        }
    }
}

/// What one draw call does: the resolved bindings it applies, or the first
/// error in check order (program, then bindings in declaration order, then
/// the element range).
pub open spec fn spec_draw_outcome(
    server: GraphicsServer,
    geometry: GeometryBuffer,
    program: ProgramId,
    groups: Seq<Seq<ResourceBinding>>,
    range: ElementRange,
) -> Result<Seq<AppliedBinding>, FrameworkError> {
    if program.index >= server.programs@.len() {
        Result::Err(FrameworkError::InvalidResource)
    } else {
        match spec_resolve_groups(server, program, groups, 0) {
            Result::Err(e) => Result::Err(e),
            Result::Ok(a) => if !geometry.spec_range_valid(range) {
                Result::Err(FrameworkError::InvalidElementRange)
            } else {
                Result::Ok(a)
            },
        }
    }
}

/// Resolves one binding against the backend.
fn resolve_binding(server: &GraphicsServer, program: ProgramId, b: &ResourceBinding) -> (r: Result<
    AppliedBinding,
    FrameworkError,
>)
    requires
        program.index < server.programs@.len(),
    ensures
        r == spec_resolve_binding(*server, program, *b),
{
    match b {
        ResourceBinding::Texture { texture, shader_location } => {
            if texture.index >= server.textures.len() {
                return Result::Err(FrameworkError::InvalidResource);
            }
            match shader_location {
                TextureShaderLocation::Uniform(loc) => {
                    if loc.program.index != program.index || loc.index
                        >= server.programs[program.index].samplers.len() {
                        Result::Err(FrameworkError::InvalidUniformLocation)
                    } else {
                        Result::Ok(AppliedBinding::Texture { texture: *texture, unit: loc.index })
                    }
                },
                TextureShaderLocation::ExplicitBinding(n) => Result::Ok(
                    AppliedBinding::Texture { texture: *texture, unit: *n },
                ),
            }
        },
        ResourceBinding::Buffer { buffer, binding, data_usage } => {
            if buffer.index >= server.buffers.len() {
                return Result::Err(FrameworkError::InvalidResource);
            }
            let bsize = server.buffers[buffer.index].size;
            let point: usize = match binding {
                BufferLocation::Auto { shader_location } => {
                    if *shader_location >= server.programs[program.index].blocks.len() {
                        return Result::Err(FrameworkError::InvalidUniformLocation);
                    }
                    *shader_location
                },
                BufferLocation::Explicit { binding } => *binding,
            };
            match data_usage {
                BufferDataUsage::UseEverything => Result::Ok(
                    AppliedBinding::Buffer { buffer: *buffer, binding_point: point, offset: 0, size: bsize },
                ),
                BufferDataUsage::UseSegment { offset, size } => {
                    if *offset > bsize || *size > bsize - *offset {
                        Result::Err(FrameworkError::InvalidBufferSegment)
                    } else {
                        Result::Ok(
                            AppliedBinding::Buffer {
                                buffer: *buffer,
                                binding_point: point,
                                offset: *offset,
                                size: *size,
                            },
                        )
                    }
                },
            }
        },
    }
}

/// Resolves the bindings of one group from position `i` on.
fn resolve_bindings(
    server: &GraphicsServer,
    program: ProgramId,
    bs: &[ResourceBinding],
    i: usize,
) -> (r: Result<Vec<AppliedBinding>, FrameworkError>)
    requires
        program.index < server.programs@.len(),
        i <= bs@.len(),
    ensures
        match r {
            Result::Ok(v) => spec_resolve_bindings(*server, program, bs@, i as int) == Result::<
                Seq<AppliedBinding>,
                FrameworkError,
            >::Ok(v@),
            Result::Err(e) => spec_resolve_bindings(*server, program, bs@, i as int) == Result::<
                Seq<AppliedBinding>,
                FrameworkError,
            >::Err(e),
        },
    decreases bs@.len() - i,
{
    if i == bs.len() {
        let v: Vec<AppliedBinding> = Vec::new();
        proof {
            assert(v@ =~= Seq::<AppliedBinding>::empty());
        }
        return Result::Ok(v);
    }
    match resolve_binding(server, program, &bs[i]) {
        Result::Err(e) => Result::Err(e),
        Result::Ok(a) => {
            match resolve_bindings(server, program, bs, i + 1) {
                Result::Err(e) => Result::Err(e),
                Result::Ok(mut rest) => {
                    let ghost rest0 = rest@;
                    let mut v: Vec<AppliedBinding> = Vec::new();
                    v.push(a);
                    v.append(&mut rest);
                    proof {
                        assert(v@ =~= seq![a] + rest0);
                    }
                    Result::Ok(v)
                },
            }
        },
    }
}

/// Resolves all groups from position `g` on, concatenated in order.
fn resolve_groups(
    server: &GraphicsServer,
    program: ProgramId,
    groups: &[ResourceBindGroup],
    g: usize,
) -> (r: Result<Vec<AppliedBinding>, FrameworkError>)
    requires
        program.index < server.programs@.len(),
        g <= groups@.len(),
    ensures
        match r {
            Result::Ok(v) => spec_resolve_groups(*server, program, groups_view(groups@), g as int)
                == Result::<Seq<AppliedBinding>, FrameworkError>::Ok(v@),
            Result::Err(e) => spec_resolve_groups(*server, program, groups_view(groups@), g as int)
                == Result::<Seq<AppliedBinding>, FrameworkError>::Err(e),
        },
    decreases groups@.len() - g,
{
    if g == groups.len() {
        let v: Vec<AppliedBinding> = Vec::new();
        proof {
            assert(v@ =~= Seq::<AppliedBinding>::empty());
        }
        return Result::Ok(v);
    }
    match resolve_bindings(server, program, groups[g].bindings, 0) {
        Result::Err(e) => Result::Err(e),
        Result::Ok(mut v) => {
            let ghost first = v@;
            match resolve_groups(server, program, groups, g + 1) {
                Result::Err(e) => Result::Err(e),
                Result::Ok(mut rest) => {
                    let ghost rest0 = rest@;
                    v.append(&mut rest);
                    proof {
                        assert(v@ =~= first + rest0);
                    }
                    Result::Ok(v)
                },
            }
        },
    }
}

impl FrameBuffer {
    /// The texture each color attachment renders to, in binding order.
    fn target_color_ids(&self) -> (r: Vec<TextureId>)
        ensures
            r@ == self.spec_colors().map_values(|a: Attachment| a.texture),
    {
        let mut r: Vec<TextureId> = Vec::new();
        let mut j: usize = 0;
        while j < self.colors.len()
            invariant
                j <= self.colors@.len(),
                r@.len() == j,
                forall|i: int| 0 <= i < j ==> r@[i] == self.colors@[i].texture,
            decreases self.colors@.len() - j,
        {
            r.push(self.colors[j].texture);
            j = j + 1;
        }
        proof {
            assert(r@ =~= self.spec_colors().map_values(|a: Attachment| a.texture));
        }
        r
    }

    /// Issues one draw call: binds the program, applies exactly the given
    /// draw parameters, resolves and applies every resource group in
    /// order, and selects the element range. The resulting pipeline state
    /// is a function of the arguments alone: nothing of any previous draw
    /// survives. Texture, buffer and program stores are untouched; the
    /// returned statistics count the selected triangles.
    pub fn draw(
        &self,
        server: &mut GraphicsServer,
        geometry: &GeometryBuffer,
        viewport: Rect<i32>,
        program: ProgramId,
        params: &DrawParameters,
        resources: &[ResourceBindGroup],
        element_range: ElementRange,
    ) -> (r: Result<DrawCallStatistics, FrameworkError>)
        requires
            old(server).wf(),
        ensures
            final(server).wf(),
            final(server).textures == old(server).textures,
            final(server).buffers == old(server).buffers,
            final(server).programs == old(server).programs,
            match spec_draw_outcome(
                *old(server),
                *geometry,
                program,
                groups_view(resources@),
                element_range,
            ) {
                Result::Ok(applied) => {
                    &&& r == Result::<DrawCallStatistics, FrameworkError>::Ok(
                        DrawCallStatistics {
                            triangles: geometry.spec_selected(element_range) as u64,
                        },
                    )
                    &&& final(server).state.bound_program == Option::Some(program)
                    &&& final(server).state.params == *params
                    &&& final(server).state.bindings@ == applied
                    &&& final(server).state.viewport == viewport
                    &&& final(server).state.target_colors@ == self.spec_colors().map_values(
                        |a: Attachment| a.texture,
                    )
                    &&& final(server).state.target_depth == (match self.spec_depth() {
                        Option::Some(a) => Option::Some(a.texture),
                        Option::None => Option::<TextureId>::None,
                    })
                    &&& final(server).draws@.len() == old(server).draws@.len() + 1
                    &&& forall|d: int|
                        0 <= d < old(server).draws@.len() ==> final(server).draws@[d] == old(
                            server,
                        ).draws@[d]
                    &&& final(server).draws@.last().bound_program == Option::Some(program)
                    &&& final(server).draws@.last().params == *params
                    &&& final(server).draws@.last().bindings@ == applied
                    &&& final(server).draws@.last().viewport == viewport
                    &&& final(server).draws@.last().target_colors@
                        == self.spec_colors().map_values(|a: Attachment| a.texture)
                    &&& final(server).draws@.last().target_depth == (match self.spec_depth() {
                        Option::Some(a) => Option::Some(a.texture),
                        Option::None => Option::<TextureId>::None,
                    })
                },
                Result::Err(e) => {
                    &&& r == Result::<DrawCallStatistics, FrameworkError>::Err(e)
                    &&& final(server).state == old(server).state
                    &&& final(server).draws == old(server).draws
                },
            },
    {
        if program.index >= server.programs.len() {
            return Result::Err(FrameworkError::InvalidResource);
        }
        let applied = match resolve_groups(server, program, resources, 0) {
            Result::Err(e) => {
                return Result::Err(e);
            },
            Result::Ok(v) => v,
        };
        if !geometry.range_valid(element_range) {
            return Result::Err(FrameworkError::InvalidElementRange);
        }
        let selected: usize = match element_range {
            ElementRange::Full => geometry.triangle_count,
            ElementRange::Specific { offset: _, amount } => amount,
        };
        let target_depth = match &self.depth {
            Option::Some(a) => Option::Some(a.texture),
            Option::None => Option::None,
        };
        let applied_log = crate::texel::copy_plane(&applied);
        server.draws.push(
            PipelineState {
                bound_program: Option::Some(program),
                params: *params,
                bindings: applied_log,
                viewport,
                target_colors: self.target_color_ids(),
                target_depth,
            },
        );
        server.state = PipelineState {
            bound_program: Option::Some(program),
            params: *params,
            bindings: applied,
            viewport,
            target_colors: self.target_color_ids(),
            target_depth,
        };
        Result::Ok(DrawCallStatistics { triangles: selected as u64 })
    }

    /// As [`FrameBuffer::draw`], but issues `count` instances of the whole
    /// geometry. There is no per-call error path: the draw configuration
    /// must already have been validated at setup, which is what the
    /// precondition states. The triangle count saturates.
    pub fn draw_instances(
        &self,
        server: &mut GraphicsServer,
        count: usize,
        geometry: &GeometryBuffer,
        viewport: Rect<i32>,
        program: ProgramId,
        params: &DrawParameters,
        resources: &[ResourceBindGroup],
    ) -> (s: DrawCallStatistics)
        requires
            old(server).wf(),
            spec_draw_outcome(
                *old(server),
                *geometry,
                program,
                groups_view(resources@),
                ElementRange::Full,
            ) is Ok,
        ensures
            final(server).wf(),
            final(server).textures == old(server).textures,
            final(server).buffers == old(server).buffers,
            final(server).programs == old(server).programs,
            final(server).state.bound_program == Option::Some(program),
            final(server).state.params == *params,
            final(server).state.bindings@ == spec_draw_outcome(
                *old(server),
                *geometry,
                program,
                groups_view(resources@),
                ElementRange::Full,
            ).unwrap(),
            final(server).state.viewport == viewport,
            final(server).state.target_colors@ == self.spec_colors().map_values(
                |a: Attachment| a.texture,
            ),
            final(server).state.target_depth == (match self.spec_depth() {
                Option::Some(a) => Option::Some(a.texture),
                Option::None => Option::<TextureId>::None,
            }),
            final(server).draws@.len() == old(server).draws@.len() + 1,
            forall|d: int|
                0 <= d < old(server).draws@.len() ==> final(server).draws@[d] == old(
                    server,
                ).draws@[d],
            final(server).draws@.last().bound_program == Option::Some(program),
            final(server).draws@.last().params == *params,
            final(server).draws@.last().bindings@ == spec_draw_outcome(
                *old(server),
                *geometry,
                program,
                groups_view(resources@),
                ElementRange::Full,
            ).unwrap(),
            final(server).draws@.last().viewport == viewport,
            final(server).draws@.last().target_colors@ == self.spec_colors().map_values(
                |a: Attachment| a.texture,
            ),
            final(server).draws@.last().target_depth == (match self.spec_depth() {
                Option::Some(a) => Option::Some(a.texture),
                Option::None => Option::<TextureId>::None,
            }),
            s.triangles == if count * geometry.triangle_count <= u64::MAX {
                count * geometry.triangle_count
            } else {
                u64::MAX as int
            },
    {
        let r = self.draw(
            server,
            geometry,
            viewport,
            program,
            params,
            resources,
            ElementRange::Full,
        );
        match r {
            Result::Ok(_) => {},
            Result::Err(_) => {
                proof {
                    assert(false);
                }
            },
        }
        let triangles: u64 = match (count as u64).checked_mul(geometry.triangle_count as u64) {
            Option::Some(t) => t,
            Option::None => u64::MAX,
        };
        DrawCallStatistics { triangles }
    }
}

/// True when `[x0, x1) x [y0, y1)` is a forward, non-empty region inside
/// a `w x h` plane.
pub open spec fn spec_region_ok(x0: int, y0: int, x1: int, y1: int, w: int, h: int) -> bool {
    &&& 0 <= x0 < x1 <= w
    &&& 0 <= y0 < y1 <= h
}

/// What stops a blit, if anything: a channel class requested that one
/// side does not have, or (when any channel is requested) a region that
/// is empty, flipped or outside its framebuffer.
pub open spec fn spec_blit_error(
    server: GraphicsServer,
    src: FrameBuffer,
    dst: FrameBuffer,
    sx0: int,
    sy0: int,
    sx1: int,
    sy1: int,
    dx0: int,
    dy0: int,
    dx1: int,
    dy1: int,
    copy_color: bool,
    copy_depth: bool,
    copy_stencil: bool,
) -> Option<FrameworkError> {
    if copy_color && (src.spec_colors().len() == 0 || dst.spec_colors().len() == 0) {
        Option::Some(FrameworkError::ChannelMismatch)
    } else if copy_depth && (src.spec_depth() is None || dst.spec_depth() is None) {
        Option::Some(FrameworkError::ChannelMismatch)
    } else if copy_stencil && !(src.spec_depth() is Some && src.spec_depth().unwrap().kind
        == AttachmentKind::DepthStencil && dst.spec_depth() is Some && dst.spec_depth().unwrap().kind
        == AttachmentKind::DepthStencil) {
        Option::Some(FrameworkError::ChannelMismatch)
    } else if (copy_color || copy_depth || copy_stencil) && !(spec_region_ok(
        sx0,
        sy0,
        sx1,
        sy1,
        src.spec_width(server),
        src.spec_height(server),
    ) && spec_region_ok(dx0, dy0, dx1, dy1, dst.spec_width(server), dst.spec_height(server))) {
        Option::Some(FrameworkError::InvalidRegion)
    } else {
        Option::None
    }
}

/// The texel plane of texture `ti` after a blit from `src` to `dst`.
pub open spec fn spec_blitted_texels(
    server: GraphicsServer,
    src: FrameBuffer,
    dst: FrameBuffer,
    ti: int,
    sx0: int,
    sy0: int,
    sx1: int,
    sy1: int,
    dx0: int,
    dy0: int,
    dx1: int,
    dy1: int,
    copy_color: bool,
    copy_depth: bool,
) -> Seq<u32> {
    let t = server.textures@[ti];
    let w = t.kind.spec_width() as int;
    let h = t.kind.spec_height() as int;
    if copy_color && dst.spec_colors().len() > 0 && ti == dst.spec_colors()[0].texture.index {
        let st = server.textures@[src.spec_colors()[0].texture.index as int];
        copy_spec(
            t.texels@,
            st.texels@,
            face_base(t, dst.spec_faces()[0]),
            w,
            h,
            dx0,
            dx1,
            dy0,
            dy1,
            face_base(st, src.spec_faces()[0]),
            st.kind.spec_width() as int,
            sx0,
            sx1,
            sy0,
            sy1,
        )
    } else if copy_depth && dst.spec_depth() is Some && ti == dst.spec_depth().unwrap().texture.index {
        let st = server.textures@[src.spec_depth().unwrap().texture.index as int];
        copy_spec(
            t.texels@,
            st.texels@,
            0,
            w,
            h,
            dx0,
            dx1,
            dy0,
            dy1,
            0,
            st.kind.spec_width() as int,
            sx0,
            sx1,
            sy0,
            sy1,
        )
    } else {
        t.texels@
    }
}

/// The stencil plane of texture `ti` after a blit from `src` to `dst`.
pub open spec fn spec_blitted_stencil(
    server: GraphicsServer,
    src: FrameBuffer,
    dst: FrameBuffer,
    ti: int,
    sx0: int,
    sy0: int,
    sx1: int,
    sy1: int,
    dx0: int,
    dy0: int,
    dx1: int,
    dy1: int,
    copy_stencil: bool,
) -> Seq<i32> {
    let t = server.textures@[ti];
    let w = t.kind.spec_width() as int;
    let h = t.kind.spec_height() as int;
    if copy_stencil && dst.spec_depth() is Some && ti == dst.spec_depth().unwrap().texture.index {
        let st = server.textures@[src.spec_depth().unwrap().texture.index as int];
        copy_spec(
            t.stencil@,
            st.stencil@,
            0,
            w,
            h,
            dx0,
            dx1,
            dy0,
            dy1,
            0,
            st.kind.spec_width() as int,
            sx0,
            sx1,
            sy0,
            sy1,
        )
    } else {
        t.stencil@
    }
}

impl FrameBuffer {
    /// Copies the selected channel classes from a sub-region of this
    /// framebuffer to a sub-region of `dest`, with independent rectangles
    /// (a size mismatch scales by nearest neighbour). Color copies from
    /// the first color attachment to the first color attachment, depth
    /// and stencil between the depth attachments. A requested channel
    /// that either side lacks is an error, not a silent drop; so is an
    /// unusable region.
    #[verifier::rlimit(100)]
    #[verifier::spinoff_prover]
    pub fn blit_to(
        &self,
        server: &mut GraphicsServer,
        dest: &FrameBuffer,
        src_x0: i32,
        src_y0: i32,
        src_x1: i32,
        src_y1: i32,
        dst_x0: i32,
        dst_y0: i32,
        dst_x1: i32,
        dst_y1: i32,
        copy_color: bool,
        copy_depth: bool,
        copy_stencil: bool,
    ) -> (r: Result<(), FrameworkError>)
        requires
            old(server).wf(),
            self.valid(*old(server)),
            dest.valid(*old(server)),
        ensures
            final(server).wf(),
            self.valid(*final(server)),
            dest.valid(*final(server)),
            final(server).buffers == old(server).buffers,
            final(server).programs == old(server).programs,
            final(server).state == old(server).state,
            final(server).draws == old(server).draws,
            final(server).textures@.len() == old(server).textures@.len(),
            match spec_blit_error(
                *old(server),
                *self,
                *dest,
                src_x0 as int,
                src_y0 as int,
                src_x1 as int,
                src_y1 as int,
                dst_x0 as int,
                dst_y0 as int,
                dst_x1 as int,
                dst_y1 as int,
                copy_color,
                copy_depth,
                copy_stencil,
            ) {
                Option::Some(e) => {
                    &&& r == Result::<(), FrameworkError>::Err(e)
                    &&& final(server).textures == old(server).textures
                },
                Option::None => {
                    &&& r == Result::<(), FrameworkError>::Ok(())
                    &&& forall|ti: int|
                        0 <= ti < old(server).textures@.len() ==> {
                            &&& same_shape(
                                #[trigger] final(server).textures@[ti],
                                old(server).textures@[ti],
                            )
                            &&& final(server).textures@[ti].texels@ == spec_blitted_texels(
                                *old(server),
                                *self,
                                *dest,
                                ti,
                                src_x0 as int,
                                src_y0 as int,
                                src_x1 as int,
                                src_y1 as int,
                                dst_x0 as int,
                                dst_y0 as int,
                                dst_x1 as int,
                                dst_y1 as int,
                                copy_color,
                                copy_depth,
                            )
                            &&& final(server).textures@[ti].stencil@ == spec_blitted_stencil(
                                *old(server),
                                *self,
                                *dest,
                                ti,
                                src_x0 as int,
                                src_y0 as int,
                                src_x1 as int,
                                src_y1 as int,
                                dst_x0 as int,
                                dst_y0 as int,
                                dst_x1 as int,
                                dst_y1 as int,
                                copy_stencil,
                            )
                        }
                },
            },
    {
        let ghost srv0 = *server;
        if copy_color && (self.colors.len() == 0 || dest.colors.len() == 0) {
            return Result::Err(FrameworkError::ChannelMismatch);
        }
        if copy_depth {
            let src_has = matches!(&self.depth, Option::Some(_));
            let dst_has = matches!(&dest.depth, Option::Some(_));
            if !src_has || !dst_has {
                return Result::Err(FrameworkError::ChannelMismatch);
            }
        }
        if copy_stencil {
            let src_ds = match &self.depth {
                Option::Some(a) => matches!(a.kind, AttachmentKind::DepthStencil),
                Option::None => false,
            };
            let dst_ds = match &dest.depth {
                Option::Some(a) => matches!(a.kind, AttachmentKind::DepthStencil),
                Option::None => false,
            };
            if !src_ds || !dst_ds {
                return Result::Err(FrameworkError::ChannelMismatch);
            }
        }
        if !copy_color && !copy_depth && !copy_stencil {
            return Result::Ok(());
        }
        let (sw, sh) = if self.colors.len() > 0 {
            let k = server.textures[self.colors[0].texture.index].kind;
            (k.width(), k.height())
        } else {
            let a = match &self.depth {
                Option::Some(a) => a,
                Option::None => {
                    proof {
                        assert(false);
                    }
                    return Result::Err(FrameworkError::ChannelMismatch);
                },
            };
            let k = server.textures[a.texture.index].kind;
            (k.width(), k.height())
        };
        let (dw, dh) = if dest.colors.len() > 0 {
            let k = server.textures[dest.colors[0].texture.index].kind;
            (k.width(), k.height())
        } else {
            let a = match &dest.depth {
                Option::Some(a) => a,
                Option::None => {
                    proof {
                        assert(false);
                    }
                    return Result::Err(FrameworkError::ChannelMismatch);
                },
            };
            let k = server.textures[a.texture.index].kind;
            (k.width(), k.height())
        };
        let src_ok = 0 <= src_x0 && src_x0 < src_x1 && (src_x1 as i64) <= (sw as i64) && 0
            <= src_y0 && src_y0 < src_y1 && (src_y1 as i64) <= (sh as i64);
        let dst_ok = 0 <= dst_x0 && dst_x0 < dst_x1 && (dst_x1 as i64) <= (dw as i64) && 0
            <= dst_y0 && dst_y0 < dst_y1 && (dst_y1 as i64) <= (dh as i64);
        if !src_ok || !dst_ok {
            return Result::Err(FrameworkError::InvalidRegion);
        }
        let sx0 = src_x0 as usize;
        let sy0 = src_y0 as usize;
        let sx1 = src_x1 as usize;
        let sy1 = src_y1 as usize;
        let dx0 = dst_x0 as usize;
        let dy0 = dst_y0 as usize;
        let dx1 = dst_x1 as usize;
        let dy1 = dst_y1 as usize;
        if copy_color {
            let sti = self.colors[0].texture.index;
            let dti = dest.colors[0].texture.index;
            let snapshot = copy_plane(&server.textures[sti].texels);
            let sbase: usize = match server.textures[sti].kind {
                GpuTextureKind::Cube { .. } => {
                    let f = self.faces[0].face_index();
                    let tl = server.textures[sti].texels.len();
                    proof {
                        assert(f * (sw * sh) + sw * sh <= 6 * (sw * sh)) by (nonlinear_arith)
                            requires
                                f <= 5,
                                sw * sh >= 0,
                        ;
                        assert(6 * (sw * sh) == tl);
                    }
                    f * (sw * sh)
                },
                GpuTextureKind::Rectangle { .. } => 0,
            };
            let dbase: usize = match server.textures[dti].kind {
                GpuTextureKind::Cube { .. } => {
                    let f = dest.faces[0].face_index();
                    let tl = server.textures[dti].texels.len();
                    proof {
                        assert(f * (dw * dh) + dw * dh <= 6 * (dw * dh)) by (nonlinear_arith)
                            requires
                                f <= 5,
                                dw * dh >= 0,
                        ;
                        assert(6 * (dw * dh) == tl);
                    }
                    f * (dw * dh)
                },
                GpuTextureKind::Rectangle { .. } => 0,
            };
            proof {
                assert((dx1 - dx0) * (sx1 - sx0) <= 16384 * 16384) by (nonlinear_arith)
                    requires
                        0 <= dx1 - dx0 <= 16384,
                        0 <= sx1 - sx0 <= 16384,
                ;
                assert((dy1 - dy0) * (sy1 - sy0) <= 16384 * 16384) by (nonlinear_arith)
                    requires
                        0 <= dy1 - dy0 <= 16384,
                        0 <= sy1 - sy0 <= 16384,
                ;
            }
            copy_region_scaled(
                &mut server.textures[dti].texels,
                dbase,
                dw,
                dh,
                dx0,
                dx1,
                dy0,
                dy1,
                &snapshot,
                sbase,
                sw,
                sh,
                sx0,
                sx1,
                sy0,
                sy1,
            );
        }
        if copy_depth {
            let sti = match &self.depth {
                Option::Some(a) => a.texture.index,
                Option::None => {
                    proof {
                        assert(false);
                    }
                    return Result::Err(FrameworkError::ChannelMismatch);
                },
            };
            let dti = match &dest.depth {
                Option::Some(a) => a.texture.index,
                Option::None => {
                    proof {
                        assert(false);
                    }
                    return Result::Err(FrameworkError::ChannelMismatch);
                },
            };
            proof {
                if copy_color {
                    assert(sti != dest.spec_colors()[0].texture.index);
                }
                assert(server.textures@[sti as int].texels@ == srv0.textures@[sti as int].texels@);
                assert((dx1 - dx0) * (sx1 - sx0) <= 16384 * 16384) by (nonlinear_arith)
                    requires
                        0 <= dx1 - dx0 <= 16384,
                        0 <= sx1 - sx0 <= 16384,
                ;
                assert((dy1 - dy0) * (sy1 - sy0) <= 16384 * 16384) by (nonlinear_arith)
                    requires
                        0 <= dy1 - dy0 <= 16384,
                        0 <= sy1 - sy0 <= 16384,
                ;
            }
            let snapshot = copy_plane(&server.textures[sti].texels);
            copy_region_scaled(
                &mut server.textures[dti].texels,
                0,
                dw,
                dh,
                dx0,
                dx1,
                dy0,
                dy1,
                &snapshot,
                0,
                sw,
                sh,
                sx0,
                sx1,
                sy0,
                sy1,
            );
        }
        if copy_stencil {
            let sti = match &self.depth {
                Option::Some(a) => a.texture.index,
                Option::None => {
                    proof {
                        assert(false);
                    }
                    return Result::Err(FrameworkError::ChannelMismatch);
                },
            };
            let dti = match &dest.depth {
                Option::Some(a) => a.texture.index,
                Option::None => {
                    proof {
                        assert(false);
                    }
                    return Result::Err(FrameworkError::ChannelMismatch);
                },
            };
            proof {
                if copy_color {
                    assert(sti != dest.spec_colors()[0].texture.index);
                }
                assert(server.textures@[sti as int].stencil@ == srv0.textures@[sti
                    as int].stencil@);
                assert((dx1 - dx0) * (sx1 - sx0) <= 16384 * 16384) by (nonlinear_arith)
                    requires
                        0 <= dx1 - dx0 <= 16384,
                        0 <= sx1 - sx0 <= 16384,
                ;
                assert((dy1 - dy0) * (sy1 - sy0) <= 16384 * 16384) by (nonlinear_arith)
                    requires
                        0 <= dy1 - dy0 <= 16384,
                        0 <= sy1 - sy0 <= 16384,
                ;
            }
            let snapshot = copy_plane(&server.textures[sti].stencil);
            copy_region_scaled(
                &mut server.textures[dti].stencil,
                0,
                dw,
                dh,
                dx0,
                dx1,
                dy0,
                dy1,
                &snapshot,
                0,
                sw,
                sh,
                sx0,
                sx1,
                sy0,
                sy1,
            );
        }
        Result::Ok(())
    }
}

/// Law of state isolation: what a draw does — the error it stops on, or
/// the resolved bindings it installs — is a function of the draw's own
/// arguments and the resource stores alone. Two backends with the same
/// textures, buffers and programs but arbitrary prior pipeline state get
/// the same outcome from the same draw; together with the draw contract,
/// which pins the installed state to that outcome and the arguments, no
/// residue of a previous draw survives into the next.
pub proof fn lemma_draw_state_isolation(
    before1: GraphicsServer,
    before2: GraphicsServer,
    geometry: GeometryBuffer,
    program: ProgramId,
    groups: Seq<Seq<ResourceBinding>>,
    range: ElementRange,
)
    requires
        before1.textures@ == before2.textures@,
        before1.buffers@ == before2.buffers@,
        before1.programs@ == before2.programs@,
    ensures
        spec_draw_outcome(before1, geometry, program, groups, range) == spec_draw_outcome(
            before2,
            geometry,
            program,
            groups,
            range,
        ),
{
    lemma_resolve_groups_state_free(before1, before2, program, groups, 0);
}

/// Group resolution reads only the resource stores.
proof fn lemma_resolve_groups_state_free(
    s1: GraphicsServer,
    s2: GraphicsServer,
    program: ProgramId,
    groups: Seq<Seq<ResourceBinding>>,
    g: int,
)
    requires
        s1.textures@ == s2.textures@,
        s1.buffers@ == s2.buffers@,
        s1.programs@ == s2.programs@,
    ensures
        spec_resolve_groups(s1, program, groups, g) == spec_resolve_groups(s2, program, groups, g),
    decreases groups.len() - g,
{
    if 0 <= g < groups.len() {
        lemma_resolve_bindings_state_free(s1, s2, program, groups[g], 0);
        lemma_resolve_groups_state_free(s1, s2, program, groups, g + 1);
    }
}

/// Binding resolution reads only the resource stores.
proof fn lemma_resolve_bindings_state_free(
    s1: GraphicsServer,
    s2: GraphicsServer,
    program: ProgramId,
    bs: Seq<ResourceBinding>,
    i: int,
)
    requires
        s1.textures@ == s2.textures@,
        s1.buffers@ == s2.buffers@,
        s1.programs@ == s2.programs@,
    ensures
        spec_resolve_bindings(s1, program, bs, i) == spec_resolve_bindings(s2, program, bs, i),
    decreases bs.len() - i,
{
    if 0 <= i < bs.len() {
        assert(spec_resolve_binding(s1, program, bs[i]) == spec_resolve_binding(
            s2,
            program,
            bs[i],
        ));
        lemma_resolve_bindings_state_free(s1, s2, program, bs, i + 1);
    }
}

} // verus!
