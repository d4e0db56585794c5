//! The box-blur sub-pass that smooths the raw occlusion map: one
//! full-screen draw from an input texture into an equally sized
//! single-channel target.

use vstd::prelude::*;
use crate::buffer::BufferUsage;
use crate::error::FrameworkError;
use crate::framebuffer::{Attachment, AttachmentKind, FrameBuffer, ResourceBindGroup,
    ResourceBinding, spec_draw_outcome, groups_view};
use crate::geom::Rect;
use crate::geometry_buffer::{ElementRange, GeometryBuffer};
use crate::gpu_program::{ProgramId, UniformLocation};
use crate::gpu_texture::{GpuTextureKind, MagnificationFilter, MinificationFilter, PixelKind,
    TextureId};
use crate::params::{ColorMask, DrawParameters, StencilOp};
use crate::server::{AppliedBinding, GraphicsServer};
use crate::stats::DrawCallStatistics;

verus! {

/// The blur pass: its program, its target, and the quad it draws.
#[derive(Debug)]
pub struct Blur {
    /// The blur program.
    pub program: ProgramId,
    /// Sampler of the texture being blurred.
    pub input_sampler: UniformLocation,
    /// Render target holding the blurred result.
    pub framebuffer: FrameBuffer,
    /// The full-screen quad.
    pub quad: GeometryBuffer,
    /// Target columns.
    pub width: usize,
    /// Target rows.
    pub height: usize,
}

impl Blur {
    /// Structural soundness of the pass against its server: the target is
    /// a live single-color framebuffer of the pass size and the program
    /// exposes the input sampler.
    pub open spec fn wf(self, server: GraphicsServer) -> bool {
        &&& self.framebuffer.valid(server)
        &&& self.framebuffer.spec_colors().len() == 1
        &&& self.framebuffer.spec_depth() is None
        &&& server.textures@[self.framebuffer.spec_colors()[0].texture.index as int].kind
            == (GpuTextureKind::Rectangle { width: self.width, height: self.height })
        &&& self.program.index < server.programs@.len()
        &&& server.programs@[self.program.index as int].samplers@.len() == 1
        &&& self.input_sampler == (UniformLocation { program: self.program, index: 0 })
        &&& self.quad == (GeometryBuffer {
            vertex_count: 4usize,
            triangle_count: 2usize,
            usage: BufferUsage::StaticDraw,
        })
        &&& 1 <= self.width <= crate::gpu_texture::MAX_TEXTURE_SIZE
        &&& 1 <= self.height <= crate::gpu_texture::MAX_TEXTURE_SIZE
    }

    /// Builds the blur pass over a `width x height` target. Fails exactly
    /// when the target size is not a creatable texture size.
    pub fn new(server: &mut GraphicsServer, width: usize, height: usize) -> (r: Result<
        Blur,
        FrameworkError,
    >)
        requires
            old(server).wf(),
        ensures
            final(server).wf(),
            final(server).buffers == old(server).buffers,
            final(server).state == old(server).state,
            final(server).draws == old(server).draws,
            match r {
                Result::Ok(b) => {
                    &&& 1 <= width <= crate::gpu_texture::MAX_TEXTURE_SIZE
                    &&& 1 <= height <= crate::gpu_texture::MAX_TEXTURE_SIZE
                    &&& b.wf(*final(server))
                    &&& b.width == width
                    &&& b.height == height
                    &&& final(server).textures@.len() == old(server).textures@.len() + 1
                    &&& forall|i: int|
                        0 <= i < old(server).textures@.len() ==> final(server).textures@[i] == old(
                            server,
                        ).textures@[i]
                    &&& b.framebuffer.spec_colors()[0].texture.index == old(
                        server,
                    ).textures@.len()
                    &&& final(server).textures@[old(server).textures@.len() as int].texels@
                        == Seq::new((width * height) as nat, |i: int| 0u32)
                    &&& final(server).textures@[old(server).textures@.len() as int].pixel_kind
                        == PixelKind::R32F
                    &&& final(server).textures@[old(server).textures@.len() as int].min_filter
                        == MinificationFilter::Nearest
                    &&& final(server).textures@[old(server).textures@.len() as int].mag_filter
                        == MagnificationFilter::Nearest
                    &&& final(server).textures@[old(server).textures@.len() as int].mip_count == 1
                    &&& final(server).programs@[b.program.index as int].name@ == "BlurShader"@
                    &&& crate::gpu_program::names_view(
                        final(server).programs@[b.program.index as int].samplers@,
                    ) == seq!["inputTexture"@]
                },
                Result::Err(e) => {
                    &&& e == FrameworkError::InvalidTextureSize
                    &&& (width < 1 || width > crate::gpu_texture::MAX_TEXTURE_SIZE || height < 1
                        || height > crate::gpu_texture::MAX_TEXTURE_SIZE)
                    &&& final(server).textures == old(server).textures
                    &&& final(server).programs == old(server).programs
                },
            },
    {
        if width < 1 || width > crate::gpu_texture::MAX_TEXTURE_SIZE || height < 1 || height
            > crate::gpu_texture::MAX_TEXTURE_SIZE {
            return Result::Err(FrameworkError::InvalidTextureSize);
        }
        let frame = match server.create_texture(
            GpuTextureKind::Rectangle { width, height },
            PixelKind::R32F,
            MinificationFilter::Nearest,
            MagnificationFilter::Nearest,
            1,
            Option::None,
        ) {
            Result::Ok(t) => t,
            Result::Err(e) => {
                proof {
                    assert(false);
                }
                return Result::Err(e);
            },
        };
        let mut samplers: Vec<String> = Vec::new();
        samplers.push("inputTexture".to_owned());
        let blocks: Vec<String> = Vec::new();
        proof {
            reveal_strlit("inputTexture");
            reveal_strlit("layout (location = 0) in vec3 vertexPosition; void main() { gl_Position = vec4(vertexPosition, 1.0); }");
            reveal_strlit("uniform sampler2D inputTexture; out float FragColor; void main() { FragColor = 0.0; }");
            reveal_with_fuel(crate::gpu_program::spec_name_index, 4);
        }
        let program = match server.create_program(
            "BlurShader",
            "layout (location = 0) in vec3 vertexPosition; void main() { gl_Position = vec4(vertexPosition, 1.0); }",
            "uniform sampler2D inputTexture; out float FragColor; void main() { FragColor = 0.0; }",
            samplers,
            blocks,
        ) {
            Result::Ok(p) => p,
            Result::Err(e) => {
                proof {
                    assert(false);
                }
                return Result::Err(e);
            },
        };
        let input_sampler = match server.uniform_location(program, "inputTexture") {
            Result::Ok(l) => l,
            Result::Err(e) => {
                proof {
                    assert(false);
                }
                return Result::Err(e);
            },
        };
        let mut colors: Vec<Attachment> = Vec::new();
        colors.push(Attachment { kind: AttachmentKind::Color, texture: frame });
        let framebuffer = match server.create_frame_buffer(Option::None, colors) {
            Result::Ok(fb) => fb,
            Result::Err(e) => {
                proof {
                    assert(false);
                }
                return Result::Err(e);
            },
        };
        let quad = GeometryBuffer::unit_xy_quad(BufferUsage::StaticDraw);
        proof {
            assert(crate::gpu_program::names_view(
                server.programs@[program.index as int].samplers@,
            ) =~= seq!["inputTexture"@]);
        }
        Result::Ok(Blur { program, input_sampler, framebuffer, quad, width, height })
    }

    /// The blurred occlusion texture.
    pub fn result(&self) -> (r: TextureId)
        requires
            self.framebuffer.spec_colors().len() == 1,
        ensures
            r == self.framebuffer.spec_colors()[0].texture,
    {
        self.framebuffer.color_attachments()[0].texture
    }

    /// Draws the full-screen quad sampling `input` into the blur target.
    /// The draw fully determines the backend state; nothing else of the
    /// server changes.
    pub fn render(&self, server: &mut GraphicsServer, input: TextureId) -> (r: Result<
        DrawCallStatistics,
        FrameworkError,
    >)
        requires
            old(server).wf(),
            self.wf(*old(server)),
            input.index < old(server).textures@.len(),
        ensures
            final(server).wf(),
            self.wf(*final(server)),
            final(server).textures == old(server).textures,
            final(server).buffers == old(server).buffers,
            final(server).programs == old(server).programs,
            r == Result::<DrawCallStatistics, FrameworkError>::Ok(
                DrawCallStatistics { triangles: 2u64 },
            ),
            final(server).state.bound_program == Option::Some(self.program),
            final(server).state.bindings@ == seq![
                AppliedBinding::Texture { texture: input, unit: 0usize },
            ],
            final(server).state.target_colors@ == seq![
                self.framebuffer.spec_colors()[0].texture,
            ],
            final(server).state.target_depth is None,
            final(server).state.viewport == (Rect {
                x: 0i32,
                y: 0i32,
                w: self.width as i32,
                h: self.height as i32,
            }),
            final(server).draws@.len() == old(server).draws@.len() + 1,
            forall|d: int|
                0 <= d < old(server).draws@.len() ==> final(server).draws@[d] == old(
                    server,
                ).draws@[d],
            final(server).draws@.last().bound_program == Option::Some(self.program),
            final(server).draws@.last().bindings@ == seq![
                AppliedBinding::Texture { texture: input, unit: 0usize },
            ],
            final(server).draws@.last().target_colors@ == seq![
                self.framebuffer.spec_colors()[0].texture,
            ],
            final(server).draws@.last().target_depth is None,
            final(server).draws@.last().params == (DrawParameters {
                cull_face: Option::None,
                color_write: ColorMask { red: true, green: true, blue: true, alpha: true },
                depth_write: false,
                stencil_test: Option::None,
                depth_test: Option::None,
                blend: Option::None,
                stencil_op: StencilOp {
                    fail: crate::params::StencilAction::Keep,
                    zfail: crate::params::StencilAction::Keep,
                    zpass: crate::params::StencilAction::Keep,
                    write_mask: 0xFFFF_FFFFu32,
                },
                scissor_box: Option::None,
            }),
    {
        let viewport: Rect<i32> = Rect::new(0, 0, self.width as i32, self.height as i32);
        let params = DrawParameters {
            cull_face: Option::None,
            color_write: ColorMask::all(true),
            depth_write: false,
            stencil_test: Option::None,
            depth_test: Option::None,
            blend: Option::None,
            stencil_op: Default::default(),
            scissor_box: Option::None,
        };
        let bindings: [ResourceBinding; 1] = [
            ResourceBinding::texture(&input, &self.input_sampler),
        ];
        let groups: [ResourceBindGroup; 1] = [ResourceBindGroup { bindings: &bindings }];
        proof {
            reveal_with_fuel(crate::framebuffer::spec_resolve_bindings, 3);
            reveal_with_fuel(crate::framebuffer::spec_resolve_groups, 3);
        }
        let r = self.framebuffer.draw(
            server,
            &self.quad,
            viewport,
            self.program,
            &params,
            groups.as_slice(),
            ElementRange::Full,
        );
        proof {
            assert(groups_view(groups@) =~= seq![bindings@]);
            assert(final(server).state.bindings@ =~= seq![
                AppliedBinding::Texture { texture: input, unit: 0usize },
            ]);
            assert(final(server).state.target_colors@ =~= seq![
                self.framebuffer.spec_colors()[0].texture,
            ]);
            assert(final(server).draws@.last().bindings@ =~= seq![
                AppliedBinding::Texture { texture: input, unit: 0usize },
            ]);
            assert(final(server).draws@.last().target_colors@ =~= seq![
                self.framebuffer.spec_colors()[0].texture,
            ]);
        }
        r
    }
}

} // verus!
