//! Backend-level behavior: texture and framebuffer creation, clears,
//! blits, draw state, and the error paths of each.

use engine_core::color::Color;
use engine_core::error::FrameworkError;
use engine_core::fixed::Fx;
use engine_core::framebuffer::{Attachment, AttachmentKind, BufferDataUsage, BufferLocation,
    ResourceBindGroup, ResourceBinding};
use engine_core::geom::Rect;
use engine_core::geometry_buffer::{ElementRange, GeometryBuffer};
use engine_core::buffer::{BufferKind, BufferUsage};
use engine_core::gpu_texture::{GpuTextureKind, MagnificationFilter, MinificationFilter, PixelKind};
use engine_core::params::{BlendFactor, BlendParameters, ColorMask, CullFace, DrawParameters,
    StencilOp};
use engine_core::server::GraphicsServer;

fn color_texture(server: &mut GraphicsServer, w: usize, h: usize) -> engine_core::gpu_texture::TextureId {
    server
        .create_texture(
            GpuTextureKind::Rectangle { width: w, height: h },
            PixelKind::R32F,
            MinificationFilter::Nearest,
            MagnificationFilter::Nearest,
            1,
            None,
        )
        .unwrap()
}

#[test]
fn texture_creation_checks_sizes() {
    let mut server = GraphicsServer::new();
    let bad = server.create_texture(
        GpuTextureKind::Rectangle { width: 0, height: 4 },
        PixelKind::R32F,
        MinificationFilter::Nearest,
        MagnificationFilter::Nearest,
        1,
        None,
    );
    assert_eq!(bad, Err(FrameworkError::InvalidTextureSize));
    let bad_data = server.create_texture(
        GpuTextureKind::Rectangle { width: 2, height: 2 },
        PixelKind::R32F,
        MinificationFilter::Nearest,
        MagnificationFilter::Nearest,
        1,
        Some(vec![1, 2, 3]),
    );
    assert_eq!(bad_data, Err(FrameworkError::InvalidTextureData));
    let ok = server.create_texture(
        GpuTextureKind::Rectangle { width: 2, height: 2 },
        PixelKind::R32F,
        MinificationFilter::Nearest,
        MagnificationFilter::Nearest,
        1,
        Some(vec![1, 2, 3, 4]),
    );
    assert!(ok.is_ok());
    let t = server.texture(ok.unwrap()).unwrap();
    assert_eq!(t.texels, vec![1, 2, 3, 4]);
}

#[test]
fn clear_depth_only_leaves_color_untouched() {
    let mut server = GraphicsServer::new();
    let color = server
        .create_texture(
            GpuTextureKind::Rectangle { width: 2, height: 2 },
            PixelKind::R32F,
            MinificationFilter::Nearest,
            MagnificationFilter::Nearest,
            1,
            Some(vec![10, 20, 30, 40]),
        )
        .unwrap();
    let depth = server
        .create_texture(
            GpuTextureKind::Rectangle { width: 2, height: 2 },
            PixelKind::D32F,
            MinificationFilter::Nearest,
            MagnificationFilter::Nearest,
            1,
            None,
        )
        .unwrap();
    let fb = server
        .create_frame_buffer(
            Some(Attachment { kind: AttachmentKind::Depth, texture: depth }),
            vec![Attachment { kind: AttachmentKind::Color, texture: color }],
        )
        .unwrap();
    let viewport = Rect::new(0i32, 0i32, 2i32, 2i32);
    // Clear only the depth channel to 1.0; the color plane must not move.
    fb.clear(&mut server, viewport, None, Some(Fx::one()), None);
    assert_eq!(server.texture(color).unwrap().texels, vec![10, 20, 30, 40]);
    assert_eq!(server.texture(depth).unwrap().texels, vec![65536, 65536, 65536, 65536]);
}

#[test]
fn clear_color_respects_viewport() {
    let mut server = GraphicsServer::new();
    let color = color_texture(&mut server, 4, 2);
    let fb = server
        .create_frame_buffer(None, vec![Attachment { kind: AttachmentKind::Color, texture: color }])
        .unwrap();
    // Clear only the left half.
    fb.clear(
        &mut server,
        Rect::new(0i32, 0i32, 2i32, 2i32),
        Some(Color::from_rgba(1, 0, 0, 0)),
        None,
        None,
    );
    let texels = &server.texture(color).unwrap().texels;
    assert_eq!(texels[..], [1, 1, 0, 0, 1, 1, 0, 0]);
}

fn plain_params() -> DrawParameters {
    DrawParameters {
        cull_face: None,
        color_write: ColorMask::all(true),
        depth_write: false,
        stencil_test: None,
        depth_test: None,
        blend: None,
        stencil_op: StencilOp::default(),
        scissor_box: None,
    }
}

#[test]
fn draw_applies_exactly_its_own_state() {
    let mut server = GraphicsServer::new();
    let color = color_texture(&mut server, 4, 4);
    let fb = server
        .create_frame_buffer(None, vec![Attachment { kind: AttachmentKind::Color, texture: color }])
        .unwrap();
    let program = server
        .create_program("Flat", "void main() {}", "void main() {}", vec![], vec![])
        .unwrap();
    let quad = GeometryBuffer::unit_xy_quad(BufferUsage::StaticDraw);
    let viewport = Rect::new(0i32, 0i32, 4i32, 4i32);
    let first = DrawParameters {
        cull_face: Some(CullFace::Front),
        blend: Some(BlendParameters {
            src_factor: BlendFactor::SrcAlpha,
            dst_factor: BlendFactor::OneMinusSrcAlpha,
        }),
        ..plain_params()
    };
    let second = DrawParameters { cull_face: Some(CullFace::Back), blend: None, ..plain_params() };
    let s1 = fb
        .draw(&mut server, &quad, viewport, program, &first, &[], ElementRange::Full)
        .unwrap();
    assert_eq!(s1.triangles, 2);
    assert_eq!(server.state.params, first);
    let s2 = fb
        .draw(&mut server, &quad, viewport, program, &second, &[], ElementRange::Full)
        .unwrap();
    assert_eq!(s2.triangles, 2);
    // The second draw's state carries nothing of the first draw.
    assert_eq!(server.state.params, second);
    assert_eq!(server.state.params.cull_face, Some(CullFace::Back));
    assert_eq!(server.state.params.blend, None);
    assert_eq!(server.state.bound_program, Some(program));
}

#[test]
fn draw_rejects_stale_uniform_locations() {
    let mut server = GraphicsServer::new();
    let color = color_texture(&mut server, 4, 4);
    let fb = server
        .create_frame_buffer(None, vec![Attachment { kind: AttachmentKind::Color, texture: color }])
        .unwrap();
    let with_sampler = server
        .create_program(
            "Textured",
            "void main() {}",
            "uniform sampler2D map; void main() {}",
            vec!["map".to_string()],
            vec![],
        )
        .unwrap();
    let other = server
        .create_program("Flat", "void main() {}", "void main() {}", vec![], vec![])
        .unwrap();
    let loc = server.uniform_location(with_sampler, "map").unwrap();
    let quad = GeometryBuffer::unit_xy_quad(BufferUsage::StaticDraw);
    let bindings = [ResourceBinding::texture(&color, &loc)];
    let groups = [ResourceBindGroup { bindings: &bindings }];
    // The location belongs to `with_sampler`, not to `other`.
    let r = fb.draw(
        &mut server,
        &quad,
        Rect::new(0i32, 0i32, 4i32, 4i32),
        other,
        &plain_params(),
        &groups,
        ElementRange::Full,
    );
    assert_eq!(r, Err(FrameworkError::InvalidUniformLocation));
}

#[test]
fn duplicate_explicit_slots_do_not_crash() {
    // Two bindings aiming at one slot are a caller error with undefined
    // meaning; the draw must still complete without failing.
    let mut server = GraphicsServer::new();
    let color = color_texture(&mut server, 4, 4);
    let extra = color_texture(&mut server, 4, 4);
    let fb = server
        .create_frame_buffer(None, vec![Attachment { kind: AttachmentKind::Color, texture: color }])
        .unwrap();
    let program = server
        .create_program("Flat", "void main() {}", "void main() {}", vec![], vec![])
        .unwrap();
    let quad = GeometryBuffer::unit_xy_quad(BufferUsage::StaticDraw);
    let bindings = [
        ResourceBinding::texture_with_binding(&color, 3),
        ResourceBinding::texture_with_binding(&extra, 3),
    ];
    let groups = [ResourceBindGroup { bindings: &bindings }];
    let r = fb.draw(
        &mut server,
        &quad,
        Rect::new(0i32, 0i32, 4i32, 4i32),
        program,
        &plain_params(),
        &groups,
        ElementRange::Full,
    );
    assert!(r.is_ok());
    assert_eq!(server.state.bindings.len(), 2);
}

#[test]
fn element_range_limits_and_checks() {
    let mut server = GraphicsServer::new();
    let color = color_texture(&mut server, 4, 4);
    let fb = server
        .create_frame_buffer(None, vec![Attachment { kind: AttachmentKind::Color, texture: color }])
        .unwrap();
    let program = server
        .create_program("Flat", "void main() {}", "void main() {}", vec![], vec![])
        .unwrap();
    let quad = GeometryBuffer::unit_xy_quad(BufferUsage::StaticDraw);
    let viewport = Rect::new(0i32, 0i32, 4i32, 4i32);
    let part = fb
        .draw(
            &mut server,
            &quad,
            viewport,
            program,
            &plain_params(),
            &[],
            ElementRange::Specific { offset: 1, amount: 1 },
        )
        .unwrap();
    assert_eq!(part.triangles, 1);
    let too_far = fb.draw(
        &mut server,
        &quad,
        viewport,
        program,
        &plain_params(),
        &[],
        ElementRange::Specific { offset: 2, amount: 1 },
    );
    assert_eq!(too_far, Err(FrameworkError::InvalidElementRange));
}

#[test]
fn draw_instances_multiplies_triangles() {
    let mut server = GraphicsServer::new();
    let color = color_texture(&mut server, 4, 4);
    let fb = server
        .create_frame_buffer(None, vec![Attachment { kind: AttachmentKind::Color, texture: color }])
        .unwrap();
    let program = server
        .create_program("Flat", "void main() {}", "void main() {}", vec![], vec![])
        .unwrap();
    let quad = GeometryBuffer::unit_xy_quad(BufferUsage::StaticDraw);
    let stats = fb.draw_instances(
        &mut server,
        5,
        &quad,
        Rect::new(0i32, 0i32, 4i32, 4i32),
        program,
        &plain_params(),
        &[],
    );
    assert_eq!(stats.triangles, 10);
}

#[test]
fn blit_scales_and_checks_channels() {
    let mut server = GraphicsServer::new();
    let src_tex = server
        .create_texture(
            GpuTextureKind::Rectangle { width: 1, height: 1 },
            PixelKind::R32F,
            MinificationFilter::Nearest,
            MagnificationFilter::Nearest,
            1,
            Some(vec![9]),
        )
        .unwrap();
    let dst_tex = color_texture(&mut server, 2, 2);
    let src_fb = server
        .create_frame_buffer(
            None,
            vec![Attachment { kind: AttachmentKind::Color, texture: src_tex }],
        )
        .unwrap();
    let dst_fb = server
        .create_frame_buffer(
            None,
            vec![Attachment { kind: AttachmentKind::Color, texture: dst_tex }],
        )
        .unwrap();
    // Scale the one source texel over the whole two-by-two target.
    src_fb
        .blit_to(&mut server, &dst_fb, 0, 0, 1, 1, 0, 0, 2, 2, true, false, false)
        .unwrap();
    assert_eq!(server.texture(dst_tex).unwrap().texels, vec![9, 9, 9, 9]);
    // Asking for a depth copy without depth attachments is an error.
    let r = src_fb.blit_to(&mut server, &dst_fb, 0, 0, 1, 1, 0, 0, 2, 2, false, true, false);
    assert_eq!(r, Err(FrameworkError::ChannelMismatch));
    // A flipped region is an error.
    let r2 = src_fb.blit_to(&mut server, &dst_fb, 1, 0, 0, 1, 0, 0, 2, 2, true, false, false);
    assert_eq!(r2, Err(FrameworkError::InvalidRegion));
}

#[test]
fn buffer_write_respects_capacity() {
    let mut server = GraphicsServer::new();
    let b = server.create_buffer(4, BufferKind::Uniform, BufferUsage::StreamCopy).unwrap();
    assert_eq!(server.write_buffer_data(b, vec![1, 2, 3, 4]), Ok(()));
    assert_eq!(
        server.write_buffer_data(b, vec![1, 2, 3, 4, 5]),
        Err(FrameworkError::BufferOverflow)
    );
    assert_eq!(server.buffers[b.index].data, vec![1, 2, 3, 4]);
}

#[test]
fn program_reflection_reports_missing_names() {
    let mut server = GraphicsServer::new();
    let p = server
        .create_program(
            "Textured",
            "void main() {}",
            "uniform sampler2D map; void main() {}",
            vec!["map".to_string()],
            vec!["Uniforms".to_string()],
        )
        .unwrap();
    assert!(server.uniform_location(p, "map").is_ok());
    assert_eq!(server.uniform_location(p, "missing"), Err(FrameworkError::UniformNotFound));
    assert_eq!(server.uniform_block_index(p, "Uniforms"), Ok(0));
    assert_eq!(
        server.uniform_block_index(p, "Lights"),
        Err(FrameworkError::UniformBlockNotFound)
    );
    let empty = server.create_program("Broken", "", "void main() {}", vec![], vec![]);
    assert_eq!(empty, Err(FrameworkError::ShaderCompilationFailed));
}

#[test]
fn set_cubemap_face_redirects_clears() {
    let mut server = GraphicsServer::new();
    let cube = server
        .create_texture(
            GpuTextureKind::Cube { width: 1, height: 1 },
            PixelKind::RGBA8,
            MinificationFilter::Nearest,
            MagnificationFilter::Nearest,
            1,
            None,
        )
        .unwrap();
    let mut fb = server
        .create_frame_buffer(None, vec![Attachment { kind: AttachmentKind::Color, texture: cube }])
        .unwrap();
    fb.set_cubemap_face(0, engine_core::gpu_texture::CubeMapFace::NegativeX);
    fb.clear(
        &mut server,
        Rect::new(0i32, 0i32, 1i32, 1i32),
        Some(Color::from_rgba(5, 0, 0, 0)),
        None,
        None,
    );
    let texels = &server.texture(cube).unwrap().texels;
    assert_eq!(texels[..], [0, 5, 0, 0, 0, 0]);
}
