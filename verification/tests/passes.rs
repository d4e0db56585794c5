//! The render passes: ambient occlusion construction, its kernel, its
//! per-frame rendering, and the point-light shader wrapper.

use engine_core::algebra::{Matrix3, Matrix4};
use engine_core::error::FrameworkError;
use engine_core::fixed::Fx;
use engine_core::light_point::PointLightShader;
use engine_core::gpu_texture::{GpuTextureKind, MagnificationFilter, MinificationFilter,
    PixelKind};
use engine_core::server::GraphicsServer;
use engine_core::ssao::{ScreenSpaceAmbientOcclusionRenderer, KERNEL_SIZE};

fn gbuffer_textures(
    server: &mut GraphicsServer,
) -> (engine_core::gpu_texture::TextureId, engine_core::gpu_texture::TextureId) {
    let depth = server
        .create_texture(
            GpuTextureKind::Rectangle { width: 32, height: 32 },
            PixelKind::D32F,
            MinificationFilter::Nearest,
            MagnificationFilter::Nearest,
            1,
            Some(vec![65536u32; 1024]),
        )
        .unwrap();
    let normal = server
        .create_texture(
            GpuTextureKind::Rectangle { width: 32, height: 32 },
            PixelKind::RGBA8,
            MinificationFilter::Nearest,
            MagnificationFilter::Nearest,
            1,
            None,
        )
        .unwrap();
    (depth, normal)
}

#[test]
fn ssao_halves_the_frame_resolution() {
    let mut server = GraphicsServer::new();
    let pass = ScreenSpaceAmbientOcclusionRenderer::new(&mut server, 64, 64).unwrap();
    assert_eq!(pass.width, 32);
    assert_eq!(pass.height, 32);
    assert_ne!(pass.ao_map(), pass.raw_ao_map());
}

#[test]
fn ssao_clamps_degenerate_frames_to_one_texel() {
    let mut server = GraphicsServer::new();
    // A zero-sized frame must not panic and must not create a zero-sized
    // texture.
    let pass = ScreenSpaceAmbientOcclusionRenderer::new(&mut server, 0, 0).unwrap();
    assert_eq!(pass.width, 1);
    assert_eq!(pass.height, 1);
    let tiny = ScreenSpaceAmbientOcclusionRenderer::new(&mut server, 1, 3).unwrap();
    assert_eq!(tiny.width, 1);
    assert_eq!(tiny.height, 1);
}

#[test]
fn ssao_kernel_stays_in_the_upper_hemisphere() {
    let mut server = GraphicsServer::new();
    let pass = ScreenSpaceAmbientOcclusionRenderer::new(&mut server, 64, 64).unwrap();
    assert_eq!(pass.kernel.len(), KERNEL_SIZE);
    let unit = 65536i64;
    for sample in pass.kernel.iter() {
        assert!(sample.z.raw >= 0);
        let len2 = sample.x.raw * sample.x.raw + sample.y.raw * sample.y.raw
            + sample.z.raw * sample.z.raw;
        assert!(len2 <= unit * unit);
    }
}

#[test]
fn set_radius_folds_sign_away() {
    let mut server = GraphicsServer::new();
    let mut pass = ScreenSpaceAmbientOcclusionRenderer::new(&mut server, 64, 64).unwrap();
    let minus_two = (-2.0f32 * 65536.0f32) as i64;
    pass.set_radius(Fx::from_raw(minus_two));
    assert_eq!(pass.radius, Fx::from_int(2));
    pass.set_radius(Fx::from_raw(32768));
    assert_eq!(pass.radius.raw, 32768);
}

#[test]
fn ssao_render_clears_the_occlusion_map_and_packs_uniforms() {
    let mut server = GraphicsServer::new();
    let mut pass = ScreenSpaceAmbientOcclusionRenderer::new(&mut server, 64, 64).unwrap();
    let (depth, normal) = gbuffer_textures(&mut server);
    let stats = pass
        .render(&mut server, depth, normal, Matrix4::identity(), Matrix3::identity())
        .unwrap();
    assert_eq!(stats.draw_calls, 1);
    assert_eq!(stats.triangles_rendered, 2);
    // A flat scene leaves the raw occlusion target uniformly empty.
    let raw = server.texture(pass.raw_ao_map()).unwrap();
    assert_eq!(raw.texels.len(), 32 * 32);
    assert!(raw.texels.iter().all(|t| *t == 0));
    // The uniform block is packed to its exact size; the radius scalar
    // sits in the last slot before the closing padding.
    let packed = &server.buffers[pass.uniform_buffer.index].data;
    assert_eq!(packed.len(), 196);
    assert_eq!(packed[192], 32768);
    // The frame matrix's first column starts the block: 2 / width times
    // width equals 2 in fixed point.
    assert_eq!(packed[0], 2 * 65536);
    // The blurred map a flat scene produces is uniformly empty too: the
    // blur target starts zeroed and this frame leaves it untouched.
    let blurred = server.texture(pass.ao_map()).unwrap();
    assert!(blurred.texels.iter().all(|t| *t == 0));
    // The frame issued two journal entries: the occlusion draw with its
    // own parameters and bindings, then the blur's.
    assert_eq!(server.draws.len(), 2);
    let own = &server.draws[0];
    assert_eq!(own.bound_program, Some(pass.shader.program));
    assert_eq!(own.params.cull_face, None);
    assert_eq!(own.params.blend, None);
    assert!(!own.params.depth_write);
    assert_eq!(own.bindings.len(), 4);
    assert_eq!(own.target_colors, vec![pass.raw_ao_map()]);
    assert_eq!(server.draws[1].bound_program, Some(pass.blur.program));
    // The backend ends the frame in the blur's draw.
    assert_eq!(server.state.bound_program, Some(pass.blur.program));
    let rerun = pass
        .render(&mut server, depth, normal, Matrix4::identity(), Matrix3::identity())
        .unwrap();
    assert_eq!(rerun, stats);
    assert_eq!(server.draws.len(), 4);
}

#[test]
fn ssao_rejects_oversized_frames() {
    let mut server = GraphicsServer::new();
    let r = ScreenSpaceAmbientOcclusionRenderer::new(&mut server, 40000, 64);
    assert_eq!(r.err(), Some(FrameworkError::InvalidTextureSize));
    // Construction is atomic: nothing was left behind on the server.
    assert_eq!(server.textures.len(), 0);
    assert_eq!(server.buffers.len(), 0);
    assert_eq!(server.programs.len(), 0);
}

#[test]
fn point_light_shader_resolves_all_locations() {
    let mut server = GraphicsServer::new();
    let shader = PointLightShader::new(&mut server).unwrap();
    assert_eq!(shader.depth_sampler.program, shader.program);
    assert_eq!(shader.depth_sampler.index, 0);
    assert_eq!(shader.color_sampler.index, 1);
    assert_eq!(shader.normal_sampler.index, 2);
    assert_eq!(shader.material_sampler.index, 3);
    assert_eq!(shader.point_shadow_texture.index, 4);
    assert_eq!(shader.uniform_buffer_binding, 0);
    assert_eq!(server.programs.len(), 1);
}

#[test]
fn matrix_inverse_of_identity_is_identity() {
    let inv = Matrix4::identity().try_inverse().unwrap();
    assert_eq!(inv, Matrix4::identity());
    // A singular matrix has no inverse.
    let zero = Matrix4::default();
    assert!(zero.try_inverse().is_none());
}

#[test]
fn fixed_point_arithmetic_is_exact() {
    assert_eq!(engine_core::fixed_scale(), 65536);
    let three = Fx::from_int(3);
    let two = Fx::from_int(2);
    assert_eq!(three.mul_fx(two), Fx::from_int(6));
    assert_eq!(three.div_fx(two).raw, 98304);
    assert_eq!(Fx::from_raw(-98304).abs().raw, 98304);
    assert_eq!(engine_core::fixed::isqrt_u64(17), 4);
    assert_eq!(engine_core::fixed::fx_to_word(Fx::from_raw(-65536)), 0xFFFF_0000u32);
    assert_eq!(engine_core::fixed::fx_to_word(Fx::one()), 65536);
}
