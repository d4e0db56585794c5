//! The screen-space ambient occlusion pass: a half-resolution occlusion
//! target, a hemisphere sampling kernel, a tiled noise texture, and a blur
//! sub-pass. Construction allocates every resource or fails atomically;
//! each frame clears the target, packs the frame uniforms in shader block
//! order, draws the full-screen quad over the scene depth and normals,
//! and hands the raw map to the blur.

use vstd::prelude::*;
use crate::blur::Blur;
use crate::buffer::{BufferId, BufferKind, BufferUsage};
use crate::color::Color;
use crate::error::FrameworkError;
use crate::fixed::{abs_int, fx_div_spec, fx_mul_spec, isqrt_u64, lerp_fx, Fx, FX_ONE};
use crate::framebuffer::{Attachment, AttachmentKind, BufferDataUsage, BufferLocation, FrameBuffer,
    ResourceBindGroup, ResourceBinding, groups_view, spec_draw_outcome};
use crate::geom::Rect;
use crate::geometry_buffer::{ElementRange, GeometryBuffer};
use crate::gpu_program::{ProgramId, UniformLocation};
use crate::gpu_texture::{same_shape, Coordinate, GpuTextureKind, MagnificationFilter,
    MinificationFilter, PixelKind, TextureId, WrapMode, MAX_TEXTURE_SIZE};
use crate::params::{ColorMask, DrawParameters, StencilOp};
use crate::rng::{gen_range_i64, gen_range_u8, new_thread_rng};
use crate::server::{AppliedBinding, GraphicsServer};
use crate::stats::{DrawCallStatistics, RenderPassStatistics};
use crate::uniform::StaticUniformBuffer;

verus! {

/// Number of kernel samples; kept in sync with the shader-side constant.
pub const KERNEL_SIZE: usize = 32;

/// Side length of the tiled noise texture.
pub const NOISE_SIZE: usize = 4;

/// A valid hemisphere kernel sample: it points no further down than the
/// surface (nonnegative third component) and lies inside the unit ball.
pub open spec fn kernel_sample_ok(v: Vector3) -> bool {
    &&& v.z.raw >= 0
    &&& (v.x.raw * v.x.raw) + (v.y.raw * v.y.raw) + (v.z.raw * v.z.raw) <= (FX_ONE as int) * (
    FX_ONE as int)
}

use crate::algebra::{Matrix3, Matrix4, Vector2, Vector3};

/// The occlusion program with its resolved sampler and block handles.
#[derive(Clone, Copy, Debug)]
pub struct Shader {
    /// The compiled program.
    pub program: ProgramId,
    /// Scene depth sampler.
    pub depth_sampler: UniformLocation,
    /// Scene normal sampler.
    pub normal_sampler: UniformLocation,
    /// Rotation noise sampler.
    pub noise_sampler: UniformLocation,
    /// Index of the frame uniform block.
    pub uniform_block_index: usize,
}

impl Shader {
    /// Compiles the occlusion program and resolves its three samplers and
    /// its uniform block; construction is atomic and, on this backend,
    /// complete.
    pub fn new(server: &mut GraphicsServer) -> (r: Result<Shader, FrameworkError>)
        requires
            old(server).wf(),
        ensures
            final(server).wf(),
            final(server).textures == old(server).textures,
            final(server).buffers == old(server).buffers,
            final(server).state == old(server).state,
            final(server).draws == old(server).draws,
            match r {
                Result::Ok(s) => {
                    &&& s.program.index == old(server).programs@.len()
                    &&& final(server).programs@.len() == old(server).programs@.len() + 1
                    &&& forall|i: int|
                        0 <= i < old(server).programs@.len() ==> final(server).programs@[i] == old(server).programs@[i]
                    &&& final(server).programs@[s.program.index as int].samplers@.len() == 3
                    &&& final(server).programs@[s.program.index as int].blocks@.len() == 1
                    &&& s.depth_sampler == (UniformLocation { program: s.program, index: 0 })
                    &&& s.normal_sampler == (UniformLocation { program: s.program, index: 1 })
                    &&& s.noise_sampler == (UniformLocation { program: s.program, index: 2 })
                    &&& s.uniform_block_index == 0
                    &&& final(server).programs@[s.program.index as int].name@ == "SsaoShader"@
                    &&& crate::gpu_program::names_view(
                        final(server).programs@[s.program.index as int].samplers@,
                    ) == seq!["depthSampler"@, "normalSampler"@, "noiseSampler"@]
                    &&& crate::gpu_program::names_view(
                        final(server).programs@[s.program.index as int].blocks@,
                    ) == seq!["Uniforms"@]
                },
                Result::Err(_) => false,
            },
    {
        let vertex_source = "layout (location = 0) in vec3 vertexPosition; uniform Uniforms { mat4 frameMatrix; }; void main() { gl_Position = frameMatrix * vec4(vertexPosition, 1.0); }";
        let fragment_source = "uniform sampler2D depthSampler; uniform sampler2D normalSampler; uniform sampler2D noiseSampler; out float FragColor; void main() { FragColor = 1.0; }";
        let mut samplers: Vec<String> = Vec::new();
        samplers.push("depthSampler".to_owned());
        samplers.push("normalSampler".to_owned());
        samplers.push("noiseSampler".to_owned());
        let mut blocks: Vec<String> = Vec::new();
        blocks.push("Uniforms".to_owned());
        proof {
            reveal_strlit("depthSampler");
            reveal_strlit("normalSampler");
            reveal_strlit("noiseSampler");
            reveal_strlit("Uniforms");
            reveal_strlit(
                "layout (location = 0) in vec3 vertexPosition; uniform Uniforms { mat4 frameMatrix; }; void main() { gl_Position = frameMatrix * vec4(vertexPosition, 1.0); }",
            );
            reveal_strlit(
                "uniform sampler2D depthSampler; uniform sampler2D normalSampler; uniform sampler2D noiseSampler; out float FragColor; void main() { FragColor = 1.0; }",
            );
            reveal_with_fuel(crate::gpu_program::spec_name_index, 6);
            assert("depthSampler"@ != "normalSampler"@) by {
                assert("depthSampler"@[0] == 'd');
                assert("normalSampler"@[0] == 'n');
            }
            assert("depthSampler"@ != "noiseSampler"@) by {
                assert("depthSampler"@[0] == 'd');
                assert("noiseSampler"@[0] == 'n');
            }
            assert("normalSampler"@ != "noiseSampler"@) by {
                assert("normalSampler"@[2] == 'r');
                assert("noiseSampler"@[2] == 'i');
            }
        }
        let program = match server.create_program(
            "SsaoShader",
            vertex_source,
            fragment_source,
            samplers,
            blocks,
        ) {
            Result::Ok(p) => p,
            Result::Err(e) => {
                proof {
                    assert(false);
                }
                return Result::Err(e);
            },
        };
        let depth_sampler = match server.uniform_location(program, "depthSampler") {
            Result::Ok(l) => l,
            Result::Err(e) => {
                proof {
                    assert(false);
                }
                return Result::Err(e);
            },
        };
        let normal_sampler = match server.uniform_location(program, "normalSampler") {
            Result::Ok(l) => l,
            Result::Err(e) => {
                proof {
                    assert(false);
                }
                return Result::Err(e);
            },
        };
        let noise_sampler = match server.uniform_location(program, "noiseSampler") {
            Result::Ok(l) => l,
            Result::Err(e) => {
                proof {
                    assert(false);
                }
                return Result::Err(e);
            },
        };
        let uniform_block_index = match server.uniform_block_index(program, "Uniforms") {
            Result::Ok(i) => i,
            Result::Err(e) => {
                proof {
                    assert(false);
                }
                return Result::Err(e);
            },
        };
        proof {
            assert(crate::gpu_program::names_view(
                server.programs@[program.index as int].samplers@,
            ) =~= seq!["depthSampler"@, "normalSampler"@, "noiseSampler"@]);
            assert(crate::gpu_program::names_view(
                server.programs@[program.index as int].blocks@,
            ) =~= seq!["Uniforms"@]);
        }
        Result::Ok(Shader { program, depth_sampler, normal_sampler, noise_sampler, uniform_block_index })
    }
}

/// One kernel sample: a random direction in the upper hemisphere,
/// normalized in fixed point and scaled by a factor that grows with the
/// sample index, packing samples more densely near the origin.
fn make_kernel_sample(rng: &mut rand::rngs::ThreadRng, i: usize) -> (v: Vector3)
    requires
        i < KERNEL_SIZE,
    ensures
        kernel_sample_ok(v),
{
    let k_raw: i64 = ((i as i64) * FX_ONE) / (KERNEL_SIZE as i64);
    let k = Fx::from_raw(k_raw);
    proof {
        assert(0 <= k_raw < FX_ONE) by (nonlinear_arith)
            requires
                k_raw == ((i as i64) * (FX_ONE as i64)) / (KERNEL_SIZE as int),
                0 <= i < KERNEL_SIZE,
                FX_ONE == 65536,
                KERNEL_SIZE == 32,
        ;
        assert(fx_mul_spec(k_raw as int, k_raw as int) < FX_ONE) by (nonlinear_arith)
            requires
                0 <= k_raw < FX_ONE,
                FX_ONE == 65536,
        ;
        assert(fx_mul_spec(k_raw as int, k_raw as int) >= 0) by (nonlinear_arith)
            requires
                0 <= k_raw,
        ;
    }
    let t = k.mul_fx(k);
    let scale = lerp_fx(Fx::from_raw(6554), Fx::from_raw(FX_ONE), t);
    proof {
        assert(0 <= fx_mul_spec((FX_ONE - 6554) as int, t.raw as int) <= FX_ONE - 6554)
            by (nonlinear_arith)
            requires
                0 <= t.raw <= FX_ONE,
                FX_ONE == 65536,
        ;
    }
    let x = gen_range_i64(rng, -65536, 65536);
    let y = gen_range_i64(rng, -65536, 65536);
    let z = gen_range_i64(rng, 0, 65536);
    proof {
        assert(x * x <= 65536i64 * 65536i64 && x * x >= 0) by (nonlinear_arith)
            requires
                -65536 <= x < 65536,
        ;
        assert(y * y <= 65536i64 * 65536i64 && y * y >= 0) by (nonlinear_arith)
            requires
                -65536 <= y < 65536,
        ;
        assert(z * z <= 65536i64 * 65536i64 && z * z >= 0) by (nonlinear_arith)
            requires
                0 <= z < 65536,
        ;
    }
    let n2: u64 = ((x * x) + (y * y) + (z * z)) as u64;
    if n2 == 0 {
        proof {
            assert(scale.raw * scale.raw <= (FX_ONE as int) * (FX_ONE as int)) by (nonlinear_arith)
                requires
                    0 <= scale.raw <= FX_ONE,
            ;
        }
        return Vector3 { x: Fx { raw: 0 }, y: Fx { raw: 0 }, z: scale };
    }
    let l0 = isqrt_u64(n2);
    proof {
        assert(l0 <= 131071) by (nonlinear_arith)
            requires
                l0 * l0 <= n2,
                n2 <= 3 * (65536u64 * 65536u64),
        ;
    }
    let l: u64 = if l0 * l0 < n2 {
        l0 + 1
    } else {
        proof {
            assert(l0 >= 1) by (nonlinear_arith)
                requires
                    l0 * l0 >= n2,
                    n2 >= 1,
            ;
        }
        l0
    };
    proof {
        assert(1 <= l <= 131072);
        assert(n2 <= l * l);
        assert(abs_int(x as int) <= l) by (nonlinear_arith)
            requires
                x * x <= n2 <= l * l,
                l >= 1,
        ;
        assert(abs_int(y as int) <= l) by (nonlinear_arith)
            requires
                y * y <= n2 <= l * l,
                l >= 1,
        ;
        assert(abs_int(z as int) <= l) by (nonlinear_arith)
            requires
                z * z <= n2 <= l * l,
                l >= 1,
        ;
        assert(x * x + y * y + z * z == n2);
    }
    let nx = norm_component(x, l);
    let ny = norm_component(y, l);
    let nz = norm_component(z, l);
    proof {
        lemma_normalized_in_ball(
            x as int,
            y as int,
            z as int,
            l as int,
            nx as int,
            ny as int,
            nz as int,
            n2 as int,
        );
    }
    let sx = scale_component(nx, scale);
    let sy = scale_component(ny, scale);
    let sz = scale_component(nz, scale);
    proof {
        lemma_scaled_in_ball(
            nx as int,
            ny as int,
            nz as int,
            sx as int,
            sy as int,
            sz as int,
        );
        assert(sz >= 0) by (nonlinear_arith)
            requires
                sz == fx_mul_spec(nz as int, scale.raw as int),
                nz >= 0,
                scale.raw >= 0,
        ;
    }
    Vector3 { x: Fx { raw: sx }, y: Fx { raw: sy }, z: Fx { raw: sz } }
}

/// One normalized component: the component scaled to unit length by the
/// rounded-up length, truncated toward zero.
fn norm_component(c: i64, l: u64) -> (r: i64)
    requires
        1 <= l <= 131072,
        -65536 <= c < 65536,
        abs_int(c as int) <= l,
    ensures
        abs_int(r as int) * l <= abs_int(c as int) * FX_ONE,
        c >= 0 ==> r >= 0,
        c < 0 ==> r <= 0,
        abs_int(r as int) <= FX_ONE,
{
    let m: u64 = if c < 0 {
        (-c) as u64
    } else {
        c as u64
    };
    let q: u64 = (m * 65536) / l;
    proof {
        vstd::arithmetic::div_mod::lemma_fundamental_div_mod((m * 65536) as int, l as int);
        assert(q * l <= m * 65536) by (nonlinear_arith)
            requires
                q == (m * 65536) / (l as int),
                m * 65536 == (l as int) * ((m * 65536) / (l as int)) + (m * 65536) % (l as int),
                0 <= (m * 65536) % (l as int),
                l >= 1,
        ;
        assert(m * 65536 <= l * 65536) by (nonlinear_arith)
            requires
                m <= l,
        ;
        vstd::arithmetic::div_mod::lemma_div_is_ordered(
            (m * 65536) as int,
            (l * 65536) as int,
            l as int,
        );
        assert(l * 65536 / (l as int) == 65536) by (nonlinear_arith)
            requires
                l >= 1,
        ;
    }
    if c < 0 {
        -(q as i64)
    } else {
        q as i64
    }
}

/// One scaled component: the normalized component times the kernel scale,
/// truncated toward zero.
fn scale_component(n: i64, scale: Fx) -> (r: i64)
    requires
        abs_int(n as int) <= 0x4000_0000,
        0 <= scale.raw <= FX_ONE,
    ensures
        r == fx_mul_spec(n as int, scale.raw as int),
        abs_int(r as int) <= abs_int(n as int),
{
    proof {
        crate::fixed::lemma_mul_shrinks(n as int, scale.raw as int);
    }
    let nf = Fx { raw: n };
    let r = nf.mul_fx(scale);
    r.raw
}

/// Normalization keeps the vector inside the unit ball: the squared sum
/// of the normalized components is at most the square of the unit.
proof fn lemma_normalized_in_ball(
    x: int,
    y: int,
    z: int,
    l: int,
    nx: int,
    ny: int,
    nz: int,
    n2: int,
)
    requires
        l >= 1,
        n2 == x * x + y * y + z * z,
        n2 <= l * l,
        abs_int(nx) * l <= abs_int(x) * FX_ONE,
        abs_int(ny) * l <= abs_int(y) * FX_ONE,
        abs_int(nz) * l <= abs_int(z) * FX_ONE,
    ensures
        nx * nx + ny * ny + nz * nz <= (FX_ONE as int) * (FX_ONE as int),
{
    let f = FX_ONE as int;
    assert(nx * nx * (l * l) <= (x * x) * (f * f)) by (nonlinear_arith)
        requires
            abs_int(nx) * l <= abs_int(x) * f,
            l >= 1,
    ;
    assert(ny * ny * (l * l) <= (y * y) * (f * f)) by (nonlinear_arith)
        requires
            abs_int(ny) * l <= abs_int(y) * f,
            l >= 1,
    ;
    assert(nz * nz * (l * l) <= (z * z) * (f * f)) by (nonlinear_arith)
        requires
            abs_int(nz) * l <= abs_int(z) * f,
            l >= 1,
    ;
    assert((nx * nx + ny * ny + nz * nz) * (l * l) <= n2 * (f * f)) by (nonlinear_arith)
        requires
            nx * nx * (l * l) <= (x * x) * (f * f),
            ny * ny * (l * l) <= (y * y) * (f * f),
            nz * nz * (l * l) <= (z * z) * (f * f),
            n2 == x * x + y * y + z * z,
    ;
    assert(nx * nx + ny * ny + nz * nz <= f * f) by (nonlinear_arith)
        requires
            (nx * nx + ny * ny + nz * nz) * (l * l) <= n2 * (f * f),
            n2 <= l * l,
            l >= 1,
            f >= 1,
    ;
}

/// Scaling by a factor of at most one keeps the vector inside the ball it
/// is in.
proof fn lemma_scaled_in_ball(nx: int, ny: int, nz: int, sx: int, sy: int, sz: int)
    requires
        abs_int(sx) <= abs_int(nx),
        abs_int(sy) <= abs_int(ny),
        abs_int(sz) <= abs_int(nz),
        nx * nx + ny * ny + nz * nz <= (FX_ONE as int) * (FX_ONE as int),
    ensures
        sx * sx + sy * sy + sz * sz <= (FX_ONE as int) * (FX_ONE as int),
{
    assert(sx * sx <= nx * nx) by (nonlinear_arith)
        requires
            abs_int(sx) <= abs_int(nx),
    ;
    assert(sy * sy <= ny * ny) by (nonlinear_arith)
        requires
            abs_int(sy) <= abs_int(ny),
    ;
    assert(sz * sz <= nz * nz) by (nonlinear_arith)
        requires
            abs_int(sz) <= abs_int(nz),
    ;
}

/// Generates the hemisphere sampling kernel: a fixed number of samples,
/// each inside the unit upper hemisphere.
fn generate_kernel(rng: &mut rand::rngs::ThreadRng) -> (k: Vec<Vector3>)
    ensures
        k@.len() == KERNEL_SIZE,
        forall|i: int| 0 <= i < k@.len() ==> kernel_sample_ok(#[trigger] k@[i]),
{
    let mut k: Vec<Vector3> = Vec::new();
    let mut i: usize = 0;
    while i < KERNEL_SIZE
        invariant
            i <= KERNEL_SIZE,
            k@.len() == i,
            forall|j: int| 0 <= j < i ==> kernel_sample_ok(#[trigger] k@[j]),
        decreases KERNEL_SIZE - i,
    {
        let s = make_kernel_sample(rng, i);
        k.push(s);
        i = i + 1;
    }
    k
}

/// Generates the noise texels: one word per pixel holding two random
/// byte channels; the blue and alpha channels are zero in every outcome.
fn generate_noise(rng: &mut rand::rngs::ThreadRng) -> (d: Vec<u32>)
    ensures
        d@.len() == NOISE_SIZE * NOISE_SIZE,
        forall|i: int| 0 <= i < d@.len() ==> #[trigger] d@[i] < 65536,
{
    let mut d: Vec<u32> = Vec::new();
    let mut i: usize = 0;
    while i < NOISE_SIZE * NOISE_SIZE
        invariant
            i <= NOISE_SIZE * NOISE_SIZE,
            d@.len() == i,
            forall|j: int| 0 <= j < i ==> #[trigger] d@[j] < 65536,
        decreases NOISE_SIZE * NOISE_SIZE - i,
    {
        let r = gen_range_u8(rng, 0, 255);
        let g = gen_range_u8(rng, 0, 255);
        d.push((r as u32) + 256 * (g as u32));
        i = i + 1;
    }
    d
}

/// The frame matrix the pass uploads: the orthographic projection of the
/// viewport box composed with the viewport scaling, entry by entry in
/// exact fixed point. `wf` and `hf` are the viewport extents as raw
/// fixed-point counts.
pub open spec fn spec_frame_matrix(wf: int, hf: int) -> Matrix4 {
    Matrix4 {
        m11: Fx { raw: (fx_mul_spec(fx_div_spec(2 * FX_ONE, wf), wf) + fx_mul_spec(0, 0) + fx_mul_spec(0, 0) + fx_mul_spec(fx_div_spec(-wf, wf), 0)) as i64 },
        m12: Fx { raw: (fx_mul_spec(fx_div_spec(2 * FX_ONE, wf), 0) + fx_mul_spec(0, hf) + fx_mul_spec(0, 0) + fx_mul_spec(fx_div_spec(-wf, wf), 0)) as i64 },
        m13: Fx { raw: (fx_mul_spec(fx_div_spec(2 * FX_ONE, wf), 0) + fx_mul_spec(0, 0) + fx_mul_spec(0, 0) + fx_mul_spec(fx_div_spec(-wf, wf), 0)) as i64 },
        m14: Fx { raw: (fx_mul_spec(fx_div_spec(2 * FX_ONE, wf), 0) + fx_mul_spec(0, 0) + fx_mul_spec(0, 0) + fx_mul_spec(fx_div_spec(-wf, wf), (FX_ONE as int))) as i64 },
        m21: Fx { raw: (fx_mul_spec(0, wf) + fx_mul_spec(fx_div_spec(2 * FX_ONE, -hf), 0) + fx_mul_spec(0, 0) + fx_mul_spec(fx_div_spec(-hf, -hf), 0)) as i64 },
        m22: Fx { raw: (fx_mul_spec(0, 0) + fx_mul_spec(fx_div_spec(2 * FX_ONE, -hf), hf) + fx_mul_spec(0, 0) + fx_mul_spec(fx_div_spec(-hf, -hf), 0)) as i64 },
        m23: Fx { raw: (fx_mul_spec(0, 0) + fx_mul_spec(fx_div_spec(2 * FX_ONE, -hf), 0) + fx_mul_spec(0, 0) + fx_mul_spec(fx_div_spec(-hf, -hf), 0)) as i64 },
        m24: Fx { raw: (fx_mul_spec(0, 0) + fx_mul_spec(fx_div_spec(2 * FX_ONE, -hf), 0) + fx_mul_spec(0, 0) + fx_mul_spec(fx_div_spec(-hf, -hf), (FX_ONE as int))) as i64 },
        m31: Fx { raw: (fx_mul_spec(0, wf) + fx_mul_spec(0, 0) + fx_mul_spec(fx_div_spec(-2 * FX_ONE, 2 * FX_ONE), 0) + fx_mul_spec(fx_div_spec(0, 2 * FX_ONE), 0)) as i64 },
        m32: Fx { raw: (fx_mul_spec(0, 0) + fx_mul_spec(0, hf) + fx_mul_spec(fx_div_spec(-2 * FX_ONE, 2 * FX_ONE), 0) + fx_mul_spec(fx_div_spec(0, 2 * FX_ONE), 0)) as i64 },
        m33: Fx { raw: (fx_mul_spec(0, 0) + fx_mul_spec(0, 0) + fx_mul_spec(fx_div_spec(-2 * FX_ONE, 2 * FX_ONE), 0) + fx_mul_spec(fx_div_spec(0, 2 * FX_ONE), 0)) as i64 },
        m34: Fx { raw: (fx_mul_spec(0, 0) + fx_mul_spec(0, 0) + fx_mul_spec(fx_div_spec(-2 * FX_ONE, 2 * FX_ONE), 0) + fx_mul_spec(fx_div_spec(0, 2 * FX_ONE), (FX_ONE as int))) as i64 },
        m41: Fx { raw: (fx_mul_spec(0, wf) + fx_mul_spec(0, 0) + fx_mul_spec(0, 0) + fx_mul_spec((FX_ONE as int), 0)) as i64 },
        m42: Fx { raw: (fx_mul_spec(0, 0) + fx_mul_spec(0, hf) + fx_mul_spec(0, 0) + fx_mul_spec((FX_ONE as int), 0)) as i64 },
        m43: Fx { raw: (fx_mul_spec(0, 0) + fx_mul_spec(0, 0) + fx_mul_spec(0, 0) + fx_mul_spec((FX_ONE as int), 0)) as i64 },
        m44: Fx { raw: (fx_mul_spec(0, 0) + fx_mul_spec(0, 0) + fx_mul_spec(0, 0) + fx_mul_spec((FX_ONE as int), (FX_ONE as int))) as i64 },
    }
}

/// The inverse the pass uploads: the fixed-point inverse of the
/// projection, or the zero matrix where none exists.
pub open spec fn spec_inverse_or_zero(m: Matrix4) -> Matrix4 {
    match crate::algebra::spec_try_inverse(m) {
        Option::Some(inv) => inv,
        Option::None => Matrix4::spec_zeros(),
    }
}

/// The exact word image of the frame uniform block, in shader block field
/// order: frame matrix, inverse projection, projection, kernel array,
/// noise scale, view matrix, radius, with std140 slot padding.
pub open spec fn spec_ssao_uniform_words(
    frame: Matrix4,
    inv: Matrix4,
    proj: Matrix4,
    kernel: Seq<Vector3>,
    noise_scale: Vector2,
    view: Matrix3,
    radius: Fx,
) -> Seq<u32> {
    crate::uniform::mat4_words(frame) + crate::uniform::mat4_words(inv)
        + crate::uniform::mat4_words(proj) + kernel.flat_map(
        |v: Vector3| crate::uniform::vec3_slot_words(v),
    ) + seq![
        crate::uniform::word_of(noise_scale.x),
        crate::uniform::word_of(noise_scale.y),
        0u32,
        0u32,
    ] + crate::uniform::mat3_words(view) + seq![crate::uniform::word_of(radius), 0u32, 0u32, 0u32]
}

/// The screen-space ambient occlusion pass.
#[derive(Debug)]
pub struct ScreenSpaceAmbientOcclusionRenderer {
    /// The blur sub-pass fed by the raw occlusion map.
    pub blur: Blur,
    /// The occlusion program.
    pub shader: Shader,
    /// Render target of the raw occlusion map.
    pub framebuffer: FrameBuffer,
    /// The full-screen quad.
    pub quad: GeometryBuffer,
    /// Per-frame uniform storage.
    pub uniform_buffer: BufferId,
    /// Target columns: half the frame, at least one.
    pub width: i32,
    /// Target rows: half the frame, at least one.
    pub height: i32,
    /// The tiled rotation noise texture.
    pub noise: TextureId,
    /// The hemisphere sampling kernel.
    pub kernel: Vec<Vector3>,
    /// World-space sampling radius; never negative.
    pub radius: Fx,
}

impl ScreenSpaceAmbientOcclusionRenderer {
    /// Structural soundness of the pass against its server.
    pub open spec fn wf(self, server: GraphicsServer) -> bool {
        &&& self.framebuffer.valid(server)
        &&& self.framebuffer.spec_colors().len() == 1
        &&& self.framebuffer.spec_depth() is None
        &&& server.textures@[self.framebuffer.spec_colors()[0].texture.index as int].kind == (
        GpuTextureKind::Rectangle { width: self.width as usize, height: self.height as usize })
        &&& self.blur.wf(server)
        &&& self.blur.framebuffer.spec_colors()[0].texture.index
            != self.framebuffer.spec_colors()[0].texture.index
        &&& self.shader.program.index < server.programs@.len()
        &&& server.programs@[self.shader.program.index as int].samplers@.len() == 3
        &&& server.programs@[self.shader.program.index as int].blocks@.len() == 1
        &&& self.shader.depth_sampler == (UniformLocation {
            program: self.shader.program,
            index: 0,
        })
        &&& self.shader.normal_sampler == (UniformLocation {
            program: self.shader.program,
            index: 1,
        })
        &&& self.shader.noise_sampler == (UniformLocation {
            program: self.shader.program,
            index: 2,
        })
        &&& self.shader.uniform_block_index == 0
        &&& self.uniform_buffer.index < server.buffers@.len()
        &&& server.buffers@[self.uniform_buffer.index as int].size == 256
        &&& self.noise.index < server.textures@.len()
        &&& self.quad == (GeometryBuffer {
            vertex_count: 4usize,
            triangle_count: 2usize,
            usage: BufferUsage::StaticDraw,
        })
        &&& self.kernel@.len() == KERNEL_SIZE
        &&& forall|i: int| 0 <= i < self.kernel@.len() ==> kernel_sample_ok(#[trigger] self.kernel@[i])
        &&& 1 <= self.width <= MAX_TEXTURE_SIZE as i32
        &&& 1 <= self.height <= MAX_TEXTURE_SIZE as i32
        &&& self.radius.raw >= 0
    }

    /// The half-resolution target extent of a frame extent: half the
    /// frame, clamped up to one so that no degenerate texture is ever
    /// requested.
    pub open spec fn spec_half(frame: int) -> int {
        if frame / 2 >= 1 {
            frame / 2
        } else {
            1
        }
    }

    /// Builds the pass for a frame of the given logical size: the
    /// occlusion target takes half the frame resolution on both axes
    /// (never less than one texel), and the kernel, noise texture, blur
    /// sub-pass and uniform storage are allocated. Fails exactly when the
    /// halved size still exceeds the largest creatable texture;
    /// construction is atomic either way.
    pub fn new(server: &mut GraphicsServer, frame_width: usize, frame_height: usize) -> (r: Result<
        ScreenSpaceAmbientOcclusionRenderer,
        FrameworkError,
    >)
        requires
            old(server).wf(),
        ensures
            final(server).wf(),
            final(server).state == old(server).state,
            final(server).draws == old(server).draws,
            match r {
                Result::Ok(s) => {
                    &&& s.wf(*final(server))
                    &&& s.width == Self::spec_half(frame_width as int)
                    &&& s.height == Self::spec_half(frame_height as int)
                    &&& s.radius.raw == FX_ONE / 2
                    &&& s.kernel@.len() == KERNEL_SIZE
                    &&& forall|i: int|
                        0 <= i < s.kernel@.len() ==> kernel_sample_ok(#[trigger] s.kernel@[i])
                    &&& Self::spec_half(frame_width as int) <= MAX_TEXTURE_SIZE
                    &&& Self::spec_half(frame_height as int) <= MAX_TEXTURE_SIZE
                    &&& ({
                        let occ = final(server).textures@[s.framebuffer.spec_colors()[0].texture.index as int];
                        &&& occ.pixel_kind == PixelKind::R32F
                        &&& occ.min_filter == MinificationFilter::Nearest
                        &&& occ.mag_filter == MagnificationFilter::Nearest
                        &&& occ.mip_count == 1
                        &&& occ.texels@ == Seq::new(
                            (Self::spec_half(frame_width as int) * Self::spec_half(
                                frame_height as int,
                            )) as nat,
                            |i: int| 0u32,
                        )
                    })
                    &&& ({
                        let blurred = final(server).textures@[s.blur.framebuffer.spec_colors()[0].texture.index as int];
                        &&& blurred.pixel_kind == PixelKind::R32F
                        &&& blurred.texels@ == Seq::new(
                            (Self::spec_half(frame_width as int) * Self::spec_half(
                                frame_height as int,
                            )) as nat,
                            |i: int| 0u32,
                        )
                    })
                    &&& ({
                        let noise = final(server).textures@[s.noise.index as int];
                        &&& noise.kind == (GpuTextureKind::Rectangle {
                            width: NOISE_SIZE,
                            height: NOISE_SIZE,
                        })
                        &&& noise.pixel_kind == PixelKind::RGB8
                        &&& noise.min_filter == MinificationFilter::Nearest
                        &&& noise.mag_filter == MagnificationFilter::Nearest
                        &&& noise.mip_count == 1
                        &&& noise.wrap_s == WrapMode::Repeat
                        &&& noise.wrap_t == WrapMode::Repeat
                        &&& noise.texels@.len() == NOISE_SIZE * NOISE_SIZE
                        &&& forall|i: int|
                            0 <= i < noise.texels@.len() ==> #[trigger] noise.texels@[i] < 65536
                    })
                    &&& final(server).programs@[s.shader.program.index as int].name@
                        == "SsaoShader"@
                    &&& crate::gpu_program::names_view(
                        final(server).programs@[s.shader.program.index as int].samplers@,
                    ) == seq!["depthSampler"@, "normalSampler"@, "noiseSampler"@]
                    &&& crate::gpu_program::names_view(
                        final(server).programs@[s.shader.program.index as int].blocks@,
                    ) == seq!["Uniforms"@]
                },
                Result::Err(e) => {
                    &&& e == FrameworkError::InvalidTextureSize
                    &&& (Self::spec_half(frame_width as int) > MAX_TEXTURE_SIZE || Self::spec_half(
                        frame_height as int,
                    ) > MAX_TEXTURE_SIZE)
                    &&& final(server).textures == old(server).textures
                    &&& final(server).buffers == old(server).buffers
                    &&& final(server).programs == old(server).programs
                },
            },
    {
        let width: usize = if frame_width / 2 >= 1 {
            frame_width / 2
        } else {
            1
        };
        let height: usize = if frame_height / 2 >= 1 {
            frame_height / 2
        } else {
            1
        };
        if width > MAX_TEXTURE_SIZE || height > MAX_TEXTURE_SIZE {
            return Result::Err(FrameworkError::InvalidTextureSize);
        }
        let occlusion = match server.create_texture(
            GpuTextureKind::Rectangle { width, height },
            PixelKind::R32F,
            MinificationFilter::Nearest,
            MagnificationFilter::Nearest,
            1,
            Option::None,
        ) {
            Result::Ok(t) => t,
            Result::Err(e) => {
                proof {
                    assert(false);
                }
                return Result::Err(e);
            },
        };
        let uniform_buffer = match server.create_buffer(
            256,
            BufferKind::Uniform,
            BufferUsage::StreamCopy,
        ) {
            Result::Ok(b) => b,
            Result::Err(e) => {
                proof {
                    assert(false);
                }
                return Result::Err(e);
            },
        };
        let blur = match Blur::new(server, width, height) {
            Result::Ok(b) => b,
            Result::Err(e) => {
                proof {
                    assert(false);
                }
                return Result::Err(e);
            },
        };
        let shader = match Shader::new(server) {
            Result::Ok(s) => s,
            Result::Err(e) => {
                proof {
                    assert(false);
                }
                return Result::Err(e);
            },
        };
        let mut colors: Vec<Attachment> = Vec::new();
        colors.push(Attachment { kind: AttachmentKind::Color, texture: occlusion });
        let framebuffer = match server.create_frame_buffer(Option::None, colors) {
            Result::Ok(fb) => fb,
            Result::Err(e) => {
                proof {
                    assert(false);
                }
                return Result::Err(e);
            },
        };
        let quad = GeometryBuffer::unit_xy_quad(BufferUsage::StaticDraw);
        let mut rng = new_thread_rng();
        let kernel = generate_kernel(&mut rng);
        let noise_data = generate_noise(&mut rng);
        let noise = match server.create_texture(
            GpuTextureKind::Rectangle { width: NOISE_SIZE, height: NOISE_SIZE },
            PixelKind::RGB8,
            MinificationFilter::Nearest,
            MagnificationFilter::Nearest,
            1,
            Option::Some(noise_data),
        ) {
            Result::Ok(t) => t,
            Result::Err(e) => {
                proof {
                    assert(false);
                }
                return Result::Err(e);
            },
        };
        match server.set_texture_wrap(noise, Coordinate::S, WrapMode::Repeat) {
            Result::Ok(_) => {},
            Result::Err(_) => {
                proof {
                    assert(false);
                }
            },
        }
        match server.set_texture_wrap(noise, Coordinate::T, WrapMode::Repeat) {
            Result::Ok(_) => {},
            Result::Err(_) => {
                proof {
                    assert(false);
                }
            },
        }
        Result::Ok(
            ScreenSpaceAmbientOcclusionRenderer {
                blur,
                shader,
                framebuffer,
                quad,
                uniform_buffer,
                width: width as i32,
                height: height as i32,
                noise,
                kernel,
                radius: Fx { raw: FX_ONE / 2 },
            },
        )
    }

    /// Sets the sampling radius; a negative input is folded to its
    /// absolute value.
    pub fn set_radius(&mut self, radius: Fx)
        requires
            radius.raw != i64::MIN,
        ensures
            final(self).radius.raw == abs_int(radius.raw as int),
            *final(self) == (ScreenSpaceAmbientOcclusionRenderer {
                radius: final(self).radius,
                ..*old(self)
            }),
    {
        self.radius = radius.abs();
    }

    /// The raw, pre-blur occlusion map: the pass's own color attachment.
    pub fn raw_ao_map(&self) -> (r: TextureId)
        requires
            self.framebuffer.spec_colors().len() == 1,
        ensures
            r == self.framebuffer.spec_colors()[0].texture,
    {
        self.framebuffer.color_attachments()[0].texture
    }

    /// The blurred occlusion map consumed by the lighting passes.
    pub fn ao_map(&self) -> (r: TextureId)
        requires
            self.blur.framebuffer.spec_colors().len() == 1,
        ensures
            r == self.blur.framebuffer.spec_colors()[0].texture,
    {
        self.blur.result()
    }
}



/// Each kernel element packs into one four-word slot, so the packed
/// kernel is four words per sample.
proof fn lemma_kernel_words_len(k: Seq<Vector3>)
    ensures
        k.flat_map(|v: Vector3| crate::uniform::vec3_slot_words(v)).len() == 4 * k.len(),
    decreases k.len(),
{
    let f = |v: Vector3| crate::uniform::vec3_slot_words(v);
    if k.len() == 0 {
        assert(k.map_values(f) =~= Seq::<Seq<u32>>::empty());
        assert(Seq::<Seq<u32>>::empty().flatten() =~= Seq::<u32>::empty());
        assert(k.flat_map(f) =~= Seq::<u32>::empty());
    } else {
        let pre = k.drop_last();
        lemma_kernel_words_len(pre);
        pre.lemma_flat_map_push(f, k.last());
        assert(pre.push(k.last()) =~= k);
        assert(k.flat_map(f) =~= pre.flat_map(f) + f(k.last()));
    }
}

/// Packs one frame's uniform block in exact shader field order.
fn pack_frame_uniforms(
    frame_matrix: &Matrix4,
    inv_proj: &Matrix4,
    proj: &Matrix4,
    kernel: &Vec<Vector3>,
    noise_scale: Vector2,
    view: &Matrix3,
    radius: Fx,
) -> (words: Vec<u32>)
    requires
        kernel@.len() == KERNEL_SIZE,
    ensures
        words@ == spec_ssao_uniform_words(
            *frame_matrix,
            *inv_proj,
            *proj,
            kernel@,
            noise_scale,
            *view,
            radius,
        ),
        words@.len() == 196,
{
    let mut uniforms = StaticUniformBuffer::new();
    uniforms.push_matrix4(frame_matrix);
    uniforms.push_matrix4(inv_proj);
    uniforms.push_matrix4(proj);
    uniforms.push_slice(kernel);
    uniforms.push_vector2(noise_scale);
    uniforms.push_matrix3(view);
    uniforms.push(radius);
    let words = uniforms.finish();
    proof {
        lemma_kernel_words_len(kernel@);
        assert(Seq::new(kernel@.len(), |i: int| kernel@[i]) =~= kernel@);
        assert(words@ =~= spec_ssao_uniform_words(
            *frame_matrix,
            *inv_proj,
            *proj,
            kernel@,
            noise_scale,
            *view,
            radius,
        ));
        assert(kernel@.flat_map(|v: Vector3| crate::uniform::vec3_slot_words(v)).len() == 128);
        assert(words@.len() == 196);
    }
    words
}

impl ScreenSpaceAmbientOcclusionRenderer {
    /// Renders one frame of ambient occlusion: clears the occlusion
    /// target, packs the frame uniforms in exact shader block order
    /// (frame matrix, inverse projection, projection, kernel, noise
    /// scale, view matrix, radius), draws the full-screen quad sampling
    /// the scene depth, normals and rotation noise, and hands the raw map
    /// to the blur sub-pass. Afterwards: the occlusion texels are zeroed,
    /// the uniform buffer holds exactly the packed words, every other
    /// texture is untouched, the backend state is the blur draw's state,
    /// and the returned statistics count this pass's one draw call of two
    /// triangles.
    #[verifier::rlimit(100)]
    #[verifier::spinoff_prover]
    pub fn render(
        &self,
        server: &mut GraphicsServer,
        gbuffer_depth: TextureId,
        gbuffer_normal: TextureId,
        projection_matrix: Matrix4,
        view_matrix: Matrix3,
    ) -> (r: Result<RenderPassStatistics, FrameworkError>)
        requires
            old(server).wf(),
            self.wf(*old(server)),
            gbuffer_depth.index < old(server).textures@.len(),
            gbuffer_normal.index < old(server).textures@.len(),
            projection_matrix.in_range(0x4000_0000),
    ensures
            final(server).wf(),
            self.wf(*final(server)),
            r == Result::<RenderPassStatistics, FrameworkError>::Ok(
                RenderPassStatistics { draw_calls: 1u64, triangles_rendered: 2u64 },
            ),
            final(server).textures@.len() == old(server).textures@.len(),
            final(server).textures@[self.framebuffer.spec_colors()[0].texture.index as int].texels@
                =~= Seq::new(
                ((self.width as int) * (self.height as int)) as nat,
                |i: int| 0u32,
            ),
            forall|ti: int|
                0 <= ti < old(server).textures@.len() && ti
                    != self.framebuffer.spec_colors()[0].texture.index ==> {
                    &&& same_shape(#[trigger] final(server).textures@[ti], old(server).textures@[ti])
                    &&& final(server).textures@[ti].texels@ == old(server).textures@[ti].texels@
                    &&& final(server).textures@[ti].stencil@ == old(server).textures@[ti].stencil@
                },
            final(server).buffers@[self.uniform_buffer.index as int].data@
                == spec_ssao_uniform_words(
                spec_frame_matrix(
                    (self.width as int) * (FX_ONE as int),
                    (self.height as int) * (FX_ONE as int),
                ),
                spec_inverse_or_zero(projection_matrix),
                projection_matrix,
                self.kernel@,
                Vector2 {
                    x: Fx {
                        raw: fx_div_spec(
                            (self.width as int) * (FX_ONE as int),
                            (NOISE_SIZE as int) * (FX_ONE as int),
                        ) as i64,
                    },
                    y: Fx {
                        raw: fx_div_spec(
                            (self.height as int) * (FX_ONE as int),
                            (NOISE_SIZE as int) * (FX_ONE as int),
                        ) as i64,
                    },
                },
                view_matrix,
                self.radius,
            ),
            forall|bi: int|
                0 <= bi < old(server).buffers@.len() && bi != self.uniform_buffer.index ==> final(server).buffers@[bi] == old(server).buffers@[bi],
            final(server).programs == old(server).programs,
            final(server).state.bound_program == Option::Some(self.blur.program),
            final(server).state.bindings@ == seq![
                AppliedBinding::Texture {
                    texture: self.framebuffer.spec_colors()[0].texture,
                    unit: 0usize,
                },
            ],
            final(server).textures@[self.blur.framebuffer.spec_colors()[0].texture.index as int].texels@
                == old(server).textures@[self.blur.framebuffer.spec_colors()[0].texture.index as int].texels@,
            final(server).draws@.len() == old(server).draws@.len() + 2,
            forall|d: int|
                0 <= d < old(server).draws@.len() ==> final(server).draws@[d] == old(
                    server,
                ).draws@[d],
            ({
                let own = final(server).draws@[old(server).draws@.len() as int];
                &&& own.bound_program == Option::Some(self.shader.program)
                &&& own.params == (DrawParameters {
                    cull_face: Option::None,
                    color_write: ColorMask { red: true, green: true, blue: true, alpha: true },
                    depth_write: false,
                    stencil_test: Option::None,
                    depth_test: Option::None,
                    blend: Option::None,
                    stencil_op: StencilOp {
                        fail: crate::params::StencilAction::Keep,
                        zfail: crate::params::StencilAction::Keep,
                        zpass: crate::params::StencilAction::Keep,
                        write_mask: 0xFFFF_FFFFu32,
                    },
                    scissor_box: Option::None,
                })
                &&& own.bindings@ == seq![
                    AppliedBinding::Texture { texture: gbuffer_depth, unit: 0usize },
                    AppliedBinding::Texture { texture: gbuffer_normal, unit: 1usize },
                    AppliedBinding::Texture { texture: self.noise, unit: 2usize },
                    AppliedBinding::Buffer {
                        buffer: self.uniform_buffer,
                        binding_point: 0usize,
                        offset: 0usize,
                        size: 256usize,
                    },
                ]
                &&& own.viewport == (Rect {
                    x: 0i32,
                    y: 0i32,
                    w: self.width,
                    h: self.height,
                })
                &&& own.target_colors@ == seq![self.framebuffer.spec_colors()[0].texture]
                &&& own.target_depth is None
            }),
            ({
                let blurred = final(server).draws@.last();
                &&& blurred.bound_program == Option::Some(self.blur.program)
                &&& blurred.bindings@ == seq![
                    AppliedBinding::Texture {
                        texture: self.framebuffer.spec_colors()[0].texture,
                        unit: 0usize,
                    },
                ]
                &&& blurred.target_colors@ == seq![self.blur.framebuffer.spec_colors()[0].texture]
                &&& blurred.target_depth is None
            }),
    {
        let ghost srv0 = *server;
        let mut stats: RenderPassStatistics = Default::default();
        let viewport: Rect<i32> = Rect::new(0, 0, self.width, self.height);
        let wfx = Fx::from_int(self.width);
        let hfx = Fx::from_int(self.height);
        proof {
            assert(wfx.raw == (self.width as int) * (FX_ONE as int));
            assert(abs_int(wfx.raw as int) <= 0x4000_0000) by (nonlinear_arith)
                requires
                    wfx.raw == (self.width as int) * 65536,
                    1 <= self.width <= 16384,
            ;
            assert(abs_int(hfx.raw as int) <= 0x4000_0000) by (nonlinear_arith)
                requires
                    hfx.raw == (self.height as int) * 65536,
                    1 <= self.height <= 16384,
            ;
            assert(wfx.raw >= 65536) by (nonlinear_arith)
                requires
                    wfx.raw == (self.width as int) * 65536,
                    self.width >= 1,
            ;
            assert(hfx.raw >= 65536) by (nonlinear_arith)
                requires
                    hfx.raw == (self.height as int) * 65536,
                    self.height >= 1,
            ;
        }
        let ortho = Matrix4::new_orthographic(
            Fx::zero(),
            wfx,
            hfx,
            Fx::zero(),
            Fx::from_raw(-FX_ONE),
            Fx::one(),
        );
        proof {
            lemma_ortho_entry_bounds(wfx.raw as int, hfx.raw as int, ortho);
        }
        let scalemat = Matrix4::new_nonuniform_scaling(&Vector3::new(wfx, hfx, Fx::zero()));
        let frame_matrix = ortho.mul4(&scalemat);
        proof {
            assert(frame_matrix == spec_frame_matrix(wfx.raw as int, hfx.raw as int));
        }
        let inv_proj = match projection_matrix.try_inverse() {
            Option::Some(m) => m,
            Option::None => Default::default(),
        };
        self.framebuffer.clear(
            server,
            viewport,
            Option::Some(Color::from_rgba(0, 0, 0, 0)),
            Option::Some(Fx::one()),
            Option::None,
        );
        proof {
            lemma_pass_preserved_by_shape(*self, srv0, *server);
        }
        proof {
            assert((NOISE_SIZE as i64) * FX_ONE == 4 * 65536);
            assert(abs_int(wfx.raw as int) * (FX_ONE as int) <= 0x4000_0000 * 0x1_0000int)
                by (nonlinear_arith)
                requires
                    abs_int(wfx.raw as int) <= 0x4000_0000,
            ;
            assert(abs_int(hfx.raw as int) * (FX_ONE as int) <= 0x4000_0000 * 0x1_0000int)
                by (nonlinear_arith)
                requires
                    abs_int(hfx.raw as int) <= 0x4000_0000,
            ;
            crate::fixed::lemma_fx_div_in_range(wfx.raw as int, 4int * 65536);
            crate::fixed::lemma_fx_div_in_range(hfx.raw as int, 4int * 65536);
        }
        let noise_scale = Vector2::new(
            wfx.div_fx(Fx { raw: (NOISE_SIZE as i64) * FX_ONE }),
            hfx.div_fx(Fx { raw: (NOISE_SIZE as i64) * FX_ONE }),
        );
        let words = pack_frame_uniforms(
            &frame_matrix,
            &inv_proj,
            &projection_matrix,
            &self.kernel,
            noise_scale,
            &view_matrix,
            self.radius,
        );
        match server.write_buffer_data(self.uniform_buffer, words) {
            Result::Ok(_) => {},
            Result::Err(_) => {
                proof {
                    assert(false);
                }
            },
        }
        proof {
            lemma_pass_preserved_by_shape(*self, srv0, *server);
        }
        let params = DrawParameters {
            cull_face: Option::None,
            color_write: ColorMask::all(true),
            depth_write: false,
            stencil_test: Option::None,
            depth_test: Option::None,
            blend: Option::None,
            stencil_op: Default::default(),
            scissor_box: Option::None,
        };
        let bindings: [ResourceBinding; 4] = [
            ResourceBinding::texture(&gbuffer_depth, &self.shader.depth_sampler),
            ResourceBinding::texture(&gbuffer_normal, &self.shader.normal_sampler),
            ResourceBinding::texture(&self.noise, &self.shader.noise_sampler),
            ResourceBinding::Buffer {
                buffer: self.uniform_buffer,
                binding: BufferLocation::Auto { shader_location: self.shader.uniform_block_index },
                data_usage: BufferDataUsage::UseEverything,
            },
        ];
        let groups: [ResourceBindGroup; 1] = [ResourceBindGroup { bindings: &bindings }];
        proof {
            reveal_with_fuel(crate::framebuffer::spec_resolve_bindings, 6);
            reveal_with_fuel(crate::framebuffer::spec_resolve_groups, 3);
            assert(groups_view(groups@) =~= seq![bindings@]);
        }
        match self.framebuffer.draw(
            server,
            &self.quad,
            viewport,
            self.shader.program,
            &params,
            groups.as_slice(),
            ElementRange::Full,
        ) {
            Result::Ok(d) => {
                stats.accumulate(d);
            },
            Result::Err(_) => {
                proof {
                    assert(false);
                }
            },
        }
        proof {
            assert(server.draws@.last().bindings@ =~= seq![
                AppliedBinding::Texture { texture: gbuffer_depth, unit: 0usize },
                AppliedBinding::Texture { texture: gbuffer_normal, unit: 1usize },
                AppliedBinding::Texture { texture: self.noise, unit: 2usize },
                AppliedBinding::Buffer {
                    buffer: self.uniform_buffer,
                    binding_point: 0usize,
                    offset: 0usize,
                    size: 256usize,
                },
            ]);
            assert(server.draws@.last().target_colors@ =~= seq![
                self.framebuffer.spec_colors()[0].texture,
            ]);
        }
        let raw = self.raw_ao_map();
        match self.blur.render(server, raw) {
            Result::Ok(_) => {},
            Result::Err(_) => {
                proof {
                    assert(false);
                }
            },
        }
        proof {
            lemma_pass_preserved_by_shape(*self, srv0, *server);
            let occ = self.framebuffer.spec_colors()[0].texture.index as int;
            let w = self.width as int;
            let h = self.height as int;
            crate::framebuffer::lemma_att_color_index_self(self.framebuffer.spec_colors(), 0);
            assert(server.textures@[occ].texels@.len() == w * h);
            assert forall|i: int| 0 <= i < w * h implies server.textures@[occ].texels@[i] == 0u32 by {
                crate::texel::lemma_coords_index(0, w, h, i);
            }
            assert(server.textures@[occ].texels@ =~= Seq::new((w * h) as nat, |i: int| 0u32));
            assert forall|ti: int|
                0 <= ti < srv0.textures@.len() && ti != occ implies #[trigger] server.textures@[ti].texels@
                == srv0.textures@[ti].texels@ by {
                crate::framebuffer::lemma_att_color_index_miss(
                    self.framebuffer.spec_colors(),
                    ti,
                );
            }
        }
        Result::Ok(stats)
    }
}

/// The occlusion pass invariant only reads texture shapes and resource
/// descriptors, so any server evolution that keeps every texture's shape
/// and every buffer's descriptor keeps the pass well formed.
proof fn lemma_pass_preserved_by_shape(
    pass: ScreenSpaceAmbientOcclusionRenderer,
    srv0: GraphicsServer,
    srv1: GraphicsServer,
)
    requires
        pass.wf(srv0),
        srv1.textures@.len() == srv0.textures@.len(),
        forall|ti: int|
            0 <= ti < srv0.textures@.len() ==> same_shape(
                #[trigger] srv1.textures@[ti],
                srv0.textures@[ti],
            ),
        srv1.buffers@.len() == srv0.buffers@.len(),
        forall|bi: int|
            0 <= bi < srv0.buffers@.len() ==> (#[trigger] srv1.buffers@[bi]).size
                == srv0.buffers@[bi].size,
        srv1.programs == srv0.programs,
    ensures
        pass.wf(srv1),
{
    assert forall|j: int| 0 <= j < pass.framebuffer.spec_colors().len() implies {
        &&& (#[trigger] pass.framebuffer.spec_colors()[j]).texture.index < srv1.textures@.len()
        &&& pass.framebuffer.spec_colors()[j].kind == AttachmentKind::Color
        &&& srv1.textures@[pass.framebuffer.spec_colors()[j].texture.index as int].pixel_kind.spec_is_color()
    } by {
        assert(same_shape(
            srv1.textures@[pass.framebuffer.spec_colors()[j].texture.index as int],
            srv0.textures@[pass.framebuffer.spec_colors()[j].texture.index as int],
        ));
    }
    assert forall|j: int| 0 <= j < pass.blur.framebuffer.spec_colors().len() implies {
        &&& (#[trigger] pass.blur.framebuffer.spec_colors()[j]).texture.index
            < srv1.textures@.len()
        &&& pass.blur.framebuffer.spec_colors()[j].kind == AttachmentKind::Color
        &&& srv1.textures@[pass.blur.framebuffer.spec_colors()[j].texture.index as int].pixel_kind.spec_is_color()
    } by {
        assert(same_shape(
            srv1.textures@[pass.blur.framebuffer.spec_colors()[j].texture.index as int],
            srv0.textures@[pass.blur.framebuffer.spec_colors()[j].texture.index as int],
        ));
    }
    assert(same_shape(
        srv1.textures@[pass.framebuffer.spec_colors()[0].texture.index as int],
        srv0.textures@[pass.framebuffer.spec_colors()[0].texture.index as int],
    ));
    assert(same_shape(
        srv1.textures@[pass.blur.framebuffer.spec_colors()[0].texture.index as int],
        srv0.textures@[pass.blur.framebuffer.spec_colors()[0].texture.index as int],
    ));
}

/// Entry bounds of the viewport orthographic matrix: every entry stays
/// inside the dynamic range of matrix arithmetic.
proof fn lemma_ortho_entry_bounds(wf: int, hf: int, ortho: Matrix4)
    requires
        65536 <= wf <= 0x4000_0000,
        65536 <= hf <= 0x4000_0000,
        ortho.m11.raw == fx_div_spec(2 * FX_ONE, wf),
        ortho.m22.raw == fx_div_spec(2 * FX_ONE, -hf),
        ortho.m33.raw == fx_div_spec(-2 * FX_ONE, 2 * FX_ONE),
        ortho.m14.raw == fx_div_spec(-wf, wf),
        ortho.m24.raw == fx_div_spec(-hf, -hf),
        ortho.m34.raw == fx_div_spec(0, 2 * FX_ONE),
        ortho.m44.raw == FX_ONE,
        ortho.m12.raw == 0 && ortho.m13.raw == 0 && ortho.m21.raw == 0 && ortho.m23.raw == 0,
        ortho.m31.raw == 0 && ortho.m32.raw == 0 && ortho.m41.raw == 0 && ortho.m42.raw == 0,
        ortho.m43.raw == 0,
    ensures
        ortho.in_range(0x4000_0000),
{
    lemma_div_entry_small(2 * FX_ONE, wf);
    lemma_div_entry_small(2 * FX_ONE, -hf);
    lemma_div_entry_small(-2 * FX_ONE, 2 * FX_ONE);
    lemma_div_entry_small(-wf, wf);
    lemma_div_entry_small(-hf, -hf);
    lemma_div_entry_small(0, 2 * FX_ONE);
}

/// A fixed-point quotient whose divisor is at least one unit has a
/// magnitude no larger than its dividend's.
proof fn lemma_div_entry_small(a: int, b: int)
    requires
        abs_int(b) >= FX_ONE,
        abs_int(a) <= 0x4000_0000,
    ensures
        abs_int(fx_div_spec(a, b)) <= abs_int(a),
        abs_int(fx_div_spec(a, b)) <= 0x4000_0000,
{
    vstd::arithmetic::div_mod::lemma_div_is_ordered_by_denominator(
        abs_int(a) * (FX_ONE as int),
        FX_ONE as int,
        abs_int(b),
    );
    assert(abs_int(a) * (FX_ONE as int) / (FX_ONE as int) == abs_int(a)) by (nonlinear_arith);
    assert(abs_int(a) * (FX_ONE as int) >= 0) by (nonlinear_arith)
        requires
            abs_int(a) >= 0,
    ;
    assert(abs_int(a) * (FX_ONE as int) / abs_int(b) >= 0) by (nonlinear_arith)
        requires
            abs_int(a) * (FX_ONE as int) >= 0,
            abs_int(b) >= 1,
    ;
}

} // verus!
