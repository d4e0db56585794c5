//! The deferred point-light shader wrapper: compiles the program once and
//! eagerly resolves every sampler and block location it needs.
//! Construction is atomic: it either yields a fully resolved shader or
//! fails without leaving a partial one behind.

use vstd::prelude::*;
use crate::error::FrameworkError;
use crate::gpu_program::{ProgramId, UniformLocation};
use crate::server::GraphicsServer;

verus! {

/// The compiled point-light program with its resolved bind points.
#[derive(Clone, Copy, Debug)]
pub struct PointLightShader {
    /// The compiled program.
    pub program: ProgramId,
    /// Scene depth sampler.
    pub depth_sampler: UniformLocation,
    /// Albedo sampler.
    pub color_sampler: UniformLocation,
    /// Normal sampler.
    pub normal_sampler: UniformLocation,
    /// Material property sampler.
    pub material_sampler: UniformLocation,
    /// Cube shadow map sampler.
    pub point_shadow_texture: UniformLocation,
    /// Index of the frame uniform block.
    pub uniform_buffer_binding: usize,
}

impl PointLightShader {
    /// Compiles the point-light program and resolves its five samplers
    /// and its uniform block. Never leaves a partial shader: on this
    /// backend the embedded sources compile, every lookup succeeds, and
    /// the handles come out in reflection order.
    pub fn new(server: &mut GraphicsServer) -> (r: Result<PointLightShader, FrameworkError>)
        requires
            old(server).wf(),
        ensures
            final(server).wf(),
            final(server).textures == old(server).textures,
            final(server).buffers == old(server).buffers,
            final(server).state == old(server).state,
            final(server).draws == old(server).draws,
            match r {
                Result::Ok(s) => {
                    &&& s.program.index == old(server).programs@.len()
                    &&& final(server).programs@.len() == old(server).programs@.len() + 1
                    &&& forall|i: int|
                        0 <= i < old(server).programs@.len() ==> final(server).programs@[i] == old(
                            server,
                        ).programs@[i]
                    &&& final(server).programs@[s.program.index as int].samplers@.len() == 5
                    &&& final(server).programs@[s.program.index as int].blocks@.len() == 1
                    &&& s.depth_sampler == (UniformLocation { program: s.program, index: 0 })
                    &&& s.color_sampler == (UniformLocation { program: s.program, index: 1 })
                    &&& s.normal_sampler == (UniformLocation { program: s.program, index: 2 })
                    &&& s.material_sampler == (UniformLocation { program: s.program, index: 3 })
                    &&& s.point_shadow_texture == (UniformLocation { program: s.program, index: 4 })
                    &&& s.uniform_buffer_binding == 0
                    &&& final(server).programs@[s.program.index as int].name@
                        == "PointLightShader"@
                    &&& crate::gpu_program::names_view(
                        final(server).programs@[s.program.index as int].samplers@,
                    ) == seq![
                        "depthTexture"@,
                        "colorTexture"@,
                        "normalTexture"@,
                        "materialTexture"@,
                        "pointShadowTexture"@,
                    ]
                    &&& crate::gpu_program::names_view(
                        final(server).programs@[s.program.index as int].blocks@,
                    ) == seq!["Uniforms"@]
                },
                Result::Err(_) => false,
            },
    {
        let vertex_source = "layout (location = 0) in vec3 vertexPosition; uniform Uniforms { mat4 worldViewProjection; }; void main() { gl_Position = worldViewProjection * vec4(vertexPosition, 1.0); }";
        let fragment_source = "uniform sampler2D depthTexture; uniform sampler2D colorTexture; uniform sampler2D normalTexture; uniform sampler2D materialTexture; uniform samplerCube pointShadowTexture; out vec4 FragColor; void main() { FragColor = vec4(0.0); }";
        let mut samplers: Vec<String> = Vec::new();
        samplers.push("depthTexture".to_owned());
        samplers.push("colorTexture".to_owned());
        samplers.push("normalTexture".to_owned());
        samplers.push("materialTexture".to_owned());
        samplers.push("pointShadowTexture".to_owned());
        let mut blocks: Vec<String> = Vec::new();
        blocks.push("Uniforms".to_owned());
        proof {
            reveal_strlit("depthTexture");
            reveal_strlit("colorTexture");
            reveal_strlit("normalTexture");
            reveal_strlit("materialTexture");
            reveal_strlit("pointShadowTexture");
            reveal_strlit("Uniforms");
            reveal_strlit(
                "layout (location = 0) in vec3 vertexPosition; uniform Uniforms { mat4 worldViewProjection; }; void main() { gl_Position = worldViewProjection * vec4(vertexPosition, 1.0); }",
            );
            reveal_strlit(
                "uniform sampler2D depthTexture; uniform sampler2D colorTexture; uniform sampler2D normalTexture; uniform sampler2D materialTexture; uniform samplerCube pointShadowTexture; out vec4 FragColor; void main() { FragColor = vec4(0.0); }",
            );
            reveal_with_fuel(crate::gpu_program::spec_name_index, 8);
            assert("depthTexture"@ != "colorTexture"@) by {
                assert("depthTexture"@[0] == 'd');
                assert("colorTexture"@[0] == 'c');
            }
            assert("depthTexture"@ != "normalTexture"@) by {
                assert("depthTexture"@[0] == 'd');
                assert("normalTexture"@[0] == 'n');
            }
            assert("depthTexture"@ != "materialTexture"@) by {
                assert("depthTexture"@[0] == 'd');
                assert("materialTexture"@[0] == 'm');
            }
            assert("depthTexture"@ != "pointShadowTexture"@) by {
                assert("depthTexture"@[0] == 'd');
                assert("pointShadowTexture"@[0] == 'p');
            }
            assert("colorTexture"@ != "normalTexture"@) by {
                assert("colorTexture"@[0] == 'c');
                assert("normalTexture"@[0] == 'n');
            }
            assert("colorTexture"@ != "materialTexture"@) by {
                assert("colorTexture"@[0] == 'c');
                assert("materialTexture"@[0] == 'm');
            }
            assert("colorTexture"@ != "pointShadowTexture"@) by {
                assert("colorTexture"@[0] == 'c');
                assert("pointShadowTexture"@[0] == 'p');
            }
            assert("normalTexture"@ != "materialTexture"@) by {
                assert("normalTexture"@[0] == 'n');
                assert("materialTexture"@[0] == 'm');
            }
            assert("normalTexture"@ != "pointShadowTexture"@) by {
                assert("normalTexture"@[0] == 'n');
                assert("pointShadowTexture"@[0] == 'p');
            }
            assert("materialTexture"@ != "pointShadowTexture"@) by {
                assert("materialTexture"@[0] == 'm');
                assert("pointShadowTexture"@[0] == 'p');
            }
        }
        let program = match server.create_program(
            "PointLightShader",
            vertex_source,
            fragment_source,
            samplers,
            blocks,
        ) {
            Result::Ok(p) => p,
            Result::Err(e) => {
                proof {
                    assert(false);
                }
                return Result::Err(e);
            },
        };
        let depth_sampler = match server.uniform_location(program, "depthTexture") {
            Result::Ok(l) => l,
            Result::Err(e) => {
                proof {
                    assert(false);
                }
                return Result::Err(e);
            },
        };
        let color_sampler = match server.uniform_location(program, "colorTexture") {
            Result::Ok(l) => l,
            Result::Err(e) => {
                proof {
                    assert(false);
                }
                return Result::Err(e);
            },
        };
        let normal_sampler = match server.uniform_location(program, "normalTexture") {
            Result::Ok(l) => l,
            Result::Err(e) => {
                proof {
                    assert(false);
                }
                return Result::Err(e);
            },
        };
        let material_sampler = match server.uniform_location(program, "materialTexture") {
            Result::Ok(l) => l,
            Result::Err(e) => {
                proof {
                    assert(false);
                }
                return Result::Err(e);
            },
        };
        let point_shadow_texture = match server.uniform_location(program, "pointShadowTexture") {
            Result::Ok(l) => l,
            Result::Err(e) => {
                proof {
                    assert(false);
                }
                return Result::Err(e);
            },
        };
        let uniform_buffer_binding = match server.uniform_block_index(program, "Uniforms") {
            Result::Ok(i) => i,
            Result::Err(e) => {
                proof {
                    assert(false);
                }
                return Result::Err(e);
            },
        };
        proof {
            assert(crate::gpu_program::names_view(
                server.programs@[program.index as int].samplers@,
            ) =~= seq![
                "depthTexture"@,
                "colorTexture"@,
                "normalTexture"@,
                "materialTexture"@,
                "pointShadowTexture"@,
            ]);
            assert(crate::gpu_program::names_view(
                server.programs@[program.index as int].blocks@,
            ) =~= seq!["Uniforms"@]);
        }
        Result::Ok(
            PointLightShader {
                program,
                depth_sampler,
                color_sampler,
                normal_sampler,
                material_sampler,
                point_shadow_texture,
                uniform_buffer_binding,
            },
        )
    }
}

} // verus!
