//! The scene slice: rectangle sprites, their render-data collection, the
//! uniform staging buffer, and the mesh texture editor command.

use engine_core::algebra::{Matrix4, Vector2, Vector3};
use engine_core::color::Color;
use engine_core::commands::{SetMeshTextureCommand, TextureSet};
use engine_core::fixed::Fx;
use engine_core::geom::{Rect, TriangleDefinition};
use engine_core::pool::Pool;
use engine_core::fixed::FX_ONE;
use engine_core::rectangle::{Aabb, RdcControlFlow, RectangleBuilder, RectangleVertex,
    RenderContext, RenderPassKind, VertexAttributeUsage};
use engine_core::scene::{Base, BaseBuilder, GameSceneContext, Graph, Material, Mesh, Node, Scene,
    Surface, TextureResource};
use engine_core::uniform::StaticUniformBuffer;

fn standard_ctx() -> RenderContext {
    RenderContext {
        frustum: None,
        render_mask: 0xFFFF_FFFF,
        render_pass_kind: RenderPassKind::Standard,
        observer_position: Vector3::zeros(),
        batches: Vec::new(),
    }
}

#[test]
fn rectangle_builder_defaults() {
    let rect = RectangleBuilder::new(BaseBuilder::new()).build_rectangle();
    assert_eq!(rect.color(), Color::white());
    let uv = rect.uv_rect();
    assert_eq!((uv.x.raw, uv.y.raw, uv.w.raw, uv.h.raw), (0, 0, 65536, 65536));
    assert_eq!(rect.material().get().diffuse_texture, None);
}

#[test]
fn rectangle_setters_return_previous_values() {
    let mut rect = RectangleBuilder::new(BaseBuilder::new()).build_rectangle();
    let old = rect.set_color(Color::black());
    assert_eq!(old, Color::white());
    assert_eq!(rect.color(), Color::black());
    let old_uv = rect.set_uv_rect(Rect::new(
        Fx::from_int(0),
        Fx::from_int(0),
        Fx::from_int(2),
        Fx::from_int(2),
    ));
    assert_eq!(old_uv.w.raw, 65536);
    assert_eq!(rect.uv_rect().w, Fx::from_int(2));
}

#[test]
fn rectangle_collects_one_quad() {
    let rect = RectangleBuilder::new(BaseBuilder::new()).build_rectangle();
    let mut ctx = standard_ctx();
    let flow = rect.collect_render_data(&mut ctx);
    assert_eq!(flow, RdcControlFlow::Continue);
    assert_eq!(ctx.batches.len(), 1);
    let batch = &ctx.batches[0];
    assert_eq!(batch.vertices.len(), 4);
    // Identity transform: the corners are the unit quad's corners.
    assert_eq!(batch.vertices[0].position, Vector3 {
        x: Fx::from_raw(-32768),
        y: Fx::from_raw(32768),
        z: Fx::from_raw(0),
    });
    // The top-left vertex carries the top-right texture corner.
    assert_eq!(batch.vertices[0].tex_coord, Vector2::new(Fx::one(), Fx::from_int(0)));
    assert_eq!(
        batch.triangles,
        vec![
            TriangleDefinition { a: 0, b: 1, c: 2 },
            TriangleDefinition { a: 2, b: 3, c: 0 },
        ]
    );
}

#[test]
fn rectangle_skips_shadow_passes_and_culled_nodes() {
    let rect = RectangleBuilder::new(BaseBuilder::new()).build_rectangle();
    let mut shadow = standard_ctx();
    shadow.render_pass_kind = RenderPassKind::Shadow;
    rect.collect_render_data(&mut shadow);
    assert_eq!(shadow.batches.len(), 0);
    let mut culled = standard_ctx();
    culled.frustum = Some(Aabb {
        min: Vector3 {
            x: Fx::from_int(10),
            y: Fx::from_int(10),
            z: Fx::from_int(10),
        },
        max: Vector3 {
            x: Fx::from_int(20),
            y: Fx::from_int(20),
            z: Fx::from_int(20),
        },
    });
    rect.collect_render_data(&mut culled);
    assert_eq!(culled.batches.len(), 0);
}

#[test]
fn vertex_layout_matches_the_shader_contract() {
    let layout = RectangleVertex::layout();
    assert_eq!(layout.len(), 3);
    assert_eq!(layout[0].usage, VertexAttributeUsage::Position);
    assert_eq!(layout[0].size, 3);
    assert_eq!(layout[1].usage, VertexAttributeUsage::TexCoord0);
    assert_eq!(layout[1].shader_location, 1);
    assert_eq!(layout[2].usage, VertexAttributeUsage::Color);
    assert!(layout[2].normalized);
}

fn mesh_scene(textures: &[Option<u64>]) -> (GameSceneContext, engine_core::pool::Handle) {
    let mut graph = Graph::new();
    let surfaces: Vec<Surface> = textures
        .iter()
        .map(|t| Surface {
            material: Material {
                diffuse_texture: t.map(|id| TextureResource { id }),
            },
        })
        .collect();
    let base = BaseBuilder::new().build_base();
    let handle = graph.add_node(Node::Mesh(Mesh { base, surfaces }));
    (GameSceneContext { scene: Scene { graph } }, handle)
}

#[test]
fn set_mesh_texture_command_swaps_and_restores() {
    let (mut context, handle) = mesh_scene(&[Some(1), None, Some(3)]);
    let mut command = SetMeshTextureCommand::new(handle, TextureResource { id: 7 });
    assert_eq!(command.name(), "Set Texture");
    command.execute(&mut context);
    let surfaces = |ctx: &GameSceneContext| match ctx.scene.graph.nodes.try_borrow(handle) {
        Some(Node::Mesh(m)) => m.surfaces.clone(),
        _ => panic!("not a mesh"),
    };
    for s in surfaces(&context) {
        assert_eq!(s.material.diffuse_texture, Some(TextureResource { id: 7 }));
    }
    match &command.set {
        TextureSet::Multiple(old) => {
            assert_eq!(
                old.clone(),
                vec![
                    Some(TextureResource { id: 1 }),
                    None,
                    Some(TextureResource { id: 3 }),
                ]
            );
        }
        TextureSet::Single(_) => panic!("texture not captured"),
    }
    command.revert(&mut context);
    let restored = surfaces(&context);
    assert_eq!(restored[0].material.diffuse_texture, Some(TextureResource { id: 1 }));
    assert_eq!(restored[1].material.diffuse_texture, None);
    assert_eq!(restored[2].material.diffuse_texture, Some(TextureResource { id: 3 }));
    match &command.set {
        TextureSet::Single(t) => assert_eq!(*t, TextureResource { id: 7 }),
        TextureSet::Multiple(_) => panic!("texture not restored"),
    }
}

#[test]
fn uniform_buffer_packs_in_block_order() {
    let mut b = StaticUniformBuffer::new();
    b.push(Fx::from_raw(98304));
    // A two-component vector aligns to a two-word boundary.
    b.push_vector2(Vector2::new(Fx::one(), Fx::from_raw(-65536)));
    let words = b.finish();
    assert_eq!(words.len(), 4);
    assert_eq!(words[0], 98304);
    assert_eq!(words[1], 0);
    assert_eq!(words[2], 65536);
    assert_eq!(words[3], 0xFFFF_0000);
    let mut m = StaticUniformBuffer::new();
    m.push_matrix4(&Matrix4::identity());
    let mat_words = m.finish();
    assert_eq!(mat_words.len(), 16);
    assert_eq!(mat_words[0], 65536);
    assert_eq!(mat_words[1], 0);
    assert_eq!(mat_words[5], 65536);
    assert_eq!(mat_words[15], 65536);
}

#[test]
fn pool_handles_stay_dead_after_free() {
    let mut pool: Pool<u32> = Pool::new();
    let a = pool.spawn(10);
    let b = pool.spawn(20);
    assert_eq!(pool.alive_count(), 2);
    pool.free(a);
    assert_eq!(pool.alive_count(), 1);
    assert!(pool.try_borrow(a).is_none());
    assert_eq!(pool.try_borrow(b), Some(&20));
}

#[test]
fn world_bounding_box_follows_the_transform() {
    // Identity transform: the world box is the unit box.
    let rect = RectangleBuilder::new(BaseBuilder::new()).build_rectangle();
    let b = rect.world_bounding_box();
    assert_eq!(b.min.x.raw, -32768);
    assert_eq!(b.max.z.raw, 32768);
    // A translated sprite carries its box along.
    let mut moved = Matrix4::identity();
    moved.m14 = Fx::from_int(3);
    let shifted = RectangleBuilder::new(BaseBuilder::new().with_global_transform(moved))
        .build_rectangle();
    let sb = shifted.world_bounding_box();
    assert_eq!(sb.min.x.raw, 3 * FX_ONE - 32768);
    assert_eq!(sb.max.x.raw, 3 * FX_ONE + 32768);
}

#[test]
fn batches_record_their_contributing_node() {
    let mut graph = Graph::new();
    let handle = RectangleBuilder::new(BaseBuilder::new()).build(&mut graph);
    let rect = match graph.nodes.try_borrow(handle) {
        Some(Node::Rectangle(r)) => r,
        _ => panic!("not a rectangle"),
    };
    let mut ctx = standard_ctx();
    rect.collect_render_data(&mut ctx);
    assert_eq!(ctx.batches[0].node, handle);
    // All four texture corners are pinned, including the bottom pair.
    assert_eq!(ctx.batches[0].vertices[2].tex_coord, Vector2::new(Fx::from_int(0), Fx::one()));
    assert_eq!(ctx.batches[0].vertices[3].tex_coord, Vector2::new(Fx::one(), Fx::one()));
}
