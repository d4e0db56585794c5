//! The rectangle sprite node: the simplest two-dimensional drawable, a
//! unit quad with a color, a texture sub-region and a material, collected
//! into render batches each frame.

use vstd::prelude::*;
use crate::algebra::{Matrix4, Vector2, Vector3};
use crate::color::Color;
use crate::fixed::{abs_int, Fx, FX_ONE};
use crate::geom::{Rect, TriangleDefinition};
use crate::pool::Handle;
use crate::scene::{Base, BaseBuilder, Graph, InheritableVariable, Material, MaterialResource,
    Node};

verus! {

/// How a vertex attribute is consumed.
#[derive(Clone, Copy, Debug, PartialEq, Eq, Structural)]
pub enum VertexAttributeUsage {
    /// Object-space position.
    Position,
    /// First texture coordinate set.
    TexCoord0,
    /// Vertex color.
    Color,
}

/// Scalar type of a vertex attribute.
#[derive(Clone, Copy, Debug, PartialEq, Eq, Structural)]
pub enum VertexAttributeDataType {
    /// One 32-bit scalar per component.
    F32,
    /// One byte per component.
    U8,
}

/// One attribute of a vertex layout.
#[derive(Clone, Copy, Debug, PartialEq, Eq, Structural)]
pub struct VertexAttributeDescriptor {
    /// What the attribute feeds.
    pub usage: VertexAttributeUsage,
    /// Scalar type.
    pub data_type: VertexAttributeDataType,
    /// Component count.
    pub size: u8,
    /// Instancing divisor; zero for per-vertex data.
    pub divisor: u8,
    /// Shader input slot.
    pub shader_location: u8,
    /// Whether integer data is normalized on read.
    pub normalized: bool,
}

/// A vertex of a rectangle batch.
#[derive(Clone, Copy, Debug, PartialEq, Eq, Structural)]
pub struct RectangleVertex {
    /// Position in world space.
    pub position: Vector3,
    /// Texture coordinates.
    pub tex_coord: Vector2,
    /// Diffuse color.
    pub color: Color,
}

impl RectangleVertex {
    /// The attribute layout of a rectangle vertex: position, texture
    /// coordinates, and a normalized byte color, in shader location
    /// order.
    pub fn layout() -> (r: Vec<VertexAttributeDescriptor>)
        ensures
            r@ == seq![
                VertexAttributeDescriptor {
                    usage: VertexAttributeUsage::Position,
                    data_type: VertexAttributeDataType::F32,
                    size: 3u8,
                    divisor: 0u8,
                    shader_location: 0u8,
                    normalized: false,
                },
                VertexAttributeDescriptor {
                    usage: VertexAttributeUsage::TexCoord0,
                    data_type: VertexAttributeDataType::F32,
                    size: 2u8,
                    divisor: 0u8,
                    shader_location: 1u8,
                    normalized: false,
                },
                VertexAttributeDescriptor {
                    usage: VertexAttributeUsage::Color,
                    data_type: VertexAttributeDataType::U8,
                    size: 4u8,
                    divisor: 0u8,
                    shader_location: 2u8,
                    normalized: true,
                },
            ],
    {
        let mut r: Vec<VertexAttributeDescriptor> = Vec::new();
        r.push(
            VertexAttributeDescriptor {
                usage: VertexAttributeUsage::Position,
                data_type: VertexAttributeDataType::F32,
                size: 3,
                divisor: 0,
                shader_location: 0,
                normalized: false,
            },
        );
        r.push(
            VertexAttributeDescriptor {
                usage: VertexAttributeUsage::TexCoord0,
                data_type: VertexAttributeDataType::F32,
                size: 2,
                divisor: 0,
                shader_location: 1,
                normalized: false,
            },
        );
        r.push(
            VertexAttributeDescriptor {
                usage: VertexAttributeUsage::Color,
                data_type: VertexAttributeDataType::U8,
                size: 4,
                divisor: 0,
                shader_location: 2,
                normalized: true,
            },
        );
        proof {
            assert(r@ =~= seq![
                VertexAttributeDescriptor {
                    usage: VertexAttributeUsage::Position,
                    data_type: VertexAttributeDataType::F32,
                    size: 3u8,
                    divisor: 0u8,
                    shader_location: 0u8,
                    normalized: false,
                },
                VertexAttributeDescriptor {
                    usage: VertexAttributeUsage::TexCoord0,
                    data_type: VertexAttributeDataType::F32,
                    size: 2u8,
                    divisor: 0u8,
                    shader_location: 1u8,
                    normalized: false,
                },
                VertexAttributeDescriptor {
                    usage: VertexAttributeUsage::Color,
                    data_type: VertexAttributeDataType::U8,
                    size: 4u8,
                    divisor: 0u8,
                    shader_location: 2u8,
                    normalized: true,
                },
            ]);
        }
        r
    }
}

/// An axis-aligned box in world space.
#[derive(Clone, Copy, Debug, PartialEq, Eq, Structural)]
pub struct Aabb {
    /// Smallest corner.
    pub min: Vector3,
    /// Largest corner.
    pub max: Vector3,
}

/// True when two boxes overlap on every axis.
pub open spec fn spec_aabb_intersects(a: Aabb, b: Aabb) -> bool {
    &&& a.min.x.raw <= b.max.x.raw && b.min.x.raw <= a.max.x.raw
    &&& a.min.y.raw <= b.max.y.raw && b.min.y.raw <= a.max.y.raw
    &&& a.min.z.raw <= b.max.z.raw && b.min.z.raw <= a.max.z.raw
}

impl Aabb {
    /// True when the boxes overlap on every axis.
    pub fn intersects(&self, o: &Aabb) -> (r: bool)
        ensures
            r == spec_aabb_intersects(*self, *o),
    {
        self.min.x.raw <= o.max.x.raw && o.min.x.raw <= self.max.x.raw && self.min.y.raw
            <= o.max.y.raw && o.min.y.raw <= self.max.y.raw && self.min.z.raw <= o.max.z.raw
            && o.min.z.raw <= self.max.z.raw
    }
}

/// Which render pass is collecting data.
#[derive(Clone, Copy, Debug, PartialEq, Eq, Structural)]
pub enum RenderPassKind {
    /// A standard color pass.
    Standard,
    /// A shadow map pass; sprites do not cast shadows.
    Shadow,
}

/// Whether collection continues with the next node.
#[derive(Clone, Copy, Debug, PartialEq, Eq, Structural)]
pub enum RdcControlFlow {
    /// Continue with the next node.
    Continue,
    /// Stop collecting.
    Break,
}

/// How a batch is composited.
#[derive(Clone, Copy, Debug, PartialEq, Eq, Structural)]
pub enum RenderPath {
    /// Deferred shading.
    Deferred,
    /// Forward shading.
    Forward,
}

/// One batch a node contributed: its vertices, triangles and material.
#[derive(Debug)]
pub struct SurfaceBatch {
    /// The vertices.
    pub vertices: Vec<RectangleVertex>,
    /// The triangles, as indices into `vertices`.
    pub triangles: Vec<TriangleDefinition>,
    /// The material the batch is drawn with.
    pub material: Material,
    /// How the batch is composited.
    pub render_path: RenderPath,
    /// Back-to-front ordering key.
    pub sort_index: u64,
    /// The node that contributed the batch.
    pub node: Handle,
}

/// What a render pass hands each node while collecting draw data.
#[derive(Debug)]
pub struct RenderContext {
    /// Culling volume, if the pass culls.
    pub frustum: Option<Aabb>,
    /// Mask anded against each node's render mask.
    pub render_mask: u32,
    /// Which pass is collecting.
    pub render_pass_kind: RenderPassKind,
    /// Observer position, for depth sorting.
    pub observer_position: Vector3,
    /// The collected batches.
    pub batches: Vec<SurfaceBatch>,
}

/// The sorting key of a point: its coordinate distance from the observer,
/// summed over the axes.
pub open spec fn spec_sorting_index(observer: Vector3, position: Vector3) -> int {
    abs_int(position.x.raw - observer.x.raw) + abs_int(position.y.raw - observer.y.raw) + abs_int(
        position.z.raw - observer.z.raw,
    )
}

impl RenderContext {
    /// The sorting key of a point: its coordinate distance from the
    /// observer, summed over the axes.
    pub fn calculate_sorting_index(&self, position: Vector3) -> (r: u64)
        requires
            abs_int(position.x.raw as int) <= 0x4000_0000_0000,
            abs_int(position.y.raw as int) <= 0x4000_0000_0000,
            abs_int(position.z.raw as int) <= 0x4000_0000_0000,
            abs_int(self.observer_position.x.raw as int) <= 0x4000_0000_0000,
            abs_int(self.observer_position.y.raw as int) <= 0x4000_0000_0000,
            abs_int(self.observer_position.z.raw as int) <= 0x4000_0000_0000,
        ensures
            r == spec_sorting_index(self.observer_position, position),
    {
        let dx: i64 = position.x.raw - self.observer_position.x.raw;
        let dy: i64 = position.y.raw - self.observer_position.y.raw;
        let dz: i64 = position.z.raw - self.observer_position.z.raw;
        let ax: u64 = if dx < 0 {
            (-dx) as u64
        } else {
            dx as u64
        };
        let ay: u64 = if dy < 0 {
            (-dy) as u64
        } else {
            dy as u64
        };
        let az: u64 = if dz < 0 {
            (-dz) as u64
        } else {
            dz as u64
        };
        ax + ay + az
    }

    /// Appends one batch.
    pub fn push_triangles(
        &mut self,
        vertices: Vec<RectangleVertex>,
        triangles: Vec<TriangleDefinition>,
        material: Material,
        render_path: RenderPath,
        sort_index: u64,
        node: Handle,
    )
        ensures
            final(self).batches@.len() == old(self).batches@.len() + 1,
            forall|i: int|
                0 <= i < old(self).batches@.len() ==> final(self).batches@[i] == old(
                    self,
                ).batches@[i],
            final(self).batches@.last().vertices@ == vertices@,
            final(self).batches@.last().triangles@ == triangles@,
            final(self).batches@.last().material == material,
            final(self).batches@.last().render_path == render_path,
            final(self).batches@.last().sort_index == sort_index,
            final(self).batches@.last().node == node,
            final(self).frustum == old(self).frustum,
            final(self).render_mask == old(self).render_mask,
            final(self).render_pass_kind == old(self).render_pass_kind,
    {
        self.batches.push(
            SurfaceBatch { vertices, triangles, material, render_path, sort_index, node },
        );
    }
}

/// The rectangle sprite: a unit quad with a color, a normalized texture
/// sub-region, and a material.
#[derive(Debug)]
pub struct Rectangle {
    /// Shared node state.
    pub base: Base,
    /// Sprite color.
    pub color: InheritableVariable<Color>,
    /// Normalized texture sub-region; may exceed the unit square for
    /// tiling.
    pub uv_rect: InheritableVariable<Rect<Fx>>,
    /// Sprite material.
    pub material: InheritableVariable<MaterialResource>,
}

/// The corner of the unit quad that vertex `k` uses, in object space.
pub open spec fn spec_quad_corner(k: int) -> Vector3 {
    let half = Fx { raw: 32768i64 };
    let neg_half = Fx { raw: -32768i64 };
    let zero = Fx { raw: 0i64 };
    if k == 0 {
        Vector3 { x: neg_half, y: half, z: zero }
    } else if k == 1 {
        Vector3 { x: half, y: half, z: zero }
    } else if k == 2 {
        Vector3 { x: half, y: neg_half, z: zero }
    } else {
        Vector3 { x: neg_half, y: neg_half, z: zero }
    }
}

impl Rectangle {
    /// The sprite color.
    pub fn color(&self) -> (c: Color)
        ensures
            c == self.color.value,
    {
        *self.color.get()
    }

    /// Read access to the sprite material.
    pub fn material(&self) -> (m: &InheritableVariable<MaterialResource>)
        ensures
            *m == self.material,
    {
        &self.material
    }

    /// Exchanges the sprite material for a new one, returning the old
    /// one: the mutation access to the shared material slot.
    pub fn material_mut(&mut self, material: MaterialResource) -> (prev: MaterialResource)
        ensures
            prev == old(self).material.value,
            *final(self) == (Rectangle { material: final(self).material, ..*old(self) }),
            final(self).material == (InheritableVariable { value: material, modified: true }),
    {
        self.material.set_value_and_mark_modified(material)
    }

    /// Recolors the sprite, returning the previous color.
    pub fn set_color(&mut self, color: Color) -> (prev: Color)
        ensures
            prev == old(self).color.value,
            *final(self) == (Rectangle { color: final(self).color, ..*old(self) }),
            final(self).color == (InheritableVariable { value: color, modified: true }),
    {
        self.color.set_value_and_mark_modified(color)
    }

    /// The normalized texture sub-region.
    pub fn uv_rect(&self) -> (r: Rect<Fx>)
        ensures
            r == self.uv_rect.value,
    {
        *self.uv_rect.get()
    }

    /// Replaces the texture sub-region, returning the previous one.
    pub fn set_uv_rect(&mut self, uv_rect: Rect<Fx>) -> (prev: Rect<Fx>)
        ensures
            prev == old(self).uv_rect.value,
            *final(self) == (Rectangle { uv_rect: final(self).uv_rect, ..*old(self) }),
            final(self).uv_rect == (InheritableVariable { value: uv_rect, modified: true }),
    {
        self.uv_rect.set_value_and_mark_modified(uv_rect)
    }

    /// The unit box around the sprite in object space.
    pub fn local_bounding_box(&self) -> (b: Aabb)
        ensures
            b.min == (Vector3 {
                x: Fx { raw: -32768i64 },
                y: Fx { raw: -32768i64 },
                z: Fx { raw: -32768i64 },
            }),
            b.max == (Vector3 {
                x: Fx { raw: 32768i64 },
                y: Fx { raw: 32768i64 },
                z: Fx { raw: 32768i64 },
            }),
    {
        Aabb {
            min: Vector3 {
                x: Fx { raw: -32768 },
                y: Fx { raw: -32768 },
                z: Fx { raw: -32768 },
            },
            max: Vector3 { x: Fx { raw: 32768 }, y: Fx { raw: 32768 }, z: Fx { raw: 32768 } },
        }
    }

    /// True when the node takes part in this pass: it is visible, its
    /// mask meets the pass's, and its position lies inside the culling
    /// volume when the pass has one.
    pub fn should_be_rendered(&self, frustum: &Option<Aabb>, render_mask: u32) -> (r: bool)
        ensures
            r == (self.base.visibility && (self.base.render_mask & render_mask) != 0 && (
            match frustum {
                Option::Some(f) => {
                    &&& f.min.x.raw <= self.base.global_transform.m14.raw <= f.max.x.raw
                    &&& f.min.y.raw <= self.base.global_transform.m24.raw <= f.max.y.raw
                    &&& f.min.z.raw <= self.base.global_transform.m34.raw <= f.max.z.raw
                },
                Option::None => true,
            })),
    {
        if !self.base.visibility {
            return false;
        }
        if self.base.render_mask & render_mask == 0 {
            return false;
        }
        match frustum {
            Option::Some(f) => {
                let p = self.base.global_position();
                f.min.x.raw <= p.x.raw && p.x.raw <= f.max.x.raw && f.min.y.raw <= p.y.raw
                    && p.y.raw <= f.max.y.raw && f.min.z.raw <= p.z.raw && p.z.raw <= f.max.z.raw
            },
            Option::None => true,
        }
    }

    /// Contributes the sprite's quad to the pass: culled or shadow passes
    /// get nothing; otherwise one batch is appended holding the four
    /// world-space corners (each carrying its texture corner and the
    /// sprite color) and the quad's two triangles, sorted by observer
    /// distance.
    pub fn collect_render_data(&self, ctx: &mut RenderContext) -> (flow: RdcControlFlow)
        requires
            self.base.global_transform.in_range(0x4000_0000),
            abs_int(self.base.global_transform.m14.raw as int) <= 0x4000_0000_0000,
            abs_int(self.base.global_transform.m24.raw as int) <= 0x4000_0000_0000,
            abs_int(self.base.global_transform.m34.raw as int) <= 0x4000_0000_0000,
            abs_int(old(ctx).observer_position.x.raw as int) <= 0x4000_0000_0000,
            abs_int(old(ctx).observer_position.y.raw as int) <= 0x4000_0000_0000,
            abs_int(old(ctx).observer_position.z.raw as int) <= 0x4000_0000_0000,
            i64::MIN <= self.uv_rect.value.x.raw + self.uv_rect.value.w.raw <= i64::MAX,
            i64::MIN <= self.uv_rect.value.y.raw + self.uv_rect.value.h.raw <= i64::MAX,
        ensures
            flow == RdcControlFlow::Continue,
            ({
                let visible = self.base.visibility && (self.base.render_mask
                    & old(ctx).render_mask) != 0 && (match old(ctx).frustum {
                    Option::Some(f) => {
                        &&& f.min.x.raw <= self.base.global_transform.m14.raw <= f.max.x.raw
                        &&& f.min.y.raw <= self.base.global_transform.m24.raw <= f.max.y.raw
                        &&& f.min.z.raw <= self.base.global_transform.m34.raw <= f.max.z.raw
                    },
                    Option::None => true,
                });
                if !visible || old(ctx).render_pass_kind == RenderPassKind::Shadow {
                    *final(ctx) == *old(ctx)
                } else {
                    &&& final(ctx).batches@.len() == old(ctx).batches@.len() + 1
                    &&& (forall|i: int|
                        0 <= i < old(ctx).batches@.len() ==> final(ctx).batches@[i] == old(
                            ctx,
                        ).batches@[i])
                    &&& final(ctx).batches@.last().vertices@.len() == 4
                    &&& (forall|k: int|
                        0 <= k < 4 ==> (#[trigger] final(ctx).batches@.last().vertices@[k]).position
                            == self.base.global_transform.spec_transform_point(
                            spec_quad_corner(k),
                        ))
                    &&& (forall|k: int|
                        0 <= k < 4 ==> (#[trigger] final(ctx).batches@.last().vertices@[k]).color
                            == self.color.value)
                    &&& final(ctx).batches@.last().vertices@[0].tex_coord == (Vector2 {
                        x: Fx {
                            raw: (self.uv_rect.value.x.raw + self.uv_rect.value.w.raw) as i64,
                        },
                        y: self.uv_rect.value.y,
                    })
                    &&& final(ctx).batches@.last().vertices@[1].tex_coord == (Vector2 {
                        x: self.uv_rect.value.x,
                        y: self.uv_rect.value.y,
                    })
                    &&& final(ctx).batches@.last().vertices@[2].tex_coord == (Vector2 {
                        x: self.uv_rect.value.x,
                        y: Fx {
                            raw: (self.uv_rect.value.y.raw + self.uv_rect.value.h.raw) as i64,
                        },
                    })
                    &&& final(ctx).batches@.last().vertices@[3].tex_coord == (Vector2 {
                        x: Fx {
                            raw: (self.uv_rect.value.x.raw + self.uv_rect.value.w.raw) as i64,
                        },
                        y: Fx {
                            raw: (self.uv_rect.value.y.raw + self.uv_rect.value.h.raw) as i64,
                        },
                    })
                    &&& final(ctx).batches@.last().node == self.base.handle
                    &&& final(ctx).batches@.last().triangles@ == seq![
                        TriangleDefinition { a: 0u32, b: 1u32, c: 2u32 },
                        TriangleDefinition { a: 2u32, b: 3u32, c: 0u32 },
                    ]
                    &&& final(ctx).batches@.last().material == self.material.value
                    &&& final(ctx).batches@.last().render_path == RenderPath::Forward
                    &&& final(ctx).batches@.last().sort_index == spec_sorting_index(
                        old(ctx).observer_position,
                        Vector3 {
                            x: self.base.global_transform.m14,
                            y: self.base.global_transform.m24,
                            z: self.base.global_transform.m34,
                        },
                    )
                }
            }),
    {
        if !self.should_be_rendered(&ctx.frustum, ctx.render_mask) {
            return RdcControlFlow::Continue;
        }
        if matches!(ctx.render_pass_kind, RenderPassKind::Shadow) {
            return RdcControlFlow::Continue;
        }
        let global_transform = self.base.global_transform();
        let half = Fx { raw: 32768 };
        let neg_half = Fx { raw: -32768 };
        let zero = Fx { raw: 0 };
        let uv = *self.uv_rect.get();
        let c = *self.color.get();
        let mut vertices: Vec<RectangleVertex> = Vec::new();
        vertices.push(
            RectangleVertex {
                position: global_transform.transform_point(
                    &Vector3 { x: neg_half, y: half, z: zero },
                ),
                tex_coord: uv.right_top_corner(),
                color: c,
            },
        );
        vertices.push(
            RectangleVertex {
                position: global_transform.transform_point(
                    &Vector3 { x: half, y: half, z: zero },
                ),
                tex_coord: uv.left_top_corner(),
                color: c,
            },
        );
        vertices.push(
            RectangleVertex {
                position: global_transform.transform_point(
                    &Vector3 { x: half, y: neg_half, z: zero },
                ),
                tex_coord: uv.left_bottom_corner(),
                color: c,
            },
        );
        vertices.push(
            RectangleVertex {
                position: global_transform.transform_point(
                    &Vector3 { x: neg_half, y: neg_half, z: zero },
                ),
                tex_coord: uv.right_bottom_corner(),
                color: c,
            },
        );
        let mut triangles: Vec<TriangleDefinition> = Vec::new();
        triangles.push(TriangleDefinition { a: 0, b: 1, c: 2 });
        triangles.push(TriangleDefinition { a: 2, b: 3, c: 0 });
        let sort_index = ctx.calculate_sorting_index(self.base.global_position());
        proof {
            assert(triangles@ =~= seq![
                TriangleDefinition { a: 0u32, b: 1u32, c: 2u32 },
                TriangleDefinition { a: 2u32, b: 3u32, c: 0u32 },
            ]);
        }
        ctx.push_triangles(
            vertices,
            triangles,
            *self.material.get(),
            RenderPath::Forward,
            sort_index,
            self.base.handle,
        );
        RdcControlFlow::Continue
    }
}

impl Default for Rectangle {
    /// The default sprite: neutral shared state, white, the whole
    /// texture, the standard two-dimensional material.
    fn default() -> (r: Rectangle)
        ensures
            r.base.global_transform == Matrix4::spec_identity(),
            r.base.visibility == true,
            r.color.value == (Color { r: 255u8, g: 255u8, b: 255u8, a: 255u8 }),
            r.uv_rect.value == (Rect {
                x: Fx { raw: 0i64 },
                y: Fx { raw: 0i64 },
                w: Fx { raw: 65536i64 },
                h: Fx { raw: 65536i64 },
            }),
            r.material.value == (Material { diffuse_texture: Option::<
                crate::scene::TextureResource,
            >::None }),
    {
        RectangleBuilder::new(BaseBuilder::new()).build_rectangle()
    }
}

/// The smaller of two raw counts.
pub open spec fn fx_min2(a: int, b: int) -> int {
    if a <= b {
        a
    } else {
        b
    }
}

/// The larger of two raw counts.
pub open spec fn fx_max2(a: int, b: int) -> int {
    if a >= b {
        a
    } else {
        b
    }
}

/// The smaller of two raw counts.
fn min_raw(a: i64, b: i64) -> (r: i64)
    ensures
        r == fx_min2(a as int, b as int),
{
    if a <= b {
        a
    } else {
        b
    }
}

/// The larger of two raw counts.
fn max_raw(a: i64, b: i64) -> (r: i64)
    ensures
        r == fx_max2(a as int, b as int),
{
    if a >= b {
        a
    } else {
        b
    }
}

/// Corner `k` of the unit box around the origin, in object space.
pub open spec fn spec_unit_box_corner(k: int) -> Vector3 {
    let half = Fx { raw: 32768i64 };
    let neg_half = Fx { raw: -32768i64 };
    Vector3 {
        x: if k % 2 == 0 {
            neg_half
        } else {
            half
        },
        y: if (k / 2) % 2 == 0 {
            neg_half
        } else {
            half
        },
        z: if (k / 4) % 2 == 0 {
            neg_half
        } else {
            half
        },
    }
}

impl Rectangle {
    /// The world-space box around the sprite: the componentwise smallest
    /// and largest coordinates of the unit box's eight corners after the
    /// world transform.
    pub fn world_bounding_box(&self) -> (b: Aabb)
        requires
            self.base.global_transform.in_range(0x4000_0000),
        ensures
            ({
                let m = self.base.global_transform;
                let t0 = m.spec_transform_point(spec_unit_box_corner(0));
                let t1 = m.spec_transform_point(spec_unit_box_corner(1));
                let t2 = m.spec_transform_point(spec_unit_box_corner(2));
                let t3 = m.spec_transform_point(spec_unit_box_corner(3));
                let t4 = m.spec_transform_point(spec_unit_box_corner(4));
                let t5 = m.spec_transform_point(spec_unit_box_corner(5));
                let t6 = m.spec_transform_point(spec_unit_box_corner(6));
                let t7 = m.spec_transform_point(spec_unit_box_corner(7));
                &&& b.min.x.raw == fx_min2(
                    fx_min2(
                        fx_min2(t0.x.raw as int, t1.x.raw as int),
                        fx_min2(t2.x.raw as int, t3.x.raw as int),
                    ),
                    fx_min2(
                        fx_min2(t4.x.raw as int, t5.x.raw as int),
                        fx_min2(t6.x.raw as int, t7.x.raw as int),
                    ),
                )
                &&& b.min.y.raw == fx_min2(
                    fx_min2(
                        fx_min2(t0.y.raw as int, t1.y.raw as int),
                        fx_min2(t2.y.raw as int, t3.y.raw as int),
                    ),
                    fx_min2(
                        fx_min2(t4.y.raw as int, t5.y.raw as int),
                        fx_min2(t6.y.raw as int, t7.y.raw as int),
                    ),
                )
                &&& b.min.z.raw == fx_min2(
                    fx_min2(
                        fx_min2(t0.z.raw as int, t1.z.raw as int),
                        fx_min2(t2.z.raw as int, t3.z.raw as int),
                    ),
                    fx_min2(
                        fx_min2(t4.z.raw as int, t5.z.raw as int),
                        fx_min2(t6.z.raw as int, t7.z.raw as int),
                    ),
                )
                &&& b.max.x.raw == fx_max2(
                    fx_max2(
                        fx_max2(t0.x.raw as int, t1.x.raw as int),
                        fx_max2(t2.x.raw as int, t3.x.raw as int),
                    ),
                    fx_max2(
                        fx_max2(t4.x.raw as int, t5.x.raw as int),
                        fx_max2(t6.x.raw as int, t7.x.raw as int),
                    ),
                )
                &&& b.max.y.raw == fx_max2(
                    fx_max2(
                        fx_max2(t0.y.raw as int, t1.y.raw as int),
                        fx_max2(t2.y.raw as int, t3.y.raw as int),
                    ),
                    fx_max2(
                        fx_max2(t4.y.raw as int, t5.y.raw as int),
                        fx_max2(t6.y.raw as int, t7.y.raw as int),
                    ),
                )
                &&& b.max.z.raw == fx_max2(
                    fx_max2(
                        fx_max2(t0.z.raw as int, t1.z.raw as int),
                        fx_max2(t2.z.raw as int, t3.z.raw as int),
                    ),
                    fx_max2(
                        fx_max2(t4.z.raw as int, t5.z.raw as int),
                        fx_max2(t6.z.raw as int, t7.z.raw as int),
                    ),
                )
            }),
    {
        let m = self.base.global_transform();
        let half = Fx { raw: 32768 };
        let neg_half = Fx { raw: -32768 };
        let t0 = m.transform_point(&Vector3 { x: neg_half, y: neg_half, z: neg_half });
        let t1 = m.transform_point(&Vector3 { x: half, y: neg_half, z: neg_half });
        let t2 = m.transform_point(&Vector3 { x: neg_half, y: half, z: neg_half });
        let t3 = m.transform_point(&Vector3 { x: half, y: half, z: neg_half });
        let t4 = m.transform_point(&Vector3 { x: neg_half, y: neg_half, z: half });
        let t5 = m.transform_point(&Vector3 { x: half, y: neg_half, z: half });
        let t6 = m.transform_point(&Vector3 { x: neg_half, y: half, z: half });
        let t7 = m.transform_point(&Vector3 { x: half, y: half, z: half });
        let min = Vector3 {
            x: Fx {
                raw: min_raw(
                    min_raw(min_raw(t0.x.raw, t1.x.raw), min_raw(t2.x.raw, t3.x.raw)),
                    min_raw(min_raw(t4.x.raw, t5.x.raw), min_raw(t6.x.raw, t7.x.raw)),
                ),
            },
            y: Fx {
                raw: min_raw(
                    min_raw(min_raw(t0.y.raw, t1.y.raw), min_raw(t2.y.raw, t3.y.raw)),
                    min_raw(min_raw(t4.y.raw, t5.y.raw), min_raw(t6.y.raw, t7.y.raw)),
                ),
            },
            z: Fx {
                raw: min_raw(
                    min_raw(min_raw(t0.z.raw, t1.z.raw), min_raw(t2.z.raw, t3.z.raw)),
                    min_raw(min_raw(t4.z.raw, t5.z.raw), min_raw(t6.z.raw, t7.z.raw)),
                ),
            },
        };
        let max = Vector3 {
            x: Fx {
                raw: max_raw(
                    max_raw(max_raw(t0.x.raw, t1.x.raw), max_raw(t2.x.raw, t3.x.raw)),
                    max_raw(max_raw(t4.x.raw, t5.x.raw), max_raw(t6.x.raw, t7.x.raw)),
                ),
            },
            y: Fx {
                raw: max_raw(
                    max_raw(max_raw(t0.y.raw, t1.y.raw), max_raw(t2.y.raw, t3.y.raw)),
                    max_raw(max_raw(t4.y.raw, t5.y.raw), max_raw(t6.y.raw, t7.y.raw)),
                ),
            },
            z: Fx {
                raw: max_raw(
                    max_raw(max_raw(t0.z.raw, t1.z.raw), max_raw(t2.z.raw, t3.z.raw)),
                    max_raw(max_raw(t4.z.raw, t5.z.raw), max_raw(t6.z.raw, t7.z.raw)),
                ),
            },
        };
        Aabb { min, max }
    }
}

/// Builds rectangle sprites declaratively.
#[derive(Debug)]
pub struct RectangleBuilder {
    /// Shared node state under construction.
    pub base_builder: BaseBuilder,
    /// Sprite color.
    pub color: Color,
    /// Normalized texture sub-region.
    pub uv_rect: Rect<Fx>,
    /// Sprite material.
    pub material: MaterialResource,
}

impl RectangleBuilder {
    /// Starts a sprite over the given shared state: white, full texture,
    /// standard two-dimensional material.
    pub fn new(base_builder: BaseBuilder) -> (b: RectangleBuilder)
        ensures
            b.base_builder == base_builder,
            b.color == (Color { r: 255u8, g: 255u8, b: 255u8, a: 255u8 }),
            b.uv_rect == (Rect {
                x: Fx { raw: 0i64 },
                y: Fx { raw: 0i64 },
                w: Fx { raw: 65536i64 },
                h: Fx { raw: 65536i64 },
            }),
            b.material == (Material { diffuse_texture: Option::<
                crate::scene::TextureResource,
            >::None }),
    {
        RectangleBuilder {
            base_builder,
            color: Color::white(),
            uv_rect: Rect {
                x: Fx { raw: 0 },
                y: Fx { raw: 0 },
                w: Fx { raw: FX_ONE },
                h: Fx { raw: FX_ONE },
            },
            material: Material::standard_2d(),
        }
    }

    /// Sets the sprite color.
    pub fn with_color(self, color: Color) -> (b: RectangleBuilder)
        ensures
            b == (RectangleBuilder { color, ..self }),
    {
        RectangleBuilder { color, ..self }
    }

    /// Sets the texture sub-region.
    pub fn with_uv_rect(self, uv_rect: Rect<Fx>) -> (b: RectangleBuilder)
        ensures
            b == (RectangleBuilder { uv_rect, ..self }),
    {
        RectangleBuilder { uv_rect, ..self }
    }

    /// Sets the material.
    pub fn with_material(self, material: MaterialResource) -> (b: RectangleBuilder)
        ensures
            b == (RectangleBuilder { material, ..self }),
    {
        RectangleBuilder { material, ..self }
    }

    /// Finishes the sprite.
    pub fn build_rectangle(self) -> (r: Rectangle)
        ensures
            r.base.name@ == self.base_builder.name@,
            r.base.global_transform == self.base_builder.global_transform,
            r.base.visibility == self.base_builder.visibility,
            r.base.render_mask == self.base_builder.render_mask,
            r.color == (InheritableVariable { value: self.color, modified: true }),
            r.uv_rect == (InheritableVariable { value: self.uv_rect, modified: true }),
            r.material == (InheritableVariable { value: self.material, modified: true }),
    {
        Rectangle {
            base: self.base_builder.build_base(),
            color: InheritableVariable::new_modified(self.color),
            uv_rect: InheritableVariable::new_modified(self.uv_rect),
            material: InheritableVariable::new_modified(self.material),
        }
    }

    /// Finishes the sprite as a scene node.
    pub fn build_node(self) -> (n: Node)
        ensures
            n is Rectangle,
    {
        Node::new_rectangle(self.build_rectangle())
    }

    /// Finishes the sprite and adds it to the graph.
    pub fn build(self, graph: &mut Graph) -> (h: Handle)
        requires
            old(graph).nodes.records@.len() < u32::MAX,
        ensures
            final(graph).nodes.spec_is_valid(h),
            final(graph).nodes.records@.len() == old(graph).nodes.records@.len() + 1,
            h.index == old(graph).nodes.records@.len(),
            final(graph).nodes.records@[h.index as int].unwrap() is Rectangle,
            final(graph).nodes.records@[h.index as int].unwrap()->Rectangle_0.base.handle == h,
    {
        graph.add_node(self.build_node())
    }
}

} // verus!
