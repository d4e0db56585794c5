//! The slice of the scene graph the renderer reads: node bases with their
//! world transforms, materials with their texture slots, meshes with
//! surfaces, and the graph pool that owns the nodes.

use vstd::prelude::*;
use crate::algebra::{Matrix4, Vector3};
use crate::fixed::Fx;
use crate::pool::{Handle, Pool};

verus! {

/// A value with an inheritance flag: setting it marks it as overriding
/// whatever a prototype provides.
#[derive(Clone, Copy, Debug, PartialEq, Eq, Structural)]
pub struct InheritableVariable<T> {
    /// The current value.
    pub value: T,
    /// Whether the value was set explicitly.
    pub modified: bool,
}

impl<T> InheritableVariable<T> {
    /// Wraps a value and marks it as explicitly set.
    pub fn new_modified(value: T) -> (v: InheritableVariable<T>)
        ensures
            v == (InheritableVariable { value, modified: true }),
    {
        InheritableVariable { value, modified: true }
    }

    /// Read access to the value.
    pub fn get(&self) -> (r: &T)
        ensures
            *r == self.value,
    {
        &self.value
    }

    /// Replaces the value, marks it as explicitly set, and returns the
    /// previous value.
    pub fn set_value_and_mark_modified(&mut self, value: T) -> (prev: T)
        ensures
            prev == old(self).value,
            *final(self) == (InheritableVariable { value, modified: true }),
    {
        let mut v = value;
        core::mem::swap(&mut self.value, &mut v);
        self.modified = true;
        v
    }
}

/// A handle to a texture asset.
#[derive(Clone, Copy, Debug, PartialEq, Eq, Structural, Hash)]
pub struct TextureResource {
    /// Asset identity.
    pub id: u64,
}

/// A material: for the standard two-dimensional shading, one diffuse
/// texture slot.
#[derive(Clone, Copy, Debug, PartialEq, Eq, Structural)]
pub struct Material {
    /// The diffuse texture, if one is bound.
    pub diffuse_texture: Option<TextureResource>,
}

impl Material {
    /// The standard material for two-dimensional sprites: an empty
    /// diffuse slot.
    pub fn standard_2d() -> (m: Material)
        ensures
            m == (Material { diffuse_texture: Option::<TextureResource>::None }),
    {
        Material { diffuse_texture: Option::None }
    }

    /// Binds the diffuse texture.
    pub fn set_diffuse_texture(&mut self, texture: Option<TextureResource>)
        ensures
            *final(self) == (Material { diffuse_texture: texture }),
    {
        self.diffuse_texture = texture;
    }

    /// The bound diffuse texture, if any.
    pub fn diffuse_texture(&self) -> (r: Option<TextureResource>)
        ensures
            r == self.diffuse_texture,
    {
        self.diffuse_texture
    }
}

/// A shared material asset; the model stores the material inline.
pub type MaterialResource = Material;

/// The state every scene node shares.
#[derive(Clone, Debug)]
pub struct Base {
    /// Handle of this node in its graph, set when it is added.
    pub handle: Handle,
    /// Node name.
    pub name: String,
    /// World transform; affine, within the fixed-point dynamic range.
    pub global_transform: Matrix4,
    /// Whether the node is rendered at all.
    pub visibility: bool,
    /// Mask anded against a render context's mask.
    pub render_mask: u32,
}

impl Base {
    /// World position: the translation column of the world transform.
    pub fn global_position(&self) -> (p: Vector3)
        ensures
            p == (Vector3 {
                x: self.global_transform.m14,
                y: self.global_transform.m24,
                z: self.global_transform.m34,
            }),
    {
        Vector3 {
            x: self.global_transform.m14,
            y: self.global_transform.m24,
            z: self.global_transform.m34,
        }
    }

    /// The world transform.
    pub fn global_transform(&self) -> (m: Matrix4)
        ensures
            m == self.global_transform,
    {
        self.global_transform
    }
}

/// Builds the shared node state.
#[derive(Debug)]
pub struct BaseBuilder {
    /// Node name.
    pub name: String,
    /// World transform.
    pub global_transform: Matrix4,
    /// Whether the node is rendered at all.
    pub visibility: bool,
    /// Render mask.
    pub render_mask: u32,
}

impl BaseBuilder {
    /// A builder with the neutral defaults: identity transform, visible,
    /// all mask bits set.
    pub fn new() -> (b: BaseBuilder)
        ensures
            b.name@ == Seq::<char>::empty(),
            b.global_transform == Matrix4::spec_identity(),
            b.visibility == true,
            b.render_mask == 0xFFFF_FFFFu32,
    {
        BaseBuilder {
            name: String::new(),
            global_transform: Matrix4::identity(),
            visibility: true,
            render_mask: 0xFFFF_FFFF,
        }
    }

    /// Names the node.
    pub fn with_name(self, name: &str) -> (b: BaseBuilder)
        ensures
            b.name@ == name@,
            b.global_transform == self.global_transform,
            b.visibility == self.visibility,
            b.render_mask == self.render_mask,
    {
        BaseBuilder { name: name.to_owned(), ..self }
    }

    /// Sets the world transform.
    pub fn with_global_transform(self, global_transform: Matrix4) -> (b: BaseBuilder)
        ensures
            b == (BaseBuilder { global_transform, ..self }),
    {
        BaseBuilder { global_transform, ..self }
    }

    /// Finishes the shared state; the handle is assigned when the node
    /// enters a graph.
    pub fn build_base(self) -> (b: Base)
        ensures
            b.handle.spec_is_none(),
            b.name@ == self.name@,
            b.global_transform == self.global_transform,
            b.visibility == self.visibility,
            b.render_mask == self.render_mask,
    {
        Base {
            handle: Handle::none(),
            name: self.name,
            global_transform: self.global_transform,
            visibility: self.visibility,
            render_mask: self.render_mask,
        }
    }
}

/// One surface of a mesh: geometry (kept abstract here) plus its
/// material.
#[derive(Clone, Copy, Debug, PartialEq, Eq, Structural)]
pub struct Surface {
    /// The surface material.
    pub material: Material,
}

impl Surface {
    /// Read access to the surface material.
    pub fn material(&self) -> (m: &Material)
        ensures
            *m == self.material,
    {
        &self.material
    }
}

/// A mesh node: the shared state plus its surfaces.
#[derive(Clone, Debug)]
pub struct Mesh {
    /// Shared node state.
    pub base: Base,
    /// The surfaces, in draw order.
    pub surfaces: Vec<Surface>,
}

/// A scene node: a mesh or a two-dimensional rectangle sprite.
#[derive(Debug)]
pub enum Node {
    /// A mesh node.
    Mesh(Mesh),
    /// A rectangle sprite node.
    Rectangle(crate::rectangle::Rectangle),
}

impl Node {
    /// Wraps a concrete node.
    pub fn new_rectangle(r: crate::rectangle::Rectangle) -> (n: Node)
        ensures
            n == Node::Rectangle(r),
    {
        Node::Rectangle(r)
    }
}

/// The scene graph: the pool that owns every node.
#[derive(Debug)]
pub struct Graph {
    /// Node storage.
    pub nodes: Pool<Node>,
}

impl Graph {
    /// An empty graph.
    pub fn new() -> (g: Graph)
        ensures
            g.nodes.records@.len() == 0,
    {
        Graph { nodes: Pool::new() }
    }

    /// Adds a node, assigns its handle, and returns the handle.
    pub fn add_node(&mut self, node: Node) -> (h: Handle)
        requires
            old(self).nodes.records@.len() < u32::MAX,
        ensures
            h.index == old(self).nodes.records@.len(),
            final(self).nodes.records@ == old(self).nodes.records@.push(
                Option::Some(
                    match node {
                        Node::Mesh(m) => Node::Mesh(
                            Mesh { base: Base { handle: h, ..m.base }, ..m },
                        ),
                        Node::Rectangle(rc) => Node::Rectangle(
                            crate::rectangle::Rectangle {
                                base: Base { handle: h, ..rc.base },
                                ..rc
                            },
                        ),
                    },
                ),
            ),
            final(self).nodes.spec_is_valid(h),
    {
        let h = Handle { index: self.nodes.records.len() as u32 };
        let named = match node {
            Node::Mesh(m) => Node::Mesh(Mesh { base: Base { handle: h, ..m.base }, ..m }),
            Node::Rectangle(rc) => Node::Rectangle(
                crate::rectangle::Rectangle { base: Base { handle: h, ..rc.base }, ..rc },
            ),
        };
        self.nodes.spawn(named)
    }
}

/// The scene seen by an editor command while it runs.
#[derive(Debug)]
pub struct Scene {
    /// The node graph.
    pub graph: Graph,
}

/// What an editor command receives: the scene it edits.
#[derive(Debug)]
pub struct GameSceneContext {
    /// The scene being edited.
    pub scene: Scene,
}

} // verus!
