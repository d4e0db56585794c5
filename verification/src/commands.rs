//! The editor command that assigns one texture to every surface of a
//! mesh, with undo: executing swaps the single new texture in and keeps
//! the per-surface old textures; reverting puts them back.

use vstd::prelude::*;
use crate::pool::Handle;
use crate::scene::{GameSceneContext, Mesh, Node, Surface, TextureResource};

verus! {

/// What the command currently holds: the one texture to apply, or the
/// per-surface textures it displaced.
#[derive(Debug)]
pub enum TextureSet {
    /// One texture for every surface.
    Single(TextureResource),
    /// The previous texture of each surface, in surface order.
    Multiple(Vec<Option<TextureResource>>),
}

/// The command: a target mesh node and the texture state to exchange
/// with it.
#[derive(Debug)]
pub struct SetMeshTextureCommand {
    /// The mesh node the command edits.
    pub node: Handle,
    /// The texture state to exchange.
    pub set: TextureSet,
}

/// The diffuse textures of a surface list, in order.
pub open spec fn spec_diffuse_textures(surfaces: Seq<Surface>) -> Seq<Option<TextureResource>> {
    surfaces.map_values(|s: Surface| s.material.diffuse_texture)
}

impl SetMeshTextureCommand {
    /// A command that will assign `texture` to every surface of `node`.
    pub fn new(node: Handle, texture: TextureResource) -> (c: SetMeshTextureCommand)
        ensures
            c.node == node,
            c.set is Single,
            (c.set matches TextureSet::Single(t) ==> t == texture),
    {
        SetMeshTextureCommand { node, set: TextureSet::Single(texture) }
    }

    /// The command's name, as the undo stack displays it.
    pub fn name(&self) -> (r: String)
        ensures
            r@ == "Set Texture"@,
    {
        "Set Texture".to_owned()
    }

    /// Applies the command: every surface of the mesh gets the held
    /// texture, and the command keeps the displaced texture of each
    /// surface for the revert. The target must be a live mesh node and
    /// the command must hold a single texture; anything else is a caller
    /// error.
    pub fn execute(&mut self, context: &mut GameSceneContext)
        requires
            old(self).set is Single,
            old(context).scene.graph.nodes.spec_is_valid(old(self).node),
            old(context).scene.graph.nodes.records@[old(self).node.index as int].unwrap()
                is Mesh,
        ensures
            final(self).node == old(self).node,
            final(context).scene.graph.nodes.records@.len() == old(
                context,
            ).scene.graph.nodes.records@.len(),
            forall|i: int|
                0 <= i < old(context).scene.graph.nodes.records@.len() && i != old(
                    self,
                ).node.index ==> final(context).scene.graph.nodes.records@[i] == old(
                    context,
                ).scene.graph.nodes.records@[i],
            final(context).scene.graph.nodes.spec_is_valid(old(self).node),
            final(context).scene.graph.nodes.records@[old(self).node.index as int].unwrap()
                is Mesh,
            ({
                let old_mesh = old(context).scene.graph.nodes.records@[old(
                    self,
                ).node.index as int].unwrap()->Mesh_0;
                let new_mesh = final(context).scene.graph.nodes.records@[old(
                    self,
                ).node.index as int].unwrap()->Mesh_0;
                let texture = old(self).set->Single_0;
                &&& new_mesh.surfaces@.len() == old_mesh.surfaces@.len()
                &&& (forall|i: int|
                    0 <= i < new_mesh.surfaces@.len()
                        ==> (#[trigger] new_mesh.surfaces@[i]).material.diffuse_texture
                        == Option::Some(texture))
                &&& final(self).set matches TextureSet::Multiple(prev) && prev@
                    == spec_diffuse_textures(old_mesh.surfaces@)
            }),
    {
        let texture = match &self.set {
            TextureSet::Single(t) => *t,
            TextureSet::Multiple(_) => vstd::pervasive::unreached(),
        };
        let node = context.scene.graph.nodes.take(self.node);
        let mut mesh = match node {
            Node::Mesh(m) => m,
            Node::Rectangle(_) => vstd::pervasive::unreached(),
        };
        let ghost surfaces0 = mesh.surfaces@;
        let mut old_set: Vec<Option<TextureResource>> = Vec::new();
        let mut i: usize = 0;
        while i < mesh.surfaces.len()
            invariant
                i <= mesh.surfaces@.len(),
                mesh.surfaces@.len() == surfaces0.len(),
                old_set@.len() == i,
                forall|j: int|
                    0 <= j < i ==> old_set@[j] == surfaces0[j].material.diffuse_texture,
                forall|j: int|
                    0 <= j < i ==> (#[trigger] mesh.surfaces@[j]).material.diffuse_texture
                        == Option::Some(texture),
                forall|j: int| i <= j < surfaces0.len() ==> mesh.surfaces@[j] == surfaces0[j],
                mesh.base == old(context).scene.graph.nodes.records@[old(
                    self,
                ).node.index as int].unwrap()->Mesh_0.base,
            decreases mesh.surfaces@.len() - i,
        {
            old_set.push(mesh.surfaces[i].material.diffuse_texture);
            mesh.surfaces[i].material.diffuse_texture = Option::Some(texture);
            i = i + 1;
        }
        proof {
            assert(old_set@ =~= spec_diffuse_textures(surfaces0));
        }
        context.scene.graph.nodes.put_back(self.node, Node::Mesh(mesh));
        self.set = TextureSet::Multiple(old_set);
    }

    /// Reverts the command: each surface gets its displaced texture back,
    /// and the command keeps the single texture that the first surface
    /// carried before the revert. The target must be a live mesh node
    /// with as many surfaces as the command holds textures, at least one,
    /// and the first surface must carry a texture.
    pub fn revert(&mut self, context: &mut GameSceneContext)
        requires
            old(self).set is Multiple,
            old(context).scene.graph.nodes.spec_is_valid(old(self).node),
            old(context).scene.graph.nodes.records@[old(self).node.index as int].unwrap()
                is Mesh,
            old(self).set->Multiple_0@.len() == old(context).scene.graph.nodes.records@[old(
                self,
            ).node.index as int].unwrap()->Mesh_0.surfaces@.len(),
            old(self).set->Multiple_0@.len() > 0,
            old(context).scene.graph.nodes.records@[old(
                self,
            ).node.index as int].unwrap()->Mesh_0.surfaces@[0].material.diffuse_texture
                is Some,
        ensures
            final(self).node == old(self).node,
            final(context).scene.graph.nodes.records@.len() == old(
                context,
            ).scene.graph.nodes.records@.len(),
            forall|i: int|
                0 <= i < old(context).scene.graph.nodes.records@.len() && i != old(
                    self,
                ).node.index ==> final(context).scene.graph.nodes.records@[i] == old(
                    context,
                ).scene.graph.nodes.records@[i],
            final(context).scene.graph.nodes.spec_is_valid(old(self).node),
            final(context).scene.graph.nodes.records@[old(self).node.index as int].unwrap()
                is Mesh,
            ({
                let old_mesh = old(context).scene.graph.nodes.records@[old(
                    self,
                ).node.index as int].unwrap()->Mesh_0;
                let new_mesh = final(context).scene.graph.nodes.records@[old(
                    self,
                ).node.index as int].unwrap()->Mesh_0;
                let stored = old(self).set->Multiple_0@;
                &&& new_mesh.surfaces@.len() == old_mesh.surfaces@.len()
                &&& (forall|i: int|
                    0 <= i < new_mesh.surfaces@.len()
                        ==> (#[trigger] new_mesh.surfaces@[i]).material.diffuse_texture
                        == stored[i])
                &&& final(self).set matches TextureSet::Single(t) && Option::Some(t)
                    == old_mesh.surfaces@[0].material.diffuse_texture
            }),
    {
        let set = match &mut self.set {
            TextureSet::Multiple(v) => v,
            TextureSet::Single(_) => vstd::pervasive::unreached(),
        };
        let node = context.scene.graph.nodes.take(self.node);
        let mut mesh = match node {
            Node::Mesh(m) => m,
            Node::Rectangle(_) => vstd::pervasive::unreached(),
        };
        let ghost surfaces0 = mesh.surfaces@;
        let new_value = match mesh.surfaces[0].material.diffuse_texture {
            Option::Some(t) => t,
            Option::None => vstd::pervasive::unreached(),
        };
        let mut i: usize = 0;
        while i < mesh.surfaces.len()
            invariant
                i <= mesh.surfaces@.len(),
                mesh.surfaces@.len() == surfaces0.len(),
                set@.len() == surfaces0.len(),
                set@ == old(self).set->Multiple_0@,
                forall|j: int|
                    0 <= j < i ==> (#[trigger] mesh.surfaces@[j]).material.diffuse_texture
                        == set@[j],
                forall|j: int| i <= j < surfaces0.len() ==> mesh.surfaces@[j] == surfaces0[j],
                mesh.base == old(context).scene.graph.nodes.records@[old(
                    self,
                ).node.index as int].unwrap()->Mesh_0.base,
            decreases mesh.surfaces@.len() - i,
        {
            mesh.surfaces[i].material.diffuse_texture = set[i];
            i = i + 1;
        }
        context.scene.graph.nodes.put_back(self.node, Node::Mesh(mesh));
        self.set = TextureSet::Single(new_value);
    }
}

} // verus!
