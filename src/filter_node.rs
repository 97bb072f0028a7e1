use vstd::prelude::*;

use crate::binding_cache::BindingCache;
use crate::viewport::{full_surface, full_surface_viewport, Viewport};
use crate::FilterType;

verus! {

/// How a filter node produces its pixels.
#[derive(Clone, Copy, Debug, PartialEq, Eq, Structural)]
pub enum NodeKind {
    /// A full-screen quad drawn through a fragment program, within the
    /// node's viewport.
    Rasterized,
    /// A compute program dispatched over the whole target.
    Compute,
}

/// Side of the square workgroup that compute programs are written for.
pub const WORKGROUP_SIZE: u32 = 16;

/// The number of workgroups that covers `n` pixels: the least `g` with
/// `g * WORKGROUP_SIZE >= n`.
pub open spec fn workgroups(n: int) -> int {
    (n + WORKGROUP_SIZE - 1) / (WORKGROUP_SIZE as int)
}

/// One pass that a node asks the backend to record.
pub enum RenderPass<'a, B> {
    /// Draw the full-screen quad with `pipeline`, restricted to `viewport`.
    Quad { pipeline: FilterType, viewport: Viewport, binding: &'a B },
    /// Dispatch `pipeline` over `groups_x` by `groups_y` workgroups.
    Dispatch { pipeline: FilterType, groups_x: u32, groups_y: u32, binding: &'a B },
}

/// What a filter node holds, as plain values.
pub struct NodeView<B> {
    pub kind: NodeKind,
    /// The filter whose program is active.
    pub pipeline: FilterType,
    /// Where rasterized draws go on the target.
    pub viewport: Viewport,
    /// The binding cached for each texture key.
    pub bindings: Map<Seq<char>, B>,
}

/// A render unit: one active filter program, one viewport, and a binding per
/// texture key. All filter programs of a node share one binding layout, so
/// cached bindings stay valid when the program is swapped.
pub struct FilterNode<B> {
    kind: NodeKind,
    pipeline: FilterType,
    viewport: Viewport,
    cache: BindingCache<B>,
}

impl<B> View for FilterNode<B> {
    type V = NodeView<B>;

    closed spec fn view(&self) -> NodeView<B> {
        NodeView {
            kind: self.kind,
            pipeline: self.pipeline,
            viewport: self.viewport,
            bindings: self.cache@,
        }
    }
}

/// The workgroup count for `n` pixels.
pub fn workgroup_count(n: u32) -> (r: u32)
    ensures
        r == workgroups(n as int),
        r * WORKGROUP_SIZE >= n,
        r == 0 || (r - 1) * WORKGROUP_SIZE < n,
{
    let q = n / WORKGROUP_SIZE;
    if n % WORKGROUP_SIZE == 0 {
        q
    } else {
        q + 1
    }
}

impl<B> FilterNode<B> {
    pub closed spec fn wf(&self) -> bool {
        self.cache.wf()
    }

    /// A well-formed node holds finitely many bindings.
    pub proof fn lemma_bindings_finite(&self)
        requires
            self.wf(),
        ensures
            self@.bindings.dom().finite(),
    {
        self.cache.lemma_finite();
    }

    /// A node of `kind` running `pipeline`, with no bindings, whose viewport
    /// is the whole surface.
    pub fn new(kind: NodeKind, pipeline: FilterType, surface_size: (u32, u32)) -> (r: Self)
        ensures
            r.wf(),
            r@.kind == kind,
            r@.pipeline == pipeline,
            r@.viewport == full_surface(surface_size),
            r@.bindings == Map::<Seq<char>, B>::empty(),
            r@.bindings.dom().finite(),
    {
        FilterNode {
            kind,
            pipeline,
            viewport: full_surface_viewport(surface_size),
            cache: BindingCache::new(),
        }
    }

    pub fn kind(&self) -> (r: NodeKind)
        ensures
            r == self@.kind,
    {
        self.kind
    }

    /// The filter whose program is active.
    pub fn pipeline(&self) -> (r: FilterType)
        ensures
            r == self@.pipeline,
    {
        self.pipeline
    }

    pub fn viewport(&self) -> (r: Viewport)
        ensures
            r == self@.viewport,
    {
        self.viewport
    }

    /// The number of cached bindings.
    pub fn binding_count(&self) -> (r: usize)
        requires
            self.wf(),
        ensures
            r == self@.bindings.len(),
    {
        self.cache.len()
    }

    /// Whether a binding is cached under `key`.
    pub fn has_binding(&self, key: &String) -> (r: bool)
        requires
            self.wf(),
        ensures
            r == self@.bindings.contains_key(key@),
    {
        self.cache.contains_key(key)
    }

    /// Makes `pipeline` the active program. The bindings are kept.
    pub fn swap_pipeline(&mut self, pipeline: FilterType)
        requires
            old(self).wf(),
        ensures
            final(self).wf(),
            final(self)@ == (NodeView { pipeline, ..old(self)@ }),
            final(self)@.bindings.dom().finite(),
    {
        proof {
            self.cache.lemma_finite();
        }
        self.pipeline = pipeline;
    }

    /// Sets the viewport of every later draw, whatever the key.
    pub fn set_viewport(&mut self, viewport: Viewport)
        requires
            old(self).wf(),
        ensures
            final(self).wf(),
            final(self)@ == (NodeView { viewport, ..old(self)@ }),
            final(self)@.bindings.dom().finite(),
    {
        proof {
            self.cache.lemma_finite();
        }
        self.viewport = viewport;
    }

    /// Caches `binding` under `key`, replacing and handing back any binding
    /// already there.
    pub fn upsert_bind_group(&mut self, key: String, binding: B) -> (r: Option<B>)
        requires
            old(self).wf(),
        ensures
            final(self).wf(),
            final(self)@ == (NodeView { bindings: old(self)@.bindings.insert(key@, binding), ..old(self)@ }),
            final(self)@.bindings.dom().finite(),
            match r {
                Some(prev) => old(self)@.bindings.contains_key(key@) && prev == old(self)@.bindings[key@],
                None => !old(self)@.bindings.contains_key(key@),
            },
    {
        self.cache.upsert(key, binding)
    }

    /// Drops the binding under `key`, handing it back; later draws of `key`
    /// do nothing.
    pub fn evict(&mut self, key: &String) -> (r: Option<B>)
        requires
            old(self).wf(),
        ensures
            final(self).wf(),
            final(self)@ == (NodeView { bindings: old(self)@.bindings.remove(key@), ..old(self)@ }),
            final(self)@.bindings.dom().finite(),
            match r {
                Some(prev) => old(self)@.bindings.contains_key(key@) && prev == old(self)@.bindings[key@],
                None => !old(self)@.bindings.contains_key(key@),
            },
    {
        self.cache.evict(key)
    }

    /// The pass that draws the texture under `key` onto a target of
    /// `target_size` pixels, or `None` when no binding is cached under `key`
    /// (a texture that has not arrived yet is not an error). A rasterized
    /// node draws its quad within its viewport; a compute node dispatches
    /// enough workgroups to cover the whole target.
    pub fn draw(&self, key: &String, target_size: (u32, u32)) -> (r: Option<RenderPass<'_, B>>)
        requires
            self.wf(),
        ensures
            match r {
                None => !self@.bindings.contains_key(key@),
                Some(RenderPass::Quad { pipeline, viewport, binding }) => {
                    &&& self@.bindings.contains_key(key@)
                    &&& self@.kind == NodeKind::Rasterized
                    &&& pipeline == self@.pipeline
                    &&& viewport == self@.viewport
                    &&& *binding == self@.bindings[key@]
                },
                Some(RenderPass::Dispatch { pipeline, groups_x, groups_y, binding }) => {
                    &&& self@.bindings.contains_key(key@)
                    &&& self@.kind == NodeKind::Compute
                    &&& pipeline == self@.pipeline
                    &&& groups_x == workgroups(target_size.0 as int)
                    &&& groups_y == workgroups(target_size.1 as int)
                    &&& *binding == self@.bindings[key@]
                },
            },
    {
        match self.cache.get(key) {
            None => None,
            Some(binding) => match self.kind {
                NodeKind::Rasterized => Some(
                    RenderPass::Quad { pipeline: self.pipeline, viewport: self.viewport, binding },
                ),
                NodeKind::Compute => Some(
                    RenderPass::Dispatch {
                        pipeline: self.pipeline,
                        groups_x: workgroup_count(target_size.0),
                        groups_y: workgroup_count(target_size.1),
                        binding,
                    },
                ),
            },
        }
    }
}

} // verus!
