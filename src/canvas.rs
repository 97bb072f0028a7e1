use vstd::prelude::*;

use crate::filter_node::{workgroups, FilterNode, NodeKind, NodeView, RenderPass};
use crate::params::{encode, encodes, param_values, ParameterBlock};
use crate::viewport::{fit_viewport, full_surface, letterbox, Viewport, VIEWPORT_UNIT};
use crate::FilterType;

verus! {

/// What a canvas holds, as plain values.
pub struct CanvasView<B> {
    /// Size of the target surface in pixels.
    pub surface_size: (u32, u32),
    /// The display's scale factor, in millionths.
    pub scale_factor: u32,
    /// The filter node, once a filter was chosen or a texture registered.
    pub node: Option<NodeView<B>>,
    /// The filter whose parameters are encoded.
    pub current_filter: FilterType,
    /// Size in pixels of the texture registered last.
    pub img_size: (u32, u32),
    /// Whether filters paint an opaque background.
    pub opaque: bool,
}

/// The node that a canvas creates on first need: rasterized, running the
/// original program, drawing to the whole surface, with no bindings.
pub open spec fn fresh_node<B>(surface_size: (u32, u32)) -> NodeView<B> {
    NodeView {
        kind: NodeKind::Rasterized,
        pipeline: FilterType::Original,
        viewport: full_surface(surface_size),
        bindings: Map::empty(),
    }
}

impl<B> CanvasView<B> {
    /// The state once the node exists: unchanged if it did already, else
    /// with a fresh node and the original filter current.
    pub open spec fn with_node(self) -> CanvasView<B> {
        match self.node {
            Some(_) => self,
            None => CanvasView {
                node: Some(fresh_node(self.surface_size)),
                current_filter: FilterType::Original,
                ..self
            },
        }
    }

    /// The state after choosing filter `ty`.
    pub open spec fn after_set_filter(self, ty: FilterType, opaque: bool) -> CanvasView<B> {
        let s = self.with_node();
        CanvasView {
            node: Some(NodeView { pipeline: ty, ..s.node.unwrap() }),
            current_filter: ty,
            opaque,
            ..s
        }
    }

    /// The state after registering `binding` for the texture under `key`,
    /// of `img_size` pixels: the node's viewport letterboxes the texture and
    /// the binding replaces any earlier one under `key`.
    pub open spec fn after_register(
        self,
        key: Seq<char>,
        img_size: (u32, u32),
        binding: B,
    ) -> CanvasView<B> {
        let s = self.with_node();
        let n = s.node.unwrap();
        let (x, y, w, h) = letterbox(
            s.surface_size.0 * VIEWPORT_UNIT,
            s.surface_size.1 * VIEWPORT_UNIT,
            img_size.0 as int,
            img_size.1 as int,
        );
        CanvasView {
            node: Some(
                NodeView {
                    viewport: Viewport { x: x as u64, y: y as u64, width: w as u64, height: h as u64 },
                    bindings: n.bindings.insert(key, binding),
                    ..n
                },
            ),
            img_size,
            ..s
        }
    }

    /// The state after removing the binding under `key`.
    pub open spec fn after_remove(self, key: Seq<char>) -> CanvasView<B> {
        match self.node {
            Some(n) => CanvasView {
                node: Some(NodeView { bindings: n.bindings.remove(key), ..n }),
                ..self
            },
            None => self,
        }
    }

    /// The node, if any, holds finitely many bindings.
    pub open spec fn bindings_finite(self) -> bool {
        match self.node {
            Some(n) => n.bindings.dom().finite(),
            None => true,
        }
    }

    /// The number of bindings cached.
    pub open spec fn binding_count(self) -> nat {
        match self.node {
            Some(n) => n.bindings.len(),
            None => 0,
        }
    }

    /// The filter whose program a frame of `key` runs, if a frame of `key`
    /// draws at all.
    pub open spec fn frame_pipeline(self, key: Seq<char>) -> Option<FilterType> {
        match self.node {
            Some(n) => if n.bindings.contains_key(key) {
                Some(n.pipeline)
            } else {
                None
            },
            None => None,
        }
    }

    /// The parameter values for raw value `raw` under the current filter.
    pub open spec fn params_for(self, raw: int) -> Seq<int> {
        param_values(
            self.current_filter,
            raw,
            self.img_size.0 as int,
            self.img_size.1 as int,
            self.scale_factor as int,
            self.opaque,
        )
    }
}

/// What the backend does for one frame.
pub enum FrameAction<'a, B> {
    /// Nothing: no filter node exists yet.
    Skip,
    /// Acquire and present the frame, recording no pass: nothing is bound
    /// under the requested key.
    PresentOnly,
    /// Acquire the frame, record this pass, submit and present.
    Render(RenderPass<'a, B>),
}

/// The frame orchestrator: the surface's size and scale, the filter
/// choice, the parameters, and the filter node with its bindings. The
/// backend performs the GPU work that its methods describe.
pub struct WgpuCanvas<B> {
    surface_size: (u32, u32),
    scale_factor: u32,
    view_node: Option<FilterNode<B>>,
    current_filter: FilterType,
    img_size: (u32, u32),
    opaque_background_color: bool,
}

impl<B> View for WgpuCanvas<B> {
    type V = CanvasView<B>;

    closed spec fn view(&self) -> CanvasView<B> {
        CanvasView {
            surface_size: self.surface_size,
            scale_factor: self.scale_factor,
            node: match self.view_node {
                Some(n) => Some(n@),
                None => None,
            },
            current_filter: self.current_filter,
            img_size: self.img_size,
            opaque: self.opaque_background_color,
        }
    }
}

impl<B> WgpuCanvas<B> {
    /// The node, once it exists, is well formed and rasterized.
    pub closed spec fn wf(&self) -> bool {
        match self.view_node {
            Some(n) => n.wf() && n@.kind == NodeKind::Rasterized,
            None => true,
        }
    }

    /// A well-formed canvas holds finitely many bindings.
    pub proof fn lemma_bindings_finite(&self)
        requires
            self.wf(),
        ensures
            self@.bindings_finite(),
    {
        match self.view_node {
            Some(n) => n.lemma_bindings_finite(),
            None => {},
        }
    }

    /// A canvas for a surface of `surface_size` pixels on a display whose
    /// scale factor is `scale_factor` millionths. No filter node exists yet;
    /// parameters are encoded for ASCII art until a filter is chosen.
    pub fn new(surface_size: (u32, u32), scale_factor: u32) -> (r: Self)
        ensures
            r.wf(),
            r@ == (CanvasView::<B> {
                surface_size,
                scale_factor,
                node: None,
                current_filter: FilterType::AsciiArt,
                img_size: (0, 0),
                opaque: false,
            }),
            r@.bindings_finite(),
    {
        WgpuCanvas {
            surface_size,
            scale_factor,
            view_node: None,
            current_filter: FilterType::AsciiArt,
            img_size: (0, 0),
            opaque_background_color: false,
        }
    }

    fn create_render_node_if_needed(&mut self)
        requires
            old(self).wf(),
        ensures
            final(self).wf(),
            final(self)@ == old(self)@.with_node(),
            final(self).view_node is Some,
            final(self)@.bindings_finite(),
    {
        proof {
            self.lemma_bindings_finite();
        }
        if self.view_node.is_none() {
            self.view_node = Some(
                FilterNode::new(NodeKind::Rasterized, FilterType::Original, self.surface_size),
            );
            self.current_filter = FilterType::Original;
        }
    }

    /// The parameter block for `input_param` under the current filter, the
    /// size of the texture registered last, the display's scale factor and
    /// the opaque-background choice.
    pub fn update_filter_params(&self, input_param: i64) -> (r: ParameterBlock)
        ensures
            encodes(r@, self@.params_for(input_param as int)),
    {
        encode(
            self.current_filter,
            input_param,
            self.img_size,
            self.scale_factor,
            self.opaque_background_color,
        )
    }

    /// Chooses filter `ty`, creating the node if needed, and returns the
    /// parameter block for `input_param` (in millionths, zero for the
    /// filter's default), to be written to the shared parameter buffer.
    pub fn set_filter(&mut self, ty: FilterType, opaque_background_color: bool, input_param: i64) -> (r: ParameterBlock)
        requires
            old(self).wf(),
        ensures
            final(self).wf(),
            final(self)@ == old(self)@.after_set_filter(ty, opaque_background_color),
            final(self)@.bindings_finite(),
            encodes(r@, final(self)@.params_for(input_param as int)),
    {
        self.create_render_node_if_needed();
        self.opaque_background_color = opaque_background_color;
        match &mut self.view_node {
            Some(node) => {
                node.swap_pipeline(ty);
            },
            None => {},
        }
        self.current_filter = ty;
        self.update_filter_params(input_param)
    }

    /// The parameter block for `input_param` under the current filter; the
    /// filter program is not changed.
    pub fn change_filter_param(&self, input_param: i64) -> (r: ParameterBlock)
        ensures
            encodes(r@, self@.params_for(input_param as int)),
    {
        self.update_filter_params(input_param)
    }

    /// Registers `binding` for the texture under `tex_key`, of `img_size`
    /// pixels: creates the node if needed, letterboxes the texture into the
    /// surface, and caches the binding, handing back the one it replaces.
    pub fn set_external_texture(&mut self, binding: B, tex_key: String, img_size: (u32, u32)) -> (r: Option<B>)
        requires
            old(self).wf(),
        ensures
            final(self).wf(),
            final(self)@ == old(self)@.after_register(tex_key@, img_size, binding),
            final(self)@.bindings_finite(),
            match r {
                Some(prev) => old(self)@.with_node().node.unwrap().bindings.contains_key(tex_key@)
                    && prev == old(self)@.with_node().node.unwrap().bindings[tex_key@],
                None => !old(self)@.with_node().node.unwrap().bindings.contains_key(tex_key@),
            },
    {
        self.img_size = img_size;
        let viewport = fit_viewport(self.surface_size, img_size);
        self.create_render_node_if_needed();
        match &mut self.view_node {
            Some(node) => {
                node.set_viewport(viewport);
                node.upsert_bind_group(tex_key, binding)
            },
            None => None,
        }
    }

    /// Drops the binding under `tex_key`, handing it back.
    pub fn remove_texture(&mut self, tex_key: String) -> (r: Option<B>)
        requires
            old(self).wf(),
        ensures
            final(self).wf(),
            final(self)@ == old(self)@.after_remove(tex_key@),
            final(self)@.bindings_finite(),
            match r {
                Some(prev) => old(self)@.node is Some
                    && old(self)@.node.unwrap().bindings.contains_key(tex_key@)
                    && prev == old(self)@.node.unwrap().bindings[tex_key@],
                None => old(self)@.frame_pipeline(tex_key@) is None,
            },
    {
        match &mut self.view_node {
            Some(node) => node.evict(&tex_key),
            None => None,
        }
    }

    /// What to do for one frame of the texture under `tex_key`.
    pub fn enter_frame(&self, tex_key: &String) -> (r: FrameAction<'_, B>)
        requires
            self.wf(),
        ensures
            match r {
                FrameAction::Skip => self@.node is None,
                FrameAction::PresentOnly => self@.node is Some && self@.frame_pipeline(tex_key@) is None,
                FrameAction::Render(pass) => self@.frame_pipeline(tex_key@) is Some && match pass {
                    RenderPass::Quad { pipeline, viewport, binding } => {
                        &&& self@.node.unwrap().kind == NodeKind::Rasterized
                        &&& self@.frame_pipeline(tex_key@) == Some(pipeline)
                        &&& viewport == self@.node.unwrap().viewport
                        &&& *binding == self@.node.unwrap().bindings[tex_key@]
                    },
                    RenderPass::Dispatch { pipeline, groups_x, groups_y, binding } => {
                        &&& self@.node.unwrap().kind == NodeKind::Compute
                        &&& self@.frame_pipeline(tex_key@) == Some(pipeline)
                        &&& groups_x == workgroups(self@.surface_size.0 as int)
                        &&& groups_y == workgroups(self@.surface_size.1 as int)
                        &&& *binding == self@.node.unwrap().bindings[tex_key@]
                    },
                },
            },
    {
        match &self.view_node {
            None => FrameAction::Skip,
            Some(node) => match node.draw(tex_key, self.surface_size) {
                None => FrameAction::PresentOnly,
                Some(pass) => FrameAction::Render(pass),
            },
        }
    }

    /// Records the surface's new size. Viewports of textures already
    /// registered are left as they were until they are registered again.
    pub fn resize(&mut self, surface_size: (u32, u32))
        requires
            old(self).wf(),
        ensures
            final(self).wf(),
            final(self)@ == (CanvasView { surface_size, ..old(self)@ }),
            final(self)@.bindings_finite(),
    {
        proof {
            self.lemma_bindings_finite();
        }
        self.surface_size = surface_size;
    }

    /// The filter whose program the node runs; `None` before the node
    /// exists.
    pub fn active_filter(&self) -> (r: Option<FilterType>)
        ensures
            r == match self@.node {
                Some(n) => Some(n.pipeline),
                None => None::<FilterType>,
            },
    {
        match &self.view_node {
            Some(node) => Some(node.pipeline()),
            None => None,
        }
    }

    /// The filter whose parameters are encoded.
    pub fn current_filter(&self) -> (r: FilterType)
        ensures
            r == self@.current_filter,
    {
        self.current_filter
    }

    /// The number of cached bindings.
    pub fn binding_count(&self) -> (r: usize)
        requires
            self.wf(),
        ensures
            r == self@.binding_count(),
    {
        match &self.view_node {
            Some(node) => node.binding_count(),
            None => 0,
        }
    }

    /// The node's viewport; `None` before the node exists.
    pub fn viewport(&self) -> (r: Option<Viewport>)
        ensures
            r == match self@.node {
                Some(n) => Some(n.viewport),
                None => None::<Viewport>,
            },
    {
        match &self.view_node {
            Some(node) => Some(node.viewport()),
            None => None,
        }
    }

    pub fn surface_size(&self) -> (r: (u32, u32))
        ensures
            r == self@.surface_size,
    {
        self.surface_size
    }
}

/// Registering the same texture twice under one key is the same as
/// registering it once: the entry is replaced, not duplicated, and the number
/// of cached bindings does not change.
pub proof fn lemma_register_twice_keeps_one_entry<B>(
    s: CanvasView<B>,
    key: Seq<char>,
    img_size: (u32, u32),
    binding: B,
)
    ensures
        s.after_register(key, img_size, binding).after_register(key, img_size, binding)
            == s.after_register(key, img_size, binding),
        s.after_register(key, img_size, binding).after_register(key, img_size, binding).binding_count()
            == s.after_register(key, img_size, binding).binding_count(),
{
    let once = s.after_register(key, img_size, binding);
    let n = once.node.unwrap();
    assert(n.bindings.insert(key, binding) =~= n.bindings);
}

/// A key that is registered again with another texture keeps a single entry.
pub proof fn lemma_register_replaces<B>(
    s: CanvasView<B>,
    key: Seq<char>,
    img_size: (u32, u32),
    binding: B,
)
    requires
        s.node is Some,
        s.node.unwrap().bindings.contains_key(key),
    ensures
        s.after_register(key, img_size, binding).binding_count() == s.binding_count(),
{
    let n = s.node.unwrap();
    assert(n.bindings.insert(key, binding).dom() =~= n.bindings.dom());
}

/// Registering a key that has no binding yet adds exactly one binding.
pub proof fn lemma_register_new_key_grows<B>(
    s: CanvasView<B>,
    key: Seq<char>,
    img_size: (u32, u32),
    binding: B,
)
    requires
        s.bindings_finite(),
        s.frame_pipeline(key) is None,
    ensures
        s.after_register(key, img_size, binding).binding_count() == s.binding_count() + 1,
{
    let n = s.with_node().node.unwrap();
    assert(n.bindings.dom().finite());
    assert(!n.bindings.contains_key(key));
    assert(n.bindings.insert(key, binding).dom() == n.bindings.dom().insert(key));
}

/// Choosing filter `ty` makes it the node's active program, and the next
/// frame of any key with a binding runs `ty`; keys without one still draw
/// nothing.
pub proof fn lemma_set_filter_then_frame<B>(
    s: CanvasView<B>,
    ty: FilterType,
    opaque: bool,
    key: Seq<char>,
)
    ensures
        s.after_set_filter(ty, opaque).node.unwrap().pipeline == ty,
        s.after_set_filter(ty, opaque).frame_pipeline(key) == if s.with_node().node.unwrap().bindings.contains_key(key) {
            Some(ty)
        } else {
            None
        },
{
}

/// After its binding is removed, a key draws nothing.
pub proof fn lemma_removed_key_draws_nothing<B>(s: CanvasView<B>, key: Seq<char>)
    ensures
        s.after_remove(key).frame_pipeline(key) is None,
{
}

} // verus!
