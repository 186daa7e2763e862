//! The renderer's device-state model and per-frame command plan.
//!
//! The renderer tracks the swapchain's current size, the size the render
//! target and depth views were built for, and the transform last uploaded to
//! the constant buffer. The backend executes GPU work and reports outcomes;
//! every decision — when a resize is a no-op, what a resize does to the
//! views, the exact order of per-frame commands — is made and verified here.
//!
//! The render-target view and the depth view must live and die together:
//! they are modeled as one `ViewSet`, replaced as a unit, so the pair is
//! always either current for the swapchain's size or stale as a whole from
//! the previous size — never a mix.

use vstd::prelude::*;
use crate::error::EngineError;
use crate::geometry::CUBE_INDEX_COUNT;

verus! {

/// The size the render-target view and depth view were built for. The two
/// views are one unit: recreating one without the other is never modeled.
#[derive(Debug, Clone, Copy, PartialEq, Eq, Structural)]
pub struct ViewSet {
    pub width: u32,
    pub height: u32,
}

/// A 4-component normalized clear color. The channels are carried as the raw
/// bit patterns of the backend's 32-bit float values: the engine's logic
/// never reads them, it only hands them through to the clear command.
#[derive(Debug, Clone, Copy, PartialEq, Eq, Structural)]
pub struct ClearColor {
    pub red_bits: u32,
    pub green_bits: u32,
    pub blue_bits: u32,
    pub alpha_bits: u32,
}

/// Per-frame input to the renderer: the clear color the scene asks for and
/// the wall-clock time since startup that drives the cube's rotation. Owns
/// no device resources; built fresh each accepted frame.
#[derive(Debug, Clone, Copy, PartialEq, Eq, Structural)]
pub struct RenderFrame {
    pub clear_color: ClearColor,
    pub time_nanos: u64,
}

/// One step of the fixed per-frame sequence the backend must execute in
/// order. `UploadTransform` carries the frame time whose transform the
/// constant buffer is overwritten with; `DrawIndexed` carries the index
/// count; `Present` submits the back buffer with a vertical-sync wait of 1.
#[derive(Debug, Clone, Copy, PartialEq, Eq, Structural)]
pub enum RenderCommand {
    BindTargets,
    ClearTarget(ClearColor),
    ClearDepthStencil,
    BindGeometry,
    BindShaders,
    UploadTransform(u64),
    BindConstants,
    DrawIndexed(u32),
    Present,
}

/// One step of the resize sequence the backend must execute in order. The
/// old views are unbound from the device before the swapchain's buffers are
/// resized — presenting or drawing through a view whose buffer is being
/// destroyed is undefined behavior on the native API — and both views are
/// rebuilt together for the new size before the viewport is reapplied.
#[derive(Debug, Clone, Copy, PartialEq, Eq, Structural)]
pub enum ResizeCommand {
    UnbindViews,
    ResizeBuffers { width: u32, height: u32 },
    RebuildViews { width: u32, height: u32 },
    SetViewport { width: u32, height: u32 },
}

/// Device-state model of the renderer: swapchain size, view size, and the
/// frame time of the transform last uploaded to the constant buffer (`None`
/// until the first frame). Pipeline objects and static geometry are created
/// once at construction and are not tracked beyond the constant buffer,
/// because nothing ever changes them.
#[derive(Debug, Clone, Copy, PartialEq, Eq, Structural)]
pub struct Renderer {
    pub width: u32,
    pub height: u32,
    pub views: ViewSet,
    pub uploaded_transform_nanos: Option<u64>,
}

impl Renderer {
    /// The swapchain has a positive size in both dimensions.
    pub open spec fn wf(self) -> bool {
        self.width >= 1 && self.height >= 1
    }

    /// The views were built for the swapchain's current size.
    pub open spec fn views_current(self) -> bool {
        self.views.width == self.width && self.views.height == self.height
    }

    /// A renderer freshly constructed for a window of the given size: the
    /// swapchain is sized to the window, each dimension clamped up to 1, and
    /// the views are built for that same size. Construction of the real
    /// device either yields this state or fails as a whole; no partial
    /// renderer exists.
    pub fn new(width: u32, height: u32) -> (r: Renderer)
        ensures
            r.width == if width == 0 { 1u32 } else { width },
            r.height == if height == 0 { 1u32 } else { height },
            r.views_current(),
            r.uploaded_transform_nanos is None,
            r.wf(),
    {
        let w: u32 = if width == 0 { 1 } else { width };
        let h: u32 = if height == 0 { 1 } else { height };
        Renderer {
            width: w,
            height: h,
            views: ViewSet { width: w, height: h },
            uploaded_transform_nanos: None,
        }
    }

    /// Whether a resize to `width x height` does anything: a zero dimension
    /// is ignored, and so is a resize to the current size — repeated
    /// identical resize events from the window system must be no-ops.
    pub open spec fn spec_resize_applies(self, width: u32, height: u32) -> bool {
        width != 0 && height != 0 && !(width == self.width && height == self.height)
    }

    /// Renderer state after a resize whose view recreation succeeded: the
    /// swapchain and both views take the new size together.
    pub open spec fn spec_resize(self, width: u32, height: u32) -> Renderer {
        if self.spec_resize_applies(width, height) {
            Renderer { width, height, views: ViewSet { width, height }, ..self }
        } else {
            self
        }
    }

    /// Renderer state after a resize whose view recreation failed: the
    /// swapchain records the new size, but the old views are kept — a
    /// defined degraded state, retried by the next resize event.
    pub open spec fn spec_resize_views_lost(self, width: u32, height: u32) -> Renderer {
        if self.spec_resize_applies(width, height) {
            Renderer { width, height, ..self }
        } else {
            self
        }
    }

    /// Whether a resize to `width x height` requires the backend to touch
    /// the swapchain and rebuild the views.
    pub fn needs_rebuild(&self, width: u32, height: u32) -> (rebuild: bool)
        ensures
            rebuild == self.spec_resize_applies(width, height),
    {
        width != 0 && height != 0 && !(width == self.width && height == self.height)
    }

    /// The device work a resize to `width x height` requires, in order:
    /// nothing for a no-op resize; otherwise unbind the old views, resize
    /// the swapchain's buffers in place, rebuild both views for the new
    /// size, and reapply the viewport.
    pub open spec fn spec_resize_plan(self, width: u32, height: u32) -> Seq<ResizeCommand> {
        if self.spec_resize_applies(width, height) {
            seq![
                ResizeCommand::UnbindViews,
                ResizeCommand::ResizeBuffers { width, height },
                ResizeCommand::RebuildViews { width, height },
                ResizeCommand::SetViewport { width, height },
            ]
        } else {
            Seq::empty()
        }
    }

    /// The ordered device work for a resize to `width x height`. An empty
    /// plan is a no-op resize: the backend must not touch the device at all,
    /// so no rendering side effect is observable.
    pub fn resize_plan(&self, width: u32, height: u32) -> (plan: Vec<ResizeCommand>)
        ensures
            plan@ == self.spec_resize_plan(width, height),
            plan@.len() == 0 <==> !self.spec_resize_applies(width, height),
    {
        let mut plan: Vec<ResizeCommand> = Vec::new();
        if width != 0 && height != 0 && !(width == self.width && height == self.height) {
            plan.push(ResizeCommand::UnbindViews);
            plan.push(ResizeCommand::ResizeBuffers { width, height });
            plan.push(ResizeCommand::RebuildViews { width, height });
            plan.push(ResizeCommand::SetViewport { width, height });
            proof {
                assert(plan@ =~= self.spec_resize_plan(width, height));
            }
        } else {
            proof {
                assert(plan@ =~= self.spec_resize_plan(width, height));
            }
        }
        plan
    }

    /// Apply a resize whose view recreation succeeded (the backend unbinds
    /// the old views, resizes the swapchain buffers, rebuilds both views,
    /// and reapplies the viewport). A zero dimension or the current size
    /// leaves the renderer exactly as it was.
    pub fn resize(&mut self, width: u32, height: u32)
        ensures
            *final(self) == old(self).spec_resize(width, height),
            !old(self).spec_resize_applies(width, height) ==> *final(self) == *old(self),
            old(self).spec_resize_applies(width, height) ==> final(self).width == width
                && final(self).height == height && final(self).views_current(),
            final(self).uploaded_transform_nanos == old(self).uploaded_transform_nanos,
    {
        if width != 0 && height != 0 && !(width == self.width && height == self.height) {
            self.width = width;
            self.height = height;
            self.views = ViewSet { width, height };
        }
    }

    /// Apply a resize whose view recreation failed: the new size is
    /// recorded, the stale views are kept as a pair. The no-op rules are the
    /// same as for `resize`.
    pub fn resize_views_lost(&mut self, width: u32, height: u32)
        ensures
            *final(self) == old(self).spec_resize_views_lost(width, height),
            !old(self).spec_resize_applies(width, height) ==> *final(self) == *old(self),
            final(self).views == old(self).views,
            final(self).uploaded_transform_nanos == old(self).uploaded_transform_nanos,
    {
        if width != 0 && height != 0 && !(width == self.width && height == self.height) {
            self.width = width;
            self.height = height;
        }
    }

    /// Record a frame's render work and return the exact command sequence
    /// the backend must execute, in order. The constant buffer is
    /// overwritten with the transform for `frame.time_nanos`; size and views
    /// are untouched — rendering never recreates resources.
    pub fn render(&mut self, frame: &RenderFrame) -> (plan: Vec<RenderCommand>)
        ensures
            plan@ == spec_render_plan(*frame),
            *final(self) == (Renderer {
                uploaded_transform_nanos: Some(frame.time_nanos),
                ..*old(self)
            }),
    {
        self.uploaded_transform_nanos = Some(frame.time_nanos);
        let mut plan: Vec<RenderCommand> = Vec::new();
        plan.push(RenderCommand::BindTargets);
        plan.push(RenderCommand::ClearTarget(frame.clear_color));
        plan.push(RenderCommand::ClearDepthStencil);
        plan.push(RenderCommand::BindGeometry);
        plan.push(RenderCommand::BindShaders);
        plan.push(RenderCommand::UploadTransform(frame.time_nanos));
        plan.push(RenderCommand::BindConstants);
        plan.push(RenderCommand::DrawIndexed(CUBE_INDEX_COUNT));
        plan.push(RenderCommand::Present);
        proof {
            assert(plan@ =~= spec_render_plan(*frame));
        }
        plan
    }
}

/// The fixed per-frame command sequence for a frame: bind the render target
/// and depth view, clear both, bind the static pipeline and geometry, upload
/// the frame's transform, bind it to the vertex stage, draw the cube's 36
/// indices, and present.
pub open spec fn spec_render_plan(frame: RenderFrame) -> Seq<RenderCommand> {
    seq![
        RenderCommand::BindTargets,
        RenderCommand::ClearTarget(frame.clear_color),
        RenderCommand::ClearDepthStencil,
        RenderCommand::BindGeometry,
        RenderCommand::BindShaders,
        RenderCommand::UploadTransform(frame.time_nanos),
        RenderCommand::BindConstants,
        RenderCommand::DrawIndexed(CUBE_INDEX_COUNT),
        RenderCommand::Present,
    ]
}

/// Map the backend's present outcome to the frame's result: success, or a
/// `Runtime` error carrying the backend's diagnostic — never a fatal kind,
/// so the frame loop survives it.
pub fn present_result(ok: bool, detail: &str) -> (r: Result<(), EngineError>)
    ensures
        ok <==> r is Ok,
        !ok ==> (r matches Result::Err(e) && e matches EngineError::Runtime(d) && d@
            == "present failed: "@ + detail@),
{
    if ok {
        Ok(())
    } else {
        let mut d = "present failed: ".to_owned();
        d.append(detail);
        Err(EngineError::Runtime(d))
    }
}

/// A successful resize leaves the view pair current for the new size: the
/// render target and the depth view agree with the swapchain and with each
/// other, whatever size the renderer had before.
pub proof fn lemma_resize_keeps_views_current(r: Renderer, width: u32, height: u32)
    requires
        r.views_current(),
    ensures
        r.spec_resize(width, height).views_current(),
{
}

/// Two successive successful resizes leave the views consistent with the
/// size after the second resize, never with a mix of old and new dimensions.
pub proof fn lemma_resize_pair_consistent(
    r: Renderer,
    w1: u32,
    h1: u32,
    w2: u32,
    h2: u32,
)
    requires
        r.views_current(),
    ensures
        r.spec_resize(w1, h1).spec_resize(w2, h2).views_current(),
        r.spec_resize_applies(w1, h1) && r.spec_resize(w1, h1).spec_resize_applies(w2, h2)
            ==> r.spec_resize(w1, h1).spec_resize(w2, h2).views == (ViewSet {
            width: w2,
            height: h2,
        }),
{
}

/// A resize whose view recreation failed keeps the old views as a pair:
/// both stale from the previous size together, never one old and one new.
pub proof fn lemma_failed_resize_keeps_view_pair(r: Renderer, width: u32, height: u32)
    ensures
        r.spec_resize_views_lost(width, height).views == r.views,
{
}

} // verus!
