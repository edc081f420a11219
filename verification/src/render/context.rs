//! The render context: the presentation surface together with everything
//! derived from it, and the decisions of one frame.

use crate::render::action::{Action, FatalError};
use crate::render::compositor::Compositor;
use crate::render::scene::{frame_params, has_renderer, with_renderer};
use crate::render::scene::{RenderOutcome, RenderParams, SceneRenderers};
use crate::render::surface::{AcquireOutcome, Acquisition, PhysicalSize, Surface};
use crate::render::target::IntermediateTarget;
use vstd::prelude::*;

verus! {

/// How far the frame in flight has come.
#[derive(Clone, Copy, Debug, PartialEq, Eq, Structural)]
pub enum FrameStage {
    /// No frame is in flight.
    Idle,
    /// The scene is being rasterised into the intermediate target.
    Rasterizing,
    /// The surface was asked for its next frame.
    Acquiring,
}

/// What a render context is, as plain values.
pub struct RenderModel {
    pub surface: Surface,
    /// The size that the window reported last. It differs from the size of
    /// the surface while the window has no area.
    pub window_size: PhysicalSize,
    /// For each device id, whether a renderer exists.
    pub renderers: Seq<bool>,
    pub use_cpu: bool,
    pub target: IntermediateTarget,
    pub compositor: Compositor,
    pub stage: FrameStage,
}

impl RenderModel {
    /// The invariants of a render context.
    ///
    /// The intermediate target, where there is one, has the size of the
    /// surface. The bind group, where there is one, was built for the
    /// current target. A frame in flight has its target, its bind group and
    /// its renderer.
    pub open spec fn wf(self) -> bool {
        &&& self.surface.dev_id < usize::MAX
        &&& self.target.wf()
        &&& self.target.current matches Some(t) ==> {
            &&& self.surface.is_live()
            &&& t.width == self.surface.width
            &&& t.height == self.surface.height
        }
        &&& self.compositor.bind_group matches Some(b) ==> {
            &&& self.target.current matches Some(t)
            &&& b.target_generation == t.generation
        }
        &&& self.stage != FrameStage::Idle ==> {
            &&& self.target.current matches Some(t)
            &&& self.compositor.is_bound_to(t)
            &&& has_renderer(self.renderers, self.surface.dev_id)
        }
    }

    /// A context for a surface that was just created: nothing derived from
    /// the surface exists yet but the renderer of its device.
    pub open spec fn initial(surface: Surface, use_cpu: bool) -> RenderModel {
        RenderModel {
            surface,
            window_size: surface.size(),
            renderers: with_renderer(Seq::empty(), surface.dev_id),
            use_cpu,
            target: IntermediateTarget { current: None, created: 0 },
            compositor: Compositor { bind_group: None },
            stage: FrameStage::Idle,
        }
    }

    /// What has to be built once for a new context: the renderer of the
    /// surface's device and the compositor for the surface's format.
    pub open spec fn setup_actions(self) -> Seq<Action> {
        seq![
            Action::CreateRenderer { dev_id: self.surface.dev_id, use_cpu: self.use_cpu },
            Action::CreateCompositor { format: self.surface.format },
        ]
    }

    /// A tick of this context renders nothing: the window or the surface has
    /// no area.
    pub open spec fn suspended(self) -> bool {
        self.window_size.is_empty() || !self.surface.is_live()
    }

    /// The context after a resize request.
    ///
    /// A request without area is only remembered as the size of the window.
    /// Any other request is applied to the surface, drops the intermediate
    /// target and the bind group, and abandons a frame in flight.
    pub open spec fn resized(self, size: PhysicalSize) -> RenderModel {
        if size.is_empty() {
            RenderModel { window_size: size, ..self }
        } else {
            RenderModel {
                surface: self.surface.resized(size.width, size.height),
                window_size: size,
                target: self.target.invalidated(),
                compositor: Compositor { bind_group: None },
                stage: FrameStage::Idle,
                ..self
            }
        }
    }

    /// What a resize request asks of the surroundings.
    pub open spec fn resize_actions(self, size: PhysicalSize) -> Seq<Action> {
        if size.is_empty() {
            seq![]
        } else {
            seq![
                Action::ReconfigureSurface { width: size.width, height: size.height },
                Action::DropTarget,
            ]
        }
    }

    /// The context after the start of a tick. A suspended context stays as
    /// it is. Else the target, the bind group and the renderer exist
    /// afterwards, and the frame that starts takes the place of one that was
    /// still in flight.
    pub open spec fn rendered(self) -> RenderModel {
        if self.suspended() {
            self
        } else {
            let target = self.target.ensured(self.surface.width, self.surface.height);
            RenderModel {
                target,
                compositor: self.compositor_for(target),
                renderers: with_renderer(self.renderers, self.surface.dev_id),
                stage: FrameStage::Rasterizing,
                ..self
            }
        }
    }

    /// The compositor of a tick whose target is `target`: a bind group does
    /// not survive the texture it was built for.
    pub open spec fn compositor_for(self, target: IntermediateTarget) -> Compositor {
        match target.current {
            Some(t) => if self.creates_target() {
                Compositor { bind_group: None }.bound(t)
            } else {
                self.compositor.bound(t)
            },
            None => Compositor { bind_group: None },
        }
    }

    /// The tick has to create the intermediate target.
    pub open spec fn creates_target(self) -> bool {
        !self.target.fits(self.surface.width, self.surface.height)
    }

    /// The tick has to build the bind group.
    pub open spec fn creates_bind_group(self) -> bool {
        self.creates_target() || match self.target.current {
            Some(t) => !self.compositor.is_bound_to(t),
            None => true,
        }
    }

    /// The tick has to build the renderer of the surface's device.
    pub open spec fn creates_renderer(self) -> bool {
        !has_renderer(self.renderers, self.surface.dev_id)
    }

    /// What the start of a tick asks of the surroundings: nothing while
    /// suspended; else whatever is missing is created, target first, and the
    /// scene is built and rasterised.
    pub open spec fn render_actions(self) -> Seq<Action> {
        if self.suspended() {
            seq![]
        } else {
            let width = self.surface.width;
            let height = self.surface.height;
            let dev_id = self.surface.dev_id;
            (if self.creates_target() {
                seq![Action::CreateTarget { width, height }]
            } else {
                seq![]
            }) + (if self.creates_bind_group() {
                seq![Action::CreateBindGroup]
            } else {
                seq![]
            }) + (if self.creates_renderer() {
                seq![Action::CreateRenderer { dev_id, use_cpu: self.use_cpu }]
            } else {
                seq![]
            }) + seq![
                Action::BuildScene { width, height },
                Action::Rasterize { dev_id, params: frame_params(width, height) },
            ]
        }
    }

    /// The context after the outcome of a rasterisation came in.
    pub open spec fn after_rasterize(self, outcome: RenderOutcome) -> RenderModel {
        if self.stage != FrameStage::Rasterizing {
            self
        } else if outcome is Completed {
            RenderModel { stage: FrameStage::Acquiring, ..self }
        } else {
            RenderModel { stage: FrameStage::Idle, ..self }
        }
    }

    /// What follows a rasterisation: a completed one asks the surface for a
    /// frame, a failed one ends the tick, a lost device is fatal. An outcome
    /// that no rasterisation waits for is ignored.
    pub open spec fn rasterize_result(self, outcome: RenderOutcome) -> Result<
        Seq<Action>,
        FatalError,
    > {
        if self.stage != FrameStage::Rasterizing {
            Ok(seq![])
        } else {
            match outcome {
                RenderOutcome::Completed => Ok(seq![Action::AcquireFrame]),
                RenderOutcome::Failed => Ok(seq![]),
                RenderOutcome::DeviceLost => Err(FatalError::DeviceLost),
            }
        }
    }

    /// The context after the outcome of a frame acquisition came in.
    pub open spec fn after_acquire(self, outcome: AcquireOutcome) -> RenderModel {
        if self.stage != FrameStage::Acquiring {
            self
        } else {
            RenderModel { stage: FrameStage::Idle, ..self }
        }
    }

    /// What follows a frame acquisition: a frame is composited and
    /// presented, a retryable outcome is noted and ends the tick, any other
    /// is fatal. An outcome that no acquisition waits for is ignored.
    pub open spec fn acquire_result(self, outcome: AcquireOutcome) -> Result<
        Seq<Action>,
        FatalError,
    > {
        if self.stage != FrameStage::Acquiring {
            Ok(seq![])
        } else {
            match outcome {
                AcquireOutcome::Acquired => Ok(seq![Action::Composite]),
                AcquireOutcome::Timeout | AcquireOutcome::Outdated | AcquireOutcome::Lost => Ok(
                    seq![Action::Warn { outcome }],
                ),
                AcquireOutcome::OutOfMemory => Err(FatalError::SurfaceOutOfMemory),
                AcquireOutcome::Other => Err(FatalError::SurfaceFailed),
            }
        }
    }
}

/// The presentation surface of one window with the resources derived from
/// it, and the stage of the frame in flight.
pub struct RenderContext {
    surface: Surface,
    window_size: PhysicalSize,
    renderers: SceneRenderers,
    use_cpu: bool,
    target: IntermediateTarget,
    compositor: Compositor,
    stage: FrameStage,
}

impl View for RenderContext {
    type V = RenderModel;

    closed spec fn view(&self) -> RenderModel {
        RenderModel {
            surface: self.surface,
            window_size: self.window_size,
            renderers: self.renderers@,
            use_cpu: self.use_cpu,
            target: self.target,
            compositor: self.compositor,
            stage: self.stage,
        }
    }
}

impl RenderContext {
    /// Holds of every context: `use_type_invariant` yields it.
    #[verifier::type_invariant]
    pub open spec fn well_formed(self) -> bool {
        self@.wf()
    }

    /// The context of a surface that was just created, with the renderer of
    /// its device.
    pub fn new(surface: Surface, use_cpu: bool) -> (context: Self)
        requires
            surface.dev_id < usize::MAX,
        ensures
            context@ == RenderModel::initial(surface, use_cpu),
            context@.wf(),
    {
        let mut renderers = SceneRenderers::new();
        renderers.ensure(surface.dev_id);
        RenderContext {
            surface,
            window_size: surface.size(),
            renderers,
            use_cpu,
            target: IntermediateTarget::new(),
            compositor: Compositor::new(),
            stage: FrameStage::Idle,
        }
    }

    /// What the surroundings build once for this context.
    pub fn setup(&self) -> (actions: Vec<Action>)
        ensures
            actions@ == self@.setup_actions(),
    {
        let mut actions: Vec<Action> = Vec::new();
        actions.push(Action::CreateRenderer { dev_id: self.surface.dev_id, use_cpu: self.use_cpu });
        actions.push(Action::CreateCompositor { format: self.surface.format });
        assert(actions@ =~= self@.setup_actions());
        actions
    }

    /// Takes a resize request.
    pub fn resize(&mut self, size: PhysicalSize) -> (actions: Vec<Action>)
        ensures
            final(self)@ == old(self)@.resized(size),
            actions@ == old(self)@.resize_actions(size),
            final(self)@.wf(),
    {
        proof {
            use_type_invariant(&*self);
        }
        let mut actions: Vec<Action> = Vec::new();
        if size.is_empty() {
            self.window_size = size;
            return actions;
        }
        let mut surface = self.surface;
        surface.resize(size.width, size.height);
        self.stage = FrameStage::Idle;
        self.compositor = Compositor::new();
        self.target = IntermediateTarget { current: None, created: self.target.created };
        self.surface = surface;
        self.window_size = size;
        actions.push(Action::ReconfigureSurface { width: size.width, height: size.height });
        actions.push(Action::DropTarget);
        assert(actions@ =~= old(self)@.resize_actions(size));
        actions
    }

    /// Starts a tick: decides what has to be created for this frame and asks
    /// for the scene to be built and rasterised. The outcome of the
    /// rasterisation goes to [`RenderContext::frame_rendered`].
    pub fn render(&mut self) -> (actions: Vec<Action>)
        ensures
            final(self)@ == old(self)@.rendered(),
            actions@ == old(self)@.render_actions(),
            final(self)@.wf(),
    {
        proof {
            use_type_invariant(&*self);
        }
        let mut actions: Vec<Action> = Vec::new();
        if self.window_size.is_empty() || !self.surface.is_live() {
            return actions;
        }
        let width = self.surface.width;
        let height = self.surface.height;
        let dev_id = self.surface.dev_id;

        let mut target = self.target;
        let mut compositor = self.compositor;
        let created = target.ensure(width, height);
        if created {
            compositor.invalidate();
            actions.push(Action::CreateTarget { width, height });
        }
        let rebuilt = match target.current {
            Some(t) => compositor.bind_group(t),
            None => false,
        };
        if rebuilt {
            actions.push(Action::CreateBindGroup);
        }
        self.stage = FrameStage::Idle;
        self.compositor = Compositor::new();
        self.target = target;
        self.compositor = compositor;

        let mut renderers = SceneRenderers::new();
        std::mem::swap(&mut renderers, &mut self.renderers);
        let create = renderers.ensure(dev_id);
        self.renderers = renderers;
        if create {
            actions.push(Action::CreateRenderer { dev_id, use_cpu: self.use_cpu });
        }
        self.stage = FrameStage::Rasterizing;

        actions.push(Action::BuildScene { width, height });
        actions.push(Action::Rasterize { dev_id, params: RenderParams::for_frame(width, height) });
        assert(actions@ =~= old(self)@.render_actions());
        actions
    }

    /// Takes the outcome of the rasterisation that [`RenderContext::render`]
    /// asked for.
    pub fn frame_rendered(&mut self, outcome: RenderOutcome) -> (result: Result<
        Vec<Action>,
        FatalError,
    >)
        ensures
            final(self)@ == old(self)@.after_rasterize(outcome),
            match result {
                Ok(actions) => old(self)@.rasterize_result(outcome) == Ok::<
                    Seq<Action>,
                    FatalError,
                >(actions@),
                Err(e) => old(self)@.rasterize_result(outcome) == Err::<Seq<Action>, FatalError>(e),
            },
            final(self)@.wf(),
    {
        proof {
            use_type_invariant(&*self);
        }
        let mut actions: Vec<Action> = Vec::new();
        match self.stage {
            FrameStage::Rasterizing => {},
            _ => {
                return Ok(actions);
            },
        }
        match outcome {
            RenderOutcome::Completed => {
                self.stage = FrameStage::Acquiring;
                actions.push(Action::AcquireFrame);
                assert(actions@ =~= seq![Action::AcquireFrame]);
                Ok(actions)
            },
            RenderOutcome::Failed => {
                self.stage = FrameStage::Idle;
                Ok(actions)
            },
            RenderOutcome::DeviceLost => {
                self.stage = FrameStage::Idle;
                Err(FatalError::DeviceLost)
            },
        }
    }

    /// Takes the outcome of the frame acquisition that
    /// [`RenderContext::frame_rendered`] asked for.
    pub fn frame_acquired(&mut self, outcome: AcquireOutcome) -> (result: Result<
        Vec<Action>,
        FatalError,
    >)
        ensures
            final(self)@ == old(self)@.after_acquire(outcome),
            match result {
                Ok(actions) => old(self)@.acquire_result(outcome) == Ok::<Seq<Action>, FatalError>(
                    actions@,
                ),
                Err(e) => old(self)@.acquire_result(outcome) == Err::<Seq<Action>, FatalError>(e),
            },
            final(self)@.wf(),
    {
        proof {
            use_type_invariant(&*self);
        }
        let mut actions: Vec<Action> = Vec::new();
        match self.stage {
            FrameStage::Acquiring => {},
            _ => {
                return Ok(actions);
            },
        }
        self.stage = FrameStage::Idle;
        match outcome.classify() {
            Acquisition::Frame => {
                actions.push(Action::Composite);
                assert(actions@ =~= seq![Action::Composite]);
                Ok(actions)
            },
            Acquisition::Retryable => {
                actions.push(Action::Warn { outcome });
                assert(actions@ =~= seq![Action::Warn { outcome }]);
                Ok(actions)
            },
            Acquisition::Fatal => {
                match outcome {
                    AcquireOutcome::OutOfMemory => Err(FatalError::SurfaceOutOfMemory),
                    _ => Err(FatalError::SurfaceFailed),
                }
            },
        }
    }

    /// The configuration of the presentation surface.
    pub fn surface(&self) -> (surface: Surface)
        ensures
            surface == self@.surface,
    {
        self.surface
    }

    /// The size that the window reported last.
    pub fn window_size(&self) -> (size: PhysicalSize)
        ensures
            size == self@.window_size,
    {
        self.window_size
    }

    /// The intermediate target.
    pub fn target(&self) -> (target: IntermediateTarget)
        ensures
            target == self@.target,
    {
        self.target
    }

    /// The compositor's bind group slot.
    pub fn compositor(&self) -> (compositor: Compositor)
        ensures
            compositor == self@.compositor,
    {
        self.compositor
    }

    /// The stage of the frame in flight.
    pub fn stage(&self) -> (stage: FrameStage)
        ensures
            stage == self@.stage,
    {
        self.stage
    }

    /// Whether the rasterisers run on the CPU.
    pub fn use_cpu(&self) -> (use_cpu: bool)
        ensures
            use_cpu == self@.use_cpu,
    {
        self.use_cpu
    }

    /// Whether a renderer exists for `dev_id`.
    pub fn has_renderer(&self, dev_id: usize) -> (present: bool)
        ensures
            present == has_renderer(self@.renderers, dev_id),
    {
        self.renderers.has(dev_id)
    }
}

} // verus!
