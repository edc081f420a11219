//! The frame driver: one state machine from the first window-ready signal
//! to the release of the last resource.

use crate::app::path_view;
use crate::app::path_view_ref;
use crate::app::teardown::{teardown, teardown_actions};
use crate::render::action::{Action, FatalError};
use crate::render::context::{RenderContext, RenderModel};
use crate::render::scene::RenderOutcome;
use crate::render::surface::{AcquireOutcome, PhysicalSize, PresentMode, Surface};
use vstd::prelude::*;

verus! {

/// Where the driver stands in its life.
#[derive(Clone, Copy, Debug, PartialEq, Eq, Structural)]
pub enum Phase {
    /// No window yet.
    Uninitialized,
    /// The window is open and no resize is pending.
    Ready,
    /// A resize request waits for the next tick.
    Resizing,
    /// Close was requested; the resources are being released.
    ShuttingDown,
    /// The event loop was left.
    Terminated,
}

/// A signal about the window.
#[derive(Clone, Copy, Debug, PartialEq, Eq, Structural)]
pub enum WindowEvent {
    CloseRequested,
    RedrawRequested,
    Resized(PhysicalSize),
    /// Any signal that the driver has no use for.
    Other,
}

/// What a frame driver is, as plain values.
pub struct DriverModel {
    pub phase: Phase,
    /// Id of the window, while it is open.
    pub window: Option<u64>,
    pub render: Option<RenderModel>,
    pub script_path: Option<Seq<char>>,
    pub use_cpu: bool,
    /// The resize request that the next tick applies.
    pub resize_request: Option<PhysicalSize>,
}

impl DriverModel {
    /// The invariants of a driver: window and render context exist exactly
    /// while the driver is ready or resizing, and a resize is pending
    /// exactly while it is resizing.
    pub open spec fn wf(self) -> bool {
        match self.phase {
            Phase::Ready => {
                &&& self.window is Some
                &&& self.render matches Some(r) && r.wf()
                &&& self.resize_request is None
            },
            Phase::Resizing => {
                &&& self.window is Some
                &&& self.render matches Some(r) && r.wf()
                &&& self.resize_request is Some
            },
            _ => {
                &&& self.window is None
                &&& self.render is None
                &&& self.resize_request is None
            },
        }
    }

    /// A driver that has seen no signal.
    pub open spec fn initial(script_path: Option<Seq<char>>, use_cpu: bool) -> DriverModel {
        DriverModel {
            phase: Phase::Uninitialized,
            window: None,
            render: None,
            script_path,
            use_cpu,
            resize_request: None,
        }
    }

    /// The window is open.
    pub open spec fn running(self) -> bool {
        self.phase is Ready || self.phase is Resizing
    }

    /// The signal concerns the window of this driver.
    pub open spec fn owns(self, window_id: u64) -> bool {
        self.running() && self.window == Some(window_id)
    }

    /// What the window-ready signal asks for: a window and its surface,
    /// once.
    pub open spec fn resumed_actions(self) -> Seq<Action> {
        if self.phase is Uninitialized {
            seq![
                Action::CreateWindow,
                Action::CreateSurface { present_mode: PresentMode::AutoVsync },
            ]
        } else {
            seq![]
        }
    }

    /// The driver after window and surface were created.
    pub open spec fn with_surface(self, window_id: u64, surface: Surface) -> DriverModel {
        if self.phase is Uninitialized {
            DriverModel {
                phase: Phase::Ready,
                window: Some(window_id),
                render: Some(RenderModel::initial(surface, self.use_cpu)),
                ..self
            }
        } else {
            self
        }
    }

    /// What is built once the surface exists: the renderer of its device
    /// and the compositor for its format.
    pub open spec fn surface_actions(self, surface: Surface) -> Seq<Action> {
        if self.phase is Uninitialized {
            RenderModel::initial(surface, self.use_cpu).setup_actions()
        } else {
            seq![]
        }
    }

    /// The driver after a resize signal: the request replaces any that was
    /// pending.
    pub open spec fn on_resized(self, size: PhysicalSize) -> DriverModel {
        DriverModel { phase: Phase::Resizing, resize_request: Some(size), ..self }
    }

    /// The render context of a tick, after the pending resize was applied.
    pub open spec fn tick_context(self) -> RenderModel {
        match self.resize_request {
            Some(size) => self.render.unwrap().resized(size),
            None => self.render.unwrap(),
        }
    }

    /// The driver after a redraw signal: the pending resize is applied and
    /// cleared, then the tick starts.
    pub open spec fn on_redraw(self) -> DriverModel {
        DriverModel {
            phase: Phase::Ready,
            render: Some(self.tick_context().rendered()),
            resize_request: None,
            ..self
        }
    }

    /// What a redraw signal asks of the surroundings.
    pub open spec fn redraw_actions(self) -> Seq<Action> {
        (match self.resize_request {
            Some(size) => self.render.unwrap().resize_actions(size),
            None => seq![],
        }) + self.tick_context().render_actions()
    }

    /// The driver after a close signal: nothing is left to render with.
    pub open spec fn on_close(self) -> DriverModel {
        DriverModel {
            phase: Phase::ShuttingDown,
            window: None,
            render: None,
            resize_request: None,
            ..self
        }
    }

    /// The driver after a signal about a window.
    pub open spec fn on_window_event(self, window_id: u64, event: WindowEvent) -> DriverModel {
        if !self.owns(window_id) {
            self
        } else {
            match event {
                WindowEvent::CloseRequested => self.on_close(),
                WindowEvent::RedrawRequested => self.on_redraw(),
                WindowEvent::Resized(size) => self.on_resized(size),
                WindowEvent::Other => self,
            }
        }
    }

    /// What a signal about a window asks of the surroundings.
    pub open spec fn window_event_actions(self, window_id: u64, event: WindowEvent) -> Seq<
        Action,
    > {
        if !self.owns(window_id) {
            seq![]
        } else {
            match event {
                WindowEvent::CloseRequested => teardown_actions(),
                WindowEvent::RedrawRequested => self.redraw_actions(),
                WindowEvent::Resized(size) => seq![Action::RequestRedraw],
                WindowEvent::Other => seq![],
            }
        }
    }

    /// What the idle signal asks for: the next redraw, while the window is
    /// open.
    pub open spec fn idle_actions(self) -> Seq<Action> {
        if self.window is Some {
            seq![Action::RequestRedraw]
        } else {
            seq![]
        }
    }

    /// The driver after the outcome of a rasterisation came in.
    pub open spec fn after_rasterize(self, outcome: RenderOutcome) -> DriverModel {
        match self.render {
            Some(r) => DriverModel { render: Some(r.after_rasterize(outcome)), ..self },
            None => self,
        }
    }

    /// What follows a rasterisation. Without a render context nothing does.
    pub open spec fn rasterize_result(self, outcome: RenderOutcome) -> Result<
        Seq<Action>,
        FatalError,
    > {
        match self.render {
            Some(r) => r.rasterize_result(outcome),
            None => Ok(seq![]),
        }
    }

    /// The driver after the outcome of a frame acquisition came in.
    pub open spec fn after_acquire(self, outcome: AcquireOutcome) -> DriverModel {
        match self.render {
            Some(r) => DriverModel { render: Some(r.after_acquire(outcome)), ..self },
            None => self,
        }
    }

    /// What follows a frame acquisition. Without a render context nothing
    /// does.
    pub open spec fn acquire_result(self, outcome: AcquireOutcome) -> Result<
        Seq<Action>,
        FatalError,
    > {
        match self.render {
            Some(r) => r.acquire_result(outcome),
            None => Ok(seq![]),
        }
    }

    /// The driver after the event loop was left.
    pub open spec fn exited(self) -> DriverModel {
        if self.phase is ShuttingDown {
            DriverModel { phase: Phase::Terminated, ..self }
        } else {
            self
        }
    }
}

/// The frame driver of one window.
pub struct AppState {
    phase: Phase,
    window: Option<u64>,
    render_context: Option<RenderContext>,
    script_path: Option<String>,
    use_cpu: bool,
    resize_request: Option<PhysicalSize>,
}

/// The view of an optional render context.
pub open spec fn render_view(context: Option<RenderContext>) -> Option<RenderModel> {
    match context {
        Some(c) => Some(c@),
        None => None,
    }
}

impl View for AppState {
    type V = DriverModel;

    closed spec fn view(&self) -> DriverModel {
        DriverModel {
            phase: self.phase,
            window: self.window,
            render: render_view(self.render_context),
            script_path: path_view(self.script_path),
            use_cpu: self.use_cpu,
            resize_request: self.resize_request,
        }
    }
}

impl AppState {
    /// Holds of every driver: `use_type_invariant` yields it.
    #[verifier::type_invariant]
    pub open spec fn well_formed(self) -> bool {
        self@.wf()
    }

    /// A driver that has seen no signal.
    pub fn new(script_path: Option<String>, use_cpu: bool) -> (driver: Self)
        ensures
            driver@ == DriverModel::initial(path_view(script_path), use_cpu),
            driver@.wf(),
    {
        Self {
            phase: Phase::Uninitialized,
            window: None,
            render_context: None,
            script_path,
            use_cpu,
            resize_request: None,
        }
    }

    /// Moves the driver out and leaves a driver without resources behind.
    fn take(&mut self) -> (taken: Self)
        ensures
            taken@ == old(self)@,
            final(self)@ == DriverModel::initial(None, false),
    {
        let mut taken = AppState::new(None, false);
        std::mem::swap(self, &mut taken);
        taken
    }

    /// Takes the window-ready signal. When it asks for a window and a
    /// surface, the answer goes to [`AppState::surface_created`].
    pub fn resumed(&mut self) -> (actions: Vec<Action>)
        ensures
            final(self)@ == old(self)@,
            actions@ == old(self)@.resumed_actions(),
            final(self)@.wf(),
    {
        proof {
            use_type_invariant(&*self);
        }
        let mut actions: Vec<Action> = Vec::new();
        match self.phase {
            Phase::Uninitialized => {
                actions.push(Action::CreateWindow);
                actions.push(Action::CreateSurface { present_mode: PresentMode::AutoVsync });
            },
            _ => {},
        }
        assert(actions@ =~= old(self)@.resumed_actions());
        actions
    }

    /// Takes the window and the surface that [`AppState::resumed`] asked
    /// for. A driver that waits for none ignores them.
    pub fn surface_created(&mut self, window_id: u64, surface: Surface) -> (actions: Vec<Action>)
        requires
            surface.dev_id < usize::MAX,
        ensures
            final(self)@ == old(self)@.with_surface(window_id, surface),
            actions@ == old(self)@.surface_actions(surface),
            final(self)@.wf(),
    {
        proof {
            use_type_invariant(&*self);
        }
        match self.phase {
            Phase::Uninitialized => {},
            _ => {
                return Vec::new();
            },
        }
        let context = RenderContext::new(surface, self.use_cpu);
        let actions = context.setup();
        let taken = self.take();
        let AppState { phase: _, window: _, render_context: _, script_path, use_cpu, resize_request } =
            taken;
        *self = AppState {
            phase: Phase::Ready,
            window: Some(window_id),
            render_context: Some(context),
            script_path,
            use_cpu,
            resize_request,
        };
        actions
    }

    /// Takes a signal about the window with the given id.
    pub fn window_event(&mut self, window_id: u64, event: WindowEvent) -> (actions: Vec<Action>)
        ensures
            final(self)@ == old(self)@.on_window_event(window_id, event),
            actions@ == old(self)@.window_event_actions(window_id, event),
            final(self)@.wf(),
    {
        proof {
            use_type_invariant(&*self);
        }
        let owns = match (self.phase, self.window) {
            (Phase::Ready, Some(id)) => id == window_id,
            (Phase::Resizing, Some(id)) => id == window_id,
            _ => false,
        };
        if !owns {
            return Vec::new();
        }
        match event {
            WindowEvent::Other => Vec::new(),
            WindowEvent::Resized(size) => {
                let taken = self.take();
                let AppState {
                    phase: _,
                    window,
                    render_context,
                    script_path,
                    use_cpu,
                    resize_request: _,
                } = taken;
                *self = AppState {
                    phase: Phase::Resizing,
                    window,
                    render_context,
                    script_path,
                    use_cpu,
                    resize_request: Some(size),
                };
                let mut actions: Vec<Action> = Vec::new();
                actions.push(Action::RequestRedraw);
                assert(actions@ =~= seq![Action::RequestRedraw]);
                actions
            },
            WindowEvent::CloseRequested => {
                let taken = self.take();
                let AppState {
                    phase: _,
                    window: _,
                    render_context: _,
                    script_path,
                    use_cpu,
                    resize_request: _,
                } = taken;
                *self = AppState {
                    phase: Phase::ShuttingDown,
                    window: None,
                    render_context: None,
                    script_path,
                    use_cpu,
                    resize_request: None,
                };
                teardown()
            },
            WindowEvent::RedrawRequested => {
                let taken = self.take();
                let AppState { phase: _, window, render_context, script_path, use_cpu, resize_request } =
                    taken;
                let mut context = render_context.unwrap();
                let mut actions: Vec<Action> = Vec::new();
                if let Some(size) = resize_request {
                    actions = context.resize(size);
                }
                let mut more = context.render();
                actions.append(&mut more);
                *self = AppState {
                    phase: Phase::Ready,
                    window,
                    render_context: Some(context),
                    script_path,
                    use_cpu,
                    resize_request: None,
                };
                actions
            },
        }
    }

    /// Takes the idle signal.
    pub fn about_to_wait(&mut self) -> (actions: Vec<Action>)
        ensures
            final(self)@ == old(self)@,
            actions@ == old(self)@.idle_actions(),
            final(self)@.wf(),
    {
        proof {
            use_type_invariant(&*self);
        }
        let mut actions: Vec<Action> = Vec::new();
        if self.window.is_some() {
            actions.push(Action::RequestRedraw);
        }
        assert(actions@ =~= old(self)@.idle_actions());
        actions
    }

    /// Takes the outcome of the rasterisation that the last tick asked for.
    pub fn frame_rendered(&mut self, outcome: RenderOutcome) -> (result: Result<
        Vec<Action>,
        FatalError,
    >)
        ensures
            final(self)@ == old(self)@.after_rasterize(outcome),
            match result {
                Ok(actions) => old(self)@.rasterize_result(outcome) == Ok::<
                    Seq<Action>,
                    FatalError,
                >(actions@),
                Err(e) => old(self)@.rasterize_result(outcome) == Err::<Seq<Action>, FatalError>(e),
            },
            final(self)@.wf(),
    {
        proof {
            use_type_invariant(&*self);
        }
        let taken = self.take();
        let AppState { phase, window, render_context, script_path, use_cpu, resize_request } = taken;
        match render_context {
            Some(mut context) => {
                let result = context.frame_rendered(outcome);
                *self = AppState {
                    phase,
                    window,
                    render_context: Some(context),
                    script_path,
                    use_cpu,
                    resize_request,
                };
                result
            },
            None => {
                *self = AppState {
                    phase,
                    window,
                    render_context: None,
                    script_path,
                    use_cpu,
                    resize_request,
                };
                Ok(Vec::new())
            },
        }
    }

    /// Takes the outcome of the frame acquisition that the last tick asked
    /// for.
    pub fn frame_acquired(&mut self, outcome: AcquireOutcome) -> (result: Result<
        Vec<Action>,
        FatalError,
    >)
        ensures
            final(self)@ == old(self)@.after_acquire(outcome),
            match result {
                Ok(actions) => old(self)@.acquire_result(outcome) == Ok::<Seq<Action>, FatalError>(
                    actions@,
                ),
                Err(e) => old(self)@.acquire_result(outcome) == Err::<Seq<Action>, FatalError>(e),
            },
            final(self)@.wf(),
    {
        proof {
            use_type_invariant(&*self);
        }
        let taken = self.take();
        let AppState { phase, window, render_context, script_path, use_cpu, resize_request } = taken;
        match render_context {
            Some(mut context) => {
                let result = context.frame_acquired(outcome);
                *self = AppState {
                    phase,
                    window,
                    render_context: Some(context),
                    script_path,
                    use_cpu,
                    resize_request,
                };
                result
            },
            None => {
                *self = AppState {
                    phase,
                    window,
                    render_context: None,
                    script_path,
                    use_cpu,
                    resize_request,
                };
                Ok(Vec::new())
            },
        }
    }

    /// Takes the signal that the event loop was left.
    pub fn exiting(&mut self)
        ensures
            final(self)@ == old(self)@.exited(),
            final(self)@.wf(),
    {
        proof {
            use_type_invariant(&*self);
        }
        match self.phase {
            Phase::ShuttingDown => {
                self.phase = Phase::Terminated;
            },
            _ => {},
        }
    }

    /// Where the driver stands in its life.
    pub fn phase(&self) -> (phase: Phase)
        ensures
            phase == self@.phase,
    {
        self.phase
    }

    /// Id of the window, while it is open.
    pub fn window(&self) -> (window: Option<u64>)
        ensures
            window == self@.window,
    {
        self.window
    }

    /// The resize request that the next tick applies.
    pub fn resize_request(&self) -> (request: Option<PhysicalSize>)
        ensures
            request == self@.resize_request,
    {
        self.resize_request
    }

    /// The render context, while the window is open.
    pub fn render_context(&self) -> (context: Option<&RenderContext>)
        ensures
            self@.render == match context {
                Some(c) => Some(c@),
                None => None,
            },
    {
        self.render_context.as_ref()
    }

    /// The path of the script.
    pub fn script_path(&self) -> (path: Option<&String>)
        ensures
            path_view_ref(path) == self@.script_path,
    {
        self.script_path.as_ref()
    }

    /// Whether rasterising runs on the CPU.
    pub fn use_cpu(&self) -> (use_cpu: bool)
        ensures
            use_cpu == self@.use_cpu,
    {
        self.use_cpu
    }
}

} // verus!
