//! Laws of the frame driver, stated over its model.

use crate::app::driver::{DriverModel, Phase, WindowEvent};
use crate::app::teardown::teardown_actions;
use crate::render::action::{never_presents, Action, FatalError};
use crate::render::laws::lemma_transitions_keep_invariants;
use crate::render::scene::RenderOutcome;
use crate::render::surface::{AcquireOutcome, PhysicalSize, Surface};
use vstd::prelude::*;

verus! {

/// Every signal keeps the invariants of a driver.
pub proof fn lemma_signals_keep_invariants(
    driver: DriverModel,
    window_id: u64,
    surface: Surface,
    event: WindowEvent,
    rendered: RenderOutcome,
    acquired: AcquireOutcome,
)
    requires
        driver.wf(),
        surface.dev_id < usize::MAX,
    ensures
        driver.with_surface(window_id, surface).wf(),
        driver.on_window_event(window_id, event).wf(),
        driver.after_rasterize(rendered).wf(),
        driver.after_acquire(acquired).wf(),
        driver.exited().wf(),
{
    if driver.running() {
        let context = driver.render.unwrap();
        match driver.resize_request {
            Some(size) => {
                lemma_transitions_keep_invariants(context, size, rendered, acquired);
                lemma_transitions_keep_invariants(context.resized(size), size, rendered, acquired);
            },
            None => {
                lemma_transitions_keep_invariants(
                    context,
                    PhysicalSize { width: 0, height: 0 },
                    rendered,
                    acquired,
                );
            },
        }
    }
}

impl DriverModel {
    /// The driver after a run of resize signals for its window, oldest
    /// first.
    pub open spec fn after_resizes(self, window_id: u64, sizes: Seq<PhysicalSize>) -> DriverModel
        decreases sizes.len(),
    {
        if sizes.len() == 0 {
            self
        } else {
            self.after_resizes(window_id, sizes.drop_last()).on_window_event(
                window_id,
                WindowEvent::Resized(sizes.last()),
            )
        }
    }
}

/// A resize signal touches neither the surface nor anything derived from
/// it. It replaces the pending request and asks for a redraw.
pub proof fn lemma_resize_signal_is_deferred(driver: DriverModel, window_id: u64, size: PhysicalSize)
    requires
        driver.owns(window_id),
    ensures
        driver.on_window_event(window_id, WindowEvent::Resized(size)) == driver.on_resized(size),
        driver.on_resized(size).render == driver.render,
        driver.on_resized(size).resize_request == Some(size),
        driver.on_resized(size).owns(window_id),
        driver.window_event_actions(window_id, WindowEvent::Resized(size)) == seq![
            Action::RequestRedraw,
        ],
{
}

/// Coalescing law, the signals: after any run of resize signals between two
/// ticks only the last request is pending, and the render context is the
/// one from before the run.
pub proof fn lemma_resizes_coalesce(driver: DriverModel, window_id: u64, sizes: Seq<PhysicalSize>)
    requires
        driver.owns(window_id),
        sizes.len() > 0,
    ensures
        driver.after_resizes(window_id, sizes) == driver.on_resized(sizes.last()),
    decreases sizes.len(),
{
    let earlier = sizes.drop_last();
    if earlier.len() > 0 {
        lemma_resizes_coalesce(driver, window_id, earlier);
        lemma_resize_signal_is_deferred(driver, window_id, earlier.last());
    }
    let before = driver.after_resizes(window_id, earlier);
    lemma_resize_signal_is_deferred(before, window_id, sizes.last());
}

/// Coalescing law, the tick: the tick after a run of resize signals applies
/// the last request and no other. The surface is reconfigured at most once,
/// as the first thing and to the size asked for last, and exactly once
/// where that size has an area.
pub proof fn lemma_tick_applies_last_resize(
    driver: DriverModel,
    window_id: u64,
    sizes: Seq<PhysicalSize>,
)
    requires
        driver.wf(),
        driver.owns(window_id),
        sizes.len() > 0,
    ensures
        ({
            let pending = driver.after_resizes(window_id, sizes);
            let last = sizes.last();
            let context = driver.render.unwrap();
            let actions = pending.window_event_actions(window_id, WindowEvent::RedrawRequested);
            let after = pending.on_window_event(window_id, WindowEvent::RedrawRequested);
            &&& after.render == Some(context.resized(last).rendered())
            &&& after.resize_request is None
            &&& after.phase is Ready
            &&& actions == context.resize_actions(last) + context.resized(last).render_actions()
            &&& !last.is_empty() ==> actions.len() > 0 && actions[0] == (Action::ReconfigureSurface {
                width: last.width,
                height: last.height,
            })
            &&& forall|i: int|
                0 <= i < actions.len() && (#[trigger] actions[i]).reconfigures() ==> i == 0
                    && !last.is_empty()
        }),
{
    lemma_resizes_coalesce(driver, window_id, sizes);
}

/// A close signal leaves the driver without window, render context and
/// pending resize, and asks for the teardown, which presents nothing and
/// ends by leaving the event loop.
pub proof fn lemma_close_tears_down(driver: DriverModel, window_id: u64)
    requires
        driver.wf(),
        driver.owns(window_id),
    ensures
        ({
            let closed = driver.on_window_event(window_id, WindowEvent::CloseRequested);
            let actions = driver.window_event_actions(window_id, WindowEvent::CloseRequested);
            &&& closed.phase is ShuttingDown
            &&& closed.window is None
            &&& closed.render is None
            &&& closed.wf()
            &&& actions == teardown_actions()
            &&& actions.last() == Action::ExitLoop
            &&& never_presents(actions)
        }),
{
}

/// Once close was requested no signal makes the driver ask for anything:
/// an outcome that comes in for the frame that was in flight is dropped, so
/// that frame is never presented, and the driver stays without resources.
pub proof fn lemma_closed_driver_is_silent(
    driver: DriverModel,
    window_id: u64,
    surface: Surface,
    event: WindowEvent,
    rendered: RenderOutcome,
    acquired: AcquireOutcome,
)
    requires
        driver.wf(),
        driver.phase is ShuttingDown || driver.phase is Terminated,
    ensures
        driver.resumed_actions() == Seq::<Action>::empty(),
        driver.surface_actions(surface) == Seq::<Action>::empty(),
        driver.with_surface(window_id, surface) == driver,
        driver.window_event_actions(window_id, event) == Seq::<Action>::empty(),
        driver.on_window_event(window_id, event) == driver,
        driver.idle_actions() == Seq::<Action>::empty(),
        driver.rasterize_result(rendered) == Ok::<Seq<Action>, FatalError>(seq![]),
        driver.after_rasterize(rendered) == driver,
        driver.acquire_result(acquired) == Ok::<Seq<Action>, FatalError>(seq![]),
        driver.after_acquire(acquired) == driver,
        driver.exited().phase is Terminated,
{
}

/// The driver moves through its phases in one direction: from
/// uninitialized to ready, between ready and resizing, from either to
/// shutting down, and from there to terminated.
pub open spec fn phase_step(before: Phase, after: Phase) -> bool {
    ||| before == after
    ||| before is Uninitialized && after is Ready
    ||| before is Ready && after is Resizing
    ||| before is Resizing && after is Ready
    ||| (before is Ready || before is Resizing) && after is ShuttingDown
    ||| before is ShuttingDown && after is Terminated
}

/// Every signal moves the driver along a step of its life cycle, and each
/// kind of signal only along its own.
pub proof fn lemma_phases_follow_life_cycle(
    driver: DriverModel,
    window_id: u64,
    surface: Surface,
    event: WindowEvent,
    rendered: RenderOutcome,
    acquired: AcquireOutcome,
)
    requires
        driver.wf(),
    ensures
        phase_step(driver.phase, driver.with_surface(window_id, surface).phase),
        phase_step(driver.phase, driver.on_window_event(window_id, event).phase),
        driver.after_rasterize(rendered).phase == driver.phase,
        driver.after_acquire(acquired).phase == driver.phase,
        phase_step(driver.phase, driver.exited().phase),
        driver.on_window_event(window_id, event).phase is ShuttingDown ==> driver.phase
            is ShuttingDown || (driver.owns(window_id) && event is CloseRequested),
        driver.on_window_event(window_id, event).phase is Resizing && !(driver.phase is Resizing)
            ==> event is Resized,
{
}

} // verus!
