//! Laws of the render context, stated over its model.

use crate::render::action::{never_presents, Action, FatalError};
use crate::render::context::{FrameStage, RenderModel};
use crate::render::scene::{frame_params, RenderOutcome};
use crate::render::surface::{AcquireOutcome, PhysicalSize};
use crate::render::target::{next_generation, Target};
use vstd::prelude::*;

verus! {

/// Every transition keeps the invariants of a render context.
pub proof fn lemma_transitions_keep_invariants(
    context: RenderModel,
    size: PhysicalSize,
    rendered: RenderOutcome,
    acquired: AcquireOutcome,
)
    requires
        context.wf(),
    ensures
        context.resized(size).wf(),
        context.rendered().wf(),
        context.after_rasterize(rendered).wf(),
        context.after_acquire(acquired).wf(),
{
}

/// Resize no-op law: a request without area leaves the configuration of
/// the surface as it was and invalidates nothing. Only the size of the
/// window is remembered, and nothing is asked of the surroundings.
pub proof fn lemma_resize_without_area(context: RenderModel, size: PhysicalSize)
    requires
        size.is_empty(),
    ensures
        context.resized(size) == (RenderModel { window_size: size, ..context }),
        context.resized(size).surface == context.surface,
        context.resized(size).target == context.target,
        context.resized(size).compositor == context.compositor,
        context.resize_actions(size) == Seq::<Action>::empty(),
{
}

/// While the window has no area a tick renders nothing: the context stays
/// as it is, no frame is acquired and nothing is asked of the surroundings.
pub proof fn lemma_tick_without_area(context: RenderModel, size: PhysicalSize)
    requires
        size.is_empty(),
    ensures
        context.resized(size).suspended(),
        context.resized(size).rendered() == context.resized(size),
        context.resized(size).render_actions() == Seq::<Action>::empty(),
{
}

/// Invalidation law, first half: a request with area becomes the size of
/// the surface, and the intermediate target and the bind group are absent
/// from then on. The surroundings reconfigure the surface once and drop the
/// target.
pub proof fn lemma_resize_invalidates(context: RenderModel, size: PhysicalSize)
    requires
        context.wf(),
        !size.is_empty(),
    ensures
        context.resized(size).wf(),
        context.resized(size).surface.size() == size,
        context.resized(size).window_size == size,
        context.resized(size).target.current is None,
        context.resized(size).compositor.bind_group is None,
        context.resized(size).stage is Idle,
        context.resize_actions(size) == seq![
            Action::ReconfigureSurface { width: size.width, height: size.height },
            Action::DropTarget,
        ],
{
}

/// Invalidation law, in between: an absent target stays absent, and with it
/// the bind group, whatever comes in before the next tick.
pub proof fn lemma_only_a_tick_creates(
    context: RenderModel,
    size: PhysicalSize,
    rendered: RenderOutcome,
    acquired: AcquireOutcome,
)
    requires
        context.wf(),
        context.target.current is None,
    ensures
        context.compositor.bind_group is None,
        context.resized(size).target.current is None,
        context.resized(size).compositor.bind_group is None,
        context.after_rasterize(rendered).target.current is None,
        context.after_rasterize(rendered).compositor.bind_group is None,
        context.after_acquire(acquired).target.current is None,
        context.after_acquire(acquired).compositor.bind_group is None,
{
}

/// Invalidation law, second half: the tick after a request with area
/// creates the intermediate target at exactly the requested size and builds
/// the bind group for it. Neither is the one from before the request.
pub proof fn lemma_tick_after_resize_recreates(context: RenderModel, size: PhysicalSize)
    requires
        context.wf(),
        !size.is_empty(),
    ensures
        ({
            let resized = context.resized(size);
            let fresh = Target {
                width: size.width,
                height: size.height,
                generation: next_generation(context.target.created),
            };
            &&& resized.rendered().wf()
            &&& resized.rendered().target.current == Some(fresh)
            &&& resized.rendered().compositor.is_bound_to(fresh)
            &&& resized.rendered().stage is Rasterizing
            &&& resized.render_actions().len() >= 4
            &&& resized.render_actions()[0] == (Action::CreateTarget {
                width: size.width,
                height: size.height,
            })
            &&& resized.render_actions()[1] == Action::CreateBindGroup
            &&& context.target.current matches Some(t) ==> t.generation != fresh.generation
            &&& context.compositor.bind_group matches Some(b) ==> b.target_generation
                != fresh.generation
        }),
{
}

/// A tick that finds everything in place creates nothing: it builds the
/// scene once and rasterises it with the parameters of the surface's size.
pub proof fn lemma_steady_tick_creates_nothing(context: RenderModel)
    requires
        context.wf(),
        !context.suspended(),
        !context.creates_target(),
        !context.creates_bind_group(),
        !context.creates_renderer(),
    ensures
        context.rendered() == (RenderModel { stage: FrameStage::Rasterizing, ..context }),
        context.render_actions() == seq![
            Action::BuildScene { width: context.surface.width, height: context.surface.height },
            Action::Rasterize {
                dev_id: context.surface.dev_id,
                params: frame_params(context.surface.width, context.surface.height),
            },
        ],
{
    assert(context.rendered().renderers =~= context.renderers);
    assert(context.render_actions() =~= seq![
        Action::BuildScene { width: context.surface.width, height: context.surface.height },
        Action::Rasterize {
            dev_id: context.surface.dev_id,
            params: frame_params(context.surface.width, context.surface.height),
        },
    ]);
}

/// A tick that renders builds the scene exactly once, after everything it
/// draws into exists, and rasterises it as the last thing.
pub proof fn lemma_tick_builds_scene_once(context: RenderModel)
    requires
        !context.suspended(),
    ensures
        ({
            let actions = context.render_actions();
            let width = context.surface.width;
            let height = context.surface.height;
            &&& 2 <= actions.len() <= 5
            &&& actions[actions.len() - 2] == (Action::BuildScene { width, height })
            &&& actions[actions.len() - 1] == (Action::Rasterize {
                dev_id: context.surface.dev_id,
                params: frame_params(width, height),
            })
            &&& forall|i: int|
                0 <= i < actions.len() - 2 ==> !((#[trigger] actions[i]) is BuildScene)
                    && !(actions[i] is Rasterize)
        }),
{
}

/// After a tick the intermediate target has the size of the surface, the
/// bind group refers to it and the device has its renderer, whatever the
/// context was before.
pub proof fn lemma_tick_establishes_resources(context: RenderModel)
    requires
        context.wf(),
        !context.suspended(),
    ensures
        context.rendered().target.fits(context.surface.width, context.surface.height),
        context.rendered().compositor.is_bound_to(context.rendered().target.current.unwrap()),
        !context.rendered().creates_target(),
        !context.rendered().creates_bind_group(),
        !context.rendered().creates_renderer(),
{
}

/// Retry law: a timeout, an outdated or a lost surface is never fatal. The
/// tick ends with a warning and nothing else: no scene is built, nothing is
/// presented, and every resource stays. The next tick creates nothing,
/// builds the scene once and, after the rasterisation, asks the surface
/// again.
pub proof fn lemma_retry(context: RenderModel, outcome: AcquireOutcome)
    requires
        context.wf(),
        context.stage is Acquiring,
        outcome.classify() is Retryable,
    ensures
        context.acquire_result(outcome) == Ok::<Seq<Action>, FatalError>(
            seq![Action::Warn { outcome }],
        ),
        context.after_acquire(outcome) == (RenderModel { stage: FrameStage::Idle, ..context }),
        context.after_acquire(outcome).wf(),
        !context.suspended() ==> ({
            let next = context.after_acquire(outcome);
            &&& next.render_actions() == seq![
                Action::BuildScene { width: context.surface.width, height: context.surface.height },
                Action::Rasterize {
                    dev_id: context.surface.dev_id,
                    params: frame_params(context.surface.width, context.surface.height),
                },
            ]
            &&& next.rendered() == (RenderModel { stage: FrameStage::Rasterizing, ..context })
            &&& next.rendered().rasterize_result(RenderOutcome::Completed) == Ok::<
                Seq<Action>,
                FatalError,
            >(seq![Action::AcquireFrame])
            &&& next.rendered().after_rasterize(RenderOutcome::Completed) == context
        }),
{
    if !context.suspended() {
        let next = context.after_acquire(outcome);
        lemma_steady_tick_creates_nothing(next);
    }
}

/// A frame is presented only in answer to an acquisition that handed one
/// out, and only while the context waits for it.
pub proof fn lemma_presents_only_acquired_frames(
    context: RenderModel,
    size: PhysicalSize,
    rendered: RenderOutcome,
    acquired: AcquireOutcome,
)
    ensures
        never_presents(context.resize_actions(size)),
        never_presents(context.render_actions()),
        context.rasterize_result(rendered) matches Ok(actions) ==> never_presents(actions),
        context.acquire_result(acquired) matches Ok(actions) ==> never_presents(actions) || (
        context.stage is Acquiring && acquired is Acquired),
{
}

} // verus!
