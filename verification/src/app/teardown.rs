//! The order in which resources are released when the window closes.

use crate::render::action::{Action, Resource};
use vstd::prelude::*;

verus! {

/// `user` holds a reference to `dependency` while it is alive.
pub open spec fn depends_on(user: Resource, dependency: Resource) -> bool {
    match (user, dependency) {
        (Resource::PresentationSurface, Resource::DeviceContext) => true,
        (Resource::PresentationSurface, Resource::Window) => true,
        (Resource::IntermediateTarget, Resource::DeviceContext) => true,
        (Resource::Compositor, Resource::DeviceContext) => true,
        (Resource::SceneRenderer, Resource::DeviceContext) => true,
        _ => false,
    }
}

/// `first` has to be gone before `second` is released: the surface, the
/// intermediate target and the compositor go before the scene renderer, the
/// scene renderer before the device context, the device context before the
/// window.
pub open spec fn must_precede(first: Resource, second: Resource) -> bool {
    match (first, second) {
        (Resource::PresentationSurface, Resource::SceneRenderer) => true,
        (Resource::IntermediateTarget, Resource::SceneRenderer) => true,
        (Resource::Compositor, Resource::SceneRenderer) => true,
        (Resource::SceneRenderer, Resource::DeviceContext) => true,
        (Resource::DeviceContext, Resource::Window) => true,
        _ => false,
    }
}

/// The resources in the order of their release.
pub open spec fn release_order() -> Seq<Resource> {
    seq![
        Resource::PresentationSurface,
        Resource::IntermediateTarget,
        Resource::Compositor,
        Resource::SceneRenderer,
        Resource::DeviceContext,
        Resource::Window,
    ]
}

/// What a close request asks of the surroundings: every resource is
/// released in order, then the event loop is left.
pub open spec fn teardown_actions() -> Seq<Action> {
    seq![
        Action::Release { resource: Resource::PresentationSurface },
        Action::Release { resource: Resource::IntermediateTarget },
        Action::Release { resource: Resource::Compositor },
        Action::Release { resource: Resource::SceneRenderer },
        Action::Release { resource: Resource::DeviceContext },
        Action::Release { resource: Resource::Window },
        Action::ExitLoop,
    ]
}

/// The place of a resource in the release order.
pub open spec fn release_rank(resource: Resource) -> int {
    match resource {
        Resource::PresentationSurface => 0,
        Resource::IntermediateTarget => 1,
        Resource::Compositor => 2,
        Resource::SceneRenderer => 3,
        Resource::DeviceContext => 4,
        Resource::Window => 5,
    }
}

/// The list of actions performed on close.
pub fn teardown() -> (actions: Vec<Action>)
    ensures
        actions@ == teardown_actions(),
{
    let mut actions: Vec<Action> = Vec::new();
    actions.push(Action::Release { resource: Resource::PresentationSurface });
    actions.push(Action::Release { resource: Resource::IntermediateTarget });
    actions.push(Action::Release { resource: Resource::Compositor });
    actions.push(Action::Release { resource: Resource::SceneRenderer });
    actions.push(Action::Release { resource: Resource::DeviceContext });
    actions.push(Action::Release { resource: Resource::Window });
    actions.push(Action::ExitLoop);
    assert(actions@ =~= teardown_actions());
    actions
}

/// Every resource is released exactly once, at the place that its rank
/// gives.
pub proof fn lemma_release_order_complete(resource: Resource)
    ensures
        0 <= release_rank(resource) < release_order().len(),
        release_order()[release_rank(resource)] == resource,
        forall|i: int|
            0 <= i < release_order().len() && release_order()[i] == resource ==> i
                == release_rank(resource),
{
}

/// Teardown ordering: whatever has to be gone before another resource is
/// released stands before it in the release order, and no resource is
/// released while another that refers to it is still alive.
pub proof fn lemma_teardown_ordering(first: Resource, second: Resource)
    ensures
        must_precede(first, second) ==> release_rank(first) < release_rank(second),
        depends_on(first, second) ==> release_rank(first) < release_rank(second),
{
}

/// The same ordering, read off the list of actions: the release of
/// `first` comes before the release of `second` wherever one has to precede
/// the other, every release comes before the loop is left, and nothing
/// follows that.
pub proof fn lemma_teardown_actions_ordered(i: int, j: int)
    requires
        0 <= i < teardown_actions().len(),
        0 <= j < teardown_actions().len(),
    ensures
        teardown_actions().len() == 7,
        teardown_actions()[6] == Action::ExitLoop,
        i < 6 ==> teardown_actions()[i] == (Action::Release { resource: release_order()[i] }),
        (teardown_actions()[i] matches Action::Release { resource: first }
            && teardown_actions()[j] matches Action::Release { resource: second } && (must_precede(
            first,
            second,
        ) || depends_on(first, second))) ==> i < j,
{
    if i < 6 && j < 6 {
        lemma_release_order_complete(release_order()[i]);
        lemma_release_order_complete(release_order()[j]);
        lemma_teardown_ordering(release_order()[i], release_order()[j]);
    }
}

} // verus!
