//! What the frame driver asks its surroundings to do. The driver decides;
//! the event loop performs each action in the order given.

use crate::render::scene::RenderParams;
use crate::render::surface::{AcquireOutcome, PresentMode, SurfaceFormat};
use vstd::prelude::*;

verus! {

/// A resource that is released on close.
#[derive(Clone, Copy, Debug, PartialEq, Eq, Structural)]
pub enum Resource {
    /// The surface of the window, with a frame that was acquired and not
    /// presented.
    PresentationSurface,
    /// The intermediate texture, with the bind group built for it.
    IntermediateTarget,
    /// The blit pipeline, its layout and its sampler.
    Compositor,
    /// The rasterisers of all devices, and the scene.
    SceneRenderer,
    /// The devices and their queues.
    DeviceContext,
    /// The handle of the window.
    Window,
}

/// One step of outside work.
#[derive(Clone, Copy, Debug, PartialEq, Eq, Structural)]
pub enum Action {
    /// Open the window.
    CreateWindow,
    /// Create the device context and the presentation surface of the window.
    CreateSurface { present_mode: PresentMode },
    /// Build the blit pipeline, its layout and its sampler for frames of
    /// this format.
    CreateCompositor { format: SurfaceFormat },
    /// Build the rasteriser of a device.
    CreateRenderer { dev_id: usize, use_cpu: bool },
    /// Ask the window system for another redraw signal.
    RequestRedraw,
    /// Reconfigure the presentation surface to this size.
    ReconfigureSurface { width: u32, height: u32 },
    /// Drop the intermediate texture and the bind group built for it.
    DropTarget,
    /// Create the intermediate texture at this size, in place of any other.
    CreateTarget { width: u32, height: u32 },
    /// Build the bind group for the current intermediate texture.
    CreateBindGroup,
    /// Build the scene for a frame of this size from scratch.
    BuildScene { width: u32, height: u32 },
    /// Rasterise the scene into the intermediate texture and report the
    /// outcome.
    Rasterize { dev_id: usize, params: RenderParams },
    /// Ask the surface for its next frame and report the outcome.
    AcquireFrame,
    /// Blit the intermediate texture into the acquired frame, submit, and
    /// present the frame.
    Composite,
    /// Note at warning level that this tick was skipped.
    Warn { outcome: AcquireOutcome },
    /// Release a resource.
    Release { resource: Resource },
    /// Leave the event loop.
    ExitLoop,
}

/// Why rendering cannot go on.
#[derive(Clone, Copy, Debug, PartialEq, Eq, Structural)]
pub enum FatalError {
    /// The device was lost while the scene was rasterised.
    DeviceLost,
    /// The surface has no memory for another frame.
    SurfaceOutOfMemory,
    /// The surface failed in a way that no retry mends.
    SurfaceFailed,
}

impl Action {
    /// The action writes to a frame of the presentation surface.
    pub open spec fn presents(self) -> bool {
        self is Composite
    }

    /// The action reconfigures the presentation surface.
    pub open spec fn reconfigures(self) -> bool {
        self is ReconfigureSurface
    }
}

/// No action of the list writes to a frame.
pub open spec fn never_presents(actions: Seq<Action>) -> bool {
    forall|i: int| 0 <= i < actions.len() ==> !(#[trigger] actions[i]).presents()
}

} // verus!
