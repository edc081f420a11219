//! The compositor: a fixed full-screen pass that copies the intermediate
//! target onto the frame of the presentation surface. The pipeline, its
//! layout and its sampler never change; the bind group follows the target.

use crate::render::target::Target;
use vstd::prelude::*;

verus! {

/// Vertices of the full-screen triangle.
pub const BLIT_VERTICES: u32 = 3;

/// Instances drawn by the blit.
pub const BLIT_INSTANCES: u32 = 1;

/// Binding of the sampled texture view.
pub const TEXTURE_BINDING: u32 = 0;

/// Binding of the filtering sampler.
pub const SAMPLER_BINDING: u32 = 1;

/// The bind group that ties the sampler to one intermediate texture.
#[derive(Clone, Copy, Debug, PartialEq, Eq, Structural)]
pub struct BindGroup {
    /// Generation of the texture whose view is bound.
    pub target_generation: u64,
}

/// The part of the compositor that depends on the intermediate target.
#[derive(Clone, Copy, Debug, PartialEq, Eq, Structural)]
pub struct Compositor {
    pub bind_group: Option<BindGroup>,
}

impl Compositor {
    /// The bind group exists and was built for `target`.
    pub open spec fn is_bound_to(self, target: Target) -> bool {
        self.bind_group matches Some(b) && b.target_generation == target.generation
    }

    /// The compositor after a bind group for `target` was asked for: kept
    /// where it was built for that texture, else rebuilt.
    pub open spec fn bound(self, target: Target) -> Compositor {
        if self.is_bound_to(target) {
            self
        } else {
            Compositor { bind_group: Some(BindGroup { target_generation: target.generation }) }
        }
    }

    /// A compositor without a bind group.
    pub fn new() -> (compositor: Self)
        ensures
            compositor == (Compositor { bind_group: None }),
    {
        Compositor { bind_group: None }
    }

    /// Makes sure that the bind group refers to `target` and reports whether
    /// it had to be rebuilt.
    pub fn bind_group(&mut self, target: Target) -> (rebuilt: bool)
        ensures
            *final(self) == old(self).bound(target),
            rebuilt == !old(self).is_bound_to(target),
            final(self).is_bound_to(target),
    {
        let bound = match self.bind_group {
            Some(b) => b.target_generation == target.generation,
            None => false,
        };
        if bound {
            return false;
        }
        self.bind_group = Some(BindGroup { target_generation: target.generation });
        true
    }

    /// Drops the bind group.
    pub fn invalidate(&mut self)
        ensures
            *final(self) == (Compositor { bind_group: None }),
    {
        self.bind_group = None;
    }
}

} // verus!
