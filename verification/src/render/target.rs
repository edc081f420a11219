//! The intermediate target: the off-screen colour texture that the scene is
//! rendered into before it is composited onto the surface.

use vstd::prelude::*;

verus! {

/// One intermediate texture.
#[derive(Clone, Copy, Debug, PartialEq, Eq, Structural)]
pub struct Target {
    pub width: u32,
    pub height: u32,
    /// Distinguishes this texture from the one it replaced.
    pub generation: u64,
}

/// The slot that holds the current intermediate texture, if there is one.
#[derive(Clone, Copy, Debug, PartialEq, Eq, Structural)]
pub struct IntermediateTarget {
    pub current: Option<Target>,
    /// Generation of the texture created last.
    pub created: u64,
}

/// The generation that follows `generation`.
pub open spec fn next_generation(generation: u64) -> u64 {
    if generation == u64::MAX {
        0
    } else {
        (generation + 1) as u64
    }
}

impl IntermediateTarget {
    /// The texture in the slot is the one created last.
    pub open spec fn wf(self) -> bool {
        self.current matches Some(t) ==> t.generation == self.created
    }

    /// The slot holds a texture of exactly this size.
    pub open spec fn fits(self, width: u32, height: u32) -> bool {
        self.current matches Some(t) && t.width == width && t.height == height
    }

    /// The slot after a texture of the given size was asked for: kept where
    /// it fits, else replaced by a texture of the next generation.
    pub open spec fn ensured(self, width: u32, height: u32) -> IntermediateTarget {
        if self.fits(width, height) {
            self
        } else {
            IntermediateTarget {
                current: Some(
                    Target { width, height, generation: next_generation(self.created) },
                ),
                created: next_generation(self.created),
            }
        }
    }

    /// The slot with its texture dropped.
    pub open spec fn invalidated(self) -> IntermediateTarget {
        IntermediateTarget { current: None, created: self.created }
    }

    /// An empty slot.
    pub fn new() -> (slot: Self)
        ensures
            slot == (IntermediateTarget { current: None, created: 0 }),
            slot.wf(),
    {
        IntermediateTarget { current: None, created: 0 }
    }

    /// Makes sure that the slot holds a texture of the given size and reports
    /// whether one had to be created. A bind group built for the texture that
    /// was replaced is stale from then on.
    pub fn ensure(&mut self, width: u32, height: u32) -> (created: bool)
        ensures
            *final(self) == old(self).ensured(width, height),
            created == !old(self).fits(width, height),
            final(self).fits(width, height),
            old(self).wf() ==> final(self).wf(),
    {
        let fits = match self.current {
            Some(t) => t.width == width && t.height == height,
            None => false,
        };
        if fits {
            return false;
        }
        let generation: u64 = self.created.wrapping_add(1);
        self.current = Some(Target { width, height, generation });
        self.created = generation;
        true
    }

    /// Drops the texture.
    pub fn invalidate(&mut self)
        ensures
            *final(self) == old(self).invalidated(),
            final(self).wf(),
    {
        self.current = None;
    }
}

/// A texture that replaces another never carries its generation.
pub proof fn lemma_next_generation_differs(generation: u64)
    ensures
        next_generation(generation) != generation,
{
}

} // verus!
