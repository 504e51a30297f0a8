//! Usage states of a swapchain image and the barriers that move between them.

use vstd::prelude::*;

verus! {

/// The role a swapchain image is currently prepared for.
#[derive(Clone, Copy, PartialEq, Eq, Structural, Debug)]
pub enum ResourceState {
    /// Owned by the presentation engine.
    Present,
    /// Writable as a draw destination.
    RenderTarget,
}

/// A declared transition of one swapchain image, covering all of its
/// subresources, from `before` to `after`.
#[derive(Clone, Copy, PartialEq, Eq, Structural, Debug)]
pub struct Barrier {
    pub image: u32,
    pub before: ResourceState,
    pub after: ResourceState,
}

impl Barrier {
    /// The barrier on the same image with the two states exchanged.
    pub open spec fn spec_inverse(self) -> Barrier {
        Barrier { image: self.image, before: self.after, after: self.before }
    }

    /// Whether `self` undoes exactly what `other` did.
    pub open spec fn undoes(self, other: Barrier) -> bool {
        self.image == other.image && self.before == other.after && self.after == other.before
    }

    /// The barrier that opens a frame: presentation state to draw destination.
    pub open spec fn spec_acquire(image: u32) -> Barrier {
        Barrier { image, before: ResourceState::Present, after: ResourceState::RenderTarget }
    }

    /// The barrier that closes a frame: draw destination back to presentation.
    pub open spec fn spec_release(image: u32) -> Barrier {
        Barrier { image, before: ResourceState::RenderTarget, after: ResourceState::Present }
    }

    pub fn acquire(image: u32) -> (b: Barrier)
        ensures
            b == Barrier::spec_acquire(image),
    {
        Barrier { image, before: ResourceState::Present, after: ResourceState::RenderTarget }
    }

    pub fn release(image: u32) -> (b: Barrier)
        ensures
            b == Barrier::spec_release(image),
    {
        Barrier { image, before: ResourceState::RenderTarget, after: ResourceState::Present }
    }

    pub fn inverse(&self) -> (b: Barrier)
        ensures
            b == self.spec_inverse(),
            b.undoes(*self),
    {
        Barrier { image: self.image, before: self.after, after: self.before }
    }
}

/// Taking the inverse twice gives the barrier back, and the closing barrier
/// of a frame is the inverse of its opening barrier.
pub proof fn lemma_inverse_involution(b: Barrier, image: u32)
    ensures
        b.spec_inverse().spec_inverse() == b,
        Barrier::spec_release(image) == Barrier::spec_acquire(image).spec_inverse(),
        Barrier::spec_release(image).undoes(Barrier::spec_acquire(image)),
{
}

} // verus!
