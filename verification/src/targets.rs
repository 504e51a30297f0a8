//! The render target set: one view per swapchain image, laid out at a fixed
//! stride in a descriptor heap.

use vstd::prelude::*;

verus! {

/// Number of images in the swapchain, and so the number of render target views.
pub const IMAGE_COUNT: u32 = 2;

/// Presentation waits for one vertical blank per frame.
pub const SYNC_INTERVAL: u32 = 1;

/// Where the render target views live: the CPU handle of the first one and
/// the distance between consecutive ones.
#[derive(Clone, Copy, PartialEq, Eq, Structural, Debug)]
pub struct RenderTargetSet {
    pub heap_start: usize,
    pub increment: u32,
}

impl RenderTargetSet {
    /// Every view handle fits in the address space.
    pub open spec fn wf(self) -> bool {
        self.heap_start + IMAGE_COUNT * self.increment <= usize::MAX
    }

    /// The handle of the view for swapchain image `image`.
    pub open spec fn spec_handle(self, image: u32) -> int {
        self.heap_start + image * self.increment
    }

    /// Accepts a heap start and increment when all view handles are
    /// representable, and refuses them otherwise.
    pub fn new(heap_start: usize, increment: u32) -> (r: Option<RenderTargetSet>)
        ensures
            r is Some <==> heap_start + IMAGE_COUNT * increment <= usize::MAX,
            r is Some ==> r.unwrap().wf() && r.unwrap().heap_start == heap_start
                && r.unwrap().increment == increment,
    {
        let span: u64 = (IMAGE_COUNT as u64) * (increment as u64);
        if span <= (usize::MAX - heap_start) as u64 {
            Some(RenderTargetSet { heap_start, increment })
        } else {
            None
        }
    }

    /// The number of views, which is the number of swapchain images.
    pub fn count(&self) -> (n: u32)
        ensures
            n == IMAGE_COUNT,
    {
        IMAGE_COUNT
    }

    /// The handle of the view for `image`; `None` when no such image exists.
    pub fn handle(&self, image: u32) -> (h: Option<usize>)
        requires
            self.wf(),
        ensures
            h is Some <==> image < IMAGE_COUNT,
            h is Some ==> h.unwrap() == self.spec_handle(image),
    {
        if image < IMAGE_COUNT {
            assert(image * self.increment <= IMAGE_COUNT * self.increment) by (nonlinear_arith)
                requires
                    image < IMAGE_COUNT,
            ;
            Some(self.heap_start + image as usize * self.increment as usize)
        } else {
            None
        }
    }

    /// The handles of all views in image order, as needed to create them.
    pub fn handles(&self) -> (v: Vec<usize>)
        requires
            self.wf(),
        ensures
            v@.len() == IMAGE_COUNT,
            forall|i: int| 0 <= i < v@.len() ==> v@[i] == self.spec_handle(i as u32),
    {
        let mut v: Vec<usize> = Vec::new();
        let mut next: usize = self.heap_start;
        let mut i: u32 = 0;
        while i < IMAGE_COUNT
            invariant
                self.wf(),
                i <= IMAGE_COUNT,
                v@.len() == i,
                next == self.heap_start + i * self.increment || i == IMAGE_COUNT,
                forall|k: int| 0 <= k < v@.len() ==> v@[k] == self.spec_handle(k as u32),
            decreases IMAGE_COUNT - i,
        {
            v.push(next);
            i = i + 1;
            if i < IMAGE_COUNT {
                assert(i * self.increment <= IMAGE_COUNT * self.increment) by (nonlinear_arith)
                    requires
                        i <= IMAGE_COUNT,
                ;
                assert(i * self.increment == (i - 1) * self.increment + self.increment)
                    by (nonlinear_arith);
                next = next + self.increment as usize;
            }
        }
        v
    }
}

} // verus!
