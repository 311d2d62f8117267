use vstd::prelude::*;
use crate::config::{Extent, SurfaceFormat, SwapchainConfig};

verus! {

/// The framebuffer built over one presentable image.
#[derive(Clone, Copy, Debug, PartialEq, Eq, Structural)]
pub struct FramebufferDesc {
    pub image: usize,
    pub extent: Extent,
    pub format: SurfaceFormat,
}

/// The presentable images of one swapchain and one framebuffer per image.
///
/// The set owns its framebuffers; a frame refers to one by its image index.
#[derive(Debug)]
pub struct SwapchainResourceSet {
    pub config: SwapchainConfig,
    pub framebuffers: Vec<FramebufferDesc>,
    pub generation: u64,
}

/// The framebuffer that a set built with `config` holds for image `i`.
pub open spec fn framebuffer_spec(config: SwapchainConfig, i: int) -> FramebufferDesc {
    FramebufferDesc { image: i as usize, extent: config.extent, format: config.format }
}

impl SwapchainResourceSet {
    /// One framebuffer per image, in image order, all of the set's extent and format.
    pub open spec fn wf(&self) -> bool {
        &&& self.config.image_count > 0
        &&& self.framebuffers@.len() == self.config.image_count
        &&& forall|i: int|
            0 <= i < self.framebuffers@.len() ==> #[trigger] self.framebuffers@[i]
                == framebuffer_spec(self.config, i)
    }

    /// Builds the set of a swapchain created with `config`, as its `generation`-th build.
    pub fn build(config: SwapchainConfig, generation: u64) -> (r: SwapchainResourceSet)
        requires
            config.image_count > 0,
        ensures
            r.wf(),
            r.config == config,
            r.generation == generation,
    {
        let n = config.image_count as usize;
        let mut framebuffers: Vec<FramebufferDesc> = Vec::new();
        let mut i: usize = 0;
        while i < n
            invariant
                n == config.image_count,
                i <= n,
                framebuffers@.len() == i,
                forall|j: int|
                    0 <= j < i ==> #[trigger] framebuffers@[j] == framebuffer_spec(config, j),
            decreases n - i,
        {
            framebuffers.push(FramebufferDesc { image: i, extent: config.extent, format: config.format });
            i = i + 1;
        }
        SwapchainResourceSet { config, framebuffers, generation }
    }

    /// The number of presentable images.
    pub fn image_count(&self) -> (r: usize)
        requires
            self.wf(),
        ensures
            r == self.config.image_count,
    {
        self.framebuffers.len()
    }

    /// The framebuffer of image `image`.
    pub fn framebuffer(&self, image: usize) -> (r: FramebufferDesc)
        requires
            self.wf(),
            image < self.config.image_count,
        ensures
            r == framebuffer_spec(self.config, image as int),
    {
        self.framebuffers[image]
    }
}

} // verus!
