use vstd::prelude::*;

verus! {

/// A size in pixels.
#[derive(Clone, Copy, Debug, PartialEq, Eq, Structural)]
pub struct Extent {
    pub width: u32,
    pub height: u32,
}

/// How presented images are handed to the display.
#[derive(Clone, Copy, Debug, PartialEq, Eq, Structural)]
pub enum PresentMode {
    Immediate,
    Mailbox,
    /// Vsync-bound queue of images, without tearing.
    Fifo,
    FifoRelaxed,
}

/// A pixel format together with its color space, both as the platform numbers them.
#[derive(Clone, Copy, Debug, PartialEq, Eq, Structural)]
pub struct SurfaceFormat {
    pub format: u32,
    pub color_space: u32,
}

/// A snapshot of what the surface supports, queried before every (re)build.
#[derive(Debug)]
pub struct SurfaceCapabilities {
    pub formats: Vec<SurfaceFormat>,
    pub present_modes: Vec<PresentMode>,
    pub current_extent: Option<Extent>,
    pub min_extent: Extent,
    pub max_extent: Extent,
    pub min_image_count: u32,
    pub max_image_count: Option<u32>,
}

/// What a swapchain is built with.
#[derive(Clone, Copy, Debug, PartialEq, Eq, Structural)]
pub struct SwapchainConfig {
    pub format: SurfaceFormat,
    pub extent: Extent,
    pub image_count: u32,
    pub present_mode: PresentMode,
}

/// Why no swapchain can be built on a surface.
#[derive(Clone, Copy, Debug, PartialEq, Eq, Structural)]
pub enum BuildError {
    /// No format, no vsync-bound present mode, no image or an empty extent.
    UnsupportedConfiguration,
}

/// `x` brought into `[lo, hi]`; the lower bound wins where the bounds cross.
pub open spec fn clamp(x: u32, lo: u32, hi: u32) -> u32 {
    if x < lo {
        lo
    } else if x > hi {
        hi
    } else {
        x
    }
}

/// The minimum image count raised to two (double buffering), then capped by the maximum.
pub open spec fn image_count_spec(min_count: u32, max_count: Option<u32>) -> u32 {
    let lower: u32 = if min_count < 2 { 2 } else { min_count };
    match max_count {
        Some(m) => if lower > m { m } else { lower },
        None => lower,
    }
}

/// The surface's own extent where it reports one, else the desired one clamped to the bounds.
pub open spec fn extent_spec(caps: SurfaceCapabilities, desired: Extent) -> Extent {
    match caps.current_extent {
        Some(e) => e,
        None => Extent {
            width: clamp(desired.width, caps.min_extent.width, caps.max_extent.width),
            height: clamp(desired.height, caps.min_extent.height, caps.max_extent.height),
        },
    }
}

/// The previous format where the surface still supports it, else the first supported one.
pub open spec fn format_spec(formats: Seq<SurfaceFormat>, previous: Option<SurfaceFormat>) -> Option<
    SurfaceFormat,
> {
    if previous is Some && formats.contains(previous->Some_0) {
        previous
    } else if formats.len() > 0 {
        Some(formats[0])
    } else {
        None
    }
}

/// Whether a swapchain can be built on `caps` for `desired`.
pub open spec fn config_supported(caps: SurfaceCapabilities, desired: Extent) -> bool {
    let e = extent_spec(caps, desired);
    &&& caps.formats@.len() > 0
    &&& caps.present_modes@.contains(PresentMode::Fifo)
    &&& image_count_spec(caps.min_image_count, caps.max_image_count) > 0
    &&& e.width > 0
    &&& e.height > 0
}

/// The configuration chosen on `caps` for `desired`, keeping `previous` where it can.
pub open spec fn config_spec(
    caps: SurfaceCapabilities,
    desired: Extent,
    previous: Option<SurfaceFormat>,
) -> SwapchainConfig {
    SwapchainConfig {
        format: format_spec(caps.formats@, previous).unwrap(),
        extent: extent_spec(caps, desired),
        image_count: image_count_spec(caps.min_image_count, caps.max_image_count),
        present_mode: PresentMode::Fifo,
    }
}

/// The number of images of a swapchain built on bounds `min_count` and `max_count`.
pub fn choose_image_count(min_count: u32, max_count: Option<u32>) -> (r: u32)
    ensures
        r == image_count_spec(min_count, max_count),
{
    let lower: u32 = if min_count < 2 { 2 } else { min_count };
    match max_count {
        Some(m) => if lower > m { m } else { lower },
        None => lower,
    }
}

fn clamp_u32(x: u32, lo: u32, hi: u32) -> (r: u32)
    ensures
        r == clamp(x, lo, hi),
{
    if x < lo {
        lo
    } else if x > hi {
        hi
    } else {
        x
    }
}

/// The extent of a swapchain built on `caps` for a window of size `desired`.
pub fn choose_extent(caps: &SurfaceCapabilities, desired: Extent) -> (r: Extent)
    ensures
        r == extent_spec(*caps, desired),
{
    match caps.current_extent {
        Some(e) => e,
        None => Extent {
            width: clamp_u32(desired.width, caps.min_extent.width, caps.max_extent.width),
            height: clamp_u32(desired.height, caps.min_extent.height, caps.max_extent.height),
        },
    }
}

/// The format of a swapchain built on `formats`, keeping `previous` where it is supported.
pub fn choose_format(formats: &Vec<SurfaceFormat>, previous: Option<SurfaceFormat>) -> (r: Option<
    SurfaceFormat,
>)
    ensures
        r == format_spec(formats@, previous),
{
    if let Some(p) = previous {
        let mut i: usize = 0;
        while i < formats.len()
            invariant
                previous == Some(p),
                i <= formats@.len(),
                forall|j: int| 0 <= j < i ==> formats@[j] != p,
            decreases formats@.len() - i,
        {
            if formats[i] == p {
                assert(formats@[i as int] == p);
                assert(formats@.contains(p));
                return Some(p);
            }
            i = i + 1;
        }
        assert(!formats@.contains(p));
    }
    if formats.len() > 0 {
        Some(formats[0])
    } else {
        None
    }
}

fn supports_fifo(modes: &Vec<PresentMode>) -> (r: bool)
    ensures
        r == modes@.contains(PresentMode::Fifo),
{
    let mut i: usize = 0;
    while i < modes.len()
        invariant
            i <= modes@.len(),
            forall|j: int| 0 <= j < i ==> modes@[j] != PresentMode::Fifo,
        decreases modes@.len() - i,
    {
        if modes[i] == PresentMode::Fifo {
            assert(modes@[i as int] == PresentMode::Fifo);
            return true;
        }
        i = i + 1;
    }
    false
}

/// Chooses the configuration of a swapchain on `caps` for a window of size `desired`.
/// `previous` is the format of the set being replaced, kept for continuity where possible.
pub fn select_config(
    caps: &SurfaceCapabilities,
    desired: Extent,
    previous: Option<SurfaceFormat>,
) -> (r: Result<SwapchainConfig, BuildError>)
    ensures
        config_supported(*caps, desired) <==> r is Ok,
        r is Ok ==> r->Ok_0 == config_spec(*caps, desired, previous),
        r is Err ==> r->Err_0 == BuildError::UnsupportedConfiguration,
{
    let format = match choose_format(&caps.formats, previous) {
        Some(f) => f,
        None => return Err(BuildError::UnsupportedConfiguration),
    };
    if !supports_fifo(&caps.present_modes) {
        return Err(BuildError::UnsupportedConfiguration);
    }
    let image_count = choose_image_count(caps.min_image_count, caps.max_image_count);
    let extent = choose_extent(caps, desired);
    if image_count == 0 || extent.width == 0 || extent.height == 0 {
        return Err(BuildError::UnsupportedConfiguration);
    }
    Ok(SwapchainConfig { format, extent, image_count, present_mode: PresentMode::Fifo })
}

} // verus!
