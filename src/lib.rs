//! Swapchain lifecycle and frame pacing for a resizable, buffered presentation surface.
//!
//! The library holds the decisions of the frame loop: which configuration a swapchain is
//! built with, which framebuffers a resource set holds, what one frame records, when a
//! rebuild is due, which completion signals must resolve before an image slot is reused,
//! and when an old resource set may be released. The GPU work itself is performed by the
//! caller: `FramePacer` hands it an `Action` at each step and takes the outcome back.

pub mod config;
pub mod controller;
pub mod pacer;
pub mod recorder;
pub mod resources;
pub mod sync;

pub use config::{
    choose_extent, choose_format, choose_image_count, select_config, BuildError, Extent,
    PresentMode, SurfaceCapabilities, SurfaceFormat, SwapchainConfig,
};
pub use controller::ResizeController;
pub use pacer::{Action, FramePacer, Phase};
pub use recorder::{record, ClearColor, Command, Geometry, RecordError};
pub use resources::{FramebufferDesc, SwapchainResourceSet};
pub use sync::{
    AcquireOutcome, AcquireStep, FatalError, FrameResult, InFlight, PresentOutcome, ShutdownStep,
    SkipReason, Stage, Submission, Synchronizer,
};
