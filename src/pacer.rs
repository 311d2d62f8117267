use vstd::prelude::*;
use crate::config::{
    select_config, BuildError, Extent, SurfaceCapabilities, SwapchainConfig, config_spec,
    config_supported,
};
use crate::controller::{ResizeController, drained, drained_extent, marked, resized};
use crate::recorder::{ClearColor, Command, Geometry, commands_spec};
use crate::resources::{SwapchainResourceSet, framebuffer_spec};
use crate::sync::{
    AcquireOutcome, AcquireStep, FatalError, FrameResult, InFlight, PresentOutcome, ShutdownStep,
    SkipReason, Stage, Submission, Synchronizer, busy_in, idle_in, slots_after, slots_resized,
    other_signal,
};

verus! {

/// Where the frame loop stands within one frame.
#[derive(Clone, Copy, Debug, PartialEq, Eq, Structural)]
pub enum Phase {
    /// Between frames.
    Ready,
    /// The surface's capabilities were asked for, to rebuild to `extent`.
    Querying { extent: Extent },
    /// A swapchain was asked for, built with `config`.
    Creating { config: SwapchainConfig },
    /// The next image was asked for.
    Acquiring,
    /// The acquired image's slot waits for its last completion signal.
    Waiting,
    /// The frame was submitted and its presentation asked for.
    Presenting,
}

/// What the caller performs next on the device, then reports back.
#[derive(Debug)]
pub enum Action {
    /// Query the surface's capabilities; report them with `capabilities`.
    QueryCapabilities,
    /// Create a swapchain with this configuration over the old one, and its framebuffers;
    /// report with `swapchain_created` or `swapchain_failed`.
    CreateSwapchain(SwapchainConfig),
    /// Request the next presentable image, giving up after `timeout_ms` milliseconds, or
    /// never where it is `None`; report with `acquired`.
    Acquire { timeout_ms: Option<u64> },
    /// Wait until this completion signal resolves, report it with `signal_resolved`, then
    /// call `waited`.
    Wait(u64),
    /// Run `commands` as `submission` says, then present its image gated on its completion
    /// signal; report with `present_done`.
    Execute { submission: Submission, commands: Vec<Command> },
    /// The frame is over.
    Finish(FrameResult),
}

/// The frame loop: the resize controller, the current resource set and the synchronizer,
/// with the geometry drawn and the color cleared to each frame.
#[derive(Debug)]
pub struct FramePacer {
    pub controller: ResizeController,
    pub resources: SwapchainResourceSet,
    pub sync: Synchronizer,
    pub phase: Phase,
    pub geometry: Geometry,
    pub clear: ClearColor,
    pub acquire_timeout: Option<u64>,
}

/// The frame submitted from `pre`, on its acquired image, as `post` and `r` show it.
pub open spec fn submitted_frame(pre: FramePacer, post: FramePacer, r: Action) -> bool {
    let image = pre.sync.stage->Acquired_image;
    let acquire = pre.sync.stage->Acquired_acquire;
    let done = pre.sync.next_signal;
    let config = pre.resources.config;
    &&& r matches Action::Execute { submission, commands }
    &&& r->submission.image == image
    &&& r->submission.waits@ == seq![acquire]
    &&& r->submission.done == done
    &&& r->commands@ == commands_spec(
        framebuffer_spec(config, image as int),
        config.extent,
        pre.geometry,
        pre.clear,
    )
    &&& post.sync.slots@ == pre.sync.slots@.update(image as int, Some(done))
    &&& post.sync.in_flight@ == pre.sync.in_flight@.push(
        InFlight { signal: done, generation: pre.sync.generation },
    )
    &&& post.sync.stage == Stage::Submitted { image, done }
    &&& post.sync.next_signal == done + 1
    &&& post.phase == Phase::Presenting
}

/// The frame ended with `result`, back between frames, with nothing else changed but the
/// synchronizer's stage.
pub open spec fn finished(pre: FramePacer, post: FramePacer, r: Action, result: FrameResult) -> bool {
    &&& r matches Action::Finish(x) && x == result
    &&& post.phase == Phase::Ready
    &&& post.resources == pre.resources
    &&& post.sync.slots == pre.sync.slots
    &&& post.sync.in_flight == pre.sync.in_flight
    &&& post.sync.retired == pre.sync.retired
    &&& post.sync.generation == pre.sync.generation
}

impl FramePacer {
    pub open spec fn wf(&self) -> bool {
        &&& self.sync.wf()
        &&& self.resources.wf()
        &&& self.resources.generation == self.sync.generation
        &&& self.resources.config.image_count == self.sync.slots@.len()
        &&& self.sync.viewport == self.resources.config.extent
        &&& match self.phase {
            Phase::Ready => self.sync.stage is Idle || self.sync.stage is NeedsRebuild,
            Phase::Querying { .. } => self.sync.stage is Idle || self.sync.stage is NeedsRebuild,
            Phase::Creating { config } => config.image_count > 0 && (self.sync.stage is Idle
                || self.sync.stage is NeedsRebuild),
            Phase::Acquiring => self.sync.stage is Idle,
            Phase::Waiting => self.sync.stage is Acquired,
            Phase::Presenting => self.sync.stage is Submitted,
        }
    }

    /// Whether the signal and generation counters can serve one more frame and rebuild.
    pub open spec fn has_headroom_spec(&self) -> bool {
        &&& self.sync.next_signal < u64::MAX - 1
        &&& self.sync.generation < u64::MAX
    }

    /// Starts the frame loop on a surface with `caps`, for a window of size `extent`, each
    /// acquisition waiting at most `acquire_timeout` milliseconds (`None`: without limit).
    /// Fails where no swapchain can be built there.
    pub fn initialize(
        caps: &SurfaceCapabilities,
        extent: Extent,
        geometry: Geometry,
        clear: ClearColor,
        acquire_timeout: Option<u64>,
    ) -> (r: Result<FramePacer, BuildError>)
        ensures
            r is Ok <==> config_supported(*caps, extent),
            r is Err ==> r->Err_0 == BuildError::UnsupportedConfiguration,
            r matches Ok(p) ==> {
                &&& p.wf()
                &&& p.resources.config == config_spec(*caps, extent, None)
                &&& p.resources.generation == 0
                &&& p.sync.slots@ == Seq::new(p.resources.config.image_count as nat, |i: int| None::<u64>)
                &&& p.sync.in_flight@.len() == 0
                &&& p.sync.retired@.len() == 0
                &&& p.sync.stage == Stage::Idle
                &&& p.phase == Phase::Ready
                &&& p.controller == ResizeController { pending: false, latest: None }
                &&& p.geometry == geometry
                &&& p.clear == clear
                &&& p.acquire_timeout == acquire_timeout
            },
    {
        let config = match select_config(caps, extent, None) {
            Ok(c) => c,
            Err(e) => return Err(e),
        };
        let resources = SwapchainResourceSet::build(config, 0);
        let sync = Synchronizer::new(config.image_count as usize, config.extent);
        Ok(FramePacer {
            controller: ResizeController::new(),
            resources,
            sync,
            phase: Phase::Ready,
            geometry,
            clear,
            acquire_timeout,
        })
    }

    /// Whether the signal and generation counters can serve one more frame and rebuild.
    pub fn has_headroom(&self) -> (r: bool)
        ensures
            r == self.has_headroom_spec(),
    {
        self.sync.next_signal < u64::MAX - 1 && self.sync.generation < u64::MAX
    }

    /// Notes that the window was resized to `extent`.
    pub fn on_resize(&mut self, extent: Extent)
        requires
            old(self).wf(),
        ensures
            final(self).wf(),
            final(self).controller == resized(old(self).controller, extent),
            final(self).resources == old(self).resources,
            final(self).sync == old(self).sync,
            final(self).phase == old(self).phase,
    {
        self.controller.on_resize(extent);
    }

    /// Notes that completion signal `signal` resolved.
    pub fn signal_resolved(&mut self, signal: u64)
        requires
            old(self).wf(),
        ensures
            final(self).wf(),
            final(self).sync.slots@ == slots_after(old(self).sync.slots@, signal),
            final(self).sync.in_flight@ == old(self).sync.in_flight@.filter(other_signal(signal)),
            final(self).sync.retired == old(self).sync.retired,
            final(self).sync.stage == old(self).sync.stage,
            final(self).sync.generation == old(self).sync.generation,
            final(self).sync.next_signal == old(self).sync.next_signal,
            final(self).resources == old(self).resources,
            final(self).controller == old(self).controller,
            final(self).phase == old(self).phase,
    {
        self.sync.signal_resolved(signal);
    }

    /// Takes the generations of replaced resource sets that may now be released.
    pub fn release_ready(&mut self) -> (r: Vec<u64>)
        requires
            old(self).wf(),
        ensures
            final(self).wf(),
            r@ == old(self).sync.retired@.filter(idle_in(old(self).sync.in_flight@)),
            final(self).sync.retired@ == old(self).sync.retired@.filter(busy_in(old(self).sync.in_flight@)),
            final(self).sync.slots == old(self).sync.slots,
            final(self).sync.in_flight == old(self).sync.in_flight,
            final(self).sync.stage == old(self).sync.stage,
            final(self).sync.generation == old(self).sync.generation,
            final(self).resources == old(self).resources,
            final(self).controller == old(self).controller,
            final(self).phase == old(self).phase,
    {
        self.sync.release_ready()
    }

    /// The next step of shutting down: wait for each signal in flight, then release every
    /// resource set.
    pub fn shutdown_step(&mut self) -> (r: ShutdownStep)
        requires
            old(self).wf(),
        ensures
            final(self).wf(),
            old(self).sync.in_flight@.len() > 0 ==> {
                &&& r == ShutdownStep::WaitFor(old(self).sync.in_flight@[0].signal)
                &&& *final(self) == *old(self)
            },
            old(self).sync.in_flight@.len() == 0 ==> {
                &&& r is Complete
                &&& r->Complete_0@ == old(self).sync.retired@.push(old(self).sync.generation)
            },
    {
        self.sync.shutdown_step()
    }
}

impl FramePacer {
    /// Records and submits the frame on the acquired image, whose slot is free.
    fn execute(&mut self) -> (r: Action)
        requires
            old(self).wf(),
            old(self).sync.stage matches Stage::Acquired { image, .. }
                && old(self).sync.slots@[image as int] is None,
            old(self).sync.next_signal < u64::MAX,
        ensures
            final(self).wf(),
            submitted_frame(*old(self), *final(self), r),
            final(self).controller == old(self).controller,
            final(self).resources == old(self).resources,
            final(self).sync.retired == old(self).sync.retired,
            final(self).sync.generation == old(self).sync.generation,
            final(self).geometry == old(self).geometry,
            final(self).clear == old(self).clear,
            final(self).acquire_timeout == old(self).acquire_timeout,
    {
        let commands = self.sync.record_frame(&self.resources, self.geometry, self.clear).unwrap();
        let submission = self.sync.submit();
        self.phase = Phase::Presenting;
        Action::Execute { submission, commands }
    }

    /// Starts a frame in a window of size `window`: a rebuild first where one is pending or
    /// the swapchain was found stale, else an acquisition.
    pub fn tick(&mut self, window: Extent) -> (r: Action)
        requires
            old(self).wf(),
            old(self).phase == Phase::Ready,
        ensures
            final(self).wf(),
            ({
                let c = if old(self).sync.stage is NeedsRebuild {
                    marked(old(self).controller)
                } else {
                    old(self).controller
                };
                &&& final(self).controller == drained(c)
                &&& match drained_extent(c, window) {
                    Some(e) => r is QueryCapabilities && final(self).phase == Phase::Querying { extent: e },
                    None => r == (Action::Acquire { timeout_ms: old(self).acquire_timeout })
                        && final(self).phase == Phase::Acquiring,
                }
            }),
            final(self).resources == old(self).resources,
            final(self).sync == old(self).sync,
            final(self).geometry == old(self).geometry,
            final(self).clear == old(self).clear,
            final(self).acquire_timeout == old(self).acquire_timeout,
    {
        if let Stage::NeedsRebuild = self.sync.stage {
            self.controller.on_acquire_or_present_retry();
        }
        match self.controller.drain_rebuild_if_needed(window) {
            Some(extent) => {
                self.phase = Phase::Querying { extent };
                Action::QueryCapabilities
            },
            None => {
                self.phase = Phase::Acquiring;
                Action::Acquire { timeout_ms: self.acquire_timeout }
            },
        }
    }

    /// Takes the surface's capabilities for the pending rebuild: the swapchain to create,
    /// keeping the current format where the surface still supports it. Where none can be
    /// built, the frame is skipped, the current set stays in use and the rebuild stays due.
    pub fn capabilities(&mut self, caps: SurfaceCapabilities) -> (r: Action)
        requires
            old(self).wf(),
            old(self).phase is Querying,
        ensures
            final(self).wf(),
            ({
                let e = old(self).phase->Querying_extent;
                let prev = Some(old(self).resources.config.format);
                if config_supported(caps, e) {
                    &&& r == Action::CreateSwapchain(config_spec(caps, e, prev))
                    &&& final(self).phase == Phase::Creating { config: config_spec(caps, e, prev) }
                    &&& final(self).controller == old(self).controller
                } else {
                    &&& r == Action::Finish(FrameResult::Skipped(SkipReason::NeedsRebuild))
                    &&& final(self).phase == Phase::Ready
                    &&& final(self).controller == marked(old(self).controller)
                }
            }),
            final(self).resources == old(self).resources,
            final(self).sync == old(self).sync,
            final(self).geometry == old(self).geometry,
            final(self).clear == old(self).clear,
            final(self).acquire_timeout == old(self).acquire_timeout,
    {
        let extent = match self.phase {
            Phase::Querying { extent } => extent,
            _ => self.resources.config.extent,
        };
        match select_config(&caps, extent, Some(self.resources.config.format)) {
            Ok(config) => {
                self.phase = Phase::Creating { config };
                Action::CreateSwapchain(config)
            },
            Err(_) => {
                self.controller.on_acquire_or_present_retry();
                self.phase = Phase::Ready;
                Action::Finish(FrameResult::Skipped(SkipReason::NeedsRebuild))
            },
        }
    }

    /// Takes the news that the swapchain was created: its resource set is installed as the
    /// next generation, the old one is retired, and the frame goes on to acquire.
    pub fn swapchain_created(&mut self) -> (r: Action)
        requires
            old(self).wf(),
            old(self).phase is Creating,
            old(self).sync.generation < u64::MAX,
        ensures
            final(self).wf(),
            r == (Action::Acquire { timeout_ms: old(self).acquire_timeout }),
            final(self).phase == Phase::Acquiring,
            final(self).resources.config == old(self).phase->Creating_config,
            final(self).resources.generation == old(self).sync.generation + 1,
            final(self).sync.slots@ == slots_resized(
                old(self).sync.slots@,
                old(self).phase->Creating_config.image_count as nat,
            ),
            final(self).sync.in_flight == old(self).sync.in_flight,
            final(self).sync.retired@ == old(self).sync.retired@.push(old(self).sync.generation),
            final(self).sync.stage == Stage::Idle,
            final(self).sync.generation == old(self).sync.generation + 1,
            final(self).sync.next_signal == old(self).sync.next_signal,
            final(self).controller == old(self).controller,
            final(self).geometry == old(self).geometry,
            final(self).clear == old(self).clear,
            final(self).acquire_timeout == old(self).acquire_timeout,
    {
        let config = match self.phase {
            Phase::Creating { config } => config,
            _ => self.resources.config,
        };
        self.sync.install(config.image_count as usize, config.extent);
        self.resources = SwapchainResourceSet::build(config, self.sync.generation);
        self.phase = Phase::Acquiring;
        Action::Acquire { timeout_ms: self.acquire_timeout }
    }

    /// Takes the news that the swapchain could not be created: the frame is skipped, the
    /// current set stays in use and the rebuild stays due.
    pub fn swapchain_failed(&mut self) -> (r: Action)
        requires
            old(self).wf(),
            old(self).phase is Creating,
        ensures
            final(self).wf(),
            finished(*old(self), *final(self), r, FrameResult::Skipped(SkipReason::NeedsRebuild)),
            final(self).sync == old(self).sync,
            final(self).controller == marked(old(self).controller),
    {
        self.controller.on_acquire_or_present_retry();
        self.phase = Phase::Ready;
        Action::Finish(FrameResult::Skipped(SkipReason::NeedsRebuild))
    }

    /// Takes the platform's answer to the request for the next image. An acquired image is
    /// recorded and submitted at once where its slot is free, else its slot's last
    /// completion signal is awaited first. A stale surface skips the frame with a rebuild
    /// due, a timeout skips it with nothing submitted, and anything else is fatal.
    pub fn acquired(&mut self, outcome: AcquireOutcome) -> (r: Action)
        requires
            old(self).wf(),
            old(self).phase == Phase::Acquiring,
            old(self).sync.next_signal < u64::MAX - 1,
        ensures
            final(self).wf(),
            final(self).geometry == old(self).geometry,
            final(self).clear == old(self).clear,
            final(self).acquire_timeout == old(self).acquire_timeout,
            match outcome {
                AcquireOutcome::Ready { image, suboptimal } => if image < old(self).sync.slots@.len() {
                    let acquire = old(self).sync.next_signal;
                    match old(self).sync.slots@[image as int] {
                        Some(s) => {
                            &&& r == Action::Wait(s)
                            &&& final(self).phase == Phase::Waiting
                            &&& final(self).sync.stage == Stage::Acquired { image, acquire }
                            &&& final(self).sync.slots == old(self).sync.slots
                            &&& final(self).sync.in_flight == old(self).sync.in_flight
                            &&& final(self).sync.next_signal == acquire + 1
                        },
                        None => {
                            let mid = FramePacer {
                                sync: Synchronizer {
                                    stage: Stage::Acquired { image, acquire },
                                    next_signal: (acquire + 1) as u64,
                                    ..old(self).sync
                                },
                                ..*old(self)
                            };
                            submitted_frame(mid, *final(self), r)
                        },
                    }
                } else {
                    finished(*old(self), *final(self), r, FrameResult::Fatal(FatalError::InvalidImage))
                },
                AcquireOutcome::OutOfDate => {
                    &&& finished(*old(self), *final(self), r, FrameResult::Skipped(SkipReason::NeedsRebuild))
                    &&& final(self).sync.stage == Stage::NeedsRebuild
                    &&& final(self).controller == marked(old(self).controller)
                },
                AcquireOutcome::Timeout => {
                    &&& finished(*old(self), *final(self), r, FrameResult::Skipped(SkipReason::Timeout))
                    &&& final(self).sync == old(self).sync
                    &&& final(self).controller == old(self).controller
                },
                AcquireOutcome::DeviceLost => {
                    &&& finished(*old(self), *final(self), r, FrameResult::Fatal(FatalError::DeviceLost))
                    &&& final(self).sync == old(self).sync
                },
            },
            final(self).sync.retired == old(self).sync.retired,
            final(self).sync.generation == old(self).sync.generation,
            final(self).resources == old(self).resources,
    {
        match self.sync.on_acquire(outcome) {
            AcquireStep::Proceed { image, acquire, wait } => match wait {
                Some(s) => {
                    self.phase = Phase::Waiting;
                    Action::Wait(s)
                },
                None => {
                    self.phase = Phase::Waiting;
                    self.execute()
                },
            },
            AcquireStep::Retry => {
                self.controller.on_acquire_or_present_retry();
                self.phase = Phase::Ready;
                Action::Finish(FrameResult::Skipped(SkipReason::NeedsRebuild))
            },
            AcquireStep::TimedOut => {
                self.phase = Phase::Ready;
                Action::Finish(FrameResult::Skipped(SkipReason::Timeout))
            },
            AcquireStep::Fatal(e) => {
                self.phase = Phase::Ready;
                Action::Finish(FrameResult::Fatal(e))
            },
        }
    }
}

impl FramePacer {
    /// Goes on after a wait for the acquired image's slot: the frame is recorded and
    /// submitted once the slot's last completion signal has resolved, else that signal is
    /// awaited again.
    pub fn waited(&mut self) -> (r: Action)
        requires
            old(self).wf(),
            old(self).phase == Phase::Waiting,
            old(self).sync.next_signal < u64::MAX,
        ensures
            final(self).wf(),
            final(self).controller == old(self).controller,
            final(self).resources == old(self).resources,
            final(self).sync.retired == old(self).sync.retired,
            final(self).sync.generation == old(self).sync.generation,
            final(self).geometry == old(self).geometry,
            final(self).clear == old(self).clear,
            final(self).acquire_timeout == old(self).acquire_timeout,
            match old(self).sync.slots@[old(self).sync.stage->Acquired_image as int] {
                Some(s) => r == Action::Wait(s) && *final(self) == *old(self),
                None => submitted_frame(*old(self), *final(self), r),
            },
    {
        let image = match self.sync.stage {
            Stage::Acquired { image, .. } => image,
            _ => 0,
        };
        match self.sync.slot_signal(image) {
            Some(s) => Action::Wait(s),
            None => self.execute(),
        }
    }

    /// Takes the platform's answer to the presentation of the submitted frame, and ends the
    /// frame. Where the swapchain was found stale or suboptimal, a rebuild is due.
    pub fn present_done(&mut self, outcome: PresentOutcome) -> (r: Action)
        requires
            old(self).wf(),
            old(self).phase == Phase::Presenting,
        ensures
            final(self).wf(),
            final(self).geometry == old(self).geometry,
            final(self).clear == old(self).clear,
            final(self).acquire_timeout == old(self).acquire_timeout,
            final(self).sync.next_signal == old(self).sync.next_signal,
            match outcome {
                PresentOutcome::Presented => {
                    &&& finished(*old(self), *final(self), r, FrameResult::Presented)
                    &&& if old(self).sync.rebuild_after_frame {
                        final(self).sync.stage == Stage::NeedsRebuild
                            && final(self).controller == marked(old(self).controller)
                    } else {
                        final(self).sync.stage == Stage::Idle
                            && final(self).controller == old(self).controller
                    }
                },
                PresentOutcome::Suboptimal => {
                    &&& finished(*old(self), *final(self), r, FrameResult::Presented)
                    &&& final(self).sync.stage == Stage::NeedsRebuild
                    &&& final(self).controller == marked(old(self).controller)
                },
                PresentOutcome::OutOfDate => {
                    &&& finished(*old(self), *final(self), r, FrameResult::Skipped(SkipReason::NeedsRebuild))
                    &&& final(self).sync.stage == Stage::NeedsRebuild
                    &&& final(self).controller == marked(old(self).controller)
                },
                PresentOutcome::DeviceLost => {
                    &&& finished(*old(self), *final(self), r, FrameResult::Fatal(FatalError::DeviceLost))
                    &&& final(self).sync.stage == Stage::Idle
                    &&& final(self).controller == old(self).controller
                },
            },
    {
        let result = self.sync.on_present(outcome);
        if let Stage::NeedsRebuild = self.sync.stage {
            self.controller.on_acquire_or_present_retry();
        }
        self.phase = Phase::Ready;
        Action::Finish(result)
    }
}

} // verus!
