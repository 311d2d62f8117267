use vstd::prelude::*;
use crate::config::Extent;
use crate::recorder::{record, ClearColor, Command, Geometry, RecordError, commands_spec, compatible};
use crate::resources::{SwapchainResourceSet, framebuffer_spec};

verus! {

broadcast use vstd::seq_lib::group_seq_properties;

/// Where the synchronizer stands in the cycle of one frame.
#[derive(Clone, Copy, Debug, PartialEq, Eq, Structural)]
pub enum Stage {
    /// No image acquired; the next frame may acquire.
    Idle,
    /// Image `image` was acquired; its availability is signalled by `acquire`.
    Acquired { image: usize, acquire: u64 },
    /// The frame on image `image` was submitted; its completion is signalled by `done`.
    Submitted { image: usize, done: u64 },
    /// The swapchain is stale; a new resource set must be installed before acquiring.
    NeedsRebuild,
}

/// A submitted completion signal that has not resolved yet, with the generation of the
/// resource set whose framebuffer its commands draw into.
#[derive(Clone, Copy, Debug, PartialEq, Eq, Structural)]
pub struct InFlight {
    pub signal: u64,
    pub generation: u64,
}

/// What the platform answered to a request for the next presentable image.
#[derive(Clone, Copy, Debug, PartialEq, Eq, Structural)]
pub enum AcquireOutcome {
    Ready { image: usize, suboptimal: bool },
    OutOfDate,
    Timeout,
    DeviceLost,
}

/// What the platform answered to a submission and its presentation.
#[derive(Clone, Copy, Debug, PartialEq, Eq, Structural)]
pub enum PresentOutcome {
    Presented,
    Suboptimal,
    OutOfDate,
    DeviceLost,
}

/// An error that ends the frame loop; the device must be reinitialized.
#[derive(Clone, Copy, Debug, PartialEq, Eq, Structural)]
pub enum FatalError {
    DeviceLost,
    /// The platform handed out an image index outside the swapchain.
    InvalidImage,
}

/// Why a frame was skipped.
#[derive(Clone, Copy, Debug, PartialEq, Eq, Structural)]
pub enum SkipReason {
    NeedsRebuild,
    Timeout,
}

/// The result of one frame.
#[derive(Clone, Copy, Debug, PartialEq, Eq, Structural)]
pub enum FrameResult {
    Presented,
    Skipped(SkipReason),
    Fatal(FatalError),
}

/// What a frame does after its acquisition.
#[derive(Clone, Copy, Debug, PartialEq, Eq, Structural)]
pub enum AcquireStep {
    /// Record into image `image`, once `wait`, the slot's last completion signal, resolved.
    Proceed { image: usize, acquire: u64, wait: Option<u64> },
    /// The swapchain is stale: rebuild, then acquire again.
    Retry,
    /// No image became available in time: the frame is skipped.
    TimedOut,
    Fatal(FatalError),
}

/// One submission: the commands run on image `image` after every signal of `waits`, and
/// signal `done`, which gates the presentation of the image.
#[derive(Clone, Debug)]
pub struct Submission {
    pub image: usize,
    pub waits: Vec<u64>,
    pub done: u64,
}

/// What shutting down needs next.
#[derive(Clone, Debug)]
pub enum ShutdownStep {
    /// Wait until `signal` resolves and report it, then ask again.
    WaitFor(u64),
    /// Nothing is in flight: the resource sets of these generations may be released.
    Complete(Vec<u64>),
}

/// Keeps the entries whose signal is not `signal`.
pub open spec fn other_signal(signal: u64) -> spec_fn(InFlight) -> bool {
    |e: InFlight| e.signal != signal
}

/// A slot after `signal` resolved.
pub open spec fn slot_after(o: Option<u64>, signal: u64) -> Option<u64> {
    if o == Some(signal) {
        None
    } else {
        o
    }
}

/// The slots after `signal` resolved.
pub open spec fn slots_after(slots: Seq<Option<u64>>, signal: u64) -> Seq<Option<u64>> {
    Seq::new(slots.len(), |i: int| slot_after(slots[i], signal))
}

/// Whether a signal of generation `g` is still in flight.
pub open spec fn generation_busy(in_flight: Seq<InFlight>, g: u64) -> bool {
    exists|j: int| 0 <= j < in_flight.len() && (#[trigger] in_flight[j]).generation == g
}

/// Keeps the generations that still have a signal in flight.
pub open spec fn busy_in(in_flight: Seq<InFlight>) -> spec_fn(u64) -> bool {
    |g: u64| generation_busy(in_flight, g)
}

/// Keeps the generations that have no signal in flight.
pub open spec fn idle_in(in_flight: Seq<InFlight>) -> spec_fn(u64) -> bool {
    |g: u64| !generation_busy(in_flight, g)
}

/// The slots kept through a rebuild to `n` images: slots past the new count are dropped,
/// new slots start with no signal.
pub open spec fn slots_resized(slots: Seq<Option<u64>>, n: nat) -> Seq<Option<u64>> {
    Seq::new(n, |i: int| if i < slots.len() { slots[i] } else { None })
}

/// The frame pacing synchronizer: one slot per presentable image holding the completion
/// signal last submitted on it, the signals still in flight, and the generations of
/// replaced resource sets that wait for their signals before release.
#[derive(Debug)]
pub struct Synchronizer {
    pub slots: Vec<Option<u64>>,
    pub in_flight: Vec<InFlight>,
    pub retired: Vec<u64>,
    pub stage: Stage,
    pub rebuild_after_frame: bool,
    pub generation: u64,
    pub viewport: Extent,
    pub next_signal: u64,
}

impl Synchronizer {
    pub open spec fn wf(&self) -> bool {
        &&& self.slots@.len() > 0
        &&& (self.stage matches Stage::Acquired { image, acquire } ==> image < self.slots@.len()
            && acquire < self.next_signal)
        &&& (self.stage matches Stage::Submitted { image, done } ==> image < self.slots@.len()
            && done < self.next_signal)
        &&& forall|i: int|
            0 <= i < self.slots@.len() && #[trigger] self.slots@[i] is Some
                ==> self.slots@[i]->Some_0 < self.next_signal
        &&& forall|j: int|
            0 <= j < self.in_flight@.len() ==> (#[trigger] self.in_flight@[j]).signal
                < self.next_signal
    }

    /// A synchronizer for a first resource set of `image_count` images and extent `viewport`.
    pub fn new(image_count: usize, viewport: Extent) -> (r: Synchronizer)
        requires
            image_count > 0,
        ensures
            r.wf(),
            r.slots@ == Seq::new(image_count as nat, |i: int| None::<u64>),
            r.in_flight@.len() == 0,
            r.retired@.len() == 0,
            r.stage == Stage::Idle,
            !r.rebuild_after_frame,
            r.generation == 0,
            r.viewport == viewport,
    {
        let mut slots: Vec<Option<u64>> = Vec::new();
        let mut i: usize = 0;
        while i < image_count
            invariant
                i <= image_count,
                slots@ == Seq::new(i as nat, |k: int| None::<u64>),
            decreases image_count - i,
        {
            slots.push(None);
            i = i + 1;
            assert(slots@ =~= Seq::new(i as nat, |k: int| None::<u64>));
        }
        Synchronizer {
            slots,
            in_flight: Vec::new(),
            retired: Vec::new(),
            stage: Stage::Idle,
            rebuild_after_frame: false,
            generation: 0,
            viewport,
            next_signal: 0,
        }
    }

    /// The completion signal that must resolve before image `image` is recorded into.
    pub fn slot_signal(&self, image: usize) -> (r: Option<u64>)
        requires
            image < self.slots@.len(),
        ensures
            r == self.slots@[image as int],
    {
        self.slots[image]
    }
}

impl Synchronizer {
    /// Takes the platform's answer to a request for the next image.
    ///
    /// A ready image within the swapchain is acquired: its availability gets a fresh signal,
    /// and the slot's last completion signal, if any, is handed back to be awaited first.
    /// A suboptimal image is still used, with a rebuild due after the frame. A stale
    /// surface asks for a rebuild. A timeout skips the frame. Anything else is fatal.
    pub fn on_acquire(&mut self, outcome: AcquireOutcome) -> (r: AcquireStep)
        requires
            old(self).wf(),
            old(self).stage == Stage::Idle,
            old(self).next_signal < u64::MAX,
        ensures
            final(self).wf(),
            final(self).slots == old(self).slots,
            final(self).in_flight == old(self).in_flight,
            final(self).retired == old(self).retired,
            final(self).generation == old(self).generation,
            final(self).viewport == old(self).viewport,
            match outcome {
                AcquireOutcome::Ready { image, suboptimal } => if image < old(self).slots@.len() {
                    &&& r == AcquireStep::Proceed {
                        image,
                        acquire: old(self).next_signal,
                        wait: old(self).slots@[image as int],
                    }
                    &&& final(self).stage == Stage::Acquired { image, acquire: old(self).next_signal }
                    &&& final(self).next_signal == old(self).next_signal + 1
                    &&& final(self).rebuild_after_frame == suboptimal
                } else {
                    &&& r == AcquireStep::Fatal(FatalError::InvalidImage)
                    &&& *final(self) == *old(self)
                },
                AcquireOutcome::OutOfDate => {
                    &&& r == AcquireStep::Retry
                    &&& final(self).stage == Stage::NeedsRebuild
                    &&& final(self).next_signal == old(self).next_signal
                    &&& final(self).rebuild_after_frame == old(self).rebuild_after_frame
                },
                AcquireOutcome::Timeout => {
                    &&& r == AcquireStep::TimedOut
                    &&& *final(self) == *old(self)
                },
                AcquireOutcome::DeviceLost => {
                    &&& r == AcquireStep::Fatal(FatalError::DeviceLost)
                    &&& *final(self) == *old(self)
                },
            },
    {
        match outcome {
            AcquireOutcome::Ready { image, suboptimal } => {
                if image >= self.slots.len() {
                    return AcquireStep::Fatal(FatalError::InvalidImage);
                }
                let acquire = self.next_signal;
                self.next_signal = acquire + 1;
                self.stage = Stage::Acquired { image, acquire };
                self.rebuild_after_frame = suboptimal;
                AcquireStep::Proceed { image, acquire, wait: self.slots[image] }
            },
            AcquireOutcome::OutOfDate => {
                self.stage = Stage::NeedsRebuild;
                AcquireStep::Retry
            },
            AcquireOutcome::Timeout => AcquireStep::TimedOut,
            AcquireOutcome::DeviceLost => AcquireStep::Fatal(FatalError::DeviceLost),
        }
    }

    /// Notes that completion signal `signal` resolved: the slot that held it is free again,
    /// and it is no longer in flight.
    pub fn signal_resolved(&mut self, signal: u64)
        requires
            old(self).wf(),
        ensures
            final(self).wf(),
            final(self).slots@ == slots_after(old(self).slots@, signal),
            final(self).in_flight@ == old(self).in_flight@.filter(other_signal(signal)),
            final(self).retired == old(self).retired,
            final(self).stage == old(self).stage,
            final(self).rebuild_after_frame == old(self).rebuild_after_frame,
            final(self).generation == old(self).generation,
            final(self).viewport == old(self).viewport,
            final(self).next_signal == old(self).next_signal,
    {
        let ghost before = self.slots@;
        let mut i: usize = 0;
        while i < self.slots.len()
            invariant
                self.in_flight == old(self).in_flight,
                self.retired == old(self).retired,
                self.stage == old(self).stage,
                self.rebuild_after_frame == old(self).rebuild_after_frame,
                self.generation == old(self).generation,
                self.viewport == old(self).viewport,
                self.next_signal == old(self).next_signal,
                self.slots@.len() == before.len(),
                i <= before.len(),
                forall|k: int| 0 <= k < i ==> self.slots@[k] == slot_after(before[k], signal),
                forall|k: int| i <= k < before.len() ==> self.slots@[k] == before[k],
            decreases before.len() - i,
        {
            if self.slots[i] == Some(signal) {
                self.slots.set(i, None);
            }
            i = i + 1;
        }
        assert(self.slots@ =~= slots_after(before, signal));
        let ghost flights = self.in_flight@;
        let mut kept: Vec<InFlight> = Vec::new();
        let mut j: usize = 0;
        while j < self.in_flight.len()
            invariant
                self.in_flight@ == flights,
                self.in_flight == old(self).in_flight,
                self.retired == old(self).retired,
                self.stage == old(self).stage,
                self.rebuild_after_frame == old(self).rebuild_after_frame,
                self.generation == old(self).generation,
                self.viewport == old(self).viewport,
                self.next_signal == old(self).next_signal,
                self.slots@ == slots_after(before, signal),
                j <= flights.len(),
                kept@ == flights.subrange(0, j as int).filter(other_signal(signal)),
            decreases flights.len() - j,
        {
            let e = self.in_flight[j];
            proof {
                assert(flights.subrange(0, j + 1) =~= flights.subrange(0, j as int).push(e));
                flights.subrange(0, j as int).lemma_filter_push(e, other_signal(signal));
            }
            if e.signal != signal {
                kept.push(e);
            }
            j = j + 1;
        }
        assert(flights.subrange(0, flights.len() as int) =~= flights);
        proof {
            assert forall|k: int| 0 <= k < kept@.len() implies (#[trigger] kept@[k]).signal
                < self.next_signal by {
                let x = kept@[k];
                assert(kept@.contains(x));
                flights.lemma_filter_contains_rev(other_signal(signal), x);
                let idx = choose|idx: int| 0 <= idx < flights.len() && flights[idx] == x;
                assert(flights[idx].signal < self.next_signal);
            }
        }
        self.in_flight = kept;
    }
}

impl Synchronizer {
    /// Records the commands of the acquired frame into its framebuffer of `set`, with the
    /// synchronizer's viewport. Only a free slot is recorded into: its last completion
    /// signal must have resolved.
    pub fn record_frame(
        &self,
        set: &SwapchainResourceSet,
        geometry: Geometry,
        clear: ClearColor,
    ) -> (r: Result<Vec<Command>, RecordError>)
        requires
            self.wf(),
            set.wf(),
            set.config.image_count == self.slots@.len(),
            self.stage matches Stage::Acquired { image, .. } && self.slots@[image as int] is None,
        ensures
            ({
                let fb = framebuffer_spec(set.config, self.stage->Acquired_image as int);
                &&& r is Ok <==> compatible(fb, self.viewport, set.config.format)
                &&& r is Ok ==> r->Ok_0@ == commands_spec(fb, self.viewport, geometry, clear)
                &&& r is Err ==> r->Err_0 == RecordError::IncompatibleFramebuffer
            }),
    {
        let image = match self.stage {
            Stage::Acquired { image, .. } => image,
            _ => 0,
        };
        record(set.framebuffer(image), self.viewport, set.config.format, geometry, clear)
    }

    /// Submits the recorded frame: its commands wait for the acquired image, and signal a
    /// fresh completion signal, which the image's slot holds from now on.
    pub fn submit(&mut self) -> (r: Submission)
        requires
            old(self).wf(),
            old(self).stage matches Stage::Acquired { image, .. } && old(self).slots@[image as int] is None,
            old(self).next_signal < u64::MAX,
        ensures
            final(self).wf(),
            ({
                let image = old(self).stage->Acquired_image;
                let done = old(self).next_signal;
                &&& r.image == image
                &&& r.waits@ == seq![old(self).stage->Acquired_acquire]
                &&& r.done == done
                &&& final(self).slots@ == old(self).slots@.update(image as int, Some(done))
                &&& final(self).in_flight@ == old(self).in_flight@.push(
                    InFlight { signal: done, generation: old(self).generation },
                )
                &&& final(self).stage == Stage::Submitted { image, done }
                &&& final(self).next_signal == done + 1
            }),
            final(self).retired == old(self).retired,
            final(self).rebuild_after_frame == old(self).rebuild_after_frame,
            final(self).generation == old(self).generation,
            final(self).viewport == old(self).viewport,
    {
        let (image, acquire) = match self.stage {
            Stage::Acquired { image, acquire } => (image, acquire),
            _ => (0, 0),
        };
        let done = self.next_signal;
        self.next_signal = done + 1;
        self.slots.set(image, Some(done));
        self.in_flight.push(InFlight { signal: done, generation: self.generation });
        self.stage = Stage::Submitted { image, done };
        let mut waits: Vec<u64> = Vec::new();
        waits.push(acquire);
        proof {
            assert(waits@ =~= seq![acquire]);
        }
        Submission { image, waits, done }
    }

    /// Takes the platform's answer to the presentation of the submitted frame.
    ///
    /// A presented frame ends the cycle; a rebuild is due after it where the acquisition or
    /// the presentation found the swapchain suboptimal. A stale swapchain skips the frame
    /// and asks for a rebuild. A lost device is fatal.
    pub fn on_present(&mut self, outcome: PresentOutcome) -> (r: FrameResult)
        requires
            old(self).wf(),
            old(self).stage is Submitted,
        ensures
            final(self).wf(),
            final(self).slots == old(self).slots,
            final(self).in_flight == old(self).in_flight,
            final(self).retired == old(self).retired,
            final(self).generation == old(self).generation,
            final(self).viewport == old(self).viewport,
            final(self).next_signal == old(self).next_signal,
            !final(self).rebuild_after_frame,
            match outcome {
                PresentOutcome::Presented => {
                    &&& r == FrameResult::Presented
                    &&& final(self).stage == if old(self).rebuild_after_frame {
                        Stage::NeedsRebuild
                    } else {
                        Stage::Idle
                    }
                },
                PresentOutcome::Suboptimal => {
                    &&& r == FrameResult::Presented
                    &&& final(self).stage == Stage::NeedsRebuild
                },
                PresentOutcome::OutOfDate => {
                    &&& r == FrameResult::Skipped(SkipReason::NeedsRebuild)
                    &&& final(self).stage == Stage::NeedsRebuild
                },
                PresentOutcome::DeviceLost => {
                    &&& r == FrameResult::Fatal(FatalError::DeviceLost)
                    &&& final(self).stage == Stage::Idle
                },
            },
    {
        let rebuild = self.rebuild_after_frame;
        self.rebuild_after_frame = false;
        match outcome {
            PresentOutcome::Presented => {
                self.stage = if rebuild { Stage::NeedsRebuild } else { Stage::Idle };
                FrameResult::Presented
            },
            PresentOutcome::Suboptimal => {
                self.stage = Stage::NeedsRebuild;
                FrameResult::Presented
            },
            PresentOutcome::OutOfDate => {
                self.stage = Stage::NeedsRebuild;
                FrameResult::Skipped(SkipReason::NeedsRebuild)
            },
            PresentOutcome::DeviceLost => {
                self.stage = Stage::Idle;
                FrameResult::Fatal(FatalError::DeviceLost)
            },
        }
    }
}

impl Synchronizer {
    /// Installs a new resource set of `image_count` images and extent `viewport`, built as
    /// the next generation. Slots past the new image count are dropped, any acquisition of
    /// the old generation is abandoned, and the old generation waits, retired, until its
    /// signals in flight resolve.
    pub fn install(&mut self, image_count: usize, viewport: Extent)
        requires
            old(self).wf(),
            image_count > 0,
            old(self).generation < u64::MAX,
        ensures
            final(self).wf(),
            final(self).slots@ == slots_resized(old(self).slots@, image_count as nat),
            final(self).in_flight == old(self).in_flight,
            final(self).retired@ == old(self).retired@.push(old(self).generation),
            final(self).stage == Stage::Idle,
            !final(self).rebuild_after_frame,
            final(self).generation == old(self).generation + 1,
            final(self).viewport == viewport,
            final(self).next_signal == old(self).next_signal,
    {
        let ghost before = self.slots@;
        let mut slots: Vec<Option<u64>> = Vec::new();
        let mut i: usize = 0;
        while i < image_count
            invariant
                self.slots@ == before,
                i <= image_count,
                slots@ == Seq::new(i as nat, |k: int| if k < before.len() { before[k] } else { None }),
            decreases image_count - i,
        {
            let s = if i < self.slots.len() { self.slots[i] } else { None };
            slots.push(s);
            i = i + 1;
            assert(slots@ =~= Seq::new(i as nat, |k: int| if k < before.len() { before[k] } else { None }));
        }
        self.slots = slots;
        self.retired.push(self.generation);
        self.generation = self.generation + 1;
        self.stage = Stage::Idle;
        self.rebuild_after_frame = false;
        self.viewport = viewport;
    }

    /// Whether a completion signal of generation `g` is still in flight.
    pub fn generation_in_flight(&self, g: u64) -> (r: bool)
        ensures
            r == generation_busy(self.in_flight@, g),
    {
        let mut j: usize = 0;
        while j < self.in_flight.len()
            invariant
                j <= self.in_flight@.len(),
                forall|k: int| 0 <= k < j ==> (#[trigger] self.in_flight@[k]).generation != g,
            decreases self.in_flight@.len() - j,
        {
            if self.in_flight[j].generation == g {
                assert(self.in_flight@[j as int].generation == g);
                return true;
            }
            j = j + 1;
        }
        false
    }

    /// Takes the retired generations that have no completion signal in flight any more:
    /// their resource sets may now be released. The others stay retired.
    pub fn release_ready(&mut self) -> (r: Vec<u64>)
        requires
            old(self).wf(),
        ensures
            final(self).wf(),
            r@ == old(self).retired@.filter(idle_in(old(self).in_flight@)),
            final(self).retired@ == old(self).retired@.filter(busy_in(old(self).in_flight@)),
            final(self).slots == old(self).slots,
            final(self).in_flight == old(self).in_flight,
            final(self).stage == old(self).stage,
            final(self).rebuild_after_frame == old(self).rebuild_after_frame,
            final(self).generation == old(self).generation,
            final(self).viewport == old(self).viewport,
            final(self).next_signal == old(self).next_signal,
    {
        let ghost gens = self.retired@;
        let ghost flights = self.in_flight@;
        let mut released: Vec<u64> = Vec::new();
        let mut kept: Vec<u64> = Vec::new();
        let mut j: usize = 0;
        while j < self.retired.len()
            invariant
                self.retired@ == gens,
                self.in_flight@ == flights,
                j <= gens.len(),
                released@ == gens.subrange(0, j as int).filter(idle_in(flights)),
                kept@ == gens.subrange(0, j as int).filter(busy_in(flights)),
            decreases gens.len() - j,
        {
            let g = self.retired[j];
            proof {
                assert(gens.subrange(0, j + 1) =~= gens.subrange(0, j as int).push(g));
                gens.subrange(0, j as int).lemma_filter_push(g, idle_in(flights));
                gens.subrange(0, j as int).lemma_filter_push(g, busy_in(flights));
            }
            if self.generation_in_flight(g) {
                kept.push(g);
            } else {
                released.push(g);
            }
            j = j + 1;
        }
        assert(gens.subrange(0, gens.len() as int) =~= gens);
        self.retired = kept;
        released
    }

    /// The next step of shutting down: while any completion signal is in flight, the first
    /// of them must be awaited; once none is, every resource set is released, the retired
    /// generations and the current one.
    pub fn shutdown_step(&mut self) -> (r: ShutdownStep)
        requires
            old(self).wf(),
        ensures
            final(self).wf(),
            old(self).in_flight@.len() > 0 ==> {
                &&& r == ShutdownStep::WaitFor(old(self).in_flight@[0].signal)
                &&& *final(self) == *old(self)
            },
            old(self).in_flight@.len() == 0 ==> {
                &&& r is Complete
                &&& r->Complete_0@ == old(self).retired@.push(old(self).generation)
                &&& final(self).retired@.len() == 0
            },
            final(self).slots == old(self).slots,
            final(self).in_flight == old(self).in_flight,
            final(self).stage == old(self).stage,
            final(self).rebuild_after_frame == old(self).rebuild_after_frame,
            final(self).generation == old(self).generation,
            final(self).viewport == old(self).viewport,
            final(self).next_signal == old(self).next_signal,
    {
        if self.in_flight.len() > 0 {
            return ShutdownStep::WaitFor(self.in_flight[0].signal);
        }
        let mut all: Vec<u64> = Vec::new();
        std::mem::swap(&mut all, &mut self.retired);
        all.push(self.generation);
        ShutdownStep::Complete(all)
    }
}

/// A slot becomes free only through the resolution of the signal it held: until that
/// signal resolves, the image's slot is not recorded into again.
pub proof fn slot_freed_only_by_its_signal(slots: Seq<Option<u64>>, signal: u64, i: int)
    requires
        0 <= i < slots.len(),
        slots[i] is Some,
        slots_after(slots, signal)[i] is None,
    ensures
        slots[i] == Some(signal),
{
}

/// A resource set is never released while a completion signal of its generation is in
/// flight.
pub proof fn busy_generation_not_released(retired: Seq<u64>, in_flight: Seq<InFlight>, j: int)
    requires
        0 <= j < in_flight.len(),
    ensures
        !retired.filter(idle_in(in_flight)).contains(in_flight[j].generation),
{
    let g = in_flight[j].generation;
    assert(generation_busy(in_flight, g));
    if retired.filter(idle_in(in_flight)).contains(g) {
        let k = choose|k: int|
            0 <= k < retired.filter(idle_in(in_flight)).len() && retired.filter(
                idle_in(in_flight),
            )[k] == g;
        retired.lemma_filter_pred(idle_in(in_flight), k);
    }
}

/// A completion signal stays in flight until it is itself reported resolved; so shutdown,
/// which completes only with nothing in flight, never completes before it resolves.
pub proof fn in_flight_until_resolved(in_flight: Seq<InFlight>, j: int, resolved: u64)
    requires
        0 <= j < in_flight.len(),
        in_flight[j].signal != resolved,
    ensures
        in_flight.filter(other_signal(resolved)).contains(in_flight[j]),
        in_flight.filter(other_signal(resolved)).len() > 0,
{
    in_flight.lemma_filter_contains(other_signal(resolved), j);
}

} // verus!
