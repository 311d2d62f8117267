use framepace::{
    AcquireOutcome, Action, ClearColor, Command, Extent, FatalError, FramePacer, FrameResult,
    Geometry, Phase, PresentMode, PresentOutcome, ResizeController, ShutdownStep, SkipReason,
    Stage, SurfaceCapabilities, SurfaceFormat,
};

const F: SurfaceFormat = SurfaceFormat { format: 50, color_space: 0 };
const CLEAR: ClearColor = ClearColor { r: 0, g: 0, b: 255, a: 255 };
const TRIANGLE: Geometry = Geometry { vertex_count: 3 };

fn ext(width: u32, height: u32) -> Extent {
    Extent { width, height }
}

fn caps(current: Extent, min_images: u32) -> SurfaceCapabilities {
    SurfaceCapabilities {
        formats: vec![F],
        present_modes: vec![PresentMode::Fifo],
        current_extent: Some(current),
        min_extent: ext(1, 1),
        max_extent: ext(4096, 4096),
        min_image_count: min_images,
        max_image_count: None,
    }
}

fn pacer(current: Extent, min_images: u32) -> FramePacer {
    FramePacer::initialize(&caps(current, min_images), current, TRIANGLE, CLEAR, None).unwrap()
}

fn ready(image: usize) -> AcquireOutcome {
    AcquireOutcome::Ready { image, suboptimal: false }
}

/// A presentation engine that hands out images round robin and resolves a completion
/// signal only when asked to wait for it.
struct RoundRobin {
    next: usize,
    count: usize,
    presented: Vec<usize>,
    last_done: Vec<Option<u64>>,
    resolved: Vec<u64>,
}

impl RoundRobin {
    fn new(count: usize) -> RoundRobin {
        RoundRobin { next: 0, count, presented: vec![], last_done: vec![None; count], resolved: vec![] }
    }

    fn frame(&mut self, p: &mut FramePacer, window: Extent) -> FrameResult {
        let mut action = p.tick(window);
        loop {
            action = match action {
                Action::QueryCapabilities => p.capabilities(caps(window, self.count as u32)),
                Action::CreateSwapchain(_) => p.swapchain_created(),
                Action::Acquire { .. } => {
                    let image = self.next;
                    self.next = (image + 1) % self.count;
                    p.acquired(ready(image))
                }
                Action::Wait(s) => {
                    self.resolved.push(s);
                    p.signal_resolved(s);
                    p.waited()
                }
                Action::Execute { submission, .. } => {
                    if let Some(prev) = self.last_done[submission.image] {
                        assert!(self.resolved.contains(&prev));
                    }
                    self.last_done[submission.image] = Some(submission.done);
                    self.presented.push(submission.image);
                    p.present_done(PresentOutcome::Presented)
                }
                Action::Finish(r) => return r,
            }
        }
    }
}

#[test]
fn frames_present_images_cyclically() {
    let mut p = pacer(ext(800, 600), 3);
    let mut engine = RoundRobin::new(3);
    for _ in 0..7 {
        assert_eq!(engine.frame(&mut p, ext(800, 600)), FrameResult::Presented);
    }
    assert_eq!(engine.presented, vec![0, 1, 2, 0, 1, 2, 0]);
}

#[test]
fn slot_is_reused_only_after_its_signal_resolved() {
    let mut p = pacer(ext(800, 600), 2);
    let mut engine = RoundRobin::new(2);
    for _ in 0..5 {
        assert_eq!(engine.frame(&mut p, ext(800, 600)), FrameResult::Presented);
    }
    assert_eq!(engine.resolved.len(), 3);
}

#[test]
fn busy_slot_is_awaited_before_recording() {
    let mut p = pacer(ext(800, 600), 2);
    assert!(matches!(p.tick(ext(800, 600)), Action::Acquire { .. }));
    let done = match p.acquired(ready(0)) {
        Action::Execute { submission, .. } => submission.done,
        other => panic!("unexpected {:?}", other),
    };
    assert!(matches!(p.present_done(PresentOutcome::Presented), Action::Finish(FrameResult::Presented)));
    assert!(matches!(p.tick(ext(800, 600)), Action::Acquire { .. }));
    assert!(matches!(p.acquired(ready(0)), Action::Wait(s) if s == done));
    assert_eq!(p.phase, Phase::Waiting);
    assert!(matches!(p.waited(), Action::Wait(s) if s == done));
    p.signal_resolved(done);
    match p.waited() {
        Action::Execute { submission, .. } => assert_eq!(submission.image, 0),
        other => panic!("unexpected {:?}", other),
    }
}

#[test]
fn resize_burst_gives_one_rebuild_to_last_extent() {
    let mut c = ResizeController::new();
    c.on_resize(ext(900, 700));
    c.on_resize(ext(1000, 700));
    c.on_resize(ext(1024, 768));
    assert_eq!(c.drain_rebuild_if_needed(ext(1, 1)), Some(ext(1024, 768)));
    assert_eq!(c.drain_rebuild_if_needed(ext(1, 1)), None);
}

#[test]
fn stale_report_rebuilds_to_window_extent() {
    let mut c = ResizeController::new();
    assert!(!c.needs_rebuild());
    c.on_acquire_or_present_retry();
    assert!(c.needs_rebuild());
    assert_eq!(c.drain_rebuild_if_needed(ext(640, 480)), Some(ext(640, 480)));
}

#[test]
fn pacer_coalesces_resizes_into_one_rebuild() {
    let mut p = pacer(ext(800, 600), 2);
    p.on_resize(ext(900, 700));
    p.on_resize(ext(1024, 768));
    assert!(matches!(p.tick(ext(1, 1)), Action::QueryCapabilities));
    assert_eq!(p.phase, Phase::Querying { extent: ext(1024, 768) });
    let mut c = caps(ext(1024, 768), 2);
    c.current_extent = None;
    match p.capabilities(c) {
        Action::CreateSwapchain(config) => assert_eq!(config.extent, ext(1024, 768)),
        other => panic!("unexpected {:?}", other),
    }
    assert!(matches!(p.swapchain_created(), Action::Acquire { .. }));
    assert_eq!(p.sync.generation, 1);
    assert!(!p.controller.needs_rebuild());
}

#[test]
fn out_of_date_acquire_skips_then_rebuilds() {
    let mut p = pacer(ext(800, 600), 2);
    assert_eq!(p.resources.config.extent, ext(800, 600));
    assert_eq!(p.resources.image_count(), 2);
    assert_eq!(p.resources.config.format, F);
    assert!(matches!(p.tick(ext(800, 600)), Action::Acquire { .. }));
    let (done, commands) = match p.acquired(ready(0)) {
        Action::Execute { submission, commands } => {
            assert_eq!(submission.image, 0);
            (submission.done, commands)
        }
        other => panic!("unexpected {:?}", other),
    };
    assert_eq!(commands[1], Command::Draw { vertex_count: 3, viewport: ext(800, 600) });
    assert!(matches!(p.present_done(PresentOutcome::Presented), Action::Finish(FrameResult::Presented)));

    assert!(matches!(p.tick(ext(800, 600)), Action::Acquire { .. }));
    assert!(matches!(
        p.acquired(AcquireOutcome::OutOfDate),
        Action::Finish(FrameResult::Skipped(SkipReason::NeedsRebuild))
    ));
    assert_eq!(p.sync.stage, Stage::NeedsRebuild);

    assert!(matches!(p.tick(ext(1024, 768)), Action::QueryCapabilities));
    match p.capabilities(caps(ext(1024, 768), 2)) {
        Action::CreateSwapchain(config) => {
            assert_eq!(config.extent, ext(1024, 768));
            assert_eq!(config.format, F);
        }
        other => panic!("unexpected {:?}", other),
    }
    assert!(matches!(p.swapchain_created(), Action::Acquire { .. }));
    assert_eq!(p.resources.config.extent, ext(1024, 768));
    assert_eq!(p.release_ready(), Vec::<u64>::new());
    match p.acquired(ready(1)) {
        Action::Execute { submission, commands } => {
            assert_eq!(submission.image, 1);
            assert_eq!(commands[1], Command::Draw { vertex_count: 3, viewport: ext(1024, 768) });
        }
        other => panic!("unexpected {:?}", other),
    }
    assert!(matches!(p.present_done(PresentOutcome::Presented), Action::Finish(FrameResult::Presented)));
    p.signal_resolved(done);
    assert_eq!(p.release_ready(), vec![0]);
}

#[test]
fn acquire_timeout_skips_without_submission() {
    let c = caps(ext(800, 600), 2);
    let mut p = FramePacer::initialize(&c, ext(800, 600), TRIANGLE, CLEAR, Some(0)).unwrap();
    assert!(matches!(p.tick(ext(800, 600)), Action::Acquire { timeout_ms: Some(0) }));
    let before = p.sync.next_signal;
    assert!(matches!(
        p.acquired(AcquireOutcome::Timeout),
        Action::Finish(FrameResult::Skipped(SkipReason::Timeout))
    ));
    assert_eq!(p.sync.next_signal, before);
    assert!(p.sync.in_flight.is_empty());
    assert_eq!(p.sync.slots, vec![None, None]);
    assert_eq!(p.phase, Phase::Ready);
}

#[test]
fn shutdown_waits_for_pending_present() {
    let mut p = pacer(ext(800, 600), 2);
    assert!(matches!(p.tick(ext(800, 600)), Action::Acquire { .. }));
    let done = match p.acquired(ready(0)) {
        Action::Execute { submission, .. } => submission.done,
        other => panic!("unexpected {:?}", other),
    };
    match p.shutdown_step() {
        ShutdownStep::WaitFor(s) => assert_eq!(s, done),
        other => panic!("unexpected {:?}", other),
    }
    match p.shutdown_step() {
        ShutdownStep::WaitFor(s) => assert_eq!(s, done),
        other => panic!("unexpected {:?}", other),
    }
    p.signal_resolved(done);
    match p.shutdown_step() {
        ShutdownStep::Complete(gens) => assert_eq!(gens, vec![0]),
        other => panic!("unexpected {:?}", other),
    }
}

#[test]
fn old_set_kept_while_its_signal_is_in_flight() {
    let mut p = pacer(ext(800, 600), 2);
    let mut engine = RoundRobin::new(2);
    assert_eq!(engine.frame(&mut p, ext(800, 600)), FrameResult::Presented);
    p.on_resize(ext(1024, 768));
    assert_eq!(engine.frame(&mut p, ext(1024, 768)), FrameResult::Presented);
    assert_eq!(p.sync.retired, vec![0]);
    assert_eq!(p.release_ready(), Vec::<u64>::new());
    let pending: Vec<u64> = p.sync.in_flight.iter().filter(|e| e.generation == 0).map(|e| e.signal).collect();
    assert_eq!(pending.len(), 1);
    p.signal_resolved(pending[0]);
    assert_eq!(p.release_ready(), vec![0]);
    assert!(p.sync.retired.is_empty());
}

#[test]
fn suboptimal_acquire_rebuilds_after_frame() {
    let mut p = pacer(ext(800, 600), 2);
    assert!(matches!(p.tick(ext(800, 600)), Action::Acquire { .. }));
    let r = p.acquired(AcquireOutcome::Ready { image: 0, suboptimal: true });
    assert!(matches!(r, Action::Execute { .. }));
    assert!(matches!(p.present_done(PresentOutcome::Presented), Action::Finish(FrameResult::Presented)));
    assert_eq!(p.sync.stage, Stage::NeedsRebuild);
    assert!(matches!(p.tick(ext(800, 600)), Action::QueryCapabilities));
}

#[test]
fn suboptimal_present_is_presented_then_rebuilt() {
    let mut p = pacer(ext(800, 600), 2);
    assert!(matches!(p.tick(ext(800, 600)), Action::Acquire { .. }));
    assert!(matches!(p.acquired(ready(0)), Action::Execute { .. }));
    assert!(matches!(p.present_done(PresentOutcome::Suboptimal), Action::Finish(FrameResult::Presented)));
    assert!(p.controller.needs_rebuild());
}

#[test]
fn out_of_date_present_skips_frame() {
    let mut p = pacer(ext(800, 600), 2);
    assert!(matches!(p.tick(ext(800, 600)), Action::Acquire { .. }));
    assert!(matches!(p.acquired(ready(1)), Action::Execute { .. }));
    assert!(matches!(
        p.present_done(PresentOutcome::OutOfDate),
        Action::Finish(FrameResult::Skipped(SkipReason::NeedsRebuild))
    ));
    assert!(matches!(p.tick(ext(800, 600)), Action::QueryCapabilities));
}

#[test]
fn device_loss_is_fatal() {
    let mut p = pacer(ext(800, 600), 2);
    assert!(matches!(p.tick(ext(800, 600)), Action::Acquire { .. }));
    assert!(matches!(
        p.acquired(AcquireOutcome::DeviceLost),
        Action::Finish(FrameResult::Fatal(FatalError::DeviceLost))
    ));
    assert!(matches!(p.tick(ext(800, 600)), Action::Acquire { .. }));
    assert!(matches!(p.acquired(ready(0)), Action::Execute { .. }));
    assert!(matches!(
        p.present_done(PresentOutcome::DeviceLost),
        Action::Finish(FrameResult::Fatal(FatalError::DeviceLost))
    ));
}

#[test]
fn image_outside_swapchain_is_fatal() {
    let mut p = pacer(ext(800, 600), 2);
    assert!(matches!(p.tick(ext(800, 600)), Action::Acquire { .. }));
    assert!(matches!(p.acquired(ready(2)), Action::Finish(FrameResult::Fatal(FatalError::InvalidImage))));
}

#[test]
fn failed_rebuild_keeps_current_set() {
    let mut p = pacer(ext(800, 600), 2);
    p.on_resize(ext(0, 0));
    assert!(matches!(p.tick(ext(0, 0)), Action::QueryCapabilities));
    assert!(matches!(
        p.capabilities(caps(ext(0, 0), 2)),
        Action::Finish(FrameResult::Skipped(SkipReason::NeedsRebuild))
    ));
    assert_eq!(p.resources.config.extent, ext(800, 600));
    assert!(matches!(p.tick(ext(640, 480)), Action::QueryCapabilities));
    assert!(matches!(p.capabilities(caps(ext(640, 480), 2)), Action::CreateSwapchain(_)));
    assert!(matches!(
        p.swapchain_failed(),
        Action::Finish(FrameResult::Skipped(SkipReason::NeedsRebuild))
    ));
    assert_eq!(p.resources.generation, 0);
    assert!(p.controller.needs_rebuild());
}

#[test]
fn initialize_fails_without_fifo() {
    let mut c = caps(ext(800, 600), 2);
    c.present_modes = vec![PresentMode::Immediate];
    assert!(FramePacer::initialize(&c, ext(800, 600), TRIANGLE, CLEAR, None).is_err());
}
