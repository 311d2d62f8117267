use vstd::prelude::*;
use crate::config::Extent;

verus! {

/// Collects resize notifications and stale-surface reports between two frame ticks.
///
/// Notifications only mark a rebuild as pending; the rebuild is taken, at most once per
/// tick, by `drain_rebuild_if_needed`, with the latest extent reported.
#[derive(Clone, Copy, Debug, PartialEq, Eq, Structural)]
pub struct ResizeController {
    pub pending: bool,
    pub latest: Option<Extent>,
}

/// The controller after a resize notification to `extent`.
pub open spec fn resized(c: ResizeController, extent: Extent) -> ResizeController {
    ResizeController { pending: true, latest: Some(extent) }
}

/// The controller after each notification of `extents`, in order.
pub open spec fn resized_all(c: ResizeController, extents: Seq<Extent>) -> ResizeController
    decreases extents.len(),
{
    if extents.len() == 0 {
        c
    } else {
        resized(resized_all(c, extents.drop_last()), extents.last())
    }
}

/// The controller after a stale swapchain was reported: a rebuild is pending.
pub open spec fn marked(c: ResizeController) -> ResizeController {
    ResizeController { pending: true, latest: c.latest }
}

/// The extent that a drain of `c` rebuilds to, where it rebuilds at all.
pub open spec fn drained_extent(c: ResizeController, window: Extent) -> Option<Extent> {
    if c.pending {
        match c.latest {
            Some(e) => Some(e),
            None => Some(window),
        }
    } else {
        None
    }
}

/// The controller after a drain: nothing pending.
pub open spec fn drained(c: ResizeController) -> ResizeController {
    ResizeController { pending: false, latest: None }
}

impl ResizeController {
    /// A controller with no rebuild pending.
    pub fn new() -> (r: ResizeController)
        ensures
            r == (ResizeController { pending: false, latest: None }),
    {
        ResizeController { pending: false, latest: None }
    }

    /// Notes that the window now has size `extent`.
    pub fn on_resize(&mut self, extent: Extent)
        ensures
            *final(self) == resized(*old(self), extent),
    {
        self.pending = true;
        self.latest = Some(extent);
    }

    /// Notes that acquisition or presentation found the swapchain stale.
    pub fn on_acquire_or_present_retry(&mut self)
        ensures
            *final(self) == marked(*old(self)),
    {
        self.pending = true;
    }

    /// Whether a rebuild is pending.
    pub fn needs_rebuild(&self) -> (r: bool)
        ensures
            r == self.pending,
    {
        self.pending
    }

    /// Takes the pending rebuild, if any: the extent to rebuild to, the latest one
    /// reported, or `window` where the rebuild came from a stale surface alone.
    pub fn drain_rebuild_if_needed(&mut self, window: Extent) -> (r: Option<Extent>)
        ensures
            r == drained_extent(*old(self), window),
            *final(self) == drained(*old(self)),
    {
        let r = if self.pending {
            match self.latest {
                Some(e) => Some(e),
                None => Some(window),
            }
        } else {
            None
        };
        self.pending = false;
        self.latest = None;
        r
    }
}

/// A burst of resize notifications between two drains gives exactly one rebuild, to the
/// last extent reported; the drain after it rebuilds nothing.
pub proof fn resize_burst_coalesces(c: ResizeController, extents: Seq<Extent>, window: Extent)
    requires
        extents.len() > 0,
    ensures
        drained_extent(resized_all(c, extents), window) == Some(extents.last()),
        drained_extent(drained(resized_all(c, extents)), window) is None,
{
}

} // verus!
