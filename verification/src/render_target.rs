//! Swap-chain render-target tracking: holds the view bound to the current
//! back buffer and rebuilds it when the swap chain's buffers are resized.
//!
//! Views are opaque handles drawn from a counter that never repeats, so a
//! view handle released before a resize is provably never the handle drawn
//! for any later rebuild: a stale view cannot be mistaken for the current
//! one. A resize must release the old view, run the host's own resize with
//! no view held, and only then rebuild from the new back buffer; the
//! contracts here enforce that order on every verified caller.

use vstd::prelude::*;

verus! {

/// The mathematical value of the tracker: the bound view, if any, and the
/// next unissued handle.
pub struct TrackerView {
    pub view: Option<u64>,
    pub next_handle: int,
}

/// The tracker's invariant: every issued handle lies below the counter.
pub open spec fn tracker_wf(t: TrackerView) -> bool {
    &&& 0 <= t.next_handle
    &&& (t.view matches Some(h) ==> (h as int) < t.next_handle)
}

/// Releasing the current view: nothing is bound afterwards, and the old
/// view, if any, is handed back to be released.
pub open spec fn released_tracker(t: TrackerView) -> (TrackerView, Option<u64>) {
    (TrackerView { view: None, next_handle: t.next_handle }, t.view)
}

/// Rebuilding from a back buffer: a view under a fresh handle is bound.
pub open spec fn rebuilt_tracker(t: TrackerView) -> (TrackerView, u64) {
    (
        TrackerView { view: Some(t.next_handle as u64), next_handle: t.next_handle + 1 },
        t.next_handle as u64,
    )
}

/// A resize never lets an old view survive: after release and rebuild, the
/// bound view differs from the view bound before and from every handle the
/// tracker ever issued, so a render-target handle from before the resize
/// is never the one a later draw uses.
pub proof fn lemma_resize_never_reuses_old_view(t: TrackerView)
    requires
        tracker_wf(t),
        t.next_handle + 1 <= u64::MAX,
    ensures
        ({
            let (cleared, old_view) = released_tracker(t);
            let (rebound, fresh) = rebuilt_tracker(cleared);
            &&& cleared.view is None
            &&& old_view == t.view
            &&& rebound.view == Some(fresh)
            &&& tracker_wf(rebound)
            &&& (fresh as int) == t.next_handle
            &&& (t.view matches Some(h) ==> fresh != h)
        }),
{
}

/// What a rebuild asks of the embedding application, in order: release the
/// old view first, if one was bound, then create a view of the back buffer
/// under the fresh handle.
#[derive(Clone, Copy, PartialEq, Eq, Structural, Debug)]
pub struct RebuildPlan {
    pub release_first: Option<u64>,
    pub create: u64,
    pub back_buffer: u64,
}

/// Owns the render-target view bound to the current back buffer.
pub struct RenderTargetTracker {
    view: Option<u64>,
    next_handle: u64,
}

impl View for RenderTargetTracker {
    type V = TrackerView;

    closed spec fn view(&self) -> TrackerView {
        TrackerView { view: self.view, next_handle: self.next_handle as int }
    }
}

impl RenderTargetTracker {
    /// A tracker with no view bound.
    pub fn new() -> (t: RenderTargetTracker)
        ensures
            t@.view is None,
            t@.next_handle == 0,
            tracker_wf(t@),
    {
        RenderTargetTracker { view: None, next_handle: 0 }
    }

    /// The currently bound view, if any.
    pub fn current_view(&self) -> (r: Option<u64>)
        ensures
            r == self@.view,
    {
        self.view
    }

    /// Invalidates the current view, handing it back so the embedding
    /// application can release the GPU object before the buffers it
    /// references are resized or destroyed.
    pub fn release_view(&mut self) -> (r: Option<u64>)
        ensures
            (final(self)@, r) == released_tracker(old(self)@),
            tracker_wf(old(self)@) ==> tracker_wf(final(self)@),
    {
        let r = self.view;
        self.view = None;
        r
    }

    /// Binds a view of the given back buffer under a fresh handle. Nothing
    /// may be bound when this is called: the old view must have been
    /// released first, so a resize always runs release, then the host's
    /// resize, then this rebuild.
    pub fn rebuild(&mut self, back_buffer: u64) -> (plan: RebuildPlan)
        requires
            old(self)@.view is None,
            old(self)@.next_handle + 1 <= u64::MAX,
        ensures
            (final(self)@, plan.create) == rebuilt_tracker(old(self)@),
            plan.release_first is None,
            plan.back_buffer == back_buffer,
            final(self)@.view == Some(plan.create),
            tracker_wf(old(self)@) ==> tracker_wf(final(self)@),
    {
        let h = self.next_handle;
        self.next_handle = self.next_handle + 1;
        self.view = Some(h);
        RebuildPlan { release_first: None, create: h, back_buffer }
    }
}

} // verus!
