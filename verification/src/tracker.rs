//! The tracking state machine.
//!
//! The tracker is idle until a selection is taken up. From then on it tracks:
//! every frame it hands out the current window as the seed of the search and
//! adopts the bounding rectangle that the search reports. A later selection
//! starts it afresh from the new region. Nothing makes it idle again.
//!
//! One frame is two steps. `begin_frame` reads the selection and says what the
//! imaging side has to do; `end_frame` takes the rectangle that the search
//! found and gives the line to report.

use vstd::prelude::*;
use crate::geometry::Rect;
use crate::selection::{MouseEvent, SelectionStatus};
use crate::telemetry::{spec_telemetry_line, telemetry_line};

verus! {

/// Whether a colour model exists and frames are searched.
#[derive(Clone, Copy, Debug, PartialEq, Eq, Structural)]
pub enum TrackingMode {
    /// No selection was taken up yet.
    Idle,
    /// A colour model exists; every frame is searched.
    Tracking,
}

/// The state that the loop carries from frame to frame.
#[derive(Clone, Copy, Debug, PartialEq, Eq, Structural)]
pub struct Tracker {
    /// Idle or tracking.
    pub mode: TrackingMode,
    /// The rectangle in which the next search starts. Meaningful while
    /// tracking.
    pub window: Rect,
    /// The rectangle from which the colour histogram in use was computed.
    /// Meaningful while tracking.
    pub histogram_region: Rect,
}

/// What the imaging side has to do in the frame that begins.
#[derive(Clone, Copy, Debug, PartialEq, Eq, Structural)]
pub struct FramePlan {
    /// `Some(r)`: compute a new histogram from the region `r` of this frame,
    /// replace the one in use, and outline `r`. `None`: keep the histogram.
    pub initialize: Option<Rect>,
    /// `Some(w)`: search this frame starting from the window `w` and hand the
    /// bounding rectangle of the result to `end_frame`. `None`: do not search.
    pub search: Option<Rect>,
}

impl Tracker {
    /// The tracker before any selection: idle.
    pub open spec fn spec_new() -> Tracker {
        Tracker {
            mode: TrackingMode::Idle,
            window: Rect::spec_empty(),
            histogram_region: Rect::spec_empty(),
        }
    }

    /// The tracker as a selection of `region` starts it: tracking, with the
    /// window and the histogram both taken from `region` alone.
    pub open spec fn started(region: Rect) -> Tracker {
        Tracker { mode: TrackingMode::Tracking, window: region, histogram_region: region }
    }

    /// A tracker that tracks has its histogram from a rectangle with positive
    /// extents.
    pub open spec fn wf(self) -> bool {
        self.mode == TrackingMode::Tracking ==> self.histogram_region.is_committable()
    }

    /// The tracker after the start of a frame in which it reads `selection`:
    /// started afresh if the selection is ready, unchanged otherwise.
    pub open spec fn after_begin(self, selection: SelectionStatus) -> Tracker {
        if selection.is_ready() {
            Tracker::started(selection.selection)
        } else {
            self
        }
    }

    /// What the frame has to do, given the tracker as `after_begin` left it.
    pub open spec fn plan(self, selection: SelectionStatus) -> FramePlan {
        FramePlan {
            initialize: if selection.is_ready() {
                Some(selection.selection)
            } else {
                None
            },
            search: if self.after_begin(selection).mode == TrackingMode::Tracking {
                Some(self.after_begin(selection).window)
            } else {
                None
            },
        }
    }

    /// The tracker after a frame whose search reported `bounding`: while
    /// tracking the window becomes `bounding`, as it is; an idle tracker stays
    /// as it was.
    pub open spec fn after_end(self, bounding: Rect) -> Tracker {
        if self.mode == TrackingMode::Tracking {
            Tracker {
                mode: TrackingMode::Tracking,
                window: bounding,
                histogram_region: self.histogram_region,
            }
        } else {
            self
        }
    }

    /// The line that a frame reports whose search found `bounding`: while
    /// tracking, the centre of `bounding`; while idle, none.
    pub open spec fn report(self, bounding: Rect) -> Option<Seq<u8>> {
        if self.mode == TrackingMode::Tracking {
            Some(spec_telemetry_line(bounding.spec_centroid()))
        } else {
            None
        }
    }

    /// The tracker after a whole frame: it reads `selection`, and if it then
    /// tracks, the search reports `bounding`.
    pub open spec fn after_frame(self, selection: SelectionStatus, bounding: Rect) -> Tracker {
        self.after_begin(selection).after_end(bounding)
    }

    /// The tracker after the frames `frames`, in order. A frame is given by
    /// the selection that it reads and the rectangle that its search reports.
    pub open spec fn after_frames(self, frames: Seq<(SelectionStatus, Rect)>) -> Tracker
        decreases frames.len(),
    {
        if frames.len() == 0 {
            self
        } else {
            self.after_frames(frames.drop_last()).after_frame(frames.last().0, frames.last().1)
        }
    }

    /// An idle tracker.
    pub fn new() -> (t: Tracker)
        ensures
            t == Tracker::spec_new(),
            t.mode == TrackingMode::Idle,
            t.wf(),
    {
        Tracker {
            mode: TrackingMode::Idle,
            window: Rect::empty(),
            histogram_region: Rect::empty(),
        }
    }

    /// Whether frames are searched.
    pub fn is_tracking(&self) -> (b: bool)
        ensures
            b == (self.mode == TrackingMode::Tracking),
    {
        match self.mode {
            TrackingMode::Tracking => true,
            TrackingMode::Idle => false,
        }
    }

    /// Begins a frame: reads the selection, clears its ready mark, and says
    /// what the frame has to do.
    ///
    /// A selection that is marked ready and has positive extents starts the
    /// tracker afresh: its rectangle becomes the window and the region of a new
    /// histogram, whatever the tracker held before. Otherwise the tracker is
    /// unchanged. The rectangle of the selection is left as it is.
    pub fn begin_frame(&mut self, selection: &mut SelectionStatus) -> (plan: FramePlan)
        ensures
            *final(self) == old(self).after_begin(*old(selection)),
            plan == old(self).plan(*old(selection)),
            final(selection).selection == old(selection).selection,
            !final(selection).status,
            old(self).wf() ==> final(self).wf(),
    {
        let ready: bool = selection.status && selection.selection.committable();
        selection.status = false;
        let initialize: Option<Rect> = if ready {
            let region: Rect = selection.selection;
            self.mode = TrackingMode::Tracking;
            self.window = region;
            self.histogram_region = region;
            Some(region)
        } else {
            None
        };
        let search: Option<Rect> = if self.is_tracking() {
            Some(self.window)
        } else {
            None
        };
        FramePlan { initialize, search }
    }

    /// Ends a frame whose search reported the bounding rectangle `bounding`.
    ///
    /// While tracking, `bounding` becomes the window of the next frame, as it
    /// is, and the result is the line that reports its centre. An idle tracker
    /// is unchanged and reports nothing.
    pub fn end_frame(&mut self, bounding: Rect) -> (line: Option<Vec<u8>>)
        ensures
            *final(self) == old(self).after_end(bounding),
            line.is_some() == (old(self).mode == TrackingMode::Tracking),
            match line {
                Some(bytes) => old(self).report(bounding) == Some(bytes@),
                None => old(self).report(bounding).is_none(),
            },
            old(self).wf() ==> final(self).wf(),
    {
        if self.is_tracking() {
            self.window = bounding;
            Some(telemetry_line(bounding.centroid()))
        } else {
            None
        }
    }
}

/// Once the tracker tracks it tracks for good: no selection, ready or not, and
/// no result of a search makes it idle. Between selections the histogram
/// stays the one it has, and the window is the last rectangle that a search
/// reported.
pub proof fn lemma_tracking_persists(tracker: Tracker, selection: SelectionStatus, bounding: Rect)
    requires
        tracker.mode == TrackingMode::Tracking,
    ensures
        tracker.after_begin(selection).mode == TrackingMode::Tracking,
        tracker.after_end(bounding).mode == TrackingMode::Tracking,
        tracker.after_frame(selection, bounding).mode == TrackingMode::Tracking,
        !selection.is_ready() ==> tracker.after_begin(selection) == tracker,
        !selection.is_ready() ==> tracker.after_frame(selection, bounding).histogram_region
            == tracker.histogram_region,
        !selection.is_ready() ==> tracker.after_frame(selection, bounding).window == bounding,
        !selection.is_ready() && bounding == tracker.window ==> tracker.after_frame(
            selection,
            bounding,
        ) == tracker,
{
}

/// A tracker that tracks still tracks after any number of frames, whatever
/// they read and find. If none of them reads a ready selection, the histogram
/// is still the one it had.
pub proof fn lemma_tracking_is_permanent(tracker: Tracker, frames: Seq<(SelectionStatus, Rect)>)
    requires
        tracker.mode == TrackingMode::Tracking,
    ensures
        tracker.after_frames(frames).mode == TrackingMode::Tracking,
        (forall|i: int| 0 <= i < frames.len() ==> !(#[trigger] frames[i]).0.is_ready())
            ==> tracker.after_frames(frames).histogram_region == tracker.histogram_region,
    decreases frames.len(),
{
    if frames.len() > 0 {
        let earlier = frames.drop_last();
        lemma_tracking_is_permanent(tracker, earlier);
        if forall|i: int| 0 <= i < frames.len() ==> !(#[trigger] frames[i]).0.is_ready() {
            assert(forall|i: int| 0 <= i < earlier.len() ==> earlier[i] == frames[i]);
            assert(!frames[frames.len() - 1].0.is_ready());
        }
    }
}

/// A ready selection turns any tracker, idle or tracking, into a tracking one.
pub proof fn lemma_selection_starts_tracking(tracker: Tracker, selection: SelectionStatus)
    requires
        selection.is_ready(),
    ensures
        tracker.after_begin(selection).mode == TrackingMode::Tracking,
        tracker.after_begin(selection).window == selection.selection,
        tracker.after_begin(selection).histogram_region == selection.selection,
        tracker.plan(selection).initialize == Some(selection.selection),
        tracker.plan(selection).search == Some(selection.selection),
{
}

/// A ready selection starts the tracker from the new region alone: two
/// trackers with any history are the same after taking it up, so nothing of
/// an earlier histogram or window is kept.
pub proof fn lemma_selection_reseeds(first: Tracker, second: Tracker, selection: SelectionStatus)
    requires
        selection.is_ready(),
    ensures
        first.after_begin(selection) == second.after_begin(selection),
        first.after_begin(selection) == Tracker::started(selection.selection),
        first.plan(selection) == second.plan(selection),
{
}

/// A selection that is not ready changes nothing: the tracker, with its
/// window, is as before, no histogram is computed, and an idle tracker stays
/// idle, asks for no search and reports nothing.
pub proof fn lemma_unready_selection_changes_nothing(
    tracker: Tracker,
    selection: SelectionStatus,
    bounding: Rect,
)
    requires
        !selection.is_ready(),
    ensures
        tracker.after_begin(selection) == tracker,
        tracker.plan(selection).initialize.is_none(),
        tracker.mode == TrackingMode::Idle ==> tracker.plan(selection).search.is_none(),
        tracker.mode == TrackingMode::Idle ==> tracker.after_frame(selection, bounding) == tracker,
        tracker.mode == TrackingMode::Idle ==> tracker.after_begin(selection).report(bounding).is_none(),
{
}

/// A press followed by a release that is not both to the right of and below
/// it never reaches the tracker: whatever the selection was before and
/// whatever the tracker holds, the next frame leaves the tracker, with its
/// window and its histogram, as it was and computes no histogram.
pub proof fn lemma_degenerate_drag_keeps_tracker(
    tracker: Tracker,
    before: SelectionStatus,
    x0: i32,
    y0: i32,
    x1: i32,
    y1: i32,
)
    requires
        x1 <= x0 || y1 <= y0,
    ensures
        tracker.after_begin(
            before.after(MouseEvent::ButtonDown, x0, y0).after(MouseEvent::ButtonUp, x1, y1),
        ) == tracker,
        tracker.plan(
            before.after(MouseEvent::ButtonDown, x0, y0).after(MouseEvent::ButtonUp, x1, y1),
        ).initialize.is_none(),
{
}

/// Every step keeps the tracker well formed: a tracker that tracks always has
/// its histogram from a rectangle with positive extents.
pub proof fn lemma_frames_keep_wf(tracker: Tracker, selection: SelectionStatus, bounding: Rect)
    requires
        tracker.wf(),
    ensures
        Tracker::spec_new().wf(),
        tracker.after_begin(selection).wf(),
        tracker.after_end(bounding).wf(),
        tracker.after_frame(selection, bounding).wf(),
{
}

} // verus!
