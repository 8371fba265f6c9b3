//! The selection that a user drags with the mouse.
//!
//! Pressing the button fixes the origin of the pending rectangle, releasing it
//! fixes the extents. A release to the right of and below the origin makes the
//! selection ready; any other release leaves readiness as it was.

use vstd::prelude::*;
use crate::geometry::Rect;

verus! {

/// What the input surface reports about the mouse.
#[derive(Clone, Copy, Debug, PartialEq, Eq, Structural)]
pub enum MouseEvent {
    /// The selecting button was pressed.
    ButtonDown,
    /// The selecting button was released.
    ButtonUp,
    /// Anything else: movement, other buttons, the wheel.
    Other,
}

/// The pending rectangle and whether it waits to be taken up by the tracker.
#[derive(Clone, Copy, Debug, PartialEq, Eq, Structural)]
pub struct SelectionStatus {
    /// The rectangle as far as the user has drawn it.
    pub selection: Rect,
    /// Set when a release has completed a rectangle with positive extents;
    /// cleared by the tracker when it reads the selection.
    pub status: bool,
}

impl SelectionStatus {
    /// The state before any input: an empty rectangle, not ready.
    pub open spec fn spec_new() -> SelectionStatus {
        SelectionStatus { selection: Rect::spec_empty(), status: false }
    }

    /// The state after the button was pressed at `(x, y)`: the origin moves
    /// there, the extents and the readiness stay.
    pub open spec fn pressed(self, x: i32, y: i32) -> SelectionStatus {
        SelectionStatus {
            selection: Rect {
                x: x,
                y: y,
                width: self.selection.width,
                height: self.selection.height,
            },
            status: self.status,
        }
    }

    /// The state after the button was released at `(x, y)`: the extents reach
    /// from the origin to there, and the selection is ready if both are
    /// positive or if it was ready before.
    pub open spec fn released(self, x: i32, y: i32) -> SelectionStatus {
        SelectionStatus {
            selection: Rect {
                x: self.selection.x,
                y: self.selection.y,
                width: (x - self.selection.x) as i64,
                height: (y - self.selection.y) as i64,
            },
            status: self.status || (x > self.selection.x && y > self.selection.y),
        }
    }

    /// The state after one event at `(x, y)`.
    pub open spec fn after(self, event: MouseEvent, x: i32, y: i32) -> SelectionStatus {
        match event {
            MouseEvent::ButtonDown => self.pressed(x, y),
            MouseEvent::ButtonUp => self.released(x, y),
            MouseEvent::Other => self,
        }
    }

    /// Whether the tracker would take this selection up: it is marked ready
    /// and its rectangle has positive extents.
    pub open spec fn is_ready(self) -> bool {
        self.status && self.selection.is_committable()
    }

    /// The state before any input.
    pub fn new() -> (s: SelectionStatus)
        ensures
            s == SelectionStatus::spec_new(),
            !s.is_ready(),
    {
        SelectionStatus { selection: Rect::empty(), status: false }
    }
}

/// Applies one mouse event, reported at pixel `(x, y)`, to the selection.
///
/// A press stores the origin. A release stores the extents from the origin to
/// `(x, y)` and marks the selection ready when both are strictly positive. Any
/// other event changes nothing.
pub fn on_mouse(event: MouseEvent, x: i32, y: i32, status: &mut SelectionStatus)
    ensures
        *final(status) == old(status).after(event, x, y),
        event == MouseEvent::ButtonUp ==> final(status).selection.width == x - old(status).selection.x,
        event == MouseEvent::ButtonUp ==> final(status).selection.height == y - old(status).selection.y,
{
    match event {
        MouseEvent::ButtonDown => {
            status.selection.x = x;
            status.selection.y = y;
        },
        MouseEvent::ButtonUp => {
            let width: i64 = x as i64 - status.selection.x as i64;
            let height: i64 = y as i64 - status.selection.y as i64;
            status.selection.width = width;
            status.selection.height = height;
            if width > 0 && height > 0 {
                status.status = true;
            }
        },
        MouseEvent::Other => {},
    }
}

/// A press at `(x0, y0)` followed by a release at `(x1, y1)` to the right of
/// and below it yields a ready selection whose rectangle has the origin
/// `(x0, y0)` and the extents `x1 - x0` and `y1 - y0`, whatever the selection
/// was before.
pub proof fn lemma_drag_selects(before: SelectionStatus, x0: i32, y0: i32, x1: i32, y1: i32)
    requires
        x1 > x0,
        y1 > y0,
    ensures
        before.after(MouseEvent::ButtonDown, x0, y0).after(MouseEvent::ButtonUp, x1, y1)
            == (SelectionStatus {
            selection: Rect { x: x0, y: y0, width: (x1 - x0) as i64, height: (y1 - y0) as i64 },
            status: true,
        }),
        before.after(MouseEvent::ButtonDown, x0, y0).after(MouseEvent::ButtonUp, x1, y1).selection.width
            == x1 - x0,
        before.after(MouseEvent::ButtonDown, x0, y0).after(MouseEvent::ButtonUp, x1, y1).selection.height
            == y1 - y0,
        before.after(MouseEvent::ButtonDown, x0, y0).after(MouseEvent::ButtonUp, x1, y1).is_ready(),
{
}

/// A press at `(x0, y0)` followed by a release at `(x1, y1)` that is not both
/// to the right of and below it does not make the selection ready: readiness
/// stays as it was, so a selection that was not ready is still not ready, and
/// the rectangle it leaves can never be taken up.
pub proof fn lemma_degenerate_drag_selects_nothing(
    before: SelectionStatus,
    x0: i32,
    y0: i32,
    x1: i32,
    y1: i32,
)
    requires
        x1 <= x0 || y1 <= y0,
    ensures
        before.after(MouseEvent::ButtonDown, x0, y0).after(MouseEvent::ButtonUp, x1, y1).status
            == before.status,
        !before.after(MouseEvent::ButtonDown, x0, y0).after(
            MouseEvent::ButtonUp,
            x1,
            y1,
        ).selection.is_committable(),
        !before.after(MouseEvent::ButtonDown, x0, y0).after(MouseEvent::ButtonUp, x1, y1).is_ready(),
{
}

} // verus!
