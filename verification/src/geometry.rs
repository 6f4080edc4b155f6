//! Rectangles in screen coordinates and the placement of the main window.

use vstd::prelude::*;

verus! {

/// Width of the main window when it is first shown.
pub const WINDOW_WIDTH: i32 = 800;

/// Height of the main window when it is first shown.
pub const WINDOW_HEIGHT: i32 = 600;

/// A rectangle by its edges, as the window system reports it.
#[derive(Clone, Copy, Debug, PartialEq, Eq, Structural)]
pub struct Rect {
    pub left: i32,
    pub top: i32,
    pub right: i32,
    pub bottom: i32,
}

/// A position with a size: the form in which a window is moved.
#[derive(Clone, Copy, Debug, PartialEq, Eq, Structural)]
pub struct Placement {
    pub x: i32,
    pub y: i32,
    pub width: i32,
    pub height: i32,
}

impl Rect {
    /// Distance from the left edge to the right edge.
    pub open spec fn width(self) -> int {
        self.right - self.left
    }

    /// Distance from the top edge to the bottom edge.
    pub open spec fn height(self) -> int {
        self.bottom - self.top
    }

    /// Whether both extents fit in an `i32`, so that the rectangle can be
    /// written as a position with a size.
    pub open spec fn has_placement(self) -> bool {
        &&& i32::MIN <= self.width() <= i32::MAX
        &&& i32::MIN <= self.height() <= i32::MAX
    }

    /// The rectangle written as a position with a size.
    pub open spec fn to_placement(self) -> Placement {
        Placement {
            x: self.left,
            y: self.top,
            width: self.width() as i32,
            height: self.height() as i32,
        }
    }

    /// The rectangle that covers a screen of the given size.
    pub open spec fn covering(screen_width: i32, screen_height: i32) -> Rect {
        Rect { left: 0, top: 0, right: screen_width, bottom: screen_height }
    }

    /// The rectangle written as a position with a size, or `None` when an
    /// extent does not fit in an `i32`.
    pub fn placement(&self) -> (p: Option<Placement>)
        ensures
            self.has_placement() ==> p == Some(self.to_placement()),
            !self.has_placement() ==> p is None,
    {
        match (self.right.checked_sub(self.left), self.bottom.checked_sub(self.top)) {
            (Some(width), Some(height)) => Some(
                Placement { x: self.left, y: self.top, width, height },
            ),
            _ => None,
        }
    }
}

/// Half of `d`, rounded toward zero.
pub open spec fn half_toward_zero(d: int) -> int {
    if d >= 0 {
        d / 2
    } else {
        -((-d) / 2)
    }
}

/// The origin at which a span of length `extent` sits centred in a span of
/// length `screen` that starts at zero.
pub open spec fn centered_origin(screen: int, extent: int) -> int {
    half_toward_zero(screen - extent)
}

/// Computes the origin that centres `extent` within `screen`. A span longer
/// than the screen gets a negative origin. The space left on the two sides
/// differs by one at most.
pub fn centered(screen: i32, extent: i32) -> (origin: i32)
    ensures
        origin == centered_origin(screen as int, extent as int),
        -1 <= (screen - extent - origin) - origin <= 1,
{
    let d: i64 = screen as i64 - extent as i64;
    if d >= 0 {
        (d / 2) as i32
    } else {
        let h: i64 = (0 - d) / 2;
        (0 - h) as i32
    }
}

/// Where the main window is first shown: at its fixed size, centred on a
/// screen of the given size.
pub fn initial_placement(screen_width: i32, screen_height: i32) -> (p: Placement)
    ensures
        p.width == WINDOW_WIDTH,
        p.height == WINDOW_HEIGHT,
        p.x == centered_origin(screen_width as int, WINDOW_WIDTH as int),
        p.y == centered_origin(screen_height as int, WINDOW_HEIGHT as int),
{
    Placement {
        x: centered(screen_width, WINDOW_WIDTH),
        y: centered(screen_height, WINDOW_HEIGHT),
        width: WINDOW_WIDTH,
        height: WINDOW_HEIGHT,
    }
}

} // verus!
