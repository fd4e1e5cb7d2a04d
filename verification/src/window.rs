//! Screen geometry: points and the rectangles that panels occupy.

use vstd::prelude::*;

verus! {

/// A cell of the screen or of a panel, by column and row.
#[derive(Clone, Copy, Debug, PartialEq, Eq, Structural)]
pub struct Point {
    pub x: u16,
    pub y: u16,
}

impl Point {
    pub fn new(x: u16, y: u16) -> (p: Point)
        ensures
            p == (Point { x, y }),
    {
        Point { x, y }
    }
}

/// The rectangle of the screen that a panel occupies.
#[derive(Clone, Copy, Debug, PartialEq, Eq, Structural)]
pub struct Window {
    pub position: Point,
    pub width: u16,
    pub height: u16,
}

impl Window {
    pub fn new(position: Point, width: u16, height: u16) -> (w: Window)
        ensures
            w == (Window { position, width, height }),
    {
        Window { position, width, height }
    }

    /// Whether the screen point `p` lies inside the rectangle.
    pub open spec fn contains(self, p: Point) -> bool {
        &&& self.position.x <= p.x < self.position.x + self.width
        &&& self.position.y <= p.y < self.position.y + self.height
    }

    /// The screen point `p` in the rectangle's own coordinates, where it lies inside.
    pub open spec fn to_local(self, p: Point) -> Option<Point> {
        if self.contains(p) {
            Some(
                Point {
                    x: (p.x - self.position.x) as u16,
                    y: (p.y - self.position.y) as u16,
                },
            )
        } else {
            None
        }
    }

    /// Resolves a point of the screen to a point of this rectangle, `None` when it lies outside.
    pub fn from_global_frame(&self, p: Point) -> (local: Option<Point>)
        ensures
            local == self.to_local(p),
    {
        if p.x >= self.position.x && p.y >= self.position.y {
            let x: u16 = p.x - self.position.x;
            let y: u16 = p.y - self.position.y;
            if x < self.width && y < self.height {
                return Some(Point { x, y });
            }
        }
        None
    }
}

} // verus!
