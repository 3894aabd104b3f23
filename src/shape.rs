use vstd::prelude::*;

verus! {

/// One terminal cell, addressed by column (`x`) and row (`y`).
#[derive(Clone, Copy, Debug, PartialEq, Eq, Structural)]
pub struct Position {
    pub x: u16,
    pub y: u16,
}

impl Position {
    pub fn new(x: u16, y: u16) -> (r: Position)
        ensures
            r == (Position { x, y }),
    {
        Position { x, y }
    }
}

/// A shape that can be drawn on the cell grid.
#[derive(Clone, Copy, Debug, PartialEq, Eq, Structural)]
pub enum Shape {
    /// Corners in top-left, top-right, bottom-right, bottom-left order.
    Rectangle { p1: Position, p2: Position, p3: Position, p4: Position },
    /// Declared for later use; it has no rendering rule and paints nothing.
    Line { p1: Position, p2: Position, p3: Position },
}

/// The rectangle spanned by a drag from `start` to `current`: the corners mix
/// the two points' axes, so every drag direction yields an axis-aligned box.
pub open spec fn drag_rectangle(start: Position, current: Position) -> Shape {
    Shape::Rectangle {
        p1: start,
        p2: Position { x: current.x, y: start.y },
        p3: current,
        p4: Position { x: start.x, y: current.y },
    }
}

/// Whether the four corners form an axis-aligned rectangle in order.
pub open spec fn is_axis_aligned(s: Shape) -> bool {
    match s {
        Shape::Rectangle { p1, p2, p3, p4 } => p1.y == p2.y && p2.x == p3.x && p3.y == p4.y
            && p4.x == p1.x,
        Shape::Line { .. } => false,
    }
}

/// The set of corner cells of a rectangle.
pub open spec fn corners(s: Shape) -> Set<Position> {
    match s {
        Shape::Rectangle { p1, p2, p3, p4 } => set![p1, p2, p3, p4],
        Shape::Line { p1, p2, p3 } => set![p1, p2, p3],
    }
}

impl Shape {
    /// Builds the rectangle of a drag from `start` to `current`.
    pub fn from_drag(start: Position, current: Position) -> (r: Shape)
        ensures
            r == drag_rectangle(start, current),
    {
        Shape::Rectangle {
            p1: start,
            p2: Position::new(current.x, start.y),
            p3: Position::new(current.x, current.y),
            p4: Position::new(start.x, current.y),
        }
    }
}

} // verus!
