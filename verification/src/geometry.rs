use vstd::prelude::*;

verus! {

/// Identifier of a managed window.
pub type WindowId = u64;

/// A point on the desktop, in screen pixels.
#[derive(Debug, Clone, Copy, PartialEq, Eq, Structural)]
pub struct Position {
    pub x: i32,
    pub y: i32,
}

/// A width and height in pixels.
#[derive(Debug, Clone, Copy, PartialEq, Eq, Structural)]
pub struct Size {
    pub width: u32,
    pub height: u32,
}

/// An axis-aligned rectangle: its top-left corner and its size.
#[derive(Debug, Clone, Copy, PartialEq, Eq, Structural)]
pub struct Bounds {
    pub position: Position,
    pub size: Size,
}

/// The x coordinate of the right edge, computed in `i32` arithmetic
/// (the width is reinterpreted as an `i32`).
pub open spec fn right_edge(b: Bounds) -> int {
    b.position.x + (b.size.width as i32)
}

/// The y coordinate of the bottom edge, computed like `right_edge`.
pub open spec fn bottom_edge(b: Bounds) -> int {
    b.position.y + (b.size.height as i32)
}

/// Integer division rounding towards zero, as Rust's `/` on signed integers.
pub open spec fn div_trunc(v: int, d: int) -> int {
    if v >= 0 {
        v / d
    } else {
        -((-v) / d)
    }
}

/// `v` lies in the `i32` range.
pub open spec fn in_i32(v: int) -> bool {
    i32::MIN <= v <= i32::MAX
}

/// The edges of `b` can be computed without leaving the `i32` range.
pub open spec fn edges_fit(b: Bounds) -> bool {
    i32::MIN <= right_edge(b) <= i32::MAX && i32::MIN <= bottom_edge(b) <= i32::MAX
}

impl Position {
    pub fn new(x: i32, y: i32) -> (p: Position)
        ensures
            p.x == x,
            p.y == y,
    {
        Position { x, y }
    }
}

impl Size {
    pub fn new(width: u32, height: u32) -> (s: Size)
        ensures
            s.width == width,
            s.height == height,
    {
        Size { width, height }
    }
}

impl Bounds {
    pub fn new(x: i32, y: i32, width: u32, height: u32) -> (b: Bounds)
        ensures
            b.position.x == x,
            b.position.y == y,
            b.size.width == width,
            b.size.height == height,
    {
        Bounds { position: Position { x, y }, size: Size { width, height } }
    }

    pub fn from_position(position: Position, size: Size) -> (b: Bounds)
        ensures
            b.position == position,
            b.size == size,
    {
        Bounds { position, size }
    }

    /// The right edge `x + width`.
    pub fn right(&self) -> (r: i32)
        requires
            i32::MIN <= right_edge(*self) <= i32::MAX,
        ensures
            r == right_edge(*self),
    {
        self.position.x + self.size.width as i32
    }

    /// The bottom edge `y + height`.
    pub fn bottom(&self) -> (r: i32)
        requires
            i32::MIN <= bottom_edge(*self) <= i32::MAX,
        ensures
            r == bottom_edge(*self),
    {
        self.position.y + self.size.height as i32
    }
}

} // verus!
