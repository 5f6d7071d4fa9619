use vstd::prelude::*;
pub mod balance;
pub mod container_tree;
pub mod serialization;

use crate::geometry::{Position, WindowId};

verus! {

/// Identifier of a container in a container tree.
pub type ContainerId = u64;

/// Why a layout refused an operation.
#[derive(Debug)]
pub enum LayoutError {
    Error(String),
    WindowNotFound(WindowId),
    InvalidInsertPosition(Position),
}

/// What a placement in a container tree is relative to.
#[derive(Debug, Clone, Copy, PartialEq, Eq, Structural)]
pub enum ContainerTreePlacementTargetType {
    Window { id: WindowId },
    Container { id: ContainerId },
}

/// Where to put a window in a container tree: next to a window or a
/// container, on a side, with a share of the space given as the bit pattern
/// of an `f32` ratio.
#[derive(Debug, Clone, Copy, PartialEq, Eq, Structural)]
pub struct ContainerTreePlacementTarget {
    pub target: ContainerTreePlacementTargetType,
    pub side: Option<Side>,
    pub ratio_bits: Option<u32>,
}

/// The axis along which a container lays out its children.
#[derive(Debug, Clone, Copy, PartialEq, Eq, Structural)]
pub enum Direction {
    Horizontal,
    Vertical,
}

impl Direction {
    pub open spec fn spec_opposite(self) -> Direction {
        match self {
            Direction::Horizontal => Direction::Vertical,
            Direction::Vertical => Direction::Horizontal,
        }
    }

    /// The other axis.
    pub fn opposite(&self) -> (d: Direction)
        ensures
            d == self.spec_opposite(),
            d != *self,
    {
        match self {
            Direction::Horizontal => Direction::Vertical,
            Direction::Vertical => Direction::Horizontal,
        }
    }
}

/// A side of a rectangle.
#[derive(Debug, Clone, Copy, PartialEq, Eq, Structural)]
pub enum Side {
    Left,
    Right,
    Top,
    Bottom,
}

impl Side {
    pub open spec fn spec_direction(self) -> Direction {
        match self {
            Side::Left | Side::Right => Direction::Horizontal,
            Side::Top | Side::Bottom => Direction::Vertical,
        }
    }

    /// The axis that is crossed when moving towards this side.
    pub fn direction(&self) -> (d: Direction)
        ensures
            d == self.spec_direction(),
    {
        match self {
            Side::Left | Side::Right => Direction::Horizontal,
            Side::Top | Side::Bottom => Direction::Vertical,
        }
    }
}

/// The edge or corner of a window that is being dragged while resizing.
#[derive(Debug, Clone, Copy, PartialEq, Eq, Structural)]
pub enum ResizeDirection {
    Left,
    TopLeft,
    Top,
    TopRight,
    Right,
    BottomRight,
    Bottom,
    BottomLeft,
}

impl ResizeDirection {
    pub open spec fn spec_has_left(self) -> bool {
        self == ResizeDirection::Left || self == ResizeDirection::TopLeft || self
            == ResizeDirection::BottomLeft
    }

    pub open spec fn spec_has_right(self) -> bool {
        self == ResizeDirection::Right || self == ResizeDirection::TopRight || self
            == ResizeDirection::BottomRight
    }

    pub open spec fn spec_has_top(self) -> bool {
        self == ResizeDirection::Top || self == ResizeDirection::TopLeft || self
            == ResizeDirection::TopRight
    }

    pub open spec fn spec_has_bottom(self) -> bool {
        self == ResizeDirection::Bottom || self == ResizeDirection::BottomLeft || self
            == ResizeDirection::BottomRight
    }

    pub fn has_left(&self) -> (b: bool)
        ensures
            b == self.spec_has_left(),
    {
        match self {
            ResizeDirection::Left | ResizeDirection::TopLeft | ResizeDirection::BottomLeft => true,
            _ => false,
        }
    }

    pub fn has_right(&self) -> (b: bool)
        ensures
            b == self.spec_has_right(),
    {
        match self {
            ResizeDirection::Right
            | ResizeDirection::TopRight
            | ResizeDirection::BottomRight => true,
            _ => false,
        }
    }

    pub fn has_top(&self) -> (b: bool)
        ensures
            b == self.spec_has_top(),
    {
        match self {
            ResizeDirection::Top | ResizeDirection::TopLeft | ResizeDirection::TopRight => true,
            _ => false,
        }
    }

    pub fn has_bottom(&self) -> (b: bool)
        ensures
            b == self.spec_has_bottom(),
    {
        match self {
            ResizeDirection::Bottom
            | ResizeDirection::BottomLeft
            | ResizeDirection::BottomRight => true,
            _ => false,
        }
    }
}

/// Every resize direction names at least one edge, and never two opposite edges.
pub proof fn lemma_resize_direction_flags(d: ResizeDirection)
    ensures
        d.spec_has_left() || d.spec_has_right() || d.spec_has_top() || d.spec_has_bottom(),
        !(d.spec_has_left() && d.spec_has_right()),
        !(d.spec_has_top() && d.spec_has_bottom()),
{
}

/// Taking the opposite axis twice gives back the axis.
pub proof fn lemma_opposite_involutive(d: Direction)
    ensures
        d.spec_opposite().spec_opposite() == d,
        d.spec_opposite() != d,
{
}

/// Where a new child goes relative to an existing one.
#[derive(Debug, Clone, Copy, PartialEq, Eq, Structural)]
pub enum InsertOrder {
    Before,
    After,
}

pub open spec fn insert_order_of_side(side: Side) -> InsertOrder {
    match side {
        Side::Left | Side::Top => InsertOrder::Before,
        Side::Right | Side::Bottom => InsertOrder::After,
    }
}

impl From<Side> for InsertOrder {
    fn from(side: Side) -> (o: InsertOrder) {
        match side {
            Side::Left | Side::Top => InsertOrder::Before,
            Side::Right | Side::Bottom => InsertOrder::After,
        }
    }
}

impl vstd::std_specs::convert::FromSpecImpl<Side> for InsertOrder {
    open spec fn obeys_from_spec() -> bool {
        true
    }

    open spec fn from_spec(side: Side) -> InsertOrder {
        insert_order_of_side(side)
    }
}

impl Default for InsertOrder {
    fn default() -> (o: InsertOrder)
        ensures
            o == InsertOrder::After,
    {
        InsertOrder::After
    }
}

/// How a size change of one child is distributed over its siblings.
///
/// * `Spread`: the delta is spread equally across the other siblings.
/// * `Symmetric`: the delta is split between the two groups on either side of the child.
#[derive(Debug, Clone, Copy, PartialEq, Eq, Structural)]
pub enum ResizeDistribution {
    Spread,
    Symmetric,
}

} // verus!
