use vstd::prelude::*;
use crate::geometry::{div_trunc, Bounds, Position, Size};
use crate::layouts::ContainerId;

verus! {

/// Which way a handle runs: a vertical handle separates children laid out
/// side by side and is dragged horizontally.
#[derive(Debug, Clone, Copy, PartialEq, Eq, Structural)]
pub enum HandleOrientation {
    Horizontal,
    Vertical,
}

/// How dragging a handle shares the change of size among the children.
#[derive(Debug, Clone, Copy, PartialEq, Eq, Structural)]
pub enum ResizeMode {
    Evenly,
    Before,
    After,
    BeforeSymmetric,
    AfterSymmetric,
}

/// The data of a handle: its centre, its length along its orientation, the
/// range its coordinate can be dragged in, the container it belongs to and the
/// index of the child that follows it.
#[derive(Debug, Clone, Copy, PartialEq, Eq, Structural)]
pub struct HandleGeometry {
    pub center: Position,
    pub length: u32,
    pub orientation: HandleOrientation,
    pub min: i32,
    pub max: i32,
    pub id: ContainerId,
    pub index: usize,
}

/// The bound on coordinates that handles keep, so that their previews are
/// computed without overflow.
pub open spec fn on_screen(v: int) -> bool {
    -0x4000_0000 < v < 0x4000_0000
}

/// A well-formed handle geometry: coordinates on screen and a non-empty range.
pub open spec fn geometry_ok(g: HandleGeometry) -> bool {
    &&& on_screen(g.center.x as int) && on_screen(g.center.y as int)
    &&& on_screen(g.min as int) && on_screen(g.max as int)
    &&& g.min <= g.max
}

/// A draggable boundary between two neighbouring children of a container.
#[derive(Debug, Clone, Copy)]
pub struct ResizeHandle {
    geometry: HandleGeometry,
}

/// The handles that the layout offers for dragging are the same kind of value.
pub type DragHandle = ResizeHandle;

impl View for ResizeHandle {
    type V = HandleGeometry;

    closed spec fn view(&self) -> HandleGeometry {
        self.geometry
    }
}

/// The thin rectangle of thickness `width` drawn over a handle.
pub open spec fn spec_preview_bounds(g: HandleGeometry, width: u32) -> Bounds {
    let half_w = div_trunc((width as i32) as int, 2);
    let half_l = div_trunc((g.length as i32) as int, 2);
    match g.orientation {
        HandleOrientation::Vertical => Bounds {
            position: Position { x: (g.center.x - half_w) as i32, y: (g.center.y - half_l) as i32 },
            size: Size { width, height: g.length },
        },
        HandleOrientation::Horizontal => Bounds {
            position: Position { x: (g.center.x - half_l) as i32, y: (g.center.y - half_w) as i32 },
            size: Size { width: g.length, height: width },
        },
    }
}

/// `v` held within the handle's range.
pub open spec fn spec_clamp(g: HandleGeometry, v: int) -> int {
    if v < g.min {
        g.min as int
    } else if v > g.max {
        g.max as int
    } else {
        v
    }
}

impl ResizeHandle {
    #[verifier::type_invariant]
    spec fn well_formed(self) -> bool {
        geometry_ok(self.geometry)
    }

    pub fn new(
        center: Position,
        length: u32,
        orientation: HandleOrientation,
        min: i32,
        max: i32,
        id: ContainerId,
        index: usize,
    ) -> (h: ResizeHandle)
        requires
            geometry_ok(HandleGeometry { center, length, orientation, min, max, id, index }),
        ensures
            h@ == (HandleGeometry { center, length, orientation, min, max, id, index }),
    {
        ResizeHandle { geometry: HandleGeometry { center, length, orientation, min, max, id, index } }
    }

    /// The handle's data, with the bounds it keeps.
    pub fn geometry(&self) -> (g: HandleGeometry)
        ensures
            g == self@,
            geometry_ok(g),
    {
        proof {
            use_type_invariant(self);
        }
        self.geometry
    }

    pub fn orientation(&self) -> (o: HandleOrientation)
        ensures
            o == self@.orientation,
    {
        self.geometry.orientation
    }

    /// The rectangle of thickness `width` centred on the handle.
    pub fn preview_bounds(&self, width: u32) -> (b: Bounds)
        ensures
            b == spec_preview_bounds(self@, width),
    {
        proof {
            use_type_invariant(self);
        }
        let g = self.geometry;
        let half_w: i32 = (width as i32) / 2;
        let half_l: i32 = (g.length as i32) / 2;
        match g.orientation {
            HandleOrientation::Vertical => Bounds {
                position: Position { x: g.center.x - half_w, y: g.center.y - half_l },
                size: Size { width, height: g.length },
            },
            HandleOrientation::Horizontal => Bounds {
                position: Position { x: g.center.x - half_l, y: g.center.y - half_w },
                size: Size { width: g.length, height: width },
            },
        }
    }

    /// `v` held within the range the handle can be dragged in.
    pub fn clamp_coordinate(&self, v: i32) -> (r: i32)
        ensures
            r == spec_clamp(self@, v as int),
            self@.min <= r <= self@.max,
    {
        proof {
            use_type_invariant(self);
        }
        if v < self.geometry.min {
            self.geometry.min
        } else if v > self.geometry.max {
            self.geometry.max
        } else {
            v
        }
    }
}

} // verus!
