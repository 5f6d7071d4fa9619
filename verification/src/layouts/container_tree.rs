use vstd::prelude::*;
use crate::drag_tracker::abs_i32;
use crate::text::{append_decimal, append_signed_decimal, decimal, signed_decimal};
use crate::geometry::{Bounds, Position, Size, WindowId};
use crate::layouts::{ContainerId, Direction, ResizeDirection, Side};
use crate::resize_handle::{geometry_ok, HandleGeometry, HandleOrientation, ResizeHandle};

verus! {

/// A child of a container: a window with its bounds, or the container at a
/// position of the tree's node list.
#[derive(Debug, Clone, Copy, PartialEq, Eq, Structural)]
pub enum TreeChild {
    Window(WindowId, Bounds),
    Container(usize),
}

/// A container of the layout: its id, the position of its parent in the node
/// list, the axis it lays its children out on, its bounds and its children.
#[derive(Debug, Clone)]
pub struct TreeNode {
    pub id: ContainerId,
    pub parent: Option<usize>,
    pub direction: Direction,
    pub bounds: Bounds,
    pub children: Vec<TreeChild>,
}

/// A snapshot of a container tree with the bounds its layout computed: the
/// partition's bounds and the containers, the root first, each container
/// listed before the containers inside it.
#[derive(Debug, Clone)]
pub struct ContainerTreeView {
    pub bounds: Bounds,
    pub nodes: Vec<TreeNode>,
}

/// A child of node `i` is well placed as far as the tree's shape goes: a
/// window, or a container later in the list whose parent is `i`.
pub open spec fn child_shape_ok(nodes: Seq<TreeNode>, i: int, c: TreeChild) -> bool {
    match c {
        TreeChild::Window(..) => true,
        TreeChild::Container(k) => i < k < nodes.len() && nodes[k as int].parent == Some(i as usize),
    }
}

/// The snapshot is a tree rooted at the first node, each container listed
/// before the containers inside it (coordinates are not bounded).
pub open spec fn tree_shape_ok(t: ContainerTreeView) -> bool {
    &&& t.nodes@.len() > 0
    &&& t.nodes@[0].parent is None
    &&& forall|i: int|
        0 <= i < t.nodes@.len() ==> {
            &&& ((#[trigger] t.nodes@[i]).parent matches Some(p) ==> p < i)
            &&& forall|k: int| 0 <= k < t.nodes@[i].children@.len() ==> child_shape_ok(t.nodes@, i, #[trigger] t.nodes@[i].children@[k])
        }
}

/// The bounds of a child.
pub open spec fn child_bounds(nodes: Seq<TreeNode>, c: TreeChild) -> Bounds {
    match c {
        TreeChild::Window(_, b) => b,
        TreeChild::Container(k) => nodes[k as int].bounds,
    }
}

/// `pos` lies in `b`: at or right of its left edge and left of its right edge,
/// and likewise vertically.
pub open spec fn spec_contains(b: Bounds, pos: Position) -> bool {
    b.position.x <= pos.x < b.position.x + b.size.width && b.position.y <= pos.y < b.position.y + b.size.height
}

/// Whether `b` contains `pos`.
pub fn contains(b: &Bounds, pos: &Position) -> (r: bool)
    ensures
        r == spec_contains(*b, *pos),
{
    let x = pos.x as i64;
    let y = pos.y as i64;
    let left = b.position.x as i64;
    let top = b.position.y as i64;
    left <= x && x < left + b.size.width as i64 && top <= y && y < top + b.size.height as i64
}

/// The position of the first child, from `k` on, that contains `pos`.
pub open spec fn first_containing(nodes: Seq<TreeNode>, children: Seq<TreeChild>, pos: Position, k: int) -> Option<int>
    decreases children.len() - k,
{
    if k < 0 || k >= children.len() {
        None
    } else if spec_contains(child_bounds(nodes, children[k]), pos) {
        Some(k)
    } else {
        first_containing(nodes, children, pos, k + 1)
    }
}

/// The window at `pos`, found from node `i` down by always entering the first
/// child that contains `pos`: the position of its container and its index there.
pub open spec fn spec_window_at(nodes: Seq<TreeNode>, i: int, pos: Position) -> Option<(int, int)>
    decreases nodes.len() - i,
{
    if i < 0 || i >= nodes.len() {
        None
    } else {
        match first_containing(nodes, nodes[i].children@, pos, 0) {
            None => None,
            Some(k) => match nodes[i].children@[k] {
                TreeChild::Window(..) => Some((i, k)),
                TreeChild::Container(c) => if i < c < nodes.len() {
                    spec_window_at(nodes, c as int, pos)
                } else {
                    None
                },
            },
        }
    }
}

proof fn lemma_first_containing_range(nodes: Seq<TreeNode>, children: Seq<TreeChild>, pos: Position, k: int)
    ensures
        first_containing(nodes, children, pos, k) matches Some(f) ==> 0 <= k <= f < children.len()
            && spec_contains(child_bounds(nodes, children[f]), pos),
    decreases children.len() - k,
{
    if 0 <= k < children.len() && !spec_contains(child_bounds(nodes, children[k]), pos) {
        lemma_first_containing_range(nodes, children, pos, k + 1);
    }
}

fn find_containing(t: &ContainerTreeView, i: usize, pos: &Position) -> (r: Option<usize>)
    requires
        tree_shape_ok(*t),
        i < t.nodes@.len(),
    ensures
        match r {
            Some(k) => first_containing(t.nodes@, t.nodes@[i as int].children@, *pos, 0) == Some(k as int),
            None => first_containing(t.nodes@, t.nodes@[i as int].children@, *pos, 0) is None,
        },
{
    let children = &t.nodes[i].children;
    let ghost cs = children@;
    let mut k: usize = 0;
    while k < children.len()
        invariant
            tree_shape_ok(*t),
            i < t.nodes@.len(),
            cs == t.nodes@[i as int].children@,
            children@ == cs,
            k <= cs.len(),
            first_containing(t.nodes@, cs, *pos, 0) == first_containing(t.nodes@, cs, *pos, k as int),
        decreases cs.len() - k,
    {
        let b = match children[k] {
            TreeChild::Window(_, b) => b,
            TreeChild::Container(c) => {
                assert(child_shape_ok(t.nodes@, i as int, cs[k as int]));
                t.nodes[c].bounds
            },
        };
        if contains(&b, pos) {
            assert(first_containing(t.nodes@, cs, *pos, k as int) == Some(k as int));
            return Some(k);
        }
        k = k + 1;
    }
    None
}

impl ContainerTreeView {
    /// The window at `pos`: the position of its container in the node list and
    /// its index among the container's children.
    pub fn find_window_at_position(&self, pos: &Position) -> (r: Option<(usize, usize)>)
        requires
            tree_shape_ok(*self),
        ensures
            match r {
                Some((i, k)) => spec_window_at(self.nodes@, 0, *pos) == Some((i as int, k as int)),
                None => spec_window_at(self.nodes@, 0, *pos) is None,
            },
            r matches Some((i, k)) ==> i < self.nodes@.len() && k < self.nodes@[i as int].children@.len()
                && self.nodes@[i as int].children@[k as int] is Window,
    {
        let mut current: usize = 0;
        loop
            invariant
                tree_shape_ok(*self),
                current < self.nodes@.len(),
                spec_window_at(self.nodes@, 0, *pos) == spec_window_at(self.nodes@, current as int, *pos),
            decreases self.nodes@.len() - current,
        {
            let found = find_containing(self, current, pos);
            proof {
                lemma_first_containing_range(self.nodes@, self.nodes@[current as int].children@, *pos, 0);
            }
            match found {
                None => return None,
                Some(k) => {
                    let ghost cs = self.nodes@[current as int].children@;
                    assert(first_containing(self.nodes@, cs, *pos, 0) == Some(k as int));
                    assert(child_shape_ok(self.nodes@, current as int, cs[k as int]));
                    match self.nodes[current].children[k] {
                        TreeChild::Window(..) => return Some((current, k)),
                        TreeChild::Container(c) => {
                            current = c;
                        },
                    }
                },
            }
        }
    }
}


/// The distances from `pos` to the left, right, top and bottom edges of `b`.
pub open spec fn side_distances(b: Bounds, pos: Position) -> (int, int, int, int) {
    (
        crate::drag_tracker::abs_int(pos.x - b.position.x),
        crate::drag_tracker::abs_int(pos.x - (b.position.x + (b.size.width as i32))),
        crate::drag_tracker::abs_int(pos.y - b.position.y),
        crate::drag_tracker::abs_int(pos.y - (b.position.y + (b.size.height as i32))),
    )
}

/// The side of `b` nearest to `pos` and its distance; on a tie the earlier of
/// left, right, top, bottom wins.
pub open spec fn spec_closest_side(b: Bounds, pos: Position) -> (int, Side) {
    let (l, r, t, bo) = side_distances(b, pos);
    let (d1, s1) = if r < l { (r, Side::Right) } else { (l, Side::Left) };
    let (d2, s2) = if t < d1 { (t, Side::Top) } else { (d1, s1) };
    if bo < d2 { (bo, Side::Bottom) } else { (d2, s2) }
}

/// The edges of `b`, the differences between `pos` and them, and their
/// absolute values are all within the `i32` range.
pub open spec fn distances_fit(b: Bounds, pos: Position) -> bool {
    let right = b.position.x + (b.size.width as i32);
    let bottom = b.position.y + (b.size.height as i32);
    &&& i32::MIN <= right <= i32::MAX
    &&& i32::MIN <= bottom <= i32::MAX
    &&& i32::MIN < pos.x - b.position.x <= i32::MAX
    &&& i32::MIN < pos.x - right <= i32::MAX
    &&& i32::MIN < pos.y - b.position.y <= i32::MAX
    &&& i32::MIN < pos.y - bottom <= i32::MAX
}

/// The side of `bounds` nearest to `position`, with its distance.
pub fn get_closest_distance_from_side(bounds: &Bounds, position: &Position) -> (r: (i32, Side))
    requires
        distances_fit(*bounds, *position),
    ensures
        (r.0 as int, r.1) == spec_closest_side(*bounds, *position),
{
    let distance_l = abs_i32(position.x - bounds.position.x);
    let distance_r = abs_i32(position.x - (bounds.position.x + bounds.size.width as i32));
    let distance_t = abs_i32(position.y - bounds.position.y);
    let distance_b = abs_i32(position.y - (bounds.position.y + bounds.size.height as i32));
    let mut closest = distance_l;
    let mut side = Side::Left;
    if distance_r < closest {
        closest = distance_r;
        side = Side::Right;
    }
    if distance_t < closest {
        closest = distance_t;
        side = Side::Top;
    }
    if distance_b < closest {
        closest = distance_b;
        side = Side::Bottom;
    }
    (closest, side)
}

/// The window under the mouse when a window is dropped on the layout: where it
/// sits, its bounds, the nearest side and its distance, and half the smaller
/// of its width and height.
#[derive(Debug, Clone, Copy, PartialEq, Eq, Structural)]
pub struct TileTarget {
    pub node: usize,
    pub index: usize,
    pub window: WindowId,
    pub bounds: Bounds,
    pub distance: i32,
    pub side: Side,
    pub half_size: u32,
}

/// What lies under the mouse.
#[derive(Debug, Clone, Copy, PartialEq, Eq, Structural)]
pub enum TileProbe {
    /// No window, and the layout is empty.
    EmptyRoot,
    /// No window, but the layout is not empty.
    Nothing,
    Target(TileTarget),
}

/// How close to the nearest side of the target the mouse is; the caller
/// classifies the distance against the fractions of `half_size` that the
/// layout uses.
#[derive(Debug, Clone, Copy, PartialEq, Eq, Structural)]
pub enum MouseAction {
    Swap,
    Split,
    SplitParent,
}

/// A child named in a tile action: a window, or a container by its id.
#[derive(Debug, Clone, Copy, PartialEq, Eq, Structural)]
pub enum ChildRef {
    Window(WindowId),
    Container(ContainerId),
}

/// What dropping a window at a position does to the layout.
#[derive(Debug, Clone, Copy, PartialEq, Eq, Structural)]
pub enum TileAction {
    /// The layout is empty: the window fills it.
    FillRoot,
    /// Exchange places with the window.
    Swap(WindowId),
    /// Insert next to the child, on the side, in the child's container.
    AddToParent(ChildRef, Side),
    /// Split the window into a new container, the dropped window on the side.
    Split(WindowId, Side),
}

/// What lies under `pos` in the layout.
pub open spec fn spec_probe(t: ContainerTreeView, pos: Position) -> TileProbe {
    match spec_window_at(t.nodes@, 0, pos) {
        None => if t.nodes@[0].children@.len() == 0 {
            TileProbe::EmptyRoot
        } else {
            TileProbe::Nothing
        },
        Some((i, k)) => {
            let c = t.nodes@[i].children@[k];
            let b = c->Window_1;
            let (d, side) = spec_closest_side(b, pos);
            let size = if b.size.width < b.size.height { b.size.width } else { b.size.height };
            TileProbe::Target(
                TileTarget {
                    node: i as usize,
                    index: k as usize,
                    window: c->Window_0,
                    bounds: b,
                    distance: d as i32,
                    side,
                    half_size: (size / 2) as u32,
                },
            )
        },
    }
}

/// The first index of `c` among `children`.
pub open spec fn index_of_child(children: Seq<TreeChild>, c: TreeChild, k: int) -> Option<int>
    decreases children.len() - k,
{
    if k < 0 || k >= children.len() {
        None
    } else if children[k] == c {
        Some(k)
    } else {
        index_of_child(children, c, k + 1)
    }
}

/// The action for dropping window `w` on `target` with the mouse in zone `action`.
pub open spec fn spec_tile_action(t: ContainerTreeView, w: WindowId, target: TileTarget, action: MouseAction) -> Option<
    TileAction,
> {
    let same = target.window == w;
    let node = t.nodes@[target.node as int];
    let split_direction = target.side.spec_direction();
    let parent_direction = node.direction;
    match action {
        MouseAction::Swap => if same {
            None
        } else {
            Some(TileAction::Swap(target.window))
        },
        MouseAction::Split => if same {
            None
        } else if split_direction == parent_direction {
            Some(TileAction::AddToParent(ChildRef::Window(target.window), target.side))
        } else {
            Some(TileAction::Split(target.window, target.side))
        },
        MouseAction::SplitParent => if split_direction == parent_direction {
            if same {
                None
            } else {
                match index_of_child(node.children@, TreeChild::Window(target.window, target.bounds), 0) {
                    None => None,
                    Some(index) => {
                        let first = index == 0;
                        let last = index == node.children@.len() - 1;
                        if (first && (target.side == Side::Left || target.side == Side::Top)) || (last && (
                        target.side == Side::Right || target.side == Side::Bottom)) {
                            match node.parent {
                                Some(p) => Some(
                                    TileAction::AddToParent(ChildRef::Container(t.nodes@[p as int].id), target.side),
                                ),
                                None => Some(TileAction::AddToParent(ChildRef::Window(target.window), target.side)),
                            }
                        } else {
                            Some(TileAction::AddToParent(ChildRef::Window(target.window), target.side))
                        }
                    },
                }
            }
        } else {
            Some(TileAction::AddToParent(ChildRef::Container(node.id), target.side))
        },
    }
}

/// The distances from `pos` to the sides of the window under it, if any,
/// are computed without leaving the `i32` range.
pub open spec fn probe_fits(t: ContainerTreeView, pos: Position) -> bool {
    spec_window_at(t.nodes@, 0, pos) matches Some((i, k)) ==> distances_fit(t.nodes@[i].children@[k]->Window_1, pos)
}

/// Whether the edges of `b` and the distances from `pos` to them fit in `i32`.
pub fn distances_in_range(b: &Bounds, pos: &Position) -> (r: bool)
    ensures
        r == distances_fit(*b, *pos),
{
    let right = b.position.x as i64 + b.size.width as i32 as i64;
    let bottom = b.position.y as i64 + b.size.height as i32 as i64;
    let dl = pos.x as i64 - b.position.x as i64;
    let dr = pos.x as i64 - right;
    let dt = pos.y as i64 - b.position.y as i64;
    let db = pos.y as i64 - bottom;
    let lo: i64 = -2147483648;
    let hi: i64 = 2147483647;
    lo <= right && right <= hi && lo <= bottom && bottom <= hi && lo < dl && dl <= hi && lo < dr && dr <= hi
        && lo < dt && dt <= hi && lo < db && db <= hi
}

impl ContainerTreeView {
    /// Whether `tile_probe` can take `position`: the distances from it to the
    /// sides of the window under it fit in `i32`.
    pub fn probe_in_range(&self, position: &Position) -> (b: bool)
        requires
            tree_shape_ok(*self),
        ensures
            b == probe_fits(*self, *position),
    {
        match self.find_window_at_position(position) {
            None => true,
            Some((i, k)) => match self.nodes[i].children[k] {
                TreeChild::Window(_, bounds) => distances_in_range(&bounds, position),
                TreeChild::Container(_) => true,
            },
        }
    }

    /// Whether the snapshot has the shape of a tree rooted at its first node.
    pub fn is_tree(&self) -> (b: bool)
        ensures
            b == tree_shape_ok(*self),
    {
        let n = self.nodes.len();
        if n == 0 || self.nodes[0].parent.is_some() {
            return false;
        }
        let mut i: usize = 0;
        while i < n
            invariant
                n == self.nodes@.len(),
                n > 0,
                self.nodes@[0].parent is None,
                i <= n,
                forall|j: int|
                    0 <= j < i ==> {
                        &&& ((#[trigger] self.nodes@[j]).parent matches Some(p) ==> p < j)
                        &&& forall|k: int|
                            0 <= k < self.nodes@[j].children@.len() ==> child_shape_ok(
                                self.nodes@,
                                j,
                                #[trigger] self.nodes@[j].children@[k],
                            )
                    },
            decreases n - i,
        {
            let node = &self.nodes[i];
            match node.parent {
                Some(p) => {
                    if p >= i {
                        return false;
                    }
                },
                None => {},
            }
            let m = node.children.len();
            let mut k: usize = 0;
            while k < m
                invariant
                    n == self.nodes@.len(),
                    i < n,
                    node == self.nodes@[i as int],
                    m == node.children@.len(),
                    k <= m,
                    forall|q: int| 0 <= q < k ==> child_shape_ok(self.nodes@, i as int, #[trigger] node.children@[q]),
                decreases m - k,
            {
                let ok = match node.children[k] {
                    TreeChild::Window(..) => true,
                    TreeChild::Container(c) => i < c && c < n && self.nodes[c].parent == Some(i),
                };
                if !ok {
                    return false;
                }
                k = k + 1;
            }
            i = i + 1;
        }
        true
    }
}

impl ContainerTreeView {
    /// What lies under `position` when a window is dropped there.
    pub fn tile_probe(&self, position: &Position) -> (r: TileProbe)
        requires
            tree_shape_ok(*self),
            probe_fits(*self, *position),
        ensures
            r == spec_probe(*self, *position),
            r matches TileProbe::Target(tt) ==> tt.node < self.nodes@.len() && tt.index
                < self.nodes@[tt.node as int].children@.len() && self.nodes@[tt.node as int].children@[tt.index as int]
                == TreeChild::Window(tt.window, tt.bounds),
    {
        match self.find_window_at_position(position) {
            None => {
                if self.nodes[0].children.len() == 0 {
                    TileProbe::EmptyRoot
                } else {
                    TileProbe::Nothing
                }
            },
            Some((i, k)) => {
                let c = self.nodes[i].children[k];
                assert(child_shape_ok(self.nodes@, i as int, self.nodes@[i as int].children@[k as int]));
                match c {
                    TreeChild::Window(window, bounds) => {
                        let (distance, side) = get_closest_distance_from_side(&bounds, position);
                        let size = if bounds.size.width < bounds.size.height {
                            bounds.size.width
                        } else {
                            bounds.size.height
                        };
                        TileProbe::Target(
                            TileTarget { node: i, index: k, window, bounds, distance, side, half_size: size / 2 },
                        )
                    },
                    TreeChild::Container(_) => TileProbe::Nothing,
                }
            },
        }
    }

    fn position_of_child(&self, node: usize, c: &TreeChild) -> (r: Option<usize>)
        requires
            node < self.nodes@.len(),
        ensures
            match r {
                Some(k) => index_of_child(self.nodes@[node as int].children@, *c, 0) == Some(k as int),
                None => index_of_child(self.nodes@[node as int].children@, *c, 0) is None,
            },
    {
        let children = &self.nodes[node].children;
        let ghost cs = children@;
        let mut k: usize = 0;
        while k < children.len()
            invariant
                node < self.nodes@.len(),
                cs == self.nodes@[node as int].children@,
                children@ == cs,
                k <= cs.len(),
                index_of_child(cs, *c, 0) == index_of_child(cs, *c, k as int),
            decreases cs.len() - k,
        {
            if children[k] == *c {
                return Some(k);
            }
            k = k + 1;
        }
        None
    }

    /// The action for dropping window `window` on `target`, the mouse being in
    /// zone `action` of the target's nearest side.
    pub fn tile_action(&self, window: WindowId, target: &TileTarget, action: MouseAction) -> (r: Option<TileAction>)
        requires
            tree_shape_ok(*self),
            target.node < self.nodes@.len(),
        ensures
            r == spec_tile_action(*self, window, *target, action),
    {
        let is_same_window = target.window == window;
        let node = &self.nodes[target.node];
        let split_direction = target.side.direction();
        let parent_direction = node.direction;
        match action {
            MouseAction::Swap => {
                if is_same_window {
                    return None;
                }
                Some(TileAction::Swap(target.window))
            },
            MouseAction::Split => {
                if is_same_window {
                    return None;
                }
                if split_direction == parent_direction {
                    Some(TileAction::AddToParent(ChildRef::Window(target.window), target.side))
                } else {
                    Some(TileAction::Split(target.window, target.side))
                }
            },
            MouseAction::SplitParent => {
                if split_direction == parent_direction {
                    if is_same_window {
                        return None;
                    }
                    let target_child = TreeChild::Window(target.window, target.bounds);
                    let index = match self.position_of_child(target.node, &target_child) {
                        Some(index) => index,
                        None => return None,
                    };
                    let first_child = index == 0;
                    let last_child = index == node.children.len() - 1;
                    if (first_child && (target.side == Side::Left || target.side == Side::Top)) || (last_child && (
                    target.side == Side::Right || target.side == Side::Bottom)) {
                        match node.parent {
                            Some(p) => {
                                assert(self.nodes@[target.node as int].parent matches Some(q) ==> q < target.node);
                                Some(TileAction::AddToParent(ChildRef::Container(self.nodes[p].id), target.side))
                            },
                            None => Some(TileAction::AddToParent(ChildRef::Window(target.window), target.side)),
                        }
                    } else {
                        Some(TileAction::AddToParent(ChildRef::Window(target.window), target.side))
                    }
                } else {
                    Some(TileAction::AddToParent(ChildRef::Container(node.id), target.side))
                }
            },
        }
    }
}


/// The centre of `b`, rounding down.
pub open spec fn spec_center(b: Bounds) -> Position {
    Position { x: (b.position.x + b.size.width / 2) as i32, y: (b.position.y + b.size.height / 2) as i32 }
}

/// The handle on the boundary before child `idx + 1` of `n`: across the
/// container, at the leading edge of that child, draggable over the
/// container's extent.
pub open spec fn handle_between(nodes: Seq<TreeNode>, n: TreeNode, idx: int) -> HandleGeometry {
    let next = child_bounds(nodes, n.children@[idx + 1]);
    let c = spec_center(n.bounds);
    match n.direction {
        Direction::Horizontal => HandleGeometry {
            center: Position { x: next.position.x, y: c.y },
            length: n.bounds.size.height,
            orientation: HandleOrientation::Vertical,
            min: n.bounds.position.x,
            max: (n.bounds.position.x + (n.bounds.size.width as i32)) as i32,
            id: n.id,
            index: (idx + 1) as usize,
        },
        Direction::Vertical => HandleGeometry {
            center: Position { x: c.x, y: next.position.y },
            length: n.bounds.size.width,
            orientation: HandleOrientation::Horizontal,
            min: n.bounds.position.y,
            max: (n.bounds.position.y + (n.bounds.size.height as i32)) as i32,
            id: n.id,
            index: (idx + 1) as usize,
        },
    }
}

/// The handles between the children of node `i`, in order.
pub open spec fn own_handles(nodes: Seq<TreeNode>, i: int) -> Seq<HandleGeometry> {
    let n = nodes[i];
    if n.children@.len() <= 1 {
        Seq::empty()
    } else {
        Seq::new((n.children@.len() - 1) as nat, |idx: int| handle_between(nodes, n, idx))
    }
}

/// The handles of node `i` and, after them, those inside its containers, in order.
pub open spec fn spec_all_handles(nodes: Seq<TreeNode>, i: int) -> Seq<HandleGeometry>
    decreases nodes.len() - i, 1int, 0int,
{
    if i < 0 || i >= nodes.len() {
        Seq::empty()
    } else {
        own_handles(nodes, i) + children_handles(nodes, i, nodes[i].children@.len() as int)
    }
}

/// The handles inside the containers among the first `k` children of node `i`.
pub open spec fn children_handles(nodes: Seq<TreeNode>, i: int, k: int) -> Seq<HandleGeometry>
    decreases nodes.len() - i, 0int, k,
{
    if k <= 0 || i < 0 || i >= nodes.len() || k > nodes[i].children@.len() {
        Seq::empty()
    } else {
        let prev = children_handles(nodes, i, k - 1);
        match nodes[i].children@[k - 1] {
            TreeChild::Container(c) => if i < c < nodes.len() {
                prev + spec_all_handles(nodes, c as int)
            } else {
                prev
            },
            TreeChild::Window(..) => prev,
        }
    }
}

/// The data of the handles.
pub open spec fn handle_views(s: Seq<ResizeHandle>) -> Seq<HandleGeometry> {
    s.map_values(|h: ResizeHandle| h@)
}

/// The centre of `b` and the far edge along `d` stay in the `i32` range.
pub open spec fn node_handles_fit(b: Bounds, d: Direction) -> bool {
    &&& crate::geometry::in_i32(b.position.x + b.size.width / 2)
    &&& crate::geometry::in_i32(b.position.y + b.size.height / 2)
    &&& match d {
        Direction::Horizontal => crate::geometry::in_i32(b.position.x + (b.size.width as i32)),
        Direction::Vertical => crate::geometry::in_i32(b.position.y + (b.size.height as i32)),
    }
}

/// Every container with handles (two children or more) has its centre and
/// far edge in the `i32` range, and each of its handles is a well-formed
/// handle.
pub open spec fn handles_fit(t: ContainerTreeView) -> bool {
    forall|i: int|
        0 <= i < t.nodes@.len() && (#[trigger] t.nodes@[i]).children@.len() > 1 ==> {
            &&& node_handles_fit(t.nodes@[i].bounds, t.nodes@[i].direction)
            &&& forall|idx: int|
                0 <= idx < t.nodes@[i].children@.len() - 1 ==> geometry_ok(
                    #[trigger] handle_between(t.nodes@, t.nodes@[i], idx),
                )
        }
}

fn node_handles_in_range(b: &Bounds, d: Direction) -> (r: bool)
    ensures
        r == node_handles_fit(*b, d),
{
    let cx = b.position.x as i64 + (b.size.width / 2) as i64;
    let cy = b.position.y as i64 + (b.size.height / 2) as i64;
    let far = match d {
        Direction::Horizontal => b.position.x as i64 + b.size.width as i32 as i64,
        Direction::Vertical => b.position.y as i64 + b.size.height as i32 as i64,
    };
    let lo: i64 = -2147483648;
    let hi: i64 = 2147483647;
    lo <= cx && cx <= hi && lo <= cy && cy <= hi && lo <= far && far <= hi
}

fn center(b: &Bounds) -> (c: Position)
    requires
        crate::geometry::in_i32(b.position.x + b.size.width / 2),
        crate::geometry::in_i32(b.position.y + b.size.height / 2),
    ensures
        c == spec_center(*b),
{
    Position { x: b.position.x + (b.size.width / 2) as i32, y: b.position.y + (b.size.height / 2) as i32 }
}

impl ContainerTreeView {
    fn handle_geometry(&self, i: usize, idx: usize) -> (g: HandleGeometry)
        requires
            tree_shape_ok(*self),
            i < self.nodes@.len(),
            idx + 1 < self.nodes@[i as int].children@.len(),
            node_handles_fit(self.nodes@[i as int].bounds, self.nodes@[i as int].direction),
        ensures
            g == handle_between(self.nodes@, self.nodes@[i as int], idx as int),
    {
        let node = &self.nodes[i];
        let m = node.children.len();
        assert(idx + 1 < m);
        assert(child_shape_ok(self.nodes@, i as int, node.children@[idx + 1]));
        let next = match node.children[idx + 1] {
            TreeChild::Window(_, b) => b,
            TreeChild::Container(c) => self.nodes[c].bounds,
        };
        let b = node.bounds;
        let c = center(&b);
        match node.direction {
            Direction::Horizontal => HandleGeometry {
                center: Position { x: next.position.x, y: c.y },
                length: b.size.height,
                orientation: HandleOrientation::Vertical,
                min: b.position.x,
                max: b.position.x + b.size.width as i32,
                id: node.id,
                index: idx + 1,
            },
            Direction::Vertical => HandleGeometry {
                center: Position { x: c.x, y: next.position.y },
                length: b.size.width,
                orientation: HandleOrientation::Horizontal,
                min: b.position.y,
                max: b.position.y + b.size.height as i32,
                id: node.id,
                index: idx + 1,
            },
        }
    }

    /// Whether `resize_handles` can take the snapshot: every container with
    /// handles has its centre and far edge in the `i32` range, and each of its
    /// handles is well formed.
    pub fn handles_in_range(&self) -> (b: bool)
        requires
            tree_shape_ok(*self),
        ensures
            b == handles_fit(*self),
    {
        let n = self.nodes.len();
        let mut i: usize = 0;
        while i < n
            invariant
                tree_shape_ok(*self),
                n == self.nodes@.len(),
                i <= n,
                forall|j: int|
                    0 <= j < i && (#[trigger] self.nodes@[j]).children@.len() > 1 ==> {
                        &&& node_handles_fit(self.nodes@[j].bounds, self.nodes@[j].direction)
                        &&& forall|idx: int|
                            0 <= idx < self.nodes@[j].children@.len() - 1 ==> geometry_ok(
                                #[trigger] handle_between(self.nodes@, self.nodes@[j], idx),
                            )
                    },
            decreases n - i,
        {
            let m = self.nodes[i].children.len();
            if m > 1 {
                if !node_handles_in_range(&self.nodes[i].bounds, self.nodes[i].direction) {
                    return false;
                }
                let mut idx: usize = 0;
                while idx < m - 1
                    invariant
                        tree_shape_ok(*self),
                        n == self.nodes@.len(),
                        i < n,
                        m == self.nodes@[i as int].children@.len(),
                        m > 1,
                        idx <= m - 1,
                        node_handles_fit(self.nodes@[i as int].bounds, self.nodes@[i as int].direction),
                        forall|q: int|
                            0 <= q < idx ==> geometry_ok(#[trigger] handle_between(self.nodes@, self.nodes@[i as int], q)),
                    decreases m - 1 - idx,
                {
                    let g = self.handle_geometry(i, idx);
                    let ok = -0x4000_0000 < g.center.x && g.center.x < 0x4000_0000 && -0x4000_0000 < g.center.y
                        && g.center.y < 0x4000_0000 && -0x4000_0000 < g.min && g.min < 0x4000_0000 && -0x4000_0000
                        < g.max && g.max < 0x4000_0000 && g.min <= g.max;
                    if !ok {
                        return false;
                    }
                    idx = idx + 1;
                }
            }
            i = i + 1;
        }
        true
    }

    fn collect_handles_recursive(&self, i: usize, out: &mut Vec<ResizeHandle>)
        requires
            tree_shape_ok(*self),
            handles_fit(*self),
            i < self.nodes@.len(),
        ensures
            handle_views(final(out)@) == handle_views(old(out)@) + spec_all_handles(self.nodes@, i as int),
        decreases self.nodes@.len() - i,
    {
        let ghost start = handle_views(out@);
        let node = &self.nodes[i];
        let children = &node.children;
        let n = children.len();
        if n > 1 {
            let mut idx: usize = 0;
            while idx < n - 1
                invariant
                    tree_shape_ok(*self),
            handles_fit(*self),
                    i < self.nodes@.len(),
                    node == self.nodes@[i as int],
                    children@ == node.children@,
                    n == children@.len(),
                    n > 1,
                    idx <= n - 1,
                    handle_views(out@) == start + own_handles(self.nodes@, i as int).subrange(0, idx as int),
                decreases n - 1 - idx,
            {
                let g = self.handle_geometry(i, idx);
                let handle = ResizeHandle::new(g.center, g.length, g.orientation, g.min, g.max, g.id, g.index);
                assert(handle@ == handle_between(self.nodes@, *node, idx as int));
                let ghost before = out@;
                out.push(handle);
                assert(handle_views(out@) =~= handle_views(before).push(handle@));
                assert(own_handles(self.nodes@, i as int).subrange(0, idx + 1) =~= own_handles(
                    self.nodes@,
                    i as int,
                ).subrange(0, idx as int).push(handle@));
                idx = idx + 1;
            }
            assert(own_handles(self.nodes@, i as int).subrange(0, n - 1) =~= own_handles(self.nodes@, i as int));
        } else {
            assert(own_handles(self.nodes@, i as int) =~= Seq::<HandleGeometry>::empty());
            assert(handle_views(out@) =~= start + own_handles(self.nodes@, i as int));
        }
        let ghost mid = handle_views(out@);
        let mut k: usize = 0;
        while k < n
            invariant
                tree_shape_ok(*self),
            handles_fit(*self),
                i < self.nodes@.len(),
                node == self.nodes@[i as int],
                children@ == node.children@,
                n == children@.len(),
                k <= n,
                mid == start + own_handles(self.nodes@, i as int),
                handle_views(out@) == mid + children_handles(self.nodes@, i as int, k as int),
            decreases n - k,
        {
            assert(child_shape_ok(self.nodes@, i as int, children@[k as int]));
            match children[k] {
                TreeChild::Container(c) => {
                    self.collect_handles_recursive(c, out);
                },
                TreeChild::Window(..) => {},
            }
            assert(handle_views(out@) =~= mid + children_handles(self.nodes@, i as int, k + 1));
            k = k + 1;
        }
        assert(handle_views(out@) =~= handle_views(old(out)@) + spec_all_handles(self.nodes@, i as int));
    }

    /// The handles between neighbouring children of every container, each
    /// container's own before those of the containers inside it.
    pub fn resize_handles(&self) -> (r: Vec<ResizeHandle>)
        requires
            tree_shape_ok(*self),
            handles_fit(*self),
        ensures
            handle_views(r@) == spec_all_handles(self.nodes@, 0),
    {
        let mut out: Vec<ResizeHandle> = Vec::new();
        self.collect_handles_recursive(0, &mut out);
        assert(handle_views(out@) =~= Seq::<HandleGeometry>::empty() + spec_all_handles(self.nodes@, 0));
        out
    }
}


/// The last container in pre-order, from node `i` down, whose id is `id`.
pub open spec fn spec_find_container(nodes: Seq<TreeNode>, i: int, id: ContainerId) -> Option<int>
    decreases nodes.len() - i, 1int, 0int,
{
    if i < 0 || i >= nodes.len() {
        None
    } else {
        match children_find(nodes, i, id, nodes[i].children@.len() as int) {
            Some(x) => Some(x),
            None => if nodes[i].id == id {
                Some(i)
            } else {
                None
            },
        }
    }
}

/// The last match inside the containers among the first `k` children of node `i`.
pub open spec fn children_find(nodes: Seq<TreeNode>, i: int, id: ContainerId, k: int) -> Option<int>
    decreases nodes.len() - i, 0int, k,
{
    if k <= 0 || i < 0 || i >= nodes.len() || k > nodes[i].children@.len() {
        None
    } else {
        let prev = children_find(nodes, i, id, k - 1);
        match nodes[i].children@[k - 1] {
            TreeChild::Container(c) => if i < c < nodes.len() {
                match spec_find_container(nodes, c as int, id) {
                    Some(x) => Some(x),
                    None => prev,
                }
            } else {
                prev
            },
            TreeChild::Window(..) => prev,
        }
    }
}

/// The tree is what its well-formedness requires.
proof fn lemma_find_in_range(nodes: Seq<TreeNode>, i: int, id: ContainerId)
    ensures
        spec_find_container(nodes, i, id) matches Some(x) ==> 0 <= i <= x < nodes.len(),
    decreases nodes.len() - i, 1int, 0int,
{
    if 0 <= i < nodes.len() {
        lemma_children_find_in_range(nodes, i, id, nodes[i].children@.len() as int);
    }
}

proof fn lemma_children_find_in_range(nodes: Seq<TreeNode>, i: int, id: ContainerId, k: int)
    ensures
        children_find(nodes, i, id, k) matches Some(x) ==> 0 <= i < x < nodes.len(),
    decreases nodes.len() - i, 0int, k,
{
    if !(k <= 0 || i < 0 || i >= nodes.len() || k > nodes[i].children@.len()) {
        lemma_children_find_in_range(nodes, i, id, k - 1);
        match nodes[i].children@[k - 1] {
            TreeChild::Container(c) => if i < c < nodes.len() {
                lemma_find_in_range(nodes, c as int, id);
            },
            TreeChild::Window(..) => {},
        }
    }
}

impl ContainerTreeView {
    fn find_container_recursive(&self, i: usize, id: ContainerId, out: &mut Option<usize>)
        requires
            tree_shape_ok(*self),
            i < self.nodes@.len(),
        ensures
            match spec_find_container(self.nodes@, i as int, id) {
                Some(x) => *final(out) == Some(x as usize),
                None => *final(out) == *old(out),
            },
        decreases self.nodes@.len() - i,
    {
        proof {
            lemma_find_in_range(self.nodes@, i as int, id);
        }
        if self.nodes[i].id == id {
            *out = Some(i);
        }
        let children = &self.nodes[i].children;
        let n = children.len();
        let ghost own: Option<usize> = *out;
        let mut k: usize = 0;
        while k < n
            invariant
                tree_shape_ok(*self),
                i < self.nodes@.len(),
                children@ == self.nodes@[i as int].children@,
                n == children@.len(),
                k <= n,
                own == (if self.nodes@[i as int].id == id { Some(i) } else { *old(out) }),
                match children_find(self.nodes@, i as int, id, k as int) {
                    Some(x) => *out == Some(x as usize),
                    None => *out == own,
                },
            decreases n - k,
        {
            assert(child_shape_ok(self.nodes@, i as int, children@[k as int]));
            proof {
                lemma_children_find_in_range(self.nodes@, i as int, id, k + 1);
            }
            match children[k] {
                TreeChild::Container(c) => {
                    proof {
                        lemma_find_in_range(self.nodes@, c as int, id);
                    }
                    self.find_container_recursive(c, id, out);
                },
                TreeChild::Window(..) => {},
            }
            k = k + 1;
        }
    }

    /// The position in the node list of the container a handle belongs to.
    pub fn find_container_for_handle(&self, id: ContainerId) -> (r: Option<usize>)
        requires
            tree_shape_ok(*self),
        ensures
            match spec_find_container(self.nodes@, 0, id) {
                Some(x) => r == Some(x as usize),
                None => r is None,
            },
    {
        let mut out: Option<usize> = None;
        self.find_container_recursive(0, id, &mut out);
        out
    }
}

/// The bounds of the root container of a partition: the partition gap applied
/// inside `bounds`, widened by half the window gap on each side so that the
/// gaps between windows leave no outer margin.
pub open spec fn spec_root_bounds(bounds: Bounds, partition_gap: u32, window_gap: u32) -> Bounds {
    let pg = (partition_gap as i32) as int;
    let half_wg = crate::geometry::div_trunc((window_gap as i32) as int, 2);
    Bounds {
        position: Position { x: (bounds.position.x + pg - half_wg) as i32, y: (bounds.position.y + pg - half_wg) as i32 },
        size: Size {
            width: (bounds.size.width - partition_gap * 2 + window_gap) as u32,
            height: (bounds.size.height - partition_gap * 2 + window_gap) as u32,
        },
    }
}

/// The arithmetic of `get_root_bounds` stays in range.
pub open spec fn root_bounds_fit(bounds: Bounds, partition_gap: u32, window_gap: u32) -> bool {
    let pg = (partition_gap as i32) as int;
    let half_wg = crate::geometry::div_trunc((window_gap as i32) as int, 2);
    &&& crate::geometry::in_i32(bounds.position.x + pg)
    &&& crate::geometry::in_i32(bounds.position.x + pg - half_wg)
    &&& crate::geometry::in_i32(bounds.position.y + pg)
    &&& crate::geometry::in_i32(bounds.position.y + pg - half_wg)
    &&& partition_gap * 2 <= u32::MAX
    &&& partition_gap * 2 <= bounds.size.width && partition_gap * 2 <= bounds.size.height
    &&& bounds.size.width - partition_gap * 2 + window_gap <= u32::MAX
    &&& bounds.size.height - partition_gap * 2 + window_gap <= u32::MAX
}

/// Whether `get_root_bounds` can be computed for these values.
pub fn root_bounds_in_range(bounds: &Bounds, partition_gap: u32, window_gap: u32) -> (b: bool)
    ensures
        b == root_bounds_fit(*bounds, partition_gap, window_gap),
{
    let pg = partition_gap as i32 as i64;
    let half_wg = (window_gap as i32 / 2) as i64;
    let x = bounds.position.x as i64;
    let y = bounds.position.y as i64;
    let lo: i64 = -2147483648;
    let hi: i64 = 2147483647;
    let pg2 = partition_gap as u64 * 2;
    lo <= x + pg && x + pg <= hi && lo <= x + pg - half_wg && x + pg - half_wg <= hi && lo <= y + pg && y + pg <= hi
        && lo <= y + pg - half_wg && y + pg - half_wg <= hi && pg2 <= 0xffff_ffff && pg2 <= bounds.size.width as u64
        && pg2 <= bounds.size.height as u64 && bounds.size.width as u64 - pg2 + window_gap as u64 <= 0xffff_ffff
        && bounds.size.height as u64 - pg2 + window_gap as u64 <= 0xffff_ffff
}

/// The bounds of the root container of a partition with the configured gaps.
pub fn get_root_bounds(bounds: &Bounds, partition_gap: u32, window_gap: u32) -> (r: Bounds)
    requires
        root_bounds_fit(*bounds, partition_gap, window_gap),
    ensures
        r == spec_root_bounds(*bounds, partition_gap, window_gap),
{
    Bounds::new(
        bounds.position.x + partition_gap as i32 - window_gap as i32 / 2,
        bounds.position.y + partition_gap as i32 - window_gap as i32 / 2,
        bounds.size.width - partition_gap * 2 + window_gap,
        bounds.size.height - partition_gap * 2 + window_gap,
    )
}


/// A dropped window is never swapped with itself nor split against itself,
/// and a window dropped where there is no other window never names itself.
pub proof fn lemma_no_action_on_itself(t: ContainerTreeView, w: WindowId, target: TileTarget, action: MouseAction)
    ensures
        match spec_tile_action(t, w, target, action) {
            Some(TileAction::Swap(x)) => x != w,
            Some(TileAction::Split(x, _)) => x != w,
            Some(TileAction::AddToParent(ChildRef::Window(x), _)) => x != w,
            _ => true,
        },
{
}

/// The probe finds a window only where its bounds contain the position.
pub proof fn lemma_probe_inside(t: ContainerTreeView, pos: Position)
    requires
        tree_shape_ok(t),
    ensures
        spec_probe(t, pos) matches TileProbe::Target(tt) ==> spec_contains(tt.bounds, pos),
{
    lemma_window_at_contains(t.nodes@, 0, pos);
}

proof fn lemma_window_at_contains(nodes: Seq<TreeNode>, i: int, pos: Position)
    ensures
        spec_window_at(nodes, i, pos) matches Some((n, k)) ==> 0 <= n < nodes.len() && 0 <= k
            < nodes[n].children@.len() && spec_contains(child_bounds(nodes, nodes[n].children@[k]), pos)
            && nodes[n].children@[k] is Window,
    decreases nodes.len() - i,
{
    if 0 <= i < nodes.len() {
        lemma_first_containing_range(nodes, nodes[i].children@, pos, 0);
        match first_containing(nodes, nodes[i].children@, pos, 0) {
            Some(k) => match nodes[i].children@[k] {
                TreeChild::Container(c) => if i < c < nodes.len() {
                    lemma_window_at_contains(nodes, c as int, pos);
                },
                TreeChild::Window(..) => {},
            },
            None => {},
        }
    }
}

} // verus!

verus! {

/// The position, among `children` from `k` on, of the first window `w`.
pub open spec fn window_index(children: Seq<TreeChild>, w: WindowId, k: int) -> Option<int>
    decreases children.len() - k,
{
    if k < 0 || k >= children.len() {
        None
    } else if children[k] matches TreeChild::Window(x, _) && x == w {
        Some(k)
    } else {
        window_index(children, w, k + 1)
    }
}

/// Where window `w` is, from node `i` on: the first node holding it, and its
/// index there.
pub open spec fn spec_locate(nodes: Seq<TreeNode>, w: WindowId, i: int) -> Option<(int, int)>
    decreases nodes.len() - i,
{
    if i < 0 || i >= nodes.len() {
        None
    } else {
        match window_index(nodes[i].children@, w, 0) {
            Some(k) => Some((i, k)),
            None => spec_locate(nodes, w, i + 1),
        }
    }
}

/// One step of resizing along the ancestors: whether the container `n`
/// resizes its child `k`, and which axes are still to be resized after it. A
/// container resizes along its own axis, unless the dragged edge is its outer
/// edge on that side, which belongs to a container further up.
pub open spec fn resize_step(n: TreeNode, k: int, d: ResizeDirection, nh: bool, nv: bool) -> (bool, bool, bool) {
    let first = k == 0;
    let last = k == n.children@.len() - 1;
    if nh && n.direction == Direction::Horizontal {
        if (d.spec_has_left() && first) || (d.spec_has_right() && last) {
            (false, nh, nv)
        } else {
            (true, false, nv)
        }
    } else if nv && n.direction == Direction::Vertical {
        if (d.spec_has_top() && first) || (d.spec_has_bottom() && last) {
            (false, nh, nv)
        } else {
            (true, nh, false)
        }
    } else {
        (false, nh, nv)
    }
}

/// The containers, with the index of the child they resize, that take part
/// when child `k` of node `i` is resized by dragging `d`, with horizontal
/// (`nh`) and vertical (`nv`) resizing still to do: the walk goes up the
/// ancestors until both axes are done or the root is passed.
pub open spec fn spec_resize_plan(nodes: Seq<TreeNode>, i: int, k: int, d: ResizeDirection, nh: bool, nv: bool) -> Seq<
    (int, int),
>
    decreases i,
{
    if i < 0 || i >= nodes.len() || k < 0 || k >= nodes[i].children@.len() {
        Seq::empty()
    } else {
        let (act, nh2, nv2) = resize_step(nodes[i], k, d, nh, nv);
        let here = if act {
            seq![(i, k)]
        } else {
            Seq::empty()
        };
        if !nh2 && !nv2 {
            here
        } else {
            match nodes[i].parent {
                None => here,
                Some(p) => if 0 <= p < i {
                    match index_of_child(nodes[p as int].children@, TreeChild::Container(i as usize), 0) {
                        Some(pk) => here + spec_resize_plan(nodes, p as int, pk, d, nh2, nv2),
                        None => here,
                    }
                } else {
                    here
                },
            }
        }
    }
}

/// A plan of resizes, with its positions as integers.
pub open spec fn plan_view(s: Seq<(usize, usize)>) -> Seq<(int, int)> {
    s.map_values(|p: (usize, usize)| (p.0 as int, p.1 as int))
}

impl ContainerTreeView {
    /// Where window `id` is: the first container holding it and its index there.
    pub fn locate_window(&self, id: WindowId) -> (r: Option<(usize, usize)>)
        ensures
            match r {
                Some((i, k)) => spec_locate(self.nodes@, id, 0) == Some((i as int, k as int)),
                None => spec_locate(self.nodes@, id, 0) is None,
            },
    {
        let mut i: usize = 0;
        while i < self.nodes.len()
            invariant
                i <= self.nodes@.len(),
                spec_locate(self.nodes@, id, 0) == spec_locate(self.nodes@, id, i as int),
            decreases self.nodes@.len() - i,
        {
            let children = &self.nodes[i].children;
            let ghost cs = children@;
            let mut k: usize = 0;
            while k < children.len()
                invariant
                    i < self.nodes@.len(),
                    spec_locate(self.nodes@, id, 0) == spec_locate(self.nodes@, id, i as int),
                    cs == self.nodes@[i as int].children@,
                    children@ == cs,
                    k <= cs.len(),
                    window_index(cs, id, 0) == window_index(cs, id, k as int),
                decreases cs.len() - k,
            {
                match children[k] {
                    TreeChild::Window(x, _) => {
                        if x == id {
                            return Some((i, k));
                        }
                    },
                    TreeChild::Container(_) => {},
                }
                k = k + 1;
            }
            i = i + 1;
        }
        None
    }

    /// The containers, each with the index of the child it resizes, that take
    /// part when the window at child `index` of node `node` is resized by
    /// dragging `direction`, nearest first.
    pub fn resize_plan(&self, node: usize, index: usize, direction: ResizeDirection) -> (r: Vec<(usize, usize)>)
        requires
            tree_shape_ok(*self),
        ensures
            plan_view(r@) == spec_resize_plan(
                self.nodes@,
                node as int,
                index as int,
                direction,
                direction.spec_has_left() || direction.spec_has_right(),
                direction.spec_has_top() || direction.spec_has_bottom(),
            ),
    {
        let mut out: Vec<(usize, usize)> = Vec::new();
        let mut needs_horizontal = direction.has_left() || direction.has_right();
        let mut needs_vertical = direction.has_top() || direction.has_bottom();
        let mut i = node;
        let mut k = index;
        let ghost total = spec_resize_plan(
            self.nodes@,
            node as int,
            index as int,
            direction,
            needs_horizontal,
            needs_vertical,
        );
        loop
            invariant
                tree_shape_ok(*self),
                total == spec_resize_plan(
                    self.nodes@,
                    node as int,
                    index as int,
                    direction,
                    direction.spec_has_left() || direction.spec_has_right(),
                    direction.spec_has_top() || direction.spec_has_bottom(),
                ),
                plan_view(out@) + spec_resize_plan(self.nodes@, i as int, k as int, direction, needs_horizontal, needs_vertical)
                    == total,
            ensures
                plan_view(out@) == total,
            decreases i,
        {
            if i >= self.nodes.len() || k >= self.nodes[i].children.len() {
                assert(plan_view(out@) + Seq::<(int, int)>::empty() =~= plan_view(out@));
                return out;
            }
            let n = &self.nodes[i];
            let first = k == 0;
            let last = k == n.children.len() - 1;
            let ghost step = resize_step(self.nodes@[i as int], k as int, direction, needs_horizontal, needs_vertical);
            let ghost before = plan_view(out@);
            let mut act = false;
            if needs_horizontal && n.direction == Direction::Horizontal {
                if !((direction.has_left() && first) || (direction.has_right() && last)) {
                    act = true;
                    needs_horizontal = false;
                }
            } else if needs_vertical && n.direction == Direction::Vertical {
                if !((direction.has_top() && first) || (direction.has_bottom() && last)) {
                    act = true;
                    needs_vertical = false;
                }
            }
            assert(step == (act, needs_horizontal, needs_vertical));
            if act {
                out.push((i, k));
                assert(plan_view(out@) =~= before + seq![(i as int, k as int)]);
            } else {
                assert(plan_view(out@) =~= before + Seq::<(int, int)>::empty());
            }
            if !needs_horizontal && !needs_vertical {
                return out;
            }
            let p = match n.parent {
                Some(p) => p,
                None => return out,
            };
            assert(p < i);
            let pk = match self.position_of_child(p, &TreeChild::Container(i)) {
                Some(pk) => pk,
                None => return out,
            };
            proof {
                let here = if act {
                    seq![(i as int, k as int)]
                } else {
                    Seq::<(int, int)>::empty()
                };
                assert(before + here + spec_resize_plan(self.nodes@, p as int, pk as int, direction, needs_horizontal, needs_vertical)
                    =~= before + (here + spec_resize_plan(self.nodes@, p as int, pk as int, direction, needs_horizontal, needs_vertical)));
            }
            i = p;
            k = pk;
        }
    }
}

} // verus!

verus! {

/// Resizing a window moves each of its axes in at most one container: the
/// plan holds at most one container laid out horizontally, only when
/// horizontal resizing was asked for, and likewise vertically.
pub proof fn lemma_resize_plan_axes(nodes: Seq<TreeNode>, i: int, k: int, d: ResizeDirection, nh: bool, nv: bool)
    ensures
        ({
            let plan = spec_resize_plan(nodes, i, k, d, nh, nv);
            &&& forall|j: int| 0 <= j < plan.len() ==> 0 <= (#[trigger] plan[j]).0 < nodes.len()
            &&& forall|j: int|
                0 <= j < plan.len() ==> (nodes[(#[trigger] plan[j]).0].direction == Direction::Horizontal ==> nh)
                    && (nodes[plan[j].0].direction == Direction::Vertical ==> nv)
            &&& forall|a: int, b: int|
                0 <= a < b < plan.len() ==> nodes[(#[trigger] plan[a]).0].direction != nodes[(#[trigger] plan[b]).0].direction
        }),
    decreases i,
{
    if !(i < 0 || i >= nodes.len() || k < 0 || k >= nodes[i].children@.len()) {
        let (act, nh2, nv2) = resize_step(nodes[i], k, d, nh, nv);
        let here = if act {
            seq![(i, k)]
        } else {
            Seq::<(int, int)>::empty()
        };
        if nh2 || nv2 {
            match nodes[i].parent {
                None => {},
                Some(p) => if 0 <= p < i {
                    match index_of_child(nodes[p as int].children@, TreeChild::Container(i as usize), 0) {
                        Some(pk) => {
                            lemma_resize_plan_axes(nodes, p as int, pk, d, nh2, nv2);
                            let rest = spec_resize_plan(nodes, p as int, pk, d, nh2, nv2);
                            let plan = here + rest;
                            assert(plan == spec_resize_plan(nodes, i, k, d, nh, nv));
                            assert forall|j: int| 0 <= j < plan.len() implies 0 <= (#[trigger] plan[j]).0 < nodes.len() by {
                                if j >= here.len() {
                                    assert(plan[j] == rest[j - here.len()]);
                                }
                            }
                            assert forall|j: int|
                                0 <= j < plan.len() implies (nodes[(#[trigger] plan[j]).0].direction == Direction::Horizontal ==> nh)
                                    && (nodes[plan[j].0].direction == Direction::Vertical ==> nv) by {
                                if j >= here.len() {
                                    assert(plan[j] == rest[j - here.len()]);
                                }
                            }
                            assert forall|a: int, b: int|
                                0 <= a < b < plan.len() implies nodes[(#[trigger] plan[a]).0].direction != nodes[(
                                #[trigger] plan[b]).0].direction by {
                                if a >= here.len() {
                                    assert(plan[a] == rest[a - here.len()]);
                                    assert(plan[b] == rest[b - here.len()]);
                                } else {
                                    assert(plan[a] == (i, k));
                                    assert(plan[b] == rest[b - here.len()]);
                                }
                            }
                        },
                        None => {},
                    }
                },
            }
        }
    }
}

} // verus!

verus! {

/// The connector that leads to an entry of the tree drawing: a corner for the
/// last child of a container, a branch otherwise.
pub open spec fn connector(is_last: bool) -> Seq<char> {
    if is_last {
        "└─ "@
    } else {
        "├─ "@
    }
}

/// The title of window `w` among `titles`: that of its first entry, else empty.
pub open spec fn title_for(titles: Seq<(WindowId, Seq<char>)>, w: WindowId) -> Seq<char>
    decreases titles.len(),
{
    if titles.len() == 0 {
        Seq::empty()
    } else if titles[0].0 == w {
        titles[0].1
    } else {
        title_for(titles.drop_first(), w)
    }
}

/// The letter of an axis in the tree drawing.
pub open spec fn axis_letter(d: Direction) -> Seq<char> {
    match d {
        Direction::Horizontal => "H"@,
        Direction::Vertical => "V"@,
    }
}

/// The drawing of node `i` and everything inside it, its lines starting with
/// `prefix`: a line for the container (its axis and number of children), then
/// a line for each window (its id and title) and the drawing of each
/// container inside it.
pub open spec fn spec_debug_container(
    nodes: Seq<TreeNode>,
    titles: Seq<(WindowId, Seq<char>)>,
    i: int,
    prefix: Seq<char>,
    is_last: bool,
) -> Seq<char>
    decreases nodes.len() - i, 1int, 0int,
{
    if i < 0 || i >= nodes.len() {
        Seq::empty()
    } else {
        let n = nodes[i];
        let child_prefix = prefix + if is_last {
            "   "@
        } else {
            "│  "@
        };
        prefix + connector(is_last) + "Container ["@ + axis_letter(n.direction) + "] "@ + decimal(
            n.children@.len() as nat,
        ) + " children\n"@ + debug_children(nodes, titles, i, child_prefix, n.children@.len() as int)
    }
}

/// The drawings of the first `k` children of node `i`.
pub open spec fn debug_children(
    nodes: Seq<TreeNode>,
    titles: Seq<(WindowId, Seq<char>)>,
    i: int,
    child_prefix: Seq<char>,
    k: int,
) -> Seq<char>
    decreases nodes.len() - i, 0int, k,
{
    if i < 0 || i >= nodes.len() || k <= 0 || k > nodes[i].children@.len() {
        Seq::empty()
    } else {
        let last = k - 1 == nodes[i].children@.len() - 1;
        debug_children(nodes, titles, i, child_prefix, k - 1) + match nodes[i].children@[k - 1] {
            TreeChild::Container(c) => if i < c < nodes.len() {
                spec_debug_container(nodes, titles, c as int, child_prefix, last)
            } else {
                Seq::empty()
            },
            TreeChild::Window(w, _) => child_prefix + connector(last) + "Window ["@ + decimal(w as nat) + "] \""@
                + title_for(titles, w) + "\"\n"@,
        }
    }
}

/// The drawing of the whole layout: a header with the partition's size and
/// position, then the root container, or `(empty)` when it holds nothing.
pub open spec fn spec_debug_layout(t: ContainerTreeView, titles: Seq<(WindowId, Seq<char>)>) -> Seq<char> {
    "ContainerTree Layout ("@ + decimal(t.bounds.size.width as nat) + "x"@ + decimal(t.bounds.size.height as nat)
        + " at "@ + signed_decimal(t.bounds.position.x as int) + ","@ + signed_decimal(t.bounds.position.y as int)
        + "):\n"@ + if t.nodes@.len() == 0 || t.nodes@[0].children@.len() == 0 {
        "└─ (empty)\n"@
    } else {
        spec_debug_container(t.nodes@, titles, 0, Seq::empty(), true)
    }
}

/// The titles, as text.
pub open spec fn titles_text(titles: Seq<(WindowId, String)>) -> Seq<(WindowId, Seq<char>)> {
    titles.map_values(|t: (WindowId, String)| (t.0, t.1@))
}

fn append_title(out: &mut String, titles: &Vec<(WindowId, String)>, w: WindowId)
    ensures
        final(out)@ == old(out)@ + title_for(titles_text(titles@), w),
{
    let ghost all = titles_text(titles@);
    let mut i: usize = 0;
    assert(all.subrange(0, all.len() as int) == all);
    while i < titles.len()
        invariant
            i <= titles@.len(),
            all == titles_text(titles@),
            out@ == old(out)@,
            title_for(all, w) == title_for(all.subrange(i as int, all.len() as int), w),
        decreases titles@.len() - i,
    {
        let ghost rest = all.subrange(i as int, all.len() as int);
        assert(rest[0] == (titles@[i as int].0, titles@[i as int].1@));
        if titles[i].0 == w {
            out.append(titles[i].1.as_str());
            return;
        }
        assert(rest.drop_first() =~= all.subrange(i + 1, all.len() as int));
        i = i + 1;
    }
    assert(out@ + Seq::<char>::empty() =~= out@);
}

fn append_window_line(out: &mut String, titles: &Vec<(WindowId, String)>, prefix: &str, last: bool, w: WindowId)
    ensures
        final(out)@ == old(out)@ + (prefix@ + connector(last) + "Window ["@ + decimal(w as nat) + "] \""@ + title_for(
            titles_text(titles@),
            w,
        ) + "\"\n"@),
{
    let ghost start = out@;
    out.append(prefix);
    out.append(if last { "└─ " } else { "├─ " });
    out.append("Window [");
    append_decimal(out, w);
    out.append("] \"");
    append_title(out, titles, w);
    out.append("\"\n");
    assert(out@ =~= start + (prefix@ + connector(last) + "Window ["@ + decimal(w as nat) + "] \""@ + title_for(
        titles_text(titles@),
        w,
    ) + "\"\n"@));
}

impl ContainerTreeView {
    /// Appends the drawing of node `i` and everything inside it to `out`.
    #[verifier::spinoff_prover]
    fn debug_container(&self, out: &mut String, titles: &Vec<(WindowId, String)>, i: usize, prefix: &str, is_last: bool)
        requires
            tree_shape_ok(*self),
            i < self.nodes@.len(),
        ensures
            final(out)@ == old(out)@ + spec_debug_container(self.nodes@, titles_text(titles@), i as int, prefix@, is_last),
        decreases self.nodes@.len() - i,
    {
        let ghost ts = titles_text(titles@);
        let n = &self.nodes[i];
        let ghost start = out@;
        out.append(prefix);
        out.append(if is_last { "└─ " } else { "├─ " });
        out.append("Container [");
        out.append(
            match n.direction {
                Direction::Horizontal => "H",
                Direction::Vertical => "V",
            },
        );
        out.append("] ");
        append_decimal(out, n.children.len() as u64);
        out.append(" children\n");
        let mut child_prefix = prefix.to_owned();
        child_prefix.append(if is_last { "   " } else { "│  " });
        let ghost cp = child_prefix@;
        let ghost head = out@;
        assert(head == start + (prefix@ + connector(is_last) + "Container ["@ + axis_letter(n.direction) + "] "@ + decimal(
            n.children@.len() as nat,
        ) + " children\n"@));
        let len = n.children.len();
        for k in 0..len
            invariant
                tree_shape_ok(*self),
                i < self.nodes@.len(),
                n == self.nodes@[i as int],
                len == n.children@.len(),
                ts == titles_text(titles@),
                cp == child_prefix@,
                out@ == head + debug_children(self.nodes@, ts, i as int, cp, k as int),
        {
            let ghost prev = out@;
            let last = k == len - 1;
            match n.children[k] {
                TreeChild::Container(c) => {
                    assert(child_shape_ok(self.nodes@, i as int, self.nodes@[i as int].children@[k as int]));
                    self.debug_container(out, titles, c, child_prefix.as_str(), last);
                },
                TreeChild::Window(w, _) => {
                    append_window_line(out, titles, child_prefix.as_str(), last, w);
                },
            }
            assert(out@ =~= head + debug_children(self.nodes@, ts, i as int, cp, k + 1));
        }
        assert(out@ =~= start + spec_debug_container(self.nodes@, ts, i as int, prefix@, is_last));
    }

    /// A drawing of the layout for logs: a header, then the containers and
    /// windows as a tree, each window with its id and title.
    pub fn debug_layout(&self, titles: &Vec<(WindowId, String)>) -> (r: String)
        requires
            tree_shape_ok(*self),
        ensures
            r@ == spec_debug_layout(*self, titles_text(titles@)),
    {
        let mut out = "ContainerTree Layout (".to_owned();
        append_decimal(&mut out, self.bounds.size.width as u64);
        out.append("x");
        append_decimal(&mut out, self.bounds.size.height as u64);
        out.append(" at ");
        append_signed_decimal(&mut out, self.bounds.position.x);
        out.append(",");
        append_signed_decimal(&mut out, self.bounds.position.y);
        out.append("):\n");
        let ghost head = out@;
        if self.nodes[0].children.len() == 0 {
            out.append("└─ (empty)\n");
        } else {
            self.debug_container(&mut out, titles, 0, "", true);
            proof {
                reveal_strlit("");
            }
        }
        out
    }
}


/// Every boundary between neighbouring children of a container has its
/// handle: the handles of node `i` (and of the containers inside it) start
/// with one handle for each of its `n - 1` boundaries, in order; the handle
/// before child `idx + 1` belongs to the container, carries index `idx + 1`,
/// runs across the container's axis and sits at that child's leading edge.
pub proof fn lemma_one_handle_per_boundary(nodes: Seq<TreeNode>, i: int, idx: int)
    requires
        0 <= i < nodes.len(),
        0 <= idx < nodes[i].children@.len() - 1,
        idx < usize::MAX,
    ensures
        ({
            let hs = spec_all_handles(nodes, i);
            let node = nodes[i];
            let next = child_bounds(nodes, node.children@[idx + 1]);
            &&& hs.len() >= node.children@.len() - 1
            &&& hs[idx].id == node.id
            &&& hs[idx].index == idx + 1
            &&& match node.direction {
                Direction::Horizontal => hs[idx].orientation == HandleOrientation::Vertical
                    && hs[idx].center.x == next.position.x && hs[idx].min == node.bounds.position.x,
                Direction::Vertical => hs[idx].orientation == HandleOrientation::Horizontal
                    && hs[idx].center.y == next.position.y && hs[idx].min == node.bounds.position.y,
            }
        }),
{
    let own = own_handles(nodes, i);
    assert(own.len() == nodes[i].children@.len() - 1);
    assert(spec_all_handles(nodes, i)[idx] == own[idx]);
    assert(own[idx] == handle_between(nodes, nodes[i], idx));
}


/// A container takes part in a resize only along an edge between two of its
/// children: it never resizes its first child from the leading side (left or
/// top, along its axis) nor its last child from the trailing side (right or
/// bottom), since those edges are the container's own outer edges.
pub proof fn lemma_resize_plan_inner_edges(nodes: Seq<TreeNode>, i: int, k: int, d: ResizeDirection, nh: bool, nv: bool)
    ensures
        ({
            let plan = spec_resize_plan(nodes, i, k, d, nh, nv);
            forall|j: int|
                0 <= j < plan.len() ==> {
                    let (p, c) = #[trigger] plan[j];
                    let last = nodes[p].children@.len() - 1;
                    &&& 0 <= p < nodes.len()
                    &&& 0 <= c <= last
                    &&& nodes[p].direction == Direction::Horizontal ==> !(d.spec_has_left() && c == 0)
                        && !(d.spec_has_right() && c == last)
                    &&& nodes[p].direction == Direction::Vertical ==> !(d.spec_has_top() && c == 0)
                        && !(d.spec_has_bottom() && c == last)
                }
        }),
    decreases i,
{
    if !(i < 0 || i >= nodes.len() || k < 0 || k >= nodes[i].children@.len()) {
        let (act, nh2, nv2) = resize_step(nodes[i], k, d, nh, nv);
        let here = if act {
            seq![(i, k)]
        } else {
            Seq::<(int, int)>::empty()
        };
        if nh2 || nv2 {
            match nodes[i].parent {
                None => {},
                Some(p) => if 0 <= p < i {
                    match index_of_child(nodes[p as int].children@, TreeChild::Container(i as usize), 0) {
                        Some(pk) => {
                            lemma_resize_plan_inner_edges(nodes, p as int, pk, d, nh2, nv2);
                            let rest = spec_resize_plan(nodes, p as int, pk, d, nh2, nv2);
                            let plan = here + rest;
                            assert(plan == spec_resize_plan(nodes, i, k, d, nh, nv));
                            assert forall|j: int| 0 <= j < plan.len() && j >= here.len() implies #[trigger] plan[j]
                                == rest[j - here.len()] by {}
                        },
                        None => {},
                    }
                },
            }
        }
    }
}


/// Dragging an edge between two children of the window's own container,
/// along that container's axis, resizes the window there first.
pub proof fn lemma_resize_plan_starts_at_inner_edge(nodes: Seq<TreeNode>, i: int, k: int, d: ResizeDirection, nh: bool, nv: bool)
    requires
        0 <= i < nodes.len(),
        0 <= k < nodes[i].children@.len(),
        (nh && nodes[i].direction == Direction::Horizontal && ((d.spec_has_left() && k > 0) || (d.spec_has_right()
            && k < nodes[i].children@.len() - 1))) || (nv && nodes[i].direction == Direction::Vertical && ((
        d.spec_has_top() && k > 0) || (d.spec_has_bottom() && k < nodes[i].children@.len() - 1))),
    ensures
        spec_resize_plan(nodes, i, k, d, nh, nv).len() > 0,
        spec_resize_plan(nodes, i, k, d, nh, nv)[0] == (i, k),
{
}


/// Dropping a window onto another window always does something: for a target
/// window that is a child of the target container, every zone gives an
/// action, placed on the side the mouse is nearest to. A swap exchanges with
/// the target window, a split makes a new container only across the
/// container's axis, and a window named as the place to insert next to is the
/// target window.
pub proof fn lemma_other_window_always_acts(t: ContainerTreeView, w: WindowId, target: TileTarget, action: MouseAction)
    requires
        target.node < t.nodes@.len(),
        target.window != w,
        index_of_child(t.nodes@[target.node as int].children@, TreeChild::Window(target.window, target.bounds), 0) is Some,
    ensures
        match spec_tile_action(t, w, target, action) {
            Some(TileAction::Swap(x)) => action == MouseAction::Swap && x == target.window,
            Some(TileAction::Split(x, s)) => x == target.window && s == target.side
                && s.spec_direction() != t.nodes@[target.node as int].direction,
            Some(TileAction::AddToParent(c, s)) => s == target.side && (c matches ChildRef::Window(x) ==> x
                == target.window),
            Some(TileAction::FillRoot) => false,
            None => false,
        },
{
}

/// Dropping along the axis of the outermost container, on the outer edge of
/// its first or last window, inserts the window next to that window in the
/// outermost container, as there is no container further out.
pub proof fn lemma_outer_edge_of_root_adds_next_to_target(t: ContainerTreeView, w: WindowId, target: TileTarget)
    requires
        target.node < t.nodes@.len(),
        t.nodes@[target.node as int].parent is None,
        target.window != w,
        target.side.spec_direction() == t.nodes@[target.node as int].direction,
        index_of_child(t.nodes@[target.node as int].children@, TreeChild::Window(target.window, target.bounds), 0)
            is Some,
    ensures
        spec_tile_action(t, w, target, MouseAction::SplitParent) == Some(
            TileAction::AddToParent(ChildRef::Window(target.window), target.side),
        ),
{
}


/// How far `pos` is from side `s` of `b`.
pub open spec fn side_distance(b: Bounds, pos: Position, s: Side) -> int {
    let (l, r, t, bo) = side_distances(b, pos);
    match s {
        Side::Left => l,
        Side::Right => r,
        Side::Top => t,
        Side::Bottom => bo,
    }
}

/// The order in which sides win a tie: left, right, top, bottom.
pub open spec fn side_rank(s: Side) -> int {
    match s {
        Side::Left => 0,
        Side::Right => 1,
        Side::Top => 2,
        Side::Bottom => 3,
    }
}

/// The side a drop is placed on is the side nearest to the mouse: no side
/// is nearer, the distance reported is that side's, and among sides at the
/// same distance the earlier of left, right, top, bottom wins.
pub proof fn lemma_closest_side_is_nearest(b: Bounds, pos: Position, other: Side)
    ensures
        spec_closest_side(b, pos).0 == side_distance(b, pos, spec_closest_side(b, pos).1),
        spec_closest_side(b, pos).0 <= side_distance(b, pos, other),
        spec_closest_side(b, pos).0 == side_distance(b, pos, other) ==> side_rank(spec_closest_side(b, pos).1)
            <= side_rank(other),
{
}

} // verus!
