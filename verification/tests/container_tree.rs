use ultrawm_core::geometry::{Bounds, Position};
use ultrawm_core::layouts::container_tree::{
    contains, get_closest_distance_from_side, get_root_bounds, root_bounds_in_range, ChildRef,
    ContainerTreeView, MouseAction, TileAction, TileProbe, TreeChild, TreeNode,
};
use ultrawm_core::layouts::{Direction, ResizeDirection, Side};
use ultrawm_core::resize_handle::HandleOrientation;

fn pos(x: i32, y: i32) -> Position {
    Position::new(x, y)
}

/// A root split horizontally into window 1 and a vertical container with windows 2 and 3.
fn sample() -> ContainerTreeView {
    let root = TreeNode {
        id: 10,
        parent: None,
        direction: Direction::Horizontal,
        bounds: Bounds::new(0, 0, 1000, 800),
        children: vec![TreeChild::Window(1, Bounds::new(0, 0, 500, 800)), TreeChild::Container(1)],
    };
    let right = TreeNode {
        id: 11,
        parent: Some(0),
        direction: Direction::Vertical,
        bounds: Bounds::new(500, 0, 500, 800),
        children: vec![
            TreeChild::Window(2, Bounds::new(500, 0, 500, 400)),
            TreeChild::Window(3, Bounds::new(500, 400, 500, 400)),
        ],
    };
    ContainerTreeView { bounds: Bounds::new(0, 0, 1000, 800), nodes: vec![root, right] }
}

fn empty() -> ContainerTreeView {
    let root = TreeNode {
        id: 1,
        parent: None,
        direction: Direction::Horizontal,
        bounds: Bounds::new(0, 0, 1000, 800),
        children: vec![],
    };
    ContainerTreeView { bounds: Bounds::new(0, 0, 1000, 800), nodes: vec![root] }
}

#[test]
fn bounds_contain_their_top_left_but_not_their_far_edges() {
    let b = Bounds::new(10, 20, 30, 40);
    assert!(contains(&b, &pos(10, 20)));
    assert!(contains(&b, &pos(39, 59)));
    assert!(!contains(&b, &pos(40, 30)));
    assert!(!contains(&b, &pos(20, 60)));
}

#[test]
fn well_formedness_is_checked() {
    assert!(sample().is_tree());
    let mut bad = sample();
    bad.nodes[1].parent = None;
    assert!(!bad.is_tree());
    let mut cyclic = sample();
    cyclic.nodes[1].children.push(TreeChild::Container(0));
    assert!(!cyclic.is_tree());
    let none = ContainerTreeView { bounds: Bounds::new(0, 0, 1, 1), nodes: vec![] };
    assert!(!none.is_tree());
    assert!(sample().handles_in_range());
}

#[test]
fn far_away_windows_are_probed_too() {
    let x = 600_000_000;
    let root = TreeNode {
        id: 1,
        parent: None,
        direction: Direction::Horizontal,
        bounds: Bounds::new(x, 0, 1000, 800),
        children: vec![TreeChild::Window(7, Bounds::new(x, 0, 1000, 800))],
    };
    let t = ContainerTreeView { bounds: Bounds::new(x, 0, 1000, 800), nodes: vec![root] };
    assert!(t.is_tree());
    assert!(t.probe_in_range(&pos(x + 10, 400)));
    match t.tile_probe(&pos(x + 10, 400)) {
        TileProbe::Target(tt) => assert_eq!((tt.window, tt.distance, tt.side), (7, 10, Side::Left)),
        other => panic!("unexpected {:?}", other),
    }
    let edge = TreeNode {
        id: 1,
        parent: None,
        direction: Direction::Horizontal,
        bounds: Bounds::new(i32::MAX - 10, 0, 5, 5),
        children: vec![TreeChild::Window(7, Bounds::new(i32::MAX - 10, 0, 20, 5))],
    };
    let over = ContainerTreeView { bounds: Bounds::new(0, 0, 1, 1), nodes: vec![edge] };
    assert!(!over.probe_in_range(&pos(i32::MAX - 5, 1)));
    assert!(over.probe_in_range(&pos(0, 1)));
}

#[test]
fn window_at_position_descends_into_containers() {
    let t = sample();
    assert_eq!(t.find_window_at_position(&pos(10, 10)), Some((0, 0)));
    assert_eq!(t.find_window_at_position(&pos(700, 100)), Some((1, 0)));
    assert_eq!(t.find_window_at_position(&pos(700, 500)), Some((1, 1)));
    assert_eq!(t.find_window_at_position(&pos(2000, 10)), None);
}

#[test]
fn closest_side_prefers_left_right_top_bottom_on_ties() {
    let b = Bounds::new(0, 0, 100, 100);
    assert_eq!(get_closest_distance_from_side(&b, &pos(10, 50)), (10, Side::Left));
    assert_eq!(get_closest_distance_from_side(&b, &pos(95, 50)), (5, Side::Right));
    assert_eq!(get_closest_distance_from_side(&b, &pos(50, 3)), (3, Side::Top));
    assert_eq!(get_closest_distance_from_side(&b, &pos(50, 99)), (1, Side::Bottom));
    assert_eq!(get_closest_distance_from_side(&b, &pos(50, 50)), (50, Side::Left));
}

#[test]
fn probe_an_empty_layout() {
    assert_eq!(empty().tile_probe(&pos(10, 10)), TileProbe::EmptyRoot);
    assert_eq!(sample().tile_probe(&pos(5000, 10)), TileProbe::Nothing);
}

#[test]
fn probe_a_window() {
    match sample().tile_probe(&pos(700, 390)) {
        TileProbe::Target(t) => {
            assert_eq!((t.node, t.index, t.window), (1, 0, 2));
            assert_eq!((t.distance, t.side), (10, Side::Bottom));
            assert_eq!(t.half_size, 200);
        }
        other => panic!("unexpected {:?}", other),
    }
}

#[test]
fn tile_actions() {
    let t = sample();
    let target = match t.tile_probe(&pos(700, 390)) {
        TileProbe::Target(x) => x,
        _ => unreachable!(),
    };
    assert_eq!(t.tile_action(1, &target, MouseAction::Swap), Some(TileAction::Swap(2)));
    assert_eq!(t.tile_action(2, &target, MouseAction::Swap), None);
    // splitting along the container's own axis adds to it
    assert_eq!(
        t.tile_action(1, &target, MouseAction::Split),
        Some(TileAction::AddToParent(ChildRef::Window(2), Side::Bottom))
    );
    // the bottom of the first child is not an outer edge: add next to it
    assert_eq!(
        t.tile_action(1, &target, MouseAction::SplitParent),
        Some(TileAction::AddToParent(ChildRef::Window(2), Side::Bottom))
    );
    let top = match t.tile_probe(&pos(700, 5)) {
        TileProbe::Target(x) => x,
        _ => unreachable!(),
    };
    // the top of the first child is an outer edge: go up to the parent's parent
    assert_eq!(
        t.tile_action(1, &top, MouseAction::SplitParent),
        Some(TileAction::AddToParent(ChildRef::Container(10), Side::Top))
    );
    let left = match t.tile_probe(&pos(505, 200)) {
        TileProbe::Target(x) => x,
        _ => unreachable!(),
    };
    assert_eq!(left.side, Side::Left);
    // across the container's axis: split the window, or add to the container
    assert_eq!(t.tile_action(1, &left, MouseAction::Split), Some(TileAction::Split(2, Side::Left)));
    assert_eq!(
        t.tile_action(2, &left, MouseAction::SplitParent),
        Some(TileAction::AddToParent(ChildRef::Container(11), Side::Left))
    );
}

#[test]
fn handles_between_children() {
    let hs = sample().resize_handles();
    assert_eq!(hs.len(), 2);
    let root = hs[0].geometry();
    assert_eq!(root.orientation, HandleOrientation::Vertical);
    assert_eq!(root.center, pos(500, 400));
    assert_eq!((root.length, root.min, root.max, root.id, root.index), (800, 0, 1000, 10, 1));
    let inner = hs[1].geometry();
    assert_eq!(inner.orientation, HandleOrientation::Horizontal);
    assert_eq!(inner.center, pos(750, 400));
    assert_eq!((inner.length, inner.min, inner.max, inner.id, inner.index), (500, 0, 800, 11, 1));
    assert!(empty().resize_handles().is_empty());
}

#[test]
fn container_for_a_handle() {
    let t = sample();
    assert_eq!(t.find_container_for_handle(11), Some(1));
    assert_eq!(t.find_container_for_handle(10), Some(0));
    assert_eq!(t.find_container_for_handle(99), None);
}

#[test]
fn root_bounds_apply_the_gaps() {
    let b = Bounds::new(0, 0, 1920, 1080);
    assert!(root_bounds_in_range(&b, 40, 20));
    assert_eq!(get_root_bounds(&b, 40, 20), Bounds::new(30, 30, 1860, 1020));
    assert!(!root_bounds_in_range(&Bounds::new(0, 0, 50, 50), 40, 20));
}

#[test]
fn windows_are_located() {
    let t = sample();
    assert_eq!(t.locate_window(1), Some((0, 0)));
    assert_eq!(t.locate_window(3), Some((1, 1)));
    assert_eq!(t.locate_window(9), None);
}

#[test]
fn resizes_go_to_the_container_that_owns_the_edge() {
    let t = sample();
    // the bottom edge of window 2 is shared with window 3 in the right column
    assert_eq!(t.resize_plan(1, 0, ResizeDirection::Bottom), vec![(1, 0)]);
    // the bottom edge of window 3 is the layout's own edge: nothing resizes
    assert_eq!(t.resize_plan(1, 1, ResizeDirection::Bottom), vec![]);
    // the left edge of window 2 belongs to the root, between window 1 and the column
    assert_eq!(t.resize_plan(1, 0, ResizeDirection::TopLeft), vec![(0, 1)]);
    assert_eq!(t.resize_plan(0, 0, ResizeDirection::Right), vec![(0, 0)]);
    // both axes: the column resizes the height, the root the width
    assert_eq!(t.resize_plan(1, 0, ResizeDirection::BottomLeft), vec![(1, 0), (0, 1)]);
}

#[test]
fn layout_drawing() {
    let t = sample();
    let titles = vec![(1u64, "Editor".to_string()), (3u64, "Shell".to_string())];
    let expected = [
        "ContainerTree Layout (1000x800 at 0,0):\n",
        "└─ Container [H] 2 children\n",
        "   ├─ Window [1] \"Editor\"\n",
        "   └─ Container [V] 2 children\n",
        "      ├─ Window [2] \"\"\n",
        "      └─ Window [3] \"Shell\"\n",
    ]
    .join("");
    assert_eq!(t.debug_layout(&titles), expected);
    assert_eq!(empty().debug_layout(&titles), "ContainerTree Layout (1000x800 at 0,0):\n└─ (empty)\n");
}
