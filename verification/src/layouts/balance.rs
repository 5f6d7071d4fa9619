use vstd::prelude::*;
use crate::geometry::{Bounds, Position, Size};
use crate::layouts::Direction;

verus! {

/// The length of `b` along the axis `d`.
pub open spec fn main_size(b: Bounds, d: Direction) -> int {
    match d {
        Direction::Horizontal => b.size.width as int,
        Direction::Vertical => b.size.height as int,
    }
}

/// The coordinate of `b`'s leading edge along `d`.
pub open spec fn main_start(b: Bounds, d: Direction) -> int {
    match d {
        Direction::Horizontal => b.position.x as int,
        Direction::Vertical => b.position.y as int,
    }
}

/// The size each of `n` children gets along the axis, after the gaps between them.
pub open spec fn child_size(b: Bounds, d: Direction, n: int, gap: int) -> int {
    (main_size(b, d) - gap * (n - 1)) / n
}

/// The bounds of child `i` of `n` laid out evenly along `d` with `gap` pixels
/// between neighbours; across the axis each child fills the container.
pub open spec fn balanced_child(b: Bounds, d: Direction, n: int, gap: int, i: int) -> Bounds {
    let cs = child_size(b, d, n, gap);
    let start = main_start(b, d) + i * (cs + gap);
    match d {
        Direction::Horizontal => Bounds {
            position: Position { x: start as i32, y: b.position.y },
            size: Size { width: cs as u32, height: b.size.height },
        },
        Direction::Vertical => Bounds {
            position: Position { x: b.position.x, y: start as i32 },
            size: Size { width: b.size.width, height: cs as u32 },
        },
    }
}

/// The arithmetic of `balance` stays in range: the gaps fit in the container
/// and every child's leading edge, and the one after the last, fits in `i32`.
pub open spec fn balance_fits(b: Bounds, d: Direction, n: int, gap: int) -> bool {
    &&& n > 0
    &&& gap * (n - 1) <= main_size(b, d)
    &&& child_size(b, d, n, gap) + gap <= i32::MAX
    &&& main_start(b, d) + n * (child_size(b, d, n, gap) + gap) <= i32::MAX
}

/// The bounds of `count` children laid out evenly along `direction` inside
/// `bounds`, with `window_gap` pixels between neighbours; none for no children.
pub fn balance(bounds: &Bounds, direction: Direction, count: u32, window_gap: u32) -> (r: Vec<Bounds>)
    requires
        count > 0 ==> balance_fits(*bounds, direction, count as int, window_gap as int),
    ensures
        r@.len() == count,
        forall|i: int| 0 <= i < count ==> r@[i] == balanced_child(*bounds, direction, count as int, window_gap as int, i),
{
    let mut out: Vec<Bounds> = Vec::new();
    if count == 0 {
        return out;
    }
    let container_size = match direction {
        Direction::Horizontal => bounds.size.width,
        Direction::Vertical => bounds.size.height,
    };
    proof {
        assert(0 <= window_gap * (count - 1) <= container_size) by (nonlinear_arith)
            requires
                window_gap * (count - 1) <= container_size,
                count >= 1,
        ;
    }
    let total_gap = window_gap * (count - 1);
    let cs = (container_size - total_gap) / count;
    let step: i32 = cs as i32 + window_gap as i32;
    let mut current: i32 = match direction {
        Direction::Horizontal => bounds.position.x,
        Direction::Vertical => bounds.position.y,
    };
    let ghost start = main_start(*bounds, direction);
    let mut i: u32 = 0;
    while i < count
        invariant
            count > 0,
            balance_fits(*bounds, direction, count as int, window_gap as int),
            cs == child_size(*bounds, direction, count as int, window_gap as int),
            step == cs + window_gap,
            start == main_start(*bounds, direction),
            i <= count,
            current == start + i * step,
            out@.len() == i,
            forall|j: int| 0 <= j < i ==> out@[j] == balanced_child(*bounds, direction, count as int, window_gap as int, j),
        decreases count - i,
    {
        proof {
            assert(start + i * step + step == start + (i + 1) * step) by (nonlinear_arith);
            assert(start + (i + 1) * step <= start + count * step) by (nonlinear_arith)
                requires
                    i + 1 <= count,
                    step >= 0,
            ;
        }
        let b = match direction {
            Direction::Horizontal => Bounds::new(current, bounds.position.y, cs, bounds.size.height),
            Direction::Vertical => Bounds::new(bounds.position.x, current, bounds.size.width, cs),
        };
        out.push(b);
        current = current + step;
        i = i + 1;
    }
    out
}

/// Evenly balanced children tile their container along the axis: the first
/// starts at the container's leading edge, each next one starts one gap after
/// the end of the one before, all have the same size, none reaches past the
/// container's far edge, and across the axis each fills the container.
pub proof fn lemma_balanced_children_tile(b: Bounds, d: Direction, n: int, gap: int, i: int)
    requires
        balance_fits(b, d, n, gap),
        gap >= 0,
        0 <= i < n,
    ensures
        main_start(balanced_child(b, d, n, gap, 0), d) == main_start(b, d),
        main_size(balanced_child(b, d, n, gap, i), d) == child_size(b, d, n, gap),
        i + 1 < n ==> main_start(balanced_child(b, d, n, gap, i + 1), d) == main_start(balanced_child(b, d, n, gap, i), d)
            + main_size(balanced_child(b, d, n, gap, i), d) + gap,
        main_start(balanced_child(b, d, n, gap, i), d) + main_size(balanced_child(b, d, n, gap, i), d) <= main_start(b, d)
            + main_size(b, d),
        match d {
            Direction::Horizontal => balanced_child(b, d, n, gap, i).position.y == b.position.y
                && balanced_child(b, d, n, gap, i).size.height == b.size.height,
            Direction::Vertical => balanced_child(b, d, n, gap, i).position.x == b.position.x
                && balanced_child(b, d, n, gap, i).size.width == b.size.width,
        },
{
    let m = main_size(b, d);
    let s = main_start(b, d);
    let cs = child_size(b, d, n, gap);
    assert(0 <= cs <= m) by (nonlinear_arith)
        requires
            n > 0,
            gap * (n - 1) <= m,
            gap >= 0,
            cs == (m - gap * (n - 1)) / n,
    ;
    assert(n * cs <= m - gap * (n - 1)) by (nonlinear_arith)
        requires
            n > 0,
            m - gap * (n - 1) >= 0,
            cs == (m - gap * (n - 1)) / n,
    ;
    assert(0 <= i * (cs + gap) <= n * (cs + gap)) by (nonlinear_arith)
        requires
            0 <= i < n,
            cs + gap >= 0,
    ;
    assert((i + 1) * (cs + gap) == i * (cs + gap) + cs + gap) by (nonlinear_arith);
    assert(i * (cs + gap) + cs <= n * cs + (n - 1) * gap) by (nonlinear_arith)
        requires
            0 <= i < n,
            cs >= 0,
            gap >= 0,
    ;
    assert(gap * (n - 1) == (n - 1) * gap) by (nonlinear_arith);
    if i + 1 < n {
        assert(0 <= (i + 1) * (cs + gap) <= n * (cs + gap)) by (nonlinear_arith)
            requires
                0 <= i + 1 < n,
                cs + gap >= 0,
        ;
    }
    assert(0 * (cs + gap) == 0);
    assert(s >= i32::MIN);
    assert(s + n * (cs + gap) <= i32::MAX);
    assert(m <= u32::MAX);
}

} // verus!
