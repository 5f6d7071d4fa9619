use vstd::prelude::*;
use crate::geometry::WindowId;
use crate::layouts::{ContainerId, Direction};

verus! {

/// A saved container: its id, its axis, the bit patterns of the `f32` size
/// ratios of its children, and its children.
#[derive(Debug)]
pub struct SerializedContainer {
    pub id: ContainerId,
    pub direction: Direction,
    pub ratios: Vec<u32>,
    pub children: Vec<SerializedContainerChild>,
}

/// A saved child: a container, or a window.
#[derive(Debug)]
pub enum SerializedContainerChild {
    Container(SerializedContainer),
    Window(SerializedWindow),
}

/// A saved window, by its id.
#[derive(Debug, Clone, Copy, PartialEq, Eq, Structural)]
pub struct SerializedWindow {
    pub id: WindowId,
}

/// The mathematical form of a saved container.
pub struct ContainerModel {
    pub id: ContainerId,
    pub direction: Direction,
    pub ratios: Seq<u32>,
    pub children: Seq<ChildModel>,
}

/// The mathematical form of a saved child.
pub enum ChildModel {
    Container(ContainerModel),
    Window(WindowId),
}

/// The mathematical form of `c`.
pub open spec fn model(c: SerializedContainer) -> ContainerModel
    decreases c, 1int, 0int,
{
    ContainerModel {
        id: c.id,
        direction: c.direction,
        ratios: c.ratios@,
        children: children_models(c, c.children@.len() as int),
    }
}

/// The mathematical forms of the first `k` children of `c`.
pub open spec fn children_models(c: SerializedContainer, k: int) -> Seq<ChildModel>
    decreases c, 0int, k,
{
    if k <= 0 || k > c.children@.len() {
        Seq::empty()
    } else {
        let ch = c.children@[k - 1];
        proof {
            assert(decreases_to!(c => c.children));
            assert(decreases_to!(c.children => c.children@));
            assert(decreases_to!(c.children@ => ch));
        }
        children_models(c, k - 1).push(
            match ch {
                SerializedContainerChild::Container(cc) => ChildModel::Container(model(cc)),
                SerializedContainerChild::Window(w) => ChildModel::Window(w.id),
            },
        )
    }
}

/// `v` without the entries at the positions of `removed`, taken from the last
/// to the first; a position past the end is skipped.
pub open spec fn remove_positions(v: Seq<u32>, removed: Seq<usize>) -> Seq<u32>
    decreases removed.len(),
{
    if removed.len() == 0 {
        v
    } else {
        let last = removed.last() as int;
        let v2 = if last < v.len() { v.remove(last) } else { v };
        remove_positions(v2, removed.drop_last())
    }
}

/// The children of `c` among its first `k` that survive, with the positions
/// of those that do not: a window survives when it is available, a container
/// when something of it survives, and a surviving container inside a
/// non-root container that kept a single child is replaced by that child.
pub open spec fn restore_children(c: ContainerModel, has_parent: bool, avail: Set<WindowId>, k: int) -> (
    Seq<ChildModel>,
    Seq<usize>,
)
    decreases c, 0int, k,
{
    if k <= 0 || k > c.children.len() {
        (Seq::empty(), Seq::empty())
    } else {
        let (kept, removed) = restore_children(c, has_parent, avail, k - 1);
        match c.children[k - 1] {
            ChildModel::Window(w) => if avail.contains(w) {
                (kept.push(ChildModel::Window(w)), removed)
            } else {
                (kept, removed.push((k - 1) as usize))
            },
            ChildModel::Container(cc) => match restore(cc, true, avail) {
                None => (kept, removed.push((k - 1) as usize)),
                Some(r) => if r.children.len() == 0 {
                    (kept, removed.push((k - 1) as usize))
                } else if r.children.len() == 1 && has_parent {
                    (kept.push(r.children[0]), removed)
                } else {
                    (kept.push(ChildModel::Container(r)), removed)
                },
            },
        }
    }
}

/// The saved container `c` with the windows that no longer exist left out;
/// `None` when nothing of it survives.
pub open spec fn restore(c: ContainerModel, has_parent: bool, avail: Set<WindowId>) -> Option<ContainerModel>
    decreases c, 1int, 0int,
{
    if c.children.len() == 0 {
        None
    } else {
        let (kept, removed) = restore_children(c, has_parent, avail, c.children.len() as int);
        if kept.len() == 0 {
            None
        } else {
            Some(
                ContainerModel {
                    id: c.id,
                    direction: c.direction,
                    ratios: remove_positions(c.ratios, removed),
                    children: kept,
                },
            )
        }
    }
}


/// The mathematical form of a child.
pub open spec fn child_model(ch: SerializedContainerChild) -> ChildModel {
    match ch {
        SerializedContainerChild::Container(cc) => ChildModel::Container(model(cc)),
        SerializedContainerChild::Window(w) => ChildModel::Window(w.id),
    }
}

/// The mathematical forms of the children, in order.
pub open spec fn child_models(s: Seq<SerializedContainerChild>) -> Seq<ChildModel> {
    s.map_values(|ch: SerializedContainerChild| child_model(ch))
}

proof fn lemma_children_models(c: SerializedContainer, k: int)
    requires
        0 <= k <= c.children@.len(),
    ensures
        children_models(c, k) == child_models(c.children@.subrange(0, k)),
    decreases k,
{
    if k > 0 {
        lemma_children_models(c, k - 1);
        assert(child_models(c.children@.subrange(0, k)) =~= child_models(c.children@.subrange(0, k - 1)).push(
            child_model(c.children@[k - 1]),
        ));
    } else {
        assert(child_models(c.children@.subrange(0, 0)) =~= Seq::<ChildModel>::empty());
    }
}

proof fn lemma_model_children(c: SerializedContainer)
    ensures
        model(c).children == child_models(c.children@),
        model(c).children.len() == c.children@.len(),
{
    lemma_children_models(c, c.children@.len() as int);
    assert(c.children@.subrange(0, c.children@.len() as int) =~= c.children@);
}

fn remove_ratio_positions(ratios: &mut Vec<u32>, removed: &Vec<usize>)
    ensures
        final(ratios)@ == remove_positions(old(ratios)@, removed@),
{
    let mut j: usize = removed.len();
    assert(removed@.subrange(0, j as int) =~= removed@);
    while j > 0
        invariant
            j <= removed@.len(),
            remove_positions(old(ratios)@, removed@) == remove_positions(ratios@, removed@.subrange(0, j as int)),
        decreases j,
    {
        let idx = removed[j - 1];
        let ghost before = ratios@;
        assert(removed@.subrange(0, j as int).drop_last() =~= removed@.subrange(0, j - 1));
        if idx < ratios.len() {
            ratios.remove(idx);
        }
        j = j - 1;
    }
    assert(removed@.subrange(0, 0) =~= Seq::<usize>::empty());
}

fn contains_window(windows: &Vec<WindowId>, w: WindowId) -> (b: bool)
    ensures
        b == windows@.to_set().contains(w),
{
    let mut i: usize = 0;
    while i < windows.len()
        invariant
            i <= windows@.len(),
            forall|j: int| 0 <= j < i ==> windows@[j] != w,
        decreases windows@.len() - i,
    {
        if windows[i] == w {
            assert(windows@.contains(w));
            return true;
        }
        i = i + 1;
    }
    assert(!windows@.contains(w));
    false
}

/// Rebuilds a saved container against the windows that exist now: windows
/// that are gone are left out together with their size ratios, containers
/// left empty disappear, and inside a container that has a parent, a child
/// container left with a single child is replaced by that child. `None` when
/// nothing of the container survives.
pub fn deserialize_container(serialized: &SerializedContainer, has_parent: bool, available: &Vec<WindowId>) -> (r:
    Option<SerializedContainer>)
    ensures
        match r {
            Some(x) => restore(model(*serialized), has_parent, available@.to_set()) == Some(model(x)),
            None => restore(model(*serialized), has_parent, available@.to_set()) is None,
        },
    decreases serialized,
{
    let ghost m = model(*serialized);
    let ghost avail = available@.to_set();
    proof {
        lemma_model_children(*serialized);
    }
    let n = serialized.children.len();
    if n == 0 {
        return None;
    }
    let mut kept: Vec<SerializedContainerChild> = Vec::new();
    let mut removed: Vec<usize> = Vec::new();
    let mut k: usize = 0;
    while k < n
        invariant
            n == serialized.children@.len(),
            m == model(*serialized),
            m.children == child_models(serialized.children@),
            avail == available@.to_set(),
            k <= n,
            (child_models(kept@), removed@) == restore_children(m, has_parent, avail, k as int),
        decreases n - k,
    {
        let ghost before = kept@;
        assert(m.children[k as int] == child_model(serialized.children@[k as int]));
        match &serialized.children[k] {
            SerializedContainerChild::Window(w) => {
                if contains_window(available, w.id) {
                    kept.push(SerializedContainerChild::Window(SerializedWindow { id: w.id }));
                    assert(child_models(kept@) =~= child_models(before).push(ChildModel::Window(w.id)));
                } else {
                    removed.push(k);
                }
            },
            SerializedContainerChild::Container(cc) => {
                proof {
                    assert(decreases_to!(*serialized => serialized.children));
                    assert(decreases_to!(serialized.children => serialized.children@));
                    assert(decreases_to!(serialized.children@ => serialized.children@[k as int]));
                }
                match deserialize_container(cc, true, available) {
                    None => {
                        removed.push(k);
                    },
                    Some(mut child) => {
                        proof {
                            lemma_model_children(child);
                        }
                        let count = child.children.len();
                        if count == 0 {
                            removed.push(k);
                        } else if count == 1 && has_parent {
                            let ghost cm = model(child);
                            let only = child.children.pop().unwrap();
                            assert(cm.children[0] == child_model(only));
                            kept.push(only);
                            assert(child_models(kept@) =~= child_models(before).push(cm.children[0]));
                        } else {
                            let ghost cm = model(child);
                            kept.push(SerializedContainerChild::Container(child));
                            assert(child_models(kept@) =~= child_models(before).push(ChildModel::Container(cm)));
                        }
                    },
                }
            },
        }
        k = k + 1;
    }
    if kept.len() == 0 {
        return None;
    }
    let mut ratios: Vec<u32> = Vec::new();
    for i in 0..serialized.ratios.len()
        invariant
            ratios@ == serialized.ratios@.subrange(0, i as int),
    {
        ratios.push(serialized.ratios[i]);
        assert(ratios@ == serialized.ratios@.subrange(0, i + 1));
    }
    assert(serialized.ratios@.subrange(0, serialized.ratios@.len() as int) == serialized.ratios@);
    remove_ratio_positions(&mut ratios, &removed);
    let out = SerializedContainer { id: serialized.id, direction: serialized.direction, ratios, children: kept };
    proof {
        lemma_model_children(out);
    }
    Some(out)
}

} // verus!

verus! {

/// Every container of `c` has one size ratio per child (and no more children
/// than a `Vec` can hold), and every window of it is one of `avail`.
pub open spec fn sound(c: ContainerModel, avail: Set<WindowId>) -> bool
    decreases c, 1int, 0int,
{
    c.ratios.len() == c.children.len() && c.children.len() <= usize::MAX && children_sound(
        c,
        avail,
        c.children.len() as int,
    )
}

/// What `sound` asks of the first `k` children of `c`.
pub open spec fn children_sound(c: ContainerModel, avail: Set<WindowId>, k: int) -> bool
    decreases c, 0int, k,
{
    if k <= 0 || k > c.children.len() {
        true
    } else {
        children_sound(c, avail, k - 1) && match c.children[k - 1] {
            ChildModel::Container(cc) => sound(cc, avail),
            ChildModel::Window(w) => avail.contains(w),
        }
    }
}

/// Every container of `c` has one size ratio per child (and no more children
/// than a `Vec` can hold).
pub open spec fn aligned(c: ContainerModel) -> bool {
    sound(c, Set::full())
}

/// A child is sound: a sound container, or one of the windows of `avail`.
pub open spec fn child_sound(ch: ChildModel, avail: Set<WindowId>) -> bool {
    match ch {
        ChildModel::Container(cc) => sound(cc, avail),
        ChildModel::Window(w) => avail.contains(w),
    }
}

proof fn lemma_children_sound_get(c: ContainerModel, avail: Set<WindowId>, k: int, i: int)
    requires
        children_sound(c, avail, k),
        0 <= i < k <= c.children.len(),
    ensures
        child_sound(c.children[i], avail),
    decreases k,
{
    if i < k - 1 {
        lemma_children_sound_get(c, avail, k - 1, i);
    }
}

proof fn lemma_children_sound_from(c: ContainerModel, avail: Set<WindowId>, k: int)
    requires
        0 <= k <= c.children.len(),
        forall|i: int| 0 <= i < k ==> child_sound(#[trigger] c.children[i], avail),
    ensures
        children_sound(c, avail, k),
    decreases k,
{
    if k > 0 {
        lemma_children_sound_from(c, avail, k - 1);
    }
}

proof fn lemma_sound_weaken(c: ContainerModel, avail: Set<WindowId>)
    requires
        sound(c, avail),
    ensures
        aligned(c),
    decreases c, 1int, 0int,
{
    assert forall|i: int| 0 <= i < c.children.len() implies child_sound(#[trigger] c.children[i], Set::full()) by {
        lemma_children_sound_get(c, avail, c.children.len() as int, i);
        match c.children[i] {
            ChildModel::Container(cc) => {
                lemma_sound_weaken(cc, avail);
            },
            ChildModel::Window(_) => {},
        }
    }
    lemma_children_sound_from(c, Set::full(), c.children.len() as int);
}

proof fn lemma_remove_positions_len(v: Seq<u32>, removed: Seq<usize>)
    requires
        forall|i: int, j: int| 0 <= i < j < removed.len() ==> removed[i] < removed[j],
        forall|i: int| 0 <= i < removed.len() ==> removed[i] < v.len(),
    ensures
        remove_positions(v, removed).len() == v.len() - removed.len(),
    decreases removed.len(),
{
    if removed.len() > 0 {
        let last = removed.last() as int;
        let v2 = v.remove(last);
        let rest = removed.drop_last();
        assert forall|i: int| 0 <= i < rest.len() implies rest[i] < v2.len() by {
            assert(rest[i] == removed[i]);
            assert(removed[i] < removed[removed.len() - 1]);
        }
        lemma_remove_positions_len(v2, rest);
    }
}

proof fn lemma_restore_children_sound(c: ContainerModel, has_parent: bool, avail: Set<WindowId>, k: int)
    requires
        aligned(c),
        0 <= k <= c.children.len(),
    ensures
        ({
            let (kept, removed) = restore_children(c, has_parent, avail, k);
            &&& kept.len() + removed.len() == k
            &&& forall|i: int, j: int| 0 <= i < j < removed.len() ==> removed[i] < removed[j]
            &&& forall|i: int| 0 <= i < removed.len() ==> removed[i] < k
            &&& forall|i: int| 0 <= i < kept.len() ==> child_sound(#[trigger] kept[i], avail)
        }),
    decreases c, 0int, k,
{
    if k > 0 {
        lemma_restore_children_sound(c, has_parent, avail, k - 1);
        let (kept, removed) = restore_children(c, has_parent, avail, k - 1);
        assert((k - 1) as usize == k - 1);
        lemma_children_sound_get(c, Set::full(), c.children.len() as int, k - 1);
        match c.children[k - 1] {
            ChildModel::Window(w) => {
                if avail.contains(w) {
                    let nk = kept.push(ChildModel::Window(w));
                    assert forall|i: int| 0 <= i < nk.len() implies child_sound(#[trigger] nk[i], avail) by {
                        if i < kept.len() {
                            assert(nk[i] == kept[i]);
                        }
                    }
                } else {
                    let nr = removed.push((k - 1) as usize);
                    assert forall|i: int| 0 <= i < nr.len() implies nr[i] < k by {
                        if i < removed.len() {
                            assert(nr[i] == removed[i]);
                        }
                    }
                    assert forall|i: int, j: int| 0 <= i < j < nr.len() implies nr[i] < nr[j] by {
                        if j < removed.len() {
                            assert(nr[i] == removed[i] && nr[j] == removed[j]);
                        } else {
                            assert(nr[i] == removed[i]);
                        }
                    }
                }
            },
            ChildModel::Container(cc) => {
                lemma_restore_sound(cc, true, avail);
                let nr = removed.push((k - 1) as usize);
                assert forall|i: int| 0 <= i < nr.len() implies nr[i] < k by {
                    if i < removed.len() {
                        assert(nr[i] == removed[i]);
                    }
                }
                assert forall|i: int, j: int| 0 <= i < j < nr.len() implies nr[i] < nr[j] by {
                    if j < removed.len() {
                        assert(nr[i] == removed[i] && nr[j] == removed[j]);
                    } else {
                        assert(nr[i] == removed[i]);
                    }
                }
                match restore(cc, true, avail) {
                    None => {},
                    Some(r) => {
                        if r.children.len() == 0 {
                        } else if r.children.len() == 1 && has_parent {
                            lemma_children_sound_get(r, avail, r.children.len() as int, 0);
                            let nk = kept.push(r.children[0]);
                            assert forall|i: int| 0 <= i < nk.len() implies child_sound(#[trigger] nk[i], avail) by {
                                if i < kept.len() {
                                    assert(nk[i] == kept[i]);
                                }
                            }
                        } else {
                            let nk = kept.push(ChildModel::Container(r));
                            assert forall|i: int| 0 <= i < nk.len() implies child_sound(#[trigger] nk[i], avail) by {
                                if i < kept.len() {
                                    assert(nk[i] == kept[i]);
                                }
                            }
                        }
                    },
                }
            },
        }
    }
}

/// Restoring a saved container whose containers each have one size ratio per
/// child gives a container with the same property, holding only windows that
/// exist now.
pub proof fn lemma_restore_sound(c: ContainerModel, has_parent: bool, avail: Set<WindowId>)
    requires
        aligned(c),
    ensures
        restore(c, has_parent, avail) matches Some(r) ==> sound(r, avail),
    decreases c, 1int, 0int,
{
    if c.children.len() > 0 {
        lemma_restore_children_sound(c, has_parent, avail, c.children.len() as int);
        let (kept, removed) = restore_children(c, has_parent, avail, c.children.len() as int);
        if kept.len() > 0 {
            lemma_remove_positions_len(c.ratios, removed);
            let r = ContainerModel {
                id: c.id,
                direction: c.direction,
                ratios: remove_positions(c.ratios, removed),
                children: kept,
            };
            lemma_children_sound_from(r, avail, kept.len() as int);
        }
    }
}

} // verus!
