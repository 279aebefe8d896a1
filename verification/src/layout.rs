use vstd::prelude::*;
use crate::text::{decimal, push_char, push_decimal};

verus! {

/// The axis along which a split divides its area.
#[derive(Clone, Copy, Debug, PartialEq, Eq, Structural)]
pub enum SplitDirection {
    /// Children are stacked vertically; the split divides the height.
    TopBottom,
    /// Children sit side by side; the split divides the width.
    LeftRight,
}

/// A pane's position and size, in cells.
#[derive(Clone, Copy, Debug, Default, PartialEq, Eq, Structural)]
pub struct PaneRect {
    pub top: u16,
    pub left: u16,
    pub height: u16,
    pub width: u16,
}

/// A layout tree: leaves are panes named by stable id, inner nodes split
/// their area among their children along one axis.
#[derive(Debug)]
pub enum LayoutCell {
    Pane { pane_id: u32, rect: PaneRect },
    Split { direction: SplitDirection, rect: PaneRect, children: Vec<LayoutCell> },
}

impl LayoutCell {
    pub open spec fn spec_rect(self) -> PaneRect {
        match self {
            LayoutCell::Pane { rect, .. } => rect,
            LayoutCell::Split { rect, .. } => rect,
        }
    }

    /// The leaves of the tree, left to right.
    pub open spec fn leaves(self) -> Seq<(u32, PaneRect)>
        decreases self, 0nat,
    {
        match self {
            LayoutCell::Pane { pane_id, rect } => seq![(pane_id, rect)],
            LayoutCell::Split { children, .. } => leaves_of(children@),
        }
    }
}

pub open spec fn leaves_of(cells: Seq<LayoutCell>) -> Seq<(u32, PaneRect)>
    decreases cells, cells.len(),
{
    if cells.len() == 0 {
        Seq::empty()
    } else {
        leaves_of(cells.drop_last()) + cells.last().leaves()
    }
}


/// The pane ids of a sequence of leaves, in order.
pub open spec fn ids_of(leaves: Seq<(u32, PaneRect)>) -> Seq<u32> {
    leaves.map_values(|leaf: (u32, PaneRect)| leaf.0)
}

/// The rectangle of the first leaf named `pane_id`, if any.
pub open spec fn find_rect(leaves: Seq<(u32, PaneRect)>, pane_id: u32) -> Option<PaneRect>
    decreases leaves.len(),
{
    if leaves.len() == 0 {
        None
    } else if leaves[0].0 == pane_id {
        Some(leaves[0].1)
    } else {
        find_rect(leaves.drop_first(), pane_id)
    }
}

pub proof fn lemma_find_rect_append(a: Seq<(u32, PaneRect)>, b: Seq<(u32, PaneRect)>, pane_id: u32)
    ensures
        find_rect(a + b, pane_id) == (match find_rect(a, pane_id) {
            Some(r) => Some(r),
            None => find_rect(b, pane_id),
        }),
    decreases a.len(),
{
    if a.len() == 0 {
        assert(a + b =~= b);
    } else {
        assert((a + b).drop_first() =~= a.drop_first() + b);
        lemma_find_rect_append(a.drop_first(), b, pane_id);
    }
}

pub proof fn lemma_find_rect_some(leaves: Seq<(u32, PaneRect)>, pane_id: u32)
    ensures
        find_rect(leaves, pane_id) is Some <==> ids_of(leaves).contains(pane_id),
    decreases leaves.len(),
{
    if leaves.len() > 0 {
        lemma_find_rect_some(leaves.drop_first(), pane_id);
        assert(ids_of(leaves.drop_first()) =~= ids_of(leaves).drop_first());
        if ids_of(leaves).contains(pane_id) && leaves[0].0 != pane_id {
            let k = choose|k: int| 0 <= k < ids_of(leaves).len() && ids_of(leaves)[k] == pane_id;
            assert(ids_of(leaves.drop_first())[k - 1] == pane_id);
        }
        if ids_of(leaves.drop_first()).contains(pane_id) {
            let k = choose|k: int| 0 <= k < ids_of(leaves.drop_first()).len() && ids_of(leaves.drop_first())[k] == pane_id;
            assert(ids_of(leaves)[k + 1] == pane_id);
        }
        if leaves[0].0 == pane_id {
            assert(ids_of(leaves)[0] == pane_id);
        }
    }
}

/// The leaves of the first `i` cells, extended by the next one.
pub proof fn lemma_leaves_of_take(cells: Seq<LayoutCell>, i: int)
    requires
        0 <= i < cells.len(),
    ensures
        leaves_of(cells.take(i + 1)) == leaves_of(cells.take(i)) + cells[i].leaves(),
{
    assert(cells.take(i + 1).drop_last() =~= cells.take(i));
}

/// The leaves of a sequence of cells split at `k`.
pub proof fn lemma_leaves_of_split(cells: Seq<LayoutCell>, k: int)
    requires
        0 <= k <= cells.len(),
    ensures
        leaves_of(cells) == leaves_of(cells.take(k)) + leaves_of(cells.skip(k)),
    decreases cells.len(),
{
    if k == cells.len() {
        assert(cells.take(k) =~= cells);
        assert(cells.skip(k) =~= Seq::<LayoutCell>::empty());
        assert(leaves_of(cells) + Seq::<(u32, PaneRect)>::empty() =~= leaves_of(cells));
    } else {
        lemma_leaves_of_split(cells.drop_last(), k);
        assert(cells.drop_last().take(k) =~= cells.take(k));
        assert(cells.skip(k).drop_last() =~= cells.drop_last().skip(k));
        assert(cells.skip(k).last() == cells.last());
        assert(leaves_of(cells.take(k)) + leaves_of(cells.skip(k)) =~= leaves_of(cells.take(k))
            + leaves_of(cells.drop_last().skip(k)) + cells.last().leaves());
    }
}

/// A pane found among the first `k` cells is a pane of all of them.
pub proof fn lemma_leaves_of_prefix_in_all(cells: Seq<LayoutCell>, k: int)
    requires
        0 <= k <= cells.len(),
    ensures
        forall|id: u32| ids_of(leaves_of(cells.take(k))).contains(id) ==> ids_of(leaves_of(cells)).contains(id),
{
    lemma_leaves_of_split(cells, k);
    assert forall|id: u32| ids_of(leaves_of(cells.take(k))).contains(id) implies ids_of(leaves_of(cells)).contains(id) by {
        lemma_find_rect_some(leaves_of(cells.take(k)), id);
        lemma_find_rect_some(leaves_of(cells), id);
        lemma_find_rect_append(leaves_of(cells.take(k)), leaves_of(cells.skip(k)), id);
    }
}

/// Leaves of a sequence depend only on the leaves of each cell.
pub proof fn lemma_leaves_of_pointwise(a: Seq<LayoutCell>, b: Seq<LayoutCell>)
    requires
        a.len() == b.len(),
        forall|j: int| 0 <= j < a.len() ==> #[trigger] a[j].leaves() == b[j].leaves(),
    ensures
        leaves_of(a) == leaves_of(b),
    decreases a.len(),
{
    if a.len() > 0 {
        lemma_leaves_of_pointwise(a.drop_last(), b.drop_last());
        assert(a[a.len() - 1].leaves() == b[b.len() - 1].leaves());
    }
}

/// Leaves of a sequence around its `i`-th cell.
pub proof fn lemma_leaves_of_at(cells: Seq<LayoutCell>, i: int)
    requires
        0 <= i < cells.len(),
    ensures
        leaves_of(cells) == leaves_of(cells.take(i)) + cells[i].leaves() + leaves_of(cells.skip(i + 1)),
{
    lemma_leaves_of_split(cells, i + 1);
    lemma_leaves_of_take(cells, i);
}

/// Leaves of a sequence after its `i`-th cell is replaced.
pub proof fn lemma_leaves_of_update(a: Seq<LayoutCell>, b: Seq<LayoutCell>, i: int)
    requires
        0 <= i < a.len(),
        a.len() == b.len(),
        forall|j: int| 0 <= j < a.len() && j != i ==> #[trigger] a[j].leaves() == b[j].leaves(),
    ensures
        leaves_of(b) == leaves_of(a.take(i)) + b[i].leaves() + leaves_of(a.skip(i + 1)),
{
    lemma_leaves_of_at(b, i);
    lemma_leaves_of_pointwise(a.take(i), b.take(i));
    lemma_leaves_of_pointwise(a.skip(i + 1), b.skip(i + 1));
}

/// Sequences of cells with the same ids cell by cell have the same ids.
pub proof fn lemma_ids_of_cells_pointwise(a: Seq<LayoutCell>, b: Seq<LayoutCell>)
    requires
        a.len() == b.len(),
        forall|j: int| 0 <= j < a.len() ==> #[trigger] a[j].ids() == b[j].ids(),
    ensures
        ids_of(leaves_of(a)) == ids_of(leaves_of(b)),
    decreases a.len(),
{
    if a.len() > 0 {
        lemma_ids_of_cells_pointwise(a.drop_last(), b.drop_last());
        assert(a[a.len() - 1].ids() == b[b.len() - 1].ids());
        lemma_ids_of_append(leaves_of(a.drop_last()), a.last().leaves());
        lemma_ids_of_append(leaves_of(b.drop_last()), b.last().leaves());
    }
}

pub proof fn lemma_leaves_of_all(cells: Seq<LayoutCell>)
    ensures
        leaves_of(cells.take(cells.len() as int)) == leaves_of(cells),
{
    assert(cells.take(cells.len() as int) =~= cells);
}

impl PaneRect {
    /// The extent along `direction`.
    pub open spec fn spec_axis(self, direction: SplitDirection) -> u16 {
        match direction {
            SplitDirection::TopBottom => self.height,
            SplitDirection::LeftRight => self.width,
        }
    }

    /// This rectangle with its extent along `direction` replaced.
    pub open spec fn with_axis(self, direction: SplitDirection, value: u16) -> PaneRect {
        match direction {
            SplitDirection::TopBottom => PaneRect { height: value, ..self },
            SplitDirection::LeftRight => PaneRect { width: value, ..self },
        }
    }

    pub fn axis(self, direction: SplitDirection) -> (size: u16)
        ensures
            size == self.spec_axis(direction),
    {
        match direction {
            SplitDirection::TopBottom => self.height,
            SplitDirection::LeftRight => self.width,
        }
    }

    pub fn set_axis(&mut self, direction: SplitDirection, value: u16)
        ensures
            *final(self) == old(self).with_axis(direction, value),
    {
        match direction {
            SplitDirection::TopBottom => self.height = value,
            SplitDirection::LeftRight => self.width = value,
        }
    }
}

impl LayoutCell {
    /// The pane ids of the tree, left to right.
    pub open spec fn ids(self) -> Seq<u32> {
        ids_of(self.leaves())
    }

    pub fn rect(&self) -> (rect: PaneRect)
        ensures
            rect == self.spec_rect(),
    {
        match self {
            LayoutCell::Pane { rect, .. } => *rect,
            LayoutCell::Split { rect, .. } => *rect,
        }
    }

    /// Whether some leaf of the tree is the pane `pane_id`.
    #[verifier::loop_isolation(false)]
    pub fn contains(&self, pane_id: u32) -> (found: bool)
        ensures
            found == self.ids().contains(pane_id),
        decreases self,
    {
        proof {
            lemma_find_rect_some(self.leaves(), pane_id);
        }
        match self {
            LayoutCell::Pane { pane_id: id, .. } => {
                assert(self.ids() =~= seq![*id]);
                if *id == pane_id {
                    assert(self.ids()[0] == pane_id);
                }
                *id == pane_id
            },
            LayoutCell::Split { children, .. } => {
                let mut i: usize = 0;
                while i < children.len()
                    invariant
                        0 <= i <= children.len(),
                        self.leaves() == leaves_of(children@),
                        !ids_of(leaves_of(children@.take(i as int))).contains(pane_id),
                    decreases children.len() - i,
                {
                    proof {
                        lemma_leaves_of_take(children@, i as int);
                        lemma_find_rect_append(leaves_of(children@.take(i as int)), children@[i as int].leaves(), pane_id);
                        lemma_find_rect_some(leaves_of(children@.take(i as int)), pane_id);
                        lemma_find_rect_some(children@[i as int].leaves(), pane_id);
                        lemma_find_rect_some(leaves_of(children@.take(i + 1)), pane_id);
                    }
                    assert(decreases_to!(self => children@[i as int]));
                    if children[i].contains(pane_id) {
                        proof {
                            lemma_leaves_of_prefix_in_all(children@, i + 1);
                        }
                        return true;
                    }
                    i += 1;
                }
                proof {
                    lemma_leaves_of_all(children@);
                }
                false
            },
        }
    }
}


/// The leaves with the first leaf named `old` renamed `new`.
pub open spec fn replace_first(leaves: Seq<(u32, PaneRect)>, old: u32, new: u32) -> Seq<(u32, PaneRect)>
    decreases leaves.len(),
{
    if leaves.len() == 0 {
        leaves
    } else if leaves[0].0 == old {
        leaves.update(0, (new, leaves[0].1))
    } else {
        seq![leaves[0]] + replace_first(leaves.drop_first(), old, new)
    }
}

pub proof fn lemma_replace_first_append(a: Seq<(u32, PaneRect)>, b: Seq<(u32, PaneRect)>, old: u32, new: u32)
    ensures
        replace_first(a + b, old, new) == if ids_of(a).contains(old) {
            replace_first(a, old, new) + b
        } else {
            a + replace_first(b, old, new)
        },
    decreases a.len(),
{
    lemma_find_rect_some(a, old);
    if a.len() == 0 {
        assert(a + b =~= b);
    } else {
        assert((a + b).drop_first() =~= a.drop_first() + b);
        lemma_replace_first_append(a.drop_first(), b, old, new);
        lemma_find_rect_some(a.drop_first(), old);
        if a[0].0 == old {
            assert((a + b).update(0, (new, a[0].1)) =~= a.update(0, (new, a[0].1)) + b);
        } else {
            assert(seq![a[0]] + (replace_first(a.drop_first(), old, new) + b) =~= (seq![a[0]]
                + replace_first(a.drop_first(), old, new)) + b);
            assert(seq![a[0]] + (a.drop_first() + replace_first(b, old, new)) =~= a + replace_first(b, old, new));
        }
    }
}

pub proof fn lemma_replace_first_absent(leaves: Seq<(u32, PaneRect)>, old: u32, new: u32)
    requires
        !ids_of(leaves).contains(old),
    ensures
        replace_first(leaves, old, new) == leaves,
    decreases leaves.len(),
{
    if leaves.len() > 0 {
        assert(ids_of(leaves)[0] == leaves[0].0);
        assert forall|k: int| 0 <= k < ids_of(leaves.drop_first()).len() implies ids_of(leaves.drop_first())[k] != old by {
            assert(ids_of(leaves)[k + 1] == ids_of(leaves.drop_first())[k]);
        }
        lemma_replace_first_absent(leaves.drop_first(), old, new);
        assert(seq![leaves[0]] + leaves.drop_first() =~= leaves);
    }
}

impl LayoutCell {
    /// Rename the first leaf named `old_id` to `new_id`; whether one was found.
    #[verifier::loop_isolation(false)]
    pub fn replace_pane(&mut self, old_id: u32, new_id: u32) -> (replaced: bool)
        ensures
            replaced == old(self).ids().contains(old_id),
            final(self).leaves() == replace_first(old(self).leaves(), old_id, new_id),
            final(self).spec_rect() == old(self).spec_rect(),
        decreases *old(self),
    {
        proof {
            lemma_find_rect_some(self.leaves(), old_id);
        }
        match self {
            LayoutCell::Pane { pane_id, rect } => {
                if *pane_id == old_id {
                    proof {
                        let r = *rect;
                        assert(seq![(old_id, r)].update(0, (new_id, r)) =~= seq![(new_id, r)]);
                    }
                    *pane_id = new_id;
                    true
                } else {
                    proof {
                        assert(ids_of(seq![(*pane_id, *rect)]) =~= seq![*pane_id]);
                        lemma_replace_first_absent(seq![(*pane_id, *rect)], old_id, new_id);
                    }
                    false
                }
            },
            LayoutCell::Split { children, .. } => {
                let mut i: usize = 0;
                let ghost orig = children@;
                while i < children.len()
                    invariant
                        0 <= i <= children.len(),
                        children@.len() == orig.len(),
                        forall|j: int| 0 <= j < orig.len() ==> (#[trigger] children@[j]).leaves() == orig[j].leaves()
                            && children@[j].spec_rect() == orig[j].spec_rect(),
                        forall|j: int| i <= j < orig.len() ==> #[trigger] children@[j] == orig[j],
                        !ids_of(leaves_of(orig.take(i as int))).contains(old_id),
                    decreases children.len() - i,
                {
                    assert(decreases_to!(*old(self) => orig[i as int]));
                    proof {
                        lemma_leaves_of_take(orig, i as int);
                        lemma_find_rect_some(leaves_of(orig.take(i as int)), old_id);
                        lemma_find_rect_some(orig[i as int].leaves(), old_id);
                        lemma_find_rect_some(leaves_of(orig.take(i + 1)), old_id);
                        lemma_find_rect_append(leaves_of(orig.take(i as int)), orig[i as int].leaves(), old_id);
                    }
                    let found = children[i].replace_pane(old_id, new_id);
                    if found {
                        proof {
                            lemma_leaves_of_update(orig, children@, i as int);
                            lemma_leaves_of_at(orig, i as int);
                            let pre = leaves_of(orig.take(i as int));
                            let mid = orig[i as int].leaves();
                            let post = leaves_of(orig.skip(i + 1));
                            lemma_replace_first_append(pre, mid + post, old_id, new_id);
                            lemma_replace_first_append(mid, post, old_id, new_id);
                            assert(pre + mid + post =~= pre + (mid + post));
                            assert(pre + (replace_first(mid, old_id, new_id) + post) =~= pre + replace_first(mid, old_id, new_id) + post);
                            lemma_leaves_of_prefix_in_all(orig, i + 1);
                        }
                        return true;
                    }
                    proof {
                        lemma_replace_first_absent(orig[i as int].leaves(), old_id, new_id);
                    }
                    i += 1;
                }
                proof {
                    lemma_leaves_of_all(orig);
                    lemma_leaves_of_pointwise(orig, children@);
                    lemma_replace_first_absent(leaves_of(orig), old_id, new_id);
                }
                false
            },
        }
    }
}


impl LayoutCell {
    /// A single pane filling `width` by `height` cells at the origin; a zero
    /// extent is widened to one cell.
    pub fn pane(pane_id: u32, width: u16, height: u16) -> (cell: LayoutCell)
        ensures
            cell == (LayoutCell::Pane {
                pane_id,
                rect: PaneRect {
                    top: 0,
                    left: 0,
                    height: if height == 0 { 1 } else { height },
                    width: if width == 0 { 1 } else { width },
                },
            }),
    {
        LayoutCell::Pane {
            pane_id,
            rect: PaneRect {
                top: 0,
                left: 0,
                height: if height < 1 { 1 } else { height },
                width: if width < 1 { 1 } else { width },
            },
        }
    }

    /// The rectangle of the first leaf named `pane_id`.
    #[verifier::loop_isolation(false)]
    pub fn pane_rect(&self, pane_id: u32) -> (found: Option<PaneRect>)
        ensures
            found == find_rect(self.leaves(), pane_id),
        decreases self,
    {
        match self {
            LayoutCell::Pane { pane_id: id, rect } => {
                assert(self.leaves()[0] == (*id, *rect));
                if *id == pane_id {
                    Some(*rect)
                } else {
                    proof {
                        assert(seq![(*id, *rect)].drop_first() =~= Seq::<(u32, PaneRect)>::empty());
                        assert(find_rect(Seq::<(u32, PaneRect)>::empty(), pane_id) is None);
                        assert(self.leaves() == seq![(*id, *rect)]);
                    }
                    None
                }
            },
            LayoutCell::Split { children, .. } => {
                let mut i: usize = 0;
                while i < children.len()
                    invariant
                        0 <= i <= children.len(),
                        find_rect(leaves_of(children@.take(i as int)), pane_id) is None,
                    decreases children.len() - i,
                {
                    proof {
                        lemma_leaves_of_take(children@, i as int);
                        lemma_find_rect_append(leaves_of(children@.take(i as int)), children@[i as int].leaves(), pane_id);
                    }
                    assert(decreases_to!(self => children@[i as int]));
                    let r = children[i].pane_rect(pane_id);
                    if r.is_some() {
                        proof {
                            lemma_leaves_of_split(children@, i + 1);
                            lemma_find_rect_append(leaves_of(children@.take(i + 1)), leaves_of(children@.skip(i + 1)), pane_id);
                        }
                        return r;
                    }
                    i += 1;
                }
                proof {
                    lemma_leaves_of_all(children@);
                }
                None
            },
        }
    }

    /// Append every leaf of the tree, left to right, to `panes`.
    #[verifier::loop_isolation(false)]
    pub fn collect_panes(&self, panes: &mut Vec<(u32, PaneRect)>)
        ensures
            final(panes)@ == old(panes)@ + self.leaves(),
        decreases self,
    {
        match self {
            LayoutCell::Pane { pane_id, rect } => {
                panes.push((*pane_id, *rect));
            },
            LayoutCell::Split { children, .. } => {
                let ghost start = panes@;
                let mut i: usize = 0;
                while i < children.len()
                    invariant
                        0 <= i <= children.len(),
                        panes@ == start + leaves_of(children@.take(i as int)),
                    decreases children.len() - i,
                {
                    proof {
                        lemma_leaves_of_take(children@, i as int);
                    }
                    assert(decreases_to!(self => children@[i as int]));
                    children[i].collect_panes(panes);
                    proof {
                        assert(start + leaves_of(children@.take(i as int)) + children@[i as int].leaves()
                            =~= start + leaves_of(children@.take(i + 1)));
                    }
                    i += 1;
                }
                proof {
                    lemma_leaves_of_all(children@);
                }
            },
        }
    }

    /// Every leaf of the tree, left to right.
    pub fn panes(&self) -> (panes: Vec<(u32, PaneRect)>)
        ensures
            panes@ == self.leaves(),
    {
        let mut panes = Vec::new();
        self.collect_panes(&mut panes);
        proof {
            assert(Seq::<(u32, PaneRect)>::empty() + self.leaves() =~= self.leaves());
        }
        panes
    }

    /// Collapse the tree to the single pane `pane_id` over the same area.
    pub fn keep_only(&mut self, pane_id: u32)
        ensures
            *final(self) == (LayoutCell::Pane { pane_id, rect: old(self).spec_rect() }),
    {
        let rect = self.rect();
        *self = LayoutCell::Pane { pane_id, rect };
    }

    /// Exchange the names of panes `first` and `second`, parking `first` at
    /// `u32::MAX` while the second is renamed. In a layout whose pane ids
    /// are distinct and never `u32::MAX`, the two panes swap places and
    /// nothing else changes.
    pub fn swap_panes(&mut self, first: u32, second: u32)
        ensures
            first == second ==> final(self).leaves() == old(self).leaves(),
            first != u32::MAX && second != u32::MAX && old(self).ids().no_duplicates()
                && !old(self).ids().contains(u32::MAX) ==> final(self).leaves() == swapped(old(self).leaves(), first, second),
            first != second ==> final(self).leaves() == replace_first(
                replace_first(replace_first(old(self).leaves(), first, u32::MAX), second, first),
                u32::MAX,
                second,
            ),
            final(self).spec_rect() == old(self).spec_rect(),
    {
        if first == second {
            proof {
                assert(old(self).leaves() =~= swapped(old(self).leaves(), first, second));
            }
            return;
        }
        self.replace_pane(first, u32::MAX);
        self.replace_pane(second, first);
        self.replace_pane(u32::MAX, second);
        proof {
            let l = old(self).leaves();
            if first != u32::MAX && second != u32::MAX && ids_of(l).no_duplicates() && !ids_of(l).contains(u32::MAX) {
                lemma_swap_by_renaming(l, first, second);
            }
        }
    }
}

/// The leaves with the names `a` and `b` exchanged.
pub open spec fn swapped(leaves: Seq<(u32, PaneRect)>, a: u32, b: u32) -> Seq<(u32, PaneRect)> {
    leaves.map_values(|l: (u32, PaneRect)| (if l.0 == a { b } else if l.0 == b { a } else { l.0 }, l.1))
}

/// The leaves with every `old` renamed to `new`.
pub open spec fn renamed_all(leaves: Seq<(u32, PaneRect)>, old: u32, new: u32) -> Seq<(u32, PaneRect)> {
    leaves.map_values(|l: (u32, PaneRect)| if l.0 == old { (new, l.1) } else { l })
}

/// `x` occurs at most once in `ids`.
pub open spec fn at_most_once(ids: Seq<u32>, x: u32) -> bool {
    forall|i: int, j: int| 0 <= i < ids.len() && 0 <= j < ids.len() && ids[i] == x && ids[j] == x ==> i == j
}

/// Renaming the first `old` renames every `old` when there is at most one.
pub proof fn lemma_replace_first_once(leaves: Seq<(u32, PaneRect)>, old: u32, new: u32)
    requires
        at_most_once(ids_of(leaves), old),
    ensures
        replace_first(leaves, old, new) == renamed_all(leaves, old, new),
    decreases leaves.len(),
{
    if leaves.len() > 0 {
        let rest = leaves.drop_first();
        assert forall|i: int, j: int| 0 <= i < ids_of(rest).len() && 0 <= j < ids_of(rest).len() && ids_of(rest)[i] == old
            && ids_of(rest)[j] == old implies i == j by {
            assert(ids_of(leaves)[i + 1] == ids_of(rest)[i]);
            assert(ids_of(leaves)[j + 1] == ids_of(rest)[j]);
        }
        if leaves[0].0 == old {
            assert(ids_of(leaves)[0] == old);
            assert forall|k: int| 0 <= k < leaves.len() && k != 0 implies leaves[k].0 != old by {
                assert(ids_of(leaves)[k] == leaves[k].0);
            }
            assert(leaves.update(0, (new, leaves[0].1)) =~= renamed_all(leaves, old, new));
        } else {
            lemma_replace_first_once(rest, old, new);
            assert(seq![leaves[0]] + renamed_all(rest, old, new) =~= renamed_all(leaves, old, new));
        }
    }
}

/// Parking `a` at `u32::MAX`, renaming `b` to `a`, then the parked pane to
/// `b` swaps the two names, when names are distinct and none is `u32::MAX`.
pub proof fn lemma_swap_by_renaming(l: Seq<(u32, PaneRect)>, a: u32, b: u32)
    requires
        a != b,
        a != u32::MAX,
        b != u32::MAX,
        ids_of(l).no_duplicates(),
        !ids_of(l).contains(u32::MAX),
    ensures
        replace_first(replace_first(replace_first(l, a, u32::MAX), b, a), u32::MAX, b) == swapped(l, a, b),
{
    let l1 = renamed_all(l, a, u32::MAX);
    let l2 = renamed_all(l1, b, a);
    assert(at_most_once(ids_of(l), a));
    lemma_replace_first_once(l, a, u32::MAX);
    assert forall|i: int, j: int| 0 <= i < ids_of(l1).len() && 0 <= j < ids_of(l1).len() && ids_of(l1)[i] == b
        && ids_of(l1)[j] == b implies i == j by {
        assert(ids_of(l)[i] == b);
        assert(ids_of(l)[j] == b);
    }
    lemma_replace_first_once(l1, b, a);
    assert forall|i: int, j: int| 0 <= i < ids_of(l2).len() && 0 <= j < ids_of(l2).len() && ids_of(l2)[i] == u32::MAX
        && ids_of(l2)[j] == u32::MAX implies i == j by {
        assert(ids_of(l)[i] != u32::MAX);
        assert(ids_of(l)[i] == a);
        assert(ids_of(l)[j] == a);
    }
    lemma_replace_first_once(l2, u32::MAX, b);
    assert forall|k: int| 0 <= k < l.len() implies #[trigger] renamed_all(l2, u32::MAX, b)[k] == swapped(l, a, b)[k] by {
        assert(ids_of(l)[k] == l[k].0);
        assert(ids_of(l)[k] != u32::MAX);
    }
    assert(renamed_all(l2, u32::MAX, b) =~= swapped(l, a, b));
}


/// The tree with its root rectangle replaced.
pub open spec fn with_rect(cell: LayoutCell, rect: PaneRect) -> LayoutCell {
    match cell {
        LayoutCell::Pane { pane_id, .. } => LayoutCell::Pane { pane_id, rect },
        LayoutCell::Split { direction, children, .. } => LayoutCell::Split { direction, rect, children },
    }
}

impl LayoutCell {
    pub fn rect_mut(&mut self) -> (rect: &mut PaneRect)
        ensures
            *rect == old(self).spec_rect(),
            *final(self) == with_rect(*old(self), *final(rect)),
    {
        match self {
            LayoutCell::Pane { rect, .. } => rect,
            LayoutCell::Split { rect, .. } => rect,
        }
    }
}


/// Saturating addition on cells, as `u16::saturating_add` computes it.
pub open spec fn sat_add(a: u16, b: u16) -> u16 {
    if a + b > u16::MAX {
        u16::MAX
    } else {
        (a + b) as u16
    }
}

/// Saturating subtraction on cells, as `u16::saturating_sub` computes it.
pub open spec fn sat_sub(a: u16, b: u16) -> u16 {
    if a < b {
        0
    } else {
        (a - b) as u16
    }
}

/// Where the next child starts: after `extent` cells and one separator.
pub open spec fn next_offset(start: u16, extent: u16) -> u16 {
    sat_add(sat_add(start, extent), 1)
}

/// The offset along `direction` at which the `i`-th child begins.
pub open spec fn offset_at(children: Seq<LayoutCell>, direction: SplitDirection, origin: u16, i: int) -> u16
    decreases i,
{
    if i <= 0 {
        origin
    } else {
        next_offset(
            offset_at(children, direction, origin, i - 1),
            children[i - 1].spec_rect().spec_axis(direction),
        )
    }
}

/// The rectangle the `i`-th child of a split over `parent` occupies: its own
/// extent along the split, the parent's across it.
pub open spec fn placed(parent: PaneRect, direction: SplitDirection, children: Seq<LayoutCell>, i: int) -> PaneRect {
    let extent = children[i].spec_rect().spec_axis(direction);
    match direction {
        SplitDirection::LeftRight => PaneRect {
            top: parent.top,
            left: offset_at(children, direction, parent.left, i),
            height: parent.height,
            width: extent,
        },
        SplitDirection::TopBottom => PaneRect {
            top: offset_at(children, direction, parent.top, i),
            left: parent.left,
            height: extent,
            width: parent.width,
        },
    }
}

impl LayoutCell {
    /// How many splits lie on the longest path to a leaf.
    pub open spec fn depth(self) -> nat
        decreases self, 0nat,
    {
        match self {
            LayoutCell::Pane { .. } => 0,
            LayoutCell::Split { children, .. } => 1 + depth_of(children@),
        }
    }

    /// Every split places its children one after another along its axis,
    /// one separator cell apart, each spanning the split across it.
    pub open spec fn laid_out(self) -> bool
        decreases self,
    {
        match self {
            LayoutCell::Pane { .. } => true,
            LayoutCell::Split { direction, rect, children } => forall|i: int|
                0 <= i < children.len() ==> (#[trigger] children@[i]).spec_rect() == placed(rect, direction, children@, i)
                    && children@[i].laid_out(),
        }
    }
}

pub open spec fn depth_of(cells: Seq<LayoutCell>) -> nat
    decreases cells, cells.len(),
{
    if cells.len() == 0 {
        0
    } else {
        let rest = depth_of(cells.drop_last());
        let last = cells.last().depth();
        if rest < last { last } else { rest }
    }
}

pub proof fn lemma_depth_of_child(cells: Seq<LayoutCell>, i: int)
    requires
        0 <= i < cells.len(),
    ensures
        cells[i].depth() <= depth_of(cells),
    decreases cells.len(),
{
    if i < cells.len() - 1 {
        lemma_depth_of_child(cells.drop_last(), i);
    }
}

/// Two trees with the same structure, the same panes, and the same extent
/// along every split's axis; only offsets and cross extents may differ.
pub open spec fn same_extents(a: LayoutCell, b: LayoutCell) -> bool
    decreases a,
{
    match (a, b) {
        (LayoutCell::Pane { pane_id: x, .. }, LayoutCell::Pane { pane_id: y, .. }) => x == y,
        (
            LayoutCell::Split { direction: d, children: xs, .. },
            LayoutCell::Split { direction: e, children: ys, .. },
        ) => d == e && xs.len() == ys.len() && forall|i: int|
            0 <= i < xs.len() ==> (#[trigger] xs@[i]).spec_rect().spec_axis(d) == ys@[i].spec_rect().spec_axis(d)
                && same_extents(xs@[i], ys@[i]),
        _ => false,
    }
}


pub proof fn lemma_ids_of_append(a: Seq<(u32, PaneRect)>, b: Seq<(u32, PaneRect)>)
    ensures
        ids_of(a + b) == ids_of(a) + ids_of(b),
{
    assert(ids_of(a + b) =~= ids_of(a) + ids_of(b));
}

pub proof fn lemma_same_extents_ids(a: LayoutCell, b: LayoutCell)
    requires
        same_extents(a, b),
    ensures
        a.ids() == b.ids(),
    decreases a, 0nat,
{
    match (a, b) {
        (LayoutCell::Pane { pane_id: x, rect: r }, LayoutCell::Pane { rect: q, .. }) => {
            assert(ids_of(seq![(x, r)]) =~= seq![x]);
            assert(ids_of(seq![(x, q)]) =~= seq![x]);
        },
        (LayoutCell::Split { children: xs, .. }, LayoutCell::Split { children: ys, .. }) => {
            lemma_same_extents_ids_seq(xs@, ys@);
        },
        _ => {},
    }
}

pub proof fn lemma_same_extents_ids_seq(xs: Seq<LayoutCell>, ys: Seq<LayoutCell>)
    requires
        xs.len() == ys.len(),
        forall|i: int| 0 <= i < xs.len() ==> same_extents(#[trigger] xs[i], ys[i]),
    ensures
        ids_of(leaves_of(xs)) == ids_of(leaves_of(ys)),
    decreases xs, xs.len(),
{
    if xs.len() > 0 {
        lemma_same_extents_ids_seq(xs.drop_last(), ys.drop_last());
        lemma_same_extents_ids(xs.last(), ys.last());
        lemma_ids_of_append(leaves_of(xs.drop_last()), xs.last().leaves());
        lemma_ids_of_append(leaves_of(ys.drop_last()), ys.last().leaves());
    }
}

pub proof fn lemma_same_extents_refl(a: LayoutCell)
    ensures
        same_extents(a, a),
    decreases a,
{
    if let LayoutCell::Split { children, .. } = a {
        assert forall|i: int| 0 <= i < children.len() implies same_extents(#[trigger] children@[i], children@[i]) by {
            lemma_same_extents_refl(children@[i]);
        }
    }
}

pub proof fn lemma_offset_at_same(xs: Seq<LayoutCell>, ys: Seq<LayoutCell>, d: SplitDirection, origin: u16, i: int)
    requires
        0 <= i <= xs.len(),
        xs.len() == ys.len(),
        forall|j: int| 0 <= j < i ==> (#[trigger] xs[j]).spec_rect().spec_axis(d) == ys[j].spec_rect().spec_axis(d),
    ensures
        offset_at(xs, d, origin, i) == offset_at(ys, d, origin, i),
    decreases i,
{
    if i > 0 {
        lemma_offset_at_same(xs, ys, d, origin, i - 1);
        assert(xs[i - 1].spec_rect().spec_axis(d) == ys[i - 1].spec_rect().spec_axis(d));
    }
}

pub proof fn lemma_depth_of_pointwise(xs: Seq<LayoutCell>, ys: Seq<LayoutCell>)
    requires
        xs.len() == ys.len(),
        forall|j: int| 0 <= j < xs.len() ==> (#[trigger] xs[j]).depth() == ys[j].depth(),
    ensures
        depth_of(xs) == depth_of(ys),
    decreases xs.len(),
{
    if xs.len() > 0 {
        lemma_depth_of_pointwise(xs.drop_last(), ys.drop_last());
        assert(xs[xs.len() - 1].depth() == ys[ys.len() - 1].depth());
    }
}

/// Once the children's extents are those of `orig` and each sits where
/// `orig` places it, the split is laid out.
pub proof fn lemma_split_laid_out(
    direction: SplitDirection,
    rect: PaneRect,
    orig: Seq<LayoutCell>,
    children: Seq<LayoutCell>,
)
    requires
        orig.len() == children.len(),
        forall|j: int| 0 <= j < orig.len() ==> (#[trigger] children[j]).spec_rect() == placed(rect, direction, orig, j)
            && children[j].laid_out(),
    ensures
        forall|j: int| 0 <= j < children.len() ==> (#[trigger] children[j]).spec_rect() == placed(rect, direction, children, j)
            && children[j].laid_out(),
{
    assert forall|j: int| 0 <= j < children.len() implies (#[trigger] children[j]).spec_rect() == placed(rect, direction, children, j)
        && children[j].laid_out() by {
        assert forall|k: int| 0 <= k < j implies (#[trigger] orig[k]).spec_rect().spec_axis(direction)
            == children[k].spec_rect().spec_axis(direction) by {
            assert(children[k].spec_rect() == placed(rect, direction, orig, k));
        }
        lemma_offset_at_same(orig, children, direction, rect.left, j);
        lemma_offset_at_same(orig, children, direction, rect.top, j);
    }
}

impl LayoutCell {
    /// Lay every split's children out along its axis from its origin, each
    /// spanning the split across it; extents along the axis are kept.
    #[verifier::loop_isolation(false)]
    #[verifier::spinoff_prover]
    #[verifier::rlimit(40)]
    pub fn fix_offsets(&mut self)
        ensures
            final(self).laid_out(),
            same_extents(*old(self), *final(self)),
            final(self).spec_rect() == old(self).spec_rect(),
            final(self).depth() == old(self).depth(),
        decreases old(self).depth(),
    {
        match self {
            LayoutCell::Pane { .. } => {},
            LayoutCell::Split { direction, rect, children } => {
                let parent = *rect;
                let dir = *direction;
                let ghost orig = children@;
                let mut left = parent.left;
                let mut top = parent.top;
                let mut i: usize = 0;
                while i < children.len()
                    invariant
                        0 <= i <= children.len(),
                        children.len() == orig.len(),
                        dir == SplitDirection::LeftRight ==> left == offset_at(orig, dir, parent.left, i as int)
                            && top == parent.top,
                        dir == SplitDirection::TopBottom ==> top == offset_at(orig, dir, parent.top, i as int)
                            && left == parent.left,
                        forall|j: int| 0 <= j < i ==> (#[trigger] children@[j]).spec_rect() == placed(parent, dir, orig, j)
                            && children@[j].laid_out()
                            && same_extents(orig[j], children@[j])
                            && children@[j].depth() == orig[j].depth(),
                        forall|j: int| i <= j < orig.len() ==> #[trigger] children@[j] == orig[j],
                    decreases children.len() - i,
                {
                    proof {
                        lemma_depth_of_child(orig, i as int);
                    }
                    let child_rect = children[i].rect_mut();
                    child_rect.left = left;
                    child_rect.top = top;
                    match dir {
                        SplitDirection::LeftRight => {
                            child_rect.height = parent.height;
                            left = left.saturating_add(child_rect.width).saturating_add(1);
                        },
                        SplitDirection::TopBottom => {
                            child_rect.width = parent.width;
                            top = top.saturating_add(child_rect.height).saturating_add(1);
                        },
                    }
                    children[i].fix_offsets();
                    proof {
                        let c = children@[i as int];
                        assert(c.spec_rect() == placed(parent, dir, orig, i as int));
                    }
                    i += 1;
                }
                proof {
                    lemma_split_laid_out(dir, parent, orig, children@);
                    lemma_depth_of_pointwise(orig, children@);
                    assert forall|j: int| 0 <= j < orig.len() implies (#[trigger] orig[j]).spec_rect().spec_axis(dir)
                        == children@[j].spec_rect().spec_axis(dir) && same_extents(orig[j], children@[j]) by {
                        assert(children@[j].spec_rect() == placed(parent, dir, orig, j));
                    }
                }
            },
        }
    }
}


/// Two trees with the same structure and panes; geometry may differ.
pub open spec fn same_shape(a: LayoutCell, b: LayoutCell) -> bool
    decreases a,
{
    match (a, b) {
        (LayoutCell::Pane { pane_id: x, .. }, LayoutCell::Pane { pane_id: y, .. }) => x == y,
        (
            LayoutCell::Split { direction: d, children: xs, .. },
            LayoutCell::Split { direction: e, children: ys, .. },
        ) => d == e && xs.len() == ys.len() && forall|i: int|
            0 <= i < xs.len() ==> same_shape(#[trigger] xs@[i], ys@[i]),
        _ => false,
    }
}

pub proof fn lemma_same_shape_ids(a: LayoutCell, b: LayoutCell)
    requires
        same_shape(a, b),
    ensures
        a.ids() == b.ids(),
        a.depth() == b.depth(),
    decreases a, 0nat,
{
    match (a, b) {
        (LayoutCell::Pane { pane_id: x, rect: r }, LayoutCell::Pane { rect: q, .. }) => {
            assert(ids_of(seq![(x, r)]) =~= seq![x]);
            assert(ids_of(seq![(x, q)]) =~= seq![x]);
        },
        (LayoutCell::Split { children: xs, .. }, LayoutCell::Split { children: ys, .. }) => {
            lemma_same_shape_ids_seq(xs@, ys@);
        },
        _ => {},
    }
}

pub proof fn lemma_same_shape_ids_seq(xs: Seq<LayoutCell>, ys: Seq<LayoutCell>)
    requires
        xs.len() == ys.len(),
        forall|i: int| 0 <= i < xs.len() ==> same_shape(#[trigger] xs[i], ys[i]),
    ensures
        ids_of(leaves_of(xs)) == ids_of(leaves_of(ys)),
        depth_of(xs) == depth_of(ys),
    decreases xs, xs.len(),
{
    if xs.len() > 0 {
        lemma_same_shape_ids_seq(xs.drop_last(), ys.drop_last());
        lemma_same_shape_ids(xs.last(), ys.last());
        lemma_ids_of_append(leaves_of(xs.drop_last()), xs.last().leaves());
        lemma_ids_of_append(leaves_of(ys.drop_last()), ys.last().leaves());
    }
}

pub proof fn lemma_same_shape_refl(a: LayoutCell)
    ensures
        same_shape(a, a),
    decreases a,
{
    if let LayoutCell::Split { children, .. } = a {
        assert forall|i: int| 0 <= i < children.len() implies same_shape(#[trigger] children@[i], children@[i]) by {
            lemma_same_shape_refl(children@[i]);
        }
    }
}

pub proof fn lemma_same_shape_trans(a: LayoutCell, b: LayoutCell, c: LayoutCell)
    requires
        same_shape(a, b),
        same_shape(b, c),
    ensures
        same_shape(a, c),
    decreases a,
{
    if let (LayoutCell::Split { children: xs, .. }, LayoutCell::Split { children: ys, .. }, LayoutCell::Split { children: zs, .. }) = (a, b, c) {
        assert forall|i: int| 0 <= i < xs.len() implies same_shape(#[trigger] xs@[i], zs@[i]) by {
            lemma_same_shape_trans(xs@[i], ys@[i], zs@[i]);
        }
    }
}

pub proof fn lemma_same_extents_shape(a: LayoutCell, b: LayoutCell)
    requires
        same_extents(a, b),
    ensures
        same_shape(a, b),
    decreases a,
{
    if let (LayoutCell::Split { children: xs, .. }, LayoutCell::Split { children: ys, .. }) = (a, b) {
        assert forall|i: int| 0 <= i < xs.len() implies same_shape(#[trigger] xs@[i], ys@[i]) by {
            lemma_same_extents_shape(xs@[i], ys@[i]);
        }
    }
}

/// `rect` moved by `(dx, dy)`, clamped at the origin and truncated to cells,
/// as `shift` computes it.
pub open spec fn shift_rect(rect: PaneRect, dx: i32, dy: i32) -> PaneRect {
    let left = rect.left + dx;
    let top = rect.top + dy;
    PaneRect {
        left: (if left < 0 { 0 } else { left }) as u16,
        top: (if top < 0 { 0 } else { top }) as u16,
        ..rect
    }
}

/// `b` is `a` with every rectangle moved by `shift_rect`.
pub open spec fn shifted(a: LayoutCell, b: LayoutCell, dx: i32, dy: i32) -> bool
    decreases a,
{
    &&& b.spec_rect() == shift_rect(a.spec_rect(), dx, dy)
    &&& match (a, b) {
        (LayoutCell::Pane { pane_id: x, .. }, LayoutCell::Pane { pane_id: y, .. }) => x == y,
        (
            LayoutCell::Split { direction: d, children: xs, .. },
            LayoutCell::Split { direction: e, children: ys, .. },
        ) => d == e && xs.len() == ys.len() && forall|i: int|
            0 <= i < xs.len() ==> shifted(#[trigger] xs@[i], ys@[i], dx, dy),
        _ => false,
    }
}

pub proof fn lemma_shifted_shape(a: LayoutCell, b: LayoutCell, dx: i32, dy: i32)
    requires
        shifted(a, b, dx, dy),
    ensures
        same_shape(a, b),
    decreases a,
{
    if let (LayoutCell::Split { children: xs, .. }, LayoutCell::Split { children: ys, .. }) = (a, b) {
        assert forall|i: int| 0 <= i < xs.len() implies same_shape(#[trigger] xs@[i], ys@[i]) by {
            lemma_shifted_shape(xs@[i], ys@[i], dx, dy);
        }
    }
}

/// The bound on a shift that keeps `left + dx` within `i32`.
pub open spec fn shift_in_range(d: i32) -> bool {
    -0x7fff_0000 <= d <= 0x7fff_0000
}

impl LayoutCell {
    /// Move every rectangle of the tree by `(dx, dy)`, clamping at zero.
    #[verifier::loop_isolation(false)]
    pub fn shift(&mut self, dx: i32, dy: i32)
        requires
            shift_in_range(dx),
            shift_in_range(dy),
        ensures
            shifted(*old(self), *final(self), dx, dy),
        decreases old(self).depth(),
    {
        let rect = self.rect_mut();
        let left = rect.left as i32 + dx;
        let top = rect.top as i32 + dy;
        rect.left = (if left < 0 { 0 } else { left }) as u16;
        rect.top = (if top < 0 { 0 } else { top }) as u16;
        match self {
            LayoutCell::Pane { .. } => {},
            LayoutCell::Split { children, .. } => {
                let ghost orig = children@;
                let mut i: usize = 0;
                while i < children.len()
                    invariant
                        0 <= i <= children.len(),
                        children.len() == orig.len(),
                        forall|j: int| 0 <= j < i ==> shifted(orig[j], #[trigger] children@[j], dx, dy),
                        forall|j: int| i <= j < orig.len() ==> #[trigger] children@[j] == orig[j],
                    decreases children.len() - i,
                {
                    proof {
                        lemma_depth_of_child(orig, i as int);
                    }
                    children[i].shift(dx, dy);
                    i += 1;
                }
            },
        }
    }
}


/// Addition that wraps past `u16::MAX`, as `u16::wrapping_add` computes it.
pub open spec fn wrap_add(a: u16, b: u16) -> u16 {
    if a + b > u16::MAX {
        (a + b - 0x10000) as u16
    } else {
        (a + b) as u16
    }
}

/// How far a tree can shrink along `direction`: a pane down to one cell; a
/// split along the same axis by what all its children can give (summed as
/// `u16` addition wraps); a split across it by what its tightest child can.
pub open spec fn avail(cell: LayoutCell, direction: SplitDirection) -> u16
    decreases cell, 0nat,
{
    match cell {
        LayoutCell::Pane { rect, .. } => sat_sub(rect.spec_axis(direction), 1),
        LayoutCell::Split { direction: own, children, .. } => if own == direction {
            avail_sum(children@, direction)
        } else {
            avail_min(children@, direction)
        },
    }
}

pub open spec fn avail_sum(cells: Seq<LayoutCell>, direction: SplitDirection) -> u16
    decreases cells, cells.len(),
{
    if cells.len() == 0 {
        0
    } else {
        wrap_add(avail_sum(cells.drop_last(), direction), avail(cells.last(), direction))
    }
}

pub open spec fn avail_min(cells: Seq<LayoutCell>, direction: SplitDirection) -> u16
    decreases cells, cells.len(),
{
    if cells.len() == 0 {
        0
    } else if cells.len() == 1 {
        avail(cells[0], direction)
    } else {
        let rest = avail_min(cells.drop_last(), direction);
        let last = avail(cells.last(), direction);
        if last < rest { last } else { rest }
    }
}

impl LayoutCell {
    /// How many cells the tree can give up along `direction`.
    #[verifier::loop_isolation(false)]
    pub fn available(&self, direction: SplitDirection) -> (cells: u16)
        ensures
            cells == avail(*self, direction),
        decreases self,
    {
        match self {
            LayoutCell::Pane { rect, .. } => rect.axis(direction).saturating_sub(1),
            LayoutCell::Split { direction: own, children, .. } => {
                if *own == direction {
                    let mut total: u16 = 0;
                    let mut i: usize = 0;
                    while i < children.len()
                        invariant
                            0 <= i <= children.len(),
                            total == avail_sum(children@.take(i as int), direction),
                        decreases children.len() - i,
                    {
                        assert(decreases_to!(self => children@[i as int]));
                        let child = children[i].available(direction);
                        proof {
                            assert(children@.take(i + 1).drop_last() =~= children@.take(i as int));
                        }
                        total = total.wrapping_add(child);
                        i += 1;
                    }
                    proof {
                        assert(children@.take(i as int) =~= children@);
                    }
                    total
                } else {
                    if children.len() == 0 {
                        return 0;
                    }
                    assert(decreases_to!(self => children@[0]));
                    let mut least = children[0].available(direction);
                    proof {
                        assert(children@.take(1)[0] == children@[0]);
                    }
                    let mut i: usize = 1;
                    while i < children.len()
                        invariant
                            1 <= i <= children.len(),
                            least == avail_min(children@.take(i as int), direction),
                        decreases children.len() - i,
                    {
                        assert(decreases_to!(self => children@[i as int]));
                        let child = children[i].available(direction);
                        proof {
                            assert(children@.take(i + 1).drop_last() =~= children@.take(i as int));
                        }
                        if child < least {
                            least = child;
                        }
                        i += 1;
                    }
                    proof {
                        assert(children@.take(i as int) =~= children@);
                    }
                    least
                }
            },
        }
    }
}


/// An extent changed by `change`, never below one cell, truncated to `u16`.
pub open spec fn adjusted(extent: u16, change: int) -> u16 {
    (if extent + change < 1 { 1 } else { extent + change }) as u16
}

/// `b` differs from `a` only in extents along `direction`: the same
/// structure and panes, every offset and every cross extent kept.
pub open spec fn changed_only_along(a: LayoutCell, b: LayoutCell, direction: SplitDirection) -> bool
    decreases a,
{
    &&& b.spec_rect() == a.spec_rect().with_axis(direction, b.spec_rect().spec_axis(direction))
    &&& match (a, b) {
        (LayoutCell::Pane { pane_id: x, .. }, LayoutCell::Pane { pane_id: y, .. }) => x == y,
        (
            LayoutCell::Split { direction: d, children: xs, .. },
            LayoutCell::Split { direction: e, children: ys, .. },
        ) => d == e && xs.len() == ys.len() && forall|i: int|
            0 <= i < xs.len() ==> changed_only_along(#[trigger] xs@[i], ys@[i], direction),
        _ => false,
    }
}

pub proof fn lemma_changed_only_along_refl(a: LayoutCell, direction: SplitDirection)
    ensures
        changed_only_along(a, a, direction),
    decreases a,
{
    match a {
        LayoutCell::Pane { rect, .. } => {
            assert(rect.with_axis(direction, rect.spec_axis(direction)) == rect);
        },
        LayoutCell::Split { children, rect, .. } => {
            assert(rect.with_axis(direction, rect.spec_axis(direction)) == rect);
            assert forall|i: int| 0 <= i < children.len() implies changed_only_along(#[trigger] children@[i], children@[i], direction) by {
                lemma_changed_only_along_refl(children@[i], direction);
            }
        },
    }
}

pub proof fn lemma_changed_only_along_trans(a: LayoutCell, b: LayoutCell, c: LayoutCell, direction: SplitDirection)
    requires
        changed_only_along(a, b, direction),
        changed_only_along(b, c, direction),
    ensures
        changed_only_along(a, c, direction),
    decreases a,
{
    if let (LayoutCell::Split { children: xs, .. }, LayoutCell::Split { children: ys, .. }, LayoutCell::Split { children: zs, .. }) = (a, b, c) {
        assert forall|i: int| 0 <= i < xs.len() implies changed_only_along(#[trigger] xs@[i], zs@[i], direction) by {
            lemma_changed_only_along_trans(xs@[i], ys@[i], zs@[i], direction);
        }
    }
}

pub proof fn lemma_changed_only_along_shape(a: LayoutCell, b: LayoutCell, direction: SplitDirection)
    requires
        changed_only_along(a, b, direction),
    ensures
        same_shape(a, b),
        a.depth() == b.depth(),
        a.ids() == b.ids(),
    decreases a,
{
    if let (LayoutCell::Split { children: xs, .. }, LayoutCell::Split { children: ys, .. }) = (a, b) {
        assert forall|i: int| 0 <= i < xs.len() implies same_shape(#[trigger] xs@[i], ys@[i]) by {
            lemma_changed_only_along_shape(xs@[i], ys@[i], direction);
        }
    }
    lemma_same_shape_ids(a, b);
}

/// The axis across `direction`.
pub open spec fn across(direction: SplitDirection) -> SplitDirection {
    match direction {
        SplitDirection::TopBottom => SplitDirection::LeftRight,
        SplitDirection::LeftRight => SplitDirection::TopBottom,
    }
}

/// Changing extents along one axis leaves what the tree can give across it.
pub proof fn lemma_changed_only_along_avail(a: LayoutCell, b: LayoutCell, direction: SplitDirection)
    requires
        changed_only_along(a, b, direction),
    ensures
        avail(a, across(direction)) == avail(b, across(direction)),
    decreases a, 0nat,
{
    if let (LayoutCell::Split { children: xs, .. }, LayoutCell::Split { children: ys, .. }) = (a, b) {
        lemma_changed_only_along_avail_seq(xs@, ys@, direction);
    }
}

pub proof fn lemma_changed_only_along_avail_seq(xs: Seq<LayoutCell>, ys: Seq<LayoutCell>, direction: SplitDirection)
    requires
        xs.len() == ys.len(),
        forall|i: int| 0 <= i < xs.len() ==> changed_only_along(#[trigger] xs[i], ys[i], direction),
    ensures
        avail_sum(xs, across(direction)) == avail_sum(ys, across(direction)),
        avail_min(xs, across(direction)) == avail_min(ys, across(direction)),
    decreases xs, xs.len(),
{
    if xs.len() > 0 {
        lemma_changed_only_along_avail_seq(xs.drop_last(), ys.drop_last(), direction);
        lemma_changed_only_along_avail(xs.last(), ys.last(), direction);
        lemma_changed_only_along_avail(xs[0], ys[0], direction);
    }
}

/// The bound on a change that keeps `extent + change` within `i32`.
pub open spec fn change_in_range(change: i32) -> bool {
    -0x7fff_0000 <= change <= 0x7fff_0000
}

impl LayoutCell {
    /// Grow (or shrink) the tree by `change` cells along `direction`, never
    /// below one cell. A split across the axis passes the whole change to
    /// every child; a split along it hands it out one cell per child in
    /// turn, shrinking only children that still have room.
    #[verifier::loop_isolation(false)]
    pub fn adjust(&mut self, direction: SplitDirection, change: i32)
        requires
            change_in_range(change),
        ensures
            changed_only_along(*old(self), *final(self), direction),
            final(self).spec_rect().spec_axis(direction) == adjusted(
                old(self).spec_rect().spec_axis(direction),
                change as int,
            ),
        decreases old(self).depth(),
    {
        let rect = self.rect_mut();
        let current = rect.axis(direction) as i32;
        let next = current + change;
        rect.set_axis(direction, (if next < 1 { 1 } else { next }) as u16);
        match self {
            LayoutCell::Pane { .. } => {},
            LayoutCell::Split { direction: own, children, .. } => {
                let ghost orig = children@;
                if *own != direction {
                    let mut i: usize = 0;
                    while i < children.len()
                        invariant
                            0 <= i <= children.len(),
                            children.len() == orig.len(),
                            forall|j: int| 0 <= j < i ==> changed_only_along(orig[j], #[trigger] children@[j], direction),
                            forall|j: int| i <= j < orig.len() ==> #[trigger] children@[j] == orig[j],
                        decreases children.len() - i,
                    {
                        proof {
                            lemma_depth_of_child(orig, i as int);
                        }
                        children[i].adjust(direction, change);
                        i += 1;
                    }
                    return;
                }
                let step: i32 = if change > 0 { 1 } else if change < 0 { -1 } else { 0 };
                let mut remaining: u32 = if change < 0 { (0 - change) as u32 } else { change as u32 };
                let mut stuck = false;
                proof {
                    assert forall|j: int| 0 <= j < orig.len() implies changed_only_along(orig[j], #[trigger] children@[j], direction) by {
                        lemma_changed_only_along_refl(orig[j], direction);
                    }
                }
                while remaining > 0 && !stuck
                    invariant
                        children.len() == orig.len(),
                        step == 1 || step == -1 || step == 0,
                        forall|j: int| 0 <= j < orig.len() ==> changed_only_along(orig[j], #[trigger] children@[j], direction),
                    decreases 2 * remaining + (if stuck { 0int } else { 1int }),
                {
                    let start = remaining;
                    let mut progressed = false;
                    let mut i: usize = 0;
                    while i < children.len() && remaining > 0
                        invariant
                            0 <= i <= children.len(),
                            children.len() == orig.len(),
                            remaining <= start,
                            progressed ==> remaining < start,
                            !progressed ==> remaining == start,
                            forall|j: int| 0 <= j < orig.len() ==> changed_only_along(orig[j], #[trigger] children@[j], direction),
                        decreases children.len() - i,
                    {
                        proof {
                            lemma_depth_of_child(orig, i as int);
                            lemma_changed_only_along_shape(orig[i as int], children@[i as int], direction);
                        }
                        if step > 0 || children[i].available(direction) > 0 {
                            let ghost before = children@[i as int];
                            children[i].adjust(direction, step);
                            proof {
                                lemma_changed_only_along_trans(orig[i as int], before, children@[i as int], direction);
                            }
                            remaining -= 1;
                            progressed = true;
                        }
                        i += 1;
                    }
                    if !progressed {
                        stuck = true;
                    }
                }
            },
        }
    }
}


/// The change `resize_axis` applies: a shrink is limited to what the tree
/// can give.
pub open spec fn limited_change(change: int, available: u16) -> int {
    if change < 0 && change < -(available as int) {
        -(available as int)
    } else {
        change
    }
}

/// The extent `resize_axis` leaves: unchanged when the limited change is
/// zero, otherwise adjusted by it.
pub open spec fn resized_extent(extent: u16, change: int, available: u16) -> u16 {
    if limited_change(change, available) == 0 {
        extent
    } else {
        adjusted(extent, limited_change(change, available))
    }
}

impl LayoutCell {
    /// Grow by `change` cells along `direction`; a shrink is limited to what
    /// the tree can give up.
    pub fn resize_axis(&mut self, direction: SplitDirection, change: i32)
        requires
            change_in_range(change),
        ensures
            changed_only_along(*old(self), *final(self), direction),
            final(self).spec_rect().spec_axis(direction) == resized_extent(
                old(self).spec_rect().spec_axis(direction),
                change as int,
                avail(*old(self), direction),
            ),
    {
        let mut change = change;
        if change < 0 {
            let floor = -(self.available(direction) as i32);
            if change < floor {
                change = floor;
            }
        }
        if change != 0 {
            self.adjust(direction, change);
        } else {
            proof {
                lemma_changed_only_along_refl(*self, direction);
            }
        }
    }

    /// Resize the tree to `width` by `height` (each at least one cell) and lay
    /// it out again; a shrink is limited to what the tree can give up.
    pub fn resize(&mut self, width: u16, height: u16)
        ensures
            same_shape(*old(self), *final(self)),
            final(self).laid_out(),
            final(self).spec_rect().left == old(self).spec_rect().left,
            final(self).spec_rect().top == old(self).spec_rect().top,
            final(self).spec_rect().width == resized_extent(
                old(self).spec_rect().width,
                (if width == 0 { 1 } else { width }) - old(self).spec_rect().width,
                avail(*old(self), SplitDirection::LeftRight),
            ),
            final(self).spec_rect().height == resized_extent(
                old(self).spec_rect().height,
                (if height == 0 { 1 } else { height }) - old(self).spec_rect().height,
                avail(*old(self), SplitDirection::TopBottom),
            ),
    {
        let old = self.rect();
        let width = if width < 1 { 1 } else { width };
        let height = if height < 1 { 1 } else { height };
        let ghost start = *self;
        self.resize_axis(SplitDirection::LeftRight, width as i32 - old.width as i32);
        let ghost mid = *self;
        proof {
            lemma_changed_only_along_avail(start, mid, SplitDirection::LeftRight);
        }
        self.resize_axis(SplitDirection::TopBottom, height as i32 - old.height as i32);
        let ghost late = *self;
        self.fix_offsets();
        proof {
            lemma_changed_only_along_shape(start, mid, SplitDirection::LeftRight);
            lemma_changed_only_along_shape(mid, late, SplitDirection::TopBottom);
            lemma_same_extents_shape(late, *self);
            lemma_same_shape_trans(start, mid, late);
            lemma_same_shape_trans(start, late, *self);
        }
    }

    /// Move and resize the tree to `rect`.
    pub fn set_rect(&mut self, rect: PaneRect)
        ensures
            same_shape(*old(self), *final(self)),
            final(self).spec_rect().left == rect.left,
            final(self).spec_rect().top == rect.top,
            final(self).spec_rect().width == resized_extent(
                old(self).spec_rect().width,
                (if rect.width == 0 { 1 } else { rect.width }) - old(self).spec_rect().width,
                avail(*old(self), SplitDirection::LeftRight),
            ),
            final(self).spec_rect().height == resized_extent(
                old(self).spec_rect().height,
                (if rect.height == 0 { 1 } else { rect.height }) - old(self).spec_rect().height,
                avail(*old(self), SplitDirection::TopBottom),
            ),
    {
        let old = self.rect();
        let ghost start = *self;
        self.resize(rect.width, rect.height);
        let ghost mid = *self;
        let dx = rect.left as i32 - old.left as i32;
        let dy = rect.top as i32 - old.top as i32;
        self.shift(dx, dy);
        proof {
            lemma_shifted_shape(mid, *self, dx, dy);
            lemma_same_shape_trans(start, mid, *self);
        }
    }
}


/// The second share of `size` cells split in two: half (rounded down, less
/// the separator), kept between one cell and `size - 2`.
pub open spec fn split_second(size: u16) -> u16 {
    let half = sat_sub((sat_add(size, 1) / 2) as u16, 1);
    let high = if sat_sub(size, 2) < 1 { 1 } else { sat_sub(size, 2) };
    if half < 1 {
        1
    } else if half > high {
        high
    } else {
        half
    }
}

/// The first share: what is left after the second and the separator, at
/// least one cell.
pub open spec fn split_first(size: u16) -> u16 {
    let rest = sat_sub(sat_sub(size, split_second(size)), 1);
    if rest < 1 { 1 } else { rest }
}

/// Divide `size` cells into two shares with a separator between them.
pub fn split_axis(size: u16) -> (shares: (u16, u16))
    ensures
        shares == (split_first(size), split_second(size)),
        shares.0 >= 1,
        shares.1 >= 1,
        size >= 3 ==> shares.0 + shares.1 + 1 == size,
{
    let half = (size.saturating_add(1) / 2).saturating_sub(1);
    let high = if size.saturating_sub(2) < 1 { 1 } else { size.saturating_sub(2) };
    let second = if half < 1 {
        1
    } else if half > high {
        high
    } else {
        half
    };
    let rest = size.saturating_sub(second).saturating_sub(1);
    (if rest < 1 { 1 } else { rest }, second)
}

/// The ids with `new_id` placed beside the first `target`: before it when
/// `before`, after it otherwise.
pub open spec fn insert_beside(ids: Seq<u32>, target: u32, new_id: u32, before: bool) -> Seq<u32>
    decreases ids.len(),
{
    if ids.len() == 0 {
        ids
    } else if ids[0] == target {
        if before {
            seq![new_id] + ids
        } else {
            seq![target, new_id] + ids.drop_first()
        }
    } else {
        seq![ids[0]] + insert_beside(ids.drop_first(), target, new_id, before)
    }
}

pub proof fn lemma_insert_beside_append(a: Seq<u32>, b: Seq<u32>, target: u32, new_id: u32, before: bool)
    ensures
        insert_beside(a + b, target, new_id, before) == if a.contains(target) {
            insert_beside(a, target, new_id, before) + b
        } else {
            a + insert_beside(b, target, new_id, before)
        },
    decreases a.len(),
{
    if a.len() == 0 {
        assert(a + b =~= b);
    } else {
        assert((a + b).drop_first() =~= a.drop_first() + b);
        lemma_insert_beside_append(a.drop_first(), b, target, new_id, before);
        if a[0] == target {
            assert(a.contains(target));
            if before {
                assert(seq![new_id] + (a + b) =~= (seq![new_id] + a) + b);
            } else {
                assert(seq![target, new_id] + (a.drop_first() + b) =~= (seq![target, new_id] + a.drop_first()) + b);
            }
        } else {
            assert(a.contains(target) <==> a.drop_first().contains(target)) by {
                if a.contains(target) {
                    let k = choose|k: int| 0 <= k < a.len() && a[k] == target;
                    assert(a.drop_first()[k - 1] == target);
                }
                if a.drop_first().contains(target) {
                    let k = choose|k: int| 0 <= k < a.drop_first().len() && a.drop_first()[k] == target;
                    assert(a[k + 1] == target);
                }
            }
            if a.contains(target) {
                assert(seq![a[0]] + (insert_beside(a.drop_first(), target, new_id, before) + b) =~= (seq![a[0]]
                    + insert_beside(a.drop_first(), target, new_id, before)) + b);
            } else {
                assert(seq![a[0]] + (a.drop_first() + insert_beside(b, target, new_id, before)) =~= a
                    + insert_beside(b, target, new_id, before));
            }
        }
    }
}

pub proof fn lemma_leaves_of_concat(x: Seq<LayoutCell>, y: Seq<LayoutCell>)
    ensures
        leaves_of(x + y) == leaves_of(x) + leaves_of(y),
{
    lemma_leaves_of_split(x + y, x.len() as int);
    assert((x + y).take(x.len() as int) =~= x);
    assert((x + y).skip(x.len() as int) =~= y);
}


/// The index of the first child holding pane `pane_id`.
#[verifier::loop_isolation(false)]
pub fn position_of(children: &Vec<LayoutCell>, pane_id: u32) -> (index: Option<usize>)
    ensures
        match index {
            Some(i) => i < children.len() && children@[i as int].ids().contains(pane_id) && forall|j: int|
                0 <= j < i ==> !(#[trigger] children@[j]).ids().contains(pane_id),
            None => forall|j: int| 0 <= j < children.len() ==> !(#[trigger] children@[j]).ids().contains(pane_id),
        },
{
    let mut i: usize = 0;
    while i < children.len()
        invariant
            0 <= i <= children.len(),
            forall|j: int| 0 <= j < i ==> !(#[trigger] children@[j]).ids().contains(pane_id),
        decreases children.len() - i,
    {
        if children[i].contains(pane_id) {
            return Some(i);
        }
        i += 1;
    }
    None
}

/// No cell of `cells` holds `pane_id`, so neither do their leaves together.
pub proof fn lemma_leaves_of_absent(cells: Seq<LayoutCell>, pane_id: u32)
    requires
        forall|j: int| 0 <= j < cells.len() ==> !(#[trigger] cells[j]).ids().contains(pane_id),
    ensures
        !ids_of(leaves_of(cells)).contains(pane_id),
    decreases cells.len(),
{
    if cells.len() > 0 {
        lemma_leaves_of_absent(cells.drop_last(), pane_id);
        assert(!cells[cells.len() - 1].ids().contains(pane_id));
        lemma_ids_of_append(leaves_of(cells.drop_last()), cells.last().leaves());
        let all = ids_of(leaves_of(cells));
        if all.contains(pane_id) {
            let k = choose|k: int| 0 <= k < all.len() && all[k] == pane_id;
            let n = ids_of(leaves_of(cells.drop_last())).len();
            if k < n {
                assert(ids_of(leaves_of(cells.drop_last()))[k] == pane_id);
            } else {
                assert(cells.last().ids()[k - n] == pane_id);
            }
        }
    }
}

pub proof fn lemma_leaves_of_pair(a: LayoutCell, b: LayoutCell)
    ensures
        leaves_of(seq![a, b]) == a.leaves() + b.leaves(),
{
    let pair = seq![a, b];
    assert(pair.drop_last() =~= seq![a]);
    assert(seq![a].drop_last() =~= Seq::<LayoutCell>::empty());
    assert(leaves_of(seq![a]) == leaves_of(Seq::<LayoutCell>::empty()) + a.leaves());
    assert(leaves_of(Seq::<LayoutCell>::empty()) + a.leaves() =~= a.leaves());
}

/// The ids of three runs of cells laid end to end.
pub proof fn lemma_ids_of_three(x: Seq<LayoutCell>, y: Seq<LayoutCell>, z: Seq<LayoutCell>)
    ensures
        ids_of(leaves_of(x + y + z)) == ids_of(leaves_of(x)) + ids_of(leaves_of(y)) + ids_of(leaves_of(z)),
{
    lemma_leaves_of_concat(x + y, z);
    lemma_leaves_of_concat(x, y);
    lemma_ids_of_append(leaves_of(x) + leaves_of(y), leaves_of(z));
    lemma_ids_of_append(leaves_of(x), leaves_of(y));
}

/// Inserting beside the first `target` when it lies in the middle run.
pub proof fn lemma_insert_beside_middle(pre: Seq<u32>, mid: Seq<u32>, post: Seq<u32>, target: u32, new_id: u32, before: bool)
    requires
        !pre.contains(target),
        mid.contains(target),
    ensures
        insert_beside(pre + mid + post, target, new_id, before) == pre + insert_beside(mid, target, new_id, before) + post,
{
    lemma_insert_beside_append(pre, mid + post, target, new_id, before);
    lemma_insert_beside_append(mid, post, target, new_id, before);
    assert(pre + mid + post =~= pre + (mid + post));
    assert(pre + (insert_beside(mid, target, new_id, before) + post) =~= pre + insert_beside(mid, target, new_id, before) + post);
}

/// The ids of a two-pane split made from `target_id` and `new_id`.
pub proof fn lemma_pair_ids(target_id: u32, new_id: u32, before: bool, old_rect: PaneRect, new_rect: PaneRect)
    ensures
        ({
            let old_leaf = LayoutCell::Pane { pane_id: target_id, rect: old_rect };
            let new_leaf = LayoutCell::Pane { pane_id: new_id, rect: new_rect };
            let pair = if before { seq![new_leaf, old_leaf] } else { seq![old_leaf, new_leaf] };
            ids_of(leaves_of(pair)) == insert_beside(seq![target_id], target_id, new_id, before)
        }),
{
    let old_leaf = LayoutCell::Pane { pane_id: target_id, rect: old_rect };
    let new_leaf = LayoutCell::Pane { pane_id: new_id, rect: new_rect };
    let pair = if before { seq![new_leaf, old_leaf] } else { seq![old_leaf, new_leaf] };
    lemma_leaves_of_pair(pair[0], pair[1]);
    assert(pair =~= seq![pair[0], pair[1]]);
    assert(seq![target_id].drop_first() =~= Seq::<u32>::empty());
    if before {
        assert(ids_of(leaves_of(pair)) =~= seq![new_id, target_id]);
        assert(seq![new_id] + seq![target_id] =~= seq![new_id, target_id]);
    } else {
        assert(ids_of(leaves_of(pair)) =~= seq![target_id, new_id]);
        assert(seq![target_id, new_id] + Seq::<u32>::empty() =~= seq![target_id, new_id]);
    }
}

/// A leaf for pane `id` with extent `extent` along `direction`.
pub open spec fn is_leaf(cell: LayoutCell, id: u32, direction: SplitDirection, extent: u16) -> bool {
    cell matches LayoutCell::Pane { pane_id, rect } && pane_id == id && rect.spec_axis(direction) == extent
}

/// The two leaves a split of pane `target_id`, `whole` cells long along
/// `direction`, leaves at `ys[at]` and `ys[at + 1]`: the new pane first when
/// `before`, each with its share ([`split_axis`]) beside the separator; the
/// target keeps the first share, or the second when the new pane goes first.
pub open spec fn split_pair(ys: Seq<LayoutCell>, at: int, target_id: u32, new_id: u32, direction: SplitDirection, before: bool, whole: u16) -> bool {
    if before {
        is_leaf(ys[at], new_id, direction, split_first(whole)) && is_leaf(ys[at + 1], target_id, direction, split_second(whole))
    } else {
        is_leaf(ys[at], target_id, direction, split_first(whole)) && is_leaf(ys[at + 1], new_id, direction, split_second(whole))
    }
}

/// `b` is `a` with pane `target_id` split along `direction`: inside a split
/// along that axis the two leaves take the target's place among its
/// siblings; elsewhere the target leaf becomes a split of the two leaves
/// over its rectangle. Every other child keeps its shape and its extent
/// along its split's axis.
pub open spec fn split_done(a: LayoutCell, b: LayoutCell, target_id: u32, new_id: u32, direction: SplitDirection, before: bool) -> bool
    decreases a,
{
    match a {
        LayoutCell::Pane { pane_id, rect } => pane_id == target_id && match b {
            LayoutCell::Split { direction: d, children: ys, .. } => {
                &&& d == direction
                &&& ys@.len() == 2
                &&& split_pair(ys@, 0, target_id, new_id, direction, before, rect.spec_axis(direction))
            },
            _ => false,
        },
        LayoutCell::Split { direction: own, children: xs, .. } => match (child_with(xs@, target_id), b) {
            (Some(i), LayoutCell::Split { direction: own_b, children: ys, .. }) => {
                &&& own_b == own
                &&& 0 <= i < xs@.len()
                &&& if own == direction && xs@[i] is Pane {
                    &&& ys@.len() == xs@.len() + 1
                    &&& split_pair(ys@, i, target_id, new_id, direction, before, xs@[i].spec_rect().spec_axis(direction))
                    &&& forall|j: int| 0 <= j < xs@.len() && j != i ==> {
                        let k = if j < i { j } else { j + 1 };
                        same_shape(#[trigger] xs@[j], ys@[k]) && ys@[k].spec_rect().spec_axis(own) == xs@[j].spec_rect().spec_axis(own)
                    }
                } else {
                    &&& ys@.len() == xs@.len()
                    &&& split_done(xs@[i], ys@[i], target_id, new_id, direction, before)
                    &&& forall|j: int| 0 <= j < xs@.len() && j != i ==>
                        same_shape(#[trigger] xs@[j], ys@[j]) && ys@[j].spec_rect().spec_axis(own) == xs@[j].spec_rect().spec_axis(own)
                }
            },
            _ => false,
        },
    }
}

/// Laying a tree out again keeps a split.
pub proof fn lemma_split_done_kept(a: LayoutCell, b: LayoutCell, c: LayoutCell, target_id: u32, new_id: u32, direction: SplitDirection, before: bool)
    requires
        split_done(a, b, target_id, new_id, direction, before),
        same_extents(b, c),
    ensures
        split_done(a, c, target_id, new_id, direction, before),
    decreases a,
{
    match a {
        LayoutCell::Pane { .. } => {
            if let (LayoutCell::Split { children: ys, .. }, LayoutCell::Split { children: zs, .. }) = (b, c) {
                assert(same_extents(ys@[0], zs@[0]));
                assert(same_extents(ys@[1], zs@[1]));
            }
        },
        LayoutCell::Split { direction: own, children: xs, .. } => {
            if let (LayoutCell::Split { children: ys, .. }, LayoutCell::Split { children: zs, .. }) = (b, c) {
                let i = child_with(xs@, target_id)->0;
                if own == direction && xs@[i] is Pane {
                    assert forall|j: int| 0 <= j < xs@.len() && j != i implies {
                        let k = if j < i { j } else { j + 1 };
                        same_shape(#[trigger] xs@[j], zs@[k]) && zs@[k].spec_rect().spec_axis(own) == xs@[j].spec_rect().spec_axis(own)
                    } by {
                        let k = if j < i { j } else { j + 1 };
                        assert(same_extents(ys@[k], zs@[k]));
                        lemma_same_extents_shape(ys@[k], zs@[k]);
                        lemma_same_shape_trans(xs@[j], ys@[k], zs@[k]);
                    }
                    assert(same_extents(ys@[i], zs@[i]));
                    assert(same_extents(ys@[i + 1], zs@[i + 1]));
                } else {
                    assert(same_extents(ys@[i], zs@[i]));
                    lemma_split_done_kept(xs@[i], ys@[i], zs@[i], target_id, new_id, direction, before);
                    assert forall|j: int| 0 <= j < xs@.len() && j != i implies
                        same_shape(#[trigger] xs@[j], zs@[j]) && zs@[j].spec_rect().spec_axis(own) == xs@[j].spec_rect().spec_axis(own) by {
                        assert(same_extents(ys@[j], zs@[j]));
                        lemma_same_extents_shape(ys@[j], zs@[j]);
                        lemma_same_shape_trans(xs@[j], ys@[j], zs@[j]);
                    }
                }
            }
        },
    }
}


impl LayoutCell {
    /// Split pane `target_id`, placing pane `new_id` beside it (before it when
    /// `before`) along `direction`, and lay the tree out again. A split of a
    /// pane whose parent already divides along `direction` adds a sibling
    /// there instead of nesting a new split. Whether the target was found.
    #[verifier::loop_isolation(false)]
    pub fn split(&mut self, target_id: u32, new_id: u32, direction: SplitDirection, before: bool) -> (changed: bool)
        ensures
            changed == old(self).ids().contains(target_id),
            changed ==> final(self).ids() == insert_beside(old(self).ids(), target_id, new_id, before),
            changed ==> split_done(*old(self), *final(self), target_id, new_id, direction, before),
            changed ==> final(self).laid_out(),
            final(self).spec_rect() == old(self).spec_rect(),
            !changed ==> *final(self) == *old(self),
        decreases old(self).depth(),
    {
        let is_target = match self {
            LayoutCell::Pane { pane_id, .. } => *pane_id == target_id,
            LayoutCell::Split { .. } => false,
        };
        if is_target {
            let whole = self.rect();
            let (first, second) = split_axis(whole.axis(direction));
            let mut old_rect = whole;
            old_rect.set_axis(direction, if before { second } else { first });
            let mut new_rect = whole;
            new_rect.set_axis(direction, if before { first } else { second });
            let old_leaf = LayoutCell::Pane { pane_id: target_id, rect: old_rect };
            let new_leaf = LayoutCell::Pane { pane_id: new_id, rect: new_rect };
            let children = if before {
                vec![new_leaf, old_leaf]
            } else {
                vec![old_leaf, new_leaf]
            };
            proof {
                assert(old(self).ids() =~= seq![target_id]);
                assert(old(self).ids()[0] == target_id);
                lemma_pair_ids(target_id, new_id, before, old_rect, new_rect);
            }
            let ghost unfixed = LayoutCell::Split { direction, rect: whole, children };
            proof {
                assert(split_done(*old(self), unfixed, target_id, new_id, direction, before));
            }
            *self = LayoutCell::Split { direction, rect: whole, children };
            self.fix_offsets();
            proof {
                lemma_same_extents_ids(unfixed, *self);
                lemma_split_done_kept(*old(self), unfixed, *self, target_id, new_id, direction, before);
            }
            return true;
        }
        match self {
            LayoutCell::Pane { pane_id, rect } => {
                proof {
                    assert(old(self).ids() =~= seq![*pane_id]);
                    if old(self).ids().contains(target_id) {
                        let k = choose|k: int| 0 <= k < old(self).ids().len() && old(self).ids()[k] == target_id;
                        assert(k == 0);
                    }
                }
                false
            },
            LayoutCell::Split { direction: parent_direction, rect, children } => {
                let ghost orig = children@;
                let ghost parent_rect = *rect;
                let found = position_of(children, target_id);
                let index = match found {
                    Some(index) => index,
                    None => {
                        proof {
                            lemma_leaves_of_absent(orig, target_id);
                        }
                        return false;
                    },
                };
                proof {
                    lemma_child_with(orig, target_id, index as int);
                    lemma_leaves_of_at(orig, index as int);
                    lemma_leaves_of_absent(orig.take(index as int), target_id);
                    lemma_ids_of_append(leaves_of(orig.take(index as int)), orig[index as int].leaves());
                    lemma_ids_of_append(
                        leaves_of(orig.take(index as int)) + orig[index as int].leaves(),
                        leaves_of(orig.skip(index + 1)),
                    );
                    lemma_ids_of_append(orig[index as int].leaves(), leaves_of(orig.skip(index + 1)));
                    lemma_leaves_of_prefix_in_all(orig, index + 1);
                    lemma_leaves_of_take(orig, index as int);
                    lemma_find_rect_some(orig[index as int].leaves(), target_id);
                    lemma_find_rect_some(leaves_of(orig.take(index + 1)), target_id);
                    lemma_find_rect_append(leaves_of(orig.take(index as int)), orig[index as int].leaves(), target_id);
                }
                let ghost pre = ids_of(leaves_of(orig.take(index as int)));
                let ghost post = ids_of(leaves_of(orig.skip(index + 1)));
                let leaf_here = match &children[index] {
                    LayoutCell::Pane { pane_id, .. } => *pane_id == target_id,
                    LayoutCell::Split { .. } => false,
                };
                if *parent_direction == direction && leaf_here {
                    let whole = children[index].rect();
                    let (first, second) = split_axis(whole.axis(direction));
                    let mut old_rect = whole;
                    old_rect.set_axis(direction, if before { second } else { first });
                    let mut new_rect = whole;
                    new_rect.set_axis(direction, if before { first } else { second });
                    let old_leaf = LayoutCell::Pane { pane_id: target_id, rect: old_rect };
                    let new_leaf = LayoutCell::Pane { pane_id: new_id, rect: new_rect };
                    children.set(index, old_leaf);
                    let at = if before { index } else { index + 1 };
                    children.insert(at, new_leaf);
                    proof {
                        let pair = if before { seq![new_leaf, old_leaf] } else { seq![old_leaf, new_leaf] };
                        assert(children@ =~= orig.take(index as int) + pair + orig.skip(index + 1));
                        lemma_ids_of_three(orig.take(index as int), pair, orig.skip(index + 1));
                        lemma_pair_ids(target_id, new_id, before, old_rect, new_rect);
                        assert(orig[index as int].ids() =~= seq![target_id]);
                        lemma_insert_beside_middle(pre, seq![target_id], post, target_id, new_id, before);
                        assert forall|j: int| 0 <= j < orig.len() && j != index implies {
                            let k = if j < index { j } else { j + 1 };
                            same_shape(#[trigger] orig[j], children@[k])
                                && children@[k].spec_rect().spec_axis(direction) == orig[j].spec_rect().spec_axis(direction)
                        } by {
                            let k = if j < index { j } else { j + 1 };
                            assert(children@[k] == orig[j]);
                            lemma_same_shape_refl(orig[j]);
                        }
                    }
                    let ghost unfixed = *self;
                    proof {
                        assert(split_done(*old(self), unfixed, target_id, new_id, direction, before));
                    }
                    self.fix_offsets();
                    proof {
                        lemma_same_extents_ids(unfixed, *self);
                        lemma_split_done_kept(*old(self), unfixed, *self, target_id, new_id, direction, before);
                    }
                    true
                } else {
                    proof {
                        lemma_depth_of_child(orig, index as int);
                    }
                    let changed = children[index].split(target_id, new_id, direction, before);
                    proof {
                        let child_ids = insert_beside(orig[index as int].ids(), target_id, new_id, before);
                        lemma_leaves_of_update(orig, children@, index as int);
                        lemma_ids_of_append(leaves_of(orig.take(index as int)), children@[index as int].leaves());
                        lemma_ids_of_append(
                            leaves_of(orig.take(index as int)) + children@[index as int].leaves(),
                            leaves_of(orig.skip(index + 1)),
                        );
                        lemma_insert_beside_middle(pre, orig[index as int].ids(), post, target_id, new_id, before);
                    }
                    if changed {
                        let ghost unfixed = *self;
                        proof {
                            if orig[index as int] is Pane {
                                assert(orig[index as int].ids() =~= seq![orig[index as int]->pane_id]);
                            }
                            assert forall|j: int| 0 <= j < orig.len() && j != index implies
                                same_shape(#[trigger] orig[j], children@[j])
                                    && children@[j].spec_rect().spec_axis(*parent_direction) == orig[j].spec_rect().spec_axis(*parent_direction) by {
                                assert(children@[j] == orig[j]);
                                lemma_same_shape_refl(orig[j]);
                            }
                            assert(split_done(*old(self), unfixed, target_id, new_id, direction, before));
                        }
                        self.fix_offsets();
                        proof {
                            lemma_same_extents_ids(unfixed, *self);
                            lemma_split_done_kept(*old(self), unfixed, *self, target_id, new_id, direction, before);
                        }
                    }
                    changed
                }
            },
        }
    }
}


/// The ids with every `pane_id` left out.
pub open spec fn without(ids: Seq<u32>, pane_id: u32) -> Seq<u32>
    decreases ids.len(),
{
    if ids.len() == 0 {
        ids
    } else if ids[0] == pane_id {
        without(ids.drop_first(), pane_id)
    } else {
        seq![ids[0]] + without(ids.drop_first(), pane_id)
    }
}

pub proof fn lemma_without_append(a: Seq<u32>, b: Seq<u32>, pane_id: u32)
    ensures
        without(a + b, pane_id) == without(a, pane_id) + without(b, pane_id),
    decreases a.len(),
{
    if a.len() == 0 {
        assert(a + b =~= b);
        assert(without(a, pane_id) + without(b, pane_id) =~= without(b, pane_id));
    } else {
        assert((a + b).drop_first() =~= a.drop_first() + b);
        lemma_without_append(a.drop_first(), b, pane_id);
        if a[0] != pane_id {
            assert(seq![a[0]] + (without(a.drop_first(), pane_id) + without(b, pane_id)) =~= (seq![a[0]]
                + without(a.drop_first(), pane_id)) + without(b, pane_id));
        }
    }
}

pub proof fn lemma_without_absent(a: Seq<u32>, pane_id: u32)
    requires
        !a.contains(pane_id),
    ensures
        without(a, pane_id) == a,
    decreases a.len(),
{
    if a.len() > 0 {
        assert(a[0] != pane_id);
        assert(!a.drop_first().contains(pane_id)) by {
            if a.drop_first().contains(pane_id) {
                let k = choose|k: int| 0 <= k < a.drop_first().len() && a.drop_first()[k] == pane_id;
                assert(a[k + 1] == pane_id);
            }
        }
        lemma_without_absent(a.drop_first(), pane_id);
        assert(seq![a[0]] + a.drop_first() =~= a);
    }
}

/// In a run without repeats, the pane at the junction of three parts occurs
/// in neither of the others.
pub proof fn lemma_unique_middle(pre: Seq<u32>, mid: Seq<u32>, post: Seq<u32>, pane_id: u32)
    requires
        (pre + mid + post).no_duplicates(),
        mid.contains(pane_id),
    ensures
        !pre.contains(pane_id),
        !post.contains(pane_id),
        mid.no_duplicates(),
{
    let all = pre + mid + post;
    let k = choose|k: int| 0 <= k < mid.len() && mid[k] == pane_id;
    assert(all[pre.len() + k] == pane_id);
    if pre.contains(pane_id) {
        let j = choose|j: int| 0 <= j < pre.len() && pre[j] == pane_id;
        assert(all[j] == pane_id);
    }
    if post.contains(pane_id) {
        let j = choose|j: int| 0 <= j < post.len() && post[j] == pane_id;
        assert(all[pre.len() + mid.len() + j] == pane_id);
    }
    assert forall|i: int, j: int| 0 <= i < mid.len() && 0 <= j < mid.len() && i != j implies mid[i] != mid[j] by {
        assert(all[pre.len() + i] == mid[i]);
        assert(all[pre.len() + j] == mid[j]);
    }
}

/// The index of the first of `cells` that is the leaf of pane `pane_id`.
pub open spec fn direct_child(cells: Seq<LayoutCell>, pane_id: u32) -> Option<int>
    decreases cells.len(),
{
    if cells.len() == 0 {
        None
    } else {
        match direct_child(cells.drop_last(), pane_id) {
            Some(i) => Some(i),
            None => if cells.last() is Pane && cells.last().ids()[0] == pane_id { Some(cells.len() - 1) } else { None },
        }
    }
}

pub proof fn lemma_direct_child(cells: Seq<LayoutCell>, pane_id: u32, i: int)
    requires
        0 <= i < cells.len(),
        cells[i] is Pane && cells[i].ids()[0] == pane_id,
        forall|j: int| 0 <= j < i ==> !((#[trigger] cells[j]) is Pane && cells[j].ids()[0] == pane_id),
    ensures
        direct_child(cells, pane_id) == Some(i),
    decreases cells.len(),
{
    if i < cells.len() - 1 {
        lemma_direct_child(cells.drop_last(), pane_id, i);
    } else {
        lemma_direct_child_none(cells.drop_last(), pane_id);
    }
}

pub proof fn lemma_direct_child_range(cells: Seq<LayoutCell>, pane_id: u32)
    ensures
        direct_child(cells, pane_id) matches Some(i) ==> 0 <= i < cells.len(),
    decreases cells.len(),
{
    if cells.len() > 0 {
        lemma_direct_child_range(cells.drop_last(), pane_id);
    }
}

pub proof fn lemma_direct_child_none(cells: Seq<LayoutCell>, pane_id: u32)
    requires
        forall|j: int| 0 <= j < cells.len() ==> !((#[trigger] cells[j]) is Pane && cells[j].ids()[0] == pane_id),
    ensures
        direct_child(cells, pane_id) is None,
    decreases cells.len(),
{
    if cells.len() > 0 {
        lemma_direct_child_none(cells.drop_last(), pane_id);
    }
}

/// The sibling that takes a removed child's cells: the one before it, or
/// the first when it was first.
pub open spec fn taker_of(i: int) -> int {
    if i == 0 { 0 } else { i - 1 }
}

/// `b` is `a` with the leaf of pane `pane_id` removed from the innermost
/// split that has it as a child: the sibling before it (or the first)
/// takes its cells and the separator, the others keep their extents along
/// the axis; a split left with one child becomes that child, and one left
/// with none stays empty. Above it, the other children keep their shape
/// and extents.
pub open spec fn removal_done(a: LayoutCell, b: LayoutCell, pane_id: u32) -> bool
    decreases a,
{
    match a {
        LayoutCell::Pane { .. } => false,
        LayoutCell::Split { direction: own, children: xs, .. } => match direct_child(xs@, pane_id) {
            Some(i) => {
                let rest = xs@.remove(i);
                let r = taker_of(i);
                if rest.len() == 0 {
                    b matches LayoutCell::Split { direction: d, children: ys, .. } && d == own && ys@.len() == 0
                } else if rest.len() == 1 {
                    same_shape(rest[0], b)
                } else {
                    b matches LayoutCell::Split { direction: d, children: ys, .. } && {
                        &&& d == own
                        &&& ys@.len() == rest.len()
                        &&& ys@[r].spec_rect().spec_axis(own) == adjusted(rest[r].spec_rect().spec_axis(own),
                            xs@[i].spec_rect().spec_axis(own) + 1)
                        &&& forall|j: int| 0 <= j < rest.len() ==> same_shape(#[trigger] rest[j], ys@[j])
                        &&& forall|j: int| 0 <= j < rest.len() && j != r
                            ==> (#[trigger] ys@[j]).spec_rect().spec_axis(own) == rest[j].spec_rect().spec_axis(own)
                    }
                }
            },
            None => match child_with(xs@, pane_id) {
                Some(i) => 0 <= i < xs@.len() && (b matches LayoutCell::Split { direction: d, children: ys, .. } && {
                    &&& d == own
                    &&& ys@.len() == xs@.len()
                    &&& removal_done(xs@[i], ys@[i], pane_id)
                    &&& forall|j: int| 0 <= j < xs@.len() && j != i ==> same_shape(#[trigger] xs@[j], ys@[j])
                        && ys@[j].spec_rect().spec_axis(own) == xs@[j].spec_rect().spec_axis(own)
                }),
                None => false,
            },
        },
    }
}

/// Where the tree that removing pane `pane_id` from `a` leaves stands: a
/// split left with one child hands it `a`'s place, at `a`'s corner and,
/// along each axis where the child is no larger, with `a`'s extent;
/// otherwise the tree keeps `a`'s rectangle.
pub open spec fn removal_placed(a: LayoutCell, b: LayoutCell, pane_id: u32) -> bool {
    match a {
        LayoutCell::Split { direction: own, rect, children: xs } => match direct_child(xs@, pane_id) {
            Some(i) => if xs@.len() == 2 {
                let s = xs@.remove(i)[0];
                let along = adjusted(s.spec_rect().spec_axis(own), xs@[i].spec_rect().spec_axis(own) + 1);
                let cross = s.spec_rect().spec_axis(across(own));
                &&& b.spec_rect().left == rect.left
                &&& b.spec_rect().top == rect.top
                &&& (along <= rect.spec_axis(own) && rect.spec_axis(own) >= 1
                    ==> b.spec_rect().spec_axis(own) == rect.spec_axis(own))
                &&& (cross <= rect.spec_axis(across(own)) && rect.spec_axis(across(own)) >= 1
                    ==> b.spec_rect().spec_axis(across(own)) == rect.spec_axis(across(own)))
            } else {
                b.spec_rect() == rect
            },
            None => b.spec_rect() == rect,
        },
        _ => true,
    }
}

/// Laying a tree out again keeps a removal.
pub proof fn lemma_removal_kept(a: LayoutCell, b: LayoutCell, c: LayoutCell, pane_id: u32)
    requires
        removal_done(a, b, pane_id),
        same_extents(b, c),
    ensures
        removal_done(a, c, pane_id),
    decreases a,
{
    match a {
        LayoutCell::Pane { .. } => {},
        LayoutCell::Split { direction: own, children: xs, .. } => {
            match direct_child(xs@, pane_id) {
                Some(i) => {
                    lemma_direct_child_range(xs@, pane_id);
                    let rest = xs@.remove(i);
                    lemma_same_extents_shape(b, c);
                    if rest.len() == 0 {
                        if let (LayoutCell::Split { children: ys, .. }, LayoutCell::Split { children: zs, .. }) = (b, c) {
                            assert(zs@.len() == ys@.len());
                        }
                    } else if rest.len() == 1 {
                        lemma_same_shape_trans(rest[0], b, c);
                    } else if rest.len() > 1 {
                        if let (LayoutCell::Split { children: ys, .. }, LayoutCell::Split { children: zs, .. }) = (b, c) {
                            assert forall|j: int| 0 <= j < rest.len() implies same_shape(#[trigger] rest[j], zs@[j])
                                && zs@[j].spec_rect().spec_axis(own) == ys@[j].spec_rect().spec_axis(own) by {
                                assert(same_extents(ys@[j], zs@[j]));
                                lemma_same_extents_shape(ys@[j], zs@[j]);
                                lemma_same_shape_trans(rest[j], ys@[j], zs@[j]);
                            }
                        }
                    }
                },
                None => {
                    if let (LayoutCell::Split { children: ys, .. }, LayoutCell::Split { children: zs, .. }) = (b, c) {
                        let i = child_with(xs@, pane_id)->0;
                        assert(same_extents(ys@[i], zs@[i]));
                        lemma_removal_kept(xs@[i], ys@[i], zs@[i], pane_id);
                        assert forall|j: int| 0 <= j < xs@.len() && j != i implies same_shape(#[trigger] xs@[j], zs@[j])
                            && zs@[j].spec_rect().spec_axis(own) == xs@[j].spec_rect().spec_axis(own) by {
                            assert(same_extents(ys@[j], zs@[j]));
                            lemma_same_extents_shape(ys@[j], zs@[j]);
                            lemma_same_shape_trans(xs@[j], ys@[j], zs@[j]);
                        }
                    }
                },
            }
        },
    }
}

impl LayoutCell {
    /// Remove pane `pane_id`: a pane among a split's direct children is
    /// dropped and its space, with its separator, given to the sibling before
    /// it (or after it when it was first); a split left with one child is
    /// replaced by that child over the split's area. A lone pane cannot be
    /// removed. Whether the pane was found.
    #[verifier::loop_isolation(false)]
    pub fn remove(&mut self, pane_id: u32) -> (removed: bool)
        ensures
            removed == (*old(self) is Split && old(self).ids().contains(pane_id)),
            !removed ==> *final(self) == *old(self),
            removed && old(self).ids().no_duplicates() ==> final(self).ids() == without(old(self).ids(), pane_id),
            removed ==> removal_done(*old(self), *final(self), pane_id),
            removed ==> removal_placed(*old(self), *final(self), pane_id),
        decreases old(self).depth(),
    {
        match self {
            LayoutCell::Pane { .. } => false,
            LayoutCell::Split { direction, rect, children } => {
                let ghost orig = children@;
                let dir = *direction;
                let whole = *rect;
                let mut direct: Option<usize> = None;
                let mut k: usize = 0;
                while k < children.len()
                    invariant
                        0 <= k <= children.len(),
                        children@ == orig,
                        direct is None,
                        forall|j: int| 0 <= j < k ==> !((#[trigger] orig[j]) is Pane && orig[j].ids()[0] == pane_id),
                    decreases children.len() - k,
                {
                    let here = match &children[k] {
                        LayoutCell::Pane { pane_id: id, .. } => *id == pane_id,
                        LayoutCell::Split { .. } => false,
                    };
                    if here {
                        direct = Some(k);
                        break;
                    }
                    k += 1;
                }
                if let Some(index) = direct {
                    proof {
                        lemma_direct_child(orig, pane_id, index as int);
                        lemma_leaves_of_at(orig, index as int);
                        lemma_ids_of_append(leaves_of(orig.take(index as int)), orig[index as int].leaves());
                        lemma_ids_of_append(
                            leaves_of(orig.take(index as int)) + orig[index as int].leaves(),
                            leaves_of(orig.skip(index + 1)),
                        );
                        assert(orig[index as int].ids() =~= seq![pane_id]);
                        assert(seq![pane_id][0] == pane_id);
                        assert(old(self).ids().contains(pane_id)) by {
                            let pre = ids_of(leaves_of(orig.take(index as int)));
                            assert(old(self).ids()[pre.len() as int] == pane_id);
                        }
                    }
                    let ghost pre = ids_of(leaves_of(orig.take(index as int)));
                    let ghost post = ids_of(leaves_of(orig.skip(index + 1)));
                    let removed = children.remove(index);
                    proof {
                        assert(children@ =~= orig.take(index as int) + orig.skip(index + 1));
                        lemma_leaves_of_concat(orig.take(index as int), orig.skip(index + 1));
                        lemma_ids_of_append(leaves_of(orig.take(index as int)), leaves_of(orig.skip(index + 1)));
                        if old(self).ids().no_duplicates() {
                            lemma_unique_middle(pre, seq![pane_id], post, pane_id);
                            lemma_without_append(pre + seq![pane_id], post, pane_id);
                            lemma_without_append(pre, seq![pane_id], pane_id);
                            lemma_without_absent(pre, pane_id);
                            lemma_without_absent(post, pane_id);
                            assert(seq![pane_id].drop_first() =~= Seq::<u32>::empty());
                            assert(seq![pane_id][0] == pane_id);
                            assert(without(Seq::<u32>::empty(), pane_id) == Seq::<u32>::empty());
                            assert(without(seq![pane_id], pane_id) == without(seq![pane_id].drop_first(), pane_id));
                            assert(without(seq![pane_id], pane_id) =~= Seq::<u32>::empty());
                            assert(pre + Seq::<u32>::empty() =~= pre);
                        }
                    }
                    let ghost rest = children@;
                    proof {
                        assert(rest =~= orig.remove(index as int));
                    }
                    if children.len() == 0 {
                        proof {
                            assert(leaves_of(children@) =~= Seq::<(u32, PaneRect)>::empty());
                        }
                        return true;
                    }
                    let receiver = if index == 0 { 0 } else { index - 1 };
                    let ghost before_adjust = children@;
                    children[receiver].adjust(dir, removed.rect().axis(dir) as i32 + 1);
                    proof {
                        lemma_changed_only_along_shape(before_adjust[receiver as int], children@[receiver as int], dir);
                        assert forall|j: int| 0 <= j < before_adjust.len() implies (#[trigger] before_adjust[j]).ids()
                            == children@[j].ids() by {
                            if j == receiver {
                                lemma_changed_only_along_shape(before_adjust[j], children@[j], dir);
                            }
                        }
                        lemma_ids_of_cells_pointwise(before_adjust, children@);
                    }
                    if children.len() == 1 {
                        let mut survivor = children.remove(0);
                        proof {
                            assert(before_adjust.len() == 1);
                            assert(leaves_of(before_adjust) =~= leaves_of(before_adjust.drop_last()) + before_adjust[0].leaves());
                            assert(leaves_of(before_adjust.drop_last()) =~= Seq::<(u32, PaneRect)>::empty());
                            assert(Seq::<(u32, PaneRect)>::empty() + before_adjust[0].leaves() =~= before_adjust[0].leaves());
                            assert(leaves_of(seq![survivor]) =~= leaves_of(seq![survivor].drop_last()) + survivor.leaves());
                            assert(seq![survivor].drop_last() =~= Seq::<LayoutCell>::empty());
                            assert(seq![survivor] =~= children@.insert(0, survivor));
                        }
                        let ghost placed_before = survivor;
                        survivor.set_rect(whole);
                        proof {
                            lemma_same_shape_ids(placed_before, survivor);
                            assert(Seq::<(u32, PaneRect)>::empty() + survivor.leaves() =~= survivor.leaves());
                            lemma_same_shape_trans(rest[0], placed_before, survivor);
                            let e_along = placed_before.spec_rect().spec_axis(dir);
                            let e_cross = placed_before.spec_rect().spec_axis(across(dir));
                            assert(e_cross == rest[0].spec_rect().spec_axis(across(dir)));
                        }
                        *self = survivor;
                    } else {
                        let ghost unfixed = *self;
                        proof {
                            assert forall|j: int| 0 <= j < rest.len() implies same_shape(#[trigger] rest[j], children@[j]) by {
                                if j != receiver {
                                    assert(children@[j] == rest[j]);
                                    lemma_same_shape_refl(rest[j]);
                                }
                            }
                            assert forall|j: int| 0 <= j < rest.len() && j != receiver implies
                                (#[trigger] children@[j]).spec_rect().spec_axis(dir) == rest[j].spec_rect().spec_axis(dir) by {
                                assert(children@[j] == rest[j]);
                            }
                            assert(removal_done(*old(self), unfixed, pane_id));
                        }
                        self.fix_offsets();
                        proof {
                            lemma_same_extents_ids(unfixed, *self);
                            lemma_removal_kept(*old(self), unfixed, *self, pane_id);
                        }
                    }
                    return true;
                }
                proof {
                    lemma_direct_child_none(orig, pane_id);
                }
                let found = position_of(children, pane_id);
                let index = match found {
                    Some(index) => index,
                    None => {
                        proof {
                            lemma_leaves_of_absent(orig, pane_id);
                        }
                        return false;
                    },
                };
                proof {
                    lemma_child_with(orig, pane_id, index as int);
                    lemma_leaves_of_at(orig, index as int);
                    lemma_ids_of_append(leaves_of(orig.take(index as int)), orig[index as int].leaves());
                    lemma_ids_of_append(
                        leaves_of(orig.take(index as int)) + orig[index as int].leaves(),
                        leaves_of(orig.skip(index + 1)),
                    );
                    lemma_leaves_of_prefix_in_all(orig, index + 1);
                    lemma_leaves_of_take(orig, index as int);
                    lemma_find_rect_some(orig[index as int].leaves(), pane_id);
                    lemma_find_rect_some(leaves_of(orig.take(index + 1)), pane_id);
                    lemma_find_rect_append(leaves_of(orig.take(index as int)), orig[index as int].leaves(), pane_id);
                    lemma_depth_of_child(orig, index as int);
                    if orig[index as int] is Pane {
                        assert(orig[index as int].ids() =~= seq![orig[index as int]->pane_id]);
                        let c = orig[index as int].ids();
                        let q = choose|q: int| 0 <= q < c.len() && c[q] == pane_id;
                        assert(q == 0);
                        assert(!(orig[index as int] is Pane && orig[index as int].ids()[0] == pane_id));
                        assert(false);
                    }
                }
                let ghost pre = ids_of(leaves_of(orig.take(index as int)));
                let ghost post = ids_of(leaves_of(orig.skip(index + 1)));
                let removed = children[index].remove(pane_id);
                if removed {
                    proof {
                        lemma_leaves_of_update(orig, children@, index as int);
                        lemma_ids_of_append(leaves_of(orig.take(index as int)), children@[index as int].leaves());
                        lemma_ids_of_append(
                            leaves_of(orig.take(index as int)) + children@[index as int].leaves(),
                            leaves_of(orig.skip(index + 1)),
                        );
                        if old(self).ids().no_duplicates() {
                            lemma_unique_middle(pre, orig[index as int].ids(), post, pane_id);
                            lemma_without_append(pre + orig[index as int].ids(), post, pane_id);
                            lemma_without_append(pre, orig[index as int].ids(), pane_id);
                            lemma_without_absent(pre, pane_id);
                            lemma_without_absent(post, pane_id);
                        }
                    }
                    let ghost unfixed = *self;
                    proof {
                        assert forall|j: int| 0 <= j < orig.len() && j != index implies same_shape(#[trigger] orig[j], children@[j])
                            && children@[j].spec_rect().spec_axis(dir) == orig[j].spec_rect().spec_axis(dir) by {
                            assert(children@[j] == orig[j]);
                            lemma_same_shape_refl(orig[j]);
                        }
                        assert(removal_done(*old(self), unfixed, pane_id));
                    }
                    self.fix_offsets();
                    proof {
                        lemma_same_extents_ids(unfixed, *self);
                        lemma_removal_kept(*old(self), unfixed, *self, pane_id);
                    }
                }
                removed
            },
        }
    }
}


/// Two trees equal node by node: the same rectangles, panes and splits.
pub open spec fn same_tree(a: LayoutCell, b: LayoutCell) -> bool
    decreases a,
{
    &&& a.spec_rect() == b.spec_rect()
    &&& match (a, b) {
        (LayoutCell::Pane { pane_id: x, .. }, LayoutCell::Pane { pane_id: y, .. }) => x == y,
        (
            LayoutCell::Split { direction: d, children: xs, .. },
            LayoutCell::Split { direction: e, children: ys, .. },
        ) => d == e && xs.len() == ys.len() && forall|i: int|
            0 <= i < xs.len() ==> same_tree(#[trigger] xs@[i], ys@[i]),
        _ => false,
    }
}

pub proof fn lemma_same_tree_refl(a: LayoutCell)
    ensures
        same_tree(a, a),
    decreases a,
{
    if let LayoutCell::Split { children, .. } = a {
        assert forall|i: int| 0 <= i < children.len() implies same_tree(#[trigger] children@[i], children@[i]) by {
            lemma_same_tree_refl(children@[i]);
        }
    }
}

pub proof fn lemma_same_tree_shape(a: LayoutCell, b: LayoutCell)
    requires
        same_tree(a, b),
    ensures
        same_shape(a, b),
    decreases a,
{
    if let (LayoutCell::Split { children: xs, .. }, LayoutCell::Split { children: ys, .. }) = (a, b) {
        assert forall|i: int| 0 <= i < xs.len() implies same_shape(#[trigger] xs@[i], ys@[i]) by {
            lemma_same_tree_shape(xs@[i], ys@[i]);
        }
    }
}

/// A split whose children keep their shapes keeps its shape.
pub proof fn lemma_split_same_shape(a: LayoutCell, b: LayoutCell)
    requires
        a is Split,
        b is Split,
        a->direction == b->direction,
        a->children@.len() == b->children@.len(),
        forall|j: int| 0 <= j < a->children@.len() ==> same_shape(#[trigger] a->children@[j], b->children@[j]),
    ensures
        same_shape(a, b),
{
}

/// The index of the first of `cells` that holds pane `pane_id`.
pub open spec fn child_with(cells: Seq<LayoutCell>, pane_id: u32) -> Option<int>
    decreases cells.len(),
{
    if cells.len() == 0 {
        None
    } else {
        match child_with(cells.drop_last(), pane_id) {
            Some(i) => Some(i),
            None => if cells.last().ids().contains(pane_id) { Some(cells.len() - 1) } else { None },
        }
    }
}

/// `child_with` names the first child that holds the pane.
pub proof fn lemma_child_with(cells: Seq<LayoutCell>, pane_id: u32, i: int)
    requires
        0 <= i < cells.len(),
        cells[i].ids().contains(pane_id),
        forall|j: int| 0 <= j < i ==> !(#[trigger] cells[j]).ids().contains(pane_id),
    ensures
        child_with(cells, pane_id) == Some(i),
    decreases cells.len(),
{
    if i < cells.len() - 1 {
        lemma_child_with(cells.drop_last(), pane_id, i);
    } else {
        lemma_child_with_none(cells.drop_last(), pane_id);
    }
}

/// No child holds the pane.
pub proof fn lemma_child_with_none(cells: Seq<LayoutCell>, pane_id: u32)
    requires
        forall|j: int| 0 <= j < cells.len() ==> !(#[trigger] cells[j]).ids().contains(pane_id),
    ensures
        child_with(cells, pane_id) is None,
    decreases cells.len(),
{
    if cells.len() > 0 {
        lemma_child_with_none(cells.drop_last(), pane_id);
    }
}

/// The extent `extent` moved by `change` cells, when there is a change.
pub open spec fn moved_extent(extent: u16, change: int) -> u16 {
    if change == 0 { extent } else { adjusted(extent, change) }
}

/// The sibling that trades cells with child `i` of `n` when its extent is
/// set: the one after it, or the one before when it is last.
pub open spec fn receiver_of(i: int, n: int) -> int {
    if i + 1 < n { i + 1 } else { i - 1 }
}

/// How many cells child `i` of `xs` gains (or, negative, gives up) when its
/// extent along `direction` is set to `requested`: what is asked for, limited
/// by what the receiver can give or what the child itself can.
pub open spec fn set_change(xs: Seq<LayoutCell>, i: int, direction: SplitDirection, requested: u16) -> int {
    let want = requested - xs[i].spec_rect().spec_axis(direction);
    if want > 0 {
        let spare = avail(xs[receiver_of(i, xs.len() as int)], direction) as int;
        if spare < want { spare } else { want }
    } else {
        let spare = avail(xs[i], direction) as int;
        if want < -spare { -spare } else { want }
    }
}

/// Whether setting pane `pane_id`'s extent along `direction` finds a split
/// to do it in: a split along that axis, with at least two children, on the
/// way down to the pane.
pub open spec fn set_target_found(cell: LayoutCell, pane_id: u32, direction: SplitDirection) -> bool
    decreases cell,
{
    match cell {
        LayoutCell::Pane { .. } => false,
        LayoutCell::Split { direction: own, children, .. } => match child_with(children@, pane_id) {
            Some(i) => if 0 <= i < children@.len() {
                set_target_found(children@[i], pane_id, direction) || (own == direction && children@.len() >= 2)
            } else {
                false
            },
            None => false,
        },
    }
}

/// `b` is `a` with pane `pane_id`'s extent along `direction` set to
/// `requested` in the innermost split along that axis that holds it: the
/// child holding the pane there moves by [`set_change`], its receiver by
/// the opposite amount, and the other children keep their extents.
pub open spec fn extent_set(a: LayoutCell, b: LayoutCell, pane_id: u32, direction: SplitDirection, requested: u16) -> bool
    decreases a,
{
    match (a, b) {
        (
            LayoutCell::Split { direction: own, children: xs, .. },
            LayoutCell::Split { direction: own_b, children: ys, .. },
        ) => own == own_b && xs@.len() == ys@.len() && match child_with(xs@, pane_id) {
            Some(i) => if 0 <= i < xs@.len() {
                if set_target_found(xs@[i], pane_id, direction) {
                    extent_set(xs@[i], ys@[i], pane_id, direction, requested)
                } else {
                    let r = receiver_of(i, xs@.len() as int);
                    let change = set_change(xs@, i, direction, requested);
                    &&& own == direction
                    &&& xs@.len() >= 2
                    &&& ys@[i].spec_rect().spec_axis(direction) == moved_extent(xs@[i].spec_rect().spec_axis(direction), change)
                    &&& ys@[r].spec_rect().spec_axis(direction) == moved_extent(xs@[r].spec_rect().spec_axis(direction), -change)
                    &&& forall|j: int| 0 <= j < xs@.len() && j != i && j != r
                        ==> (#[trigger] ys@[j]).spec_rect().spec_axis(direction) == xs@[j].spec_rect().spec_axis(direction)
                }
            } else {
                false
            },
            None => false,
        },
        _ => false,
    }
}

/// The neighbour that gives cells to child `i` of `n`: the one after it
/// (`forward`) or before it.
pub open spec fn donor_of(i: int, n: int, forward: bool) -> Option<int> {
    if forward {
        if i + 1 < n { Some(i + 1) } else { None }
    } else {
        if i >= 1 { Some(i - 1) } else { None }
    }
}

/// How many cells child `i` of `xs` takes from its donor: up to `amount`,
/// as far as the donor can give.
pub open spec fn taken(xs: Seq<LayoutCell>, i: int, direction: SplitDirection, forward: bool, amount: u16) -> int {
    match donor_of(i, xs.len() as int, forward) {
        Some(d) => {
            let spare = avail(xs[d], direction);
            (if amount < spare { amount } else { spare }) as int
        },
        None => 0,
    }
}

/// Whether growing pane `pane_id` toward its neighbour changes anything: on
/// the way down to the pane, a split along the axis whose donor next to the
/// pane's child can give a cell.
pub open spec fn toward_found(cell: LayoutCell, pane_id: u32, direction: SplitDirection, forward: bool, amount: u16) -> bool
    decreases cell,
{
    match cell {
        LayoutCell::Pane { .. } => false,
        LayoutCell::Split { direction: own, children, .. } => match child_with(children@, pane_id) {
            Some(i) => if 0 <= i < children@.len() {
                toward_found(children@[i], pane_id, direction, forward, amount)
                    || (own == direction && taken(children@, i, direction, forward, amount) > 0)
            } else {
                false
            },
            None => false,
        },
    }
}

/// `b` is `a` with pane `pane_id` grown toward its neighbour in the
/// innermost split that could give: the child holding the pane gains
/// [`taken`] cells, the donor loses them, the other children keep their
/// extents.
pub open spec fn grown_toward(a: LayoutCell, b: LayoutCell, pane_id: u32, direction: SplitDirection, forward: bool, amount: u16) -> bool
    decreases a,
{
    match (a, b) {
        (
            LayoutCell::Split { direction: own, children: xs, .. },
            LayoutCell::Split { direction: own_b, children: ys, .. },
        ) => own == own_b && xs@.len() == ys@.len() && match child_with(xs@, pane_id) {
            Some(i) => if 0 <= i < xs@.len() {
                if toward_found(xs@[i], pane_id, direction, forward, amount) {
                    grown_toward(xs@[i], ys@[i], pane_id, direction, forward, amount)
                } else {
                    let d = donor_of(i, xs@.len() as int, forward)->0;
                    let m = taken(xs@, i, direction, forward, amount);
                    &&& own == direction
                    &&& donor_of(i, xs@.len() as int, forward) is Some
                    &&& ys@[i].spec_rect().spec_axis(direction) == adjusted(xs@[i].spec_rect().spec_axis(direction), m)
                    &&& ys@[d].spec_rect().spec_axis(direction) == adjusted(xs@[d].spec_rect().spec_axis(direction), -m)
                    &&& forall|j: int| 0 <= j < xs@.len() && j != i && j != d
                        ==> (#[trigger] ys@[j]).spec_rect().spec_axis(direction) == xs@[j].spec_rect().spec_axis(direction)
                }
            } else {
                false
            },
            None => false,
        },
        _ => false,
    }
}

/// Laying a tree out again keeps a set extent.
pub proof fn lemma_extent_set_kept(a: LayoutCell, b: LayoutCell, c: LayoutCell, pane_id: u32, direction: SplitDirection, requested: u16)
    requires
        extent_set(a, b, pane_id, direction, requested),
        same_extents(b, c),
    ensures
        extent_set(a, c, pane_id, direction, requested),
    decreases a,
{
    if let (LayoutCell::Split { children: xs, .. }, LayoutCell::Split { children: ys, .. }, LayoutCell::Split { children: zs, .. }) = (a, b, c) {
        let i = child_with(xs@, pane_id)->0;
        if set_target_found(xs@[i], pane_id, direction) {
            lemma_extent_set_kept(xs@[i], ys@[i], zs@[i], pane_id, direction, requested);
        } else {
            assert forall|j: int| 0 <= j < xs@.len() implies (#[trigger] zs@[j]).spec_rect().spec_axis(direction)
                == ys@[j].spec_rect().spec_axis(direction) by {
                assert(same_extents(b, c));
                assert(ys@[j].spec_rect().spec_axis(direction) == zs@[j].spec_rect().spec_axis(direction));
            }
        }
    }
}

/// Laying a tree out again keeps a growth toward a neighbour.
pub proof fn lemma_grown_toward_kept(a: LayoutCell, b: LayoutCell, c: LayoutCell, pane_id: u32, direction: SplitDirection, forward: bool, amount: u16)
    requires
        grown_toward(a, b, pane_id, direction, forward, amount),
        same_extents(b, c),
    ensures
        grown_toward(a, c, pane_id, direction, forward, amount),
    decreases a,
{
    if let (LayoutCell::Split { children: xs, .. }, LayoutCell::Split { children: ys, .. }, LayoutCell::Split { children: zs, .. }) = (a, b, c) {
        let i = child_with(xs@, pane_id)->0;
        if toward_found(xs@[i], pane_id, direction, forward, amount) {
            lemma_grown_toward_kept(xs@[i], ys@[i], zs@[i], pane_id, direction, forward, amount);
        } else {
            assert forall|j: int| 0 <= j < xs@.len() implies (#[trigger] zs@[j]).spec_rect().spec_axis(direction)
                == ys@[j].spec_rect().spec_axis(direction) by {
                assert(same_extents(b, c));
                assert(ys@[j].spec_rect().spec_axis(direction) == zs@[j].spec_rect().spec_axis(direction));
            }
        }
    }
}

/// Trees equal node by node can give up the same number of cells.
pub proof fn lemma_same_tree_avail(a: LayoutCell, b: LayoutCell, direction: SplitDirection)
    requires
        same_tree(a, b),
    ensures
        avail(a, direction) == avail(b, direction),
    decreases a, 0nat,
{
    if let (LayoutCell::Split { children: xs, .. }, LayoutCell::Split { children: ys, .. }) = (a, b) {
        lemma_same_tree_avail_seq(xs@, ys@, direction);
    }
}

pub proof fn lemma_same_tree_avail_seq(xs: Seq<LayoutCell>, ys: Seq<LayoutCell>, direction: SplitDirection)
    requires
        xs.len() == ys.len(),
        forall|i: int| 0 <= i < xs.len() ==> same_tree(#[trigger] xs[i], ys[i]),
    ensures
        avail_sum(xs, direction) == avail_sum(ys, direction),
        avail_min(xs, direction) == avail_min(ys, direction),
    decreases xs, xs.len(),
{
    if xs.len() > 0 {
        lemma_same_tree_avail(xs.last(), ys.last(), direction);
        lemma_same_tree_avail(xs[0], ys[0], direction);
        lemma_same_tree_avail_seq(xs.drop_last(), ys.drop_last(), direction);
    }
}

impl LayoutCell {
    /// Grow pane `pane_id` by up to `amount` cells along `direction`, taking
    /// them from the neighbour after it (`forward`) or before it, in the
    /// innermost split along that axis that can give them. Whether the
    /// layout changed (see [`toward_found`]); what changes is stated by
    /// [`grown_toward`].
    #[verifier::loop_isolation(false)]
    #[verifier::spinoff_prover]
    #[verifier::rlimit(40)]
    pub fn resize_pane_toward(&mut self, pane_id: u32, direction: SplitDirection, forward: bool, amount: u16) -> (changed: bool)
        ensures
            same_shape(*old(self), *final(self)),
            final(self).spec_rect() == old(self).spec_rect(),
            changed == toward_found(*old(self), pane_id, direction, forward, amount),
            changed ==> final(self).laid_out(),
            changed ==> grown_toward(*old(self), *final(self), pane_id, direction, forward, amount),
            !changed ==> same_tree(*old(self), *final(self)),
        decreases old(self).depth(),
    {
        proof {
            lemma_same_shape_refl(*self);
            lemma_same_tree_refl(*self);
        }
        match self {
            LayoutCell::Pane { .. } => false,
            LayoutCell::Split { direction: own, children, .. } => {
                let ghost orig = children@;
                let ghost start = *old(self);
                let found = position_of(children, pane_id);
                let index = match found {
                    Some(index) => index,
                    None => {
                        proof {
                            lemma_child_with_none(orig, pane_id);
                        }
                        return false;
                    },
                };
                proof {
                    lemma_depth_of_child(orig, index as int);
                    lemma_child_with(orig, pane_id, index as int);
                }
                if children[index].resize_pane_toward(pane_id, direction, forward, amount) {
                    proof {
                        assert forall|j: int| 0 <= j < orig.len() implies same_shape(#[trigger] orig[j], children@[j]) by {
                            if j != index {
                                lemma_same_shape_refl(orig[j]);
                            }
                        }
                    }
                    let ghost unfixed = *self;
                    self.fix_offsets();
                    proof {
                        lemma_split_same_shape(start, unfixed);
                        lemma_same_extents_shape(unfixed, *self);
                        lemma_same_shape_trans(start, unfixed, *self);
                        assert(grown_toward(start, unfixed, pane_id, direction, forward, amount));
                        lemma_grown_toward_kept(start, unfixed, *self, pane_id, direction, forward, amount);
                    }
                    return true;
                }
                proof {
                    lemma_same_tree_refl(start);
                    assert forall|j: int| 0 <= j < orig.len() implies same_tree(#[trigger] orig[j], children@[j]) by {
                        lemma_same_tree_refl(orig[j]);
                    }
                }
                if *own != direction {
                    return false;
                }
                let donor = if forward {
                    if index + 1 < children.len() { Some(index + 1) } else { None }
                } else {
                    if index >= 1 { Some(index - 1) } else { None }
                };
                proof {
                    assert(donor == match donor_of(index as int, orig.len() as int, forward) {
                        Some(d) => Some(d as usize),
                        None => None::<usize>,
                    });
                }
                let donor = match donor {
                    Some(donor) => donor,
                    None => return false,
                };
                let ghost asked = amount;
                let spare = children[donor].available(direction);
                let amount = if amount < spare { amount } else { spare };
                proof {
                    assert(children@[donor as int] == orig[donor as int]);
                    assert(amount as int == taken(orig, index as int, direction, forward, asked));
                }
                if amount == 0 {
                    return false;
                }
                let ghost before = children@;
                children[index].adjust(direction, amount as i32);
                children[donor].adjust(direction, -(amount as i32));
                proof {
                    assert forall|j: int| 0 <= j < orig.len() implies same_shape(#[trigger] orig[j], children@[j]) by {
                        if j == index {
                            lemma_same_tree_shape(orig[j], before[j]);
                            lemma_changed_only_along_shape(before[j], children@[j], direction);
                            lemma_same_shape_trans(orig[j], before[j], children@[j]);
                        } else if j == donor {
                            lemma_changed_only_along_shape(orig[j], children@[j], direction);
                        } else {
                            lemma_same_shape_refl(orig[j]);
                        }
                    }
                    assert forall|j: int| 0 <= j < orig.len() && j != index && j != donor implies
                        (#[trigger] children@[j]).spec_rect().spec_axis(direction) == orig[j].spec_rect().spec_axis(direction) by {
                        assert(children@[j] == orig[j]);
                    }
                }
                let ghost unfixed = *self;
                proof {
                    assert(grown_toward(start, unfixed, pane_id, direction, forward, asked));
                }
                self.fix_offsets();
                proof {
                    lemma_split_same_shape(start, unfixed);
                    lemma_same_extents_shape(unfixed, *self);
                    lemma_same_shape_trans(start, unfixed, *self);
                    lemma_grown_toward_kept(start, unfixed, *self, pane_id, direction, forward, asked);
                }
                true
            },
        }
    }

    /// Set pane `pane_id`'s extent along `direction` to `requested` cells, in
    /// the innermost split along that axis, trading cells with the sibling
    /// after it (or before it when it is last) as far as either can give.
    /// Whether such a split was found (see [`set_target_found`]); what
    /// changes is stated by [`extent_set`].
    #[verifier::loop_isolation(false)]
    #[verifier::spinoff_prover]
    #[verifier::rlimit(40)]
    pub fn resize_pane_to(&mut self, pane_id: u32, direction: SplitDirection, requested: u16) -> (found: bool)
        ensures
            same_shape(*old(self), *final(self)),
            final(self).spec_rect() == old(self).spec_rect(),
            found == set_target_found(*old(self), pane_id, direction),
            found ==> extent_set(*old(self), *final(self), pane_id, direction, requested),
            !found ==> same_tree(*old(self), *final(self)),
        decreases old(self).depth(),
    {
        proof {
            lemma_same_shape_refl(*self);
            lemma_same_tree_refl(*self);
        }
        match self {
            LayoutCell::Pane { .. } => false,
            LayoutCell::Split { direction: own, children, .. } => {
                let ghost orig = children@;
                let ghost start = *old(self);
                let found = position_of(children, pane_id);
                let index = match found {
                    Some(index) => index,
                    None => {
                        proof {
                            lemma_child_with_none(orig, pane_id);
                        }
                        return false;
                    },
                };
                proof {
                    lemma_depth_of_child(orig, index as int);
                    lemma_child_with(orig, pane_id, index as int);
                }
                if children[index].resize_pane_to(pane_id, direction, requested) {
                    proof {
                        assert forall|j: int| 0 <= j < orig.len() implies same_shape(#[trigger] orig[j], children@[j]) by {
                            if j != index {
                                lemma_same_shape_refl(orig[j]);
                            }
                        }
                    }
                    let ghost unfixed = *self;
                    self.fix_offsets();
                    proof {
                        lemma_split_same_shape(start, unfixed);
                        lemma_same_extents_shape(unfixed, *self);
                        lemma_same_shape_trans(start, unfixed, *self);
                        assert(extent_set(start, unfixed, pane_id, direction, requested));
                        lemma_extent_set_kept(start, unfixed, *self, pane_id, direction, requested);
                    }
                    return true;
                }
                proof {
                    lemma_same_tree_refl(start);
                    assert forall|j: int| 0 <= j < orig.len() implies same_tree(#[trigger] orig[j], children@[j]) by {
                        lemma_same_tree_refl(orig[j]);
                    }
                }
                if *own != direction || children.len() < 2 {
                    return false;
                }
                let ghost before = children@;
                proof {
                    lemma_same_tree_avail(orig[index as int], before[index as int], direction);
                }
                let current = children[index].rect().axis(direction);
                let mut delta: i32 = requested as i32 - current as i32;
                let receiver = if index + 1 < children.len() { index + 1 } else { index - 1 };
                if delta > 0 {
                    let spare = children[receiver].available(direction) as i32;
                    if spare < delta {
                        delta = spare;
                    }
                } else {
                    let spare = children[index].available(direction) as i32;
                    if delta < -spare {
                        delta = -spare;
                    }
                }
                proof {
                    assert(receiver as int == receiver_of(index as int, orig.len() as int));
                    assert(before[receiver as int] == orig[receiver as int]);
                    assert(delta as int == set_change(orig, index as int, direction, requested));
                }
                if delta == 0 {
                    proof {
                        assert forall|j: int| 0 <= j < orig.len() implies (#[trigger] children@[j]).spec_rect().spec_axis(direction)
                            == orig[j].spec_rect().spec_axis(direction) by {
                            if j != index {
                                assert(children@[j] == orig[j]);
                            }
                        }
                        assert(extent_set(start, *self, pane_id, direction, requested));
                    }
                    return true;
                }
                children[index].adjust(direction, delta);
                children[receiver].adjust(direction, -delta);
                proof {
                    assert forall|j: int| 0 <= j < orig.len() implies same_shape(#[trigger] orig[j], children@[j]) by {
                        if j == index {
                            lemma_same_tree_shape(orig[j], before[j]);
                            lemma_changed_only_along_shape(before[j], children@[j], direction);
                            lemma_same_shape_trans(orig[j], before[j], children@[j]);
                        } else if j == receiver {
                            lemma_changed_only_along_shape(orig[j], children@[j], direction);
                        } else {
                            lemma_same_shape_refl(orig[j]);
                        }
                    }
                    assert forall|j: int| 0 <= j < orig.len() && j != index && j != receiver implies
                        (#[trigger] children@[j]).spec_rect().spec_axis(direction) == orig[j].spec_rect().spec_axis(direction) by {
                        assert(children@[j] == orig[j]);
                    }
                }
                let ghost unfixed = *self;
                proof {
                    assert(extent_set(start, unfixed, pane_id, direction, requested));
                }
                self.fix_offsets();
                proof {
                    lemma_split_same_shape(start, unfixed);
                    lemma_same_extents_shape(unfixed, *self);
                    lemma_same_shape_trans(start, unfixed, *self);
                    lemma_extent_set_kept(start, unfixed, *self, pane_id, direction, requested);
                }
                true
            },
        }
    }
}


/// Whether leaf `rect` lies beside `current` in `direction` (after it when
/// `forward`), overlapping it across the axis.
pub open spec fn beside(rect: PaneRect, current: PaneRect, direction: SplitDirection, forward: bool) -> bool {
    let overlaps = match direction {
        SplitDirection::LeftRight => rect.top < sat_add(current.top, current.height) && current.top < sat_add(
            rect.top,
            rect.height,
        ),
        SplitDirection::TopBottom => rect.left < sat_add(current.left, current.width) && current.left < sat_add(
            rect.left,
            rect.width,
        ),
    };
    let ahead = match (direction, forward) {
        (SplitDirection::LeftRight, true) => rect.left > current.left,
        (SplitDirection::LeftRight, false) => rect.left < current.left,
        (SplitDirection::TopBottom, true) => rect.top > current.top,
        (SplitDirection::TopBottom, false) => rect.top < current.top,
    };
    overlaps && ahead
}

/// How far `rect` starts from `current` along `direction`.
pub open spec fn gap(rect: PaneRect, current: PaneRect, direction: SplitDirection) -> int {
    let (a, b) = match direction {
        SplitDirection::LeftRight => (rect.left as int, current.left as int),
        SplitDirection::TopBottom => (rect.top as int, current.top as int),
    };
    if a < b { b - a } else { a - b }
}

/// A pane lies beside `current` exactly when it starts after it (before it,
/// when not `forward`) along `direction` and their ranges across that axis
/// overlap: the columns for moving up or down, the rows for moving left or
/// right. Nearness is the distance between their starts along `direction`.
pub proof fn lemma_beside_meaning(rect: PaneRect, current: PaneRect, direction: SplitDirection, forward: bool)
    requires
        rect.left + rect.width <= u16::MAX,
        rect.top + rect.height <= u16::MAX,
        current.left + current.width <= u16::MAX,
        current.top + current.height <= u16::MAX,
    ensures
        direction == SplitDirection::TopBottom ==> (beside(rect, current, direction, forward) <==> {
            &&& rect.left < current.left + current.width
            &&& current.left < rect.left + rect.width
            &&& if forward { rect.top > current.top } else { rect.top < current.top }
        }),
        direction == SplitDirection::LeftRight ==> (beside(rect, current, direction, forward) <==> {
            &&& rect.top < current.top + current.height
            &&& current.top < rect.top + rect.height
            &&& if forward { rect.left > current.left } else { rect.left < current.left }
        }),
        direction == SplitDirection::TopBottom ==> gap(rect, current, direction) == if rect.top >= current.top {
            rect.top - current.top
        } else {
            current.top - rect.top
        },
        direction == SplitDirection::LeftRight ==> gap(rect, current, direction) == if rect.left >= current.left {
            rect.left - current.left
        } else {
            current.left - rect.left
        },
{
}

/// Whether leaf `k` is a pane other than `pane_id` beside `current`.
pub open spec fn neighbour_candidate(
    leaves: Seq<(u32, PaneRect)>,
    k: int,
    pane_id: u32,
    current: PaneRect,
    direction: SplitDirection,
    forward: bool,
) -> bool {
    leaves[k].0 != pane_id && beside(leaves[k].1, current, direction, forward)
}

fn abs_gap(a: u16, b: u16) -> (d: u16)
    ensures
        d == (if a < b { b - a } else { a - b }),
{
    if a < b { b - a } else { a - b }
}

impl LayoutCell {
    /// The nearest pane beside `pane_id` in `direction` (after it when
    /// `forward`) that overlaps it across the axis; the first such pane, in
    /// tree order, among those equally near.
    pub fn neighbour(&self, pane_id: u32, direction: SplitDirection, forward: bool) -> (found: Option<u32>)
        ensures
            match find_rect(self.leaves(), pane_id) {
                None => found is None,
                Some(current) => {
                    let leaves = self.leaves();
                    match found {
                        None => forall|k: int| 0 <= k < leaves.len() ==> !neighbour_candidate(leaves, k, pane_id, current, direction, forward),
                        Some(id) => exists|k: int| {
                            &&& 0 <= k < leaves.len()
                            &&& neighbour_candidate(leaves, k, pane_id, current, direction, forward)
                            &&& leaves[k].0 == id
                            &&& forall|m: int| 0 <= m < leaves.len() && neighbour_candidate(leaves, m, pane_id, current, direction, forward)
                                ==> gap(leaves[k].1, current, direction) <= gap(leaves[m].1, current, direction)
                            &&& forall|m: int| 0 <= m < k && neighbour_candidate(leaves, m, pane_id, current, direction, forward)
                                ==> gap(leaves[k].1, current, direction) < gap(leaves[m].1, current, direction)
                        },
                    }
                },
            },
    {
        let current = match self.pane_rect(pane_id) {
            Some(rect) => rect,
            None => return None,
        };
        let panes = self.panes();
        let ghost leaves = self.leaves();
        let mut best: Option<usize> = None;
        let mut best_gap: u16 = 0;
        let mut i: usize = 0;
        while i < panes.len()
            invariant
                0 <= i <= panes.len(),
                panes@ == leaves,
                match best {
                    None => forall|m: int| 0 <= m < i ==> !neighbour_candidate(leaves, m, pane_id, current, direction, forward),
                    Some(k) => {
                        &&& k < i
                        &&& neighbour_candidate(leaves, k as int, pane_id, current, direction, forward)
                        &&& best_gap == gap(leaves[k as int].1, current, direction)
                        &&& forall|m: int| 0 <= m < i && neighbour_candidate(leaves, m, pane_id, current, direction, forward)
                            ==> best_gap <= gap(leaves[m].1, current, direction)
                        &&& forall|m: int| 0 <= m < k && neighbour_candidate(leaves, m, pane_id, current, direction, forward)
                            ==> best_gap < gap(leaves[m].1, current, direction)
                    },
                },
            decreases panes.len() - i,
        {
            let (id, rect) = panes[i];
            let overlaps = match direction {
                SplitDirection::LeftRight => rect.top < current.top.saturating_add(current.height)
                    && current.top < rect.top.saturating_add(rect.height),
                SplitDirection::TopBottom => rect.left < current.left.saturating_add(current.width)
                    && current.left < rect.left.saturating_add(rect.width),
            };
            let ahead = match (direction, forward) {
                (SplitDirection::LeftRight, true) => rect.left > current.left,
                (SplitDirection::LeftRight, false) => rect.left < current.left,
                (SplitDirection::TopBottom, true) => rect.top > current.top,
                (SplitDirection::TopBottom, false) => rect.top < current.top,
            };
            if id != pane_id && overlaps && ahead {
                let distance = match direction {
                    SplitDirection::LeftRight => abs_gap(rect.left, current.left),
                    SplitDirection::TopBottom => abs_gap(rect.top, current.top),
                };
                let better = match best {
                    None => true,
                    Some(_) => distance < best_gap,
                };
                if better {
                    best = Some(i);
                    best_gap = distance;
                }
            }
            i += 1;
        }
        match best {
            None => None,
            Some(k) => Some(panes[k].0),
        }
    }
}


/// The mathematical value of a layout tree.
pub enum LayoutTree {
    Pane(u32, PaneRect),
    Split(SplitDirection, PaneRect, Seq<LayoutTree>),
}

impl LayoutCell {
    pub open spec fn tree(self) -> LayoutTree
        decreases self, 0nat,
    {
        match self {
            LayoutCell::Pane { pane_id, rect } => LayoutTree::Pane(pane_id, rect),
            LayoutCell::Split { direction, rect, children } => LayoutTree::Split(direction, rect, trees_of(children@)),
        }
    }
}

/// The values of a run of cells.
pub open spec fn trees_of(cells: Seq<LayoutCell>) -> Seq<LayoutTree>
    decreases cells, cells.len(),
{
    if cells.len() == 0 {
        Seq::empty()
    } else {
        trees_of(cells.drop_last()).push(cells.last().tree())
    }
}

pub proof fn lemma_trees_of(cells: Seq<LayoutCell>)
    ensures
        trees_of(cells).len() == cells.len(),
        forall|i: int| 0 <= i < cells.len() ==> #[trigger] trees_of(cells)[i] == cells[i].tree(),
    decreases cells.len(),
{
    if cells.len() > 0 {
        lemma_trees_of(cells.drop_last());
    }
}

impl View for LayoutCell {
    type V = LayoutTree;

    open spec fn view(&self) -> LayoutTree {
        self.tree()
    }
}


/// A rectangle as the layout format writes it: `WxH,LEFT,TOP`.
pub open spec fn geometry_text(rect: PaneRect) -> Seq<char> {
    decimal(rect.width as nat) + seq!['x'] + decimal(rect.height as nat) + seq![','] + decimal(rect.left as nat)
        + seq![','] + decimal(rect.top as nat)
}

/// The brackets around a split's children: `[...]` for top/bottom,
/// `{...}` for left/right.
pub open spec fn open_bracket(direction: SplitDirection) -> char {
    match direction {
        SplitDirection::TopBottom => '[',
        SplitDirection::LeftRight => '{',
    }
}

pub open spec fn close_bracket(direction: SplitDirection) -> char {
    match direction {
        SplitDirection::TopBottom => ']',
        SplitDirection::LeftRight => '}',
    }
}

/// A layout tree in the layout format: a pane as `WxH,LEFT,TOP,ID`, a split
/// as `WxH,LEFT,TOP` followed by its children, comma-separated, in brackets.
pub open spec fn layout_text(tree: LayoutTree) -> Seq<char>
    decreases tree, 0nat,
{
    match tree {
        LayoutTree::Pane(pane_id, rect) => geometry_text(rect) + seq![','] + decimal(pane_id as nat),
        LayoutTree::Split(direction, rect, children) => geometry_text(rect) + seq![open_bracket(direction)]
            + layout_list_text(children) + seq![close_bracket(direction)],
    }
}

pub open spec fn layout_list_text(trees: Seq<LayoutTree>) -> Seq<char>
    decreases trees, trees.len(),
{
    if trees.len() == 0 {
        Seq::empty()
    } else if trees.len() == 1 {
        layout_text(trees[0])
    } else {
        layout_list_text(trees.drop_last()) + seq![','] + layout_text(trees.last())
    }
}

/// Append the geometry of `rect` in the layout format.
fn push_geometry(out: &mut String, rect: PaneRect)
    ensures
        final(out)@ == old(out)@ + geometry_text(rect),
{
    let ghost start = out@;
    push_decimal(out, rect.width as u64);
    push_char(out, 'x');
    push_decimal(out, rect.height as u64);
    push_char(out, ',');
    push_decimal(out, rect.left as u64);
    push_char(out, ',');
    push_decimal(out, rect.top as u64);
    proof {
        assert(out@ =~= start + geometry_text(rect));
    }
}

impl LayoutCell {
    /// Append the tree in the layout format to `out`.
    #[verifier::loop_isolation(false)]
    pub fn dump_into(&self, out: &mut String)
        ensures
            final(out)@ == old(out)@ + layout_text(self@),
        decreases self,
    {
        let ghost start = out@;
        match self {
            LayoutCell::Pane { pane_id, rect } => {
                push_geometry(out, *rect);
                push_char(out, ',');
                push_decimal(out, *pane_id as u64);
                proof {
                    assert(out@ =~= start + layout_text(self@));
                }
            },
            LayoutCell::Split { direction, rect, children } => {
                push_geometry(out, *rect);
                let (open, close) = match direction {
                    SplitDirection::TopBottom => ('[', ']'),
                    SplitDirection::LeftRight => ('{', '}'),
                };
                push_char(out, open);
                let ghost head = out@;
                proof {
                    lemma_trees_of(children@);
                }
                let mut i: usize = 0;
                while i < children.len()
                    invariant
                        0 <= i <= children.len(),
                        out@ == head + layout_list_text(trees_of(children@).take(i as int)),
                    decreases children.len() - i,
                {
                    let ghost before = out@;
                    if i > 0 {
                        push_char(out, ',');
                    }
                    assert(decreases_to!(self => children@[i as int]));
                    children[i].dump_into(out);
                    proof {
                        let ts = trees_of(children@);
                        assert(ts.take(i + 1).drop_last() =~= ts.take(i as int));
                        assert(ts.take(i + 1).last() == children@[i as int].tree());
                        if i == 0 {
                            assert(ts.take(1) =~= seq![ts[0]]);
                            assert(out@ =~= head + layout_list_text(ts.take(i + 1)));
                        } else {
                            assert(out@ =~= head + layout_list_text(ts.take(i + 1)));
                        }
                    }
                    i += 1;
                }
                push_char(out, close);
                proof {
                    assert(trees_of(children@).take(i as int) =~= trees_of(children@));
                    assert(out@ =~= start + layout_text(self@));
                }
            },
        }
    }

    /// The tree in the layout format.
    pub fn dump(&self) -> (text: String)
        ensures
            text@ == layout_text(self@),
    {
        let mut out = String::new();
        self.dump_into(&mut out);
        proof {
            assert(Seq::<char>::empty() + layout_text(self@) =~= layout_text(self@));
        }
        out
    }
}


/// The extent the `i`-th of `n` evenly divided children gets: an equal share
/// of what is left after the separators, the first children taking one cell
/// more each until the remainder is used up.
pub open spec fn even_share(extent: u16, n: nat, i: int) -> u16 {
    let total = sat_sub(extent, (n - 1) as u16);
    (total / (n as u16) + if i < total % (n as u16) { 1int } else { 0int }) as u16
}

/// Cells that are each a pane, named in order by `ids`.
pub open spec fn panes_named(cells: Seq<LayoutCell>, ids: Seq<u32>) -> bool {
    &&& cells.len() == ids.len()
    &&& forall|i: int| 0 <= i < cells.len() ==> (#[trigger] cells[i]) is Pane && cells[i]->pane_id == ids[i]
}

pub proof fn lemma_panes_named_ids(cells: Seq<LayoutCell>, ids: Seq<u32>)
    requires
        panes_named(cells, ids),
    ensures
        ids_of(leaves_of(cells)) == ids,
    decreases cells.len(),
{
    if cells.len() > 0 {
        assert(panes_named(cells.drop_last(), ids.drop_last()));
        lemma_panes_named_ids(cells.drop_last(), ids.drop_last());
        let last = cells[cells.len() - 1];
        assert(last is Pane);
        assert(ids_of(last.leaves()) =~= seq![last->pane_id]);
        lemma_ids_of_append(leaves_of(cells.drop_last()), cells.last().leaves());
        assert(ids.drop_last().push(ids.last()) =~= ids);
    }
}

/// Laid out cells that keep their extents and stay panes with the same names.
pub proof fn lemma_panes_named_kept(a: Seq<LayoutCell>, b: Seq<LayoutCell>, ids: Seq<u32>)
    requires
        panes_named(a, ids),
        a.len() == b.len(),
        forall|i: int| 0 <= i < a.len() ==> same_extents(#[trigger] a[i], b[i]),
    ensures
        panes_named(b, ids),
{
    assert forall|i: int| 0 <= i < b.len() implies (#[trigger] b[i]) is Pane && b[i]->pane_id == ids[i] by {
        assert(same_extents(a[i], b[i]));
    }
}

impl LayoutCell {
    /// Divide `rect` evenly along `direction` among the panes `pane_ids`, in
    /// order; a single pane takes the whole area.
    pub fn even(pane_ids: &[u32], direction: SplitDirection, rect: PaneRect) -> (cell: LayoutCell)
        requires
            1 <= pane_ids@.len() <= u16::MAX,
        ensures
            cell.ids() == pane_ids@,
            cell.spec_rect() == rect,
            cell.laid_out(),
            pane_ids@.len() == 1 ==> cell == (LayoutCell::Pane { pane_id: pane_ids@[0], rect }),
            pane_ids@.len() > 1 ==> cell is Split && cell->direction == direction && panes_named(
                cell->children@,
                pane_ids@,
            ) && forall|i: int| 0 <= i < pane_ids@.len() ==> (#[trigger] cell->children@[i]).spec_rect().spec_axis(
                direction,
            ) == even_share(rect.spec_axis(direction), pane_ids@.len(), i),
    {
        let n = pane_ids.len();
        if n == 1 {
            proof {
                assert(ids_of(seq![(pane_ids@[0], rect)]) =~= pane_ids@);
            }
            return LayoutCell::Pane { pane_id: pane_ids[0], rect };
        }
        let count = n as u16;
        let total = rect.axis(direction).saturating_sub(count - 1);
        let base = total / count;
        let remainder = total % count;
        let mut children: Vec<LayoutCell> = Vec::new();
        let mut i: usize = 0;
        while i < n
            invariant
                n == pane_ids@.len(),
                n >= 2,
                count == n,
                total == sat_sub(rect.spec_axis(direction), (n - 1) as u16),
                base == total / count,
                remainder == total % count,
                0 <= i <= n,
                panes_named(children@, pane_ids@.take(i as int)),
                forall|j: int| 0 <= j < i ==> (#[trigger] children@[j]).spec_rect().spec_axis(direction)
                    == even_share(rect.spec_axis(direction), n as nat, j),
            decreases n - i,
        {
            let mut child_rect = rect;
            let extra: u16 = if (i as u16) < remainder { 1 } else { 0 };
            proof {
                assert(base <= total);
                assert(base + extra <= u16::MAX) by (nonlinear_arith)
                    requires base == total / count, count >= 2, extra <= 1, total <= u16::MAX;
            }
            child_rect.set_axis(direction, base + extra);
            children.push(LayoutCell::Pane { pane_id: pane_ids[i], rect: child_rect });
            proof {
                assert(pane_ids@.take(i + 1) =~= pane_ids@.take(i as int).push(pane_ids@[i as int]));
            }
            i += 1;
        }
        proof {
            assert(pane_ids@.take(n as int) =~= pane_ids@);
        }
        let ghost before = children@;
        let mut layout = LayoutCell::Split { direction, rect, children };
        layout.fix_offsets();
        proof {
            lemma_panes_named_kept(before, layout->children@, pane_ids@);
            lemma_panes_named_ids(layout->children@, pane_ids@);
            assert forall|j: int| 0 <= j < n implies (#[trigger] layout->children@[j]).spec_rect().spec_axis(direction)
                == before[j].spec_rect().spec_axis(direction) by {}
        }
        layout
    }
}


pub proof fn lemma_ids_of_push(cells: Seq<LayoutCell>, cell: LayoutCell)
    ensures
        ids_of(leaves_of(cells.push(cell))) == ids_of(leaves_of(cells)) + cell.ids(),
{
    assert(cells.push(cell).drop_last() =~= cells);
    lemma_ids_of_append(leaves_of(cells), cell.leaves());
}

/// The rows and columns of a tiled grid for `count` panes, grown from
/// `rows` by `columns`: a row at a time, and a column after each row while
/// the grid is still too small and `max_columns` (when not 0) allows.
pub open spec fn grid_from(rows: nat, columns: nat, count: nat, max_columns: nat) -> (nat, nat)
    decreases count - rows,
{
    if rows * columns >= count || rows >= count {
        (rows, columns)
    } else {
        let r = rows + 1;
        let c = if r * columns < count && (max_columns == 0 || columns < max_columns) { columns + 1 } else { columns };
        grid_from(r, c, count, max_columns)
    }
}

/// The rows and columns of the tiled grid for `count` panes.
pub open spec fn tile_grid(count: nat, max_columns: nat) -> (nat, nat) {
    grid_from(1, 1, count, max_columns)
}

/// The height of row `k` of `rows` in a grid `height` cells high: an even
/// share after the separators, the last row taking what is left.
pub open spec fn tile_row_height(height: u16, rows: nat, k: int) -> u16 {
    let base = (sat_sub(height, (rows - 1) as u16) / (rows as u16)) as u16;
    if k + 1 == rows {
        sat_sub(height, (sat_add(base, 1) * k) as u16)
    } else {
        base
    }
}

/// The width of pane `j` of `n` in a row `width` cells wide: an even share
/// after the separators, the last taking what is left.
pub open spec fn tile_width(width: u16, n: nat, j: int) -> u16 {
    let base = (sat_sub(width, (n - 1) as u16) / (n as u16)) as u16;
    let used = (base * n + n - 1) as u16;
    if j + 1 == n { (base + sat_sub(width, used)) as u16 } else { base }
}

/// Whether row `k` of a grid `columns` wide starts before the last of
/// `count` panes.
pub open spec fn tile_row_used(count: nat, columns: nat, k: int) -> bool {
    k * columns < count
}

/// How many panes row `k` of a grid `columns` wide holds of `count`.
pub open spec fn tile_row_size(count: nat, columns: nat, k: int) -> int {
    let left = count - k * columns;
    if columns < left { columns as int } else { left }
}

/// Row `k` of the tiled grid of `ids` in `rect` with `rows` rows of
/// `columns`: its height, and its panes in order, alone as a leaf or side by
/// side in a left-right split with their widths.
pub open spec fn tile_row(cell: LayoutCell, ids: Seq<u32>, rect: PaneRect, rows: nat, columns: nat, k: int) -> bool {
    let n = tile_row_size(ids.len(), columns, k);
    let first = k * columns;
    &&& tile_row_used(ids.len(), columns, k)
    &&& cell.spec_rect().height == tile_row_height(rect.height, rows, k)
    &&& if n == 1 {
        cell is Pane && cell->pane_id == ids[first]
    } else {
        &&& cell is Split
        &&& cell->direction == SplitDirection::LeftRight
        &&& cell->children@.len() == n
        &&& forall|j: int| 0 <= j < n ==> (#[trigger] cell->children@[j]) is Pane
            && cell->children@[j]->pane_id == ids[first + j]
            && cell->children@[j].spec_rect().width == tile_width(rect.width, n as nat, j)
    }
}

/// Laying rows out again keeps what each row holds.
pub proof fn lemma_tile_row_kept(b: LayoutCell, c: LayoutCell, ids: Seq<u32>, rect: PaneRect, rows: nat, columns: nat, k: int)
    requires
        tile_row(b, ids, rect, rows, columns, k),
        same_extents(b, c),
        b.spec_rect().height == c.spec_rect().height,
    ensures
        tile_row(c, ids, rect, rows, columns, k),
{
    if let (LayoutCell::Split { children: ys, .. }, LayoutCell::Split { children: zs, .. }) = (b, c) {
        assert forall|j: int| 0 <= j < ys@.len() implies (#[trigger] zs@[j]) is Pane && zs@[j]->pane_id == ys@[j]->pane_id
            && zs@[j].spec_rect().width == ys@[j].spec_rect().width by {
            assert(same_extents(ys@[j], zs@[j]));
        }
    }
}

    /// Row `row` of the tiled grid of `pane_ids` in `rect`: the `row_count`
    /// panes from `offset`, alone or side by side.
    #[verifier::loop_isolation(false)]
    #[verifier::spinoff_prover]
    #[verifier::rlimit(40)]
    fn tile_row_cell(
        pane_ids: &[u32],
        rect: PaneRect,
        rows: usize,
        columns: usize,
        row: usize,
        offset: usize,
        row_count: usize,
        base_height: u16,
    ) -> (row_layout: LayoutCell)
        requires
            pane_ids@.len() <= 0xffff,
            1 <= rows <= 0xffff,
            1 <= columns <= rows,
            row < rows,
            offset == row * columns,
            offset < pane_ids@.len(),
            row_count == (if columns < pane_ids@.len() - offset { columns as int } else { (pane_ids@.len() - offset) as int }),
            base_height == sat_sub(rect.height, (rows - 1) as u16) / (rows as u16),
        ensures
            ids_of(row_layout.leaves()) == pane_ids@.subrange(offset as int, offset + row_count),
            tile_row(row_layout, pane_ids@, rect, rows as nat, columns as nat, row as int),
    {
        let count = pane_ids.len();
        let row_total = rows as u16;
        let mut row_rect = rect;
        if row + 1 == rows {
            let step = base_height.saturating_add(1);
            proof {
                assert(step * row <= rect.height || base_height == 0) by (nonlinear_arith)
                    requires
                        base_height == sat_sub(rect.height, (rows - 1) as u16) / (rows as u16),
                        step == (if base_height + 1 > 0xffff { 0xffff } else { base_height + 1 }),
                        row + 1 == rows,
                        rows >= 1,
                        rows <= 0xffff;
                assert(step * row <= 0xffff) by (nonlinear_arith)
                    requires
                        step * row <= rect.height || base_height == 0,
                        base_height == 0 ==> step == 1,
                        row <= 0xffff,
                        rect.height <= 0xffff;
            }
            row_rect.height = rect.height.saturating_sub(step * (row as u16));
        } else {
            row_rect.height = base_height;
        }
        let ghost row_ids = pane_ids@.subrange(offset as int, offset + row_count);
        let row_layout = if row_count == 1 {
            proof {
                assert(ids_of(seq![(pane_ids@[offset as int], row_rect)]) =~= row_ids);
            }
            LayoutCell::Pane { pane_id: pane_ids[offset], rect: row_rect }
        } else {
            let width_total = row_count as u16;
            let base_width = rect.width.saturating_sub(width_total - 1) / width_total;
            proof {
                assert(base_width * width_total + width_total - 1 <= rect.width || base_width == 0) by (nonlinear_arith)
                    requires
                        base_width == sat_sub(rect.width, (width_total - 1) as u16) / width_total,
                        width_total >= 1;
                assert(base_width * width_total + width_total - 1 <= 0xffff) by (nonlinear_arith)
                    requires
                        base_width * width_total + width_total - 1 <= rect.width || base_width == 0,
                        width_total <= 0xffff,
                        width_total >= 1,
                        rect.width <= 0xffff;
            }
            let used = base_width * width_total + (width_total - 1);
            proof {
                assert(used >= base_width) by (nonlinear_arith)
                    requires used == base_width * width_total + (width_total - 1), width_total >= 1;
            }
            let mut cells: Vec<LayoutCell> = Vec::new();
            let mut k: usize = 0;
            while k < row_count
                invariant
                    0 <= k <= row_count,
                    offset + row_count <= count,
                    count == pane_ids@.len(),
                    used >= base_width,
                    panes_named(cells@, pane_ids@.subrange(offset as int, offset + k)),
                    forall|j: int| 0 <= j < k ==> (#[trigger] cells@[j]).spec_rect().width
                        == tile_width(rect.width, row_count as nat, j),
                decreases row_count - k,
            {
                let mut child_rect = row_rect;
                let width = base_width + if k + 1 == row_count { rect.width.saturating_sub(used) } else { 0 };
                child_rect.width = width;
                cells.push(LayoutCell::Pane { pane_id: pane_ids[offset + k], rect: child_rect });
                proof {
                    assert(pane_ids@.subrange(offset as int, offset + k + 1) =~= pane_ids@.subrange(
                        offset as int,
                        offset + k,
                    ).push(pane_ids@[offset + k]));
                }
                k += 1;
            }
            let ghost before = cells@;
            let mut row_layout = LayoutCell::Split { direction: SplitDirection::LeftRight, rect: row_rect, children: cells };
            let ghost unfixed_row = row_layout;
            proof {
                assert(tile_row(unfixed_row, pane_ids@, rect, rows as nat, columns as nat, row as int));
            }
            row_layout.fix_offsets();
            proof {
                lemma_panes_named_kept(before, row_layout->children@, row_ids);
                lemma_panes_named_ids(row_layout->children@, row_ids);
                lemma_tile_row_kept(unfixed_row, row_layout, pane_ids@, rect, rows as nat, columns as nat, row as int);
            }
            row_layout
        };
        proof {
            if row_count == 1 {
                assert(ids_of(row_layout.leaves()) =~= pane_ids@.subrange(offset as int, offset + row_count));
            }
        }
        row_layout
    }

impl LayoutCell {
    /// Tile `rect` with the panes `pane_ids` in rows, top to bottom and left
    /// to right: the grid grows a row, then a column (at most `max_columns`
    /// when that is not zero), until it has room for every pane; rows share
    /// the height evenly, the last taking what is left, and the panes of a
    /// row share its width the same way.
    #[verifier::loop_isolation(false)]
    #[verifier::spinoff_prover]
    #[verifier::rlimit(80)]
    pub fn tiled(pane_ids: &[u32], rect: PaneRect, max_columns: usize) -> (cell: LayoutCell)
        requires
            pane_ids@.len() <= u16::MAX,
        ensures
            cell.ids() == pane_ids@,
            cell.spec_rect() == rect,
            cell.laid_out(),
            cell is Split && cell->direction == SplitDirection::TopBottom,
            ({
                let count = pane_ids@.len();
                let (rows, columns) = tile_grid(count, max_columns as nat);
                &&& max_columns > 0 ==> columns <= max_columns
                &&& cell->children@.len() <= rows
                &&& cell->children@.len() * columns >= count
                &&& forall|k: int| 0 <= k < cell->children@.len() ==> tile_row(#[trigger] cell->children@[k], pane_ids@, rect, rows, columns, k)
            }),
    {
        let count = pane_ids.len();
        let mut rows: usize = 1;
        let mut columns: usize = 1;
        while rows * columns < count
            invariant
                1 <= columns <= rows,
                rows <= count || rows == 1,
                count <= u16::MAX,
                rows * columns <= 0xffff * 0xffff,
                grid_from(rows as nat, columns as nat, count as nat, max_columns as nat) == tile_grid(count as nat, max_columns as nat),
                max_columns > 0 ==> columns <= max_columns,
            decreases count - rows,
        {
            proof {
                assert(rows < count) by (nonlinear_arith)
                    requires rows * columns < count, columns >= 1;
            }
            rows += 1;
            proof {
                assert(rows * columns <= 0xffff * 0xffff) by (nonlinear_arith)
                    requires rows <= 0xffff, columns <= 0xffff, columns >= 1;
            }
            if rows * columns < count && (max_columns == 0 || columns < max_columns) {
                proof {
                    assert(rows * (columns + 1) <= 0xffff * 0xffff) by (nonlinear_arith)
                        requires rows <= 0xffff, columns + 1 <= rows;
                }
                columns += 1;
            }
        }
        let ghost grid = tile_grid(count as nat, max_columns as nat);
        proof {
            assert(grid == (rows as nat, columns as nat));
        }
        proof {
            assert(rows <= 0xffff);
        }
        let row_total = rows as u16;
        let base_height = rect.height.saturating_sub(row_total - 1) / row_total;
        let mut offset: usize = 0;
        let mut row: usize = 0;
        let mut row_cells: Vec<LayoutCell> = Vec::new();
        while row < rows && offset < count
            invariant
                0 <= row <= rows,
                row_total == rows,
                1 <= rows <= 0xffff,
                1 <= columns <= rows,
                count <= 0xffff,
                count == pane_ids@.len(),
                rows * columns >= count,
                offset == (if row * columns < count { row * columns } else { count as int }),
                base_height == sat_sub(rect.height, (rows - 1) as u16) / (rows as u16),
                ids_of(leaves_of(row_cells@)) == pane_ids@.take(offset as int),
                grid == (rows as nat, columns as nat),
                row_cells@.len() == row,
                forall|k: int| 0 <= k < row_cells@.len() ==> tile_row(#[trigger] row_cells@[k], pane_ids@, rect, rows as nat, columns as nat, k),
            decreases rows - row,
        {
            let remaining = count - offset;
            let row_count = if columns < remaining { columns } else { remaining };
            proof {
                assert(offset == row * columns);
            }
            let ghost row_ids = pane_ids@.subrange(offset as int, offset + row_count);
            let row_layout = tile_row_cell(pane_ids, rect, rows, columns, row, offset, row_count, base_height);
            proof {
                lemma_ids_of_push(row_cells@, row_layout);
                assert(pane_ids@.take(offset as int) + row_ids =~= pane_ids@.take(offset + row_count));
                assert(offset + row_count == (if (row + 1) * columns < count { (row + 1) * columns } else { count as int }))
                    by (nonlinear_arith)
                    requires
                        offset == (if row * columns < count { row * columns } else { count as int }),
                        offset < count,
                        row_count == (if columns < count - offset { columns as int } else { (count - offset) as int });
            }
            proof {
                assert(tile_row(row_layout, pane_ids@, rect, rows as nat, columns as nat, row as int));
            }
            let ghost prev_rows = row_cells@;
            proof {
                assert(row * columns < count);
            }
            row_cells.push(row_layout);
            proof {
                assert forall|k: int| 0 <= k < row_cells@.len() implies tile_row(#[trigger] row_cells@[k], pane_ids@, rect, rows as nat, columns as nat, k) by {
                    if k < prev_rows.len() {
                        assert(row_cells@[k] == prev_rows[k]);
                    }
                }
            }
            offset += row_count;
            row += 1;
        }
        proof {
            if row == rows {
                assert(offset == count);
            }
            assert(pane_ids@.take(count as int) =~= pane_ids@);
        }
        let ghost before = row_cells@;
        proof {
            assert(before.len() * columns >= count) by (nonlinear_arith)
                requires
                    before.len() == row,
                    row == rows || offset == count,
                    rows * columns >= count,
                    offset == (if row * columns < count { row * columns } else { count as int });
        }
        let mut layout = LayoutCell::Split { direction: SplitDirection::TopBottom, rect, children: row_cells };
        let ghost unfixed = layout;
        layout.fix_offsets();
        proof {
            lemma_same_extents_ids(unfixed, layout);
            assert forall|k: int| 0 <= k < layout->children@.len() implies tile_row(#[trigger] layout->children@[k], pane_ids@, rect, rows as nat, columns as nat, k) by {
                assert(same_extents(before[k], layout->children@[k]));
                assert(before[k].spec_rect().spec_axis(SplitDirection::TopBottom)
                    == layout->children@[k].spec_rect().spec_axis(SplitDirection::TopBottom));
                lemma_tile_row_kept(before[k], layout->children@[k], pane_ids@, rect, rows as nat, columns as nat, k);
            }
            assert(layout->children@.len() == before.len());
            assert(layout->children@.len() <= rows);
            assert(layout->children@.len() * columns >= count);
            assert(max_columns > 0 ==> columns <= max_columns);
        }
        layout
    }
}


/// The extents of the main pane and of the other panes' area in a main
/// layout over `extent` cells: the requested main size when it leaves room,
/// else all but one cell (one when there are at most two); the other area is
/// the requested size when given, in range and compatible, else the rest.
pub open spec fn main_shares(extent: u16, requested_main: u16, requested_other: u16) -> (u16, u16) {
    let available = sat_sub(extent, 1);
    if sat_add(requested_main, 1) >= available {
        (if available <= 2 { 1 } else { sat_sub(available, 1) }, 1)
    } else if requested_other == 0 || requested_other > available || available - requested_other < requested_main {
        (requested_main, (available - requested_main) as u16)
    } else {
        ((available - requested_other) as u16, requested_other)
    }
}

/// In a main layout over `extent` cells (one of them the separator), a
/// requested main size that leaves room for the others is kept when no
/// compatible other size is requested, the others getting the rest; a
/// compatible requested other size is kept, the main pane getting the rest.
/// Either way the two shares and the separator fill the extent.
pub proof fn lemma_main_shares_requested(extent: u16, requested_main: u16, requested_other: u16)
    requires
        requested_main + 1 < extent - 1,
    ensures
        main_shares(extent, requested_main, requested_other).0 + main_shares(extent, requested_main, requested_other).1
            + 1 == extent,
        (requested_other == 0 || requested_other > extent - 1 || extent - 1 - requested_other < requested_main) ==> {
            &&& main_shares(extent, requested_main, requested_other).0 == requested_main
            &&& main_shares(extent, requested_main, requested_other).1 == extent - 1 - requested_main
        },
        (requested_other != 0 && requested_other <= extent - 1 && extent - 1 - requested_other >= requested_main) ==> {
            &&& main_shares(extent, requested_main, requested_other).1 == requested_other
            &&& main_shares(extent, requested_main, requested_other).0 == extent - 1 - requested_other
        },
{
}

/// When the requested main size leaves no room, the other panes get one
/// cell and the main pane the rest but the separator (one cell when the
/// extent is too small for more).
pub proof fn lemma_main_shares_cramped(extent: u16, requested_main: u16, requested_other: u16)
    requires
        requested_main + 1 >= sat_sub(extent, 1),
    ensures
        main_shares(extent, requested_main, requested_other).1 == 1,
        extent >= 4 ==> main_shares(extent, requested_main, requested_other).0 + 1 + 1 == extent,
        extent < 4 ==> main_shares(extent, requested_main, requested_other).0 == 1,
{
}

impl LayoutCell {
    /// A main pane (the first of `pane_ids`) beside the others, which divide
    /// their area evenly across `direction`; `mirrored` puts the main pane
    /// after them.
    pub fn main(
        pane_ids: &[u32],
        direction: SplitDirection,
        rect: PaneRect,
        requested_main: u16,
        requested_other: u16,
        mirrored: bool,
    ) -> (cell: LayoutCell)
        requires
            2 <= pane_ids@.len() <= u16::MAX,
        ensures
            cell.ids() == if mirrored {
                pane_ids@.skip(1).push(pane_ids@[0])
            } else {
                pane_ids@
            },
            cell.spec_rect() == rect,
            cell.laid_out(),
            cell is Split && cell->direction == direction && cell->children@.len() == 2,
            cell->children@[if mirrored { 1int } else { 0int }].spec_rect().spec_axis(direction)
                == main_shares(rect.spec_axis(direction), requested_main, requested_other).0,
            cell->children@[if mirrored { 0int } else { 1int }].spec_rect().spec_axis(direction)
                == main_shares(rect.spec_axis(direction), requested_main, requested_other).1,
    {
        let available = rect.axis(direction).saturating_sub(1);
        let mut main = requested_main;
        let other;
        if main.saturating_add(1) >= available {
            main = if available <= 2 { 1 } else { available.saturating_sub(1) };
            other = 1;
        } else if requested_other == 0 || requested_other > available || available - requested_other < main {
            other = available - main;
        } else {
            other = requested_other;
            main = available - other;
        }
        let mut main_rect = rect;
        main_rect.set_axis(direction, main);
        let mut other_rect = rect;
        other_rect.set_axis(direction, other);
        let cross = match direction {
            SplitDirection::TopBottom => SplitDirection::LeftRight,
            SplitDirection::LeftRight => SplitDirection::TopBottom,
        };
        let main_cell = LayoutCell::Pane { pane_id: pane_ids[0], rect: main_rect };
        let rest = vstd::slice::slice_subrange(pane_ids, 1, pane_ids.len());
        let other_cell = LayoutCell::even(rest, cross, other_rect);
        let children = if mirrored {
            vec![other_cell, main_cell]
        } else {
            vec![main_cell, other_cell]
        };
        proof {
            lemma_leaves_of_pair(children@[0], children@[1]);
            assert(children@ =~= seq![children@[0], children@[1]]);
            lemma_ids_of_append(children@[0].leaves(), children@[1].leaves());
            assert(main_cell.ids() =~= seq![pane_ids@[0]]);
            assert(rest@ =~= pane_ids@.skip(1));
            if mirrored {
                assert(pane_ids@.skip(1) + seq![pane_ids@[0]] =~= pane_ids@.skip(1).push(pane_ids@[0]));
            } else {
                assert(seq![pane_ids@[0]] + pane_ids@.skip(1) =~= pane_ids@);
            }
        }
        let ghost before = children@;
        let mut layout = LayoutCell::Split { direction, rect, children };
        let ghost unfixed = layout;
        layout.fix_offsets();
        proof {
            lemma_same_extents_ids(unfixed, layout);
            assert(layout->children@[0].spec_rect().spec_axis(direction) == before[0].spec_rect().spec_axis(direction));
            assert(layout->children@[1].spec_rect().spec_axis(direction) == before[1].spec_rect().spec_axis(direction));
        }
        layout
    }
}


/// The leaves renamed in order from `ids`, starting at `ids[start]`, for as
/// long as names last.
pub open spec fn assigned(leaves: Seq<(u32, PaneRect)>, ids: Seq<u32>, start: int) -> Seq<(u32, PaneRect)> {
    Seq::new(
        leaves.len(),
        |k: int| (if start + k < ids.len() { ids[start + k] } else { leaves[k].0 }, leaves[k].1),
    )
}

pub open spec fn min_int(a: int, b: int) -> int {
    if a < b { a } else { b }
}

impl LayoutCell {
    /// Rename the panes, left to right, with the ids of `pane_ids` from
    /// `*next` on, advancing `*next` past each id used.
    #[verifier::loop_isolation(false)]
    pub fn assign_panes(&mut self, pane_ids: &[u32], next: &mut usize)
        requires
            *old(next) <= pane_ids@.len(),
        ensures
            final(self).leaves() == assigned(old(self).leaves(), pane_ids@, *old(next) as int),
            *final(next) == min_int(*old(next) + old(self).leaves().len(), pane_ids@.len() as int),
            final(self).spec_rect() == old(self).spec_rect(),
        decreases old(self).depth(),
    {
        match self {
            LayoutCell::Pane { pane_id, rect } => {
                let ghost r = *rect;
                let ghost o = *pane_id;
                if *next < pane_ids.len() {
                    *pane_id = pane_ids[*next];
                    *next += 1;
                }
                proof {
                    assert(assigned(seq![(o, r)], pane_ids@, *old(next) as int) =~= seq![(*pane_id, r)]);
                }
            },
            LayoutCell::Split { children, .. } => {
                let ghost orig = children@;
                let ghost start = *next as int;
                let mut i: usize = 0;
                while i < children.len()
                    invariant
                        0 <= i <= children.len(),
                        children.len() == orig.len(),
                        *next == min_int(start + leaves_of(orig.take(i as int)).len(), pane_ids@.len() as int),
                        *next <= pane_ids@.len(),
                        leaves_of(children@.take(i as int)) == assigned(leaves_of(orig.take(i as int)), pane_ids@, start),
                        forall|j: int| 0 <= j < orig.len() ==> (#[trigger] children@[j]).spec_rect() == orig[j].spec_rect(),
                        forall|j: int| i <= j < orig.len() ==> #[trigger] children@[j] == orig[j],
                    decreases children.len() - i,
                {
                    proof {
                        lemma_depth_of_child(orig, i as int);
                    }
                    let ghost at = *next as int;
                    let ghost before = children@;
                    children[i].assign_panes(pane_ids, next);
                    proof {
                        lemma_leaves_of_take(orig, i as int);
                        lemma_leaves_of_take(children@, i as int);
                        let pre = leaves_of(orig.take(i as int));
                        let mid = orig[i as int].leaves();
                        assert(children@.take(i as int) =~= before.take(i as int));
                        assert(assigned(pre + mid, pane_ids@, start) =~= assigned(pre, pane_ids@, start) + assigned(
                            mid,
                            pane_ids@,
                            at,
                        ));
                    }
                    i += 1;
                }
                proof {
                    lemma_leaves_of_all(orig);
                    lemma_leaves_of_all(children@);
                }
            },
        }
    }
}

} // verus!
