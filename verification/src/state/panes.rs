use vstd::prelude::*;
use crate::layout::{LayoutCell, without};

verus! {

/// A pane as its window holds it: its id and whether the end of its child
/// has been announced.
#[derive(Clone, Copy, Debug, PartialEq, Eq, Structural)]
pub struct PaneSlot {
    pub id: u32,
    pub exit_notified: bool,
}

/// A window: its panes in order, the active pane and the one active
/// before it (positions among the panes), and the layout tree of the panes.
pub struct Window {
    pub id: u32,
    pub name: String,
    pub panes: Vec<PaneSlot>,
    pub active: usize,
    pub last_pane: Option<usize>,
    pub layout: LayoutCell,
}

/// The ids of `panes`, in order.
pub open spec fn slot_ids(panes: Seq<PaneSlot>) -> Seq<u32> {
    panes.map_values(|p: PaneSlot| p.id)
}

/// Whether the pane `id` goes: its child exited and nothing keeps it.
pub open spec fn is_gone(exited: Seq<u32>, retained: Seq<u32>, id: u32) -> bool {
    exited.contains(id) && !retained.contains(id)
}

/// Whether a pane stays.
pub open spec fn stays(exited: Seq<u32>, retained: Seq<u32>) -> spec_fn(PaneSlot) -> bool {
    |p: PaneSlot| !is_gone(exited, retained, p.id)
}

/// The panes of `panes` that stay.
pub open spec fn staying(panes: Seq<PaneSlot>, exited: Seq<u32>, retained: Seq<u32>) -> Seq<PaneSlot> {
    panes.filter(stays(exited, retained))
}

/// The id of the pane at `i`, when there is one.
pub open spec fn id_at(panes: Seq<PaneSlot>, i: int) -> Option<u32> {
    if 0 <= i < panes.len() { Some(panes[i].id) } else { None }
}

/// The position after which the pane `id` stands in `panes`, if any.
pub open spec fn position_of_pane(panes: Seq<PaneSlot>, id: Option<u32>) -> Option<int> {
    match id {
        Some(x) => slot_ids(panes).index_of_first(x),
        None => None,
    }
}

impl Window {
    /// The layout names exactly the window's panes, each once.
    pub open spec fn wf(&self) -> bool {
        &&& self.layout.ids().no_duplicates()
        &&& forall|q: u32| #[trigger] self.layout.ids().contains(q) <==> slot_ids(self.panes@).contains(q)
    }
}

/// Leaving `p` out of `ids` leaves exactly the others.
pub(crate) proof fn lemma_without_contains(ids: Seq<u32>, p: u32, q: u32)
    ensures
        without(ids, p).contains(q) == (ids.contains(q) && q != p),
    decreases ids.len(),
{
    if ids.len() > 0 {
        lemma_without_contains(ids.drop_first(), p, q);
        if ids[0] != p {
            let w = seq![ids[0]] + without(ids.drop_first(), p);
            if without(ids.drop_first(), p).contains(q) {
                let k = choose|k: int| 0 <= k < without(ids.drop_first(), p).len() && without(ids.drop_first(), p)[k] == q;
                assert(w[k + 1] == q);
            }
            if q == ids[0] {
                assert(w[0] == q);
            }
        }
        if ids.contains(q) && q != ids[0] {
            let k = choose|k: int| 0 <= k < ids.len() && ids[k] == q;
            assert(ids.drop_first()[k - 1] == q);
        }
        if ids.drop_first().contains(q) {
            let k = choose|k: int| 0 <= k < ids.drop_first().len() && ids.drop_first()[k] == q;
            assert(ids[k + 1] == q);
        }
    }
}

/// Leaving `p` out of `ids` keeps them distinct.
pub(crate) proof fn lemma_without_distinct(ids: Seq<u32>, p: u32)
    requires
        ids.no_duplicates(),
    ensures
        without(ids, p).no_duplicates(),
    decreases ids.len(),
{
    if ids.len() > 0 {
        let rest = ids.drop_first();
        assert(rest.no_duplicates()) by {
            assert forall|i: int, j: int| 0 <= i < rest.len() && 0 <= j < rest.len() && i != j implies rest[i] != rest[j] by {
                assert(rest[i] == ids[i + 1] && rest[j] == ids[j + 1]);
            }
        }
        lemma_without_distinct(rest, p);
        if ids[0] != p {
            let w = seq![ids[0]] + without(rest, p);
            lemma_without_contains(rest, p, ids[0]);
            assert(!rest.contains(ids[0])) by {
                if rest.contains(ids[0]) {
                    let k = choose|k: int| 0 <= k < rest.len() && rest[k] == ids[0];
                    assert(ids[k + 1] == ids[0]);
                }
            }
            assert forall|i: int, j: int| 0 <= i < w.len() && 0 <= j < w.len() && i != j implies w[i] != w[j] by {
                if i == 0 && j > 0 {
                    assert(w[j] == without(rest, p)[j - 1]);
                } else if j == 0 && i > 0 {
                    assert(w[i] == without(rest, p)[i - 1]);
                } else if i > 0 && j > 0 {
                    assert(w[i] == without(rest, p)[i - 1] && w[j] == without(rest, p)[j - 1]);
                }
            }
        }
    }
}

/// The panes that stay, built one pane at a time.
proof fn lemma_staying_push(panes: Seq<PaneSlot>, exited: Seq<u32>, retained: Seq<u32>, i: int)
    requires
        0 <= i < panes.len(),
    ensures
        staying(panes.take(i + 1), exited, retained) == if is_gone(exited, retained, panes[i].id) {
            staying(panes.take(i), exited, retained)
        } else {
            staying(panes.take(i), exited, retained).push(panes[i])
        },
{
    reveal(Seq::filter);
    assert(panes.take(i + 1).drop_last() =~= panes.take(i));
}

/// `after` is the window `before`, holding the panes `start`, once the
/// panes that go have gone (see [`reap_window`]).
pub open spec fn window_reaped(before: Window, start: Seq<PaneSlot>, after: Window, exited: Seq<u32>, retained: Seq<u32>) -> bool {
    let removed = after.panes@.len() != start.len();
    &&& after.id == before.id
    &&& after.name == before.name
    &&& after.panes@ == staying(start, exited, retained)
    &&& (!removed || after.panes@.len() == 0 ==> {
        &&& after.active == before.active
        &&& after.last_pane == before.last_pane
        &&& after.layout == before.layout
    })
    &&& (removed && after.panes@.len() > 0 ==> {
        let old_panes = start;
        let panes = after.panes@;
        &&& after.wf()
        &&& after.active == match position_of_pane(panes, id_at(old_panes, before.active as int)) {
            Some(p) => p as usize,
            None => if before.active < panes.len() { before.active } else { (panes.len() - 1) as usize },
        }
        &&& after.last_pane == match before.last_pane {
            Some(l) => match position_of_pane(panes, id_at(old_panes, l as int)) {
                Some(p) => Some(p as usize),
                None => None,
            },
            None => None,
        }
        &&& forall|q: u32| #[trigger] after.layout.ids().contains(q)
            <==> (before.layout.ids().contains(q) && !is_gone(exited, retained, q))
    })
}

/// Drop from `window` the panes whose children exited (`exited`) and that
/// nothing keeps (`retained`), keeping the rest in order. When panes went
/// and some stayed, they also leave the layout, the active pane stays the
/// same pane when it stayed (otherwise the position is pulled back inside
/// the panes), and the last pane stays the same pane or is forgotten.
/// Whether any pane went.
pub fn reap_window(window: &mut Window, exited: &Vec<u32>, retained: &Vec<u32>) -> (removed: bool)
    requires
        old(window).wf(),
    ensures
        window_reaped(*old(window), old(window).panes@, *final(window), exited@, retained@),
        removed == (final(window).panes@.len() != old(window).panes@.len()),
        removed == exists|i: int| 0 <= i < old(window).panes@.len()
            && is_gone(exited@, retained@, #[trigger] old(window).panes@[i].id),
{
    let ghost old_panes = window.panes@;
    let n = window.panes.len();
    let active_id: Option<u32> = if window.active < n { Some(window.panes[window.active].id) } else { None };
    let last_id: Option<u32> = match window.last_pane {
        Some(l) => if l < n { Some(window.panes[l].id) } else { None },
        None => None,
    };
    let mut kept: Vec<PaneSlot> = Vec::new();
    let mut dropped: Vec<u32> = Vec::new();
    let mut i: usize = 0;
    while i < n
        invariant
            n == old_panes.len(),
            window.panes@ == old_panes,
            window.id == old(window).id,
            window.name == old(window).name,
            window.active == old(window).active,
            window.last_pane == old(window).last_pane,
            window.layout == old(window).layout,
            i <= n,
            kept@ == staying(old_panes.take(i as int), exited@, retained@),
            forall|q: u32| #[trigger] dropped@.contains(q) <==> (exists|j: int| 0 <= j < i
                && old_panes[j].id == q && is_gone(exited@, retained@, q)),
            (dropped@.len() == 0) == (forall|j: int| 0 <= j < i ==> !is_gone(exited@, retained@, #[trigger] old_panes[j].id)),
        decreases n - i,
    {
        let p = window.panes[i];
        proof {
            lemma_staying_push(old_panes, exited@, retained@, i as int);
        }
        let gone = holds(exited, p.id) && !holds(retained, p.id);
        if gone {
            let ghost before = dropped@;
            dropped.push(p.id);
            proof {
                assert forall|q: u32| #[trigger] dropped@.contains(q) <==> (exists|j: int| 0 <= j < i + 1
                    && old_panes[j].id == q && is_gone(exited@, retained@, q)) by {
                    if dropped@.contains(q) {
                        let k = choose|k: int| 0 <= k < dropped@.len() && dropped@[k] == q;
                        if k < before.len() {
                            assert(before[k] == q);
                            assert(before.contains(q));
                        } else {
                            assert(old_panes[i as int].id == q);
                        }
                    }
                    if exists|j: int| 0 <= j < i + 1 && old_panes[j].id == q && is_gone(exited@, retained@, q) {
                        let j = choose|j: int| 0 <= j < i + 1 && old_panes[j].id == q && is_gone(exited@, retained@, q);
                        if j < i {
                            assert(before.contains(q));
                            let k = choose|k: int| 0 <= k < before.len() && before[k] == q;
                            assert(dropped@[k] == q);
                        } else {
                            assert(dropped@[before.len() as int] == q);
                        }
                    }
                }
            }
        } else {
            kept.push(p);
        }
        i += 1;
    }
    proof {
        assert(old_panes.take(n as int) =~= old_panes);
    }
    let removed = dropped.len() > 0;
    window.panes = kept;
    if removed && window.panes.len() > 0 {
        let ghost start = window.layout.ids();
        let mut k: usize = 0;
        while k < dropped.len()
            invariant
                k <= dropped@.len(),
                window.id == old(window).id,
                window.name == old(window).name,
                window.active == old(window).active,
                window.last_pane == old(window).last_pane,
                window.panes@ == staying(old_panes, exited@, retained@),
                window.panes@.len() > 0,
                window.layout.ids().no_duplicates(),
                forall|q: u32| #[trigger] window.layout.ids().contains(q)
                    <==> (start.contains(q) && !dropped@.take(k as int).contains(q)),
                start == old(window).layout.ids(),
                forall|q: u32| #[trigger] start.contains(q) <==> slot_ids(old_panes).contains(q),
                forall|q: u32| #[trigger] dropped@.contains(q) <==> (exists|j: int| 0 <= j < n
                    && old_panes[j].id == q && is_gone(exited@, retained@, q)),
            decreases dropped.len() - k,
        {
            let q = dropped[k];
            let ghost before = window.layout;
            proof {
                // Some pane stays, and it is in the layout beside `q`.
                let s = window.panes@[0];
                assert(window.panes@.contains(s));
                old_panes.lemma_filter_contains_rev(stays(exited@, retained@), s);
                old_panes.lemma_filter_pred(stays(exited@, retained@), 0);
                let js = choose|j: int| 0 <= j < old_panes.len() && old_panes[j] == s;
                assert(slot_ids(old_panes)[js] == s.id);
                assert(!is_gone(exited@, retained@, s.id));
                assert(!dropped@.contains(s.id));
                assert(!dropped@.take(k as int).contains(s.id)) by {
                    if dropped@.take(k as int).contains(s.id) {
                        let t = choose|t: int| 0 <= t < k && dropped@.take(k as int)[t] == s.id;
                        assert(dropped@[t] == s.id);
                    }
                }
                assert(start.contains(s.id));
                assert(window.layout.ids().contains(s.id));
                assert(dropped@.contains(q));
                if window.layout is Pane && window.layout.ids().contains(q) {
                    assert(window.layout.ids().len() == 1);
                    let a = choose|a: int| 0 <= a < window.layout.ids().len() && window.layout.ids()[a] == s.id;
                    let b = choose|b: int| 0 <= b < window.layout.ids().len() && window.layout.ids()[b] == q;
                    assert(s.id == q);
                }
            }
            let _ = window.layout.remove(q);
            proof {
                let d0 = dropped@.take(k as int);
                let d1 = dropped@.take(k + 1);
                assert(d1 =~= d0.push(q));
                if before.ids().contains(q) {
                    assert(before is Split);
                    assert(window.layout.ids() == without(before.ids(), q));
                    lemma_without_distinct(before.ids(), q);
                    assert forall|x: u32| #[trigger] window.layout.ids().contains(x)
                        <==> (start.contains(x) && !d1.contains(x)) by {
                        lemma_without_contains(before.ids(), q, x);
                        assert(d1.contains(x) == (d0.contains(x) || x == q)) by {
                            if d1.contains(x) && x != q {
                                let t = choose|t: int| 0 <= t < k + 1 && d1[t] == x;
                                assert(d0[t] == x);
                            }
                            if d0.contains(x) {
                                let t = choose|t: int| 0 <= t < k && d0[t] == x;
                                assert(d1[t] == x);
                            }
                            if x == q {
                                assert(d1[k as int] == x);
                            }
                        }
                    }
                } else {
                    assert(window.layout == before);
                    assert forall|x: u32| #[trigger] window.layout.ids().contains(x)
                        <==> (start.contains(x) && !d1.contains(x)) by {
                        assert(d1.contains(x) == (d0.contains(x) || x == q)) by {
                            if d1.contains(x) && x != q {
                                let t = choose|t: int| 0 <= t < k + 1 && d1[t] == x;
                                assert(d0[t] == x);
                            }
                            if d0.contains(x) {
                                let t = choose|t: int| 0 <= t < k && d0[t] == x;
                                assert(d1[t] == x);
                            }
                            if x == q {
                                assert(d1[k as int] == x);
                            }
                        }
                    }
                }
            }
            k += 1;
        }
        proof {
            assert(dropped@.take(k as int) =~= dropped@);
        }
        window.active = match pane_position(&window.panes, active_id) {
            Some(p) => p,
            None => if window.active < window.panes.len() { window.active } else { window.panes.len() - 1 },
        };
        window.last_pane = match pane_position(&window.panes, last_id) {
            Some(p) => Some(p),
            None => None,
        };
        proof {
            let panes = window.panes@;
            assert forall|q: u32| #[trigger] window.layout.ids().contains(q) <==> slot_ids(panes).contains(q) by {
                if slot_ids(panes).contains(q) {
                    let j = choose|j: int| 0 <= j < slot_ids(panes).len() && slot_ids(panes)[j] == q;
                    assert(panes.contains(panes[j]));
                    old_panes.lemma_filter_contains_rev(stays(exited@, retained@), panes[j]);
                    let m = choose|m: int| 0 <= m < old_panes.len() && old_panes[m] == panes[j];
                    assert(slot_ids(old_panes)[m] == q);
                    assert(!dropped@.contains(q));
                }
                if window.layout.ids().contains(q) {
                    assert(slot_ids(old_panes).contains(q));
                    let m = choose|m: int| 0 <= m < slot_ids(old_panes).len() && slot_ids(old_panes)[m] == q;
                    assert(!is_gone(exited@, retained@, q)) by {
                        if is_gone(exited@, retained@, q) {
                            assert(old_panes[m].id == q);
                        }
                    }
                    old_panes.lemma_filter_contains(stays(exited@, retained@), m);
                    let j = choose|j: int| 0 <= j < panes.len() && panes[j] == old_panes[m];
                    assert(slot_ids(panes)[j] == q);
                }
            }
        }
    }
    proof {
        if !removed {
            assert(window.panes@ =~= old_panes) by {
                assert forall|j: int| 0 <= j < old_panes.len() implies !is_gone(exited@, retained@, #[trigger] old_panes[j].id) by {}
                lemma_staying_all(old_panes, exited@, retained@);
            }
        } else {
            assert(exists|j: int| 0 <= j < n && is_gone(exited@, retained@, #[trigger] old_panes[j].id));
            let j = choose|j: int| 0 <= j < n && is_gone(exited@, retained@, #[trigger] old_panes[j].id);
            if window.panes@.len() == old_panes.len() {
                lemma_staying_shorter(old_panes, exited@, retained@, j);
            }
        }
    }
    removed
}

/// When no pane goes, all stay.
proof fn lemma_staying_all(panes: Seq<PaneSlot>, exited: Seq<u32>, retained: Seq<u32>)
    requires
        forall|j: int| 0 <= j < panes.len() ==> !is_gone(exited, retained, #[trigger] panes[j].id),
    ensures
        staying(panes, exited, retained) == panes,
    decreases panes.len(),
{
    reveal(Seq::filter);
    if panes.len() > 0 {
        lemma_staying_all(panes.drop_last(), exited, retained);
    }
    assert(staying(panes, exited, retained) =~= panes);
}

/// When a pane goes, fewer stay.
proof fn lemma_staying_shorter(panes: Seq<PaneSlot>, exited: Seq<u32>, retained: Seq<u32>, j: int)
    requires
        0 <= j < panes.len(),
        is_gone(exited, retained, panes[j].id),
    ensures
        staying(panes, exited, retained).len() < panes.len(),
    decreases panes.len(),
{
    reveal(Seq::filter);
    let rest = panes.drop_last();
    rest.lemma_filter_len(stays(exited, retained));
    if j < panes.len() - 1 {
        assert(rest[j] == panes[j]);
        lemma_staying_shorter(rest, exited, retained, j);
    }
}

/// Whether `v` holds `x`.
pub(crate) fn holds(v: &Vec<u32>, x: u32) -> (found: bool)
    ensures
        found == v@.contains(x),
{
    let mut i: usize = 0;
    while i < v.len()
        invariant
            i <= v@.len(),
            forall|j: int| 0 <= j < i ==> v@[j] != x,
        decreases v.len() - i,
    {
        if v[i] == x {
            return true;
        }
        i += 1;
    }
    false
}

/// Where the pane `id` first stands among `panes`.
fn pane_position(panes: &Vec<PaneSlot>, id: Option<u32>) -> (pos: Option<usize>)
    ensures
        pos == match position_of_pane(panes@, id) {
            Some(p) => Some(p as usize),
            None => None::<usize>,
        },
{
    match id {
        None => None,
        Some(x) => {
            let ghost ids = slot_ids(panes@);
            let mut i: usize = 0;
            while i < panes.len()
                invariant
                    i <= panes@.len(),
                    id == Some(x),
                    ids == slot_ids(panes@),
                    forall|j: int| 0 <= j < i ==> ids[j] != x,
                decreases panes.len() - i,
            {
                proof {
                    assert(ids[i as int] == panes@[i as int].id);
                }
                if panes[i].id == x {
                    proof {
                        assert(ids.contains(x));
                        ids.index_of_first_ensures(x);
                        let k = ids.index_of_first(x)->0;
                        assert(ids[k] == x);
                        assert(k == i);
                        assert(id == Some(x));
                        assert(position_of_pane(panes@, id) == Some(i as int));
                    }
                    return Some(i);
                }
                i += 1;
            }
            proof {
                ids.index_of_first_ensures(x);
            }
            None
        },
    }
}


impl Window {
    /// Whether the layout names exactly the window's panes, each once (see
    /// [`Window::wf`]).
    pub fn is_consistent(&self) -> (ok: bool)
        ensures
            ok == self.wf(),
    {
        let leaves = self.layout.panes();
        let mut ids: Vec<u32> = Vec::new();
        let mut i: usize = 0;
        while i < leaves.len()
            invariant
                i <= leaves@.len(),
                leaves@ == self.layout.leaves(),
                ids@ == crate::layout::ids_of(leaves@.take(i as int)),
                ids@.no_duplicates(),
            decreases leaves.len() - i,
        {
            proof {
                assert(crate::layout::ids_of(leaves@.take(i + 1)) =~= ids@.push(leaves@[i as int].0));
            }
            if holds(&ids, leaves[i].0) {
                proof {
                    let k = choose|k: int| 0 <= k < ids@.len() && ids@[k] == leaves@[i as int].0;
                    let all = self.layout.ids();
                    assert(all[k] == ids@[k]) by {
                        assert(crate::layout::ids_of(leaves@.take(i as int))[k] == leaves@[k].0);
                    }
                    assert(all[i as int] == leaves@[i as int].0);
                }
                return false;
            }
            ids.push(leaves[i].0);
            i += 1;
        }
        proof {
            assert(leaves@.take(i as int) =~= leaves@);
            assert(ids@ == self.layout.ids());
        }
        let mut k: usize = 0;
        while k < ids.len()
            invariant
                k <= ids@.len(),
                ids@ == self.layout.ids(),
                forall|j: int| 0 <= j < k ==> slot_ids(self.panes@).contains(#[trigger] ids@[j]),
            decreases ids.len() - k,
        {
            let mut found = false;
            let mut j: usize = 0;
            while j < self.panes.len()
                invariant
                    j <= self.panes@.len(),
                    k < ids@.len(),
                    found == slot_ids(self.panes@.take(j as int)).contains(ids@[k as int]),
                decreases self.panes.len() - j,
            {
                let ghost before = slot_ids(self.panes@.take(j as int));
                proof {
                    assert(slot_ids(self.panes@.take(j + 1)) =~= before.push(self.panes@[j as int].id));
                    let x = ids@[k as int];
                    let after = before.push(self.panes@[j as int].id);
                    if before.contains(x) {
                        let t = choose|t: int| 0 <= t < before.len() && before[t] == x;
                        assert(after[t] == x);
                    }
                    if after.contains(x) && self.panes@[j as int].id != x {
                        let t = choose|t: int| 0 <= t < after.len() && after[t] == x;
                        assert(before[t] == x);
                    }
                    if self.panes@[j as int].id == x {
                        assert(after[before.len() as int] == x);
                    }
                }
                if self.panes[j].id == ids[k] {
                    found = true;
                }
                j += 1;
            }
            proof {
                assert(self.panes@.take(j as int) =~= self.panes@);
                assert(self.layout.ids()[k as int] == ids@[k as int]);
                assert(self.layout.ids().contains(ids@[k as int]));
            }
            if !found {
                return false;
            }
            k += 1;
        }
        let mut j: usize = 0;
        while j < self.panes.len()
            invariant
                j <= self.panes@.len(),
                ids@ == self.layout.ids(),
                forall|q: u32| #[trigger] ids@.contains(q) ==> slot_ids(self.panes@).contains(q),
                forall|m: int| 0 <= m < j ==> ids@.contains(#[trigger] slot_ids(self.panes@)[m]),
            decreases self.panes.len() - j,
        {
            proof {
                assert(slot_ids(self.panes@)[j as int] == self.panes@[j as int].id);
            }
            if !holds(&ids, self.panes[j].id) {
                return false;
            }
            j += 1;
        }
        proof {
            assert forall|q: u32| #[trigger] self.layout.ids().contains(q) <==> slot_ids(self.panes@).contains(q) by {
                if slot_ids(self.panes@).contains(q) {
                    let m = choose|m: int| 0 <= m < slot_ids(self.panes@).len() && slot_ids(self.panes@)[m] == q;
                }
            }
        }
        true
    }
}

} // verus!
