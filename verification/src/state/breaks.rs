use vstd::prelude::*;
use crate::layout::{LayoutCell, PaneRect};
use crate::render::RenderInvalidation;
use crate::session::{Session, Target, Winlink};
use crate::state::{ServerState, StateError, is_already_exists, owned, position_of_id, session_ids, session_wf};
use crate::state::moves::{window_moved, window_moved_beside};
use crate::state::links::{count_leading_below, leading_below, lemma_leading_below_bound};
use crate::state::panes::{PaneSlot, Window, lemma_without_contains, lemma_without_distinct, slot_ids};
use crate::text::{decimal, push_decimal, push_text};
use crate::winlinks::{first_free_at, first_free_index, link_indices, position_of_index, shuffle, shuffled};

verus! {

/// `after` is the window `before` with the pane at `position` taken out:
/// the pane leaves the layout, the active position is pulled back inside
/// the panes that stay, and no pane is the last one any more.
pub open spec fn pane_broken_out(before: Window, after: Window, position: int) -> bool {
    let p = before.panes@[position].id;
    &&& after.id == before.id
    &&& after.name == before.name
    &&& after.panes@ == before.panes@.remove(position)
    &&& after.active == if before.active >= after.panes@.len() { (after.panes@.len() - 1) as usize } else { before.active }
    &&& after.last_pane is None
    &&& forall|q: u32| #[trigger] after.layout.ids().contains(q) <==> (before.layout.ids().contains(q) && q != p)
    &&& after.wf()
}

/// Take the pane at `position` out of `window` (see [`pane_broken_out`]),
/// handing it back.
pub fn break_out(window: &mut Window, position: usize) -> (pane: PaneSlot)
    requires
        old(window).wf(),
        slot_ids(old(window).panes@).no_duplicates(),
        position < old(window).panes@.len(),
        old(window).panes@.len() >= 2,
    ensures
        pane == old(window).panes@[position as int],
        pane_broken_out(*old(window), *final(window), position as int),
        slot_ids(final(window).panes@).no_duplicates(),
{
    let ghost before = *window;
    let ghost ids = slot_ids(window.panes@);
    let other: usize = if position == 0 { 1 } else { 0 };
    proof {
        assert(ids[position as int] == window.panes@[position as int].id);
        assert(ids[other as int] == window.panes@[other as int].id);
        assert(ids[position as int] != ids[other as int]);
        assert(window.layout.ids().contains(ids[position as int]));
        assert(window.layout.ids().contains(ids[other as int]));
        if window.layout is Pane {
            assert(window.layout.ids().len() == 1);
            let a = choose|a: int| 0 <= a < window.layout.ids().len() && window.layout.ids()[a] == ids[position as int];
            let b = choose|b: int| 0 <= b < window.layout.ids().len() && window.layout.ids()[b] == ids[other as int];
        }
    }
    let pane = window.panes.remove(position);
    let _ = window.layout.remove(pane.id);
    if window.active >= window.panes.len() {
        window.active = window.panes.len() - 1;
    }
    window.last_pane = None;
    proof {
        let rest = window.panes@;
        let p = pane.id;
        assert(slot_ids(rest) =~= ids.remove(position as int));
        assert forall|q: u32| #[trigger] window.layout.ids().contains(q) <==> (before.layout.ids().contains(q) && q != p) by {
            lemma_without_contains(before.layout.ids(), p, q);
        }
        assert forall|i: int, j: int| 0 <= i < slot_ids(rest).len() && 0 <= j < slot_ids(rest).len() && i != j
            implies slot_ids(rest)[i] != slot_ids(rest)[j] by {
            let ii = if i < position { i } else { i + 1 };
            let jj = if j < position { j } else { j + 1 };
            assert(slot_ids(rest)[i] == ids[ii]);
            assert(slot_ids(rest)[j] == ids[jj]);
        }
        assert forall|q: u32| #[trigger] window.layout.ids().contains(q) <==> slot_ids(rest).contains(q) by {
            if slot_ids(rest).contains(q) {
                let i = choose|i: int| 0 <= i < slot_ids(rest).len() && slot_ids(rest)[i] == q;
                let ii = if i < position { i } else { i + 1 };
                assert(ids[ii] == q);
                assert(ii != position);
                assert(ids.contains(q));
            }
            if window.layout.ids().contains(q) {
                assert(ids.contains(q));
                let k = choose|k: int| 0 <= k < ids.len() && ids[k] == q;
                assert(k != position);
                let i = if k < position { k } else { k - 1 };
                assert(slot_ids(rest)[i] == q);
            }
        }
        lemma_without_distinct(before.layout.ids(), p);
    }
    pane
}


/// The ids of the window records `windows`, in order.
pub open spec fn record_ids(windows: Seq<Window>) -> Seq<u32> {
    windows.map_values(|w: Window| w.id)
}

/// The window shown by the link `src` names.
pub open spec fn source_window(state: ServerState, src: Target) -> u32 {
    state.session_list()[src.session as int].windows@[src.window as int].id
}

/// The index `break-pane` measures from in the destination: the requested
/// index when a link there has it, the current window's otherwise.
pub open spec fn break_anchor(dst: Session, index: Option<u32>) -> u32 {
    match index {
        Some(i) => if link_indices(dst.windows@).contains(i) { i } else { dst.windows@[dst.active as int].index },
        None => dst.windows@[dst.active as int].index,
    }
}

/// The source pane is in a well-formed window record whose panes are
/// distinct.
pub open spec fn break_source_ok(state: ServerState, src: Target) -> bool {
    let ws = state.window_list();
    match record_ids(ws).index_of_first(source_window(state, src)) {
        Some(w) => {
            &&& ws[w].wf()
            &&& slot_ids(ws[w].panes@).no_duplicates()
            &&& src.pane < ws[w].panes@.len()
        },
        None => false,
    }
}

/// An index is left where `break-pane` looks for one.
pub open spec fn break_room(dst: Session, index: Option<u32>, base: u32, relative: Option<bool>) -> bool {
    match relative {
        Some(after) => {
            let d = break_anchor(dst, index) + if after { 1int } else { 0int };
            &&& d <= u32::MAX
            &&& exists|k: u32| d <= k && !link_indices(dst.windows@).contains(k)
        },
        None => match index {
            Some(_) => true,
            None => exists|k: u32| base <= k && !link_indices(dst.windows@).contains(k),
        },
    }
}

/// The index the new window takes when the pane gets a window of its own:
/// beside the anchor with `relative`, the requested one, or the first free
/// at or after `base`.
pub open spec fn break_index(dst: Session, index: Option<u32>, base: u32, relative: Option<bool>, chosen: u32) -> bool {
    match relative {
        Some(after) => chosen == break_anchor(dst, index) + if after { 1int } else { 0int },
        None => match index {
            Some(i) => chosen == i,
            None => first_free_at(dst.windows@, base, chosen),
        },
    }
}

/// The name a new window gets.
pub open spec fn name_or_empty(name: Option<&str>) -> Seq<char> {
    match name {
        Some(n) => n@,
        None => Seq::empty(),
    }
}

/// `after` is `before` once the pane `src.pane` of the window record at
/// `w` got a window of its own (see `break-pane`).
pub open spec fn pane_given_window(
    before: ServerState,
    after: ServerState,
    src: Target,
    dst: usize,
    w: int,
    index: Option<u32>,
    base: u32,
    name: Seq<char>,
    relative: Option<bool>,
    new_window_id: u32,
    result: Result<Target, StateError>,
) -> bool {
    let d0 = before.session_list()[dst as int];
    let ws = before.window_list();
    if relative is None && index is Some && link_indices(d0.windows@).contains(index->0) {
        &&& result matches Err(e) && is_already_exists(e, "index in use: "@ + decimal(index->0 as nat))
        &&& after == before
    } else {
        &&& result matches Ok(t) && t.session == dst && t.pane == 0 && {
            let l = after.session_list()[dst as int].windows@[t.window as int];
            &&& t.window < after.session_list()[dst as int].windows@.len()
            &&& l.id == new_window_id
            &&& l.link_id == before.next_winlink_id_spec()
            &&& break_index(d0, index, base, relative, l.index)
        }
        &&& after.window_list().len() == ws.len() + 1
        &&& pane_broken_out(ws[w], after.window_list()[w], src.pane as int)
        &&& forall|k: int| 0 <= k < ws.len() && k != w ==> #[trigger] after.window_list()[k] == ws[k]
        &&& {
            let made = after.window_list().last();
            let pane = ws[w].panes@[src.pane as int];
            let s = before.session_list()[src.session as int];
            &&& made.id == new_window_id
            &&& made.name@ == name
            &&& made.panes@ == seq![pane]
            &&& made.active == 0
            &&& made.last_pane is None
            &&& made.layout == (LayoutCell::Pane { pane_id: pane.id, rect: PaneRect { top: 0, left: 0,
                height: if s.rows == 0 { 1 } else { s.rows }, width: if s.cols == 0 { 1 } else { s.cols } } })
        }
    }
}

impl ServerState {
    /// The position of the window record `id`.
    fn record_position(&self, id: u32) -> (pos: Option<usize>)
        ensures
            match pos {
                Some(p) => record_ids(self.window_list()).index_of_first(id) == Some(p as int),
                None => record_ids(self.window_list()).index_of_first(id) is None,
            },
    {
        let ghost ids = record_ids(self.windows@);
        let mut i: usize = 0;
        while i < self.windows.len()
            invariant
                i <= self.windows@.len(),
                ids == record_ids(self.windows@),
                forall|j: int| 0 <= j < i ==> ids[j] != id,
            decreases self.windows.len() - i,
        {
            proof {
                assert(ids[i as int] == self.windows@[i as int].id);
            }
            if self.windows[i].id == id {
                proof {
                    ids.index_of_first_ensures(id);
                    let k = ids.index_of_first(id)->0;
                    assert(ids[k] == id);
                }
                return Some(i);
            }
            i += 1;
        }
        proof {
            ids.index_of_first_ensures(id);
        }
        None
    }

    /// `break-pane` for a pane whose window has others: the pane gets a
    /// new window `new_window_id` (named `name`, or nothing) in the
    /// session at `dst`, at the index [`break_index`] chooses; with
    /// `relative`, the links from that index up to the first free one move
    /// up by one first. Without `relative`, a requested index already in
    /// use refuses with `index in use: N`. The new link is inserted (see
    /// [`Self::insert_link`]) and both sessions owe a layout and status
    /// redraw.
    #[verifier::spinoff_prover]
    #[verifier::rlimit(100)]
    fn break_to_new_window(
        &mut self,
        src: Target,
        dst: usize,
        w: usize,
        index: Option<u32>,
        base: u32,
        name: Option<&str>,
        select: bool,
        relative: Option<bool>,
        new_window_id: u32,
    ) -> (result: Result<Target, StateError>)
        requires
            old(self).wf(),
            src.session < old(self).session_list().len(),
            dst < old(self).session_list().len(),
            old(self).session_list()[dst as int].windows@.len() > 0,
            old(self).next_winlink_id_spec() < u64::MAX,
            w < old(self).window_list().len(),
            old(self).window_list()[w as int].wf(),
            slot_ids(old(self).window_list()[w as int].panes@).no_duplicates(),
            src.pane < old(self).window_list()[w as int].panes@.len(),
            old(self).window_list()[w as int].panes@.len() >= 2,
            break_room(old(self).session_list()[dst as int], index, base, relative),
        ensures
            final(self).wf(),
            pane_given_window(*old(self), *final(self), src, dst, w as int, index, base, name_or_empty(name), relative,
                new_window_id, result),
    {
        let source_id = self.sessions[src.session].id;
        let dst_id = self.sessions[dst].id;
        let cols = self.sessions[src.session].cols;
        let rows = self.sessions[src.session].rows;
        let ghost s0 = *self;
        let ghost d0 = self.sessions@[dst as int];
        proof {
            assert(session_wf(d0));
        }
        let active = self.sessions[dst].active;
        let anchor = match index {
            Some(i) => match position_of_index(&self.sessions[dst].windows, i) {
                Some(_) => i,
                None => self.sessions[dst].windows[active].index,
            },
            None => self.sessions[dst].windows[active].index,
        };
        proof {
            if index is Some {
                link_indices(d0.windows@).index_of_first_ensures(index->0);
            }
            assert(anchor == break_anchor(d0, index));
        }
        let chosen: u32 = match relative {
            Some(after) => {
                let desired = if after { anchor + 1 } else { anchor };
                let free = first_free_index(&self.sessions[dst].windows, desired);
                let mut session = self.take_session(dst);
                session.windows = shuffle(&session.windows, desired, free);
                self.sessions.insert(dst, session);
                proof {
                    self.lemma_replaced_session_wf(s0.sessions@, dst as int);
                }
                desired
            },
            None => match index {
                Some(i) => {
                    let used = position_of_index(&self.sessions[dst].windows, i);
                    proof {
                        link_indices(d0.windows@).index_of_first_ensures(i);
                    }
                    if used.is_some() {
                        let mut m = String::new();
                        push_text(&mut m, "index in use: ");
                        push_decimal(&mut m, i as u64);
                        return Err(StateError::AlreadyExists(m));
                    }
                    i
                },
                None => first_free_index(&self.sessions[dst].windows, base),
            },
        };
        let ghost s1 = *self;
        let mut records: Vec<Window> = Vec::new();
        std::mem::swap(&mut records, &mut self.windows);
        let mut win = records.remove(w);
        let ghost w0 = win;
        let node = break_out(&mut win, src.pane);
        records.insert(w, win);
        let layout = LayoutCell::pane(node.id, cols, rows);
        let wname = match name {
            Some(n) => owned(n),
            None => String::new(),
        };
        let shown = match name {
            Some(n) => n,
            None => "",
        };
        let ghost broken = records@;
        records.push(Window { id: new_window_id, name: wname, panes: vec![node], active: 0, last_pane: None, layout });
        let link_id = self.next_winlink_id;
        self.next_winlink_id = self.next_winlink_id + 1;
        let pos = count_leading_below(&self.sessions[dst].windows, chosen);
        proof {
            lemma_leading_below_bound(self.sessions@[dst as int].windows@, chosen);
        }
        let ghost s2 = *self;
        let link = Winlink { link_id, index: chosen, id: new_window_id, alert_flags: 0 };
        self.insert_link(dst, pos, link, select, Some(shown));
        let ghost s3 = *self;
        proof {
            let before = s2.session_list()[dst as int];
            let now = s3.session_list()[dst as int];
            let linked = crate::state::links::linked_selection(before, pos as int, link);
            assert(linked.0[pos as int] == link);
            let lp = crate::state::links::link_position(linked.0, link.link_id);
            let sel = crate::winlinks::select_in(linked, lp);
            assert(sel.0.len() == linked.0.len());
            assert(sel.0[pos as int].id == link.id && sel.0[pos as int].index == link.index
                && sel.0[pos as int].link_id == link.link_id);
            assert(now.windows@ == crate::winlinks::selection(now).0);
            assert(now.windows@[pos as int].id == new_window_id);
            assert(now.windows@.len() == before.windows@.len() + 1);
        }
        self.invalidate_session(source_id, RenderInvalidation::layout().bitor(RenderInvalidation::status()));
        if dst_id != source_id {
            self.invalidate_session(dst_id, RenderInvalidation::layout().bitor(RenderInvalidation::status()));
        }
        self.windows = records;
        proof {
            assert(self.session_list() == s3.session_list());
            assert(self.window_list() == broken.push(self.window_list().last()));
            assert forall|k: int| 0 <= k < s0.window_list().len() && k != w implies #[trigger] self.window_list()[k] == s0.window_list()[k] by {
                assert(broken[k] == s0.windows@[k]);
            }
            assert(s1.session_list()[dst as int].windows@ == s2.session_list()[dst as int].windows@);
            if relative is None && index is None {
                assert(first_free_at(d0.windows@, base, chosen));
            }
            let l = self.session_list()[dst as int].windows@[pos as int];
            assert(pos < self.session_list()[dst as int].windows@.len());
            assert(l.id == new_window_id);
            assert(l.link_id == s0.next_winlink_id_spec());
            assert(l.index == chosen);
            assert(break_index(d0, index, base, relative, l.index));
            assert(self.window_list().len() == s0.window_list().len() + 1);
            assert(w0 == s0.window_list()[w as int]);
            assert(pane_broken_out(s0.window_list()[w as int], self.window_list()[w as int], src.pane as int));
            let made = self.window_list().last();
            assert(made.id == new_window_id);
            assert(made.name@ == name_or_empty(name));
            assert(made.panes@ == seq![w0.panes@[src.pane as int]]);
        }
        Ok(Target { session: dst, window: pos, pane: 0 })
    }
}


/// The index a lone pane's window moves to without `relative`: the
/// requested one, or the first free at or after `base`.
pub open spec fn break_move_index(dst: Session, index: Option<u32>, base: u32) -> u32 {
    match index {
        Some(i) => i,
        None => choose|f: u32| first_free_at(dst.windows@, base, f),
    }
}

/// `mid` is `before` once the window of the lone pane `src` moved into the
/// session at `dst` (beside the anchor with `relative`, see
/// [`window_moved_beside`]; to [`break_move_index`] otherwise, see
/// [`crate::state::moves::window_moved`]), the move answering `moved`.
pub open spec fn lone_pane_moved(before: ServerState, mid: ServerState, src: Target, dst: usize, index: Option<u32>,
    base: u32, select: bool, relative: Option<bool>, moved: Result<(), StateError>) -> bool {
    let d0 = before.session_list()[dst as int];
    match relative {
        Some(a) => window_moved_beside(before, mid, src, dst, Some(break_anchor(d0, index)), a, select, moved),
        None => window_moved(before, mid, src, dst, break_move_index(d0, index, base), false, select, moved),
    }
}

/// `after` is `before` once the window of the one-pane source `src` moved
/// into the session at `dst` (see [`lone_pane_moved`]): a refused move is
/// answered as it was, leaving the state as the move left it; otherwise,
/// with `name`, the window's record took that name, and `result` names
/// where the window went.
pub open spec fn pane_window_moved(before: ServerState, after: ServerState, src: Target, dst: usize, index: Option<u32>,
    base: u32, name: Option<Seq<char>>, select: bool, relative: Option<bool>, result: Result<Target, StateError>) -> bool {
    let wid = source_window(before, src);
    exists|mid: ServerState, moved: Result<(), StateError>|
        #![trigger lone_pane_moved(before, mid, src, dst, index, base, select, relative, moved)]
    {
        &&& lone_pane_moved(before, mid, src, dst, index, base, select, relative, moved)
        &&& match moved {
            Err(e) => result == Err::<Target, StateError>(e) && after == mid,
            Ok(_) => {
                &&& after.session_list() == mid.session_list()
                &&& after.notifications() == mid.notifications()
                &&& name matches Some(n) ==> (record_ids(after.window_list()).contains(wid)
                    ==> after.window_list()[record_ids(after.window_list()).index_of_first(wid)->0].name@ == n)
                &&& result matches Ok(t) ==> {
                    &&& t.pane == 0
                    &&& t.session < after.session_list().len()
                    &&& after.session_list()[t.session as int].id == before.session_list()[dst as int].id
                    &&& t.window < after.session_list()[t.session as int].windows@.len()
                    &&& after.session_list()[t.session as int].windows@[t.window as int].id == wid
                }
            },
        }
    }
}

/// There is one first free index at or after `from`.
proof fn lemma_first_free_unique(links: Seq<Winlink>, from: u32, a: u32, b: u32)
    requires
        first_free_at(links, from, a),
        first_free_at(links, from, b),
    ensures
        a == b,
{
}

impl ServerState {
    /// The position of the link that shows the window `wid` in the session at `pos`.
    fn link_showing(&self, pos: usize, wid: u32) -> (found: Option<usize>)
        requires
            pos < self.session_list().len(),
        ensures
            match found {
                Some(i) => i < self.session_list()[pos as int].windows@.len()
                    && self.session_list()[pos as int].windows@[i as int].id == wid,
                None => true,
            },
    {
        let mut i: usize = 0;
        while i < self.sessions[pos].windows.len()
            invariant
                pos < self.sessions@.len(),
                i <= self.sessions@[pos as int].windows@.len(),
            decreases self.sessions@[pos as int].windows@.len() - i,
        {
            if self.sessions[pos].windows[i].id == wid {
                return Some(i);
            }
            i += 1;
        }
        None
    }

    /// Give the window record `wid` the name `name`, when there is one.
    fn rename_record(&mut self, wid: u32, name: &str)
        ensures
            old(self).same_but_windows(final(self)),
            final(self).window_list().len() == old(self).window_list().len(),
            forall|k: int| 0 <= k < old(self).window_list().len() ==> {
                let a = #[trigger] final(self).window_list()[k];
                let b = old(self).window_list()[k];
                if record_ids(old(self).window_list()).index_of_first(wid) == Some(k) {
                    a.name@ == name@ && a.id == b.id
                } else {
                    a == b
                }
            },
    {
        match self.record_position(wid) {
            Some(p) => {
                proof {
                    record_ids(self.windows@).index_of_first_ensures(wid);
                }
                let mut win = self.windows.remove(p);
                win.name = owned(name);
                self.windows.insert(p, win);
            },
            None => {},
        }
    }

    /// `break-pane`: move the pane `src` into a window of its own in the
    /// session at `dst`. A pane alone in its window moves that window (to
    /// the requested index, the first free at or after `base`, or beside
    /// the anchor with `relative`: see [`Self::move_window`] and
    /// [`Self::move_window_relative`]) and, with `name`, renames it; a pane
    /// among others gets the new window `new_window_id` (see
    /// [`pane_given_window`]).
    pub fn break_pane(
        &mut self,
        src: Target,
        dst: usize,
        index: Option<u32>,
        base: u32,
        name: Option<&str>,
        select: bool,
        relative: Option<bool>,
        new_window_id: u32,
    ) -> (result: Result<Target, StateError>)
        requires
            old(self).wf(),
            src.session < old(self).session_list().len(),
            src.window < old(self).session_list()[src.session as int].windows@.len(),
            dst < old(self).session_list().len(),
            old(self).session_list()[dst as int].windows@.len() > 0,
            old(self).next_winlink_id_spec() < u64::MAX,
            break_source_ok(*old(self), src),
            break_room(old(self).session_list()[dst as int], index, base, relative),
        ensures
            final(self).wf(),
            ({
                let ws = old(self).window_list();
                let w = record_ids(ws).index_of_first(source_window(*old(self), src))->0;
                if ws[w].panes@.len() >= 2 {
                    pane_given_window(*old(self), *final(self), src, dst, w, index, base, name_or_empty(name), relative,
                        new_window_id, result)
                } else {
                    pane_window_moved(*old(self), *final(self), src, dst, index, base,
                        match name { Some(n) => Some(n@), None => None }, select, relative, result)
                }
            }),
    {
        proof {
            self.lemma_id_position(dst as int);
        }
        let wid = self.sessions[src.session].windows[src.window].id;
        let w = match self.record_position(wid) {
            Some(p) => p,
            None => return Err(StateError::Invalid(owned("no such window"))),
        };
        proof {
            record_ids(self.windows@).index_of_first_ensures(wid);
        }
        if self.windows[w].panes.len() >= 2 {
            return self.break_to_new_window(src, dst, w, index, base, name, select, relative, new_window_id);
        }
        let dst_id = self.sessions[dst].id;
        let ghost d0 = self.sessions@[dst as int];
        proof {
            assert(session_wf(d0));
        }
        let active = self.sessions[dst].active;
        let anchor = match index {
            Some(i) => match position_of_index(&self.sessions[dst].windows, i) {
                Some(_) => i,
                None => self.sessions[dst].windows[active].index,
            },
            None => self.sessions[dst].windows[active].index,
        };
        proof {
            if index is Some {
                link_indices(d0.windows@).index_of_first_ensures(index->0);
            }
            assert(anchor == break_anchor(d0, index));
            assert(link_indices(d0.windows@)[active as int] == d0.windows@[active as int].index);
        }
        let ghost s0 = *self;
        let moved = match relative {
            Some(after) => self.move_window_relative(src, dst, Some(anchor), after, select),
            None => {
                let target = match index {
                    Some(i) => i,
                    None => {
                        let f = first_free_index(&self.sessions[dst].windows, base);
                        proof {
                            let c = choose|c: u32| first_free_at(d0.windows@, base, c);
                            lemma_first_free_unique(d0.windows@, base, f, c);
                        }
                        f
                    },
                };
                proof {
                    assert(target == break_move_index(d0, index, base));
                }
                self.move_window(src, dst, target, false, select)
            },
        };
        let ghost after_move = *self;
        proof {
            assert(lone_pane_moved(s0, after_move, src, dst, index, base, select, relative, moved));
        }
        match moved {
            Err(e) => return Err(e),
            Ok(()) => {},
        }
        let ghost mid = *self;
        match name {
            Some(n) => {
                self.rename_record(wid, n);
                proof {
                    assert(record_ids(self.window_list()) =~= record_ids(mid.window_list())) by {
                        assert forall|k: int| 0 <= k < mid.window_list().len() implies
                            #[trigger] record_ids(self.window_list())[k] == record_ids(mid.window_list())[k] by {
                            assert(record_ids(self.window_list())[k] == self.window_list()[k].id);
                            assert(record_ids(mid.window_list())[k] == mid.window_list()[k].id);
                        }
                    }
                    record_ids(mid.window_list()).index_of_first_ensures(wid);
                }
            },
            None => {},
        }
        let ghost named = *self;
        let session = match position_of_id(&self.sessions, dst_id) {
            Some(p) => p,
            None => return Err(StateError::Refused(owned("destination session was destroyed"))),
        };
        proof {
            session_ids(self.sessions@).index_of_first_ensures(dst_id);
            assert(session_ids(self.sessions@)[session as int] == self.sessions@[session as int].id);
        }
        proof {
            assert(self.session_list()[session as int].id == dst_id);
        }
        let window = match self.link_showing(session, wid) {
            Some(i) => i,
            None => return Err(StateError::Refused(owned("moved window is not in destination"))),
        };
        Ok(Target { session, window, pane: 0 })
    }
}

} // verus!
