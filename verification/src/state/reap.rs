use vstd::prelude::*;
use crate::session::{Session, Winlink};
use crate::state::ServerState;
use crate::state::moves::{link_set_ids, live_link_sets};
use crate::state::panes::{PaneSlot, Window, holds, is_gone, reap_window, slot_ids, window_reaped};
use crate::state::teardown::{session_shows, shows, with_windows};
use crate::state::windows::group_member;
use crate::text::{decimal, push_decimal, push_text};
use crate::winlinks::{installed, reselected, selection};
use crate::state::Notification;
use crate::state::owned;

verus! {

/// Whether a link shows none of the windows `gone`.
pub open spec fn shows_none_of(gone: Seq<u32>) -> spec_fn(Winlink) -> bool {
    |l: Winlink| !gone.contains(l.id)
}

/// `links` without those that show one of the windows `gone`, in order.
pub open spec fn without_windows(links: Seq<Winlink>, gone: Seq<u32>) -> Seq<Winlink> {
    links.filter(shows_none_of(gone))
}

/// The sessions `after` are those of `before` with the windows `gone`
/// taken out of every link set: when the first session of a set loses
/// links it keeps the others (see `installed`), and when the set is a
/// session group its other members take the same links. Other sessions are
/// unchanged.
pub open spec fn windows_stripped(before: ServerState, after: Seq<crate::session::Session>, gone: Seq<u32>) -> bool {
    let s0 = before.session_list();
    &&& after.len() == s0.len()
    &&& forall|j: int| 0 <= j < s0.len() ==> {
        let b = #[trigger] s0[j];
        let a = after[j];
        let m = link_set_ids(s0).index_of_first(b.link_set_id)->0;
        let src = s0[m];
        let kept = without_windows(src.windows@, gone);
        if kept.len() != src.windows@.len() && (m == j || (before.groups().contains_key(b.link_set_id)
            && group_member(b, src))) {
            reselected(b, a) && selection(a) == installed(b, kept)
        } else {
            a == b
        }
    }
}

/// Whether the pane's child exited and that was not yet announced.
pub open spec fn fresh_exit(exited: Seq<u32>) -> spec_fn(PaneSlot) -> bool {
    |p: PaneSlot| exited.contains(p.id) && !p.exit_notified
}

/// The pane with its exit, when its child exited, marked as announced.
pub open spec fn noted_slot(exited: Seq<u32>) -> spec_fn(PaneSlot) -> PaneSlot {
    |p: PaneSlot| PaneSlot { id: p.id, exit_notified: p.exit_notified || exited.contains(p.id) }
}

/// The ids of the panes of `panes` whose exits are announced now.
pub open spec fn fresh_exits(panes: Seq<PaneSlot>, exited: Seq<u32>) -> Seq<u32> {
    slot_ids(panes.filter(fresh_exit(exited)))
}

/// The ids of the panes of `windows` whose exits are announced now, window
/// by window.
pub open spec fn exit_news(windows: Seq<Window>, exited: Seq<u32>) -> Seq<u32>
    decreases windows.len(),
{
    if windows.len() == 0 {
        Seq::empty()
    } else {
        exit_news(windows.drop_last(), exited) + fresh_exits(windows.last().panes@, exited)
    }
}

/// The hook raised for the pane `id` whose child exited: `pane-died` when
/// `remain-on-exit` keeps it, `pane-exited` otherwise.
pub open spec fn exit_hook(retained: Seq<u32>, id: u32) -> Seq<char> {
    if retained.contains(id) { "pane-died"@ } else { "pane-exited"@ }
}

/// The ids of the windows of `windows` left without panes, in order.
pub open spec fn emptied(windows: Seq<Window>) -> Seq<u32>
    decreases windows.len(),
{
    if windows.len() == 0 {
        Seq::empty()
    } else if windows.last().panes@.len() == 0 {
        emptied(windows.drop_last()).push(windows.last().id)
    } else {
        emptied(windows.drop_last())
    }
}

/// Whether some session of `sessions` shows the window.
pub open spec fn linked_in(sessions: Seq<Session>) -> spec_fn(Window) -> bool {
    |w: Window| exists|j: int| 0 <= j < sessions.len() && shows(#[trigger] sessions[j], w.id)
}

/// `after` is the windows `before` with the exits of their panes marked
/// and the panes that go gone (see [`window_reaped`]).
pub open spec fn windows_reaped(before: Seq<Window>, after: Seq<Window>, exited: Seq<u32>, retained: Seq<u32>) -> bool {
    &&& after.len() == before.len()
    &&& forall|i: int| 0 <= i < before.len() ==> window_reaped(#[trigger] before[i],
        before[i].panes@.map_values(noted_slot(exited)), after[i], exited, retained)
}

/// `links` without those that show one of the windows `gone`.
fn links_without_any(links: &Vec<Winlink>, gone: &Vec<u32>) -> (kept: Vec<Winlink>)
    ensures
        kept@ == without_windows(links@, gone@),
{
    let mut kept: Vec<Winlink> = Vec::new();
    let mut i: usize = 0;
    while i < links.len()
        invariant
            i <= links@.len(),
            kept@ == without_windows(links@.take(i as int), gone@),
        decreases links.len() - i,
    {
        proof {
            assert(links@.take(i + 1) =~= links@.take(i as int).push(links@[i as int]));
            links@.take(i as int).lemma_filter_push(links@[i as int], shows_none_of(gone@));
        }
        if !holds(gone, links[i].id) {
            kept.push(links[i]);
        }
        i += 1;
    }
    proof {
        assert(links@.take(i as int) =~= links@);
    }
    kept
}


/// Mark as announced the exits of the panes of `window` whose children
/// exited (`exited`), returning the ids of those not announced before.
fn note_window_exits(window: &mut Window, exited: &Vec<u32>) -> (fresh: Vec<u32>)
    ensures
        final(window).panes@ == old(window).panes@.map_values(noted_slot(exited@)),
        final(window).id == old(window).id,
        final(window).name == old(window).name,
        final(window).active == old(window).active,
        final(window).last_pane == old(window).last_pane,
        final(window).layout == old(window).layout,
        slot_ids(final(window).panes@) == slot_ids(old(window).panes@),
        fresh@ == fresh_exits(old(window).panes@, exited@),
{
    let ghost start = window.panes@;
    let mut fresh: Vec<u32> = Vec::new();
    let mut k: usize = 0;
    while k < window.panes.len()
        invariant
            k <= window.panes@.len(),
            window.panes@.len() == start.len(),
            window.id == old(window).id,
            window.name == old(window).name,
            window.active == old(window).active,
            window.last_pane == old(window).last_pane,
            window.layout == old(window).layout,
            start == old(window).panes@,
            forall|j: int| 0 <= j < k ==> #[trigger] window.panes@[j] == noted_slot(exited@)(start[j]),
            forall|j: int| k <= j < start.len() ==> #[trigger] window.panes@[j] == start[j],
            fresh@ == slot_ids(start.take(k as int).filter(fresh_exit(exited@))),
        decreases start.len() - k,
    {
        let p = window.panes[k];
        proof {
            assert(start.take(k + 1) =~= start.take(k as int).push(start[k as int]));
            start.take(k as int).lemma_filter_push(start[k as int], fresh_exit(exited@));
        }
        if holds(exited, p.id) {
            if !p.exit_notified {
                let ghost before = fresh@;
                fresh.push(p.id);
                proof {
                    let f = start.take(k as int).filter(fresh_exit(exited@));
                    assert(slot_ids(f.push(p)) =~= slot_ids(f).push(p.id));
                }
            }
            window.panes.set(k, PaneSlot { id: p.id, exit_notified: true });
        }
        k += 1;
    }
    proof {
        assert(start.take(k as int) =~= start);
        assert(window.panes@ =~= start.map_values(noted_slot(exited@)));
        assert(slot_ids(window.panes@) =~= slot_ids(start));
    }
    fresh
}

/// The notifications `added` announce the exits of the panes `news`, in
/// order: `pane-died` or `pane-exited` (see [`exit_hook`]) aimed at the
/// pane, raised outside any command.
pub open spec fn exits_announced(added: Seq<Notification>, news: Seq<u32>, retained: Seq<u32>) -> bool {
    &&& added.len() == news.len()
    &&& forall|k: int| 0 <= k < news.len() ==> {
        let note = #[trigger] added[k];
        &&& note.name@ == exit_hook(retained, news[k])
        &&& note.target matches Some(t) && t@ == "%"@ + decimal(news[k] as nat)
        &&& note.deferred
    }
}

/// `%` and the pane's id.
fn pane_tag(id: u32) -> (tag: String)
    ensures
        tag@ == "%"@ + decimal(id as nat),
{
    let mut tag = String::new();
    push_text(&mut tag, "%");
    push_decimal(&mut tag, id as u64);
    tag
}

/// `@` and the window's id.
fn window_tag(id: u32) -> (tag: String)
    ensures
        tag@ == "@"@ + decimal(id as nat),
{
    let mut tag = String::new();
    push_text(&mut tag, "@");
    push_decimal(&mut tag, id as u64);
    tag
}

impl ServerState {
    /// Announce the exits of the panes `fresh` of the window `window_id`
    /// called `window_name`.
    fn announce_exits(&mut self, fresh: &Vec<u32>, retained: &Vec<u32>, window_id: u32, window_name: &String)
        requires
            old(self).deferring(),
        ensures
            old(self).same_but_notifications(final(self)),
            final(self).notifications().len() == old(self).notifications().len() + fresh@.len(),
            final(self).notifications().take(old(self).notifications().len() as int) == old(self).notifications(),
            exits_announced(final(self).notifications().skip(old(self).notifications().len() as int), fresh@, retained@),
    {
        let ghost n = self.notifications().len();
        let mut t: usize = 0;
        while t < fresh.len()
            invariant
                t <= fresh@.len(),
                old(self).same_but_notifications(self),
                self.deferring(),
                n == old(self).notifications().len(),
                self.notifications().len() == n + t,
                self.notifications().take(n as int) == old(self).notifications(),
                exits_announced(self.notifications().skip(n as int), fresh@.take(t as int), retained@),
            decreases fresh.len() - t,
        {
            let id = fresh[t];
            let name = if holds(retained, id) { "pane-died" } else { "pane-exited" };
            proof {
                reveal_strlit("pane-died");
                reveal_strlit("pane-exited");
            }
            let vars = vec![(owned("hook_pane"), pane_tag(id)), (owned("hook_window"), window_tag(window_id)),
                (owned("hook_window_name"), window_name.clone())];
            let ghost prev = *self;
            self.notify(name, Some(pane_tag(id)), vars);
            proof {
                assert(fresh@.take(t + 1) =~= fresh@.take(t as int).push(id));
                let added = self.notifications().skip(n as int);
                let before = prev.notifications().skip(n as int);
                assert(prev.notifications().len() >= n);
                assert(self.notifications().take(n as int) =~= prev.notifications().take(n as int));
                assert(added.len() == before.len() + 1);
                assert forall|k: int| 0 <= k < before.len() implies added[k] == before[k] by {
                    assert(added[k] == self.notifications()[n + k]);
                    assert(self.notifications().take(prev.notifications().len() as int)[n + k] == prev.notifications()[n + k]);
                }
                assert(added[before.len() as int] == self.notifications().last());
            }
            t += 1;
        }
        proof {
            assert(fresh@.take(t as int) =~= fresh@);
        }
    }
}

impl ServerState {
    /// Register the window `window`.
    pub fn insert_window(&mut self, window: Window)
        ensures
            final(self).window_list() == old(self).window_list().push(window),
            old(self).same_but_windows(final(self)),
    {
        self.windows.push(window);
    }

    /// The windows, with their panes and layouts.
    pub fn windows(&self) -> (windows: &Vec<Window>)
        ensures
            windows@ == self.window_list(),
    {
        &self.windows
    }

    /// The window `id`, if there is one.
    pub fn window_by_id(&self, id: u32) -> (window: Option<&Window>)
        ensures
            match window {
                Some(w) => self.window_list().contains(*w) && w.id == id,
                None => forall|i: int| 0 <= i < self.window_list().len() ==> (#[trigger] self.window_list()[i]).id != id,
            },
    {
        let mut i: usize = 0;
        while i < self.windows.len()
            invariant
                i <= self.windows@.len(),
                forall|j: int| 0 <= j < i ==> (#[trigger] self.windows@[j]).id != id,
            decreases self.windows.len() - i,
        {
            if self.windows[i].id == id {
                proof {
                    assert(self.window_list()[i as int] == self.windows@[i as int]);
                }
                return Some(&self.windows[i]);
            }
            i += 1;
        }
        None
    }
}

impl ServerState {
    /// Take the windows `gone` out of every link set (see
    /// [`windows_stripped`]).
    pub(crate) fn strip_windows(&mut self, gone: &Vec<u32>)
        requires
            old(self).wf(),
        ensures
            final(self).wf(),
            old(self).same_but_sessions(final(self)),
            windows_stripped(*old(self), final(self).session_list(), gone@),
    {
        let ghost s0 = *self;
        let ghost all = self.sessions@;
        let n = self.sessions.len();
        let mut i: usize = 0;
        while i < n
            invariant
                n == all.len(),
                i <= n,
                all == s0.sessions@,
                self.wf(),
                s0.same_but_sessions(self),
                self.sessions@.len() == all.len(),
                link_set_ids(self.sessions@) == link_set_ids(all),
                forall|j: int| 0 <= j < all.len() ==> {
                    let b = #[trigger] all[j];
                    let a = self.sessions@[j];
                    let m = link_set_ids(all).index_of_first(b.link_set_id)->0;
                    let src = all[m];
                    let kept = without_windows(src.windows@, gone@);
                    if 0 <= m < i && kept.len() != src.windows@.len() && (m == j || (s0.groups().contains_key(b.link_set_id)
                        && group_member(b, src))) {
                        reselected(b, a) && selection(a) == installed(b, kept)
                    } else {
                        a == b
                    }
                },
            decreases n - i,
        {
            let set = self.sessions[i].link_set_id;
            proof {
                assert(link_set_ids(self.sessions@)[i as int] == set);
                assert(link_set_ids(all)[i as int] == set);
                link_set_ids(all).index_of_first_ensures(set);
            }
            let first = self.first_in_link_set(set);
            if first == Some(i) {
                proof {
                    let m = link_set_ids(all).index_of_first(set)->0;
                    assert(m == i);
                    assert(all[i as int].link_set_id == set);
                    assert(self.sessions@[i as int] == all[i as int]);
                }
                let links = links_without_any(&self.sessions[i].windows, gone);
                if links.len() != self.sessions[i].windows.len() {
                    let ghost cur = *self;
                    self.replace_link_set(i, links);
                    proof {
                        s0.lemma_same_groups(&cur);
                        assert(s0.same_but_sessions(self));
                        assert forall|j: int| 0 <= j < all.len() implies
                            #[trigger] link_set_ids(self.sessions@)[j] == link_set_ids(all)[j] by {
                            assert(cur.session_list()[j].link_set_id == self.session_list()[j].link_set_id);
                            assert(link_set_ids(cur.sessions@)[j] == cur.sessions@[j].link_set_id);
                        }
                        assert(link_set_ids(self.sessions@) =~= link_set_ids(all));
                        assert forall|j: int| 0 <= j < all.len() implies {
                            let b = #[trigger] all[j];
                            let a = self.sessions@[j];
                            let m = link_set_ids(all).index_of_first(b.link_set_id)->0;
                            let src = all[m];
                            let kept = without_windows(src.windows@, gone@);
                            if 0 <= m < i + 1 && kept.len() != src.windows@.len() && (m == j
                                || (s0.groups().contains_key(b.link_set_id) && group_member(b, src))) {
                                reselected(b, a) && selection(a) == installed(b, kept)
                            } else {
                                a == b
                            }
                        } by {
                            let b = all[j];
                            assert(cur.session_list()[j] == cur.sessions@[j]);
                            assert(self.session_list()[j] == self.sessions@[j]);
                            assert(link_set_ids(all)[j] == b.link_set_id);
                            link_set_ids(all).index_of_first_ensures(b.link_set_id);
                            if b.link_set_id == set {
                                assert(link_set_ids(all).index_of_first(b.link_set_id) == Some(i as int));
                                assert(cur.sessions@[j] == b);
                                assert(cur.session_list()[i as int] == all[i as int]);
                            } else {
                                let m = link_set_ids(all).index_of_first(b.link_set_id)->0;
                                assert(link_set_ids(all)[m] == b.link_set_id);
                                assert(m != i);
                                assert(j != i);
                                assert(cur.session_list()[i as int].link_set_id == set);
                            }
                        }
                    }
                } else {
                    proof {
                        assert forall|j: int| 0 <= j < all.len() implies {
                            let b = #[trigger] all[j];
                            let m = link_set_ids(all).index_of_first(b.link_set_id)->0;
                            m != i || without_windows(all[m].windows@, gone@).len() == all[m].windows@.len()
                        } by {}
                    }
                }
            } else {
                proof {
                    let m = link_set_ids(all).index_of_first(set)->0;
                    assert(m != i);
                    assert forall|j: int| 0 <= j < all.len() implies
                        link_set_ids(all).index_of_first((#[trigger] all[j]).link_set_id)->0 != i by {
                        let b = all[j];
                        assert(link_set_ids(all)[j] == b.link_set_id);
                        link_set_ids(all).index_of_first_ensures(b.link_set_id);
                        let mb = link_set_ids(all).index_of_first(b.link_set_id)->0;
                        if mb == i {
                            assert(b.link_set_id == set);
                        }
                    }
                }
            }
            i += 1;
        }
        proof {
            assert forall|j: int| 0 <= j < all.len() implies
                0 <= link_set_ids(all).index_of_first((#[trigger] all[j]).link_set_id)->0 < n by {
                assert(link_set_ids(all)[j] == all[j].link_set_id);
                link_set_ids(all).index_of_first_ensures(all[j].link_set_id);
            }
        }
    }
}


impl ServerState {
    /// Whether some session shows the window `id`.
    fn window_linked(&self, id: u32) -> (linked: bool)
        ensures
            linked == exists|j: int| 0 <= j < self.session_list().len() && shows(#[trigger] self.session_list()[j], id),
    {
        let mut j: usize = 0;
        while j < self.sessions.len()
            invariant
                j <= self.sessions@.len(),
                forall|k: int| 0 <= k < j ==> !shows(#[trigger] self.sessions@[k], id),
            decreases self.sessions.len() - j,
        {
            if session_shows(&self.sessions[j], id) {
                proof {
                    assert(self.session_list()[j as int] == self.sessions@[j as int]);
                }
                return true;
            }
            j += 1;
        }
        proof {
            assert forall|k: int| 0 <= k < self.session_list().len() implies !shows(#[trigger] self.session_list()[k], id) by {
                assert(self.session_list()[k] == self.sessions@[k]);
            }
        }
        false
    }

    /// Mark the exits of the panes whose children exited (`exited`),
    /// announce those not announced before, and drop from every window the
    /// panes that go (those `retained` stay), window by window; the windows
    /// are taken out of the state and handed back.
    fn reap_all_windows(&mut self, exited: &Vec<u32>, retained: &Vec<u32>) -> (result: (bool, Vec<Window>))
        requires
            old(self).deferring(),
            forall|i: int| 0 <= i < old(self).window_list().len() ==> (#[trigger] old(self).window_list()[i]).wf(),
        ensures
            final(self).window_list().len() == 0,
            old(self).same_but_windows_notes(final(self)),
            windows_reaped(old(self).window_list(), result.1@, exited@, retained@),
            result.0 == exists|i: int, k: int| 0 <= i < old(self).window_list().len()
                && 0 <= k < old(self).window_list()[i].panes@.len()
                && is_gone(exited@, retained@, #[trigger] old(self).window_list()[i].panes@[k].id),
            final(self).notifications().take(old(self).notifications().len() as int) == old(self).notifications(),
            exits_announced(final(self).notifications().skip(old(self).notifications().len() as int),
                exit_news(old(self).window_list(), exited@), retained@),
    {
        let ghost s0 = *self;
        let ghost n = self.notifications().len();
        let mut pending: Vec<Window> = Vec::new();
        std::mem::swap(&mut pending, &mut self.windows);
        let ghost ws = pending@;
        let total = pending.len();
        let mut done: Vec<Window> = Vec::new();
        let mut removed = false;
        let mut i: usize = 0;
        while pending.len() > 0
            invariant
                ws == s0.windows@,
                ws.len() == total,
                i <= ws.len(),
                pending@ == ws.skip(i as int),
                done@.len() == i,
                self.windows@.len() == 0,
                s0.same_but_windows_notes(self),
                self.deferring(),
                forall|j: int| 0 <= j < ws.len() ==> (#[trigger] ws[j]).wf(),
                windows_reaped(ws.take(i as int), done@, exited@, retained@),
                removed == exists|a: int, k: int| 0 <= a < i && 0 <= k < ws[a].panes@.len()
                    && is_gone(exited@, retained@, #[trigger] ws[a].panes@[k].id),
                self.notifications().len() >= n,
                self.notifications().take(n as int) == s0.notifications(),
                exits_announced(self.notifications().skip(n as int), exit_news(ws.take(i as int), exited@), retained@),
            decreases pending.len(),
        {
            proof {
                assert(pending@[0] == ws[i as int]);
            }
            let mut w = pending.remove(0);
            let ghost w0 = w;
            let fresh = note_window_exits(&mut w, exited);
            let ghost w1 = w;
            let ghost prev = *self;
            self.announce_exits(&fresh, retained, w.id, &w.name);
            proof {
                assert(w.wf());
            }
            let r = reap_window(&mut w, exited, retained);
            removed = removed || r;
            done.push(w);
            proof {
                let t0 = ws.take(i as int);
                let t1 = ws.take(i + 1);
                assert(t1.drop_last() =~= t0);
                assert(t1.last() == w0);
                assert(pending@ =~= ws.skip(i + 1));
                assert forall|j: int| 0 <= j < t1.len() implies window_reaped(#[trigger] t1[j],
                    t1[j].panes@.map_values(noted_slot(exited@)), done@[j], exited@, retained@) by {
                    if j < i {
                        assert(t1[j] == t0[j]);
                    }
                }
                assert(removed == exists|a: int, k: int| 0 <= a < i + 1 && 0 <= k < ws[a].panes@.len()
                    && is_gone(exited@, retained@, #[trigger] ws[a].panes@[k].id)) by {
                    if r {
                        let k = choose|k: int| 0 <= k < w1.panes@.len() && is_gone(exited@, retained@, #[trigger] w1.panes@[k].id);
                        assert(w1.panes@[k] == noted_slot(exited@)(w0.panes@[k]));
                        assert(ws[i as int].panes@[k].id == w0.panes@[k].id);
                        assert(is_gone(exited@, retained@, ws[i as int].panes@[k].id));
                    }
                    if exists|a: int, k: int| 0 <= a < i + 1 && 0 <= k < ws[a].panes@.len()
                        && is_gone(exited@, retained@, #[trigger] ws[a].panes@[k].id) {
                        let (a, k) = choose|a: int, k: int| 0 <= a < i + 1 && 0 <= k < ws[a].panes@.len()
                            && is_gone(exited@, retained@, #[trigger] ws[a].panes@[k].id);
                        if a == i {
                            assert(w1.panes@[k] == noted_slot(exited@)(w0.panes@[k]));
                            assert(is_gone(exited@, retained@, w1.panes@[k].id));
                            assert(r);
                        } else {
                            assert(is_gone(exited@, retained@, ws[a].panes@[k].id));
                        }
                    }
                }
                // The notifications: those before, then those of this window.
                let m = prev.notifications().len();
                let before = prev.notifications().skip(n as int);
                let mine = self.notifications().skip(m as int);
                let all = self.notifications().skip(n as int);
                assert(self.notifications().take(n as int) =~= prev.notifications().take(n as int)) by {
                    assert forall|k: int| 0 <= k < n implies self.notifications()[k] == prev.notifications()[k] by {
                        assert(self.notifications().take(m as int)[k] == prev.notifications()[k]);
                    }
                }
                assert(all =~= before + mine) by {
                    assert forall|k: int| 0 <= k < before.len() implies all[k] == before[k] by {
                        assert(self.notifications().take(m as int)[n + k] == prev.notifications()[n + k]);
                    }
                }
                assert(exit_news(t1, exited@) == exit_news(t0, exited@) + fresh_exits(w0.panes@, exited@));
                let news = exit_news(t1, exited@);
                assert forall|k: int| 0 <= k < news.len() implies {
                    let note = #[trigger] all[k];
                    &&& note.name@ == exit_hook(retained@, news[k])
                    &&& note.target matches Some(t) && t@ == "%"@ + decimal(news[k] as nat)
                    &&& note.deferred
                } by {
                    let k0 = exit_news(t0, exited@).len();
                    if k < k0 {
                        assert(all[k] == before[k]);
                        assert(news[k] == exit_news(t0, exited@)[k]);
                    } else {
                        assert(all[k] == mine[k - k0]);
                        assert(news[k] == fresh@[k - k0]);
                    }
                }
            }
            i += 1;
        }
        proof {
            assert(ws.take(i as int) =~= ws);
        }
        (removed, done)
    }
}


/// The ids of the windows of `windows` left without panes.
fn emptied_ids(windows: &Vec<Window>) -> (ids: Vec<u32>)
    ensures
        ids@ == emptied(windows@),
{
    let mut ids: Vec<u32> = Vec::new();
    let mut i: usize = 0;
    while i < windows.len()
        invariant
            i <= windows@.len(),
            ids@ == emptied(windows@.take(i as int)),
        decreases windows.len() - i,
    {
        proof {
            assert(windows@.take(i + 1).drop_last() =~= windows@.take(i as int));
        }
        if windows[i].panes.len() == 0 {
            ids.push(windows[i].id);
        }
        i += 1;
    }
    proof {
        assert(windows@.take(i as int) =~= windows@);
    }
    ids
}

impl ServerState {
    /// The windows of `windows` that some session still shows, in order.
    fn still_linked(&self, windows: Vec<Window>) -> (kept: Vec<Window>)
        ensures
            kept@ == windows@.filter(linked_in(self.session_list())),
    {
        let ghost all = windows@;
        let mut rest = windows;
        let mut kept: Vec<Window> = Vec::new();
        let mut i: usize = 0;
        let total = rest.len();
        while rest.len() > 0
            invariant
                all.len() == total,
                i <= total,
                rest@ == all.skip(i as int),
                kept@ == all.take(i as int).filter(linked_in(self.session_list())),
            decreases rest.len(),
        {
            proof {
                assert(rest@[0] == all[i as int]);
                assert(all.take(i + 1) =~= all.take(i as int).push(all[i as int]));
                all.take(i as int).lemma_filter_push(all[i as int], linked_in(self.session_list()));
            }
            let w = rest.remove(0);
            let linked = self.window_linked(w.id);
            if linked {
                kept.push(w);
            }
            proof {
                assert(rest@ =~= all.skip(i + 1));
            }
            i += 1;
        }
        proof {
            assert(all.take(i as int) =~= all);
        }
        kept
    }

    /// Apply the end of pane children: `exited` are the panes whose
    /// children exited, `retained` those that `remain-on-exit` keeps.
    /// Each exit not yet announced raises `pane-died` (kept) or
    /// `pane-exited` (gone) once; the panes that go leave their windows
    /// (see [`window_reaped`]); windows left without panes leave every
    /// link set (see [`windows_stripped`]); sessions left without windows
    /// close and the groups left without sessions are forgotten; windows
    /// no session shows are dropped; and a server that had sessions and has
    /// none left stops when `exit_empty`. Whether any pane went.
    #[verifier::rlimit(40)]
    pub fn reap_exited_panes(&mut self, exited: &Vec<u32>, retained: &Vec<u32>, exit_empty: bool) -> (removed: bool)
        requires
            old(self).wf(),
            forall|i: int| 0 <= i < old(self).window_list().len() ==> (#[trigger] old(self).window_list()[i]).wf(),
        ensures
            final(self).wf(),
            removed == exists|i: int, k: int| 0 <= i < old(self).window_list().len()
                && 0 <= k < old(self).window_list()[i].panes@.len()
                && is_gone(exited@, retained@, #[trigger] old(self).window_list()[i].panes@[k].id),
            exists|reaped: Seq<Window>, stripped: Seq<Session>|
                #![trigger windows_reaped(old(self).window_list(), reaped, exited@, retained@), windows_stripped(*old(self), stripped, emptied(reaped))]
            {
                &&& windows_reaped(old(self).window_list(), reaped, exited@, retained@)
                &&& windows_stripped(*old(self), stripped, emptied(reaped))
                &&& final(self).session_list() == with_windows(stripped)
                &&& final(self).window_list() == reaped.filter(linked_in(final(self).session_list()))
            },
            final(self).groups() == old(self).groups().restrict(live_link_sets(final(self).session_list())),
            final(self).shutdown_requested_spec() == (old(self).shutdown_requested_spec()
                || (old(self).session_list().len() > 0 && final(self).session_list().len() == 0 && exit_empty)),
            final(self).notifications().take(old(self).notifications().len() as int) == old(self).notifications(),
            exits_announced(final(self).notifications().skip(old(self).notifications().len() as int),
                exit_news(old(self).window_list(), exited@), retained@),
            final(self).deferring() == old(self).deferring(),
            final(self).render_request_list() == old(self).render_request_list(),
    {
        let ghost s0 = *self;
        let had_sessions = self.sessions.len() > 0;
        let previous = self.notifications_are_deferred;
        self.notifications_are_deferred = true;
        let (removed, done) = self.reap_all_windows(exited, retained);
        self.notifications_are_deferred = previous;
        let ghost reaped = done@;
        let ghost s2 = *self;
        proof {
            s0.lemma_groups_held();
            s2.lemma_groups_held();
            assert(s2.session_list() == s0.session_list());
            assert(s2.groups() == s0.groups());
            assert(s2.wf() == s0.wf());
        }
        let gone = emptied_ids(&done);
        self.strip_windows(&gone);
        let ghost s3 = *self;
        self.remove_windowless_sessions();
        let ghost s4 = *self;
        proof {
            s2.lemma_same_groups(&s3);
            s3.lemma_same_groups(&s4);
        }
        self.prune_groups();
        let ghost pruned = *self;
        proof {
            pruned.lemma_groups_held();
            s4.lemma_groups_held();
            assert(s4.groups() == s0.groups());
            assert(pruned.groups() == s0.groups().restrict(live_link_sets(s4.session_list())));
        }
        let kept = self.still_linked(done);
        self.windows = kept;
        let ghost s5 = *self;
        self.request_shutdown_if_became_empty(had_sessions, exit_empty);
        proof {
            s5.lemma_groups_held();
            self.lemma_groups_held();
            assert(self.groups() == s5.groups());
            assert(self.session_list() == s4.session_list());
            assert(self.window_list() == reaped.filter(linked_in(self.session_list())));
            assert(windows_stripped(s0, s3.session_list(), emptied(reaped)));
            assert(self.notifications() == s2.notifications());
        }
        removed
    }
}

} // verus!
