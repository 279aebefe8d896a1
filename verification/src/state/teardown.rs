use vstd::prelude::*;
use crate::session::{Session, Target, Winlink};
use crate::render::RenderInvalidation;
use crate::state::{Notification, RenderRequest, ServerState, position_of_id, session_ids, session_wf, sessions_wf};
use crate::state::lifecycle::ids_at;
use crate::state::links::{affected_requests, at_positions, is_window_notification};
use crate::state::moves::{kept_positions, lemma_kept_positions, lemma_matching_positions, link_set_ids, live_link_sets, matching_positions};
use crate::state::windows::group_member;
use crate::winlinks::{installed, renumber_links, renumbered_selection, reselected, selection};

verus! {

/// The test that keeps a link: it does not show the window `wid`.
pub open spec fn other_than(wid: u32) -> spec_fn(Winlink) -> bool {
    |l: Winlink| l.id != wid
}

/// `links` without those that show the window `wid`, in order.
pub open spec fn without_window(links: Seq<Winlink>, wid: u32) -> Seq<Winlink> {
    links.filter(other_than(wid))
}

/// The ids of the windows `links` show, in order.
pub open spec fn window_ids(links: Seq<Winlink>) -> Seq<u32> {
    links.map_values(|l: Winlink| l.id)
}

/// Whether the session `s` shows the window `wid`.
pub open spec fn shows(s: Session, wid: u32) -> bool {
    window_ids(s.windows@).contains(wid)
}

/// For each of `sessions`, whether it shows the window `wid`.
pub open spec fn showing(sessions: Seq<Session>, wid: u32) -> Seq<bool> {
    sessions.map_values(|s: Session| shows(s, wid))
}

/// The ids of the sessions of `sessions` that show the window `wid`, in order.
pub open spec fn sessions_showing(sessions: Seq<Session>, wid: u32) -> Seq<u32> {
    ids_at(sessions, matching_positions(showing(sessions, wid), true))
}

/// Whether some session of the link set `set` shows the window `wid`.
pub open spec fn set_shows(sessions: Seq<Session>, set: u32, wid: u32) -> bool {
    exists|j: int| 0 <= j < sessions.len() && #[trigger] sessions[j].link_set_id == set && shows(sessions[j], wid)
}

/// The sessions `after` are those of `before` with the window `wid` taken
/// out of every link set that shows it: the first session of the set keeps
/// its other links, and when the set is a session group its other members
/// take the same links. Other sessions are unchanged.
pub open spec fn window_stripped(before: ServerState, after: Seq<Session>, wid: u32) -> bool {
    let s0 = before.session_list();
    &&& after.len() == s0.len()
    &&& forall|j: int| 0 <= j < s0.len() ==> {
        let b = #[trigger] s0[j];
        let a = after[j];
        if set_shows(s0, b.link_set_id, wid) {
            let m = link_set_ids(s0).index_of_first(b.link_set_id);
            let src = s0[m->0];
            if m == Some(j) || (before.groups().contains_key(b.link_set_id) && group_member(b, src)) {
                reselected(b, a) && selection(a) == installed(b, without_window(src.windows@, wid))
            } else {
                a == b
            }
        } else {
            a == b
        }
    }
}

/// No session of `sessions` shows more than `limit` windows.
pub open spec fn windows_within(sessions: Seq<Session>, limit: int) -> bool {
    forall|j: int| 0 <= j < sessions.len() ==> (#[trigger] sessions[j]).windows@.len() <= limit
}

/// Whether `ids` rise strictly.
pub open spec fn rising(ids: Seq<u32>) -> bool {
    forall|a: int, b: int| 0 <= a < b < ids.len() ==> ids[a] < ids[b]
}

/// Whether `links` show the window `keep` more than once.
pub open spec fn shown_twice(links: Seq<Winlink>, keep: u32) -> bool {
    exists|a: int, b: int| 0 <= a < b < links.len() && links[a].id == keep && links[b].id == keep
}

/// The windows `kill-window -a` destroys around the window `keep` of a
/// session with `links`: every other window it shows, and `keep` itself
/// when the session shows it more than once.
pub open spec fn others_of(links: Seq<Winlink>, keep: u32) -> Set<u32> {
    Set::new(|id: u32| (window_ids(links).contains(id) && id != keep) || (id == keep && shown_twice(links, keep)))
}

/// The name `names` gives the window `id`: that of its first entry.
pub open spec fn name_for(names: Seq<(u32, String)>, id: u32) -> Option<Seq<char>> {
    match names.map_values(|e: (u32, String)| e.0).index_of_first(id) {
        Some(i) => Some(names[i].1@),
        None => None,
    }
}

/// What `kill-window -a` around the window at `target` does: the windows of
/// [`others_of`] are destroyed one after another in rising order, each as
/// [`window_destroyed`] states and named by `names`.
pub open spec fn others_destroyed(before: ServerState, after: ServerState, target: Target, renumber: bool, base: u32, exit_empty: bool, names: Seq<(u32, String)>) -> bool {
    let links = before.session_list()[target.session as int].windows@;
    let keep = links[target.window as int].id;
    exists|ids: Seq<u32>, states: Seq<ServerState>| {
        &&& rising(ids)
        &&& ids.to_set() == others_of(links, keep)
        &&& states.len() == ids.len() + 1
        &&& states[0] == before
        &&& states[ids.len() as int] == after
        &&& forall|k: int| 0 <= k < ids.len() ==> window_destroyed(#[trigger] states[k], states[k + 1], ids[k],
            renumber, base, exit_empty, name_for(names, ids[k]))
    }
}

/// Put `x` into the rising `ids`, unless it is there.
fn insert_rising(ids: &mut Vec<u32>, x: u32)
    requires
        rising(old(ids)@),
    ensures
        rising(final(ids)@),
        final(ids)@.to_set() == old(ids)@.to_set().insert(x),
{
    let mut p: usize = 0;
    while p < ids.len() && ids[p] < x
        invariant
            p <= ids@.len(),
            forall|j: int| 0 <= j < p ==> ids@[j] < x,
        decreases ids.len() - p,
    {
        p += 1;
    }
    if p < ids.len() && ids[p] == x {
        proof {
            assert(ids@.to_set() =~= ids@.to_set().insert(x)) by {
                assert(ids@.contains(x));
            }
        }
        return;
    }
    let ghost before = ids@;
    ids.insert(p, x);
    proof {
        assert forall|a: int, b: int| 0 <= a < b < ids@.len() implies ids@[a] < ids@[b] by {
            if b < p {
                assert(ids@[a] == before[a] && ids@[b] == before[b]);
            } else if b == p {
                assert(ids@[a] == before[a]);
            } else if a < p {
                assert(ids@[a] == before[a] && ids@[b] == before[b - 1]);
                assert(before[b - 1] >= x);
            } else if a == p {
                assert(ids@[b] == before[b - 1]);
                assert(before[p as int] >= x && before[p as int] != x);
                if b - 1 > p {
                    assert(before[p as int] < before[b - 1]);
                }
            } else {
                assert(ids@[a] == before[a - 1] && ids@[b] == before[b - 1]);
            }
        }
        assert forall|y: u32| ids@.to_set().contains(y) <==> before.to_set().insert(x).contains(y) by {
            if ids@.contains(y) {
                let t = choose|t: int| 0 <= t < ids@.len() && ids@[t] == y;
                if t < p {
                    assert(before[t] == y);
                } else if t > p {
                    assert(before[t - 1] == y);
                }
            }
            if before.contains(y) {
                let t = choose|t: int| 0 <= t < before.len() && before[t] == y;
                if t < p {
                    assert(ids@[t] == y);
                } else {
                    assert(ids@[t + 1] == y);
                }
            }
            if y == x {
                assert(ids@[p as int] == x);
            }
        }
        assert(ids@.to_set() =~= before.to_set().insert(x));
    }
}

/// The name `names` gives the window `id`.
fn name_of(names: &Vec<(u32, String)>, id: u32) -> (found: Option<&str>)
    ensures
        match name_for(names@, id) {
            Some(n) => found matches Some(f) && f@ == n,
            None => found is None,
        },
{
    let ghost keys = names@.map_values(|e: (u32, String)| e.0);
    let mut i: usize = 0;
    while i < names.len()
        invariant
            i <= names@.len(),
            keys == names@.map_values(|e: (u32, String)| e.0),
            forall|j: int| 0 <= j < i ==> keys[j] != id,
        decreases names.len() - i,
    {
        if names[i].0 == id {
            proof {
                assert(keys[i as int] == id);
                keys.index_of_first_ensures(id);
            }
            return Some(names[i].1.as_str());
        }
        i += 1;
    }
    proof {
        keys.index_of_first_ensures(id);
    }
    None
}

/// For each of `sessions`, whether it has no windows.
pub open spec fn windowless(sessions: Seq<Session>) -> Seq<bool> {
    sessions.map_values(|s: Session| s.windows@.len() == 0)
}

/// The sessions of `sessions` that keep a window, in order.
pub open spec fn with_windows(sessions: Seq<Session>) -> Seq<Session> {
    at_positions(sessions, kept_positions(windowless(sessions), true))
}

/// The positions among `sessions` that renumbering after a change to the
/// sessions `ids` touches: going through `ids` in order, the position of
/// each that still exists, unless a session of its link set (or one of
/// `seen`) came before.
pub open spec fn renumber_targets(ids: Seq<u32>, sessions: Seq<Session>, seen: Set<u32>) -> Seq<int>
    decreases ids.len(),
{
    if ids.len() == 0 {
        Seq::empty()
    } else {
        let rest = ids.drop_first();
        match session_ids(sessions).index_of_first(ids[0]) {
            None => renumber_targets(rest, sessions, seen),
            Some(p) => if seen.contains(sessions[p].link_set_id) {
                renumber_targets(rest, sessions, seen)
            } else {
                seq![p] + renumber_targets(rest, sessions, seen.insert(sessions[p].link_set_id))
            },
        }
    }
}

/// A status redraw owed to the sessions at `positions` of `sessions`, in order.
pub open spec fn status_requests(positions: Seq<int>, sessions: Seq<Session>) -> Seq<RenderRequest> {
    Seq::new(positions.len(), |k: int| RenderRequest {
        session_id: Some(sessions[positions[k]].id),
        reason: RenderInvalidation(1),
    })
}

/// The notifications `after` are `before` followed by `window-unlinked`
/// about the window `wid` for each of the sessions `ids`, in order, the
/// sessions being looked up in `sessions`.
pub open spec fn unlinked_noted(before: Seq<Notification>, after: Seq<Notification>, ids: Seq<u32>, sessions: Seq<Session>, wid: u32, window_name: Option<Seq<char>>, deferred: bool) -> bool {
    let added = after.skip(before.len() as int);
    &&& after.len() == before.len() + ids.len()
    &&& after.take(before.len() as int) == before
    &&& forall|k: int| 0 <= k < ids.len() ==> is_window_notification(#[trigger] added[k], "window-unlinked"@, sessions,
        ids[k], wid, window_name, deferred)
}

/// What destroying the window `wid` does to the state `before`: see
/// [`ServerState::destroy_window_id`].
pub open spec fn window_destroyed(before: ServerState, after: ServerState, wid: u32, renumber: bool, base: u32, exit_empty: bool, window_name: Option<Seq<char>>) -> bool {
    let affected = sessions_showing(before.session_list(), wid);
    exists|stripped: Seq<Session>| #![trigger window_stripped(before, stripped, wid)] {
        let kept = with_windows(stripped);
        let targets = if renumber { renumber_targets(affected, kept, Set::empty()) } else { Seq::empty() };
        &&& window_stripped(before, stripped, wid)
        &&& unlinked_noted(before.notifications(), after.notifications(), affected, stripped, wid, window_name,
            before.deferring())
        &&& renumbered_at(kept, after.session_list(), targets, base)
        &&& after.groups() == before.groups().restrict(live_link_sets(after.session_list()))
        &&& after.deferring() == before.deferring()
        &&& after.shutdown_requested_spec() == (before.shutdown_requested_spec()
            || (before.session_list().len() > 0 && after.session_list().len() == 0 && exit_empty))
        &&& after.render_request_list() == before.render_request_list() + status_requests(targets, kept)
            + affected_requests(affected, after.session_list())
    }
}

/// The sessions `after` are `before` with those at `positions` numbered
/// again from `base`.
pub open spec fn renumbered_at(before: Seq<Session>, after: Seq<Session>, positions: Seq<int>, base: u32) -> bool {
    &&& after.len() == before.len()
    &&& forall|i: int| 0 <= i < before.len() ==> if positions.contains(i) {
        reselected(before[i], #[trigger] after[i]) && selection(after[i]) == renumbered_selection(before[i], base)
    } else {
        after[i] == before[i]
    }
}

/// What a sequence with one more item contains.
proof fn lemma_push_contains<T>(s: Seq<T>, x: T, y: T)
    ensures
        s.push(x).contains(y) <==> (s.contains(y) || x == y),
{
    if s.contains(y) {
        let t = choose|t: int| 0 <= t < s.len() && s[t] == y;
        assert(s.push(x)[t] == y);
    }
    if x == y {
        assert(s.push(x)[s.len() as int] == y);
    }
    if s.push(x).contains(y) {
        let t = choose|t: int| 0 <= t < s.push(x).len() && s.push(x)[t] == y;
        if t < s.len() {
            assert(s[t] == y);
        }
    }
}

/// The links of `links` that do not show the window `wid`.
fn links_without(links: &Vec<Winlink>, wid: u32) -> (kept: Vec<Winlink>)
    ensures
        kept@ == without_window(links@, wid),
{
    let mut kept: Vec<Winlink> = Vec::new();
    let mut i: usize = 0;
    while i < links.len()
        invariant
            i <= links@.len(),
            kept@ == without_window(links@.take(i as int), wid),
        decreases links.len() - i,
    {
        proof {
            assert(links@.take(i + 1) =~= links@.take(i as int).push(links@[i as int]));
            links@.take(i as int).lemma_filter_push(links@[i as int], other_than(wid));
        }
        if links[i].id != wid {
            kept.push(links[i]);
        }
        i += 1;
    }
    proof {
        assert(links@.take(i as int) =~= links@);
    }
    kept
}

/// Whether the session shows the window `wid`.
pub(crate) fn session_shows(session: &Session, wid: u32) -> (found: bool)
    ensures
        found == shows(*session, wid),
{
    let mut i: usize = 0;
    while i < session.windows.len()
        invariant
            i <= session.windows@.len(),
            forall|k: int| 0 <= k < i ==> session.windows@[k].id != wid,
        decreases session.windows.len() - i,
    {
        if session.windows[i].id == wid {
            proof {
                assert(window_ids(session.windows@)[i as int] == wid);
            }
            return true;
        }
        i += 1;
    }
    proof {
        if window_ids(session.windows@).contains(wid) {
            let k = choose|k: int| 0 <= k < window_ids(session.windows@).len() && window_ids(session.windows@)[k] == wid;
            assert(session.windows@[k].id == wid);
        }
    }
    false
}

impl ServerState {
    /// Close every session left without a window.
    pub(crate) fn remove_windowless_sessions(&mut self)
        requires
            old(self).wf(),
        ensures
            final(self).wf(),
            old(self).same_but_sessions(final(self)),
            final(self).session_list() == with_windows(old(self).session_list()),
    {
        let ghost before = self.sessions@;
        let ghost flags = windowless(before);
        let ghost mut k: int = 0;
        let mut i: usize = 0;
        proof {
            lemma_kept_positions(flags, true);
        }
        while i < self.sessions.len()
            invariant
                before == old(self).sessions@,
                flags == windowless(before),
                0 <= k <= before.len(),
                self.sessions@.len() == i + (before.len() - k),
                kept_positions(flags.take(k), true).len() == i,
                forall|j: int| 0 <= j < i ==> #[trigger] self.sessions@[j] == before[kept_positions(flags.take(k), true)[j]],
                forall|j: int| i <= j < self.sessions@.len() ==> #[trigger] self.sessions@[j] == before[k + (j - i)],
                sessions_wf(self.sessions@),
                old(self).same_but_sessions(self),
            decreases self.sessions.len() - i,
        {
            proof {
                assert(self.sessions@[i as int] == before[k]);
                assert(flags.take(k + 1).drop_last() =~= flags.take(k));
                assert(flags.take(k + 1).last() == (before[k].windows@.len() == 0));
            }
            if self.sessions[i].windows.len() == 0 {
                let ghost prev = self.sessions@;
                self.sessions.remove(i);
                proof {
                    assert forall|j: int| i <= j < self.sessions@.len() implies #[trigger] self.sessions@[j] == before[(k + 1) + (j - i)] by {
                        assert(self.sessions@[j] == prev[j + 1]);
                    }
                    assert forall|j: int| 0 <= j < self.sessions@.len() implies session_wf(#[trigger] self.sessions@[j]) by {
                        if j < i {
                            assert(self.sessions@[j] == prev[j]);
                        } else {
                            assert(self.sessions@[j] == prev[j + 1]);
                        }
                    }
                    k = k + 1;
                }
            } else {
                proof {
                    assert(kept_positions(flags.take(k + 1), true) == kept_positions(flags.take(k), true).push(k));
                    k = k + 1;
                }
                i += 1;
            }
        }
        proof {
            assert(k == before.len());
            assert(flags.take(k) =~= flags);
            assert(self.sessions@ =~= with_windows(before));
            crate::state::moves::lemma_kept_positions_order(flags, true);
            crate::state::lemma_ids_at_positions(before, self.sessions@, kept_positions(flags, true), self.next_session_id);
        }
    }

    /// Take the window `wid` out of every link set that shows it (see
    /// [`window_stripped`]), returning the ids of the sessions that showed it.
    fn strip_window(&mut self, wid: u32) -> (affected: Vec<u32>)
        requires
            old(self).wf(),
        ensures
            final(self).wf(),
            old(self).same_but_sessions(final(self)),
            window_stripped(*old(self), final(self).session_list(), wid),
            affected@ == sessions_showing(old(self).session_list(), wid),
    {
        let ghost s0 = *self;
        let ghost all = self.sessions@;
        let mut affected: Vec<u32> = Vec::new();
        let mut sets: Vec<u32> = Vec::new();
        let mut i: usize = 0;
        while i < self.sessions.len()
            invariant
                i <= all.len(),
                all == self.sessions@,
                affected@ == sessions_showing(all.take(i as int), wid),
                sets@.no_duplicates(),
                forall|x: u32| sets@.contains(x) <==> set_shows(all.take(i as int), x, wid),
            decreases self.sessions.len() - i,
        {
            let ghost prefix = all.take(i as int);
            let ghost next = all.take(i + 1);
            proof {
                assert(next.drop_last() =~= prefix);
                assert(showing(next, wid).drop_last() =~= showing(prefix, wid));
                lemma_matching_positions(showing(prefix, wid), true);
            }
            if session_shows(&self.sessions[i], wid) {
                let set = self.sessions[i].link_set_id;
                affected.push(self.sessions[i].id);
                proof {
                    assert(matching_positions(showing(next, wid), true)
                        == matching_positions(showing(prefix, wid), true).push(i as int));
                    assert(sessions_showing(next, wid) =~= sessions_showing(prefix, wid).push(all[i as int].id));
                }
                let mut k: usize = 0;
                let mut found = false;
                while k < sets.len()
                    invariant
                        k <= sets@.len(),
                        found <==> sets@.take(k as int).contains(set),
                    decreases sets.len() - k,
                {
                    proof {
                        assert(sets@.take(k + 1) =~= sets@.take(k as int).push(sets@[k as int]));
                        lemma_push_contains(sets@.take(k as int), sets@[k as int], set);
                    }
                    if sets[k] == set {
                        found = true;
                    }
                    k += 1;
                }
                proof {
                    assert(sets@.take(k as int) =~= sets@);
                }
                let ghost old_sets = sets@;
                if !found {
                    sets.push(set);
                    proof {
                        assert forall|x: u32| sets@.contains(x) <==> (old_sets.contains(x) || x == set) by {
                            lemma_push_contains(old_sets, set, x);
                        }
                    }
                }
                proof {
                    assert forall|x: u32| sets@.contains(x) <==> set_shows(next, x, wid) by {
                        if set_shows(prefix, x, wid) {
                            let j = choose|j: int| 0 <= j < prefix.len() && #[trigger] prefix[j].link_set_id == x && shows(prefix[j], wid);
                            assert(next[j] == prefix[j]);
                        }
                        if set_shows(next, x, wid) && x != set {
                            let j = choose|j: int| 0 <= j < next.len() && #[trigger] next[j].link_set_id == x && shows(next[j], wid);
                            if j < i {
                                assert(prefix[j] == next[j]);
                            }
                        }
                        assert(next[i as int] == all[i as int]);
                        assert(shows(next[i as int], wid));
                        if x == set {
                            assert(next[i as int].link_set_id == set);
                        }
                        assert(sets@.contains(x) <==> (old_sets.contains(x) || x == set));
                    }
                }
            } else {
                proof {
                    assert(matching_positions(showing(next, wid), true)
                        == matching_positions(showing(prefix, wid), true));
                    assert(sessions_showing(next, wid) =~= sessions_showing(prefix, wid));
                    assert forall|x: u32| sets@.contains(x) <==> set_shows(next, x, wid) by {
                        if set_shows(prefix, x, wid) {
                            let j = choose|j: int| 0 <= j < prefix.len() && #[trigger] prefix[j].link_set_id == x && shows(prefix[j], wid);
                            assert(next[j] == prefix[j]);
                        }
                        if set_shows(next, x, wid) {
                            let j = choose|j: int| 0 <= j < next.len() && #[trigger] next[j].link_set_id == x && shows(next[j], wid);
                            assert(prefix[j] == next[j]);
                        }
                    }
                }
            }
            i += 1;
        }
        proof {
            assert(all.take(i as int) =~= all);
        }
        let mut k: usize = 0;
        while k < sets.len()
            invariant
                k <= sets@.len(),
                sets@.no_duplicates(),
                forall|x: u32| sets@.contains(x) <==> set_shows(all, x, wid),
                all == s0.sessions@,
                self.wf(),
                s0.same_but_sessions(self),
                self.sessions@.len() == all.len(),
                link_set_ids(self.sessions@) == link_set_ids(all),
                forall|j: int| 0 <= j < all.len() ==> {
                    let b = #[trigger] all[j];
                    let a = self.sessions@[j];
                    if sets@.take(k as int).contains(b.link_set_id) {
                        let m = link_set_ids(all).index_of_first(b.link_set_id);
                        let src = all[m->0];
                        if m == Some(j) || (s0.groups().contains_key(b.link_set_id) && group_member(b, src)) {
                            reselected(b, a) && selection(a) == installed(b, without_window(src.windows@, wid))
                        } else {
                            a == b
                        }
                    } else {
                        a == b
                    }
                },
            decreases sets.len() - k,
        {
            let set = sets[k];
            proof {
                assert(sets@.contains(set));
                let j = choose|j: int| 0 <= j < all.len() && #[trigger] all[j].link_set_id == set && shows(all[j], wid);
                assert(link_set_ids(all)[j] == set);
                link_set_ids(all).index_of_first_ensures(set);
            }
            let m = match self.first_in_link_set(set) {
                Some(m) => m,
                None => {
                    proof {
                        let j = choose|j: int| 0 <= j < all.len() && #[trigger] all[j].link_set_id == set && shows(all[j], wid);
                        assert(link_set_ids(self.sessions@)[j] == set);
                        assert(false);
                    }
                    return affected;
                },
            };
            proof {
                link_set_ids(all).index_of_first_ensures(set);
                assert(!sets@.take(k as int).contains(set)) by {
                    if sets@.take(k as int).contains(set) {
                        let t = choose|t: int| 0 <= t < k && sets@.take(k as int)[t] == set;
                        assert(sets@[t] == sets@[k as int]);
                    }
                }
                assert(all[m as int].link_set_id == set);
                assert(self.sessions@[m as int] == all[m as int]);
            }
            let links = links_without(&self.sessions[m].windows, wid);
            let ghost cur = *self;
            self.replace_link_set(m, links);
            proof {
                s0.lemma_same_groups(&cur);
                assert(s0.same_but_sessions(self));
                assert(sets@.take(k + 1) =~= sets@.take(k as int).push(set));
                assert forall|j: int| 0 <= j < all.len() implies
                    #[trigger] link_set_ids(self.sessions@)[j] == link_set_ids(all)[j] by {
                    assert(cur.session_list()[j].link_set_id == self.session_list()[j].link_set_id);
                }
                assert(link_set_ids(self.sessions@) =~= link_set_ids(all));
                assert forall|j: int| 0 <= j < all.len() implies {
                    let b = #[trigger] all[j];
                    let a = self.sessions@[j];
                    if sets@.take(k + 1).contains(b.link_set_id) {
                        let m2 = link_set_ids(all).index_of_first(b.link_set_id);
                        let src = all[m2->0];
                        if m2 == Some(j) || (s0.groups().contains_key(b.link_set_id) && group_member(b, src)) {
                            reselected(b, a) && selection(a) == installed(b, without_window(src.windows@, wid))
                        } else {
                            a == b
                        }
                    } else {
                        a == b
                    }
                } by {
                    let b = all[j];
                    assert(cur.session_list()[j] == cur.sessions@[j]);
                    assert(self.session_list()[j] == self.sessions@[j]);
                    assert(link_set_ids(all)[j] == b.link_set_id);
                    lemma_push_contains(sets@.take(k as int), set, b.link_set_id);
                    if b.link_set_id == set {
                        assert(!sets@.take(k as int).contains(b.link_set_id));
                        assert(cur.sessions@[j] == b);
                        assert(link_set_ids(all).index_of_first(b.link_set_id) == Some(m as int));
                        assert(cur.session_list()[m as int] == all[m as int]);
                    } else {
                        assert(j != m);
                        assert(cur.session_list()[m as int].link_set_id == set);
                    }
                }
            }
            k += 1;
        }
        proof {
            assert(sets@.take(k as int) =~= sets@);
        }
        affected
    }

    /// Number again from `base` the windows of the first session, in the
    /// order of `ids`, of each link set among the sessions `ids`, owing each
    /// a status redraw.
    #[verifier::spinoff_prover]
    fn renumber_first_of_sets(&mut self, ids: &Vec<u32>, base: u32)
        requires
            old(self).wf(),
            forall|j: int| 0 <= j < old(self).session_list().len()
                ==> base + (#[trigger] old(self).session_list()[j]).windows@.len() <= u32::MAX + 1,
        ensures
            final(self).wf(),
            (ServerState { sessions: final(self).sessions, render_requests: final(self).render_requests, ..*old(self) }) == *final(self),
            renumbered_at(old(self).session_list(), final(self).session_list(),
                renumber_targets(ids@, old(self).session_list(), Set::empty()), base),
            final(self).render_request_list() == old(self).render_request_list() + status_requests(
                renumber_targets(ids@, old(self).session_list(), Set::empty()), old(self).session_list()),
    {
        let ghost all = self.sessions@;
        let ghost mut done: Seq<int> = Seq::empty();
        let mut seen: Vec<u32> = Vec::new();
        let mut k: usize = 0;
        proof {
            assert(ids@.skip(0) =~= ids@);
            assert(seen@.to_set() =~= Set::<u32>::empty());
            assert forall|j: int| 0 <= j < all.len() implies base + (#[trigger] all[j]).windows@.len() <= u32::MAX + 1 by {
                assert(old(self).session_list()[j] == all[j]);
            }
        }
        while k < ids.len()
            invariant
                k <= ids@.len(),
                all == old(self).sessions@,
                self.wf(),
                (ServerState { sessions: self.sessions, render_requests: self.render_requests, ..*old(self) }) == *self,
                forall|j: int| 0 <= j < all.len() ==> base + (#[trigger] all[j]).windows@.len() <= u32::MAX + 1,
                renumber_targets(ids@, all, Set::empty()) == done + renumber_targets(ids@.skip(k as int), all, seen@.to_set()),
                session_ids(self.sessions@) == session_ids(all),
                link_set_ids(self.sessions@) == link_set_ids(all),
                forall|t: int| 0 <= t < done.len() ==> 0 <= #[trigger] done[t] < all.len() && seen@.contains(all[done[t]].link_set_id),
                renumbered_at(all, self.sessions@, done, base),
                self.render_requests@ == old(self).render_requests@ + status_requests(done, all),
            decreases ids.len() - k,
        {
            let id = ids[k];
            let ghost rest = ids@.skip(k as int);
            proof {
                assert(rest[0] == id);
                assert(rest.drop_first() =~= ids@.skip(k + 1));
            }
            match position_of_id(&self.sessions, id) {
                None => {},
                Some(p) => {
                    proof {
                        session_ids(self.sessions@).index_of_first_ensures(id);
                        assert(session_ids(all).index_of_first(id) == Some(p as int));
                        assert(link_set_ids(self.sessions@)[p as int] == link_set_ids(all)[p as int]);
                    }
                    let set = self.sessions[p].link_set_id;
                    let mut t: usize = 0;
                    let mut found = false;
                    while t < seen.len()
                        invariant
                            t <= seen@.len(),
                            found <==> seen@.take(t as int).contains(set),
                        decreases seen.len() - t,
                    {
                        proof {
                            assert(seen@.take(t + 1) =~= seen@.take(t as int).push(seen@[t as int]));
                            lemma_push_contains(seen@.take(t as int), seen@[t as int], set);
                        }
                        if seen[t] == set {
                            found = true;
                        }
                        t += 1;
                    }
                    proof {
                        assert(seen@.take(t as int) =~= seen@);
                        assert(all[p as int].link_set_id == set);
                    }
                    if !found {
                        proof {
                            assert(!done.contains(p as int)) by {
                                if done.contains(p as int) {
                                    let u = choose|u: int| 0 <= u < done.len() && done[u] == p as int;
                                    assert(seen@.contains(all[done[u]].link_set_id));
                                }
                            }
                            assert(self.sessions@[p as int] == all[p as int]);
                            assert(session_wf(self.sessions@[p as int]));
                        }
                        let ghost before = *self;
                        let mut s = self.take_session(p);
                        renumber_links(&mut s, base);
                        self.sessions.insert(p, s);
                        proof {
                            self.lemma_replaced_session_wf(before.sessions@, p as int);
                        }
                        self.invalidate_session(id, RenderInvalidation::status());
                        let ghost old_seen = seen@;
                        seen.push(set);
                        proof {
                            let nd = done.push(p as int);
                            assert(seen@.to_set() =~= old_seen.to_set().insert(set)) by {
                                assert forall|x: u32| seen@.contains(x) <==> (old_seen.contains(x) || x == set) by {
                                    lemma_push_contains(old_seen, set, x);
                                }
                            }
                            assert(renumber_targets(rest, all, old_seen.to_set())
                                == seq![p as int] + renumber_targets(ids@.skip(k + 1), all, seen@.to_set()));
                            assert(done + (seq![p as int] + renumber_targets(ids@.skip(k + 1), all, seen@.to_set()))
                                =~= nd + renumber_targets(ids@.skip(k + 1), all, seen@.to_set()));
                            assert forall|u: int| 0 <= u < nd.len() implies 0 <= #[trigger] nd[u] < all.len()
                                && seen@.contains(all[nd[u]].link_set_id) by {
                                lemma_push_contains(old_seen, set, all[nd[u]].link_set_id);
                            }
                            assert forall|i: int| 0 <= i < all.len() implies if nd.contains(i) {
                                reselected(all[i], #[trigger] self.sessions@[i]) && selection(self.sessions@[i]) == renumbered_selection(all[i], base)
                            } else {
                                self.sessions@[i] == all[i]
                            } by {
                                lemma_push_contains(done, p as int, i);
                                if i != p {
                                    assert(self.sessions@[i] == before.sessions@[i]);
                                }
                            }
                            assert(session_ids(self.sessions@) =~= session_ids(all)) by {
                                assert forall|i: int| 0 <= i < all.len() implies #[trigger] session_ids(self.sessions@)[i] == session_ids(all)[i] by {
                                    lemma_push_contains(done, p as int, i);
                                    assert(session_ids(before.sessions@)[i] == session_ids(all)[i]);
                                }
                            }
                            assert(link_set_ids(self.sessions@) =~= link_set_ids(all)) by {
                                assert forall|i: int| 0 <= i < all.len() implies #[trigger] link_set_ids(self.sessions@)[i] == link_set_ids(all)[i] by {
                                    lemma_push_contains(done, p as int, i);
                                    assert(link_set_ids(before.sessions@)[i] == link_set_ids(all)[i]);
                                }
                            }
                            assert(status_requests(nd, all) =~= status_requests(done, all).push(RenderRequest {
                                session_id: Some(id), reason: RenderInvalidation(1) }));
                            done = nd;
                        }
                    }
                },
            }
            k += 1;
        }
        proof {
            assert(ids@.skip(k as int) =~= Seq::<u32>::empty());
            assert(done + renumber_targets(ids@.skip(k as int), all, seen@.to_set()) =~= done);
        }
    }

    /// `kill-window` on a resolved place: destroy the window at `target`
    /// everywhere it is linked (see [`Self::destroy_window_id`]).
    pub fn kill_window(&mut self, target: Target, renumber: bool, base: u32, exit_empty: bool, window_name: Option<&str>)
        requires
            old(self).wf(),
            target.session < old(self).session_list().len(),
            target.window < old(self).session_list()[target.session as int].windows@.len(),
            renumber ==> forall|j: int| 0 <= j < old(self).session_list().len()
                ==> base + (#[trigger] old(self).session_list()[j]).windows@.len() <= u32::MAX + 1,
        ensures
            final(self).wf(),
            window_destroyed(*old(self), *final(self),
                old(self).session_list()[target.session as int].windows@[target.window as int].id,
                renumber, base, exit_empty, match window_name { Some(n) => Some(n@), None => None }),
    {
        let window_id = self.sessions[target.session].windows[target.window].id;
        self.destroy_window_id(window_id, renumber, base, exit_empty, window_name);
    }

    /// `kill-window -a` on a resolved place: destroy every other window the
    /// session at `target` shows, and the target's window too when the
    /// session shows it more than once, in rising order of window id (see
    /// [`others_destroyed`]); `names` gives the windows' names.
    #[verifier::spinoff_prover]
    #[verifier::rlimit(40)]
    pub fn kill_other_windows(&mut self, target: Target, renumber: bool, base: u32, exit_empty: bool, names: &Vec<(u32, String)>)
        requires
            old(self).wf(),
            target.session < old(self).session_list().len(),
            target.window < old(self).session_list()[target.session as int].windows@.len(),
            renumber ==> forall|j: int| 0 <= j < old(self).session_list().len()
                ==> base + (#[trigger] old(self).session_list()[j]).windows@.len() <= u32::MAX + 1,
        ensures
            final(self).wf(),
            others_destroyed(*old(self), *final(self), target, renumber, base, exit_empty, names@),
    {
        let ghost links = self.sessions@[target.session as int].windows@;
        proof {
            assert(self.session_list()[target.session as int] == self.sessions@[target.session as int]);
        }
        let keep = self.sessions[target.session].windows[target.window].id;
        let mut ids: Vec<u32> = Vec::new();
        let mut keep_seen: usize = 0;
        let mut i: usize = 0;
        while i < self.sessions[target.session].windows.len()
            invariant
                i <= links.len(),
                links == self.sessions@[target.session as int].windows@,
                target.session < self.sessions@.len(),
                rising(ids@),
                forall|y: u32| ids@.to_set().contains(y) <==> exists|j: int| 0 <= j < i && links[j].id == y && y != keep,
                keep_seen <= 2,
                keep_seen == 0 <==> forall|j: int| 0 <= j < i ==> links[j].id != keep,
                keep_seen == 2 <==> exists|a: int, b: int| 0 <= a < b < i && links[a].id == keep && links[b].id == keep,
            decreases links.len() - i,
        {
            let id = self.sessions[target.session].windows[i].id;
            if id != keep {
                let ghost before = ids@;
                insert_rising(&mut ids, id);
                proof {
                    assert forall|y: u32| ids@.to_set().contains(y) <==> exists|j: int| 0 <= j < i + 1 && links[j].id == y && y != keep by {
                        if y == id {
                            assert(links[i as int].id == y);
                        }
                        if exists|j: int| 0 <= j < i + 1 && links[j].id == y && y != keep {
                            let j = choose|j: int| 0 <= j < i + 1 && links[j].id == y && y != keep;
                            if j < i {
                                assert(before.to_set().contains(y));
                            }
                        }
                    }
                }
            } else {
                proof {
                    if keep_seen == 1 {
                        let a = choose|a: int| 0 <= a < i && links[a].id == keep;
                        assert(links[i as int].id == keep);
                        assert(0 <= a < i as int && links[a].id == keep && links[i as int].id == keep);
                    }
                    assert forall|y: u32| ids@.to_set().contains(y) <==> exists|j: int| 0 <= j < i + 1 && links[j].id == y && y != keep by {
                        if exists|j: int| 0 <= j < i + 1 && links[j].id == y && y != keep {
                            let j = choose|j: int| 0 <= j < i + 1 && links[j].id == y && y != keep;
                            assert(j < i);
                        }
                    }
                }
                if keep_seen < 2 {
                    keep_seen = keep_seen + 1;
                }
            }
            i += 1;
        }
        if keep_seen == 2 {
            insert_rising(&mut ids, keep);
        }
        proof {
            assert forall|y: u32| ids@.to_set().contains(y) <==> others_of(links, keep).contains(y) by {
                if window_ids(links).contains(y) {
                    let j = choose|j: int| 0 <= j < window_ids(links).len() && window_ids(links)[j] == y;
                    assert(links[j].id == y);
                }
                if exists|j: int| 0 <= j < links.len() && links[j].id == y && y != keep {
                    let j = choose|j: int| 0 <= j < links.len() && links[j].id == y && y != keep;
                    assert(window_ids(links)[j] == y);
                }
            }
            assert(ids@.to_set() =~= others_of(links, keep));
        }
        let ghost start = *self;
        let ghost mut states: Seq<ServerState> = seq![*self];
        proof {
            if renumber {
                assert forall|j: int| 0 <= j < self.session_list().len()
                    implies (#[trigger] self.session_list()[j]).windows@.len() <= u32::MAX + 1 - base by {}
            }
        }
        let mut k: usize = 0;
        while k < ids.len()
            invariant
                k <= ids@.len(),
                self.wf(),
                states.len() == k + 1,
                states[0] == start,
                states[k as int] == *self,
                renumber ==> windows_within(self.session_list(), u32::MAX + 1 - base),
                forall|t: int| 0 <= t < k ==> window_destroyed(#[trigger] states[t], states[t + 1], ids@[t],
                    renumber, base, exit_empty, name_for(names@, ids@[t])),
            decreases ids.len() - k,
        {
            let id = ids[k];
            let name = name_of(names, id);
            proof {
                if renumber {
                    assert forall|j: int| 0 <= j < self.session_list().len()
                        implies base + (#[trigger] self.session_list()[j]).windows@.len() <= u32::MAX + 1 by {
                        assert(windows_within(self.session_list(), u32::MAX + 1 - base));
                    }
                }
            }
            let ghost prev = states;
            self.destroy_window_id(id, renumber, base, exit_empty, name);
            proof {
                assert(match name { Some(n) => Some(n@), None => None::<Seq<char>> } == name_for(names@, id));
                states = states.push(*self);
                assert forall|t: int| 0 <= t < k + 1 implies window_destroyed(#[trigger] states[t], states[t + 1], ids@[t],
                    renumber, base, exit_empty, name_for(names@, ids@[t])) by {
                    assert(states[t] == prev[t]);
                    if t < k {
                        assert(states[t + 1] == prev[t + 1]);
                    }
                }
            }
            k += 1;
        }
        proof {
            assert(states[ids@.len() as int] == *self);
        }
    }

    /// Destroy the window `wid` everywhere it is linked: take it out of
    /// every link set that shows it (see [`window_stripped`]), raise
    /// `window-unlinked` (the window called `window_name` when known) for
    /// each session that showed it, close the sessions left without
    /// windows, forget the groups without sessions, with `renumber` (the
    /// `renumber-windows` option) number again from `base` the first such
    /// session of each link set, stop a server left empty when
    /// `exit_empty`, and owe each session that showed it a layout and
    /// status redraw, or a `session gone` one when it closed.
    #[verifier::spinoff_prover]
    #[verifier::rlimit(60)]
    pub fn destroy_window_id(&mut self, wid: u32, renumber: bool, base: u32, exit_empty: bool, window_name: Option<&str>)
        requires
            old(self).wf(),
            renumber ==> forall|j: int| 0 <= j < old(self).session_list().len()
                ==> base + (#[trigger] old(self).session_list()[j]).windows@.len() <= u32::MAX + 1,
        ensures
            final(self).wf(),
            window_destroyed(*old(self), *final(self), wid, renumber, base, exit_empty,
                match window_name { Some(n) => Some(n@), None => None }),
            forall|limit: int| windows_within(old(self).session_list(), limit)
                ==> #[trigger] windows_within(final(self).session_list(), limit),
    {
        let had_sessions = self.sessions.len() > 0;
        let ghost s0 = *self;
        let ghost wn = match window_name { Some(n) => Some(n@), None => None };
        let affected = self.strip_window(wid);
        let ghost stripped = *self;
        proof {
            s0.lemma_same_groups(&stripped);
        }
        let mut k: usize = 0;
        proof {
            let n = stripped.notifications().len();
            assert(self.notifications().take(n as int) =~= self.notifications());
            assert(self.notifications().skip(n as int) =~= Seq::<Notification>::empty());
        }
        while k < affected.len()
            invariant
                k <= affected@.len(),
                self.wf(),
                self.session_list() == stripped.session_list(),
                wn == match window_name { Some(n) => Some(n@), None => None },
                stripped.same_but_notifications(self),
                unlinked_noted(stripped.notifications(), self.notifications(), affected@.take(k as int),
                    stripped.session_list(), wid, wn, stripped.deferring()),
            decreases affected.len() - k,
        {
            let ghost prev = *self;
            self.notify_session_window("window-unlinked", affected[k], wid, window_name);
            proof {
                let n = stripped.notifications().len();
                assert(affected@.take(k + 1) =~= affected@.take(k as int).push(affected@[k as int]));
                assert(self.notifications().take(n as int) =~= prev.notifications().take(n as int));
                assert(self.notifications().skip(n as int) =~= prev.notifications().skip(n as int).push(self.notifications().last()));
                assert(prev.deferring() == stripped.deferring());
                let ids = affected@.take(k + 1);
                let added = self.notifications().skip(n as int);
                let before_added = prev.notifications().skip(n as int);
                assert forall|j: int| 0 <= j < ids.len() implies is_window_notification(#[trigger] added[j],
                    "window-unlinked"@, stripped.session_list(), ids[j], wid, wn, stripped.deferring()) by {
                    if j < k {
                        assert(added[j] == before_added[j]);
                        assert(ids[j] == affected@.take(k as int)[j]);
                    } else {
                        assert(added[j] == self.notifications().last());
                        assert(ids[j] == affected@[k as int]);
                    }
                }
            }
            k += 1;
        }
        proof {
            assert(affected@.take(k as int) =~= affected@);
        }
        let ghost noted = *self;
        self.remove_windowless_sessions();
        let ghost kept = *self;
        proof {
            kept.lemma_groups_held();
            noted.lemma_groups_held();
            stripped.lemma_groups_held();
            s0.lemma_groups_held();
        }
        self.prune_groups();
        let ghost pruned = *self;
        proof {
            let ks = kept.session_list();
            let st = stripped.session_list();
            lemma_kept_positions(windowless(st), true);
            assert forall|limit: int| windows_within(s0.session_list(), limit)
                implies #[trigger] windows_within(pruned.session_list(), limit) by {
                assert forall|j: int| 0 <= j < pruned.session_list().len()
                    implies (#[trigger] pruned.session_list()[j]).windows@.len() <= limit by {
                    let q = kept_positions(windowless(st), true)[j];
                    assert(pruned.session_list()[j] == st[q]);
                    let b = s0.session_list()[q];
                    if set_shows(s0.session_list(), b.link_set_id, wid) {
                        let m = link_set_ids(s0.session_list()).index_of_first(b.link_set_id);
                        link_set_ids(s0.session_list()).index_of_first_ensures(b.link_set_id);
                        assert(link_set_ids(s0.session_list())[q] == b.link_set_id);
                        let src = s0.session_list()[m->0];
                        src.windows@.lemma_filter_len(other_than(wid));
                        assert(src.windows@.len() <= limit);
                    }
                }
            }
            if renumber {
                assert(windows_within(s0.session_list(), u32::MAX + 1 - base));
                assert(windows_within(pruned.session_list(), u32::MAX + 1 - base));
                assert forall|j: int| 0 <= j < pruned.session_list().len()
                    implies base + (#[trigger] pruned.session_list()[j]).windows@.len() <= u32::MAX + 1 by {
                }
            }
        }
        if renumber {
            self.renumber_first_of_sets(&affected, base);
        }
        let ghost renumbered = *self;
        self.request_shutdown_if_became_empty(had_sessions, exit_empty);
        let ghost stopped = *self;
        let mut k: usize = 0;
        while k < affected.len()
            invariant
                k <= affected@.len(),
                self.wf(),
                stopped.same_but_requests(self),
                self.render_request_list() == stopped.render_request_list()
                    + affected_requests(affected@.take(k as int), stopped.session_list()),
            decreases affected.len() - k,
        {
            let id = affected[k];
            proof {
                session_ids(self.sessions@).index_of_first_ensures(id);
            }
            match position_of_id(&self.sessions, id) {
                Some(_) => {
                    assert(2u8 | 1u8 == 3u8) by (bit_vector);
                    self.invalidate_session(id, RenderInvalidation::layout().bitor(RenderInvalidation::status()));
                },
                None => self.invalidate_session(id, RenderInvalidation::session_gone()),
            }
            proof {
                assert(affected_requests(affected@.take(k + 1), stopped.session_list()) =~= affected_requests(
                    affected@.take(k as int), stopped.session_list()).push(RenderRequest {
                    session_id: Some(id),
                    reason: RenderInvalidation(if session_ids(stopped.session_list()).contains(id) { 3u8 } else { 4u8 }),
                }));
            }
            k += 1;
        }
        proof {
            assert(affected@.take(k as int) =~= affected@);
            let st = stripped.session_list();
            let ks = with_windows(st);
            assert(kept.session_list() == ks);
            let targets = if renumber { renumber_targets(affected@, ks, Set::empty()) } else { Seq::empty() };
            if !renumber {
                assert(renumbered_at(ks, self.session_list(), targets, base));
                assert(status_requests(targets, ks) =~= Seq::<RenderRequest>::empty());
                assert(renumbered.render_request_list() == pruned.render_request_list());
            }
            assert(self.session_list() == renumbered.session_list());
            assert(self.notifications() == noted.notifications());
            assert(self.render_request_list() == s0.render_request_list() + status_requests(targets, ks)
                + affected_requests(affected@, self.session_list()));
            assert(self.session_groups == pruned.session_groups);
            let la = self.session_list();
            assert(la.len() == ks.len());
            assert forall|j: int| 0 <= j < la.len() implies #[trigger] la[j].link_set_id == ks[j].link_set_id by {
                assert(renumbered_at(ks, la, targets, base));
                if targets.contains(j) {
                    assert(reselected(ks[j], la[j]));
                } else {
                    assert(la[j] == ks[j]);
                }
            }
            assert forall|x: u32| live_link_sets(la).contains(x) implies live_link_sets(ks).contains(x) by {
                let j = choose|j: int| 0 <= j < la.len() && #[trigger] la[j].link_set_id == x;
                assert(ks[j].link_set_id == x);
            }
            assert forall|x: u32| live_link_sets(ks).contains(x) implies live_link_sets(la).contains(x) by {
                let j = choose|j: int| 0 <= j < ks.len() && #[trigger] ks[j].link_set_id == x;
                assert(la[j].link_set_id == x);
            }
            assert(live_link_sets(la) =~= live_link_sets(ks));
            self.lemma_groups_held();
            pruned.lemma_groups_held();
            assert(self.groups() == s0.groups().restrict(live_link_sets(la)));
            assert(window_stripped(s0, st, wid));
            assert forall|limit: int| windows_within(s0.session_list(), limit)
                implies #[trigger] windows_within(self.session_list(), limit) by {
                assert(windows_within(ks, limit));
                assert forall|j: int| 0 <= j < la.len() implies (#[trigger] la[j]).windows@.len() <= limit by {
                    assert(renumbered_at(ks, la, targets, base));
                    if targets.contains(j) {
                        assert(selection(la[j]) == renumbered_selection(ks[j], base));
                        assert(ks[j].windows@.len() <= limit);
                    } else {
                        assert(la[j] == ks[j]);
                    }
                }
            }
        }
    }
}

} // verus!
