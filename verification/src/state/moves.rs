use vstd::prelude::*;
use crate::render::RenderInvalidation;
use crate::session::{Session, Target, Winlink};
use crate::state::{
    RenderRequest, ServerState, StateError, fails_invalid, fails_refused, is_already_exists, position_of_id, session_ids, session_wf, sessions_wf,
};
use crate::state::windows::copy_links;
use crate::text::{decimal, push_decimal, push_text};
use crate::state::windows::group_member;
use crate::winlinks::{
    drop_index, first_free_at, first_free_index, index_selected, installed, relocate, relocated, shuffle, shuffled, lemma_sorted_by_index_contains, lemma_without_index_keeps, link_ids,
    link_indices, moved_in, moved_within, placed_by_position, position_of_index, position_of_link, reselected,
    select_window_index, select_window_position, selected, selection, sort_by_index, sorted_by_index, took_links,
};

verus! {

/// `links` with the link at position `i` pointing at the window `id`; the
/// link keeps its index and identity.
pub open spec fn relinked(links: Seq<Winlink>, i: int, id: u32) -> Seq<Winlink> {
    links.update(i, Winlink { id, ..links[i] })
}

/// The link of `links` at `i` pointing at the window `id`.
fn relink(links: &mut Vec<Winlink>, i: usize, id: u32)
    requires
        i < old(links)@.len(),
    ensures
        final(links)@ == relinked(old(links)@, i as int, id),
{
    let mut link = links[i];
    link.id = id;
    links.set(i, link);
}

/// `now` is `before` after the group of `source` took the links `links`:
/// changed only when `before` is another member of that group and the group
/// exists.
pub open spec fn follows_group(before: Session, now: Session, source: Session, grouped: bool, links: Seq<Winlink>) -> bool {
    if grouped && group_member(before, source) {
        reselected(before, now) && selection(now) == installed(before, links)
    } else {
        now == before
    }
}

/// The link sets of `sessions`, in order.
pub open spec fn link_set_ids(sessions: Seq<Session>) -> Seq<u32> {
    sessions.map_values(|s: Session| s.link_set_id)
}

/// The positions of `ids` that hold `x`, in order.
pub open spec fn matching_positions<T>(ids: Seq<T>, x: T) -> Seq<int>
    decreases ids.len(),
{
    if ids.len() == 0 {
        Seq::empty()
    } else {
        let rest = matching_positions(ids.drop_last(), x);
        if ids.last() == x { rest.push(ids.len() - 1) } else { rest }
    }
}

pub proof fn lemma_matching_positions<T>(ids: Seq<T>, x: T)
    ensures
        matching_positions(ids, x).len() <= ids.len(),
        forall|j: int| 0 <= j < matching_positions(ids, x).len() ==> {
            let p = #[trigger] matching_positions(ids, x)[j];
            0 <= p < ids.len() && ids[p] == x
        },
    decreases ids.len(),
{
    if ids.len() > 0 {
        lemma_matching_positions(ids.drop_last(), x);
    }
}

/// The link sets some of `sessions` use.
pub open spec fn live_link_sets(sessions: Seq<Session>) -> Set<u32> {
    Set::new(|k: u32| exists|j: int| 0 <= j < sessions.len() && #[trigger] sessions[j].link_set_id == k)
}

/// The positions of `ids` that do not hold `set`, in order.
pub open spec fn kept_positions<T>(ids: Seq<T>, set: T) -> Seq<int>
    decreases ids.len(),
{
    if ids.len() == 0 {
        Seq::empty()
    } else {
        let rest = kept_positions(ids.drop_last(), set);
        if ids.last() == set { rest } else { rest.push(ids.len() - 1) }
    }
}

pub proof fn lemma_kept_positions<T>(ids: Seq<T>, set: T)
    ensures
        kept_positions(ids, set).len() <= ids.len(),
        forall|j: int| 0 <= j < kept_positions(ids, set).len() ==> {
            let p = #[trigger] kept_positions(ids, set)[j];
            0 <= p < ids.len() && ids[p] != set
        },
    decreases ids.len(),
{
    if ids.len() > 0 {
        lemma_kept_positions(ids.drop_last(), set);
    }
}

/// The link sets the first `n` of `sessions` use.
pub open spec fn prefix_link_sets(sessions: Seq<Session>, n: usize) -> Set<u32> {
    live_link_sets(sessions.take(n as int))
}

proof fn lemma_prefix_link_sets_empty(sessions: Seq<Session>)
    ensures
        prefix_link_sets(sessions, 0) == Set::<u32>::empty(),
{
    assert(prefix_link_sets(sessions, 0) =~= Set::<u32>::empty());
}

proof fn lemma_prefix_link_sets_step(sessions: Seq<Session>, n: usize)
    requires
        n < sessions.len(),
        n < usize::MAX,
    ensures
        prefix_link_sets(sessions, (n + 1) as usize) == prefix_link_sets(sessions, n).insert(sessions[n as int].link_set_id),
{
    let t = sessions.take(n as int);
    let t1 = sessions.take(n + 1);
    let k = sessions[n as int].link_set_id;
    assert(t1[n as int] == sessions[n as int]);
    assert forall|x: u32| #[trigger] live_link_sets(t).contains(x) implies live_link_sets(t1).contains(x) by {
        let j = choose|j: int| 0 <= j < t.len() && t[j].link_set_id == x;
        assert(t1[j] == t[j]);
    }
    assert forall|x: u32| #[trigger] live_link_sets(t1).contains(x) && x != k implies live_link_sets(t).contains(x) by {
        let j = choose|j: int| 0 <= j < t1.len() && t1[j].link_set_id == x;
        assert(j < n);
        assert(t[j] == t1[j]);
    }
    assert(live_link_sets(t1).contains(k));
    assert(live_link_sets(t1) =~= live_link_sets(t).insert(k));
}

proof fn lemma_prefix_link_sets_full(sessions: Seq<Session>, n: usize)
    requires
        n == sessions.len(),
    ensures
        prefix_link_sets(sessions, n) == live_link_sets(sessions),
{
    assert(sessions.take(n as int) =~= sessions);
}

pub proof fn lemma_kept_positions_order<T>(ids: Seq<T>, set: T)
    ensures
        forall|a: int, b: int| 0 <= a < b < kept_positions(ids, set).len()
            ==> kept_positions(ids, set)[a] < kept_positions(ids, set)[b],
        forall|p: int| 0 <= p < ids.len() && ids[p] != set
            ==> exists|i: int| 0 <= i < kept_positions(ids, set).len() && kept_positions(ids, set)[i] == p,
    decreases ids.len(),
{
    if ids.len() > 0 {
        let d = ids.drop_last();
        lemma_kept_positions_order(d, set);
        lemma_kept_positions(d, set);
        let rest = kept_positions(d, set);
        let kp = kept_positions(ids, set);
        assert forall|p: int| 0 <= p < ids.len() && ids[p] != set
            implies exists|i: int| 0 <= i < kp.len() && kp[i] == p by {
            if p < ids.len() - 1 {
                assert(d[p] == ids[p]);
                let i = choose|i: int| 0 <= i < rest.len() && rest[i] == p;
                assert(kp[i] == rest[i]);
            } else {
                assert(kp[rest.len() as int] == p);
            }
        }
    }
}

/// The positions holding `x` rise.
pub proof fn lemma_matching_positions_order<T>(ids: Seq<T>, x: T)
    ensures
        forall|a: int, b: int| 0 <= a < b < matching_positions(ids, x).len()
            ==> matching_positions(ids, x)[a] < matching_positions(ids, x)[b],
    decreases ids.len(),
{
    if ids.len() > 0 {
        let d = ids.drop_last();
        lemma_matching_positions_order(d, x);
        lemma_matching_positions(d, x);
    }
}

/// The positions `0..n`.
pub open spec fn all_positions(n: nat) -> Seq<int> {
    Seq::new(n, |i: int| i)
}

/// `now`, at position `j` before, after the window link moved from the
/// session `sa` at `src` (which kept `src_links`) to the session `sb` at
/// `dst` (which took `dst_links` and, with `select`, made the link `id`
/// current); each group followed its member.
pub open spec fn moved_across(
    now: Session,
    before: Session,
    j: int,
    src: int,
    dst: int,
    sa: Session,
    sb: Session,
    grouped_a: bool,
    grouped_b: bool,
    src_links: Seq<Winlink>,
    dst_links: Seq<Winlink>,
    id: u64,
    select: bool,
) -> bool {
    if j == src {
        reselected(before, now) && selection(now) == installed(sa, src_links)
    } else if j == dst {
        reselected(before, now) && selection(now) == took_links(sb, dst_links, id, select)
    } else if grouped_a && group_member(before, sa) {
        reselected(before, now) && selection(now) == installed(before, src_links)
    } else {
        follows_group(before, now, sb, grouped_b, dst_links)
    }
}

/// The sessions `after` a window link at `src` moved to the session at
/// `dst` (`before` being the state before): within one link set its
/// session took the links `within`; across link sets the source kept its
/// other links (its link set closing when none were left) and the
/// destination took `into`. With `select` the moved link became current at
/// the destination. Groups followed their member, groups without sessions
/// were forgotten, and the sessions' clients are owed a redraw.
pub open spec fn moved_outcome(before: ServerState, after: ServerState, src: Target, dst: usize, within: Seq<Winlink>, into: Seq<Winlink>, select: bool) -> bool {
    let sa = before.session_list()[src.session as int];
    let sb = before.session_list()[dst as int];
    let l = sa.windows@[src.window as int];
    let ga = before.groups().contains_key(sa.link_set_id);
    let gb = before.groups().contains_key(sb.link_set_id);
    &&& after.groups() == before.groups().restrict(live_link_sets(after.session_list()))
    &&& after.notifications() == before.notifications()
    &&& (sa.link_set_id == sb.link_set_id ==> {
        let now = after.session_list()[src.session as int];
        &&& after.session_list().len() == before.session_list().len()
        &&& reselected(sa, now)
        &&& selection(now) == took_links(sa, within, l.link_id, select)
        &&& forall|j: int| 0 <= j < before.session_list().len() && j != src.session ==>
            follows_group(#[trigger] before.session_list()[j], after.session_list()[j], sa, ga, within)
        &&& after.render_request_list() == before.render_request_list().push(
            RenderRequest { session_id: Some(sa.id), reason: RenderInvalidation(3) })
    })
    &&& (sa.link_set_id != sb.link_set_id ==> {
        let p = link_ids(sa.windows@).index_of_first(l.link_id)->0;
        let src_links = sa.windows@.remove(p);
        let kept = if src_links.len() == 0 {
            kept_positions(link_set_ids(before.session_list()), sa.link_set_id)
        } else {
            all_positions(before.session_list().len())
        };
        let first = RenderRequest {
            session_id: Some(sa.id),
            reason: if session_ids(after.session_list()).contains(sa.id) {
                RenderInvalidation(3)
            } else {
                RenderInvalidation(4)
            },
        };
        &&& after.session_list().len() == kept.len()
        &&& forall|i: int| 0 <= i < kept.len() ==> moved_across(#[trigger] after.session_list()[i],
            before.session_list()[kept[i]], kept[i], src.session as int, dst as int, sa, sb, ga, gb,
            src_links, into, l.link_id, select)
        &&& after.render_request_list() == if sb.id != sa.id {
            before.render_request_list().push(first).push(
                RenderRequest { session_id: Some(sb.id), reason: RenderInvalidation(3) })
        } else {
            before.render_request_list().push(first)
        }
    })
}

/// `after` is `before` after `move-window` of the window at `src` to the
/// index `new_index` of the session at `dst`; see
/// [`ServerState::move_window`].
pub open spec fn window_moved(before: ServerState, after: ServerState, src: Target, dst: usize, new_index: u32, replace: bool, select: bool, result: Result<(), StateError>) -> bool {
    let sa = before.session_list()[src.session as int];
    let sb = before.session_list()[dst as int];
    let l = sa.windows@[src.window as int];
    let occupied = link_indices(sb.windows@).index_of_first(new_index);
    if src.session != dst && sa.link_set_id == sb.link_set_id {
        &&& fails_refused(result, "sessions are grouped"@)
        &&& after == before
    } else if occupied is Some && sb.windows@[occupied->0].id == l.id {
        &&& fails_refused(result, "same index: "@ + decimal(new_index as nat))
        &&& after == before
    } else if occupied is Some && !replace {
        &&& result is Err
        &&& is_already_exists(result->Err_0, "index in use: "@ + decimal(new_index as nat))
        &&& after == before
    } else {
        let drop = occupied is Some && !(src.session == dst && l.index == new_index);
        let p = link_ids(sa.windows@).index_of_first(l.link_id)->0;
        &&& result is Ok
        &&& moved_outcome(before, after, src, dst, moved_within(sa.windows@, l.link_id, new_index, drop),
            moved_in(sb.windows@, sa.windows@[p], new_index, drop), select)
    }
}


/// `after_state` is `before` once `move-window -a`/`-b` moved the window of
/// the link `src` beside the index `anchor` of the session at `dst` (see
/// [`ServerState::move_window_relative`]), `result` being what it answered.
pub open spec fn window_moved_beside(
    before: ServerState,
    after_state: ServerState,
    src: Target,
    dst: usize,
    anchor: Option<u32>,
    after: bool,
    select: bool,
    result: Result<(), StateError>,
) -> bool {
    let sa = before.session_list()[src.session as int];
    let sb = before.session_list()[dst as int];
    let l = sa.windows@[src.window as int];
    if src.session != dst && sa.link_set_id == sb.link_set_id {
        &&& fails_refused(result, "sessions are grouped"@)
        &&& after_state == before
    } else if anchor is None {
        &&& fails_invalid(result, "move-window: missing destination index"@)
        &&& after_state == before
    } else if !link_indices(sb.windows@).contains(anchor->0) {
        window_moved(before, after_state, src, dst, anchor->0, false, select, result)
    } else {
        let desired = (if after { anchor->0 + 1 } else { anchor->0 as int }) as u32;
        let free = choose|f: u32| first_free_at(sb.windows@, desired, f);
        let p = link_ids(sa.windows@).index_of_first(l.link_id)->0;
        &&& result is Ok
        &&& moved_outcome(before, after_state, src, dst,
            relocated(shuffled(sa.windows@, desired, free), l.link_id, desired),
            sorted_by_index(shuffled(sb.windows@, desired, free).push(Winlink { index: desired, ..sa.windows@[p] })),
            select)
    }
}

impl ServerState {

    /// Remove every session of the link set `set`, keeping the others in
    /// order.
    pub(crate) fn remove_link_set_sessions(&mut self, set: u32)
        requires
            old(self).wf(),
        ensures
            final(self).wf(),
            old(self).same_but_sessions(final(self)),
            final(self).session_list().len() == kept_positions(link_set_ids(old(self).session_list()), set).len(),
            forall|j: int| 0 <= j < final(self).session_list().len() ==> #[trigger] final(self).session_list()[j]
                == old(self).session_list()[kept_positions(link_set_ids(old(self).session_list()), set)[j]],
    {
        let ghost before = self.sessions@;
        let ghost ids = link_set_ids(before);
        let ghost mut k: int = 0;
        let mut i: usize = 0;
        proof {
            lemma_kept_positions(ids, set);
        }
        while i < self.sessions.len()
            invariant
                before == old(self).sessions@,
                ids == link_set_ids(before),
                0 <= k <= before.len(),
                self.sessions@.len() == i + (before.len() - k),
                kept_positions(ids.take(k), set).len() == i,
                forall|j: int| 0 <= j < i ==> #[trigger] self.sessions@[j] == before[kept_positions(ids.take(k), set)[j]],
                forall|j: int| i <= j < self.sessions@.len() ==> #[trigger] self.sessions@[j] == before[k + (j - i)],
                sessions_wf(self.sessions@),
                old(self).same_but_sessions(self),
            decreases self.sessions.len() - i,
        {
            proof {
                assert(self.sessions@[i as int] == before[k]);
                assert(ids.take(k + 1).drop_last() =~= ids.take(k));
                assert(ids.take(k + 1).last() == before[k].link_set_id);
            }
            if self.sessions[i].link_set_id == set {
                let ghost prev = self.sessions@;
                self.sessions.remove(i);
                proof {
                    assert forall|j: int| i <= j < self.sessions@.len() implies #[trigger] self.sessions@[j] == before[(k + 1) + (j - i)] by {
                        assert(self.sessions@[j] == prev[j + 1]);
                    }
                    assert forall|j: int| 0 <= j < self.sessions@.len() implies session_wf(#[trigger] self.sessions@[j]) by {
                        if j < i {
                            assert(self.sessions@[j] == prev[j]);
                        } else {
                            assert(self.sessions@[j] == prev[j + 1]);
                        }
                    }
                    k = k + 1;
                }
            } else {
                proof {
                    assert(kept_positions(ids.take(k + 1), set) == kept_positions(ids.take(k), set).push(k));
                    k = k + 1;
                }
                i += 1;
            }
        }
        proof {
            assert(k == before.len());
            assert(ids.take(k) =~= ids);
            lemma_kept_positions_order(ids, set);
            crate::state::lemma_ids_at_positions(before, self.sessions@, kept_positions(ids, set), self.next_session_id);
        }
    }

    /// Forget the groups no session belongs to any more.
    pub(crate) fn prune_groups(&mut self)
        requires
            old(self).wf(),
        ensures
            final(self).wf(),
            (ServerState { session_groups: final(self).session_groups, ..*old(self) }) == *final(self),
            final(self).groups() == old(self).groups().restrict(live_link_sets(old(self).session_list())),
    {
        broadcast use vstd::laws_cmp::group_laws_cmp, vstd::std_specs::btree::group_btree_axioms;
        let ghost groups = self.session_groups@;
        let mut kept: std::collections::BTreeMap<u32, String> = std::collections::BTreeMap::new();
        let mut i: usize = 0;
        proof {
            lemma_prefix_link_sets_empty(self.sessions@);
        }
        while i < self.sessions.len()
            invariant
                i <= self.sessions@.len(),
                groups == self.session_groups@,
                kept@ == groups.restrict(prefix_link_sets(self.sessions@, i)),
            decreases self.sessions.len() - i,
        {
            let k = self.sessions[i].link_set_id;
            proof {
                lemma_prefix_link_sets_step(self.sessions@, i);
            }
            match self.session_groups.get(&k) {
                Some(name) => {
                    kept.insert(k, name.clone());
                },
                None => {},
            }
            proof {
                assert(kept@ =~= groups.restrict(prefix_link_sets(self.sessions@, i).insert(k)));
            }
            i += 1;
        }
        proof {
            lemma_prefix_link_sets_full(self.sessions@, i);
            old(self).lemma_groups_held();
        }
        self.session_groups = kept;
        proof {
            self.lemma_groups_held();
        }
    }

    /// Make the window at `position` current in the session at `pos` alone,
    /// without synchronizing its group or raising a notification.
    fn select_position_in(&mut self, pos: usize, position: usize)
        requires
            old(self).wf(),
            pos < old(self).session_list().len(),
        ensures
            final(self).wf(),
            old(self).same_but_sessions(final(self)),
            final(self).session_list().len() == old(self).session_list().len(),
            forall|j: int| 0 <= j < old(self).session_list().len() && j != pos
                ==> final(self).session_list()[j] == old(self).session_list()[j],
            reselected(old(self).session_list()[pos as int], final(self).session_list()[pos as int]),
            selection(final(self).session_list()[pos as int])
                == selected(old(self).session_list()[pos as int], position as int),
    {
        let mut session = self.take_session(pos);
        proof {
            assert(session_wf(old(self).sessions@[pos as int]));
        }
        select_window_position(&mut session, position);
        self.sessions.insert(pos, session);
        proof {
            self.lemma_replaced_session_wf(old(self).sessions@, pos as int);
        }
    }
    /// Make the window with index `index` current in the session at `pos`
    /// alone, without synchronizing its group or raising a notification.
    fn select_index_in(&mut self, pos: usize, index: u32)
        requires
            old(self).wf(),
            pos < old(self).session_list().len(),
        ensures
            final(self).wf(),
            old(self).same_but_sessions(final(self)),
            final(self).session_list().len() == old(self).session_list().len(),
            forall|j: int| 0 <= j < old(self).session_list().len() && j != pos
                ==> final(self).session_list()[j] == old(self).session_list()[j],
            reselected(old(self).session_list()[pos as int], final(self).session_list()[pos as int]),
            selection(final(self).session_list()[pos as int])
                == index_selected(selection(old(self).session_list()[pos as int]), index),
    {
        let mut session = self.take_session(pos);
        proof {
            assert(session_wf(old(self).sessions@[pos as int]));
        }
        select_window_index(&mut session, index);
        self.sessions.insert(pos, session);
        proof {
            self.lemma_replaced_session_wf(old(self).sessions@, pos as int);
        }
    }

    /// `swap-window` on resolved targets: the windows at `a` and `b` trade
    /// places, each link keeping its index. Windows of one link set swap in
    /// place and the group follows; across link sets each session takes the
    /// other's window. With `select`, the destination slot is made current
    /// (and, across sessions, the source slot in the source session). The
    /// sessions' clients are owed a layout and status redraw. Two sessions
    /// of one group cannot swap with each other.
    pub fn swap_window(&mut self, a: Target, b: Target, select: bool) -> (result: Result<(), StateError>)
        requires
            old(self).wf(),
            a.session < old(self).session_list().len(),
            b.session < old(self).session_list().len(),
            a.window < old(self).session_list()[a.session as int].windows@.len(),
            b.window < old(self).session_list()[b.session as int].windows@.len(),
        ensures
            final(self).wf(),
            final(self).notifications() == old(self).notifications(),
            final(self).session_list().len() == old(self).session_list().len(),
            ({
                let sa = old(self).session_list()[a.session as int];
                let sb = old(self).session_list()[b.session as int];
                let la = sa.windows@[a.window as int];
                let lb = sb.windows@[b.window as int];
                let reason = RenderInvalidation(3);
                if a.session != b.session && sa.link_set_id == sb.link_set_id {
                    &&& fails_refused(result, "can't move window, sessions are grouped"@)
                    &&& *final(self) == *old(self)
                } else if la.id == lb.id {
                    &&& result is Ok
                    &&& *final(self) == *old(self)
                } else if a.session == b.session {
                    let links = relinked(relinked(sa.windows@, a.window as int, lb.id), b.window as int, la.id);
                    let after = final(self).session_list()[a.session as int];
                    &&& result is Ok
                    &&& reselected(sa, after)
                    &&& selection(after) == if select {
                        index_selected(placed_by_position(sa, links), lb.index)
                    } else {
                        placed_by_position(sa, links)
                    }
                    &&& forall|j: int| 0 <= j < old(self).session_list().len() && j != a.session ==> {
                        let before = #[trigger] old(self).session_list()[j];
                        let now = final(self).session_list()[j];
                        if old(self).groups().contains_key(sa.link_set_id) && group_member(before, sa) {
                            reselected(before, now) && selection(now) == installed(before, links)
                        } else {
                            now == before
                        }
                    }
                    &&& final(self).render_request_list() == old(self).render_request_list().push(
                        RenderRequest { session_id: Some(sa.id), reason })
                } else {
                    let a_links = relinked(sa.windows@, a.window as int, lb.id);
                    let b_links = relinked(sb.windows@, b.window as int, la.id);
                    let after_a = final(self).session_list()[a.session as int];
                    let after_b = final(self).session_list()[b.session as int];
                    &&& result is Ok
                    &&& reselected(sa, after_a)
                    &&& reselected(sb, after_b)
                    &&& selection(after_a) == if select {
                        index_selected(placed_by_position(sa, a_links), la.index)
                    } else {
                        placed_by_position(sa, a_links)
                    }
                    &&& selection(after_b) == if select {
                        index_selected(placed_by_position(sb, b_links), lb.index)
                    } else {
                        placed_by_position(sb, b_links)
                    }
                    &&& forall|j: int| 0 <= j < old(self).session_list().len() && j != a.session && j != b.session ==> {
                        let before = #[trigger] old(self).session_list()[j];
                        let now = final(self).session_list()[j];
                        if old(self).groups().contains_key(sa.link_set_id) && group_member(before, sa) {
                            reselected(before, now) && selection(now) == installed(before, a_links)
                        } else if old(self).groups().contains_key(sb.link_set_id) && group_member(before, sb) {
                            reselected(before, now) && selection(now) == installed(before, b_links)
                        } else {
                            now == before
                        }
                    }
                    &&& final(self).render_request_list() == old(self).render_request_list()
                        .push(RenderRequest { session_id: Some(sa.id), reason })
                        .push(RenderRequest { session_id: Some(sb.id), reason })
                }
            }),
    {
        let sa_set = self.sessions[a.session].link_set_id;
        let sb_set = self.sessions[b.session].link_set_id;
        if a.session != b.session && sa_set == sb_set {
            let mut m = String::new();
            crate::text::push_text(&mut m, "can't move window, sessions are grouped");
            return Err(StateError::Refused(m));
        }
        let src_session_id = self.sessions[a.session].id;
        let dst_session_id = self.sessions[b.session].id;
        let src_index = self.sessions[a.session].windows[a.window].index;
        let dst_index = self.sessions[b.session].windows[b.window].index;
        let a_id = self.sessions[a.session].windows[a.window].id;
        let b_id = self.sessions[b.session].windows[b.window].id;
        if a_id == b_id {
            return Ok(());
        }
        assert(2u8 | 1u8 == 3u8) by (bit_vector);
        let reason = RenderInvalidation::layout().bitor(RenderInvalidation::status());
        if a.session == b.session {
            let mut links = crate::state::windows::copy_links(&self.sessions[a.session].windows);
            relink(&mut links, a.window, b_id);
            relink(&mut links, b.window, a_id);
            self.replace_link_set_preserving_positions(a.session, links);
            if select {
                self.select_index_in(a.session, dst_index);
            }
            self.invalidate_session(src_session_id, reason);
            return Ok(());
        }
        let mut a_links = crate::state::windows::copy_links(&self.sessions[a.session].windows);
        let mut b_links = crate::state::windows::copy_links(&self.sessions[b.session].windows);
        relink(&mut a_links, a.window, b_id);
        relink(&mut b_links, b.window, a_id);
        let ghost s0 = *self;
        self.replace_link_set_preserving_positions(a.session, a_links);
        let ghost s1 = *self;
        proof {
            assert(!group_member(s0.session_list()[b.session as int], s0.session_list()[a.session as int]));
            assert(s1.session_list()[b.session as int] == s0.session_list()[b.session as int]);
        }
        self.replace_link_set_preserving_positions(b.session, b_links);
        let ghost s2 = *self;
        if select {
            self.select_index_in(b.session, dst_index);
            self.select_index_in(a.session, src_index);
        }
        let ghost s3 = *self;
        proof {
            let sa = s0.session_list()[a.session as int];
            let sb = s0.session_list()[b.session as int];
            s0.lemma_same_groups(&s1);
            s1.lemma_same_groups(&s2);
            assert(s2.session_list()[a.session as int] == s1.session_list()[a.session as int]);
            assert forall|j: int| 0 <= j < s0.session_list().len() && j != a.session && j != b.session implies
                s3.session_list()[j] == s2.session_list()[j] by {}
            assert forall|j: int| 0 <= j < s0.session_list().len() && j != a.session && j != b.session implies {
                let before = #[trigger] s0.session_list()[j];
                let mid = s1.session_list()[j];
                &&& (group_member(before, sa) ==> mid.link_set_id == sb.link_set_id ==> false)
                &&& (group_member(mid, sb) == group_member(before, sb))
            } by {
                let before = s0.session_list()[j];
                let mid = s1.session_list()[j];
                if s0.groups().contains_key(sa.link_set_id) && group_member(before, sa) {
                    assert(reselected(before, mid));
                } else {
                    assert(mid == before);
                }
            }
        }
        self.invalidate_session(src_session_id, reason);
        self.invalidate_session(dst_session_id, reason);
        Ok(())
    }

    /// Within one session: the link at `src` takes the index `new_index`,
    /// the links at that index going first when `drop`; the group follows.
    fn link_within(&mut self, src: Target, new_index: u32, drop: bool)
        requires
            old(self).wf(),
            src.session < old(self).session_list().len(),
            src.window < old(self).session_list()[src.session as int].windows@.len(),
            drop ==> old(self).session_list()[src.session as int].windows@[src.window as int].index != new_index,
        ensures
            final(self).wf(),
            final(self).notifications() == old(self).notifications(),
            final(self).render_request_list() == old(self).render_request_list(),
            old(self).same_but_sessions(final(self)),
            ({
                let sa = old(self).session_list()[src.session as int];
                let id = sa.windows@[src.window as int].link_id;
                let links = moved_within(sa.windows@, id, new_index, drop);
                &&& final(self).session_list().len() == old(self).session_list().len()
                &&& reselected(sa, final(self).session_list()[src.session as int])
                &&& selection(final(self).session_list()[src.session as int]) == installed(sa, links)
                &&& forall|j: int| 0 <= j < old(self).session_list().len() && j != src.session ==>
                    follows_group(#[trigger] old(self).session_list()[j], final(self).session_list()[j], sa,
                        old(self).groups().contains_key(sa.link_set_id), links)
            }),
    {
        let ghost s0 = *self;
        let source_link = self.sessions[src.session].windows[src.window];
        let moved_link_id = source_link.link_id;
        let mut links = if drop {
            proof {
                lemma_without_index_keeps(s0.sessions@[src.session as int].windows@, src.window as int, new_index);
            }
            drop_index(&self.sessions[src.session].windows, new_index)
        } else {
            copy_links(&self.sessions[src.session].windows)
        };
        proof {
            let k = choose|k: int| 0 <= k < links@.len() && links@[k] == source_link;
            assert(link_ids(links@)[k] == moved_link_id);
            link_ids(links@).index_of_first_ensures(moved_link_id);
        }
        let ghost kept = links@;
        match position_of_link(&links, moved_link_id) {
            Some(p) => {
                let mut m = links[p];
                m.index = new_index;
                links.set(p, m);
                proof {
                    assert(links@ == kept.update(p as int, Winlink { index: new_index, ..kept[p as int] }));
                }
            },
            None => {},
        }
        let links = sort_by_index(links);
        self.replace_link_set(src.session, links);
    }

    /// Across link sets: the link at `src` leaves its session and joins the
    /// session at `dst` at the index `new_index`, the links there at that
    /// index going first when `drop`; each group follows, and the source's
    /// link set closes when it is left without windows.
    fn link_across(&mut self, src: Target, dst: usize, new_index: u32, dest_base: Vec<Winlink>)
        requires
            old(self).wf(),
            src.session < old(self).session_list().len(),
            src.window < old(self).session_list()[src.session as int].windows@.len(),
            dst < old(self).session_list().len(),
            old(self).session_list()[src.session as int].link_set_id != old(self).session_list()[dst as int].link_set_id,
        ensures
            final(self).wf(),
            final(self).notifications() == old(self).notifications(),
            final(self).render_request_list() == old(self).render_request_list(),
            old(self).same_but_sessions(final(self)),
            ({
                let sa = old(self).session_list()[src.session as int];
                let sb = old(self).session_list()[dst as int];
                let id = sa.windows@[src.window as int].link_id;
                let p = link_ids(sa.windows@).index_of_first(id)->0;
                let src_links = sa.windows@.remove(p);
                let dst_links = sorted_by_index(dest_base@.push(Winlink { index: new_index, ..sa.windows@[p] }));
                let kept = if src_links.len() == 0 {
                    kept_positions(link_set_ids(old(self).session_list()), sa.link_set_id)
                } else {
                    all_positions(old(self).session_list().len())
                };
                &&& final(self).session_list().len() == kept.len()
                &&& forall|i: int| 0 <= i < kept.len() ==> moved_across(#[trigger] final(self).session_list()[i],
                    old(self).session_list()[kept[i]], kept[i], src.session as int, dst as int, sa, sb,
                    old(self).groups().contains_key(sa.link_set_id), old(self).groups().contains_key(sb.link_set_id),
                    src_links, dst_links, id, false)
            }),
    {
        let ghost s0 = *self;
        let source_set = self.sessions[src.session].link_set_id;
        let moved_link_id = self.sessions[src.session].windows[src.window].link_id;
        let mut source_links = copy_links(&self.sessions[src.session].windows);
        proof {
            assert(link_ids(source_links@)[src.window as int] == moved_link_id);
            link_ids(source_links@).index_of_first_ensures(moved_link_id);
        }
        let p = match position_of_link(&source_links, moved_link_id) {
            Some(p) => p,
            None => src.window,
        };
        let ghost taken = source_links@;
        let mut moved = source_links.remove(p);
        moved.index = new_index;
        proof {
            assert(source_links@ == taken.remove(p as int));
        }
        self.replace_link_set(src.session, source_links);
        let ghost s_a = *self;
        proof {
            s0.lemma_same_groups(&s_a);
            assert(!group_member(s0.sessions@[dst as int], s0.sessions@[src.session as int]));
            assert(s_a.sessions@[dst as int] == s0.sessions@[dst as int]);
        }
        let mut dest = dest_base;
        dest.push(moved);
        let dest = sort_by_index(dest);
        self.replace_link_set(dst, dest);
        let ghost s_b = *self;
        proof {
            s_a.lemma_same_groups(&s_b);
            let sa = s0.sessions@[src.session as int];
            let sb = s0.sessions@[dst as int];
            let ga = s0.groups().contains_key(sa.link_set_id);
            let gb = s0.groups().contains_key(sb.link_set_id);
            let src_links = sa.windows@.remove(p as int);
            let dst_links = sorted_by_index(dest_base@.push(Winlink { index: new_index, ..sa.windows@[p as int] }));
            let n = s0.sessions@.len();
            assert forall|j: int| 0 <= j < n implies moved_across(#[trigger] s_b.sessions@[j], s0.sessions@[j], j,
                src.session as int, dst as int, sa, sb, ga, gb, src_links, dst_links, moved_link_id, false) by {
                let before = s0.sessions@[j];
                let mid = s_a.sessions@[j];
                let now = s_b.sessions@[j];
                assert(s0.session_list()[j] == before);
                assert(s_a.session_list()[j] == mid);
                assert(s_b.session_list()[j] == now);
                if j == src.session {
                    assert(!group_member(mid, sb));
                } else if j == dst {
                } else if ga && group_member(before, sa) {
                    assert(!group_member(mid, sb));
                } else {
                    assert(mid == before);
                }
            }
            assert(s_b.sessions@[src.session as int].windows@ == src_links);
            assert(link_set_ids(s_b.sessions@) =~= link_set_ids(s0.sessions@)) by {
                assert forall|j: int| 0 <= j < n implies #[trigger] s_b.sessions@[j].link_set_id == s0.sessions@[j].link_set_id by {
                    assert(moved_across(s_b.sessions@[j], s0.sessions@[j], j,
                        src.session as int, dst as int, sa, sb, ga, gb, src_links, dst_links, moved_link_id, false));
                }
            }
        }
        if self.sessions[src.session].windows.len() == 0 {
            self.remove_link_set_sessions(source_set);
            proof {
                let sa = s0.sessions@[src.session as int];
                lemma_kept_positions(link_set_ids(s0.sessions@), sa.link_set_id);
            }
        } else {
            proof {
                assert(self.sessions@.len() == all_positions(s0.sessions@.len()).len());
            }
        }
    }

    /// The end of a move, once the links were changed (the state before the
    /// change being `s0`): make the moved link current at the destination
    /// when `select`, forget groups left without sessions, and owe the
    /// sessions' clients a redraw.
    fn settle_move(
        &mut self,
        src: Target,
        dst: usize,
        select: bool,
        src_session_id: u32,
        dst_session_id: u32,
        moved_link_id: u64,
        Ghost(s0): Ghost<ServerState>,
        Ghost(within): Ghost<Seq<Winlink>>,
        Ghost(into): Ghost<Seq<Winlink>>,
    )
        requires
            s0.wf(),
            old(self).wf(),
            s0.same_but_sessions(&*old(self)),
            src.session < s0.session_list().len(),
            src.window < s0.session_list()[src.session as int].windows@.len(),
            dst < s0.session_list().len(),
            src_session_id == s0.session_list()[src.session as int].id,
            dst_session_id == s0.session_list()[dst as int].id,
            moved_link_id == s0.session_list()[src.session as int].windows@[src.window as int].link_id,
            session_ids(s0.session_list()).index_of_first(dst_session_id) == Some(dst as int),
            ({
                let sa = s0.session_list()[src.session as int];
                let sb = s0.session_list()[dst as int];
                let ga = s0.groups().contains_key(sa.link_set_id);
                let gb = s0.groups().contains_key(sb.link_set_id);
                &&& sa.link_set_id == sb.link_set_id ==> {
                    &&& src.session == dst
                    &&& old(self).session_list().len() == s0.session_list().len()
                    &&& reselected(sa, old(self).session_list()[src.session as int])
                    &&& selection(old(self).session_list()[src.session as int]) == installed(sa, within)
                    &&& forall|j: int| 0 <= j < s0.session_list().len() && j != src.session ==>
                        follows_group(#[trigger] s0.session_list()[j], old(self).session_list()[j], sa, ga, within)
                }
                &&& sa.link_set_id != sb.link_set_id ==> {
                    let p = link_ids(sa.windows@).index_of_first(moved_link_id)->0;
                    let src_links = sa.windows@.remove(p);
                    let kept = if src_links.len() == 0 {
                        kept_positions(link_set_ids(s0.session_list()), sa.link_set_id)
                    } else {
                        all_positions(s0.session_list().len())
                    };
                    &&& old(self).session_list().len() == kept.len()
                    &&& forall|i: int| 0 <= i < kept.len() ==> moved_across(#[trigger] old(self).session_list()[i],
                        s0.session_list()[kept[i]], kept[i], src.session as int, dst as int, sa, sb, ga, gb,
                        src_links, into, moved_link_id, false)
                }
            }),
        ensures
            final(self).wf(),
            moved_outcome(s0, *final(self), src, dst, within, into, select),
    {
        let ghost s1 = *self;
        let ghost sa = s0.sessions@[src.session as int];
        let ghost sb = s0.sessions@[dst as int];
        let ghost ga = s0.groups().contains_key(sa.link_set_id);
        let ghost gb = s0.groups().contains_key(sb.link_set_id);
        let ghost pp = link_ids(sa.windows@).index_of_first(moved_link_id)->0;
        let ghost src_links = sa.windows@.remove(pp);
        let ghost same = sa.link_set_id == sb.link_set_id;
        let ghost kept = if src_links.len() == 0 {
            kept_positions(link_set_ids(s0.sessions@), sa.link_set_id)
        } else {
            all_positions(s0.sessions@.len())
        };
        let dst_pos = match position_of_id(&self.sessions, dst_session_id) {
            Some(q) => q,
            None => 0,
        };
        proof {
            let ids0 = session_ids(s0.sessions@);
            let ids1 = session_ids(s1.sessions@);
            ids0.index_of_first_ensures(dst_session_id);
            ids1.index_of_first_ensures(dst_session_id);
            if same {
                assert forall|j: int| 0 <= j < ids1.len() implies #[trigger] ids1[j] == ids0[j] by {
                    assert(s0.session_list()[j] == s0.sessions@[j]);
                }
                assert(ids1 =~= ids0);
                assert(dst_pos == dst);
            } else {
                assert forall|i: int| 0 <= i < kept.len() implies #[trigger] ids1[i] == ids0[kept[i]] by {
                    lemma_kept_positions(link_set_ids(s0.sessions@), sa.link_set_id);
                    assert(moved_across(s1.session_list()[i], s0.session_list()[kept[i]], kept[i],
                        src.session as int, dst as int, sa, sb, ga, gb, src_links, into, moved_link_id, false));
                }
                let i0: int = if src_links.len() == 0 {
                    lemma_kept_positions_order(link_set_ids(s0.sessions@), sa.link_set_id);
                    assert(link_set_ids(s0.sessions@)[dst as int] != sa.link_set_id);
                    choose|i: int| 0 <= i < kept.len() && kept[i] == dst
                } else {
                    dst as int
                };
                assert(0 <= i0 < kept.len() && kept[i0] == dst);
                assert(ids1[i0] == dst_session_id);
                assert forall|i: int| 0 <= i < i0 implies ids1[i] != dst_session_id by {
                    lemma_kept_positions(link_set_ids(s0.sessions@), sa.link_set_id);
                    if src_links.len() == 0 {
                        lemma_kept_positions_order(link_set_ids(s0.sessions@), sa.link_set_id);
                    }
                    assert(kept[i] < dst);
                    assert(ids1[i] == ids0[kept[i]]);
                }
                assert(dst_pos == i0);
            }
        }
        if select && dst_pos < self.sessions.len() {
            match position_of_link(&self.sessions[dst_pos].windows, moved_link_id) {
                Some(new_pos) => self.select_position_in(dst_pos, new_pos),
                None => {},
            }
        }
        let ghost s2 = *self;
        proof {
            assert(self.session_groups == s0.session_groups);
            self.lemma_groups_held();
            s0.lemma_groups_held();
        }
        self.prune_groups();
        let ghost pruned = *self;
        proof {
            assert(pruned.render_requests == s0.render_requests);
            assert(pruned.sessions == s2.sessions);
            if same {
                assert(reselected(sa, s2.session_list()[dst as int]));
                assert(session_ids(pruned.sessions@)[dst as int] == src_session_id);
            }
            session_ids(pruned.sessions@).index_of_first_ensures(src_session_id);
        }
        let reason = RenderInvalidation::layout().bitor(RenderInvalidation::status());
        assert(2u8 | 1u8 == 3u8) by (bit_vector);
        match position_of_id(&self.sessions, src_session_id) {
            Some(_) => self.invalidate_session(src_session_id, reason),
            None => self.invalidate_session(src_session_id, RenderInvalidation::session_gone()),
        }
        if dst_session_id != src_session_id {
            self.invalidate_session(dst_session_id, reason);
        }
        proof {
            assert(self.session_groups == pruned.session_groups);
            self.lemma_groups_held();
            pruned.lemma_groups_held();
            assert(self.sessions == s2.sessions);
            assert(self.pending_notifications == s0.pending_notifications);
            assert(s2.sessions@.len() == s1.sessions@.len());
            if same {
                assert(s1.session_list()[dst as int].windows@ == within);
                assert forall|j: int| 0 <= j < s0.sessions@.len() && j != src.session implies
                    follows_group(#[trigger] s0.session_list()[j], s2.session_list()[j], sa, ga, within) by {
                    assert(s2.sessions@[j] == s1.sessions@[j]);
                }
                assert(reselected(sa, s2.session_list()[dst as int]));
                assert(selection(s2.session_list()[dst as int]) == took_links(sa, within, moved_link_id, select));
                assert(self.render_requests@ == s0.render_requests@.push(RenderRequest { session_id: Some(sa.id), reason: RenderInvalidation(3) }));
            } else {
                lemma_kept_positions(link_set_ids(s0.sessions@), sa.link_set_id);
                lemma_kept_positions_order(link_set_ids(s0.sessions@), sa.link_set_id);
                assert(s1.session_list()[dst_pos as int].windows@ == into);
                assert forall|i: int| 0 <= i < kept.len() implies moved_across(#[trigger] s2.session_list()[i],
                    s0.session_list()[kept[i]], kept[i], src.session as int, dst as int, sa, sb, ga, gb,
                    src_links, into, moved_link_id, select) by {
                    assert(moved_across(s1.session_list()[i], s0.session_list()[kept[i]], kept[i],
                        src.session as int, dst as int, sa, sb, ga, gb, src_links, into, moved_link_id, false));
                    if i != dst_pos {
                        assert(s2.sessions@[i] == s1.sessions@[i]);
                        if src_links.len() == 0 {
                            if kept[i] == dst {
                                if i < dst_pos {
                                    assert(kept[i] < kept[dst_pos as int]);
                                } else {
                                    assert(kept[dst_pos as int] < kept[i]);
                                }
                            }
                        }
                    }
                }
                let first = RenderRequest {
                    session_id: Some(sa.id),
                    reason: if session_ids(s2.sessions@).contains(sa.id) {
                        RenderInvalidation(3)
                    } else {
                        RenderInvalidation(4)
                    },
                };
                assert(self.render_requests@ == if sb.id != sa.id {
                    s0.render_requests@.push(first).push(RenderRequest { session_id: Some(sb.id), reason: RenderInvalidation(3) })
                } else {
                    s0.render_requests@.push(first)
                });
            }
        }
    }

    /// `move-window` on resolved places: the window at `src` moves to the
    /// index `new_index` of the session at `dst`. A window already at that
    /// index is replaced when `replace` (`-k`), else the move is refused;
    /// within a link set the window keeps its link and takes the index,
    /// across link sets it leaves its session (which closes, with its group,
    /// when that was its last window) and joins the destination. The link
    /// sets stay ordered by index and their groups follow. With `select`
    /// the moved window becomes the destination's current one. Groups
    /// without sessions are forgotten, and the sessions' clients are owed a
    /// redraw.
    pub fn move_window(&mut self, src: Target, dst: usize, new_index: u32, replace: bool, select: bool) -> (result: Result<(), StateError>)
        requires
            old(self).wf(),
            src.session < old(self).session_list().len(),
            src.window < old(self).session_list()[src.session as int].windows@.len(),
            dst < old(self).session_list().len(),
        ensures
            final(self).wf(),
            window_moved(*old(self), *final(self), src, dst, new_index, replace, select, result),
    {
        proof {
            self.lemma_id_position(dst as int);
        }
        let src_session_id = self.sessions[src.session].id;
        let dst_session_id = self.sessions[dst].id;
        let source_set = self.sessions[src.session].link_set_id;
        let destination_set = self.sessions[dst].link_set_id;
        if src.session != dst && source_set == destination_set {
            let mut m = String::new();
            push_text(&mut m, "sessions are grouped");
            return Err(StateError::Refused(m));
        }
        let occupied = position_of_index(&self.sessions[dst].windows, new_index);
        let source_link = self.sessions[src.session].windows[src.window];
        let same_slot = dst == src.session && source_link.index == new_index;
        match occupied {
            Some(d) => {
                proof {
                    link_indices(self.sessions@[dst as int].windows@).index_of_first_ensures(new_index);
                }
                if self.sessions[dst].windows[d].id == source_link.id {
                    let mut m = String::new();
                    push_text(&mut m, "same index: ");
                    push_decimal(&mut m, new_index as u64);
                    return Err(StateError::Refused(m));
                }
            },
            None => {},
        }
        if occupied.is_some() && !replace {
            let mut m = String::new();
            push_text(&mut m, "index in use: ");
            push_decimal(&mut m, new_index as u64);
            return Err(StateError::AlreadyExists(m));
        }
        let drop = occupied.is_some() && !same_slot;
        let moved_link_id = source_link.link_id;
        let ghost s0 = *self;
        let ghost sa = s0.sessions@[src.session as int];
        let ghost sb = s0.sessions@[dst as int];
        let ghost pp = link_ids(sa.windows@).index_of_first(moved_link_id)->0;
        let ghost within = moved_within(sa.windows@, moved_link_id, new_index, drop);
        let ghost into = moved_in(sb.windows@, sa.windows@[pp], new_index, drop);
        if source_set == destination_set {
            self.link_within(src, new_index, drop);
        } else {
            let dest_base = if drop {
                drop_index(&self.sessions[dst].windows, new_index)
            } else {
                copy_links(&self.sessions[dst].windows)
            };
            self.link_across(src, dst, new_index, dest_base);
        }
        self.settle_move(src, dst, select, src_session_id, dst_session_id, moved_link_id, Ghost(s0), Ghost(within),
            Ghost(into));
        Ok(())
    }

    /// `move-window -a`/`-b` on resolved places: the window at `src` goes
    /// beside the window with index `anchor` in the session at `dst`, after
    /// it (`-a`, `after`) or in its place (`-b`). The run of used indices
    /// from there up is shifted up by one to open the slot; within a link
    /// set the window is taken out and put back there, across link sets it
    /// leaves its session (which closes, with its group, when that was its
    /// last window) and joins the destination. Without a window at `anchor`
    /// it is an ordinary move to that index. With `select` the moved window
    /// becomes the destination's current one; groups without sessions are
    /// forgotten and the sessions' clients are owed a redraw.
    pub fn move_window_relative(&mut self, src: Target, dst: usize, anchor: Option<u32>, after: bool, select: bool) -> (result: Result<(), StateError>)
        requires
            old(self).wf(),
            src.session < old(self).session_list().len(),
            src.window < old(self).session_list()[src.session as int].windows@.len(),
            dst < old(self).session_list().len(),
            match anchor {
                Some(a) => link_indices(old(self).session_list()[dst as int].windows@).contains(a) ==> {
                    let desired = if after { a + 1 } else { a as int };
                    &&& desired <= u32::MAX
                    &&& exists|k: u32| desired <= k && !link_indices(old(self).session_list()[dst as int].windows@).contains(k)
                },
                None => true,
            },
        ensures
            final(self).wf(),
            window_moved_beside(*old(self), *final(self), src, dst, anchor, after, select, result),
    {
        proof {
            self.lemma_id_position(dst as int);
        }
        let src_session_id = self.sessions[src.session].id;
        let dst_session_id = self.sessions[dst].id;
        let source_set = self.sessions[src.session].link_set_id;
        let destination_set = self.sessions[dst].link_set_id;
        if src.session != dst && source_set == destination_set {
            let mut m = String::new();
            push_text(&mut m, "sessions are grouped");
            return Err(StateError::Refused(m));
        }
        let anchor = match anchor {
            Some(a) => a,
            None => {
                let mut m = String::new();
                push_text(&mut m, "move-window: missing destination index");
                return Err(StateError::Invalid(m));
            },
        };
        match position_of_index(&self.sessions[dst].windows, anchor) {
            None => {
                proof {
                    link_indices(self.sessions@[dst as int].windows@).index_of_first_ensures(anchor);
                }
                return self.move_window(src, dst, anchor, false, select);
            },
            Some(_) => {
                proof {
                    link_indices(self.sessions@[dst as int].windows@).index_of_first_ensures(anchor);
                }
            },
        }
        let desired = if after { anchor + 1 } else { anchor };
        let free = first_free_index(&self.sessions[dst].windows, desired);
        let moved_link_id = self.sessions[src.session].windows[src.window].link_id;
        let ghost s0 = *self;
        let ghost sa = s0.sessions@[src.session as int];
        let ghost sb = s0.sessions@[dst as int];
        let ghost pp = link_ids(sa.windows@).index_of_first(moved_link_id)->0;
        let ghost within = relocated(shuffled(sa.windows@, desired, free), moved_link_id, desired);
        let ghost into = sorted_by_index(shuffled(sb.windows@, desired, free).push(Winlink { index: desired, ..sa.windows@[pp] }));
        proof {
            assert(first_free_at(sb.windows@, desired, free));
            assert(free == choose|f: u32| first_free_at(sb.windows@, desired, f)) by {
                let c = choose|f: u32| first_free_at(sb.windows@, desired, f);
                assert(first_free_at(sb.windows@, desired, c));
                if c < free {
                    assert(link_indices(sb.windows@).contains(c));
                } else if free < c {
                    assert(link_indices(sb.windows@).contains(free));
                }
            }
        }
        if source_set == destination_set {
            let links = shuffle(&self.sessions[src.session].windows, desired, free);
            let links = relocate(links, moved_link_id, desired);
            let ghost before = *self;
            self.replace_link_set(src.session, links);
            proof {
                assert forall|j: int| 0 <= j < s0.session_list().len() && j != src.session implies
                    follows_group(#[trigger] s0.session_list()[j], self.session_list()[j], sa,
                        s0.groups().contains_key(sa.link_set_id), within) by {}
            }
        } else {
            let dest_base = shuffle(&self.sessions[dst].windows, desired, free);
            self.link_across(src, dst, desired, dest_base);
        }
        self.settle_move(src, dst, select, src_session_id, dst_session_id, moved_link_id, Ghost(s0), Ghost(within),
            Ghost(into));
        Ok(())
    }
}

} // verus!
