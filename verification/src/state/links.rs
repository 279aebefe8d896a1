use vstd::prelude::*;
use crate::session::{Session, Target, Winlink};
use crate::render::RenderInvalidation;
use crate::state::{
    Notification, ServerState, StateError, fails_invalid, fails_refused, is_already_exists, owned, position_of_id, session_ids,
    session_wf,
};
use crate::state::windows::{group_member, window_change_noted};
use crate::text::{decimal, push_decimal, push_text};
use crate::winlinks::{
    renumber_links, active_link_id, first_free_at, first_free_index, link_ids, link_indices, position_of_index, position_of_link,
    refresh_last_window, refreshed_stack, reselected, select_in, selection, shuffle, shuffled, stack_head_position,
};

verus! {

/// The texts of format variables.
pub open spec fn var_texts(vars: Seq<(String, String)>) -> Seq<(Seq<char>, Seq<char>)> {
    vars.map_values(|v: (String, String)| (v.0@, v.1@))
}

/// The first session with the id `id`, if any.
pub open spec fn session_with_id(sessions: Seq<Session>, id: u32) -> Option<Session> {
    match session_ids(sessions).index_of_first(id) {
        Some(p) => Some(sessions[p]),
        None => None,
    }
}

/// The variables of a window event: the session's id and name when it
/// exists, and the window's id and name when it is known.
pub open spec fn window_vars(sessions: Seq<Session>, session_id: u32, window_id: u32, window_name: Option<Seq<char>>) -> Seq<(Seq<char>, Seq<char>)> {
    let session_part = match session_with_id(sessions, session_id) {
        Some(s) => seq![("hook_session"@, "$"@ + decimal(session_id as nat)), ("hook_session_name"@, s.name@)],
        None => Seq::empty(),
    };
    let window_part = match window_name {
        Some(w) => seq![("hook_window"@, "@"@ + decimal(window_id as nat)), ("hook_window_name"@, w)],
        None => Seq::empty(),
    };
    session_part + window_part
}

/// The target of a window event: the window in its session while the
/// session (the first with its id) still links it, else the session while
/// it exists.
pub open spec fn window_target(sessions: Seq<Session>, session_id: u32, window_id: u32) -> Option<Seq<char>> {
    match session_with_id(sessions, session_id) {
        Some(s) => if s.windows@.map_values(|l: Winlink| l.id).contains(window_id) {
            Some("$"@ + decimal(session_id as nat) + ":@"@ + decimal(window_id as nat))
        } else {
            Some("$"@ + decimal(session_id as nat))
        },
        None => None,
    }
}

/// `n` is the event `name` about the window `window_id` (called
/// `window_name` when known) in the session `session_id`, raised when the
/// sessions were `sessions`.
pub open spec fn is_window_notification(n: Notification, name: Seq<char>, sessions: Seq<Session>, session_id: u32, window_id: u32, window_name: Option<Seq<char>>, deferred: bool) -> bool {
    &&& n.name@ == name
    &&& match (n.target, window_target(sessions, session_id, window_id)) {
        (Some(t), Some(u)) => t@ == u,
        (None, None) => true,
        _ => false,
    }
    &&& var_texts(n.vars@) == seq![("hook"@, name)] + window_vars(sessions, session_id, window_id, window_name)
    &&& n.deferred == deferred
}

/// Whether some link of `links` shows the window `id`.
fn links_window(links: &Vec<Winlink>, id: u32) -> (found: bool)
    ensures
        found == links@.map_values(|l: Winlink| l.id).contains(id),
{
    let ghost ids = links@.map_values(|l: Winlink| l.id);
    let mut i: usize = 0;
    while i < links.len()
        invariant
            i <= links@.len(),
            ids == links@.map_values(|l: Winlink| l.id),
            forall|j: int| 0 <= j < i ==> ids[j] != id,
        decreases links.len() - i,
    {
        if links[i].id == id {
            proof {
                assert(ids[i as int] == id);
            }
            return true;
        }
        i += 1;
    }
    false
}

/// `"$" + id`.
fn session_tag(session_id: u32) -> (tag: String)
    ensures
        tag@ == "$"@ + decimal(session_id as nat),
{
    let mut tag = String::new();
    push_text(&mut tag, "$");
    push_decimal(&mut tag, session_id as u64);
    tag
}


/// The selection of `s` after the link `link` was inserted at `position`:
/// the current window stays current (by identity) and the
/// most-recently-used stack is brought up to date.
pub open spec fn linked_selection(s: Session, position: int, link: Winlink) -> (Seq<Winlink>, usize, Seq<u64>, Option<usize>) {
    let w = s.windows@.insert(position, link);
    let active = match active_link_id(s.windows@, s.active) {
        Some(id) => match link_ids(w).index_of_first(id) {
            Some(p) => p as usize,
            None => 0,
        },
        None => 0,
    };
    let stack = refreshed_stack(s.last_windows@, w, active);
    (w, active, stack, stack_head_position(stack, w))
}

/// Where the link `id` sits in `links`, or the first position.
pub open spec fn link_position(links: Seq<Winlink>, id: u64) -> int {
    match link_ids(links).index_of_first(id) {
        Some(p) => p,
        None => 0,
    }
}


/// `sessions` and `notes` are the sessions and notifications after the
/// link `link` was inserted at `position` of the session at `session` of
/// `before`; see [`ServerState::insert_link`].
pub open spec fn link_inserted(before: ServerState, sessions: Seq<Session>, notes: Seq<Notification>, session: usize, position: usize, link: Winlink, select: bool, window_name: Option<Seq<char>>) -> bool {
    let s0 = before.session_list()[session as int];
    let linked = linked_selection(s0, position as int, link);
    let w = linked.0;
    let now = sessions[session as int];
    let chosen = select || s0.windows@.len() == 0;
    let wid = w[link_position(w, link.link_id)].id;
    let moved = chosen && select_in(linked, link_position(w, link.link_id)).1 != linked.1;
    &&& sessions.len() == before.session_list().len()
    &&& reselected(s0, now)
    &&& selection(now) == if chosen { select_in(linked, link_position(w, link.link_id)) } else { linked }
    &&& forall|j: int| 0 <= j < before.session_list().len() && j != session ==> {
        let b = #[trigger] before.session_list()[j];
        let a = sessions[j];
        if before.groups().contains_key(s0.link_set_id) && group_member(b, s0) {
            reselected(b, a) && selection(a) == crate::winlinks::installed(b, w)
        } else {
            a == b
        }
    }
    &&& notes.take(before.notifications().len() as int) == before.notifications()
    &&& notes.len() == before.notifications().len() + if moved { 2int } else { 1int }
    &&& is_window_notification(notes[before.notifications().len() as int], "window-linked"@, sessions, s0.id, wid,
        window_name, before.deferring())
}


/// How many links at the front of `links` have an index below `index`:
/// where a link with that index goes when the set is ordered by index.
pub open spec fn leading_below(links: Seq<Winlink>, index: u32) -> nat
    decreases links.len(),
{
    if links.len() == 0 || links[0].index >= index {
        0
    } else {
        1 + leading_below(links.drop_first(), index)
    }
}

pub proof fn lemma_leading_below_bound(links: Seq<Winlink>, index: u32)
    ensures
        leading_below(links, index) <= links.len(),
    decreases links.len(),
{
    if links.len() > 0 && links[0].index < index {
        lemma_leading_below_bound(links.drop_first(), index);
    }
}

/// `after` is `before` after a new link to the window `window_id` was put
/// at the index `index` of the session at `dst`; see
/// [`ServerState::link_window_at`].
pub open spec fn linked_at(before: ServerState, after: ServerState, dst: usize, index: u32, window_id: u32, select: bool, window_name: Option<Seq<char>>) -> bool {
    link_placed(before, after, dst, index, window_id, select, window_name, select)
}

/// As [`linked_at`], the redraw owed being a layout and status one when
/// `layout`, a status one otherwise.
pub open spec fn link_placed(before: ServerState, after: ServerState, dst: usize, index: u32, window_id: u32, select: bool, window_name: Option<Seq<char>>, layout: bool) -> bool {
    let sb = before.session_list()[dst as int];
    let link = Winlink { link_id: before.next_winlink_id_spec(), index, id: window_id, alert_flags: 0 };
    &&& link_inserted(before, after.session_list(), after.notifications(), dst, leading_below(sb.windows@, index) as usize,
        link, select, window_name)
    &&& after.groups() == before.groups().restrict(crate::state::moves::live_link_sets(after.session_list()))
    &&& after.render_request_list() == before.render_request_list().push(crate::state::RenderRequest {
        session_id: Some(sb.id),
        reason: crate::render::RenderInvalidation(if layout { 3u8 } else { 1u8 }),
    })
    &&& after.next_winlink_id_spec() == before.next_winlink_id_spec() + 1
}

/// What the link of a new window does to `before`: with `replace`, a link
/// already at `index` in the session at `pos` is removed first (its window
/// called `replaced_name`), then the new link is placed (see
/// [`link_placed`]), owing a layout redraw too when `select` or when the
/// session had no windows.
pub open spec fn new_window_linked(before: ServerState, after: ServerState, pos: usize, index: u32, window_id: u32, replace: bool, select: bool, window_name: Option<Seq<char>>, replaced_name: Option<Seq<char>>) -> bool {
    let sb = before.session_list()[pos as int];
    let occupied = link_indices(sb.windows@).index_of_first(index);
    exists|mid: ServerState| #![trigger mid.session_list()] {
        &&& if replace && occupied is Some {
            &&& link_removed(before, mid.session_list(), mid.notifications(), pos, (occupied->0) as usize, replaced_name)
            &&& mid.groups() == before.groups()
            &&& mid.render_request_list() == before.render_request_list()
            &&& mid.deferring() == before.deferring()
            &&& mid.next_winlink_id_spec() == before.next_winlink_id_spec()
        } else {
            mid == before
        }
        &&& link_placed(mid, after, pos, index, window_id, select, window_name, select || sb.windows@.len() == 0)
    }
}

/// `sessions` and `notes` are the sessions and notifications after the
/// link at `position` of the session at `session` of `before` was removed;
/// see [`ServerState::remove_link`].
pub open spec fn link_removed(before: ServerState, sessions: Seq<Session>, notes: Seq<Notification>, session: usize, position: usize, window_name: Option<Seq<char>>) -> bool {
    let s0 = before.session_list()[session as int];
    let w = s0.windows@.remove(position as int);
    let now = sessions[session as int];
    &&& sessions.len() == before.session_list().len()
    &&& reselected(s0, now)
    &&& selection(now) == crate::winlinks::installed(s0, w)
    &&& forall|j: int| 0 <= j < before.session_list().len() && j != session ==> {
        let b = #[trigger] before.session_list()[j];
        let a = sessions[j];
        if before.groups().contains_key(s0.link_set_id) && group_member(b, s0) {
            reselected(b, a) && selection(a) == crate::winlinks::installed(b, w)
        } else {
            a == b
        }
    }
    &&& notes.drop_last() == before.notifications()
    &&& notes.len() == before.notifications().len() + 1
    &&& is_window_notification(notes.last(), "window-unlinked"@, sessions, s0.id, s0.windows@[position as int].id,
        window_name, before.deferring())
}


/// Where `new-window` on the session `session` names puts its window: the
/// session's position and the index, `explicit` when given (refused when in
/// use, unless `replace`), else one past the highest index, starting from
/// `base` ([`appended_index`]).
pub open spec fn new_window_slot_chosen(sessions: Seq<Session>, session: Seq<char>, explicit: Option<u32>, replace: bool, base: u32, result: Result<(usize, u32), StateError>) -> bool {
    match crate::state::session_position(sessions, session) {
        None => crate::state::fails_not_found(result, "can't find session: "@ + session),
        Some(p) => {
            let links = sessions[p].windows@;
            match explicit {
                Some(i) => if !replace && link_indices(links).contains(i) {
                    &&& result is Err
                    &&& is_already_exists(result->Err_0, "create window failed: index "@ + decimal(i as nat) + " in use"@)
                } else {
                    result == Ok::<(usize, u32), StateError>((p as usize, i))
                },
                None => result == Ok::<(usize, u32), StateError>((p as usize, appended_index(links, base))),
            }
        },
    }
}

/// The highest index among `links`, if any.
pub open spec fn highest_index(links: Seq<Winlink>) -> Option<u32>
    decreases links.len(),
{
    if links.len() == 0 {
        None
    } else {
        match highest_index(links.drop_last()) {
            Some(h) => Some(if links.last().index > h { links.last().index } else { h }),
            None => Some(links.last().index),
        }
    }
}

/// The index a window appended to `links` takes: one past the highest
/// index, and no lower than `base`.
pub open spec fn appended_index(links: Seq<Winlink>, base: u32) -> u32 {
    match highest_index(links) {
        Some(h) => if h + 1 > base { (h + 1) as u32 } else { base },
        None => base,
    }
}

/// The highest index among `links`, if any.
fn highest_link_index(links: &Vec<Winlink>) -> (h: Option<u32>)
    ensures
        h == highest_index(links@),
{
    let mut h: Option<u32> = None;
    let mut i: usize = 0;
    while i < links.len()
        invariant
            i <= links@.len(),
            h == highest_index(links@.take(i as int)),
        decreases links.len() - i,
    {
        proof {
            assert(links@.take(i + 1).drop_last() =~= links@.take(i as int));
        }
        let x = links[i].index;
        h = match h {
            Some(v) => Some(if x > v { x } else { v }),
            None => Some(x),
        };
        i += 1;
    }
    proof {
        assert(links@.take(i as int) =~= links@);
    }
    h
}

/// Whether the session at `p` of `sessions` has a free index from `base`.
pub open spec fn free_from(sessions: Seq<Session>, p: int, base: u32) -> bool {
    exists|k: u32| base <= k && !link_indices(sessions[p].windows@).contains(k)
}

/// Where `new-window -a` (`after`) or `-b` next to the window at index
/// `anchor` of the session `session` names puts the new window: the
/// session's position, the index the window takes (just after the anchor, or
/// the anchor's own), and the first free index from there, up to which the
/// windows move up by one.
pub open spec fn relative_slot_chosen(sessions: Seq<Session>, session: Seq<char>, anchor: u32, after: bool, result: Result<(usize, u32, u32), StateError>) -> bool {
    match crate::state::session_position(sessions, session) {
        None => crate::state::fails_not_found(result, "can't find session: "@ + session),
        Some(p) => {
            let links = sessions[p].windows@;
            if !link_indices(links).contains(anchor) {
                crate::state::fails_not_found(result, "can't find window: "@ + decimal(anchor as nat))
            } else {
                let desired = (if after { anchor + 1 } else { anchor as int }) as u32;
                result matches Ok((q, d, f)) && q == p && d == desired && first_free_at(links, desired, f)
            }
        },
    }
}

/// What linking a new window next to an anchor does to `before`: the
/// windows of the session at `pos` from `desired` up to `free` move up by
/// one, then the link of `window_id` goes in at `desired` with
/// [`ServerState::insert_link`], owing the session a status redraw, and a
/// layout one too when `select`.
pub open spec fn relative_window_linked(before: ServerState, after: ServerState, pos: usize, desired: u32, free: u32, window_id: u32, select: bool, window_name: Option<Seq<char>>) -> bool {
    let sb = before.session_list()[pos as int];
    let link = Winlink { link_id: before.next_winlink_id_spec(), index: desired, id: window_id, alert_flags: 0 };
    exists|mid: ServerState| #![trigger mid.session_list()] {
        &&& before.same_but_sessions(&mid)
        &&& mid.session_list().len() == before.session_list().len()
        &&& forall|j: int| 0 <= j < mid.session_list().len() && j != pos
            ==> mid.session_list()[j] == before.session_list()[j]
        &&& rewindowed(sb, mid.session_list()[pos as int])
        &&& mid.session_list()[pos as int].windows@ == shuffled(sb.windows@, desired, free)
        &&& link_inserted(mid, after.session_list(), after.notifications(), pos,
            leading_below(shuffled(sb.windows@, desired, free), desired) as usize, link, select, window_name)
        &&& after.groups() == before.groups()
        &&& after.next_winlink_id_spec() == before.next_winlink_id_spec() + 1
        &&& after.render_request_list() == before.render_request_list().push(crate::state::RenderRequest {
            session_id: Some(sb.id),
            reason: crate::render::RenderInvalidation(if select { 3u8 } else { 1u8 }),
        })
    }
}

/// How many links at the front of `links` have an index below `index`.
pub(crate) fn count_leading_below(links: &Vec<Winlink>, index: u32) -> (n: usize)
    ensures
        n == leading_below(links@, index),
{
    let mut i: usize = 0;
    proof {
        assert(links@.skip(0) =~= links@);
    }
    while i < links.len() && links[i].index < index
        invariant
            i <= links@.len(),
            leading_below(links@, index) == i + leading_below(links@.skip(i as int), index),
        decreases links.len() - i,
    {
        proof {
            let rest = links@.skip(i as int);
            assert(rest[0] == links@[i as int]);
            assert(rest.drop_first() =~= links@.skip(i + 1));
        }
        i += 1;
    }
    proof {
        let rest = links@.skip(i as int);
        if i < links@.len() {
            assert(rest[0] == links@[i as int]);
        }
    }
    i
}


/// The index a link or move destination gets: the one asked for, else the
/// first index from `base` (the `base-index` option) that no link has.
pub open spec fn destination_index(links: Seq<Winlink>, index: Option<u32>, base: u32) -> u32 {
    match index {
        Some(i) => i,
        None => choose|f: u32| first_free_at(links, base, f),
    }
}

/// `after` is `before` after `link-window` of the window at `src` into the
/// session at `dst`; see [`ServerState::link_window`].
pub open spec fn window_linked(
    before: ServerState,
    after: ServerState,
    src: Target,
    dst: usize,
    index: Option<u32>,
    base: u32,
    kill: bool,
    select: bool,
    window_name: Option<Seq<char>>,
    displaced_name: Option<Seq<char>>,
    result: Result<(), StateError>,
) -> bool {
    let sa = before.session_list()[src.session as int];
    let sb = before.session_list()[dst as int];
    let wid = sa.windows@[src.window as int].id;
    let i = destination_index(sb.windows@, index, base);
    let occupied = link_indices(sb.windows@).index_of_first(i);
    if src.session != dst && sa.link_set_id == sb.link_set_id {
        &&& fails_refused(result, "sessions are grouped"@)
        &&& after == before
    } else if occupied is Some && sb.windows@[occupied->0].id == wid {
        &&& fails_refused(result, "same index: "@ + decimal(i as nat))
        &&& after == before
    } else if occupied is Some && !kill {
        &&& result is Err
        &&& is_already_exists(result->Err_0, "index in use: "@ + decimal(i as nat))
        &&& after == before
    } else if occupied is Some {
        &&& result is Ok
        &&& exists|mid: ServerState| {
            &&& link_removed(before, mid.session_list(), mid.notifications(), dst, (occupied->0) as usize, displaced_name)
            &&& mid.groups() == before.groups()
            &&& mid.render_request_list() == before.render_request_list()
            &&& mid.deferring() == before.deferring()
            &&& mid.next_winlink_id_spec() == before.next_winlink_id_spec()
            &&& linked_at(mid, after, dst, i, wid, select, window_name)
        }
    } else {
        &&& result is Ok
        &&& linked_at(before, after, dst, i, wid, select, window_name)
    }
}

/// `a` is `b` with another window list.
pub open spec fn rewindowed(a: Session, b: Session) -> bool {
    Session { windows: b.windows, ..a } == b
}


/// How many links of `links` show the window `id`.
pub open spec fn window_link_count(links: Seq<Winlink>, id: u32) -> nat
    decreases links.len(),
{
    if links.len() == 0 {
        0
    } else {
        window_link_count(links.drop_last(), id) + if links.last().id == id { 1nat } else { 0nat }
    }
}

/// How many links of `sessions` show the window `id`.
pub open spec fn window_references(sessions: Seq<Session>, id: u32) -> nat
    decreases sessions.len(),
{
    if sessions.len() == 0 {
        0
    } else {
        window_references(sessions.drop_last(), id) + window_link_count(sessions.last().windows@, id)
    }
}

/// The sessions of `sessions` at `positions`, in order.
pub open spec fn at_positions(sessions: Seq<Session>, positions: Seq<int>) -> Seq<Session> {
    Seq::new(positions.len(), |i: int| sessions[positions[i]])
}

/// A redraw owed to each of the sessions `ids`: layout and status for
/// those among `sessions`, `session gone` for the others.
pub open spec fn affected_requests(ids: Seq<u32>, sessions: Seq<Session>) -> Seq<crate::state::RenderRequest> {
    Seq::new(ids.len(), |i: int| crate::state::RenderRequest {
        session_id: Some(ids[i]),
        reason: RenderInvalidation(if session_ids(sessions).contains(ids[i]) { 3u8 } else { 4u8 }),
    })
}


proof fn lemma_window_link_count_prefix(links: Seq<Winlink>, k: int, id: u32)
    requires
        0 <= k <= links.len(),
    ensures
        window_link_count(links.take(k), id) <= window_link_count(links, id),
    decreases links.len(),
{
    if k < links.len() {
        assert(links.drop_last().take(k) =~= links.take(k));
        lemma_window_link_count_prefix(links.drop_last(), k, id);
    } else {
        assert(links.take(k) =~= links);
    }
}

proof fn lemma_window_references_prefix(sessions: Seq<Session>, k: int, id: u32)
    requires
        0 <= k <= sessions.len(),
    ensures
        window_references(sessions.take(k), id) <= window_references(sessions, id),
    decreases sessions.len(),
{
    if k < sessions.len() {
        assert(sessions.drop_last().take(k) =~= sessions.take(k));
        lemma_window_references_prefix(sessions.drop_last(), k, id);
    } else {
        assert(sessions.take(k) =~= sessions);
    }
}

impl ServerState {
    /// tmux's `notify_session_window`: the event `name` about the window
    /// `window_id` in the session `session_id`; the window's name is
    /// `window_name` when the window is known.
    pub fn notify_session_window(&mut self, name: &str, session_id: u32, window_id: u32, window_name: Option<&str>)
        ensures
            old(self).same_but_notifications(final(self)),
            final(self).session_list() == old(self).session_list(),
            final(self).render_request_list() == old(self).render_request_list(),
            final(self).wf() == old(self).wf(),
            final(self).notifications().drop_last() == old(self).notifications(),
            final(self).notifications().len() == old(self).notifications().len() + 1,
            is_window_notification(final(self).notifications().last(), name@, old(self).session_list(), session_id,
                window_id, match window_name { Some(w) => Some(w@), None => None }, old(self).deferring()),
    {
        let found = position_of_id(&self.sessions, session_id);
        proof {
            session_ids(self.sessions@).index_of_first_ensures(session_id);
        }
        let mut vars: Vec<(String, String)> = Vec::new();
        let mut target: Option<String> = None;
        match found {
            Some(p) => {
                vars.push((owned("hook_session"), session_tag(session_id)));
                vars.push((owned("hook_session_name"), self.sessions[p].name.clone()));
                let mut t = session_tag(session_id);
                if links_window(&self.sessions[p].windows, window_id) {
                    push_text(&mut t, ":@");
                    push_decimal(&mut t, window_id as u64);
                }
                target = Some(t);
            },
            None => {},
        }
        let ghost session_vars = vars@;
        match window_name {
            Some(w) => {
                let mut wtag = String::new();
                push_text(&mut wtag, "@");
                push_decimal(&mut wtag, window_id as u64);
                vars.push((owned("hook_window"), wtag));
                vars.push((owned("hook_window_name"), owned(w)));
            },
            None => {},
        }
        proof {
            let wn = match window_name { Some(w) => Some(w@), None => None };
            assert(var_texts(vars@) =~= window_vars(self.sessions@, session_id, window_id, wn));
        }
        let ghost given = vars@;
        self.notify(name, target, vars);
        proof {
            let n = self.pending_notifications@.last();
            let wn = match window_name { Some(w) => Some(w@), None => None };
            assert(n.vars@ =~= seq![n.vars@[0]] + given);
            assert(var_texts(n.vars@) =~= seq![("hook"@, name@)] + var_texts(given));
            assert(self.pending_notifications@.drop_last() =~= self.pending_notifications@.take(old(self).pending_notifications@.len() as int));
        }
    }

    /// Insert the link `link` at `position` of the session at `session`:
    /// its current window stays current, its group follows, and
    /// `window-linked` is raised (the window being called `window_name`
    /// when known). With `select`, or when the session had no windows, the
    /// new link then becomes current, raising `session-window-changed`.
    #[verifier::spinoff_prover]
    #[verifier::rlimit(50)]
    pub fn insert_link(&mut self, session: usize, position: usize, link: Winlink, select: bool, window_name: Option<&str>)
        requires
            old(self).wf(),
            session < old(self).session_list().len(),
            position <= old(self).session_list()[session as int].windows@.len(),
        ensures
            final(self).wf(),
            final(self).render_request_list() == old(self).render_request_list(),
            final(self).groups() == old(self).groups(),
            final(self).next_winlink_id_spec() == old(self).next_winlink_id_spec(),
            final(self).deferring() == old(self).deferring(),
            link_inserted(*old(self), final(self).session_list(), final(self).notifications(), session, position, link,
                select, match window_name { Some(n) => Some(n@), None => None }),
    {
        let link_id = link.link_id;
        let had_windows = self.sessions[session].windows.len() > 0;
        let ghost s0 = *self;
        let mut s = self.take_session(session);
        proof {
            assert(session_wf(s0.sessions@[session as int]));
        }
        let active_id: Option<u64> = if s.active < s.windows.len() { Some(s.windows[s.active].link_id) } else { None };
        s.windows.insert(position, link);
        let active = match active_id {
            Some(id) => match position_of_link(&s.windows, id) {
                Some(p) => p,
                None => 0,
            },
            None => 0,
        };
        proof {
            link_ids(s.windows@).index_of_first_ensures(link_id);
            if let Some(id) = active_id {
                link_ids(s.windows@).index_of_first_ensures(id);
                let k = if s0.sessions@[session as int].active < position { s0.sessions@[session as int].active as int } else { s0.sessions@[session as int].active + 1 };
                assert(link_ids(s.windows@)[k] == id);
            }
        }
        s.active = active;
        refresh_last_window(&mut s);
        self.sessions.insert(session, s);
        proof {
            self.lemma_replaced_session_wf(s0.sessions@, session as int);
        }
        let ghost s1 = *self;
        self.synchronize_group_from(session);
        let ghost s2 = *self;
        let p = match position_of_link(&self.sessions[session].windows, link_id) {
            Some(p) => p,
            None => 0,
        };
        proof {
            assert(link_ids(self.sessions@[session as int].windows@)[position as int] == link_id);
            link_ids(self.sessions@[session as int].windows@).index_of_first_ensures(link_id);
        }
        let session_id = self.sessions[session].id;
        let window_id = self.sessions[session].windows[p].id;
        self.notify_session_window("window-linked", session_id, window_id, window_name);
        let ghost s3 = *self;
        if select || !had_windows {
            self.select_session_window(session, p);
        }
        proof {
            s0.lemma_same_groups(&s1);
            s1.lemma_same_groups(&s2);
            assert(s3.session_groups == s2.session_groups);
            s3.lemma_groups_held();
            s2.lemma_groups_held();
            self.lemma_groups_held();
            let s0s = s0.sessions@[session as int];
            let linked = linked_selection(s0s, position as int, link);
            assert(selection(s1.sessions@[session as int]) == linked);
            assert(s2.sessions@[session as int] == s1.sessions@[session as int]);
            assert(s3.sessions@ == s2.sessions@);
            let w = linked.0;
            assert(s3.sessions@[session as int].windows@ == w);
            assert(p == link_position(w, link_id));
            assert(reselected(s0s, self.sessions@[session as int]));
            let chosen = select || s0s.windows@.len() == 0;
            assert(selection(self.sessions@[session as int]) == if chosen { select_in(linked, link_position(w, link_id)) } else { linked });
            assert(s3.pending_notifications@.take(s0.pending_notifications@.len() as int) == s0.pending_notifications@);
            assert(self.pending_notifications@.take(s0.pending_notifications@.len() as int) == s0.pending_notifications@);
            assert forall|j: int| 0 <= j < s0.sessions@.len() && j != session implies {
                let before = #[trigger] s0.session_list()[j];
                let after = self.session_list()[j];
                if s0.groups().contains_key(s0s.link_set_id) && group_member(before, s0s) {
                    reselected(before, after) && selection(after) == crate::winlinks::installed(before, w)
                } else {
                    after == before
                }
            } by {
                assert(s1.sessions@[j] == s0.sessions@[j]);
                assert(s2.session_list()[j] == s2.sessions@[j]);
                assert(self.sessions@[j] == s3.sessions@[j]);
                assert(group_member(s0.sessions@[j], s0s) == group_member(s1.sessions@[j], s1.sessions@[session as int]));
            }
            let wn = match window_name { Some(n) => Some(n@), None => None };
            let n = s3.pending_notifications@.last();
            assert(self.pending_notifications@[s0.pending_notifications@.len() as int] == n);
            assert(session_ids(self.sessions@) =~= session_ids(s3.sessions@)) by {
                assert forall|j: int| 0 <= j < self.sessions@.len() implies #[trigger] self.sessions@[j].id == s3.sessions@[j].id by {
                    if j != session {
                        assert(self.sessions@[j] == s3.sessions@[j]);
                    }
                }
            }
            let fin = self.sessions@[session as int];
            let mid = s3.sessions@[session as int];
            assert(fin.name == mid.name);
            assert(fin.windows@.map_values(|l: Winlink| l.id) =~= mid.windows@.map_values(|l: Winlink| l.id)) by {
                assert(fin.windows@.len() == mid.windows@.len());
                assert forall|k: int| 0 <= k < fin.windows@.len() implies #[trigger] fin.windows@[k].id == mid.windows@[k].id by {}
            }
            session_ids(self.sessions@).index_of_first_ensures(s0s.id);
            if let Some(q) = session_ids(self.sessions@).index_of_first(s0s.id) {
                if q != session {
                    assert(self.sessions@[q] == s3.sessions@[q]);
                }
            }
            assert(window_vars(self.sessions@, s0s.id, window_id, wn) == window_vars(s3.sessions@, s0s.id, window_id, wn));
            assert(window_target(self.sessions@, s0s.id, window_id) == window_target(s3.sessions@, s0s.id, window_id));
        }
    }

    /// Link the window `window_id` into the session at `dst` at the index
    /// `index` (which the caller has left free), keeping the set ordered by
    /// index: a new link gets the next link identity and goes in with
    /// [`Self::insert_link`]. Groups without sessions are forgotten and the
    /// session's clients are owed a status redraw, and a layout one too
    /// when `select`.
    pub fn link_window_at(&mut self, dst: usize, index: u32, window_id: u32, select: bool, window_name: Option<&str>) -> (result: Result<(), StateError>)
        requires
            old(self).wf(),
            dst < old(self).session_list().len(),
            old(self).next_winlink_id_spec() < u64::MAX,
        ensures
            final(self).wf(),
            result is Ok,
            linked_at(*old(self), *final(self), dst, index, window_id, select,
                match window_name { Some(n) => Some(n@), None => None }),
    {
        self.place_link(dst, index, window_id, select, select, window_name);
        Ok(())
    }

    /// Link the window `window_id` into the session at `dst` at `index`, as
    /// [`Self::link_window_at`] does, owing a layout and status redraw when
    /// `layout` and a status one otherwise. The position the link took.
    fn place_link(&mut self, dst: usize, index: u32, window_id: u32, select: bool, layout: bool, window_name: Option<&str>) -> (position: usize)
        requires
            old(self).wf(),
            dst < old(self).session_list().len(),
            old(self).next_winlink_id_spec() < u64::MAX,
        ensures
            final(self).wf(),
            position == leading_below(old(self).session_list()[dst as int].windows@, index),
            link_placed(*old(self), *final(self), dst, index, window_id, select,
                match window_name { Some(n) => Some(n@), None => None }, layout),
    {
        let session_id = self.sessions[dst].id;
        let winlink_id = self.next_winlink_id;
        self.next_winlink_id = self.next_winlink_id + 1;
        let position = count_leading_below(&self.sessions[dst].windows, index);
        proof {
            lemma_leading_below_bound(self.sessions@[dst as int].windows@, index);
        }
        let ghost s1 = *self;
        self.insert_link(dst, position, Winlink { link_id: winlink_id, index, id: window_id, alert_flags: 0 }, select, window_name);
        let ghost s2 = *self;
        proof {
            s2.lemma_groups_held();
            s1.lemma_groups_held();
            old(self).lemma_groups_held();
        }
        self.prune_groups();
        let reason = if layout {
            assert(2u8 | 1u8 == 3u8) by (bit_vector);
            RenderInvalidation::layout().bitor(RenderInvalidation::status())
        } else {
            RenderInvalidation::status()
        };
        let ghost s3 = *self;
        self.invalidate_session(session_id, reason);
        proof {
            self.lemma_groups_held();
            s3.lemma_groups_held();
            assert(self.session_groups == s3.session_groups);
            assert(self.next_winlink_id == s1.next_winlink_id);
        }
        position
    }

    /// Remove the link at `position` of the session at `session`: the
    /// session and its group take the remaining links by index, and
    /// `window-unlinked` is raised about its window (called `window_name`
    /// when known). The removed link.
    pub fn remove_link(&mut self, session: usize, position: usize, window_name: Option<&str>) -> (removed: Winlink)
        requires
            old(self).wf(),
            session < old(self).session_list().len(),
            position < old(self).session_list()[session as int].windows@.len(),
        ensures
            final(self).wf(),
            final(self).render_request_list() == old(self).render_request_list(),
            final(self).groups() == old(self).groups(),
            final(self).deferring() == old(self).deferring(),
            final(self).next_winlink_id_spec() == old(self).next_winlink_id_spec(),
            final(self).shutdown_requested_spec() == old(self).shutdown_requested_spec(),
            removed == old(self).session_list()[session as int].windows@[position as int],
            link_removed(*old(self), final(self).session_list(), final(self).notifications(), session, position,
                match window_name { Some(n) => Some(n@), None => None }),
    {
        let session_id = self.sessions[session].id;
        let mut links = crate::state::windows::copy_links(&self.sessions[session].windows);
        let removed = links.remove(position);
        let ghost s0 = *self;
        self.replace_link_set(session, links);
        let ghost s1 = *self;
        self.notify_session_window("window-unlinked", session_id, removed.id, window_name);
        proof {
            s0.lemma_same_groups(&s1);
            self.lemma_groups_held();
            s1.lemma_groups_held();
            assert(self.session_groups == s1.session_groups);
        }
        removed
    }

    /// `link-window` on a resolved source: link the window at `src` into
    /// the session at `dst` at the index `index`, or without one at the
    /// first free index from `base`. A window already there is unlinked
    /// first when `kill` (`-k`, raising `window-unlinked` about it, called
    /// `displaced_name` when known), else the link is refused; linking a
    /// window onto its own index, or between sessions of one group, is
    /// refused too. See [`Self::link_window_at`] for the rest.
    pub fn link_window(
        &mut self,
        src: Target,
        dst: usize,
        index: Option<u32>,
        base: u32,
        kill: bool,
        select: bool,
        window_name: Option<&str>,
        displaced_name: Option<&str>,
    ) -> (result: Result<(), StateError>)
        requires
            old(self).wf(),
            src.session < old(self).session_list().len(),
            src.window < old(self).session_list()[src.session as int].windows@.len(),
            dst < old(self).session_list().len(),
            old(self).next_winlink_id_spec() < u64::MAX,
            index is None ==> exists|k: u32| base <= k && !link_indices(old(self).session_list()[dst as int].windows@).contains(k),
        ensures
            final(self).wf(),
            window_linked(*old(self), *final(self), src, dst, index, base, kill, select,
                match window_name { Some(n) => Some(n@), None => None },
                match displaced_name { Some(n) => Some(n@), None => None }, result),
    {
        let source_window_id = self.sessions[src.session].windows[src.window].id;
        let ghost sb = self.sessions@[dst as int];
        let index = match index {
            Some(i) => i,
            None => {
                let f = first_free_index(&self.sessions[dst].windows, base);
                proof {
                    let c = choose|g: u32| first_free_at(sb.windows@, base, g);
                    assert(first_free_at(sb.windows@, base, c));
                    if c < f {
                        assert(link_indices(sb.windows@).contains(c));
                    } else if f < c {
                        assert(link_indices(sb.windows@).contains(f));
                    }
                }
                f
            },
        };
        if src.session != dst && self.sessions[src.session].link_set_id == self.sessions[dst].link_set_id {
            let mut m = String::new();
            push_text(&mut m, "sessions are grouped");
            return Err(StateError::Refused(m));
        }
        match position_of_index(&self.sessions[dst].windows, index) {
            Some(pos) => {
                proof {
                    link_indices(self.sessions@[dst as int].windows@).index_of_first_ensures(index);
                }
                if self.sessions[dst].windows[pos].id == source_window_id {
                    let mut m = String::new();
                    push_text(&mut m, "same index: ");
                    push_decimal(&mut m, index as u64);
                    return Err(StateError::Refused(m));
                }
                if !kill {
                    let mut m = String::new();
                    push_text(&mut m, "index in use: ");
                    push_decimal(&mut m, index as u64);
                    return Err(StateError::AlreadyExists(m));
                }
                self.remove_link(dst, pos, displaced_name);
                let ghost mid = *self;
                let result = self.link_window_at(dst, index, source_window_id, select, window_name);
                proof {
                    assert(linked_at(mid, *self, dst, index, source_window_id, select,
                        match window_name { Some(n) => Some(n@), None => None }));
                }
                result
            },
            None => {
                proof {
                    link_indices(self.sessions@[dst as int].windows@).index_of_first_ensures(index);
                }
                self.link_window_at(dst, index, source_window_id, select, window_name)
            },
        }
    }

    /// `link-window -a`/`-b` on a resolved source: link the window at `src`
    /// beside the window with index `anchor` in the session at `dst`, after
    /// it (`-a`, `after`) or at its index (`-b`); the run of used indices
    /// from there up moves up by one to open the slot, in that session
    /// alone. Without a window at `anchor` it is a plain `link-window` to
    /// that index. Linking between sessions of one group is refused.
    pub fn link_window_relative(
        &mut self,
        src: Target,
        dst: usize,
        anchor: Option<u32>,
        after: bool,
        select: bool,
        window_name: Option<&str>,
    ) -> (result: Result<(), StateError>)
        requires
            old(self).wf(),
            src.session < old(self).session_list().len(),
            src.window < old(self).session_list()[src.session as int].windows@.len(),
            dst < old(self).session_list().len(),
            old(self).next_winlink_id_spec() < u64::MAX,
            match anchor {
                Some(a) => link_indices(old(self).session_list()[dst as int].windows@).contains(a) ==> {
                    let desired = if after { a + 1 } else { a as int };
                    &&& desired <= u32::MAX
                    &&& exists|k: u32| desired <= k && !link_indices(old(self).session_list()[dst as int].windows@).contains(k)
                },
                None => true,
            },
        ensures
            final(self).wf(),
            ({
                let sa = old(self).session_list()[src.session as int];
                let sb = old(self).session_list()[dst as int];
                let wid = sa.windows@[src.window as int].id;
                let wn = match window_name { Some(n) => Some(n@), None => None };
                if src.session != dst && sa.link_set_id == sb.link_set_id {
                    &&& fails_refused(result, "sessions are grouped"@)
                    &&& *final(self) == *old(self)
                } else if anchor is None {
                    &&& fails_invalid(result, "link-window: missing destination index"@)
                    &&& *final(self) == *old(self)
                } else if !link_indices(sb.windows@).contains(anchor->0) {
                    window_linked(*old(self), *final(self), src, dst, anchor, 0, false, select, wn, None, result)
                } else {
                    let desired = (if after { anchor->0 + 1 } else { anchor->0 as int }) as u32;
                    let free = choose|f: u32| first_free_at(sb.windows@, desired, f);
                    &&& result is Ok
                    &&& exists|mid: ServerState| {
                        &&& old(self).same_but_sessions(&mid)
                        &&& mid.session_list().len() == old(self).session_list().len()
                        &&& forall|j: int| 0 <= j < mid.session_list().len() && j != dst
                            ==> mid.session_list()[j] == old(self).session_list()[j]
                        &&& rewindowed(sb, mid.session_list()[dst as int])
                        &&& mid.session_list()[dst as int].windows@ == shuffled(sb.windows@, desired, free)
                        &&& linked_at(mid, *final(self), dst, desired, wid, select, wn)
                    }
                }
            }),
    {
        let source_window_id = self.sessions[src.session].windows[src.window].id;
        if src.session != dst && self.sessions[src.session].link_set_id == self.sessions[dst].link_set_id {
            let mut m = String::new();
            push_text(&mut m, "sessions are grouped");
            return Err(StateError::Refused(m));
        }
        let anchor = match anchor {
            Some(a) => a,
            None => {
                let mut m = String::new();
                push_text(&mut m, "link-window: missing destination index");
                return Err(StateError::Invalid(m));
            },
        };
        match position_of_index(&self.sessions[dst].windows, anchor) {
            None => {
                proof {
                    link_indices(self.sessions@[dst as int].windows@).index_of_first_ensures(anchor);
                }
                return self.link_window(src, dst, Some(anchor), 0, false, select, window_name, None);
            },
            Some(_) => {
                proof {
                    link_indices(self.sessions@[dst as int].windows@).index_of_first_ensures(anchor);
                }
            },
        }
        let desired = if after { anchor + 1 } else { anchor };
        let free = first_free_index(&self.sessions[dst].windows, desired);
        let ghost sb = self.sessions@[dst as int];
        proof {
            let c = choose|g: u32| first_free_at(sb.windows@, desired, g);
            assert(first_free_at(sb.windows@, desired, c));
            if c < free {
                assert(link_indices(sb.windows@).contains(c));
            } else if free < c {
                assert(link_indices(sb.windows@).contains(free));
            }
        }
        let mut session = self.take_session(dst);
        proof {
            assert(session_wf(old(self).sessions@[dst as int]));
        }
        session.windows = shuffle(&session.windows, desired, free);
        self.sessions.insert(dst, session);
        proof {
            self.lemma_replaced_session_wf(old(self).sessions@, dst as int);
        }
        let ghost mid = *self;
        let result = self.link_window_at(dst, desired, source_window_id, select, window_name);
        proof {
            assert(old(self).same_but_sessions(&mid));
            assert forall|j: int| 0 <= j < mid.session_list().len() && j != dst implies
                mid.session_list()[j] == old(self).session_list()[j] by {}
        }
        result
    }

    /// `new-window` before its pane is made: the position of the session
    /// `session` names and the index the window takes (see
    /// [`new_window_slot_chosen`]). The caller then starts the pane and
    /// links the window with [`Self::new_window_link`].
    pub fn new_window_slot(&self, session: &str, explicit: Option<u32>, replace: bool, base: u32) -> (result: Result<(usize, u32), StateError>)
        requires
            explicit is None ==> match crate::state::session_position(self.session_list(), session@) {
                Some(p) => highest_index(self.session_list()[p].windows@) != Some(u32::MAX),
                None => true,
            },
        ensures
            new_window_slot_chosen(self.session_list(), session@, explicit, replace, base, result),
    {
        let pos = match self.session_index(session) {
            Some(p) => p,
            None => return Err(crate::state::not_found("can't find session: ", session)),
        };
        proof {
            crate::state::lemma_session_position_bounds(self.sessions@, session@);
            assert(self.session_list()[pos as int] == self.sessions@[pos as int]);
            assert(self.sessions@.len() == self.sessions.len());
            assert(self.session_list() == self.sessions@);
            assert(crate::state::session_position(self.session_list(), session@) == Some(pos as int));
        }
        match explicit {
            Some(i) => {
                let found = position_of_index(&self.sessions[pos].windows, i);
                proof {
                    link_indices(self.sessions@[pos as int].windows@).index_of_first_ensures(i);
                }
                if !replace && found.is_some() {
                    let mut m = String::new();
                    push_text(&mut m, "create window failed: index ");
                    push_decimal(&mut m, i as u64);
                    push_text(&mut m, " in use");
                    proof {
                        assert(link_indices(self.sessions@[pos as int].windows@).contains(i));
                    }
                    return Err(StateError::AlreadyExists(m));
                }
                proof {
                    if !replace {
                        assert(!link_indices(self.sessions@[pos as int].windows@).contains(i));
                    }
                }
                Ok((pos, i))
            },
            None => {
                let k = match highest_link_index(&self.sessions[pos].windows) {
                    Some(h) => if h + 1 > base { h + 1 } else { base },
                    None => base,
                };
                Ok((pos, k))
            },
        }
    }

    /// `new-window` once its pane runs: link the window `window_id` into
    /// the session at `pos` at `index` (see [`new_window_linked`]); with
    /// `replace` a link already there is removed first, its window called
    /// `replaced_name`. The position the new link took.
    pub fn new_window_link(
        &mut self,
        pos: usize,
        index: u32,
        window_id: u32,
        replace: bool,
        select: bool,
        window_name: Option<&str>,
        replaced_name: Option<&str>,
    ) -> (position: usize)
        requires
            old(self).wf(),
            pos < old(self).session_list().len(),
            old(self).next_winlink_id_spec() < u64::MAX,
        ensures
            final(self).wf(),
            new_window_linked(*old(self), *final(self), pos, index, window_id, replace, select,
                match window_name { Some(n) => Some(n@), None => None },
                match replaced_name { Some(n) => Some(n@), None => None }),
    {
        let had_windows = self.sessions[pos].windows.len() > 0;
        let ghost start = *self;
        let ghost rn = match replaced_name { Some(n) => Some(n@), None => None };
        if replace {
            let found = position_of_index(&self.sessions[pos].windows, index);
            proof {
                link_indices(self.sessions@[pos as int].windows@).index_of_first_ensures(index);
            }
            match found {
                Some(p) => {
                    self.remove_link(pos, p, replaced_name);
                },
                None => {},
            }
        }
        let ghost mid = *self;
        let position = self.place_link(pos, index, window_id, select, select || !had_windows, window_name);
        proof {
            assert(start.session_list()[pos as int].windows@.len() == start.sessions@[pos as int].windows@.len());
        }
        position
    }

    /// `new-window -a`/`-b` before its pane is made: see
    /// [`relative_slot_chosen`]. The caller then starts the pane and links
    /// the window with [`Self::new_window_relative_link`].
    pub fn new_window_relative_slot(&self, session: &str, anchor: u32, after: bool) -> (result: Result<(usize, u32, u32), StateError>)
        requires
            after ==> anchor < u32::MAX,
            match crate::state::session_position(self.session_list(), session@) {
                Some(p) => free_from(self.session_list(), p, (if after { anchor + 1 } else { anchor as int }) as u32),
                None => true,
            },
        ensures
            relative_slot_chosen(self.session_list(), session@, anchor, after, result),
    {
        let pos = match self.session_index(session) {
            Some(p) => p,
            None => return Err(crate::state::not_found("can't find session: ", session)),
        };
        proof {
            crate::state::lemma_session_position_bounds(self.sessions@, session@);
            assert(self.sessions@.len() == self.sessions.len());
            assert(self.session_list() == self.sessions@);
            assert(crate::state::session_position(self.session_list(), session@) == Some(pos as int));
        }
        let found = position_of_index(&self.sessions[pos].windows, anchor);
        proof {
            link_indices(self.sessions@[pos as int].windows@).index_of_first_ensures(anchor);
        }
        if found.is_none() {
            let mut m = String::new();
            push_text(&mut m, "can't find window: ");
            push_decimal(&mut m, anchor as u64);
            return Err(StateError::NotFound(m));
        }
        let desired = if after { anchor + 1 } else { anchor };
        let free = first_free_index(&self.sessions[pos].windows, desired);
        Ok((pos, desired, free))
    }

    /// `new-window -a`/`-b` once its pane runs: see
    /// [`relative_window_linked`]. The position the new link took.
    pub fn new_window_relative_link(
        &mut self,
        pos: usize,
        desired: u32,
        free: u32,
        window_id: u32,
        select: bool,
        window_name: Option<&str>,
    ) -> (position: usize)
        requires
            old(self).wf(),
            pos < old(self).session_list().len(),
            old(self).next_winlink_id_spec() < u64::MAX,
        ensures
            final(self).wf(),
            relative_window_linked(*old(self), *final(self), pos, desired, free, window_id, select,
                match window_name { Some(n) => Some(n@), None => None }),
    {
        let session_id = self.sessions[pos].id;
        let mut session = self.take_session(pos);
        proof {
            assert(session_wf(old(self).sessions@[pos as int]));
        }
        session.windows = shuffle(&session.windows, desired, free);
        self.sessions.insert(pos, session);
        proof {
            self.lemma_replaced_session_wf(old(self).sessions@, pos as int);
        }
        let ghost mid = *self;
        proof {
            assert(old(self).same_but_sessions(&mid));
            assert forall|j: int| 0 <= j < mid.session_list().len() && j != pos implies
                mid.session_list()[j] == old(self).session_list()[j] by {}
            mid.lemma_groups_held();
            old(self).lemma_groups_held();
        }
        let winlink_id = self.next_winlink_id;
        self.next_winlink_id = self.next_winlink_id + 1;
        let position = count_leading_below(&self.sessions[pos].windows, desired);
        proof {
            lemma_leading_below_bound(self.sessions@[pos as int].windows@, desired);
        }
        let ghost s1 = *self;
        self.insert_link(pos, position, Winlink { link_id: winlink_id, index: desired, id: window_id, alert_flags: 0 }, select, window_name);
        let reason = if select {
            assert(2u8 | 1u8 == 3u8) by (bit_vector);
            RenderInvalidation::layout().bitor(RenderInvalidation::status())
        } else {
            RenderInvalidation::status()
        };
        let ghost s2 = *self;
        self.invalidate_session(session_id, reason);
        proof {
            self.lemma_groups_held();
            s2.lemma_groups_held();
            s1.lemma_groups_held();
            assert(self.session_groups == s2.session_groups);
            assert(s1.session_groups == mid.session_groups);
            assert(link_inserted(s1, self.session_list(), self.notifications(), pos, position, Winlink {
                link_id: winlink_id, index: desired, id: window_id, alert_flags: 0 }, select,
                match window_name { Some(n) => Some(n@), None => None }));
        }
        position
    }

    /// How many links show the window `window_id`, over every session.
    pub fn window_reference_count(&self, window_id: u32) -> (n: usize)
        requires
            window_references(self.session_list(), window_id) <= usize::MAX,
        ensures
            n == window_references(self.session_list(), window_id),
    {
        let ghost all = self.sessions@;
        let mut n: usize = 0;
        let mut i: usize = 0;
        while i < self.sessions.len()
            invariant
                i <= all.len(),
                all == self.sessions@,
                window_references(all, window_id) <= usize::MAX,
                n == window_references(all.take(i as int), window_id),
            decreases self.sessions.len() - i,
        {
            proof {
                assert(all.take(i + 1).drop_last() =~= all.take(i as int));
                lemma_window_references_prefix(all, i + 1, window_id);
            }
            let links = &self.sessions[i].windows;
            let mut k: usize = 0;
            let ghost before = n;
            while k < links.len()
                invariant
                    k <= links@.len(),
                    n == before + window_link_count(links@.take(k as int), window_id),
                    before + window_link_count(links@, window_id) <= usize::MAX,
                decreases links.len() - k,
            {
                proof {
                    assert(links@.take(k + 1).drop_last() =~= links@.take(k as int));
                    lemma_window_link_count_prefix(links@, k + 1, window_id);
                }
                if links[k].id == window_id {
                    n = n + 1;
                }
                k += 1;
            }
            proof {
                assert(links@.take(k as int) =~= links@);
            }
            i += 1;
        }
        proof {
            assert(all.take(i as int) =~= all);
        }
        n
    }

    /// `unlink-window` on a resolved place: remove the link at `target`
    /// from its session and so from its group. Unless `kill`, a window
    /// whose only links are those of this group is refused. A group left
    /// without windows closes; groups without sessions are forgotten; when
    /// `renumber` (the `renumber-windows` option) the group's first
    /// remaining session is numbered again from `base`, owing a status
    /// redraw; a server left empty stops when `exit_empty`; and every
    /// session of the group is owed a layout and status redraw, or a
    /// `session gone` one when it closed.
    pub fn unlink_window(
        &mut self,
        target: Target,
        kill: bool,
        renumber: bool,
        base: u32,
        exit_empty: bool,
        window_name: Option<&str>,
    ) -> (result: Result<(), StateError>)
        requires
            old(self).wf(),
            target.session < old(self).session_list().len(),
            target.window < old(self).session_list()[target.session as int].windows@.len(),
            session_ids(old(self).session_list()).no_duplicates(),
            window_references(old(self).session_list(),
                old(self).session_list()[target.session as int].windows@[target.window as int].id) <= usize::MAX,
            renumber ==> forall|j: int| 0 <= j < old(self).session_list().len()
                && #[trigger] old(self).session_list()[j].link_set_id
                    == old(self).session_list()[target.session as int].link_set_id
                ==> base + old(self).session_list()[j].windows@.len() <= u32::MAX + 1,
        ensures
            final(self).wf(),
            ({
                let s0 = old(self).session_list()[target.session as int];
                let set = s0.link_set_id;
                let wid = s0.windows@[target.window as int].id;
                let members = crate::state::moves::matching_positions(crate::state::moves::link_set_ids(old(self).session_list()), set);
                if !kill && window_references(old(self).session_list(), wid) == members.len() {
                    &&& fails_refused(result, "window only linked to one session"@)
                    &&& *final(self) == *old(self)
                } else {
                    let affected = crate::state::lifecycle::ids_at(old(self).session_list(), members);
                    let w = s0.windows@.remove(target.window as int);
                    &&& result is Ok
                    &&& exists|mid: ServerState| #![trigger mid.session_list()] {
                        let kept = if w.len() == 0 {
                            at_positions(mid.session_list(), crate::state::moves::kept_positions(
                                crate::state::moves::link_set_ids(mid.session_list()), set))
                        } else {
                            mid.session_list()
                        };
                        let q = crate::state::moves::link_set_ids(kept).index_of_first(set);
                        let renumbered = renumber && q is Some;
                        &&& link_removed(*old(self), mid.session_list(), mid.notifications(), target.session,
                            target.window, match window_name { Some(n) => Some(n@), None => None })
                        &&& final(self).notifications() == mid.notifications()
                        &&& final(self).session_list().len() == kept.len()
                        &&& forall|i: int| 0 <= i < kept.len() ==> if renumbered && q == Some(i) {
                            &&& reselected(kept[i], #[trigger] final(self).session_list()[i])
                            &&& selection(final(self).session_list()[i]) == crate::winlinks::renumbered_selection(kept[i], base)
                        } else {
                            final(self).session_list()[i] == kept[i]
                        }
                        &&& final(self).groups() == old(self).groups().restrict(
                            crate::state::moves::live_link_sets(final(self).session_list()))
                        &&& final(self).shutdown_requested_spec() == (old(self).shutdown_requested_spec()
                            || (final(self).session_list().len() == 0 && exit_empty))
                        &&& final(self).render_request_list() == old(self).render_request_list()
                            + (if renumbered {
                                seq![crate::state::RenderRequest { session_id: Some(kept[q->0].id), reason: RenderInvalidation(1) }]
                            } else {
                                Seq::empty()
                            })
                            + affected_requests(affected, final(self).session_list())
                    }
                }
            }),
    {
        let had_sessions = self.sessions.len() > 0;
        let set = self.sessions[target.session].link_set_id;
        let window_id = self.sessions[target.session].windows[target.window].id;
        let affected = self.ids_in_link_set(set);
        let refs = self.window_reference_count(window_id);
        if !kill && refs == affected.len() {
            let mut m = String::new();
            push_text(&mut m, "window only linked to one session");
            return Err(StateError::Refused(m));
        }
        let ghost s0 = *self;
        self.remove_link(target.session, target.window, window_name);
        let ghost mid = *self;
        let ghost w = s0.sessions@[target.session as int].windows@.remove(target.window as int);
        proof {
            assert(self.sessions@[target.session as int].windows@ == w);
            assert(crate::state::moves::link_set_ids(mid.sessions@) =~= crate::state::moves::link_set_ids(s0.sessions@)) by {
                assert forall|j: int| 0 <= j < mid.sessions@.len() implies #[trigger] mid.sessions@[j].link_set_id == s0.sessions@[j].link_set_id by {
                    assert(s0.session_list()[j] == s0.sessions@[j]);
                    assert(mid.session_list()[j] == mid.sessions@[j]);
                }
            }
        }
        if self.sessions[target.session].windows.len() == 0 {
            self.remove_link_set_sessions(set);
            proof {
                crate::state::moves::lemma_kept_positions(crate::state::moves::link_set_ids(mid.sessions@), set);
                assert(self.sessions@ =~= at_positions(mid.sessions@, crate::state::moves::kept_positions(
                    crate::state::moves::link_set_ids(mid.sessions@), set)));
            }
        }
        let ghost kept = *self;
        proof {
            kept.lemma_groups_held();
            mid.lemma_groups_held();
            s0.lemma_groups_held();
        }
        self.prune_groups();
        let ghost pruned = *self;
        let ghost mut extra: Seq<crate::state::RenderRequest> = Seq::empty();
        if renumber {
            match self.first_in_link_set(set) {
                Some(q) => {
                    proof {
                        let ids = crate::state::moves::link_set_ids(self.sessions@);
                        ids.index_of_first_ensures(set);
                        assert(self.sessions@[q as int].link_set_id == set);
                        assert(self.sessions@ == kept.sessions@);
                        if w.len() == 0 {
                            let mids = crate::state::moves::link_set_ids(mid.sessions@);
                            crate::state::moves::lemma_kept_positions(mids, set);
                            let p = crate::state::moves::kept_positions(mids, set)[q as int];
                            assert(kept.sessions@[q as int] == mid.sessions@[p]);
                            assert(mids[p] == mid.sessions@[p].link_set_id);
                            assert(false);
                        }
                        assert(kept.sessions@ == mid.sessions@);
                        let b = s0.session_list()[q as int];
                        assert(mid.session_list()[q as int] == self.sessions@[q as int]);
                        assert(b.link_set_id == set);
                        assert(base + b.windows@.len() <= u32::MAX + 1);
                    }
                    let mut s = self.take_session(q);
                    let session_id = s.id;
                    renumber_links(&mut s, base);
                    self.sessions.insert(q, s);
                    proof {
                        self.lemma_replaced_session_wf(pruned.sessions@, q as int);
                    }
                    self.invalidate_session(session_id, RenderInvalidation::status());
                    proof {
                        extra = seq![crate::state::RenderRequest { session_id: Some(session_id), reason: RenderInvalidation(1) }];
                    }
                },
                None => {},
            }
        }
        let ghost renumbered = *self;
        self.request_shutdown_if_became_empty(had_sessions, exit_empty);
        let ghost stopped = *self;
        let mut k: usize = 0;
        while k < affected.len()
            invariant
                k <= affected@.len(),
                stopped.same_but_requests(self),
                self.render_request_list() == stopped.render_request_list()
                    + affected_requests(affected@.take(k as int), stopped.session_list()),
            decreases affected.len() - k,
        {
            let id = affected[k];
            proof {
                session_ids(self.sessions@).index_of_first_ensures(id);
            }
            match position_of_id(&self.sessions, id) {
                Some(_) => {
                    assert(2u8 | 1u8 == 3u8) by (bit_vector);
                    self.invalidate_session(id, RenderInvalidation::layout().bitor(RenderInvalidation::status()));
                },
                None => self.invalidate_session(id, RenderInvalidation::session_gone()),
            }
            proof {
                assert(affected_requests(affected@.take(k + 1), stopped.session_list()) =~= affected_requests(
                    affected@.take(k as int), stopped.session_list()).push(crate::state::RenderRequest {
                    session_id: Some(id),
                    reason: RenderInvalidation(if session_ids(stopped.session_list()).contains(id) { 3u8 } else { 4u8 }),
                }));
            }
            k += 1;
        }
        proof {
            assert(affected@.take(k as int) =~= affected@);
            let kl = if w.len() == 0 {
                at_positions(mid.session_list(), crate::state::moves::kept_positions(
                    crate::state::moves::link_set_ids(mid.session_list()), set))
            } else {
                mid.session_list()
            };
            assert(kept.session_list() == kl);
            let q = crate::state::moves::link_set_ids(kl).index_of_first(set);
            let renumbered_q = renumber && q is Some;
            assert(self.session_list() == renumbered.session_list());
            assert(self.render_request_list() == old(self).render_request_list() + extra
                + affected_requests(affected@, self.session_list()));
            assert(self.notifications() == mid.notifications());
            assert(self.session_groups == pruned.session_groups);
            assert(kept.groups() == old(self).groups());
            assert(self.session_list().len() == kept.session_list().len());
            assert forall|j: int| 0 <= j < self.session_list().len() implies
                #[trigger] self.session_list()[j].link_set_id == kept.session_list()[j].link_set_id by {
                assert(self.session_list()[j] == renumbered.sessions@[j]);
                assert(kept.session_list()[j] == pruned.sessions@[j]);
            }
            let la = self.session_list();
            let lb = kept.session_list();
            assert forall|k: u32| crate::state::moves::live_link_sets(la).contains(k)
                implies crate::state::moves::live_link_sets(lb).contains(k) by {
                let j = choose|j: int| 0 <= j < la.len() && #[trigger] la[j].link_set_id == k;
                assert(lb[j].link_set_id == k);
            }
            assert forall|k: u32| crate::state::moves::live_link_sets(lb).contains(k)
                implies crate::state::moves::live_link_sets(la).contains(k) by {
                let j = choose|j: int| 0 <= j < lb.len() && #[trigger] lb[j].link_set_id == k;
                assert(la[j].link_set_id == k);
            }
            assert(crate::state::moves::live_link_sets(la) =~= crate::state::moves::live_link_sets(lb));
            self.lemma_groups_held();
            pruned.lemma_groups_held();
            assert(self.groups() == old(self).groups().restrict(
                crate::state::moves::live_link_sets(self.session_list())));
            assert(self.shutdown_requested_spec() == (old(self).shutdown_requested_spec()
                || (self.session_list().len() == 0 && exit_empty)));
        }
        Ok(())
    }
}

} // verus!
