use vstd::prelude::*;
use crate::render::RenderInvalidation;
use crate::session::{Session, Winlink};
use crate::state::{
    RenderRequest, ServerState, StateError, fails_not_found, is_session_notification, lemma_session_position_bounds,
    not_found, session_ids, session_position, session_wf, without_exact_marker,
};
use crate::text::push_text;
use crate::winlinks::{
    cycled_position, cycled_window, install_links_by_index, install_links_preserving_positions, installed,
    last_window_position, link_ids, placed_by_position, renumber_links, renumbered_selection, reselected,
    select_window_position, selected, selection,
};

verus! {

/// The same links as a new vector.
pub(crate) fn copy_links(links: &Vec<Winlink>) -> (copy: Vec<Winlink>)
    ensures
        copy@ == links@,
{
    let mut copy: Vec<Winlink> = Vec::new();
    let mut i: usize = 0;
    while i < links.len()
        invariant
            i <= links@.len(),
            copy@ == links@.take(i as int),
        decreases links.len() - i,
    {
        copy.push(links[i]);
        proof {
            assert(links@.take(i + 1) =~= links@.take(i as int).push(links@[i as int]));
        }
        i += 1;
    }
    proof {
        assert(links@.take(i as int) =~= links@);
    }
    copy
}

/// `members` follow the group of `source`: every session of its link set
/// other than `source` itself.
pub open spec fn group_member(s: Session, source: Session) -> bool {
    s.link_set_id == source.link_set_id && s.id != source.id
}

/// The notifications after the session `s0`, at `pos` in `sessions`, had a
/// window selected: `session-window-changed` about it when its current
/// window moved, nothing otherwise.
pub open spec fn window_change_noted(before: Seq<crate::state::Notification>, after: Seq<crate::state::Notification>, s0: Session, sessions: Seq<Session>, pos: int, deferred: bool) -> bool {
    if sessions[pos].active == s0.active {
        after == before
    } else {
        match session_ids(sessions).index_of_first(s0.id) {
            Some(p) => {
                &&& after.drop_last() == before
                &&& after.len() == before.len() + 1
                &&& is_session_notification(after.last(), "session-window-changed"@, s0.id, sessions[p].name@, deferred)
            },
            None => false,
        }
    }
}

impl ServerState {
    /// The session groups, by link set, with their names.
    pub closed spec fn groups(&self) -> Map<u32, String> {
        self.session_groups@
    }

    /// States that differ at most in their sessions have the same groups.
    pub(crate) proof fn lemma_same_groups(&self, other: &ServerState)
        requires
            self.same_but_sessions(other),
        ensures
            self.groups() == other.groups(),
    {
    }

    /// The groups are what the group table holds.
    pub(crate) proof fn lemma_groups_held(&self)
        ensures
            self.groups() == self.session_groups@,
    {
    }

    /// Whether `session` belongs to a session group.
    pub fn is_grouped(&self, session: &Session) -> (grouped: bool)
        ensures
            grouped == self.groups().contains_key(session.link_set_id),
    {
        broadcast use vstd::laws_cmp::group_laws_cmp, vstd::std_specs::btree::group_btree_axioms;
        self.session_groups.contains_key(&session.link_set_id)
    }

    /// The name of the group `session` belongs to.
    pub fn session_group_name(&self, session: &Session) -> (name: Option<&str>)
        ensures
            match name {
                Some(n) => self.groups().contains_key(session.link_set_id) && n@ == self.groups()[session.link_set_id]@,
                None => !self.groups().contains_key(session.link_set_id),
            },
    {
        broadcast use vstd::laws_cmp::group_laws_cmp, vstd::std_specs::btree::group_btree_axioms;
        match self.session_groups.get(&session.link_set_id) {
            Some(n) => Some(n.as_str()),
            None => None,
        }
    }

    /// Put the sessions of the link set `link_set_id` into the group `name`.
    pub fn set_session_group(&mut self, link_set_id: u32, name: &str)
        ensures
            final(self).groups() == old(self).groups().insert(link_set_id, final(self).groups()[link_set_id]),
            final(self).groups()[link_set_id]@ == name@,
            final(self).session_list() == old(self).session_list(),
            final(self).wf() == old(self).wf(),
    {
        broadcast use vstd::laws_cmp::group_laws_cmp, vstd::std_specs::btree::group_btree_axioms;
        self.session_groups.insert(link_set_id, name.to_owned());
    }

    /// How many sessions share `session`'s link set.
    pub fn session_group_size(&self, session: &Session) -> (n: usize)
        ensures
            n == self.session_list().filter(|m: Session| m.link_set_id == session.link_set_id).len(),
    {
        let ghost all = self.sessions@;
        let ghost pred = |m: Session| m.link_set_id == session.link_set_id;
        let mut n: usize = 0;
        let mut i: usize = 0;
        while i < self.sessions.len()
            invariant
                all == self.sessions@,
                pred == (|m: Session| m.link_set_id == session.link_set_id),
                i <= all.len(),
                n == all.take(i as int).filter(pred).len(),
            decreases self.sessions.len() - i,
        {
            proof {
                reveal(Seq::filter);
                assert(all.take(i + 1).drop_last() =~= all.take(i as int));
                assert(all.take(i + 1).last() == all[i as int]);
                all.take(i as int).lemma_filter_len(pred);
            }
            if self.sessions[i].link_set_id == session.link_set_id {
                n = n + 1;
            }
            i += 1;
        }
        proof {
            assert(all.take(i as int) =~= all);
        }
        n
    }

    /// Make the window at `position` of the session at `session_pos` its
    /// current one; when the current window really moved, raise
    /// `session-window-changed`.
    pub fn select_session_window(&mut self, session_pos: usize, position: usize)
        requires
            old(self).wf(),
            session_pos < old(self).session_list().len(),
        ensures
            final(self).wf(),
            final(self).session_list().len() == old(self).session_list().len(),
            forall|j: int| 0 <= j < old(self).session_list().len() && j != session_pos
                ==> final(self).session_list()[j] == old(self).session_list()[j],
            reselected(old(self).session_list()[session_pos as int], final(self).session_list()[session_pos as int]),
            selection(final(self).session_list()[session_pos as int]) == selected(old(self).session_list()[session_pos as int], position as int),
            final(self).render_request_list() == old(self).render_request_list(),
            window_change_noted(old(self).notifications(), final(self).notifications(),
                old(self).session_list()[session_pos as int], final(self).session_list(), session_pos as int,
                old(self).deferring()),
            final(self).groups() == old(self).groups(),
            final(self).deferring() == old(self).deferring(),
            final(self).next_winlink_id_spec() == old(self).next_winlink_id_spec(),
    {
        let mut session = self.take_session(session_pos);
        proof {
            assert(session_wf(old(self).sessions@[session_pos as int]));
        }
        let previous = session.active;
        let session_id = session.id;
        select_window_position(&mut session, position);
        let moved = session.active != previous;
        self.sessions.insert(session_pos, session);
        proof {
            self.lemma_replaced_session_wf(old(self).sessions@, session_pos as int);
        }
        if moved {
            proof {
                assert(session_ids(self.sessions@)[session_pos as int] == session_id);
                assert(session_ids(self.sessions@).contains(session_id));
                session_ids(self.sessions@).index_of_first_ensures(session_id);
            }
            self.notify_session("session-window-changed", session_id);
        }
        proof {
            self.lemma_groups_held();
            old(self).lemma_groups_held();
        }
    }

    /// Synchronize every other member of `source`'s group from it: each
    /// takes `source`'s links, keeping its own current and previous windows
    /// by index.
    pub fn synchronize_group_from(&mut self, source: usize)
        requires
            old(self).wf(),
            source < old(self).session_list().len(),
        ensures
            final(self).wf(),
            final(self).notifications() == old(self).notifications(),
            final(self).render_request_list() == old(self).render_request_list(),
            final(self).session_list().len() == old(self).session_list().len(),
            old(self).same_but_sessions(final(self)),
            ({
                let src = old(self).session_list()[source as int];
                forall|j: int| 0 <= j < old(self).session_list().len() ==> {
                    let before = #[trigger] old(self).session_list()[j];
                    let after = final(self).session_list()[j];
                    if old(self).groups().contains_key(src.link_set_id) && group_member(before, src) {
                        reselected(before, after) && selection(after) == installed(before, src.windows@)
                    } else {
                        after == before
                    }
                }
            }),
    {
        let grouped = self.is_grouped(&self.sessions[source]);
        if !grouped {
            return;
        }
        let ghost src = self.sessions@[source as int];
        let source_id = self.sessions[source].id;
        let link_set_id = self.sessions[source].link_set_id;
        let links = copy_links(&self.sessions[source].windows);
        let mut i: usize = 0;
        while i < self.sessions.len()
            invariant
                self.wf(),
                old(self).sessions@.len() == self.sessions@.len(),
                src == old(self).sessions@[source as int],
                source_id == src.id,
                link_set_id == src.link_set_id,
                links@ == src.windows@,
                old(self).groups().contains_key(src.link_set_id),
                i <= self.sessions@.len(),
                self.pending_notifications == old(self).pending_notifications,
                self.render_requests == old(self).render_requests,
                old(self).same_but_sessions(self),
                forall|j: int| 0 <= j < self.sessions@.len() ==> {
                    let before = #[trigger] old(self).sessions@[j];
                    let now = self.sessions@[j];
                    if j < i && group_member(before, src) {
                        reselected(before, now) && selection(now) == installed(before, src.windows@)
                    } else {
                        now == before
                    }
                },
            decreases self.sessions.len() - i,
        {
            if self.sessions[i].link_set_id == link_set_id && self.sessions[i].id != source_id {
                let ghost before = *self;
                let mut member = self.take_session(i);
                let copied = copy_links(&links);
                install_links_by_index(&mut member, copied);
                self.sessions.insert(i, member);
                proof {
                    assert(session_wf(before.sessions@[i as int]));
                    self.lemma_replaced_session_wf(before.sessions@, i as int);
                    assert forall|j: int| 0 <= j < self.sessions@.len() && j != i implies self.sessions@[j] == before.sessions@[j] by {
                        if j < i {
                            assert(self.sessions@[j] == before.sessions@[j]);
                        } else {
                            assert(self.sessions@[j] == before.sessions@[j]);
                        }
                    }
                }
            }
            i += 1;
        }
    }
}

/// The state `after` is `before` with the window at `q` of the session at
/// `p` made current, `session-window-changed` noted when it moved, and a
/// layout and status redraw owed to the session's clients.
pub open spec fn window_switched(before: ServerState, after: ServerState, p: int, q: int) -> bool {
    let s0 = before.session_list()[p];
    &&& after.session_list().len() == before.session_list().len()
    &&& forall|j: int| 0 <= j < before.session_list().len() && j != p
        ==> after.session_list()[j] == before.session_list()[j]
    &&& reselected(s0, after.session_list()[p])
    &&& selection(after.session_list()[p]) == selected(s0, q)
    &&& window_change_noted(before.notifications(), after.notifications(), s0,
        after.session_list(), p, before.deferring())
    &&& after.render_request_list() == before.render_request_list().push(
        RenderRequest { session_id: Some(s0.id), reason: RenderInvalidation(3) })
}

/// What `next-window` (`forward`) or `previous-window` on the session
/// `spec` names does: see [`ServerState::cycle_window`].
pub open spec fn window_cycled(before: ServerState, after: ServerState, spec: Seq<char>, forward: bool, result: Result<(), StateError>) -> bool {
    match session_position(before.session_list(), spec) {
        None => fails_not_found(result, "can't find session: "@ + spec) && after == before,
        Some(p) => {
            let s0 = before.session_list()[p];
            match cycled_position(s0.windows@.len(), s0.active as nat, forward) {
                None => fails_not_found(result, if forward { "no next window"@ } else { "no previous window"@ })
                    && after == before,
                Some(q) => result is Ok && window_switched(before, after, p, q as int),
            }
        },
    }
}

/// The position `distance` windows after (`forward`) or before `active`
/// among `count`, wrapping.
pub open spec fn stepped_position(count: nat, active: nat, distance: nat, forward: bool) -> nat {
    if forward {
        ((active + distance) as int % (count as int)) as nat
    } else {
        ((active + count - distance) as int % (count as int)) as nat
    }
}

/// The first window at a distance of `distance` or more (and less than
/// the number of windows) from `active`, in the direction `forward`, that
/// carries an alert.
pub open spec fn alert_from(links: Seq<Winlink>, active: nat, forward: bool, distance: nat) -> Option<nat>
    decreases links.len() - distance,
{
    if distance >= links.len() {
        None
    } else {
        let q = stepped_position(links.len(), active, distance, forward);
        if links[q as int].alert_flags != 0 {
            Some(q)
        } else {
            alert_from(links, active, forward, distance + 1)
        }
    }
}

/// What `next-window -a` (`forward`) or `previous-window -a` on the session
/// `spec` names does: see [`ServerState::cycle_window_alert`].
pub open spec fn alert_cycled(before: ServerState, after: ServerState, spec: Seq<char>, forward: bool, result: Result<(), StateError>) -> bool {
    match session_position(before.session_list(), spec) {
        None => fails_not_found(result, "can't find session: "@ + spec) && after == before,
        Some(p) => {
            let s0 = before.session_list()[p];
            match alert_from(s0.windows@, s0.active as nat, forward, 1) {
                None => fails_not_found(result, if forward { "no next window"@ } else { "no previous window"@ })
                    && after == before,
                Some(q) => result is Ok && window_switched(before, after, p, q as int),
            }
        },
    }
}

impl ServerState {
    /// `next-window` (`forward`) or `previous-window` in the session `spec`
    /// names: select the neighbouring window, wrapping, and owe the
    /// session's clients a layout and status redraw. The caller then fits
    /// the newly current window to the session's size.
    pub fn cycle_window(&mut self, spec: &str, forward: bool) -> (result: Result<(), StateError>)
        requires
            old(self).wf(),
        ensures
            final(self).wf(),
            window_cycled(*old(self), *final(self), spec@, forward, result),
    {
        let pos = match self.session_index(spec) {
            Some(p) => p,
            None => return Err(not_found("can't find session: ", spec)),
        };
        proof {
            lemma_session_position_bounds(self.sessions@, spec@);
            assert(self.sessions@.len() == self.sessions.len());
            assert(session_wf(self.sessions@[pos as int]));
            assert(session_position(old(self).session_list(), spec@) == Some(pos as int));
        }
        let session_id = self.sessions[pos].id;
        let count = self.sessions[pos].windows.len();
        let next = match cycled_window(&self.sessions[pos], forward) {
            Some(q) => q,
            None => {
                let mut m = String::new();
                push_text(&mut m, if forward { "no next window" } else { "no previous window" });
                return Err(StateError::NotFound(m));
            },
        };
        proof {
            assert(count == self.sessions@[pos as int].windows@.len());
            assert(next < count);
        }
        self.select_session_window(pos, next);
        let reason = RenderInvalidation::layout().bitor(RenderInvalidation::status());
        assert(2u8 | 1u8 == 3u8) by (bit_vector);
        self.invalidate_session(session_id, reason);
        Ok(())
    }

    /// `next-window`: see [`Self::cycle_window`].
    pub fn next_window(&mut self, spec: &str) -> (result: Result<(), StateError>)
        requires
            old(self).wf(),
        ensures
            final(self).wf(),
            window_cycled(*old(self), *final(self), spec@, true, result),
    {
        self.cycle_window(spec, true)
    }

    /// `previous-window`: see [`Self::cycle_window`].
    pub fn previous_window(&mut self, spec: &str) -> (result: Result<(), StateError>)
        requires
            old(self).wf(),
        ensures
            final(self).wf(),
            window_cycled(*old(self), *final(self), spec@, false, result),
    {
        self.cycle_window(spec, false)
    }

    /// `next-window -a` (`forward`) or `previous-window -a` in the session
    /// `spec` names: select the nearest other window carrying an alert in
    /// that direction, wrapping, and owe the session's clients a layout and
    /// status redraw. The caller then fits the newly current window to the
    /// session's size.
    pub fn cycle_window_alert(&mut self, spec: &str, forward: bool) -> (result: Result<(), StateError>)
        requires
            old(self).wf(),
        ensures
            final(self).wf(),
            alert_cycled(*old(self), *final(self), spec@, forward, result),
    {
        let pos = match self.session_index(spec) {
            Some(p) => p,
            None => return Err(not_found("can't find session: ", spec)),
        };
        proof {
            lemma_session_position_bounds(self.sessions@, spec@);
            assert(self.sessions@.len() == self.sessions.len());
            assert(session_wf(self.sessions@[pos as int]));
            assert(session_position(old(self).session_list(), spec@) == Some(pos as int));
        }
        let session_id = self.sessions[pos].id;
        let len = self.sessions[pos].windows.len();
        let active = self.sessions[pos].active;
        let ghost links = self.sessions@[pos as int].windows@;
        let mut distance: usize = 1;
        while distance < len
            invariant
                1 <= distance,
                *self == *old(self),
                old(self).wf(),
                session_position(old(self).session_list(), spec@) == Some(pos as int),
                session_id == self.sessions@[pos as int].id,
                active == self.sessions@[pos as int].active,
                len == links.len(),
                links == self.sessions@[pos as int].windows@,
                pos < self.sessions@.len(),
                len > 1 ==> active < len,
                alert_from(links, active as nat, forward, 1) == alert_from(links, active as nat, forward, distance as nat),
            decreases len - distance,
        {
            let position = if forward {
                if distance < len - active { active + distance } else { distance - (len - active) }
            } else {
                if distance <= active { active - distance } else { len - (distance - active) }
            };
            proof {
                let x: int = if forward { active + distance } else { active + len - distance };
                if x < len {
                    vstd::arithmetic::div_mod::lemma_small_mod(x as nat, len as nat);
                } else {
                    vstd::arithmetic::div_mod::lemma_small_mod((x - len) as nat, len as nat);
                    vstd::arithmetic::div_mod::lemma_mod_add_multiples_vanish(x - len, len as int);
                }
                assert(position == stepped_position(len as nat, active as nat, distance as nat, forward));
            }
            if self.sessions[pos].windows[position].alert_flags != 0 {
                self.select_session_window(pos, position);
                let reason = RenderInvalidation::layout().bitor(RenderInvalidation::status());
                assert(2u8 | 1u8 == 3u8) by (bit_vector);
                self.invalidate_session(session_id, reason);
                return Ok(());
            }
            distance += 1;
        }
        let mut m = String::new();
        push_text(&mut m, if forward { "no next window" } else { "no previous window" });
        Err(StateError::NotFound(m))
    }

    /// `next-window -a`: see [`Self::cycle_window_alert`].
    pub fn next_window_alert(&mut self, spec: &str) -> (result: Result<(), StateError>)
        requires
            old(self).wf(),
        ensures
            final(self).wf(),
            alert_cycled(*old(self), *final(self), spec@, true, result),
    {
        self.cycle_window_alert(spec, true)
    }

    /// `previous-window -a`: see [`Self::cycle_window_alert`].
    pub fn previous_window_alert(&mut self, spec: &str) -> (result: Result<(), StateError>)
        requires
            old(self).wf(),
        ensures
            final(self).wf(),
            alert_cycled(*old(self), *final(self), spec@, false, result),
    {
        self.cycle_window_alert(spec, false)
    }

    /// `last-window`: select the previously current window of the session
    /// `spec` names and owe its clients a layout and status redraw. Without
    /// one, tmux reports `no last window`. The caller then fits the newly
    /// current window to the session's size.
    pub fn last_window(&mut self, spec: &str) -> (result: Result<(), StateError>)
        requires
            old(self).wf(),
        ensures
            final(self).wf(),
            match session_position(old(self).session_list(), spec@) {
                None => fails_not_found(result, "can't find session: "@ + spec@) && *final(self) == *old(self),
                Some(p) => {
                    let s0 = old(self).session_list()[p];
                    let top = if s0.last_windows@.len() > 0 {
                        link_ids(s0.windows@).index_of_first(s0.last_windows@[0])
                    } else {
                        None
                    };
                    match top {
                        None => fails_not_found(result, "no last window"@) && *final(self) == *old(self),
                        Some(q) => {
                            &&& result is Ok
                            &&& final(self).session_list().len() == old(self).session_list().len()
                            &&& forall|j: int| 0 <= j < old(self).session_list().len() && j != p
                                ==> final(self).session_list()[j] == old(self).session_list()[j]
                            &&& reselected(s0, final(self).session_list()[p])
                            &&& selection(final(self).session_list()[p]) == selected(s0, q)
                            &&& window_change_noted(old(self).notifications(), final(self).notifications(), s0,
                                final(self).session_list(), p, old(self).deferring())
                            &&& final(self).render_request_list() == old(self).render_request_list().push(
                                RenderRequest { session_id: Some(s0.id), reason: RenderInvalidation(3) })
                        },
                    }
                },
            },
    {
        let pos = match self.session_index(spec) {
            Some(p) => p,
            None => return Err(not_found("can't find session: ", spec)),
        };
        proof {
            lemma_session_position_bounds(self.sessions@, spec@);
            assert(self.sessions@.len() == self.sessions.len());
        }
        let session_id = self.sessions[pos].id;
        let last = match last_window_position(&self.sessions[pos]) {
            Some(q) => q,
            None => {
                let mut m = String::new();
                push_text(&mut m, "no last window");
                return Err(StateError::NotFound(m));
            },
        };
        proof {
            assert(session_position(old(self).session_list(), spec@) == Some(pos as int));
        }
        self.select_session_window(pos, last);
        let reason = RenderInvalidation::layout().bitor(RenderInvalidation::status());
        assert(2u8 | 1u8 == 3u8) by (bit_vector);
        self.invalidate_session(session_id, reason);
        Ok(())
    }

    /// `move-window -r`: number the windows of the session `spec` names
    /// from `base` (the session's `base-index`) in their order, keeping the
    /// current window current, and owe its clients a status redraw.
    pub fn renumber_windows(&mut self, spec: &str, base: u32) -> (result: Result<(), StateError>)
        requires
            old(self).wf(),
            match session_position(old(self).session_list(), spec@) {
                Some(p) => base + old(self).session_list()[p].windows@.len() <= u32::MAX + 1,
                None => true,
            },
        ensures
            final(self).wf(),
            final(self).notifications() == old(self).notifications(),
            match session_position(old(self).session_list(), spec@) {
                None => fails_not_found(result, "can't find session: "@ + spec@) && *final(self) == *old(self),
                Some(p) => {
                    let s0 = old(self).session_list()[p];
                    &&& result is Ok
                    &&& final(self).session_list().len() == old(self).session_list().len()
                    &&& forall|j: int| 0 <= j < old(self).session_list().len() && j != p
                        ==> final(self).session_list()[j] == old(self).session_list()[j]
                    &&& reselected(s0, final(self).session_list()[p])
                    &&& selection(final(self).session_list()[p]) == renumbered_selection(s0, base)
                    &&& final(self).render_request_list() == old(self).render_request_list().push(
                        RenderRequest { session_id: Some(s0.id), reason: RenderInvalidation(1) })
                },
            },
    {
        let pos = match self.session_index(spec) {
            Some(p) => p,
            None => return Err(not_found("can't find session: ", spec)),
        };
        proof {
            lemma_session_position_bounds(self.sessions@, spec@);
            assert(self.sessions@.len() == self.sessions.len());
        }
        let mut session = self.take_session(pos);
        let session_id = session.id;
        renumber_links(&mut session, base);
        self.sessions.insert(pos, session);
        proof {
            assert(session_wf(old(self).sessions@[pos as int]));
            self.lemma_replaced_session_wf(old(self).sessions@, pos as int);
        }
        self.invalidate_session(session_id, RenderInvalidation::status());
        Ok(())
    }

    /// Give the session at `session_pos` the links `links`, keeping its
    /// current and previous windows by index, then synchronize its group.
    pub fn replace_link_set(&mut self, session_pos: usize, links: Vec<Winlink>)
        requires
            old(self).wf(),
            session_pos < old(self).session_list().len(),
        ensures
            final(self).wf(),
            final(self).notifications() == old(self).notifications(),
            final(self).render_request_list() == old(self).render_request_list(),
            final(self).session_list().len() == old(self).session_list().len(),
            old(self).same_but_sessions(final(self)),
            ({
                let src = old(self).session_list()[session_pos as int];
                &&& reselected(src, final(self).session_list()[session_pos as int])
                &&& selection(final(self).session_list()[session_pos as int]) == installed(src, links@)
                &&& forall|j: int| 0 <= j < old(self).session_list().len() && j != session_pos ==> {
                    let before = #[trigger] old(self).session_list()[j];
                    let after = final(self).session_list()[j];
                    if old(self).groups().contains_key(src.link_set_id) && group_member(before, src) {
                        reselected(before, after) && selection(after) == installed(before, links@)
                    } else {
                        after == before
                    }
                }
            }),
    {
        let mut session = self.take_session(session_pos);
        let ghost installed_links = links@;
        install_links_by_index(&mut session, links);
        self.sessions.insert(session_pos, session);
        proof {
            assert(session_wf(old(self).sessions@[session_pos as int]));
            self.lemma_replaced_session_wf(old(self).sessions@, session_pos as int);
            assert(self.sessions@[session_pos as int].windows@ == installed_links);
        }
        let ghost mid = *self;
        self.synchronize_group_from(session_pos);
        proof {
            let src = old(self).sessions@[session_pos as int];
            let msrc = mid.sessions@[session_pos as int];
            assert(mid.groups() == old(self).groups());
            assert(msrc.link_set_id == src.link_set_id && msrc.id == src.id);
            assert(!group_member(msrc, msrc));
            assert(self.sessions@[session_pos as int] == msrc);
            assert forall|j: int| 0 <= j < old(self).session_list().len() && j != session_pos implies
                mid.session_list()[j] == old(self).session_list()[j] by {
                assert(mid.sessions@[j] == old(self).sessions@[j]);
            }
            assert forall|j: int| 0 <= j < old(self).session_list().len() && j != session_pos implies
                group_member(#[trigger] old(self).sessions@[j], src) == group_member(mid.sessions@[j], msrc) by {
                assert(mid.sessions@[j] == old(self).sessions@[j]);
            }
        }
    }

    /// Give the session at `session_pos` the links `links`, keeping its
    /// current and previous positions where they still exist, then
    /// synchronize its group.
    pub fn replace_link_set_preserving_positions(&mut self, session_pos: usize, links: Vec<Winlink>)
        requires
            old(self).wf(),
            session_pos < old(self).session_list().len(),
        ensures
            final(self).wf(),
            final(self).notifications() == old(self).notifications(),
            final(self).render_request_list() == old(self).render_request_list(),
            final(self).session_list().len() == old(self).session_list().len(),
            old(self).same_but_sessions(final(self)),
            ({
                let src = old(self).session_list()[session_pos as int];
                &&& reselected(src, final(self).session_list()[session_pos as int])
                &&& selection(final(self).session_list()[session_pos as int]) == placed_by_position(src, links@)
                &&& forall|j: int| 0 <= j < old(self).session_list().len() && j != session_pos ==> {
                    let before = #[trigger] old(self).session_list()[j];
                    let after = final(self).session_list()[j];
                    if old(self).groups().contains_key(src.link_set_id) && group_member(before, src) {
                        reselected(before, after) && selection(after) == installed(before, links@)
                    } else {
                        after == before
                    }
                }
            }),
    {
        let mut session = self.take_session(session_pos);
        let ghost installed_links = links@;
        install_links_preserving_positions(&mut session, links);
        self.sessions.insert(session_pos, session);
        proof {
            assert(session_wf(old(self).sessions@[session_pos as int]));
            self.lemma_replaced_session_wf(old(self).sessions@, session_pos as int);
            assert(self.sessions@[session_pos as int].windows@ == installed_links);
        }
        let ghost mid = *self;
        self.synchronize_group_from(session_pos);
        proof {
            let src = old(self).sessions@[session_pos as int];
            let msrc = mid.sessions@[session_pos as int];
            assert(mid.groups() == old(self).groups());
            assert(msrc.link_set_id == src.link_set_id && msrc.id == src.id);
            assert(!group_member(msrc, msrc));
            assert(self.sessions@[session_pos as int] == msrc);
            assert forall|j: int| 0 <= j < old(self).session_list().len() && j != session_pos implies
                mid.session_list()[j] == old(self).session_list()[j] by {
                assert(mid.sessions@[j] == old(self).sessions@[j]);
            }
            assert forall|j: int| 0 <= j < old(self).session_list().len() && j != session_pos implies
                group_member(#[trigger] old(self).sessions@[j], src) == group_member(mid.sessions@[j], msrc) by {
                assert(mid.sessions@[j] == old(self).sessions@[j]);
            }
        }
    }
}

} // verus!
