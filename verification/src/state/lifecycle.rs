use vstd::prelude::*;
use crate::env::Environment;
use crate::session::{Session, Winlink};
use crate::render::RenderInvalidation;
use crate::state::{
    Notification, RenderRequest, ServerState, StateError, is_already_exists, is_session_notification, owned,
    fails_not_found, not_found, position_of_name, session_ids, session_names, session_part, session_position,
    session_wf, sessions_wf,
};
use crate::state::moves::{
    kept_positions, lemma_kept_positions, lemma_matching_positions, link_set_ids, live_link_sets, matching_positions,
};
use crate::text::{decimal, push_decimal, push_text, starts_with_at, to_chars};

verus! {


/// `n` is the notification `name` about the session `id`, named
/// `session_name`, which no longer exists.
pub open spec fn is_closed_session_notification(n: Notification, name: Seq<char>, id: u32, session_name: Seq<char>, deferred: bool) -> bool {
    &&& n.name@ == name
    &&& n.target is None
    &&& n.vars@.len() == 3
    &&& n.vars@[0].0@ == "hook"@ && n.vars@[0].1@ == name
    &&& n.vars@[1].0@ == "hook_session"@ && n.vars@[1].1@ == "$"@ + decimal(id as nat)
    &&& n.vars@[2].0@ == "hook_session_name"@ && n.vars@[2].1@ == session_name
    &&& n.deferred == deferred
}


/// Without a position holding `x`, every position is kept.
pub proof fn lemma_kept_positions_all<T>(ids: Seq<T>, x: T)
    requires
        !ids.contains(x),
    ensures
        kept_positions(ids, x) == Seq::new(ids.len(), |i: int| i),
    decreases ids.len(),
{
    if ids.len() > 0 {
        let d = ids.drop_last();
        assert(!d.contains(x)) by {
            if d.contains(x) {
                let k = choose|k: int| 0 <= k < d.len() && d[k] == x;
                assert(ids[k] == x);
            }
        }
        lemma_kept_positions_all(d, x);
        assert(ids[ids.len() - 1] != x);
        assert(kept_positions(ids, x) =~= Seq::new(ids.len(), |i: int| i));
    }
}

/// A position holding `x` is not kept, so fewer positions are.
pub proof fn lemma_kept_positions_miss<T>(ids: Seq<T>, x: T, q: int)
    requires
        0 <= q < ids.len(),
        ids[q] == x,
    ensures
        kept_positions(ids, x).len() < ids.len(),
    decreases ids.len(),
{
    let d = ids.drop_last();
    lemma_kept_positions(d, x);
    if q < ids.len() - 1 {
        lemma_kept_positions_miss(d, x, q);
    }
}


/// The ids of the sessions at `positions`, in order.
pub open spec fn ids_at(sessions: Seq<Session>, positions: Seq<int>) -> Seq<u32> {
    Seq::new(positions.len(), |i: int| sessions[positions[i]].id)
}

/// A `session gone` redraw owed to each of the sessions `ids`, in order.
pub open spec fn gone_requests(ids: Seq<u32>) -> Seq<RenderRequest> {
    Seq::new(ids.len(), |i: int| RenderRequest { session_id: Some(ids[i]), reason: RenderInvalidation(4) })
}

/// `after` is `before` after `kill-session` of the sessions named `name`;
/// see [`ServerState::kill_session`].
pub open spec fn killed_session(before: ServerState, after: ServerState, name: Seq<char>, exit_empty: bool, removed: bool) -> bool {
    &&& removed == session_names(before.session_list()).contains(name)
    &&& !removed ==> after == before
    &&& removed ==> {
        let p = session_names(before.session_list()).index_of_first(name)->0;
        let id = before.session_list()[p].id;
        let kept = kept_positions(session_names(before.session_list()), name);
        &&& after.session_list().len() == kept.len()
        &&& forall|i: int| 0 <= i < kept.len()
            ==> #[trigger] after.session_list()[i] == before.session_list()[kept[i]]
        &&& after.groups() == before.groups().restrict(live_link_sets(after.session_list()))
        &&& after.shutdown_requested_spec() == (before.shutdown_requested_spec()
            || (after.session_list().len() == 0 && exit_empty))
        &&& after.render_request_list() == before.render_request_list().push(
            RenderRequest { session_id: Some(id), reason: RenderInvalidation(4) })
        &&& after.notifications().drop_last() == before.notifications()
        &&& after.notifications().len() == before.notifications().len() + 1
        &&& is_closed_session_notification(after.notifications().last(), "session-closed"@, id, name,
            before.deferring())
    }
}


proof fn lemma_link_set_at(sessions: Seq<Session>, t: usize)
    requires
        t < sessions.len(),
    ensures
        link_set_ids(sessions).contains(sessions[t as int].link_set_id),
{
    assert(link_set_ids(sessions)[t as int] == sessions[t as int].link_set_id);
}

/// `name` begins with `prefix`.
pub open spec fn prefixed(name: Seq<char>, prefix: Seq<char>) -> bool {
    name.len() >= prefix.len() && name.take(prefix.len() as int) == prefix
}

/// The position of the one session whose name begins with `prefix`, when
/// exactly one does.
pub open spec fn unique_prefix_position(sessions: Seq<Session>, prefix: Seq<char>) -> Option<int> {
    if exists|i: int| 0 <= i < sessions.len() && prefixed(sessions[i].name@, prefix)
        && forall|j: int| 0 <= j < sessions.len() && j != i ==> !prefixed(#[trigger] sessions[j].name@, prefix) {
        Some(choose|i: int| 0 <= i < sessions.len() && prefixed(sessions[i].name@, prefix)
            && forall|j: int| 0 <= j < sessions.len() && j != i ==> !prefixed(#[trigger] sessions[j].name@, prefix))
    } else {
        None
    }
}

/// The session a grouping target names: a session spec, or else (unless
/// it starts with `$` or `=`) the one session whose name begins with it.
pub open spec fn grouping_target(sessions: Seq<Session>, target: Seq<char>) -> Option<int> {
    match session_position(sessions, target) {
        Some(p) => Some(p),
        None => if target.len() > 0 && (target[0] == '$' || target[0] == '=') {
            None
        } else {
            unique_prefix_position(sessions, target)
        },
    }
}

/// The least link set whose group is called `name`.
pub open spec fn group_called(groups: Map<u32, String>, name: Seq<char>) -> Option<u32> {
    if exists|k: u32| groups.contains_key(k) && groups[k]@ == name {
        Some(choose|k: u32| groups.contains_key(k) && groups[k]@ == name
            && forall|j: u32| groups.contains_key(j) && groups[j]@ == name ==> k <= j)
    } else {
        None
    }
}

/// The link set a new grouped session joins: that of the session `target`
/// names, or else that of the group called `target`.
pub open spec fn joined_link_set(state: ServerState, target: Seq<char>) -> Option<u32> {
    match grouping_target(state.session_list(), target) {
        Some(p) => Some(state.session_list()[p].link_set_id),
        None => group_called(state.groups(), target),
    }
}

/// A group that `target` names by its name still has a session.
pub open spec fn grouping_target_live(state: ServerState, target: Seq<char>) -> bool {
    grouping_target(state.session_list(), target) is None ==> match group_called(state.groups(), target) {
        Some(set) => link_set_ids(state.session_list()).contains(set),
        None => true,
    }
}

impl ServerState {
    /// Whether new sessions and window links can still be given
    /// identities.
    pub fn ids_left(&self) -> (left: bool)
        ensures
            left == self.can_allocate(),
    {
        self.next_session_id < u32::MAX && self.next_link_set_id < u32::MAX && self.next_winlink_id < u64::MAX
    }

    /// Whether `target`, when it names a group by its name, names one that
    /// still has a session.
    pub fn grouping_target_is_live(&self, target: &str) -> (live: bool)
        ensures
            live == grouping_target_live(*self, target@),
    {
        match self.grouping_target_position(target) {
            Some(_) => true,
            None => match self.group_called_named(target) {
                Some(set) => {
                    let first = self.first_in_link_set(set);
                    proof {
                        link_set_ids(self.session_list()).index_of_first_ensures(set);
                    }
                    first.is_some()
                },
                None => true,
            },
        }
    }

    /// `new-session`: add the session `name` showing the window `window_id`
    /// (created by the caller) at index `base` (the `base-index` option),
    /// sized to the server's default size, created at `created` (tmux's
    /// stamp), `created_epoch` and `now_micros`. The first session ends the
    /// wait for an initial attach, and `session-created` is raised. A name
    /// that already finds a session is refused as a duplicate.
    pub fn create_session(
        &mut self,
        name: &str,
        window_id: u32,
        base: u32,
        created: String,
        created_epoch: i64,
        now_micros: i64,
    ) -> (result: Result<u32, StateError>)
        requires
            old(self).wf(),
            session_position(old(self).session_list(), session_part(name@)) is None ==> old(self).can_allocate(),
        ensures
            final(self).wf(),
            final(self).render_request_list() == old(self).render_request_list(),
            match session_position(old(self).session_list(), session_part(name@)) {
                Some(_) => {
                    &&& result is Err
                    &&& is_already_exists(result->Err_0, "duplicate session: "@ + name@)
                    &&& *final(self) == *old(self)
                },
                None => {
                    let s = final(self).session_list().last();
                    let id = old(self).next_session_id_spec();
                    &&& result == Ok::<u32, StateError>(id)
                    &&& final(self).session_list().len() == old(self).session_list().len() + 1
                    &&& final(self).session_list().drop_last() == old(self).session_list()
                    &&& s.id == id
                    &&& s.name@ == name@
                    &&& s.link_set_id == old(self).next_link_set_id_spec()
                    &&& s.windows@ == seq![Winlink { link_id: old(self).next_winlink_id_spec(), index: base, id: window_id, alert_flags: 0 }]
                    &&& (s.cols, s.rows) == old(self).default_size()
                    &&& final(self).default_size() == old(self).default_size()
                    &&& !final(self).initial_attach_pending_spec()
                    &&& s.active == 0
                    &&& s.last_active is None
                    &&& s.last_windows@.len() == 0
                    &&& s.created == created
                    &&& s.created_epoch == created_epoch
                    &&& s.activity_micros == now_micros
                    &&& s.last_attached_micros == 0
                    &&& s.locked_at_activity_micros is None
                    &&& s.environment.values().len() == 0
                    &&& s.environment.hidden().len() == 0
                    &&& s.environment.removed().len() == 0
                    &&& final(self).next_session_id_spec() == id + 1
                    &&& final(self).next_link_set_id_spec() == old(self).next_link_set_id_spec() + 1
                    &&& final(self).next_winlink_id_spec() == old(self).next_winlink_id_spec() + 1
                    &&& final(self).groups() == old(self).groups()
                    &&& match session_ids(final(self).session_list()).index_of_first(id) {
                        Some(p) => {
                            &&& final(self).notifications().drop_last() == old(self).notifications()
                            &&& is_session_notification(final(self).notifications().last(), "session-created"@, id,
                                final(self).session_list()[p].name@, old(self).deferring())
                        },
                        None => false,
                    }
                },
            },
    {
        if self.find(name).is_some() {
            let mut m = String::new();
            push_text(&mut m, "duplicate session: ");
            push_text(&mut m, name);
            return Err(StateError::AlreadyExists(m));
        }
        let session_id = self.next_session_id;
        self.next_session_id = self.next_session_id + 1;
        let link_set_id = self.next_link_set_id;
        self.next_link_set_id = self.next_link_set_id + 1;
        let winlink_id = self.next_winlink_id;
        self.next_winlink_id = self.next_winlink_id + 1;
        let mut owned_name = String::new();
        push_text(&mut owned_name, name);
        let environment = Environment::new();
        let session = Session {
            id: session_id,
            name: owned_name,
            windows: vec![Winlink { link_id: winlink_id, index: base, id: window_id, alert_flags: 0 }],
            link_set_id,
            active: 0,
            last_active: None,
            last_windows: Vec::new(),
            cols: self.default_cols,
            rows: self.default_rows,
            created,
            created_epoch,
            activity_micros: now_micros,
            last_attached_micros: 0,
            locked_at_activity_micros: None,
            environment,
        };
        proof {
            assert(session_wf(session));
        }
        self.sessions.push(session);
        self.initial_attach_pending = false;
        proof {
            assert forall|i: int| 0 <= i < self.sessions@.len() implies session_wf(#[trigger] self.sessions@[i]) by {
                if i < old(self).sessions@.len() {
                    assert(self.sessions@[i] == old(self).sessions@[i]);
                    assert(session_wf(old(self).sessions@[i]));
                }
            }
            assert(self.sessions@.drop_last() =~= old(self).sessions@);
            assert(self.sessions@ =~= old(self).sessions@.push(session));
            crate::state::lemma_ids_push(old(self).sessions@, session, session_id);
            let ids = session_ids(self.sessions@);
            assert(ids[ids.len() - 1] == session_id);
            assert(ids.contains(session_id));
            ids.index_of_first_ensures(session_id);
            self.lemma_groups_held();
            old(self).lemma_groups_held();
        }
        let ghost before_notify = *self;
        self.notify_session("session-created", session_id);
        proof {
            assert(self.session_groups == before_notify.session_groups);
            self.lemma_groups_held();
        }
        Ok(session_id)
    }

    /// The event `name` about the session `session_id`, named `session`,
    /// which has already left the tree: it has no target.
    pub fn notify_closed_session(&mut self, name: &str, session_id: u32, session: &str)
        ensures
            old(self).same_but_notifications(final(self)),
            final(self).session_list() == old(self).session_list(),
            final(self).render_request_list() == old(self).render_request_list(),
            final(self).wf() == old(self).wf(),
            final(self).notifications().drop_last() == old(self).notifications(),
            final(self).notifications().len() == old(self).notifications().len() + 1,
            is_closed_session_notification(final(self).notifications().last(), name@, session_id, session@,
                old(self).deferring()),
    {
        let mut id_text = String::new();
        push_text(&mut id_text, "$");
        push_decimal(&mut id_text, session_id as u64);
        let mut vars: Vec<(String, String)> = Vec::new();
        vars.push((owned("hook_session"), id_text));
        vars.push((owned("hook_session_name"), owned(session)));
        self.notify(name, None, vars);
        proof {
            let n = self.pending_notifications@.last();
            assert(n.vars@[1] == n.vars@.skip(1)[0]);
            assert(n.vars@[2] == n.vars@.skip(1)[1]);
            assert(self.pending_notifications@.drop_last() =~= self.pending_notifications@.take(old(self).pending_notifications@.len() as int));
        }
    }

    /// Remove every session named `name`, keeping the others in order.
    fn remove_named_sessions(&mut self, name: &String)
        requires
            old(self).wf(),
        ensures
            final(self).wf(),
            old(self).same_but_sessions(final(self)),
            final(self).session_list().len() == kept_positions(session_names(old(self).session_list()), name@).len(),
            forall|j: int| 0 <= j < final(self).session_list().len() ==> #[trigger] final(self).session_list()[j]
                == old(self).session_list()[kept_positions(session_names(old(self).session_list()), name@)[j]],
    {
        let ghost before = self.sessions@;
        let ghost names = session_names(before);
        let ghost mut k: int = 0;
        let mut i: usize = 0;
        proof {
            lemma_kept_positions(names, name@);
        }
        while i < self.sessions.len()
            invariant
                before == old(self).sessions@,
                names == session_names(before),
                0 <= k <= before.len(),
                self.sessions@.len() == i + (before.len() - k),
                kept_positions(names.take(k), name@).len() == i,
                forall|j: int| 0 <= j < i ==> #[trigger] self.sessions@[j] == before[kept_positions(names.take(k), name@)[j]],
                forall|j: int| i <= j < self.sessions@.len() ==> #[trigger] self.sessions@[j] == before[k + (j - i)],
                sessions_wf(self.sessions@),
                old(self).same_but_sessions(self),
            decreases self.sessions.len() - i,
        {
            proof {
                assert(self.sessions@[i as int] == before[k]);
                assert(names.take(k + 1).drop_last() =~= names.take(k));
                assert(names.take(k + 1).last() == before[k].name@);
            }
            if self.sessions[i].name == *name {
                let ghost prev = self.sessions@;
                self.sessions.remove(i);
                proof {
                    assert forall|j: int| i <= j < self.sessions@.len() implies #[trigger] self.sessions@[j] == before[(k + 1) + (j - i)] by {
                        assert(self.sessions@[j] == prev[j + 1]);
                    }
                    assert forall|j: int| 0 <= j < self.sessions@.len() implies crate::state::session_wf(#[trigger] self.sessions@[j]) by {
                        if j < i {
                            assert(self.sessions@[j] == prev[j]);
                        } else {
                            assert(self.sessions@[j] == prev[j + 1]);
                        }
                    }
                    k = k + 1;
                }
            } else {
                proof {
                    assert(kept_positions(names.take(k + 1), name@) == kept_positions(names.take(k), name@).push(k));
                    k = k + 1;
                }
                i += 1;
            }
        }
        proof {
            assert(k == before.len());
            assert(names.take(k) =~= names);
            crate::state::moves::lemma_kept_positions_order(names, name@);
            crate::state::lemma_ids_at_positions(before, self.sessions@, kept_positions(names, name@), self.next_session_id);
        }
    }

    /// `kill-session`: remove the sessions named `name` (the caller has
    /// already moved their clients on, by the `detach-on-destroy` policy).
    /// Groups left without sessions are forgotten, a server left empty
    /// stops when `exit_empty`, and the first such session's clients are
    /// owed a `session gone` redraw while `session-closed` is raised about
    /// it. Whether a session was removed.
    pub fn kill_session(&mut self, name: &str, exit_empty: bool) -> (removed: bool)
        requires
            old(self).wf(),
        ensures
            final(self).wf(),
            killed_session(*old(self), *final(self), name@, exit_empty, removed),
    {
        let had_sessions = self.sessions.len() > 0;
        let target = owned(name);
        proof {
            session_names(self.sessions@).index_of_first_ensures(name@);
        }
        let session_id = match position_of_name(&self.sessions, &target) {
            Some(p) => self.sessions[p].id,
            None => return false,
        };
        let ghost s0 = *self;
        self.remove_named_sessions(&target);
        let ghost s1 = *self;
        proof {
            s1.lemma_groups_held();
            s0.lemma_groups_held();
        }
        self.prune_groups();
        let ghost s2 = *self;
        self.request_shutdown_if_became_empty(had_sessions, exit_empty);
        proof {
            assert(self.session_groups == s2.session_groups);
            assert(self.render_requests == s2.render_requests);
            assert(self.pending_notifications == s2.pending_notifications);
            assert(self.sessions == s2.sessions);
        }
        self.invalidate_session(session_id, RenderInvalidation::session_gone());
        self.notify_closed_session("session-closed", session_id, name);
        proof {
            self.lemma_groups_held();
            s2.lemma_groups_held();
        }
        true
    }

    /// The ids of the sessions at positions whose `link_set_id` is `set`.
    pub(crate) fn ids_in_link_set(&self, set: u32) -> (ids: Vec<u32>)
        ensures
            ids@ == ids_at(self.session_list(), matching_positions(link_set_ids(self.session_list()), set)),
    {
        let ghost all = link_set_ids(self.sessions@);
        let mut ids: Vec<u32> = Vec::new();
        let mut i: usize = 0;
        while i < self.sessions.len()
            invariant
                i <= self.sessions@.len(),
                all == link_set_ids(self.sessions@),
                ids@ == ids_at(self.sessions@, matching_positions(all.take(i as int), set)),
            decreases self.sessions.len() - i,
        {
            proof {
                assert(all.take(i + 1).drop_last() =~= all.take(i as int));
                assert(all.take(i + 1).last() == self.sessions@[i as int].link_set_id);
            }
            if self.sessions[i].link_set_id == set {
                ids.push(self.sessions[i].id);
                proof {
                    assert(ids@ =~= ids_at(self.sessions@, matching_positions(all.take(i + 1), set)));
                }
            }
            i += 1;
        }
        proof {
            assert(all.take(i as int) =~= all);
        }
        ids
    }

    /// Owe each of the sessions `ids` a `session gone` redraw, in order.
    fn invalidate_gone(&mut self, ids: &Vec<u32>)
        ensures
            final(self).render_request_list() == old(self).render_request_list() + gone_requests(ids@),
            old(self).same_but_requests(final(self)),
    {
        let mut j: usize = 0;
        while j < ids.len()
            invariant
                j <= ids@.len(),
                self.render_request_list() == old(self).render_request_list() + gone_requests(ids@.take(j as int)),
                old(self).same_but_requests(self),
            decreases ids.len() - j,
        {
            self.invalidate_session(ids[j], RenderInvalidation::session_gone());
            proof {
                assert(gone_requests(ids@.take(j + 1)) =~= gone_requests(ids@.take(j as int)).push(
                    RenderRequest { session_id: Some(ids@[j as int]), reason: RenderInvalidation(4) }));
            }
            j += 1;
        }
        proof {
            assert(ids@.take(j as int) =~= ids@);
        }
    }

    /// `kill-session -g`: remove every session of the group the session
    /// `name` names belongs to; a session in no group is killed alone, as
    /// [`Self::kill_session`] does. Groups left without sessions are
    /// forgotten, a server left empty stops when `exit_empty`, and each
    /// removed session's clients are owed a `session gone` redraw. Whether
    /// `name` named a session.
    pub fn kill_session_group(&mut self, name: &str, exit_empty: bool) -> (removed: bool)
        requires
            old(self).wf(),
        ensures
            final(self).wf(),
            match session_position(old(self).session_list(), name@) {
                None => !removed && *final(self) == *old(self),
                Some(p) => {
                    let set = old(self).session_list()[p].link_set_id;
                    if !old(self).groups().contains_key(set) {
                        killed_session(*old(self), *final(self), name@, exit_empty, removed)
                    } else {
                        let kept = kept_positions(link_set_ids(old(self).session_list()), set);
                        let gone = ids_at(old(self).session_list(), matching_positions(link_set_ids(old(self).session_list()), set));
                        &&& removed
                        &&& final(self).session_list().len() == kept.len()
                        &&& forall|i: int| 0 <= i < kept.len()
                            ==> #[trigger] final(self).session_list()[i] == old(self).session_list()[kept[i]]
                        &&& final(self).groups() == old(self).groups().restrict(live_link_sets(final(self).session_list()))
                        &&& final(self).shutdown_requested_spec() == (old(self).shutdown_requested_spec()
                            || (final(self).session_list().len() == 0 && exit_empty))
                        &&& final(self).render_request_list() == old(self).render_request_list() + gone_requests(gone)
                        &&& final(self).notifications() == old(self).notifications()
                    }
                },
            },
    {
        broadcast use vstd::std_specs::btree::group_btree_axioms;
        let position = match self.session_index(name) {
            Some(p) => p,
            None => return false,
        };
        proof {
            crate::state::lemma_session_position_bounds(self.sessions@, name@);
            assert(self.sessions@.len() == self.sessions.len());
            self.lemma_groups_held();
        }
        let link_set_id = self.sessions[position].link_set_id;
        if !self.is_grouped(&self.sessions[position]) {
            let ghost before = *self;
            let removed = self.kill_session(name, exit_empty);
            proof {
                assert(before == *old(self));
            }
            return removed;
        }
        let had_sessions = self.sessions.len() > 0;
        let removed = self.ids_in_link_set(link_set_id);
        let ghost s0 = *self;
        self.remove_link_set_sessions(link_set_id);
        let ghost s1 = *self;
        proof {
            s1.lemma_groups_held();
            s0.lemma_groups_held();
        }
        self.prune_groups();
        let ghost s2 = *self;
        self.request_shutdown_if_became_empty(had_sessions, exit_empty);
        proof {
            assert(self.session_groups == s2.session_groups);
            assert(self.render_requests == s2.render_requests);
        }
        let ghost s3 = *self;
        self.invalidate_gone(&removed);
        proof {
            self.lemma_groups_held();
            s2.lemma_groups_held();
            assert(self.pending_notifications == s3.pending_notifications);
        }
        true
    }

    /// Remove every session whose id is not `id`, keeping the others in
    /// order.
    fn keep_only_id(&mut self, id: u32)
        requires
            old(self).wf(),
        ensures
            final(self).wf(),
            old(self).same_but_sessions(final(self)),
            final(self).session_list().len() == matching_positions(session_ids(old(self).session_list()), id).len(),
            forall|j: int| 0 <= j < final(self).session_list().len() ==> #[trigger] final(self).session_list()[j]
                == old(self).session_list()[matching_positions(session_ids(old(self).session_list()), id)[j]],
    {
        let ghost before = self.sessions@;
        let ghost ids = session_ids(before);
        let ghost mut k: int = 0;
        let mut i: usize = 0;
        proof {
            lemma_matching_positions(ids, id);
        }
        while i < self.sessions.len()
            invariant
                before == old(self).sessions@,
                ids == session_ids(before),
                0 <= k <= before.len(),
                self.sessions@.len() == i + (before.len() - k),
                matching_positions(ids.take(k), id).len() == i,
                forall|j: int| 0 <= j < i ==> #[trigger] self.sessions@[j] == before[matching_positions(ids.take(k), id)[j]],
                forall|j: int| i <= j < self.sessions@.len() ==> #[trigger] self.sessions@[j] == before[k + (j - i)],
                sessions_wf(self.sessions@),
                old(self).same_but_sessions(self),
            decreases self.sessions.len() - i,
        {
            proof {
                assert(self.sessions@[i as int] == before[k]);
                assert(ids.take(k + 1).drop_last() =~= ids.take(k));
                assert(ids.take(k + 1).last() == before[k].id);
            }
            if self.sessions[i].id != id {
                let ghost prev = self.sessions@;
                self.sessions.remove(i);
                proof {
                    assert forall|j: int| i <= j < self.sessions@.len() implies #[trigger] self.sessions@[j] == before[(k + 1) + (j - i)] by {
                        assert(self.sessions@[j] == prev[j + 1]);
                    }
                    assert forall|j: int| 0 <= j < self.sessions@.len() implies session_wf(#[trigger] self.sessions@[j]) by {
                        if j < i {
                            assert(self.sessions@[j] == prev[j]);
                        } else {
                            assert(self.sessions@[j] == prev[j + 1]);
                        }
                    }
                    k = k + 1;
                }
            } else {
                proof {
                    assert(matching_positions(ids.take(k + 1), id) == matching_positions(ids.take(k), id).push(k));
                    k = k + 1;
                }
                i += 1;
            }
        }
        proof {
            assert(k == before.len());
            assert(ids.take(k) =~= ids);
            crate::state::moves::lemma_matching_positions_order(ids, id);
            crate::state::lemma_ids_at_positions(before, self.sessions@, matching_positions(ids, id), self.next_session_id);
        }
    }

    /// `kill-session -a -t keep`: remove every session but the one `keep`
    /// names (and any sharing its id). Groups left without sessions are
    /// forgotten and each removed session's clients are owed a `session
    /// gone` redraw. Fails when `keep` names no session.
    pub fn kill_other_sessions(&mut self, keep: &str) -> (result: Result<(), StateError>)
        requires
            old(self).wf(),
        ensures
            final(self).wf(),
            match session_position(old(self).session_list(), keep@) {
                None => fails_not_found(result, "can't find session: "@ + keep@) && *final(self) == *old(self),
                Some(p) => {
                    let id = old(self).session_list()[p].id;
                    let kept = matching_positions(session_ids(old(self).session_list()), id);
                    let gone = ids_at(old(self).session_list(), kept_positions(session_ids(old(self).session_list()), id));
                    &&& result is Ok
                    &&& final(self).session_list().len() == kept.len()
                    &&& forall|i: int| 0 <= i < kept.len()
                        ==> #[trigger] final(self).session_list()[i] == old(self).session_list()[kept[i]]
                    &&& final(self).groups() == old(self).groups().restrict(live_link_sets(final(self).session_list()))
                    &&& final(self).render_request_list() == old(self).render_request_list() + gone_requests(gone)
                    &&& final(self).notifications() == old(self).notifications()
                    &&& final(self).shutdown_requested_spec() == old(self).shutdown_requested_spec()
                },
            },
    {
        let position = match self.session_index(keep) {
            Some(p) => p,
            None => return Err(not_found("can't find session: ", keep)),
        };
        proof {
            crate::state::lemma_session_position_bounds(self.sessions@, keep@);
            assert(self.sessions@.len() == self.sessions.len());
        }
        let keep_id = self.sessions[position].id;
        let removed = self.ids_other_than(keep_id);
        let ghost s0 = *self;
        self.keep_only_id(keep_id);
        let ghost s1 = *self;
        proof {
            s1.lemma_groups_held();
            s0.lemma_groups_held();
        }
        self.prune_groups();
        let ghost s2 = *self;
        self.invalidate_gone(&removed);
        proof {
            self.lemma_groups_held();
            s2.lemma_groups_held();
            assert(self.pending_notifications == s2.pending_notifications);
            assert(self.shutdown_requested == s0.shutdown_requested);
            assert(self.sessions == s1.sessions);
        }
        Ok(())
    }

    /// The ids of the sessions whose id is not `id`.
    fn ids_other_than(&self, id: u32) -> (ids: Vec<u32>)
        ensures
            ids@ == ids_at(self.session_list(), kept_positions(session_ids(self.session_list()), id)),
    {
        let ghost all = session_ids(self.sessions@);
        let mut ids: Vec<u32> = Vec::new();
        let mut i: usize = 0;
        while i < self.sessions.len()
            invariant
                i <= self.sessions@.len(),
                all == session_ids(self.sessions@),
                ids@ == ids_at(self.sessions@, kept_positions(all.take(i as int), id)),
            decreases self.sessions.len() - i,
        {
            proof {
                assert(all.take(i + 1).drop_last() =~= all.take(i as int));
                assert(all.take(i + 1).last() == self.sessions@[i as int].id);
            }
            if self.sessions[i].id != id {
                ids.push(self.sessions[i].id);
                proof {
                    assert(ids@ =~= ids_at(self.sessions@, kept_positions(all.take(i + 1), id)));
                }
            }
            i += 1;
        }
        proof {
            assert(all.take(i as int) =~= all);
        }
        ids
    }

    /// The position of the one session whose name begins with `prefix`,
    /// when exactly one does.
    #[verifier::spinoff_prover]
    #[verifier::rlimit(30)]
    fn prefix_match(&self, prefix: &str) -> (pos: Option<usize>)
        ensures
            match unique_prefix_position(self.session_list(), prefix@) {
                Some(p) => pos == Some(p as usize),
                None => pos is None,
            },
    {
        let ghost all = self.sessions@;
        let mut first: Option<usize> = None;
        let mut i: usize = 0;
        while i < self.sessions.len()
            invariant
                i <= all.len(),
                all == self.sessions@,
                match first {
                    Some(f) => f < i && prefixed(all[f as int].name@, prefix@)
                        && forall|j: int| 0 <= j < i && j != f ==> !prefixed(#[trigger] all[j].name@, prefix@),
                    None => forall|j: int| 0 <= j < i ==> !prefixed(#[trigger] all[j].name@, prefix@),
                },
            decreases self.sessions.len() - i,
        {
            let chars = to_chars(self.sessions[i].name.as_str());
            let found = starts_with_at(chars.as_slice(), 0, chars.len(), prefix);
            proof {
                assert(chars@.subrange(0, prefix@.len() as int) =~= all[i as int].name@.take(prefix@.len() as int));
            }
            if found {
                match first {
                    Some(f) => {
                        proof {
                            assert(!(exists|x: int| 0 <= x < all.len() && prefixed(all[x].name@, prefix@)
                                && forall|j: int| 0 <= j < all.len() && j != x ==> !prefixed(#[trigger] all[j].name@, prefix@))) by {
                                if exists|x: int| 0 <= x < all.len() && prefixed(all[x].name@, prefix@)
                                    && forall|j: int| 0 <= j < all.len() && j != x ==> !prefixed(#[trigger] all[j].name@, prefix@) {
                                    let x = choose|x: int| 0 <= x < all.len() && prefixed(all[x].name@, prefix@)
                                        && forall|j: int| 0 <= j < all.len() && j != x ==> !prefixed(#[trigger] all[j].name@, prefix@);
                                    if x != f {
                                        assert(!prefixed(all[f as int].name@, prefix@));
                                    } else {
                                        assert(!prefixed(all[i as int].name@, prefix@));
                                    }
                                }
                            }
                        }
                        return None;
                    },
                    None => {
                        first = Some(i);
                    },
                }
            }
            i += 1;
        }
        proof {
            match first {
                Some(f) => {
                    assert(forall|j: int| 0 <= j < all.len() && j != f ==> !prefixed(#[trigger] all[j].name@, prefix@));
                    let c = choose|x: int| 0 <= x < all.len() && prefixed(all[x].name@, prefix@)
                        && forall|j: int| 0 <= j < all.len() && j != x ==> !prefixed(#[trigger] all[j].name@, prefix@);
                    if c != f {
                        assert(!prefixed(all[f as int].name@, prefix@));
                    }
                },
                None => {},
            }
        }
        first
    }

    /// The session a grouping target names; see [`grouping_target`].
    fn grouping_target_position(&self, target: &str) -> (pos: Option<usize>)
        ensures
            match grouping_target(self.session_list(), target@) {
                Some(p) => pos == Some(p as usize),
                None => pos is None,
            },
    {
        match self.session_index(target) {
            Some(p) => Some(p),
            None => {
                let chars = to_chars(target);
                if chars.len() > 0 && (chars[0] == '$' || chars[0] == '=') {
                    None
                } else {
                    self.prefix_match(target)
                }
            },
        }
    }

    /// The groups, each with its link set and name.
    fn group_entries(&self) -> (entries: Vec<(u32, String)>)
        ensures
            forall|i: int| 0 <= i < entries@.len() ==> self.groups().contains_key(#[trigger] entries@[i].0)
                && self.groups()[entries@[i].0] == entries@[i].1,
            forall|k: u32| #[trigger] self.groups().contains_key(k)
                ==> exists|i: int| 0 <= i < entries@.len() && entries@[i].0 == k,
    {
        broadcast use vstd::laws_cmp::group_laws_cmp, vstd::std_specs::btree::group_btree_axioms;
        proof {
            self.lemma_groups_held();
        }
        let mut out: Vec<(u32, String)> = Vec::new();
        for kv in it: self.session_groups.iter()
            invariant
                forall|i: int| 0 <= i < out@.len() ==> self.session_groups@.contains_key(#[trigger] out@[i].0)
                    && self.session_groups@[out@[i].0] == out@[i].1,
                forall|k: int| 0 <= k < it.index() && self.session_groups@.contains_key(*(#[trigger] it.seq()[k]).0)
                    ==> exists|i: int| 0 <= i < out@.len() && out@[i].0 == *it.seq()[k].0,
        {
            let (k, v) = kv;
            let ghost prev = out@;
            out.push((*k, v.clone()));
            proof {
                assert(out@[out@.len() - 1].0 == *k);
                assert forall|kk: int| 0 <= kk < it.index() && self.session_groups@.contains_key(*(#[trigger] it.seq()[kk]).0) implies
                    exists|i: int| 0 <= i < out@.len() && out@[i].0 == *it.seq()[kk].0 by {
                    let i = choose|i: int| 0 <= i < prev.len() && prev[i].0 == *it.seq()[kk].0;
                    assert(out@[i] == prev[i]);
                }
                assert(*it.seq()[it.index()].0 == *k);
            }
        }
        out
    }

    /// The least link set whose group is called `name`.
    fn group_called_named(&self, name: &str) -> (set: Option<u32>)
        ensures
            set == group_called(self.groups(), name@),
    {
        let entries = self.group_entries();
        let target = owned(name);
        let ghost groups = self.groups();
        let mut best: Option<u32> = None;
        let mut i: usize = 0;
        while i < entries.len()
            invariant
                i <= entries@.len(),
                groups == self.groups(),
                target@ == name@,
                forall|x: int| 0 <= x < entries@.len() ==> groups.contains_key(#[trigger] entries@[x].0)
                    && groups[entries@[x].0] == entries@[x].1,
                match best {
                    Some(b) => groups.contains_key(b) && groups[b]@ == name@
                        && forall|x: int| 0 <= x < i && (#[trigger] entries@[x]).1@ == name@ ==> b <= entries@[x].0,
                    None => forall|x: int| 0 <= x < i ==> (#[trigger] entries@[x]).1@ != name@,
                },
            decreases entries.len() - i,
        {
            let same = entries[i].1 == target;
            proof {
                assert(same == (entries@[i as int].1@ == name@));
            }
            if same {
                match best {
                    Some(b) => {
                        if entries[i].0 < b {
                            best = Some(entries[i].0);
                        }
                    },
                    None => {
                        best = Some(entries[i].0);
                    },
                }
            }
            i += 1;
        }
        proof {
            assert forall|j: u32| groups.contains_key(j) && groups[j]@ == name@ implies
                (match best { Some(b) => b <= j, None => false }) by {
                let x = choose|x: int| 0 <= x < entries@.len() && entries@[x].0 == j;
                assert(entries@[x].1 == groups[j]);
            }
            match best {
                Some(b) => {
                    let c = choose|k: u32| groups.contains_key(k) && groups[k]@ == name@
                        && forall|j: u32| groups.contains_key(j) && groups[j]@ == name@ ==> k <= j;
                    assert(c <= b && b <= c);
                },
                None => {},
            }
        }
        best
    }

    /// `new-session -t target`: add the session `name` to a session group
    /// (see [`Self::create_session`] for the window, size, times and
    /// `session-created`). The group is the one of the session `target`
    /// names (by spec, or as the one name it begins), which is called after
    /// that session when it was in none; else the group called `target`.
    /// A member of an existing group starts with the group's windows and
    /// the size of its first member, with nothing selected before; groups
    /// left without sessions are forgotten. When `target` names neither, the
    /// new session starts a group called `target`. A duplicate name is
    /// refused.
    #[verifier::spinoff_prover]
    #[verifier::rlimit(60)]
    pub fn create_grouped_session(
        &mut self,
        name: &str,
        target: &str,
        window_id: u32,
        base: u32,
        created: String,
        created_epoch: i64,
        now_micros: i64,
    ) -> (result: Result<u32, StateError>)
        requires
            old(self).wf(),
            session_position(old(self).session_list(), session_part(name@)) is None ==> {
                &&& old(self).can_allocate()
                &&& grouping_target_live(*old(self), target@)
            },
        ensures
            final(self).wf(),
            final(self).render_request_list() == old(self).render_request_list(),
            match session_position(old(self).session_list(), session_part(name@)) {
                Some(_) => {
                    &&& result is Err
                    &&& is_already_exists(result->Err_0, "duplicate session: "@ + name@)
                    &&& *final(self) == *old(self)
                },
                None => {
                    let s = final(self).session_list().last();
                    let id = old(self).next_session_id_spec();
                    &&& result == Ok::<u32, StateError>(id)
                    &&& final(self).session_list().len() == old(self).session_list().len() + 1
                    &&& final(self).session_list().drop_last() == old(self).session_list()
                    &&& s.id == id
                    &&& s.name@ == name@
                    &&& s.active == 0
                    &&& s.last_active is None
                    &&& s.last_windows@.len() == 0
                    &&& s.created == created
                    &&& s.created_epoch == created_epoch
                    &&& s.activity_micros == now_micros
                    &&& s.last_attached_micros == 0
                    &&& s.locked_at_activity_micros is None
                    &&& s.environment.values().len() == 0
                    &&& s.environment.hidden().len() == 0
                    &&& s.environment.removed().len() == 0
                    &&& final(self).next_session_id_spec() == id + 1
                    &&& final(self).next_link_set_id_spec() == old(self).next_link_set_id_spec() + 1
                    &&& final(self).next_winlink_id_spec() == old(self).next_winlink_id_spec() + 1
                    &&& final(self).notifications().drop_last() == old(self).notifications()
                    &&& is_session_notification(final(self).notifications().last(), "session-created"@, id,
                        name@, old(self).deferring())
                    &&& match joined_link_set(*old(self), target@) {
                        None => {
                            let set = old(self).next_link_set_id_spec();
                            &&& s.link_set_id == set
                            &&& s.windows@ == seq![Winlink { link_id: old(self).next_winlink_id_spec(), index: base, id: window_id, alert_flags: 0 }]
                            &&& (s.cols, s.rows) == old(self).default_size()
                            &&& final(self).groups().dom() == old(self).groups().dom().insert(set)
                            &&& final(self).groups()[set]@ == target@
                            &&& forall|k: u32| old(self).groups().contains_key(k) && k != set
                                ==> #[trigger] final(self).groups()[k] == old(self).groups()[k]
                        },
                        Some(set) => {
                            let member = old(self).session_list()[link_set_ids(old(self).session_list()).index_of_first(set)->0];
                            let named = match grouping_target(old(self).session_list(), target@) {
                                Some(t) => if old(self).groups().contains_key(set) {
                                    old(self).groups()
                                } else {
                                    old(self).groups().insert(set, old(self).session_list()[t].name)
                                },
                                None => old(self).groups(),
                            };
                            &&& s.link_set_id == set
                            &&& s.windows@ == member.windows@
                            &&& s.cols == member.cols
                            &&& s.rows == member.rows
                            &&& final(self).groups() == named.restrict(live_link_sets(final(self).session_list()))
                        },
                    }
                },
            },
    {
        proof {
            self.lemma_next_id_free();
        }
        broadcast use vstd::laws_cmp::group_laws_cmp, vstd::std_specs::btree::group_btree_axioms;
        if self.find(name).is_some() {
            let mut m = String::new();
            push_text(&mut m, "duplicate session: ");
            push_text(&mut m, name);
            return Err(StateError::AlreadyExists(m));
        }
        proof {
            old(self).lemma_groups_held();
        }
        let target_pos = self.grouping_target_position(target);
        let link_set = match target_pos {
            Some(t) => {
                proof {
                    assert(self.sessions@.len() == self.sessions.len());
                    if let Some(p) = unique_prefix_position(self.sessions@, target@) {
                        let c = choose|i: int| 0 <= i < self.sessions@.len() && prefixed(self.sessions@[i].name@, target@)
                            && forall|j: int| 0 <= j < self.sessions@.len() && j != i ==> !prefixed(#[trigger] self.sessions@[j].name@, target@);
                    }
                    crate::state::lemma_session_position_bounds(self.sessions@, target@);
                }
                let set = self.sessions[t].link_set_id;
                if !self.session_groups.contains_key(&set) {
                    let group_name = self.sessions[t].name.clone();
                    self.session_groups.insert(set, group_name);
                }
                Some(set)
            },
            None => self.group_called_named(target),
        };
        let ghost g0 = *self;
        proof {
            g0.lemma_groups_held();
        }
        match link_set {
            None => {
                let session_id = match self.create_session(name, window_id, base, created, created_epoch, now_micros) {
                    Ok(id) => id,
                    Err(e) => {
                        proof {
                            assert(false);
                        }
                        return Err(e);
                    },
                };
                let ghost g1 = *self;
                proof {
                    g1.lemma_groups_held();
                    session_ids(self.sessions@).index_of_first_ensures(session_id);
                }
                let pos = match crate::state::position_of_id(&self.sessions, session_id) {
                    Some(p) => p,
                    None => self.sessions.len() - 1,
                };
                proof {
                    assert(session_ids(self.sessions@)[self.sessions@.len() - 1] == session_id);
                    assert forall|j: int| 0 <= j < self.sessions@.len() - 1 implies session_ids(self.sessions@)[j] != session_id by {
                        assert(self.sessions@[j] == old(self).sessions@[j]);
                        assert(session_ids(old(self).sessions@)[j] == old(self).sessions@[j].id);
                    }
                }
                let set = self.sessions[pos].link_set_id;
                self.session_groups.insert(set, owned(target));
                proof {
                    self.lemma_groups_held();
                }
                Ok(session_id)
            },
            Some(set) => {
                proof {
                    match target_pos {
                        Some(t) => {
                            lemma_link_set_at(self.sessions@, t);
                        },
                        None => {
                            assert(self.sessions@ == old(self).sessions@);
                            assert(link_set_ids(self.sessions@).contains(set));
                        },
                    }
                    link_set_ids(self.sessions@).index_of_first_ensures(set);
                }
                let member = match self.first_in_link_set(set) {
                    Some(m) => m,
                    None => {
                        proof {
                            assert(false);
                        }
                        0
                    },
                };
                let source_windows = crate::state::windows::copy_links(&self.sessions[member].windows);
                let cols = self.sessions[member].cols;
                let rows = self.sessions[member].rows;
                let session_id = match self.create_session(name, window_id, base, created, created_epoch, now_micros) {
                    Ok(id) => id,
                    Err(e) => {
                        proof {
                            assert(false);
                        }
                        return Err(e);
                    },
                };
                let ghost g1 = *self;
                proof {
                    g1.lemma_groups_held();
                    session_ids(self.sessions@).index_of_first_ensures(session_id);
                    assert(session_ids(self.sessions@)[self.sessions@.len() - 1] == session_id);
                    assert forall|j: int| 0 <= j < self.sessions@.len() - 1 implies session_ids(self.sessions@)[j] != session_id by {
                        assert(self.sessions@[j] == old(self).sessions@[j]);
                        assert(session_ids(old(self).sessions@)[j] == old(self).sessions@[j].id);
                    }
                }
                let pos = self.sessions.len() - 1;
                let mut joined = self.take_session(pos);
                joined.windows = source_windows;
                joined.link_set_id = set;
                joined.active = 0;
                joined.last_active = None;
                joined.last_windows = Vec::new();
                joined.cols = cols;
                joined.rows = rows;
                self.sessions.push(joined);
                proof {
                    assert(self.sessions@.drop_last() =~= g1.sessions@.drop_last());
                    assert forall|i: int| 0 <= i < g1.sessions@.len() implies (#[trigger] self.sessions@[i]).id == g1.sessions@[i].id by {
                        if i < self.sessions@.len() - 1 {
                            assert(self.sessions@[i] == g1.sessions@[i]);
                        }
                    }
                    crate::state::lemma_ids_kept(g1.sessions@, self.sessions@, self.next_session_id, self.next_session_id);
                    assert forall|i: int| 0 <= i < self.sessions@.len() implies session_wf(#[trigger] self.sessions@[i]) by {
                        if i < self.sessions@.len() - 1 {
                            assert(self.sessions@[i] == g1.sessions@[i]);
                            assert(session_wf(g1.sessions@[i]));
                        } else {
                            assert(session_wf(g1.sessions@[i]));
                        }
                    }
                    self.lemma_groups_held();
                }
                self.prune_groups();
                Ok(session_id)
            },
        }
    }

    /// The position of the first session of the link set `set`.
    pub(crate) fn first_in_link_set(&self, set: u32) -> (pos: Option<usize>)
        ensures
            match pos {
                Some(p) => link_set_ids(self.session_list()).index_of_first(set) == Some(p as int),
                None => link_set_ids(self.session_list()).index_of_first(set) is None,
            },
    {
        let ghost ids = link_set_ids(self.sessions@);
        let mut i: usize = 0;
        while i < self.sessions.len()
            invariant
                i <= self.sessions@.len(),
                ids == link_set_ids(self.sessions@),
                forall|j: int| 0 <= j < i ==> ids[j] != set,
            decreases self.sessions.len() - i,
        {
            if self.sessions[i].link_set_id == set {
                proof {
                    assert(ids[i as int] == set);
                    ids.index_of_first_ensures(set);
                }
                return Some(i);
            }
            i += 1;
        }
        proof {
            ids.index_of_first_ensures(set);
        }
        None
    }
}

} // verus!
