use vstd::prelude::*;

pub mod buffers;
pub mod acl;
pub mod windows;
pub mod moves;
pub mod lifecycle;
pub mod links;
pub mod teardown;
pub mod keys;
pub mod key_defaults;
pub mod panes;
pub mod reap;
pub mod breaks;
use vstd::set_lib::*;
use vstd::relations::injective_on;
use crate::env::Environment;
use crate::render::{RenderInvalidation, option_affects_render, option_invalidation, render_option, option_reasons};
use crate::session::Session;
use crate::text::{
    decimal, find_char, is_first_char, lacks_char, lemma_decimal_injective, parse_unsigned,
    parse_unsigned_at, push_decimal, push_text, to_chars, from_chars,
};
use crate::text_map::TextMap;

verus! {

/// Why a request on the server state was refused, with tmux's message.
#[derive(Clone, Debug, PartialEq, Eq)]
pub enum StateError {
    /// What the request names does not exist.
    NotFound(String),
    /// What the request would create exists already.
    AlreadyExists(String),
    /// The request cannot be carried out on what it names.
    Refused(String),
    /// The request is missing something it needs.
    Invalid(String),
}

impl StateError {
    /// The message a client is shown.
    pub fn message(&self) -> (text: &str)
        ensures
            text@ == match self {
                StateError::NotFound(m) => m@,
                StateError::AlreadyExists(m) => m@,
                StateError::Refused(m) => m@,
                StateError::Invalid(m) => m@,
            },
    {
        match self {
            StateError::NotFound(m) => m.as_str(),
            StateError::AlreadyExists(m) => m.as_str(),
            StateError::Refused(m) => m.as_str(),
            StateError::Invalid(m) => m.as_str(),
        }
    }
}

/// `e` is a `NotFound` error with the message `m`.
pub open spec fn is_not_found(e: StateError, m: Seq<char>) -> bool {
    match e {
        StateError::NotFound(x) => x@ == m,
        _ => false,
    }
}

/// `e` is an `AlreadyExists` error with the message `m`.
pub open spec fn is_already_exists(e: StateError, m: Seq<char>) -> bool {
    match e {
        StateError::AlreadyExists(x) => x@ == m,
        _ => false,
    }
}

/// `r` failed with an `Invalid` error with the message `m`.
pub open spec fn fails_invalid<T>(r: Result<T, StateError>, m: Seq<char>) -> bool {
    match r {
        Err(StateError::Invalid(x)) => x@ == m,
        _ => false,
    }
}

/// `r` failed with a `Refused` error with the message `m`.
pub open spec fn fails_refused<T>(r: Result<T, StateError>, m: Seq<char>) -> bool {
    match r {
        Err(StateError::Refused(x)) => x@ == m,
        _ => false,
    }
}

/// `r` failed with a `NotFound` error with the message `m`.
pub open spec fn fails_not_found<T>(r: Result<T, StateError>, m: Seq<char>) -> bool {
    match r {
        Err(e) => is_not_found(e, m),
        Ok(_) => false,
    }
}

/// A `NotFound` error reading `prefix` then `part`.
pub(crate) fn not_found(prefix: &str, part: &str) -> (err: StateError)
    ensures
        is_not_found(err, prefix@ + part@),
{
    let mut m = String::new();
    push_text(&mut m, prefix);
    push_text(&mut m, part);
    StateError::NotFound(m)
}

/// tmux's `can't find pane: <part>` error.
pub fn pane_not_found(part: &str) -> (err: StateError)
    ensures
        is_not_found(err, "can't find pane: "@ + part@),
{
    not_found("can't find pane: ", part)
}

/// tmux's `can't find window: <part>` error.
pub fn window_not_found(part: &str) -> (err: StateError)
    ensures
        is_not_found(err, "can't find window: "@ + part@),
{
    not_found("can't find window: ", part)
}

/// One event notification waiting to become hook bodies.
#[derive(Clone, Debug)]
pub struct Notification {
    /// Hook name, e.g. `window-linked`.
    pub name: String,
    /// Target the hook's option lookup and its body's default target resolve
    /// against. `None` when the subject no longer exists.
    pub target: Option<String>,
    /// `hook*` format variables the body sees.
    pub vars: Vec<(String, String)>,
    /// Raised outside any command, so the server loop must run its body
    /// rather than the command queue.
    pub deferred: bool,
}

/// Clients that must look at the server state again: those on one session,
/// or all of them.
#[derive(Clone, Copy, Debug, PartialEq, Eq, Structural)]
pub struct RenderRequest {
    pub session_id: Option<u32>,
    pub reason: RenderInvalidation,
}

/// The part of the server's state that its commands decide on: sessions,
/// the global environment, paste buffers, the access list, and what the
/// clients and hooks must be told. Panes, windows and attached clients are
/// driven from outside it.
pub struct ServerState {
    pub(crate) initial_attach_pending: bool,
    pub(crate) sessions: Vec<Session>,
    /// Set once a non-empty server becomes empty while `exit-empty` is on.
    pub(crate) shutdown_requested: bool,
    pub(crate) next_session_id: u32,
    pub(crate) next_link_set_id: u32,
    /// Counter for the identities of new window links.
    pub(crate) next_winlink_id: u64,
    pub(crate) default_cols: u16,
    pub(crate) default_rows: u16,
    /// The global environment (`set-environment -g`).
    pub(crate) environment: Environment,
    /// The paste-buffer stack, newest first: `(name, data)`.
    pub(crate) buffers: Vec<(String, Vec<u8>)>,
    /// Creation or replacement time of each paste buffer, in epoch seconds.
    pub(crate) buffer_created: TextMap<i64>,
    /// Names created by the automatic (unnamed) path.
    pub(crate) automatic_buffers: TextMap<()>,
    /// Counter for the automatic `buffer0`, `buffer1`, ... names.
    pub(crate) next_buffer_id: u32,
    /// How many automatically named buffers are kept (`buffer-limit`).
    pub(crate) buffer_limit: usize,
    /// The server's single marked pane, by pane id.
    pub(crate) marked_pane_id: Option<u32>,
    /// Session groups, by the link set their members share, with the
    /// group's name.
    pub(crate) session_groups: std::collections::BTreeMap<u32, String>,
    /// Users allowed to connect, by uid.
    pub(crate) acl: std::collections::BTreeMap<u32, crate::state::acl::AclAccess>,
    /// The key tables, as bindings in the order they were first made.
    pub(crate) key_tables: Vec<crate::session::KeyEntry>,
    /// The uid that started the server.
    pub(crate) owner_uid: u32,
    /// Notifications raised since the command queue last drained them.
    pub(crate) pending_notifications: Vec<Notification>,
    /// Set while a mutation runs outside the command queue.
    pub(crate) notifications_are_deferred: bool,
    /// Redraws owed to clients since they were last handed out.
    pub(crate) render_requests: Vec<RenderRequest>,
    /// The windows, with their panes and layouts.
    pub(crate) windows: Vec<crate::state::panes::Window>,
}

/// A session's parts are well formed: its environment, and its current
/// window is one of its windows when it has any.
pub open spec fn session_wf(s: Session) -> bool {
    s.environment.wf() && crate::winlinks::active_in_range(s)
}

/// Every one of `sessions` is well formed.
pub open spec fn sessions_wf(sessions: Seq<Session>) -> bool {
    forall|i: int| 0 <= i < sessions.len() ==> session_wf(#[trigger] sessions[i])
}

/// The sessions have distinct ids, each below `next`, the id the next new
/// session gets.
pub open spec fn ids_allocated(sessions: Seq<Session>, next: u32) -> bool {
    &&& session_ids(sessions).no_duplicates()
    &&& forall|i: int| 0 <= i < sessions.len() ==> (#[trigger] sessions[i]).id < next
}

/// Sessions with the same ids, in the same order, keep the ids allocated.
pub proof fn lemma_ids_kept(a: Seq<Session>, b: Seq<Session>, n: u32, m: u32)
    requires
        ids_allocated(a, n),
        b.len() == a.len(),
        forall|i: int| 0 <= i < a.len() ==> (#[trigger] b[i]).id == a[i].id,
        n <= m,
    ensures
        ids_allocated(b, m),
{
    assert(session_ids(b) =~= session_ids(a)) by {
        assert forall|i: int| 0 <= i < a.len() implies #[trigger] session_ids(b)[i] == session_ids(a)[i] by {
            assert(session_ids(b)[i] == b[i].id);
            assert(session_ids(a)[i] == a[i].id);
        }
    }
}

/// Sessions taken from `a` at rising positions keep the ids allocated.
pub proof fn lemma_ids_at_positions(a: Seq<Session>, b: Seq<Session>, positions: Seq<int>, n: u32)
    requires
        ids_allocated(a, n),
        b.len() == positions.len(),
        forall|j: int| 0 <= j < positions.len() ==> 0 <= #[trigger] positions[j] < a.len() && b[j] == a[positions[j]],
        forall|j: int, k: int| 0 <= j < k < positions.len() ==> positions[j] < positions[k],
    ensures
        ids_allocated(b, n),
{
    assert forall|j: int, k: int| 0 <= j < session_ids(b).len() && 0 <= k < session_ids(b).len() && j != k
        implies session_ids(b)[j] != session_ids(b)[k] by {
        assert(session_ids(b)[j] == b[j].id && session_ids(b)[k] == b[k].id);
        assert(b[j] == a[positions[j]] && b[k] == a[positions[k]]);
        assert(session_ids(a)[positions[j]] == a[positions[j]].id);
        assert(session_ids(a)[positions[k]] == a[positions[k]].id);
        assert(positions[j] != positions[k]) by {
            if j < k { assert(positions[j] < positions[k]); } else { assert(positions[k] < positions[j]); }
        }
    }
    assert forall|j: int| 0 <= j < b.len() implies (#[trigger] b[j]).id < n by {
        assert(b[j] == a[positions[j]]);
    }
}

/// A session with the id `n` joined after the others.
pub proof fn lemma_ids_push(a: Seq<Session>, s: Session, n: u32)
    requires
        ids_allocated(a, n),
        s.id == n,
        n < u32::MAX,
    ensures
        ids_allocated(a.push(s), (n + 1) as u32),
{
    let b = a.push(s);
    assert forall|j: int, k: int| 0 <= j < session_ids(b).len() && 0 <= k < session_ids(b).len() && j != k
        implies session_ids(b)[j] != session_ids(b)[k] by {
        assert(session_ids(b)[j] == b[j].id && session_ids(b)[k] == b[k].id);
        if j < a.len() && k < a.len() {
            assert(session_ids(a)[j] == a[j].id && session_ids(a)[k] == a[k].id);
        } else if j < a.len() {
            assert(a[j].id < n);
        } else {
            assert(a[k].id < n);
        }
    }
    assert forall|j: int| 0 <= j < b.len() implies (#[trigger] b[j]).id < n + 1 by {
        if j < a.len() {
            assert(b[j] == a[j]);
        }
    }
}

/// The names of `sessions`, in order.
pub open spec fn session_names(sessions: Seq<Session>) -> Seq<Seq<char>> {
    sessions.map_values(|s: Session| s.name@)
}

/// The ids of `sessions`, in order.
pub open spec fn session_ids(sessions: Seq<Session>) -> Seq<u32> {
    sessions.map_values(|s: Session| s.id)
}

/// `spec` without one leading `=` (tmux's exact-match marker).
pub open spec fn without_exact_marker(spec: Seq<char>) -> Seq<char> {
    if spec.len() > 0 && spec[0] == '=' { spec.skip(1) } else { spec }
}

/// The position of the session a spec names: `$id` names a session by id,
/// anything else by name; a leading `=` is ignored.
pub open spec fn session_position(sessions: Seq<Session>, spec: Seq<char>) -> Option<int> {
    let s = without_exact_marker(spec);
    if s.len() > 0 && s[0] == '$' {
        match parse_unsigned(s.skip(1), u32::MAX as nat) {
            Some(id) => session_ids(sessions).index_of_first(id as u32),
            None => None,
        }
    } else {
        session_names(sessions).index_of_first(s)
    }
}

/// The session part of a target: the text before its first `:`.
pub open spec fn session_part(target: Seq<char>) -> Seq<char> {
    if exists|i: int| is_first_char(target, ':', i) {
        target.take(choose|i: int| is_first_char(target, ':', i))
    } else {
        target
    }
}

/// The least number whose decimal spelling no session uses as its name.
pub open spec fn free_session_number(sessions: Seq<Session>, n: nat) -> bool {
    &&& !session_names(sessions).contains(decimal(n))
    &&& forall|k: nat| k < n ==> session_names(sessions).contains(#[trigger] decimal(k))
}

pub proof fn lemma_session_position_bounds(sessions: Seq<Session>, spec: Seq<char>)
    ensures
        session_position(sessions, spec) matches Some(p) ==> 0 <= p < sessions.len(),
{
    let s = without_exact_marker(spec);
    session_names(sessions).index_of_first_ensures(s);
    if s.len() > 0 && s[0] == '$' {
        if let Some(id) = parse_unsigned(s.skip(1), u32::MAX as nat) {
            session_ids(sessions).index_of_first_ensures(id as u32);
        }
    }
}

/// The position of the first session named `name`.
pub(crate) fn position_of_name(sessions: &Vec<Session>, name: &String) -> (pos: Option<usize>)
    ensures
        match pos {
            Some(i) => session_names(sessions@).index_of_first(name@) == Some(i as int),
            None => session_names(sessions@).index_of_first(name@) is None,
        },
{
    let ghost names = session_names(sessions@);
    let mut i: usize = 0;
    while i < sessions.len()
        invariant
            i <= sessions@.len(),
            names == session_names(sessions@),
            forall|j: int| 0 <= j < i ==> names[j] != name@,
        decreases sessions.len() - i,
    {
        if sessions[i].name == *name {
            proof {
                assert(names[i as int] == name@);
                assert(names.contains(name@));
                names.index_of_first_ensures(name@);
            }
            return Some(i);
        }
        i += 1;
    }
    proof {
        names.index_of_first_ensures(name@);
    }
    None
}

/// The position of the first session with id `id`.
pub(crate) fn position_of_id(sessions: &Vec<Session>, id: u32) -> (pos: Option<usize>)
    ensures
        match pos {
            Some(i) => session_ids(sessions@).index_of_first(id) == Some(i as int),
            None => session_ids(sessions@).index_of_first(id) is None,
        },
{
    let ghost ids = session_ids(sessions@);
    let mut i: usize = 0;
    while i < sessions.len()
        invariant
            i <= sessions@.len(),
            ids == session_ids(sessions@),
            forall|j: int| 0 <= j < i ==> ids[j] != id,
        decreases sessions.len() - i,
    {
        if sessions[i].id == id {
            proof {
                assert(ids[i as int] == id);
                assert(ids.contains(id));
                ids.index_of_first_ensures(id);
            }
            return Some(i);
        }
        i += 1;
    }
    proof {
        ids.index_of_first_ensures(id);
    }
    None
}

/// Numbers below `n` whose spellings all name sessions are at most as many
/// as the sessions.
proof fn lemma_taken_numbers(names: Seq<Seq<char>>, n: nat)
    requires
        forall|k: nat| k < n ==> names.contains(#[trigger] decimal(k)),
    ensures
        n <= names.len(),
{
    assert forall|k: nat| 0 <= k < n implies names.contains(#[trigger] (Seq::<char>::empty() + decimal(k))) by {
        assert(Seq::<char>::empty() + decimal(k) =~= decimal(k));
    }
    lemma_taken_spellings(names, Seq::<char>::empty(), 0, n);
}

/// Numbers from `lo` up to `hi` whose spellings after `prefix` all occur in
/// `names` are at most as many as the names.
pub proof fn lemma_taken_spellings(names: Seq<Seq<char>>, prefix: Seq<char>, lo: nat, hi: nat)
    requires
        lo <= hi,
        forall|k: nat| lo <= k < hi ==> names.contains(#[trigger] (prefix + decimal(k))),
    ensures
        hi - lo <= names.len(),
{
    let x = set_int_range(lo as int, hi as int);
    let f = |k: int| names.index_of(prefix + decimal(k as nat));
    let y = x.map(f);
    lemma_int_range(lo as int, hi as int);
    assert(injective_on(f, x)) by {
        assert forall|a: int, b: int| x.contains(a) && x.contains(b) && #[trigger] f(a) == #[trigger] f(b) implies a == b by {
            assert(names.contains(prefix + decimal(a as nat)));
            assert(names.contains(prefix + decimal(b as nat)));
            assert(names[f(a)] == prefix + decimal(a as nat));
            assert(names[f(b)] == prefix + decimal(b as nat));
            assert((prefix + decimal(a as nat)).skip(prefix.len() as int) =~= decimal(a as nat));
            assert((prefix + decimal(b as nat)).skip(prefix.len() as int) =~= decimal(b as nat));
            lemma_decimal_injective(a as nat, b as nat);
        }
    }
    lemma_map_size(x, y, f);
    let r = set_int_range(0, names.len() as int);
    lemma_int_range(0, names.len() as int);
    assert(y.subset_of(r)) by {
        assert forall|v: int| y.contains(v) implies r.contains(v) by {
            let k = choose|k: int| x.contains(k) && f(k) == v;
            assert(names.contains(prefix + decimal(k as nat)));
        }
    }
    lemma_len_subset(y, r);
}

impl ServerState {
    /// The state's parts are well formed.
    pub closed spec fn wf(&self) -> bool {
        &&& self.environment.wf()
        &&& self.buffer_created.wf()
        &&& self.automatic_buffers.wf()
        &&& sessions_wf(self.sessions@)
        &&& ids_allocated(self.sessions@, self.next_session_id)
    }

    /// New sessions and window links can still be given identities.
    pub closed spec fn can_allocate(&self) -> bool {
        &&& self.next_session_id < u32::MAX
        &&& self.next_link_set_id < u32::MAX
        &&& self.next_winlink_id < u64::MAX
    }

    /// No session has the id the next new session gets.
    pub proof fn lemma_next_id_free(&self)
        requires
            self.wf(),
        ensures
            !session_ids(self.session_list()).contains(self.next_session_id_spec()),
    {
        if session_ids(self.sessions@).contains(self.next_session_id) {
            let k = choose|k: int| 0 <= k < session_ids(self.sessions@).len() && session_ids(self.sessions@)[k] == self.next_session_id;
            assert(session_ids(self.sessions@)[k] == self.sessions@[k].id);
        }
    }

    /// Each session is the first with its id.
    pub proof fn lemma_id_position(&self, p: int)
        requires
            self.wf(),
            0 <= p < self.session_list().len(),
        ensures
            session_ids(self.session_list()).index_of_first(self.session_list()[p].id) == Some(p),
    {
        let ids = session_ids(self.sessions@);
        assert(ids[p] == self.sessions@[p].id);
        ids.index_of_first_ensures(ids[p]);
        let k = ids.index_of_first(ids[p])->0;
        assert(ids[k] == ids[p]);
    }

    /// Identities can be given exactly while no counter is at its limit.
    pub proof fn lemma_can_allocate(&self)
        ensures
            self.can_allocate() == (self.next_session_id_spec() < u32::MAX
                && self.next_link_set_id_spec() < u32::MAX && self.next_winlink_id_spec() < u64::MAX),
    {
    }

    /// The identity the next session gets.
    pub closed spec fn next_session_id_spec(&self) -> u32 {
        self.next_session_id
    }

    /// The link set the next session gets.
    pub closed spec fn next_link_set_id_spec(&self) -> u32 {
        self.next_link_set_id
    }

    /// The identity the next window link gets.
    pub closed spec fn next_winlink_id_spec(&self) -> u64 {
        self.next_winlink_id
    }

    /// The sessions, in creation order.
    pub closed spec fn session_list(&self) -> Seq<Session> {
        self.sessions@
    }

    /// Build an empty server. It remains available for the first client;
    /// `exit-empty` applies only after a non-empty server becomes empty.
    pub fn empty() -> (state: ServerState)
        ensures
            state.wf(),
            state.session_list().len() == 0,
            !state.shutdown_requested_spec(),
            state.initial_attach_pending_spec(),
            state.default_size() == (80u16, 24u16),
            state.can_allocate(),
            state.next_session_id_spec() == 0,
            state.next_link_set_id_spec() == 0,
            state.next_winlink_id_spec() == 0,
            state.groups() == Map::<u32, String>::empty(),
            state.acl_map() == Map::<u32, crate::state::acl::AclAccess>::empty(),
            state.buffer_list() == Seq::<crate::state::buffers::BufferView>::empty(),
            state.automatic_names() == Set::<Seq<char>>::empty(),
            state.created_times() == Map::<Seq<char>, i64>::empty(),
            state.next_buffer_number() == 0,
            state.buffer_limit_value() == 50,
            state.marked() is None,
            state.notifications() == Seq::<Notification>::empty(),
            state.render_request_list() == Seq::<RenderRequest>::empty(),
            !state.deferring(),
            state.key_bindings() == crate::state::keys::default_key_tables(Map::empty()),
            state.window_list().len() == 0,
    {
        let mut state = ServerState {
            initial_attach_pending: true,
            sessions: Vec::new(),
            shutdown_requested: false,
            next_session_id: 0,
            next_link_set_id: 0,
            next_winlink_id: 0,
            default_cols: 80,
            default_rows: 24,
            environment: Environment::new(),
            buffers: Vec::new(),
            buffer_created: TextMap::new(),
            automatic_buffers: TextMap::new(),
            next_buffer_id: 0,
            buffer_limit: 50,
            marked_pane_id: None,
            session_groups: std::collections::BTreeMap::new(),
            acl: std::collections::BTreeMap::new(),
            key_tables: Vec::new(),
            owner_uid: 0,
            pending_notifications: Vec::new(),
            notifications_are_deferred: false,
            render_requests: Vec::new(),
            windows: Vec::new(),
        };
        proof {
            state.lemma_no_keys();
        }
        let ghost before = state;
        state.install_default_key_bindings();
        proof {
            assert(before.same_but_keys(&state));
            state.lemma_no_buffers();
            state.lemma_groups_held();
            state.lemma_acl_held();
            assert(state.pending_notifications@ =~= Seq::<Notification>::empty());
            assert(state.render_requests@ =~= Seq::<RenderRequest>::empty());
        }
        state
    }

    /// The windows, with their panes and layouts.
    pub closed spec fn window_list(&self) -> Seq<crate::state::panes::Window> {
        self.windows@
    }

    /// The size new sessions get: columns and rows.
    pub closed spec fn default_size(&self) -> (u16, u16) {
        (self.default_cols, self.default_rows)
    }

    pub closed spec fn initial_attach_pending_spec(&self) -> bool {
        self.initial_attach_pending
    }

    /// Whether the server still waits for its first client; exit-empty
    /// does not apply before one has attached.
    pub fn initial_attach_pending(&self) -> (pending: bool)
        ensures
            pending == self.initial_attach_pending_spec(),
    {
        self.initial_attach_pending
    }

    /// The sessions, in creation order.
    pub fn sessions(&self) -> (sessions: &[Session])
        ensures
            sessions@ == self.session_list(),
    {
        self.sessions.as_slice()
    }

    pub closed spec fn shutdown_requested_spec(&self) -> bool {
        self.shutdown_requested
    }

    /// Whether the outer listener should stop accepting clients.
    pub fn shutdown_requested(&self) -> (requested: bool)
        ensures
            requested == self.shutdown_requested_spec(),
    {
        self.shutdown_requested
    }

    /// Apply tmux's `exit-empty` policy after a change of the session tree:
    /// a server that had sessions and has none left stops when `exit_empty`.
    pub fn request_shutdown_if_became_empty(&mut self, had_sessions: bool, exit_empty: bool)
        ensures
            final(self).shutdown_requested_spec() == (old(self).shutdown_requested_spec()
                || (had_sessions && old(self).session_list().len() == 0 && exit_empty)),
            final(self).session_list() == old(self).session_list(),
            old(self).same_but_shutdown(final(self)),
    {
        if had_sessions && self.sessions.len() == 0 && exit_empty {
            self.shutdown_requested = true;
        }
    }

    /// The position of the session `spec` names: a session name or `$id`,
    /// with an optional leading `=`.
    pub fn session_index(&self, spec: &str) -> (pos: Option<usize>)
        ensures
            match session_position(self.session_list(), spec@) {
                Some(p) => pos == Some(p as usize),
                None => pos is None,
            },
    {
        let chars = to_chars(spec);
        let n = chars.len();
        let start: usize = if n > 0 && chars[0] == '=' { 1 } else { 0 };
        let ghost s = without_exact_marker(spec@);
        proof {
            assert(s =~= chars@.subrange(start as int, n as int));
        }
        if start < n && chars[start] == '$' {
            proof {
                assert(s.skip(1) =~= chars@.subrange(start + 1, n as int));
            }
            return match parse_unsigned_at(chars.as_slice(), start + 1, n, u32::MAX as u64) {
                Some(id) => {
                    let found = position_of_id(&self.sessions, id as u32);
                    proof {
                        session_ids(self.sessions@).index_of_first_ensures(id as u32);
                    }
                    found
                },
                None => None,
            };
        }
        let name = from_chars(&chars.as_slice()[start..n]);
        proof {
            assert(name@ =~= s);
        }
        let found = position_of_name(&self.sessions, &name);
        proof {
            session_names(self.sessions@).index_of_first_ensures(s);
        }
        found
    }

    /// The session named by a target's session part (before any `:`): a
    /// name or a `$id`.
    pub fn resolve_session(&self, target: &str) -> (session: Option<&Session>)
        ensures
            match session_position(self.session_list(), session_part(target@)) {
                Some(p) => session == Some(&self.session_list()[p]),
                None => session is None,
            },
    {
        let chars = to_chars(target);
        let spec = match find_char(chars.as_slice(), ':') {
            Some(i) => {
                proof {
                    assert(is_first_char(target@, ':', i as int));
                    let j = choose|j: int| is_first_char(target@, ':', j);
                    assert(j == i);
                }
                target.substring_char(0, i)
            },
            None => target,
        };
        proof {
            assert(spec@ =~= session_part(target@));
        }
        match self.session_index(spec) {
            Some(i) => {
                proof {
                    lemma_session_position_bounds(self.sessions@, spec@);
                    assert(self.sessions@.len() == self.sessions.len());
                }
                Some(&self.sessions[i])
            },
            None => None,
        }
    }

    /// The session a target names; see [`Self::resolve_session`].
    pub fn find(&self, name: &str) -> (session: Option<&Session>)
        ensures
            match session_position(self.session_list(), session_part(name@)) {
                Some(p) => session == Some(&self.session_list()[p]),
                None => session is None,
            },
    {
        self.resolve_session(name)
    }

    /// The position of the current session, the newest one.
    pub fn current_session_pos(&self) -> (pos: Result<usize, StateError>)
        ensures
            match pos {
                Ok(p) => self.session_list().len() > 0 && p == self.session_list().len() - 1,
                Err(e) => self.session_list().len() == 0 && is_not_found(e, "no current session"@),
            },
    {
        if self.sessions.len() == 0 {
            let mut m = String::new();
            push_text(&mut m, "no current session");
            return Err(StateError::NotFound(m));
        }
        Ok(self.sessions.len() - 1)
    }

    /// A session spec's position, an empty spec naming the current session.
    pub fn session_or_current(&self, spec: &str) -> (pos: Result<usize, StateError>)
        ensures
            spec@.len() == 0 ==> match pos {
                Ok(p) => self.session_list().len() > 0 && p == self.session_list().len() - 1,
                Err(e) => self.session_list().len() == 0 && is_not_found(e, "no current session"@),
            },
            spec@.len() > 0 ==> match session_position(self.session_list(), spec@) {
                Some(p) => pos == Ok::<usize, StateError>(p as usize),
                None => fails_not_found(pos, "can't find session: "@ + spec@),
            },
    {
        let chars = to_chars(spec);
        if chars.len() == 0 {
            return self.current_session_pos();
        }
        match self.session_index(spec) {
            Some(p) => Ok(p),
            None => Err(not_found("can't find session: ", spec)),
        }
    }

    /// The next unused numeric session name: the least number whose
    /// spelling no session has as its name.
    pub fn next_session_name(&self) -> (name: String)
        ensures
            exists|n: nat| free_session_number(self.session_list(), n) && name@ == decimal(n),
    {
        let ghost names = session_names(self.sessions@);
        let len = self.sessions.len();
        let mut n: u64 = 0;
        loop
            invariant
                names == session_names(self.sessions@),
                names.len() == len,
                n <= names.len(),
                forall|k: nat| k < n ==> names.contains(#[trigger] decimal(k)),
            decreases names.len() - n,
        {
            let mut candidate = String::new();
            push_decimal(&mut candidate, n);
            match position_of_name(&self.sessions, &candidate) {
                None => {
                    proof {
                        names.index_of_first_ensures(candidate@);
                        assert(free_session_number(self.sessions@, n as nat));
                    }
                    return candidate;
                },
                Some(_) => {
                    proof {
                        names.index_of_first_ensures(candidate@);
                        assert forall|k: nat| k < n + 1 implies names.contains(#[trigger] decimal(k)) by {
                            if k < n {
                            }
                        }
                        lemma_taken_numbers(names, (n + 1) as nat);
                    }
                    n += 1;
                },
            }
        }
    }
}

/// `n` is the notification `name` about the session `id` named `session_name`.
pub open spec fn is_session_notification(n: Notification, name: Seq<char>, id: u32, session_name: Seq<char>, deferred: bool) -> bool {
    &&& n.name@ == name
    &&& n.target is Some && n.target->0@ == "$"@ + decimal(id as nat)
    &&& n.vars@.len() == 3
    &&& n.vars@[0].0@ == "hook"@ && n.vars@[0].1@ == name
    &&& n.vars@[1].0@ == "hook_session"@ && n.vars@[1].1@ == "$"@ + decimal(id as nat)
    &&& n.vars@[2].0@ == "hook_session_name"@ && n.vars@[2].1@ == session_name
    &&& n.deferred == deferred
}

/// Notifications the server loop runs.
pub open spec fn deferred_notification() -> spec_fn(Notification) -> bool {
    |n: Notification| n.deferred
}

/// Notifications the command queue runs.
pub open spec fn queued_notification() -> spec_fn(Notification) -> bool {
    |n: Notification| !n.deferred
}

/// `a` is `b` with another name.
pub open spec fn renamed_session(a: Session, b: Session) -> bool {
    Session { name: b.name, ..a } == b
}

/// A string holding `text`.
pub(crate) fn owned(text: &str) -> (s: String)
    ensures
        s@ == text@,
{
    text.to_owned()
}

impl ServerState {
    pub closed spec fn notifications(&self) -> Seq<Notification> {
        self.pending_notifications@
    }

    pub closed spec fn render_request_list(&self) -> Seq<RenderRequest> {
        self.render_requests@
    }

    /// `self` and `other` differ at most in their sessions.
    pub closed spec fn same_but_sessions(&self, other: &ServerState) -> bool {
        ServerState { sessions: other.sessions, ..*self } == *other
    }

    /// `self` and `other` differ at most in whether shutdown was requested.
    pub closed spec fn same_but_shutdown(&self, other: &ServerState) -> bool {
        ServerState { shutdown_requested: other.shutdown_requested, ..*self } == *other
    }

    /// `self` and `other` differ at most in the notifications raised.
    pub closed spec fn same_but_notifications(&self, other: &ServerState) -> bool {
        ServerState { pending_notifications: other.pending_notifications, ..*self } == *other
    }

    /// `self` and `other` differ at most in their key tables.
    pub closed spec fn same_but_keys(&self, other: &ServerState) -> bool {
        ServerState { key_tables: other.key_tables, ..*self } == *other
    }

    /// `self` and `other` differ at most in the windows.
    pub closed spec fn same_but_windows(&self, other: &ServerState) -> bool {
        ServerState { windows: other.windows, ..*self } == *other
    }

    /// `self` and `other` differ at most in the windows and the
    /// notifications.
    pub closed spec fn same_but_windows_notes(&self, other: &ServerState) -> bool {
        ServerState { windows: other.windows, pending_notifications: other.pending_notifications, ..*self } == *other
    }

    /// `self` and `other` differ at most in the redraws owed.
    pub closed spec fn same_but_requests(&self, other: &ServerState) -> bool {
        ServerState { render_requests: other.render_requests, ..*self } == *other
    }

    pub closed spec fn deferring(&self) -> bool {
        self.notifications_are_deferred
    }

    /// Raise the notification `name` with `target` and the format variables
    /// `vars`, preceded by `hook` naming it.
    pub fn notify(&mut self, name: &str, target: Option<String>, vars: Vec<(String, String)>)
        ensures
            final(self).notifications().len() == old(self).notifications().len() + 1,
            final(self).notifications().take(old(self).notifications().len() as int) == old(self).notifications(),
            ({
                let n = final(self).notifications().last();
                &&& n.name@ == name@
                &&& n.target == target
                &&& n.vars@.len() == vars@.len() + 1
                &&& n.vars@[0].0@ == "hook"@ && n.vars@[0].1@ == name@
                &&& n.vars@.skip(1) == vars@
                &&& n.deferred == old(self).deferring()
            }),
            final(self).session_list() == old(self).session_list(),
            final(self).render_request_list() == old(self).render_request_list(),
            final(self).deferring() == old(self).deferring(),
            final(self).wf() == old(self).wf(),
            old(self).same_but_notifications(final(self)),
    {
        let mut vars = vars;
        let ghost given = vars@;
        vars.insert(0, (owned("hook"), owned(name)));
        proof {
            assert(vars@.skip(1) =~= given);
        }
        let deferred = self.notifications_are_deferred;
        self.pending_notifications.push(Notification { name: owned(name), target, vars, deferred });
        proof {
            assert(self.pending_notifications@.take(old(self).pending_notifications@.len() as int) =~= old(self).pending_notifications@);
            assert(self.sessions == old(self).sessions);
        }
    }

    /// tmux's `notify_session`: the event `name` about the session with id
    /// `session_id`. A session that no longer exists raises nothing.
    pub fn notify_session(&mut self, name: &str, session_id: u32)
        ensures
            old(self).same_but_notifications(final(self)),
            final(self).session_list() == old(self).session_list(),
            final(self).render_request_list() == old(self).render_request_list(),
            final(self).deferring() == old(self).deferring(),
            final(self).wf() == old(self).wf(),
            match session_ids(old(self).session_list()).index_of_first(session_id) {
                Some(p) => {
                    &&& final(self).notifications().len() == old(self).notifications().len() + 1
                    &&& final(self).notifications().drop_last() == old(self).notifications()
                    &&& is_session_notification(final(self).notifications().last(), name@, session_id,
                        old(self).session_list()[p].name@, old(self).deferring())
                },
                None => final(self).notifications() == old(self).notifications(),
            },
    {
        let p = match position_of_id(&self.sessions, session_id) {
            Some(p) => p,
            None => return,
        };
        proof {
            session_ids(self.sessions@).index_of_first_ensures(session_id);
        }
        let mut id_text = String::new();
        push_text(&mut id_text, "$");
        push_decimal(&mut id_text, session_id as u64);
        let mut vars: Vec<(String, String)> = Vec::new();
        vars.push((owned("hook_session"), id_text.clone()));
        vars.push((owned("hook_session_name"), self.sessions[p].name.clone()));
        self.notify(name, Some(id_text), vars);
        proof {
            let n = self.pending_notifications@.last();
            assert(n.vars@[1] == n.vars@.skip(1)[0]);
            assert(n.vars@[2] == n.vars@.skip(1)[1]);
            assert(n.vars@.len() == 3);
            assert(n.vars@[1].0@ == "hook_session"@);
            assert(n.vars@[1].1@ == "$"@ + decimal(session_id as nat));
            assert(n.vars@[2].1@ == old(self).sessions@[p as int].name@);
            assert(self.pending_notifications@.drop_last() =~= self.pending_notifications@.take(old(self).pending_notifications@.len() as int));
            assert(n.target is Some);
            assert(n.target->0@ == "$"@ + decimal(session_id as nat));
            assert(n.vars@[0].0@ == "hook"@);
            assert(n.vars@[2].0@ == "hook_session_name"@);
            assert(n.deferred == old(self).notifications_are_deferred);
            assert(session_ids(old(self).sessions@).index_of_first(session_id) == Some(p as int));
            assert(is_session_notification(n, name@, session_id, old(self).sessions@[p as int].name@, old(self).notifications_are_deferred));
        }
    }

    /// Take everything raised since the last drain.
    pub fn take_notifications(&mut self) -> (taken: Vec<Notification>)
        ensures
            taken@ == old(self).notifications(),
            final(self).notifications().len() == 0,
            final(self).session_list() == old(self).session_list(),
            final(self).render_request_list() == old(self).render_request_list(),
            final(self).wf() == old(self).wf(),
    {
        let mut taken: Vec<Notification> = Vec::new();
        std::mem::swap(&mut taken, &mut self.pending_notifications);
        taken
    }

    /// Take the notifications the server loop owns, leaving the rest, in
    /// their order, for the command queue.
    pub fn take_deferred_notifications(&mut self) -> (deferred: Vec<Notification>)
        ensures
            deferred@ == old(self).notifications().filter(deferred_notification()),
            final(self).notifications() == old(self).notifications().filter(queued_notification()),
            final(self).session_list() == old(self).session_list(),
            final(self).render_request_list() == old(self).render_request_list(),
            final(self).wf() == old(self).wf(),
    {
        let mut all: Vec<Notification> = Vec::new();
        std::mem::swap(&mut all, &mut self.pending_notifications);
        let ghost original = all@;
        let mut deferred: Vec<Notification> = Vec::new();
        let mut kept: Vec<Notification> = Vec::new();
        let ghost mut i: int = 0;
        proof {
            reveal(Seq::filter);
            assert(original.take(0).len() == 0);
            assert(original.skip(0) =~= original);
        }
        while all.len() > 0
            invariant
                0 <= i <= original.len(),
                all@ == original.skip(i),
                deferred@ == original.take(i).filter(deferred_notification()),
                kept@ == original.take(i).filter(queued_notification()),
            decreases all.len(),
        {
            let n = all.remove(0);
            proof {
                reveal(Seq::filter);
                assert(n == original[i]);
                assert(original.take(i + 1).drop_last() =~= original.take(i));
                assert(original.take(i + 1).last() == original[i]);
            }
            if n.deferred {
                deferred.push(n);
            } else {
                kept.push(n);
            }
            proof {
                assert(all@ =~= original.skip(i + 1));
                i = i + 1;
            }
        }
        proof {
            assert(original.take(i) =~= original);
        }
        self.pending_notifications = kept;
        deferred
    }

    /// Owe the clients on session `session_id` a redraw for `reason`.
    pub fn invalidate_session(&mut self, session_id: u32, reason: RenderInvalidation)
        ensures
            final(self).render_request_list() == old(self).render_request_list().push(RenderRequest { session_id: Some(session_id), reason }),
            final(self).session_list() == old(self).session_list(),
            final(self).notifications() == old(self).notifications(),
            final(self).deferring() == old(self).deferring(),
            old(self).same_but_requests(final(self)),
            final(self).wf() == old(self).wf(),
    {
        self.render_requests.push(RenderRequest { session_id: Some(session_id), reason });
    }

    /// Owe every client a redraw for `reason`.
    pub fn invalidate_all_clients(&mut self, reason: RenderInvalidation)
        ensures
            final(self).render_request_list() == old(self).render_request_list().push(RenderRequest { session_id: None, reason }),
            final(self).session_list() == old(self).session_list(),
            final(self).notifications() == old(self).notifications(),
            final(self).deferring() == old(self).deferring(),
            old(self).same_but_requests(final(self)),
            final(self).wf() == old(self).wf(),
    {
        self.render_requests.push(RenderRequest { session_id: None, reason });
    }

    /// Hand out the redraws owed so far.
    pub fn take_render_requests(&mut self) -> (requests: Vec<RenderRequest>)
        ensures
            requests@ == old(self).render_request_list(),
            final(self).render_request_list().len() == 0,
            final(self).session_list() == old(self).session_list(),
            final(self).notifications() == old(self).notifications(),
            final(self).deferring() == old(self).deferring(),
            final(self).wf() == old(self).wf(),
    {
        let mut taken: Vec<RenderRequest> = Vec::new();
        std::mem::swap(&mut taken, &mut self.render_requests);
        taken
    }

    /// An option changed: owe every client the redraw it calls for, if any.
    pub fn option_changed(&mut self, name: &str)
        ensures
            final(self).render_request_list() == if render_option(name@) {
                old(self).render_request_list().push(RenderRequest { session_id: None, reason: RenderInvalidation(option_reasons(name@)) })
            } else {
                old(self).render_request_list()
            },
            final(self).session_list() == old(self).session_list(),
            final(self).notifications() == old(self).notifications(),
            final(self).deferring() == old(self).deferring(),
            final(self).wf() == old(self).wf(),
    {
        if option_affects_render(name) {
            self.invalidate_all_clients(option_invalidation(name));
        }
    }

    /// Rename the session `from` names to `to`. Fails when `from` names no
    /// session, or when `to` differs from `from` and names a session already.
    /// A real change owes that session's clients a status redraw and raises
    /// `session-renamed`.
    pub fn rename_session(&mut self, from: &str, to: &str) -> (result: Result<(), StateError>)
        requires
            old(self).wf(),
        ensures
            final(self).wf(),
            match session_position(old(self).session_list(), session_part(from@)) {
                None => {
                    &&& fails_not_found(result, "can't find session: "@ + from@)
                    &&& final(self).session_list() == old(self).session_list()
                    &&& final(self).notifications() == old(self).notifications()
                    &&& final(self).render_request_list() == old(self).render_request_list()
                },
                Some(p) => if from@ != to@ && session_position(old(self).session_list(), session_part(to@)) is Some {
                    &&& result matches Err(e) && is_already_exists(e, "duplicate session: "@ + to@)
                    &&& final(self).session_list() == old(self).session_list()
                    &&& final(self).notifications() == old(self).notifications()
                    &&& final(self).render_request_list() == old(self).render_request_list()
                } else {
                    let id = old(self).session_list()[p].id;
                    let q = session_ids(old(self).session_list()).index_of_first(id)->0;
                    let old_s = old(self).session_list()[q];
                    &&& result is Ok
                    &&& final(self).session_list().len() == old(self).session_list().len()
                    &&& forall|j: int| 0 <= j < old(self).session_list().len() && j != q
                        ==> final(self).session_list()[j] == old(self).session_list()[j]
                    &&& final(self).session_list()[q].name@ == to@
                    &&& renamed_session(old_s, final(self).session_list()[q])
                    &&& if old_s.name@ == to@ {
                        &&& final(self).notifications() == old(self).notifications()
                        &&& final(self).render_request_list() == old(self).render_request_list()
                    } else {
                        &&& final(self).render_request_list() == old(self).render_request_list().push(
                            RenderRequest { session_id: Some(id), reason: RenderInvalidation(1) })
                        &&& final(self).notifications().drop_last() == old(self).notifications()
                        &&& final(self).notifications().len() == old(self).notifications().len() + 1
                        &&& is_session_notification(final(self).notifications().last(), "session-renamed"@, id, to@, old(self).deferring())
                    }
                },
            },
    {
        let session_id = match self.find(from) {
            Some(s) => s.id,
            None => return Err(not_found("can't find session: ", from)),
        };
        proof {
            lemma_session_position_bounds(self.sessions@, session_part(from@));
        }
        let from_s = owned(from);
        let to_s = owned(to);
        if !(from_s == to_s) && self.find(to).is_some() {
            let mut m = String::new();
            push_text(&mut m, "duplicate session: ");
            push_text(&mut m, to);
            return Err(StateError::AlreadyExists(m));
        }
        let q = match position_of_id(&self.sessions, session_id) {
            Some(q) => q,
            None => {
                proof {
                    let p = session_position(self.sessions@, session_part(from@))->0;
                    assert(session_ids(self.sessions@)[p] == session_id);
                    assert(session_ids(self.sessions@).contains(session_id));
                    session_ids(self.sessions@).index_of_first_ensures(session_id);
                }
                return Ok(());
            },
        };
        proof {
            session_ids(self.sessions@).index_of_first_ensures(session_id);
        }
        if self.sessions[q].name == to_s {
            return Ok(());
        }
        let mut session = self.sessions.remove(q);
        session.name = to_s;
        self.sessions.insert(q, session);
        proof {
            assert forall|i: int| 0 <= i < self.sessions@.len() implies session_wf(#[trigger] self.sessions@[i]) by {
                if i != q {
                    assert(self.sessions@[i] == old(self).sessions@[i]);
                } else {
                    assert(session_wf(old(self).sessions@[i]));
                }
            }
            assert forall|i: int| 0 <= i < old(self).sessions@.len() implies (#[trigger] self.sessions@[i]).id == old(self).sessions@[i].id by {
                if i != q {
                    assert(self.sessions@[i] == old(self).sessions@[i]);
                }
            }
            lemma_ids_kept(old(self).sessions@, self.sessions@, self.next_session_id, self.next_session_id);
        }
        self.invalidate_session(session_id, RenderInvalidation::status());
        self.notify_session("session-renamed", session_id);
        proof {
            session_ids(self.sessions@).index_of_first_ensures(session_id);
            session_ids(old(self).sessions@).index_of_first_ensures(session_id);
            assert(session_ids(old(self).sessions@)[q as int] == session_id);
            assert(old(self).sessions@[q as int].id == session_id);
            assert(self.sessions@[q as int].id == session_id);
            assert(session_ids(self.sessions@)[q as int] == session_id);
            assert forall|j: int| 0 <= j < q implies session_ids(self.sessions@)[j] != session_id by {
                assert(self.sessions@[j] == old(self).sessions@[j]);
                assert(session_ids(old(self).sessions@)[j] != session_id);
            }
            assert(session_ids(self.sessions@).index_of_first(session_id) == Some(q as int));
        }
        Ok(())
    }

    /// The server's marked pane, by pane id.
    pub fn marked_pane_id(&self) -> (id: Option<u32>)
        ensures
            id == self.marked(),
    {
        self.marked_pane_id
    }

    pub closed spec fn marked(&self) -> Option<u32> {
        self.marked_pane_id
    }

    /// `select-pane -m` on the pane with id `id`: marking the marked pane
    /// clears the mark, marking any other pane moves the mark to it.
    pub fn toggle_mark(&mut self, id: u32)
        ensures
            final(self).marked() == if old(self).marked() == Some(id) { None } else { Some(id) },
            final(self).session_list() == old(self).session_list(),
            final(self).wf() == old(self).wf(),
    {
        self.marked_pane_id = if self.marked_pane_id == Some(id) { None } else { Some(id) };
    }

    /// `select-pane -M`: clear the server's marked pane unconditionally.
    pub fn clear_mark(&mut self)
        ensures
            final(self).marked() is None,
            final(self).session_list() == old(self).session_list(),
            final(self).wf() == old(self).wf(),
    {
        self.marked_pane_id = None;
    }
}

/// `b` is `a` with another environment.
pub open spec fn reenvironed(a: Session, b: Session) -> bool {
    Session { environment: b.environment, ..a } == b
}

impl ServerState {
    /// The global environment.
    pub closed spec fn global_environment(&self) -> Environment {
        self.environment
    }

    /// `set-environment -g key value`. A change owes every client a status
    /// redraw.
    pub fn set_env(&mut self, key: &str, value: &str)
        requires
            old(self).wf(),
        ensures
            final(self).wf(),
            final(self).global_environment().values() == old(self).global_environment().values().insert(key@, value@),
            final(self).global_environment().hidden() == old(self).global_environment().hidden().remove(key@),
            final(self).global_environment().removed() == old(self).global_environment().removed().remove(key@),
            final(self).render_request_list() == if old(self).global_environment().values().contains_key(key@)
                && old(self).global_environment().values()[key@] == value@
                && !old(self).global_environment().hidden().contains(key@)
                && !old(self).global_environment().removed().contains(key@) {
                old(self).render_request_list()
            } else {
                old(self).render_request_list().push(RenderRequest { session_id: None, reason: RenderInvalidation(1) })
            },
            final(self).session_list() == old(self).session_list(),
            final(self).notifications() == old(self).notifications(),
    {
        let changed = self.environment.set(key, value);
        if changed {
            self.invalidate_all_clients(RenderInvalidation::status());
        }
    }

    /// `set-environment -g -h key value`: set a hidden global variable. A
    /// change owes every client a status redraw.
    pub fn set_hidden_env(&mut self, key: &str, value: &str)
        requires
            old(self).wf(),
        ensures
            final(self).wf(),
            final(self).global_environment().values() == old(self).global_environment().values().insert(key@, value@),
            final(self).global_environment().hidden() == old(self).global_environment().hidden().insert(key@),
            final(self).global_environment().removed() == old(self).global_environment().removed().remove(key@),
            final(self).render_request_list() == if old(self).global_environment().values().contains_key(key@)
                && old(self).global_environment().values()[key@] == value@
                && old(self).global_environment().hidden().contains(key@)
                && !old(self).global_environment().removed().contains(key@) {
                old(self).render_request_list()
            } else {
                old(self).render_request_list().push(RenderRequest { session_id: None, reason: RenderInvalidation(1) })
            },
            final(self).session_list() == old(self).session_list(),
            final(self).notifications() == old(self).notifications(),
    {
        let changed = self.environment.set_hidden(key, value);
        if changed {
            self.invalidate_all_clients(RenderInvalidation::status());
        }
    }

    /// `set-environment -g -r key`: mark a global variable for removal from
    /// child processes. A change owes every client a status redraw.
    pub fn remove_env(&mut self, key: &str)
        requires
            old(self).wf(),
        ensures
            final(self).wf(),
            final(self).global_environment().values() == old(self).global_environment().values().remove(key@),
            final(self).global_environment().hidden() == old(self).global_environment().hidden().remove(key@),
            final(self).global_environment().removed() == old(self).global_environment().removed().insert(key@),
            final(self).render_request_list() == if old(self).global_environment().values().contains_key(key@)
                || old(self).global_environment().hidden().contains(key@)
                || !old(self).global_environment().removed().contains(key@) {
                old(self).render_request_list().push(RenderRequest { session_id: None, reason: RenderInvalidation(1) })
            } else {
                old(self).render_request_list()
            },
            final(self).session_list() == old(self).session_list(),
            final(self).notifications() == old(self).notifications(),
    {
        let changed = self.environment.remove(key);
        if changed {
            self.invalidate_all_clients(RenderInvalidation::status());
        }
    }

    /// `set-environment -g -u key`: forget a global variable. A change owes
    /// every client a status redraw.
    pub fn unset_env(&mut self, key: &str)
        requires
            old(self).wf(),
        ensures
            final(self).wf(),
            final(self).global_environment().values() == old(self).global_environment().values().remove(key@),
            final(self).global_environment().hidden() == old(self).global_environment().hidden().remove(key@),
            final(self).global_environment().removed() == old(self).global_environment().removed().remove(key@),
            final(self).render_request_list() == if old(self).global_environment().values().contains_key(key@)
                || old(self).global_environment().hidden().contains(key@)
                || old(self).global_environment().removed().contains(key@) {
                old(self).render_request_list().push(RenderRequest { session_id: None, reason: RenderInvalidation(1) })
            } else {
                old(self).render_request_list()
            },
            final(self).session_list() == old(self).session_list(),
            final(self).notifications() == old(self).notifications(),
    {
        let changed = self.environment.unset(key);
        if changed {
            self.invalidate_all_clients(RenderInvalidation::status());
        }
    }

    /// The value of a global variable.
    pub fn get_env(&self, key: &str) -> (value: Option<&str>)
        requires
            self.wf(),
        ensures
            match value {
                Some(v) => self.global_environment().values().contains_key(key@) && self.global_environment().values()[key@] == v@,
                None => !self.global_environment().values().contains_key(key@),
            },
    {
        self.environment.get(key)
    }

    /// Whether a global variable is hidden.
    pub fn env_is_hidden(&self, key: &str) -> (hidden: bool)
        requires
            self.wf(),
        ensures
            hidden == self.global_environment().hidden().contains(key@),
    {
        self.environment.is_hidden(key)
    }

    /// Whether a global variable is marked for removal.
    pub fn env_is_removed(&self, key: &str) -> (removed: bool)
        requires
            self.wf(),
        ensures
            removed == self.global_environment().removed().contains(key@),
    {
        self.environment.is_removed(key)
    }

    /// The global variables with their values, in name order.
    pub fn env_iter(&self) -> (entries: &[(String, String)])
        requires
            self.wf(),
        ensures
            crate::text_map::strictly_sorted(entries@),
            crate::env::texts(crate::text_map::entries_map(entries@)) == self.global_environment().values(),
    {
        self.environment.entries()
    }

    /// The global variables marked for removal, in name order.
    pub fn removed_env_iter(&self) -> (names: Vec<String>)
        requires
            self.wf(),
        ensures
            forall|i: int, j: int| 0 <= i < j < names@.len() ==> crate::text_map::text_less(#[trigger] names@[i]@, #[trigger] names@[j]@),
            forall|k: Seq<char>| self.global_environment().removed().contains(k) <==> exists|i: int| 0 <= i < names@.len() && #[trigger] names@[i]@ == k,
    {
        self.environment.removed_names()
    }

    /// Take the session at `p` out, leaving the others in place.
    fn take_session(&mut self, p: usize) -> (session: Session)
        requires
            p < old(self).sessions@.len(),
        ensures
            session == old(self).sessions@[p as int],
            final(self).sessions@ == old(self).sessions@.remove(p as int),
            old(self).same_but_sessions(final(self)),
            final(self).environment == old(self).environment,
            final(self).buffers == old(self).buffers,
            final(self).buffer_created == old(self).buffer_created,
            final(self).automatic_buffers == old(self).automatic_buffers,
            final(self).pending_notifications == old(self).pending_notifications,
            final(self).render_requests == old(self).render_requests,
    {
        self.sessions.remove(p)
    }

    /// `set-environment -t target [-h] key value` on a session's own
    /// environment. Fails when `target` names no session.
    pub fn set_session_env(&mut self, target: &str, key: &str, value: &str, hidden: bool) -> (result: Result<(), StateError>)
        requires
            old(self).wf(),
        ensures
            final(self).wf(),
            final(self).notifications() == old(self).notifications(),
            final(self).render_request_list() == old(self).render_request_list(),
            match session_position(old(self).session_list(), session_part(target@)) {
                None => fails_not_found(result, "can't find session"@) && final(self).session_list() == old(self).session_list(),
                Some(p) => {
                    let e0 = old(self).session_list()[p].environment;
                    let e1 = final(self).session_list()[p].environment;
                    &&& result is Ok
                    &&& final(self).session_list().len() == old(self).session_list().len()
                    &&& forall|j: int| 0 <= j < old(self).session_list().len() && j != p
                        ==> final(self).session_list()[j] == old(self).session_list()[j]
                    &&& reenvironed(old(self).session_list()[p], final(self).session_list()[p])
                    &&& e1.values() == e0.values().insert(key@, value@)
                    &&& e1.hidden() == if hidden { e0.hidden().insert(key@) } else { e0.hidden().remove(key@) }
                    &&& e1.removed() == e0.removed().remove(key@)
                },
            },
    {
        let p = match self.session_index_of_target(target) {
            Some(p) => p,
            None => {
                let mut m = String::new();
                push_text(&mut m, "can't find session");
                return Err(StateError::NotFound(m));
            },
        };
        let mut session = self.take_session(p);
        proof {
            assert(session_wf(old(self).sessions@[p as int]));
        }
        session.environment.set_with(key, value, hidden);
        self.sessions.insert(p, session);
        proof {
            self.lemma_replaced_session_wf(old(self).sessions@, p as int);
        }
        Ok(())
    }

    /// `set-environment -t target -u|-r key` on a session's own environment:
    /// forget `key`, marking it for removal when `remove`. Fails when
    /// `target` names no session.
    pub fn unset_session_env(&mut self, target: &str, key: &str, remove: bool) -> (result: Result<(), StateError>)
        requires
            old(self).wf(),
        ensures
            final(self).wf(),
            final(self).notifications() == old(self).notifications(),
            final(self).render_request_list() == old(self).render_request_list(),
            match session_position(old(self).session_list(), session_part(target@)) {
                None => fails_not_found(result, "can't find session"@) && final(self).session_list() == old(self).session_list(),
                Some(p) => {
                    let e0 = old(self).session_list()[p].environment;
                    let e1 = final(self).session_list()[p].environment;
                    &&& result is Ok
                    &&& final(self).session_list().len() == old(self).session_list().len()
                    &&& forall|j: int| 0 <= j < old(self).session_list().len() && j != p
                        ==> final(self).session_list()[j] == old(self).session_list()[j]
                    &&& reenvironed(old(self).session_list()[p], final(self).session_list()[p])
                    &&& e1.values() == e0.values().remove(key@)
                    &&& e1.hidden() == e0.hidden().remove(key@)
                    &&& e1.removed() == if remove { e0.removed().insert(key@) } else { e0.removed().remove(key@) }
                },
            },
    {
        let p = match self.session_index_of_target(target) {
            Some(p) => p,
            None => {
                let mut m = String::new();
                push_text(&mut m, "can't find session");
                return Err(StateError::NotFound(m));
            },
        };
        let mut session = self.take_session(p);
        proof {
            assert(session_wf(old(self).sessions@[p as int]));
        }
        session.environment.unset_with(key, remove);
        self.sessions.insert(p, session);
        proof {
            self.lemma_replaced_session_wf(old(self).sessions@, p as int);
        }
        Ok(())
    }

    /// The environment of the session `target` names.
    pub fn session_env(&self, target: &str) -> (env: Result<&Environment, StateError>)
        ensures
            match session_position(self.session_list(), session_part(target@)) {
                None => fails_not_found(env, "can't find session"@),
                Some(p) => env == Ok::<&Environment, StateError>(&self.session_list()[p].environment),
            },
    {
        match self.resolve_session(target) {
            Some(s) => Ok(&s.environment),
            None => {
                let mut m = String::new();
                push_text(&mut m, "can't find session");
                Err(StateError::NotFound(m))
            },
        }
    }

    /// The position of the session a target's session part names.
    fn session_index_of_target(&self, target: &str) -> (pos: Option<usize>)
        ensures
            match pos {
                Some(i) => session_position(self.session_list(), session_part(target@)) == Some(i as int)
                    && i < self.session_list().len(),
                None => session_position(self.session_list(), session_part(target@)) is None,
            },
    {
        let chars = to_chars(target);
        let spec = match find_char(chars.as_slice(), ':') {
            Some(i) => {
                proof {
                    assert(is_first_char(target@, ':', i as int));
                    let j = choose|j: int| is_first_char(target@, ':', j);
                    assert(j == i);
                }
                target.substring_char(0, i)
            },
            None => target,
        };
        proof {
            assert(spec@ =~= session_part(target@));
            lemma_session_position_bounds(self.sessions@, spec@);
            assert(self.sessions@.len() == self.sessions.len());
        }
        self.session_index(spec)
    }

    proof fn lemma_replaced_session_wf(&self, before: Seq<Session>, p: int)
        requires
            0 <= p < before.len(),
            forall|i: int| 0 <= i < before.len() ==> session_wf(#[trigger] before[i]),
            self.sessions@.len() == before.len(),
            forall|i: int| 0 <= i < before.len() && i != p ==> self.sessions@[i] == before[i],
            session_wf(self.sessions@[p]),
        ensures
            forall|i: int| 0 <= i < self.sessions@.len() ==> session_wf(#[trigger] self.sessions@[i]),
            ids_allocated(before, self.next_session_id) && self.sessions@[p].id == before[p].id
                ==> ids_allocated(self.sessions@, self.next_session_id),
    {
        assert forall|i: int| 0 <= i < self.sessions@.len() implies session_wf(#[trigger] self.sessions@[i]) by {
            if i != p {
                assert(self.sessions@[i] == before[i]);
            }
        }
        if ids_allocated(before, self.next_session_id) && self.sessions@[p].id == before[p].id {
            assert forall|i: int| 0 <= i < self.sessions@.len() implies (#[trigger] self.sessions@[i]).id == before[i].id by {
                if i != p {
                    assert(self.sessions@[i] == before[i]);
                }
            }
            lemma_ids_kept(before, self.sessions@, self.next_session_id, self.next_session_id);
        }
    }
}

} // verus!
