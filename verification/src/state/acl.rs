use vstd::prelude::*;
use crate::state::ServerState;
use crate::text::{push_char, push_text};

verus! {

/// What one access-list entry grants.
#[derive(Clone, Copy, Debug, PartialEq, Eq, Structural)]
pub enum AclAccess {
    /// The user's clients join able to run any command.
    Write,
    /// The user's clients join read-only.
    ReadOnly,
}

/// What the access list says about a connecting peer.
#[derive(Clone, Copy, Debug, PartialEq, Eq, Structural)]
pub enum AclJoin {
    /// The peer's uid is unlisted, or unknown.
    Denied,
    /// The peer may join, read-only when its entry says so.
    Allowed { read_only: bool },
}

/// The message a refused or evicted client is given as its exit reason.
pub fn access_denied() -> (message: &'static str)
    ensures
        message@ == "access not allowed"@,
{
    "access not allowed"
}

/// The line `server-access -l` shows for a user called `name`.
pub open spec fn acl_line_text(name: Seq<char>, access: AclAccess) -> Seq<char> {
    name + " ("@ + seq![if access == AclAccess::ReadOnly { 'R' } else { 'W' }] + ")\n"@
}

/// The line `server-access -l` shows for the user called `name`: the name
/// and `(R)` for read-only or `(W)` for write access.
pub fn acl_line(name: &str, access: AclAccess) -> (line: String)
    ensures
        line@ == acl_line_text(name@, access),
{
    let mut line = String::new();
    push_text(&mut line, name);
    push_text(&mut line, " (");
    push_char(&mut line, match access {
        AclAccess::ReadOnly => 'R',
        AclAccess::Write => 'W',
    });
    push_text(&mut line, ")\n");
    proof {
        assert(line@ =~= acl_line_text(name@, access));
    }
    line
}

/// Put `(uid, access)` into `entries`, kept in increasing uid order, unless
/// `uid` is there already.
fn insert_sorted(entries: &mut Vec<(u32, AclAccess)>, uid: u32, access: AclAccess)
    requires
        forall|i: int, j: int| 0 <= i < j < old(entries)@.len() ==> old(entries)@[i].0 < old(entries)@[j].0,
    ensures
        forall|i: int, j: int| 0 <= i < j < final(entries)@.len() ==> final(entries)@[i].0 < final(entries)@[j].0,
        forall|i: int| 0 <= i < final(entries)@.len() ==> (#[trigger] final(entries)@[i] == (uid, access)
            || old(entries)@.contains(final(entries)@[i])),
        forall|i: int| 0 <= i < old(entries)@.len() ==> final(entries)@.contains(#[trigger] old(entries)@[i]),
        exists|i: int| 0 <= i < final(entries)@.len() && final(entries)@[i].0 == uid,
{
    let mut i: usize = 0;
    while i < entries.len() && entries[i].0 < uid
        invariant
            i <= entries@.len(),
            forall|j: int| 0 <= j < i ==> entries@[j].0 < uid,
        decreases entries.len() - i,
    {
        i += 1;
    }
    if i < entries.len() && entries[i].0 == uid {
        proof {
            assert(entries@[i as int].0 == uid);
            assert forall|k: int| 0 <= k < entries@.len() implies entries@.contains(#[trigger] entries@[k]) by {
                assert(entries@[k] == entries@[k]);
            }
        }
        return;
    }
    let ghost before = entries@;
    entries.insert(i, (uid, access));
    proof {
        assert(entries@ == before.insert(i as int, (uid, access)));
        assert(entries@[i as int].0 == uid);
        assert forall|a: int, b: int| 0 <= a < b < entries@.len() implies entries@[a].0 < entries@[b].0 by {
            if b < i {
            } else if a < i && b == i {
            } else if a < i {
                assert(entries@[b] == before[b - 1]);
            } else if a == i {
                assert(entries@[b] == before[b - 1]);
                assert(before[i as int].0 > uid);
                if b - 1 > i {
                    assert(before[i as int].0 < before[b - 1].0);
                }
            } else {
                assert(entries@[a] == before[a - 1]);
                assert(entries@[b] == before[b - 1]);
            }
        }
        assert forall|k: int| 0 <= k < entries@.len() implies (#[trigger] entries@[k] == (uid, access) || before.contains(entries@[k])) by {
            if k < i {
                assert(before[k] == entries@[k]);
            } else if k > i {
                assert(before[k - 1] == entries@[k]);
            }
        }
        assert forall|k: int| 0 <= k < before.len() implies entries@.contains(#[trigger] before[k]) by {
            if k < i {
                assert(entries@[k] == before[k]);
            } else {
                assert(entries@[k + 1] == before[k]);
            }
        }
    }
}

impl ServerState {
    /// The access list: each allowed uid with what it grants.
    pub closed spec fn acl_map(&self) -> Map<u32, AclAccess> {
        self.acl@
    }

    /// The access list is what its table holds.
    pub(crate) proof fn lemma_acl_held(&self)
        ensures
            self.acl_map() == self.acl@,
    {
    }

    /// The uid that started the server.
    pub closed spec fn owner(&self) -> u32 {
        self.owner_uid
    }

    /// `self` and `other` differ at most in their access lists.
    pub closed spec fn same_but_acl(&self, other: &ServerState) -> bool {
        ServerState { acl: other.acl, ..*self } == *other
    }

    /// Set the uid that started the server.
    pub fn set_owner_uid(&mut self, uid: u32)
        ensures
            final(self).owner() == uid,
            final(self).acl_map() == old(self).acl_map(),
            final(self).wf() == old(self).wf(),
    {
        self.owner_uid = uid;
        assert(self.sessions == old(self).sessions);
    }

    /// Seed the table: the server's owner, plus root unless the server runs
    /// as root, both with write access.
    pub fn seed_server_acl(&mut self)
        ensures
            final(self).acl_map() == old(self).acl_map().insert(0, AclAccess::Write).insert(old(self).owner(), AclAccess::Write),
            old(self).same_but_acl(final(self)),
    {
        broadcast use vstd::laws_cmp::group_laws_cmp;
        if self.owner_uid != 0 {
            self.acl.insert(0, AclAccess::Write);
        }
        self.acl.insert(self.owner_uid, AclAccess::Write);
        proof {
            assert(self.acl@ =~= old(self).acl@.insert(0, AclAccess::Write).insert(old(self).owner_uid, AclAccess::Write));
        }
    }

    /// How many uids the access list holds.
    pub fn acl_len(&self) -> (n: usize)
        ensures
            n == self.acl_map().len(),
    {
        broadcast use vstd::laws_cmp::group_laws_cmp, vstd::std_specs::btree::group_btree_axioms;
        self.acl.len()
    }

    /// The uid that started this server.
    pub fn server_owner_uid(&self) -> (uid: u32)
        ensures
            uid == self.owner(),
    {
        self.owner_uid
    }

    /// This uid's entry, if it has one.
    pub fn acl_entry(&self, uid: u32) -> (entry: Option<AclAccess>)
        ensures
            entry == (if self.acl_map().contains_key(uid) { Some(self.acl_map()[uid]) } else { None }),
    {
        broadcast use vstd::laws_cmp::group_laws_cmp, vstd::std_specs::btree::group_btree_axioms;
        match self.acl.get(&uid) {
            Some(a) => Some(*a),
            None => None,
        }
    }

    /// Whether a peer with this uid may be served, and under which access:
    /// an unknown or unlisted uid is refused.
    pub fn acl_join(&self, uid: Option<u32>) -> (join: AclJoin)
        ensures
            join == match uid {
                Some(u) => if self.acl_map().contains_key(u) {
                    AclJoin::Allowed { read_only: self.acl_map()[u] == AclAccess::ReadOnly }
                } else {
                    AclJoin::Denied
                },
                None => AclJoin::Denied,
            },
    {
        let entry = match uid {
            Some(u) => self.acl_entry(u),
            None => None,
        };
        match entry {
            None => AclJoin::Denied,
            Some(access) => AclJoin::Allowed { read_only: access == AclAccess::ReadOnly },
        }
    }

    /// `server-access -a`: add the uid with write access, leaving an entry
    /// that already exists alone.
    pub fn acl_allow(&mut self, uid: u32)
        ensures
            final(self).acl_map() == if old(self).acl_map().contains_key(uid) {
                old(self).acl_map()
            } else {
                old(self).acl_map().insert(uid, AclAccess::Write)
            },
            old(self).same_but_acl(final(self)),
    {
        broadcast use vstd::laws_cmp::group_laws_cmp, vstd::std_specs::btree::group_btree_axioms;
        if !self.acl.contains_key(&uid) {
            self.acl.insert(uid, AclAccess::Write);
        }
    }

    /// `server-access -d`: drop the uid's entry, if it has one.
    pub fn acl_deny(&mut self, uid: u32)
        ensures
            final(self).acl_map() == old(self).acl_map().remove(uid),
            old(self).same_but_acl(final(self)),
    {
        broadcast use vstd::laws_cmp::group_laws_cmp, vstd::std_specs::btree::group_btree_axioms;
        self.acl.remove(&uid);
    }

    /// `server-access -r|-w`: change an existing entry's access. A uid with
    /// no entry is left alone. Returns whether the entry existed, in which
    /// case the clients that uid has connected follow it.
    pub fn acl_set_access(&mut self, uid: u32, access: AclAccess) -> (existed: bool)
        ensures
            existed == old(self).acl_map().contains_key(uid),
            final(self).acl_map() == if existed { old(self).acl_map().insert(uid, access) } else { old(self).acl_map() },
            old(self).same_but_acl(final(self)),
    {
        broadcast use vstd::laws_cmp::group_laws_cmp, vstd::std_specs::btree::group_btree_axioms;
        if !self.acl.contains_key(&uid) {
            return false;
        }
        self.acl.insert(uid, access);
        true
    }

    /// The entries `server-access -l` lists: every uid but root's, in uid
    /// order, with what it grants.
    pub fn acl_listing(&self) -> (entries: Vec<(u32, AclAccess)>)
        ensures
            forall|i: int, j: int| 0 <= i < j < entries@.len() ==> entries@[i].0 < entries@[j].0,
            forall|i: int| 0 <= i < entries@.len() ==> entries@[i].0 != 0
                && self.acl_map().contains_key(#[trigger] entries@[i].0) && self.acl_map()[entries@[i].0] == entries@[i].1,
            forall|uid: u32| #[trigger] self.acl_map().contains_key(uid) && uid != 0
                ==> exists|i: int| 0 <= i < entries@.len() && entries@[i].0 == uid,
    {
        broadcast use vstd::laws_cmp::group_laws_cmp, vstd::std_specs::btree::group_btree_axioms;
        let mut out: Vec<(u32, AclAccess)> = Vec::new();
        for kv in it: self.acl.iter()
            invariant
                forall|i: int| 0 <= i < out@.len() ==> out@[i].0 != 0
                    && self.acl@.contains_key(#[trigger] out@[i].0) && self.acl@[out@[i].0] == out@[i].1,
                forall|i: int, j: int| 0 <= i < j < out@.len() ==> out@[i].0 < out@[j].0,
                forall|k: int| 0 <= k < it.index() && *(#[trigger] it.seq()[k]).0 != 0
                    ==> exists|i: int| 0 <= i < out@.len() && out@[i].0 == *it.seq()[k].0,
        {
            let (uid, access) = kv;
            if *uid != 0 {
                insert_sorted(&mut out, *uid, *access);
            }
        }
        out
    }
}

} // verus!
