use vstd::prelude::*;
use crate::text_map::{TextMap, strictly_sorted, entries_map};

verus! {

/// An environment as `set-environment` keeps it: values by name, the names
/// that are hidden from formats, and the names marked for removal from child
/// processes.
pub struct Environment {
    values: TextMap<String>,
    hidden: TextMap<()>,
    removed: TextMap<()>,
}

/// The text each value holds.
pub open spec fn texts(values: Map<Seq<char>, String>) -> Map<Seq<char>, Seq<char>> {
    values.map_values(|v: String| v@)
}

impl Environment {
    pub closed spec fn wf(&self) -> bool {
        self.values.wf() && self.hidden.wf() && self.removed.wf()
    }

    /// The variables that have a value, each to its value.
    pub closed spec fn values(&self) -> Map<Seq<char>, Seq<char>> {
        texts(self.values@)
    }

    /// The hidden variables.
    pub closed spec fn hidden(&self) -> Set<Seq<char>> {
        self.hidden@.dom()
    }

    /// The variables marked for removal.
    pub closed spec fn removed(&self) -> Set<Seq<char>> {
        self.removed@.dom()
    }

    pub fn new() -> (env: Self)
        ensures
            env.wf(),
            env.values() == Map::<Seq<char>, Seq<char>>::empty(),
            env.hidden() == Set::<Seq<char>>::empty(),
            env.removed() == Set::<Seq<char>>::empty(),
    {
        let env = Environment { values: TextMap::new(), hidden: TextMap::new(), removed: TextMap::new() };
        proof {
            assert(env.values() =~= Map::<Seq<char>, Seq<char>>::empty());
            assert(env.hidden() =~= Set::<Seq<char>>::empty());
            assert(env.removed() =~= Set::<Seq<char>>::empty());
        }
        env
    }

    /// Whether `key` holds exactly `value`.
    fn holds(&self, key: &str, value: &str) -> (same: bool)
        requires
            self.wf(),
        ensures
            same == (self.values().contains_key(key@) && self.values()[key@] == value@),
    {
        match self.values.get(key) {
            Some(old) => *old == value.to_owned(),
            None => false,
        }
    }

    /// Give `key` the value `value`, visible and not marked for removal.
    /// Returns whether anything changed.
    pub fn set(&mut self, key: &str, value: &str) -> (changed: bool)
        requires
            old(self).wf(),
        ensures
            final(self).wf(),
            final(self).values() == old(self).values().insert(key@, value@),
            final(self).hidden() == old(self).hidden().remove(key@),
            final(self).removed() == old(self).removed().remove(key@),
            changed == !(old(self).values().contains_key(key@) && old(self).values()[key@] == value@
                && !old(self).hidden().contains(key@) && !old(self).removed().contains(key@)),
    {
        let same = self.holds(key, value);
        let was_hidden = self.hidden.contains_key(key);
        let was_removed = self.removed.contains_key(key);
        self.values.insert(key, value.to_owned());
        self.hidden.remove(key);
        self.removed.remove(key);
        proof {
            assert(self.values() =~= old(self).values().insert(key@, value@));
            assert(self.hidden() =~= old(self).hidden().remove(key@));
            assert(self.removed() =~= old(self).removed().remove(key@));
        }
        !same || was_hidden || was_removed
    }

    /// Give `key` the value `value`, hidden and not marked for removal.
    /// Returns whether anything changed.
    pub fn set_hidden(&mut self, key: &str, value: &str) -> (changed: bool)
        requires
            old(self).wf(),
        ensures
            final(self).wf(),
            final(self).values() == old(self).values().insert(key@, value@),
            final(self).hidden() == old(self).hidden().insert(key@),
            final(self).removed() == old(self).removed().remove(key@),
            changed == !(old(self).values().contains_key(key@) && old(self).values()[key@] == value@
                && old(self).hidden().contains(key@) && !old(self).removed().contains(key@)),
    {
        let same = self.holds(key, value);
        let was_hidden = self.hidden.contains_key(key);
        let was_removed = self.removed.contains_key(key);
        self.values.insert(key, value.to_owned());
        self.hidden.insert(key, ());
        self.removed.remove(key);
        proof {
            assert(self.values() =~= old(self).values().insert(key@, value@));
            assert(self.hidden() =~= old(self).hidden().insert(key@));
            assert(self.removed() =~= old(self).removed().remove(key@));
        }
        !same || !was_hidden || was_removed
    }

    /// Give `key` the value `value`, hidden or not as `hidden` says, and not
    /// marked for removal.
    pub fn set_with(&mut self, key: &str, value: &str, hidden: bool)
        requires
            old(self).wf(),
        ensures
            final(self).wf(),
            final(self).values() == old(self).values().insert(key@, value@),
            final(self).hidden() == if hidden { old(self).hidden().insert(key@) } else { old(self).hidden().remove(key@) },
            final(self).removed() == old(self).removed().remove(key@),
    {
        if hidden {
            self.set_hidden(key, value);
        } else {
            self.set(key, value);
        }
    }

    /// Drop `key`'s value and mark it for removal. Returns whether anything
    /// changed.
    pub fn remove(&mut self, key: &str) -> (changed: bool)
        requires
            old(self).wf(),
        ensures
            final(self).wf(),
            final(self).values() == old(self).values().remove(key@),
            final(self).hidden() == old(self).hidden().remove(key@),
            final(self).removed() == old(self).removed().insert(key@),
            changed == (old(self).values().contains_key(key@) || old(self).hidden().contains(key@)
                || !old(self).removed().contains(key@)),
    {
        let had_value = self.values.remove(key).is_some();
        let was_hidden = self.hidden.remove(key).is_some();
        let newly_removed = self.removed.insert(key, ()).is_none();
        proof {
            assert(self.values() =~= old(self).values().remove(key@));
            assert(self.hidden() =~= old(self).hidden().remove(key@));
            assert(self.removed() =~= old(self).removed().insert(key@));
        }
        had_value || was_hidden || newly_removed
    }

    /// Forget `key` entirely. Returns whether anything changed.
    pub fn unset(&mut self, key: &str) -> (changed: bool)
        requires
            old(self).wf(),
        ensures
            final(self).wf(),
            final(self).values() == old(self).values().remove(key@),
            final(self).hidden() == old(self).hidden().remove(key@),
            final(self).removed() == old(self).removed().remove(key@),
            changed == (old(self).values().contains_key(key@) || old(self).hidden().contains(key@)
                || old(self).removed().contains(key@)),
    {
        let had_value = self.values.remove(key).is_some();
        let was_hidden = self.hidden.remove(key).is_some();
        let was_removed = self.removed.remove(key).is_some();
        proof {
            assert(self.values() =~= old(self).values().remove(key@));
            assert(self.hidden() =~= old(self).hidden().remove(key@));
            assert(self.removed() =~= old(self).removed().remove(key@));
        }
        had_value || was_hidden || was_removed
    }

    /// Drop `key`'s value and visibility; mark it for removal when `remove`
    /// says so, and clear the mark otherwise.
    pub fn unset_with(&mut self, key: &str, remove: bool)
        requires
            old(self).wf(),
        ensures
            final(self).wf(),
            final(self).values() == old(self).values().remove(key@),
            final(self).hidden() == old(self).hidden().remove(key@),
            final(self).removed() == if remove { old(self).removed().insert(key@) } else { old(self).removed().remove(key@) },
    {
        if remove {
            self.remove(key);
        } else {
            self.unset(key);
        }
    }

    /// The value of `key`.
    pub fn get(&self, key: &str) -> (value: Option<&str>)
        requires
            self.wf(),
        ensures
            match value {
                Some(v) => self.values().contains_key(key@) && self.values()[key@] == v@,
                None => !self.values().contains_key(key@),
            },
    {
        match self.values.get(key) {
            Some(v) => Some(v.as_str()),
            None => None,
        }
    }

    /// Whether `key` is hidden.
    pub fn is_hidden(&self, key: &str) -> (hidden: bool)
        requires
            self.wf(),
        ensures
            hidden == self.hidden().contains(key@),
    {
        self.hidden.contains_key(key)
    }

    /// Whether `key` is marked for removal.
    pub fn is_removed(&self, key: &str) -> (removed: bool)
        requires
            self.wf(),
        ensures
            removed == self.removed().contains(key@),
    {
        self.removed.contains_key(key)
    }

    /// The variables with their values, in name order.
    pub fn entries(&self) -> (entries: &[(String, String)])
        requires
            self.wf(),
        ensures
            strictly_sorted(entries@),
            texts(entries_map(entries@)) == self.values(),
    {
        proof {
            self.values.lemma_view();
        }
        self.values.entries()
    }

    /// The variables marked for removal, in name order.
    pub fn removed_names(&self) -> (names: Vec<String>)
        requires
            self.wf(),
        ensures
            forall|i: int, j: int| 0 <= i < j < names@.len() ==> crate::text_map::text_less(#[trigger] names@[i]@, #[trigger] names@[j]@),
            forall|k: Seq<char>| self.removed().contains(k) <==> exists|i: int| 0 <= i < names@.len() && #[trigger] names@[i]@ == k,
    {
        proof {
            self.removed.lemma_view();
        }
        let entries = self.removed.entries();
        let mut names: Vec<String> = Vec::new();
        let mut i: usize = 0;
        while i < entries.len()
            invariant
                i <= entries@.len(),
                strictly_sorted(entries@),
                entries_map(entries@) == self.removed@,
                names@.len() == i,
                forall|j: int| 0 <= j < i ==> #[trigger] names@[j]@ == entries@[j].0@,
            decreases entries.len() - i,
        {
            names.push(entries[i].0.clone());
            i += 1;
        }
        proof {
            assert forall|k: Seq<char>| self.removed().contains(k) implies exists|i: int| 0 <= i < names@.len() && #[trigger] names@[i]@ == k by {
                let j = choose|j: int| 0 <= j < entries@.len() && entries@[j].0@ == k;
                assert(names@[j]@ == k);
            }
            assert forall|k: Seq<char>| (exists|i: int| 0 <= i < names@.len() && #[trigger] names@[i]@ == k) implies self.removed().contains(k) by {
                let j = choose|j: int| 0 <= j < names@.len() && names@[j]@ == k;
                assert(entries@[j].0@ == k);
            }
        }
        names
    }
}

/// What `set-environment` stores reads back, and an unset variable reads as
/// absent: after `set`, the value is there, visible and not marked for
/// removal; after `unset`, nothing of it is left.
pub proof fn lemma_env_read_back(before: Environment, set: Environment, unset: Environment, key: Seq<char>, value: Seq<char>)
    requires
        set.values() == before.values().insert(key, value),
        set.hidden() == before.hidden().remove(key),
        set.removed() == before.removed().remove(key),
        unset.values() == before.values().remove(key),
        unset.hidden() == before.hidden().remove(key),
        unset.removed() == before.removed().remove(key),
    ensures
        set.values().contains_key(key) && set.values()[key] == value,
        !set.hidden().contains(key) && !set.removed().contains(key),
        !unset.values().contains_key(key) && !unset.hidden().contains(key) && !unset.removed().contains(key),
{
}

} // verus!
