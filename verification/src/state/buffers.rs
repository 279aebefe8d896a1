use vstd::prelude::*;
use crate::state::{ServerState, owned, lemma_taken_spellings};
use crate::text::{decimal, push_decimal, push_text};

verus! {

/// A paste buffer as its name and its data.
pub type BufferView = (Seq<char>, Seq<u8>);

/// What the stored buffers hold.
pub open spec fn buffer_views(b: Seq<(String, Vec<u8>)>) -> Seq<BufferView> {
    b.map_values(|e: (String, Vec<u8>)| (e.0@, e.1@))
}

/// The buffers' names, in order.
pub open spec fn buffer_names(b: Seq<BufferView>) -> Seq<Seq<char>> {
    b.map_values(|e: BufferView| e.0)
}

/// `i` is the first buffer whose name is automatic.
pub open spec fn is_first_automatic(b: Seq<BufferView>, auto: Set<Seq<char>>, i: int) -> bool {
    &&& 0 <= i < b.len()
    &&& auto.contains(b[i].0)
    &&& forall|j: int| 0 <= j < i ==> !auto.contains(#[trigger] b[j].0)
}

/// `i` is the last buffer whose name is automatic.
pub open spec fn is_last_automatic(b: Seq<BufferView>, auto: Set<Seq<char>>, i: int) -> bool {
    &&& 0 <= i < b.len()
    &&& auto.contains(b[i].0)
    &&& forall|j: int| i < j < b.len() ==> !auto.contains(#[trigger] b[j].0)
}

/// No buffer's name is automatic.
pub open spec fn none_automatic(b: Seq<BufferView>, auto: Set<Seq<char>>) -> bool {
    forall|j: int| 0 <= j < b.len() ==> !auto.contains(#[trigger] b[j].0)
}

/// The newest buffer with an automatic name.
pub open spec fn first_automatic(b: Seq<BufferView>, auto: Set<Seq<char>>) -> Option<int> {
    if exists|i: int| is_first_automatic(b, auto, i) {
        Some(choose|i: int| is_first_automatic(b, auto, i))
    } else {
        None
    }
}

/// The oldest buffer with an automatic name.
pub open spec fn last_automatic(b: Seq<BufferView>, auto: Set<Seq<char>>) -> Option<int> {
    if exists|i: int| is_last_automatic(b, auto, i) {
        Some(choose|i: int| is_last_automatic(b, auto, i))
    } else {
        None
    }
}

/// The buffers, automatic names and creation times once `buffer-limit`
/// holds: while more names are automatic than `limit`, the oldest buffer
/// with an automatic name goes, with its name and time.
pub open spec fn evict(b: Seq<BufferView>, auto: Set<Seq<char>>, created: Map<Seq<char>, i64>, limit: nat) -> (Seq<BufferView>, Set<Seq<char>>, Map<Seq<char>, i64>)
    decreases b.len(),
{
    if auto.len() <= limit {
        (b, auto, created)
    } else {
        match last_automatic(b, auto) {
            Some(i) => evict(b.remove(i), auto.remove(b[i].0), created.remove(b[i].0), limit),
            None => (b, auto, created),
        }
    }
}

/// The automatic name of the buffer numbered `n`.
pub open spec fn automatic_name(n: nat) -> Seq<char> {
    "buffer"@ + decimal(n)
}

/// `b` without the buffers named `name`.
pub open spec fn without_name(b: Seq<BufferView>, name: Seq<char>) -> Seq<BufferView> {
    b.filter(|e: BufferView| e.0 != name)
}

/// The paste buffers, their automatic names, their times and the next
/// automatic number.
pub type BufferState = (Seq<BufferView>, Set<Seq<char>>, Map<Seq<char>, i64>, u32);

/// The text an optional name holds.
pub open spec fn name_view(name: Option<&str>) -> Option<Seq<char>> {
    match name {
        Some(n) => Some(n@),
        None => None,
    }
}

/// The buffers after `set-buffer` stored `data` at time `t`: under a name,
/// that name's first buffer gets the data (or a new newest buffer is made)
/// and the name stops being automatic; without one, a new newest buffer
/// takes the next automatic name and `buffer-limit` is enforced.
pub open spec fn set_result(st: BufferState, limit: nat, name: Option<Seq<char>>, data: Seq<u8>, t: i64) -> BufferState {
    let (list, auto, created, next) = st;
    match name {
        Some(n) => (
            match buffer_names(list).index_of_first(n) {
                Some(i) => list.update(i, (n, data)),
                None => seq![(n, data)] + list,
            },
            auto.remove(n),
            created.insert(n, t),
            next,
        ),
        None => {
            let nm = automatic_name(next as nat);
            let (l, a, c) = evict(seq![(nm, data)] + list, auto.insert(nm), created.insert(nm, t), limit);
            (l, a, c, (next + 1) as u32)
        },
    }
}

/// `k` is the first number from `lo` on whose spelling after `prefix` no
/// buffer is named.
pub open spec fn free_buffer_number(list: Seq<BufferView>, prefix: Seq<char>, lo: nat, k: nat) -> bool {
    &&& lo <= k
    &&& !buffer_names(list).contains(prefix + decimal(k))
    &&& forall|j: nat| lo <= j < k ==> buffer_names(list).contains(#[trigger] (prefix + decimal(j)))
}

/// The data of the first buffer named `name`.
pub open spec fn named_data(list: Seq<BufferView>, name: Seq<char>) -> Option<Seq<u8>> {
    match buffer_names(list).index_of_first(name) {
        Some(i) => Some(list[i].1),
        None => None,
    }
}

/// What `set-buffer -b name` stores, the buffer named `name` then holds:
/// reading it back gives the data, its time is the time it was stored at,
/// and its name is not automatic.
pub proof fn lemma_named_buffer_read_back(st: BufferState, limit: nat, name: Seq<char>, data: Seq<u8>, t: i64)
    ensures
        named_data(set_result(st, limit, Some(name), data, t).0, name) == Some(data),
        set_result(st, limit, Some(name), data, t).2[name] == t,
        !set_result(st, limit, Some(name), data, t).1.contains(name),
{
    let list = st.0;
    let after = set_result(st, limit, Some(name), data, t).0;
    buffer_names(list).index_of_first_ensures(name);
    match buffer_names(list).index_of_first(name) {
        Some(i) => {
            assert(buffer_names(after) =~= buffer_names(list));
        },
        None => {
            assert(buffer_names(after)[0] == name);
            assert(buffer_names(after).contains(name));
            buffer_names(after).index_of_first_ensures(name);
        },
    }
}

/// After `delete-buffer -b name`, no buffer is named `name`.
pub proof fn lemma_deleted_buffer_gone(list: Seq<BufferView>, name: Seq<char>)
    ensures
        named_data(without_name(list, name), name) is None,
        !buffer_names(without_name(list, name)).contains(name),
{
    let w = without_name(list, name);
    lemma_without_name_lacks(list, name);
    assert forall|i: int| 0 <= i < w.len() implies buffer_names(w)[i] != name by {
        assert(w[i].0 != name);
    }
    buffer_names(w).index_of_first_ensures(name);
}

proof fn lemma_without_name_lacks(list: Seq<BufferView>, name: Seq<char>)
    ensures
        forall|i: int| 0 <= i < without_name(list, name).len() ==> #[trigger] without_name(list, name)[i].0 != name,
    decreases list.len(),
{
    reveal(Seq::filter);
    if list.len() > 0 {
        lemma_without_name_lacks(list.drop_last(), name);
        let w = without_name(list, name);
        let f = without_name(list.drop_last(), name);
        if list.last().0 != name {
            assert(w == f.push(list.last()));
            assert forall|i: int| 0 <= i < w.len() implies #[trigger] w[i].0 != name by {
                if i < f.len() {
                    assert(w[i] == f[i]);
                }
            }
        } else {
            assert(w == f);
        }
    }
}

/// Where `x` first stands in `s` with `e` after it.
proof fn lemma_first_of_push(s: Seq<Seq<char>>, e: Seq<char>, x: Seq<char>)
    ensures
        s.push(e).index_of_first(x) == (if s.contains(x) { s.index_of_first(x) } else if e == x {
            Some(s.len() as int)
        } else {
            None::<int>
        }),
{
    let t = s.push(e);
    s.index_of_first_ensures(x);
    t.index_of_first_ensures(x);
    if s.contains(x) {
        let i = s.index_of_first(x)->0;
        assert(t[i] == x);
        assert(t.contains(x));
        let j = t.index_of_first(x)->0;
        assert(j <= i);
        assert(s[j] == x);
    } else if e == x {
        assert(t[s.len() as int] == x);
        let j = t.index_of_first(x)->0;
        if j < s.len() {
            assert(s[j] == x);
        }
    } else {
        if t.contains(x) {
            let j = t.index_of_first(x)->0;
            if j < s.len() {
                assert(s[j] == x);
            }
        }
    }
}

/// Leaving out the buffers named `name` keeps every other name, where it
/// first stands holding the same data, and keeps names from repeating.
proof fn lemma_without_name_same(list: Seq<BufferView>, name: Seq<char>, x: Seq<char>)
    requires
        x != name,
    ensures
        buffer_names(without_name(list, name)).contains(x) == buffer_names(list).contains(x),
        named_data(without_name(list, name), x) == named_data(list, x),
        buffer_names(list).no_duplicates() ==> buffer_names(without_name(list, name)).no_duplicates(),
    decreases list.len(),
{
    reveal(Seq::filter);
    if list.len() == 0 {
        assert(without_name(list, name) =~= list);
    } else {
        let rest = list.drop_last();
        let last = list.last();
        lemma_without_name_same(rest, name, x);
        if last.0 != name {
            lemma_without_name_same(rest, name, last.0);
        }
        let w = without_name(list, name);
        let f = without_name(rest, name);
        assert(buffer_names(list) =~= buffer_names(rest).push(last.0));
        lemma_first_of_push(buffer_names(rest), last.0, x);
        if last.0 != name {
            assert(w == f.push(last));
            assert(buffer_names(w) =~= buffer_names(f).push(last.0));
            lemma_first_of_push(buffer_names(f), last.0, x);
            buffer_names(f).index_of_first_ensures(x);
            buffer_names(rest).index_of_first_ensures(x);
            buffer_names(w).index_of_first_ensures(x);
            buffer_names(list).index_of_first_ensures(x);
            if buffer_names(list).no_duplicates() {
                assert(buffer_names(rest).no_duplicates()) by {
                    assert forall|a: int, b: int| 0 <= a < b < buffer_names(rest).len() implies
                        buffer_names(rest)[a] != buffer_names(rest)[b] by {
                        assert(buffer_names(rest)[a] == buffer_names(list)[a]);
                        assert(buffer_names(rest)[b] == buffer_names(list)[b]);
                    }
                }
                assert(!buffer_names(rest).contains(last.0)) by {
                    if buffer_names(rest).contains(last.0) {
                        let a = choose|a: int| 0 <= a < buffer_names(rest).len() && buffer_names(rest)[a] == last.0;
                        assert(buffer_names(list)[a] == buffer_names(list)[list.len() - 1]);
                    }
                }
                assert forall|a: int, b: int| 0 <= a < b < buffer_names(w).len() implies
                    buffer_names(w)[a] != buffer_names(w)[b] by {
                    if b == buffer_names(w).len() - 1 {
                        assert(buffer_names(f)[a] == buffer_names(w)[a]);
                        assert(buffer_names(f).contains(buffer_names(w)[a]));
                    } else {
                        assert(buffer_names(f)[a] == buffer_names(w)[a]);
                        assert(buffer_names(f)[b] == buffer_names(w)[b]);
                    }
                }
            }
        } else {
            assert(w == f);
            buffer_names(f).index_of_first_ensures(x);
            buffer_names(rest).index_of_first_ensures(x);
            assert(buffer_names(list).contains(x) == buffer_names(rest).contains(x)) by {
                if buffer_names(list).contains(x) {
                    let a = choose|a: int| 0 <= a < buffer_names(list).len() && buffer_names(list)[a] == x;
                    assert(a < rest.len());
                    assert(buffer_names(rest)[a] == x);
                }
                if buffer_names(rest).contains(x) {
                    let a = choose|a: int| 0 <= a < buffer_names(rest).len() && buffer_names(rest)[a] == x;
                    assert(buffer_names(list)[a] == x);
                }
            }
            if buffer_names(list).no_duplicates() {
                assert forall|a: int, b: int| 0 <= a < b < buffer_names(rest).len() implies
                    buffer_names(rest)[a] != buffer_names(rest)[b] by {
                    assert(buffer_names(rest)[a] == buffer_names(list)[a]);
                    assert(buffer_names(rest)[b] == buffer_names(list)[b]);
                }
            }
        }
    }
}

/// `rename-buffer name new_name` on buffers whose names do not repeat,
/// where a buffer is named `name` and `new_name` differs: afterwards no
/// buffer is named `name`, exactly one is named `new_name` and holds what
/// `name` held, and the other buffers stand as they did once any old
/// `new_name` buffer is left out.
pub proof fn lemma_rename_law(list: Seq<BufferView>, name: Seq<char>, new_name: Seq<char>)
    requires
        buffer_names(list).no_duplicates(),
        buffer_names(list).contains(name),
        name != new_name,
    ensures
        ({
            let f = without_name(list, new_name);
            let i = buffer_names(f).index_of_first(name)->0;
            let r = f.update(i, (new_name, f[i].1));
            &&& !buffer_names(r).contains(name)
            &&& named_data(r, new_name) == named_data(list, name)
            &&& forall|a: int, b: int| 0 <= a < r.len() && 0 <= b < r.len() && r[a].0 == new_name && r[b].0 == new_name ==> a == b
            &&& r.len() == f.len()
            &&& forall|j: int| 0 <= j < r.len() && j != i ==> r[j] == f[j]
        }),
{
    let f = without_name(list, new_name);
    lemma_without_name_same(list, new_name, name);
    lemma_without_name_lacks(list, new_name);
    let names = buffer_names(f);
    names.index_of_first_ensures(name);
    let i = names.index_of_first(name)->0;
    let r = f.update(i, (new_name, f[i].1));
    assert forall|j: int| 0 <= j < r.len() implies #[trigger] buffer_names(r)[j] != name by {
        if j != i {
            assert(names[j] != names[i]);
        }
    }
    assert forall|j: int| 0 <= j < r.len() && j != i implies r[j].0 != new_name by {
        assert(f[j].0 != new_name);
    }
    let rn = buffer_names(r);
    assert(rn[i] == new_name);
    rn.index_of_first_ensures(new_name);
    buffer_names(list).index_of_first_ensures(name);
    assert(named_data(f, name) == Some(f[i].1));
}

pub proof fn lemma_first_automatic(b: Seq<BufferView>, auto: Set<Seq<char>>, i: int)
    requires
        is_first_automatic(b, auto, i),
    ensures
        first_automatic(b, auto) == Some(i),
{
    let c = choose|k: int| is_first_automatic(b, auto, k);
    if c < i {
        assert(!auto.contains(b[c].0));
    } else if c > i {
        assert(!auto.contains(b[i].0));
    }
}

pub proof fn lemma_last_automatic(b: Seq<BufferView>, auto: Set<Seq<char>>, i: int)
    requires
        is_last_automatic(b, auto, i),
    ensures
        last_automatic(b, auto) == Some(i),
{
    let c = choose|k: int| is_last_automatic(b, auto, k);
    if c < i {
        assert(!auto.contains(b[i].0));
    } else if c > i {
        assert(!auto.contains(b[c].0));
    }
}

impl ServerState {
    /// The paste buffers, newest first.
    pub closed spec fn buffer_list(&self) -> Seq<BufferView> {
        buffer_views(self.buffers@)
    }

    /// The names that were given automatically.
    pub closed spec fn automatic_names(&self) -> Set<Seq<char>> {
        self.automatic_buffers@.dom()
    }

    /// When each buffer was created or last replaced.
    pub closed spec fn created_times(&self) -> Map<Seq<char>, i64> {
        self.buffer_created@
    }

    /// The number the next automatic name uses.
    pub closed spec fn next_buffer_number(&self) -> u32 {
        self.next_buffer_id
    }

    /// How many automatically named buffers are kept.
    pub closed spec fn buffer_limit_value(&self) -> usize {
        self.buffer_limit
    }

    /// A state whose buffer fields hold nothing has no buffers, no
    /// automatic names, no times, and numbers automatic names from 0.
    pub(crate) proof fn lemma_no_buffers(&self)
        requires
            self.buffers@.len() == 0,
            self.automatic_buffers@ == Map::<Seq<char>, ()>::empty(),
            self.buffer_created@ == Map::<Seq<char>, i64>::empty(),
        ensures
            self.buffer_list() == Seq::<BufferView>::empty(),
            self.automatic_names() == Set::<Seq<char>>::empty(),
            self.created_times() == Map::<Seq<char>, i64>::empty(),
            self.next_buffer_number() == self.next_buffer_id,
            self.buffer_limit_value() == self.buffer_limit,
    {
        assert(buffer_views(self.buffers@) =~= Seq::<BufferView>::empty());
        assert(self.automatic_buffers@.dom() =~= Set::<Seq<char>>::empty());
    }

    /// `self` and `other` differ at most in their paste buffers.
    pub closed spec fn same_but_buffers(&self, other: &ServerState) -> bool {
        ServerState {
            buffers: other.buffers,
            buffer_created: other.buffer_created,
            automatic_buffers: other.automatic_buffers,
            next_buffer_id: other.next_buffer_id,
            ..*self
        } == *other
    }

    /// The number the next automatic name uses.
    pub fn next_buffer_id(&self) -> (n: u32)
        ensures
            n == self.next_buffer_number(),
    {
        self.next_buffer_id
    }

    /// Set how many automatically named buffers are kept (`buffer-limit`).
    pub fn set_buffer_limit(&mut self, limit: usize)
        ensures
            final(self).buffer_limit_value() == limit,
            final(self).buffer_list() == old(self).buffer_list(),
            final(self).automatic_names() == old(self).automatic_names(),
            final(self).created_times() == old(self).created_times(),
            final(self).next_buffer_number() == old(self).next_buffer_number(),
            final(self).wf() == old(self).wf(),
    {
        self.buffer_limit = limit;
        assert(self.sessions == old(self).sessions);
    }

    /// The position of the first buffer named `name`.
    fn buffer_position(&self, name: &String) -> (pos: Option<usize>)
        ensures
            match pos {
                Some(i) => buffer_names(self.buffer_list()).index_of_first(name@) == Some(i as int),
                None => buffer_names(self.buffer_list()).index_of_first(name@) is None,
            },
    {
        let ghost names = buffer_names(self.buffer_list());
        let mut i: usize = 0;
        while i < self.buffers.len()
            invariant
                i <= self.buffers@.len(),
                names == buffer_names(buffer_views(self.buffers@)),
                forall|j: int| 0 <= j < i ==> names[j] != name@,
            decreases self.buffers.len() - i,
        {
            if self.buffers[i].0 == *name {
                proof {
                    assert(names[i as int] == name@);
                    assert(names.contains(name@));
                    names.index_of_first_ensures(name@);
                    assert(self.buffers@.len() == self.buffers.len());
                }
                return Some(i);
            }
            i += 1;
        }
        proof {
            names.index_of_first_ensures(name@);
        }
        None
    }

    /// The position of the newest buffer with an automatic name.
    fn first_automatic_position(&self) -> (pos: Option<usize>)
        requires
            self.wf(),
        ensures
            match pos {
                Some(i) => first_automatic(self.buffer_list(), self.automatic_names()) == Some(i as int),
                None => first_automatic(self.buffer_list(), self.automatic_names()) is None,
            },
    {
        let ghost b = self.buffer_list();
        let ghost auto = self.automatic_names();
        let mut i: usize = 0;
        while i < self.buffers.len()
            invariant
                self.wf(),
                i <= self.buffers@.len(),
                b == buffer_views(self.buffers@),
                auto == self.automatic_buffers@.dom(),
                forall|j: int| 0 <= j < i ==> !auto.contains(#[trigger] b[j].0),
            decreases self.buffers.len() - i,
        {
            if self.automatic_buffers.contains_key(self.buffers[i].0.as_str()) {
                proof {
                    assert(is_first_automatic(b, auto, i as int));
                    lemma_first_automatic(b, auto, i as int);
                }
                return Some(i);
            }
            i += 1;
        }
        proof {
            if exists|k: int| is_first_automatic(b, auto, k) {
                let k = choose|k: int| is_first_automatic(b, auto, k);
                assert(!auto.contains(b[k].0));
            }
        }
        None
    }

    /// The position of the oldest buffer with an automatic name.
    fn last_automatic_position(&self) -> (pos: Option<usize>)
        requires
            self.wf(),
        ensures
            match pos {
                Some(i) => last_automatic(self.buffer_list(), self.automatic_names()) == Some(i as int),
                None => last_automatic(self.buffer_list(), self.automatic_names()) is None,
            },
    {
        let ghost b = self.buffer_list();
        let ghost auto = self.automatic_names();
        let mut i: usize = self.buffers.len();
        while i > 0
            invariant
                self.wf(),
                i <= self.buffers@.len(),
                b == buffer_views(self.buffers@),
                auto == self.automatic_buffers@.dom(),
                forall|j: int| i <= j < b.len() ==> !auto.contains(#[trigger] b[j].0),
            decreases i,
        {
            if self.automatic_buffers.contains_key(self.buffers[i - 1].0.as_str()) {
                proof {
                    assert(is_last_automatic(b, auto, i - 1));
                    lemma_last_automatic(b, auto, i - 1);
                }
                return Some(i - 1);
            }
            i -= 1;
        }
        proof {
            if exists|k: int| is_last_automatic(b, auto, k) {
                let k = choose|k: int| is_last_automatic(b, auto, k);
                assert(!auto.contains(b[k].0));
            }
        }
        None
    }
}

/// Dropping the buffers named `name` keeps them all exactly when none has
/// that name.
pub proof fn lemma_without_name_len(b: Seq<BufferView>, name: Seq<char>)
    ensures
        without_name(b, name).len() <= b.len(),
        (without_name(b, name).len() == b.len()) == !buffer_names(b).contains(name),
    decreases b.len(),
{
    reveal(Seq::filter);
    if b.len() > 0 {
        lemma_without_name_len(b.drop_last(), name);
        let names = buffer_names(b);
        let front = buffer_names(b.drop_last());
        assert(front =~= names.drop_last());
        if b.last().0 == name {
            assert(names[b.len() - 1] == name);
        }
        if names.contains(name) {
            let k = choose|k: int| 0 <= k < names.len() && names[k] == name;
            if k < b.len() - 1 {
                assert(front[k] == name);
            }
        }
        if front.contains(name) {
            let k = choose|k: int| 0 <= k < front.len() && front[k] == name;
            assert(names[k] == name);
        }
    }
}

/// A buffer named `keep` other than `name` survives dropping the buffers
/// named `name`, and the first one stays the first.
pub proof fn lemma_without_name_keeps(b: Seq<BufferView>, name: Seq<char>, keep: Seq<char>)
    requires
        keep != name,
    ensures
        buffer_names(without_name(b, name)).contains(keep) == buffer_names(b).contains(keep),
    decreases b.len(),
{
    reveal(Seq::filter);
    if b.len() > 0 {
        lemma_without_name_keeps(b.drop_last(), name, keep);
        let names = buffer_names(b);
        let front = buffer_names(b.drop_last());
        assert(front =~= names.drop_last());
        let w = without_name(b, name);
        let wf = without_name(b.drop_last(), name);
        if b.last().0 != name {
            assert(w == wf.push(b.last()));
            assert(buffer_names(w) =~= buffer_names(wf).push(b.last().0));
        } else {
            assert(w == wf);
        }
        if names.contains(keep) {
            let k = choose|k: int| 0 <= k < names.len() && names[k] == keep;
            if k < b.len() - 1 {
                assert(front[k] == keep);
            } else {
                assert(buffer_names(w).last() == keep);
            }
        }
        if buffer_names(w).contains(keep) && !buffer_names(wf).contains(keep) {
            assert(b.last().0 == keep);
            assert(names[b.len() - 1] == keep);
        }
        if front.contains(keep) {
            let k = choose|k: int| 0 <= k < front.len() && front[k] == keep;
            assert(names[k] == keep);
        }
        if buffer_names(wf).contains(keep) {
            let k = choose|k: int| 0 <= k < buffer_names(wf).len() && buffer_names(wf)[k] == keep;
            if b.last().0 != name {
                assert(buffer_names(w)[k] == keep);
            }
        }
    }
}

impl ServerState {
    /// A paste buffer's data: the buffer named `name`, or without a name the
    /// newest buffer whose name was given automatically.
    pub fn buffer(&self, name: Option<&str>) -> (data: Option<&[u8]>)
        requires
            self.wf(),
        ensures
            ({
                let found = match name {
                    Some(n) => buffer_names(self.buffer_list()).index_of_first(n@),
                    None => first_automatic(self.buffer_list(), self.automatic_names()),
                };
                match found {
                    Some(i) => data is Some && data->0@ == self.buffer_list()[i].1,
                    None => data is None,
                }
            }),
    {
        let pos = match name {
            Some(n) => self.buffer_position(&owned(n)),
            None => self.first_automatic_position(),
        };
        match pos {
            Some(i) => {
                proof {
                    match name {
                        Some(n) => buffer_names(self.buffer_list()).index_of_first_ensures(n@),
                        None => {},
                    }
                    assert(self.buffers@.len() == self.buffers.len());
                }
                Some(self.buffers[i].1.as_slice())
            },
            None => None,
        }
    }

    /// The paste buffers, newest first (tmux's `list-buffers` order).
    pub fn buffers(&self) -> (buffers: &[(String, Vec<u8>)])
        ensures
            buffer_views(buffers@) == self.buffer_list(),
    {
        self.buffers.as_slice()
    }

    /// The name of the newest buffer whose name was given automatically.
    pub fn automatic_buffer_name(&self) -> (name: Option<&str>)
        requires
            self.wf(),
        ensures
            match first_automatic(self.buffer_list(), self.automatic_names()) {
                Some(i) => name is Some && name->0@ == self.buffer_list()[i].0,
                None => name is None,
            },
    {
        match self.first_automatic_position() {
            Some(i) => {
                proof {
                    assert(self.buffers@.len() == self.buffers.len());
                }
                Some(self.buffers[i].0.as_str())
            },
            None => None,
        }
    }

    /// When the buffer `name` was created or last replaced.
    pub fn buffer_created(&self, name: &str) -> (created: Option<i64>)
        requires
            self.wf(),
        ensures
            match created {
                Some(t) => self.created_times().contains_key(name@) && self.created_times()[name@] == t,
                None => !self.created_times().contains_key(name@),
            },
    {
        match self.buffer_created.get(name) {
            Some(t) => Some(*t),
            None => None,
        }
    }

    /// Keep only the buffers not named `name`, in their order.
    fn drop_buffers_named(&mut self, name: &String)
        ensures
            final(self).buffer_list() == without_name(old(self).buffer_list(), name@),
            old(self).same_but_buffers(final(self)),
            final(self).buffer_created == old(self).buffer_created,
            final(self).automatic_buffers == old(self).automatic_buffers,
            final(self).next_buffer_id == old(self).next_buffer_id,
    {
        let mut all: Vec<(String, Vec<u8>)> = Vec::new();
        std::mem::swap(&mut all, &mut self.buffers);
        let ghost original = buffer_views(all@);
        let mut kept: Vec<(String, Vec<u8>)> = Vec::new();
        let ghost mut i: int = 0;
        proof {
            reveal(Seq::filter);
            assert(original.take(0).len() == 0);
            assert(buffer_views(all@) =~= original.skip(0));
        }
        while all.len() > 0
            invariant
                0 <= i <= original.len(),
                buffer_views(all@) == original.skip(i),
                buffer_views(kept@) == without_name(original.take(i), name@),
            decreases all.len(),
        {
            let ghost rest = all@;
            proof {
                assert(buffer_views(rest).len() == rest.len());
                assert(buffer_views(rest)[0] == original[i]);
            }
            let e = all.remove(0);
            proof {
                reveal(Seq::filter);
                assert(e == rest[0]);
                assert((e.0@, e.1@) == original[i]);
                assert(original.take(i + 1).drop_last() =~= original.take(i));
                assert(original.take(i + 1).last() == original[i]);
            }
            if !(e.0 == *name) {
                let ghost before = kept@;
                kept.push(e);
                proof {
                    assert(buffer_views(kept@) =~= buffer_views(before).push(original[i]));
                }
            }
            proof {
                assert(all@ =~= rest.remove(0));
                assert forall|k: int| 0 <= k < all@.len() implies #[trigger] buffer_views(all@)[k] == original.skip(i + 1)[k] by {
                    assert(all@[k] == rest[k + 1]);
                    assert(buffer_views(rest)[k + 1] == original.skip(i)[k + 1]);
                }
                assert(buffer_views(all@) =~= original.skip(i + 1));
                i = i + 1;
            }
        }
        proof {
            assert(original.take(i) =~= original);
        }
        self.buffers = kept;
    }

    /// Delete every buffer named `name`. Returns whether one existed.
    pub fn delete_buffer(&mut self, name: &str) -> (existed: bool)
        requires
            old(self).wf(),
        ensures
            final(self).wf(),
            existed == buffer_names(old(self).buffer_list()).contains(name@),
            final(self).buffer_list() == without_name(old(self).buffer_list(), name@),
            final(self).automatic_names() == old(self).automatic_names().remove(name@),
            final(self).created_times() == old(self).created_times().remove(name@),
            final(self).next_buffer_number() == old(self).next_buffer_number(),
            final(self).session_list() == old(self).session_list(),
    {
        let before = self.buffers.len();
        let key = owned(name);
        self.drop_buffers_named(&key);
        self.automatic_buffers.remove(name);
        self.buffer_created.remove(name);
        proof {
            lemma_without_name_len(old(self).buffer_list(), name@);
            assert(self.automatic_names() =~= old(self).automatic_names().remove(name@));
        }
        self.buffers.len() != before
    }
}

impl ServerState {
    /// The buffers, their automatic names, their times and the next
    /// automatic number.
    pub open spec fn buffer_state(&self) -> BufferState {
        (self.buffer_list(), self.automatic_names(), self.created_times(), self.next_buffer_number())
    }

    /// Give the buffer at `i` the data `data`.
    fn replace_buffer_data(&mut self, i: usize, data: Vec<u8>)
        requires
            i < old(self).buffer_list().len(),
        ensures
            final(self).buffer_list() == old(self).buffer_list().update(i as int, (old(self).buffer_list()[i as int].0, data@)),
            old(self).same_but_buffers(final(self)),
            final(self).buffer_created == old(self).buffer_created,
            final(self).automatic_buffers == old(self).automatic_buffers,
            final(self).next_buffer_id == old(self).next_buffer_id,
    {
        let (name, _) = self.buffers.remove(i);
        self.buffers.insert(i, (name, data));
        proof {
            assert(self.buffer_list() =~= old(self).buffer_list().update(i as int, (old(self).buffer_list()[i as int].0, data@)));
        }
    }

    /// `buffer-limit`: while more names are automatic than the limit, the
    /// oldest buffer with an automatic name goes. Explicitly named buffers
    /// are kept.
    pub fn enforce_buffer_limit(&mut self)
        requires
            old(self).wf(),
        ensures
            final(self).wf(),
            ({
                let (l, a, c) = evict(old(self).buffer_list(), old(self).automatic_names(), old(self).created_times(),
                    old(self).buffer_limit_value() as nat);
                final(self).buffer_state() == (l, a, c, old(self).next_buffer_number())
            }),
            old(self).same_but_buffers(final(self)),
    {
        let ghost goal = evict(old(self).buffer_list(), old(self).automatic_names(), old(self).created_times(),
            old(self).buffer_limit as nat);
        loop
            invariant
                self.wf(),
                old(self).same_but_buffers(self),
                self.next_buffer_id == old(self).next_buffer_id,
                evict(self.buffer_list(), self.automatic_names(), self.created_times(), self.buffer_limit as nat) == goal,
            ensures
                self.wf(),
                old(self).same_but_buffers(self),
                self.next_buffer_id == old(self).next_buffer_id,
                (self.buffer_list(), self.automatic_names(), self.created_times()) == goal,
            decreases self.buffers.len(),
        {
            proof {
                self.automatic_buffers.lemma_view();
            }
            if self.automatic_buffers.len() <= self.buffer_limit {
                break;
            }
            let i = match self.last_automatic_position() {
                Some(i) => i,
                None => break,
            };
            proof {
                assert(self.buffers@.len() == self.buffers.len());
            }
            let ghost before = *self;
            let (name, _) = self.buffers.remove(i);
            self.automatic_buffers.remove(name.as_str());
            self.buffer_created.remove(name.as_str());
            proof {
                assert(self.buffer_list() =~= before.buffer_list().remove(i as int));
                assert(name@ == before.buffer_list()[i as int].0);
                assert(self.automatic_names() =~= before.automatic_names().remove(name@));
            }
        }
    }

    /// `set-buffer [-b name] data` at time `created`: see [`set_result`].
    pub fn set_buffer(&mut self, name: Option<&str>, data: &[u8], created: i64)
        requires
            old(self).wf(),
            name is None ==> old(self).next_buffer_number() < u32::MAX,
        ensures
            final(self).wf(),
            final(self).buffer_state() == set_result(old(self).buffer_state(), old(self).buffer_limit_value() as nat,
                name_view(name), data@, created),
            old(self).same_but_buffers(final(self)),
    {
        let bytes = vstd::slice::slice_to_vec(data);
        match name {
            Some(n) => {
                self.automatic_buffers.remove(n);
                self.buffer_created.insert(n, created);
                let key = owned(n);
                match self.buffer_position(&key) {
                    Some(i) => {
                        proof {
                            buffer_names(self.buffer_list()).index_of_first_ensures(n@);
                            assert(self.buffers@.len() == self.buffers.len());
                        }
                        self.replace_buffer_data(i, bytes);
                    },
                    None => {
                        self.buffers.insert(0, (key, bytes));
                        proof {
                            assert(self.buffer_list() =~= seq![(n@, data@)] + old(self).buffer_list());
                        }
                    },
                }
                proof {
                    assert(self.automatic_names() =~= old(self).automatic_names().remove(n@));
                }
            },
            None => {
                let mut key = String::new();
                push_text(&mut key, "buffer");
                push_decimal(&mut key, self.next_buffer_id as u64);
                self.next_buffer_id = self.next_buffer_id + 1;
                self.automatic_buffers.insert(key.as_str(), ());
                self.buffer_created.insert(key.as_str(), created);
                let ghost nm = key@;
                self.buffers.insert(0, (key, bytes));
                proof {
                    assert(nm == automatic_name(old(self).next_buffer_id as nat));
                    assert(self.buffer_list() =~= seq![(nm, data@)] + old(self).buffer_list());
                    assert(self.automatic_names() =~= old(self).automatic_names().insert(nm));
                }
                self.enforce_buffer_limit();
            },
        }
    }

    /// Append `data` to a paste buffer: the first buffer named `name`, or
    /// without a name the newest buffer. When there is none it is made, as
    /// `set-buffer` makes one at time `created`.
    pub fn append_buffer(&mut self, name: Option<&str>, data: &[u8], created: i64)
        requires
            old(self).wf(),
            name is None && old(self).buffer_list().len() == 0 ==> old(self).next_buffer_number() < u32::MAX,
        ensures
            final(self).wf(),
            old(self).same_but_buffers(final(self)),
            ({
                let list = old(self).buffer_list();
                let found = match name {
                    Some(n) => buffer_names(list).index_of_first(n@),
                    None => if list.len() > 0 { Some(0int) } else { None },
                };
                match found {
                    Some(i) => {
                        let (l, a, c, n) = old(self).buffer_state();
                        final(self).buffer_state() == (l.update(i, (l[i].0, l[i].1 + data@)), a, c, n)
                    },
                    None => final(self).buffer_state() == set_result(old(self).buffer_state(),
                        old(self).buffer_limit_value() as nat, name_view(name), data@, created),
                }
            }),
    {
        let pos = match name {
            Some(n) => self.buffer_position(&owned(n)),
            None => if self.buffers.len() > 0 { Some(0) } else { None },
        };
        match pos {
            Some(i) => {
                proof {
                    match name {
                        Some(n) => buffer_names(self.buffer_list()).index_of_first_ensures(n@),
                        None => {},
                    }
                    assert(self.buffers@.len() == self.buffers.len());
                }
                let mut joined = vstd::slice::slice_to_vec(self.buffers[i].1.as_slice());
                joined.extend_from_slice(data);
                proof {
                    assert(joined@ =~= self.buffer_list()[i as int].1 + data@);
                }
                self.replace_buffer_data(i, joined);
            },
            None => {
                self.set_buffer(name, data, created);
            },
        }
    }

    /// Rename the buffers' `name` to `new_name`. Fails (`false`) when no
    /// buffer is named `name`. Buffers already named `new_name` are
    /// replaced, the first buffer named `name` takes the new name and its
    /// time, and neither name stays automatic.
    pub fn rename_buffer(&mut self, name: &str, new_name: &str) -> (renamed: bool)
        requires
            old(self).wf(),
        ensures
            final(self).wf(),
            old(self).same_but_buffers(final(self)),
            renamed == buffer_names(old(self).buffer_list()).contains(name@),
            !renamed ==> final(self).buffer_state() == old(self).buffer_state(),
            renamed ==> {
                &&& final(self).automatic_names() == old(self).automatic_names().remove(name@).remove(new_name@)
                &&& final(self).next_buffer_number() == old(self).next_buffer_number()
                &&& if name@ == new_name@ {
                    &&& final(self).buffer_list() == old(self).buffer_list()
                    &&& final(self).created_times() == old(self).created_times()
                } else {
                    let f = without_name(old(self).buffer_list(), new_name@);
                    let i = buffer_names(f).index_of_first(name@)->0;
                    let c = old(self).created_times();
                    &&& final(self).buffer_list() == f.update(i, (new_name@, f[i].1))
                    &&& final(self).created_times() == if c.contains_key(name@) {
                        c.remove(name@).insert(new_name@, c[name@])
                    } else {
                        c
                    }
                }
            },
    {
        let key = owned(name);
        let new_key = owned(new_name);
        if self.buffer_position(&key).is_none() {
            proof {
                buffer_names(self.buffer_list()).index_of_first_ensures(name@);
            }
            return false;
        }
        proof {
            buffer_names(self.buffer_list()).index_of_first_ensures(name@);
        }
        if !(key == new_key) {
            self.drop_buffers_named(&new_key);
            proof {
                lemma_without_name_keeps(old(self).buffer_list(), new_name@, name@);
                buffer_names(self.buffer_list()).index_of_first_ensures(name@);
            }
            let i = match self.buffer_position(&key) {
                Some(i) => i,
                None => return true,
            };
            proof {
                assert(self.buffers@.len() == self.buffers.len());
            }
            let (_, data) = self.buffers.remove(i);
            let ghost f = self.buffer_list();
            self.buffers.insert(i, (new_key, data));
            proof {
                assert(self.buffer_list() =~= without_name(old(self).buffer_list(), new_name@).update(i as int,
                    (new_name@, without_name(old(self).buffer_list(), new_name@)[i as int].1)));
            }
            match self.buffer_created.remove(name) {
                Some(c) => {
                    self.buffer_created.insert(new_name, c);
                },
                None => {},
            }
        }
        self.automatic_buffers.remove(name);
        self.automatic_buffers.remove(new_name);
        proof {
            assert(self.automatic_names() =~= old(self).automatic_names().remove(name@).remove(new_name@));
        }
        true
    }

    /// Store `data` under a fresh name: with a prefix, the first
    /// `prefix<number>` no buffer has, counting from the next automatic
    /// number (which then moves past it); without one, as an unnamed
    /// `set-buffer`.
    pub fn add_buffer_with_prefix(&mut self, prefix: Option<&str>, data: &[u8], created: i64)
        requires
            old(self).wf(),
            prefix is None ==> old(self).next_buffer_number() < u32::MAX,
            prefix is Some ==> old(self).next_buffer_number() + old(self).buffer_list().len() < u32::MAX,
        ensures
            final(self).wf(),
            old(self).same_but_buffers(final(self)),
            prefix is None ==> final(self).buffer_state() == set_result(old(self).buffer_state(),
                old(self).buffer_limit_value() as nat, None, data@, created),
            prefix is Some ==> exists|k: nat| #![trigger free_buffer_number(old(self).buffer_list(), prefix->0@, old(self).next_buffer_number() as nat, k)]
                free_buffer_number(old(self).buffer_list(), prefix->0@, old(self).next_buffer_number() as nat, k) && {
                let nm = prefix->0@ + decimal(k);
                &&& final(self).buffer_list() == seq![(nm, data@)] + old(self).buffer_list()
                &&& final(self).automatic_names() == old(self).automatic_names().remove(nm)
                &&& final(self).created_times() == old(self).created_times().insert(nm, created)
                &&& final(self).next_buffer_number() == k + 1
            },
    {
        let p = match prefix {
            Some(p) => p,
            None => {
                self.set_buffer(None, data, created);
                return;
            },
        };
        let ghost names = buffer_names(self.buffer_list());
        let ghost lo = self.next_buffer_id as nat;
        let mut index: u32 = self.next_buffer_id;
        loop
            invariant
                self.wf(),
                *self == *old(self),
                names == buffer_names(self.buffer_list()),
                lo == self.next_buffer_id,
                lo <= index,
                lo + names.len() < u32::MAX,
                index <= lo + names.len(),
                prefix == Some(p),
                forall|j: nat| lo <= j < index ==> names.contains(#[trigger] (p@ + decimal(j))),
            decreases names.len() + lo - index,
        {
            let mut candidate = String::new();
            push_text(&mut candidate, p);
            push_decimal(&mut candidate, index as u64);
            match self.buffer_position(&candidate) {
                None => {
                    proof {
                        names.index_of_first_ensures(candidate@);
                        assert(free_buffer_number(old(self).buffer_list(), p@, lo, index as nat));
                    }
                    self.next_buffer_id = index + 1;
                    self.set_buffer(Some(candidate.as_str()), data, created);
                    proof {
                        let k = index as nat;
                        assert(buffer_names(old(self).buffer_list()).index_of_first(candidate@) is None);
                        assert(free_buffer_number(old(self).buffer_list(), p@, old(self).next_buffer_number() as nat, k));
                        let nm = p@ + decimal(k);
                        assert(self.buffer_list() == seq![(nm, data@)] + old(self).buffer_list());
                        assert(self.automatic_names() == old(self).automatic_names().remove(nm));
                        assert(self.created_times() == old(self).created_times().insert(nm, created));
                        assert(self.next_buffer_number() == k + 1);
                        assert(prefix->0 == p);
                        assert(free_buffer_number(old(self).buffer_list(), prefix->0@, old(self).next_buffer_number() as nat, k));
                    }
                    return;
                },
                Some(_) => {
                    proof {
                        names.index_of_first_ensures(candidate@);
                        assert forall|j: nat| lo <= j < index + 1 implies names.contains(#[trigger] (p@ + decimal(j))) by {
                            if j < index {
                            }
                        }
                        lemma_taken_spellings(names, p@, lo, (index + 1) as nat);
                    }
                    index = index + 1;
                },
            }
        }
    }
}

} // verus!
