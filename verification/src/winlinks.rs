use vstd::prelude::*;
use crate::session::{Session, Winlink};

verus! {

/// The link ids of `links`, in order.
pub open spec fn link_ids(links: Seq<Winlink>) -> Seq<u64> {
    links.map_values(|l: Winlink| l.link_id)
}

/// The window indices of `links`, in order.
pub open spec fn link_indices(links: Seq<Winlink>) -> Seq<u32> {
    links.map_values(|l: Winlink| l.index)
}

/// The link id of the active window, if there is one.
pub open spec fn active_link_id(links: Seq<Winlink>, active: usize) -> Option<u64> {
    if active < links.len() { Some(links[active as int].link_id) } else { None }
}

/// `stack` without the ids that no link has and without the active link's.
pub open spec fn live_stack(stack: Seq<u64>, links: Seq<Winlink>, active: usize) -> Seq<u64>
    decreases stack.len(),
{
    if stack.len() == 0 {
        stack
    } else {
        let rest = live_stack(stack.drop_last(), links, active);
        let id = stack.last();
        if link_ids(links).contains(id) && active_link_id(links, active) != Some(id) {
            rest.push(id)
        } else {
            rest
        }
    }
}

/// `s` with each id kept only where it first occurs.
pub open spec fn first_occurrences(s: Seq<u64>) -> Seq<u64>
    decreases s.len(),
{
    if s.len() == 0 {
        s
    } else {
        let rest = first_occurrences(s.drop_last());
        if rest.contains(s.last()) {
            rest
        } else {
            rest.push(s.last())
        }
    }
}

/// The most-recently-used stack of windows after `links` changed: only live
/// links, not the active one, each once.
pub open spec fn refreshed_stack(stack: Seq<u64>, links: Seq<Winlink>, active: usize) -> Seq<u64> {
    first_occurrences(live_stack(stack, links, active))
}

/// The position of the window at the top of `stack`.
pub open spec fn stack_head_position(stack: Seq<u64>, links: Seq<Winlink>) -> Option<usize> {
    if stack.len() > 0 {
        match link_ids(links).index_of_first(stack[0]) {
            Some(p) => Some(p as usize),
            None => None,
        }
    } else {
        None
    }
}

/// `a` is `b` with another most-recently-used stack and previous window.
pub open spec fn restacked(a: Session, b: Session) -> bool {
    Session { last_windows: b.last_windows, last_active: b.last_active, ..a } == b
}

pub proof fn lemma_first_occurrences_contains(s: Seq<u64>, x: u64)
    ensures
        first_occurrences(s).contains(x) == s.contains(x),
    decreases s.len(),
{
    if s.len() > 0 {
        let d = s.drop_last();
        lemma_first_occurrences_contains(d, x);
        let rest = first_occurrences(d);
        let f = first_occurrences(s);
        assert(d.contains(x) ==> s.contains(x)) by {
            if d.contains(x) {
                let k = choose|k: int| 0 <= k < d.len() && d[k] == x;
                assert(s[k] == x);
            }
        }
        assert(s.contains(x) ==> d.contains(x) || s.last() == x) by {
            if s.contains(x) {
                let k = choose|k: int| 0 <= k < s.len() && s[k] == x;
                if k < s.len() - 1 {
                    assert(d[k] == x);
                }
            }
        }
        if rest.contains(s.last()) {
            assert(f == rest);
            if s.last() == x {
                assert(d.contains(x));
            }
        } else {
            assert(f == rest.push(s.last()));
            assert(f[rest.len() as int] == s.last());
            assert(rest.contains(x) ==> f.contains(x)) by {
                if rest.contains(x) {
                    let k = choose|k: int| 0 <= k < rest.len() && rest[k] == x;
                    assert(f[k] == x);
                }
            }
            assert(f.contains(x) ==> rest.contains(x) || s.last() == x) by {
                if f.contains(x) {
                    let k = choose|k: int| 0 <= k < f.len() && f[k] == x;
                    if k < rest.len() {
                        assert(rest[k] == x);
                    }
                }
            }
        }
    }
}

/// Whether some link has the id `id`.
fn has_link_id(links: &Vec<Winlink>, id: u64) -> (found: bool)
    ensures
        found == link_ids(links@).contains(id),
{
    let mut i: usize = 0;
    while i < links.len()
        invariant
            i <= links@.len(),
            forall|j: int| 0 <= j < i ==> link_ids(links@)[j] != id,
        decreases links.len() - i,
    {
        if links[i].link_id == id {
            proof {
                assert(link_ids(links@)[i as int] == id);
            }
            return true;
        }
        i += 1;
    }
    false
}

/// The position of the first link with the id `id`.
pub fn position_of_link(links: &Vec<Winlink>, id: u64) -> (pos: Option<usize>)
    ensures
        match pos {
            Some(p) => link_ids(links@).index_of_first(id) == Some(p as int),
            None => link_ids(links@).index_of_first(id) is None,
        },
{
    let ghost ids = link_ids(links@);
    let mut i: usize = 0;
    while i < links.len()
        invariant
            i <= links@.len(),
            ids == link_ids(links@),
            forall|j: int| 0 <= j < i ==> ids[j] != id,
        decreases links.len() - i,
    {
        if links[i].link_id == id {
            proof {
                assert(ids[i as int] == id);
                assert(ids.contains(id));
                ids.index_of_first_ensures(id);
            }
            return Some(i);
        }
        i += 1;
    }
    proof {
        ids.index_of_first_ensures(id);
    }
    None
}

/// The position of the first link with the window index `index`.
pub fn position_of_index(links: &Vec<Winlink>, index: u32) -> (pos: Option<usize>)
    ensures
        match pos {
            Some(p) => link_indices(links@).index_of_first(index) == Some(p as int),
            None => link_indices(links@).index_of_first(index) is None,
        },
{
    let ghost indices = link_indices(links@);
    let mut i: usize = 0;
    while i < links.len()
        invariant
            i <= links@.len(),
            indices == link_indices(links@),
            forall|j: int| 0 <= j < i ==> indices[j] != index,
        decreases links.len() - i,
    {
        if links[i].index == index {
            proof {
                assert(indices[i as int] == index);
                assert(indices.contains(index));
                indices.index_of_first_ensures(index);
            }
            return Some(i);
        }
        i += 1;
    }
    proof {
        indices.index_of_first_ensures(index);
    }
    None
}

/// Whether `id` is among `ids`.
fn contains_id(ids: &Vec<u64>, id: u64) -> (found: bool)
    ensures
        found == ids@.contains(id),
{
    let mut i: usize = 0;
    while i < ids.len()
        invariant
            i <= ids@.len(),
            forall|j: int| 0 <= j < i ==> ids@[j] != id,
        decreases ids.len() - i,
    {
        if ids[i] == id {
            proof {
                assert(ids@[i as int] == id);
            }
            return true;
        }
        i += 1;
    }
    false
}

/// Bring the session's most-recently-used stack up to date with its links:
/// drop ids no link has, the active window's id and repeats, and make the
/// previous window the top of the stack.
pub fn refresh_last_window(session: &mut Session)
    ensures
        restacked(*old(session), *final(session)),
        final(session).last_windows@ == refreshed_stack(old(session).last_windows@, old(session).windows@,
            old(session).active),
        final(session).last_active == stack_head_position(final(session).last_windows@, old(session).windows@),
{
    let ghost stack = session.last_windows@;
    let active_id: Option<u64> = if session.active < session.windows.len() {
        Some(session.windows[session.active].link_id)
    } else {
        None
    };
    let mut kept: Vec<u64> = Vec::new();
    let mut i: usize = 0;
    while i < session.last_windows.len()
        invariant
            stack == session.last_windows@,
            i <= stack.len(),
            active_id == active_link_id(session.windows@, session.active),
            kept@ == first_occurrences(live_stack(stack.take(i as int), session.windows@, session.active)),
        decreases session.last_windows.len() - i,
    {
        let id = session.last_windows[i];
        let live = has_link_id(&session.windows, id);
        proof {
            assert(stack.take(i + 1).drop_last() =~= stack.take(i as int));
            assert(stack.take(i + 1).last() == id);
            lemma_first_occurrences_contains(live_stack(stack.take(i as int), session.windows@, session.active), id);
        }
        if live && active_id != Some(id) && !contains_id(&kept, id) {
            kept.push(id);
        }
        proof {
            let prefix = live_stack(stack.take(i as int), session.windows@, session.active);
            if live && active_id != Some(id) {
                assert(live_stack(stack.take(i + 1), session.windows@, session.active) == prefix.push(id));
                assert(prefix.push(id).drop_last() =~= prefix);
            }
        }
        i += 1;
    }
    proof {
        assert(stack.take(i as int) =~= stack);
    }
    let head = if kept.len() > 0 {
        position_of_link(&session.windows, kept[0])
    } else {
        None
    };
    session.last_windows = kept;
    session.last_active = head;
}

/// `s` without the ids `a` and `b`.
pub open spec fn without_two(s: Seq<u64>, a: u64, b: u64) -> Seq<u64>
    decreases s.len(),
{
    if s.len() == 0 {
        s
    } else {
        let rest = without_two(s.drop_last(), a, b);
        if s.last() == a || s.last() == b {
            rest
        } else {
            rest.push(s.last())
        }
    }
}

/// `a` is `b` with another window list, selection and stack.
pub open spec fn reselected(a: Session, b: Session) -> bool {
    Session { windows: b.windows, active: b.active, last_windows: b.last_windows, last_active: b.last_active, ..a } == b
}

/// The session's active position is a window, when it has windows.
pub open spec fn active_in_range(s: Session) -> bool {
    s.windows@.len() == 0 || s.active < s.windows@.len()
}

/// The links after the window at `position` was looked at: its alerts are
/// cleared.
pub open spec fn alerts_cleared(links: Seq<Winlink>, position: int) -> Seq<Winlink> {
    links.update(position, Winlink { alert_flags: 0, ..links[position] })
}

/// What selecting windows is about: the links, the active position, the
/// most-recently-used stack and the previous window.
pub open spec fn selection(s: Session) -> (Seq<Winlink>, usize, Seq<u64>, Option<usize>) {
    (s.windows@, s.active, s.last_windows@, s.last_active)
}

/// The selection `sel` after the window at `position` is made current; see
/// [`select_window_position`].
pub open spec fn select_in(sel: (Seq<Winlink>, usize, Seq<u64>, Option<usize>), position: int) -> (Seq<Winlink>, usize, Seq<u64>, Option<usize>) {
    let (links, active, stack, last) = sel;
    if position < 0 || position >= links.len() {
        sel
    } else {
        let w = alerts_cleared(links, position);
        if position == active {
            (w, active, stack, last)
        } else {
            let old_id = links[active as int].link_id;
            let new_id = links[position].link_id;
            let refreshed = refreshed_stack(seq![old_id] + without_two(stack, new_id, old_id), w, position as usize);
            (w, position as usize, refreshed, stack_head_position(refreshed, w))
        }
    }
}

/// The selection of `s` after the window at `position` is made current.
pub open spec fn selected(s: Session, position: int) -> (Seq<Winlink>, usize, Seq<u64>, Option<usize>) {
    select_in(selection(s), position)
}

/// The selection `sel` after the window with index `index` is made current,
/// when there is one.
pub open spec fn index_selected(sel: (Seq<Winlink>, usize, Seq<u64>, Option<usize>), index: u32) -> (Seq<Winlink>, usize, Seq<u64>, Option<usize>) {
    match link_indices(sel.0).index_of_first(index) {
        Some(p) => select_in(sel, p),
        None => sel,
    }
}

/// Make the window at `position` the current one: its alerts are cleared,
/// and when it was not current already the previously current window goes
/// to the top of the most-recently-used stack. A position past the windows
/// changes nothing.
pub fn select_window_position(session: &mut Session, position: usize)
    requires
        active_in_range(*old(session)),
    ensures
        reselected(*old(session), *final(session)),
        active_in_range(*final(session)),
        selection(*final(session)) == selected(*old(session), position as int),
{
    if position >= session.windows.len() {
        return;
    }
    let mut link = session.windows[position];
    link.alert_flags = 0;
    session.windows.set(position, link);
    proof {
        assert(session.windows@ =~= alerts_cleared(old(session).windows@, position as int));
    }
    if position == session.active {
        return;
    }
    let old_id = session.windows[session.active].link_id;
    let new_id = session.windows[position].link_id;
    let ghost before = session.last_windows@;
    let mut stack: Vec<u64> = Vec::new();
    stack.push(old_id);
    let mut i: usize = 0;
    while i < session.last_windows.len()
        invariant
            before == session.last_windows@,
            i <= before.len(),
            stack@ == seq![old_id] + without_two(before.take(i as int), new_id, old_id),
        decreases session.last_windows.len() - i,
    {
        let id = session.last_windows[i];
        proof {
            assert(before.take(i + 1).drop_last() =~= before.take(i as int));
            assert(before.take(i + 1).last() == id);
        }
        if id != new_id && id != old_id {
            stack.push(id);
        }
        proof {
            assert(stack@ =~= seq![old_id] + without_two(before.take(i + 1), new_id, old_id));
        }
        i += 1;
    }
    proof {
        assert(before.take(i as int) =~= before);
    }
    session.last_windows = stack;
    session.active = position;
    refresh_last_window(session);
}

/// Make the window with index `index` the current one, if there is one.
pub fn select_window_index(session: &mut Session, index: u32)
    requires
        active_in_range(*old(session)),
    ensures
        reselected(*old(session), *final(session)),
        active_in_range(*final(session)),
        selection(*final(session)) == match link_indices(old(session).windows@).index_of_first(index) {
            Some(p) => selected(*old(session), p),
            None => selection(*old(session)),
        },
{
    match position_of_index(&session.windows, index) {
        Some(p) => {
            proof {
                link_indices(session.windows@).index_of_first_ensures(index);
            }
            select_window_position(session, p);
        },
        None => {},
    }
}

/// The window indices of the ids in `stack`, skipping ids no link has.
pub open spec fn indices_of_ids(stack: Seq<u64>, links: Seq<Winlink>) -> Seq<u32>
    decreases stack.len(),
{
    if stack.len() == 0 {
        Seq::empty()
    } else {
        let rest = indices_of_ids(stack.drop_last(), links);
        match link_ids(links).index_of_first(stack.last()) {
            Some(p) => rest.push(links[p].index),
            None => rest,
        }
    }
}

/// The link ids of the windows with the indices `indices`, skipping indices
/// no link has.
pub open spec fn ids_of_indices(indices: Seq<u32>, links: Seq<Winlink>) -> Seq<u64>
    decreases indices.len(),
{
    if indices.len() == 0 {
        Seq::empty()
    } else {
        let rest = ids_of_indices(indices.drop_last(), links);
        match link_indices(links).index_of_first(indices.last()) {
            Some(p) => rest.push(links[p].link_id),
            None => rest,
        }
    }
}

/// `s` without the id `id`.
pub open spec fn without_id(s: Seq<u64>, id: u64) -> Seq<u64>
    decreases s.len(),
{
    if s.len() == 0 {
        s
    } else {
        let rest = without_id(s.drop_last(), id);
        if s.last() == id {
            rest
        } else {
            rest.push(s.last())
        }
    }
}

/// The window indices of the session's stack, kept across a change of its
/// links: the stack's own, or the previous window's when the stack names
/// no window.
pub open spec fn kept_indices(s: Session) -> Seq<u32> {
    let st = indices_of_ids(s.last_windows@, s.windows@);
    if st.len() > 0 {
        st
    } else {
        match s.last_active {
            Some(p) => if p < s.windows@.len() { seq![s.windows@[p as int].index] } else { st },
            None => st,
        }
    }
}

/// The position of the first of `indices` that some link has.
pub open spec fn first_placed(indices: Seq<u32>, links: Seq<Winlink>) -> Option<int>
    decreases indices.len(),
{
    if indices.len() == 0 {
        None
    } else {
        match link_indices(links).index_of_first(indices[0]) {
            Some(p) => Some(p),
            None => first_placed(indices.drop_first(), links),
        }
    }
}

/// The position of the last link whose index is below `index`.
pub open spec fn last_below(links: Seq<Winlink>, index: u32) -> Option<int>
    decreases links.len(),
{
    if links.len() == 0 {
        None
    } else if links.last().index < index {
        Some(links.len() - 1)
    } else {
        last_below(links.drop_last(), index)
    }
}

/// Which window is current after the links changed: the one with the
/// current window's index, else the first window of the kept stack that is
/// still there, else the last window below the current one's index, else
/// the first.
pub open spec fn chosen_active(links: Seq<Winlink>, active_index: Option<u32>, indices: Seq<u32>) -> int {
    let by_index = match active_index {
        Some(i) => link_indices(links).index_of_first(i),
        None => None,
    };
    match by_index {
        Some(p) => p,
        None => match first_placed(indices, links) {
            Some(p) => p,
            None => match active_index {
                Some(i) => match last_below(links, i) {
                    Some(p) => p,
                    None => 0,
                },
                None => 0,
            },
        },
    }
}

/// The selection after the session's links were replaced by `links`,
/// keeping the current and previous windows by index.
pub open spec fn installed(s: Session, links: Seq<Winlink>) -> (Seq<Winlink>, usize, Seq<u64>, Option<usize>) {
    if links.len() == 0 {
        (links, 0, Seq::empty(), None)
    } else {
        let active_index = if s.active < s.windows@.len() { Some(s.windows@[s.active as int].index) } else { None };
        let indices = kept_indices(s);
        let active = chosen_active(links, active_index, indices) as usize;
        let stack = refreshed_stack(without_id(ids_of_indices(indices, links), links[active as int].link_id), links, active);
        (links, active, stack, stack_head_position(stack, links))
    }
}

proof fn lemma_first_placed_bounds(indices: Seq<u32>, links: Seq<Winlink>)
    ensures
        first_placed(indices, links) matches Some(p) ==> 0 <= p < links.len(),
    decreases indices.len(),
{
    if indices.len() > 0 {
        link_indices(links).index_of_first_ensures(indices[0]);
        lemma_first_placed_bounds(indices.drop_first(), links);
    }
}

proof fn lemma_last_below_bounds(links: Seq<Winlink>, index: u32)
    ensures
        last_below(links, index) matches Some(p) ==> 0 <= p < links.len(),
    decreases links.len(),
{
    if links.len() > 0 {
        lemma_last_below_bounds(links.drop_last(), index);
    }
}

proof fn lemma_chosen_active_bounds(links: Seq<Winlink>, active_index: Option<u32>, indices: Seq<u32>)
    requires
        links.len() > 0,
    ensures
        0 <= chosen_active(links, active_index, indices) < links.len(),
{
    if let Some(i) = active_index {
        link_indices(links).index_of_first_ensures(i);
        lemma_last_below_bounds(links, i);
    }
    lemma_first_placed_bounds(indices, links);
}

/// The position of the first of `indices` some link has.
fn find_first_placed(indices: &Vec<u32>, links: &Vec<Winlink>) -> (pos: Option<usize>)
    ensures
        match pos {
            Some(p) => first_placed(indices@, links@) == Some(p as int),
            None => first_placed(indices@, links@) is None,
        },
{
    let mut i: usize = 0;
    proof {
        assert(indices@.skip(0) =~= indices@);
    }
    while i < indices.len()
        invariant
            i <= indices@.len(),
            first_placed(indices@, links@) == first_placed(indices@.skip(i as int), links@),
        decreases indices.len() - i,
    {
        let found = position_of_index(links, indices[i]);
        proof {
            assert(indices@.skip(i as int)[0] == indices@[i as int]);
            assert(indices@.skip(i as int).drop_first() =~= indices@.skip(i + 1));
        }
        match found {
            Some(p) => return Some(p),
            None => {},
        }
        i += 1;
    }
    proof {
        assert(indices@.skip(i as int).len() == 0);
    }
    None
}

/// The position of the last link whose index is below `index`.
fn find_last_below(links: &Vec<Winlink>, index: u32) -> (pos: Option<usize>)
    ensures
        match pos {
            Some(p) => last_below(links@, index) == Some(p as int),
            None => last_below(links@, index) is None,
        },
{
    let mut k: usize = links.len();
    proof {
        assert(links@.take(k as int) =~= links@);
    }
    while k > 0
        invariant
            k <= links@.len(),
            last_below(links@, index) == last_below(links@.take(k as int), index),
        decreases k,
    {
        proof {
            assert(links@.take(k as int).last() == links@[k - 1]);
            assert(links@.take(k as int).drop_last() =~= links@.take(k - 1));
        }
        if links[k - 1].index < index {
            return Some(k - 1);
        }
        k -= 1;
    }
    None
}

/// Replace the session's links by `links`, keeping its current and
/// previous windows by index where they survive; see [`installed`].
pub fn install_links_by_index(session: &mut Session, links: Vec<Winlink>)
    ensures
        reselected(*old(session), *final(session)),
        active_in_range(*final(session)),
        selection(*final(session)) == installed(*old(session), links@),
{
    let active_index: Option<u32> = if session.active < session.windows.len() {
        Some(session.windows[session.active].index)
    } else {
        None
    };
    let ghost stack = session.last_windows@;
    let mut indices: Vec<u32> = Vec::new();
    let mut i: usize = 0;
    while i < session.last_windows.len()
        invariant
            stack == session.last_windows@,
            i <= stack.len(),
            indices@ == indices_of_ids(stack.take(i as int), session.windows@),
        decreases session.last_windows.len() - i,
    {
        let id = session.last_windows[i];
        let found = position_of_link(&session.windows, id);
        proof {
            assert(stack.take(i + 1).drop_last() =~= stack.take(i as int));
            assert(stack.take(i + 1).last() == id);
            link_ids(session.windows@).index_of_first_ensures(id);
        }
        match found {
            Some(p) => {
                indices.push(session.windows[p].index);
            },
            None => {},
        }
        i += 1;
    }
    proof {
        assert(stack.take(i as int) =~= stack);
    }
    if indices.len() == 0 {
        match session.last_active {
            Some(p) => if p < session.windows.len() {
                indices.push(session.windows[p].index);
            },
            None => {},
        }
    }
    let ghost kept = indices@;
    proof {
        assert(kept == kept_indices(*old(session)));
    }
    session.windows = links;
    if session.windows.len() == 0 {
        session.active = 0;
        session.last_active = None;
        session.last_windows = Vec::new();
        return;
    }
    let by_index = match active_index {
        Some(idx) => position_of_index(&session.windows, idx),
        None => None,
    };
    let active = match by_index {
        Some(p) => p,
        None => match find_first_placed(&indices, &session.windows) {
            Some(p) => p,
            None => match active_index {
                Some(idx) => match find_last_below(&session.windows, idx) {
                    Some(p) => p,
                    None => 0,
                },
                None => 0,
            },
        },
    };
    proof {
        lemma_chosen_active_bounds(session.windows@, active_index, kept);
        assert(active == chosen_active(session.windows@, active_index, kept));
    }
    let active_id = session.windows[active].link_id;
    let mut ids: Vec<u64> = Vec::new();
    let mut j: usize = 0;
    while j < indices.len()
        invariant
            kept == indices@,
            j <= kept.len(),
            ids@ == without_id(ids_of_indices(kept.take(j as int), session.windows@), active_id),
        decreases indices.len() - j,
    {
        let index = indices[j];
        let found = position_of_index(&session.windows, index);
        proof {
            assert(kept.take(j + 1).drop_last() =~= kept.take(j as int));
            assert(kept.take(j + 1).last() == index);
            link_indices(session.windows@).index_of_first_ensures(index);
        }
        match found {
            Some(p) => {
                let id = session.windows[p].link_id;
                if id != active_id {
                    ids.push(id);
                }
                proof {
                    let prev = ids_of_indices(kept.take(j as int), session.windows@);
                    assert(ids_of_indices(kept.take(j + 1), session.windows@) == prev.push(id));
                    assert(prev.push(id).drop_last() =~= prev);
                }
            },
            None => {},
        }
        j += 1;
    }
    proof {
        assert(kept.take(j as int) =~= kept);
    }
    session.active = active;
    session.last_windows = ids;
    refresh_last_window(session);
}

/// The selection after the session's links were replaced by `links`,
/// keeping the current and previous positions where they still exist.
pub open spec fn placed_by_position(s: Session, links: Seq<Winlink>) -> (Seq<Winlink>, usize, Seq<u64>, Option<usize>) {
    let active = if links.len() == 0 { 0 } else if s.active < links.len() { s.active } else { (links.len() - 1) as usize };
    let stack = refreshed_stack(s.last_windows@, links, active);
    (links, active, stack, stack_head_position(stack, links))
}

/// Replace the session's links by `links`, keeping the current position
/// (or the last one, when the list got shorter).
pub fn install_links_preserving_positions(session: &mut Session, links: Vec<Winlink>)
    ensures
        reselected(*old(session), *final(session)),
        active_in_range(*final(session)),
        selection(*final(session)) == placed_by_position(*old(session), links@),
{
    session.windows = links;
    let last = if session.windows.len() == 0 { 0 } else { session.windows.len() - 1 };
    if session.active > last {
        session.active = last;
    }
    session.last_active = match session.last_active {
        Some(p) => if p < session.windows.len() { Some(p) } else { None },
        None => None,
    };
    refresh_last_window(session);
}

/// `links` numbered from `base` in order.
pub open spec fn renumbered(links: Seq<Winlink>, base: u32) -> Seq<Winlink> {
    Seq::new(links.len(), |i: int| Winlink { index: (base + i) as u32, ..links[i] })
}

/// The selection after the session's windows were numbered from `base`,
/// the current window staying current.
pub open spec fn renumbered_selection(s: Session, base: u32) -> (Seq<Winlink>, usize, Seq<u64>, Option<usize>) {
    let links = renumbered(s.windows@, base);
    let active = match active_link_id(s.windows@, s.active) {
        Some(id) => match link_ids(links).index_of_first(id) {
            Some(p) => p as usize,
            None => 0,
        },
        None => 0,
    };
    let stack = refreshed_stack(s.last_windows@, links, active);
    (links, active, stack, stack_head_position(stack, links))
}

/// Renumbering from `base` keeps the windows and their order, numbers them
/// `base`, `base + 1`, ... with no gap, keeps the current window current,
/// and renumbering the result again changes no window.
pub proof fn lemma_renumber_law(s: Session, base: u32)
    requires
        base + s.windows@.len() <= u32::MAX + 1,
    ensures
        ({
            let sel = renumbered_selection(s, base);
            &&& sel.0.len() == s.windows@.len()
            &&& forall|i: int| 0 <= i < sel.0.len() ==> (#[trigger] sel.0[i]).index == base + i
                && sel.0[i].id == s.windows@[i].id && sel.0[i].link_id == s.windows@[i].link_id
            &&& s.active < s.windows@.len() ==> sel.1 < sel.0.len()
                && sel.0[sel.1 as int].link_id == s.windows@[s.active as int].link_id
            &&& renumbered(sel.0, base) == sel.0
        }),
{
    let links = renumbered(s.windows@, base);
    assert(link_ids(links) =~= link_ids(s.windows@));
    if s.active < s.windows@.len() {
        let id = s.windows@[s.active as int].link_id;
        assert(link_ids(links)[s.active as int] == id);
        link_ids(links).index_of_first_ensures(id);
    }
    assert(renumbered(links, base) =~= links);
}

/// `move-window -r`: number the session's windows from `base` in their
/// order, keeping the current window current.
pub fn renumber_links(session: &mut Session, base: u32)
    requires
        base + old(session).windows@.len() <= u32::MAX + 1,
    ensures
        reselected(*old(session), *final(session)),
        active_in_range(*final(session)),
        selection(*final(session)) == renumbered_selection(*old(session), base),
{
    let active_id: Option<u64> = if session.active < session.windows.len() {
        Some(session.windows[session.active].link_id)
    } else {
        None
    };
    let ghost before = session.windows@;
    let mut i: usize = 0;
    while i < session.windows.len()
        invariant
            before.len() == session.windows@.len(),
            before == old(session).windows@,
            reselected(*old(session), *session),
            session.active == old(session).active,
            session.last_windows == old(session).last_windows,
            session.last_active == old(session).last_active,
            base + before.len() <= u32::MAX + 1,
            i <= before.len(),
            forall|j: int| 0 <= j < i ==> #[trigger] session.windows@[j] == (Winlink { index: (base + j) as u32, ..before[j] }),
            forall|j: int| i <= j < before.len() ==> #[trigger] session.windows@[j] == before[j],
        decreases before.len() - i,
    {
        let mut link = session.windows[i];
        link.index = base + i as u32;
        session.windows.set(i, link);
        i += 1;
    }
    proof {
        assert(session.windows@ =~= renumbered(before, base));
        assert(link_ids(session.windows@) =~= link_ids(before));
    }
    session.active = match active_id {
        Some(id) => match position_of_link(&session.windows, id) {
            Some(p) => p,
            None => 0,
        },
        None => 0,
    };
    proof {
        if let Some(id) = active_id {
            link_ids(session.windows@).index_of_first_ensures(id);
        }
    }
    refresh_last_window(session);
}

/// The position `next-window` (`forward`) or `previous-window` moves to,
/// wrapping; `None` when there is no other window.
pub open spec fn cycled_position(count: nat, active: nat, forward: bool) -> Option<nat> {
    if count <= 1 {
        None
    } else if forward {
        Some((active + 1) % count)
    } else {
        Some(((active + count - 1) as nat) % count)
    }
}

/// The window `next-window` or `previous-window` selects in the session.
pub fn cycled_window(session: &Session, forward: bool) -> (pos: Option<usize>)
    requires
        active_in_range(*session),
    ensures
        match cycled_position(session.windows@.len(), session.active as nat, forward) {
            Some(p) => pos == Some(p as usize),
            None => pos is None,
        },
{
    let n = session.windows.len();
    if n <= 1 {
        return None;
    }
    if forward {
        Some((session.active + 1) % n)
    } else if session.active == 0 {
        proof {
            assert(((0 + n - 1) as nat) % (n as nat) == n - 1) by (nonlinear_arith)
                requires n > 1;
        }
        Some(n - 1)
    } else {
        proof {
            assert(((session.active + n - 1) as nat) % (n as nat) == session.active - 1) by (nonlinear_arith)
                requires 0 < session.active < n;
        }
        Some(session.active - 1)
    }
}

/// The window `last-window` selects: the one at the top of the
/// most-recently-used stack, if it still exists.
pub fn last_window_position(session: &Session) -> (pos: Option<usize>)
    ensures
        match pos {
            Some(p) => session.last_windows@.len() > 0 && link_ids(session.windows@).index_of_first(session.last_windows@[0]) == Some(p as int),
            None => session.last_windows@.len() == 0 || link_ids(session.windows@).index_of_first(session.last_windows@[0]) is None,
        },
{
    if session.last_windows.len() == 0 {
        return None;
    }
    position_of_link(&session.windows, session.last_windows[0])
}

proof fn lemma_live_stack_front(s: Seq<u64>, links: Seq<Winlink>, active: usize)
    requires
        s.len() > 0,
        link_ids(links).contains(s[0]),
        active_link_id(links, active) != Some(s[0]),
    ensures
        live_stack(s, links, active).len() > 0,
        live_stack(s, links, active)[0] == s[0],
    decreases s.len(),
{
    let d = s.drop_last();
    let rest = live_stack(d, links, active);
    if s.len() == 1 {
        assert(d.len() == 0);
        assert(rest == d);
        assert(s.last() == s[0]);
        assert(live_stack(s, links, active) == rest.push(s[0]));
    } else {
        assert(d[0] == s[0]);
        lemma_live_stack_front(d, links, active);
        let l = live_stack(s, links, active);
        assert(l == rest || l == rest.push(s.last()));
    }
}

proof fn lemma_first_occurrences_front(s: Seq<u64>)
    requires
        s.len() > 0,
    ensures
        first_occurrences(s).len() > 0,
        first_occurrences(s)[0] == s[0],
    decreases s.len(),
{
    let d = s.drop_last();
    let rest = first_occurrences(d);
    if s.len() == 1 {
        assert(d.len() == 0);
        assert(rest == d);
        assert(!rest.contains(s.last()));
        assert(s.last() == s[0]);
        assert(first_occurrences(s) == rest.push(s[0]));
    } else {
        assert(d[0] == s[0]);
        lemma_first_occurrences_front(d);
        let f = first_occurrences(s);
        assert(f == rest || f == rest.push(s.last()));
    }
}

/// `last-window` goes back: after another window is selected, the top of
/// the most-recently-used stack is the window that was current before, so
/// `last-window` selects it again (window links being distinct).
pub proof fn lemma_last_window_returns(s: Session, p: int)
    requires
        active_in_range(s),
        0 <= p < s.windows@.len(),
        p != s.active,
        link_ids(s.windows@).no_duplicates(),
    ensures
        ({
            let (w, active, stack, _) = selected(s, p);
            &&& stack.len() > 0
            &&& link_ids(w).index_of_first(stack[0]) == Some(s.active as int)
        }),
{
    let w = alerts_cleared(s.windows@, p);
    let old_id = s.windows@[s.active as int].link_id;
    let new_id = s.windows@[p].link_id;
    let raw = seq![old_id] + without_two(s.last_windows@, new_id, old_id);
    assert(link_ids(w) =~= link_ids(s.windows@));
    assert(link_ids(s.windows@)[s.active as int] == old_id);
    assert(link_ids(s.windows@)[p] == new_id);
    assert(old_id != new_id);
    assert(link_ids(w).contains(old_id));
    assert(w.len() == s.windows@.len());
    assert(s.windows@.len() == s.windows.len());
    assert(p as usize as int == p);
    assert(active_link_id(w, p as usize) == Some(new_id));
    lemma_live_stack_front(raw, w, p as usize);
    lemma_first_occurrences_front(live_stack(raw, w, p as usize));
    link_ids(w).index_of_first_ensures(old_id);
    let f = link_ids(w).index_of_first(old_id)->0;
    assert(link_ids(w)[f] == old_id);
    assert(f == s.active);
}

/// `links` without those with the window index `index`.
pub open spec fn without_index(links: Seq<Winlink>, index: u32) -> Seq<Winlink>
    decreases links.len(),
{
    if links.len() == 0 {
        links
    } else {
        let rest = without_index(links.drop_last(), index);
        if links.last().index == index { rest } else { rest.push(links.last()) }
    }
}

/// Where a link with window index `index` goes when it is added to the
/// index-ordered `links`: after every link whose index is not above it.
pub open spec fn insertion_point(links: Seq<Winlink>, index: u32) -> nat
    decreases links.len(),
{
    if links.len() == 0 || links[0].index > index {
        0
    } else {
        1 + insertion_point(links.drop_first(), index)
    }
}

/// `links` ordered by window index, links with equal indices keeping their
/// order (a stable sort).
pub open spec fn sorted_by_index(links: Seq<Winlink>) -> Seq<Winlink>
    decreases links.len(),
{
    if links.len() == 0 {
        links
    } else {
        let rest = sorted_by_index(links.drop_last());
        rest.insert(insertion_point(rest, links.last().index) as int, links.last())
    }
}

/// The links without those at window index `index`.
pub fn drop_index(links: &Vec<Winlink>, index: u32) -> (kept: Vec<Winlink>)
    ensures
        kept@ == without_index(links@, index),
{
    let mut kept: Vec<Winlink> = Vec::new();
    let mut i: usize = 0;
    while i < links.len()
        invariant
            i <= links@.len(),
            kept@ == without_index(links@.take(i as int), index),
        decreases links.len() - i,
    {
        proof {
            assert(links@.take(i + 1).drop_last() =~= links@.take(i as int));
            assert(links@.take(i + 1).last() == links@[i as int]);
        }
        if links[i].index != index {
            kept.push(links[i]);
        }
        i += 1;
    }
    proof {
        assert(links@.take(i as int) =~= links@);
    }
    kept
}

/// Where a link with window index `index` goes in `links`.
fn find_insertion_point(links: &Vec<Winlink>, index: u32) -> (p: usize)
    ensures
        p == insertion_point(links@, index),
{
    let mut i: usize = 0;
    proof {
        assert(links@.skip(0) =~= links@);
    }
    while i < links.len() && links[i].index <= index
        invariant
            i <= links@.len(),
            insertion_point(links@, index) == i + insertion_point(links@.skip(i as int), index),
        decreases links.len() - i,
    {
        proof {
            let rest = links@.skip(i as int);
            assert(rest[0] == links@[i as int]);
            assert(rest.drop_first() =~= links@.skip(i + 1));
        }
        i += 1;
    }
    proof {
        let rest = links@.skip(i as int);
        if i < links@.len() {
            assert(rest[0] == links@[i as int]);
        } else {
            assert(rest.len() == 0);
        }
    }
    i
}

/// The links ordered by window index, equal indices keeping their order.
pub fn sort_by_index(links: Vec<Winlink>) -> (sorted: Vec<Winlink>)
    ensures
        sorted@ == sorted_by_index(links@),
{
    let mut sorted: Vec<Winlink> = Vec::new();
    let mut i: usize = 0;
    while i < links.len()
        invariant
            i <= links@.len(),
            sorted@ == sorted_by_index(links@.take(i as int)),
        decreases links.len() - i,
    {
        proof {
            assert(links@.take(i + 1).drop_last() =~= links@.take(i as int));
            assert(links@.take(i + 1).last() == links@[i as int]);
        }
        let link = links[i];
        let p = find_insertion_point(&sorted, link.index);
        proof {
            lemma_insertion_point_bound(sorted@, link.index);
        }
        sorted.insert(p, link);
        i += 1;
    }
    proof {
        assert(links@.take(i as int) =~= links@);
    }
    sorted
}

proof fn lemma_insertion_point_bound(links: Seq<Winlink>, index: u32)
    ensures
        insertion_point(links, index) <= links.len(),
    decreases links.len(),
{
    if links.len() > 0 && links[0].index <= index {
        lemma_insertion_point_bound(links.drop_first(), index);
    }
}

/// The link set after the link `id` moved to the window index `index`
/// within it: the links at that index go first when `drop`, the first link
/// with the id takes the index, and the set is ordered by index again.
pub open spec fn moved_within(links: Seq<Winlink>, id: u64, index: u32, drop: bool) -> Seq<Winlink> {
    let kept = if drop { without_index(links, index) } else { links };
    match link_ids(kept).index_of_first(id) {
        Some(p) => sorted_by_index(kept.update(p, Winlink { index, ..kept[p] })),
        None => sorted_by_index(kept),
    }
}

/// The destination's link set after the link `moved` arrived at the window
/// index `index`: the links at that index go first when `drop`, and the set
/// is ordered by index again.
pub open spec fn moved_in(links: Seq<Winlink>, moved: Winlink, index: u32, drop: bool) -> Seq<Winlink> {
    let kept = if drop { without_index(links, index) } else { links };
    sorted_by_index(kept.push(Winlink { index, ..moved }))
}

/// The selection of `s` after it took the links `links` and, with
/// `select`, made the link `id` current.
pub open spec fn took_links(s: Session, links: Seq<Winlink>, id: u64, select: bool) -> (Seq<Winlink>, usize, Seq<u64>, Option<usize>) {
    if select {
        match link_ids(links).index_of_first(id) {
            Some(p) => select_in(installed(s, links), p),
            None => installed(s, links),
        }
    } else {
        installed(s, links)
    }
}

pub proof fn lemma_without_index_keeps(links: Seq<Winlink>, i: int, index: u32)
    requires
        0 <= i < links.len(),
        links[i].index != index,
    ensures
        without_index(links, index).contains(links[i]),
    decreases links.len(),
{
    let rest = without_index(links.drop_last(), index);
    if i < links.len() - 1 {
        lemma_without_index_keeps(links.drop_last(), i, index);
        let j = choose|j: int| 0 <= j < rest.len() && rest[j] == links[i];
        let w = without_index(links, index);
        if links.last().index != index {
            assert(w[j] == rest[j]);
        }
    } else {
        assert(without_index(links, index) == rest.push(links[i]));
        assert(rest.push(links[i])[rest.len() as int] == links[i]);
    }
}

pub proof fn lemma_sorted_by_index_contains(links: Seq<Winlink>, x: Winlink)
    ensures
        sorted_by_index(links).contains(x) == links.contains(x),
        sorted_by_index(links).len() == links.len(),
    decreases links.len(),
{
    if links.len() > 0 {
        let d = links.drop_last();
        lemma_sorted_by_index_contains(d, x);
        let rest = sorted_by_index(d);
        let p = insertion_point(rest, links.last().index) as int;
        lemma_insertion_point_bound(rest, links.last().index);
        let r = rest.insert(p, links.last());
        assert(r.len() == links.len());
        assert(d.contains(x) ==> links.contains(x)) by {
            if d.contains(x) {
                let k = choose|k: int| 0 <= k < d.len() && d[k] == x;
                assert(links[k] == x);
            }
        }
        assert(links.contains(x) ==> d.contains(x) || links.last() == x) by {
            if links.contains(x) {
                let k = choose|k: int| 0 <= k < links.len() && links[k] == x;
                if k < links.len() - 1 {
                    assert(d[k] == x);
                }
            }
        }
        assert(rest.contains(x) ==> r.contains(x)) by {
            if rest.contains(x) {
                let k = choose|k: int| 0 <= k < rest.len() && rest[k] == x;
                if k < p {
                    assert(r[k] == x);
                } else {
                    assert(r[k + 1] == x);
                }
            }
        }
        assert(r[p] == links.last());
        assert(r.contains(x) ==> rest.contains(x) || links.last() == x) by {
            if r.contains(x) {
                let k = choose|k: int| 0 <= k < r.len() && r[k] == x;
                if k < p {
                    assert(rest[k] == x);
                } else if k > p {
                    assert(rest[k - 1] == x);
                }
            }
        }
    }
}

/// `free` is the first window index at or after `from` that no link of
/// `links` has.
pub open spec fn first_free_at(links: Seq<Winlink>, from: u32, free: u32) -> bool {
    &&& from <= free
    &&& !link_indices(links).contains(free)
    &&& forall|k: u32| from <= k < free ==> link_indices(links).contains(k)
}

/// `links` with the indices from `from` up to (not including) `free`
/// moved up by one, opening the slot `from`.
pub open spec fn shuffled(links: Seq<Winlink>, from: u32, free: u32) -> Seq<Winlink> {
    Seq::new(links.len(), |i: int| if from <= links[i].index < free {
        Winlink { index: (links[i].index + 1) as u32, ..links[i] }
    } else {
        links[i]
    })
}

/// The link set after the link `id` was taken out of `links` and put back
/// at the window index `index`, ordered by index again.
pub open spec fn relocated(links: Seq<Winlink>, id: u64, index: u32) -> Seq<Winlink> {
    match link_ids(links).index_of_first(id) {
        Some(p) => sorted_by_index(links.remove(p).push(Winlink { index, ..links[p] })),
        None => sorted_by_index(links),
    }
}

/// The first window index at or after `from` that no link has.
pub fn first_free_index(links: &Vec<Winlink>, from: u32) -> (free: u32)
    requires
        exists|k: u32| from <= k && !link_indices(links@).contains(k),
    ensures
        first_free_at(links@, from, free),
{
    let ghost witness = choose|k: u32| from <= k && !link_indices(links@).contains(k);
    let mut free = from;
    loop
        invariant
            from <= free <= witness,
            !link_indices(links@).contains(witness),
            forall|k: u32| from <= k < free ==> link_indices(links@).contains(k),
        decreases witness - free,
    {
        match position_of_index(links, free) {
            None => {
                proof {
                    link_indices(links@).index_of_first_ensures(free);
                }
                return free;
            },
            Some(p) => {
                proof {
                    link_indices(links@).index_of_first_ensures(free);
                    assert(free != witness);
                }
                free = free + 1;
            },
        }
    }
}

/// The links with the indices from `from` up to `free` moved up by one.
pub fn shuffle(links: &Vec<Winlink>, from: u32, free: u32) -> (moved: Vec<Winlink>)
    ensures
        moved@ == shuffled(links@, from, free),
{
    let mut moved: Vec<Winlink> = Vec::new();
    let mut i: usize = 0;
    while i < links.len()
        invariant
            i <= links@.len(),
            moved@ == shuffled(links@, from, free).take(i as int),
        decreases links.len() - i,
    {
        let mut link = links[i];
        if from <= link.index && link.index < free {
            link.index = link.index + 1;
        }
        moved.push(link);
        proof {
            assert(moved@ =~= shuffled(links@, from, free).take(i + 1));
        }
        i += 1;
    }
    proof {
        assert(shuffled(links@, from, free).take(i as int) =~= shuffled(links@, from, free));
    }
    moved
}

/// The links with the link `id` taken out and put back at the index
/// `index`, ordered by index again.
pub fn relocate(links: Vec<Winlink>, id: u64, index: u32) -> (placed: Vec<Winlink>)
    ensures
        placed@ == relocated(links@, id, index),
{
    let mut links = links;
    let ghost before = links@;
    match position_of_link(&links, id) {
        Some(p) => {
            proof {
                link_ids(links@).index_of_first_ensures(id);
            }
            let mut link = links.remove(p);
            link.index = index;
            links.push(link);
            proof {
                assert(links@ =~= before.remove(p as int).push(Winlink { index, ..before[p as int] }));
            }
        },
        None => {},
    }
    sort_by_index(links)
}

} // verus!
