use vstd::prelude::*;
use vstd::string::*;
use crate::session::Session;
use crate::text::{
    equals_at, find_char, is_first_char, is_last_char, lacks_char, parse_unsigned,
    parse_unsigned_at, rfind_char, to_chars,
};

verus! {

/// Split a pane target `session[:window][.pane]` into its window-target part and
/// the optional pane part (the text after the last `.`).
pub fn split_pane_target<'a>(target: &'a str) -> (parts: (&'a str, Option<&'a str>))
    ensures
        match parts.1 {
            Some(pane) => exists|i: int|
                is_last_char(target@, '.', i) && parts.0@ == target@.take(i) && pane@
                    == target@.skip(i + 1),
            None => lacks_char(target@, '.') && parts.0@ == target@,
        },
{
    let chars = to_chars(target);
    match rfind_char(chars.as_slice(), '.') {
        Some(i) => {
            assert(i < chars.len());
            let window = target.substring_char(0, i);
            let pane = target.substring_char(i + 1, chars.len());
            proof {
                assert(window@ =~= target@.take(i as int));
                assert(pane@ =~= target@.skip(i + 1));
            }
            (window, Some(pane))
        },
        None => (target, None),
    }
}

/// What a `[session][:index]` destination names: the session part (absent
/// when empty) and the index, when the text after the colon is one. A bare
/// number with no colon is an index in the current session; any other bare
/// text is a session.
pub open spec fn index_target(s: Seq<char>) -> (Option<Seq<char>>, Option<nat>) {
    if exists|i: int| is_first_char(s, ':', i) {
        let i = choose|i: int| is_first_char(s, ':', i);
        (if i == 0 { None } else { Some(s.take(i)) }, parse_unsigned(s.skip(i + 1), u32::MAX as nat))
    } else {
        match parse_unsigned(s, u32::MAX as nat) {
            Some(n) => (None, Some(n)),
            None => (Some(s), None),
        }
    }
}

/// Parse a `[session][:index]` destination into `(session, index)`.
pub fn parse_index_target<'a>(target: &'a str) -> (parsed: (Option<&'a str>, Option<u32>))
    ensures
        match (parsed.0, index_target(target@).0) {
            (Some(s), Some(t)) => s@ == t,
            (None, None) => true,
            _ => false,
        },
        match index_target(target@).1 {
            Some(n) => parsed.1 == Some(n as u32),
            None => parsed.1 is None,
        },
{
    let chars = to_chars(target);
    let n = chars.len();
    match find_char(chars.as_slice(), ':') {
        Some(i) => {
            proof {
                assert(is_first_char(target@, ':', i as int));
                let j = choose|j: int| is_first_char(target@, ':', j);
                assert(j == i);
            }
            let session = if i == 0 {
                None
            } else {
                let s = target.substring_char(0, i);
                proof {
                    assert(s@ =~= target@.take(i as int));
                }
                Some(s)
            };
            let index = parse_unsigned_at(chars.as_slice(), i + 1, n, u32::MAX as u64);
            proof {
                assert(chars@.subrange(i + 1, n as int) =~= target@.skip(i + 1));
            }
            let index = match index {
                Some(v) => Some(v as u32),
                None => None,
            };
            (session, index)
        },
        None => {
            proof {
                assert(chars@.subrange(0, n as int) =~= target@);
            }
            match parse_unsigned_at(chars.as_slice(), 0, n, u32::MAX as u64) {
                Some(v) => (None, Some(v as u32)),
                None => (Some(target), None),
            }
        },
    }
}

/// The window position a special token names in a session with `count`
/// windows, `active` current and `last` previous: `{start}`/`^` the first,
/// `{end}`/`$` the last, `{last}` the previous one (when it still exists),
/// `{next}`/`+` and `{previous}`/`-` the neighbours of the current one,
/// wrapping. Any other text is no special token.
pub open spec fn special_window(count: nat, active: nat, last: Option<usize>, spec: Seq<char>) -> Option<nat> {
    if count == 0 {
        None
    } else if spec == "{start}"@ || spec == "^"@ {
        Some(0)
    } else if spec == "{end}"@ || spec == "$"@ {
        Some((count - 1) as nat)
    } else if spec == "{last}"@ {
        match last {
            Some(p) => if p < count { Some(p as nat) } else { None },
            None => None,
        }
    } else if spec == "{next}"@ || spec == "+"@ {
        Some((active + 1) % count)
    } else if spec == "{previous}"@ || spec == "-"@ {
        Some(((active + count - 1) as nat) % count)
    } else {
        None
    }
}

/// Resolve one of tmux's special window tokens within a session to a `Vec`
/// position, relative to the session's active/last window. Returns `None` if the
/// token isn't a special form (the caller then tries a numeric index).
pub fn window_special(sess: &Session, spec: &str) -> (pos: Option<usize>)
    requires
        sess.active < sess.windows@.len() || sess.active + sess.windows@.len() <= usize::MAX,
    ensures
        match special_window(sess.windows@.len(), sess.active as nat, sess.last_active, spec@) {
            Some(p) => pos == Some(p as usize),
            None => pos is None,
        },
{
    let n = sess.windows.len();
    if n == 0 {
        return None;
    }
    let chars = to_chars(spec);
    let len = chars.len();
    let c = chars.as_slice();
    if equals_at(c, 0, len, "{start}") || equals_at(c, 0, len, "^") {
        proof { assert(chars@.subrange(0, len as int) =~= spec@); }
        Some(0)
    } else if equals_at(c, 0, len, "{end}") || equals_at(c, 0, len, "$") {
        proof { assert(chars@.subrange(0, len as int) =~= spec@); }
        Some(n - 1)
    } else if equals_at(c, 0, len, "{last}") {
        proof { assert(chars@.subrange(0, len as int) =~= spec@); }
        match sess.last_active {
            Some(p) => if p < n { Some(p) } else { None },
            None => None,
        }
    } else if equals_at(c, 0, len, "{next}") || equals_at(c, 0, len, "+") {
        proof { assert(chars@.subrange(0, len as int) =~= spec@); }
        if sess.active < n {
            proof {
                if sess.active + 1 < n {
                    vstd::arithmetic::div_mod::lemma_small_mod((sess.active + 1) as nat, n as nat);
                } else {
                    vstd::arithmetic::div_mod::lemma_small_mod(0, n as nat);
                    vstd::arithmetic::div_mod::lemma_mod_add_multiples_vanish(0, n as int);
                }
            }
            if sess.active + 1 < n { Some(sess.active + 1) } else { Some(0) }
        } else {
            Some((sess.active + 1) % n)
        }
    } else if equals_at(c, 0, len, "{previous}") || equals_at(c, 0, len, "-") {
        proof { assert(chars@.subrange(0, len as int) =~= spec@); }
        if sess.active < n {
            proof {
                if sess.active == 0 {
                    vstd::arithmetic::div_mod::lemma_small_mod((n - 1) as nat, n as nat);
                } else {
                    vstd::arithmetic::div_mod::lemma_small_mod((sess.active - 1) as nat, n as nat);
                    vstd::arithmetic::div_mod::lemma_mod_add_multiples_vanish(sess.active - 1, n as int);
                }
            }
            if sess.active == 0 { Some(n - 1) } else { Some(sess.active - 1) }
        } else {
            Some((sess.active + n - 1) % n)
        }
    } else {
        proof { assert(chars@.subrange(0, len as int) =~= spec@); }
        None
    }
}

/// The position of the first `id` in `panes`.
fn first_position(panes: &[u32], id: u32) -> (pos: Option<usize>)
    ensures
        match panes@.index_of_first(id) {
            Some(p) => pos == Some(p as usize),
            None => pos is None,
        },
{
    let mut i: usize = 0;
    while i < panes.len()
        invariant
            i <= panes@.len(),
            forall|j: int| 0 <= j < i ==> panes@[j] != id,
        decreases panes.len() - i,
    {
        if panes[i] == id {
            proof {
                assert(panes@[i as int] == id);
                assert(panes@.contains(id));
                panes@.index_of_first_ensures(id);
            }
            return Some(i);
        }
        i += 1;
    }
    proof {
        panes@.index_of_first_ensures(id);
    }
    None
}

/// The pane position a pane spec names among panes with ids `panes`, `active`
/// current and `last` previous: `%id` the pane with that id, `{top}` the first,
/// `{bottom}` the last, `{last}` the previous one (when it still exists),
/// `{next}`/`+` and `{previous}`/`-` the neighbours of the current one,
/// wrapping, and otherwise a decimal index counted from `base`.
pub open spec fn pane_position(panes: Seq<u32>, active: nat, last: Option<usize>, spec: Seq<char>, base: nat) -> Option<nat> {
    let n = panes.len();
    if n == 0 {
        None
    } else if spec.len() > 0 && spec[0] == '%' {
        match parse_unsigned(spec.skip(1), u32::MAX as nat) {
            Some(id) => match panes.index_of_first(id as u32) {
                Some(p) => Some(p as nat),
                None => None,
            },
            None => None,
        }
    } else if spec == "{top}"@ {
        Some(0)
    } else if spec == "{bottom}"@ {
        Some((n - 1) as nat)
    } else if spec == "{last}"@ {
        match last {
            Some(p) => if p < n { Some(p as nat) } else { None },
            None => None,
        }
    } else if spec == "{next}"@ || spec == "+"@ {
        Some((active + 1) % n)
    } else if spec == "{previous}"@ || spec == "-"@ {
        Some(((active + n - 1) as nat) % n)
    } else {
        match parse_unsigned(spec, usize::MAX as nat) {
            Some(idx) => if idx >= base && idx - base < n { Some((idx - base) as nat) } else { None },
            None => None,
        }
    }
}

/// `{top}` names the first pane, `{bottom}` the last, and `{last}` the
/// previous one while it still exists.
pub proof fn lemma_pane_tokens(panes: Seq<u32>, active: nat, last: Option<usize>, base: nat)
    requires
        panes.len() > 0,
    ensures
        pane_position(panes, active, last, "{top}"@, base) == Some(0nat),
        pane_position(panes, active, last, "{bottom}"@, base) == Some((panes.len() - 1) as nat),
        match last {
            Some(p) => pane_position(panes, active, last, "{last}"@, base) == if p < panes.len() {
                Some(p as nat)
            } else {
                None::<nat>
            },
            None => pane_position(panes, active, last, "{last}"@, base) is None,
        },
{
    reveal_strlit("{top}");
    reveal_strlit("{bottom}");
    reveal_strlit("{last}");
    reveal_strlit("{next}");
    reveal_strlit("{previous}");
    reveal_strlit("+");
    reveal_strlit("-");
    reveal_strlit("%");
    assert("{top}"@.len() == 5 && "{bottom}"@.len() == 8 && "{last}"@.len() == 6 && "{next}"@.len() == 6
        && "{previous}"@.len() == 10 && "+"@.len() == 1 && "-"@.len() == 1 && "%"@.len() == 1);
    assert("{top}"@[0] == '{' && "{bottom}"@[0] == '{' && "{last}"@[0] == '{' && "%"@[0] == '%');
    assert("{next}"@[1] == 'n' && "{last}"@[1] == 'l');
}

/// `{previous}`/`-` names the pane just before the current one and
/// `{next}`/`+` the one just after it, wrapping round; going to the next
/// pane and then to the previous one comes back to the current pane.
pub proof fn lemma_pane_neighbours(panes: Seq<u32>, active: nat, last: Option<usize>, base: nat)
    requires
        panes.len() > 0,
        active < panes.len(),
    ensures
        ({
            let n = panes.len();
            let prev = pane_position(panes, active, last, "-"@, base);
            let next = pane_position(panes, active, last, "+"@, base);
            &&& prev is Some && prev->0 < n && (prev->0 + 1) % n == active
            &&& next is Some && next->0 < n && next->0 == (active + 1) % n
            &&& pane_position(panes, active, last, "{previous}"@, base) == prev
            &&& pane_position(panes, active, last, "{next}"@, base) == next
            &&& pane_position(panes, next->0, last, "-"@, base) == Some(active)
            &&& pane_position(panes, prev->0, last, "+"@, base) == Some(active)
        }),
{
    reveal_strlit("-");
    reveal_strlit("+");
    reveal_strlit("{previous}");
    reveal_strlit("{next}");
    reveal_strlit("{top}");
    reveal_strlit("{bottom}");
    reveal_strlit("{last}");
    let n = panes.len();
    lemma_wrap_neighbours(active as int, n as int);
}

/// `{start}`/`^` names the first window, `{end}`/`$` the last, and
/// `{last}` the previous one while it still exists.
pub proof fn lemma_window_tokens(count: nat, active: nat, last: Option<usize>)
    requires
        count > 0,
    ensures
        special_window(count, active, last, "{start}"@) == Some(0nat),
        special_window(count, active, last, "^"@) == Some(0nat),
        special_window(count, active, last, "{end}"@) == Some((count - 1) as nat),
        special_window(count, active, last, "$"@) == Some((count - 1) as nat),
        special_window(count, active, last, "{last}"@) == match last {
            Some(p) => if p < count { Some(p as nat) } else { None::<nat> },
            None => None::<nat>,
        },
{
    reveal_strlit("{start}");
    reveal_strlit("^");
    reveal_strlit("{end}");
    reveal_strlit("$");
    reveal_strlit("{last}");
    assert("{start}"@.len() == 7 && "^"@.len() == 1 && "{end}"@.len() == 5 && "$"@.len() == 1 && "{last}"@.len() == 6);
    assert("^"@[0] == '^' && "$"@[0] == '$');
}

/// `{previous}`/`-` names the window just before the current one and
/// `{next}`/`+` the one just after it, wrapping round; going to the next
/// window and then to the previous one comes back to the current window.
pub proof fn lemma_window_neighbours(count: nat, active: nat, last: Option<usize>)
    requires
        active < count,
    ensures
        ({
            let prev = special_window(count, active, last, "-"@);
            let next = special_window(count, active, last, "+"@);
            &&& prev is Some && prev->0 < count && (prev->0 + 1) % count == active
            &&& next is Some && next->0 < count && next->0 == (active + 1) % count
            &&& special_window(count, active, last, "{previous}"@) == prev
            &&& special_window(count, active, last, "{next}"@) == next
            &&& special_window(count, next->0, last, "-"@) == Some(active)
            &&& special_window(count, prev->0, last, "+"@) == Some(active)
        }),
{
    reveal_strlit("-");
    reveal_strlit("+");
    reveal_strlit("{previous}");
    reveal_strlit("{next}");
    reveal_strlit("{start}");
    reveal_strlit("^");
    reveal_strlit("{end}");
    reveal_strlit("$");
    reveal_strlit("{last}");
    lemma_wrap_neighbours(active as int, count as int);
    assert("-"@[0] == '-' && "+"@[0] == '+' && "^"@[0] == '^' && "$"@[0] == '$');
    assert("{previous}"@.len() == 10 && "{start}"@.len() == 7 && "{end}"@.len() == 5 && "{last}"@.len() == 6
        && "{next}"@.len() == 6 && "-"@.len() == 1);
    assert("{next}"@[1] == 'n' && "{last}"@[1] == 'l');
    assert("-"@ != "{start}"@ && "-"@ != "^"@ && "-"@ != "{end}"@ && "-"@ != "$"@ && "-"@ != "{last}"@
        && "-"@ != "{next}"@ && "-"@ != "+"@);
    assert("+"@ != "{start}"@ && "+"@ != "^"@ && "+"@ != "{end}"@ && "+"@ != "$"@ && "+"@ != "{last}"@);
    assert("{previous}"@ != "{start}"@ && "{previous}"@ != "^"@ && "{previous}"@ != "{end}"@ && "{previous}"@ != "$"@
        && "{previous}"@ != "{last}"@ && "{previous}"@ != "{next}"@ && "{previous}"@ != "+"@);
    assert("{next}"@ != "{start}"@ && "{next}"@ != "^"@ && "{next}"@ != "{end}"@ && "{next}"@ != "$"@
        && "{next}"@ != "{last}"@);
}

/// Stepping back one place and then forward one, or forward then back,
/// round `n` places returns to where it started.
proof fn lemma_wrap_neighbours(a: int, n: int)
    requires
        0 <= a < n,
    ensures
        0 <= (a + n - 1) % n < n,
        ((a + n - 1) % n + 1) % n == a,
        0 <= (a + 1) % n < n,
        ((a + 1) % n + n - 1) % n == a,
{
    if a == 0 {
        assert((n - 1) % n == n - 1) by (nonlinear_arith) requires n > 0;
        assert(n % n == 0) by (nonlinear_arith) requires n > 0;
    } else {
        assert((a + n - 1) % n == a - 1) by (nonlinear_arith) requires 0 < a < n;
        assert(a % n == a) by (nonlinear_arith) requires 0 < a < n;
    }
    if a + 1 == n {
        assert((a + 1) % n == 0) by (nonlinear_arith) requires a + 1 == n, n > 0;
        assert((n - 1) % n == n - 1) by (nonlinear_arith) requires n > 0;
    } else {
        assert((a + 1) % n == a + 1) by (nonlinear_arith) requires 0 <= a, a + 1 < n;
        assert((a + n) % n == a) by (nonlinear_arith) requires 0 <= a < n;
    }
}

/// Resolve a pane spec within a window, given its panes' ids in order and its
/// active and previous pane positions, to a `Vec` position: a numeric index
/// counted from `base`, a `%id`, or a special token. Returns `None` on a miss.
pub fn pane_pos_in(panes: &[u32], active: usize, last_pane: Option<usize>, spec: &str, base: usize) -> (pos: Option<usize>)
    requires
        active + panes@.len() <= usize::MAX,
    ensures
        match pane_position(panes@, active as nat, last_pane, spec@, base as nat) {
            Some(p) => pos == Some(p as usize),
            None => pos is None,
        },
{
    let n = panes.len();
    if n == 0 {
        return None;
    }
    let chars = to_chars(spec);
    let len = chars.len();
    let c = chars.as_slice();
    proof {
        assert(chars@.subrange(0, len as int) =~= spec@);
    }
    if len > 0 && c[0] == '%' {
        proof {
            assert(chars@.subrange(1, len as int) =~= spec@.skip(1));
        }
        let id = match parse_unsigned_at(c, 1, len, u32::MAX as u64) {
            Some(v) => v as u32,
            None => return None,
        };
        proof {
            assert(spec@.len() > 0 && spec@[0] == '%');
            assert(parse_unsigned(spec@.skip(1), u32::MAX as nat) == Some(id as nat));
        }
        let found = first_position(panes, id);
        proof {
            panes@.index_of_first_ensures(id);
        }
        return match found {
            Some(p) => Some(p),
            None => None,
        };
    }
    if equals_at(c, 0, len, "{top}") {
        return Some(0);
    }
    if equals_at(c, 0, len, "{bottom}") {
        return Some(n - 1);
    }
    if equals_at(c, 0, len, "{last}") {
        return match last_pane {
            Some(p) => if p < n { Some(p) } else { None },
            None => None,
        };
    }
    if equals_at(c, 0, len, "{next}") || equals_at(c, 0, len, "+") {
        return Some((active + 1) % n);
    }
    if equals_at(c, 0, len, "{previous}") || equals_at(c, 0, len, "-") {
        return Some((active + n - 1) % n);
    }
    let idx = match parse_unsigned_at(c, 0, len, usize::MAX as u64) {
        Some(v) => v as usize,
        None => return None,
    };
    if idx < base {
        return None;
    }
    let idx = idx - base;
    if idx < n { Some(idx) } else { None }
}

} // verus!
