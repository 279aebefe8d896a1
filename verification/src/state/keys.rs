use vstd::prelude::*;
use crate::session::{KeyBinding, KeyEntry};
use crate::state::{ServerState, owned};
use crate::text::{decimal, digit_char, lemma_decimal_injective, push_decimal, push_text};

verus! {

/// What a binding holds: whether it repeats, its note, and the words of its
/// command.
pub type BindingView = (bool, Option<Seq<char>>, Seq<Seq<char>>);

/// The texts of `words`.
pub open spec fn texts_of(words: Seq<String>) -> Seq<Seq<char>> {
    words.map_values(|w: String| w@)
}

/// The texts of `words`.
pub open spec fn words_view(words: Seq<&str>) -> Seq<Seq<char>> {
    words.map_values(|w: &str| w@)
}

pub open spec fn binding_view(b: KeyBinding) -> BindingView {
    (b.repeat, match b.note { Some(n) => Some(n@), None => None }, texts_of(b.command@))
}

/// The table and key of each entry, in order.
pub open spec fn entry_keys(entries: Seq<KeyEntry>) -> Seq<(Seq<char>, Seq<char>)> {
    entries.map_values(|e: KeyEntry| (e.table@, e.key@))
}

/// The bindings `entries` make: for each table and key, what its first
/// entry holds.
pub open spec fn bindings_of(entries: Seq<KeyEntry>) -> Map<(Seq<char>, Seq<char>), BindingView> {
    Map::new(
        |k: (Seq<char>, Seq<char>)| entry_keys(entries).contains(k),
        |k: (Seq<char>, Seq<char>)| binding_view(entries[entry_keys(entries).index_of_first(k)->0].binding),
    )
}

/// Whether `k` is left alone when the bindings of `table` (only that of
/// `key` when one is given) go.
pub open spec fn kept_key(k: (Seq<char>, Seq<char>), table: Seq<char>, key: Option<Seq<char>>) -> bool {
    !(k.0 == table && match key { Some(x) => k.1 == x, None => true })
}

/// Where `x` first stands in `s` with `e` after it.
proof fn lemma_first_of_push<T>(s: Seq<T>, e: T, x: T)
    ensures
        s.push(e).index_of_first(x) == (if s.contains(x) { s.index_of_first(x) } else if e == x {
            Some(s.len() as int)
        } else {
            None::<int>
        }),
{
    let t = s.push(e);
    s.index_of_first_ensures(x);
    t.index_of_first_ensures(x);
    if s.contains(x) {
        let i = s.index_of_first(x)->0;
        assert(t[i] == x);
        let j = t.index_of_first(x)->0;
        assert(s[j] == x);
    } else if e == x {
        assert(t[s.len() as int] == x);
        let j = t.index_of_first(x)->0;
        if j < s.len() {
            assert(s[j] == x);
        }
    } else {
        if t.contains(x) {
            let j = t.index_of_first(x)->0;
            if j < s.len() {
                assert(s[j] == x);
            }
        }
    }
}

/// The bindings of entries with one more at the end.
proof fn lemma_bindings_push(entries: Seq<KeyEntry>, e: KeyEntry)
    ensures
        bindings_of(entries.push(e)) == if bindings_of(entries).contains_key((e.table@, e.key@)) {
            bindings_of(entries)
        } else {
            bindings_of(entries).insert((e.table@, e.key@), binding_view(e.binding))
        },
{
    let ks = entry_keys(entries);
    let kt = entry_keys(entries.push(e));
    assert(kt =~= ks.push((e.table@, e.key@)));
    assert forall|k: (Seq<char>, Seq<char>)| #[trigger] kt.contains(k) == (ks.contains(k) || k == (e.table@, e.key@)) by {
        lemma_first_of_push(ks, (e.table@, e.key@), k);
        ks.index_of_first_ensures(k);
        kt.index_of_first_ensures(k);
    }
    assert forall|k: (Seq<char>, Seq<char>)| kt.contains(k) implies
        #[trigger] kt.index_of_first(k) == (if ks.contains(k) { ks.index_of_first(k) } else { Some(ks.len() as int) }) by {
        lemma_first_of_push(ks, (e.table@, e.key@), k);
    }
    assert forall|k: (Seq<char>, Seq<char>)| ks.contains(k) implies
        entries.push(e)[#[trigger] ks.index_of_first(k)->0] == entries[ks.index_of_first(k)->0] by {
        ks.index_of_first_ensures(k);
    }
    if bindings_of(entries).contains_key((e.table@, e.key@)) {
        assert(bindings_of(entries.push(e)) =~= bindings_of(entries));
    } else {
        assert(bindings_of(entries.push(e)) =~= bindings_of(entries).insert((e.table@, e.key@), binding_view(e.binding)));
    }
}

/// The bindings of entries with the one at `i`, the first for its key,
/// replaced by one for the same key.
proof fn lemma_bindings_update(entries: Seq<KeyEntry>, i: int, e: KeyEntry)
    requires
        0 <= i < entries.len(),
        entry_keys(entries).index_of_first((e.table@, e.key@)) == Some(i),
    ensures
        bindings_of(entries.update(i, e)) == bindings_of(entries).insert((e.table@, e.key@), binding_view(e.binding)),
{
    let ks = entry_keys(entries);
    let u = entries.update(i, e);
    ks.index_of_first_ensures((e.table@, e.key@));
    assert(entry_keys(u) =~= ks);
    assert forall|k: (Seq<char>, Seq<char>)| ks.contains(k) && k != (e.table@, e.key@) implies
        u[#[trigger] ks.index_of_first(k)->0] == entries[ks.index_of_first(k)->0] by {
        ks.index_of_first_ensures(k);
    }
    assert(bindings_of(u) =~= bindings_of(entries).insert((e.table@, e.key@), binding_view(e.binding)));
}

/// Leaving out the entries whose keys `kept_key` drops keeps the first
/// entry of every other key.
proof fn lemma_bindings_kept(entries: Seq<KeyEntry>, table: Seq<char>, key: Option<Seq<char>>)
    ensures
        bindings_of(entries.filter(|e: KeyEntry| kept_key((e.table@, e.key@), table, key)))
            == bindings_of(entries).restrict(Set::new(|k: (Seq<char>, Seq<char>)| kept_key(k, table, key))),
    decreases entries.len(),
{
    reveal(Seq::filter);
    let pred = |e: KeyEntry| kept_key((e.table@, e.key@), table, key);
    let kept = Set::new(|k: (Seq<char>, Seq<char>)| kept_key(k, table, key));
    if entries.len() == 0 {
        assert(entries.filter(pred) =~= entries);
        assert(bindings_of(entries) =~= Map::empty());
        assert(bindings_of(entries.filter(pred)) =~= bindings_of(entries).restrict(kept));
    } else {
        let rest = entries.drop_last();
        let e = entries.last();
        lemma_bindings_kept(rest, table, key);
        assert(entries =~= rest.push(e));
        lemma_bindings_push(rest, e);
        if pred(e) {
            assert(entries.filter(pred) == rest.filter(pred).push(e));
            lemma_bindings_push(rest.filter(pred), e);
            assert(bindings_of(entries.filter(pred)) =~= bindings_of(entries).restrict(kept));
        } else {
            assert(entries.filter(pred) == rest.filter(pred));
            assert(bindings_of(entries.filter(pred)) =~= bindings_of(entries).restrict(kept));
        }
    }
}

/// Default bindings, part 1.
pub open spec fn default_bindings_1(m: Map<(Seq<char>, Seq<char>), BindingView>) -> Map<(Seq<char>, Seq<char>), BindingView> {
    m
        .insert(("root"@, "MouseDown1Pane"@), (false, None, words_view(seq!["select-pane", "-t", "=", ";", "send-keys", "-M"])))
        .insert(("root"@, "MouseDrag1Pane"@), (false, None, words_view(seq!["copy-mode", "-M"])))
        .insert(("root"@, "WheelUpPane"@), (false, None, words_view(seq!["copy-mode", "-e"])))
        .insert(("root"@, "DoubleClick1Pane"@), (false, None, words_view(seq!["copy-mode", "-H", ";", "send-keys", "-X", "select-word", ";", "run-shell", "-d", "0.3", ";", "send-keys", "-X", "copy-pipe-and-cancel"])))
        .insert(("root"@, "TripleClick1Pane"@), (false, None, words_view(seq!["copy-mode", "-H", ";", "send-keys", "-X", "select-line", ";", "run-shell", "-d", "0.3", ";", "send-keys", "-X", "copy-pipe-and-cancel"])))
}

/// Default bindings, part 2.
pub open spec fn default_bindings_2(m: Map<(Seq<char>, Seq<char>), BindingView>) -> Map<(Seq<char>, Seq<char>), BindingView> {
    m
        .insert(("root"@, "MouseDown1ScrollbarUp"@), (false, None, words_view(seq!["copy-mode", "-u"])))
        .insert(("root"@, "MouseDown1ScrollbarDown"@), (false, None, words_view(seq!["copy-mode", "-d"])))
        .insert(("root"@, "MouseDrag1ScrollbarSlider"@), (false, None, words_view(seq!["copy-mode", "-S"])))
        .insert(("prefix"@, "C-b"@), (false, None, words_view(seq!["send-prefix"])))
        .insert(("prefix"@, "C-z"@), (false, None, words_view(seq!["suspend-client"])))
}

/// Default bindings, part 3.
pub open spec fn default_bindings_3(m: Map<(Seq<char>, Seq<char>), BindingView>) -> Map<(Seq<char>, Seq<char>), BindingView> {
    m
        .insert(("prefix"@, "d"@), (false, None, words_view(seq!["detach-client"])))
        .insert(("prefix"@, "c"@), (false, None, words_view(seq!["new-window"])))
        .insert(("prefix"@, "\""@), (false, None, words_view(seq!["split-window"])))
        .insert(("prefix"@, "%"@), (false, None, words_view(seq!["split-window", "-h"])))
        .insert(("prefix"@, "n"@), (false, None, words_view(seq!["next-window"])))
}

/// Default bindings, part 4.
pub open spec fn default_bindings_4(m: Map<(Seq<char>, Seq<char>), BindingView>) -> Map<(Seq<char>, Seq<char>), BindingView> {
    m
        .insert(("prefix"@, "p"@), (false, None, words_view(seq!["previous-window"])))
        .insert(("prefix"@, "l"@), (false, None, words_view(seq!["last-window"])))
        .insert(("prefix"@, ":"@), (false, None, words_view(seq!["command-prompt"])))
        .insert(("prefix"@, "o"@), (false, None, words_view(seq!["select-pane", "-t", ":.+"])))
        .insert(("prefix"@, "["@), (false, None, words_view(seq!["copy-mode"])))
}

/// Default bindings, part 5.
pub open spec fn default_bindings_5(m: Map<(Seq<char>, Seq<char>), BindingView>) -> Map<(Seq<char>, Seq<char>), BindingView> {
    m
        .insert(("prefix"@, "PPage"@), (false, None, words_view(seq!["copy-mode", "-u"])))
        .insert(("prefix"@, "Up"@), (false, None, words_view(seq!["select-pane", "-U"])))
        .insert(("prefix"@, "Down"@), (false, None, words_view(seq!["select-pane", "-D"])))
        .insert(("prefix"@, "Left"@), (false, None, words_view(seq!["select-pane", "-L"])))
        .insert(("prefix"@, "Right"@), (false, None, words_view(seq!["select-pane", "-R"])))
}

/// Default bindings, part 6.
pub open spec fn default_bindings_6(m: Map<(Seq<char>, Seq<char>), BindingView>) -> Map<(Seq<char>, Seq<char>), BindingView> {
    m
        .insert(("prefix"@, "&"@), (false, None, words_view(seq!["confirm-before", "-p", "kill-window #W? (y/n)", "kill-window"])))
        .insert(("prefix"@, "x"@), (false, None, words_view(seq!["confirm-before", "-p", "kill-pane #P? (y/n)", "kill-pane"])))
        .insert(("copy-mode"@, "PPage"@), (false, None, words_view(seq!["send-keys", "-X", "page-up"])))
        .insert(("copy-mode"@, "NPage"@), (false, None, words_view(seq!["send-keys", "-X", "page-down"])))
        .insert(("copy-mode"@, "Up"@), (false, None, words_view(seq!["send-keys", "-X", "cursor-up"])))
}

/// Default bindings, part 7.
pub open spec fn default_bindings_7(m: Map<(Seq<char>, Seq<char>), BindingView>) -> Map<(Seq<char>, Seq<char>), BindingView> {
    m
        .insert(("copy-mode"@, "Down"@), (false, None, words_view(seq!["send-keys", "-X", "cursor-down"])))
        .insert(("copy-mode"@, "q"@), (false, None, words_view(seq!["send-keys", "-X", "cancel"])))
        .insert(("copy-mode"@, "Escape"@), (false, None, words_view(seq!["send-keys", "-X", "cancel"])))
        .insert(("copy-mode"@, "C-c"@), (false, None, words_view(seq!["send-keys", "-X", "cancel"])))
        .insert(("copy-mode-vi"@, "PPage"@), (false, None, words_view(seq!["send-keys", "-X", "page-up"])))
}

/// Default bindings, part 8.
pub open spec fn default_bindings_8(m: Map<(Seq<char>, Seq<char>), BindingView>) -> Map<(Seq<char>, Seq<char>), BindingView> {
    m
        .insert(("copy-mode-vi"@, "NPage"@), (false, None, words_view(seq!["send-keys", "-X", "page-down"])))
        .insert(("copy-mode-vi"@, "Up"@), (false, None, words_view(seq!["send-keys", "-X", "cursor-up"])))
        .insert(("copy-mode-vi"@, "Down"@), (false, None, words_view(seq!["send-keys", "-X", "cursor-down"])))
        .insert(("copy-mode-vi"@, "k"@), (false, None, words_view(seq!["send-keys", "-X", "cursor-up"])))
        .insert(("copy-mode-vi"@, "j"@), (false, None, words_view(seq!["send-keys", "-X", "cursor-down"])))
}

/// Default bindings, part 9.
pub open spec fn default_bindings_9(m: Map<(Seq<char>, Seq<char>), BindingView>) -> Map<(Seq<char>, Seq<char>), BindingView> {
    m
        .insert(("copy-mode-vi"@, "g"@), (false, None, words_view(seq!["send-keys", "-X", "history-top"])))
        .insert(("copy-mode-vi"@, "G"@), (false, None, words_view(seq!["send-keys", "-X", "history-bottom"])))
        .insert(("copy-mode-vi"@, "q"@), (false, None, words_view(seq!["send-keys", "-X", "cancel"])))
        .insert(("copy-mode-vi"@, "Escape"@), (false, None, words_view(seq!["send-keys", "-X", "clear-selection"])))
        .insert(("copy-mode-vi"@, "Enter"@), (false, None, words_view(seq!["send-keys", "-X", "copy-pipe-and-cancel"])))
}

/// Default bindings, part 10.
pub open spec fn default_bindings_10(m: Map<(Seq<char>, Seq<char>), BindingView>) -> Map<(Seq<char>, Seq<char>), BindingView> {
    m
        .insert(("copy-mode-vi"@, "C-c"@), (false, None, words_view(seq!["send-keys", "-X", "cancel"])))
        .insert(("copy-mode-vi"@, "Space"@), (false, None, words_view(seq!["send-keys", "-X", "begin-selection"])))
        .insert(("copy-mode-vi"@, "$"@), (false, None, words_view(seq!["send-keys", "-X", "end-of-line"])))
        .insert(("copy-mode-vi"@, "0"@), (false, None, words_view(seq!["send-keys", "-X", "start-of-line"])))
        .insert(("copy-mode-vi"@, "h"@), (false, None, words_view(seq!["send-keys", "-X", "cursor-left"])))
}

/// Default bindings, part 11.
pub open spec fn default_bindings_11(m: Map<(Seq<char>, Seq<char>), BindingView>) -> Map<(Seq<char>, Seq<char>), BindingView> {
    m
        .insert(("copy-mode-vi"@, "l"@), (false, None, words_view(seq!["send-keys", "-X", "cursor-right"])))
        .insert(("copy-mode-vi"@, "w"@), (false, None, words_view(seq!["send-keys", "-X", "next-word"])))
        .insert(("copy-mode-vi"@, "b"@), (false, None, words_view(seq!["send-keys", "-X", "previous-word"])))
        .insert(("copy-mode-vi"@, "e"@), (false, None, words_view(seq!["send-keys", "-X", "next-word-end"])))
        .insert(("copy-mode-vi"@, "n"@), (false, None, words_view(seq!["send-keys", "-X", "search-again"])))
}

/// Default bindings, part 12.
pub open spec fn default_bindings_12(m: Map<(Seq<char>, Seq<char>), BindingView>) -> Map<(Seq<char>, Seq<char>), BindingView> {
    m
        .insert(("copy-mode-vi"@, "N"@), (false, None, words_view(seq!["send-keys", "-X", "search-reverse"])))
        .insert(("copy-mode-vi"@, "o"@), (false, None, words_view(seq!["send-keys", "-X", "other-end"])))
        .insert(("copy-mode-vi"@, "v"@), (false, None, words_view(seq!["send-keys", "-X", "rectangle-toggle"])))
        .insert(("copy-mode-vi"@, "V"@), (false, None, words_view(seq!["send-keys", "-X", "select-line"])))
        .insert(("copy-mode-vi"@, "0x5e"@), (false, None, words_view(seq!["send-keys", "-X", "back-to-indentation"])))
}

/// Default bindings, part 13.
pub open spec fn default_bindings_13(m: Map<(Seq<char>, Seq<char>), BindingView>) -> Map<(Seq<char>, Seq<char>), BindingView> {
    m
        .insert(("copy-mode-vi"@, "%"@), (false, None, words_view(seq!["send-keys", "-X", "next-matching-bracket"])))
        .insert(("copy-mode-vi"@, "H"@), (false, None, words_view(seq!["send-keys", "-X", "top-line"])))
        .insert(("copy-mode-vi"@, "M"@), (false, None, words_view(seq!["send-keys", "-X", "middle-line"])))
        .insert(("copy-mode-vi"@, "L"@), (false, None, words_view(seq!["send-keys", "-X", "bottom-line"])))
        .insert(("copy-mode-vi"@, "r"@), (false, None, words_view(seq!["send-keys", "-X", "refresh-from-pane"])))
}

/// Default bindings, part 14.
pub open spec fn default_bindings_14(m: Map<(Seq<char>, Seq<char>), BindingView>) -> Map<(Seq<char>, Seq<char>), BindingView> {
    m
        .insert(("copy-mode-vi"@, "C-d"@), (false, None, words_view(seq!["send-keys", "-X", "halfpage-down"])))
        .insert(("copy-mode-vi"@, "C-u"@), (false, None, words_view(seq!["send-keys", "-X", "halfpage-up"])))
        .insert(("copy-mode-vi"@, "C-f"@), (false, None, words_view(seq!["send-keys", "-X", "page-down"])))
        .insert(("copy-mode-vi"@, "C-b"@), (false, None, words_view(seq!["send-keys", "-X", "page-up"])))
        .insert(("copy-mode-vi"@, "C-e"@), (false, None, words_view(seq!["send-keys", "-X", "scroll-down"])))
}

/// Default bindings, part 15.
pub open spec fn default_bindings_15(m: Map<(Seq<char>, Seq<char>), BindingView>) -> Map<(Seq<char>, Seq<char>), BindingView> {
    m
        .insert(("copy-mode-vi"@, "C-y"@), (false, None, words_view(seq!["send-keys", "-X", "scroll-up"])))
        .insert(("copy-mode"@, "C-Space"@), (false, None, words_view(seq!["send-keys", "-X", "begin-selection"])))
        .insert(("copy-mode"@, "C-a"@), (false, None, words_view(seq!["send-keys", "-X", "start-of-line"])))
        .insert(("copy-mode"@, "C-["@), (false, None, words_view(seq!["send-keys", "-X", "cancel"])))
        .insert(("copy-mode"@, "C-e"@), (false, None, words_view(seq!["send-keys", "-X", "end-of-line"])))
}

/// Default bindings, part 16.
pub open spec fn default_bindings_16(m: Map<(Seq<char>, Seq<char>), BindingView>) -> Map<(Seq<char>, Seq<char>), BindingView> {
    m
        .insert(("copy-mode"@, "C-f"@), (false, None, words_view(seq!["send-keys", "-X", "cursor-right"])))
        .insert(("copy-mode"@, "C-b"@), (false, None, words_view(seq!["send-keys", "-X", "cursor-left"])))
        .insert(("copy-mode"@, "C-g"@), (false, None, words_view(seq!["send-keys", "-X", "clear-selection"])))
        .insert(("copy-mode"@, "C-l"@), (false, None, words_view(seq!["send-keys", "-X", "recentre-top-bottom"])))
        .insert(("copy-mode"@, "C-n"@), (false, None, words_view(seq!["send-keys", "-X", "cursor-down"])))
}

/// Default bindings, part 17.
pub open spec fn default_bindings_17(m: Map<(Seq<char>, Seq<char>), BindingView>) -> Map<(Seq<char>, Seq<char>), BindingView> {
    m
        .insert(("copy-mode"@, "C-p"@), (false, None, words_view(seq!["send-keys", "-X", "cursor-up"])))
        .insert(("copy-mode"@, "C-v"@), (false, None, words_view(seq!["send-keys", "-X", "page-down"])))
        .insert(("copy-mode"@, "Space"@), (false, None, words_view(seq!["send-keys", "-X", "page-down"])))
        .insert(("copy-mode"@, "n"@), (false, None, words_view(seq!["send-keys", "-X", "search-again"])))
        .insert(("copy-mode"@, "N"@), (false, None, words_view(seq!["send-keys", "-X", "search-reverse"])))
}

/// Default bindings, part 18.
pub open spec fn default_bindings_18(m: Map<(Seq<char>, Seq<char>), BindingView>) -> Map<(Seq<char>, Seq<char>), BindingView> {
    m
        .insert(("copy-mode"@, "R"@), (false, None, words_view(seq!["send-keys", "-X", "rectangle-toggle"])))
        .insert(("copy-mode"@, "r"@), (false, None, words_view(seq!["send-keys", "-X", "refresh-from-pane"])))
        .insert(("copy-mode"@, "Home"@), (false, None, words_view(seq!["send-keys", "-X", "start-of-line"])))
        .insert(("copy-mode"@, "End"@), (false, None, words_view(seq!["send-keys", "-X", "end-of-line"])))
        .insert(("copy-mode"@, "MouseDrag1Pane"@), (false, None, words_view(seq!["select-pane", ";", "send-keys", "-X", "begin-selection"])))
}

/// Default bindings, part 19.
pub open spec fn default_bindings_19(m: Map<(Seq<char>, Seq<char>), BindingView>) -> Map<(Seq<char>, Seq<char>), BindingView> {
    m
        .insert(("copy-mode"@, "MouseDragEnd1Pane"@), (false, None, words_view(seq!["send-keys", "-X", "copy-pipe-and-cancel"])))
        .insert(("copy-mode"@, "WheelUpPane"@), (false, None, words_view(seq!["select-pane", ";", "send-keys", "-N5", "-X", "scroll-up"])))
        .insert(("copy-mode"@, "WheelDownPane"@), (false, None, words_view(seq!["select-pane", ";", "send-keys", "-N5", "-X", "scroll-down"])))
        .insert(("copy-mode"@, "C-r"@), (false, None, words_view(seq!["command-prompt", "-T", "search", "-i", "-p", "(search up)", "-I", "#{pane_search_string}", "send-keys -X search-backward-incremental -- '%%'"])))
        .insert(("copy-mode"@, "C-s"@), (false, None, words_view(seq!["command-prompt", "-T", "search", "-i", "-p", "(search down)", "-I", "#{pane_search_string}", "send-keys -X search-forward-incremental -- '%%'"])))
}

/// Default bindings, part 20.
pub open spec fn default_bindings_20(m: Map<(Seq<char>, Seq<char>), BindingView>) -> Map<(Seq<char>, Seq<char>), BindingView> {
    m
        .insert(("copy-mode"@, "f"@), (false, None, words_view(seq!["command-prompt", "-1", "-p", "(jump forward)", "send-keys -X jump-forward -- '%%'"])))
        .insert(("copy-mode"@, "F"@), (false, None, words_view(seq!["command-prompt", "-1", "-p", "(jump backward)", "send-keys -X jump-backward -- '%%'"])))
        .insert(("copy-mode"@, "t"@), (false, None, words_view(seq!["command-prompt", "-1", "-p", "(jump to forward)", "send-keys -X jump-to-forward -- '%%'"])))
        .insert(("copy-mode"@, "T"@), (false, None, words_view(seq!["command-prompt", "-1", "-p", "(jump to backward)", "send-keys -X jump-to-backward -- '%%'"])))
        .insert(("copy-mode"@, ","@), (false, None, words_view(seq!["send-keys", "-X", "jump-reverse"])))
}

/// Default bindings, part 21.
pub open spec fn default_bindings_21(m: Map<(Seq<char>, Seq<char>), BindingView>) -> Map<(Seq<char>, Seq<char>), BindingView> {
    m
        .insert(("copy-mode"@, ";"@), (false, None, words_view(seq!["send-keys", "-X", "jump-again"])))
        .insert(("copy-mode"@, "X"@), (false, None, words_view(seq!["send-keys", "-X", "set-mark"])))
        .insert(("copy-mode"@, "M-x"@), (false, None, words_view(seq!["send-keys", "-X", "jump-to-mark"])))
        .insert(("copy-mode"@, "M-b"@), (false, None, words_view(seq!["send-keys", "-X", "previous-word"])))
        .insert(("copy-mode"@, "M-f"@), (false, None, words_view(seq!["send-keys", "-X", "next-word-end"])))
}

/// Default bindings, part 22.
pub open spec fn default_bindings_22(m: Map<(Seq<char>, Seq<char>), BindingView>) -> Map<(Seq<char>, Seq<char>), BindingView> {
    m
        .insert(("copy-mode"@, "M-l"@), (false, None, words_view(seq!["send-keys", "-X", "cursor-centre-horizontal"])))
        .insert(("copy-mode"@, "M-m"@), (false, None, words_view(seq!["send-keys", "-X", "back-to-indentation"])))
        .insert(("copy-mode"@, "M-v"@), (false, None, words_view(seq!["send-keys", "-X", "page-up"])))
        .insert(("copy-mode"@, "M-Up"@), (false, None, words_view(seq!["send-keys", "-X", "halfpage-up"])))
        .insert(("copy-mode"@, "M-Down"@), (false, None, words_view(seq!["send-keys", "-X", "halfpage-down"])))
}

/// Default bindings, part 23.
pub open spec fn default_bindings_23(m: Map<(Seq<char>, Seq<char>), BindingView>) -> Map<(Seq<char>, Seq<char>), BindingView> {
    m
        .insert(("copy-mode"@, "C-Up"@), (false, None, words_view(seq!["send-keys", "-X", "scroll-up"])))
        .insert(("copy-mode"@, "C-Down"@), (false, None, words_view(seq!["send-keys", "-X", "scroll-down"])))
        .insert(("copy-mode"@, "M-<"@), (false, None, words_view(seq!["send-keys", "-X", "history-top"])))
        .insert(("copy-mode"@, "M->"@), (false, None, words_view(seq!["send-keys", "-X", "history-bottom"])))
        .insert(("copy-mode"@, "P"@), (false, None, words_view(seq!["send-keys", "-X", "toggle-position"])))
}

/// Default bindings, part 24.
pub open spec fn default_bindings_24(m: Map<(Seq<char>, Seq<char>), BindingView>) -> Map<(Seq<char>, Seq<char>), BindingView> {
    m
        .insert(("copy-mode"@, "g"@), (false, None, words_view(seq!["command-prompt", "-p", "(goto line)", "send-keys -X goto-line -- '%%'"])))
        .insert(("copy-mode"@, "MouseDown1Pane"@), (false, None, words_view(seq!["select-pane"])))
        .insert(("copy-mode"@, "DoubleClick1Pane"@), (false, None, words_view(seq!["select-pane", ";", "send-keys", "-X", "select-word", ";", "run-shell", "-d", "0.3", ";", "send-keys", "-X", "copy-pipe-and-cancel"])))
        .insert(("copy-mode"@, "TripleClick1Pane"@), (false, None, words_view(seq!["select-pane", ";", "send-keys", "-X", "select-line", ";", "run-shell", "-d", "0.3", ";", "send-keys", "-X", "copy-pipe-and-cancel"])))
        .insert(("copy-mode-vi"@, "/"@), (false, None, words_view(seq!["command-prompt", "-p", "(search down)", "send-keys -X search-forward -- '%%'"])))
}

/// Default bindings, part 25.
pub open spec fn default_bindings_25(m: Map<(Seq<char>, Seq<char>), BindingView>) -> Map<(Seq<char>, Seq<char>), BindingView> {
    m
        .insert(("copy-mode-vi"@, "?"@), (false, None, words_view(seq!["command-prompt", "-p", "(search up)", "send-keys -X search-backward -- '%%'"])))
        .insert(("copy-mode-vi"@, "*"@), (false, None, words_view(seq!["send-keys", "-F", "-X", "search-forward", "--", "#{copy_cursor_word}"])))
        .insert(("copy-mode-vi"@, "#"@), (false, None, words_view(seq!["send-keys", "-F", "-X", "search-backward", "--", "#{copy_cursor_word}"])))
        .insert(("copy-mode-vi"@, "C-["@), (false, None, words_view(seq!["send-keys", "-X", "clear-selection"])))
        .insert(("copy-mode-vi"@, "C-h"@), (false, None, words_view(seq!["send-keys", "-X", "cursor-left"])))
}

/// Default bindings, part 26.
pub open spec fn default_bindings_26(m: Map<(Seq<char>, Seq<char>), BindingView>) -> Map<(Seq<char>, Seq<char>), BindingView> {
    m
        .insert(("copy-mode-vi"@, ":"@), (false, None, words_view(seq!["command-prompt", "-p", "(goto line)", "send-keys -X goto-line -- '%%'"])))
        .insert(("copy-mode-vi"@, "f"@), (false, None, words_view(seq!["command-prompt", "-1", "-p", "(jump forward)", "send-keys -X jump-forward -- '%%'"])))
        .insert(("copy-mode-vi"@, "F"@), (false, None, words_view(seq!["command-prompt", "-1", "-p", "(jump backward)", "send-keys -X jump-backward -- '%%'"])))
        .insert(("copy-mode-vi"@, "t"@), (false, None, words_view(seq!["command-prompt", "-1", "-p", "(jump to forward)", "send-keys -X jump-to-forward -- '%%'"])))
        .insert(("copy-mode-vi"@, "T"@), (false, None, words_view(seq!["command-prompt", "-1", "-p", "(jump to backward)", "send-keys -X jump-to-backward -- '%%'"])))
}

/// Default bindings, part 27.
pub open spec fn default_bindings_27(m: Map<(Seq<char>, Seq<char>), BindingView>) -> Map<(Seq<char>, Seq<char>), BindingView> {
    m
        .insert(("copy-mode-vi"@, ","@), (false, None, words_view(seq!["send-keys", "-X", "jump-reverse"])))
        .insert(("copy-mode-vi"@, ";"@), (false, None, words_view(seq!["send-keys", "-X", "jump-again"])))
        .insert(("copy-mode-vi"@, "X"@), (false, None, words_view(seq!["send-keys", "-X", "set-mark"])))
        .insert(("copy-mode-vi"@, "M-x"@), (false, None, words_view(seq!["send-keys", "-X", "jump-to-mark"])))
        .insert(("copy-mode-vi"@, "P"@), (false, None, words_view(seq!["send-keys", "-X", "toggle-position"])))
}

/// Default bindings, part 28.
pub open spec fn default_bindings_28(m: Map<(Seq<char>, Seq<char>), BindingView>) -> Map<(Seq<char>, Seq<char>), BindingView> {
    m
        .insert(("copy-mode-vi"@, "z"@), (false, None, words_view(seq!["send-keys", "-X", "scroll-middle"])))
        .insert(("copy-mode-vi"@, "B"@), (false, None, words_view(seq!["send-keys", "-X", "previous-space"])))
        .insert(("copy-mode-vi"@, "W"@), (false, None, words_view(seq!["send-keys", "-X", "next-space"])))
        .insert(("copy-mode-vi"@, "E"@), (false, None, words_view(seq!["send-keys", "-X", "next-space-end"])))
        .insert(("copy-mode-vi"@, "J"@), (false, None, words_view(seq!["send-keys", "-X", "scroll-down"])))
}

/// Default bindings, part 29.
pub open spec fn default_bindings_29(m: Map<(Seq<char>, Seq<char>), BindingView>) -> Map<(Seq<char>, Seq<char>), BindingView> {
    m
        .insert(("copy-mode-vi"@, "K"@), (false, None, words_view(seq!["send-keys", "-X", "scroll-up"])))
        .insert(("copy-mode-vi"@, "C-v"@), (false, None, words_view(seq!["send-keys", "-X", "rectangle-toggle"])))
        .insert(("copy-mode-vi"@, "Left"@), (false, None, words_view(seq!["send-keys", "-X", "cursor-left"])))
        .insert(("copy-mode-vi"@, "Right"@), (false, None, words_view(seq!["send-keys", "-X", "cursor-right"])))
        .insert(("copy-mode-vi"@, "C-Up"@), (false, None, words_view(seq!["send-keys", "-X", "scroll-up"])))
}

/// Default bindings, part 30.
pub open spec fn default_bindings_30(m: Map<(Seq<char>, Seq<char>), BindingView>) -> Map<(Seq<char>, Seq<char>), BindingView> {
    m
        .insert(("copy-mode-vi"@, "C-Down"@), (false, None, words_view(seq!["send-keys", "-X", "scroll-down"])))
        .insert(("copy-mode-vi"@, "Home"@), (false, None, words_view(seq!["send-keys", "-X", "start-of-line"])))
        .insert(("copy-mode-vi"@, "End"@), (false, None, words_view(seq!["send-keys", "-X", "end-of-line"])))
        .insert(("copy-mode-vi"@, "BSpace"@), (false, None, words_view(seq!["send-keys", "-X", "cursor-left"])))
        .insert(("copy-mode-vi"@, "{"@), (false, None, words_view(seq!["send-keys", "-X", "previous-paragraph"])))
}

/// Default bindings, part 31.
pub open spec fn default_bindings_31(m: Map<(Seq<char>, Seq<char>), BindingView>) -> Map<(Seq<char>, Seq<char>), BindingView> {
    m
        .insert(("copy-mode-vi"@, "}"@), (false, None, words_view(seq!["send-keys", "-X", "next-paragraph"])))
        .insert(("copy-mode-vi"@, "C-j"@), (false, None, words_view(seq!["send-keys", "-X", "copy-pipe-and-cancel"])))
        .insert(("copy-mode-vi"@, "D"@), (false, None, words_view(seq!["send-keys", "-X", "copy-pipe-end-of-line-and-cancel"])))
        .insert(("copy-mode-vi"@, "A"@), (false, None, words_view(seq!["send-keys", "-X", "append-selection-and-cancel"])))
        .insert(("copy-mode"@, "Left"@), (false, None, words_view(seq!["send-keys", "-X", "cursor-left"])))
}

/// Default bindings, part 32.
pub open spec fn default_bindings_32(m: Map<(Seq<char>, Seq<char>), BindingView>) -> Map<(Seq<char>, Seq<char>), BindingView> {
    m
        .insert(("copy-mode"@, "Right"@), (false, None, words_view(seq!["send-keys", "-X", "cursor-right"])))
        .insert(("copy-mode"@, "M-R"@), (false, None, words_view(seq!["send-keys", "-X", "top-line"])))
        .insert(("copy-mode"@, "M-r"@), (false, None, words_view(seq!["send-keys", "-X", "middle-line"])))
        .insert(("copy-mode"@, "C-M-b"@), (false, None, words_view(seq!["send-keys", "-X", "previous-matching-bracket"])))
        .insert(("copy-mode"@, "C-M-f"@), (false, None, words_view(seq!["send-keys", "-X", "next-matching-bracket"])))
}

/// Default bindings, part 33.
pub open spec fn default_bindings_33(m: Map<(Seq<char>, Seq<char>), BindingView>) -> Map<(Seq<char>, Seq<char>), BindingView> {
    m
        .insert(("copy-mode"@, "M-{"@), (false, None, words_view(seq!["send-keys", "-X", "previous-paragraph"])))
        .insert(("copy-mode"@, "M-}"@), (false, None, words_view(seq!["send-keys", "-X", "next-paragraph"])))
        .insert(("copy-mode"@, "C-k"@), (false, None, words_view(seq!["send-keys", "-X", "copy-pipe-end-of-line-and-cancel"])))
        .insert(("copy-mode"@, "C-w"@), (false, None, words_view(seq!["send-keys", "-X", "copy-pipe-and-cancel"])))
        .insert(("copy-mode"@, "M-w"@), (false, None, words_view(seq!["send-keys", "-X", "copy-pipe-and-cancel"])))
}

/// Default bindings, part 34.
pub open spec fn default_bindings_34(m: Map<(Seq<char>, Seq<char>), BindingView>) -> Map<(Seq<char>, Seq<char>), BindingView> {
    m
        .insert(("copy-mode-vi"@, "MouseDrag1Pane"@), (false, None, words_view(seq!["select-pane", ";", "send-keys", "-X", "begin-selection"])))
        .insert(("copy-mode-vi"@, "MouseDown1Pane"@), (false, None, words_view(seq!["select-pane"])))
        .insert(("copy-mode-vi"@, "DoubleClick1Pane"@), (false, None, words_view(seq!["select-pane", ";", "send-keys", "-X", "select-word", ";", "run-shell", "-d", "0.3", ";", "send-keys", "-X", "copy-pipe-and-cancel"])))
        .insert(("copy-mode-vi"@, "TripleClick1Pane"@), (false, None, words_view(seq!["select-pane", ";", "send-keys", "-X", "select-line", ";", "run-shell", "-d", "0.3", ";", "send-keys", "-X", "copy-pipe-and-cancel"])))
        .insert(("copy-mode-vi"@, "MouseDragEnd1Pane"@), (false, None, words_view(seq!["send-keys", "-X", "copy-pipe-and-cancel"])))
}

/// Default bindings, part 35.
pub open spec fn default_bindings_35(m: Map<(Seq<char>, Seq<char>), BindingView>) -> Map<(Seq<char>, Seq<char>), BindingView> {
    m
        .insert(("copy-mode-vi"@, "WheelUpPane"@), (false, None, words_view(seq!["select-pane", ";", "send-keys", "-N5", "-X", "scroll-up"])))
        .insert(("copy-mode-vi"@, "WheelDownPane"@), (false, None, words_view(seq!["select-pane", ";", "send-keys", "-N5", "-X", "scroll-down"])))
}

/// The table-driven default bindings, in order.
pub open spec fn table_defaults(m: Map<(Seq<char>, Seq<char>), BindingView>) -> Map<(Seq<char>, Seq<char>), BindingView> {
    default_bindings_35(default_bindings_34(default_bindings_33(default_bindings_32(default_bindings_31(default_bindings_30(default_bindings_29(default_bindings_28(default_bindings_27(default_bindings_26(default_bindings_25(default_bindings_24(default_bindings_23(default_bindings_22(default_bindings_21(default_bindings_20(default_bindings_19(default_bindings_18(default_bindings_17(default_bindings_16(default_bindings_15(default_bindings_14(default_bindings_13(default_bindings_12(default_bindings_11(default_bindings_10(default_bindings_9(default_bindings_8(default_bindings_7(default_bindings_6(default_bindings_5(default_bindings_4(default_bindings_3(default_bindings_2(default_bindings_1(m)))))))))))))))))))))))))))))))))))
}

/// `a` and `b` are the same bindings.
pub open spec fn same_bindings(a: Map<(Seq<char>, Seq<char>), BindingView>, b: Map<(Seq<char>, Seq<char>), BindingView>) -> bool {
    a == b
}

/// The repeat prompt that a digit starts in copy mode.
pub open spec fn repeat_prompt(i: nat) -> BindingView {
    (false, None, seq!["command-prompt"@, "-N"@, "-p"@, "(repeat)"@, "-I"@, decimal(i), "send-keys -N '%%'"@])
}

/// The digit bindings for the digits below `n`: each selects its window
/// from the prefix table, and 1 to 9 start a repeat count in both copy
/// modes (plain in `copy-mode-vi`, with meta in `copy-mode`).
pub open spec fn digit_bindings(m: Map<(Seq<char>, Seq<char>), BindingView>, n: nat) -> Map<(Seq<char>, Seq<char>), BindingView>
    decreases n,
{
    if n == 0 {
        m
    } else {
        let i = (n - 1) as nat;
        let before = digit_bindings(m, i);
        let selected = before.insert(("prefix"@, decimal(i)), (false, None, seq!["select-window"@, "-t"@, ":"@ + decimal(i)]));
        if i != 0 {
            selected.insert(("copy-mode-vi"@, decimal(i)), repeat_prompt(i)).insert(("copy-mode"@, "M-"@ + decimal(i)), repeat_prompt(i))
        } else {
            selected
        }
    }
}

/// The default key tables bound over `m`: the table of defaults in order,
/// then the digits 0 to 9.
pub open spec fn default_key_tables(m: Map<(Seq<char>, Seq<char>), BindingView>) -> Map<(Seq<char>, Seq<char>), BindingView> {
    digit_bindings(table_defaults(m), 10)
}

/// Whether `k` is one of the keys that the digits below `n` bind.
pub open spec fn digit_key(k: (Seq<char>, Seq<char>), n: nat) -> bool {
    exists|i: nat| #![trigger decimal(i)] i < n && (k == ("prefix"@, decimal(i)) || (i >= 1 && (k == ("copy-mode-vi"@,
        decimal(i)) || k == ("copy-mode"@, "M-"@ + decimal(i)))))
}

/// A key whose name is neither one digit nor `M-` and one digit is none of
/// the keys the digits bind.
pub proof fn lemma_not_digit_key(k: (Seq<char>, Seq<char>))
    requires
        !(k.1.len() == 1 && 48 <= (k.1[0] as u32) <= 57),
        !(k.1.len() == 3 && k.1[0] == 'M' && k.1[1] == '-' && 48 <= (k.1[2] as u32) <= 57),
    ensures
        !digit_key(k, 10),
{
    reveal_strlit("M-");
    if digit_key(k, 10) {
        let i = choose|i: nat| #![trigger decimal(i)] i < 10 && (k == ("prefix"@, decimal(i)) || (i >= 1 && (k == ("copy-mode-vi"@,
            decimal(i)) || k == ("copy-mode"@, "M-"@ + decimal(i)))));
        assert(decimal(i) == seq![digit_char(i)]);
        assert((digit_char(i) as u32) == 48 + i);
        if k.1 == "M-"@ + decimal(i) {
            assert(k.1[2] == decimal(i)[0]);
            assert(k.1[0] == 'M' && k.1[1] == '-');
        } else {
            assert(k.1 == decimal(i));
            assert(k.1[0] == decimal(i)[0]);
        }
    }
}

/// `M-` before two spellings keeps them apart.
proof fn lemma_meta_injective(a: nat, b: nat)
    requires
        "M-"@ + decimal(a) == "M-"@ + decimal(b),
    ensures
        a == b,
{
    reveal_strlit("M-");
    assert(("M-"@ + decimal(a)).skip(2) =~= decimal(a));
    assert(("M-"@ + decimal(b)).skip(2) =~= decimal(b));
    lemma_decimal_injective(a, b);
}

/// The digit keys: with `n` at most ten, [`digit_bindings`] binds each
/// digit below `n` in the prefix table to select its window, each digit
/// from one up to the repeat prompt in both copy modes (plain in
/// `copy-mode-vi`, with meta in `copy-mode`), and leaves every other key,
/// `0` in `copy-mode-vi` among them, as it was.
pub proof fn lemma_digit_bindings(m: Map<(Seq<char>, Seq<char>), BindingView>, n: nat)
    requires
        n <= 10,
    ensures
        forall|i: nat| #![trigger decimal(i)] i < n ==> {
            &&& digit_bindings(m, n).contains_key(("prefix"@, decimal(i)))
            &&& digit_bindings(m, n)[("prefix"@, decimal(i))] == (false, None::<Seq<char>>,
                seq!["select-window"@, "-t"@, ":"@ + decimal(i)])
        },
        forall|i: nat| #![trigger decimal(i)] 1 <= i < n ==> {
            &&& digit_bindings(m, n).contains_key(("copy-mode-vi"@, decimal(i)))
            &&& digit_bindings(m, n)[("copy-mode-vi"@, decimal(i))] == repeat_prompt(i)
            &&& digit_bindings(m, n).contains_key(("copy-mode"@, "M-"@ + decimal(i)))
            &&& digit_bindings(m, n)[("copy-mode"@, "M-"@ + decimal(i))] == repeat_prompt(i)
        },
        forall|k: (Seq<char>, Seq<char>)| !digit_key(k, n) ==> {
            &&& #[trigger] digit_bindings(m, n).contains_key(k) == m.contains_key(k)
            &&& m.contains_key(k) ==> digit_bindings(m, n)[k] == m[k]
        },
        !digit_key(("copy-mode-vi"@, "0"@), n),
    decreases n,
{
    reveal_strlit("prefix");
    reveal_strlit("copy-mode-vi");
    reveal_strlit("copy-mode");
    reveal_strlit("0");
    assert("prefix"@.len() == 6 && "copy-mode"@.len() == 9 && "copy-mode-vi"@.len() == 12);
    assert(decimal(0) =~= "0"@) by {
        assert(digit_char(0) == '0');
    }
    assert(!digit_key(("copy-mode-vi"@, "0"@), n)) by {
        if digit_key(("copy-mode-vi"@, "0"@), n) {
            let i = choose|i: nat| #![trigger decimal(i)] i < n && (("copy-mode-vi"@, "0"@) == ("prefix"@, decimal(i))
                || (i >= 1 && (("copy-mode-vi"@, "0"@) == ("copy-mode-vi"@, decimal(i))
                || ("copy-mode-vi"@, "0"@) == ("copy-mode"@, "M-"@ + decimal(i)))));
            if i >= 1 && decimal(i) == "0"@ {
                lemma_decimal_injective(i, 0);
            }
        }
    }
    if n > 0 {
        let j = (n - 1) as nat;
        lemma_digit_bindings(m, j);
        let before = digit_bindings(m, j);
        assert forall|i: nat| #![trigger decimal(i)] i < n implies {
            &&& digit_bindings(m, n).contains_key(("prefix"@, decimal(i)))
            &&& digit_bindings(m, n)[("prefix"@, decimal(i))] == (false, None::<Seq<char>>,
                seq!["select-window"@, "-t"@, ":"@ + decimal(i)])
        } by {
            if i < j {
                if decimal(i) == decimal(j) {
                    lemma_decimal_injective(i, j);
                }
            }
        }
        assert forall|i: nat| #![trigger decimal(i)] 1 <= i < n implies {
            &&& digit_bindings(m, n).contains_key(("copy-mode-vi"@, decimal(i)))
            &&& digit_bindings(m, n)[("copy-mode-vi"@, decimal(i))] == repeat_prompt(i)
            &&& digit_bindings(m, n).contains_key(("copy-mode"@, "M-"@ + decimal(i)))
            &&& digit_bindings(m, n)[("copy-mode"@, "M-"@ + decimal(i))] == repeat_prompt(i)
        } by {
            if i < j {
                if decimal(i) == decimal(j) {
                    lemma_decimal_injective(i, j);
                }
                if "M-"@ + decimal(i) == "M-"@ + decimal(j) {
                    lemma_meta_injective(i, j);
                }
            }
        }
        assert forall|k: (Seq<char>, Seq<char>)| !digit_key(k, n) implies {
            &&& #[trigger] digit_bindings(m, n).contains_key(k) == m.contains_key(k)
            &&& m.contains_key(k) ==> digit_bindings(m, n)[k] == m[k]
        } by {
            assert(decimal(j) == decimal(j));
            if digit_key(k, j) {
                let i = choose|i: nat| #![trigger decimal(i)] i < j && (k == ("prefix"@, decimal(i)) || (i >= 1
                    && (k == ("copy-mode-vi"@, decimal(i)) || k == ("copy-mode"@, "M-"@ + decimal(i)))));
                assert(i < n);
            }
        }
    }
}

impl ServerState {
    /// The key bindings, by table and key name.
    pub closed spec fn key_bindings(&self) -> Map<(Seq<char>, Seq<char>), BindingView> {
        bindings_of(self.key_tables@)
    }

    /// The position of the first entry for `key` in `table`.
    fn key_position(&self, table: &str, key: &str) -> (pos: Option<usize>)
        ensures
            pos == match entry_keys(self.key_tables@).index_of_first((table@, key@)) {
                Some(i) => Some(i as usize),
                None => None::<usize>,
            },
    {
        let ghost ks = entry_keys(self.key_tables@);
        let t = owned(table);
        let k = owned(key);
        let mut i: usize = 0;
        while i < self.key_tables.len()
            invariant
                i <= self.key_tables@.len(),
                ks == entry_keys(self.key_tables@),
                t@ == table@,
                k@ == key@,
                forall|j: int| 0 <= j < i ==> ks[j] != (table@, key@),
            decreases self.key_tables.len() - i,
        {
            let e = &self.key_tables[i];
            if e.table == t && e.key == k {
                proof {
                    assert(ks[i as int] == (table@, key@));
                    ks.index_of_first_ensures((table@, key@));
                }
                return Some(i);
            }
            proof {
                assert(ks[i as int] == (e.table@, e.key@));
            }
            i += 1;
        }
        proof {
            ks.index_of_first_ensures((table@, key@));
        }
        None
    }

    /// The binding of `key` in `table`, if any.
    pub fn key_binding(&self, table: &str, key: &str) -> (found: Option<&KeyBinding>)
        ensures
            match found {
                Some(b) => self.key_bindings().contains_key((table@, key@))
                    && binding_view(*b) == self.key_bindings()[(table@, key@)],
                None => !self.key_bindings().contains_key((table@, key@)),
            },
    {
        proof {
            entry_keys(self.key_tables@).index_of_first_ensures((table@, key@));
            assert(self.key_tables@.len() == self.key_tables.len());
        }
        match self.key_position(table, key) {
            Some(i) => Some(&self.key_tables[i].binding),
            None => None,
        }
    }

    /// Whether the table `table` has a binding.
    pub fn key_table_exists(&self, table: &str) -> (exists: bool)
        ensures
            exists == (exists|k: Seq<char>| self.key_bindings().contains_key((table@, k))),
    {
        let ghost ks = entry_keys(self.key_tables@);
        let t = owned(table);
        let mut i: usize = 0;
        while i < self.key_tables.len()
            invariant
                i <= self.key_tables@.len(),
                ks == entry_keys(self.key_tables@),
                t@ == table@,
                forall|j: int| 0 <= j < i ==> ks[j].0 != table@,
            decreases self.key_tables.len() - i,
        {
            if self.key_tables[i].table == t {
                proof {
                    let k = self.key_tables@[i as int].key@;
                    assert(ks[i as int] == (table@, k));
                    assert(self.key_bindings().contains_key((table@, k)));
                }
                return true;
            }
            proof {
                assert(ks[i as int].0 == self.key_tables@[i as int].table@);
            }
            i += 1;
        }
        proof {
            assert forall|k: Seq<char>| !self.key_bindings().contains_key((table@, k)) by {
                if ks.contains((table@, k)) {
                    let j = choose|j: int| 0 <= j < ks.len() && ks[j] == (table@, k);
                    assert(ks[j].0 == table@);
                }
            }
        }
        false
    }

    /// `bind-key`: bind `key` in `table` to `command`, replacing what it
    /// was bound to.
    pub fn bind_key(&mut self, table: &str, key: &str, command: Vec<String>, repeat: bool, note: Option<String>)
        ensures
            final(self).key_bindings() == old(self).key_bindings().insert((table@, key@),
                (repeat, match note { Some(n) => Some(n@), None => None }, texts_of(command@))),
            old(self).same_but_keys(final(self)),
    {
        let entry = KeyEntry { table: owned(table), key: owned(key), binding: KeyBinding { repeat, note, command } };
        proof {
            entry_keys(self.key_tables@).index_of_first_ensures((table@, key@));
            assert(self.key_tables@.len() == self.key_tables.len());
            assert(entry.table@ == table@ && entry.key@ == key@);
        }
        match self.key_position(table, key) {
            Some(i) => {
                proof {
                    lemma_bindings_update(self.key_tables@, i as int, entry);
                }
                self.key_tables.set(i, entry);
            },
            None => {
                proof {
                    lemma_bindings_push(self.key_tables@, entry);
                }
                self.key_tables.push(entry);
            },
        }
    }

    /// Bind `key` in `table` to the command `words`, neither repeating nor
    /// noted.
    pub fn bind_words(&mut self, table: &str, key: &str, words: &[&str])
        ensures
            final(self).key_bindings() == old(self).key_bindings().insert((table@, key@),
                (false, None, words_view(words@))),
            old(self).same_but_keys(final(self)),
    {
        let mut command: Vec<String> = Vec::new();
        let mut i: usize = 0;
        while i < words.len()
            invariant
                i <= words@.len(),
                texts_of(command@) == words_view(words@.take(i as int)),
                command@.len() == i,
            decreases words.len() - i,
        {
            let w = owned(words[i]);
            proof {
                assert(w@ == words@[i as int]@);
            }
            let ghost prev = command@;
            command.push(w);
            proof {
                assert(command@ == prev.push(w));
                assert forall|j: int| 0 <= j < i + 1 implies #[trigger] texts_of(command@)[j] == words_view(words@.take(i + 1))[j] by {
                    assert(texts_of(command@)[j] == command@[j]@);
                    assert(words_view(words@.take(i + 1))[j] == words@.take(i + 1)[j]@);
                    if j < i {
                        assert(command@[j] == prev[j]);
                        assert(texts_of(prev)[j] == prev[j]@);
                        assert(texts_of(prev)[j] == words_view(words@.take(i as int))[j]);
                        assert(words_view(words@.take(i as int))[j] == words@.take(i as int)[j]@);
                    } else {
                        assert(command@[j] == w);
                    }
                }
                assert(words@.take(i + 1) =~= words@.take(i as int).push(words@[i as int]));
                assert(texts_of(command@) =~= words_view(words@.take(i + 1)));
            }
            i += 1;
        }
        proof {
            assert(words@.take(i as int) =~= words@);
        }
        self.bind_key(table, key, command, false, None);
    }

    /// Bind `key` in `table` to the one-word command `word`.
    fn bind_word(&mut self, table: &str, key: &str, word: &str)
        ensures
            final(self).key_bindings() == old(self).key_bindings().insert((table@, key@),
                (false, None, words_view(seq![word]))),
            old(self).same_but_keys(final(self)),
    {
        let command = vec![owned(word)];
        proof {
            assert(texts_of(command@) =~= words_view(seq![word]));
        }
        self.bind_key(table, key, command, false, None);
    }

    /// `unbind-key`: with `all`, every binding of `table` goes; otherwise
    /// that of `key`, when given.
    pub fn unbind_key(&mut self, table: &str, key: Option<&str>, all: bool)
        ensures
            final(self).key_bindings() == if all {
                old(self).key_bindings().restrict(Set::new(|k: (Seq<char>, Seq<char>)| kept_key(k, table@, None)))
            } else {
                match key {
                    Some(x) => old(self).key_bindings().remove((table@, x@)),
                    None => old(self).key_bindings(),
                }
            },
            old(self).same_but_keys(final(self)),
    {
        if !all && key.is_none() {
            return;
        }
        let only: Option<&str> = if all { None } else { key };
        let t = owned(table);
        let only_text: Option<String> = match only { Some(x) => Some(owned(x)), None => None };
        let ghost ko = match only { Some(x) => Some(x@), None => None::<Seq<char>> };
        let ghost before = self.key_tables@;
        let ghost pred = |e: KeyEntry| kept_key((e.table@, e.key@), table@, ko);
        let mut rest: Vec<KeyEntry> = Vec::new();
        std::mem::swap(&mut rest, &mut self.key_tables);
        let mut kept: Vec<KeyEntry> = Vec::new();
        let ghost mut i: int = 0;
        while rest.len() > 0
            invariant
                0 <= i <= before.len(),
                rest@ == before.skip(i),
                pred == (|e: KeyEntry| kept_key((e.table@, e.key@), table@, ko)),
                ko == match only_text { Some(x) => Some(x@), None => None::<Seq<char>> },
                t@ == table@,
                kept@ == before.take(i).filter(pred),
            decreases rest.len(),
        {
            proof {
                reveal(Seq::filter);
                assert(before.take(i + 1).drop_last() =~= before.take(i));
                assert(rest@[0] == before[i]);
            }
            let e = rest.remove(0);
            let drop = e.table == t && match &only_text {
                Some(x) => e.key == *x,
                None => true,
            };
            proof {
                assert(drop == !pred(before[i]));
                assert(before.take(i + 1) == before.take(i).push(before[i]));
            }
            if !drop {
                kept.push(e);
            }
            proof {
                assert(rest@ =~= before.skip(i + 1));
                i = i + 1;
            }
        }
        proof {
            assert(i == before.len());
            assert(before.take(i) =~= before);
            lemma_bindings_kept(before, table@, ko);
        }
        self.key_tables = kept;
        proof {
            if !all {
                let x = key->0;
                assert(old(self).key_bindings().restrict(Set::new(|k: (Seq<char>, Seq<char>)| kept_key(k, table@, ko)))
                    =~= old(self).key_bindings().remove((table@, x@)));
            }
        }
    }
    #[verifier::spinoff_prover]
    fn install_defaults_1(&mut self)
        ensures
            same_bindings(final(self).key_bindings(), default_bindings_1(old(self).key_bindings())),
            old(self).same_but_keys(final(self)),
    {
        self.bind_words("root", "MouseDown1Pane", &["select-pane", "-t", "=", ";", "send-keys", "-M"]);
        self.bind_words("root", "MouseDrag1Pane", &["copy-mode", "-M"]);
        self.bind_words("root", "WheelUpPane", &["copy-mode", "-e"]);
        let long: &[&str] = &["copy-mode", "-H", ";", "send-keys", "-X", "select-word", ";", "run-shell", "-d", "0.3", ";", "send-keys", "-X", "copy-pipe-and-cancel"];
        proof {
            assert(long@ =~= seq!["copy-mode", "-H", ";", "send-keys", "-X", "select-word", ";", "run-shell", "-d", "0.3", ";", "send-keys", "-X", "copy-pipe-and-cancel"]);
        }
        self.bind_words("root", "DoubleClick1Pane", long);
        let long: &[&str] = &["copy-mode", "-H", ";", "send-keys", "-X", "select-line", ";", "run-shell", "-d", "0.3", ";", "send-keys", "-X", "copy-pipe-and-cancel"];
        proof {
            assert(long@ =~= seq!["copy-mode", "-H", ";", "send-keys", "-X", "select-line", ";", "run-shell", "-d", "0.3", ";", "send-keys", "-X", "copy-pipe-and-cancel"]);
        }
        self.bind_words("root", "TripleClick1Pane", long);
    }

    #[verifier::spinoff_prover]
    fn install_defaults_2(&mut self)
        ensures
            same_bindings(final(self).key_bindings(), default_bindings_2(old(self).key_bindings())),
            old(self).same_but_keys(final(self)),
    {
        self.bind_words("root", "MouseDown1ScrollbarUp", &["copy-mode", "-u"]);
        self.bind_words("root", "MouseDown1ScrollbarDown", &["copy-mode", "-d"]);
        self.bind_words("root", "MouseDrag1ScrollbarSlider", &["copy-mode", "-S"]);
        self.bind_word("prefix", "C-b", "send-prefix");
        self.bind_word("prefix", "C-z", "suspend-client");
    }

    #[verifier::spinoff_prover]
    fn install_defaults_3(&mut self)
        ensures
            same_bindings(final(self).key_bindings(), default_bindings_3(old(self).key_bindings())),
            old(self).same_but_keys(final(self)),
    {
        self.bind_word("prefix", "d", "detach-client");
        self.bind_word("prefix", "c", "new-window");
        self.bind_word("prefix", "\"", "split-window");
        self.bind_words("prefix", "%", &["split-window", "-h"]);
        self.bind_word("prefix", "n", "next-window");
    }

    #[verifier::spinoff_prover]
    fn install_defaults_4(&mut self)
        ensures
            same_bindings(final(self).key_bindings(), default_bindings_4(old(self).key_bindings())),
            old(self).same_but_keys(final(self)),
    {
        self.bind_word("prefix", "p", "previous-window");
        self.bind_word("prefix", "l", "last-window");
        self.bind_word("prefix", ":", "command-prompt");
        self.bind_words("prefix", "o", &["select-pane", "-t", ":.+"]);
        self.bind_word("prefix", "[", "copy-mode");
    }

    #[verifier::spinoff_prover]
    fn install_defaults_5(&mut self)
        ensures
            same_bindings(final(self).key_bindings(), default_bindings_5(old(self).key_bindings())),
            old(self).same_but_keys(final(self)),
    {
        self.bind_words("prefix", "PPage", &["copy-mode", "-u"]);
        self.bind_words("prefix", "Up", &["select-pane", "-U"]);
        self.bind_words("prefix", "Down", &["select-pane", "-D"]);
        self.bind_words("prefix", "Left", &["select-pane", "-L"]);
        self.bind_words("prefix", "Right", &["select-pane", "-R"]);
    }

    #[verifier::spinoff_prover]
    fn install_defaults_6(&mut self)
        ensures
            same_bindings(final(self).key_bindings(), default_bindings_6(old(self).key_bindings())),
            old(self).same_but_keys(final(self)),
    {
        self.bind_words("prefix", "&", &["confirm-before", "-p", "kill-window #W? (y/n)", "kill-window"]);
        self.bind_words("prefix", "x", &["confirm-before", "-p", "kill-pane #P? (y/n)", "kill-pane"]);
        self.bind_words("copy-mode", "PPage", &["send-keys", "-X", "page-up"]);
        self.bind_words("copy-mode", "NPage", &["send-keys", "-X", "page-down"]);
        self.bind_words("copy-mode", "Up", &["send-keys", "-X", "cursor-up"]);
    }

    #[verifier::spinoff_prover]
    fn install_defaults_7(&mut self)
        ensures
            same_bindings(final(self).key_bindings(), default_bindings_7(old(self).key_bindings())),
            old(self).same_but_keys(final(self)),
    {
        self.bind_words("copy-mode", "Down", &["send-keys", "-X", "cursor-down"]);
        self.bind_words("copy-mode", "q", &["send-keys", "-X", "cancel"]);
        self.bind_words("copy-mode", "Escape", &["send-keys", "-X", "cancel"]);
        self.bind_words("copy-mode", "C-c", &["send-keys", "-X", "cancel"]);
        self.bind_words("copy-mode-vi", "PPage", &["send-keys", "-X", "page-up"]);
    }

    #[verifier::spinoff_prover]
    fn install_defaults_8(&mut self)
        ensures
            same_bindings(final(self).key_bindings(), default_bindings_8(old(self).key_bindings())),
            old(self).same_but_keys(final(self)),
    {
        self.bind_words("copy-mode-vi", "NPage", &["send-keys", "-X", "page-down"]);
        self.bind_words("copy-mode-vi", "Up", &["send-keys", "-X", "cursor-up"]);
        self.bind_words("copy-mode-vi", "Down", &["send-keys", "-X", "cursor-down"]);
        self.bind_words("copy-mode-vi", "k", &["send-keys", "-X", "cursor-up"]);
        self.bind_words("copy-mode-vi", "j", &["send-keys", "-X", "cursor-down"]);
    }

    #[verifier::spinoff_prover]
    fn install_defaults_9(&mut self)
        ensures
            same_bindings(final(self).key_bindings(), default_bindings_9(old(self).key_bindings())),
            old(self).same_but_keys(final(self)),
    {
        self.bind_words("copy-mode-vi", "g", &["send-keys", "-X", "history-top"]);
        self.bind_words("copy-mode-vi", "G", &["send-keys", "-X", "history-bottom"]);
        self.bind_words("copy-mode-vi", "q", &["send-keys", "-X", "cancel"]);
        self.bind_words("copy-mode-vi", "Escape", &["send-keys", "-X", "clear-selection"]);
        self.bind_words("copy-mode-vi", "Enter", &["send-keys", "-X", "copy-pipe-and-cancel"]);
    }

    #[verifier::spinoff_prover]
    fn install_defaults_10(&mut self)
        ensures
            same_bindings(final(self).key_bindings(), default_bindings_10(old(self).key_bindings())),
            old(self).same_but_keys(final(self)),
    {
        self.bind_words("copy-mode-vi", "C-c", &["send-keys", "-X", "cancel"]);
        self.bind_words("copy-mode-vi", "Space", &["send-keys", "-X", "begin-selection"]);
        self.bind_words("copy-mode-vi", "$", &["send-keys", "-X", "end-of-line"]);
        self.bind_words("copy-mode-vi", "0", &["send-keys", "-X", "start-of-line"]);
        self.bind_words("copy-mode-vi", "h", &["send-keys", "-X", "cursor-left"]);
    }

    #[verifier::spinoff_prover]
    fn install_defaults_11(&mut self)
        ensures
            same_bindings(final(self).key_bindings(), default_bindings_11(old(self).key_bindings())),
            old(self).same_but_keys(final(self)),
    {
        self.bind_words("copy-mode-vi", "l", &["send-keys", "-X", "cursor-right"]);
        self.bind_words("copy-mode-vi", "w", &["send-keys", "-X", "next-word"]);
        self.bind_words("copy-mode-vi", "b", &["send-keys", "-X", "previous-word"]);
        self.bind_words("copy-mode-vi", "e", &["send-keys", "-X", "next-word-end"]);
        self.bind_words("copy-mode-vi", "n", &["send-keys", "-X", "search-again"]);
    }

    #[verifier::spinoff_prover]
    fn install_defaults_12(&mut self)
        ensures
            same_bindings(final(self).key_bindings(), default_bindings_12(old(self).key_bindings())),
            old(self).same_but_keys(final(self)),
    {
        self.bind_words("copy-mode-vi", "N", &["send-keys", "-X", "search-reverse"]);
        self.bind_words("copy-mode-vi", "o", &["send-keys", "-X", "other-end"]);
        self.bind_words("copy-mode-vi", "v", &["send-keys", "-X", "rectangle-toggle"]);
        self.bind_words("copy-mode-vi", "V", &["send-keys", "-X", "select-line"]);
        self.bind_words("copy-mode-vi", "0x5e", &["send-keys", "-X", "back-to-indentation"]);
    }

    #[verifier::spinoff_prover]
    fn install_defaults_13(&mut self)
        ensures
            same_bindings(final(self).key_bindings(), default_bindings_13(old(self).key_bindings())),
            old(self).same_but_keys(final(self)),
    {
        self.bind_words("copy-mode-vi", "%", &["send-keys", "-X", "next-matching-bracket"]);
        self.bind_words("copy-mode-vi", "H", &["send-keys", "-X", "top-line"]);
        self.bind_words("copy-mode-vi", "M", &["send-keys", "-X", "middle-line"]);
        self.bind_words("copy-mode-vi", "L", &["send-keys", "-X", "bottom-line"]);
        self.bind_words("copy-mode-vi", "r", &["send-keys", "-X", "refresh-from-pane"]);
    }

    #[verifier::spinoff_prover]
    fn install_defaults_14(&mut self)
        ensures
            same_bindings(final(self).key_bindings(), default_bindings_14(old(self).key_bindings())),
            old(self).same_but_keys(final(self)),
    {
        self.bind_words("copy-mode-vi", "C-d", &["send-keys", "-X", "halfpage-down"]);
        self.bind_words("copy-mode-vi", "C-u", &["send-keys", "-X", "halfpage-up"]);
        self.bind_words("copy-mode-vi", "C-f", &["send-keys", "-X", "page-down"]);
        self.bind_words("copy-mode-vi", "C-b", &["send-keys", "-X", "page-up"]);
        self.bind_words("copy-mode-vi", "C-e", &["send-keys", "-X", "scroll-down"]);
    }

    #[verifier::spinoff_prover]
    fn install_defaults_15(&mut self)
        ensures
            same_bindings(final(self).key_bindings(), default_bindings_15(old(self).key_bindings())),
            old(self).same_but_keys(final(self)),
    {
        self.bind_words("copy-mode-vi", "C-y", &["send-keys", "-X", "scroll-up"]);
        self.bind_words("copy-mode", "C-Space", &["send-keys", "-X", "begin-selection"]);
        self.bind_words("copy-mode", "C-a", &["send-keys", "-X", "start-of-line"]);
        self.bind_words("copy-mode", "C-[", &["send-keys", "-X", "cancel"]);
        self.bind_words("copy-mode", "C-e", &["send-keys", "-X", "end-of-line"]);
    }

    #[verifier::spinoff_prover]
    fn install_defaults_16(&mut self)
        ensures
            same_bindings(final(self).key_bindings(), default_bindings_16(old(self).key_bindings())),
            old(self).same_but_keys(final(self)),
    {
        self.bind_words("copy-mode", "C-f", &["send-keys", "-X", "cursor-right"]);
        self.bind_words("copy-mode", "C-b", &["send-keys", "-X", "cursor-left"]);
        self.bind_words("copy-mode", "C-g", &["send-keys", "-X", "clear-selection"]);
        self.bind_words("copy-mode", "C-l", &["send-keys", "-X", "recentre-top-bottom"]);
        self.bind_words("copy-mode", "C-n", &["send-keys", "-X", "cursor-down"]);
    }

    #[verifier::spinoff_prover]
    fn install_defaults_17(&mut self)
        ensures
            same_bindings(final(self).key_bindings(), default_bindings_17(old(self).key_bindings())),
            old(self).same_but_keys(final(self)),
    {
        self.bind_words("copy-mode", "C-p", &["send-keys", "-X", "cursor-up"]);
        self.bind_words("copy-mode", "C-v", &["send-keys", "-X", "page-down"]);
        self.bind_words("copy-mode", "Space", &["send-keys", "-X", "page-down"]);
        self.bind_words("copy-mode", "n", &["send-keys", "-X", "search-again"]);
        self.bind_words("copy-mode", "N", &["send-keys", "-X", "search-reverse"]);
    }

    #[verifier::spinoff_prover]
    fn install_defaults_18(&mut self)
        ensures
            same_bindings(final(self).key_bindings(), default_bindings_18(old(self).key_bindings())),
            old(self).same_but_keys(final(self)),
    {
        self.bind_words("copy-mode", "R", &["send-keys", "-X", "rectangle-toggle"]);
        self.bind_words("copy-mode", "r", &["send-keys", "-X", "refresh-from-pane"]);
        self.bind_words("copy-mode", "Home", &["send-keys", "-X", "start-of-line"]);
        self.bind_words("copy-mode", "End", &["send-keys", "-X", "end-of-line"]);
        self.bind_words("copy-mode", "MouseDrag1Pane", &["select-pane", ";", "send-keys", "-X", "begin-selection"]);
    }

    #[verifier::spinoff_prover]
    fn install_defaults_19(&mut self)
        ensures
            same_bindings(final(self).key_bindings(), default_bindings_19(old(self).key_bindings())),
            old(self).same_but_keys(final(self)),
    {
        self.bind_words("copy-mode", "MouseDragEnd1Pane", &["send-keys", "-X", "copy-pipe-and-cancel"]);
        self.bind_words("copy-mode", "WheelUpPane", &["select-pane", ";", "send-keys", "-N5", "-X", "scroll-up"]);
        self.bind_words("copy-mode", "WheelDownPane", &["select-pane", ";", "send-keys", "-N5", "-X", "scroll-down"]);
        let long: &[&str] = &["command-prompt", "-T", "search", "-i", "-p", "(search up)", "-I", "#{pane_search_string}", "send-keys -X search-backward-incremental -- '%%'"];
        proof {
            assert(long@ =~= seq!["command-prompt", "-T", "search", "-i", "-p", "(search up)", "-I", "#{pane_search_string}", "send-keys -X search-backward-incremental -- '%%'"]);
        }
        self.bind_words("copy-mode", "C-r", long);
        let long: &[&str] = &["command-prompt", "-T", "search", "-i", "-p", "(search down)", "-I", "#{pane_search_string}", "send-keys -X search-forward-incremental -- '%%'"];
        proof {
            assert(long@ =~= seq!["command-prompt", "-T", "search", "-i", "-p", "(search down)", "-I", "#{pane_search_string}", "send-keys -X search-forward-incremental -- '%%'"]);
        }
        self.bind_words("copy-mode", "C-s", long);
    }

    #[verifier::spinoff_prover]
    fn install_defaults_20(&mut self)
        ensures
            same_bindings(final(self).key_bindings(), default_bindings_20(old(self).key_bindings())),
            old(self).same_but_keys(final(self)),
    {
        self.bind_words("copy-mode", "f", &["command-prompt", "-1", "-p", "(jump forward)", "send-keys -X jump-forward -- '%%'"]);
        self.bind_words("copy-mode", "F", &["command-prompt", "-1", "-p", "(jump backward)", "send-keys -X jump-backward -- '%%'"]);
        self.bind_words("copy-mode", "t", &["command-prompt", "-1", "-p", "(jump to forward)", "send-keys -X jump-to-forward -- '%%'"]);
        self.bind_words("copy-mode", "T", &["command-prompt", "-1", "-p", "(jump to backward)", "send-keys -X jump-to-backward -- '%%'"]);
        self.bind_words("copy-mode", ",", &["send-keys", "-X", "jump-reverse"]);
    }

    #[verifier::spinoff_prover]
    fn install_defaults_21(&mut self)
        ensures
            same_bindings(final(self).key_bindings(), default_bindings_21(old(self).key_bindings())),
            old(self).same_but_keys(final(self)),
    {
        self.bind_words("copy-mode", ";", &["send-keys", "-X", "jump-again"]);
        self.bind_words("copy-mode", "X", &["send-keys", "-X", "set-mark"]);
        self.bind_words("copy-mode", "M-x", &["send-keys", "-X", "jump-to-mark"]);
        self.bind_words("copy-mode", "M-b", &["send-keys", "-X", "previous-word"]);
        self.bind_words("copy-mode", "M-f", &["send-keys", "-X", "next-word-end"]);
    }

    #[verifier::spinoff_prover]
    fn install_defaults_22(&mut self)
        ensures
            same_bindings(final(self).key_bindings(), default_bindings_22(old(self).key_bindings())),
            old(self).same_but_keys(final(self)),
    {
        self.bind_words("copy-mode", "M-l", &["send-keys", "-X", "cursor-centre-horizontal"]);
        self.bind_words("copy-mode", "M-m", &["send-keys", "-X", "back-to-indentation"]);
        self.bind_words("copy-mode", "M-v", &["send-keys", "-X", "page-up"]);
        self.bind_words("copy-mode", "M-Up", &["send-keys", "-X", "halfpage-up"]);
        self.bind_words("copy-mode", "M-Down", &["send-keys", "-X", "halfpage-down"]);
    }

    #[verifier::spinoff_prover]
    fn install_defaults_23(&mut self)
        ensures
            same_bindings(final(self).key_bindings(), default_bindings_23(old(self).key_bindings())),
            old(self).same_but_keys(final(self)),
    {
        self.bind_words("copy-mode", "C-Up", &["send-keys", "-X", "scroll-up"]);
        self.bind_words("copy-mode", "C-Down", &["send-keys", "-X", "scroll-down"]);
        self.bind_words("copy-mode", "M-<", &["send-keys", "-X", "history-top"]);
        self.bind_words("copy-mode", "M->", &["send-keys", "-X", "history-bottom"]);
        self.bind_words("copy-mode", "P", &["send-keys", "-X", "toggle-position"]);
    }

    #[verifier::spinoff_prover]
    fn install_defaults_24(&mut self)
        ensures
            same_bindings(final(self).key_bindings(), default_bindings_24(old(self).key_bindings())),
            old(self).same_but_keys(final(self)),
    {
        self.bind_words("copy-mode", "g", &["command-prompt", "-p", "(goto line)", "send-keys -X goto-line -- '%%'"]);
        self.bind_word("copy-mode", "MouseDown1Pane", "select-pane");
        let long: &[&str] = &["select-pane", ";", "send-keys", "-X", "select-word", ";", "run-shell", "-d", "0.3", ";", "send-keys", "-X", "copy-pipe-and-cancel"];
        proof {
            assert(long@ =~= seq!["select-pane", ";", "send-keys", "-X", "select-word", ";", "run-shell", "-d", "0.3", ";", "send-keys", "-X", "copy-pipe-and-cancel"]);
        }
        self.bind_words("copy-mode", "DoubleClick1Pane", long);
        let long: &[&str] = &["select-pane", ";", "send-keys", "-X", "select-line", ";", "run-shell", "-d", "0.3", ";", "send-keys", "-X", "copy-pipe-and-cancel"];
        proof {
            assert(long@ =~= seq!["select-pane", ";", "send-keys", "-X", "select-line", ";", "run-shell", "-d", "0.3", ";", "send-keys", "-X", "copy-pipe-and-cancel"]);
        }
        self.bind_words("copy-mode", "TripleClick1Pane", long);
        self.bind_words("copy-mode-vi", "/", &["command-prompt", "-p", "(search down)", "send-keys -X search-forward -- '%%'"]);
    }

    #[verifier::spinoff_prover]
    fn install_defaults_25(&mut self)
        ensures
            same_bindings(final(self).key_bindings(), default_bindings_25(old(self).key_bindings())),
            old(self).same_but_keys(final(self)),
    {
        self.bind_words("copy-mode-vi", "?", &["command-prompt", "-p", "(search up)", "send-keys -X search-backward -- '%%'"]);
        self.bind_words("copy-mode-vi", "*", &["send-keys", "-F", "-X", "search-forward", "--", "#{copy_cursor_word}"]);
        self.bind_words("copy-mode-vi", "#", &["send-keys", "-F", "-X", "search-backward", "--", "#{copy_cursor_word}"]);
        self.bind_words("copy-mode-vi", "C-[", &["send-keys", "-X", "clear-selection"]);
        self.bind_words("copy-mode-vi", "C-h", &["send-keys", "-X", "cursor-left"]);
    }

    #[verifier::spinoff_prover]
    fn install_defaults_26(&mut self)
        ensures
            same_bindings(final(self).key_bindings(), default_bindings_26(old(self).key_bindings())),
            old(self).same_but_keys(final(self)),
    {
        self.bind_words("copy-mode-vi", ":", &["command-prompt", "-p", "(goto line)", "send-keys -X goto-line -- '%%'"]);
        self.bind_words("copy-mode-vi", "f", &["command-prompt", "-1", "-p", "(jump forward)", "send-keys -X jump-forward -- '%%'"]);
        self.bind_words("copy-mode-vi", "F", &["command-prompt", "-1", "-p", "(jump backward)", "send-keys -X jump-backward -- '%%'"]);
        self.bind_words("copy-mode-vi", "t", &["command-prompt", "-1", "-p", "(jump to forward)", "send-keys -X jump-to-forward -- '%%'"]);
        self.bind_words("copy-mode-vi", "T", &["command-prompt", "-1", "-p", "(jump to backward)", "send-keys -X jump-to-backward -- '%%'"]);
    }

    #[verifier::spinoff_prover]
    fn install_defaults_27(&mut self)
        ensures
            same_bindings(final(self).key_bindings(), default_bindings_27(old(self).key_bindings())),
            old(self).same_but_keys(final(self)),
    {
        self.bind_words("copy-mode-vi", ",", &["send-keys", "-X", "jump-reverse"]);
        self.bind_words("copy-mode-vi", ";", &["send-keys", "-X", "jump-again"]);
        self.bind_words("copy-mode-vi", "X", &["send-keys", "-X", "set-mark"]);
        self.bind_words("copy-mode-vi", "M-x", &["send-keys", "-X", "jump-to-mark"]);
        self.bind_words("copy-mode-vi", "P", &["send-keys", "-X", "toggle-position"]);
    }

    #[verifier::spinoff_prover]
    fn install_defaults_28(&mut self)
        ensures
            same_bindings(final(self).key_bindings(), default_bindings_28(old(self).key_bindings())),
            old(self).same_but_keys(final(self)),
    {
        self.bind_words("copy-mode-vi", "z", &["send-keys", "-X", "scroll-middle"]);
        self.bind_words("copy-mode-vi", "B", &["send-keys", "-X", "previous-space"]);
        self.bind_words("copy-mode-vi", "W", &["send-keys", "-X", "next-space"]);
        self.bind_words("copy-mode-vi", "E", &["send-keys", "-X", "next-space-end"]);
        self.bind_words("copy-mode-vi", "J", &["send-keys", "-X", "scroll-down"]);
    }

    #[verifier::spinoff_prover]
    fn install_defaults_29(&mut self)
        ensures
            same_bindings(final(self).key_bindings(), default_bindings_29(old(self).key_bindings())),
            old(self).same_but_keys(final(self)),
    {
        self.bind_words("copy-mode-vi", "K", &["send-keys", "-X", "scroll-up"]);
        self.bind_words("copy-mode-vi", "C-v", &["send-keys", "-X", "rectangle-toggle"]);
        self.bind_words("copy-mode-vi", "Left", &["send-keys", "-X", "cursor-left"]);
        self.bind_words("copy-mode-vi", "Right", &["send-keys", "-X", "cursor-right"]);
        self.bind_words("copy-mode-vi", "C-Up", &["send-keys", "-X", "scroll-up"]);
    }

    #[verifier::spinoff_prover]
    fn install_defaults_30(&mut self)
        ensures
            same_bindings(final(self).key_bindings(), default_bindings_30(old(self).key_bindings())),
            old(self).same_but_keys(final(self)),
    {
        self.bind_words("copy-mode-vi", "C-Down", &["send-keys", "-X", "scroll-down"]);
        self.bind_words("copy-mode-vi", "Home", &["send-keys", "-X", "start-of-line"]);
        self.bind_words("copy-mode-vi", "End", &["send-keys", "-X", "end-of-line"]);
        self.bind_words("copy-mode-vi", "BSpace", &["send-keys", "-X", "cursor-left"]);
        self.bind_words("copy-mode-vi", "{", &["send-keys", "-X", "previous-paragraph"]);
    }

    #[verifier::spinoff_prover]
    fn install_defaults_31(&mut self)
        ensures
            same_bindings(final(self).key_bindings(), default_bindings_31(old(self).key_bindings())),
            old(self).same_but_keys(final(self)),
    {
        self.bind_words("copy-mode-vi", "}", &["send-keys", "-X", "next-paragraph"]);
        self.bind_words("copy-mode-vi", "C-j", &["send-keys", "-X", "copy-pipe-and-cancel"]);
        self.bind_words("copy-mode-vi", "D", &["send-keys", "-X", "copy-pipe-end-of-line-and-cancel"]);
        self.bind_words("copy-mode-vi", "A", &["send-keys", "-X", "append-selection-and-cancel"]);
        self.bind_words("copy-mode", "Left", &["send-keys", "-X", "cursor-left"]);
    }

    #[verifier::spinoff_prover]
    fn install_defaults_32(&mut self)
        ensures
            same_bindings(final(self).key_bindings(), default_bindings_32(old(self).key_bindings())),
            old(self).same_but_keys(final(self)),
    {
        self.bind_words("copy-mode", "Right", &["send-keys", "-X", "cursor-right"]);
        self.bind_words("copy-mode", "M-R", &["send-keys", "-X", "top-line"]);
        self.bind_words("copy-mode", "M-r", &["send-keys", "-X", "middle-line"]);
        self.bind_words("copy-mode", "C-M-b", &["send-keys", "-X", "previous-matching-bracket"]);
        self.bind_words("copy-mode", "C-M-f", &["send-keys", "-X", "next-matching-bracket"]);
    }

    #[verifier::spinoff_prover]
    fn install_defaults_33(&mut self)
        ensures
            same_bindings(final(self).key_bindings(), default_bindings_33(old(self).key_bindings())),
            old(self).same_but_keys(final(self)),
    {
        self.bind_words("copy-mode", "M-{", &["send-keys", "-X", "previous-paragraph"]);
        self.bind_words("copy-mode", "M-}", &["send-keys", "-X", "next-paragraph"]);
        self.bind_words("copy-mode", "C-k", &["send-keys", "-X", "copy-pipe-end-of-line-and-cancel"]);
        self.bind_words("copy-mode", "C-w", &["send-keys", "-X", "copy-pipe-and-cancel"]);
        self.bind_words("copy-mode", "M-w", &["send-keys", "-X", "copy-pipe-and-cancel"]);
    }

    #[verifier::spinoff_prover]
    fn install_defaults_34(&mut self)
        ensures
            same_bindings(final(self).key_bindings(), default_bindings_34(old(self).key_bindings())),
            old(self).same_but_keys(final(self)),
    {
        self.bind_words("copy-mode-vi", "MouseDrag1Pane", &["select-pane", ";", "send-keys", "-X", "begin-selection"]);
        self.bind_word("copy-mode-vi", "MouseDown1Pane", "select-pane");
        let long: &[&str] = &["select-pane", ";", "send-keys", "-X", "select-word", ";", "run-shell", "-d", "0.3", ";", "send-keys", "-X", "copy-pipe-and-cancel"];
        proof {
            assert(long@ =~= seq!["select-pane", ";", "send-keys", "-X", "select-word", ";", "run-shell", "-d", "0.3", ";", "send-keys", "-X", "copy-pipe-and-cancel"]);
        }
        self.bind_words("copy-mode-vi", "DoubleClick1Pane", long);
        let long: &[&str] = &["select-pane", ";", "send-keys", "-X", "select-line", ";", "run-shell", "-d", "0.3", ";", "send-keys", "-X", "copy-pipe-and-cancel"];
        proof {
            assert(long@ =~= seq!["select-pane", ";", "send-keys", "-X", "select-line", ";", "run-shell", "-d", "0.3", ";", "send-keys", "-X", "copy-pipe-and-cancel"]);
        }
        self.bind_words("copy-mode-vi", "TripleClick1Pane", long);
        self.bind_words("copy-mode-vi", "MouseDragEnd1Pane", &["send-keys", "-X", "copy-pipe-and-cancel"]);
    }

    #[verifier::spinoff_prover]
    fn install_defaults_35(&mut self)
        ensures
            same_bindings(final(self).key_bindings(), default_bindings_35(old(self).key_bindings())),
            old(self).same_but_keys(final(self)),
    {
        self.bind_words("copy-mode-vi", "WheelUpPane", &["select-pane", ";", "send-keys", "-N5", "-X", "scroll-up"]);
        self.bind_words("copy-mode-vi", "WheelDownPane", &["select-pane", ";", "send-keys", "-N5", "-X", "scroll-down"]);
    }

    /// Bind the digit `i`: in the prefix table to select window `:i`, and
    /// from 1 on to start a repeat count in both copy modes.
    fn install_digit(&mut self, i: u32)
        requires
            i < 10,
        ensures
            ({
                let b = old(self).key_bindings();
                let selected = b.insert(("prefix"@, decimal(i as nat)),
                    (false, None, seq!["select-window"@, "-t"@, ":"@ + decimal(i as nat)]));
                final(self).key_bindings() == if i != 0 {
                    selected.insert(("copy-mode-vi"@, decimal(i as nat)), repeat_prompt(i as nat))
                        .insert(("copy-mode"@, "M-"@ + decimal(i as nat)), repeat_prompt(i as nat))
                } else {
                    selected
                }
            }),
            old(self).same_but_keys(final(self)),
    {
        let mut name = String::new();
        push_decimal(&mut name, i as u64);
        let mut target = String::new();
        push_text(&mut target, ":");
        push_decimal(&mut target, i as u64);
        let command = vec![owned("select-window"), owned("-t"), target];
        proof {
            assert(texts_of(command@) =~= seq!["select-window"@, "-t"@, ":"@ + decimal(i as nat)]);
        }
        self.bind_key("prefix", name.as_str(), command, false, None);
        if i != 0 {
            let mut count = String::new();
            push_decimal(&mut count, i as u64);
            let vi = vec![owned("command-prompt"), owned("-N"), owned("-p"), owned("(repeat)"), owned("-I"), count,
                owned("send-keys -N '%%'")];
            proof {
                assert(texts_of(vi@) =~= repeat_prompt(i as nat).2);
            }
            self.bind_key("copy-mode-vi", name.as_str(), vi, false, None);
            let mut meta = String::new();
            push_text(&mut meta, "M-");
            push_decimal(&mut meta, i as u64);
            let mut count2 = String::new();
            push_decimal(&mut count2, i as u64);
            let emacs = vec![owned("command-prompt"), owned("-N"), owned("-p"), owned("(repeat)"), owned("-I"), count2,
                owned("send-keys -N '%%'")];
            proof {
                assert(texts_of(emacs@) =~= repeat_prompt(i as nat).2);
            }
            self.bind_key("copy-mode", meta.as_str(), emacs, false, None);
        }
    }

    /// Install tmux's default key tables over the current ones (see
    /// [`default_key_tables`]).
    pub fn install_default_key_bindings(&mut self)
        ensures
            final(self).key_bindings() == default_key_tables(old(self).key_bindings()),
            old(self).same_but_keys(final(self)),
    {
        self.install_defaults_1();
        self.install_defaults_2();
        self.install_defaults_3();
        self.install_defaults_4();
        self.install_defaults_5();
        self.install_defaults_6();
        self.install_defaults_7();
        self.install_defaults_8();
        self.install_defaults_9();
        self.install_defaults_10();
        self.install_defaults_11();
        self.install_defaults_12();
        self.install_defaults_13();
        self.install_defaults_14();
        self.install_defaults_15();
        self.install_defaults_16();
        self.install_defaults_17();
        self.install_defaults_18();
        self.install_defaults_19();
        self.install_defaults_20();
        self.install_defaults_21();
        self.install_defaults_22();
        self.install_defaults_23();
        self.install_defaults_24();
        self.install_defaults_25();
        self.install_defaults_26();
        self.install_defaults_27();
        self.install_defaults_28();
        self.install_defaults_29();
        self.install_defaults_30();
        self.install_defaults_31();
        self.install_defaults_32();
        self.install_defaults_33();
        self.install_defaults_34();
        self.install_defaults_35();
        let mut i: u32 = 0;
        while i < 10
            invariant
                i <= 10,
                self.key_bindings() == digit_bindings(table_defaults(old(self).key_bindings()), i as nat),
                old(self).same_but_keys(self),
            decreases 10 - i,
        {
            self.install_digit(i);
            i += 1;
        }
    }

    /// A state without key entries has no bindings.
    pub(crate) proof fn lemma_no_keys(&self)
        requires
            self.key_tables@.len() == 0,
        ensures
            self.key_bindings() == Map::<(Seq<char>, Seq<char>), BindingView>::empty(),
    {
        assert(self.key_bindings() =~= Map::<(Seq<char>, Seq<char>), BindingView>::empty());
    }

}

} // verus!
