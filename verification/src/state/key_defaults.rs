use vstd::prelude::*;
use crate::state::keys::{BindingView, default_bindings_1, default_bindings_2, default_bindings_3, default_bindings_4, default_bindings_5, default_bindings_6, default_bindings_7, default_bindings_8, default_bindings_9, default_bindings_10, default_bindings_11, default_bindings_12, default_bindings_13, default_bindings_14, default_bindings_15, default_bindings_16, default_bindings_17, default_bindings_18, default_bindings_19, default_bindings_20, default_bindings_21, default_bindings_22, default_bindings_23, default_bindings_24, default_bindings_25, default_bindings_26, default_bindings_27, default_bindings_28, default_bindings_29, default_bindings_30, default_bindings_31, default_bindings_32, default_bindings_33, default_bindings_34, default_bindings_35, default_key_tables, lemma_digit_bindings, lemma_not_digit_key, table_defaults, words_view};

verus! {

/// The bindings part 1 makes, each stated.
proof fn lemma_part_1(m: Map<(Seq<char>, Seq<char>), BindingView>)
    ensures
        ({
        let m2 = default_bindings_1(m);
        &&& m2.contains_key(("root"@, "MouseDown1Pane"@))
        &&& m2[("root"@, "MouseDown1Pane"@)] == (false, None::<Seq<char>>, seq!["select-pane"@, "-t"@, "="@, ";"@, "send-keys"@, "-M"@])
        &&& m2.contains_key(("root"@, "MouseDrag1Pane"@))
        &&& m2[("root"@, "MouseDrag1Pane"@)] == (false, None::<Seq<char>>, seq!["copy-mode"@, "-M"@])
        &&& m2.contains_key(("root"@, "WheelUpPane"@))
        &&& m2[("root"@, "WheelUpPane"@)] == (false, None::<Seq<char>>, seq!["copy-mode"@, "-e"@])
        &&& m2.contains_key(("root"@, "DoubleClick1Pane"@))
        &&& m2[("root"@, "DoubleClick1Pane"@)] == (false, None::<Seq<char>>, seq!["copy-mode"@, "-H"@, ";"@, "send-keys"@, "-X"@, "select-word"@, ";"@, "run-shell"@, "-d"@, "0.3"@, ";"@, "send-keys"@, "-X"@, "copy-pipe-and-cancel"@])
        &&& m2.contains_key(("root"@, "TripleClick1Pane"@))
        &&& m2[("root"@, "TripleClick1Pane"@)] == (false, None::<Seq<char>>, seq!["copy-mode"@, "-H"@, ";"@, "send-keys"@, "-X"@, "select-line"@, ";"@, "run-shell"@, "-d"@, "0.3"@, ";"@, "send-keys"@, "-X"@, "copy-pipe-and-cancel"@])
        }),
{
    let m2 = default_bindings_1(m);
    reveal_strlit("DoubleClick1Pane");
    reveal_strlit("MouseDown1Pane");
    reveal_strlit("MouseDrag1Pane");
    reveal_strlit("TripleClick1Pane");
    reveal_strlit("WheelUpPane");
    reveal_strlit("root");
    assert("DoubleClick1Pane"@.len() == 16);
    assert("DoubleClick1Pane"@[0] == 'D');
    assert("MouseDown1Pane"@.len() == 14);
    assert("MouseDown1Pane"@[6] == 'o');
    assert("MouseDrag1Pane"@.len() == 14);
    assert("MouseDrag1Pane"@[6] == 'r');
    assert("TripleClick1Pane"@.len() == 16);
    assert("TripleClick1Pane"@[0] == 'T');
    assert("WheelUpPane"@.len() == 11);
    assert(words_view(seq!["select-pane", "-t", "=", ";", "send-keys", "-M"]) =~= seq!["select-pane"@, "-t"@, "="@, ";"@, "send-keys"@, "-M"@]);
    assert(words_view(seq!["copy-mode", "-M"]) =~= seq!["copy-mode"@, "-M"@]);
    assert(words_view(seq!["copy-mode", "-e"]) =~= seq!["copy-mode"@, "-e"@]);
    assert(words_view(seq!["copy-mode", "-H", ";", "send-keys", "-X", "select-word", ";", "run-shell", "-d", "0.3", ";", "send-keys", "-X", "copy-pipe-and-cancel"]) =~= seq!["copy-mode"@, "-H"@, ";"@, "send-keys"@, "-X"@, "select-word"@, ";"@, "run-shell"@, "-d"@, "0.3"@, ";"@, "send-keys"@, "-X"@, "copy-pipe-and-cancel"@]);
    assert(words_view(seq!["copy-mode", "-H", ";", "send-keys", "-X", "select-line", ";", "run-shell", "-d", "0.3", ";", "send-keys", "-X", "copy-pipe-and-cancel"]) =~= seq!["copy-mode"@, "-H"@, ";"@, "send-keys"@, "-X"@, "select-line"@, ";"@, "run-shell"@, "-d"@, "0.3"@, ";"@, "send-keys"@, "-X"@, "copy-pipe-and-cancel"@]);
}

/// Part 1 leaves every other key as it was.
proof fn lemma_pass_1(m: Map<(Seq<char>, Seq<char>), BindingView>, k: (Seq<char>, Seq<char>))
    requires
        k != ("root"@, "MouseDown1Pane"@) && k != ("root"@, "MouseDrag1Pane"@) && k != ("root"@, "WheelUpPane"@) && k != ("root"@, "DoubleClick1Pane"@) && k != ("root"@, "TripleClick1Pane"@),
    ensures
        default_bindings_1(m).contains_key(k) == m.contains_key(k),
        default_bindings_1(m)[k] == m[k],
{
}

/// The bindings part 2 makes, each stated.
proof fn lemma_part_2(m: Map<(Seq<char>, Seq<char>), BindingView>)
    ensures
        ({
        let m2 = default_bindings_2(m);
        &&& m2.contains_key(("root"@, "MouseDown1ScrollbarUp"@))
        &&& m2[("root"@, "MouseDown1ScrollbarUp"@)] == (false, None::<Seq<char>>, seq!["copy-mode"@, "-u"@])
        &&& m2.contains_key(("root"@, "MouseDown1ScrollbarDown"@))
        &&& m2[("root"@, "MouseDown1ScrollbarDown"@)] == (false, None::<Seq<char>>, seq!["copy-mode"@, "-d"@])
        &&& m2.contains_key(("root"@, "MouseDrag1ScrollbarSlider"@))
        &&& m2[("root"@, "MouseDrag1ScrollbarSlider"@)] == (false, None::<Seq<char>>, seq!["copy-mode"@, "-S"@])
        &&& m2.contains_key(("prefix"@, "C-b"@))
        &&& m2[("prefix"@, "C-b"@)] == (false, None::<Seq<char>>, seq!["send-prefix"@])
        &&& m2.contains_key(("prefix"@, "C-z"@))
        &&& m2[("prefix"@, "C-z"@)] == (false, None::<Seq<char>>, seq!["suspend-client"@])
        }),
{
    let m2 = default_bindings_2(m);
    reveal_strlit("C-b");
    reveal_strlit("C-z");
    reveal_strlit("MouseDown1ScrollbarDown");
    reveal_strlit("MouseDown1ScrollbarUp");
    reveal_strlit("MouseDrag1ScrollbarSlider");
    reveal_strlit("prefix");
    reveal_strlit("root");
    assert("C-b"@[2] == 'b');
    assert("C-z"@[2] == 'z');
    assert("MouseDown1ScrollbarDown"@.len() == 23);
    assert("MouseDown1ScrollbarUp"@.len() == 21);
    assert("MouseDrag1ScrollbarSlider"@.len() == 25);
    assert("prefix"@.len() == 6);
    assert("root"@.len() == 4);
    assert(words_view(seq!["copy-mode", "-u"]) =~= seq!["copy-mode"@, "-u"@]);
    assert(words_view(seq!["copy-mode", "-d"]) =~= seq!["copy-mode"@, "-d"@]);
    assert(words_view(seq!["copy-mode", "-S"]) =~= seq!["copy-mode"@, "-S"@]);
    assert(words_view(seq!["send-prefix"]) =~= seq!["send-prefix"@]);
    assert(words_view(seq!["suspend-client"]) =~= seq!["suspend-client"@]);
}

/// Part 2 leaves every other key as it was.
proof fn lemma_pass_2(m: Map<(Seq<char>, Seq<char>), BindingView>, k: (Seq<char>, Seq<char>))
    requires
        k != ("root"@, "MouseDown1ScrollbarUp"@) && k != ("root"@, "MouseDown1ScrollbarDown"@) && k != ("root"@, "MouseDrag1ScrollbarSlider"@) && k != ("prefix"@, "C-b"@) && k != ("prefix"@, "C-z"@),
    ensures
        default_bindings_2(m).contains_key(k) == m.contains_key(k),
        default_bindings_2(m)[k] == m[k],
{
}

/// The bindings part 3 makes, each stated.
proof fn lemma_part_3(m: Map<(Seq<char>, Seq<char>), BindingView>)
    ensures
        ({
        let m2 = default_bindings_3(m);
        &&& m2.contains_key(("prefix"@, "d"@))
        &&& m2[("prefix"@, "d"@)] == (false, None::<Seq<char>>, seq!["detach-client"@])
        &&& m2.contains_key(("prefix"@, "c"@))
        &&& m2[("prefix"@, "c"@)] == (false, None::<Seq<char>>, seq!["new-window"@])
        &&& m2.contains_key(("prefix"@, "\""@))
        &&& m2[("prefix"@, "\""@)] == (false, None::<Seq<char>>, seq!["split-window"@])
        &&& m2.contains_key(("prefix"@, "%"@))
        &&& m2[("prefix"@, "%"@)] == (false, None::<Seq<char>>, seq!["split-window"@, "-h"@])
        &&& m2.contains_key(("prefix"@, "n"@))
        &&& m2[("prefix"@, "n"@)] == (false, None::<Seq<char>>, seq!["next-window"@])
        }),
{
    let m2 = default_bindings_3(m);
    reveal_strlit("\"");
    reveal_strlit("%");
    reveal_strlit("c");
    reveal_strlit("d");
    reveal_strlit("n");
    reveal_strlit("prefix");
    assert("%"@[0] == '%');
    assert("\""@[0] == '"');
    assert("c"@[0] == 'c');
    assert("d"@[0] == 'd');
    assert("n"@[0] == 'n');
    assert(words_view(seq!["detach-client"]) =~= seq!["detach-client"@]);
    assert(words_view(seq!["new-window"]) =~= seq!["new-window"@]);
    assert(words_view(seq!["split-window"]) =~= seq!["split-window"@]);
    assert(words_view(seq!["split-window", "-h"]) =~= seq!["split-window"@, "-h"@]);
    assert(words_view(seq!["next-window"]) =~= seq!["next-window"@]);
}

/// Part 3 leaves every other key as it was.
proof fn lemma_pass_3(m: Map<(Seq<char>, Seq<char>), BindingView>, k: (Seq<char>, Seq<char>))
    requires
        k != ("prefix"@, "d"@) && k != ("prefix"@, "c"@) && k != ("prefix"@, "\""@) && k != ("prefix"@, "%"@) && k != ("prefix"@, "n"@),
    ensures
        default_bindings_3(m).contains_key(k) == m.contains_key(k),
        default_bindings_3(m)[k] == m[k],
{
}

/// The bindings part 4 makes, each stated.
proof fn lemma_part_4(m: Map<(Seq<char>, Seq<char>), BindingView>)
    ensures
        ({
        let m2 = default_bindings_4(m);
        &&& m2.contains_key(("prefix"@, "p"@))
        &&& m2[("prefix"@, "p"@)] == (false, None::<Seq<char>>, seq!["previous-window"@])
        &&& m2.contains_key(("prefix"@, "l"@))
        &&& m2[("prefix"@, "l"@)] == (false, None::<Seq<char>>, seq!["last-window"@])
        &&& m2.contains_key(("prefix"@, ":"@))
        &&& m2[("prefix"@, ":"@)] == (false, None::<Seq<char>>, seq!["command-prompt"@])
        &&& m2.contains_key(("prefix"@, "o"@))
        &&& m2[("prefix"@, "o"@)] == (false, None::<Seq<char>>, seq!["select-pane"@, "-t"@, ":.+"@])
        &&& m2.contains_key(("prefix"@, "["@))
        &&& m2[("prefix"@, "["@)] == (false, None::<Seq<char>>, seq!["copy-mode"@])
        }),
{
    let m2 = default_bindings_4(m);
    reveal_strlit(":");
    reveal_strlit("[");
    reveal_strlit("l");
    reveal_strlit("o");
    reveal_strlit("p");
    reveal_strlit("prefix");
    assert(":"@[0] == ':');
    assert("["@[0] == '[');
    assert("l"@[0] == 'l');
    assert("o"@[0] == 'o');
    assert("p"@[0] == 'p');
    assert(words_view(seq!["previous-window"]) =~= seq!["previous-window"@]);
    assert(words_view(seq!["last-window"]) =~= seq!["last-window"@]);
    assert(words_view(seq!["command-prompt"]) =~= seq!["command-prompt"@]);
    assert(words_view(seq!["select-pane", "-t", ":.+"]) =~= seq!["select-pane"@, "-t"@, ":.+"@]);
    assert(words_view(seq!["copy-mode"]) =~= seq!["copy-mode"@]);
}

/// Part 4 leaves every other key as it was.
proof fn lemma_pass_4(m: Map<(Seq<char>, Seq<char>), BindingView>, k: (Seq<char>, Seq<char>))
    requires
        k != ("prefix"@, "p"@) && k != ("prefix"@, "l"@) && k != ("prefix"@, ":"@) && k != ("prefix"@, "o"@) && k != ("prefix"@, "["@),
    ensures
        default_bindings_4(m).contains_key(k) == m.contains_key(k),
        default_bindings_4(m)[k] == m[k],
{
}

/// The bindings part 5 makes, each stated.
proof fn lemma_part_5(m: Map<(Seq<char>, Seq<char>), BindingView>)
    ensures
        ({
        let m2 = default_bindings_5(m);
        &&& m2.contains_key(("prefix"@, "PPage"@))
        &&& m2[("prefix"@, "PPage"@)] == (false, None::<Seq<char>>, seq!["copy-mode"@, "-u"@])
        &&& m2.contains_key(("prefix"@, "Up"@))
        &&& m2[("prefix"@, "Up"@)] == (false, None::<Seq<char>>, seq!["select-pane"@, "-U"@])
        &&& m2.contains_key(("prefix"@, "Down"@))
        &&& m2[("prefix"@, "Down"@)] == (false, None::<Seq<char>>, seq!["select-pane"@, "-D"@])
        &&& m2.contains_key(("prefix"@, "Left"@))
        &&& m2[("prefix"@, "Left"@)] == (false, None::<Seq<char>>, seq!["select-pane"@, "-L"@])
        &&& m2.contains_key(("prefix"@, "Right"@))
        &&& m2[("prefix"@, "Right"@)] == (false, None::<Seq<char>>, seq!["select-pane"@, "-R"@])
        }),
{
    let m2 = default_bindings_5(m);
    reveal_strlit("Down");
    reveal_strlit("Left");
    reveal_strlit("PPage");
    reveal_strlit("Right");
    reveal_strlit("Up");
    reveal_strlit("prefix");
    assert("Down"@.len() == 4);
    assert("Down"@[0] == 'D');
    assert("Left"@.len() == 4);
    assert("Left"@[0] == 'L');
    assert("PPage"@.len() == 5);
    assert("PPage"@[0] == 'P');
    assert("Right"@.len() == 5);
    assert("Right"@[0] == 'R');
    assert("Up"@.len() == 2);
    assert(words_view(seq!["copy-mode", "-u"]) =~= seq!["copy-mode"@, "-u"@]);
    assert(words_view(seq!["select-pane", "-U"]) =~= seq!["select-pane"@, "-U"@]);
    assert(words_view(seq!["select-pane", "-D"]) =~= seq!["select-pane"@, "-D"@]);
    assert(words_view(seq!["select-pane", "-L"]) =~= seq!["select-pane"@, "-L"@]);
    assert(words_view(seq!["select-pane", "-R"]) =~= seq!["select-pane"@, "-R"@]);
}

/// Part 5 leaves every other key as it was.
proof fn lemma_pass_5(m: Map<(Seq<char>, Seq<char>), BindingView>, k: (Seq<char>, Seq<char>))
    requires
        k != ("prefix"@, "PPage"@) && k != ("prefix"@, "Up"@) && k != ("prefix"@, "Down"@) && k != ("prefix"@, "Left"@) && k != ("prefix"@, "Right"@),
    ensures
        default_bindings_5(m).contains_key(k) == m.contains_key(k),
        default_bindings_5(m)[k] == m[k],
{
}

/// The bindings part 6 makes, each stated.
proof fn lemma_part_6(m: Map<(Seq<char>, Seq<char>), BindingView>)
    ensures
        ({
        let m2 = default_bindings_6(m);
        &&& m2.contains_key(("prefix"@, "&"@))
        &&& m2[("prefix"@, "&"@)] == (false, None::<Seq<char>>, seq!["confirm-before"@, "-p"@, "kill-window #W? (y/n)"@, "kill-window"@])
        &&& m2.contains_key(("prefix"@, "x"@))
        &&& m2[("prefix"@, "x"@)] == (false, None::<Seq<char>>, seq!["confirm-before"@, "-p"@, "kill-pane #P? (y/n)"@, "kill-pane"@])
        &&& m2.contains_key(("copy-mode"@, "PPage"@))
        &&& m2[("copy-mode"@, "PPage"@)] == (false, None::<Seq<char>>, seq!["send-keys"@, "-X"@, "page-up"@])
        &&& m2.contains_key(("copy-mode"@, "NPage"@))
        &&& m2[("copy-mode"@, "NPage"@)] == (false, None::<Seq<char>>, seq!["send-keys"@, "-X"@, "page-down"@])
        &&& m2.contains_key(("copy-mode"@, "Up"@))
        &&& m2[("copy-mode"@, "Up"@)] == (false, None::<Seq<char>>, seq!["send-keys"@, "-X"@, "cursor-up"@])
        }),
{
    let m2 = default_bindings_6(m);
    reveal_strlit("&");
    reveal_strlit("NPage");
    reveal_strlit("PPage");
    reveal_strlit("Up");
    reveal_strlit("copy-mode");
    reveal_strlit("prefix");
    reveal_strlit("x");
    assert("&"@[0] == '&');
    assert("NPage"@.len() == 5);
    assert("NPage"@[0] == 'N');
    assert("PPage"@.len() == 5);
    assert("PPage"@[0] == 'P');
    assert("Up"@.len() == 2);
    assert("copy-mode"@.len() == 9);
    assert("prefix"@.len() == 6);
    assert("x"@[0] == 'x');
    assert(words_view(seq!["confirm-before", "-p", "kill-window #W? (y/n)", "kill-window"]) =~= seq!["confirm-before"@, "-p"@, "kill-window #W? (y/n)"@, "kill-window"@]);
    assert(words_view(seq!["confirm-before", "-p", "kill-pane #P? (y/n)", "kill-pane"]) =~= seq!["confirm-before"@, "-p"@, "kill-pane #P? (y/n)"@, "kill-pane"@]);
    assert(words_view(seq!["send-keys", "-X", "page-up"]) =~= seq!["send-keys"@, "-X"@, "page-up"@]);
    assert(words_view(seq!["send-keys", "-X", "page-down"]) =~= seq!["send-keys"@, "-X"@, "page-down"@]);
    assert(words_view(seq!["send-keys", "-X", "cursor-up"]) =~= seq!["send-keys"@, "-X"@, "cursor-up"@]);
}

/// Part 6 leaves every other key as it was.
proof fn lemma_pass_6(m: Map<(Seq<char>, Seq<char>), BindingView>, k: (Seq<char>, Seq<char>))
    requires
        k != ("prefix"@, "&"@) && k != ("prefix"@, "x"@) && k != ("copy-mode"@, "PPage"@) && k != ("copy-mode"@, "NPage"@) && k != ("copy-mode"@, "Up"@),
    ensures
        default_bindings_6(m).contains_key(k) == m.contains_key(k),
        default_bindings_6(m)[k] == m[k],
{
}

/// The bindings part 7 makes, each stated.
proof fn lemma_part_7(m: Map<(Seq<char>, Seq<char>), BindingView>)
    ensures
        ({
        let m2 = default_bindings_7(m);
        &&& m2.contains_key(("copy-mode"@, "Down"@))
        &&& m2[("copy-mode"@, "Down"@)] == (false, None::<Seq<char>>, seq!["send-keys"@, "-X"@, "cursor-down"@])
        &&& m2.contains_key(("copy-mode"@, "q"@))
        &&& m2[("copy-mode"@, "q"@)] == (false, None::<Seq<char>>, seq!["send-keys"@, "-X"@, "cancel"@])
        &&& m2.contains_key(("copy-mode"@, "Escape"@))
        &&& m2[("copy-mode"@, "Escape"@)] == (false, None::<Seq<char>>, seq!["send-keys"@, "-X"@, "cancel"@])
        &&& m2.contains_key(("copy-mode"@, "C-c"@))
        &&& m2[("copy-mode"@, "C-c"@)] == (false, None::<Seq<char>>, seq!["send-keys"@, "-X"@, "cancel"@])
        &&& m2.contains_key(("copy-mode-vi"@, "PPage"@))
        &&& m2[("copy-mode-vi"@, "PPage"@)] == (false, None::<Seq<char>>, seq!["send-keys"@, "-X"@, "page-up"@])
        }),
{
    let m2 = default_bindings_7(m);
    reveal_strlit("C-c");
    reveal_strlit("Down");
    reveal_strlit("Escape");
    reveal_strlit("PPage");
    reveal_strlit("copy-mode");
    reveal_strlit("copy-mode-vi");
    reveal_strlit("q");
    assert("C-c"@.len() == 3);
    assert("Down"@.len() == 4);
    assert("Escape"@.len() == 6);
    assert("copy-mode"@.len() == 9);
    assert("copy-mode-vi"@.len() == 12);
    assert("q"@.len() == 1);
    assert(words_view(seq!["send-keys", "-X", "cursor-down"]) =~= seq!["send-keys"@, "-X"@, "cursor-down"@]);
    assert(words_view(seq!["send-keys", "-X", "cancel"]) =~= seq!["send-keys"@, "-X"@, "cancel"@]);
    assert(words_view(seq!["send-keys", "-X", "cancel"]) =~= seq!["send-keys"@, "-X"@, "cancel"@]);
    assert(words_view(seq!["send-keys", "-X", "cancel"]) =~= seq!["send-keys"@, "-X"@, "cancel"@]);
    assert(words_view(seq!["send-keys", "-X", "page-up"]) =~= seq!["send-keys"@, "-X"@, "page-up"@]);
}

/// Part 7 leaves every other key as it was.
proof fn lemma_pass_7(m: Map<(Seq<char>, Seq<char>), BindingView>, k: (Seq<char>, Seq<char>))
    requires
        k != ("copy-mode"@, "Down"@) && k != ("copy-mode"@, "q"@) && k != ("copy-mode"@, "Escape"@) && k != ("copy-mode"@, "C-c"@) && k != ("copy-mode-vi"@, "PPage"@),
    ensures
        default_bindings_7(m).contains_key(k) == m.contains_key(k),
        default_bindings_7(m)[k] == m[k],
{
}

/// The bindings part 8 makes, each stated.
proof fn lemma_part_8(m: Map<(Seq<char>, Seq<char>), BindingView>)
    ensures
        ({
        let m2 = default_bindings_8(m);
        &&& m2.contains_key(("copy-mode-vi"@, "NPage"@))
        &&& m2[("copy-mode-vi"@, "NPage"@)] == (false, None::<Seq<char>>, seq!["send-keys"@, "-X"@, "page-down"@])
        &&& m2.contains_key(("copy-mode-vi"@, "Up"@))
        &&& m2[("copy-mode-vi"@, "Up"@)] == (false, None::<Seq<char>>, seq!["send-keys"@, "-X"@, "cursor-up"@])
        &&& m2.contains_key(("copy-mode-vi"@, "Down"@))
        &&& m2[("copy-mode-vi"@, "Down"@)] == (false, None::<Seq<char>>, seq!["send-keys"@, "-X"@, "cursor-down"@])
        &&& m2.contains_key(("copy-mode-vi"@, "k"@))
        &&& m2[("copy-mode-vi"@, "k"@)] == (false, None::<Seq<char>>, seq!["send-keys"@, "-X"@, "cursor-up"@])
        &&& m2.contains_key(("copy-mode-vi"@, "j"@))
        &&& m2[("copy-mode-vi"@, "j"@)] == (false, None::<Seq<char>>, seq!["send-keys"@, "-X"@, "cursor-down"@])
        }),
{
    let m2 = default_bindings_8(m);
    reveal_strlit("Down");
    reveal_strlit("NPage");
    reveal_strlit("Up");
    reveal_strlit("copy-mode-vi");
    reveal_strlit("j");
    reveal_strlit("k");
    assert("Down"@.len() == 4);
    assert("NPage"@.len() == 5);
    assert("Up"@.len() == 2);
    assert("j"@.len() == 1);
    assert("j"@[0] == 'j');
    assert("k"@.len() == 1);
    assert("k"@[0] == 'k');
    assert(words_view(seq!["send-keys", "-X", "page-down"]) =~= seq!["send-keys"@, "-X"@, "page-down"@]);
    assert(words_view(seq!["send-keys", "-X", "cursor-up"]) =~= seq!["send-keys"@, "-X"@, "cursor-up"@]);
    assert(words_view(seq!["send-keys", "-X", "cursor-down"]) =~= seq!["send-keys"@, "-X"@, "cursor-down"@]);
    assert(words_view(seq!["send-keys", "-X", "cursor-up"]) =~= seq!["send-keys"@, "-X"@, "cursor-up"@]);
    assert(words_view(seq!["send-keys", "-X", "cursor-down"]) =~= seq!["send-keys"@, "-X"@, "cursor-down"@]);
}

/// Part 8 leaves every other key as it was.
proof fn lemma_pass_8(m: Map<(Seq<char>, Seq<char>), BindingView>, k: (Seq<char>, Seq<char>))
    requires
        k != ("copy-mode-vi"@, "NPage"@) && k != ("copy-mode-vi"@, "Up"@) && k != ("copy-mode-vi"@, "Down"@) && k != ("copy-mode-vi"@, "k"@) && k != ("copy-mode-vi"@, "j"@),
    ensures
        default_bindings_8(m).contains_key(k) == m.contains_key(k),
        default_bindings_8(m)[k] == m[k],
{
}

/// The bindings part 9 makes, each stated.
proof fn lemma_part_9(m: Map<(Seq<char>, Seq<char>), BindingView>)
    ensures
        ({
        let m2 = default_bindings_9(m);
        &&& m2.contains_key(("copy-mode-vi"@, "g"@))
        &&& m2[("copy-mode-vi"@, "g"@)] == (false, None::<Seq<char>>, seq!["send-keys"@, "-X"@, "history-top"@])
        &&& m2.contains_key(("copy-mode-vi"@, "G"@))
        &&& m2[("copy-mode-vi"@, "G"@)] == (false, None::<Seq<char>>, seq!["send-keys"@, "-X"@, "history-bottom"@])
        &&& m2.contains_key(("copy-mode-vi"@, "q"@))
        &&& m2[("copy-mode-vi"@, "q"@)] == (false, None::<Seq<char>>, seq!["send-keys"@, "-X"@, "cancel"@])
        &&& m2.contains_key(("copy-mode-vi"@, "Escape"@))
        &&& m2[("copy-mode-vi"@, "Escape"@)] == (false, None::<Seq<char>>, seq!["send-keys"@, "-X"@, "clear-selection"@])
        &&& m2.contains_key(("copy-mode-vi"@, "Enter"@))
        &&& m2[("copy-mode-vi"@, "Enter"@)] == (false, None::<Seq<char>>, seq!["send-keys"@, "-X"@, "copy-pipe-and-cancel"@])
        }),
{
    let m2 = default_bindings_9(m);
    reveal_strlit("Enter");
    reveal_strlit("Escape");
    reveal_strlit("G");
    reveal_strlit("copy-mode-vi");
    reveal_strlit("g");
    reveal_strlit("q");
    assert("Enter"@.len() == 5);
    assert("Escape"@.len() == 6);
    assert("G"@.len() == 1);
    assert("G"@[0] == 'G');
    assert("g"@.len() == 1);
    assert("g"@[0] == 'g');
    assert("q"@.len() == 1);
    assert("q"@[0] == 'q');
    assert(words_view(seq!["send-keys", "-X", "history-top"]) =~= seq!["send-keys"@, "-X"@, "history-top"@]);
    assert(words_view(seq!["send-keys", "-X", "history-bottom"]) =~= seq!["send-keys"@, "-X"@, "history-bottom"@]);
    assert(words_view(seq!["send-keys", "-X", "cancel"]) =~= seq!["send-keys"@, "-X"@, "cancel"@]);
    assert(words_view(seq!["send-keys", "-X", "clear-selection"]) =~= seq!["send-keys"@, "-X"@, "clear-selection"@]);
    assert(words_view(seq!["send-keys", "-X", "copy-pipe-and-cancel"]) =~= seq!["send-keys"@, "-X"@, "copy-pipe-and-cancel"@]);
}

/// Part 9 leaves every other key as it was.
proof fn lemma_pass_9(m: Map<(Seq<char>, Seq<char>), BindingView>, k: (Seq<char>, Seq<char>))
    requires
        k != ("copy-mode-vi"@, "g"@) && k != ("copy-mode-vi"@, "G"@) && k != ("copy-mode-vi"@, "q"@) && k != ("copy-mode-vi"@, "Escape"@) && k != ("copy-mode-vi"@, "Enter"@),
    ensures
        default_bindings_9(m).contains_key(k) == m.contains_key(k),
        default_bindings_9(m)[k] == m[k],
{
}

/// The bindings part 10 makes, each stated.
proof fn lemma_part_10(m: Map<(Seq<char>, Seq<char>), BindingView>)
    ensures
        ({
        let m2 = default_bindings_10(m);
        &&& m2.contains_key(("copy-mode-vi"@, "C-c"@))
        &&& m2[("copy-mode-vi"@, "C-c"@)] == (false, None::<Seq<char>>, seq!["send-keys"@, "-X"@, "cancel"@])
        &&& m2.contains_key(("copy-mode-vi"@, "Space"@))
        &&& m2[("copy-mode-vi"@, "Space"@)] == (false, None::<Seq<char>>, seq!["send-keys"@, "-X"@, "begin-selection"@])
        &&& m2.contains_key(("copy-mode-vi"@, "$"@))
        &&& m2[("copy-mode-vi"@, "$"@)] == (false, None::<Seq<char>>, seq!["send-keys"@, "-X"@, "end-of-line"@])
        &&& m2.contains_key(("copy-mode-vi"@, "0"@))
        &&& m2[("copy-mode-vi"@, "0"@)] == (false, None::<Seq<char>>, seq!["send-keys"@, "-X"@, "start-of-line"@])
        &&& m2.contains_key(("copy-mode-vi"@, "h"@))
        &&& m2[("copy-mode-vi"@, "h"@)] == (false, None::<Seq<char>>, seq!["send-keys"@, "-X"@, "cursor-left"@])
        }),
{
    let m2 = default_bindings_10(m);
    reveal_strlit("$");
    reveal_strlit("0");
    reveal_strlit("C-c");
    reveal_strlit("Space");
    reveal_strlit("copy-mode-vi");
    reveal_strlit("h");
    assert("$"@.len() == 1);
    assert("$"@[0] == '$');
    assert("0"@.len() == 1);
    assert("0"@[0] == '0');
    assert("C-c"@.len() == 3);
    assert("Space"@.len() == 5);
    assert("h"@.len() == 1);
    assert("h"@[0] == 'h');
    assert(words_view(seq!["send-keys", "-X", "cancel"]) =~= seq!["send-keys"@, "-X"@, "cancel"@]);
    assert(words_view(seq!["send-keys", "-X", "begin-selection"]) =~= seq!["send-keys"@, "-X"@, "begin-selection"@]);
    assert(words_view(seq!["send-keys", "-X", "end-of-line"]) =~= seq!["send-keys"@, "-X"@, "end-of-line"@]);
    assert(words_view(seq!["send-keys", "-X", "start-of-line"]) =~= seq!["send-keys"@, "-X"@, "start-of-line"@]);
    assert(words_view(seq!["send-keys", "-X", "cursor-left"]) =~= seq!["send-keys"@, "-X"@, "cursor-left"@]);
}

/// Part 10 leaves every other key as it was.
proof fn lemma_pass_10(m: Map<(Seq<char>, Seq<char>), BindingView>, k: (Seq<char>, Seq<char>))
    requires
        k != ("copy-mode-vi"@, "C-c"@) && k != ("copy-mode-vi"@, "Space"@) && k != ("copy-mode-vi"@, "$"@) && k != ("copy-mode-vi"@, "0"@) && k != ("copy-mode-vi"@, "h"@),
    ensures
        default_bindings_10(m).contains_key(k) == m.contains_key(k),
        default_bindings_10(m)[k] == m[k],
{
}

/// The bindings part 11 makes, each stated.
proof fn lemma_part_11(m: Map<(Seq<char>, Seq<char>), BindingView>)
    ensures
        ({
        let m2 = default_bindings_11(m);
        &&& m2.contains_key(("copy-mode-vi"@, "l"@))
        &&& m2[("copy-mode-vi"@, "l"@)] == (false, None::<Seq<char>>, seq!["send-keys"@, "-X"@, "cursor-right"@])
        &&& m2.contains_key(("copy-mode-vi"@, "w"@))
        &&& m2[("copy-mode-vi"@, "w"@)] == (false, None::<Seq<char>>, seq!["send-keys"@, "-X"@, "next-word"@])
        &&& m2.contains_key(("copy-mode-vi"@, "b"@))
        &&& m2[("copy-mode-vi"@, "b"@)] == (false, None::<Seq<char>>, seq!["send-keys"@, "-X"@, "previous-word"@])
        &&& m2.contains_key(("copy-mode-vi"@, "e"@))
        &&& m2[("copy-mode-vi"@, "e"@)] == (false, None::<Seq<char>>, seq!["send-keys"@, "-X"@, "next-word-end"@])
        &&& m2.contains_key(("copy-mode-vi"@, "n"@))
        &&& m2[("copy-mode-vi"@, "n"@)] == (false, None::<Seq<char>>, seq!["send-keys"@, "-X"@, "search-again"@])
        }),
{
    let m2 = default_bindings_11(m);
    reveal_strlit("b");
    reveal_strlit("copy-mode-vi");
    reveal_strlit("e");
    reveal_strlit("l");
    reveal_strlit("n");
    reveal_strlit("w");
    assert("b"@[0] == 'b');
    assert("e"@[0] == 'e');
    assert("l"@[0] == 'l');
    assert("n"@[0] == 'n');
    assert("w"@[0] == 'w');
    assert(words_view(seq!["send-keys", "-X", "cursor-right"]) =~= seq!["send-keys"@, "-X"@, "cursor-right"@]);
    assert(words_view(seq!["send-keys", "-X", "next-word"]) =~= seq!["send-keys"@, "-X"@, "next-word"@]);
    assert(words_view(seq!["send-keys", "-X", "previous-word"]) =~= seq!["send-keys"@, "-X"@, "previous-word"@]);
    assert(words_view(seq!["send-keys", "-X", "next-word-end"]) =~= seq!["send-keys"@, "-X"@, "next-word-end"@]);
    assert(words_view(seq!["send-keys", "-X", "search-again"]) =~= seq!["send-keys"@, "-X"@, "search-again"@]);
}

/// Part 11 leaves every other key as it was.
proof fn lemma_pass_11(m: Map<(Seq<char>, Seq<char>), BindingView>, k: (Seq<char>, Seq<char>))
    requires
        k != ("copy-mode-vi"@, "l"@) && k != ("copy-mode-vi"@, "w"@) && k != ("copy-mode-vi"@, "b"@) && k != ("copy-mode-vi"@, "e"@) && k != ("copy-mode-vi"@, "n"@),
    ensures
        default_bindings_11(m).contains_key(k) == m.contains_key(k),
        default_bindings_11(m)[k] == m[k],
{
}

/// The bindings part 12 makes, each stated.
proof fn lemma_part_12(m: Map<(Seq<char>, Seq<char>), BindingView>)
    ensures
        ({
        let m2 = default_bindings_12(m);
        &&& m2.contains_key(("copy-mode-vi"@, "N"@))
        &&& m2[("copy-mode-vi"@, "N"@)] == (false, None::<Seq<char>>, seq!["send-keys"@, "-X"@, "search-reverse"@])
        &&& m2.contains_key(("copy-mode-vi"@, "o"@))
        &&& m2[("copy-mode-vi"@, "o"@)] == (false, None::<Seq<char>>, seq!["send-keys"@, "-X"@, "other-end"@])
        &&& m2.contains_key(("copy-mode-vi"@, "v"@))
        &&& m2[("copy-mode-vi"@, "v"@)] == (false, None::<Seq<char>>, seq!["send-keys"@, "-X"@, "rectangle-toggle"@])
        &&& m2.contains_key(("copy-mode-vi"@, "V"@))
        &&& m2[("copy-mode-vi"@, "V"@)] == (false, None::<Seq<char>>, seq!["send-keys"@, "-X"@, "select-line"@])
        &&& m2.contains_key(("copy-mode-vi"@, "0x5e"@))
        &&& m2[("copy-mode-vi"@, "0x5e"@)] == (false, None::<Seq<char>>, seq!["send-keys"@, "-X"@, "back-to-indentation"@])
        }),
{
    let m2 = default_bindings_12(m);
    reveal_strlit("0x5e");
    reveal_strlit("N");
    reveal_strlit("V");
    reveal_strlit("copy-mode-vi");
    reveal_strlit("o");
    reveal_strlit("v");
    assert("0x5e"@.len() == 4);
    assert("N"@.len() == 1);
    assert("N"@[0] == 'N');
    assert("V"@.len() == 1);
    assert("V"@[0] == 'V');
    assert("o"@.len() == 1);
    assert("o"@[0] == 'o');
    assert("v"@.len() == 1);
    assert("v"@[0] == 'v');
    assert(words_view(seq!["send-keys", "-X", "search-reverse"]) =~= seq!["send-keys"@, "-X"@, "search-reverse"@]);
    assert(words_view(seq!["send-keys", "-X", "other-end"]) =~= seq!["send-keys"@, "-X"@, "other-end"@]);
    assert(words_view(seq!["send-keys", "-X", "rectangle-toggle"]) =~= seq!["send-keys"@, "-X"@, "rectangle-toggle"@]);
    assert(words_view(seq!["send-keys", "-X", "select-line"]) =~= seq!["send-keys"@, "-X"@, "select-line"@]);
    assert(words_view(seq!["send-keys", "-X", "back-to-indentation"]) =~= seq!["send-keys"@, "-X"@, "back-to-indentation"@]);
}

/// Part 12 leaves every other key as it was.
proof fn lemma_pass_12(m: Map<(Seq<char>, Seq<char>), BindingView>, k: (Seq<char>, Seq<char>))
    requires
        k != ("copy-mode-vi"@, "N"@) && k != ("copy-mode-vi"@, "o"@) && k != ("copy-mode-vi"@, "v"@) && k != ("copy-mode-vi"@, "V"@) && k != ("copy-mode-vi"@, "0x5e"@),
    ensures
        default_bindings_12(m).contains_key(k) == m.contains_key(k),
        default_bindings_12(m)[k] == m[k],
{
}

/// The bindings part 13 makes, each stated.
proof fn lemma_part_13(m: Map<(Seq<char>, Seq<char>), BindingView>)
    ensures
        ({
        let m2 = default_bindings_13(m);
        &&& m2.contains_key(("copy-mode-vi"@, "%"@))
        &&& m2[("copy-mode-vi"@, "%"@)] == (false, None::<Seq<char>>, seq!["send-keys"@, "-X"@, "next-matching-bracket"@])
        &&& m2.contains_key(("copy-mode-vi"@, "H"@))
        &&& m2[("copy-mode-vi"@, "H"@)] == (false, None::<Seq<char>>, seq!["send-keys"@, "-X"@, "top-line"@])
        &&& m2.contains_key(("copy-mode-vi"@, "M"@))
        &&& m2[("copy-mode-vi"@, "M"@)] == (false, None::<Seq<char>>, seq!["send-keys"@, "-X"@, "middle-line"@])
        &&& m2.contains_key(("copy-mode-vi"@, "L"@))
        &&& m2[("copy-mode-vi"@, "L"@)] == (false, None::<Seq<char>>, seq!["send-keys"@, "-X"@, "bottom-line"@])
        &&& m2.contains_key(("copy-mode-vi"@, "r"@))
        &&& m2[("copy-mode-vi"@, "r"@)] == (false, None::<Seq<char>>, seq!["send-keys"@, "-X"@, "refresh-from-pane"@])
        }),
{
    let m2 = default_bindings_13(m);
    reveal_strlit("%");
    reveal_strlit("H");
    reveal_strlit("L");
    reveal_strlit("M");
    reveal_strlit("copy-mode-vi");
    reveal_strlit("r");
    assert("%"@[0] == '%');
    assert("H"@[0] == 'H');
    assert("L"@[0] == 'L');
    assert("M"@[0] == 'M');
    assert("r"@[0] == 'r');
    assert(words_view(seq!["send-keys", "-X", "next-matching-bracket"]) =~= seq!["send-keys"@, "-X"@, "next-matching-bracket"@]);
    assert(words_view(seq!["send-keys", "-X", "top-line"]) =~= seq!["send-keys"@, "-X"@, "top-line"@]);
    assert(words_view(seq!["send-keys", "-X", "middle-line"]) =~= seq!["send-keys"@, "-X"@, "middle-line"@]);
    assert(words_view(seq!["send-keys", "-X", "bottom-line"]) =~= seq!["send-keys"@, "-X"@, "bottom-line"@]);
    assert(words_view(seq!["send-keys", "-X", "refresh-from-pane"]) =~= seq!["send-keys"@, "-X"@, "refresh-from-pane"@]);
}

/// Part 13 leaves every other key as it was.
proof fn lemma_pass_13(m: Map<(Seq<char>, Seq<char>), BindingView>, k: (Seq<char>, Seq<char>))
    requires
        k != ("copy-mode-vi"@, "%"@) && k != ("copy-mode-vi"@, "H"@) && k != ("copy-mode-vi"@, "M"@) && k != ("copy-mode-vi"@, "L"@) && k != ("copy-mode-vi"@, "r"@),
    ensures
        default_bindings_13(m).contains_key(k) == m.contains_key(k),
        default_bindings_13(m)[k] == m[k],
{
}

/// The bindings part 14 makes, each stated.
proof fn lemma_part_14(m: Map<(Seq<char>, Seq<char>), BindingView>)
    ensures
        ({
        let m2 = default_bindings_14(m);
        &&& m2.contains_key(("copy-mode-vi"@, "C-d"@))
        &&& m2[("copy-mode-vi"@, "C-d"@)] == (false, None::<Seq<char>>, seq!["send-keys"@, "-X"@, "halfpage-down"@])
        &&& m2.contains_key(("copy-mode-vi"@, "C-u"@))
        &&& m2[("copy-mode-vi"@, "C-u"@)] == (false, None::<Seq<char>>, seq!["send-keys"@, "-X"@, "halfpage-up"@])
        &&& m2.contains_key(("copy-mode-vi"@, "C-f"@))
        &&& m2[("copy-mode-vi"@, "C-f"@)] == (false, None::<Seq<char>>, seq!["send-keys"@, "-X"@, "page-down"@])
        &&& m2.contains_key(("copy-mode-vi"@, "C-b"@))
        &&& m2[("copy-mode-vi"@, "C-b"@)] == (false, None::<Seq<char>>, seq!["send-keys"@, "-X"@, "page-up"@])
        &&& m2.contains_key(("copy-mode-vi"@, "C-e"@))
        &&& m2[("copy-mode-vi"@, "C-e"@)] == (false, None::<Seq<char>>, seq!["send-keys"@, "-X"@, "scroll-down"@])
        }),
{
    let m2 = default_bindings_14(m);
    reveal_strlit("C-b");
    reveal_strlit("C-d");
    reveal_strlit("C-e");
    reveal_strlit("C-f");
    reveal_strlit("C-u");
    reveal_strlit("copy-mode-vi");
    assert("C-b"@[2] == 'b');
    assert("C-d"@[2] == 'd');
    assert("C-e"@[2] == 'e');
    assert("C-f"@[2] == 'f');
    assert("C-u"@[2] == 'u');
    assert(words_view(seq!["send-keys", "-X", "halfpage-down"]) =~= seq!["send-keys"@, "-X"@, "halfpage-down"@]);
    assert(words_view(seq!["send-keys", "-X", "halfpage-up"]) =~= seq!["send-keys"@, "-X"@, "halfpage-up"@]);
    assert(words_view(seq!["send-keys", "-X", "page-down"]) =~= seq!["send-keys"@, "-X"@, "page-down"@]);
    assert(words_view(seq!["send-keys", "-X", "page-up"]) =~= seq!["send-keys"@, "-X"@, "page-up"@]);
    assert(words_view(seq!["send-keys", "-X", "scroll-down"]) =~= seq!["send-keys"@, "-X"@, "scroll-down"@]);
}

/// Part 14 leaves every other key as it was.
proof fn lemma_pass_14(m: Map<(Seq<char>, Seq<char>), BindingView>, k: (Seq<char>, Seq<char>))
    requires
        k != ("copy-mode-vi"@, "C-d"@) && k != ("copy-mode-vi"@, "C-u"@) && k != ("copy-mode-vi"@, "C-f"@) && k != ("copy-mode-vi"@, "C-b"@) && k != ("copy-mode-vi"@, "C-e"@),
    ensures
        default_bindings_14(m).contains_key(k) == m.contains_key(k),
        default_bindings_14(m)[k] == m[k],
{
}

/// The bindings part 15 makes, each stated.
proof fn lemma_part_15(m: Map<(Seq<char>, Seq<char>), BindingView>)
    ensures
        ({
        let m2 = default_bindings_15(m);
        &&& m2.contains_key(("copy-mode-vi"@, "C-y"@))
        &&& m2[("copy-mode-vi"@, "C-y"@)] == (false, None::<Seq<char>>, seq!["send-keys"@, "-X"@, "scroll-up"@])
        &&& m2.contains_key(("copy-mode"@, "C-Space"@))
        &&& m2[("copy-mode"@, "C-Space"@)] == (false, None::<Seq<char>>, seq!["send-keys"@, "-X"@, "begin-selection"@])
        &&& m2.contains_key(("copy-mode"@, "C-a"@))
        &&& m2[("copy-mode"@, "C-a"@)] == (false, None::<Seq<char>>, seq!["send-keys"@, "-X"@, "start-of-line"@])
        &&& m2.contains_key(("copy-mode"@, "C-["@))
        &&& m2[("copy-mode"@, "C-["@)] == (false, None::<Seq<char>>, seq!["send-keys"@, "-X"@, "cancel"@])
        &&& m2.contains_key(("copy-mode"@, "C-e"@))
        &&& m2[("copy-mode"@, "C-e"@)] == (false, None::<Seq<char>>, seq!["send-keys"@, "-X"@, "end-of-line"@])
        }),
{
    let m2 = default_bindings_15(m);
    reveal_strlit("C-Space");
    reveal_strlit("C-[");
    reveal_strlit("C-a");
    reveal_strlit("C-e");
    reveal_strlit("C-y");
    reveal_strlit("copy-mode");
    reveal_strlit("copy-mode-vi");
    assert("C-Space"@.len() == 7);
    assert("C-["@.len() == 3);
    assert("C-["@[2] == '[');
    assert("C-a"@.len() == 3);
    assert("C-a"@[2] == 'a');
    assert("C-e"@.len() == 3);
    assert("C-e"@[2] == 'e');
    assert("copy-mode"@.len() == 9);
    assert("copy-mode-vi"@.len() == 12);
    assert(words_view(seq!["send-keys", "-X", "scroll-up"]) =~= seq!["send-keys"@, "-X"@, "scroll-up"@]);
    assert(words_view(seq!["send-keys", "-X", "begin-selection"]) =~= seq!["send-keys"@, "-X"@, "begin-selection"@]);
    assert(words_view(seq!["send-keys", "-X", "start-of-line"]) =~= seq!["send-keys"@, "-X"@, "start-of-line"@]);
    assert(words_view(seq!["send-keys", "-X", "cancel"]) =~= seq!["send-keys"@, "-X"@, "cancel"@]);
    assert(words_view(seq!["send-keys", "-X", "end-of-line"]) =~= seq!["send-keys"@, "-X"@, "end-of-line"@]);
}

/// Part 15 leaves every other key as it was.
proof fn lemma_pass_15(m: Map<(Seq<char>, Seq<char>), BindingView>, k: (Seq<char>, Seq<char>))
    requires
        k != ("copy-mode-vi"@, "C-y"@) && k != ("copy-mode"@, "C-Space"@) && k != ("copy-mode"@, "C-a"@) && k != ("copy-mode"@, "C-["@) && k != ("copy-mode"@, "C-e"@),
    ensures
        default_bindings_15(m).contains_key(k) == m.contains_key(k),
        default_bindings_15(m)[k] == m[k],
{
}

/// The bindings part 16 makes, each stated.
proof fn lemma_part_16(m: Map<(Seq<char>, Seq<char>), BindingView>)
    ensures
        ({
        let m2 = default_bindings_16(m);
        &&& m2.contains_key(("copy-mode"@, "C-f"@))
        &&& m2[("copy-mode"@, "C-f"@)] == (false, None::<Seq<char>>, seq!["send-keys"@, "-X"@, "cursor-right"@])
        &&& m2.contains_key(("copy-mode"@, "C-b"@))
        &&& m2[("copy-mode"@, "C-b"@)] == (false, None::<Seq<char>>, seq!["send-keys"@, "-X"@, "cursor-left"@])
        &&& m2.contains_key(("copy-mode"@, "C-g"@))
        &&& m2[("copy-mode"@, "C-g"@)] == (false, None::<Seq<char>>, seq!["send-keys"@, "-X"@, "clear-selection"@])
        &&& m2.contains_key(("copy-mode"@, "C-l"@))
        &&& m2[("copy-mode"@, "C-l"@)] == (false, None::<Seq<char>>, seq!["send-keys"@, "-X"@, "recentre-top-bottom"@])
        &&& m2.contains_key(("copy-mode"@, "C-n"@))
        &&& m2[("copy-mode"@, "C-n"@)] == (false, None::<Seq<char>>, seq!["send-keys"@, "-X"@, "cursor-down"@])
        }),
{
    let m2 = default_bindings_16(m);
    reveal_strlit("C-b");
    reveal_strlit("C-f");
    reveal_strlit("C-g");
    reveal_strlit("C-l");
    reveal_strlit("C-n");
    reveal_strlit("copy-mode");
    assert("C-b"@[2] == 'b');
    assert("C-f"@[2] == 'f');
    assert("C-g"@[2] == 'g');
    assert("C-l"@[2] == 'l');
    assert("C-n"@[2] == 'n');
    assert(words_view(seq!["send-keys", "-X", "cursor-right"]) =~= seq!["send-keys"@, "-X"@, "cursor-right"@]);
    assert(words_view(seq!["send-keys", "-X", "cursor-left"]) =~= seq!["send-keys"@, "-X"@, "cursor-left"@]);
    assert(words_view(seq!["send-keys", "-X", "clear-selection"]) =~= seq!["send-keys"@, "-X"@, "clear-selection"@]);
    assert(words_view(seq!["send-keys", "-X", "recentre-top-bottom"]) =~= seq!["send-keys"@, "-X"@, "recentre-top-bottom"@]);
    assert(words_view(seq!["send-keys", "-X", "cursor-down"]) =~= seq!["send-keys"@, "-X"@, "cursor-down"@]);
}

/// Part 16 leaves every other key as it was.
proof fn lemma_pass_16(m: Map<(Seq<char>, Seq<char>), BindingView>, k: (Seq<char>, Seq<char>))
    requires
        k != ("copy-mode"@, "C-f"@) && k != ("copy-mode"@, "C-b"@) && k != ("copy-mode"@, "C-g"@) && k != ("copy-mode"@, "C-l"@) && k != ("copy-mode"@, "C-n"@),
    ensures
        default_bindings_16(m).contains_key(k) == m.contains_key(k),
        default_bindings_16(m)[k] == m[k],
{
}

/// The bindings part 17 makes, each stated.
proof fn lemma_part_17(m: Map<(Seq<char>, Seq<char>), BindingView>)
    ensures
        ({
        let m2 = default_bindings_17(m);
        &&& m2.contains_key(("copy-mode"@, "C-p"@))
        &&& m2[("copy-mode"@, "C-p"@)] == (false, None::<Seq<char>>, seq!["send-keys"@, "-X"@, "cursor-up"@])
        &&& m2.contains_key(("copy-mode"@, "C-v"@))
        &&& m2[("copy-mode"@, "C-v"@)] == (false, None::<Seq<char>>, seq!["send-keys"@, "-X"@, "page-down"@])
        &&& m2.contains_key(("copy-mode"@, "Space"@))
        &&& m2[("copy-mode"@, "Space"@)] == (false, None::<Seq<char>>, seq!["send-keys"@, "-X"@, "page-down"@])
        &&& m2.contains_key(("copy-mode"@, "n"@))
        &&& m2[("copy-mode"@, "n"@)] == (false, None::<Seq<char>>, seq!["send-keys"@, "-X"@, "search-again"@])
        &&& m2.contains_key(("copy-mode"@, "N"@))
        &&& m2[("copy-mode"@, "N"@)] == (false, None::<Seq<char>>, seq!["send-keys"@, "-X"@, "search-reverse"@])
        }),
{
    let m2 = default_bindings_17(m);
    reveal_strlit("C-p");
    reveal_strlit("C-v");
    reveal_strlit("N");
    reveal_strlit("Space");
    reveal_strlit("copy-mode");
    reveal_strlit("n");
    assert("C-p"@.len() == 3);
    assert("C-p"@[2] == 'p');
    assert("C-v"@.len() == 3);
    assert("C-v"@[2] == 'v');
    assert("N"@.len() == 1);
    assert("N"@[0] == 'N');
    assert("Space"@.len() == 5);
    assert("n"@.len() == 1);
    assert("n"@[0] == 'n');
    assert(words_view(seq!["send-keys", "-X", "cursor-up"]) =~= seq!["send-keys"@, "-X"@, "cursor-up"@]);
    assert(words_view(seq!["send-keys", "-X", "page-down"]) =~= seq!["send-keys"@, "-X"@, "page-down"@]);
    assert(words_view(seq!["send-keys", "-X", "page-down"]) =~= seq!["send-keys"@, "-X"@, "page-down"@]);
    assert(words_view(seq!["send-keys", "-X", "search-again"]) =~= seq!["send-keys"@, "-X"@, "search-again"@]);
    assert(words_view(seq!["send-keys", "-X", "search-reverse"]) =~= seq!["send-keys"@, "-X"@, "search-reverse"@]);
}

/// Part 17 leaves every other key as it was.
proof fn lemma_pass_17(m: Map<(Seq<char>, Seq<char>), BindingView>, k: (Seq<char>, Seq<char>))
    requires
        k != ("copy-mode"@, "C-p"@) && k != ("copy-mode"@, "C-v"@) && k != ("copy-mode"@, "Space"@) && k != ("copy-mode"@, "n"@) && k != ("copy-mode"@, "N"@),
    ensures
        default_bindings_17(m).contains_key(k) == m.contains_key(k),
        default_bindings_17(m)[k] == m[k],
{
}

/// The bindings part 18 makes, each stated.
proof fn lemma_part_18(m: Map<(Seq<char>, Seq<char>), BindingView>)
    ensures
        ({
        let m2 = default_bindings_18(m);
        &&& m2.contains_key(("copy-mode"@, "R"@))
        &&& m2[("copy-mode"@, "R"@)] == (false, None::<Seq<char>>, seq!["send-keys"@, "-X"@, "rectangle-toggle"@])
        &&& m2.contains_key(("copy-mode"@, "r"@))
        &&& m2[("copy-mode"@, "r"@)] == (false, None::<Seq<char>>, seq!["send-keys"@, "-X"@, "refresh-from-pane"@])
        &&& m2.contains_key(("copy-mode"@, "Home"@))
        &&& m2[("copy-mode"@, "Home"@)] == (false, None::<Seq<char>>, seq!["send-keys"@, "-X"@, "start-of-line"@])
        &&& m2.contains_key(("copy-mode"@, "End"@))
        &&& m2[("copy-mode"@, "End"@)] == (false, None::<Seq<char>>, seq!["send-keys"@, "-X"@, "end-of-line"@])
        &&& m2.contains_key(("copy-mode"@, "MouseDrag1Pane"@))
        &&& m2[("copy-mode"@, "MouseDrag1Pane"@)] == (false, None::<Seq<char>>, seq!["select-pane"@, ";"@, "send-keys"@, "-X"@, "begin-selection"@])
        }),
{
    let m2 = default_bindings_18(m);
    reveal_strlit("End");
    reveal_strlit("Home");
    reveal_strlit("MouseDrag1Pane");
    reveal_strlit("R");
    reveal_strlit("copy-mode");
    reveal_strlit("r");
    assert("End"@.len() == 3);
    assert("Home"@.len() == 4);
    assert("MouseDrag1Pane"@.len() == 14);
    assert("R"@.len() == 1);
    assert("R"@[0] == 'R');
    assert("r"@.len() == 1);
    assert("r"@[0] == 'r');
    assert(words_view(seq!["send-keys", "-X", "rectangle-toggle"]) =~= seq!["send-keys"@, "-X"@, "rectangle-toggle"@]);
    assert(words_view(seq!["send-keys", "-X", "refresh-from-pane"]) =~= seq!["send-keys"@, "-X"@, "refresh-from-pane"@]);
    assert(words_view(seq!["send-keys", "-X", "start-of-line"]) =~= seq!["send-keys"@, "-X"@, "start-of-line"@]);
    assert(words_view(seq!["send-keys", "-X", "end-of-line"]) =~= seq!["send-keys"@, "-X"@, "end-of-line"@]);
    assert(words_view(seq!["select-pane", ";", "send-keys", "-X", "begin-selection"]) =~= seq!["select-pane"@, ";"@, "send-keys"@, "-X"@, "begin-selection"@]);
}

/// Part 18 leaves every other key as it was.
proof fn lemma_pass_18(m: Map<(Seq<char>, Seq<char>), BindingView>, k: (Seq<char>, Seq<char>))
    requires
        k != ("copy-mode"@, "R"@) && k != ("copy-mode"@, "r"@) && k != ("copy-mode"@, "Home"@) && k != ("copy-mode"@, "End"@) && k != ("copy-mode"@, "MouseDrag1Pane"@),
    ensures
        default_bindings_18(m).contains_key(k) == m.contains_key(k),
        default_bindings_18(m)[k] == m[k],
{
}

/// The bindings part 19 makes, each stated.
proof fn lemma_part_19(m: Map<(Seq<char>, Seq<char>), BindingView>)
    ensures
        ({
        let m2 = default_bindings_19(m);
        &&& m2.contains_key(("copy-mode"@, "MouseDragEnd1Pane"@))
        &&& m2[("copy-mode"@, "MouseDragEnd1Pane"@)] == (false, None::<Seq<char>>, seq!["send-keys"@, "-X"@, "copy-pipe-and-cancel"@])
        &&& m2.contains_key(("copy-mode"@, "WheelUpPane"@))
        &&& m2[("copy-mode"@, "WheelUpPane"@)] == (false, None::<Seq<char>>, seq!["select-pane"@, ";"@, "send-keys"@, "-N5"@, "-X"@, "scroll-up"@])
        &&& m2.contains_key(("copy-mode"@, "WheelDownPane"@))
        &&& m2[("copy-mode"@, "WheelDownPane"@)] == (false, None::<Seq<char>>, seq!["select-pane"@, ";"@, "send-keys"@, "-N5"@, "-X"@, "scroll-down"@])
        &&& m2.contains_key(("copy-mode"@, "C-r"@))
        &&& m2[("copy-mode"@, "C-r"@)] == (false, None::<Seq<char>>, seq!["command-prompt"@, "-T"@, "search"@, "-i"@, "-p"@, "(search up)"@, "-I"@, "#{pane_search_string}"@, "send-keys -X search-backward-incremental -- '%%'"@])
        &&& m2.contains_key(("copy-mode"@, "C-s"@))
        &&& m2[("copy-mode"@, "C-s"@)] == (false, None::<Seq<char>>, seq!["command-prompt"@, "-T"@, "search"@, "-i"@, "-p"@, "(search down)"@, "-I"@, "#{pane_search_string}"@, "send-keys -X search-forward-incremental -- '%%'"@])
        }),
{
    let m2 = default_bindings_19(m);
    reveal_strlit("C-r");
    reveal_strlit("C-s");
    reveal_strlit("MouseDragEnd1Pane");
    reveal_strlit("WheelDownPane");
    reveal_strlit("WheelUpPane");
    reveal_strlit("copy-mode");
    assert("C-r"@.len() == 3);
    assert("C-r"@[2] == 'r');
    assert("C-s"@.len() == 3);
    assert("C-s"@[2] == 's');
    assert("MouseDragEnd1Pane"@.len() == 17);
    assert("WheelDownPane"@.len() == 13);
    assert("WheelUpPane"@.len() == 11);
    assert(words_view(seq!["send-keys", "-X", "copy-pipe-and-cancel"]) =~= seq!["send-keys"@, "-X"@, "copy-pipe-and-cancel"@]);
    assert(words_view(seq!["select-pane", ";", "send-keys", "-N5", "-X", "scroll-up"]) =~= seq!["select-pane"@, ";"@, "send-keys"@, "-N5"@, "-X"@, "scroll-up"@]);
    assert(words_view(seq!["select-pane", ";", "send-keys", "-N5", "-X", "scroll-down"]) =~= seq!["select-pane"@, ";"@, "send-keys"@, "-N5"@, "-X"@, "scroll-down"@]);
    assert(words_view(seq!["command-prompt", "-T", "search", "-i", "-p", "(search up)", "-I", "#{pane_search_string}", "send-keys -X search-backward-incremental -- '%%'"]) =~= seq!["command-prompt"@, "-T"@, "search"@, "-i"@, "-p"@, "(search up)"@, "-I"@, "#{pane_search_string}"@, "send-keys -X search-backward-incremental -- '%%'"@]);
    assert(words_view(seq!["command-prompt", "-T", "search", "-i", "-p", "(search down)", "-I", "#{pane_search_string}", "send-keys -X search-forward-incremental -- '%%'"]) =~= seq!["command-prompt"@, "-T"@, "search"@, "-i"@, "-p"@, "(search down)"@, "-I"@, "#{pane_search_string}"@, "send-keys -X search-forward-incremental -- '%%'"@]);
}

/// Part 19 leaves every other key as it was.
proof fn lemma_pass_19(m: Map<(Seq<char>, Seq<char>), BindingView>, k: (Seq<char>, Seq<char>))
    requires
        k != ("copy-mode"@, "MouseDragEnd1Pane"@) && k != ("copy-mode"@, "WheelUpPane"@) && k != ("copy-mode"@, "WheelDownPane"@) && k != ("copy-mode"@, "C-r"@) && k != ("copy-mode"@, "C-s"@),
    ensures
        default_bindings_19(m).contains_key(k) == m.contains_key(k),
        default_bindings_19(m)[k] == m[k],
{
}

/// The bindings part 20 makes, each stated.
proof fn lemma_part_20(m: Map<(Seq<char>, Seq<char>), BindingView>)
    ensures
        ({
        let m2 = default_bindings_20(m);
        &&& m2.contains_key(("copy-mode"@, "f"@))
        &&& m2[("copy-mode"@, "f"@)] == (false, None::<Seq<char>>, seq!["command-prompt"@, "-1"@, "-p"@, "(jump forward)"@, "send-keys -X jump-forward -- '%%'"@])
        &&& m2.contains_key(("copy-mode"@, "F"@))
        &&& m2[("copy-mode"@, "F"@)] == (false, None::<Seq<char>>, seq!["command-prompt"@, "-1"@, "-p"@, "(jump backward)"@, "send-keys -X jump-backward -- '%%'"@])
        &&& m2.contains_key(("copy-mode"@, "t"@))
        &&& m2[("copy-mode"@, "t"@)] == (false, None::<Seq<char>>, seq!["command-prompt"@, "-1"@, "-p"@, "(jump to forward)"@, "send-keys -X jump-to-forward -- '%%'"@])
        &&& m2.contains_key(("copy-mode"@, "T"@))
        &&& m2[("copy-mode"@, "T"@)] == (false, None::<Seq<char>>, seq!["command-prompt"@, "-1"@, "-p"@, "(jump to backward)"@, "send-keys -X jump-to-backward -- '%%'"@])
        &&& m2.contains_key(("copy-mode"@, ","@))
        &&& m2[("copy-mode"@, ","@)] == (false, None::<Seq<char>>, seq!["send-keys"@, "-X"@, "jump-reverse"@])
        }),
{
    let m2 = default_bindings_20(m);
    reveal_strlit(",");
    reveal_strlit("F");
    reveal_strlit("T");
    reveal_strlit("copy-mode");
    reveal_strlit("f");
    reveal_strlit("t");
    assert(","@[0] == ',');
    assert("F"@[0] == 'F');
    assert("T"@[0] == 'T');
    assert("f"@[0] == 'f');
    assert("t"@[0] == 't');
    assert(words_view(seq!["command-prompt", "-1", "-p", "(jump forward)", "send-keys -X jump-forward -- '%%'"]) =~= seq!["command-prompt"@, "-1"@, "-p"@, "(jump forward)"@, "send-keys -X jump-forward -- '%%'"@]);
    assert(words_view(seq!["command-prompt", "-1", "-p", "(jump backward)", "send-keys -X jump-backward -- '%%'"]) =~= seq!["command-prompt"@, "-1"@, "-p"@, "(jump backward)"@, "send-keys -X jump-backward -- '%%'"@]);
    assert(words_view(seq!["command-prompt", "-1", "-p", "(jump to forward)", "send-keys -X jump-to-forward -- '%%'"]) =~= seq!["command-prompt"@, "-1"@, "-p"@, "(jump to forward)"@, "send-keys -X jump-to-forward -- '%%'"@]);
    assert(words_view(seq!["command-prompt", "-1", "-p", "(jump to backward)", "send-keys -X jump-to-backward -- '%%'"]) =~= seq!["command-prompt"@, "-1"@, "-p"@, "(jump to backward)"@, "send-keys -X jump-to-backward -- '%%'"@]);
    assert(words_view(seq!["send-keys", "-X", "jump-reverse"]) =~= seq!["send-keys"@, "-X"@, "jump-reverse"@]);
}

/// Part 20 leaves every other key as it was.
proof fn lemma_pass_20(m: Map<(Seq<char>, Seq<char>), BindingView>, k: (Seq<char>, Seq<char>))
    requires
        k != ("copy-mode"@, "f"@) && k != ("copy-mode"@, "F"@) && k != ("copy-mode"@, "t"@) && k != ("copy-mode"@, "T"@) && k != ("copy-mode"@, ","@),
    ensures
        default_bindings_20(m).contains_key(k) == m.contains_key(k),
        default_bindings_20(m)[k] == m[k],
{
}

/// The bindings part 21 makes, each stated.
proof fn lemma_part_21(m: Map<(Seq<char>, Seq<char>), BindingView>)
    ensures
        ({
        let m2 = default_bindings_21(m);
        &&& m2.contains_key(("copy-mode"@, ";"@))
        &&& m2[("copy-mode"@, ";"@)] == (false, None::<Seq<char>>, seq!["send-keys"@, "-X"@, "jump-again"@])
        &&& m2.contains_key(("copy-mode"@, "X"@))
        &&& m2[("copy-mode"@, "X"@)] == (false, None::<Seq<char>>, seq!["send-keys"@, "-X"@, "set-mark"@])
        &&& m2.contains_key(("copy-mode"@, "M-x"@))
        &&& m2[("copy-mode"@, "M-x"@)] == (false, None::<Seq<char>>, seq!["send-keys"@, "-X"@, "jump-to-mark"@])
        &&& m2.contains_key(("copy-mode"@, "M-b"@))
        &&& m2[("copy-mode"@, "M-b"@)] == (false, None::<Seq<char>>, seq!["send-keys"@, "-X"@, "previous-word"@])
        &&& m2.contains_key(("copy-mode"@, "M-f"@))
        &&& m2[("copy-mode"@, "M-f"@)] == (false, None::<Seq<char>>, seq!["send-keys"@, "-X"@, "next-word-end"@])
        }),
{
    let m2 = default_bindings_21(m);
    reveal_strlit(";");
    reveal_strlit("M-b");
    reveal_strlit("M-f");
    reveal_strlit("M-x");
    reveal_strlit("X");
    reveal_strlit("copy-mode");
    assert(";"@.len() == 1);
    assert(";"@[0] == ';');
    assert("M-b"@.len() == 3);
    assert("M-b"@[2] == 'b');
    assert("M-f"@.len() == 3);
    assert("M-f"@[2] == 'f');
    assert("M-x"@.len() == 3);
    assert("M-x"@[2] == 'x');
    assert("X"@.len() == 1);
    assert("X"@[0] == 'X');
    assert(words_view(seq!["send-keys", "-X", "jump-again"]) =~= seq!["send-keys"@, "-X"@, "jump-again"@]);
    assert(words_view(seq!["send-keys", "-X", "set-mark"]) =~= seq!["send-keys"@, "-X"@, "set-mark"@]);
    assert(words_view(seq!["send-keys", "-X", "jump-to-mark"]) =~= seq!["send-keys"@, "-X"@, "jump-to-mark"@]);
    assert(words_view(seq!["send-keys", "-X", "previous-word"]) =~= seq!["send-keys"@, "-X"@, "previous-word"@]);
    assert(words_view(seq!["send-keys", "-X", "next-word-end"]) =~= seq!["send-keys"@, "-X"@, "next-word-end"@]);
}

/// Part 21 leaves every other key as it was.
proof fn lemma_pass_21(m: Map<(Seq<char>, Seq<char>), BindingView>, k: (Seq<char>, Seq<char>))
    requires
        k != ("copy-mode"@, ";"@) && k != ("copy-mode"@, "X"@) && k != ("copy-mode"@, "M-x"@) && k != ("copy-mode"@, "M-b"@) && k != ("copy-mode"@, "M-f"@),
    ensures
        default_bindings_21(m).contains_key(k) == m.contains_key(k),
        default_bindings_21(m)[k] == m[k],
{
}

/// The bindings part 22 makes, each stated.
proof fn lemma_part_22(m: Map<(Seq<char>, Seq<char>), BindingView>)
    ensures
        ({
        let m2 = default_bindings_22(m);
        &&& m2.contains_key(("copy-mode"@, "M-l"@))
        &&& m2[("copy-mode"@, "M-l"@)] == (false, None::<Seq<char>>, seq!["send-keys"@, "-X"@, "cursor-centre-horizontal"@])
        &&& m2.contains_key(("copy-mode"@, "M-m"@))
        &&& m2[("copy-mode"@, "M-m"@)] == (false, None::<Seq<char>>, seq!["send-keys"@, "-X"@, "back-to-indentation"@])
        &&& m2.contains_key(("copy-mode"@, "M-v"@))
        &&& m2[("copy-mode"@, "M-v"@)] == (false, None::<Seq<char>>, seq!["send-keys"@, "-X"@, "page-up"@])
        &&& m2.contains_key(("copy-mode"@, "M-Up"@))
        &&& m2[("copy-mode"@, "M-Up"@)] == (false, None::<Seq<char>>, seq!["send-keys"@, "-X"@, "halfpage-up"@])
        &&& m2.contains_key(("copy-mode"@, "M-Down"@))
        &&& m2[("copy-mode"@, "M-Down"@)] == (false, None::<Seq<char>>, seq!["send-keys"@, "-X"@, "halfpage-down"@])
        }),
{
    let m2 = default_bindings_22(m);
    reveal_strlit("M-Down");
    reveal_strlit("M-Up");
    reveal_strlit("M-l");
    reveal_strlit("M-m");
    reveal_strlit("M-v");
    reveal_strlit("copy-mode");
    assert("M-Down"@.len() == 6);
    assert("M-Up"@.len() == 4);
    assert("M-l"@.len() == 3);
    assert("M-l"@[2] == 'l');
    assert("M-m"@.len() == 3);
    assert("M-m"@[2] == 'm');
    assert("M-v"@.len() == 3);
    assert("M-v"@[2] == 'v');
    assert(words_view(seq!["send-keys", "-X", "cursor-centre-horizontal"]) =~= seq!["send-keys"@, "-X"@, "cursor-centre-horizontal"@]);
    assert(words_view(seq!["send-keys", "-X", "back-to-indentation"]) =~= seq!["send-keys"@, "-X"@, "back-to-indentation"@]);
    assert(words_view(seq!["send-keys", "-X", "page-up"]) =~= seq!["send-keys"@, "-X"@, "page-up"@]);
    assert(words_view(seq!["send-keys", "-X", "halfpage-up"]) =~= seq!["send-keys"@, "-X"@, "halfpage-up"@]);
    assert(words_view(seq!["send-keys", "-X", "halfpage-down"]) =~= seq!["send-keys"@, "-X"@, "halfpage-down"@]);
}

/// Part 22 leaves every other key as it was.
proof fn lemma_pass_22(m: Map<(Seq<char>, Seq<char>), BindingView>, k: (Seq<char>, Seq<char>))
    requires
        k != ("copy-mode"@, "M-l"@) && k != ("copy-mode"@, "M-m"@) && k != ("copy-mode"@, "M-v"@) && k != ("copy-mode"@, "M-Up"@) && k != ("copy-mode"@, "M-Down"@),
    ensures
        default_bindings_22(m).contains_key(k) == m.contains_key(k),
        default_bindings_22(m)[k] == m[k],
{
}

/// The bindings part 23 makes, each stated.
proof fn lemma_part_23(m: Map<(Seq<char>, Seq<char>), BindingView>)
    ensures
        ({
        let m2 = default_bindings_23(m);
        &&& m2.contains_key(("copy-mode"@, "C-Up"@))
        &&& m2[("copy-mode"@, "C-Up"@)] == (false, None::<Seq<char>>, seq!["send-keys"@, "-X"@, "scroll-up"@])
        &&& m2.contains_key(("copy-mode"@, "C-Down"@))
        &&& m2[("copy-mode"@, "C-Down"@)] == (false, None::<Seq<char>>, seq!["send-keys"@, "-X"@, "scroll-down"@])
        &&& m2.contains_key(("copy-mode"@, "M-<"@))
        &&& m2[("copy-mode"@, "M-<"@)] == (false, None::<Seq<char>>, seq!["send-keys"@, "-X"@, "history-top"@])
        &&& m2.contains_key(("copy-mode"@, "M->"@))
        &&& m2[("copy-mode"@, "M->"@)] == (false, None::<Seq<char>>, seq!["send-keys"@, "-X"@, "history-bottom"@])
        &&& m2.contains_key(("copy-mode"@, "P"@))
        &&& m2[("copy-mode"@, "P"@)] == (false, None::<Seq<char>>, seq!["send-keys"@, "-X"@, "toggle-position"@])
        }),
{
    let m2 = default_bindings_23(m);
    reveal_strlit("C-Down");
    reveal_strlit("C-Up");
    reveal_strlit("M-<");
    reveal_strlit("M->");
    reveal_strlit("P");
    reveal_strlit("copy-mode");
    assert("C-Down"@.len() == 6);
    assert("C-Up"@.len() == 4);
    assert("M-<"@.len() == 3);
    assert("M-<"@[2] == '<');
    assert("M->"@.len() == 3);
    assert("M->"@[2] == '>');
    assert("P"@.len() == 1);
    assert(words_view(seq!["send-keys", "-X", "scroll-up"]) =~= seq!["send-keys"@, "-X"@, "scroll-up"@]);
    assert(words_view(seq!["send-keys", "-X", "scroll-down"]) =~= seq!["send-keys"@, "-X"@, "scroll-down"@]);
    assert(words_view(seq!["send-keys", "-X", "history-top"]) =~= seq!["send-keys"@, "-X"@, "history-top"@]);
    assert(words_view(seq!["send-keys", "-X", "history-bottom"]) =~= seq!["send-keys"@, "-X"@, "history-bottom"@]);
    assert(words_view(seq!["send-keys", "-X", "toggle-position"]) =~= seq!["send-keys"@, "-X"@, "toggle-position"@]);
}

/// Part 23 leaves every other key as it was.
proof fn lemma_pass_23(m: Map<(Seq<char>, Seq<char>), BindingView>, k: (Seq<char>, Seq<char>))
    requires
        k != ("copy-mode"@, "C-Up"@) && k != ("copy-mode"@, "C-Down"@) && k != ("copy-mode"@, "M-<"@) && k != ("copy-mode"@, "M->"@) && k != ("copy-mode"@, "P"@),
    ensures
        default_bindings_23(m).contains_key(k) == m.contains_key(k),
        default_bindings_23(m)[k] == m[k],
{
}

/// The bindings part 24 makes, each stated.
proof fn lemma_part_24(m: Map<(Seq<char>, Seq<char>), BindingView>)
    ensures
        ({
        let m2 = default_bindings_24(m);
        &&& m2.contains_key(("copy-mode"@, "g"@))
        &&& m2[("copy-mode"@, "g"@)] == (false, None::<Seq<char>>, seq!["command-prompt"@, "-p"@, "(goto line)"@, "send-keys -X goto-line -- '%%'"@])
        &&& m2.contains_key(("copy-mode"@, "MouseDown1Pane"@))
        &&& m2[("copy-mode"@, "MouseDown1Pane"@)] == (false, None::<Seq<char>>, seq!["select-pane"@])
        &&& m2.contains_key(("copy-mode"@, "DoubleClick1Pane"@))
        &&& m2[("copy-mode"@, "DoubleClick1Pane"@)] == (false, None::<Seq<char>>, seq!["select-pane"@, ";"@, "send-keys"@, "-X"@, "select-word"@, ";"@, "run-shell"@, "-d"@, "0.3"@, ";"@, "send-keys"@, "-X"@, "copy-pipe-and-cancel"@])
        &&& m2.contains_key(("copy-mode"@, "TripleClick1Pane"@))
        &&& m2[("copy-mode"@, "TripleClick1Pane"@)] == (false, None::<Seq<char>>, seq!["select-pane"@, ";"@, "send-keys"@, "-X"@, "select-line"@, ";"@, "run-shell"@, "-d"@, "0.3"@, ";"@, "send-keys"@, "-X"@, "copy-pipe-and-cancel"@])
        &&& m2.contains_key(("copy-mode-vi"@, "/"@))
        &&& m2[("copy-mode-vi"@, "/"@)] == (false, None::<Seq<char>>, seq!["command-prompt"@, "-p"@, "(search down)"@, "send-keys -X search-forward -- '%%'"@])
        }),
{
    let m2 = default_bindings_24(m);
    reveal_strlit("/");
    reveal_strlit("DoubleClick1Pane");
    reveal_strlit("MouseDown1Pane");
    reveal_strlit("TripleClick1Pane");
    reveal_strlit("copy-mode");
    reveal_strlit("copy-mode-vi");
    reveal_strlit("g");
    assert("DoubleClick1Pane"@.len() == 16);
    assert("DoubleClick1Pane"@[0] == 'D');
    assert("MouseDown1Pane"@.len() == 14);
    assert("TripleClick1Pane"@.len() == 16);
    assert("TripleClick1Pane"@[0] == 'T');
    assert("copy-mode"@.len() == 9);
    assert("copy-mode-vi"@.len() == 12);
    assert("g"@.len() == 1);
    assert(words_view(seq!["command-prompt", "-p", "(goto line)", "send-keys -X goto-line -- '%%'"]) =~= seq!["command-prompt"@, "-p"@, "(goto line)"@, "send-keys -X goto-line -- '%%'"@]);
    assert(words_view(seq!["select-pane"]) =~= seq!["select-pane"@]);
    assert(words_view(seq!["select-pane", ";", "send-keys", "-X", "select-word", ";", "run-shell", "-d", "0.3", ";", "send-keys", "-X", "copy-pipe-and-cancel"]) =~= seq!["select-pane"@, ";"@, "send-keys"@, "-X"@, "select-word"@, ";"@, "run-shell"@, "-d"@, "0.3"@, ";"@, "send-keys"@, "-X"@, "copy-pipe-and-cancel"@]);
    assert(words_view(seq!["select-pane", ";", "send-keys", "-X", "select-line", ";", "run-shell", "-d", "0.3", ";", "send-keys", "-X", "copy-pipe-and-cancel"]) =~= seq!["select-pane"@, ";"@, "send-keys"@, "-X"@, "select-line"@, ";"@, "run-shell"@, "-d"@, "0.3"@, ";"@, "send-keys"@, "-X"@, "copy-pipe-and-cancel"@]);
    assert(words_view(seq!["command-prompt", "-p", "(search down)", "send-keys -X search-forward -- '%%'"]) =~= seq!["command-prompt"@, "-p"@, "(search down)"@, "send-keys -X search-forward -- '%%'"@]);
}

/// Part 24 leaves every other key as it was.
proof fn lemma_pass_24(m: Map<(Seq<char>, Seq<char>), BindingView>, k: (Seq<char>, Seq<char>))
    requires
        k != ("copy-mode"@, "g"@) && k != ("copy-mode"@, "MouseDown1Pane"@) && k != ("copy-mode"@, "DoubleClick1Pane"@) && k != ("copy-mode"@, "TripleClick1Pane"@) && k != ("copy-mode-vi"@, "/"@),
    ensures
        default_bindings_24(m).contains_key(k) == m.contains_key(k),
        default_bindings_24(m)[k] == m[k],
{
}

/// The bindings part 25 makes, each stated.
proof fn lemma_part_25(m: Map<(Seq<char>, Seq<char>), BindingView>)
    ensures
        ({
        let m2 = default_bindings_25(m);
        &&& m2.contains_key(("copy-mode-vi"@, "?"@))
        &&& m2[("copy-mode-vi"@, "?"@)] == (false, None::<Seq<char>>, seq!["command-prompt"@, "-p"@, "(search up)"@, "send-keys -X search-backward -- '%%'"@])
        &&& m2.contains_key(("copy-mode-vi"@, "*"@))
        &&& m2[("copy-mode-vi"@, "*"@)] == (false, None::<Seq<char>>, seq!["send-keys"@, "-F"@, "-X"@, "search-forward"@, "--"@, "#{copy_cursor_word}"@])
        &&& m2.contains_key(("copy-mode-vi"@, "#"@))
        &&& m2[("copy-mode-vi"@, "#"@)] == (false, None::<Seq<char>>, seq!["send-keys"@, "-F"@, "-X"@, "search-backward"@, "--"@, "#{copy_cursor_word}"@])
        &&& m2.contains_key(("copy-mode-vi"@, "C-["@))
        &&& m2[("copy-mode-vi"@, "C-["@)] == (false, None::<Seq<char>>, seq!["send-keys"@, "-X"@, "clear-selection"@])
        &&& m2.contains_key(("copy-mode-vi"@, "C-h"@))
        &&& m2[("copy-mode-vi"@, "C-h"@)] == (false, None::<Seq<char>>, seq!["send-keys"@, "-X"@, "cursor-left"@])
        }),
{
    let m2 = default_bindings_25(m);
    reveal_strlit("#");
    reveal_strlit("*");
    reveal_strlit("?");
    reveal_strlit("C-[");
    reveal_strlit("C-h");
    reveal_strlit("copy-mode-vi");
    assert("#"@.len() == 1);
    assert("#"@[0] == '#');
    assert("*"@.len() == 1);
    assert("*"@[0] == '*');
    assert("?"@.len() == 1);
    assert("?"@[0] == '?');
    assert("C-["@.len() == 3);
    assert("C-["@[2] == '[');
    assert("C-h"@.len() == 3);
    assert("C-h"@[2] == 'h');
    assert(words_view(seq!["command-prompt", "-p", "(search up)", "send-keys -X search-backward -- '%%'"]) =~= seq!["command-prompt"@, "-p"@, "(search up)"@, "send-keys -X search-backward -- '%%'"@]);
    assert(words_view(seq!["send-keys", "-F", "-X", "search-forward", "--", "#{copy_cursor_word}"]) =~= seq!["send-keys"@, "-F"@, "-X"@, "search-forward"@, "--"@, "#{copy_cursor_word}"@]);
    assert(words_view(seq!["send-keys", "-F", "-X", "search-backward", "--", "#{copy_cursor_word}"]) =~= seq!["send-keys"@, "-F"@, "-X"@, "search-backward"@, "--"@, "#{copy_cursor_word}"@]);
    assert(words_view(seq!["send-keys", "-X", "clear-selection"]) =~= seq!["send-keys"@, "-X"@, "clear-selection"@]);
    assert(words_view(seq!["send-keys", "-X", "cursor-left"]) =~= seq!["send-keys"@, "-X"@, "cursor-left"@]);
}

/// Part 25 leaves every other key as it was.
proof fn lemma_pass_25(m: Map<(Seq<char>, Seq<char>), BindingView>, k: (Seq<char>, Seq<char>))
    requires
        k != ("copy-mode-vi"@, "?"@) && k != ("copy-mode-vi"@, "*"@) && k != ("copy-mode-vi"@, "#"@) && k != ("copy-mode-vi"@, "C-["@) && k != ("copy-mode-vi"@, "C-h"@),
    ensures
        default_bindings_25(m).contains_key(k) == m.contains_key(k),
        default_bindings_25(m)[k] == m[k],
{
}

/// The bindings part 26 makes, each stated.
proof fn lemma_part_26(m: Map<(Seq<char>, Seq<char>), BindingView>)
    ensures
        ({
        let m2 = default_bindings_26(m);
        &&& m2.contains_key(("copy-mode-vi"@, ":"@))
        &&& m2[("copy-mode-vi"@, ":"@)] == (false, None::<Seq<char>>, seq!["command-prompt"@, "-p"@, "(goto line)"@, "send-keys -X goto-line -- '%%'"@])
        &&& m2.contains_key(("copy-mode-vi"@, "f"@))
        &&& m2[("copy-mode-vi"@, "f"@)] == (false, None::<Seq<char>>, seq!["command-prompt"@, "-1"@, "-p"@, "(jump forward)"@, "send-keys -X jump-forward -- '%%'"@])
        &&& m2.contains_key(("copy-mode-vi"@, "F"@))
        &&& m2[("copy-mode-vi"@, "F"@)] == (false, None::<Seq<char>>, seq!["command-prompt"@, "-1"@, "-p"@, "(jump backward)"@, "send-keys -X jump-backward -- '%%'"@])
        &&& m2.contains_key(("copy-mode-vi"@, "t"@))
        &&& m2[("copy-mode-vi"@, "t"@)] == (false, None::<Seq<char>>, seq!["command-prompt"@, "-1"@, "-p"@, "(jump to forward)"@, "send-keys -X jump-to-forward -- '%%'"@])
        &&& m2.contains_key(("copy-mode-vi"@, "T"@))
        &&& m2[("copy-mode-vi"@, "T"@)] == (false, None::<Seq<char>>, seq!["command-prompt"@, "-1"@, "-p"@, "(jump to backward)"@, "send-keys -X jump-to-backward -- '%%'"@])
        }),
{
    let m2 = default_bindings_26(m);
    reveal_strlit(":");
    reveal_strlit("F");
    reveal_strlit("T");
    reveal_strlit("copy-mode-vi");
    reveal_strlit("f");
    reveal_strlit("t");
    assert(":"@[0] == ':');
    assert("F"@[0] == 'F');
    assert("T"@[0] == 'T');
    assert("f"@[0] == 'f');
    assert("t"@[0] == 't');
    assert(words_view(seq!["command-prompt", "-p", "(goto line)", "send-keys -X goto-line -- '%%'"]) =~= seq!["command-prompt"@, "-p"@, "(goto line)"@, "send-keys -X goto-line -- '%%'"@]);
    assert(words_view(seq!["command-prompt", "-1", "-p", "(jump forward)", "send-keys -X jump-forward -- '%%'"]) =~= seq!["command-prompt"@, "-1"@, "-p"@, "(jump forward)"@, "send-keys -X jump-forward -- '%%'"@]);
    assert(words_view(seq!["command-prompt", "-1", "-p", "(jump backward)", "send-keys -X jump-backward -- '%%'"]) =~= seq!["command-prompt"@, "-1"@, "-p"@, "(jump backward)"@, "send-keys -X jump-backward -- '%%'"@]);
    assert(words_view(seq!["command-prompt", "-1", "-p", "(jump to forward)", "send-keys -X jump-to-forward -- '%%'"]) =~= seq!["command-prompt"@, "-1"@, "-p"@, "(jump to forward)"@, "send-keys -X jump-to-forward -- '%%'"@]);
    assert(words_view(seq!["command-prompt", "-1", "-p", "(jump to backward)", "send-keys -X jump-to-backward -- '%%'"]) =~= seq!["command-prompt"@, "-1"@, "-p"@, "(jump to backward)"@, "send-keys -X jump-to-backward -- '%%'"@]);
}

/// Part 26 leaves every other key as it was.
proof fn lemma_pass_26(m: Map<(Seq<char>, Seq<char>), BindingView>, k: (Seq<char>, Seq<char>))
    requires
        k != ("copy-mode-vi"@, ":"@) && k != ("copy-mode-vi"@, "f"@) && k != ("copy-mode-vi"@, "F"@) && k != ("copy-mode-vi"@, "t"@) && k != ("copy-mode-vi"@, "T"@),
    ensures
        default_bindings_26(m).contains_key(k) == m.contains_key(k),
        default_bindings_26(m)[k] == m[k],
{
}

/// The bindings part 27 makes, each stated.
proof fn lemma_part_27(m: Map<(Seq<char>, Seq<char>), BindingView>)
    ensures
        ({
        let m2 = default_bindings_27(m);
        &&& m2.contains_key(("copy-mode-vi"@, ","@))
        &&& m2[("copy-mode-vi"@, ","@)] == (false, None::<Seq<char>>, seq!["send-keys"@, "-X"@, "jump-reverse"@])
        &&& m2.contains_key(("copy-mode-vi"@, ";"@))
        &&& m2[("copy-mode-vi"@, ";"@)] == (false, None::<Seq<char>>, seq!["send-keys"@, "-X"@, "jump-again"@])
        &&& m2.contains_key(("copy-mode-vi"@, "X"@))
        &&& m2[("copy-mode-vi"@, "X"@)] == (false, None::<Seq<char>>, seq!["send-keys"@, "-X"@, "set-mark"@])
        &&& m2.contains_key(("copy-mode-vi"@, "M-x"@))
        &&& m2[("copy-mode-vi"@, "M-x"@)] == (false, None::<Seq<char>>, seq!["send-keys"@, "-X"@, "jump-to-mark"@])
        &&& m2.contains_key(("copy-mode-vi"@, "P"@))
        &&& m2[("copy-mode-vi"@, "P"@)] == (false, None::<Seq<char>>, seq!["send-keys"@, "-X"@, "toggle-position"@])
        }),
{
    let m2 = default_bindings_27(m);
    reveal_strlit(",");
    reveal_strlit(";");
    reveal_strlit("M-x");
    reveal_strlit("P");
    reveal_strlit("X");
    reveal_strlit("copy-mode-vi");
    assert(","@.len() == 1);
    assert(","@[0] == ',');
    assert(";"@.len() == 1);
    assert(";"@[0] == ';');
    assert("M-x"@.len() == 3);
    assert("P"@.len() == 1);
    assert("P"@[0] == 'P');
    assert("X"@.len() == 1);
    assert("X"@[0] == 'X');
    assert(words_view(seq!["send-keys", "-X", "jump-reverse"]) =~= seq!["send-keys"@, "-X"@, "jump-reverse"@]);
    assert(words_view(seq!["send-keys", "-X", "jump-again"]) =~= seq!["send-keys"@, "-X"@, "jump-again"@]);
    assert(words_view(seq!["send-keys", "-X", "set-mark"]) =~= seq!["send-keys"@, "-X"@, "set-mark"@]);
    assert(words_view(seq!["send-keys", "-X", "jump-to-mark"]) =~= seq!["send-keys"@, "-X"@, "jump-to-mark"@]);
    assert(words_view(seq!["send-keys", "-X", "toggle-position"]) =~= seq!["send-keys"@, "-X"@, "toggle-position"@]);
}

/// Part 27 leaves every other key as it was.
proof fn lemma_pass_27(m: Map<(Seq<char>, Seq<char>), BindingView>, k: (Seq<char>, Seq<char>))
    requires
        k != ("copy-mode-vi"@, ","@) && k != ("copy-mode-vi"@, ";"@) && k != ("copy-mode-vi"@, "X"@) && k != ("copy-mode-vi"@, "M-x"@) && k != ("copy-mode-vi"@, "P"@),
    ensures
        default_bindings_27(m).contains_key(k) == m.contains_key(k),
        default_bindings_27(m)[k] == m[k],
{
}

/// The bindings part 28 makes, each stated.
proof fn lemma_part_28(m: Map<(Seq<char>, Seq<char>), BindingView>)
    ensures
        ({
        let m2 = default_bindings_28(m);
        &&& m2.contains_key(("copy-mode-vi"@, "z"@))
        &&& m2[("copy-mode-vi"@, "z"@)] == (false, None::<Seq<char>>, seq!["send-keys"@, "-X"@, "scroll-middle"@])
        &&& m2.contains_key(("copy-mode-vi"@, "B"@))
        &&& m2[("copy-mode-vi"@, "B"@)] == (false, None::<Seq<char>>, seq!["send-keys"@, "-X"@, "previous-space"@])
        &&& m2.contains_key(("copy-mode-vi"@, "W"@))
        &&& m2[("copy-mode-vi"@, "W"@)] == (false, None::<Seq<char>>, seq!["send-keys"@, "-X"@, "next-space"@])
        &&& m2.contains_key(("copy-mode-vi"@, "E"@))
        &&& m2[("copy-mode-vi"@, "E"@)] == (false, None::<Seq<char>>, seq!["send-keys"@, "-X"@, "next-space-end"@])
        &&& m2.contains_key(("copy-mode-vi"@, "J"@))
        &&& m2[("copy-mode-vi"@, "J"@)] == (false, None::<Seq<char>>, seq!["send-keys"@, "-X"@, "scroll-down"@])
        }),
{
    let m2 = default_bindings_28(m);
    reveal_strlit("B");
    reveal_strlit("E");
    reveal_strlit("J");
    reveal_strlit("W");
    reveal_strlit("copy-mode-vi");
    reveal_strlit("z");
    assert("B"@[0] == 'B');
    assert("E"@[0] == 'E');
    assert("J"@[0] == 'J');
    assert("W"@[0] == 'W');
    assert("z"@[0] == 'z');
    assert(words_view(seq!["send-keys", "-X", "scroll-middle"]) =~= seq!["send-keys"@, "-X"@, "scroll-middle"@]);
    assert(words_view(seq!["send-keys", "-X", "previous-space"]) =~= seq!["send-keys"@, "-X"@, "previous-space"@]);
    assert(words_view(seq!["send-keys", "-X", "next-space"]) =~= seq!["send-keys"@, "-X"@, "next-space"@]);
    assert(words_view(seq!["send-keys", "-X", "next-space-end"]) =~= seq!["send-keys"@, "-X"@, "next-space-end"@]);
    assert(words_view(seq!["send-keys", "-X", "scroll-down"]) =~= seq!["send-keys"@, "-X"@, "scroll-down"@]);
}

/// Part 28 leaves every other key as it was.
proof fn lemma_pass_28(m: Map<(Seq<char>, Seq<char>), BindingView>, k: (Seq<char>, Seq<char>))
    requires
        k != ("copy-mode-vi"@, "z"@) && k != ("copy-mode-vi"@, "B"@) && k != ("copy-mode-vi"@, "W"@) && k != ("copy-mode-vi"@, "E"@) && k != ("copy-mode-vi"@, "J"@),
    ensures
        default_bindings_28(m).contains_key(k) == m.contains_key(k),
        default_bindings_28(m)[k] == m[k],
{
}

/// The bindings part 29 makes, each stated.
proof fn lemma_part_29(m: Map<(Seq<char>, Seq<char>), BindingView>)
    ensures
        ({
        let m2 = default_bindings_29(m);
        &&& m2.contains_key(("copy-mode-vi"@, "K"@))
        &&& m2[("copy-mode-vi"@, "K"@)] == (false, None::<Seq<char>>, seq!["send-keys"@, "-X"@, "scroll-up"@])
        &&& m2.contains_key(("copy-mode-vi"@, "C-v"@))
        &&& m2[("copy-mode-vi"@, "C-v"@)] == (false, None::<Seq<char>>, seq!["send-keys"@, "-X"@, "rectangle-toggle"@])
        &&& m2.contains_key(("copy-mode-vi"@, "Left"@))
        &&& m2[("copy-mode-vi"@, "Left"@)] == (false, None::<Seq<char>>, seq!["send-keys"@, "-X"@, "cursor-left"@])
        &&& m2.contains_key(("copy-mode-vi"@, "Right"@))
        &&& m2[("copy-mode-vi"@, "Right"@)] == (false, None::<Seq<char>>, seq!["send-keys"@, "-X"@, "cursor-right"@])
        &&& m2.contains_key(("copy-mode-vi"@, "C-Up"@))
        &&& m2[("copy-mode-vi"@, "C-Up"@)] == (false, None::<Seq<char>>, seq!["send-keys"@, "-X"@, "scroll-up"@])
        }),
{
    let m2 = default_bindings_29(m);
    reveal_strlit("C-Up");
    reveal_strlit("C-v");
    reveal_strlit("K");
    reveal_strlit("Left");
    reveal_strlit("Right");
    reveal_strlit("copy-mode-vi");
    assert("C-Up"@.len() == 4);
    assert("C-Up"@[0] == 'C');
    assert("C-v"@.len() == 3);
    assert("K"@.len() == 1);
    assert("Left"@.len() == 4);
    assert("Left"@[0] == 'L');
    assert("Right"@.len() == 5);
    assert(words_view(seq!["send-keys", "-X", "scroll-up"]) =~= seq!["send-keys"@, "-X"@, "scroll-up"@]);
    assert(words_view(seq!["send-keys", "-X", "rectangle-toggle"]) =~= seq!["send-keys"@, "-X"@, "rectangle-toggle"@]);
    assert(words_view(seq!["send-keys", "-X", "cursor-left"]) =~= seq!["send-keys"@, "-X"@, "cursor-left"@]);
    assert(words_view(seq!["send-keys", "-X", "cursor-right"]) =~= seq!["send-keys"@, "-X"@, "cursor-right"@]);
    assert(words_view(seq!["send-keys", "-X", "scroll-up"]) =~= seq!["send-keys"@, "-X"@, "scroll-up"@]);
}

/// Part 29 leaves every other key as it was.
proof fn lemma_pass_29(m: Map<(Seq<char>, Seq<char>), BindingView>, k: (Seq<char>, Seq<char>))
    requires
        k != ("copy-mode-vi"@, "K"@) && k != ("copy-mode-vi"@, "C-v"@) && k != ("copy-mode-vi"@, "Left"@) && k != ("copy-mode-vi"@, "Right"@) && k != ("copy-mode-vi"@, "C-Up"@),
    ensures
        default_bindings_29(m).contains_key(k) == m.contains_key(k),
        default_bindings_29(m)[k] == m[k],
{
}

/// The bindings part 30 makes, each stated.
proof fn lemma_part_30(m: Map<(Seq<char>, Seq<char>), BindingView>)
    ensures
        ({
        let m2 = default_bindings_30(m);
        &&& m2.contains_key(("copy-mode-vi"@, "C-Down"@))
        &&& m2[("copy-mode-vi"@, "C-Down"@)] == (false, None::<Seq<char>>, seq!["send-keys"@, "-X"@, "scroll-down"@])
        &&& m2.contains_key(("copy-mode-vi"@, "Home"@))
        &&& m2[("copy-mode-vi"@, "Home"@)] == (false, None::<Seq<char>>, seq!["send-keys"@, "-X"@, "start-of-line"@])
        &&& m2.contains_key(("copy-mode-vi"@, "End"@))
        &&& m2[("copy-mode-vi"@, "End"@)] == (false, None::<Seq<char>>, seq!["send-keys"@, "-X"@, "end-of-line"@])
        &&& m2.contains_key(("copy-mode-vi"@, "BSpace"@))
        &&& m2[("copy-mode-vi"@, "BSpace"@)] == (false, None::<Seq<char>>, seq!["send-keys"@, "-X"@, "cursor-left"@])
        &&& m2.contains_key(("copy-mode-vi"@, "{"@))
        &&& m2[("copy-mode-vi"@, "{"@)] == (false, None::<Seq<char>>, seq!["send-keys"@, "-X"@, "previous-paragraph"@])
        }),
{
    let m2 = default_bindings_30(m);
    reveal_strlit("BSpace");
    reveal_strlit("C-Down");
    reveal_strlit("End");
    reveal_strlit("Home");
    reveal_strlit("copy-mode-vi");
    reveal_strlit("{");
    assert("BSpace"@.len() == 6);
    assert("BSpace"@[0] == 'B');
    assert("C-Down"@.len() == 6);
    assert("C-Down"@[0] == 'C');
    assert("End"@.len() == 3);
    assert("Home"@.len() == 4);
    assert("{"@.len() == 1);
    assert(words_view(seq!["send-keys", "-X", "scroll-down"]) =~= seq!["send-keys"@, "-X"@, "scroll-down"@]);
    assert(words_view(seq!["send-keys", "-X", "start-of-line"]) =~= seq!["send-keys"@, "-X"@, "start-of-line"@]);
    assert(words_view(seq!["send-keys", "-X", "end-of-line"]) =~= seq!["send-keys"@, "-X"@, "end-of-line"@]);
    assert(words_view(seq!["send-keys", "-X", "cursor-left"]) =~= seq!["send-keys"@, "-X"@, "cursor-left"@]);
    assert(words_view(seq!["send-keys", "-X", "previous-paragraph"]) =~= seq!["send-keys"@, "-X"@, "previous-paragraph"@]);
}

/// Part 30 leaves every other key as it was.
proof fn lemma_pass_30(m: Map<(Seq<char>, Seq<char>), BindingView>, k: (Seq<char>, Seq<char>))
    requires
        k != ("copy-mode-vi"@, "C-Down"@) && k != ("copy-mode-vi"@, "Home"@) && k != ("copy-mode-vi"@, "End"@) && k != ("copy-mode-vi"@, "BSpace"@) && k != ("copy-mode-vi"@, "{"@),
    ensures
        default_bindings_30(m).contains_key(k) == m.contains_key(k),
        default_bindings_30(m)[k] == m[k],
{
}

/// The bindings part 31 makes, each stated.
proof fn lemma_part_31(m: Map<(Seq<char>, Seq<char>), BindingView>)
    ensures
        ({
        let m2 = default_bindings_31(m);
        &&& m2.contains_key(("copy-mode-vi"@, "}"@))
        &&& m2[("copy-mode-vi"@, "}"@)] == (false, None::<Seq<char>>, seq!["send-keys"@, "-X"@, "next-paragraph"@])
        &&& m2.contains_key(("copy-mode-vi"@, "C-j"@))
        &&& m2[("copy-mode-vi"@, "C-j"@)] == (false, None::<Seq<char>>, seq!["send-keys"@, "-X"@, "copy-pipe-and-cancel"@])
        &&& m2.contains_key(("copy-mode-vi"@, "D"@))
        &&& m2[("copy-mode-vi"@, "D"@)] == (false, None::<Seq<char>>, seq!["send-keys"@, "-X"@, "copy-pipe-end-of-line-and-cancel"@])
        &&& m2.contains_key(("copy-mode-vi"@, "A"@))
        &&& m2[("copy-mode-vi"@, "A"@)] == (false, None::<Seq<char>>, seq!["send-keys"@, "-X"@, "append-selection-and-cancel"@])
        &&& m2.contains_key(("copy-mode"@, "Left"@))
        &&& m2[("copy-mode"@, "Left"@)] == (false, None::<Seq<char>>, seq!["send-keys"@, "-X"@, "cursor-left"@])
        }),
{
    let m2 = default_bindings_31(m);
    reveal_strlit("A");
    reveal_strlit("C-j");
    reveal_strlit("D");
    reveal_strlit("Left");
    reveal_strlit("copy-mode");
    reveal_strlit("copy-mode-vi");
    reveal_strlit("}");
    assert("A"@.len() == 1);
    assert("A"@[0] == 'A');
    assert("C-j"@.len() == 3);
    assert("D"@.len() == 1);
    assert("D"@[0] == 'D');
    assert("copy-mode"@.len() == 9);
    assert("copy-mode-vi"@.len() == 12);
    assert("}"@.len() == 1);
    assert("}"@[0] == '}');
    assert(words_view(seq!["send-keys", "-X", "next-paragraph"]) =~= seq!["send-keys"@, "-X"@, "next-paragraph"@]);
    assert(words_view(seq!["send-keys", "-X", "copy-pipe-and-cancel"]) =~= seq!["send-keys"@, "-X"@, "copy-pipe-and-cancel"@]);
    assert(words_view(seq!["send-keys", "-X", "copy-pipe-end-of-line-and-cancel"]) =~= seq!["send-keys"@, "-X"@, "copy-pipe-end-of-line-and-cancel"@]);
    assert(words_view(seq!["send-keys", "-X", "append-selection-and-cancel"]) =~= seq!["send-keys"@, "-X"@, "append-selection-and-cancel"@]);
    assert(words_view(seq!["send-keys", "-X", "cursor-left"]) =~= seq!["send-keys"@, "-X"@, "cursor-left"@]);
}

/// Part 31 leaves every other key as it was.
proof fn lemma_pass_31(m: Map<(Seq<char>, Seq<char>), BindingView>, k: (Seq<char>, Seq<char>))
    requires
        k != ("copy-mode-vi"@, "}"@) && k != ("copy-mode-vi"@, "C-j"@) && k != ("copy-mode-vi"@, "D"@) && k != ("copy-mode-vi"@, "A"@) && k != ("copy-mode"@, "Left"@),
    ensures
        default_bindings_31(m).contains_key(k) == m.contains_key(k),
        default_bindings_31(m)[k] == m[k],
{
}

/// The bindings part 32 makes, each stated.
proof fn lemma_part_32(m: Map<(Seq<char>, Seq<char>), BindingView>)
    ensures
        ({
        let m2 = default_bindings_32(m);
        &&& m2.contains_key(("copy-mode"@, "Right"@))
        &&& m2[("copy-mode"@, "Right"@)] == (false, None::<Seq<char>>, seq!["send-keys"@, "-X"@, "cursor-right"@])
        &&& m2.contains_key(("copy-mode"@, "M-R"@))
        &&& m2[("copy-mode"@, "M-R"@)] == (false, None::<Seq<char>>, seq!["send-keys"@, "-X"@, "top-line"@])
        &&& m2.contains_key(("copy-mode"@, "M-r"@))
        &&& m2[("copy-mode"@, "M-r"@)] == (false, None::<Seq<char>>, seq!["send-keys"@, "-X"@, "middle-line"@])
        &&& m2.contains_key(("copy-mode"@, "C-M-b"@))
        &&& m2[("copy-mode"@, "C-M-b"@)] == (false, None::<Seq<char>>, seq!["send-keys"@, "-X"@, "previous-matching-bracket"@])
        &&& m2.contains_key(("copy-mode"@, "C-M-f"@))
        &&& m2[("copy-mode"@, "C-M-f"@)] == (false, None::<Seq<char>>, seq!["send-keys"@, "-X"@, "next-matching-bracket"@])
        }),
{
    let m2 = default_bindings_32(m);
    reveal_strlit("C-M-b");
    reveal_strlit("C-M-f");
    reveal_strlit("M-R");
    reveal_strlit("M-r");
    reveal_strlit("Right");
    reveal_strlit("copy-mode");
    assert("C-M-b"@.len() == 5);
    assert("C-M-b"@[0] == 'C');
    assert("C-M-b"@[4] == 'b');
    assert("C-M-f"@.len() == 5);
    assert("C-M-f"@[0] == 'C');
    assert("C-M-f"@[4] == 'f');
    assert("M-R"@.len() == 3);
    assert("M-R"@[2] == 'R');
    assert("M-r"@.len() == 3);
    assert("M-r"@[2] == 'r');
    assert("Right"@.len() == 5);
    assert("Right"@[0] == 'R');
    assert(words_view(seq!["send-keys", "-X", "cursor-right"]) =~= seq!["send-keys"@, "-X"@, "cursor-right"@]);
    assert(words_view(seq!["send-keys", "-X", "top-line"]) =~= seq!["send-keys"@, "-X"@, "top-line"@]);
    assert(words_view(seq!["send-keys", "-X", "middle-line"]) =~= seq!["send-keys"@, "-X"@, "middle-line"@]);
    assert(words_view(seq!["send-keys", "-X", "previous-matching-bracket"]) =~= seq!["send-keys"@, "-X"@, "previous-matching-bracket"@]);
    assert(words_view(seq!["send-keys", "-X", "next-matching-bracket"]) =~= seq!["send-keys"@, "-X"@, "next-matching-bracket"@]);
}

/// Part 32 leaves every other key as it was.
proof fn lemma_pass_32(m: Map<(Seq<char>, Seq<char>), BindingView>, k: (Seq<char>, Seq<char>))
    requires
        k != ("copy-mode"@, "Right"@) && k != ("copy-mode"@, "M-R"@) && k != ("copy-mode"@, "M-r"@) && k != ("copy-mode"@, "C-M-b"@) && k != ("copy-mode"@, "C-M-f"@),
    ensures
        default_bindings_32(m).contains_key(k) == m.contains_key(k),
        default_bindings_32(m)[k] == m[k],
{
}

/// The bindings part 33 makes, each stated.
proof fn lemma_part_33(m: Map<(Seq<char>, Seq<char>), BindingView>)
    ensures
        ({
        let m2 = default_bindings_33(m);
        &&& m2.contains_key(("copy-mode"@, "M-{"@))
        &&& m2[("copy-mode"@, "M-{"@)] == (false, None::<Seq<char>>, seq!["send-keys"@, "-X"@, "previous-paragraph"@])
        &&& m2.contains_key(("copy-mode"@, "M-}"@))
        &&& m2[("copy-mode"@, "M-}"@)] == (false, None::<Seq<char>>, seq!["send-keys"@, "-X"@, "next-paragraph"@])
        &&& m2.contains_key(("copy-mode"@, "C-k"@))
        &&& m2[("copy-mode"@, "C-k"@)] == (false, None::<Seq<char>>, seq!["send-keys"@, "-X"@, "copy-pipe-end-of-line-and-cancel"@])
        &&& m2.contains_key(("copy-mode"@, "C-w"@))
        &&& m2[("copy-mode"@, "C-w"@)] == (false, None::<Seq<char>>, seq!["send-keys"@, "-X"@, "copy-pipe-and-cancel"@])
        &&& m2.contains_key(("copy-mode"@, "M-w"@))
        &&& m2[("copy-mode"@, "M-w"@)] == (false, None::<Seq<char>>, seq!["send-keys"@, "-X"@, "copy-pipe-and-cancel"@])
        }),
{
    let m2 = default_bindings_33(m);
    reveal_strlit("C-k");
    reveal_strlit("C-w");
    reveal_strlit("M-w");
    reveal_strlit("M-{");
    reveal_strlit("M-}");
    reveal_strlit("copy-mode");
    assert("C-k"@[0] == 'C');
    assert("C-k"@[2] == 'k');
    assert("C-w"@[0] == 'C');
    assert("C-w"@[2] == 'w');
    assert("M-w"@[0] == 'M');
    assert("M-w"@[2] == 'w');
    assert("M-{"@[0] == 'M');
    assert("M-{"@[2] == '{');
    assert("M-}"@[0] == 'M');
    assert("M-}"@[2] == '}');
    assert(words_view(seq!["send-keys", "-X", "previous-paragraph"]) =~= seq!["send-keys"@, "-X"@, "previous-paragraph"@]);
    assert(words_view(seq!["send-keys", "-X", "next-paragraph"]) =~= seq!["send-keys"@, "-X"@, "next-paragraph"@]);
    assert(words_view(seq!["send-keys", "-X", "copy-pipe-end-of-line-and-cancel"]) =~= seq!["send-keys"@, "-X"@, "copy-pipe-end-of-line-and-cancel"@]);
    assert(words_view(seq!["send-keys", "-X", "copy-pipe-and-cancel"]) =~= seq!["send-keys"@, "-X"@, "copy-pipe-and-cancel"@]);
    assert(words_view(seq!["send-keys", "-X", "copy-pipe-and-cancel"]) =~= seq!["send-keys"@, "-X"@, "copy-pipe-and-cancel"@]);
}

/// Part 33 leaves every other key as it was.
proof fn lemma_pass_33(m: Map<(Seq<char>, Seq<char>), BindingView>, k: (Seq<char>, Seq<char>))
    requires
        k != ("copy-mode"@, "M-{"@) && k != ("copy-mode"@, "M-}"@) && k != ("copy-mode"@, "C-k"@) && k != ("copy-mode"@, "C-w"@) && k != ("copy-mode"@, "M-w"@),
    ensures
        default_bindings_33(m).contains_key(k) == m.contains_key(k),
        default_bindings_33(m)[k] == m[k],
{
}

/// The bindings part 34 makes, each stated.
proof fn lemma_part_34(m: Map<(Seq<char>, Seq<char>), BindingView>)
    ensures
        ({
        let m2 = default_bindings_34(m);
        &&& m2.contains_key(("copy-mode-vi"@, "MouseDrag1Pane"@))
        &&& m2[("copy-mode-vi"@, "MouseDrag1Pane"@)] == (false, None::<Seq<char>>, seq!["select-pane"@, ";"@, "send-keys"@, "-X"@, "begin-selection"@])
        &&& m2.contains_key(("copy-mode-vi"@, "MouseDown1Pane"@))
        &&& m2[("copy-mode-vi"@, "MouseDown1Pane"@)] == (false, None::<Seq<char>>, seq!["select-pane"@])
        &&& m2.contains_key(("copy-mode-vi"@, "DoubleClick1Pane"@))
        &&& m2[("copy-mode-vi"@, "DoubleClick1Pane"@)] == (false, None::<Seq<char>>, seq!["select-pane"@, ";"@, "send-keys"@, "-X"@, "select-word"@, ";"@, "run-shell"@, "-d"@, "0.3"@, ";"@, "send-keys"@, "-X"@, "copy-pipe-and-cancel"@])
        &&& m2.contains_key(("copy-mode-vi"@, "TripleClick1Pane"@))
        &&& m2[("copy-mode-vi"@, "TripleClick1Pane"@)] == (false, None::<Seq<char>>, seq!["select-pane"@, ";"@, "send-keys"@, "-X"@, "select-line"@, ";"@, "run-shell"@, "-d"@, "0.3"@, ";"@, "send-keys"@, "-X"@, "copy-pipe-and-cancel"@])
        &&& m2.contains_key(("copy-mode-vi"@, "MouseDragEnd1Pane"@))
        &&& m2[("copy-mode-vi"@, "MouseDragEnd1Pane"@)] == (false, None::<Seq<char>>, seq!["send-keys"@, "-X"@, "copy-pipe-and-cancel"@])
        }),
{
    let m2 = default_bindings_34(m);
    reveal_strlit("DoubleClick1Pane");
    reveal_strlit("MouseDown1Pane");
    reveal_strlit("MouseDrag1Pane");
    reveal_strlit("MouseDragEnd1Pane");
    reveal_strlit("TripleClick1Pane");
    reveal_strlit("copy-mode-vi");
    assert("DoubleClick1Pane"@.len() == 16);
    assert("DoubleClick1Pane"@[0] == 'D');
    assert("MouseDown1Pane"@.len() == 14);
    assert("MouseDown1Pane"@[6] == 'o');
    assert("MouseDrag1Pane"@.len() == 14);
    assert("MouseDrag1Pane"@[6] == 'r');
    assert("MouseDragEnd1Pane"@.len() == 17);
    assert("TripleClick1Pane"@.len() == 16);
    assert("TripleClick1Pane"@[0] == 'T');
    assert(words_view(seq!["select-pane", ";", "send-keys", "-X", "begin-selection"]) =~= seq!["select-pane"@, ";"@, "send-keys"@, "-X"@, "begin-selection"@]);
    assert(words_view(seq!["select-pane"]) =~= seq!["select-pane"@]);
    assert(words_view(seq!["select-pane", ";", "send-keys", "-X", "select-word", ";", "run-shell", "-d", "0.3", ";", "send-keys", "-X", "copy-pipe-and-cancel"]) =~= seq!["select-pane"@, ";"@, "send-keys"@, "-X"@, "select-word"@, ";"@, "run-shell"@, "-d"@, "0.3"@, ";"@, "send-keys"@, "-X"@, "copy-pipe-and-cancel"@]);
    assert(words_view(seq!["select-pane", ";", "send-keys", "-X", "select-line", ";", "run-shell", "-d", "0.3", ";", "send-keys", "-X", "copy-pipe-and-cancel"]) =~= seq!["select-pane"@, ";"@, "send-keys"@, "-X"@, "select-line"@, ";"@, "run-shell"@, "-d"@, "0.3"@, ";"@, "send-keys"@, "-X"@, "copy-pipe-and-cancel"@]);
    assert(words_view(seq!["send-keys", "-X", "copy-pipe-and-cancel"]) =~= seq!["send-keys"@, "-X"@, "copy-pipe-and-cancel"@]);
}

/// Part 34 leaves every other key as it was.
proof fn lemma_pass_34(m: Map<(Seq<char>, Seq<char>), BindingView>, k: (Seq<char>, Seq<char>))
    requires
        k != ("copy-mode-vi"@, "MouseDrag1Pane"@) && k != ("copy-mode-vi"@, "MouseDown1Pane"@) && k != ("copy-mode-vi"@, "DoubleClick1Pane"@) && k != ("copy-mode-vi"@, "TripleClick1Pane"@) && k != ("copy-mode-vi"@, "MouseDragEnd1Pane"@),
    ensures
        default_bindings_34(m).contains_key(k) == m.contains_key(k),
        default_bindings_34(m)[k] == m[k],
{
}

/// The bindings part 35 makes, each stated.
proof fn lemma_part_35(m: Map<(Seq<char>, Seq<char>), BindingView>)
    ensures
        ({
        let m2 = default_bindings_35(m);
        &&& m2.contains_key(("copy-mode-vi"@, "WheelUpPane"@))
        &&& m2[("copy-mode-vi"@, "WheelUpPane"@)] == (false, None::<Seq<char>>, seq!["select-pane"@, ";"@, "send-keys"@, "-N5"@, "-X"@, "scroll-up"@])
        &&& m2.contains_key(("copy-mode-vi"@, "WheelDownPane"@))
        &&& m2[("copy-mode-vi"@, "WheelDownPane"@)] == (false, None::<Seq<char>>, seq!["select-pane"@, ";"@, "send-keys"@, "-N5"@, "-X"@, "scroll-down"@])
        }),
{
    let m2 = default_bindings_35(m);
    reveal_strlit("WheelDownPane");
    reveal_strlit("WheelUpPane");
    reveal_strlit("copy-mode-vi");
    assert("WheelDownPane"@.len() == 13);
    assert("WheelUpPane"@.len() == 11);
    assert(words_view(seq!["select-pane", ";", "send-keys", "-N5", "-X", "scroll-up"]) =~= seq!["select-pane"@, ";"@, "send-keys"@, "-N5"@, "-X"@, "scroll-up"@]);
    assert(words_view(seq!["select-pane", ";", "send-keys", "-N5", "-X", "scroll-down"]) =~= seq!["select-pane"@, ";"@, "send-keys"@, "-N5"@, "-X"@, "scroll-down"@]);
}

/// Part 35 leaves every other key as it was.
proof fn lemma_pass_35(m: Map<(Seq<char>, Seq<char>), BindingView>, k: (Seq<char>, Seq<char>))
    requires
        k != ("copy-mode-vi"@, "WheelUpPane"@) && k != ("copy-mode-vi"@, "WheelDownPane"@),
    ensures
        default_bindings_35(m).contains_key(k) == m.contains_key(k),
        default_bindings_35(m)[k] == m[k],
{
}

/// Default bindings: `MouseDown1Pane` in `root` runs `select-pane -t = ; send-keys -M`; `MouseDrag1Pane` in `root` runs `copy-mode -M`; `WheelUpPane` in `root` runs `copy-mode -e`; `DoubleClick1Pane` in `root` runs `copy-mode -H ; send-keys -X select-word ; run-shell -d 0.3 ; send-keys -X copy-pipe-and-cancel`; `TripleClick1Pane` in `root` runs `copy-mode -H ; send-keys -X select-line ; run-shell -d 0.3 ; send-keys -X copy-pipe-and-cancel`.
pub proof fn lemma_defaults_1(m: Map<(Seq<char>, Seq<char>), BindingView>)
    ensures
        default_key_tables(m).contains_key(("root"@, "MouseDown1Pane"@)),
        default_key_tables(m)[("root"@, "MouseDown1Pane"@)] == (false, None::<Seq<char>>, seq!["select-pane"@, "-t"@, "="@, ";"@, "send-keys"@, "-M"@]),
        default_key_tables(m).contains_key(("root"@, "MouseDrag1Pane"@)),
        default_key_tables(m)[("root"@, "MouseDrag1Pane"@)] == (false, None::<Seq<char>>, seq!["copy-mode"@, "-M"@]),
        default_key_tables(m).contains_key(("root"@, "WheelUpPane"@)),
        default_key_tables(m)[("root"@, "WheelUpPane"@)] == (false, None::<Seq<char>>, seq!["copy-mode"@, "-e"@]),
        default_key_tables(m).contains_key(("root"@, "DoubleClick1Pane"@)),
        default_key_tables(m)[("root"@, "DoubleClick1Pane"@)] == (false, None::<Seq<char>>, seq!["copy-mode"@, "-H"@, ";"@, "send-keys"@, "-X"@, "select-word"@, ";"@, "run-shell"@, "-d"@, "0.3"@, ";"@, "send-keys"@, "-X"@, "copy-pipe-and-cancel"@]),
        default_key_tables(m).contains_key(("root"@, "TripleClick1Pane"@)),
        default_key_tables(m)[("root"@, "TripleClick1Pane"@)] == (false, None::<Seq<char>>, seq!["copy-mode"@, "-H"@, ";"@, "send-keys"@, "-X"@, "select-line"@, ";"@, "run-shell"@, "-d"@, "0.3"@, ";"@, "send-keys"@, "-X"@, "copy-pipe-and-cancel"@]),
{
    reveal_strlit("\"");
    reveal_strlit("#");
    reveal_strlit("$");
    reveal_strlit("%");
    reveal_strlit("&");
    reveal_strlit("*");
    reveal_strlit(",");
    reveal_strlit("/");
    reveal_strlit("0");
    reveal_strlit("0x5e");
    reveal_strlit(":");
    reveal_strlit(";");
    reveal_strlit("?");
    reveal_strlit("A");
    reveal_strlit("B");
    reveal_strlit("BSpace");
    reveal_strlit("C-Down");
    reveal_strlit("C-M-b");
    reveal_strlit("C-M-f");
    reveal_strlit("C-Space");
    reveal_strlit("C-Up");
    reveal_strlit("C-[");
    reveal_strlit("C-a");
    reveal_strlit("C-b");
    reveal_strlit("C-c");
    reveal_strlit("C-d");
    reveal_strlit("C-e");
    reveal_strlit("C-f");
    reveal_strlit("C-g");
    reveal_strlit("C-h");
    reveal_strlit("C-j");
    reveal_strlit("C-k");
    reveal_strlit("C-l");
    reveal_strlit("C-n");
    reveal_strlit("C-p");
    reveal_strlit("C-r");
    reveal_strlit("C-s");
    reveal_strlit("C-u");
    reveal_strlit("C-v");
    reveal_strlit("C-w");
    reveal_strlit("C-y");
    reveal_strlit("C-z");
    reveal_strlit("D");
    reveal_strlit("DoubleClick1Pane");
    reveal_strlit("Down");
    reveal_strlit("E");
    reveal_strlit("End");
    reveal_strlit("Enter");
    reveal_strlit("Escape");
    reveal_strlit("F");
    reveal_strlit("G");
    reveal_strlit("H");
    reveal_strlit("Home");
    reveal_strlit("J");
    reveal_strlit("K");
    reveal_strlit("L");
    reveal_strlit("Left");
    reveal_strlit("M");
    reveal_strlit("M-<");
    reveal_strlit("M->");
    reveal_strlit("M-Down");
    reveal_strlit("M-R");
    reveal_strlit("M-Up");
    reveal_strlit("M-b");
    reveal_strlit("M-f");
    reveal_strlit("M-l");
    reveal_strlit("M-m");
    reveal_strlit("M-r");
    reveal_strlit("M-v");
    reveal_strlit("M-w");
    reveal_strlit("M-x");
    reveal_strlit("M-{");
    reveal_strlit("M-}");
    reveal_strlit("MouseDown1Pane");
    reveal_strlit("MouseDown1ScrollbarDown");
    reveal_strlit("MouseDown1ScrollbarUp");
    reveal_strlit("MouseDrag1Pane");
    reveal_strlit("MouseDrag1ScrollbarSlider");
    reveal_strlit("MouseDragEnd1Pane");
    reveal_strlit("N");
    reveal_strlit("NPage");
    reveal_strlit("P");
    reveal_strlit("PPage");
    reveal_strlit("R");
    reveal_strlit("Right");
    reveal_strlit("Space");
    reveal_strlit("T");
    reveal_strlit("TripleClick1Pane");
    reveal_strlit("Up");
    reveal_strlit("V");
    reveal_strlit("W");
    reveal_strlit("WheelDownPane");
    reveal_strlit("WheelUpPane");
    reveal_strlit("X");
    reveal_strlit("[");
    reveal_strlit("b");
    reveal_strlit("c");
    reveal_strlit("copy-mode");
    reveal_strlit("copy-mode-vi");
    reveal_strlit("d");
    reveal_strlit("e");
    reveal_strlit("f");
    reveal_strlit("g");
    reveal_strlit("h");
    reveal_strlit("j");
    reveal_strlit("k");
    reveal_strlit("l");
    reveal_strlit("n");
    reveal_strlit("o");
    reveal_strlit("p");
    reveal_strlit("prefix");
    reveal_strlit("q");
    reveal_strlit("r");
    reveal_strlit("root");
    reveal_strlit("t");
    reveal_strlit("v");
    reveal_strlit("w");
    reveal_strlit("x");
    reveal_strlit("z");
    reveal_strlit("{");
    reveal_strlit("}");
    assert("DoubleClick1Pane"@.len() == 16);
    assert("DoubleClick1Pane"@[0] == 'D');
    assert("DoubleClick1Pane"@[1] == 'o');
    assert("DoubleClick1Pane"@[2] == 'u');
    assert("MouseDown1Pane"@.len() == 14);
    assert("MouseDown1Pane"@[0] == 'M');
    assert("MouseDown1Pane"@[1] == 'o');
    assert("MouseDown1Pane"@[2] == 'u');
    assert("MouseDown1ScrollbarDown"@.len() == 23);
    assert("MouseDown1ScrollbarUp"@.len() == 21);
    assert("MouseDrag1Pane"@.len() == 14);
    assert("MouseDrag1Pane"@[0] == 'M');
    assert("MouseDrag1Pane"@[1] == 'o');
    assert("MouseDrag1Pane"@[2] == 'u');
    assert("MouseDrag1ScrollbarSlider"@.len() == 25);
    assert("TripleClick1Pane"@.len() == 16);
    assert("TripleClick1Pane"@[0] == 'T');
    assert("TripleClick1Pane"@[1] == 'r');
    assert("TripleClick1Pane"@[2] == 'i');
    assert("WheelUpPane"@.len() == 11);
    assert("WheelUpPane"@[0] == 'W');
    assert("WheelUpPane"@[1] == 'h');
    assert("WheelUpPane"@[2] == 'e');
    assert("copy-mode"@.len() == 9);
    assert("copy-mode-vi"@.len() == 12);
    assert("prefix"@.len() == 6);
    assert("root"@.len() == 4);
    let m0 = m;
    let m1 = default_bindings_1(m0);
    let m2 = default_bindings_2(m1);
    let m3 = default_bindings_3(m2);
    let m4 = default_bindings_4(m3);
    let m5 = default_bindings_5(m4);
    let m6 = default_bindings_6(m5);
    let m7 = default_bindings_7(m6);
    let m8 = default_bindings_8(m7);
    let m9 = default_bindings_9(m8);
    let m10 = default_bindings_10(m9);
    let m11 = default_bindings_11(m10);
    let m12 = default_bindings_12(m11);
    let m13 = default_bindings_13(m12);
    let m14 = default_bindings_14(m13);
    let m15 = default_bindings_15(m14);
    let m16 = default_bindings_16(m15);
    let m17 = default_bindings_17(m16);
    let m18 = default_bindings_18(m17);
    let m19 = default_bindings_19(m18);
    let m20 = default_bindings_20(m19);
    let m21 = default_bindings_21(m20);
    let m22 = default_bindings_22(m21);
    let m23 = default_bindings_23(m22);
    let m24 = default_bindings_24(m23);
    let m25 = default_bindings_25(m24);
    let m26 = default_bindings_26(m25);
    let m27 = default_bindings_27(m26);
    let m28 = default_bindings_28(m27);
    let m29 = default_bindings_29(m28);
    let m30 = default_bindings_30(m29);
    let m31 = default_bindings_31(m30);
    let m32 = default_bindings_32(m31);
    let m33 = default_bindings_33(m32);
    let m34 = default_bindings_34(m33);
    let m35 = default_bindings_35(m34);
    lemma_part_1(m0);
    lemma_pass_2(m1, ("root"@, "MouseDown1Pane"@));
    lemma_pass_2(m1, ("root"@, "MouseDrag1Pane"@));
    lemma_pass_2(m1, ("root"@, "WheelUpPane"@));
    lemma_pass_2(m1, ("root"@, "DoubleClick1Pane"@));
    lemma_pass_2(m1, ("root"@, "TripleClick1Pane"@));
    lemma_pass_3(m2, ("root"@, "MouseDown1Pane"@));
    lemma_pass_3(m2, ("root"@, "MouseDrag1Pane"@));
    lemma_pass_3(m2, ("root"@, "WheelUpPane"@));
    lemma_pass_3(m2, ("root"@, "DoubleClick1Pane"@));
    lemma_pass_3(m2, ("root"@, "TripleClick1Pane"@));
    lemma_pass_4(m3, ("root"@, "MouseDown1Pane"@));
    lemma_pass_4(m3, ("root"@, "MouseDrag1Pane"@));
    lemma_pass_4(m3, ("root"@, "WheelUpPane"@));
    lemma_pass_4(m3, ("root"@, "DoubleClick1Pane"@));
    lemma_pass_4(m3, ("root"@, "TripleClick1Pane"@));
    lemma_pass_5(m4, ("root"@, "MouseDown1Pane"@));
    lemma_pass_5(m4, ("root"@, "MouseDrag1Pane"@));
    lemma_pass_5(m4, ("root"@, "WheelUpPane"@));
    lemma_pass_5(m4, ("root"@, "DoubleClick1Pane"@));
    lemma_pass_5(m4, ("root"@, "TripleClick1Pane"@));
    lemma_pass_6(m5, ("root"@, "MouseDown1Pane"@));
    lemma_pass_6(m5, ("root"@, "MouseDrag1Pane"@));
    lemma_pass_6(m5, ("root"@, "WheelUpPane"@));
    lemma_pass_6(m5, ("root"@, "DoubleClick1Pane"@));
    lemma_pass_6(m5, ("root"@, "TripleClick1Pane"@));
    lemma_pass_7(m6, ("root"@, "MouseDown1Pane"@));
    lemma_pass_7(m6, ("root"@, "MouseDrag1Pane"@));
    lemma_pass_7(m6, ("root"@, "WheelUpPane"@));
    lemma_pass_7(m6, ("root"@, "DoubleClick1Pane"@));
    lemma_pass_7(m6, ("root"@, "TripleClick1Pane"@));
    lemma_pass_8(m7, ("root"@, "MouseDown1Pane"@));
    lemma_pass_8(m7, ("root"@, "MouseDrag1Pane"@));
    lemma_pass_8(m7, ("root"@, "WheelUpPane"@));
    lemma_pass_8(m7, ("root"@, "DoubleClick1Pane"@));
    lemma_pass_8(m7, ("root"@, "TripleClick1Pane"@));
    lemma_pass_9(m8, ("root"@, "MouseDown1Pane"@));
    lemma_pass_9(m8, ("root"@, "MouseDrag1Pane"@));
    lemma_pass_9(m8, ("root"@, "WheelUpPane"@));
    lemma_pass_9(m8, ("root"@, "DoubleClick1Pane"@));
    lemma_pass_9(m8, ("root"@, "TripleClick1Pane"@));
    lemma_pass_10(m9, ("root"@, "MouseDown1Pane"@));
    lemma_pass_10(m9, ("root"@, "MouseDrag1Pane"@));
    lemma_pass_10(m9, ("root"@, "WheelUpPane"@));
    lemma_pass_10(m9, ("root"@, "DoubleClick1Pane"@));
    lemma_pass_10(m9, ("root"@, "TripleClick1Pane"@));
    lemma_pass_11(m10, ("root"@, "MouseDown1Pane"@));
    lemma_pass_11(m10, ("root"@, "MouseDrag1Pane"@));
    lemma_pass_11(m10, ("root"@, "WheelUpPane"@));
    lemma_pass_11(m10, ("root"@, "DoubleClick1Pane"@));
    lemma_pass_11(m10, ("root"@, "TripleClick1Pane"@));
    lemma_pass_12(m11, ("root"@, "MouseDown1Pane"@));
    lemma_pass_12(m11, ("root"@, "MouseDrag1Pane"@));
    lemma_pass_12(m11, ("root"@, "WheelUpPane"@));
    lemma_pass_12(m11, ("root"@, "DoubleClick1Pane"@));
    lemma_pass_12(m11, ("root"@, "TripleClick1Pane"@));
    lemma_pass_13(m12, ("root"@, "MouseDown1Pane"@));
    lemma_pass_13(m12, ("root"@, "MouseDrag1Pane"@));
    lemma_pass_13(m12, ("root"@, "WheelUpPane"@));
    lemma_pass_13(m12, ("root"@, "DoubleClick1Pane"@));
    lemma_pass_13(m12, ("root"@, "TripleClick1Pane"@));
    lemma_pass_14(m13, ("root"@, "MouseDown1Pane"@));
    lemma_pass_14(m13, ("root"@, "MouseDrag1Pane"@));
    lemma_pass_14(m13, ("root"@, "WheelUpPane"@));
    lemma_pass_14(m13, ("root"@, "DoubleClick1Pane"@));
    lemma_pass_14(m13, ("root"@, "TripleClick1Pane"@));
    lemma_pass_15(m14, ("root"@, "MouseDown1Pane"@));
    lemma_pass_15(m14, ("root"@, "MouseDrag1Pane"@));
    lemma_pass_15(m14, ("root"@, "WheelUpPane"@));
    lemma_pass_15(m14, ("root"@, "DoubleClick1Pane"@));
    lemma_pass_15(m14, ("root"@, "TripleClick1Pane"@));
    lemma_pass_16(m15, ("root"@, "MouseDown1Pane"@));
    lemma_pass_16(m15, ("root"@, "MouseDrag1Pane"@));
    lemma_pass_16(m15, ("root"@, "WheelUpPane"@));
    lemma_pass_16(m15, ("root"@, "DoubleClick1Pane"@));
    lemma_pass_16(m15, ("root"@, "TripleClick1Pane"@));
    lemma_pass_17(m16, ("root"@, "MouseDown1Pane"@));
    lemma_pass_17(m16, ("root"@, "MouseDrag1Pane"@));
    lemma_pass_17(m16, ("root"@, "WheelUpPane"@));
    lemma_pass_17(m16, ("root"@, "DoubleClick1Pane"@));
    lemma_pass_17(m16, ("root"@, "TripleClick1Pane"@));
    lemma_pass_18(m17, ("root"@, "MouseDown1Pane"@));
    lemma_pass_18(m17, ("root"@, "MouseDrag1Pane"@));
    lemma_pass_18(m17, ("root"@, "WheelUpPane"@));
    lemma_pass_18(m17, ("root"@, "DoubleClick1Pane"@));
    lemma_pass_18(m17, ("root"@, "TripleClick1Pane"@));
    lemma_pass_19(m18, ("root"@, "MouseDown1Pane"@));
    lemma_pass_19(m18, ("root"@, "MouseDrag1Pane"@));
    lemma_pass_19(m18, ("root"@, "WheelUpPane"@));
    lemma_pass_19(m18, ("root"@, "DoubleClick1Pane"@));
    lemma_pass_19(m18, ("root"@, "TripleClick1Pane"@));
    lemma_pass_20(m19, ("root"@, "MouseDown1Pane"@));
    lemma_pass_20(m19, ("root"@, "MouseDrag1Pane"@));
    lemma_pass_20(m19, ("root"@, "WheelUpPane"@));
    lemma_pass_20(m19, ("root"@, "DoubleClick1Pane"@));
    lemma_pass_20(m19, ("root"@, "TripleClick1Pane"@));
    lemma_pass_21(m20, ("root"@, "MouseDown1Pane"@));
    lemma_pass_21(m20, ("root"@, "MouseDrag1Pane"@));
    lemma_pass_21(m20, ("root"@, "WheelUpPane"@));
    lemma_pass_21(m20, ("root"@, "DoubleClick1Pane"@));
    lemma_pass_21(m20, ("root"@, "TripleClick1Pane"@));
    lemma_pass_22(m21, ("root"@, "MouseDown1Pane"@));
    lemma_pass_22(m21, ("root"@, "MouseDrag1Pane"@));
    lemma_pass_22(m21, ("root"@, "WheelUpPane"@));
    lemma_pass_22(m21, ("root"@, "DoubleClick1Pane"@));
    lemma_pass_22(m21, ("root"@, "TripleClick1Pane"@));
    lemma_pass_23(m22, ("root"@, "MouseDown1Pane"@));
    lemma_pass_23(m22, ("root"@, "MouseDrag1Pane"@));
    lemma_pass_23(m22, ("root"@, "WheelUpPane"@));
    lemma_pass_23(m22, ("root"@, "DoubleClick1Pane"@));
    lemma_pass_23(m22, ("root"@, "TripleClick1Pane"@));
    lemma_pass_24(m23, ("root"@, "MouseDown1Pane"@));
    lemma_pass_24(m23, ("root"@, "MouseDrag1Pane"@));
    lemma_pass_24(m23, ("root"@, "WheelUpPane"@));
    lemma_pass_24(m23, ("root"@, "DoubleClick1Pane"@));
    lemma_pass_24(m23, ("root"@, "TripleClick1Pane"@));
    lemma_pass_25(m24, ("root"@, "MouseDown1Pane"@));
    lemma_pass_25(m24, ("root"@, "MouseDrag1Pane"@));
    lemma_pass_25(m24, ("root"@, "WheelUpPane"@));
    lemma_pass_25(m24, ("root"@, "DoubleClick1Pane"@));
    lemma_pass_25(m24, ("root"@, "TripleClick1Pane"@));
    lemma_pass_26(m25, ("root"@, "MouseDown1Pane"@));
    lemma_pass_26(m25, ("root"@, "MouseDrag1Pane"@));
    lemma_pass_26(m25, ("root"@, "WheelUpPane"@));
    lemma_pass_26(m25, ("root"@, "DoubleClick1Pane"@));
    lemma_pass_26(m25, ("root"@, "TripleClick1Pane"@));
    lemma_pass_27(m26, ("root"@, "MouseDown1Pane"@));
    lemma_pass_27(m26, ("root"@, "MouseDrag1Pane"@));
    lemma_pass_27(m26, ("root"@, "WheelUpPane"@));
    lemma_pass_27(m26, ("root"@, "DoubleClick1Pane"@));
    lemma_pass_27(m26, ("root"@, "TripleClick1Pane"@));
    lemma_pass_28(m27, ("root"@, "MouseDown1Pane"@));
    lemma_pass_28(m27, ("root"@, "MouseDrag1Pane"@));
    lemma_pass_28(m27, ("root"@, "WheelUpPane"@));
    lemma_pass_28(m27, ("root"@, "DoubleClick1Pane"@));
    lemma_pass_28(m27, ("root"@, "TripleClick1Pane"@));
    lemma_pass_29(m28, ("root"@, "MouseDown1Pane"@));
    lemma_pass_29(m28, ("root"@, "MouseDrag1Pane"@));
    lemma_pass_29(m28, ("root"@, "WheelUpPane"@));
    lemma_pass_29(m28, ("root"@, "DoubleClick1Pane"@));
    lemma_pass_29(m28, ("root"@, "TripleClick1Pane"@));
    lemma_pass_30(m29, ("root"@, "MouseDown1Pane"@));
    lemma_pass_30(m29, ("root"@, "MouseDrag1Pane"@));
    lemma_pass_30(m29, ("root"@, "WheelUpPane"@));
    lemma_pass_30(m29, ("root"@, "DoubleClick1Pane"@));
    lemma_pass_30(m29, ("root"@, "TripleClick1Pane"@));
    lemma_pass_31(m30, ("root"@, "MouseDown1Pane"@));
    lemma_pass_31(m30, ("root"@, "MouseDrag1Pane"@));
    lemma_pass_31(m30, ("root"@, "WheelUpPane"@));
    lemma_pass_31(m30, ("root"@, "DoubleClick1Pane"@));
    lemma_pass_31(m30, ("root"@, "TripleClick1Pane"@));
    lemma_pass_32(m31, ("root"@, "MouseDown1Pane"@));
    lemma_pass_32(m31, ("root"@, "MouseDrag1Pane"@));
    lemma_pass_32(m31, ("root"@, "WheelUpPane"@));
    lemma_pass_32(m31, ("root"@, "DoubleClick1Pane"@));
    lemma_pass_32(m31, ("root"@, "TripleClick1Pane"@));
    lemma_pass_33(m32, ("root"@, "MouseDown1Pane"@));
    lemma_pass_33(m32, ("root"@, "MouseDrag1Pane"@));
    lemma_pass_33(m32, ("root"@, "WheelUpPane"@));
    lemma_pass_33(m32, ("root"@, "DoubleClick1Pane"@));
    lemma_pass_33(m32, ("root"@, "TripleClick1Pane"@));
    lemma_pass_34(m33, ("root"@, "MouseDown1Pane"@));
    lemma_pass_34(m33, ("root"@, "MouseDrag1Pane"@));
    lemma_pass_34(m33, ("root"@, "WheelUpPane"@));
    lemma_pass_34(m33, ("root"@, "DoubleClick1Pane"@));
    lemma_pass_34(m33, ("root"@, "TripleClick1Pane"@));
    lemma_pass_35(m34, ("root"@, "MouseDown1Pane"@));
    lemma_pass_35(m34, ("root"@, "MouseDrag1Pane"@));
    lemma_pass_35(m34, ("root"@, "WheelUpPane"@));
    lemma_pass_35(m34, ("root"@, "DoubleClick1Pane"@));
    lemma_pass_35(m34, ("root"@, "TripleClick1Pane"@));
    assert(table_defaults(m) == m35);
    lemma_digit_bindings(m35, 10);
    lemma_not_digit_key(("root"@, "MouseDown1Pane"@));
    lemma_not_digit_key(("root"@, "MouseDrag1Pane"@));
    lemma_not_digit_key(("root"@, "WheelUpPane"@));
    lemma_not_digit_key(("root"@, "DoubleClick1Pane"@));
    lemma_not_digit_key(("root"@, "TripleClick1Pane"@));
}

/// Default bindings: `MouseDown1ScrollbarUp` in `root` runs `copy-mode -u`; `MouseDown1ScrollbarDown` in `root` runs `copy-mode -d`; `MouseDrag1ScrollbarSlider` in `root` runs `copy-mode -S`; `C-b` in `prefix` runs `send-prefix`; `C-z` in `prefix` runs `suspend-client`.
pub proof fn lemma_defaults_2(m: Map<(Seq<char>, Seq<char>), BindingView>)
    ensures
        default_key_tables(m).contains_key(("root"@, "MouseDown1ScrollbarUp"@)),
        default_key_tables(m)[("root"@, "MouseDown1ScrollbarUp"@)] == (false, None::<Seq<char>>, seq!["copy-mode"@, "-u"@]),
        default_key_tables(m).contains_key(("root"@, "MouseDown1ScrollbarDown"@)),
        default_key_tables(m)[("root"@, "MouseDown1ScrollbarDown"@)] == (false, None::<Seq<char>>, seq!["copy-mode"@, "-d"@]),
        default_key_tables(m).contains_key(("root"@, "MouseDrag1ScrollbarSlider"@)),
        default_key_tables(m)[("root"@, "MouseDrag1ScrollbarSlider"@)] == (false, None::<Seq<char>>, seq!["copy-mode"@, "-S"@]),
        default_key_tables(m).contains_key(("prefix"@, "C-b"@)),
        default_key_tables(m)[("prefix"@, "C-b"@)] == (false, None::<Seq<char>>, seq!["send-prefix"@]),
        default_key_tables(m).contains_key(("prefix"@, "C-z"@)),
        default_key_tables(m)[("prefix"@, "C-z"@)] == (false, None::<Seq<char>>, seq!["suspend-client"@]),
{
    reveal_strlit("\"");
    reveal_strlit("#");
    reveal_strlit("$");
    reveal_strlit("%");
    reveal_strlit("&");
    reveal_strlit("*");
    reveal_strlit(",");
    reveal_strlit("/");
    reveal_strlit("0");
    reveal_strlit("0x5e");
    reveal_strlit(":");
    reveal_strlit(";");
    reveal_strlit("?");
    reveal_strlit("A");
    reveal_strlit("B");
    reveal_strlit("BSpace");
    reveal_strlit("C-Down");
    reveal_strlit("C-M-b");
    reveal_strlit("C-M-f");
    reveal_strlit("C-Space");
    reveal_strlit("C-Up");
    reveal_strlit("C-[");
    reveal_strlit("C-a");
    reveal_strlit("C-b");
    reveal_strlit("C-c");
    reveal_strlit("C-d");
    reveal_strlit("C-e");
    reveal_strlit("C-f");
    reveal_strlit("C-g");
    reveal_strlit("C-h");
    reveal_strlit("C-j");
    reveal_strlit("C-k");
    reveal_strlit("C-l");
    reveal_strlit("C-n");
    reveal_strlit("C-p");
    reveal_strlit("C-r");
    reveal_strlit("C-s");
    reveal_strlit("C-u");
    reveal_strlit("C-v");
    reveal_strlit("C-w");
    reveal_strlit("C-y");
    reveal_strlit("C-z");
    reveal_strlit("D");
    reveal_strlit("DoubleClick1Pane");
    reveal_strlit("Down");
    reveal_strlit("E");
    reveal_strlit("End");
    reveal_strlit("Enter");
    reveal_strlit("Escape");
    reveal_strlit("F");
    reveal_strlit("G");
    reveal_strlit("H");
    reveal_strlit("Home");
    reveal_strlit("J");
    reveal_strlit("K");
    reveal_strlit("L");
    reveal_strlit("Left");
    reveal_strlit("M");
    reveal_strlit("M-<");
    reveal_strlit("M->");
    reveal_strlit("M-Down");
    reveal_strlit("M-R");
    reveal_strlit("M-Up");
    reveal_strlit("M-b");
    reveal_strlit("M-f");
    reveal_strlit("M-l");
    reveal_strlit("M-m");
    reveal_strlit("M-r");
    reveal_strlit("M-v");
    reveal_strlit("M-w");
    reveal_strlit("M-x");
    reveal_strlit("M-{");
    reveal_strlit("M-}");
    reveal_strlit("MouseDown1Pane");
    reveal_strlit("MouseDown1ScrollbarDown");
    reveal_strlit("MouseDown1ScrollbarUp");
    reveal_strlit("MouseDrag1Pane");
    reveal_strlit("MouseDrag1ScrollbarSlider");
    reveal_strlit("MouseDragEnd1Pane");
    reveal_strlit("N");
    reveal_strlit("NPage");
    reveal_strlit("P");
    reveal_strlit("PPage");
    reveal_strlit("R");
    reveal_strlit("Right");
    reveal_strlit("Space");
    reveal_strlit("T");
    reveal_strlit("TripleClick1Pane");
    reveal_strlit("Up");
    reveal_strlit("V");
    reveal_strlit("W");
    reveal_strlit("WheelDownPane");
    reveal_strlit("WheelUpPane");
    reveal_strlit("X");
    reveal_strlit("[");
    reveal_strlit("b");
    reveal_strlit("c");
    reveal_strlit("copy-mode");
    reveal_strlit("copy-mode-vi");
    reveal_strlit("d");
    reveal_strlit("e");
    reveal_strlit("f");
    reveal_strlit("g");
    reveal_strlit("h");
    reveal_strlit("j");
    reveal_strlit("k");
    reveal_strlit("l");
    reveal_strlit("n");
    reveal_strlit("o");
    reveal_strlit("p");
    reveal_strlit("prefix");
    reveal_strlit("q");
    reveal_strlit("r");
    reveal_strlit("root");
    reveal_strlit("t");
    reveal_strlit("v");
    reveal_strlit("w");
    reveal_strlit("x");
    reveal_strlit("z");
    reveal_strlit("{");
    reveal_strlit("}");
    assert("%"@.len() == 1);
    assert("&"@.len() == 1);
    assert(":"@.len() == 1);
    assert("C-b"@.len() == 3);
    assert("C-b"@[0] == 'C');
    assert("C-b"@[1] == '-');
    assert("C-b"@[2] == 'b');
    assert("C-z"@.len() == 3);
    assert("C-z"@[0] == 'C');
    assert("C-z"@[1] == '-');
    assert("C-z"@[2] == 'z');
    assert("Down"@.len() == 4);
    assert("Left"@.len() == 4);
    assert("MouseDown1ScrollbarDown"@.len() == 23);
    assert("MouseDown1ScrollbarDown"@[0] == 'M');
    assert("MouseDown1ScrollbarDown"@[1] == 'o');
    assert("MouseDown1ScrollbarDown"@[2] == 'u');
    assert("MouseDown1ScrollbarUp"@.len() == 21);
    assert("MouseDown1ScrollbarUp"@[0] == 'M');
    assert("MouseDown1ScrollbarUp"@[1] == 'o');
    assert("MouseDown1ScrollbarUp"@[2] == 'u');
    assert("MouseDrag1ScrollbarSlider"@.len() == 25);
    assert("MouseDrag1ScrollbarSlider"@[0] == 'M');
    assert("MouseDrag1ScrollbarSlider"@[1] == 'o');
    assert("MouseDrag1ScrollbarSlider"@[2] == 'u');
    assert("PPage"@.len() == 5);
    assert("Right"@.len() == 5);
    assert("Up"@.len() == 2);
    assert("["@.len() == 1);
    assert("\""@.len() == 1);
    assert("c"@.len() == 1);
    assert("copy-mode"@.len() == 9);
    assert("copy-mode-vi"@.len() == 12);
    assert("d"@.len() == 1);
    assert("l"@.len() == 1);
    assert("n"@.len() == 1);
    assert("o"@.len() == 1);
    assert("p"@.len() == 1);
    assert("prefix"@.len() == 6);
    assert("root"@.len() == 4);
    assert("x"@.len() == 1);
    let m0 = m;
    let m1 = default_bindings_1(m0);
    let m2 = default_bindings_2(m1);
    let m3 = default_bindings_3(m2);
    let m4 = default_bindings_4(m3);
    let m5 = default_bindings_5(m4);
    let m6 = default_bindings_6(m5);
    let m7 = default_bindings_7(m6);
    let m8 = default_bindings_8(m7);
    let m9 = default_bindings_9(m8);
    let m10 = default_bindings_10(m9);
    let m11 = default_bindings_11(m10);
    let m12 = default_bindings_12(m11);
    let m13 = default_bindings_13(m12);
    let m14 = default_bindings_14(m13);
    let m15 = default_bindings_15(m14);
    let m16 = default_bindings_16(m15);
    let m17 = default_bindings_17(m16);
    let m18 = default_bindings_18(m17);
    let m19 = default_bindings_19(m18);
    let m20 = default_bindings_20(m19);
    let m21 = default_bindings_21(m20);
    let m22 = default_bindings_22(m21);
    let m23 = default_bindings_23(m22);
    let m24 = default_bindings_24(m23);
    let m25 = default_bindings_25(m24);
    let m26 = default_bindings_26(m25);
    let m27 = default_bindings_27(m26);
    let m28 = default_bindings_28(m27);
    let m29 = default_bindings_29(m28);
    let m30 = default_bindings_30(m29);
    let m31 = default_bindings_31(m30);
    let m32 = default_bindings_32(m31);
    let m33 = default_bindings_33(m32);
    let m34 = default_bindings_34(m33);
    let m35 = default_bindings_35(m34);
    lemma_part_2(m1);
    lemma_pass_3(m2, ("root"@, "MouseDown1ScrollbarUp"@));
    lemma_pass_3(m2, ("root"@, "MouseDown1ScrollbarDown"@));
    lemma_pass_3(m2, ("root"@, "MouseDrag1ScrollbarSlider"@));
    lemma_pass_3(m2, ("prefix"@, "C-b"@));
    lemma_pass_3(m2, ("prefix"@, "C-z"@));
    lemma_pass_4(m3, ("root"@, "MouseDown1ScrollbarUp"@));
    lemma_pass_4(m3, ("root"@, "MouseDown1ScrollbarDown"@));
    lemma_pass_4(m3, ("root"@, "MouseDrag1ScrollbarSlider"@));
    lemma_pass_4(m3, ("prefix"@, "C-b"@));
    lemma_pass_4(m3, ("prefix"@, "C-z"@));
    lemma_pass_5(m4, ("root"@, "MouseDown1ScrollbarUp"@));
    lemma_pass_5(m4, ("root"@, "MouseDown1ScrollbarDown"@));
    lemma_pass_5(m4, ("root"@, "MouseDrag1ScrollbarSlider"@));
    lemma_pass_5(m4, ("prefix"@, "C-b"@));
    lemma_pass_5(m4, ("prefix"@, "C-z"@));
    lemma_pass_6(m5, ("root"@, "MouseDown1ScrollbarUp"@));
    lemma_pass_6(m5, ("root"@, "MouseDown1ScrollbarDown"@));
    lemma_pass_6(m5, ("root"@, "MouseDrag1ScrollbarSlider"@));
    lemma_pass_6(m5, ("prefix"@, "C-b"@));
    lemma_pass_6(m5, ("prefix"@, "C-z"@));
    lemma_pass_7(m6, ("root"@, "MouseDown1ScrollbarUp"@));
    lemma_pass_7(m6, ("root"@, "MouseDown1ScrollbarDown"@));
    lemma_pass_7(m6, ("root"@, "MouseDrag1ScrollbarSlider"@));
    lemma_pass_7(m6, ("prefix"@, "C-b"@));
    lemma_pass_7(m6, ("prefix"@, "C-z"@));
    lemma_pass_8(m7, ("root"@, "MouseDown1ScrollbarUp"@));
    lemma_pass_8(m7, ("root"@, "MouseDown1ScrollbarDown"@));
    lemma_pass_8(m7, ("root"@, "MouseDrag1ScrollbarSlider"@));
    lemma_pass_8(m7, ("prefix"@, "C-b"@));
    lemma_pass_8(m7, ("prefix"@, "C-z"@));
    lemma_pass_9(m8, ("root"@, "MouseDown1ScrollbarUp"@));
    lemma_pass_9(m8, ("root"@, "MouseDown1ScrollbarDown"@));
    lemma_pass_9(m8, ("root"@, "MouseDrag1ScrollbarSlider"@));
    lemma_pass_9(m8, ("prefix"@, "C-b"@));
    lemma_pass_9(m8, ("prefix"@, "C-z"@));
    lemma_pass_10(m9, ("root"@, "MouseDown1ScrollbarUp"@));
    lemma_pass_10(m9, ("root"@, "MouseDown1ScrollbarDown"@));
    lemma_pass_10(m9, ("root"@, "MouseDrag1ScrollbarSlider"@));
    lemma_pass_10(m9, ("prefix"@, "C-b"@));
    lemma_pass_10(m9, ("prefix"@, "C-z"@));
    lemma_pass_11(m10, ("root"@, "MouseDown1ScrollbarUp"@));
    lemma_pass_11(m10, ("root"@, "MouseDown1ScrollbarDown"@));
    lemma_pass_11(m10, ("root"@, "MouseDrag1ScrollbarSlider"@));
    lemma_pass_11(m10, ("prefix"@, "C-b"@));
    lemma_pass_11(m10, ("prefix"@, "C-z"@));
    lemma_pass_12(m11, ("root"@, "MouseDown1ScrollbarUp"@));
    lemma_pass_12(m11, ("root"@, "MouseDown1ScrollbarDown"@));
    lemma_pass_12(m11, ("root"@, "MouseDrag1ScrollbarSlider"@));
    lemma_pass_12(m11, ("prefix"@, "C-b"@));
    lemma_pass_12(m11, ("prefix"@, "C-z"@));
    lemma_pass_13(m12, ("root"@, "MouseDown1ScrollbarUp"@));
    lemma_pass_13(m12, ("root"@, "MouseDown1ScrollbarDown"@));
    lemma_pass_13(m12, ("root"@, "MouseDrag1ScrollbarSlider"@));
    lemma_pass_13(m12, ("prefix"@, "C-b"@));
    lemma_pass_13(m12, ("prefix"@, "C-z"@));
    lemma_pass_14(m13, ("root"@, "MouseDown1ScrollbarUp"@));
    lemma_pass_14(m13, ("root"@, "MouseDown1ScrollbarDown"@));
    lemma_pass_14(m13, ("root"@, "MouseDrag1ScrollbarSlider"@));
    lemma_pass_14(m13, ("prefix"@, "C-b"@));
    lemma_pass_14(m13, ("prefix"@, "C-z"@));
    lemma_pass_15(m14, ("root"@, "MouseDown1ScrollbarUp"@));
    lemma_pass_15(m14, ("root"@, "MouseDown1ScrollbarDown"@));
    lemma_pass_15(m14, ("root"@, "MouseDrag1ScrollbarSlider"@));
    lemma_pass_15(m14, ("prefix"@, "C-b"@));
    lemma_pass_15(m14, ("prefix"@, "C-z"@));
    lemma_pass_16(m15, ("root"@, "MouseDown1ScrollbarUp"@));
    lemma_pass_16(m15, ("root"@, "MouseDown1ScrollbarDown"@));
    lemma_pass_16(m15, ("root"@, "MouseDrag1ScrollbarSlider"@));
    lemma_pass_16(m15, ("prefix"@, "C-b"@));
    lemma_pass_16(m15, ("prefix"@, "C-z"@));
    lemma_pass_17(m16, ("root"@, "MouseDown1ScrollbarUp"@));
    lemma_pass_17(m16, ("root"@, "MouseDown1ScrollbarDown"@));
    lemma_pass_17(m16, ("root"@, "MouseDrag1ScrollbarSlider"@));
    lemma_pass_17(m16, ("prefix"@, "C-b"@));
    lemma_pass_17(m16, ("prefix"@, "C-z"@));
    lemma_pass_18(m17, ("root"@, "MouseDown1ScrollbarUp"@));
    lemma_pass_18(m17, ("root"@, "MouseDown1ScrollbarDown"@));
    lemma_pass_18(m17, ("root"@, "MouseDrag1ScrollbarSlider"@));
    lemma_pass_18(m17, ("prefix"@, "C-b"@));
    lemma_pass_18(m17, ("prefix"@, "C-z"@));
    lemma_pass_19(m18, ("root"@, "MouseDown1ScrollbarUp"@));
    lemma_pass_19(m18, ("root"@, "MouseDown1ScrollbarDown"@));
    lemma_pass_19(m18, ("root"@, "MouseDrag1ScrollbarSlider"@));
    lemma_pass_19(m18, ("prefix"@, "C-b"@));
    lemma_pass_19(m18, ("prefix"@, "C-z"@));
    lemma_pass_20(m19, ("root"@, "MouseDown1ScrollbarUp"@));
    lemma_pass_20(m19, ("root"@, "MouseDown1ScrollbarDown"@));
    lemma_pass_20(m19, ("root"@, "MouseDrag1ScrollbarSlider"@));
    lemma_pass_20(m19, ("prefix"@, "C-b"@));
    lemma_pass_20(m19, ("prefix"@, "C-z"@));
    lemma_pass_21(m20, ("root"@, "MouseDown1ScrollbarUp"@));
    lemma_pass_21(m20, ("root"@, "MouseDown1ScrollbarDown"@));
    lemma_pass_21(m20, ("root"@, "MouseDrag1ScrollbarSlider"@));
    lemma_pass_21(m20, ("prefix"@, "C-b"@));
    lemma_pass_21(m20, ("prefix"@, "C-z"@));
    lemma_pass_22(m21, ("root"@, "MouseDown1ScrollbarUp"@));
    lemma_pass_22(m21, ("root"@, "MouseDown1ScrollbarDown"@));
    lemma_pass_22(m21, ("root"@, "MouseDrag1ScrollbarSlider"@));
    lemma_pass_22(m21, ("prefix"@, "C-b"@));
    lemma_pass_22(m21, ("prefix"@, "C-z"@));
    lemma_pass_23(m22, ("root"@, "MouseDown1ScrollbarUp"@));
    lemma_pass_23(m22, ("root"@, "MouseDown1ScrollbarDown"@));
    lemma_pass_23(m22, ("root"@, "MouseDrag1ScrollbarSlider"@));
    lemma_pass_23(m22, ("prefix"@, "C-b"@));
    lemma_pass_23(m22, ("prefix"@, "C-z"@));
    lemma_pass_24(m23, ("root"@, "MouseDown1ScrollbarUp"@));
    lemma_pass_24(m23, ("root"@, "MouseDown1ScrollbarDown"@));
    lemma_pass_24(m23, ("root"@, "MouseDrag1ScrollbarSlider"@));
    lemma_pass_24(m23, ("prefix"@, "C-b"@));
    lemma_pass_24(m23, ("prefix"@, "C-z"@));
    lemma_pass_25(m24, ("root"@, "MouseDown1ScrollbarUp"@));
    lemma_pass_25(m24, ("root"@, "MouseDown1ScrollbarDown"@));
    lemma_pass_25(m24, ("root"@, "MouseDrag1ScrollbarSlider"@));
    lemma_pass_25(m24, ("prefix"@, "C-b"@));
    lemma_pass_25(m24, ("prefix"@, "C-z"@));
    lemma_pass_26(m25, ("root"@, "MouseDown1ScrollbarUp"@));
    lemma_pass_26(m25, ("root"@, "MouseDown1ScrollbarDown"@));
    lemma_pass_26(m25, ("root"@, "MouseDrag1ScrollbarSlider"@));
    lemma_pass_26(m25, ("prefix"@, "C-b"@));
    lemma_pass_26(m25, ("prefix"@, "C-z"@));
    lemma_pass_27(m26, ("root"@, "MouseDown1ScrollbarUp"@));
    lemma_pass_27(m26, ("root"@, "MouseDown1ScrollbarDown"@));
    lemma_pass_27(m26, ("root"@, "MouseDrag1ScrollbarSlider"@));
    lemma_pass_27(m26, ("prefix"@, "C-b"@));
    lemma_pass_27(m26, ("prefix"@, "C-z"@));
    lemma_pass_28(m27, ("root"@, "MouseDown1ScrollbarUp"@));
    lemma_pass_28(m27, ("root"@, "MouseDown1ScrollbarDown"@));
    lemma_pass_28(m27, ("root"@, "MouseDrag1ScrollbarSlider"@));
    lemma_pass_28(m27, ("prefix"@, "C-b"@));
    lemma_pass_28(m27, ("prefix"@, "C-z"@));
    lemma_pass_29(m28, ("root"@, "MouseDown1ScrollbarUp"@));
    lemma_pass_29(m28, ("root"@, "MouseDown1ScrollbarDown"@));
    lemma_pass_29(m28, ("root"@, "MouseDrag1ScrollbarSlider"@));
    lemma_pass_29(m28, ("prefix"@, "C-b"@));
    lemma_pass_29(m28, ("prefix"@, "C-z"@));
    lemma_pass_30(m29, ("root"@, "MouseDown1ScrollbarUp"@));
    lemma_pass_30(m29, ("root"@, "MouseDown1ScrollbarDown"@));
    lemma_pass_30(m29, ("root"@, "MouseDrag1ScrollbarSlider"@));
    lemma_pass_30(m29, ("prefix"@, "C-b"@));
    lemma_pass_30(m29, ("prefix"@, "C-z"@));
    lemma_pass_31(m30, ("root"@, "MouseDown1ScrollbarUp"@));
    lemma_pass_31(m30, ("root"@, "MouseDown1ScrollbarDown"@));
    lemma_pass_31(m30, ("root"@, "MouseDrag1ScrollbarSlider"@));
    lemma_pass_31(m30, ("prefix"@, "C-b"@));
    lemma_pass_31(m30, ("prefix"@, "C-z"@));
    lemma_pass_32(m31, ("root"@, "MouseDown1ScrollbarUp"@));
    lemma_pass_32(m31, ("root"@, "MouseDown1ScrollbarDown"@));
    lemma_pass_32(m31, ("root"@, "MouseDrag1ScrollbarSlider"@));
    lemma_pass_32(m31, ("prefix"@, "C-b"@));
    lemma_pass_32(m31, ("prefix"@, "C-z"@));
    lemma_pass_33(m32, ("root"@, "MouseDown1ScrollbarUp"@));
    lemma_pass_33(m32, ("root"@, "MouseDown1ScrollbarDown"@));
    lemma_pass_33(m32, ("root"@, "MouseDrag1ScrollbarSlider"@));
    lemma_pass_33(m32, ("prefix"@, "C-b"@));
    lemma_pass_33(m32, ("prefix"@, "C-z"@));
    lemma_pass_34(m33, ("root"@, "MouseDown1ScrollbarUp"@));
    lemma_pass_34(m33, ("root"@, "MouseDown1ScrollbarDown"@));
    lemma_pass_34(m33, ("root"@, "MouseDrag1ScrollbarSlider"@));
    lemma_pass_34(m33, ("prefix"@, "C-b"@));
    lemma_pass_34(m33, ("prefix"@, "C-z"@));
    lemma_pass_35(m34, ("root"@, "MouseDown1ScrollbarUp"@));
    lemma_pass_35(m34, ("root"@, "MouseDown1ScrollbarDown"@));
    lemma_pass_35(m34, ("root"@, "MouseDrag1ScrollbarSlider"@));
    lemma_pass_35(m34, ("prefix"@, "C-b"@));
    lemma_pass_35(m34, ("prefix"@, "C-z"@));
    assert(table_defaults(m) == m35);
    lemma_digit_bindings(m35, 10);
    lemma_not_digit_key(("root"@, "MouseDown1ScrollbarUp"@));
    lemma_not_digit_key(("root"@, "MouseDown1ScrollbarDown"@));
    lemma_not_digit_key(("root"@, "MouseDrag1ScrollbarSlider"@));
    lemma_not_digit_key(("prefix"@, "C-b"@));
    lemma_not_digit_key(("prefix"@, "C-z"@));
}

/// Default bindings: `d` in `prefix` runs `detach-client`; `c` in `prefix` runs `new-window`; `"` in `prefix` runs `split-window`; `%` in `prefix` runs `split-window -h`; `n` in `prefix` runs `next-window`.
pub proof fn lemma_defaults_3(m: Map<(Seq<char>, Seq<char>), BindingView>)
    ensures
        default_key_tables(m).contains_key(("prefix"@, "d"@)),
        default_key_tables(m)[("prefix"@, "d"@)] == (false, None::<Seq<char>>, seq!["detach-client"@]),
        default_key_tables(m).contains_key(("prefix"@, "c"@)),
        default_key_tables(m)[("prefix"@, "c"@)] == (false, None::<Seq<char>>, seq!["new-window"@]),
        default_key_tables(m).contains_key(("prefix"@, "\""@)),
        default_key_tables(m)[("prefix"@, "\""@)] == (false, None::<Seq<char>>, seq!["split-window"@]),
        default_key_tables(m).contains_key(("prefix"@, "%"@)),
        default_key_tables(m)[("prefix"@, "%"@)] == (false, None::<Seq<char>>, seq!["split-window"@, "-h"@]),
        default_key_tables(m).contains_key(("prefix"@, "n"@)),
        default_key_tables(m)[("prefix"@, "n"@)] == (false, None::<Seq<char>>, seq!["next-window"@]),
{
    reveal_strlit("\"");
    reveal_strlit("#");
    reveal_strlit("$");
    reveal_strlit("%");
    reveal_strlit("&");
    reveal_strlit("*");
    reveal_strlit(",");
    reveal_strlit("/");
    reveal_strlit("0");
    reveal_strlit("0x5e");
    reveal_strlit(":");
    reveal_strlit(";");
    reveal_strlit("?");
    reveal_strlit("A");
    reveal_strlit("B");
    reveal_strlit("BSpace");
    reveal_strlit("C-Down");
    reveal_strlit("C-M-b");
    reveal_strlit("C-M-f");
    reveal_strlit("C-Space");
    reveal_strlit("C-Up");
    reveal_strlit("C-[");
    reveal_strlit("C-a");
    reveal_strlit("C-b");
    reveal_strlit("C-c");
    reveal_strlit("C-d");
    reveal_strlit("C-e");
    reveal_strlit("C-f");
    reveal_strlit("C-g");
    reveal_strlit("C-h");
    reveal_strlit("C-j");
    reveal_strlit("C-k");
    reveal_strlit("C-l");
    reveal_strlit("C-n");
    reveal_strlit("C-p");
    reveal_strlit("C-r");
    reveal_strlit("C-s");
    reveal_strlit("C-u");
    reveal_strlit("C-v");
    reveal_strlit("C-w");
    reveal_strlit("C-y");
    reveal_strlit("D");
    reveal_strlit("DoubleClick1Pane");
    reveal_strlit("Down");
    reveal_strlit("E");
    reveal_strlit("End");
    reveal_strlit("Enter");
    reveal_strlit("Escape");
    reveal_strlit("F");
    reveal_strlit("G");
    reveal_strlit("H");
    reveal_strlit("Home");
    reveal_strlit("J");
    reveal_strlit("K");
    reveal_strlit("L");
    reveal_strlit("Left");
    reveal_strlit("M");
    reveal_strlit("M-<");
    reveal_strlit("M->");
    reveal_strlit("M-Down");
    reveal_strlit("M-R");
    reveal_strlit("M-Up");
    reveal_strlit("M-b");
    reveal_strlit("M-f");
    reveal_strlit("M-l");
    reveal_strlit("M-m");
    reveal_strlit("M-r");
    reveal_strlit("M-v");
    reveal_strlit("M-w");
    reveal_strlit("M-x");
    reveal_strlit("M-{");
    reveal_strlit("M-}");
    reveal_strlit("MouseDown1Pane");
    reveal_strlit("MouseDrag1Pane");
    reveal_strlit("MouseDragEnd1Pane");
    reveal_strlit("N");
    reveal_strlit("NPage");
    reveal_strlit("P");
    reveal_strlit("PPage");
    reveal_strlit("R");
    reveal_strlit("Right");
    reveal_strlit("Space");
    reveal_strlit("T");
    reveal_strlit("TripleClick1Pane");
    reveal_strlit("Up");
    reveal_strlit("V");
    reveal_strlit("W");
    reveal_strlit("WheelDownPane");
    reveal_strlit("WheelUpPane");
    reveal_strlit("X");
    reveal_strlit("[");
    reveal_strlit("b");
    reveal_strlit("c");
    reveal_strlit("copy-mode");
    reveal_strlit("copy-mode-vi");
    reveal_strlit("d");
    reveal_strlit("e");
    reveal_strlit("f");
    reveal_strlit("g");
    reveal_strlit("h");
    reveal_strlit("j");
    reveal_strlit("k");
    reveal_strlit("l");
    reveal_strlit("n");
    reveal_strlit("o");
    reveal_strlit("p");
    reveal_strlit("prefix");
    reveal_strlit("q");
    reveal_strlit("r");
    reveal_strlit("t");
    reveal_strlit("v");
    reveal_strlit("w");
    reveal_strlit("x");
    reveal_strlit("z");
    reveal_strlit("{");
    reveal_strlit("}");
    assert("%"@.len() == 1);
    assert("%"@[0] == '%');
    assert("&"@[0] == '&');
    assert(":"@[0] == ':');
    assert("Down"@.len() == 4);
    assert("Left"@.len() == 4);
    assert("PPage"@.len() == 5);
    assert("Right"@.len() == 5);
    assert("Up"@.len() == 2);
    assert("["@[0] == '[');
    assert("\""@.len() == 1);
    assert("\""@[0] == '"');
    assert("c"@.len() == 1);
    assert("c"@[0] == 'c');
    assert("copy-mode"@.len() == 9);
    assert("copy-mode-vi"@.len() == 12);
    assert("d"@.len() == 1);
    assert("d"@[0] == 'd');
    assert("l"@[0] == 'l');
    assert("n"@.len() == 1);
    assert("n"@[0] == 'n');
    assert("o"@[0] == 'o');
    assert("p"@[0] == 'p');
    assert("prefix"@.len() == 6);
    assert("x"@[0] == 'x');
    let m0 = m;
    let m1 = default_bindings_1(m0);
    let m2 = default_bindings_2(m1);
    let m3 = default_bindings_3(m2);
    let m4 = default_bindings_4(m3);
    let m5 = default_bindings_5(m4);
    let m6 = default_bindings_6(m5);
    let m7 = default_bindings_7(m6);
    let m8 = default_bindings_8(m7);
    let m9 = default_bindings_9(m8);
    let m10 = default_bindings_10(m9);
    let m11 = default_bindings_11(m10);
    let m12 = default_bindings_12(m11);
    let m13 = default_bindings_13(m12);
    let m14 = default_bindings_14(m13);
    let m15 = default_bindings_15(m14);
    let m16 = default_bindings_16(m15);
    let m17 = default_bindings_17(m16);
    let m18 = default_bindings_18(m17);
    let m19 = default_bindings_19(m18);
    let m20 = default_bindings_20(m19);
    let m21 = default_bindings_21(m20);
    let m22 = default_bindings_22(m21);
    let m23 = default_bindings_23(m22);
    let m24 = default_bindings_24(m23);
    let m25 = default_bindings_25(m24);
    let m26 = default_bindings_26(m25);
    let m27 = default_bindings_27(m26);
    let m28 = default_bindings_28(m27);
    let m29 = default_bindings_29(m28);
    let m30 = default_bindings_30(m29);
    let m31 = default_bindings_31(m30);
    let m32 = default_bindings_32(m31);
    let m33 = default_bindings_33(m32);
    let m34 = default_bindings_34(m33);
    let m35 = default_bindings_35(m34);
    lemma_part_3(m2);
    lemma_pass_4(m3, ("prefix"@, "d"@));
    lemma_pass_4(m3, ("prefix"@, "c"@));
    lemma_pass_4(m3, ("prefix"@, "\""@));
    lemma_pass_4(m3, ("prefix"@, "%"@));
    lemma_pass_4(m3, ("prefix"@, "n"@));
    lemma_pass_5(m4, ("prefix"@, "d"@));
    lemma_pass_5(m4, ("prefix"@, "c"@));
    lemma_pass_5(m4, ("prefix"@, "\""@));
    lemma_pass_5(m4, ("prefix"@, "%"@));
    lemma_pass_5(m4, ("prefix"@, "n"@));
    lemma_pass_6(m5, ("prefix"@, "d"@));
    lemma_pass_6(m5, ("prefix"@, "c"@));
    lemma_pass_6(m5, ("prefix"@, "\""@));
    lemma_pass_6(m5, ("prefix"@, "%"@));
    lemma_pass_6(m5, ("prefix"@, "n"@));
    lemma_pass_7(m6, ("prefix"@, "d"@));
    lemma_pass_7(m6, ("prefix"@, "c"@));
    lemma_pass_7(m6, ("prefix"@, "\""@));
    lemma_pass_7(m6, ("prefix"@, "%"@));
    lemma_pass_7(m6, ("prefix"@, "n"@));
    lemma_pass_8(m7, ("prefix"@, "d"@));
    lemma_pass_8(m7, ("prefix"@, "c"@));
    lemma_pass_8(m7, ("prefix"@, "\""@));
    lemma_pass_8(m7, ("prefix"@, "%"@));
    lemma_pass_8(m7, ("prefix"@, "n"@));
    lemma_pass_9(m8, ("prefix"@, "d"@));
    lemma_pass_9(m8, ("prefix"@, "c"@));
    lemma_pass_9(m8, ("prefix"@, "\""@));
    lemma_pass_9(m8, ("prefix"@, "%"@));
    lemma_pass_9(m8, ("prefix"@, "n"@));
    lemma_pass_10(m9, ("prefix"@, "d"@));
    lemma_pass_10(m9, ("prefix"@, "c"@));
    lemma_pass_10(m9, ("prefix"@, "\""@));
    lemma_pass_10(m9, ("prefix"@, "%"@));
    lemma_pass_10(m9, ("prefix"@, "n"@));
    lemma_pass_11(m10, ("prefix"@, "d"@));
    lemma_pass_11(m10, ("prefix"@, "c"@));
    lemma_pass_11(m10, ("prefix"@, "\""@));
    lemma_pass_11(m10, ("prefix"@, "%"@));
    lemma_pass_11(m10, ("prefix"@, "n"@));
    lemma_pass_12(m11, ("prefix"@, "d"@));
    lemma_pass_12(m11, ("prefix"@, "c"@));
    lemma_pass_12(m11, ("prefix"@, "\""@));
    lemma_pass_12(m11, ("prefix"@, "%"@));
    lemma_pass_12(m11, ("prefix"@, "n"@));
    lemma_pass_13(m12, ("prefix"@, "d"@));
    lemma_pass_13(m12, ("prefix"@, "c"@));
    lemma_pass_13(m12, ("prefix"@, "\""@));
    lemma_pass_13(m12, ("prefix"@, "%"@));
    lemma_pass_13(m12, ("prefix"@, "n"@));
    lemma_pass_14(m13, ("prefix"@, "d"@));
    lemma_pass_14(m13, ("prefix"@, "c"@));
    lemma_pass_14(m13, ("prefix"@, "\""@));
    lemma_pass_14(m13, ("prefix"@, "%"@));
    lemma_pass_14(m13, ("prefix"@, "n"@));
    lemma_pass_15(m14, ("prefix"@, "d"@));
    lemma_pass_15(m14, ("prefix"@, "c"@));
    lemma_pass_15(m14, ("prefix"@, "\""@));
    lemma_pass_15(m14, ("prefix"@, "%"@));
    lemma_pass_15(m14, ("prefix"@, "n"@));
    lemma_pass_16(m15, ("prefix"@, "d"@));
    lemma_pass_16(m15, ("prefix"@, "c"@));
    lemma_pass_16(m15, ("prefix"@, "\""@));
    lemma_pass_16(m15, ("prefix"@, "%"@));
    lemma_pass_16(m15, ("prefix"@, "n"@));
    lemma_pass_17(m16, ("prefix"@, "d"@));
    lemma_pass_17(m16, ("prefix"@, "c"@));
    lemma_pass_17(m16, ("prefix"@, "\""@));
    lemma_pass_17(m16, ("prefix"@, "%"@));
    lemma_pass_17(m16, ("prefix"@, "n"@));
    lemma_pass_18(m17, ("prefix"@, "d"@));
    lemma_pass_18(m17, ("prefix"@, "c"@));
    lemma_pass_18(m17, ("prefix"@, "\""@));
    lemma_pass_18(m17, ("prefix"@, "%"@));
    lemma_pass_18(m17, ("prefix"@, "n"@));
    lemma_pass_19(m18, ("prefix"@, "d"@));
    lemma_pass_19(m18, ("prefix"@, "c"@));
    lemma_pass_19(m18, ("prefix"@, "\""@));
    lemma_pass_19(m18, ("prefix"@, "%"@));
    lemma_pass_19(m18, ("prefix"@, "n"@));
    lemma_pass_20(m19, ("prefix"@, "d"@));
    lemma_pass_20(m19, ("prefix"@, "c"@));
    lemma_pass_20(m19, ("prefix"@, "\""@));
    lemma_pass_20(m19, ("prefix"@, "%"@));
    lemma_pass_20(m19, ("prefix"@, "n"@));
    lemma_pass_21(m20, ("prefix"@, "d"@));
    lemma_pass_21(m20, ("prefix"@, "c"@));
    lemma_pass_21(m20, ("prefix"@, "\""@));
    lemma_pass_21(m20, ("prefix"@, "%"@));
    lemma_pass_21(m20, ("prefix"@, "n"@));
    lemma_pass_22(m21, ("prefix"@, "d"@));
    lemma_pass_22(m21, ("prefix"@, "c"@));
    lemma_pass_22(m21, ("prefix"@, "\""@));
    lemma_pass_22(m21, ("prefix"@, "%"@));
    lemma_pass_22(m21, ("prefix"@, "n"@));
    lemma_pass_23(m22, ("prefix"@, "d"@));
    lemma_pass_23(m22, ("prefix"@, "c"@));
    lemma_pass_23(m22, ("prefix"@, "\""@));
    lemma_pass_23(m22, ("prefix"@, "%"@));
    lemma_pass_23(m22, ("prefix"@, "n"@));
    lemma_pass_24(m23, ("prefix"@, "d"@));
    lemma_pass_24(m23, ("prefix"@, "c"@));
    lemma_pass_24(m23, ("prefix"@, "\""@));
    lemma_pass_24(m23, ("prefix"@, "%"@));
    lemma_pass_24(m23, ("prefix"@, "n"@));
    lemma_pass_25(m24, ("prefix"@, "d"@));
    lemma_pass_25(m24, ("prefix"@, "c"@));
    lemma_pass_25(m24, ("prefix"@, "\""@));
    lemma_pass_25(m24, ("prefix"@, "%"@));
    lemma_pass_25(m24, ("prefix"@, "n"@));
    lemma_pass_26(m25, ("prefix"@, "d"@));
    lemma_pass_26(m25, ("prefix"@, "c"@));
    lemma_pass_26(m25, ("prefix"@, "\""@));
    lemma_pass_26(m25, ("prefix"@, "%"@));
    lemma_pass_26(m25, ("prefix"@, "n"@));
    lemma_pass_27(m26, ("prefix"@, "d"@));
    lemma_pass_27(m26, ("prefix"@, "c"@));
    lemma_pass_27(m26, ("prefix"@, "\""@));
    lemma_pass_27(m26, ("prefix"@, "%"@));
    lemma_pass_27(m26, ("prefix"@, "n"@));
    lemma_pass_28(m27, ("prefix"@, "d"@));
    lemma_pass_28(m27, ("prefix"@, "c"@));
    lemma_pass_28(m27, ("prefix"@, "\""@));
    lemma_pass_28(m27, ("prefix"@, "%"@));
    lemma_pass_28(m27, ("prefix"@, "n"@));
    lemma_pass_29(m28, ("prefix"@, "d"@));
    lemma_pass_29(m28, ("prefix"@, "c"@));
    lemma_pass_29(m28, ("prefix"@, "\""@));
    lemma_pass_29(m28, ("prefix"@, "%"@));
    lemma_pass_29(m28, ("prefix"@, "n"@));
    lemma_pass_30(m29, ("prefix"@, "d"@));
    lemma_pass_30(m29, ("prefix"@, "c"@));
    lemma_pass_30(m29, ("prefix"@, "\""@));
    lemma_pass_30(m29, ("prefix"@, "%"@));
    lemma_pass_30(m29, ("prefix"@, "n"@));
    lemma_pass_31(m30, ("prefix"@, "d"@));
    lemma_pass_31(m30, ("prefix"@, "c"@));
    lemma_pass_31(m30, ("prefix"@, "\""@));
    lemma_pass_31(m30, ("prefix"@, "%"@));
    lemma_pass_31(m30, ("prefix"@, "n"@));
    lemma_pass_32(m31, ("prefix"@, "d"@));
    lemma_pass_32(m31, ("prefix"@, "c"@));
    lemma_pass_32(m31, ("prefix"@, "\""@));
    lemma_pass_32(m31, ("prefix"@, "%"@));
    lemma_pass_32(m31, ("prefix"@, "n"@));
    lemma_pass_33(m32, ("prefix"@, "d"@));
    lemma_pass_33(m32, ("prefix"@, "c"@));
    lemma_pass_33(m32, ("prefix"@, "\""@));
    lemma_pass_33(m32, ("prefix"@, "%"@));
    lemma_pass_33(m32, ("prefix"@, "n"@));
    lemma_pass_34(m33, ("prefix"@, "d"@));
    lemma_pass_34(m33, ("prefix"@, "c"@));
    lemma_pass_34(m33, ("prefix"@, "\""@));
    lemma_pass_34(m33, ("prefix"@, "%"@));
    lemma_pass_34(m33, ("prefix"@, "n"@));
    lemma_pass_35(m34, ("prefix"@, "d"@));
    lemma_pass_35(m34, ("prefix"@, "c"@));
    lemma_pass_35(m34, ("prefix"@, "\""@));
    lemma_pass_35(m34, ("prefix"@, "%"@));
    lemma_pass_35(m34, ("prefix"@, "n"@));
    assert(table_defaults(m) == m35);
    lemma_digit_bindings(m35, 10);
    lemma_not_digit_key(("prefix"@, "d"@));
    lemma_not_digit_key(("prefix"@, "c"@));
    lemma_not_digit_key(("prefix"@, "\""@));
    lemma_not_digit_key(("prefix"@, "%"@));
    lemma_not_digit_key(("prefix"@, "n"@));
}

/// Default bindings: `p` in `prefix` runs `previous-window`; `l` in `prefix` runs `last-window`; `:` in `prefix` runs `command-prompt`; `o` in `prefix` runs `select-pane -t :.+`; `[` in `prefix` runs `copy-mode`.
pub proof fn lemma_defaults_4(m: Map<(Seq<char>, Seq<char>), BindingView>)
    ensures
        default_key_tables(m).contains_key(("prefix"@, "p"@)),
        default_key_tables(m)[("prefix"@, "p"@)] == (false, None::<Seq<char>>, seq!["previous-window"@]),
        default_key_tables(m).contains_key(("prefix"@, "l"@)),
        default_key_tables(m)[("prefix"@, "l"@)] == (false, None::<Seq<char>>, seq!["last-window"@]),
        default_key_tables(m).contains_key(("prefix"@, ":"@)),
        default_key_tables(m)[("prefix"@, ":"@)] == (false, None::<Seq<char>>, seq!["command-prompt"@]),
        default_key_tables(m).contains_key(("prefix"@, "o"@)),
        default_key_tables(m)[("prefix"@, "o"@)] == (false, None::<Seq<char>>, seq!["select-pane"@, "-t"@, ":.+"@]),
        default_key_tables(m).contains_key(("prefix"@, "["@)),
        default_key_tables(m)[("prefix"@, "["@)] == (false, None::<Seq<char>>, seq!["copy-mode"@]),
{
    reveal_strlit("#");
    reveal_strlit("$");
    reveal_strlit("%");
    reveal_strlit("&");
    reveal_strlit("*");
    reveal_strlit(",");
    reveal_strlit("/");
    reveal_strlit("0");
    reveal_strlit("0x5e");
    reveal_strlit(":");
    reveal_strlit(";");
    reveal_strlit("?");
    reveal_strlit("A");
    reveal_strlit("B");
    reveal_strlit("BSpace");
    reveal_strlit("C-Down");
    reveal_strlit("C-M-b");
    reveal_strlit("C-M-f");
    reveal_strlit("C-Space");
    reveal_strlit("C-Up");
    reveal_strlit("C-[");
    reveal_strlit("C-a");
    reveal_strlit("C-b");
    reveal_strlit("C-c");
    reveal_strlit("C-d");
    reveal_strlit("C-e");
    reveal_strlit("C-f");
    reveal_strlit("C-g");
    reveal_strlit("C-h");
    reveal_strlit("C-j");
    reveal_strlit("C-k");
    reveal_strlit("C-l");
    reveal_strlit("C-n");
    reveal_strlit("C-p");
    reveal_strlit("C-r");
    reveal_strlit("C-s");
    reveal_strlit("C-u");
    reveal_strlit("C-v");
    reveal_strlit("C-w");
    reveal_strlit("C-y");
    reveal_strlit("D");
    reveal_strlit("DoubleClick1Pane");
    reveal_strlit("Down");
    reveal_strlit("E");
    reveal_strlit("End");
    reveal_strlit("Enter");
    reveal_strlit("Escape");
    reveal_strlit("F");
    reveal_strlit("G");
    reveal_strlit("H");
    reveal_strlit("Home");
    reveal_strlit("J");
    reveal_strlit("K");
    reveal_strlit("L");
    reveal_strlit("Left");
    reveal_strlit("M");
    reveal_strlit("M-<");
    reveal_strlit("M->");
    reveal_strlit("M-Down");
    reveal_strlit("M-R");
    reveal_strlit("M-Up");
    reveal_strlit("M-b");
    reveal_strlit("M-f");
    reveal_strlit("M-l");
    reveal_strlit("M-m");
    reveal_strlit("M-r");
    reveal_strlit("M-v");
    reveal_strlit("M-w");
    reveal_strlit("M-x");
    reveal_strlit("M-{");
    reveal_strlit("M-}");
    reveal_strlit("MouseDown1Pane");
    reveal_strlit("MouseDrag1Pane");
    reveal_strlit("MouseDragEnd1Pane");
    reveal_strlit("N");
    reveal_strlit("NPage");
    reveal_strlit("P");
    reveal_strlit("PPage");
    reveal_strlit("R");
    reveal_strlit("Right");
    reveal_strlit("Space");
    reveal_strlit("T");
    reveal_strlit("TripleClick1Pane");
    reveal_strlit("Up");
    reveal_strlit("V");
    reveal_strlit("W");
    reveal_strlit("WheelDownPane");
    reveal_strlit("WheelUpPane");
    reveal_strlit("X");
    reveal_strlit("[");
    reveal_strlit("b");
    reveal_strlit("copy-mode");
    reveal_strlit("copy-mode-vi");
    reveal_strlit("e");
    reveal_strlit("f");
    reveal_strlit("g");
    reveal_strlit("h");
    reveal_strlit("j");
    reveal_strlit("k");
    reveal_strlit("l");
    reveal_strlit("n");
    reveal_strlit("o");
    reveal_strlit("p");
    reveal_strlit("prefix");
    reveal_strlit("q");
    reveal_strlit("r");
    reveal_strlit("t");
    reveal_strlit("v");
    reveal_strlit("w");
    reveal_strlit("x");
    reveal_strlit("z");
    reveal_strlit("{");
    reveal_strlit("}");
    assert("&"@[0] == '&');
    assert(":"@.len() == 1);
    assert(":"@[0] == ':');
    assert("Down"@.len() == 4);
    assert("Left"@.len() == 4);
    assert("PPage"@.len() == 5);
    assert("Right"@.len() == 5);
    assert("Up"@.len() == 2);
    assert("["@.len() == 1);
    assert("["@[0] == '[');
    assert("copy-mode"@.len() == 9);
    assert("copy-mode-vi"@.len() == 12);
    assert("l"@.len() == 1);
    assert("l"@[0] == 'l');
    assert("o"@.len() == 1);
    assert("o"@[0] == 'o');
    assert("p"@.len() == 1);
    assert("p"@[0] == 'p');
    assert("prefix"@.len() == 6);
    assert("x"@[0] == 'x');
    let m0 = m;
    let m1 = default_bindings_1(m0);
    let m2 = default_bindings_2(m1);
    let m3 = default_bindings_3(m2);
    let m4 = default_bindings_4(m3);
    let m5 = default_bindings_5(m4);
    let m6 = default_bindings_6(m5);
    let m7 = default_bindings_7(m6);
    let m8 = default_bindings_8(m7);
    let m9 = default_bindings_9(m8);
    let m10 = default_bindings_10(m9);
    let m11 = default_bindings_11(m10);
    let m12 = default_bindings_12(m11);
    let m13 = default_bindings_13(m12);
    let m14 = default_bindings_14(m13);
    let m15 = default_bindings_15(m14);
    let m16 = default_bindings_16(m15);
    let m17 = default_bindings_17(m16);
    let m18 = default_bindings_18(m17);
    let m19 = default_bindings_19(m18);
    let m20 = default_bindings_20(m19);
    let m21 = default_bindings_21(m20);
    let m22 = default_bindings_22(m21);
    let m23 = default_bindings_23(m22);
    let m24 = default_bindings_24(m23);
    let m25 = default_bindings_25(m24);
    let m26 = default_bindings_26(m25);
    let m27 = default_bindings_27(m26);
    let m28 = default_bindings_28(m27);
    let m29 = default_bindings_29(m28);
    let m30 = default_bindings_30(m29);
    let m31 = default_bindings_31(m30);
    let m32 = default_bindings_32(m31);
    let m33 = default_bindings_33(m32);
    let m34 = default_bindings_34(m33);
    let m35 = default_bindings_35(m34);
    lemma_part_4(m3);
    lemma_pass_5(m4, ("prefix"@, "p"@));
    lemma_pass_5(m4, ("prefix"@, "l"@));
    lemma_pass_5(m4, ("prefix"@, ":"@));
    lemma_pass_5(m4, ("prefix"@, "o"@));
    lemma_pass_5(m4, ("prefix"@, "["@));
    lemma_pass_6(m5, ("prefix"@, "p"@));
    lemma_pass_6(m5, ("prefix"@, "l"@));
    lemma_pass_6(m5, ("prefix"@, ":"@));
    lemma_pass_6(m5, ("prefix"@, "o"@));
    lemma_pass_6(m5, ("prefix"@, "["@));
    lemma_pass_7(m6, ("prefix"@, "p"@));
    lemma_pass_7(m6, ("prefix"@, "l"@));
    lemma_pass_7(m6, ("prefix"@, ":"@));
    lemma_pass_7(m6, ("prefix"@, "o"@));
    lemma_pass_7(m6, ("prefix"@, "["@));
    lemma_pass_8(m7, ("prefix"@, "p"@));
    lemma_pass_8(m7, ("prefix"@, "l"@));
    lemma_pass_8(m7, ("prefix"@, ":"@));
    lemma_pass_8(m7, ("prefix"@, "o"@));
    lemma_pass_8(m7, ("prefix"@, "["@));
    lemma_pass_9(m8, ("prefix"@, "p"@));
    lemma_pass_9(m8, ("prefix"@, "l"@));
    lemma_pass_9(m8, ("prefix"@, ":"@));
    lemma_pass_9(m8, ("prefix"@, "o"@));
    lemma_pass_9(m8, ("prefix"@, "["@));
    lemma_pass_10(m9, ("prefix"@, "p"@));
    lemma_pass_10(m9, ("prefix"@, "l"@));
    lemma_pass_10(m9, ("prefix"@, ":"@));
    lemma_pass_10(m9, ("prefix"@, "o"@));
    lemma_pass_10(m9, ("prefix"@, "["@));
    lemma_pass_11(m10, ("prefix"@, "p"@));
    lemma_pass_11(m10, ("prefix"@, "l"@));
    lemma_pass_11(m10, ("prefix"@, ":"@));
    lemma_pass_11(m10, ("prefix"@, "o"@));
    lemma_pass_11(m10, ("prefix"@, "["@));
    lemma_pass_12(m11, ("prefix"@, "p"@));
    lemma_pass_12(m11, ("prefix"@, "l"@));
    lemma_pass_12(m11, ("prefix"@, ":"@));
    lemma_pass_12(m11, ("prefix"@, "o"@));
    lemma_pass_12(m11, ("prefix"@, "["@));
    lemma_pass_13(m12, ("prefix"@, "p"@));
    lemma_pass_13(m12, ("prefix"@, "l"@));
    lemma_pass_13(m12, ("prefix"@, ":"@));
    lemma_pass_13(m12, ("prefix"@, "o"@));
    lemma_pass_13(m12, ("prefix"@, "["@));
    lemma_pass_14(m13, ("prefix"@, "p"@));
    lemma_pass_14(m13, ("prefix"@, "l"@));
    lemma_pass_14(m13, ("prefix"@, ":"@));
    lemma_pass_14(m13, ("prefix"@, "o"@));
    lemma_pass_14(m13, ("prefix"@, "["@));
    lemma_pass_15(m14, ("prefix"@, "p"@));
    lemma_pass_15(m14, ("prefix"@, "l"@));
    lemma_pass_15(m14, ("prefix"@, ":"@));
    lemma_pass_15(m14, ("prefix"@, "o"@));
    lemma_pass_15(m14, ("prefix"@, "["@));
    lemma_pass_16(m15, ("prefix"@, "p"@));
    lemma_pass_16(m15, ("prefix"@, "l"@));
    lemma_pass_16(m15, ("prefix"@, ":"@));
    lemma_pass_16(m15, ("prefix"@, "o"@));
    lemma_pass_16(m15, ("prefix"@, "["@));
    lemma_pass_17(m16, ("prefix"@, "p"@));
    lemma_pass_17(m16, ("prefix"@, "l"@));
    lemma_pass_17(m16, ("prefix"@, ":"@));
    lemma_pass_17(m16, ("prefix"@, "o"@));
    lemma_pass_17(m16, ("prefix"@, "["@));
    lemma_pass_18(m17, ("prefix"@, "p"@));
    lemma_pass_18(m17, ("prefix"@, "l"@));
    lemma_pass_18(m17, ("prefix"@, ":"@));
    lemma_pass_18(m17, ("prefix"@, "o"@));
    lemma_pass_18(m17, ("prefix"@, "["@));
    lemma_pass_19(m18, ("prefix"@, "p"@));
    lemma_pass_19(m18, ("prefix"@, "l"@));
    lemma_pass_19(m18, ("prefix"@, ":"@));
    lemma_pass_19(m18, ("prefix"@, "o"@));
    lemma_pass_19(m18, ("prefix"@, "["@));
    lemma_pass_20(m19, ("prefix"@, "p"@));
    lemma_pass_20(m19, ("prefix"@, "l"@));
    lemma_pass_20(m19, ("prefix"@, ":"@));
    lemma_pass_20(m19, ("prefix"@, "o"@));
    lemma_pass_20(m19, ("prefix"@, "["@));
    lemma_pass_21(m20, ("prefix"@, "p"@));
    lemma_pass_21(m20, ("prefix"@, "l"@));
    lemma_pass_21(m20, ("prefix"@, ":"@));
    lemma_pass_21(m20, ("prefix"@, "o"@));
    lemma_pass_21(m20, ("prefix"@, "["@));
    lemma_pass_22(m21, ("prefix"@, "p"@));
    lemma_pass_22(m21, ("prefix"@, "l"@));
    lemma_pass_22(m21, ("prefix"@, ":"@));
    lemma_pass_22(m21, ("prefix"@, "o"@));
    lemma_pass_22(m21, ("prefix"@, "["@));
    lemma_pass_23(m22, ("prefix"@, "p"@));
    lemma_pass_23(m22, ("prefix"@, "l"@));
    lemma_pass_23(m22, ("prefix"@, ":"@));
    lemma_pass_23(m22, ("prefix"@, "o"@));
    lemma_pass_23(m22, ("prefix"@, "["@));
    lemma_pass_24(m23, ("prefix"@, "p"@));
    lemma_pass_24(m23, ("prefix"@, "l"@));
    lemma_pass_24(m23, ("prefix"@, ":"@));
    lemma_pass_24(m23, ("prefix"@, "o"@));
    lemma_pass_24(m23, ("prefix"@, "["@));
    lemma_pass_25(m24, ("prefix"@, "p"@));
    lemma_pass_25(m24, ("prefix"@, "l"@));
    lemma_pass_25(m24, ("prefix"@, ":"@));
    lemma_pass_25(m24, ("prefix"@, "o"@));
    lemma_pass_25(m24, ("prefix"@, "["@));
    lemma_pass_26(m25, ("prefix"@, "p"@));
    lemma_pass_26(m25, ("prefix"@, "l"@));
    lemma_pass_26(m25, ("prefix"@, ":"@));
    lemma_pass_26(m25, ("prefix"@, "o"@));
    lemma_pass_26(m25, ("prefix"@, "["@));
    lemma_pass_27(m26, ("prefix"@, "p"@));
    lemma_pass_27(m26, ("prefix"@, "l"@));
    lemma_pass_27(m26, ("prefix"@, ":"@));
    lemma_pass_27(m26, ("prefix"@, "o"@));
    lemma_pass_27(m26, ("prefix"@, "["@));
    lemma_pass_28(m27, ("prefix"@, "p"@));
    lemma_pass_28(m27, ("prefix"@, "l"@));
    lemma_pass_28(m27, ("prefix"@, ":"@));
    lemma_pass_28(m27, ("prefix"@, "o"@));
    lemma_pass_28(m27, ("prefix"@, "["@));
    lemma_pass_29(m28, ("prefix"@, "p"@));
    lemma_pass_29(m28, ("prefix"@, "l"@));
    lemma_pass_29(m28, ("prefix"@, ":"@));
    lemma_pass_29(m28, ("prefix"@, "o"@));
    lemma_pass_29(m28, ("prefix"@, "["@));
    lemma_pass_30(m29, ("prefix"@, "p"@));
    lemma_pass_30(m29, ("prefix"@, "l"@));
    lemma_pass_30(m29, ("prefix"@, ":"@));
    lemma_pass_30(m29, ("prefix"@, "o"@));
    lemma_pass_30(m29, ("prefix"@, "["@));
    lemma_pass_31(m30, ("prefix"@, "p"@));
    lemma_pass_31(m30, ("prefix"@, "l"@));
    lemma_pass_31(m30, ("prefix"@, ":"@));
    lemma_pass_31(m30, ("prefix"@, "o"@));
    lemma_pass_31(m30, ("prefix"@, "["@));
    lemma_pass_32(m31, ("prefix"@, "p"@));
    lemma_pass_32(m31, ("prefix"@, "l"@));
    lemma_pass_32(m31, ("prefix"@, ":"@));
    lemma_pass_32(m31, ("prefix"@, "o"@));
    lemma_pass_32(m31, ("prefix"@, "["@));
    lemma_pass_33(m32, ("prefix"@, "p"@));
    lemma_pass_33(m32, ("prefix"@, "l"@));
    lemma_pass_33(m32, ("prefix"@, ":"@));
    lemma_pass_33(m32, ("prefix"@, "o"@));
    lemma_pass_33(m32, ("prefix"@, "["@));
    lemma_pass_34(m33, ("prefix"@, "p"@));
    lemma_pass_34(m33, ("prefix"@, "l"@));
    lemma_pass_34(m33, ("prefix"@, ":"@));
    lemma_pass_34(m33, ("prefix"@, "o"@));
    lemma_pass_34(m33, ("prefix"@, "["@));
    lemma_pass_35(m34, ("prefix"@, "p"@));
    lemma_pass_35(m34, ("prefix"@, "l"@));
    lemma_pass_35(m34, ("prefix"@, ":"@));
    lemma_pass_35(m34, ("prefix"@, "o"@));
    lemma_pass_35(m34, ("prefix"@, "["@));
    assert(table_defaults(m) == m35);
    lemma_digit_bindings(m35, 10);
    lemma_not_digit_key(("prefix"@, "p"@));
    lemma_not_digit_key(("prefix"@, "l"@));
    lemma_not_digit_key(("prefix"@, ":"@));
    lemma_not_digit_key(("prefix"@, "o"@));
    lemma_not_digit_key(("prefix"@, "["@));
}

/// Default bindings: `PPage` in `prefix` runs `copy-mode -u`; `Up` in `prefix` runs `select-pane -U`; `Down` in `prefix` runs `select-pane -D`; `Left` in `prefix` runs `select-pane -L`; `Right` in `prefix` runs `select-pane -R`.
pub proof fn lemma_defaults_5(m: Map<(Seq<char>, Seq<char>), BindingView>)
    ensures
        default_key_tables(m).contains_key(("prefix"@, "PPage"@)),
        default_key_tables(m)[("prefix"@, "PPage"@)] == (false, None::<Seq<char>>, seq!["copy-mode"@, "-u"@]),
        default_key_tables(m).contains_key(("prefix"@, "Up"@)),
        default_key_tables(m)[("prefix"@, "Up"@)] == (false, None::<Seq<char>>, seq!["select-pane"@, "-U"@]),
        default_key_tables(m).contains_key(("prefix"@, "Down"@)),
        default_key_tables(m)[("prefix"@, "Down"@)] == (false, None::<Seq<char>>, seq!["select-pane"@, "-D"@]),
        default_key_tables(m).contains_key(("prefix"@, "Left"@)),
        default_key_tables(m)[("prefix"@, "Left"@)] == (false, None::<Seq<char>>, seq!["select-pane"@, "-L"@]),
        default_key_tables(m).contains_key(("prefix"@, "Right"@)),
        default_key_tables(m)[("prefix"@, "Right"@)] == (false, None::<Seq<char>>, seq!["select-pane"@, "-R"@]),
{
    reveal_strlit("#");
    reveal_strlit("$");
    reveal_strlit("%");
    reveal_strlit("&");
    reveal_strlit("*");
    reveal_strlit(",");
    reveal_strlit("/");
    reveal_strlit("0");
    reveal_strlit("0x5e");
    reveal_strlit(":");
    reveal_strlit(";");
    reveal_strlit("?");
    reveal_strlit("A");
    reveal_strlit("B");
    reveal_strlit("BSpace");
    reveal_strlit("C-Down");
    reveal_strlit("C-M-b");
    reveal_strlit("C-M-f");
    reveal_strlit("C-Space");
    reveal_strlit("C-Up");
    reveal_strlit("C-[");
    reveal_strlit("C-a");
    reveal_strlit("C-b");
    reveal_strlit("C-c");
    reveal_strlit("C-d");
    reveal_strlit("C-e");
    reveal_strlit("C-f");
    reveal_strlit("C-g");
    reveal_strlit("C-h");
    reveal_strlit("C-j");
    reveal_strlit("C-k");
    reveal_strlit("C-l");
    reveal_strlit("C-n");
    reveal_strlit("C-p");
    reveal_strlit("C-r");
    reveal_strlit("C-s");
    reveal_strlit("C-u");
    reveal_strlit("C-v");
    reveal_strlit("C-w");
    reveal_strlit("C-y");
    reveal_strlit("D");
    reveal_strlit("DoubleClick1Pane");
    reveal_strlit("Down");
    reveal_strlit("E");
    reveal_strlit("End");
    reveal_strlit("Enter");
    reveal_strlit("Escape");
    reveal_strlit("F");
    reveal_strlit("G");
    reveal_strlit("H");
    reveal_strlit("Home");
    reveal_strlit("J");
    reveal_strlit("K");
    reveal_strlit("L");
    reveal_strlit("Left");
    reveal_strlit("M");
    reveal_strlit("M-<");
    reveal_strlit("M->");
    reveal_strlit("M-Down");
    reveal_strlit("M-R");
    reveal_strlit("M-Up");
    reveal_strlit("M-b");
    reveal_strlit("M-f");
    reveal_strlit("M-l");
    reveal_strlit("M-m");
    reveal_strlit("M-r");
    reveal_strlit("M-v");
    reveal_strlit("M-w");
    reveal_strlit("M-x");
    reveal_strlit("M-{");
    reveal_strlit("M-}");
    reveal_strlit("MouseDown1Pane");
    reveal_strlit("MouseDrag1Pane");
    reveal_strlit("MouseDragEnd1Pane");
    reveal_strlit("N");
    reveal_strlit("NPage");
    reveal_strlit("P");
    reveal_strlit("PPage");
    reveal_strlit("R");
    reveal_strlit("Right");
    reveal_strlit("Space");
    reveal_strlit("T");
    reveal_strlit("TripleClick1Pane");
    reveal_strlit("Up");
    reveal_strlit("V");
    reveal_strlit("W");
    reveal_strlit("WheelDownPane");
    reveal_strlit("WheelUpPane");
    reveal_strlit("X");
    reveal_strlit("b");
    reveal_strlit("copy-mode");
    reveal_strlit("copy-mode-vi");
    reveal_strlit("e");
    reveal_strlit("f");
    reveal_strlit("g");
    reveal_strlit("h");
    reveal_strlit("j");
    reveal_strlit("k");
    reveal_strlit("l");
    reveal_strlit("n");
    reveal_strlit("o");
    reveal_strlit("prefix");
    reveal_strlit("q");
    reveal_strlit("r");
    reveal_strlit("t");
    reveal_strlit("v");
    reveal_strlit("w");
    reveal_strlit("x");
    reveal_strlit("z");
    reveal_strlit("{");
    reveal_strlit("}");
    assert("&"@.len() == 1);
    assert("Down"@.len() == 4);
    assert("Down"@[0] == 'D');
    assert("Down"@[1] == 'o');
    assert("Down"@[2] == 'w');
    assert("Left"@.len() == 4);
    assert("Left"@[0] == 'L');
    assert("Left"@[1] == 'e');
    assert("Left"@[2] == 'f');
    assert("PPage"@.len() == 5);
    assert("PPage"@[0] == 'P');
    assert("PPage"@[1] == 'P');
    assert("PPage"@[2] == 'a');
    assert("Right"@.len() == 5);
    assert("Right"@[0] == 'R');
    assert("Right"@[1] == 'i');
    assert("Right"@[2] == 'g');
    assert("Up"@.len() == 2);
    assert("Up"@[0] == 'U');
    assert("copy-mode"@.len() == 9);
    assert("copy-mode-vi"@.len() == 12);
    assert("prefix"@.len() == 6);
    assert("x"@.len() == 1);
    let m0 = m;
    let m1 = default_bindings_1(m0);
    let m2 = default_bindings_2(m1);
    let m3 = default_bindings_3(m2);
    let m4 = default_bindings_4(m3);
    let m5 = default_bindings_5(m4);
    let m6 = default_bindings_6(m5);
    let m7 = default_bindings_7(m6);
    let m8 = default_bindings_8(m7);
    let m9 = default_bindings_9(m8);
    let m10 = default_bindings_10(m9);
    let m11 = default_bindings_11(m10);
    let m12 = default_bindings_12(m11);
    let m13 = default_bindings_13(m12);
    let m14 = default_bindings_14(m13);
    let m15 = default_bindings_15(m14);
    let m16 = default_bindings_16(m15);
    let m17 = default_bindings_17(m16);
    let m18 = default_bindings_18(m17);
    let m19 = default_bindings_19(m18);
    let m20 = default_bindings_20(m19);
    let m21 = default_bindings_21(m20);
    let m22 = default_bindings_22(m21);
    let m23 = default_bindings_23(m22);
    let m24 = default_bindings_24(m23);
    let m25 = default_bindings_25(m24);
    let m26 = default_bindings_26(m25);
    let m27 = default_bindings_27(m26);
    let m28 = default_bindings_28(m27);
    let m29 = default_bindings_29(m28);
    let m30 = default_bindings_30(m29);
    let m31 = default_bindings_31(m30);
    let m32 = default_bindings_32(m31);
    let m33 = default_bindings_33(m32);
    let m34 = default_bindings_34(m33);
    let m35 = default_bindings_35(m34);
    lemma_part_5(m4);
    lemma_pass_6(m5, ("prefix"@, "PPage"@));
    lemma_pass_6(m5, ("prefix"@, "Up"@));
    lemma_pass_6(m5, ("prefix"@, "Down"@));
    lemma_pass_6(m5, ("prefix"@, "Left"@));
    lemma_pass_6(m5, ("prefix"@, "Right"@));
    lemma_pass_7(m6, ("prefix"@, "PPage"@));
    lemma_pass_7(m6, ("prefix"@, "Up"@));
    lemma_pass_7(m6, ("prefix"@, "Down"@));
    lemma_pass_7(m6, ("prefix"@, "Left"@));
    lemma_pass_7(m6, ("prefix"@, "Right"@));
    lemma_pass_8(m7, ("prefix"@, "PPage"@));
    lemma_pass_8(m7, ("prefix"@, "Up"@));
    lemma_pass_8(m7, ("prefix"@, "Down"@));
    lemma_pass_8(m7, ("prefix"@, "Left"@));
    lemma_pass_8(m7, ("prefix"@, "Right"@));
    lemma_pass_9(m8, ("prefix"@, "PPage"@));
    lemma_pass_9(m8, ("prefix"@, "Up"@));
    lemma_pass_9(m8, ("prefix"@, "Down"@));
    lemma_pass_9(m8, ("prefix"@, "Left"@));
    lemma_pass_9(m8, ("prefix"@, "Right"@));
    lemma_pass_10(m9, ("prefix"@, "PPage"@));
    lemma_pass_10(m9, ("prefix"@, "Up"@));
    lemma_pass_10(m9, ("prefix"@, "Down"@));
    lemma_pass_10(m9, ("prefix"@, "Left"@));
    lemma_pass_10(m9, ("prefix"@, "Right"@));
    lemma_pass_11(m10, ("prefix"@, "PPage"@));
    lemma_pass_11(m10, ("prefix"@, "Up"@));
    lemma_pass_11(m10, ("prefix"@, "Down"@));
    lemma_pass_11(m10, ("prefix"@, "Left"@));
    lemma_pass_11(m10, ("prefix"@, "Right"@));
    lemma_pass_12(m11, ("prefix"@, "PPage"@));
    lemma_pass_12(m11, ("prefix"@, "Up"@));
    lemma_pass_12(m11, ("prefix"@, "Down"@));
    lemma_pass_12(m11, ("prefix"@, "Left"@));
    lemma_pass_12(m11, ("prefix"@, "Right"@));
    lemma_pass_13(m12, ("prefix"@, "PPage"@));
    lemma_pass_13(m12, ("prefix"@, "Up"@));
    lemma_pass_13(m12, ("prefix"@, "Down"@));
    lemma_pass_13(m12, ("prefix"@, "Left"@));
    lemma_pass_13(m12, ("prefix"@, "Right"@));
    lemma_pass_14(m13, ("prefix"@, "PPage"@));
    lemma_pass_14(m13, ("prefix"@, "Up"@));
    lemma_pass_14(m13, ("prefix"@, "Down"@));
    lemma_pass_14(m13, ("prefix"@, "Left"@));
    lemma_pass_14(m13, ("prefix"@, "Right"@));
    lemma_pass_15(m14, ("prefix"@, "PPage"@));
    lemma_pass_15(m14, ("prefix"@, "Up"@));
    lemma_pass_15(m14, ("prefix"@, "Down"@));
    lemma_pass_15(m14, ("prefix"@, "Left"@));
    lemma_pass_15(m14, ("prefix"@, "Right"@));
    lemma_pass_16(m15, ("prefix"@, "PPage"@));
    lemma_pass_16(m15, ("prefix"@, "Up"@));
    lemma_pass_16(m15, ("prefix"@, "Down"@));
    lemma_pass_16(m15, ("prefix"@, "Left"@));
    lemma_pass_16(m15, ("prefix"@, "Right"@));
    lemma_pass_17(m16, ("prefix"@, "PPage"@));
    lemma_pass_17(m16, ("prefix"@, "Up"@));
    lemma_pass_17(m16, ("prefix"@, "Down"@));
    lemma_pass_17(m16, ("prefix"@, "Left"@));
    lemma_pass_17(m16, ("prefix"@, "Right"@));
    lemma_pass_18(m17, ("prefix"@, "PPage"@));
    lemma_pass_18(m17, ("prefix"@, "Up"@));
    lemma_pass_18(m17, ("prefix"@, "Down"@));
    lemma_pass_18(m17, ("prefix"@, "Left"@));
    lemma_pass_18(m17, ("prefix"@, "Right"@));
    lemma_pass_19(m18, ("prefix"@, "PPage"@));
    lemma_pass_19(m18, ("prefix"@, "Up"@));
    lemma_pass_19(m18, ("prefix"@, "Down"@));
    lemma_pass_19(m18, ("prefix"@, "Left"@));
    lemma_pass_19(m18, ("prefix"@, "Right"@));
    lemma_pass_20(m19, ("prefix"@, "PPage"@));
    lemma_pass_20(m19, ("prefix"@, "Up"@));
    lemma_pass_20(m19, ("prefix"@, "Down"@));
    lemma_pass_20(m19, ("prefix"@, "Left"@));
    lemma_pass_20(m19, ("prefix"@, "Right"@));
    lemma_pass_21(m20, ("prefix"@, "PPage"@));
    lemma_pass_21(m20, ("prefix"@, "Up"@));
    lemma_pass_21(m20, ("prefix"@, "Down"@));
    lemma_pass_21(m20, ("prefix"@, "Left"@));
    lemma_pass_21(m20, ("prefix"@, "Right"@));
    lemma_pass_22(m21, ("prefix"@, "PPage"@));
    lemma_pass_22(m21, ("prefix"@, "Up"@));
    lemma_pass_22(m21, ("prefix"@, "Down"@));
    lemma_pass_22(m21, ("prefix"@, "Left"@));
    lemma_pass_22(m21, ("prefix"@, "Right"@));
    lemma_pass_23(m22, ("prefix"@, "PPage"@));
    lemma_pass_23(m22, ("prefix"@, "Up"@));
    lemma_pass_23(m22, ("prefix"@, "Down"@));
    lemma_pass_23(m22, ("prefix"@, "Left"@));
    lemma_pass_23(m22, ("prefix"@, "Right"@));
    lemma_pass_24(m23, ("prefix"@, "PPage"@));
    lemma_pass_24(m23, ("prefix"@, "Up"@));
    lemma_pass_24(m23, ("prefix"@, "Down"@));
    lemma_pass_24(m23, ("prefix"@, "Left"@));
    lemma_pass_24(m23, ("prefix"@, "Right"@));
    lemma_pass_25(m24, ("prefix"@, "PPage"@));
    lemma_pass_25(m24, ("prefix"@, "Up"@));
    lemma_pass_25(m24, ("prefix"@, "Down"@));
    lemma_pass_25(m24, ("prefix"@, "Left"@));
    lemma_pass_25(m24, ("prefix"@, "Right"@));
    lemma_pass_26(m25, ("prefix"@, "PPage"@));
    lemma_pass_26(m25, ("prefix"@, "Up"@));
    lemma_pass_26(m25, ("prefix"@, "Down"@));
    lemma_pass_26(m25, ("prefix"@, "Left"@));
    lemma_pass_26(m25, ("prefix"@, "Right"@));
    lemma_pass_27(m26, ("prefix"@, "PPage"@));
    lemma_pass_27(m26, ("prefix"@, "Up"@));
    lemma_pass_27(m26, ("prefix"@, "Down"@));
    lemma_pass_27(m26, ("prefix"@, "Left"@));
    lemma_pass_27(m26, ("prefix"@, "Right"@));
    lemma_pass_28(m27, ("prefix"@, "PPage"@));
    lemma_pass_28(m27, ("prefix"@, "Up"@));
    lemma_pass_28(m27, ("prefix"@, "Down"@));
    lemma_pass_28(m27, ("prefix"@, "Left"@));
    lemma_pass_28(m27, ("prefix"@, "Right"@));
    lemma_pass_29(m28, ("prefix"@, "PPage"@));
    lemma_pass_29(m28, ("prefix"@, "Up"@));
    lemma_pass_29(m28, ("prefix"@, "Down"@));
    lemma_pass_29(m28, ("prefix"@, "Left"@));
    lemma_pass_29(m28, ("prefix"@, "Right"@));
    lemma_pass_30(m29, ("prefix"@, "PPage"@));
    lemma_pass_30(m29, ("prefix"@, "Up"@));
    lemma_pass_30(m29, ("prefix"@, "Down"@));
    lemma_pass_30(m29, ("prefix"@, "Left"@));
    lemma_pass_30(m29, ("prefix"@, "Right"@));
    lemma_pass_31(m30, ("prefix"@, "PPage"@));
    lemma_pass_31(m30, ("prefix"@, "Up"@));
    lemma_pass_31(m30, ("prefix"@, "Down"@));
    lemma_pass_31(m30, ("prefix"@, "Left"@));
    lemma_pass_31(m30, ("prefix"@, "Right"@));
    lemma_pass_32(m31, ("prefix"@, "PPage"@));
    lemma_pass_32(m31, ("prefix"@, "Up"@));
    lemma_pass_32(m31, ("prefix"@, "Down"@));
    lemma_pass_32(m31, ("prefix"@, "Left"@));
    lemma_pass_32(m31, ("prefix"@, "Right"@));
    lemma_pass_33(m32, ("prefix"@, "PPage"@));
    lemma_pass_33(m32, ("prefix"@, "Up"@));
    lemma_pass_33(m32, ("prefix"@, "Down"@));
    lemma_pass_33(m32, ("prefix"@, "Left"@));
    lemma_pass_33(m32, ("prefix"@, "Right"@));
    lemma_pass_34(m33, ("prefix"@, "PPage"@));
    lemma_pass_34(m33, ("prefix"@, "Up"@));
    lemma_pass_34(m33, ("prefix"@, "Down"@));
    lemma_pass_34(m33, ("prefix"@, "Left"@));
    lemma_pass_34(m33, ("prefix"@, "Right"@));
    lemma_pass_35(m34, ("prefix"@, "PPage"@));
    lemma_pass_35(m34, ("prefix"@, "Up"@));
    lemma_pass_35(m34, ("prefix"@, "Down"@));
    lemma_pass_35(m34, ("prefix"@, "Left"@));
    lemma_pass_35(m34, ("prefix"@, "Right"@));
    assert(table_defaults(m) == m35);
    lemma_digit_bindings(m35, 10);
    lemma_not_digit_key(("prefix"@, "PPage"@));
    lemma_not_digit_key(("prefix"@, "Up"@));
    lemma_not_digit_key(("prefix"@, "Down"@));
    lemma_not_digit_key(("prefix"@, "Left"@));
    lemma_not_digit_key(("prefix"@, "Right"@));
}

/// Default bindings: `&` in `prefix` runs `confirm-before -p kill-window #W? (y/n) kill-window`; `x` in `prefix` runs `confirm-before -p kill-pane #P? (y/n) kill-pane`; `PPage` in `copy-mode` runs `send-keys -X page-up`; `NPage` in `copy-mode` runs `send-keys -X page-down`; `Up` in `copy-mode` runs `send-keys -X cursor-up`.
pub proof fn lemma_defaults_6(m: Map<(Seq<char>, Seq<char>), BindingView>)
    ensures
        default_key_tables(m).contains_key(("prefix"@, "&"@)),
        default_key_tables(m)[("prefix"@, "&"@)] == (false, None::<Seq<char>>, seq!["confirm-before"@, "-p"@, "kill-window #W? (y/n)"@, "kill-window"@]),
        default_key_tables(m).contains_key(("prefix"@, "x"@)),
        default_key_tables(m)[("prefix"@, "x"@)] == (false, None::<Seq<char>>, seq!["confirm-before"@, "-p"@, "kill-pane #P? (y/n)"@, "kill-pane"@]),
        default_key_tables(m).contains_key(("copy-mode"@, "PPage"@)),
        default_key_tables(m)[("copy-mode"@, "PPage"@)] == (false, None::<Seq<char>>, seq!["send-keys"@, "-X"@, "page-up"@]),
        default_key_tables(m).contains_key(("copy-mode"@, "NPage"@)),
        default_key_tables(m)[("copy-mode"@, "NPage"@)] == (false, None::<Seq<char>>, seq!["send-keys"@, "-X"@, "page-down"@]),
        default_key_tables(m).contains_key(("copy-mode"@, "Up"@)),
        default_key_tables(m)[("copy-mode"@, "Up"@)] == (false, None::<Seq<char>>, seq!["send-keys"@, "-X"@, "cursor-up"@]),
{
    reveal_strlit("#");
    reveal_strlit("$");
    reveal_strlit("%");
    reveal_strlit("&");
    reveal_strlit("*");
    reveal_strlit(",");
    reveal_strlit("/");
    reveal_strlit("0");
    reveal_strlit("0x5e");
    reveal_strlit(":");
    reveal_strlit(";");
    reveal_strlit("?");
    reveal_strlit("A");
    reveal_strlit("B");
    reveal_strlit("BSpace");
    reveal_strlit("C-Down");
    reveal_strlit("C-M-b");
    reveal_strlit("C-M-f");
    reveal_strlit("C-Space");
    reveal_strlit("C-Up");
    reveal_strlit("C-[");
    reveal_strlit("C-a");
    reveal_strlit("C-b");
    reveal_strlit("C-c");
    reveal_strlit("C-d");
    reveal_strlit("C-e");
    reveal_strlit("C-f");
    reveal_strlit("C-g");
    reveal_strlit("C-h");
    reveal_strlit("C-j");
    reveal_strlit("C-k");
    reveal_strlit("C-l");
    reveal_strlit("C-n");
    reveal_strlit("C-p");
    reveal_strlit("C-r");
    reveal_strlit("C-s");
    reveal_strlit("C-u");
    reveal_strlit("C-v");
    reveal_strlit("C-w");
    reveal_strlit("C-y");
    reveal_strlit("D");
    reveal_strlit("DoubleClick1Pane");
    reveal_strlit("Down");
    reveal_strlit("E");
    reveal_strlit("End");
    reveal_strlit("Enter");
    reveal_strlit("Escape");
    reveal_strlit("F");
    reveal_strlit("G");
    reveal_strlit("H");
    reveal_strlit("Home");
    reveal_strlit("J");
    reveal_strlit("K");
    reveal_strlit("L");
    reveal_strlit("Left");
    reveal_strlit("M");
    reveal_strlit("M-<");
    reveal_strlit("M->");
    reveal_strlit("M-Down");
    reveal_strlit("M-R");
    reveal_strlit("M-Up");
    reveal_strlit("M-b");
    reveal_strlit("M-f");
    reveal_strlit("M-l");
    reveal_strlit("M-m");
    reveal_strlit("M-r");
    reveal_strlit("M-v");
    reveal_strlit("M-w");
    reveal_strlit("M-x");
    reveal_strlit("M-{");
    reveal_strlit("M-}");
    reveal_strlit("MouseDown1Pane");
    reveal_strlit("MouseDrag1Pane");
    reveal_strlit("MouseDragEnd1Pane");
    reveal_strlit("N");
    reveal_strlit("NPage");
    reveal_strlit("P");
    reveal_strlit("PPage");
    reveal_strlit("R");
    reveal_strlit("Right");
    reveal_strlit("Space");
    reveal_strlit("T");
    reveal_strlit("TripleClick1Pane");
    reveal_strlit("Up");
    reveal_strlit("V");
    reveal_strlit("W");
    reveal_strlit("WheelDownPane");
    reveal_strlit("WheelUpPane");
    reveal_strlit("X");
    reveal_strlit("b");
    reveal_strlit("copy-mode");
    reveal_strlit("copy-mode-vi");
    reveal_strlit("e");
    reveal_strlit("f");
    reveal_strlit("g");
    reveal_strlit("h");
    reveal_strlit("j");
    reveal_strlit("k");
    reveal_strlit("l");
    reveal_strlit("n");
    reveal_strlit("o");
    reveal_strlit("prefix");
    reveal_strlit("q");
    reveal_strlit("r");
    reveal_strlit("t");
    reveal_strlit("v");
    reveal_strlit("w");
    reveal_strlit("x");
    reveal_strlit("z");
    reveal_strlit("{");
    reveal_strlit("}");
    assert("&"@.len() == 1);
    assert("&"@[0] == '&');
    assert(","@.len() == 1);
    assert(";"@.len() == 1);
    assert("C-Down"@.len() == 6);
    assert("C-M-b"@.len() == 5);
    assert("C-M-b"@[0] == 'C');
    assert("C-M-f"@.len() == 5);
    assert("C-M-f"@[0] == 'C');
    assert("C-Space"@.len() == 7);
    assert("C-Up"@.len() == 4);
    assert("C-["@.len() == 3);
    assert("C-a"@.len() == 3);
    assert("C-b"@.len() == 3);
    assert("C-c"@.len() == 3);
    assert("C-e"@.len() == 3);
    assert("C-f"@.len() == 3);
    assert("C-g"@.len() == 3);
    assert("C-k"@.len() == 3);
    assert("C-l"@.len() == 3);
    assert("C-n"@.len() == 3);
    assert("C-p"@.len() == 3);
    assert("C-r"@.len() == 3);
    assert("C-s"@.len() == 3);
    assert("C-v"@.len() == 3);
    assert("C-w"@.len() == 3);
    assert("DoubleClick1Pane"@.len() == 16);
    assert("Down"@.len() == 4);
    assert("End"@.len() == 3);
    assert("Escape"@.len() == 6);
    assert("F"@.len() == 1);
    assert("Home"@.len() == 4);
    assert("Left"@.len() == 4);
    assert("M-<"@.len() == 3);
    assert("M->"@.len() == 3);
    assert("M-Down"@.len() == 6);
    assert("M-R"@.len() == 3);
    assert("M-Up"@.len() == 4);
    assert("M-b"@.len() == 3);
    assert("M-f"@.len() == 3);
    assert("M-l"@.len() == 3);
    assert("M-m"@.len() == 3);
    assert("M-r"@.len() == 3);
    assert("M-v"@.len() == 3);
    assert("M-w"@.len() == 3);
    assert("M-x"@.len() == 3);
    assert("M-{"@.len() == 3);
    assert("M-}"@.len() == 3);
    assert("MouseDown1Pane"@.len() == 14);
    assert("MouseDrag1Pane"@.len() == 14);
    assert("MouseDragEnd1Pane"@.len() == 17);
    assert("N"@.len() == 1);
    assert("NPage"@.len() == 5);
    assert("NPage"@[0] == 'N');
    assert("NPage"@[1] == 'P');
    assert("NPage"@[2] == 'a');
    assert("P"@.len() == 1);
    assert("PPage"@.len() == 5);
    assert("PPage"@[0] == 'P');
    assert("PPage"@[1] == 'P');
    assert("PPage"@[2] == 'a');
    assert("R"@.len() == 1);
    assert("Right"@.len() == 5);
    assert("Right"@[0] == 'R');
    assert("Space"@.len() == 5);
    assert("Space"@[0] == 'S');
    assert("T"@.len() == 1);
    assert("TripleClick1Pane"@.len() == 16);
    assert("Up"@.len() == 2);
    assert("Up"@[0] == 'U');
    assert("WheelDownPane"@.len() == 13);
    assert("WheelUpPane"@.len() == 11);
    assert("X"@.len() == 1);
    assert("copy-mode"@.len() == 9);
    assert("copy-mode-vi"@.len() == 12);
    assert("f"@.len() == 1);
    assert("g"@.len() == 1);
    assert("n"@.len() == 1);
    assert("prefix"@.len() == 6);
    assert("q"@.len() == 1);
    assert("r"@.len() == 1);
    assert("t"@.len() == 1);
    assert("x"@.len() == 1);
    assert("x"@[0] == 'x');
    let m0 = m;
    let m1 = default_bindings_1(m0);
    let m2 = default_bindings_2(m1);
    let m3 = default_bindings_3(m2);
    let m4 = default_bindings_4(m3);
    let m5 = default_bindings_5(m4);
    let m6 = default_bindings_6(m5);
    let m7 = default_bindings_7(m6);
    let m8 = default_bindings_8(m7);
    let m9 = default_bindings_9(m8);
    let m10 = default_bindings_10(m9);
    let m11 = default_bindings_11(m10);
    let m12 = default_bindings_12(m11);
    let m13 = default_bindings_13(m12);
    let m14 = default_bindings_14(m13);
    let m15 = default_bindings_15(m14);
    let m16 = default_bindings_16(m15);
    let m17 = default_bindings_17(m16);
    let m18 = default_bindings_18(m17);
    let m19 = default_bindings_19(m18);
    let m20 = default_bindings_20(m19);
    let m21 = default_bindings_21(m20);
    let m22 = default_bindings_22(m21);
    let m23 = default_bindings_23(m22);
    let m24 = default_bindings_24(m23);
    let m25 = default_bindings_25(m24);
    let m26 = default_bindings_26(m25);
    let m27 = default_bindings_27(m26);
    let m28 = default_bindings_28(m27);
    let m29 = default_bindings_29(m28);
    let m30 = default_bindings_30(m29);
    let m31 = default_bindings_31(m30);
    let m32 = default_bindings_32(m31);
    let m33 = default_bindings_33(m32);
    let m34 = default_bindings_34(m33);
    let m35 = default_bindings_35(m34);
    lemma_part_6(m5);
    lemma_pass_7(m6, ("prefix"@, "&"@));
    lemma_pass_7(m6, ("prefix"@, "x"@));
    lemma_pass_7(m6, ("copy-mode"@, "PPage"@));
    lemma_pass_7(m6, ("copy-mode"@, "NPage"@));
    lemma_pass_7(m6, ("copy-mode"@, "Up"@));
    lemma_pass_8(m7, ("prefix"@, "&"@));
    lemma_pass_8(m7, ("prefix"@, "x"@));
    lemma_pass_8(m7, ("copy-mode"@, "PPage"@));
    lemma_pass_8(m7, ("copy-mode"@, "NPage"@));
    lemma_pass_8(m7, ("copy-mode"@, "Up"@));
    lemma_pass_9(m8, ("prefix"@, "&"@));
    lemma_pass_9(m8, ("prefix"@, "x"@));
    lemma_pass_9(m8, ("copy-mode"@, "PPage"@));
    lemma_pass_9(m8, ("copy-mode"@, "NPage"@));
    lemma_pass_9(m8, ("copy-mode"@, "Up"@));
    lemma_pass_10(m9, ("prefix"@, "&"@));
    lemma_pass_10(m9, ("prefix"@, "x"@));
    lemma_pass_10(m9, ("copy-mode"@, "PPage"@));
    lemma_pass_10(m9, ("copy-mode"@, "NPage"@));
    lemma_pass_10(m9, ("copy-mode"@, "Up"@));
    lemma_pass_11(m10, ("prefix"@, "&"@));
    lemma_pass_11(m10, ("prefix"@, "x"@));
    lemma_pass_11(m10, ("copy-mode"@, "PPage"@));
    lemma_pass_11(m10, ("copy-mode"@, "NPage"@));
    lemma_pass_11(m10, ("copy-mode"@, "Up"@));
    lemma_pass_12(m11, ("prefix"@, "&"@));
    lemma_pass_12(m11, ("prefix"@, "x"@));
    lemma_pass_12(m11, ("copy-mode"@, "PPage"@));
    lemma_pass_12(m11, ("copy-mode"@, "NPage"@));
    lemma_pass_12(m11, ("copy-mode"@, "Up"@));
    lemma_pass_13(m12, ("prefix"@, "&"@));
    lemma_pass_13(m12, ("prefix"@, "x"@));
    lemma_pass_13(m12, ("copy-mode"@, "PPage"@));
    lemma_pass_13(m12, ("copy-mode"@, "NPage"@));
    lemma_pass_13(m12, ("copy-mode"@, "Up"@));
    lemma_pass_14(m13, ("prefix"@, "&"@));
    lemma_pass_14(m13, ("prefix"@, "x"@));
    lemma_pass_14(m13, ("copy-mode"@, "PPage"@));
    lemma_pass_14(m13, ("copy-mode"@, "NPage"@));
    lemma_pass_14(m13, ("copy-mode"@, "Up"@));
    lemma_pass_15(m14, ("prefix"@, "&"@));
    lemma_pass_15(m14, ("prefix"@, "x"@));
    lemma_pass_15(m14, ("copy-mode"@, "PPage"@));
    lemma_pass_15(m14, ("copy-mode"@, "NPage"@));
    lemma_pass_15(m14, ("copy-mode"@, "Up"@));
    lemma_pass_16(m15, ("prefix"@, "&"@));
    lemma_pass_16(m15, ("prefix"@, "x"@));
    lemma_pass_16(m15, ("copy-mode"@, "PPage"@));
    lemma_pass_16(m15, ("copy-mode"@, "NPage"@));
    lemma_pass_16(m15, ("copy-mode"@, "Up"@));
    lemma_pass_17(m16, ("prefix"@, "&"@));
    lemma_pass_17(m16, ("prefix"@, "x"@));
    lemma_pass_17(m16, ("copy-mode"@, "PPage"@));
    lemma_pass_17(m16, ("copy-mode"@, "NPage"@));
    lemma_pass_17(m16, ("copy-mode"@, "Up"@));
    lemma_pass_18(m17, ("prefix"@, "&"@));
    lemma_pass_18(m17, ("prefix"@, "x"@));
    lemma_pass_18(m17, ("copy-mode"@, "PPage"@));
    lemma_pass_18(m17, ("copy-mode"@, "NPage"@));
    lemma_pass_18(m17, ("copy-mode"@, "Up"@));
    lemma_pass_19(m18, ("prefix"@, "&"@));
    lemma_pass_19(m18, ("prefix"@, "x"@));
    lemma_pass_19(m18, ("copy-mode"@, "PPage"@));
    lemma_pass_19(m18, ("copy-mode"@, "NPage"@));
    lemma_pass_19(m18, ("copy-mode"@, "Up"@));
    lemma_pass_20(m19, ("prefix"@, "&"@));
    lemma_pass_20(m19, ("prefix"@, "x"@));
    lemma_pass_20(m19, ("copy-mode"@, "PPage"@));
    lemma_pass_20(m19, ("copy-mode"@, "NPage"@));
    lemma_pass_20(m19, ("copy-mode"@, "Up"@));
    lemma_pass_21(m20, ("prefix"@, "&"@));
    lemma_pass_21(m20, ("prefix"@, "x"@));
    lemma_pass_21(m20, ("copy-mode"@, "PPage"@));
    lemma_pass_21(m20, ("copy-mode"@, "NPage"@));
    lemma_pass_21(m20, ("copy-mode"@, "Up"@));
    lemma_pass_22(m21, ("prefix"@, "&"@));
    lemma_pass_22(m21, ("prefix"@, "x"@));
    lemma_pass_22(m21, ("copy-mode"@, "PPage"@));
    lemma_pass_22(m21, ("copy-mode"@, "NPage"@));
    lemma_pass_22(m21, ("copy-mode"@, "Up"@));
    lemma_pass_23(m22, ("prefix"@, "&"@));
    lemma_pass_23(m22, ("prefix"@, "x"@));
    lemma_pass_23(m22, ("copy-mode"@, "PPage"@));
    lemma_pass_23(m22, ("copy-mode"@, "NPage"@));
    lemma_pass_23(m22, ("copy-mode"@, "Up"@));
    lemma_pass_24(m23, ("prefix"@, "&"@));
    lemma_pass_24(m23, ("prefix"@, "x"@));
    lemma_pass_24(m23, ("copy-mode"@, "PPage"@));
    lemma_pass_24(m23, ("copy-mode"@, "NPage"@));
    lemma_pass_24(m23, ("copy-mode"@, "Up"@));
    lemma_pass_25(m24, ("prefix"@, "&"@));
    lemma_pass_25(m24, ("prefix"@, "x"@));
    lemma_pass_25(m24, ("copy-mode"@, "PPage"@));
    lemma_pass_25(m24, ("copy-mode"@, "NPage"@));
    lemma_pass_25(m24, ("copy-mode"@, "Up"@));
    lemma_pass_26(m25, ("prefix"@, "&"@));
    lemma_pass_26(m25, ("prefix"@, "x"@));
    lemma_pass_26(m25, ("copy-mode"@, "PPage"@));
    lemma_pass_26(m25, ("copy-mode"@, "NPage"@));
    lemma_pass_26(m25, ("copy-mode"@, "Up"@));
    lemma_pass_27(m26, ("prefix"@, "&"@));
    lemma_pass_27(m26, ("prefix"@, "x"@));
    lemma_pass_27(m26, ("copy-mode"@, "PPage"@));
    lemma_pass_27(m26, ("copy-mode"@, "NPage"@));
    lemma_pass_27(m26, ("copy-mode"@, "Up"@));
    lemma_pass_28(m27, ("prefix"@, "&"@));
    lemma_pass_28(m27, ("prefix"@, "x"@));
    lemma_pass_28(m27, ("copy-mode"@, "PPage"@));
    lemma_pass_28(m27, ("copy-mode"@, "NPage"@));
    lemma_pass_28(m27, ("copy-mode"@, "Up"@));
    lemma_pass_29(m28, ("prefix"@, "&"@));
    lemma_pass_29(m28, ("prefix"@, "x"@));
    lemma_pass_29(m28, ("copy-mode"@, "PPage"@));
    lemma_pass_29(m28, ("copy-mode"@, "NPage"@));
    lemma_pass_29(m28, ("copy-mode"@, "Up"@));
    lemma_pass_30(m29, ("prefix"@, "&"@));
    lemma_pass_30(m29, ("prefix"@, "x"@));
    lemma_pass_30(m29, ("copy-mode"@, "PPage"@));
    lemma_pass_30(m29, ("copy-mode"@, "NPage"@));
    lemma_pass_30(m29, ("copy-mode"@, "Up"@));
    lemma_pass_31(m30, ("prefix"@, "&"@));
    lemma_pass_31(m30, ("prefix"@, "x"@));
    lemma_pass_31(m30, ("copy-mode"@, "PPage"@));
    lemma_pass_31(m30, ("copy-mode"@, "NPage"@));
    lemma_pass_31(m30, ("copy-mode"@, "Up"@));
    lemma_pass_32(m31, ("prefix"@, "&"@));
    lemma_pass_32(m31, ("prefix"@, "x"@));
    lemma_pass_32(m31, ("copy-mode"@, "PPage"@));
    lemma_pass_32(m31, ("copy-mode"@, "NPage"@));
    lemma_pass_32(m31, ("copy-mode"@, "Up"@));
    lemma_pass_33(m32, ("prefix"@, "&"@));
    lemma_pass_33(m32, ("prefix"@, "x"@));
    lemma_pass_33(m32, ("copy-mode"@, "PPage"@));
    lemma_pass_33(m32, ("copy-mode"@, "NPage"@));
    lemma_pass_33(m32, ("copy-mode"@, "Up"@));
    lemma_pass_34(m33, ("prefix"@, "&"@));
    lemma_pass_34(m33, ("prefix"@, "x"@));
    lemma_pass_34(m33, ("copy-mode"@, "PPage"@));
    lemma_pass_34(m33, ("copy-mode"@, "NPage"@));
    lemma_pass_34(m33, ("copy-mode"@, "Up"@));
    lemma_pass_35(m34, ("prefix"@, "&"@));
    lemma_pass_35(m34, ("prefix"@, "x"@));
    lemma_pass_35(m34, ("copy-mode"@, "PPage"@));
    lemma_pass_35(m34, ("copy-mode"@, "NPage"@));
    lemma_pass_35(m34, ("copy-mode"@, "Up"@));
    assert(table_defaults(m) == m35);
    lemma_digit_bindings(m35, 10);
    lemma_not_digit_key(("prefix"@, "&"@));
    lemma_not_digit_key(("prefix"@, "x"@));
    lemma_not_digit_key(("copy-mode"@, "PPage"@));
    lemma_not_digit_key(("copy-mode"@, "NPage"@));
    lemma_not_digit_key(("copy-mode"@, "Up"@));
}

/// Default bindings: `Down` in `copy-mode` runs `send-keys -X cursor-down`; `q` in `copy-mode` runs `send-keys -X cancel`; `Escape` in `copy-mode` runs `send-keys -X cancel`; `C-c` in `copy-mode` runs `send-keys -X cancel`; `PPage` in `copy-mode-vi` runs `send-keys -X page-up`.
pub proof fn lemma_defaults_7(m: Map<(Seq<char>, Seq<char>), BindingView>)
    ensures
        default_key_tables(m).contains_key(("copy-mode"@, "Down"@)),
        default_key_tables(m)[("copy-mode"@, "Down"@)] == (false, None::<Seq<char>>, seq!["send-keys"@, "-X"@, "cursor-down"@]),
        default_key_tables(m).contains_key(("copy-mode"@, "q"@)),
        default_key_tables(m)[("copy-mode"@, "q"@)] == (false, None::<Seq<char>>, seq!["send-keys"@, "-X"@, "cancel"@]),
        default_key_tables(m).contains_key(("copy-mode"@, "Escape"@)),
        default_key_tables(m)[("copy-mode"@, "Escape"@)] == (false, None::<Seq<char>>, seq!["send-keys"@, "-X"@, "cancel"@]),
        default_key_tables(m).contains_key(("copy-mode"@, "C-c"@)),
        default_key_tables(m)[("copy-mode"@, "C-c"@)] == (false, None::<Seq<char>>, seq!["send-keys"@, "-X"@, "cancel"@]),
        default_key_tables(m).contains_key(("copy-mode-vi"@, "PPage"@)),
        default_key_tables(m)[("copy-mode-vi"@, "PPage"@)] == (false, None::<Seq<char>>, seq!["send-keys"@, "-X"@, "page-up"@]),
{
    reveal_strlit("#");
    reveal_strlit("$");
    reveal_strlit("%");
    reveal_strlit("*");
    reveal_strlit(",");
    reveal_strlit("/");
    reveal_strlit("0");
    reveal_strlit("0x5e");
    reveal_strlit(":");
    reveal_strlit(";");
    reveal_strlit("?");
    reveal_strlit("A");
    reveal_strlit("B");
    reveal_strlit("BSpace");
    reveal_strlit("C-Down");
    reveal_strlit("C-M-b");
    reveal_strlit("C-M-f");
    reveal_strlit("C-Space");
    reveal_strlit("C-Up");
    reveal_strlit("C-[");
    reveal_strlit("C-a");
    reveal_strlit("C-b");
    reveal_strlit("C-c");
    reveal_strlit("C-d");
    reveal_strlit("C-e");
    reveal_strlit("C-f");
    reveal_strlit("C-g");
    reveal_strlit("C-h");
    reveal_strlit("C-j");
    reveal_strlit("C-k");
    reveal_strlit("C-l");
    reveal_strlit("C-n");
    reveal_strlit("C-p");
    reveal_strlit("C-r");
    reveal_strlit("C-s");
    reveal_strlit("C-u");
    reveal_strlit("C-v");
    reveal_strlit("C-w");
    reveal_strlit("C-y");
    reveal_strlit("D");
    reveal_strlit("DoubleClick1Pane");
    reveal_strlit("Down");
    reveal_strlit("E");
    reveal_strlit("End");
    reveal_strlit("Enter");
    reveal_strlit("Escape");
    reveal_strlit("F");
    reveal_strlit("G");
    reveal_strlit("H");
    reveal_strlit("Home");
    reveal_strlit("J");
    reveal_strlit("K");
    reveal_strlit("L");
    reveal_strlit("Left");
    reveal_strlit("M");
    reveal_strlit("M-<");
    reveal_strlit("M->");
    reveal_strlit("M-Down");
    reveal_strlit("M-R");
    reveal_strlit("M-Up");
    reveal_strlit("M-b");
    reveal_strlit("M-f");
    reveal_strlit("M-l");
    reveal_strlit("M-m");
    reveal_strlit("M-r");
    reveal_strlit("M-v");
    reveal_strlit("M-w");
    reveal_strlit("M-x");
    reveal_strlit("M-{");
    reveal_strlit("M-}");
    reveal_strlit("MouseDown1Pane");
    reveal_strlit("MouseDrag1Pane");
    reveal_strlit("MouseDragEnd1Pane");
    reveal_strlit("N");
    reveal_strlit("NPage");
    reveal_strlit("P");
    reveal_strlit("PPage");
    reveal_strlit("R");
    reveal_strlit("Right");
    reveal_strlit("Space");
    reveal_strlit("T");
    reveal_strlit("TripleClick1Pane");
    reveal_strlit("Up");
    reveal_strlit("V");
    reveal_strlit("W");
    reveal_strlit("WheelDownPane");
    reveal_strlit("WheelUpPane");
    reveal_strlit("X");
    reveal_strlit("b");
    reveal_strlit("copy-mode");
    reveal_strlit("copy-mode-vi");
    reveal_strlit("e");
    reveal_strlit("f");
    reveal_strlit("g");
    reveal_strlit("h");
    reveal_strlit("j");
    reveal_strlit("k");
    reveal_strlit("l");
    reveal_strlit("n");
    reveal_strlit("o");
    reveal_strlit("q");
    reveal_strlit("r");
    reveal_strlit("t");
    reveal_strlit("v");
    reveal_strlit("w");
    reveal_strlit("z");
    reveal_strlit("{");
    reveal_strlit("}");
    assert("#"@.len() == 1);
    assert("$"@.len() == 1);
    assert("%"@.len() == 1);
    assert("*"@.len() == 1);
    assert(","@.len() == 1);
    assert(","@[0] == ',');
    assert("/"@.len() == 1);
    assert("0"@.len() == 1);
    assert("0x5e"@.len() == 4);
    assert(":"@.len() == 1);
    assert(";"@.len() == 1);
    assert(";"@[0] == ';');
    assert("?"@.len() == 1);
    assert("A"@.len() == 1);
    assert("B"@.len() == 1);
    assert("BSpace"@.len() == 6);
    assert("C-Down"@.len() == 6);
    assert("C-Down"@[0] == 'C');
    assert("C-M-b"@.len() == 5);
    assert("C-M-f"@.len() == 5);
    assert("C-Space"@.len() == 7);
    assert("C-Up"@.len() == 4);
    assert("C-Up"@[0] == 'C');
    assert("C-["@.len() == 3);
    assert("C-["@[2] == '[');
    assert("C-a"@.len() == 3);
    assert("C-a"@[2] == 'a');
    assert("C-b"@.len() == 3);
    assert("C-b"@[2] == 'b');
    assert("C-c"@.len() == 3);
    assert("C-c"@[0] == 'C');
    assert("C-c"@[1] == '-');
    assert("C-c"@[2] == 'c');
    assert("C-d"@.len() == 3);
    assert("C-e"@.len() == 3);
    assert("C-e"@[2] == 'e');
    assert("C-f"@.len() == 3);
    assert("C-f"@[2] == 'f');
    assert("C-g"@.len() == 3);
    assert("C-g"@[2] == 'g');
    assert("C-h"@.len() == 3);
    assert("C-j"@.len() == 3);
    assert("C-k"@.len() == 3);
    assert("C-k"@[2] == 'k');
    assert("C-l"@.len() == 3);
    assert("C-l"@[2] == 'l');
    assert("C-n"@.len() == 3);
    assert("C-n"@[2] == 'n');
    assert("C-p"@.len() == 3);
    assert("C-p"@[2] == 'p');
    assert("C-r"@.len() == 3);
    assert("C-r"@[2] == 'r');
    assert("C-s"@.len() == 3);
    assert("C-s"@[2] == 's');
    assert("C-u"@.len() == 3);
    assert("C-v"@.len() == 3);
    assert("C-v"@[2] == 'v');
    assert("C-w"@.len() == 3);
    assert("C-w"@[2] == 'w');
    assert("C-y"@.len() == 3);
    assert("D"@.len() == 1);
    assert("DoubleClick1Pane"@.len() == 16);
    assert("Down"@.len() == 4);
    assert("Down"@[0] == 'D');
    assert("Down"@[1] == 'o');
    assert("Down"@[2] == 'w');
    assert("E"@.len() == 1);
    assert("End"@.len() == 3);
    assert("End"@[0] == 'E');
    assert("Enter"@[0] == 'E');
    assert("Escape"@.len() == 6);
    assert("Escape"@[0] == 'E');
    assert("Escape"@[1] == 's');
    assert("Escape"@[2] == 'c');
    assert("F"@.len() == 1);
    assert("F"@[0] == 'F');
    assert("G"@.len() == 1);
    assert("H"@.len() == 1);
    assert("Home"@.len() == 4);
    assert("Home"@[0] == 'H');
    assert("J"@.len() == 1);
    assert("K"@.len() == 1);
    assert("L"@.len() == 1);
    assert("Left"@.len() == 4);
    assert("Left"@[0] == 'L');
    assert("M"@.len() == 1);
    assert("M-<"@.len() == 3);
    assert("M-<"@[0] == 'M');
    assert("M->"@.len() == 3);
    assert("M->"@[0] == 'M');
    assert("M-Down"@.len() == 6);
    assert("M-Down"@[0] == 'M');
    assert("M-R"@.len() == 3);
    assert("M-R"@[0] == 'M');
    assert("M-Up"@.len() == 4);
    assert("M-Up"@[0] == 'M');
    assert("M-b"@.len() == 3);
    assert("M-b"@[0] == 'M');
    assert("M-f"@.len() == 3);
    assert("M-f"@[0] == 'M');
    assert("M-l"@.len() == 3);
    assert("M-l"@[0] == 'M');
    assert("M-m"@.len() == 3);
    assert("M-m"@[0] == 'M');
    assert("M-r"@.len() == 3);
    assert("M-r"@[0] == 'M');
    assert("M-v"@.len() == 3);
    assert("M-v"@[0] == 'M');
    assert("M-w"@.len() == 3);
    assert("M-w"@[0] == 'M');
    assert("M-x"@.len() == 3);
    assert("M-x"@[0] == 'M');
    assert("M-{"@.len() == 3);
    assert("M-{"@[0] == 'M');
    assert("M-}"@.len() == 3);
    assert("M-}"@[0] == 'M');
    assert("MouseDown1Pane"@.len() == 14);
    assert("MouseDrag1Pane"@.len() == 14);
    assert("MouseDragEnd1Pane"@.len() == 17);
    assert("N"@.len() == 1);
    assert("N"@[0] == 'N');
    assert("NPage"@[0] == 'N');
    assert("P"@.len() == 1);
    assert("P"@[0] == 'P');
    assert("PPage"@.len() == 5);
    assert("PPage"@[0] == 'P');
    assert("PPage"@[1] == 'P');
    assert("PPage"@[2] == 'a');
    assert("R"@.len() == 1);
    assert("R"@[0] == 'R');
    assert("Right"@.len() == 5);
    assert("Right"@[0] == 'R');
    assert("Space"@.len() == 5);
    assert("Space"@[0] == 'S');
    assert("T"@.len() == 1);
    assert("T"@[0] == 'T');
    assert("TripleClick1Pane"@.len() == 16);
    assert("Up"@.len() == 2);
    assert("V"@.len() == 1);
    assert("W"@.len() == 1);
    assert("WheelDownPane"@.len() == 13);
    assert("WheelUpPane"@.len() == 11);
    assert("X"@.len() == 1);
    assert("X"@[0] == 'X');
    assert("b"@.len() == 1);
    assert("copy-mode"@.len() == 9);
    assert("copy-mode-vi"@.len() == 12);
    assert("e"@.len() == 1);
    assert("f"@.len() == 1);
    assert("f"@[0] == 'f');
    assert("g"@.len() == 1);
    assert("g"@[0] == 'g');
    assert("h"@.len() == 1);
    assert("j"@.len() == 1);
    assert("k"@.len() == 1);
    assert("l"@.len() == 1);
    assert("n"@.len() == 1);
    assert("n"@[0] == 'n');
    assert("o"@.len() == 1);
    assert("q"@.len() == 1);
    assert("q"@[0] == 'q');
    assert("r"@.len() == 1);
    assert("r"@[0] == 'r');
    assert("t"@.len() == 1);
    assert("t"@[0] == 't');
    assert("v"@.len() == 1);
    assert("w"@.len() == 1);
    assert("z"@.len() == 1);
    assert("{"@.len() == 1);
    assert("}"@.len() == 1);
    let m0 = m;
    let m1 = default_bindings_1(m0);
    let m2 = default_bindings_2(m1);
    let m3 = default_bindings_3(m2);
    let m4 = default_bindings_4(m3);
    let m5 = default_bindings_5(m4);
    let m6 = default_bindings_6(m5);
    let m7 = default_bindings_7(m6);
    let m8 = default_bindings_8(m7);
    let m9 = default_bindings_9(m8);
    let m10 = default_bindings_10(m9);
    let m11 = default_bindings_11(m10);
    let m12 = default_bindings_12(m11);
    let m13 = default_bindings_13(m12);
    let m14 = default_bindings_14(m13);
    let m15 = default_bindings_15(m14);
    let m16 = default_bindings_16(m15);
    let m17 = default_bindings_17(m16);
    let m18 = default_bindings_18(m17);
    let m19 = default_bindings_19(m18);
    let m20 = default_bindings_20(m19);
    let m21 = default_bindings_21(m20);
    let m22 = default_bindings_22(m21);
    let m23 = default_bindings_23(m22);
    let m24 = default_bindings_24(m23);
    let m25 = default_bindings_25(m24);
    let m26 = default_bindings_26(m25);
    let m27 = default_bindings_27(m26);
    let m28 = default_bindings_28(m27);
    let m29 = default_bindings_29(m28);
    let m30 = default_bindings_30(m29);
    let m31 = default_bindings_31(m30);
    let m32 = default_bindings_32(m31);
    let m33 = default_bindings_33(m32);
    let m34 = default_bindings_34(m33);
    let m35 = default_bindings_35(m34);
    lemma_part_7(m6);
    lemma_pass_8(m7, ("copy-mode"@, "Down"@));
    lemma_pass_8(m7, ("copy-mode"@, "q"@));
    lemma_pass_8(m7, ("copy-mode"@, "Escape"@));
    lemma_pass_8(m7, ("copy-mode"@, "C-c"@));
    lemma_pass_8(m7, ("copy-mode-vi"@, "PPage"@));
    lemma_pass_9(m8, ("copy-mode"@, "Down"@));
    lemma_pass_9(m8, ("copy-mode"@, "q"@));
    lemma_pass_9(m8, ("copy-mode"@, "Escape"@));
    lemma_pass_9(m8, ("copy-mode"@, "C-c"@));
    lemma_pass_9(m8, ("copy-mode-vi"@, "PPage"@));
    lemma_pass_10(m9, ("copy-mode"@, "Down"@));
    lemma_pass_10(m9, ("copy-mode"@, "q"@));
    lemma_pass_10(m9, ("copy-mode"@, "Escape"@));
    lemma_pass_10(m9, ("copy-mode"@, "C-c"@));
    lemma_pass_10(m9, ("copy-mode-vi"@, "PPage"@));
    lemma_pass_11(m10, ("copy-mode"@, "Down"@));
    lemma_pass_11(m10, ("copy-mode"@, "q"@));
    lemma_pass_11(m10, ("copy-mode"@, "Escape"@));
    lemma_pass_11(m10, ("copy-mode"@, "C-c"@));
    lemma_pass_11(m10, ("copy-mode-vi"@, "PPage"@));
    lemma_pass_12(m11, ("copy-mode"@, "Down"@));
    lemma_pass_12(m11, ("copy-mode"@, "q"@));
    lemma_pass_12(m11, ("copy-mode"@, "Escape"@));
    lemma_pass_12(m11, ("copy-mode"@, "C-c"@));
    lemma_pass_12(m11, ("copy-mode-vi"@, "PPage"@));
    lemma_pass_13(m12, ("copy-mode"@, "Down"@));
    lemma_pass_13(m12, ("copy-mode"@, "q"@));
    lemma_pass_13(m12, ("copy-mode"@, "Escape"@));
    lemma_pass_13(m12, ("copy-mode"@, "C-c"@));
    lemma_pass_13(m12, ("copy-mode-vi"@, "PPage"@));
    lemma_pass_14(m13, ("copy-mode"@, "Down"@));
    lemma_pass_14(m13, ("copy-mode"@, "q"@));
    lemma_pass_14(m13, ("copy-mode"@, "Escape"@));
    lemma_pass_14(m13, ("copy-mode"@, "C-c"@));
    lemma_pass_14(m13, ("copy-mode-vi"@, "PPage"@));
    lemma_pass_15(m14, ("copy-mode"@, "Down"@));
    lemma_pass_15(m14, ("copy-mode"@, "q"@));
    lemma_pass_15(m14, ("copy-mode"@, "Escape"@));
    lemma_pass_15(m14, ("copy-mode"@, "C-c"@));
    lemma_pass_15(m14, ("copy-mode-vi"@, "PPage"@));
    lemma_pass_16(m15, ("copy-mode"@, "Down"@));
    lemma_pass_16(m15, ("copy-mode"@, "q"@));
    lemma_pass_16(m15, ("copy-mode"@, "Escape"@));
    lemma_pass_16(m15, ("copy-mode"@, "C-c"@));
    lemma_pass_16(m15, ("copy-mode-vi"@, "PPage"@));
    lemma_pass_17(m16, ("copy-mode"@, "Down"@));
    lemma_pass_17(m16, ("copy-mode"@, "q"@));
    lemma_pass_17(m16, ("copy-mode"@, "Escape"@));
    lemma_pass_17(m16, ("copy-mode"@, "C-c"@));
    lemma_pass_17(m16, ("copy-mode-vi"@, "PPage"@));
    lemma_pass_18(m17, ("copy-mode"@, "Down"@));
    lemma_pass_18(m17, ("copy-mode"@, "q"@));
    lemma_pass_18(m17, ("copy-mode"@, "Escape"@));
    lemma_pass_18(m17, ("copy-mode"@, "C-c"@));
    lemma_pass_18(m17, ("copy-mode-vi"@, "PPage"@));
    lemma_pass_19(m18, ("copy-mode"@, "Down"@));
    lemma_pass_19(m18, ("copy-mode"@, "q"@));
    lemma_pass_19(m18, ("copy-mode"@, "Escape"@));
    lemma_pass_19(m18, ("copy-mode"@, "C-c"@));
    lemma_pass_19(m18, ("copy-mode-vi"@, "PPage"@));
    lemma_pass_20(m19, ("copy-mode"@, "Down"@));
    lemma_pass_20(m19, ("copy-mode"@, "q"@));
    lemma_pass_20(m19, ("copy-mode"@, "Escape"@));
    lemma_pass_20(m19, ("copy-mode"@, "C-c"@));
    lemma_pass_20(m19, ("copy-mode-vi"@, "PPage"@));
    lemma_pass_21(m20, ("copy-mode"@, "Down"@));
    lemma_pass_21(m20, ("copy-mode"@, "q"@));
    lemma_pass_21(m20, ("copy-mode"@, "Escape"@));
    lemma_pass_21(m20, ("copy-mode"@, "C-c"@));
    lemma_pass_21(m20, ("copy-mode-vi"@, "PPage"@));
    lemma_pass_22(m21, ("copy-mode"@, "Down"@));
    lemma_pass_22(m21, ("copy-mode"@, "q"@));
    lemma_pass_22(m21, ("copy-mode"@, "Escape"@));
    lemma_pass_22(m21, ("copy-mode"@, "C-c"@));
    lemma_pass_22(m21, ("copy-mode-vi"@, "PPage"@));
    lemma_pass_23(m22, ("copy-mode"@, "Down"@));
    lemma_pass_23(m22, ("copy-mode"@, "q"@));
    lemma_pass_23(m22, ("copy-mode"@, "Escape"@));
    lemma_pass_23(m22, ("copy-mode"@, "C-c"@));
    lemma_pass_23(m22, ("copy-mode-vi"@, "PPage"@));
    lemma_pass_24(m23, ("copy-mode"@, "Down"@));
    lemma_pass_24(m23, ("copy-mode"@, "q"@));
    lemma_pass_24(m23, ("copy-mode"@, "Escape"@));
    lemma_pass_24(m23, ("copy-mode"@, "C-c"@));
    lemma_pass_24(m23, ("copy-mode-vi"@, "PPage"@));
    lemma_pass_25(m24, ("copy-mode"@, "Down"@));
    lemma_pass_25(m24, ("copy-mode"@, "q"@));
    lemma_pass_25(m24, ("copy-mode"@, "Escape"@));
    lemma_pass_25(m24, ("copy-mode"@, "C-c"@));
    lemma_pass_25(m24, ("copy-mode-vi"@, "PPage"@));
    lemma_pass_26(m25, ("copy-mode"@, "Down"@));
    lemma_pass_26(m25, ("copy-mode"@, "q"@));
    lemma_pass_26(m25, ("copy-mode"@, "Escape"@));
    lemma_pass_26(m25, ("copy-mode"@, "C-c"@));
    lemma_pass_26(m25, ("copy-mode-vi"@, "PPage"@));
    lemma_pass_27(m26, ("copy-mode"@, "Down"@));
    lemma_pass_27(m26, ("copy-mode"@, "q"@));
    lemma_pass_27(m26, ("copy-mode"@, "Escape"@));
    lemma_pass_27(m26, ("copy-mode"@, "C-c"@));
    lemma_pass_27(m26, ("copy-mode-vi"@, "PPage"@));
    lemma_pass_28(m27, ("copy-mode"@, "Down"@));
    lemma_pass_28(m27, ("copy-mode"@, "q"@));
    lemma_pass_28(m27, ("copy-mode"@, "Escape"@));
    lemma_pass_28(m27, ("copy-mode"@, "C-c"@));
    lemma_pass_28(m27, ("copy-mode-vi"@, "PPage"@));
    lemma_pass_29(m28, ("copy-mode"@, "Down"@));
    lemma_pass_29(m28, ("copy-mode"@, "q"@));
    lemma_pass_29(m28, ("copy-mode"@, "Escape"@));
    lemma_pass_29(m28, ("copy-mode"@, "C-c"@));
    lemma_pass_29(m28, ("copy-mode-vi"@, "PPage"@));
    lemma_pass_30(m29, ("copy-mode"@, "Down"@));
    lemma_pass_30(m29, ("copy-mode"@, "q"@));
    lemma_pass_30(m29, ("copy-mode"@, "Escape"@));
    lemma_pass_30(m29, ("copy-mode"@, "C-c"@));
    lemma_pass_30(m29, ("copy-mode-vi"@, "PPage"@));
    lemma_pass_31(m30, ("copy-mode"@, "Down"@));
    lemma_pass_31(m30, ("copy-mode"@, "q"@));
    lemma_pass_31(m30, ("copy-mode"@, "Escape"@));
    lemma_pass_31(m30, ("copy-mode"@, "C-c"@));
    lemma_pass_31(m30, ("copy-mode-vi"@, "PPage"@));
    lemma_pass_32(m31, ("copy-mode"@, "Down"@));
    lemma_pass_32(m31, ("copy-mode"@, "q"@));
    lemma_pass_32(m31, ("copy-mode"@, "Escape"@));
    lemma_pass_32(m31, ("copy-mode"@, "C-c"@));
    lemma_pass_32(m31, ("copy-mode-vi"@, "PPage"@));
    lemma_pass_33(m32, ("copy-mode"@, "Down"@));
    lemma_pass_33(m32, ("copy-mode"@, "q"@));
    lemma_pass_33(m32, ("copy-mode"@, "Escape"@));
    lemma_pass_33(m32, ("copy-mode"@, "C-c"@));
    lemma_pass_33(m32, ("copy-mode-vi"@, "PPage"@));
    lemma_pass_34(m33, ("copy-mode"@, "Down"@));
    lemma_pass_34(m33, ("copy-mode"@, "q"@));
    lemma_pass_34(m33, ("copy-mode"@, "Escape"@));
    lemma_pass_34(m33, ("copy-mode"@, "C-c"@));
    lemma_pass_34(m33, ("copy-mode-vi"@, "PPage"@));
    lemma_pass_35(m34, ("copy-mode"@, "Down"@));
    lemma_pass_35(m34, ("copy-mode"@, "q"@));
    lemma_pass_35(m34, ("copy-mode"@, "Escape"@));
    lemma_pass_35(m34, ("copy-mode"@, "C-c"@));
    lemma_pass_35(m34, ("copy-mode-vi"@, "PPage"@));
    assert(table_defaults(m) == m35);
    lemma_digit_bindings(m35, 10);
    lemma_not_digit_key(("copy-mode"@, "Down"@));
    lemma_not_digit_key(("copy-mode"@, "q"@));
    lemma_not_digit_key(("copy-mode"@, "Escape"@));
    lemma_not_digit_key(("copy-mode"@, "C-c"@));
    lemma_not_digit_key(("copy-mode-vi"@, "PPage"@));
}

/// Default bindings: `NPage` in `copy-mode-vi` runs `send-keys -X page-down`; `Up` in `copy-mode-vi` runs `send-keys -X cursor-up`; `Down` in `copy-mode-vi` runs `send-keys -X cursor-down`; `k` in `copy-mode-vi` runs `send-keys -X cursor-up`; `j` in `copy-mode-vi` runs `send-keys -X cursor-down`.
pub proof fn lemma_defaults_8(m: Map<(Seq<char>, Seq<char>), BindingView>)
    ensures
        default_key_tables(m).contains_key(("copy-mode-vi"@, "NPage"@)),
        default_key_tables(m)[("copy-mode-vi"@, "NPage"@)] == (false, None::<Seq<char>>, seq!["send-keys"@, "-X"@, "page-down"@]),
        default_key_tables(m).contains_key(("copy-mode-vi"@, "Up"@)),
        default_key_tables(m)[("copy-mode-vi"@, "Up"@)] == (false, None::<Seq<char>>, seq!["send-keys"@, "-X"@, "cursor-up"@]),
        default_key_tables(m).contains_key(("copy-mode-vi"@, "Down"@)),
        default_key_tables(m)[("copy-mode-vi"@, "Down"@)] == (false, None::<Seq<char>>, seq!["send-keys"@, "-X"@, "cursor-down"@]),
        default_key_tables(m).contains_key(("copy-mode-vi"@, "k"@)),
        default_key_tables(m)[("copy-mode-vi"@, "k"@)] == (false, None::<Seq<char>>, seq!["send-keys"@, "-X"@, "cursor-up"@]),
        default_key_tables(m).contains_key(("copy-mode-vi"@, "j"@)),
        default_key_tables(m)[("copy-mode-vi"@, "j"@)] == (false, None::<Seq<char>>, seq!["send-keys"@, "-X"@, "cursor-down"@]),
{
    reveal_strlit("#");
    reveal_strlit("$");
    reveal_strlit("%");
    reveal_strlit("*");
    reveal_strlit(",");
    reveal_strlit("/");
    reveal_strlit("0");
    reveal_strlit("0x5e");
    reveal_strlit(":");
    reveal_strlit(";");
    reveal_strlit("?");
    reveal_strlit("A");
    reveal_strlit("B");
    reveal_strlit("BSpace");
    reveal_strlit("C-Down");
    reveal_strlit("C-M-b");
    reveal_strlit("C-M-f");
    reveal_strlit("C-Space");
    reveal_strlit("C-Up");
    reveal_strlit("C-[");
    reveal_strlit("C-a");
    reveal_strlit("C-b");
    reveal_strlit("C-c");
    reveal_strlit("C-d");
    reveal_strlit("C-e");
    reveal_strlit("C-f");
    reveal_strlit("C-g");
    reveal_strlit("C-h");
    reveal_strlit("C-j");
    reveal_strlit("C-k");
    reveal_strlit("C-l");
    reveal_strlit("C-n");
    reveal_strlit("C-p");
    reveal_strlit("C-r");
    reveal_strlit("C-s");
    reveal_strlit("C-u");
    reveal_strlit("C-v");
    reveal_strlit("C-w");
    reveal_strlit("C-y");
    reveal_strlit("D");
    reveal_strlit("DoubleClick1Pane");
    reveal_strlit("Down");
    reveal_strlit("E");
    reveal_strlit("End");
    reveal_strlit("Enter");
    reveal_strlit("Escape");
    reveal_strlit("F");
    reveal_strlit("G");
    reveal_strlit("H");
    reveal_strlit("Home");
    reveal_strlit("J");
    reveal_strlit("K");
    reveal_strlit("L");
    reveal_strlit("Left");
    reveal_strlit("M");
    reveal_strlit("M-<");
    reveal_strlit("M->");
    reveal_strlit("M-Down");
    reveal_strlit("M-R");
    reveal_strlit("M-Up");
    reveal_strlit("M-b");
    reveal_strlit("M-f");
    reveal_strlit("M-l");
    reveal_strlit("M-m");
    reveal_strlit("M-r");
    reveal_strlit("M-v");
    reveal_strlit("M-w");
    reveal_strlit("M-x");
    reveal_strlit("M-{");
    reveal_strlit("M-}");
    reveal_strlit("MouseDown1Pane");
    reveal_strlit("MouseDrag1Pane");
    reveal_strlit("MouseDragEnd1Pane");
    reveal_strlit("N");
    reveal_strlit("NPage");
    reveal_strlit("P");
    reveal_strlit("R");
    reveal_strlit("Right");
    reveal_strlit("Space");
    reveal_strlit("T");
    reveal_strlit("TripleClick1Pane");
    reveal_strlit("Up");
    reveal_strlit("V");
    reveal_strlit("W");
    reveal_strlit("WheelDownPane");
    reveal_strlit("WheelUpPane");
    reveal_strlit("X");
    reveal_strlit("b");
    reveal_strlit("copy-mode");
    reveal_strlit("copy-mode-vi");
    reveal_strlit("e");
    reveal_strlit("f");
    reveal_strlit("g");
    reveal_strlit("h");
    reveal_strlit("j");
    reveal_strlit("k");
    reveal_strlit("l");
    reveal_strlit("n");
    reveal_strlit("o");
    reveal_strlit("q");
    reveal_strlit("r");
    reveal_strlit("t");
    reveal_strlit("v");
    reveal_strlit("w");
    reveal_strlit("z");
    reveal_strlit("{");
    reveal_strlit("}");
    assert("#"@.len() == 1);
    assert("#"@[0] == '#');
    assert("$"@.len() == 1);
    assert("$"@[0] == '$');
    assert("%"@.len() == 1);
    assert("%"@[0] == '%');
    assert("*"@.len() == 1);
    assert("*"@[0] == '*');
    assert(","@.len() == 1);
    assert(","@[0] == ',');
    assert("/"@.len() == 1);
    assert("/"@[0] == '/');
    assert("0"@.len() == 1);
    assert("0"@[0] == '0');
    assert("0x5e"@.len() == 4);
    assert("0x5e"@[0] == '0');
    assert(":"@.len() == 1);
    assert(":"@[0] == ':');
    assert(";"@.len() == 1);
    assert(";"@[0] == ';');
    assert("?"@.len() == 1);
    assert("?"@[0] == '?');
    assert("A"@.len() == 1);
    assert("A"@[0] == 'A');
    assert("B"@.len() == 1);
    assert("B"@[0] == 'B');
    assert("BSpace"@.len() == 6);
    assert("C-Down"@.len() == 6);
    assert("C-Up"@.len() == 4);
    assert("C-Up"@[0] == 'C');
    assert("C-["@.len() == 3);
    assert("C-b"@.len() == 3);
    assert("C-c"@.len() == 3);
    assert("C-d"@.len() == 3);
    assert("C-e"@.len() == 3);
    assert("C-f"@.len() == 3);
    assert("C-h"@.len() == 3);
    assert("C-j"@.len() == 3);
    assert("C-u"@.len() == 3);
    assert("C-v"@.len() == 3);
    assert("C-y"@.len() == 3);
    assert("D"@.len() == 1);
    assert("D"@[0] == 'D');
    assert("DoubleClick1Pane"@.len() == 16);
    assert("Down"@.len() == 4);
    assert("Down"@[0] == 'D');
    assert("Down"@[1] == 'o');
    assert("Down"@[2] == 'w');
    assert("E"@.len() == 1);
    assert("E"@[0] == 'E');
    assert("End"@.len() == 3);
    assert("Enter"@.len() == 5);
    assert("Enter"@[0] == 'E');
    assert("Escape"@.len() == 6);
    assert("F"@.len() == 1);
    assert("F"@[0] == 'F');
    assert("G"@.len() == 1);
    assert("G"@[0] == 'G');
    assert("H"@.len() == 1);
    assert("H"@[0] == 'H');
    assert("Home"@.len() == 4);
    assert("Home"@[0] == 'H');
    assert("J"@.len() == 1);
    assert("J"@[0] == 'J');
    assert("K"@.len() == 1);
    assert("K"@[0] == 'K');
    assert("L"@.len() == 1);
    assert("L"@[0] == 'L');
    assert("Left"@.len() == 4);
    assert("Left"@[0] == 'L');
    assert("M"@.len() == 1);
    assert("M"@[0] == 'M');
    assert("M-x"@.len() == 3);
    assert("MouseDown1Pane"@.len() == 14);
    assert("MouseDrag1Pane"@.len() == 14);
    assert("MouseDragEnd1Pane"@.len() == 17);
    assert("N"@.len() == 1);
    assert("N"@[0] == 'N');
    assert("NPage"@.len() == 5);
    assert("NPage"@[0] == 'N');
    assert("NPage"@[1] == 'P');
    assert("NPage"@[2] == 'a');
    assert("P"@.len() == 1);
    assert("P"@[0] == 'P');
    assert("Right"@.len() == 5);
    assert("Right"@[0] == 'R');
    assert("Space"@.len() == 5);
    assert("Space"@[0] == 'S');
    assert("T"@.len() == 1);
    assert("T"@[0] == 'T');
    assert("TripleClick1Pane"@.len() == 16);
    assert("Up"@.len() == 2);
    assert("Up"@[0] == 'U');
    assert("V"@.len() == 1);
    assert("V"@[0] == 'V');
    assert("W"@.len() == 1);
    assert("W"@[0] == 'W');
    assert("WheelDownPane"@.len() == 13);
    assert("WheelUpPane"@.len() == 11);
    assert("X"@.len() == 1);
    assert("X"@[0] == 'X');
    assert("b"@.len() == 1);
    assert("b"@[0] == 'b');
    assert("copy-mode"@.len() == 9);
    assert("copy-mode-vi"@.len() == 12);
    assert("e"@.len() == 1);
    assert("e"@[0] == 'e');
    assert("f"@.len() == 1);
    assert("f"@[0] == 'f');
    assert("g"@.len() == 1);
    assert("g"@[0] == 'g');
    assert("h"@.len() == 1);
    assert("h"@[0] == 'h');
    assert("j"@.len() == 1);
    assert("j"@[0] == 'j');
    assert("k"@.len() == 1);
    assert("k"@[0] == 'k');
    assert("l"@.len() == 1);
    assert("l"@[0] == 'l');
    assert("n"@.len() == 1);
    assert("n"@[0] == 'n');
    assert("o"@.len() == 1);
    assert("o"@[0] == 'o');
    assert("q"@.len() == 1);
    assert("q"@[0] == 'q');
    assert("r"@.len() == 1);
    assert("r"@[0] == 'r');
    assert("t"@.len() == 1);
    assert("t"@[0] == 't');
    assert("v"@.len() == 1);
    assert("v"@[0] == 'v');
    assert("w"@.len() == 1);
    assert("w"@[0] == 'w');
    assert("z"@.len() == 1);
    assert("z"@[0] == 'z');
    assert("{"@.len() == 1);
    assert("{"@[0] == '{');
    assert("}"@.len() == 1);
    assert("}"@[0] == '}');
    let m0 = m;
    let m1 = default_bindings_1(m0);
    let m2 = default_bindings_2(m1);
    let m3 = default_bindings_3(m2);
    let m4 = default_bindings_4(m3);
    let m5 = default_bindings_5(m4);
    let m6 = default_bindings_6(m5);
    let m7 = default_bindings_7(m6);
    let m8 = default_bindings_8(m7);
    let m9 = default_bindings_9(m8);
    let m10 = default_bindings_10(m9);
    let m11 = default_bindings_11(m10);
    let m12 = default_bindings_12(m11);
    let m13 = default_bindings_13(m12);
    let m14 = default_bindings_14(m13);
    let m15 = default_bindings_15(m14);
    let m16 = default_bindings_16(m15);
    let m17 = default_bindings_17(m16);
    let m18 = default_bindings_18(m17);
    let m19 = default_bindings_19(m18);
    let m20 = default_bindings_20(m19);
    let m21 = default_bindings_21(m20);
    let m22 = default_bindings_22(m21);
    let m23 = default_bindings_23(m22);
    let m24 = default_bindings_24(m23);
    let m25 = default_bindings_25(m24);
    let m26 = default_bindings_26(m25);
    let m27 = default_bindings_27(m26);
    let m28 = default_bindings_28(m27);
    let m29 = default_bindings_29(m28);
    let m30 = default_bindings_30(m29);
    let m31 = default_bindings_31(m30);
    let m32 = default_bindings_32(m31);
    let m33 = default_bindings_33(m32);
    let m34 = default_bindings_34(m33);
    let m35 = default_bindings_35(m34);
    lemma_part_8(m7);
    lemma_pass_9(m8, ("copy-mode-vi"@, "NPage"@));
    lemma_pass_9(m8, ("copy-mode-vi"@, "Up"@));
    lemma_pass_9(m8, ("copy-mode-vi"@, "Down"@));
    lemma_pass_9(m8, ("copy-mode-vi"@, "k"@));
    lemma_pass_9(m8, ("copy-mode-vi"@, "j"@));
    lemma_pass_10(m9, ("copy-mode-vi"@, "NPage"@));
    lemma_pass_10(m9, ("copy-mode-vi"@, "Up"@));
    lemma_pass_10(m9, ("copy-mode-vi"@, "Down"@));
    lemma_pass_10(m9, ("copy-mode-vi"@, "k"@));
    lemma_pass_10(m9, ("copy-mode-vi"@, "j"@));
    lemma_pass_11(m10, ("copy-mode-vi"@, "NPage"@));
    lemma_pass_11(m10, ("copy-mode-vi"@, "Up"@));
    lemma_pass_11(m10, ("copy-mode-vi"@, "Down"@));
    lemma_pass_11(m10, ("copy-mode-vi"@, "k"@));
    lemma_pass_11(m10, ("copy-mode-vi"@, "j"@));
    lemma_pass_12(m11, ("copy-mode-vi"@, "NPage"@));
    lemma_pass_12(m11, ("copy-mode-vi"@, "Up"@));
    lemma_pass_12(m11, ("copy-mode-vi"@, "Down"@));
    lemma_pass_12(m11, ("copy-mode-vi"@, "k"@));
    lemma_pass_12(m11, ("copy-mode-vi"@, "j"@));
    lemma_pass_13(m12, ("copy-mode-vi"@, "NPage"@));
    lemma_pass_13(m12, ("copy-mode-vi"@, "Up"@));
    lemma_pass_13(m12, ("copy-mode-vi"@, "Down"@));
    lemma_pass_13(m12, ("copy-mode-vi"@, "k"@));
    lemma_pass_13(m12, ("copy-mode-vi"@, "j"@));
    lemma_pass_14(m13, ("copy-mode-vi"@, "NPage"@));
    lemma_pass_14(m13, ("copy-mode-vi"@, "Up"@));
    lemma_pass_14(m13, ("copy-mode-vi"@, "Down"@));
    lemma_pass_14(m13, ("copy-mode-vi"@, "k"@));
    lemma_pass_14(m13, ("copy-mode-vi"@, "j"@));
    lemma_pass_15(m14, ("copy-mode-vi"@, "NPage"@));
    lemma_pass_15(m14, ("copy-mode-vi"@, "Up"@));
    lemma_pass_15(m14, ("copy-mode-vi"@, "Down"@));
    lemma_pass_15(m14, ("copy-mode-vi"@, "k"@));
    lemma_pass_15(m14, ("copy-mode-vi"@, "j"@));
    lemma_pass_16(m15, ("copy-mode-vi"@, "NPage"@));
    lemma_pass_16(m15, ("copy-mode-vi"@, "Up"@));
    lemma_pass_16(m15, ("copy-mode-vi"@, "Down"@));
    lemma_pass_16(m15, ("copy-mode-vi"@, "k"@));
    lemma_pass_16(m15, ("copy-mode-vi"@, "j"@));
    lemma_pass_17(m16, ("copy-mode-vi"@, "NPage"@));
    lemma_pass_17(m16, ("copy-mode-vi"@, "Up"@));
    lemma_pass_17(m16, ("copy-mode-vi"@, "Down"@));
    lemma_pass_17(m16, ("copy-mode-vi"@, "k"@));
    lemma_pass_17(m16, ("copy-mode-vi"@, "j"@));
    lemma_pass_18(m17, ("copy-mode-vi"@, "NPage"@));
    lemma_pass_18(m17, ("copy-mode-vi"@, "Up"@));
    lemma_pass_18(m17, ("copy-mode-vi"@, "Down"@));
    lemma_pass_18(m17, ("copy-mode-vi"@, "k"@));
    lemma_pass_18(m17, ("copy-mode-vi"@, "j"@));
    lemma_pass_19(m18, ("copy-mode-vi"@, "NPage"@));
    lemma_pass_19(m18, ("copy-mode-vi"@, "Up"@));
    lemma_pass_19(m18, ("copy-mode-vi"@, "Down"@));
    lemma_pass_19(m18, ("copy-mode-vi"@, "k"@));
    lemma_pass_19(m18, ("copy-mode-vi"@, "j"@));
    lemma_pass_20(m19, ("copy-mode-vi"@, "NPage"@));
    lemma_pass_20(m19, ("copy-mode-vi"@, "Up"@));
    lemma_pass_20(m19, ("copy-mode-vi"@, "Down"@));
    lemma_pass_20(m19, ("copy-mode-vi"@, "k"@));
    lemma_pass_20(m19, ("copy-mode-vi"@, "j"@));
    lemma_pass_21(m20, ("copy-mode-vi"@, "NPage"@));
    lemma_pass_21(m20, ("copy-mode-vi"@, "Up"@));
    lemma_pass_21(m20, ("copy-mode-vi"@, "Down"@));
    lemma_pass_21(m20, ("copy-mode-vi"@, "k"@));
    lemma_pass_21(m20, ("copy-mode-vi"@, "j"@));
    lemma_pass_22(m21, ("copy-mode-vi"@, "NPage"@));
    lemma_pass_22(m21, ("copy-mode-vi"@, "Up"@));
    lemma_pass_22(m21, ("copy-mode-vi"@, "Down"@));
    lemma_pass_22(m21, ("copy-mode-vi"@, "k"@));
    lemma_pass_22(m21, ("copy-mode-vi"@, "j"@));
    lemma_pass_23(m22, ("copy-mode-vi"@, "NPage"@));
    lemma_pass_23(m22, ("copy-mode-vi"@, "Up"@));
    lemma_pass_23(m22, ("copy-mode-vi"@, "Down"@));
    lemma_pass_23(m22, ("copy-mode-vi"@, "k"@));
    lemma_pass_23(m22, ("copy-mode-vi"@, "j"@));
    lemma_pass_24(m23, ("copy-mode-vi"@, "NPage"@));
    lemma_pass_24(m23, ("copy-mode-vi"@, "Up"@));
    lemma_pass_24(m23, ("copy-mode-vi"@, "Down"@));
    lemma_pass_24(m23, ("copy-mode-vi"@, "k"@));
    lemma_pass_24(m23, ("copy-mode-vi"@, "j"@));
    lemma_pass_25(m24, ("copy-mode-vi"@, "NPage"@));
    lemma_pass_25(m24, ("copy-mode-vi"@, "Up"@));
    lemma_pass_25(m24, ("copy-mode-vi"@, "Down"@));
    lemma_pass_25(m24, ("copy-mode-vi"@, "k"@));
    lemma_pass_25(m24, ("copy-mode-vi"@, "j"@));
    lemma_pass_26(m25, ("copy-mode-vi"@, "NPage"@));
    lemma_pass_26(m25, ("copy-mode-vi"@, "Up"@));
    lemma_pass_26(m25, ("copy-mode-vi"@, "Down"@));
    lemma_pass_26(m25, ("copy-mode-vi"@, "k"@));
    lemma_pass_26(m25, ("copy-mode-vi"@, "j"@));
    lemma_pass_27(m26, ("copy-mode-vi"@, "NPage"@));
    lemma_pass_27(m26, ("copy-mode-vi"@, "Up"@));
    lemma_pass_27(m26, ("copy-mode-vi"@, "Down"@));
    lemma_pass_27(m26, ("copy-mode-vi"@, "k"@));
    lemma_pass_27(m26, ("copy-mode-vi"@, "j"@));
    lemma_pass_28(m27, ("copy-mode-vi"@, "NPage"@));
    lemma_pass_28(m27, ("copy-mode-vi"@, "Up"@));
    lemma_pass_28(m27, ("copy-mode-vi"@, "Down"@));
    lemma_pass_28(m27, ("copy-mode-vi"@, "k"@));
    lemma_pass_28(m27, ("copy-mode-vi"@, "j"@));
    lemma_pass_29(m28, ("copy-mode-vi"@, "NPage"@));
    lemma_pass_29(m28, ("copy-mode-vi"@, "Up"@));
    lemma_pass_29(m28, ("copy-mode-vi"@, "Down"@));
    lemma_pass_29(m28, ("copy-mode-vi"@, "k"@));
    lemma_pass_29(m28, ("copy-mode-vi"@, "j"@));
    lemma_pass_30(m29, ("copy-mode-vi"@, "NPage"@));
    lemma_pass_30(m29, ("copy-mode-vi"@, "Up"@));
    lemma_pass_30(m29, ("copy-mode-vi"@, "Down"@));
    lemma_pass_30(m29, ("copy-mode-vi"@, "k"@));
    lemma_pass_30(m29, ("copy-mode-vi"@, "j"@));
    lemma_pass_31(m30, ("copy-mode-vi"@, "NPage"@));
    lemma_pass_31(m30, ("copy-mode-vi"@, "Up"@));
    lemma_pass_31(m30, ("copy-mode-vi"@, "Down"@));
    lemma_pass_31(m30, ("copy-mode-vi"@, "k"@));
    lemma_pass_31(m30, ("copy-mode-vi"@, "j"@));
    lemma_pass_32(m31, ("copy-mode-vi"@, "NPage"@));
    lemma_pass_32(m31, ("copy-mode-vi"@, "Up"@));
    lemma_pass_32(m31, ("copy-mode-vi"@, "Down"@));
    lemma_pass_32(m31, ("copy-mode-vi"@, "k"@));
    lemma_pass_32(m31, ("copy-mode-vi"@, "j"@));
    lemma_pass_33(m32, ("copy-mode-vi"@, "NPage"@));
    lemma_pass_33(m32, ("copy-mode-vi"@, "Up"@));
    lemma_pass_33(m32, ("copy-mode-vi"@, "Down"@));
    lemma_pass_33(m32, ("copy-mode-vi"@, "k"@));
    lemma_pass_33(m32, ("copy-mode-vi"@, "j"@));
    lemma_pass_34(m33, ("copy-mode-vi"@, "NPage"@));
    lemma_pass_34(m33, ("copy-mode-vi"@, "Up"@));
    lemma_pass_34(m33, ("copy-mode-vi"@, "Down"@));
    lemma_pass_34(m33, ("copy-mode-vi"@, "k"@));
    lemma_pass_34(m33, ("copy-mode-vi"@, "j"@));
    lemma_pass_35(m34, ("copy-mode-vi"@, "NPage"@));
    lemma_pass_35(m34, ("copy-mode-vi"@, "Up"@));
    lemma_pass_35(m34, ("copy-mode-vi"@, "Down"@));
    lemma_pass_35(m34, ("copy-mode-vi"@, "k"@));
    lemma_pass_35(m34, ("copy-mode-vi"@, "j"@));
    assert(table_defaults(m) == m35);
    lemma_digit_bindings(m35, 10);
    lemma_not_digit_key(("copy-mode-vi"@, "NPage"@));
    lemma_not_digit_key(("copy-mode-vi"@, "Up"@));
    lemma_not_digit_key(("copy-mode-vi"@, "Down"@));
    lemma_not_digit_key(("copy-mode-vi"@, "k"@));
    lemma_not_digit_key(("copy-mode-vi"@, "j"@));
}

/// Default bindings: `g` in `copy-mode-vi` runs `send-keys -X history-top`; `G` in `copy-mode-vi` runs `send-keys -X history-bottom`; `q` in `copy-mode-vi` runs `send-keys -X cancel`; `Escape` in `copy-mode-vi` runs `send-keys -X clear-selection`; `Enter` in `copy-mode-vi` runs `send-keys -X copy-pipe-and-cancel`.
pub proof fn lemma_defaults_9(m: Map<(Seq<char>, Seq<char>), BindingView>)
    ensures
        default_key_tables(m).contains_key(("copy-mode-vi"@, "g"@)),
        default_key_tables(m)[("copy-mode-vi"@, "g"@)] == (false, None::<Seq<char>>, seq!["send-keys"@, "-X"@, "history-top"@]),
        default_key_tables(m).contains_key(("copy-mode-vi"@, "G"@)),
        default_key_tables(m)[("copy-mode-vi"@, "G"@)] == (false, None::<Seq<char>>, seq!["send-keys"@, "-X"@, "history-bottom"@]),
        default_key_tables(m).contains_key(("copy-mode-vi"@, "q"@)),
        default_key_tables(m)[("copy-mode-vi"@, "q"@)] == (false, None::<Seq<char>>, seq!["send-keys"@, "-X"@, "cancel"@]),
        default_key_tables(m).contains_key(("copy-mode-vi"@, "Escape"@)),
        default_key_tables(m)[("copy-mode-vi"@, "Escape"@)] == (false, None::<Seq<char>>, seq!["send-keys"@, "-X"@, "clear-selection"@]),
        default_key_tables(m).contains_key(("copy-mode-vi"@, "Enter"@)),
        default_key_tables(m)[("copy-mode-vi"@, "Enter"@)] == (false, None::<Seq<char>>, seq!["send-keys"@, "-X"@, "copy-pipe-and-cancel"@]),
{
    reveal_strlit("#");
    reveal_strlit("$");
    reveal_strlit("%");
    reveal_strlit("*");
    reveal_strlit(",");
    reveal_strlit("/");
    reveal_strlit("0");
    reveal_strlit("0x5e");
    reveal_strlit(":");
    reveal_strlit(";");
    reveal_strlit("?");
    reveal_strlit("A");
    reveal_strlit("B");
    reveal_strlit("BSpace");
    reveal_strlit("C-Down");
    reveal_strlit("C-M-b");
    reveal_strlit("C-M-f");
    reveal_strlit("C-Space");
    reveal_strlit("C-Up");
    reveal_strlit("C-[");
    reveal_strlit("C-a");
    reveal_strlit("C-b");
    reveal_strlit("C-c");
    reveal_strlit("C-d");
    reveal_strlit("C-e");
    reveal_strlit("C-f");
    reveal_strlit("C-g");
    reveal_strlit("C-h");
    reveal_strlit("C-j");
    reveal_strlit("C-k");
    reveal_strlit("C-l");
    reveal_strlit("C-n");
    reveal_strlit("C-p");
    reveal_strlit("C-r");
    reveal_strlit("C-s");
    reveal_strlit("C-u");
    reveal_strlit("C-v");
    reveal_strlit("C-w");
    reveal_strlit("C-y");
    reveal_strlit("D");
    reveal_strlit("DoubleClick1Pane");
    reveal_strlit("E");
    reveal_strlit("End");
    reveal_strlit("Enter");
    reveal_strlit("Escape");
    reveal_strlit("F");
    reveal_strlit("G");
    reveal_strlit("H");
    reveal_strlit("Home");
    reveal_strlit("J");
    reveal_strlit("K");
    reveal_strlit("L");
    reveal_strlit("Left");
    reveal_strlit("M");
    reveal_strlit("M-<");
    reveal_strlit("M->");
    reveal_strlit("M-Down");
    reveal_strlit("M-R");
    reveal_strlit("M-Up");
    reveal_strlit("M-b");
    reveal_strlit("M-f");
    reveal_strlit("M-l");
    reveal_strlit("M-m");
    reveal_strlit("M-r");
    reveal_strlit("M-v");
    reveal_strlit("M-w");
    reveal_strlit("M-x");
    reveal_strlit("M-{");
    reveal_strlit("M-}");
    reveal_strlit("MouseDown1Pane");
    reveal_strlit("MouseDrag1Pane");
    reveal_strlit("MouseDragEnd1Pane");
    reveal_strlit("N");
    reveal_strlit("P");
    reveal_strlit("R");
    reveal_strlit("Right");
    reveal_strlit("Space");
    reveal_strlit("T");
    reveal_strlit("TripleClick1Pane");
    reveal_strlit("V");
    reveal_strlit("W");
    reveal_strlit("WheelDownPane");
    reveal_strlit("WheelUpPane");
    reveal_strlit("X");
    reveal_strlit("b");
    reveal_strlit("copy-mode");
    reveal_strlit("copy-mode-vi");
    reveal_strlit("e");
    reveal_strlit("f");
    reveal_strlit("g");
    reveal_strlit("h");
    reveal_strlit("l");
    reveal_strlit("n");
    reveal_strlit("o");
    reveal_strlit("q");
    reveal_strlit("r");
    reveal_strlit("t");
    reveal_strlit("v");
    reveal_strlit("w");
    reveal_strlit("z");
    reveal_strlit("{");
    reveal_strlit("}");
    assert("#"@.len() == 1);
    assert("#"@[0] == '#');
    assert("$"@.len() == 1);
    assert("$"@[0] == '$');
    assert("%"@.len() == 1);
    assert("%"@[0] == '%');
    assert("*"@.len() == 1);
    assert("*"@[0] == '*');
    assert(","@.len() == 1);
    assert(","@[0] == ',');
    assert("/"@.len() == 1);
    assert("/"@[0] == '/');
    assert("0"@.len() == 1);
    assert("0"@[0] == '0');
    assert("0x5e"@.len() == 4);
    assert(":"@.len() == 1);
    assert(":"@[0] == ':');
    assert(";"@.len() == 1);
    assert(";"@[0] == ';');
    assert("?"@.len() == 1);
    assert("?"@[0] == '?');
    assert("A"@.len() == 1);
    assert("A"@[0] == 'A');
    assert("B"@.len() == 1);
    assert("B"@[0] == 'B');
    assert("BSpace"@.len() == 6);
    assert("BSpace"@[0] == 'B');
    assert("C-Down"@.len() == 6);
    assert("C-Down"@[0] == 'C');
    assert("C-Up"@.len() == 4);
    assert("C-["@.len() == 3);
    assert("C-b"@.len() == 3);
    assert("C-c"@.len() == 3);
    assert("C-d"@.len() == 3);
    assert("C-e"@.len() == 3);
    assert("C-f"@.len() == 3);
    assert("C-h"@.len() == 3);
    assert("C-j"@.len() == 3);
    assert("C-u"@.len() == 3);
    assert("C-v"@.len() == 3);
    assert("C-y"@.len() == 3);
    assert("D"@.len() == 1);
    assert("D"@[0] == 'D');
    assert("DoubleClick1Pane"@.len() == 16);
    assert("E"@.len() == 1);
    assert("E"@[0] == 'E');
    assert("End"@.len() == 3);
    assert("Enter"@.len() == 5);
    assert("Enter"@[0] == 'E');
    assert("Enter"@[1] == 'n');
    assert("Enter"@[2] == 't');
    assert("Escape"@.len() == 6);
    assert("Escape"@[0] == 'E');
    assert("Escape"@[1] == 's');
    assert("Escape"@[2] == 'c');
    assert("F"@.len() == 1);
    assert("F"@[0] == 'F');
    assert("G"@.len() == 1);
    assert("G"@[0] == 'G');
    assert("H"@.len() == 1);
    assert("H"@[0] == 'H');
    assert("Home"@.len() == 4);
    assert("J"@.len() == 1);
    assert("J"@[0] == 'J');
    assert("K"@.len() == 1);
    assert("K"@[0] == 'K');
    assert("L"@.len() == 1);
    assert("L"@[0] == 'L');
    assert("Left"@.len() == 4);
    assert("M"@.len() == 1);
    assert("M"@[0] == 'M');
    assert("M-x"@.len() == 3);
    assert("MouseDown1Pane"@.len() == 14);
    assert("MouseDrag1Pane"@.len() == 14);
    assert("MouseDragEnd1Pane"@.len() == 17);
    assert("N"@.len() == 1);
    assert("N"@[0] == 'N');
    assert("P"@.len() == 1);
    assert("P"@[0] == 'P');
    assert("Right"@.len() == 5);
    assert("Right"@[0] == 'R');
    assert("Space"@.len() == 5);
    assert("Space"@[0] == 'S');
    assert("T"@.len() == 1);
    assert("T"@[0] == 'T');
    assert("TripleClick1Pane"@.len() == 16);
    assert("V"@.len() == 1);
    assert("V"@[0] == 'V');
    assert("W"@.len() == 1);
    assert("W"@[0] == 'W');
    assert("WheelDownPane"@.len() == 13);
    assert("WheelUpPane"@.len() == 11);
    assert("X"@.len() == 1);
    assert("X"@[0] == 'X');
    assert("b"@.len() == 1);
    assert("b"@[0] == 'b');
    assert("copy-mode"@.len() == 9);
    assert("copy-mode-vi"@.len() == 12);
    assert("e"@.len() == 1);
    assert("e"@[0] == 'e');
    assert("f"@.len() == 1);
    assert("f"@[0] == 'f');
    assert("g"@.len() == 1);
    assert("g"@[0] == 'g');
    assert("h"@.len() == 1);
    assert("h"@[0] == 'h');
    assert("l"@.len() == 1);
    assert("l"@[0] == 'l');
    assert("n"@.len() == 1);
    assert("n"@[0] == 'n');
    assert("o"@.len() == 1);
    assert("o"@[0] == 'o');
    assert("q"@.len() == 1);
    assert("q"@[0] == 'q');
    assert("r"@.len() == 1);
    assert("r"@[0] == 'r');
    assert("t"@.len() == 1);
    assert("t"@[0] == 't');
    assert("v"@.len() == 1);
    assert("v"@[0] == 'v');
    assert("w"@.len() == 1);
    assert("w"@[0] == 'w');
    assert("z"@.len() == 1);
    assert("z"@[0] == 'z');
    assert("{"@.len() == 1);
    assert("{"@[0] == '{');
    assert("}"@.len() == 1);
    assert("}"@[0] == '}');
    let m0 = m;
    let m1 = default_bindings_1(m0);
    let m2 = default_bindings_2(m1);
    let m3 = default_bindings_3(m2);
    let m4 = default_bindings_4(m3);
    let m5 = default_bindings_5(m4);
    let m6 = default_bindings_6(m5);
    let m7 = default_bindings_7(m6);
    let m8 = default_bindings_8(m7);
    let m9 = default_bindings_9(m8);
    let m10 = default_bindings_10(m9);
    let m11 = default_bindings_11(m10);
    let m12 = default_bindings_12(m11);
    let m13 = default_bindings_13(m12);
    let m14 = default_bindings_14(m13);
    let m15 = default_bindings_15(m14);
    let m16 = default_bindings_16(m15);
    let m17 = default_bindings_17(m16);
    let m18 = default_bindings_18(m17);
    let m19 = default_bindings_19(m18);
    let m20 = default_bindings_20(m19);
    let m21 = default_bindings_21(m20);
    let m22 = default_bindings_22(m21);
    let m23 = default_bindings_23(m22);
    let m24 = default_bindings_24(m23);
    let m25 = default_bindings_25(m24);
    let m26 = default_bindings_26(m25);
    let m27 = default_bindings_27(m26);
    let m28 = default_bindings_28(m27);
    let m29 = default_bindings_29(m28);
    let m30 = default_bindings_30(m29);
    let m31 = default_bindings_31(m30);
    let m32 = default_bindings_32(m31);
    let m33 = default_bindings_33(m32);
    let m34 = default_bindings_34(m33);
    let m35 = default_bindings_35(m34);
    lemma_part_9(m8);
    lemma_pass_10(m9, ("copy-mode-vi"@, "g"@));
    lemma_pass_10(m9, ("copy-mode-vi"@, "G"@));
    lemma_pass_10(m9, ("copy-mode-vi"@, "q"@));
    lemma_pass_10(m9, ("copy-mode-vi"@, "Escape"@));
    lemma_pass_10(m9, ("copy-mode-vi"@, "Enter"@));
    lemma_pass_11(m10, ("copy-mode-vi"@, "g"@));
    lemma_pass_11(m10, ("copy-mode-vi"@, "G"@));
    lemma_pass_11(m10, ("copy-mode-vi"@, "q"@));
    lemma_pass_11(m10, ("copy-mode-vi"@, "Escape"@));
    lemma_pass_11(m10, ("copy-mode-vi"@, "Enter"@));
    lemma_pass_12(m11, ("copy-mode-vi"@, "g"@));
    lemma_pass_12(m11, ("copy-mode-vi"@, "G"@));
    lemma_pass_12(m11, ("copy-mode-vi"@, "q"@));
    lemma_pass_12(m11, ("copy-mode-vi"@, "Escape"@));
    lemma_pass_12(m11, ("copy-mode-vi"@, "Enter"@));
    lemma_pass_13(m12, ("copy-mode-vi"@, "g"@));
    lemma_pass_13(m12, ("copy-mode-vi"@, "G"@));
    lemma_pass_13(m12, ("copy-mode-vi"@, "q"@));
    lemma_pass_13(m12, ("copy-mode-vi"@, "Escape"@));
    lemma_pass_13(m12, ("copy-mode-vi"@, "Enter"@));
    lemma_pass_14(m13, ("copy-mode-vi"@, "g"@));
    lemma_pass_14(m13, ("copy-mode-vi"@, "G"@));
    lemma_pass_14(m13, ("copy-mode-vi"@, "q"@));
    lemma_pass_14(m13, ("copy-mode-vi"@, "Escape"@));
    lemma_pass_14(m13, ("copy-mode-vi"@, "Enter"@));
    lemma_pass_15(m14, ("copy-mode-vi"@, "g"@));
    lemma_pass_15(m14, ("copy-mode-vi"@, "G"@));
    lemma_pass_15(m14, ("copy-mode-vi"@, "q"@));
    lemma_pass_15(m14, ("copy-mode-vi"@, "Escape"@));
    lemma_pass_15(m14, ("copy-mode-vi"@, "Enter"@));
    lemma_pass_16(m15, ("copy-mode-vi"@, "g"@));
    lemma_pass_16(m15, ("copy-mode-vi"@, "G"@));
    lemma_pass_16(m15, ("copy-mode-vi"@, "q"@));
    lemma_pass_16(m15, ("copy-mode-vi"@, "Escape"@));
    lemma_pass_16(m15, ("copy-mode-vi"@, "Enter"@));
    lemma_pass_17(m16, ("copy-mode-vi"@, "g"@));
    lemma_pass_17(m16, ("copy-mode-vi"@, "G"@));
    lemma_pass_17(m16, ("copy-mode-vi"@, "q"@));
    lemma_pass_17(m16, ("copy-mode-vi"@, "Escape"@));
    lemma_pass_17(m16, ("copy-mode-vi"@, "Enter"@));
    lemma_pass_18(m17, ("copy-mode-vi"@, "g"@));
    lemma_pass_18(m17, ("copy-mode-vi"@, "G"@));
    lemma_pass_18(m17, ("copy-mode-vi"@, "q"@));
    lemma_pass_18(m17, ("copy-mode-vi"@, "Escape"@));
    lemma_pass_18(m17, ("copy-mode-vi"@, "Enter"@));
    lemma_pass_19(m18, ("copy-mode-vi"@, "g"@));
    lemma_pass_19(m18, ("copy-mode-vi"@, "G"@));
    lemma_pass_19(m18, ("copy-mode-vi"@, "q"@));
    lemma_pass_19(m18, ("copy-mode-vi"@, "Escape"@));
    lemma_pass_19(m18, ("copy-mode-vi"@, "Enter"@));
    lemma_pass_20(m19, ("copy-mode-vi"@, "g"@));
    lemma_pass_20(m19, ("copy-mode-vi"@, "G"@));
    lemma_pass_20(m19, ("copy-mode-vi"@, "q"@));
    lemma_pass_20(m19, ("copy-mode-vi"@, "Escape"@));
    lemma_pass_20(m19, ("copy-mode-vi"@, "Enter"@));
    lemma_pass_21(m20, ("copy-mode-vi"@, "g"@));
    lemma_pass_21(m20, ("copy-mode-vi"@, "G"@));
    lemma_pass_21(m20, ("copy-mode-vi"@, "q"@));
    lemma_pass_21(m20, ("copy-mode-vi"@, "Escape"@));
    lemma_pass_21(m20, ("copy-mode-vi"@, "Enter"@));
    lemma_pass_22(m21, ("copy-mode-vi"@, "g"@));
    lemma_pass_22(m21, ("copy-mode-vi"@, "G"@));
    lemma_pass_22(m21, ("copy-mode-vi"@, "q"@));
    lemma_pass_22(m21, ("copy-mode-vi"@, "Escape"@));
    lemma_pass_22(m21, ("copy-mode-vi"@, "Enter"@));
    lemma_pass_23(m22, ("copy-mode-vi"@, "g"@));
    lemma_pass_23(m22, ("copy-mode-vi"@, "G"@));
    lemma_pass_23(m22, ("copy-mode-vi"@, "q"@));
    lemma_pass_23(m22, ("copy-mode-vi"@, "Escape"@));
    lemma_pass_23(m22, ("copy-mode-vi"@, "Enter"@));
    lemma_pass_24(m23, ("copy-mode-vi"@, "g"@));
    lemma_pass_24(m23, ("copy-mode-vi"@, "G"@));
    lemma_pass_24(m23, ("copy-mode-vi"@, "q"@));
    lemma_pass_24(m23, ("copy-mode-vi"@, "Escape"@));
    lemma_pass_24(m23, ("copy-mode-vi"@, "Enter"@));
    lemma_pass_25(m24, ("copy-mode-vi"@, "g"@));
    lemma_pass_25(m24, ("copy-mode-vi"@, "G"@));
    lemma_pass_25(m24, ("copy-mode-vi"@, "q"@));
    lemma_pass_25(m24, ("copy-mode-vi"@, "Escape"@));
    lemma_pass_25(m24, ("copy-mode-vi"@, "Enter"@));
    lemma_pass_26(m25, ("copy-mode-vi"@, "g"@));
    lemma_pass_26(m25, ("copy-mode-vi"@, "G"@));
    lemma_pass_26(m25, ("copy-mode-vi"@, "q"@));
    lemma_pass_26(m25, ("copy-mode-vi"@, "Escape"@));
    lemma_pass_26(m25, ("copy-mode-vi"@, "Enter"@));
    lemma_pass_27(m26, ("copy-mode-vi"@, "g"@));
    lemma_pass_27(m26, ("copy-mode-vi"@, "G"@));
    lemma_pass_27(m26, ("copy-mode-vi"@, "q"@));
    lemma_pass_27(m26, ("copy-mode-vi"@, "Escape"@));
    lemma_pass_27(m26, ("copy-mode-vi"@, "Enter"@));
    lemma_pass_28(m27, ("copy-mode-vi"@, "g"@));
    lemma_pass_28(m27, ("copy-mode-vi"@, "G"@));
    lemma_pass_28(m27, ("copy-mode-vi"@, "q"@));
    lemma_pass_28(m27, ("copy-mode-vi"@, "Escape"@));
    lemma_pass_28(m27, ("copy-mode-vi"@, "Enter"@));
    lemma_pass_29(m28, ("copy-mode-vi"@, "g"@));
    lemma_pass_29(m28, ("copy-mode-vi"@, "G"@));
    lemma_pass_29(m28, ("copy-mode-vi"@, "q"@));
    lemma_pass_29(m28, ("copy-mode-vi"@, "Escape"@));
    lemma_pass_29(m28, ("copy-mode-vi"@, "Enter"@));
    lemma_pass_30(m29, ("copy-mode-vi"@, "g"@));
    lemma_pass_30(m29, ("copy-mode-vi"@, "G"@));
    lemma_pass_30(m29, ("copy-mode-vi"@, "q"@));
    lemma_pass_30(m29, ("copy-mode-vi"@, "Escape"@));
    lemma_pass_30(m29, ("copy-mode-vi"@, "Enter"@));
    lemma_pass_31(m30, ("copy-mode-vi"@, "g"@));
    lemma_pass_31(m30, ("copy-mode-vi"@, "G"@));
    lemma_pass_31(m30, ("copy-mode-vi"@, "q"@));
    lemma_pass_31(m30, ("copy-mode-vi"@, "Escape"@));
    lemma_pass_31(m30, ("copy-mode-vi"@, "Enter"@));
    lemma_pass_32(m31, ("copy-mode-vi"@, "g"@));
    lemma_pass_32(m31, ("copy-mode-vi"@, "G"@));
    lemma_pass_32(m31, ("copy-mode-vi"@, "q"@));
    lemma_pass_32(m31, ("copy-mode-vi"@, "Escape"@));
    lemma_pass_32(m31, ("copy-mode-vi"@, "Enter"@));
    lemma_pass_33(m32, ("copy-mode-vi"@, "g"@));
    lemma_pass_33(m32, ("copy-mode-vi"@, "G"@));
    lemma_pass_33(m32, ("copy-mode-vi"@, "q"@));
    lemma_pass_33(m32, ("copy-mode-vi"@, "Escape"@));
    lemma_pass_33(m32, ("copy-mode-vi"@, "Enter"@));
    lemma_pass_34(m33, ("copy-mode-vi"@, "g"@));
    lemma_pass_34(m33, ("copy-mode-vi"@, "G"@));
    lemma_pass_34(m33, ("copy-mode-vi"@, "q"@));
    lemma_pass_34(m33, ("copy-mode-vi"@, "Escape"@));
    lemma_pass_34(m33, ("copy-mode-vi"@, "Enter"@));
    lemma_pass_35(m34, ("copy-mode-vi"@, "g"@));
    lemma_pass_35(m34, ("copy-mode-vi"@, "G"@));
    lemma_pass_35(m34, ("copy-mode-vi"@, "q"@));
    lemma_pass_35(m34, ("copy-mode-vi"@, "Escape"@));
    lemma_pass_35(m34, ("copy-mode-vi"@, "Enter"@));
    assert(table_defaults(m) == m35);
    lemma_digit_bindings(m35, 10);
    lemma_not_digit_key(("copy-mode-vi"@, "g"@));
    lemma_not_digit_key(("copy-mode-vi"@, "G"@));
    lemma_not_digit_key(("copy-mode-vi"@, "q"@));
    lemma_not_digit_key(("copy-mode-vi"@, "Escape"@));
    lemma_not_digit_key(("copy-mode-vi"@, "Enter"@));
}

/// Default bindings: `C-c` in `copy-mode-vi` runs `send-keys -X cancel`; `Space` in `copy-mode-vi` runs `send-keys -X begin-selection`; `$` in `copy-mode-vi` runs `send-keys -X end-of-line`; `0` in `copy-mode-vi` runs `send-keys -X start-of-line`; `h` in `copy-mode-vi` runs `send-keys -X cursor-left`.
pub proof fn lemma_defaults_10(m: Map<(Seq<char>, Seq<char>), BindingView>)
    ensures
        default_key_tables(m).contains_key(("copy-mode-vi"@, "C-c"@)),
        default_key_tables(m)[("copy-mode-vi"@, "C-c"@)] == (false, None::<Seq<char>>, seq!["send-keys"@, "-X"@, "cancel"@]),
        default_key_tables(m).contains_key(("copy-mode-vi"@, "Space"@)),
        default_key_tables(m)[("copy-mode-vi"@, "Space"@)] == (false, None::<Seq<char>>, seq!["send-keys"@, "-X"@, "begin-selection"@]),
        default_key_tables(m).contains_key(("copy-mode-vi"@, "$"@)),
        default_key_tables(m)[("copy-mode-vi"@, "$"@)] == (false, None::<Seq<char>>, seq!["send-keys"@, "-X"@, "end-of-line"@]),
        default_key_tables(m).contains_key(("copy-mode-vi"@, "0"@)),
        default_key_tables(m)[("copy-mode-vi"@, "0"@)] == (false, None::<Seq<char>>, seq!["send-keys"@, "-X"@, "start-of-line"@]),
        default_key_tables(m).contains_key(("copy-mode-vi"@, "h"@)),
        default_key_tables(m)[("copy-mode-vi"@, "h"@)] == (false, None::<Seq<char>>, seq!["send-keys"@, "-X"@, "cursor-left"@]),
{
    reveal_strlit("#");
    reveal_strlit("$");
    reveal_strlit("%");
    reveal_strlit("*");
    reveal_strlit(",");
    reveal_strlit("/");
    reveal_strlit("0");
    reveal_strlit("0x5e");
    reveal_strlit(":");
    reveal_strlit(";");
    reveal_strlit("?");
    reveal_strlit("A");
    reveal_strlit("B");
    reveal_strlit("BSpace");
    reveal_strlit("C-Down");
    reveal_strlit("C-M-b");
    reveal_strlit("C-M-f");
    reveal_strlit("C-Space");
    reveal_strlit("C-Up");
    reveal_strlit("C-[");
    reveal_strlit("C-a");
    reveal_strlit("C-b");
    reveal_strlit("C-c");
    reveal_strlit("C-d");
    reveal_strlit("C-e");
    reveal_strlit("C-f");
    reveal_strlit("C-g");
    reveal_strlit("C-h");
    reveal_strlit("C-j");
    reveal_strlit("C-k");
    reveal_strlit("C-l");
    reveal_strlit("C-n");
    reveal_strlit("C-p");
    reveal_strlit("C-r");
    reveal_strlit("C-s");
    reveal_strlit("C-u");
    reveal_strlit("C-v");
    reveal_strlit("C-w");
    reveal_strlit("C-y");
    reveal_strlit("D");
    reveal_strlit("DoubleClick1Pane");
    reveal_strlit("E");
    reveal_strlit("End");
    reveal_strlit("F");
    reveal_strlit("H");
    reveal_strlit("Home");
    reveal_strlit("J");
    reveal_strlit("K");
    reveal_strlit("L");
    reveal_strlit("Left");
    reveal_strlit("M");
    reveal_strlit("M-<");
    reveal_strlit("M->");
    reveal_strlit("M-Down");
    reveal_strlit("M-R");
    reveal_strlit("M-Up");
    reveal_strlit("M-b");
    reveal_strlit("M-f");
    reveal_strlit("M-l");
    reveal_strlit("M-m");
    reveal_strlit("M-r");
    reveal_strlit("M-v");
    reveal_strlit("M-w");
    reveal_strlit("M-x");
    reveal_strlit("M-{");
    reveal_strlit("M-}");
    reveal_strlit("MouseDown1Pane");
    reveal_strlit("MouseDrag1Pane");
    reveal_strlit("MouseDragEnd1Pane");
    reveal_strlit("N");
    reveal_strlit("P");
    reveal_strlit("R");
    reveal_strlit("Right");
    reveal_strlit("Space");
    reveal_strlit("T");
    reveal_strlit("TripleClick1Pane");
    reveal_strlit("V");
    reveal_strlit("W");
    reveal_strlit("WheelDownPane");
    reveal_strlit("WheelUpPane");
    reveal_strlit("X");
    reveal_strlit("b");
    reveal_strlit("copy-mode");
    reveal_strlit("copy-mode-vi");
    reveal_strlit("e");
    reveal_strlit("f");
    reveal_strlit("g");
    reveal_strlit("h");
    reveal_strlit("l");
    reveal_strlit("n");
    reveal_strlit("o");
    reveal_strlit("r");
    reveal_strlit("t");
    reveal_strlit("v");
    reveal_strlit("w");
    reveal_strlit("z");
    reveal_strlit("{");
    reveal_strlit("}");
    assert("#"@.len() == 1);
    assert("#"@[0] == '#');
    assert("$"@.len() == 1);
    assert("$"@[0] == '$');
    assert("%"@.len() == 1);
    assert("%"@[0] == '%');
    assert("*"@.len() == 1);
    assert("*"@[0] == '*');
    assert(","@.len() == 1);
    assert(","@[0] == ',');
    assert("/"@.len() == 1);
    assert("/"@[0] == '/');
    assert("0"@.len() == 1);
    assert("0"@[0] == '0');
    assert("0x5e"@.len() == 4);
    assert(":"@.len() == 1);
    assert(":"@[0] == ':');
    assert(";"@.len() == 1);
    assert(";"@[0] == ';');
    assert("?"@.len() == 1);
    assert("?"@[0] == '?');
    assert("A"@.len() == 1);
    assert("A"@[0] == 'A');
    assert("B"@.len() == 1);
    assert("B"@[0] == 'B');
    assert("BSpace"@.len() == 6);
    assert("C-Down"@.len() == 6);
    assert("C-Up"@.len() == 4);
    assert("C-["@.len() == 3);
    assert("C-["@[2] == '[');
    assert("C-b"@.len() == 3);
    assert("C-b"@[2] == 'b');
    assert("C-c"@.len() == 3);
    assert("C-c"@[0] == 'C');
    assert("C-c"@[1] == '-');
    assert("C-c"@[2] == 'c');
    assert("C-d"@.len() == 3);
    assert("C-d"@[2] == 'd');
    assert("C-e"@.len() == 3);
    assert("C-e"@[2] == 'e');
    assert("C-f"@.len() == 3);
    assert("C-f"@[2] == 'f');
    assert("C-h"@.len() == 3);
    assert("C-h"@[2] == 'h');
    assert("C-j"@.len() == 3);
    assert("C-j"@[2] == 'j');
    assert("C-u"@.len() == 3);
    assert("C-u"@[2] == 'u');
    assert("C-v"@.len() == 3);
    assert("C-v"@[2] == 'v');
    assert("C-y"@.len() == 3);
    assert("C-y"@[2] == 'y');
    assert("D"@.len() == 1);
    assert("D"@[0] == 'D');
    assert("DoubleClick1Pane"@.len() == 16);
    assert("E"@.len() == 1);
    assert("E"@[0] == 'E');
    assert("End"@.len() == 3);
    assert("End"@[0] == 'E');
    assert("F"@.len() == 1);
    assert("F"@[0] == 'F');
    assert("H"@.len() == 1);
    assert("H"@[0] == 'H');
    assert("Home"@.len() == 4);
    assert("J"@.len() == 1);
    assert("J"@[0] == 'J');
    assert("K"@.len() == 1);
    assert("K"@[0] == 'K');
    assert("L"@.len() == 1);
    assert("L"@[0] == 'L');
    assert("Left"@.len() == 4);
    assert("M"@.len() == 1);
    assert("M"@[0] == 'M');
    assert("M-x"@.len() == 3);
    assert("M-x"@[0] == 'M');
    assert("MouseDown1Pane"@.len() == 14);
    assert("MouseDrag1Pane"@.len() == 14);
    assert("MouseDragEnd1Pane"@.len() == 17);
    assert("N"@.len() == 1);
    assert("N"@[0] == 'N');
    assert("P"@.len() == 1);
    assert("P"@[0] == 'P');
    assert("Right"@.len() == 5);
    assert("Right"@[0] == 'R');
    assert("Space"@.len() == 5);
    assert("Space"@[0] == 'S');
    assert("Space"@[1] == 'p');
    assert("Space"@[2] == 'a');
    assert("T"@.len() == 1);
    assert("T"@[0] == 'T');
    assert("TripleClick1Pane"@.len() == 16);
    assert("V"@.len() == 1);
    assert("V"@[0] == 'V');
    assert("W"@.len() == 1);
    assert("W"@[0] == 'W');
    assert("WheelDownPane"@.len() == 13);
    assert("WheelUpPane"@.len() == 11);
    assert("X"@.len() == 1);
    assert("X"@[0] == 'X');
    assert("b"@.len() == 1);
    assert("b"@[0] == 'b');
    assert("copy-mode"@.len() == 9);
    assert("copy-mode-vi"@.len() == 12);
    assert("e"@.len() == 1);
    assert("e"@[0] == 'e');
    assert("f"@.len() == 1);
    assert("f"@[0] == 'f');
    assert("h"@.len() == 1);
    assert("h"@[0] == 'h');
    assert("l"@.len() == 1);
    assert("l"@[0] == 'l');
    assert("n"@.len() == 1);
    assert("n"@[0] == 'n');
    assert("o"@.len() == 1);
    assert("o"@[0] == 'o');
    assert("r"@.len() == 1);
    assert("r"@[0] == 'r');
    assert("t"@.len() == 1);
    assert("t"@[0] == 't');
    assert("v"@.len() == 1);
    assert("v"@[0] == 'v');
    assert("w"@.len() == 1);
    assert("w"@[0] == 'w');
    assert("z"@.len() == 1);
    assert("z"@[0] == 'z');
    assert("{"@.len() == 1);
    assert("{"@[0] == '{');
    assert("}"@.len() == 1);
    assert("}"@[0] == '}');
    let m0 = m;
    let m1 = default_bindings_1(m0);
    let m2 = default_bindings_2(m1);
    let m3 = default_bindings_3(m2);
    let m4 = default_bindings_4(m3);
    let m5 = default_bindings_5(m4);
    let m6 = default_bindings_6(m5);
    let m7 = default_bindings_7(m6);
    let m8 = default_bindings_8(m7);
    let m9 = default_bindings_9(m8);
    let m10 = default_bindings_10(m9);
    let m11 = default_bindings_11(m10);
    let m12 = default_bindings_12(m11);
    let m13 = default_bindings_13(m12);
    let m14 = default_bindings_14(m13);
    let m15 = default_bindings_15(m14);
    let m16 = default_bindings_16(m15);
    let m17 = default_bindings_17(m16);
    let m18 = default_bindings_18(m17);
    let m19 = default_bindings_19(m18);
    let m20 = default_bindings_20(m19);
    let m21 = default_bindings_21(m20);
    let m22 = default_bindings_22(m21);
    let m23 = default_bindings_23(m22);
    let m24 = default_bindings_24(m23);
    let m25 = default_bindings_25(m24);
    let m26 = default_bindings_26(m25);
    let m27 = default_bindings_27(m26);
    let m28 = default_bindings_28(m27);
    let m29 = default_bindings_29(m28);
    let m30 = default_bindings_30(m29);
    let m31 = default_bindings_31(m30);
    let m32 = default_bindings_32(m31);
    let m33 = default_bindings_33(m32);
    let m34 = default_bindings_34(m33);
    let m35 = default_bindings_35(m34);
    lemma_part_10(m9);
    lemma_pass_11(m10, ("copy-mode-vi"@, "C-c"@));
    lemma_pass_11(m10, ("copy-mode-vi"@, "Space"@));
    lemma_pass_11(m10, ("copy-mode-vi"@, "$"@));
    lemma_pass_11(m10, ("copy-mode-vi"@, "0"@));
    lemma_pass_11(m10, ("copy-mode-vi"@, "h"@));
    lemma_pass_12(m11, ("copy-mode-vi"@, "C-c"@));
    lemma_pass_12(m11, ("copy-mode-vi"@, "Space"@));
    lemma_pass_12(m11, ("copy-mode-vi"@, "$"@));
    lemma_pass_12(m11, ("copy-mode-vi"@, "0"@));
    lemma_pass_12(m11, ("copy-mode-vi"@, "h"@));
    lemma_pass_13(m12, ("copy-mode-vi"@, "C-c"@));
    lemma_pass_13(m12, ("copy-mode-vi"@, "Space"@));
    lemma_pass_13(m12, ("copy-mode-vi"@, "$"@));
    lemma_pass_13(m12, ("copy-mode-vi"@, "0"@));
    lemma_pass_13(m12, ("copy-mode-vi"@, "h"@));
    lemma_pass_14(m13, ("copy-mode-vi"@, "C-c"@));
    lemma_pass_14(m13, ("copy-mode-vi"@, "Space"@));
    lemma_pass_14(m13, ("copy-mode-vi"@, "$"@));
    lemma_pass_14(m13, ("copy-mode-vi"@, "0"@));
    lemma_pass_14(m13, ("copy-mode-vi"@, "h"@));
    lemma_pass_15(m14, ("copy-mode-vi"@, "C-c"@));
    lemma_pass_15(m14, ("copy-mode-vi"@, "Space"@));
    lemma_pass_15(m14, ("copy-mode-vi"@, "$"@));
    lemma_pass_15(m14, ("copy-mode-vi"@, "0"@));
    lemma_pass_15(m14, ("copy-mode-vi"@, "h"@));
    lemma_pass_16(m15, ("copy-mode-vi"@, "C-c"@));
    lemma_pass_16(m15, ("copy-mode-vi"@, "Space"@));
    lemma_pass_16(m15, ("copy-mode-vi"@, "$"@));
    lemma_pass_16(m15, ("copy-mode-vi"@, "0"@));
    lemma_pass_16(m15, ("copy-mode-vi"@, "h"@));
    lemma_pass_17(m16, ("copy-mode-vi"@, "C-c"@));
    lemma_pass_17(m16, ("copy-mode-vi"@, "Space"@));
    lemma_pass_17(m16, ("copy-mode-vi"@, "$"@));
    lemma_pass_17(m16, ("copy-mode-vi"@, "0"@));
    lemma_pass_17(m16, ("copy-mode-vi"@, "h"@));
    lemma_pass_18(m17, ("copy-mode-vi"@, "C-c"@));
    lemma_pass_18(m17, ("copy-mode-vi"@, "Space"@));
    lemma_pass_18(m17, ("copy-mode-vi"@, "$"@));
    lemma_pass_18(m17, ("copy-mode-vi"@, "0"@));
    lemma_pass_18(m17, ("copy-mode-vi"@, "h"@));
    lemma_pass_19(m18, ("copy-mode-vi"@, "C-c"@));
    lemma_pass_19(m18, ("copy-mode-vi"@, "Space"@));
    lemma_pass_19(m18, ("copy-mode-vi"@, "$"@));
    lemma_pass_19(m18, ("copy-mode-vi"@, "0"@));
    lemma_pass_19(m18, ("copy-mode-vi"@, "h"@));
    lemma_pass_20(m19, ("copy-mode-vi"@, "C-c"@));
    lemma_pass_20(m19, ("copy-mode-vi"@, "Space"@));
    lemma_pass_20(m19, ("copy-mode-vi"@, "$"@));
    lemma_pass_20(m19, ("copy-mode-vi"@, "0"@));
    lemma_pass_20(m19, ("copy-mode-vi"@, "h"@));
    lemma_pass_21(m20, ("copy-mode-vi"@, "C-c"@));
    lemma_pass_21(m20, ("copy-mode-vi"@, "Space"@));
    lemma_pass_21(m20, ("copy-mode-vi"@, "$"@));
    lemma_pass_21(m20, ("copy-mode-vi"@, "0"@));
    lemma_pass_21(m20, ("copy-mode-vi"@, "h"@));
    lemma_pass_22(m21, ("copy-mode-vi"@, "C-c"@));
    lemma_pass_22(m21, ("copy-mode-vi"@, "Space"@));
    lemma_pass_22(m21, ("copy-mode-vi"@, "$"@));
    lemma_pass_22(m21, ("copy-mode-vi"@, "0"@));
    lemma_pass_22(m21, ("copy-mode-vi"@, "h"@));
    lemma_pass_23(m22, ("copy-mode-vi"@, "C-c"@));
    lemma_pass_23(m22, ("copy-mode-vi"@, "Space"@));
    lemma_pass_23(m22, ("copy-mode-vi"@, "$"@));
    lemma_pass_23(m22, ("copy-mode-vi"@, "0"@));
    lemma_pass_23(m22, ("copy-mode-vi"@, "h"@));
    lemma_pass_24(m23, ("copy-mode-vi"@, "C-c"@));
    lemma_pass_24(m23, ("copy-mode-vi"@, "Space"@));
    lemma_pass_24(m23, ("copy-mode-vi"@, "$"@));
    lemma_pass_24(m23, ("copy-mode-vi"@, "0"@));
    lemma_pass_24(m23, ("copy-mode-vi"@, "h"@));
    lemma_pass_25(m24, ("copy-mode-vi"@, "C-c"@));
    lemma_pass_25(m24, ("copy-mode-vi"@, "Space"@));
    lemma_pass_25(m24, ("copy-mode-vi"@, "$"@));
    lemma_pass_25(m24, ("copy-mode-vi"@, "0"@));
    lemma_pass_25(m24, ("copy-mode-vi"@, "h"@));
    lemma_pass_26(m25, ("copy-mode-vi"@, "C-c"@));
    lemma_pass_26(m25, ("copy-mode-vi"@, "Space"@));
    lemma_pass_26(m25, ("copy-mode-vi"@, "$"@));
    lemma_pass_26(m25, ("copy-mode-vi"@, "0"@));
    lemma_pass_26(m25, ("copy-mode-vi"@, "h"@));
    lemma_pass_27(m26, ("copy-mode-vi"@, "C-c"@));
    lemma_pass_27(m26, ("copy-mode-vi"@, "Space"@));
    lemma_pass_27(m26, ("copy-mode-vi"@, "$"@));
    lemma_pass_27(m26, ("copy-mode-vi"@, "0"@));
    lemma_pass_27(m26, ("copy-mode-vi"@, "h"@));
    lemma_pass_28(m27, ("copy-mode-vi"@, "C-c"@));
    lemma_pass_28(m27, ("copy-mode-vi"@, "Space"@));
    lemma_pass_28(m27, ("copy-mode-vi"@, "$"@));
    lemma_pass_28(m27, ("copy-mode-vi"@, "0"@));
    lemma_pass_28(m27, ("copy-mode-vi"@, "h"@));
    lemma_pass_29(m28, ("copy-mode-vi"@, "C-c"@));
    lemma_pass_29(m28, ("copy-mode-vi"@, "Space"@));
    lemma_pass_29(m28, ("copy-mode-vi"@, "$"@));
    lemma_pass_29(m28, ("copy-mode-vi"@, "0"@));
    lemma_pass_29(m28, ("copy-mode-vi"@, "h"@));
    lemma_pass_30(m29, ("copy-mode-vi"@, "C-c"@));
    lemma_pass_30(m29, ("copy-mode-vi"@, "Space"@));
    lemma_pass_30(m29, ("copy-mode-vi"@, "$"@));
    lemma_pass_30(m29, ("copy-mode-vi"@, "0"@));
    lemma_pass_30(m29, ("copy-mode-vi"@, "h"@));
    lemma_pass_31(m30, ("copy-mode-vi"@, "C-c"@));
    lemma_pass_31(m30, ("copy-mode-vi"@, "Space"@));
    lemma_pass_31(m30, ("copy-mode-vi"@, "$"@));
    lemma_pass_31(m30, ("copy-mode-vi"@, "0"@));
    lemma_pass_31(m30, ("copy-mode-vi"@, "h"@));
    lemma_pass_32(m31, ("copy-mode-vi"@, "C-c"@));
    lemma_pass_32(m31, ("copy-mode-vi"@, "Space"@));
    lemma_pass_32(m31, ("copy-mode-vi"@, "$"@));
    lemma_pass_32(m31, ("copy-mode-vi"@, "0"@));
    lemma_pass_32(m31, ("copy-mode-vi"@, "h"@));
    lemma_pass_33(m32, ("copy-mode-vi"@, "C-c"@));
    lemma_pass_33(m32, ("copy-mode-vi"@, "Space"@));
    lemma_pass_33(m32, ("copy-mode-vi"@, "$"@));
    lemma_pass_33(m32, ("copy-mode-vi"@, "0"@));
    lemma_pass_33(m32, ("copy-mode-vi"@, "h"@));
    lemma_pass_34(m33, ("copy-mode-vi"@, "C-c"@));
    lemma_pass_34(m33, ("copy-mode-vi"@, "Space"@));
    lemma_pass_34(m33, ("copy-mode-vi"@, "$"@));
    lemma_pass_34(m33, ("copy-mode-vi"@, "0"@));
    lemma_pass_34(m33, ("copy-mode-vi"@, "h"@));
    lemma_pass_35(m34, ("copy-mode-vi"@, "C-c"@));
    lemma_pass_35(m34, ("copy-mode-vi"@, "Space"@));
    lemma_pass_35(m34, ("copy-mode-vi"@, "$"@));
    lemma_pass_35(m34, ("copy-mode-vi"@, "0"@));
    lemma_pass_35(m34, ("copy-mode-vi"@, "h"@));
    assert(table_defaults(m) == m35);
    lemma_digit_bindings(m35, 10);
    lemma_not_digit_key(("copy-mode-vi"@, "C-c"@));
    lemma_not_digit_key(("copy-mode-vi"@, "Space"@));
    lemma_not_digit_key(("copy-mode-vi"@, "$"@));
    lemma_not_digit_key(("copy-mode-vi"@, "h"@));
}

/// Default bindings: `l` in `copy-mode-vi` runs `send-keys -X cursor-right`; `w` in `copy-mode-vi` runs `send-keys -X next-word`; `b` in `copy-mode-vi` runs `send-keys -X previous-word`; `e` in `copy-mode-vi` runs `send-keys -X next-word-end`; `n` in `copy-mode-vi` runs `send-keys -X search-again`.
pub proof fn lemma_defaults_11(m: Map<(Seq<char>, Seq<char>), BindingView>)
    ensures
        default_key_tables(m).contains_key(("copy-mode-vi"@, "l"@)),
        default_key_tables(m)[("copy-mode-vi"@, "l"@)] == (false, None::<Seq<char>>, seq!["send-keys"@, "-X"@, "cursor-right"@]),
        default_key_tables(m).contains_key(("copy-mode-vi"@, "w"@)),
        default_key_tables(m)[("copy-mode-vi"@, "w"@)] == (false, None::<Seq<char>>, seq!["send-keys"@, "-X"@, "next-word"@]),
        default_key_tables(m).contains_key(("copy-mode-vi"@, "b"@)),
        default_key_tables(m)[("copy-mode-vi"@, "b"@)] == (false, None::<Seq<char>>, seq!["send-keys"@, "-X"@, "previous-word"@]),
        default_key_tables(m).contains_key(("copy-mode-vi"@, "e"@)),
        default_key_tables(m)[("copy-mode-vi"@, "e"@)] == (false, None::<Seq<char>>, seq!["send-keys"@, "-X"@, "next-word-end"@]),
        default_key_tables(m).contains_key(("copy-mode-vi"@, "n"@)),
        default_key_tables(m)[("copy-mode-vi"@, "n"@)] == (false, None::<Seq<char>>, seq!["send-keys"@, "-X"@, "search-again"@]),
{
    reveal_strlit("#");
    reveal_strlit("%");
    reveal_strlit("*");
    reveal_strlit(",");
    reveal_strlit("/");
    reveal_strlit("0x5e");
    reveal_strlit(":");
    reveal_strlit(";");
    reveal_strlit("?");
    reveal_strlit("A");
    reveal_strlit("B");
    reveal_strlit("BSpace");
    reveal_strlit("C-Down");
    reveal_strlit("C-M-b");
    reveal_strlit("C-M-f");
    reveal_strlit("C-Space");
    reveal_strlit("C-Up");
    reveal_strlit("C-[");
    reveal_strlit("C-a");
    reveal_strlit("C-b");
    reveal_strlit("C-d");
    reveal_strlit("C-e");
    reveal_strlit("C-f");
    reveal_strlit("C-g");
    reveal_strlit("C-h");
    reveal_strlit("C-j");
    reveal_strlit("C-k");
    reveal_strlit("C-l");
    reveal_strlit("C-n");
    reveal_strlit("C-p");
    reveal_strlit("C-r");
    reveal_strlit("C-s");
    reveal_strlit("C-u");
    reveal_strlit("C-v");
    reveal_strlit("C-w");
    reveal_strlit("C-y");
    reveal_strlit("D");
    reveal_strlit("DoubleClick1Pane");
    reveal_strlit("E");
    reveal_strlit("End");
    reveal_strlit("F");
    reveal_strlit("H");
    reveal_strlit("Home");
    reveal_strlit("J");
    reveal_strlit("K");
    reveal_strlit("L");
    reveal_strlit("Left");
    reveal_strlit("M");
    reveal_strlit("M-<");
    reveal_strlit("M->");
    reveal_strlit("M-Down");
    reveal_strlit("M-R");
    reveal_strlit("M-Up");
    reveal_strlit("M-b");
    reveal_strlit("M-f");
    reveal_strlit("M-l");
    reveal_strlit("M-m");
    reveal_strlit("M-r");
    reveal_strlit("M-v");
    reveal_strlit("M-w");
    reveal_strlit("M-x");
    reveal_strlit("M-{");
    reveal_strlit("M-}");
    reveal_strlit("MouseDown1Pane");
    reveal_strlit("MouseDrag1Pane");
    reveal_strlit("MouseDragEnd1Pane");
    reveal_strlit("N");
    reveal_strlit("P");
    reveal_strlit("R");
    reveal_strlit("Right");
    reveal_strlit("Space");
    reveal_strlit("T");
    reveal_strlit("TripleClick1Pane");
    reveal_strlit("V");
    reveal_strlit("W");
    reveal_strlit("WheelDownPane");
    reveal_strlit("WheelUpPane");
    reveal_strlit("X");
    reveal_strlit("b");
    reveal_strlit("copy-mode");
    reveal_strlit("copy-mode-vi");
    reveal_strlit("e");
    reveal_strlit("f");
    reveal_strlit("g");
    reveal_strlit("l");
    reveal_strlit("n");
    reveal_strlit("o");
    reveal_strlit("r");
    reveal_strlit("t");
    reveal_strlit("v");
    reveal_strlit("w");
    reveal_strlit("z");
    reveal_strlit("{");
    reveal_strlit("}");
    assert("#"@[0] == '#');
    assert("%"@[0] == '%');
    assert("*"@[0] == '*');
    assert(","@[0] == ',');
    assert("/"@[0] == '/');
    assert("0x5e"@.len() == 4);
    assert(":"@[0] == ':');
    assert(";"@[0] == ';');
    assert("?"@[0] == '?');
    assert("A"@[0] == 'A');
    assert("B"@[0] == 'B');
    assert("BSpace"@.len() == 6);
    assert("C-Down"@.len() == 6);
    assert("C-Up"@.len() == 4);
    assert("C-["@.len() == 3);
    assert("C-b"@.len() == 3);
    assert("C-d"@.len() == 3);
    assert("C-e"@.len() == 3);
    assert("C-f"@.len() == 3);
    assert("C-h"@.len() == 3);
    assert("C-j"@.len() == 3);
    assert("C-u"@.len() == 3);
    assert("C-v"@.len() == 3);
    assert("C-y"@.len() == 3);
    assert("D"@[0] == 'D');
    assert("DoubleClick1Pane"@.len() == 16);
    assert("E"@[0] == 'E');
    assert("End"@.len() == 3);
    assert("F"@[0] == 'F');
    assert("H"@[0] == 'H');
    assert("Home"@.len() == 4);
    assert("J"@[0] == 'J');
    assert("K"@[0] == 'K');
    assert("L"@[0] == 'L');
    assert("Left"@.len() == 4);
    assert("M"@[0] == 'M');
    assert("M-x"@.len() == 3);
    assert("MouseDown1Pane"@.len() == 14);
    assert("MouseDrag1Pane"@.len() == 14);
    assert("MouseDragEnd1Pane"@.len() == 17);
    assert("N"@[0] == 'N');
    assert("P"@[0] == 'P');
    assert("Right"@.len() == 5);
    assert("T"@[0] == 'T');
    assert("TripleClick1Pane"@.len() == 16);
    assert("V"@[0] == 'V');
    assert("W"@[0] == 'W');
    assert("WheelDownPane"@.len() == 13);
    assert("WheelUpPane"@.len() == 11);
    assert("X"@[0] == 'X');
    assert("b"@.len() == 1);
    assert("b"@[0] == 'b');
    assert("copy-mode"@.len() == 9);
    assert("copy-mode-vi"@.len() == 12);
    assert("e"@.len() == 1);
    assert("e"@[0] == 'e');
    assert("f"@[0] == 'f');
    assert("l"@.len() == 1);
    assert("l"@[0] == 'l');
    assert("n"@.len() == 1);
    assert("n"@[0] == 'n');
    assert("o"@[0] == 'o');
    assert("r"@[0] == 'r');
    assert("t"@[0] == 't');
    assert("v"@[0] == 'v');
    assert("w"@.len() == 1);
    assert("w"@[0] == 'w');
    assert("z"@[0] == 'z');
    assert("{"@[0] == '{');
    assert("}"@[0] == '}');
    let m0 = m;
    let m1 = default_bindings_1(m0);
    let m2 = default_bindings_2(m1);
    let m3 = default_bindings_3(m2);
    let m4 = default_bindings_4(m3);
    let m5 = default_bindings_5(m4);
    let m6 = default_bindings_6(m5);
    let m7 = default_bindings_7(m6);
    let m8 = default_bindings_8(m7);
    let m9 = default_bindings_9(m8);
    let m10 = default_bindings_10(m9);
    let m11 = default_bindings_11(m10);
    let m12 = default_bindings_12(m11);
    let m13 = default_bindings_13(m12);
    let m14 = default_bindings_14(m13);
    let m15 = default_bindings_15(m14);
    let m16 = default_bindings_16(m15);
    let m17 = default_bindings_17(m16);
    let m18 = default_bindings_18(m17);
    let m19 = default_bindings_19(m18);
    let m20 = default_bindings_20(m19);
    let m21 = default_bindings_21(m20);
    let m22 = default_bindings_22(m21);
    let m23 = default_bindings_23(m22);
    let m24 = default_bindings_24(m23);
    let m25 = default_bindings_25(m24);
    let m26 = default_bindings_26(m25);
    let m27 = default_bindings_27(m26);
    let m28 = default_bindings_28(m27);
    let m29 = default_bindings_29(m28);
    let m30 = default_bindings_30(m29);
    let m31 = default_bindings_31(m30);
    let m32 = default_bindings_32(m31);
    let m33 = default_bindings_33(m32);
    let m34 = default_bindings_34(m33);
    let m35 = default_bindings_35(m34);
    lemma_part_11(m10);
    lemma_pass_12(m11, ("copy-mode-vi"@, "l"@));
    lemma_pass_12(m11, ("copy-mode-vi"@, "w"@));
    lemma_pass_12(m11, ("copy-mode-vi"@, "b"@));
    lemma_pass_12(m11, ("copy-mode-vi"@, "e"@));
    lemma_pass_12(m11, ("copy-mode-vi"@, "n"@));
    lemma_pass_13(m12, ("copy-mode-vi"@, "l"@));
    lemma_pass_13(m12, ("copy-mode-vi"@, "w"@));
    lemma_pass_13(m12, ("copy-mode-vi"@, "b"@));
    lemma_pass_13(m12, ("copy-mode-vi"@, "e"@));
    lemma_pass_13(m12, ("copy-mode-vi"@, "n"@));
    lemma_pass_14(m13, ("copy-mode-vi"@, "l"@));
    lemma_pass_14(m13, ("copy-mode-vi"@, "w"@));
    lemma_pass_14(m13, ("copy-mode-vi"@, "b"@));
    lemma_pass_14(m13, ("copy-mode-vi"@, "e"@));
    lemma_pass_14(m13, ("copy-mode-vi"@, "n"@));
    lemma_pass_15(m14, ("copy-mode-vi"@, "l"@));
    lemma_pass_15(m14, ("copy-mode-vi"@, "w"@));
    lemma_pass_15(m14, ("copy-mode-vi"@, "b"@));
    lemma_pass_15(m14, ("copy-mode-vi"@, "e"@));
    lemma_pass_15(m14, ("copy-mode-vi"@, "n"@));
    lemma_pass_16(m15, ("copy-mode-vi"@, "l"@));
    lemma_pass_16(m15, ("copy-mode-vi"@, "w"@));
    lemma_pass_16(m15, ("copy-mode-vi"@, "b"@));
    lemma_pass_16(m15, ("copy-mode-vi"@, "e"@));
    lemma_pass_16(m15, ("copy-mode-vi"@, "n"@));
    lemma_pass_17(m16, ("copy-mode-vi"@, "l"@));
    lemma_pass_17(m16, ("copy-mode-vi"@, "w"@));
    lemma_pass_17(m16, ("copy-mode-vi"@, "b"@));
    lemma_pass_17(m16, ("copy-mode-vi"@, "e"@));
    lemma_pass_17(m16, ("copy-mode-vi"@, "n"@));
    lemma_pass_18(m17, ("copy-mode-vi"@, "l"@));
    lemma_pass_18(m17, ("copy-mode-vi"@, "w"@));
    lemma_pass_18(m17, ("copy-mode-vi"@, "b"@));
    lemma_pass_18(m17, ("copy-mode-vi"@, "e"@));
    lemma_pass_18(m17, ("copy-mode-vi"@, "n"@));
    lemma_pass_19(m18, ("copy-mode-vi"@, "l"@));
    lemma_pass_19(m18, ("copy-mode-vi"@, "w"@));
    lemma_pass_19(m18, ("copy-mode-vi"@, "b"@));
    lemma_pass_19(m18, ("copy-mode-vi"@, "e"@));
    lemma_pass_19(m18, ("copy-mode-vi"@, "n"@));
    lemma_pass_20(m19, ("copy-mode-vi"@, "l"@));
    lemma_pass_20(m19, ("copy-mode-vi"@, "w"@));
    lemma_pass_20(m19, ("copy-mode-vi"@, "b"@));
    lemma_pass_20(m19, ("copy-mode-vi"@, "e"@));
    lemma_pass_20(m19, ("copy-mode-vi"@, "n"@));
    lemma_pass_21(m20, ("copy-mode-vi"@, "l"@));
    lemma_pass_21(m20, ("copy-mode-vi"@, "w"@));
    lemma_pass_21(m20, ("copy-mode-vi"@, "b"@));
    lemma_pass_21(m20, ("copy-mode-vi"@, "e"@));
    lemma_pass_21(m20, ("copy-mode-vi"@, "n"@));
    lemma_pass_22(m21, ("copy-mode-vi"@, "l"@));
    lemma_pass_22(m21, ("copy-mode-vi"@, "w"@));
    lemma_pass_22(m21, ("copy-mode-vi"@, "b"@));
    lemma_pass_22(m21, ("copy-mode-vi"@, "e"@));
    lemma_pass_22(m21, ("copy-mode-vi"@, "n"@));
    lemma_pass_23(m22, ("copy-mode-vi"@, "l"@));
    lemma_pass_23(m22, ("copy-mode-vi"@, "w"@));
    lemma_pass_23(m22, ("copy-mode-vi"@, "b"@));
    lemma_pass_23(m22, ("copy-mode-vi"@, "e"@));
    lemma_pass_23(m22, ("copy-mode-vi"@, "n"@));
    lemma_pass_24(m23, ("copy-mode-vi"@, "l"@));
    lemma_pass_24(m23, ("copy-mode-vi"@, "w"@));
    lemma_pass_24(m23, ("copy-mode-vi"@, "b"@));
    lemma_pass_24(m23, ("copy-mode-vi"@, "e"@));
    lemma_pass_24(m23, ("copy-mode-vi"@, "n"@));
    lemma_pass_25(m24, ("copy-mode-vi"@, "l"@));
    lemma_pass_25(m24, ("copy-mode-vi"@, "w"@));
    lemma_pass_25(m24, ("copy-mode-vi"@, "b"@));
    lemma_pass_25(m24, ("copy-mode-vi"@, "e"@));
    lemma_pass_25(m24, ("copy-mode-vi"@, "n"@));
    lemma_pass_26(m25, ("copy-mode-vi"@, "l"@));
    lemma_pass_26(m25, ("copy-mode-vi"@, "w"@));
    lemma_pass_26(m25, ("copy-mode-vi"@, "b"@));
    lemma_pass_26(m25, ("copy-mode-vi"@, "e"@));
    lemma_pass_26(m25, ("copy-mode-vi"@, "n"@));
    lemma_pass_27(m26, ("copy-mode-vi"@, "l"@));
    lemma_pass_27(m26, ("copy-mode-vi"@, "w"@));
    lemma_pass_27(m26, ("copy-mode-vi"@, "b"@));
    lemma_pass_27(m26, ("copy-mode-vi"@, "e"@));
    lemma_pass_27(m26, ("copy-mode-vi"@, "n"@));
    lemma_pass_28(m27, ("copy-mode-vi"@, "l"@));
    lemma_pass_28(m27, ("copy-mode-vi"@, "w"@));
    lemma_pass_28(m27, ("copy-mode-vi"@, "b"@));
    lemma_pass_28(m27, ("copy-mode-vi"@, "e"@));
    lemma_pass_28(m27, ("copy-mode-vi"@, "n"@));
    lemma_pass_29(m28, ("copy-mode-vi"@, "l"@));
    lemma_pass_29(m28, ("copy-mode-vi"@, "w"@));
    lemma_pass_29(m28, ("copy-mode-vi"@, "b"@));
    lemma_pass_29(m28, ("copy-mode-vi"@, "e"@));
    lemma_pass_29(m28, ("copy-mode-vi"@, "n"@));
    lemma_pass_30(m29, ("copy-mode-vi"@, "l"@));
    lemma_pass_30(m29, ("copy-mode-vi"@, "w"@));
    lemma_pass_30(m29, ("copy-mode-vi"@, "b"@));
    lemma_pass_30(m29, ("copy-mode-vi"@, "e"@));
    lemma_pass_30(m29, ("copy-mode-vi"@, "n"@));
    lemma_pass_31(m30, ("copy-mode-vi"@, "l"@));
    lemma_pass_31(m30, ("copy-mode-vi"@, "w"@));
    lemma_pass_31(m30, ("copy-mode-vi"@, "b"@));
    lemma_pass_31(m30, ("copy-mode-vi"@, "e"@));
    lemma_pass_31(m30, ("copy-mode-vi"@, "n"@));
    lemma_pass_32(m31, ("copy-mode-vi"@, "l"@));
    lemma_pass_32(m31, ("copy-mode-vi"@, "w"@));
    lemma_pass_32(m31, ("copy-mode-vi"@, "b"@));
    lemma_pass_32(m31, ("copy-mode-vi"@, "e"@));
    lemma_pass_32(m31, ("copy-mode-vi"@, "n"@));
    lemma_pass_33(m32, ("copy-mode-vi"@, "l"@));
    lemma_pass_33(m32, ("copy-mode-vi"@, "w"@));
    lemma_pass_33(m32, ("copy-mode-vi"@, "b"@));
    lemma_pass_33(m32, ("copy-mode-vi"@, "e"@));
    lemma_pass_33(m32, ("copy-mode-vi"@, "n"@));
    lemma_pass_34(m33, ("copy-mode-vi"@, "l"@));
    lemma_pass_34(m33, ("copy-mode-vi"@, "w"@));
    lemma_pass_34(m33, ("copy-mode-vi"@, "b"@));
    lemma_pass_34(m33, ("copy-mode-vi"@, "e"@));
    lemma_pass_34(m33, ("copy-mode-vi"@, "n"@));
    lemma_pass_35(m34, ("copy-mode-vi"@, "l"@));
    lemma_pass_35(m34, ("copy-mode-vi"@, "w"@));
    lemma_pass_35(m34, ("copy-mode-vi"@, "b"@));
    lemma_pass_35(m34, ("copy-mode-vi"@, "e"@));
    lemma_pass_35(m34, ("copy-mode-vi"@, "n"@));
    assert(table_defaults(m) == m35);
    lemma_digit_bindings(m35, 10);
    lemma_not_digit_key(("copy-mode-vi"@, "l"@));
    lemma_not_digit_key(("copy-mode-vi"@, "w"@));
    lemma_not_digit_key(("copy-mode-vi"@, "b"@));
    lemma_not_digit_key(("copy-mode-vi"@, "e"@));
    lemma_not_digit_key(("copy-mode-vi"@, "n"@));
}

/// Default bindings: `N` in `copy-mode-vi` runs `send-keys -X search-reverse`; `o` in `copy-mode-vi` runs `send-keys -X other-end`; `v` in `copy-mode-vi` runs `send-keys -X rectangle-toggle`; `V` in `copy-mode-vi` runs `send-keys -X select-line`; `0x5e` in `copy-mode-vi` runs `send-keys -X back-to-indentation`.
pub proof fn lemma_defaults_12(m: Map<(Seq<char>, Seq<char>), BindingView>)
    ensures
        default_key_tables(m).contains_key(("copy-mode-vi"@, "N"@)),
        default_key_tables(m)[("copy-mode-vi"@, "N"@)] == (false, None::<Seq<char>>, seq!["send-keys"@, "-X"@, "search-reverse"@]),
        default_key_tables(m).contains_key(("copy-mode-vi"@, "o"@)),
        default_key_tables(m)[("copy-mode-vi"@, "o"@)] == (false, None::<Seq<char>>, seq!["send-keys"@, "-X"@, "other-end"@]),
        default_key_tables(m).contains_key(("copy-mode-vi"@, "v"@)),
        default_key_tables(m)[("copy-mode-vi"@, "v"@)] == (false, None::<Seq<char>>, seq!["send-keys"@, "-X"@, "rectangle-toggle"@]),
        default_key_tables(m).contains_key(("copy-mode-vi"@, "V"@)),
        default_key_tables(m)[("copy-mode-vi"@, "V"@)] == (false, None::<Seq<char>>, seq!["send-keys"@, "-X"@, "select-line"@]),
        default_key_tables(m).contains_key(("copy-mode-vi"@, "0x5e"@)),
        default_key_tables(m)[("copy-mode-vi"@, "0x5e"@)] == (false, None::<Seq<char>>, seq!["send-keys"@, "-X"@, "back-to-indentation"@]),
{
    reveal_strlit("#");
    reveal_strlit("%");
    reveal_strlit("*");
    reveal_strlit(",");
    reveal_strlit("/");
    reveal_strlit("0x5e");
    reveal_strlit(":");
    reveal_strlit(";");
    reveal_strlit("?");
    reveal_strlit("A");
    reveal_strlit("B");
    reveal_strlit("BSpace");
    reveal_strlit("C-Down");
    reveal_strlit("C-M-b");
    reveal_strlit("C-M-f");
    reveal_strlit("C-Space");
    reveal_strlit("C-Up");
    reveal_strlit("C-[");
    reveal_strlit("C-a");
    reveal_strlit("C-b");
    reveal_strlit("C-d");
    reveal_strlit("C-e");
    reveal_strlit("C-f");
    reveal_strlit("C-g");
    reveal_strlit("C-h");
    reveal_strlit("C-j");
    reveal_strlit("C-k");
    reveal_strlit("C-l");
    reveal_strlit("C-n");
    reveal_strlit("C-p");
    reveal_strlit("C-r");
    reveal_strlit("C-s");
    reveal_strlit("C-u");
    reveal_strlit("C-v");
    reveal_strlit("C-w");
    reveal_strlit("C-y");
    reveal_strlit("D");
    reveal_strlit("DoubleClick1Pane");
    reveal_strlit("E");
    reveal_strlit("End");
    reveal_strlit("F");
    reveal_strlit("H");
    reveal_strlit("Home");
    reveal_strlit("J");
    reveal_strlit("K");
    reveal_strlit("L");
    reveal_strlit("Left");
    reveal_strlit("M");
    reveal_strlit("M-<");
    reveal_strlit("M->");
    reveal_strlit("M-Down");
    reveal_strlit("M-R");
    reveal_strlit("M-Up");
    reveal_strlit("M-b");
    reveal_strlit("M-f");
    reveal_strlit("M-l");
    reveal_strlit("M-m");
    reveal_strlit("M-r");
    reveal_strlit("M-v");
    reveal_strlit("M-w");
    reveal_strlit("M-x");
    reveal_strlit("M-{");
    reveal_strlit("M-}");
    reveal_strlit("MouseDown1Pane");
    reveal_strlit("MouseDrag1Pane");
    reveal_strlit("MouseDragEnd1Pane");
    reveal_strlit("N");
    reveal_strlit("P");
    reveal_strlit("R");
    reveal_strlit("Right");
    reveal_strlit("Space");
    reveal_strlit("T");
    reveal_strlit("TripleClick1Pane");
    reveal_strlit("V");
    reveal_strlit("W");
    reveal_strlit("WheelDownPane");
    reveal_strlit("WheelUpPane");
    reveal_strlit("X");
    reveal_strlit("copy-mode");
    reveal_strlit("copy-mode-vi");
    reveal_strlit("f");
    reveal_strlit("g");
    reveal_strlit("n");
    reveal_strlit("o");
    reveal_strlit("r");
    reveal_strlit("t");
    reveal_strlit("v");
    reveal_strlit("z");
    reveal_strlit("{");
    reveal_strlit("}");
    assert("#"@.len() == 1);
    assert("#"@[0] == '#');
    assert("%"@.len() == 1);
    assert("%"@[0] == '%');
    assert("*"@.len() == 1);
    assert("*"@[0] == '*');
    assert(","@.len() == 1);
    assert(","@[0] == ',');
    assert("/"@.len() == 1);
    assert("/"@[0] == '/');
    assert("0x5e"@.len() == 4);
    assert("0x5e"@[0] == '0');
    assert("0x5e"@[1] == 'x');
    assert("0x5e"@[2] == '5');
    assert(":"@.len() == 1);
    assert(":"@[0] == ':');
    assert(";"@.len() == 1);
    assert(";"@[0] == ';');
    assert("?"@.len() == 1);
    assert("?"@[0] == '?');
    assert("A"@.len() == 1);
    assert("A"@[0] == 'A');
    assert("B"@.len() == 1);
    assert("B"@[0] == 'B');
    assert("BSpace"@.len() == 6);
    assert("C-Down"@.len() == 6);
    assert("C-Up"@.len() == 4);
    assert("C-Up"@[0] == 'C');
    assert("C-["@.len() == 3);
    assert("C-b"@.len() == 3);
    assert("C-d"@.len() == 3);
    assert("C-e"@.len() == 3);
    assert("C-f"@.len() == 3);
    assert("C-h"@.len() == 3);
    assert("C-j"@.len() == 3);
    assert("C-u"@.len() == 3);
    assert("C-v"@.len() == 3);
    assert("C-y"@.len() == 3);
    assert("D"@.len() == 1);
    assert("D"@[0] == 'D');
    assert("DoubleClick1Pane"@.len() == 16);
    assert("E"@.len() == 1);
    assert("E"@[0] == 'E');
    assert("End"@.len() == 3);
    assert("F"@.len() == 1);
    assert("F"@[0] == 'F');
    assert("H"@.len() == 1);
    assert("H"@[0] == 'H');
    assert("Home"@.len() == 4);
    assert("Home"@[0] == 'H');
    assert("J"@.len() == 1);
    assert("J"@[0] == 'J');
    assert("K"@.len() == 1);
    assert("K"@[0] == 'K');
    assert("L"@.len() == 1);
    assert("L"@[0] == 'L');
    assert("Left"@.len() == 4);
    assert("Left"@[0] == 'L');
    assert("M"@.len() == 1);
    assert("M"@[0] == 'M');
    assert("M-x"@.len() == 3);
    assert("MouseDown1Pane"@.len() == 14);
    assert("MouseDrag1Pane"@.len() == 14);
    assert("MouseDragEnd1Pane"@.len() == 17);
    assert("N"@.len() == 1);
    assert("N"@[0] == 'N');
    assert("P"@.len() == 1);
    assert("P"@[0] == 'P');
    assert("Right"@.len() == 5);
    assert("T"@.len() == 1);
    assert("T"@[0] == 'T');
    assert("TripleClick1Pane"@.len() == 16);
    assert("V"@.len() == 1);
    assert("V"@[0] == 'V');
    assert("W"@.len() == 1);
    assert("W"@[0] == 'W');
    assert("WheelDownPane"@.len() == 13);
    assert("WheelUpPane"@.len() == 11);
    assert("X"@.len() == 1);
    assert("X"@[0] == 'X');
    assert("copy-mode"@.len() == 9);
    assert("copy-mode-vi"@.len() == 12);
    assert("f"@.len() == 1);
    assert("f"@[0] == 'f');
    assert("o"@.len() == 1);
    assert("o"@[0] == 'o');
    assert("r"@.len() == 1);
    assert("r"@[0] == 'r');
    assert("t"@.len() == 1);
    assert("t"@[0] == 't');
    assert("v"@.len() == 1);
    assert("v"@[0] == 'v');
    assert("z"@.len() == 1);
    assert("z"@[0] == 'z');
    assert("{"@.len() == 1);
    assert("{"@[0] == '{');
    assert("}"@.len() == 1);
    assert("}"@[0] == '}');
    let m0 = m;
    let m1 = default_bindings_1(m0);
    let m2 = default_bindings_2(m1);
    let m3 = default_bindings_3(m2);
    let m4 = default_bindings_4(m3);
    let m5 = default_bindings_5(m4);
    let m6 = default_bindings_6(m5);
    let m7 = default_bindings_7(m6);
    let m8 = default_bindings_8(m7);
    let m9 = default_bindings_9(m8);
    let m10 = default_bindings_10(m9);
    let m11 = default_bindings_11(m10);
    let m12 = default_bindings_12(m11);
    let m13 = default_bindings_13(m12);
    let m14 = default_bindings_14(m13);
    let m15 = default_bindings_15(m14);
    let m16 = default_bindings_16(m15);
    let m17 = default_bindings_17(m16);
    let m18 = default_bindings_18(m17);
    let m19 = default_bindings_19(m18);
    let m20 = default_bindings_20(m19);
    let m21 = default_bindings_21(m20);
    let m22 = default_bindings_22(m21);
    let m23 = default_bindings_23(m22);
    let m24 = default_bindings_24(m23);
    let m25 = default_bindings_25(m24);
    let m26 = default_bindings_26(m25);
    let m27 = default_bindings_27(m26);
    let m28 = default_bindings_28(m27);
    let m29 = default_bindings_29(m28);
    let m30 = default_bindings_30(m29);
    let m31 = default_bindings_31(m30);
    let m32 = default_bindings_32(m31);
    let m33 = default_bindings_33(m32);
    let m34 = default_bindings_34(m33);
    let m35 = default_bindings_35(m34);
    lemma_part_12(m11);
    lemma_pass_13(m12, ("copy-mode-vi"@, "N"@));
    lemma_pass_13(m12, ("copy-mode-vi"@, "o"@));
    lemma_pass_13(m12, ("copy-mode-vi"@, "v"@));
    lemma_pass_13(m12, ("copy-mode-vi"@, "V"@));
    lemma_pass_13(m12, ("copy-mode-vi"@, "0x5e"@));
    lemma_pass_14(m13, ("copy-mode-vi"@, "N"@));
    lemma_pass_14(m13, ("copy-mode-vi"@, "o"@));
    lemma_pass_14(m13, ("copy-mode-vi"@, "v"@));
    lemma_pass_14(m13, ("copy-mode-vi"@, "V"@));
    lemma_pass_14(m13, ("copy-mode-vi"@, "0x5e"@));
    lemma_pass_15(m14, ("copy-mode-vi"@, "N"@));
    lemma_pass_15(m14, ("copy-mode-vi"@, "o"@));
    lemma_pass_15(m14, ("copy-mode-vi"@, "v"@));
    lemma_pass_15(m14, ("copy-mode-vi"@, "V"@));
    lemma_pass_15(m14, ("copy-mode-vi"@, "0x5e"@));
    lemma_pass_16(m15, ("copy-mode-vi"@, "N"@));
    lemma_pass_16(m15, ("copy-mode-vi"@, "o"@));
    lemma_pass_16(m15, ("copy-mode-vi"@, "v"@));
    lemma_pass_16(m15, ("copy-mode-vi"@, "V"@));
    lemma_pass_16(m15, ("copy-mode-vi"@, "0x5e"@));
    lemma_pass_17(m16, ("copy-mode-vi"@, "N"@));
    lemma_pass_17(m16, ("copy-mode-vi"@, "o"@));
    lemma_pass_17(m16, ("copy-mode-vi"@, "v"@));
    lemma_pass_17(m16, ("copy-mode-vi"@, "V"@));
    lemma_pass_17(m16, ("copy-mode-vi"@, "0x5e"@));
    lemma_pass_18(m17, ("copy-mode-vi"@, "N"@));
    lemma_pass_18(m17, ("copy-mode-vi"@, "o"@));
    lemma_pass_18(m17, ("copy-mode-vi"@, "v"@));
    lemma_pass_18(m17, ("copy-mode-vi"@, "V"@));
    lemma_pass_18(m17, ("copy-mode-vi"@, "0x5e"@));
    lemma_pass_19(m18, ("copy-mode-vi"@, "N"@));
    lemma_pass_19(m18, ("copy-mode-vi"@, "o"@));
    lemma_pass_19(m18, ("copy-mode-vi"@, "v"@));
    lemma_pass_19(m18, ("copy-mode-vi"@, "V"@));
    lemma_pass_19(m18, ("copy-mode-vi"@, "0x5e"@));
    lemma_pass_20(m19, ("copy-mode-vi"@, "N"@));
    lemma_pass_20(m19, ("copy-mode-vi"@, "o"@));
    lemma_pass_20(m19, ("copy-mode-vi"@, "v"@));
    lemma_pass_20(m19, ("copy-mode-vi"@, "V"@));
    lemma_pass_20(m19, ("copy-mode-vi"@, "0x5e"@));
    lemma_pass_21(m20, ("copy-mode-vi"@, "N"@));
    lemma_pass_21(m20, ("copy-mode-vi"@, "o"@));
    lemma_pass_21(m20, ("copy-mode-vi"@, "v"@));
    lemma_pass_21(m20, ("copy-mode-vi"@, "V"@));
    lemma_pass_21(m20, ("copy-mode-vi"@, "0x5e"@));
    lemma_pass_22(m21, ("copy-mode-vi"@, "N"@));
    lemma_pass_22(m21, ("copy-mode-vi"@, "o"@));
    lemma_pass_22(m21, ("copy-mode-vi"@, "v"@));
    lemma_pass_22(m21, ("copy-mode-vi"@, "V"@));
    lemma_pass_22(m21, ("copy-mode-vi"@, "0x5e"@));
    lemma_pass_23(m22, ("copy-mode-vi"@, "N"@));
    lemma_pass_23(m22, ("copy-mode-vi"@, "o"@));
    lemma_pass_23(m22, ("copy-mode-vi"@, "v"@));
    lemma_pass_23(m22, ("copy-mode-vi"@, "V"@));
    lemma_pass_23(m22, ("copy-mode-vi"@, "0x5e"@));
    lemma_pass_24(m23, ("copy-mode-vi"@, "N"@));
    lemma_pass_24(m23, ("copy-mode-vi"@, "o"@));
    lemma_pass_24(m23, ("copy-mode-vi"@, "v"@));
    lemma_pass_24(m23, ("copy-mode-vi"@, "V"@));
    lemma_pass_24(m23, ("copy-mode-vi"@, "0x5e"@));
    lemma_pass_25(m24, ("copy-mode-vi"@, "N"@));
    lemma_pass_25(m24, ("copy-mode-vi"@, "o"@));
    lemma_pass_25(m24, ("copy-mode-vi"@, "v"@));
    lemma_pass_25(m24, ("copy-mode-vi"@, "V"@));
    lemma_pass_25(m24, ("copy-mode-vi"@, "0x5e"@));
    lemma_pass_26(m25, ("copy-mode-vi"@, "N"@));
    lemma_pass_26(m25, ("copy-mode-vi"@, "o"@));
    lemma_pass_26(m25, ("copy-mode-vi"@, "v"@));
    lemma_pass_26(m25, ("copy-mode-vi"@, "V"@));
    lemma_pass_26(m25, ("copy-mode-vi"@, "0x5e"@));
    lemma_pass_27(m26, ("copy-mode-vi"@, "N"@));
    lemma_pass_27(m26, ("copy-mode-vi"@, "o"@));
    lemma_pass_27(m26, ("copy-mode-vi"@, "v"@));
    lemma_pass_27(m26, ("copy-mode-vi"@, "V"@));
    lemma_pass_27(m26, ("copy-mode-vi"@, "0x5e"@));
    lemma_pass_28(m27, ("copy-mode-vi"@, "N"@));
    lemma_pass_28(m27, ("copy-mode-vi"@, "o"@));
    lemma_pass_28(m27, ("copy-mode-vi"@, "v"@));
    lemma_pass_28(m27, ("copy-mode-vi"@, "V"@));
    lemma_pass_28(m27, ("copy-mode-vi"@, "0x5e"@));
    lemma_pass_29(m28, ("copy-mode-vi"@, "N"@));
    lemma_pass_29(m28, ("copy-mode-vi"@, "o"@));
    lemma_pass_29(m28, ("copy-mode-vi"@, "v"@));
    lemma_pass_29(m28, ("copy-mode-vi"@, "V"@));
    lemma_pass_29(m28, ("copy-mode-vi"@, "0x5e"@));
    lemma_pass_30(m29, ("copy-mode-vi"@, "N"@));
    lemma_pass_30(m29, ("copy-mode-vi"@, "o"@));
    lemma_pass_30(m29, ("copy-mode-vi"@, "v"@));
    lemma_pass_30(m29, ("copy-mode-vi"@, "V"@));
    lemma_pass_30(m29, ("copy-mode-vi"@, "0x5e"@));
    lemma_pass_31(m30, ("copy-mode-vi"@, "N"@));
    lemma_pass_31(m30, ("copy-mode-vi"@, "o"@));
    lemma_pass_31(m30, ("copy-mode-vi"@, "v"@));
    lemma_pass_31(m30, ("copy-mode-vi"@, "V"@));
    lemma_pass_31(m30, ("copy-mode-vi"@, "0x5e"@));
    lemma_pass_32(m31, ("copy-mode-vi"@, "N"@));
    lemma_pass_32(m31, ("copy-mode-vi"@, "o"@));
    lemma_pass_32(m31, ("copy-mode-vi"@, "v"@));
    lemma_pass_32(m31, ("copy-mode-vi"@, "V"@));
    lemma_pass_32(m31, ("copy-mode-vi"@, "0x5e"@));
    lemma_pass_33(m32, ("copy-mode-vi"@, "N"@));
    lemma_pass_33(m32, ("copy-mode-vi"@, "o"@));
    lemma_pass_33(m32, ("copy-mode-vi"@, "v"@));
    lemma_pass_33(m32, ("copy-mode-vi"@, "V"@));
    lemma_pass_33(m32, ("copy-mode-vi"@, "0x5e"@));
    lemma_pass_34(m33, ("copy-mode-vi"@, "N"@));
    lemma_pass_34(m33, ("copy-mode-vi"@, "o"@));
    lemma_pass_34(m33, ("copy-mode-vi"@, "v"@));
    lemma_pass_34(m33, ("copy-mode-vi"@, "V"@));
    lemma_pass_34(m33, ("copy-mode-vi"@, "0x5e"@));
    lemma_pass_35(m34, ("copy-mode-vi"@, "N"@));
    lemma_pass_35(m34, ("copy-mode-vi"@, "o"@));
    lemma_pass_35(m34, ("copy-mode-vi"@, "v"@));
    lemma_pass_35(m34, ("copy-mode-vi"@, "V"@));
    lemma_pass_35(m34, ("copy-mode-vi"@, "0x5e"@));
    assert(table_defaults(m) == m35);
    lemma_digit_bindings(m35, 10);
    lemma_not_digit_key(("copy-mode-vi"@, "N"@));
    lemma_not_digit_key(("copy-mode-vi"@, "o"@));
    lemma_not_digit_key(("copy-mode-vi"@, "v"@));
    lemma_not_digit_key(("copy-mode-vi"@, "V"@));
    lemma_not_digit_key(("copy-mode-vi"@, "0x5e"@));
}

/// Default bindings: `%` in `copy-mode-vi` runs `send-keys -X next-matching-bracket`; `H` in `copy-mode-vi` runs `send-keys -X top-line`; `M` in `copy-mode-vi` runs `send-keys -X middle-line`; `L` in `copy-mode-vi` runs `send-keys -X bottom-line`; `r` in `copy-mode-vi` runs `send-keys -X refresh-from-pane`.
pub proof fn lemma_defaults_13(m: Map<(Seq<char>, Seq<char>), BindingView>)
    ensures
        default_key_tables(m).contains_key(("copy-mode-vi"@, "%"@)),
        default_key_tables(m)[("copy-mode-vi"@, "%"@)] == (false, None::<Seq<char>>, seq!["send-keys"@, "-X"@, "next-matching-bracket"@]),
        default_key_tables(m).contains_key(("copy-mode-vi"@, "H"@)),
        default_key_tables(m)[("copy-mode-vi"@, "H"@)] == (false, None::<Seq<char>>, seq!["send-keys"@, "-X"@, "top-line"@]),
        default_key_tables(m).contains_key(("copy-mode-vi"@, "M"@)),
        default_key_tables(m)[("copy-mode-vi"@, "M"@)] == (false, None::<Seq<char>>, seq!["send-keys"@, "-X"@, "middle-line"@]),
        default_key_tables(m).contains_key(("copy-mode-vi"@, "L"@)),
        default_key_tables(m)[("copy-mode-vi"@, "L"@)] == (false, None::<Seq<char>>, seq!["send-keys"@, "-X"@, "bottom-line"@]),
        default_key_tables(m).contains_key(("copy-mode-vi"@, "r"@)),
        default_key_tables(m)[("copy-mode-vi"@, "r"@)] == (false, None::<Seq<char>>, seq!["send-keys"@, "-X"@, "refresh-from-pane"@]),
{
    reveal_strlit("#");
    reveal_strlit("%");
    reveal_strlit("*");
    reveal_strlit(",");
    reveal_strlit("/");
    reveal_strlit(":");
    reveal_strlit(";");
    reveal_strlit("?");
    reveal_strlit("A");
    reveal_strlit("B");
    reveal_strlit("BSpace");
    reveal_strlit("C-Down");
    reveal_strlit("C-M-b");
    reveal_strlit("C-M-f");
    reveal_strlit("C-Space");
    reveal_strlit("C-Up");
    reveal_strlit("C-[");
    reveal_strlit("C-a");
    reveal_strlit("C-b");
    reveal_strlit("C-d");
    reveal_strlit("C-e");
    reveal_strlit("C-f");
    reveal_strlit("C-g");
    reveal_strlit("C-h");
    reveal_strlit("C-j");
    reveal_strlit("C-k");
    reveal_strlit("C-l");
    reveal_strlit("C-n");
    reveal_strlit("C-p");
    reveal_strlit("C-r");
    reveal_strlit("C-s");
    reveal_strlit("C-u");
    reveal_strlit("C-v");
    reveal_strlit("C-w");
    reveal_strlit("C-y");
    reveal_strlit("D");
    reveal_strlit("DoubleClick1Pane");
    reveal_strlit("E");
    reveal_strlit("End");
    reveal_strlit("F");
    reveal_strlit("H");
    reveal_strlit("Home");
    reveal_strlit("J");
    reveal_strlit("K");
    reveal_strlit("L");
    reveal_strlit("Left");
    reveal_strlit("M");
    reveal_strlit("M-<");
    reveal_strlit("M->");
    reveal_strlit("M-Down");
    reveal_strlit("M-R");
    reveal_strlit("M-Up");
    reveal_strlit("M-b");
    reveal_strlit("M-f");
    reveal_strlit("M-l");
    reveal_strlit("M-m");
    reveal_strlit("M-r");
    reveal_strlit("M-v");
    reveal_strlit("M-w");
    reveal_strlit("M-x");
    reveal_strlit("M-{");
    reveal_strlit("M-}");
    reveal_strlit("MouseDown1Pane");
    reveal_strlit("MouseDrag1Pane");
    reveal_strlit("MouseDragEnd1Pane");
    reveal_strlit("N");
    reveal_strlit("P");
    reveal_strlit("R");
    reveal_strlit("Right");
    reveal_strlit("Space");
    reveal_strlit("T");
    reveal_strlit("TripleClick1Pane");
    reveal_strlit("W");
    reveal_strlit("WheelDownPane");
    reveal_strlit("WheelUpPane");
    reveal_strlit("X");
    reveal_strlit("copy-mode");
    reveal_strlit("copy-mode-vi");
    reveal_strlit("f");
    reveal_strlit("g");
    reveal_strlit("n");
    reveal_strlit("r");
    reveal_strlit("t");
    reveal_strlit("z");
    reveal_strlit("{");
    reveal_strlit("}");
    assert("#"@[0] == '#');
    assert("%"@.len() == 1);
    assert("%"@[0] == '%');
    assert("*"@[0] == '*');
    assert(","@[0] == ',');
    assert("/"@[0] == '/');
    assert(":"@[0] == ':');
    assert(";"@[0] == ';');
    assert("?"@[0] == '?');
    assert("A"@[0] == 'A');
    assert("B"@[0] == 'B');
    assert("BSpace"@.len() == 6);
    assert("C-Down"@.len() == 6);
    assert("C-Up"@.len() == 4);
    assert("C-["@.len() == 3);
    assert("C-b"@.len() == 3);
    assert("C-d"@.len() == 3);
    assert("C-e"@.len() == 3);
    assert("C-f"@.len() == 3);
    assert("C-h"@.len() == 3);
    assert("C-j"@.len() == 3);
    assert("C-u"@.len() == 3);
    assert("C-v"@.len() == 3);
    assert("C-y"@.len() == 3);
    assert("D"@[0] == 'D');
    assert("DoubleClick1Pane"@.len() == 16);
    assert("E"@[0] == 'E');
    assert("End"@.len() == 3);
    assert("F"@[0] == 'F');
    assert("H"@.len() == 1);
    assert("H"@[0] == 'H');
    assert("Home"@.len() == 4);
    assert("J"@[0] == 'J');
    assert("K"@[0] == 'K');
    assert("L"@.len() == 1);
    assert("L"@[0] == 'L');
    assert("Left"@.len() == 4);
    assert("M"@.len() == 1);
    assert("M"@[0] == 'M');
    assert("M-x"@.len() == 3);
    assert("MouseDown1Pane"@.len() == 14);
    assert("MouseDrag1Pane"@.len() == 14);
    assert("MouseDragEnd1Pane"@.len() == 17);
    assert("P"@[0] == 'P');
    assert("Right"@.len() == 5);
    assert("T"@[0] == 'T');
    assert("TripleClick1Pane"@.len() == 16);
    assert("W"@[0] == 'W');
    assert("WheelDownPane"@.len() == 13);
    assert("WheelUpPane"@.len() == 11);
    assert("X"@[0] == 'X');
    assert("copy-mode"@.len() == 9);
    assert("copy-mode-vi"@.len() == 12);
    assert("f"@[0] == 'f');
    assert("r"@.len() == 1);
    assert("r"@[0] == 'r');
    assert("t"@[0] == 't');
    assert("z"@[0] == 'z');
    assert("{"@[0] == '{');
    assert("}"@[0] == '}');
    let m0 = m;
    let m1 = default_bindings_1(m0);
    let m2 = default_bindings_2(m1);
    let m3 = default_bindings_3(m2);
    let m4 = default_bindings_4(m3);
    let m5 = default_bindings_5(m4);
    let m6 = default_bindings_6(m5);
    let m7 = default_bindings_7(m6);
    let m8 = default_bindings_8(m7);
    let m9 = default_bindings_9(m8);
    let m10 = default_bindings_10(m9);
    let m11 = default_bindings_11(m10);
    let m12 = default_bindings_12(m11);
    let m13 = default_bindings_13(m12);
    let m14 = default_bindings_14(m13);
    let m15 = default_bindings_15(m14);
    let m16 = default_bindings_16(m15);
    let m17 = default_bindings_17(m16);
    let m18 = default_bindings_18(m17);
    let m19 = default_bindings_19(m18);
    let m20 = default_bindings_20(m19);
    let m21 = default_bindings_21(m20);
    let m22 = default_bindings_22(m21);
    let m23 = default_bindings_23(m22);
    let m24 = default_bindings_24(m23);
    let m25 = default_bindings_25(m24);
    let m26 = default_bindings_26(m25);
    let m27 = default_bindings_27(m26);
    let m28 = default_bindings_28(m27);
    let m29 = default_bindings_29(m28);
    let m30 = default_bindings_30(m29);
    let m31 = default_bindings_31(m30);
    let m32 = default_bindings_32(m31);
    let m33 = default_bindings_33(m32);
    let m34 = default_bindings_34(m33);
    let m35 = default_bindings_35(m34);
    lemma_part_13(m12);
    lemma_pass_14(m13, ("copy-mode-vi"@, "%"@));
    lemma_pass_14(m13, ("copy-mode-vi"@, "H"@));
    lemma_pass_14(m13, ("copy-mode-vi"@, "M"@));
    lemma_pass_14(m13, ("copy-mode-vi"@, "L"@));
    lemma_pass_14(m13, ("copy-mode-vi"@, "r"@));
    lemma_pass_15(m14, ("copy-mode-vi"@, "%"@));
    lemma_pass_15(m14, ("copy-mode-vi"@, "H"@));
    lemma_pass_15(m14, ("copy-mode-vi"@, "M"@));
    lemma_pass_15(m14, ("copy-mode-vi"@, "L"@));
    lemma_pass_15(m14, ("copy-mode-vi"@, "r"@));
    lemma_pass_16(m15, ("copy-mode-vi"@, "%"@));
    lemma_pass_16(m15, ("copy-mode-vi"@, "H"@));
    lemma_pass_16(m15, ("copy-mode-vi"@, "M"@));
    lemma_pass_16(m15, ("copy-mode-vi"@, "L"@));
    lemma_pass_16(m15, ("copy-mode-vi"@, "r"@));
    lemma_pass_17(m16, ("copy-mode-vi"@, "%"@));
    lemma_pass_17(m16, ("copy-mode-vi"@, "H"@));
    lemma_pass_17(m16, ("copy-mode-vi"@, "M"@));
    lemma_pass_17(m16, ("copy-mode-vi"@, "L"@));
    lemma_pass_17(m16, ("copy-mode-vi"@, "r"@));
    lemma_pass_18(m17, ("copy-mode-vi"@, "%"@));
    lemma_pass_18(m17, ("copy-mode-vi"@, "H"@));
    lemma_pass_18(m17, ("copy-mode-vi"@, "M"@));
    lemma_pass_18(m17, ("copy-mode-vi"@, "L"@));
    lemma_pass_18(m17, ("copy-mode-vi"@, "r"@));
    lemma_pass_19(m18, ("copy-mode-vi"@, "%"@));
    lemma_pass_19(m18, ("copy-mode-vi"@, "H"@));
    lemma_pass_19(m18, ("copy-mode-vi"@, "M"@));
    lemma_pass_19(m18, ("copy-mode-vi"@, "L"@));
    lemma_pass_19(m18, ("copy-mode-vi"@, "r"@));
    lemma_pass_20(m19, ("copy-mode-vi"@, "%"@));
    lemma_pass_20(m19, ("copy-mode-vi"@, "H"@));
    lemma_pass_20(m19, ("copy-mode-vi"@, "M"@));
    lemma_pass_20(m19, ("copy-mode-vi"@, "L"@));
    lemma_pass_20(m19, ("copy-mode-vi"@, "r"@));
    lemma_pass_21(m20, ("copy-mode-vi"@, "%"@));
    lemma_pass_21(m20, ("copy-mode-vi"@, "H"@));
    lemma_pass_21(m20, ("copy-mode-vi"@, "M"@));
    lemma_pass_21(m20, ("copy-mode-vi"@, "L"@));
    lemma_pass_21(m20, ("copy-mode-vi"@, "r"@));
    lemma_pass_22(m21, ("copy-mode-vi"@, "%"@));
    lemma_pass_22(m21, ("copy-mode-vi"@, "H"@));
    lemma_pass_22(m21, ("copy-mode-vi"@, "M"@));
    lemma_pass_22(m21, ("copy-mode-vi"@, "L"@));
    lemma_pass_22(m21, ("copy-mode-vi"@, "r"@));
    lemma_pass_23(m22, ("copy-mode-vi"@, "%"@));
    lemma_pass_23(m22, ("copy-mode-vi"@, "H"@));
    lemma_pass_23(m22, ("copy-mode-vi"@, "M"@));
    lemma_pass_23(m22, ("copy-mode-vi"@, "L"@));
    lemma_pass_23(m22, ("copy-mode-vi"@, "r"@));
    lemma_pass_24(m23, ("copy-mode-vi"@, "%"@));
    lemma_pass_24(m23, ("copy-mode-vi"@, "H"@));
    lemma_pass_24(m23, ("copy-mode-vi"@, "M"@));
    lemma_pass_24(m23, ("copy-mode-vi"@, "L"@));
    lemma_pass_24(m23, ("copy-mode-vi"@, "r"@));
    lemma_pass_25(m24, ("copy-mode-vi"@, "%"@));
    lemma_pass_25(m24, ("copy-mode-vi"@, "H"@));
    lemma_pass_25(m24, ("copy-mode-vi"@, "M"@));
    lemma_pass_25(m24, ("copy-mode-vi"@, "L"@));
    lemma_pass_25(m24, ("copy-mode-vi"@, "r"@));
    lemma_pass_26(m25, ("copy-mode-vi"@, "%"@));
    lemma_pass_26(m25, ("copy-mode-vi"@, "H"@));
    lemma_pass_26(m25, ("copy-mode-vi"@, "M"@));
    lemma_pass_26(m25, ("copy-mode-vi"@, "L"@));
    lemma_pass_26(m25, ("copy-mode-vi"@, "r"@));
    lemma_pass_27(m26, ("copy-mode-vi"@, "%"@));
    lemma_pass_27(m26, ("copy-mode-vi"@, "H"@));
    lemma_pass_27(m26, ("copy-mode-vi"@, "M"@));
    lemma_pass_27(m26, ("copy-mode-vi"@, "L"@));
    lemma_pass_27(m26, ("copy-mode-vi"@, "r"@));
    lemma_pass_28(m27, ("copy-mode-vi"@, "%"@));
    lemma_pass_28(m27, ("copy-mode-vi"@, "H"@));
    lemma_pass_28(m27, ("copy-mode-vi"@, "M"@));
    lemma_pass_28(m27, ("copy-mode-vi"@, "L"@));
    lemma_pass_28(m27, ("copy-mode-vi"@, "r"@));
    lemma_pass_29(m28, ("copy-mode-vi"@, "%"@));
    lemma_pass_29(m28, ("copy-mode-vi"@, "H"@));
    lemma_pass_29(m28, ("copy-mode-vi"@, "M"@));
    lemma_pass_29(m28, ("copy-mode-vi"@, "L"@));
    lemma_pass_29(m28, ("copy-mode-vi"@, "r"@));
    lemma_pass_30(m29, ("copy-mode-vi"@, "%"@));
    lemma_pass_30(m29, ("copy-mode-vi"@, "H"@));
    lemma_pass_30(m29, ("copy-mode-vi"@, "M"@));
    lemma_pass_30(m29, ("copy-mode-vi"@, "L"@));
    lemma_pass_30(m29, ("copy-mode-vi"@, "r"@));
    lemma_pass_31(m30, ("copy-mode-vi"@, "%"@));
    lemma_pass_31(m30, ("copy-mode-vi"@, "H"@));
    lemma_pass_31(m30, ("copy-mode-vi"@, "M"@));
    lemma_pass_31(m30, ("copy-mode-vi"@, "L"@));
    lemma_pass_31(m30, ("copy-mode-vi"@, "r"@));
    lemma_pass_32(m31, ("copy-mode-vi"@, "%"@));
    lemma_pass_32(m31, ("copy-mode-vi"@, "H"@));
    lemma_pass_32(m31, ("copy-mode-vi"@, "M"@));
    lemma_pass_32(m31, ("copy-mode-vi"@, "L"@));
    lemma_pass_32(m31, ("copy-mode-vi"@, "r"@));
    lemma_pass_33(m32, ("copy-mode-vi"@, "%"@));
    lemma_pass_33(m32, ("copy-mode-vi"@, "H"@));
    lemma_pass_33(m32, ("copy-mode-vi"@, "M"@));
    lemma_pass_33(m32, ("copy-mode-vi"@, "L"@));
    lemma_pass_33(m32, ("copy-mode-vi"@, "r"@));
    lemma_pass_34(m33, ("copy-mode-vi"@, "%"@));
    lemma_pass_34(m33, ("copy-mode-vi"@, "H"@));
    lemma_pass_34(m33, ("copy-mode-vi"@, "M"@));
    lemma_pass_34(m33, ("copy-mode-vi"@, "L"@));
    lemma_pass_34(m33, ("copy-mode-vi"@, "r"@));
    lemma_pass_35(m34, ("copy-mode-vi"@, "%"@));
    lemma_pass_35(m34, ("copy-mode-vi"@, "H"@));
    lemma_pass_35(m34, ("copy-mode-vi"@, "M"@));
    lemma_pass_35(m34, ("copy-mode-vi"@, "L"@));
    lemma_pass_35(m34, ("copy-mode-vi"@, "r"@));
    assert(table_defaults(m) == m35);
    lemma_digit_bindings(m35, 10);
    lemma_not_digit_key(("copy-mode-vi"@, "%"@));
    lemma_not_digit_key(("copy-mode-vi"@, "H"@));
    lemma_not_digit_key(("copy-mode-vi"@, "M"@));
    lemma_not_digit_key(("copy-mode-vi"@, "L"@));
    lemma_not_digit_key(("copy-mode-vi"@, "r"@));
}

/// Default bindings: `C-d` in `copy-mode-vi` runs `send-keys -X halfpage-down`; `C-u` in `copy-mode-vi` runs `send-keys -X halfpage-up`; `C-f` in `copy-mode-vi` runs `send-keys -X page-down`; `C-b` in `copy-mode-vi` runs `send-keys -X page-up`; `C-e` in `copy-mode-vi` runs `send-keys -X scroll-down`.
pub proof fn lemma_defaults_14(m: Map<(Seq<char>, Seq<char>), BindingView>)
    ensures
        default_key_tables(m).contains_key(("copy-mode-vi"@, "C-d"@)),
        default_key_tables(m)[("copy-mode-vi"@, "C-d"@)] == (false, None::<Seq<char>>, seq!["send-keys"@, "-X"@, "halfpage-down"@]),
        default_key_tables(m).contains_key(("copy-mode-vi"@, "C-u"@)),
        default_key_tables(m)[("copy-mode-vi"@, "C-u"@)] == (false, None::<Seq<char>>, seq!["send-keys"@, "-X"@, "halfpage-up"@]),
        default_key_tables(m).contains_key(("copy-mode-vi"@, "C-f"@)),
        default_key_tables(m)[("copy-mode-vi"@, "C-f"@)] == (false, None::<Seq<char>>, seq!["send-keys"@, "-X"@, "page-down"@]),
        default_key_tables(m).contains_key(("copy-mode-vi"@, "C-b"@)),
        default_key_tables(m)[("copy-mode-vi"@, "C-b"@)] == (false, None::<Seq<char>>, seq!["send-keys"@, "-X"@, "page-up"@]),
        default_key_tables(m).contains_key(("copy-mode-vi"@, "C-e"@)),
        default_key_tables(m)[("copy-mode-vi"@, "C-e"@)] == (false, None::<Seq<char>>, seq!["send-keys"@, "-X"@, "scroll-down"@]),
{
    reveal_strlit("#");
    reveal_strlit("*");
    reveal_strlit(",");
    reveal_strlit("/");
    reveal_strlit(":");
    reveal_strlit(";");
    reveal_strlit("?");
    reveal_strlit("A");
    reveal_strlit("B");
    reveal_strlit("BSpace");
    reveal_strlit("C-Down");
    reveal_strlit("C-M-b");
    reveal_strlit("C-M-f");
    reveal_strlit("C-Space");
    reveal_strlit("C-Up");
    reveal_strlit("C-[");
    reveal_strlit("C-a");
    reveal_strlit("C-b");
    reveal_strlit("C-d");
    reveal_strlit("C-e");
    reveal_strlit("C-f");
    reveal_strlit("C-g");
    reveal_strlit("C-h");
    reveal_strlit("C-j");
    reveal_strlit("C-k");
    reveal_strlit("C-l");
    reveal_strlit("C-n");
    reveal_strlit("C-p");
    reveal_strlit("C-r");
    reveal_strlit("C-s");
    reveal_strlit("C-u");
    reveal_strlit("C-v");
    reveal_strlit("C-w");
    reveal_strlit("C-y");
    reveal_strlit("D");
    reveal_strlit("DoubleClick1Pane");
    reveal_strlit("E");
    reveal_strlit("End");
    reveal_strlit("F");
    reveal_strlit("Home");
    reveal_strlit("J");
    reveal_strlit("K");
    reveal_strlit("Left");
    reveal_strlit("M-<");
    reveal_strlit("M->");
    reveal_strlit("M-Down");
    reveal_strlit("M-R");
    reveal_strlit("M-Up");
    reveal_strlit("M-b");
    reveal_strlit("M-f");
    reveal_strlit("M-l");
    reveal_strlit("M-m");
    reveal_strlit("M-r");
    reveal_strlit("M-v");
    reveal_strlit("M-w");
    reveal_strlit("M-x");
    reveal_strlit("M-{");
    reveal_strlit("M-}");
    reveal_strlit("MouseDown1Pane");
    reveal_strlit("MouseDrag1Pane");
    reveal_strlit("MouseDragEnd1Pane");
    reveal_strlit("N");
    reveal_strlit("P");
    reveal_strlit("R");
    reveal_strlit("Right");
    reveal_strlit("Space");
    reveal_strlit("T");
    reveal_strlit("TripleClick1Pane");
    reveal_strlit("W");
    reveal_strlit("WheelDownPane");
    reveal_strlit("WheelUpPane");
    reveal_strlit("X");
    reveal_strlit("copy-mode");
    reveal_strlit("copy-mode-vi");
    reveal_strlit("f");
    reveal_strlit("g");
    reveal_strlit("n");
    reveal_strlit("r");
    reveal_strlit("t");
    reveal_strlit("z");
    reveal_strlit("{");
    reveal_strlit("}");
    assert("#"@.len() == 1);
    assert("*"@.len() == 1);
    assert(","@.len() == 1);
    assert("/"@.len() == 1);
    assert(":"@.len() == 1);
    assert(";"@.len() == 1);
    assert("?"@.len() == 1);
    assert("A"@.len() == 1);
    assert("B"@.len() == 1);
    assert("BSpace"@.len() == 6);
    assert("C-Down"@.len() == 6);
    assert("C-Up"@.len() == 4);
    assert("C-["@[2] == '[');
    assert("C-b"@.len() == 3);
    assert("C-b"@[0] == 'C');
    assert("C-b"@[1] == '-');
    assert("C-b"@[2] == 'b');
    assert("C-d"@.len() == 3);
    assert("C-d"@[0] == 'C');
    assert("C-d"@[1] == '-');
    assert("C-d"@[2] == 'd');
    assert("C-e"@.len() == 3);
    assert("C-e"@[0] == 'C');
    assert("C-e"@[1] == '-');
    assert("C-e"@[2] == 'e');
    assert("C-f"@.len() == 3);
    assert("C-f"@[0] == 'C');
    assert("C-f"@[1] == '-');
    assert("C-f"@[2] == 'f');
    assert("C-h"@[2] == 'h');
    assert("C-j"@[2] == 'j');
    assert("C-u"@.len() == 3);
    assert("C-u"@[0] == 'C');
    assert("C-u"@[1] == '-');
    assert("C-u"@[2] == 'u');
    assert("C-v"@[2] == 'v');
    assert("C-y"@[2] == 'y');
    assert("D"@.len() == 1);
    assert("DoubleClick1Pane"@.len() == 16);
    assert("E"@.len() == 1);
    assert("End"@[0] == 'E');
    assert("F"@.len() == 1);
    assert("Home"@.len() == 4);
    assert("J"@.len() == 1);
    assert("K"@.len() == 1);
    assert("Left"@.len() == 4);
    assert("M-x"@[0] == 'M');
    assert("MouseDown1Pane"@.len() == 14);
    assert("MouseDrag1Pane"@.len() == 14);
    assert("MouseDragEnd1Pane"@.len() == 17);
    assert("P"@.len() == 1);
    assert("Right"@.len() == 5);
    assert("T"@.len() == 1);
    assert("TripleClick1Pane"@.len() == 16);
    assert("W"@.len() == 1);
    assert("WheelDownPane"@.len() == 13);
    assert("WheelUpPane"@.len() == 11);
    assert("X"@.len() == 1);
    assert("copy-mode"@.len() == 9);
    assert("copy-mode-vi"@.len() == 12);
    assert("f"@.len() == 1);
    assert("t"@.len() == 1);
    assert("z"@.len() == 1);
    assert("{"@.len() == 1);
    assert("}"@.len() == 1);
    let m0 = m;
    let m1 = default_bindings_1(m0);
    let m2 = default_bindings_2(m1);
    let m3 = default_bindings_3(m2);
    let m4 = default_bindings_4(m3);
    let m5 = default_bindings_5(m4);
    let m6 = default_bindings_6(m5);
    let m7 = default_bindings_7(m6);
    let m8 = default_bindings_8(m7);
    let m9 = default_bindings_9(m8);
    let m10 = default_bindings_10(m9);
    let m11 = default_bindings_11(m10);
    let m12 = default_bindings_12(m11);
    let m13 = default_bindings_13(m12);
    let m14 = default_bindings_14(m13);
    let m15 = default_bindings_15(m14);
    let m16 = default_bindings_16(m15);
    let m17 = default_bindings_17(m16);
    let m18 = default_bindings_18(m17);
    let m19 = default_bindings_19(m18);
    let m20 = default_bindings_20(m19);
    let m21 = default_bindings_21(m20);
    let m22 = default_bindings_22(m21);
    let m23 = default_bindings_23(m22);
    let m24 = default_bindings_24(m23);
    let m25 = default_bindings_25(m24);
    let m26 = default_bindings_26(m25);
    let m27 = default_bindings_27(m26);
    let m28 = default_bindings_28(m27);
    let m29 = default_bindings_29(m28);
    let m30 = default_bindings_30(m29);
    let m31 = default_bindings_31(m30);
    let m32 = default_bindings_32(m31);
    let m33 = default_bindings_33(m32);
    let m34 = default_bindings_34(m33);
    let m35 = default_bindings_35(m34);
    lemma_part_14(m13);
    lemma_pass_15(m14, ("copy-mode-vi"@, "C-d"@));
    lemma_pass_15(m14, ("copy-mode-vi"@, "C-u"@));
    lemma_pass_15(m14, ("copy-mode-vi"@, "C-f"@));
    lemma_pass_15(m14, ("copy-mode-vi"@, "C-b"@));
    lemma_pass_15(m14, ("copy-mode-vi"@, "C-e"@));
    lemma_pass_16(m15, ("copy-mode-vi"@, "C-d"@));
    lemma_pass_16(m15, ("copy-mode-vi"@, "C-u"@));
    lemma_pass_16(m15, ("copy-mode-vi"@, "C-f"@));
    lemma_pass_16(m15, ("copy-mode-vi"@, "C-b"@));
    lemma_pass_16(m15, ("copy-mode-vi"@, "C-e"@));
    lemma_pass_17(m16, ("copy-mode-vi"@, "C-d"@));
    lemma_pass_17(m16, ("copy-mode-vi"@, "C-u"@));
    lemma_pass_17(m16, ("copy-mode-vi"@, "C-f"@));
    lemma_pass_17(m16, ("copy-mode-vi"@, "C-b"@));
    lemma_pass_17(m16, ("copy-mode-vi"@, "C-e"@));
    lemma_pass_18(m17, ("copy-mode-vi"@, "C-d"@));
    lemma_pass_18(m17, ("copy-mode-vi"@, "C-u"@));
    lemma_pass_18(m17, ("copy-mode-vi"@, "C-f"@));
    lemma_pass_18(m17, ("copy-mode-vi"@, "C-b"@));
    lemma_pass_18(m17, ("copy-mode-vi"@, "C-e"@));
    lemma_pass_19(m18, ("copy-mode-vi"@, "C-d"@));
    lemma_pass_19(m18, ("copy-mode-vi"@, "C-u"@));
    lemma_pass_19(m18, ("copy-mode-vi"@, "C-f"@));
    lemma_pass_19(m18, ("copy-mode-vi"@, "C-b"@));
    lemma_pass_19(m18, ("copy-mode-vi"@, "C-e"@));
    lemma_pass_20(m19, ("copy-mode-vi"@, "C-d"@));
    lemma_pass_20(m19, ("copy-mode-vi"@, "C-u"@));
    lemma_pass_20(m19, ("copy-mode-vi"@, "C-f"@));
    lemma_pass_20(m19, ("copy-mode-vi"@, "C-b"@));
    lemma_pass_20(m19, ("copy-mode-vi"@, "C-e"@));
    lemma_pass_21(m20, ("copy-mode-vi"@, "C-d"@));
    lemma_pass_21(m20, ("copy-mode-vi"@, "C-u"@));
    lemma_pass_21(m20, ("copy-mode-vi"@, "C-f"@));
    lemma_pass_21(m20, ("copy-mode-vi"@, "C-b"@));
    lemma_pass_21(m20, ("copy-mode-vi"@, "C-e"@));
    lemma_pass_22(m21, ("copy-mode-vi"@, "C-d"@));
    lemma_pass_22(m21, ("copy-mode-vi"@, "C-u"@));
    lemma_pass_22(m21, ("copy-mode-vi"@, "C-f"@));
    lemma_pass_22(m21, ("copy-mode-vi"@, "C-b"@));
    lemma_pass_22(m21, ("copy-mode-vi"@, "C-e"@));
    lemma_pass_23(m22, ("copy-mode-vi"@, "C-d"@));
    lemma_pass_23(m22, ("copy-mode-vi"@, "C-u"@));
    lemma_pass_23(m22, ("copy-mode-vi"@, "C-f"@));
    lemma_pass_23(m22, ("copy-mode-vi"@, "C-b"@));
    lemma_pass_23(m22, ("copy-mode-vi"@, "C-e"@));
    lemma_pass_24(m23, ("copy-mode-vi"@, "C-d"@));
    lemma_pass_24(m23, ("copy-mode-vi"@, "C-u"@));
    lemma_pass_24(m23, ("copy-mode-vi"@, "C-f"@));
    lemma_pass_24(m23, ("copy-mode-vi"@, "C-b"@));
    lemma_pass_24(m23, ("copy-mode-vi"@, "C-e"@));
    lemma_pass_25(m24, ("copy-mode-vi"@, "C-d"@));
    lemma_pass_25(m24, ("copy-mode-vi"@, "C-u"@));
    lemma_pass_25(m24, ("copy-mode-vi"@, "C-f"@));
    lemma_pass_25(m24, ("copy-mode-vi"@, "C-b"@));
    lemma_pass_25(m24, ("copy-mode-vi"@, "C-e"@));
    lemma_pass_26(m25, ("copy-mode-vi"@, "C-d"@));
    lemma_pass_26(m25, ("copy-mode-vi"@, "C-u"@));
    lemma_pass_26(m25, ("copy-mode-vi"@, "C-f"@));
    lemma_pass_26(m25, ("copy-mode-vi"@, "C-b"@));
    lemma_pass_26(m25, ("copy-mode-vi"@, "C-e"@));
    lemma_pass_27(m26, ("copy-mode-vi"@, "C-d"@));
    lemma_pass_27(m26, ("copy-mode-vi"@, "C-u"@));
    lemma_pass_27(m26, ("copy-mode-vi"@, "C-f"@));
    lemma_pass_27(m26, ("copy-mode-vi"@, "C-b"@));
    lemma_pass_27(m26, ("copy-mode-vi"@, "C-e"@));
    lemma_pass_28(m27, ("copy-mode-vi"@, "C-d"@));
    lemma_pass_28(m27, ("copy-mode-vi"@, "C-u"@));
    lemma_pass_28(m27, ("copy-mode-vi"@, "C-f"@));
    lemma_pass_28(m27, ("copy-mode-vi"@, "C-b"@));
    lemma_pass_28(m27, ("copy-mode-vi"@, "C-e"@));
    lemma_pass_29(m28, ("copy-mode-vi"@, "C-d"@));
    lemma_pass_29(m28, ("copy-mode-vi"@, "C-u"@));
    lemma_pass_29(m28, ("copy-mode-vi"@, "C-f"@));
    lemma_pass_29(m28, ("copy-mode-vi"@, "C-b"@));
    lemma_pass_29(m28, ("copy-mode-vi"@, "C-e"@));
    lemma_pass_30(m29, ("copy-mode-vi"@, "C-d"@));
    lemma_pass_30(m29, ("copy-mode-vi"@, "C-u"@));
    lemma_pass_30(m29, ("copy-mode-vi"@, "C-f"@));
    lemma_pass_30(m29, ("copy-mode-vi"@, "C-b"@));
    lemma_pass_30(m29, ("copy-mode-vi"@, "C-e"@));
    lemma_pass_31(m30, ("copy-mode-vi"@, "C-d"@));
    lemma_pass_31(m30, ("copy-mode-vi"@, "C-u"@));
    lemma_pass_31(m30, ("copy-mode-vi"@, "C-f"@));
    lemma_pass_31(m30, ("copy-mode-vi"@, "C-b"@));
    lemma_pass_31(m30, ("copy-mode-vi"@, "C-e"@));
    lemma_pass_32(m31, ("copy-mode-vi"@, "C-d"@));
    lemma_pass_32(m31, ("copy-mode-vi"@, "C-u"@));
    lemma_pass_32(m31, ("copy-mode-vi"@, "C-f"@));
    lemma_pass_32(m31, ("copy-mode-vi"@, "C-b"@));
    lemma_pass_32(m31, ("copy-mode-vi"@, "C-e"@));
    lemma_pass_33(m32, ("copy-mode-vi"@, "C-d"@));
    lemma_pass_33(m32, ("copy-mode-vi"@, "C-u"@));
    lemma_pass_33(m32, ("copy-mode-vi"@, "C-f"@));
    lemma_pass_33(m32, ("copy-mode-vi"@, "C-b"@));
    lemma_pass_33(m32, ("copy-mode-vi"@, "C-e"@));
    lemma_pass_34(m33, ("copy-mode-vi"@, "C-d"@));
    lemma_pass_34(m33, ("copy-mode-vi"@, "C-u"@));
    lemma_pass_34(m33, ("copy-mode-vi"@, "C-f"@));
    lemma_pass_34(m33, ("copy-mode-vi"@, "C-b"@));
    lemma_pass_34(m33, ("copy-mode-vi"@, "C-e"@));
    lemma_pass_35(m34, ("copy-mode-vi"@, "C-d"@));
    lemma_pass_35(m34, ("copy-mode-vi"@, "C-u"@));
    lemma_pass_35(m34, ("copy-mode-vi"@, "C-f"@));
    lemma_pass_35(m34, ("copy-mode-vi"@, "C-b"@));
    lemma_pass_35(m34, ("copy-mode-vi"@, "C-e"@));
    assert(table_defaults(m) == m35);
    lemma_digit_bindings(m35, 10);
    lemma_not_digit_key(("copy-mode-vi"@, "C-d"@));
    lemma_not_digit_key(("copy-mode-vi"@, "C-u"@));
    lemma_not_digit_key(("copy-mode-vi"@, "C-f"@));
    lemma_not_digit_key(("copy-mode-vi"@, "C-b"@));
    lemma_not_digit_key(("copy-mode-vi"@, "C-e"@));
}

/// Default bindings: `C-y` in `copy-mode-vi` runs `send-keys -X scroll-up`; `C-Space` in `copy-mode` runs `send-keys -X begin-selection`; `C-a` in `copy-mode` runs `send-keys -X start-of-line`; `C-[` in `copy-mode` runs `send-keys -X cancel`; `C-e` in `copy-mode` runs `send-keys -X end-of-line`.
pub proof fn lemma_defaults_15(m: Map<(Seq<char>, Seq<char>), BindingView>)
    ensures
        default_key_tables(m).contains_key(("copy-mode-vi"@, "C-y"@)),
        default_key_tables(m)[("copy-mode-vi"@, "C-y"@)] == (false, None::<Seq<char>>, seq!["send-keys"@, "-X"@, "scroll-up"@]),
        default_key_tables(m).contains_key(("copy-mode"@, "C-Space"@)),
        default_key_tables(m)[("copy-mode"@, "C-Space"@)] == (false, None::<Seq<char>>, seq!["send-keys"@, "-X"@, "begin-selection"@]),
        default_key_tables(m).contains_key(("copy-mode"@, "C-a"@)),
        default_key_tables(m)[("copy-mode"@, "C-a"@)] == (false, None::<Seq<char>>, seq!["send-keys"@, "-X"@, "start-of-line"@]),
        default_key_tables(m).contains_key(("copy-mode"@, "C-["@)),
        default_key_tables(m)[("copy-mode"@, "C-["@)] == (false, None::<Seq<char>>, seq!["send-keys"@, "-X"@, "cancel"@]),
        default_key_tables(m).contains_key(("copy-mode"@, "C-e"@)),
        default_key_tables(m)[("copy-mode"@, "C-e"@)] == (false, None::<Seq<char>>, seq!["send-keys"@, "-X"@, "end-of-line"@]),
{
    reveal_strlit("#");
    reveal_strlit("*");
    reveal_strlit(",");
    reveal_strlit("/");
    reveal_strlit(":");
    reveal_strlit(";");
    reveal_strlit("?");
    reveal_strlit("A");
    reveal_strlit("B");
    reveal_strlit("BSpace");
    reveal_strlit("C-Down");
    reveal_strlit("C-M-b");
    reveal_strlit("C-M-f");
    reveal_strlit("C-Space");
    reveal_strlit("C-Up");
    reveal_strlit("C-[");
    reveal_strlit("C-a");
    reveal_strlit("C-b");
    reveal_strlit("C-e");
    reveal_strlit("C-f");
    reveal_strlit("C-g");
    reveal_strlit("C-h");
    reveal_strlit("C-j");
    reveal_strlit("C-k");
    reveal_strlit("C-l");
    reveal_strlit("C-n");
    reveal_strlit("C-p");
    reveal_strlit("C-r");
    reveal_strlit("C-s");
    reveal_strlit("C-v");
    reveal_strlit("C-w");
    reveal_strlit("C-y");
    reveal_strlit("D");
    reveal_strlit("DoubleClick1Pane");
    reveal_strlit("E");
    reveal_strlit("End");
    reveal_strlit("F");
    reveal_strlit("Home");
    reveal_strlit("J");
    reveal_strlit("K");
    reveal_strlit("Left");
    reveal_strlit("M-<");
    reveal_strlit("M->");
    reveal_strlit("M-Down");
    reveal_strlit("M-R");
    reveal_strlit("M-Up");
    reveal_strlit("M-b");
    reveal_strlit("M-f");
    reveal_strlit("M-l");
    reveal_strlit("M-m");
    reveal_strlit("M-r");
    reveal_strlit("M-v");
    reveal_strlit("M-w");
    reveal_strlit("M-x");
    reveal_strlit("M-{");
    reveal_strlit("M-}");
    reveal_strlit("MouseDown1Pane");
    reveal_strlit("MouseDrag1Pane");
    reveal_strlit("MouseDragEnd1Pane");
    reveal_strlit("N");
    reveal_strlit("P");
    reveal_strlit("R");
    reveal_strlit("Right");
    reveal_strlit("Space");
    reveal_strlit("T");
    reveal_strlit("TripleClick1Pane");
    reveal_strlit("W");
    reveal_strlit("WheelDownPane");
    reveal_strlit("WheelUpPane");
    reveal_strlit("X");
    reveal_strlit("copy-mode");
    reveal_strlit("copy-mode-vi");
    reveal_strlit("f");
    reveal_strlit("g");
    reveal_strlit("n");
    reveal_strlit("r");
    reveal_strlit("t");
    reveal_strlit("z");
    reveal_strlit("{");
    reveal_strlit("}");
    assert("#"@.len() == 1);
    assert("*"@.len() == 1);
    assert(","@.len() == 1);
    assert("/"@.len() == 1);
    assert(":"@.len() == 1);
    assert(";"@.len() == 1);
    assert("?"@.len() == 1);
    assert("A"@.len() == 1);
    assert("B"@.len() == 1);
    assert("BSpace"@.len() == 6);
    assert("C-Down"@.len() == 6);
    assert("C-M-b"@.len() == 5);
    assert("C-M-f"@.len() == 5);
    assert("C-Space"@.len() == 7);
    assert("C-Space"@[0] == 'C');
    assert("C-Space"@[1] == '-');
    assert("C-Space"@[2] == 'S');
    assert("C-Up"@.len() == 4);
    assert("C-["@.len() == 3);
    assert("C-["@[0] == 'C');
    assert("C-["@[1] == '-');
    assert("C-["@[2] == '[');
    assert("C-a"@.len() == 3);
    assert("C-a"@[0] == 'C');
    assert("C-a"@[1] == '-');
    assert("C-a"@[2] == 'a');
    assert("C-b"@.len() == 3);
    assert("C-b"@[2] == 'b');
    assert("C-e"@.len() == 3);
    assert("C-e"@[0] == 'C');
    assert("C-e"@[1] == '-');
    assert("C-e"@[2] == 'e');
    assert("C-f"@.len() == 3);
    assert("C-f"@[2] == 'f');
    assert("C-g"@.len() == 3);
    assert("C-g"@[2] == 'g');
    assert("C-h"@[2] == 'h');
    assert("C-j"@[2] == 'j');
    assert("C-k"@.len() == 3);
    assert("C-k"@[2] == 'k');
    assert("C-l"@.len() == 3);
    assert("C-l"@[2] == 'l');
    assert("C-n"@.len() == 3);
    assert("C-n"@[2] == 'n');
    assert("C-p"@.len() == 3);
    assert("C-p"@[2] == 'p');
    assert("C-r"@.len() == 3);
    assert("C-r"@[2] == 'r');
    assert("C-s"@.len() == 3);
    assert("C-s"@[2] == 's');
    assert("C-v"@.len() == 3);
    assert("C-v"@[2] == 'v');
    assert("C-w"@.len() == 3);
    assert("C-w"@[2] == 'w');
    assert("C-y"@.len() == 3);
    assert("C-y"@[0] == 'C');
    assert("C-y"@[1] == '-');
    assert("C-y"@[2] == 'y');
    assert("D"@.len() == 1);
    assert("DoubleClick1Pane"@.len() == 16);
    assert("E"@.len() == 1);
    assert("End"@.len() == 3);
    assert("End"@[0] == 'E');
    assert("F"@.len() == 1);
    assert("Home"@.len() == 4);
    assert("J"@.len() == 1);
    assert("K"@.len() == 1);
    assert("Left"@.len() == 4);
    assert("M-<"@.len() == 3);
    assert("M-<"@[0] == 'M');
    assert("M->"@.len() == 3);
    assert("M->"@[0] == 'M');
    assert("M-Down"@.len() == 6);
    assert("M-R"@.len() == 3);
    assert("M-R"@[0] == 'M');
    assert("M-Up"@.len() == 4);
    assert("M-b"@.len() == 3);
    assert("M-b"@[0] == 'M');
    assert("M-f"@.len() == 3);
    assert("M-f"@[0] == 'M');
    assert("M-l"@.len() == 3);
    assert("M-l"@[0] == 'M');
    assert("M-m"@.len() == 3);
    assert("M-m"@[0] == 'M');
    assert("M-r"@.len() == 3);
    assert("M-r"@[0] == 'M');
    assert("M-v"@.len() == 3);
    assert("M-v"@[0] == 'M');
    assert("M-w"@.len() == 3);
    assert("M-w"@[0] == 'M');
    assert("M-x"@.len() == 3);
    assert("M-x"@[0] == 'M');
    assert("M-{"@.len() == 3);
    assert("M-{"@[0] == 'M');
    assert("M-}"@.len() == 3);
    assert("M-}"@[0] == 'M');
    assert("MouseDown1Pane"@.len() == 14);
    assert("MouseDrag1Pane"@.len() == 14);
    assert("MouseDragEnd1Pane"@.len() == 17);
    assert("N"@.len() == 1);
    assert("P"@.len() == 1);
    assert("R"@.len() == 1);
    assert("Right"@.len() == 5);
    assert("Space"@.len() == 5);
    assert("T"@.len() == 1);
    assert("TripleClick1Pane"@.len() == 16);
    assert("W"@.len() == 1);
    assert("WheelDownPane"@.len() == 13);
    assert("WheelUpPane"@.len() == 11);
    assert("X"@.len() == 1);
    assert("copy-mode"@.len() == 9);
    assert("copy-mode-vi"@.len() == 12);
    assert("f"@.len() == 1);
    assert("g"@.len() == 1);
    assert("n"@.len() == 1);
    assert("r"@.len() == 1);
    assert("t"@.len() == 1);
    assert("z"@.len() == 1);
    assert("{"@.len() == 1);
    assert("}"@.len() == 1);
    let m0 = m;
    let m1 = default_bindings_1(m0);
    let m2 = default_bindings_2(m1);
    let m3 = default_bindings_3(m2);
    let m4 = default_bindings_4(m3);
    let m5 = default_bindings_5(m4);
    let m6 = default_bindings_6(m5);
    let m7 = default_bindings_7(m6);
    let m8 = default_bindings_8(m7);
    let m9 = default_bindings_9(m8);
    let m10 = default_bindings_10(m9);
    let m11 = default_bindings_11(m10);
    let m12 = default_bindings_12(m11);
    let m13 = default_bindings_13(m12);
    let m14 = default_bindings_14(m13);
    let m15 = default_bindings_15(m14);
    let m16 = default_bindings_16(m15);
    let m17 = default_bindings_17(m16);
    let m18 = default_bindings_18(m17);
    let m19 = default_bindings_19(m18);
    let m20 = default_bindings_20(m19);
    let m21 = default_bindings_21(m20);
    let m22 = default_bindings_22(m21);
    let m23 = default_bindings_23(m22);
    let m24 = default_bindings_24(m23);
    let m25 = default_bindings_25(m24);
    let m26 = default_bindings_26(m25);
    let m27 = default_bindings_27(m26);
    let m28 = default_bindings_28(m27);
    let m29 = default_bindings_29(m28);
    let m30 = default_bindings_30(m29);
    let m31 = default_bindings_31(m30);
    let m32 = default_bindings_32(m31);
    let m33 = default_bindings_33(m32);
    let m34 = default_bindings_34(m33);
    let m35 = default_bindings_35(m34);
    lemma_part_15(m14);
    lemma_pass_16(m15, ("copy-mode-vi"@, "C-y"@));
    lemma_pass_16(m15, ("copy-mode"@, "C-Space"@));
    lemma_pass_16(m15, ("copy-mode"@, "C-a"@));
    lemma_pass_16(m15, ("copy-mode"@, "C-["@));
    lemma_pass_16(m15, ("copy-mode"@, "C-e"@));
    lemma_pass_17(m16, ("copy-mode-vi"@, "C-y"@));
    lemma_pass_17(m16, ("copy-mode"@, "C-Space"@));
    lemma_pass_17(m16, ("copy-mode"@, "C-a"@));
    lemma_pass_17(m16, ("copy-mode"@, "C-["@));
    lemma_pass_17(m16, ("copy-mode"@, "C-e"@));
    lemma_pass_18(m17, ("copy-mode-vi"@, "C-y"@));
    lemma_pass_18(m17, ("copy-mode"@, "C-Space"@));
    lemma_pass_18(m17, ("copy-mode"@, "C-a"@));
    lemma_pass_18(m17, ("copy-mode"@, "C-["@));
    lemma_pass_18(m17, ("copy-mode"@, "C-e"@));
    lemma_pass_19(m18, ("copy-mode-vi"@, "C-y"@));
    lemma_pass_19(m18, ("copy-mode"@, "C-Space"@));
    lemma_pass_19(m18, ("copy-mode"@, "C-a"@));
    lemma_pass_19(m18, ("copy-mode"@, "C-["@));
    lemma_pass_19(m18, ("copy-mode"@, "C-e"@));
    lemma_pass_20(m19, ("copy-mode-vi"@, "C-y"@));
    lemma_pass_20(m19, ("copy-mode"@, "C-Space"@));
    lemma_pass_20(m19, ("copy-mode"@, "C-a"@));
    lemma_pass_20(m19, ("copy-mode"@, "C-["@));
    lemma_pass_20(m19, ("copy-mode"@, "C-e"@));
    lemma_pass_21(m20, ("copy-mode-vi"@, "C-y"@));
    lemma_pass_21(m20, ("copy-mode"@, "C-Space"@));
    lemma_pass_21(m20, ("copy-mode"@, "C-a"@));
    lemma_pass_21(m20, ("copy-mode"@, "C-["@));
    lemma_pass_21(m20, ("copy-mode"@, "C-e"@));
    lemma_pass_22(m21, ("copy-mode-vi"@, "C-y"@));
    lemma_pass_22(m21, ("copy-mode"@, "C-Space"@));
    lemma_pass_22(m21, ("copy-mode"@, "C-a"@));
    lemma_pass_22(m21, ("copy-mode"@, "C-["@));
    lemma_pass_22(m21, ("copy-mode"@, "C-e"@));
    lemma_pass_23(m22, ("copy-mode-vi"@, "C-y"@));
    lemma_pass_23(m22, ("copy-mode"@, "C-Space"@));
    lemma_pass_23(m22, ("copy-mode"@, "C-a"@));
    lemma_pass_23(m22, ("copy-mode"@, "C-["@));
    lemma_pass_23(m22, ("copy-mode"@, "C-e"@));
    lemma_pass_24(m23, ("copy-mode-vi"@, "C-y"@));
    lemma_pass_24(m23, ("copy-mode"@, "C-Space"@));
    lemma_pass_24(m23, ("copy-mode"@, "C-a"@));
    lemma_pass_24(m23, ("copy-mode"@, "C-["@));
    lemma_pass_24(m23, ("copy-mode"@, "C-e"@));
    lemma_pass_25(m24, ("copy-mode-vi"@, "C-y"@));
    lemma_pass_25(m24, ("copy-mode"@, "C-Space"@));
    lemma_pass_25(m24, ("copy-mode"@, "C-a"@));
    lemma_pass_25(m24, ("copy-mode"@, "C-["@));
    lemma_pass_25(m24, ("copy-mode"@, "C-e"@));
    lemma_pass_26(m25, ("copy-mode-vi"@, "C-y"@));
    lemma_pass_26(m25, ("copy-mode"@, "C-Space"@));
    lemma_pass_26(m25, ("copy-mode"@, "C-a"@));
    lemma_pass_26(m25, ("copy-mode"@, "C-["@));
    lemma_pass_26(m25, ("copy-mode"@, "C-e"@));
    lemma_pass_27(m26, ("copy-mode-vi"@, "C-y"@));
    lemma_pass_27(m26, ("copy-mode"@, "C-Space"@));
    lemma_pass_27(m26, ("copy-mode"@, "C-a"@));
    lemma_pass_27(m26, ("copy-mode"@, "C-["@));
    lemma_pass_27(m26, ("copy-mode"@, "C-e"@));
    lemma_pass_28(m27, ("copy-mode-vi"@, "C-y"@));
    lemma_pass_28(m27, ("copy-mode"@, "C-Space"@));
    lemma_pass_28(m27, ("copy-mode"@, "C-a"@));
    lemma_pass_28(m27, ("copy-mode"@, "C-["@));
    lemma_pass_28(m27, ("copy-mode"@, "C-e"@));
    lemma_pass_29(m28, ("copy-mode-vi"@, "C-y"@));
    lemma_pass_29(m28, ("copy-mode"@, "C-Space"@));
    lemma_pass_29(m28, ("copy-mode"@, "C-a"@));
    lemma_pass_29(m28, ("copy-mode"@, "C-["@));
    lemma_pass_29(m28, ("copy-mode"@, "C-e"@));
    lemma_pass_30(m29, ("copy-mode-vi"@, "C-y"@));
    lemma_pass_30(m29, ("copy-mode"@, "C-Space"@));
    lemma_pass_30(m29, ("copy-mode"@, "C-a"@));
    lemma_pass_30(m29, ("copy-mode"@, "C-["@));
    lemma_pass_30(m29, ("copy-mode"@, "C-e"@));
    lemma_pass_31(m30, ("copy-mode-vi"@, "C-y"@));
    lemma_pass_31(m30, ("copy-mode"@, "C-Space"@));
    lemma_pass_31(m30, ("copy-mode"@, "C-a"@));
    lemma_pass_31(m30, ("copy-mode"@, "C-["@));
    lemma_pass_31(m30, ("copy-mode"@, "C-e"@));
    lemma_pass_32(m31, ("copy-mode-vi"@, "C-y"@));
    lemma_pass_32(m31, ("copy-mode"@, "C-Space"@));
    lemma_pass_32(m31, ("copy-mode"@, "C-a"@));
    lemma_pass_32(m31, ("copy-mode"@, "C-["@));
    lemma_pass_32(m31, ("copy-mode"@, "C-e"@));
    lemma_pass_33(m32, ("copy-mode-vi"@, "C-y"@));
    lemma_pass_33(m32, ("copy-mode"@, "C-Space"@));
    lemma_pass_33(m32, ("copy-mode"@, "C-a"@));
    lemma_pass_33(m32, ("copy-mode"@, "C-["@));
    lemma_pass_33(m32, ("copy-mode"@, "C-e"@));
    lemma_pass_34(m33, ("copy-mode-vi"@, "C-y"@));
    lemma_pass_34(m33, ("copy-mode"@, "C-Space"@));
    lemma_pass_34(m33, ("copy-mode"@, "C-a"@));
    lemma_pass_34(m33, ("copy-mode"@, "C-["@));
    lemma_pass_34(m33, ("copy-mode"@, "C-e"@));
    lemma_pass_35(m34, ("copy-mode-vi"@, "C-y"@));
    lemma_pass_35(m34, ("copy-mode"@, "C-Space"@));
    lemma_pass_35(m34, ("copy-mode"@, "C-a"@));
    lemma_pass_35(m34, ("copy-mode"@, "C-["@));
    lemma_pass_35(m34, ("copy-mode"@, "C-e"@));
    assert(table_defaults(m) == m35);
    lemma_digit_bindings(m35, 10);
    lemma_not_digit_key(("copy-mode-vi"@, "C-y"@));
    lemma_not_digit_key(("copy-mode"@, "C-Space"@));
    lemma_not_digit_key(("copy-mode"@, "C-a"@));
    lemma_not_digit_key(("copy-mode"@, "C-["@));
    lemma_not_digit_key(("copy-mode"@, "C-e"@));
}

/// Default bindings: `C-f` in `copy-mode` runs `send-keys -X cursor-right`; `C-b` in `copy-mode` runs `send-keys -X cursor-left`; `C-g` in `copy-mode` runs `send-keys -X clear-selection`; `C-l` in `copy-mode` runs `send-keys -X recentre-top-bottom`; `C-n` in `copy-mode` runs `send-keys -X cursor-down`.
pub proof fn lemma_defaults_16(m: Map<(Seq<char>, Seq<char>), BindingView>)
    ensures
        default_key_tables(m).contains_key(("copy-mode"@, "C-f"@)),
        default_key_tables(m)[("copy-mode"@, "C-f"@)] == (false, None::<Seq<char>>, seq!["send-keys"@, "-X"@, "cursor-right"@]),
        default_key_tables(m).contains_key(("copy-mode"@, "C-b"@)),
        default_key_tables(m)[("copy-mode"@, "C-b"@)] == (false, None::<Seq<char>>, seq!["send-keys"@, "-X"@, "cursor-left"@]),
        default_key_tables(m).contains_key(("copy-mode"@, "C-g"@)),
        default_key_tables(m)[("copy-mode"@, "C-g"@)] == (false, None::<Seq<char>>, seq!["send-keys"@, "-X"@, "clear-selection"@]),
        default_key_tables(m).contains_key(("copy-mode"@, "C-l"@)),
        default_key_tables(m)[("copy-mode"@, "C-l"@)] == (false, None::<Seq<char>>, seq!["send-keys"@, "-X"@, "recentre-top-bottom"@]),
        default_key_tables(m).contains_key(("copy-mode"@, "C-n"@)),
        default_key_tables(m)[("copy-mode"@, "C-n"@)] == (false, None::<Seq<char>>, seq!["send-keys"@, "-X"@, "cursor-down"@]),
{
    reveal_strlit("#");
    reveal_strlit("*");
    reveal_strlit(",");
    reveal_strlit("/");
    reveal_strlit(":");
    reveal_strlit(";");
    reveal_strlit("?");
    reveal_strlit("A");
    reveal_strlit("B");
    reveal_strlit("BSpace");
    reveal_strlit("C-Down");
    reveal_strlit("C-M-b");
    reveal_strlit("C-M-f");
    reveal_strlit("C-Up");
    reveal_strlit("C-[");
    reveal_strlit("C-b");
    reveal_strlit("C-f");
    reveal_strlit("C-g");
    reveal_strlit("C-h");
    reveal_strlit("C-j");
    reveal_strlit("C-k");
    reveal_strlit("C-l");
    reveal_strlit("C-n");
    reveal_strlit("C-p");
    reveal_strlit("C-r");
    reveal_strlit("C-s");
    reveal_strlit("C-v");
    reveal_strlit("C-w");
    reveal_strlit("D");
    reveal_strlit("DoubleClick1Pane");
    reveal_strlit("E");
    reveal_strlit("End");
    reveal_strlit("F");
    reveal_strlit("Home");
    reveal_strlit("J");
    reveal_strlit("K");
    reveal_strlit("Left");
    reveal_strlit("M-<");
    reveal_strlit("M->");
    reveal_strlit("M-Down");
    reveal_strlit("M-R");
    reveal_strlit("M-Up");
    reveal_strlit("M-b");
    reveal_strlit("M-f");
    reveal_strlit("M-l");
    reveal_strlit("M-m");
    reveal_strlit("M-r");
    reveal_strlit("M-v");
    reveal_strlit("M-w");
    reveal_strlit("M-x");
    reveal_strlit("M-{");
    reveal_strlit("M-}");
    reveal_strlit("MouseDown1Pane");
    reveal_strlit("MouseDrag1Pane");
    reveal_strlit("MouseDragEnd1Pane");
    reveal_strlit("N");
    reveal_strlit("P");
    reveal_strlit("R");
    reveal_strlit("Right");
    reveal_strlit("Space");
    reveal_strlit("T");
    reveal_strlit("TripleClick1Pane");
    reveal_strlit("W");
    reveal_strlit("WheelDownPane");
    reveal_strlit("WheelUpPane");
    reveal_strlit("X");
    reveal_strlit("copy-mode");
    reveal_strlit("copy-mode-vi");
    reveal_strlit("f");
    reveal_strlit("g");
    reveal_strlit("n");
    reveal_strlit("r");
    reveal_strlit("t");
    reveal_strlit("z");
    reveal_strlit("{");
    reveal_strlit("}");
    assert(","@.len() == 1);
    assert(";"@.len() == 1);
    assert("C-Down"@.len() == 6);
    assert("C-M-b"@.len() == 5);
    assert("C-M-f"@.len() == 5);
    assert("C-Up"@.len() == 4);
    assert("C-b"@.len() == 3);
    assert("C-b"@[0] == 'C');
    assert("C-b"@[1] == '-');
    assert("C-b"@[2] == 'b');
    assert("C-f"@.len() == 3);
    assert("C-f"@[0] == 'C');
    assert("C-f"@[1] == '-');
    assert("C-f"@[2] == 'f');
    assert("C-g"@.len() == 3);
    assert("C-g"@[0] == 'C');
    assert("C-g"@[1] == '-');
    assert("C-g"@[2] == 'g');
    assert("C-k"@[2] == 'k');
    assert("C-l"@.len() == 3);
    assert("C-l"@[0] == 'C');
    assert("C-l"@[1] == '-');
    assert("C-l"@[2] == 'l');
    assert("C-n"@.len() == 3);
    assert("C-n"@[0] == 'C');
    assert("C-n"@[1] == '-');
    assert("C-n"@[2] == 'n');
    assert("C-p"@[2] == 'p');
    assert("C-r"@[2] == 'r');
    assert("C-s"@[2] == 's');
    assert("C-v"@[2] == 'v');
    assert("C-w"@[2] == 'w');
    assert("DoubleClick1Pane"@.len() == 16);
    assert("End"@[0] == 'E');
    assert("F"@.len() == 1);
    assert("Home"@.len() == 4);
    assert("Left"@.len() == 4);
    assert("M-<"@[0] == 'M');
    assert("M->"@[0] == 'M');
    assert("M-Down"@.len() == 6);
    assert("M-R"@[0] == 'M');
    assert("M-Up"@.len() == 4);
    assert("M-b"@[0] == 'M');
    assert("M-f"@[0] == 'M');
    assert("M-l"@[0] == 'M');
    assert("M-m"@[0] == 'M');
    assert("M-r"@[0] == 'M');
    assert("M-v"@[0] == 'M');
    assert("M-w"@[0] == 'M');
    assert("M-x"@[0] == 'M');
    assert("M-{"@[0] == 'M');
    assert("M-}"@[0] == 'M');
    assert("MouseDown1Pane"@.len() == 14);
    assert("MouseDrag1Pane"@.len() == 14);
    assert("MouseDragEnd1Pane"@.len() == 17);
    assert("N"@.len() == 1);
    assert("P"@.len() == 1);
    assert("R"@.len() == 1);
    assert("Right"@.len() == 5);
    assert("Space"@.len() == 5);
    assert("T"@.len() == 1);
    assert("TripleClick1Pane"@.len() == 16);
    assert("WheelDownPane"@.len() == 13);
    assert("WheelUpPane"@.len() == 11);
    assert("X"@.len() == 1);
    assert("copy-mode"@.len() == 9);
    assert("copy-mode-vi"@.len() == 12);
    assert("f"@.len() == 1);
    assert("g"@.len() == 1);
    assert("n"@.len() == 1);
    assert("r"@.len() == 1);
    assert("t"@.len() == 1);
    let m0 = m;
    let m1 = default_bindings_1(m0);
    let m2 = default_bindings_2(m1);
    let m3 = default_bindings_3(m2);
    let m4 = default_bindings_4(m3);
    let m5 = default_bindings_5(m4);
    let m6 = default_bindings_6(m5);
    let m7 = default_bindings_7(m6);
    let m8 = default_bindings_8(m7);
    let m9 = default_bindings_9(m8);
    let m10 = default_bindings_10(m9);
    let m11 = default_bindings_11(m10);
    let m12 = default_bindings_12(m11);
    let m13 = default_bindings_13(m12);
    let m14 = default_bindings_14(m13);
    let m15 = default_bindings_15(m14);
    let m16 = default_bindings_16(m15);
    let m17 = default_bindings_17(m16);
    let m18 = default_bindings_18(m17);
    let m19 = default_bindings_19(m18);
    let m20 = default_bindings_20(m19);
    let m21 = default_bindings_21(m20);
    let m22 = default_bindings_22(m21);
    let m23 = default_bindings_23(m22);
    let m24 = default_bindings_24(m23);
    let m25 = default_bindings_25(m24);
    let m26 = default_bindings_26(m25);
    let m27 = default_bindings_27(m26);
    let m28 = default_bindings_28(m27);
    let m29 = default_bindings_29(m28);
    let m30 = default_bindings_30(m29);
    let m31 = default_bindings_31(m30);
    let m32 = default_bindings_32(m31);
    let m33 = default_bindings_33(m32);
    let m34 = default_bindings_34(m33);
    let m35 = default_bindings_35(m34);
    lemma_part_16(m15);
    lemma_pass_17(m16, ("copy-mode"@, "C-f"@));
    lemma_pass_17(m16, ("copy-mode"@, "C-b"@));
    lemma_pass_17(m16, ("copy-mode"@, "C-g"@));
    lemma_pass_17(m16, ("copy-mode"@, "C-l"@));
    lemma_pass_17(m16, ("copy-mode"@, "C-n"@));
    lemma_pass_18(m17, ("copy-mode"@, "C-f"@));
    lemma_pass_18(m17, ("copy-mode"@, "C-b"@));
    lemma_pass_18(m17, ("copy-mode"@, "C-g"@));
    lemma_pass_18(m17, ("copy-mode"@, "C-l"@));
    lemma_pass_18(m17, ("copy-mode"@, "C-n"@));
    lemma_pass_19(m18, ("copy-mode"@, "C-f"@));
    lemma_pass_19(m18, ("copy-mode"@, "C-b"@));
    lemma_pass_19(m18, ("copy-mode"@, "C-g"@));
    lemma_pass_19(m18, ("copy-mode"@, "C-l"@));
    lemma_pass_19(m18, ("copy-mode"@, "C-n"@));
    lemma_pass_20(m19, ("copy-mode"@, "C-f"@));
    lemma_pass_20(m19, ("copy-mode"@, "C-b"@));
    lemma_pass_20(m19, ("copy-mode"@, "C-g"@));
    lemma_pass_20(m19, ("copy-mode"@, "C-l"@));
    lemma_pass_20(m19, ("copy-mode"@, "C-n"@));
    lemma_pass_21(m20, ("copy-mode"@, "C-f"@));
    lemma_pass_21(m20, ("copy-mode"@, "C-b"@));
    lemma_pass_21(m20, ("copy-mode"@, "C-g"@));
    lemma_pass_21(m20, ("copy-mode"@, "C-l"@));
    lemma_pass_21(m20, ("copy-mode"@, "C-n"@));
    lemma_pass_22(m21, ("copy-mode"@, "C-f"@));
    lemma_pass_22(m21, ("copy-mode"@, "C-b"@));
    lemma_pass_22(m21, ("copy-mode"@, "C-g"@));
    lemma_pass_22(m21, ("copy-mode"@, "C-l"@));
    lemma_pass_22(m21, ("copy-mode"@, "C-n"@));
    lemma_pass_23(m22, ("copy-mode"@, "C-f"@));
    lemma_pass_23(m22, ("copy-mode"@, "C-b"@));
    lemma_pass_23(m22, ("copy-mode"@, "C-g"@));
    lemma_pass_23(m22, ("copy-mode"@, "C-l"@));
    lemma_pass_23(m22, ("copy-mode"@, "C-n"@));
    lemma_pass_24(m23, ("copy-mode"@, "C-f"@));
    lemma_pass_24(m23, ("copy-mode"@, "C-b"@));
    lemma_pass_24(m23, ("copy-mode"@, "C-g"@));
    lemma_pass_24(m23, ("copy-mode"@, "C-l"@));
    lemma_pass_24(m23, ("copy-mode"@, "C-n"@));
    lemma_pass_25(m24, ("copy-mode"@, "C-f"@));
    lemma_pass_25(m24, ("copy-mode"@, "C-b"@));
    lemma_pass_25(m24, ("copy-mode"@, "C-g"@));
    lemma_pass_25(m24, ("copy-mode"@, "C-l"@));
    lemma_pass_25(m24, ("copy-mode"@, "C-n"@));
    lemma_pass_26(m25, ("copy-mode"@, "C-f"@));
    lemma_pass_26(m25, ("copy-mode"@, "C-b"@));
    lemma_pass_26(m25, ("copy-mode"@, "C-g"@));
    lemma_pass_26(m25, ("copy-mode"@, "C-l"@));
    lemma_pass_26(m25, ("copy-mode"@, "C-n"@));
    lemma_pass_27(m26, ("copy-mode"@, "C-f"@));
    lemma_pass_27(m26, ("copy-mode"@, "C-b"@));
    lemma_pass_27(m26, ("copy-mode"@, "C-g"@));
    lemma_pass_27(m26, ("copy-mode"@, "C-l"@));
    lemma_pass_27(m26, ("copy-mode"@, "C-n"@));
    lemma_pass_28(m27, ("copy-mode"@, "C-f"@));
    lemma_pass_28(m27, ("copy-mode"@, "C-b"@));
    lemma_pass_28(m27, ("copy-mode"@, "C-g"@));
    lemma_pass_28(m27, ("copy-mode"@, "C-l"@));
    lemma_pass_28(m27, ("copy-mode"@, "C-n"@));
    lemma_pass_29(m28, ("copy-mode"@, "C-f"@));
    lemma_pass_29(m28, ("copy-mode"@, "C-b"@));
    lemma_pass_29(m28, ("copy-mode"@, "C-g"@));
    lemma_pass_29(m28, ("copy-mode"@, "C-l"@));
    lemma_pass_29(m28, ("copy-mode"@, "C-n"@));
    lemma_pass_30(m29, ("copy-mode"@, "C-f"@));
    lemma_pass_30(m29, ("copy-mode"@, "C-b"@));
    lemma_pass_30(m29, ("copy-mode"@, "C-g"@));
    lemma_pass_30(m29, ("copy-mode"@, "C-l"@));
    lemma_pass_30(m29, ("copy-mode"@, "C-n"@));
    lemma_pass_31(m30, ("copy-mode"@, "C-f"@));
    lemma_pass_31(m30, ("copy-mode"@, "C-b"@));
    lemma_pass_31(m30, ("copy-mode"@, "C-g"@));
    lemma_pass_31(m30, ("copy-mode"@, "C-l"@));
    lemma_pass_31(m30, ("copy-mode"@, "C-n"@));
    lemma_pass_32(m31, ("copy-mode"@, "C-f"@));
    lemma_pass_32(m31, ("copy-mode"@, "C-b"@));
    lemma_pass_32(m31, ("copy-mode"@, "C-g"@));
    lemma_pass_32(m31, ("copy-mode"@, "C-l"@));
    lemma_pass_32(m31, ("copy-mode"@, "C-n"@));
    lemma_pass_33(m32, ("copy-mode"@, "C-f"@));
    lemma_pass_33(m32, ("copy-mode"@, "C-b"@));
    lemma_pass_33(m32, ("copy-mode"@, "C-g"@));
    lemma_pass_33(m32, ("copy-mode"@, "C-l"@));
    lemma_pass_33(m32, ("copy-mode"@, "C-n"@));
    lemma_pass_34(m33, ("copy-mode"@, "C-f"@));
    lemma_pass_34(m33, ("copy-mode"@, "C-b"@));
    lemma_pass_34(m33, ("copy-mode"@, "C-g"@));
    lemma_pass_34(m33, ("copy-mode"@, "C-l"@));
    lemma_pass_34(m33, ("copy-mode"@, "C-n"@));
    lemma_pass_35(m34, ("copy-mode"@, "C-f"@));
    lemma_pass_35(m34, ("copy-mode"@, "C-b"@));
    lemma_pass_35(m34, ("copy-mode"@, "C-g"@));
    lemma_pass_35(m34, ("copy-mode"@, "C-l"@));
    lemma_pass_35(m34, ("copy-mode"@, "C-n"@));
    assert(table_defaults(m) == m35);
    lemma_digit_bindings(m35, 10);
    lemma_not_digit_key(("copy-mode"@, "C-f"@));
    lemma_not_digit_key(("copy-mode"@, "C-b"@));
    lemma_not_digit_key(("copy-mode"@, "C-g"@));
    lemma_not_digit_key(("copy-mode"@, "C-l"@));
    lemma_not_digit_key(("copy-mode"@, "C-n"@));
}

/// Default bindings: `C-p` in `copy-mode` runs `send-keys -X cursor-up`; `C-v` in `copy-mode` runs `send-keys -X page-down`; `Space` in `copy-mode` runs `send-keys -X page-down`; `n` in `copy-mode` runs `send-keys -X search-again`; `N` in `copy-mode` runs `send-keys -X search-reverse`.
pub proof fn lemma_defaults_17(m: Map<(Seq<char>, Seq<char>), BindingView>)
    ensures
        default_key_tables(m).contains_key(("copy-mode"@, "C-p"@)),
        default_key_tables(m)[("copy-mode"@, "C-p"@)] == (false, None::<Seq<char>>, seq!["send-keys"@, "-X"@, "cursor-up"@]),
        default_key_tables(m).contains_key(("copy-mode"@, "C-v"@)),
        default_key_tables(m)[("copy-mode"@, "C-v"@)] == (false, None::<Seq<char>>, seq!["send-keys"@, "-X"@, "page-down"@]),
        default_key_tables(m).contains_key(("copy-mode"@, "Space"@)),
        default_key_tables(m)[("copy-mode"@, "Space"@)] == (false, None::<Seq<char>>, seq!["send-keys"@, "-X"@, "page-down"@]),
        default_key_tables(m).contains_key(("copy-mode"@, "n"@)),
        default_key_tables(m)[("copy-mode"@, "n"@)] == (false, None::<Seq<char>>, seq!["send-keys"@, "-X"@, "search-again"@]),
        default_key_tables(m).contains_key(("copy-mode"@, "N"@)),
        default_key_tables(m)[("copy-mode"@, "N"@)] == (false, None::<Seq<char>>, seq!["send-keys"@, "-X"@, "search-reverse"@]),
{
    reveal_strlit("#");
    reveal_strlit("*");
    reveal_strlit(",");
    reveal_strlit("/");
    reveal_strlit(":");
    reveal_strlit(";");
    reveal_strlit("?");
    reveal_strlit("A");
    reveal_strlit("B");
    reveal_strlit("BSpace");
    reveal_strlit("C-Down");
    reveal_strlit("C-M-b");
    reveal_strlit("C-M-f");
    reveal_strlit("C-Up");
    reveal_strlit("C-[");
    reveal_strlit("C-h");
    reveal_strlit("C-j");
    reveal_strlit("C-k");
    reveal_strlit("C-p");
    reveal_strlit("C-r");
    reveal_strlit("C-s");
    reveal_strlit("C-v");
    reveal_strlit("C-w");
    reveal_strlit("D");
    reveal_strlit("DoubleClick1Pane");
    reveal_strlit("E");
    reveal_strlit("End");
    reveal_strlit("F");
    reveal_strlit("Home");
    reveal_strlit("J");
    reveal_strlit("K");
    reveal_strlit("Left");
    reveal_strlit("M-<");
    reveal_strlit("M->");
    reveal_strlit("M-Down");
    reveal_strlit("M-R");
    reveal_strlit("M-Up");
    reveal_strlit("M-b");
    reveal_strlit("M-f");
    reveal_strlit("M-l");
    reveal_strlit("M-m");
    reveal_strlit("M-r");
    reveal_strlit("M-v");
    reveal_strlit("M-w");
    reveal_strlit("M-x");
    reveal_strlit("M-{");
    reveal_strlit("M-}");
    reveal_strlit("MouseDown1Pane");
    reveal_strlit("MouseDrag1Pane");
    reveal_strlit("MouseDragEnd1Pane");
    reveal_strlit("N");
    reveal_strlit("P");
    reveal_strlit("R");
    reveal_strlit("Right");
    reveal_strlit("Space");
    reveal_strlit("T");
    reveal_strlit("TripleClick1Pane");
    reveal_strlit("W");
    reveal_strlit("WheelDownPane");
    reveal_strlit("WheelUpPane");
    reveal_strlit("X");
    reveal_strlit("copy-mode");
    reveal_strlit("copy-mode-vi");
    reveal_strlit("f");
    reveal_strlit("g");
    reveal_strlit("n");
    reveal_strlit("r");
    reveal_strlit("t");
    reveal_strlit("z");
    reveal_strlit("{");
    reveal_strlit("}");
    assert(","@.len() == 1);
    assert(","@[0] == ',');
    assert(";"@.len() == 1);
    assert(";"@[0] == ';');
    assert("C-Down"@.len() == 6);
    assert("C-M-b"@.len() == 5);
    assert("C-M-b"@[0] == 'C');
    assert("C-M-f"@.len() == 5);
    assert("C-M-f"@[0] == 'C');
    assert("C-Up"@.len() == 4);
    assert("C-k"@.len() == 3);
    assert("C-k"@[2] == 'k');
    assert("C-p"@.len() == 3);
    assert("C-p"@[0] == 'C');
    assert("C-p"@[1] == '-');
    assert("C-p"@[2] == 'p');
    assert("C-r"@.len() == 3);
    assert("C-r"@[2] == 'r');
    assert("C-s"@.len() == 3);
    assert("C-s"@[2] == 's');
    assert("C-v"@.len() == 3);
    assert("C-v"@[0] == 'C');
    assert("C-v"@[1] == '-');
    assert("C-v"@[2] == 'v');
    assert("C-w"@.len() == 3);
    assert("C-w"@[2] == 'w');
    assert("DoubleClick1Pane"@.len() == 16);
    assert("End"@.len() == 3);
    assert("End"@[0] == 'E');
    assert("F"@.len() == 1);
    assert("F"@[0] == 'F');
    assert("Home"@.len() == 4);
    assert("Left"@.len() == 4);
    assert("M-<"@.len() == 3);
    assert("M-<"@[0] == 'M');
    assert("M->"@.len() == 3);
    assert("M->"@[0] == 'M');
    assert("M-Down"@.len() == 6);
    assert("M-R"@.len() == 3);
    assert("M-R"@[0] == 'M');
    assert("M-Up"@.len() == 4);
    assert("M-b"@.len() == 3);
    assert("M-b"@[0] == 'M');
    assert("M-f"@.len() == 3);
    assert("M-f"@[0] == 'M');
    assert("M-l"@.len() == 3);
    assert("M-l"@[0] == 'M');
    assert("M-m"@.len() == 3);
    assert("M-m"@[0] == 'M');
    assert("M-r"@.len() == 3);
    assert("M-r"@[0] == 'M');
    assert("M-v"@.len() == 3);
    assert("M-v"@[0] == 'M');
    assert("M-w"@.len() == 3);
    assert("M-w"@[0] == 'M');
    assert("M-x"@.len() == 3);
    assert("M-x"@[0] == 'M');
    assert("M-{"@.len() == 3);
    assert("M-{"@[0] == 'M');
    assert("M-}"@.len() == 3);
    assert("M-}"@[0] == 'M');
    assert("MouseDown1Pane"@.len() == 14);
    assert("MouseDrag1Pane"@.len() == 14);
    assert("MouseDragEnd1Pane"@.len() == 17);
    assert("N"@.len() == 1);
    assert("N"@[0] == 'N');
    assert("P"@.len() == 1);
    assert("P"@[0] == 'P');
    assert("R"@.len() == 1);
    assert("R"@[0] == 'R');
    assert("Right"@.len() == 5);
    assert("Right"@[0] == 'R');
    assert("Space"@.len() == 5);
    assert("Space"@[0] == 'S');
    assert("Space"@[1] == 'p');
    assert("Space"@[2] == 'a');
    assert("T"@.len() == 1);
    assert("T"@[0] == 'T');
    assert("TripleClick1Pane"@.len() == 16);
    assert("WheelDownPane"@.len() == 13);
    assert("WheelUpPane"@.len() == 11);
    assert("X"@.len() == 1);
    assert("X"@[0] == 'X');
    assert("copy-mode"@.len() == 9);
    assert("copy-mode-vi"@.len() == 12);
    assert("f"@.len() == 1);
    assert("f"@[0] == 'f');
    assert("g"@.len() == 1);
    assert("g"@[0] == 'g');
    assert("n"@.len() == 1);
    assert("n"@[0] == 'n');
    assert("r"@.len() == 1);
    assert("r"@[0] == 'r');
    assert("t"@.len() == 1);
    assert("t"@[0] == 't');
    let m0 = m;
    let m1 = default_bindings_1(m0);
    let m2 = default_bindings_2(m1);
    let m3 = default_bindings_3(m2);
    let m4 = default_bindings_4(m3);
    let m5 = default_bindings_5(m4);
    let m6 = default_bindings_6(m5);
    let m7 = default_bindings_7(m6);
    let m8 = default_bindings_8(m7);
    let m9 = default_bindings_9(m8);
    let m10 = default_bindings_10(m9);
    let m11 = default_bindings_11(m10);
    let m12 = default_bindings_12(m11);
    let m13 = default_bindings_13(m12);
    let m14 = default_bindings_14(m13);
    let m15 = default_bindings_15(m14);
    let m16 = default_bindings_16(m15);
    let m17 = default_bindings_17(m16);
    let m18 = default_bindings_18(m17);
    let m19 = default_bindings_19(m18);
    let m20 = default_bindings_20(m19);
    let m21 = default_bindings_21(m20);
    let m22 = default_bindings_22(m21);
    let m23 = default_bindings_23(m22);
    let m24 = default_bindings_24(m23);
    let m25 = default_bindings_25(m24);
    let m26 = default_bindings_26(m25);
    let m27 = default_bindings_27(m26);
    let m28 = default_bindings_28(m27);
    let m29 = default_bindings_29(m28);
    let m30 = default_bindings_30(m29);
    let m31 = default_bindings_31(m30);
    let m32 = default_bindings_32(m31);
    let m33 = default_bindings_33(m32);
    let m34 = default_bindings_34(m33);
    let m35 = default_bindings_35(m34);
    lemma_part_17(m16);
    lemma_pass_18(m17, ("copy-mode"@, "C-p"@));
    lemma_pass_18(m17, ("copy-mode"@, "C-v"@));
    lemma_pass_18(m17, ("copy-mode"@, "Space"@));
    lemma_pass_18(m17, ("copy-mode"@, "n"@));
    lemma_pass_18(m17, ("copy-mode"@, "N"@));
    lemma_pass_19(m18, ("copy-mode"@, "C-p"@));
    lemma_pass_19(m18, ("copy-mode"@, "C-v"@));
    lemma_pass_19(m18, ("copy-mode"@, "Space"@));
    lemma_pass_19(m18, ("copy-mode"@, "n"@));
    lemma_pass_19(m18, ("copy-mode"@, "N"@));
    lemma_pass_20(m19, ("copy-mode"@, "C-p"@));
    lemma_pass_20(m19, ("copy-mode"@, "C-v"@));
    lemma_pass_20(m19, ("copy-mode"@, "Space"@));
    lemma_pass_20(m19, ("copy-mode"@, "n"@));
    lemma_pass_20(m19, ("copy-mode"@, "N"@));
    lemma_pass_21(m20, ("copy-mode"@, "C-p"@));
    lemma_pass_21(m20, ("copy-mode"@, "C-v"@));
    lemma_pass_21(m20, ("copy-mode"@, "Space"@));
    lemma_pass_21(m20, ("copy-mode"@, "n"@));
    lemma_pass_21(m20, ("copy-mode"@, "N"@));
    lemma_pass_22(m21, ("copy-mode"@, "C-p"@));
    lemma_pass_22(m21, ("copy-mode"@, "C-v"@));
    lemma_pass_22(m21, ("copy-mode"@, "Space"@));
    lemma_pass_22(m21, ("copy-mode"@, "n"@));
    lemma_pass_22(m21, ("copy-mode"@, "N"@));
    lemma_pass_23(m22, ("copy-mode"@, "C-p"@));
    lemma_pass_23(m22, ("copy-mode"@, "C-v"@));
    lemma_pass_23(m22, ("copy-mode"@, "Space"@));
    lemma_pass_23(m22, ("copy-mode"@, "n"@));
    lemma_pass_23(m22, ("copy-mode"@, "N"@));
    lemma_pass_24(m23, ("copy-mode"@, "C-p"@));
    lemma_pass_24(m23, ("copy-mode"@, "C-v"@));
    lemma_pass_24(m23, ("copy-mode"@, "Space"@));
    lemma_pass_24(m23, ("copy-mode"@, "n"@));
    lemma_pass_24(m23, ("copy-mode"@, "N"@));
    lemma_pass_25(m24, ("copy-mode"@, "C-p"@));
    lemma_pass_25(m24, ("copy-mode"@, "C-v"@));
    lemma_pass_25(m24, ("copy-mode"@, "Space"@));
    lemma_pass_25(m24, ("copy-mode"@, "n"@));
    lemma_pass_25(m24, ("copy-mode"@, "N"@));
    lemma_pass_26(m25, ("copy-mode"@, "C-p"@));
    lemma_pass_26(m25, ("copy-mode"@, "C-v"@));
    lemma_pass_26(m25, ("copy-mode"@, "Space"@));
    lemma_pass_26(m25, ("copy-mode"@, "n"@));
    lemma_pass_26(m25, ("copy-mode"@, "N"@));
    lemma_pass_27(m26, ("copy-mode"@, "C-p"@));
    lemma_pass_27(m26, ("copy-mode"@, "C-v"@));
    lemma_pass_27(m26, ("copy-mode"@, "Space"@));
    lemma_pass_27(m26, ("copy-mode"@, "n"@));
    lemma_pass_27(m26, ("copy-mode"@, "N"@));
    lemma_pass_28(m27, ("copy-mode"@, "C-p"@));
    lemma_pass_28(m27, ("copy-mode"@, "C-v"@));
    lemma_pass_28(m27, ("copy-mode"@, "Space"@));
    lemma_pass_28(m27, ("copy-mode"@, "n"@));
    lemma_pass_28(m27, ("copy-mode"@, "N"@));
    lemma_pass_29(m28, ("copy-mode"@, "C-p"@));
    lemma_pass_29(m28, ("copy-mode"@, "C-v"@));
    lemma_pass_29(m28, ("copy-mode"@, "Space"@));
    lemma_pass_29(m28, ("copy-mode"@, "n"@));
    lemma_pass_29(m28, ("copy-mode"@, "N"@));
    lemma_pass_30(m29, ("copy-mode"@, "C-p"@));
    lemma_pass_30(m29, ("copy-mode"@, "C-v"@));
    lemma_pass_30(m29, ("copy-mode"@, "Space"@));
    lemma_pass_30(m29, ("copy-mode"@, "n"@));
    lemma_pass_30(m29, ("copy-mode"@, "N"@));
    lemma_pass_31(m30, ("copy-mode"@, "C-p"@));
    lemma_pass_31(m30, ("copy-mode"@, "C-v"@));
    lemma_pass_31(m30, ("copy-mode"@, "Space"@));
    lemma_pass_31(m30, ("copy-mode"@, "n"@));
    lemma_pass_31(m30, ("copy-mode"@, "N"@));
    lemma_pass_32(m31, ("copy-mode"@, "C-p"@));
    lemma_pass_32(m31, ("copy-mode"@, "C-v"@));
    lemma_pass_32(m31, ("copy-mode"@, "Space"@));
    lemma_pass_32(m31, ("copy-mode"@, "n"@));
    lemma_pass_32(m31, ("copy-mode"@, "N"@));
    lemma_pass_33(m32, ("copy-mode"@, "C-p"@));
    lemma_pass_33(m32, ("copy-mode"@, "C-v"@));
    lemma_pass_33(m32, ("copy-mode"@, "Space"@));
    lemma_pass_33(m32, ("copy-mode"@, "n"@));
    lemma_pass_33(m32, ("copy-mode"@, "N"@));
    lemma_pass_34(m33, ("copy-mode"@, "C-p"@));
    lemma_pass_34(m33, ("copy-mode"@, "C-v"@));
    lemma_pass_34(m33, ("copy-mode"@, "Space"@));
    lemma_pass_34(m33, ("copy-mode"@, "n"@));
    lemma_pass_34(m33, ("copy-mode"@, "N"@));
    lemma_pass_35(m34, ("copy-mode"@, "C-p"@));
    lemma_pass_35(m34, ("copy-mode"@, "C-v"@));
    lemma_pass_35(m34, ("copy-mode"@, "Space"@));
    lemma_pass_35(m34, ("copy-mode"@, "n"@));
    lemma_pass_35(m34, ("copy-mode"@, "N"@));
    assert(table_defaults(m) == m35);
    lemma_digit_bindings(m35, 10);
    lemma_not_digit_key(("copy-mode"@, "C-p"@));
    lemma_not_digit_key(("copy-mode"@, "C-v"@));
    lemma_not_digit_key(("copy-mode"@, "Space"@));
    lemma_not_digit_key(("copy-mode"@, "n"@));
    lemma_not_digit_key(("copy-mode"@, "N"@));
}

/// Default bindings: `R` in `copy-mode` runs `send-keys -X rectangle-toggle`; `r` in `copy-mode` runs `send-keys -X refresh-from-pane`; `Home` in `copy-mode` runs `send-keys -X start-of-line`; `End` in `copy-mode` runs `send-keys -X end-of-line`; `MouseDrag1Pane` in `copy-mode` runs `select-pane ; send-keys -X begin-selection`.
pub proof fn lemma_defaults_18(m: Map<(Seq<char>, Seq<char>), BindingView>)
    ensures
        default_key_tables(m).contains_key(("copy-mode"@, "R"@)),
        default_key_tables(m)[("copy-mode"@, "R"@)] == (false, None::<Seq<char>>, seq!["send-keys"@, "-X"@, "rectangle-toggle"@]),
        default_key_tables(m).contains_key(("copy-mode"@, "r"@)),
        default_key_tables(m)[("copy-mode"@, "r"@)] == (false, None::<Seq<char>>, seq!["send-keys"@, "-X"@, "refresh-from-pane"@]),
        default_key_tables(m).contains_key(("copy-mode"@, "Home"@)),
        default_key_tables(m)[("copy-mode"@, "Home"@)] == (false, None::<Seq<char>>, seq!["send-keys"@, "-X"@, "start-of-line"@]),
        default_key_tables(m).contains_key(("copy-mode"@, "End"@)),
        default_key_tables(m)[("copy-mode"@, "End"@)] == (false, None::<Seq<char>>, seq!["send-keys"@, "-X"@, "end-of-line"@]),
        default_key_tables(m).contains_key(("copy-mode"@, "MouseDrag1Pane"@)),
        default_key_tables(m)[("copy-mode"@, "MouseDrag1Pane"@)] == (false, None::<Seq<char>>, seq!["select-pane"@, ";"@, "send-keys"@, "-X"@, "begin-selection"@]),
{
    reveal_strlit("#");
    reveal_strlit("*");
    reveal_strlit(",");
    reveal_strlit("/");
    reveal_strlit(":");
    reveal_strlit(";");
    reveal_strlit("?");
    reveal_strlit("A");
    reveal_strlit("B");
    reveal_strlit("BSpace");
    reveal_strlit("C-Down");
    reveal_strlit("C-M-b");
    reveal_strlit("C-M-f");
    reveal_strlit("C-Up");
    reveal_strlit("C-[");
    reveal_strlit("C-h");
    reveal_strlit("C-j");
    reveal_strlit("C-k");
    reveal_strlit("C-r");
    reveal_strlit("C-s");
    reveal_strlit("C-v");
    reveal_strlit("C-w");
    reveal_strlit("D");
    reveal_strlit("DoubleClick1Pane");
    reveal_strlit("E");
    reveal_strlit("End");
    reveal_strlit("F");
    reveal_strlit("Home");
    reveal_strlit("J");
    reveal_strlit("K");
    reveal_strlit("Left");
    reveal_strlit("M-<");
    reveal_strlit("M->");
    reveal_strlit("M-Down");
    reveal_strlit("M-R");
    reveal_strlit("M-Up");
    reveal_strlit("M-b");
    reveal_strlit("M-f");
    reveal_strlit("M-l");
    reveal_strlit("M-m");
    reveal_strlit("M-r");
    reveal_strlit("M-v");
    reveal_strlit("M-w");
    reveal_strlit("M-x");
    reveal_strlit("M-{");
    reveal_strlit("M-}");
    reveal_strlit("MouseDown1Pane");
    reveal_strlit("MouseDrag1Pane");
    reveal_strlit("MouseDragEnd1Pane");
    reveal_strlit("P");
    reveal_strlit("R");
    reveal_strlit("Right");
    reveal_strlit("T");
    reveal_strlit("TripleClick1Pane");
    reveal_strlit("W");
    reveal_strlit("WheelDownPane");
    reveal_strlit("WheelUpPane");
    reveal_strlit("X");
    reveal_strlit("copy-mode");
    reveal_strlit("copy-mode-vi");
    reveal_strlit("f");
    reveal_strlit("g");
    reveal_strlit("r");
    reveal_strlit("t");
    reveal_strlit("z");
    reveal_strlit("{");
    reveal_strlit("}");
    assert(","@.len() == 1);
    assert(","@[0] == ',');
    assert(";"@.len() == 1);
    assert(";"@[0] == ';');
    assert("C-Down"@.len() == 6);
    assert("C-M-b"@.len() == 5);
    assert("C-M-f"@.len() == 5);
    assert("C-Up"@.len() == 4);
    assert("C-Up"@[0] == 'C');
    assert("C-k"@.len() == 3);
    assert("C-k"@[0] == 'C');
    assert("C-r"@.len() == 3);
    assert("C-r"@[0] == 'C');
    assert("C-s"@.len() == 3);
    assert("C-s"@[0] == 'C');
    assert("C-w"@.len() == 3);
    assert("C-w"@[0] == 'C');
    assert("DoubleClick1Pane"@.len() == 16);
    assert("End"@.len() == 3);
    assert("End"@[0] == 'E');
    assert("End"@[1] == 'n');
    assert("End"@[2] == 'd');
    assert("F"@.len() == 1);
    assert("F"@[0] == 'F');
    assert("Home"@.len() == 4);
    assert("Home"@[0] == 'H');
    assert("Home"@[1] == 'o');
    assert("Home"@[2] == 'm');
    assert("Left"@.len() == 4);
    assert("Left"@[0] == 'L');
    assert("M-<"@.len() == 3);
    assert("M-<"@[0] == 'M');
    assert("M->"@.len() == 3);
    assert("M->"@[0] == 'M');
    assert("M-Down"@.len() == 6);
    assert("M-R"@.len() == 3);
    assert("M-R"@[0] == 'M');
    assert("M-Up"@.len() == 4);
    assert("M-Up"@[0] == 'M');
    assert("M-b"@.len() == 3);
    assert("M-b"@[0] == 'M');
    assert("M-f"@.len() == 3);
    assert("M-f"@[0] == 'M');
    assert("M-l"@.len() == 3);
    assert("M-l"@[0] == 'M');
    assert("M-m"@.len() == 3);
    assert("M-m"@[0] == 'M');
    assert("M-r"@.len() == 3);
    assert("M-r"@[0] == 'M');
    assert("M-v"@.len() == 3);
    assert("M-v"@[0] == 'M');
    assert("M-w"@.len() == 3);
    assert("M-w"@[0] == 'M');
    assert("M-x"@.len() == 3);
    assert("M-x"@[0] == 'M');
    assert("M-{"@.len() == 3);
    assert("M-{"@[0] == 'M');
    assert("M-}"@.len() == 3);
    assert("M-}"@[0] == 'M');
    assert("MouseDown1Pane"@.len() == 14);
    assert("MouseDown1Pane"@[6] == 'o');
    assert("MouseDrag1Pane"@.len() == 14);
    assert("MouseDrag1Pane"@[0] == 'M');
    assert("MouseDrag1Pane"@[1] == 'o');
    assert("MouseDrag1Pane"@[2] == 'u');
    assert("MouseDrag1Pane"@[6] == 'r');
    assert("MouseDragEnd1Pane"@.len() == 17);
    assert("P"@.len() == 1);
    assert("P"@[0] == 'P');
    assert("R"@.len() == 1);
    assert("R"@[0] == 'R');
    assert("Right"@.len() == 5);
    assert("T"@.len() == 1);
    assert("T"@[0] == 'T');
    assert("TripleClick1Pane"@.len() == 16);
    assert("WheelDownPane"@.len() == 13);
    assert("WheelUpPane"@.len() == 11);
    assert("X"@.len() == 1);
    assert("X"@[0] == 'X');
    assert("copy-mode"@.len() == 9);
    assert("copy-mode-vi"@.len() == 12);
    assert("f"@.len() == 1);
    assert("f"@[0] == 'f');
    assert("g"@.len() == 1);
    assert("g"@[0] == 'g');
    assert("r"@.len() == 1);
    assert("r"@[0] == 'r');
    assert("t"@.len() == 1);
    assert("t"@[0] == 't');
    let m0 = m;
    let m1 = default_bindings_1(m0);
    let m2 = default_bindings_2(m1);
    let m3 = default_bindings_3(m2);
    let m4 = default_bindings_4(m3);
    let m5 = default_bindings_5(m4);
    let m6 = default_bindings_6(m5);
    let m7 = default_bindings_7(m6);
    let m8 = default_bindings_8(m7);
    let m9 = default_bindings_9(m8);
    let m10 = default_bindings_10(m9);
    let m11 = default_bindings_11(m10);
    let m12 = default_bindings_12(m11);
    let m13 = default_bindings_13(m12);
    let m14 = default_bindings_14(m13);
    let m15 = default_bindings_15(m14);
    let m16 = default_bindings_16(m15);
    let m17 = default_bindings_17(m16);
    let m18 = default_bindings_18(m17);
    let m19 = default_bindings_19(m18);
    let m20 = default_bindings_20(m19);
    let m21 = default_bindings_21(m20);
    let m22 = default_bindings_22(m21);
    let m23 = default_bindings_23(m22);
    let m24 = default_bindings_24(m23);
    let m25 = default_bindings_25(m24);
    let m26 = default_bindings_26(m25);
    let m27 = default_bindings_27(m26);
    let m28 = default_bindings_28(m27);
    let m29 = default_bindings_29(m28);
    let m30 = default_bindings_30(m29);
    let m31 = default_bindings_31(m30);
    let m32 = default_bindings_32(m31);
    let m33 = default_bindings_33(m32);
    let m34 = default_bindings_34(m33);
    let m35 = default_bindings_35(m34);
    lemma_part_18(m17);
    lemma_pass_19(m18, ("copy-mode"@, "R"@));
    lemma_pass_19(m18, ("copy-mode"@, "r"@));
    lemma_pass_19(m18, ("copy-mode"@, "Home"@));
    lemma_pass_19(m18, ("copy-mode"@, "End"@));
    lemma_pass_19(m18, ("copy-mode"@, "MouseDrag1Pane"@));
    lemma_pass_20(m19, ("copy-mode"@, "R"@));
    lemma_pass_20(m19, ("copy-mode"@, "r"@));
    lemma_pass_20(m19, ("copy-mode"@, "Home"@));
    lemma_pass_20(m19, ("copy-mode"@, "End"@));
    lemma_pass_20(m19, ("copy-mode"@, "MouseDrag1Pane"@));
    lemma_pass_21(m20, ("copy-mode"@, "R"@));
    lemma_pass_21(m20, ("copy-mode"@, "r"@));
    lemma_pass_21(m20, ("copy-mode"@, "Home"@));
    lemma_pass_21(m20, ("copy-mode"@, "End"@));
    lemma_pass_21(m20, ("copy-mode"@, "MouseDrag1Pane"@));
    lemma_pass_22(m21, ("copy-mode"@, "R"@));
    lemma_pass_22(m21, ("copy-mode"@, "r"@));
    lemma_pass_22(m21, ("copy-mode"@, "Home"@));
    lemma_pass_22(m21, ("copy-mode"@, "End"@));
    lemma_pass_22(m21, ("copy-mode"@, "MouseDrag1Pane"@));
    lemma_pass_23(m22, ("copy-mode"@, "R"@));
    lemma_pass_23(m22, ("copy-mode"@, "r"@));
    lemma_pass_23(m22, ("copy-mode"@, "Home"@));
    lemma_pass_23(m22, ("copy-mode"@, "End"@));
    lemma_pass_23(m22, ("copy-mode"@, "MouseDrag1Pane"@));
    lemma_pass_24(m23, ("copy-mode"@, "R"@));
    lemma_pass_24(m23, ("copy-mode"@, "r"@));
    lemma_pass_24(m23, ("copy-mode"@, "Home"@));
    lemma_pass_24(m23, ("copy-mode"@, "End"@));
    lemma_pass_24(m23, ("copy-mode"@, "MouseDrag1Pane"@));
    lemma_pass_25(m24, ("copy-mode"@, "R"@));
    lemma_pass_25(m24, ("copy-mode"@, "r"@));
    lemma_pass_25(m24, ("copy-mode"@, "Home"@));
    lemma_pass_25(m24, ("copy-mode"@, "End"@));
    lemma_pass_25(m24, ("copy-mode"@, "MouseDrag1Pane"@));
    lemma_pass_26(m25, ("copy-mode"@, "R"@));
    lemma_pass_26(m25, ("copy-mode"@, "r"@));
    lemma_pass_26(m25, ("copy-mode"@, "Home"@));
    lemma_pass_26(m25, ("copy-mode"@, "End"@));
    lemma_pass_26(m25, ("copy-mode"@, "MouseDrag1Pane"@));
    lemma_pass_27(m26, ("copy-mode"@, "R"@));
    lemma_pass_27(m26, ("copy-mode"@, "r"@));
    lemma_pass_27(m26, ("copy-mode"@, "Home"@));
    lemma_pass_27(m26, ("copy-mode"@, "End"@));
    lemma_pass_27(m26, ("copy-mode"@, "MouseDrag1Pane"@));
    lemma_pass_28(m27, ("copy-mode"@, "R"@));
    lemma_pass_28(m27, ("copy-mode"@, "r"@));
    lemma_pass_28(m27, ("copy-mode"@, "Home"@));
    lemma_pass_28(m27, ("copy-mode"@, "End"@));
    lemma_pass_28(m27, ("copy-mode"@, "MouseDrag1Pane"@));
    lemma_pass_29(m28, ("copy-mode"@, "R"@));
    lemma_pass_29(m28, ("copy-mode"@, "r"@));
    lemma_pass_29(m28, ("copy-mode"@, "Home"@));
    lemma_pass_29(m28, ("copy-mode"@, "End"@));
    lemma_pass_29(m28, ("copy-mode"@, "MouseDrag1Pane"@));
    lemma_pass_30(m29, ("copy-mode"@, "R"@));
    lemma_pass_30(m29, ("copy-mode"@, "r"@));
    lemma_pass_30(m29, ("copy-mode"@, "Home"@));
    lemma_pass_30(m29, ("copy-mode"@, "End"@));
    lemma_pass_30(m29, ("copy-mode"@, "MouseDrag1Pane"@));
    lemma_pass_31(m30, ("copy-mode"@, "R"@));
    lemma_pass_31(m30, ("copy-mode"@, "r"@));
    lemma_pass_31(m30, ("copy-mode"@, "Home"@));
    lemma_pass_31(m30, ("copy-mode"@, "End"@));
    lemma_pass_31(m30, ("copy-mode"@, "MouseDrag1Pane"@));
    lemma_pass_32(m31, ("copy-mode"@, "R"@));
    lemma_pass_32(m31, ("copy-mode"@, "r"@));
    lemma_pass_32(m31, ("copy-mode"@, "Home"@));
    lemma_pass_32(m31, ("copy-mode"@, "End"@));
    lemma_pass_32(m31, ("copy-mode"@, "MouseDrag1Pane"@));
    lemma_pass_33(m32, ("copy-mode"@, "R"@));
    lemma_pass_33(m32, ("copy-mode"@, "r"@));
    lemma_pass_33(m32, ("copy-mode"@, "Home"@));
    lemma_pass_33(m32, ("copy-mode"@, "End"@));
    lemma_pass_33(m32, ("copy-mode"@, "MouseDrag1Pane"@));
    lemma_pass_34(m33, ("copy-mode"@, "R"@));
    lemma_pass_34(m33, ("copy-mode"@, "r"@));
    lemma_pass_34(m33, ("copy-mode"@, "Home"@));
    lemma_pass_34(m33, ("copy-mode"@, "End"@));
    lemma_pass_34(m33, ("copy-mode"@, "MouseDrag1Pane"@));
    lemma_pass_35(m34, ("copy-mode"@, "R"@));
    lemma_pass_35(m34, ("copy-mode"@, "r"@));
    lemma_pass_35(m34, ("copy-mode"@, "Home"@));
    lemma_pass_35(m34, ("copy-mode"@, "End"@));
    lemma_pass_35(m34, ("copy-mode"@, "MouseDrag1Pane"@));
    assert(table_defaults(m) == m35);
    lemma_digit_bindings(m35, 10);
    lemma_not_digit_key(("copy-mode"@, "R"@));
    lemma_not_digit_key(("copy-mode"@, "r"@));
    lemma_not_digit_key(("copy-mode"@, "Home"@));
    lemma_not_digit_key(("copy-mode"@, "End"@));
    lemma_not_digit_key(("copy-mode"@, "MouseDrag1Pane"@));
}

/// Default bindings: `MouseDragEnd1Pane` in `copy-mode` runs `send-keys -X copy-pipe-and-cancel`; `WheelUpPane` in `copy-mode` runs `select-pane ; send-keys -N5 -X scroll-up`; `WheelDownPane` in `copy-mode` runs `select-pane ; send-keys -N5 -X scroll-down`; `C-r` in `copy-mode` runs `command-prompt -T search -i -p (search up) -I #{pane_search_string} send-keys -X search-backward-incremental -- '%%'`; `C-s` in `copy-mode` runs `command-prompt -T search -i -p (search down) -I #{pane_search_string} send-keys -X search-forward-incremental -- '%%'`.
pub proof fn lemma_defaults_19(m: Map<(Seq<char>, Seq<char>), BindingView>)
    ensures
        default_key_tables(m).contains_key(("copy-mode"@, "MouseDragEnd1Pane"@)),
        default_key_tables(m)[("copy-mode"@, "MouseDragEnd1Pane"@)] == (false, None::<Seq<char>>, seq!["send-keys"@, "-X"@, "copy-pipe-and-cancel"@]),
        default_key_tables(m).contains_key(("copy-mode"@, "WheelUpPane"@)),
        default_key_tables(m)[("copy-mode"@, "WheelUpPane"@)] == (false, None::<Seq<char>>, seq!["select-pane"@, ";"@, "send-keys"@, "-N5"@, "-X"@, "scroll-up"@]),
        default_key_tables(m).contains_key(("copy-mode"@, "WheelDownPane"@)),
        default_key_tables(m)[("copy-mode"@, "WheelDownPane"@)] == (false, None::<Seq<char>>, seq!["select-pane"@, ";"@, "send-keys"@, "-N5"@, "-X"@, "scroll-down"@]),
        default_key_tables(m).contains_key(("copy-mode"@, "C-r"@)),
        default_key_tables(m)[("copy-mode"@, "C-r"@)] == (false, None::<Seq<char>>, seq!["command-prompt"@, "-T"@, "search"@, "-i"@, "-p"@, "(search up)"@, "-I"@, "#{pane_search_string}"@, "send-keys -X search-backward-incremental -- '%%'"@]),
        default_key_tables(m).contains_key(("copy-mode"@, "C-s"@)),
        default_key_tables(m)[("copy-mode"@, "C-s"@)] == (false, None::<Seq<char>>, seq!["command-prompt"@, "-T"@, "search"@, "-i"@, "-p"@, "(search down)"@, "-I"@, "#{pane_search_string}"@, "send-keys -X search-forward-incremental -- '%%'"@]),
{
    reveal_strlit("#");
    reveal_strlit("*");
    reveal_strlit(",");
    reveal_strlit("/");
    reveal_strlit(":");
    reveal_strlit(";");
    reveal_strlit("?");
    reveal_strlit("A");
    reveal_strlit("B");
    reveal_strlit("BSpace");
    reveal_strlit("C-Down");
    reveal_strlit("C-M-b");
    reveal_strlit("C-M-f");
    reveal_strlit("C-Up");
    reveal_strlit("C-[");
    reveal_strlit("C-h");
    reveal_strlit("C-j");
    reveal_strlit("C-k");
    reveal_strlit("C-r");
    reveal_strlit("C-s");
    reveal_strlit("C-v");
    reveal_strlit("C-w");
    reveal_strlit("D");
    reveal_strlit("DoubleClick1Pane");
    reveal_strlit("E");
    reveal_strlit("End");
    reveal_strlit("F");
    reveal_strlit("Home");
    reveal_strlit("J");
    reveal_strlit("K");
    reveal_strlit("Left");
    reveal_strlit("M-<");
    reveal_strlit("M->");
    reveal_strlit("M-Down");
    reveal_strlit("M-R");
    reveal_strlit("M-Up");
    reveal_strlit("M-b");
    reveal_strlit("M-f");
    reveal_strlit("M-l");
    reveal_strlit("M-m");
    reveal_strlit("M-r");
    reveal_strlit("M-v");
    reveal_strlit("M-w");
    reveal_strlit("M-x");
    reveal_strlit("M-{");
    reveal_strlit("M-}");
    reveal_strlit("MouseDown1Pane");
    reveal_strlit("MouseDrag1Pane");
    reveal_strlit("MouseDragEnd1Pane");
    reveal_strlit("P");
    reveal_strlit("Right");
    reveal_strlit("T");
    reveal_strlit("TripleClick1Pane");
    reveal_strlit("W");
    reveal_strlit("WheelDownPane");
    reveal_strlit("WheelUpPane");
    reveal_strlit("X");
    reveal_strlit("copy-mode");
    reveal_strlit("copy-mode-vi");
    reveal_strlit("f");
    reveal_strlit("g");
    reveal_strlit("t");
    reveal_strlit("z");
    reveal_strlit("{");
    reveal_strlit("}");
    assert(","@.len() == 1);
    assert(";"@.len() == 1);
    assert("C-Down"@.len() == 6);
    assert("C-M-b"@.len() == 5);
    assert("C-M-f"@.len() == 5);
    assert("C-Up"@.len() == 4);
    assert("C-k"@.len() == 3);
    assert("C-k"@[2] == 'k');
    assert("C-r"@.len() == 3);
    assert("C-r"@[0] == 'C');
    assert("C-r"@[1] == '-');
    assert("C-r"@[2] == 'r');
    assert("C-s"@.len() == 3);
    assert("C-s"@[0] == 'C');
    assert("C-s"@[1] == '-');
    assert("C-s"@[2] == 's');
    assert("C-w"@.len() == 3);
    assert("C-w"@[2] == 'w');
    assert("DoubleClick1Pane"@.len() == 16);
    assert("F"@.len() == 1);
    assert("Left"@.len() == 4);
    assert("M-<"@.len() == 3);
    assert("M-<"@[0] == 'M');
    assert("M->"@.len() == 3);
    assert("M->"@[0] == 'M');
    assert("M-Down"@.len() == 6);
    assert("M-R"@.len() == 3);
    assert("M-R"@[0] == 'M');
    assert("M-Up"@.len() == 4);
    assert("M-b"@.len() == 3);
    assert("M-b"@[0] == 'M');
    assert("M-f"@.len() == 3);
    assert("M-f"@[0] == 'M');
    assert("M-l"@.len() == 3);
    assert("M-l"@[0] == 'M');
    assert("M-m"@.len() == 3);
    assert("M-m"@[0] == 'M');
    assert("M-r"@.len() == 3);
    assert("M-r"@[0] == 'M');
    assert("M-v"@.len() == 3);
    assert("M-v"@[0] == 'M');
    assert("M-w"@.len() == 3);
    assert("M-w"@[0] == 'M');
    assert("M-x"@.len() == 3);
    assert("M-x"@[0] == 'M');
    assert("M-{"@.len() == 3);
    assert("M-{"@[0] == 'M');
    assert("M-}"@.len() == 3);
    assert("M-}"@[0] == 'M');
    assert("MouseDown1Pane"@.len() == 14);
    assert("MouseDragEnd1Pane"@.len() == 17);
    assert("MouseDragEnd1Pane"@[0] == 'M');
    assert("MouseDragEnd1Pane"@[1] == 'o');
    assert("MouseDragEnd1Pane"@[2] == 'u');
    assert("P"@.len() == 1);
    assert("Right"@.len() == 5);
    assert("T"@.len() == 1);
    assert("TripleClick1Pane"@.len() == 16);
    assert("WheelDownPane"@.len() == 13);
    assert("WheelDownPane"@[0] == 'W');
    assert("WheelDownPane"@[1] == 'h');
    assert("WheelDownPane"@[2] == 'e');
    assert("WheelUpPane"@.len() == 11);
    assert("WheelUpPane"@[0] == 'W');
    assert("WheelUpPane"@[1] == 'h');
    assert("WheelUpPane"@[2] == 'e');
    assert("X"@.len() == 1);
    assert("copy-mode"@.len() == 9);
    assert("copy-mode-vi"@.len() == 12);
    assert("f"@.len() == 1);
    assert("g"@.len() == 1);
    assert("t"@.len() == 1);
    let m0 = m;
    let m1 = default_bindings_1(m0);
    let m2 = default_bindings_2(m1);
    let m3 = default_bindings_3(m2);
    let m4 = default_bindings_4(m3);
    let m5 = default_bindings_5(m4);
    let m6 = default_bindings_6(m5);
    let m7 = default_bindings_7(m6);
    let m8 = default_bindings_8(m7);
    let m9 = default_bindings_9(m8);
    let m10 = default_bindings_10(m9);
    let m11 = default_bindings_11(m10);
    let m12 = default_bindings_12(m11);
    let m13 = default_bindings_13(m12);
    let m14 = default_bindings_14(m13);
    let m15 = default_bindings_15(m14);
    let m16 = default_bindings_16(m15);
    let m17 = default_bindings_17(m16);
    let m18 = default_bindings_18(m17);
    let m19 = default_bindings_19(m18);
    let m20 = default_bindings_20(m19);
    let m21 = default_bindings_21(m20);
    let m22 = default_bindings_22(m21);
    let m23 = default_bindings_23(m22);
    let m24 = default_bindings_24(m23);
    let m25 = default_bindings_25(m24);
    let m26 = default_bindings_26(m25);
    let m27 = default_bindings_27(m26);
    let m28 = default_bindings_28(m27);
    let m29 = default_bindings_29(m28);
    let m30 = default_bindings_30(m29);
    let m31 = default_bindings_31(m30);
    let m32 = default_bindings_32(m31);
    let m33 = default_bindings_33(m32);
    let m34 = default_bindings_34(m33);
    let m35 = default_bindings_35(m34);
    lemma_part_19(m18);
    lemma_pass_20(m19, ("copy-mode"@, "MouseDragEnd1Pane"@));
    lemma_pass_20(m19, ("copy-mode"@, "WheelUpPane"@));
    lemma_pass_20(m19, ("copy-mode"@, "WheelDownPane"@));
    lemma_pass_20(m19, ("copy-mode"@, "C-r"@));
    lemma_pass_20(m19, ("copy-mode"@, "C-s"@));
    lemma_pass_21(m20, ("copy-mode"@, "MouseDragEnd1Pane"@));
    lemma_pass_21(m20, ("copy-mode"@, "WheelUpPane"@));
    lemma_pass_21(m20, ("copy-mode"@, "WheelDownPane"@));
    lemma_pass_21(m20, ("copy-mode"@, "C-r"@));
    lemma_pass_21(m20, ("copy-mode"@, "C-s"@));
    lemma_pass_22(m21, ("copy-mode"@, "MouseDragEnd1Pane"@));
    lemma_pass_22(m21, ("copy-mode"@, "WheelUpPane"@));
    lemma_pass_22(m21, ("copy-mode"@, "WheelDownPane"@));
    lemma_pass_22(m21, ("copy-mode"@, "C-r"@));
    lemma_pass_22(m21, ("copy-mode"@, "C-s"@));
    lemma_pass_23(m22, ("copy-mode"@, "MouseDragEnd1Pane"@));
    lemma_pass_23(m22, ("copy-mode"@, "WheelUpPane"@));
    lemma_pass_23(m22, ("copy-mode"@, "WheelDownPane"@));
    lemma_pass_23(m22, ("copy-mode"@, "C-r"@));
    lemma_pass_23(m22, ("copy-mode"@, "C-s"@));
    lemma_pass_24(m23, ("copy-mode"@, "MouseDragEnd1Pane"@));
    lemma_pass_24(m23, ("copy-mode"@, "WheelUpPane"@));
    lemma_pass_24(m23, ("copy-mode"@, "WheelDownPane"@));
    lemma_pass_24(m23, ("copy-mode"@, "C-r"@));
    lemma_pass_24(m23, ("copy-mode"@, "C-s"@));
    lemma_pass_25(m24, ("copy-mode"@, "MouseDragEnd1Pane"@));
    lemma_pass_25(m24, ("copy-mode"@, "WheelUpPane"@));
    lemma_pass_25(m24, ("copy-mode"@, "WheelDownPane"@));
    lemma_pass_25(m24, ("copy-mode"@, "C-r"@));
    lemma_pass_25(m24, ("copy-mode"@, "C-s"@));
    lemma_pass_26(m25, ("copy-mode"@, "MouseDragEnd1Pane"@));
    lemma_pass_26(m25, ("copy-mode"@, "WheelUpPane"@));
    lemma_pass_26(m25, ("copy-mode"@, "WheelDownPane"@));
    lemma_pass_26(m25, ("copy-mode"@, "C-r"@));
    lemma_pass_26(m25, ("copy-mode"@, "C-s"@));
    lemma_pass_27(m26, ("copy-mode"@, "MouseDragEnd1Pane"@));
    lemma_pass_27(m26, ("copy-mode"@, "WheelUpPane"@));
    lemma_pass_27(m26, ("copy-mode"@, "WheelDownPane"@));
    lemma_pass_27(m26, ("copy-mode"@, "C-r"@));
    lemma_pass_27(m26, ("copy-mode"@, "C-s"@));
    lemma_pass_28(m27, ("copy-mode"@, "MouseDragEnd1Pane"@));
    lemma_pass_28(m27, ("copy-mode"@, "WheelUpPane"@));
    lemma_pass_28(m27, ("copy-mode"@, "WheelDownPane"@));
    lemma_pass_28(m27, ("copy-mode"@, "C-r"@));
    lemma_pass_28(m27, ("copy-mode"@, "C-s"@));
    lemma_pass_29(m28, ("copy-mode"@, "MouseDragEnd1Pane"@));
    lemma_pass_29(m28, ("copy-mode"@, "WheelUpPane"@));
    lemma_pass_29(m28, ("copy-mode"@, "WheelDownPane"@));
    lemma_pass_29(m28, ("copy-mode"@, "C-r"@));
    lemma_pass_29(m28, ("copy-mode"@, "C-s"@));
    lemma_pass_30(m29, ("copy-mode"@, "MouseDragEnd1Pane"@));
    lemma_pass_30(m29, ("copy-mode"@, "WheelUpPane"@));
    lemma_pass_30(m29, ("copy-mode"@, "WheelDownPane"@));
    lemma_pass_30(m29, ("copy-mode"@, "C-r"@));
    lemma_pass_30(m29, ("copy-mode"@, "C-s"@));
    lemma_pass_31(m30, ("copy-mode"@, "MouseDragEnd1Pane"@));
    lemma_pass_31(m30, ("copy-mode"@, "WheelUpPane"@));
    lemma_pass_31(m30, ("copy-mode"@, "WheelDownPane"@));
    lemma_pass_31(m30, ("copy-mode"@, "C-r"@));
    lemma_pass_31(m30, ("copy-mode"@, "C-s"@));
    lemma_pass_32(m31, ("copy-mode"@, "MouseDragEnd1Pane"@));
    lemma_pass_32(m31, ("copy-mode"@, "WheelUpPane"@));
    lemma_pass_32(m31, ("copy-mode"@, "WheelDownPane"@));
    lemma_pass_32(m31, ("copy-mode"@, "C-r"@));
    lemma_pass_32(m31, ("copy-mode"@, "C-s"@));
    lemma_pass_33(m32, ("copy-mode"@, "MouseDragEnd1Pane"@));
    lemma_pass_33(m32, ("copy-mode"@, "WheelUpPane"@));
    lemma_pass_33(m32, ("copy-mode"@, "WheelDownPane"@));
    lemma_pass_33(m32, ("copy-mode"@, "C-r"@));
    lemma_pass_33(m32, ("copy-mode"@, "C-s"@));
    lemma_pass_34(m33, ("copy-mode"@, "MouseDragEnd1Pane"@));
    lemma_pass_34(m33, ("copy-mode"@, "WheelUpPane"@));
    lemma_pass_34(m33, ("copy-mode"@, "WheelDownPane"@));
    lemma_pass_34(m33, ("copy-mode"@, "C-r"@));
    lemma_pass_34(m33, ("copy-mode"@, "C-s"@));
    lemma_pass_35(m34, ("copy-mode"@, "MouseDragEnd1Pane"@));
    lemma_pass_35(m34, ("copy-mode"@, "WheelUpPane"@));
    lemma_pass_35(m34, ("copy-mode"@, "WheelDownPane"@));
    lemma_pass_35(m34, ("copy-mode"@, "C-r"@));
    lemma_pass_35(m34, ("copy-mode"@, "C-s"@));
    assert(table_defaults(m) == m35);
    lemma_digit_bindings(m35, 10);
    lemma_not_digit_key(("copy-mode"@, "MouseDragEnd1Pane"@));
    lemma_not_digit_key(("copy-mode"@, "WheelUpPane"@));
    lemma_not_digit_key(("copy-mode"@, "WheelDownPane"@));
    lemma_not_digit_key(("copy-mode"@, "C-r"@));
    lemma_not_digit_key(("copy-mode"@, "C-s"@));
}

/// Default bindings: `f` in `copy-mode` runs `command-prompt -1 -p (jump forward) send-keys -X jump-forward -- '%%'`; `F` in `copy-mode` runs `command-prompt -1 -p (jump backward) send-keys -X jump-backward -- '%%'`; `t` in `copy-mode` runs `command-prompt -1 -p (jump to forward) send-keys -X jump-to-forward -- '%%'`; `T` in `copy-mode` runs `command-prompt -1 -p (jump to backward) send-keys -X jump-to-backward -- '%%'`; `,` in `copy-mode` runs `send-keys -X jump-reverse`.
pub proof fn lemma_defaults_20(m: Map<(Seq<char>, Seq<char>), BindingView>)
    ensures
        default_key_tables(m).contains_key(("copy-mode"@, "f"@)),
        default_key_tables(m)[("copy-mode"@, "f"@)] == (false, None::<Seq<char>>, seq!["command-prompt"@, "-1"@, "-p"@, "(jump forward)"@, "send-keys -X jump-forward -- '%%'"@]),
        default_key_tables(m).contains_key(("copy-mode"@, "F"@)),
        default_key_tables(m)[("copy-mode"@, "F"@)] == (false, None::<Seq<char>>, seq!["command-prompt"@, "-1"@, "-p"@, "(jump backward)"@, "send-keys -X jump-backward -- '%%'"@]),
        default_key_tables(m).contains_key(("copy-mode"@, "t"@)),
        default_key_tables(m)[("copy-mode"@, "t"@)] == (false, None::<Seq<char>>, seq!["command-prompt"@, "-1"@, "-p"@, "(jump to forward)"@, "send-keys -X jump-to-forward -- '%%'"@]),
        default_key_tables(m).contains_key(("copy-mode"@, "T"@)),
        default_key_tables(m)[("copy-mode"@, "T"@)] == (false, None::<Seq<char>>, seq!["command-prompt"@, "-1"@, "-p"@, "(jump to backward)"@, "send-keys -X jump-to-backward -- '%%'"@]),
        default_key_tables(m).contains_key(("copy-mode"@, ","@)),
        default_key_tables(m)[("copy-mode"@, ","@)] == (false, None::<Seq<char>>, seq!["send-keys"@, "-X"@, "jump-reverse"@]),
{
    reveal_strlit("#");
    reveal_strlit("*");
    reveal_strlit(",");
    reveal_strlit("/");
    reveal_strlit(":");
    reveal_strlit(";");
    reveal_strlit("?");
    reveal_strlit("A");
    reveal_strlit("B");
    reveal_strlit("BSpace");
    reveal_strlit("C-Down");
    reveal_strlit("C-M-b");
    reveal_strlit("C-M-f");
    reveal_strlit("C-Up");
    reveal_strlit("C-[");
    reveal_strlit("C-h");
    reveal_strlit("C-j");
    reveal_strlit("C-k");
    reveal_strlit("C-v");
    reveal_strlit("C-w");
    reveal_strlit("D");
    reveal_strlit("DoubleClick1Pane");
    reveal_strlit("E");
    reveal_strlit("End");
    reveal_strlit("F");
    reveal_strlit("Home");
    reveal_strlit("J");
    reveal_strlit("K");
    reveal_strlit("Left");
    reveal_strlit("M-<");
    reveal_strlit("M->");
    reveal_strlit("M-Down");
    reveal_strlit("M-R");
    reveal_strlit("M-Up");
    reveal_strlit("M-b");
    reveal_strlit("M-f");
    reveal_strlit("M-l");
    reveal_strlit("M-m");
    reveal_strlit("M-r");
    reveal_strlit("M-v");
    reveal_strlit("M-w");
    reveal_strlit("M-x");
    reveal_strlit("M-{");
    reveal_strlit("M-}");
    reveal_strlit("MouseDown1Pane");
    reveal_strlit("MouseDrag1Pane");
    reveal_strlit("MouseDragEnd1Pane");
    reveal_strlit("P");
    reveal_strlit("Right");
    reveal_strlit("T");
    reveal_strlit("TripleClick1Pane");
    reveal_strlit("W");
    reveal_strlit("WheelDownPane");
    reveal_strlit("WheelUpPane");
    reveal_strlit("X");
    reveal_strlit("copy-mode");
    reveal_strlit("copy-mode-vi");
    reveal_strlit("f");
    reveal_strlit("g");
    reveal_strlit("t");
    reveal_strlit("z");
    reveal_strlit("{");
    reveal_strlit("}");
    assert(","@.len() == 1);
    assert(","@[0] == ',');
    assert(";"@[0] == ';');
    assert("C-Down"@.len() == 6);
    assert("C-M-b"@.len() == 5);
    assert("C-M-f"@.len() == 5);
    assert("C-Up"@.len() == 4);
    assert("C-k"@.len() == 3);
    assert("C-w"@.len() == 3);
    assert("DoubleClick1Pane"@.len() == 16);
    assert("F"@.len() == 1);
    assert("F"@[0] == 'F');
    assert("Left"@.len() == 4);
    assert("M-<"@.len() == 3);
    assert("M->"@.len() == 3);
    assert("M-Down"@.len() == 6);
    assert("M-R"@.len() == 3);
    assert("M-Up"@.len() == 4);
    assert("M-b"@.len() == 3);
    assert("M-f"@.len() == 3);
    assert("M-l"@.len() == 3);
    assert("M-m"@.len() == 3);
    assert("M-r"@.len() == 3);
    assert("M-v"@.len() == 3);
    assert("M-w"@.len() == 3);
    assert("M-x"@.len() == 3);
    assert("M-{"@.len() == 3);
    assert("M-}"@.len() == 3);
    assert("MouseDown1Pane"@.len() == 14);
    assert("P"@[0] == 'P');
    assert("Right"@.len() == 5);
    assert("T"@.len() == 1);
    assert("T"@[0] == 'T');
    assert("TripleClick1Pane"@.len() == 16);
    assert("X"@[0] == 'X');
    assert("copy-mode"@.len() == 9);
    assert("copy-mode-vi"@.len() == 12);
    assert("f"@.len() == 1);
    assert("f"@[0] == 'f');
    assert("g"@[0] == 'g');
    assert("t"@.len() == 1);
    assert("t"@[0] == 't');
    let m0 = m;
    let m1 = default_bindings_1(m0);
    let m2 = default_bindings_2(m1);
    let m3 = default_bindings_3(m2);
    let m4 = default_bindings_4(m3);
    let m5 = default_bindings_5(m4);
    let m6 = default_bindings_6(m5);
    let m7 = default_bindings_7(m6);
    let m8 = default_bindings_8(m7);
    let m9 = default_bindings_9(m8);
    let m10 = default_bindings_10(m9);
    let m11 = default_bindings_11(m10);
    let m12 = default_bindings_12(m11);
    let m13 = default_bindings_13(m12);
    let m14 = default_bindings_14(m13);
    let m15 = default_bindings_15(m14);
    let m16 = default_bindings_16(m15);
    let m17 = default_bindings_17(m16);
    let m18 = default_bindings_18(m17);
    let m19 = default_bindings_19(m18);
    let m20 = default_bindings_20(m19);
    let m21 = default_bindings_21(m20);
    let m22 = default_bindings_22(m21);
    let m23 = default_bindings_23(m22);
    let m24 = default_bindings_24(m23);
    let m25 = default_bindings_25(m24);
    let m26 = default_bindings_26(m25);
    let m27 = default_bindings_27(m26);
    let m28 = default_bindings_28(m27);
    let m29 = default_bindings_29(m28);
    let m30 = default_bindings_30(m29);
    let m31 = default_bindings_31(m30);
    let m32 = default_bindings_32(m31);
    let m33 = default_bindings_33(m32);
    let m34 = default_bindings_34(m33);
    let m35 = default_bindings_35(m34);
    lemma_part_20(m19);
    lemma_pass_21(m20, ("copy-mode"@, "f"@));
    lemma_pass_21(m20, ("copy-mode"@, "F"@));
    lemma_pass_21(m20, ("copy-mode"@, "t"@));
    lemma_pass_21(m20, ("copy-mode"@, "T"@));
    lemma_pass_21(m20, ("copy-mode"@, ","@));
    lemma_pass_22(m21, ("copy-mode"@, "f"@));
    lemma_pass_22(m21, ("copy-mode"@, "F"@));
    lemma_pass_22(m21, ("copy-mode"@, "t"@));
    lemma_pass_22(m21, ("copy-mode"@, "T"@));
    lemma_pass_22(m21, ("copy-mode"@, ","@));
    lemma_pass_23(m22, ("copy-mode"@, "f"@));
    lemma_pass_23(m22, ("copy-mode"@, "F"@));
    lemma_pass_23(m22, ("copy-mode"@, "t"@));
    lemma_pass_23(m22, ("copy-mode"@, "T"@));
    lemma_pass_23(m22, ("copy-mode"@, ","@));
    lemma_pass_24(m23, ("copy-mode"@, "f"@));
    lemma_pass_24(m23, ("copy-mode"@, "F"@));
    lemma_pass_24(m23, ("copy-mode"@, "t"@));
    lemma_pass_24(m23, ("copy-mode"@, "T"@));
    lemma_pass_24(m23, ("copy-mode"@, ","@));
    lemma_pass_25(m24, ("copy-mode"@, "f"@));
    lemma_pass_25(m24, ("copy-mode"@, "F"@));
    lemma_pass_25(m24, ("copy-mode"@, "t"@));
    lemma_pass_25(m24, ("copy-mode"@, "T"@));
    lemma_pass_25(m24, ("copy-mode"@, ","@));
    lemma_pass_26(m25, ("copy-mode"@, "f"@));
    lemma_pass_26(m25, ("copy-mode"@, "F"@));
    lemma_pass_26(m25, ("copy-mode"@, "t"@));
    lemma_pass_26(m25, ("copy-mode"@, "T"@));
    lemma_pass_26(m25, ("copy-mode"@, ","@));
    lemma_pass_27(m26, ("copy-mode"@, "f"@));
    lemma_pass_27(m26, ("copy-mode"@, "F"@));
    lemma_pass_27(m26, ("copy-mode"@, "t"@));
    lemma_pass_27(m26, ("copy-mode"@, "T"@));
    lemma_pass_27(m26, ("copy-mode"@, ","@));
    lemma_pass_28(m27, ("copy-mode"@, "f"@));
    lemma_pass_28(m27, ("copy-mode"@, "F"@));
    lemma_pass_28(m27, ("copy-mode"@, "t"@));
    lemma_pass_28(m27, ("copy-mode"@, "T"@));
    lemma_pass_28(m27, ("copy-mode"@, ","@));
    lemma_pass_29(m28, ("copy-mode"@, "f"@));
    lemma_pass_29(m28, ("copy-mode"@, "F"@));
    lemma_pass_29(m28, ("copy-mode"@, "t"@));
    lemma_pass_29(m28, ("copy-mode"@, "T"@));
    lemma_pass_29(m28, ("copy-mode"@, ","@));
    lemma_pass_30(m29, ("copy-mode"@, "f"@));
    lemma_pass_30(m29, ("copy-mode"@, "F"@));
    lemma_pass_30(m29, ("copy-mode"@, "t"@));
    lemma_pass_30(m29, ("copy-mode"@, "T"@));
    lemma_pass_30(m29, ("copy-mode"@, ","@));
    lemma_pass_31(m30, ("copy-mode"@, "f"@));
    lemma_pass_31(m30, ("copy-mode"@, "F"@));
    lemma_pass_31(m30, ("copy-mode"@, "t"@));
    lemma_pass_31(m30, ("copy-mode"@, "T"@));
    lemma_pass_31(m30, ("copy-mode"@, ","@));
    lemma_pass_32(m31, ("copy-mode"@, "f"@));
    lemma_pass_32(m31, ("copy-mode"@, "F"@));
    lemma_pass_32(m31, ("copy-mode"@, "t"@));
    lemma_pass_32(m31, ("copy-mode"@, "T"@));
    lemma_pass_32(m31, ("copy-mode"@, ","@));
    lemma_pass_33(m32, ("copy-mode"@, "f"@));
    lemma_pass_33(m32, ("copy-mode"@, "F"@));
    lemma_pass_33(m32, ("copy-mode"@, "t"@));
    lemma_pass_33(m32, ("copy-mode"@, "T"@));
    lemma_pass_33(m32, ("copy-mode"@, ","@));
    lemma_pass_34(m33, ("copy-mode"@, "f"@));
    lemma_pass_34(m33, ("copy-mode"@, "F"@));
    lemma_pass_34(m33, ("copy-mode"@, "t"@));
    lemma_pass_34(m33, ("copy-mode"@, "T"@));
    lemma_pass_34(m33, ("copy-mode"@, ","@));
    lemma_pass_35(m34, ("copy-mode"@, "f"@));
    lemma_pass_35(m34, ("copy-mode"@, "F"@));
    lemma_pass_35(m34, ("copy-mode"@, "t"@));
    lemma_pass_35(m34, ("copy-mode"@, "T"@));
    lemma_pass_35(m34, ("copy-mode"@, ","@));
    assert(table_defaults(m) == m35);
    lemma_digit_bindings(m35, 10);
    lemma_not_digit_key(("copy-mode"@, "f"@));
    lemma_not_digit_key(("copy-mode"@, "F"@));
    lemma_not_digit_key(("copy-mode"@, "t"@));
    lemma_not_digit_key(("copy-mode"@, "T"@));
    lemma_not_digit_key(("copy-mode"@, ","@));
}

/// Default bindings: `;` in `copy-mode` runs `send-keys -X jump-again`; `X` in `copy-mode` runs `send-keys -X set-mark`; `M-x` in `copy-mode` runs `send-keys -X jump-to-mark`; `M-b` in `copy-mode` runs `send-keys -X previous-word`; `M-f` in `copy-mode` runs `send-keys -X next-word-end`.
pub proof fn lemma_defaults_21(m: Map<(Seq<char>, Seq<char>), BindingView>)
    ensures
        default_key_tables(m).contains_key(("copy-mode"@, ";"@)),
        default_key_tables(m)[("copy-mode"@, ";"@)] == (false, None::<Seq<char>>, seq!["send-keys"@, "-X"@, "jump-again"@]),
        default_key_tables(m).contains_key(("copy-mode"@, "X"@)),
        default_key_tables(m)[("copy-mode"@, "X"@)] == (false, None::<Seq<char>>, seq!["send-keys"@, "-X"@, "set-mark"@]),
        default_key_tables(m).contains_key(("copy-mode"@, "M-x"@)),
        default_key_tables(m)[("copy-mode"@, "M-x"@)] == (false, None::<Seq<char>>, seq!["send-keys"@, "-X"@, "jump-to-mark"@]),
        default_key_tables(m).contains_key(("copy-mode"@, "M-b"@)),
        default_key_tables(m)[("copy-mode"@, "M-b"@)] == (false, None::<Seq<char>>, seq!["send-keys"@, "-X"@, "previous-word"@]),
        default_key_tables(m).contains_key(("copy-mode"@, "M-f"@)),
        default_key_tables(m)[("copy-mode"@, "M-f"@)] == (false, None::<Seq<char>>, seq!["send-keys"@, "-X"@, "next-word-end"@]),
{
    reveal_strlit("#");
    reveal_strlit("*");
    reveal_strlit(",");
    reveal_strlit("/");
    reveal_strlit(":");
    reveal_strlit(";");
    reveal_strlit("?");
    reveal_strlit("A");
    reveal_strlit("B");
    reveal_strlit("BSpace");
    reveal_strlit("C-Down");
    reveal_strlit("C-M-b");
    reveal_strlit("C-M-f");
    reveal_strlit("C-Up");
    reveal_strlit("C-[");
    reveal_strlit("C-h");
    reveal_strlit("C-j");
    reveal_strlit("C-k");
    reveal_strlit("C-v");
    reveal_strlit("C-w");
    reveal_strlit("D");
    reveal_strlit("DoubleClick1Pane");
    reveal_strlit("E");
    reveal_strlit("End");
    reveal_strlit("F");
    reveal_strlit("Home");
    reveal_strlit("J");
    reveal_strlit("K");
    reveal_strlit("Left");
    reveal_strlit("M-<");
    reveal_strlit("M->");
    reveal_strlit("M-Down");
    reveal_strlit("M-R");
    reveal_strlit("M-Up");
    reveal_strlit("M-b");
    reveal_strlit("M-f");
    reveal_strlit("M-l");
    reveal_strlit("M-m");
    reveal_strlit("M-r");
    reveal_strlit("M-v");
    reveal_strlit("M-w");
    reveal_strlit("M-x");
    reveal_strlit("M-{");
    reveal_strlit("M-}");
    reveal_strlit("MouseDown1Pane");
    reveal_strlit("MouseDrag1Pane");
    reveal_strlit("MouseDragEnd1Pane");
    reveal_strlit("P");
    reveal_strlit("Right");
    reveal_strlit("T");
    reveal_strlit("TripleClick1Pane");
    reveal_strlit("W");
    reveal_strlit("WheelDownPane");
    reveal_strlit("WheelUpPane");
    reveal_strlit("X");
    reveal_strlit("copy-mode");
    reveal_strlit("copy-mode-vi");
    reveal_strlit("f");
    reveal_strlit("g");
    reveal_strlit("t");
    reveal_strlit("z");
    reveal_strlit("{");
    reveal_strlit("}");
    assert(";"@.len() == 1);
    assert(";"@[0] == ';');
    assert("C-Down"@.len() == 6);
    assert("C-M-b"@.len() == 5);
    assert("C-M-f"@.len() == 5);
    assert("C-Up"@.len() == 4);
    assert("C-k"@.len() == 3);
    assert("C-k"@[0] == 'C');
    assert("C-w"@.len() == 3);
    assert("C-w"@[0] == 'C');
    assert("DoubleClick1Pane"@.len() == 16);
    assert("Left"@.len() == 4);
    assert("M-<"@.len() == 3);
    assert("M-<"@[2] == '<');
    assert("M->"@.len() == 3);
    assert("M->"@[2] == '>');
    assert("M-Down"@.len() == 6);
    assert("M-R"@.len() == 3);
    assert("M-R"@[2] == 'R');
    assert("M-Up"@.len() == 4);
    assert("M-b"@.len() == 3);
    assert("M-b"@[0] == 'M');
    assert("M-b"@[1] == '-');
    assert("M-b"@[2] == 'b');
    assert("M-f"@.len() == 3);
    assert("M-f"@[0] == 'M');
    assert("M-f"@[1] == '-');
    assert("M-f"@[2] == 'f');
    assert("M-l"@.len() == 3);
    assert("M-l"@[2] == 'l');
    assert("M-m"@.len() == 3);
    assert("M-m"@[2] == 'm');
    assert("M-r"@.len() == 3);
    assert("M-r"@[2] == 'r');
    assert("M-v"@.len() == 3);
    assert("M-v"@[2] == 'v');
    assert("M-w"@.len() == 3);
    assert("M-w"@[2] == 'w');
    assert("M-x"@.len() == 3);
    assert("M-x"@[0] == 'M');
    assert("M-x"@[1] == '-');
    assert("M-x"@[2] == 'x');
    assert("M-{"@.len() == 3);
    assert("M-{"@[2] == '{');
    assert("M-}"@.len() == 3);
    assert("M-}"@[2] == '}');
    assert("MouseDown1Pane"@.len() == 14);
    assert("P"@.len() == 1);
    assert("P"@[0] == 'P');
    assert("Right"@.len() == 5);
    assert("TripleClick1Pane"@.len() == 16);
    assert("X"@.len() == 1);
    assert("X"@[0] == 'X');
    assert("copy-mode"@.len() == 9);
    assert("copy-mode-vi"@.len() == 12);
    assert("g"@.len() == 1);
    assert("g"@[0] == 'g');
    let m0 = m;
    let m1 = default_bindings_1(m0);
    let m2 = default_bindings_2(m1);
    let m3 = default_bindings_3(m2);
    let m4 = default_bindings_4(m3);
    let m5 = default_bindings_5(m4);
    let m6 = default_bindings_6(m5);
    let m7 = default_bindings_7(m6);
    let m8 = default_bindings_8(m7);
    let m9 = default_bindings_9(m8);
    let m10 = default_bindings_10(m9);
    let m11 = default_bindings_11(m10);
    let m12 = default_bindings_12(m11);
    let m13 = default_bindings_13(m12);
    let m14 = default_bindings_14(m13);
    let m15 = default_bindings_15(m14);
    let m16 = default_bindings_16(m15);
    let m17 = default_bindings_17(m16);
    let m18 = default_bindings_18(m17);
    let m19 = default_bindings_19(m18);
    let m20 = default_bindings_20(m19);
    let m21 = default_bindings_21(m20);
    let m22 = default_bindings_22(m21);
    let m23 = default_bindings_23(m22);
    let m24 = default_bindings_24(m23);
    let m25 = default_bindings_25(m24);
    let m26 = default_bindings_26(m25);
    let m27 = default_bindings_27(m26);
    let m28 = default_bindings_28(m27);
    let m29 = default_bindings_29(m28);
    let m30 = default_bindings_30(m29);
    let m31 = default_bindings_31(m30);
    let m32 = default_bindings_32(m31);
    let m33 = default_bindings_33(m32);
    let m34 = default_bindings_34(m33);
    let m35 = default_bindings_35(m34);
    lemma_part_21(m20);
    lemma_pass_22(m21, ("copy-mode"@, ";"@));
    lemma_pass_22(m21, ("copy-mode"@, "X"@));
    lemma_pass_22(m21, ("copy-mode"@, "M-x"@));
    lemma_pass_22(m21, ("copy-mode"@, "M-b"@));
    lemma_pass_22(m21, ("copy-mode"@, "M-f"@));
    lemma_pass_23(m22, ("copy-mode"@, ";"@));
    lemma_pass_23(m22, ("copy-mode"@, "X"@));
    lemma_pass_23(m22, ("copy-mode"@, "M-x"@));
    lemma_pass_23(m22, ("copy-mode"@, "M-b"@));
    lemma_pass_23(m22, ("copy-mode"@, "M-f"@));
    lemma_pass_24(m23, ("copy-mode"@, ";"@));
    lemma_pass_24(m23, ("copy-mode"@, "X"@));
    lemma_pass_24(m23, ("copy-mode"@, "M-x"@));
    lemma_pass_24(m23, ("copy-mode"@, "M-b"@));
    lemma_pass_24(m23, ("copy-mode"@, "M-f"@));
    lemma_pass_25(m24, ("copy-mode"@, ";"@));
    lemma_pass_25(m24, ("copy-mode"@, "X"@));
    lemma_pass_25(m24, ("copy-mode"@, "M-x"@));
    lemma_pass_25(m24, ("copy-mode"@, "M-b"@));
    lemma_pass_25(m24, ("copy-mode"@, "M-f"@));
    lemma_pass_26(m25, ("copy-mode"@, ";"@));
    lemma_pass_26(m25, ("copy-mode"@, "X"@));
    lemma_pass_26(m25, ("copy-mode"@, "M-x"@));
    lemma_pass_26(m25, ("copy-mode"@, "M-b"@));
    lemma_pass_26(m25, ("copy-mode"@, "M-f"@));
    lemma_pass_27(m26, ("copy-mode"@, ";"@));
    lemma_pass_27(m26, ("copy-mode"@, "X"@));
    lemma_pass_27(m26, ("copy-mode"@, "M-x"@));
    lemma_pass_27(m26, ("copy-mode"@, "M-b"@));
    lemma_pass_27(m26, ("copy-mode"@, "M-f"@));
    lemma_pass_28(m27, ("copy-mode"@, ";"@));
    lemma_pass_28(m27, ("copy-mode"@, "X"@));
    lemma_pass_28(m27, ("copy-mode"@, "M-x"@));
    lemma_pass_28(m27, ("copy-mode"@, "M-b"@));
    lemma_pass_28(m27, ("copy-mode"@, "M-f"@));
    lemma_pass_29(m28, ("copy-mode"@, ";"@));
    lemma_pass_29(m28, ("copy-mode"@, "X"@));
    lemma_pass_29(m28, ("copy-mode"@, "M-x"@));
    lemma_pass_29(m28, ("copy-mode"@, "M-b"@));
    lemma_pass_29(m28, ("copy-mode"@, "M-f"@));
    lemma_pass_30(m29, ("copy-mode"@, ";"@));
    lemma_pass_30(m29, ("copy-mode"@, "X"@));
    lemma_pass_30(m29, ("copy-mode"@, "M-x"@));
    lemma_pass_30(m29, ("copy-mode"@, "M-b"@));
    lemma_pass_30(m29, ("copy-mode"@, "M-f"@));
    lemma_pass_31(m30, ("copy-mode"@, ";"@));
    lemma_pass_31(m30, ("copy-mode"@, "X"@));
    lemma_pass_31(m30, ("copy-mode"@, "M-x"@));
    lemma_pass_31(m30, ("copy-mode"@, "M-b"@));
    lemma_pass_31(m30, ("copy-mode"@, "M-f"@));
    lemma_pass_32(m31, ("copy-mode"@, ";"@));
    lemma_pass_32(m31, ("copy-mode"@, "X"@));
    lemma_pass_32(m31, ("copy-mode"@, "M-x"@));
    lemma_pass_32(m31, ("copy-mode"@, "M-b"@));
    lemma_pass_32(m31, ("copy-mode"@, "M-f"@));
    lemma_pass_33(m32, ("copy-mode"@, ";"@));
    lemma_pass_33(m32, ("copy-mode"@, "X"@));
    lemma_pass_33(m32, ("copy-mode"@, "M-x"@));
    lemma_pass_33(m32, ("copy-mode"@, "M-b"@));
    lemma_pass_33(m32, ("copy-mode"@, "M-f"@));
    lemma_pass_34(m33, ("copy-mode"@, ";"@));
    lemma_pass_34(m33, ("copy-mode"@, "X"@));
    lemma_pass_34(m33, ("copy-mode"@, "M-x"@));
    lemma_pass_34(m33, ("copy-mode"@, "M-b"@));
    lemma_pass_34(m33, ("copy-mode"@, "M-f"@));
    lemma_pass_35(m34, ("copy-mode"@, ";"@));
    lemma_pass_35(m34, ("copy-mode"@, "X"@));
    lemma_pass_35(m34, ("copy-mode"@, "M-x"@));
    lemma_pass_35(m34, ("copy-mode"@, "M-b"@));
    lemma_pass_35(m34, ("copy-mode"@, "M-f"@));
    assert(table_defaults(m) == m35);
    lemma_digit_bindings(m35, 10);
    lemma_not_digit_key(("copy-mode"@, ";"@));
    lemma_not_digit_key(("copy-mode"@, "X"@));
    lemma_not_digit_key(("copy-mode"@, "M-x"@));
    lemma_not_digit_key(("copy-mode"@, "M-b"@));
    lemma_not_digit_key(("copy-mode"@, "M-f"@));
}

/// Default bindings: `M-l` in `copy-mode` runs `send-keys -X cursor-centre-horizontal`; `M-m` in `copy-mode` runs `send-keys -X back-to-indentation`; `M-v` in `copy-mode` runs `send-keys -X page-up`; `M-Up` in `copy-mode` runs `send-keys -X halfpage-up`; `M-Down` in `copy-mode` runs `send-keys -X halfpage-down`.
pub proof fn lemma_defaults_22(m: Map<(Seq<char>, Seq<char>), BindingView>)
    ensures
        default_key_tables(m).contains_key(("copy-mode"@, "M-l"@)),
        default_key_tables(m)[("copy-mode"@, "M-l"@)] == (false, None::<Seq<char>>, seq!["send-keys"@, "-X"@, "cursor-centre-horizontal"@]),
        default_key_tables(m).contains_key(("copy-mode"@, "M-m"@)),
        default_key_tables(m)[("copy-mode"@, "M-m"@)] == (false, None::<Seq<char>>, seq!["send-keys"@, "-X"@, "back-to-indentation"@]),
        default_key_tables(m).contains_key(("copy-mode"@, "M-v"@)),
        default_key_tables(m)[("copy-mode"@, "M-v"@)] == (false, None::<Seq<char>>, seq!["send-keys"@, "-X"@, "page-up"@]),
        default_key_tables(m).contains_key(("copy-mode"@, "M-Up"@)),
        default_key_tables(m)[("copy-mode"@, "M-Up"@)] == (false, None::<Seq<char>>, seq!["send-keys"@, "-X"@, "halfpage-up"@]),
        default_key_tables(m).contains_key(("copy-mode"@, "M-Down"@)),
        default_key_tables(m)[("copy-mode"@, "M-Down"@)] == (false, None::<Seq<char>>, seq!["send-keys"@, "-X"@, "halfpage-down"@]),
{
    reveal_strlit("#");
    reveal_strlit("*");
    reveal_strlit(",");
    reveal_strlit("/");
    reveal_strlit(":");
    reveal_strlit(";");
    reveal_strlit("?");
    reveal_strlit("A");
    reveal_strlit("B");
    reveal_strlit("BSpace");
    reveal_strlit("C-Down");
    reveal_strlit("C-M-b");
    reveal_strlit("C-M-f");
    reveal_strlit("C-Up");
    reveal_strlit("C-[");
    reveal_strlit("C-h");
    reveal_strlit("C-j");
    reveal_strlit("C-k");
    reveal_strlit("C-v");
    reveal_strlit("C-w");
    reveal_strlit("D");
    reveal_strlit("DoubleClick1Pane");
    reveal_strlit("E");
    reveal_strlit("End");
    reveal_strlit("F");
    reveal_strlit("Home");
    reveal_strlit("J");
    reveal_strlit("K");
    reveal_strlit("Left");
    reveal_strlit("M-<");
    reveal_strlit("M->");
    reveal_strlit("M-Down");
    reveal_strlit("M-R");
    reveal_strlit("M-Up");
    reveal_strlit("M-l");
    reveal_strlit("M-m");
    reveal_strlit("M-r");
    reveal_strlit("M-v");
    reveal_strlit("M-w");
    reveal_strlit("M-x");
    reveal_strlit("M-{");
    reveal_strlit("M-}");
    reveal_strlit("MouseDown1Pane");
    reveal_strlit("MouseDrag1Pane");
    reveal_strlit("MouseDragEnd1Pane");
    reveal_strlit("P");
    reveal_strlit("Right");
    reveal_strlit("T");
    reveal_strlit("TripleClick1Pane");
    reveal_strlit("W");
    reveal_strlit("WheelDownPane");
    reveal_strlit("WheelUpPane");
    reveal_strlit("X");
    reveal_strlit("copy-mode");
    reveal_strlit("copy-mode-vi");
    reveal_strlit("f");
    reveal_strlit("g");
    reveal_strlit("t");
    reveal_strlit("z");
    reveal_strlit("{");
    reveal_strlit("}");
    assert("C-Down"@.len() == 6);
    assert("C-Down"@[0] == 'C');
    assert("C-M-b"@.len() == 5);
    assert("C-M-f"@.len() == 5);
    assert("C-Up"@.len() == 4);
    assert("C-Up"@[0] == 'C');
    assert("C-k"@.len() == 3);
    assert("C-k"@[0] == 'C');
    assert("C-w"@.len() == 3);
    assert("C-w"@[0] == 'C');
    assert("DoubleClick1Pane"@.len() == 16);
    assert("Left"@.len() == 4);
    assert("Left"@[0] == 'L');
    assert("M-<"@.len() == 3);
    assert("M-<"@[2] == '<');
    assert("M->"@.len() == 3);
    assert("M->"@[2] == '>');
    assert("M-Down"@.len() == 6);
    assert("M-Down"@[0] == 'M');
    assert("M-Down"@[1] == '-');
    assert("M-Down"@[2] == 'D');
    assert("M-R"@.len() == 3);
    assert("M-R"@[2] == 'R');
    assert("M-Up"@.len() == 4);
    assert("M-Up"@[0] == 'M');
    assert("M-Up"@[1] == '-');
    assert("M-Up"@[2] == 'U');
    assert("M-l"@.len() == 3);
    assert("M-l"@[0] == 'M');
    assert("M-l"@[1] == '-');
    assert("M-l"@[2] == 'l');
    assert("M-m"@.len() == 3);
    assert("M-m"@[0] == 'M');
    assert("M-m"@[1] == '-');
    assert("M-m"@[2] == 'm');
    assert("M-r"@.len() == 3);
    assert("M-r"@[2] == 'r');
    assert("M-v"@.len() == 3);
    assert("M-v"@[0] == 'M');
    assert("M-v"@[1] == '-');
    assert("M-v"@[2] == 'v');
    assert("M-w"@.len() == 3);
    assert("M-w"@[2] == 'w');
    assert("M-{"@.len() == 3);
    assert("M-{"@[2] == '{');
    assert("M-}"@.len() == 3);
    assert("M-}"@[2] == '}');
    assert("MouseDown1Pane"@.len() == 14);
    assert("P"@.len() == 1);
    assert("Right"@.len() == 5);
    assert("TripleClick1Pane"@.len() == 16);
    assert("copy-mode"@.len() == 9);
    assert("copy-mode-vi"@.len() == 12);
    assert("g"@.len() == 1);
    let m0 = m;
    let m1 = default_bindings_1(m0);
    let m2 = default_bindings_2(m1);
    let m3 = default_bindings_3(m2);
    let m4 = default_bindings_4(m3);
    let m5 = default_bindings_5(m4);
    let m6 = default_bindings_6(m5);
    let m7 = default_bindings_7(m6);
    let m8 = default_bindings_8(m7);
    let m9 = default_bindings_9(m8);
    let m10 = default_bindings_10(m9);
    let m11 = default_bindings_11(m10);
    let m12 = default_bindings_12(m11);
    let m13 = default_bindings_13(m12);
    let m14 = default_bindings_14(m13);
    let m15 = default_bindings_15(m14);
    let m16 = default_bindings_16(m15);
    let m17 = default_bindings_17(m16);
    let m18 = default_bindings_18(m17);
    let m19 = default_bindings_19(m18);
    let m20 = default_bindings_20(m19);
    let m21 = default_bindings_21(m20);
    let m22 = default_bindings_22(m21);
    let m23 = default_bindings_23(m22);
    let m24 = default_bindings_24(m23);
    let m25 = default_bindings_25(m24);
    let m26 = default_bindings_26(m25);
    let m27 = default_bindings_27(m26);
    let m28 = default_bindings_28(m27);
    let m29 = default_bindings_29(m28);
    let m30 = default_bindings_30(m29);
    let m31 = default_bindings_31(m30);
    let m32 = default_bindings_32(m31);
    let m33 = default_bindings_33(m32);
    let m34 = default_bindings_34(m33);
    let m35 = default_bindings_35(m34);
    lemma_part_22(m21);
    lemma_pass_23(m22, ("copy-mode"@, "M-l"@));
    lemma_pass_23(m22, ("copy-mode"@, "M-m"@));
    lemma_pass_23(m22, ("copy-mode"@, "M-v"@));
    lemma_pass_23(m22, ("copy-mode"@, "M-Up"@));
    lemma_pass_23(m22, ("copy-mode"@, "M-Down"@));
    lemma_pass_24(m23, ("copy-mode"@, "M-l"@));
    lemma_pass_24(m23, ("copy-mode"@, "M-m"@));
    lemma_pass_24(m23, ("copy-mode"@, "M-v"@));
    lemma_pass_24(m23, ("copy-mode"@, "M-Up"@));
    lemma_pass_24(m23, ("copy-mode"@, "M-Down"@));
    lemma_pass_25(m24, ("copy-mode"@, "M-l"@));
    lemma_pass_25(m24, ("copy-mode"@, "M-m"@));
    lemma_pass_25(m24, ("copy-mode"@, "M-v"@));
    lemma_pass_25(m24, ("copy-mode"@, "M-Up"@));
    lemma_pass_25(m24, ("copy-mode"@, "M-Down"@));
    lemma_pass_26(m25, ("copy-mode"@, "M-l"@));
    lemma_pass_26(m25, ("copy-mode"@, "M-m"@));
    lemma_pass_26(m25, ("copy-mode"@, "M-v"@));
    lemma_pass_26(m25, ("copy-mode"@, "M-Up"@));
    lemma_pass_26(m25, ("copy-mode"@, "M-Down"@));
    lemma_pass_27(m26, ("copy-mode"@, "M-l"@));
    lemma_pass_27(m26, ("copy-mode"@, "M-m"@));
    lemma_pass_27(m26, ("copy-mode"@, "M-v"@));
    lemma_pass_27(m26, ("copy-mode"@, "M-Up"@));
    lemma_pass_27(m26, ("copy-mode"@, "M-Down"@));
    lemma_pass_28(m27, ("copy-mode"@, "M-l"@));
    lemma_pass_28(m27, ("copy-mode"@, "M-m"@));
    lemma_pass_28(m27, ("copy-mode"@, "M-v"@));
    lemma_pass_28(m27, ("copy-mode"@, "M-Up"@));
    lemma_pass_28(m27, ("copy-mode"@, "M-Down"@));
    lemma_pass_29(m28, ("copy-mode"@, "M-l"@));
    lemma_pass_29(m28, ("copy-mode"@, "M-m"@));
    lemma_pass_29(m28, ("copy-mode"@, "M-v"@));
    lemma_pass_29(m28, ("copy-mode"@, "M-Up"@));
    lemma_pass_29(m28, ("copy-mode"@, "M-Down"@));
    lemma_pass_30(m29, ("copy-mode"@, "M-l"@));
    lemma_pass_30(m29, ("copy-mode"@, "M-m"@));
    lemma_pass_30(m29, ("copy-mode"@, "M-v"@));
    lemma_pass_30(m29, ("copy-mode"@, "M-Up"@));
    lemma_pass_30(m29, ("copy-mode"@, "M-Down"@));
    lemma_pass_31(m30, ("copy-mode"@, "M-l"@));
    lemma_pass_31(m30, ("copy-mode"@, "M-m"@));
    lemma_pass_31(m30, ("copy-mode"@, "M-v"@));
    lemma_pass_31(m30, ("copy-mode"@, "M-Up"@));
    lemma_pass_31(m30, ("copy-mode"@, "M-Down"@));
    lemma_pass_32(m31, ("copy-mode"@, "M-l"@));
    lemma_pass_32(m31, ("copy-mode"@, "M-m"@));
    lemma_pass_32(m31, ("copy-mode"@, "M-v"@));
    lemma_pass_32(m31, ("copy-mode"@, "M-Up"@));
    lemma_pass_32(m31, ("copy-mode"@, "M-Down"@));
    lemma_pass_33(m32, ("copy-mode"@, "M-l"@));
    lemma_pass_33(m32, ("copy-mode"@, "M-m"@));
    lemma_pass_33(m32, ("copy-mode"@, "M-v"@));
    lemma_pass_33(m32, ("copy-mode"@, "M-Up"@));
    lemma_pass_33(m32, ("copy-mode"@, "M-Down"@));
    lemma_pass_34(m33, ("copy-mode"@, "M-l"@));
    lemma_pass_34(m33, ("copy-mode"@, "M-m"@));
    lemma_pass_34(m33, ("copy-mode"@, "M-v"@));
    lemma_pass_34(m33, ("copy-mode"@, "M-Up"@));
    lemma_pass_34(m33, ("copy-mode"@, "M-Down"@));
    lemma_pass_35(m34, ("copy-mode"@, "M-l"@));
    lemma_pass_35(m34, ("copy-mode"@, "M-m"@));
    lemma_pass_35(m34, ("copy-mode"@, "M-v"@));
    lemma_pass_35(m34, ("copy-mode"@, "M-Up"@));
    lemma_pass_35(m34, ("copy-mode"@, "M-Down"@));
    assert(table_defaults(m) == m35);
    lemma_digit_bindings(m35, 10);
    lemma_not_digit_key(("copy-mode"@, "M-l"@));
    lemma_not_digit_key(("copy-mode"@, "M-m"@));
    lemma_not_digit_key(("copy-mode"@, "M-v"@));
    lemma_not_digit_key(("copy-mode"@, "M-Up"@));
    lemma_not_digit_key(("copy-mode"@, "M-Down"@));
}

/// Default bindings: `C-Up` in `copy-mode` runs `send-keys -X scroll-up`; `C-Down` in `copy-mode` runs `send-keys -X scroll-down`; `M-<` in `copy-mode` runs `send-keys -X history-top`; `M->` in `copy-mode` runs `send-keys -X history-bottom`; `P` in `copy-mode` runs `send-keys -X toggle-position`.
pub proof fn lemma_defaults_23(m: Map<(Seq<char>, Seq<char>), BindingView>)
    ensures
        default_key_tables(m).contains_key(("copy-mode"@, "C-Up"@)),
        default_key_tables(m)[("copy-mode"@, "C-Up"@)] == (false, None::<Seq<char>>, seq!["send-keys"@, "-X"@, "scroll-up"@]),
        default_key_tables(m).contains_key(("copy-mode"@, "C-Down"@)),
        default_key_tables(m)[("copy-mode"@, "C-Down"@)] == (false, None::<Seq<char>>, seq!["send-keys"@, "-X"@, "scroll-down"@]),
        default_key_tables(m).contains_key(("copy-mode"@, "M-<"@)),
        default_key_tables(m)[("copy-mode"@, "M-<"@)] == (false, None::<Seq<char>>, seq!["send-keys"@, "-X"@, "history-top"@]),
        default_key_tables(m).contains_key(("copy-mode"@, "M->"@)),
        default_key_tables(m)[("copy-mode"@, "M->"@)] == (false, None::<Seq<char>>, seq!["send-keys"@, "-X"@, "history-bottom"@]),
        default_key_tables(m).contains_key(("copy-mode"@, "P"@)),
        default_key_tables(m)[("copy-mode"@, "P"@)] == (false, None::<Seq<char>>, seq!["send-keys"@, "-X"@, "toggle-position"@]),
{
    reveal_strlit("#");
    reveal_strlit("*");
    reveal_strlit(",");
    reveal_strlit("/");
    reveal_strlit(":");
    reveal_strlit(";");
    reveal_strlit("?");
    reveal_strlit("A");
    reveal_strlit("B");
    reveal_strlit("BSpace");
    reveal_strlit("C-Down");
    reveal_strlit("C-M-b");
    reveal_strlit("C-M-f");
    reveal_strlit("C-Up");
    reveal_strlit("C-[");
    reveal_strlit("C-h");
    reveal_strlit("C-j");
    reveal_strlit("C-k");
    reveal_strlit("C-v");
    reveal_strlit("C-w");
    reveal_strlit("D");
    reveal_strlit("DoubleClick1Pane");
    reveal_strlit("E");
    reveal_strlit("End");
    reveal_strlit("F");
    reveal_strlit("Home");
    reveal_strlit("J");
    reveal_strlit("K");
    reveal_strlit("Left");
    reveal_strlit("M-<");
    reveal_strlit("M->");
    reveal_strlit("M-R");
    reveal_strlit("M-r");
    reveal_strlit("M-w");
    reveal_strlit("M-x");
    reveal_strlit("M-{");
    reveal_strlit("M-}");
    reveal_strlit("MouseDown1Pane");
    reveal_strlit("MouseDrag1Pane");
    reveal_strlit("MouseDragEnd1Pane");
    reveal_strlit("P");
    reveal_strlit("Right");
    reveal_strlit("T");
    reveal_strlit("TripleClick1Pane");
    reveal_strlit("W");
    reveal_strlit("WheelDownPane");
    reveal_strlit("WheelUpPane");
    reveal_strlit("X");
    reveal_strlit("copy-mode");
    reveal_strlit("copy-mode-vi");
    reveal_strlit("f");
    reveal_strlit("g");
    reveal_strlit("t");
    reveal_strlit("z");
    reveal_strlit("{");
    reveal_strlit("}");
    assert("C-Down"@.len() == 6);
    assert("C-Down"@[0] == 'C');
    assert("C-Down"@[1] == '-');
    assert("C-Down"@[2] == 'D');
    assert("C-M-b"@.len() == 5);
    assert("C-M-f"@.len() == 5);
    assert("C-Up"@.len() == 4);
    assert("C-Up"@[0] == 'C');
    assert("C-Up"@[1] == '-');
    assert("C-Up"@[2] == 'U');
    assert("C-k"@.len() == 3);
    assert("C-k"@[0] == 'C');
    assert("C-w"@.len() == 3);
    assert("C-w"@[0] == 'C');
    assert("DoubleClick1Pane"@.len() == 16);
    assert("Left"@.len() == 4);
    assert("Left"@[0] == 'L');
    assert("M-<"@.len() == 3);
    assert("M-<"@[0] == 'M');
    assert("M-<"@[1] == '-');
    assert("M-<"@[2] == '<');
    assert("M->"@.len() == 3);
    assert("M->"@[0] == 'M');
    assert("M->"@[1] == '-');
    assert("M->"@[2] == '>');
    assert("M-R"@.len() == 3);
    assert("M-R"@[2] == 'R');
    assert("M-r"@.len() == 3);
    assert("M-r"@[2] == 'r');
    assert("M-w"@.len() == 3);
    assert("M-w"@[2] == 'w');
    assert("M-{"@.len() == 3);
    assert("M-{"@[2] == '{');
    assert("M-}"@.len() == 3);
    assert("M-}"@[2] == '}');
    assert("MouseDown1Pane"@.len() == 14);
    assert("P"@.len() == 1);
    assert("P"@[0] == 'P');
    assert("Right"@.len() == 5);
    assert("TripleClick1Pane"@.len() == 16);
    assert("copy-mode"@.len() == 9);
    assert("copy-mode-vi"@.len() == 12);
    assert("g"@.len() == 1);
    assert("g"@[0] == 'g');
    let m0 = m;
    let m1 = default_bindings_1(m0);
    let m2 = default_bindings_2(m1);
    let m3 = default_bindings_3(m2);
    let m4 = default_bindings_4(m3);
    let m5 = default_bindings_5(m4);
    let m6 = default_bindings_6(m5);
    let m7 = default_bindings_7(m6);
    let m8 = default_bindings_8(m7);
    let m9 = default_bindings_9(m8);
    let m10 = default_bindings_10(m9);
    let m11 = default_bindings_11(m10);
    let m12 = default_bindings_12(m11);
    let m13 = default_bindings_13(m12);
    let m14 = default_bindings_14(m13);
    let m15 = default_bindings_15(m14);
    let m16 = default_bindings_16(m15);
    let m17 = default_bindings_17(m16);
    let m18 = default_bindings_18(m17);
    let m19 = default_bindings_19(m18);
    let m20 = default_bindings_20(m19);
    let m21 = default_bindings_21(m20);
    let m22 = default_bindings_22(m21);
    let m23 = default_bindings_23(m22);
    let m24 = default_bindings_24(m23);
    let m25 = default_bindings_25(m24);
    let m26 = default_bindings_26(m25);
    let m27 = default_bindings_27(m26);
    let m28 = default_bindings_28(m27);
    let m29 = default_bindings_29(m28);
    let m30 = default_bindings_30(m29);
    let m31 = default_bindings_31(m30);
    let m32 = default_bindings_32(m31);
    let m33 = default_bindings_33(m32);
    let m34 = default_bindings_34(m33);
    let m35 = default_bindings_35(m34);
    lemma_part_23(m22);
    lemma_pass_24(m23, ("copy-mode"@, "C-Up"@));
    lemma_pass_24(m23, ("copy-mode"@, "C-Down"@));
    lemma_pass_24(m23, ("copy-mode"@, "M-<"@));
    lemma_pass_24(m23, ("copy-mode"@, "M->"@));
    lemma_pass_24(m23, ("copy-mode"@, "P"@));
    lemma_pass_25(m24, ("copy-mode"@, "C-Up"@));
    lemma_pass_25(m24, ("copy-mode"@, "C-Down"@));
    lemma_pass_25(m24, ("copy-mode"@, "M-<"@));
    lemma_pass_25(m24, ("copy-mode"@, "M->"@));
    lemma_pass_25(m24, ("copy-mode"@, "P"@));
    lemma_pass_26(m25, ("copy-mode"@, "C-Up"@));
    lemma_pass_26(m25, ("copy-mode"@, "C-Down"@));
    lemma_pass_26(m25, ("copy-mode"@, "M-<"@));
    lemma_pass_26(m25, ("copy-mode"@, "M->"@));
    lemma_pass_26(m25, ("copy-mode"@, "P"@));
    lemma_pass_27(m26, ("copy-mode"@, "C-Up"@));
    lemma_pass_27(m26, ("copy-mode"@, "C-Down"@));
    lemma_pass_27(m26, ("copy-mode"@, "M-<"@));
    lemma_pass_27(m26, ("copy-mode"@, "M->"@));
    lemma_pass_27(m26, ("copy-mode"@, "P"@));
    lemma_pass_28(m27, ("copy-mode"@, "C-Up"@));
    lemma_pass_28(m27, ("copy-mode"@, "C-Down"@));
    lemma_pass_28(m27, ("copy-mode"@, "M-<"@));
    lemma_pass_28(m27, ("copy-mode"@, "M->"@));
    lemma_pass_28(m27, ("copy-mode"@, "P"@));
    lemma_pass_29(m28, ("copy-mode"@, "C-Up"@));
    lemma_pass_29(m28, ("copy-mode"@, "C-Down"@));
    lemma_pass_29(m28, ("copy-mode"@, "M-<"@));
    lemma_pass_29(m28, ("copy-mode"@, "M->"@));
    lemma_pass_29(m28, ("copy-mode"@, "P"@));
    lemma_pass_30(m29, ("copy-mode"@, "C-Up"@));
    lemma_pass_30(m29, ("copy-mode"@, "C-Down"@));
    lemma_pass_30(m29, ("copy-mode"@, "M-<"@));
    lemma_pass_30(m29, ("copy-mode"@, "M->"@));
    lemma_pass_30(m29, ("copy-mode"@, "P"@));
    lemma_pass_31(m30, ("copy-mode"@, "C-Up"@));
    lemma_pass_31(m30, ("copy-mode"@, "C-Down"@));
    lemma_pass_31(m30, ("copy-mode"@, "M-<"@));
    lemma_pass_31(m30, ("copy-mode"@, "M->"@));
    lemma_pass_31(m30, ("copy-mode"@, "P"@));
    lemma_pass_32(m31, ("copy-mode"@, "C-Up"@));
    lemma_pass_32(m31, ("copy-mode"@, "C-Down"@));
    lemma_pass_32(m31, ("copy-mode"@, "M-<"@));
    lemma_pass_32(m31, ("copy-mode"@, "M->"@));
    lemma_pass_32(m31, ("copy-mode"@, "P"@));
    lemma_pass_33(m32, ("copy-mode"@, "C-Up"@));
    lemma_pass_33(m32, ("copy-mode"@, "C-Down"@));
    lemma_pass_33(m32, ("copy-mode"@, "M-<"@));
    lemma_pass_33(m32, ("copy-mode"@, "M->"@));
    lemma_pass_33(m32, ("copy-mode"@, "P"@));
    lemma_pass_34(m33, ("copy-mode"@, "C-Up"@));
    lemma_pass_34(m33, ("copy-mode"@, "C-Down"@));
    lemma_pass_34(m33, ("copy-mode"@, "M-<"@));
    lemma_pass_34(m33, ("copy-mode"@, "M->"@));
    lemma_pass_34(m33, ("copy-mode"@, "P"@));
    lemma_pass_35(m34, ("copy-mode"@, "C-Up"@));
    lemma_pass_35(m34, ("copy-mode"@, "C-Down"@));
    lemma_pass_35(m34, ("copy-mode"@, "M-<"@));
    lemma_pass_35(m34, ("copy-mode"@, "M->"@));
    lemma_pass_35(m34, ("copy-mode"@, "P"@));
    assert(table_defaults(m) == m35);
    lemma_digit_bindings(m35, 10);
    lemma_not_digit_key(("copy-mode"@, "C-Up"@));
    lemma_not_digit_key(("copy-mode"@, "C-Down"@));
    lemma_not_digit_key(("copy-mode"@, "M-<"@));
    lemma_not_digit_key(("copy-mode"@, "M->"@));
    lemma_not_digit_key(("copy-mode"@, "P"@));
}

/// Default bindings: `g` in `copy-mode` runs `command-prompt -p (goto line) send-keys -X goto-line -- '%%'`; `MouseDown1Pane` in `copy-mode` runs `select-pane`; `DoubleClick1Pane` in `copy-mode` runs `select-pane ; send-keys -X select-word ; run-shell -d 0.3 ; send-keys -X copy-pipe-and-cancel`; `TripleClick1Pane` in `copy-mode` runs `select-pane ; send-keys -X select-line ; run-shell -d 0.3 ; send-keys -X copy-pipe-and-cancel`; `/` in `copy-mode-vi` runs `command-prompt -p (search down) send-keys -X search-forward -- '%%'`.
pub proof fn lemma_defaults_24(m: Map<(Seq<char>, Seq<char>), BindingView>)
    ensures
        default_key_tables(m).contains_key(("copy-mode"@, "g"@)),
        default_key_tables(m)[("copy-mode"@, "g"@)] == (false, None::<Seq<char>>, seq!["command-prompt"@, "-p"@, "(goto line)"@, "send-keys -X goto-line -- '%%'"@]),
        default_key_tables(m).contains_key(("copy-mode"@, "MouseDown1Pane"@)),
        default_key_tables(m)[("copy-mode"@, "MouseDown1Pane"@)] == (false, None::<Seq<char>>, seq!["select-pane"@]),
        default_key_tables(m).contains_key(("copy-mode"@, "DoubleClick1Pane"@)),
        default_key_tables(m)[("copy-mode"@, "DoubleClick1Pane"@)] == (false, None::<Seq<char>>, seq!["select-pane"@, ";"@, "send-keys"@, "-X"@, "select-word"@, ";"@, "run-shell"@, "-d"@, "0.3"@, ";"@, "send-keys"@, "-X"@, "copy-pipe-and-cancel"@]),
        default_key_tables(m).contains_key(("copy-mode"@, "TripleClick1Pane"@)),
        default_key_tables(m)[("copy-mode"@, "TripleClick1Pane"@)] == (false, None::<Seq<char>>, seq!["select-pane"@, ";"@, "send-keys"@, "-X"@, "select-line"@, ";"@, "run-shell"@, "-d"@, "0.3"@, ";"@, "send-keys"@, "-X"@, "copy-pipe-and-cancel"@]),
        default_key_tables(m).contains_key(("copy-mode-vi"@, "/"@)),
        default_key_tables(m)[("copy-mode-vi"@, "/"@)] == (false, None::<Seq<char>>, seq!["command-prompt"@, "-p"@, "(search down)"@, "send-keys -X search-forward -- '%%'"@]),
{
    reveal_strlit("#");
    reveal_strlit("*");
    reveal_strlit(",");
    reveal_strlit("/");
    reveal_strlit(":");
    reveal_strlit(";");
    reveal_strlit("?");
    reveal_strlit("A");
    reveal_strlit("B");
    reveal_strlit("BSpace");
    reveal_strlit("C-Down");
    reveal_strlit("C-M-b");
    reveal_strlit("C-M-f");
    reveal_strlit("C-Up");
    reveal_strlit("C-[");
    reveal_strlit("C-h");
    reveal_strlit("C-j");
    reveal_strlit("C-k");
    reveal_strlit("C-v");
    reveal_strlit("C-w");
    reveal_strlit("D");
    reveal_strlit("DoubleClick1Pane");
    reveal_strlit("E");
    reveal_strlit("End");
    reveal_strlit("F");
    reveal_strlit("Home");
    reveal_strlit("J");
    reveal_strlit("K");
    reveal_strlit("Left");
    reveal_strlit("M-R");
    reveal_strlit("M-r");
    reveal_strlit("M-w");
    reveal_strlit("M-x");
    reveal_strlit("M-{");
    reveal_strlit("M-}");
    reveal_strlit("MouseDown1Pane");
    reveal_strlit("MouseDrag1Pane");
    reveal_strlit("MouseDragEnd1Pane");
    reveal_strlit("P");
    reveal_strlit("Right");
    reveal_strlit("T");
    reveal_strlit("TripleClick1Pane");
    reveal_strlit("W");
    reveal_strlit("WheelDownPane");
    reveal_strlit("WheelUpPane");
    reveal_strlit("X");
    reveal_strlit("copy-mode");
    reveal_strlit("copy-mode-vi");
    reveal_strlit("f");
    reveal_strlit("g");
    reveal_strlit("t");
    reveal_strlit("z");
    reveal_strlit("{");
    reveal_strlit("}");
    assert("#"@[0] == '#');
    assert("*"@[0] == '*');
    assert(","@[0] == ',');
    assert("/"@.len() == 1);
    assert("/"@[0] == '/');
    assert(":"@[0] == ':');
    assert(";"@[0] == ';');
    assert("?"@[0] == '?');
    assert("A"@[0] == 'A');
    assert("B"@[0] == 'B');
    assert("BSpace"@.len() == 6);
    assert("C-Down"@.len() == 6);
    assert("C-M-b"@.len() == 5);
    assert("C-M-f"@.len() == 5);
    assert("C-Up"@.len() == 4);
    assert("C-["@.len() == 3);
    assert("C-h"@.len() == 3);
    assert("C-j"@.len() == 3);
    assert("C-k"@.len() == 3);
    assert("C-v"@.len() == 3);
    assert("C-w"@.len() == 3);
    assert("D"@[0] == 'D');
    assert("DoubleClick1Pane"@.len() == 16);
    assert("DoubleClick1Pane"@[0] == 'D');
    assert("DoubleClick1Pane"@[1] == 'o');
    assert("DoubleClick1Pane"@[2] == 'u');
    assert("E"@[0] == 'E');
    assert("End"@.len() == 3);
    assert("F"@[0] == 'F');
    assert("Home"@.len() == 4);
    assert("J"@[0] == 'J');
    assert("K"@[0] == 'K');
    assert("Left"@.len() == 4);
    assert("M-R"@.len() == 3);
    assert("M-r"@.len() == 3);
    assert("M-w"@.len() == 3);
    assert("M-x"@.len() == 3);
    assert("M-{"@.len() == 3);
    assert("M-}"@.len() == 3);
    assert("MouseDown1Pane"@.len() == 14);
    assert("MouseDown1Pane"@[0] == 'M');
    assert("MouseDown1Pane"@[1] == 'o');
    assert("MouseDown1Pane"@[2] == 'u');
    assert("MouseDrag1Pane"@.len() == 14);
    assert("MouseDragEnd1Pane"@.len() == 17);
    assert("P"@[0] == 'P');
    assert("Right"@.len() == 5);
    assert("T"@[0] == 'T');
    assert("TripleClick1Pane"@.len() == 16);
    assert("TripleClick1Pane"@[0] == 'T');
    assert("TripleClick1Pane"@[1] == 'r');
    assert("TripleClick1Pane"@[2] == 'i');
    assert("W"@[0] == 'W');
    assert("WheelDownPane"@.len() == 13);
    assert("WheelUpPane"@.len() == 11);
    assert("X"@[0] == 'X');
    assert("copy-mode"@.len() == 9);
    assert("copy-mode-vi"@.len() == 12);
    assert("f"@[0] == 'f');
    assert("g"@.len() == 1);
    assert("g"@[0] == 'g');
    assert("t"@[0] == 't');
    assert("z"@[0] == 'z');
    assert("{"@[0] == '{');
    assert("}"@[0] == '}');
    let m0 = m;
    let m1 = default_bindings_1(m0);
    let m2 = default_bindings_2(m1);
    let m3 = default_bindings_3(m2);
    let m4 = default_bindings_4(m3);
    let m5 = default_bindings_5(m4);
    let m6 = default_bindings_6(m5);
    let m7 = default_bindings_7(m6);
    let m8 = default_bindings_8(m7);
    let m9 = default_bindings_9(m8);
    let m10 = default_bindings_10(m9);
    let m11 = default_bindings_11(m10);
    let m12 = default_bindings_12(m11);
    let m13 = default_bindings_13(m12);
    let m14 = default_bindings_14(m13);
    let m15 = default_bindings_15(m14);
    let m16 = default_bindings_16(m15);
    let m17 = default_bindings_17(m16);
    let m18 = default_bindings_18(m17);
    let m19 = default_bindings_19(m18);
    let m20 = default_bindings_20(m19);
    let m21 = default_bindings_21(m20);
    let m22 = default_bindings_22(m21);
    let m23 = default_bindings_23(m22);
    let m24 = default_bindings_24(m23);
    let m25 = default_bindings_25(m24);
    let m26 = default_bindings_26(m25);
    let m27 = default_bindings_27(m26);
    let m28 = default_bindings_28(m27);
    let m29 = default_bindings_29(m28);
    let m30 = default_bindings_30(m29);
    let m31 = default_bindings_31(m30);
    let m32 = default_bindings_32(m31);
    let m33 = default_bindings_33(m32);
    let m34 = default_bindings_34(m33);
    let m35 = default_bindings_35(m34);
    lemma_part_24(m23);
    lemma_pass_25(m24, ("copy-mode"@, "g"@));
    lemma_pass_25(m24, ("copy-mode"@, "MouseDown1Pane"@));
    lemma_pass_25(m24, ("copy-mode"@, "DoubleClick1Pane"@));
    lemma_pass_25(m24, ("copy-mode"@, "TripleClick1Pane"@));
    lemma_pass_25(m24, ("copy-mode-vi"@, "/"@));
    lemma_pass_26(m25, ("copy-mode"@, "g"@));
    lemma_pass_26(m25, ("copy-mode"@, "MouseDown1Pane"@));
    lemma_pass_26(m25, ("copy-mode"@, "DoubleClick1Pane"@));
    lemma_pass_26(m25, ("copy-mode"@, "TripleClick1Pane"@));
    lemma_pass_26(m25, ("copy-mode-vi"@, "/"@));
    lemma_pass_27(m26, ("copy-mode"@, "g"@));
    lemma_pass_27(m26, ("copy-mode"@, "MouseDown1Pane"@));
    lemma_pass_27(m26, ("copy-mode"@, "DoubleClick1Pane"@));
    lemma_pass_27(m26, ("copy-mode"@, "TripleClick1Pane"@));
    lemma_pass_27(m26, ("copy-mode-vi"@, "/"@));
    lemma_pass_28(m27, ("copy-mode"@, "g"@));
    lemma_pass_28(m27, ("copy-mode"@, "MouseDown1Pane"@));
    lemma_pass_28(m27, ("copy-mode"@, "DoubleClick1Pane"@));
    lemma_pass_28(m27, ("copy-mode"@, "TripleClick1Pane"@));
    lemma_pass_28(m27, ("copy-mode-vi"@, "/"@));
    lemma_pass_29(m28, ("copy-mode"@, "g"@));
    lemma_pass_29(m28, ("copy-mode"@, "MouseDown1Pane"@));
    lemma_pass_29(m28, ("copy-mode"@, "DoubleClick1Pane"@));
    lemma_pass_29(m28, ("copy-mode"@, "TripleClick1Pane"@));
    lemma_pass_29(m28, ("copy-mode-vi"@, "/"@));
    lemma_pass_30(m29, ("copy-mode"@, "g"@));
    lemma_pass_30(m29, ("copy-mode"@, "MouseDown1Pane"@));
    lemma_pass_30(m29, ("copy-mode"@, "DoubleClick1Pane"@));
    lemma_pass_30(m29, ("copy-mode"@, "TripleClick1Pane"@));
    lemma_pass_30(m29, ("copy-mode-vi"@, "/"@));
    lemma_pass_31(m30, ("copy-mode"@, "g"@));
    lemma_pass_31(m30, ("copy-mode"@, "MouseDown1Pane"@));
    lemma_pass_31(m30, ("copy-mode"@, "DoubleClick1Pane"@));
    lemma_pass_31(m30, ("copy-mode"@, "TripleClick1Pane"@));
    lemma_pass_31(m30, ("copy-mode-vi"@, "/"@));
    lemma_pass_32(m31, ("copy-mode"@, "g"@));
    lemma_pass_32(m31, ("copy-mode"@, "MouseDown1Pane"@));
    lemma_pass_32(m31, ("copy-mode"@, "DoubleClick1Pane"@));
    lemma_pass_32(m31, ("copy-mode"@, "TripleClick1Pane"@));
    lemma_pass_32(m31, ("copy-mode-vi"@, "/"@));
    lemma_pass_33(m32, ("copy-mode"@, "g"@));
    lemma_pass_33(m32, ("copy-mode"@, "MouseDown1Pane"@));
    lemma_pass_33(m32, ("copy-mode"@, "DoubleClick1Pane"@));
    lemma_pass_33(m32, ("copy-mode"@, "TripleClick1Pane"@));
    lemma_pass_33(m32, ("copy-mode-vi"@, "/"@));
    lemma_pass_34(m33, ("copy-mode"@, "g"@));
    lemma_pass_34(m33, ("copy-mode"@, "MouseDown1Pane"@));
    lemma_pass_34(m33, ("copy-mode"@, "DoubleClick1Pane"@));
    lemma_pass_34(m33, ("copy-mode"@, "TripleClick1Pane"@));
    lemma_pass_34(m33, ("copy-mode-vi"@, "/"@));
    lemma_pass_35(m34, ("copy-mode"@, "g"@));
    lemma_pass_35(m34, ("copy-mode"@, "MouseDown1Pane"@));
    lemma_pass_35(m34, ("copy-mode"@, "DoubleClick1Pane"@));
    lemma_pass_35(m34, ("copy-mode"@, "TripleClick1Pane"@));
    lemma_pass_35(m34, ("copy-mode-vi"@, "/"@));
    assert(table_defaults(m) == m35);
    lemma_digit_bindings(m35, 10);
    lemma_not_digit_key(("copy-mode"@, "g"@));
    lemma_not_digit_key(("copy-mode"@, "MouseDown1Pane"@));
    lemma_not_digit_key(("copy-mode"@, "DoubleClick1Pane"@));
    lemma_not_digit_key(("copy-mode"@, "TripleClick1Pane"@));
    lemma_not_digit_key(("copy-mode-vi"@, "/"@));
}

/// Default bindings: `?` in `copy-mode-vi` runs `command-prompt -p (search up) send-keys -X search-backward -- '%%'`; `*` in `copy-mode-vi` runs `send-keys -F -X search-forward -- #{copy_cursor_word}`; `#` in `copy-mode-vi` runs `send-keys -F -X search-backward -- #{copy_cursor_word}`; `C-[` in `copy-mode-vi` runs `send-keys -X clear-selection`; `C-h` in `copy-mode-vi` runs `send-keys -X cursor-left`.
pub proof fn lemma_defaults_25(m: Map<(Seq<char>, Seq<char>), BindingView>)
    ensures
        default_key_tables(m).contains_key(("copy-mode-vi"@, "?"@)),
        default_key_tables(m)[("copy-mode-vi"@, "?"@)] == (false, None::<Seq<char>>, seq!["command-prompt"@, "-p"@, "(search up)"@, "send-keys -X search-backward -- '%%'"@]),
        default_key_tables(m).contains_key(("copy-mode-vi"@, "*"@)),
        default_key_tables(m)[("copy-mode-vi"@, "*"@)] == (false, None::<Seq<char>>, seq!["send-keys"@, "-F"@, "-X"@, "search-forward"@, "--"@, "#{copy_cursor_word}"@]),
        default_key_tables(m).contains_key(("copy-mode-vi"@, "#"@)),
        default_key_tables(m)[("copy-mode-vi"@, "#"@)] == (false, None::<Seq<char>>, seq!["send-keys"@, "-F"@, "-X"@, "search-backward"@, "--"@, "#{copy_cursor_word}"@]),
        default_key_tables(m).contains_key(("copy-mode-vi"@, "C-["@)),
        default_key_tables(m)[("copy-mode-vi"@, "C-["@)] == (false, None::<Seq<char>>, seq!["send-keys"@, "-X"@, "clear-selection"@]),
        default_key_tables(m).contains_key(("copy-mode-vi"@, "C-h"@)),
        default_key_tables(m)[("copy-mode-vi"@, "C-h"@)] == (false, None::<Seq<char>>, seq!["send-keys"@, "-X"@, "cursor-left"@]),
{
    reveal_strlit("#");
    reveal_strlit("*");
    reveal_strlit(",");
    reveal_strlit(":");
    reveal_strlit(";");
    reveal_strlit("?");
    reveal_strlit("A");
    reveal_strlit("B");
    reveal_strlit("BSpace");
    reveal_strlit("C-Down");
    reveal_strlit("C-M-b");
    reveal_strlit("C-M-f");
    reveal_strlit("C-Up");
    reveal_strlit("C-[");
    reveal_strlit("C-h");
    reveal_strlit("C-j");
    reveal_strlit("C-k");
    reveal_strlit("C-v");
    reveal_strlit("C-w");
    reveal_strlit("D");
    reveal_strlit("DoubleClick1Pane");
    reveal_strlit("E");
    reveal_strlit("End");
    reveal_strlit("F");
    reveal_strlit("Home");
    reveal_strlit("J");
    reveal_strlit("K");
    reveal_strlit("Left");
    reveal_strlit("M-R");
    reveal_strlit("M-r");
    reveal_strlit("M-w");
    reveal_strlit("M-x");
    reveal_strlit("M-{");
    reveal_strlit("M-}");
    reveal_strlit("MouseDown1Pane");
    reveal_strlit("MouseDrag1Pane");
    reveal_strlit("MouseDragEnd1Pane");
    reveal_strlit("P");
    reveal_strlit("Right");
    reveal_strlit("T");
    reveal_strlit("TripleClick1Pane");
    reveal_strlit("W");
    reveal_strlit("WheelDownPane");
    reveal_strlit("WheelUpPane");
    reveal_strlit("X");
    reveal_strlit("copy-mode");
    reveal_strlit("copy-mode-vi");
    reveal_strlit("f");
    reveal_strlit("t");
    reveal_strlit("z");
    reveal_strlit("{");
    reveal_strlit("}");
    assert("#"@.len() == 1);
    assert("#"@[0] == '#');
    assert("*"@.len() == 1);
    assert("*"@[0] == '*');
    assert(","@.len() == 1);
    assert(","@[0] == ',');
    assert(":"@.len() == 1);
    assert(":"@[0] == ':');
    assert(";"@.len() == 1);
    assert(";"@[0] == ';');
    assert("?"@.len() == 1);
    assert("?"@[0] == '?');
    assert("A"@.len() == 1);
    assert("A"@[0] == 'A');
    assert("B"@.len() == 1);
    assert("B"@[0] == 'B');
    assert("BSpace"@.len() == 6);
    assert("C-Down"@.len() == 6);
    assert("C-Up"@.len() == 4);
    assert("C-["@.len() == 3);
    assert("C-["@[0] == 'C');
    assert("C-["@[1] == '-');
    assert("C-["@[2] == '[');
    assert("C-h"@.len() == 3);
    assert("C-h"@[0] == 'C');
    assert("C-h"@[1] == '-');
    assert("C-h"@[2] == 'h');
    assert("C-j"@.len() == 3);
    assert("C-j"@[2] == 'j');
    assert("C-v"@.len() == 3);
    assert("C-v"@[2] == 'v');
    assert("D"@.len() == 1);
    assert("D"@[0] == 'D');
    assert("DoubleClick1Pane"@.len() == 16);
    assert("E"@.len() == 1);
    assert("E"@[0] == 'E');
    assert("End"@.len() == 3);
    assert("End"@[0] == 'E');
    assert("F"@.len() == 1);
    assert("F"@[0] == 'F');
    assert("Home"@.len() == 4);
    assert("J"@.len() == 1);
    assert("J"@[0] == 'J');
    assert("K"@.len() == 1);
    assert("K"@[0] == 'K');
    assert("Left"@.len() == 4);
    assert("M-x"@.len() == 3);
    assert("M-x"@[0] == 'M');
    assert("MouseDown1Pane"@.len() == 14);
    assert("MouseDrag1Pane"@.len() == 14);
    assert("MouseDragEnd1Pane"@.len() == 17);
    assert("P"@.len() == 1);
    assert("P"@[0] == 'P');
    assert("Right"@.len() == 5);
    assert("T"@.len() == 1);
    assert("T"@[0] == 'T');
    assert("TripleClick1Pane"@.len() == 16);
    assert("W"@.len() == 1);
    assert("W"@[0] == 'W');
    assert("WheelDownPane"@.len() == 13);
    assert("WheelUpPane"@.len() == 11);
    assert("X"@.len() == 1);
    assert("X"@[0] == 'X');
    assert("copy-mode"@.len() == 9);
    assert("copy-mode-vi"@.len() == 12);
    assert("f"@.len() == 1);
    assert("f"@[0] == 'f');
    assert("t"@.len() == 1);
    assert("t"@[0] == 't');
    assert("z"@.len() == 1);
    assert("z"@[0] == 'z');
    assert("{"@.len() == 1);
    assert("{"@[0] == '{');
    assert("}"@.len() == 1);
    assert("}"@[0] == '}');
    let m0 = m;
    let m1 = default_bindings_1(m0);
    let m2 = default_bindings_2(m1);
    let m3 = default_bindings_3(m2);
    let m4 = default_bindings_4(m3);
    let m5 = default_bindings_5(m4);
    let m6 = default_bindings_6(m5);
    let m7 = default_bindings_7(m6);
    let m8 = default_bindings_8(m7);
    let m9 = default_bindings_9(m8);
    let m10 = default_bindings_10(m9);
    let m11 = default_bindings_11(m10);
    let m12 = default_bindings_12(m11);
    let m13 = default_bindings_13(m12);
    let m14 = default_bindings_14(m13);
    let m15 = default_bindings_15(m14);
    let m16 = default_bindings_16(m15);
    let m17 = default_bindings_17(m16);
    let m18 = default_bindings_18(m17);
    let m19 = default_bindings_19(m18);
    let m20 = default_bindings_20(m19);
    let m21 = default_bindings_21(m20);
    let m22 = default_bindings_22(m21);
    let m23 = default_bindings_23(m22);
    let m24 = default_bindings_24(m23);
    let m25 = default_bindings_25(m24);
    let m26 = default_bindings_26(m25);
    let m27 = default_bindings_27(m26);
    let m28 = default_bindings_28(m27);
    let m29 = default_bindings_29(m28);
    let m30 = default_bindings_30(m29);
    let m31 = default_bindings_31(m30);
    let m32 = default_bindings_32(m31);
    let m33 = default_bindings_33(m32);
    let m34 = default_bindings_34(m33);
    let m35 = default_bindings_35(m34);
    lemma_part_25(m24);
    lemma_pass_26(m25, ("copy-mode-vi"@, "?"@));
    lemma_pass_26(m25, ("copy-mode-vi"@, "*"@));
    lemma_pass_26(m25, ("copy-mode-vi"@, "#"@));
    lemma_pass_26(m25, ("copy-mode-vi"@, "C-["@));
    lemma_pass_26(m25, ("copy-mode-vi"@, "C-h"@));
    lemma_pass_27(m26, ("copy-mode-vi"@, "?"@));
    lemma_pass_27(m26, ("copy-mode-vi"@, "*"@));
    lemma_pass_27(m26, ("copy-mode-vi"@, "#"@));
    lemma_pass_27(m26, ("copy-mode-vi"@, "C-["@));
    lemma_pass_27(m26, ("copy-mode-vi"@, "C-h"@));
    lemma_pass_28(m27, ("copy-mode-vi"@, "?"@));
    lemma_pass_28(m27, ("copy-mode-vi"@, "*"@));
    lemma_pass_28(m27, ("copy-mode-vi"@, "#"@));
    lemma_pass_28(m27, ("copy-mode-vi"@, "C-["@));
    lemma_pass_28(m27, ("copy-mode-vi"@, "C-h"@));
    lemma_pass_29(m28, ("copy-mode-vi"@, "?"@));
    lemma_pass_29(m28, ("copy-mode-vi"@, "*"@));
    lemma_pass_29(m28, ("copy-mode-vi"@, "#"@));
    lemma_pass_29(m28, ("copy-mode-vi"@, "C-["@));
    lemma_pass_29(m28, ("copy-mode-vi"@, "C-h"@));
    lemma_pass_30(m29, ("copy-mode-vi"@, "?"@));
    lemma_pass_30(m29, ("copy-mode-vi"@, "*"@));
    lemma_pass_30(m29, ("copy-mode-vi"@, "#"@));
    lemma_pass_30(m29, ("copy-mode-vi"@, "C-["@));
    lemma_pass_30(m29, ("copy-mode-vi"@, "C-h"@));
    lemma_pass_31(m30, ("copy-mode-vi"@, "?"@));
    lemma_pass_31(m30, ("copy-mode-vi"@, "*"@));
    lemma_pass_31(m30, ("copy-mode-vi"@, "#"@));
    lemma_pass_31(m30, ("copy-mode-vi"@, "C-["@));
    lemma_pass_31(m30, ("copy-mode-vi"@, "C-h"@));
    lemma_pass_32(m31, ("copy-mode-vi"@, "?"@));
    lemma_pass_32(m31, ("copy-mode-vi"@, "*"@));
    lemma_pass_32(m31, ("copy-mode-vi"@, "#"@));
    lemma_pass_32(m31, ("copy-mode-vi"@, "C-["@));
    lemma_pass_32(m31, ("copy-mode-vi"@, "C-h"@));
    lemma_pass_33(m32, ("copy-mode-vi"@, "?"@));
    lemma_pass_33(m32, ("copy-mode-vi"@, "*"@));
    lemma_pass_33(m32, ("copy-mode-vi"@, "#"@));
    lemma_pass_33(m32, ("copy-mode-vi"@, "C-["@));
    lemma_pass_33(m32, ("copy-mode-vi"@, "C-h"@));
    lemma_pass_34(m33, ("copy-mode-vi"@, "?"@));
    lemma_pass_34(m33, ("copy-mode-vi"@, "*"@));
    lemma_pass_34(m33, ("copy-mode-vi"@, "#"@));
    lemma_pass_34(m33, ("copy-mode-vi"@, "C-["@));
    lemma_pass_34(m33, ("copy-mode-vi"@, "C-h"@));
    lemma_pass_35(m34, ("copy-mode-vi"@, "?"@));
    lemma_pass_35(m34, ("copy-mode-vi"@, "*"@));
    lemma_pass_35(m34, ("copy-mode-vi"@, "#"@));
    lemma_pass_35(m34, ("copy-mode-vi"@, "C-["@));
    lemma_pass_35(m34, ("copy-mode-vi"@, "C-h"@));
    assert(table_defaults(m) == m35);
    lemma_digit_bindings(m35, 10);
    lemma_not_digit_key(("copy-mode-vi"@, "?"@));
    lemma_not_digit_key(("copy-mode-vi"@, "*"@));
    lemma_not_digit_key(("copy-mode-vi"@, "#"@));
    lemma_not_digit_key(("copy-mode-vi"@, "C-["@));
    lemma_not_digit_key(("copy-mode-vi"@, "C-h"@));
}

/// Default bindings: `:` in `copy-mode-vi` runs `command-prompt -p (goto line) send-keys -X goto-line -- '%%'`; `f` in `copy-mode-vi` runs `command-prompt -1 -p (jump forward) send-keys -X jump-forward -- '%%'`; `F` in `copy-mode-vi` runs `command-prompt -1 -p (jump backward) send-keys -X jump-backward -- '%%'`; `t` in `copy-mode-vi` runs `command-prompt -1 -p (jump to forward) send-keys -X jump-to-forward -- '%%'`; `T` in `copy-mode-vi` runs `command-prompt -1 -p (jump to backward) send-keys -X jump-to-backward -- '%%'`.
pub proof fn lemma_defaults_26(m: Map<(Seq<char>, Seq<char>), BindingView>)
    ensures
        default_key_tables(m).contains_key(("copy-mode-vi"@, ":"@)),
        default_key_tables(m)[("copy-mode-vi"@, ":"@)] == (false, None::<Seq<char>>, seq!["command-prompt"@, "-p"@, "(goto line)"@, "send-keys -X goto-line -- '%%'"@]),
        default_key_tables(m).contains_key(("copy-mode-vi"@, "f"@)),
        default_key_tables(m)[("copy-mode-vi"@, "f"@)] == (false, None::<Seq<char>>, seq!["command-prompt"@, "-1"@, "-p"@, "(jump forward)"@, "send-keys -X jump-forward -- '%%'"@]),
        default_key_tables(m).contains_key(("copy-mode-vi"@, "F"@)),
        default_key_tables(m)[("copy-mode-vi"@, "F"@)] == (false, None::<Seq<char>>, seq!["command-prompt"@, "-1"@, "-p"@, "(jump backward)"@, "send-keys -X jump-backward -- '%%'"@]),
        default_key_tables(m).contains_key(("copy-mode-vi"@, "t"@)),
        default_key_tables(m)[("copy-mode-vi"@, "t"@)] == (false, None::<Seq<char>>, seq!["command-prompt"@, "-1"@, "-p"@, "(jump to forward)"@, "send-keys -X jump-to-forward -- '%%'"@]),
        default_key_tables(m).contains_key(("copy-mode-vi"@, "T"@)),
        default_key_tables(m)[("copy-mode-vi"@, "T"@)] == (false, None::<Seq<char>>, seq!["command-prompt"@, "-1"@, "-p"@, "(jump to backward)"@, "send-keys -X jump-to-backward -- '%%'"@]),
{
    reveal_strlit(",");
    reveal_strlit(":");
    reveal_strlit(";");
    reveal_strlit("A");
    reveal_strlit("B");
    reveal_strlit("BSpace");
    reveal_strlit("C-Down");
    reveal_strlit("C-M-b");
    reveal_strlit("C-M-f");
    reveal_strlit("C-Up");
    reveal_strlit("C-j");
    reveal_strlit("C-k");
    reveal_strlit("C-v");
    reveal_strlit("C-w");
    reveal_strlit("D");
    reveal_strlit("DoubleClick1Pane");
    reveal_strlit("E");
    reveal_strlit("End");
    reveal_strlit("F");
    reveal_strlit("Home");
    reveal_strlit("J");
    reveal_strlit("K");
    reveal_strlit("Left");
    reveal_strlit("M-R");
    reveal_strlit("M-r");
    reveal_strlit("M-w");
    reveal_strlit("M-x");
    reveal_strlit("M-{");
    reveal_strlit("M-}");
    reveal_strlit("MouseDown1Pane");
    reveal_strlit("MouseDrag1Pane");
    reveal_strlit("MouseDragEnd1Pane");
    reveal_strlit("P");
    reveal_strlit("Right");
    reveal_strlit("T");
    reveal_strlit("TripleClick1Pane");
    reveal_strlit("W");
    reveal_strlit("WheelDownPane");
    reveal_strlit("WheelUpPane");
    reveal_strlit("X");
    reveal_strlit("copy-mode");
    reveal_strlit("copy-mode-vi");
    reveal_strlit("f");
    reveal_strlit("t");
    reveal_strlit("z");
    reveal_strlit("{");
    reveal_strlit("}");
    assert(","@[0] == ',');
    assert(":"@.len() == 1);
    assert(":"@[0] == ':');
    assert(";"@[0] == ';');
    assert("A"@[0] == 'A');
    assert("B"@[0] == 'B');
    assert("BSpace"@.len() == 6);
    assert("C-Down"@.len() == 6);
    assert("C-Up"@.len() == 4);
    assert("C-j"@.len() == 3);
    assert("C-v"@.len() == 3);
    assert("D"@[0] == 'D');
    assert("DoubleClick1Pane"@.len() == 16);
    assert("E"@[0] == 'E');
    assert("End"@.len() == 3);
    assert("F"@.len() == 1);
    assert("F"@[0] == 'F');
    assert("Home"@.len() == 4);
    assert("J"@[0] == 'J');
    assert("K"@[0] == 'K');
    assert("Left"@.len() == 4);
    assert("M-x"@.len() == 3);
    assert("MouseDown1Pane"@.len() == 14);
    assert("MouseDrag1Pane"@.len() == 14);
    assert("MouseDragEnd1Pane"@.len() == 17);
    assert("P"@[0] == 'P');
    assert("Right"@.len() == 5);
    assert("T"@.len() == 1);
    assert("T"@[0] == 'T');
    assert("TripleClick1Pane"@.len() == 16);
    assert("W"@[0] == 'W');
    assert("WheelDownPane"@.len() == 13);
    assert("WheelUpPane"@.len() == 11);
    assert("X"@[0] == 'X');
    assert("copy-mode"@.len() == 9);
    assert("copy-mode-vi"@.len() == 12);
    assert("f"@.len() == 1);
    assert("f"@[0] == 'f');
    assert("t"@.len() == 1);
    assert("t"@[0] == 't');
    assert("z"@[0] == 'z');
    assert("{"@[0] == '{');
    assert("}"@[0] == '}');
    let m0 = m;
    let m1 = default_bindings_1(m0);
    let m2 = default_bindings_2(m1);
    let m3 = default_bindings_3(m2);
    let m4 = default_bindings_4(m3);
    let m5 = default_bindings_5(m4);
    let m6 = default_bindings_6(m5);
    let m7 = default_bindings_7(m6);
    let m8 = default_bindings_8(m7);
    let m9 = default_bindings_9(m8);
    let m10 = default_bindings_10(m9);
    let m11 = default_bindings_11(m10);
    let m12 = default_bindings_12(m11);
    let m13 = default_bindings_13(m12);
    let m14 = default_bindings_14(m13);
    let m15 = default_bindings_15(m14);
    let m16 = default_bindings_16(m15);
    let m17 = default_bindings_17(m16);
    let m18 = default_bindings_18(m17);
    let m19 = default_bindings_19(m18);
    let m20 = default_bindings_20(m19);
    let m21 = default_bindings_21(m20);
    let m22 = default_bindings_22(m21);
    let m23 = default_bindings_23(m22);
    let m24 = default_bindings_24(m23);
    let m25 = default_bindings_25(m24);
    let m26 = default_bindings_26(m25);
    let m27 = default_bindings_27(m26);
    let m28 = default_bindings_28(m27);
    let m29 = default_bindings_29(m28);
    let m30 = default_bindings_30(m29);
    let m31 = default_bindings_31(m30);
    let m32 = default_bindings_32(m31);
    let m33 = default_bindings_33(m32);
    let m34 = default_bindings_34(m33);
    let m35 = default_bindings_35(m34);
    lemma_part_26(m25);
    lemma_pass_27(m26, ("copy-mode-vi"@, ":"@));
    lemma_pass_27(m26, ("copy-mode-vi"@, "f"@));
    lemma_pass_27(m26, ("copy-mode-vi"@, "F"@));
    lemma_pass_27(m26, ("copy-mode-vi"@, "t"@));
    lemma_pass_27(m26, ("copy-mode-vi"@, "T"@));
    lemma_pass_28(m27, ("copy-mode-vi"@, ":"@));
    lemma_pass_28(m27, ("copy-mode-vi"@, "f"@));
    lemma_pass_28(m27, ("copy-mode-vi"@, "F"@));
    lemma_pass_28(m27, ("copy-mode-vi"@, "t"@));
    lemma_pass_28(m27, ("copy-mode-vi"@, "T"@));
    lemma_pass_29(m28, ("copy-mode-vi"@, ":"@));
    lemma_pass_29(m28, ("copy-mode-vi"@, "f"@));
    lemma_pass_29(m28, ("copy-mode-vi"@, "F"@));
    lemma_pass_29(m28, ("copy-mode-vi"@, "t"@));
    lemma_pass_29(m28, ("copy-mode-vi"@, "T"@));
    lemma_pass_30(m29, ("copy-mode-vi"@, ":"@));
    lemma_pass_30(m29, ("copy-mode-vi"@, "f"@));
    lemma_pass_30(m29, ("copy-mode-vi"@, "F"@));
    lemma_pass_30(m29, ("copy-mode-vi"@, "t"@));
    lemma_pass_30(m29, ("copy-mode-vi"@, "T"@));
    lemma_pass_31(m30, ("copy-mode-vi"@, ":"@));
    lemma_pass_31(m30, ("copy-mode-vi"@, "f"@));
    lemma_pass_31(m30, ("copy-mode-vi"@, "F"@));
    lemma_pass_31(m30, ("copy-mode-vi"@, "t"@));
    lemma_pass_31(m30, ("copy-mode-vi"@, "T"@));
    lemma_pass_32(m31, ("copy-mode-vi"@, ":"@));
    lemma_pass_32(m31, ("copy-mode-vi"@, "f"@));
    lemma_pass_32(m31, ("copy-mode-vi"@, "F"@));
    lemma_pass_32(m31, ("copy-mode-vi"@, "t"@));
    lemma_pass_32(m31, ("copy-mode-vi"@, "T"@));
    lemma_pass_33(m32, ("copy-mode-vi"@, ":"@));
    lemma_pass_33(m32, ("copy-mode-vi"@, "f"@));
    lemma_pass_33(m32, ("copy-mode-vi"@, "F"@));
    lemma_pass_33(m32, ("copy-mode-vi"@, "t"@));
    lemma_pass_33(m32, ("copy-mode-vi"@, "T"@));
    lemma_pass_34(m33, ("copy-mode-vi"@, ":"@));
    lemma_pass_34(m33, ("copy-mode-vi"@, "f"@));
    lemma_pass_34(m33, ("copy-mode-vi"@, "F"@));
    lemma_pass_34(m33, ("copy-mode-vi"@, "t"@));
    lemma_pass_34(m33, ("copy-mode-vi"@, "T"@));
    lemma_pass_35(m34, ("copy-mode-vi"@, ":"@));
    lemma_pass_35(m34, ("copy-mode-vi"@, "f"@));
    lemma_pass_35(m34, ("copy-mode-vi"@, "F"@));
    lemma_pass_35(m34, ("copy-mode-vi"@, "t"@));
    lemma_pass_35(m34, ("copy-mode-vi"@, "T"@));
    assert(table_defaults(m) == m35);
    lemma_digit_bindings(m35, 10);
    lemma_not_digit_key(("copy-mode-vi"@, ":"@));
    lemma_not_digit_key(("copy-mode-vi"@, "f"@));
    lemma_not_digit_key(("copy-mode-vi"@, "F"@));
    lemma_not_digit_key(("copy-mode-vi"@, "t"@));
    lemma_not_digit_key(("copy-mode-vi"@, "T"@));
}

/// Default bindings: `,` in `copy-mode-vi` runs `send-keys -X jump-reverse`; `;` in `copy-mode-vi` runs `send-keys -X jump-again`; `X` in `copy-mode-vi` runs `send-keys -X set-mark`; `M-x` in `copy-mode-vi` runs `send-keys -X jump-to-mark`; `P` in `copy-mode-vi` runs `send-keys -X toggle-position`.
pub proof fn lemma_defaults_27(m: Map<(Seq<char>, Seq<char>), BindingView>)
    ensures
        default_key_tables(m).contains_key(("copy-mode-vi"@, ","@)),
        default_key_tables(m)[("copy-mode-vi"@, ","@)] == (false, None::<Seq<char>>, seq!["send-keys"@, "-X"@, "jump-reverse"@]),
        default_key_tables(m).contains_key(("copy-mode-vi"@, ";"@)),
        default_key_tables(m)[("copy-mode-vi"@, ";"@)] == (false, None::<Seq<char>>, seq!["send-keys"@, "-X"@, "jump-again"@]),
        default_key_tables(m).contains_key(("copy-mode-vi"@, "X"@)),
        default_key_tables(m)[("copy-mode-vi"@, "X"@)] == (false, None::<Seq<char>>, seq!["send-keys"@, "-X"@, "set-mark"@]),
        default_key_tables(m).contains_key(("copy-mode-vi"@, "M-x"@)),
        default_key_tables(m)[("copy-mode-vi"@, "M-x"@)] == (false, None::<Seq<char>>, seq!["send-keys"@, "-X"@, "jump-to-mark"@]),
        default_key_tables(m).contains_key(("copy-mode-vi"@, "P"@)),
        default_key_tables(m)[("copy-mode-vi"@, "P"@)] == (false, None::<Seq<char>>, seq!["send-keys"@, "-X"@, "toggle-position"@]),
{
    reveal_strlit(",");
    reveal_strlit(";");
    reveal_strlit("A");
    reveal_strlit("B");
    reveal_strlit("BSpace");
    reveal_strlit("C-Down");
    reveal_strlit("C-M-b");
    reveal_strlit("C-M-f");
    reveal_strlit("C-Up");
    reveal_strlit("C-j");
    reveal_strlit("C-k");
    reveal_strlit("C-v");
    reveal_strlit("C-w");
    reveal_strlit("D");
    reveal_strlit("DoubleClick1Pane");
    reveal_strlit("E");
    reveal_strlit("End");
    reveal_strlit("Home");
    reveal_strlit("J");
    reveal_strlit("K");
    reveal_strlit("Left");
    reveal_strlit("M-R");
    reveal_strlit("M-r");
    reveal_strlit("M-w");
    reveal_strlit("M-x");
    reveal_strlit("M-{");
    reveal_strlit("M-}");
    reveal_strlit("MouseDown1Pane");
    reveal_strlit("MouseDrag1Pane");
    reveal_strlit("MouseDragEnd1Pane");
    reveal_strlit("P");
    reveal_strlit("Right");
    reveal_strlit("TripleClick1Pane");
    reveal_strlit("W");
    reveal_strlit("WheelDownPane");
    reveal_strlit("WheelUpPane");
    reveal_strlit("X");
    reveal_strlit("copy-mode");
    reveal_strlit("copy-mode-vi");
    reveal_strlit("z");
    reveal_strlit("{");
    reveal_strlit("}");
    assert(","@.len() == 1);
    assert(","@[0] == ',');
    assert(";"@.len() == 1);
    assert(";"@[0] == ';');
    assert("A"@.len() == 1);
    assert("A"@[0] == 'A');
    assert("B"@.len() == 1);
    assert("B"@[0] == 'B');
    assert("BSpace"@.len() == 6);
    assert("C-Down"@.len() == 6);
    assert("C-Up"@.len() == 4);
    assert("C-j"@.len() == 3);
    assert("C-j"@[0] == 'C');
    assert("C-v"@.len() == 3);
    assert("C-v"@[0] == 'C');
    assert("D"@.len() == 1);
    assert("D"@[0] == 'D');
    assert("DoubleClick1Pane"@.len() == 16);
    assert("E"@.len() == 1);
    assert("E"@[0] == 'E');
    assert("End"@.len() == 3);
    assert("End"@[0] == 'E');
    assert("Home"@.len() == 4);
    assert("J"@.len() == 1);
    assert("J"@[0] == 'J');
    assert("K"@.len() == 1);
    assert("K"@[0] == 'K');
    assert("Left"@.len() == 4);
    assert("M-x"@.len() == 3);
    assert("M-x"@[0] == 'M');
    assert("M-x"@[1] == '-');
    assert("M-x"@[2] == 'x');
    assert("MouseDown1Pane"@.len() == 14);
    assert("MouseDrag1Pane"@.len() == 14);
    assert("MouseDragEnd1Pane"@.len() == 17);
    assert("P"@.len() == 1);
    assert("P"@[0] == 'P');
    assert("Right"@.len() == 5);
    assert("TripleClick1Pane"@.len() == 16);
    assert("W"@.len() == 1);
    assert("W"@[0] == 'W');
    assert("WheelDownPane"@.len() == 13);
    assert("WheelUpPane"@.len() == 11);
    assert("X"@.len() == 1);
    assert("X"@[0] == 'X');
    assert("copy-mode"@.len() == 9);
    assert("copy-mode-vi"@.len() == 12);
    assert("z"@.len() == 1);
    assert("z"@[0] == 'z');
    assert("{"@.len() == 1);
    assert("{"@[0] == '{');
    assert("}"@.len() == 1);
    assert("}"@[0] == '}');
    let m0 = m;
    let m1 = default_bindings_1(m0);
    let m2 = default_bindings_2(m1);
    let m3 = default_bindings_3(m2);
    let m4 = default_bindings_4(m3);
    let m5 = default_bindings_5(m4);
    let m6 = default_bindings_6(m5);
    let m7 = default_bindings_7(m6);
    let m8 = default_bindings_8(m7);
    let m9 = default_bindings_9(m8);
    let m10 = default_bindings_10(m9);
    let m11 = default_bindings_11(m10);
    let m12 = default_bindings_12(m11);
    let m13 = default_bindings_13(m12);
    let m14 = default_bindings_14(m13);
    let m15 = default_bindings_15(m14);
    let m16 = default_bindings_16(m15);
    let m17 = default_bindings_17(m16);
    let m18 = default_bindings_18(m17);
    let m19 = default_bindings_19(m18);
    let m20 = default_bindings_20(m19);
    let m21 = default_bindings_21(m20);
    let m22 = default_bindings_22(m21);
    let m23 = default_bindings_23(m22);
    let m24 = default_bindings_24(m23);
    let m25 = default_bindings_25(m24);
    let m26 = default_bindings_26(m25);
    let m27 = default_bindings_27(m26);
    let m28 = default_bindings_28(m27);
    let m29 = default_bindings_29(m28);
    let m30 = default_bindings_30(m29);
    let m31 = default_bindings_31(m30);
    let m32 = default_bindings_32(m31);
    let m33 = default_bindings_33(m32);
    let m34 = default_bindings_34(m33);
    let m35 = default_bindings_35(m34);
    lemma_part_27(m26);
    lemma_pass_28(m27, ("copy-mode-vi"@, ","@));
    lemma_pass_28(m27, ("copy-mode-vi"@, ";"@));
    lemma_pass_28(m27, ("copy-mode-vi"@, "X"@));
    lemma_pass_28(m27, ("copy-mode-vi"@, "M-x"@));
    lemma_pass_28(m27, ("copy-mode-vi"@, "P"@));
    lemma_pass_29(m28, ("copy-mode-vi"@, ","@));
    lemma_pass_29(m28, ("copy-mode-vi"@, ";"@));
    lemma_pass_29(m28, ("copy-mode-vi"@, "X"@));
    lemma_pass_29(m28, ("copy-mode-vi"@, "M-x"@));
    lemma_pass_29(m28, ("copy-mode-vi"@, "P"@));
    lemma_pass_30(m29, ("copy-mode-vi"@, ","@));
    lemma_pass_30(m29, ("copy-mode-vi"@, ";"@));
    lemma_pass_30(m29, ("copy-mode-vi"@, "X"@));
    lemma_pass_30(m29, ("copy-mode-vi"@, "M-x"@));
    lemma_pass_30(m29, ("copy-mode-vi"@, "P"@));
    lemma_pass_31(m30, ("copy-mode-vi"@, ","@));
    lemma_pass_31(m30, ("copy-mode-vi"@, ";"@));
    lemma_pass_31(m30, ("copy-mode-vi"@, "X"@));
    lemma_pass_31(m30, ("copy-mode-vi"@, "M-x"@));
    lemma_pass_31(m30, ("copy-mode-vi"@, "P"@));
    lemma_pass_32(m31, ("copy-mode-vi"@, ","@));
    lemma_pass_32(m31, ("copy-mode-vi"@, ";"@));
    lemma_pass_32(m31, ("copy-mode-vi"@, "X"@));
    lemma_pass_32(m31, ("copy-mode-vi"@, "M-x"@));
    lemma_pass_32(m31, ("copy-mode-vi"@, "P"@));
    lemma_pass_33(m32, ("copy-mode-vi"@, ","@));
    lemma_pass_33(m32, ("copy-mode-vi"@, ";"@));
    lemma_pass_33(m32, ("copy-mode-vi"@, "X"@));
    lemma_pass_33(m32, ("copy-mode-vi"@, "M-x"@));
    lemma_pass_33(m32, ("copy-mode-vi"@, "P"@));
    lemma_pass_34(m33, ("copy-mode-vi"@, ","@));
    lemma_pass_34(m33, ("copy-mode-vi"@, ";"@));
    lemma_pass_34(m33, ("copy-mode-vi"@, "X"@));
    lemma_pass_34(m33, ("copy-mode-vi"@, "M-x"@));
    lemma_pass_34(m33, ("copy-mode-vi"@, "P"@));
    lemma_pass_35(m34, ("copy-mode-vi"@, ","@));
    lemma_pass_35(m34, ("copy-mode-vi"@, ";"@));
    lemma_pass_35(m34, ("copy-mode-vi"@, "X"@));
    lemma_pass_35(m34, ("copy-mode-vi"@, "M-x"@));
    lemma_pass_35(m34, ("copy-mode-vi"@, "P"@));
    assert(table_defaults(m) == m35);
    lemma_digit_bindings(m35, 10);
    lemma_not_digit_key(("copy-mode-vi"@, ","@));
    lemma_not_digit_key(("copy-mode-vi"@, ";"@));
    lemma_not_digit_key(("copy-mode-vi"@, "X"@));
    lemma_not_digit_key(("copy-mode-vi"@, "M-x"@));
    lemma_not_digit_key(("copy-mode-vi"@, "P"@));
}

/// Default bindings: `z` in `copy-mode-vi` runs `send-keys -X scroll-middle`; `B` in `copy-mode-vi` runs `send-keys -X previous-space`; `W` in `copy-mode-vi` runs `send-keys -X next-space`; `E` in `copy-mode-vi` runs `send-keys -X next-space-end`; `J` in `copy-mode-vi` runs `send-keys -X scroll-down`.
pub proof fn lemma_defaults_28(m: Map<(Seq<char>, Seq<char>), BindingView>)
    ensures
        default_key_tables(m).contains_key(("copy-mode-vi"@, "z"@)),
        default_key_tables(m)[("copy-mode-vi"@, "z"@)] == (false, None::<Seq<char>>, seq!["send-keys"@, "-X"@, "scroll-middle"@]),
        default_key_tables(m).contains_key(("copy-mode-vi"@, "B"@)),
        default_key_tables(m)[("copy-mode-vi"@, "B"@)] == (false, None::<Seq<char>>, seq!["send-keys"@, "-X"@, "previous-space"@]),
        default_key_tables(m).contains_key(("copy-mode-vi"@, "W"@)),
        default_key_tables(m)[("copy-mode-vi"@, "W"@)] == (false, None::<Seq<char>>, seq!["send-keys"@, "-X"@, "next-space"@]),
        default_key_tables(m).contains_key(("copy-mode-vi"@, "E"@)),
        default_key_tables(m)[("copy-mode-vi"@, "E"@)] == (false, None::<Seq<char>>, seq!["send-keys"@, "-X"@, "next-space-end"@]),
        default_key_tables(m).contains_key(("copy-mode-vi"@, "J"@)),
        default_key_tables(m)[("copy-mode-vi"@, "J"@)] == (false, None::<Seq<char>>, seq!["send-keys"@, "-X"@, "scroll-down"@]),
{
    reveal_strlit("A");
    reveal_strlit("B");
    reveal_strlit("BSpace");
    reveal_strlit("C-Down");
    reveal_strlit("C-M-b");
    reveal_strlit("C-M-f");
    reveal_strlit("C-Up");
    reveal_strlit("C-j");
    reveal_strlit("C-k");
    reveal_strlit("C-v");
    reveal_strlit("C-w");
    reveal_strlit("D");
    reveal_strlit("DoubleClick1Pane");
    reveal_strlit("E");
    reveal_strlit("End");
    reveal_strlit("Home");
    reveal_strlit("J");
    reveal_strlit("K");
    reveal_strlit("Left");
    reveal_strlit("M-R");
    reveal_strlit("M-r");
    reveal_strlit("M-w");
    reveal_strlit("M-{");
    reveal_strlit("M-}");
    reveal_strlit("MouseDown1Pane");
    reveal_strlit("MouseDrag1Pane");
    reveal_strlit("MouseDragEnd1Pane");
    reveal_strlit("Right");
    reveal_strlit("TripleClick1Pane");
    reveal_strlit("W");
    reveal_strlit("WheelDownPane");
    reveal_strlit("WheelUpPane");
    reveal_strlit("copy-mode");
    reveal_strlit("copy-mode-vi");
    reveal_strlit("z");
    reveal_strlit("{");
    reveal_strlit("}");
    assert("A"@[0] == 'A');
    assert("B"@.len() == 1);
    assert("B"@[0] == 'B');
    assert("BSpace"@.len() == 6);
    assert("C-Down"@.len() == 6);
    assert("C-Up"@.len() == 4);
    assert("C-j"@.len() == 3);
    assert("C-v"@.len() == 3);
    assert("D"@[0] == 'D');
    assert("DoubleClick1Pane"@.len() == 16);
    assert("E"@.len() == 1);
    assert("E"@[0] == 'E');
    assert("End"@.len() == 3);
    assert("Home"@.len() == 4);
    assert("J"@.len() == 1);
    assert("J"@[0] == 'J');
    assert("K"@[0] == 'K');
    assert("Left"@.len() == 4);
    assert("MouseDown1Pane"@.len() == 14);
    assert("MouseDrag1Pane"@.len() == 14);
    assert("MouseDragEnd1Pane"@.len() == 17);
    assert("Right"@.len() == 5);
    assert("TripleClick1Pane"@.len() == 16);
    assert("W"@.len() == 1);
    assert("W"@[0] == 'W');
    assert("WheelDownPane"@.len() == 13);
    assert("WheelUpPane"@.len() == 11);
    assert("copy-mode"@.len() == 9);
    assert("copy-mode-vi"@.len() == 12);
    assert("z"@.len() == 1);
    assert("z"@[0] == 'z');
    assert("{"@[0] == '{');
    assert("}"@[0] == '}');
    let m0 = m;
    let m1 = default_bindings_1(m0);
    let m2 = default_bindings_2(m1);
    let m3 = default_bindings_3(m2);
    let m4 = default_bindings_4(m3);
    let m5 = default_bindings_5(m4);
    let m6 = default_bindings_6(m5);
    let m7 = default_bindings_7(m6);
    let m8 = default_bindings_8(m7);
    let m9 = default_bindings_9(m8);
    let m10 = default_bindings_10(m9);
    let m11 = default_bindings_11(m10);
    let m12 = default_bindings_12(m11);
    let m13 = default_bindings_13(m12);
    let m14 = default_bindings_14(m13);
    let m15 = default_bindings_15(m14);
    let m16 = default_bindings_16(m15);
    let m17 = default_bindings_17(m16);
    let m18 = default_bindings_18(m17);
    let m19 = default_bindings_19(m18);
    let m20 = default_bindings_20(m19);
    let m21 = default_bindings_21(m20);
    let m22 = default_bindings_22(m21);
    let m23 = default_bindings_23(m22);
    let m24 = default_bindings_24(m23);
    let m25 = default_bindings_25(m24);
    let m26 = default_bindings_26(m25);
    let m27 = default_bindings_27(m26);
    let m28 = default_bindings_28(m27);
    let m29 = default_bindings_29(m28);
    let m30 = default_bindings_30(m29);
    let m31 = default_bindings_31(m30);
    let m32 = default_bindings_32(m31);
    let m33 = default_bindings_33(m32);
    let m34 = default_bindings_34(m33);
    let m35 = default_bindings_35(m34);
    lemma_part_28(m27);
    lemma_pass_29(m28, ("copy-mode-vi"@, "z"@));
    lemma_pass_29(m28, ("copy-mode-vi"@, "B"@));
    lemma_pass_29(m28, ("copy-mode-vi"@, "W"@));
    lemma_pass_29(m28, ("copy-mode-vi"@, "E"@));
    lemma_pass_29(m28, ("copy-mode-vi"@, "J"@));
    lemma_pass_30(m29, ("copy-mode-vi"@, "z"@));
    lemma_pass_30(m29, ("copy-mode-vi"@, "B"@));
    lemma_pass_30(m29, ("copy-mode-vi"@, "W"@));
    lemma_pass_30(m29, ("copy-mode-vi"@, "E"@));
    lemma_pass_30(m29, ("copy-mode-vi"@, "J"@));
    lemma_pass_31(m30, ("copy-mode-vi"@, "z"@));
    lemma_pass_31(m30, ("copy-mode-vi"@, "B"@));
    lemma_pass_31(m30, ("copy-mode-vi"@, "W"@));
    lemma_pass_31(m30, ("copy-mode-vi"@, "E"@));
    lemma_pass_31(m30, ("copy-mode-vi"@, "J"@));
    lemma_pass_32(m31, ("copy-mode-vi"@, "z"@));
    lemma_pass_32(m31, ("copy-mode-vi"@, "B"@));
    lemma_pass_32(m31, ("copy-mode-vi"@, "W"@));
    lemma_pass_32(m31, ("copy-mode-vi"@, "E"@));
    lemma_pass_32(m31, ("copy-mode-vi"@, "J"@));
    lemma_pass_33(m32, ("copy-mode-vi"@, "z"@));
    lemma_pass_33(m32, ("copy-mode-vi"@, "B"@));
    lemma_pass_33(m32, ("copy-mode-vi"@, "W"@));
    lemma_pass_33(m32, ("copy-mode-vi"@, "E"@));
    lemma_pass_33(m32, ("copy-mode-vi"@, "J"@));
    lemma_pass_34(m33, ("copy-mode-vi"@, "z"@));
    lemma_pass_34(m33, ("copy-mode-vi"@, "B"@));
    lemma_pass_34(m33, ("copy-mode-vi"@, "W"@));
    lemma_pass_34(m33, ("copy-mode-vi"@, "E"@));
    lemma_pass_34(m33, ("copy-mode-vi"@, "J"@));
    lemma_pass_35(m34, ("copy-mode-vi"@, "z"@));
    lemma_pass_35(m34, ("copy-mode-vi"@, "B"@));
    lemma_pass_35(m34, ("copy-mode-vi"@, "W"@));
    lemma_pass_35(m34, ("copy-mode-vi"@, "E"@));
    lemma_pass_35(m34, ("copy-mode-vi"@, "J"@));
    assert(table_defaults(m) == m35);
    lemma_digit_bindings(m35, 10);
    lemma_not_digit_key(("copy-mode-vi"@, "z"@));
    lemma_not_digit_key(("copy-mode-vi"@, "B"@));
    lemma_not_digit_key(("copy-mode-vi"@, "W"@));
    lemma_not_digit_key(("copy-mode-vi"@, "E"@));
    lemma_not_digit_key(("copy-mode-vi"@, "J"@));
}

/// Default bindings: `K` in `copy-mode-vi` runs `send-keys -X scroll-up`; `C-v` in `copy-mode-vi` runs `send-keys -X rectangle-toggle`; `Left` in `copy-mode-vi` runs `send-keys -X cursor-left`; `Right` in `copy-mode-vi` runs `send-keys -X cursor-right`; `C-Up` in `copy-mode-vi` runs `send-keys -X scroll-up`.
pub proof fn lemma_defaults_29(m: Map<(Seq<char>, Seq<char>), BindingView>)
    ensures
        default_key_tables(m).contains_key(("copy-mode-vi"@, "K"@)),
        default_key_tables(m)[("copy-mode-vi"@, "K"@)] == (false, None::<Seq<char>>, seq!["send-keys"@, "-X"@, "scroll-up"@]),
        default_key_tables(m).contains_key(("copy-mode-vi"@, "C-v"@)),
        default_key_tables(m)[("copy-mode-vi"@, "C-v"@)] == (false, None::<Seq<char>>, seq!["send-keys"@, "-X"@, "rectangle-toggle"@]),
        default_key_tables(m).contains_key(("copy-mode-vi"@, "Left"@)),
        default_key_tables(m)[("copy-mode-vi"@, "Left"@)] == (false, None::<Seq<char>>, seq!["send-keys"@, "-X"@, "cursor-left"@]),
        default_key_tables(m).contains_key(("copy-mode-vi"@, "Right"@)),
        default_key_tables(m)[("copy-mode-vi"@, "Right"@)] == (false, None::<Seq<char>>, seq!["send-keys"@, "-X"@, "cursor-right"@]),
        default_key_tables(m).contains_key(("copy-mode-vi"@, "C-Up"@)),
        default_key_tables(m)[("copy-mode-vi"@, "C-Up"@)] == (false, None::<Seq<char>>, seq!["send-keys"@, "-X"@, "scroll-up"@]),
{
    reveal_strlit("A");
    reveal_strlit("BSpace");
    reveal_strlit("C-Down");
    reveal_strlit("C-M-b");
    reveal_strlit("C-M-f");
    reveal_strlit("C-Up");
    reveal_strlit("C-j");
    reveal_strlit("C-k");
    reveal_strlit("C-v");
    reveal_strlit("C-w");
    reveal_strlit("D");
    reveal_strlit("DoubleClick1Pane");
    reveal_strlit("End");
    reveal_strlit("Home");
    reveal_strlit("K");
    reveal_strlit("Left");
    reveal_strlit("M-R");
    reveal_strlit("M-r");
    reveal_strlit("M-w");
    reveal_strlit("M-{");
    reveal_strlit("M-}");
    reveal_strlit("MouseDown1Pane");
    reveal_strlit("MouseDrag1Pane");
    reveal_strlit("MouseDragEnd1Pane");
    reveal_strlit("Right");
    reveal_strlit("TripleClick1Pane");
    reveal_strlit("WheelDownPane");
    reveal_strlit("WheelUpPane");
    reveal_strlit("copy-mode");
    reveal_strlit("copy-mode-vi");
    reveal_strlit("{");
    reveal_strlit("}");
    assert("A"@.len() == 1);
    assert("A"@[0] == 'A');
    assert("BSpace"@.len() == 6);
    assert("C-Down"@.len() == 6);
    assert("C-Up"@.len() == 4);
    assert("C-Up"@[0] == 'C');
    assert("C-Up"@[1] == '-');
    assert("C-Up"@[2] == 'U');
    assert("C-j"@.len() == 3);
    assert("C-j"@[2] == 'j');
    assert("C-v"@.len() == 3);
    assert("C-v"@[0] == 'C');
    assert("C-v"@[1] == '-');
    assert("C-v"@[2] == 'v');
    assert("D"@.len() == 1);
    assert("D"@[0] == 'D');
    assert("DoubleClick1Pane"@.len() == 16);
    assert("End"@.len() == 3);
    assert("End"@[0] == 'E');
    assert("Home"@.len() == 4);
    assert("Home"@[0] == 'H');
    assert("K"@.len() == 1);
    assert("K"@[0] == 'K');
    assert("Left"@.len() == 4);
    assert("Left"@[0] == 'L');
    assert("Left"@[1] == 'e');
    assert("Left"@[2] == 'f');
    assert("MouseDown1Pane"@.len() == 14);
    assert("MouseDrag1Pane"@.len() == 14);
    assert("MouseDragEnd1Pane"@.len() == 17);
    assert("Right"@.len() == 5);
    assert("Right"@[0] == 'R');
    assert("Right"@[1] == 'i');
    assert("Right"@[2] == 'g');
    assert("TripleClick1Pane"@.len() == 16);
    assert("WheelDownPane"@.len() == 13);
    assert("WheelUpPane"@.len() == 11);
    assert("copy-mode"@.len() == 9);
    assert("copy-mode-vi"@.len() == 12);
    assert("{"@.len() == 1);
    assert("{"@[0] == '{');
    assert("}"@.len() == 1);
    assert("}"@[0] == '}');
    let m0 = m;
    let m1 = default_bindings_1(m0);
    let m2 = default_bindings_2(m1);
    let m3 = default_bindings_3(m2);
    let m4 = default_bindings_4(m3);
    let m5 = default_bindings_5(m4);
    let m6 = default_bindings_6(m5);
    let m7 = default_bindings_7(m6);
    let m8 = default_bindings_8(m7);
    let m9 = default_bindings_9(m8);
    let m10 = default_bindings_10(m9);
    let m11 = default_bindings_11(m10);
    let m12 = default_bindings_12(m11);
    let m13 = default_bindings_13(m12);
    let m14 = default_bindings_14(m13);
    let m15 = default_bindings_15(m14);
    let m16 = default_bindings_16(m15);
    let m17 = default_bindings_17(m16);
    let m18 = default_bindings_18(m17);
    let m19 = default_bindings_19(m18);
    let m20 = default_bindings_20(m19);
    let m21 = default_bindings_21(m20);
    let m22 = default_bindings_22(m21);
    let m23 = default_bindings_23(m22);
    let m24 = default_bindings_24(m23);
    let m25 = default_bindings_25(m24);
    let m26 = default_bindings_26(m25);
    let m27 = default_bindings_27(m26);
    let m28 = default_bindings_28(m27);
    let m29 = default_bindings_29(m28);
    let m30 = default_bindings_30(m29);
    let m31 = default_bindings_31(m30);
    let m32 = default_bindings_32(m31);
    let m33 = default_bindings_33(m32);
    let m34 = default_bindings_34(m33);
    let m35 = default_bindings_35(m34);
    lemma_part_29(m28);
    lemma_pass_30(m29, ("copy-mode-vi"@, "K"@));
    lemma_pass_30(m29, ("copy-mode-vi"@, "C-v"@));
    lemma_pass_30(m29, ("copy-mode-vi"@, "Left"@));
    lemma_pass_30(m29, ("copy-mode-vi"@, "Right"@));
    lemma_pass_30(m29, ("copy-mode-vi"@, "C-Up"@));
    lemma_pass_31(m30, ("copy-mode-vi"@, "K"@));
    lemma_pass_31(m30, ("copy-mode-vi"@, "C-v"@));
    lemma_pass_31(m30, ("copy-mode-vi"@, "Left"@));
    lemma_pass_31(m30, ("copy-mode-vi"@, "Right"@));
    lemma_pass_31(m30, ("copy-mode-vi"@, "C-Up"@));
    lemma_pass_32(m31, ("copy-mode-vi"@, "K"@));
    lemma_pass_32(m31, ("copy-mode-vi"@, "C-v"@));
    lemma_pass_32(m31, ("copy-mode-vi"@, "Left"@));
    lemma_pass_32(m31, ("copy-mode-vi"@, "Right"@));
    lemma_pass_32(m31, ("copy-mode-vi"@, "C-Up"@));
    lemma_pass_33(m32, ("copy-mode-vi"@, "K"@));
    lemma_pass_33(m32, ("copy-mode-vi"@, "C-v"@));
    lemma_pass_33(m32, ("copy-mode-vi"@, "Left"@));
    lemma_pass_33(m32, ("copy-mode-vi"@, "Right"@));
    lemma_pass_33(m32, ("copy-mode-vi"@, "C-Up"@));
    lemma_pass_34(m33, ("copy-mode-vi"@, "K"@));
    lemma_pass_34(m33, ("copy-mode-vi"@, "C-v"@));
    lemma_pass_34(m33, ("copy-mode-vi"@, "Left"@));
    lemma_pass_34(m33, ("copy-mode-vi"@, "Right"@));
    lemma_pass_34(m33, ("copy-mode-vi"@, "C-Up"@));
    lemma_pass_35(m34, ("copy-mode-vi"@, "K"@));
    lemma_pass_35(m34, ("copy-mode-vi"@, "C-v"@));
    lemma_pass_35(m34, ("copy-mode-vi"@, "Left"@));
    lemma_pass_35(m34, ("copy-mode-vi"@, "Right"@));
    lemma_pass_35(m34, ("copy-mode-vi"@, "C-Up"@));
    assert(table_defaults(m) == m35);
    lemma_digit_bindings(m35, 10);
    lemma_not_digit_key(("copy-mode-vi"@, "K"@));
    lemma_not_digit_key(("copy-mode-vi"@, "C-v"@));
    lemma_not_digit_key(("copy-mode-vi"@, "Left"@));
    lemma_not_digit_key(("copy-mode-vi"@, "Right"@));
    lemma_not_digit_key(("copy-mode-vi"@, "C-Up"@));
}

/// Default bindings: `C-Down` in `copy-mode-vi` runs `send-keys -X scroll-down`; `Home` in `copy-mode-vi` runs `send-keys -X start-of-line`; `End` in `copy-mode-vi` runs `send-keys -X end-of-line`; `BSpace` in `copy-mode-vi` runs `send-keys -X cursor-left`; `{` in `copy-mode-vi` runs `send-keys -X previous-paragraph`.
pub proof fn lemma_defaults_30(m: Map<(Seq<char>, Seq<char>), BindingView>)
    ensures
        default_key_tables(m).contains_key(("copy-mode-vi"@, "C-Down"@)),
        default_key_tables(m)[("copy-mode-vi"@, "C-Down"@)] == (false, None::<Seq<char>>, seq!["send-keys"@, "-X"@, "scroll-down"@]),
        default_key_tables(m).contains_key(("copy-mode-vi"@, "Home"@)),
        default_key_tables(m)[("copy-mode-vi"@, "Home"@)] == (false, None::<Seq<char>>, seq!["send-keys"@, "-X"@, "start-of-line"@]),
        default_key_tables(m).contains_key(("copy-mode-vi"@, "End"@)),
        default_key_tables(m)[("copy-mode-vi"@, "End"@)] == (false, None::<Seq<char>>, seq!["send-keys"@, "-X"@, "end-of-line"@]),
        default_key_tables(m).contains_key(("copy-mode-vi"@, "BSpace"@)),
        default_key_tables(m)[("copy-mode-vi"@, "BSpace"@)] == (false, None::<Seq<char>>, seq!["send-keys"@, "-X"@, "cursor-left"@]),
        default_key_tables(m).contains_key(("copy-mode-vi"@, "{"@)),
        default_key_tables(m)[("copy-mode-vi"@, "{"@)] == (false, None::<Seq<char>>, seq!["send-keys"@, "-X"@, "previous-paragraph"@]),
{
    reveal_strlit("A");
    reveal_strlit("BSpace");
    reveal_strlit("C-Down");
    reveal_strlit("C-M-b");
    reveal_strlit("C-M-f");
    reveal_strlit("C-j");
    reveal_strlit("C-k");
    reveal_strlit("C-w");
    reveal_strlit("D");
    reveal_strlit("DoubleClick1Pane");
    reveal_strlit("End");
    reveal_strlit("Home");
    reveal_strlit("Left");
    reveal_strlit("M-R");
    reveal_strlit("M-r");
    reveal_strlit("M-w");
    reveal_strlit("M-{");
    reveal_strlit("M-}");
    reveal_strlit("MouseDown1Pane");
    reveal_strlit("MouseDrag1Pane");
    reveal_strlit("MouseDragEnd1Pane");
    reveal_strlit("Right");
    reveal_strlit("TripleClick1Pane");
    reveal_strlit("WheelDownPane");
    reveal_strlit("WheelUpPane");
    reveal_strlit("copy-mode");
    reveal_strlit("copy-mode-vi");
    reveal_strlit("{");
    reveal_strlit("}");
    assert("A"@.len() == 1);
    assert("A"@[0] == 'A');
    assert("BSpace"@.len() == 6);
    assert("BSpace"@[0] == 'B');
    assert("BSpace"@[1] == 'S');
    assert("BSpace"@[2] == 'p');
    assert("C-Down"@.len() == 6);
    assert("C-Down"@[0] == 'C');
    assert("C-Down"@[1] == '-');
    assert("C-Down"@[2] == 'D');
    assert("C-j"@.len() == 3);
    assert("C-j"@[0] == 'C');
    assert("D"@.len() == 1);
    assert("D"@[0] == 'D');
    assert("DoubleClick1Pane"@.len() == 16);
    assert("End"@.len() == 3);
    assert("End"@[0] == 'E');
    assert("End"@[1] == 'n');
    assert("End"@[2] == 'd');
    assert("Home"@.len() == 4);
    assert("Home"@[0] == 'H');
    assert("Home"@[1] == 'o');
    assert("Home"@[2] == 'm');
    assert("MouseDown1Pane"@.len() == 14);
    assert("MouseDrag1Pane"@.len() == 14);
    assert("MouseDragEnd1Pane"@.len() == 17);
    assert("TripleClick1Pane"@.len() == 16);
    assert("WheelDownPane"@.len() == 13);
    assert("WheelUpPane"@.len() == 11);
    assert("copy-mode"@.len() == 9);
    assert("copy-mode-vi"@.len() == 12);
    assert("{"@.len() == 1);
    assert("{"@[0] == '{');
    assert("}"@.len() == 1);
    assert("}"@[0] == '}');
    let m0 = m;
    let m1 = default_bindings_1(m0);
    let m2 = default_bindings_2(m1);
    let m3 = default_bindings_3(m2);
    let m4 = default_bindings_4(m3);
    let m5 = default_bindings_5(m4);
    let m6 = default_bindings_6(m5);
    let m7 = default_bindings_7(m6);
    let m8 = default_bindings_8(m7);
    let m9 = default_bindings_9(m8);
    let m10 = default_bindings_10(m9);
    let m11 = default_bindings_11(m10);
    let m12 = default_bindings_12(m11);
    let m13 = default_bindings_13(m12);
    let m14 = default_bindings_14(m13);
    let m15 = default_bindings_15(m14);
    let m16 = default_bindings_16(m15);
    let m17 = default_bindings_17(m16);
    let m18 = default_bindings_18(m17);
    let m19 = default_bindings_19(m18);
    let m20 = default_bindings_20(m19);
    let m21 = default_bindings_21(m20);
    let m22 = default_bindings_22(m21);
    let m23 = default_bindings_23(m22);
    let m24 = default_bindings_24(m23);
    let m25 = default_bindings_25(m24);
    let m26 = default_bindings_26(m25);
    let m27 = default_bindings_27(m26);
    let m28 = default_bindings_28(m27);
    let m29 = default_bindings_29(m28);
    let m30 = default_bindings_30(m29);
    let m31 = default_bindings_31(m30);
    let m32 = default_bindings_32(m31);
    let m33 = default_bindings_33(m32);
    let m34 = default_bindings_34(m33);
    let m35 = default_bindings_35(m34);
    lemma_part_30(m29);
    lemma_pass_31(m30, ("copy-mode-vi"@, "C-Down"@));
    lemma_pass_31(m30, ("copy-mode-vi"@, "Home"@));
    lemma_pass_31(m30, ("copy-mode-vi"@, "End"@));
    lemma_pass_31(m30, ("copy-mode-vi"@, "BSpace"@));
    lemma_pass_31(m30, ("copy-mode-vi"@, "{"@));
    lemma_pass_32(m31, ("copy-mode-vi"@, "C-Down"@));
    lemma_pass_32(m31, ("copy-mode-vi"@, "Home"@));
    lemma_pass_32(m31, ("copy-mode-vi"@, "End"@));
    lemma_pass_32(m31, ("copy-mode-vi"@, "BSpace"@));
    lemma_pass_32(m31, ("copy-mode-vi"@, "{"@));
    lemma_pass_33(m32, ("copy-mode-vi"@, "C-Down"@));
    lemma_pass_33(m32, ("copy-mode-vi"@, "Home"@));
    lemma_pass_33(m32, ("copy-mode-vi"@, "End"@));
    lemma_pass_33(m32, ("copy-mode-vi"@, "BSpace"@));
    lemma_pass_33(m32, ("copy-mode-vi"@, "{"@));
    lemma_pass_34(m33, ("copy-mode-vi"@, "C-Down"@));
    lemma_pass_34(m33, ("copy-mode-vi"@, "Home"@));
    lemma_pass_34(m33, ("copy-mode-vi"@, "End"@));
    lemma_pass_34(m33, ("copy-mode-vi"@, "BSpace"@));
    lemma_pass_34(m33, ("copy-mode-vi"@, "{"@));
    lemma_pass_35(m34, ("copy-mode-vi"@, "C-Down"@));
    lemma_pass_35(m34, ("copy-mode-vi"@, "Home"@));
    lemma_pass_35(m34, ("copy-mode-vi"@, "End"@));
    lemma_pass_35(m34, ("copy-mode-vi"@, "BSpace"@));
    lemma_pass_35(m34, ("copy-mode-vi"@, "{"@));
    assert(table_defaults(m) == m35);
    lemma_digit_bindings(m35, 10);
    lemma_not_digit_key(("copy-mode-vi"@, "C-Down"@));
    lemma_not_digit_key(("copy-mode-vi"@, "Home"@));
    lemma_not_digit_key(("copy-mode-vi"@, "End"@));
    lemma_not_digit_key(("copy-mode-vi"@, "BSpace"@));
    lemma_not_digit_key(("copy-mode-vi"@, "{"@));
}

/// Default bindings: `}` in `copy-mode-vi` runs `send-keys -X next-paragraph`; `C-j` in `copy-mode-vi` runs `send-keys -X copy-pipe-and-cancel`; `D` in `copy-mode-vi` runs `send-keys -X copy-pipe-end-of-line-and-cancel`; `A` in `copy-mode-vi` runs `send-keys -X append-selection-and-cancel`; `Left` in `copy-mode` runs `send-keys -X cursor-left`.
pub proof fn lemma_defaults_31(m: Map<(Seq<char>, Seq<char>), BindingView>)
    ensures
        default_key_tables(m).contains_key(("copy-mode-vi"@, "}"@)),
        default_key_tables(m)[("copy-mode-vi"@, "}"@)] == (false, None::<Seq<char>>, seq!["send-keys"@, "-X"@, "next-paragraph"@]),
        default_key_tables(m).contains_key(("copy-mode-vi"@, "C-j"@)),
        default_key_tables(m)[("copy-mode-vi"@, "C-j"@)] == (false, None::<Seq<char>>, seq!["send-keys"@, "-X"@, "copy-pipe-and-cancel"@]),
        default_key_tables(m).contains_key(("copy-mode-vi"@, "D"@)),
        default_key_tables(m)[("copy-mode-vi"@, "D"@)] == (false, None::<Seq<char>>, seq!["send-keys"@, "-X"@, "copy-pipe-end-of-line-and-cancel"@]),
        default_key_tables(m).contains_key(("copy-mode-vi"@, "A"@)),
        default_key_tables(m)[("copy-mode-vi"@, "A"@)] == (false, None::<Seq<char>>, seq!["send-keys"@, "-X"@, "append-selection-and-cancel"@]),
        default_key_tables(m).contains_key(("copy-mode"@, "Left"@)),
        default_key_tables(m)[("copy-mode"@, "Left"@)] == (false, None::<Seq<char>>, seq!["send-keys"@, "-X"@, "cursor-left"@]),
{
    reveal_strlit("A");
    reveal_strlit("C-M-b");
    reveal_strlit("C-M-f");
    reveal_strlit("C-j");
    reveal_strlit("C-k");
    reveal_strlit("C-w");
    reveal_strlit("D");
    reveal_strlit("DoubleClick1Pane");
    reveal_strlit("Left");
    reveal_strlit("M-R");
    reveal_strlit("M-r");
    reveal_strlit("M-w");
    reveal_strlit("M-{");
    reveal_strlit("M-}");
    reveal_strlit("MouseDown1Pane");
    reveal_strlit("MouseDrag1Pane");
    reveal_strlit("MouseDragEnd1Pane");
    reveal_strlit("Right");
    reveal_strlit("TripleClick1Pane");
    reveal_strlit("WheelDownPane");
    reveal_strlit("WheelUpPane");
    reveal_strlit("copy-mode");
    reveal_strlit("copy-mode-vi");
    reveal_strlit("}");
    assert("A"@.len() == 1);
    assert("A"@[0] == 'A');
    assert("C-M-b"@.len() == 5);
    assert("C-M-f"@.len() == 5);
    assert("C-j"@.len() == 3);
    assert("C-j"@[0] == 'C');
    assert("C-j"@[1] == '-');
    assert("C-j"@[2] == 'j');
    assert("C-k"@.len() == 3);
    assert("C-w"@.len() == 3);
    assert("D"@.len() == 1);
    assert("D"@[0] == 'D');
    assert("DoubleClick1Pane"@.len() == 16);
    assert("Left"@.len() == 4);
    assert("Left"@[0] == 'L');
    assert("Left"@[1] == 'e');
    assert("Left"@[2] == 'f');
    assert("M-R"@.len() == 3);
    assert("M-r"@.len() == 3);
    assert("M-w"@.len() == 3);
    assert("M-{"@.len() == 3);
    assert("M-}"@.len() == 3);
    assert("MouseDown1Pane"@.len() == 14);
    assert("MouseDrag1Pane"@.len() == 14);
    assert("MouseDragEnd1Pane"@.len() == 17);
    assert("Right"@.len() == 5);
    assert("TripleClick1Pane"@.len() == 16);
    assert("WheelDownPane"@.len() == 13);
    assert("WheelUpPane"@.len() == 11);
    assert("copy-mode"@.len() == 9);
    assert("copy-mode-vi"@.len() == 12);
    assert("}"@.len() == 1);
    assert("}"@[0] == '}');
    let m0 = m;
    let m1 = default_bindings_1(m0);
    let m2 = default_bindings_2(m1);
    let m3 = default_bindings_3(m2);
    let m4 = default_bindings_4(m3);
    let m5 = default_bindings_5(m4);
    let m6 = default_bindings_6(m5);
    let m7 = default_bindings_7(m6);
    let m8 = default_bindings_8(m7);
    let m9 = default_bindings_9(m8);
    let m10 = default_bindings_10(m9);
    let m11 = default_bindings_11(m10);
    let m12 = default_bindings_12(m11);
    let m13 = default_bindings_13(m12);
    let m14 = default_bindings_14(m13);
    let m15 = default_bindings_15(m14);
    let m16 = default_bindings_16(m15);
    let m17 = default_bindings_17(m16);
    let m18 = default_bindings_18(m17);
    let m19 = default_bindings_19(m18);
    let m20 = default_bindings_20(m19);
    let m21 = default_bindings_21(m20);
    let m22 = default_bindings_22(m21);
    let m23 = default_bindings_23(m22);
    let m24 = default_bindings_24(m23);
    let m25 = default_bindings_25(m24);
    let m26 = default_bindings_26(m25);
    let m27 = default_bindings_27(m26);
    let m28 = default_bindings_28(m27);
    let m29 = default_bindings_29(m28);
    let m30 = default_bindings_30(m29);
    let m31 = default_bindings_31(m30);
    let m32 = default_bindings_32(m31);
    let m33 = default_bindings_33(m32);
    let m34 = default_bindings_34(m33);
    let m35 = default_bindings_35(m34);
    lemma_part_31(m30);
    lemma_pass_32(m31, ("copy-mode-vi"@, "}"@));
    lemma_pass_32(m31, ("copy-mode-vi"@, "C-j"@));
    lemma_pass_32(m31, ("copy-mode-vi"@, "D"@));
    lemma_pass_32(m31, ("copy-mode-vi"@, "A"@));
    lemma_pass_32(m31, ("copy-mode"@, "Left"@));
    lemma_pass_33(m32, ("copy-mode-vi"@, "}"@));
    lemma_pass_33(m32, ("copy-mode-vi"@, "C-j"@));
    lemma_pass_33(m32, ("copy-mode-vi"@, "D"@));
    lemma_pass_33(m32, ("copy-mode-vi"@, "A"@));
    lemma_pass_33(m32, ("copy-mode"@, "Left"@));
    lemma_pass_34(m33, ("copy-mode-vi"@, "}"@));
    lemma_pass_34(m33, ("copy-mode-vi"@, "C-j"@));
    lemma_pass_34(m33, ("copy-mode-vi"@, "D"@));
    lemma_pass_34(m33, ("copy-mode-vi"@, "A"@));
    lemma_pass_34(m33, ("copy-mode"@, "Left"@));
    lemma_pass_35(m34, ("copy-mode-vi"@, "}"@));
    lemma_pass_35(m34, ("copy-mode-vi"@, "C-j"@));
    lemma_pass_35(m34, ("copy-mode-vi"@, "D"@));
    lemma_pass_35(m34, ("copy-mode-vi"@, "A"@));
    lemma_pass_35(m34, ("copy-mode"@, "Left"@));
    assert(table_defaults(m) == m35);
    lemma_digit_bindings(m35, 10);
    lemma_not_digit_key(("copy-mode-vi"@, "}"@));
    lemma_not_digit_key(("copy-mode-vi"@, "C-j"@));
    lemma_not_digit_key(("copy-mode-vi"@, "D"@));
    lemma_not_digit_key(("copy-mode-vi"@, "A"@));
    lemma_not_digit_key(("copy-mode"@, "Left"@));
}

/// Default bindings: `Right` in `copy-mode` runs `send-keys -X cursor-right`; `M-R` in `copy-mode` runs `send-keys -X top-line`; `M-r` in `copy-mode` runs `send-keys -X middle-line`; `C-M-b` in `copy-mode` runs `send-keys -X previous-matching-bracket`; `C-M-f` in `copy-mode` runs `send-keys -X next-matching-bracket`.
pub proof fn lemma_defaults_32(m: Map<(Seq<char>, Seq<char>), BindingView>)
    ensures
        default_key_tables(m).contains_key(("copy-mode"@, "Right"@)),
        default_key_tables(m)[("copy-mode"@, "Right"@)] == (false, None::<Seq<char>>, seq!["send-keys"@, "-X"@, "cursor-right"@]),
        default_key_tables(m).contains_key(("copy-mode"@, "M-R"@)),
        default_key_tables(m)[("copy-mode"@, "M-R"@)] == (false, None::<Seq<char>>, seq!["send-keys"@, "-X"@, "top-line"@]),
        default_key_tables(m).contains_key(("copy-mode"@, "M-r"@)),
        default_key_tables(m)[("copy-mode"@, "M-r"@)] == (false, None::<Seq<char>>, seq!["send-keys"@, "-X"@, "middle-line"@]),
        default_key_tables(m).contains_key(("copy-mode"@, "C-M-b"@)),
        default_key_tables(m)[("copy-mode"@, "C-M-b"@)] == (false, None::<Seq<char>>, seq!["send-keys"@, "-X"@, "previous-matching-bracket"@]),
        default_key_tables(m).contains_key(("copy-mode"@, "C-M-f"@)),
        default_key_tables(m)[("copy-mode"@, "C-M-f"@)] == (false, None::<Seq<char>>, seq!["send-keys"@, "-X"@, "next-matching-bracket"@]),
{
    reveal_strlit("C-M-b");
    reveal_strlit("C-M-f");
    reveal_strlit("C-k");
    reveal_strlit("C-w");
    reveal_strlit("DoubleClick1Pane");
    reveal_strlit("M-R");
    reveal_strlit("M-r");
    reveal_strlit("M-w");
    reveal_strlit("M-{");
    reveal_strlit("M-}");
    reveal_strlit("MouseDown1Pane");
    reveal_strlit("MouseDrag1Pane");
    reveal_strlit("MouseDragEnd1Pane");
    reveal_strlit("Right");
    reveal_strlit("TripleClick1Pane");
    reveal_strlit("WheelDownPane");
    reveal_strlit("WheelUpPane");
    reveal_strlit("copy-mode");
    reveal_strlit("copy-mode-vi");
    assert("C-M-b"@.len() == 5);
    assert("C-M-b"@[0] == 'C');
    assert("C-M-b"@[1] == '-');
    assert("C-M-b"@[2] == 'M');
    assert("C-M-f"@.len() == 5);
    assert("C-M-f"@[0] == 'C');
    assert("C-M-f"@[1] == '-');
    assert("C-M-f"@[2] == 'M');
    assert("C-k"@.len() == 3);
    assert("C-k"@[0] == 'C');
    assert("C-w"@.len() == 3);
    assert("C-w"@[0] == 'C');
    assert("M-R"@.len() == 3);
    assert("M-R"@[0] == 'M');
    assert("M-R"@[1] == '-');
    assert("M-R"@[2] == 'R');
    assert("M-r"@.len() == 3);
    assert("M-r"@[0] == 'M');
    assert("M-r"@[1] == '-');
    assert("M-r"@[2] == 'r');
    assert("M-w"@.len() == 3);
    assert("M-w"@[2] == 'w');
    assert("M-{"@.len() == 3);
    assert("M-{"@[2] == '{');
    assert("M-}"@.len() == 3);
    assert("M-}"@[2] == '}');
    assert("Right"@.len() == 5);
    assert("Right"@[0] == 'R');
    assert("Right"@[1] == 'i');
    assert("Right"@[2] == 'g');
    assert("copy-mode"@.len() == 9);
    assert("copy-mode-vi"@.len() == 12);
    let m0 = m;
    let m1 = default_bindings_1(m0);
    let m2 = default_bindings_2(m1);
    let m3 = default_bindings_3(m2);
    let m4 = default_bindings_4(m3);
    let m5 = default_bindings_5(m4);
    let m6 = default_bindings_6(m5);
    let m7 = default_bindings_7(m6);
    let m8 = default_bindings_8(m7);
    let m9 = default_bindings_9(m8);
    let m10 = default_bindings_10(m9);
    let m11 = default_bindings_11(m10);
    let m12 = default_bindings_12(m11);
    let m13 = default_bindings_13(m12);
    let m14 = default_bindings_14(m13);
    let m15 = default_bindings_15(m14);
    let m16 = default_bindings_16(m15);
    let m17 = default_bindings_17(m16);
    let m18 = default_bindings_18(m17);
    let m19 = default_bindings_19(m18);
    let m20 = default_bindings_20(m19);
    let m21 = default_bindings_21(m20);
    let m22 = default_bindings_22(m21);
    let m23 = default_bindings_23(m22);
    let m24 = default_bindings_24(m23);
    let m25 = default_bindings_25(m24);
    let m26 = default_bindings_26(m25);
    let m27 = default_bindings_27(m26);
    let m28 = default_bindings_28(m27);
    let m29 = default_bindings_29(m28);
    let m30 = default_bindings_30(m29);
    let m31 = default_bindings_31(m30);
    let m32 = default_bindings_32(m31);
    let m33 = default_bindings_33(m32);
    let m34 = default_bindings_34(m33);
    let m35 = default_bindings_35(m34);
    lemma_part_32(m31);
    lemma_pass_33(m32, ("copy-mode"@, "Right"@));
    lemma_pass_33(m32, ("copy-mode"@, "M-R"@));
    lemma_pass_33(m32, ("copy-mode"@, "M-r"@));
    lemma_pass_33(m32, ("copy-mode"@, "C-M-b"@));
    lemma_pass_33(m32, ("copy-mode"@, "C-M-f"@));
    lemma_pass_34(m33, ("copy-mode"@, "Right"@));
    lemma_pass_34(m33, ("copy-mode"@, "M-R"@));
    lemma_pass_34(m33, ("copy-mode"@, "M-r"@));
    lemma_pass_34(m33, ("copy-mode"@, "C-M-b"@));
    lemma_pass_34(m33, ("copy-mode"@, "C-M-f"@));
    lemma_pass_35(m34, ("copy-mode"@, "Right"@));
    lemma_pass_35(m34, ("copy-mode"@, "M-R"@));
    lemma_pass_35(m34, ("copy-mode"@, "M-r"@));
    lemma_pass_35(m34, ("copy-mode"@, "C-M-b"@));
    lemma_pass_35(m34, ("copy-mode"@, "C-M-f"@));
    assert(table_defaults(m) == m35);
    lemma_digit_bindings(m35, 10);
    lemma_not_digit_key(("copy-mode"@, "Right"@));
    lemma_not_digit_key(("copy-mode"@, "M-R"@));
    lemma_not_digit_key(("copy-mode"@, "M-r"@));
    lemma_not_digit_key(("copy-mode"@, "C-M-b"@));
    lemma_not_digit_key(("copy-mode"@, "C-M-f"@));
}

/// Default bindings: `M-{` in `copy-mode` runs `send-keys -X previous-paragraph`; `M-}` in `copy-mode` runs `send-keys -X next-paragraph`; `C-k` in `copy-mode` runs `send-keys -X copy-pipe-end-of-line-and-cancel`; `C-w` in `copy-mode` runs `send-keys -X copy-pipe-and-cancel`; `M-w` in `copy-mode` runs `send-keys -X copy-pipe-and-cancel`.
pub proof fn lemma_defaults_33(m: Map<(Seq<char>, Seq<char>), BindingView>)
    ensures
        default_key_tables(m).contains_key(("copy-mode"@, "M-{"@)),
        default_key_tables(m)[("copy-mode"@, "M-{"@)] == (false, None::<Seq<char>>, seq!["send-keys"@, "-X"@, "previous-paragraph"@]),
        default_key_tables(m).contains_key(("copy-mode"@, "M-}"@)),
        default_key_tables(m)[("copy-mode"@, "M-}"@)] == (false, None::<Seq<char>>, seq!["send-keys"@, "-X"@, "next-paragraph"@]),
        default_key_tables(m).contains_key(("copy-mode"@, "C-k"@)),
        default_key_tables(m)[("copy-mode"@, "C-k"@)] == (false, None::<Seq<char>>, seq!["send-keys"@, "-X"@, "copy-pipe-end-of-line-and-cancel"@]),
        default_key_tables(m).contains_key(("copy-mode"@, "C-w"@)),
        default_key_tables(m)[("copy-mode"@, "C-w"@)] == (false, None::<Seq<char>>, seq!["send-keys"@, "-X"@, "copy-pipe-and-cancel"@]),
        default_key_tables(m).contains_key(("copy-mode"@, "M-w"@)),
        default_key_tables(m)[("copy-mode"@, "M-w"@)] == (false, None::<Seq<char>>, seq!["send-keys"@, "-X"@, "copy-pipe-and-cancel"@]),
{
    reveal_strlit("C-k");
    reveal_strlit("C-w");
    reveal_strlit("DoubleClick1Pane");
    reveal_strlit("M-w");
    reveal_strlit("M-{");
    reveal_strlit("M-}");
    reveal_strlit("MouseDown1Pane");
    reveal_strlit("MouseDrag1Pane");
    reveal_strlit("MouseDragEnd1Pane");
    reveal_strlit("TripleClick1Pane");
    reveal_strlit("WheelDownPane");
    reveal_strlit("WheelUpPane");
    reveal_strlit("copy-mode");
    reveal_strlit("copy-mode-vi");
    assert("C-k"@.len() == 3);
    assert("C-k"@[0] == 'C');
    assert("C-k"@[1] == '-');
    assert("C-k"@[2] == 'k');
    assert("C-w"@.len() == 3);
    assert("C-w"@[0] == 'C');
    assert("C-w"@[1] == '-');
    assert("C-w"@[2] == 'w');
    assert("M-w"@.len() == 3);
    assert("M-w"@[0] == 'M');
    assert("M-w"@[1] == '-');
    assert("M-w"@[2] == 'w');
    assert("M-{"@.len() == 3);
    assert("M-{"@[0] == 'M');
    assert("M-{"@[1] == '-');
    assert("M-{"@[2] == '{');
    assert("M-}"@.len() == 3);
    assert("M-}"@[0] == 'M');
    assert("M-}"@[1] == '-');
    assert("M-}"@[2] == '}');
    assert("copy-mode"@.len() == 9);
    assert("copy-mode-vi"@.len() == 12);
    let m0 = m;
    let m1 = default_bindings_1(m0);
    let m2 = default_bindings_2(m1);
    let m3 = default_bindings_3(m2);
    let m4 = default_bindings_4(m3);
    let m5 = default_bindings_5(m4);
    let m6 = default_bindings_6(m5);
    let m7 = default_bindings_7(m6);
    let m8 = default_bindings_8(m7);
    let m9 = default_bindings_9(m8);
    let m10 = default_bindings_10(m9);
    let m11 = default_bindings_11(m10);
    let m12 = default_bindings_12(m11);
    let m13 = default_bindings_13(m12);
    let m14 = default_bindings_14(m13);
    let m15 = default_bindings_15(m14);
    let m16 = default_bindings_16(m15);
    let m17 = default_bindings_17(m16);
    let m18 = default_bindings_18(m17);
    let m19 = default_bindings_19(m18);
    let m20 = default_bindings_20(m19);
    let m21 = default_bindings_21(m20);
    let m22 = default_bindings_22(m21);
    let m23 = default_bindings_23(m22);
    let m24 = default_bindings_24(m23);
    let m25 = default_bindings_25(m24);
    let m26 = default_bindings_26(m25);
    let m27 = default_bindings_27(m26);
    let m28 = default_bindings_28(m27);
    let m29 = default_bindings_29(m28);
    let m30 = default_bindings_30(m29);
    let m31 = default_bindings_31(m30);
    let m32 = default_bindings_32(m31);
    let m33 = default_bindings_33(m32);
    let m34 = default_bindings_34(m33);
    let m35 = default_bindings_35(m34);
    lemma_part_33(m32);
    lemma_pass_34(m33, ("copy-mode"@, "M-{"@));
    lemma_pass_34(m33, ("copy-mode"@, "M-}"@));
    lemma_pass_34(m33, ("copy-mode"@, "C-k"@));
    lemma_pass_34(m33, ("copy-mode"@, "C-w"@));
    lemma_pass_34(m33, ("copy-mode"@, "M-w"@));
    lemma_pass_35(m34, ("copy-mode"@, "M-{"@));
    lemma_pass_35(m34, ("copy-mode"@, "M-}"@));
    lemma_pass_35(m34, ("copy-mode"@, "C-k"@));
    lemma_pass_35(m34, ("copy-mode"@, "C-w"@));
    lemma_pass_35(m34, ("copy-mode"@, "M-w"@));
    assert(table_defaults(m) == m35);
    lemma_digit_bindings(m35, 10);
    lemma_not_digit_key(("copy-mode"@, "M-{"@));
    lemma_not_digit_key(("copy-mode"@, "M-}"@));
    lemma_not_digit_key(("copy-mode"@, "C-k"@));
    lemma_not_digit_key(("copy-mode"@, "C-w"@));
    lemma_not_digit_key(("copy-mode"@, "M-w"@));
}

/// Default bindings: `MouseDrag1Pane` in `copy-mode-vi` runs `select-pane ; send-keys -X begin-selection`; `MouseDown1Pane` in `copy-mode-vi` runs `select-pane`; `DoubleClick1Pane` in `copy-mode-vi` runs `select-pane ; send-keys -X select-word ; run-shell -d 0.3 ; send-keys -X copy-pipe-and-cancel`; `TripleClick1Pane` in `copy-mode-vi` runs `select-pane ; send-keys -X select-line ; run-shell -d 0.3 ; send-keys -X copy-pipe-and-cancel`; `MouseDragEnd1Pane` in `copy-mode-vi` runs `send-keys -X copy-pipe-and-cancel`.
pub proof fn lemma_defaults_34(m: Map<(Seq<char>, Seq<char>), BindingView>)
    ensures
        default_key_tables(m).contains_key(("copy-mode-vi"@, "MouseDrag1Pane"@)),
        default_key_tables(m)[("copy-mode-vi"@, "MouseDrag1Pane"@)] == (false, None::<Seq<char>>, seq!["select-pane"@, ";"@, "send-keys"@, "-X"@, "begin-selection"@]),
        default_key_tables(m).contains_key(("copy-mode-vi"@, "MouseDown1Pane"@)),
        default_key_tables(m)[("copy-mode-vi"@, "MouseDown1Pane"@)] == (false, None::<Seq<char>>, seq!["select-pane"@]),
        default_key_tables(m).contains_key(("copy-mode-vi"@, "DoubleClick1Pane"@)),
        default_key_tables(m)[("copy-mode-vi"@, "DoubleClick1Pane"@)] == (false, None::<Seq<char>>, seq!["select-pane"@, ";"@, "send-keys"@, "-X"@, "select-word"@, ";"@, "run-shell"@, "-d"@, "0.3"@, ";"@, "send-keys"@, "-X"@, "copy-pipe-and-cancel"@]),
        default_key_tables(m).contains_key(("copy-mode-vi"@, "TripleClick1Pane"@)),
        default_key_tables(m)[("copy-mode-vi"@, "TripleClick1Pane"@)] == (false, None::<Seq<char>>, seq!["select-pane"@, ";"@, "send-keys"@, "-X"@, "select-line"@, ";"@, "run-shell"@, "-d"@, "0.3"@, ";"@, "send-keys"@, "-X"@, "copy-pipe-and-cancel"@]),
        default_key_tables(m).contains_key(("copy-mode-vi"@, "MouseDragEnd1Pane"@)),
        default_key_tables(m)[("copy-mode-vi"@, "MouseDragEnd1Pane"@)] == (false, None::<Seq<char>>, seq!["send-keys"@, "-X"@, "copy-pipe-and-cancel"@]),
{
    reveal_strlit("DoubleClick1Pane");
    reveal_strlit("MouseDown1Pane");
    reveal_strlit("MouseDrag1Pane");
    reveal_strlit("MouseDragEnd1Pane");
    reveal_strlit("TripleClick1Pane");
    reveal_strlit("WheelDownPane");
    reveal_strlit("WheelUpPane");
    reveal_strlit("copy-mode-vi");
    assert("DoubleClick1Pane"@.len() == 16);
    assert("DoubleClick1Pane"@[0] == 'D');
    assert("DoubleClick1Pane"@[1] == 'o');
    assert("DoubleClick1Pane"@[2] == 'u');
    assert("MouseDown1Pane"@.len() == 14);
    assert("MouseDown1Pane"@[0] == 'M');
    assert("MouseDown1Pane"@[1] == 'o');
    assert("MouseDown1Pane"@[2] == 'u');
    assert("MouseDrag1Pane"@.len() == 14);
    assert("MouseDrag1Pane"@[0] == 'M');
    assert("MouseDrag1Pane"@[1] == 'o');
    assert("MouseDrag1Pane"@[2] == 'u');
    assert("MouseDragEnd1Pane"@.len() == 17);
    assert("MouseDragEnd1Pane"@[0] == 'M');
    assert("MouseDragEnd1Pane"@[1] == 'o');
    assert("MouseDragEnd1Pane"@[2] == 'u');
    assert("TripleClick1Pane"@.len() == 16);
    assert("TripleClick1Pane"@[0] == 'T');
    assert("TripleClick1Pane"@[1] == 'r');
    assert("TripleClick1Pane"@[2] == 'i');
    assert("WheelDownPane"@.len() == 13);
    assert("WheelUpPane"@.len() == 11);
    assert("copy-mode-vi"@.len() == 12);
    let m0 = m;
    let m1 = default_bindings_1(m0);
    let m2 = default_bindings_2(m1);
    let m3 = default_bindings_3(m2);
    let m4 = default_bindings_4(m3);
    let m5 = default_bindings_5(m4);
    let m6 = default_bindings_6(m5);
    let m7 = default_bindings_7(m6);
    let m8 = default_bindings_8(m7);
    let m9 = default_bindings_9(m8);
    let m10 = default_bindings_10(m9);
    let m11 = default_bindings_11(m10);
    let m12 = default_bindings_12(m11);
    let m13 = default_bindings_13(m12);
    let m14 = default_bindings_14(m13);
    let m15 = default_bindings_15(m14);
    let m16 = default_bindings_16(m15);
    let m17 = default_bindings_17(m16);
    let m18 = default_bindings_18(m17);
    let m19 = default_bindings_19(m18);
    let m20 = default_bindings_20(m19);
    let m21 = default_bindings_21(m20);
    let m22 = default_bindings_22(m21);
    let m23 = default_bindings_23(m22);
    let m24 = default_bindings_24(m23);
    let m25 = default_bindings_25(m24);
    let m26 = default_bindings_26(m25);
    let m27 = default_bindings_27(m26);
    let m28 = default_bindings_28(m27);
    let m29 = default_bindings_29(m28);
    let m30 = default_bindings_30(m29);
    let m31 = default_bindings_31(m30);
    let m32 = default_bindings_32(m31);
    let m33 = default_bindings_33(m32);
    let m34 = default_bindings_34(m33);
    let m35 = default_bindings_35(m34);
    lemma_part_34(m33);
    lemma_pass_35(m34, ("copy-mode-vi"@, "MouseDrag1Pane"@));
    lemma_pass_35(m34, ("copy-mode-vi"@, "MouseDown1Pane"@));
    lemma_pass_35(m34, ("copy-mode-vi"@, "DoubleClick1Pane"@));
    lemma_pass_35(m34, ("copy-mode-vi"@, "TripleClick1Pane"@));
    lemma_pass_35(m34, ("copy-mode-vi"@, "MouseDragEnd1Pane"@));
    assert(table_defaults(m) == m35);
    lemma_digit_bindings(m35, 10);
    lemma_not_digit_key(("copy-mode-vi"@, "MouseDrag1Pane"@));
    lemma_not_digit_key(("copy-mode-vi"@, "MouseDown1Pane"@));
    lemma_not_digit_key(("copy-mode-vi"@, "DoubleClick1Pane"@));
    lemma_not_digit_key(("copy-mode-vi"@, "TripleClick1Pane"@));
    lemma_not_digit_key(("copy-mode-vi"@, "MouseDragEnd1Pane"@));
}

/// Default bindings: `WheelUpPane` in `copy-mode-vi` runs `select-pane ; send-keys -N5 -X scroll-up`; `WheelDownPane` in `copy-mode-vi` runs `select-pane ; send-keys -N5 -X scroll-down`.
pub proof fn lemma_defaults_35(m: Map<(Seq<char>, Seq<char>), BindingView>)
    ensures
        default_key_tables(m).contains_key(("copy-mode-vi"@, "WheelUpPane"@)),
        default_key_tables(m)[("copy-mode-vi"@, "WheelUpPane"@)] == (false, None::<Seq<char>>, seq!["select-pane"@, ";"@, "send-keys"@, "-N5"@, "-X"@, "scroll-up"@]),
        default_key_tables(m).contains_key(("copy-mode-vi"@, "WheelDownPane"@)),
        default_key_tables(m)[("copy-mode-vi"@, "WheelDownPane"@)] == (false, None::<Seq<char>>, seq!["select-pane"@, ";"@, "send-keys"@, "-N5"@, "-X"@, "scroll-down"@]),
{
    reveal_strlit("WheelDownPane");
    reveal_strlit("WheelUpPane");
    reveal_strlit("copy-mode-vi");
    assert("WheelDownPane"@.len() == 13);
    assert("WheelDownPane"@[0] == 'W');
    assert("WheelDownPane"@[1] == 'h');
    assert("WheelDownPane"@[2] == 'e');
    assert("WheelUpPane"@.len() == 11);
    assert("WheelUpPane"@[0] == 'W');
    assert("WheelUpPane"@[1] == 'h');
    assert("WheelUpPane"@[2] == 'e');
    assert("copy-mode-vi"@.len() == 12);
    let m0 = m;
    let m1 = default_bindings_1(m0);
    let m2 = default_bindings_2(m1);
    let m3 = default_bindings_3(m2);
    let m4 = default_bindings_4(m3);
    let m5 = default_bindings_5(m4);
    let m6 = default_bindings_6(m5);
    let m7 = default_bindings_7(m6);
    let m8 = default_bindings_8(m7);
    let m9 = default_bindings_9(m8);
    let m10 = default_bindings_10(m9);
    let m11 = default_bindings_11(m10);
    let m12 = default_bindings_12(m11);
    let m13 = default_bindings_13(m12);
    let m14 = default_bindings_14(m13);
    let m15 = default_bindings_15(m14);
    let m16 = default_bindings_16(m15);
    let m17 = default_bindings_17(m16);
    let m18 = default_bindings_18(m17);
    let m19 = default_bindings_19(m18);
    let m20 = default_bindings_20(m19);
    let m21 = default_bindings_21(m20);
    let m22 = default_bindings_22(m21);
    let m23 = default_bindings_23(m22);
    let m24 = default_bindings_24(m23);
    let m25 = default_bindings_25(m24);
    let m26 = default_bindings_26(m25);
    let m27 = default_bindings_27(m26);
    let m28 = default_bindings_28(m27);
    let m29 = default_bindings_29(m28);
    let m30 = default_bindings_30(m29);
    let m31 = default_bindings_31(m30);
    let m32 = default_bindings_32(m31);
    let m33 = default_bindings_33(m32);
    let m34 = default_bindings_34(m33);
    let m35 = default_bindings_35(m34);
    lemma_part_35(m34);
    assert(table_defaults(m) == m35);
    lemma_digit_bindings(m35, 10);
    lemma_not_digit_key(("copy-mode-vi"@, "WheelUpPane"@));
    lemma_not_digit_key(("copy-mode-vi"@, "WheelDownPane"@));
}

} // verus!
