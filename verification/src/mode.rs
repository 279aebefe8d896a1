use vstd::prelude::*;
use crate::text::push_text;

verus! {

/// Which generic window mode a pane shows.
#[derive(Clone, Copy, Debug, PartialEq, Eq, Structural)]
pub enum ModeKind {
    Tree,
    Client,
    Buffer,
    Customize,
    Clock,
}

/// What editing a mode item changes.
#[derive(Clone, Debug, PartialEq, Eq)]
pub enum ModeEdit {
    Option {
        name: String,
        value: String,
    },
    BindingCommand {
        table: String,
        key: String,
        value: String,
        note: Option<String>,
        repeat: bool,
    },
    BindingNote {
        table: String,
        key: String,
        value: String,
        command: Vec<String>,
        repeat: bool,
    },
}

/// One line of a mode's list.
#[derive(Clone, Debug, PartialEq, Eq)]
pub struct ModeItem {
    pub label: String,
    pub command: Vec<String>,
    pub prompt_target: Option<String>,
    pub edit: Option<ModeEdit>,
}

/// A generic window mode: a titled, filterable, searchable list.
#[derive(Clone, Debug, PartialEq, Eq)]
pub struct ModeView {
    pub kind: ModeKind,
    pub title: String,
    pub items: Vec<ModeItem>,
    pub all_items: Vec<ModeItem>,
    pub filter: String,
    pub search: String,
    pub selected: usize,
    pub scroll: usize,
}

/// The text an edit's prompt shows.
pub open spec fn edit_prompt(edit: ModeEdit) -> Seq<char> {
    match edit {
        ModeEdit::Option { name, .. } => "Set option "@ + name@ + ":"@,
        ModeEdit::BindingCommand { table, key, .. } => "Set command for "@ + table@ + " "@ + key@ + ":"@,
        ModeEdit::BindingNote { table, key, .. } => "Set note for "@ + table@ + " "@ + key@ + ":"@,
    }
}

/// The value an edit starts from.
pub open spec fn edit_value(edit: ModeEdit) -> Seq<char> {
    match edit {
        ModeEdit::Option { value, .. } => value@,
        ModeEdit::BindingCommand { value, .. } => value@,
        ModeEdit::BindingNote { value, .. } => value@,
    }
}

impl ModeEdit {
    /// The prompt shown while editing.
    pub fn prompt(&self) -> (text: String)
        ensures
            text@ == edit_prompt(*self),
    {
        let mut text = String::new();
        match self {
            ModeEdit::Option { name, .. } => {
                push_text(&mut text, "Set option ");
                push_text(&mut text, name.as_str());
                push_text(&mut text, ":");
            },
            ModeEdit::BindingCommand { table, key, .. } => {
                push_text(&mut text, "Set command for ");
                push_text(&mut text, table.as_str());
                push_text(&mut text, " ");
                push_text(&mut text, key.as_str());
                push_text(&mut text, ":");
            },
            ModeEdit::BindingNote { table, key, .. } => {
                push_text(&mut text, "Set note for ");
                push_text(&mut text, table.as_str());
                push_text(&mut text, " ");
                push_text(&mut text, key.as_str());
                push_text(&mut text, ":");
            },
        }
        text
    }

    /// The text the edit prompt starts with.
    pub fn initial(&self) -> (value: &str)
        ensures
            value@ == edit_value(*self),
    {
        match self {
            ModeEdit::Option { value, .. } => value.as_str(),
            ModeEdit::BindingCommand { value, .. } => value.as_str(),
            ModeEdit::BindingNote { value, .. } => value.as_str(),
        }
    }
}

/// The same text as a new string.
fn copy_text(s: &String) -> (copy: String)
    ensures
        copy == *s,
{
    s.clone()
}

/// The same optional text as a new value.
fn copy_optional_text(s: &Option<String>) -> (copy: Option<String>)
    ensures
        copy == *s,
{
    match s {
        Some(t) => Some(copy_text(t)),
        None => None,
    }
}

/// The same words as a new vector.
fn copy_words(words: &Vec<String>) -> (copy: Vec<String>)
    ensures
        copy@ == words@,
{
    let mut copy: Vec<String> = Vec::new();
    let mut i: usize = 0;
    while i < words.len()
        invariant
            i <= words@.len(),
            copy@ == words@.take(i as int),
        decreases words.len() - i,
    {
        copy.push(copy_text(&words[i]));
        proof {
            assert(words@.take(i + 1) =~= words@.take(i as int).push(words@[i as int]));
        }
        i += 1;
    }
    proof {
        assert(words@.take(i as int) =~= words@);
    }
    copy
}

/// `a` and `b` hold the same edit.
pub open spec fn same_edit(a: ModeEdit, b: ModeEdit) -> bool {
    match (a, b) {
        (ModeEdit::Option { name: n1, value: v1 }, ModeEdit::Option { name: n2, value: v2 }) => n1 == n2 && v1 == v2,
        (
            ModeEdit::BindingCommand { table: t1, key: k1, value: v1, note: o1, repeat: r1 },
            ModeEdit::BindingCommand { table: t2, key: k2, value: v2, note: o2, repeat: r2 },
        ) => t1 == t2 && k1 == k2 && v1 == v2 && o1 == o2 && r1 == r2,
        (
            ModeEdit::BindingNote { table: t1, key: k1, value: v1, command: c1, repeat: r1 },
            ModeEdit::BindingNote { table: t2, key: k2, value: v2, command: c2, repeat: r2 },
        ) => t1 == t2 && k1 == k2 && v1 == v2 && c1@ == c2@ && r1 == r2,
        _ => false,
    }
}

/// `a` and `b` hold the same item.
pub open spec fn same_item(a: ModeItem, b: ModeItem) -> bool {
    &&& a.label == b.label
    &&& a.command@ == b.command@
    &&& a.prompt_target == b.prompt_target
    &&& match (a.edit, b.edit) {
        (Some(x), Some(y)) => same_edit(x, y),
        (None, None) => true,
        _ => false,
    }
}

/// `a` and `b` hold the same items in the same order.
pub open spec fn same_items(a: Seq<ModeItem>, b: Seq<ModeItem>) -> bool {
    a.len() == b.len() && forall|i: int| 0 <= i < a.len() ==> same_item(#[trigger] a[i], b[i])
}

/// The same edit as a new value.
fn copy_edit(edit: &ModeEdit) -> (copy: ModeEdit)
    ensures
        same_edit(copy, *edit),
{
    match edit {
        ModeEdit::Option { name, value } => ModeEdit::Option { name: copy_text(name), value: copy_text(value) },
        ModeEdit::BindingCommand { table, key, value, note, repeat } => ModeEdit::BindingCommand {
            table: copy_text(table),
            key: copy_text(key),
            value: copy_text(value),
            note: copy_optional_text(note),
            repeat: *repeat,
        },
        ModeEdit::BindingNote { table, key, value, command, repeat } => {
            let words = copy_words(command);
            proof {
                assert(words@ =~= command@);
            }
            ModeEdit::BindingNote {
                table: copy_text(table),
                key: copy_text(key),
                value: copy_text(value),
                command: words,
                repeat: *repeat,
            }
        },
    }
}

/// The same item as a new value.
fn copy_item(item: &ModeItem) -> (copy: ModeItem)
    ensures
        same_item(copy, *item),
{
    let edit = match &item.edit {
        Some(e) => Some(copy_edit(e)),
        None => None,
    };
    let command = copy_words(&item.command);
    proof {
        assert(command@ =~= item.command@);
    }
    ModeItem {
        label: copy_text(&item.label),
        command,
        prompt_target: copy_optional_text(&item.prompt_target),
        edit,
    }
}

/// The same items as a new vector.
fn copy_items(items: &Vec<ModeItem>) -> (copy: Vec<ModeItem>)
    ensures
        same_items(copy@, items@),
{
    let mut copy: Vec<ModeItem> = Vec::new();
    let mut i: usize = 0;
    while i < items.len()
        invariant
            i <= items@.len(),
            copy@.len() == i,
            forall|j: int| 0 <= j < i ==> same_item(#[trigger] copy@[j], items@[j]),
        decreases items.len() - i,
    {
        copy.push(copy_item(&items[i]));
        i += 1;
    }
    copy
}

/// Whether `edited` is an edit of the same thing `current` edits: the same
/// option, or the same key binding's command or note.
pub open spec fn edits_same(current: ModeEdit, edited: ModeEdit) -> bool {
    match (current, edited) {
        (ModeEdit::Option { name: n1, .. }, ModeEdit::Option { name: n2, .. }) => n1@ == n2@,
        (ModeEdit::BindingCommand { table: t1, key: k1, .. }, ModeEdit::BindingCommand { table: t2, key: k2, .. }) =>
            t1@ == t2@ && k1@ == k2@,
        (ModeEdit::BindingNote { table: t1, key: k1, .. }, ModeEdit::BindingNote { table: t2, key: k2, .. }) =>
            t1@ == t2@ && k1@ == k2@,
        _ => false,
    }
}

/// The label of an item whose edit `current` now holds `value`.
pub open spec fn edited_label(current: ModeEdit, value: Seq<char>) -> Seq<char> {
    match current {
        ModeEdit::Option { name, .. } => name@ + " "@ + value,
        ModeEdit::BindingCommand { table, key, .. } => "key "@ + table@ + " "@ + key@ + " command "@ + value,
        ModeEdit::BindingNote { table, key, .. } => "key "@ + table@ + " "@ + key@ + " note "@ + value,
    }
}

/// `new` is `current` with its value replaced by `value`.
pub open spec fn revalued(new: ModeEdit, current: ModeEdit, value: Seq<char>) -> bool {
    match (new, current) {
        (ModeEdit::Option { name: n1, value: v1 }, ModeEdit::Option { name: n2, .. }) => n1 == n2 && v1@ == value,
        (
            ModeEdit::BindingCommand { table: t1, key: k1, value: v1, note: o1, repeat: r1 },
            ModeEdit::BindingCommand { table: t2, key: k2, note: o2, repeat: r2, .. },
        ) => t1 == t2 && k1 == k2 && v1@ == value && o1 == o2 && r1 == r2,
        (
            ModeEdit::BindingNote { table: t1, key: k1, value: v1, command: c1, repeat: r1 },
            ModeEdit::BindingNote { table: t2, key: k2, command: c2, repeat: r2, .. },
        ) => t1 == t2 && k1 == k2 && v1@ == value && c1 == c2 && r1 == r2,
        _ => false,
    }
}

/// Record an accepted edit on the item it came from: when the item's own
/// edit is of the same option or binding, its value becomes `value` and its
/// label is rewritten to show it; any other item is left alone.
pub fn update_mode_edit_item(item: &mut ModeItem, edited: &ModeEdit, value: &str)
    ensures
        final(item).command == old(item).command,
        final(item).prompt_target == old(item).prompt_target,
        match old(item).edit {
            Some(current) => if edits_same(current, *edited) {
                &&& final(item).label@ == edited_label(current, value@)
                &&& final(item).edit matches Some(new) && revalued(new, current, value@)
            } else {
                final(item).label == old(item).label && final(item).edit == old(item).edit
            },
            None => final(item).label == old(item).label && final(item).edit == old(item).edit,
        },
{
    let current = item.edit.take();
    match current {
        Some(ModeEdit::Option { name, value: old_value }) => {
            let same = match edited {
                ModeEdit::Option { name: edited_name, .. } => name == *edited_name,
                _ => false,
            };
            if same {
                let mut label = String::new();
                push_text(&mut label, name.as_str());
                push_text(&mut label, " ");
                push_text(&mut label, value);
                item.label = label;
                item.edit = Some(ModeEdit::Option { name, value: value.to_owned() });
            } else {
                item.edit = Some(ModeEdit::Option { name, value: old_value });
            }
        },
        Some(ModeEdit::BindingCommand { table, key, value: old_value, note, repeat }) => {
            let same = match edited {
                ModeEdit::BindingCommand { table: edited_table, key: edited_key, .. } => table == *edited_table && key == *edited_key,
                _ => false,
            };
            if same {
                let mut label = String::new();
                push_text(&mut label, "key ");
                push_text(&mut label, table.as_str());
                push_text(&mut label, " ");
                push_text(&mut label, key.as_str());
                push_text(&mut label, " command ");
                push_text(&mut label, value);
                item.label = label;
                item.edit = Some(ModeEdit::BindingCommand { table, key, value: value.to_owned(), note, repeat });
            } else {
                item.edit = Some(ModeEdit::BindingCommand { table, key, value: old_value, note, repeat });
            }
        },
        Some(ModeEdit::BindingNote { table, key, value: old_value, command, repeat }) => {
            let same = match edited {
                ModeEdit::BindingNote { table: edited_table, key: edited_key, .. } => table == *edited_table && key == *edited_key,
                _ => false,
            };
            if same {
                let mut label = String::new();
                push_text(&mut label, "key ");
                push_text(&mut label, table.as_str());
                push_text(&mut label, " ");
                push_text(&mut label, key.as_str());
                push_text(&mut label, " note ");
                push_text(&mut label, value);
                item.label = label;
                item.edit = Some(ModeEdit::BindingNote { table, key, value: value.to_owned(), command, repeat });
            } else {
                item.edit = Some(ModeEdit::BindingNote { table, key, value: old_value, command, repeat });
            }
        },
        None => {},
    }
}

impl ModeView {
    /// A list mode showing all of `items`, unfiltered, with the first one
    /// selected and nothing scrolled.
    pub fn list(kind: ModeKind, title: String, items: Vec<ModeItem>) -> (view: Self)
        ensures
            view.kind == kind,
            view.title == title,
            view.items@ == items@,
            same_items(view.all_items@, items@),
            view.filter@ == Seq::<char>::empty(),
            view.search@ == Seq::<char>::empty(),
            view.selected == 0,
            view.scroll == 0,
    {
        let all_items = copy_items(&items);
        ModeView {
            kind,
            title,
            all_items,
            items,
            filter: String::new(),
            search: String::new(),
            selected: 0,
            scroll: 0,
        }
    }

    /// The clock mode: an empty list titled `Clock`.
    pub fn clock() -> (view: Self)
        ensures
            view.kind == ModeKind::Clock,
            view.title@ == "Clock"@,
            view.items@.len() == 0,
            view.all_items@.len() == 0,
            view.filter@ == Seq::<char>::empty(),
            view.search@ == Seq::<char>::empty(),
            view.selected == 0,
            view.scroll == 0,
    {
        let mut title = String::new();
        push_text(&mut title, "Clock");
        proof {
            assert(title@ =~= "Clock"@);
        }
        Self::list(ModeKind::Clock, title, Vec::new())
    }
}

} // verus!
