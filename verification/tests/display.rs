use hmux::mode::{update_mode_edit_item, ModeEdit, ModeItem, ModeKind, ModeView};
use hmux::render::{option_affects_render, option_invalidation, theme_report, RenderInvalidation};
use hmux::session::{pane_start_command, PaneSpec};
use hmux::state::ServerState;

fn argv(words: &[&str]) -> Vec<String> {
    words.iter().map(|w| w.to_string()).collect()
}

#[test]
fn the_start_command_of_a_shell_command_is_its_quoted_script() {
    let spec = PaneSpec::Command(argv(&["/bin/sh", "-c", "printf 'x'; sleep 1"]));
    assert_eq!(pane_start_command(&spec), "\"printf 'x'; sleep 1\"");
}

#[test]
fn the_start_command_quotes_only_unusual_words() {
    let spec = PaneSpec::Command(argv(&["vim", "my file", "notes.txt"]));
    assert_eq!(pane_start_command(&spec), "vim \"my file\" notes.txt");
    let spec = PaneSpec::CommandIn(argv(&["top"]), std::path::PathBuf::from("/tmp"));
    assert_eq!(pane_start_command(&spec), "top");
    assert_eq!(pane_start_command(&PaneSpec::Inert), "");
}

#[test]
fn quoting_escapes_special_characters() {
    let spec = PaneSpec::Command(argv(&["echo", "a\"b\n"]));
    assert_eq!(pane_start_command(&spec), "echo \"a\\\"b\\n\"");
}

#[test]
fn the_session_summary_line() {
    let mut state = ServerState::empty();
    state.create_session("work", 0, 0, "Tue Feb  6 10:00:00 2024".to_string(), 0, 0).expect("created");
    assert_eq!(state.sessions()[0].summary(), "work: 1 windows (created Tue Feb  6 10:00:00 2024)");
}

#[test]
fn theme_reports_tell_dark_from_light() {
    assert_eq!(theme_report("dark"), b"\x1b[?997;1n".to_vec());
    assert_eq!(theme_report("light"), b"\x1b[?997;2n".to_vec());
}

#[test]
fn render_options_are_recognised() {
    assert!(option_affects_render("status-left"));
    assert!(option_affects_render("status-format[1]"));
    assert!(!option_affects_render("history-limit"));
    assert_eq!(option_invalidation("terminal-overrides").0, 33);
    assert_eq!(option_invalidation("status"), RenderInvalidation::status().bitor(RenderInvalidation::layout()));
    assert_eq!(option_invalidation("pane-border-indicators"), RenderInvalidation::layout());
    assert_eq!(option_invalidation("status-left"), RenderInvalidation::status());
}

#[test]
fn redraw_reasons_combine_as_bits() {
    let both = RenderInvalidation::status().bitor(RenderInvalidation::mode());
    assert!(both.contains(RenderInvalidation::status()));
    assert!(!both.contains(RenderInvalidation::layout()));
    assert!(!both.is_empty());
    assert!(RenderInvalidation::default().is_empty());
    assert_eq!(RenderInvalidation::session_gone().bits(), 4);
}

fn option_item() -> ModeItem {
    ModeItem {
        label: "status on".to_string(),
        command: vec!["set".to_string()],
        prompt_target: None,
        edit: Some(ModeEdit::Option { name: "status".to_string(), value: "on".to_string() }),
    }
}

#[test]
fn edit_prompts_name_what_is_edited() {
    let edit = ModeEdit::Option { name: "status".to_string(), value: "on".to_string() };
    assert_eq!(edit.prompt(), "Set option status:");
    assert_eq!(edit.initial(), "on");
    let edit = ModeEdit::BindingCommand {
        table: "prefix".to_string(),
        key: "c".to_string(),
        value: "new-window".to_string(),
        note: None,
        repeat: false,
    };
    assert_eq!(edit.prompt(), "Set command for prefix c:");
    assert_eq!(edit.initial(), "new-window");
}

#[test]
fn an_accepted_edit_updates_its_own_item() {
    let mut item = option_item();
    let edited = ModeEdit::Option { name: "status".to_string(), value: "on".to_string() };
    update_mode_edit_item(&mut item, &edited, "off");
    assert_eq!(item.label, "status off");
    assert_eq!(item.edit, Some(ModeEdit::Option { name: "status".to_string(), value: "off".to_string() }));
}

#[test]
fn an_edit_of_another_option_leaves_the_item_alone() {
    let mut item = option_item();
    let edited = ModeEdit::Option { name: "mouse".to_string(), value: "on".to_string() };
    update_mode_edit_item(&mut item, &edited, "off");
    assert_eq!(item, option_item());
}

#[test]
fn a_list_mode_starts_at_the_top_unfiltered() {
    let view = ModeView::list(ModeKind::Buffer, "Buffers".to_string(), vec![option_item()]);
    assert_eq!(view.items, vec![option_item()]);
    assert_eq!(view.all_items, vec![option_item()]);
    assert_eq!((view.selected, view.scroll), (0, 0));
    assert!(view.filter.is_empty() && view.search.is_empty());
    let clock = ModeView::clock();
    assert_eq!(clock.kind, ModeKind::Clock);
    assert_eq!(clock.title, "Clock");
    assert!(clock.items.is_empty());
}
