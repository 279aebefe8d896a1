use hmux::state::ServerState;

fn command_of(state: &ServerState, table: &str, key: &str) -> Option<Vec<String>> {
    state.key_binding(table, key).map(|b| b.command.clone())
}

fn words(list: &[&str]) -> Option<Vec<String>> {
    Some(list.iter().map(|w| w.to_string()).collect())
}

#[test]
fn an_empty_server_has_the_default_tables() {
    let state = ServerState::empty();
    assert!(state.key_table_exists("prefix"));
    assert!(state.key_table_exists("root"));
    assert!(state.key_table_exists("copy-mode"));
    assert!(state.key_table_exists("copy-mode-vi"));
    assert!(!state.key_table_exists("no-such-table"));
    assert_eq!(command_of(&state, "prefix", "c"), words(&["new-window"]));
    assert_eq!(command_of(&state, "prefix", "\""), words(&["split-window"]));
    assert_eq!(command_of(&state, "prefix", "%"), words(&["split-window", "-h"]));
    assert_eq!(command_of(&state, "copy-mode-vi", "q"), words(&["send-keys", "-X", "cancel"]));
    let b = state.key_binding("prefix", "d").unwrap();
    assert!(!b.repeat);
    assert_eq!(b.note, None);
}

#[test]
fn prefix_digits_select_their_window() {
    let state = ServerState::empty();
    for i in 0..10 {
        let key = i.to_string();
        let target = format!(":{i}");
        assert_eq!(command_of(&state, "prefix", &key), words(&["select-window", "-t", &target]));
    }
}

#[test]
fn copy_mode_digits_start_a_repeat_count() {
    let state = ServerState::empty();
    for i in 1..10 {
        let count = i.to_string();
        let expected = words(&["command-prompt", "-N", "-p", "(repeat)", "-I", &count, "send-keys -N '%%'"]);
        assert_eq!(command_of(&state, "copy-mode-vi", &count), expected);
        assert_eq!(command_of(&state, "copy-mode", &format!("M-{i}")), expected);
    }
    assert_eq!(command_of(&state, "copy-mode-vi", "0"), words(&["send-keys", "-X", "start-of-line"]));
    assert_eq!(command_of(&state, "copy-mode", "M-0"), None);
}

#[test]
fn binding_a_key_replaces_what_it_ran() {
    let mut state = ServerState::empty();
    state.bind_key("prefix", "c", vec!["kill-server".to_string()], true, Some("stop".to_string()));
    let b = state.key_binding("prefix", "c").unwrap();
    assert_eq!(b.command, vec!["kill-server".to_string()]);
    assert!(b.repeat);
    assert_eq!(b.note.as_deref(), Some("stop"));
    state.bind_words("mine", "x", &["display-message", "hi"]);
    assert!(state.key_table_exists("mine"));
    assert_eq!(command_of(&state, "mine", "x"), words(&["display-message", "hi"]));
}

#[test]
fn unbinding_a_key_or_a_whole_table() {
    let mut state = ServerState::empty();
    state.unbind_key("prefix", Some("c"), false);
    assert_eq!(command_of(&state, "prefix", "c"), None);
    assert_eq!(command_of(&state, "prefix", "d"), words(&["detach-client"]));
    state.unbind_key("prefix", None, false);
    assert_eq!(command_of(&state, "prefix", "d"), words(&["detach-client"]));
    state.unbind_key("prefix", None, true);
    assert!(!state.key_table_exists("prefix"));
    assert!(state.key_table_exists("root"));
    state.unbind_key("nothing", Some("x"), false);
    assert_eq!(command_of(&state, "root", "WheelUpPane"), words(&["copy-mode", "-e"]));
}

#[test]
fn installing_the_defaults_again_restores_them() {
    let mut state = ServerState::empty();
    state.unbind_key("copy-mode", None, true);
    state.bind_words("prefix", "c", &["kill-server"]);
    state.install_default_key_bindings();
    assert_eq!(command_of(&state, "prefix", "c"), words(&["new-window"]));
    assert_eq!(command_of(&state, "copy-mode", "q"), words(&["send-keys", "-X", "cancel"]));
}
