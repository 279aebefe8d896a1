use hmux::state::ServerState;

#[test]
fn unnamed_buffers_get_automatic_names_newest_first() {
    let mut state = ServerState::empty();
    state.set_buffer(None, b"one", 10);
    state.set_buffer(None, b"two", 11);
    let names: Vec<&str> = state.buffers().iter().map(|(n, _)| n.as_str()).collect();
    assert_eq!(names, vec!["buffer1", "buffer0"]);
    assert_eq!(state.buffer(None), Some(&b"two"[..]));
    assert_eq!(state.automatic_buffer_name(), Some("buffer1"));
    assert_eq!(state.buffer_created("buffer0"), Some(10));
    assert_eq!(state.next_buffer_id(), 2);
}

#[test]
fn a_named_buffer_reads_back_what_was_written() {
    let mut state = ServerState::empty();
    state.set_buffer(Some("clip"), b"hello", 5);
    assert_eq!(state.buffer(Some("clip")), Some(&b"hello"[..]));
    state.set_buffer(Some("clip"), b"again", 6);
    assert_eq!(state.buffer(Some("clip")), Some(&b"again"[..]));
    assert_eq!(state.buffers().len(), 1);
    assert_eq!(state.buffer_created("clip"), Some(6));
}

#[test]
fn named_buffers_are_not_the_unnamed_choice() {
    let mut state = ServerState::empty();
    state.set_buffer(None, b"auto", 1);
    state.set_buffer(Some("clip"), b"named", 2);
    assert_eq!(state.buffer(None), Some(&b"auto"[..]));
    assert_eq!(state.buffers()[0].0, "clip");
}

#[test]
fn a_deleted_buffer_is_gone() {
    let mut state = ServerState::empty();
    state.set_buffer(Some("clip"), b"x", 1);
    assert!(state.delete_buffer("clip"));
    assert_eq!(state.buffer(Some("clip")), None);
    assert_eq!(state.buffer_created("clip"), None);
    assert!(!state.delete_buffer("clip"));
}

#[test]
fn appending_extends_the_buffer_or_makes_one() {
    let mut state = ServerState::empty();
    state.append_buffer(None, b"a", 1);
    assert_eq!(state.buffers()[0], ("buffer0".to_string(), b"a".to_vec()));
    state.append_buffer(None, b"b", 2);
    assert_eq!(state.buffer(None), Some(&b"ab"[..]));
    state.append_buffer(Some("clip"), b"c", 3);
    assert_eq!(state.buffer(Some("clip")), Some(&b"c"[..]));
    state.append_buffer(Some("clip"), b"d", 4);
    assert_eq!(state.buffer(Some("clip")), Some(&b"cd"[..]));
}

#[test]
fn renaming_a_buffer_replaces_the_target_and_stops_it_being_automatic() {
    let mut state = ServerState::empty();
    state.set_buffer(None, b"auto", 1);
    state.set_buffer(Some("clip"), b"named", 2);
    assert!(state.rename_buffer("buffer0", "clip"));
    assert_eq!(state.buffers().len(), 1);
    assert_eq!(state.buffer(Some("clip")), Some(&b"auto"[..]));
    assert_eq!(state.buffer(None), None);
    assert_eq!(state.buffer_created("clip"), Some(1));
    assert!(!state.rename_buffer("missing", "x"));
}

#[test]
fn the_buffer_limit_evicts_the_oldest_automatic_buffer() {
    let mut state = ServerState::empty();
    state.set_buffer_limit(2);
    state.set_buffer(Some("keep"), b"k", 0);
    state.set_buffer(None, b"0", 1);
    state.set_buffer(None, b"1", 2);
    state.set_buffer(None, b"2", 3);
    let names: Vec<&str> = state.buffers().iter().map(|(n, _)| n.as_str()).collect();
    assert_eq!(names, vec!["buffer2", "buffer1", "keep"]);
    assert_eq!(state.buffer_created("buffer0"), None);
}

#[test]
fn a_prefixed_buffer_takes_the_first_free_number() {
    let mut state = ServerState::empty();
    state.set_buffer(Some("p0"), b"x", 0);
    state.add_buffer_with_prefix(Some("p"), b"y", 1);
    assert_eq!(state.buffer(Some("p1")), Some(&b"y"[..]));
    assert_eq!(state.next_buffer_id(), 2);
    state.add_buffer_with_prefix(None, b"z", 2);
    assert_eq!(state.buffers()[0].0, "buffer2");
}

#[test]
fn explicitly_named_buffers_are_skipped_by_the_automatic_choice() {
    let mut st = ServerState::empty();
    st.set_buffer(None, b"a", 1);
    st.set_buffer(None, b"b", 2);
    st.set_buffer(Some("x"), b"c", 3);
    let names: Vec<&str> = st.buffers().iter().map(|(n, _)| n.as_str()).collect();
    assert_eq!(names, vec!["x", "buffer1", "buffer0"]);
    assert_eq!(st.buffer(None), Some(&b"b"[..]));
    assert_eq!(st.buffer(Some("x")), Some(&b"c"[..]));
    assert_eq!(st.buffer(Some("buffer0")), Some(&b"a"[..]));
}

#[test]
fn a_fresh_server_is_empty_and_waits_for_its_first_client() {
    let st = ServerState::empty();
    assert!(st.sessions().is_empty());
    assert!(!st.shutdown_requested());
    assert!(st.initial_attach_pending());
    assert!(st.buffers().is_empty());
    assert_eq!(st.marked_pane_id(), None);
    assert!(st.ids_left());
    assert_eq!(st.next_buffer_id(), 0);
}
