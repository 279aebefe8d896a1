use hmux::render::RenderInvalidation;
use hmux::session::{Target, Winlink};
use hmux::state::{RenderRequest, ServerState, StateError};

const CREATED: &str = "Mon Jan  1 00:00:00 2024";

fn link(link_id: u64, index: u32, id: u32) -> Winlink {
    Winlink { link_id, index, id, alert_flags: 0 }
}

fn with_sessions(names: &[&str]) -> ServerState {
    let mut state = ServerState::empty();
    for (i, name) in names.iter().enumerate() {
        state
            .create_session(name, i as u32 * 10, 0, CREATED.to_string(), 1_700_000_000, 0)
            .expect("created");
    }
    state
}

fn with_test_session() -> ServerState {
    with_sessions(&["0"])
}

fn three_windows() -> ServerState {
    let mut state = with_test_session();
    state.replace_link_set(0, vec![link(0, 0, 0), link(100, 1, 1), link(101, 2, 2)]);
    state
}

fn active_index(state: &ServerState, pos: usize) -> u32 {
    let s = &state.sessions()[pos];
    s.windows[s.active].index
}

fn target(session: usize, window: usize) -> Target {
    Target { session, window, pane: 0 }
}

#[test]
fn default_state_has_one_session() {
    let state = with_test_session();
    assert_eq!(state.sessions().len(), 1);
    assert_eq!(state.sessions()[0].name, "0");
    assert!(state.sessions().iter().any(|s| s.summary().contains("0: 1 windows")));
}

#[test]
fn duplicate_session_rejected() {
    let mut state = with_test_session();
    let err = state.create_session("0", 9, 0, CREATED.to_string(), 0, 0).unwrap_err();
    assert!(matches!(err, StateError::AlreadyExists(_)));
    assert_eq!(err.message(), "duplicate session: 0");
}

#[test]
fn create_and_kill_session() {
    let mut state = with_test_session();
    state.create_session("work", 1, 0, CREATED.to_string(), 0, 0).expect("create");
    assert!(state.find("work").is_some());
    assert!(state.kill_session("work", true));
    assert!(state.find("work").is_none());
    assert!(!state.kill_session("work", true));
}

#[test]
fn killing_last_session_requests_exit_empty_shutdown() {
    let mut state = with_test_session();
    assert!(state.kill_session("0", true));
    assert!(state.shutdown_requested());
}

#[test]
fn killing_the_last_session_without_exit_empty_keeps_the_server() {
    let mut state = with_test_session();
    assert!(state.kill_session("0", false));
    assert!(state.sessions().is_empty());
    assert!(!state.shutdown_requested());
}

#[test]
fn a_new_session_gets_the_next_ids_and_one_window() {
    let state = with_sessions(&["a", "b"]);
    let b = &state.sessions()[1];
    assert_eq!(b.id, 1);
    assert_eq!(b.name, "b");
    assert_eq!(b.windows, vec![link(1, 0, 10)]);
    assert_eq!(b.active, 0);
    assert_eq!(b.last_active, None);
    assert_eq!(b.created, CREATED);
    assert_eq!(b.created_epoch, 1_700_000_000);
}

#[test]
fn creating_a_session_raises_session_created() {
    let mut state = with_sessions(&["work"]);
    let raised = state.take_notifications();
    assert_eq!(raised.len(), 1);
    let n = &raised[0];
    assert_eq!(n.name, "session-created");
    assert_eq!(n.target.as_deref(), Some("$0"));
    assert_eq!(
        n.vars,
        vec![
            ("hook".to_string(), "session-created".to_string()),
            ("hook_session".to_string(), "$0".to_string()),
            ("hook_session_name".to_string(), "work".to_string()),
        ]
    );
    assert!(!n.deferred);
    assert!(state.take_notifications().is_empty());
}

#[test]
fn killing_a_session_raises_session_closed_and_owes_a_redraw() {
    let mut state = with_sessions(&["a", "b"]);
    state.take_notifications();
    state.take_render_requests();
    assert!(state.kill_session("a", true));
    let raised = state.take_notifications();
    assert_eq!(raised.len(), 1);
    assert_eq!(raised[0].name, "session-closed");
    assert_eq!(raised[0].target, None);
    assert_eq!(raised[0].vars[2], ("hook_session_name".to_string(), "a".to_string()));
    assert_eq!(
        state.take_render_requests(),
        vec![RenderRequest { session_id: Some(0), reason: RenderInvalidation::session_gone() }]
    );
    assert!(!state.shutdown_requested());
    assert_eq!(state.sessions().len(), 1);
    assert_eq!(state.sessions()[0].name, "b");
}

#[test]
fn the_next_session_name_is_the_least_free_number() {
    let state = ServerState::empty();
    assert_eq!(state.next_session_name(), "0");
    let state = with_sessions(&["0", "1"]);
    assert_eq!(state.next_session_name(), "2");
    let state = with_sessions(&["1", "work"]);
    assert_eq!(state.next_session_name(), "0");
}

#[test]
fn renaming_a_session_raises_session_renamed() {
    let mut state = with_sessions(&["a", "b"]);
    state.take_notifications();
    state.rename_session("a", "c").expect("renamed");
    assert_eq!(state.sessions()[0].name, "c");
    let raised = state.take_notifications();
    assert_eq!(raised.len(), 1);
    assert_eq!(raised[0].name, "session-renamed");
    assert_eq!(raised[0].vars[2].1, "c");
}

#[test]
fn renaming_onto_another_session_is_refused() {
    let mut state = with_sessions(&["a", "b"]);
    let err = state.rename_session("a", "b").unwrap_err();
    assert_eq!(err, StateError::AlreadyExists("duplicate session: b".to_string()));
    let err = state.rename_session("zz", "c").unwrap_err();
    assert_eq!(err, StateError::NotFound("can't find session: zz".to_string()));
}

#[test]
fn sessions_are_found_by_name_or_id() {
    let state = with_sessions(&["a", "b"]);
    assert_eq!(state.session_index("b"), Some(1));
    assert_eq!(state.session_index("$1"), Some(1));
    assert_eq!(state.session_index("=a"), Some(0));
    assert_eq!(state.session_index("c"), None);
    assert_eq!(state.resolve_session("b:1").map(|s| s.id), Some(1));
}

#[test]
fn next_and_previous_window_wrap_around() {
    let mut state = three_windows();
    state.next_window("0").expect("next");
    assert_eq!(active_index(&state, 0), 1);
    state.previous_window("0").expect("previous");
    assert_eq!(active_index(&state, 0), 0);
    state.previous_window("0").expect("previous wraps");
    assert_eq!(active_index(&state, 0), 2);
    state.next_window("0").expect("next wraps");
    assert_eq!(active_index(&state, 0), 0);
}

#[test]
fn a_single_window_has_no_next_or_previous() {
    let mut state = with_test_session();
    assert_eq!(state.next_window("0"), Err(StateError::NotFound("no next window".to_string())));
    assert_eq!(state.previous_window("0"), Err(StateError::NotFound("no previous window".to_string())));
    assert_eq!(state.next_window("x"), Err(StateError::NotFound("can't find session: x".to_string())));
}

#[test]
fn moving_the_current_window_raises_session_window_changed_and_owes_a_redraw() {
    let mut state = three_windows();
    state.take_notifications();
    state.take_render_requests();
    state.next_window("0").expect("next");
    let raised = state.take_notifications();
    assert_eq!(raised.len(), 1);
    assert_eq!(raised[0].name, "session-window-changed");
    assert_eq!(
        state.take_render_requests(),
        vec![RenderRequest { session_id: Some(0), reason: RenderInvalidation::layout().bitor(RenderInvalidation::status()) }]
    );
}

#[test]
fn last_window_goes_back_to_the_previous_window() {
    let mut state = three_windows();
    assert_eq!(state.last_window("0"), Err(StateError::NotFound("no last window".to_string())));
    state.select_session_window(0, 2);
    assert_eq!(active_index(&state, 0), 2);
    state.last_window("0").expect("last");
    assert_eq!(active_index(&state, 0), 0);
    state.last_window("0").expect("and back again");
    assert_eq!(active_index(&state, 0), 2);
}

#[test]
fn renumbering_closes_the_gaps_and_keeps_the_current_window() {
    let mut state = with_test_session();
    state.replace_link_set(0, vec![link(0, 0, 0), link(100, 4, 1), link(101, 9, 2)]);
    state.select_session_window(0, 1);
    state.renumber_windows("0", 1).expect("renumbered");
    let indices: Vec<u32> = state.sessions()[0].windows.iter().map(|w| w.index).collect();
    assert_eq!(indices, vec![1, 2, 3]);
    assert_eq!(state.sessions()[0].windows[state.sessions()[0].active].id, 1);
    assert_eq!(state.renumber_windows("x", 0), Err(StateError::NotFound("can't find session: x".to_string())));
}

#[test]
fn swapping_windows_in_a_session_trades_their_windows() {
    let mut state = three_windows();
    state.swap_window(target(0, 0), target(0, 2), false).expect("swapped");
    let ids: Vec<u32> = state.sessions()[0].windows.iter().map(|w| w.id).collect();
    let indices: Vec<u32> = state.sessions()[0].windows.iter().map(|w| w.index).collect();
    assert_eq!(ids, vec![2, 1, 0]);
    assert_eq!(indices, vec![0, 1, 2]);
    assert_eq!(state.sessions()[0].active, 0);
}

#[test]
fn swapping_with_select_makes_the_destination_current() {
    let mut state = three_windows();
    state.swap_window(target(0, 0), target(0, 2), true).expect("swapped");
    assert_eq!(active_index(&state, 0), 2);
}

#[test]
fn swapping_windows_across_sessions() {
    let mut state = with_sessions(&["a", "b"]);
    state.swap_window(target(0, 0), target(1, 0), false).expect("swapped");
    assert_eq!(state.sessions()[0].windows[0].id, 10);
    assert_eq!(state.sessions()[1].windows[0].id, 0);
    let requests = state.take_render_requests();
    let redraw = RenderInvalidation::layout().bitor(RenderInvalidation::status());
    assert_eq!(
        requests[requests.len() - 2..].to_vec(),
        vec![
            RenderRequest { session_id: Some(0), reason: redraw },
            RenderRequest { session_id: Some(1), reason: redraw },
        ]
    );
}

#[test]
fn moving_a_window_to_a_free_index_keeps_the_set_ordered() {
    let mut state = three_windows();
    state.move_window(target(0, 0), 0, 5, false, false).expect("moved");
    let windows = &state.sessions()[0].windows;
    assert_eq!(windows.clone(), vec![link(100, 1, 1), link(101, 2, 2), link(0, 5, 0)]);
    assert_eq!(windows[state.sessions()[0].active].id, 1);
}

#[test]
fn moving_onto_a_used_index_needs_replace() {
    let mut state = three_windows();
    let err = state.move_window(target(0, 0), 0, 1, false, false).unwrap_err();
    assert_eq!(err, StateError::AlreadyExists("index in use: 1".to_string()));
    state.move_window(target(0, 0), 0, 1, true, false).expect("replaced");
    assert_eq!(state.sessions()[0].windows, vec![link(0, 1, 0), link(101, 2, 2)]);
}

#[test]
fn moving_a_window_onto_itself_is_refused() {
    let mut state = three_windows();
    let err = state.move_window(target(0, 1), 0, 1, true, false).unwrap_err();
    assert_eq!(err, StateError::Refused("same index: 1".to_string()));
}

#[test]
fn moving_the_last_window_out_closes_its_session() {
    let mut state = with_sessions(&["a", "b"]);
    state.take_render_requests();
    state.move_window(target(0, 0), 1, 1, false, true).expect("moved");
    assert_eq!(state.sessions().len(), 1);
    let b = &state.sessions()[0];
    assert_eq!(b.name, "b");
    assert_eq!(b.windows, vec![link(1, 0, 10), link(0, 1, 0)]);
    assert_eq!(b.active, 1);
    let redraw = RenderInvalidation::layout().bitor(RenderInvalidation::status());
    assert_eq!(
        state.take_render_requests(),
        vec![
            RenderRequest { session_id: Some(0), reason: RenderInvalidation::session_gone() },
            RenderRequest { session_id: Some(1), reason: redraw },
        ]
    );
}

#[test]
fn moving_a_window_between_sessions_keeps_the_source_when_it_has_more() {
    let mut state = with_sessions(&["a", "b"]);
    state.replace_link_set(0, vec![link(0, 0, 0), link(100, 1, 1)]);
    state.move_window(target(0, 1), 1, 3, false, false).expect("moved");
    assert_eq!(state.sessions()[0].windows, vec![link(0, 0, 0)]);
    assert_eq!(state.sessions()[1].windows, vec![link(1, 0, 10), link(100, 3, 1)]);
    assert_eq!(state.sessions()[1].active, 0);
}

#[test]
fn session_environment_is_per_session() {
    let mut state = with_sessions(&["a", "b"]);
    state.set_session_env("a", "K", "v", false).expect("set");
    assert_eq!(state.session_env("a").expect("env").get("K"), Some("v"));
    assert_eq!(state.session_env("b").expect("env").get("K"), None);
    assert_eq!(
        state.set_session_env("zz", "K", "v", false),
        Err(StateError::NotFound("can't find session".to_string()))
    );
    state.unset_session_env("a", "K", true).expect("unset");
    assert!(state.session_env("a").expect("env").is_removed("K"));
}

#[test]
fn marking_a_pane_toggles() {
    let mut state = ServerState::empty();
    assert_eq!(state.marked_pane_id(), None);
    state.toggle_mark(3);
    assert_eq!(state.marked_pane_id(), Some(3));
    state.toggle_mark(3);
    assert_eq!(state.marked_pane_id(), None);
    state.toggle_mark(3);
    state.clear_mark();
    assert_eq!(state.marked_pane_id(), None);
}

#[test]
fn the_current_session_is_the_newest() {
    let state = with_sessions(&["a", "b"]);
    assert_eq!(state.current_session_pos(), Ok(1));
    assert_eq!(state.session_or_current(""), Ok(1));
    assert_eq!(state.session_or_current("a"), Ok(0));
    let empty = ServerState::empty();
    assert_eq!(empty.current_session_pos(), Err(StateError::NotFound("no current session".to_string())));
}

#[test]
fn killing_an_ungrouped_session_group_kills_the_session() {
    let mut state = with_sessions(&["a", "b"]);
    assert!(state.kill_session_group("a", true));
    assert_eq!(state.sessions().len(), 1);
    assert_eq!(state.sessions()[0].name, "b");
    assert!(!state.kill_session_group("zz", true));
}

#[test]
fn killing_the_other_sessions_keeps_one() {
    let mut state = with_sessions(&["a", "b", "c"]);
    state.take_render_requests();
    state.kill_other_sessions("b").expect("killed");
    assert_eq!(state.sessions().len(), 1);
    assert_eq!(state.sessions()[0].name, "b");
    let gone = RenderInvalidation::session_gone();
    assert_eq!(
        state.take_render_requests(),
        vec![
            RenderRequest { session_id: Some(0), reason: gone },
            RenderRequest { session_id: Some(2), reason: gone },
        ]
    );
    assert!(!state.shutdown_requested());
    assert_eq!(
        state.kill_other_sessions("zz"),
        Err(StateError::NotFound("can't find session: zz".to_string()))
    );
}

#[test]
fn moving_after_an_anchor_shifts_the_run_above_it() {
    let mut state = with_test_session();
    state.replace_link_set(0, vec![link(0, 0, 0), link(100, 1, 1), link(101, 2, 2), link(102, 5, 3)]);
    state.move_window_relative(target(0, 3), 0, Some(0), true, false).expect("moved");
    let windows: Vec<(u32, u32)> = state.sessions()[0].windows.iter().map(|w| (w.index, w.id)).collect();
    assert_eq!(windows, vec![(0, 0), (1, 3), (2, 1), (3, 2)]);
}

#[test]
fn moving_before_an_anchor_takes_its_place() {
    let mut state = with_test_session();
    state.replace_link_set(0, vec![link(0, 0, 0), link(100, 1, 1), link(101, 2, 2)]);
    state.move_window_relative(target(0, 2), 0, Some(1), false, true).expect("moved");
    let windows: Vec<(u32, u32)> = state.sessions()[0].windows.iter().map(|w| (w.index, w.id)).collect();
    assert_eq!(windows, vec![(0, 0), (1, 2), (2, 1)]);
    assert_eq!(state.sessions()[0].windows[state.sessions()[0].active].id, 2);
}

#[test]
fn moving_beside_a_missing_anchor_is_a_plain_move() {
    let mut state = three_windows();
    state.move_window_relative(target(0, 0), 0, Some(7), true, false).expect("moved");
    let indices: Vec<u32> = state.sessions()[0].windows.iter().map(|w| w.index).collect();
    assert_eq!(indices, vec![1, 2, 7]);
}

#[test]
fn moving_beside_an_anchor_needs_an_index() {
    let mut state = three_windows();
    assert_eq!(
        state.move_window_relative(target(0, 0), 0, None, true, false),
        Err(StateError::Invalid("move-window: missing destination index".to_string()))
    );
}

#[test]
fn moving_beside_an_anchor_in_another_session() {
    let mut state = with_sessions(&["a", "b"]);
    state.replace_link_set(0, vec![link(0, 0, 0), link(100, 1, 1)]);
    state.move_window_relative(target(0, 1), 1, Some(0), false, false).expect("moved");
    assert_eq!(state.sessions()[0].windows, vec![link(0, 0, 0)]);
    assert_eq!(state.sessions()[1].windows, vec![link(100, 0, 1), link(1, 1, 10)]);
}

#[test]
fn killing_last_window_requests_exit_empty_shutdown() {
    let mut state = with_test_session();
    state.kill_window(target(0, 0), false, 0, true, None);
    assert!(state.sessions().is_empty());
    assert!(state.shutdown_requested());
}

#[test]
fn killing_a_linked_window_takes_it_from_every_session() {
    let mut state = with_sessions(&["a", "b"]);
    state.link_window(target(0, 0), 1, Some(3), 0, false, false, None, None).expect("linked");
    state.take_notifications();
    state.take_render_requests();
    state.kill_window(target(1, 1), false, 0, false, Some("editor"));
    assert_eq!(state.sessions().len(), 1);
    assert_eq!(state.sessions()[0].name, "b");
    let left: Vec<(u32, u32)> = state.sessions()[0].windows.iter().map(|w| (w.index, w.id)).collect();
    assert_eq!(left, vec![(0, 10)]);
    assert!(!state.shutdown_requested());
    let names: Vec<String> = state.take_notifications().into_iter().map(|n| n.name).collect();
    assert_eq!(names, vec!["window-unlinked".to_string(), "window-unlinked".to_string()]);
    assert_eq!(
        state.take_render_requests(),
        vec![
            RenderRequest { session_id: Some(0), reason: RenderInvalidation::session_gone() },
            RenderRequest { session_id: Some(1), reason: RenderInvalidation::layout().bitor(RenderInvalidation::status()) },
        ]
    );
}

#[test]
fn killing_a_window_with_renumber_closes_the_gap() {
    let mut state = three_windows();
    state.take_render_requests();
    state.kill_window(target(0, 1), true, 0, true, None);
    let left: Vec<(u32, u32)> = state.sessions()[0].windows.iter().map(|w| (w.index, w.id)).collect();
    assert_eq!(left, vec![(0, 0), (1, 2)]);
    assert_eq!(
        state.take_render_requests(),
        vec![
            RenderRequest { session_id: Some(0), reason: RenderInvalidation::status() },
            RenderRequest { session_id: Some(0), reason: RenderInvalidation::layout().bitor(RenderInvalidation::status()) },
        ]
    );
}

#[test]
fn killing_the_other_windows_keeps_only_the_target() {
    let mut state = three_windows();
    state.take_notifications();
    let names = vec![(0u32, "zero".to_string()), (2u32, "two".to_string())];
    state.kill_other_windows(target(0, 1), true, 0, true, &names);
    let left: Vec<(u32, u32)> = state.sessions()[0].windows.iter().map(|w| (w.index, w.id)).collect();
    assert_eq!(left, vec![(0, 1)]);
    let raised = state.take_notifications();
    assert_eq!(raised.len(), 2);
    assert!(raised.iter().all(|n| n.name == "window-unlinked"));
}

#[test]
fn killing_the_other_windows_takes_a_doubly_linked_target_too() {
    let mut state = with_test_session();
    state.replace_link_set(0, vec![link(0, 0, 1), link(100, 1, 1), link(101, 2, 2)]);
    state.kill_other_windows(target(0, 0), false, 0, true, &Vec::new());
    assert!(state.sessions().is_empty());
    assert!(state.shutdown_requested());
}
