use hmux::render::RenderInvalidation;
use hmux::session::{Target, Winlink};
use hmux::state::{RenderRequest, ServerState, StateError};

fn link(link_id: u64, index: u32, id: u32) -> Winlink {
    Winlink { link_id, index, id, alert_flags: 0 }
}

fn with_sessions(names: &[&str]) -> ServerState {
    let mut state = ServerState::empty();
    for (i, name) in names.iter().enumerate() {
        state.create_session(name, i as u32 * 10, 0, String::new(), 0, 0).expect("created");
    }
    state
}

fn target(session: usize, window: usize) -> Target {
    Target { session, window, pane: 0 }
}

fn pairs(state: &ServerState, pos: usize) -> Vec<(u32, u32)> {
    state.sessions()[pos].windows.iter().map(|w| (w.index, w.id)).collect()
}

#[test]
fn a_linked_window_gets_a_fresh_link_at_the_first_free_index() {
    let mut state = with_sessions(&["a", "b"]);
    state.take_notifications();
    state.take_render_requests();
    state.link_window(target(0, 0), 1, None, 0, false, false, Some("editor"), None).expect("linked");
    assert_eq!(pairs(&state, 1), vec![(0, 10), (1, 0)]);
    assert_eq!(state.sessions()[1].windows[1].link_id, 2);
    assert_eq!(state.sessions()[1].active, 0);
    let raised = state.take_notifications();
    assert_eq!(raised.len(), 1);
    assert_eq!(raised[0].name, "window-linked");
    assert_eq!(raised[0].target.as_deref(), Some("$1:@0"));
    assert_eq!(
        raised[0].vars,
        vec![
            ("hook".to_string(), "window-linked".to_string()),
            ("hook_session".to_string(), "$1".to_string()),
            ("hook_session_name".to_string(), "b".to_string()),
            ("hook_window".to_string(), "@0".to_string()),
            ("hook_window_name".to_string(), "editor".to_string()),
        ]
    );
    assert_eq!(
        state.take_render_requests(),
        vec![RenderRequest { session_id: Some(1), reason: RenderInvalidation::status() }]
    );
}

#[test]
fn linking_with_select_makes_the_link_current() {
    let mut state = with_sessions(&["a", "b"]);
    state.take_notifications();
    state.link_window(target(0, 0), 1, Some(4), 0, false, true, None, None).expect("linked");
    assert_eq!(pairs(&state, 1), vec![(0, 10), (4, 0)]);
    assert_eq!(state.sessions()[1].active, 1);
    let names: Vec<String> = state.take_notifications().into_iter().map(|n| n.name).collect();
    assert_eq!(names, vec!["window-linked".to_string(), "session-window-changed".to_string()]);
}

#[test]
fn linking_onto_a_used_index_needs_kill() {
    let mut state = with_sessions(&["a", "b"]);
    assert_eq!(
        state.link_window(target(0, 0), 1, Some(0), 0, false, false, None, None),
        Err(StateError::AlreadyExists("index in use: 0".to_string()))
    );
    state.take_notifications();
    state.link_window(target(0, 0), 1, Some(0), 0, true, false, None, Some("old")).expect("replaced");
    assert_eq!(pairs(&state, 1), vec![(0, 0)]);
    let names: Vec<String> = state.take_notifications().into_iter().map(|n| n.name).collect();
    assert_eq!(names, vec!["window-unlinked".to_string(), "window-linked".to_string()]);
}

#[test]
fn linking_a_window_onto_its_own_index_is_refused() {
    let mut state = with_sessions(&["a"]);
    assert_eq!(
        state.link_window(target(0, 0), 0, Some(0), 0, true, false, None, None),
        Err(StateError::Refused("same index: 0".to_string()))
    );
}

#[test]
fn linking_after_an_anchor_shifts_the_run_above_it() {
    let mut state = with_sessions(&["a", "b"]);
    state.replace_link_set(1, vec![link(1, 0, 10), link(60, 1, 11), link(61, 3, 12)]);
    state.link_window_relative(target(0, 0), 1, Some(0), true, false, None).expect("linked");
    assert_eq!(pairs(&state, 1), vec![(0, 10), (1, 0), (2, 11), (3, 12)]);
    assert_eq!(
        state.link_window_relative(target(0, 0), 1, None, true, false, None),
        Err(StateError::Invalid("link-window: missing destination index".to_string()))
    );
}

#[test]
fn linking_beside_a_missing_anchor_links_at_that_index() {
    let mut state = with_sessions(&["a", "b"]);
    state.link_window_relative(target(0, 0), 1, Some(6), false, false, None).expect("linked");
    assert_eq!(pairs(&state, 1), vec![(0, 10), (6, 0)]);
}

#[test]
fn removing_a_link_raises_window_unlinked() {
    let mut state = with_sessions(&["a"]);
    state.replace_link_set(0, vec![link(0, 0, 0), link(70, 1, 7)]);
    state.take_notifications();
    let removed = state.remove_link(0, 1, Some("logs"));
    assert_eq!(removed, link(70, 1, 7));
    assert_eq!(pairs(&state, 0), vec![(0, 0)]);
    let raised = state.take_notifications();
    assert_eq!(raised[0].name, "window-unlinked");
    assert_eq!(raised[0].target.as_deref(), Some("$0"));
    assert_eq!(raised[0].vars[4], ("hook_window_name".to_string(), "logs".to_string()));
}

#[test]
fn a_window_event_about_a_closed_session_has_no_target() {
    let mut state = ServerState::empty();
    state.notify_session_window("window-unlinked", 9, 3, None);
    let raised = state.take_notifications();
    assert_eq!(raised[0].target, None);
    assert_eq!(raised[0].vars, vec![("hook".to_string(), "window-unlinked".to_string())]);
}

#[test]
fn inserting_a_link_keeps_the_current_window() {
    let mut state = with_sessions(&["a"]);
    state.insert_link(0, 0, link(80, 0, 8), false, None);
    assert_eq!(state.sessions()[0].windows[state.sessions()[0].active].id, 0);
}

#[test]
fn a_window_shown_once_counts_one_reference() {
    let mut state = with_sessions(&["a", "b"]);
    assert_eq!(state.window_reference_count(0), 1);
    state.link_window(target(0, 0), 1, Some(3), 0, false, false, None, None).expect("linked");
    assert_eq!(state.window_reference_count(0), 2);
    assert_eq!(state.window_reference_count(10), 1);
    assert_eq!(state.window_reference_count(99), 0);
}

#[test]
fn unlinking_the_only_link_of_a_window_needs_kill() {
    let mut state = with_sessions(&["a", "b"]);
    assert_eq!(
        state.unlink_window(target(0, 0), false, false, 0, false, None),
        Err(StateError::Refused("window only linked to one session".to_string()))
    );
    assert_eq!(pairs(&state, 0), vec![(0, 0)]);
}

#[test]
fn unlinking_a_shared_window_keeps_its_other_link() {
    let mut state = with_sessions(&["a", "b"]);
    state.link_window(target(0, 0), 1, Some(3), 0, false, false, None, None).expect("linked");
    state.take_notifications();
    state.take_render_requests();
    state.unlink_window(target(1, 1), false, false, 0, false, Some("editor")).expect("unlinked");
    assert_eq!(pairs(&state, 1), vec![(0, 10)]);
    assert_eq!(pairs(&state, 0), vec![(0, 0)]);
    assert_eq!(state.window_reference_count(0), 1);
    let raised = state.take_notifications();
    assert_eq!(raised.len(), 1);
    assert_eq!(raised[0].name, "window-unlinked");
    assert_eq!(
        state.take_render_requests(),
        vec![RenderRequest { session_id: Some(1), reason: RenderInvalidation::layout().bitor(RenderInvalidation::status()) }]
    );
}

#[test]
fn unlinking_with_renumber_numbers_the_rest_from_base() {
    let mut state = with_sessions(&["a", "b"]);
    state.link_window(target(0, 0), 1, Some(3), 0, false, false, None, None).expect("linked");
    state.take_render_requests();
    state.unlink_window(target(1, 0), true, true, 1, false, None).expect("unlinked");
    assert_eq!(pairs(&state, 1), vec![(1, 0)]);
    assert_eq!(
        state.take_render_requests(),
        vec![
            RenderRequest { session_id: Some(1), reason: RenderInvalidation::status() },
            RenderRequest { session_id: Some(1), reason: RenderInvalidation::layout().bitor(RenderInvalidation::status()) },
        ]
    );
}

#[test]
fn killing_the_last_link_closes_the_session_and_may_stop_the_server() {
    let mut state = with_sessions(&["a"]);
    state.take_render_requests();
    state.unlink_window(target(0, 0), true, false, 0, true, None).expect("unlinked");
    assert!(state.sessions().is_empty());
    assert!(state.shutdown_requested());
    assert_eq!(
        state.take_render_requests(),
        vec![RenderRequest { session_id: Some(0), reason: RenderInvalidation::session_gone() }]
    );
}

fn alerted(link_id: u64, index: u32, id: u32, alert_flags: u8) -> Winlink {
    Winlink { link_id, index, id, alert_flags }
}

#[test]
fn next_window_alert_finds_the_nearest_alerted_window_forward() {
    let mut state = with_sessions(&["a"]);
    state.insert_link(0, 1, alerted(81, 1, 8, 0), false, None);
    state.insert_link(0, 2, alerted(82, 2, 9, 2), false, None);
    state.insert_link(0, 3, alerted(83, 3, 7, 1), false, None);
    state.take_render_requests();
    state.next_window_alert("a").expect("found");
    assert_eq!(state.sessions()[0].active, 2);
    assert_eq!(state.sessions()[0].windows[2].alert_flags, 0);
    assert_eq!(
        state.take_render_requests(),
        vec![RenderRequest { session_id: Some(0), reason: RenderInvalidation::layout().bitor(RenderInvalidation::status()) }]
    );
}

#[test]
fn previous_window_alert_wraps_backward() {
    let mut state = with_sessions(&["a"]);
    state.insert_link(0, 1, alerted(81, 1, 8, 4), false, None);
    state.insert_link(0, 2, alerted(82, 2, 9, 0), false, None);
    state.previous_window_alert("a").expect("found");
    assert_eq!(state.sessions()[0].active, 1);
}

#[test]
fn window_alert_cycling_without_alerts_fails() {
    let mut state = with_sessions(&["a"]);
    state.insert_link(0, 1, alerted(81, 1, 8, 0), false, None);
    assert_eq!(state.next_window_alert("a"), Err(StateError::NotFound("no next window".to_string())));
    assert_eq!(state.previous_window_alert("a"), Err(StateError::NotFound("no previous window".to_string())));
    assert_eq!(state.next_window_alert("zz"), Err(StateError::NotFound("can't find session: zz".to_string())));
}

#[test]
fn a_new_window_goes_one_past_the_highest_index_or_where_asked() {
    let mut state = with_sessions(&["a"]);
    assert_eq!(state.new_window_slot("a", None, false, 0), Ok((0, 1)));
    assert_eq!(state.new_window_slot("a", None, false, 5), Ok((0, 5)));
    state.new_window_link(0, 2, 9, false, false, None, None);
    assert_eq!(state.new_window_slot("a", None, false, 0), Ok((0, 3)));
    let state = with_sessions(&["a"]);
    assert_eq!(state.new_window_slot("a", Some(3), false, 0), Ok((0, 3)));
    assert_eq!(
        state.new_window_slot("a", Some(0), false, 0),
        Err(StateError::AlreadyExists("create window failed: index 0 in use".to_string()))
    );
    assert_eq!(state.new_window_slot("a", Some(0), true, 0), Ok((0, 0)));
    assert_eq!(
        state.new_window_slot("zz", None, false, 0),
        Err(StateError::NotFound("can't find session: zz".to_string()))
    );
}

#[test]
fn linking_a_new_window_keeps_the_links_ordered() {
    let mut state = with_sessions(&["a"]);
    state.take_notifications();
    state.take_render_requests();
    assert_eq!(state.new_window_link(0, 1, 7, false, false, Some("w"), None), 1);
    assert_eq!(pairs(&state, 0), vec![(0, 0), (1, 7)]);
    assert_eq!(state.sessions()[0].active, 0);
    assert_eq!(
        state.take_render_requests(),
        vec![RenderRequest { session_id: Some(0), reason: RenderInvalidation::status() }]
    );
    let names: Vec<String> = state.take_notifications().into_iter().map(|n| n.name).collect();
    assert_eq!(names, vec!["window-linked".to_string()]);
}

#[test]
fn a_new_window_may_replace_the_one_at_its_index() {
    let mut state = with_sessions(&["a"]);
    state.take_notifications();
    assert_eq!(state.new_window_link(0, 0, 7, true, true, None, Some("old")), 0);
    assert_eq!(pairs(&state, 0), vec![(0, 7)]);
    let names: Vec<String> = state.take_notifications().into_iter().map(|n| n.name).collect();
    assert_eq!(names[0], "window-unlinked");
    assert_eq!(names[1], "window-linked");
}

#[test]
fn a_new_window_after_an_anchor_moves_the_run_up() {
    let mut state = with_sessions(&["a"]);
    state.replace_link_set(0, vec![link(50, 0, 0), link(51, 1, 1), link(52, 3, 2)]);
    assert_eq!(state.new_window_relative_slot("a", 0, true), Ok((0, 1, 2)));
    assert_eq!(state.new_window_relative_slot("a", 1, false), Ok((0, 1, 2)));
    assert_eq!(
        state.new_window_relative_slot("a", 9, true),
        Err(StateError::NotFound("can't find window: 9".to_string()))
    );
    assert_eq!(
        state.new_window_relative_slot("zz", 0, true),
        Err(StateError::NotFound("can't find session: zz".to_string()))
    );
    state.take_render_requests();
    assert_eq!(state.new_window_relative_link(0, 1, 2, 7, false, None), 1);
    assert_eq!(pairs(&state, 0), vec![(0, 0), (1, 7), (2, 1), (3, 2)]);
    assert_eq!(
        state.take_render_requests(),
        vec![RenderRequest { session_id: Some(0), reason: RenderInvalidation::status() }]
    );
}
