use hmux::layout::{LayoutCell, PaneRect, SplitDirection};
use hmux::session::Winlink;
use hmux::state::panes::{PaneSlot, Window};
use hmux::state::ServerState;

const CREATED: &str = "Mon Jan  1 00:00:00 2024";

fn window(id: u32, panes: &[u32], active: usize, last_pane: Option<usize>) -> Window {
    let rect = PaneRect { top: 0, left: 0, height: 24, width: 80 };
    let layout = if panes.len() == 1 {
        LayoutCell::pane(panes[0], 80, 24)
    } else {
        LayoutCell::even(panes, SplitDirection::LeftRight, rect)
    };
    Window {
        id,
        name: format!("w{id}"),
        panes: panes.iter().map(|&p| PaneSlot { id: p, exit_notified: false }).collect(),
        active,
        last_pane,
        layout,
    }
}

fn layout_ids(w: &Window) -> Vec<u32> {
    w.layout.panes().iter().map(|(id, _)| *id).collect()
}

fn pane_ids(w: &Window) -> Vec<u32> {
    w.panes.iter().map(|p| p.id).collect()
}

fn one_session(windows: &[u32]) -> ServerState {
    let mut state = ServerState::empty();
    state.create_session("0", windows[0], 0, CREATED.to_string(), 1_700_000_000, 0).expect("created");
    let links: Vec<Winlink> = windows
        .iter()
        .enumerate()
        .map(|(i, &id)| Winlink { link_id: 100 + i as u64, index: i as u32, id, alert_flags: 0 })
        .collect();
    state.replace_link_set(0, links);
    state
}

#[test]
fn an_exited_pane_leaves_its_window_and_the_active_pane_is_kept() {
    let mut state = one_session(&[0]);
    state.insert_window(window(0, &[1, 2, 3], 2, Some(0)));
    assert!(state.reap_exited_panes(&vec![2], &vec![], true));
    let w = state.window_by_id(0).unwrap();
    assert_eq!(pane_ids(w), vec![1, 3]);
    assert_eq!(w.active, 1);
    assert_eq!(w.last_pane, Some(0));
    assert_eq!(layout_ids(w), vec![1, 3]);
    let notes = state.take_deferred_notifications();
    assert_eq!(notes.len(), 1);
    assert_eq!(notes[0].name, "pane-exited");
    assert_eq!(notes[0].target.as_deref(), Some("%2"));
    assert!(!state.shutdown_requested());
}

#[test]
fn a_retained_pane_stays_and_is_announced_once() {
    let mut state = one_session(&[0]);
    state.insert_window(window(0, &[1, 2], 0, None));
    assert!(!state.reap_exited_panes(&vec![2], &vec![2], true));
    assert_eq!(pane_ids(state.window_by_id(0).unwrap()), vec![1, 2]);
    let notes = state.take_deferred_notifications();
    assert_eq!(notes.len(), 1);
    assert_eq!(notes[0].name, "pane-died");
    assert_eq!(notes[0].target.as_deref(), Some("%2"));
    assert!(!state.reap_exited_panes(&vec![2], &vec![2], true));
    assert!(state.take_deferred_notifications().is_empty());
}

#[test]
fn the_active_pane_going_pulls_the_position_back() {
    let mut state = one_session(&[0]);
    state.insert_window(window(0, &[1, 2, 3], 2, Some(2)));
    assert!(state.reap_exited_panes(&vec![3], &vec![], true));
    let w = state.window_by_id(0).unwrap();
    assert_eq!(pane_ids(w), vec![1, 2]);
    assert_eq!(w.active, 1);
    assert_eq!(w.last_pane, None);
}

#[test]
fn an_emptied_window_is_unlinked() {
    let mut state = one_session(&[0, 1]);
    state.insert_window(window(0, &[1], 0, None));
    state.insert_window(window(1, &[5], 0, None));
    assert!(state.reap_exited_panes(&vec![5], &vec![], true));
    let ids: Vec<u32> = state.sessions()[0].windows.iter().map(|l| l.id).collect();
    assert_eq!(ids, vec![0]);
    assert!(state.window_by_id(1).is_none());
    assert_eq!(state.windows().len(), 1);
    assert!(!state.shutdown_requested());
}

#[test]
fn the_last_pane_going_closes_the_session_and_stops_the_server() {
    let mut state = one_session(&[0]);
    state.insert_window(window(0, &[1], 0, None));
    assert!(state.reap_exited_panes(&vec![1], &vec![], true));
    assert!(state.sessions().is_empty());
    assert!(state.windows().is_empty());
    assert!(state.shutdown_requested());
}

#[test]
fn without_exit_empty_the_server_stays() {
    let mut state = one_session(&[0]);
    state.insert_window(window(0, &[1], 0, None));
    assert!(state.reap_exited_panes(&vec![1], &vec![], false));
    assert!(state.sessions().is_empty());
    assert!(!state.shutdown_requested());
}

#[test]
fn reaping_an_empty_server_changes_nothing() {
    let mut state = ServerState::empty();
    assert!(!state.reap_exited_panes(&vec![], &vec![], true));
    assert!(!state.shutdown_requested());
    assert!(state.initial_attach_pending());
}

#[test]
fn a_window_record_checks_its_layout_against_its_panes() {
    assert!(window(0, &[1, 2, 3], 0, None).is_consistent());
    assert!(window(0, &[4], 0, None).is_consistent());
    let mut odd = window(0, &[1, 2], 0, None);
    odd.panes.push(PaneSlot { id: 3, exit_notified: false });
    assert!(!odd.is_consistent());
    let mut missing = window(0, &[1, 2], 0, None);
    missing.panes.pop();
    assert!(!missing.is_consistent());
}

#[test]
fn exited_last_pane_requests_exit_empty_shutdown() {
    let mut state = ServerState::empty();
    state.create_session("0", 0, 0, CREATED.to_string(), 1_700_000_000, 0).expect("create short-lived pane");
    state.insert_window(window(0, &[0], 0, None));
    // The pane's child has exited (`exit 0`); nothing keeps the pane.
    assert!(state.reap_exited_panes(&vec![0], &vec![], true));
    assert!(state.sessions().is_empty());
    assert!(state.shutdown_requested());
}
