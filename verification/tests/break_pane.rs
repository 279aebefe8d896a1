use hmux::layout::{LayoutCell, PaneRect, SplitDirection};
use hmux::session::{Target, Winlink};
use hmux::state::panes::{PaneSlot, Window};
use hmux::state::{ServerState, StateError};

const CREATED: &str = "Mon Jan  1 00:00:00 2024";

fn window(id: u32, panes: &[u32]) -> Window {
    let rect = PaneRect { top: 0, left: 0, height: 24, width: 80 };
    let layout = if panes.len() == 1 {
        LayoutCell::pane(panes[0], 80, 24)
    } else {
        LayoutCell::even(panes, SplitDirection::LeftRight, rect)
    };
    Window {
        id,
        name: format!("w{id}"),
        panes: panes.iter().map(|&p| PaneSlot { id: p, exit_notified: false }).collect(),
        active: 0,
        last_pane: None,
        layout,
    }
}

fn session_with(windows: &[(u32, u32)]) -> ServerState {
    let mut state = ServerState::empty();
    state.create_session("0", windows[0].0, 0, CREATED.to_string(), 1_700_000_000, 0).expect("created");
    let links: Vec<Winlink> = windows
        .iter()
        .enumerate()
        .map(|(i, &(id, index))| Winlink { link_id: 100 + i as u64, index, id, alert_flags: 0 })
        .collect();
    state.replace_link_set(0, links);
    state
}

fn indices(state: &ServerState) -> Vec<(u32, u32)> {
    state.sessions()[0].windows.iter().map(|l| (l.index, l.id)).collect()
}

fn pane_ids(w: &Window) -> Vec<u32> {
    w.panes.iter().map(|p| p.id).collect()
}

#[test]
fn a_pane_among_others_gets_a_window_of_its_own() {
    let mut state = session_with(&[(0, 0)]);
    state.insert_window(window(0, &[1, 2]));
    let t = state
        .break_pane(Target { session: 0, window: 0, pane: 1 }, 0, None, 0, Some("solo"), true, None, 7)
        .expect("broken out");
    assert_eq!(t, Target { session: 0, window: 1, pane: 0 });
    assert_eq!(indices(&state), vec![(0, 0), (1, 7)]);
    let source = state.window_by_id(0).unwrap();
    assert_eq!(pane_ids(source), vec![1]);
    assert_eq!(source.active, 0);
    let made = state.window_by_id(7).unwrap();
    assert_eq!(pane_ids(made), vec![2]);
    assert_eq!(made.name, "solo");
    assert_eq!(made.layout.panes().iter().map(|(id, _)| *id).collect::<Vec<_>>(), vec![2]);
    let s = &state.sessions()[0];
    assert_eq!(s.windows[s.active].id, 7);
}

#[test]
fn a_requested_index_in_use_is_refused() {
    let mut state = session_with(&[(0, 0)]);
    state.insert_window(window(0, &[1, 2]));
    let err = state
        .break_pane(Target { session: 0, window: 0, pane: 1 }, 0, Some(0), 0, None, false, None, 7)
        .unwrap_err();
    assert!(matches!(err, StateError::AlreadyExists(_)));
    assert_eq!(err.message(), "index in use: 0");
    assert_eq!(indices(&state), vec![(0, 0)]);
    assert_eq!(pane_ids(state.window_by_id(0).unwrap()), vec![1, 2]);
}

#[test]
fn breaking_after_the_current_window_moves_the_later_ones_up() {
    let mut state = session_with(&[(0, 0), (1, 1)]);
    state.insert_window(window(0, &[1, 2]));
    state.insert_window(window(1, &[3]));
    let t = state
        .break_pane(Target { session: 0, window: 0, pane: 0 }, 0, None, 0, None, false, Some(true), 9)
        .expect("broken out");
    assert_eq!(t.window, 1);
    assert_eq!(indices(&state), vec![(0, 0), (1, 9), (2, 1)]);
    assert_eq!(pane_ids(state.window_by_id(0).unwrap()), vec![2]);
    assert_eq!(state.window_by_id(9).unwrap().name, "");
}

#[test]
fn a_lone_pane_moves_its_window() {
    let mut state = session_with(&[(0, 0), (1, 1)]);
    state.insert_window(window(0, &[1, 2]));
    state.insert_window(window(1, &[5]));
    let t = state
        .break_pane(Target { session: 0, window: 1, pane: 0 }, 0, Some(4), 0, Some("moved"), false, None, 9)
        .expect("moved");
    assert_eq!(indices(&state), vec![(0, 0), (4, 1)]);
    assert_eq!(state.sessions()[t.session].windows[t.window].id, 1);
    assert_eq!(state.window_by_id(1).unwrap().name, "moved");
    assert!(state.window_by_id(9).is_none());
}
