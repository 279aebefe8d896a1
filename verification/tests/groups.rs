use hmux::render::RenderInvalidation;
use hmux::session::{Target, Winlink};
use hmux::state::{RenderRequest, ServerState, StateError};

fn link(link_id: u64, index: u32, id: u32) -> Winlink {
    Winlink { link_id, index, id, alert_flags: 0 }
}

fn create(state: &mut ServerState, name: &str, window: u32) {
    state.create_session(name, window, 0, String::new(), 0, 0).expect("created");
}

fn join(state: &mut ServerState, name: &str, target: &str) -> u32 {
    state.create_grouped_session(name, target, 99, 0, String::new(), 0, 0).expect("joined")
}

#[test]
fn a_grouped_session_shares_its_targets_windows() {
    let mut state = ServerState::empty();
    create(&mut state, "a", 0);
    state.replace_link_set(0, vec![link(0, 0, 0), link(50, 1, 5)]);
    let id = join(&mut state, "b", "a");
    assert_eq!(id, 1);
    let a = &state.sessions()[0];
    let b = &state.sessions()[1];
    assert_eq!(b.windows, a.windows);
    assert_eq!(b.link_set_id, a.link_set_id);
    assert_eq!(b.active, 0);
    assert!(state.is_grouped(b));
    assert_eq!(state.session_group_name(b), Some("a"));
    assert_eq!(state.session_group_size(b), 2);
}

#[test]
fn group_members_follow_each_others_windows() {
    let mut state = ServerState::empty();
    create(&mut state, "a", 0);
    join(&mut state, "b", "a");
    state.replace_link_set(0, vec![link(0, 0, 0), link(50, 1, 5), link(51, 2, 6)]);
    let ids: Vec<u32> = state.sessions()[1].windows.iter().map(|w| w.id).collect();
    assert_eq!(ids, vec![0, 5, 6]);
}

#[test]
fn a_new_group_is_called_after_its_target() {
    let mut state = ServerState::empty();
    create(&mut state, "x", 0);
    join(&mut state, "y", "team");
    let y = &state.sessions()[1];
    assert_eq!(state.session_group_name(y), Some("team"));
    assert_ne!(y.link_set_id, state.sessions()[0].link_set_id);
    join(&mut state, "z", "team");
    let z = &state.sessions()[2];
    assert_eq!(z.link_set_id, state.sessions()[1].link_set_id);
}

#[test]
fn a_unique_prefix_names_the_target_session() {
    let mut state = ServerState::empty();
    create(&mut state, "alpha", 0);
    join(&mut state, "b", "al");
    assert_eq!(state.sessions()[1].link_set_id, state.sessions()[0].link_set_id);
    assert_eq!(state.session_group_name(&state.sessions()[1]), Some("alpha"));
}

#[test]
fn joining_under_a_taken_name_is_refused() {
    let mut state = ServerState::empty();
    create(&mut state, "a", 0);
    let err = state.create_grouped_session("a", "a", 1, 0, String::new(), 0, 0).unwrap_err();
    assert_eq!(err, StateError::AlreadyExists("duplicate session: a".to_string()));
}

#[test]
fn grouped_sessions_cannot_swap_or_move_windows_between_them() {
    let mut state = ServerState::empty();
    create(&mut state, "a", 0);
    join(&mut state, "b", "a");
    let a = Target { session: 0, window: 0, pane: 0 };
    let b = Target { session: 1, window: 0, pane: 0 };
    assert_eq!(
        state.swap_window(a, b, false),
        Err(StateError::Refused("can't move window, sessions are grouped".to_string()))
    );
    assert_eq!(
        state.move_window(a, 1, 4, false, false),
        Err(StateError::Refused("sessions are grouped".to_string()))
    );
}

#[test]
fn killing_a_session_group_removes_every_member() {
    let mut state = ServerState::empty();
    create(&mut state, "a", 0);
    join(&mut state, "b", "a");
    create(&mut state, "c", 1);
    state.take_render_requests();
    assert!(state.kill_session_group("b", true));
    assert_eq!(state.sessions().len(), 1);
    assert_eq!(state.sessions()[0].name, "c");
    let gone = RenderInvalidation::session_gone();
    assert_eq!(
        state.take_render_requests(),
        vec![
            RenderRequest { session_id: Some(0), reason: gone },
            RenderRequest { session_id: Some(1), reason: gone },
        ]
    );
    assert!(!state.shutdown_requested());
}

#[test]
fn a_group_goes_when_its_last_member_is_killed() {
    let mut state = ServerState::empty();
    create(&mut state, "a", 0);
    join(&mut state, "b", "a");
    assert!(state.kill_session("a", false));
    assert_eq!(state.session_group_name(&state.sessions()[0]), Some("a"));
    assert!(state.kill_session("b", false));
    create(&mut state, "d", 2);
    assert!(!state.is_grouped(&state.sessions()[0]));
}
