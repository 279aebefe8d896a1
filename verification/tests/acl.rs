use hmux::state::acl::{acl_line, AclAccess, AclJoin};
use hmux::state::ServerState;

fn state_owned_by(uid: u32) -> ServerState {
    let mut state = ServerState::empty();
    state.set_owner_uid(uid);
    state.seed_server_acl();
    state
}

#[test]
fn seeding_adds_the_owner_and_root() {
    let state = state_owned_by(1000);
    assert_eq!(state.acl_entry(1000), Some(AclAccess::Write));
    assert_eq!(state.acl_entry(0), Some(AclAccess::Write));
    assert_eq!(state.acl_entry(1001), None);
}

#[test]
fn a_root_owned_server_lists_root_once() {
    let state = state_owned_by(0);
    assert_eq!(state.acl_entry(0), Some(AclAccess::Write));
    assert_eq!(state.acl_len(), 1);
}

#[test]
fn an_unlisted_or_unknown_peer_is_denied() {
    let state = state_owned_by(1000);
    assert_eq!(state.acl_join(Some(1001)), AclJoin::Denied);
    assert_eq!(state.acl_join(None), AclJoin::Denied);
}

#[test]
fn a_listed_peer_joins_under_its_entrys_access() {
    let mut state = state_owned_by(1000);
    state.acl_allow(1001);
    assert_eq!(state.acl_join(Some(1001)), AclJoin::Allowed { read_only: false });
    state.acl_set_access(1001, AclAccess::ReadOnly);
    assert_eq!(state.acl_join(Some(1001)), AclJoin::Allowed { read_only: true });
    state.acl_set_access(1001, AclAccess::Write);
    assert_eq!(state.acl_join(Some(1001)), AclJoin::Allowed { read_only: false });
}

#[test]
fn allowing_an_existing_entry_keeps_its_access() {
    let mut state = state_owned_by(1000);
    state.acl_allow(1001);
    state.acl_set_access(1001, AclAccess::ReadOnly);
    state.acl_allow(1001);
    assert_eq!(state.acl_entry(1001), Some(AclAccess::ReadOnly));
}

#[test]
fn denying_removes_the_entry_and_setting_access_on_a_missing_one_is_a_no_op() {
    let mut state = state_owned_by(1000);
    state.acl_allow(1001);
    state.acl_deny(1001);
    assert_eq!(state.acl_entry(1001), None);
    assert!(!state.acl_set_access(1001, AclAccess::ReadOnly));
    assert_eq!(state.acl_entry(1001), None);
}

#[test]
fn the_listing_skips_root_and_marks_access() {
    let mut state = state_owned_by(1000);
    state.acl_allow(4_000_000_001);
    state.acl_set_access(4_000_000_001, AclAccess::ReadOnly);
    let listing: String = state
        .acl_listing()
        .into_iter()
        .map(|(uid, access)| {
            let name = if uid == 1000 { "owner" } else { "unknown" };
            acl_line(name, access)
        })
        .collect();
    assert!(!listing.contains("root"));
    assert!(listing.contains("unknown (R)\n"));
    assert_eq!(listing, "owner (W)\nunknown (R)\n");
}

#[test]
fn the_listing_is_in_uid_order_without_root() {
    let mut state = state_owned_by(1000);
    state.acl_allow(7);
    state.acl_allow(500);
    state.acl_set_access(500, AclAccess::ReadOnly);
    assert_eq!(
        state.acl_listing(),
        vec![(7, AclAccess::Write), (500, AclAccess::ReadOnly), (1000, AclAccess::Write)]
    );
}

#[test]
fn the_access_denied_message() {
    assert_eq!(hmux::state::acl::access_denied(), "access not allowed");
}
