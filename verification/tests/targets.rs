use hmux::search::{
    incremental_search_argument, literal_match_ranges, matching_close, matching_open, search_uses_posix_regex,
};
use hmux::session::Winlink;
use hmux::state::ServerState;
use hmux::target::{pane_pos_in, parse_index_target, split_pane_target, window_special};

#[test]
fn a_pane_target_splits_at_its_last_dot() {
    assert_eq!(split_pane_target("s:1.2"), ("s:1", Some("2")));
    assert_eq!(split_pane_target("a.b:1.3"), ("a.b:1", Some("3")));
    assert_eq!(split_pane_target("s:1"), ("s:1", None));
}

#[test]
fn index_targets_name_a_session_and_an_index() {
    assert_eq!(parse_index_target("work:3"), (Some("work"), Some(3)));
    assert_eq!(parse_index_target(":2"), (None, Some(2)));
    assert_eq!(parse_index_target("5"), (None, Some(5)));
    assert_eq!(parse_index_target("work"), (Some("work"), None));
    assert_eq!(parse_index_target("work:x"), (Some("work"), None));
}

#[test]
fn special_window_tokens() {
    let mut state = ServerState::empty();
    state.create_session("0", 0, 0, String::new(), 0, 0).expect("created");
    let links = (0..3).map(|i| Winlink { link_id: i as u64 * 7, index: i, id: i, alert_flags: 0 }).collect();
    state.replace_link_set(0, links);
    let s = &state.sessions()[0];
    assert_eq!(window_special(s, "{start}"), Some(0));
    assert_eq!(window_special(s, "^"), Some(0));
    assert_eq!(window_special(s, "{end}"), Some(2));
    assert_eq!(window_special(s, "$"), Some(2));
    assert_eq!(window_special(s, "+"), Some(1));
    assert_eq!(window_special(s, "-"), Some(2));
    assert_eq!(window_special(s, "{last}"), None);
    assert_eq!(window_special(s, "1"), None);
}

#[test]
fn pane_specs_name_positions() {
    let panes = [5u32, 6, 7];
    assert_eq!(pane_pos_in(&panes, 1, None, "%6", 0), Some(1));
    assert_eq!(pane_pos_in(&panes, 1, None, "%9", 0), None);
    assert_eq!(pane_pos_in(&panes, 1, None, "2", 0), Some(2));
    assert_eq!(pane_pos_in(&panes, 1, None, "1", 1), Some(0));
    assert_eq!(pane_pos_in(&panes, 1, None, "{top}", 0), Some(0));
    assert_eq!(pane_pos_in(&panes, 1, None, "{bottom}", 0), Some(2));
    assert_eq!(pane_pos_in(&panes, 2, None, "+", 0), Some(0));
    assert_eq!(pane_pos_in(&panes, 1, Some(0), "{last}", 0), Some(0));
    assert_eq!(pane_pos_in(&panes, 1, None, "{last}", 0), None);
    assert_eq!(pane_pos_in(&[], 0, None, "0", 0), None);
}

#[test]
fn brackets_pair_up() {
    assert_eq!(matching_open(b')'), Some(b'('));
    assert_eq!(matching_open(b'}'), Some(b'{'));
    assert_eq!(matching_close(b'['), Some(b']'));
    assert_eq!(matching_open(b'x'), None);
    assert_eq!(matching_close(b'x'), None);
}

#[test]
fn patterns_with_regular_expression_characters_use_the_regex_engine() {
    assert!(search_uses_posix_regex("a.b"));
    assert!(search_uses_posix_regex("^start"));
    assert!(!search_uses_posix_regex("plain words"));
}

#[test]
fn an_incremental_search_argument_starts_with_its_direction() {
    assert_eq!(incremental_search_argument("/foo"), Some(('/', "foo")));
    assert_eq!(incremental_search_argument("?"), Some(('?', "")));
    assert_eq!(incremental_search_argument(""), None);
}

#[test]
fn literal_matches_do_not_overlap() {
    assert_eq!(literal_match_ranges("abcabc", "bc", false), vec![(1, 3), (4, 6)]);
    assert_eq!(literal_match_ranges("aaaa", "aa", false), vec![(0, 2), (2, 4)]);
    assert_eq!(literal_match_ranges("abc", "", false), vec![]);
    assert_eq!(literal_match_ranges("ab", "abc", false), vec![]);
}

#[test]
fn case_insensitive_matches_lower_the_text() {
    assert_eq!(literal_match_ranges("xABCx", "abc", true), vec![(1, 4)]);
    assert_eq!(literal_match_ranges("xABCx", "abc", false), vec![]);
}
