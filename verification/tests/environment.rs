use hmux::env::Environment;
use hmux::state::ServerState;

#[test]
fn a_set_variable_reads_back() {
    let mut env = Environment::new();
    assert!(env.set("TERM", "xterm"));
    assert_eq!(env.get("TERM"), Some("xterm"));
    assert!(!env.set("TERM", "xterm"));
    assert!(env.set("TERM", "screen"));
    assert_eq!(env.get("TERM"), Some("screen"));
}

#[test]
fn hidden_variables_are_marked_hidden() {
    let mut env = Environment::new();
    env.set_hidden("SECRET", "v");
    assert_eq!(env.get("SECRET"), Some("v"));
    assert!(env.is_hidden("SECRET"));
    env.set("SECRET", "w");
    assert!(!env.is_hidden("SECRET"));
}

#[test]
fn removing_marks_the_variable_and_unsetting_forgets_it() {
    let mut env = Environment::new();
    env.set("A", "1");
    assert!(env.remove("A"));
    assert_eq!(env.get("A"), None);
    assert!(env.is_removed("A"));
    assert_eq!(env.removed_names(), vec!["A".to_string()]);
    assert!(env.unset("A"));
    assert!(!env.is_removed("A"));
    assert!(!env.unset("A"));
}

#[test]
fn entries_are_in_name_order() {
    let mut env = Environment::new();
    env.set("B", "2");
    env.set("A", "1");
    env.set("C", "3");
    let names: Vec<&str> = env.entries().iter().map(|(k, _)| k.as_str()).collect();
    assert_eq!(names, vec!["A", "B", "C"]);
}

#[test]
fn the_global_environment_of_the_server() {
    let mut state = ServerState::empty();
    state.set_env("PATH", "/bin");
    assert_eq!(state.get_env("PATH"), Some("/bin"));
    state.set_hidden_env("TOKEN", "x");
    assert!(state.env_is_hidden("TOKEN"));
    state.remove_env("PATH");
    assert!(state.env_is_removed("PATH"));
    assert_eq!(state.get_env("PATH"), None);
    assert_eq!(state.removed_env_iter(), vec!["PATH".to_string()]);
    state.unset_env("TOKEN");
    assert_eq!(state.get_env("TOKEN"), None);
    assert_eq!(state.env_iter().len(), 0);
}
