use hmux::flags::ClientFlagState;

fn none() -> ClientFlagState {
    ClientFlagState::default()
}

#[test]
fn flags_are_set_and_cleared_by_name() {
    let mut flags = none();
    flags.apply_flags("no-output,wait-exit,active-pane");
    assert!(flags.no_output && flags.wait_exit && flags.active_pane);
    flags.apply_flags("!no-output,unknown");
    assert!(!flags.no_output);
    assert!(flags.wait_exit);
}

#[test]
fn pause_after_takes_seconds() {
    let mut flags = none();
    flags.apply_flags("pause-after=5");
    assert_eq!(flags.pause_after, Some(5));
    flags.apply_flags("pause-after");
    assert_eq!(flags.pause_after, Some(0));
    flags.apply_flags("pause-after=x");
    assert_eq!(flags.pause_after, Some(0));
    flags.apply_flags("!pause-after");
    assert_eq!(flags.pause_after, None);
}

#[test]
fn a_read_only_client_cannot_clear_read_only() {
    let mut flags = none();
    flags.apply_flags("read-only");
    flags.apply_flags("!read-only");
    assert!(flags.read_only);
}

#[test]
fn the_flag_word_sets_and_clears_each_bit() {
    let mut flags = none();
    assert_eq!(flags.client_flags(0x800), 0);
    flags.apply_flags("read-only,no-output");
    assert_eq!(flags.client_flags(0), 0x800 | 0x4000000);
    flags.apply_flags("pause-after=1,no-detach-on-destroy");
    assert_eq!(flags.client_flags(0x10000), 0x10000 | 0x800 | 0x4000000 | 0x100000000 | 0x8000000000);
}

#[test]
fn the_flag_list_follows_tmuxs_order() {
    let mut flags = none();
    assert_eq!(flags.display_flags(0), "attached,focused,control-mode");
    flags.apply_flags("read-only,ignore-size,pause-after=3,wait-exit");
    assert_eq!(
        flags.display_flags(0x10000),
        "attached,focused,control-mode,ignore-size,wait-exit,pause-after=3,read-only,UTF-8"
    );
    assert_eq!(flags.display_flags_with(0, false), "attached,focused,ignore-size,wait-exit,pause-after=3,read-only");
    assert_eq!(flags.display_flags_full(0, false, false), "attached,ignore-size,wait-exit,pause-after=3,read-only");
}

#[test]
fn attach_arguments_carry_their_flags() {
    let args: Vec<String> = ["-t", "0", "-f", "no-output", "-fwait-exit"].iter().map(|s| s.to_string()).collect();
    let flags = ClientFlagState::from_attach_args(&args, false);
    assert!(flags.no_output && flags.wait_exit);
    assert!(!flags.read_only);
}

#[test]
fn a_read_only_attach_also_ignores_size() {
    let args: Vec<String> = vec!["-r".to_string()];
    let flags = ClientFlagState::from_attach_args(&args, true);
    assert!(flags.read_only && flags.ignore_size);
}
