use hmux::wait::WaitRegistry;

#[test]
fn a_signal_is_not_lost() {
    let mut channels = WaitRegistry::new();
    channels.signal("ready");
    assert!(channels.wait("ready"));
    assert!(!channels.wait("ready"));
}

#[test]
fn a_waiter_is_woken_by_a_later_signal() {
    let mut channels = WaitRegistry::new();
    assert!(!channels.wait("job"));
    assert!(!channels.woken("job"));
    channels.signal("job");
    assert!(channels.woken("job"));
    assert!(!channels.wait("job"));
}

#[test]
fn every_waiter_of_a_woken_channel_is_released() {
    let mut channels = WaitRegistry::new();
    assert!(!channels.wait("job"));
    assert!(!channels.wait("job"));
    channels.signal("job");
    assert!(channels.woken("job"));
    assert!(channels.woken("job"));
}

#[test]
fn a_lock_excludes_until_it_is_released() {
    let mut channels = WaitRegistry::new();
    assert!(channels.lock("l"));
    assert!(!channels.lock("l"));
    assert!(channels.unlock("l"));
    assert!(!channels.unlock("l"));
    assert!(channels.lock("l"));
}

#[test]
fn unlocking_an_unknown_channel_fails() {
    let mut channels = WaitRegistry::new();
    assert!(!channels.unlock("nothing"));
}

#[test]
fn a_locked_channel_keeps_its_lock_after_a_signal_is_consumed() {
    let mut channels = WaitRegistry::new();
    assert!(channels.lock("l"));
    channels.signal("l");
    assert!(channels.wait("l"));
    assert!(!channels.lock("l"));
    assert!(channels.unlock("l"));
}
