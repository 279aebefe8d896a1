use hmux::alerts::{alert_step, AlertMemory, WindowActivity, ALERT_ACTIVITY, ALERT_BELL, ALERT_SILENCE};

fn quiet_window() -> WindowActivity {
    WindowActivity {
        output: false,
        bell: false,
        last_output: None,
        monitor_bell: true,
        monitor_activity: false,
        monitor_silence: 0,
    }
}

fn fresh() -> AlertMemory {
    AlertMemory { last_activity: None, silence_alerted: false, pending: 0 }
}

#[test]
fn a_monitored_bell_is_delivered_and_no_longer_pending() {
    let a = WindowActivity { bell: true, ..quiet_window() };
    let (m, out) = alert_step(a, fresh(), 100, false);
    assert_eq!(out, vec![ALERT_BELL]);
    assert_eq!(m.pending, 0);
    assert_eq!(m.last_activity, Some(100));
}

#[test]
fn unmonitored_activity_stays_pending_until_looked_at() {
    let a = WindowActivity { output: true, last_output: Some(40), ..quiet_window() };
    let (m, out) = alert_step(a, fresh(), 100, false);
    assert!(out.is_empty());
    assert_eq!(m.pending, ALERT_ACTIVITY);
    assert_eq!(m.last_activity, Some(40));
    let watched = WindowActivity { monitor_activity: true, ..quiet_window() };
    let (m2, out2) = alert_step(watched, m, 200, true);
    assert_eq!(out2, vec![ALERT_ACTIVITY]);
    assert_eq!(m2.pending, 0);
}

#[test]
fn silence_is_reported_once_after_the_quiet_period() {
    let a = WindowActivity { monitor_silence: 5, ..quiet_window() };
    let start = AlertMemory { last_activity: Some(0), silence_alerted: false, pending: 0 };
    let (early, none) = alert_step(a, start, 4_999_999, false);
    assert!(none.is_empty());
    assert!(!early.silence_alerted);
    let (m, out) = alert_step(a, start, 5_000_000, false);
    assert_eq!(out, vec![ALERT_SILENCE]);
    assert!(m.silence_alerted);
    let (_, again) = alert_step(a, m, 9_000_000, false);
    assert!(again.is_empty());
}
