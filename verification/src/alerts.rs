use vstd::prelude::*;

verus! {

/// The bell alert bit.
pub const ALERT_BELL: u8 = 1;
/// The activity alert bit.
pub const ALERT_ACTIVITY: u8 = 2;
/// The silence alert bit.
pub const ALERT_SILENCE: u8 = 4;

/// What one pass saw of a window: whether its panes wrote output or rang
/// the bell since the last pass, when output last came (in microseconds),
/// and its `monitor-bell`, `monitor-activity` and `monitor-silence` (in
/// seconds, 0 for off) options.
#[derive(Clone, Copy, Debug, PartialEq, Eq)]
pub struct WindowActivity {
    pub output: bool,
    pub bell: bool,
    pub last_output: Option<i64>,
    pub monitor_bell: bool,
    pub monitor_activity: bool,
    pub monitor_silence: u64,
}

/// What the server remembers of a window's alerts between passes: when it
/// was last active (in microseconds), whether its silence was already
/// reported, and its pending `ALERT_*` bits.
#[derive(Clone, Copy, Debug, PartialEq, Eq)]
pub struct AlertMemory {
    pub last_activity: Option<i64>,
    pub silence_alerted: bool,
    pub pending: u8,
}

/// When the window was last active after this pass: its last output when
/// it wrote some, else what was remembered, else now.
pub open spec fn active_at(a: WindowActivity, m: AlertMemory, now: i64) -> i64 {
    if a.output {
        match a.last_output { Some(t) => t, None => now }
    } else {
        match m.last_activity { Some(t) => t, None => now }
    }
}

/// Whether the window's silence is reported in this pass: the monitor is
/// on, it was not reported since the window was last active, and the
/// window has been quiet for at least `monitor-silence` seconds.
pub open spec fn silence_due(a: WindowActivity, m: AlertMemory, now: i64) -> bool {
    &&& a.monitor_silence != 0
    &&& (a.output || !m.silence_alerted)
    &&& now - active_at(a, m, now) >= a.monitor_silence * 1_000_000
}

/// The pending bits after the conditions this pass raised are recorded.
pub open spec fn raised_pending(a: WindowActivity, m: AlertMemory, now: i64) -> u8 {
    let p1 = if a.bell { m.pending | ALERT_BELL } else { m.pending };
    let p2 = if a.output { p1 | ALERT_ACTIVITY } else { p1 };
    if silence_due(a, m, now) { p2 | ALERT_SILENCE } else { p2 }
}

/// Whether the condition `bit` is delivered from the pending bits
/// `pending`: its monitor is on, it was raised in this pass or the window is
/// being looked at again, and it is pending.
pub open spec fn delivered(monitored: bool, raised: bool, rechecked: bool, pending: u8, bit: u8) -> bool {
    monitored && (raised || rechecked) && pending & bit != 0
}

/// One pass of tmux's alert check over a window: the memory after it and
/// the `ALERT_*` bits to deliver, in the order bell, activity, silence. A
/// delivered bit is no longer pending.
pub open spec fn alert_pass(a: WindowActivity, m: AlertMemory, now: i64, rechecked: bool) -> (AlertMemory, Seq<u8>) {
    let silence = silence_due(a, m, now);
    let p0 = raised_pending(a, m, now);
    let bell = delivered(a.monitor_bell, a.bell, rechecked, p0, ALERT_BELL);
    let p1 = if bell { p0 & !ALERT_BELL } else { p0 };
    let activity = delivered(a.monitor_activity, a.output, rechecked, p1, ALERT_ACTIVITY);
    let p2 = if activity { p1 & !ALERT_ACTIVITY } else { p1 };
    let quiet = delivered(a.monitor_silence != 0, silence, rechecked, p2, ALERT_SILENCE);
    let p3 = if quiet { p2 & !ALERT_SILENCE } else { p2 };
    let out = (if bell { seq![ALERT_BELL] } else { Seq::empty() })
        + (if activity { seq![ALERT_ACTIVITY] } else { Seq::empty() })
        + (if quiet { seq![ALERT_SILENCE] } else { Seq::empty() });
    (AlertMemory {
        last_activity: Some(active_at(a, m, now)),
        silence_alerted: (m.silence_alerted && !a.output) || silence,
        pending: p3,
    }, out)
}

/// Run one pass of the alert check over a window (see [`alert_pass`]).
/// `rechecked` is whether a client just took a session showing it.
pub fn alert_step(a: WindowActivity, m: AlertMemory, now: i64, rechecked: bool) -> (result: (AlertMemory, Vec<u8>))
    ensures
        result.0 == alert_pass(a, m, now, rechecked).0,
        result.1@ == alert_pass(a, m, now, rechecked).1,
{
    let last = if a.output {
        match a.last_output { Some(t) => t, None => now }
    } else {
        match m.last_activity { Some(t) => t, None => now }
    };
    let silenced = m.silence_alerted && !a.output;
    let quiet_for = now as i128 - last as i128;
    let silence = a.monitor_silence != 0 && !silenced && quiet_for >= (a.monitor_silence as i128) * 1_000_000;
    let mut pending = m.pending;
    if a.bell {
        pending = pending | ALERT_BELL;
    }
    if a.output {
        pending = pending | ALERT_ACTIVITY;
    }
    if silence {
        pending = pending | ALERT_SILENCE;
    }
    let mut out: Vec<u8> = Vec::new();
    let bell = a.monitor_bell && (a.bell || rechecked) && pending & ALERT_BELL != 0;
    if bell {
        pending = pending & !ALERT_BELL;
        out.push(ALERT_BELL);
    }
    let activity = a.monitor_activity && (a.output || rechecked) && pending & ALERT_ACTIVITY != 0;
    if activity {
        pending = pending & !ALERT_ACTIVITY;
        out.push(ALERT_ACTIVITY);
    }
    let quiet = a.monitor_silence != 0 && (silence || rechecked) && pending & ALERT_SILENCE != 0;
    if quiet {
        pending = pending & !ALERT_SILENCE;
        out.push(ALERT_SILENCE);
    }
    proof {
        let (mem, bits) = alert_pass(a, m, now, rechecked);
        assert(out@ =~= bits);
    }
    (AlertMemory { last_activity: Some(last), silence_alerted: silenced || silence, pending }, out)
}

} // verus!
