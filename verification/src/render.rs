use vstd::prelude::*;
use crate::text::{equals_at, starts_with_at, to_chars};

verus! {

/// Coalesced reasons an attached client's compositor must inspect server state.
#[derive(Clone, Copy, Debug, Default, PartialEq, Eq, Structural)]
pub struct RenderInvalidation(pub u8);

impl RenderInvalidation {
    /// The status line must be redrawn.
    pub fn status() -> (reason: Self)
        ensures
            reason.0 == 1,
    {
        RenderInvalidation(1)
    }

    /// Pane geometry changed.
    pub fn layout() -> (reason: Self)
        ensures
            reason.0 == 2,
    {
        RenderInvalidation(2)
    }

    /// The client's session was destroyed.
    pub fn session_gone() -> (reason: Self)
        ensures
            reason.0 == 4,
    {
        RenderInvalidation(4)
    }

    /// A pane mode must be reset.
    pub fn reset_mode() -> (reason: Self)
        ensures
            reason.0 == 8,
    {
        RenderInvalidation(8)
    }

    /// A pane mode's content changed.
    pub fn mode() -> (reason: Self)
        ensures
            reason.0 == 16,
    {
        RenderInvalidation(16)
    }

    /// The client's terminal description changed.
    pub fn terminal() -> (reason: Self)
        ensures
            reason.0 == 32,
    {
        RenderInvalidation(32)
    }

    pub fn bits(self) -> (bits: u8)
        ensures
            bits == self.0,
    {
        self.0
    }

    pub fn is_empty(self) -> (empty: bool)
        ensures
            empty == (self.0 == 0),
    {
        self.0 == 0
    }

    /// Whether the two sets share a reason.
    pub fn contains(self, other: Self) -> (shared: bool)
        ensures
            shared == (self.0 & other.0 != 0),
    {
        self.0 & other.0 != 0
    }

    /// Both sets of reasons together.
    pub fn bitor(self, rhs: Self) -> (both: Self)
        ensures
            both.0 == self.0 | rhs.0,
    {
        RenderInvalidation(self.0 | rhs.0)
    }
}

/// The DSR reply announcing a theme to a pane.
pub fn theme_report(theme: &str) -> (reply: Vec<u8>)
    ensures
        reply@ == (if theme@ == "dark"@ {
            seq![0x1bu8, 0x5bu8, 0x3fu8, 0x39u8, 0x39u8, 0x37u8, 0x3bu8, 0x31u8, 0x6eu8]
        } else {
            seq![0x1bu8, 0x5bu8, 0x3fu8, 0x39u8, 0x39u8, 0x37u8, 0x3bu8, 0x32u8, 0x6eu8]
        }),
{
    let chars = to_chars(theme);
    proof {
        assert(chars@.subrange(0, chars@.len() as int) =~= theme@);
    }
    if equals_at(chars.as_slice(), 0, chars.len(), "dark") {
        vec![0x1bu8, 0x5bu8, 0x3fu8, 0x39u8, 0x39u8, 0x37u8, 0x3bu8, 0x31u8, 0x6eu8]
    } else {
        vec![0x1bu8, 0x5bu8, 0x3fu8, 0x39u8, 0x39u8, 0x37u8, 0x3bu8, 0x32u8, 0x6eu8]
    }
}

/// `p` begins `s`.
pub open spec fn has_prefix(s: Seq<char>, p: Seq<char>) -> bool {
    s.len() >= p.len() && s.take(p.len() as int) == p
}

/// The options whose value changes what an attached client draws.
pub open spec fn render_option(key: Seq<char>) -> bool {
    ||| key == "pane-border-indicators"@
    ||| key == "set-titles"@
    ||| key == "set-titles-string"@
    ||| key == "status"@
    ||| key == "status-interval"@
    ||| key == "status-justify"@
    ||| key == "status-left"@
    ||| key == "status-left-length"@
    ||| key == "status-left-style"@
    ||| key == "status-position"@
    ||| key == "status-right"@
    ||| key == "status-right-length"@
    ||| key == "status-right-style"@
    ||| key == "status-style"@
    ||| key == "status-format"@
    ||| key == "terminal-features"@
    ||| key == "terminal-overrides"@
    ||| key == "window-pane-current-status-format"@
    ||| key == "window-pane-status-format"@
    ||| key == "pane-status-current-style"@
    ||| key == "pane-status-style"@
    ||| key == "session-status-current-style"@
    ||| key == "session-status-style"@
    ||| key == "window-status-activity-style"@
    ||| key == "window-status-bell-style"@
    ||| key == "window-status-current-format"@
    ||| key == "window-status-current-style"@
    ||| key == "window-status-format"@
    ||| key == "window-status-last-style"@
    ||| key == "window-status-separator"@
    ||| key == "window-status-style"@
    ||| has_prefix(key, "status-format["@)
    ||| has_prefix(key, "terminal-features["@)
    ||| has_prefix(key, "terminal-overrides["@)
}

/// Whether changing the option `key` changes what attached clients draw.
pub fn option_affects_render(key: &str) -> (affects: bool)
    ensures
        affects == render_option(key@),
{
    let chars = to_chars(key);
    let len = chars.len();
    let c = chars.as_slice();
    proof {
        assert(chars@.subrange(0, len as int) =~= key@);
        assert(forall|n: int| 0 <= n <= len ==> chars@.subrange(0, n) =~= key@.take(n));
    }
        equals_at(c, 0, len, "pane-border-indicators") ||
        equals_at(c, 0, len, "set-titles") ||
        equals_at(c, 0, len, "set-titles-string") ||
        equals_at(c, 0, len, "status") ||
        equals_at(c, 0, len, "status-interval") ||
        equals_at(c, 0, len, "status-justify") ||
        equals_at(c, 0, len, "status-left") ||
        equals_at(c, 0, len, "status-left-length") ||
        equals_at(c, 0, len, "status-left-style") ||
        equals_at(c, 0, len, "status-position") ||
        equals_at(c, 0, len, "status-right") ||
        equals_at(c, 0, len, "status-right-length") ||
        equals_at(c, 0, len, "status-right-style") ||
        equals_at(c, 0, len, "status-style") ||
        equals_at(c, 0, len, "status-format") ||
        equals_at(c, 0, len, "terminal-features") ||
        equals_at(c, 0, len, "terminal-overrides") ||
        equals_at(c, 0, len, "window-pane-current-status-format") ||
        equals_at(c, 0, len, "window-pane-status-format") ||
        equals_at(c, 0, len, "pane-status-current-style") ||
        equals_at(c, 0, len, "pane-status-style") ||
        equals_at(c, 0, len, "session-status-current-style") ||
        equals_at(c, 0, len, "session-status-style") ||
        equals_at(c, 0, len, "window-status-activity-style") ||
        equals_at(c, 0, len, "window-status-bell-style") ||
        equals_at(c, 0, len, "window-status-current-format") ||
        equals_at(c, 0, len, "window-status-current-style") ||
        equals_at(c, 0, len, "window-status-format") ||
        equals_at(c, 0, len, "window-status-last-style") ||
        equals_at(c, 0, len, "window-status-separator") ||
        equals_at(c, 0, len, "window-status-style") ||
        starts_with_at(c, 0, len, "status-format[") ||
        starts_with_at(c, 0, len, "terminal-features[") ||
        starts_with_at(c, 0, len, "terminal-overrides[")
}

/// What a client must redraw after the option `key` changed: the terminal
/// and status line (bits 32 and 1) for terminal descriptions, the status
/// line and layout (bits 1 and 2)
/// for `status` and `status-position`, the layout (bit 2) for
/// `pane-border-indicators`, and otherwise the status line (bit 1).
pub open spec fn option_reasons(key: Seq<char>) -> u8 {
    if key == "terminal-features"@ || key == "terminal-overrides"@ || has_prefix(key, "terminal-features["@)
        || has_prefix(key, "terminal-overrides["@) {
        33
    } else if key == "status"@ || key == "status-position"@ {
        3
    } else if key == "pane-border-indicators"@ {
        2
    } else {
        1
    }
}

/// The redraw reasons a change of the option `key` raises.
pub fn option_invalidation(key: &str) -> (reasons: RenderInvalidation)
    ensures
        reasons.0 == option_reasons(key@),
{
    let chars = to_chars(key);
    let len = chars.len();
    let c = chars.as_slice();
    proof {
        assert(chars@.subrange(0, len as int) =~= key@);
        assert(forall|n: int| 0 <= n <= len ==> chars@.subrange(0, n) =~= key@.take(n));
    }
    assert(32u8 | 1u8 == 33u8) by (bit_vector);
    assert(1u8 | 2u8 == 3u8) by (bit_vector);
    if equals_at(c, 0, len, "terminal-features") || equals_at(c, 0, len, "terminal-overrides")
        || starts_with_at(c, 0, len, "terminal-features[") || starts_with_at(c, 0, len, "terminal-overrides[") {
        RenderInvalidation::terminal().bitor(RenderInvalidation::status())
    } else if equals_at(c, 0, len, "status") || equals_at(c, 0, len, "status-position") {
        RenderInvalidation::status().bitor(RenderInvalidation::layout())
    } else if equals_at(c, 0, len, "pane-border-indicators") {
        RenderInvalidation::layout()
    } else {
        RenderInvalidation::status()
    }
}

} // verus!
