use vstd::prelude::*;
use crate::env::Environment;
use crate::text::{decimal, push_decimal, push_text, to_chars};

verus! {

/// A session-facing link to a globally owned window.
#[derive(Clone, Copy, Debug, PartialEq, Eq, Structural)]
pub struct Winlink {
    /// Stable identity of this logical link within its synchronization domain.
    pub link_id: u64,
    /// The client-visible window index (`#{window_index}`).
    pub index: u32,
    /// Stable identity of the linked window.
    pub id: u32,
    pub alert_flags: u8,
}

pub const ALERT_BELL: u8 = 0x1;
pub const ALERT_ACTIVITY: u8 = 0x2;
pub const ALERT_SILENCE: u8 = 0x4;

/// One session: an ordered winlink set plus session-local selection and size.
pub struct Session {
    pub id: u32,
    pub name: String,
    pub windows: Vec<Winlink>,
    /// Identity of the session group synchronization domain. Grouped sessions
    /// use the same value; ungrouped sessions have unique values.
    pub link_set_id: u32,
    /// Vec position of the active window.
    pub active: usize,
    /// Vec position of the previously-active window.
    pub last_active: Option<usize>,
    /// Most-recently-used winlink identities excluding the current window.
    pub last_windows: Vec<u64>,
    pub cols: u16,
    pub rows: u16,
    /// Creation time, formatted like tmux's `(created ...)` stamp.
    pub created: String,
    /// Creation time as Unix epoch seconds (`#{session_created}`).
    pub created_epoch: i64,
    /// Last activity, in microseconds since the epoch.
    pub activity_micros: i64,
    /// When a client last attached, in microseconds since the epoch; zero
    /// while the session has never been attached.
    pub last_attached_micros: i64,
    /// The activity value the automatic lock last fired for.
    pub locked_at_activity_micros: Option<i64>,
    /// The session's own environment (`set-environment -t`).
    pub environment: Environment,
}

/// The text of a `list-sessions` summary line.
pub open spec fn summary_text(name: Seq<char>, windows: nat, created: Seq<char>) -> Seq<char> {
    name + ": "@ + decimal(windows) + " windows (created "@ + created + ")"@
}

impl Session {
    /// A `list-sessions`-style summary line,
    /// `#{session_name}: #{session_windows} windows (created ...)`. The word
    /// is always the plural "windows", even for a single window.
    pub fn summary(&self) -> (line: String)
        ensures
            line@ == summary_text(self.name@, self.windows@.len(), self.created@),
    {
        let mut line = String::new();
        push_text(&mut line, self.name.as_str());
        push_text(&mut line, ": ");
        push_decimal(&mut line, self.windows.len() as u64);
        push_text(&mut line, " windows (created ");
        push_text(&mut line, self.created.as_str());
        push_text(&mut line, ")");
        line
    }
}

/// A resolved `target` (`session[:window]`): indices into the session/window
/// tree plus the active pane index of that window.
#[derive(Clone, Copy, Debug, PartialEq, Eq, Structural)]
pub struct Target {
    pub session: usize,
    pub window: usize,
    pub pane: usize,
}

/// A key-table entry installed by `bind-key`.
#[derive(Clone, Debug, PartialEq, Eq)]
pub struct KeyBinding {
    pub repeat: bool,
    pub note: Option<String>,
    pub command: Vec<String>,
}

/// A binding as a key table holds it: the table's name, the key's name and
/// what the key runs.
#[derive(Clone, Debug, PartialEq, Eq)]
pub struct KeyEntry {
    pub table: String,
    pub key: String,
    pub binding: KeyBinding,
}

#[verifier::external_type_specification]
#[verifier::external_body]
pub struct ExPathBuf(std::path::PathBuf);

/// How to back a new pane's screen.
pub enum PaneSpec {
    /// A screen with no child process.
    Inert,
    /// Spawn this argv on a pty and drain it into the screen.
    Command(Vec<String>),
    /// Spawn this argv with an explicit working directory.
    CommandIn(Vec<String>, std::path::PathBuf),
}

/// How Rust's `Debug` writes the text `s`: quoted, with special characters
/// escaped.
pub uninterp spec fn debug_quote(s: Seq<char>) -> Seq<char>;

/// `format!("{:?}", s)`. The documentation of `str`'s `Debug` says the text
/// is written between double quotes with `char::escape_debug` applied to
/// it; the escaping is not stated here beyond naming the result.
#[verifier::external_body]
fn debug_quoted(s: &str) -> (quoted: String)
    ensures
        quoted@ == debug_quote(s@),
        quoted@.len() >= 2,
        quoted@[0] == '"',
        quoted@.last() == '"',
{
    format!("{:?}", s)
}

/// A character a shell word may hold unquoted in `#{pane_start_command}`.
pub open spec fn plain_char(c: char) -> bool {
    ('a' <= c <= 'z') || ('A' <= c <= 'Z') || ('0' <= c <= '9') || c == '_' || c == '-' || c == '.' || c == '/'
}

/// How one argument is shown: as it is when every character is plain,
/// otherwise quoted as `Debug` quotes it.
pub open spec fn shown_argument(a: Seq<char>) -> Seq<char> {
    if forall|i: int| 0 <= i < a.len() ==> plain_char(#[trigger] a[i]) { a } else { debug_quote(a) }
}

/// `words` joined with single spaces.
pub open spec fn joined(words: Seq<Seq<char>>) -> Seq<char>
    decreases words.len(),
{
    if words.len() == 0 {
        Seq::empty()
    } else if words.len() == 1 {
        words[0]
    } else {
        joined(words.drop_last()) + " "@ + words.last()
    }
}

/// The texts of `argv`.
pub open spec fn argument_texts(argv: Seq<String>) -> Seq<Seq<char>> {
    argv.map_values(|a: String| a@)
}

/// `#{pane_start_command}` for a pane started with `argv`: the quoted word
/// after the last `-c` when there is one, otherwise every argument shown
/// and joined with spaces.
pub open spec fn start_command_text(argv: Seq<String>) -> Seq<char> {
    let texts = argument_texts(argv);
    match texts.index_of_last("-c"@) {
        Some(i) if i + 1 < texts.len() => debug_quote(texts[i + 1]),
        _ => joined(texts.map_values(|t: Seq<char>| shown_argument(t))),
    }
}

/// Whether `s` holds only plain characters.
fn all_plain(s: &str) -> (plain: bool)
    ensures
        plain == forall|i: int| 0 <= i < s@.len() ==> plain_char(#[trigger] s@[i]),
{
    let chars = to_chars(s);
    let mut i: usize = 0;
    while i < chars.len()
        invariant
            i <= chars@.len(),
            chars@ == s@,
            forall|j: int| 0 <= j < i ==> plain_char(#[trigger] s@[j]),
        decreases chars.len() - i,
    {
        let c = chars[i];
        if !(('a' <= c && c <= 'z') || ('A' <= c && c <= 'Z') || ('0' <= c && c <= '9') || c == '_' || c == '-'
            || c == '.' || c == '/') {
            return false;
        }
        i += 1;
    }
    true
}

/// The command a pane was started with, as `#{pane_start_command}` shows
/// it; empty for a pane with no process.
pub fn pane_start_command(spec: &PaneSpec) -> (text: String)
    ensures
        text@ == match spec {
            PaneSpec::Inert => Seq::<char>::empty(),
            PaneSpec::Command(argv) => start_command_text(argv@),
            PaneSpec::CommandIn(argv, _) => start_command_text(argv@),
        },
{
    let argv = match spec {
        PaneSpec::Inert => return String::new(),
        PaneSpec::Command(argv) => argv,
        PaneSpec::CommandIn(argv, _) => argv,
    };
    let ghost texts = argument_texts(argv@);
    let ghost goal = start_command_text(argv@);
    match last_flag_c(argv) {
        Some(k) => {
            proof {
                texts.index_of_last_ensures("-c"@);
            }
            if k < argv.len() - 1 {
                return debug_quoted(argv[k + 1].as_str());
            }
        },
        None => {},
    }
    let ghost shown = texts.map_values(|t: Seq<char>| shown_argument(t));
    let mut text = String::new();
    let mut i: usize = 0;
    while i < argv.len()
        invariant
            i <= argv@.len(),
            texts == argument_texts(argv@),
            shown == texts.map_values(|t: Seq<char>| shown_argument(t)),
            goal == joined(shown),
            text@ == joined(shown.take(i as int)),
        decreases argv.len() - i,
    {
        if i > 0 {
            push_text(&mut text, " ");
        }
        let word = argv[i].as_str();
        if all_plain(word) {
            push_text(&mut text, word);
        } else {
            let quoted = debug_quoted(word);
            push_text(&mut text, quoted.as_str());
        }
        proof {
            assert(shown.take(i + 1).drop_last() =~= shown.take(i as int));
            assert(shown[i as int] == shown_argument(texts[i as int]));
        }
        i += 1;
    }
    proof {
        assert(shown.take(i as int) =~= shown);
    }
    text
}

/// The position of the last `-c` among `argv`.
fn last_flag_c(argv: &Vec<String>) -> (pos: Option<usize>)
    ensures
        match pos {
            Some(k) => argument_texts(argv@).index_of_last("-c"@) == Some(k as int),
            None => argument_texts(argv@).index_of_last("-c"@) is None,
        },
{
    let ghost texts = argument_texts(argv@);
    let mut k: usize = argv.len();
    while k > 0
        invariant
            k <= argv@.len(),
            texts == argument_texts(argv@),
            forall|j: int| k <= j < argv@.len() ==> texts[j] != "-c"@,
        decreases k,
    {
        let chars = to_chars(argv[k - 1].as_str());
        proof {
            assert(chars@.subrange(0, chars@.len() as int) =~= texts[k - 1]);
        }
        if crate::text::equals_at(chars.as_slice(), 0, chars.len(), "-c") {
            proof {
                assert(texts.contains("-c"@));
                texts.index_of_last_ensures("-c"@);
                let last = texts.index_of_last("-c"@)->0;
                if last > k - 1 {
                    assert(texts[last] != "-c"@);
                } else if last < k - 1 {
                    assert(texts[k - 1] != "-c"@);
                }
            }
            return Some(k - 1);
        }
        k -= 1;
    }
    proof {
        texts.index_of_last_ensures("-c"@);
        if texts.contains("-c"@) {
            let last = texts.index_of_last("-c"@)->0;
            assert(texts[last] != "-c"@);
        }
    }
    None
}

} // verus!
