use vstd::prelude::*;
use vstd::string::*;
use crate::text::{decimal, equals_at, parse_unsigned, parse_unsigned_at, push_decimal, push_text, starts_with_at, to_chars};

verus! {

pub const CLIENT_READONLY: i64 = 0x800;
pub const CLIENT_UTF8: i64 = 0x10000;
pub const CLIENT_IGNORESIZE: i64 = 0x20000;
pub const CLIENT_CONTROL_NOOUTPUT: i64 = 0x4000000;
pub const CLIENT_ACTIVEPANE: i64 = 0x80000000;
pub const CLIENT_CONTROL_PAUSEAFTER: i64 = 0x100000000;
pub const CLIENT_CONTROL_WAITEXIT: i64 = 0x200000000;
pub const CLIENT_NO_DETACH_ON_DESTROY: i64 = 0x8000000000;

/// The `refresh-client -f` flag set of one client. `pause_after` is the
/// `pause-after` delay in seconds, when set.
#[derive(Clone, Copy, Debug, PartialEq, Eq, Structural)]
pub struct ClientFlagState {
    pub pause_after: Option<u64>,
    pub no_output: bool,
    pub wait_exit: bool,
    pub read_only: bool,
    pub ignore_size: bool,
    pub active_pane: bool,
    pub no_detach_on_destroy: bool,
}

impl Default for ClientFlagState {
    fn default() -> (state: ClientFlagState)
        ensures
            state == no_flags(),
    {
        ClientFlagState {
            pause_after: None,
            no_output: false,
            wait_exit: false,
            read_only: false,
            ignore_size: false,
            active_pane: false,
            no_detach_on_destroy: false,
        }
    }
}

/// A client with no flag set.
pub open spec fn no_flags() -> ClientFlagState {
    ClientFlagState {
        pause_after: None,
        no_output: false,
        wait_exit: false,
        read_only: false,
        ignore_size: false,
        active_pane: false,
        no_detach_on_destroy: false,
    }
}

/// The first `,` at or after `from`.
pub open spec fn comma_from(v: Seq<char>, from: int) -> Option<int>
    decreases v.len() - from,
{
    if from < 0 || from >= v.len() {
        None
    } else if v[from] == ',' {
        Some(from)
    } else {
        comma_from(v, from + 1)
    }
}

/// One flag: `NAME` sets it, `!NAME` clears it. `pause-after[=SECONDS]`
/// sets the delay (zero when the seconds do not read as a number); an
/// established read-only flag is not cleared; unknown names are ignored.
pub open spec fn apply_flag(state: ClientFlagState, piece: Seq<char>) -> ClientFlagState {
    let clear = piece.len() > 0 && piece[0] == '!';
    let flag = if clear { piece.skip(1) } else { piece };
    let enabled = !clear;
    if flag == "pause-after"@ || (flag.len() >= 12 && flag.take(12) == "pause-after="@) {
        if clear {
            ClientFlagState { pause_after: None, ..state }
        } else {
            let seconds = if flag.len() >= 12 && flag.take(12) == "pause-after="@ {
                match parse_unsigned(flag.skip(12), u64::MAX as nat) {
                    Some(v) => v as u64,
                    None => 0,
                }
            } else {
                0
            };
            ClientFlagState { pause_after: Some(seconds), ..state }
        }
    } else if flag == "no-output"@ {
        ClientFlagState { no_output: enabled, ..state }
    } else if flag == "wait-exit"@ {
        ClientFlagState { wait_exit: enabled, ..state }
    } else if flag == "read-only"@ {
        if enabled || !state.read_only {
            ClientFlagState { read_only: enabled, ..state }
        } else {
            state
        }
    } else if flag == "ignore-size"@ {
        ClientFlagState { ignore_size: enabled, ..state }
    } else if flag == "active-pane"@ {
        ClientFlagState { active_pane: enabled, ..state }
    } else if flag == "no-detach-on-destroy"@ {
        ClientFlagState { no_detach_on_destroy: enabled, ..state }
    } else {
        state
    }
}

/// The comma-separated flags of `v` from `from` on, applied in order.
pub open spec fn apply_flags_from(state: ClientFlagState, v: Seq<char>, from: int) -> ClientFlagState
    decreases v.len() - from,
{
    if from < 0 || from > v.len() {
        state
    } else {
        match comma_from(v, from) {
            None => apply_flag(state, v.subrange(from, v.len() as int)),
            Some(i) => if i < from || i >= v.len() {
                state
            } else {
                apply_flags_from(apply_flag(state, v.subrange(from, i)), v, i + 1)
            },
        }
    }
}

pub proof fn lemma_comma_from_after(v: Seq<char>, from: int)
    ensures
        comma_from(v, from) matches Some(i) ==> from <= i < v.len() && v[i] == ',',
    decreases v.len() - from,
{
    if 0 <= from < v.len() && v[from] != ',' {
        lemma_comma_from_after(v, from + 1);
    }
}

/// The `client_flags` bit of an enabled flag.
pub open spec fn bit_if(enabled: bool, bit: i64) -> i64 {
    if enabled { bit } else { 0 }
}

/// Every flag bit `client_flags` owns.
pub open spec fn owned_bits() -> i64 {
    CLIENT_CONTROL_NOOUTPUT | CLIENT_CONTROL_WAITEXIT | CLIENT_CONTROL_PAUSEAFTER | CLIENT_READONLY | CLIENT_IGNORESIZE
        | CLIENT_ACTIVEPANE | CLIENT_NO_DETACH_ON_DESTROY
}

/// The bits of the flags that are set.
pub open spec fn set_bits(state: ClientFlagState) -> i64 {
    bit_if(state.no_output, CLIENT_CONTROL_NOOUTPUT) | bit_if(state.wait_exit, CLIENT_CONTROL_WAITEXIT) | bit_if(
        state.pause_after is Some,
        CLIENT_CONTROL_PAUSEAFTER,
    ) | bit_if(state.read_only, CLIENT_READONLY) | bit_if(state.ignore_size, CLIENT_IGNORESIZE) | bit_if(
        state.active_pane,
        CLIENT_ACTIVEPANE,
    ) | bit_if(state.no_detach_on_destroy, CLIENT_NO_DETACH_ON_DESTROY)
}

/// `,name` when `on`, nothing otherwise.
pub open spec fn flag_text(on: bool, name: Seq<char>) -> Seq<char> {
    if on { seq![','] + name } else { Seq::empty() }
}

/// `,pause-after=SECONDS` when a delay is set.
pub open spec fn pause_text(pause_after: Option<u64>) -> Seq<char> {
    match pause_after {
        Some(seconds) => seq![','] + "pause-after="@ + decimal(seconds as nat),
        None => Seq::empty(),
    }
}

/// The flag list `#{client_flags}` shows, in tmux's order.
pub open spec fn display_text(state: ClientFlagState, identified: i64, control_mode: bool, focused: bool) -> Seq<char> {
    "attached"@ + flag_text(focused, "focused"@) + flag_text(control_mode, "control-mode"@) + flag_text(
        state.ignore_size,
        "ignore-size"@,
    ) + flag_text(state.no_detach_on_destroy, "no-detach-on-destroy"@) + flag_text(state.no_output, "no-output"@)
        + flag_text(state.wait_exit, "wait-exit"@) + pause_text(state.pause_after) + flag_text(state.read_only, "read-only"@) + flag_text(state.active_pane, "active-pane"@) + flag_text(
        identified & CLIENT_UTF8 != 0,
        "UTF-8"@,
    )
}

fn push_flag(out: &mut String, on: bool, name: &str)
    ensures
        final(out)@ == old(out)@ + flag_text(on, name@),
{
    if on {
        push_text(out, ",");
        push_text(out, name);
        proof {
            reveal_strlit(",");
        }
    }
    proof {
        assert(final(out)@ =~= old(out)@ + flag_text(on, name@));
    }
}

impl ClientFlagState {
    /// Apply one flag, `chars[from..to]`.
    fn apply_one(&mut self, chars: &[char], from: usize, to: usize)
        requires
            from <= to <= chars@.len(),
        ensures
            *final(self) == apply_flag(*old(self), chars@.subrange(from as int, to as int)),
    {
        let ghost piece = chars@.subrange(from as int, to as int);
        let clear = from < to && chars[from] == '!';
        let start = if clear { from + 1 } else { from };
        proof {
            assert(chars@.subrange(start as int, to as int) =~= if clear { piece.skip(1) } else { piece });
            reveal_strlit("pause-after=");
        }
        let whole = equals_at(chars, start, to, "pause-after");
        let prefixed = starts_with_at(chars, start, to, "pause-after=");
        proof {
            if prefixed {
                assert(chars@.subrange(start as int, start + 12) =~= chars@.subrange(start as int, to as int).take(12));
            } else if to - start >= 12 {
                assert(chars@.subrange(start as int, start + 12) =~= chars@.subrange(start as int, to as int).take(12));
            }
        }
        if whole || prefixed {
            if clear {
                self.pause_after = None;
            } else {
                let seconds = if prefixed {
                    proof {
                        assert(chars@.subrange(start + 12, to as int) =~= chars@.subrange(start as int, to as int).skip(12));
                    }
                    match parse_unsigned_at(chars, start + 12, to, u64::MAX) {
                        Some(value) => value,
                        None => 0,
                    }
                } else {
                    0
                };
                self.pause_after = Some(seconds);
            }
            return;
        }
        let enabled = !clear;
        if equals_at(chars, start, to, "no-output") {
            self.no_output = enabled;
        } else if equals_at(chars, start, to, "wait-exit") {
            self.wait_exit = enabled;
        } else if equals_at(chars, start, to, "read-only") {
            if enabled || !self.read_only {
                self.read_only = enabled;
            }
        } else if equals_at(chars, start, to, "ignore-size") {
            self.ignore_size = enabled;
        } else if equals_at(chars, start, to, "active-pane") {
            self.active_pane = enabled;
        } else if equals_at(chars, start, to, "no-detach-on-destroy") {
            self.no_detach_on_destroy = enabled;
        }
    }

    /// Apply a comma-separated `refresh-client -f` value, flag by flag.
    pub fn apply_flags(&mut self, value: &str)
        ensures
            *final(self) == apply_flags_from(*old(self), value@, 0),
    {
        let chars = to_chars(value);
        let ghost v = chars@;
        let mut from: usize = 0;
        loop
            invariant
                v == value@,
                chars@ == v,
                0 <= from <= v.len(),
                apply_flags_from(*old(self), v, 0) == apply_flags_from(*self, v, from as int),
            decreases v.len() - from,
        {
            let mut to = from;
            while to < chars.len() && chars[to] != ','
                invariant
                    from <= to <= v.len(),
                    chars@ == v,
                    comma_from(v, from as int) == comma_from(v, to as int),
                decreases v.len() - to,
            {
                to += 1;
            }
            proof {
                lemma_comma_from_after(v, from as int);
            }
            self.apply_one(&chars, from, to);
            if to == chars.len() {
                return;
            }
            from = to + 1;
        }
    }

    /// `identified` with every owned flag bit set exactly when its flag is.
    pub fn client_flags(&self, identified: i64) -> (flags: i64)
        ensures
            flags == (identified & !owned_bits()) | set_bits(*self),
    {
        let a = self.no_output;
        let b = self.wait_exit;
        let c = self.pause_after.is_some();
        let d = self.read_only;
        let e = self.ignore_size;
        let f = self.active_pane;
        let g = self.no_detach_on_destroy;
        let f1 = toggle(identified, a, CLIENT_CONTROL_NOOUTPUT);
        let f2 = toggle(f1, b, CLIENT_CONTROL_WAITEXIT);
        let f3 = toggle(f2, c, CLIENT_CONTROL_PAUSEAFTER);
        let f4 = toggle(f3, d, CLIENT_READONLY);
        let f5 = toggle(f4, e, CLIENT_IGNORESIZE);
        let f6 = toggle(f5, f, CLIENT_ACTIVEPANE);
        let f7 = toggle(f6, g, CLIENT_NO_DETACH_ON_DESTROY);
        assert(f7 == (identified & !(0x4000000i64 | 0x200000000i64 | 0x100000000i64 | 0x800i64 | 0x20000i64 | 0x80000000i64
            | 0x8000000000i64)) | ((if a { 0x4000000i64 } else { 0i64 }) | (if b { 0x200000000i64 } else { 0i64 }) | (if c {
            0x100000000i64
        } else {
            0i64
        }) | (if d { 0x800i64 } else { 0i64 }) | (if e { 0x20000i64 } else { 0i64 }) | (if f { 0x80000000i64 } else { 0i64 })
            | (if g { 0x8000000000i64 } else { 0i64 }))) by (bit_vector)
            requires
                f1 == (if a { identified | 0x4000000i64 } else { identified & !0x4000000i64 }),
                f2 == (if b { f1 | 0x200000000i64 } else { f1 & !0x200000000i64 }),
                f3 == (if c { f2 | 0x100000000i64 } else { f2 & !0x100000000i64 }),
                f4 == (if d { f3 | 0x800i64 } else { f3 & !0x800i64 }),
                f5 == (if e { f4 | 0x20000i64 } else { f4 & !0x20000i64 }),
                f6 == (if f { f5 | 0x80000000i64 } else { f5 & !0x80000000i64 }),
                f7 == (if g { f6 | 0x8000000000i64 } else { f6 & !0x8000000000i64 }),
        ;
        f7
    }
}

impl ClientFlagState {
    /// The flag list `#{client_flags}` shows, in tmux's order: `attached`,
    /// then `focused`, `control-mode`, and every set flag, then `UTF-8` when
    /// the client identified as UTF-8.
    pub fn display_flags_full(&self, identified: i64, control_mode: bool, focused: bool) -> (text: String)
        ensures
            text@ == display_text(*self, identified, control_mode, focused),
    {
        let mut out = String::new();
        push_text(&mut out, "attached");
        proof {
            assert(Seq::<char>::empty() + "attached"@ =~= "attached"@);
        }
        push_flag(&mut out, focused, "focused");
        push_flag(&mut out, control_mode, "control-mode");
        push_flag(&mut out, self.ignore_size, "ignore-size");
        push_flag(&mut out, self.no_detach_on_destroy, "no-detach-on-destroy");
        push_flag(&mut out, self.no_output, "no-output");
        push_flag(&mut out, self.wait_exit, "wait-exit");
        let ghost before_pause = out@;
        match self.pause_after {
            Some(seconds) => {
                push_text(&mut out, ",pause-after=");
                push_decimal(&mut out, seconds);
                proof {
                    reveal_strlit(",pause-after=");
                    reveal_strlit("pause-after=");
                    assert(",pause-after="@ =~= seq![','] + "pause-after="@);
                    assert(out@ =~= before_pause + pause_text(self.pause_after));
                }
            },
            None => {
                proof {
                    assert(out@ =~= before_pause + pause_text(self.pause_after));
                }
            },
        }
        push_flag(&mut out, self.read_only, "read-only");
        push_flag(&mut out, self.active_pane, "active-pane");
        push_flag(&mut out, identified & CLIENT_UTF8 != 0, "UTF-8");
        proof {
            assert(out@ == display_text(*self, identified, control_mode, focused));
        }
        out
    }

    /// The flag list of a client whose terminal has focus.
    pub fn display_flags_with(&self, identified: i64, control_mode: bool) -> (text: String)
        ensures
            text@ == display_text(*self, identified, control_mode, true),
    {
        self.display_flags_full(identified, control_mode, true)
    }

    /// The flag list of a focused control-mode client.
    pub fn display_flags(&self, identified: i64) -> (text: String)
        ensures
            text@ == display_text(*self, identified, true, true),
    {
        self.display_flags_with(identified, true)
    }
}

/// `flags` with `bit` set when `on`, cleared otherwise.
fn toggle(flags: i64, on: bool, bit: i64) -> (result: i64)
    ensures
        result == if on { flags | bit } else { flags & !bit },
{
    if on { flags | bit } else { flags & !bit }
}

/// An established read-only client cannot clear itself with
/// `refresh-client -f`: whatever flags are applied, it stays read-only.
pub proof fn lemma_read_only_kept(state: ClientFlagState, v: Seq<char>, from: int)
    requires
        state.read_only,
    ensures
        apply_flags_from(state, v, from).read_only,
    decreases v.len() - from,
{
    if 0 <= from <= v.len() {
        lemma_comma_from_after(v, from);
        match comma_from(v, from) {
            None => {},
            Some(i) => if from <= i < v.len() {
                let next = apply_flag(state, v.subrange(from, i));
                assert(next.read_only);
                lemma_read_only_kept(next, v, i + 1);
            },
        }
    }
}

/// The texts of `args`.
pub open spec fn arg_texts(args: Seq<String>) -> Seq<Seq<char>> {
    args.map_values(|a: String| a@)
}

/// The `-f` values among `args` from `i` on, applied in order to `state`:
/// `-f value` as two arguments, or `-fvalue` as one with a value that is
/// not empty.
pub open spec fn attach_flags_from(state: ClientFlagState, args: Seq<Seq<char>>, i: int) -> ClientFlagState
    decreases args.len() - i,
{
    if i < 0 || i >= args.len() {
        state
    } else if args[i] == "-f"@ {
        if i + 1 < args.len() {
            attach_flags_from(apply_flags_from(state, args[i + 1], 0), args, i + 2)
        } else {
            state
        }
    } else if args[i].len() > 2 && args[i].take(2) == "-f"@ {
        attach_flags_from(apply_flags_from(state, args[i].skip(2), 0), args, i + 1)
    } else {
        attach_flags_from(state, args, i + 1)
    }
}

/// The flags an attach command carries: its `-f` values applied in order,
/// then read-only and size-ignoring when the command was given `-r`.
pub open spec fn attach_flags(args: Seq<Seq<char>>, read_only: bool) -> ClientFlagState {
    let flags = attach_flags_from(no_flags(), args, 0);
    if read_only { ClientFlagState { read_only: true, ignore_size: true, ..flags } } else { flags }
}

impl ClientFlagState {
    /// The flags an attach command's arguments carry: every `-f` value, in
    /// either spelling, applied in order; `read_only` says whether the
    /// command was given `-r`, which makes the client read-only and keeps
    /// its size out of window sizing.
    pub fn from_attach_args(args: &[String], read_only: bool) -> (flags: Self)
        requires
            args@.len() < usize::MAX,
        ensures
            flags == attach_flags(arg_texts(args@), read_only),
    {
        let ghost texts = arg_texts(args@);
        let mut flags = ClientFlagState::default();
        let mut index: usize = 0;
        while index < args.len()
            invariant
                texts == arg_texts(args@),
                args@.len() < usize::MAX,
                index <= args@.len() + 1,
                attach_flags_from(flags, texts, index as int) == attach_flags_from(no_flags(), texts, 0),
            decreases args.len() + 1 - index,
        {
            let chars = to_chars(args[index].as_str());
            proof {
                reveal_strlit("-f");
                assert(chars@ == texts[index as int]);
                assert(chars@.subrange(0, chars@.len() as int) =~= chars@);
            }
            if equals_at(chars.as_slice(), 0, chars.len(), "-f") {
                index += 1;
                if index < args.len() {
                    flags.apply_flags(args[index].as_str());
                }
            } else if chars.len() > 2 && starts_with_at(chars.as_slice(), 0, chars.len(), "-f") {
                let value = args[index].as_str().substring_char(2, chars.len());
                proof {
                    assert(value@ =~= texts[index as int].skip(2));
                }
                flags.apply_flags(value);
            }
            index += 1;
        }
        if read_only {
            flags.read_only = true;
            flags.ignore_size = true;
        }
        flags
    }
}

} // verus!
