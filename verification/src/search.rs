use vstd::prelude::*;
use vstd::string::*;
use vstd::utf8::is_char_boundary;
use crate::text::to_chars;

verus! {

/// The bracket that `close` closes.
pub fn matching_open(close: u8) -> (open: Option<u8>)
    ensures
        open == (if close == 0x7d { Some(0x7bu8) } else if close == 0x5d { Some(0x5bu8) } else if close == 0x29 {
            Some(0x28u8)
        } else {
            None
        }),
{
    if close == 0x7d {
        Some(0x7b)
    } else if close == 0x5d {
        Some(0x5b)
    } else if close == 0x29 {
        Some(0x28)
    } else {
        None
    }
}

/// The bracket that closes `open`.
pub fn matching_close(open: u8) -> (close: Option<u8>)
    ensures
        close == (if open == 0x7b { Some(0x7du8) } else if open == 0x5b { Some(0x5du8) } else if open == 0x28 {
            Some(0x29u8)
        } else {
            None
        }),
{
    if open == 0x7b {
        Some(0x7d)
    } else if open == 0x5b {
        Some(0x5d)
    } else if open == 0x28 {
        Some(0x29)
    } else {
        None
    }
}

/// A character that gives a search pattern regular-expression meaning.
pub open spec fn regex_char(c: char) -> bool {
    c == '^' || c == '$' || c == '*' || c == '+' || c == '(' || c == ')' || c == '?' || c == '[' || c == ']'
        || c == '.' || c == '\\'
}

/// Whether a copy-mode search pattern needs the regular-expression engine:
/// it holds one of `^$*+()?[].\`.
pub fn search_uses_posix_regex(pattern: &str) -> (regex: bool)
    ensures
        regex == exists|i: int| 0 <= i < pattern@.len() && regex_char(#[trigger] pattern@[i]),
{
    let chars = to_chars(pattern);
    let mut i: usize = 0;
    while i < chars.len()
        invariant
            i <= chars@.len(),
            chars@ == pattern@,
            forall|j: int| 0 <= j < i ==> !regex_char(#[trigger] pattern@[j]),
        decreases chars.len() - i,
    {
        let c = chars[i];
        if c == '^' || c == '$' || c == '*' || c == '+' || c == '(' || c == ')' || c == '?' || c == '['
            || c == ']' || c == '.' || c == '\\' {
            proof {
                assert(regex_char(pattern@[i as int]));
            }
            return true;
        }
        i += 1;
    }
    false
}

/// The argument of an incremental search split into its direction prefix
/// (its first character) and the pattern after it.
pub fn incremental_search_argument<'a>(argument: &'a str) -> (split: Option<(char, &'a str)>)
    ensures
        match split {
            Some((prefix, pattern)) => argument@.len() > 0 && prefix == argument@[0] && pattern@ == argument@.skip(1),
            None => argument@.len() == 0,
        },
{
    let n = argument.unicode_len();
    if n == 0 {
        return None;
    }
    let prefix = argument.get_char(0);
    let pattern = argument.substring_char(1, n);
    proof {
        assert(pattern@ =~= argument@.skip(1));
    }
    Some((prefix, pattern))
}

/// `b` with ASCII upper case letters made lower case.
pub open spec fn ascii_lower(b: u8) -> u8 {
    if 0x41 <= b <= 0x5a { (b + 32) as u8 } else { b }
}

/// The bytes of `text` from `at` spell `pattern`, ignoring ASCII case in
/// `text` when `ci`.
pub open spec fn bytes_match_at(text: Seq<u8>, pattern: Seq<u8>, ci: bool, at: int) -> bool {
    forall|k: int| 0 <= k < pattern.len() ==> (if ci { ascii_lower(text[at + k]) } else { text[at + k] }) == #[trigger] pattern[k]
}

/// The byte ranges where `pattern` occurs in `text` from `at` on, scanning
/// left to right without overlap; a match must start and end on character
/// boundaries.
pub open spec fn literal_matches_from(text: Seq<u8>, pattern: Seq<u8>, ci: bool, at: nat) -> Seq<(usize, usize)>
    decreases text.len() - at,
{
    if pattern.len() == 0 || at + pattern.len() > text.len() {
        Seq::empty()
    } else if bytes_match_at(text, pattern, ci, at as int) && is_char_boundary(text, at as int)
        && is_char_boundary(text, (at + pattern.len()) as int) {
        seq![(at as usize, (at + pattern.len()) as usize)] + literal_matches_from(text, pattern, ci, at + pattern.len())
    } else {
        literal_matches_from(text, pattern, ci, at + 1)
    }
}

/// Folding case changes exactly the ASCII capitals, each to its small
/// letter.
pub proof fn lemma_ascii_lower(b: u8)
    ensures
        0x41 <= b <= 0x5a ==> ascii_lower(b) == b + 32 && 0x61 <= ascii_lower(b) <= 0x7a,
        !(0x41 <= b <= 0x5a) ==> ascii_lower(b) == b,
{
}

/// A pattern without ASCII capitals.
pub open spec fn no_capitals(pattern: Seq<u8>) -> bool {
    forall|k: int| 0 <= k < pattern.len() ==> !(0x41 <= #[trigger] pattern[k] <= 0x5a)
}

/// Ignoring case finds a pattern without capitals wherever it occurs with
/// its case.
pub proof fn lemma_case_insensitive_finds_exact(text: Seq<u8>, pattern: Seq<u8>, at: int)
    requires
        no_capitals(pattern),
        0 <= at,
        at + pattern.len() <= text.len(),
        bytes_match_at(text, pattern, false, at),
    ensures
        bytes_match_at(text, pattern, true, at),
{
    assert forall|k: int| 0 <= k < pattern.len() implies ascii_lower(text[at + k]) == #[trigger] pattern[k] by {
        assert(text[at + k] == pattern[k]);
    }
}

/// When a search that ignores case finds nothing, neither does the same
/// search with case, for a pattern without capitals.
pub proof fn lemma_case_insensitive_covers(text: Seq<u8>, pattern: Seq<u8>, at: nat)
    requires
        no_capitals(pattern),
        literal_matches_from(text, pattern, true, at).len() == 0,
    ensures
        literal_matches_from(text, pattern, false, at).len() == 0,
    decreases text.len() - at,
{
    if pattern.len() == 0 || at + pattern.len() > text.len() {
    } else {
        if bytes_match_at(text, pattern, false, at as int) {
            lemma_case_insensitive_finds_exact(text, pattern, at as int);
        }
        if !(bytes_match_at(text, pattern, true, at as int) && is_char_boundary(text, at as int)
            && is_char_boundary(text, (at + pattern.len()) as int)) {
            lemma_case_insensitive_covers(text, pattern, at + 1);
        }
    }
}

/// Whether the bytes of `text` from `at` spell `pattern`.
fn bytes_equal_at(text: &[u8], pattern: &[u8], ci: bool, at: usize) -> (equal: bool)
    requires
        at + pattern@.len() <= text@.len(),
    ensures
        equal == bytes_match_at(text@, pattern@, ci, at as int),
{
    let tlen = text.len();
    let mut k: usize = 0;
    while k < pattern.len()
        invariant
            tlen == text@.len(),
            k <= pattern@.len(),
            at + pattern@.len() <= text@.len(),
            forall|j: int| 0 <= j < k ==> (if ci { ascii_lower(text@[at + j]) } else { text@[at + j] }) == #[trigger] pattern@[j],
        decreases pattern.len() - k,
    {
        let b = text[at + k];
        let lowered = if ci && 0x41 <= b && b <= 0x5a { b + 32 } else { b };
        if lowered != pattern[k] {
            return false;
        }
        k += 1;
    }
    true
}

/// The byte ranges of the literal matches of `pattern` in `text`, scanning
/// left to right without overlap and keeping only matches that start and
/// end on character boundaries. With `case_insensitive`, upper case ASCII
/// letters in `text` match their lower case forms in `pattern`.
pub fn literal_match_ranges(text: &str, pattern: &str, case_insensitive: bool) -> (ranges: Vec<(usize, usize)>)
    ensures
        ranges@ == literal_matches_from(text.spec_bytes(), pattern.spec_bytes(), case_insensitive, 0),
{
    let t = text.as_bytes();
    let p = pattern.as_bytes();
    let ghost tb = text.spec_bytes();
    let ghost pb = pattern.spec_bytes();
    let mut ranges: Vec<(usize, usize)> = Vec::new();
    if p.len() == 0 || p.len() > t.len() {
        return ranges;
    }
    let mut at: usize = 0;
    while at <= t.len() - p.len()
        invariant
            t@ == tb,
            p@ == pb,
            tb == text.spec_bytes(),
            0 < p@.len() <= t@.len(),
            at <= t@.len(),
            ranges@ + literal_matches_from(tb, pb, case_insensitive, at as nat)
                == literal_matches_from(tb, pb, case_insensitive, 0),
        decreases t.len() - at,
    {
        let end = at + p.len();
        if bytes_equal_at(t, p, case_insensitive, at) && text.is_char_boundary(at) && text.is_char_boundary(end) {
            let ghost before = ranges@;
            ranges.push((at, end));
            proof {
                assert(ranges@ + literal_matches_from(tb, pb, case_insensitive, end as nat) =~= before
                    + literal_matches_from(tb, pb, case_insensitive, at as nat));
            }
            at = end;
        } else {
            at = at + 1;
        }
    }
    proof {
        assert(literal_matches_from(tb, pb, case_insensitive, at as nat) == Seq::<(usize, usize)>::empty());
        assert(ranges@ =~= ranges@ + Seq::<(usize, usize)>::empty());
    }
    ranges
}

} // verus!
