use vstd::prelude::*;
use crate::layout::{
    LayoutTree, PaneRect, SplitDirection, close_bracket, geometry_text, layout_list_text, layout_text, open_bracket,
};
use crate::layout::LayoutCell;
use crate::layout_format::{
    checksum, digits_end, digits_value, find_byte, hex_digit, hex_value, is_digit, layout_checksum, parse_cell,
    parse_children, parse_geometry, parse_hex_u16, parse_layout, parse_number,
};
use crate::text::{decimal, digit_char, push_char, push_text};
use vstd::string::StringSliceAdditionalSpecFns;
use vstd::utf8::{encode_utf8, is_ascii_chars, is_ascii_chars_encode_utf8};

verus! {

/// The bytes of an ASCII text.
pub open spec fn ascii(s: Seq<char>) -> Seq<u8> {
    Seq::new(s.len(), |i: int| s[i] as u8)
}

proof fn lemma_digit_char_byte(d: nat)
    requires
        d < 10,
    ensures
        digit_char(d) as u8 == 48 + d,
        '0' <= digit_char(d) <= '9',
{
    assert((digit_char(d) as u32) == 48 + d);
}

/// Decimal spellings are made of digits.
pub proof fn lemma_decimal_digits(n: nat)
    ensures
        forall|i: int| 0 <= i < decimal(n).len() ==> is_digit(#[trigger] decimal(n)[i] as u8),
        forall|i: int| 0 <= i < decimal(n).len() ==> '0' <= #[trigger] decimal(n)[i] <= '9',
    decreases n,
{
    lemma_digit_char_byte(n % 10);
    let d = decimal(n);
    if n >= 10 {
        lemma_decimal_digits(n / 10);
        let front = decimal(n / 10);
        assert(d == front.push(digit_char(n % 10)));
        assert forall|i: int| 0 <= i < d.len() implies '0' <= #[trigger] d[i] <= '9' && is_digit(d[i] as u8) by {
            if i < front.len() {
                assert(d[i] == front[i]);
                lemma_digit_bounds(d[i]);
            } else {
                assert(d[i] == digit_char(n % 10));
            }
        }
    } else {
        assert(d == seq![digit_char(n)]);
    }
}

proof fn lemma_digit_bounds(c: char)
    requires
        '0' <= c <= '9',
    ensures
        is_digit(c as u8),
{
    assert(48 <= (c as u32) <= 57);
}

proof fn lemma_digits_end_run(b: Seq<u8>, k: nat, end: nat)
    requires
        k <= end <= b.len(),
        forall|j: int| k <= j < end ==> is_digit(#[trigger] b[j]),
        end == b.len() || !is_digit(b[end as int]),
    ensures
        digits_end(b, k) == end,
    decreases end - k,
{
    if k < end {
        lemma_digits_end_run(b, k + 1, end);
    }
}

proof fn lemma_digits_value_decimal(b: Seq<u8>, pos: int, n: nat)
    requires
        0 <= pos,
        pos + decimal(n).len() <= b.len(),
        b.subrange(pos, pos + decimal(n).len()) == ascii(decimal(n)),
    ensures
        digits_value(b, pos, pos + decimal(n).len()) == n,
    decreases n,
{
    let d = decimal(n);
    let end = pos + d.len();
    lemma_digit_char_byte(n % 10);
    assert(d.last() == digit_char(n % 10));
    assert(b[end - 1] == b.subrange(pos, end)[d.len() - 1]);
    assert(b[end - 1] == 48 + n % 10);
    if n >= 10 {
        let front = decimal(n / 10);
        assert(d.drop_last() == front);
        assert(b.subrange(pos, pos + front.len()) =~= ascii(front)) by {
            assert forall|i: int| 0 <= i < front.len() implies b.subrange(pos, pos + front.len())[i] == ascii(front)[i] by {
                assert(b.subrange(pos, end)[i] == ascii(d)[i]);
                assert(d[i] == front[i]);
            }
        }
        lemma_digits_value_decimal(b, pos, n / 10);
        assert(n == (n / 10) * 10 + n % 10) by (nonlinear_arith);
        assert(digits_value(b, pos, end) == digits_value(b, pos, end - 1) * 10 + (b[end - 1] - 48) as nat);
    } else {
        assert(d.len() == 1);
        assert(digits_value(b, pos, pos) == 0);
    }
}

/// A number written in decimal, followed by no further digit, reads back.
pub proof fn lemma_parse_decimal(b: Seq<u8>, pos: int, n: nat)
    requires
        0 <= pos,
        n <= u16::MAX,
        pos + decimal(n).len() <= b.len(),
        b.subrange(pos, pos + decimal(n).len()) == ascii(decimal(n)),
        pos + decimal(n).len() == b.len() || !is_digit(b[pos + decimal(n).len()]),
    ensures
        parse_number(b, pos as nat) == Some((n as u16, (pos + decimal(n).len()) as nat)),
{
    let d = decimal(n);
    let end = pos + d.len();
    crate::text::lemma_decimal_len(n);
    lemma_decimal_digits(n);
    assert forall|j: int| pos <= j < end implies is_digit(#[trigger] b[j]) by {
        assert(b[j] == b.subrange(pos, end)[j - pos]);
        assert(is_digit(d[j - pos] as u8));
    }
    lemma_digits_end_run(b, pos as nat, end as nat);
    lemma_digits_value_decimal(b, pos, n);
}

/// `b` from `pos` spells the ASCII text `s`, so each part of `s` is spelt
/// at its place.
proof fn lemma_ascii_part(b: Seq<u8>, pos: int, s: Seq<char>, from: int, to: int)
    requires
        0 <= pos,
        pos + s.len() <= b.len(),
        b.subrange(pos, pos + s.len()) == ascii(s),
        0 <= from <= to <= s.len(),
    ensures
        b.subrange(pos + from, pos + to) == ascii(s.subrange(from, to)),
{
    assert(b.subrange(pos + from, pos + to) =~= ascii(s.subrange(from, to))) by {
        assert forall|i: int| 0 <= i < to - from implies b.subrange(pos + from, pos + to)[i] == ascii(s.subrange(from, to))[i] by {
            assert(b.subrange(pos, pos + s.len())[from + i] == ascii(s)[from + i]);
        }
    }
}

/// Geometry written in the layout format, followed by no further digit,
/// reads back.
pub proof fn lemma_parse_geometry_text(b: Seq<u8>, pos: int, r: PaneRect)
    requires
        0 <= pos,
        pos + geometry_text(r).len() <= b.len(),
        b.subrange(pos, pos + geometry_text(r).len()) == ascii(geometry_text(r)),
        pos + geometry_text(r).len() == b.len() || !is_digit(b[pos + geometry_text(r).len()]),
    ensures
        parse_geometry(b, pos as nat) == Some((r, (pos + geometry_text(r).len()) as nat)),
{
    let g = geometry_text(r);
    let dw = decimal(r.width as nat);
    let dh = decimal(r.height as nat);
    let dl = decimal(r.left as nat);
    let dt = decimal(r.top as nat);
    let p = pos;
    let a1 = dw.len() as int;
    let a2 = a1 + 1;
    let a3 = a2 + dh.len();
    let a4 = a3 + 1;
    let a5 = a4 + dl.len();
    let a6 = a5 + 1;
    let a7 = a6 + dt.len();
    assert(g.len() == a7);
    assert(g.subrange(0, a1) =~= dw);
    assert(g.subrange(a2, a3) =~= dh);
    assert(g.subrange(a4, a5) =~= dl);
    assert(g.subrange(a6, a7) =~= dt);
    assert(g[a1] == 'x');
    assert(g[a3] == ',');
    assert(g[a5] == ',');
    lemma_ascii_part(b, p, g, 0, a1);
    lemma_ascii_part(b, p, g, a2, a3);
    lemma_ascii_part(b, p, g, a4, a5);
    lemma_ascii_part(b, p, g, a6, a7);
    assert(b[p + a1] == b.subrange(p, p + a7)[a1]);
    assert(b[p + a3] == b.subrange(p, p + a7)[a3]);
    assert(b[p + a5] == b.subrange(p, p + a7)[a5]);
    assert(b[p + a1] == 120);
    assert(b[p + a3] == 44);
    assert(b[p + a5] == 44);
    lemma_parse_decimal(b, p, r.width as nat);
    lemma_parse_decimal(b, p + a2, r.height as nat);
    lemma_parse_decimal(b, p + a4, r.left as nat);
    lemma_parse_decimal(b, p + a6, r.top as nat);
}

/// A layout the parser reads back: every split has children and every pane
/// id fits in a `u16`.
pub open spec fn parsable(t: LayoutTree) -> bool
    decreases t, 0nat,
{
    match t {
        LayoutTree::Pane(id, _) => id <= u16::MAX,
        LayoutTree::Split(_, _, cs) => cs.len() > 0 && parsable_all(cs),
    }
}

pub open spec fn parsable_all(cs: Seq<LayoutTree>) -> bool
    decreases cs, cs.len(),
{
    if cs.len() == 0 {
        true
    } else {
        parsable_all(cs.drop_last()) && parsable(cs.last())
    }
}

proof fn lemma_parsable_all(cs: Seq<LayoutTree>)
    ensures
        parsable_all(cs) <==> forall|i: int| 0 <= i < cs.len() ==> parsable(#[trigger] cs[i]),
    decreases cs.len(),
{
    if cs.len() > 0 {
        lemma_parsable_all(cs.drop_last());
        if forall|i: int| 0 <= i < cs.len() ==> parsable(#[trigger] cs[i]) {
            assert forall|i: int| 0 <= i < cs.drop_last().len() implies parsable(#[trigger] cs.drop_last()[i]) by {
                assert(cs.drop_last()[i] == cs[i]);
            }
        }
        if parsable_all(cs) {
            assert forall|i: int| 0 <= i < cs.len() implies parsable(#[trigger] cs[i]) by {
                if i < cs.len() - 1 {
                    assert(cs.drop_last()[i] == cs[i]);
                }
            }
        }
    }
}

/// A list of at least two layouts is written as the first, a comma, and
/// the rest.
proof fn lemma_list_text_front(cs: Seq<LayoutTree>)
    requires
        cs.len() >= 2,
    ensures
        layout_list_text(cs) == layout_text(cs[0]) + seq![','] + layout_list_text(cs.subrange(1, cs.len() as int)),
    decreases cs.len(),
{
    let rest = cs.subrange(1, cs.len() as int);
    if cs.len() == 2 {
        assert(cs.drop_last() =~= seq![cs[0]]);
        assert(rest =~= seq![cs[1]]);
        assert(layout_list_text(cs.drop_last()) == layout_text(cs.drop_last()[0]));
        assert(layout_list_text(rest) == layout_text(rest[0]));
        assert(cs.last() == cs[1]);
        assert(layout_list_text(cs) =~= layout_text(cs[0]) + seq![','] + layout_list_text(rest));
    } else {
        let front = cs.drop_last();
        lemma_list_text_front(front);
        assert(front.subrange(1, front.len() as int) =~= rest.drop_last());
        assert(rest.last() == cs.last());
        assert(layout_list_text(cs) =~= layout_text(cs[0]) + seq![','] + layout_list_text(rest));
    }
}

/// The byte a character of the layout format is written as.
proof fn lemma_bracket_bytes()
    ensures
        open_bracket(SplitDirection::TopBottom) as u8 == 91,
        open_bracket(SplitDirection::LeftRight) as u8 == 123,
        close_bracket(SplitDirection::TopBottom) as u8 == 93,
        close_bracket(SplitDirection::LeftRight) as u8 == 125,
        ',' as u8 == 44,
{
}

/// A layout written in the layout format, followed by no digit, reads back.
pub proof fn lemma_parse_cell_text(b: Seq<u8>, pos: int, t: LayoutTree)
    requires
        parsable(t),
        0 <= pos,
        pos + layout_text(t).len() <= b.len(),
        b.subrange(pos, pos + layout_text(t).len()) == ascii(layout_text(t)),
        pos + layout_text(t).len() == b.len() || !is_digit(b[pos + layout_text(t).len()]),
    ensures
        parse_cell(b, pos as nat) == Some((t, (pos + layout_text(t).len()) as nat)),
    decreases t, 0nat,
{
    let text = layout_text(t);
    let end = pos + text.len();
    lemma_bracket_bytes();
    match t {
        LayoutTree::Pane(id, r) => {
            let g = geometry_text(r);
            let gl = g.len() as int;
            assert(text == g + seq![','] + decimal(id as nat));
            assert(text.subrange(0, gl) =~= g);
            assert(text.subrange(gl + 1, text.len() as int) =~= decimal(id as nat));
            lemma_ascii_part(b, pos, text, 0, gl);
            lemma_ascii_part(b, pos, text, gl + 1, text.len() as int);
            assert(b[pos + gl] == b.subrange(pos, end)[gl]);
            assert(b[pos + gl] == 44);
            lemma_parse_geometry_text(b, pos, r);
            lemma_parse_decimal(b, pos + gl + 1, id as nat);
        },
        LayoutTree::Split(d, r, cs) => {
            let g = geometry_text(r);
            let gl = g.len() as int;
            let list = layout_list_text(cs);
            let ll = list.len() as int;
            assert(text == g + seq![open_bracket(d)] + list + seq![close_bracket(d)]);
            assert(text.subrange(0, gl) =~= g);
            assert(text.subrange(gl + 1, gl + 1 + ll) =~= list);
            lemma_ascii_part(b, pos, text, 0, gl);
            lemma_ascii_part(b, pos, text, gl + 1, gl + 1 + ll);
            assert(b[pos + gl] == b.subrange(pos, end)[gl]);
            assert(b[pos + gl + 1 + ll] == b.subrange(pos, end)[gl + 1 + ll]);
            assert(b[pos + gl] == open_bracket(d) as u8);
            assert(b[pos + gl + 1 + ll] == close_bracket(d) as u8);
            lemma_parse_geometry_text(b, pos, r);
            lemma_parsable_all(cs);
            lemma_parse_children_text(b, pos + gl + 1, cs, close_bracket(d) as u8);
        },
    }
}

/// Layouts written comma-separated and closed by `close` read back.
pub proof fn lemma_parse_children_text(b: Seq<u8>, pos: int, cs: Seq<LayoutTree>, close: u8)
    requires
        cs.len() > 0,
        forall|i: int| 0 <= i < cs.len() ==> parsable(#[trigger] cs[i]),
        !is_digit(close),
        close != 44,
        0 <= pos,
        pos + layout_list_text(cs).len() < b.len(),
        b.subrange(pos, pos + layout_list_text(cs).len()) == ascii(layout_list_text(cs)),
        b[pos + layout_list_text(cs).len()] == close,
    ensures
        parse_children(b, pos as nat, close) == Some((cs, (pos + layout_list_text(cs).len() + 1) as nat)),
    decreases cs, cs.len(),
{
    let list = layout_list_text(cs);
    if cs.len() == 1 {
        assert(list == layout_text(cs[0]));
        lemma_parse_cell_text(b, pos, cs[0]);
        assert(seq![cs[0]] =~= cs);
    } else {
        lemma_list_text_front(cs);
        let first = layout_text(cs[0]);
        let fl = first.len() as int;
        let rest = cs.subrange(1, cs.len() as int);
        let rest_text = layout_list_text(rest);
        assert(list.subrange(0, fl) =~= first);
        assert(list.subrange(fl + 1, list.len() as int) =~= rest_text);
        lemma_ascii_part(b, pos, list, 0, fl);
        lemma_ascii_part(b, pos, list, fl + 1, list.len() as int);
        assert(b[pos + fl] == b.subrange(pos, pos + list.len())[fl]);
        assert(b[pos + fl] == 44);
        lemma_parse_cell_text(b, pos, cs[0]);
        assert forall|i: int| 0 <= i < rest.len() implies parsable(#[trigger] rest[i]) by {
            assert(rest[i] == cs[i + 1]);
        }
        lemma_parse_children_text(b, pos + fl + 1, rest, close);
        assert(seq![cs[0]] + rest =~= cs);
    }
}

/// The lower-case hexadecimal digit `d`.
pub open spec fn hex_char(d: nat) -> char {
    if d < 10 { (48 + d) as char } else { (87 + d) as char }
}

/// `x` as four lower-case hexadecimal digits (`{:04x}`).
pub open spec fn hex4(x: u16) -> Seq<char> {
    seq![hex_char((x / 4096) as nat), hex_char((x / 256 % 16) as nat), hex_char((x / 16 % 16) as nat),
        hex_char((x % 16) as nat)]
}

/// The layout string of a layout: its checksum in four hexadecimal digits,
/// a comma, and the layout in the layout format (`#{window_layout}`).
pub open spec fn layout_string_text(t: LayoutTree) -> Seq<char> {
    hex4(layout_checksum(encode_utf8(layout_text(t)))) + seq![','] + layout_text(t)
}

/// Append the hexadecimal digit `d`.
fn push_hex_digit(out: &mut String, d: u16)
    requires
        d < 16,
    ensures
        final(out)@ == old(out)@.push(hex_char(d as nat)),
{
    if d < 10 {
        push_char(out, ((48 + d) as u8) as char);
    } else {
        push_char(out, ((87 + d) as u8) as char);
    }
}

/// The layout string of `cell`: `#{window_layout}`.
pub fn layout_string(cell: &LayoutCell) -> (text: String)
    ensures
        text@ == layout_string_text(cell@),
{
    let body = cell.dump();
    let sum = checksum(body.as_str().as_bytes());
    let mut text = String::new();
    push_hex_digit(&mut text, sum / 4096);
    push_hex_digit(&mut text, sum / 256 % 16);
    push_hex_digit(&mut text, sum / 16 % 16);
    push_hex_digit(&mut text, sum % 16);
    push_char(&mut text, ',');
    push_text(&mut text, body.as_str());
    proof {
        assert(text@ =~= layout_string_text(cell@));
    }
    text
}

proof fn lemma_ascii_concat(a: Seq<char>, b: Seq<char>)
    requires
        is_ascii_chars(a),
        is_ascii_chars(b),
    ensures
        is_ascii_chars(a + b),
{
    assert forall|i: int| 0 <= i < (a + b).len() implies '\0' <= #[trigger] (a + b)[i] <= '\u{7f}' by {
        if i < a.len() {
            assert((a + b)[i] == a[i]);
        } else {
            assert((a + b)[i] == b[i - a.len()]);
        }
    }
}

proof fn lemma_decimal_ascii(n: nat)
    ensures
        is_ascii_chars(decimal(n)),
{
    lemma_decimal_digits(n);
}

proof fn lemma_geometry_ascii(r: PaneRect)
    ensures
        is_ascii_chars(geometry_text(r)),
{
    lemma_decimal_ascii(r.width as nat);
    lemma_decimal_ascii(r.height as nat);
    lemma_decimal_ascii(r.left as nat);
    lemma_decimal_ascii(r.top as nat);
    let x = seq!['x'];
    let c = seq![','];
    lemma_ascii_concat(decimal(r.width as nat), x);
    lemma_ascii_concat(decimal(r.width as nat) + x, decimal(r.height as nat));
    lemma_ascii_concat(decimal(r.width as nat) + x + decimal(r.height as nat), c);
    lemma_ascii_concat(decimal(r.width as nat) + x + decimal(r.height as nat) + c, decimal(r.left as nat));
    lemma_ascii_concat(decimal(r.width as nat) + x + decimal(r.height as nat) + c + decimal(r.left as nat), c);
    lemma_ascii_concat(decimal(r.width as nat) + x + decimal(r.height as nat) + c + decimal(r.left as nat) + c,
        decimal(r.top as nat));
}

/// The layout format is ASCII.
pub proof fn lemma_layout_text_ascii(t: LayoutTree)
    ensures
        is_ascii_chars(layout_text(t)),
    decreases t, 0nat,
{
    match t {
        LayoutTree::Pane(id, r) => {
            lemma_geometry_ascii(r);
            lemma_decimal_ascii(id as nat);
            lemma_ascii_concat(geometry_text(r), seq![',']);
            lemma_ascii_concat(geometry_text(r) + seq![','], decimal(id as nat));
        },
        LayoutTree::Split(d, r, cs) => {
            lemma_geometry_ascii(r);
            lemma_list_text_ascii(cs);
            let o = seq![open_bracket(d)];
            let c = seq![close_bracket(d)];
            lemma_ascii_concat(geometry_text(r), o);
            lemma_ascii_concat(geometry_text(r) + o, layout_list_text(cs));
            lemma_ascii_concat(geometry_text(r) + o + layout_list_text(cs), c);
        },
    }
}

pub proof fn lemma_list_text_ascii(cs: Seq<LayoutTree>)
    ensures
        is_ascii_chars(layout_list_text(cs)),
    decreases cs, cs.len(),
{
    if cs.len() == 1 {
        lemma_layout_text_ascii(cs[0]);
    } else if cs.len() > 1 {
        lemma_list_text_ascii(cs.drop_last());
        lemma_layout_text_ascii(cs.last());
        lemma_ascii_concat(layout_list_text(cs.drop_last()), seq![',']);
        lemma_ascii_concat(layout_list_text(cs.drop_last()) + seq![','], layout_text(cs.last()));
    }
}

proof fn lemma_encode_ascii(s: Seq<char>)
    requires
        is_ascii_chars(s),
    ensures
        encode_utf8(s) == ascii(s),
{
    is_ascii_chars_encode_utf8(s);
    assert(encode_utf8(s) =~= ascii(s));
}

proof fn lemma_hex_char(d: nat)
    requires
        d < 16,
    ensures
        hex_digit(hex_char(d) as u8) == Some(d),
        hex_char(d) as u8 != 44,
        hex_char(d) as u8 != 43,
        '\0' <= hex_char(d) <= '\u{7f}',
{
    if d < 10 {
        assert((hex_char(d) as u32) == 48 + d);
    } else {
        assert((hex_char(d) as u32) == 87 + d);
    }
}

proof fn lemma_find_byte_at(v: Seq<u8>, byte: u8, from: nat, k: nat)
    requires
        from <= k < v.len(),
        v[k as int] == byte,
        forall|j: int| from <= j < k ==> v[j] != byte,
    ensures
        find_byte(v, byte, from) == Some(k),
    decreases k - from,
{
    if from < k {
        lemma_find_byte_at(v, byte, from + 1, k);
    }
}

proof fn lemma_hex4_value(x: u16)
    ensures
        hex_value(ascii(hex4(x))) == Some(x as nat),
{
    let h = hex4(x);
    let a = ascii(h);
    let d3 = (x / 4096) as nat;
    let d2 = (x / 256 % 16) as nat;
    let d1 = (x / 16 % 16) as nat;
    let d0 = (x % 16) as nat;
    lemma_hex_char(d3);
    lemma_hex_char(d2);
    lemma_hex_char(d1);
    lemma_hex_char(d0);
    assert(a.drop_last().drop_last().drop_last().drop_last() =~= Seq::<u8>::empty());
    assert(a.drop_last().drop_last().drop_last().last() == hex_char(d3) as u8);
    assert(a.drop_last().drop_last().last() == hex_char(d2) as u8);
    assert(a.drop_last().last() == hex_char(d1) as u8);
    assert(a.last() == hex_char(d0) as u8);
    assert(hex_value(a.drop_last().drop_last().drop_last().drop_last()) == Some(0nat));
    assert(hex_value(a.drop_last().drop_last().drop_last()) == Some(d3));
    assert(hex_value(a.drop_last().drop_last()) == Some(d3 * 16 + d2));
    assert(hex_value(a.drop_last()) == Some((d3 * 16 + d2) * 16 + d1));
    assert(hex_value(a) == Some(((d3 * 16 + d2) * 16 + d1) * 16 + d0));
    assert((((x / 4096) * 16 + x / 256 % 16) * 16 + x / 16 % 16) * 16 + x % 16 == x) by (bit_vector);
}

/// Reading back the layout string of a layout gives the layout again, for
/// every layout whose splits have children and whose pane ids fit in a
/// `u16`: what `layout_string` writes, `parse_custom_layout` reads.
pub proof fn lemma_layout_string_round_trip(t: LayoutTree)
    requires
        parsable(t),
    ensures
        parse_layout(encode_utf8(layout_string_text(t))) == Some(t),
{
    let text = layout_text(t);
    lemma_layout_text_ascii(t);
    lemma_encode_ascii(text);
    let sum = layout_checksum(encode_utf8(text));
    let h = hex4(sum);
    let full = layout_string_text(t);
    lemma_hex_char((sum / 4096) as nat);
    lemma_hex_char((sum / 256 % 16) as nat);
    lemma_hex_char((sum / 16 % 16) as nat);
    lemma_hex_char((sum % 16) as nat);
    assert(is_ascii_chars(h));
    assert(is_ascii_chars(seq![',']));
    lemma_ascii_concat(h, seq![',']);
    lemma_ascii_concat(h + seq![','], text);
    lemma_encode_ascii(full);
    let v = encode_utf8(full);
    assert(v == ascii(full));
    assert(v[4] == 44);
    assert forall|j: int| 0 <= j < 4 implies v[j] != 44 by {
        assert(v[j] == h[j] as u8);
    }
    lemma_find_byte_at(v, 44, 0, 4);
    assert(v.take(4) =~= ascii(h));
    assert(v.take(4)[0] != 43);
    lemma_hex4_value(sum);
    assert(parse_hex_u16(v.take(4)) == Some(sum));
    let body = v.skip(5);
    assert(body =~= ascii(text));
    assert(body.subrange(0, text.len() as int) =~= ascii(text));
    lemma_parse_cell_text(body, 0, t);
}

/// `x` in lower-case hexadecimal without leading zeros (`{:x}`).
pub open spec fn hex_text(x: nat) -> Seq<char>
    decreases x,
{
    if x < 16 {
        seq![hex_char(x)]
    } else {
        hex_text(x / 16).push(hex_char(x % 16))
    }
}

proof fn lemma_hex_text(x: nat)
    ensures
        hex_text(x).len() >= 1,
        is_ascii_chars(hex_text(x)),
        hex_value(ascii(hex_text(x))) == Some(x),
        forall|j: int| 0 <= j < hex_text(x).len() ==> hex_text(x)[j] as u8 != 44 && hex_text(x)[j] as u8 != 43,
    decreases x,
{
    let h = hex_text(x);
    if x < 16 {
        lemma_hex_char(x);
        assert(ascii(h).drop_last() =~= Seq::<u8>::empty());
        assert(ascii(h).last() == hex_char(x) as u8);
        assert(hex_value(ascii(h).drop_last()) == Some(0nat));
        assert(hex_value(ascii(h)) == Some(0nat * 16 + x));
    } else {
        lemma_hex_text(x / 16);
        lemma_hex_char(x % 16);
        let p = hex_text(x / 16);
        assert(ascii(h).drop_last() =~= ascii(p));
        assert(ascii(h).last() == hex_char(x % 16) as u8);
        assert(hex_value(ascii(h).drop_last()) == Some(x / 16));
        assert((x / 16) * 16 + x % 16 == x);
        assert(hex_value(ascii(h)) == Some((x / 16) * 16 + x % 16));
        assert forall|j: int| 0 <= j < h.len() implies '\0' <= #[trigger] h[j] <= '\u{7f}' by {
            if j < p.len() {
                assert(h[j] == p[j]);
            }
        }
        assert forall|j: int| 0 <= j < h.len() implies h[j] as u8 != 44 && h[j] as u8 != 43 by {
            if j < p.len() {
                assert(h[j] == p[j]);
            }
        }
    }
}

/// A layout reads back from its layout text after any hexadecimal spelling
/// `h` of its checksum and a comma.
proof fn lemma_round_trip_prefixed(t: LayoutTree, h: Seq<char>)
    requires
        parsable(t),
        h.len() >= 1,
        is_ascii_chars(h),
        forall|j: int| 0 <= j < h.len() ==> h[j] as u8 != 44 && h[j] as u8 != 43,
        hex_value(ascii(h)) == Some(layout_checksum(encode_utf8(layout_text(t))) as nat),
    ensures
        parse_layout(encode_utf8(h + seq![','] + layout_text(t))) == Some(t),
{
    let text = layout_text(t);
    lemma_layout_text_ascii(t);
    lemma_encode_ascii(text);
    let sum = layout_checksum(encode_utf8(text));
    let n = h.len();
    let full = h + seq![','] + text;
    assert(is_ascii_chars(seq![',']));
    lemma_ascii_concat(h, seq![',']);
    lemma_ascii_concat(h + seq![','], text);
    lemma_encode_ascii(full);
    let v = encode_utf8(full);
    assert(v == ascii(full));
    assert(v[n as int] == 44);
    assert forall|j: int| 0 <= j < n implies v[j] != 44 by {
        assert(v[j] == h[j] as u8);
    }
    lemma_find_byte_at(v, 44, 0, n);
    assert(v.take(n as int) =~= ascii(h));
    assert(v.take(n as int)[0] != 43);
    assert(parse_hex_u16(v.take(n as int)) == Some(sum));
    let body = v.skip(n + 1int);
    assert(body =~= ascii(text));
    assert(body.subrange(0, text.len() as int) =~= ascii(text));
    lemma_parse_cell_text(body, 0, t);
}

/// Reading back a layout's text after its checksum in hexadecimal without
/// leading zeros (`{:x}`) and a comma gives the layout again, for every
/// layout whose splits have children and whose pane ids fit in a `u16`.
pub proof fn lemma_unpadded_round_trip(t: LayoutTree)
    requires
        parsable(t),
    ensures
        parse_layout(encode_utf8(hex_text(layout_checksum(encode_utf8(layout_text(t))) as nat) + seq![',']
            + layout_text(t))) == Some(t),
{
    let sum = layout_checksum(encode_utf8(layout_text(t)));
    lemma_hex_text(sum as nat);
    lemma_round_trip_prefixed(t, hex_text(sum as nat));
}

} // verus!
