use vstd::prelude::*;
use vstd::string::StringSliceAdditionalSpecFns;
use crate::layout::{LayoutCell, LayoutTree, PaneRect, SplitDirection, trees_of, wrap_add};

verus! {

/// Why a layout string was refused. The format says nothing more than that
/// it is not a layout.
#[derive(Clone, Copy, Debug, PartialEq, Eq, Structural)]
pub enum LayoutError {
    Invalid,
}

impl LayoutError {
    /// The message a refused layout is reported with.
    pub fn message(&self) -> (text: &'static str)
        ensures
            text@ == "invalid layout"@,
    {
        "invalid layout"
    }
}

pub open spec fn is_digit(c: u8) -> bool {
    48 <= c <= 57
}

/// The end of the run of decimal digits starting at `pos`.
pub open spec fn digits_end(b: Seq<u8>, pos: nat) -> nat
    decreases b.len() - pos,
{
    if pos < b.len() && is_digit(b[pos as int]) {
        digits_end(b, pos + 1)
    } else {
        pos
    }
}

pub proof fn lemma_digits_end_after(b: Seq<u8>, pos: nat)
    ensures
        digits_end(b, pos) >= pos,
        pos <= b.len() ==> digits_end(b, pos) <= b.len(),
    decreases b.len() - pos,
{
    if pos < b.len() && is_digit(b[pos as int]) {
        lemma_digits_end_after(b, pos + 1);
    }
}

/// The value of the decimal digits `b[start..end]`.
pub open spec fn digits_value(b: Seq<u8>, start: int, end: int) -> nat
    decreases end - start,
{
    if end <= start {
        0
    } else {
        digits_value(b, start, end - 1) * 10 + (b[end - 1] - 48) as nat
    }
}

/// A number at `pos`: a non-empty run of decimal digits whose value fits in
/// a `u16`, and where it ends.
pub open spec fn parse_number(b: Seq<u8>, pos: nat) -> Option<(u16, nat)> {
    let end = digits_end(b, pos);
    if end == pos || digits_value(b, pos as int, end as int) > u16::MAX {
        None
    } else {
        Some((digits_value(b, pos as int, end as int) as u16, end))
    }
}

/// `byte` at `pos`, and the position after it.
pub open spec fn parse_byte(b: Seq<u8>, pos: nat, byte: u8) -> Option<nat> {
    if pos < b.len() && b[pos as int] == byte {
        Some(pos + 1)
    } else {
        None
    }
}

/// `WxH,LEFT,TOP` at `pos`.
pub open spec fn parse_geometry(b: Seq<u8>, pos: nat) -> Option<(PaneRect, nat)> {
    match parse_number(b, pos) {
        None => None,
        Some((width, p1)) => match parse_byte(b, p1, 120) {
            None => None,
            Some(p2) => match parse_number(b, p2) {
                None => None,
                Some((height, p3)) => match parse_byte(b, p3, 44) {
                    None => None,
                    Some(p4) => match parse_number(b, p4) {
                        None => None,
                        Some((left, p5)) => match parse_byte(b, p5, 44) {
                            None => None,
                            Some(p6) => match parse_number(b, p6) {
                                None => None,
                                Some((top, p7)) => Some((PaneRect { top, left, height, width }, p7)),
                            },
                        },
                    },
                },
            },
        },
    }
}

pub proof fn lemma_geometry_after(b: Seq<u8>, pos: nat)
    ensures
        parse_geometry(b, pos) matches Some((_, p)) ==> p > pos,
{
    if let Some((width, p1)) = parse_number(b, pos) {
        lemma_digits_end_after(b, pos);
        if let Some(p2) = parse_byte(b, p1, 120) {
            lemma_digits_end_after(b, p2);
            if let Some((height, p3)) = parse_number(b, p2) {
                if let Some(p4) = parse_byte(b, p3, 44) {
                    lemma_digits_end_after(b, p4);
                    if let Some((left, p5)) = parse_number(b, p4) {
                        if let Some(p6) = parse_byte(b, p5, 44) {
                            lemma_digits_end_after(b, p6);
                        }
                    }
                }
            }
        }
    }
}

/// One layout cell at `pos`: geometry, then `,ID` for a pane or bracketed,
/// comma-separated children for a split (`[...]` top/bottom, `{...}`
/// left/right); and where it ends.
pub open spec fn parse_cell(b: Seq<u8>, pos: nat) -> Option<(LayoutTree, nat)>
    decreases b.len() - pos, 0nat,
{
    match parse_geometry(b, pos) {
        None => None,
        Some((rect, p)) => if p < pos || p >= b.len() {
            None
        } else if b[p as int] == 44 {
            match parse_number(b, p + 1) {
                None => None,
                Some((pane_id, q)) => Some((LayoutTree::Pane(pane_id as u32, rect), q)),
            }
        } else if b[p as int] == 91 {
            match parse_children(b, p + 1, 93) {
                None => None,
                Some((children, q)) => Some((LayoutTree::Split(SplitDirection::TopBottom, rect, children), q)),
            }
        } else if b[p as int] == 123 {
            match parse_children(b, p + 1, 125) {
                None => None,
                Some((children, q)) => Some((LayoutTree::Split(SplitDirection::LeftRight, rect, children), q)),
            }
        } else {
            None
        }
    }
}

/// Children at `pos`, separated by commas and ended by `close`.
pub open spec fn parse_children(b: Seq<u8>, pos: nat, close: u8) -> Option<(Seq<LayoutTree>, nat)>
    decreases b.len() - pos, 1nat,
{
    if pos > b.len() {
        None
    } else {
        match parse_cell(b, pos) {
            None => None,
            Some((child, p)) => if p < pos || p >= b.len() {
                None
            } else if b[p as int] == close {
                Some((seq![child], p + 1))
            } else if b[p as int] == 44 {
                match parse_children(b, p + 1, close) {
                    None => None,
                    Some((rest, q)) => Some((seq![child] + rest, q)),
                }
            } else {
                None
            }
        }
    }
}


/// The value of a hexadecimal digit, either case; `None` for anything else.
pub open spec fn hex_digit(c: u8) -> Option<nat> {
    if 48 <= c <= 57 {
        Some((c - 48) as nat)
    } else if 97 <= c <= 102 {
        Some((c - 87) as nat)
    } else if 65 <= c <= 70 {
        Some((c - 55) as nat)
    } else {
        None
    }
}

/// The value of hexadecimal digits, if every byte is one.
pub open spec fn hex_value(d: Seq<u8>) -> Option<nat>
    decreases d.len(),
{
    if d.len() == 0 {
        Some(0)
    } else {
        match (hex_value(d.drop_last()), hex_digit(d.last())) {
            (Some(v), Some(x)) => Some(v * 16 + x),
            _ => None,
        }
    }
}

/// A `u16` written in hexadecimal with an optional leading `+`, as
/// `u16::from_str_radix(_, 16)` reads it.
pub open spec fn parse_hex_u16(s: Seq<u8>) -> Option<u16> {
    let digits = if s.len() > 0 && s[0] == 43 { s.skip(1) } else { s };
    if digits.len() == 0 {
        None
    } else {
        match hex_value(digits) {
            Some(v) => if v <= u16::MAX { Some(v as u16) } else { None },
            None => None,
        }
    }
}

/// `x` rotated right by one bit.
pub open spec fn rotate_right_one(x: u16) -> u16 {
    (x / 2 + (x % 2) * 0x8000) as u16
}

/// The layout checksum of `body`: for each byte, rotate right by one and add
/// the byte, wrapping.
pub open spec fn layout_checksum(body: Seq<u8>) -> u16
    decreases body.len(),
{
    if body.len() == 0 {
        0
    } else {
        wrap_add(rotate_right_one(layout_checksum(body.drop_last())), body.last() as u16)
    }
}

/// The first index at or after `from` holding `byte`.
pub open spec fn find_byte(v: Seq<u8>, byte: u8, from: nat) -> Option<nat>
    decreases v.len() - from,
{
    if from >= v.len() {
        None
    } else if v[from as int] == byte {
        Some(from)
    } else {
        find_byte(v, byte, from + 1)
    }
}

/// A custom layout: a hexadecimal checksum, a comma, and a body whose
/// checksum it is and which is exactly one layout cell.
pub open spec fn parse_layout(v: Seq<u8>) -> Option<LayoutTree> {
    match find_byte(v, 44, 0) {
        None => None,
        Some(k) => {
            let body = v.skip(k + 1int);
            match parse_hex_u16(v.take(k as int)) {
                None => None,
                Some(sum) => if sum != layout_checksum(body) {
                    None
                } else {
                    match parse_cell(body, 0) {
                        Some((tree, end)) => if end == body.len() { Some(tree) } else { None },
                        None => None,
                    }
                },
            }
        },
    }
}

/// A reader over the body of a layout.
pub struct LayoutParser<'a> {
    pub bytes: &'a [u8],
    pub offset: usize,
}

impl<'a> LayoutParser<'a> {
    /// Read a number at the offset.
    pub fn number(&mut self) -> (value: Result<u16, LayoutError>)
        requires
            old(self).offset <= old(self).bytes@.len(),
        ensures
            final(self).bytes@ == old(self).bytes@,
            final(self).offset <= final(self).bytes@.len(),
            match parse_number(old(self).bytes@, old(self).offset as nat) {
                Some((v, end)) => value == Ok::<u16, LayoutError>(v) && final(self).offset == end,
                None => value is Err,
            },
    {
        let ghost b = self.bytes@;
        let start = self.offset;
        while self.offset < self.bytes.len() && 48 <= self.bytes[self.offset] && self.bytes[self.offset] <= 57
            invariant
                self.bytes@ == b,
                start <= self.offset <= b.len(),
                digits_end(b, start as nat) == digits_end(b, self.offset as nat),
                forall|k: int| start <= k < self.offset ==> is_digit(#[trigger] b[k]),
            decreases b.len() - self.offset,
        {
            self.offset += 1;
        }
        if start == self.offset {
            return Err(LayoutError::Invalid);
        }
        let mut value: u32 = 0;
        let mut too_big = false;
        let mut k = start;
        while k < self.offset
            invariant
                self.bytes@ == b,
                start <= k <= self.offset <= b.len(),
                forall|j: int| start <= j < self.offset ==> is_digit(#[trigger] b[j]),
                !too_big ==> value == digits_value(b, start as int, k as int) && value <= u16::MAX,
                too_big ==> digits_value(b, start as int, k as int) > u16::MAX,
            decreases self.offset - k,
        {
            let digit = (self.bytes[k] - 48) as u32;
            proof {
                assert(is_digit(b[k as int]));
                let before = digits_value(b, start as int, k as int);
                assert(digits_value(b, start as int, k + 1) == before * 10 + (b[k as int] - 48) as nat);
                assert(before * 10 + (b[k as int] - 48) as nat >= before) by (nonlinear_arith);
            }
            if !too_big {
                value = value * 10 + digit;
                if value > 65535 {
                    too_big = true;
                }
            }
            k += 1;
        }
        if too_big {
            return Err(LayoutError::Invalid);
        }
        Ok(value as u16)
    }

    /// Step over `byte` at the offset.
    pub fn expect(&mut self, byte: u8) -> (r: Result<(), LayoutError>)
        requires
            old(self).offset <= old(self).bytes@.len(),
        ensures
            final(self).bytes@ == old(self).bytes@,
            final(self).offset <= final(self).bytes@.len(),
            match parse_byte(old(self).bytes@, old(self).offset as nat, byte) {
                Some(end) => r is Ok && final(self).offset == end,
                None => r is Err,
            },
    {
        if self.offset >= self.bytes.len() || self.bytes[self.offset] != byte {
            return Err(LayoutError::Invalid);
        }
        self.offset += 1;
        Ok(())
    }

    /// Read one layout cell at the offset.
    pub fn cell(&mut self) -> (cell: Result<LayoutCell, LayoutError>)
        requires
            old(self).offset <= old(self).bytes@.len(),
        ensures
            final(self).bytes@ == old(self).bytes@,
            final(self).offset <= final(self).bytes@.len(),
            match parse_cell(old(self).bytes@, old(self).offset as nat) {
                Some((tree, end)) => cell is Ok && cell->Ok_0@ == tree && final(self).offset == end,
                None => cell is Err,
            },
            cell is Ok ==> final(self).offset > old(self).offset,
        decreases old(self).bytes@.len() - old(self).offset,
    {
        let ghost b = self.bytes@;
        let ghost start = self.offset as nat;
        let width = self.number()?;
        self.expect(120)?;
        let height = self.number()?;
        self.expect(44)?;
        let left = self.number()?;
        self.expect(44)?;
        let top = self.number()?;
        let rect = PaneRect { top, left, height, width };
        let ghost p = self.offset as nat;
        assert(parse_geometry(b, start) == Some((rect, p)));
        proof {
            lemma_geometry_after(b, start);
        }
        if self.offset >= self.bytes.len() {
            return Err(LayoutError::Invalid);
        }
        let here = self.bytes[self.offset];
        if here == 44 {
            self.offset += 1;
            proof {
                lemma_digits_end_after(b, (p + 1) as nat);
            }
            let pane_id = self.number()?;
            return Ok(LayoutCell::Pane { pane_id: pane_id as u32, rect });
        }
        if here != 91 && here != 123 {
            return Err(LayoutError::Invalid);
        }
        self.offset += 1;
        let close: u8 = if here == 91 { 93 } else { 125 };
        let direction = if here == 91 { SplitDirection::TopBottom } else { SplitDirection::LeftRight };
        let mut children: Vec<LayoutCell> = Vec::new();
        let ghost first = self.offset as nat;
        loop
            invariant_except_break
                self.bytes@ == b,
                b == old(self).bytes@,
                start == old(self).offset,
                first > start,
                first <= self.offset <= b.len(),
                parse_geometry(b, start) == Some((rect, p)),
                p < b.len(),
                close == 93 ==> b[p as int] == 91 && direction == SplitDirection::TopBottom,
                close == 125 ==> b[p as int] == 123 && direction == SplitDirection::LeftRight,
                close == 93 || close == 125,
                first == p + 1,
                parse_children(b, first, close) == match parse_children(b, self.offset as nat, close) {
                    Some((rest, q)) => Some((trees_of(children@) + rest, q)),
                    None => None::<(Seq<LayoutTree>, nat)>,
                },
            ensures
                self.bytes@ == b,
                self.offset <= b.len(),
                children@.len() > 0,
                self.offset > start,
                parse_children(b, first, close) == Some((trees_of(children@), self.offset as nat)),
            decreases b.len() - self.offset,
        {
            let ghost at = self.offset as nat;
            let child = self.cell();
            let child = match child {
                Ok(child) => child,
                Err(e) => {
                    proof {
                        assert(parse_children(b, at, close) is None);
                    }
                    return Err(e);
                },
            };
            let ghost after = self.offset as nat;
            proof {
                assert(trees_of(children@.push(child)) == trees_of(children@).push(child.tree())) by {
                    assert(children@.push(child).drop_last() =~= children@);
                }
            }
            if self.offset < self.bytes.len() && self.bytes[self.offset] == close {
                self.offset += 1;
                children.push(child);
                proof {
                    assert(trees_of(children@) =~= trees_of(children@.drop_last()) + seq![child.tree()]);
                }
                break;
            }
            if self.offset < self.bytes.len() && self.bytes[self.offset] == 44 {
                self.offset += 1;
                children.push(child);
                proof {
                    let done = trees_of(children@.drop_last());
                    assert(children@.drop_last().push(child) =~= children@);
                    match parse_children(b, self.offset as nat, close) {
                        Some((rest, q)) => {
                            assert(done + (seq![child.tree()] + rest) =~= trees_of(children@) + rest);
                        },
                        None => {},
                    }
                }
            } else {
                proof {
                    assert(parse_children(b, at, close) is None);
                }
                return Err(LayoutError::Invalid);
            }
        }
        if children.len() == 0 {
            return Err(LayoutError::Invalid);
        }
        let result = LayoutCell::Split { direction, rect, children };
        proof {
            assert(result@ == LayoutTree::Split(direction, rect, trees_of(result->children@)));
        }
        Ok(result)
    }
}


/// Read a `u16` written in hexadecimal with an optional leading `+`.
pub fn parse_hex(text: &[u8]) -> (value: Option<u16>)
    ensures
        value == parse_hex_u16(text@),
{
    let ghost s = text@;
    let mut start: usize = 0;
    if text.len() > 0 && text[0] == 43 {
        start = 1;
    }
    let ghost digits = if s.len() > 0 && s[0] == 43 { s.skip(1) } else { s };
    proof {
        assert(digits =~= s.skip(start as int));
    }
    if start == text.len() {
        return None;
    }
    let mut value: u32 = 0;
    let mut too_big = false;
    let mut k = start;
    while k < text.len()
        invariant
            start <= k <= text.len(),
            s == text@,
            digits =~= s.skip(start as int),
            digits == (if s.len() > 0 && s[0] == 43 { s.skip(1) } else { s }),
            start < text.len(),
            hex_value(digits.take(k - start)) is Some,
            !too_big ==> value == hex_value(digits.take(k - start))->Some_0 && value <= u16::MAX,
            too_big ==> hex_value(digits.take(k - start))->Some_0 > u16::MAX,
        decreases text.len() - k,
    {
        let c = text[k];
        let digit: Option<u32> = if 48 <= c && c <= 57 {
            Some((c - 48) as u32)
        } else if 97 <= c && c <= 102 {
            Some((c - 87) as u32)
        } else if 65 <= c && c <= 70 {
            Some((c - 55) as u32)
        } else {
            None
        };
        proof {
            let prefix = digits.take(k + 1 - start);
            assert(prefix.drop_last() =~= digits.take(k - start));
            assert(prefix.last() == c);
        }
        match digit {
            None => {
                proof {
                    let prefix = digits.take(k + 1 - start);
                    assert(hex_digit(c) is None);
                    assert(hex_value(prefix) is None);
                    lemma_hex_value_prefix(digits, (k + 1 - start) as int);
                    assert(digits.len() > 0);
                    assert(digits.take(digits.len() as int) =~= digits);
                }
                return None;
            },
            Some(d) => {
                proof {
                    let before = hex_value(digits.take(k - start))->Some_0;
                    assert(before * 16 + d >= before) by (nonlinear_arith);
                }
                if !too_big {
                    value = value * 16 + d;
                    if value > 65535 {
                        too_big = true;
                    }
                }
            },
        }
        k += 1;
    }
    proof {
        assert(digits.take(k - start) =~= digits);
    }
    if too_big {
        return None;
    }
    Some(value as u16)
}

/// A run whose prefix holds a non-digit has no value.
pub proof fn lemma_hex_value_prefix(d: Seq<u8>, n: int)
    requires
        0 <= n <= d.len(),
        hex_value(d.take(n)) is None,
    ensures
        hex_value(d) is None,
    decreases d.len() - n,
{
    if n < d.len() {
        assert(d.take(n + 1).drop_last() =~= d.take(n));
        lemma_hex_value_prefix(d, n + 1);
    } else {
        assert(d.take(n) =~= d);
    }
}

/// The layout checksum of `body`.
pub fn checksum(body: &[u8]) -> (sum: u16)
    ensures
        sum == layout_checksum(body@),
{
    let mut sum: u16 = 0;
    let mut i: usize = 0;
    while i < body.len()
        invariant
            0 <= i <= body.len(),
            sum == layout_checksum(body@.take(i as int)),
        decreases body.len() - i,
    {
        proof {
            assert(body@.take(i + 1).drop_last() =~= body@.take(i as int));
        }
        let rotated = sum / 2 + (sum % 2) * 0x8000;
        sum = rotated.wrapping_add(body[i] as u16);
        i += 1;
    }
    proof {
        assert(body@.take(i as int) =~= body@);
    }
    sum
}

/// Read a custom layout, `CHECKSUM,BODY`: the checksum must be the body's
/// and the body exactly one layout cell.
pub fn parse_custom_layout(value: &str) -> (layout: Result<LayoutCell, LayoutError>)
    ensures
        match parse_layout(value.spec_bytes()) {
            Some(tree) => layout is Ok && layout->Ok_0@ == tree,
            None => layout is Err,
        },
{
    let bytes = value.as_bytes();
    let ghost v = bytes@;
    let mut comma: usize = 0;
    while comma < bytes.len() && bytes[comma] != 44
        invariant
            0 <= comma <= bytes.len(),
            find_byte(v, 44, 0) == find_byte(v, 44, comma as nat),
            v == bytes@,
        decreases bytes.len() - comma,
    {
        comma += 1;
    }
    if comma == bytes.len() {
        return Err(LayoutError::Invalid);
    }
    let sum_text = vstd::slice::slice_subrange(bytes, 0, comma);
    let body = vstd::slice::slice_subrange(bytes, comma + 1, bytes.len());
    proof {
        assert(body@ =~= v.skip(comma + 1int));
        assert(sum_text@ =~= v.take(comma as int));
    }
    let expected = match parse_hex(sum_text) {
        Some(expected) => expected,
        None => return Err(LayoutError::Invalid),
    };
    if expected != checksum(body) {
        return Err(LayoutError::Invalid);
    }
    let mut parser = LayoutParser { bytes: body, offset: 0 };
    let layout = parser.cell()?;
    if parser.offset != parser.bytes.len() {
        return Err(LayoutError::Invalid);
    }
    Ok(layout)
}

} // verus!
