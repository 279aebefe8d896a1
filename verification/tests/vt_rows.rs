use hmux::vt_rows::{copy_vt_row_ranges, view_output_vt};

#[test]
fn copy_vt_rows_exclude_crlf_and_trailing_cursor() {
    let vt = b"one\r\ntwo\r\nlast\x1b[3;4H";
    let rows = copy_vt_row_ranges(vt)
        .into_iter()
        .map(|range| &vt[range])
        .collect::<Vec<_>>();
    assert_eq!(rows, [b"one".as_slice(), b"two", b"last"]);
}

#[test]
fn copy_vt_rows_preserve_content_without_cursor_sequence() {
    let vt = b"first\nsecond\r";
    let rows = copy_vt_row_ranges(vt)
        .into_iter()
        .map(|range| &vt[range])
        .collect::<Vec<_>>();
    assert_eq!(rows, [b"first".as_slice(), b"second"]);
    assert_eq!(copy_vt_row_ranges(b""), std::iter::once(0..0).collect::<Vec<_>>());
}

#[test]
fn copy_vt_rows_split_on_bare_newlines() {
    let vt = b"a\nb\nc";
    let rows = copy_vt_row_ranges(vt)
        .into_iter()
        .map(|range| &vt[range])
        .collect::<Vec<_>>();
    assert_eq!(rows, [b"a".as_slice(), b"b", b"c"]);
}

#[test]
fn view_output_turns_newlines_into_crlf() {
    assert_eq!(view_output_vt(b"x\ny"), b"x\r\ny".to_vec());
    assert_eq!(view_output_vt(b"x\r\ny"), b"x\r\ny".to_vec());
}
