use hmux::layout::{split_axis, LayoutCell, PaneRect, SplitDirection};
use hmux::layout_format::{checksum, parse_custom_layout, parse_hex};
use hmux::layout_string::layout_string;

fn whole() -> PaneRect {
    PaneRect { top: 0, left: 0, height: 24, width: 80 }
}

#[test]
fn a_single_pane_dumps_its_geometry_and_id() {
    let cell = LayoutCell::pane(5, 80, 24);
    assert_eq!(cell.dump(), "80x24,0,0,5");
}

#[test]
fn a_single_pane_layout_string_carries_the_known_checksum() {
    let cell = LayoutCell::pane(0, 80, 24);
    assert_eq!(layout_string(&cell), "b25d,80x24,0,0,0");
    assert_eq!(checksum(b"80x24,0,0,0"), 0xb25d);
}

#[test]
fn split_axis_leaves_room_for_the_separator() {
    assert_eq!(split_axis(80), (40, 39));
    assert_eq!(split_axis(24), (12, 11));
    assert_eq!(split_axis(3), (1, 1));
    assert_eq!(split_axis(1), (1, 1));
}

#[test]
fn splitting_side_by_side_places_the_new_pane_after_a_separator() {
    let mut cell = LayoutCell::pane(1, 80, 24);
    assert!(cell.split(1, 2, SplitDirection::LeftRight, false));
    assert_eq!(cell.dump(), "80x24,0,0{40x24,0,0,1,39x24,41,0,2}");
    assert_eq!(layout_string(&cell), "020a,80x24,0,0{40x24,0,0,1,39x24,41,0,2}");
}

#[test]
fn splitting_top_to_bottom_stacks_the_panes() {
    let mut cell = LayoutCell::pane(1, 80, 24);
    assert!(cell.split(1, 2, SplitDirection::TopBottom, false));
    assert_eq!(cell.dump(), "80x24,0,0[80x12,0,0,1,80x11,0,13,2]");
}

#[test]
fn splitting_a_missing_pane_changes_nothing() {
    let mut cell = LayoutCell::pane(1, 80, 24);
    assert!(!cell.split(9, 2, SplitDirection::LeftRight, false));
    assert_eq!(cell.dump(), "80x24,0,0,1");
}

#[test]
fn a_layout_string_reads_back_as_the_same_layout() {
    let mut cell = LayoutCell::pane(1, 80, 24);
    assert!(cell.split(1, 2, SplitDirection::LeftRight, false));
    assert!(cell.split(2, 3, SplitDirection::TopBottom, true));
    let text = layout_string(&cell);
    let parsed = parse_custom_layout(&text).expect("layout reads back");
    assert_eq!(parsed.dump(), cell.dump());
    assert_eq!(parsed.panes(), cell.panes());
}

#[test]
fn a_wrong_checksum_is_refused() {
    assert!(parse_custom_layout("b25e,80x24,0,0,0").is_err());
    assert!(parse_custom_layout("b25d,80x24,0,0,0").is_ok());
}

#[test]
fn a_layout_without_a_checksum_or_with_trailing_text_is_refused() {
    assert!(parse_custom_layout("80x24").is_err());
    assert!(parse_custom_layout("zz,80x24,0,0,0").is_err());
    let body = "80x24,0,0,0x";
    let text = format!("{:04x},{}", checksum(body.as_bytes()), body);
    assert!(parse_custom_layout(&text).is_err());
}

#[test]
fn the_error_message_is_tmuxs() {
    let err = parse_custom_layout("80x24").unwrap_err();
    assert_eq!(err.message(), "invalid layout");
}

#[test]
fn hexadecimal_checksums_read_in_either_case() {
    assert_eq!(parse_hex(b"b25d"), Some(0xb25d));
    assert_eq!(parse_hex(b"B25D"), Some(0xb25d));
    assert_eq!(parse_hex(b"g"), None);
}

#[test]
fn removing_a_pane_gives_its_space_to_the_sibling() {
    let mut cell = LayoutCell::pane(1, 80, 24);
    assert!(cell.split(1, 2, SplitDirection::LeftRight, false));
    assert!(cell.remove(2));
    assert_eq!(cell.dump(), "80x24,0,0,1");
    assert!(!cell.remove(1));
}

#[test]
fn swapping_panes_exchanges_their_places() {
    let mut cell = LayoutCell::pane(1, 80, 24);
    assert!(cell.split(1, 2, SplitDirection::LeftRight, false));
    cell.swap_panes(1, 2);
    assert_eq!(cell.dump(), "80x24,0,0{40x24,0,0,2,39x24,41,0,1}");
}

#[test]
fn even_layouts_share_the_extent() {
    let cell = LayoutCell::even(&[1, 2, 3], SplitDirection::LeftRight, whole());
    let panes = cell.panes();
    let widths: Vec<u16> = panes.iter().map(|(_, r)| r.width).collect();
    let ids: Vec<u32> = panes.iter().map(|(id, _)| *id).collect();
    assert_eq!(ids, vec![1, 2, 3]);
    assert_eq!(widths.iter().map(|w| *w as u32).sum::<u32>() + 2, 80);
    assert_eq!(widths, vec![26, 26, 26]);
}

#[test]
fn a_single_pane_even_layout_is_that_pane() {
    let cell = LayoutCell::even(&[7], SplitDirection::TopBottom, whole());
    assert_eq!(cell.dump(), "80x24,0,0,7");
}

#[test]
fn tiling_keeps_every_pane_in_order() {
    let cell = LayoutCell::tiled(&[1, 2, 3, 4], whole(), 0);
    let ids: Vec<u32> = cell.panes().iter().map(|(id, _)| *id).collect();
    assert_eq!(ids, vec![1, 2, 3, 4]);
    assert_eq!(cell.rect(), whole());
}

#[test]
fn pane_rect_finds_a_pane() {
    let mut cell = LayoutCell::pane(1, 80, 24);
    assert!(cell.split(1, 2, SplitDirection::LeftRight, false));
    assert_eq!(cell.pane_rect(2), Some(PaneRect { top: 0, left: 41, height: 24, width: 39 }));
    assert_eq!(cell.pane_rect(3), None);
    assert!(cell.contains(1));
    assert!(!cell.contains(3));
}

#[test]
fn neighbours_are_found_across_the_split() {
    let mut cell = LayoutCell::pane(1, 80, 24);
    assert!(cell.split(1, 2, SplitDirection::LeftRight, false));
    assert_eq!(cell.neighbour(1, SplitDirection::LeftRight, true), Some(2));
    assert_eq!(cell.neighbour(2, SplitDirection::LeftRight, false), Some(1));
}

fn pair_80x24() -> LayoutCell {
    LayoutCell::Split {
        direction: SplitDirection::LeftRight,
        rect: whole(),
        children: vec![
            LayoutCell::Pane { pane_id: 1, rect: PaneRect { top: 0, left: 0, height: 24, width: 40 } },
            LayoutCell::Pane { pane_id: 2, rect: PaneRect { top: 0, left: 41, height: 24, width: 39 } },
        ],
    }
}

#[test]
fn tiling_three_panes_makes_a_two_by_two_grid() {
    let cell = LayoutCell::tiled(&[1, 2, 3], whole(), 0);
    assert_eq!(cell.dump(), "80x24,0,0[80x11,0,0{39x11,0,0,1,40x11,40,0,2},80x12,0,12,3]");
}

#[test]
fn tiling_respects_the_column_limit() {
    let cell = LayoutCell::tiled(&[1, 2, 3, 4], whole(), 1);
    match &cell {
        LayoutCell::Split { children, .. } => {
            assert_eq!(children.len(), 4);
            assert!(children.iter().all(|row| matches!(row, LayoutCell::Pane { .. })));
        }
        _ => panic!("a tiled layout is a split"),
    }
}

#[test]
fn splitting_one_pane_gives_the_target_the_first_half() {
    let mut cell = LayoutCell::Pane { pane_id: 1, rect: whole() };
    assert!(cell.split(1, 2, SplitDirection::LeftRight, false));
    assert_eq!(cell.dump(), "80x24,0,0{40x24,0,0,1,39x24,41,0,2}");
}

#[test]
fn removing_one_of_two_collapses_to_the_survivor() {
    let mut cell = pair_80x24();
    assert!(cell.remove(1));
    assert_eq!(cell.dump(), "80x24,0,0,2");
}

#[test]
fn resizing_a_pane_to_a_size_keeps_the_sibling_one_cell() {
    let mut cell = pair_80x24();
    assert!(cell.resize_pane_to(1, SplitDirection::LeftRight, 200));
    assert_eq!(cell.dump(), "80x24,0,0{78x24,0,0,1,1x24,79,0,2}");
}

#[test]
fn resizing_a_pane_across_its_only_split_finds_nothing() {
    let mut cell = pair_80x24();
    assert!(!cell.resize_pane_to(1, SplitDirection::TopBottom, 10));
    assert_eq!(cell.dump(), "80x24,0,0{40x24,0,0,1,39x24,41,0,2}");
}

#[test]
fn growing_a_pane_toward_its_neighbour_takes_cells_from_it() {
    let mut cell = pair_80x24();
    assert!(cell.resize_pane_toward(1, SplitDirection::LeftRight, true, 5));
    assert_eq!(cell.dump(), "80x24,0,0{45x24,0,0,1,34x24,46,0,2}");
    assert!(!cell.resize_pane_toward(1, SplitDirection::LeftRight, false, 5));
}

#[test]
fn a_layout_reads_back_after_an_unpadded_checksum() {
    for cell in [LayoutCell::tiled(&[1, 2, 3], whole(), 0), pair_80x24(), LayoutCell::pane(7, 10, 3)] {
        let body = cell.dump();
        let sum = checksum(body.as_bytes());
        let text = format!("{sum:x},{body}");
        let back = parse_custom_layout(&text).expect("parsed");
        assert_eq!(back.dump(), body);
    }
}
