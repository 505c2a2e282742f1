//! The grid of results.

use tuitube::grid::{
    display_width, ensure_visible, image_rows, layout, move_selection, truncate,
    truncate_measured, Dir, LayoutMode, CELL_EXTRA_ROWS, MAX_COLUMNS,
};
use tuitube::rect::Rect;
use tuitube::video::CellSize;

const CELL: CellSize = CellSize {
    width_px: 8,
    height_px: 16,
};

fn inner_80x24() -> Rect {
    Rect::new(1, 4, 78, 16)
}

/// Whether two rectangles share a cell.
fn overlap(a: Rect, b: Rect) -> bool {
    let wide = a.x.max(b.x) < a.right().min(b.right());
    let high = a.y.max(b.y) < a.bottom().min(b.bottom());
    wide && high
}

#[test]
fn layout_of_an_80x24_terminal_is_4_columns_by_2_rows() {
    let layout = layout(inner_80x24(), CELL, 10, 0).expect("格子を組める");
    assert_eq!(layout.columns, 4);
    assert_eq!(layout.rows, 2);
    assert_eq!(layout.offset, 0);
    assert_eq!(layout.image_px, (144, 80));
    assert_eq!(layout.cells.len(), 8);

    let first = layout.cells[0];
    assert_eq!(first.image, Rect::new(1, 4, 18, 5));
    assert_eq!(first.title, Rect::new(1, 9, 18, 1));
    assert_eq!(first.meta, Rect::new(1, 10, 18, 1));
    assert_eq!(layout.cells[4].image, Rect::new(1, 12, 18, 5));
}

#[test]
fn an_absurd_cell_size_does_not_overflow_the_cell_height() {
    let cell = CellSize {
        width_px: 64,
        height_px: 1,
    };
    let layout = layout(Rect::new(0, 0, u16::MAX, u16::MAX), cell, 4, 0).expect("格子を組める");
    assert_eq!(layout.rows, 1);
    for cell in &layout.cells {
        assert!(cell.image.height <= u16::MAX - CELL_EXTRA_ROWS);
        assert!(cell.title.y > cell.image.y);
        assert!(cell.meta.y > cell.title.y);
    }
}

#[test]
fn layout_cells_never_overlap_and_stay_inside_the_inner_area() {
    for (width, height) in [(78, 16), (18, 40), (118, 38), (40, 9), (200, 60)] {
        let inner = Rect::new(2, 3, width, height);
        let Some(layout) = layout(inner, CELL, 60, 0) else {
            continue;
        };
        let mut seen: Vec<Rect> = Vec::new();
        for cell in &layout.cells {
            for rect in [cell.image, cell.title, cell.meta] {
                assert!(rect.x >= inner.x, "{rect:?} / {inner:?}");
                assert!(rect.y >= inner.y, "{rect:?} / {inner:?}");
                assert!(rect.right() <= inner.right(), "{rect:?} / {inner:?}");
                assert!(rect.bottom() <= inner.bottom(), "{rect:?} / {inner:?}");
                assert!(
                    seen.iter().all(|other| !overlap(*other, rect)),
                    "{rect:?} overlaps another cell"
                );
                seen.push(rect);
            }
        }
    }
}

#[test]
fn layout_caps_the_column_count_on_a_wide_terminal() {
    let layout = layout(Rect::new(0, 0, 300, 40), CELL, 100, 0).expect("格子を組める");
    assert_eq!(layout.columns, MAX_COLUMNS);
}

#[test]
fn layout_is_none_when_one_cell_row_does_not_fit() {
    assert_eq!(layout(Rect::new(0, 0, 78, 4), CELL, 10, 0), None);
    assert_eq!(layout(Rect::new(0, 0, 0, 16), CELL, 10, 0), None);
    assert_eq!(layout(Rect::new(0, 0, 78, 0), CELL, 10, 0), None);
    assert_eq!(layout(Rect::new(0, 0, 1, 16), CELL, 10, 0), None);
}

#[test]
fn layout_image_rows_follow_the_cell_aspect_ratio() {
    let tall = layout(inner_80x24(), CELL, 10, 0).expect("格子を組める");
    let square_cell = CellSize {
        width_px: 8,
        height_px: 8,
    };
    let square = layout(Rect::new(1, 4, 78, 40), square_cell, 10, 0).expect("格子を組める");
    assert_eq!(tall.image_px, (144, 80));
    assert_eq!(square.image_px, (144, 80));
    assert_eq!(tall.cells[0].image.height, 5);
    assert_eq!(square.cells[0].image.height, 10);
}

#[test]
fn layout_offset_is_aligned_to_the_column_count() {
    let layout = layout(inner_80x24(), CELL, 20, 5).expect("格子を組める");
    assert_eq!(layout.columns, 4);
    assert_eq!(layout.offset, 4);
    assert_eq!(layout.cells.len(), 8);
}

#[test]
fn layout_shows_only_the_remaining_items_on_the_last_page() {
    let layout = layout(inner_80x24(), CELL, 10, 8).expect("格子を組める");
    assert_eq!(layout.offset, 8);
    assert_eq!(layout.cells.len(), 2);
}

#[test]
fn right_and_left_move_by_one_and_stop_at_the_ends() {
    assert_eq!(move_selection(0, 10, 4, Dir::Right), 1);
    assert_eq!(move_selection(9, 10, 4, Dir::Right), 9);
    assert_eq!(move_selection(1, 10, 4, Dir::Left), 0);
    assert_eq!(move_selection(0, 10, 4, Dir::Left), 0);
}

#[test]
fn down_and_up_move_by_a_full_row() {
    assert_eq!(move_selection(0, 10, 4, Dir::Down), 4);
    assert_eq!(move_selection(4, 10, 4, Dir::Up), 0);
    assert_eq!(move_selection(3, 10, 4, Dir::Up), 3);
}

#[test]
fn down_from_a_partial_last_row_lands_on_the_last_item() {
    assert_eq!(move_selection(7, 10, 4, Dir::Down), 9);
    assert_eq!(move_selection(9, 10, 4, Dir::Down), 9);
}

#[test]
fn move_selection_is_noop_without_results() {
    for dir in [Dir::Left, Dir::Right, Dir::Up, Dir::Down] {
        assert_eq!(move_selection(0, 0, 4, dir), 0, "{dir:?}");
        assert_eq!(move_selection(3, 10, 0, dir), 3, "{dir:?}");
    }
}

#[test]
fn scroll_follows_the_selection_out_of_the_bottom_row() {
    assert_eq!(ensure_visible(8, 4, 2, 0), 4);
    assert_eq!(ensure_visible(12, 4, 2, 0), 8);
}

#[test]
fn scroll_returns_to_zero_when_the_selection_goes_back_up() {
    assert_eq!(ensure_visible(0, 4, 2, 4), 0);
    assert_eq!(ensure_visible(3, 4, 2, 8), 0);
}

#[test]
fn scroll_stays_at_zero_when_everything_fits() {
    for selected in 0..8 {
        assert_eq!(ensure_visible(selected, 4, 2, 0), 0, "{selected}");
    }
    assert_eq!(ensure_visible(5, 4, 2, 5), 4);
    assert_eq!(ensure_visible(0, 0, 2, 7), 7);
    assert_eq!(ensure_visible(0, 4, 0, 7), 7);
}

#[test]
fn truncate_counts_display_width_not_chars() {
    assert_eq!(truncate("ラーメン", 5), "ラー…");
    assert_eq!(truncate("abcdef", 4), "abc…");
    assert_eq!(truncate("ラーメン", 8), "ラーメン");
    assert_eq!(truncate("abc", 8), "abc");
}

#[test]
fn truncate_never_splits_a_wide_char_in_half() {
    assert_eq!(truncate("ラーメン", 4), "ラ…");
    assert_eq!(display_width(&truncate("ラーメン", 4)), 3);
    assert_eq!(truncate("ラーメン", 1), "…");
    assert_eq!(truncate("ラーメン", 0), "");
}

#[test]
fn layout_mode_round_trips_through_its_key() {
    for mode in [LayoutMode::Grid, LayoutMode::List] {
        assert_eq!(LayoutMode::from_key(mode.key()), Some(mode));
    }
    assert_eq!(LayoutMode::from_key("Grid"), None);
    assert_eq!(LayoutMode::default(), LayoutMode::Grid);
}

#[test]
fn a_measured_text_is_cut_where_the_dots_fit() {
    assert_eq!(truncate_measured("abc", 3, &vec![1, 1, 1], 3), "abc");
    assert_eq!(truncate_measured("abc", 3, &vec![1, 1, 1], 2), "a…");
    assert_eq!(truncate_measured("abc", 6, &vec![2, 2, 2], 4), "a…");
}

#[test]
fn wide_characters_take_two_columns() {
    assert_eq!(display_width("ab"), 2);
    assert_eq!(display_width("ラー"), 4);
    assert_eq!(display_width(""), 0);
}

#[test]
fn image_rows_keep_the_proportions_of_a_video() {
    assert_eq!(image_rows(18, CELL), 5);
    assert_eq!(
        image_rows(
            18,
            CellSize {
                width_px: 8,
                height_px: 8
            }
        ),
        10
    );
    // A terminal that reports no pixels still gets an image.
    assert_eq!(
        image_rows(
            18,
            CellSize {
                width_px: 0,
                height_px: 0
            }
        ),
        10
    );
}

#[test]
fn the_selection_is_visible_after_every_move() {
    let mut selected = 0;
    let mut scroll = 0;
    for dir in [Dir::Down, Dir::Down, Dir::Down, Dir::Right, Dir::Up, Dir::Up] {
        selected = move_selection(selected, 23, 4, dir);
        scroll = ensure_visible(selected, 4, 2, scroll);
        assert!(scroll <= selected && selected < scroll + 8);
        assert_eq!(ensure_visible(selected, 4, 2, scroll), scroll);
    }
}
