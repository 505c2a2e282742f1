//! From the size of the terminal to the size of the picture.

use tuitube::display::Quality;
use tuitube::geometry::{geometry_for, video_area, ROWS_BELOW_VIDEO};
use tuitube::rect::Rect;
use tuitube::video::{cell_size, fallback_cell, CellSize, MAX_FRAME_PIXELS};

const CELL: CellSize = CellSize {
    width_px: 8,
    height_px: 16,
};

#[test]
fn geometry_matches_the_video_area_of_the_same_terminal_size() {
    let geometry = geometry_for(80, 24, CELL, MAX_FRAME_PIXELS);
    assert_eq!(geometry.area, video_area(Rect::new(0, 0, 80, 24)));
    assert_eq!(geometry.cell, CELL);
    assert_eq!(geometry.frame_px, (640, 320));
}

#[test]
fn oversized_terminals_shrink_to_the_pixel_budget() {
    let geometry = geometry_for(200, 60, CELL, MAX_FRAME_PIXELS);
    let pixels = u64::from(geometry.frame_px.0) * u64::from(geometry.frame_px.1);
    assert!(pixels <= u64::from(MAX_FRAME_PIXELS), "{pixels} px");
    assert_eq!(geometry.area, video_area(Rect::new(0, 0, 200, 60)));
}

#[test]
fn a_smaller_budget_shrinks_the_frame_further() {
    let low = geometry_for(80, 24, CELL, Quality::Low.max_pixels());
    let pixels = u64::from(low.frame_px.0) * u64::from(low.frame_px.1);
    assert!(
        pixels <= u64::from(Quality::Low.max_pixels()),
        "{pixels} px"
    );
    assert_eq!(low.area, video_area(Rect::new(0, 0, 80, 24)));
}

#[test]
fn a_terminal_too_small_for_the_video_area_still_yields_a_frame() {
    let geometry = geometry_for(1, 1, CELL, MAX_FRAME_PIXELS);
    assert!(geometry.frame_px.0 >= 1 && geometry.frame_px.1 >= 1);
}

#[test]
fn the_picture_leaves_the_rows_below_it_alone() {
    let area = video_area(Rect::new(0, 0, 80, 24));
    assert_eq!(area, Rect::new(0, 0, 80, 24 - ROWS_BELOW_VIDEO));
    assert_eq!(video_area(Rect::new(0, 0, 80, 3)).height, 0);
}

#[test]
fn a_frame_over_the_budget_keeps_its_proportions() {
    // 1600 by 896 pixels shrink to the budget of 230,400.
    let geometry = geometry_for(200, 60, CELL, MAX_FRAME_PIXELS);
    assert_eq!(geometry.frame_px, (641, 359));
}

#[test]
fn the_cell_size_follows_from_the_reported_pixels() {
    assert_eq!(cell_size(80, 24, 640, 384), Some(CELL));
    assert_eq!(cell_size(80, 24, 0, 384), None);
    assert_eq!(cell_size(0, 24, 640, 384), None);
    assert_eq!(fallback_cell(), CELL);
}
