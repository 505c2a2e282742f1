//! From the size of the terminal to the size of the picture.

use crate::rect::Rect;
use crate::video::{is_picture, CellSize, Geometry};
use vstd::prelude::*;

verus! {

/// The rows under the picture: title, seek bar, status and keys.
pub const ROWS_BELOW_VIDEO: u16 = 4;

/// The part of the screen that the picture may fill.
pub open spec fn video_part(screen: Rect) -> Rect {
    Rect {
        x: screen.x,
        y: screen.y,
        width: screen.width,
        height: if screen.height > ROWS_BELOW_VIDEO {
            (screen.height - ROWS_BELOW_VIDEO) as u16
        } else {
            0
        },
    }
}

pub fn video_area(screen: Rect) -> (r: Rect)
    ensures
        r == video_part(screen),
{
    Rect {
        x: screen.x,
        y: screen.y,
        width: screen.width,
        height: screen.height.saturating_sub(ROWS_BELOW_VIDEO),
    }
}

/// The picture for a terminal of `cols` by `rows` cells. It covers exactly the part
/// of the screen that is left to it, whatever the pixel budget.
pub fn geometry_for(cols: u16, rows: u16, cell: CellSize, max_pixels: u32) -> (r: Geometry)
    ensures
        is_picture(
            video_part(Rect { x: 0, y: 0, width: cols, height: rows }),
            cell,
            max_pixels as int,
            r,
        ),
{
    Geometry::new(video_area(Rect::new(0, 0, cols, rows)), cell, max_pixels)
}

/// The picture may fill the screen but for the four rows under it.
pub proof fn law_four_rows_stay_under_the_picture(screen: Rect)
    ensures
        video_part(screen).x == screen.x,
        video_part(screen).y == screen.y,
        video_part(screen).width == screen.width,
        screen.height >= 4 ==> video_part(screen).height + 4 == screen.height,
        screen.height < 4 ==> video_part(screen).height == 0,
{
}

} // verus!
