//! The size of the picture that the player draws into the terminal.

use crate::mpv::{ArgView, MpvArg};
use crate::rect::Rect;
use crate::text::{signed, signed_number, texts};
use vstd::prelude::*;
use vstd::string::*;

verus! {

/// The pixels of a frame at the usual quality: 640 by 360.
pub const MAX_FRAME_PIXELS: u32 = 230_400;

/// How many pixels one terminal cell covers.
#[derive(Debug, Clone, Copy, PartialEq, Eq, Structural)]
pub struct CellSize {
    pub width_px: u16,
    pub height_px: u16,
}

/// The cell size of a terminal that does not report pixels.
pub fn fallback_cell() -> (r: CellSize)
    ensures
        r == (CellSize { width_px: 8, height_px: 16 }),
{
    CellSize { width_px: 8, height_px: 16 }
}

/// The pixels of a cell, where the terminal told all that it takes.
pub open spec fn cell_of(columns: u16, rows: u16, width: u16, height: u16) -> Option<CellSize> {
    if columns == 0 || rows == 0 || width == 0 || height == 0 {
        None
    } else {
        Some(CellSize { width_px: width / columns, height_px: height / rows })
    }
}

/// The cell size of a terminal of `columns` by `rows` cells that is `width` by
/// `height` pixels. `None` where the terminal left one of them out.
pub fn cell_size(columns: u16, rows: u16, width: u16, height: u16) -> (r: Option<CellSize>)
    ensures
        r == cell_of(columns, rows, width, height),
{
    if columns == 0 || rows == 0 || width == 0 || height == 0 {
        None
    } else {
        Some(CellSize { width_px: width / columns, height_px: height / rows })
    }
}

/// How the player's output is read.
#[derive(Debug, Clone, Copy, PartialEq, Eq, Structural)]
pub enum DecoderKind {
    Kitty,
    Text,
}

/// Where an image is put: its first cell, counted from one, and its size in cells.
#[derive(Debug, Clone, Copy, PartialEq, Eq, Structural)]
pub struct Placement {
    pub row: u16,
    pub col: u16,
    pub cols: u16,
    pub rows: u16,
}

/// Where the picture is drawn, and how many pixels it has.
#[derive(Debug, PartialEq, Eq)]
pub struct Geometry {
    pub area: Rect,
    pub cell: CellSize,
    pub frame_px: (u32, u32),
}

impl Clone for Geometry {
    fn clone(&self) -> (r: Self)
        ensures
            r == *self,
    {
        Geometry { area: self.area, cell: self.cell, frame_px: (self.frame_px.0, self.frame_px.1) }
    }
}

/// `k` is the width at which `height / width` of the picture fills `budget`, rounded
/// down: the square of `k` times the height is at most the budget times the width.
pub open spec fn fills(k: int, width: int, height: int, budget: int) -> bool {
    &&& 0 <= k
    &&& k * k * height <= budget * width
    &&& (k + 1) * (k + 1) * height > budget * width
}

pub open spec fn kept_in(n: int, low: int, high: int) -> int {
    if n > high && high >= low {
        high
    } else if n < low {
        low
    } else {
        n
    }
}

/// `frame` is the picture of `width` by `height` pixels, made smaller in proportion
/// where it has more pixels than `budget`. A side is never shorter than one pixel.
pub open spec fn is_frame(width: int, height: int, budget: int, frame: (u32, u32)) -> bool {
    if width * height <= budget {
        &&& frame.0 == kept_in(width, 1, width)
        &&& frame.1 == kept_in(height, 1, height)
    } else {
        exists|k: int| #[trigger]
            fills(k, width, height, budget) && frame.0 == kept_in(k, 1, budget) && frame.1
                == kept_in(budget / frame.0 as int, 1, budget)
    }
}

/// The root that `fills` speaks of.
fn filling(width: u32, height: u32, budget: u32) -> (k: u32)
    requires
        width * height > budget,
    ensures
        fills(k as int, width as int, height as int, budget as int),
{
    proof {
        assert(0 <= budget * width <= 0xffff_ffff * 0xffff_ffff) by (nonlinear_arith)
            requires
                0 <= budget <= 0xffff_ffff,
                0 <= width <= 0xffff_ffff,
        ;
    }
    let limit: u128 = budget as u128 * width as u128;
    let side: u128 = height as u128;
    let mut low: u128 = 0;
    let mut high: u128 = width as u128;
    proof {
        assert(width * height > 0);
        assert(width > 0 && height > 0) by (nonlinear_arith)
            requires
                width * height > 0,
                width >= 0,
                height >= 0,
        ;
        assert(low * low * side == 0) by (nonlinear_arith)
            requires
                low == 0,
        ;
        assert(high * high * side > limit) by (nonlinear_arith)
            requires
                width * height > budget,
                high == width,
                side == height,
                limit == budget * width,
                width > 0,
        ;
    }
    while high - low > 1
        invariant
            0 <= low < high <= u32::MAX,
            side == height,
            limit == budget * width,
            low * low * side <= limit,
            high * high * side > limit,
        decreases high - low,
    {
        let mid: u128 = (low + high) / 2;
        proof {
            assert(mid * mid <= 0xffff_ffff * 0xffff_ffff) by (nonlinear_arith)
                requires
                    0 <= mid <= 0xffff_ffff,
            ;
            assert(mid * mid * side <= 0xffff_ffff * 0xffff_ffff * 0xffff_ffff)
                by (nonlinear_arith)
                requires
                    0 <= mid * mid <= 0xffff_ffff * 0xffff_ffff,
                    0 <= side <= 0xffff_ffff,
            ;
            assert(0 <= mid * mid * side) by (nonlinear_arith)
                requires
                    0 <= mid,
                    0 <= side,
            ;
            assert(0 <= mid * mid) by (nonlinear_arith)
                requires
                    0 <= mid,
            ;
        }
        if mid * mid * side <= limit {
            low = mid;
        } else {
            high = mid;
        }
    }
    assert(high == low + 1);
    low as u32
}

impl Geometry {
    /// The picture that fills `area` as far as `max_pixels` go.
    pub fn new(area: Rect, cell: CellSize, max_pixels: u32) -> (r: Self)
        ensures
            is_picture(area, cell, max_pixels as int, r),
    {
        proof {
            assert(0 <= area.width * cell.width_px <= 0xffff * 0xffff) by (nonlinear_arith)
                requires
                    0 <= area.width <= 0xffff,
                    0 <= cell.width_px <= 0xffff,
            ;
            assert(0 <= area.height * cell.height_px <= 0xffff * 0xffff) by (nonlinear_arith)
                requires
                    0 <= area.height <= 0xffff,
                    0 <= cell.height_px <= 0xffff,
            ;
        }
        let width: u32 = area.width as u32 * cell.width_px as u32;
        let height: u32 = area.height as u32 * cell.height_px as u32;
        proof {
            assert(0 <= width * height <= 0xffff_ffff * 0xffff_ffff) by (nonlinear_arith)
                requires
                    0 <= width <= 0xffff_ffff,
                    0 <= height <= 0xffff_ffff,
            ;
        }
        let frame_px: (u32, u32) = if width as u64 * height as u64 <= max_pixels as u64 {
            (
                if width < 1 {
                    1
                } else {
                    width
                },
                if height < 1 {
                    1
                } else {
                    height
                },
            )
        } else {
            let root: u32 = filling(width, height, max_pixels);
            let wide: u32 = if root > max_pixels && max_pixels >= 1 {
                max_pixels
            } else if root < 1 {
                1
            } else {
                root
            };
            let left: u32 = max_pixels / wide;
            let high: u32 = if left < 1 {
                1
            } else {
                left
            };
            proof {
                assert(max_pixels as int / wide as int <= max_pixels) by (nonlinear_arith)
                    requires
                        wide >= 1,
                        max_pixels >= 0,
                ;
            }
            (wide, high)
        };
        Geometry { area, cell, frame_px }
    }
}

/// `geometry` is the picture that fills `area` as far as `max_pixels` go.
pub open spec fn is_picture(area: Rect, cell: CellSize, max_pixels: int, geometry: Geometry) -> bool {
    &&& geometry.area == area
    &&& geometry.cell == cell
    &&& is_frame(
        area.width * cell.width_px,
        area.height * cell.height_px,
        max_pixels,
        geometry.frame_px,
    )
}

/// Whether two pictures have the same place and size.
pub fn same_geometry(a: &Geometry, b: &Geometry) -> (r: bool)
    ensures
        r == (*a == *b),
{
    a.area == b.area && a.cell == b.cell && a.frame_px.0 == b.frame_px.0 && a.frame_px.1
        == b.frame_px.1
}

/// The options of the output that draws with the terminal's graphics, in the order
/// in which they are set. Rows and columns are counted from one.
pub open spec fn kitty_settings(geometry: Geometry) -> Seq<(Seq<char>, ArgView)> {
    seq![
        ("cols"@, ArgView::Number(geometry.area.width as i64)),
        ("rows"@, ArgView::Number(geometry.area.height as i64)),
        ("width"@, ArgView::Number(geometry.frame_px.0 as i64)),
        ("height"@, ArgView::Number(geometry.frame_px.1 as i64)),
        ("left"@, ArgView::Number((geometry.area.x + 1) as i64)),
        ("top"@, ArgView::Number((geometry.area.y + 1) as i64)),
        ("alt-screen"@, ArgView::Flag(false)),
        ("config-clear"@, ArgView::Flag(false)),
    ]
}

/// The options of the output that draws with characters.
pub open spec fn tct_settings(geometry: Geometry) -> Seq<(Seq<char>, ArgView)> {
    seq![
        ("width"@, ArgView::Number(geometry.area.width as i64)),
        ("height"@, ArgView::Number(geometry.area.height as i64)),
    ]
}

/// What a list of options holds.
pub open spec fn option_views(options: Seq<(&'static str, MpvArg)>) -> Seq<
    (Seq<char>, ArgView),
> {
    options.map_values(|option: (&'static str, MpvArg)| (option.0@, option.1@))
}

/// The value of an option as it is written on the player's command line.
pub open spec fn plain_value(value: ArgView) -> Seq<char> {
    match value {
        ArgView::Text(text) => text,
        ArgView::Number(n) => signed(n as int),
        ArgView::Thousandths(n) => crate::mpv::fraction_text(n as nat),
        ArgView::Flag(on) => if on {
            "yes"@
        } else {
            "no"@
        },
    }
}

/// Options as arguments of the player's command line.
pub open spec fn option_args(prefix: Seq<char>, options: Seq<(Seq<char>, ArgView)>) -> Seq<
    Seq<char>,
> {
    options.map_values(
        |option: (Seq<char>, ArgView)| prefix + option.0 + "="@ + plain_value(option.1),
    )
}

fn written(prefix: &str, options: &Vec<(&'static str, MpvArg)>) -> (r: Vec<String>)
    ensures
        texts(r@) == option_args(prefix@, option_views(options@)),
{
    let mut out: Vec<String> = Vec::new();
    for i in 0..options.len()
        invariant
            texts(out@) == option_args(prefix@, option_views(options@)).take(i as int),
    {
        let ghost before = out@;
        let mut arg = prefix.to_owned();
        arg.append(options[i].0);
        arg.append("=");
        match &options[i].1 {
            MpvArg::Text(text) => arg.append(text.as_str()),
            MpvArg::Number(n) => arg.append(signed_number(*n).as_str()),
            MpvArg::Thousandths(n) => arg.append(crate::mpv::fraction(*n).as_str()),
            MpvArg::Flag(on) => if *on {
                arg.append("yes")
            } else {
                arg.append("no")
            },
        }
        let ghost text = arg@;
        out.push(arg);
        proof {
            assert(texts(out@) =~= texts(before).push(text));
            assert(texts(out@) =~= option_args(prefix@, option_views(options@)).take(i + 1));
        }
    }
    assert(option_args(prefix@, option_views(options@)).take(options@.len() as int)
        =~= option_args(prefix@, option_views(options@)));
    out
}

impl Geometry {
    pub fn kitty_options(&self) -> (r: Vec<(&'static str, MpvArg)>)
        ensures
            option_views(r@) == kitty_settings(*self),
    {
        let mut out: Vec<(&'static str, MpvArg)> = Vec::new();
        out.push(("cols", MpvArg::Number(self.area.width as i64)));
        out.push(("rows", MpvArg::Number(self.area.height as i64)));
        out.push(("width", MpvArg::Number(self.frame_px.0 as i64)));
        out.push(("height", MpvArg::Number(self.frame_px.1 as i64)));
        out.push(("left", MpvArg::Number(self.area.x as i64 + 1)));
        out.push(("top", MpvArg::Number(self.area.y as i64 + 1)));
        out.push(("alt-screen", MpvArg::Flag(false)));
        out.push(("config-clear", MpvArg::Flag(false)));
        assert(option_views(out@) =~= kitty_settings(*self));
        out
    }

    pub fn tct_options(&self) -> (r: Vec<(&'static str, MpvArg)>)
        ensures
            option_views(r@) == tct_settings(*self),
    {
        let mut out: Vec<(&'static str, MpvArg)> = Vec::new();
        out.push(("width", MpvArg::Number(self.area.width as i64)));
        out.push(("height", MpvArg::Number(self.area.height as i64)));
        assert(option_views(out@) =~= tct_settings(*self));
        out
    }

    /// The options of graphics output as arguments.
    pub fn mpv_args(&self) -> (r: Vec<String>)
        ensures
            texts(r@) == option_args("--vo-kitty-"@, kitty_settings(*self)),
    {
        written("--vo-kitty-", &self.kitty_options())
    }

    /// The options of character output as arguments.
    pub fn tct_args(&self) -> (r: Vec<String>)
        ensures
            texts(r@) == option_args("--vo-tct-"@, tct_settings(*self)),
    {
        written("--vo-tct-", &self.tct_options())
    }
}

/// A frame never has more pixels than its budget, and never none.
pub proof fn law_frame_within_budget(width: int, height: int, budget: int, frame: (u32, u32))
    requires
        width >= 0,
        height >= 0,
        budget >= 1,
        is_frame(width, height, budget, frame),
    ensures
        frame.0 >= 1,
        frame.1 >= 1,
        frame.0 * frame.1 <= budget || width == 0 || height == 0,
{
    if width * height > budget {
        let a = frame.0 as int;
        let b = frame.1 as int;
        assert(1 <= a <= budget);
        assert(budget / a >= 1 && a * (budget / a) <= budget && budget / a <= budget)
            by (nonlinear_arith)
            requires
                1 <= a <= budget,
        ;
        assert(b == budget / a);
    }
}

/// The cells fill the terminal but for less than one pixel each, and what the terminal left
/// out is not made up.
pub proof fn law_cells_fill_the_terminal(columns: u16, rows: u16, width: u16, height: u16)
    ensures
        cell_of(columns, rows, width, height) is None <==> columns == 0 || rows == 0 || width == 0
            || height == 0,
        cell_of(columns, rows, width, height) matches Some(cell) ==> {
            &&& cell.width_px * columns <= width < (cell.width_px + 1) * columns
            &&& cell.height_px * rows <= height < (cell.height_px + 1) * rows
        },
{
    if columns > 0 && rows > 0 && width > 0 && height > 0 {
        let a = width as int / columns as int;
        let b = height as int / rows as int;
        assert(a * columns <= width < (a + 1) * columns) by (nonlinear_arith)
            requires
                columns > 0,
                a == width as int / columns as int,
        ;
        assert(b * rows <= height < (b + 1) * rows) by (nonlinear_arith)
            requires
                rows > 0,
                b == height as int / rows as int,
        ;
    }
}

/// A picture within its budget keeps its size. A larger one is made smaller in proportion,
/// as little as the budget asks for: one more column of its shape would be too much.
pub proof fn law_picture_keeps_its_shape(width: int, height: int, budget: int, frame: (u32, u32))
    requires
        width >= 1,
        height >= 1,
        budget >= 1,
        is_frame(width, height, budget, frame),
    ensures
        width * height <= budget ==> frame.0 == width && frame.1 == height,
        width * height > budget ==> {
            &&& frame.0 > 1 ==> frame.0 * frame.0 * height <= budget * width
            &&& frame.0 < budget ==> (frame.0 + 1) * (frame.0 + 1) * height > budget * width
            &&& frame.0 * frame.1 <= budget
            &&& frame.0 * (frame.1 + 1) > budget
        },
{
    if width * height > budget {
        let k = choose|k: int| #[trigger]
            fills(k, width, height, budget) && frame.0 == kept_in(k, 1, budget) && frame.1
                == kept_in(budget / frame.0 as int, 1, budget);
        let a = frame.0 as int;
        let b = budget / a;
        assert(1 <= a <= budget);
        assert(1 <= b <= budget && a * b <= budget < a * (b + 1)) by (nonlinear_arith)
            requires
                1 <= a <= budget,
                b == budget / a,
        ;
        assert(frame.1 == b);
        if a > 1 && a < k {
            assert(a * a * height <= k * k * height) by (nonlinear_arith)
                requires
                    0 <= a <= k,
                    height >= 0,
            ;
        }
        if a < budget {
            assert(a >= k);
            assert((a + 1) * (a + 1) * height >= (k + 1) * (k + 1) * height) by (nonlinear_arith)
                requires
                    0 <= k <= a,
                    height >= 0,
            ;
        }
    }
}

/// The picture is drawn where it belongs: its cells and pixels are handed over, and its
/// place is counted from one.
pub proof fn law_picture_is_placed(geometry: Geometry)
    ensures
        kitty_settings(geometry).len() == 8,
        kitty_settings(geometry)[0] == ("cols"@, ArgView::Number(geometry.area.width as i64)),
        kitty_settings(geometry)[1] == ("rows"@, ArgView::Number(geometry.area.height as i64)),
        kitty_settings(geometry)[2] == ("width"@, ArgView::Number(geometry.frame_px.0 as i64)),
        kitty_settings(geometry)[3] == ("height"@, ArgView::Number(geometry.frame_px.1 as i64)),
        kitty_settings(geometry)[4] == ("left"@, ArgView::Number((geometry.area.x + 1) as i64)),
        kitty_settings(geometry)[5] == ("top"@, ArgView::Number((geometry.area.y + 1) as i64)),
        kitty_settings(geometry)[6] == ("alt-screen"@, ArgView::Flag(false)),
        kitty_settings(geometry)[7] == ("config-clear"@, ArgView::Flag(false)),
        tct_settings(geometry).len() == 2,
        tct_settings(geometry)[0] == ("width"@, ArgView::Number(geometry.area.width as i64)),
        tct_settings(geometry)[1] == ("height"@, ArgView::Number(geometry.area.height as i64)),
{
}

/// Each option is one argument, with its name before the equal sign and its value behind.
pub proof fn law_option_is_one_argument(
    prefix: Seq<char>,
    options: Seq<(Seq<char>, ArgView)>,
    i: int,
)
    requires
        0 <= i < options.len(),
    ensures
        option_args(prefix, options).len() == options.len(),
        option_args(prefix, options)[i] == prefix + options[i].0 + "="@ + plain_value(options[i].1),
        plain_value(ArgView::Flag(true)) == "yes"@,
        plain_value(ArgView::Flag(false)) == "no"@,
        options[i].1 matches ArgView::Number(n) ==> plain_value(options[i].1) == signed(n as int),
        options[i].1 matches ArgView::Text(text) ==> plain_value(options[i].1) == text,
{
}

/// A picture fills the area that it was made for.
pub proof fn law_picture_fills_its_area(area: Rect, cell: CellSize, max_pixels: int, g: Geometry)
    requires
        is_picture(area, cell, max_pixels, g),
    ensures
        g.area == area,
        g.cell == cell,
        area.width * cell.width_px >= 1 && area.height * cell.height_px >= 1 && (area.width
            * cell.width_px) * (area.height * cell.height_px) <= max_pixels ==> g.frame_px.0
            == area.width * cell.width_px && g.frame_px.1 == area.height * cell.height_px,
{
}

} // verus!
