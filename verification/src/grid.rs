//! Lays search results out on a grid. Integer arithmetic only; nothing here
//! touches the terminal.

use crate::rect::Rect;
use crate::text::{chars, same};
use crate::video::CellSize;
use vstd::prelude::*;
use vstd::string::*;

verus! {

/// The narrowest a column may be: the width divided by this bounds the columns.
pub const MIN_CELL_WIDTH: u16 = 16;

/// No more columns than this, however wide the terminal is.
pub const MAX_COLUMNS: usize = 6;

/// An image of fewer rows shows nothing that can be recognised.
pub const MIN_IMAGE_ROWS: u16 = 2;

/// The rows under an image: title, length and uploader, bottom margin.
pub const CELL_EXTRA_ROWS: u16 = 3;

/// The margin to the right of a cell.
pub const CELL_RIGHT_MARGIN: u16 = 1;

/// The aspect ratio of an image.
pub const ASPECT_W: u64 = 16;

pub const ASPECT_H: u64 = 9;

/// How search results are shown. A terminal that cannot draw images shows a list.
#[derive(Debug, Clone, Copy, PartialEq, Eq, Structural)]
pub enum LayoutMode {
    Grid,
    List,
}

impl Default for LayoutMode {
    fn default() -> (r: Self)
        ensures
            r == LayoutMode::Grid,
    {
        LayoutMode::Grid
    }
}

impl LayoutMode {
    /// The other of the two.
    pub open spec fn other(self) -> Self {
        match self {
            LayoutMode::Grid => LayoutMode::List,
            LayoutMode::List => LayoutMode::Grid,
        }
    }

    pub fn next(self) -> (r: Self)
        ensures
            r == self.other(),
    {
        match self {
            LayoutMode::Grid => LayoutMode::List,
            LayoutMode::List => LayoutMode::Grid,
        }
    }

    pub fn prev(self) -> (r: Self)
        ensures
            r == self.other(),
    {
        self.next()
    }

    /// The word that stands for the mode in the settings file.
    pub open spec fn word(self) -> Seq<char> {
        match self {
            LayoutMode::Grid => "grid"@,
            LayoutMode::List => "list"@,
        }
    }

    pub fn key(self) -> (r: &'static str)
        ensures
            r@ == self.word(),
    {
        match self {
            LayoutMode::Grid => "grid",
            LayoutMode::List => "list",
        }
    }

    pub fn from_key(key: &str) -> (r: Option<Self>)
        ensures
            r matches Some(mode) ==> key@ == mode.word(),
            r is None ==> forall|mode: LayoutMode| key@ != #[trigger] mode.word(),
    {
        if same(key, "grid") {
            Some(LayoutMode::Grid)
        } else if same(key, "list") {
            Some(LayoutMode::List)
        } else {
            None
        }
    }
}

/// No two modes share a word, so a mode is found again by its word.
pub proof fn law_layout_mode_words_differ(a: LayoutMode, b: LayoutMode)
    requires
        a.word() == b.word(),
    ensures
        a == b,
{
    reveal_strlit("grid");
    reveal_strlit("list");
    assert("grid"@[0] != "list"@[0]);
}

/// A direction in which the selection moves.
#[derive(Debug, Clone, Copy, PartialEq, Eq, Structural)]
pub enum Dir {
    Left,
    Right,
    Up,
    Down,
}

/// Where the parts of one result stand.
#[derive(Debug, Clone, Copy, PartialEq, Eq, Structural)]
pub struct CellRect {
    pub image: Rect,
    pub title: Rect,
    pub meta: Rect,
}

/// The visible part of the grid.
#[derive(Debug, PartialEq, Eq)]
pub struct Layout {
    pub columns: usize,
    pub rows: usize,
    pub offset: usize,
    /// The pixel size of an image.
    pub image_px: (u32, u32),
    /// The visible cells only: `cells[i]` belongs to result `offset + i`.
    pub cells: Vec<CellRect>,
}

pub open spec fn clamped(n: int, low: int, high: int) -> int {
    if n < low {
        low
    } else if n > high {
        high
    } else {
        n
    }
}

/// The number of columns of a grid that is `width` cells wide.
pub open spec fn columns_of(width: int) -> int {
    clamped(width / MIN_CELL_WIDTH as int, 1, MAX_COLUMNS as int)
}

/// The width of one column, right margin and all.
pub open spec fn column_width(width: int) -> int {
    width / columns_of(width)
}

/// The width of what a column shows.
pub open spec fn content_width(width: int) -> int {
    column_width(width) - CELL_RIGHT_MARGIN
}

pub open spec fn at_least_one(n: u16) -> int {
    if n == 0 {
        1
    } else {
        n as int
    }
}

/// The whole number of rows nearest to `width` cells of 16:9 picture, halves up.
pub open spec fn nearest_rows(width: int, cell: CellSize) -> int {
    let pixels = width * at_least_one(cell.width_px) * ASPECT_H;
    let row_pixels = ASPECT_W * at_least_one(cell.height_px);
    (pixels + row_pixels / 2) / row_pixels
}

/// The rows of an image that is `width` cells wide, within what a cell can hold.
pub open spec fn rows_of_image(width: int, cell: CellSize) -> int {
    clamped(nearest_rows(width, cell), MIN_IMAGE_ROWS as int, u16::MAX - CELL_EXTRA_ROWS)
}

/// The height of one row of the grid.
pub open spec fn row_height(width: int, cell: CellSize) -> int {
    rows_of_image(content_width(width), cell) + CELL_EXTRA_ROWS
}

/// The number of whole rows of the grid that fit.
pub open spec fn rows_of(inner: Rect, cell: CellSize) -> int {
    inner.height as int / row_height(inner.width as int, cell)
}

/// A grid of at least one cell fits into `inner`.
pub open spec fn grid_fits(inner: Rect, cell: CellSize) -> bool {
    &&& inner.width > 0
    &&& inner.height > 0
    &&& content_width(inner.width as int) > 0
    &&& rows_of(inner, cell) > 0
}

/// The parts of the cell that is `i` places after the first visible one.
pub open spec fn cell_at(inner: Rect, cell: CellSize, i: int) -> CellRect {
    let columns = columns_of(inner.width as int);
    let width = content_width(inner.width as int);
    let rows = rows_of_image(width, cell);
    let x = inner.x + (i % columns) * column_width(inner.width as int);
    let y = inner.y + (i / columns) * row_height(inner.width as int, cell);
    CellRect {
        image: Rect { x: x as u16, y: y as u16, width: width as u16, height: rows as u16 },
        title: Rect { x: x as u16, y: (y + rows) as u16, width: width as u16, height: 1 },
        meta: Rect { x: x as u16, y: (y + rows + 1) as u16, width: width as u16, height: 1 },
    }
}

/// The place of the first visible result: the start of the row that `scroll` is in.
pub open spec fn row_start(scroll: int, columns: int) -> int {
    scroll / columns * columns
}

/// The number of results from `offset` on that are visible.
pub open spec fn visible_count(inner: Rect, cell: CellSize, count: int, offset: int) -> int {
    clamped(count - offset, 0, rows_of(inner, cell) * columns_of(inner.width as int))
}

/// The `i`th cell of a grid stands within the grid's columns and rows.
proof fn lemma_cell_place(inner: Rect, cell: CellSize, i: int)
    requires
        inner.wf(),
        grid_fits(inner, cell),
        0 <= i < rows_of(inner, cell) * columns_of(inner.width as int),
    ensures
        0 <= i / columns_of(inner.width as int) < rows_of(inner, cell),
        0 <= (i % columns_of(inner.width as int)) * column_width(inner.width as int),
        (i % columns_of(inner.width as int)) * column_width(inner.width as int) + column_width(
            inner.width as int,
        ) <= inner.width,
        0 <= (i / columns_of(inner.width as int)) * row_height(inner.width as int, cell),
        (i / columns_of(inner.width as int)) * row_height(inner.width as int, cell) + row_height(
            inner.width as int,
            cell,
        ) <= inner.height,
{
    let columns = columns_of(inner.width as int);
    let w = column_width(inner.width as int);
    let h = row_height(inner.width as int, cell);
    let rows = rows_of(inner, cell);
    let row = i / columns;
    let column = i % columns;
    let width = inner.width as int;
    let height = inner.height as int;
    assert(0 <= row < rows) by (nonlinear_arith)
        requires
            row == i / columns,
            columns > 0,
            0 <= i < rows * columns,
    ;
    assert(0 <= column * w && column * w + w <= width) by (nonlinear_arith)
        requires
            0 <= column < columns,
            columns > 0,
            width >= 0,
            w == width / columns,
    ;
    assert(0 <= row * h && row * h + h <= height) by (nonlinear_arith)
        requires
            0 <= row < rows,
            h > 0,
            height >= 0,
            rows == height / h,
    ;
}

/// `r` is how so many results are laid out from the row of `scroll` on; `None` where
/// `inner` is too small for a grid.
pub open spec fn is_layout(
    inner: Rect,
    cell: CellSize,
    count: usize,
    scroll: usize,
    r: Option<Layout>,
) -> bool {
    match r {
        Some(l) => {
            &&& grid_fits(inner, cell)
            &&& l.columns == columns_of(inner.width as int)
            &&& l.rows == rows_of(inner, cell)
            &&& l.offset == row_start(scroll as int, l.columns as int)
            &&& l.image_px.0 == content_width(inner.width as int) * cell.width_px
            &&& l.image_px.1 == rows_of_image(content_width(inner.width as int), cell)
                * cell.height_px
            &&& l.cells@.len() == visible_count(inner, cell, count as int, l.offset as int)
            &&& forall|i: int|
                0 <= i < l.cells@.len() ==> #[trigger] l.cells@[i] == cell_at(inner, cell, i)
        },
        None => !grid_fits(inner, cell),
    }
}

/// Lays out the results from the row of `scroll` on. `None` where `inner` is too
/// small for a grid: the caller shows a list instead.
pub fn layout(inner: Rect, cell: CellSize, count: usize, scroll: usize) -> (r: Option<Layout>)
    requires
        inner.wf(),
    ensures
        is_layout(inner, cell, count, scroll, r),
{
    if inner.width == 0 || inner.height == 0 {
        return None;
    }
    let fitting: usize = (inner.width / MIN_CELL_WIDTH) as usize;
    let columns: usize = if fitting < 1 {
        1
    } else if fitting > MAX_COLUMNS {
        MAX_COLUMNS
    } else {
        fitting
    };
    let cell_width: u16 = inner.width / columns as u16;
    if cell_width <= CELL_RIGHT_MARGIN {
        return None;
    }
    let content: u16 = cell_width - CELL_RIGHT_MARGIN;
    let image_rows: u16 = image_rows(content, cell);
    let cell_height: u16 = image_rows + CELL_EXTRA_ROWS;
    let rows: usize = (inner.height / cell_height) as usize;
    if rows == 0 {
        return None;
    }
    proof {
        assert(scroll as int / columns as int * columns as int <= scroll) by (nonlinear_arith)
            requires
                columns > 0,
        ;
        assert(0 <= rows * columns <= 0xffff * 6) by (nonlinear_arith)
            requires
                0 <= rows <= 0xffff,
                0 <= columns <= 6,
        ;
        assert(0 <= content * cell.width_px <= 0xffff * 0xffff) by (nonlinear_arith)
            requires
                0 <= content <= 0xffff,
                0 <= cell.width_px <= 0xffff,
        ;
        assert(0 <= image_rows * cell.height_px <= 0xffff * 0xffff) by (nonlinear_arith)
            requires
                0 <= image_rows <= 0xffff,
                0 <= cell.height_px <= 0xffff,
        ;
    }
    let offset: usize = scroll / columns * columns;
    let page: usize = rows * columns;
    let left: usize = count.saturating_sub(offset);
    let shown: usize = if left < page {
        left
    } else {
        page
    };
    let mut cells: Vec<CellRect> = Vec::new();
    for i in 0..shown
        invariant
            inner.wf(),
            grid_fits(inner, cell),
            columns == columns_of(inner.width as int),
            cell_width == column_width(inner.width as int),
            content == content_width(inner.width as int),
            image_rows == rows_of_image(content as int, cell),
            cell_height == row_height(inner.width as int, cell),
            shown <= rows_of(inner, cell) * columns,
            cells@.len() == i,
            forall|j: int| 0 <= j < i ==> #[trigger] cells@[j] == cell_at(inner, cell, j),
    {
        proof {
            lemma_cell_place(inner, cell, i as int);
        }
        let row: u16 = (i / columns) as u16;
        let column: u16 = (i % columns) as u16;
        let x: u16 = inner.x + column * cell_width;
        let y: u16 = inner.y + row * cell_height;
        cells.push(
            CellRect {
                image: Rect::new(x, y, content, image_rows),
                title: Rect::new(x, y + image_rows, content, 1),
                meta: Rect::new(x, y + image_rows + 1, content, 1),
            },
        );
    }
    Some(
        Layout {
            columns,
            rows,
            offset,
            image_px: (
                content as u32 * cell.width_px as u32,
                image_rows as u32 * cell.height_px as u32,
            ),
            cells,
        },
    )
}

/// The rows of an image `content_width` cells wide that come nearest to 16:9,
/// kept small enough that the rows under the image can be added to them.
pub fn image_rows(content_width: u16, cell: CellSize) -> (r: u16)
    ensures
        r == rows_of_image(content_width as int, cell),
{
    let width_px: u64 = if cell.width_px == 0 {
        1
    } else {
        cell.width_px as u64
    };
    let height_px: u64 = if cell.height_px == 0 {
        1
    } else {
        cell.height_px as u64
    };
    proof {
        assert(0 <= content_width * width_px <= 0xffff * 0xffff) by (nonlinear_arith)
            requires
                0 <= content_width <= 0xffff,
                0 <= width_px <= 0xffff,
        ;
    }
    let numerator: u64 = content_width as u64 * width_px * ASPECT_H;
    let denominator: u64 = ASPECT_W * height_px;
    let rounded: u64 = (numerator + denominator / 2) / denominator;
    let high: u16 = u16::MAX - CELL_EXTRA_ROWS;
    if rounded < MIN_IMAGE_ROWS as u64 {
        MIN_IMAGE_ROWS
    } else if rounded > high as u64 {
        high
    } else {
        rounded as u16
    }
}

/// The selection after a step in the grid. It never wraps around: a step past an
/// end stays at that end, and a step up out of the grid does not move.
pub open spec fn moved(selected: int, count: int, columns: int, dir: Dir) -> int {
    let last = count - 1;
    if count == 0 || columns == 0 {
        selected
    } else {
        match dir {
            Dir::Right => if selected + 1 < last {
                selected + 1
            } else {
                last
            },
            Dir::Left => if selected > 0 {
                selected - 1
            } else {
                0
            },
            Dir::Down => if selected + columns < last {
                selected + columns
            } else {
                last
            },
            Dir::Up => if selected >= columns {
                selected - columns
            } else {
                selected
            },
        }
    }
}

pub fn move_selection(selected: usize, count: usize, columns: usize, dir: Dir) -> (r: usize)
    ensures
        r == moved(selected as int, count as int, columns as int, dir),
{
    if count == 0 || columns == 0 {
        return selected;
    }
    let last: usize = count - 1;
    match dir {
        Dir::Right => {
            let next: usize = selected.saturating_add(1);
            if next < last {
                next
            } else {
                last
            }
        },
        Dir::Left => selected.saturating_sub(1),
        Dir::Down => {
            let next: usize = selected.saturating_add(columns);
            if next < last {
                next
            } else {
                last
            }
        },
        Dir::Up => if selected >= columns {
            selected - columns
        } else {
            selected
        },
    }
}

/// The first visible place after the selection moved: unchanged but for rounding
/// to a row while the selected row is visible, else just far enough to show it.
pub open spec fn scrolled(selected: int, columns: int, rows: int, scroll: int) -> int {
    let row = selected / columns;
    let first = scroll / columns;
    if columns == 0 || rows == 0 {
        scroll
    } else if row < first {
        row * columns
    } else if row >= first + rows {
        (row + 1 - rows) * columns
    } else {
        first * columns
    }
}

pub fn ensure_visible(selected: usize, columns: usize, rows: usize, scroll: usize) -> (r: usize)
    ensures
        r == scrolled(selected as int, columns as int, rows as int, scroll as int),
{
    if columns == 0 || rows == 0 {
        return scroll;
    }
    let row: usize = selected / columns;
    let first: usize = scroll / columns;
    proof {
        lemma_row_start(selected as int, columns as int);
        lemma_row_start(scroll as int, columns as int);
    }
    if row < first {
        return row * columns;
    }
    if row - first >= rows {
        let top: usize = row - (rows - 1);
        proof {
            assert(top * columns <= row * columns) by (nonlinear_arith)
                requires
                    top <= row,
                    columns >= 0,
            ;
        }
        return top * columns;
    }
    first * columns
}

/// A place lies in the row that starts at its row's start.
proof fn lemma_row_start(place: int, columns: int)
    requires
        columns > 0,
        place >= 0,
    ensures
        0 <= row_start(place, columns) <= place < row_start(place, columns) + columns,
        place / columns >= 0,
{
    assert(0 <= place / columns * columns <= place < place / columns * columns + columns)
        by (nonlinear_arith)
        requires
            columns > 0,
            place >= 0,
    ;
}

/// Wherever the list was scrolled to, the selected result is visible afterwards:
/// it lies on the page of `rows` rows that starts at the returned place, which is
/// the start of a row.
pub proof fn law_selection_is_visible(selected: int, columns: int, rows: int, scroll: int)
    requires
        selected >= 0,
        scroll >= 0,
        columns > 0,
        rows > 0,
    ensures
        scrolled(selected, columns, rows, scroll) >= 0,
        scrolled(selected, columns, rows, scroll) % columns == 0,
        scrolled(selected, columns, rows, scroll) <= selected,
        selected < scrolled(selected, columns, rows, scroll) + rows * columns,
{
    lemma_row_start(selected, columns);
    lemma_row_start(scroll, columns);
    let row = selected / columns;
    let first = scroll / columns;
    let top = if row < first {
        row
    } else if row >= first + rows {
        row + 1 - rows
    } else {
        first
    };
    assert(scrolled(selected, columns, rows, scroll) == top * columns);
    assert(top * columns % columns == 0 && top * columns >= 0) by (nonlinear_arith)
        requires
            columns > 0,
            top >= 0,
    ;
    assert(top * columns <= row * columns && row * columns + columns <= top * columns + rows
        * columns) by (nonlinear_arith)
        requires
            columns > 0,
            top <= row < top + rows,
    ;
}

/// Scrolling that has made the selection visible leaves the place as it is.
pub proof fn law_scrolling_settles(selected: int, columns: int, rows: int, scroll: int)
    requires
        selected >= 0,
        scroll >= 0,
        columns > 0,
        rows > 0,
    ensures
        scrolled(selected, columns, rows, scrolled(selected, columns, rows, scroll)) == scrolled(
            selected,
            columns,
            rows,
            scroll,
        ),
{
    lemma_row_start(selected, columns);
    lemma_row_start(scroll, columns);
    let row = selected / columns;
    let first = scroll / columns;
    let top = if row < first {
        row
    } else if row >= first + rows {
        row + 1 - rows
    } else {
        first
    };
    assert(top * columns / columns == top) by (nonlinear_arith)
        requires
            columns > 0,
    ;
}

/// A step in the grid keeps the selection among the results.
pub proof fn law_moves_stay_among_the_results(selected: int, count: int, columns: int, dir: Dir)
    requires
        0 <= selected < count,
        columns >= 0,
    ensures
        0 <= moved(selected, count, columns, dir) < count,
{
}

/// The parts of every visible cell lie inside the area that was laid out.
pub proof fn law_cells_stay_inside(inner: Rect, cell: CellSize, i: int)
    requires
        inner.wf(),
        grid_fits(inner, cell),
        0 <= i < rows_of(inner, cell) * columns_of(inner.width as int),
    ensures
        cell_at(inner, cell, i).image.inside(inner),
        cell_at(inner, cell, i).title.inside(inner),
        cell_at(inner, cell, i).meta.inside(inner),
{
    lemma_cell_place(inner, cell, i);
}

/// A cell of the terminal belongs to the result cell.
pub open spec fn cell_covers(cell: CellRect, x: int, y: int) -> bool {
    cell.image.covers(x, y) || cell.title.covers(x, y) || cell.meta.covers(x, y)
}

/// No terminal cell belongs to two parts of a result, nor to two results.
pub proof fn law_cells_never_overlap(inner: Rect, cell: CellSize, i: int, j: int, x: int, y: int)
    requires
        inner.wf(),
        grid_fits(inner, cell),
        0 <= i < rows_of(inner, cell) * columns_of(inner.width as int),
        0 <= j < rows_of(inner, cell) * columns_of(inner.width as int),
        cell_covers(cell_at(inner, cell, i), x, y),
        cell_covers(cell_at(inner, cell, j), x, y),
    ensures
        i == j,
        !(cell_at(inner, cell, i).image.covers(x, y) && cell_at(inner, cell, i).title.covers(x, y)),
        !(cell_at(inner, cell, i).image.covers(x, y) && cell_at(inner, cell, i).meta.covers(x, y)),
        !(cell_at(inner, cell, i).title.covers(x, y) && cell_at(inner, cell, i).meta.covers(x, y)),
{
    lemma_cell_place(inner, cell, i);
    lemma_cell_place(inner, cell, j);
    let columns = columns_of(inner.width as int);
    let w = column_width(inner.width as int);
    let h = row_height(inner.width as int, cell);
    let (ri, rj) = (i / columns, j / columns);
    let (ci, cj) = (i % columns, j % columns);
    assert(ci == cj) by (nonlinear_arith)
        requires
            inner.x + ci * w <= x < inner.x + ci * w + w,
            inner.x + cj * w <= x < inner.x + cj * w + w,
            w > 0,
    ;
    assert(ri == rj) by (nonlinear_arith)
        requires
            inner.y + ri * h <= y < inner.y + ri * h + h,
            inner.y + rj * h <= y < inner.y + rj * h + h,
            h > 0,
    ;
    assert(i == columns * ri + ci) by (nonlinear_arith)
        requires
            columns > 0,
            ri == i / columns,
            ci == i % columns,
    ;
    assert(j == columns * rj + cj) by (nonlinear_arith)
        requires
            columns > 0,
            rj == j / columns,
            cj == j % columns,
    ;
}

/// The number of columns that `Span::width` of the terminal library counts for a text.
pub uninterp spec fn text_width(text: Seq<char>) -> usize;

/// `ratatui::text::Span::width` of the text as a span: how many columns it takes
/// on the screen. The counting of the terminal library is not restated here.
#[verifier::external_body]
pub fn display_width(text: &str) -> (r: usize)
    ensures
        r == text_width(text@),
{
    ratatui::text::Span::raw(text).width()
}

/// The columns of each character of a text, counted by itself.
pub open spec fn char_widths(text: Seq<char>) -> Seq<usize> {
    Seq::new(text.len(), |i: int| text_width(seq![text[i]]))
}

/// The sum of the first `n` widths.
pub open spec fn width_sum(widths: Seq<usize>, n: int) -> int
    decreases n,
{
    if n <= 0 {
        0
    } else {
        width_sum(widths, n - 1) + widths[n - 1]
    }
}

/// `n` characters fit into `budget` columns, and one more would not.
pub open spec fn cut_at(widths: Seq<usize>, budget: int, n: int) -> bool {
    &&& 0 <= n <= widths.len()
    &&& width_sum(widths, n) <= budget
    &&& n < widths.len() ==> width_sum(widths, n + 1) > budget
}

/// `out` is `text` where its `total` columns fit into `width`; else the characters
/// that fit beside an ellipsis, and the ellipsis.
pub open spec fn is_truncated(
    text: Seq<char>,
    total: usize,
    widths: Seq<usize>,
    width: int,
    out: Seq<char>,
) -> bool {
    if total <= width {
        out == text
    } else if width == 0 {
        out.len() == 0
    } else {
        exists|n: int| #[trigger]
            cut_at(widths, width - 1, n) && out == text.take(n).push('…')
    }
}

/// Shortens a text to `width` columns of the screen, whatever the screen makes of
/// its characters: `total` is what it takes as a whole, `widths` what each takes.
pub fn truncate_measured(text: &str, total: usize, widths: &Vec<usize>, width: usize) -> (r: String)
    requires
        widths@.len() == text@.len(),
    ensures
        is_truncated(text@, total, widths@, width as int, r@),
{
    if total <= width {
        return text.to_owned();
    }
    if width == 0 {
        return String::new();
    }
    let budget: usize = width - 1;
    let all = chars(text);
    let mut out = String::new();
    let mut used: usize = 0;
    let mut n: usize = 0;
    while n < all.len()
        invariant
            all@ == text@,
            widths@.len() == text@.len(),
            n <= all@.len(),
            out@ == text@.take(n as int),
            used == width_sum(widths@, n as int),
            used <= budget,
        ensures
            cut_at(widths@, budget as int, n as int),
        decreases all.len() - n,
    {
        if widths[n] > budget - used {
            break;
        }
        out.push(all[n]);
        used = used + widths[n];
        n = n + 1;
        assert(out@ =~= text@.take(n as int));
    }
    out.push('…');
    out
}

/// Shortens a text to `width` columns of the screen.
pub fn truncate(text: &str, width: usize) -> (r: String)
    ensures
        is_truncated(text@, text_width(text@), char_widths(text@), width as int, r@),
{
    let all = chars(text);
    let mut widths: Vec<usize> = Vec::new();
    for i in 0..all.len()
        invariant
            all@ == text@,
            widths@ == char_widths(text@).take(i as int),
    {
        let mut one = String::new();
        one.push(all[i]);
        assert(one@ =~= seq![text@[i as int]]);
        widths.push(display_width(one.as_str()));
        assert(widths@ =~= char_widths(text@).take(i + 1));
    }
    assert(char_widths(text@).take(all@.len() as int) =~= char_widths(text@));
    truncate_measured(text, display_width(text), &widths, width)
}

/// The place where a text is cut is unique, so the shortened text is too.
pub proof fn law_truncation_is_unique(
    text: Seq<char>,
    total: usize,
    widths: Seq<usize>,
    width: int,
    a: Seq<char>,
    b: Seq<char>,
)
    requires
        width >= 0,
        is_truncated(text, total, widths, width, a),
        is_truncated(text, total, widths, width, b),
    ensures
        a == b,
{
    if total > width && width > 0 {
        let n = choose|n: int| #[trigger]
            cut_at(widths, width - 1, n) && a == text.take(n).push('…');
        let m = choose|m: int| #[trigger]
            cut_at(widths, width - 1, m) && b == text.take(m).push('…');
        if n < m {
            lemma_width_sum_grows(widths, n + 1, m);
        }
        if m < n {
            lemma_width_sum_grows(widths, m + 1, n);
        }
    }
}

proof fn lemma_width_sum_grows(widths: Seq<usize>, n: int, m: int)
    requires
        0 <= n <= m,
    ensures
        width_sum(widths, n) <= width_sum(widths, m),
    decreases m,
{
    if n < m {
        lemma_width_sum_grows(widths, n, m - 1);
    }
}

/// A step up moves by exactly one row, and out of the first row it does not move.
pub proof fn law_step_up_is_one_row(selected: int, count: int, columns: int)
    requires
        0 <= selected < count,
        columns > 0,
    ensures
        columns <= selected ==> moved(selected, count, columns, Dir::Up) + columns == selected,
        selected < columns ==> moved(selected, count, columns, Dir::Up) == selected,
{
}

/// A step down moves by exactly one row. Where nothing is there it goes to the last
/// result, and where something is a step up undoes it.
pub proof fn law_step_down_is_one_row(selected: int, count: int, columns: int)
    requires
        0 <= selected < count,
        columns > 0,
    ensures
        selected + columns < count ==> moved(selected, count, columns, Dir::Down) - columns
            == selected,
        selected + columns >= count ==> moved(selected, count, columns, Dir::Down) + 1 == count,
        selected + columns < count ==> moved(
            moved(selected, count, columns, Dir::Down),
            count,
            columns,
            Dir::Up,
        ) == selected,
        columns <= selected ==> moved(
            moved(selected, count, columns, Dir::Up),
            count,
            columns,
            Dir::Down,
        ) == selected,
{
}

/// A step to a side moves by one result and stops at the ends; the other side undoes it.
pub proof fn law_side_steps_are_one_result(selected: int, count: int, columns: int)
    requires
        0 <= selected < count,
        columns > 0,
    ensures
        selected + 1 < count ==> moved(selected, count, columns, Dir::Right) - 1 == selected,
        selected + 1 == count ==> moved(selected, count, columns, Dir::Right) == selected,
        selected > 0 ==> moved(selected, count, columns, Dir::Left) + 1 == selected,
        selected == 0 ==> moved(selected, count, columns, Dir::Left) == selected,
        selected + 1 < count ==> moved(
            moved(selected, count, columns, Dir::Right),
            count,
            columns,
            Dir::Left,
        ) == selected,
        selected > 0 ==> moved(
            moved(selected, count, columns, Dir::Left),
            count,
            columns,
            Dir::Right,
        ) == selected,
{
}

/// Without results or columns nothing moves.
pub proof fn law_nothing_to_move_to(selected: int, count: int, columns: int, dir: Dir)
    requires
        count == 0 || columns == 0,
    ensures
        moved(selected, count, columns, dir) == selected,
{
}

/// Scrolling goes no further than it has to: a selection that is on the page leaves the
/// page, one above it becomes its first row, and one below it its last.
pub proof fn law_scrolling_is_least(selected: int, columns: int, rows: int, scroll: int)
    requires
        selected >= 0,
        scroll >= 0,
        columns > 0,
        rows > 0,
        scroll % columns == 0,
    ensures
        scroll <= selected < scroll + rows * columns ==> scrolled(selected, columns, rows, scroll)
            == scroll,
        selected < scroll ==> scrolled(selected, columns, rows, scroll) <= selected < scrolled(
            selected,
            columns,
            rows,
            scroll,
        ) + columns,
        selected >= scroll + rows * columns ==> scrolled(selected, columns, rows, scroll) + (rows
            - 1) * columns <= selected < scrolled(selected, columns, rows, scroll) + rows * columns,
{
    lemma_row_start(selected, columns);
    let row = selected / columns;
    let first = scroll / columns;
    assert(first * columns == scroll) by (nonlinear_arith)
        requires
            columns > 0,
            scroll % columns == 0,
            first == scroll / columns,
    ;
    assert(scroll <= selected < scroll + rows * columns ==> first <= row < first + rows)
        by (nonlinear_arith)
        requires
            columns > 0,
            rows > 0,
            first * columns == scroll,
            row * columns <= selected < row * columns + columns,
    ;
    assert(selected < scroll ==> row < first) by (nonlinear_arith)
        requires
            columns > 0,
            first * columns == scroll,
            row * columns <= selected < row * columns + columns,
    ;
    assert(selected >= scroll + rows * columns ==> row >= first + rows) by (nonlinear_arith)
        requires
            columns > 0,
            rows > 0,
            first * columns == scroll,
            row * columns <= selected < row * columns + columns,
    ;
    assert((row + 1 - rows) * columns + (rows - 1) * columns == row * columns) by (nonlinear_arith);
    assert((row + 1 - rows) * columns + rows * columns == row * columns + columns)
        by (nonlinear_arith);
}

/// There are as many columns as fit at sixteen cells each, at least one and at most six.
pub proof fn law_columns_are_wide_enough(width: int)
    requires
        width >= 0,
    ensures
        1 <= columns_of(width) <= 6,
        columns_of(width) > 1 ==> columns_of(width) * 16 <= width,
        columns_of(width) < 6 ==> width < (columns_of(width) + 1) * 16,
        columns_of(width) * column_width(width) <= width,
        width < columns_of(width) * (column_width(width) + 1),
        content_width(width) + 1 == column_width(width),
{
    let columns = columns_of(width);
    let w = column_width(width);
    assert(columns * w <= width < columns * (w + 1)) by (nonlinear_arith)
        requires
            columns > 0,
            width >= 0,
            w == width / columns,
    ;
}

/// An image has the rows that come nearest to sixteen by nine, and at least two.
pub proof fn law_images_are_sixteen_by_nine(width: int, cell: CellSize)
    requires
        width >= 0,
        cell.width_px > 0,
        cell.height_px > 0,
    ensures
        2 <= rows_of_image(width, cell) <= 65_532,
        rows_of_image(width, cell) < 65_532 ==> 2 * 9 * width * cell.width_px < 16 * (2
            * rows_of_image(width, cell) + 1) * cell.height_px,
        rows_of_image(width, cell) > 2 ==> 16 * (2 * rows_of_image(width, cell) - 1)
            * cell.height_px <= 2 * 9 * width * cell.width_px,
{
    let w = cell.width_px as int;
    let h = cell.height_px as int;
    let pixels = width * w * 9;
    let d = 16 * h;
    let near = (pixels + d / 2) / d;
    assert(0 <= pixels) by (nonlinear_arith)
        requires
            width >= 0,
            w > 0,
            pixels == width * w * 9,
    ;
    assert(d / 2 == 8 * h);
    assert(near * d <= pixels + 8 * h < near * d + d) by (nonlinear_arith)
        requires
            d > 0,
            near == (pixels + 8 * h) / d,
    ;
    let rows = rows_of_image(width, cell);
    assert(rows * d <= near * d || rows == 2) by (nonlinear_arith)
        requires
            d > 0,
            rows <= near || rows == 2,
    ;
    assert(near * d <= rows * d || rows == 65_532) by (nonlinear_arith)
        requires
            d > 0,
            near <= rows || rows == 65_532,
    ;
    assert(16 * (2 * rows + 1) * h == 2 * (rows * d) + d) by (nonlinear_arith)
        requires
            d == 16 * h,
    ;
    assert(16 * (2 * rows - 1) * h == 2 * (rows * d) - d) by (nonlinear_arith)
        requires
            d == 16 * h,
    ;
    assert(2 * 9 * width * w == 2 * pixels) by (nonlinear_arith)
        requires
            pixels == width * w * 9,
    ;
}

/// The rows of the grid fill the height but for less than one more row, and each has
/// three lines under its images.
pub proof fn law_rows_fill_the_height(inner: Rect, cell: CellSize)
    requires
        inner.width >= 2,
    ensures
        rows_of(inner, cell) * (rows_of_image(content_width(inner.width as int), cell) + 3)
            <= inner.height,
        inner.height < (rows_of(inner, cell) + 1) * (rows_of_image(
            content_width(inner.width as int),
            cell,
        ) + 3),
        grid_fits(inner, cell) <==> inner.height >= rows_of_image(
            content_width(inner.width as int),
            cell,
        ) + 3,
{
    law_columns_are_wide_enough(inner.width as int);
    let width = inner.width as int;
    let w = column_width(width);
    let columns = columns_of(width);
    assert(w >= 2) by (nonlinear_arith)
        requires
            columns > 0,
            width >= 2,
            columns > 1 ==> columns * 16 <= width,
            w == width / columns,
    ;
    let h = row_height(width, cell);
    let rows = rows_of(inner, cell);
    let height = inner.height as int;
    assert(rows * h <= height < (rows + 1) * h && (rows > 0 <==> height >= h)) by (nonlinear_arith)
        requires
            h > 0,
            height >= 0,
            rows == height / h,
    ;
}

/// Too narrow an area has no grid.
pub proof fn law_no_grid_in_one_column(inner: Rect, cell: CellSize)
    requires
        inner.width <= 1 || inner.height == 0,
    ensures
        !grid_fits(inner, cell),
{
    if inner.width == 1 {
        assert(columns_of(1) == 1);
        assert(1int / 1int == 1);
    }
}

/// The first cell stands at the top left, the next in a row one column to the right, and
/// one row later straight below; title and facts lie under the image.
pub proof fn law_cells_stand_in_rows(inner: Rect, cell: CellSize, i: int)
    requires
        inner.wf(),
        grid_fits(inner, cell),
        0 <= i < rows_of(inner, cell) * columns_of(inner.width as int),
    ensures
        ({
            let columns = columns_of(inner.width as int);
            let here = cell_at(inner, cell, i);
            &&& i == 0 ==> here.image.x == inner.x && here.image.y == inner.y
            &&& (i + 1) % columns != 0 && i + 1 < rows_of(inner, cell) * columns ==> {
                let next = cell_at(inner, cell, i + 1);
                &&& next.image.x == here.image.x + here.image.width + 1
                &&& next.image.y == here.image.y
            }
            &&& i + columns < rows_of(inner, cell) * columns ==> {
                let below = cell_at(inner, cell, i + columns);
                &&& below.image.x == here.image.x
                &&& below.image.y == here.image.y + here.image.height + 3
            }
            &&& here.image.width == content_width(inner.width as int)
            &&& here.image.height == rows_of_image(here.image.width as int, cell)
            &&& here.title == (Rect {
                y: (here.image.y + here.image.height) as u16,
                height: 1,
                ..here.image
            })
            &&& here.meta == (Rect {
                y: (here.image.y + here.image.height + 1) as u16,
                height: 1,
                ..here.image
            })
        }),
{
    let columns = columns_of(inner.width as int);
    let w = column_width(inner.width as int);
    let h = row_height(inner.width as int, cell);
    lemma_cell_place(inner, cell, i);
    if i == 0 {
        assert(0int % columns == 0 && 0int / columns == 0) by (nonlinear_arith)
            requires
                columns > 0,
        ;
    }
    if (i + 1) % columns != 0 && i + 1 < rows_of(inner, cell) * columns {
        lemma_cell_place(inner, cell, i + 1);
        assert((i + 1) % columns == i % columns + 1 && (i + 1) / columns == i / columns)
            by (nonlinear_arith)
            requires
                columns > 0,
                (i + 1) % columns != 0,
        ;
        assert((i % columns + 1) * w == (i % columns) * w + w) by (nonlinear_arith);
    }
    if i + columns < rows_of(inner, cell) * columns {
        lemma_cell_place(inner, cell, i + columns);
        assert((i + columns) % columns == i % columns && (i + columns) / columns == i / columns + 1)
            by (nonlinear_arith)
            requires
                columns > 0,
        ;
        assert((i / columns + 1) * h == (i / columns) * h + h) by (nonlinear_arith);
    }
}

/// What is laid out begins with the row that the list is scrolled to, and as many
/// results are shown as are left or as fit.
pub proof fn law_layout_shows_one_page(
    inner: Rect,
    cell: CellSize,
    count: usize,
    scroll: usize,
    l: Layout,
)
    requires
        inner.wf(),
        is_layout(inner, cell, count, scroll, Some(l)),
    ensures
        l.columns > 0,
        l.rows > 0,
        l.offset % l.columns == 0,
        l.offset <= scroll < l.offset + l.columns,
        l.cells@.len() <= l.rows * l.columns,
        l.offset <= count ==> l.cells@.len() <= count - l.offset,
        l.offset >= count ==> l.cells@.len() == 0,
        l.cells@.len() < l.rows * l.columns && l.offset <= count ==> l.cells@.len() == count
            - l.offset,
        l.cells@.len() > 0 ==> l.image_px.0 == l.cells@[0].image.width * cell.width_px
            && l.image_px.1 == l.cells@[0].image.height * cell.height_px,
        l.cells@.len() > 0 ==> l.cells@[0].image.x == inner.x && l.cells@[0].image.y == inner.y,
{
    let columns = l.columns as int;
    lemma_row_start(scroll as int, columns);
    assert(scroll as int / columns * columns % columns == 0) by (nonlinear_arith)
        requires
            columns > 0,
            scroll >= 0,
    ;
    if l.cells@.len() > 0 {
        lemma_cell_place(inner, cell, 0);
        law_cells_stand_in_rows(inner, cell, 0);
        assert(l.cells@[0] == cell_at(inner, cell, 0));
    }
    assert(0 <= l.rows * l.columns) by (nonlinear_arith)
        requires
            l.rows >= 0,
            l.columns >= 0,
    ;
}

/// A text that fits stays as it is. One that does not keeps its first characters, as many
/// as leave one column, and the ellipsis takes that; one character more would not fit.
pub proof fn law_cut_texts_end_in_an_ellipsis(
    text: Seq<char>,
    total: usize,
    widths: Seq<usize>,
    width: int,
    out: Seq<char>,
)
    requires
        widths.len() == text.len(),
        width >= 0,
        is_truncated(text, total, widths, width, out),
    ensures
        total <= width ==> out == text,
        total > width && width == 0 ==> out.len() == 0,
        total > width && width > 0 ==> {
            let kept = out.len() - 1;
            &&& kept >= 0
            &&& kept <= text.len()
            &&& out.last() == '…'
            &&& forall|i: int| 0 <= i < kept ==> #[trigger] out[i] == text[i]
            &&& width_sum(widths, kept) + 1 <= width
            &&& kept < text.len() ==> width_sum(widths, kept) + widths[kept] + 1 > width
        },
{
    if total > width && width > 0 {
        let n = choose|n: int| #[trigger]
            cut_at(widths, width - 1, n) && out == text.take(n).push('…');
        assert(out.len() - 1 == n);
    }
}

/// The columns of no characters are none, and each character adds its own.
pub proof fn law_widths_add_up(widths: Seq<usize>, n: int)
    requires
        0 <= n < widths.len(),
    ensures
        width_sum(widths, 0) == 0,
        width_sum(widths, n + 1) - width_sum(widths, n) == widths[n],
{
}

/// There are two ways to show a list: the other one is another, and its other is the
/// first again.
pub proof fn law_layout_modes_alternate(mode: LayoutMode)
    ensures
        mode.other() != mode,
        mode.other().other() == mode,
{
}

/// The words of the settings file.
pub proof fn law_layout_mode_words()
    ensures
        LayoutMode::Grid.word() == seq!['g', 'r', 'i', 'd'],
        LayoutMode::List.word() == seq!['l', 'i', 's', 't'],
{
    reveal_strlit("grid");
    reveal_strlit("list");
    assert("grid"@ =~= seq!['g', 'r', 'i', 'd']);
    assert("list"@ =~= seq!['l', 'i', 's', 't']);
}

} // verus!
