//! Small marks on the corner of a thumbnail: live, shorts, liked, subscribed. The
//! thumbnail itself is left alone; the marks are drawn over it.

use crate::engagement::EngagementCache;
use crate::rgb::{encode_image, image_bytes, RgbImage};
use crate::search::SearchResult;
use crate::video::{CellSize, Placement};
use vstd::prelude::*;
use vstd::string::*;

verus! {

/// The longest side of a mark in pixels, however large a cell the terminal reports.
pub const MAX_BADGE_PX: u16 = 24;

/// One part of the border's colour. It is dark, to stand out from a bright picture.
pub const BORDER_PART: u8 = 16;

#[derive(Debug, Clone, Copy, PartialEq, Eq, Structural)]
pub enum Badge {
    Live,
    Shorts,
    Liked,
    Subscribed,
}

impl Badge {
    pub open spec fn colour(self) -> Seq<u8> {
        match self {
            Badge::Live => seq![255u8, 70u8, 30u8],
            Badge::Shorts => seq![60u8, 120u8, 240u8],
            Badge::Liked => seq![220u8, 40u8, 40u8],
            Badge::Subscribed => seq![40u8, 190u8, 90u8],
        }
    }

    pub fn fill(self) -> (r: [u8; 3])
        ensures
            r@ == self.colour(),
    {
        let r = match self {
            Badge::Live => [255u8, 70u8, 30u8],
            Badge::Shorts => [60u8, 120u8, 240u8],
            Badge::Liked => [220u8, 40u8, 40u8],
            Badge::Subscribed => [40u8, 190u8, 90u8],
        };
        assert(r@ =~= self.colour());
        r
    }

    pub open spec fn sign(self) -> Seq<char> {
        match self {
            Badge::Live => "●LIVE"@,
            Badge::Shorts => "S"@,
            Badge::Liked => "♥"@,
            Badge::Subscribed => "＋"@,
        }
    }

    /// The mark as text, for a list without thumbnails.
    pub fn symbol(self) -> (r: &'static str)
        ensures
            r@ == self.sign(),
    {
        match self {
            Badge::Live => "●LIVE",
            Badge::Shorts => "S",
            Badge::Liked => "♥",
            Badge::Subscribed => "＋",
        }
    }

    pub open spec fn is_personal(self) -> bool {
        self == Badge::Liked || self == Badge::Subscribed
    }

    /// Whether the mark comes from the user's account. The others are known from the
    /// result itself.
    pub fn engagement(self) -> (r: bool)
        ensures
            r == self.is_personal(),
    {
        match self {
            Badge::Liked => true,
            Badge::Subscribed => true,
            _ => false,
        }
    }
}

/// No two marks have the same sign.
pub proof fn law_badge_signs_differ(a: Badge, b: Badge)
    requires
        a.sign() == b.sign(),
    ensures
        a == b,
{
    reveal_strlit("●LIVE");
    reveal_strlit("S");
    reveal_strlit("♥");
    reveal_strlit("＋");
    assert("●LIVE"@[0] == '●' && "S"@[0] == 'S' && "♥"@[0] == '♥' && "＋"@[0] == '＋');
}

/// No two marks have the same colour.
pub proof fn law_badge_colours_differ(a: Badge, b: Badge)
    requires
        a.colour() == b.colour(),
    ensures
        a == b,
{
    assert(a.colour()[0] == b.colour()[0]);
    assert(a.colour()[1] == b.colour()[1]);
}

pub open spec fn badge_if(on: bool, badge: Badge) -> Seq<Badge> {
    if on {
        seq![badge]
    } else {
        seq![]
    }
}

/// The marks of a row, from left to right. A channel that was not asked for counts as
/// not subscribed to.
pub open spec fn badges_of(cache: EngagementCache, result: SearchResult) -> Seq<Badge> {
    badge_if(result.is_live, Badge::Live) + badge_if(
        cache.liked_videos@.contains(result.id@),
        Badge::Liked,
    ) + badge_if(
        result.channel_id matches Some(id) && cache.subscribed_channels@.dom().contains(id@)
            && cache.subscribed_channels@[id@],
        Badge::Subscribed,
    )
}

pub fn badges_for(cache: &EngagementCache, result: &SearchResult) -> (r: Vec<Badge>)
    ensures
        r@ == badges_of(*cache, *result),
{
    let mut out: Vec<Badge> = Vec::new();
    if result.is_live {
        out.push(Badge::Live);
    }
    if cache.is_liked(result.id.as_str()) {
        out.push(Badge::Liked);
    }
    let subscribed: bool = match &result.channel_id {
        Some(id) => match cache.is_subscribed(id.as_str()) {
            Some(on) => on,
            None => false,
        },
        None => false,
    };
    if subscribed {
        out.push(Badge::Subscribed);
    }
    assert(out@ =~= badges_of(*cache, *result));
    out
}

pub open spec fn badge_side(px: u16) -> int {
    if px < MAX_BADGE_PX {
        px as int
    } else {
        MAX_BADGE_PX as int
    }
}

/// Part `k` of the colour at column `x` of row `y`: the border runs round a mark that
/// has room for more than a border.
pub open spec fn badge_part(badge: Badge, width: int, height: int, x: int, y: int, k: int) -> u8 {
    let framed = width >= 3 && height >= 3;
    if framed && (x == 0 || y == 0 || x + 1 == width || y + 1 == height) {
        BORDER_PART
    } else {
        badge.colour()[k]
    }
}

/// The bytes of the first `n` pixels.
pub open spec fn badge_pixels(badge: Badge, width: int, height: int, n: int) -> Seq<u8> {
    Seq::new(
        (n * 3) as nat,
        |i: int| badge_part(badge, width, height, i / 3 % width, i / 3 / width, i % 3),
    )
}

/// The picture of a mark, in the shape of a cell. None for a cell without a size.
pub fn image(badge: Badge, cell: CellSize) -> (r: Option<RgbImage>)
    ensures
        r is Some <==> cell.width_px > 0 && cell.height_px > 0,
        r matches Some(picture) ==> {
            &&& picture.wf()
            &&& picture.width == badge_side(cell.width_px)
            &&& picture.height == badge_side(cell.height_px)
            &&& picture.pixels@ == badge_pixels(
                badge,
                picture.width as int,
                picture.height as int,
                picture.width * picture.height,
            )
        },
{
    let width: u32 = if cell.width_px < MAX_BADGE_PX {
        cell.width_px as u32
    } else {
        MAX_BADGE_PX as u32
    };
    let height: u32 = if cell.height_px < MAX_BADGE_PX {
        cell.height_px as u32
    } else {
        MAX_BADGE_PX as u32
    };
    if width == 0 || height == 0 {
        return None;
    }
    let fill = badge.fill();
    let framed: bool = width >= 3 && height >= 3;
    let mut pixels: Vec<u8> = Vec::new();
    assert(pixels@ =~= badge_pixels(badge, width as int, height as int, 0));
    for y in 0..height
        invariant
            0 < width <= 24,
            0 < height <= 24,
            framed == (width >= 3 && height >= 3),
            fill@ == badge.colour(),
            pixels@ == badge_pixels(badge, width as int, height as int, y * width),
    {
        assert(y * width + 0 == y * width);
        for x in 0..width
            invariant
                0 < width <= 24,
                0 < height <= 24,
                0 <= y < height,
                framed == (width >= 3 && height >= 3),
                fill@ == badge.colour(),
                pixels@ == badge_pixels(badge, width as int, height as int, y * width + x),
        {
            let ghost n = y * width + x;
            let edge: bool = framed && (x == 0 || y == 0 || x + 1 == width || y + 1 == height);
            if edge {
                pixels.push(BORDER_PART);
                pixels.push(BORDER_PART);
                pixels.push(BORDER_PART);
            } else {
                pixels.push(fill[0]);
                pixels.push(fill[1]);
                pixels.push(fill[2]);
            }
            proof {
                assert(n >= 0 && n % (width as int) == x && n / (width as int) == y)
                    by (nonlinear_arith)
                    requires
                        n == y * width + x,
                        0 <= x < width,
                        0 <= y,
                ;
                assert(pixels@.len() == (n + 1) * 3);
                assert forall|i: int| 0 <= i < pixels@.len() implies pixels@[i] == badge_pixels(
                    badge,
                    width as int,
                    height as int,
                    n + 1,
                )[i] by {
                    if i < n * 3 {
                        assert(pixels@[i] == badge_pixels(
                            badge,
                            width as int,
                            height as int,
                            n,
                        )[i]);
                    } else {
                        assert(i / 3 == n);
                    }
                }
                assert(pixels@ =~= badge_pixels(badge, width as int, height as int, n + 1));
            }
        }
        assert((y + 1) * width == y * width + width) by (nonlinear_arith);
    }
    proof {
        assert(width * height == height * width) by (nonlinear_arith);
        assert(width * height * 3 == (width * height) * 3);
    }
    RgbImage::new(width, height, pixels)
}

/// The `i`th place along the upper edge, from the left or from the right.
pub open spec fn corner_col(at: Placement, i: int, from_right: bool) -> int {
    if from_right {
        at.col + at.cols - 1 - i
    } else {
        at.col + i
    }
}

/// How many marks have a place: no more than there are cells, and none whose cell lies
/// past the last column there is.
pub open spec fn corner_count(at: Placement, count: int, from_right: bool) -> int {
    let wanted = if count < at.cols {
        count
    } else {
        at.cols as int
    };
    if at.rows == 0 || wanted <= 0 {
        0
    } else if from_right {
        if at.col + at.cols - 1 > u16::MAX {
            0
        } else {
            wanted
        }
    } else if at.col + wanted - 1 > u16::MAX {
        u16::MAX - at.col + 1
    } else {
        wanted
    }
}

/// The places along the upper edge, one cell each.
pub open spec fn corner_places(at: Placement, count: int, from_right: bool) -> Seq<Placement> {
    Seq::new(
        corner_count(at, count, from_right) as nat,
        |i: int|
            Placement {
                row: at.row,
                col: corner_col(at, i, from_right) as u16,
                cols: 1,
                rows: 1,
            },
    )
}

pub fn corner_placements(at: Placement, count: usize, from_right: bool) -> (r: Vec<Placement>)
    ensures
        r@ == corner_places(at, count as int, from_right),
{
    let mut out: Vec<Placement> = Vec::new();
    assert(out@ =~= corner_places(at, 0, from_right));
    if at.rows == 0 {
        assert(out@ =~= corner_places(at, count as int, from_right));
        return out;
    }
    let shown: u16 = if count < at.cols as usize {
        count as u16
    } else {
        at.cols
    };
    for i in 0..shown
        invariant
            shown <= at.cols,
            shown == (if count < at.cols {
                count as int
            } else {
                at.cols as int
            }),
            at.rows != 0,
            out@ == corner_places(at, i as int, from_right),
    {
        let col: Option<u16> = if from_right {
            match at.col.checked_add(at.cols - 1) {
                Some(last) => last.checked_sub(i),
                None => None,
            }
        } else {
            at.col.checked_add(i)
        };
        if let Some(col) = col {
            out.push(Placement { row: at.row, col, cols: 1, rows: 1 });
        }
        assert(out@ =~= corner_places(at, i + 1, from_right));
    }
    assert(corner_places(at, shown as int, from_right) =~= corner_places(
        at,
        count as int,
        from_right,
    ));
    out
}

/// Where the marks of a row go: from the upper left corner to the right.
pub fn placements(at: Placement, count: usize) -> (r: Vec<Placement>)
    ensures
        r@ == corner_places(at, count as int, false),
{
    corner_placements(at, count, false)
}

/// Where the marks of a whole tab go: from the upper right corner to the left.
pub fn tab_placements(at: Placement, count: usize) -> (r: Vec<Placement>)
    ensures
        r@ == corner_places(at, count as int, true),
{
    corner_placements(at, count, true)
}

/// Every mark stands on the thumbnail, in its upper row.
pub proof fn law_badges_stay_on_the_thumbnail(at: Placement, count: int, from_right: bool, i: int)
    requires
        0 <= i < corner_count(at, count, from_right),
    ensures
        at.col <= corner_col(at, i, from_right) < at.col + at.cols,
        corner_col(at, i, from_right) <= u16::MAX,
        corner_count(at, count, from_right) <= at.cols,
        corner_count(at, count, from_right) <= count,
{
}

/// Two marks of one row never share a cell.
pub proof fn law_badges_do_not_overlap(at: Placement, from_right: bool, i: int, j: int)
    requires
        i != j,
    ensures
        corner_col(at, i, from_right) != corner_col(at, j, from_right),
{
}

/// What draws one mark, or nothing for a cell without a size.
pub open spec fn drawn(badge: Badge, cell: CellSize, place: Placement) -> Seq<u8> {
    let width = badge_side(cell.width_px);
    let height = badge_side(cell.height_px);
    if width == 0 || height == 0 {
        seq![]
    } else {
        image_bytes(
            width as u32,
            height as u32,
            badge_pixels(badge, width, height, width * height),
            place,
        )
    }
}

/// What draws the first `n` marks, each at its place.
pub open spec fn all_drawn(
    badges: Seq<Badge>,
    places: Seq<Placement>,
    cell: CellSize,
    n: int,
) -> Seq<u8>
    decreases n,
{
    if n <= 0 {
        seq![]
    } else {
        all_drawn(badges, places, cell, n - 1) + drawn(badges[n - 1], cell, places[n - 1])
    }
}

/// What draws as many marks as there are both marks and places.
pub open spec fn marks_drawn(badges: Seq<Badge>, places: Seq<Placement>, cell: CellSize) -> Seq<
    u8,
> {
    all_drawn(
        badges,
        places,
        cell,
        if badges.len() < places.len() {
            badges.len() as int
        } else {
            places.len() as int
        },
    )
}

pub fn encode_at(badges: &Vec<Badge>, places: &Vec<Placement>, cell: CellSize, out: &mut Vec<u8>)
    ensures
        final(out)@ == old(out)@ + marks_drawn(badges@, places@, cell),
{
    let count: usize = if badges.len() < places.len() {
        badges.len()
    } else {
        places.len()
    };
    assert(out@ =~= old(out)@ + all_drawn(badges@, places@, cell, 0));
    for i in 0..count
        invariant
            count <= badges@.len(),
            count <= places@.len(),
            out@ == old(out)@ + all_drawn(badges@, places@, cell, i as int),
    {
        let ghost before = out@;
        if let Some(picture) = image(badges[i], cell) {
            encode_image(&picture, places[i], out);
        }
        proof {
            let more = drawn(badges@[i as int], cell, places@[i as int]);
            assert(out@ =~= before + more);
            assert(before + more =~= old(out)@ + (all_drawn(badges@, places@, cell, i as int)
                + more));
        }
    }
}

/// Draws the marks of a row over its thumbnail.
pub fn encode(badges: &Vec<Badge>, at: Placement, cell: CellSize, out: &mut Vec<u8>)
    ensures
        final(out)@ == old(out)@ + marks_drawn(
            badges@,
            corner_places(at, badges@.len() as int, false),
            cell,
        ),
{
    encode_at(badges, &placements(at, badges.len()), cell, out);
}

/// Draws the marks of a whole tab at the other corner.
pub fn encode_tab(badges: &Vec<Badge>, at: Placement, cell: CellSize, out: &mut Vec<u8>)
    ensures
        final(out)@ == old(out)@ + marks_drawn(
            badges@,
            corner_places(at, badges@.len() as int, true),
            cell,
        ),
{
    encode_at(badges, &tab_placements(at, badges.len()), cell, out);
}

/// A row has the mark for live exactly where it is live, that for liked exactly where the
/// user liked it and that for subscribed exactly where the channel is known to be
/// subscribed to. Each stands at most once, in that order.
pub proof fn law_row_has_its_marks(cache: EngagementCache, result: SearchResult)
    ensures
        badges_of(cache, result).contains(Badge::Live) <==> result.is_live,
        badges_of(cache, result).contains(Badge::Liked) <==> cache.liked_videos@.contains(
            result.id@,
        ),
        badges_of(cache, result).contains(Badge::Subscribed) <==> (
        result.channel_id matches Some(id) && cache.subscribed_channels@.dom().contains(id@)
            && cache.subscribed_channels@[id@]),
        !badges_of(cache, result).contains(Badge::Shorts),
        badges_of(cache, result).no_duplicates(),
        result.is_live ==> badges_of(cache, result)[0] == Badge::Live,
        badges_of(cache, result).contains(Badge::Subscribed) ==> badges_of(cache, result).last()
            == Badge::Subscribed,
{
    let marks = badges_of(cache, result);
    let live = badge_if(result.is_live, Badge::Live);
    let liked = badge_if(cache.liked_videos@.contains(result.id@), Badge::Liked);
    if result.is_live {
        assert(marks[0] == Badge::Live);
    }
    if cache.liked_videos@.contains(result.id@) {
        assert(marks[live.len() as int] == Badge::Liked);
    }
    if result.channel_id matches Some(id) && cache.subscribed_channels@.dom().contains(id@)
        && cache.subscribed_channels@[id@] {
        assert(marks[live.len() + liked.len() as int] == Badge::Subscribed);
    }
}

/// What the user's account does not know of gives no mark of the account.
pub proof fn law_no_account_no_personal_mark(
    cache: EngagementCache,
    result: SearchResult,
    badge: Badge,
)
    requires
        forall|id: Seq<char>| !cache.liked_videos@.contains(id),
        forall|id: Seq<char>| !cache.subscribed_channels@.dom().contains(id),
        badges_of(cache, result).contains(badge),
    ensures
        !badge.is_personal(),
{
    law_row_has_its_marks(cache, result);
}

/// The marks of the account are those for liked and subscribed.
pub proof fn law_personal_marks(badge: Badge)
    ensures
        badge.is_personal() <==> badge != Badge::Live && badge != Badge::Shorts,
        badge == Badge::Live ==> badge.sign() == "●LIVE"@,
        badge == Badge::Shorts ==> badge.sign() == "S"@,
        badge == Badge::Liked ==> badge.sign() == "♥"@,
        badge == Badge::Subscribed ==> badge.sign() == "＋"@,
        badge.colour().len() == 3,
        badge == Badge::Live ==> badge.colour() == seq![255u8, 70, 30],
        badge == Badge::Shorts ==> badge.colour() == seq![60u8, 120, 240],
        badge == Badge::Liked ==> badge.colour() == seq![220u8, 40, 40],
        badge == Badge::Subscribed ==> badge.colour() == seq![40u8, 190, 90],
{
}

/// A mark is as large as a cell, up to 24 pixels.
pub proof fn law_mark_fits_a_cell(px: u16)
    ensures
        badge_side(px) <= px,
        badge_side(px) <= 24,
        badge_side(px) == px || badge_side(px) == 24,
{
}

/// The border of a mark is dark, and all within has the mark's colour. A mark of less than
/// three pixels on one side has no border.
pub proof fn law_mark_has_a_border(badge: Badge, width: int, height: int, x: int, y: int, k: int)
    requires
        0 <= x < width,
        0 <= y < height,
        0 <= k < 3,
    ensures
        ({
            let pixel = badge_pixels(badge, width, height, width * height)[(y * width + x) * 3 + k];
            &&& 0 < x < width - 1 && 0 < y < height - 1 ==> pixel == badge.colour()[k]
            &&& width < 3 || height < 3 ==> pixel == badge.colour()[k]
            &&& width >= 3 && height >= 3 && (x == 0 || x == width - 1 || y == 0 || y == height - 1)
                ==> pixel == 16
        }),
        badge_pixels(badge, width, height, width * height).len() == width * height * 3,
{
    let n = y * width + x;
    assert(0 <= n < width * height && n % width == x && n / width == y) by (nonlinear_arith)
        requires
            n == y * width + x,
            0 <= x < width,
            0 <= y < height,
    ;
    let i = n * 3 + k;
    assert(i / 3 == n && i % 3 == k);
    assert(badge_pixels(badge, width, height, width * height)[i] == badge_part(
        badge,
        width,
        height,
        i / 3 % width,
        i / 3 / width,
        i % 3,
    ));
}

/// The marks stand side by side in the upper row, one cell each, from the corner on: those
/// of a row from the left, those of a tab from the right. All have a place where there are
/// enough cells.
pub proof fn law_marks_start_at_the_corner(at: Placement, count: int, from_right: bool, i: int)
    requires
        0 <= i < corner_places(at, count, from_right).len(),
    ensures
        ({
            let places = corner_places(at, count, from_right);
            &&& places[i].row == at.row
            &&& places[i].cols == 1 && places[i].rows == 1
            &&& !from_right ==> places[0].col == at.col
            &&& from_right ==> places[0].col + 1 == at.col + at.cols
            &&& i > 0 && !from_right ==> places[i].col == places[i - 1].col + 1
            &&& i > 0 && from_right ==> places[i].col + 1 == places[i - 1].col
        }),
{
    law_badges_stay_on_the_thumbnail(at, count, from_right, i);
    law_badges_stay_on_the_thumbnail(at, count, from_right, 0);
    if i > 0 {
        law_badges_stay_on_the_thumbnail(at, count, from_right, i - 1);
    }
}

/// As many marks have a place as there are cells, as long as the columns go on.
pub proof fn law_marks_have_a_place(at: Placement, count: int, from_right: bool)
    requires
        at.rows > 0,
        at.col + at.cols <= 65536,
        count >= 0,
    ensures
        count <= at.cols ==> corner_places(at, count, from_right).len() == count,
        count > at.cols ==> corner_places(at, count, from_right).len() == at.cols,
{
}

/// A thumbnail without rows has no marks.
pub proof fn law_no_rows_no_marks(at: Placement, count: int, from_right: bool)
    requires
        at.rows == 0,
    ensures
        corner_places(at, count, from_right).len() == 0,
{
}

proof fn lemma_drawn_prefix(
    badges: Seq<Badge>,
    places: Seq<Placement>,
    badge: Badge,
    place: Placement,
    cell: CellSize,
    n: int,
)
    requires
        0 <= n <= badges.len(),
        n <= places.len(),
    ensures
        all_drawn(badges.push(badge), places.push(place), cell, n) == all_drawn(
            badges,
            places,
            cell,
            n,
        ),
    decreases n,
{
    if n > 0 {
        lemma_drawn_prefix(badges, places, badge, place, cell, n - 1);
    }
}

/// One more mark at one more place is drawn after the others, and a mark without a place or
/// a place without a mark changes nothing.
pub proof fn law_marks_are_drawn_in_order(
    badges: Seq<Badge>,
    places: Seq<Placement>,
    badge: Badge,
    place: Placement,
    cell: CellSize,
)
    ensures
        marks_drawn(seq![], places, cell).len() == 0,
        badges.len() == places.len() ==> marks_drawn(badges.push(badge), places.push(place), cell)
            == marks_drawn(badges, places, cell) + drawn(badge, cell, place),
        badges.len() >= places.len() ==> marks_drawn(badges.push(badge), places, cell)
            == marks_drawn(badges, places, cell),
        badges.len() <= places.len() ==> marks_drawn(badges, places.push(place), cell)
            == marks_drawn(badges, places, cell),
{
    let n = if badges.len() < places.len() {
        badges.len() as int
    } else {
        places.len() as int
    };
    if badges.len() == places.len() {
        lemma_drawn_prefix(badges, places, badge, place, cell, n);
    }
    lemma_drawn_alike(badges, places, badges.push(badge), places, cell, n);
    lemma_drawn_alike(badges, places, badges, places.push(place), cell, n);
}

proof fn lemma_drawn_alike(
    badges: Seq<Badge>,
    places: Seq<Placement>,
    more_badges: Seq<Badge>,
    more_places: Seq<Placement>,
    cell: CellSize,
    n: int,
)
    requires
        forall|i: int| 0 <= i < n ==> #[trigger] badges[i] == more_badges[i],
        forall|i: int| 0 <= i < n ==> #[trigger] places[i] == more_places[i],
    ensures
        all_drawn(badges, places, cell, n) == all_drawn(more_badges, more_places, cell, n),
    decreases n,
{
    if n > 0 {
        lemma_drawn_alike(badges, places, more_badges, more_places, cell, n - 1);
    }
}

/// A cell without a size shows no mark; in any other a mark is drawn as its picture.
pub proof fn law_mark_is_drawn_as_its_picture(badge: Badge, cell: CellSize, place: Placement)
    ensures
        cell.width_px == 0 || cell.height_px == 0 ==> drawn(badge, cell, place).len() == 0,
        0 < cell.width_px <= 24 && 0 < cell.height_px <= 24 ==> drawn(badge, cell, place)
            == image_bytes(
            cell.width_px as u32,
            cell.height_px as u32,
            badge_pixels(
                badge,
                cell.width_px as int,
                cell.height_px as int,
                cell.width_px * cell.height_px,
            ),
            place,
        ),
{
}

} // verus!
