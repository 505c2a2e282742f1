//! Pictures of three bytes a pixel, and how they are sent to the terminal.

use crate::text::{chars, decimal, number};
use crate::video::Placement;
use vstd::prelude::*;
use vstd::string::*;

verus! {

/// A picture, row by row, with red, green and blue of each pixel.
#[derive(Debug, PartialEq, Eq)]
pub struct RgbImage {
    pub width: u32,
    pub height: u32,
    pub pixels: Vec<u8>,
}

/// The most characters of picture data that the terminal takes at once.
pub const CHUNK: usize = 4096;

impl RgbImage {
    /// There are as many bytes as the size wants.
    pub open spec fn wf(self) -> bool {
        self.pixels@.len() == self.width * self.height * 3
    }

    /// `None` where the bytes do not make up the size.
    pub fn new(width: u32, height: u32, pixels: Vec<u8>) -> (r: Option<Self>)
        ensures
            r is Some <==> pixels@.len() == width * height * 3,
            r matches Some(image) ==> image == (RgbImage { width, height, pixels }) && image.wf(),
    {
        proof {
            assert(0 <= width * height <= 0xffff_ffff * 0xffff_ffff) by (nonlinear_arith)
                requires
                    0 <= width <= 0xffff_ffff,
                    0 <= height <= 0xffff_ffff,
            ;
        }
        let wanted: u128 = width as u128 * height as u128 * 3;
        if pixels.len() as u128 == wanted {
            Some(RgbImage { width, height, pixels })
        } else {
            None
        }
    }
}

/// Text of ASCII characters as bytes.
pub open spec fn ascii(text: Seq<char>) -> Seq<u8> {
    text.map_values(|c: char| c as u8)
}

pub fn push_ascii(out: &mut Vec<u8>, text: &str)
    ensures
        final(out)@ == old(out)@ + ascii(text@),
{
    let all = chars(text);
    assert(out@ =~= old(out)@ + ascii(text@).take(0));
    for i in 0..all.len()
        invariant
            all@ == text@,
            out@ == old(out)@ + ascii(text@).take(i as int),
    {
        out.push(all[i] as u8);
        assert(out@ =~= old(out)@ + ascii(text@).take(i + 1));
    }
    assert(ascii(text@).take(all@.len() as int) =~= ascii(text@));
}

/// The digit of base 64 for a number below 64.
pub open spec fn base64_digit(n: int) -> u8 {
    if n < 26 {
        (65 + n) as u8
    } else if n < 52 {
        (97 + n - 26) as u8
    } else if n < 62 {
        (48 + n - 52) as u8
    } else if n == 62 {
        43
    } else {
        47
    }
}

/// The byte at place `i`, or zero past the end.
pub open spec fn byte_at(data: Seq<u8>, i: int) -> int {
    if 0 <= i < data.len() {
        data[i] as int
    } else {
        0
    }
}

/// Digit `i` of the data in base 64: three bytes make four digits, and equal signs
/// fill up the last four.
pub open spec fn base64_at(data: Seq<u8>, i: int) -> u8 {
    let group = i / 4 * 3;
    let n = byte_at(data, group) * 65536 + byte_at(data, group + 1) * 256 + byte_at(
        data,
        group + 2,
    );
    if i % 4 == 0 {
        base64_digit(n / 262144)
    } else if i % 4 == 1 {
        base64_digit(n / 4096 % 64)
    } else if i % 4 == 2 {
        if group + 1 < data.len() {
            base64_digit(n / 64 % 64)
        } else {
            61
        }
    } else {
        if group + 2 < data.len() {
            base64_digit(n % 64)
        } else {
            61
        }
    }
}

/// Data in base 64.
pub open spec fn base64(data: Seq<u8>) -> Seq<u8> {
    Seq::new(((data.len() + 2) / 3 * 4) as nat, |i: int| base64_at(data, i))
}

fn digit64(n: u32) -> (r: u8)
    requires
        n < 64,
    ensures
        r == base64_digit(n as int),
{
    if n < 26 {
        65 + n as u8
    } else if n < 52 {
        97 + (n - 26) as u8
    } else if n < 62 {
        48 + (n - 52) as u8
    } else if n == 62 {
        43
    } else {
        47
    }
}

pub fn to_base64(data: &Vec<u8>) -> (r: Vec<u8>)
    ensures
        r@ == base64(data@),
{
    let mut out: Vec<u8> = Vec::new();
    let mut at: usize = 0;
    while at < data.len()
        invariant
            at % 3 == 0,
            at <= data@.len() + 2,
            out@.len() == at / 3 * 4,
            forall|i: int| 0 <= i < out@.len() ==> #[trigger] out@[i] == base64_at(data@, i),
        decreases data.len() + 3 - at,
    {
        let left: usize = data.len() - at;
        let a: u32 = data[at] as u32;
        let b: u32 = if left > 1 {
            data[at + 1] as u32
        } else {
            0
        };
        let c: u32 = if left > 2 {
            data[at + 2] as u32
        } else {
            0
        };
        let n: u32 = a * 65536 + b * 256 + c;
        let ghost before = out@.len() as int;
        proof {
            assert(before / 4 * 3 == at && (before + 1) / 4 * 3 == at && (before + 2) / 4 * 3 == at
                && (before + 3) / 4 * 3 == at);
        }
        out.push(digit64(n / 262144));
        out.push(digit64(n / 4096 % 64));
        if left > 1 {
            out.push(digit64(n / 64 % 64));
        } else {
            out.push(61);
        }
        if left > 2 {
            out.push(digit64(n % 64));
        } else {
            out.push(61);
        }
        if left <= 3 {
            proof {
                assert(out@.len() == (data@.len() + 2) / 3 * 4);
                assert(out@ =~= base64(data@));
            }
            return out;
        }
        at = at + 3;
    }
    assert(out@ =~= base64(data@));
    out
}

/// The pieces from `from` on in which picture data is sent. The first carries `head`;
/// all but the last say that more follows.
pub open spec fn pieces(data: Seq<u8>, head: Seq<u8>, from: int) -> Seq<u8>
    decreases data.len() - from,
{
    let end = if data.len() - from > CHUNK {
        from + CHUNK
    } else {
        data.len() as int
    };
    let more = ascii(
        if end < data.len() {
            "m=1;"@
        } else {
            "m=0;"@
        },
    );
    let piece = ascii("\u{1b}_G"@) + head + more + data.subrange(from, end) + ascii("\u{1b}\\"@);
    if from < 0 || end >= data.len() {
        piece
    } else {
        piece + pieces(data, seq![], end)
    }
}

/// What the terminal is sent first: to where the picture goes, and its size.
pub open spec fn moved_to(place: Placement) -> Seq<u8> {
    ascii("\u{1b}["@) + ascii(decimal(place.row as nat)) + ascii(";"@) + ascii(
        decimal(place.col as nat),
    ) + ascii("H"@)
}

pub open spec fn header(width: u32, height: u32, place: Placement) -> Seq<u8> {
    ascii("a=T,f=24,q=2,s="@) + ascii(decimal(width as nat)) + ascii(",v="@) + ascii(
        decimal(height as nat),
    ) + ascii(",c="@) + ascii(decimal(place.cols as nat)) + ascii(",r="@) + ascii(
        decimal(place.rows as nat),
    ) + ascii(","@)
}

/// What shows a picture of those pixels at a place.
pub open spec fn image_bytes(
    width: u32,
    height: u32,
    pixels: Seq<u8>,
    place: Placement,
) -> Seq<u8> {
    moved_to(place) + pieces(base64(pixels), header(width, height, place), 0)
}

fn push_number(out: &mut Vec<u8>, n: u64)
    ensures
        final(out)@ == old(out)@ + ascii(decimal(n as nat)),
{
    push_ascii(out, number(n).as_str());
}

fn push_pieces(out: &mut Vec<u8>, data: &Vec<u8>, head: &Vec<u8>)
    ensures
        final(out)@ == old(out)@ + pieces(data@, head@, 0),
{
    let ghost whole = pieces(data@, head@, 0);
    let mut from: usize = 0;
    let mut done: bool = false;
    let ghost mut lead = head@;
    assert(old(out)@ + whole =~= out@ + pieces(data@, lead, from as int));
    while !done
        invariant
            from <= data@.len(),
            lead == (if from == 0 {
                head@
            } else {
                Seq::<u8>::empty()
            }),
            done ==> out@ == old(out)@ + whole,
            !done ==> old(out)@ + whole == out@ + pieces(data@, lead, from as int),
            !done ==> from == 0 || from < data@.len(),
        decreases (if done { 0int } else { 1 + data@.len() - from }),
    {
        let ghost before = out@;
        let end: usize = if data.len() - from > CHUNK {
            from + CHUNK
        } else {
            data.len()
        };
        push_ascii(out, "\u{1b}_G");
        if from == 0 {
            push_bytes(out, head, 0, head.len());
            assert(head@.subrange(0, head@.len() as int) =~= head@);
        } else {
            assert(out@ + lead =~= out@);
        }
        if end < data.len() {
            push_ascii(out, "m=1;");
        } else {
            push_ascii(out, "m=0;");
        }
        push_bytes(out, data, from, end);
        push_ascii(out, "\u{1b}\\");
        proof {
            let more = ascii(
                if end < data@.len() {
                    "m=1;"@
                } else {
                    "m=0;"@
                },
            );
            let piece = ascii("\u{1b}_G"@) + lead + more + data@.subrange(from as int, end as int)
                + ascii("\u{1b}\\"@);
            assert(out@ =~= before + piece);
            if end < data@.len() {
                assert(before + (piece + pieces(data@, seq![], end as int)) =~= out@ + pieces(
                    data@,
                    seq![],
                    end as int,
                ));
            }
        }
        if end >= data.len() {
            done = true;
        } else {
            from = end;
            proof {
                lead = seq![];
            }
        }
    }
}

fn push_bytes(out: &mut Vec<u8>, data: &Vec<u8>, from: usize, to: usize)
    requires
        from <= to <= data@.len(),
    ensures
        final(out)@ == old(out)@ + data@.subrange(from as int, to as int),
{
    assert(out@ =~= old(out)@ + data@.subrange(from as int, from as int));
    for i in from..to
        invariant
            from <= to <= data@.len(),
            out@ == old(out)@ + data@.subrange(from as int, i as int),
    {
        out.push(data[i]);
        assert(out@ =~= old(out)@ + data@.subrange(from as int, i + 1));
    }
}

/// Appends what shows a picture at a place.
pub fn encode_image(image: &RgbImage, place: Placement, out: &mut Vec<u8>)
    ensures
        final(out)@ == old(out)@ + image_bytes(image.width, image.height, image.pixels@, place),
{
    let ghost before = out@;
    push_ascii(out, "\u{1b}[");
    push_number(out, place.row as u64);
    push_ascii(out, ";");
    push_number(out, place.col as u64);
    push_ascii(out, "H");
    assert(out@ =~= before + moved_to(place));
    let mut head: Vec<u8> = Vec::new();
    push_ascii(&mut head, "a=T,f=24,q=2,s=");
    push_number(&mut head, image.width as u64);
    push_ascii(&mut head, ",v=");
    push_number(&mut head, image.height as u64);
    push_ascii(&mut head, ",c=");
    push_number(&mut head, place.cols as u64);
    push_ascii(&mut head, ",r=");
    push_number(&mut head, place.rows as u64);
    push_ascii(&mut head, ",");
    assert(head@ =~= header(image.width, image.height, place));
    let data = to_base64(&image.pixels);
    push_pieces(out, &data, &head);
    assert(out@ =~= before + image_bytes(image.width, image.height, image.pixels@, place));
}

/// Different numbers below 64 have different digits: the capital letters stand for the
/// first 26, the small ones for the next, then come ten decimal digits, plus and slash.
pub proof fn law_base64_digits(a: int, b: int)
    requires
        0 <= a < b < 64,
    ensures
        base64_digit(a) != base64_digit(b),
        base64_digit(a) != 61 && base64_digit(b) != 61,
        b < 26 ==> base64_digit(b) - base64_digit(a) == b - a && 65 <= base64_digit(a)
            && base64_digit(b) <= 90,
        26 <= a && b < 52 ==> base64_digit(b) - base64_digit(a) == b - a && 97 <= base64_digit(a)
            && base64_digit(b) <= 122,
        52 <= a && b < 62 ==> base64_digit(b) - base64_digit(a) == b - a && 48 <= base64_digit(a)
            && base64_digit(b) <= 57,
        b == 62 ==> base64_digit(b) == 43,
        b == 63 ==> base64_digit(b) == 47,
{
}

/// The number that a digit of base 64 stands for.
pub open spec fn base64_value(digit: u8) -> int {
    if digit == 43 {
        62
    } else if digit == 47 {
        63
    } else if digit <= 57 {
        digit + 4
    } else if digit <= 90 {
        digit - 65
    } else {
        digit - 71
    }
}

proof fn lemma_digit_has_its_value(n: int)
    requires
        0 <= n < 64,
    ensures
        base64_value(base64_digit(n)) == n,
{
}

proof fn lemma_three_bytes_in_four_digits(a: int, b: int, c: int)
    requires
        0 <= a < 256,
        0 <= b < 256,
        0 <= c < 256,
    ensures
        ({
            let n = a * 65536 + b * 256 + c;
            &&& 0 <= n < 16777216
            &&& n / 262144 == a / 4
            &&& n / 4096 % 64 == a % 4 * 16 + b / 16
            &&& n / 64 % 64 == b % 16 * 4 + c / 64
            &&& n % 64 == c % 64
        }),
{
    let n = a * 65536 + b * 256 + c;
    let (a0, a1) = (a / 4, a % 4);
    let (b0, b1) = (b / 16, b % 16);
    let (c0, c1) = (c / 64, c % 64);
    lemma_parts(n, 262144, a0, a1 * 65536 + b * 256 + c);
    lemma_parts(n, 4096, a0 * 64 + a1 * 16 + b0, b1 * 256 + c);
    lemma_parts(n / 4096, 64, a0, a1 * 16 + b0);
    lemma_parts(n, 64, a0 * 4096 + a1 * 1024 + b0 * 64 + b1 * 4 + c0, c1);
    lemma_parts(n / 64, 64, a0 * 64 + a1 * 16 + b0, b1 * 4 + c0);
}

proof fn lemma_parts(n: int, d: int, whole: int, rest: int)
    requires
        n == whole * d + rest,
        0 <= rest < d,
    ensures
        n / d == whole,
        n % d == rest,
{
    vstd::arithmetic::div_mod::lemma_fundamental_div_mod_converse(n, d, whole, rest);
}

/// Four digits give back the three bytes that they were made of.
pub proof fn law_base64_gives_bytes_back(data: Seq<u8>, group: int)
    requires
        0 <= group,
        group * 3 + 2 < data.len(),
    ensures
        group * 4 + 3 < base64(data).len(),
        ({
            let text = base64(data);
            let n = base64_value(text[group * 4]) * 262144 + base64_value(text[group * 4 + 1])
                * 4096 + base64_value(text[group * 4 + 2]) * 64 + base64_value(text[group * 4 + 3]);
            n == data[group * 3] * 65536 + data[group * 3 + 1] * 256 + data[group * 3 + 2]
        }),
{
    let text = base64(data);
    let a = data[group * 3] as int;
    let b = data[group * 3 + 1] as int;
    let c = data[group * 3 + 2] as int;
    let n = a * 65536 + b * 256 + c;
    lemma_three_bytes_in_four_digits(a, b, c);
    lemma_digit_has_its_value(n / 262144);
    lemma_digit_has_its_value(n / 4096 % 64);
    lemma_digit_has_its_value(n / 64 % 64);
    lemma_digit_has_its_value(n % 64);
    assert((group * 4) / 4 == group && (group * 4 + 1) / 4 == group && (group * 4 + 2) / 4 == group
        && (group * 4 + 3) / 4 == group);
    assert(text[group * 4] == base64_digit(n / 262144));
    assert(text[group * 4 + 1] == base64_digit(n / 4096 % 64));
    assert(text[group * 4 + 2] == base64_digit(n / 64 % 64));
    assert(text[group * 4 + 3] == base64_digit(n % 64));
}

/// One or two bytes that are left at the end are filled up with equal signs to four digits,
/// and only there does an equal sign stand.
pub proof fn law_base64_is_filled_up(data: Seq<u8>, i: int)
    requires
        0 <= i < base64(data).len(),
    ensures
        base64(data).len() % 4 == 0,
        4 * data.len() <= 3 * base64(data).len() < 4 * data.len() + 12,
        base64(data)[i] == 61 ==> i + 2 >= base64(data).len(),
        data.len() % 3 == 0 ==> base64(data)[i] != 61,
        data.len() % 3 == 1 && i + 2 >= base64(data).len() ==> base64(data)[i] == 61,
        data.len() % 3 == 2 && i + 1 == base64(data).len() ==> base64(data)[i] == 61,
        data.len() % 3 == 2 && i + 1 < base64(data).len() ==> base64(data)[i] != 61,
{
    let group = i / 4 * 3;
    let n = byte_at(data, group) * 65536 + byte_at(data, group + 1) * 256 + byte_at(
        data,
        group + 2,
    );
    assert(0 <= n < 16777216);
    assert(base64(data)[i] == base64_at(data, i));
    assert(base64_digit(n / 262144) != 61);
    assert(base64_digit(n / 4096 % 64) != 61);
    assert(base64_digit(n / 64 % 64) != 61);
    assert(base64_digit(n % 64) != 61);
}

/// The first byte of two that are left at the end, or of one, is in its first two digits.
pub proof fn law_base64_keeps_the_end(data: Seq<u8>, group: int)
    requires
        0 <= group,
        group * 3 < data.len(),
    ensures
        base64_value(base64(data)[group * 4]) * 4 + base64_value(base64(data)[group * 4 + 1]) / 16
            == data[group * 3],
        group * 3 + 1 < data.len() ==> base64_value(base64(data)[group * 4 + 1]) % 16 * 16
            + base64_value(base64(data)[group * 4 + 2]) / 4 == data[group * 3 + 1],
{
    let text = base64(data);
    let a = data[group * 3] as int;
    let b = byte_at(data, group * 3 + 1);
    let c = byte_at(data, group * 3 + 2);
    let n = a * 65536 + b * 256 + c;
    lemma_three_bytes_in_four_digits(a, b, c);
    lemma_digit_has_its_value(n / 262144);
    lemma_digit_has_its_value(n / 4096 % 64);
    lemma_digit_has_its_value(n / 64 % 64);
    assert((group * 4) / 4 == group && (group * 4 + 1) / 4 == group && (group * 4 + 2) / 4
        == group);
    assert(text[group * 4] == base64_digit(n / 262144));
    assert(text[group * 4 + 1] == base64_digit(n / 4096 % 64));
    if group * 3 + 1 < data.len() {
        assert(text[group * 4 + 2] == base64_digit(n / 64 % 64));
    }
}

proof fn lemma_pieces_of_the_rest(data: Seq<u8>, head: Seq<u8>, from: int)
    requires
        0 <= from <= data.len(),
    ensures
        pieces(data, head, from) == pieces(data.skip(from), head, 0),
    decreases data.len() - from,
{
    let rest = data.skip(from);
    if data.len() - from > CHUNK {
        let end = from + CHUNK;
        lemma_pieces_of_the_rest(data, seq![], end);
        lemma_pieces_of_the_rest(rest, seq![], CHUNK as int);
        assert(rest.skip(CHUNK as int) =~= data.skip(end));
        assert(rest.subrange(0, CHUNK as int) =~= data.subrange(from, end));
    } else {
        assert(rest.subrange(0, rest.len() as int) =~= data.subrange(from, data.len() as int));
    }
}

/// Data goes out in pieces of 4096 bytes, each between the marks of the terminal. The first
/// carries the header. All but the last say that more follows, and the last holds what is
/// left.
pub proof fn law_data_goes_out_in_pieces(data: Seq<u8>, head: Seq<u8>)
    ensures
        data.len() <= 4096 ==> pieces(data, head, 0) == ascii("\u{1b}_G"@) + head + ascii("m=0;"@)
            + data + ascii("\u{1b}\\"@),
        data.len() > 4096 ==> pieces(data, head, 0) == ascii("\u{1b}_G"@) + head + ascii("m=1;"@)
            + data.take(4096) + ascii("\u{1b}\\"@) + pieces(data.skip(4096), seq![], 0),
{
    if data.len() > 4096 {
        lemma_pieces_of_the_rest(data, seq![], 4096);
        assert(data.subrange(0, 4096) =~= data.take(4096));
    } else {
        assert(data.subrange(0, data.len() as int) =~= data);
    }
}

/// A picture starts with a move to its row and column, and all that follows is the same
/// wherever it stands.
pub proof fn law_picture_moves_with_its_place(
    width: u32,
    height: u32,
    pixels: Seq<u8>,
    a: Placement,
    b: Placement,
)
    requires
        a.cols == b.cols,
        a.rows == b.rows,
    ensures
        image_bytes(width, height, pixels, a).skip(moved_to(a).len() as int) == image_bytes(
            width,
            height,
            pixels,
            b,
        ).skip(moved_to(b).len() as int),
        image_bytes(width, height, pixels, a).take(moved_to(a).len() as int) == moved_to(a),
        moved_to(a) == ascii("\u{1b}["@) + ascii(decimal(a.row as nat)) + ascii(";"@) + ascii(
            decimal(a.col as nat),
        ) + ascii("H"@),
{
    let rest = pieces(base64(pixels), header(width, height, a), 0);
    assert(header(width, height, a) == header(width, height, b));
    assert(image_bytes(width, height, pixels, a).skip(moved_to(a).len() as int) =~= rest);
    assert(image_bytes(width, height, pixels, b).skip(moved_to(b).len() as int) =~= rest);
    assert(image_bytes(width, height, pixels, a).take(moved_to(a).len() as int) =~= moved_to(a));
}

/// Text becomes as many bytes as it has characters, each with the character's number.
pub proof fn law_text_as_bytes(text: Seq<char>, more: Seq<char>, i: int)
    requires
        0 <= i < text.len(),
    ensures
        ascii(text).len() == text.len(),
        ascii(text)[i] == text[i] as u8,
        ascii(text + more) == ascii(text) + ascii(more),
{
    assert(ascii(text + more) =~= ascii(text) + ascii(more));
}

} // verus!
