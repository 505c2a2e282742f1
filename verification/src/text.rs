//! Text as sequences of characters: conversions, searching, splitting and the
//! rendering of numbers.

use vstd::prelude::*;
use vstd::string::*;

verus! {

/// `String::push`: appends one character at the end.
pub assume_specification[ String::push ](s: &mut String, ch: char)
    ensures
        final(s)@ == old(s)@.push(ch),
;

/// What a list of texts holds.
pub open spec fn texts(list: Seq<String>) -> Seq<Seq<char>> {
    list.map_values(|s: String| s@)
}

/// What an optional text holds.
pub open spec fn maybe_text(text: Option<String>) -> Option<Seq<char>> {
    match text {
        Some(s) => Some(s@),
        None => None,
    }
}

/// The characters of `text`.
pub fn chars(text: &str) -> (r: Vec<char>)
    ensures
        r@ == text@,
{
    let mut out: Vec<char> = Vec::new();
    for c in it: text.chars()
        invariant
            out@ == it.seq().take(it.index()),
            it.seq() == text@,
    {
        out.push(c);
    }
    out
}

/// The text of the characters from `from` up to `to`.
pub fn text_of(all: &Vec<char>, from: usize, to: usize) -> (r: String)
    requires
        from <= to <= all@.len(),
    ensures
        r@ == all@.subrange(from as int, to as int),
{
    let mut out = String::new();
    for i in from..to
        invariant
            from <= to <= all@.len(),
            out@ == all@.subrange(from as int, i as int),
    {
        out.push(all[i]);
        assert(out@ =~= all@.subrange(from as int, i + 1));
    }
    out
}

/// Whether two texts hold the same characters.
pub fn same(a: &str, b: &str) -> (r: bool)
    ensures
        r == (a@ == b@),
{
    a.to_owned() == b.to_owned()
}

/// The three texts one after the other.
pub fn joined(a: &str, b: &str, c: &str) -> (r: String)
    ensures
        r@ == a@ + b@ + c@,
{
    let mut out = a.to_owned();
    out.append(b);
    out.append(c);
    out
}

/// The texts of a list, copied.
pub fn copied(list: &Vec<String>) -> (r: Vec<String>)
    ensures
        r@ == list@,
{
    let mut out: Vec<String> = Vec::new();
    for i in 0..list.len()
        invariant
            out@ == list@.take(i as int),
    {
        out.push(list[i].clone());
        assert(out@ =~= list@.take(i + 1));
    }
    assert(list@.take(list@.len() as int) =~= list@);
    out
}

// ---- numbers ----

pub open spec fn digit(n: nat) -> char {
    ('0' as nat + n) as char
}

pub open spec fn is_digit(c: char) -> bool {
    '0' <= c <= '9'
}

/// A number in decimal, without leading zeros.
pub open spec fn decimal(n: nat) -> Seq<char>
    decreases n,
{
    if n < 10 {
        seq![digit(n)]
    } else {
        decimal(n / 10).push(digit(n % 10))
    }
}

/// The number that a row of digits stands for.
pub open spec fn digits_value(digits: Seq<char>) -> nat
    decreases digits.len(),
{
    if digits.len() == 0 {
        0
    } else {
        digits_value(digits.drop_last()) * 10 + (digits.last() as nat - '0' as nat) as nat
    }
}

pub open spec fn all_digits(text: Seq<char>) -> bool {
    forall|i: int| 0 <= i < text.len() ==> is_digit(#[trigger] text[i])
}

/// The digits of a number as it is read: a leading plus is skipped.
pub open spec fn number_part(text: Seq<char>) -> Seq<char> {
    if text.len() > 0 && text[0] == '+' {
        text.drop_first()
    } else {
        text
    }
}

/// The number that a text is read as: at least one digit, nothing but digits behind
/// an optional plus, and no more than fits.
pub open spec fn read_number(text: Seq<char>) -> Option<u64> {
    let digits = number_part(text);
    if digits.len() > 0 && all_digits(digits) && digits_value(digits) <= u64::MAX {
        Some(digits_value(digits) as u64)
    } else {
        None
    }
}

/// Writes a number in decimal.
pub fn number(n: u64) -> (r: String)
    ensures
        r@ == decimal(n as nat),
    decreases n,
{
    let last: char = (48u8 + (n % 10) as u8) as char;
    let mut out = if n < 10 {
        String::new()
    } else {
        number(n / 10)
    };
    out.push(last);
    proof {
        if n < 10 {
            assert(out@ =~= decimal(n as nat));
        }
    }
    out
}

/// A prefix of digits that is too large stays too large.
proof fn lemma_value_grows(digits: Seq<char>, n: int)
    requires
        0 <= n <= digits.len(),
    ensures
        digits_value(digits.take(n)) <= digits_value(digits),
    decreases digits.len() - n,
{
    if n < digits.len() {
        lemma_value_grows(digits, n + 1);
        assert(digits.take(n + 1).drop_last() =~= digits.take(n));
    } else {
        assert(digits.take(n) =~= digits);
    }
}

/// Reads a number.
pub fn parse_number(text: &str) -> (r: Option<u64>)
    ensures
        r == read_number(text@),
{
    let all = chars(text);
    let start: usize = if all.len() > 0 && all[0] == '+' {
        1
    } else {
        0
    };
    let ghost digits = number_part(text@);
    assert(digits =~= text@.skip(start as int));
    if start >= all.len() {
        return None;
    }
    let mut value: u64 = 0;
    for i in start..all.len()
        invariant
            all@ == text@,
            start <= all@.len(),
            digits == number_part(text@),
            digits == text@.skip(start as int),
            all_digits(digits.take(i - start)),
            value == digits_value(digits.take(i - start)),
    {
        let c: char = all[i];
        assert(c == digits[i - start]);
        if c < '0' || c > '9' {
            return None;
        }
        let d: u64 = (c as u32 - '0' as u32) as u64;
        proof {
            assert(digits.take(i + 1 - start).drop_last() =~= digits.take(i - start));
            assert(digits_value(digits.take(i + 1 - start)) == value * 10 + d);
            lemma_value_grows(digits, i + 1 - start);
        }
        if value > (u64::MAX - d) / 10 {
            return None;
        }
        value = value * 10 + d;
        assert(all_digits(digits.take(i + 1 - start))) by {
            assert forall|j: int| 0 <= j < i + 1 - start implies is_digit(
                #[trigger] digits.take(i + 1 - start)[j],
            ) by {
                if j < i - start {
                    assert(digits.take(i - start)[j] == digits[j]);
                }
            }
        }
    }
    assert(digits.take(all@.len() - start) =~= digits);
    Some(value)
}

/// What a number is written as is read as that number again.
pub proof fn law_numbers_read_back(n: u64)
    ensures
        read_number(decimal(n as nat)) == Some(n),
{
    lemma_decimal(n as nat);
}

pub proof fn lemma_decimal(n: nat)
    ensures
        decimal(n).len() > 0,
        all_digits(decimal(n)),
        digits_value(decimal(n)) == n,
        decimal(n)[0] != '+',
    decreases n,
{
    if n < 10 {
        assert(decimal(n).drop_last() =~= Seq::<char>::empty());
        assert(digits_value(decimal(n).drop_last()) == 0);
    } else {
        lemma_decimal(n / 10);
        assert(decimal(n).drop_last() =~= decimal(n / 10));
    }
}

// ---- white space ----

/// The characters with the Unicode property White_Space.
pub open spec fn is_space(c: char) -> bool {
    ||| '\u{9}' <= c <= '\u{d}'
    ||| c == ' '
    ||| c == '\u{85}'
    ||| c == '\u{a0}'
    ||| c == '\u{1680}'
    ||| '\u{2000}' <= c <= '\u{200a}'
    ||| c == '\u{2028}'
    ||| c == '\u{2029}'
    ||| c == '\u{202f}'
    ||| c == '\u{205f}'
    ||| c == '\u{3000}'
}

pub fn space(c: char) -> (r: bool)
    ensures
        r == is_space(c),
{
    ('\u{9}' <= c && c <= '\u{d}') || c == ' ' || c == '\u{85}' || c == '\u{a0}' || c
        == '\u{1680}' || ('\u{2000}' <= c && c <= '\u{200a}') || c == '\u{2028}' || c
        == '\u{2029}' || c == '\u{202f}' || c == '\u{205f}' || c == '\u{3000}'
}

/// The text without the white space before it.
pub open spec fn trimmed_start(text: Seq<char>) -> Seq<char>
    decreases text.len(),
{
    if text.len() > 0 && is_space(text[0]) {
        trimmed_start(text.drop_first())
    } else {
        text
    }
}

/// The text without the white space behind it.
pub open spec fn trimmed_end(text: Seq<char>) -> Seq<char>
    decreases text.len(),
{
    if text.len() > 0 && is_space(text.last()) {
        trimmed_end(text.drop_last())
    } else {
        text
    }
}

/// The text without the white space around it.
pub open spec fn trimmed(text: Seq<char>) -> Seq<char> {
    trimmed_end(trimmed_start(text))
}

pub fn trim(text: &str) -> (r: String)
    ensures
        r@ == trimmed(text@),
{
    let all = chars(text);
    let mut from: usize = 0;
    assert(all@.skip(0) =~= all@);
    while from < all.len() && space(all[from])
        invariant
            from <= all@.len(),
            trimmed_start(all@) == trimmed_start(all@.skip(from as int)),
        decreases all.len() - from,
    {
        assert(all@.skip(from as int).drop_first() =~= all@.skip(from + 1));
        from = from + 1;
    }
    let ghost rest = all@.skip(from as int);
    assert(trimmed_start(all@) == rest);
    let mut to: usize = all.len();
    assert(all@.subrange(from as int, to as int) =~= rest);
    while to > from && space(all[to - 1])
        invariant
            from <= to <= all@.len(),
            rest == all@.skip(from as int),
            trimmed_end(rest) == trimmed_end(all@.subrange(from as int, to as int)),
        decreases to,
    {
        assert(all@.subrange(from as int, to as int).drop_last() =~= all@.subrange(
            from as int,
            to - 1,
        ));
        to = to - 1;
    }
    text_of(&all, from, to)
}

// ---- searching ----

/// `part` stands in `text` at place `i`.
pub open spec fn stands_at(text: Seq<char>, part: Seq<char>, i: int) -> bool {
    &&& 0 <= i
    &&& i + part.len() <= text.len()
    &&& text.subrange(i, i + part.len()) == part
}

/// `part` stands somewhere in `text`.
pub open spec fn holds(text: Seq<char>, part: Seq<char>) -> bool {
    exists|i: int| stands_at(text, part, i)
}

/// Whether `part` stands in `all` at place `i`.
pub fn matches_at(all: &Vec<char>, part: &Vec<char>, i: usize) -> (r: bool)
    ensures
        r == stands_at(all@, part@, i as int),
{
    if i > all.len() || part.len() > all.len() - i {
        return false;
    }
    for k in 0..part.len()
        invariant
            i + part@.len() <= all.len(),
            forall|j: int| 0 <= j < k ==> #[trigger] part@[j] == all@[i + j],
    {
        if all[i + k] != part[k] {
            assert(all@.subrange(i as int, i + part@.len())[k as int] != part@[k as int]);
            return false;
        }
    }
    assert(all@.subrange(i as int, i + part@.len()) =~= part@);
    true
}

pub fn contains(text: &str, part: &str) -> (r: bool)
    ensures
        r == holds(text@, part@),
{
    let all = chars(text);
    let wanted = chars(part);
    for i in 0..all.len()
        invariant
            all@ == text@,
            wanted@ == part@,
            forall|j: int| 0 <= j < i ==> !#[trigger] stands_at(text@, part@, j),
    {
        if matches_at(&all, &wanted, i) {
            return true;
        }
    }
    matches_at(&all, &wanted, all.len())
}

/// `text` begins with `prefix`.
pub open spec fn begins(text: Seq<char>, prefix: Seq<char>) -> bool {
    stands_at(text, prefix, 0)
}

/// What follows `prefix` in a text that begins with it.
pub fn after_prefix(text: &str, prefix: &str) -> (r: Option<String>)
    ensures
        r is Some <==> begins(text@, prefix@),
        r matches Some(rest) ==> rest@ == text@.skip(prefix@.len() as int),
{
    let all = chars(text);
    let wanted = chars(prefix);
    if matches_at(&all, &wanted, 0) {
        let rest = text_of(&all, wanted.len(), all.len());
        assert(rest@ =~= text@.skip(prefix@.len() as int));
        Some(rest)
    } else {
        None
    }
}

// ---- lines and words ----

/// The place of the first `c` at or after `from`, or the end of the text.
pub open spec fn place_of(text: Seq<char>, c: char, from: int) -> int
    decreases text.len() - from,
{
    if from >= text.len() || text[from] == c {
        from
    } else {
        place_of(text, c, from + 1)
    }
}

/// A line without the carriage return that belongs to its end.
pub open spec fn without_return(line: Seq<char>) -> Seq<char> {
    if line.len() > 0 && line.last() == '\r' {
        line.drop_last()
    } else {
        line
    }
}

/// The lines of a text from place `from` on. A line ends with a line feed, or with a
/// carriage return and a line feed; an empty line at the very end is none.
pub open spec fn lines_from(text: Seq<char>, from: int) -> Seq<Seq<char>>
    decreases text.len() - from,
{
    if from < 0 || from >= text.len() {
        seq![]
    } else {
        let end = place_of(text, '\n', from);
        if end < from || end >= text.len() {
            seq![text.skip(from)]
        } else {
            seq![without_return(text.subrange(from, end))] + lines_from(text, end + 1)
        }
    }
}

/// The lines of a text.
pub open spec fn lines_of(text: Seq<char>) -> Seq<Seq<char>> {
    lines_from(text, 0)
}

pub fn lines(text: &str) -> (r: Vec<String>)
    ensures
        texts(r@) == lines_of(text@),
{
    let all = chars(text);
    let mut out: Vec<String> = Vec::new();
    let mut from: usize = 0;
    assert(texts(out@) =~= seq![]);
    while from < all.len()
        invariant
            all@ == text@,
            from <= all@.len(),
            texts(out@) + lines_from(text@, from as int) == lines_of(text@),
        decreases all.len() - from,
    {
        let ghost before = out@;
        let ghost start = from as int;
        let mut end: usize = from;
        while end < all.len() && all[end] != '\n'
            invariant
                all@ == text@,
                from <= end <= all@.len(),
                place_of(text@, '\n', from as int) == place_of(text@, '\n', end as int),
            decreases all.len() - end,
        {
            end = end + 1;
        }
        if end >= all.len() {
            out.push(text_of(&all, from, end));
            proof {
                assert(out@.last()@ =~= text@.skip(start));
                assert(texts(out@) =~= texts(before).push(text@.skip(start)));
                assert(lines_from(text@, start) =~= seq![text@.skip(start)]);
            }
            from = end;
        } else {
            let stop: usize = if end > from && all[end - 1] == '\r' {
                end - 1
            } else {
                end
            };
            out.push(text_of(&all, from, stop));
            proof {
                let line = without_return(text@.subrange(start, end as int));
                assert(out@.last()@ =~= line);
                assert(texts(out@) =~= texts(before).push(line));
                assert(texts(before) + (seq![line] + lines_from(text@, end + 1)) =~= texts(
                    before,
                ).push(line) + lines_from(text@, end + 1));
            }
            from = end + 1;
        }
    }
    assert(lines_from(text@, from as int) =~= seq![]);
    assert(texts(out@) + seq![] =~= texts(out@));
    out
}

/// The place of the first white space at or after `from`, or the end of the text.
pub open spec fn word_end(text: Seq<char>, from: int) -> int
    decreases text.len() - from,
{
    if from >= text.len() || is_space(text[from]) {
        from
    } else {
        word_end(text, from + 1)
    }
}

proof fn lemma_word_end(text: Seq<char>, from: int)
    requires
        0 <= from <= text.len(),
    ensures
        from <= word_end(text, from) <= text.len(),
    decreases text.len() - from,
{
    if from < text.len() && !is_space(text[from]) {
        lemma_word_end(text, from + 1);
    }
}

/// The words of a text from place `from` on: its parts between white space.
pub open spec fn words_from(text: Seq<char>, from: int) -> Seq<Seq<char>>
    decreases text.len() - from,
{
    if from < 0 || from >= text.len() {
        seq![]
    } else if is_space(text[from]) {
        words_from(text, from + 1)
    } else {
        let end = word_end(text, from + 1);
        if end <= from || end > text.len() {
            seq![]
        } else {
            seq![text.subrange(from, end)] + words_from(text, end)
        }
    }
}

/// The words of a text.
pub open spec fn words_of(text: Seq<char>) -> Seq<Seq<char>> {
    words_from(text, 0)
}

pub fn words(text: &str) -> (r: Vec<String>)
    ensures
        texts(r@) == words_of(text@),
{
    let all = chars(text);
    let mut out: Vec<String> = Vec::new();
    let mut from: usize = 0;
    assert(texts(out@) =~= seq![]);
    while from < all.len()
        invariant
            all@ == text@,
            from <= all@.len(),
            texts(out@) + words_from(text@, from as int) == words_of(text@),
        decreases all.len() - from,
    {
        let ghost before = out@;
        let ghost start = from as int;
        if space(all[from]) {
            from = from + 1;
        } else {
            let mut end: usize = from + 1;
            while end < all.len() && !space(all[end])
                invariant
                    all@ == text@,
                    from < end <= all@.len(),
                    word_end(text@, from + 1) == word_end(text@, end as int),
                decreases all.len() - end,
            {
                end = end + 1;
            }
            proof {
                lemma_word_end(text@, start + 1);
            }
            out.push(text_of(&all, from, end));
            proof {
                let word = text@.subrange(start, end as int);
                assert(texts(out@) =~= texts(before).push(word));
                assert(texts(before) + (seq![word] + words_from(text@, end as int)) =~= texts(
                    before,
                ).push(word) + words_from(text@, end as int));
            }
            from = end;
        }
    }
    assert(words_from(text@, from as int) =~= seq![]);
    assert(texts(out@) + seq![] =~= texts(out@));
    out
}

/// The texts of a list with `between` between them.
pub open spec fn with_between(list: Seq<Seq<char>>, between: Seq<char>) -> Seq<char>
    decreases list.len(),
{
    if list.len() == 0 {
        seq![]
    } else if list.len() == 1 {
        list[0]
    } else {
        with_between(list.drop_last(), between) + between + list.last()
    }
}

pub fn join(list: &Vec<String>, between: &str) -> (r: String)
    ensures
        r@ == with_between(texts(list@), between@),
{
    let mut out = String::new();
    for i in 0..list.len()
        invariant
            out@ == with_between(texts(list@).take(i as int), between@),
    {
        if i > 0 {
            out.append(between);
        }
        out.append(list[i].as_str());
        proof {
            let now = texts(list@).take(i + 1);
            assert(now.drop_last() =~= texts(list@).take(i as int));
            assert(now.last() == list@[i as int]@);
            if i == 0 {
                assert(out@ =~= now[0]);
            }
        }
    }
    assert(texts(list@).take(list@.len() as int) =~= texts(list@));
    out
}

// ---- order ----

/// `a` comes no later than `b`: at the first place where they differ `a` has the
/// smaller character, or `a` is where `b` begins.
pub open spec fn text_le(a: Seq<char>, b: Seq<char>) -> bool
    decreases a.len(),
{
    if a.len() == 0 {
        true
    } else if b.len() == 0 {
        false
    } else if a[0] != b[0] {
        a[0] < b[0]
    } else {
        text_le(a.drop_first(), b.drop_first())
    }
}

/// The order is total, and so one of two texts comes no later than the other.
pub proof fn law_texts_compare(a: Seq<char>, b: Seq<char>)
    ensures
        text_le(a, b) || text_le(b, a),
    decreases a.len(),
{
    if a.len() > 0 && b.len() > 0 && a[0] == b[0] {
        law_texts_compare(a.drop_first(), b.drop_first());
    }
}

/// The order passes on: what comes no later than one that comes no later.
pub proof fn law_texts_chain(a: Seq<char>, b: Seq<char>, c: Seq<char>)
    requires
        text_le(a, b),
        text_le(b, c),
    ensures
        text_le(a, c),
    decreases a.len(),
{
    if a.len() > 0 && b.len() > 0 && c.len() > 0 && a[0] == b[0] && b[0] == c[0] {
        law_texts_chain(a.drop_first(), b.drop_first(), c.drop_first());
    }
}

/// Only a text itself comes both no later and no earlier.
pub proof fn law_texts_meet(a: Seq<char>, b: Seq<char>)
    requires
        text_le(a, b),
        text_le(b, a),
    ensures
        a == b,
    decreases a.len(),
{
    if a.len() > 0 && b.len() > 0 {
        law_texts_meet(a.drop_first(), b.drop_first());
        assert(a =~= seq![a[0]] + a.drop_first());
        assert(b =~= seq![b[0]] + b.drop_first());
    }
    assert(a =~= b);
}

pub fn comes_first(a: &str, b: &str) -> (r: bool)
    ensures
        r == text_le(a@, b@),
{
    let x = chars(a);
    let y = chars(b);
    let mut i: usize = 0;
    assert(x@.skip(0) =~= a@);
    assert(y@.skip(0) =~= b@);
    while i < x.len()
        invariant
            x@ == a@,
            y@ == b@,
            i <= x@.len(),
            i <= y@.len(),
            text_le(a@, b@) == text_le(x@.skip(i as int), y@.skip(i as int)),
        decreases x.len() - i,
    {
        if i >= y.len() {
            return false;
        }
        if x[i] != y[i] {
            return x[i] < y[i];
        }
        assert(x@.skip(i as int).drop_first() =~= x@.skip(i + 1));
        assert(y@.skip(i as int).drop_first() =~= y@.skip(i + 1));
        i = i + 1;
    }
    true
}

pub open spec fn in_order(list: Seq<Seq<char>>) -> bool {
    forall|i: int, j: int|
        0 <= i <= j < list.len() ==> #[trigger] text_le(#[trigger] list[i], #[trigger] list[j])
}

/// The texts of a list in order.
pub fn sorted(list: &Vec<String>) -> (r: Vec<String>)
    ensures
        in_order(texts(r@)),
        texts(r@).to_multiset() == texts(list@).to_multiset(),
{
    let mut out: Vec<String> = Vec::new();
    assert(texts(out@) =~= texts(list@).take(0));
    for n in 0..list.len()
        invariant
            in_order(texts(out@)),
            texts(out@).to_multiset() == texts(list@).take(n as int).to_multiset(),
    {
        let ghost before = texts(out@);
        let ghost new = list@[n as int]@;
        let mut at: usize = 0;
        while at < out.len() && comes_first(out[at].as_str(), list[n].as_str())
            invariant
                at <= out@.len(),
                before == texts(out@),
                new == list@[n as int]@,
                n < list@.len(),
                forall|i: int| 0 <= i < at ==> text_le(#[trigger] before[i], new),
            decreases out.len() - at,
        {
            assert(before[at as int] == out@[at as int]@);
            at = at + 1;
        }
        proof {
            if at < out@.len() {
                assert(before[at as int] == out@[at as int]@);
                law_texts_compare(before[at as int], new);
            }
        }
        out.insert(at, list[n].clone());
        proof {
            let after = texts(out@);
            assert(after =~= before.insert(at as int, new));
            assert(in_order(after)) by {
                assert forall|i: int, j: int| 0 <= i <= j < after.len() implies #[trigger] text_le(
                    #[trigger] after[i],
                    #[trigger] after[j],
                ) by {
                    if i == at && j == at {
                        law_texts_compare(new, new);
                    } else if j == at {
                    } else if i == at {
                        assert(before[at as int] == before[at as int]);
                        law_texts_chain(new, before[at as int], before[j - 1]);
                    } else {
                        let a = if i < at {
                            i
                        } else {
                            i - 1
                        };
                        let b = if j < at {
                            j
                        } else {
                            j - 1
                        };
                        assert(text_le(before[a], before[b]));
                    }
                }
            }
            assert(texts(list@).take(n + 1) =~= texts(list@).take(n as int).push(new));
            assert(after.remove(at as int) =~= before);
            assert(after.contains(after[at as int]));
            vstd::seq_lib::to_multiset_remove(after, at as int);
            after.to_multiset_ensures();
            assert(after.to_multiset() =~= before.to_multiset().insert(new));
            vstd::seq_lib::to_multiset_build(texts(list@).take(n as int), new);
        }
    }
    assert(texts(list@).take(list@.len() as int) =~= texts(list@));
    out
}

/// A whole number with its sign.
pub open spec fn signed(n: int) -> Seq<char> {
    if n < 0 {
        "-"@ + decimal((-n) as nat)
    } else {
        decimal(n as nat)
    }
}

pub fn signed_number(n: i64) -> (r: String)
    ensures
        r@ == signed(n as int),
{
    if n < 0 {
        let mut out = "-".to_owned();
        out.append(number((-(n as i128)) as u64).as_str());
        out
    } else {
        number(n as u64)
    }
}

/// The last digit of a number is its ones, and the digits before it are those of the rest;
/// a number of more than one digit does not begin with a zero.
pub proof fn law_digits_by_place(n: nat)
    ensures
        n < 10 ==> decimal(n).len() == 1,
        decimal(n).last() as nat == 48 + n % 10,
        n >= 10 ==> decimal(n).drop_last() == decimal(n / 10),
        n > 0 ==> decimal(n)[0] != '0',
    decreases n,
{
    if n >= 10 {
        law_digits_by_place(n / 10);
        lemma_decimal(n / 10);
        assert(decimal(n).drop_last() =~= decimal(n / 10));
    }
}

/// A text is read as a number just where it is digits behind an optional plus, at least one
/// and not too large.
pub proof fn law_only_digits_are_numbers(text: Seq<char>)
    ensures
        text.len() == 0 ==> read_number(text) is None,
        read_number(text) is Some ==> (forall|i: int|
            0 < i < text.len() ==> '0' <= #[trigger] text[i] <= '9'),
        read_number(text) is Some && text[0] != '+' ==> '0' <= text[0] <= '9',
        text.len() == 1 && '0' <= text[0] <= '9' ==> read_number(text) == Some(
            (text[0] as nat - 48) as u64,
        ),
{
    if read_number(text) is Some {
        assert forall|i: int| 0 < i < text.len() implies '0' <= #[trigger] text[i] <= '9' by {
            if text[0] == '+' {
                assert(number_part(text)[i - 1] == text[i]);
            }
        }
    }
    if text.len() == 1 && '0' <= text[0] <= '9' {
        assert(text.drop_last() =~= Seq::<char>::empty());
        assert(digits_value(text.drop_last()) == 0);
    }
}

proof fn lemma_trimmed_start(text: Seq<char>) -> (n: int)
    ensures
        0 <= n <= text.len(),
        trimmed_start(text) == text.skip(n),
        forall|i: int| 0 <= i < n ==> is_space(#[trigger] text[i]),
        n < text.len() ==> !is_space(text[n]),
    decreases text.len(),
{
    if text.len() > 0 && is_space(text[0]) {
        let m = lemma_trimmed_start(text.drop_first());
        assert(text.drop_first().skip(m) =~= text.skip(m + 1));
        assert forall|i: int| 0 <= i < m + 1 implies is_space(#[trigger] text[i]) by {
            if i > 0 {
                assert(text.drop_first()[i - 1] == text[i]);
            }
        }
        m + 1
    } else {
        assert(text.skip(0) =~= text);
        0
    }
}

proof fn lemma_trimmed_end(text: Seq<char>) -> (n: int)
    ensures
        0 <= n <= text.len(),
        trimmed_end(text) == text.take(n),
        forall|i: int| n <= i < text.len() ==> is_space(#[trigger] text[i]),
        n > 0 ==> !is_space(text[n - 1]),
    decreases text.len(),
{
    if text.len() > 0 && is_space(text.last()) {
        let m = lemma_trimmed_end(text.drop_last());
        assert(text.drop_last().take(m) =~= text.take(m));
        assert forall|i: int| m <= i < text.len() implies is_space(#[trigger] text[i]) by {
            if i < text.len() - 1 {
                assert(text.drop_last()[i] == text[i]);
            }
        }
        m
    } else {
        assert(text.take(text.len() as int) =~= text);
        text.len() as int
    }
}

/// Trimming takes white space off both ends and nothing else, and leaves none there.
pub proof fn law_trimming_takes_the_ends(text: Seq<char>)
    ensures
        exists|from: int, to: int|
            {
                &&& 0 <= from <= to <= text.len()
                &&& trimmed(text) == #[trigger] text.subrange(from, to)
                &&& forall|i: int| 0 <= i < from ==> is_space(#[trigger] text[i])
                &&& forall|i: int| to <= i < text.len() ==> is_space(#[trigger] text[i])
            },
        trimmed(text).len() > 0 ==> !is_space(trimmed(text)[0]) && !is_space(trimmed(text).last()),
        trimmed(text).len() == 0 <==> forall|i: int| 0 <= i < text.len() ==> is_space(#[trigger] text[i]),
        text.len() > 0 && !is_space(text[0]) && !is_space(text.last()) ==> trimmed(text) == text,
{
    let from = lemma_trimmed_start(text);
    let rest = text.skip(from);
    let n = lemma_trimmed_end(rest);
    let to = from + n;
    assert(trimmed(text) =~= text.subrange(from, to));
    assert forall|i: int| to <= i < text.len() implies is_space(#[trigger] text[i]) by {
        assert(rest[i - from] == text[i]);
    }
    if n > 0 {
        assert(rest[0] == text[from]);
        assert(rest[n - 1] == text[to - 1]);
    }
    if text.len() > 0 && !is_space(text[0]) && !is_space(text.last()) {
        assert(from == 0);
        assert(to == text.len());
        assert(text.subrange(0, text.len() as int) =~= text);
    }
    if trimmed(text).len() == 0 {
        assert forall|i: int| 0 <= i < text.len() implies is_space(#[trigger] text[i]) by {
            if i >= from {
                assert(rest[i - from] == text[i]);
            }
        }
    }
}

/// The white space of ASCII is white space, and the visible characters are not.
pub proof fn law_ascii_spaces(c: char)
    ensures
        c == ' ' || c == '\t' || c == '\n' || c == '\r' ==> is_space(c),
        c == '\u{3000}' ==> is_space(c),
        '!' <= c <= '~' ==> !is_space(c),
{
}

/// The place of a character is the first where it stands, or the end.
pub proof fn law_first_place_is_found(text: Seq<char>, c: char, from: int)
    requires
        0 <= from <= text.len(),
    ensures
        from <= place_of(text, c, from) <= text.len(),
        place_of(text, c, from) < text.len() ==> text[place_of(text, c, from)] == c,
        forall|i: int| from <= i < place_of(text, c, from) ==> #[trigger] text[i] != c,
    decreases text.len() - from,
{
    if from < text.len() && text[from] != c {
        law_first_place_is_found(text, c, from + 1);
    }
}

proof fn lemma_place_shifts(a: Seq<char>, b: Seq<char>, c: char, from: int)
    requires
        0 <= from <= b.len(),
    ensures
        place_of(a + b, c, a.len() + from) == a.len() + place_of(b, c, from),
    decreases b.len() - from,
{
    if from < b.len() {
        assert((a + b)[a.len() + from] == b[from]);
        if b[from] != c {
            lemma_place_shifts(a, b, c, from + 1);
        }
    }
}

proof fn lemma_lines_shift(a: Seq<char>, b: Seq<char>, from: int)
    requires
        0 <= from <= b.len(),
    ensures
        lines_from(a + b, a.len() + from) == lines_from(b, from),
    decreases b.len() - from,
{
    if from < b.len() {
        lemma_place_shifts(a, b, '\n', from);
        law_first_place_is_found(b, '\n', from);
        let end = place_of(b, '\n', from);
        assert((a + b).skip(a.len() + from) =~= b.skip(from));
        if end < b.len() {
            assert((a + b).subrange(a.len() + from, a.len() + end) =~= b.subrange(from, end));
            lemma_lines_shift(a, b, end + 1);
        }
    }
}

proof fn lemma_place_behind(line: Seq<char>, rest: Seq<char>, c: char, from: int)
    requires
        0 <= from <= line.len(),
        forall|i: int| 0 <= i < line.len() ==> #[trigger] line[i] != c,
    ensures
        place_of(line + seq![c] + rest, c, from) == line.len(),
    decreases line.len() - from,
{
    let text = line + seq![c] + rest;
    if from < line.len() {
        assert(text[from] == line[from]);
        lemma_place_behind(line, rest, c, from + 1);
    }
}

/// A line feed ends a line, without the carriage return that may stand before it, and the
/// lines of what follows are the lines that follow. What has no line feed is one line.
pub proof fn law_line_feeds_end_lines(line: Seq<char>, rest: Seq<char>)
    requires
        forall|i: int| 0 <= i < line.len() ==> #[trigger] line[i] != '\n',
    ensures
        lines_of(line + seq!['\n'] + rest) == seq![without_return(line)] + lines_of(rest),
        line.len() > 0 ==> lines_of(line) == seq![line],
        lines_of(Seq::<char>::empty()).len() == 0,
        line.len() > 0 && line.last() == '\r' ==> without_return(line) == line.drop_last(),
        line.len() == 0 || line.last() != '\r' ==> without_return(line) == line,
{
    let text = line + seq!['\n'] + rest;
    lemma_place_behind(line, rest, '\n', 0);
    assert(text.subrange(0, line.len() as int) =~= line);
    assert(text =~= (line + seq!['\n']) + rest);
    lemma_lines_shift(line + seq!['\n'], rest, 0);
    law_first_place_is_found(line, '\n', 0);
    if line.len() > 0 {
        if place_of(line, '\n', 0) < line.len() {
            assert(line[place_of(line, '\n', 0)] == '\n');
        }
        assert(line.skip(0) =~= line);
    }
}

proof fn lemma_word_end_shifts(a: Seq<char>, b: Seq<char>, from: int)
    requires
        0 <= from <= b.len(),
    ensures
        word_end(a + b, a.len() + from) == a.len() + word_end(b, from),
    decreases b.len() - from,
{
    if from < b.len() {
        assert((a + b)[a.len() + from] == b[from]);
        if !is_space(b[from]) {
            lemma_word_end_shifts(a, b, from + 1);
        }
    }
}

proof fn lemma_words_shift(a: Seq<char>, b: Seq<char>, from: int)
    requires
        0 <= from <= b.len(),
    ensures
        words_from(a + b, a.len() + from) == words_from(b, from),
    decreases b.len() - from,
{
    if from < b.len() {
        assert((a + b)[a.len() + from] == b[from]);
        if is_space(b[from]) {
            lemma_words_shift(a, b, from + 1);
        } else {
            lemma_word_end_shifts(a, b, from + 1);
            lemma_word_end(b, from + 1);
            let end = word_end(b, from + 1);
            assert((a + b).subrange(a.len() + from, a.len() + end) =~= b.subrange(from, end));
            lemma_words_shift(a, b, end);
        }
    }
}

proof fn lemma_word_end_behind(word: Seq<char>, space: char, rest: Seq<char>, from: int)
    requires
        0 <= from <= word.len(),
        is_space(space),
        forall|i: int| 0 <= i < word.len() ==> !is_space(#[trigger] word[i]),
    ensures
        word_end(word + seq![space] + rest, from) == word.len(),
        word_end(word, from) == word.len(),
    decreases word.len() - from,
{
    let text = word + seq![space] + rest;
    if from < word.len() {
        assert(text[from] == word[from]);
        lemma_word_end_behind(word, space, rest, from + 1);
    }
}

/// White space ends a word, and the words of what follows are the words that follow; white
/// space at the beginning does not count. What has no white space is one word.
pub proof fn law_spaces_end_words(word: Seq<char>, space: char, rest: Seq<char>)
    requires
        is_space(space),
        word.len() > 0,
        forall|i: int| 0 <= i < word.len() ==> !is_space(#[trigger] word[i]),
    ensures
        words_of(word + seq![space] + rest) == seq![word] + words_of(rest),
        words_of(word) == seq![word],
        words_of(seq![space] + rest) == words_of(rest),
        words_of(Seq::<char>::empty()).len() == 0,
{
    let text = word + seq![space] + rest;
    let n = word.len() as int;
    lemma_word_end_behind(word, space, rest, 1);
    assert(text[0] == word[0]);
    assert(text.subrange(0, n) =~= word);
    assert(word.subrange(0, n) =~= word);
    assert(words_from(word, n) =~= seq![]);
    assert(words_of(word) =~= seq![word]);
    assert(text =~= (word + seq![space]) + rest);
    lemma_words_shift(word + seq![space], rest, 0);
    assert(text[n] == space);
    assert(words_from(text, n) == words_from(text, n + 1));
    lemma_words_shift(seq![space], rest, 0);
    assert((seq![space] + rest)[0] == space);
}

/// Texts are joined in their order with the same text between any two of them.
pub proof fn law_texts_join_in_order(a: Seq<Seq<char>>, b: Seq<Seq<char>>, between: Seq<char>)
    ensures
        with_between(Seq::<Seq<char>>::empty(), between).len() == 0,
        a.len() == 1 ==> with_between(a, between) == a[0],
        a.len() > 0 && b.len() > 0 ==> with_between(a + b, between) == with_between(a, between)
            + between + with_between(b, between),
    decreases b.len(),
{
    if a.len() > 0 && b.len() > 0 {
        assert((a + b).last() == b.last());
        assert((a + b).drop_last() =~= a + b.drop_last());
        law_texts_join_in_order(a, b.drop_last(), between);
        if b.len() == 1 {
            assert(a + b.drop_last() =~= a);
        }
        assert(with_between(a + b, between) =~= with_between(a, between) + between + with_between(
            b,
            between,
        ));
    }
}

/// A text comes before what it is the beginning of, and of two texts that differ the one
/// with the smaller character at the first difference comes first.
pub proof fn law_texts_order_by_character(
    same: Seq<char>,
    c: char,
    d: char,
    x: Seq<char>,
    y: Seq<char>,
)
    ensures
        text_le(same, same + x),
        x.len() > 0 ==> !text_le(same + x, same),
        c < d ==> text_le(same + seq![c] + x, same + seq![d] + y) && !text_le(
            same + seq![d] + y,
            same + seq![c] + x,
        ),
    decreases same.len(),
{
    let a = same + seq![c] + x;
    let b = same + seq![d] + y;
    if same.len() > 0 {
        let rest = same.drop_first();
        law_texts_order_by_character(rest, c, d, x, y);
        assert((same + x).drop_first() =~= rest + x);
        assert(a.drop_first() =~= rest + seq![c] + x);
        assert(b.drop_first() =~= rest + seq![d] + y);
    } else {
        assert(same + x =~= x);
        assert(a[0] == c && b[0] == d);
    }
}

/// A negative number has a minus before its digits.
pub proof fn law_minus_stands_first(n: nat)
    ensures
        signed(n as int) == decimal(n),
        n > 0 ==> signed(-n) == seq!['-'] + decimal(n),
{
    reveal_strlit("-");
    assert("-"@ =~= seq!['-']);
}

} // verus!
