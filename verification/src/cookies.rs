//! Login cookies: how they are handed over, what went wrong with them, and what the
//! user is told. Nothing here starts a process.

use crate::paths::{file_name, file_name_before};
use crate::text::{
    after_prefix, begins, chars, contains, decimal, holds, joined, lines, lines_of, number, same,
    text_of, texts, trim, trimmed,
};
use vstd::prelude::*;
use vstd::string::*;

verus! {

/// The environment variable that names the browser.
pub const ENV_VAR: &'static str = "TUITUBE_COOKIES_FROM_BROWSER";

/// Feeds are cut off at this length: they can run to hundreds of rows.
pub const FEED_LIMIT: usize = 30;

/// Where the cookies come from. Neither the browser nor the file is checked: what is
/// accepted changes with the downloader, so checking is left to it.
#[derive(Debug, PartialEq, Eq)]
pub enum CookieSource {
    /// BROWSER[+KEYRING][:PROFILE][::CONTAINER].
    Browser(String),
    /// The path of an exported cookie file.
    File(String),
}

impl Clone for CookieSource {
    fn clone(&self) -> (r: Self)
        ensures
            r == *self,
    {
        match self {
            CookieSource::Browser(spec) => CookieSource::Browser(spec.clone()),
            CookieSource::File(path) => CookieSource::File(path.clone()),
        }
    }
}

/// The place of the first colon or plus at or after `from`, or the end.
pub open spec fn browser_end(spec: Seq<char>, from: int) -> int
    decreases spec.len() - from,
{
    if from >= spec.len() || spec[from] == ':' || spec[from] == '+' {
        from
    } else {
        browser_end(spec, from + 1)
    }
}

/// An ASCII capital letter as a small one; other characters as they are.
pub open spec fn ascii_small(c: char) -> char {
    if 'A' <= c <= 'Z' {
        (c as u32 + 32) as char
    } else {
        c
    }
}

/// `text` is `word` but for the case of ASCII letters; `word` has no capitals.
pub open spec fn is_word(text: Seq<char>, word: Seq<char>) -> bool {
    &&& text.len() == word.len()
    &&& forall|i: int| 0 <= i < text.len() ==> ascii_small(#[trigger] text[i]) == word[i]
}

fn small(c: char) -> (r: char)
    ensures
        r == ascii_small(c),
{
    if 'A' <= c && c <= 'Z' {
        (c as u8 + 32) as char
    } else {
        c
    }
}

fn word_is(text: &str, word: &str) -> (r: bool)
    ensures
        r == is_word(text@, word@),
{
    let a = chars(text);
    let b = chars(word);
    if a.len() != b.len() {
        return false;
    }
    for i in 0..a.len()
        invariant
            a@ == text@,
            b@ == word@,
            a@.len() == b@.len(),
            forall|j: int| 0 <= j < i ==> ascii_small(#[trigger] text@[j]) == word@[j],
    {
        if small(a[i]) != b[i] {
            assert(ascii_small(text@[i as int]) != word@[i as int]);
            return false;
        }
    }
    true
}

impl CookieSource {
    pub open spec fn browser_text(self) -> Option<Seq<char>> {
        match self {
            CookieSource::Browser(spec) => Some(spec@.take(browser_end(spec@, 0))),
            CookieSource::File(_) => None,
        }
    }

    /// The name that messages use: the browser, or the name of the cookie file.
    pub open spec fn label_text(self) -> Seq<char> {
        match self {
            CookieSource::Browser(spec) => spec@.take(browser_end(spec@, 0)),
            CookieSource::File(path) => match file_name_before(path@, path@.len() as int) {
                Some(name) => name,
                None => path@,
            },
        }
    }

    pub open spec fn safari(self) -> bool {
        self.browser_text() matches Some(browser) && is_word(browser, "safari"@)
    }

    /// The settings file and the environment variable give the same kind of text.
    pub fn from_spec(value: Option<&str>) -> (r: Option<Self>)
        ensures
            r is Some <==> (value matches Some(text) && trimmed(text@).len() > 0),
            r matches Some(source) ==> (source matches CookieSource::Browser(spec) && spec@
                == trimmed(value->0@)),
    {
        match value {
            None => None,
            Some(text) => {
                let spec = trim(text);
                if spec.as_str().is_empty() {
                    None
                } else {
                    Some(CookieSource::Browser(spec))
                }
            },
        }
    }

    pub fn from_file(path: Option<&str>) -> (r: Option<Self>)
        ensures
            r is Some <==> (path matches Some(text) && text@.len() > 0),
            r matches Some(source) ==> (source matches CookieSource::File(file) && file@
                == path->0@),
    {
        match path {
            None => None,
            Some(text) => if text.is_empty() {
                None
            } else {
                Some(CookieSource::File(text.to_owned()))
            },
        }
    }

    pub fn spec(&self) -> (r: Option<&str>)
        ensures
            r is Some <==> *self is Browser,
            r matches Some(text) ==> (*self matches CookieSource::Browser(spec) && text@ == spec@),
    {
        match self {
            CookieSource::Browser(spec) => Some(spec.as_str()),
            CookieSource::File(_) => None,
        }
    }

    pub fn file(&self) -> (r: Option<&str>)
        ensures
            r is Some <==> *self is File,
            r matches Some(text) ==> (*self matches CookieSource::File(path) && text@ == path@),
    {
        match self {
            CookieSource::Browser(_) => None,
            CookieSource::File(path) => Some(path.as_str()),
        }
    }

    /// What stands before the first colon or plus: "chrome:Profile 1" is "chrome".
    pub fn browser(&self) -> (r: Option<String>)
        ensures
            crate::text::maybe_text(r) == self.browser_text(),
    {
        match self {
            CookieSource::File(_) => None,
            CookieSource::Browser(spec) => {
                let all = chars(spec.as_str());
                let mut end: usize = 0;
                while end < all.len() && all[end] != ':' && all[end] != '+'
                    invariant
                        all@ == spec@,
                        end <= all@.len(),
                        browser_end(spec@, 0) == browser_end(spec@, end as int),
                    decreases all.len() - end,
                {
                    end = end + 1;
                }
                let out = text_of(&all, 0, end);
                assert(out@ =~= spec@.take(browser_end(spec@, 0)));
                Some(out)
            },
        }
    }

    pub fn label(&self) -> (r: String)
        ensures
            r@ == self.label_text(),
    {
        match self {
            CookieSource::Browser(_) => match self.browser() {
                Some(browser) => browser,
                None => String::new(),
            },
            CookieSource::File(path) => match file_name(path.as_str()) {
                Some(name) => name,
                None => path.clone(),
            },
        }
    }

    /// The downloader's option for cookies from there.
    pub open spec fn option(self) -> Seq<char> {
        match self {
            CookieSource::Browser(_) => "--cookies-from-browser"@,
            CookieSource::File(_) => "--cookies"@,
        }
    }

    /// What stands behind that option.
    pub open spec fn value(self) -> Seq<char> {
        match self {
            CookieSource::Browser(spec) => spec@,
            CookieSource::File(path) => path@,
        }
    }

    /// No shell is involved, so nothing is quoted or escaped.
    pub fn yt_dlp_args(&self) -> (r: [String; 2])
        ensures
            r@[0]@ == self.option(),
            r@[1]@ == self.value(),
    {
        match self {
            CookieSource::Browser(spec) => ["--cookies-from-browser".to_owned(), spec.clone()],
            CookieSource::File(path) => ["--cookies".to_owned(), path.clone()],
        }
    }

    pub open spec fn mpv_text(self) -> Seq<char> {
        match self {
            CookieSource::Browser(spec) => "--ytdl-raw-options-append=cookies-from-browser="@
                + spec@,
            CookieSource::File(path) => "--ytdl-raw-options-append=cookies="@ + path@,
        }
    }

    /// Appended, so that it does not replace what the user's own configuration says.
    pub fn mpv_arg(&self) -> (r: String)
        ensures
            r@ == self.mpv_text(),
    {
        match self {
            CookieSource::Browser(spec) => {
                let mut out = "--ytdl-raw-options-append=cookies-from-browser=".to_owned();
                out.append(spec.as_str());
                out
            },
            CookieSource::File(path) => {
                let mut out = "--ytdl-raw-options-append=cookies=".to_owned();
                out.append(path.as_str());
                out
            },
        }
    }

    pub fn is_safari(&self) -> (r: bool)
        ensures
            r == self.safari(),
    {
        match self.browser() {
            Some(browser) => word_is(browser.as_str(), "safari"),
            None => false,
        }
    }
}

/// What came of the cookies in one run of the downloader.
#[derive(Debug, PartialEq, Eq)]
pub enum CookieOutcome {
    NotUsed,
    Accepted,
    /// They could not be decrypted, and the result is that of a visitor. The
    /// downloader reports success.
    Degraded(String),
    /// They could not be read, and nothing was searched.
    Unreadable(String),
    /// They were read, but nobody is logged in.
    LoginRequired,
    TimedOut,
    Unknown,
}

/// Warnings that only a failed decryption gives.
pub open spec fn degraded_marks() -> Seq<Seq<char>> {
    seq![
        "cannot decrypt v10 cookies"@,
        "find-generic-password failed"@,
        "could not be decrypted"@,
    ]
}

/// Messages that only a cookie store out of reach gives.
pub open spec fn store_marks() -> Seq<Seq<char>> {
    seq![
        "cookies database"@,
        "unsupported browser specified for cookies"@,
        "custom safari cookies database not found"@,
        "_parse_browser_specification()"@,
    ]
}

/// Messages of the operating system, which come for other reasons too.
pub open spec fn permission_marks() -> Seq<Seq<char>> {
    seq!["Operation not permitted"@, "Permission denied"@]
}

pub open spec fn login_mark() -> Seq<char> {
    "Login details are needed"@
}

/// One of the marks stands in the line.
pub open spec fn marked(line: Seq<char>, marks: Seq<Seq<char>>) -> bool {
    exists|i: int| 0 <= i < marks.len() && holds(line, #[trigger] marks[i])
}

fn degraded(line: &str) -> (r: bool)
    ensures
        r == marked(line@, degraded_marks()),
{
    let ghost marks = degraded_marks();
    let a = contains(line, "cannot decrypt v10 cookies");
    let b = contains(line, "find-generic-password failed");
    let c = contains(line, "could not be decrypted");
    assert(a == holds(line@, marks[0]));
    assert(b == holds(line@, marks[1]));
    assert(c == holds(line@, marks[2]));
    a || b || c
}

fn names_store(line: &str) -> (r: bool)
    ensures
        r == marked(line@, store_marks()),
{
    let ghost marks = store_marks();
    let a = contains(line, "cookies database");
    let b = contains(line, "unsupported browser specified for cookies");
    let c = contains(line, "custom safari cookies database not found");
    let d = contains(line, "_parse_browser_specification()");
    assert(a == holds(line@, marks[0]));
    assert(b == holds(line@, marks[1]));
    assert(c == holds(line@, marks[2]));
    assert(d == holds(line@, marks[3]));
    a || b || c || d
}

fn denied(line: &str) -> (r: bool)
    ensures
        r == marked(line@, permission_marks()),
{
    let ghost marks = permission_marks();
    let a = contains(line, "Operation not permitted");
    let b = contains(line, "Permission denied");
    assert(a == holds(line@, marks[0]));
    assert(b == holds(line@, marks[1]));
    a || b
}

/// A line without what the downloader puts before its messages.
pub open spec fn message_of(line: Seq<char>) -> Seq<char> {
    if begins(line, "yt-dlp: error: "@) {
        line.skip("yt-dlp: error: "@.len() as int)
    } else if begins(line, "ERROR: "@) {
        line.skip("ERROR: "@.len() as int)
    } else if begins(line, "WARNING: "@) {
        line.skip("WARNING: "@.len() as int)
    } else {
        line
    }
}

pub fn strip_prefix(line: &str) -> (r: String)
    ensures
        r@ == message_of(line@),
{
    if let Some(rest) = after_prefix(line, "yt-dlp: error: ") {
        return rest;
    }
    if let Some(rest) = after_prefix(line, "ERROR: ") {
        return rest;
    }
    if let Some(rest) = after_prefix(line, "WARNING: ") {
        return rest;
    }
    line.to_owned()
}

/// The lines of a text, each without the white space around it.
pub open spec fn trimmed_lines(text: Seq<char>) -> Seq<Seq<char>> {
    lines_of(text).map_values(|line: Seq<char>| trimmed(line))
}

pub fn lines_trimmed(text: &str) -> (r: Vec<String>)
    ensures
        texts(r@) == trimmed_lines(text@),
{
    let all = lines(text);
    let mut out: Vec<String> = Vec::new();
    for i in 0..all.len()
        invariant
            texts(all@) == lines_of(text@),
            texts(out@) == trimmed_lines(text@).take(i as int),
    {
        let ghost before = out@;
        out.push(trim(all[i].as_str()));
        proof {
            assert(all@[i as int]@ == texts(all@)[i as int]);
            assert(texts(out@) =~= texts(before).push(trimmed(lines_of(text@)[i as int])));
            assert(texts(out@) =~= trimmed_lines(text@).take(i + 1));
        }
    }
    assert(texts(all@).len() == all@.len());
    assert(trimmed_lines(text@).take(all@.len() as int) =~= trimmed_lines(text@));
    out
}

/// The message of the first line that is `wanted`: that one is the cause, what
/// follows are its consequences.
pub open spec fn first_message(
    list: Seq<Seq<char>>,
    wanted: spec_fn(int) -> bool,
    from: int,
) -> Option<Seq<char>>
    decreases list.len() - from,
{
    if from < 0 || from >= list.len() {
        None
    } else if wanted(from) {
        Some(message_of(list[from]))
    } else {
        first_message(list, wanted, from + 1)
    }
}

/// The message of the first line with one of the marks.
pub open spec fn marked_message(text: Seq<char>, marks: Seq<Seq<char>>) -> Option<Seq<char>> {
    first_message(trimmed_lines(text), |i: int| marked(trimmed_lines(text)[i], marks), 0)
}

/// Which marks a line is looked through for.
#[derive(Clone, Copy, PartialEq, Eq, Structural)]
enum Marks {
    Degraded,
    Unreadable,
}

impl Marks {
    spec fn texts(self) -> Seq<Seq<char>> {
        match self {
            Marks::Degraded => degraded_marks(),
            Marks::Unreadable => store_marks() + permission_marks(),
        }
    }

    fn mark(self, line: &str) -> (r: bool)
        ensures
            r == marked(line@, self.texts()),
    {
        match self {
            Marks::Degraded => degraded(line),
            Marks::Unreadable => {
                let a = names_store(line);
                let b = denied(line);
                proof {
                    let all = store_marks() + permission_marks();
                    if a {
                        let i = choose|i: int|
                            0 <= i < store_marks().len() && holds(
                                line@,
                                #[trigger] store_marks()[i],
                            );
                        assert(holds(line@, all[i]));
                    }
                    if b {
                        let i = choose|i: int|
                            0 <= i < permission_marks().len() && holds(
                                line@,
                                #[trigger] permission_marks()[i],
                            );
                        assert(all[store_marks().len() + i] == permission_marks()[i]);
                        assert(holds(line@, all[store_marks().len() + i]));
                    }
                    if marked(line@, all) {
                        let i = choose|i: int|
                            0 <= i < all.len() && holds(line@, #[trigger] all[i]);
                        if i < store_marks().len() {
                            assert(all[i] == store_marks()[i]);
                        } else {
                            assert(all[i] == permission_marks()[i - store_marks().len()]);
                        }
                    }
                }
                a || b
            },
        }
    }
}

fn marker_line(text: &str, marks: Marks) -> (r: Option<String>)
    ensures
        crate::text::maybe_text(r) == marked_message(text@, marks.texts()),
{
    let all = lines_trimmed(text);
    let ghost list = trimmed_lines(text@);
    let ghost wanted = |i: int| marked(trimmed_lines(text@)[i], marks.texts());
    assert(texts(all@).len() == all@.len());
    for i in 0..all.len()
        invariant
            texts(all@) == list,
            list.len() == all@.len(),
            list == trimmed_lines(text@),
            wanted == (|i: int| marked(trimmed_lines(text@)[i], marks.texts())),
            first_message(list, wanted, 0) == first_message(list, wanted, i as int),
    {
        assert(all@[i as int]@ == list[i as int]);
        if marks.mark(all[i].as_str()) {
            assert(wanted(i as int));
            return Some(strip_prefix(all[i].as_str()));
        }
        assert(!wanted(i as int));
    }
    None
}

/// The outcome that the exit code and the messages of the downloader stand for,
/// where cookies were handed over.
pub open spec fn is_outcome(code: Option<i32>, stderr: Seq<char>, outcome: CookieOutcome) -> bool {
    let failed = code != Some(0i32);
    match marked_message(stderr, degraded_marks()) {
        Some(detail) => outcome matches CookieOutcome::Degraded(text) && text@ == detail,
        None => match marked_message(stderr, store_marks() + permission_marks()) {
            Some(detail) if failed => outcome matches CookieOutcome::Unreadable(text) && text@
                == detail,
            _ => if holds(stderr, login_mark()) {
                outcome is LoginRequired
            } else if failed {
                outcome is Unknown
            } else {
                outcome is Accepted
            },
        },
    }
}

/// Tells from the exit code and the messages what came of the cookies.
pub fn classify(exit_code: Option<i32>, stderr: &str) -> (r: CookieOutcome)
    ensures
        is_outcome(exit_code, stderr@, r),
{
    if let Some(detail) = marker_line(stderr, Marks::Degraded) {
        return CookieOutcome::Degraded(detail);
    }
    let failed: bool = match exit_code {
        Some(code) => code != 0,
        None => true,
    };
    if failed {
        if let Some(detail) = marker_line(stderr, Marks::Unreadable) {
            return CookieOutcome::Unreadable(detail);
        }
    }
    if contains(stderr, "Login details are needed") {
        return CookieOutcome::LoginRequired;
    }
    if failed {
        return CookieOutcome::Unknown;
    }
    CookieOutcome::Accepted
}

/// A text in small letters, as `str::to_lowercase` has it.
pub uninterp spec fn lowered(text: Seq<char>) -> Seq<char>;

/// `str::to_lowercase`: the text in small letters. The Unicode mapping behind it is
/// not restated here.
#[verifier::external_body]
fn to_small(text: &str) -> (r: String)
    ensures
        r@ == lowered(text@),
{
    text.to_lowercase()
}

/// A line speaks of the cookies: by the word, in whatever case, or by the path of the
/// cookie file, whose name is up to the user.
pub open spec fn about_cookies(line: Seq<char>, small: Seq<char>, source: CookieSource) -> bool {
    ||| holds(small, "cookie"@)
    ||| source matches CookieSource::File(path) && holds(line, path@)
}

pub fn names_cookies(line: &str, small: &str, source: &CookieSource) -> (r: bool)
    ensures
        r == about_cookies(line@, small@, *source),
{
    if contains(small, "cookie") {
        return true;
    }
    match source.file() {
        Some(path) => contains(line, path),
        None => false,
    }
}

/// A line reports that the cookie store is out of reach. The player meets denied
/// permissions for other reasons too, so such a line has to speak of the cookies.
pub open spec fn store_failed(line: Seq<char>, small: Seq<char>, source: CookieSource) -> bool {
    ||| marked(line, store_marks())
    ||| marked(line, permission_marks()) && about_cookies(line, small, source)
}

/// The message of the first of those lines that blames the cookies; `small` holds the
/// same lines in small letters.
pub open spec fn store_message(
    list: Seq<Seq<char>>,
    small: Seq<Seq<char>>,
    source: CookieSource,
) -> Option<Seq<char>> {
    first_message(list, |i: int| store_failed(list[i], small[i], source), 0)
}

/// Looks through lines that were put in small letters already.
pub fn store_failure_in(list: &Vec<String>, small: &Vec<String>, source: &CookieSource) -> (r:
    Option<String>)
    requires
        list@.len() == small@.len(),
    ensures
        crate::text::maybe_text(r) == store_message(texts(list@), texts(small@), *source),
{
    let ghost all = texts(list@);
    let ghost low = texts(small@);
    let ghost wanted = |i: int| store_failed(all[i], low[i], *source);
    for i in 0..list.len()
        invariant
            list@.len() == small@.len(),
            all == texts(list@),
            low == texts(small@),
            wanted == (|i: int| store_failed(all[i], low[i], *source)),
            first_message(all, wanted, 0) == first_message(all, wanted, i as int),
    {
        assert(list@[i as int]@ == all[i as int] && small@[i as int]@ == low[i as int]);
        if names_store(list[i].as_str()) || (denied(list[i].as_str()) && names_cookies(
            list[i].as_str(),
            small[i].as_str(),
            source,
        )) {
            assert(wanted(i as int));
            return Some(strip_prefix(list[i].as_str()));
        }
        assert(!wanted(i as int));
    }
    None
}

/// Finds the message of the player that blames the cookies.
pub fn cookie_store_failure(text: &str, source: &CookieSource) -> (r: Option<String>)
    ensures
        crate::text::maybe_text(r) == store_message(
            trimmed_lines(text@),
            trimmed_lines(text@).map_values(|line: Seq<char>| lowered(line)),
            *source,
        ),
{
    let list = lines_trimmed(text);
    let mut small: Vec<String> = Vec::new();
    let ghost low = trimmed_lines(text@).map_values(|line: Seq<char>| lowered(line));
    for i in 0..list.len()
        invariant
            texts(list@) == trimmed_lines(text@),
            low == trimmed_lines(text@).map_values(|line: Seq<char>| lowered(line)),
            small@.len() == i,
            texts(small@) == low.take(i as int),
    {
        let ghost before = small@;
        small.push(to_small(list[i].as_str()));
        proof {
            assert(list@[i as int]@ == texts(list@)[i as int]);
            assert(texts(small@) =~= texts(before).push(low[i as int]));
            assert(texts(small@) =~= low.take(i + 1));
        }
    }
    proof {
        assert(texts(list@).len() == list@.len());
        assert(low.take(list@.len() as int) =~= low);
    }
    store_failure_in(&list, &small, source)
}

/// The advice for Safari: no dialog appears, so the place in the settings is named.
pub open spec fn safari_text() -> Seq<char> {
    "Safari の cookie を読めませんでした。端末アプリにフルディスクアクセスを許可してください (システム設定 → プライバシーとセキュリティ → フルディスクアクセス)。cookie 無しで検索しました"@
}

/// What the user is told about an outcome; nothing about most of them.
pub open spec fn description(outcome: CookieOutcome, source: CookieSource, secs: nat) -> Seq<char> {
    match outcome {
        CookieOutcome::Unreadable(detail) => if holds(detail@, "Operation not permitted"@)
            && source.safari() {
            safari_text()
        } else {
            "cookie を読めませんでした ("@ + source.label_text() + "): "@ + detail@
                + "。cookie 無しで検索しました"@
        },
        CookieOutcome::Degraded(_) => "cookie を復号できませんでした ("@ + source.label_text()
            + ")。キーチェーンのダイアログで「常に許可」を選んでください。以後は cookie 無しで動作します"@,
        CookieOutcome::TimedOut => "検索がタイムアウトしました ("@ + decimal(secs)
            + " 秒)。cookie 連携の初回は macOS のキーチェーン許可ダイアログが別ウィンドウで出ている可能性があります。「常に許可」を選び、tuitube を再起動してください。以後は cookie 無しで動作します"@,
        _ => seq![],
    }
}

/// Words an outcome for the user. `timeout_secs` is how long was waited.
pub fn describe(outcome: &CookieOutcome, source: &CookieSource, timeout_secs: u64) -> (r: String)
    ensures
        r@ == description(*outcome, *source, timeout_secs as nat),
{
    match outcome {
        CookieOutcome::Unreadable(detail) => {
            if contains(detail.as_str(), "Operation not permitted") && source.is_safari() {
                return "Safari の cookie を読めませんでした。端末アプリにフルディスクアクセスを許可してください (システム設定 → プライバシーとセキュリティ → フルディスクアクセス)。cookie 無しで検索しました".to_owned();
            }
            let mut out = joined(
                "cookie を読めませんでした (",
                source.label().as_str(),
                "): ",
            );
            out.append(detail.as_str());
            out.append("。cookie 無しで検索しました");
            out
        },
        CookieOutcome::Degraded(_) => joined(
            "cookie を復号できませんでした (",
            source.label().as_str(),
            ")。キーチェーンのダイアログで「常に許可」を選んでください。以後は cookie 無しで動作します",
        ),
        CookieOutcome::TimedOut => joined(
            "検索がタイムアウトしました (",
            number(timeout_secs).as_str(),
            " 秒)。cookie 連携の初回は macOS のキーチェーン許可ダイアログが別ウィンドウで出ている可能性があります。「常に許可」を選び、tuitube を再起動してください。以後は cookie 無しで動作します",
        ),
        _ => String::new(),
    }
}

/// A list that belongs to the user's account.
#[derive(Debug, Clone, Copy, PartialEq, Eq, Structural)]
pub enum Feed {
    Recommended,
    History,
    Subscriptions,
    WatchLater,
}

impl Feed {
    /// The feeds in the order of their tabs.
    pub fn all() -> (r: [Feed; 4])
        ensures
            r@ == seq![Feed::Recommended, Feed::History, Feed::Subscriptions, Feed::WatchLater],
    {
        let r = [Feed::Recommended, Feed::History, Feed::Subscriptions, Feed::WatchLater];
        assert(r@ =~= seq![
            Feed::Recommended,
            Feed::History,
            Feed::Subscriptions,
            Feed::WatchLater,
        ]);
        r
    }

    /// The feed that a search text asks for. Only the exact words count.
    pub open spec fn asked(query: Seq<char>) -> Option<Feed> {
        let word = trimmed(query);
        if word == ":ytrec"@ {
            Some(Feed::Recommended)
        } else if word == ":ythis"@ || word == ":ythistory"@ {
            Some(Feed::History)
        } else if word == ":ytsubs"@ {
            Some(Feed::Subscriptions)
        } else if word == ":ytwatchlater"@ {
            Some(Feed::WatchLater)
        } else {
            None
        }
    }

    pub fn parse(query: &str) -> (r: Option<Feed>)
        ensures
            r == Self::asked(query@),
    {
        let word = trim(query);
        if same(word.as_str(), ":ytrec") {
            Some(Feed::Recommended)
        } else if same(word.as_str(), ":ythis") || same(word.as_str(), ":ythistory") {
            Some(Feed::History)
        } else if same(word.as_str(), ":ytsubs") {
            Some(Feed::Subscriptions)
        } else if same(word.as_str(), ":ytwatchlater") {
            Some(Feed::WatchLater)
        } else {
            None
        }
    }

    pub open spec fn word(self) -> Seq<char> {
        match self {
            Feed::Recommended => ":ytrec"@,
            Feed::History => ":ythis"@,
            Feed::Subscriptions => ":ytsubs"@,
            Feed::WatchLater => ":ytwatchlater"@,
        }
    }

    pub fn keyword(self) -> (r: &'static str)
        ensures
            r@ == self.word(),
    {
        match self {
            Feed::Recommended => ":ytrec",
            Feed::History => ":ythis",
            Feed::Subscriptions => ":ytsubs",
            Feed::WatchLater => ":ytwatchlater",
        }
    }

    pub open spec fn name(self) -> Seq<char> {
        match self {
            Feed::Recommended => "おすすめ"@,
            Feed::History => "履歴"@,
            Feed::Subscriptions => "登録チャンネル"@,
            Feed::WatchLater => "後で見る"@,
        }
    }

    pub fn label(self) -> (r: &'static str)
        ensures
            r@ == self.name(),
    {
        match self {
            Feed::Recommended => "おすすめ",
            Feed::History => "履歴",
            Feed::Subscriptions => "登録チャンネル",
            Feed::WatchLater => "後で見る",
        }
    }
}

/// A text that neither begins nor ends with white space is left alone by trimming.
proof fn lemma_trimmed_word(word: Seq<char>)
    requires
        word.len() > 0,
        !crate::text::is_space(word[0]),
        !crate::text::is_space(word.last()),
    ensures
        trimmed(word) == word,
{
}

/// A feed is found again by its keyword.
pub proof fn law_feed_found_by_keyword(feed: Feed)
    ensures
        Feed::asked(feed.word()) == Some(feed),
{
    reveal_strlit(":ytrec");
    reveal_strlit(":ythis");
    reveal_strlit(":ythistory");
    reveal_strlit(":ytsubs");
    reveal_strlit(":ytwatchlater");
    lemma_trimmed_word(feed.word());
    assert(":ythis"@[3] == 'h' && ":ytrec"@[3] == 'r' && ":ytsubs"@[3] == 's'
        && ":ytwatchlater"@[3] == 'w' && ":ythistory"@[3] == 'h');
}

/// What the user is told where a feed wants a login.
pub fn login_required_message(feed: Feed, source: &CookieSource) -> (r: String)
    ensures
        r@ == feed.name() + " にはログインが必要です。"@ + source.label_text()
            + " の cookie が YouTube にログイン済みか確認してください"@,
{
    let mut out = joined(
        feed.label(),
        " にはログインが必要です。",
        source.label().as_str(),
    );
    out.append(" の cookie が YouTube にログイン済みか確認してください");
    out
}

/// Whether cookies are used.
#[derive(Debug, PartialEq, Eq)]
pub enum CookieState {
    Off,
    /// Asked for, and no search has shown yet that they work.
    Armed(CookieSource),
    Active(CookieSource),
    Suspended { source: CookieSource, reason: String },
}

impl Clone for CookieState {
    fn clone(&self) -> (r: Self)
        ensures
            r == *self,
    {
        match self {
            CookieState::Off => CookieState::Off,
            CookieState::Armed(source) => CookieState::Armed(source.clone()),
            CookieState::Active(source) => CookieState::Active(source.clone()),
            CookieState::Suspended { source, reason } => CookieState::Suspended {
                source: source.clone(),
                reason: reason.clone(),
            },
        }
    }
}

impl Default for CookieState {
    fn default() -> (r: Self)
        ensures
            r == CookieState::Off,
    {
        CookieState::Off
    }
}

impl CookieState {
    /// The cookies that a search uses.
    pub open spec fn searching(self) -> Option<CookieSource> {
        match self {
            CookieState::Armed(source) => Some(source),
            CookieState::Active(source) => Some(source),
            _ => None,
        }
    }

    /// The cookies that playback uses: only those that a search has shown to work.
    pub open spec fn playing(self) -> Option<CookieSource> {
        match self {
            CookieState::Active(source) => Some(source),
            _ => None,
        }
    }

    /// The cookies of `source` are out of use for that reason.
    pub open spec fn suspended_for(self, source: CookieSource, why: Seq<char>) -> bool {
        self matches CookieState::Suspended { source: from, reason } && from == source && reason@
            == why
    }

    /// `after` follows `self` where a search ended with that outcome.
    pub open spec fn observed(self, outcome: CookieOutcome, secs: nat, after: CookieState) -> bool {
        match self.searching() {
            None => after == self,
            Some(source) => match outcome {
                CookieOutcome::Accepted => after == CookieState::Active(source),
                CookieOutcome::Degraded(_) => after.suspended_for(
                    source,
                    description(outcome, source, secs),
                ),
                CookieOutcome::Unreadable(_) => after.suspended_for(
                    source,
                    description(outcome, source, secs),
                ),
                CookieOutcome::TimedOut => if self is Armed {
                    after.suspended_for(source, description(outcome, source, secs))
                } else {
                    after == self
                },
                _ => after == self,
            },
        }
    }

    pub fn from_source(source: Option<CookieSource>) -> (r: Self)
        ensures
            r == (match source {
                Some(source) => CookieState::Armed(source),
                None => CookieState::Off,
            }),
    {
        match source {
            Some(source) => CookieState::Armed(source),
            None => CookieState::Off,
        }
    }

    pub fn for_search(&self) -> (r: Option<&CookieSource>)
        ensures
            r is Some <==> self.searching() is Some,
            r matches Some(source) ==> self.searching() == Some(*source),
    {
        match self {
            CookieState::Armed(source) => Some(source),
            CookieState::Active(source) => Some(source),
            _ => None,
        }
    }

    pub fn for_playback(&self) -> (r: Option<&CookieSource>)
        ensures
            r is Some <==> self.playing() is Some,
            r matches Some(source) ==> self.playing() == Some(*source),
    {
        match self {
            CookieState::Active(source) => Some(source),
            _ => None,
        }
    }

    /// Takes in how a search ended. Cookies that were given up do not come back by
    /// themselves, so that not every failure is waited for twice.
    pub fn observe(&mut self, outcome: &CookieOutcome, timeout_secs: u64)
        ensures
            old(self).observed(*outcome, timeout_secs as nat, *final(self)),
    {
        let armed: bool = match self {
            CookieState::Armed(_) => true,
            _ => false,
        };
        let source = match self.for_search() {
            Some(source) => source.clone(),
            None => {
                return ;
            },
        };
        let gives_up: bool = match outcome {
            CookieOutcome::Accepted => {
                *self = CookieState::Active(source);
                return ;
            },
            CookieOutcome::Degraded(_) => true,
            CookieOutcome::Unreadable(_) => true,
            CookieOutcome::TimedOut => armed,
            _ => false,
        };
        if gives_up {
            let reason = describe(outcome, &source, timeout_secs);
            *self = CookieState::Suspended { source, reason };
        }
    }

    /// The state where cookies that are in use are given up.
    pub open spec fn given_up(self, reason: String) -> CookieState {
        match self.searching() {
            Some(source) => CookieState::Suspended { source, reason },
            None => self,
        }
    }

    /// Gives the cookies up for a reason that the player met.
    pub fn suspend(&mut self, reason: String)
        ensures
            *final(self) == old(self).given_up(reason),
    {
        let source = match self.for_search() {
            Some(source) => source.clone(),
            None => {
                return ;
            },
        };
        *self = CookieState::Suspended { source, reason };
    }

    pub open spec fn label_text(self) -> Option<Seq<char>> {
        match self {
            CookieState::Off => None,
            CookieState::Armed(source) => Some("cookies: "@ + source.label_text()),
            CookieState::Active(source) => Some("cookies: "@ + source.label_text()),
            CookieState::Suspended { source, .. } => Some(
                "cookies: "@ + source.label_text() + " (停止)"@,
            ),
        }
    }

    pub fn label(&self) -> (r: Option<String>)
        ensures
            crate::text::maybe_text(r) == self.label_text(),
    {
        match self {
            CookieState::Off => None,
            CookieState::Armed(source) | CookieState::Active(source) => {
                let mut out = "cookies: ".to_owned();
                out.append(source.label().as_str());
                Some(out)
            },
            CookieState::Suspended { source, .. } => Some(
                joined("cookies: ", source.label().as_str(), " (停止)"),
            ),
        }
    }

    pub open spec fn refusal_text(self, feed: Feed) -> Seq<char> {
        match self {
            CookieState::Suspended { reason, .. } => feed.name() + " は cookie 連携が停止中: "@
                + reason@,
            _ => feed.name() + " には cookie 連携が必要です ([cookies] browser か file)"@,
        }
    }

    /// What the user is told where a feed is refused without asking the downloader.
    pub fn refusal(&self, feed: Feed) -> (r: String)
        ensures
            r@ == self.refusal_text(feed),
    {
        match self {
            CookieState::Suspended { reason, .. } => joined(
                feed.label(),
                " は cookie 連携が停止中: ",
                reason.as_str(),
            ),
            _ => {
                let mut out = feed.label().to_owned();
                out.append(" には cookie 連携が必要です ([cookies] browser か file)");
                out
            },
        }
    }
}

/// Cookies that were given up, or never asked for, stay out of use whatever a search
/// reports.
pub proof fn law_given_up_stays_given_up(
    before: CookieState,
    outcome: CookieOutcome,
    secs: nat,
    after: CookieState,
)
    requires
        before.searching() is None,
        before.observed(outcome, secs, after),
    ensures
        after == before,
{
}

/// Playback never uses cookies that a search would not use.
pub proof fn law_playback_follows_search(state: CookieState)
    ensures
        state.playing() matches Some(source) ==> state.searching() == Some(source),
{
}

/// Playback gets cookies only from a search that found them good: where it had none
/// before, the outcome was a success.
pub proof fn law_only_success_activates(
    before: CookieState,
    outcome: CookieOutcome,
    secs: nat,
    after: CookieState,
)
    requires
        before.observed(outcome, secs, after),
        before.playing() is None,
        after.playing() is Some,
    ensures
        outcome is Accepted,
        after.playing() == before.searching(),
{
}

/// The tabs of a channel.
#[derive(Debug, Clone, Copy, PartialEq, Eq, Structural)]
pub enum ChannelTab {
    Videos,
    Shorts,
    Streams,
}

impl ChannelTab {
    pub open spec fn place(self) -> int {
        match self {
            ChannelTab::Videos => 0,
            ChannelTab::Shorts => 1,
            ChannelTab::Streams => 2,
        }
    }

    pub fn index(self) -> (r: usize)
        ensures
            r == self.place(),
    {
        match self {
            ChannelTab::Videos => 0,
            ChannelTab::Shorts => 1,
            ChannelTab::Streams => 2,
        }
    }

    /// The tab at that place; there are three.
    pub fn from_index(index: usize) -> (r: Option<Self>)
        ensures
            r is Some <==> index < 3,
            r matches Some(tab) ==> tab.place() == index,
    {
        if index == 0 {
            Some(ChannelTab::Videos)
        } else if index == 1 {
            Some(ChannelTab::Shorts)
        } else if index == 2 {
            Some(ChannelTab::Streams)
        } else {
            None
        }
    }

    /// The last part of the tab's address.
    pub open spec fn path(self) -> Seq<char> {
        match self {
            ChannelTab::Videos => "videos"@,
            ChannelTab::Shorts => "shorts"@,
            ChannelTab::Streams => "streams"@,
        }
    }

    fn path_text(self) -> (r: &'static str)
        ensures
            r@ == self.path(),
    {
        match self {
            ChannelTab::Videos => "videos",
            ChannelTab::Shorts => "shorts",
            ChannelTab::Streams => "streams",
        }
    }
}

/// What is asked of the downloader.
#[derive(Debug, PartialEq, Eq)]
pub enum Target {
    Search(String),
    Feed(Feed),
    Channel { id: String, tab: ChannelTab },
}

impl Clone for Target {
    fn clone(&self) -> (r: Self)
        ensures
            r == *self,
    {
        match self {
            Target::Search(query) => Target::Search(query.clone()),
            Target::Feed(feed) => Target::Feed(*feed),
            Target::Channel { id, tab } => Target::Channel { id: id.clone(), tab: *tab },
        }
    }
}

impl Target {
    /// The target is what that search text asks for: a feed by its keyword, else a
    /// search for the text.
    pub open spec fn is_for(self, query: Seq<char>) -> bool {
        match Feed::asked(trimmed(query)) {
            Some(feed) => self == Target::Feed(feed),
            None => self matches Target::Search(text) && text@ == trimmed(query),
        }
    }

    pub fn for_query(query: &str) -> (r: Target)
        ensures
            r.is_for(query@),
    {
        let query = trim(query);
        match Feed::parse(query.as_str()) {
            Some(feed) => Target::Feed(feed),
            None => Target::Search(query),
        }
    }

    pub open spec fn url_text(self, limit: nat) -> Seq<char> {
        match self {
            Target::Search(query) => "ytsearch"@ + decimal(limit) + ":"@ + query@,
            Target::Feed(feed) => feed.word(),
            Target::Channel { id, tab } => "https://www.youtube.com/channel/"@ + id@ + "/"@
                + tab.path(),
        }
    }

    /// What the downloader is given. Only a search carries its limit there.
    pub fn yt_dlp_url(&self, limit: usize) -> (r: String)
        ensures
            r@ == self.url_text(limit as nat),
    {
        match self {
            Target::Search(query) => {
                let mut out = joined("ytsearch", number(limit as u64).as_str(), ":");
                out.append(query.as_str());
                out
            },
            Target::Feed(feed) => feed.keyword().to_owned(),
            Target::Channel { id, tab } => {
                let mut out = joined("https://www.youtube.com/channel/", id.as_str(), "/");
                out.append(tab.path_text());
                out
            },
        }
    }

    pub open spec fn empty_text(self, source: Option<CookieSource>) -> Seq<char> {
        match self {
            Target::Search(_) => "検索結果が0件でした"@,
            Target::Feed(feed) => match source {
                Some(source) => feed.name() + " が空でした。"@ + source.label_text()
                    + " の cookie が YouTube にログイン済みか確認してください"@,
                None => feed.name()
                    + " が空でした。cookie が YouTube にログイン済みか確認してください"@,
            },
            Target::Channel { .. } => "このタブに動画がありません"@,
        }
    }

    /// What the user is told where nothing was found. A feed is empty for a visitor,
    /// so the cookies are named instead of the count.
    pub fn empty_message(&self, source: Option<&CookieSource>) -> (r: String)
        ensures
            r@ == self.empty_text(
                match source {
                    Some(source) => Some(*source),
                    None => None,
                },
            ),
    {
        match self {
            Target::Search(_) => "検索結果が0件でした".to_owned(),
            Target::Feed(feed) => match source {
                Some(source) => {
                    let mut out = joined(
                        feed.label(),
                        " が空でした。",
                        source.label().as_str(),
                    );
                    out.append(" の cookie が YouTube にログイン済みか確認してください");
                    out
                },
                None => {
                    let mut out = feed.label().to_owned();
                    out.append(
                        " が空でした。cookie が YouTube にログイン済みか確認してください",
                    );
                    out
                },
            },
            Target::Channel { .. } => "このタブに動画がありません".to_owned(),
        }
    }

    /// Only feeds want a login.
    pub fn requires_login(&self) -> (r: bool)
        ensures
            r == (*self is Feed),
    {
        match self {
            Target::Feed(_) => true,
            _ => false,
        }
    }
}

proof fn lemma_browser_end(spec: Seq<char>, from: int)
    requires
        0 <= from <= spec.len(),
    ensures
        from <= browser_end(spec, from) <= spec.len(),
        forall|i: int|
            from <= i < browser_end(spec, from) ==> #[trigger] spec[i] != ':' && spec[i] != '+',
        browser_end(spec, from) < spec.len() ==> spec[browser_end(spec, from)] == ':'
            || spec[browser_end(spec, from)] == '+',
    decreases spec.len() - from,
{
    if from < spec.len() && spec[from] != ':' && spec[from] != '+' {
        lemma_browser_end(spec, from + 1);
    }
}

/// The browser is what stands before the first colon or plus; a file has no browser and is
/// told by its name.
pub proof fn law_browser_stands_first(spec: String, path: String)
    ensures
        ({
            let browser = CookieSource::Browser(spec).browser_text()->0;
            &&& CookieSource::Browser(spec).browser_text() is Some
            &&& browser.len() <= spec@.len()
            &&& browser == spec@.take(browser.len() as int)
            &&& forall|i: int|
                0 <= i < browser.len() ==> #[trigger] browser[i] != ':' && browser[i] != '+'
            &&& browser.len() < spec@.len() ==> spec@[browser.len() as int] == ':'
                || spec@[browser.len() as int] == '+'
            &&& CookieSource::Browser(spec).label_text() == browser
        }),
        CookieSource::File(path).browser_text() is None,
        !CookieSource::File(path).safari(),
        file_name_before(path@, path@.len() as int) matches Some(name) ==> CookieSource::File(
            path,
        ).label_text() == name,
{
    lemma_browser_end(spec@, 0);
}

/// The case of a letter does not tell words apart, and other characters have none.
pub proof fn law_case_does_not_count(c: char)
    ensures
        'a' <= c <= 'z' ==> ascii_small(c) == c,
        'A' <= c <= 'Z' ==> ascii_small(c) as nat == c as nat + 32,
        !('A' <= c <= 'Z') ==> ascii_small(c) == c,
        is_word(seq![c], seq![ascii_small(c)]),
{
}

/// Cookies of a browser and of a file are handed over by their own options, to the
/// downloader as to the player.
pub proof fn law_cookies_are_handed_over(spec: String, path: String)
    ensures
        CookieSource::Browser(spec).option() == "--cookies-from-browser"@,
        CookieSource::Browser(spec).value() == spec@,
        CookieSource::File(path).option() == "--cookies"@,
        CookieSource::File(path).value() == path@,
        CookieSource::Browser(spec).mpv_text() == "--ytdl-raw-options-append=cookies-from-browser="@
            + spec@,
        CookieSource::File(path).mpv_text() == "--ytdl-raw-options-append=cookies="@ + path@,
{
}

/// What the downloader puts before its messages is taken off, once, and nothing else is.
pub proof fn law_message_without_its_prefix(text: Seq<char>)
    ensures
        message_of("yt-dlp: error: "@ + text) == text,
        message_of("ERROR: "@ + text) == text,
        message_of("WARNING: "@ + text) == text,
        text.len() == 0 || (text[0] != 'y' && text[0] != 'E' && text[0] != 'W') ==> message_of(text)
            == text,
{
    reveal_strlit("yt-dlp: error: ");
    reveal_strlit("ERROR: ");
    reveal_strlit("WARNING: ");
    let a = "yt-dlp: error: "@ + text;
    let b = "ERROR: "@ + text;
    let c = "WARNING: "@ + text;
    assert(a.subrange(0, 15) =~= "yt-dlp: error: "@);
    assert(b.subrange(0, 7) =~= "ERROR: "@);
    assert(c.subrange(0, 9) =~= "WARNING: "@);
    assert(a.skip(15) =~= text);
    assert(b.skip(7) =~= text);
    assert(c.skip(9) =~= text);
    if begins(b, "yt-dlp: error: "@) {
        assert(b.subrange(0, 15)[0] == b[0]);
    }
    if begins(c, "yt-dlp: error: "@) {
        assert(c.subrange(0, 15)[0] == c[0]);
    }
    if begins(c, "ERROR: "@) {
        assert(c.subrange(0, 7)[0] == c[0]);
    }
    if begins(text, "yt-dlp: error: "@) {
        assert(text.subrange(0, 15)[0] == text[0]);
    }
    if begins(text, "ERROR: "@) {
        assert(text.subrange(0, 7)[0] == text[0]);
    }
    if begins(text, "WARNING: "@) {
        assert(text.subrange(0, 9)[0] == text[0]);
    }
}

/// The message is that of the first line that is wanted, and there is none where no line
/// is.
pub proof fn law_first_cause_is_told(
    list: Seq<Seq<char>>,
    wanted: spec_fn(int) -> bool,
    from: int,
    i: int,
)
    requires
        0 <= from <= list.len(),
    ensures
        first_message(list, wanted, from) is None <==> forall|j: int|
            from <= j < list.len() ==> !#[trigger] wanted(j),
        from <= i < list.len() && wanted(i) && (forall|j: int| from <= j < i ==> !#[trigger] wanted(j))
            ==> first_message(list, wanted, from) == Some(message_of(list[i])),
    decreases list.len() - from,
{
    if from < list.len() && !wanted(from) {
        law_first_cause_is_told(list, wanted, from + 1, i);
    }
}

/// Some line of a text has one of the marks.
pub open spec fn some_line_marked(text: Seq<char>, marks: Seq<Seq<char>>) -> bool {
    exists|i: int|
        0 <= i < trimmed_lines(text).len() && marked(#[trigger] trimmed_lines(text)[i], marks)
}

proof fn lemma_marked_message(text: Seq<char>, marks: Seq<Seq<char>>)
    ensures
        marked_message(text, marks) is Some <==> some_line_marked(text, marks),
{
    let list = trimmed_lines(text);
    let wanted = |i: int| marked(trimmed_lines(text)[i], marks);
    law_first_cause_is_told(list, wanted, 0, 0);
    if some_line_marked(text, marks) {
        let i = choose|i: int| 0 <= i < list.len() && marked(#[trigger] list[i], marks);
        assert(wanted(i));
    }
    if marked_message(text, marks) is Some {
        let j = choose|j: int| 0 <= j < list.len() && #[trigger] wanted(j);
        assert(marked(list[j], marks));
    }
}

/// A failed decryption counts however the run ended, a store out of reach only where the
/// run failed, and then a missing login; a run without any of these is good where it
/// succeeded.
pub proof fn law_outcomes_by_their_signs(
    code: Option<i32>,
    stderr: Seq<char>,
    outcome: CookieOutcome,
)
    requires
        is_outcome(code, stderr, outcome),
    ensures
        outcome is Degraded <==> some_line_marked(stderr, degraded_marks()),
        outcome is Unreadable <==> code != Some(0i32) && !some_line_marked(stderr, degraded_marks())
            && some_line_marked(stderr, store_marks() + permission_marks()),
        outcome is LoginRequired ==> holds(stderr, "Login details are needed"@),
        outcome is Accepted ==> code == Some(0i32) && !holds(stderr, "Login details are needed"@),
        outcome is Unknown ==> code != Some(0i32),
        outcome !is NotUsed,
        outcome !is TimedOut,
        code == Some(0i32) && !some_line_marked(stderr, degraded_marks()) && !holds(
            stderr,
            "Login details are needed"@,
        ) ==> outcome is Accepted,
{
    lemma_marked_message(stderr, degraded_marks());
    lemma_marked_message(stderr, store_marks() + permission_marks());
}

/// The signs that the messages are looked through for.
pub proof fn law_signs_of_trouble()
    ensures
        degraded_marks() == seq![
            "cannot decrypt v10 cookies"@,
            "find-generic-password failed"@,
            "could not be decrypted"@,
        ],
        store_marks().contains("cookies database"@),
        store_marks().contains("unsupported browser specified for cookies"@),
        store_marks().len() == 4,
        permission_marks() == seq!["Operation not permitted"@, "Permission denied"@],
{
    assert(store_marks()[0] == "cookies database"@);
    assert(store_marks()[1] == "unsupported browser specified for cookies"@);
}

/// A denied permission is blamed on the cookies only where the line speaks of them.
pub proof fn law_denial_must_speak_of_cookies(
    line: Seq<char>,
    small: Seq<char>,
    spec: String,
    path: String,
)
    ensures
        marked(line, store_marks()) ==> store_failed(line, small, CookieSource::Browser(spec)),
        !marked(line, store_marks()) && !marked(line, permission_marks()) ==> !store_failed(
            line,
            small,
            CookieSource::Browser(spec),
        ),
        !marked(line, store_marks()) && marked(line, permission_marks()) ==> (store_failed(
            line,
            small,
            CookieSource::Browser(spec),
        ) <==> holds(small, "cookie"@)),
        !marked(line, store_marks()) && marked(line, permission_marks()) ==> (store_failed(
            line,
            small,
            CookieSource::File(path),
        ) <==> holds(small, "cookie"@) || holds(line, path@)),
{
}

/// Cookies that were asked for are used for searches, and for playback once a search has
/// shown that they work; cookies that were given up are used for neither.
pub proof fn law_which_cookies_are_used(source: CookieSource, reason: String)
    ensures
        CookieState::Armed(source).searching() == Some(source),
        CookieState::Armed(source).playing() is None,
        CookieState::Active(source).searching() == Some(source),
        CookieState::Active(source).playing() == Some(source),
        (CookieState::Suspended { source, reason }).searching() is None,
        (CookieState::Suspended { source, reason }).playing() is None,
        CookieState::Off.searching() is None,
        CookieState::Off.playing() is None,
{
}

/// A success puts cookies to use. Cookies that cannot be read or decrypted are given up,
/// and so are those that never worked where the time ran out; anything else changes
/// nothing.
pub proof fn law_search_shows_whether_cookies_work(
    before: CookieState,
    source: CookieSource,
    outcome: CookieOutcome,
    secs: nat,
    after: CookieState,
)
    requires
        before.searching() == Some(source),
        before.observed(outcome, secs, after),
    ensures
        outcome is Accepted ==> after == CookieState::Active(source),
        outcome is Degraded || outcome is Unreadable ==> after is Suspended && after.searching()
            is None,
        outcome is TimedOut && before is Armed ==> after is Suspended,
        outcome is TimedOut && before is Active ==> after == before,
        outcome is NotUsed || outcome is LoginRequired || outcome is Unknown ==> after == before,
        after matches CookieState::Suspended { source: from, .. } ==> from == source,
{
}

/// Cookies that are given up keep their source and the reason, and are not used any more;
/// where none are in use nothing changes.
pub proof fn law_cookies_are_given_up(state: CookieState, reason: String)
    ensures
        state.given_up(reason).searching() is None,
        state.given_up(reason).playing() is None,
        state.searching() matches Some(source) ==> state.given_up(reason) == (
        CookieState::Suspended { source, reason }),
        state.searching() is None ==> state.given_up(reason) == state,
{
}

/// The four lists of the account and the words that ask for them; no other word does.
pub proof fn law_feeds_by_their_words(query: Seq<char>)
    ensures
        Feed::Recommended.word() == ":ytrec"@,
        Feed::History.word() == ":ythis"@,
        Feed::Subscriptions.word() == ":ytsubs"@,
        Feed::WatchLater.word() == ":ytwatchlater"@,
        Feed::Recommended.name() == "おすすめ"@,
        Feed::History.name() == "履歴"@,
        Feed::Subscriptions.name() == "登録チャンネル"@,
        Feed::WatchLater.name() == "後で見る"@,
        Feed::asked(query) matches Some(feed) ==> trimmed(query) == feed.word() || (feed
            == Feed::History && trimmed(query) == ":ythistory"@),
        trimmed(query) == ":ythistory"@ ==> Feed::asked(query) == Some(Feed::History),
{
    reveal_strlit(":ytrec");
    reveal_strlit(":ythis");
    reveal_strlit(":ythistory");
    reveal_strlit(":ytsubs");
    reveal_strlit(":ytwatchlater");
    assert(":ytrec"@[3] != ":ythistory"@[3]);
}

/// A word for a list of the account asks for that list, and anything else is searched for,
/// without the white space around it.
pub proof fn law_words_or_lists(target: Target, query: Seq<char>)
    requires
        target.is_for(query),
    ensures
        target is Feed ==> Feed::asked(trimmed(query)) == Some(target->Feed_0),
        target is Search ==> target->Search_0@ == trimmed(query) && Feed::asked(trimmed(query))
            is None,
        target !is Channel,
{
}

/// A search carries how many results it asks for and its words; a list goes by its word,
/// and a tab of a channel by its address.
pub proof fn law_addresses_of_targets(query: String, feed: Feed, id: String, limit: nat)
    ensures
        Target::Search(query).url_text(limit) == "ytsearch"@ + decimal(limit) + ":"@ + query@,
        Target::Feed(feed).url_text(limit) == feed.word(),
        (Target::Channel { id, tab: ChannelTab::Videos }).url_text(limit)
            == "https://www.youtube.com/channel/"@ + id@ + "/"@ + "videos"@,
        (Target::Channel { id, tab: ChannelTab::Shorts }).url_text(limit)
            == "https://www.youtube.com/channel/"@ + id@ + "/"@ + "shorts"@,
        (Target::Channel { id, tab: ChannelTab::Streams }).url_text(limit)
            == "https://www.youtube.com/channel/"@ + id@ + "/"@ + "streams"@,
{
}

/// A list that is refused is told by its name, and where cookies were given up with the
/// reason.
pub proof fn law_refusal_is_told(feed: Feed, source: CookieSource, reason: String)
    ensures
        ({
            let told = (CookieState::Suspended { source, reason }).refusal_text(feed);
            &&& told.len() >= feed.name().len() + reason@.len()
            &&& told.take(feed.name().len() as int) == feed.name()
            &&& told.skip(told.len() - reason@.len()) == reason@
        }),
        ({
            let told = CookieState::Off.refusal_text(feed);
            told.len() >= feed.name().len() && told.take(feed.name().len() as int) == feed.name()
        }),
{
    let told = (CookieState::Suspended { source, reason }).refusal_text(feed);
    assert(told.take(feed.name().len() as int) =~= feed.name());
    assert(told.skip(told.len() - reason@.len()) =~= reason@);
    let off = CookieState::Off.refusal_text(feed);
    assert(off.take(feed.name().len() as int) =~= feed.name());
}

/// Cookies are shown by their source, and those that were given up as such.
pub proof fn law_cookies_are_shown(source: CookieSource, reason: String)
    ensures
        CookieState::Off.label_text() is None,
        CookieState::Armed(source).label_text() == Some("cookies: "@ + source.label_text()),
        CookieState::Active(source).label_text() == Some("cookies: "@ + source.label_text()),
        (CookieState::Suspended { source, reason }).label_text() == Some(
            "cookies: "@ + source.label_text() + " (停止)"@,
        ),
{
}

/// What is told of cookies that cannot be read ends with that the search went on without
/// them; for a Safari that may not be read it says how to allow it.
pub proof fn law_unreadable_cookies_are_told(source: CookieSource, detail: String, secs: nat)
    ensures
        holds(detail@, "Operation not permitted"@) && source.safari() ==> description(
            CookieOutcome::Unreadable(detail),
            source,
            secs,
        ) == safari_text(),
        !source.safari() ==> description(CookieOutcome::Unreadable(detail), source, secs)
            == "cookie を読めませんでした ("@ + source.label_text() + "): "@ + detail@
            + "。cookie 無しで検索しました"@,
        description(CookieOutcome::Accepted, source, secs).len() == 0,
        description(CookieOutcome::LoginRequired, source, secs).len() == 0,
        description(CookieOutcome::Unknown, source, secs).len() == 0,
        description(CookieOutcome::NotUsed, source, secs).len() == 0,
{
}

/// What the user is told of an empty list: of a search, of a channel's tab, and of a feed,
/// where the cookies may be to blame.
pub proof fn law_empty_list_is_told(target: Target, source: Option<CookieSource>)
    ensures
        target is Search ==> target.empty_text(source) == "検索結果が0件でした"@,
        target is Channel ==> target.empty_text(source) == "このタブに動画がありません"@,
        target matches Target::Feed(feed) ==> {
            &&& source is None ==> target.empty_text(source) == feed.name()
                + " が空でした。cookie が YouTube にログイン済みか確認してください"@
            &&& source matches Some(from) ==> target.empty_text(source) == feed.name()
                + " が空でした。"@ + from.label_text()
                + " の cookie が YouTube にログイン済みか確認してください"@
        },
{
}

/// Cookies that were given up keep the source they came from and the reason.
pub proof fn law_given_up_for_a_reason(state: CookieState, source: CookieSource, why: Seq<char>)
    requires
        state.suspended_for(source, why),
    ensures
        state matches CookieState::Suspended { source: from, reason } && from == source && reason@
            == why,
{
}

} // verus!
