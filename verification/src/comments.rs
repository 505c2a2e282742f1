//! The comments on the running video: how they are fetched and read, and which part
//! of them is shown.

use crate::grid::{char_widths, is_truncated, text_width, truncate};
use crate::json::{
    field_value, parsed_json, read_field, read_json, seen_json, Json, JsonView,
};
use crate::search::{succeeded, RunEnd};
use crate::text::{
    decimal, join, joined, lines, lines_of, number, same, texts, trim, trimmed, with_between, words,
    words_of,
};
use vstd::prelude::*;
use vstd::string::*;

verus! {

/// How many comments are fetched: those with the most likes.
pub const COMMENT_LIMIT: u64 = 50;

/// How long a fetch may take, in seconds.
pub const COMMENT_TIMEOUT_SECS: u64 = 15;

pub const UNKNOWN_AUTHOR: &'static str = "(author unknown)";

pub const UNREADABLE: &'static str = "コメントを読み取れませんでした";

pub const LOADING: &'static str = "コメントを取得中…";

pub const NO_COMMENTS: &'static str = "コメントはありません";

#[derive(Debug, PartialEq, Eq)]
pub struct Comment {
    pub author: String,
    pub text: String,
    pub like_count: Option<u64>,
}

#[derive(Debug, PartialEq, Eq)]
pub enum CommentState {
    Pending,
    Ready(Vec<Comment>),
    Failed(String),
}

/// The comments of one video, and whether and from where they are shown.
#[derive(Debug, PartialEq, Eq)]
pub struct Comments {
    pub video_id: String,
    /// `None` where nothing plays.
    pub state: Option<CommentState>,
    pub visible: bool,
    /// The first line that is shown.
    pub scroll: usize,
}

pub open spec fn scroll_limit(total: int, height: int) -> int {
    if total > height {
        total - height
    } else {
        0
    }
}

/// How far a list can be scrolled: by the lines that do not fit.
pub fn max_scroll(total: usize, height: usize) -> (r: usize)
    ensures
        r == scroll_limit(total as int, height as int),
{
    total.saturating_sub(height)
}

impl Default for Comments {
    fn default() -> (r: Self)
        ensures
            r.is_idle(),
    {
        Comments { video_id: String::new(), state: None, visible: false, scroll: 0 }
    }
}

impl Comments {
    /// Nothing plays.
    pub open spec fn is_idle(self) -> bool {
        self.video_id@.len() == 0 && self.state is None && !self.visible && self.scroll == 0
    }

    /// The comments where that video just started.
    pub open spec fn begun(video_id: String) -> Self {
        Comments { video_id, state: Some(CommentState::Pending), visible: false, scroll: 0 }
    }

    /// The comments once those of a video came.
    pub open spec fn answered(
        self,
        video_id: Seq<char>,
        comments: Result<Vec<Comment>, String>,
    ) -> Self {
        if self.state is None || self.video_id@ != video_id {
            self
        } else {
            Comments {
                state: Some(
                    match comments {
                        Ok(list) => CommentState::Ready(list),
                        Err(reason) => CommentState::Failed(reason),
                    },
                ),
                ..self
            }
        }
    }

    /// A video starts. Nothing of the one before is carried over.
    pub fn begin(&mut self, video_id: String)
        ensures
            *final(self) == Self::begun(video_id),
    {
        self.video_id = video_id;
        self.state = Some(CommentState::Pending);
        self.visible = false;
        self.scroll = 0;
    }

    /// Takes in what was fetched, unless another video plays by now.
    pub fn apply(&mut self, video_id: &str, comments: Result<Vec<Comment>, String>)
        ensures
            *final(self) == old(self).answered(video_id@, comments),
    {
        if self.state.is_none() || !same(self.video_id.as_str(), video_id) {
            return ;
        }
        self.state = Some(
            match comments {
                Ok(list) => CommentState::Ready(list),
                Err(reason) => CommentState::Failed(reason),
            },
        );
    }

    pub fn state(&self) -> (r: Option<&CommentState>)
        ensures
            r is Some <==> self.state is Some,
            r matches Some(state) ==> self.state == Some(*state),
    {
        self.state.as_ref()
    }

    pub fn visible(&self) -> (r: bool)
        ensures
            r == self.visible,
    {
        self.visible
    }

    /// Shows or hides the list, and says which.
    pub fn toggle(&mut self) -> (r: bool)
        ensures
            r == !old(self).visible,
            *final(self) == (Comments { visible: r, ..*old(self) }),
    {
        self.visible = !self.visible;
        self.visible
    }

    pub open spec fn shown_from(self, total: int, height: int) -> int {
        if self.scroll < scroll_limit(total, height) {
            self.scroll as int
        } else {
            scroll_limit(total, height)
        }
    }

    /// The first line to draw. It never lies past the end, however the lines or the
    /// screen have changed.
    pub fn scroll(&self, total: usize, height: usize) -> (r: usize)
        ensures
            r == self.shown_from(total as int, height as int),
    {
        let limit: usize = max_scroll(total, height);
        if self.scroll < limit {
            self.scroll
        } else {
            limit
        }
    }

    /// The first line after the list was scrolled by `delta` lines.
    pub open spec fn scrolled_to(self, delta: int, total: int, height: int) -> int {
        let to = self.shown_from(total, height) + delta;
        if to < 0 {
            0
        } else if to < scroll_limit(total, height) {
            to
        } else {
            scroll_limit(total, height)
        }
    }

    pub fn scroll_by(&mut self, delta: isize, total: usize, height: usize)
        ensures
            *final(self) == (Comments {
                scroll: old(self).scrolled_to(delta as int, total as int, height as int) as usize,
                ..*old(self)
            }),
    {
        let from: usize = self.scroll(total, height);
        let limit: usize = max_scroll(total, height);
        let to: usize = if delta >= 0 {
            from.saturating_add(delta as usize)
        } else {
            let back: usize = (-(delta + 1)) as usize;
            from.saturating_sub(back).saturating_sub(1)
        };
        self.scroll = if to < limit {
            to
        } else {
            limit
        };
    }

    /// Playback ended. What arrives from now on is not taken in.
    pub fn end(&mut self)
        ensures
            final(self).is_idle(),
    {
        self.video_id = String::new();
        self.state = None;
        self.visible = false;
        self.scroll = 0;
    }
}

/// However the list is scrolled, what is shown next begins within the list.
pub proof fn law_scroll_stays_in_the_list(comments: Comments, delta: int, total: int, height: int)
    requires
        total >= 0,
        height >= 0,
    ensures
        0 <= comments.scrolled_to(delta, total, height) <= scroll_limit(total, height),
        0 <= comments.shown_from(total, height) <= scroll_limit(total, height),
{
}

/// The arguments that fetch the comments of a video.
pub open spec fn fetch_args(url: Seq<char>) -> Seq<Seq<char>> {
    seq![
        url,
        "-J"@,
        "--write-comments"@,
        "--extractor-args"@,
        "youtube:max_comments="@ + decimal(COMMENT_LIMIT as nat) + ",all,0,0;comment_sort=top"@,
    ]
}

pub fn yt_dlp_args(url: &str) -> (r: Vec<String>)
    ensures
        texts(r@) == fetch_args(url@),
{
    let mut out: Vec<String> = Vec::new();
    out.push(url.to_owned());
    out.push("-J".to_owned());
    out.push("--write-comments".to_owned());
    out.push("--extractor-args".to_owned());
    out.push(
        joined(
            "youtube:max_comments=",
            number(COMMENT_LIMIT).as_str(),
            ",all,0,0;comment_sort=top",
        ),
    );
    assert(texts(out@) =~= fetch_args(url@));
    out
}

/// What a comment holds.
pub ghost struct CommentView {
    pub author: Seq<char>,
    pub text: Seq<char>,
    pub like_count: Option<u64>,
}

impl View for Comment {
    type V = CommentView;

    open spec fn view(&self) -> CommentView {
        CommentView { author: self.author@, text: self.text@, like_count: self.like_count }
    }
}

/// What a list of comments holds.
pub open spec fn comment_views(list: Seq<Comment>) -> Seq<CommentView> {
    list.map_values(|comment: Comment| comment@)
}

/// The comment that those three fields make. There is none without a text.
pub open spec fn comment_of(
    text: Option<JsonView>,
    author: Option<JsonView>,
    likes: Option<JsonView>,
) -> Option<CommentView> {
    match text {
        Some(JsonView::Text(text)) => Some(
            CommentView {
                author: match author {
                    Some(JsonView::Text(name)) => name,
                    _ => UNKNOWN_AUTHOR@,
                },
                text,
                like_count: match likes {
                    Some(JsonView::Number(n)) => n,
                    _ => None,
                },
            },
        ),
        _ => None,
    }
}

/// Makes a comment from the values of its fields.
pub fn parse_comment(text: Option<Json>, author: Option<Json>, likes: Option<Json>) -> (r: Option<
    Comment,
>)
    ensures
        (match r {
            Some(comment) => Some(comment@),
            None => None,
        }) == comment_of(seen_json(text), seen_json(author), seen_json(likes)),
{
    let text = match text {
        Some(Json::Text(text)) => text,
        _ => {
            return None;
        },
    };
    let author = match author {
        Some(Json::Text(name)) => name,
        _ => UNKNOWN_AUTHOR.to_owned(),
    };
    let like_count = match likes {
        Some(Json::Number(n)) => n,
        _ => None,
    };
    Some(Comment { author, text, like_count })
}

/// The comment that a JSON text stands for.
pub open spec fn comment_in(text: Seq<char>) -> Option<CommentView> {
    match parsed_json(text) {
        Some(value) => comment_of(
            field_value(value, "text"@),
            field_value(value, "author"@),
            field_value(value, "like_count"@),
        ),
        None => None,
    }
}

/// The comments that the first `n` JSON texts stand for; others are left out.
pub open spec fn comments_in(items: Seq<Seq<char>>, n: int) -> Seq<CommentView>
    decreases n,
{
    if n <= 0 {
        seq![]
    } else {
        match comment_in(items[n - 1]) {
            Some(comment) => comments_in(items, n - 1).push(comment),
            None => comments_in(items, n - 1),
        }
    }
}

fn read_comments(items: &Vec<String>) -> (r: Vec<Comment>)
    ensures
        comment_views(r@) == comments_in(texts(items@), items@.len() as int),
{
    let mut out: Vec<Comment> = Vec::new();
    assert(comment_views(out@) =~= seq![]);
    for i in 0..items.len()
        invariant
            comment_views(out@) == comments_in(texts(items@), i as int),
    {
        let ghost before = out@;
        assert(items@[i as int]@ == texts(items@)[i as int]);
        if let Some(value) = read_json(items[i].as_str()) {
            let text = read_field(&value, "text");
            let author = read_field(&value, "author");
            let likes = read_field(&value, "like_count");
            if let Some(comment) = parse_comment(text, author, likes) {
                let ghost shown = comment@;
                out.push(comment);
                assert(comment_views(out@) =~= comment_views(before).push(shown));
            }
        }
    }
    out
}

/// What the value of the whole output says, given the value of its field `comments`:
/// the list of the comments' JSON texts. A video without comments leaves the field
/// out.
pub open spec fn listed(page: Option<JsonView>, list: Option<JsonView>) -> Option<Seq<Seq<char>>> {
    match page {
        Some(JsonView::Object(_)) => match list {
            Some(JsonView::List(items)) => Some(items),
            _ => Some(seq![]),
        },
        _ => None,
    }
}

/// Finds the list of comments in the output's value.
pub fn listed_comments(page: &Option<Json>, list: Option<Json>) -> (r: Result<Vec<String>, String>)
    ensures
        match listed(seen_json(*page), seen_json(list)) {
            Some(items) => r matches Ok(found) && texts(found@) == items,
            None => r matches Err(reason) && reason@ == UNREADABLE@,
        },
{
    match page {
        Some(Json::Object(_)) => match list {
            Some(Json::List(items)) => Ok(items),
            _ => {
                let none: Vec<String> = Vec::new();
                assert(texts(none@) =~= seq![]);
                Ok(none)
            },
        },
        _ => Err(UNREADABLE.to_owned()),
    }
}

pub open spec fn page_of(output: Seq<char>) -> Option<JsonView> {
    parsed_json(trimmed(output))
}

pub open spec fn list_of(page: Option<JsonView>) -> Option<JsonView> {
    match page {
        Some(value) => field_value(value, "comments"@),
        None => None,
    }
}

/// `r` is what the downloader's output says of the comments.
pub open spec fn are_comments(output: Seq<char>, r: Result<Vec<Comment>, String>) -> bool {
    match listed(page_of(output), list_of(page_of(output))) {
        Some(items) => r matches Ok(list) && comment_views(list@) == comments_in(
            items,
            items.len() as int,
        ),
        None => r matches Err(reason) && reason@ == UNREADABLE@,
    }
}

/// Reads the comments from the downloader's output, which is one JSON object.
pub fn parse_comments(output: &str) -> (r: Result<Vec<Comment>, String>)
    ensures
        are_comments(output@, r),
{
    let page = read_json(trim(output).as_str());
    let list = match &page {
        Some(value) => read_field(value, "comments"),
        None => None,
    };
    match listed_comments(&page, list) {
        Ok(items) => {
            assert(texts(items@).len() == items@.len());
            Ok(read_comments(&items))
        },
        Err(reason) => Err(reason),
    }
}

/// The last line of a text without the white space around it.
pub open spec fn last_line(text: Seq<char>) -> Seq<char> {
    let all = lines_of(text);
    if all.len() == 0 {
        seq![]
    } else {
        trimmed(all.last())
    }
}

fn line_at_end(text: &str) -> (r: String)
    ensures
        r@ == last_line(text@),
{
    let all = lines(text);
    if all.len() == 0 {
        assert(texts(all@).len() == 0);
        String::new()
    } else {
        assert(texts(all@).last() == all@.last()@);
        trim(all[all.len() - 1].as_str())
    }
}

/// `r` is what a run that was to fetch the comments comes to; `None` is a run that
/// took too long. A run that failed and
/// still gave readable comments counts as good.
pub open spec fn is_fetched(end: Option<RunEnd>, r: Result<Vec<Comment>, String>) -> bool {
    match end {
        None => r matches Err(reason) && reason@
            == "コメントの取得がタイムアウトしました ("@ + decimal(
            COMMENT_TIMEOUT_SECS as nat,
        ) + " 秒)"@,
        Some(RunEnd::NotStarted { missing, reason: why }) => r matches Err(reason) && reason@
            == crate::search::launch_text(missing, why@),
        Some(RunEnd::Finished { code, stdout, stderr }) => {
            let readable = listed(page_of(stdout@), list_of(page_of(stdout@))) is Some;
            if code == Some(0i32) || readable {
                are_comments(stdout@, r)
            } else {
                r matches Err(reason) && reason@ == "yt-dlp が失敗しました: "@ + last_line(stderr@)
            }
        },
    }
}

/// Takes in how the run ended that was to fetch the comments.
pub fn fetched_comments(end: &Option<RunEnd>) -> (r: Result<Vec<Comment>, String>)
    ensures
        is_fetched(*end, r),
{
    match end {
        None => Err(
            joined(
                "コメントの取得がタイムアウトしました (",
                number(COMMENT_TIMEOUT_SECS).as_str(),
                " 秒)",
            ),
        ),
        Some(RunEnd::NotStarted { missing, reason }) => Err(
            crate::search::launch_error(*missing, reason.as_str()),
        ),
        Some(RunEnd::Finished { code, stdout, stderr }) => {
            let parsed = parse_comments(stdout.as_str());
            if succeeded(*code) || parsed.is_ok() {
                return parsed;
            }
            let mut reason = "yt-dlp が失敗しました: ".to_owned();
            reason.append(line_at_end(stderr.as_str()).as_str());
            Err(reason)
        },
    }
}

/// The two lines of a comment: author and likes, and the text on one line.
pub open spec fn two_lines(comment: CommentView) -> Seq<Seq<char>> {
    seq![
        match comment.like_count {
            Some(likes) => comment.author + " (+"@ + decimal(likes as nat) + ")"@,
            None => comment.author,
        },
        "  "@ + with_between(words_of(comment.text), " "@),
    ]
}

pub fn comment_lines(comment: &Comment) -> (r: [String; 2])
    ensures
        texts(r@) == two_lines(comment@),
{
    let header = match comment.like_count {
        Some(likes) => {
            let mut out = joined(comment.author.as_str(), " (+", number(likes).as_str());
            out.append(")");
            out
        },
        None => comment.author.clone(),
    };
    let mut body = "  ".to_owned();
    body.append(join(&words(comment.text.as_str()), " ").as_str());
    let r = [header, body];
    assert(texts(r@) =~= two_lines(comment@));
    r
}

/// The lines of the first `n` comments.
pub open spec fn all_lines(list: Seq<CommentView>, n: int) -> Seq<Seq<char>>
    decreases n,
{
    if n <= 0 {
        seq![]
    } else {
        all_lines(list, n - 1) + two_lines(list[n - 1])
    }
}

/// The lines of the list before they are cut to the screen.
pub open spec fn full_lines(state: Option<CommentState>) -> Seq<Seq<char>> {
    match state {
        None => seq![],
        Some(CommentState::Pending) => seq![LOADING@],
        Some(CommentState::Failed(reason)) => seq![
            "コメントを取得できませんでした: "@ + reason@,
        ],
        Some(CommentState::Ready(list)) => if list@.len() == 0 {
            seq![NO_COMMENTS@]
        } else {
            all_lines(comment_views(list@), list@.len() as int)
        },
    }
}

fn uncut_lines(state: Option<&CommentState>) -> (r: Vec<String>)
    ensures
        texts(r@) == full_lines(
            match state {
                Some(state) => Some(*state),
                None => None,
            },
        ),
{
    let mut out: Vec<String> = Vec::new();
    assert(texts(out@) =~= seq![]);
    match state {
        None => {},
        Some(CommentState::Pending) => {
            out.push(LOADING.to_owned());
            assert(texts(out@) =~= seq![LOADING@]);
        },
        Some(CommentState::Failed(reason)) => {
            let mut line = "コメントを取得できませんでした: ".to_owned();
            line.append(reason.as_str());
            let ghost shown = line@;
            out.push(line);
            assert(texts(out@) =~= seq![shown]);
        },
        Some(CommentState::Ready(list)) => {
            if list.len() == 0 {
                out.push(NO_COMMENTS.to_owned());
                assert(texts(out@) =~= seq![NO_COMMENTS@]);
            } else {
                let ghost views = comment_views(list@);
                for i in 0..list.len()
                    invariant
                        views == comment_views(list@),
                        texts(out@) == all_lines(views, i as int),
                {
                    let ghost before = texts(out@);
                    let pair = comment_lines(&list[i]);
                    proof {
                        assert(views[i as int] == list@[i as int]@);
                        assert(pair@[0]@ == texts(pair@)[0] && pair@[1]@ == texts(pair@)[1]);
                    }
                    out.push(pair[0].clone());
                    out.push(pair[1].clone());
                    assert(texts(out@) =~= before + two_lines(views[i as int]));
                }
            }
        },
    }
    out
}

/// `cut` is `line` shortened to `width` columns.
pub open spec fn is_cut(line: Seq<char>, width: int, cut: Seq<char>) -> bool {
    is_truncated(line, text_width(line), char_widths(line), width, cut)
}

/// The lines of the list, each cut to the width of the screen.
pub fn display_lines(state: Option<&CommentState>, width: usize) -> (r: Vec<String>)
    ensures
        ({
            let full = full_lines(
                match state {
                    Some(state) => Some(*state),
                    None => None,
                },
            );
            &&& r@.len() == full.len()
            &&& forall|i: int|
                0 <= i < full.len() ==> is_cut(full[i], width as int, (#[trigger] r@[i])@)
        }),
{
    let all = uncut_lines(state);
    let ghost full = texts(all@);
    let mut out: Vec<String> = Vec::new();
    for i in 0..all.len()
        invariant
            full == texts(all@),
            out@.len() == i,
            forall|j: int| 0 <= j < i ==> is_cut(full[j], width as int, (#[trigger] out@[j])@),
    {
        assert(full[i as int] == all@[i as int]@);
        out.push(truncate(all[i].as_str(), width));
    }
    out
}

proof fn lemma_all_lines_prefix(a: Seq<CommentView>, b: Seq<CommentView>, n: int)
    requires
        0 <= n <= a.len(),
    ensures
        all_lines(a + b, n) == all_lines(a, n),
    decreases n,
{
    if n > 0 {
        lemma_all_lines_prefix(a, b, n - 1);
        assert((a + b)[n - 1] == a[n - 1]);
    }
}

/// The lines of one list and then another are those of both, one after the other.
pub proof fn law_lines_of_lists_join(a: Seq<CommentView>, b: Seq<CommentView>)
    ensures
        all_lines(a + b, (a + b).len() as int) == all_lines(a, a.len() as int) + all_lines(
            b,
            b.len() as int,
        ),
    decreases b.len(),
{
    let n = b.len() as int;
    if n == 0 {
        assert(a + b =~= a);
        assert(all_lines(a, a.len() as int) + all_lines(b, 0) =~= all_lines(a, a.len() as int));
    } else {
        let c = b.drop_last();
        let end = seq![b.last()];
        law_lines_of_lists_join(a, c);
        assert(a + b =~= (a + c) + end);
        assert(b =~= c + end);
        lemma_all_lines_prefix(a + c, end, a.len() + n - 1);
        lemma_all_lines_prefix(c, end, n - 1);
        assert((a + b)[a.len() + n - 1] == b[n - 1]);
        assert(all_lines(a + b, (a + b).len() as int) =~= all_lines(a, a.len() as int) + all_lines(
            b,
            n,
        ));
    }
}

/// The comments are shown in the order in which they came, which is that of their likes:
/// the lines `2 * i` and `2 * i + 1` are those of comment `i`, and there are no others.
pub proof fn law_comments_keep_their_order(list: Vec<Comment>, i: int)
    requires
        0 <= i < list@.len(),
    ensures
        full_lines(Some(CommentState::Ready(list))).len() == 2 * list@.len(),
        full_lines(Some(CommentState::Ready(list)))[2 * i] == two_lines(list@[i]@)[0],
        full_lines(Some(CommentState::Ready(list)))[2 * i + 1] == two_lines(list@[i]@)[1],
{
    let views = comment_views(list@);
    lemma_lines_in_order(views, views.len() as int, i);
    assert(views[i] == list@[i]@);
}

proof fn lemma_lines_in_order(list: Seq<CommentView>, n: int, i: int)
    requires
        0 <= n <= list.len(),
    ensures
        all_lines(list, n).len() == 2 * n,
        0 <= i < n ==> all_lines(list, n)[2 * i] == two_lines(list[i])[0] && all_lines(list, n)[2
            * i + 1] == two_lines(list[i])[1],
    decreases n,
{
    if n > 0 {
        lemma_lines_in_order(list, n - 1, i);
    }
}

/// A comment is told by its author first, with the likes in brackets where they are known,
/// and its text stands indented on one line below.
pub proof fn law_comment_is_two_lines(comment: CommentView)
    ensures
        two_lines(comment).len() == 2,
        comment.like_count is None ==> two_lines(comment)[0] == comment.author,
        comment.like_count matches Some(likes) ==> {
            let head = two_lines(comment)[0];
            let n = comment.author.len() as int;
            let digits = decimal(likes as nat);
            &&& head.len() == n + 3 + digits.len() + 1
            &&& head.take(n) == comment.author
            &&& head.subrange(n, n + 3) == seq![' ', '(', '+']
            &&& head.subrange(n + 3, n + 3 + digits.len()) == digits
            &&& head.last() == ')'
        },
        two_lines(comment)[1].len() >= 2,
        two_lines(comment)[1].take(2) == seq![' ', ' '],
        two_lines(comment)[1].skip(2) == with_between(words_of(comment.text), seq![' ']),
{
    reveal_strlit(" (+");
    reveal_strlit(")");
    reveal_strlit("  ");
    reveal_strlit(" ");
    assert(" "@ =~= seq![' ']);
    let head = two_lines(comment)[0];
    let n = comment.author.len() as int;
    if let Some(likes) = comment.like_count {
        let digits = decimal(likes as nat);
        assert(head.take(n) =~= comment.author);
        assert(head.subrange(n, n + 3) =~= seq![' ', '(', '+']);
        assert(head.subrange(n + 3, n + 3 + digits.len()) =~= digits);
    }
    let body = two_lines(comment)[1];
    assert(body.take(2) =~= seq![' ', ' ']);
    assert(body.skip(2) =~= with_between(words_of(comment.text), seq![' ']));
}

/// Without a video there are no lines, and a list that is not there has one: what is the
/// matter.
pub proof fn law_missing_comments_are_one_line(list: Vec<Comment>, reason: String)
    ensures
        full_lines(None).len() == 0,
        full_lines(Some(CommentState::Pending)) == seq![LOADING@],
        list@.len() == 0 ==> full_lines(Some(CommentState::Ready(list))) == seq![NO_COMMENTS@],
        full_lines(Some(CommentState::Failed(reason))).len() == 1,
        full_lines(Some(CommentState::Failed(reason)))[0].len() >= reason@.len(),
        full_lines(Some(CommentState::Failed(reason)))[0].skip(
            full_lines(Some(CommentState::Failed(reason)))[0].len() - reason@.len(),
        ) == reason@,
        LOADING@ != NO_COMMENTS@,
{
    let line = full_lines(Some(CommentState::Failed(reason)))[0];
    assert(line.skip(line.len() - reason@.len()) =~= reason@);
    reveal_strlit("コメントを取得中…");
    reveal_strlit("コメントはありません");
    assert(LOADING@[4] != NO_COMMENTS@[4]);
}

/// What was fetched is shown for its own video, and for no other: what comes for another
/// one, or after the end, changes nothing.
pub proof fn law_comments_belong_to_their_video(
    comments: Comments,
    video_id: Seq<char>,
    list: Vec<Comment>,
    reason: String,
)
    ensures
        comments.video_id@ != video_id || comments.state is None ==> comments.answered(
            video_id,
            Ok(list),
        ) == comments && comments.answered(video_id, Err(reason)) == comments,
        comments.video_id@ == video_id && comments.state is Some ==> comments.answered(
            video_id,
            Ok(list),
        ).state == Some(CommentState::Ready(list)) && comments.answered(video_id, Err(reason)).state
            == Some(CommentState::Failed(reason)),
        comments.answered(video_id, Ok(list)).visible == comments.visible,
        comments.answered(video_id, Ok(list)).scroll == comments.scroll,
        comments.answered(video_id, Ok(list)).video_id == comments.video_id,
{
}

/// A video starts with its comments on the way, not shown, and at their beginning.
pub proof fn law_comments_begin_anew(video_id: String)
    ensures
        Comments::begun(video_id).video_id == video_id,
        Comments::begun(video_id).state == Some(CommentState::Pending),
        !Comments::begun(video_id).visible,
        Comments::begun(video_id).scroll == 0,
{
}

/// A list can be scrolled until its last line is the last that is shown, and not at all
/// where it fits.
pub proof fn law_scrolling_ends_with_the_last_line(total: int, height: int)
    requires
        total >= 0,
        height >= 0,
    ensures
        total >= height ==> scroll_limit(total, height) + height == total,
        total <= height ==> scroll_limit(total, height) == 0,
{
}

/// The list moves by the lines that were asked for, up to its ends; and back by as many.
pub proof fn law_comments_scroll_by_lines(comments: Comments, delta: int, total: int, height: int)
    requires
        total >= 0,
        height >= 0,
        comments.scroll <= scroll_limit(total, height),
    ensures
        comments.shown_from(total, height) == comments.scroll,
        0 <= comments.scroll + delta <= scroll_limit(total, height) ==> comments.scrolled_to(
            delta,
            total,
            height,
        ) - delta == comments.scroll,
        comments.scroll + delta < 0 ==> comments.scrolled_to(delta, total, height) == 0,
        comments.scroll + delta > scroll_limit(total, height) ==> comments.scrolled_to(
            delta,
            total,
            height,
        ) == scroll_limit(total, height),
{
}

/// Where the list became shorter than it was scrolled to, its end is shown.
pub proof fn law_shorter_comments_show_their_end(comments: Comments, total: int, height: int)
    requires
        total >= 0,
        height >= 0,
        comments.scroll > scroll_limit(total, height),
    ensures
        comments.shown_from(total, height) == scroll_limit(total, height),
{
}

/// The fifty comments with the most likes are asked for, of that video and without replies.
pub proof fn law_top_comments_are_asked_for(url: Seq<char>)
    ensures
        fetch_args(url).len() == 5,
        fetch_args(url)[0] == url,
        fetch_args(url)[1] == "-J"@,
        fetch_args(url)[2] == "--write-comments"@,
        fetch_args(url)[3] == "--extractor-args"@,
        fetch_args(url)[4] == "youtube:max_comments=50,all,0,0;comment_sort=top"@,
{
    reveal_strlit("youtube:max_comments=");
    reveal_strlit(",all,0,0;comment_sort=top");
    reveal_strlit("youtube:max_comments=50,all,0,0;comment_sort=top");
    reveal_with_fuel(decimal, 3);
    assert(decimal(50) =~= seq!['5', '0']);
    assert(fetch_args(url)[4] =~= "youtube:max_comments=50,all,0,0;comment_sort=top"@);
}

proof fn lemma_comments_in_prefix(a: Seq<Seq<char>>, b: Seq<Seq<char>>, n: int)
    requires
        0 <= n <= a.len(),
    ensures
        comments_in(a + b, n) == comments_in(a, n),
    decreases n,
{
    if n > 0 {
        lemma_comments_in_prefix(a, b, n - 1);
        assert((a + b)[n - 1] == a[n - 1]);
    }
}

/// The comments of one list of texts and then another are those of both, in that order.
pub proof fn law_comments_are_read_in_order(a: Seq<Seq<char>>, b: Seq<Seq<char>>)
    ensures
        comments_in(a + b, (a + b).len() as int) == comments_in(a, a.len() as int) + comments_in(
            b,
            b.len() as int,
        ),
    decreases b.len(),
{
    let n = b.len() as int;
    if n == 0 {
        assert(a + b =~= a);
        assert(comments_in(a, a.len() as int) + comments_in(b, 0) =~= comments_in(a, a.len() as int));
    } else {
        let c = b.drop_last();
        let end = seq![b.last()];
        law_comments_are_read_in_order(a, c);
        assert(a + b =~= (a + c) + end);
        assert(b =~= c + end);
        lemma_comments_in_prefix(a + c, end, a.len() + n - 1);
        lemma_comments_in_prefix(c, end, n - 1);
        assert((a + b)[a.len() + n - 1] == b[n - 1]);
        assert(comments_in(a + b, (a + b).len() as int) =~= comments_in(a, a.len() as int) + comments_in(
            b,
            n,
        ));
    }
}

/// Each readable text is one comment with its own text, author and likes, and one without
/// a text of its own is none.
pub proof fn law_one_text_is_one_comment(item: Seq<char>)
    ensures
        comments_in(seq![item], 1).len() <= 1,
        comments_in(seq![item], 1).len() == 1 <==> (parsed_json(item) matches Some(value)
            && field_value(value, "text"@) matches Some(JsonView::Text(_))),
        comments_in(seq![item], 1).len() == 1 ==> {
            let comment = comments_in(seq![item], 1)[0];
            let value = parsed_json(item)->0;
            &&& field_value(value, "text"@) == Some(JsonView::Text(comment.text))
            &&& field_value(value, "author"@) matches Some(JsonView::Text(name)) ==> comment.author
                == name
            &&& field_value(value, "author"@) is None ==> comment.author == UNKNOWN_AUTHOR@
            &&& field_value(value, "like_count"@) matches Some(JsonView::Number(n))
                ==> comment.like_count == n
            &&& field_value(value, "like_count"@) is None ==> comment.like_count is None
        },
{
    reveal_with_fuel(comments_in, 2);
}

/// Comments that could be read count, even where the run that fetched them failed; where
/// none could, the reason is told.
pub proof fn law_readable_comments_count(
    code: Option<i32>,
    stdout: String,
    stderr: String,
    r: Result<Vec<Comment>, String>,
)
    requires
        is_fetched(Some(RunEnd::Finished { code, stdout, stderr }), r),
    ensures
        page_of(stdout@) matches Some(JsonView::Object(_)) ==> r is Ok,
        !(page_of(stdout@) matches Some(JsonView::Object(_))) ==> r is Err,
        r is Ok ==> are_comments(stdout@, r),
        r is Err && code != Some(0i32) ==> {
            let told = r->Err_0@;
            let last = last_line(stderr@);
            told.len() >= last.len() && told.skip(told.len() - last.len()) == last
        },
{
    if r is Err && code != Some(0i32) {
        let told = r->Err_0@;
        let last = last_line(stderr@);
        assert(told.skip(told.len() - last.len()) =~= last);
    }
}

/// A run that took too long or did not start gives no comments.
pub proof fn law_no_run_no_comments(r: Result<Vec<Comment>, String>, missing: bool, reason: String)
    ensures
        is_fetched(None, r) ==> r is Err,
        is_fetched(Some(RunEnd::NotStarted { missing, reason }), r) ==> r is Err,
{
}

/// A page that is read gives what its list holds, and without a list nothing.
pub proof fn law_page_without_a_list_has_no_comments(
    page: Option<JsonView>,
    items: Seq<Seq<char>>,
    list: Option<JsonView>,
)
    ensures
        page matches Some(JsonView::Object(_)) ==> listed(page, Some(JsonView::List(items)))
            == Some(items) && listed(page, None) == Some(Seq::<Seq<char>>::empty()),
        !(page matches Some(JsonView::Object(_))) ==> listed(page, list) is None,
{
}

/// Before a video plays there are no comments to show.
pub proof fn law_no_comments_at_first(comments: Comments)
    requires
        comments.is_idle(),
    ensures
        comments.state is None,
        !comments.visible,
        comments.scroll == 0,
        comments.video_id@.len() == 0,
{
}

/// The last line is what follows the last line feed but one at the end, without the spaces
/// round it.
pub proof fn law_last_line_is_trimmed(text: Seq<char>)
    ensures
        lines_of(text).len() == 0 ==> last_line(text).len() == 0,
        lines_of(text).len() > 0 ==> last_line(text) == trimmed(lines_of(text).last()),
{
}

/// A comment needs a text. An author that is missing is called unknown, and likes that are
/// missing are left out.
pub proof fn law_comment_needs_a_text(
    text: Option<JsonView>,
    author: Option<JsonView>,
    likes: Option<JsonView>,
)
    ensures
        comment_of(text, author, likes) is Some <==> (text matches Some(value) && value is Text),
        comment_of(text, author, likes) matches Some(comment) ==> {
            &&& text == Some(JsonView::Text(comment.text))
            &&& author matches Some(JsonView::Text(name)) ==> comment.author == name
            &&& author is None ==> comment.author == UNKNOWN_AUTHOR@
            &&& likes matches Some(JsonView::Number(n)) ==> comment.like_count == n
            &&& likes is None ==> comment.like_count is None
        },
{
}

proof fn lemma_readable_texts_are_comments(items: Seq<Seq<char>>, n: int)
    requires
        0 <= n <= items.len(),
        forall|i: int| 0 <= i < items.len() ==> comment_in(#[trigger] items[i]) is Some,
    ensures
        comments_in(items, n).len() == n,
        forall|i: int|
            0 <= i < n ==> Some(#[trigger] comments_in(items, n)[i]) == comment_in(items[i]),
    decreases n,
{
    if n > 0 {
        lemma_readable_texts_are_comments(items, n - 1);
    }
}

/// Where every entry of the page is a comment, there are as many comments as entries, in
/// their order.
pub proof fn law_page_is_read_in_order(
    output: Seq<char>,
    items: Seq<Seq<char>>,
    r: Result<Vec<Comment>, String>,
    i: int,
)
    requires
        are_comments(output, r),
        listed(page_of(output), list_of(page_of(output))) == Some(items),
        forall|k: int| 0 <= k < items.len() ==> comment_in(#[trigger] items[k]) is Some,
        0 <= i < items.len(),
    ensures
        r is Ok,
        r->Ok_0@.len() == items.len(),
        Some(r->Ok_0@[i]@) == comment_in(items[i]),
{
    lemma_readable_texts_are_comments(items, items.len() as int);
    let views = comment_views(r->Ok_0@);
    assert(views.len() == r->Ok_0@.len());
    assert(views[i] == r->Ok_0@[i]@);
}

/// What the user is told of comments that did not come.
pub proof fn law_failed_comments_are_told(reason: String)
    ensures
        full_lines(Some(CommentState::Failed(reason))) == seq![
            "コメントを取得できませんでした: "@ + reason@,
        ],
{
}

} // verus!
