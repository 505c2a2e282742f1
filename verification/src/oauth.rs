//! What is sent in the name of the user's account.

use crate::search::SearchResult;
use crate::text::{after_prefix, begins, chars, maybe_text, place_of, text_of};
use vstd::prelude::*;
use vstd::string::*;

verus! {

pub const SUBSCRIBE_NOTICE: &'static str = "チャンネルを登録中…";

pub const LIKE_NOTICE: &'static str = "いいねを送信中…";

/// Why nothing is sent where neither `$HOME` nor `$XDG_CONFIG_HOME` is known.
pub const NO_CONFIG_PATH: &'static str =
    "認証情報の置き場が分かりません ($HOME を設定してください)";

/// Something that is sent.
#[derive(Debug, PartialEq, Eq)]
pub enum Action {
    /// To the channel of that id.
    Subscribe(String),
    /// For the video of that id.
    Like(String),
}

impl Clone for Action {
    fn clone(&self) -> (r: Self)
        ensures
            r == *self,
    {
        match self {
            Action::Subscribe(id) => Action::Subscribe(id.clone()),
            Action::Like(id) => Action::Like(id.clone()),
        }
    }
}

impl Action {
    pub open spec fn notice_text(self) -> Seq<char> {
        match self {
            Action::Subscribe(_) => SUBSCRIBE_NOTICE@,
            Action::Like(_) => LIKE_NOTICE@,
        }
    }

    /// What is shown while it is sent.
    pub fn notice(&self) -> (r: &'static str)
        ensures
            r@ == self.notice_text(),
    {
        match self {
            Action::Subscribe(_) => SUBSCRIBE_NOTICE,
            Action::Like(_) => LIKE_NOTICE,
        }
    }
}

/// What the address of a video begins with.
pub const WATCH_PREFIX: &'static str = "https://www.youtube.com/watch?v=";

/// The id in the address of a video: what follows the prefix, up to the next parameter.
pub open spec fn id_in(url: Seq<char>) -> Option<Seq<char>> {
    let rest = url.skip(WATCH_PREFIX@.len() as int);
    let end = place_of(rest, '&', 0);
    if begins(url, WATCH_PREFIX@) && end > 0 {
        Some(rest.take(end))
    } else {
        None
    }
}

pub fn video_id_from_url(url: &str) -> (r: Option<String>)
    ensures
        maybe_text(r) == id_in(url@),
{
    let rest = match after_prefix(url, WATCH_PREFIX) {
        Some(rest) => chars(rest.as_str()),
        None => {
            return None;
        },
    };
    let mut end: usize = 0;
    while end < rest.len() && rest[end] != '&'
        invariant
            end <= rest@.len(),
            place_of(rest@, '&', 0) == place_of(rest@, '&', end as int),
        decreases rest@.len() - end,
    {
        end = end + 1;
    }
    if end == 0 {
        return None;
    }
    let id = text_of(&rest, 0, end);
    assert(id@ =~= rest@.take(end as int));
    Some(id)
}

proof fn lemma_no_place(text: Seq<char>, c: char, from: int)
    requires
        0 <= from <= text.len(),
        !text.contains(c),
    ensures
        place_of(text, c, from) == text.len(),
    decreases text.len() - from,
{
    if from < text.len() {
        assert(text.contains(text[from]));
        lemma_no_place(text, c, from + 1);
    }
}

/// The id of a result is found in its address.
pub proof fn law_id_found_in_the_address(result: SearchResult)
    requires
        result.id@.len() > 0,
        !result.id@.contains('&'),
    ensures
        id_in(result.address()) == Some(result.id@),
{
    let url = result.address();
    let n = WATCH_PREFIX@.len() as int;
    assert(url.subrange(0, n) =~= WATCH_PREFIX@);
    assert(url.skip(n) =~= result.id@);
    lemma_no_place(result.id@, '&', 0);
    assert(result.id@.take(result.id@.len() as int) =~= result.id@);
}

/// Nothing but the address of a video has an id: it begins with the prefix, the id is what
/// follows up to the next parameter, and an empty one is none.
pub proof fn law_id_ends_at_the_next_parameter(id: Seq<char>, rest: Seq<char>, url: Seq<char>)
    requires
        !id.contains('&'),
    ensures
        id.len() > 0 ==> id_in(WATCH_PREFIX@ + id + seq!['&'] + rest) == Some(id),
        id.len() > 0 ==> id_in(WATCH_PREFIX@ + id) == Some(id),
        id_in(WATCH_PREFIX@ + seq!['&'] + rest) is None,
        id_in(WATCH_PREFIX@) is None,
        !begins(url, WATCH_PREFIX@) ==> id_in(url) is None,
        WATCH_PREFIX@ == "https://www.youtube.com/watch?v="@,
{
    let n = WATCH_PREFIX@.len() as int;
    let with = WATCH_PREFIX@ + id + seq!['&'] + rest;
    assert(with.subrange(0, n) =~= WATCH_PREFIX@);
    assert(with.skip(n) =~= id + seq!['&'] + rest);
    lemma_place_up_to(id, rest, 0);
    assert((id + seq!['&'] + rest).take(id.len() as int) =~= id);
    let plain = WATCH_PREFIX@ + id;
    assert(plain.subrange(0, n) =~= WATCH_PREFIX@);
    assert(plain.skip(n) =~= id);
    lemma_no_place(id, '&', 0);
    assert(id.take(id.len() as int) =~= id);
    let none = WATCH_PREFIX@ + seq!['&'] + rest;
    assert(none.skip(n) =~= seq!['&'] + rest);
    assert((seq!['&'] + rest)[0] == '&');
    assert(WATCH_PREFIX@.skip(n) =~= Seq::<char>::empty());
}

proof fn lemma_place_up_to(id: Seq<char>, rest: Seq<char>, from: int)
    requires
        0 <= from <= id.len(),
        !id.contains('&'),
    ensures
        place_of(id + seq!['&'] + rest, '&', from) == id.len(),
    decreases id.len() - from,
{
    let text = id + seq!['&'] + rest;
    if from < id.len() {
        assert(text[from] == id[from]);
        assert(id.contains(id[from]));
        lemma_place_up_to(id, rest, from + 1);
    } else {
        assert(text[from] == '&');
    }
}

/// A like and a subscription are told apart.
pub proof fn law_actions_are_told_apart(channel: String, video: String)
    ensures
        Action::Like(video).notice_text() != Action::Subscribe(channel).notice_text(),
        Action::Like(video).notice_text() == "いいねを送信中…"@,
        Action::Subscribe(channel).notice_text() == "チャンネルを登録中…"@,
{
    reveal_strlit("いいねを送信中…");
    reveal_strlit("チャンネルを登録中…");
    assert("いいねを送信中…"@[0] != "チャンネルを登録中…"@[0]);
}

} // verus!
