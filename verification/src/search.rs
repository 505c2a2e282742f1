//! What a search gives back.

use vstd::prelude::*;
use vstd::string::*;

verus! {

/// One video of a list.
#[derive(Debug, PartialEq, Eq)]
pub struct SearchResult {
    pub id: String,
    pub title: String,
    /// In milliseconds.
    pub duration: Option<u64>,
    pub uploader: Option<String>,
    /// Lists of an account and of a channel leave it out.
    pub channel_id: Option<String>,
    pub is_live: bool,
}

impl Clone for SearchResult {
    fn clone(&self) -> (r: Self)
        ensures
            r == *self,
    {
        SearchResult {
            id: self.id.clone(),
            title: self.title.clone(),
            duration: self.duration,
            uploader: crate::display::copy_of(&self.uploader),
            channel_id: crate::display::copy_of(&self.channel_id),
            is_live: self.is_live,
        }
    }
}

impl SearchResult {
    pub open spec fn address(self) -> Seq<char> {
        "https://www.youtube.com/watch?v="@ + self.id@
    }

    /// Where the video is played from.
    pub fn url(&self) -> (r: String)
        ensures
            r@ == self.address(),
    {
        let mut out = "https://www.youtube.com/watch?v=".to_owned();
        out.append(self.id.as_str());
        out
    }
}

/// Copies a list of results.
pub fn copy_results(list: &Vec<SearchResult>) -> (r: Vec<SearchResult>)
    ensures
        r@ == list@,
{
    let mut out: Vec<SearchResult> = Vec::new();
    for i in 0..list.len()
        invariant
            out@ == list@.take(i as int),
    {
        out.push(list[i].clone());
        assert(out@ =~= list@.take(i + 1));
    }
    assert(list@.take(list@.len() as int) =~= list@);
    out
}

/// Why the downloader could not be started.
pub open spec fn launch_text(missing: bool, reason: Seq<char>) -> Seq<char> {
    if missing {
        "yt-dlp が見つかりません (PATH を確認してください)"@
    } else {
        "yt-dlp の起動に失敗しました: "@ + reason
    }
}

pub fn launch_error(missing: bool, reason: &str) -> (r: String)
    ensures
        r@ == launch_text(missing, reason@),
{
    if missing {
        "yt-dlp が見つかりません (PATH を確認してください)".to_owned()
    } else {
        let mut out = "yt-dlp の起動に失敗しました: ".to_owned();
        out.append(reason);
        out
    }
}

/// How a run of an outside program ended.
#[derive(Debug, PartialEq, Eq)]
pub enum RunEnd {
    /// It could not be started; `missing` where it is not there at all.
    NotStarted { missing: bool, reason: String },
    /// `code` is `None` where a signal ended it.
    Finished { code: Option<i32>, stdout: String, stderr: String },
}

/// Whether a program reported success.
pub fn succeeded(code: Option<i32>) -> (r: bool)
    ensures
        r == (code == Some(0i32)),
{
    match code {
        Some(code) => code == 0,
        None => false,
    }
}

/// The address of a video ends with its id, so that videos with different ids have
/// different addresses.
pub proof fn law_addresses_differ(a: SearchResult, b: SearchResult)
    ensures
        a.address().len() > a.id@.len(),
        a.address().skip(a.address().len() - a.id@.len()) == a.id@,
        a.address().take(a.address().len() - a.id@.len()) == "https://www.youtube.com/watch?v="@,
        a.address() == b.address() ==> a.id@ == b.id@,
{
    reveal_strlit("https://www.youtube.com/watch?v=");
    let n = "https://www.youtube.com/watch?v="@.len() as int;
    assert(a.address().skip(n) =~= a.id@);
    assert(b.address().skip(n) =~= b.id@);
    assert(a.address().take(n) =~= "https://www.youtube.com/watch?v="@);
}

/// A downloader that is missing is told apart from one that fails to start, whose reason
/// is told.
pub proof fn law_launch_failure_is_told(reason: Seq<char>)
    ensures
        launch_text(true, reason) == "yt-dlp が見つかりません (PATH を確認してください)"@,
        launch_text(false, reason).len() >= reason.len(),
        launch_text(false, reason).skip(launch_text(false, reason).len() - reason.len()) == reason,
        launch_text(true, reason) != launch_text(false, reason),
{
    let told = launch_text(false, reason);
    assert(told.skip(told.len() - reason.len()) =~= reason);
    reveal_strlit("yt-dlp が見つかりません (PATH を確認してください)");
    reveal_strlit("yt-dlp の起動に失敗しました: ");
    assert(launch_text(true, reason)[7] != told[7]);
}

} // verus!
