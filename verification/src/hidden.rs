//! Videos and channels that the user does not want to see. Nothing is sent anywhere:
//! rows are left out of the lists by what is collected here.

use crate::collections::TextSet;
use crate::paths::{app_config_dir, app_dir, file_below, join_path, seen};
use crate::search::SearchResult;
use crate::text::{chars, maybe_text, same};
use vstd::prelude::*;
use vstd::string::*;

verus! {

pub const HIDDEN_FILE: &'static str = "hidden.toml";

/// Why nothing can be kept.
pub const NO_HIDDEN_PATH: &'static str =
    "非表示リストの置き場が分かりません ($HOME を設定してください)";

/// Adding to a file that cannot be read would lose what it says.
pub const BROKEN_HIDDEN_FILE: &'static str = "hidden.toml が壊れています (手で直してください)";

/// One hidden video or channel. The title is for the user's eyes, but for a channel
/// it also tells rows without a channel id.
#[derive(Debug, PartialEq, Eq)]
pub struct Entry {
    pub id: String,
    pub title: String,
}

/// What the file says.
#[derive(Debug, PartialEq, Eq)]
pub struct HiddenFile {
    pub videos: Vec<Entry>,
    pub channels: Vec<Entry>,
}

/// What is hidden.
#[derive(Debug, Clone, Copy, PartialEq, Eq, Structural)]
pub enum Kind {
    Video,
    Channel,
}

impl Kind {
    pub open spec fn word(self) -> Seq<char> {
        match self {
            Kind::Video => "videos"@,
            Kind::Channel => "channels"@,
        }
    }

    /// The name of the list in the file.
    pub fn key(self) -> (r: &'static str)
        ensures
            r@ == self.word(),
    {
        match self {
            Kind::Video => "videos",
            Kind::Channel => "channels",
        }
    }
}

/// The hidden ids, and where they are kept.
#[derive(Debug, PartialEq, Eq)]
pub struct Hidden {
    pub videos: TextSet,
    pub channels: TextSet,
    /// The names of hidden channels, for rows without a channel id.
    pub channel_names: TextSet,
    /// `None` where there is no place to keep them.
    pub path: Option<String>,
}

/// Some entry has that id.
pub open spec fn has_id(entries: Seq<Entry>, id: Seq<char>) -> bool {
    exists|i: int| 0 <= i < entries.len() && (#[trigger] entries[i]).id@ == id
}

fn lists(entries: &Vec<Entry>, id: &str) -> (r: bool)
    ensures
        r == has_id(entries@, id@),
{
    for i in 0..entries.len()
        invariant
            forall|j: int| 0 <= j < i ==> (#[trigger] entries@[j]).id@ != id@,
    {
        if same(entries[i].id.as_str(), id) {
            assert(entries@[i as int].id@ == id@);
            return true;
        }
    }
    false
}

/// The ids of the first `n` entries.
pub open spec fn ids_of(entries: Seq<Entry>, n: int) -> Set<Seq<char>>
    decreases n,
{
    if n <= 0 {
        Set::empty()
    } else {
        ids_of(entries, n - 1).insert(entries[n - 1].id@)
    }
}

/// The titles of the first `n` entries, as far as they have one.
pub open spec fn titles_of(entries: Seq<Entry>, n: int) -> Set<Seq<char>>
    decreases n,
{
    if n <= 0 {
        Set::empty()
    } else if entries[n - 1].title@.len() == 0 {
        titles_of(entries, n - 1)
    } else {
        titles_of(entries, n - 1).insert(entries[n - 1].title@)
    }
}

/// A text as the `toml` crate writes it: in quotes, with what TOML wants escaped.
pub uninterp spec fn toml_text(text: Seq<char>) -> Seq<char>;

/// `to_string` of a `toml::Value` that holds the text. How TOML quotes a text is not
/// restated here.
#[verifier::external_body]
fn quoted(text: &str) -> (r: String)
    ensures
        r@ == toml_text(text@),
{
    toml::Value::String(text.to_owned()).to_string()
}

/// The text with one more entry at the end, given its id and title in TOML. A blank
/// line stands between it and what was there.
pub open spec fn appended(
    current: Seq<char>,
    kind: Kind,
    id: Seq<char>,
    title: Seq<char>,
) -> Seq<char> {
    let before = if current.len() == 0 {
        current
    } else if current.last() == '\n' {
        current.push('\n')
    } else {
        current.push('\n').push('\n')
    };
    before + "[["@ + kind.word() + "]]\n"@ + "id = "@ + id + "\n"@ + "title = "@ + title + "\n"@
}

/// Puts an entry, whose id and title are in TOML already, behind a text. What the text
/// says stays as it is, comments and all.
pub fn append(current: &str, kind: Kind, id: &str, title: &str) -> (r: String)
    ensures
        r@ == appended(current@, kind, id@, title@),
{
    let all = chars(current);
    let mut out = current.to_owned();
    if all.len() > 0 {
        if all[all.len() - 1] != '\n' {
            out.push('\n');
        }
        out.push('\n');
    }
    out.append("[[");
    out.append(kind.key());
    out.append("]]\n");
    out.append("id = ");
    out.append(id);
    out.append("\n");
    out.append("title = ");
    out.append(title);
    out.append("\n");
    out
}

impl Default for Hidden {
    fn default() -> (r: Self)
        ensures
            r.wf(),
            r.videos@ == Set::<Seq<char>>::empty(),
            r.channels@ == Set::<Seq<char>>::empty(),
            r.channel_names@ == Set::<Seq<char>>::empty(),
            r.path is None,
    {
        Hidden {
            videos: TextSet::new(),
            channels: TextSet::new(),
            channel_names: TextSet::new(),
            path: None,
        }
    }
}

impl Hidden {
    pub open spec fn wf(self) -> bool {
        self.videos.wf() && self.channels.wf() && self.channel_names.wf()
    }

    /// A row is left out: its video is hidden, or its channel, by id or by name.
    pub open spec fn covers(self, result: SearchResult) -> bool {
        ||| self.videos@.contains(result.id@)
        ||| result.channel_id matches Some(id) && self.channels@.contains(id@)
        ||| result.uploader matches Some(name) && self.channel_names@.contains(name@)
    }

    /// Rows of an account's lists and of a channel have no channel id, so the name
    /// has to do. A channel of the same name goes with it.
    pub fn hides(&self, result: &SearchResult) -> (r: bool)
        ensures
            r == self.covers(*result),
    {
        if self.videos.contains(result.id.as_str()) {
            return true;
        }
        if let Some(id) = &result.channel_id {
            if self.channels.contains(id.as_str()) {
                return true;
            }
        }
        match &result.uploader {
            Some(name) => self.channel_names.contains(name.as_str()),
            None => false,
        }
    }

    /// What becomes of the file where an entry is added, given what the file holds and
    /// what it was read as; `file` is `None` where it could not be read. `Ok(None)`
    /// leaves it as it is: the entry is there.
    pub open spec fn is_addition(
        self,
        kind: Kind,
        id: Seq<char>,
        title: Seq<char>,
        text: Seq<char>,
        file: Option<HiddenFile>,
        r: Result<Option<String>, String>,
    ) -> bool {
        match file {
            _ if self.path is None => r matches Err(reason) && reason@ == NO_HIDDEN_PATH@,
            None => r matches Err(reason) && reason@ == BROKEN_HIDDEN_FILE@,
            Some(file) => {
                let entries = match kind {
                    Kind::Video => file.videos@,
                    Kind::Channel => file.channels@,
                };
                if has_id(entries, id) {
                    r matches Ok(None)
                } else {
                    r matches Ok(Some(next)) && next@ == appended(
                        text,
                        kind,
                        toml_text(id),
                        toml_text(title),
                    )
                }
            },
        }
    }

    /// Decides what is written where an entry is added. The file is read anew for it,
    /// so that what was added elsewhere stays.
    pub fn addition(
        &self,
        kind: Kind,
        id: &str,
        title: &str,
        text: &str,
        file: &Option<HiddenFile>,
    ) -> (r: Result<Option<String>, String>)
        ensures
            self.is_addition(kind, id@, title@, text@, *file, r),
    {
        if self.path.is_none() {
            return Err(NO_HIDDEN_PATH.to_owned());
        }
        let file = match file {
            Some(file) => file,
            None => {
                return Err(BROKEN_HIDDEN_FILE.to_owned());
            },
        };
        let entries = match kind {
            Kind::Video => &file.videos,
            Kind::Channel => &file.channels,
        };
        if lists(entries, id) {
            return Ok(None);
        }
        Ok(Some(append(text, kind, quoted(id).as_str(), quoted(title).as_str())))
    }

    /// What is hidden once an entry was added.
    pub open spec fn is_added(self, kind: Kind, id: Seq<char>, title: Seq<char>, after: Self) -> bool {
        &&& after.path == self.path
        &&& match kind {
            Kind::Video => {
                &&& after.videos@ == self.videos@.insert(id)
                &&& after.channels == self.channels
                &&& after.channel_names == self.channel_names
            },
            Kind::Channel => {
                &&& after.videos == self.videos
                &&& after.channels@ == self.channels@.insert(id)
                &&& after.channel_names@ == (if title.len() == 0 {
                    self.channel_names@
                } else {
                    self.channel_names@.insert(title)
                })
            },
        }
    }

    /// Takes in how the file was written. Only what was written is hidden, so that
    /// list and file do not part.
    pub fn add(&mut self, kind: Kind, id: &str, title: &str, written: Result<(), String>) -> (r:
        Result<(), String>)
        requires
            old(self).wf(),
        ensures
            final(self).wf(),
            r == written,
            written is Ok ==> old(self).is_added(kind, id@, title@, *final(self)),
            written is Err ==> *final(self) == *old(self),
    {
        if written.is_err() {
            return written;
        }
        match kind {
            Kind::Video => self.videos.insert(id),
            Kind::Channel => {
                self.channels.insert(id);
                if !title.is_empty() {
                    self.channel_names.insert(title);
                }
            },
        }
        written
    }

    pub fn add_video(&mut self, id: &str, title: &str, written: Result<(), String>) -> (r: Result<
        (),
        String,
    >)
        requires
            old(self).wf(),
        ensures
            final(self).wf(),
            r == written,
            written is Ok ==> old(self).is_added(Kind::Video, id@, title@, *final(self)),
            written is Err ==> *final(self) == *old(self),
    {
        self.add(Kind::Video, id, title, written)
    }

    pub fn add_channel(&mut self, id: &str, title: &str, written: Result<(), String>) -> (r: Result<
        (),
        String,
    >)
        requires
            old(self).wf(),
        ensures
            final(self).wf(),
            r == written,
            written is Ok ==> old(self).is_added(Kind::Channel, id@, title@, *final(self)),
            written is Err ==> *final(self) == *old(self),
    {
        self.add(Kind::Channel, id, title, written)
    }

    /// What a file hides.
    pub fn from_file(file: &HiddenFile, path: String) -> (r: Self)
        ensures
            r.wf(),
            r.videos@ == ids_of(file.videos@, file.videos@.len() as int),
            r.channels@ == ids_of(file.channels@, file.channels@.len() as int),
            r.channel_names@ == titles_of(file.channels@, file.channels@.len() as int),
            r.path == Some(path),
    {
        let mut videos = TextSet::new();
        for i in 0..file.videos.len()
            invariant
                videos.wf(),
                videos@ == ids_of(file.videos@, i as int),
        {
            videos.insert(file.videos[i].id.as_str());
        }
        let mut channels = TextSet::new();
        let mut channel_names = TextSet::new();
        for i in 0..file.channels.len()
            invariant
                channels.wf(),
                channel_names.wf(),
                channels@ == ids_of(file.channels@, i as int),
                channel_names@ == titles_of(file.channels@, i as int),
        {
            channels.insert(file.channels[i].id.as_str());
            if !file.channels[i].title.as_str().is_empty() {
                channel_names.insert(file.channels[i].title.as_str());
            }
        }
        Hidden { videos, channels, channel_names, path: Some(path) }
    }
}

/// What is hidden at the start, given where it is kept and what is read there. A file
/// that is missing or broken hides nothing.
pub fn load_from(path: Option<&str>, file: &Option<HiddenFile>) -> (r: Hidden)
    ensures
        r.wf(),
        maybe_text(r.path) == seen(path),
        match *file {
            Some(file) if path is Some => {
                &&& r.videos@ == ids_of(file.videos@, file.videos@.len() as int)
                &&& r.channels@ == ids_of(file.channels@, file.channels@.len() as int)
                &&& r.channel_names@ == titles_of(file.channels@, file.channels@.len() as int)
            },
            _ => {
                &&& r.videos@ == Set::<Seq<char>>::empty()
                &&& r.channels@ == Set::<Seq<char>>::empty()
                &&& r.channel_names@ == Set::<Seq<char>>::empty()
            },
        },
{
    let path = match path {
        Some(path) => path.to_owned(),
        None => {
            return Hidden::default();
        },
    };
    match file {
        Some(file) => Hidden::from_file(file, path),
        None => {
            let mut hidden = Hidden::default();
            hidden.path = Some(path);
            hidden
        },
    }
}

/// A video that was added is left out from then on.
pub proof fn law_added_video_is_hidden(
    before: Hidden,
    after: Hidden,
    title: Seq<char>,
    result: SearchResult,
)
    requires
        before.is_added(Kind::Video, result.id@, title, after),
    ensures
        after.covers(result),
{
}

/// A channel that was added takes all its rows along: those with its id, and those
/// that have its name.
pub proof fn law_added_channel_is_hidden(
    before: Hidden,
    after: Hidden,
    id: Seq<char>,
    title: Seq<char>,
    result: SearchResult,
)
    requires
        before.is_added(Kind::Channel, id, title, after),
        maybe_text(result.channel_id) == Some(id) || (title.len() > 0 && maybe_text(result.uploader)
            == Some(title)),
    ensures
        after.covers(result),
{
}

/// Nothing that was hidden comes back where something is added.
pub proof fn law_adding_hides_no_less(
    before: Hidden,
    after: Hidden,
    kind: Kind,
    id: Seq<char>,
    title: Seq<char>,
    result: SearchResult,
)
    requires
        before.is_added(kind, id, title, after),
        before.covers(result),
    ensures
        after.covers(result),
{
}

/// What the file said stays at its beginning, to the letter.
pub proof fn law_append_keeps_the_text(
    current: Seq<char>,
    kind: Kind,
    id: Seq<char>,
    title: Seq<char>,
)
    ensures
        appended(current, kind, id, title).len() >= current.len(),
        appended(current, kind, id, title).take(current.len() as int) == current,
{
    assert(appended(current, kind, id, title).take(current.len() as int) =~= current);
}

/// Where the list is kept, beside the settings.
pub fn hidden_path(xdg_config_home: Option<&str>, home: Option<&str>) -> (r: Option<String>)
    ensures
        maybe_text(r) == file_below(
            app_dir(seen(xdg_config_home), seen(home), ".config"@),
            HIDDEN_FILE@,
        ),
{
    match app_config_dir(xdg_config_home, home) {
        Some(dir) => Some(join_path(dir.as_str(), HIDDEN_FILE)),
        None => None,
    }
}

/// The ids that a file hides are those of its entries, each of them and no other.
pub proof fn law_every_entry_is_hidden(entries: Seq<Entry>, n: int, id: Seq<char>)
    requires
        0 <= n <= entries.len(),
    ensures
        ids_of(entries, n).contains(id) <==> exists|i: int|
            0 <= i < n && (#[trigger] entries[i]).id@ == id,
    decreases n,
{
    if n > 0 {
        law_every_entry_is_hidden(entries, n - 1, id);
        if entries[n - 1].id@ == id {
            assert(entries[n - 1].id@ == id);
        }
    }
}

/// The names that a file hides are the titles of its channels, each that is not empty and
/// no other.
pub proof fn law_every_channel_name_is_hidden(entries: Seq<Entry>, n: int, title: Seq<char>)
    requires
        0 <= n <= entries.len(),
    ensures
        titles_of(entries, n).contains(title) <==> title.len() > 0 && exists|i: int|
            0 <= i < n && (#[trigger] entries[i]).title@ == title,
    decreases n,
{
    if n > 0 {
        law_every_channel_name_is_hidden(entries, n - 1, title);
        if entries[n - 1].title@ == title {
            assert(entries[n - 1].title@ == title);
        }
    }
}

/// What a file hides, row by row: `hidden` holds what the file says. A row is left out
/// where some entry names its video, its channel, or its uploader.
pub proof fn law_file_hides_its_entries(hidden: Hidden, file: HiddenFile, result: SearchResult)
    requires
        hidden.videos@ == ids_of(file.videos@, file.videos@.len() as int),
        hidden.channels@ == ids_of(file.channels@, file.channels@.len() as int),
        hidden.channel_names@ == titles_of(file.channels@, file.channels@.len() as int),
    ensures
        hidden.covers(result) <==> {
            ||| exists|i: int|
                0 <= i < file.videos@.len() && (#[trigger] file.videos@[i]).id@ == result.id@
            ||| exists|i: int|
                0 <= i < file.channels@.len() && Some((#[trigger] file.channels@[i]).id@)
                    == maybe_text(result.channel_id)
            ||| exists|i: int|
                0 <= i < file.channels@.len() && (#[trigger] file.channels@[i]).title@.len() > 0
                    && Some(file.channels@[i].title@) == maybe_text(result.uploader)
        },
{
    law_every_entry_is_hidden(file.videos@, file.videos@.len() as int, result.id@);
    if let Some(id) = result.channel_id {
        law_every_entry_is_hidden(file.channels@, file.channels@.len() as int, id@);
        if hidden.channels@.contains(id@) {
            let i = choose|i: int|
                0 <= i < file.channels@.len() && (#[trigger] file.channels@[i]).id@ == id@;
            assert(Some(file.channels@[i].id@) == maybe_text(result.channel_id));
        }
    }
    if let Some(name) = result.uploader {
        law_every_channel_name_is_hidden(file.channels@, file.channels@.len() as int, name@);
        if hidden.channel_names@.contains(name@) {
            let i = choose|i: int|
                0 <= i < file.channels@.len() && (#[trigger] file.channels@[i]).title@ == name@;
            assert(Some(file.channels@[i].title@) == maybe_text(result.uploader));
        }
    }
}

/// Hiding a video hides no other one, and hiding a channel no other channel.
pub proof fn law_adding_hides_no_more(
    before: Hidden,
    after: Hidden,
    kind: Kind,
    id: Seq<char>,
    title: Seq<char>,
    result: SearchResult,
)
    requires
        before.is_added(kind, id, title, after),
        !before.covers(result),
        after.covers(result),
    ensures
        kind == Kind::Video ==> result.id@ == id,
        kind == Kind::Channel ==> maybe_text(result.channel_id) == Some(id) || (title.len() > 0
            && maybe_text(result.uploader) == Some(title)),
{
}

/// What is hidden is hidden by nothing but its id, its channel or its uploader's name.
pub proof fn law_row_is_hidden_by_what_it_names(hidden: Hidden, result: SearchResult)
    ensures
        hidden.videos@.contains(result.id@) ==> hidden.covers(result),
        maybe_text(result.channel_id) matches Some(id) ==> hidden.channels@.contains(id)
            ==> hidden.covers(result),
        maybe_text(result.uploader) matches Some(name) ==> hidden.channel_names@.contains(name)
            ==> hidden.covers(result),
        !hidden.videos@.contains(result.id@) && result.channel_id is None && result.uploader is None
            ==> !hidden.covers(result),
        hidden.covers(result) && !hidden.videos@.contains(result.id@) ==> {
            ||| result.channel_id matches Some(id) && hidden.channels@.contains(id@)
            ||| result.uploader matches Some(name) && hidden.channel_names@.contains(name@)
        },
{
}

/// The new entry stands at the end of the file, under the list of its kind, with a blank
/// line before it unless the file was empty.
pub proof fn law_entry_stands_at_the_end(
    current: Seq<char>,
    kind: Kind,
    id: Seq<char>,
    title: Seq<char>,
)
    ensures
        ({
            let entry = "[["@ + kind.word() + "]]\nid = "@ + id + "\ntitle = "@ + title + "\n"@;
            let all = appended(current, kind, id, title);
            let before = all.len() - entry.len();
            &&& before >= current.len()
            &&& all.skip(before) == entry
            &&& current.len() == 0 ==> before == 0
            &&& current.len() > 0 ==> before >= 2 && all[before - 1] == '\n' && all[before - 2]
                == '\n'
            &&& before <= current.len() + 2
            &&& current.len() > 0 && current.last() == '\n' ==> before == current.len() + 1
        }),
        Kind::Video.word() == "videos"@,
        Kind::Channel.word() == "channels"@,
{
    reveal_strlit("]]\nid = ");
    reveal_strlit("]]\n");
    reveal_strlit("id = ");
    reveal_strlit("\ntitle = ");
    reveal_strlit("title = ");
    reveal_strlit("\n");
    let entry = "[["@ + kind.word() + "]]\nid = "@ + id + "\ntitle = "@ + title + "\n"@;
    let all = appended(current, kind, id, title);
    assert("]]\nid = "@ =~= "]]\n"@ + "id = "@);
    assert("\ntitle = "@ =~= "\n"@ + "title = "@);
    assert(all.skip(all.len() - entry.len()) =~= entry);
}

/// An id that is there is not written again, and one that is not is; without a place or
/// with a broken file nothing is written.
pub proof fn law_entry_is_written_once(
    hidden: Hidden,
    kind: Kind,
    id: Seq<char>,
    title: Seq<char>,
    text: Seq<char>,
    file: Option<HiddenFile>,
    r: Result<Option<String>, String>,
)
    requires
        hidden.is_addition(kind, id, title, text, file, r),
    ensures
        hidden.path is None || file is None ==> r is Err,
        hidden.path is Some && file is Some ==> r is Ok,
        r matches Ok(None) <==> hidden.path is Some && (file matches Some(file) && match kind {
            Kind::Video => exists|i: int|
                0 <= i < file.videos@.len() && (#[trigger] file.videos@[i]).id@ == id,
            Kind::Channel => exists|i: int|
                0 <= i < file.channels@.len() && (#[trigger] file.channels@[i]).id@ == id,
        }),
        r matches Ok(Some(next)) ==> next@.len() > text.len() && next@.take(text.len() as int) == text,
{
    law_append_keeps_the_text(text, kind, toml_text(id), toml_text(title));
    law_entry_stands_at_the_end(text, kind, toml_text(id), toml_text(title));
    reveal_strlit("\n");
}

/// Hiding one thing more leaves the file where it is and the other lists as they are.
pub proof fn law_hiding_keeps_the_other_lists(
    hidden: Hidden,
    kind: Kind,
    id: Seq<char>,
    title: Seq<char>,
    after: Hidden,
)
    requires
        hidden.is_added(kind, id, title, after),
    ensures
        after.path == hidden.path,
        kind is Video ==> after.channels@ == hidden.channels@ && after.channel_names@
            == hidden.channel_names@,
        kind is Channel ==> after.videos@ == hidden.videos@,
        kind is Channel && title.len() == 0 ==> after.channel_names@ == hidden.channel_names@,
        kind is Channel && title.len() > 0 ==> after.channel_names@.contains(title),
{
}

/// An id is among the entries exactly where some entry has it.
pub proof fn law_listed_id_is_found(entries: Seq<Entry>, entry: Entry, id: Seq<char>)
    ensures
        has_id(entries.push(entry), id) <==> entry.id@ == id || has_id(entries, id),
        !has_id(Seq::<Entry>::empty(), id),
{
    let more = entries.push(entry);
    if has_id(entries, id) {
        let i = choose|i: int| 0 <= i < entries.len() && (#[trigger] entries[i]).id@ == id;
        assert(more[i].id@ == id);
    }
    assert(more[entries.len() as int] == entry);
    if has_id(more, id) && entry.id@ != id {
        let i = choose|i: int| 0 <= i < more.len() && (#[trigger] more[i]).id@ == id;
        assert(entries[i].id@ == id);
    }
}

} // verus!
