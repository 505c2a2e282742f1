//! Subtitles: what the player is asked for, and what it is seen to show.

use crate::mpv::{
    number_in, set_property, setting, text_in, ArgView, MpvArg, MpvCommand, Reported, REQ_DURATION,
    REQ_SID, REQ_SUB_LANG,
};
use crate::text::{chars, joined, place_of, text_of, texts, trim, trimmed};
use vstd::prelude::*;
use vstd::string::*;

verus! {

/// How long after loading a track may take to be selected, in milliseconds.
pub const SELECT_GRACE: u64 = 5_000;

/// How long after the start a video without a known length may take to load.
pub const LOAD_GRACE: u64 = 30_000;

/// The languages asked for, in order of preference, separated by commas.
#[derive(Debug, PartialEq, Eq)]
pub struct SubLang {
    pub list: String,
}

impl Clone for SubLang {
    fn clone(&self) -> (r: Self)
        ensures
            r == *self,
    {
        SubLang { list: self.list.clone() }
    }
}

impl SubLang {
    /// The first language of the list.
    pub open spec fn first_text(self) -> Seq<char> {
        self.list@.take(place_of(self.list@, ',', 0))
    }

    pub fn parse(text: &str) -> (r: Option<Self>)
        ensures
            r is Some <==> trimmed(text@).len() > 0,
            r matches Some(lang) ==> lang.list@ == trimmed(text@),
    {
        let list = trim(text);
        if list.as_str().is_empty() {
            None
        } else {
            Some(SubLang { list })
        }
    }

    pub fn first(&self) -> (r: String)
        ensures
            r@ == self.first_text(),
    {
        let all = chars(self.list.as_str());
        let mut end: usize = 0;
        while end < all.len() && all[end] != ','
            invariant
                all@ == self.list@,
                end <= all@.len(),
                place_of(all@, ',', 0) == place_of(all@, ',', end as int),
            decreases all.len() - end,
        {
            end = end + 1;
        }
        let r = text_of(&all, 0, end);
        assert(r@ =~= self.first_text());
        r
    }
}

#[derive(Debug, PartialEq, Eq)]
pub struct SubtitleSettings {
    pub enabled: bool,
    pub lang: SubLang,
}

impl Clone for SubtitleSettings {
    fn clone(&self) -> (r: Self)
        ensures
            r == *self,
    {
        SubtitleSettings { enabled: self.enabled, lang: self.lang.clone() }
    }
}

/// What the player is started with.
#[derive(Debug, PartialEq, Eq)]
pub enum SubtitleLaunch {
    /// Subtitles are switched off in the settings.
    Disabled,
    Prepared { lang: SubLang, shown: bool },
}

impl Clone for SubtitleLaunch {
    fn clone(&self) -> (r: Self)
        ensures
            r == *self,
    {
        match self {
            SubtitleLaunch::Disabled => SubtitleLaunch::Disabled,
            SubtitleLaunch::Prepared { lang, shown } => SubtitleLaunch::Prepared {
                lang: lang.clone(),
                shown: *shown,
            },
        }
    }
}

impl SubtitleLaunch {
    /// The arguments to start the player with. A hidden subtitle is prepared too, so
    /// that it can be shown while the video plays.
    pub open spec fn arg_texts(self) -> Seq<Seq<char>> {
        match self {
            SubtitleLaunch::Disabled => seq![],
            SubtitleLaunch::Prepared { lang, shown } => {
                let always = seq![
                    "--ytdl-raw-options-append=write-auto-subs="@,
                    "--ytdl-raw-options-append=sub-langs="@ + lang.list@,
                    "--slang="@ + lang.list@,
                ];
                if shown {
                    always
                } else {
                    always.push("--sid=no"@)
                }
            },
        }
    }

    /// What to start with under those settings.
    pub open spec fn wants(self, settings: SubtitleSettings, shown: bool) -> bool {
        if settings.enabled {
            self == (SubtitleLaunch::Prepared { lang: settings.lang, shown })
        } else {
            self is Disabled
        }
    }

    pub fn new(settings: &SubtitleSettings, shown: bool) -> (r: Self)
        ensures
            r.wants(*settings, shown),
    {
        if settings.enabled {
            SubtitleLaunch::Prepared { lang: settings.lang.clone(), shown }
        } else {
            SubtitleLaunch::Disabled
        }
    }

    pub fn args(&self) -> (r: Vec<String>)
        ensures
            texts(r@) == self.arg_texts(),
    {
        let mut out: Vec<String> = Vec::new();
        match self {
            SubtitleLaunch::Disabled => {},
            SubtitleLaunch::Prepared { lang, shown } => {
                out.push("--ytdl-raw-options-append=write-auto-subs=".to_owned());
                let mut langs = "--ytdl-raw-options-append=sub-langs=".to_owned();
                langs.append(lang.list.as_str());
                out.push(langs);
                let mut slang = "--slang=".to_owned();
                slang.append(lang.list.as_str());
                out.push(slang);
                if !*shown {
                    out.push("--sid=no".to_owned());
                }
            },
        }
        assert(texts(out@) =~= self.arg_texts());
        out
    }
}

#[derive(Debug, Clone, Copy, PartialEq, Eq, Structural)]
pub enum SubtitleStatus {
    /// Not asked for.
    Off,
    /// Asked for, and not seen yet.
    Loading,
    Shown,
    /// Asked for, and not there though it had time to come.
    Missing,
}

/// What is known of the subtitles of the running video. Times are milliseconds.
#[derive(Debug, PartialEq, Eq)]
pub struct SubtitleState {
    /// Carried over from video to video.
    pub wanted: bool,
    /// The player reported a selected track.
    pub selected: bool,
    /// The language of the track that the player chose.
    pub chosen: Option<String>,
    pub started_at: Option<u64>,
    pub loaded_at: Option<u64>,
}

/// `since` is at least `grace` ago.
pub open spec fn waited(since: Option<u64>, grace: u64, now: u64) -> bool {
    since matches Some(t) && now >= t && now - t >= grace
}

fn has_waited(since: Option<u64>, grace: u64, now: u64) -> (r: bool)
    ensures
        r == waited(since, grace, now),
{
    match since {
        Some(t) => now >= t && now - t >= grace,
        None => false,
    }
}

/// Whether a track is selected, as the player reports it.
#[derive(Debug, Clone, Copy, PartialEq, Eq, Structural)]
pub enum SidReport {
    /// The number of a track.
    Track,
    /// Anything else that came back.
    NoTrack,
    /// Nothing came back.
    Silent,
}

impl SubtitleState {
    pub fn from_settings(settings: &SubtitleSettings) -> (r: Self)
        ensures
            r == (SubtitleState {
                wanted: settings.enabled,
                selected: false,
                chosen: None,
                started_at: None,
                loaded_at: None,
            }),
    {
        SubtitleState {
            wanted: settings.enabled,
            selected: false,
            chosen: None,
            started_at: None,
            loaded_at: None,
        }
    }

    /// What is known where a video just started.
    pub open spec fn started(self, now: u64) -> SubtitleState {
        SubtitleState {
            wanted: self.wanted,
            selected: false,
            chosen: None,
            started_at: Some(now),
            loaded_at: None,
        }
    }

    /// What is known once they were asked for, or not any more. Waiting starts anew.
    pub open spec fn wished(self, wanted: bool, now: u64) -> SubtitleState {
        SubtitleState {
            wanted,
            loaded_at: if self.loaded_at is Some {
                Some(now)
            } else {
                None
            },
            ..self
        }
    }

    /// A new video: the wish stays, what the last video showed goes.
    pub fn begin_playback(&mut self, now: u64)
        ensures
            *final(self) == old(self).started(now),
    {
        self.selected = false;
        self.chosen = None;
        self.started_at = Some(now);
        self.loaded_at = None;
    }

    pub fn set_wanted(&mut self, wanted: bool, now: u64)
        ensures
            *final(self) == old(self).wished(wanted, now),
    {
        self.wanted = wanted;
        if self.loaded_at.is_some() {
            self.loaded_at = Some(now);
        }
    }

    /// The length of the video became known. Waiting for a track starts there.
    pub fn observe_loaded(&mut self, loaded: bool, now: u64)
        ensures
            *final(self) == (SubtitleState {
                loaded_at: if loaded && old(self).loaded_at is None {
                    Some(now)
                } else {
                    old(self).loaded_at
                },
                ..*old(self)
            }),
    {
        if loaded && self.loaded_at.is_none() {
            self.loaded_at = Some(now);
        }
    }

    pub fn observe_sid(&mut self, report: SidReport)
        ensures
            *final(self) == (SubtitleState {
                selected: match report {
                    SidReport::Track => true,
                    SidReport::NoTrack => false,
                    SidReport::Silent => old(self).selected,
                },
                ..*old(self)
            }),
    {
        match report {
            SidReport::Track => {
                self.selected = true;
            },
            SidReport::NoTrack => {
                self.selected = false;
            },
            SidReport::Silent => {},
        }
    }

    pub fn observe_sub_lang(&mut self, lang: Option<String>)
        ensures
            *final(self) == (SubtitleState { chosen: lang, ..*old(self) }),
    {
        self.chosen = lang;
    }

    pub open spec fn seen(self, settings: SubtitleSettings, now: u64) -> SubtitleStatus {
        if !settings.enabled || !self.wanted {
            SubtitleStatus::Off
        } else if self.selected {
            SubtitleStatus::Shown
        } else if waited(self.loaded_at, SELECT_GRACE, now) || waited(
            self.started_at,
            LOAD_GRACE,
            now,
        ) {
            SubtitleStatus::Missing
        } else {
            SubtitleStatus::Loading
        }
    }

    pub fn status(&self, settings: &SubtitleSettings, now: u64) -> (r: SubtitleStatus)
        ensures
            r == self.seen(*settings, now),
    {
        if !settings.enabled || !self.wanted {
            SubtitleStatus::Off
        } else if self.selected {
            SubtitleStatus::Shown
        } else if has_waited(self.loaded_at, SELECT_GRACE, now) || has_waited(
            self.started_at,
            LOAD_GRACE,
            now,
        ) {
            SubtitleStatus::Missing
        } else {
            SubtitleStatus::Loading
        }
    }

    /// What the status line says of the subtitles.
    pub open spec fn marker_text(self, settings: SubtitleSettings, now: u64) -> Option<Seq<char>> {
        match self.seen(settings, now) {
            SubtitleStatus::Off => None,
            SubtitleStatus::Loading => Some("字幕..."@),
            SubtitleStatus::Shown => Some(
                "字幕"@ + match self.chosen {
                    Some(lang) => lang@,
                    None => settings.lang.first_text(),
                },
            ),
            SubtitleStatus::Missing => Some("字幕なし"@),
        }
    }

    pub fn marker(&self, settings: &SubtitleSettings, now: u64) -> (r: Option<String>)
        ensures
            crate::text::maybe_text(r) == self.marker_text(*settings, now),
    {
        match self.status(settings, now) {
            SubtitleStatus::Off => None,
            SubtitleStatus::Loading => Some("字幕...".to_owned()),
            SubtitleStatus::Shown => {
                let mut out = "字幕".to_owned();
                match &self.chosen {
                    Some(lang) => out.append(lang.as_str()),
                    None => out.append(settings.lang.first().as_str()),
                }
                Some(out)
            },
            SubtitleStatus::Missing => Some("字幕なし".to_owned()),
        }
    }

    /// The command that selects a track, or none.
    pub open spec fn order(wanted: bool) -> Seq<ArgView> {
        setting(
            "sid"@,
            ArgView::Text(
                if wanted {
                    "auto"@
                } else {
                    "no"@
                },
            ),
        )
    }

    /// The opposite of what is wanted now, and the command for it. Refused with the
    /// reason where subtitles are switched off in the settings.
    pub fn toggle_command(&self, settings: &SubtitleSettings) -> (r: Result<
        (bool, MpvCommand),
        String,
    >)
        ensures
            r is Ok <==> settings.enabled,
            r matches Ok(next) ==> next.0 == !self.wanted && next.1@ == Self::order(!self.wanted)
                && next.1.request_id is None,
            r matches Err(reason) ==> reason@ == disabled_text(),
    {
        if !settings.enabled {
            return Err("字幕は設定で無効です ([subtitles] enabled)".to_owned());
        }
        let wanted: bool = !self.wanted;
        let value = if wanted {
            "auto".to_owned()
        } else {
            "no".to_owned()
        };
        Ok((wanted, set_property("sid", MpvArg::Text(value))))
    }
}

/// What a report says of the selected subtitle track: a number is one, any other
/// answer is none.
pub open spec fn track_in(data: Option<Reported>) -> SidReport {
    match data {
        Some(Reported::Number(_)) => SidReport::Track,
        Some(_) => SidReport::NoTrack,
        None => SidReport::Silent,
    }
}

impl SubtitleState {
    /// What is known of the subtitles once the answer to a poll was taken in.
    pub open spec fn polled(self, id: u64, data: Option<Reported>, now: u64) -> SubtitleState {
        if id == REQ_DURATION {
            SubtitleState {
                loaded_at: if number_in(data) is Some && self.loaded_at is None {
                    Some(now)
                } else {
                    self.loaded_at
                },
                ..self
            }
        } else if id == REQ_SID {
            SubtitleState {
                selected: match track_in(data) {
                    SidReport::Track => true,
                    SidReport::NoTrack => false,
                    SidReport::Silent => self.selected,
                },
                ..self
            }
        } else if id == REQ_SUB_LANG {
            SubtitleState { chosen: text_in(data), ..self }
        } else {
            self
        }
    }

    pub fn apply_property(&mut self, id: u64, data: &Option<Reported>, now: u64)
        ensures
            *final(self) == old(self).polled(id, *data, now),
    {
        if id == REQ_DURATION {
            let known: bool = match data {
                Some(Reported::Number(_)) => true,
                _ => false,
            };
            self.observe_loaded(known, now);
        } else if id == REQ_SID {
            self.observe_sid(
                match data {
                    Some(Reported::Number(_)) => SidReport::Track,
                    Some(_) => SidReport::NoTrack,
                    None => SidReport::Silent,
                },
            );
        } else if id == REQ_SUB_LANG {
            self.observe_sub_lang(
                match data {
                    Some(Reported::Text(text)) => Some(text.clone()),
                    _ => None,
                },
            );
        }
    }
}

pub open spec fn disabled_text() -> Seq<char> {
    "字幕は設定で無効です ([subtitles] enabled)"@
}

pub open spec fn text_mode_text() -> Seq<char> {
    "テキスト表示では映像に字幕が出ません"@
}

pub open spec fn missing_text(lang: SubLang) -> Seq<char> {
    "この動画に "@ + lang.list@ + " の字幕がありません"@
}

pub open spec fn toggle_text(wanted: bool, lang: SubLang) -> Seq<char> {
    if wanted {
        "字幕を出します ("@ + lang.first_text() + ")"@
    } else {
        "字幕を消しました"@
    }
}

pub fn text_mode_notice() -> (r: String)
    ensures
        r@ == text_mode_text(),
{
    "テキスト表示では映像に字幕が出ません".to_owned()
}

pub fn missing_notice(lang: &SubLang) -> (r: String)
    ensures
        r@ == missing_text(*lang),
{
    joined("この動画に ", lang.list.as_str(), " の字幕がありません")
}

pub fn toggle_notice(wanted: bool, lang: &SubLang) -> (r: String)
    ensures
        r@ == toggle_text(wanted, *lang),
{
    if wanted {
        joined("字幕を出します (", lang.first().as_str(), ")")
    } else {
        "字幕を消しました".to_owned()
    }
}

/// The first language is what stands before the first comma.
pub proof fn law_first_language(lang: SubLang)
    ensures
        lang.first_text().len() <= lang.list@.len(),
        lang.first_text() == lang.list@.take(lang.first_text().len() as int),
        forall|i: int| 0 <= i < lang.first_text().len() ==> #[trigger] lang.first_text()[i] != ',',
        lang.first_text().len() < lang.list@.len() ==> lang.list@[lang.first_text().len() as int]
            == ',',
{
    crate::text::law_first_place_is_found(lang.list@, ',', 0);
}

/// The player is started with subtitles in the languages that are set, prepared even where
/// they are not shown at once; where they are switched off it is started without.
pub proof fn law_subtitles_are_prepared(lang: SubLang, shown: bool)
    ensures
        SubtitleLaunch::Disabled.arg_texts().len() == 0,
        ({
            let args = (SubtitleLaunch::Prepared { lang, shown }).arg_texts();
            &&& args.len() == (if shown {
                3int
            } else {
                4
            })
            &&& args[0] == "--ytdl-raw-options-append=write-auto-subs="@
            &&& args[1] == "--ytdl-raw-options-append=sub-langs="@ + lang.list@
            &&& args[2] == "--slang="@ + lang.list@
            &&& !shown ==> args[3] == "--sid=no"@
        }),
{
}

/// The settings decide whether subtitles are prepared, and the user whether they are shown.
pub proof fn law_settings_decide_on_subtitles(
    launch: SubtitleLaunch,
    settings: SubtitleSettings,
    shown: bool,
)
    requires
        launch.wants(settings, shown),
    ensures
        !settings.enabled ==> launch is Disabled,
        settings.enabled ==> launch == (SubtitleLaunch::Prepared { lang: settings.lang, shown }),
{
}

/// Subtitles that are not asked for are off; those that are asked for are shown once a
/// track is selected, and missing where none was within five seconds of the video being
/// loaded, or thirty of its start.
pub proof fn law_subtitles_come_or_are_missing(
    state: SubtitleState,
    settings: SubtitleSettings,
    now: u64,
)
    ensures
        !settings.enabled || !state.wanted ==> state.seen(settings, now) == SubtitleStatus::Off,
        settings.enabled && state.wanted && state.selected ==> state.seen(settings, now)
            == SubtitleStatus::Shown,
        settings.enabled && state.wanted && !state.selected ==> {
            &&& state.loaded_at matches Some(at) ==> now >= at + 5_000 ==> state.seen(settings, now)
                == SubtitleStatus::Missing
            &&& state.started_at matches Some(at) ==> now >= at + 30_000 ==> state.seen(
                settings,
                now,
            ) == SubtitleStatus::Missing
            &&& (state.loaded_at is None || now < state.loaded_at->0 + 5_000) && (state.started_at
                is None || now < state.started_at->0 + 30_000) ==> state.seen(settings, now)
                == SubtitleStatus::Loading
        },
{
}

/// What the line says of the subtitles: nothing where they are off, and else their language,
/// that they are awaited, or that there are none.
pub proof fn law_subtitle_marks(state: SubtitleState, settings: SubtitleSettings, now: u64)
    ensures
        state.seen(settings, now) == SubtitleStatus::Off <==> state.marker_text(settings, now)
            is None,
        state.seen(settings, now) == SubtitleStatus::Loading ==> state.marker_text(settings, now)
            == Some("字幕..."@),
        state.seen(settings, now) == SubtitleStatus::Missing ==> state.marker_text(settings, now)
            == Some("字幕なし"@),
        state.seen(settings, now) == SubtitleStatus::Shown ==> {
            &&& state.chosen matches Some(lang) ==> state.marker_text(settings, now) == Some(
                "字幕"@ + lang@,
            )
            &&& state.chosen is None ==> state.marker_text(settings, now) == Some(
                "字幕"@ + settings.lang.first_text(),
            )
        },
{
}

/// Showing and hiding are told apart to the player.
pub proof fn law_subtitle_orders()
    ensures
        SubtitleState::order(true)[1] == ArgView::Text("sid"@),
        SubtitleState::order(true)[2] == ArgView::Text("auto"@),
        SubtitleState::order(false)[1] == ArgView::Text("sid"@),
        SubtitleState::order(false)[2] == ArgView::Text("no"@),
{
}

/// The wish is carried over to the next video, and nothing that the last one showed is.
pub proof fn law_wish_is_carried_over(state: SubtitleState, now: u64)
    ensures
        state.started(now).wanted == state.wanted,
        !state.started(now).selected,
        state.started(now).chosen is None,
        state.started(now).started_at == Some(now),
        state.started(now).loaded_at is None,
{
}

/// A wish is remembered, and where the video is loaded the wait for a track starts anew.
pub proof fn law_wish_is_remembered(state: SubtitleState, wanted: bool, now: u64)
    ensures
        state.wished(wanted, now).wanted == wanted,
        state.wished(wanted, now).selected == state.selected,
        state.wished(wanted, now).chosen == state.chosen,
        state.wished(wanted, now).started_at == state.started_at,
        state.loaded_at is Some ==> state.wished(wanted, now).loaded_at == Some(now),
        state.loaded_at is None ==> state.wished(wanted, now).loaded_at is None,
{
}

/// Each report changes what it is about: a length that the video is loaded, once; a number
/// that a track is selected, and any other answer that none is; a language which it is.
pub proof fn law_subtitle_reports(state: SubtitleState, id: u64, data: Option<Reported>, now: u64)
    ensures
        state.polled(id, data, now).wanted == state.wanted,
        state.polled(id, data, now).started_at == state.started_at,
        id != 2 ==> state.polled(id, data, now).loaded_at == state.loaded_at,
        id == 2 && number_in(data) is Some && state.loaded_at is None ==> state.polled(
            id,
            data,
            now,
        ).loaded_at == Some(now),
        state.loaded_at is Some ==> state.polled(id, data, now).loaded_at == state.loaded_at,
        id != 5 ==> state.polled(id, data, now).selected == state.selected,
        id == 5 && data is None ==> state.polled(id, data, now).selected == state.selected,
        id == 5 && data is Some ==> state.polled(id, data, now).selected == number_in(data) is Some,
        id != 6 ==> state.polled(id, data, now).chosen == state.chosen,
        id == 6 ==> state.polled(id, data, now).chosen == text_in(data),
{
}

/// What is told of showing, hiding and missing subtitles names the language.
pub proof fn law_subtitle_notices(lang: SubLang)
    ensures
        toggle_text(true, lang) == "字幕を出します ("@ + lang.first_text() + ")"@,
        toggle_text(false, lang) == "字幕を消しました"@,
        missing_text(lang) == "この動画に "@ + lang.list@ + " の字幕がありません"@,
{
}

/// A number names a track, any other value tells that there is none, and no value tells
/// nothing.
pub proof fn law_track_reports(data: Option<Reported>)
    ensures
        track_in(data) is Silent <==> data is None,
        track_in(data) is Track <==> (data matches Some(value) && value is Number),
        track_in(data) is NoTrack <==> (data matches Some(value) && value !is Number),
{
}

/// What the user is told where subtitles cannot be shown.
pub proof fn law_hindered_subtitles_are_told()
    ensures
        disabled_text() == "字幕は設定で無効です ([subtitles] enabled)"@,
        text_mode_text() == "テキスト表示では映像に字幕が出ません"@,
{
}

} // verus!
