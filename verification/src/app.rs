//! The state of the application, and how it is shown on the status line. Times are
//! milliseconds.

use crate::category::{category_texts, default_texts, TabState, Tabs, ALL_LABEL};
use crate::comments::Comments;
use crate::cookies::{ChannelTab, CookieState, Target};
use crate::display::DisplayMode;
use crate::engagement::EngagementCache;
use crate::hidden::Hidden;
use crate::mpv::{number_in, MpvCommand, Reported, REQ_SPEED};
use crate::playback::{format_time, is_within, time_text, within, Playback};
use crate::rect::Rect;
use crate::resume::ResumeBook;
use crate::search::{copy_results, SearchResult};
use crate::seekbar::SeekBarState;
use crate::settings::{are_defaults, same_settings, EnvOverridden, Settings};
use crate::settings_item::{SettingsItem, SETTINGS_ITEMS};
use crate::speed::{Polled, Speed};
use crate::subtitles::SubtitleState;
use crate::text::{decimal, joined, maybe_text, number, texts};
use crate::thumbs::Thumbs;
use crate::video::{DecoderKind, Geometry};
use vstd::prelude::*;
use vstd::string::*;

verus! {

/// How long the player's old speed is ignored after a change.
pub const SPEED_HOLD: u64 = 2_000;

/// How long a passing notice stays.
pub const NOTICE_TTL: u64 = 3_000;

/// The screen that is shown.
#[derive(Debug, Clone, Copy, PartialEq, Eq, Structural)]
pub enum Mode {
    Input,
    Results,
    Playing,
    Settings,
    Channel,
    Download,
}

/// The fields of the download screen, from top to bottom.
#[derive(Debug, Clone, Copy, PartialEq, Eq, Structural)]
pub enum DownloadField {
    Dir,
    Filename,
    Format,
}

impl DownloadField {
    pub open spec fn following(self) -> Self {
        match self {
            DownloadField::Dir => DownloadField::Filename,
            DownloadField::Filename => DownloadField::Format,
            DownloadField::Format => DownloadField::Dir,
        }
    }

    pub open spec fn preceding(self) -> Self {
        match self {
            DownloadField::Dir => DownloadField::Format,
            DownloadField::Filename => DownloadField::Dir,
            DownloadField::Format => DownloadField::Filename,
        }
    }

    pub fn next(self) -> (r: Self)
        ensures
            r == self.following(),
    {
        match self {
            DownloadField::Dir => DownloadField::Filename,
            DownloadField::Filename => DownloadField::Format,
            DownloadField::Format => DownloadField::Dir,
        }
    }

    pub fn prev(self) -> (r: Self)
        ensures
            r == self.preceding(),
    {
        match self {
            DownloadField::Dir => DownloadField::Format,
            DownloadField::Filename => DownloadField::Dir,
            DownloadField::Format => DownloadField::Filename,
        }
    }
}

/// A step back undoes a step forward, and the other way round.
pub proof fn law_download_fields_step_back(field: DownloadField)
    ensures
        field.following().preceding() == field,
        field.preceding().following() == field,
{
}

/// The slot that takes the player's picture.
#[derive(Debug, PartialEq, Eq)]
pub struct VideoSlot {
    pub kind: DecoderKind,
    pub geometry: Geometry,
}

/// A channel that is looked at. Each of its tabs keeps its list.
#[derive(Debug, PartialEq, Eq)]
pub struct ChannelView {
    pub channel_id: String,
    pub channel_title: String,
    pub tab: ChannelTab,
    pub videos: TabState,
    pub shorts: TabState,
    pub streams: TabState,
}

impl ChannelView {
    /// A channel was just opened: nothing of it was loaded yet.
    pub open spec fn is_opened(self, channel_id: String, channel_title: String) -> bool {
        &&& self.channel_id == channel_id
        &&& self.channel_title == channel_title
        &&& self.tab == ChannelTab::Videos
        &&& self.videos.is_new()
        &&& self.shorts.is_new()
        &&& self.streams.is_new()
    }

    pub fn new(channel_id: String, channel_title: String) -> (r: Self)
        ensures
            r.is_opened(channel_id, channel_title),
    {
        ChannelView {
            channel_id,
            channel_title,
            tab: ChannelTab::Videos,
            videos: TabState::default(),
            shorts: TabState::default(),
            streams: TabState::default(),
        }
    }

    pub open spec fn current(self) -> TabState {
        match self.tab {
            ChannelTab::Videos => self.videos,
            ChannelTab::Shorts => self.shorts,
            ChannelTab::Streams => self.streams,
        }
    }

    /// The same channel with another state of the selected tab.
    pub open spec fn with_current(self, state: TabState) -> Self {
        match self.tab {
            ChannelTab::Videos => ChannelView { videos: state, ..self },
            ChannelTab::Shorts => ChannelView { shorts: state, ..self },
            ChannelTab::Streams => ChannelView { streams: state, ..self },
        }
    }

    pub fn state(&self) -> (r: &TabState)
        ensures
            *r == self.current(),
    {
        match self.tab {
            ChannelTab::Videos => &self.videos,
            ChannelTab::Shorts => &self.shorts,
            ChannelTab::Streams => &self.streams,
        }
    }

    pub fn state_mut(&mut self) -> (r: &mut TabState)
        ensures
            *r == old(self).current(),
            *final(self) == old(self).with_current(*final(r)),
    {
        match self.tab {
            ChannelTab::Videos => &mut self.videos,
            ChannelTab::Shorts => &mut self.shorts,
            ChannelTab::Streams => &mut self.streams,
        }
    }

    pub open spec fn tab_after(tab: ChannelTab) -> ChannelTab {
        match tab {
            ChannelTab::Videos => ChannelTab::Shorts,
            ChannelTab::Shorts => ChannelTab::Streams,
            ChannelTab::Streams => ChannelTab::Videos,
        }
    }

    pub open spec fn tab_before(tab: ChannelTab) -> ChannelTab {
        match tab {
            ChannelTab::Videos => ChannelTab::Streams,
            ChannelTab::Shorts => ChannelTab::Videos,
            ChannelTab::Streams => ChannelTab::Shorts,
        }
    }

    pub fn next_tab(&mut self)
        ensures
            *final(self) == (ChannelView { tab: Self::tab_after(old(self).tab), ..*old(self) }),
    {
        self.tab = match self.tab {
            ChannelTab::Videos => ChannelTab::Shorts,
            ChannelTab::Shorts => ChannelTab::Streams,
            ChannelTab::Streams => ChannelTab::Videos,
        };
    }

    pub fn prev_tab(&mut self)
        ensures
            *final(self) == (ChannelView { tab: Self::tab_before(old(self).tab), ..*old(self) }),
    {
        self.tab = match self.tab {
            ChannelTab::Videos => ChannelTab::Streams,
            ChannelTab::Shorts => ChannelTab::Videos,
            ChannelTab::Streams => ChannelTab::Shorts,
        };
    }

    /// Selects the tab at a place, where there is one, and says whether it did.
    pub fn select_tab(&mut self, index: usize) -> (r: bool)
        ensures
            r == (index < 3),
            r ==> final(self).tab.place() == index && *final(self) == (ChannelView {
                tab: final(self).tab,
                ..*old(self)
            }),
            !r ==> *final(self) == *old(self),
    {
        match ChannelTab::from_index(index) {
            Some(tab) => {
                self.tab = tab;
                true
            },
            None => false,
        }
    }

    pub fn target(&self) -> (r: Target)
        ensures
            r == (Target::Channel { id: self.channel_id, tab: self.tab }),
    {
        Target::Channel { id: self.channel_id.clone(), tab: self.tab }
    }
}

/// A step back undoes a step forward, and the other way round.
pub proof fn law_channel_tabs_step_back(tab: ChannelTab)
    ensures
        ChannelView::tab_before(ChannelView::tab_after(tab)) == tab,
        ChannelView::tab_after(ChannelView::tab_before(tab)) == tab,
{
}

/// The state of the application.
#[derive(Debug, PartialEq, Eq)]
pub struct App {
    pub mode: Mode,
    /// What is typed into the search box.
    pub query: String,
    /// The list of the search side, its selection and its first visible place: copies
    /// of what the selected tab keeps.
    pub results: Vec<SearchResult>,
    pub selected: usize,
    pub scroll: usize,
    pub searching: bool,
    pub error: Option<String>,
    /// When the reason of a failed action may go. `None` lets polling replace it.
    pub error_until: Option<u64>,
    pub notice: Option<String>,
    /// When the notice goes. `None` keeps it.
    pub notice_until: Option<u64>,
    pub cookies: CookieState,
    pub playback: Playback,
    pub settings: Settings,
    /// Where the picture is asked to be; `playback.current_vo` says where it is.
    pub display: DisplayMode,
    /// Carried over from video to video.
    pub speed: Speed,
    /// When the speed was sent. Other reports are ignored for a while after.
    pub speed_sent_at: Option<u64>,
    pub subtitles: SubtitleState,
    /// Only while something plays.
    pub video: Option<VideoSlot>,
    /// The screen as it was drawn last.
    pub screen: Rect,
    /// How often the list was replaced, and which of these lists was drawn.
    pub results_generation: u64,
    pub drawn_generation: u64,
    pub seek_bar: SeekBarState,
    pub should_quit: bool,
    pub tabs: Tabs,
    pub channel: Option<ChannelView>,
    pub thumbs: Thumbs,
    pub comments: Comments,
    pub settings_selected: usize,
    pub settings_return: Mode,
    /// What leaving the settings screen goes back to.
    pub settings_backup: Settings,
    /// A number that is being typed.
    pub settings_edit: Option<String>,
    pub env_overridden: EnvOverridden,
    /// The video goes on while a list is looked at.
    pub background: bool,
    pub hidden: Hidden,
    pub engagement: EngagementCache,
    pub resume: ResumeBook,
    pub download_return: Mode,
    pub download_url: String,
    pub download_dir: String,
    pub download_filename: String,
    pub download_audio_only: bool,
    pub download_focus: DownloadField,
}

/// The application as it starts.
pub open spec fn is_started(app: App) -> bool {
    &&& app.mode == Mode::Input
    &&& app.query@.len() == 0
    &&& app.results@.len() == 0
    &&& app.selected == 0
    &&& app.scroll == 0
    &&& !app.searching
    &&& app.error is None
    &&& app.error_until is None
    &&& app.notice is None
    &&& app.notice_until is None
    &&& app.cookies == CookieState::Off
    &&& app.playback.is_idle()
    &&& are_defaults(app.settings)
    &&& app.display == DisplayMode::Embedded
    &&& app.speed.tenths == crate::speed::NORMAL_TENTHS
    &&& app.speed_sent_at is None
    &&& app.subtitles == (SubtitleState {
        wanted: true,
        selected: false,
        chosen: None,
        started_at: None,
        loaded_at: None,
    })
    &&& app.video is None
    &&& app.screen == (Rect { x: 0, y: 0, width: 0, height: 0 })
    &&& app.results_generation == 0
    &&& app.drawn_generation == 0
    &&& app.seek_bar == SeekBarState::untouched()
    &&& !app.should_quit
    &&& app.tabs.is_fresh()
    &&& category_texts(app.tabs.categories@) == seq![(ALL_LABEL@, Seq::<char>::empty())]
        + default_texts()
    &&& app.channel is None
    &&& app.thumbs.known@ == Set::<Seq<char>>::empty()
    &&& app.thumbs.px == (0u32, 0u32)
    &&& !app.thumbs.dirty
    &&& !app.thumbs.fetching
    &&& app.thumbs.disabled is None
    &&& app.comments.is_idle()
    &&& app.settings_selected == 0
    &&& app.settings_return == Mode::Input
    &&& same_settings(app.settings_backup, app.settings)
    &&& app.settings_edit is None
    &&& app.env_overridden.none()
    &&& !app.background
    &&& app.hidden.videos@ == Set::<Seq<char>>::empty()
    &&& app.hidden.channels@ == Set::<Seq<char>>::empty()
    &&& app.hidden.channel_names@ == Set::<Seq<char>>::empty()
    &&& app.hidden.path is None
    &&& app.engagement.none()
    &&& app.resume@.len() == 0
    &&& app.download_return == Mode::Input
    &&& app.download_url@.len() == 0
    &&& app.download_dir@.len() == 0
    &&& app.download_filename@.len() == 0
    &&& !app.download_audio_only
    &&& app.download_focus == DownloadField::Dir
}

impl Default for App {
    fn default() -> (r: Self)
        ensures
            r.wf(),
            is_started(r),
    {
        let settings = Settings::default();
        App {
            mode: Mode::Input,
            query: String::new(),
            results: Vec::new(),
            selected: 0,
            scroll: 0,
            searching: false,
            error: None,
            error_until: None,
            notice: None,
            notice_until: None,
            cookies: CookieState::default(),
            playback: Playback::default(),
            display: DisplayMode::default(),
            speed: Speed::normal(),
            speed_sent_at: None,
            subtitles: SubtitleState::from_settings(&settings.subtitles),
            settings_backup: settings.clone(),
            settings,
            video: None,
            screen: Rect::new(0, 0, 0, 0),
            results_generation: 0,
            drawn_generation: 0,
            seek_bar: SeekBarState::default(),
            should_quit: false,
            tabs: Tabs::default(),
            channel: None,
            thumbs: Thumbs::default(),
            comments: Comments::default(),
            settings_selected: 0,
            settings_return: Mode::Input,
            settings_edit: None,
            env_overridden: EnvOverridden::default(),
            background: false,
            hidden: Hidden::default(),
            engagement: EngagementCache::default(),
            resume: ResumeBook::default(),
            download_return: Mode::Input,
            download_url: String::new(),
            download_dir: String::new(),
            download_filename: String::new(),
            download_audio_only: false,
            download_focus: DownloadField::Dir,
        }
    }
}

/// A later time, or the last one there is.
pub open spec fn later(now: u64, by: u64) -> u64 {
    if now + by <= u64::MAX {
        (now + by) as u64
    } else {
        u64::MAX
    }
}

/// The next number, and round.
pub open spec fn bumped(n: u64) -> u64 {
    if n == u64::MAX {
        0
    } else {
        (n + 1) as u64
    }
}

pub fn bump(n: u64) -> (r: u64)
    ensures
        r == bumped(n),
        r != n,
{
    if n == u64::MAX {
        0
    } else {
        n + 1
    }
}

/// A deadline has come.
pub open spec fn is_over(until: Option<u64>, now: u64) -> bool {
    until matches Some(at) && now >= at
}

fn over(until: Option<u64>, now: u64) -> (r: bool)
    ensures
        r == is_over(until, now),
{
    match until {
        Some(at) => now >= at,
        None => false,
    }
}

impl App {
    pub open spec fn wf(self) -> bool {
        &&& self.tabs.wf()
        &&& self.thumbs.wf()
        &&& self.hidden.wf()
        &&& self.engagement.wf()
        &&& self.resume.wf()
    }

    /// A notice that stays until the next.
    pub fn set_notice(&mut self, notice: Option<String>)
        ensures
            *final(self) == (App { notice, notice_until: None, ..*old(self) }),
    {
        self.notice = notice;
        self.notice_until = None;
    }

    /// A short answer to an action.
    pub fn set_temporary_notice(&mut self, notice: String, now: u64)
        ensures
            *final(self) == (App {
                notice: Some(notice),
                notice_until: Some(later(now, NOTICE_TTL)),
                ..*old(self)
            }),
    {
        self.notice = Some(notice);
        self.notice_until = Some(now.saturating_add(NOTICE_TTL));
    }

    /// `after` is `self` with a short answer to an action.
    pub open spec fn told(self, text: Seq<char>, now: u64, after: App) -> bool {
        &&& after == (App {
            notice: after.notice,
            notice_until: Some(later(now, NOTICE_TTL)),
            ..self
        })
        &&& maybe_text(after.notice) == Some(text)
    }

    /// `after` is `self` with the reason why an action failed.
    pub open spec fn failed(self, text: Seq<char>, now: u64, after: App) -> bool {
        &&& after == (App { error: after.error, error_until: Some(later(now, NOTICE_TTL)), ..self })
        &&& maybe_text(after.error) == Some(text)
    }

    /// The application without a notice whose time is over.
    pub open spec fn notice_expired(self, now: u64) -> App {
        if is_over(self.notice_until, now) {
            App { notice: None, notice_until: None, ..self }
        } else {
            self
        }
    }

    /// The application without an error whose time is over.
    pub open spec fn error_expired(self, now: u64) -> App {
        if is_over(self.error_until, now) {
            App { error: None, error_until: None, ..self }
        } else {
            self
        }
    }

    /// The application once polling succeeded.
    pub open spec fn polled_error_cleared(self, now: u64) -> App {
        if self.error_until is Some && !is_over(self.error_until, now) {
            self
        } else {
            App { error: None, error_until: None, ..self }
        }
    }

    pub fn expire_notice(&mut self, now: u64)
        ensures
            *final(self) == old(self).notice_expired(now),
    {
        if over(self.notice_until, now) {
            self.notice = None;
            self.notice_until = None;
        }
    }

    /// An error that polling may replace.
    pub fn set_error(&mut self, error: Option<String>)
        ensures
            *final(self) == (App { error, error_until: None, ..*old(self) }),
    {
        self.error = error;
        self.error_until = None;
    }

    /// Why an action failed. It stays long enough to be read.
    pub fn set_temporary_error(&mut self, error: String, now: u64)
        ensures
            *final(self) == (App {
                error: Some(error),
                error_until: Some(later(now, NOTICE_TTL)),
                ..*old(self)
            }),
    {
        self.error = Some(error);
        self.error_until = Some(now.saturating_add(NOTICE_TTL));
    }

    pub fn expire_error(&mut self, now: u64)
        ensures
            *final(self) == old(self).error_expired(now),
    {
        if over(self.error_until, now) {
            self.set_error(None);
        }
    }

    /// Polling succeeded. The reason of an action that failed stays for its time.
    pub fn clear_polled_error(&mut self, now: u64)
        ensures
            *final(self) == old(self).polled_error_cleared(now),
    {
        if self.error_until.is_some() && !over(self.error_until, now) {
            return ;
        }
        self.set_error(None);
    }

    /// The list that is looked at: the channel's, where one is open.
    pub open spec fn list(self) -> Seq<SearchResult> {
        match self.channel {
            Some(channel) => channel.current().results@,
            None => self.results@,
        }
    }

    /// The selected place of that list.
    pub open spec fn place(self) -> usize {
        match self.channel {
            Some(channel) => channel.current().selected,
            None => self.selected,
        }
    }

    /// The first visible place of that list.
    pub open spec fn top(self) -> usize {
        match self.channel {
            Some(channel) => channel.current().scroll,
            None => self.scroll,
        }
    }

    /// What is kept of that list.
    pub open spec fn kept(self) -> TabState {
        match self.channel {
            Some(channel) => channel.current(),
            None => self.tabs.current(),
        }
    }

    /// The same application with another place selected.
    pub open spec fn with_place(self, place: usize) -> App {
        match self.channel {
            Some(channel) => App {
                channel: Some(
                    channel.with_current(TabState { selected: place, ..channel.current() }),
                ),
                ..self
            },
            None => App { selected: place, ..self },
        }
    }

    /// The same application scrolled to another place.
    pub open spec fn with_top(self, top: usize) -> App {
        match self.channel {
            Some(channel) => App {
                channel: Some(channel.with_current(TabState { scroll: top, ..channel.current() })),
                ..self
            },
            None => App { scroll: top, ..self },
        }
    }

    /// `after` is `self` with `state` kept of the list that is looked at.
    pub open spec fn with_kept(self, state: TabState, after: App) -> bool {
        match self.channel {
            Some(channel) => after == (App { channel: Some(channel.with_current(state)), ..self }),
            None => after == (App { tabs: after.tabs, ..self }) && self.tabs.with_current(
                state,
                after.tabs,
            ),
        }
    }

    pub fn view_results(&self) -> (r: &Vec<SearchResult>)
        ensures
            r@ == self.list(),
    {
        match &self.channel {
            Some(channel) => &channel.state().results,
            None => &self.results,
        }
    }

    pub fn view_selected(&self) -> (r: usize)
        ensures
            r == self.place(),
    {
        match &self.channel {
            Some(channel) => channel.state().selected,
            None => self.selected,
        }
    }

    pub fn view_scroll(&self) -> (r: usize)
        ensures
            r == self.top(),
    {
        match &self.channel {
            Some(channel) => channel.state().scroll,
            None => self.scroll,
        }
    }

    pub fn set_view_selected(&mut self, selected: usize)
        ensures
            *final(self) == old(self).with_place(selected),
    {
        match &mut self.channel {
            Some(channel) => {
                let state = channel.state_mut();
                state.selected = selected;
            },
            None => {
                self.selected = selected;
            },
        }
    }

    pub fn set_view_scroll(&mut self, scroll: usize)
        ensures
            *final(self) == old(self).with_top(scroll),
    {
        match &mut self.channel {
            Some(channel) => {
                let state = channel.state_mut();
                state.scroll = scroll;
            },
            None => {
                self.scroll = scroll;
            },
        }
    }

    pub fn view_state(&self) -> (r: &TabState)
        requires
            self.wf(),
        ensures
            *r == self.kept(),
    {
        match &self.channel {
            Some(channel) => channel.state(),
            None => self.tabs.state(),
        }
    }

    pub fn view_state_mut(&mut self) -> (r: &mut TabState)
        requires
            old(self).wf(),
        ensures
            *r == old(self).kept(),
            old(self).with_kept(*final(r), *final(self)),
    {
        match &mut self.channel {
            Some(channel) => channel.state_mut(),
            None => self.tabs.state_mut(),
        }
    }

    pub fn view_selected_result(&self) -> (r: Option<&SearchResult>)
        ensures
            r is Some <==> self.place() < self.list().len(),
            r matches Some(result) ==> *result == self.list()[self.place() as int],
    {
        let list = self.view_results();
        let place: usize = self.view_selected();
        if place < list.len() {
            Some(&list[place])
        } else {
            None
        }
    }

    pub fn view_result_ids(&self) -> (r: Vec<String>)
        ensures
            texts(r@) == ids_in(self.list()),
    {
        ids_of(self.view_results())
    }

    /// The channels that the list is about: the one that is looked at, or those that
    /// the rows name.
    pub open spec fn channels_shown(self) -> Seq<Seq<char>> {
        match self.channel {
            Some(channel) => seq![channel.channel_id@],
            None => channels_in(self.list(), self.list().len() as int),
        }
    }

    /// The channels to ask for: within a channel only that one, for its rows name none.
    pub fn view_channel_ids(&self) -> (r: Vec<String>)
        ensures
            texts(r@) == self.channels_shown(),
    {
        let mut out: Vec<String> = Vec::new();
        if let Some(channel) = &self.channel {
            out.push(channel.channel_id.clone());
            assert(texts(out@) =~= self.channels_shown());
            return out;
        }
        let list = self.view_results();
        assert(texts(out@) =~= seq![]);
        for i in 0..list.len()
            invariant
                texts(out@) == channels_in(list@, i as int),
        {
            let ghost before = out@;
            if let Some(id) = &list[i].channel_id {
                out.push(id.clone());
                assert(texts(out@) =~= texts(before).push(id@));
            }
        }
        out
    }

    /// The next row of the list, and round.
    pub fn select_next(&mut self)
        ensures
            *final(self) == (if old(self).list().len() == 0 {
                *old(self)
            } else {
                old(self).with_place(
                    ((old(self).place() + 1) % old(self).list().len() as int) as usize,
                )
            }),
            old(self).place() + 1 < old(self).list().len() ==> final(self).place() == old(
                self,
            ).place() + 1,
            old(self).place() + 1 == old(self).list().len() ==> final(self).place() == 0,
            final(self).list() == old(self).list(),
    {
        let count: usize = self.view_results().len();
        if count == 0 {
            return ;
        }
        let at: usize = self.view_selected() % count;
        proof {
            lemma_step_round(self.place() as int, count as int);
        }
        self.set_view_selected(
            if at < count - 1 {
                at + 1
            } else {
                0
            },
        );
    }

    /// The row before, and round.
    pub fn select_prev(&mut self)
        ensures
            *final(self) == (if old(self).list().len() == 0 {
                *old(self)
            } else {
                old(self).with_place(
                    ((old(self).place() + old(self).list().len() - 1) % old(
                        self,
                    ).list().len() as int) as usize,
                )
            }),
            0 < old(self).place() < old(self).list().len() ==> final(self).place() + 1 == old(
                self,
            ).place(),
            old(self).place() == 0 && old(self).list().len() > 0 ==> final(self).place() + 1
                == old(self).list().len(),
            final(self).list() == old(self).list(),
    {
        let count: usize = self.view_results().len();
        if count == 0 {
            return ;
        }
        let at: usize = self.view_selected() % count;
        proof {
            lemma_step_round(self.place() as int, count as int);
        }
        self.set_view_selected(
            if at > 0 {
                at - 1
            } else {
                count - 1
            },
        );
    }

    pub fn selected_result(&self) -> (r: Option<&SearchResult>)
        ensures
            r is Some <==> self.selected < self.results@.len(),
            r matches Some(result) ==> *result == self.results@[self.selected as int],
    {
        if self.selected < self.results.len() {
            Some(&self.results[self.selected])
        } else {
            None
        }
    }

    /// Goes to a screen of the search side. While the settings or the download screen
    /// is open, only where it goes back to changes.
    pub fn enter_search_mode(&mut self, mode: Mode)
        ensures
            *final(self) == old(self).in_search_mode(mode),
    {
        if self.mode == Mode::Settings {
            self.settings_return = mode;
        } else if self.mode == Mode::Download {
            self.download_return = mode;
        } else {
            self.mode = mode;
        }
    }

    pub open spec fn in_search_mode(self, mode: Mode) -> App {
        if self.mode == Mode::Settings {
            App { settings_return: mode, ..self }
        } else if self.mode == Mode::Download {
            App { download_return: mode, ..self }
        } else {
            App { mode, ..self }
        }
    }

    pub fn mark_drawn(&mut self)
        ensures
            *final(self) == (App {
                drawn_generation: old(self).results_generation,
                ..*old(self)
            }),
    {
        self.drawn_generation = self.results_generation;
    }

    /// Whether the list is the one that the user sees. A click before that is meant for
    /// the list before.
    pub fn results_are_drawn(&self) -> (r: bool)
        ensures
            r == (self.drawn_generation == self.results_generation),
    {
        self.drawn_generation == self.results_generation
    }

    pub fn result_ids(&self) -> (r: Vec<String>)
        ensures
            texts(r@) == ids_in(self.results@),
    {
        ids_of(&self.results)
    }
}

/// The ids of a list of results.
pub open spec fn ids_in(list: Seq<SearchResult>) -> Seq<Seq<char>> {
    list.map_values(|result: SearchResult| result.id@)
}

fn ids_of(list: &Vec<SearchResult>) -> (r: Vec<String>)
    ensures
        texts(r@) == ids_in(list@),
{
    let mut out: Vec<String> = Vec::new();
    for i in 0..list.len()
        invariant
            texts(out@) == ids_in(list@).take(i as int),
    {
        let ghost before = out@;
        out.push(list[i].id.clone());
        assert(texts(out@) =~= texts(before).push(ids_in(list@)[i as int]));
        assert(texts(out@) =~= ids_in(list@).take(i + 1));
    }
    assert(ids_in(list@).take(list@.len() as int) =~= ids_in(list@));
    out
}

/// The channels that the first `n` rows name.
pub open spec fn channels_in(list: Seq<SearchResult>, n: int) -> Seq<Seq<char>>
    decreases n,
{
    if n <= 0 {
        seq![]
    } else {
        match list[n - 1].channel_id {
            Some(id) => channels_in(list, n - 1).push(id@),
            None => channels_in(list, n - 1),
        }
    }
}

/// A step round the list, from wherever the selection was left.
proof fn lemma_step_round(place: int, count: int)
    requires
        place >= 0,
        count > 0,
    ensures
        0 <= place % count < count,
        place < count ==> place % count == place,
        (place + 1) % count == (if place % count < count - 1 {
            place % count + 1
        } else {
            0
        }),
        (place + count - 1) % count == (if place % count > 0 {
            place % count - 1
        } else {
            count - 1
        }),
{
    let at = place % count;
    let rounds = place / count;
    if place < count {
        vstd::arithmetic::div_mod::lemma_small_mod(place as nat, count as nat);
    }
    crate::category::lemma_round(at, count);
    vstd::arithmetic::div_mod::lemma_fundamental_div_mod(place, count);
    vstd::arithmetic::div_mod::lemma_mod_multiples_vanish(rounds, at + 1, count);
    vstd::arithmetic::div_mod::lemma_mod_multiples_vanish(rounds, at + count - 1, count);
}

/// The first `n` rows of a list without those that are hidden.
pub open spec fn shown_rows(list: Seq<SearchResult>, hidden: Hidden, n: int) -> Seq<SearchResult>
    decreases n,
{
    if n <= 0 {
        seq![]
    } else if hidden.covers(list[n - 1]) {
        shown_rows(list, hidden, n - 1)
    } else {
        shown_rows(list, hidden, n - 1).push(list[n - 1])
    }
}

/// A list without the rows that are hidden.
pub open spec fn shown(list: Seq<SearchResult>, hidden: Hidden) -> Seq<SearchResult> {
    shown_rows(list, hidden, list.len() as int)
}

fn without_hidden(list: &Vec<SearchResult>, hidden: &Hidden) -> (r: Vec<SearchResult>)
    ensures
        r@ == shown(list@, *hidden),
{
    let mut out: Vec<SearchResult> = Vec::new();
    for i in 0..list.len()
        invariant
            out@ == shown_rows(list@, *hidden, i as int),
    {
        if !hidden.hides(&list[i]) {
            out.push(list[i].clone());
        }
    }
    out
}

/// No row of a shown list is hidden, and no row that is not hidden is missing.
pub proof fn law_shown_rows_are_not_hidden(list: Seq<SearchResult>, hidden: Hidden, n: int)
    requires
        0 <= n <= list.len(),
    ensures
        forall|i: int|
            0 <= i < shown_rows(list, hidden, n).len() ==> !hidden.covers(
                #[trigger] shown_rows(list, hidden, n)[i],
            ),
        forall|i: int|
            0 <= i < n && !hidden.covers(#[trigger] list[i]) ==> shown_rows(
                list,
                hidden,
                n,
            ).contains(list[i]),
        shown_rows(list, hidden, n).len() <= n,
    decreases n,
{
    if n > 0 {
        law_shown_rows_are_not_hidden(list, hidden, n - 1);
        let before = shown_rows(list, hidden, n - 1);
        let now = shown_rows(list, hidden, n);
        assert forall|i: int| 0 <= i < n && !hidden.covers(
            #[trigger] list[i],
        ) implies now.contains(list[i]) by {
            if i < n - 1 {
                assert(before.contains(list[i]));
                let k = choose|k: int| 0 <= k < before.len() && before[k] == list[i];
                assert(now[k] == list[i]);
            } else {
                assert(now[now.len() - 1] == list[i]);
            }
        }
    }
}

impl App {
    /// `after` is `self` with the copies of the selected tab renewed.
    pub open spec fn synced_from_tab(self, after: App) -> bool {
        &&& after == (App {
            results_generation: bumped(self.results_generation),
            results: after.results,
            selected: self.tabs.current().selected,
            scroll: self.tabs.current().scroll,
            thumbs: after.thumbs,
            ..self
        })
        &&& after.results@ == self.tabs.current().results@
        &&& self.thumbs.reset_to(ids_in(after.results@).to_set(), after.thumbs)
    }

    /// Takes over what the selected tab keeps.
    pub fn sync_from_tab(&mut self)
        requires
            old(self).wf(),
        ensures
            final(self).wf(),
            old(self).synced_from_tab(*final(self)),
    {
        let results = copy_results(&self.tabs.state().results);
        let selected: usize = self.tabs.state().selected;
        let scroll: usize = self.tabs.state().scroll;
        self.results_generation = bump(self.results_generation);
        self.results = results;
        self.selected = selected;
        self.scroll = scroll;
        let ids = self.result_ids();
        self.thumbs.reset(&ids);
        self.thumbs.mark_dirty();
    }

    /// `after` is `self` with what is drawn renewed from the list that is looked at.
    pub open spec fn synced_from_view(self, after: App) -> bool {
        match self.channel {
            None => self.synced_from_tab(after),
            Some(channel) => {
                &&& after == (App {
                    results_generation: bumped(self.results_generation),
                    thumbs: after.thumbs,
                    ..self
                })
                &&& self.thumbs.reset_to(ids_in(self.list()).to_set(), after.thumbs)
            },
        }
    }

    pub fn sync_from_view(&mut self)
        requires
            old(self).wf(),
        ensures
            final(self).wf(),
            old(self).synced_from_view(*final(self)),
    {
        if self.channel.is_none() {
            self.sync_from_tab();
            return ;
        }
        self.results_generation = bump(self.results_generation);
        let ids = self.view_result_ids();
        self.thumbs.reset(&ids);
        self.thumbs.mark_dirty();
    }

    /// `after` is `self` with the selection handed back to the selected tab.
    pub open spec fn stored_to_tab(self, after: App) -> bool {
        &&& after == (App { tabs: after.tabs, ..self })
        &&& self.tabs.with_current(
            TabState { selected: self.selected, scroll: self.scroll, ..self.tabs.current() },
            after.tabs,
        )
    }

    /// Hands the selection back to the selected tab, before another is looked at.
    pub fn store_to_tab(&mut self)
        requires
            old(self).wf(),
        ensures
            final(self).wf(),
            old(self).stored_to_tab(*final(self)),
    {
        let selected: usize = self.selected;
        let scroll: usize = self.scroll;
        let state = self.tabs.state_mut();
        state.selected = selected;
        state.scroll = scroll;
    }
}

/// The selection where a list got shorter: the same place, or the last one left.
pub open spec fn nearest_place(place: int, count: int) -> int {
    if place < count {
        place
    } else if count == 0 {
        0
    } else {
        count - 1
    }
}

fn place_within(place: usize, count: usize) -> (r: usize)
    ensures
        r == nearest_place(place as int, count as int),
{
    if place < count {
        place
    } else if count == 0 {
        0
    } else {
        count - 1
    }
}

/// `after` is what is kept of a list once its hidden rows are gone.
pub open spec fn is_purged(before: TabState, hidden: Hidden, after: TabState) -> bool {
    &&& after.results@ == shown(before.results@, hidden)
    &&& after == (TabState {
        results: after.results,
        selected: nearest_place(before.selected as int, after.results@.len() as int) as usize,
        ..before
    })
}

fn purged(state: &TabState, hidden: &Hidden) -> (r: TabState)
    ensures
        is_purged(*state, *hidden, r),
{
    let results = without_hidden(&state.results, hidden);
    let selected: usize = place_within(state.selected, results.len());
    TabState {
        results,
        selected,
        scroll: state.scroll,
        loaded: state.loaded,
        reload: state.reload,
        requested_limit: state.requested_limit,
    }
}

impl App {
    /// `after` is `self` with the hidden rows gone from every list that is kept.
    pub open spec fn hidden_dropped(self, after: App) -> bool {
        &&& after == (App {
            results: after.results,
            selected: nearest_place(self.selected as int, after.results@.len() as int) as usize,
            tabs: after.tabs,
            channel: after.channel,
            results_generation: bumped(self.results_generation),
            thumbs: after.thumbs,
            ..self
        })
        &&& after.results@ == shown(self.results@, self.hidden)
        &&& after.tabs == (Tabs { states: after.tabs.states, ..self.tabs })
        &&& after.tabs.states@.len() == self.tabs.states@.len()
        &&& forall|i: int|
            0 <= i < self.tabs.states@.len() ==> is_purged(
                #[trigger] self.tabs.states@[i],
                self.hidden,
                after.tabs.states@[i],
            )
        &&& match self.channel {
            None => after.channel is None,
            Some(channel) => after.channel matches Some(view) && {
                &&& view == (ChannelView {
                    videos: view.videos,
                    shorts: view.shorts,
                    streams: view.streams,
                    ..channel
                })
                &&& is_purged(channel.videos, self.hidden, view.videos)
                &&& is_purged(channel.shorts, self.hidden, view.shorts)
                &&& is_purged(channel.streams, self.hidden, view.streams)
            },
        }
        &&& self.thumbs.reset_to(ids_in(after.list()).to_set(), after.thumbs)
    }

    /// Takes the hidden rows off every list.
    pub fn drop_hidden(&mut self)
        requires
            old(self).wf(),
        ensures
            final(self).wf(),
            old(self).hidden_dropped(*final(self)),
    {
        let results = without_hidden(&self.results, &self.hidden);
        self.selected = place_within(self.selected, results.len());
        self.results = results;
        let mut states: Vec<TabState> = Vec::new();
        for i in 0..self.tabs.states.len()
            invariant
                states@.len() == i,
                forall|j: int|
                    0 <= j < i ==> is_purged(
                        #[trigger] self.tabs.states@[j],
                        self.hidden,
                        states@[j],
                    ),
        {
            states.push(purged(&self.tabs.states[i], &self.hidden));
        }
        self.tabs.states = states;
        let view = match &self.channel {
            None => None,
            Some(channel) => Some(
                ChannelView {
                    channel_id: channel.channel_id.clone(),
                    channel_title: channel.channel_title.clone(),
                    tab: channel.tab,
                    videos: purged(&channel.videos, &self.hidden),
                    shorts: purged(&channel.shorts, &self.hidden),
                    streams: purged(&channel.streams, &self.hidden),
                },
            ),
        };
        self.channel = view;
        self.results_generation = bump(self.results_generation);
        let ids = self.view_result_ids();
        self.thumbs.reset(&ids);
        self.thumbs.mark_dirty();
    }

    /// The screen that a search which found nothing, or something, leads to.
    pub open spec fn landing(self, empty: bool) -> Mode {
        if self.channel is Some {
            Mode::Channel
        } else if empty {
            Mode::Input
        } else {
            Mode::Results
        }
    }

    /// `after` is `self` with `results` as the list that is looked at.
    pub open spec fn results_set(
        self,
        results: Seq<SearchResult>,
        target: Target,
        after: App,
    ) -> bool {
        let rows = shown(results, self.hidden);
        let landed = self.in_search_mode(self.landing(rows.len() == 0));
        &&& after == (App {
            tabs: after.tabs,
            channel: after.channel,
            results: after.results,
            selected: after.selected,
            scroll: after.scroll,
            results_generation: bumped(self.results_generation),
            thumbs: after.thumbs,
            error: after.error,
            mode: landed.mode,
            settings_return: landed.settings_return,
            download_return: landed.download_return,
            ..self
        })
        &&& after.list() == rows
        &&& after.kept().results@ == rows
        &&& after.kept() == (TabState {
            results: after.kept().results,
            selected: 0,
            scroll: 0,
            loaded: true,
            reload: false,
            ..self.kept()
        })
        &&& after.place() == 0
        &&& after.top() == 0
        &&& match self.channel {
            None => after.channel is None && self.tabs.with_current(after.kept(), after.tabs),
            Some(channel) => {
                &&& after.channel == Some(channel.with_current(after.kept()))
                &&& after.tabs == self.tabs
                &&& after.results == self.results
                &&& after.selected == self.selected
                &&& after.scroll == self.scroll
            },
        }
        &&& self.thumbs.reset_to(ids_in(rows).to_set(), after.thumbs)
        &&& if rows.len() == 0 {
            maybe_text(after.error) == Some(target.empty_text(self.cookies.searching()))
        } else {
            after.error == self.error
        }
    }

    /// Shows what a search found, without the hidden rows. An empty list counts as
    /// loaded too, or coming back to it would search again.
    pub fn set_results(&mut self, results: Vec<SearchResult>, target: &Target)
        requires
            old(self).wf(),
        ensures
            final(self).wf(),
            old(self).results_set(results@, *target, *final(self)),
    {
        let rows = without_hidden(&results, &self.hidden);
        let empty: bool = rows.len() == 0;
        let in_channel: bool = self.channel.is_some();
        let state = self.view_state_mut();
        state.results = rows;
        state.selected = 0;
        state.scroll = 0;
        state.loaded = true;
        state.reload = false;
        self.sync_from_view();
        if empty {
            self.error = Some(target.empty_message(self.cookies.for_search()));
        }
        self.enter_search_mode(
            if in_channel {
                Mode::Channel
            } else if empty {
                Mode::Input
            } else {
                Mode::Results
            },
        );
    }

    /// A longer list can be asked for: a search filled what it was asked for, and that
    /// was not the most there is.
    pub open spec fn more_there(self) -> bool {
        let asked = self.kept().requested_limit;
        &&& 0 < asked < crate::settings::MAX_SEARCH_LIMIT
        &&& self.list().len() >= asked
    }

    pub fn can_load_more(&self) -> (r: bool)
        requires
            self.wf(),
        ensures
            r == self.more_there(),
    {
        let asked: usize = self.view_state().requested_limit;
        0 < asked && asked < crate::settings::MAX_SEARCH_LIMIT && self.view_results().len() >= asked
    }
}

/// A reported speed in tenths, moved to the nearest that can be set.
pub open spec fn polled_tenths(millis: i64) -> int {
    crate::speed::settable(
        crate::speed::nearest_tenths(
            if millis < 0 {
                0
            } else {
                millis as int
            },
        ),
    )
}

/// A reported speed lies outside the range.
pub open spec fn polled_outside(millis: i64) -> bool {
    polled_tenths(millis) != crate::speed::nearest_tenths(
        if millis < 0 {
            0
        } else {
            millis as int
        },
    )
}

impl App {
    /// A reported speed is from before the change that was sent.
    pub open spec fn speed_is_stale(self, polled: Speed, now: u64) -> bool {
        self.speed_sent_at matches Some(at) && within(at, SPEED_HOLD, now) && polled != self.speed
    }

    /// The application once a reported speed was taken in.
    pub open spec fn speed_reconciled(self, polled: Polled, now: u64) -> App {
        if self.speed_is_stale(polled.speed, now) {
            self
        } else if polled.clamped {
            App { speed: polled.speed, speed_sent_at: Some(now), ..self }
        } else {
            App { speed: polled.speed, speed_sent_at: None, ..self }
        }
    }

    /// Keeps a speed that was sent, to tell old reports by.
    pub fn set_speed_sent(&mut self, speed: Speed, now: u64)
        ensures
            *final(self) == (App { speed, speed_sent_at: Some(now), ..*old(self) }),
    {
        self.speed = speed;
        self.speed_sent_at = Some(now);
    }

    /// Takes in a reported speed. One outside the range is answered with the nearest
    /// that can be set, so that what is shown is what plays.
    pub fn reconcile_speed(&mut self, polled: Polled, now: u64) -> (r: Option<MpvCommand>)
        ensures
            *final(self) == old(self).speed_reconciled(polled, now),
            r is Some <==> polled.clamped && !old(self).speed_is_stale(polled.speed, now),
            r matches Some(command) ==> command@ == polled.speed.order() && command.request_id
                is None,
    {
        if let Some(sent_at) = self.speed_sent_at {
            if is_within(sent_at, SPEED_HOLD, now) && polled.speed != self.speed {
                return None;
            }
        }
        if polled.clamped {
            self.set_speed_sent(polled.speed, now);
            return Some(polled.speed.command());
        }
        self.speed_sent_at = None;
        self.speed = polled.speed;
        None
    }

    /// The application once the answer to a poll was taken in.
    pub open spec fn property_applied(self, id: u64, data: Option<Reported>, now: u64) -> App {
        match number_in(data) {
            Some(millis) if id == REQ_SPEED => self.speed_reconciled(
                Polled {
                    speed: Speed { tenths: polled_tenths(millis) as u8 },
                    clamped: polled_outside(millis),
                },
                now,
            ),
            _ => App {
                playback: self.playback.polled(id, data, now),
                subtitles: self.subtitles.polled(id, data, now),
                ..self
            },
        }
    }

    /// Takes in the answer to a poll, and says what is to be sent back, if anything.
    pub fn apply_property(&mut self, id: u64, data: Option<Reported>, now: u64) -> (r: Option<
        MpvCommand,
    >)
        ensures
            *final(self) == old(self).property_applied(id, data, now),
            r is Some <==> (id == REQ_SPEED && (number_in(data) matches Some(millis)
                && polled_outside(millis) && !old(self).speed_is_stale(
                Speed { tenths: polled_tenths(millis) as u8 },
                now,
            ))),
            r matches Some(command) ==> command@ == (Speed {
                tenths: polled_tenths(number_in(data)->0) as u8,
            }).order() && command.request_id is None,
    {
        if id == REQ_SPEED {
            match data {
                Some(Reported::Number(millis)) => {
                    let polled = Polled::from_millis(
                        if millis < 0 {
                            0
                        } else {
                            millis as u64
                        },
                    );
                    self.reconcile_speed(polled, now)
                },
                _ => None,
            }
        } else {
            self.playback.apply_property(id, &data, now);
            self.subtitles.apply_property(id, &data, now);
            None
        }
    }

    pub open spec fn item(self) -> SettingsItem {
        SETTINGS_ITEMS@[if self.settings_selected < 10 {
            self.settings_selected as int
        } else {
            9
        }]
    }

    /// The selected row of the settings screen; a place past the end is the last row.
    pub fn settings_item(&self) -> (r: SettingsItem)
        ensures
            r == self.item(),
    {
        SETTINGS_ITEMS[if self.settings_selected < 10 {
            self.settings_selected
        } else {
            9
        }]
    }

    /// What the settings screen says on a row. A setting that the environment replaces
    /// says so, for it is not saved.
    pub open spec fn row_text(self, item: SettingsItem) -> Seq<char> {
        match item.var_text(self.env_overridden) {
            Some(var) => item.row_text(self.settings) + "  ("@ + var + " が指定中。保存しません)"@,
            None => item.row_text(self.settings),
        }
    }

    pub fn settings_rows(&self) -> (r: Vec<String>)
        ensures
            texts(r@) == SETTINGS_ITEMS@.map_values(|item: SettingsItem| self.row_text(item)),
    {
        let ghost wanted = SETTINGS_ITEMS@.map_values(|item: SettingsItem| self.row_text(item));
        let mut out: Vec<String> = Vec::new();
        for i in 0..10
            invariant
                SETTINGS_ITEMS@.len() == 10,
                wanted == SETTINGS_ITEMS@.map_values(|item: SettingsItem| self.row_text(item)),
                texts(out@) == wanted.take(i as int),
        {
            let ghost before = out@;
            let item = SETTINGS_ITEMS[i];
            let mut row = item.row(&self.settings);
            if let Some(var) = item.env_var(&self.env_overridden) {
                row.append("  (");
                row.append(var);
                row.append(" が指定中。保存しません)");
            }
            let ghost shown = row@;
            out.push(row);
            proof {
                assert(wanted[i as int] == shown);
                assert(texts(out@) =~= texts(before).push(shown));
                assert(texts(out@) =~= wanted.take(i + 1));
            }
        }
        assert(wanted.take(10) =~= wanted);
        out
    }
}

/// The whole number nearest to a number of thousandths; halves go to the even one.
pub open spec fn nearest_whole(millis: nat) -> nat {
    let whole = millis / 1000;
    let rest = millis % 1000;
    if rest > 500 || (rest == 500 && whole % 2 == 1) {
        whole + 1
    } else {
        whole
    }
}

/// A volume as it is shown.
pub open spec fn volume_text(millis: i64) -> Seq<char> {
    if millis < 0 {
        "-"@ + decimal(nearest_whole((-millis) as nat))
    } else {
        decimal(nearest_whole(millis as nat))
    }
}

fn volume_label(millis: i64) -> (r: String)
    ensures
        r@ == volume_text(millis),
{
    let size: u64 = if millis < 0 {
        (-(millis as i128)) as u64
    } else {
        millis as u64
    };
    let whole: u64 = size / 1000;
    let rest: u64 = size % 1000;
    let shown = number(
        if rest > 500 || (rest == 500 && whole % 2 == 1) {
            whole + 1
        } else {
            whole
        },
    );
    if millis < 0 {
        let mut out = "-".to_owned();
        out.append(shown.as_str());
        out
    } else {
        shown
    }
}

/// A message behind a line, with a bar between them.
pub open spec fn barred(line: Seq<char>, message: Seq<char>) -> Seq<char> {
    line + "  |  "@ + message
}

impl App {
    pub open spec fn cap_text(self) -> Seq<char> {
        match self.settings.fps_cap {
            Some(cap) => " "@ + decimal(cap.fps as nat) + "fps"@,
            None => seq![],
        }
    }

    /// Where the picture is shown, and how. While the player is still somewhere else it
    /// says so: that can take seconds.
    pub open spec fn display_text(self) -> Seq<char> {
        let detail = match self.display {
            DisplayMode::Embedded => self.cap_text() + " "@ + self.settings.display.quality.word(),
            DisplayMode::Text => self.cap_text(),
            DisplayMode::Window => seq![],
        };
        let moving = match self.playback.current_vo {
            Some(vo) => DisplayMode::of_output(vo@) != self.display,
            None => false,
        };
        "["@ + self.display.name() + detail + (if moving {
            " (切替中)"@
        } else {
            seq![]
        }) + "]"@
    }

    pub fn display_label(&self) -> (r: String)
        ensures
            r@ == self.display_text(),
    {
        let mut cap = String::new();
        if let Some(limit) = self.settings.fps_cap {
            cap = joined(" ", number(limit.get() as u64).as_str(), "fps");
        }
        let detail = match self.display {
            DisplayMode::Embedded => joined(
                cap.as_str(),
                " ",
                self.settings.display.quality.label(),
            ),
            DisplayMode::Text => cap,
            DisplayMode::Window => String::new(),
        };
        let actual = match &self.playback.current_vo {
            Some(vo) => DisplayMode::from_current_vo(Some(vo.as_str())),
            None => None,
        };
        let moving: bool = match actual {
            Some(mode) => mode != self.display,
            None => false,
        };
        let mut out = joined("[", self.display.label(), detail.as_str());
        if moving {
            out.append(" (切替中)");
        } else {
            out.append("");
            proof {
                reveal_strlit("");
                assert(""@ =~= seq![]);
            }
        }
        out.append("]");
        out
    }

    pub open spec fn state_text(self) -> Seq<char> {
        match self.playback.paused {
            Some(true) => "PAUSED"@,
            Some(false) => "PLAYING"@,
            None => "状態不明"@,
        }
    }

    /// What plays, and how. The subtitles come early: a narrow screen cuts the end off.
    pub open spec fn playback_text(self, now: u64) -> Seq<char> {
        let subtitles = match self.subtitles.marker_text(self.settings.subtitles, now) {
            Some(marker) => "  "@ + marker,
            None => seq![],
        };
        let volume = match self.playback.volume {
            Some(millis) => "  vol "@ + volume_text(millis),
            None => seq![],
        };
        self.state_text() + subtitles + "  "@ + self.playback.title@ + "  "@ + time_text(
            self.playback.time_pos,
        ) + " / "@ + time_text(self.playback.duration) + volume + "  "@ + (self.speed.written()
            + "x"@) + "  "@ + self.display_text()
    }

    pub fn playback_line(&self, now: u64) -> (r: String)
        ensures
            r@ == self.playback_text(now),
    {
        proof {
            reveal_strlit("");
            assert(""@ =~= seq![]);
        }
        let mut out = match self.playback.paused {
            Some(true) => "PAUSED".to_owned(),
            Some(false) => "PLAYING".to_owned(),
            None => "状態不明".to_owned(),
        };
        let mut subtitles = String::new();
        if let Some(marker) = self.subtitles.marker(&self.settings.subtitles, now) {
            subtitles = "  ".to_owned();
            subtitles.append(marker.as_str());
        }
        let mut volume = String::new();
        if let Some(millis) = self.playback.volume {
            volume = "  vol ".to_owned();
            volume.append(volume_label(millis).as_str());
        }
        out.append(subtitles.as_str());
        out.append("  ");
        out.append(self.playback.title.as_str());
        out.append("  ");
        out.append(format_time(self.playback.time_pos).as_str());
        out.append(" / ");
        out.append(format_time(self.playback.duration).as_str());
        out.append(volume.as_str());
        out.append("  ");
        out.append(self.speed.label().as_str());
        out.append("  ");
        out.append(self.display_label().as_str());
        out
    }

    /// While something plays an error stands beside what plays, and does not hide it.
    pub open spec fn playing_text(self, now: u64) -> Seq<char> {
        match self.error {
            Some(error) => barred(self.playback_text(now), "エラー: "@ + error@),
            None => self.playback_text(now),
        }
    }

    fn playing_status(&self, now: u64) -> (r: String)
        ensures
            r@ == self.playing_text(now),
    {
        let mut out = self.playback_line(now);
        if let Some(error) = &self.error {
            out.append("  |  ");
            let mut message = "エラー: ".to_owned();
            message.append(error.as_str());
            out.append(message.as_str());
        }
        out
    }

    /// How many rows there are, and the whole title of the selected one: the grid cuts
    /// titles off.
    pub open spec fn results_text(self) -> Seq<char> {
        let count = decimal(self.list().len()) + " 件"@;
        if self.thumbs.fetching {
            barred(count, "サムネイル取得中..."@)
        } else if self.place() < self.list().len() {
            barred(count, self.list()[self.place() as int].title@)
        } else {
            count
        }
    }

    fn results_status(&self) -> (r: String)
        ensures
            r@ == self.results_text(),
    {
        let mut out = number(self.view_results().len() as u64);
        out.append(" 件");
        if self.thumbs.is_fetching() {
            return joined(out.as_str(), "  |  ", "サムネイル取得中...");
        }
        match self.view_selected_result() {
            Some(result) => joined(out.as_str(), "  |  ", result.title.as_str()),
            None => out,
        }
    }

    pub open spec fn settings_text(self) -> Seq<char> {
        match self.error {
            Some(error) => "エラー: "@ + error@,
            None => "設定 "@ + decimal(
                (if self.settings_selected < 10 {
                    self.settings_selected + 1
                } else {
                    10
                }) as nat,
            ) + "/"@ + decimal(10),
        }
    }

    fn settings_status(&self) -> (r: String)
        ensures
            r@ == self.settings_text(),
    {
        if let Some(error) = &self.error {
            let mut out = "エラー: ".to_owned();
            out.append(error.as_str());
            return out;
        }
        let row: u64 = if self.settings_selected < 10 {
            self.settings_selected as u64 + 1
        } else {
            10
        };
        let mut out = joined("設定 ", number(row).as_str(), "/");
        out.append(number(10).as_str());
        out
    }

    /// The line of the search side: an error alone, else what goes on and the state of
    /// the cookies, which can fail silently.
    pub open spec fn search_text(self, idle: Seq<char>) -> Seq<char> {
        match self.error {
            Some(error) => "エラー: "@ + error@,
            None => {
                let line = if self.searching {
                    "検索中..."@
                } else {
                    idle
                };
                match self.cookies.label_text() {
                    Some(label) => barred(line, label),
                    None => line,
                }
            },
        }
    }

    fn search_status(&self, idle: String) -> (r: String)
        ensures
            r@ == self.search_text(idle@),
    {
        if let Some(error) = &self.error {
            let mut out = "エラー: ".to_owned();
            out.append(error.as_str());
            return out;
        }
        let line = if self.searching {
            "検索中...".to_owned()
        } else {
            idle
        };
        match self.cookies.label() {
            Some(label) => joined(line.as_str(), "  |  ", label.as_str()),
            None => line,
        }
    }

    pub open spec fn mode_text(self, now: u64) -> Seq<char> {
        match self.mode {
            Mode::Playing => self.playing_text(now),
            Mode::Input => self.search_text("検索したい語句を入力して Enter"@),
            Mode::Results => self.search_text(self.results_text()),
            Mode::Channel => self.search_text(self.results_text()),
            Mode::Settings => self.settings_text(),
            Mode::Download => match self.error {
                Some(error) => "エラー: "@ + error@,
                None => "ダウンロード"@,
            },
        }
    }

    /// The status line: what the screen says, and a notice behind it unless there is an
    /// error.
    pub open spec fn status_text(self, now: u64) -> Seq<char> {
        match self.notice {
            Some(notice) if self.error is None => barred(self.mode_text(now), notice@),
            _ => self.mode_text(now),
        }
    }

    pub fn status_line(&self, now: u64) -> (r: String)
        ensures
            r@ == self.status_text(now),
    {
        let line = match self.mode {
            Mode::Playing => self.playing_status(now),
            Mode::Input => self.search_status("検索したい語句を入力して Enter".to_owned()),
            Mode::Results => self.search_status(self.results_status()),
            Mode::Channel => self.search_status(self.results_status()),
            Mode::Settings => self.settings_status(),
            Mode::Download => match &self.error {
                Some(error) => {
                    let mut out = "エラー: ".to_owned();
                    out.append(error.as_str());
                    out
                },
                None => "ダウンロード".to_owned(),
            },
        };
        match &self.notice {
            Some(notice) => if self.error.is_none() {
                joined(line.as_str(), "  |  ", notice.as_str())
            } else {
                line
            },
            None => line,
        }
    }
}

// ---- what holds of all of these ----

/// A list that is shown has no hidden row, whatever a search found.
pub proof fn law_results_are_not_hidden(
    app: App,
    results: Seq<SearchResult>,
    target: Target,
    after: App,
    i: int,
)
    requires
        app.results_set(results, target, after),
        0 <= i < after.list().len(),
    ensures
        !app.hidden.covers(after.list()[i]),
{
    law_shown_rows_are_not_hidden(results, app.hidden, results.len() as int);
}

/// Once hidden rows were dropped, no list has one.
pub proof fn law_dropped_rows_are_gone(app: App, after: App, tab: int, i: int)
    requires
        app.hidden_dropped(after),
        0 <= tab < after.tabs.states@.len(),
    ensures
        0 <= i < after.results@.len() ==> !app.hidden.covers(after.results@[i]),
        0 <= i < after.list().len() ==> !app.hidden.covers(after.list()[i]),
        0 <= i < after.tabs.states@[tab].results@.len() ==> !app.hidden.covers(
            after.tabs.states@[tab].results@[i],
        ),
        after.results@.len() > 0 ==> after.selected < after.results@.len(),
{
    law_shown_rows_are_not_hidden(app.results@, app.hidden, app.results@.len() as int);
    let state = app.tabs.states@[tab];
    assert(is_purged(state, app.hidden, after.tabs.states@[tab]));
    law_shown_rows_are_not_hidden(state.results@, app.hidden, state.results@.len() as int);
    if let Some(channel) = app.channel {
        let kept = channel.current();
        law_shown_rows_are_not_hidden(kept.results@, app.hidden, kept.results@.len() as int);
    }
}

/// A list that was replaced is not drawn until it was drawn: a click before that is not
/// meant for it.
pub proof fn law_new_list_is_not_drawn(
    app: App,
    results: Seq<SearchResult>,
    target: Target,
    after: App,
)
    requires
        app.drawn_generation == app.results_generation,
        app.results_set(results, target, after),
    ensures
        after.drawn_generation != after.results_generation,
{
}

/// A speed that was sent is not taken back by a report from before: for a while a report
/// of another speed changes nothing.
pub proof fn law_sent_speed_holds(app: App, speed: Speed, sent_at: u64, polled: Polled, now: u64)
    requires
        sent_at <= now < sent_at + SPEED_HOLD,
        polled.speed != speed,
    ensures
        ({
            let sent = App { speed, speed_sent_at: Some(sent_at), ..app };
            sent.speed_reconciled(polled, now) == sent
        }),
{
}

/// After that while the player is believed.
pub proof fn law_player_is_believed_later(
    app: App,
    speed: Speed,
    sent_at: u64,
    polled: Polled,
    now: u64,
)
    requires
        now >= sent_at + SPEED_HOLD,
    ensures
        ({
            let sent = App { speed, speed_sent_at: Some(sent_at), ..app };
            sent.speed_reconciled(polled, now).speed == polled.speed
        }),
{
}

/// The fields of the download screen go round from top to bottom: directory, file name,
/// format.
pub proof fn law_download_fields_go_round(field: DownloadField)
    ensures
        DownloadField::Dir.following() == DownloadField::Filename,
        DownloadField::Format.preceding() == DownloadField::Filename,
        field.following() != field,
        field.following().following() == field.preceding(),
        field.preceding().preceding() == field.following(),
{
}

/// The tabs of a channel go round in the order in which they stand.
pub proof fn law_channel_tabs_go_round(tab: ChannelTab)
    ensures
        tab.place() < 2 ==> ChannelView::tab_after(tab).place() == tab.place() + 1,
        tab.place() == 2 ==> ChannelView::tab_after(tab).place() == 0,
        tab.place() > 0 ==> ChannelView::tab_before(tab).place() + 1 == tab.place(),
        tab.place() == 0 ==> ChannelView::tab_before(tab).place() == 2,
{
}

/// Each tab of a channel keeps its own list: changing that of the selected one changes no
/// other, nor what channel it is.
pub proof fn law_channel_tabs_are_apart(view: ChannelView, state: TabState, other: ChannelTab)
    ensures
        view.with_current(state).current() == state,
        view.with_current(view.current()) == view,
        other != view.tab ==> (ChannelView { tab: other, ..view.with_current(state) }).current() == (
        ChannelView { tab: other, ..view }).current(),
        view.with_current(state).tab == view.tab,
        view.with_current(state).channel_id == view.channel_id,
        view.with_current(state).channel_title == view.channel_title,
        (ChannelView { tab: ChannelTab::Videos, ..view }).current() == view.videos,
        (ChannelView { tab: ChannelTab::Shorts, ..view }).current() == view.shorts,
        (ChannelView { tab: ChannelTab::Streams, ..view }).current() == view.streams,
{
}

/// A channel opens on its videos, with nothing loaded.
pub proof fn law_channel_opens_on_its_videos(view: ChannelView, id: String, title: String)
    requires
        view.is_opened(id, title),
    ensures
        view.channel_id == id,
        view.channel_title == title,
        view.tab == ChannelTab::Videos,
        !view.current().loaded,
        view.current().results@.len() == 0,
        !view.shorts.loaded,
        !view.streams.loaded,
{
}

/// A later time lies as far ahead as was asked for, or is the last there is.
pub proof fn law_later_is_later(now: u64, by: u64)
    ensures
        later(now, by) >= now,
        now + by <= u64::MAX ==> later(now, by) - now == by,
        now + by > u64::MAX ==> later(now, by) == u64::MAX,
{
}

/// The numbers go up by one, and no number follows itself.
pub proof fn law_numbers_go_up(n: u64)
    ensures
        bumped(n) != n,
        n < u64::MAX ==> bumped(n) - n == 1,
{
}

/// A short answer is there for three seconds, and then it is gone; nothing else changes.
pub proof fn law_notice_stays_three_seconds(app: App, text: Seq<char>, now: u64, after: App, t: u64)
    requires
        app.told(text, now, after),
        now <= u64::MAX - 3_000,
    ensures
        maybe_text(after.notice) == Some(text),
        t < now + 3_000 ==> after.notice_expired(t) == after,
        t >= now + 3_000 ==> after.notice_expired(t).notice is None,
        after.notice_expired(t).error == app.error,
        after.error == app.error,
        after.mode == app.mode,
        after.list() == app.list(),
        after.playback == app.playback,
        after.settings == app.settings,
{
}

/// The reason of a failure is there for three seconds, even where polling succeeds
/// meanwhile, and then it is gone; nothing else changes.
pub proof fn law_failure_stays_three_seconds(app: App, text: Seq<char>, now: u64, after: App, t: u64)
    requires
        app.failed(text, now, after),
        now <= u64::MAX - 3_000,
    ensures
        maybe_text(after.error) == Some(text),
        t < now + 3_000 ==> after.error_expired(t) == after && after.polled_error_cleared(t)
            == after,
        t >= now + 3_000 ==> after.error_expired(t).error is None && after.polled_error_cleared(
            t,
        ).error is None,
        after.notice == app.notice,
        after.mode == app.mode,
        after.list() == app.list(),
        after.playback == app.playback,
        after.settings == app.settings,
{
}

/// What is kept without a deadline does not expire, but a success of polling takes such an
/// error away.
pub proof fn law_lasting_messages_stay(app: App, now: u64)
    ensures
        app.notice_until is None ==> app.notice_expired(now) == app,
        app.error_until is None ==> app.error_expired(now) == app,
        app.error_until is None ==> app.polled_error_cleared(now).error is None,
        app.polled_error_cleared(now).notice == app.notice,
{
}

/// What is looked at is the open channel's list, or else the search's.
pub proof fn law_channel_goes_before_the_search(app: App, channel: ChannelView)
    ensures
        app.channel == Some(channel) ==> app.list() == channel.current().results@ && app.place()
            == channel.current().selected && app.top() == channel.current().scroll && app.kept()
            == channel.current(),
        app.channel is None ==> app.list() == app.results@ && app.place() == app.selected
            && app.top() == app.scroll && app.kept() == app.tabs.states@[app.tabs.selected as int],
{
}

/// Selecting another row changes the selected place and nothing else.
pub proof fn law_selecting_changes_the_place_only(app: App, place: usize)
    ensures
        app.with_place(place).place() == place,
        app.with_place(place).list() == app.list(),
        app.with_place(place).top() == app.top(),
        app.with_place(place).mode == app.mode,
        app.with_place(place).tabs == app.tabs,
        app.with_place(place).results == app.results,
        app.channel is Some ==> app.with_place(place).selected == app.selected,
        app.channel is None ==> app.with_place(place) == (App { selected: place, ..app }),
        app.channel is Some ==> app.with_place(place) == (App {
            channel: app.with_place(place).channel,
            ..app
        }),
{
}

/// Scrolling changes the first visible place and nothing else.
pub proof fn law_scrolling_changes_the_top_only(app: App, top: usize)
    ensures
        app.with_top(top).top() == top,
        app.with_top(top).list() == app.list(),
        app.with_top(top).place() == app.place(),
        app.with_top(top).mode == app.mode,
        app.with_top(top).tabs == app.tabs,
        app.channel is Some ==> app.with_top(top).scroll == app.scroll,
        app.channel is None ==> app.with_top(top) == (App { scroll: top, ..app }),
        app.channel is Some ==> app.with_top(top) == (App {
            channel: app.with_top(top).channel,
            ..app
        }),
{
}

/// The ids of a list are those of its rows, in their order.
pub proof fn law_ids_follow_the_rows(list: Seq<SearchResult>, i: int)
    requires
        0 <= i < list.len(),
    ensures
        ids_in(list).len() == list.len(),
        ids_in(list)[i] == list[i].id@,
{
}

proof fn lemma_channels_in_prefix(a: Seq<SearchResult>, b: Seq<SearchResult>, n: int)
    requires
        0 <= n <= a.len(),
    ensures
        channels_in(a + b, n) == channels_in(a, n),
    decreases n,
{
    if n > 0 {
        lemma_channels_in_prefix(a, b, n - 1);
        assert((a + b)[n - 1] == a[n - 1]);
    }
}

/// The channels that two lists name, one after the other, are those of both.
pub proof fn law_channels_of_lists_join(a: Seq<SearchResult>, b: Seq<SearchResult>)
    ensures
        channels_in(a + b, (a + b).len() as int) == channels_in(a, a.len() as int) + channels_in(
            b,
            b.len() as int,
        ),
    decreases b.len(),
{
    let n = b.len() as int;
    if n == 0 {
        assert(a + b =~= a);
        assert(channels_in(a, a.len() as int) + channels_in(b, 0) =~= channels_in(a, a.len() as int));
    } else {
        let c = b.drop_last();
        let end = seq![b.last()];
        law_channels_of_lists_join(a, c);
        assert(a + b =~= (a + c) + end);
        assert(b =~= c + end);
        lemma_channels_in_prefix(a + c, end, a.len() + n - 1);
        lemma_channels_in_prefix(c, end, n - 1);
        assert((a + b)[a.len() + n - 1] == b[n - 1]);
        assert(channels_in(a + b, (a + b).len() as int) =~= channels_in(a, a.len() as int) + channels_in(
            b,
            n,
        ));
    }
}

/// A row names its own channel, if any.
pub proof fn law_row_names_its_channel(row: SearchResult)
    ensures
        row.channel_id is None ==> channels_in(seq![row], 1).len() == 0,
        row.channel_id matches Some(id) ==> channels_in(seq![row], 1) == seq![id@],
{
    reveal_with_fuel(channels_in, 2);
    if let Some(id) = row.channel_id {
        assert(channels_in(seq![row], 1) =~= seq![id@]);
    }
}

/// Within a channel only that channel is asked for.
pub proof fn law_channel_asks_for_itself(app: App)
    ensures
        app.channel matches Some(channel) ==> app.channels_shown() == seq![channel.channel_id@],
        app.channel is None ==> app.channels_shown() == channels_in(
            app.results@,
            app.results@.len() as int,
        ),
{
}

proof fn lemma_shown_rows_prefix(a: Seq<SearchResult>, b: Seq<SearchResult>, hidden: Hidden, n: int)
    requires
        0 <= n <= a.len(),
    ensures
        shown_rows(a + b, hidden, n) == shown_rows(a, hidden, n),
    decreases n,
{
    if n > 0 {
        lemma_shown_rows_prefix(a, b, hidden, n - 1);
        assert((a + b)[n - 1] == a[n - 1]);
    }
}

/// Hiding rows of two lists, one after the other, is hiding them in both: the rows that are
/// left keep their order.
pub proof fn law_shown_lists_join(a: Seq<SearchResult>, b: Seq<SearchResult>, hidden: Hidden)
    ensures
        shown_rows(a + b, hidden, (a + b).len() as int) == shown_rows(a, hidden, a.len() as int) + shown_rows(
            b, hidden,
            b.len() as int,
        ),
    decreases b.len(),
{
    let n = b.len() as int;
    if n == 0 {
        assert(a + b =~= a);
        assert(shown_rows(a, hidden, a.len() as int) + shown_rows(b, hidden, 0) =~= shown_rows(a, hidden, a.len() as int));
    } else {
        let c = b.drop_last();
        let end = seq![b.last()];
        law_shown_lists_join(a, c, hidden);
        assert(a + b =~= (a + c) + end);
        assert(b =~= c + end);
        lemma_shown_rows_prefix(a + c, end, hidden, a.len() + n - 1);
        lemma_shown_rows_prefix(c, end, hidden, n - 1);
        assert((a + b)[a.len() + n - 1] == b[n - 1]);
        assert(shown_rows(a + b, hidden, (a + b).len() as int) =~= shown_rows(a, hidden, a.len() as int) + shown_rows(
            b, hidden,
            n,
        ));
    }
}

/// A row that is hidden is left out, and one that is not stays as it is.
pub proof fn law_row_is_shown_or_not(row: SearchResult, hidden: Hidden)
    ensures
        hidden.covers(row) ==> shown(seq![row], hidden).len() == 0,
        !hidden.covers(row) ==> shown(seq![row], hidden) == seq![row],
{
    reveal_with_fuel(shown_rows, 2);
    if !hidden.covers(row) {
        assert(shown(seq![row], hidden) =~= seq![row]);
    }
}

/// What a tab keeps comes back as it was left: handing the selection to the tab and taking
/// the tab's over again changes neither selection nor place.
pub proof fn law_tab_gives_back_the_selection(app: App, stored: App, after: App)
    requires
        app.wf(),
        app.stored_to_tab(stored),
        stored.synced_from_tab(after),
    ensures
        stored.selected == app.selected,
        stored.tabs.current().selected == app.selected,
        stored.tabs.current().scroll == app.scroll,
        stored.tabs.current().results == app.tabs.current().results,
        stored.tabs.current().loaded == app.tabs.current().loaded,
        after.selected == app.selected,
        after.scroll == app.scroll,
        after.results@ == app.tabs.current().results@,
        after.results_generation != app.results_generation,
        after.thumbs.dirty,
        forall|id: Seq<char>| #[trigger]
            after.thumbs.known@.contains(id) <==> app.thumbs.known@.contains(id) && ids_in(
                after.results@,
            ).contains(id),
{
}

/// Handing the selection back changes no other tab.
pub proof fn law_other_tabs_are_left_alone(app: App, stored: App, tab: int)
    requires
        app.wf(),
        app.stored_to_tab(stored),
        0 <= tab < app.tabs.states@.len(),
        tab != app.tabs.selected,
    ensures
        stored.tabs.states@[tab] == app.tabs.states@[tab],
        stored.tabs.selected == app.tabs.selected,
        stored.tabs.states@.len() == app.tabs.states@.len(),
{
}

/// Renewing what is drawn keeps the list and its selection where a channel is open.
pub proof fn law_channel_is_drawn_anew(app: App, after: App)
    requires
        app.synced_from_view(after),
        app.channel is Some,
    ensures
        after.channel == app.channel,
        after.list() == app.list(),
        after.place() == app.place(),
        after.results == app.results,
        after.results_generation != app.results_generation,
        after.thumbs.dirty,
{
}

/// The selection stays where it was, or goes to the last row that is left.
pub proof fn law_selection_stays_in_a_shorter_list(place: int, count: int)
    requires
        place >= 0,
        count >= 0,
    ensures
        place < count ==> nearest_place(place, count) == place,
        place >= count && count > 0 ==> nearest_place(place, count) + 1 == count,
        count == 0 ==> nearest_place(place, count) == 0,
{
}

/// Hiding rows keeps the rest of each list: the rows that are not hidden, where it was
/// scrolled to, what was asked for, and the selected place as far as there is one.
pub proof fn law_hiding_keeps_the_rest(app: App, after: App, tab: int)
    requires
        app.hidden_dropped(after),
        0 <= tab < app.tabs.states@.len(),
    ensures
        after.results@ == shown(app.results@, app.hidden),
        after.selected == nearest_place(app.selected as int, after.results@.len() as int) as usize,
        after.scroll == app.scroll,
        after.tabs.selected == app.tabs.selected,
        after.tabs.categories == app.tabs.categories,
        after.tabs.states@[tab].results@ == shown(app.tabs.states@[tab].results@, app.hidden),
        after.tabs.states@[tab].loaded == app.tabs.states@[tab].loaded,
        after.tabs.states@[tab].requested_limit == app.tabs.states@[tab].requested_limit,
        after.tabs.states@[tab].scroll == app.tabs.states@[tab].scroll,
        app.channel matches Some(view) ==> (after.channel matches Some(left) && left.tab == view.tab
            && left.channel_id == view.channel_id && left.current().results@ == shown(
            view.current().results@,
            app.hidden,
        ) && left.current().loaded == view.current().loaded),
        after.hidden == app.hidden,
        after.mode == app.mode,
        after.playback == app.playback,
        after.results_generation != app.results_generation,
        after.thumbs.dirty,
{
    assert(is_purged(app.tabs.states@[tab], app.hidden, after.tabs.states@[tab]));
}

/// A search leads to its list, to the search box where it found nothing, and within a
/// channel to the channel. While the settings or the download screen is open, that is where
/// it goes back to.
pub proof fn law_search_leads_to_its_list(
    app: App,
    results: Seq<SearchResult>,
    target: Target,
    after: App,
)
    requires
        app.results_set(results, target, after),
    ensures
        ({
            let there = if app.mode == Mode::Settings {
                after.settings_return
            } else if app.mode == Mode::Download {
                after.download_return
            } else {
                after.mode
            };
            &&& app.channel is Some ==> there == Mode::Channel
            &&& app.channel is None && after.list().len() > 0 ==> there == Mode::Results
            &&& app.channel is None && after.list().len() == 0 ==> there == Mode::Input
        }),
        app.mode == Mode::Settings || app.mode == Mode::Download ==> after.mode == app.mode,
        after.list() == shown(results, app.hidden),
        after.place() == 0,
        after.top() == 0,
        after.kept().loaded,
        !after.kept().reload,
        after.kept().requested_limit == app.kept().requested_limit,
        after.list().len() == 0 ==> after.error is Some,
        after.list().len() > 0 ==> after.error == app.error,
        after.thumbs.dirty,
        after.playback == app.playback,
        app.channel is Some ==> after.results == app.results && after.tabs == app.tabs,
{
}

/// More can be asked for just where a search was answered in full and the thousand that
/// there can be was not asked for.
pub proof fn law_more_while_there_is_more(app: App)
    ensures
        app.kept().requested_limit == 0 ==> !app.more_there(),
        app.kept().requested_limit >= 1000 ==> !app.more_there(),
        app.list().len() < app.kept().requested_limit ==> !app.more_there(),
        0 < app.kept().requested_limit < 1000 && app.list().len() >= app.kept().requested_limit
            ==> app.more_there(),
{
}

/// A reported speed is shown to the nearest tenth, between a tenth and four times.
pub proof fn law_reported_speed_is_rounded(millis: i64)
    ensures
        1 <= polled_tenths(millis) <= 40,
        50 <= millis < 4_050 ==> !polled_outside(millis) && -50 <= polled_tenths(millis) * 100
            - millis <= 50,
        millis < 50 ==> polled_outside(millis) && polled_tenths(millis) == 1,
        millis >= 4_050 ==> polled_outside(millis) && polled_tenths(millis) == 40,
{
}

/// A report of the speed changes the speed alone, and a report of anything else does not
/// change the speed.
pub proof fn law_reports_change_what_they_are_about(
    app: App,
    id: u64,
    data: Option<Reported>,
    now: u64,
)
    ensures
        id != 8 ==> app.property_applied(id, data, now).speed == app.speed && app.property_applied(
            id,
            data,
            now,
        ).speed_sent_at == app.speed_sent_at,
        id == 8 ==> app.property_applied(id, data, now).playback == app.playback,
        app.property_applied(id, data, now).list() == app.list(),
        app.property_applied(id, data, now).mode == app.mode,
        app.property_applied(id, data, now).settings == app.settings,
        app.property_applied(id, data, now).error == app.error,
{
}

/// A speed that was sent two seconds ago or more does not hold any longer; before that only
/// its own report is taken, and one from outside the range is sent back.
pub proof fn law_speed_holds_two_seconds(app: App, polled: Polled, sent_at: u64, now: u64)
    requires
        app.speed_sent_at == Some(sent_at),
    ensures
        sent_at <= now < sent_at + 2_000 && polled.speed != app.speed ==> app.speed_reconciled(
            polled,
            now,
        ) == app,
        now >= sent_at + 2_000 ==> app.speed_reconciled(polled, now).speed == polled.speed,
        polled.speed == app.speed && !polled.clamped ==> app.speed_reconciled(
            polled,
            now,
        ).speed_sent_at is None,
        polled.speed == app.speed && polled.clamped ==> app.speed_reconciled(
            polled,
            now,
        ).speed_sent_at == Some(now),
{
}

/// A screen of the search side is gone to, or gone back to from what is open above it.
pub proof fn law_search_screen_waits_below(app: App, mode: Mode)
    ensures
        app.mode == Mode::Settings ==> app.in_search_mode(mode).settings_return == mode
            && app.in_search_mode(mode).mode == Mode::Settings,
        app.mode == Mode::Download ==> app.in_search_mode(mode).download_return == mode
            && app.in_search_mode(mode).mode == Mode::Download,
        app.mode != Mode::Settings && app.mode != Mode::Download ==> app.in_search_mode(mode).mode
            == mode,
        app.in_search_mode(mode).list() == app.list(),
        app.in_search_mode(mode).place() == app.place(),
        app.in_search_mode(mode).playback == app.playback,
{
}

/// The selected row of the settings screen is the one at its place, from the display mode
/// on top to the thumbnails' time limit.
pub proof fn law_settings_rows_stand_in_order(app: App)
    ensures
        app.settings_selected == 0 ==> app.item() == SettingsItem::DisplayMode,
        app.settings_selected == 1 ==> app.item() == SettingsItem::DisplayQuality,
        app.settings_selected == 2 ==> app.item() == SettingsItem::FpsCap,
        app.settings_selected == 3 ==> app.item() == SettingsItem::SubtitlesEnabled,
        app.settings_selected == 4 ==> app.item() == SettingsItem::SearchLayout,
        app.settings_selected == 5 ==> app.item() == SettingsItem::SearchLimit,
        app.settings_selected == 6 ==> app.item() == SettingsItem::SearchTimeoutSecs,
        app.settings_selected == 7 ==> app.item() == SettingsItem::ThumbnailsEnabled,
        app.settings_selected == 8 ==> app.item() == SettingsItem::ThumbnailsMaxCached,
        app.settings_selected >= 9 ==> app.item() == SettingsItem::ThumbnailsTimeoutSecs,
{
}

/// A volume is shown as the nearest whole number, and a half as the even one.
pub proof fn law_volume_is_rounded(millis: nat)
    ensures
        -500 <= nearest_whole(millis) * 1000 - millis <= 500,
        millis % 1000 == 500 ==> nearest_whole(millis) % 2 == 0,
{
}

/// A message stands behind its line.
pub proof fn law_message_stands_behind(line: Seq<char>, message: Seq<char>)
    ensures
        barred(line, message).len() > line.len() + message.len(),
        barred(line, message).take(line.len() as int) == line,
        barred(line, message).skip(barred(line, message).len() - message.len()) == message,
{
    reveal_strlit("  |  ");
    let all = barred(line, message);
    assert(all.take(line.len() as int) =~= line);
    assert(all.skip(all.len() - message.len()) =~= message);
}

/// An error is told on every screen, at the end of the line, and no notice hides it.
pub proof fn law_error_is_always_told(app: App, now: u64)
    requires
        app.error is Some,
    ensures
        ({
            let line = app.status_text(now);
            let told = app.error->0@;
            line.len() >= told.len() && line.skip(line.len() - told.len()) == told
        }),
        app.status_text(now) == app.mode_text(now),
{
    let told = app.error->0@;
    let message = "エラー: "@ + told;
    assert(message.skip(message.len() - told.len()) =~= told);
    if app.mode == Mode::Playing {
        let line = app.status_text(now);
        law_message_stands_behind(app.playback_text(now), message);
        assert(line.skip(line.len() - told.len()) =~= told);
    }
}

/// Without an error a notice is told, at the end of the line and behind what the screen
/// says.
pub proof fn law_notice_is_told(app: App, now: u64)
    requires
        app.error is None,
    ensures
        app.notice is None ==> app.status_text(now) == app.mode_text(now),
        app.notice matches Some(notice) ==> {
            let line = app.status_text(now);
            let screen = app.mode_text(now);
            &&& line.len() > screen.len() + notice@.len()
            &&& line.take(screen.len() as int) == screen
            &&& line.skip(line.len() - notice@.len()) == notice@
        },
{
    if let Some(notice) = app.notice {
        law_message_stands_behind(app.mode_text(now), notice@);
    }
}

/// The line of a list begins with how many rows there are, and ends with the title of the
/// selected one unless thumbnails are on their way.
pub proof fn law_list_line_counts_the_rows(app: App)
    ensures
        ({
            let count = decimal(app.list().len());
            let line = app.results_text();
            &&& line.len() >= count.len()
            &&& line.take(count.len() as int) == count
            &&& !app.thumbs.fetching && app.place() < app.list().len() ==> {
                let title = app.list()[app.place() as int].title@;
                line.len() >= title.len() && line.skip(line.len() - title.len()) == title
            }
        }),
{
    let count = decimal(app.list().len());
    let head = count + " 件"@;
    let line = app.results_text();
    assert(head.take(count.len() as int) =~= count);
    if app.thumbs.fetching {
        law_message_stands_behind(head, "サムネイル取得中..."@);
    } else if app.place() < app.list().len() {
        law_message_stands_behind(head, app.list()[app.place() as int].title@);
    }
    assert(line.take(count.len() as int) =~= line.take(head.len() as int).take(count.len() as int));
}

/// Paused, playing and not known yet are told apart, at the beginning of the line.
pub proof fn law_state_is_told_first(app: App, now: u64)
    ensures
        app.playback.paused == Some(true) ==> app.state_text() == "PAUSED"@,
        app.playback.paused == Some(false) ==> app.state_text() == "PLAYING"@,
        app.playback_text(now).len() >= app.state_text().len(),
        app.playback_text(now).take(app.state_text().len() as int) == app.state_text(),
        app.playback_text(now).len() >= app.display_text().len(),
        app.playback_text(now).skip(app.playback_text(now).len() - app.display_text().len())
            == app.display_text(),
{
    let line = app.playback_text(now);
    let state = app.state_text();
    let display = app.display_text();
    assert(line.take(state.len() as int) =~= state);
    assert(line.skip(line.len() - display.len()) =~= display);
}

/// While the player still draws elsewhere the display is told to be on its way, and else it
/// stands alone.
pub proof fn law_moving_display_is_told(app: App)
    ensures
        ({
            let still = App { playback: Playback { current_vo: None, ..app.playback }, ..app };
            &&& app.playback.current_vo is None ==> app.display_text() == still.display_text()
            &&& app.playback.current_vo matches Some(vo) ==> {
                &&& DisplayMode::of_output(vo@) == app.display ==> app.display_text()
                    == still.display_text()
                &&& DisplayMode::of_output(vo@) != app.display ==> app.display_text()
                    == still.display_text().drop_last() + " (切替中)"@ + "]"@
            }
        }),
{
    reveal_strlit("]");
    let still = App { playback: Playback { current_vo: None, ..app.playback }, ..app };
    if let Some(vo) = app.playback.current_vo {
        if DisplayMode::of_output(vo@) != app.display {
            assert(app.display_text() =~= still.display_text().drop_last() + " (切替中)"@ + "]"@);
        }
    }
}

/// The display is told by its name, with the cap and the quality in the terminal's graphics,
/// with the cap in text and with neither in a window.
pub proof fn law_display_is_told(app: App)
    requires
        app.playback.current_vo is None,
    ensures
        app.display == DisplayMode::Window ==> app.display_text() == "["@ + app.display.name()
            + "]"@,
        app.display == DisplayMode::Text ==> app.display_text() == "["@ + app.display.name()
            + app.cap_text() + "]"@,
        app.display == DisplayMode::Embedded ==> app.display_text() == "["@ + app.display.name()
            + app.cap_text() + " "@ + app.settings.display.quality.word() + "]"@,
        app.settings.fps_cap is None ==> app.cap_text().len() == 0,
        app.settings.fps_cap matches Some(cap) ==> app.cap_text() == " "@ + decimal(cap.fps as nat)
            + "fps"@,
{
    if app.display == DisplayMode::Window {
        assert(app.display_text() =~= "["@ + app.display.name() + "]"@);
    } else if app.display == DisplayMode::Text {
        assert(app.display_text() =~= "["@ + app.display.name() + app.cap_text() + "]"@);
    } else {
        assert(app.display_text() =~= "["@ + app.display.name() + app.cap_text() + " "@
            + app.settings.display.quality.word() + "]"@);
    }
}

/// An error takes the line of a search. Without one the line tells that a search is on its
/// way, or what the screen has to say, and which cookies are used.
pub proof fn law_search_line(app: App, idle: Seq<char>)
    ensures
        app.error matches Some(error) ==> app.search_text(idle) == "エラー: "@ + error@,
        app.error is None && app.cookies.label_text() is None ==> (app.searching
            ==> app.search_text(idle) == "検索中..."@) && (!app.searching ==> app.search_text(idle)
            == idle),
        app.error is None ==> (app.cookies.label_text() matches Some(label) ==> (!app.searching
            ==> app.search_text(idle) == idle + "  |  "@ + label) && (app.searching
            ==> app.search_text(idle) == "検索中..."@ + "  |  "@ + label)),
{
}

/// What each screen says: the search box asks for words, both lists count their rows, the
/// settings tell which row of ten is selected.
pub proof fn law_screens_say_where_they_are(app: App, now: u64)
    ensures
        app.mode == Mode::Input ==> app.mode_text(now) == app.search_text(
            "検索したい語句を入力して Enter"@,
        ),
        app.mode == Mode::Results || app.mode == Mode::Channel ==> app.mode_text(now)
            == app.search_text(app.results_text()),
        app.mode == Mode::Download && app.error is None ==> app.mode_text(now) == "ダウンロード"@,
        app.mode == Mode::Settings && app.error is None && app.settings_selected < 10
            ==> app.mode_text(now) == "設定 "@ + decimal((app.settings_selected + 1) as nat) + "/"@
            + decimal(10),
        app.mode == Mode::Playing && app.error is None ==> app.mode_text(now) == app.playback_text(
            now,
        ),
        app.mode == Mode::Playing ==> (app.error matches Some(error) ==> app.mode_text(now)
            == app.playback_text(now) + "  |  "@ + ("エラー: "@ + error@)),
        (app.mode == Mode::Settings || app.mode == Mode::Download) ==> (
        app.error matches Some(error) ==> app.mode_text(now) == "エラー: "@ + error@),
{
}

/// What plays is told with its title, where it is and how long it lasts, its volume where
/// that is known, and its speed.
pub proof fn law_playing_line(app: App, now: u64)
    requires
        app.subtitles.marker_text(app.settings.subtitles, now) is None,
    ensures
        app.playback.volume is None ==> app.playback_text(now) == app.state_text() + "  "@
            + app.playback.title@ + "  "@ + crate::playback::time_text(app.playback.time_pos)
            + " / "@ + crate::playback::time_text(app.playback.duration) + "  "@ + (
        app.speed.written() + "x"@) + "  "@ + app.display_text(),
        app.playback.volume matches Some(millis) ==> app.playback_text(now) == app.state_text()
            + "  "@ + app.playback.title@ + "  "@ + crate::playback::time_text(
            app.playback.time_pos,
        ) + " / "@ + crate::playback::time_text(app.playback.duration) + ("  vol "@ + volume_text(
            millis,
        )) + "  "@ + (app.speed.written() + "x"@) + "  "@ + app.display_text(),
        app.playback.paused is None ==> app.state_text() == "状態不明"@,
{
    let start = app.state_text() + "  "@ + app.playback.title@ + "  "@ + crate::playback::time_text(
        app.playback.time_pos,
    ) + " / "@ + crate::playback::time_text(app.playback.duration);
    let end = "  "@ + (app.speed.written() + "x"@) + "  "@ + app.display_text();
    if let Some(millis) = app.playback.volume {
        assert(app.playback_text(now) =~= app.state_text() + "  "@ + app.playback.title@ + "  "@
            + crate::playback::time_text(app.playback.time_pos) + " / "@
            + crate::playback::time_text(app.playback.duration) + ("  vol "@ + volume_text(millis))
            + "  "@ + (app.speed.written() + "x"@) + "  "@ + app.display_text());
    } else {
        assert(app.playback_text(now) =~= app.state_text() + "  "@ + app.playback.title@ + "  "@
            + crate::playback::time_text(app.playback.time_pos) + " / "@
            + crate::playback::time_text(app.playback.duration) + "  "@ + (app.speed.written()
            + "x"@) + "  "@ + app.display_text());
    }
}

/// A row of the settings that the environment overrides says so, and says by which variable.
pub proof fn law_overridden_row_says_so(app: App, item: SettingsItem)
    ensures
        item.var_text(app.env_overridden) is None ==> app.row_text(item) == item.row_text(
            app.settings,
        ),
        item.var_text(app.env_overridden) matches Some(var) ==> app.row_text(item) == item.row_text(
            app.settings,
        ) + "  ("@ + var + " が指定中。保存しません)"@,
{
}

/// The application starts at the search box with nothing in it: no list, no message, nothing
/// playing and nothing hidden.
pub proof fn law_application_starts_empty(app: App)
    requires
        is_started(app),
    ensures
        app.mode == Mode::Input,
        app.list().len() == 0,
        app.place() == 0,
        app.top() == 0,
        !app.searching,
        app.error is None,
        app.notice is None,
        app.video is None,
        !app.background,
        !app.should_quit,
        app.speed.tenths == 10,
        app.display == DisplayMode::Embedded,
        app.subtitles.wanted,
        app.playback.url@.len() == 0,
        app.playback.time_pos is None,
        app.comments.state is None,
        app.tabs.selected == 0,
        app.resume@.len() == 0,
        !app.hidden.videos@.contains(app.playback.id@),
        !app.hidden.channels@.contains(app.playback.id@),
        !app.hidden.channel_names@.contains(app.playback.id@),
        app.thumbs.known@.len() == 0,
        !app.thumbs.fetching,
        app.thumbs.disabled is None,
{
}

/// A mark of the subtitles stands behind the state of what plays.
pub proof fn law_subtitle_mark_stands_behind_the_state(app: App, now: u64, mark: Seq<char>)
    requires
        app.subtitles.marker_text(app.settings.subtitles, now) == Some(mark),
    ensures
        (app.state_text() + "  "@ + mark + "  "@ + app.playback.title@).is_prefix_of(
            app.playback_text(now),
        ),
{
    let start = app.state_text() + "  "@ + mark + "  "@ + app.playback.title@;
    assert(start =~= app.playback_text(now).subrange(0, start.len() as int));
}

} // verus!
