//! What a key does on the screens besides the player: the list, the settings and the
//! download screen. Times are milliseconds.

use crate::actions::{channel_left, leave_channel};
use crate::app::{
    law_selecting_changes_the_place_only, law_shown_rows_are_not_hidden, App, DownloadField, Mode,
};
use crate::category::{lemma_round, next_in, prev_in};
use crate::download::{
    debug_log_path, default_dir, is_separator, law_file_names_stay_in_the_directory,
    sanitize_filename, sanitized, DEBUG_LOG_FILE, DOWNLOADING_PREFIX,
};
use crate::grid::{
    ensure_visible, is_layout, law_moves_stay_among_the_results, law_selection_is_visible, layout,
    moved, scrolled, Dir, Layout, LayoutMode,
};
use crate::hidden::Kind;
use crate::paths::{app_dir, file_below, seen, value_of};
use crate::rect::Rect;
use crate::session::{cancel_download, download_cancelled, search_cancelled, Session};
use crate::settings::{same_settings, DisplaySettings, EnvOverridden, Settings};
use crate::display::DisplayMode;
use crate::text::{join, maybe_text, texts, trim, trimmed, with_between};
use crate::thumbs::Thumbs;
use crate::video::CellSize;
use vstd::prelude::*;
use vstd::string::*;

verus! {

pub const HIDDEN_VIDEO_NOTICE: &'static str = "この動画を非表示にしました";

pub const HIDDEN_CHANNEL_NOTICE: &'static str = "このチャンネルを非表示にしました";

/// Why nothing is saved where neither `$HOME` nor `$XDG_CONFIG_HOME` is known.
pub const NO_CONFIG_PATH: &'static str =
    "設定ファイルの置き場が分かりません ($HOME を設定してください)";

// ---- the list ----

/// The grid that the list is shown in within `inner`. A plain list has none.
pub fn grid_layout(app: &App, inner: Rect, cell: CellSize) -> (r: Option<Layout>)
    requires
        inner.wf(),
    ensures
        match app.settings.search.layout {
            LayoutMode::Grid => is_layout(
                inner,
                cell,
                app.list().len() as usize,
                app.top(),
                r,
            ),
            LayoutMode::List => r is None,
        },
{
    match app.settings.search.layout {
        LayoutMode::Grid => layout(inner, cell, app.view_results().len(), app.view_scroll()),
        LayoutMode::List => None,
    }
}

/// The application once the selection was moved in a grid. Only a list that was
/// scrolled has to be drawn again: what marks the selection lies beside the images.
pub open spec fn grid_moved(app: App, layout: Layout, dir: Dir) -> App {
    let selected = moved(
        app.place() as int,
        app.list().len() as int,
        layout.columns as int,
        dir,
    );
    let top = scrolled(selected, layout.columns as int, layout.rows as int, app.top() as int);
    let there = app.with_place(selected as usize);
    if top == app.top() {
        there
    } else {
        let below = there.with_top(top as usize);
        App { thumbs: Thumbs { dirty: true, ..app.thumbs }, ..below }
    }
}

/// The application once the selection was moved in a plain list, and round.
pub open spec fn list_moved(app: App, dir: Dir) -> App {
    let count = app.list().len() as int;
    if count == 0 {
        app
    } else {
        match dir {
            Dir::Down => app.with_place(((app.place() + 1) % count) as usize),
            Dir::Up => app.with_place(((app.place() + count - 1) % count) as usize),
            _ => app,
        }
    }
}

/// Moves the selection, given how the list is laid out; `None` where it is drawn without
/// a grid.
pub fn move_selection(app: &mut App, layout: Option<&Layout>, dir: Dir)
    ensures
        *final(app) == (match layout {
            Some(layout) => grid_moved(*old(app), *layout, dir),
            None => list_moved(*old(app), dir),
        }),
        old(app).wf() ==> final(app).wf(),
{
    let layout = match layout {
        Some(layout) => layout,
        None => {
            match dir {
                Dir::Down => app.select_next(),
                Dir::Up => app.select_prev(),
                _ => {},
            }
            return ;
        },
    };
    let selected: usize = crate::grid::move_selection(
        app.view_selected(),
        app.view_results().len(),
        layout.columns,
        dir,
    );
    app.set_view_selected(selected);
    let top: usize = ensure_visible(selected, layout.columns, layout.rows, app.view_scroll());
    if top != app.view_scroll() {
        app.set_view_scroll(top);
        app.thumbs.mark_dirty();
    }
}

// ---- hiding ----

/// What the user is told where the list of what is hidden could not be written.
pub open spec fn hide_failure(reason: Seq<char>) -> Seq<char> {
    "非表示リストを保存できません: "@ + reason
}

fn hide_failed(reason: &str) -> (r: String)
    ensures
        r@ == hide_failure(reason@),
{
    let mut out = "非表示リストを保存できません: ".to_owned();
    out.append(reason);
    out
}

/// `after` is `app` with one more video or channel hidden and its rows gone.
pub open spec fn newly_hidden(app: App, kind: Kind, id: Seq<char>, title: Seq<char>, after: App) -> bool {
    exists|marked: App|
        {
            &&& marked == (App { hidden: marked.hidden, ..app })
            &&& app.hidden.is_added(kind, id, title, marked.hidden)
            &&& #[trigger] marked.hidden_dropped(after)
        }
}

/// Hides a video or a channel and takes its rows off the lists, if that was written.
fn take_off(app: &mut App, kind: Kind, id: &str, title: &str, written: Result<(), String>) -> (r: Result<
    (),
    String,
>)
    requires
        old(app).wf(),
    ensures
        final(app).wf(),
        r == written,
        written is Ok ==> newly_hidden(*old(app), kind, id@, title@, *final(app)),
        written is Err ==> *final(app) == *old(app),
{
    let r = app.hidden.add(kind, id, title, written);
    if r.is_ok() {
        let ghost marked = *app;
        app.drop_hidden();
        assert(marked.hidden_dropped(*app));
    }
    r
}

/// The application on the search box, where no row is left to look at.
pub open spec fn off_empty_list(app: App) -> App {
    if app.channel is None && app.results@.len() == 0 {
        app.in_search_mode(Mode::Input)
    } else {
        app
    }
}

/// What hiding the selected video comes to, given how the file was written.
pub open spec fn selected_hidden(
    app: App,
    written: Result<(), String>,
    now: u64,
    after: App,
) -> bool {
    let result = app.list()[app.place() as int];
    if app.place() >= app.list().len() {
        after == app
    } else {
        match written {
            Ok(_) => exists|dropped: App, told: App|
                {
                    &&& #[trigger] newly_hidden(app, Kind::Video, result.id@, result.title@, dropped)
                    &&& #[trigger] dropped.told(HIDDEN_VIDEO_NOTICE@, now, told)
                    &&& after == off_empty_list(told)
                },
            Err(reason) => app.failed(hide_failure(reason@), now, after),
        }
    }
}

/// Hides the selected video, given how the file was written. Only what was written goes
/// off the lists.
pub fn hide_selected(app: &mut App, written: Result<(), String>, now: u64)
    requires
        old(app).wf(),
    ensures
        final(app).wf(),
        selected_hidden(*old(app), written, now, *final(app)),
{
    let (id, title): (String, String) = match app.view_selected_result() {
        Some(result) => (result.id.clone(), result.title.clone()),
        None => {
            return ;
        },
    };
    match take_off(app, Kind::Video, id.as_str(), title.as_str(), written) {
        Ok(_) => {
            let ghost dropped = *app;
            app.set_temporary_notice(HIDDEN_VIDEO_NOTICE.to_owned(), now);
            let ghost told = *app;
            assert(dropped.told(HIDDEN_VIDEO_NOTICE@, now, told));
            if app.channel.is_none() && app.results.len() == 0 {
                app.enter_search_mode(Mode::Input);
            }
        },
        Err(reason) => {
            app.set_temporary_error(hide_failed(reason.as_str()), now);
        },
    }
}

/// What hiding the channel that is looked at comes to.
pub open spec fn channel_hidden(
    app: App,
    session: Session,
    written: Result<(), String>,
    now: u64,
    after: App,
    session_after: Session,
) -> bool {
    match app.channel {
        None => after == app && session_after == session,
        Some(channel) => match written {
            Ok(_) => {
                &&& session_after == search_cancelled(session)
                &&& exists|dropped: App, left: App|
                    {
                        &&& #[trigger] newly_hidden(
                            app,
                            Kind::Channel,
                            channel.channel_id@,
                            channel.channel_title@,
                            dropped,
                        )
                        &&& #[trigger] channel_left(dropped, left)
                        &&& left.told(HIDDEN_CHANNEL_NOTICE@, now, after)
                    }
            },
            Err(reason) => app.failed(hide_failure(reason@), now, after) && session_after
                == session,
        },
    }
}

/// Hides the channel that is looked at and goes back to the list of the search, given
/// how the file was written.
pub fn hide_current_channel(
    app: &mut App,
    session: &mut Session,
    written: Result<(), String>,
    now: u64,
)
    requires
        old(app).wf(),
    ensures
        final(app).wf(),
        channel_hidden(*old(app), *old(session), written, now, *final(app), *final(session)),
{
    let (id, title): (String, String) = match &app.channel {
        Some(channel) => (channel.channel_id.clone(), channel.channel_title.clone()),
        None => {
            return ;
        },
    };
    match take_off(app, Kind::Channel, id.as_str(), title.as_str(), written) {
        Ok(_) => {
            let ghost dropped = *app;
            leave_channel(app, session);
            let ghost left = *app;
            assert(channel_left(dropped, left));
            app.set_temporary_notice(HIDDEN_CHANNEL_NOTICE.to_owned(), now);
        },
        Err(reason) => {
            app.set_temporary_error(hide_failed(reason.as_str()), now);
        },
    }
}

// ---- the settings screen ----

/// `after` is `app` with the settings screen open.
pub open spec fn settings_opened(app: App, after: App) -> bool {
    &&& after == (App {
        settings_return: app.mode,
        mode: Mode::Settings,
        settings_selected: if app.settings_selected < 10 {
            app.settings_selected
        } else {
            9
        },
        settings_edit: None,
        settings_backup: after.settings_backup,
        ..app
    })
    &&& same_settings(after.settings_backup, app.settings)
}

/// Opens the settings screen. The settings as they are now are what leaving it without
/// saving goes back to.
pub fn open_settings(app: &mut App, session: &mut Session)
    ensures
        settings_opened(*old(app), *final(app)),
        *final(session) == (Session { owe_clear: true, ..*old(session) }),
        old(app).wf() ==> final(app).wf(),
{
    app.settings_return = app.mode;
    app.mode = Mode::Settings;
    if app.settings_selected >= 10 {
        app.settings_selected = 9;
    }
    app.settings_edit = None;
    app.settings_backup = app.settings.clone();
    session.owe_clear = true;
}

/// `after` is `app` back where the settings screen was opened from.
pub open spec fn settings_closed(app: App, after: App) -> bool {
    &&& after == (App {
        settings: after.settings,
        settings_edit: None,
        mode: app.settings_return,
        thumbs: Thumbs { dirty: true, ..app.thumbs },
        ..app
    })
    &&& same_settings(after.settings, app.settings_backup)
}

/// Leaves the settings screen. What was not saved is undone.
pub fn close_settings(app: &mut App)
    ensures
        settings_closed(*old(app), *final(app)),
        old(app).wf() ==> final(app).wf(),
{
    app.settings = app.settings_backup.clone();
    app.settings_edit = None;
    app.mode = app.settings_return;
    app.thumbs.mark_dirty();
}

/// Leaving the settings screen without saving leaves nothing behind, whatever was edited
/// meanwhile: the screen and every setting are what they were when it was opened.
pub proof fn law_unsaved_settings_are_undone(app: App, opened: App, edited: App, closed: App)
    requires
        settings_opened(app, opened),
        edited == (App {
            settings: edited.settings,
            settings_selected: edited.settings_selected,
            settings_edit: edited.settings_edit,
            notice: edited.notice,
            notice_until: edited.notice_until,
            error: edited.error,
            error_until: edited.error_until,
            ..opened
        }),
        settings_closed(edited, closed),
    ensures
        same_settings(closed.settings, app.settings),
        closed.mode == app.mode,
{
}

/// Moves the selection of the settings screen, and round.
pub fn move_settings_selection(app: &mut App, delta: i32)
    ensures
        *final(app) == (App {
            settings_selected: settings_row_after(
                old(app).settings_selected,
                delta >= 0,
            ) as usize,
            ..*old(app)
        }),
{
    let current: usize = if app.settings_selected < 10 {
        app.settings_selected
    } else {
        9
    };
    app.settings_selected = if delta < 0 {
        (current + 9) % 10
    } else {
        (current + 1) % 10
    };
}

/// Changes the value on the selected row, and no other.
pub fn adjust_settings_value(app: &mut App, delta: i32)
    ensures
        *final(app) == (App {
            settings: old(app).item().adjusted(old(app).settings, delta >= 0),
            ..*old(app)
        }),
{
    let item = app.settings_item();
    item.adjust(&mut app.settings, delta);
}

/// What follows in brackets on the notice that the settings were saved.
pub open spec fn saved_notes(overridden: EnvOverridden, deferred: bool) -> Seq<Seq<char>> {
    (if overridden.none() {
        seq![]
    } else {
        seq![with_between(overridden.key_texts(), "、"@) + " は環境変数の指定中で書き換えません"@]
    }) + (if deferred {
        seq!["display.mode は次回起動から反映されます"@]
    } else {
        seq![]
    })
}

/// What the user is told where the settings were saved: what the environment replaces
/// was not written, and another display mode takes effect at the next start.
pub open spec fn saved_text(path: Seq<char>, overridden: EnvOverridden, deferred: bool) -> Seq<char> {
    let saved = path + " に保存しました"@;
    let notes = saved_notes(overridden, deferred);
    if notes.len() == 0 {
        saved
    } else {
        saved + " ("@ + with_between(notes, "。"@) + ")"@
    }
}

pub fn saved_notice(path: &str, overridden: &EnvOverridden, deferred: bool) -> (r: String)
    ensures
        r@ == saved_text(path@, *overridden, deferred),
{
    let mut notes: Vec<String> = Vec::new();
    if !overridden.is_empty() {
        let mut note = join(&overridden.keys(), "、");
        note.append(" は環境変数の指定中で書き換えません");
        notes.push(note);
    }
    if deferred {
        notes.push("display.mode は次回起動から反映されます".to_owned());
    }
    assert(texts(notes@) =~= saved_notes(*overridden, deferred));
    let mut out = path.to_owned();
    out.append(" に保存しました");
    if notes.len() == 0 {
        assert(saved_notes(*overridden, deferred).len() == 0);
        return out;
    }
    assert(saved_notes(*overridden, deferred).len() > 0);
    out.append(" (");
    out.append(join(&notes, "。").as_str());
    out.append(")");
    out
}

/// What the user is told where the settings could not be written.
pub open spec fn save_failure(reason: Seq<char>) -> Seq<char> {
    "設定を保存できません: "@ + reason
}

fn save_failed(reason: &str) -> (r: String)
    ensures
        r@ == save_failure(reason@),
{
    let mut out = "設定を保存できません: ".to_owned();
    out.append(reason);
    out
}

/// What is written to the file: the settings, but for what the environment replaces.
pub fn settings_to_write(app: &App) -> (r: Settings)
    ensures
        app.env_overridden.restores(app.settings, r),
{
    app.env_overridden.restore(&app.settings)
}

/// What the user is told where these settings were saved.
pub open spec fn saved_message(app: App, path: Seq<char>) -> Seq<char> {
    saved_text(path, app.env_overridden, app.settings.display.mode != app.display)
}

/// `after` is `app` with its settings as what leaving the screen goes back to.
pub open spec fn backed_up(app: App, after: App) -> bool {
    &&& after == (App { settings_backup: after.settings_backup, ..app })
    &&& same_settings(after.settings_backup, app.settings)
}

/// What saving comes to, given where to and how that went.
pub open spec fn settings_saved(
    app: App,
    path: Option<Seq<char>>,
    written: Result<(), String>,
    now: u64,
    after: App,
) -> bool {
    match path {
        None => app.failed(NO_CONFIG_PATH@, now, after),
        Some(path) => match written {
            Ok(_) => exists|kept: App| #[trigger]
                backed_up(app, kept) && kept.told(saved_message(app, path), now, after),
            Err(reason) => app.failed(save_failure(reason@), now, after),
        },
    }
}

/// Takes in how the settings were saved. What was saved is what leaving the screen goes
/// back to.
pub fn save_settings_to(
    app: &mut App,
    path: Option<&str>,
    written: Result<(), String>,
    now: u64,
)
    ensures
        settings_saved(*old(app), seen(path), written, now, *final(app)),
        old(app).wf() ==> final(app).wf(),
{
    let path = match path {
        Some(path) => path,
        None => {
            app.set_temporary_error(NO_CONFIG_PATH.to_owned(), now);
            return ;
        },
    };
    match written {
        Ok(_) => {
            let notice = saved_notice(
                path,
                &app.env_overridden,
                app.settings.display.mode != app.display,
            );
            app.settings_backup = app.settings.clone();
            let ghost kept = *app;
            app.set_temporary_notice(notice, now);
            assert(backed_up(*old(app), kept));
        },
        Err(reason) => {
            app.set_temporary_error(save_failed(reason.as_str()), now);
        },
    }
}

/// What was saved survives leaving the screen.
pub proof fn law_saved_settings_survive(
    app: App,
    path: Seq<char>,
    now: u64,
    saved: App,
    closed: App,
)
    requires
        settings_saved(app, Some(path), Ok(()), now, saved),
        settings_closed(saved, closed),
    ensures
        same_settings(closed.settings, app.settings),
{
}

/// The settings with another display mode.
pub open spec fn with_mode(settings: Settings, mode: DisplayMode) -> Settings {
    Settings { display: DisplaySettings { mode, ..settings.display }, ..settings }
}

/// Takes in how a display mode was saved that the user switched to while playing; `None`
/// where there is nowhere to save it. Success is not spoken of. The setting changes only
/// with the file.
pub fn save_display_mode(
    app: &mut App,
    mode: DisplayMode,
    written: Option<Result<(), String>>,
    now: u64,
)
    ensures
        match written {
            None => old(app).failed(NO_CONFIG_PATH@, now, *final(app)),
            Some(Ok(_)) => *final(app) == (App {
                settings: with_mode(old(app).settings, mode),
                settings_backup: with_mode(old(app).settings_backup, mode),
                ..*old(app)
            }),
            Some(Err(reason)) => old(app).failed(save_failure(reason@), now, *final(app)),
        },
        old(app).wf() ==> final(app).wf(),
{
    match written {
        None => app.set_temporary_error(NO_CONFIG_PATH.to_owned(), now),
        Some(Ok(_)) => {
            app.settings.display.mode = mode;
            app.settings_backup.display.mode = mode;
        },
        Some(Err(reason)) => {
            app.set_temporary_error(save_failed(reason.as_str()), now);
        },
    }
}

// ---- the download screen ----

/// The title and the address of what would be downloaded: what plays, or the selected
/// row.
pub open spec fn download_subject(app: App) -> Option<(Seq<char>, Seq<char>)> {
    if app.mode == Mode::Playing {
        Some((app.playback.title@, app.playback.url@))
    } else if app.place() < app.list().len() {
        let result = app.list()[app.place() as int];
        Some((result.title@, result.address()))
    } else {
        None
    }
}

/// Where downloads go unless the user says otherwise.
pub open spec fn usual_dir(settings: Settings, home: Option<Seq<char>>) -> Seq<char> {
    match settings.download.dir {
        Some(dir) => dir@,
        None => match file_below(value_of(home), "Downloads"@) {
            Some(dir) => dir,
            None => seq![],
        },
    }
}

/// `after` is `app` with the download screen open for a video.
pub open spec fn download_opened(
    app: App,
    title: Seq<char>,
    url: Seq<char>,
    home: Option<Seq<char>>,
    after: App,
) -> bool {
    &&& after == (App {
        download_return: app.mode,
        mode: Mode::Download,
        download_url: after.download_url,
        download_dir: after.download_dir,
        download_filename: after.download_filename,
        download_audio_only: false,
        download_focus: DownloadField::Dir,
        ..app
    })
    &&& after.download_url@ == url
    &&& after.download_dir@ == usual_dir(app.settings, home)
    &&& after.download_filename@ == sanitized(title)
}

/// Opens the download screen. Where nothing is selected, nothing happens.
pub fn open_download(app: &mut App, session: &mut Session, home: Option<&str>)
    ensures
        match download_subject(*old(app)) {
            Some((title, url)) => {
                &&& download_opened(*old(app), title, url, seen(home), *final(app))
                &&& *final(session) == (Session { owe_clear: true, ..*old(session) })
            },
            None => *final(app) == *old(app) && *final(session) == *old(session),
        },
        old(app).wf() ==> final(app).wf(),
{
    let (title, url): (String, String) = if app.mode == Mode::Playing {
        (app.playback.title.clone(), app.playback.url.clone())
    } else {
        match app.view_selected_result() {
            Some(result) => (result.title.clone(), result.url()),
            None => {
                return ;
            },
        }
    };
    let dir = match &app.settings.download.dir {
        Some(dir) => default_dir(Some(dir.as_str()), home),
        None => default_dir(None, home),
    };
    app.download_return = app.mode;
    app.mode = Mode::Download;
    app.download_url = url;
    app.download_dir = match dir {
        Some(dir) => dir,
        None => String::new(),
    };
    app.download_filename = sanitize_filename(title.as_str());
    app.download_audio_only = false;
    app.download_focus = DownloadField::Dir;
    session.owe_clear = true;
}

/// The application back where the download screen was opened from.
pub open spec fn download_closed(app: App) -> App {
    App { mode: app.download_return, thumbs: Thumbs { dirty: true, ..app.thumbs }, ..app }
}

/// Leaves the download screen. A download that was started goes on.
pub fn close_download(app: &mut App)
    ensures
        *final(app) == download_closed(*old(app)),
        old(app).wf() ==> final(app).wf(),
{
    app.mode = app.download_return;
    app.thumbs.mark_dirty();
}

/// The download screen goes back to where it was opened from.
pub proof fn law_download_screen_goes_back(
    app: App,
    title: Seq<char>,
    url: Seq<char>,
    home: Option<Seq<char>>,
    opened: App,
)
    requires
        download_opened(app, title, url, home, opened),
    ensures
        download_closed(opened).mode == app.mode,
{
}

/// Moves between the fields of the download screen, and round.
pub fn move_download_focus(app: &mut App, delta: i32)
    ensures
        *final(app) == (App {
            download_focus: if delta < 0 {
                old(app).download_focus.preceding()
            } else {
                old(app).download_focus.following()
            },
            ..*old(app)
        }),
{
    app.download_focus = if delta < 0 {
        app.download_focus.prev()
    } else {
        app.download_focus.next()
    };
}

/// Where the log of downloads is kept, if one is wanted.
pub open spec fn log_place(
    enabled: bool,
    xdg_config_home: Option<Seq<char>>,
    home: Option<Seq<char>>,
) -> Option<Seq<char>> {
    if enabled {
        file_below(app_dir(xdg_config_home, home, ".config"@), DEBUG_LOG_FILE@)
    } else {
        None
    }
}

pub fn download_debug_log_path(
    enabled: bool,
    xdg_config_home: Option<&str>,
    home: Option<&str>,
) -> (r: Option<String>)
    ensures
        maybe_text(r) == log_place(enabled, seen(xdg_config_home), seen(home)),
{
    if enabled {
        debug_log_path(xdg_config_home, home)
    } else {
        None
    }
}

/// A file to download.
#[derive(Debug, PartialEq, Eq)]
pub struct DownloadOrder {
    pub nonce: u64,
    pub dir: String,
    pub filename: String,
    pub audio_only: bool,
    pub url: String,
    pub debug_log_path: Option<String>,
}

/// The name that a file is downloaded under.
pub open spec fn chosen_name(app: App) -> Seq<char> {
    sanitized(trimmed(app.download_filename@))
}

/// What starting a download comes to.
pub open spec fn download_started(
    app: App,
    session: Session,
    xdg_config_home: Option<Seq<char>>,
    home: Option<Seq<char>>,
    now: u64,
    after: App,
    session_after: Session,
    r: Option<DownloadOrder>,
) -> bool {
    let dir = trimmed(app.download_dir@);
    let filename = chosen_name(app);
    if dir.len() == 0 || filename.len() == 0 {
        &&& app.failed("保存先とファイル名を入力してください"@, now, after)
        &&& session_after == session
        &&& r is None
    } else {
        let closed = download_closed(app);
        &&& after == (App { notice: after.notice, notice_until: None, ..closed })
        &&& maybe_text(after.notice) == Some(DOWNLOADING_PREFIX@ + filename)
        &&& session_after == (Session { download_task: true, ..download_cancelled(session) })
        &&& r matches Some(order) && {
            &&& order.nonce == session_after.download_nonce
            &&& order.dir@ == dir
            &&& order.filename@ == filename
            &&& order.audio_only == app.download_audio_only
            &&& order.url == app.download_url
            &&& maybe_text(order.debug_log_path) == log_place(
                app.settings.download.debug,
                xdg_config_home,
                home,
            )
        }
    }
}

/// Starts the download that the screen describes, and leaves the screen. The file name is
/// cleaned once more, for the user may have typed a separator. The notice stays until the
/// download is done.
pub fn start_download(
    app: &mut App,
    session: &mut Session,
    xdg_config_home: Option<&str>,
    home: Option<&str>,
    now: u64,
) -> (r: Option<DownloadOrder>)
    ensures
        download_started(
            *old(app),
            *old(session),
            seen(xdg_config_home),
            seen(home),
            now,
            *final(app),
            *final(session),
            r,
        ),
        old(app).wf() ==> final(app).wf(),
{
    let dir = trim(app.download_dir.as_str());
    let filename = sanitize_filename(trim(app.download_filename.as_str()).as_str());
    if dir.as_str().is_empty() || filename.as_str().is_empty() {
        app.set_temporary_error("保存先とファイル名を入力してください".to_owned(), now);
        return None;
    }
    cancel_download(session);
    let mut notice = DOWNLOADING_PREFIX.to_owned();
    notice.append(filename.as_str());
    app.set_notice(Some(notice));
    session.download_task = true;
    let order = DownloadOrder {
        nonce: session.download_nonce,
        dir,
        filename,
        audio_only: app.download_audio_only,
        url: app.download_url.clone(),
        debug_log_path: download_debug_log_path(
            app.settings.download.debug,
            xdg_config_home,
            home,
        ),
    };
    close_download(app);
    Some(order)
}

/// A download replaces the one that runs, whose answer is late; and whatever name was
/// typed for its file, the name does not lead out of its directory.
pub proof fn law_one_download_at_a_time(
    app: App,
    session: Session,
    xdg_config_home: Option<Seq<char>>,
    home: Option<Seq<char>>,
    now: u64,
    after: App,
    session_after: Session,
    r: Option<DownloadOrder>,
)
    requires
        download_started(app, session, xdg_config_home, home, now, after, session_after, r),
        r is Some,
    ensures
        session_after.download_nonce != session.download_nonce,
        r->0.nonce == session_after.download_nonce,
        after.mode == app.download_return,
        forall|i: int|
            0 <= i < r->0.filename@.len() ==> !is_separator(#[trigger] r->0.filename@[i]),
{
    assert forall|i: int| 0 <= i < r->0.filename@.len() implies !is_separator(
        #[trigger] r->0.filename@[i],
    ) by {
        law_file_names_stay_in_the_directory(trimmed(app.download_filename@), i);
    }
}

/// In a list a step down goes one row on and a step up one row back, and at the ends round
/// to the other end; each undoes the other, and nothing but the selection changes.
pub proof fn law_list_steps_go_round(app: App)
    requires
        app.place() < app.list().len() <= usize::MAX,
    ensures
        app.place() + 1 < app.list().len() ==> list_moved(app, Dir::Down).place() - 1
            == app.place(),
        app.place() + 1 == app.list().len() ==> list_moved(app, Dir::Down).place() == 0,
        app.place() > 0 ==> list_moved(app, Dir::Up).place() + 1 == app.place(),
        app.place() == 0 ==> list_moved(app, Dir::Up).place() + 1 == app.list().len(),
        list_moved(list_moved(app, Dir::Down), Dir::Up).place() == app.place(),
        list_moved(list_moved(app, Dir::Up), Dir::Down).place() == app.place(),
        list_moved(app, Dir::Down).list() == app.list(),
        list_moved(app, Dir::Up).list() == app.list(),
        list_moved(app, Dir::Down).top() == app.top(),
        list_moved(app, Dir::Up).top() == app.top(),
        list_moved(app, Dir::Down).mode == app.mode,
        list_moved(app, Dir::Up).mode == app.mode,
{
    let count = app.list().len() as int;
    let place = app.place() as int;
    let next = next_in(place, count) as usize;
    let prev = prev_in(place, count) as usize;
    lemma_round(place, count);
    lemma_round(next as int, count);
    lemma_round(prev as int, count);
    law_selecting_changes_the_place_only(app, next);
    law_selecting_changes_the_place_only(app, prev);
    law_selecting_changes_the_place_only(app.with_place(next), prev_in(next as int, count) as usize);
    law_selecting_changes_the_place_only(app.with_place(prev), next_in(prev as int, count) as usize);
    assert(list_moved(app, Dir::Down) == app.with_place(next));
    assert(list_moved(app, Dir::Up) == app.with_place(prev));
}

/// A list has no sides, and an empty one no rows to go to.
pub proof fn law_list_has_no_sides(app: App, dir: Dir)
    requires
        dir == Dir::Left || dir == Dir::Right || app.list().len() == 0,
    ensures
        list_moved(app, dir) == app,
{
}

/// In a grid the selection goes where a step leads, and the list is scrolled just far
/// enough to show it. What is listed stays.
pub proof fn law_grid_steps_are_seen(app: App, layout: Layout, dir: Dir)
    requires
        app.place() < app.list().len(),
        layout.columns > 0,
        layout.rows > 0,
        app.list().len() <= usize::MAX,
    ensures
        grid_moved(app, layout, dir).list() == app.list(),
        grid_moved(app, layout, dir).place() == moved(
            app.place() as int,
            app.list().len() as int,
            layout.columns as int,
            dir,
        ),
        grid_moved(app, layout, dir).top() <= grid_moved(app, layout, dir).place(),
        grid_moved(app, layout, dir).place() < grid_moved(app, layout, dir).top() + layout.rows
            * layout.columns,
        grid_moved(app, layout, dir).top() != app.top() ==> grid_moved(
            app,
            layout,
            dir,
        ).thumbs.dirty,
        grid_moved(app, layout, dir).top() == app.top() ==> grid_moved(app, layout, dir).thumbs
            == app.thumbs,
        grid_moved(app, layout, dir).mode == app.mode,
{
    let selected = moved(
        app.place() as int,
        app.list().len() as int,
        layout.columns as int,
        dir,
    );
    law_moves_stay_among_the_results(
        app.place() as int,
        app.list().len() as int,
        layout.columns as int,
        dir,
    );
    law_selection_is_visible(
        selected,
        layout.columns as int,
        layout.rows as int,
        app.top() as int,
    );
}

/// A video that was hidden is hidden from then on, and its rows are gone from the list;
/// where that could not be written, nothing is hidden and the reason is told.
pub proof fn law_hidden_video_is_gone(
    app: App,
    written: Result<(), String>,
    now: u64,
    after: App,
    i: int,
)
    requires
        selected_hidden(app, written, now, after),
        app.place() < app.list().len(),
    ensures
        written is Ok ==> after.hidden.videos@ == app.hidden.videos@.insert(
            app.list()[app.place() as int].id@,
        ),
        written is Ok && 0 <= i < after.list().len() ==> after.list()[i].id@
            != app.list()[app.place() as int].id@,
        written is Ok ==> after.notice is Some && after.error == app.error,
        written is Ok && app.channel is None && after.results@.len() > 0 && app.mode
            == Mode::Results ==> after.mode == Mode::Results,
        written is Ok && app.channel is None && after.results@.len() == 0 && app.mode
            == Mode::Results ==> after.mode == Mode::Input,
        written is Ok && app.channel is Some ==> after.mode == app.mode,
        written is Err ==> after.hidden == app.hidden && after.list() == app.list() && after.error
            is Some && after.mode == app.mode,
{
    let result = app.list()[app.place() as int];
    if written is Ok {
        let (dropped, told) = choose|dropped: App, told: App|
            {
                &&& #[trigger] newly_hidden(app, Kind::Video, result.id@, result.title@, dropped)
                &&& #[trigger] dropped.told(HIDDEN_VIDEO_NOTICE@, now, told)
                &&& after == off_empty_list(told)
            };
        let marked = choose|marked: App|
            {
                &&& marked == (App { hidden: marked.hidden, ..app })
                &&& app.hidden.is_added(Kind::Video, result.id@, result.title@, marked.hidden)
                &&& #[trigger] marked.hidden_dropped(dropped)
            };
        assert(after.list() == dropped.list());
        if 0 <= i < after.list().len() {
            let kept = match marked.channel {
                Some(channel) => channel.current().results@,
                None => marked.results@,
            };
            law_shown_rows_are_not_hidden(kept, marked.hidden, kept.len() as int);
            assert(!marked.hidden.covers(after.list()[i]));
        }
    }
}

/// Without a selected row nothing is hidden.
pub proof fn law_nothing_selected_nothing_hidden(
    app: App,
    written: Result<(), String>,
    now: u64,
    after: App,
)
    requires
        selected_hidden(app, written, now, after),
        app.place() >= app.list().len(),
    ensures
        after == app,
{
}

/// A channel that was hidden is hidden by its id and its name, and left; where that could
/// not be written, it stays open and the reason is told.
pub proof fn law_hidden_channel_is_left(
    app: App,
    session: Session,
    written: Result<(), String>,
    now: u64,
    after: App,
    session_after: Session,
)
    requires
        channel_hidden(app, session, written, now, after, session_after),
    ensures
        app.channel is None ==> after == app && session_after == session,
        app.channel matches Some(channel) ==> {
            &&& written is Ok ==> after.channel is None && after.hidden.channels@.contains(
                channel.channel_id@,
            ) && (channel.channel_title@.len() > 0 ==> after.hidden.channel_names@.contains(
                channel.channel_title@,
            )) && after.hidden.videos == app.hidden.videos && after.notice is Some
            &&& written is Err ==> after.channel == app.channel && after.hidden == app.hidden
                && after.error is Some && session_after == session
        },
{
}

/// The settings screen opens over the screen that was there, on the row that was selected
/// last, and with nothing typed.
pub proof fn law_settings_open_over_the_screen(app: App, after: App)
    requires
        settings_opened(app, after),
    ensures
        after.mode == Mode::Settings,
        after.settings_return == app.mode,
        after.settings_edit is None,
        after.settings == app.settings,
        same_settings(after.settings_backup, app.settings),
        after.settings_selected < 10,
        app.settings_selected < 10 ==> after.settings_selected == app.settings_selected,
        after.list() == app.list(),
        after.place() == app.place(),
{
}

/// Leaving the settings screen goes back, forgets what was typed, and draws anew.
pub proof fn law_settings_close_to_the_screen(app: App, after: App)
    requires
        settings_closed(app, after),
    ensures
        after.mode == app.settings_return,
        after.settings_edit is None,
        after.thumbs.dirty,
        same_settings(after.settings, app.settings_backup),
        after.list() == app.list(),
        after.place() == app.place(),
{
}

/// The row after the selected one of the settings screen, or the row before, and round.
pub open spec fn settings_row_after(row: usize, forward: bool) -> int {
    let current = if row < 10 {
        row as int
    } else {
        9
    };
    if forward {
        (current + 1) % 10
    } else {
        (current + 9) % 10
    }
}

/// The ten rows of the settings screen go round: a step leads to the next row, from the
/// last to the first, and a step back undoes it.
pub proof fn law_settings_rows_go_round(row: usize)
    requires
        row < 10,
    ensures
        row < 9 ==> settings_row_after(row, true) - 1 == row,
        row == 9 ==> settings_row_after(row, true) == 0,
        row > 0 ==> settings_row_after(row, false) + 1 == row,
        row == 0 ==> settings_row_after(row, false) == 9,
        settings_row_after(settings_row_after(row, true) as usize, false) == row,
        settings_row_after(settings_row_after(row, false) as usize, true) == row,
{
}

/// Saving where there is no place for the file, or where writing fails, changes no setting
/// and tells the reason; a success is told with the place.
pub proof fn law_saving_is_told(
    app: App,
    path: Option<Seq<char>>,
    written: Result<(), String>,
    now: u64,
    after: App,
)
    requires
        settings_saved(app, path, written, now, after),
    ensures
        after.settings == app.settings,
        after.mode == app.mode,
        path is None || written is Err ==> after.settings_backup == app.settings_backup
            && after.error is Some && after.notice == app.notice,
        path is Some && written is Ok ==> same_settings(after.settings_backup, app.settings)
            && after.error == app.error && (after.notice matches Some(notice) && notice@.len()
            >= path->0.len() && notice@.take(path->0.len() as int) == path->0),
{
    if path is Some && written is Ok {
        let path = path->0;
        let text = saved_message(app, path);
        assert(text.take(path.len() as int) =~= path);
    }
}

/// What is told of a save names each setting that the environment replaces, and a display
/// mode that waits for the next start.
pub proof fn law_save_notes(overridden: EnvOverridden, deferred: bool)
    ensures
        saved_notes(overridden, deferred).len() == (if overridden.fps_cap is None
            && overridden.cookies is None {
            0int
        } else {
            1
        }) + (if deferred {
            1int
        } else {
            0
        }),
        deferred ==> saved_notes(overridden, deferred).last()
            == "display.mode は次回起動から反映されます"@,
{
}

/// Another display mode changes nothing else of the settings.
pub proof fn law_mode_is_all_that_changes(settings: Settings, mode: DisplayMode)
    ensures
        with_mode(settings, mode).display.mode == mode,
        with_mode(settings, mode).display.quality == settings.display.quality,
        with_mode(settings, mode).display.max_frame_pixels == settings.display.max_frame_pixels,
        with_mode(settings, mode).search == settings.search,
        with_mode(settings, mode).fps_cap == settings.fps_cap,
        with_mode(settings, mode).subtitles == settings.subtitles,
        with_mode(settings, mode).thumbnails == settings.thumbnails,
        with_mode(settings, mode).cookies == settings.cookies,
        with_mode(settings, mode).window == settings.window,
        with_mode(with_mode(settings, mode), settings.display.mode) == settings,
{
}

/// What would be downloaded is what plays while something plays, and else the selected
/// row, if there is one.
pub proof fn law_download_takes_what_is_looked_at(app: App)
    ensures
        app.mode == Mode::Playing ==> download_subject(app) == Some(
            (app.playback.title@, app.playback.url@),
        ),
        app.mode != Mode::Playing && app.place() < app.list().len() ==> (download_subject(
            app,
        ) matches Some((title, url)) && title == app.list()[app.place() as int].title@ && url
            == app.list()[app.place() as int].address()),
        app.mode != Mode::Playing && app.place() >= app.list().len() ==> download_subject(app)
            is None,
{
}

/// The download screen opens on the directory, for video with sound, and with a name made
/// of the title.
pub proof fn law_download_screen_opens_afresh(
    app: App,
    title: Seq<char>,
    url: Seq<char>,
    home: Option<Seq<char>>,
    after: App,
)
    requires
        download_opened(app, title, url, home, after),
    ensures
        after.mode == Mode::Download,
        after.download_return == app.mode,
        after.download_url@ == url,
        !after.download_audio_only,
        after.download_focus == DownloadField::Dir,
        app.settings.download.dir matches Some(dir) ==> after.download_dir@ == dir@,
        app.settings.download.dir is None && value_of(home) is None ==> after.download_dir@.len()
            == 0,
        forall|i: int|
            0 <= i < after.download_filename@.len() ==> !is_separator(
                #[trigger] after.download_filename@[i],
            ),
        after.list() == app.list(),
        after.playback == app.playback,
{
    assert forall|i: int| 0 <= i < after.download_filename@.len() implies !is_separator(
        #[trigger] after.download_filename@[i],
    ) by {
        law_file_names_stay_in_the_directory(title, i);
    }
}

/// A download is started as the screen describes it, once both fields are filled in. It is
/// told until it is done, and the screen closes; else nothing starts and the reason is told.
pub proof fn law_download_is_as_described(
    app: App,
    session: Session,
    xdg_config_home: Option<Seq<char>>,
    home: Option<Seq<char>>,
    now: u64,
    after: App,
    session_after: Session,
    r: Option<DownloadOrder>,
)
    requires
        download_started(app, session, xdg_config_home, home, now, after, session_after, r),
    ensures
        r is None <==> trimmed(app.download_dir@).len() == 0 || chosen_name(app).len() == 0,
        r is None ==> after.mode == app.mode && after.error is Some && session_after == session,
        r matches Some(order) ==> {
            &&& order.url == app.download_url
            &&& order.audio_only == app.download_audio_only
            &&& order.dir@ == trimmed(app.download_dir@)
            &&& order.filename@ == sanitized(trimmed(app.download_filename@))
            &&& !app.settings.download.debug ==> order.debug_log_path is None
            &&& after.notice_until is None
            &&& after.notice is Some
            &&& session_after.download_task
            &&& after.thumbs.dirty
            &&& after.error == app.error
            &&& after.playback == app.playback
        },
{
}

/// A download goes by default to the directory that is set, or to the downloads of the home,
/// or nowhere.
pub proof fn law_usual_directory(settings: Settings, home: Option<Seq<char>>)
    ensures
        settings.download.dir matches Some(dir) ==> usual_dir(settings, home) == dir@,
        settings.download.dir is None && home is Some && home->0.len() > 0 ==> usual_dir(
            settings,
            home,
        ) == crate::paths::below(home->0, "Downloads"@),
        settings.download.dir is None && (home is None || home->0.len() == 0) ==> usual_dir(
            settings,
            home,
        ).len() == 0,
{
}

/// The log is kept with the settings, and only where it is wanted.
pub proof fn law_log_stands_by_the_settings(
    enabled: bool,
    xdg: Option<Seq<char>>,
    home: Option<Seq<char>>,
)
    ensures
        !enabled ==> log_place(enabled, xdg, home) is None,
        enabled && xdg is Some && xdg->0.len() > 0 ==> log_place(enabled, xdg, home) == Some(
            crate::paths::below(crate::paths::below(xdg->0, "tuitube"@), DEBUG_LOG_FILE@),
        ),
        enabled && (xdg is None || xdg->0.len() == 0) && home is Some && home->0.len() > 0
            ==> log_place(enabled, xdg, home) == Some(
            crate::paths::below(
                crate::paths::below(crate::paths::below(home->0, ".config"@), "tuitube"@),
                DEBUG_LOG_FILE@,
            ),
        ),
{
}

/// What the user is told where something could not be saved, and where the settings were.
pub proof fn law_saving_messages(path: Seq<char>, reason: Seq<char>, overridden: EnvOverridden)
    requires
        overridden.none(),
    ensures
        hide_failure(reason) == "非表示リストを保存できません: "@ + reason,
        save_failure(reason) == "設定を保存できません: "@ + reason,
        saved_text(path, overridden, false) == path + " に保存しました"@,
{
}

} // verus!
