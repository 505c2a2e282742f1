//! What a key does while something plays. What the player is to be told is returned;
//! how it took that comes back through a second function. Times are milliseconds.

use crate::app::{App, Mode, VideoSlot};
use crate::clipboard::{CopyFailure, MISSING_PBCOPY};
use crate::comments::Comments;
use crate::display::{
    resize_commands, resizing, switch_commands, switching, DisplayMode, LaunchPlan,
};
use crate::geometry::{geometry_for, video_part};
use crate::grid::{ensure_visible, scrolled, Layout};
use crate::mpv::{
    command_views, is_poll, jumping, poll_commands, quit, rounded_seconds, seek, spoken, stepping,
    unasked, MpvCommand, Reported,
};
use crate::playback::{clamp_target, clamped_target, PendingSeek, Playback};
use crate::rect::Rect;
use crate::resume::place_of;
use crate::search::SearchResult;
use crate::seekbar::SeekBarState;
use crate::session::{cancel_comments, comments_cancelled, Player, Session};
use crate::speed::Speed;
use crate::subtitles::{
    missing_notice, missing_text, text_mode_notice, text_mode_text, toggle_notice, toggle_text,
    SubtitleLaunch, SubtitleState, SubtitleStatus,
};
use crate::tasks::{layout_in, start_comments, CommentsOrder};
use crate::text::texts;
use crate::thumbs::Thumbs;
use crate::video::{is_picture, same_geometry, CellSize, DecoderKind, Geometry};
use vstd::prelude::*;
use vstd::string::*;

verus! {

/// How far an arrow key seeks.
pub const SEEK_STEP: i64 = 5_000;

/// Shown where the address was copied.
pub const COPIED_NOTICE: &'static str = "URL をコピーしました";

// ---- what the player answers ----

/// The application once the player took a command, or did not.
pub open spec fn command_answered(app: App, sent: Result<(), String>) -> App {
    match sent {
        Ok(_) => app,
        Err(reason) => App { error: Some(reason), error_until: None, ..app },
    }
}

/// Takes in how the player took a command. A failure is shown.
pub fn player_answered(app: &mut App, sent: Result<(), String>)
    ensures
        *final(app) == command_answered(*old(app), sent),
{
    if let Err(reason) = sent {
        app.set_error(Some(reason));
    }
}

/// Takes in the answer to a poll, and says what is to be sent back, if anything.
pub fn apply_property(
    app: &mut App,
    session: &Session,
    id: u64,
    data: Option<Reported>,
    now: u64,
) -> (r: Option<MpvCommand>)
    ensures
        *final(app) == old(app).property_applied(id, data, now),
        r is Some ==> session.player is Some && id == crate::mpv::REQ_SPEED,
        r matches Some(command) ==> command@ == final(app).speed.order() && command.request_id
            is None,
        session.player is Some ==> (r is Some <==> (id == crate::mpv::REQ_SPEED && (
        crate::mpv::number_in(data) matches Some(millis) && crate::app::polled_outside(millis)
            && !old(app).speed_is_stale(
            Speed { tenths: crate::app::polled_tenths(millis) as u8 },
            now,
        )))),
{
    let command = app.apply_property(id, data, now);
    if session.player.is_some() {
        command
    } else {
        None
    }
}

/// What is asked of the player every second.
pub fn poll_player(session: &Session) -> (r: Vec<MpvCommand>)
    ensures
        session.player is Some ==> is_poll(r@),
        session.player is None ==> r@.len() == 0,
{
    if session.player.is_some() {
        poll_commands()
    } else {
        Vec::new()
    }
}

/// The application once the player took a poll, or did not.
pub open spec fn poll_answered(app: App, sent: Result<(), String>, now: u64) -> App {
    match sent {
        Err(reason) => App { error: Some(reason), error_until: None, ..app },
        Ok(_) => app.polled_error_cleared(now),
    }
}

/// Takes in how a poll was taken. One that passed takes its error away, but for the
/// reason of an action that failed a moment ago.
pub fn polled(app: &mut App, sent: Result<(), String>, now: u64)
    ensures
        *final(app) == poll_answered(*old(app), sent, now),
{
    match sent {
        Ok(_) => app.clear_polled_error(now),
        Err(reason) => app.set_error(Some(reason)),
    }
}

/// The application without what was to be shown only until now.
pub open spec fn ticked(app: App, now: u64) -> App {
    let quiet = if crate::app::is_over(app.notice_until, now) {
        App { notice: None, notice_until: None, ..app }
    } else {
        app
    };
    if crate::app::is_over(app.error_until, now) {
        App { error: None, error_until: None, ..quiet }
    } else {
        quiet
    }
}

/// What is done every second: old notices and errors go, and the player is polled.
pub fn on_tick(app: &mut App, session: &Session, now: u64) -> (r: Vec<MpvCommand>)
    ensures
        *final(app) == ticked(*old(app), now),
        session.player is Some ==> is_poll(r@),
        session.player is None ==> r@.len() == 0,
{
    app.expire_notice(now);
    app.expire_error(now);
    poll_player(session)
}

// ---- seeking ----

/// A place moved by some time, as far as times go.
pub open spec fn shifted(base: i64, delta: i64) -> i64 {
    if base + delta > i64::MAX {
        i64::MAX
    } else if base + delta < i64::MIN {
        i64::MIN
    } else {
        (base + delta) as i64
    }
}

fn shift(base: i64, delta: i64) -> (r: i64)
    ensures
        r == shifted(base, delta),
{
    let to: i128 = base as i128 + delta as i128;
    if to > i64::MAX as i128 {
        i64::MAX
    } else if to < i64::MIN as i128 {
        i64::MIN
    } else {
        to as i64
    }
}

/// What is shown of the video once a place in it was asked for.
pub open spec fn sought(playback: Playback, target: i64, now: u64) -> Playback {
    Playback {
        time_pos: Some(target),
        pending_seek: Some(PendingSeek { target, sent_at: now }),
        ..playback
    }
}

fn whole_step(delta: i64) -> (r: i64)
    ensures
        r == rounded_seconds(delta as int),
{
    let wide: i128 = delta as i128;
    if wide < 0 {
        (-((500 - wide) / 1000)) as i64
    } else {
        ((wide + 500) / 1000) as i64
    }
}

/// What the player is told of a step.
pub open spec fn step_order(delta: i64) -> Seq<crate::mpv::ArgView> {
    stepping(rounded_seconds(delta as int) as i64)
}

/// The application once a step was asked for.
pub open spec fn stepped_by(app: App, delta: i64, now: u64) -> App {
    App {
        playback: match app.playback.base() {
            Some(base) => sought(
                app.playback,
                clamped_target(shifted(base, delta) as int, app.playback.duration) as i64,
                now,
            ),
            None => app.playback,
        },
        seek_bar: app.seek_bar.without_hover(),
        ..app
    }
}

/// Seeks by some time. The player is told the step, and the screen goes ahead to where
/// it will be. What the pointer shows on the seek bar is old.
pub fn seek_relative(app: &mut App, session: &Session, delta: i64, now: u64) -> (r: Option<
    MpvCommand,
>)
    ensures
        r is Some <==> session.player is Some,
        r matches Some(command) ==> command@ == step_order(delta) && command.request_id is None,
        *final(app) == stepped_by(*old(app), delta, now),
{
    if let Some(base) = app.playback.seek_base() {
        let target: i64 = clamp_target(shift(base, delta), app.playback.duration);
        app.playback.begin_seek(target, now);
    }
    app.seek_bar.clear_hover();
    if session.player.is_some() {
        Some(seek(whole_step(delta)))
    } else {
        None
    }
}

/// What the player is told of a jump.
pub open spec fn jump_order(playback: Playback, target: i64) -> Seq<crate::mpv::ArgView> {
    jumping(clamped_target(target as int, playback.duration) as u64)
}

/// The application once a place was asked for.
pub open spec fn jumped_to(app: App, target: i64, now: u64) -> App {
    App {
        playback: sought(
            app.playback,
            clamped_target(target as int, app.playback.duration) as i64,
            now,
        ),
        ..app
    }
}

/// Seeks to a place, kept within the video.
pub fn seek_absolute(app: &mut App, session: &Session, target: i64, now: u64) -> (r: Option<
    MpvCommand,
>)
    ensures
        r is Some <==> session.player is Some,
        r matches Some(command) ==> command@ == jump_order(old(app).playback, target)
            && command.request_id is None,
        *final(app) == jumped_to(*old(app), target, now),
{
    let target: i64 = clamp_target(target, app.playback.duration);
    app.playback.begin_seek(target, now);
    if session.player.is_some() {
        Some(crate::mpv::seek_absolute(target as u64))
    } else {
        None
    }
}

// ---- speed ----

/// What sets a speed: nothing where it is set already, or nothing plays.
fn set_speed(app: &App, session: &Session, next: Speed) -> (r: Option<(Speed, MpvCommand)>)
    ensures
        r is Some <==> next != app.speed && session.player is Some,
        r matches Some((speed, command)) ==> speed == next && command@ == next.order()
            && command.request_id is None,
{
    if next == app.speed || session.player.is_none() {
        None
    } else {
        Some((next, next.command()))
    }
}

/// The tenths of a speed that was changed by some.
pub open spec fn faster_by(speed: Speed, steps: i8) -> int {
    crate::speed::settable(speed.tenths + steps)
}

/// Changes the speed by some tenths; at the ends it stays.
pub fn change_speed(app: &App, session: &Session, steps: i8) -> (r: Option<(Speed, MpvCommand)>)
    ensures
        r is Some <==> faster_by(app.speed, steps) != app.speed.tenths && session.player is Some,
        r matches Some((speed, command)) ==> speed.tenths == faster_by(app.speed, steps)
            && command@ == speed.order() && command.request_id is None,
{
    set_speed(app, session, app.speed.stepped(steps))
}

/// Goes back to the usual speed.
pub fn reset_speed(app: &App, session: &Session) -> (r: Option<(Speed, MpvCommand)>)
    ensures
        r is Some <==> app.speed.tenths != crate::speed::NORMAL_TENTHS && session.player is Some,
        r matches Some((speed, command)) ==> speed.tenths == crate::speed::NORMAL_TENTHS
            && command@ == speed.order() && command.request_id is None,
{
    set_speed(app, session, Speed::normal())
}

/// The application once the player took a speed, or did not.
pub open spec fn speed_taken(app: App, speed: Speed, sent: Result<(), String>, now: u64) -> App {
    match sent {
        Ok(_) => App { speed, speed_sent_at: Some(now), ..app },
        Err(reason) => App { error: Some(reason), error_until: None, ..app },
    }
}

/// Takes in how the player took a speed. What it took is shown, and reports from before
/// are told by when it was sent.
pub fn speed_answered(app: &mut App, speed: Speed, sent: Result<(), String>, now: u64)
    ensures
        *final(app) == speed_taken(*old(app), speed, sent, now),
{
    match sent {
        Ok(_) => app.set_speed_sent(speed, now),
        Err(reason) => app.set_error(Some(reason)),
    }
}

// ---- subtitles ----

/// A change of the subtitles that the player is told.
#[derive(Debug, PartialEq, Eq)]
pub struct SubtitleToggle {
    pub wanted: bool,
    /// They were asked for and did not come.
    pub missing: bool,
    pub command: MpvCommand,
}

/// What showing or hiding the subtitles comes to.
pub open spec fn subtitles_toggled(
    app: App,
    playing: bool,
    now: u64,
    after: App,
    r: Option<SubtitleToggle>,
) -> bool {
    &&& r is Some <==> app.settings.subtitles.enabled && playing
    &&& r matches Some(toggle) ==> {
        &&& toggle.wanted == !app.subtitles.wanted
        &&& toggle.missing == (app.subtitles.seen(app.settings.subtitles, now)
            == SubtitleStatus::Missing)
        &&& toggle.command@ == SubtitleState::order(toggle.wanted)
        &&& toggle.command.request_id is None
    }
    &&& if app.settings.subtitles.enabled {
        after == app
    } else {
        app.told(crate::subtitles::disabled_text(), now, after)
    }
}

/// Shows or hides the subtitles. Where they are switched off in the settings, the user
/// is told so.
pub fn toggle_subtitles(app: &mut App, session: &Session, now: u64) -> (r: Option<SubtitleToggle>)
    ensures
        subtitles_toggled(*old(app), session.player is Some, now, *final(app), r),
{
    let missing: bool = match app.subtitles.status(&app.settings.subtitles, now) {
        SubtitleStatus::Missing => true,
        _ => false,
    };
    match app.subtitles.toggle_command(&app.settings.subtitles) {
        Ok((wanted, command)) => if session.player.is_some() {
            Some(SubtitleToggle { wanted, missing, command })
        } else {
            None
        },
        Err(reason) => {
            app.set_temporary_notice(reason, now);
            None
        },
    }
}

/// What the user is told about a change of the subtitles. The player draws none in text
/// mode; and where they never came, the reason is given.
pub open spec fn subtitle_notice(app: App, wanted: bool, missing: bool) -> Seq<char> {
    if wanted && app.display == DisplayMode::Text {
        text_mode_text()
    } else if missing {
        missing_text(app.settings.subtitles.lang)
    } else {
        toggle_text(wanted, app.settings.subtitles.lang)
    }
}

/// What comes of a change of the subtitles that the player was told.
pub open spec fn wish_answered(
    app: App,
    wanted: bool,
    missing: bool,
    sent: Result<(), String>,
    now: u64,
    after: App,
) -> bool {
    match sent {
        Ok(_) => {
            let heard = App { subtitles: app.subtitles.wished(wanted, now), ..app };
            heard.told(subtitle_notice(app, wanted, missing), now, after)
        },
        Err(reason) => after == (App { error: Some(reason), error_until: None, ..app }),
    }
}

/// Takes in how the player took a change of the subtitles.
pub fn subtitles_answered(
    app: &mut App,
    wanted: bool,
    missing: bool,
    sent: Result<(), String>,
    now: u64,
)
    ensures
        wish_answered(*old(app), wanted, missing, sent, now, *final(app)),
{
    match sent {
        Ok(_) => {
            app.subtitles.set_wanted(wanted, now);
            let notice = if wanted && app.display == DisplayMode::Text {
                text_mode_notice()
            } else if missing {
                missing_notice(&app.settings.subtitles.lang)
            } else {
                toggle_notice(wanted, &app.settings.subtitles.lang)
            };
            app.set_temporary_notice(notice, now);
        },
        Err(reason) => app.set_error(Some(reason)),
    }
}

// ---- copying the address ----

/// The address of what plays, if something does.
pub open spec fn address_to_copy(app: App) -> Option<String> {
    if app.playback.url@.len() == 0 {
        None
    } else {
        Some(app.playback.url)
    }
}

/// The address to copy; none while nothing plays.
pub fn copy_url(app: &App) -> (r: Option<String>)
    ensures
        r == address_to_copy(*app),
{
    if app.playback.url.as_str().is_empty() {
        None
    } else {
        Some(app.playback.url.clone())
    }
}

/// What the user is told of a copy.
pub open spec fn copy_told(
    app: App,
    copied: Result<(), CopyFailure>,
    now: u64,
    after: App,
) -> bool {
    match copied {
        Ok(_) => app.told(COPIED_NOTICE@, now, after),
        Err(CopyFailure::Missing) => app.failed(MISSING_PBCOPY@, now, after),
        Err(CopyFailure::Failed(reason)) => app.failed(
            "URL をコピーできませんでした: "@ + reason@,
            now,
            after,
        ),
    }
}

/// Takes in how the address was copied. Both answers pass by themselves.
pub fn url_copied(app: &mut App, copied: Result<(), CopyFailure>, now: u64)
    ensures
        copy_told(*old(app), copied, now, *final(app)),
{
    match copied {
        Ok(_) => app.set_temporary_notice(COPIED_NOTICE.to_owned(), now),
        Err(CopyFailure::Missing) => app.set_temporary_error(MISSING_PBCOPY.to_owned(), now),
        Err(CopyFailure::Failed(reason)) => {
            let mut message = "URL をコピーできませんでした: ".to_owned();
            message.append(reason.as_str());
            app.set_temporary_error(message, now);
        },
    }
}

// ---- the beginning and the end of a video ----

/// A time that does not lie before the beginning.
pub open spec fn from_start(millis: i64) -> u64 {
    if millis < 0 {
        0
    } else {
        millis as u64
    }
}

/// Where the book says that videos were left, once the one that plays was.
pub open spec fn places_left(app: App) -> Seq<(Seq<char>, u64)> {
    match (app.playback.time_pos, app.playback.duration) {
        (Some(position), Some(duration)) if app.playback.id@.len() > 0 => app.resume.remembered(
            app.playback.id@,
            from_start(position),
            from_start(duration),
        ),
        _ => app.resume@,
    }
}

/// Keeps where the video that plays was left, as far as that is known.
pub fn remember_playback_position(app: &mut App)
    requires
        old(app).wf(),
    ensures
        final(app).wf(),
        *final(app) == (App { resume: final(app).resume, ..*old(app) }),
        final(app).resume@ == places_left(*old(app)),
{
    if app.playback.id.as_str().is_empty() {
        return ;
    }
    if let Some(position) = app.playback.time_pos {
        if let Some(duration) = app.playback.duration {
            let at: u64 = if position < 0 {
                0
            } else {
                position as u64
            };
            let end: u64 = if duration < 0 {
                0
            } else {
                duration as u64
            };
            app.resume.remember(app.playback.id.as_str(), at, end);
        }
    }
}

/// Lets the player go, and says what it is told last.
pub fn stop_playback(session: &mut Session) -> (r: Option<MpvCommand>)
    ensures
        *final(session) == (Session { player: None, ..*old(session) }),
        r is Some <==> old(session).player is Some,
        r matches Some(command) ==> command@ == spoken(seq!["quit"@]) && command.request_id is None,
{
    let was: bool = session.player.is_some();
    session.player = None;
    if was {
        Some(quit())
    } else {
        None
    }
}

/// The screen of the search side that a video is left for.
pub open spec fn return_mode(app: App) -> Mode {
    app.landing(app.results@.len() == 0)
}

fn background_return_mode(app: &App) -> (r: Mode)
    ensures
        r == return_mode(*app),
{
    if app.channel.is_some() {
        Mode::Channel
    } else if app.results.len() == 0 {
        Mode::Input
    } else {
        Mode::Results
    }
}

/// `after` is `app` without the video that played. Its place is kept, and the
/// thumbnails have to be drawn again.
pub open spec fn video_dropped(app: App, after: App) -> bool {
    &&& after == (App {
        comments: after.comments,
        playback: after.playback,
        resume: after.resume,
        seek_bar: SeekBarState::untouched(),
        video: None,
        background: false,
        thumbs: Thumbs { dirty: true, ..app.thumbs },
        ..app
    })
    &&& after.comments.is_idle()
    &&& after.playback.is_idle()
    &&& after.resume@ == places_left(app)
}

fn drop_video(app: &mut App)
    requires
        old(app).wf(),
    ensures
        final(app).wf(),
        video_dropped(*old(app), *final(app)),
{
    remember_playback_position(app);
    app.comments.end();
    app.playback = Playback::default();
    app.seek_bar = SeekBarState::default();
    app.video = None;
    app.background = false;
    app.thumbs.mark_dirty();
}

/// The application with an error, if there is one.
pub open spec fn with_failure(app: App, error: Option<String>) -> App {
    if error is Some {
        App { error, error_until: None, ..app }
    } else {
        app
    }
}

/// `after` is `app` once the video has ended, with or without an error.
pub open spec fn playback_left(app: App, error: Option<String>, after: App) -> bool {
    exists|dropped: App| #[trigger]
        video_dropped(app, dropped) && after == with_failure(dropped, error).in_search_mode(
            return_mode(app),
        )
}

/// The session once the video has ended.
pub open spec fn player_gone(session: Session) -> Session {
    Session { player: None, owe_clear: true, ..comments_cancelled(session) }
}

/// The video has ended, by itself or by a key: its place is kept, what belongs to it is
/// dropped, and the list comes back. What is left on the terminal has to be cleared, for
/// the player may have had no chance to.
pub fn end_playback(app: &mut App, session: &mut Session, error: Option<String>) -> (r: Option<
    MpvCommand,
>)
    requires
        old(app).wf(),
    ensures
        final(app).wf(),
        playback_left(*old(app), error, *final(app)),
        *final(session) == player_gone(*old(session)),
        r is Some <==> old(session).player is Some,
        r matches Some(command) ==> command@ == spoken(seq!["quit"@]) && command.request_id is None,
{
    let command = stop_playback(session);
    cancel_comments(session);
    session.owe_clear = true;
    let mode = background_return_mode(app);
    drop_video(app);
    if error.is_some() {
        app.set_error(error);
    }
    app.enter_search_mode(mode);
    command
}

/// `plan` is how the selected video is started, and `video` the slot for its picture. A
/// slot is there in a window too, for the way back into the terminal.
pub open spec fn is_plan(
    app: App,
    cols: u16,
    rows: u16,
    cell: CellSize,
    video: VideoSlot,
    plan: LaunchPlan,
) -> bool {
    &&& video.kind == (match app.display.decoder() {
        Some(kind) => kind,
        None => DecoderKind::Kitty,
    })
    &&& is_picture(
        video_part(Rect { x: 0, y: 0, width: cols, height: rows }),
        cell,
        app.settings.display.budget(),
        video.geometry,
    )
    &&& plan.mode == app.display
    &&& plan.geometry == video.geometry
    &&& plan.fps_cap == app.settings.fps_cap
    &&& plan.window == app.settings.window
    &&& plan.speed == app.speed
    &&& plan.subtitles.wants(app.settings.subtitles, app.subtitles.wanted)
    &&& plan.resume_at == (if app.place() < app.list().len() {
        place_of(app.resume@, app.list()[app.place() as int].id@)
    } else {
        None
    })
    &&& texts(plan.extra_args@) == texts(app.settings.extra_args@) + (match app.cookies.playing() {
        Some(source) => seq![source.mpv_text()],
        None => seq![],
    })
}

/// How the selected video is started on a terminal of that size. Cookies go along only
/// once a search has shown that they work.
pub fn playback_plan(app: &App, cols: u16, rows: u16, cell: CellSize) -> (r: (
    VideoSlot,
    LaunchPlan,
))
    ensures
        is_plan(*app, cols, rows, cell, r.0, r.1),
{
    let kind = match app.display.decoder_kind() {
        Some(kind) => kind,
        None => DecoderKind::Kitty,
    };
    let geometry = geometry_for(cols, rows, cell, app.settings.display.max_pixels());
    let mut plan = LaunchPlan::new(app.display, geometry.clone(), &app.settings);
    plan.speed = app.speed;
    plan.subtitles = SubtitleLaunch::new(&app.settings.subtitles, app.subtitles.wanted);
    plan.resume_at = match app.view_selected_result() {
        Some(result) => app.resume.lookup(result.id.as_str()),
        None => None,
    };
    let ghost own = plan.extra_args@;
    assert(texts(own) + seq![] =~= texts(own));
    if let Some(source) = app.cookies.for_playback() {
        plan.extra_args.push(source.mpv_arg());
        assert(texts(plan.extra_args@) =~= texts(own) + seq![source.mpv_text()]);
    }
    (VideoSlot { kind, geometry }, plan)
}

/// `after` is `app` with a video that has just started.
pub open spec fn playback_entered(
    app: App,
    title: String,
    url: String,
    id: String,
    channel_id: Option<String>,
    video: VideoSlot,
    now: u64,
    after: App,
) -> bool {
    &&& after == (App {
        resume: after.resume,
        playback: after.playback,
        seek_bar: SeekBarState::untouched(),
        video: Some(video),
        mode: Mode::Playing,
        background: false,
        error: None,
        error_until: None,
        subtitles: app.subtitles.started(now),
        ..app
    })
    &&& after.resume@ == places_left(app)
    &&& after.playback == (Playback {
        id,
        title,
        url,
        channel_id,
        paused: None,
        time_pos: None,
        duration: None,
        volume: None,
        pending_seek: None,
        current_vo: None,
    })
}

/// Shows a video that has started. Another that played in the background is left where
/// it was. The thumbnails under the picture have to be taken off the terminal.
pub fn enter_playback(
    app: &mut App,
    session: &mut Session,
    title: String,
    url: String,
    id: String,
    channel_id: Option<String>,
    video: VideoSlot,
    now: u64,
)
    requires
        old(app).wf(),
    ensures
        final(app).wf(),
        playback_entered(*old(app), title, url, id, channel_id, video, now, *final(app)),
        *final(session) == (Session { owe_clear: true, ..*old(session) }),
{
    remember_playback_position(app);
    app.playback = Playback {
        id,
        title,
        url,
        channel_id,
        paused: None,
        time_pos: None,
        duration: None,
        volume: None,
        pending_seek: None,
        current_vo: None,
    };
    app.seek_bar = SeekBarState::default();
    app.video = Some(video);
    app.mode = Mode::Playing;
    app.background = false;
    app.set_error(None);
    app.subtitles.begin_playback(now);
    session.owe_clear = true;
}

/// A video to start.
#[derive(Debug, PartialEq, Eq)]
pub struct PlaybackOrder {
    pub nonce: u64,
    /// For the player that runs.
    pub quit: Option<MpvCommand>,
    pub result: SearchResult,
    pub url: String,
    pub video: VideoSlot,
    pub plan: LaunchPlan,
}

/// What starting the selected video comes to.
pub open spec fn playback_ordered(
    app: App,
    session: Session,
    cols: u16,
    rows: u16,
    cell: CellSize,
    after: Session,
    r: Option<PlaybackOrder>,
) -> bool {
    &&& r is Some <==> app.place() < app.list().len()
    &&& r matches Some(order) ==> {
        &&& order.nonce == crate::app::bumped(session.player_nonce)
        &&& order.quit is Some <==> session.player is Some
        &&& order.quit matches Some(command) ==> command@ == spoken(seq!["quit"@])
            && command.request_id is None
        &&& order.result == app.list()[app.place() as int]
        &&& order.url@ == order.result.address()
        &&& is_plan(app, cols, rows, cell, order.video, order.plan)
    }
    &&& after == (if r is Some {
        Session {
            player: None,
            player_nonce: crate::app::bumped(session.player_nonce),
            ..session
        }
    } else {
        session
    })
}

/// Starts the selected video on a terminal of that size.
pub fn start_playback(app: &App, session: &mut Session, cols: u16, rows: u16, cell: CellSize) -> (r:
    Option<PlaybackOrder>)
    ensures
        playback_ordered(*app, *old(session), cols, rows, cell, *final(session), r),
{
    let result = match app.view_selected_result() {
        Some(result) => result.clone(),
        None => {
            return None;
        },
    };
    let quit = stop_playback(session);
    session.player_nonce = crate::app::bump(session.player_nonce);
    let (video, plan) = playback_plan(app, cols, rows, cell);
    let url = result.url();
    Some(PlaybackOrder { nonce: session.player_nonce, quit, result, url, video, plan })
}

/// What comes of a video that was to be started.
pub open spec fn launch_answered(
    app: App,
    session: Session,
    order: PlaybackOrder,
    launched: Result<(), String>,
    now: u64,
    after: App,
    session_after: Session,
    r: Option<CommentsOrder>,
) -> bool {
    match launched {
        Ok(_) => exists|shown: App|
            {
                &&& #[trigger] playback_entered(
                    app,
                    order.result.title,
                    order.url,
                    order.result.id,
                    order.result.channel_id,
                    order.video,
                    now,
                    shown,
                )
                &&& after == (App {
                    comments: Comments::begun(order.result.id),
                    ..shown
                })
                &&& session_after == (Session {
                    owe_clear: true,
                    player: Some(Player { nonce: order.nonce }),
                    comments_task: true,
                    ..comments_cancelled(session)
                })
                &&& r == Some(
                    CommentsOrder {
                        nonce: session_after.comments_nonce,
                        video_id: order.result.id,
                        url: order.url,
                    },
                )
            },
        Err(reason) => {
            &&& after == (App { video: None, error: Some(reason), error_until: None, ..app })
            &&& session_after == session
            &&& r is None
        },
    }
}

/// Takes in whether the player could be started. If so its video is shown, and its
/// comments are fetched.
pub fn playback_started(
    app: &mut App,
    session: &mut Session,
    order: PlaybackOrder,
    launched: Result<(), String>,
    now: u64,
) -> (r: Option<CommentsOrder>)
    requires
        old(app).wf(),
    ensures
        final(app).wf(),
        launch_answered(
            *old(app),
            *old(session),
            order,
            launched,
            now,
            *final(app),
            *final(session),
            r,
        ),
{
    let PlaybackOrder { nonce, quit: _, result, url, video, plan: _ } = order;
    let id = result.id.clone();
    match launched {
        Ok(_) => {
            enter_playback(
                app,
                session,
                result.title,
                url.clone(),
                result.id,
                result.channel_id,
                video,
                now,
            );
            session.player = Some(Player { nonce });
            Some(start_comments(app, session, id, url))
        },
        Err(reason) => {
            app.video = None;
            app.set_error(Some(reason));
            None
        },
    }
}

// ---- the place of the picture ----

/// The slot with a picture of another size.
pub open spec fn resized(video: Option<VideoSlot>, geometry: Geometry) -> Option<VideoSlot> {
    match video {
        Some(slot) => Some(VideoSlot { geometry, ..slot }),
        None => None,
    }
}

/// What the player is told about the size of its picture, if there is one.
pub open spec fn told_size(app: App, session: Session, geometry: Geometry) -> Seq<
    Seq<crate::mpv::ArgView>,
> {
    if session.player is Some {
        resizing(app.display, geometry)
    } else {
        seq![]
    }
}

/// Tells the player the size of its picture. In a window there is nothing to tell.
fn send_resize_commands(app: &App, session: &Session, geometry: &Geometry) -> (r: Vec<MpvCommand>)
    ensures
        command_views(r@) == told_size(*app, *session, *geometry),
        unasked(r@),
{
    if session.player.is_some() {
        resize_commands(app.display, geometry)
    } else {
        let none: Vec<MpvCommand> = Vec::new();
        assert(command_views(none@) =~= seq![]);
        none
    }
}

/// What moving the picture to an area comes to, or to none.
pub open spec fn picture_moved(
    app: App,
    session: Session,
    area: Option<Rect>,
    cell: CellSize,
    after: App,
    session_after: Session,
    r: Seq<MpvCommand>,
) -> bool {
    let marked = Thumbs { dirty: true, ..app.thumbs };
    &&& session_after == (Session { owe_clear: true, ..session })
    &&& match area {
        Some(area) => exists|geometry: Geometry|
            {
                &&& #[trigger] is_picture(
                    area,
                    cell,
                    app.settings.display.budget(),
                    geometry,
                )
                &&& after == (App {
                    video: resized(app.video, geometry),
                    thumbs: marked,
                    ..app
                })
                &&& command_views(r) == told_size(app, session, geometry)
                &&& unasked(r)
            },
        None => after == (App { thumbs: marked, ..app }) && r.len() == 0,
    }
}

/// Moves the picture to where it belongs now. What it leaves behind has to be cleared,
/// and the thumbnails go with it.
fn apply_video_placement(app: &mut App, session: &mut Session, area: Option<Rect>, cell: CellSize)
    -> (r: Vec<MpvCommand>)
    ensures
        picture_moved(*old(app), *old(session), area, cell, *final(app), *final(session), r@),
        old(app).wf() ==> final(app).wf(),
{
    let mut commands: Vec<MpvCommand> = Vec::new();
    if let Some(area) = area {
        let geometry = Geometry::new(area, cell, app.settings.display.max_pixels());
        commands = send_resize_commands(app, session, &geometry);
        if let Some(slot) = &mut app.video {
            slot.geometry = geometry;
        }
    }
    session.owe_clear = true;
    app.thumbs.mark_dirty();
    commands
}

/// The application with its video left to play behind the list.
pub open spec fn in_background(app: App) -> App {
    App { background: true, mode: return_mode(app), ..app }
}

/// The application with its video in front.
pub open spec fn in_front(app: App) -> App {
    App { background: false, mode: Mode::Playing, ..app }
}

/// Leaves the video to play in a corner, and goes back to the list. `area` is where its
/// picture goes.
pub fn enter_background(app: &mut App, session: &mut Session, area: Option<Rect>, cell: CellSize)
    -> (r: Vec<MpvCommand>)
    ensures
        picture_moved(
            in_background(*old(app)),
            *old(session),
            area,
            cell,
            *final(app),
            *final(session),
            r@,
        ),
        old(app).wf() ==> final(app).wf(),
{
    app.background = true;
    app.mode = background_return_mode(app);
    apply_video_placement(app, session, area, cell)
}

/// Brings the video back to the front.
pub fn leave_background(app: &mut App, session: &mut Session, area: Option<Rect>, cell: CellSize)
    -> (r: Vec<MpvCommand>)
    ensures
        if old(app).background {
            picture_moved(
                in_front(*old(app)),
                *old(session),
                area,
                cell,
                *final(app),
                *final(session),
                r@,
            )
        } else {
            *final(app) == *old(app) && *final(session) == *old(session) && r@.len() == 0
        },
        old(app).wf() ==> final(app).wf(),
{
    if !app.background {
        return Vec::new();
    }
    app.background = false;
    app.mode = Mode::Playing;
    apply_video_placement(app, session, area, cell)
}

/// A move of the picture to another kind of output.
#[derive(Debug, PartialEq, Eq)]
pub struct DisplaySwitch {
    pub from: DisplayMode,
    pub to: DisplayMode,
    pub geometry: Geometry,
    pub commands: Vec<MpvCommand>,
}

/// `switch` moves the picture to the next kind of output.
pub open spec fn is_switch(
    app: App,
    cols: u16,
    rows: u16,
    cell: CellSize,
    switch: DisplaySwitch,
) -> bool {
    &&& switch.from == app.display
    &&& switch.to == app.display.following()
    &&& is_picture(
        video_part(Rect { x: 0, y: 0, width: cols, height: rows }),
        cell,
        app.settings.display.budget(),
        switch.geometry,
    )
    &&& unasked(switch.commands@)
    &&& command_views(switch.commands@) == switching(
        switch.from,
        switch.to,
        switch.geometry,
        app.settings.fps_cap,
        app.settings.window,
    )
}

/// Moves the picture to the next kind of output, on a terminal of that size. The size is
/// told again, for it may have changed while the picture was in a window.
pub fn cycle_display_mode(app: &App, session: &Session, cols: u16, rows: u16, cell: CellSize) -> (r:
    Option<DisplaySwitch>)
    ensures
        r is Some <==> session.player is Some,
        r matches Some(switch) ==> is_switch(*app, cols, rows, cell, switch),
{
    if session.player.is_none() {
        return None;
    }
    let from = app.display;
    let to = from.next();
    let geometry = geometry_for(cols, rows, cell, app.settings.display.max_pixels());
    let commands = switch_commands(
        from,
        to,
        &geometry,
        app.settings.fps_cap,
        &app.settings.window,
    );
    Some(DisplaySwitch { from, to, geometry, commands })
}

/// The slot for the picture of another kind of output. In a window it stays as it was.
pub open spec fn reset_slot(video: Option<VideoSlot>, to: DisplayMode, geometry: Geometry) -> Option<
    VideoSlot,
> {
    match (to.decoder(), video) {
        (Some(kind), Some(_)) => Some(VideoSlot { kind, geometry }),
        _ => video,
    }
}

/// What comes of a move of the picture that the player was told.
pub open spec fn switch_answered(
    app: App,
    session: Session,
    from: DisplayMode,
    to: DisplayMode,
    geometry: Geometry,
    sent: Result<(), String>,
    after: App,
    session_after: Session,
) -> bool {
    match sent {
        Ok(_) => {
            &&& after == (App { video: reset_slot(app.video, to, geometry), display: to, ..app })
            &&& session_after == (Session {
                owe_clear: session.owe_clear || from == DisplayMode::Embedded,
                ..session
            })
        },
        Err(reason) => {
            &&& after == (App { error: Some(reason), error_until: None, ..app })
            &&& session_after == session
        },
    }
}

/// Takes in how the player took a move of the picture, and says whether the new mode is
/// to be saved. Only what was sent changes what is shown, so that the two do not part.
pub fn display_switched(
    app: &mut App,
    session: &mut Session,
    from: DisplayMode,
    to: DisplayMode,
    geometry: Geometry,
    sent: Result<(), String>,
) -> (r: bool)
    ensures
        r == (sent is Ok),
        switch_answered(
            *old(app),
            *old(session),
            from,
            to,
            geometry,
            sent,
            *final(app),
            *final(session),
        ),
        old(app).wf() ==> final(app).wf(),
{
    match sent {
        Ok(_) => {
            if let Some(kind) = to.decoder_kind() {
                if app.video.is_some() {
                    app.video = Some(VideoSlot { kind, geometry });
                }
            }
            app.display = to;
            if from == DisplayMode::Embedded {
                session.owe_clear = true;
            }
            true
        },
        Err(reason) => {
            app.set_error(Some(reason));
            false
        },
    }
}

// ---- the size of the terminal ----

/// How long a new size of the terminal has to stay before the picture follows it.
pub const RESIZE_DEBOUNCE: u64 = 200;

/// The session with a size of the terminal to follow.
pub open spec fn resize_kept(session: Session, width: u16, height: u16, now: u64) -> Session {
    Session {
        pending_resize: Some((width, height)),
        resize_at: Some(crate::app::later(now, RESIZE_DEBOUNCE)),
        ..session
    }
}

/// Keeps the latest of many sizes, to follow it in a moment.
pub fn schedule_resize(session: &mut Session, width: u16, height: u16, now: u64)
    ensures
        *final(session) == resize_kept(*old(session), width, height, now),
{
    session.pending_resize = Some((width, height));
    session.resize_at = Some(now.saturating_add(RESIZE_DEBOUNCE));
}

/// What a new size of the terminal leads to.
#[derive(Debug, PartialEq, Eq)]
pub enum Resized {
    Nothing,
    /// The list has to be drawn again; its thumbnails may be wanted in another size.
    List,
    /// The player is told.
    Picture(Vec<MpvCommand>),
}

/// The list scrolled so that the selection stays visible in a layout.
pub open spec fn followed(app: App, layout: Option<Layout>) -> App {
    match layout {
        Some(layout) => app.with_top(
            scrolled(
                app.place() as int,
                layout.columns as int,
                layout.rows as int,
                app.top() as int,
            ) as usize,
        ),
        None => app,
    }
}

/// What the player is told where its picture came to another size. Nothing where the
/// picture stays as it is, or where nothing plays.
pub open spec fn size_told(
    display: DisplayMode,
    playing: bool,
    before: Geometry,
    geometry: Geometry,
    r: Resized,
) -> bool {
    if geometry == before || !playing {
        r is Nothing
    } else {
        &&& r is Picture
        &&& unasked(r->Picture_0@)
        &&& command_views(r->Picture_0@) == resizing(display, geometry)
    }
}

/// What following a size comes to while something plays.
pub open spec fn picture_followed(
    app: App,
    playing: bool,
    size: (u16, u16),
    slot: VideoSlot,
    cell: CellSize,
    after: App,
    r: Resized,
) -> bool {
    exists|geometry: Geometry|
        {
            &&& #[trigger] is_picture(
                video_part(Rect { x: 0, y: 0, width: size.0, height: size.1 }),
                cell,
                app.settings.display.budget(),
                geometry,
            )
            &&& after == (App { video: Some(VideoSlot { geometry, ..slot }), ..app })
            &&& size_told(app.display, playing, slot.geometry, geometry, r)
        }
}

/// What following a size comes to, given how the list is laid out in it.
pub open spec fn size_followed(
    app: App,
    session: Session,
    cell: CellSize,
    layout: Option<Layout>,
    after: App,
    r: Resized,
) -> bool {
    match session.pending_resize {
        None => after == app && r is Nothing,
        Some(size) => match app.video {
            None => {
                let moved = followed(app, layout);
                &&& after == (App { thumbs: Thumbs { dirty: true, ..app.thumbs }, ..moved })
                &&& r is List
            },
            Some(slot) => picture_followed(
                app,
                session.player is Some,
                size,
                slot,
                cell,
                after,
                r,
            ),
        },
    }
}

/// Scrolls the list so that the selection stays visible.
fn follow_list(app: &mut App, layout: Option<&Layout>)
    ensures
        ({
            let moved = followed(*old(app), layout_in(layout));
            *final(app) == (App { thumbs: Thumbs { dirty: true, ..old(app).thumbs }, ..moved })
        }),
        old(app).wf() ==> final(app).wf(),
{
    if let Some(layout) = layout {
        let top: usize = ensure_visible(
            app.view_selected(),
            layout.columns,
            layout.rows,
            app.view_scroll(),
        );
        app.set_view_scroll(top);
    }
    app.thumbs.mark_dirty();
}

fn tell_size(display: DisplayMode, playing: bool, before: &Geometry, geometry: &Geometry) -> (r:
    Resized)
    ensures
        size_told(display, playing, *before, *geometry, r),
{
    if same_geometry(before, geometry) || !playing {
        Resized::Nothing
    } else {
        Resized::Picture(resize_commands(display, geometry))
    }
}

/// Gives the picture the size that the terminal leaves to it.
fn follow_picture(app: &mut App, playing: bool, size: (u16, u16), cell: CellSize) -> (r: Resized)
    requires
        old(app).video is Some,
    ensures
        picture_followed(*old(app), playing, size, old(app).video->0, cell, *final(app), r),
        old(app).wf() ==> final(app).wf(),
{
    let geometry = geometry_for(size.0, size.1, cell, app.settings.display.max_pixels());
    let display = app.display;
    match &mut app.video {
        Some(slot) => {
            let r = tell_size(display, playing, &slot.geometry, &geometry);
            slot.geometry = geometry;
            r
        },
        None => Resized::Nothing,
    }
}

/// Follows the size that was kept: the picture, or the list where nothing plays. Nothing
/// is told where the picture stays as it is.
pub fn apply_resize(app: &mut App, session: &mut Session, cell: CellSize, layout: Option<&Layout>)
    -> (r: Resized)
    ensures
        size_followed(*old(app), *old(session), cell, layout_in(layout), *final(app), r),
        *final(session) == (Session { pending_resize: None, ..*old(session) }),
        old(app).wf() ==> final(app).wf(),
{
    let size: (u16, u16) = match session.pending_resize.take() {
        Some(size) => size,
        None => {
            return Resized::Nothing;
        },
    };
    if app.video.is_none() {
        follow_list(app, layout);
        return Resized::List;
    }
    follow_picture(app, session.player.is_some(), size, cell)
}

// ---- what holds of all of these ----

/// A short answer is shown for its time and then goes by itself.
pub proof fn law_short_answers_pass(app: App, text: Seq<char>, now: u64, told: App, at: u64)
    requires
        app.told(text, now, told),
        now + crate::app::NOTICE_TTL <= u64::MAX,
    ensures
        at < now + crate::app::NOTICE_TTL ==> ticked(told, at).notice == told.notice,
        at >= now + crate::app::NOTICE_TTL ==> ticked(told, at).notice is None,
{
}

/// The reason of an action that failed is shown for its time and then goes by itself.
pub proof fn law_reasons_pass(app: App, text: Seq<char>, now: u64, failed: App, at: u64)
    requires
        app.failed(text, now, failed),
        now + crate::app::NOTICE_TTL <= u64::MAX,
    ensures
        at < now + crate::app::NOTICE_TTL ==> ticked(failed, at).error == failed.error,
        at >= now + crate::app::NOTICE_TTL ==> ticked(failed, at).error is None,
{
}

/// A position from before a seek does not take the screen back for a while.
pub proof fn law_seek_holds(playback: Playback, target: i64, sent_at: u64, old_pos: i64, now: u64)
    requires
        sent_at <= now < sent_at + crate::playback::SEEK_HOLD,
        crate::playback::distance(old_pos as int, target as int) > crate::playback::SEEK_TOLERANCE,
    ensures
        sought(playback, target, sent_at).polled(
            crate::mpv::REQ_TIME_POS,
            Some(Reported::Number(old_pos)),
            now,
        ) == sought(playback, target, sent_at),
{
}

/// Steps add up: each starts from where the last one was going.
pub proof fn law_steps_add_up(playback: Playback, target: i64, now: u64)
    ensures
        sought(playback, target, now).base() == Some(target),
{
}

/// A video that was left in its middle goes on from there.
pub proof fn law_video_goes_on_where_it_was_left(app: App, error: Option<String>, after: App)
    requires
        playback_left(app, error, after),
        app.playback.id@.len() > 0,
        app.playback.time_pos is Some,
        app.playback.duration is Some,
        crate::resume::worth_keeping(
            from_start(app.playback.time_pos->0),
            from_start(app.playback.duration->0),
        ),
    ensures
        place_of(after.resume@, app.playback.id@) == Some(from_start(app.playback.time_pos->0)),
{
    crate::resume::law_left_place_is_found_again(
        app.resume,
        app.playback.id@,
        from_start(app.playback.time_pos->0),
        from_start(app.playback.duration->0),
    );
}

/// When a video has ended nothing of it is left on the screen.
pub proof fn law_nothing_plays_after_the_end(app: App, error: Option<String>, after: App)
    requires
        playback_left(app, error, after),
        app.mode == Mode::Playing,
    ensures
        after.mode != Mode::Playing,
        after.video is None,
        !after.background,
        after.playback.is_idle(),
        after.comments.is_idle(),
        after.seek_bar == SeekBarState::untouched(),
        error is None ==> after.error == app.error,
        error is Some ==> after.error == error,
{
}

/// The speed, and the wish to see subtitles, go on to the next video.
pub proof fn law_speed_and_subtitles_carry_over(
    app: App,
    title: String,
    url: String,
    id: String,
    channel_id: Option<String>,
    video: VideoSlot,
    now: u64,
    after: App,
    cols: u16,
    rows: u16,
    cell: CellSize,
    next: VideoSlot,
    plan: LaunchPlan,
)
    requires
        playback_entered(app, title, url, id, channel_id, video, now, after),
        is_plan(after, cols, rows, cell, next, plan),
    ensures
        after.speed == app.speed,
        plan.speed == app.speed,
        after.subtitles.wanted == app.subtitles.wanted,
        plan.subtitles.wants(app.settings.subtitles, app.subtitles.wanted),
{
}

/// A command that passed changes nothing, and one that did not is told; so is a poll, which
/// takes an old error away where it passes.
pub proof fn law_failures_of_the_player_are_told(app: App, reason: String, now: u64)
    ensures
        command_answered(app, Ok(())) == app,
        command_answered(app, Err(reason)).error == Some(reason),
        command_answered(app, Err(reason)).notice == app.notice,
        poll_answered(app, Err(reason), now).error == Some(reason),
        app.error_until is None ==> poll_answered(app, Ok(()), now).error is None,
        app.error_until matches Some(at) ==> now < at ==> poll_answered(app, Ok(()), now) == app,
        app.error_until matches Some(at) ==> now >= at ==> poll_answered(app, Ok(()), now).error
            is None,
{
}

/// Every second what was to be shown until now goes, and nothing else.
pub proof fn law_tick_takes_what_is_over(app: App, now: u64)
    ensures
        app.notice_until is None ==> ticked(app, now).notice == app.notice,
        app.error_until is None ==> ticked(app, now).error == app.error,
        app.notice_until matches Some(at) ==> (now >= at ==> ticked(app, now).notice is None) && (
        now < at ==> ticked(app, now).notice == app.notice),
        app.error_until matches Some(at) ==> (now >= at ==> ticked(app, now).error is None) && (now
            < at ==> ticked(app, now).error == app.error),
        ticked(app, now).list() == app.list(),
        ticked(app, now).mode == app.mode,
        ticked(app, now).playback == app.playback,
{
}

/// A step goes from where the last seek leads, or else from where the video is, by as much
/// as was asked for and no further than the ends; it is shown at once. An arrow key asks for
/// five seconds.
pub proof fn law_step_goes_as_far_as_asked(app: App, base: i64, delta: i64, now: u64)
    requires
        app.playback.base() == Some(base),
        i64::MIN <= base + delta <= i64::MAX,
    ensures
        ({
            let after = stepped_by(app, delta, now).playback;
            &&& after.pending_seek matches Some(pending) && pending.sent_at == now
                && after.time_pos == Some(pending.target)
            &&& base + delta < 0 ==> after.time_pos == Some(0i64)
            &&& app.playback.duration is None && base + delta >= 0 ==> after.time_pos == Some(
                (base + delta) as i64,
            )
            &&& app.playback.duration matches Some(end) ==> {
                &&& 0 <= base + delta <= end ==> after.time_pos == Some((base + delta) as i64)
                &&& 0 <= end < base + delta ==> after.time_pos == Some(end)
            }
        }),
        stepped_by(app, delta, now).seek_bar.hover is None,
        stepped_by(app, delta, now).seek_bar.drag == app.seek_bar.drag,
        SEEK_STEP == 5_000,
{
}

/// A step of whole seconds is told as that many seconds.
pub proof fn law_step_is_told_in_seconds(secs: i64)
    requires
        i64::MIN <= 1_000 * secs <= i64::MAX,
    ensures
        step_order((1_000 * secs) as i64) == stepping(secs),
{
}

/// A step of some seconds and one back leave the video where it was, away from its ends.
pub proof fn law_step_back_undoes_a_step(app: App, base: i64, delta: i64, now: u64, later: u64)
    requires
        app.playback.base() == Some(base),
        0 <= base,
        0 <= base + delta <= i64::MAX,
        delta > i64::MIN,
        app.playback.duration matches Some(end) ==> base <= end && base + delta <= end,
    ensures
        stepped_by(stepped_by(app, delta, now), (-delta) as i64, later).playback.time_pos == Some(
            base,
        ),
{
}

/// Without a place to start from nothing is shown, but the player is told all the same.
pub proof fn law_step_from_nowhere(app: App, delta: i64, now: u64)
    requires
        app.playback.base() is None,
    ensures
        stepped_by(app, delta, now).playback == app.playback,
{
}

/// A jump goes to its place within the video, on the screen as in the player.
pub proof fn law_jump_goes_to_its_place(app: App, target: i64, now: u64)
    ensures
        ({
            let after = jumped_to(app, target, now).playback;
            &&& after.time_pos matches Some(at) && jump_order(app.playback, target) == jumping(
                at as u64,
            )
            &&& after.pending_seek == Some(PendingSeek { target: after.time_pos->0, sent_at: now })
            &&& target < 0 ==> after.time_pos == Some(0i64)
            &&& app.playback.duration is None && target >= 0 ==> after.time_pos == Some(target)
            &&& app.playback.duration matches Some(end) ==> {
                &&& 0 <= target <= end ==> after.time_pos == Some(target)
                &&& 0 <= end < target ==> after.time_pos == Some(end)
            }
        }),
        jumped_to(app, target, now).seek_bar == app.seek_bar,
        jumped_to(app, target, now).mode == app.mode,
{
}

/// A speed changes by as many tenths as were asked for, and stops at its ends; what the
/// player took is shown, and a failure is told.
pub proof fn law_speed_changes_by_tenths(app: App, steps: i8, speed: Speed, reason: String, now: u64)
    ensures
        1 <= app.speed.tenths + steps <= 40 ==> faster_by(app.speed, steps) - app.speed.tenths
            == steps,
        app.speed.tenths + steps < 1 ==> faster_by(app.speed, steps) == 1,
        app.speed.tenths + steps > 40 ==> faster_by(app.speed, steps) == 40,
        speed_taken(app, speed, Ok(()), now).speed == speed,
        speed_taken(app, speed, Ok(()), now).speed_sent_at == Some(now),
        speed_taken(app, speed, Ok(()), now).error == app.error,
        speed_taken(app, speed, Err(reason), now).speed == app.speed,
        speed_taken(app, speed, Err(reason), now).error == Some(reason),
{
}

/// Subtitles are shown where they were hidden and hidden where they were shown. Where they
/// are switched off in the settings, nothing is sent and the user is told.
pub proof fn law_subtitles_are_shown_in_turn(
    app: App,
    playing: bool,
    now: u64,
    after: App,
    r: Option<SubtitleToggle>,
)
    requires
        subtitles_toggled(app, playing, now, after, r),
    ensures
        r matches Some(toggle) ==> toggle.wanted != app.subtitles.wanted && toggle.command@
            == SubtitleState::order(!app.subtitles.wanted),
        app.settings.subtitles.enabled && playing ==> r is Some && after == app,
        !app.settings.subtitles.enabled ==> r is None && after.notice is Some,
        after.subtitles == app.subtitles,
        !playing ==> r is None,
{
}

/// A change of the subtitles that the player took is remembered and told; one that it did
/// not take is not remembered.
pub proof fn law_subtitle_change_is_told(
    app: App,
    wanted: bool,
    missing: bool,
    sent: Result<(), String>,
    now: u64,
    after: App,
)
    requires
        wish_answered(app, wanted, missing, sent, now, after),
    ensures
        sent is Ok ==> after.subtitles.wanted == wanted && after.notice is Some && after.error
            == app.error,
        sent matches Err(reason) ==> after.subtitles == app.subtitles && after.error == Some(
            reason,
        ),
        wanted && app.display == DisplayMode::Text ==> subtitle_notice(app, wanted, missing)
            == text_mode_text(),
        !wanted && !missing ==> subtitle_notice(app, wanted, missing) == toggle_text(
            false,
            app.settings.subtitles.lang,
        ),
        wanted && !missing && app.display != DisplayMode::Text ==> subtitle_notice(
            app,
            wanted,
            missing,
        ) == toggle_text(true, app.settings.subtitles.lang),
        missing && app.display != DisplayMode::Text ==> subtitle_notice(app, wanted, missing)
            == missing_text(app.settings.subtitles.lang),
{
}

/// The address of what plays is what is copied, and how that went is told for a while.
pub proof fn law_address_is_copied(
    app: App,
    copied: Result<(), CopyFailure>,
    now: u64,
    after: App,
)
    requires
        copy_told(app, copied, now, after),
    ensures
        app.playback.url@.len() > 0 ==> address_to_copy(app) == Some(app.playback.url),
        app.playback.url@.len() == 0 ==> address_to_copy(app) is None,
        copied is Ok ==> after.notice is Some && after.error == app.error,
        copied is Err ==> after.error is Some && after.notice == app.notice,
        after.playback == app.playback,
{
}

/// Where a video was left is kept under its id; where its place or its length is not known,
/// or nothing plays, the book stays as it is.
pub proof fn law_place_is_kept_under_the_id(app: App)
    ensures
        app.playback.id@.len() == 0 || app.playback.time_pos is None || app.playback.duration
            is None ==> places_left(app) == app.resume@,
        app.playback.id@.len() > 0 && app.playback.time_pos is Some && app.playback.duration is Some
            ==> {
            let position = app.playback.time_pos->0;
            let duration = app.playback.duration->0;
            &&& duration >= 60_000 && position >= 10_000 && 20 * position < 19 * duration
                ==> place_of(places_left(app), app.playback.id@) == Some(position as u64)
            &&& duration < 60_000 || position < 10_000 || 20 * position >= 19 * duration
                ==> place_of(places_left(app), app.playback.id@) is None
        },
{
    if app.playback.id@.len() > 0 && app.playback.time_pos is Some && app.playback.duration is Some {
        crate::resume::law_last_twentieth_starts_anew(
            app.resume,
            app.playback.id@,
            from_start(app.playback.time_pos->0),
            from_start(app.playback.duration->0),
        );
    }
}

/// The end of a video leads back to the channel or the list that it was started from, or
/// to the search box where there is none; the list stays as it was.
pub proof fn law_end_leads_back_to_the_list(app: App, error: Option<String>, after: App)
    requires
        playback_left(app, error, after),
        app.mode == Mode::Playing,
    ensures
        app.channel is Some ==> after.mode == Mode::Channel,
        app.channel is None && app.results@.len() > 0 ==> after.mode == Mode::Results,
        app.channel is None && app.results@.len() == 0 ==> after.mode == Mode::Input,
        after.list() == app.list(),
        after.place() == app.place(),
        after.top() == app.top(),
        after.thumbs.dirty,
        after.speed == app.speed,
        after.resume@ == places_left(app),
        error is Some ==> after.error == error,
        error is None ==> after.error == app.error,
        after.comments.state is None,
        after.video is None,
        !after.background,
{
}

/// With the video the player and the comments go, and the terminal is cleared; searches and
/// downloads go on.
pub proof fn law_player_goes_with_the_video(session: Session)
    ensures
        player_gone(session).player is None,
        player_gone(session).owe_clear,
        !player_gone(session).comments_task,
        player_gone(session).comments_nonce != session.comments_nonce,
        player_gone(session).search_task == session.search_task,
        player_gone(session).search_nonce == session.search_nonce,
        player_gone(session).download_task == session.download_task,
        player_gone(session).download_nonce == session.download_nonce,
{
}

/// A video is started as it is set: in the display mode, at the speed, with the wish for
/// subtitles and from the place where it was left. Cookies go along only where a search has
/// shown that they work, behind the user's own arguments.
pub proof fn law_video_is_started_as_set(
    app: App,
    cols: u16,
    rows: u16,
    cell: CellSize,
    video: VideoSlot,
    plan: LaunchPlan,
)
    requires
        is_plan(app, cols, rows, cell, video, plan),
    ensures
        plan.mode == app.display,
        plan.geometry == video.geometry,
        plan.speed == app.speed,
        plan.fps_cap == app.settings.fps_cap,
        plan.window == app.settings.window,
        app.place() < app.list().len() ==> plan.resume_at == place_of(
            app.resume@,
            app.list()[app.place() as int].id@,
        ),
        app.cookies.playing() is None ==> texts(plan.extra_args@) == texts(
            app.settings.extra_args@,
        ),
        app.cookies.playing() matches Some(source) ==> texts(plan.extra_args@).last()
            == source.mpv_text() && texts(plan.extra_args@).drop_last() == texts(
            app.settings.extra_args@,
        ),
        app.display == DisplayMode::Text ==> video.kind == DecoderKind::Text,
        app.display != DisplayMode::Text ==> video.kind == DecoderKind::Kitty,
        video.geometry.area.width == cols,
        rows >= 4 ==> video.geometry.area.height + 4 == rows,
        plan.subtitles.wants(app.settings.subtitles, app.subtitles.wanted),
        app.place() >= app.list().len() ==> plan.resume_at is None,
{
    if app.cookies.playing() is None {
        assert(texts(plan.extra_args@) =~= texts(app.settings.extra_args@));
    } else {
        assert(texts(plan.extra_args@).drop_last() =~= texts(app.settings.extra_args@));
    }
}

/// A video that has started is shown, with nothing known of it yet; the one before is kept
/// where it was left.
pub proof fn law_started_video_is_shown(
    app: App,
    title: String,
    url: String,
    id: String,
    channel_id: Option<String>,
    video: VideoSlot,
    now: u64,
    after: App,
)
    requires
        playback_entered(app, title, url, id, channel_id, video, now, after),
    ensures
        after.mode == Mode::Playing,
        !after.background,
        after.video == Some(video),
        after.playback.id == id,
        after.playback.title == title,
        after.playback.url == url,
        after.playback.channel_id == channel_id,
        after.playback.is_unpolled(),
        after.error is None,
        after.seek_bar.hover is None,
        after.seek_bar.drag is None,
        after.resume@ == places_left(app),
        after.list() == app.list(),
        after.place() == app.place(),
{
}

/// The selected video is started in place of the one that plays, whose player is told to
/// end and whose answers are late; without a selected row nothing happens.
pub proof fn law_selected_video_is_started(
    app: App,
    session: Session,
    cols: u16,
    rows: u16,
    cell: CellSize,
    after: Session,
    r: Option<PlaybackOrder>,
)
    requires
        playback_ordered(app, session, cols, rows, cell, after, r),
    ensures
        app.place() >= app.list().len() ==> r is None && after == session,
        app.place() < app.list().len() ==> r is Some,
        r matches Some(order) ==> {
            &&& order.result == app.list()[app.place() as int]
            &&& order.url@ == app.list()[app.place() as int].address()
            &&& order.nonce != session.player_nonce
            &&& order.nonce == after.player_nonce
            &&& after.player is None
            &&& session.player is Some ==> order.quit is Some
            &&& session.player is None ==> order.quit is None
        },
        after.search_nonce == session.search_nonce,
{
}

/// A player that was started plays its video under its number, and the comments of that
/// video are asked for; one that was not is told, and the screen stays.
pub proof fn law_started_player_plays(
    app: App,
    session: Session,
    order: PlaybackOrder,
    launched: Result<(), String>,
    now: u64,
    after: App,
    session_after: Session,
    r: Option<CommentsOrder>,
)
    requires
        launch_answered(app, session, order, launched, now, after, session_after, r),
    ensures
        launched is Ok ==> {
            &&& after.mode == Mode::Playing
            &&& after.playback.id == order.result.id
            &&& after.playback.title == order.result.title
            &&& after.playback.url == order.url
            &&& after.video == Some(order.video)
            &&& session_after.player == Some(Player { nonce: order.nonce })
            &&& session_after.comments_task
            &&& r matches Some(comments) && comments.video_id == order.result.id && comments.url
                == order.url && comments.nonce == session_after.comments_nonce
            &&& after.comments.video_id == order.result.id
            &&& after.comments.state is Some
        },
        launched matches Err(reason) ==> r is None && after.error == Some(reason) && after.mode
            == app.mode && after.video is None && session_after == session && after.playback
            == app.playback,
{
}

/// A video left behind goes on while the list is looked at, and is brought back as it was.
pub proof fn law_video_goes_on_behind_the_list(app: App)
    ensures
        in_background(app).background,
        app.channel is Some ==> in_background(app).mode == Mode::Channel,
        app.channel is None && app.results@.len() > 0 ==> in_background(app).mode == Mode::Results,
        app.channel is None && app.results@.len() == 0 ==> in_background(app).mode == Mode::Input,
        in_background(app).playback == app.playback,
        in_background(app).video == app.video,
        !in_front(app).background,
        in_front(app).mode == Mode::Playing,
        in_front(app).playback == app.playback,
        app.mode == Mode::Playing && !app.background ==> in_front(in_background(app)) == app,
{
}

/// A picture that is moved is drawn anew in its area, the player is told its size, and what
/// it leaves behind is cleared.
pub proof fn law_moved_picture_is_told(
    app: App,
    session: Session,
    area: Option<Rect>,
    cell: CellSize,
    after: App,
    session_after: Session,
    r: Seq<MpvCommand>,
)
    requires
        picture_moved(app, session, area, cell, after, session_after, r),
    ensures
        session_after.owe_clear,
        after.thumbs.dirty,
        after.playback == app.playback,
        after.mode == app.mode,
        area is None ==> r.len() == 0 && after.video == app.video,
        area is Some && app.video is Some ==> (after.video matches Some(slot) && slot.geometry.area
            == area->0 && slot.kind == app.video->0.kind),
        area is Some && session.player is None ==> r.len() == 0,
        area is Some && session.player is Some && app.display != DisplayMode::Window ==> r.len() > 0,
        app.display == DisplayMode::Window ==> r.len() == 0,
        area is Some && app.video is Some && session.player is Some ==> command_views(r)
            == resizing(app.display, after.video->0.geometry),
        area is Some && app.video is None ==> after.video is None,
{
    assert(command_views(r).len() == r.len());
}

/// The picture goes to the next kind of output. What the player took is what is shown, and
/// what it did not take changes nothing but the error.
pub proof fn law_display_follows_the_player(
    app: App,
    session: Session,
    cols: u16,
    rows: u16,
    cell: CellSize,
    switch: DisplaySwitch,
    sent: Result<(), String>,
    after: App,
    session_after: Session,
)
    requires
        is_switch(app, cols, rows, cell, switch),
        switch_answered(
            app,
            session,
            switch.from,
            switch.to,
            switch.geometry,
            sent,
            after,
            session_after,
        ),
    ensures
        switch.from == app.display,
        app.display == DisplayMode::Embedded ==> switch.to == DisplayMode::Text,
        app.display == DisplayMode::Text ==> switch.to == DisplayMode::Window,
        app.display == DisplayMode::Window ==> switch.to == DisplayMode::Embedded,
        sent is Ok ==> after.display == switch.to && after.error == app.error,
        sent is Ok && app.video is Some && switch.to != DisplayMode::Window ==> (
        after.video matches Some(slot) && slot.geometry == switch.geometry),
        sent is Ok && app.video is Some && switch.to == DisplayMode::Text ==> (
        after.video matches Some(slot) && slot.kind == DecoderKind::Text),
        sent is Ok && app.video is Some && switch.to == DisplayMode::Embedded ==> (
        after.video matches Some(slot) && slot.kind == DecoderKind::Kitty),
        sent is Ok && app.video is None ==> after.video is None,
        sent is Ok && switch.from != DisplayMode::Embedded ==> session_after == session,
        sent is Ok && switch.to == DisplayMode::Window ==> after.video == app.video,
        sent is Ok && switch.from == DisplayMode::Embedded ==> session_after.owe_clear,
        sent matches Err(reason) ==> after.display == app.display && after.video == app.video
            && after.error == Some(reason) && session_after == session,
{
}

/// The latest size counts, and is followed a fifth of a second after it came.
pub proof fn law_latest_size_counts(
    session: Session,
    width: u16,
    height: u16,
    now: u64,
    other: (u16, u16),
    before: u64,
)
    requires
        now <= u64::MAX - 200,
    ensures
        resize_kept(session, width, height, now).pending_resize == Some((width, height)),
        resize_kept(session, width, height, now).resize_at == Some((now + 200) as u64),
        resize_kept(resize_kept(session, other.0, other.1, before), width, height, now)
            == resize_kept(session, width, height, now),
        resize_kept(session, width, height, now).player == session.player,
{
}

/// A new size of the terminal is followed once: by the picture while something plays, and
/// the player is told unless the picture stays as it is; else by the list, whose selection
/// stays visible.
pub proof fn law_size_is_followed(
    app: App,
    session: Session,
    cell: CellSize,
    layout: Option<Layout>,
    after: App,
    r: Resized,
)
    requires
        size_followed(app, session, cell, layout, after, r),
    ensures
        session.pending_resize is None ==> r is Nothing && after == app,
        session.pending_resize is Some && app.video is None ==> r is List && after.thumbs.dirty
            && after.list() == app.list() && after.place() == app.place(),
        session.pending_resize is Some && app.video is None && layout is None ==> after.top()
            == app.top(),
        session.pending_resize matches Some(size) ==> app.video is Some ==> {
            &&& after.video matches Some(slot) && slot.kind == app.video->0.kind
                && slot.geometry.area.width == size.0 && (size.1 >= 4
                ==> slot.geometry.area.height + 4 == size.1)
            &&& after.list() == app.list()
            &&& after.video->0.geometry == app.video->0.geometry ==> r is Nothing
            &&& session.player is None ==> r is Nothing
            &&& session.player is Some && after.video->0.geometry != app.video->0.geometry ==> r
                is Picture && command_views(r->Picture_0@) == resizing(
                app.display,
                after.video->0.geometry,
            )
        },
{
}

/// A time before the beginning counts as the beginning.
pub proof fn law_no_time_before_the_beginning(millis: i64)
    ensures
        millis >= 0 ==> from_start(millis) == millis,
        millis < 0 ==> from_start(millis) == 0,
{
}

/// A place that is moved by some time is that much further, as far as times go.
pub proof fn law_shift_is_a_sum(base: i64, delta: i64)
    ensures
        i64::MIN <= base + delta <= i64::MAX ==> shifted(base, delta) - base == delta,
        base + delta > i64::MAX ==> shifted(base, delta) == i64::MAX,
        base + delta < i64::MIN ==> shifted(base, delta) == i64::MIN,
{
}

/// A list that follows a new size keeps its selection in sight, whole rows at the top.
pub proof fn law_followed_list_shows_its_selection(app: App, layout: Layout)
    requires
        layout.columns > 0,
        layout.rows > 0,
    ensures
        followed(app, Some(layout)).top() <= app.place(),
        app.place() < followed(app, Some(layout)).top() + layout.rows * layout.columns,
        followed(app, Some(layout)).top() % layout.columns == 0,
        followed(app, Some(layout)).place() == app.place(),
        followed(app, Some(layout)).list() == app.list(),
        followed(app, None) == app,
{
    crate::grid::law_selection_is_visible(
        app.place() as int,
        layout.columns as int,
        layout.rows as int,
        app.top() as int,
    );
}

} // verus!
