//! What is fetched for a list, and what is sent in the name of the user. A start says
//! what is to be done in the background; what comes back carries the number that the
//! task was started under. Times are milliseconds.

use crate::actions::{in_millis, millis_of};
use crate::app::{ids_in, App};
use crate::comments::{full_lines, Comments};
use crate::display::copy_of;
use crate::engagement::law_due_channels;
use crate::grid::Layout;
use crate::oauth;
use crate::rect::Rect;
use crate::session::{
    cancel_comments, cancel_oauth, comments_cancelled, oauth_cancelled, Session,
};
use crate::text::{copied, maybe_text, texts};
use crate::thumbs::{unknown_ids, Thumbs};
use vstd::prelude::*;
use vstd::string::*;

verus! {

// ---- likes and subscriptions ----

/// What is to be asked about a list.
#[derive(Debug, PartialEq, Eq)]
pub struct EngagementOrder {
    pub nonce: u64,
    /// Whether the list of likes is fetched.
    pub liked_wanted: bool,
    /// The channels to ask for.
    pub channels: Vec<String>,
    pub max_concurrent_requests: usize,
}

/// What was answered.
#[derive(Debug, PartialEq, Eq)]
pub struct EngagementAnswer {
    pub nonce: u64,
    /// All likes, where they were fetched.
    pub liked_videos: Option<Vec<String>>,
    /// The channels that were asked for, and those of them that are subscribed to.
    pub asked_channels: Vec<String>,
    pub subscribed_channels: Vec<String>,
}

/// The channels of the list that have to be asked for.
pub open spec fn channels_due(app: App, now: u64) -> Seq<Seq<char>> {
    app.engagement.due(
        app.channels_shown(),
        now,
        millis_of(app.settings.engagement.ttl_secs),
    )
}

/// The list of likes has to be fetched.
pub open spec fn likes_due(app: App, now: u64) -> bool {
    app.engagement.likes_due(now, millis_of(app.settings.engagement.ttl_secs))
}

/// What starting to ask about a list comes to.
pub open spec fn engagement_started(
    app: App,
    session: Session,
    has_paths: bool,
    now: u64,
    after: Session,
    r: Option<EngagementOrder>,
) -> bool {
    &&& r is Some <==> app.settings.engagement.enabled && has_paths && (likes_due(app, now)
        || channels_due(app, now).len() > 0)
    &&& r matches Some(order) ==> {
        &&& order.nonce == session.search_nonce
        &&& order.liked_wanted == likes_due(app, now)
        &&& texts(order.channels@) == channels_due(app, now)
        &&& order.max_concurrent_requests == app.settings.engagement.max_concurrent_requests
    }
    &&& after == (Session { engagement_task: r is Some, ..session })
}

/// Starts to ask what of a list is liked and subscribed to, as far as that is not known.
/// The marks are an ornament: where it is switched off, or nobody is logged in, nothing
/// is said.
pub fn start_engagement(app: &App, session: &mut Session, has_paths: bool, now: u64) -> (r: Option<
    EngagementOrder,
>)
    ensures
        engagement_started(*app, *old(session), has_paths, now, *final(session), r),
{
    session.engagement_task = false;
    if !app.settings.engagement.enabled || !has_paths {
        return None;
    }
    let ttl: u64 = in_millis(app.settings.engagement.ttl_secs);
    let liked_wanted: bool = app.engagement.liked_needs_refresh(now, ttl);
    let channels = app.engagement.channels_needing_refresh(&app.view_channel_ids(), now, ttl);
    assert(texts(channels@).len() == channels@.len());
    if !liked_wanted && channels.len() == 0 {
        return None;
    }
    session.engagement_task = true;
    Some(
        EngagementOrder {
            nonce: session.search_nonce,
            liked_wanted,
            channels,
            max_concurrent_requests: app.settings.engagement.max_concurrent_requests,
        },
    )
}

/// The channels that an answer is about: all that were asked for, or none where that
/// failed. A part of the answers would make channels unsubscribed that were not
/// answered.
pub open spec fn channels_answered(order: EngagementOrder, subscribed: Option<Vec<String>>) -> bool {
    order.channels@.len() > 0 && subscribed is Some
}

/// `r` is what was fetched, put together.
pub open spec fn is_answered(
    order: EngagementOrder,
    liked: Option<Vec<String>>,
    subscribed: Option<Vec<String>>,
    r: Option<EngagementAnswer>,
) -> bool {
    &&& r is Some <==> (order.liked_wanted && liked is Some) || channels_answered(order, subscribed)
    &&& r matches Some(answer) ==> {
        &&& answer.nonce == order.nonce
        &&& answer.liked_videos == (if order.liked_wanted {
            liked
        } else {
            None
        })
        &&& if channels_answered(order, subscribed) {
            answer.asked_channels@ == order.channels@ && answer.subscribed_channels@
                == subscribed->0@
        } else {
            answer.asked_channels@.len() == 0 && answer.subscribed_channels@.len() == 0
        }
    }
}

/// Puts together what was fetched: the likes, and the channels that are subscribed to;
/// `None` stands for what failed. Where nothing came, there is no answer.
pub fn engagement_answer(
    order: &EngagementOrder,
    liked: Option<Vec<String>>,
    subscribed: Option<Vec<String>>,
) -> (r: Option<EngagementAnswer>)
    ensures
        is_answered(*order, liked, subscribed, r),
{
    let liked_videos = if order.liked_wanted {
        liked
    } else {
        None
    };
    let asked: bool = order.channels.len() > 0;
    let (asked_channels, subscribed_channels): (Vec<String>, Vec<String>) = match subscribed {
        Some(found) if asked => (copied(&order.channels), found),
        _ => (Vec::new(), Vec::new()),
    };
    if liked_videos.is_none() && asked_channels.len() == 0 {
        return None;
    }
    Some(
        EngagementAnswer {
            nonce: order.nonce,
            liked_videos,
            asked_channels,
            subscribed_channels,
        },
    )
}

// ---- thumbnails ----

/// Thumbnails to fetch.
#[derive(Debug, PartialEq, Eq)]
pub struct ThumbsOrder {
    pub nonce: u64,
    pub ids: Vec<String>,
    /// The size that they are shown in.
    pub target_px: (u32, u32),
    /// Where they are kept, if not in the usual place.
    pub cache_dir: Option<String>,
    pub timeout_secs: u64,
}

/// The thumbnails of the list that are still to be fetched for a layout.
pub open spec fn thumbs_wanted(app: App, layout: Layout) -> Seq<Seq<char>> {
    let ids = ids_in(app.list());
    unknown_ids(ids, app.thumbs.known_at(layout.image_px), ids.len() as int)
}

/// Thumbnails are fetched: they are wanted and possible, the list is drawn as a grid,
/// and some are missing.
pub open spec fn fetches_thumbs(app: App, layout: Option<Layout>) -> bool {
    &&& app.settings.thumbnails.enabled
    &&& app.thumbs.disabled is None
    &&& layout matches Some(layout) && thumbs_wanted(app, layout).len() > 0
}

/// What the layout says, where there is one.
pub open spec fn layout_in(layout: Option<&Layout>) -> Option<Layout> {
    match layout {
        Some(layout) => Some(*layout),
        None => None,
    }
}

/// What starting to fetch thumbnails comes to.
pub open spec fn thumbs_started(
    app: App,
    session: Session,
    layout: Option<Layout>,
    after: App,
    session_after: Session,
    r: Option<ThumbsOrder>,
) -> bool {
    &&& r is Some <==> fetches_thumbs(app, layout)
    &&& r matches Some(order) ==> {
        &&& order.nonce == session.search_nonce
        &&& texts(order.ids@) == thumbs_wanted(app, layout->0)
        &&& order.target_px == layout->0.image_px
        &&& order.cache_dir == app.settings.thumbnails.cache_dir
        &&& order.timeout_secs == app.settings.thumbnails.timeout_secs
    }
    &&& after == (App { thumbs: Thumbs { fetching: r is Some, ..app.thumbs }, ..app })
    &&& session_after == (Session { thumbs_task: r is Some, ..session })
}

/// The thumbnails to fetch, if any are.
fn missing_thumbs(app: &App, layout: Option<&Layout>) -> (r: Option<Vec<String>>)
    ensures
        r is Some <==> fetches_thumbs(*app, layout_in(layout)),
        r matches Some(ids) ==> texts(ids@) == thumbs_wanted(*app, *layout->0),
{
    if !app.settings.thumbnails.enabled || app.thumbs.disabled.is_some() {
        return None;
    }
    let layout = match layout {
        Some(layout) => layout,
        None => {
            return None;
        },
    };
    let ids = app.thumbs.wanted(&app.view_result_ids(), layout.image_px);
    assert(texts(ids@).len() == ids@.len());
    if ids.len() == 0 {
        return None;
    }
    Some(ids)
}

/// Starts to fetch the thumbnails that the list lacks, given how the list is laid out;
/// `None` where it is drawn without a grid.
pub fn start_thumbnails(app: &mut App, session: &mut Session, layout: Option<&Layout>) -> (r: Option<
    ThumbsOrder,
>)
    ensures
        thumbs_started(*old(app), *old(session), layout_in(layout), *final(app), *final(session), r),
        old(app).wf() ==> final(app).wf(),
        old(session).wf() ==> final(session).wf(),
{
    let missing = missing_thumbs(app, layout);
    let fetching: bool = missing.is_some();
    session.thumbs_task = fetching;
    app.thumbs.set_fetching(fetching);
    let (ids, layout) = match (missing, layout) {
        (Some(ids), Some(layout)) => (ids, layout),
        _ => {
            return None;
        },
    };
    Some(
        ThumbsOrder {
            nonce: session.search_nonce,
            ids,
            target_px: layout.image_px,
            cache_dir: copy_of(&app.settings.thumbnails.cache_dir),
            timeout_secs: app.settings.thumbnails.timeout_secs,
        },
    )
}

// ---- comments ----

/// Comments to fetch.
#[derive(Debug, PartialEq, Eq)]
pub struct CommentsOrder {
    pub nonce: u64,
    pub video_id: String,
    pub url: String,
}

/// Starts to fetch the comments of the video that plays.
pub fn start_comments(app: &mut App, session: &mut Session, video_id: String, url: String) -> (r:
    CommentsOrder)
    ensures
        *final(app) == (App {
            comments: Comments::begun(video_id),
            ..*old(app)
        }),
        *final(session) == (Session { comments_task: true, ..comments_cancelled(*old(session)) }),
        r == (CommentsOrder { nonce: final(session).comments_nonce, video_id, url }),
{
    cancel_comments(session);
    app.comments.begin(video_id.clone());
    session.comments_task = true;
    CommentsOrder { nonce: session.comments_nonce, video_id, url }
}

/// What showing or hiding the comments comes to.
pub open spec fn comments_toggled(
    app: App,
    session: Session,
    after: App,
    session_after: Session,
) -> bool {
    &&& after == (App {
        comments: Comments { visible: !app.comments.visible, ..app.comments },
        ..app
    })
    &&& session_after == (Session {
        owe_clear: session.owe_clear || after.comments.visible,
        ..session
    })
}

/// Shows or hides the comments. The picture that they cover has to be taken off the
/// terminal.
pub fn toggle_comments(app: &mut App, session: &mut Session)
    ensures
        comments_toggled(*old(app), *old(session), *final(app), *final(session)),
{
    if app.comments.toggle() {
        session.owe_clear = true;
    }
}

/// How far the comments are scrolled.
#[derive(Debug, Clone, Copy, PartialEq, Eq, Structural)]
pub enum CommentScroll {
    Line(isize),
    Page(isize),
}

impl CommentScroll {
    /// The number of lines. A page is the height of the list, and a line at least.
    pub open spec fn lines(self, height: int) -> int {
        match self {
            CommentScroll::Line(lines) => lines as int,
            CommentScroll::Page(pages) => if height < 1 {
                pages as int
            } else {
                pages * height
            },
        }
    }
}

/// Scrolls the comments, given the part of the screen that they are drawn on.
pub fn scroll_comments(app: &mut App, step: CommentScroll, view: Rect)
    requires
        isize::MIN <= step.lines(view.height as int) <= isize::MAX,
    ensures
        *final(app) == (App {
            comments: Comments {
                scroll: old(app).comments.scrolled_to(
                    step.lines(view.height as int),
                    full_lines(old(app).comments.state).len() as int,
                    view.height as int,
                ) as usize,
                ..old(app).comments
            },
            ..*old(app)
        }),
{
    let height: usize = view.height as usize;
    let total: usize = crate::comments::display_lines(
        app.comments.state(),
        view.width as usize,
    ).len();
    let delta: isize = match step {
        CommentScroll::Line(lines) => lines,
        CommentScroll::Page(pages) => if view.height < 1 {
            pages
        } else {
            assert(pages * view.height == step.lines(view.height as int));
            pages * (view.height as isize)
        },
    };
    app.comments.scroll_by(delta, total, height);
}

// ---- subscribing and liking ----

/// Something to send.
#[derive(Debug, PartialEq, Eq)]
pub struct OauthOrder {
    pub nonce: u64,
    pub action: oauth::Action,
}

/// What starting to send comes to. Without a place for the credentials nothing starts.
pub open spec fn oauth_started(
    app: App,
    session: Session,
    action: oauth::Action,
    has_paths: bool,
    after: App,
    session_after: Session,
    r: Option<OauthOrder>,
) -> bool {
    if has_paths {
        &&& after == (App { notice: after.notice, notice_until: None, ..app })
        &&& maybe_text(after.notice) == Some(action.notice_text())
        &&& session_after == (Session {
            oauth_task: true,
            oauth_action: Some(action),
            ..oauth_cancelled(session)
        })
        &&& r == Some(OauthOrder { nonce: session_after.oauth_nonce, action })
    } else {
        &&& after == (App { error: after.error, error_until: None, ..app })
        &&& maybe_text(after.error) == Some(oauth::NO_CONFIG_PATH@)
        &&& session_after == session
        &&& r is None
    }
}

/// Starts to send. The user may have to allow it in a browser, so the notice stays
/// until the answer comes.
pub fn start_oauth(app: &mut App, session: &mut Session, action: oauth::Action, has_paths: bool)
    -> (r: Option<OauthOrder>)
    ensures
        oauth_started(
            *old(app),
            *old(session),
            action,
            has_paths,
            *final(app),
            *final(session),
            r,
        ),
{
    if !has_paths {
        app.set_error(Some(oauth::NO_CONFIG_PATH.to_owned()));
        return None;
    }
    cancel_oauth(session);
    app.set_notice(Some(action.notice().to_owned()));
    session.oauth_action = Some(action.clone());
    session.oauth_task = true;
    Some(OauthOrder { nonce: session.oauth_nonce, action })
}

/// Subscribes to a channel.
pub fn subscribe_to(app: &mut App, session: &mut Session, channel_id: String, has_paths: bool) -> (r:
    Option<OauthOrder>)
    ensures
        oauth_started(
            *old(app),
            *old(session),
            oauth::Action::Subscribe(channel_id),
            has_paths,
            *final(app),
            *final(session),
            r,
        ),
{
    start_oauth(app, session, oauth::Action::Subscribe(channel_id), has_paths)
}

/// Subscribes to the channel that is looked at.
pub fn subscribe_channel(app: &mut App, session: &mut Session, has_paths: bool) -> (r: Option<
    OauthOrder,
>)
    ensures
        match old(app).channel {
            Some(channel) => oauth_started(
                *old(app),
                *old(session),
                oauth::Action::Subscribe(channel.channel_id),
                has_paths,
                *final(app),
                *final(session),
                r,
            ),
            None => *final(app) == *old(app) && *final(session) == *old(session) && r is None,
        },
{
    let channel_id = match &app.channel {
        Some(channel) => channel.channel_id.clone(),
        None => {
            return None;
        },
    };
    subscribe_to(app, session, channel_id, has_paths)
}

/// Subscribes to the channel of the video that plays, where it is known.
pub fn subscribe_playing_channel(app: &mut App, session: &mut Session, has_paths: bool) -> (r:
    Option<OauthOrder>)
    ensures
        match old(app).playback.channel_id {
            Some(channel_id) => oauth_started(
                *old(app),
                *old(session),
                oauth::Action::Subscribe(channel_id),
                has_paths,
                *final(app),
                *final(session),
                r,
            ),
            None => *final(app) == *old(app) && *final(session) == *old(session) && r is None,
        },
{
    let channel_id = match &app.playback.channel_id {
        Some(channel_id) => channel_id.clone(),
        None => {
            return None;
        },
    };
    subscribe_to(app, session, channel_id, has_paths)
}

/// Likes the video that plays.
pub fn like_video(app: &mut App, session: &mut Session, has_paths: bool) -> (r: Option<OauthOrder>)
    ensures
        match oauth::id_in(old(app).playback.url@) {
            Some(id) => exists|video_id: String| #[trigger]
                video_id@ == id && oauth_started(
                    *old(app),
                    *old(session),
                    oauth::Action::Like(video_id),
                    has_paths,
                    *final(app),
                    *final(session),
                    r,
                ),
            None => *final(app) == *old(app) && *final(session) == *old(session) && r is None,
        },
{
    let video_id = match oauth::video_id_from_url(app.playback.url.as_str()) {
        Some(video_id) => video_id,
        None => {
            return None;
        },
    };
    start_oauth(app, session, oauth::Action::Like(video_id), has_paths)
}

// ---- what holds of all of these ----

/// Nothing that is known is asked for again.
pub proof fn law_known_ids_are_not_wanted(ids: Seq<Seq<char>>, known: Set<Seq<char>>, n: int)
    requires
        0 <= n <= ids.len(),
    ensures
        forall|i: int|
            0 <= i < unknown_ids(ids, known, n).len() ==> !known.contains(
                #[trigger] unknown_ids(ids, known, n)[i],
            ),
    decreases n,
{
    if n > 0 {
        law_known_ids_are_not_wanted(ids, known, n - 1);
        let before = unknown_ids(ids, known, n - 1);
        let all = unknown_ids(ids, known, n);
        assert forall|i: int| 0 <= i < all.len() implies !known.contains(#[trigger] all[i]) by {
            if i < before.len() {
                assert(all[i] == before[i]);
            }
        }
    }
}

/// A thumbnail that is there in the size that is shown is not fetched again.
pub proof fn law_known_thumbnails_are_not_fetched(
    app: App,
    session: Session,
    layout: Option<Layout>,
    after: App,
    session_after: Session,
    r: Option<ThumbsOrder>,
    i: int,
)
    requires
        thumbs_started(app, session, layout, after, session_after, r),
        r is Some,
        0 <= i < r->0.ids@.len(),
    ensures
        !app.thumbs.known_at(layout->0.image_px).contains(r->0.ids@[i]@),
{
    let ids = ids_in(app.list());
    let known = app.thumbs.known_at(layout->0.image_px);
    law_known_ids_are_not_wanted(ids, known, ids.len() as int);
    assert(texts(r->0.ids@)[i] == r->0.ids@[i]@);
}

/// What is sent replaces what was being sent, whose answer is late.
pub proof fn law_sending_makes_the_last_one_late(
    app: App,
    session: Session,
    action: oauth::Action,
    after: App,
    session_after: Session,
    r: Option<OauthOrder>,
)
    requires
        oauth_started(app, session, action, true, after, session_after, r),
    ensures
        session_after.oauth_nonce != session.oauth_nonce,
        session_after.oauth_action == Some(action),
{
}

/// Nothing is asked where the marks are switched off or nobody is logged in, nor where all
/// is known; else just what is due is asked, under the number of the list.
pub proof fn law_only_what_is_due_is_asked(
    app: App,
    session: Session,
    has_paths: bool,
    now: u64,
    after: Session,
    r: Option<EngagementOrder>,
)
    requires
        engagement_started(app, session, has_paths, now, after, r),
    ensures
        !app.settings.engagement.enabled ==> r is None,
        !has_paths ==> r is None,
        r is None && app.settings.engagement.enabled && has_paths ==> !likes_due(app, now)
            && channels_due(app, now).len() == 0,
        r matches Some(order) ==> {
            &&& order.nonce == session.search_nonce
            &&& order.liked_wanted || order.channels@.len() > 0
            &&& order.liked_wanted == likes_due(app, now)
            &&& order.max_concurrent_requests == app.settings.engagement.max_concurrent_requests
            &&& texts(order.channels@).no_duplicates()
            &&& forall|id: Seq<char>| #[trigger]
                texts(order.channels@).contains(id) ==> app.channels_shown().contains(id)
        },
        after.engagement_task == r is Some,
        after.search_nonce == session.search_nonce,
{
    if let Some(order) = r {
        let ids = app.channels_shown();
        law_due_channels(
            ids,
            app.engagement.channel_last_confirmed@,
            now,
            millis_of(app.settings.engagement.ttl_secs),
            ids.len() as int,
        );
        assert(ids.take(ids.len() as int) =~= ids);
        assert(texts(order.channels@).len() == order.channels@.len());
    }
}

/// An answer says of the likes what was fetched, if they were wanted, and of the channels
/// all or nothing: a failure must not end a subscription.
pub proof fn law_failed_answers_end_no_subscription(
    order: EngagementOrder,
    liked: Option<Vec<String>>,
    subscribed: Option<Vec<String>>,
    r: Option<EngagementAnswer>,
)
    requires
        is_answered(order, liked, subscribed, r),
    ensures
        subscribed is None ==> (r matches Some(answer) ==> answer.asked_channels@.len() == 0),
        subscribed is Some && order.channels@.len() > 0 ==> (r matches Some(answer)
            && answer.asked_channels@ == order.channels@ && answer.subscribed_channels@
            == subscribed->0@),
        order.liked_wanted && liked is Some ==> (r matches Some(answer) && answer.liked_videos
            == liked),
        !order.liked_wanted ==> (r matches Some(answer) ==> answer.liked_videos is None),
        r matches Some(answer) ==> answer.nonce == order.nonce,
        subscribed is None && liked is None ==> r is None,
{
}

/// Thumbnails are fetched where they are switched on, possible, and shown in a grid that
/// lacks some; and then all that it lacks, at its size, under the number of the list.
pub proof fn law_missing_thumbnails_are_fetched(
    app: App,
    session: Session,
    layout: Option<Layout>,
    after: App,
    session_after: Session,
    r: Option<ThumbsOrder>,
    i: int,
)
    requires
        thumbs_started(app, session, layout, after, session_after, r),
    ensures
        !app.settings.thumbnails.enabled || app.thumbs.disabled is Some || layout is None ==> r
            is None,
        app.settings.thumbnails.enabled && app.thumbs.disabled is None && layout is Some && 0 <= i
            < app.list().len() && !(app.thumbs.px == layout->0.image_px
            && app.thumbs.known@.contains(app.list()[i].id@)) ==> (r matches Some(order) && texts(
            order.ids@,
        ).contains(app.list()[i].id@)),
        r matches Some(order) ==> order.target_px == layout->0.image_px && order.nonce
            == session.search_nonce && order.timeout_secs == app.settings.thumbnails.timeout_secs
            && order.cache_dir == app.settings.thumbnails.cache_dir,
        after.thumbs.fetching == r is Some,
        session_after.thumbs_task == r is Some,
        after.list() == app.list(),
        after.thumbs.known == app.thumbs.known,
{
    if layout is Some && 0 <= i < app.list().len() {
        let ids = ids_in(app.list());
        let known = app.thumbs.known_at(layout->0.image_px);
        assert(ids[i] == app.list()[i].id@);
        if !known.contains(ids[i]) {
            lemma_unknown_is_listed(ids, known, ids.len() as int, i);
        }
    }
}

proof fn lemma_unknown_is_listed(ids: Seq<Seq<char>>, known: Set<Seq<char>>, n: int, i: int)
    requires
        0 <= i < n <= ids.len(),
        !known.contains(ids[i]),
    ensures
        unknown_ids(ids, known, n).contains(ids[i]),
        unknown_ids(ids, known, n).len() > 0,
    decreases n,
{
    let now = unknown_ids(ids, known, n);
    if i == n - 1 {
        assert(now[now.len() - 1] == ids[i]);
    } else {
        lemma_unknown_is_listed(ids, known, n - 1, i);
        let before = unknown_ids(ids, known, n - 1);
        let k = choose|k: int| 0 <= k < before.len() && before[k] == ids[i];
        assert(now[k] == ids[i]);
    }
}

/// The comments are shown where they were hidden and hidden where they were shown; a
/// second press undoes the first, and the picture that they cover is taken off.
pub proof fn law_comments_are_shown_in_turn(
    app: App,
    session: Session,
    after: App,
    session_after: Session,
)
    requires
        comments_toggled(app, session, after, session_after),
    ensures
        after.comments.visible != app.comments.visible,
        after.comments.state == app.comments.state,
        after.comments.scroll == app.comments.scroll,
        after.comments.visible ==> session_after.owe_clear,
        !after.comments.visible ==> session_after.owe_clear == session.owe_clear,
        after.playback == app.playback,
        after.mode == app.mode,
{
}

/// A line is a line, and a page is as many as are shown.
pub proof fn law_page_is_the_height(n: isize, height: int)
    ensures
        CommentScroll::Line(n).lines(height) == n,
        height > 0 ==> CommentScroll::Page(1).lines(height) == height,
        height > 0 ==> CommentScroll::Page(n).lines(height) == n * height,
        height <= 0 ==> CommentScroll::Page(n).lines(height) == n,
{
}

/// What is sent is what was asked for, and it is told while it runs. Without a place for
/// the credentials nothing is sent, and the reason is told.
pub proof fn law_what_was_asked_for_is_sent(
    app: App,
    session: Session,
    action: oauth::Action,
    has_paths: bool,
    after: App,
    session_after: Session,
    r: Option<OauthOrder>,
)
    requires
        oauth_started(app, session, action, has_paths, after, session_after, r),
    ensures
        has_paths ==> (r matches Some(order) && order.action == action && order.nonce
            == session_after.oauth_nonce && order.nonce != session.oauth_nonce),
        has_paths ==> session_after.oauth_task && after.notice is Some && after.notice_until is None
            && after.error == app.error,
        !has_paths ==> r is None && session_after == session && after.error is Some && after.notice
            == app.notice,
        after.list() == app.list(),
        after.playback == app.playback,
        after.engagement == app.engagement,
{
}

proof fn lemma_all_known(ids: Seq<Seq<char>>, known: Set<Seq<char>>, n: int)
    requires
        n <= ids.len(),
        forall|i: int| 0 <= i < ids.len() ==> known.contains(#[trigger] ids[i]),
    ensures
        unknown_ids(ids, known, n).len() == 0,
    decreases n,
{
    if n > 0 {
        lemma_all_known(ids, known, n - 1);
    }
}

/// Where every thumbnail is known at its size, none is fetched.
pub proof fn law_nothing_missing_nothing_fetched(
    app: App,
    session: Session,
    layout: Layout,
    after: App,
    session_after: Session,
    r: Option<ThumbsOrder>,
)
    requires
        thumbs_started(app, session, Some(layout), after, session_after, r),
        app.thumbs.px == layout.image_px,
        forall|i: int|
            0 <= i < app.list().len() ==> app.thumbs.known@.contains((#[trigger] app.list()[i]).id@),
    ensures
        r is None,
{
    let ids = ids_in(app.list());
    assert forall|i: int| 0 <= i < ids.len() implies app.thumbs.known_at(
        layout.image_px,
    ).contains(#[trigger] ids[i]) by {
        assert(ids[i] == app.list()[i].id@);
    }
    lemma_all_known(ids, app.thumbs.known_at(layout.image_px), ids.len() as int);
}

} // verus!
