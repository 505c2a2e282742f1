//! What a key or a click does on the search side: searching, tabs, channels, and what
//! is fetched for the list. An action changes the state and says what is to be started;
//! starting it is up to the caller. Times are milliseconds.

use crate::app::{App, ChannelView, Mode};
use crate::category::{TabState, Tabs};
use crate::cookies::{ChannelTab, CookieSource, Feed, Target};
use crate::search::SearchResult;
use crate::session::{
    cache_key, cached_results, cancel_channel_lookup, cancel_search, is_served, lookup_cancelled,
    search_cancelled, search_key, without_search, Session,
};
use crate::settings::MAX_SEARCH_LIMIT;
use crate::text::{maybe_text, trim, trimmed};
use vstd::prelude::*;
use vstd::string::*;

verus! {

/// Shown while the channel of a video is looked for.
pub const CHANNEL_LOOKUP_NOTICE: &'static str = "チャンネル情報を取得中…";

/// Shown where it was not found.
pub const NO_CHANNEL_NOTICE: &'static str = "このチャンネルへは移動できません";

/// A search to run.
#[derive(Debug, PartialEq, Eq)]
pub struct SearchOrder {
    /// The answer carries it, to tell a late one by.
    pub nonce: u64,
    pub target: Target,
    pub limit: usize,
    pub cookies: Option<CookieSource>,
    pub timeout_secs: u64,
}

/// A video whose channel is to be found.
#[derive(Debug, PartialEq, Eq)]
pub struct LookupOrder {
    pub nonce: u64,
    pub video_id: String,
    pub url: String,
}

/// What an action leads to.
#[derive(Debug, PartialEq, Eq)]
pub enum Started {
    Nothing,
    /// A feed without cookies. Asking for it would only take time.
    Refused,
    /// The list came from the searches that are kept; its thumbnails may be wanted.
    Served,
    Search(SearchOrder),
    Lookup(LookupOrder),
}

/// Seconds in milliseconds, or as many as there are.
pub open spec fn millis_of(secs: u64) -> u64 {
    if secs * 1000 <= u64::MAX {
        (secs * 1000) as u64
    } else {
        u64::MAX
    }
}

pub fn in_millis(secs: u64) -> (r: u64)
    ensures
        r == millis_of(secs),
{
    match secs.checked_mul(1000) {
        Some(millis) => millis,
        None => u64::MAX,
    }
}

/// The application without its error.
pub open spec fn without_error(app: App) -> App {
    App { error: None, error_until: None, ..app }
}

/// The key of a search that is made now.
pub open spec fn key_now(app: App, target: Target, limit: usize) -> Seq<char> {
    search_key(target, limit, app.cookies.searching() is Some)
}

/// The list that is kept of a search is shown in place of a new search: keeping is on,
/// the user did not ask for a fresh list, and what is kept is young enough.
pub open spec fn is_kept(app: App, session: Session, target: Target, limit: usize, now: u64) -> bool {
    &&& app.settings.search.cache_enabled
    &&& !app.kept().reload
    &&& is_served(
        session.search_cache@,
        key_now(app, target, limit),
        millis_of(app.settings.search.cache_ttl_secs),
        now,
    )
}

/// `after` is `app` with a list from the searches that are kept. Only a search says how
/// many results it was asked for.
pub open spec fn kept_shown(
    app: App,
    session: Session,
    target: Target,
    limit: usize,
    after: App,
) -> bool {
    exists|shown: App| #[trigger]
        without_error(app).results_set(
            session.search_cache@[key_now(app, target, limit)].results@,
            target,
            shown,
        ) && if target is Search {
            shown.with_kept(TabState { requested_limit: limit, ..shown.kept() }, after)
        } else {
            after == shown
        }
}

/// What a search for a target comes to. The one before is given up in any case, so that
/// it does not change the list later.
pub open spec fn search_started(
    app: App,
    session: Session,
    target: Target,
    limit: usize,
    now: u64,
    after: App,
    session_after: Session,
    r: Started,
) -> bool {
    let free = without_search(app);
    let idle = search_cancelled(session);
    if target is Feed && app.cookies.searching() is None {
        &&& r is Refused
        &&& session_after == idle
        &&& after == (App { error: after.error, error_until: None, ..free })
        &&& maybe_text(after.error) == Some(app.cookies.refusal_text(target->Feed_0))
    } else if is_kept(app, session, target, limit, now) {
        &&& r is Served
        &&& session_after == idle
        &&& kept_shown(free, session, target, limit, after)
    } else {
        &&& after == (App { searching: true, ..without_error(free) })
        &&& session_after == (Session {
            search_task: true,
            pending_cache_key: session_after.pending_cache_key,
            ..idle
        })
        &&& maybe_text(session_after.pending_cache_key) == (if app.settings.search.cache_enabled {
            Some(key_now(app, target, limit))
        } else {
            None
        })
        &&& r == Started::Search(
            SearchOrder {
                nonce: idle.search_nonce,
                target,
                limit,
                cookies: app.cookies.searching(),
                timeout_secs: app.settings.search.timeout_secs,
            },
        )
    }
}

/// Searches, unless the target is refused or its list is kept.
pub fn spawn_search(
    app: &mut App,
    session: &mut Session,
    target: Target,
    limit: usize,
    now: u64,
) -> (r: Started)
    requires
        old(app).wf(),
        old(session).wf(),
    ensures
        final(app).wf(),
        final(session).wf(),
        search_started(
            *old(app),
            *old(session),
            target,
            limit,
            now,
            *final(app),
            *final(session),
            r,
        ),
{
    let ghost sought = target;
    cancel_search(app, session);
    if let Target::Feed(feed) = &target {
        if app.cookies.for_search().is_none() {
            let reason = app.cookies.refusal(*feed);
            app.set_error(Some(reason));
            return Started::Refused;
        }
    }
    let cookies: Option<CookieSource> = match app.cookies.for_search() {
        Some(source) => Some(source.clone()),
        None => None,
    };
    let key: Option<String> = if app.settings.search.cache_enabled {
        Some(cache_key(&target, limit, cookies.is_some()))
    } else {
        None
    };
    if let Some(key) = &key {
        if !app.view_state().reload {
            let ttl: u64 = in_millis(app.settings.search.cache_ttl_secs);
            if let Some(results) = cached_results(session, key.as_str(), ttl, now) {
                app.set_error(None);
                let ghost cleared = *app;
                app.set_results(results, &target);
                let ghost shown = *app;
                assert(cleared.results_set(
                    session.search_cache@[key_now(without_search(*old(app)), target, limit)].results@,
                    target,
                    shown,
                ));
                if let Target::Search(_) = &target {
                    let state = app.view_state_mut();
                    state.requested_limit = limit;
                }
                return Started::Served;
            }
        }
    }
    session.pending_cache_key = key;
    session.search_task = true;
    app.searching = true;
    app.set_error(None);
    Started::Search(
        SearchOrder {
            nonce: session.search_nonce,
            target,
            limit,
            cookies,
            timeout_secs: app.settings.search.timeout_secs,
        },
    )
}

/// `after` is `app` with the tab at `place` selected and its list shown.
pub open spec fn tab_shown(app: App, place: int, after: App) -> bool {
    exists|stored: App| #[trigger]
        app.stored_to_tab(stored) && (App {
            tabs: Tabs { selected: place as usize, ..stored.tabs },
            ..stored
        }).synced_from_tab(after)
}

/// What a search for what is typed comes to. What is typed belongs to the first tab, so
/// that one is gone to.
pub open spec fn typed_searched(
    app: App,
    session: Session,
    now: u64,
    after: App,
    session_after: Session,
    r: Started,
) -> bool {
    let query = trimmed(app.query@);
    if query.len() == 0 {
        after == app && session_after == session && r is Nothing
    } else {
        exists|target: Target, on_first: App|
            {
                &&& #[trigger] target.is_for(query)
                &&& if app.tabs.selected == 0 {
                    on_first == app
                } else {
                    tab_shown(app, 0, on_first)
                }
                &&& #[trigger] search_started(
                    on_first,
                    session,
                    target,
                    app.settings.search.limit,
                    now,
                    after,
                    session_after,
                    r,
                )
            }
    }
}

/// Searches for what is typed.
pub fn start_search(app: &mut App, session: &mut Session, now: u64) -> (r: Started)
    requires
        old(app).wf(),
        old(session).wf(),
    ensures
        final(app).wf(),
        final(session).wf(),
        typed_searched(*old(app), *old(session), now, *final(app), *final(session), r),
{
    let query = trim(app.query.as_str());
    if query.as_str().is_empty() {
        return Started::Nothing;
    }
    if !app.tabs.is_all() {
        app.store_to_tab();
        let ghost stored = *app;
        app.tabs.select_all();
        app.sync_from_tab();
        assert(old(app).stored_to_tab(stored));
        assert(tab_shown(*old(app), 0, *app));
    }
    let ghost on_first = *app;
    let target = Target::for_query(query.as_str());
    let limit: usize = app.settings.search.limit;
    assert(target.is_for(query@));
    spawn_search(app, session, target, limit, now)
}

/// What a search of the selected tab comes to. A tab without a search gives the one
/// before up too, or its list would get here.
pub open spec fn tab_searched(
    app: App,
    session: Session,
    limit: usize,
    now: u64,
    after: App,
    session_after: Session,
    r: Started,
) -> bool {
    let query = app.tabs.search_text(app.query@);
    if query.len() == 0 {
        &&& after == without_search(app)
        &&& session_after == search_cancelled(session)
        &&& r is Nothing
    } else {
        exists|target: Target| #[trigger]
            target.is_for(query) && search_started(
                app,
                session,
                target,
                limit,
                now,
                after,
                session_after,
                r,
            )
    }
}

/// Searches for what the selected tab stands for.
pub fn start_tab_search(app: &mut App, session: &mut Session, limit: usize, now: u64) -> (r:
    Started)
    requires
        old(app).wf(),
        old(session).wf(),
    ensures
        final(app).wf(),
        final(session).wf(),
        tab_searched(*old(app), *old(session), limit, now, *final(app), *final(session), r),
{
    let target = match app.tabs.target(app.query.as_str()) {
        Some(target) => target,
        None => {
            cancel_search(app, session);
            return Started::Nothing;
        },
    };
    spawn_search(app, session, target, limit, now)
}

/// What comes of a tab that was gone to: it is searched unless it is loaded.
pub open spec fn tab_loaded(
    app: App,
    session: Session,
    now: u64,
    after: App,
    session_after: Session,
    r: Started,
) -> bool {
    if app.tabs.current().loaded {
        after == app && session_after == session && r is Nothing
    } else {
        tab_searched(
            app,
            session,
            app.settings.search.limit,
            now,
            after,
            session_after,
            r,
        )
    }
}

fn load_tab(app: &mut App, session: &mut Session, now: u64) -> (r: Started)
    requires
        old(app).wf(),
        old(session).wf(),
    ensures
        final(app).wf(),
        final(session).wf(),
        tab_loaded(*old(app), *old(session), now, *final(app), *final(session), r),
{
    if app.tabs.state().loaded {
        return Started::Nothing;
    }
    let limit: usize = app.settings.search.limit;
    start_tab_search(app, session, limit, now)
}

/// What going to the tab at `place` comes to.
pub open spec fn tab_entered(
    app: App,
    session: Session,
    place: int,
    now: u64,
    after: App,
    session_after: Session,
    r: Started,
) -> bool {
    exists|shown: App| #[trigger]
        tab_shown(without_search(app), place, shown) && tab_loaded(
            without_error(shown),
            search_cancelled(session),
            now,
            after,
            session_after,
            r,
        )
}

/// The place of the tab beside the selected one.
pub open spec fn place_beside(tabs: Tabs, forward: bool) -> int {
    if forward {
        tabs.following()
    } else {
        tabs.preceding()
    }
}

/// Goes to the next tab or to the one before, and searches where nothing was loaded.
pub fn switch_tab(app: &mut App, session: &mut Session, forward: bool, now: u64) -> (r: Started)
    requires
        old(app).wf(),
        old(session).wf(),
    ensures
        final(app).wf(),
        final(session).wf(),
        tab_entered(
            *old(app),
            *old(session),
            place_beside(old(app).tabs, forward),
            now,
            *final(app),
            *final(session),
            r,
        ),
{
    let ghost place = place_beside(app.tabs, forward);
    cancel_search(app, session);
    let ghost free = *app;
    app.store_to_tab();
    let ghost stored = *app;
    if forward {
        app.tabs.next();
    } else {
        app.tabs.prev();
    }
    app.sync_from_tab();
    let ghost shown = *app;
    assert(free.stored_to_tab(stored));
    assert(tab_shown(free, place, shown));
    app.set_error(None);
    load_tab(app, session, now)
}

/// What a click on the tab at `index` comes to.
pub open spec fn tab_clicked(
    app: App,
    session: Session,
    index: usize,
    now: u64,
    after: App,
    session_after: Session,
    r: Started,
) -> bool {
    if index == app.tabs.selected {
        if app.searching || app.tabs.current().loaded {
            after == app && session_after == session && r is Nothing
        } else {
            tab_searched(
                without_error(app),
                session,
                app.settings.search.limit,
                now,
                after,
                session_after,
                r,
            )
        }
    } else if index < app.tabs.categories@.len() {
        tab_entered(app, session, index as int, now, after, session_after, r)
    } else {
        app.stored_to_tab(after) && session_after == session && r is Nothing
    }
}

/// Goes to a tab by its place. On the selected tab it searches again where nothing was
/// loaded and nothing is on the way.
pub fn select_tab(app: &mut App, session: &mut Session, index: usize, now: u64) -> (r: Started)
    requires
        old(app).wf(),
        old(session).wf(),
    ensures
        final(app).wf(),
        final(session).wf(),
        tab_clicked(*old(app), *old(session), index, now, *final(app), *final(session), r),
{
    if index == app.tabs.selected() {
        if app.tabs.state().loaded || app.searching {
            return Started::Nothing;
        }
        app.set_error(None);
        let limit: usize = app.settings.search.limit;
        return start_tab_search(app, session, limit, now);
    }
    app.store_to_tab();
    let ghost stored = *app;
    if !app.tabs.select(index) {
        return Started::Nothing;
    }
    cancel_search(app, session);
    app.sync_from_tab();
    let ghost shown = *app;
    proof {
        let free = without_search(*old(app));
        assert(free.stored_to_tab(without_search(stored)));
        assert(tab_shown(free, index as int, shown));
    }
    app.set_error(None);
    load_tab(app, session, now)
}

/// `after` is `app` where a fresh list was asked for. The wish stays until the list has
/// come.
pub open spec fn reload_wanted(app: App, after: App) -> bool {
    app.with_kept(TabState { loaded: false, reload: true, ..app.kept() }, after)
}

fn request_reload(app: &mut App)
    requires
        old(app).wf(),
    ensures
        final(app).wf(),
        reload_wanted(*old(app), *final(app)),
{
    let state = app.view_state_mut();
    state.loaded = false;
    state.reload = true;
}

/// How many results a fresh list is asked for with: no fewer than the list has been
/// stretched to.
pub open spec fn reload_limit(app: App) -> usize {
    if app.kept().requested_limit > app.settings.search.limit {
        app.kept().requested_limit
    } else {
        app.settings.search.limit
    }
}

/// What asking for a fresh list of the selected tab comes to.
pub open spec fn tab_reloaded(
    app: App,
    session: Session,
    now: u64,
    after: App,
    session_after: Session,
    r: Started,
) -> bool {
    exists|marked: App| #[trigger]
        reload_wanted(app, marked) && tab_searched(
            marked,
            session,
            reload_limit(app),
            now,
            after,
            session_after,
            r,
        )
}

/// Asks for a fresh list of the selected tab.
pub fn reload_tab(app: &mut App, session: &mut Session, now: u64) -> (r: Started)
    requires
        old(app).wf(),
        old(session).wf(),
    ensures
        final(app).wf(),
        final(session).wf(),
        tab_reloaded(*old(app), *old(session), now, *final(app), *final(session), r),
{
    request_reload(app);
    let asked: usize = app.view_state().requested_limit;
    let limit: usize = if asked > app.settings.search.limit {
        asked
    } else {
        app.settings.search.limit
    };
    start_tab_search(app, session, limit, now)
}

/// How many results a longer list is asked for with.
pub open spec fn longer_limit(app: App) -> int {
    let wanted = app.list().len() + app.settings.search.limit;
    if wanted < MAX_SEARCH_LIMIT {
        wanted
    } else {
        MAX_SEARCH_LIMIT as int
    }
}

/// What asking for a longer list comes to. Only the list of a search can get longer.
pub open spec fn more_loaded(
    app: App,
    session: Session,
    now: u64,
    after: App,
    session_after: Session,
    r: Started,
) -> bool {
    let query = app.tabs.search_text(app.query@);
    if app.more_there() && query.len() > 0 && Feed::asked(trimmed(query)) is None {
        exists|target: Target| #[trigger]
            target.is_for(query) && search_started(
                app,
                session,
                target,
                longer_limit(app) as usize,
                now,
                after,
                session_after,
                r,
            )
    } else {
        after == app && session_after == session && r is Nothing
    }
}

/// Asks for a longer list. It is fetched anew as a whole.
pub fn load_more(app: &mut App, session: &mut Session, now: u64) -> (r: Started)
    requires
        old(app).wf(),
        old(session).wf(),
    ensures
        final(app).wf(),
        final(session).wf(),
        more_loaded(*old(app), *old(session), now, *final(app), *final(session), r),
{
    let target = match app.tabs.target(app.query.as_str()) {
        Some(target) => target,
        None => {
            return Started::Nothing;
        },
    };
    if !app.can_load_more() {
        return Started::Nothing;
    }
    if let Target::Search(_) = &target {
    } else {
        return Started::Nothing;
    }
    let wanted: usize = app.view_results().len().saturating_add(app.settings.search.limit);
    let limit: usize = if wanted < MAX_SEARCH_LIMIT {
        wanted
    } else {
        MAX_SEARCH_LIMIT
    };
    spawn_search(app, session, target, limit, now)
}

// ---- channels ----

/// What a search of the selected tab of a channel comes to.
pub open spec fn channel_searched(
    app: App,
    session: Session,
    now: u64,
    after: App,
    session_after: Session,
    r: Started,
) -> bool {
    match app.channel {
        None => after == app && session_after == session && r is Nothing,
        Some(channel) => search_started(
            app,
            session,
            Target::Channel { id: channel.channel_id, tab: channel.tab },
            app.settings.search.limit,
            now,
            after,
            session_after,
            r,
        ),
    }
}

fn start_channel_search(app: &mut App, session: &mut Session, now: u64) -> (r: Started)
    requires
        old(app).wf(),
        old(session).wf(),
    ensures
        final(app).wf(),
        final(session).wf(),
        channel_searched(*old(app), *old(session), now, *final(app), *final(session), r),
{
    let target = match &app.channel {
        Some(channel) => channel.target(),
        None => {
            return Started::Nothing;
        },
    };
    let limit: usize = app.settings.search.limit;
    spawn_search(app, session, target, limit, now)
}

/// The application with a channel that was just opened.
pub open spec fn in_channel(app: App, view: ChannelView) -> App {
    let cleared = without_error(app);
    App { channel: Some(view), mode: Mode::Channel, ..cleared }
}

/// The application with another state of the channel.
pub open spec fn with_channel(app: App, view: Option<ChannelView>) -> App {
    App { channel: view, ..app }
}

/// What going to a channel comes to. The place in the list of the search is kept for
/// the way back.
pub open spec fn channel_entered(
    app: App,
    session: Session,
    channel_id: String,
    title: String,
    now: u64,
    after: App,
    session_after: Session,
    r: Started,
) -> bool {
    exists|stored: App, view: ChannelView, shown: App|
        {
            &&& #[trigger] without_search(app).stored_to_tab(stored)
            &&& #[trigger] view.is_opened(channel_id, title)
            &&& #[trigger] in_channel(stored, view).synced_from_view(shown)
            &&& channel_searched(
                shown,
                search_cancelled(session),
                now,
                after,
                session_after,
                r,
            )
        }
}

/// Goes to a channel and searches for its videos.
pub fn enter_channel(
    app: &mut App,
    session: &mut Session,
    channel_id: String,
    title: String,
    now: u64,
) -> (r: Started)
    requires
        old(app).wf(),
        old(session).wf(),
    ensures
        final(app).wf(),
        final(session).wf(),
        channel_entered(
            *old(app),
            *old(session),
            channel_id,
            title,
            now,
            *final(app),
            *final(session),
            r,
        ),
{
    cancel_search(app, session);
    app.store_to_tab();
    let ghost stored = *app;
    app.channel = Some(ChannelView::new(channel_id, title));
    let ghost view = app.channel->0;
    app.mode = Mode::Channel;
    app.set_error(None);
    app.sync_from_view();
    let ghost shown = *app;
    proof {
        assert(without_search(*old(app)).stored_to_tab(stored));
        assert(view.is_opened(channel_id, title));
        assert(in_channel(stored, view).synced_from_view(shown));
    }
    start_channel_search(app, session, now)
}

/// Looks for the channel of a video. A search that runs goes on. The notice stays until
/// the answer comes, for that takes longer than notices last.
pub fn start_channel_lookup(app: &mut App, session: &mut Session, video_id: String, url: String)
    -> (r: Started)
    ensures
        *final(app) == (App { notice: final(app).notice, notice_until: None, ..*old(app) }),
        maybe_text(final(app).notice) == Some(CHANNEL_LOOKUP_NOTICE@),
        *final(session) == (Session {
            channel_lookup_task: true,
            ..lookup_cancelled(*old(session))
        }),
        r == Started::Lookup(
            LookupOrder { nonce: final(session).channel_lookup_nonce, video_id, url },
        ),
{
    cancel_channel_lookup(session);
    app.set_notice(Some(CHANNEL_LOOKUP_NOTICE.to_owned()));
    session.channel_lookup_task = true;
    Started::Lookup(LookupOrder { nonce: session.channel_lookup_nonce, video_id, url })
}

/// What opening the channel of a result comes to: the channel is gone to, or looked for
/// where the row does not name it.
pub open spec fn channel_opened(
    app: App,
    session: Session,
    result: SearchResult,
    now: u64,
    after: App,
    session_after: Session,
    r: Started,
) -> bool {
    match result.channel_id {
        Some(channel_id) => channel_entered(
            app,
            session,
            channel_id,
            match result.uploader {
                Some(uploader) => uploader,
                None => channel_id,
            },
            now,
            after,
            session_after,
            r,
        ),
        None => {
            &&& after == (App { notice: after.notice, notice_until: None, ..app })
            &&& maybe_text(after.notice) == Some(CHANNEL_LOOKUP_NOTICE@)
            &&& session_after == (Session {
                channel_lookup_task: true,
                ..lookup_cancelled(session)
            })
            &&& r matches Started::Lookup(order) && order.nonce
                == session_after.channel_lookup_nonce && order.video_id == result.id && order.url@
                == result.address()
        },
    }
}

/// What opening the channel of the selected result comes to, if one is selected.
pub open spec fn selected_channel_opened(
    app: App,
    session: Session,
    now: u64,
    after: App,
    session_after: Session,
    r: Started,
) -> bool {
    if app.place() < app.list().len() {
        channel_opened(
            app,
            session,
            app.list()[app.place() as int],
            now,
            after,
            session_after,
            r,
        )
    } else {
        after == app && session_after == session && r is Nothing
    }
}

/// Opens the channel of the selected result.
pub fn open_channel(app: &mut App, session: &mut Session, now: u64) -> (r: Started)
    requires
        old(app).wf(),
        old(session).wf(),
    ensures
        final(app).wf(),
        final(session).wf(),
        selected_channel_opened(*old(app), *old(session), now, *final(app), *final(session), r),
{
    let result = match app.view_selected_result() {
        Some(result) => result.clone(),
        None => {
            return Started::Nothing;
        },
    };
    let url = result.url();
    match result.channel_id {
        Some(channel_id) => {
            let title = match result.uploader {
                Some(uploader) => uploader,
                None => channel_id.clone(),
            };
            enter_channel(app, session, channel_id, title, now)
        },
        None => start_channel_lookup(app, session, result.id, url),
    }
}

/// `after` is `app` back at the list of the search.
pub open spec fn channel_left(app: App, after: App) -> bool {
    exists|shown: App| #[trigger]
        with_channel(without_error(without_search(app)), None).synced_from_view(shown)
            && after == (App {
            mode: if shown.results@.len() == 0 {
                Mode::Input
            } else {
                Mode::Results
            },
            ..shown
        })
}

/// Goes back from a channel to the list of the search.
pub fn leave_channel(app: &mut App, session: &mut Session)
    requires
        old(app).wf(),
    ensures
        final(app).wf(),
        if old(app).channel is Some {
            channel_left(*old(app), *final(app)) && *final(session) == search_cancelled(
                *old(session),
            )
        } else {
            *final(app) == *old(app) && *final(session) == *old(session)
        },
{
    if app.channel.is_none() {
        return ;
    }
    cancel_search(app, session);
    app.channel = None;
    app.set_error(None);
    let ghost left = *app;
    app.sync_from_view();
    let ghost shown = *app;
    assert(left.synced_from_view(shown));
    app.mode = if app.results.len() == 0 {
        Mode::Input
    } else {
        Mode::Results
    };
}

/// What comes of a tab of a channel that was gone to: it is searched unless it is
/// loaded.
pub open spec fn channel_tab_entered(
    app: App,
    session: Session,
    view: ChannelView,
    now: u64,
    after: App,
    session_after: Session,
    r: Started,
) -> bool {
    exists|shown: App|
        {
            let cleared = without_error(shown);
            &&& #[trigger] with_channel(without_search(app), Some(view)).synced_from_view(shown)
            &&& if view.current().loaded {
                after == cleared && session_after == search_cancelled(session) && r is Nothing
            } else {
                channel_searched(
                    cleared,
                    search_cancelled(session),
                    now,
                    after,
                    session_after,
                    r,
                )
            }
        }
}

/// Goes on from a channel whose tab was changed.
fn load_channel_tab(app: &mut App, session: &mut Session, now: u64) -> (r: Started)
    requires
        old(app).wf(),
        old(session).wf(),
        old(app).channel is Some,
    ensures
        final(app).wf(),
        final(session).wf(),
        channel_tab_entered(
            *old(app),
            *old(session),
            old(app).channel->0,
            now,
            *final(app),
            *final(session),
            r,
        ),
{
    cancel_search(app, session);
    let ghost free = *app;
    app.sync_from_view();
    let ghost shown = *app;
    assert(free.synced_from_view(shown));
    app.set_error(None);
    let loaded: bool = match &app.channel {
        Some(channel) => channel.state().loaded,
        None => false,
    };
    if loaded {
        return Started::Nothing;
    }
    start_channel_search(app, session, now)
}

/// The channel with the tab beside the selected one.
pub open spec fn tab_beside(channel: ChannelView, forward: bool) -> ChannelView {
    ChannelView {
        tab: if forward {
            ChannelView::tab_after(channel.tab)
        } else {
            ChannelView::tab_before(channel.tab)
        },
        ..channel
    }
}

/// Goes to the next tab of a channel or to the one before.
pub fn switch_channel_tab(app: &mut App, session: &mut Session, forward: bool, now: u64) -> (r:
    Started)
    requires
        old(app).wf(),
        old(session).wf(),
    ensures
        final(app).wf(),
        final(session).wf(),
        match old(app).channel {
            None => *final(app) == *old(app) && *final(session) == *old(session) && r is Nothing,
            Some(channel) => channel_tab_entered(
                *old(app),
                *old(session),
                tab_beside(channel, forward),
                now,
                *final(app),
                *final(session),
                r,
            ),
        },
{
    match &mut app.channel {
        None => {
            return Started::Nothing;
        },
        Some(channel) => {
            if forward {
                channel.next_tab();
            } else {
                channel.prev_tab();
            }
        },
    }
    load_channel_tab(app, session, now)
}

/// What a click on the tab at `index` of a channel comes to.
pub open spec fn channel_tab_clicked(
    app: App,
    session: Session,
    channel: ChannelView,
    index: usize,
    now: u64,
    after: App,
    session_after: Session,
    r: Started,
) -> bool {
    if index >= 3 {
        after == app && session_after == session && r is Nothing
    } else if channel.tab.place() == index {
        if channel.current().loaded || app.searching {
            after == app && session_after == session && r is Nothing
        } else {
            channel_searched(without_error(app), session, now, after, session_after, r)
        }
    } else {
        exists|tab: ChannelTab| #[trigger]
            tab.place() == index && channel_tab_entered(
                app,
                session,
                ChannelView { tab, ..channel },
                now,
                after,
                session_after,
                r,
            )
    }
}

/// Goes to a tab of a channel by its place.
pub fn select_channel_tab(app: &mut App, session: &mut Session, index: usize, now: u64) -> (r:
    Started)
    requires
        old(app).wf(),
        old(session).wf(),
    ensures
        final(app).wf(),
        final(session).wf(),
        match old(app).channel {
            None => *final(app) == *old(app) && *final(session) == *old(session) && r is Nothing,
            Some(channel) => channel_tab_clicked(
                *old(app),
                *old(session),
                channel,
                index,
                now,
                *final(app),
                *final(session),
                r,
            ),
        },
{
    let again: bool = match &app.channel {
        None => {
            return Started::Nothing;
        },
        Some(channel) => {
            if channel.tab.index() == index {
                if channel.state().loaded || app.searching {
                    return Started::Nothing;
                }
                true
            } else {
                false
            }
        },
    };
    if again {
        app.set_error(None);
        return start_channel_search(app, session, now);
    }
    let ghost before = app.channel->0;
    let moved: bool = match &mut app.channel {
        None => false,
        Some(channel) => channel.select_tab(index),
    };
    if !moved {
        return Started::Nothing;
    }
    proof {
        assert(app.channel->0.tab.place() == index);
        assert(app.channel->0 == (ChannelView { tab: app.channel->0.tab, ..before }));
    }
    load_channel_tab(app, session, now)
}

/// Asks for a fresh list of the selected tab of a channel.
pub fn reload_channel_tab(app: &mut App, session: &mut Session, now: u64) -> (r: Started)
    requires
        old(app).wf(),
        old(session).wf(),
    ensures
        final(app).wf(),
        final(session).wf(),
        if old(app).channel is Some {
            exists|marked: App| #[trigger]
                reload_wanted(*old(app), marked) && channel_searched(
                    marked,
                    *old(session),
                    now,
                    *final(app),
                    *final(session),
                    r,
                )
        } else {
            *final(app) == *old(app) && *final(session) == *old(session) && r is Nothing
        },
{
    if app.channel.is_none() {
        return Started::Nothing;
    }
    request_reload(app);
    start_channel_search(app, session, now)
}

// ---- what holds of all of these ----

/// However a search comes out, the answer of the one before is late.
pub proof fn law_search_makes_the_last_one_late(
    app: App,
    session: Session,
    target: Target,
    limit: usize,
    now: u64,
    after: App,
    session_after: Session,
    r: Started,
)
    requires
        search_started(app, session, target, limit, now, after, session_after, r),
    ensures
        session_after.search_nonce != session.search_nonce,
        session_after.channel_lookup_nonce != session.channel_lookup_nonce,
        session_after.oauth_nonce != session.oauth_nonce,
        r matches Started::Search(order) ==> order.nonce == session_after.search_nonce,
{
}

/// A search that is refused or on its way leaves the screen and the list alone.
pub proof fn law_list_stays_until_the_answer(
    app: App,
    session: Session,
    target: Target,
    limit: usize,
    now: u64,
    after: App,
    session_after: Session,
    r: Started,
)
    requires
        search_started(app, session, target, limit, now, after, session_after, r),
        r !is Served,
    ensures
        after.mode == app.mode,
        after.list() == app.list(),
        after.place() == app.place(),
        after.kept() == app.kept(),
        after.results_generation == app.results_generation,
{
}

/// A fresh list is never taken from the searches that are kept.
pub proof fn law_reload_is_never_served(
    app: App,
    marked: App,
    session: Session,
    target: Target,
    limit: usize,
    now: u64,
    after: App,
    session_after: Session,
    r: Started,
)
    requires
        app.wf(),
        reload_wanted(app, marked),
        search_started(marked, session, target, limit, now, after, session_after, r),
    ensures
        r !is Served,
{
    assert(marked.kept().reload);
}

/// Only feeds are refused, and only without cookies.
pub proof fn law_only_feeds_without_cookies_are_refused(
    app: App,
    session: Session,
    target: Target,
    limit: usize,
    now: u64,
    after: App,
    session_after: Session,
    r: Started,
)
    requires
        search_started(app, session, target, limit, now, after, session_after, r),
    ensures
        r is Refused <==> target is Feed && app.cookies.searching() is None,
        r is Refused ==> !after.searching && !session_after.search_task,
{
}

/// A tab that is gone to shows the list that it keeps, at the place where it was left,
/// and every other tab keeps its own.
pub proof fn law_tabs_keep_their_lists(app: App, place: usize, after: App)
    requires
        app.wf(),
        0 <= place < app.tabs.states@.len(),
        tab_shown(app, place as int, after),
    ensures
        after.tabs.selected == place,
        after.results@ == app.tabs.states@[place as int].results@,
        after.selected == (if place == app.tabs.selected {
            app.selected
        } else {
            app.tabs.states@[place as int].selected
        }),
        after.tabs.states@.len() == app.tabs.states@.len(),
        forall|i: int|
            0 <= i < app.tabs.states@.len() && i != app.tabs.selected ==> (
            #[trigger] after.tabs.states@[i]) == app.tabs.states@[i],
        after.tabs.states@[app.tabs.selected as int].results@
            == app.tabs.states@[app.tabs.selected as int].results@,
        after.tabs.states@[app.tabs.selected as int].selected == app.selected,
        after.tabs.states@[app.tabs.selected as int].scroll == app.scroll,
{
}

/// A tab that is loaded is not searched again when it is gone to.
pub proof fn law_loaded_tab_is_not_searched(
    app: App,
    session: Session,
    place: usize,
    now: u64,
    after: App,
    session_after: Session,
    r: Started,
)
    requires
        app.wf(),
        0 <= place < app.tabs.states@.len(),
        app.tabs.states@[place as int].loaded,
        tab_entered(app, session, place as int, now, after, session_after, r),
    ensures
        r is Nothing,
        !session_after.search_task,
        !after.searching,
        after.results@ == app.tabs.states@[place as int].results@,
{
}

/// The way back from a channel leads to the list of the search, at the place where it
/// was left, whatever the channel's own list came to.
pub proof fn law_leaving_a_channel_goes_back(
    app: App,
    session: Session,
    channel_id: String,
    title: String,
    now: u64,
    entered: App,
    session_entered: Session,
    r: Started,
    left: App,
)
    requires
        app.wf(),
        app.results@ == app.tabs.current().results@,
        channel_entered(app, session, channel_id, title, now, entered, session_entered, r),
        channel_left(entered, left),
    ensures
        left.channel is None,
        left.results@ == app.results@,
        left.selected == app.selected,
        left.scroll == app.scroll,
        left.tabs.selected == app.tabs.selected,
        left.mode == (if app.results@.len() == 0 {
            Mode::Input
        } else {
            Mode::Results
        }),
{
    assert(entered.tabs.selected == app.tabs.selected);
    assert(entered.tabs.current().results@ == app.results@);
    assert(entered.tabs.current().selected == app.selected);
    assert(entered.tabs.current().scroll == app.scroll);
}

/// A longer list is asked for by what is shown and one more portion, and never for more
/// than may be asked for at once.
pub proof fn law_more_is_one_portion_more(
    app: App,
    session: Session,
    now: u64,
    after: App,
    session_after: Session,
    r: Started,
)
    requires
        more_loaded(app, session, now, after, session_after, r),
        r is Search,
    ensures
        r->Search_0.limit <= MAX_SEARCH_LIMIT,
        r->Search_0.limit == MAX_SEARCH_LIMIT || r->Search_0.limit == app.list().len()
            + app.settings.search.limit,
{
}

/// A number of seconds is a thousand times as many milliseconds.
pub proof fn law_seconds_in_millis(secs: u64)
    ensures
        secs * 1000 <= u64::MAX ==> millis_of(secs) == secs * 1000,
        secs * 1000 > u64::MAX ==> millis_of(secs) == u64::MAX,
{
}

/// A search asks for its own target and as many results as it was told, with the cookies
/// and the time limit that are set, and is waited for; the error of the one before is gone.
pub proof fn law_search_asks_as_it_is_set(
    app: App,
    session: Session,
    target: Target,
    limit: usize,
    now: u64,
    after: App,
    session_after: Session,
    r: Started,
)
    requires
        search_started(app, session, target, limit, now, after, session_after, r),
        r is Search,
    ensures
        r->Search_0.target == target,
        r->Search_0.limit == limit,
        r->Search_0.cookies == app.cookies.searching(),
        r->Search_0.timeout_secs == app.settings.search.timeout_secs,
        r->Search_0.nonce == session_after.search_nonce,
        after.searching,
        after.error is None,
        after.notice is None,
        session_after.search_task,
        session_after.pending_cache_key is Some <==> app.settings.search.cache_enabled,
        session_after.search_cache == session.search_cache,
{
}

/// What is kept is shown in place of a search just where keeping is on, the list was not
/// asked for afresh, and the same search is kept and young enough. It is what that search
/// found, without the rows that are hidden by now.
pub proof fn law_kept_search_is_shown(
    app: App,
    session: Session,
    target: Target,
    limit: usize,
    now: u64,
    after: App,
    session_after: Session,
    r: Started,
)
    requires
        app.wf(),
        search_started(app, session, target, limit, now, after, session_after, r),
    ensures
        !app.settings.search.cache_enabled ==> r !is Served,
        app.kept().reload ==> r !is Served,
        r is Served ==> {
            let key = search_key(target, limit, app.cookies.searching() is Some);
            let ttl = millis_of(app.settings.search.cache_ttl_secs);
            &&& session.search_cache@.dom().contains(key)
            &&& is_served(session.search_cache@, key, ttl, now)
            &&& after.list() == crate::app::shown(
                session.search_cache@[key].results@,
                app.hidden,
            )
            &&& after.place() == 0
            &&& !after.searching
            &&& !session_after.search_task
            &&& target is Search ==> after.kept().requested_limit == limit
        },
        r is Served || r is Search || r is Refused,
        app.settings.search.cache_enabled && !app.kept().reload && is_served(
            session.search_cache@,
            search_key(target, limit, app.cookies.searching() is Some),
            millis_of(app.settings.search.cache_ttl_secs),
            now,
        ) ==> r !is Search,
{
    if r is Served {
        let free = without_search(app);
        let shown = choose|shown: App| #[trigger]
            without_error(free).results_set(
                session.search_cache@[key_now(free, target, limit)].results@,
                target,
                shown,
            ) && if target is Search {
                shown.with_kept(TabState { requested_limit: limit, ..shown.kept() }, after)
            } else {
                after == shown
            };
        assert(shown.list() == crate::app::shown(
            session.search_cache@[key_now(free, target, limit)].results@,
            app.hidden,
        ));
        assert(after.list() == shown.list());
    }
}

/// What is typed is searched for, on the first tab and with as many results as are set;
/// and where nothing is typed nothing happens.
pub proof fn law_typed_words_are_searched_for(
    app: App,
    session: Session,
    now: u64,
    after: App,
    session_after: Session,
    r: Started,
)
    requires
        app.wf(),
        typed_searched(app, session, now, after, session_after, r),
    ensures
        trimmed(app.query@).len() == 0 ==> r is Nothing && after == app && session_after == session,
        trimmed(app.query@).len() > 0 ==> r !is Nothing,
        r matches Started::Search(order) ==> order.target.is_for(trimmed(app.query@))
            && order.limit == app.settings.search.limit && after.tabs.selected == 0,
{
}

/// A tab searches for what it stands for, and one without a search for nothing.
pub proof fn law_tab_searches_for_its_own(
    app: App,
    session: Session,
    limit: usize,
    now: u64,
    after: App,
    session_after: Session,
    r: Started,
)
    requires
        tab_searched(app, session, limit, now, after, session_after, r),
    ensures
        app.tabs.search_text(app.query@).len() == 0 ==> r is Nothing && !after.searching
            && after.list() == app.list(),
        app.tabs.search_text(app.query@).len() > 0 ==> r !is Nothing,
        r matches Started::Search(order) ==> order.target.is_for(
            app.tabs.search_text(app.query@),
        ) && order.limit == limit,
{
}

/// A tab that is gone to is the one that was meant. It is searched where nothing is loaded
/// of it, with as many results as are set.
pub proof fn law_tab_is_entered(
    app: App,
    session: Session,
    place: usize,
    now: u64,
    after: App,
    session_after: Session,
    r: Started,
)
    requires
        app.wf(),
        app.channel is None,
        place < app.tabs.states@.len(),
        tab_entered(app, session, place as int, now, after, session_after, r),
    ensures
        after.tabs.selected == place,
        r !is Served ==> after.list() == app.tabs.states@[place as int].results@,
        r matches Started::Search(order) ==> !app.tabs.states@[place as int].loaded && order.limit
            == app.settings.search.limit && after.searching,
        app.tabs.states@[place as int].loaded ==> r is Nothing,
        session_after.search_nonce != session.search_nonce,
{
    let free = without_search(app);
    let shown = choose|shown: App| #[trigger]
        tab_shown(free, place as int, shown) && tab_loaded(
            without_error(shown),
            search_cancelled(session),
            now,
            after,
            session_after,
            r,
        );
    law_tabs_keep_their_lists(free, place, shown);
    let cleared = without_error(shown);
    assert(cleared.tabs.selected == place);
    let mid = search_cancelled(session);
    assert(mid.search_nonce != session.search_nonce);
    lemma_tab_loaded(cleared, mid, now, after, session_after, r);
}

proof fn lemma_tab_loaded(
    app: App,
    session: Session,
    now: u64,
    after: App,
    session_after: Session,
    r: Started,
)
    requires
        app.channel is None,
        tab_loaded(app, session, now, after, session_after, r),
    ensures
        after.tabs.selected == app.tabs.selected,
        r !is Served ==> after.list() == app.list(),
        app.tabs.current().loaded ==> r is Nothing && session_after == session,
        r matches Started::Search(order) ==> !app.tabs.current().loaded && order.limit
            == app.settings.search.limit && after.searching,
{
}

/// The next tab is the one after the selected one and round, and the one before is before.
pub proof fn law_switching_goes_to_the_tab_beside(tabs: Tabs)
    requires
        tabs.wf(),
    ensures
        tabs.selected + 1 < tabs.categories@.len() ==> place_beside(tabs, true) == tabs.selected
            + 1,
        tabs.selected + 1 == tabs.categories@.len() ==> place_beside(tabs, true) == 0,
        tabs.selected > 0 ==> place_beside(tabs, false) + 1 == tabs.selected,
        tabs.selected == 0 ==> place_beside(tabs, false) + 1 == tabs.categories@.len(),
{
    crate::category::law_tabs_beside(tabs);
}

/// A click goes to the tab that was clicked. On the selected tab it searches only where
/// nothing is loaded or on its way, and beside the tabs it does nothing.
pub proof fn law_click_goes_to_its_tab(
    app: App,
    session: Session,
    index: usize,
    now: u64,
    after: App,
    session_after: Session,
    r: Started,
)
    requires
        app.wf(),
        tab_clicked(app, session, index, now, after, session_after, r),
    ensures
        index == app.tabs.selected && (app.searching || app.tabs.current().loaded) ==> r is Nothing
            && after == app && session_after == session,
        index >= app.tabs.categories@.len() ==> r is Nothing && session_after == session
            && after.tabs.selected == app.tabs.selected && after.list() == app.list(),
        index < app.tabs.categories@.len() && index != app.tabs.selected ==> tab_entered(
            app,
            session,
            index as int,
            now,
            after,
            session_after,
            r,
        ),
        index == app.tabs.selected && !app.searching && !app.tabs.current().loaded ==> tab_searched(
            without_error(app),
            session,
            app.settings.search.limit,
            now,
            after,
            session_after,
            r,
        ),
{
}

/// A fresh list is asked for with as many results as are set, or as the list was stretched
/// to, whichever is more; it is never taken from what is kept, and the old list stays until
/// it comes.
pub proof fn law_reload_asks_afresh(
    app: App,
    session: Session,
    now: u64,
    after: App,
    session_after: Session,
    r: Started,
)
    requires
        app.wf(),
        tab_reloaded(app, session, now, after, session_after, r),
    ensures
        reload_limit(app) >= app.settings.search.limit,
        reload_limit(app) >= app.kept().requested_limit,
        reload_limit(app) == app.settings.search.limit || reload_limit(app)
            == app.kept().requested_limit,
        r !is Served,
        r matches Started::Search(order) ==> order.limit == reload_limit(app)
            && order.target.is_for(app.tabs.search_text(app.query@)),
        after.list() == app.list(),
        after.place() == app.place(),
        app.tabs.search_text(app.query@).len() > 0 ==> after.kept().reload && !after.kept().loaded,
{
    let marked = choose|marked: App| #[trigger]
        reload_wanted(app, marked) && tab_searched(
            marked,
            session,
            reload_limit(app),
            now,
            after,
            session_after,
            r,
        );
    assert(marked.kept().reload);
    assert(marked.list() == app.list());
    assert(marked.tabs.search_text(marked.query@) == app.tabs.search_text(app.query@));
}

/// More is asked for by one portion more than there is, up to a thousand; only the list of
/// a search that was answered in full can get longer, and else nothing happens.
pub proof fn law_more_only_of_a_full_search(
    app: App,
    session: Session,
    now: u64,
    after: App,
    session_after: Session,
    r: Started,
)
    requires
        more_loaded(app, session, now, after, session_after, r),
    ensures
        !app.more_there() ==> r is Nothing && after == app && session_after == session,
        app.list().len() + app.settings.search.limit <= 1000 ==> longer_limit(app)
            == app.list().len() + app.settings.search.limit,
        app.list().len() + app.settings.search.limit > 1000 ==> longer_limit(app) == 1000,
        r matches Started::Search(order) ==> order.limit == longer_limit(app)
            && order.target.is_for(app.tabs.search_text(app.query@)),
        app.more_there() && app.tabs.search_text(app.query@).len() > 0 && Feed::asked(
            trimmed(app.tabs.search_text(app.query@)),
        ) is None ==> r !is Nothing,
{
}

/// A tab of a channel searches that channel and that tab.
pub proof fn law_channel_tab_searches_itself(
    app: App,
    session: Session,
    now: u64,
    after: App,
    session_after: Session,
    r: Started,
)
    requires
        channel_searched(app, session, now, after, session_after, r),
    ensures
        app.channel is None ==> r is Nothing && after == app && session_after == session,
        r matches Started::Search(order) ==> (app.channel matches Some(channel) && order.target == (
        Target::Channel { id: channel.channel_id, tab: channel.tab }) && order.limit
            == app.settings.search.limit),
        app.channel is Some ==> r is Search || r is Served,
{
}

/// A channel that is gone to is shown with its videos first, and these are searched for.
pub proof fn law_channel_is_entered(
    app: App,
    session: Session,
    channel_id: String,
    title: String,
    now: u64,
    after: App,
    session_after: Session,
    r: Started,
)
    requires
        app.wf(),
        channel_entered(app, session, channel_id, title, now, after, session_after, r),
    ensures
        r is Search || r is Served,
        r matches Started::Search(order) ==> {
            &&& order.target == (Target::Channel { id: channel_id, tab: ChannelTab::Videos })
            &&& after.mode == Mode::Channel
            &&& after.list().len() == 0
            &&& after.channel matches Some(view) && view.channel_id == channel_id
                && view.channel_title == title && view.tab == ChannelTab::Videos
        },
{
}

/// A row that names its channel leads there, under the uploader's name; for one that does
/// not, the channel of its video is looked for, and the list stays.
pub proof fn law_row_leads_to_its_channel(
    app: App,
    session: Session,
    now: u64,
    after: App,
    session_after: Session,
    r: Started,
)
    requires
        app.wf(),
        selected_channel_opened(app, session, now, after, session_after, r),
    ensures
        app.place() >= app.list().len() ==> r is Nothing && after == app && session_after
            == session,
        app.place() < app.list().len() ==> {
            let row = app.list()[app.place() as int];
            &&& row.channel_id is None ==> {
                &&& r matches Started::Lookup(order) && order.video_id == row.id && order.url@
                    == row.address() && order.nonce == session_after.channel_lookup_nonce
                    && order.nonce != session.channel_lookup_nonce
                &&& session_after.channel_lookup_task
                &&& session_after.search_task == session.search_task
                &&& after.list() == app.list()
                &&& after.channel == app.channel
                &&& after.notice is Some && after.notice_until is None
            }
            &&& row.channel_id matches Some(id) ==> (r matches Started::Search(order)
                ==> order.target == (Target::Channel { id, tab: ChannelTab::Videos }) && (
            after.channel matches Some(view) && view.channel_id == id && view.channel_title == (
            match row.uploader {
                Some(name) => name,
                None => id,
            })))
        },
{
    if app.place() < app.list().len() {
        let row = app.list()[app.place() as int];
        if let Some(id) = row.channel_id {
            let title = match row.uploader {
                Some(name) => name,
                None => id,
            };
            law_channel_is_entered(app, session, id, title, now, after, session_after, r);
        }
    }
}

/// The tab beside is that of the same channel, with the lists that it keeps.
pub proof fn law_channel_tab_beside(channel: ChannelView, forward: bool)
    ensures
        tab_beside(channel, forward).channel_id == channel.channel_id,
        tab_beside(channel, forward).videos == channel.videos,
        tab_beside(channel, forward).shorts == channel.shorts,
        tab_beside(channel, forward).streams == channel.streams,
        forward && channel.tab.place() < 2 ==> tab_beside(channel, forward).tab.place()
            == channel.tab.place() + 1,
        !forward && channel.tab.place() > 0 ==> tab_beside(channel, forward).tab.place() + 1
            == channel.tab.place(),
        tab_beside(tab_beside(channel, forward), !forward) == channel,
{
}

/// A tab of a channel that is loaded is shown as it is, and one that is not is searched.
pub proof fn law_loaded_channel_tab_is_not_searched(
    app: App,
    session: Session,
    view: ChannelView,
    now: u64,
    after: App,
    session_after: Session,
    r: Started,
)
    requires
        channel_tab_entered(app, session, view, now, after, session_after, r),
    ensures
        view.current().loaded ==> r is Nothing && after.channel == Some(view) && after.list()
            == view.current().results@ && !session_after.search_task && after.error is None,
        !view.current().loaded ==> r is Search || r is Served,
        r matches Started::Search(order) ==> order.target == (Target::Channel {
            id: view.channel_id,
            tab: view.tab,
        }) && after.channel == Some(view),
{
}

/// A click goes to the tab of the channel that was clicked, if there is one; on the
/// selected tab it searches only where nothing is loaded or on its way.
pub proof fn law_click_goes_to_its_channel_tab(
    app: App,
    session: Session,
    channel: ChannelView,
    index: usize,
    now: u64,
    after: App,
    session_after: Session,
    r: Started,
)
    requires
        app.channel == Some(channel),
        channel_tab_clicked(app, session, channel, index, now, after, session_after, r),
    ensures
        index >= 3 ==> r is Nothing && after == app && session_after == session,
        index == channel.tab.place() && (channel.current().loaded || app.searching) ==> r is Nothing
            && after == app && session_after == session,
        index == channel.tab.place() && !channel.current().loaded && !app.searching ==> r is Search
            || r is Served,
        index < 3 && index != channel.tab.place() && r is Search ==> (
        r->Search_0.target matches Target::Channel { id, tab } && id == channel.channel_id
            && tab.place() == index),
{
    if index < 3 && index != channel.tab.place() {
        let tab = choose|tab: ChannelTab| #[trigger]
            tab.place() == index && channel_tab_entered(
                app,
                session,
                ChannelView { tab, ..channel },
                now,
                after,
                session_after,
                r,
            );
        law_loaded_channel_tab_is_not_searched(
            app,
            session,
            ChannelView { tab, ..channel },
            now,
            after,
            session_after,
            r,
        );
    }
}

} // verus!
