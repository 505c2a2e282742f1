use tuitube::actions::{
    enter_channel, leave_channel, load_more, open_channel, reload_channel_tab, reload_tab,
    select_channel_tab, select_tab, start_search, start_tab_search, switch_channel_tab,
    switch_tab, LookupOrder, SearchOrder, Started, CHANNEL_LOOKUP_NOTICE,
};
use tuitube::app::{App, ChannelView, Mode};
use tuitube::cookies::{ChannelTab, CookieSource, CookieState, Feed, Target};
use tuitube::rect::Rect;
use tuitube::search::SearchResult;
use tuitube::session::{
    cache_key, cached_results, cancel_search, remember_search, Session, CACHE_CAPACITY,
};
use tuitube::settings::MAX_SEARCH_LIMIT;

const NOW: u64 = 1_000_000;

fn result(id: &str) -> SearchResult {
    SearchResult {
        id: id.to_string(),
        title: format!("title {id}"),
        duration: None,
        uploader: None,
        channel_id: None,
        is_live: false,
    }
}

fn grid_app(count: usize) -> App {
    let mut app = App {
        mode: Mode::Results,
        screen: Rect::new(0, 0, 80, 24),
        ..App::default()
    };
    let results: Vec<SearchResult> = (0..count).map(|i| result(&format!("id{i}"))).collect();
    app.set_results(results, &Target::Search("q".to_string()));
    app.thumbs.take_dirty();
    app
}

fn channel_grid_app() -> App {
    let mut app = App {
        mode: Mode::Results,
        screen: Rect::new(0, 0, 80, 24),
        ..App::default()
    };
    let results = vec![
        SearchResult {
            uploader: Some("One Channel".to_string()),
            channel_id: Some("UCone".to_string()),
            ..result("id0")
        },
        SearchResult {
            uploader: Some("Two Channel".to_string()),
            channel_id: Some("UCtwo".to_string()),
            ..result("id1")
        },
    ];
    app.set_results(results, &Target::Search("q".to_string()));
    app.thumbs.take_dirty();
    app
}

/// What a search that was started is to fetch.
fn ordered(started: Started) -> SearchOrder {
    match started {
        Started::Search(order) => order,
        other => panic!("not a search: {other:?}"),
    }
}

fn looked_up(started: Started) -> LookupOrder {
    match started {
        Started::Lookup(order) => order,
        other => panic!("not a lookup: {other:?}"),
    }
}

fn pending_lookup(app: &mut App, session: &mut Session) -> u64 {
    open_channel(app, session, NOW);
    assert!(session.channel_lookup_task, "引きが積まれている");
    session.channel_lookup_nonce
}

fn channel_app_with_lookup(session: &mut Session) -> (App, u64) {
    let mut app = channel_grid_app();
    open_channel(&mut app, session, NOW);
    let target = channel_target(&app);
    app.set_results(vec![result("v0")], &target);
    let running = pending_lookup(&mut app, session);
    (app, running)
}

fn channel_target(app: &App) -> Target {
    app.channel.as_ref().expect("channel").target()
}

fn select_tab_by_label(app: &mut App, session: &mut Session, label: &str) {
    let index = tab_index(app, label);
    while app.tabs.selected() != index {
        switch_tab(app, session, true, NOW);
    }
}

fn tab_index(app: &App, label: &str) -> usize {
    app.tabs
        .labels()
        .iter()
        .position(|it| *it == label)
        .unwrap_or_else(|| panic!("{label} のタブがない"))
}

fn cache_app(ttl_secs: u64) -> App {
    let mut app = App {
        query: String::from("ラーメン"),
        ..App::default()
    };
    app.settings.search.cache_enabled = true;
    app.settings.search.cache_ttl_secs = ttl_secs;
    app.settings.thumbnails.enabled = false;
    app
}

fn prime_cache(
    app: &App,
    session: &mut Session,
    target: &Target,
    results: Vec<SearchResult>,
    now: u64,
) {
    session.pending_cache_key = Some(cache_key(
        target,
        app.settings.search.limit,
        app.cookies.for_search().is_some(),
    ));
    remember_search(session, &results, app.settings.search.cache_ttl_secs * 1000, now);
}

fn ramen() -> Target {
    Target::Search("ラーメン".to_string())
}

#[test]
fn a_blank_query_does_not_start_a_search() {
    let mut session = Session::default();
    let mut app = App {
        query: String::from("   "),
        ..App::default()
    };
    start_search(&mut app, &mut session, NOW);

    assert!(!app.searching);
    assert_eq!(session.search_nonce, 0);
    assert!(!session.search_task);
}

#[test]
fn search_bumps_the_nonce_and_clears_the_error() {
    let mut session = Session::default();
    let mut app = App {
        query: String::from("  ラーメン  "),
        error: Some("boom".to_string()),
        ..App::default()
    };
    start_search(&mut app, &mut session, NOW);

    assert_eq!(session.search_nonce, 1);
    assert!(app.searching);
    assert!(app.error.is_none());
    assert!(session.search_task);
}

#[test]
fn feed_requiring_login_is_refused_before_spawning_when_cookies_are_off() {
    let mut session = Session::default();
    let mut app = App {
        query: String::from(":ytrec"),
        ..App::default()
    };
    start_search(&mut app, &mut session, NOW);

    assert!(!session.search_task, "yt-dlp を起動しない");
    assert_eq!(session.search_nonce, 1);
    assert!(!app.searching);
    let error = app.error.expect("理由を出す");
    assert!(error.contains("[cookies] browser"), "{error}");
}

#[test]
fn a_refused_feed_cancels_the_search_in_flight() {
    let mut session = Session::default();
    let mut app = App {
        query: String::from("ラーメン"),
        notice: Some("前の検索の知らせ".to_string()),
        ..App::default()
    };
    start_search(&mut app, &mut session, NOW);
    assert!(app.searching);

    app.query = ":ytrec".to_string();
    start_search(&mut app, &mut session, NOW);

    assert!(!session.search_task);
    assert_eq!(session.search_nonce, 2);
    assert!(!app.searching);
    assert!(app.notice.is_none());
    let error = app.error.expect("理由を出す");
    assert!(error.contains("[cookies] browser"), "{error}");
}

#[test]
fn feed_requiring_login_is_refused_when_suspended() {
    let mut session = Session::default();
    let mut app = App {
        query: String::from(":ythis"),
        cookies: CookieState::Suspended {
            source: CookieSource::from_spec(Some("chrome")).expect("spec"),
            reason: "cookie を読めませんでした".to_string(),
        },
        ..App::default()
    };
    start_search(&mut app, &mut session, NOW);

    assert!(!session.search_task);
    let error = app.error.expect("理由を出す");
    assert!(error.contains("停止中"), "{error}");
    assert!(error.contains("cookie を読めませんでした"), "{error}");
}

#[test]
fn start_search_clears_the_notice() {
    let mut session = Session::default();
    let mut app = App {
        query: String::from("ラーメン"),
        notice: Some("前の検索の知らせ".to_string()),
        ..App::default()
    };
    start_search(&mut app, &mut session, NOW);

    assert!(app.notice.is_none());
    assert!(session.search_task);
}

#[test]
fn a_search_waits_as_long_as_the_setting_says() {
    let mut session = Session::default();
    let mut app = App {
        query: String::from("ラーメン"),
        ..App::default()
    };
    app.settings.search.timeout_secs = 45;
    let order = ordered(start_search(&mut app, &mut session, NOW));
    assert_eq!(order.timeout_secs, 45);
    assert_eq!(order.target, ramen());
    assert_eq!(order.cookies, None);
}

#[test]
fn open_channel_searches_the_video_tab_of_the_selected_result() {
    let mut session = Session::default();
    let mut app = channel_grid_app();
    app.selected = 1;
    app.scroll = 0;

    let order = ordered(open_channel(&mut app, &mut session, NOW));

    assert_eq!(app.mode, Mode::Channel);
    let channel = app.channel.as_ref().expect("チャンネルへ移る");
    assert_eq!(channel.channel_id, "UCtwo");
    assert_eq!(channel.channel_title, "Two Channel");
    assert_eq!(channel.tab, ChannelTab::Videos);
    assert_eq!(app.result_ids(), ["id0", "id1"], "検索結果は残す");
    assert_eq!(app.tabs.state().selected, 1, "戻る位置を控える");

    assert_eq!(
        order.target.yt_dlp_url(order.limit),
        "https://www.youtube.com/channel/UCtwo/videos"
    );
}

#[test]
fn open_channel_looks_the_channel_up_when_the_row_has_no_id() {
    let mut session = Session::default();
    let mut app = grid_app(2);
    app.selected = 1;
    let searching = session.search_nonce;

    let order = looked_up(open_channel(&mut app, &mut session, NOW));

    assert!(app.channel.is_none(), "取れるまでは移らない");
    assert_eq!(app.mode, Mode::Results);
    assert_eq!(app.notice.as_deref(), Some(CHANNEL_LOOKUP_NOTICE));
    assert!(
        app.notice_until.is_none(),
        "引きが返るまで待つので期限では消さない"
    );
    assert_eq!(session.search_nonce, searching, "走っている検索は止めない");

    assert_eq!(order.nonce, session.channel_lookup_nonce);
    assert_eq!(order.video_id, "id1");
    assert_eq!(order.url, "https://www.youtube.com/watch?v=id1");
}

#[test]
fn open_channel_skips_the_lookup_when_the_row_already_has_the_id() {
    let mut session = Session::default();
    let mut app = channel_grid_app();

    open_channel(&mut app, &mut session, NOW);

    assert!(!session.channel_lookup_task, "引き直さない");
    assert_eq!(app.mode, Mode::Channel);
    assert_eq!(app.channel.as_ref().expect("channel").channel_id, "UCone");
}

#[test]
fn open_channel_does_nothing_without_a_selected_result() {
    let mut session = Session::default();
    let mut app = App::default();

    open_channel(&mut app, &mut session, NOW);

    assert!(app.channel.is_none());
    assert!(!session.channel_lookup_task);
    assert!(app.notice.is_none());
}

#[test]
fn pressing_the_channel_key_again_abandons_the_first_lookup() {
    let mut session = Session::default();
    let mut app = grid_app(2);
    let first = pending_lookup(&mut app, &mut session);

    app.selected = 1;
    open_channel(&mut app, &mut session, NOW);

    assert_ne!(session.channel_lookup_nonce, first);
}

#[test]
fn entering_a_channel_opens_its_video_tab() {
    let mut session = Session::default();
    let mut app = grid_app(2);
    app.selected = 1;

    let order = ordered(enter_channel(
        &mut app,
        &mut session,
        "UCfeed".to_string(),
        "Feed Channel".to_string(),
        NOW,
    ));

    assert_eq!(app.mode, Mode::Channel);
    let channel = app.channel.as_ref().expect("チャンネルへ移る");
    assert_eq!(channel.channel_id, "UCfeed");
    assert_eq!(channel.channel_title, "Feed Channel");
    assert_eq!(channel.tab, ChannelTab::Videos);
    assert_eq!(app.tabs.state().selected, 1, "戻る位置を控える");

    assert_eq!(
        order.target.yt_dlp_url(order.limit),
        "https://www.youtube.com/channel/UCfeed/videos"
    );
}

#[test]
fn switching_tabs_drops_a_running_channel_lookup() {
    let mut session = Session::default();
    let mut app = grid_app(2);
    let running = pending_lookup(&mut app, &mut session);

    switch_tab(&mut app, &mut session, true, NOW);

    assert!(!session.channel_lookup_task);
    assert_ne!(session.channel_lookup_nonce, running);
}

#[test]
fn selecting_a_tab_drops_a_running_channel_lookup() {
    let mut session = Session::default();
    let mut app = grid_app(2);
    let running = pending_lookup(&mut app, &mut session);

    select_tab(&mut app, &mut session, 1, NOW);

    assert!(!session.channel_lookup_task);
    assert_ne!(session.channel_lookup_nonce, running);
}

#[test]
fn starting_a_search_drops_a_running_channel_lookup() {
    let mut session = Session::default();
    let mut app = grid_app(2);
    app.query = String::from("q");
    let running = pending_lookup(&mut app, &mut session);

    start_search(&mut app, &mut session, NOW);

    assert!(!session.channel_lookup_task);
    assert_ne!(session.channel_lookup_nonce, running);
}

#[test]
fn entering_a_channel_drops_a_running_channel_lookup() {
    let mut session = Session::default();
    let mut app = channel_grid_app();
    app.set_results(
        vec![
            result("id0"),
            SearchResult {
                channel_id: Some("UCtwo".to_string()),
                ..result("id1")
            },
        ],
        &Target::Search("q".to_string()),
    );
    let running = pending_lookup(&mut app, &mut session);

    app.selected = 1;
    open_channel(&mut app, &mut session, NOW);

    assert_eq!(app.mode, Mode::Channel);
    assert!(!session.channel_lookup_task);
    assert_ne!(session.channel_lookup_nonce, running);
}

#[test]
fn switching_channel_tabs_drops_a_running_channel_lookup() {
    let mut session = Session::default();
    let (mut app, running) = channel_app_with_lookup(&mut session);

    switch_channel_tab(&mut app, &mut session, true, NOW);

    assert!(!session.channel_lookup_task);
    assert_ne!(session.channel_lookup_nonce, running);
}

#[test]
fn selecting_a_channel_tab_drops_a_running_channel_lookup() {
    let mut session = Session::default();
    let (mut app, running) = channel_app_with_lookup(&mut session);

    select_channel_tab(&mut app, &mut session, 2, NOW);

    assert!(!session.channel_lookup_task);
    assert_ne!(session.channel_lookup_nonce, running);
}

#[test]
fn leaving_a_channel_drops_a_running_channel_lookup() {
    let mut session = Session::default();
    let (mut app, running) = channel_app_with_lookup(&mut session);

    leave_channel(&mut app, &mut session);

    assert!(!session.channel_lookup_task);
    assert_ne!(session.channel_lookup_nonce, running);
}

#[test]
fn switching_channel_tabs_searches_each_tab_once() {
    let mut session = Session::default();
    let mut app = channel_grid_app();

    open_channel(&mut app, &mut session, NOW);
    session.search_task = false;
    let target = channel_target(&app);
    app.set_results(vec![result("v0"), result("v1")], &target);
    app.set_view_selected(1);

    let order = ordered(switch_channel_tab(&mut app, &mut session, true, NOW));
    assert_eq!(
        app.channel.as_ref().expect("channel").tab,
        ChannelTab::Shorts
    );
    assert!(session.search_task, "未読のタブは検索する");
    assert_eq!(
        order.target.yt_dlp_url(order.limit),
        "https://www.youtube.com/channel/UCone/shorts"
    );
    session.search_task = false;
    let target = channel_target(&app);
    app.set_results(vec![result("s0")], &target);

    switch_channel_tab(&mut app, &mut session, false, NOW);
    assert_eq!(
        app.channel.as_ref().expect("channel").tab,
        ChannelTab::Videos
    );
    assert!(!session.search_task, "読み込み済みのタブは投げ直さない");
    assert_eq!(app.view_result_ids(), ["v0", "v1"]);
    assert_eq!(app.view_selected(), 1, "タブごとの選択を持ち越す");
}

#[test]
fn reloading_a_channel_tab_searches_it_again() {
    let mut session = Session::default();
    let mut app = channel_grid_app();
    open_channel(&mut app, &mut session, NOW);
    session.search_task = false;
    let target = channel_target(&app);
    app.set_results(Vec::new(), &target);
    assert!(app.channel.as_ref().expect("channel").state().loaded);

    reload_channel_tab(&mut app, &mut session, NOW);

    assert!(session.search_task, "同じタブを取りに行く");
    assert!(!app.channel.as_ref().expect("channel").state().loaded);
    assert!(app.searching);
}

#[test]
fn reloading_does_nothing_outside_a_channel() {
    let mut session = Session::default();
    let mut app = channel_grid_app();

    reload_channel_tab(&mut app, &mut session, NOW);

    assert!(!session.search_task);
    assert!(!app.searching);
}

#[test]
fn switching_channel_tabs_drops_the_running_search() {
    let mut session = Session::default();
    let mut app = channel_grid_app();
    open_channel(&mut app, &mut session, NOW);
    let running = session.search_nonce;

    switch_channel_tab(&mut app, &mut session, true, NOW);
    assert_ne!(
        session.search_nonce, running,
        "先に走っていた検索を移った先のタブへ書き込ませない"
    );
    assert!(app.searching, "移った先の検索が走る");
}

#[test]
fn leaving_the_channel_returns_to_the_search_results() {
    let mut session = Session::default();
    let mut app = channel_grid_app();
    app.selected = 1;
    open_channel(&mut app, &mut session, NOW);
    let running = session.search_nonce;
    let target = channel_target(&app);
    app.set_results(vec![result("v0")], &target);

    leave_channel(&mut app, &mut session);

    assert!(app.channel.is_none());
    assert_eq!(app.mode, Mode::Results);
    assert_eq!(app.view_result_ids(), ["id0", "id1"]);
    assert_eq!(app.view_selected(), 1, "元の選択へ戻る");
    assert_ne!(session.search_nonce, running, "走らせたままにしない");
    assert!(!app.searching);
}

#[test]
fn the_channel_thumbnails_are_fetched_for_the_channel_videos() {
    let mut session = Session::default();
    let mut app = channel_grid_app();
    open_channel(&mut app, &mut session, NOW);
    let target = channel_target(&app);
    app.set_results(vec![result("v0"), result("v1")], &target);

    assert_eq!(
        app.thumbs.wanted(&app.view_result_ids(), (144, 80)),
        ["v0", "v1"]
    );
}

#[test]
fn switch_tab_searches_only_a_tab_that_has_not_loaded_yet() {
    let mut session = Session::default();
    let mut app = App {
        query: String::from("ラーメン"),
        ..App::default()
    };
    switch_tab(&mut app, &mut session, true, NOW);

    assert_eq!(app.tabs.selected(), 1);
    assert!(session.search_task, "未読のタブは検索する");
    assert!(app.searching);

    app.set_results(vec![result("a")], &Target::Search("音楽".to_string()));
    session.search_task = false;
    app.searching = false;
    switch_tab(&mut app, &mut session, false, NOW);
    assert!(app.tabs.is_all());
    session.search_task = false;
    switch_tab(&mut app, &mut session, true, NOW);
    assert!(
        !session.search_task,
        "保持していた結果をそのまま出す"
    );
    assert_eq!(app.results.len(), 1);
}

#[test]
fn select_tab_jumps_to_the_given_tab_and_searches_it_once() {
    let mut session = Session::default();
    let mut app = App::default();

    select_tab(&mut app, &mut session, 3, NOW);
    assert_eq!(app.tabs.selected(), 3, "隣ではなく押されたタブへ移る");
    assert!(session.search_task, "未読のタブは検索する");
    assert!(app.searching);

    app.set_results(vec![result("a")], &Target::Search("ニュース".to_string()));
    session.search_task = false;
    app.searching = false;
    select_tab(&mut app, &mut session, 1, NOW);
    session.search_task = false;
    select_tab(&mut app, &mut session, 3, NOW);
    assert!(
        !session.search_task,
        "保持していた結果をそのまま出す"
    );
    assert_eq!(app.result_ids(), ["a"]);
}

#[test]
fn select_tab_drops_the_running_search_of_the_tab_it_leaves() {
    let mut session = Session::default();
    let mut app = grid_app(1);
    select_tab(&mut app, &mut session, 2, NOW);
    let running = session.search_nonce;
    assert!(session.search_task);

    select_tab(&mut app, &mut session, 0, NOW);
    assert!(app.tabs.is_all());
    assert!(!session.search_task, "走らせたままにしない");
    assert!(!app.searching);
    assert_ne!(
        session.search_nonce, running,
        "先に走っていた検索の結果を移った先のタブへ書き込ませない"
    );
    assert_eq!(app.result_ids(), ["id0"], "保持していた結果のまま");
}

#[test]
fn select_tab_leaves_the_current_tab_and_its_search_alone() {
    let mut session = Session::default();
    let mut app = App::default();
    select_tab(&mut app, &mut session, 2, NOW);
    let running = session.search_nonce;
    assert!(session.search_task);

    select_tab(&mut app, &mut session, 2, NOW);
    assert_eq!(app.tabs.selected(), 2);
    assert!(session.search_task);
    assert_eq!(session.search_nonce, running);
    assert!(app.searching);
}

#[test]
fn select_tab_does_not_search_a_loaded_tab_that_is_clicked_again() {
    let mut session = Session::default();
    let mut app = grid_app(2);
    assert!(app.tabs.state().loaded);
    let current = app.tabs.selected();

    select_tab(&mut app, &mut session, current, NOW);
    assert!(
        !session.search_task,
        "読み込み済みなら投げ直さない"
    );
    assert!(!app.searching);
    assert_eq!(app.result_ids(), ["id0", "id1"]);
}

#[test]
fn select_tab_ignores_an_index_that_does_not_exist() {
    let mut session = Session::default();
    let mut app = App::default();
    select_tab(&mut app, &mut session, 1, NOW);
    let running = session.search_nonce;

    let outside = app.tabs.labels().len();
    select_tab(&mut app, &mut session, outside, NOW);
    assert_eq!(app.tabs.selected(), 1, "選択は動かさない");
    assert!(session.search_task, "走っている検索も止めない");
    assert_eq!(session.search_nonce, running);
}

#[test]
fn switching_to_a_loaded_tab_drops_the_running_search() {
    let mut session = Session::default();
    let mut app = grid_app(1);
    switch_tab(&mut app, &mut session, true, NOW);
    let running = session.search_nonce;
    assert!(session.search_task);
    assert!(app.searching);

    switch_tab(&mut app, &mut session, false, NOW);
    assert!(app.tabs.is_all());
    assert!(!session.search_task, "走らせたままにしない");
    assert!(!app.searching, "検索中の表示が残らない");
    assert_ne!(
        session.search_nonce, running,
        "先に走っていた検索の結果を移った先のタブへ書き込ませない"
    );
    assert_eq!(app.result_ids(), ["id0"], "保持していた結果のまま");
}

#[test]
fn a_reload_that_cannot_search_still_drops_the_running_one() {
    let mut session = Session::default();
    let mut app = grid_app(1);
    app.query = "ラーメン".to_string();
    reload_tab(&mut app, &mut session, NOW);
    let running = session.search_nonce;
    assert!(session.search_task);

    app.query = "".to_string();
    reload_tab(&mut app, &mut session, NOW);
    assert!(!session.search_task);
    assert!(!app.searching);
    assert_ne!(session.search_nonce, running);
}

#[test]
fn switching_tabs_carries_the_selection_of_each_tab() {
    let mut session = Session::default();
    let mut app = grid_app(10);
    app.selected = 6;
    app.scroll = 4;

    switch_tab(&mut app, &mut session, true, NOW);
    assert_eq!(app.selected, 0);
    assert!(app.results.is_empty());

    switch_tab(&mut app, &mut session, false, NOW);
    assert_eq!(app.selected, 6);
    assert_eq!(app.scroll, 4);
    assert_eq!(app.results.len(), 10);
}

#[test]
fn reload_tab_searches_the_current_tab_again() {
    let mut session = Session::default();
    let mut app = grid_app(3);
    assert!(app.tabs.state().loaded);
    app.query = "ラーメン".to_string();

    reload_tab(&mut app, &mut session, NOW);
    assert!(session.search_task);
    assert!(!app.tabs.state().loaded);
}

#[test]
fn load_more_does_nothing_before_a_tab_has_requested_a_count() {
    let mut session = Session::default();
    let mut app = grid_app(3);
    app.query = "ラーメン".to_string();

    load_more(&mut app, &mut session, NOW);

    assert!(
        !session.search_task,
        "もっと見られない間は動かない"
    );
}

#[test]
fn load_more_does_nothing_while_results_still_fall_short_of_the_request() {
    let mut session = Session::default();
    let mut app = grid_app(3);
    app.query = "ラーメン".to_string();
    app.tabs.state_mut().requested_limit = 5;

    load_more(&mut app, &mut session, NOW);

    assert!(!session.search_task);
}

#[test]
fn load_more_does_nothing_outside_a_search_tab() {
    let mut session = Session::default();
    let mut app = App::default();
    let feed_index = app
        .tabs
        .labels()
        .iter()
        .position(|label| *label == "履歴")
        .expect("履歴タブがある");
    app.tabs.select(feed_index);
    app.tabs.state_mut().requested_limit = 5;
    app.tabs.state_mut().results = (0..5).map(|i| result(&i.to_string())).collect();

    load_more(&mut app, &mut session, NOW);

    assert!(!session.search_task, "Feed タブでは動かない");
}

#[test]
fn the_cache_key_separates_targets_limits_and_cookie_use() {
    let udon = Target::Search("うどん".to_string());
    assert_ne!(cache_key(&ramen(), 20, false), cache_key(&udon, 20, false));
    assert_ne!(
        cache_key(&ramen(), 20, false),
        cache_key(&ramen(), 50, false)
    );
    assert_ne!(
        cache_key(&ramen(), 20, false),
        cache_key(&ramen(), 20, true)
    );
    assert_eq!(cache_key(&ramen(), 20, true), cache_key(&ramen(), 20, true));

    let videos = Target::Channel {
        id: "UCabc".to_string(),
        tab: ChannelTab::Videos,
    };
    let shorts = Target::Channel {
        id: "UCabc".to_string(),
        tab: ChannelTab::Shorts,
    };
    assert_ne!(cache_key(&videos, 20, false), cache_key(&shorts, 20, false));
    assert_ne!(
        cache_key(&videos, 20, false),
        cache_key(&Target::Feed(Feed::History), 20, false)
    );
}

#[test]
fn a_cached_search_is_served_without_running_yt_dlp() {
    let mut session = Session::default();
    let mut app = cache_app(300);
    prime_cache(&app, &mut session, &ramen(), vec![result("a"), result("b")], NOW);

    start_search(&mut app, &mut session, NOW);

    assert!(!session.search_task, "yt-dlp を起動しない");
    assert!(!app.searching);
    assert_eq!(app.result_ids(), ["a", "b"]);
    assert_eq!(app.mode, Mode::Results);
}

#[test]
fn a_cache_hit_still_updates_the_requested_limit() {
    let mut session = Session::default();
    let mut app = cache_app(300);
    app.tabs.state_mut().requested_limit = 20;
    prime_cache(&app, &mut session, &ramen(), vec![result("a"), result("b")], NOW);

    start_search(&mut app, &mut session, NOW);

    assert!(!session.search_task, "yt-dlp を起動しない");
    assert_eq!(
        app.tabs.state().requested_limit,
        app.settings.search.limit,
        "AppEvent::SearchDone を経由しない控え命中でも今回の要求件数に更新される"
    );
}

#[test]
fn the_cache_is_ignored_while_the_setting_is_off() {
    let mut session = Session::default();
    let mut app = cache_app(300);
    prime_cache(&app, &mut session, &ramen(), vec![result("a")], NOW);
    app.settings.search.cache_enabled = false;

    start_search(&mut app, &mut session, NOW);

    assert!(session.search_task, "毎回取り直す");
    assert!(app.searching);
    assert!(app.results.is_empty());
}

#[test]
fn reload_ignores_the_cache_and_fetches_again() {
    let mut session = Session::default();
    let mut app = cache_app(300);
    prime_cache(&app, &mut session, &ramen(), vec![result("a")], NOW);

    reload_tab(&mut app, &mut session, NOW);

    assert!(session.search_task, "r は常に取り直す");
    assert!(app.searching);
    assert!(app.results.is_empty());
}

#[test]
fn reloading_a_channel_tab_ignores_the_cache() {
    let mut session = Session::default();
    let mut app = cache_app(300);
    app.channel = Some(ChannelView::new(
        "UCabc".to_string(),
        "Some Channel".to_string(),
    ));
    let target = app.channel.as_ref().expect("channel").target();
    prime_cache(&app, &mut session, &target, vec![result("a")], NOW);

    reload_channel_tab(&mut app, &mut session, NOW);

    assert!(session.search_task, "r は常に取り直す");
    assert!(app.view_results().is_empty());
}

#[test]
fn a_search_with_cookies_is_not_served_to_one_without_them() {
    let mut session = Session::default();
    let mut app = cache_app(300);
    app.cookies = CookieState::Active(CookieSource::from_spec(Some("chrome")).expect("spec"));
    prime_cache(&app, &mut session, &ramen(), vec![result("a")], NOW);

    app.cookies = CookieState::Off;
    start_search(&mut app, &mut session, NOW);
    assert!(session.search_task, "cookie 無しでは取り直す");

    app.cookies = CookieState::Active(CookieSource::from_spec(Some("chrome")).expect("spec"));
    start_search(&mut app, &mut session, NOW);
    assert!(!session.search_task);
    assert_eq!(app.result_ids(), ["a"]);
}

#[test]
fn a_cache_hit_leaves_the_cookie_state_alone() {
    let mut session = Session::default();
    let mut app = cache_app(300);
    let armed = CookieState::Armed(CookieSource::from_spec(Some("chrome")).expect("spec"));
    app.cookies = armed.clone();
    prime_cache(&app, &mut session, &ramen(), vec![result("a")], NOW);

    start_search(&mut app, &mut session, NOW);

    assert!(!session.search_task);
    assert_eq!(app.cookies, armed, "取りに行っていないので確認もしない");
}

#[test]
fn a_refused_feed_is_not_served_from_the_cache() {
    let mut session = Session::default();
    let mut app = cache_app(300);
    app.cookies = CookieState::Active(CookieSource::from_spec(Some("chrome")).expect("spec"));
    let target = Target::Feed(Feed::History);
    prime_cache(&app, &mut session, &target, vec![result("a")], NOW);

    app.cookies = CookieState::Off;
    app.query = ":ythis".to_string();
    start_search(&mut app, &mut session, NOW);

    assert!(!session.search_task);
    assert!(app.results.is_empty());
    assert!(app.error.is_some(), "理由を出す");
}

#[test]
fn a_search_is_not_kept_while_the_setting_is_off() {
    let mut session = Session::default();
    let mut app = cache_app(300);
    app.settings.search.cache_enabled = false;

    start_search(&mut app, &mut session, NOW);

    assert!(session.search_task);
    assert!(
        session.pending_cache_key.is_none(),
        "off の間は控え先を作らない"
    );
}

#[test]
fn a_search_is_kept_while_the_setting_is_on() {
    let mut session = Session::default();
    let mut app = cache_app(300);

    start_search(&mut app, &mut session, NOW);

    assert_eq!(
        session.pending_cache_key,
        Some(cache_key(&ramen(), app.settings.search.limit, false))
    );
}

#[test]
fn a_channel_reload_that_was_cut_short_still_ignores_the_cache() {
    let mut session = Session::default();
    let mut app = cache_app(300);
    app.channel = Some(ChannelView::new(
        "UCabc".to_string(),
        "Some Channel".to_string(),
    ));
    let target = app.channel.as_ref().expect("channel").target();
    prime_cache(&app, &mut session, &target, vec![result("a")], NOW);

    reload_channel_tab(&mut app, &mut session, NOW);
    switch_channel_tab(&mut app, &mut session, true, NOW);
    select_channel_tab(&mut app, &mut session, 0, NOW);

    assert!(session.search_task, "取り直しを続ける");
    assert!(app.view_results().is_empty());
}

#[test]
fn a_search_from_the_input_box_returns_to_the_all_tab() {
    let mut session = Session::default();
    let mut app = App {
        query: String::from("ラーメン"),
        ..App::default()
    };
    app.tabs.next();
    assert!(!app.tabs.is_all());

    start_search(&mut app, &mut session, NOW);
    assert!(app.tabs.is_all(), "ボックスとタブの対応を 1 対 1 に保つ");
    assert!(session.search_task);
}

#[test]
fn selecting_a_channel_tab_by_position_ignores_the_ones_that_do_not_exist() {
    let mut session = Session::default();
    let mut app = channel_grid_app();
    open_channel(&mut app, &mut session, NOW);
    session.search_task = false;

    select_channel_tab(&mut app, &mut session, 2, NOW);
    assert_eq!(
        app.channel.as_ref().expect("channel").tab,
        ChannelTab::Streams
    );
    assert!(session.search_task);
    let running = session.search_nonce;

    select_channel_tab(&mut app, &mut session, 9, NOW);
    assert_eq!(
        app.channel.as_ref().expect("channel").tab,
        ChannelTab::Streams,
        "範囲外では動かさない"
    );
    assert_eq!(session.search_nonce, running, "走っている検索も止めない");
}

#[test]
fn select_tab_retries_a_refused_tab_when_it_is_clicked_again() {
    let mut session = Session::default();
    let mut app = App::default();
    let index = tab_index(&app, "おすすめ");

    select_tab(&mut app, &mut session, index, NOW);
    assert!(!session.search_task);
    assert!(app.error.is_some());
    assert!(!app.tabs.state().loaded);

    app.cookies = CookieState::Armed(CookieSource::from_spec(Some("chrome")).expect("spec"));
    select_tab(&mut app, &mut session, index, NOW);
    assert!(session.search_task, "断られたタブを取り直す");
    assert!(app.searching);
    assert!(app.error.is_none());
}

#[test]
fn a_cookie_feed_tab_is_refused_without_cookies() {
    let mut session = Session::default();
    let mut app = App {
        mode: Mode::Results,
        ..App::default()
    };

    select_tab_by_label(&mut app, &mut session, "おすすめ");

    assert!(!session.search_task, "yt-dlp を起動しない");
    assert!(!app.searching);
    let error = app.error.clone().expect("理由を出す");
    assert!(error.contains("おすすめ"), "{error}");
    assert!(error.contains("[cookies] browser"), "{error}");
    assert_eq!(app.mode, Mode::Results);

    switch_tab(&mut app, &mut session, true, NOW);
    assert_eq!(app.tabs.labels()[app.tabs.selected()], "履歴");
}

#[test]
fn a_cookie_feed_tab_is_refused_while_cookies_are_suspended() {
    let mut session = Session::default();
    let mut app = App {
        cookies: CookieState::Suspended {
            source: CookieSource::from_spec(Some("chrome")).expect("spec"),
            reason: "cookie を読めませんでした".to_string(),
        },
        ..App::default()
    };

    select_tab_by_label(&mut app, &mut session, "後で見る");

    assert!(!session.search_task, "yt-dlp を起動しない");
    let error = app.error.expect("理由を出す");
    assert!(error.contains("後で見る"), "{error}");
    assert!(error.contains("停止中"), "{error}");
    assert!(error.contains("cookie を読めませんでした"), "{error}");
}

#[test]
fn a_cookie_feed_tab_searches_when_cookies_are_set() {
    let mut session = Session::default();
    let mut app = App {
        cookies: CookieState::Armed(CookieSource::from_spec(Some("chrome")).expect("spec")),
        ..App::default()
    };

    select_tab_by_label(&mut app, &mut session, "履歴");

    assert!(session.search_task, "フィードを取りに行く");
    assert!(app.searching);
    assert!(app.error.is_none());
}

#[test]
fn a_reload_that_was_cut_short_still_ignores_the_cache() {
    let mut session = Session::default();
    let mut app = cache_app(300);
    prime_cache(&app, &mut session, &ramen(), vec![result("a")], NOW);

    reload_tab(&mut app, &mut session, NOW);
    switch_tab(&mut app, &mut session, true, NOW);
    select_tab(&mut app, &mut session, 0, NOW);

    assert!(session.search_task, "取り直しを続ける");
    assert!(app.results.is_empty());

    app.set_results(vec![result("b")], &ramen());
    assert!(!app.tabs.state().reload);
    let limit = app.settings.search.limit;
    start_tab_search(&mut app, &mut session, limit, NOW);
    assert!(!session.search_task);
    assert_eq!(app.result_ids(), ["a"]);
}

#[test]
fn reload_keeps_the_count_that_load_more_had_reached() {
    let mut session = Session::default();
    let mut app = grid_app(3);
    app.query = "ラーメン".to_string();
    app.tabs.state_mut().requested_limit = 20;

    let order = ordered(reload_tab(&mut app, &mut session, NOW));

    assert_eq!(
        order.target.yt_dlp_url(order.limit),
        "ytsearch20:ラーメン",
        "取り直し(r)でも伸ばした件数のまま取りに行く"
    );
    assert_eq!(order.limit, 20);
}

#[test]
fn spawn_search_reports_the_limit_it_actually_requested() {
    let mut session = Session::default();
    let mut app = App {
        query: String::from("ラーメン"),
        ..App::default()
    };
    app.settings.search.limit = 7;

    let order = ordered(start_search(&mut app, &mut session, NOW));
    assert_eq!(order.limit, 7);
    assert_eq!(order.nonce, session.search_nonce);
}

#[test]
fn load_more_requests_the_shown_count_plus_the_setting_limit() {
    let mut session = Session::default();
    let mut app = grid_app(10);
    app.query = "ラーメン".to_string();
    app.tabs.state_mut().requested_limit = 10;

    let order = ordered(load_more(&mut app, &mut session, NOW));
    assert!(app.searching);
    assert_eq!(
        order.target.yt_dlp_url(order.limit),
        "ytsearch20:ラーメン",
        "表示中 10 件 + limit(10) で 20 件要求"
    );
    assert_eq!(order.limit, 20);
}

#[test]
fn load_more_rounds_the_request_down_to_the_max_search_limit() {
    let mut session = Session::default();
    let mut app = grid_app(1);
    app.query = "ラーメン".to_string();
    app.settings.search.limit = MAX_SEARCH_LIMIT;
    app.tabs.state_mut().requested_limit = 1;

    let order = ordered(load_more(&mut app, &mut session, NOW));
    assert_eq!(
        order.target.yt_dlp_url(order.limit),
        format!("ytsearch{MAX_SEARCH_LIMIT}:ラーメン")
    );
}

#[test]
fn a_cache_entry_is_served_until_the_ttl_and_refetched_after_it() {
    let mut session = Session::default();
    let mut app = cache_app(60);
    prime_cache(&app, &mut session, &ramen(), vec![result("a")], NOW);

    start_search(&mut app, &mut session, NOW + 59_000);
    assert!(!session.search_task, "期限内は控えで返す");
    assert_eq!(app.result_ids(), ["a"]);

    start_search(&mut app, &mut session, NOW + 61_000);
    assert!(session.search_task, "期限切れは取り直す");
    assert!(app.searching);
}

#[test]
fn expired_entries_are_dropped_when_the_next_search_is_kept() {
    let mut session = Session::default();
    let app = cache_app(60);
    prime_cache(&app, &mut session, &ramen(), vec![result("a")], NOW);

    let udon = Target::Search("うどん".to_string());
    prime_cache(&app, &mut session, &udon, vec![result("b")], NOW + 61_000);

    assert_eq!(session.search_cache.len(), 1, "期限切れは残さない");
    assert!(session
        .search_cache
        .entry(&cache_key(&udon, app.settings.search.limit, false))
        .is_some());
}

#[test]
fn the_cache_stops_at_its_capacity_and_drops_the_oldest() {
    let mut session = Session::default();
    let app = cache_app(3600);
    let query = |i: usize| Target::Search(format!("q{i}"));
    let key = |target: &Target| cache_key(target, app.settings.search.limit, false);

    for i in 0..CACHE_CAPACITY + 10 {
        let now = NOW + 1000 * i as u64;
        prime_cache(&app, &mut session, &query(i), vec![result("a")], now);
    }

    assert_eq!(session.search_cache.len(), CACHE_CAPACITY);
    assert!(
        session.search_cache.entry(&key(&query(0))).is_none(),
        "古い順に捨てる"
    );
    assert!(
        session
            .search_cache
            .entry(&key(&query(CACHE_CAPACITY + 9)))
            .is_some(),
        "最後に控えたものは残す"
    );
}

#[test]
fn the_key_of_a_search_is_written_out() {
    assert_eq!(cache_key(&ramen(), 20, true), "Search(\"ラーメン\")|20|true");
    assert_eq!(
        cache_key(&Target::Search("a\"b\n".to_string()), 7, false),
        "Search(\"a\\\"b\\n\")|7|false"
    );
    assert_eq!(
        cache_key(&Target::Feed(Feed::WatchLater), 30, true),
        "Feed(WatchLater)|30|true"
    );
    let streams = Target::Channel {
        id: "UC1".to_string(),
        tab: ChannelTab::Streams,
    };
    assert_eq!(
        cache_key(&streams, 10, false),
        "Channel { id: \"UC1\", tab: Streams }|10|false"
    );
}

#[test]
fn a_remembered_search_is_read_back_until_it_expires() {
    let mut session = Session::default();
    session.pending_cache_key = Some("key".to_string());
    remember_search(&mut session, &vec![result("a")], 1_000, NOW);
    assert_eq!(session.pending_cache_key, None);

    assert_eq!(cached_results(&session, "key", 1_000, NOW), Some(vec![result("a")]));
    assert_eq!(
        cached_results(&session, "key", 1_000, NOW + 999),
        Some(vec![result("a")])
    );
    assert_eq!(cached_results(&session, "key", 1_000, NOW + 1_000), None);
    assert_eq!(cached_results(&session, "other", 1_000, NOW), None);
}

#[test]
fn a_search_without_a_key_is_not_remembered() {
    let mut session = Session::default();
    remember_search(&mut session, &vec![result("a")], 1_000, NOW);
    assert_eq!(session.search_cache.len(), 0);
}

#[test]
fn cancelling_a_search_makes_its_answer_late_and_drops_its_key() {
    let mut session = Session::default();
    let mut app = cache_app(300);
    let order = ordered(start_search(&mut app, &mut session, NOW));
    cancel_search(&mut app, &mut session);

    assert_ne!(session.search_nonce, order.nonce);
    assert!(!session.search_task);
    assert!(!app.searching);
    assert_eq!(session.pending_cache_key, None);
}

#[test]
fn the_cookies_in_use_go_with_the_order() {
    let mut session = Session::default();
    let mut app = App {
        query: String::from(":ythis"),
        cookies: CookieState::Armed(CookieSource::from_spec(Some("chrome")).expect("spec")),
        ..App::default()
    };
    let order = ordered(start_search(&mut app, &mut session, NOW));
    assert_eq!(order.target, Target::Feed(Feed::History));
    assert_eq!(order.cookies, CookieSource::from_spec(Some("chrome")));
}

#[test]
fn the_shown_list_stays_until_the_answer_comes() {
    let mut session = Session::default();
    let mut app = grid_app(3);
    app.query = "ラーメン".to_string();
    ordered(start_search(&mut app, &mut session, NOW));
    assert_eq!(app.result_ids(), ["id0", "id1", "id2"]);
}
