use tuitube::actions::leave_channel;
use tuitube::app::{App, ChannelView, Mode};
use tuitube::comments::{Comment, CommentState, COMMENT_LIMIT};
use tuitube::cookies::Target;
use tuitube::engagement::from_unix;
use tuitube::grid::{Layout, LayoutMode};
use tuitube::oauth;
use tuitube::playback::Playback;
use tuitube::player::end_playback;
use tuitube::rect::Rect;
use tuitube::screens::grid_layout;
use tuitube::search::SearchResult;
use tuitube::session::Session;
use tuitube::tasks::{
    engagement_answer, like_video, scroll_comments, start_comments, start_engagement,
    start_thumbnails, subscribe_channel, subscribe_playing_channel, subscribe_to,
    toggle_comments, CommentScroll, OauthOrder,
};
use tuitube::video::CellSize;

const CELL: CellSize = CellSize {
    width_px: 8,
    height_px: 16,
};

fn result(id: &str) -> SearchResult {
    SearchResult {
        id: id.to_string(),
        title: format!("title {id}"),
        duration: None,
        uploader: None,
        channel_id: None,
        is_live: false,
    }
}

fn grid_app(count: usize) -> App {
    let mut app = App {
        mode: Mode::Results,
        screen: Rect::new(0, 0, 80, 24),
        ..App::default()
    };
    let results: Vec<SearchResult> = (0..count).map(|i| result(&format!("id{i}"))).collect();
    app.set_results(results, &Target::Search("q".to_string()));
    app.thumbs.take_dirty();
    app
}

fn playing_app() -> App {
    App {
        mode: Mode::Playing,
        ..App::default()
    }
}

fn channel_view_app() -> App {
    App {
        mode: Mode::Channel,
        channel: Some(ChannelView::new("UC1".to_string(), "One".to_string())),
        ..App::default()
    }
}

/// The list inside the frame of an 80x24 screen: four columns and two rows.
fn shown(app: &App) -> Option<Layout> {
    grid_layout(app, Rect::new(1, 4, 78, 16), CELL)
}

fn ids(values: &[&str]) -> Vec<String> {
    values.iter().map(|v| v.to_string()).collect()
}

fn engagement_app(channel_ids: &[&str]) -> App {
    let results = channel_ids
        .iter()
        .enumerate()
        .map(|(i, channel_id)| SearchResult {
            channel_id: Some(channel_id.to_string()),
            ..result(&format!("v{i}"))
        })
        .collect();
    App {
        results,
        ..App::default()
    }
}

fn commented_app() -> App {
    let mut app = App {
        screen: Rect::new(0, 0, 80, 24),
        ..App::default()
    };
    app.comments.begin("abc".to_string());
    let list = (0..COMMENT_LIMIT)
        .map(|i| Comment {
            author: format!("author{i}"),
            text: format!("本文{i}"),
            like_count: None,
        })
        .collect();
    app.comments.apply("abc", Ok(list));
    app.comments.toggle();
    app
}

/// Where the comments are shown on an 80x24 screen.
const COMMENTS: Rect = Rect {
    x: 1,
    y: 1,
    width: 78,
    height: 18,
};

#[test]
fn the_state_check_asks_for_the_liked_list_and_the_visible_channels() {
    let mut session = Session::default();
    let app = engagement_app(&["UC1", "UC2"]);

    let order = start_engagement(&app, &mut session, true, from_unix(1_000)).expect("届く");
    assert!(session.engagement_task);
    assert!(order.liked_wanted);
    assert_eq!(order.channels, ids(&["UC1", "UC2"]));
    assert_eq!(order.max_concurrent_requests, 3);

    let answer =
        engagement_answer(&order, Some(ids(&["v1"])), Some(ids(&["UC1"]))).expect("届く");
    assert_eq!(answer.nonce, session.search_nonce);
    assert_eq!(answer.liked_videos, Some(ids(&["v1"])));
    assert_eq!(answer.asked_channels, ids(&["UC1", "UC2"]));
    assert_eq!(answer.subscribed_channels, ids(&["UC1"]));
}

#[test]
fn the_state_check_does_not_run_when_the_marks_are_off() {
    let mut session = Session::default();
    let mut app = engagement_app(&["UC1"]);
    app.settings.engagement.enabled = false;

    assert_eq!(start_engagement(&app, &mut session, true, from_unix(1_000)), None);
    assert!(!session.engagement_task);
}

#[test]
fn nothing_is_asked_while_the_cache_is_still_fresh() {
    let mut session = Session::default();
    let mut app = engagement_app(&["UC1"]);
    app.engagement.replace_liked(&ids(&["v1"]), from_unix(1_000));
    app.engagement
        .remember_channels(&ids(&["UC1"]), &ids(&["UC1"]), from_unix(1_000));

    assert_eq!(start_engagement(&app, &mut session, true, from_unix(1_000)), None);
    assert!(!session.engagement_task);
}

#[test]
fn only_what_needs_confirming_is_asked_again() {
    let mut session = Session::default();
    let mut app = engagement_app(&["UC1", "UC2"]);
    app.engagement.replace_liked(&ids(&["v1"]), from_unix(1_000));
    app.engagement
        .remember_channels(&ids(&["UC1"]), &ids(&["UC1"]), from_unix(1_000));

    let order = start_engagement(&app, &mut session, true, from_unix(1_000)).expect("届く");
    assert!(!order.liked_wanted, "いいね一覧は取り直さない");
    assert_eq!(order.channels, ids(&["UC2"]));

    let answer = engagement_answer(&order, None, Some(Vec::new())).expect("届く");
    assert_eq!(answer.liked_videos, None);
    assert_eq!(answer.asked_channels, ids(&["UC2"]));
    assert!(answer.subscribed_channels.is_empty());
}

#[test]
fn while_browsing_a_channel_only_that_channel_is_checked() {
    let mut session = Session::default();
    let app = channel_view_app();
    let order = start_engagement(&app, &mut session, true, from_unix(1_000)).expect("届く");
    assert_eq!(order.channels, ids(&["UC1"]));
}

#[test]
fn a_failed_state_check_stays_quiet() {
    let mut session = Session::default();
    let app = engagement_app(&[]);
    let order = start_engagement(&app, &mut session, true, from_unix(1_000)).expect("届く");
    assert_eq!(
        engagement_answer(&order, None, Some(Vec::new())),
        None,
        "印は飾りなので、失敗は画面に出さない"
    );
    assert!(app.error.is_none());
    assert!(app.notice.is_none());
}

#[test]
fn channels_that_were_only_partly_answered_are_left_unconfirmed() {
    let mut session = Session::default();
    let app = engagement_app(&["UC1", "UC2"]);
    let order = start_engagement(&app, &mut session, true, from_unix(1_000)).expect("届く");
    let answer = engagement_answer(&order, Some(ids(&["v1"])), None).expect("likes came");
    assert_eq!(answer.liked_videos, Some(ids(&["v1"])));
    assert!(answer.asked_channels.is_empty());
    assert!(answer.subscribed_channels.is_empty());
    assert_eq!(engagement_answer(&order, None, None), None);
}

#[test]
fn a_missing_config_location_skips_the_state_check_silently() {
    let mut session = Session {
        engagement_task: true,
        ..Session::default()
    };
    let app = engagement_app(&["UC1"]);

    assert_eq!(start_engagement(&app, &mut session, false, from_unix(1_000)), None);
    assert!(!session.engagement_task);
    assert!(app.error.is_none(), "操作していないので理由を出さない");
}

#[test]
fn subscribing_announces_the_wait_and_reports_the_result() {
    let mut session = Session::default();
    let mut app = channel_view_app();

    let order = subscribe_channel(&mut app, &mut session, true).expect("送る");
    assert_eq!(app.notice.as_deref(), Some(oauth::SUBSCRIBE_NOTICE));
    assert_eq!(
        order,
        OauthOrder {
            nonce: session.oauth_nonce,
            action: oauth::Action::Subscribe("UC1".to_string()),
        }
    );
    assert!(session.oauth_task);
}

#[test]
fn liking_sends_the_playing_video_id() {
    let mut session = Session::default();
    let mut app = App {
        mode: Mode::Playing,
        playback: Playback {
            url: "https://www.youtube.com/watch?v=vid1".to_string(),
            ..Playback::default()
        },
        ..App::default()
    };

    let order = like_video(&mut app, &mut session, true).expect("送る");
    assert_eq!(app.notice.as_deref(), Some(oauth::LIKE_NOTICE));
    assert_eq!(order.action, oauth::Action::Like("vid1".to_string()));
    assert_eq!(
        session.oauth_action,
        Some(oauth::Action::Like("vid1".to_string()))
    );
}

#[test]
fn a_missing_config_location_is_reported_without_starting_anything() {
    let mut session = Session::default();
    let mut app = channel_view_app();

    assert_eq!(subscribe_channel(&mut app, &mut session, false), None);

    assert_eq!(app.error.as_deref(), Some(oauth::NO_CONFIG_PATH));
    assert!(!session.oauth_task);
    assert!(app.notice.is_none());
}

#[test]
fn subscribing_without_a_channel_does_nothing() {
    let mut session = Session::default();
    let mut app = App::default();

    subscribe_channel(&mut app, &mut session, true);

    assert!(!session.oauth_task);
    assert!(app.notice.is_none());
}

#[test]
fn subscribing_to_an_id_does_not_need_the_channel_view() {
    let mut session = Session::default();
    let mut app = playing_app();

    subscribe_to(
        &mut app,
        &mut session,
        "UC9".to_string(),
        true,
    );

    assert_eq!(app.notice.as_deref(), Some(oauth::SUBSCRIBE_NOTICE));
    assert_eq!(
        session.oauth_action,
        Some(oauth::Action::Subscribe("UC9".to_string()))
    );
}

#[test]
fn subscribing_while_playing_uses_the_channel_of_the_video() {
    let mut session = Session::default();
    let mut app = App {
        playback: Playback {
            channel_id: Some("UC2".to_string()),
            ..Playback::default()
        },
        ..playing_app()
    };

    subscribe_playing_channel(
        &mut app,
        &mut session,
        true,
    );

    assert_eq!(
        session.oauth_action,
        Some(oauth::Action::Subscribe("UC2".to_string()))
    );
}

#[test]
fn subscribing_while_playing_without_a_channel_id_does_nothing() {
    let mut session = Session::default();
    let mut app = playing_app();

    subscribe_playing_channel(&mut app, &mut session, true);

    assert!(!session.oauth_task);
    assert!(app.notice.is_none());
}

#[test]
fn liking_without_a_playing_url_does_nothing() {
    let mut session = Session::default();
    let mut app = playing_app();

    like_video(&mut app, &mut session, true);

    assert!(!session.oauth_task);
    assert!(app.notice.is_none());
}

#[test]
fn starting_another_one_drops_the_running_send() {
    let mut session = Session::default();
    let mut app = channel_view_app();

    subscribe_channel(&mut app, &mut session, true);
    let first = session.oauth_nonce;
    assert!(session.oauth_task);

    subscribe_channel(&mut app, &mut session, true);

    assert_ne!(session.oauth_nonce, first, "世代が進む");
    assert!(session.oauth_task);
}

#[test]
fn leaving_the_channel_drops_the_waiting_authorization() {
    let mut session = Session::default();
    let mut app = channel_view_app();

    subscribe_channel(&mut app, &mut session, true);
    let nonce = session.oauth_nonce;
    assert!(session.oauth_task);

    leave_channel(&mut app, &mut session);

    assert!(!session.oauth_task, "認証待ちも畳む");
    assert_ne!(session.oauth_nonce, nonce, "世代が進む");
    assert!(app.notice.is_none());
}

#[test]
fn the_id_of_a_video_is_read_from_its_address() {
    assert_eq!(
        oauth::video_id_from_url("https://www.youtube.com/watch?v=abc"),
        Some("abc".to_string())
    );
    assert_eq!(oauth::video_id_from_url("https://example.com/abc"), None);
}

#[test]
fn a_finished_search_starts_a_thumbnail_fetch_for_its_ids() {
    let mut session = Session::default();
    let mut app = grid_app(3);
    app.settings.thumbnails.cache_dir = Some("/tmp/thumbs".to_string());

    let layout = shown(&app);
    let order = start_thumbnails(&mut app, &mut session, layout.as_ref()).expect("届く");
    assert!(app.thumbs.is_fetching());
    assert_eq!(order.ids, ["id0", "id1", "id2"]);
    assert_eq!(order.target_px, (144, 80));
    assert_eq!(order.cache_dir.as_deref(), Some("/tmp/thumbs"));
    assert_eq!(order.timeout_secs, 10);
    assert_eq!(order.nonce, session.search_nonce);
    assert!(session.thumbs_task);
}

#[test]
fn thumbnails_are_not_fetched_when_the_setting_is_off() {
    let mut session = Session::default();
    let mut app = grid_app(3);
    app.settings.thumbnails.enabled = false;
    let layout = shown(&app);
    assert_eq!(start_thumbnails(&mut app, &mut session, layout.as_ref()), None);

    assert!(!session.thumbs_task);
    assert!(!app.thumbs.is_fetching());
}

#[test]
fn thumbnails_are_not_fetched_once_disabled_or_in_list_mode() {
    let mut session = Session::default();

    let mut app = grid_app(3);
    app.thumbs.disable("curl".to_string());
    let layout = shown(&app);
    assert_eq!(start_thumbnails(&mut app, &mut session, layout.as_ref()), None);
    assert!(!session.thumbs_task);

    let mut app = grid_app(3);
    app.settings.search.layout = LayoutMode::List;
    let layout = shown(&app);
    assert_eq!(start_thumbnails(&mut app, &mut session, layout.as_ref()), None);
    assert!(!session.thumbs_task, "リスト表示では画像を使わない");
}

#[test]
fn nothing_is_fetched_where_every_thumbnail_is_there() {
    let mut session = Session {
        thumbs_task: true,
        ..Session::default()
    };
    let mut app = grid_app(2);
    app.thumbs.apply(&ids(&["id0", "id1"]), (144, 80));
    let layout = shown(&app);
    assert_eq!(start_thumbnails(&mut app, &mut session, layout.as_ref()), None);
    assert!(!session.thumbs_task);
}

#[test]
fn a_ready_thumbnail_is_not_fetched_again() {
    let mut app = grid_app(2);
    app.thumbs.apply(&ids(&["id0"]), (144, 80));
    assert_eq!(app.thumbs.wanted(&app.result_ids(), (144, 80)), ["id1"]);
    assert_eq!(
        app.thumbs.wanted(&app.result_ids(), (72, 40)),
        ["id0", "id1"],
        "another size is fetched anew"
    );
}

#[test]
fn the_thumbnails_of_rows_that_are_gone_are_forgotten() {
    let mut app = grid_app(3);
    app.thumbs.apply(&ids(&["id0", "id2"]), (144, 80));
    app.thumbs.reset(&ids(&["id1", "id2"]));
    assert_eq!(
        app.thumbs.wanted(&ids(&["id0", "id1", "id2"]), (144, 80)),
        ["id0", "id1"]
    );
}

#[test]
fn start_comments_fetches_for_the_video_that_just_started() {
    let mut session = Session::default();
    let mut app = App::default();
    let order = start_comments(
        &mut app,
        &mut session,
        "abc".to_string(),
        "https://www.youtube.com/watch?v=abc".to_string(),
    );

    assert_eq!(app.comments.state(), Some(&CommentState::Pending));
    assert_eq!(order.nonce, session.comments_nonce);
    assert_eq!(order.video_id, "abc");
    assert_eq!(
        order.url, "https://www.youtube.com/watch?v=abc",
        "再生中の URL を渡す"
    );
    assert!(session.comments_task);
}

#[test]
fn starting_the_next_video_abandons_the_previous_fetch() {
    let mut session = Session::default();
    let mut app = App::default();
    start_comments(&mut app, &mut session, "old".to_string(), "u1".to_string());
    let first = session.comments_nonce;
    start_comments(&mut app, &mut session, "new".to_string(), "u2".to_string());

    assert_ne!(session.comments_nonce, first);
    app.comments.apply("old", Ok(Vec::new()));
    assert_eq!(app.comments.state(), Some(&CommentState::Pending));
}

#[test]
fn end_playback_drops_the_comment_fetch() {
    let mut session = Session::default();
    let mut app = App::default();
    start_comments(&mut app, &mut session, "abc".to_string(), "u".to_string());
    let nonce = session.comments_nonce;
    end_playback(&mut app, &mut session, None);

    assert!(!session.comments_task);
    assert_eq!(app.comments.state(), None);
    assert!(!app.comments.visible());
    assert_ne!(
        session.comments_nonce, nonce,
        "打ち切った世代の結果は nonce でも弾く"
    );
}

#[test]
fn opening_comments_peels_the_embedded_image_off() {
    let mut app = App::default();
    let mut session = Session::default();
    toggle_comments(&mut app, &mut session);
    assert!(app.comments.visible());
    assert!(session.owe_clear, "貼ってある映像は差分描画では消えない");

    session.owe_clear = false;
    toggle_comments(&mut app, &mut session);
    assert!(!app.comments.visible());
    assert!(!session.owe_clear, "閉じるときは映像が続きを貼る");
}

#[test]
fn scrolling_moves_by_a_line_and_by_a_screen() {
    let mut app = commented_app();
    let lines = 2 * COMMENT_LIMIT as usize;
    let height = 18;

    scroll_comments(&mut app, CommentScroll::Line(1), COMMENTS);
    assert_eq!(app.comments.scroll(lines, height), 1);
    scroll_comments(&mut app, CommentScroll::Page(1), COMMENTS);
    assert_eq!(app.comments.scroll(lines, height), 1 + height);
    scroll_comments(&mut app, CommentScroll::Page(-1), COMMENTS);
    assert_eq!(app.comments.scroll(lines, height), 1);
    scroll_comments(&mut app, CommentScroll::Line(-1), COMMENTS);
    assert_eq!(app.comments.scroll(lines, height), 0);
}

#[test]
fn scrolling_stops_at_the_last_screen_of_the_list() {
    let mut app = commented_app();
    let lines = 2 * COMMENT_LIMIT as usize;
    let height = 18;

    for _ in 0..20 {
        scroll_comments(&mut app, CommentScroll::Page(1), COMMENTS);
    }
    assert_eq!(
        app.comments.scroll(lines, height),
        lines - height,
        "最後の画面から先へは送らない"
    );
    scroll_comments(&mut app, CommentScroll::Line(-1), COMMENTS);
    assert_eq!(app.comments.scroll(lines, height), lines - height - 1);
}

#[test]
fn scrolling_a_list_that_fits_stays_at_the_top() {
    let mut app = App {
        screen: Rect::new(0, 0, 80, 24),
        ..App::default()
    };
    app.comments.begin("abc".to_string());
    app.comments.apply("abc", Ok(Vec::new()));
    app.comments.toggle();

    scroll_comments(&mut app, CommentScroll::Page(1), COMMENTS);
    assert_eq!(app.comments.scroll(1, 19), 0);
}
