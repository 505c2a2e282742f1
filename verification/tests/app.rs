//! The state of the application and its status line.

use tuitube::app::{App, ChannelView, DownloadField, Mode, NOTICE_TTL, SPEED_HOLD};
use tuitube::cookies::{ChannelTab, CookieSource, CookieState, Feed, Target};
use tuitube::display::{DisplayMode, FpsCap, Quality};
use tuitube::grid::LayoutMode;
use tuitube::mpv::{
    Reported, REQ_CURRENT_VO, REQ_DURATION, REQ_PAUSE, REQ_SID, REQ_SPEED, REQ_SUB_LANG,
    REQ_TIME_POS, REQ_VOLUME,
};
use tuitube::playback::{clamp_target, format_time, Playback, SEEK_HOLD};
use tuitube::search::SearchResult;
use tuitube::settings::{
    EnvOverridden, Settings, FPS_LIMIT_VAR, MAX_FPS_CAP, MAX_SEARCH_LIMIT,
    MAX_SEARCH_TIMEOUT_SECS, MAX_THUMB_TIMEOUT_SECS, MIN_SEARCH_LIMIT, MIN_SEARCH_TIMEOUT_SECS,
};
use tuitube::settings_item::{SettingsItem, MIN_THUMB_TIMEOUT_SECS, SETTINGS_ITEMS};
use tuitube::speed::{Polled, Speed};
use tuitube::subtitles::{SubtitleStatus, LOAD_GRACE, SELECT_GRACE};

/// The time of day in these tests.
const NOW: u64 = 1_000_000;

fn fastest() -> Speed {
    Speed::from_tenths(40).expect("4.0x")
}

fn search_target() -> Target {
    Target::Search("q".to_string())
}

fn source() -> CookieSource {
    CookieSource::from_spec(Some("chrome")).expect("spec")
}

fn result(id: &str) -> SearchResult {
    SearchResult {
        id: id.to_string(),
        title: format!("title {id}"),
        duration: None,
        uploader: None,
        channel_id: None,
        is_live: false,
    }
}

/// Takes in an answer to a poll that wants nothing sent back.
fn poll(app: &mut App, id: u64, data: Option<Reported>) {
    assert_eq!(app.apply_property(id, data, NOW), None);
}

fn number(n: f64) -> Option<Reported> {
    Some(Reported::Number((n * 1000.0).round() as i64))
}

fn text(value: &str) -> Option<Reported> {
    Some(Reported::Text(value.to_string()))
}

fn status(app: &App) -> String {
    app.status_line(NOW)
}

fn polled(speed: Speed) -> Polled {
    Polled {
        speed,
        clamped: false,
    }
}

fn playing_subtitle_app(title: &str) -> App {
    App {
        mode: Mode::Playing,
        playback: Playback {
            title: title.to_string(),
            paused: Some(false),
            ..Playback::default()
        },
        ..App::default()
    }
}

#[test]
fn the_polled_sid_tells_whether_a_subtitle_track_is_selected() {
    let mut app = playing_subtitle_app("song");
    assert!(app.subtitles.wanted, "[subtitles] enabled の既定は true");
    let now = NOW;
    app.subtitles.begin_playback(now);
    poll(&mut app, REQ_DURATION, number(60.0));

    poll(&mut app, REQ_SID, number(1.0));
    assert_eq!(
        app.subtitles.status(&app.settings.subtitles, now),
        SubtitleStatus::Shown
    );

    poll(&mut app, REQ_SID, Some(Reported::Flag(false)));
    assert_eq!(
        app.subtitles
            .status(&app.settings.subtitles, now + SELECT_GRACE * 2),
        SubtitleStatus::Missing
    );
    poll(&mut app, REQ_SID, number(1.0));
    poll(&mut app, REQ_SID, None);
    assert_eq!(
        app.subtitles.status(&app.settings.subtitles, now),
        SubtitleStatus::Shown
    );
}

#[test]
fn a_playback_without_a_duration_still_reports_a_missing_subtitle() {
    let mut app = playing_subtitle_app("live");
    let now = NOW;
    app.subtitles.begin_playback(now);
    poll(&mut app, REQ_DURATION, None);

    assert_eq!(
        app.subtitles
            .status(&app.settings.subtitles, now + LOAD_GRACE),
        SubtitleStatus::Missing
    );
}

#[test]
fn the_status_line_names_the_track_that_mpv_chose() {
    let mut app = playing_subtitle_app("song");
    poll(&mut app, REQ_SID, number(1.0));
    poll(&mut app, REQ_SUB_LANG, text("ja"));
    assert!(status(&app).starts_with("PLAYING  字幕ja  song"));
}

#[test]
fn the_status_line_puts_the_subtitle_marker_right_after_the_state() {
    let mut app = playing_subtitle_app("song");
    poll(&mut app, REQ_SID, number(1.0));
    let line = status(&app);
    assert!(line.starts_with("PLAYING  字幕ja-orig  song"), "{line}");

    app.subtitles.set_wanted(false, NOW);
    let line = status(&app);
    assert!(line.starts_with("PLAYING  song"), "{line}");
    assert!(!line.contains("字幕"), "{line}");
}

#[test]
fn the_subtitle_marker_stays_ahead_of_a_long_title() {
    let mut app = playing_subtitle_app(&"長いタイトル".repeat(20));
    poll(&mut app, REQ_SID, number(1.0));
    let line = status(&app);
    let marker_at = line.find("字幕").expect("印がある");
    let title_at = line.find("長いタイトル").expect("タイトルがある");
    assert!(marker_at < title_at, "{line}");
    assert!(marker_at < 10, "{line}");
}

#[test]
fn formats_time() {
    assert_eq!(format_time(None), "--:--");
    assert_eq!(format_time(Some(0)), "00:00");
    assert_eq!(format_time(Some(75400)), "01:15");
    assert_eq!(format_time(Some(3661000)), "1:01:01");
    assert_eq!(format_time(Some(-3000)), "00:00");
}

#[test]
fn selection_wraps_around() {
    let mut app = App {
        results: vec![result("a"), result("b")],
        ..App::default()
    };
    app.select_next();
    assert_eq!(app.selected, 1);
    app.select_next();
    assert_eq!(app.selected, 0);
    app.select_prev();
    assert_eq!(app.selected, 1);
}

#[test]
fn selection_is_noop_without_results() {
    let mut app = App::default();
    app.select_next();
    app.select_prev();
    assert_eq!(app.selected, 0);
    assert!(app.selected_result().is_none());
}

#[test]
fn empty_results_set_error_and_stay_in_input() {
    let mut app = App::default();
    app.set_results(Vec::new(), &search_target());
    assert_eq!(app.mode, Mode::Input);
    assert!(app.error.is_some());
}

#[test]
fn the_results_status_shows_the_full_title_of_the_selection() {
    let mut app = App {
        mode: Mode::Results,
        results: vec![result("a"), result("b")],
        selected: 1,
        ..App::default()
    };
    assert_eq!(status(&app), "2 件  |  title b");

    app.thumbs.set_fetching(true);
    assert_eq!(status(&app), "2 件  |  サムネイル取得中...");

    let app = App {
        mode: Mode::Results,
        ..App::default()
    };
    assert_eq!(status(&app), "0 件");
}

#[test]
fn set_results_writes_through_to_the_current_tab() {
    let mut app = App {
        selected: 5,
        scroll: 8,
        ..App::default()
    };
    app.set_results(vec![result("a"), result("b")], &search_target());

    assert_eq!(app.tabs.state().results.len(), 2);
    assert!(app.tabs.state().loaded, "戻ったときに再検索しない");
    assert_eq!(app.selected, 0);
    assert_eq!(app.scroll, 0);
    app.set_results(Vec::new(), &search_target());
    assert!(app.tabs.state().loaded);
}

#[test]
fn storing_and_syncing_moves_the_selection_between_tabs() {
    let mut app = App::default();
    app.set_results(vec![result("a"), result("b")], &search_target());
    app.selected = 1;
    app.scroll = 4;
    app.store_to_tab();

    app.tabs.next();
    app.sync_from_tab();
    assert!(app.results.is_empty());
    assert_eq!(app.selected, 0);
    assert_eq!(app.scroll, 0);

    app.tabs.prev();
    app.sync_from_tab();
    assert_eq!(app.results.len(), 2);
    assert_eq!(app.selected, 1);
    assert_eq!(app.scroll, 4);
    assert_eq!(app.result_ids(), ["a", "b"]);
}

#[test]
fn results_switch_to_list_mode() {
    let mut app = App {
        selected: 5,
        ..App::default()
    };
    app.set_results(vec![result("a")], &search_target());
    assert_eq!(app.mode, Mode::Results);
    assert_eq!(app.selected, 0);
    assert!(app.error.is_none());
}

#[test]
fn empty_search_results_keep_the_current_message() {
    let mut app = App::default();
    app.set_results(Vec::new(), &search_target());
    assert_eq!(app.error.as_deref(), Some("検索結果が0件でした"));
}

#[test]
fn empty_feed_results_explain_the_login_requirement() {
    let mut app = App::default();
    app.set_results(Vec::new(), &Target::Feed(Feed::Recommended));
    let error = app.error.expect("理由を出す");
    assert!(error.starts_with("おすすめ"), "{error}");
    assert!(error.contains("ログイン"), "{error}");
}

#[test]
fn idle_and_searching_status_show_the_cookie_label() {
    let mut app = App {
        cookies: CookieState::Armed(source()),
        ..App::default()
    };
    assert!(
        status(&app).ends_with("cookies: chrome"),
        "{}",
        status(&app)
    );
    assert!(status(&app).starts_with("検索したい語句"));

    app.searching = true;
    assert!(status(&app).starts_with("検索中..."));
    assert!(status(&app).ends_with("cookies: chrome"));

    app.searching = false;
    app.cookies = CookieState::Suspended {
        source: source(),
        reason: "読めませんでした".to_string(),
    };
    assert!(status(&app).ends_with("cookies: chrome (停止)"));

    app.cookies = CookieState::Off;
    assert_eq!(status(&app), "検索したい語句を入力して Enter");
}

#[test]
fn notice_shows_when_there_is_no_error_and_error_wins() {
    let mut app = App {
        cookies: CookieState::Armed(source()),
        notice: Some("cookie を読めませんでした".to_string()),
        ..App::default()
    };
    let line = status(&app);
    assert!(line.contains("cookies: chrome"), "{line}");
    assert!(line.ends_with("cookie を読めませんでした"), "{line}");

    app.error = Some("boom".to_string());
    assert_eq!(status(&app), "エラー: boom");
}

#[test]
fn applies_polled_properties() {
    let mut app = App::default();
    poll(&mut app, REQ_TIME_POS, number(12.0));
    poll(&mut app, REQ_DURATION, number(300.0));
    poll(&mut app, REQ_PAUSE, Some(Reported::Flag(true)));
    poll(&mut app, REQ_VOLUME, number(80.0));
    assert_eq!(app.playback.time_pos, Some(12_000));
    assert_eq!(app.playback.duration, Some(300_000));
    assert_eq!(app.playback.paused, Some(true));
    assert_eq!(app.playback.volume, Some(80_000));

    poll(&mut app, REQ_TIME_POS, None);
    assert_eq!(app.playback.time_pos, None);
}

#[test]
fn speed_is_applied_from_the_poll_and_rounded() {
    let mut app = App::default();
    assert_eq!(app.speed, Speed::normal());

    poll(&mut app, REQ_SPEED, number(2.75));
    assert_eq!(app.speed, Speed::from_tenths(28).expect("2.8x"));

    poll(&mut app, REQ_SPEED, None);
    assert_eq!(app.speed, Speed::from_tenths(28).expect("2.8x"));
}

#[test]
fn a_speed_outside_the_range_is_sent_back_so_the_display_matches_the_playback() {
    let mut app = App::default();
    assert_eq!(
        app.apply_property(REQ_SPEED, number(8.0), NOW),
        Some(fastest().command())
    );
    assert_eq!(app.speed, fastest());

    poll(&mut app, REQ_SPEED, number(4.0));
    assert_eq!(app.speed, fastest());
}

#[test]
fn a_stale_speed_poll_within_the_hold_does_not_roll_back_the_local_value() {
    let t0 = NOW;
    let mut app = App::default();
    app.set_speed_sent(Speed::from_tenths(13).expect("1.3x"), t0);

    assert_eq!(
        app.reconcile_speed(
            polled(Speed::from_tenths(12).expect("1.2x")),
            t0 + 500
        ),
        None
    );
    assert_eq!(app.speed, Speed::from_tenths(13).expect("1.3x"));

    assert_eq!(
        app.reconcile_speed(
            polled(Speed::from_tenths(13).expect("1.3x")),
            t0 + 900,
        ),
        None
    );
    assert_eq!(app.speed, Speed::from_tenths(13).expect("1.3x"));
    assert!(app.speed_sent_at.is_none());
}

#[test]
fn a_speed_changed_in_the_mpv_window_wins_after_the_hold_expires() {
    let t0 = NOW;
    let mut app = App::default();
    app.set_speed_sent(Speed::from_tenths(13).expect("1.3x"), t0);

    assert_eq!(
        app.reconcile_speed(
            polled(Speed::from_tenths(20).expect("2.0x")),
            t0 + SPEED_HOLD
        ),
        None
    );
    assert_eq!(app.speed, Speed::from_tenths(20).expect("2.0x"));
    assert!(app.speed_sent_at.is_none());
}

#[test]
fn the_status_line_shows_the_speed_after_the_volume() {
    let mut app = App {
        mode: Mode::Playing,
        speed: Speed::from_tenths(15).expect("1.5x"),
        playback: Playback {
            title: "song".to_string(),
            paused: Some(false),
            volume: Some(70_000),
            ..Playback::default()
        },
        ..App::default()
    };
    let line = status(&app);
    assert!(line.contains("vol 70  1.5x  ["), "{line}");

    app.speed = Speed::normal();
    assert!(
        status(&app).contains("vol 70  1.0x  ["),
        "{}",
        status(&app)
    );
}

#[test]
fn pause_error_response_is_not_read_as_playing() {
    let mut app = App {
        mode: Mode::Playing,
        ..App::default()
    };
    poll(&mut app, REQ_PAUSE, Some(Reported::Flag(true)));
    assert!(status(&app).starts_with("PAUSED"));
    poll(&mut app, REQ_PAUSE, None);
    assert_eq!(app.playback.paused, None);
    assert!(!status(&app).starts_with("PLAYING"));
}

#[test]
fn the_notice_stays_visible_until_an_error_takes_the_line() {
    let mut app = App {
        mode: Mode::Results,
        results: vec![result("a")],
        notice: Some("TUITUBE_FPS_LIMIT=3O を数値として読めません".to_string()),
        ..App::default()
    };
    assert_eq!(
        status(&app),
        "1 件  |  title a  |  TUITUBE_FPS_LIMIT=3O を数値として読めません"
    );

    app.searching = true;
    assert!(status(&app).starts_with("検索中..."));
    assert!(status(&app).ends_with("読めません"));

    app.searching = false;
    app.mode = Mode::Playing;
    assert!(status(&app).starts_with("状態不明"));
    assert!(status(&app).ends_with("読めません"));

    app.error = Some("boom".to_string());
    assert!(status(&app).ends_with("エラー: boom"));
}

#[test]
fn playback_keeps_the_url_so_it_can_be_copied() {
    assert!(Playback::default().url.is_empty());
    let playback = Playback {
        url: "https://www.youtube.com/watch?v=abc".to_string(),
        ..Playback::default()
    };
    assert_eq!(playback.url, "https://www.youtube.com/watch?v=abc");
}

#[test]
fn a_temporary_notice_disappears_once_its_time_is_up() {
    let t0 = NOW;
    let mut app = App {
        mode: Mode::Playing,
        ..App::default()
    };
    app.set_temporary_notice("URL をコピーしました".to_string(), t0);
    assert!(status(&app).ends_with("URL をコピーしました"));

    app.expire_notice(t0 + NOTICE_TTL - 1);
    assert!(app.notice.is_some(), "期限前は消さない");

    app.expire_notice(t0 + NOTICE_TTL);
    assert!(app.notice.is_none());
    assert!(app.notice_until.is_none());
}

#[test]
fn a_notice_without_a_deadline_stays_until_it_is_replaced() {
    let t0 = NOW;
    let mut app = App::default();
    app.set_notice(Some(
        "TUITUBE_FPS_LIMIT=3O を数値として読めません".to_string(),
    ));
    app.expire_notice(t0 + NOTICE_TTL * 10);
    assert!(app.notice.is_some());

    app.set_temporary_notice("URL をコピーしました".to_string(), t0);
    app.set_notice(Some("cookie を読めませんでした".to_string()));
    assert!(app.notice_until.is_none());
    app.expire_notice(t0 + NOTICE_TTL * 10);
    assert_eq!(app.notice.as_deref(), Some("cookie を読めませんでした"));

    app.set_notice(None);
    assert!(app.notice.is_none());
}

#[test]
fn an_operation_error_outlives_a_successful_poll_but_not_its_deadline() {
    let t0 = NOW;
    let mut app = App::default();
    app.set_temporary_error("pbcopy が見つかりません".to_string(), t0);

    app.clear_polled_error(t0 + NOTICE_TTL - 1);
    assert!(app.error.is_some(), "ポーリングの成功では消さない");

    app.clear_polled_error(t0 + NOTICE_TTL);
    assert!(app.error.is_none());
    assert!(app.error_until.is_none());
}

#[test]
fn a_polling_error_is_cleared_by_the_next_success() {
    let t0 = NOW;
    let mut app = App::default();
    app.set_error(Some("パイプが閉じました".to_string()));
    assert!(app.error_until.is_none(), "期限つきの残りを持ち越さない");

    app.clear_polled_error(t0);
    assert!(app.error.is_none());
}

#[test]
fn an_operation_error_is_dropped_by_the_tick_even_without_a_player() {
    let t0 = NOW;
    let mut app = App::default();
    app.set_temporary_error("URL をコピーできませんでした".to_string(), t0);

    app.expire_error(t0 + NOTICE_TTL - 1);
    assert!(app.error.is_some());

    app.expire_error(t0 + NOTICE_TTL);
    assert!(app.error.is_none());
}

#[test]
fn current_vo_is_applied_from_the_poll() {
    let mut app = App::default();
    poll(
        &mut app,
        REQ_CURRENT_VO,
        text("gpu-next"),
    );
    assert_eq!(app.playback.current_vo.as_deref(), Some("gpu-next"));
    poll(&mut app, REQ_CURRENT_VO, None);
    assert_eq!(app.playback.current_vo, None);
}

#[test]
fn display_label_marks_the_transition_until_mpv_confirms() {
    let mut app = App {
        display: DisplayMode::Window,
        playback: Playback {
            current_vo: Some("kitty".to_string()),
            ..Playback::default()
        },
        ..App::default()
    };
    assert_eq!(app.display_label(), "[別ウィンドウ (切替中)]");

    app.playback.current_vo = Some("gpu-next".to_string());
    assert_eq!(app.display_label(), "[別ウィンドウ]");

    app.display = DisplayMode::Embedded;
    app.playback.current_vo = Some("kitty".to_string());
    assert_eq!(app.display_label(), "[埋め込み 15fps medium]");

    app.settings.fps_cap = None;
    assert_eq!(app.display_label(), "[埋め込み medium]");

    app.playback.current_vo = None;
    assert_eq!(app.display_label(), "[埋め込み medium]");
}

#[test]
fn the_status_line_ends_with_the_display_label_while_playing() {
    let app = App {
        mode: Mode::Playing,
        playback: Playback {
            title: "song".to_string(),
            ..Playback::default()
        },
        ..App::default()
    };
    assert!(
        status(&app).ends_with(&app.display_label()),
        "{}",
        status(&app)
    );
}

#[test]
fn default_app_takes_the_display_mode_from_settings() {
    assert_eq!(App::default().display, Settings::default().display.mode);
    assert_eq!(App::default().settings, Settings::default());
}

#[test]
fn status_line_prefers_error() {
    let app = App {
        searching: true,
        error: Some("boom".to_string()),
        ..App::default()
    };
    assert_eq!(status(&app), "エラー: boom");
}

#[test]
fn playing_status_stays_visible_with_error() {
    let app = App {
        mode: Mode::Playing,
        error: Some("boom".to_string()),
        playback: Playback {
            title: "song".to_string(),
            paused: Some(true),
            time_pos: Some(30_000),
            duration: Some(60_000),
            volume: Some(70_000),
            ..Playback::default()
        },
        ..App::default()
    };
    let line = status(&app);
    assert!(line.starts_with("PAUSED"), "{line}");
    assert!(line.contains("song  00:30 / 01:00  vol 70"), "{line}");
    assert!(line.ends_with("エラー: boom"));
}

#[test]
fn optimistic_seek_survives_a_stale_poll_within_the_hold() {
    let t0 = NOW;
    let mut playback = Playback {
        time_pos: Some(10_000),
        ..Playback::default()
    };
    playback.begin_seek(100_000, t0);
    assert_eq!(playback.time_pos, Some(100_000));
    assert!(playback.pending_seek.is_some());

    playback.reconcile_time_pos(Some(11_000), t0 + 500);
    assert_eq!(playback.time_pos, Some(100_000));
    playback.reconcile_time_pos(None, t0 + 800);
    assert_eq!(playback.time_pos, Some(100_000));

    playback.reconcile_time_pos(Some(101_500), t0 + 900);
    assert_eq!(playback.time_pos, Some(101_500));
    assert_eq!(playback.pending_seek, None);
}

#[test]
fn a_stale_poll_wins_after_the_hold_expires() {
    let t0 = NOW;
    let mut playback = Playback {
        time_pos: Some(10_000),
        ..Playback::default()
    };
    playback.begin_seek(100_000, t0);
    playback.reconcile_time_pos(Some(11_000), t0 + SEEK_HOLD);

    assert_eq!(playback.time_pos, Some(11_000));
    assert_eq!(playback.pending_seek, None);
}

#[test]
fn relative_seeks_stack_on_the_pending_target() {
    let t0 = NOW;
    let mut playback = Playback {
        time_pos: Some(10_000),
        ..Playback::default()
    };
    assert_eq!(playback.seek_base(), Some(10_000));
    playback.begin_seek(15_000, t0);
    assert_eq!(playback.seek_base(), Some(15_000));

    let t1 = t0 + 100;
    playback.begin_seek(20_000, t1);
    assert_eq!(playback.time_pos, Some(20_000));
    let pending = playback.pending_seek.expect("先行更新が入っている");
    assert_eq!(pending.target, 20_000);
    assert_eq!(pending.sent_at, t1);
}

#[test]
fn playing_status_without_pause_data_is_marked_unknown() {
    let app = App {
        mode: Mode::Playing,
        ..App::default()
    };
    assert!(status(&app).starts_with("状態不明"));
}

fn adjusted(item: SettingsItem, delta: i32, settings: &Settings) -> Settings {
    let mut next = settings.clone();
    item.adjust(&mut next, delta);
    next
}

#[test]
fn the_settings_screen_lists_every_editable_item_in_order() {
    let labels: Vec<&str> = SETTINGS_ITEMS.iter().map(|item| item.label()).collect();
    assert_eq!(
        labels,
        [
            "display.mode",
            "display.quality",
            "fps_cap",
            "subtitles.enabled",
            "search.layout",
            "search.limit",
            "search.timeout_secs",
            "thumbnails.enabled",
            "thumbnails.max_cached",
            "thumbnails.timeout_secs",
        ]
    );
}

#[test]
fn each_settings_row_shows_the_value_the_config_file_holds() {
    assert_eq!(
        App::default().settings_rows(),
        [
            "display.mode: embedded",
            "display.quality: medium",
            "fps_cap: 15",
            "subtitles.enabled: true",
            "search.layout: grid",
            "search.limit: 10",
            "search.timeout_secs: 30",
            "thumbnails.enabled: true",
            "thumbnails.max_cached: 500",
            "thumbnails.timeout_secs: 10",
        ]
    );
}

#[test]
fn an_unlimited_fps_cap_is_shown_as_zero() {
    let mut app = App::default();
    app.settings.fps_cap = None;
    assert_eq!(app.settings_rows()[2], "fps_cap: 0 (無制限)");
}

#[test]
fn a_row_the_environment_holds_says_that_it_is_not_saved() {
    let app = App {
        env_overridden: EnvOverridden {
            fps_cap: Some(FpsCap::new(30)),
            ..EnvOverridden::default()
        },
        ..App::default()
    };
    let row = &app.settings_rows()[2];
    assert!(row.starts_with("fps_cap: "), "{row}");
    assert!(row.contains(FPS_LIMIT_VAR), "{row}");
    assert!(row.contains("保存しません"), "{row}");

    assert_eq!(app.settings_rows()[5], "search.limit: 10");
    assert_eq!(App::default().settings_rows()[2], "fps_cap: 15");
}

#[test]
fn the_choice_rows_send_forward_on_the_right_and_back_on_the_left() {
    let settings = Settings::default();
    assert_eq!(
        adjusted(SettingsItem::DisplayMode, 1, &settings)
            .display
            .mode,
        DisplayMode::default().next()
    );
    assert_eq!(
        adjusted(SettingsItem::DisplayMode, -1, &settings)
            .display
            .mode,
        DisplayMode::default().prev()
    );
    assert_eq!(
        adjusted(SettingsItem::DisplayQuality, 1, &settings)
            .display
            .quality,
        Quality::default().next()
    );
    assert_eq!(
        adjusted(SettingsItem::DisplayQuality, -1, &settings)
            .display
            .quality,
        Quality::default().prev()
    );
    assert_eq!(
        adjusted(SettingsItem::SearchLayout, 1, &settings)
            .search
            .layout,
        LayoutMode::default().next()
    );
    assert_eq!(
        adjusted(SettingsItem::SearchLayout, -1, &settings)
            .search
            .layout,
        LayoutMode::default().prev()
    );
}

#[test]
fn a_choice_row_comes_back_to_where_it_started() {
    let settings = Settings::default();
    let mut next = settings.clone();
    SettingsItem::DisplayQuality.adjust(&mut next, 1);
    SettingsItem::DisplayQuality.adjust(&mut next, -1);
    assert_eq!(next.display.quality, settings.display.quality);

    let mut back = settings.clone();
    SettingsItem::DisplayQuality.adjust(&mut back, -1);
    assert_eq!(back.display.quality, Quality::Low, "medium の 1 つ前");
}

#[test]
fn the_flag_rows_toggle_whichever_way_they_are_pushed() {
    let mut settings = Settings::default();
    for delta in [-1, 1] {
        SettingsItem::SubtitlesEnabled.adjust(&mut settings, delta);
        assert!(!settings.subtitles.enabled, "{delta}");
        SettingsItem::SubtitlesEnabled.adjust(&mut settings, delta);
        assert!(settings.subtitles.enabled, "{delta}");

        SettingsItem::ThumbnailsEnabled.adjust(&mut settings, delta);
        assert!(!settings.thumbnails.enabled, "{delta}");
        SettingsItem::ThumbnailsEnabled.adjust(&mut settings, delta);
        assert!(settings.thumbnails.enabled, "{delta}");
    }
}

#[test]
fn the_fps_cap_steps_by_five_and_stops_at_both_ends() {
    let mut settings = Settings::default();
    SettingsItem::FpsCap.adjust(&mut settings, 1);
    assert_eq!(settings.fps_cap.map(FpsCap::get), Some(20));
    SettingsItem::FpsCap.adjust(&mut settings, -1);
    assert_eq!(settings.fps_cap.map(FpsCap::get), Some(15));

    for _ in 0..10 {
        SettingsItem::FpsCap.adjust(&mut settings, -1);
    }
    assert_eq!(settings.fps_cap, None);

    for _ in 0..40 {
        SettingsItem::FpsCap.adjust(&mut settings, 1);
    }
    assert_eq!(settings.fps_cap.map(FpsCap::get), Some(MAX_FPS_CAP));
}

#[test]
fn the_search_limit_steps_by_one_and_stays_inside_its_range() {
    let mut settings = Settings::default();
    SettingsItem::SearchLimit.adjust(&mut settings, 1);
    assert_eq!(settings.search.limit, 11);

    for _ in 0..20 {
        SettingsItem::SearchLimit.adjust(&mut settings, -1);
    }
    assert_eq!(settings.search.limit, MIN_SEARCH_LIMIT);

    for _ in 0..(MAX_SEARCH_LIMIT + 10) {
        SettingsItem::SearchLimit.adjust(&mut settings, 1);
    }
    assert_eq!(settings.search.limit, MAX_SEARCH_LIMIT);
}

#[test]
fn the_search_timeout_steps_by_five_and_stays_inside_its_range() {
    let mut settings = Settings::default();
    let secs = |settings: &Settings| settings.search.timeout_secs;
    assert_eq!(secs(&settings), 30, "既定は 30 秒のまま");

    SettingsItem::SearchTimeoutSecs.adjust(&mut settings, 1);
    assert_eq!(secs(&settings), 35);
    SettingsItem::SearchTimeoutSecs.adjust(&mut settings, -1);
    assert_eq!(secs(&settings), 30);

    for _ in 0..20 {
        SettingsItem::SearchTimeoutSecs.adjust(&mut settings, -1);
    }
    assert_eq!(secs(&settings), MIN_SEARCH_TIMEOUT_SECS, "下限で止まる");

    for _ in 0..100 {
        SettingsItem::SearchTimeoutSecs.adjust(&mut settings, 1);
    }
    assert_eq!(secs(&settings), MAX_SEARCH_TIMEOUT_SECS, "上限で止まる");
}

#[test]
fn the_search_timeout_row_shows_the_seconds() {
    let settings = Settings::default();
    assert_eq!(
        SettingsItem::SearchTimeoutSecs.row(&settings),
        "search.timeout_secs: 30"
    );
}

#[test]
fn the_thumbnail_numbers_step_by_their_own_width() {
    let mut settings = Settings::default();
    SettingsItem::ThumbnailsMaxCached.adjust(&mut settings, 1);
    assert_eq!(settings.thumbnails.max_cached, 550);
    for _ in 0..20 {
        SettingsItem::ThumbnailsMaxCached.adjust(&mut settings, -1);
    }
    assert_eq!(settings.thumbnails.max_cached, 0, "0 枚で止まる");

    SettingsItem::ThumbnailsTimeoutSecs.adjust(&mut settings, 1);
    assert_eq!(settings.thumbnails.timeout_secs, 15);
    for _ in 0..10 {
        SettingsItem::ThumbnailsTimeoutSecs.adjust(&mut settings, -1);
    }
    assert_eq!(
        settings.thumbnails.timeout_secs,
        1,
        "0 秒では 1 枚も取れない"
    );
    for _ in 0..40 {
        SettingsItem::ThumbnailsTimeoutSecs.adjust(&mut settings, 1);
    }
    assert_eq!(
        settings.thumbnails.timeout_secs,
        MAX_THUMB_TIMEOUT_SECS
    );
}

#[test]
fn the_timeout_keeps_its_step_after_hitting_the_lower_bound() {
    let mut settings = Settings::default();
    let secs = |settings: &Settings| settings.thumbnails.timeout_secs;

    SettingsItem::ThumbnailsTimeoutSecs.adjust(&mut settings, -1);
    assert_eq!(secs(&settings), 5);
    SettingsItem::ThumbnailsTimeoutSecs.adjust(&mut settings, -1);
    assert_eq!(secs(&settings), 1, "0 秒では取れないので 1 で止まる");

    SettingsItem::ThumbnailsTimeoutSecs.adjust(&mut settings, 1);
    assert_eq!(secs(&settings), 5, "刻みの目盛りへ戻る");
    SettingsItem::ThumbnailsTimeoutSecs.adjust(&mut settings, 1);
    assert_eq!(secs(&settings), 10, "既定値に戻せる");
}

#[test]
fn a_value_off_the_step_is_pulled_back_onto_it() {
    let mut settings = Settings::default();
    settings.thumbnails.timeout_secs = 12;
    SettingsItem::ThumbnailsTimeoutSecs.adjust(&mut settings, -1);
    assert_eq!(settings.thumbnails.timeout_secs, 10);

    settings.thumbnails.timeout_secs = 12;
    SettingsItem::ThumbnailsTimeoutSecs.adjust(&mut settings, 1);
    assert_eq!(settings.thumbnails.timeout_secs, 15);
}

#[test]
fn the_search_results_do_not_close_the_settings_screen() {
    let mut app = App {
        mode: Mode::Settings,
        settings_return: Mode::Input,
        ..App::default()
    };
    app.enter_search_mode(Mode::Results);
    assert_eq!(app.mode, Mode::Settings);
    assert_eq!(app.settings_return, Mode::Results, "閉じたら結果へ戻す");

    let mut app = App::default();
    app.enter_search_mode(Mode::Results);
    assert_eq!(app.mode, Mode::Results);
}

#[test]
fn an_out_of_range_selection_still_points_at_a_row() {
    let mut app = App::default();
    assert_eq!(app.settings_selected, 0);
    assert_eq!(app.settings_item(), SETTINGS_ITEMS[0]);

    app.settings_selected = 99;
    assert_eq!(
        app.settings_item(),
        SETTINGS_ITEMS[SETTINGS_ITEMS.len() - 1]
    );
}

#[test]
fn only_the_number_rows_take_a_typed_value() {
    let numeric: Vec<&str> = SETTINGS_ITEMS
        .iter()
        .filter(|item| item.is_numeric())
        .map(|item| item.label())
        .collect();
    assert_eq!(
        numeric,
        [
            "fps_cap",
            "search.limit",
            "search.timeout_secs",
            "thumbnails.max_cached",
            "thumbnails.timeout_secs",
        ]
    );
}

#[test]
fn every_number_row_actually_takes_the_value_it_advertises() {
    let settings = Settings::default();
    for item in SETTINGS_ITEMS {
        let mut next = settings.clone();
        assert_eq!(
            item.apply_numeric(&mut next, "1"),
            item.is_numeric(),
            "{}",
            item.label()
        );
        assert_eq!(item.max_digits() > 0, item.is_numeric(), "{}", item.label());
    }
}

#[test]
fn the_digit_limit_still_lets_an_out_of_range_number_be_typed() {
    assert_eq!(SettingsItem::FpsCap.max_digits(), 3);
    assert_eq!(SettingsItem::SearchLimit.max_digits(), 4);
    assert_eq!(SettingsItem::SearchTimeoutSecs.max_digits(), 3);
    assert_eq!(SettingsItem::ThumbnailsTimeoutSecs.max_digits(), 3);
    assert_eq!(SettingsItem::ThumbnailsMaxCached.max_digits(), 20);
}

fn typed(item: SettingsItem, raw: &str, settings: &Settings) -> Settings {
    let mut next = settings.clone();
    item.apply_numeric(&mut next, raw);
    next
}

#[test]
fn a_typed_number_lands_inside_the_range_the_arrows_use() {
    let settings = Settings::default();
    let limit = |raw| {
        typed(SettingsItem::SearchLimit, raw, &settings)
            .search
            .limit
    };
    assert_eq!(limit("250"), 250);
    assert_eq!(limit("0"), MIN_SEARCH_LIMIT);
    assert_eq!(limit("5000"), MAX_SEARCH_LIMIT);

    let fps = |raw| typed(SettingsItem::FpsCap, raw, &settings).fps_cap;
    assert_eq!(fps("24"), FpsCap::new(24));
    assert_eq!(fps("999"), FpsCap::new(MAX_FPS_CAP));
    assert_eq!(fps("0"), None);

    let search_timeout = |raw| {
        typed(SettingsItem::SearchTimeoutSecs, raw, &settings)
            .search
            .timeout_secs
    };
    assert_eq!(search_timeout("120"), 120);
    assert_eq!(
        search_timeout("0"),
        MIN_SEARCH_TIMEOUT_SECS
    );
    assert_eq!(
        search_timeout("9999"),
        MAX_SEARCH_TIMEOUT_SECS
    );

    let cached = |raw| {
        typed(SettingsItem::ThumbnailsMaxCached, raw, &settings)
            .thumbnails
            .max_cached
    };
    assert_eq!(cached("1200"), 1200);
    assert_eq!(cached("0"), 0);

    let timeout = |raw| {
        typed(SettingsItem::ThumbnailsTimeoutSecs, raw, &settings)
            .thumbnails
            .timeout_secs
    };
    assert_eq!(timeout("30"), 30);
    assert_eq!(timeout("0"), MIN_THUMB_TIMEOUT_SECS);
    assert_eq!(timeout("999"), MAX_THUMB_TIMEOUT_SECS);
}

#[test]
fn a_typed_value_that_is_not_a_number_leaves_the_setting_alone() {
    let settings = Settings::default();
    for raw in ["", " ", "abc", "-5", "1.5", "12 ", "99999999999999999999"] {
        let mut next = settings.clone();
        assert!(
            !SettingsItem::SearchLimit.apply_numeric(&mut next, raw),
            "{raw:?} は受け付けない"
        );
        assert_eq!(next, settings, "{raw:?}");
    }
}

#[test]
fn typing_a_number_into_a_choice_row_changes_nothing() {
    let settings = Settings::default();
    for item in SETTINGS_ITEMS.iter().filter(|item| !item.is_numeric()) {
        let mut next = settings.clone();
        assert!(!item.apply_numeric(&mut next, "1"), "{}", item.label());
        assert_eq!(next, settings, "{}", item.label());
    }
}

#[test]
fn the_settings_screen_starts_without_a_typed_value() {
    assert_eq!(App::default().settings_edit, None);
}

#[test]
fn the_settings_status_line_shows_the_position_and_keeps_the_notice() {
    let t0 = NOW;
    let mut app = App {
        mode: Mode::Settings,
        ..App::default()
    };
    assert_eq!(
        status(&app),
        format!("設定 1/{}", SETTINGS_ITEMS.len())
    );

    app.settings_selected = 2;
    assert!(
        status(&app).starts_with("設定 3/"),
        "{}",
        status(&app)
    );

    app.set_temporary_notice("保存しました".to_string(), t0);
    assert!(status(&app).ends_with("保存しました"));

    app.set_temporary_error("保存できません".to_string(), t0);
    assert_eq!(status(&app), "エラー: 保存できません");
}

#[test]
fn the_volume_is_rounded_to_the_even_neighbour() {
    let shown = |volume: i64| {
        let app = App {
            mode: Mode::Playing,
            playback: Playback {
                volume: Some(volume),
                ..Playback::default()
            },
            ..App::default()
        };
        status(&app)
    };
    assert!(shown(70_499).contains("vol 70 "));
    assert!(shown(70_500).contains("vol 70 "));
    assert!(shown(71_500).contains("vol 72 "));
    assert!(shown(70_501).contains("vol 71 "));
}

#[test]
fn the_fields_of_the_download_screen_go_round() {
    let mut field = DownloadField::Dir;
    for expected in [
        DownloadField::Filename,
        DownloadField::Format,
        DownloadField::Dir,
    ] {
        field = field.next();
        assert_eq!(field, expected);
        assert_eq!(field.prev().next(), field);
    }
}

#[test]
fn the_tabs_of_a_channel_keep_their_lists() {
    let mut view = ChannelView::new("UC1".to_string(), "One".to_string());
    view.state_mut().results = vec![result("a")];
    view.next_tab();
    assert_eq!(view.tab, ChannelTab::Shorts);
    assert!(view.state().results.is_empty());
    view.prev_tab();
    assert_eq!(view.state().results.len(), 1);
    assert!(view.select_tab(2));
    assert_eq!(view.tab, ChannelTab::Streams);
    assert!(!view.select_tab(3));
    assert_eq!(
        view.target(),
        Target::Channel {
            id: "UC1".to_string(),
            tab: ChannelTab::Streams
        }
    );
}

#[test]
fn a_channel_has_its_own_list_and_selection() {
    let mut app = App {
        results: vec![result("a"), result("b")],
        selected: 1,
        channel: Some(ChannelView::new("UC1".to_string(), "One".to_string())),
        ..App::default()
    };
    assert!(app.view_results().is_empty());
    assert!(app.view_selected_result().is_none());
    app.set_results(vec![result("c"), result("d")], &search_target());
    assert_eq!(app.mode, Mode::Channel);
    assert_eq!(app.view_result_ids(), ["c", "d"]);
    app.select_next();
    assert_eq!(app.view_selected(), 1);
    assert_eq!(app.selected, 1);
    assert_eq!(app.result_ids(), ["a", "b"]);
    app.set_view_scroll(4);
    assert_eq!(app.view_scroll(), 4);
    assert_eq!(app.scroll, 0);
}

#[test]
fn a_new_list_counts_as_drawn_only_once_it_was() {
    let mut app = App::default();
    assert!(app.results_are_drawn());
    app.set_results(vec![result("a")], &search_target());
    assert!(!app.results_are_drawn());
    app.mark_drawn();
    assert!(app.results_are_drawn());
}

#[test]
fn a_full_list_can_get_longer() {
    let mut app = App::default();
    app.set_results(vec![result("a"), result("b")], &search_target());
    assert!(!app.can_load_more());
    app.view_state_mut().requested_limit = 2;
    assert!(app.can_load_more());
    app.view_state_mut().requested_limit = 3;
    assert!(!app.can_load_more());
}

#[test]
fn only_rows_with_a_channel_name_one() {
    let app = App {
        results: vec![
            result("a"),
            SearchResult {
                channel_id: Some("UC1".to_string()),
                ..result("b")
            },
        ],
        ..App::default()
    };
    assert_eq!(app.view_channel_ids(), ["UC1"]);
}

#[test]
fn a_target_is_kept_within_the_video() {
    assert_eq!(clamp_target(-5_000, Some(60_000)), 0);
    assert_eq!(clamp_target(30_000, Some(60_000)), 30_000);
    assert_eq!(clamp_target(90_000, Some(60_000)), 60_000);
    assert_eq!(clamp_target(90_000, None), 90_000);
}
