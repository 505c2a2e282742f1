use tuitube::actions::open_channel;
use tuitube::app::{App, ChannelView, DownloadField, Mode, NOTICE_TTL};
use tuitube::cookies::{ChannelTab, CookieSource, Target};
use tuitube::display::{DisplayMode, FpsCap};
use tuitube::download::{begin_run, end_run, Run};
use tuitube::grid::{Dir, Layout, LayoutMode};
use tuitube::hidden::{load_from, Hidden, HiddenFile, Kind};
use tuitube::playback::Playback;
use tuitube::rect::Rect;
use tuitube::screens::{
    adjust_settings_value, close_download, close_settings, download_debug_log_path, grid_layout,
    hide_current_channel, hide_selected, move_download_focus, move_selection,
    move_settings_selection, open_download, open_settings, save_settings_to, settings_to_write,
    start_download, HIDDEN_CHANNEL_NOTICE, HIDDEN_VIDEO_NOTICE, NO_CONFIG_PATH,
};
use tuitube::search::{RunEnd, SearchResult};
use tuitube::session::Session;
use tuitube::settings::{EnvOverridden, Settings};
use tuitube::settings_item::SETTINGS_ITEMS;
use tuitube::video::CellSize;

const NOW: u64 = 1_000_000;

const CELL: CellSize = CellSize {
    width_px: 8,
    height_px: 16,
};

fn result(id: &str) -> SearchResult {
    SearchResult {
        id: id.to_string(),
        title: format!("title {id}"),
        duration: None,
        uploader: None,
        channel_id: None,
        is_live: false,
    }
}

fn grid_app(count: usize) -> App {
    let mut app = App {
        mode: Mode::Results,
        screen: Rect::new(0, 0, 80, 24),
        ..App::default()
    };
    let results: Vec<SearchResult> = (0..count).map(|i| result(&format!("id{i}"))).collect();
    app.set_results(results, &Target::Search("q".to_string()));
    app.thumbs.take_dirty();
    app
}

fn channel_grid_app() -> App {
    let mut app = App {
        mode: Mode::Results,
        screen: Rect::new(0, 0, 80, 24),
        ..App::default()
    };
    let results = vec![
        SearchResult {
            uploader: Some("One Channel".to_string()),
            channel_id: Some("UCone".to_string()),
            ..result("id0")
        },
        SearchResult {
            uploader: Some("Two Channel".to_string()),
            channel_id: Some("UCtwo".to_string()),
            ..result("id1")
        },
    ];
    app.set_results(results, &Target::Search("q".to_string()));
    app.thumbs.take_dirty();
    app
}

const CONFIG: &str = "/home/u/.config/tuitube/config.toml";

const HOME: Option<&str> = Some("/home/u");

/// The list inside the frame of an 80x24 screen: four columns and two rows.
fn shown(app: &App) -> Option<Layout> {
    grid_layout(app, Rect::new(1, 4, 78, 16), CELL)
}

fn step(app: &mut App, dir: Dir) {
    let laid_out = shown(app);
    move_selection(app, laid_out.as_ref(), dir);
}

/// An empty list of hidden things, with a place to write it to.
fn hidden_list() -> Hidden {
    load_from(Some("/home/u/.config/tuitube/hidden.toml"), &None)
}

/// What is appended to the file for a thing that is hidden.
fn appended(hidden: &Hidden, kind: Kind, id: &str, title: &str) -> String {
    let file = HiddenFile {
        videos: Vec::new(),
        channels: Vec::new(),
    };
    hidden
        .addition(kind, id, title, "", &Some(file))
        .expect("there is a place")
        .expect("it is new")
}

fn download_ready_app(target: SearchResult) -> App {
    let mut app = App {
        mode: Mode::Results,
        screen: Rect::new(0, 0, 80, 24),
        ..App::default()
    };
    app.set_results(vec![target], &Target::Search("q".to_string()));
    app
}

fn channel_download_app() -> App {
    let mut app = App {
        mode: Mode::Channel,
        screen: Rect::new(0, 0, 80, 24),
        channel: Some(ChannelView::new("UCone".to_string(), "One".to_string())),
        ..App::default()
    };
    app.set_results(
        vec![result("id0")],
        &Target::Channel {
            id: "UCone".to_string(),
            tab: ChannelTab::Videos,
        },
    );
    app
}

#[test]
fn move_selection_walks_the_grid_and_scrolls_only_when_needed() {
    let mut app = grid_app(10);
    step(&mut app, Dir::Right);
    assert_eq!(app.selected, 1);
    step(&mut app, Dir::Down);
    assert_eq!(app.selected, 5);
    step(&mut app, Dir::Up);
    assert_eq!(app.selected, 1);
    step(&mut app, Dir::Left);
    assert_eq!(app.selected, 0);
    assert_eq!(app.scroll, 0);
    assert!(!app.thumbs.take_dirty());
}

#[test]
fn move_selection_falls_back_to_the_wrapping_list_move_without_a_grid() {
    let mut app = App {
        mode: Mode::Results,
        results: vec![result("a"), result("b")],
        ..App::default()
    };
    move_selection(&mut app, None, Dir::Down);
    assert_eq!(app.selected, 1);
    move_selection(&mut app, None, Dir::Down);
    assert_eq!(app.selected, 0, "リストでは巻き戻る");
    move_selection(&mut app, None, Dir::Right);
    assert_eq!(app.selected, 0, "←→ はリストでは効かない");
}

#[test]
fn moving_below_the_last_row_scrolls_and_redraws() {
    let mut app = grid_app(40);
    app.selected = 7;
    step(&mut app, Dir::Down);
    assert_eq!(app.selected, 11);
    assert_eq!(app.scroll, 4);
    assert!(app.thumbs.take_dirty());
}

#[test]
fn moving_the_selection_stays_inside_the_channel_tab() {
    let mut session = Session::default();
    let mut app = channel_grid_app();
    open_channel(&mut app, &mut session, NOW);
    let videos: Vec<SearchResult> = (0..6).map(|i| result(&format!("v{i}"))).collect();
    let target = app.channel.as_ref().expect("channel").target();
    app.set_results(videos, &target);

    step(&mut app, Dir::Right);
    assert_eq!(app.view_selected(), 1);
    step(&mut app, Dir::Down);
    assert_eq!(app.view_selected(), 5, "格子の下の行へ");
    assert_eq!(app.selected, 0, "検索結果側の選択は触らない");
}

#[test]
fn the_settings_screen_returns_to_the_mode_it_was_opened_from() {
    for origin in [Mode::Input, Mode::Results, Mode::Channel] {
        let mut session = Session::default();
        let mut app = App {
            mode: origin,
            ..App::default()
        };
        open_settings(&mut app, &mut session);
        assert_eq!(app.mode, Mode::Settings);

        close_settings(&mut app);
        assert_eq!(app.mode, origin, "{origin:?} から開いた");
    }
}

#[test]
fn opening_the_settings_takes_the_thumbnails_off_the_screen() {
    let mut session = Session::default();
    let mut app = grid_app(4);
    app.thumbs.take_dirty();

    open_settings(&mut app, &mut session);
    assert!(session.owe_clear, "貼ってある画像を剥がす");

    close_settings(&mut app);
    assert!(app.thumbs.take_dirty(), "戻ったら貼り直す");
}

#[test]
fn the_settings_selection_wraps_at_both_ends() {
    let mut app = App::default();
    move_settings_selection(&mut app, -1);
    assert_eq!(app.settings_selected, SETTINGS_ITEMS.len() - 1);
    move_settings_selection(&mut app, 1);
    assert_eq!(app.settings_selected, 0);
    move_settings_selection(&mut app, 1);
    assert_eq!(app.settings_selected, 1);

    app.settings_selected = 99;
    move_settings_selection(&mut app, 1);
    assert!(app.settings_selected < SETTINGS_ITEMS.len());
}

#[test]
fn adjusting_changes_only_the_selected_row() {
    let mut app = App {
        settings_selected: 2,
        ..App::default()
    };
    adjust_settings_value(&mut app, 1);

    assert_eq!(
        app.settings.fps_cap.map(FpsCap::get),
        Some(20)
    );
    let untouched = Settings::default();
    assert_eq!(app.settings.display, untouched.display);
    assert_eq!(app.settings.search, untouched.search);
    assert_eq!(app.settings.thumbnails, untouched.thumbnails);
}

#[test]
fn closing_without_saving_throws_the_edits_away() {
    let mut session = Session::default();
    let mut app = App {
        mode: Mode::Results,
        ..App::default()
    };
    open_settings(&mut app, &mut session);
    app.settings.search.limit = 25;
    app.settings.search.layout = LayoutMode::List;
    app.settings.thumbnails.enabled = false;

    close_settings(&mut app);
    assert_eq!(app.settings, Settings::default(), "開いた時点へ戻す");
    assert_eq!(app.mode, Mode::Results);
}

#[test]
fn what_was_saved_survives_a_later_escape() {
    let mut session = Session::default();
    let mut app = App::default();

    open_settings(&mut app, &mut session);
    app.settings.search.limit = 25;
    save_settings_to(&mut app, Some(CONFIG), Ok(()), NOW);
    app.settings.search.limit = 40;
    close_settings(&mut app);

    assert_eq!(app.settings.search.limit, 25);
}

#[test]
fn saving_a_changed_display_mode_notes_it_takes_effect_on_next_launch() {
    let mut app = App::default();
    assert_eq!(app.display, DisplayMode::Embedded);
    app.settings.display.mode = DisplayMode::Window;

    save_settings_to(&mut app, Some(CONFIG), Ok(()), NOW);

    assert!(
        app.notice
            .as_deref()
            .is_some_and(|n| n.contains("次回起動")),
        "{:?}",
        app.notice
    );
}

#[test]
fn saving_an_unchanged_display_mode_does_not_mention_next_launch() {
    let mut app = App::default();
    app.settings.search.limit = 25;

    save_settings_to(&mut app, Some(CONFIG), Ok(()), NOW);

    assert!(
        app.notice
            .as_deref()
            .is_some_and(|n| !n.contains("次回起動")),
        "{:?}",
        app.notice
    );
}

#[test]
fn saving_leaves_the_values_the_environment_is_holding_alone() {
    let mut app = App {
        mode: Mode::Settings,
        env_overridden: EnvOverridden {
            fps_cap: Some(FpsCap::new(15)),
            ..EnvOverridden::default()
        },
        ..App::default()
    };
    app.settings.fps_cap = FpsCap::new(60);
    app.settings.search.limit = 25;
    let written = settings_to_write(&app);
    save_settings_to(&mut app, Some(CONFIG), Ok(()), NOW);

    assert_eq!(written.fps_cap.map(FpsCap::get), Some(15), "ファイルの値のまま");
    assert_eq!(written.search.limit, 25, "他の行の編集は保存する");

    let notice = app.notice.clone().expect("保存した旨を出す");
    assert!(notice.contains("fps_cap"), "{notice}");
    assert!(app.error.is_none());
}

#[test]
fn a_browser_the_environment_switched_off_is_not_written_back() {
    let browser = CookieSource::from_spec(Some("chrome"));
    let mut app = App {
        env_overridden: EnvOverridden {
            cookies: Some(browser.clone()),
            ..EnvOverridden::default()
        },
        ..App::default()
    };
    assert_eq!(app.settings.cookies, None, "実行中は連携なし");
    let written = settings_to_write(&app);
    save_settings_to(&mut app, Some(CONFIG), Ok(()), NOW);

    assert_eq!(written.cookies, browser);
    let notice = app.notice.clone().expect("保存した旨を出す");
    assert!(notice.contains("cookies.browser"), "{notice}");
}

#[test]
fn saving_writes_the_edited_settings_to_the_file() {
    let mut app = App {
        mode: Mode::Settings,
        ..App::default()
    };
    app.settings.search.limit = 25;
    assert_eq!(settings_to_write(&app), app.settings);
    save_settings_to(&mut app, Some(CONFIG), Ok(()), NOW);

    let notice = app.notice.clone().expect("保存した旨を出す");
    assert!(notice.contains("config.toml"), "{notice}");
    assert!(app.error.is_none());
    assert_eq!(app.mode, Mode::Settings, "保存しても閉じない");
}

#[test]
fn a_save_that_cannot_write_reports_the_reason() {
    let mut app = App::default();
    let failed = Err("書けない".to_string());
    save_settings_to(&mut app, Some(CONFIG), failed, NOW);
    let error = app.error.clone().expect("理由を出す");
    assert!(error.contains("保存できません"), "{error}");
    assert!(app.notice.is_none());

    let mut app = App::default();
    save_settings_to(&mut app, None, Ok(()), NOW);
    assert_eq!(app.error.as_deref(), Some(NO_CONFIG_PATH));
}

#[test]
fn a_save_error_disappears_on_its_own() {
    let mut app = App::default();
    save_settings_to(&mut app, None, Ok(()), NOW);
    app.expire_error(NOW + NOTICE_TTL);
    assert!(app.error.is_none());
}

#[test]
fn hiding_the_selected_video_writes_it_and_takes_it_off_the_list() {
    let hidden = hidden_list();
    let mut app = App {
        hidden,
        ..channel_grid_app()
    };
    app.selected = 1;

    let written = appended(&app.hidden, Kind::Video, "id1", "title id1");
    hide_selected(&mut app, Ok(()), NOW);

    assert_eq!(app.result_ids(), ["id0"], "その場で消える");
    assert!(app.hidden.videos.contains("id1"));
    assert!(written.contains("id1"), "{written}");
    assert!(
        written.contains("title id1"),
        "見返す用の題名も書く: {written}"
    );
    assert_eq!(app.notice.as_deref(), Some(HIDDEN_VIDEO_NOTICE));
    assert!(app.notice_until.is_some(), "期限つきで出す");
    assert!(app.error.is_none());
}

#[test]
fn hiding_clamps_the_selection_to_what_is_left() {
    let hidden = hidden_list();
    let mut app = App {
        hidden,
        ..grid_app(3)
    };
    app.selected = 2;

    hide_selected(&mut app, Ok(()), NOW);

    assert_eq!(app.result_ids(), ["id0", "id1"]);
    assert_eq!(app.selected, 1, "末尾を消したら手前へ寄せる");
}

#[test]
fn hiding_the_last_row_goes_back_to_the_search_box() {
    let hidden = hidden_list();
    let mut app = App {
        hidden,
        ..grid_app(1)
    };

    hide_selected(&mut app, Ok(()), NOW);

    assert!(app.results.is_empty());
    assert_eq!(app.mode, Mode::Input, "空の格子に留めない");
    assert_eq!(app.notice.as_deref(), Some(HIDDEN_VIDEO_NOTICE));
}

#[test]
fn hiding_a_row_in_a_channel_stays_in_the_channel() {
    let hidden = hidden_list();
    let mut app = App {
        hidden,
        ..channel_grid_app()
    };
    app.channel = Some(ChannelView::new(
        "UCone".to_string(),
        "One Channel".to_string(),
    ));
    app.channel.as_mut().expect("channel").state_mut().results = vec![result("only")];
    app.mode = Mode::Channel;
    app.sync_from_view();

    hide_selected(&mut app, Ok(()), NOW);

    assert!(app.view_results().is_empty());
    assert_eq!(app.mode, Mode::Channel, "Esc で戻れる画面のままにする");
}

#[test]
fn hiding_stays_hidden_on_the_next_search() {
    let hidden = hidden_list();
    let mut app = App {
        hidden,
        ..grid_app(2)
    };

    hide_selected(&mut app, Ok(()), NOW);
    app.set_results(
        vec![result("id0"), result("id9")],
        &Target::Search("q".to_string()),
    );

    assert_eq!(app.result_ids(), ["id9"]);
}

#[test]
fn hiding_the_channel_of_every_result_leaves_the_search_box() {
    let hidden = hidden_list();
    let mut session = Session::default();
    let mut app = App {
        hidden,
        ..channel_grid_app()
    };
    app.tabs.state_mut().results = vec![SearchResult {
        channel_id: Some("UCone".to_string()),
        ..result("id0")
    }];
    app.sync_from_tab();
    app.channel = Some(ChannelView::new(
        "UCone".to_string(),
        "One Channel".to_string(),
    ));
    app.mode = Mode::Channel;

    hide_current_channel(&mut app, &mut session, Ok(()), NOW);

    assert!(app.results.is_empty());
    assert_eq!(app.mode, Mode::Input, "見るものが無ければ検索欄へ戻す");
    assert_eq!(app.notice.as_deref(), Some(HIDDEN_CHANNEL_NOTICE));
}

#[test]
fn hiding_without_a_selection_does_nothing() {
    let hidden = hidden_list();
    let mut app = App {
        hidden,
        ..App::default()
    };

    hide_selected(&mut app, Ok(()), NOW);

    assert!(app.hidden.videos.is_empty());
    assert!(app.notice.is_none());
    assert!(app.error.is_none());
}

#[test]
fn hiding_the_channel_writes_it_and_returns_to_the_results() {
    let hidden = hidden_list();
    let mut session = Session::default();
    let mut app = App {
        hidden,
        ..channel_grid_app()
    };
    app.store_to_tab();
    app.channel = Some(ChannelView::new(
        "UCone".to_string(),
        "One Channel".to_string(),
    ));
    app.mode = Mode::Channel;
    app.sync_from_view();

    let written = appended(&app.hidden, Kind::Channel, "UCone", "One Channel");
    hide_current_channel(&mut app, &mut session, Ok(()), NOW);

    assert!(app.channel.is_none(), "チャンネルから出る");
    assert_eq!(app.mode, Mode::Results);
    assert!(app.hidden.channels.contains("UCone"));
    assert!(written.contains("UCone"), "{written}");
    assert!(written.contains("One Channel"), "{written}");
    assert_eq!(app.notice.as_deref(), Some(HIDDEN_CHANNEL_NOTICE));
    assert_eq!(app.result_ids(), ["id1"]);
    assert_eq!(app.hidden.channels.items(), ["UCone"]);
}

#[test]
fn hiding_a_channel_outside_the_channel_view_does_nothing() {
    let hidden = hidden_list();
    let mut session = Session::default();
    let mut app = App {
        hidden,
        ..grid_app(2)
    };

    hide_current_channel(&mut app, &mut session, Ok(()), NOW);

    assert!(app.hidden.channels.is_empty());
    assert!(app.notice.is_none());
    assert_eq!(app.result_ids(), ["id0", "id1"]);
}

#[test]
fn a_hide_that_cannot_be_written_reports_the_reason_and_keeps_the_row() {
    let mut app = App {
        hidden: hidden_list(),
        ..grid_app(2)
    };

    let failed = Err("書けない".to_string());
    hide_selected(&mut app, failed, NOW);

    assert_eq!(app.result_ids(), ["id0", "id1"], "消せていないので残す");
    assert!(app.hidden.videos.is_empty());
    let error = app.error.clone().expect("理由を出す");
    assert!(error.contains("非表示"), "{error}");
    assert!(app.error_until.is_some(), "期限つきで出す");
}

#[test]
fn opening_the_download_screen_from_results_uses_the_selected_row() {
    let mut session = Session::default();
    let mut app = download_ready_app(SearchResult {
        title: "面白い/動画".to_string(),
        ..result("id0")
    });

    open_download(&mut app, &mut session, HOME);

    assert_eq!(app.mode, Mode::Download);
    assert_eq!(app.download_return, Mode::Results);
    assert_eq!(app.download_url, "https://www.youtube.com/watch?v=id0");
    assert_eq!(app.download_filename, "面白い_動画");
    assert_eq!(app.download_focus, DownloadField::Dir);
    assert!(!app.download_audio_only, "既定は動画");
    assert!(session.owe_clear, "貼ってあるサムネイルを剥がす");
}

#[test]
fn opening_the_download_screen_from_playing_uses_the_playback() {
    let mut session = Session::default();
    let mut app = App {
        mode: Mode::Playing,
        playback: Playback {
            title: "再生中の動画".to_string(),
            url: "https://www.youtube.com/watch?v=live1".to_string(),
            ..Playback::default()
        },
        ..App::default()
    };

    open_download(&mut app, &mut session, HOME);

    assert_eq!(app.download_return, Mode::Playing);
    assert_eq!(app.download_url, "https://www.youtube.com/watch?v=live1");
    assert_eq!(app.download_filename, "再生中の動画");
}

#[test]
fn opening_the_download_screen_without_a_selection_does_nothing() {
    let mut session = Session::default();
    let mut app = App {
        mode: Mode::Results,
        ..App::default()
    };

    open_download(&mut app, &mut session, HOME);

    assert_eq!(app.mode, Mode::Results, "一覧が空では開かない");
}

#[test]
fn the_download_screen_returns_to_the_mode_it_was_opened_from() {
    for mut app in [download_ready_app(result("id0")), channel_download_app()] {
        let origin = app.mode;
        let mut session = Session::default();

        open_download(&mut app, &mut session, HOME);
        assert_eq!(app.mode, Mode::Download, "{origin:?}");

        close_download(&mut app);
        assert_eq!(app.mode, origin, "{origin:?} から開いた");
    }
}

#[test]
fn closing_the_download_screen_marks_the_thumbnails_dirty_again() {
    let mut session = Session::default();
    let mut app = grid_app(4);
    app.thumbs.take_dirty();

    open_download(&mut app, &mut session, HOME);
    assert!(session.owe_clear);

    close_download(&mut app);
    assert!(app.thumbs.take_dirty(), "戻ったら貼り直す");
}

#[test]
fn the_download_focus_wraps_at_both_ends() {
    let mut app = App::default();
    assert_eq!(app.download_focus, DownloadField::Dir);

    move_download_focus(&mut app, -1);
    assert_eq!(app.download_focus, DownloadField::Format, "巻き戻る");

    move_download_focus(&mut app, 1);
    assert_eq!(app.download_focus, DownloadField::Dir);
    move_download_focus(&mut app, 1);
    assert_eq!(app.download_focus, DownloadField::Filename);
}

#[test]
fn starting_a_download_with_an_empty_directory_is_refused() {
    let mut session = Session::default();
    let mut app = download_ready_app(result("id0"));
    open_download(&mut app, &mut session, HOME);
    app.download_dir = String::from("   ");
    app.download_filename = String::from("title");

    start_download(&mut app, &mut session, None, HOME, NOW);

    assert_eq!(app.mode, Mode::Download, "断ったら画面を閉じない");
    assert!(!session.download_task, "起動しない");
    assert!(
        app.error
            .as_deref()
            .is_some_and(|e| e.contains("入力してください")),
        "{:?}",
        app.error
    );
}

#[test]
fn starting_a_download_with_an_empty_filename_is_refused() {
    let mut session = Session::default();
    let mut app = download_ready_app(result("id0"));
    open_download(&mut app, &mut session, HOME);
    app.download_filename = String::from("");

    start_download(&mut app, &mut session, None, HOME, NOW);

    assert_eq!(app.mode, Mode::Download);
    assert!(!session.download_task);
}

#[test]
fn opening_the_download_screen_defaults_the_dir_from_settings() {
    let mut session = Session::default();
    let mut app = download_ready_app(result("id0"));
    app.settings.download.dir = Some("/configured/dir".to_string());

    open_download(&mut app, &mut session, HOME);

    assert_eq!(app.download_dir, "/configured/dir");
}

#[test]
fn starting_a_download_spawns_the_task_with_the_entered_values() {
    let mut session = Session::default();
    let mut app = download_ready_app(result("id0"));
    open_download(&mut app, &mut session, HOME);
    app.download_dir = String::from("/tmp/tuitube-dl");
    app.download_filename = String::from("my-title");
    app.download_audio_only = true;

    let order = start_download(&mut app, &mut session, None, HOME, NOW).expect("始まる");

    assert_eq!(app.mode, Mode::Results);
    assert_eq!(app.notice.as_deref(), Some("ダウンロード中: my-title"));
    assert!(session.download_task);
    assert_eq!(order.nonce, session.download_nonce);

    let run: Run = begin_run(&order.dir, &order.filename, order.audio_only, &order.url, HOME);
    assert!(run.args.contains(&"--audio-format".to_string()), "{:?}", run.args);
    assert!(
        run.args
            .contains(&"/tmp/tuitube-dl/my-title.%(ext)s".to_string()),
        "{:?}",
        run.args
    );
    assert!(
        run.args
            .contains(&"https://www.youtube.com/watch?v=id0".to_string()),
        "{:?}",
        run.args
    );

    let end = RunEnd::Finished {
        code: Some(0),
        stdout: "/tmp/tuitube-dl/my-title.mp3\n".to_string(),
        stderr: String::new(),
    };
    let report = end_run(&run, &end, order.debug_log_path.as_deref(), 0);
    assert_eq!(
        report.told.expect("成功"),
        "保存しました: /tmp/tuitube-dl/my-title.mp3"
    );
}

#[test]
fn starting_a_download_resanitizes_a_filename_retyped_after_opening() {
    let mut session = Session::default();
    let mut app = download_ready_app(result("id0"));
    open_download(&mut app, &mut session, HOME);
    app.download_dir = String::from("/tmp/tuitube-dl");
    app.download_filename = String::from("../../etc/evil");

    let order = start_download(&mut app, &mut session, None, HOME, NOW).expect("始まる");
    let run = begin_run(&order.dir, &order.filename, order.audio_only, &order.url, HOME);
    assert!(
        run.args
            .contains(&"/tmp/tuitube-dl/.._.._etc_evil.%(ext)s".to_string()),
        "パス区切りが残っていない: {:?}",
        run.args
    );
}

#[test]
fn starting_a_new_download_cancels_the_previous_one() {
    let mut session = Session::default();
    let mut app = download_ready_app(result("id0"));
    open_download(&mut app, &mut session, HOME);
    app.download_dir = String::from("/tmp/tuitube-dl");
    app.download_filename = String::from("first");
    start_download(&mut app, &mut session, None, HOME, NOW);
    let first_nonce = session.download_nonce;
    assert!(session.download_task);

    open_download(&mut app, &mut session, HOME);
    app.download_dir = String::from("/tmp/tuitube-dl");
    app.download_filename = String::from("second");
    start_download(&mut app, &mut session, None, HOME, NOW);

    assert_ne!(session.download_nonce, first_nonce, "世代が進む");
    assert!(session.download_task, "新しい方は走らせたまま");
}

#[test]
fn download_debug_log_path_is_none_unless_enabled() {
    assert_eq!(download_debug_log_path(false, None, HOME), None);
    assert!(
        download_debug_log_path(true, None, HOME).is_some(),
        "HOME はテスト環境にもある"
    );
}
