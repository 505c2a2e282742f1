//! Cookies, feeds, and how they change a search.

use tuitube::cookies::{
    classify, cookie_store_failure, describe, login_required_message, names_cookies,
    store_failure_in, strip_prefix, ChannelTab, CookieOutcome, CookieSource, CookieState, Feed,
    Target,
};
use tuitube::grid::display_width;

const TIMEOUT: u64 = 30;

fn source(spec: &str) -> CookieSource {
    CookieSource::from_spec(Some(spec)).expect("spec")
}

fn file_source(path: &str) -> CookieSource {
    CookieSource::from_file(Some(path)).expect("path")
}

#[test]
fn from_spec_trims_and_rejects_blank() {
    assert_eq!(CookieSource::from_spec(None), None);
    assert_eq!(CookieSource::from_spec(Some("")), None);
    assert_eq!(CookieSource::from_spec(Some("  ")), None);
    assert_eq!(
        CookieSource::from_spec(Some(" chrome:Profile 1 "))
            .expect("値がある")
            .spec(),
        Some("chrome:Profile 1")
    );
}

#[test]
fn from_file_rejects_an_empty_path() {
    assert_eq!(CookieSource::from_file(None), None);
    assert_eq!(CookieSource::from_file(Some("")), None);
    assert_eq!(
        CookieSource::from_file(Some("/tmp/cookies.txt")),
        Some(CookieSource::File("/tmp/cookies.txt".to_string()))
    );
}

#[test]
fn a_source_carries_either_a_browser_spec_or_a_path() {
    let browser = source("chrome:Profile 1");
    assert_eq!(browser.spec(), Some("chrome:Profile 1"));
    assert_eq!(browser.file(), None);

    let file = file_source("/tmp/cookies.txt");
    assert_eq!(file.spec(), None);
    assert_eq!(file.browser(), None);
    assert_eq!(file.file(), Some("/tmp/cookies.txt"));
}

#[test]
fn yt_dlp_args_for_a_file_pass_the_path_to_the_cookies_flag() {
    assert_eq!(
        file_source("/tmp/my cookies.txt").yt_dlp_args(),
        ["--cookies".to_string(), "/tmp/my cookies.txt".to_string()]
    );
}

#[test]
fn mpv_arg_for_a_file_uses_the_cookies_option() {
    assert_eq!(
        file_source("/tmp/my cookies.txt").mpv_arg(),
        "--ytdl-raw-options-append=cookies=/tmp/my cookies.txt"
    );
}

#[test]
fn a_file_source_is_labelled_by_its_file_name() {
    assert_eq!(
        file_source("/home/u/.config/tuitube/cookies.txt").label(),
        "cookies.txt"
    );
    assert_eq!(file_source("/").label(), "/");
    assert_eq!(source("chrome:Profile 1").label(), "chrome");

    let file = file_source("/tmp/cookies.txt");
    assert_eq!(
        CookieState::Armed(file.clone()).label().as_deref(),
        Some("cookies: cookies.txt")
    );
    assert_eq!(
        CookieState::Suspended {
            source: file,
            reason: "理由".to_string()
        }
        .label()
        .as_deref(),
        Some("cookies: cookies.txt (停止)")
    );
}

#[test]
fn full_disk_access_is_not_suggested_for_a_cookie_file() {
    let outcome = classify(
        Some(1),
        "ERROR: [Errno 1] Operation not permitted: '/tmp/cookies.txt'",
    );
    let text = describe(&outcome, &file_source("/tmp/cookies.txt"), TIMEOUT);
    assert!(!text.contains("フルディスクアクセス"), "{text}");
    assert!(text.contains("cookies.txt"), "{text}");
    assert!(text.contains("Operation not permitted"), "{text}");
}

#[test]
fn a_file_source_names_the_file_when_login_is_required() {
    let message = login_required_message(Feed::History, &file_source("/tmp/cookies.txt"));
    assert!(message.starts_with("履歴"), "{message}");
    assert!(message.contains("cookies.txt"), "{message}");
}

#[test]
fn an_empty_feed_points_at_whichever_cookie_source_is_in_use() {
    let feed = Target::Feed(Feed::Subscriptions);

    let message = feed.empty_message(Some(&file_source("/tmp/cookies.txt")));
    assert!(message.contains("cookies.txt"), "{message}");
    assert!(!message.contains("ブラウザ"), "{message}");

    let message = feed.empty_message(Some(&source("chrome:Profile 1")));
    assert!(message.contains("chrome"), "{message}");
}

#[test]
fn from_source_arms_when_present_and_is_off_otherwise() {
    let src = source("chrome");
    assert_eq!(
        CookieState::from_source(Some(src.clone())),
        CookieState::Armed(src)
    );
    assert_eq!(CookieState::from_source(None), CookieState::Off);
}

#[test]
fn refusal_names_the_config_key_and_fits_one_status_row() {
    for feed in Feed::all() {
        let off = CookieState::Off.refusal(feed);
        assert!(off.contains("[cookies] browser"), "{off}");
        assert!(off.contains("file"), "{off}");
        assert!(off.contains(feed.label()), "{off}");
        let width = display_width(&format!("エラー: {off}"));
        assert!(width <= 80, "{width} 桁: {off}");
    }
}

#[test]
fn browser_is_the_part_before_profile_or_keyring() {
    assert_eq!(source("chrome:Profile 1").browser().as_deref(), Some("chrome"));
    assert_eq!(source("chrome+basictext").browser().as_deref(), Some("chrome"));
    assert_eq!(source("firefox::work").browser().as_deref(), Some("firefox"));
    assert_eq!(source("safari").browser().as_deref(), Some("safari"));
}

#[test]
fn yt_dlp_args_are_two_argv_entries() {
    assert_eq!(
        source("chrome:Profile 1").yt_dlp_args(),
        [
            "--cookies-from-browser".to_string(),
            "chrome:Profile 1".to_string()
        ]
    );
}

#[test]
fn mpv_arg_uses_the_append_form_verbatim() {
    assert_eq!(
        source("chrome:Profile 1").mpv_arg(),
        "--ytdl-raw-options-append=cookies-from-browser=chrome:Profile 1"
    );
}

#[test]
fn classify_ok_when_exit_zero_and_no_cookie_warning() {
    assert_eq!(classify(Some(0), ""), CookieOutcome::Accepted);
}

#[test]
fn classify_degraded_on_keychain_warnings() {
    let stderr = "WARNING: find-generic-password failed\nWARNING: cannot decrypt v10 cookies: no key found\n";
    let outcome = classify(Some(0), stderr);
    assert!(matches!(outcome, CookieOutcome::Degraded(_)), "{outcome:?}");
    assert_eq!(
        classify(
            Some(0),
            "Extracted 0 cookies from chrome (444 could not be decrypted)"
        ),
        CookieOutcome::Degraded(
            "Extracted 0 cookies from chrome (444 could not be decrypted)".to_string()
        )
    );
}

#[test]
fn classify_unreadable_for_each_observed_error() {
    let cases = [
        (
            1,
            "ERROR: could not find firefox cookies database in '/Users/x/Library/Application Support/Firefox/Profiles'",
        ),
        (
            1,
            "ERROR: could not find chrome cookies database in \"/Users/x/Library/Application Support/Google/Chrome/NoSuchProfile\"",
        ),
        (
            2,
            "yt-dlp: error: unsupported browser specified for cookies: \"arc\". Supported browsers are: brave, chrome, chromium, edge, firefox, opera, safari, vivaldi, whale",
        ),
        (
            1,
            "ERROR: [Errno 1] Operation not permitted: '/Users/x/Library/Containers/com.apple.Safari/Data/Library/Cookies/Cookies.binarycookies'",
        ),
        (
            1,
            "ERROR: [Errno 13] Permission denied: '/tmp/x.binarycookies'",
        ),
        (1, "ERROR: custom safari cookies database not found"),
        (
            1,
            "ERROR: _parse_browser_specification() missing 1 required positional argument: 'browser_name'",
        ),
    ];
    for (code, stderr) in cases {
        let outcome = classify(Some(code), stderr);
        let CookieOutcome::Unreadable(detail) = outcome else {
            panic!("Unreadable のはず: {stderr}");
        };
        assert!(!detail.starts_with("ERROR:"), "{detail}");
        assert!(!detail.is_empty());
    }
}

#[test]
fn classify_login_required() {
    let stderr = "ERROR: [youtube:history] Login details are needed to download this content. Use --cookies-from-browser or --cookies for the authentication. See  https://github.com/yt-dlp/yt-dlp/wiki/FAQ#how-do-i-pass-cookies-to-yt-dlp  for how to manually pass cookies.";
    assert_eq!(classify(Some(1), stderr), CookieOutcome::LoginRequired);
}

#[test]
fn classify_unknown_for_unrelated_failures() {
    assert_eq!(
        classify(
            Some(1),
            "ERROR: [youtube:search] Unable to download webpage: <urlopen error>"
        ),
        CookieOutcome::Unknown
    );
    assert_eq!(classify(None, ""), CookieOutcome::Unknown);
}

#[test]
fn describe_mentions_full_disk_access_for_safari_tcc() {
    let outcome = classify(
        Some(1),
        "ERROR: [Errno 1] Operation not permitted: '/Users/x/Library/Containers/com.apple.Safari/Data/Library/Cookies/Cookies.binarycookies'",
    );
    let text = describe(&outcome, &source("safari"), TIMEOUT);
    assert!(text.contains("フルディスクアクセス"), "{text}");

    let other = classify(
        Some(1),
        "ERROR: could not find firefox cookies database in '/x/Profiles'",
    );
    let text = describe(&other, &source("firefox"), TIMEOUT);
    assert!(text.contains("firefox"), "{text}");
    assert!(
        text.contains("could not find firefox cookies database"),
        "{text}"
    );
    assert!(text.contains("cookie 無しで検索しました"), "{text}");
}

#[test]
fn the_timeout_notice_names_the_seconds_that_were_actually_used() {
    for secs in [5, 30, 120, 300] {
        let text = describe(
            &CookieOutcome::TimedOut,
            &source("chrome"),
            secs,
        );
        assert!(text.contains(&format!("{secs} 秒")), "{text}");
        assert!(text.contains("キーチェーン"), "{text}");
    }
}

#[test]
fn suspending_on_a_timeout_keeps_the_seconds_in_the_reason() {
    let mut state = CookieState::Armed(source("chrome"));
    state.observe(&CookieOutcome::TimedOut, 120);
    let CookieState::Suspended { reason, .. } = state else {
        panic!("停止する");
    };
    assert!(reason.contains("120 秒"), "{reason}");
}

#[test]
fn full_disk_access_is_not_suggested_for_other_browsers() {
    let outcome = classify(
        Some(1),
        "ERROR: [Errno 1] Operation not permitted: '/Users/x/Library/Application Support/Google/Chrome/Default/Cookies'",
    );
    let text = describe(&outcome, &source("chrome:Profile 1"), TIMEOUT);
    assert!(!text.contains("フルディスクアクセス"), "{text}");
    assert!(text.contains("chrome"), "{text}");
    assert!(text.contains("Operation not permitted"), "{text}");

    let text = describe(&outcome, &source("Safari"), TIMEOUT);
    assert!(text.contains("フルディスクアクセス"), "{text}");
}

#[test]
fn cookie_store_failure_ignores_permission_errors_about_other_files() {
    let chrome = source("chrome");
    assert_eq!(
        cookie_store_failure("Operation not permitted: '/dev/dsp'", &chrome),
        None
    );
    assert_eq!(
        cookie_store_failure("Permission denied: '/x.mkv'", &chrome),
        None
    );
    assert_eq!(
        cookie_store_failure("Failed to recognize file format.", &chrome),
        None
    );

    assert_eq!(
        cookie_store_failure(
            "ERROR: could not find chrome cookies database in '/x'",
            &chrome
        ),
        Some("could not find chrome cookies database in '/x'".to_string())
    );
    assert_eq!(
        cookie_store_failure(
            "ERROR: [Errno 13] Permission denied: '/Users/x/Library/Cookies/Cookies.binarycookies'",
            &chrome
        ),
        Some(
            "[Errno 13] Permission denied: '/Users/x/Library/Cookies/Cookies.binarycookies'"
                .to_string()
        )
    );
    assert_eq!(
        cookie_store_failure(
            "yt-dlp: error: unsupported browser specified for cookies: \"arc\"",
            &chrome
        ),
        Some("unsupported browser specified for cookies: \"arc\"".to_string())
    );
}

#[test]
fn a_cookie_file_is_recognised_by_its_path_whatever_it_is_named() {
    let file = file_source("/home/ubuntu/.config/tuitube/yt.txt");
    assert_eq!(
        cookie_store_failure(
            "ERROR: [Errno 13] Permission denied: '/home/ubuntu/.config/tuitube/yt.txt'",
            &file
        ),
        Some("[Errno 13] Permission denied: '/home/ubuntu/.config/tuitube/yt.txt'".to_string())
    );
    assert_eq!(
        cookie_store_failure("Permission denied: '/home/ubuntu/movie.mkv'", &file),
        None
    );
    assert_eq!(
        cookie_store_failure(
            "ERROR: [Errno 13] Permission denied: '/home/ubuntu/.config/tuitube/yt.txt'",
            &source("chrome")
        ),
        None
    );
}

#[test]
fn state_transitions_follow_the_table() {
    let src = source("chrome");
    let outcomes = [
        CookieOutcome::NotUsed,
        CookieOutcome::Accepted,
        CookieOutcome::Degraded("d".to_string()),
        CookieOutcome::Unreadable("u".to_string()),
        CookieOutcome::LoginRequired,
        CookieOutcome::TimedOut,
        CookieOutcome::Unknown,
    ];

    for outcome in &outcomes {
        let mut state = CookieState::Off;
        state.observe(outcome, TIMEOUT);
        assert_eq!(state, CookieState::Off, "{outcome:?}");
    }

    for outcome in &outcomes {
        let mut state = CookieState::Suspended {
            source: src.clone(),
            reason: "理由".to_string(),
        };
        state.observe(outcome, TIMEOUT);
        assert!(
            matches!(state, CookieState::Suspended { .. }),
            "{outcome:?}"
        );
    }

    let armed = |outcome: &CookieOutcome| {
        let mut state = CookieState::Armed(src.clone());
        state.observe(outcome, TIMEOUT);
        state
    };
    assert_eq!(armed(&CookieOutcome::Accepted), CookieState::Active(src.clone()));
    for outcome in [
        CookieOutcome::Degraded("d".to_string()),
        CookieOutcome::Unreadable("u".to_string()),
        CookieOutcome::TimedOut,
    ] {
        assert!(
            matches!(armed(&outcome), CookieState::Suspended { .. }),
            "{outcome:?}"
        );
    }
    for outcome in [
        CookieOutcome::LoginRequired,
        CookieOutcome::Unknown,
        CookieOutcome::NotUsed,
    ] {
        assert_eq!(
            armed(&outcome),
            CookieState::Armed(src.clone()),
            "{outcome:?}"
        );
    }

    let active = |outcome: &CookieOutcome| {
        let mut state = CookieState::Active(src.clone());
        state.observe(outcome, TIMEOUT);
        state
    };
    for outcome in [
        CookieOutcome::Accepted,
        CookieOutcome::LoginRequired,
        CookieOutcome::Unknown,
        CookieOutcome::NotUsed,
        CookieOutcome::TimedOut,
    ] {
        assert_eq!(
            active(&outcome),
            CookieState::Active(src.clone()),
            "{outcome:?}"
        );
    }
    for outcome in [
        CookieOutcome::Degraded("d".to_string()),
        CookieOutcome::Unreadable("u".to_string()),
    ] {
        assert!(
            matches!(active(&outcome), CookieState::Suspended { .. }),
            "{outcome:?}"
        );
    }

    let mut off = CookieState::Off;
    off.suspend("理由".to_string());
    assert_eq!(off, CookieState::Off);
    let mut state = CookieState::Active(src.clone());
    state.suspend("理由".to_string());
    assert_eq!(
        state,
        CookieState::Suspended {
            source: src,
            reason: "理由".to_string()
        }
    );
}

#[test]
fn for_playback_is_some_only_when_active() {
    let src = source("chrome");
    assert!(CookieState::Off.for_playback().is_none());
    assert!(CookieState::Armed(src.clone()).for_playback().is_none());
    assert_eq!(CookieState::Active(src.clone()).for_playback(), Some(&src));
    assert!(
        CookieState::Suspended {
            source: src.clone(),
            reason: "理由".to_string()
        }
        .for_playback()
        .is_none()
    );

    assert_eq!(CookieState::Armed(src.clone()).for_search(), Some(&src));
    assert_eq!(CookieState::Active(src.clone()).for_search(), Some(&src));
    assert!(CookieState::Off.for_search().is_none());
    assert!(
        CookieState::Suspended {
            source: src,
            reason: "理由".to_string()
        }
        .for_search()
        .is_none()
    );
}

#[test]
fn label_is_none_when_off_and_marks_suspended() {
    let src = source("chrome:Profile 1");
    assert_eq!(CookieState::Off.label(), None);
    assert_eq!(
        CookieState::Armed(src.clone()).label().as_deref(),
        Some("cookies: chrome")
    );
    assert_eq!(
        CookieState::Active(src.clone()).label().as_deref(),
        Some("cookies: chrome")
    );
    assert_eq!(
        CookieState::Suspended {
            source: src,
            reason: "理由".to_string()
        }
        .label()
        .as_deref(),
        Some("cookies: chrome (停止)")
    );
}

#[test]
fn feed_parse_matches_keywords_exactly() {
    assert_eq!(Feed::parse(":ytrec"), Some(Feed::Recommended));
    assert_eq!(Feed::parse(":ythis"), Some(Feed::History));
    assert_eq!(Feed::parse(":ythistory"), Some(Feed::History));
    assert_eq!(Feed::parse(":ytsubs"), Some(Feed::Subscriptions));
    assert_eq!(Feed::parse(":ytwatchlater"), Some(Feed::WatchLater));
    assert_eq!(Feed::parse(":ytfoo"), None);
    assert_eq!(Feed::parse("ytrec"), None);
    assert_eq!(Feed::parse(":ytrec の使い方"), None);
    assert_eq!(Feed::History.keyword(), ":ythis");

    for feed in Feed::all() {
        assert_eq!(Feed::parse(feed.keyword()), Some(feed), "{}", feed.label());
    }
}

#[test]
fn target_for_query_wraps_searches_and_passes_feeds() {
    let target = Target::for_query("rust tui");
    assert_eq!(target, Target::Search("rust tui".to_string()));
    assert_eq!(target.yt_dlp_url(10), "ytsearch10:rust tui");
    assert_eq!(target.yt_dlp_url(25), "ytsearch25:rust tui");

    let target = Target::for_query(" :ytsubs ");
    assert_eq!(target, Target::Feed(Feed::Subscriptions));
    assert_eq!(target.yt_dlp_url(10), ":ytsubs");
    assert_eq!(target.yt_dlp_url(25), ":ytsubs");
}

#[test]
fn feeds_require_login_and_searches_do_not() {
    assert!(!Target::Search("q".to_string()).requires_login());
    assert!(Target::Feed(Feed::Recommended).requires_login());

    assert_eq!(
        Target::Search("q".to_string()).empty_message(None),
        "検索結果が0件でした"
    );
    let message = Target::Feed(Feed::Recommended).empty_message(None);
    assert!(message.starts_with("おすすめ"), "{message}");
    assert!(message.contains("ログイン"), "{message}");

    let off = CookieState::Off.refusal(Feed::History);
    assert!(off.contains("[cookies] browser"), "{off}");
    let suspended = CookieState::Suspended {
        source: source("chrome"),
        reason: "読めませんでした".to_string(),
    }
    .refusal(Feed::History);
    assert!(suspended.contains("停止中"), "{suspended}");
    assert!(suspended.contains("読めませんでした"), "{suspended}");

    let message = login_required_message(Feed::History, &source("chrome"));
    assert!(message.starts_with("履歴"), "{message}");
    assert!(message.contains("chrome"), "{message}");
}

#[test]
fn a_channel_is_searched_by_its_tab() {
    let target = Target::Channel {
        id: "UCabc".to_string(),
        tab: ChannelTab::Shorts,
    };
    assert_eq!(
        target.yt_dlp_url(10),
        "https://www.youtube.com/channel/UCabc/shorts"
    );
    assert!(!target.requires_login());
}

#[test]
fn the_tabs_of_a_channel_are_found_by_their_place() {
    for place in 0..3 {
        assert_eq!(
            ChannelTab::from_index(place).map(ChannelTab::index),
            Some(place)
        );
    }
    assert_eq!(ChannelTab::from_index(3), None);
}

#[test]
fn the_ornaments_of_a_message_are_dropped() {
    assert_eq!(strip_prefix("ERROR: broken"), "broken");
    assert_eq!(strip_prefix("yt-dlp: error: broken"), "broken");
    assert_eq!(strip_prefix("broken"), "broken");
}

#[test]
fn a_line_is_about_cookies_by_its_words_or_by_the_file() {
    let chrome = source("chrome");
    assert!(names_cookies("the Cookies file", "the cookies file", &chrome));
    assert!(!names_cookies("a movie", "a movie", &chrome));
    let file = file_source("/tmp/yt.txt");
    assert!(names_cookies(
        "Permission denied: '/tmp/yt.txt'",
        "permission denied: '/tmp/yt.txt'",
        &file
    ));
}

#[test]
fn capital_letters_do_not_hide_a_cookie_store() {
    let lines = vec!["Permission denied: '/x/COOKIES'".to_string()];
    let small = vec!["permission denied: '/x/cookies'".to_string()];
    assert_eq!(
        store_failure_in(&lines, &small, &source("chrome")),
        Some("Permission denied: '/x/COOKIES'".to_string())
    );
    assert_eq!(
        cookie_store_failure("Permission denied: '/x/COOKIES'", &source("chrome")),
        Some("Permission denied: '/x/COOKIES'".to_string())
    );
}
