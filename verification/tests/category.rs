//! The tabs of the search side.

use tuitube::category::{Category, TabState, Tabs, ALL_LABEL};
use tuitube::cookies::{Feed, Target};
use tuitube::grid::display_width;
use tuitube::search::SearchResult;

fn result(id: &str) -> SearchResult {
    SearchResult {
        id: id.to_string(),
        title: format!("title {id}"),
        duration: None,
        uploader: None,
        channel_id: None,
        is_live: false,
    }
}

#[test]
fn tabs_always_start_with_the_all_tab() {
    let tabs = Tabs::default();
    assert_eq!(tabs.labels()[0], ALL_LABEL);
    assert_eq!(
        tabs.labels(),
        [
            "すべて",
            "音楽",
            "ゲーム",
            "ニュース",
            "アニメ",
            "スポーツ",
            "おすすめ",
            "履歴",
            "登録チャンネル",
            "後で見る"
        ]
    );
    assert_eq!(tabs.selected(), 0);
    assert!(tabs.is_all());

    let custom = Tabs::with_categories(vec![Category::new("将棋", "将棋 対局")]);
    assert_eq!(custom.labels(), [ALL_LABEL, "将棋"]);
}

#[test]
fn the_cookie_feeds_are_reachable_as_tabs() {
    for feed in Feed::all() {
        let mut tabs = Tabs::default();
        let index = tabs
            .labels()
            .iter()
            .position(|label| *label == feed.label())
            .unwrap_or_else(|| panic!("{} のタブがない", feed.label()));
        while tabs.selected() != index {
            tabs.next();
        }
        assert_eq!(tabs.target("ラーメン"), Some(Target::Feed(feed)));
    }
}

#[test]
fn the_cookie_feed_tabs_come_after_the_keyword_tabs() {
    let labels = Tabs::default().labels().join(" ");
    let music = labels.find("音楽").expect("音楽");
    let recommended = labels.find("おすすめ").expect("おすすめ");
    assert!(music < recommended, "{labels}");
}

#[test]
fn next_and_prev_wrap_around() {
    let mut tabs = Tabs::default();
    let last = tabs.labels().len() - 1;
    for expected in (1..=last).chain([0]) {
        tabs.next();
        assert_eq!(tabs.selected(), expected);
    }
    for expected in (1..=last).rev().chain([0]) {
        tabs.prev();
        assert_eq!(tabs.selected(), expected);
    }
}

#[test]
fn target_of_a_category_tab_is_a_keyword_search() {
    let mut tabs = Tabs::default();
    tabs.next();
    assert_eq!(
        tabs.target("ラーメン"),
        Some(Target::Search("音楽".to_string())),
        "タブを選んでいる間は検索ボックスの語を使わない"
    );
}

#[test]
fn target_of_the_all_tab_uses_the_query_box() {
    let tabs = Tabs::default();
    assert_eq!(
        tabs.target("ラーメン"),
        Some(Target::Search("ラーメン".to_string()))
    );
}

#[test]
fn target_of_the_all_tab_is_none_when_the_box_is_blank() {
    let tabs = Tabs::default();
    assert_eq!(tabs.target(""), None);
    assert_eq!(tabs.target("   "), None);
}

#[test]
fn a_tab_whose_query_is_a_feed_keyword_becomes_a_feed_target() {
    let mut tabs = Tabs::with_categories(vec![Category::new("おすすめ", ":ytrec")]);
    tabs.next();
    assert_eq!(tabs.target(""), Some(Target::Feed(Feed::Recommended)));
}

#[test]
fn switching_tabs_keeps_each_tabs_results_and_selection() {
    let mut tabs = Tabs::default();
    tabs.state_mut().results = vec![result("a"), result("b")];
    tabs.state_mut().selected = 1;
    tabs.state_mut().scroll = 4;
    tabs.state_mut().loaded = true;

    tabs.next();
    assert_eq!(tabs.state(), &TabState::default());
    tabs.state_mut().results = vec![result("c")];
    tabs.state_mut().loaded = true;

    tabs.prev();
    assert_eq!(tabs.state().results.len(), 2);
    assert_eq!(tabs.state().selected, 1);
    assert_eq!(tabs.state().scroll, 4);
}

#[test]
fn switching_back_does_not_mark_the_tab_as_unloaded() {
    let mut tabs = Tabs::default();
    tabs.next();
    tabs.state_mut().loaded = true;
    tabs.prev();
    tabs.next();
    assert!(tabs.state().loaded, "戻ったタブでは再検索しない");
}

#[test]
fn select_jumps_straight_to_a_tab() {
    let mut tabs = Tabs::default();
    assert!(tabs.select(3));
    assert_eq!(tabs.selected(), 3);
    assert!(tabs.select(0));
    assert!(tabs.is_all());
    assert!(tabs.select(0));
}

#[test]
fn select_ignores_an_index_that_does_not_exist() {
    let mut tabs = Tabs::default();
    let last = tabs.labels().len() - 1;
    assert!(tabs.select(last));
    assert!(!tabs.select(last + 1));
    assert!(!tabs.select(usize::MAX));
    assert_eq!(tabs.selected(), last, "範囲外では選択を動かさない");
}

#[test]
fn select_all_returns_to_the_first_tab() {
    let mut tabs = Tabs::default();
    tabs.next();
    tabs.next();
    tabs.select_all();
    assert!(tabs.is_all());
    assert_eq!(tabs.selected(), 0);
}

#[test]
fn every_default_tab_label_fits_a_narrow_terminal() {
    for label in Tabs::default().labels() {
        let width = display_width(label);
        assert!(width <= 16, "{label} は {width} 桁");
    }
}

#[test]
fn the_drawing_hands_its_window_back() {
    let mut tabs = Tabs::default();
    assert_eq!(tabs.window(), 0);
    tabs.remember_window(3);
    assert_eq!(tabs.window(), 3);
}

#[test]
fn a_step_back_undoes_a_step_forward() {
    let mut tabs = Tabs::default();
    for place in 0..10 {
        assert!(tabs.select(place));
        tabs.next();
        tabs.prev();
        assert_eq!(tabs.selected(), place);
    }
}
