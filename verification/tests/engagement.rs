//! What is known of likes and subscriptions.

use tuitube::engagement::{
    cache_path, from_unix, load_from, save_to, to_unix, EngagementCache, EngagementFile,
    MAX_CHANNELS, NO_ENGAGEMENT_PATH,
};

const TTL: u64 = 604_800_000;

fn at(secs: u64) -> u64 {
    secs * 1_000
}

fn ids(values: &[&str]) -> Vec<String> {
    values.iter().map(|v| v.to_string()).collect()
}

#[test]
fn an_unknown_video_is_not_liked_and_an_unknown_channel_is_undecided() {
    let cache = EngagementCache::default();
    assert!(!cache.is_liked("v1"));
    assert_eq!(cache.is_subscribed("c1"), None, "未確認は印を出さない");
    assert!(cache.is_empty());
}

#[test]
fn the_liked_list_needs_a_refresh_until_it_is_confirmed_once() {
    let mut cache = EngagementCache::default();
    assert!(cache.liked_needs_refresh(at(0), TTL));

    cache.replace_liked(&ids(&["v1", "v2"]), at(1_000));

    assert!(!cache.liked_needs_refresh(at(1_000), TTL));
    assert!(cache.is_liked("v1"));
    assert!(cache.is_liked("v2"));
}

#[test]
fn an_expired_liked_list_needs_a_refresh_again() {
    let mut cache = EngagementCache::default();
    cache.replace_liked(&ids(&["v1"]), at(1_000));

    assert!(
        !cache.liked_needs_refresh(at(1_000) + TTL, TTL),
        "ちょうど TTL までは取り直さない"
    );
    assert!(cache.liked_needs_refresh(at(1_001) + TTL, TTL));
}

#[test]
fn a_confirmation_time_in_the_future_counts_as_expired() {
    let mut cache = EngagementCache::default();
    cache.replace_liked(&ids(&["v1"]), at(10_000));
    cache.remember_subscription("c1", true, at(10_000));

    assert!(cache.liked_needs_refresh(at(500), TTL));
    assert_eq!(
        cache.channels_needing_refresh(&ids(&["c1"]), at(500), TTL),
        ids(&["c1"])
    );
}

#[test]
fn replacing_the_liked_list_drops_ids_that_are_gone() {
    let mut cache = EngagementCache::default();
    cache.replace_liked(&ids(&["v1", "v2"]), at(1_000));

    cache.replace_liked(&ids(&["v2"]), at(2_000));

    assert!(!cache.is_liked("v1"), "本家で外れた分は消す");
    assert!(cache.is_liked("v2"));
}

#[test]
fn a_local_like_shows_up_immediately() {
    let mut cache = EngagementCache::default();
    cache.replace_liked(&Vec::new(), at(1_000));

    cache.remember_like("v1", true, at(1_500));

    assert!(cache.is_liked("v1"));
    assert!(!cache.liked_needs_refresh(at(1_000) + TTL + 1_000, TTL));
}

#[test]
fn unliking_removes_the_video() {
    let mut cache = EngagementCache::default();
    cache.replace_liked(&ids(&["v1"]), at(1_000));

    cache.remember_like("v1", false, at(1_500));

    assert!(!cache.is_liked("v1"));
}

#[test]
fn a_local_like_before_the_first_fetch_does_not_skip_it() {
    let mut cache = EngagementCache::default();

    cache.remember_like("v1", true, at(1_500));

    assert!(cache.is_liked("v1"));
    assert!(
        cache.liked_needs_refresh(at(1_500), TTL),
        "一覧を一度も取っていないので、他の動画の印はまだ出せない"
    );
}

#[test]
fn a_local_subscription_shows_up_immediately_and_is_confirmed() {
    let mut cache = EngagementCache::default();

    cache.remember_subscription("c1", true, at(1_000));

    assert_eq!(cache.is_subscribed("c1"), Some(true));
    assert!(
        cache
            .channels_needing_refresh(&ids(&["c1"]), at(1_000), TTL)
            .is_empty()
    );
}

#[test]
fn unsubscribing_locally_is_remembered_as_not_subscribed() {
    let mut cache = EngagementCache::default();
    cache.remember_subscription("c1", true, at(1_000));

    cache.remember_subscription("c1", false, at(2_000));

    assert_eq!(
        cache.is_subscribed("c1"),
        Some(false),
        "未確認 (None) に戻さない"
    );
}

#[test]
fn only_unconfirmed_or_expired_channels_are_asked_again() {
    let mut cache = EngagementCache::default();
    cache.remember_subscription("fresh", true, at(1_000));
    cache.remember_subscription("stale", true, at(1_000));
    let now = at(1_001) + TTL;
    cache.remember_subscription("fresh", true, now);

    let wanted = cache.channels_needing_refresh(&ids(&["fresh", "stale", "new"]), now, TTL);

    assert_eq!(wanted, ids(&["stale", "new"]));
}

#[test]
fn a_repeated_channel_id_is_asked_only_once() {
    let cache = EngagementCache::default();

    let wanted = cache.channels_needing_refresh(&ids(&["c1", "c2", "c1"]), at(0), TTL);

    assert_eq!(wanted, ids(&["c1", "c2"]), "並びは渡された順");
}

#[test]
fn asked_channels_missing_from_the_answer_are_confirmed_as_not_subscribed() {
    let mut cache = EngagementCache::default();

    cache.remember_channels(&ids(&["c1", "c2"]), &ids(&["c1"]), at(1_000));

    assert_eq!(cache.is_subscribed("c1"), Some(true));
    assert_eq!(cache.is_subscribed("c2"), Some(false));
    assert!(
        cache
            .channels_needing_refresh(&ids(&["c1", "c2"]), at(1_000), TTL)
            .is_empty(),
        "答えが返った分は確認済み"
    );
}

#[test]
fn exceeding_the_channel_capacity_drops_the_oldest_one_via_remember_subscription() {
    let mut cache = EngagementCache::default();
    for i in 0..MAX_CHANNELS {
        cache.remember_subscription(&format!("c{i}"), true, at(i as u64));
    }

    cache.remember_subscription("new", true, at(MAX_CHANNELS as u64));

    assert_eq!(cache.is_subscribed("c0"), None, "最も古い c0 が捨てられる");
    assert_eq!(cache.is_subscribed("c1"), Some(true), "c1 は残る");
    assert_eq!(cache.is_subscribed("new"), Some(true));
}

#[test]
fn exceeding_the_channel_capacity_drops_the_oldest_ones_via_remember_channels() {
    let mut cache = EngagementCache::default();
    for i in 0..MAX_CHANNELS {
        cache.remember_subscription(&format!("c{i}"), true, at(i as u64));
    }

    let extra = ids(&["new1", "new2"]);
    cache.remember_channels(&extra, &extra, at(MAX_CHANNELS as u64));

    assert_eq!(cache.is_subscribed("c0"), None);
    assert_eq!(cache.is_subscribed("c1"), None);
    assert_eq!(cache.is_subscribed("c2"), Some(true), "c2 以降は残る");
    assert_eq!(cache.is_subscribed("new1"), Some(true));
    assert_eq!(cache.is_subscribed("new2"), Some(true));
}

#[test]
fn cache_path_prefers_xdg_cache_home_then_home() {
    assert_eq!(
        cache_path(Some("/x"), Some("/h")).as_deref(),
        Some("/x/tuitube/engagement.json")
    );
    assert_eq!(
        cache_path(None, Some("/h")).as_deref(),
        Some("/h/.cache/tuitube/engagement.json")
    );
    assert_eq!(
        cache_path(Some(""), Some("/h")).as_deref(),
        Some("/h/.cache/tuitube/engagement.json")
    );
    assert_eq!(cache_path(None, None), None);
}

/// What comes back of a cache that was written and read.
fn reloaded(cache: &EngagementCache) -> EngagementCache {
    let file = save_to(Some("/h/engagement.json"), cache).expect("there is a place");
    assert!(file.is_some());
    load_from(&file)
}

#[test]
fn saving_then_loading_keeps_the_state() {
    let mut cache = EngagementCache::default();
    cache.replace_liked(&ids(&["v2", "v1"]), at(1_000));
    cache.remember_channels(&ids(&["c1", "c2"]), &ids(&["c2"]), at(2_000));

    let loaded = reloaded(&cache);

    assert_eq!(loaded, cache);
    assert!(loaded.is_liked("v1"));
    assert!(loaded.is_liked("v2"));
    assert!(!loaded.is_liked("v3"));
    assert_eq!(loaded.is_subscribed("c1"), Some(false));
    assert_eq!(loaded.is_subscribed("c2"), Some(true));
    assert_eq!(loaded.is_subscribed("c3"), None);
    assert!(!loaded.liked_needs_refresh(at(1_000) + TTL, TTL));
    assert!(loaded
        .channels_needing_refresh(&ids(&["c1", "c2"]), at(2_000) + TTL, TTL)
        .is_empty());
}

#[test]
fn a_reloaded_cache_keeps_the_remaining_ttl() {
    let mut cache = EngagementCache::default();
    cache.replace_liked(&ids(&["v1"]), at(1_000));

    let loaded = reloaded(&cache);

    assert!(!loaded.liked_needs_refresh(at(1_000) + TTL, TTL));
    assert!(loaded.liked_needs_refresh(at(1_001) + TTL, TTL));
}

#[test]
fn without_a_path_loading_gives_an_empty_cache_and_saving_reports_the_reason() {
    assert_eq!(load_from(&None), EngagementCache::default());

    let mut cache = EngagementCache::default();
    cache.remember_like("v1", true, at(1_000));
    assert_eq!(save_to(None, &cache), Err(NO_ENGAGEMENT_PATH.to_string()));
}

#[test]
fn saving_an_empty_cache_does_not_create_the_file() {
    assert_eq!(
        save_to(Some("/h/engagement.json"), &EngagementCache::default()),
        Ok(None)
    );
}

#[test]
fn likes_are_written_in_order_and_times_in_seconds() {
    let mut cache = EngagementCache::default();
    cache.replace_liked(&ids(&["v2", "v10", "v1"]), 1_500);
    cache.remember_subscription("c1", true, 2_999);
    assert_eq!(
        save_to(Some("/h/engagement.json"), &cache),
        Ok(Some(EngagementFile {
            liked_videos: ids(&["v1", "v10", "v2"]),
            liked_last_confirmed: Some(1),
            subscribed_channels: vec![("c1".to_string(), true)],
            channel_last_confirmed: vec![("c1".to_string(), 2)],
        }))
    );
}

#[test]
fn a_part_of_a_file_is_read_as_far_as_it_goes() {
    let cache = load_from(&Some(EngagementFile {
        liked_videos: ids(&["v1"]),
        liked_last_confirmed: None,
        subscribed_channels: vec![("c1".to_string(), true)],
        channel_last_confirmed: Vec::new(),
    }));
    assert!(cache.is_liked("v1"));
    assert_eq!(cache.is_subscribed("c1"), Some(true));
    assert!(cache.liked_needs_refresh(at(0), TTL));
}

#[test]
fn times_are_kept_in_whole_seconds() {
    assert_eq!(to_unix(1_999), 1);
    assert_eq!(from_unix(2), 2_000);
    assert_eq!(from_unix(u64::MAX), u64::MAX);
}

#[test]
fn caches_are_equal_whatever_came_first() {
    let mut one = EngagementCache::default();
    one.replace_liked(&ids(&["v2", "v1"]), at(1_000));
    one.remember_channels(&ids(&["c2", "c1"]), &ids(&["c2"]), at(2_000));
    let mut other = EngagementCache::default();
    other.replace_liked(&ids(&["v1", "v2"]), at(1_000));
    other.remember_channels(&ids(&["c1", "c2"]), &ids(&["c2"]), at(2_000));

    assert_eq!(one, other);
    other.remember_subscription("c1", true, at(2_000));
    assert_ne!(one, other);
}
