//! The marks on thumbnails.

use tuitube::badge::{
    badges_for, encode, encode_tab, image, placements, tab_placements, Badge, BORDER_PART,
    MAX_BADGE_PX,
};
use tuitube::engagement::EngagementCache;
use tuitube::rgb::{encode_image, to_base64, RgbImage};
use tuitube::search::SearchResult;
use tuitube::video::{CellSize, Placement};

const CELL: CellSize = CellSize {
    width_px: 8,
    height_px: 16,
};

const BORDER: [u8; 3] = [BORDER_PART; 3];

fn now() -> u64 {
    1_000_000
}

fn result(id: &str, channel_id: Option<&str>) -> SearchResult {
    SearchResult {
        id: id.to_string(),
        title: format!("title {id}"),
        duration: None,
        uploader: None,
        channel_id: channel_id.map(str::to_string),
        is_live: false,
    }
}

fn live(id: &str, channel_id: Option<&str>) -> SearchResult {
    SearchResult {
        is_live: true,
        ..result(id, channel_id)
    }
}

fn placed() -> Placement {
    Placement {
        row: 5,
        col: 9,
        cols: 3,
        rows: 2,
    }
}

fn pixel(image: &RgbImage, x: u32, y: u32) -> [u8; 3] {
    let at = ((y * image.width + x) * 3) as usize;
    [image.pixels[at], image.pixels[at + 1], image.pixels[at + 2]]
}

#[test]
fn symbols_differ_between_liked_and_subscribed() {
    assert_ne!(Badge::Liked.symbol(), Badge::Subscribed.symbol());
}

#[test]
fn every_badge_has_its_own_symbol() {
    let mut symbols = [
        Badge::Live.symbol(),
        Badge::Shorts.symbol(),
        Badge::Liked.symbol(),
        Badge::Subscribed.symbol(),
    ];
    symbols.sort_unstable();
    for pair in symbols.windows(2) {
        assert_ne!(pair[0], pair[1], "{symbols:?}");
    }
}

#[test]
fn a_live_video_gets_the_live_badge() {
    let cache = EngagementCache::default();

    assert_eq!(badges_for(&cache, &live("v1", None)), vec![Badge::Live]);
    assert!(badges_for(&cache, &result("v1", None)).is_empty());
}

#[test]
fn a_live_video_of_a_subscribed_channel_shows_the_live_badge_first() {
    let mut cache = EngagementCache::default();
    cache.remember_like("v1", true, now());
    cache.remember_subscription("UC1", true, now());

    assert_eq!(
        badges_for(&cache, &live("v1", Some("UC1"))),
        vec![Badge::Live, Badge::Liked, Badge::Subscribed],
        "並びは ライブ → いいね → 登録"
    );
}

#[test]
fn the_shorts_badge_never_comes_from_a_row() {
    let mut cache = EngagementCache::default();
    cache.remember_like("v1", true, now());
    cache.remember_subscription("UC1", true, now());

    assert!(!badges_for(&cache, &live("v1", Some("UC1"))).contains(&Badge::Shorts));
}

#[test]
fn only_the_like_and_the_subscribe_badge_follow_the_engagement_setting() {
    assert!(Badge::Liked.engagement());
    assert!(Badge::Subscribed.engagement());
    assert!(!Badge::Live.engagement());
    assert!(!Badge::Shorts.engagement());
}

#[test]
fn a_video_that_is_neither_liked_nor_subscribed_gets_no_badge() {
    let cache = EngagementCache::default();

    assert!(badges_for(&cache, &result("v1", Some("UC1"))).is_empty());
}

#[test]
fn a_liked_video_gets_the_like_badge() {
    let mut cache = EngagementCache::default();
    cache.remember_like("v1", true, now());

    assert_eq!(
        badges_for(&cache, &result("v1", None)),
        vec![Badge::Liked],
        "チャンネル ID の無い行でもいいねの印は出す"
    );
    assert!(badges_for(&cache, &result("v2", None)).is_empty());
}

#[test]
fn a_subscribed_channel_gets_the_subscribe_badge() {
    let mut cache = EngagementCache::default();
    cache.remember_subscription("UC1", true, now());

    assert_eq!(
        badges_for(&cache, &result("v1", Some("UC1"))),
        vec![Badge::Subscribed]
    );
}

#[test]
fn an_unconfirmed_or_unsubscribed_channel_gets_no_badge() {
    let mut cache = EngagementCache::default();
    cache.remember_subscription("UC1", false, now());

    assert!(badges_for(&cache, &result("v1", Some("UC1"))).is_empty());
    assert!(badges_for(&cache, &result("v1", Some("UC9"))).is_empty());
}

#[test]
fn a_liked_video_on_a_subscribed_channel_gets_both_badges() {
    let mut cache = EngagementCache::default();
    cache.remember_like("v1", true, now());
    cache.remember_subscription("UC1", true, now());

    assert_eq!(
        badges_for(&cache, &result("v1", Some("UC1"))),
        vec![Badge::Liked, Badge::Subscribed],
        "並びは いいね → 登録"
    );
}

#[test]
fn the_badges_start_at_the_top_left_corner_of_the_thumbnail() {
    let places = placements(placed(), 2);

    assert_eq!(
        places,
        vec![
            Placement {
                row: 5,
                col: 9,
                cols: 1,
                rows: 1
            },
            Placement {
                row: 5,
                col: 10,
                cols: 1,
                rows: 1
            },
        ]
    );
}

#[test]
fn badges_that_do_not_fit_the_thumbnail_width_are_dropped() {
    let narrow = Placement {
        cols: 1,
        ..placed()
    };

    assert_eq!(placements(narrow, 2).len(), 1, "隣のセルまではみ出さない");
    assert!(placements(narrow, 0).is_empty());
}

#[test]
fn the_tab_badges_start_at_the_far_corner_of_the_thumbnail() {
    assert_eq!(
        tab_placements(placed(), 2),
        vec![
            Placement {
                row: 5,
                col: 11,
                cols: 1,
                rows: 1
            },
            Placement {
                row: 5,
                col: 10,
                cols: 1,
                rows: 1
            },
        ]
    );
}

#[test]
fn a_tab_badge_with_no_room_is_dropped() {
    let narrow = Placement {
        cols: 1,
        ..placed()
    };

    assert_eq!(
        tab_placements(narrow, 2).len(),
        1,
        "隣のセルまではみ出さない"
    );
    assert!(tab_placements(placed(), 0).is_empty());
    for empty in [
        Placement {
            cols: 0,
            ..placed()
        },
        Placement {
            rows: 0,
            ..placed()
        },
    ] {
        assert!(tab_placements(empty, 2).is_empty());
    }
}

#[test]
fn a_thumbnail_with_no_room_gets_no_badge() {
    for empty in [
        Placement {
            cols: 0,
            ..placed()
        },
        Placement {
            rows: 0,
            ..placed()
        },
    ] {
        assert!(placements(empty, 2).is_empty());
    }
}

#[test]
fn the_badge_image_follows_the_shape_of_a_cell() {
    let image = image(Badge::Liked, CELL).expect("作れる");

    assert_eq!((image.width, image.height), (8, 16), "1 セルに収める");
}

#[test]
fn the_badge_image_has_a_dark_border_around_the_fill() {
    let image = image(Badge::Liked, CELL).expect("作れる");

    assert_eq!(pixel(&image, 0, 0), BORDER);
    assert_eq!(pixel(&image, 7, 15), BORDER);
    assert_eq!(pixel(&image, 4, 8), Badge::Liked.fill());
}

#[test]
fn a_badge_image_too_small_for_a_border_is_all_fill() {
    let tiny = CellSize {
        width_px: 2,
        height_px: 2,
    };
    let image = image(Badge::Subscribed, tiny).expect("作れる");

    assert_eq!(pixel(&image, 0, 0), Badge::Subscribed.fill());
}

#[test]
fn the_badge_image_is_bounded_when_the_terminal_reports_a_huge_cell() {
    let huge = CellSize {
        width_px: 400,
        height_px: 900,
    };
    let image = image(Badge::Liked, huge).expect("作れる");

    assert_eq!(
        (image.width, image.height),
        (u32::from(MAX_BADGE_PX), u32::from(MAX_BADGE_PX)),
        "送出量が伸びない寸法で打ち止める"
    );
}

#[test]
fn a_zero_sized_cell_gives_no_badge_image() {
    for broken in [
        CellSize {
            width_px: 0,
            height_px: 16,
        },
        CellSize {
            width_px: 8,
            height_px: 0,
        },
    ] {
        assert!(image(Badge::Liked, broken).is_none());
    }
}

#[test]
fn the_live_badge_does_not_look_like_the_like_badge() {
    let live = image(Badge::Live, CELL).expect("作れる");
    let liked = image(Badge::Liked, CELL).expect("作れる");

    assert_ne!(pixel(&live, 4, 8), pixel(&liked, 4, 8));
}

#[test]
fn the_like_and_the_subscribe_badge_use_different_colors() {
    let liked = image(Badge::Liked, CELL).expect("作れる");
    let subscribed = image(Badge::Subscribed, CELL).expect("作れる");

    assert_ne!(pixel(&liked, 4, 8), pixel(&subscribed, 4, 8));
}

fn image_count(out: &[u8]) -> usize {
    out.windows(6).filter(|w| *w == b"\x1b_Ga=T").count()
}

#[test]
fn encoding_writes_one_placement_per_badge() {
    let mut out = Vec::new();
    encode(&vec![Badge::Liked, Badge::Subscribed], placed(), CELL, &mut out);

    assert_eq!(image_count(&out), 2);
    let text = String::from_utf8_lossy(&out);
    assert!(text.contains("\x1b[5;9H"), "1 個目の位置が違う");
    assert!(text.contains("\x1b[5;10H"), "2 個目の位置が違う");
    assert_eq!(text.matches("c=1,r=1").count(), 2);
}

#[test]
fn encoding_a_tab_badge_writes_it_at_the_far_corner() {
    let mut out = Vec::new();
    encode_tab(&vec![Badge::Shorts], placed(), CELL, &mut out);

    assert_eq!(image_count(&out), 1);
    let text = String::from_utf8_lossy(&out);
    assert!(text.contains("\x1b[5;11H"), "右上に置いていない");
    assert_eq!(text.matches("c=1,r=1").count(), 1);
}

#[test]
fn encoding_no_tab_badge_writes_nothing() {
    let mut out = Vec::new();
    encode_tab(&vec![], placed(), CELL, &mut out);

    assert!(out.is_empty());
}

#[test]
fn encoding_no_badge_writes_nothing() {
    let mut out = Vec::new();
    encode(&vec![], placed(), CELL, &mut out);

    assert!(out.is_empty());
}

#[test]
fn encoding_skips_a_badge_that_does_not_fit() {
    let narrow = Placement {
        cols: 1,
        ..placed()
    };
    let mut out = Vec::new();
    encode(&vec![Badge::Liked, Badge::Subscribed], narrow, CELL, &mut out);

    assert_eq!(image_count(&out), 1);
}

#[test]
fn encoding_with_a_broken_cell_size_writes_nothing() {
    let broken = CellSize {
        width_px: 0,
        height_px: 0,
    };
    let mut out = Vec::new();
    encode(&vec![Badge::Liked], placed(), broken, &mut out);

    assert!(out.is_empty());
}

#[test]
fn base64_pads_to_four_characters() {
    assert_eq!(to_base64(&b"".to_vec()), b"".to_vec());
    assert_eq!(to_base64(&b"f".to_vec()), b"Zg==".to_vec());
    assert_eq!(to_base64(&b"fo".to_vec()), b"Zm8=".to_vec());
    assert_eq!(to_base64(&b"foobar".to_vec()), b"Zm9vYmFy".to_vec());
}

#[test]
fn an_image_needs_three_bytes_for_each_pixel() {
    assert!(RgbImage::new(2, 1, vec![0; 6]).is_some());
    assert!(RgbImage::new(2, 1, vec![0; 5]).is_none());
}

#[test]
fn an_image_is_placed_and_scaled() {
    let image = RgbImage::new(1, 1, vec![255, 0, 0]).expect("one pixel");
    let mut out = Vec::new();
    encode_image(&image, placed(), &mut out);
    let text = String::from_utf8_lossy(&out);
    assert!(text.starts_with("\x1b[5;9H"), "{text:?}");
    assert!(text.contains("c=3,r=2"), "{text:?}");
    assert!(text.contains("/wAA"), "{text:?}");
}
