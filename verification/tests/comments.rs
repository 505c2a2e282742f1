//! The comments of the video that plays.

use tuitube::comments::{
    comment_lines, display_lines, fetched_comments, listed_comments, max_scroll, parse_comment,
    parse_comments, yt_dlp_args, Comment, CommentState, Comments, COMMENT_TIMEOUT_SECS, LOADING,
    NO_COMMENTS, UNKNOWN_AUTHOR, UNREADABLE,
};
use tuitube::grid::display_width;
use tuitube::json::Json;
use tuitube::search::RunEnd;

const TWO: &str = r#"{"id":"abc","comments":[
    {"author":"alice","text":"first","like_count":12},
    {"author":"bob","text":"second","like_count":0}
]}"#;

fn comment(author: &str, text: &str, like_count: Option<u64>) -> Comment {
    Comment {
        author: author.to_string(),
        text: text.to_string(),
        like_count,
    }
}

fn ready(list: Vec<Comment>) -> Comments {
    let mut comments = Comments::default();
    comments.begin("abc".to_string());
    comments.apply("abc", Ok(list));
    comments
}

#[test]
fn parses_author_text_and_like_count() {
    let list = parse_comments(TWO).expect("読める");
    assert_eq!(
        list,
        [
            comment("alice", "first", Some(12)),
            comment("bob", "second", Some(0)),
        ]
    );
}

#[test]
fn a_video_without_comments_is_not_an_error() {
    assert_eq!(parse_comments(r#"{"id":"abc"}"#), Ok(Vec::new()));
    assert_eq!(
        parse_comments(r#"{"id":"abc","comments":null}"#),
        Ok(Vec::new())
    );
    assert_eq!(
        parse_comments(r#"{"id":"abc","comments":[]}"#),
        Ok(Vec::new())
    );
}

#[test]
fn missing_optional_fields_fall_back() {
    let list = parse_comments(
        r#"{"comments":[{"text":"t"},{"author":"a","text":"t2","like_count":null}]}"#,
    )
    .expect("読める");
    assert_eq!(list[0].author, UNKNOWN_AUTHOR);
    assert_eq!(list[0].like_count, None);
    assert_eq!(list[1].like_count, None);
}

#[test]
fn entries_without_text_are_skipped() {
    let list = parse_comments(r#"{"comments":[{"author":"a"},"x",{"author":"b","text":"t"}]}"#)
        .expect("読める");
    assert_eq!(list, [comment("b", "t", None)]);
}

#[test]
fn broken_json_is_an_error() {
    assert_eq!(parse_comments("not json"), Err(UNREADABLE.to_string()));
    assert_eq!(parse_comments(""), Err(UNREADABLE.to_string()));
    assert_eq!(parse_comments("[]"), Err(UNREADABLE.to_string()));
}

#[test]
fn yt_dlp_args_match_the_designed_command() {
    assert_eq!(
        yt_dlp_args("https://www.youtube.com/watch?v=abc"),
        [
            "https://www.youtube.com/watch?v=abc",
            "-J",
            "--write-comments",
            "--extractor-args",
            "youtube:max_comments=50,all,0,0;comment_sort=top",
        ]
    );
}

#[test]
fn begin_starts_pending_and_hides_the_previous_list() {
    let mut comments = ready(vec![comment("a", "t", None)]);
    comments.toggle();
    assert!(comments.visible());

    comments.begin("next".to_string());
    assert_eq!(comments.state(), Some(&CommentState::Pending));
    assert!(!comments.visible(), "前の動画の表示は持ち越さない");
}

#[test]
fn apply_stores_the_list_for_the_video_that_is_playing() {
    let comments = ready(vec![comment("a", "t", Some(1))]);
    assert_eq!(
        comments.state(),
        Some(&CommentState::Ready(vec![comment("a", "t", Some(1))]))
    );
}

#[test]
fn apply_keeps_the_error_when_the_fetch_failed() {
    let mut comments = Comments::default();
    comments.begin("abc".to_string());
    comments.apply("abc", Err("boom".to_string()));
    assert_eq!(
        comments.state(),
        Some(&CommentState::Failed("boom".to_string()))
    );
}

#[test]
fn a_late_result_for_the_previous_video_is_dropped() {
    let mut comments = Comments::default();
    comments.begin("old".to_string());
    comments.begin("new".to_string());
    comments.apply("old", Ok(vec![comment("a", "古い", None)]));
    assert_eq!(comments.state(), Some(&CommentState::Pending));

    comments.apply("new", Ok(vec![comment("b", "新しい", None)]));
    assert_eq!(
        comments.state(),
        Some(&CommentState::Ready(vec![comment("b", "新しい", None)]))
    );
}

#[test]
fn end_drops_everything_including_a_result_that_arrives_afterwards() {
    let mut comments = ready(vec![comment("a", "t", None)]);
    comments.toggle();
    comments.end();
    assert_eq!(comments.state(), None);
    assert!(!comments.visible());

    comments.apply("abc", Ok(vec![comment("a", "t", None)]));
    assert_eq!(comments.state(), None, "再生が終わった後は取り込まない");
}

#[test]
fn scrolling_stops_at_the_first_and_the_last_line_that_can_be_shown() {
    let mut comments = ready(vec![comment("a", "t", None)]);
    assert_eq!(comments.scroll(10, 4), 0);
    comments.scroll_by(3, 10, 4);
    assert_eq!(comments.scroll(10, 4), 3);
    comments.scroll_by(99, 10, 4);
    assert_eq!(comments.scroll(10, 4), 6);
    comments.scroll_by(-2, 10, 4);
    assert_eq!(comments.scroll(10, 4), 4);
    comments.scroll_by(-99, 10, 4);
    assert_eq!(comments.scroll(10, 4), 0);
}

#[test]
fn scroll_never_runs_past_a_list_that_got_shorter() {
    let mut comments = ready(vec![comment("a", "t", None)]);
    comments.scroll_by(6, 10, 4);
    assert_eq!(comments.scroll(10, 4), 6);
    assert_eq!(comments.scroll(5, 4), 1);
    assert_eq!(comments.scroll(4, 4), 0);
}

#[test]
fn scroll_goes_back_to_the_top_for_the_next_video() {
    let mut comments = ready(vec![comment("a", "t", None)]);
    comments.scroll_by(4, 10, 2);
    comments.begin("next".to_string());
    assert_eq!(comments.scroll(10, 2), 0);

    comments.apply("next", Ok(vec![comment("a", "t", None)]));
    comments.scroll_by(4, 10, 2);
    comments.end();
    assert_eq!(comments.scroll(10, 2), 0);
}

#[test]
fn toggle_returns_the_state_it_switched_to() {
    let mut comments = Comments::default();
    assert!(comments.toggle());
    assert!(comments.visible());
    assert!(!comments.toggle());
    assert!(!comments.visible());
}

#[test]
fn lines_show_the_author_with_the_like_count_and_the_body() {
    let comments = ready(vec![comment("alice", "first", Some(12))]);
    assert_eq!(
        display_lines(comments.state(), 40),
        ["alice (+12)", "  first"]
    );
}

#[test]
fn lines_omit_the_like_count_when_it_is_unknown() {
    let comments = ready(vec![comment("alice", "first", None)]);
    assert_eq!(display_lines(comments.state(), 40), ["alice", "  first"]);
}

#[test]
fn lines_flatten_a_multi_line_body() {
    let comments = ready(vec![comment("a", "one\ntwo\r\nthree", None)]);
    assert_eq!(display_lines(comments.state(), 40)[1], "  one two three");
}

#[test]
fn lines_are_truncated_to_the_width() {
    let comments = ready(vec![comment("a", "あいうえおかきくけこ", None)]);
    let lines = display_lines(comments.state(), 10);
    for line in &lines {
        assert!(display_width(line) <= 10, "{line}");
    }
    assert!(lines[1].ends_with('…'), "{:?}", lines[1]);
}

#[test]
fn lines_say_when_there_is_nothing_to_show() {
    assert_eq!(display_lines(Some(&CommentState::Pending), 40), [LOADING]);
    assert_eq!(
        display_lines(Some(&CommentState::Ready(Vec::new())), 40),
        [NO_COMMENTS]
    );
    let failed = CommentState::Failed("boom".to_string());
    assert_eq!(display_lines(Some(&failed), 40).len(), 1);
    assert!(display_lines(Some(&failed), 40)[0].contains("boom"));
    assert!(display_lines(None, 40).is_empty());
}

fn done(code: i32, stdout: &str, stderr: &str) -> Option<RunEnd> {
    Some(RunEnd::Finished {
        code: Some(code),
        stdout: stdout.to_string(),
        stderr: stderr.to_string(),
    })
}

#[test]
fn fetched_comments_are_read_from_the_output() {
    let list = fetched_comments(&done(0, TWO, "")).expect("two comments");
    assert_eq!(list.len(), 2);
}

#[test]
fn a_missing_downloader_is_named() {
    let end = Some(RunEnd::NotStarted {
        missing: true,
        reason: "no such file".to_string(),
    });
    let error = fetched_comments(&end).expect_err("nothing to run");
    assert!(error.contains("yt-dlp"), "{error}");
}

#[test]
fn the_last_line_of_a_failed_run_is_the_reason() {
    let error =
        fetched_comments(&done(1, "", "WARNING: x\nERROR: unavailable\n")).expect_err("failed");
    assert!(error.contains("ERROR: unavailable"), "{error}");
}

#[test]
fn comments_that_came_in_spite_of_a_failure_are_kept() {
    let list = fetched_comments(&done(1, TWO, "WARNING: something\n")).expect("two comments");
    assert_eq!(list.len(), 2);
}

#[test]
fn a_fetch_that_takes_too_long_names_the_limit() {
    let error = fetched_comments(&None).expect_err("timed out");
    assert!(error.contains("タイムアウト"), "{error}");
    assert!(error.contains(&COMMENT_TIMEOUT_SECS.to_string()), "{error}");
    assert!(error.contains("15"), "{error}");
}

#[test]
fn a_comment_is_made_of_what_was_read_of_it() {
    assert_eq!(
        parse_comment(
            Some(Json::Text("hi".to_string())),
            Some(Json::Text("alice".to_string())),
            None
        ),
        Some(comment("alice", "hi", None))
    );
    assert_eq!(
        parse_comment(Some(Json::Text("hi".to_string())), None, None),
        Some(comment(UNKNOWN_AUTHOR, "hi", None))
    );
    assert_eq!(
        parse_comment(None, Some(Json::Text("alice".to_string())), None),
        None
    );
}

#[test]
fn a_page_that_is_no_object_is_unreadable() {
    assert_eq!(listed_comments(&None, None), Err(UNREADABLE.to_string()));
}

#[test]
fn a_comment_takes_two_lines() {
    assert_eq!(
        comment_lines(&comment("alice", "one\ntwo", Some(3))),
        ["alice (+3)".to_string(), "  one two".to_string()]
    );
}

#[test]
fn a_list_that_fits_does_not_scroll() {
    assert_eq!(max_scroll(10, 4), 6);
    assert_eq!(max_scroll(4, 4), 0);
    assert_eq!(max_scroll(0, 4), 0);
}
