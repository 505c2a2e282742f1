use tuitube::engagement::cache_path;
use tuitube::hidden::hidden_path;
use tuitube::paths::{
    app_cache_dir, app_config_dir, config_path, expand_home, file_name, join_path,
};

const HOME: Option<&str> = Some("/home/u");

#[test]
fn the_configuration_lies_where_the_environment_says() {
    assert_eq!(
        app_config_dir(Some("/xdg"), HOME).as_deref(),
        Some("/xdg/tuitube")
    );
    assert_eq!(
        app_config_dir(None, HOME).as_deref(),
        Some("/home/u/.config/tuitube")
    );
    assert_eq!(
        app_config_dir(Some(""), HOME).as_deref(),
        Some("/home/u/.config/tuitube"),
        "an empty variable is none"
    );
    assert_eq!(app_config_dir(None, Some("")), None);
    assert_eq!(app_config_dir(None, None), None);
    assert_eq!(
        config_path(None, HOME).as_deref(),
        Some("/home/u/.config/tuitube/config.toml")
    );
    assert_eq!(
        hidden_path(None, HOME).as_deref(),
        Some("/home/u/.config/tuitube/hidden.toml")
    );
}

#[test]
fn the_cache_lies_where_the_environment_says() {
    assert_eq!(
        app_cache_dir(Some("/xdg"), HOME).as_deref(),
        Some("/xdg/tuitube")
    );
    assert_eq!(
        cache_path(None, HOME).as_deref(),
        Some("/home/u/.cache/tuitube/engagement.json")
    );
    assert_eq!(cache_path(None, None), None);
}

#[test]
fn a_home_is_put_in_place_of_the_tilde() {
    assert_eq!(expand_home("~/Videos", HOME), "/home/u/Videos");
    assert_eq!(expand_home("/a/~/b", HOME), "/a/~/b");
    assert_eq!(expand_home("~/Videos", None), "~/Videos");
}

#[test]
fn paths_are_joined_as_the_platform_joins_them() {
    assert_eq!(join_path("/a", "b"), "/a/b");
    assert_eq!(join_path("/a/", "b"), "/a/b");
    assert_eq!(join_path("/a", "/b"), "/b");
    assert_eq!(join_path("", "b"), "b");
}

#[test]
fn the_name_of_a_file_is_the_last_part_of_its_path() {
    assert_eq!(file_name("/a/b.txt").as_deref(), Some("b.txt"));
    assert_eq!(file_name("/a/b/").as_deref(), Some("b"));
    assert_eq!(file_name("/a/.."), None);
    assert_eq!(file_name("/"), None);
}
