//! Paths as texts, with slashes between the components.

use crate::text::{chars, joined, maybe_text, text_of};
use vstd::prelude::*;
use vstd::string::*;

verus! {

/// The name of the application's own directory.
pub const APP_DIR: &'static str = "tuitube";

/// `name` below `dir`. An absolute name stands for itself, and no second slash is put
/// behind a directory that ends with one.
pub open spec fn below(dir: Seq<char>, name: Seq<char>) -> Seq<char> {
    if dir.len() == 0 || (name.len() > 0 && name[0] == '/') {
        name
    } else if dir.last() == '/' {
        dir + name
    } else {
        dir + "/"@ + name
    }
}

pub fn join_path(dir: &str, name: &str) -> (r: String)
    ensures
        r@ == below(dir@, name@),
{
    let d = chars(dir);
    let n = chars(name);
    if d.len() == 0 || (n.len() > 0 && n[0] == '/') {
        return name.to_owned();
    }
    if d[d.len() - 1] == '/' {
        let mut out = dir.to_owned();
        out.append(name);
        return out;
    }
    joined(dir, "/", name)
}

/// A variable of the environment that is empty counts as one that is not set.
pub open spec fn value_of(var: Option<Seq<char>>) -> Option<Seq<char>> {
    match var {
        Some(text) if text.len() > 0 => Some(text),
        _ => None,
    }
}

pub open spec fn seen(var: Option<&str>) -> Option<Seq<char>> {
    match var {
        Some(text) => Some(text@),
        None => None,
    }
}

/// The application's directory below the one that the environment names, or below
/// `fallback` in the user's home.
pub open spec fn app_dir(
    xdg: Option<Seq<char>>,
    home: Option<Seq<char>>,
    fallback: Seq<char>,
) -> Option<Seq<char>> {
    match value_of(xdg) {
        Some(dir) => Some(below(dir, APP_DIR@)),
        None => match value_of(home) {
            Some(dir) => Some(below(below(dir, fallback), APP_DIR@)),
            None => None,
        },
    }
}

fn app_dir_in(xdg: Option<&str>, home: Option<&str>, fallback: &str) -> (r: Option<String>)
    ensures
        maybe_text(r) == app_dir(seen(xdg), seen(home), fallback@),
{
    if let Some(dir) = xdg {
        if !dir.is_empty() {
            return Some(join_path(dir, APP_DIR));
        }
    }
    if let Some(dir) = home {
        if !dir.is_empty() {
            return Some(join_path(join_path(dir, fallback).as_str(), APP_DIR));
        }
    }
    None
}

/// Where settings are kept.
pub fn app_config_dir(xdg_config_home: Option<&str>, home: Option<&str>) -> (r: Option<String>)
    ensures
        maybe_text(r) == app_dir(seen(xdg_config_home), seen(home), ".config"@),
{
    app_dir_in(xdg_config_home, home, ".config")
}

/// Where what can be fetched again is kept.
pub fn app_cache_dir(xdg_cache_home: Option<&str>, home: Option<&str>) -> (r: Option<String>)
    ensures
        maybe_text(r) == app_dir(seen(xdg_cache_home), seen(home), ".cache"@),
{
    app_dir_in(xdg_cache_home, home, ".cache")
}

/// A file below a directory, where there is one.
pub open spec fn file_below(dir: Option<Seq<char>>, name: Seq<char>) -> Option<Seq<char>> {
    match dir {
        Some(dir) => Some(below(dir, name)),
        None => None,
    }
}

/// The settings file.
pub fn config_path(xdg_config_home: Option<&str>, home: Option<&str>) -> (r: Option<String>)
    ensures
        maybe_text(r) == file_below(
            app_dir(seen(xdg_config_home), seen(home), ".config"@),
            "config.toml"@,
        ),
{
    match app_config_dir(xdg_config_home, home) {
        Some(dir) => Some(join_path(dir.as_str(), "config.toml")),
        None => None,
    }
}

/// A path with the user's home in place of a leading tilde and slash.
pub open spec fn home_expanded(path: Seq<char>, home: Option<Seq<char>>) -> Seq<char> {
    match value_of(home) {
        Some(dir) if crate::text::begins(path, "~/"@) => below(dir, path.skip("~/"@.len() as int)),
        _ => path,
    }
}

pub fn expand_home(path: &str, home: Option<&str>) -> (r: String)
    ensures
        r@ == home_expanded(path@, seen(home)),
{
    if let Some(dir) = home {
        if !dir.is_empty() {
            if let Some(rest) = crate::text::after_prefix(path, "~/") {
                return join_path(dir, rest.as_str());
            }
        }
    }
    path.to_owned()
}

/// The start of the path component that ends before `end`.
pub open spec fn component_start(path: Seq<char>, end: int) -> int
    decreases end,
{
    if end <= 0 {
        0
    } else if path[end - 1] == '/' {
        end
    } else {
        component_start(path, end - 1)
    }
}

proof fn lemma_component_start(path: Seq<char>, end: int)
    requires
        0 <= end <= path.len(),
    ensures
        0 <= component_start(path, end) <= end,
        end > 0 && path[end - 1] != '/' ==> component_start(path, end) < end,
    decreases end,
{
    if end > 0 && path[end - 1] != '/' {
        lemma_component_start(path, end - 1);
    }
}

/// The name that a path ends with: its last component, where slashes at the end and
/// components `.` after the first do not count. There is none behind a root, for `.`
/// and for a path that ends with `..`.
pub open spec fn file_name_before(path: Seq<char>, end: int) -> Option<Seq<char>>
    decreases end,
{
    if end <= 0 || end > path.len() {
        None
    } else if path[end - 1] == '/' {
        file_name_before(path, end - 1)
    } else {
        let start = component_start(path, end);
        let name = path.subrange(start, end);
        if name == seq!['.'] {
            if 0 < start < end {
                file_name_before(path, start)
            } else {
                None
            }
        } else if name == seq!['.', '.'] {
            None
        } else {
            Some(name)
        }
    }
}

/// The file name of a path, as `file_name_before` has it.
pub fn file_name(path: &str) -> (r: Option<String>)
    ensures
        maybe_text(r) == file_name_before(path@, path@.len() as int),
{
    let all = chars(path);
    let mut end: usize = all.len();
    while end > 0
        invariant
            all@ == path@,
            end <= all@.len(),
            file_name_before(path@, path@.len() as int) == file_name_before(path@, end as int),
        decreases end,
    {
        if all[end - 1] == '/' {
            end = end - 1;
        } else {
            let mut start: usize = end;
            while start > 0 && all[start - 1] != '/'
                invariant
                    all@ == path@,
                    start <= end <= all@.len(),
                    component_start(path@, end as int) == component_start(path@, start as int),
                decreases start,
            {
                start = start - 1;
            }
            proof {
                lemma_component_start(path@, end as int);
            }
            let name = text_of(&all, start, end);
            let dot: bool = end - start == 1 && all[start] == '.';
            let dots: bool = end - start == 2 && all[start] == '.' && all[start + 1] == '.';
            proof {
                assert(component_start(path@, end as int) == start);
                assert(dot == (name@ == seq!['.'])) by {
                    if dot {
                        assert(name@ =~= seq!['.']);
                    }
                    if name@ == seq!['.'] {
                        assert(name@.len() == 1 && name@[0] == '.');
                    }
                }
                assert(dots == (name@ == seq!['.', '.'])) by {
                    if dots {
                        assert(name@ =~= seq!['.', '.']);
                    }
                    if name@ == seq!['.', '.'] {
                        assert(name@.len() == 2 && name@[0] == '.' && name@[1] == '.');
                    }
                }
            }
            if dot {
                if start == 0 {
                    return None;
                }
                end = start;
            } else if dots {
                return None;
            } else {
                return Some(name);
            }
        }
    }
    None
}

/// A name below a directory stands behind it, with one slash between them that no
/// directory needs twice. An absolute name stands for itself.
pub proof fn law_name_stands_below(dir: Seq<char>, name: Seq<char>)
    ensures
        dir.len() == 0 ==> below(dir, name) == name,
        name.len() > 0 && name[0] == '/' ==> below(dir, name) == name,
        dir.len() > 0 && (name.len() == 0 || name[0] != '/') ==> {
            let path = below(dir, name);
            &&& path.len() >= dir.len() + name.len()
            &&& path.take(dir.len() as int) == dir
            &&& path.skip(path.len() - name.len()) == name
            &&& path[path.len() - name.len() - 1] == '/'
            &&& dir.last() == '/' ==> path.len() == dir.len() + name.len()
            &&& dir.last() != '/' ==> path.len() == dir.len() + name.len() + 1
        },
{
    reveal_strlit("/");
    if dir.len() > 0 && (name.len() == 0 || name[0] != '/') {
        let path = below(dir, name);
        assert(path.take(dir.len() as int) =~= dir);
        assert(path.skip(path.len() - name.len()) =~= name);
    }
}

/// The directory that the environment names goes before the home, an empty one counts as
/// none, and without both there is none.
pub proof fn law_named_directory_goes_first(
    xdg: Option<Seq<char>>,
    home: Option<Seq<char>>,
    fallback: Seq<char>,
)
    ensures
        xdg matches Some(dir) ==> dir.len() > 0 ==> app_dir(xdg, home, fallback) == Some(
            below(dir, "tuitube"@),
        ),
        (xdg is None || xdg->0.len() == 0) && home is Some && home->0.len() > 0 ==> app_dir(
            xdg,
            home,
            fallback,
        ) == Some(below(below(home->0, fallback), "tuitube"@)),
        (xdg is None || xdg->0.len() == 0) && (home is None || home->0.len() == 0) ==> app_dir(
            xdg,
            home,
            fallback,
        ) is None,
        file_below(None, fallback) is None,
        xdg matches Some(dir) ==> file_below(xdg, fallback) == Some(below(dir, fallback)),
{
}

/// Only a leading tilde with its slash stands for the home, and only where there is one.
pub proof fn law_tilde_is_the_home(rest: Seq<char>, home: Seq<char>, path: Seq<char>)
    requires
        home.len() > 0,
    ensures
        home_expanded(seq!['~', '/'] + rest, Some(home)) == below(home, rest),
        path.len() == 0 || path[0] != '~' ==> home_expanded(path, Some(home)) == path,
        path.len() >= 2 && path[1] != '/' ==> home_expanded(path, Some(home)) == path,
        home_expanded(path, None) == path,
{
    reveal_strlit("~/");
    let whole = seq!['~', '/'] + rest;
    assert(whole.subrange(0, 2) =~= "~/"@);
    assert(whole.skip(2) =~= rest);
    if crate::text::begins(path, "~/"@) {
        assert(path.subrange(0, 2)[0] == path[0]);
        assert(path.subrange(0, 2)[1] == path[1]);
    }
}

proof fn lemma_component(path: Seq<char>, end: int)
    requires
        0 <= end <= path.len(),
    ensures
        0 <= component_start(path, end) <= end,
        forall|i: int| component_start(path, end) <= i < end ==> #[trigger] path[i] != '/',
        component_start(path, end) > 0 ==> path[component_start(path, end) - 1] == '/',
    decreases end,
{
    if end > 0 && path[end - 1] != '/' {
        lemma_component(path, end - 1);
    }
}

/// The name of a file has no slash and is neither empty nor a dot nor two. A name behind
/// the last slash is the file's.
pub proof fn law_file_name_is_the_last_part(path: Seq<char>, end: int)
    requires
        0 <= end <= path.len(),
    ensures
        file_name_before(path, end) matches Some(name) ==> {
            &&& name.len() > 0
            &&& name != seq!['.']
            &&& name != seq!['.', '.']
            &&& forall|i: int| 0 <= i < name.len() ==> #[trigger] name[i] != '/'
            &&& exists|start: int|
                0 <= start && start + name.len() <= end && #[trigger] path.subrange(
                    start,
                    start + name.len(),
                ) == name && (start > 0 ==> path[start - 1] == '/')
        },
        end > 0 && path[end - 1] != '/' && path[end - 1] != '.' ==> file_name_before(path, end)
            is Some,
        end > 0 && path[end - 1] == '/' ==> file_name_before(path, end) == file_name_before(
            path,
            end - 1,
        ),
    decreases end,
{
    if end > 0 {
        if path[end - 1] == '/' {
            law_file_name_is_the_last_part(path, end - 1);
            if let Some(name) = file_name_before(path, end - 1) {
                let start = choose|start: int|
                    0 <= start && start + name.len() <= end - 1 && #[trigger] path.subrange(
                        start,
                        start + name.len(),
                    ) == name && (start > 0 ==> path[start - 1] == '/');
                assert(path.subrange(start, start + name.len()) == name);
            }
        } else {
            lemma_component(path, end);
            lemma_component_start(path, end);
            let start = component_start(path, end);
            let name = path.subrange(start, end);
            assert(name.last() == path[end - 1]);
            if name == seq!['.'] {
                assert(name.last() == '.');
                if 0 < start {
                    law_file_name_is_the_last_part(path, start);
                    if let Some(found) = file_name_before(path, start) {
                        let at = choose|at: int|
                            0 <= at && at + found.len() <= start && #[trigger] path.subrange(
                                at,
                                at + found.len(),
                            ) == found && (at > 0 ==> path[at - 1] == '/');
                        assert(path.subrange(at, at + found.len()) == found);
                    }
                }
            } else if name == seq!['.', '.'] {
                assert(name.last() == '.');
            } else {
                assert(start + name.len() == end);
                assert(path.subrange(start, start + name.len()) == name);
            }
        }
    }
}

} // verus!
