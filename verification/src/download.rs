//! Saving a video or its sound to a file: the command line, and what the user is told
//! when it is done.

use crate::cookies::trimmed_lines;
use crate::paths::{
    app_config_dir, app_dir, below, expand_home, file_below, home_expanded, join_path, seen,
    value_of,
};
use crate::search::{launch_error, launch_text, succeeded, RunEnd};
use crate::text::{
    chars, contains, decimal, holds, join, joined, maybe_text, number, signed, signed_number, texts,
    with_between,
};
use vstd::prelude::*;
use vstd::string::*;

verus! {

pub const DEBUG_LOG_FILE: &'static str = "download-debug.log";

/// What the notice of a running download begins with. It is told from others by it
/// when the download is done.
pub const DOWNLOADING_PREFIX: &'static str = "ダウンロード中: ";

/// The directory that downloads go to.
pub open spec fn dir_to_save_in(
    settings_dir: Option<Seq<char>>,
    home: Option<Seq<char>>,
) -> Option<Seq<char>> {
    match settings_dir {
        Some(dir) => Some(dir),
        None => file_below(value_of(home), "Downloads"@),
    }
}

/// Where to save: what the settings say, else `Downloads` in the user's home.
pub fn default_dir(settings_dir: Option<&str>, home: Option<&str>) -> (r: Option<String>)
    ensures
        maybe_text(r) == dir_to_save_in(seen(settings_dir), seen(home)),
{
    if let Some(dir) = settings_dir {
        return Some(dir.to_owned());
    }
    if let Some(dir) = home {
        if !dir.is_empty() {
            return Some(join_path(dir, "Downloads"));
        }
    }
    None
}

/// The characters that separate directories.
pub open spec fn is_separator(c: char) -> bool {
    c == '/' || c == '\\'
}

/// The text with an underscore in place of each separator.
pub open spec fn sanitized(title: Seq<char>) -> Seq<char> {
    title.map_values(
        |c: char|
            if is_separator(c) {
                '_'
            } else {
                c
            },
    )
}

/// A title as a file name: it cannot lead out of the directory.
pub fn sanitize_filename(title: &str) -> (r: String)
    ensures
        r@ == sanitized(title@),
{
    let all = chars(title);
    let mut out = String::new();
    for i in 0..all.len()
        invariant
            all@ == title@,
            out@ == sanitized(title@).take(i as int),
    {
        if all[i] == '/' || all[i] == '\\' {
            out.push('_');
        } else {
            out.push(all[i]);
        }
        assert(out@ =~= sanitized(title@).take(i + 1));
    }
    assert(sanitized(title@).take(all@.len() as int) =~= sanitized(title@));
    out
}

/// A file name made from a title has no separator, and as many characters as the title.
pub proof fn law_file_names_stay_in_the_directory(title: Seq<char>, i: int)
    requires
        0 <= i < title.len(),
    ensures
        sanitized(title).len() == title.len(),
        !is_separator(sanitized(title)[i]),
        !is_separator(title[i]) ==> sanitized(title)[i] == title[i],
{
}

/// Making a file name of a file name changes nothing.
pub proof fn law_sanitizing_twice_is_once(title: Seq<char>)
    ensures
        sanitized(sanitized(title)) == sanitized(title),
{
    assert(sanitized(sanitized(title)) =~= sanitized(title));
}

/// The arguments for a download. The file keeps the ending that it comes with.
pub open spec fn arg_texts(
    url: Seq<char>,
    dir: Seq<char>,
    filename: Seq<char>,
    audio_only: bool,
) -> Seq<Seq<char>> {
    (if audio_only {
        seq!["-x"@, "--audio-format"@, "mp3"@]
    } else {
        seq!["-f"@, "bestvideo+bestaudio/best"@]
    }) + seq![
        "-o"@,
        below(dir, filename + ".%(ext)s"@),
        "--print"@,
        "after_move:filepath"@,
        url,
    ]
}

pub fn download_args(url: &str, dir: &str, filename: &str, audio_only: bool) -> (r: Vec<String>)
    ensures
        texts(r@) == arg_texts(url@, dir@, filename@, audio_only),
{
    let mut name = filename.to_owned();
    name.append(".%(ext)s");
    let mut out: Vec<String> = Vec::new();
    if audio_only {
        out.push("-x".to_owned());
        out.push("--audio-format".to_owned());
        out.push("mp3".to_owned());
    } else {
        out.push("-f".to_owned());
        out.push("bestvideo+bestaudio/best".to_owned());
    }
    out.push("-o".to_owned());
    out.push(join_path(dir, name.as_str()));
    out.push("--print".to_owned());
    out.push("after_move:filepath".to_owned());
    out.push(url.to_owned());
    assert(texts(out@) =~= arg_texts(url@, dir@, filename@, audio_only));
    out
}

/// Where the log for finding faults is kept, beside the settings.
pub fn debug_log_path(xdg_config_home: Option<&str>, home: Option<&str>) -> (r: Option<String>)
    ensures
        maybe_text(r) == file_below(
            app_dir(seen(xdg_config_home), seen(home), ".config"@),
            DEBUG_LOG_FILE@,
        ),
{
    match app_config_dir(xdg_config_home, home) {
        Some(dir) => Some(join_path(dir.as_str(), DEBUG_LOG_FILE)),
        None => None,
    }
}

/// How a run ended, in the words of the log.
pub open spec fn end_text(end: RunEnd) -> Seq<char> {
    match end {
        RunEnd::NotStarted { missing, reason } => "launch error: "@ + reason@,
        RunEnd::Finished { code, .. } => if code == Some(0i32) {
            "success (exit 0)"@
        } else {
            "failed (exit "@ + signed(
                match code {
                    Some(code) => code as int,
                    None => -1,
                },
            ) + ")"@
        },
    }
}

pub open spec fn stdout_text(end: RunEnd) -> Seq<char> {
    match end {
        RunEnd::Finished { stdout, .. } => stdout@,
        _ => seq![],
    }
}

pub open spec fn stderr_text(end: RunEnd) -> Seq<char> {
    match end {
        RunEnd::Finished { stderr, .. } => stderr@,
        _ => seq![],
    }
}

/// One entry of the log.
pub open spec fn entry_text(secs: nat, args: Seq<Seq<char>>, end: RunEnd) -> Seq<char> {
    "##### "@ + decimal(secs) + " #####\nargs: "@ + with_between(args, " "@) + "\nresult: "@
        + end_text(end) + "\n--- stdout ---\n"@ + stdout_text(end) + "\n--- stderr ---\n"@
        + stderr_text(end) + "\n\n"@
}

/// Words a run for the log. `now_secs` are the seconds since the epoch.
pub fn format_debug_entry(now_secs: u64, args: &Vec<String>, end: &RunEnd) -> (r: String)
    ensures
        r@ == entry_text(now_secs as nat, texts(args@), *end),
{
    let mut out = joined("##### ", number(now_secs).as_str(), " #####\nargs: ");
    out.append(join(args, " ").as_str());
    out.append("\nresult: ");
    let result = match end {
        RunEnd::NotStarted { missing, reason } => {
            let mut text = "launch error: ".to_owned();
            text.append(reason.as_str());
            text
        },
        RunEnd::Finished { code, .. } => if succeeded(*code) {
            "success (exit 0)".to_owned()
        } else {
            let shown: i32 = match code {
                Some(code) => *code,
                None => -1,
            };
            joined("failed (exit ", signed_number(shown as i64).as_str(), ")")
        },
    };
    out.append(result.as_str());
    out.append("\n--- stdout ---\n");
    match end {
        RunEnd::Finished { stdout, .. } => out.append(stdout.as_str()),
        _ => out.append(""),
    }
    out.append("\n--- stderr ---\n");
    match end {
        RunEnd::Finished { stderr, .. } => out.append(stderr.as_str()),
        _ => out.append(""),
    }
    out.append("\n\n");
    proof {
        reveal_strlit("");
        assert(""@ =~= seq![]);
    }
    out
}

/// A message with the place of the log, where there is one.
pub open spec fn hinted(message: Seq<char>, log: Option<Seq<char>>) -> Seq<char> {
    match log {
        Some(path) => message + " (詳細: "@ + path + ")"@,
        None => message,
    }
}

pub fn with_log_hint(message: String, debug_log_path: Option<&str>) -> (r: String)
    ensures
        r@ == hinted(message@, seen(debug_log_path)),
{
    match debug_log_path {
        Some(path) => {
            let mut out = joined(message.as_str(), " (詳細: ", path);
            out.append(")");
            out
        },
        None => message,
    }
}

/// The first line at or after `from` that holds the word.
pub open spec fn first_with(list: Seq<Seq<char>>, word: Seq<char>, from: int) -> Option<Seq<char>>
    decreases list.len() - from,
{
    if from < 0 || from >= list.len() {
        None
    } else if holds(list[from], word) {
        Some(list[from])
    } else {
        first_with(list, word, from + 1)
    }
}

/// The last of the first `n` lines that is not empty.
pub open spec fn last_filled(list: Seq<Seq<char>>, n: int) -> Option<Seq<char>>
    decreases n,
{
    if n <= 0 {
        None
    } else if list[n - 1].len() > 0 {
        Some(list[n - 1])
    } else {
        last_filled(list, n - 1)
    }
}

/// Why the downloader failed: the first line that says `ERROR`, for warnings come
/// before it; else the last line that says anything.
pub open spec fn reason_of(stderr: Seq<char>) -> Seq<char> {
    let list = trimmed_lines(stderr);
    match first_with(list, "ERROR"@, 0) {
        Some(line) => line,
        None => match last_filled(list, list.len() as int) {
            Some(line) => line,
            None => seq![],
        },
    }
}

/// The last line that is not empty, without the white space around it.
fn filled_at_end(list: &Vec<String>) -> (r: Option<String>)
    ensures
        maybe_text(r) == last_filled(texts(list@), list@.len() as int),
{
    let mut n: usize = list.len();
    while n > 0
        invariant
            n <= list@.len(),
            last_filled(texts(list@), list@.len() as int) == last_filled(texts(list@), n as int),
        decreases n,
    {
        assert(texts(list@)[n - 1] == list@[n - 1]@);
        if !list[n - 1].as_str().is_empty() {
            return Some(list[n - 1].clone());
        }
        n = n - 1;
    }
    None
}

pub fn failure_reason(stderr: &str) -> (r: String)
    ensures
        r@ == reason_of(stderr@),
{
    let list = crate::cookies::lines_trimmed(stderr);
    let ghost all = texts(list@);
    for i in 0..list.len()
        invariant
            all == texts(list@),
            all == trimmed_lines(stderr@),
            first_with(all, "ERROR"@, 0) == first_with(all, "ERROR"@, i as int),
    {
        assert(all[i as int] == list@[i as int]@);
        if contains(list[i].as_str(), "ERROR") {
            return list[i].clone();
        }
    }
    assert(all.len() == list@.len());
    match filled_at_end(&list) {
        Some(line) => line,
        None => String::new(),
    }
}

/// Where the file was saved: the last line of the output that says anything.
pub fn extract_saved_path(stdout: &str) -> (r: Option<String>)
    ensures
        maybe_text(r) == last_filled(
            trimmed_lines(stdout@),
            trimmed_lines(stdout@).len() as int,
        ),
{
    let list = crate::cookies::lines_trimmed(stdout);
    assert(texts(list@).len() == list@.len());
    filled_at_end(&list)
}

/// `r` is what the user is told of a download into `dir` that ended so.
pub open spec fn is_finished(
    end: RunEnd,
    dir: Seq<char>,
    log: Option<Seq<char>>,
    r: Result<String, String>,
) -> bool {
    match end {
        RunEnd::NotStarted { missing, reason } => r matches Err(text) && text@ == hinted(
            "ダウンロードに失敗しました: "@ + launch_text(missing, reason@),
            log,
        ),
        RunEnd::Finished { code, stdout, stderr } => if code == Some(0i32) {
            let list = trimmed_lines(stdout@);
            r matches Ok(text) && text@ == "保存しました: "@ + match last_filled(
                list,
                list.len() as int,
            ) {
                Some(path) => path,
                None => dir,
            }
        } else {
            r matches Err(text) && text@ == hinted(
                "ダウンロードに失敗しました: "@ + reason_of(stderr@),
                log,
            )
        },
    }
}

/// Words how a download ended.
pub fn finished(end: &RunEnd, dir: &str, debug_log_path: Option<&str>) -> (r: Result<String, String>)
    ensures
        is_finished(*end, dir@, seen(debug_log_path), r),
{
    match end {
        RunEnd::NotStarted { missing, reason } => {
            let mut text = "ダウンロードに失敗しました: ".to_owned();
            text.append(launch_error(*missing, reason.as_str()).as_str());
            Err(with_log_hint(text, debug_log_path))
        },
        RunEnd::Finished { code, stdout, stderr } => if succeeded(*code) {
            let mut text = "保存しました: ".to_owned();
            match extract_saved_path(stdout.as_str()) {
                Some(path) => text.append(path.as_str()),
                None => text.append(dir),
            }
            Ok(text)
        } else {
            let mut text = "ダウンロードに失敗しました: ".to_owned();
            text.append(failure_reason(stderr.as_str()).as_str());
            Err(with_log_hint(text, debug_log_path))
        },
    }
}

/// A download on its way.
#[derive(Debug, PartialEq, Eq)]
pub struct Run {
    /// Where the file goes.
    pub dir: String,
    /// The arguments for the downloader.
    pub args: Vec<String>,
}

/// Prepares a download. A directory that begins with `~/` lies in the user's home.
pub fn begin_run(dir: &str, filename: &str, audio_only: bool, url: &str, home: Option<&str>) -> (r:
    Run)
    ensures
        r.dir@ == home_expanded(dir@, seen(home)),
        texts(r.args@) == arg_texts(url@, r.dir@, filename@, audio_only),
{
    let dir = expand_home(dir, home);
    let args = download_args(url, dir.as_str(), filename, audio_only);
    Run { dir, args }
}

/// What comes of a download that has ended.
#[derive(Debug, PartialEq, Eq)]
pub struct RunReport {
    /// What is added to the log, where one is kept.
    pub entry: Option<String>,
    /// What the user is told.
    pub told: Result<String, String>,
}

/// What is added to the log, where one is kept.
pub open spec fn logged(kept: bool, secs: nat, args: Seq<Seq<char>>, end: RunEnd) -> Option<
    Seq<char>,
> {
    if kept {
        Some(entry_text(secs, args, end))
    } else {
        None
    }
}

/// Words how a download ended, for the log and for the user.
pub fn end_run(run: &Run, end: &RunEnd, debug_log_path: Option<&str>, now_secs: u64) -> (r: RunReport)
    ensures
        maybe_text(r.entry) == logged(
            debug_log_path is Some,
            now_secs as nat,
            texts(run.args@),
            *end,
        ),
        is_finished(*end, run.dir@, seen(debug_log_path), r.told),
{
    let entry = if debug_log_path.is_some() {
        Some(format_debug_entry(now_secs, &run.args, end))
    } else {
        None
    };
    RunReport { entry, told: finished(end, run.dir.as_str(), debug_log_path) }
}

/// What the settings name goes before the home, in whose `Downloads` files are saved else.
pub proof fn law_named_directory_is_saved_in(dir: Seq<char>, home: Seq<char>)
    ensures
        dir_to_save_in(Some(dir), Some(home)) == Some(dir),
        dir_to_save_in(Some(dir), None) == Some(dir),
        home.len() > 0 ==> dir_to_save_in(None, Some(home)) == Some(below(home, "Downloads"@)),
        dir_to_save_in(None, None) is None,
{
}

/// Slashes and backslashes become underscores, each where it stands, and nothing else
/// changes.
pub proof fn law_separators_become_underscores(title: Seq<char>, i: int)
    requires
        0 <= i < title.len(),
    ensures
        sanitized(title).len() == title.len(),
        title[i] == '/' || title[i] == '\\' ==> sanitized(title)[i] == '_',
        title[i] != '/' && title[i] != '\\' ==> sanitized(title)[i] == title[i],
{
}

/// Sound is asked for as mp3 and video with its sound at its best; the file goes below its
/// directory under its name, and the address comes last.
pub proof fn law_download_arguments(url: Seq<char>, dir: Seq<char>, filename: Seq<char>)
    ensures
        arg_texts(url, dir, filename, true).take(3) == seq!["-x"@, "--audio-format"@, "mp3"@],
        arg_texts(url, dir, filename, false).take(2) == seq!["-f"@, "bestvideo+bestaudio/best"@],
        ({
            let rest = seq![
                "-o"@,
                below(dir, filename + ".%(ext)s"@),
                "--print"@,
                "after_move:filepath"@,
                url,
            ];
            &&& arg_texts(url, dir, filename, true).skip(3) == rest
            &&& arg_texts(url, dir, filename, false).skip(2) == rest
        }),
        arg_texts(url, dir, filename, true).last() == url,
        arg_texts(url, dir, filename, false).last() == url,
{
    let rest = seq![
        "-o"@,
        below(dir, filename + ".%(ext)s"@),
        "--print"@,
        "after_move:filepath"@,
        url,
    ];
    assert(arg_texts(url, dir, filename, true).take(3) =~= seq![
        "-x"@,
        "--audio-format"@,
        "mp3"@,
    ]);
    assert(arg_texts(url, dir, filename, false).take(2) =~= seq![
        "-f"@,
        "bestvideo+bestaudio/best"@,
    ]);
    assert(arg_texts(url, dir, filename, true).skip(3) =~= rest);
    assert(arg_texts(url, dir, filename, false).skip(2) =~= rest);
}

/// The first line with the word is found, if there is one.
pub proof fn law_first_line_with_the_word(
    list: Seq<Seq<char>>,
    word: Seq<char>,
    from: int,
    i: int,
)
    requires
        0 <= from <= list.len(),
    ensures
        first_with(list, word, from) is None <==> forall|j: int|
            from <= j < list.len() ==> !holds(#[trigger] list[j], word),
        from <= i < list.len() && holds(list[i], word) && (forall|j: int|
            from <= j < i ==> !holds(#[trigger] list[j], word)) ==> first_with(list, word, from)
            == Some(list[i]),
    decreases list.len() - from,
{
    if from < list.len() && !holds(list[from], word) {
        law_first_line_with_the_word(list, word, from + 1, i);
    }
}

/// The last line that says anything is found, if there is one.
pub proof fn law_last_line_that_says_anything(list: Seq<Seq<char>>, n: int, i: int)
    requires
        0 <= n <= list.len(),
    ensures
        last_filled(list, n) is None <==> forall|j: int|
            0 <= j < n ==> (#[trigger] list[j]).len() == 0,
        0 <= i < n && list[i].len() > 0 && (forall|j: int|
            i < j < n ==> (#[trigger] list[j]).len() == 0) ==> last_filled(list, n) == Some(list[i]),
    decreases n,
{
    if n > 0 && list[n - 1].len() == 0 {
        law_last_line_that_says_anything(list, n - 1, i);
    }
}

/// A failure is told by its first line with an error, and without one by the last line that
/// says anything.
pub proof fn law_error_line_is_the_reason(stderr: Seq<char>, i: int)
    ensures
        ({
            let list = trimmed_lines(stderr);
            &&& 0 <= i < list.len() && holds(list[i], "ERROR"@) && (forall|j: int|
                0 <= j < i ==> !holds(#[trigger] list[j], "ERROR"@)) ==> reason_of(stderr)
                == list[i]
            &&& (forall|j: int| 0 <= j < list.len() ==> !holds(#[trigger] list[j], "ERROR"@)) && 0
                <= i < list.len() && list[i].len() > 0 && (forall|j: int|
                i < j < list.len() ==> (#[trigger] list[j]).len() == 0) ==> reason_of(stderr)
                == list[i]
        }),
{
    let list = trimmed_lines(stderr);
    law_first_line_with_the_word(list, "ERROR"@, 0, i);
    law_last_line_that_says_anything(list, list.len() as int, i);
}

/// A download succeeded just where its program says so, and then where the file was saved
/// is told; else why not, and where the log is.
pub proof fn law_download_is_told(
    end: RunEnd,
    dir: Seq<char>,
    log: Option<Seq<char>>,
    r: Result<String, String>,
)
    requires
        is_finished(end, dir, log, r),
    ensures
        r is Ok <==> (end matches RunEnd::Finished { code, .. } && code == Some(0i32)),
        end matches RunEnd::Finished { code, stdout, stderr } ==> {
            let list = trimmed_lines(stdout@);
            let path = match last_filled(list, list.len() as int) {
                Some(path) => path,
                None => dir,
            };
            &&& code == Some(0i32) ==> r->Ok_0@.len() >= path.len() && r->Ok_0@.skip(
                r->Ok_0@.len() - path.len(),
            ) == path
            &&& code != Some(0i32) && log is None ==> r->Err_0@.len() >= reason_of(stderr@).len()
                && r->Err_0@.skip(r->Err_0@.len() - reason_of(stderr@).len()) == reason_of(stderr@)
        },
{
    if let RunEnd::Finished { code, stdout, stderr } = end {
        let list = trimmed_lines(stdout@);
        let path = match last_filled(list, list.len() as int) {
            Some(path) => path,
            None => dir,
        };
        if code == Some(0i32) {
            assert(r->Ok_0@.skip(r->Ok_0@.len() - path.len()) =~= path);
        } else if log is None {
            let why = reason_of(stderr@);
            assert(r->Err_0@.skip(r->Err_0@.len() - why.len()) =~= why);
        }
    }
}

/// The place of the log stands in brackets behind a message, where a log is kept.
pub proof fn law_log_is_pointed_to(message: Seq<char>, path: Seq<char>)
    ensures
        hinted(message, None) == message,
        hinted(message, Some(path)) == message + " (詳細: "@ + path + ")"@,
{
}

/// The log is written where one is kept, and says when and what was run and how it ended.
pub proof fn law_log_entry(secs: nat, args: Seq<Seq<char>>, end: RunEnd)
    ensures
        logged(false, secs, args, end) is None,
        logged(true, secs, args, end) is Some,
        end matches RunEnd::Finished { code, stdout, stderr } ==> stdout_text(end) == stdout@
            && stderr_text(end) == stderr@ && (end_text(end) == "success (exit 0)"@ <== code == Some(
            0i32,
        )),
        end matches RunEnd::Finished { code, stdout, stderr } ==> (code matches Some(n) ==> n != 0
            ==> end_text(end) == "failed (exit "@ + signed(n as int) + ")"@),
        end matches RunEnd::NotStarted { missing, reason } ==> end_text(end) == "launch error: "@
            + reason@ && stdout_text(end).len() == 0 && stderr_text(end).len() == 0,
{
}

/// What the user is told of a download: where it went, or why it failed and where the log
/// is.
pub proof fn law_download_messages(
    end: RunEnd,
    dir: Seq<char>,
    log: Option<Seq<char>>,
    r: Result<String, String>,
)
    requires
        is_finished(end, dir, log, r),
    ensures
        end matches RunEnd::NotStarted { missing, reason } ==> (r matches Err(text) && text@
            == hinted("ダウンロードに失敗しました: "@ + launch_text(missing, reason@), log)),
        end matches RunEnd::Finished { code, stdout, stderr } ==> {
            let list = trimmed_lines(stdout@);
            &&& code == Some(0i32) && last_filled(list, list.len() as int) is None ==> (
            r matches Ok(text) && text@ == "保存しました: "@ + dir)
            &&& code == Some(0i32) ==> (last_filled(list, list.len() as int) matches Some(path)
                ==> (r matches Ok(text) && text@ == "保存しました: "@ + path))
            &&& code != Some(0i32) ==> (r matches Err(text) && text@ == hinted(
                "ダウンロードに失敗しました: "@ + reason_of(stderr@),
                log,
            ))
        },
{
}

/// A run that ended without a code is written down as one less than none.
pub proof fn law_end_without_a_code(stdout: String, stderr: String)
    ensures
        end_text(RunEnd::Finished { code: None, stdout, stderr }) == "failed (exit "@ + signed(-1)
            + ")"@,
{
}

/// An entry of the log tells when the run was, what it was asked, how it ended and what it
/// said, in that order.
pub proof fn law_log_entry_is_in_order(secs: nat, args: Seq<Seq<char>>, end: RunEnd)
    ensures
        ({
            let head = "##### "@ + decimal(secs) + " #####\nargs: "@ + with_between(args, " "@)
                + "\nresult: "@ + end_text(end);
            let said = "\n--- stdout ---\n"@ + stdout_text(end) + "\n--- stderr ---\n"@
                + stderr_text(end) + "\n\n"@;
            entry_text(secs, args, end) == head + said
        }),
{
    let head = "##### "@ + decimal(secs) + " #####\nargs: "@ + with_between(args, " "@)
        + "\nresult: "@ + end_text(end);
    let said = "\n--- stdout ---\n"@ + stdout_text(end) + "\n--- stderr ---\n"@ + stderr_text(end)
        + "\n\n"@;
    assert(entry_text(secs, args, end) =~= head + said);
}

} // verus!
