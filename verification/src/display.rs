//! Where the picture is shown, and the arguments and commands for the player that
//! follow from it.

use crate::mpv::{
    command_views, set_kitty_option, set_property, set_tct_option, setting, spoken, unasked, vf_add,
    vf_remove, ArgView, MpvArg, MpvCommand,
};
use crate::settings::{Settings, MAX_FPS_CAP};
use crate::speed::Speed;
use crate::subtitles::SubtitleLaunch;
use crate::text::{copied, decimal, joined, maybe_text, number, same, texts};
use crate::video::{
    kitty_settings, option_args, option_views, tct_settings, DecoderKind, Geometry,
    MAX_FRAME_PIXELS,
};
use vstd::prelude::*;
use vstd::string::*;

verus! {

/// The label of the frame rate filter, by which it is taken out and put back.
pub const CAP_LABEL: &'static str = "tuitube-cap";

/// The title of a separate window. The player fills in the name of the video.
pub const DEFAULT_WINDOW_TITLE: &'static str = "tuitube - ${media-title}";

/// Where the picture is shown.
#[derive(Debug, Clone, Copy, PartialEq, Eq, Structural)]
pub enum DisplayMode {
    Embedded,
    Text,
    Window,
}

impl Default for DisplayMode {
    fn default() -> (r: Self)
        ensures
            r == DisplayMode::Embedded,
    {
        DisplayMode::Embedded
    }
}

impl DisplayMode {
    pub open spec fn following(self) -> Self {
        match self {
            DisplayMode::Embedded => DisplayMode::Text,
            DisplayMode::Text => DisplayMode::Window,
            DisplayMode::Window => DisplayMode::Embedded,
        }
    }

    pub open spec fn preceding(self) -> Self {
        match self {
            DisplayMode::Embedded => DisplayMode::Window,
            DisplayMode::Text => DisplayMode::Embedded,
            DisplayMode::Window => DisplayMode::Text,
        }
    }

    /// The next mode round. The terminal comes before the window, so that no window
    /// opens on the way from one terminal mode to the other.
    pub fn next(self) -> (r: Self)
        ensures
            r == self.following(),
    {
        match self {
            DisplayMode::Embedded => DisplayMode::Text,
            DisplayMode::Text => DisplayMode::Window,
            DisplayMode::Window => DisplayMode::Embedded,
        }
    }

    pub fn prev(self) -> (r: Self)
        ensures
            r == self.preceding(),
    {
        match self {
            DisplayMode::Embedded => DisplayMode::Window,
            DisplayMode::Text => DisplayMode::Embedded,
            DisplayMode::Window => DisplayMode::Text,
        }
    }

    /// The mode that an output of the player belongs to.
    pub open spec fn of_output(vo: Seq<char>) -> Self {
        if vo == "kitty"@ {
            DisplayMode::Embedded
        } else if vo == "tct"@ {
            DisplayMode::Text
        } else {
            DisplayMode::Window
        }
    }

    /// The mode that the player is in, once it has said which output it uses.
    pub fn from_current_vo(vo: Option<&str>) -> (r: Option<Self>)
        ensures
            r == (match vo {
                Some(name) => Some(Self::of_output(name@)),
                None => None,
            }),
    {
        match vo {
            None => None,
            Some(name) => if same(name, "kitty") {
                Some(DisplayMode::Embedded)
            } else if same(name, "tct") {
                Some(DisplayMode::Text)
            } else {
                Some(DisplayMode::Window)
            },
        }
    }

    /// How the picture is read; a window sends none.
    pub open spec fn decoder(self) -> Option<DecoderKind> {
        match self {
            DisplayMode::Embedded => Some(DecoderKind::Kitty),
            DisplayMode::Text => Some(DecoderKind::Text),
            DisplayMode::Window => None,
        }
    }

    pub fn decoder_kind(self) -> (r: Option<DecoderKind>)
        ensures
            r == self.decoder(),
    {
        match self {
            DisplayMode::Embedded => Some(DecoderKind::Kitty),
            DisplayMode::Text => Some(DecoderKind::Text),
            DisplayMode::Window => None,
        }
    }

    pub open spec fn name(self) -> Seq<char> {
        match self {
            DisplayMode::Embedded => "埋め込み"@,
            DisplayMode::Text => "テキスト"@,
            DisplayMode::Window => "別ウィンドウ"@,
        }
    }

    pub fn label(self) -> (r: &'static str)
        ensures
            r@ == self.name(),
    {
        match self {
            DisplayMode::Embedded => "埋め込み",
            DisplayMode::Text => "テキスト",
            DisplayMode::Window => "別ウィンドウ",
        }
    }

    pub open spec fn word(self) -> Seq<char> {
        match self {
            DisplayMode::Embedded => "embedded"@,
            DisplayMode::Text => "text"@,
            DisplayMode::Window => "window"@,
        }
    }

    /// The word for the mode in the settings file.
    pub fn key(self) -> (r: &'static str)
        ensures
            r@ == self.word(),
    {
        match self {
            DisplayMode::Embedded => "embedded",
            DisplayMode::Text => "text",
            DisplayMode::Window => "window",
        }
    }

    pub fn from_key(key: &str) -> (r: Option<Self>)
        ensures
            r matches Some(mode) ==> key@ == mode.word(),
            r is None ==> forall|mode: DisplayMode| key@ != #[trigger] mode.word(),
    {
        if same(key, "embedded") {
            Some(DisplayMode::Embedded)
        } else if same(key, "text") {
            Some(DisplayMode::Text)
        } else if same(key, "window") {
            Some(DisplayMode::Window)
        } else {
            None
        }
    }
}

/// A step back undoes a step forward, and the other way round.
pub proof fn law_display_mode_steps_back(mode: DisplayMode)
    ensures
        mode.following().preceding() == mode,
        mode.preceding().following() == mode,
        mode.following().following().following() == mode,
{
}

/// No two modes share a word, so a mode is found again by its word.
pub proof fn law_display_mode_words_differ(a: DisplayMode, b: DisplayMode)
    requires
        a.word() == b.word(),
    ensures
        a == b,
{
    reveal_strlit("embedded");
    reveal_strlit("text");
    reveal_strlit("window");
    assert("embedded"@.len() == 8 && "text"@.len() == 4 && "window"@.len() == 6);
}

/// A limit on the frame rate of a picture in the terminal.
#[derive(Debug, Clone, Copy, PartialEq, Eq, Structural)]
pub struct FpsCap {
    pub fps: u32,
}

/// The filter that lets a frame through where at least 1/`fps` s passed since the last
/// one. A fixed rate would double the frames of a slower video; the small addition
/// keeps rounding from dropping a frame too many.
pub open spec fn cap_filter(fps: nat) -> Seq<char> {
    "@tuitube-cap:lavfi=[select=floor((t-prev_selected_t)*"@ + decimal(fps) + "+0.001)]"@
}

impl FpsCap {
    pub open spec fn wf(self) -> bool {
        1 <= self.fps <= MAX_FPS_CAP
    }

    pub open spec fn of(fps: int) -> Option<FpsCap> {
        if 1 <= fps <= MAX_FPS_CAP {
            Some(FpsCap { fps: fps as u32 })
        } else {
            None
        }
    }

    pub fn new(fps: u32) -> (r: Option<Self>)
        ensures
            r == Self::of(fps as int),
            r matches Some(cap) ==> cap.wf(),
    {
        if 1 <= fps && fps <= MAX_FPS_CAP {
            Some(FpsCap { fps })
        } else {
            None
        }
    }

    pub fn get(self) -> (r: u32)
        ensures
            r == self.fps,
    {
        self.fps
    }

    pub fn filter_spec(self) -> (r: String)
        ensures
            r@ == cap_filter(self.fps as nat),
    {
        joined(
            "@tuitube-cap:lavfi=[select=floor((t-prev_selected_t)*",
            number(self.fps as u64).as_str(),
            "+0.001)]",
        )
    }

    pub open spec fn arg_text(self) -> Seq<char> {
        "--vf-append="@ + cap_filter(self.fps as nat)
    }

    /// Appended, so that the user's own filters stay.
    pub fn launch_arg(self) -> (r: String)
        ensures
            r@ == self.arg_text(),
    {
        let mut out = "--vf-append=".to_owned();
        out.append(self.filter_spec().as_str());
        out
    }

    pub open spec fn adding(self) -> Seq<ArgView> {
        spoken(seq!["vf"@, "add"@, cap_filter(self.fps as nat)])
    }

    pub open spec fn removing() -> Seq<ArgView> {
        spoken(seq!["vf"@, "remove"@, "@"@ + CAP_LABEL@])
    }

    pub fn add_command(self) -> (r: MpvCommand)
        ensures
            r@ == self.adding(),
            r.request_id is None,
    {
        vf_add(self.filter_spec().as_str())
    }

    pub fn remove_command() -> (r: MpvCommand)
        ensures
            r@ == Self::removing(),
            r.request_id is None,
    {
        vf_remove(CAP_LABEL)
    }
}

/// How fine the picture in the terminal is. It decides how much is sent to the
/// terminal, not how much the player decodes.
#[derive(Debug, Clone, Copy, PartialEq, Eq, Structural)]
pub enum Quality {
    Low,
    Medium,
    High,
    Native,
}

impl Default for Quality {
    fn default() -> (r: Self)
        ensures
            r == Quality::Medium,
    {
        Quality::Medium
    }
}

impl Quality {
    pub open spec fn following(self) -> Self {
        match self {
            Quality::Low => Quality::Medium,
            Quality::Medium => Quality::High,
            Quality::High => Quality::Native,
            Quality::Native => Quality::Low,
        }
    }

    pub open spec fn preceding(self) -> Self {
        match self {
            Quality::Low => Quality::Native,
            Quality::Medium => Quality::Low,
            Quality::High => Quality::Medium,
            Quality::Native => Quality::High,
        }
    }

    /// From coarse to fine, and round.
    pub fn next(self) -> (r: Self)
        ensures
            r == self.following(),
    {
        match self {
            Quality::Low => Quality::Medium,
            Quality::Medium => Quality::High,
            Quality::High => Quality::Native,
            Quality::Native => Quality::Low,
        }
    }

    pub fn prev(self) -> (r: Self)
        ensures
            r == self.preceding(),
    {
        match self {
            Quality::Low => Quality::Native,
            Quality::Medium => Quality::Low,
            Quality::High => Quality::Medium,
            Quality::Native => Quality::High,
        }
    }

    pub open spec fn budget(self) -> int {
        match self {
            Quality::Low => 320int * 180,
            Quality::Medium => MAX_FRAME_PIXELS as int,
            Quality::High => 960int * 540,
            Quality::Native => u32::MAX as int,
        }
    }

    /// The most pixels that a frame may have.
    pub fn max_pixels(self) -> (r: u32)
        ensures
            r == self.budget(),
    {
        match self {
            Quality::Low => 320 * 180,
            Quality::Medium => MAX_FRAME_PIXELS,
            Quality::High => 960 * 540,
            Quality::Native => u32::MAX,
        }
    }

    pub open spec fn word(self) -> Seq<char> {
        match self {
            Quality::Low => "low"@,
            Quality::Medium => "medium"@,
            Quality::High => "high"@,
            Quality::Native => "native"@,
        }
    }

    pub fn label(self) -> (r: &'static str)
        ensures
            r@ == self.word(),
    {
        match self {
            Quality::Low => "low",
            Quality::Medium => "medium",
            Quality::High => "high",
            Quality::Native => "native",
        }
    }

    pub fn from_label(label: &str) -> (r: Option<Self>)
        ensures
            r matches Some(quality) ==> label@ == quality.word(),
            r is None ==> forall|quality: Quality| label@ != #[trigger] quality.word(),
    {
        if same(label, "low") {
            Some(Quality::Low)
        } else if same(label, "medium") {
            Some(Quality::Medium)
        } else if same(label, "high") {
            Some(Quality::High)
        } else if same(label, "native") {
            Some(Quality::Native)
        } else {
            None
        }
    }
}

/// A step back undoes a step forward and the other way round, and four steps go
/// once round.
pub proof fn law_quality_steps_back(quality: Quality)
    ensures
        quality.following().preceding() == quality,
        quality.preceding().following() == quality,
        quality.following().following().following().following() == quality,
{
}

/// A finer quality has the larger budget.
pub proof fn law_quality_budgets_grow(quality: Quality)
    requires
        quality != Quality::Native,
    ensures
        quality.budget() < quality.following().budget(),
{
}

/// No two qualities share a word, so a quality is found again by its word.
pub proof fn law_quality_words_differ(a: Quality, b: Quality)
    requires
        a.word() == b.word(),
    ensures
        a == b,
{
    reveal_strlit("low");
    reveal_strlit("medium");
    reveal_strlit("high");
    reveal_strlit("native");
    assert("low"@[0] == 'l' && "medium"@[0] == 'm' && "high"@[0] == 'h' && "native"@[0] == 'n');
}

/// When the player's window asks for the focus.
#[derive(Debug, Clone, Copy, PartialEq, Eq, Structural)]
pub enum FocusOn {
    Never,
    Open,
    All,
}

impl FocusOn {
    pub open spec fn word(self) -> Seq<char> {
        match self {
            FocusOn::Never => "never"@,
            FocusOn::Open => "open"@,
            FocusOn::All => "all"@,
        }
    }

    pub fn value(self) -> (r: &'static str)
        ensures
            r@ == self.word(),
    {
        match self {
            FocusOn::Never => "never",
            FocusOn::Open => "open",
            FocusOn::All => "all",
        }
    }

    pub fn from_value(value: &str) -> (r: Option<Self>)
        ensures
            r matches Some(focus) ==> value@ == focus.word(),
            r is None ==> forall|focus: FocusOn| value@ != #[trigger] focus.word(),
    {
        if same(value, "never") {
            Some(FocusOn::Never)
        } else if same(value, "open") {
            Some(FocusOn::Open)
        } else if same(value, "all") {
            Some(FocusOn::All)
        } else {
            None
        }
    }
}

/// No two of them share a word, so each is found again by its word.
pub proof fn law_focus_words_differ(a: FocusOn, b: FocusOn)
    requires
        a.word() == b.word(),
    ensures
        a == b,
{
    reveal_strlit("never");
    reveal_strlit("open");
    reveal_strlit("all");
    assert("never"@.len() == 5 && "open"@.len() == 4 && "all"@.len() == 3);
}

/// Options for a separate window. They are passed on unchecked.
#[derive(Debug, PartialEq, Eq)]
pub struct WindowOptions {
    /// `None` leaves the choice of output to the player.
    pub vo: Option<String>,
    pub autofit: Option<String>,
    pub geometry: Option<String>,
    pub ontop: bool,
    pub fullscreen: bool,
    pub focus_on: Option<FocusOn>,
    pub title: Option<String>,
}

impl Default for WindowOptions {
    fn default() -> (r: Self)
        ensures
            r == (WindowOptions {
                vo: None,
                autofit: None,
                geometry: None,
                ontop: false,
                fullscreen: false,
                focus_on: None,
                title: None,
            }),
    {
        WindowOptions {
            vo: None,
            autofit: None,
            geometry: None,
            ontop: false,
            fullscreen: false,
            focus_on: None,
            title: None,
        }
    }
}

/// A copy of an optional text.
pub fn copy_of(text: &Option<String>) -> (r: Option<String>)
    ensures
        r == *text,
{
    match text {
        Some(s) => Some(s.clone()),
        None => None,
    }
}

impl Clone for WindowOptions {
    fn clone(&self) -> (r: Self)
        ensures
            r == *self,
    {
        WindowOptions {
            vo: copy_of(&self.vo),
            autofit: copy_of(&self.autofit),
            geometry: copy_of(&self.geometry),
            ontop: self.ontop,
            fullscreen: self.fullscreen,
            focus_on: self.focus_on,
            title: copy_of(&self.title),
        }
    }
}

/// The argument for an option that is set, or none.
pub open spec fn option_text(prefix: Seq<char>, value: Option<Seq<char>>) -> Seq<Seq<char>> {
    match value {
        Some(text) => seq![prefix + text],
        None => seq![],
    }
}

pub open spec fn flag_arg(flag: Seq<char>, on: bool) -> Seq<Seq<char>> {
    if on {
        seq![flag]
    } else {
        seq![]
    }
}

impl WindowOptions {
    pub open spec fn arg_texts(self) -> Seq<Seq<char>> {
        option_text("--vo="@, maybe_text(self.vo)) + option_text(
            "--autofit="@,
            maybe_text(self.autofit),
        ) + option_text("--geometry="@, maybe_text(self.geometry)) + flag_arg(
            "--ontop"@,
            self.ontop,
        ) + flag_arg("--fullscreen"@, self.fullscreen) + option_text(
            "--focus-on="@,
            match self.focus_on {
                Some(focus) => Some(focus.word()),
                None => None,
            },
        ) + seq![
            "--title="@ + match self.title {
                Some(title) => title@,
                None => DEFAULT_WINDOW_TITLE@,
            },
        ]
    }

    pub fn args(&self) -> (r: Vec<String>)
        ensures
            texts(r@) == self.arg_texts(),
    {
        let mut out: Vec<String> = Vec::new();
        push_option(&mut out, "--vo=", &self.vo);
        push_option(&mut out, "--autofit=", &self.autofit);
        push_option(&mut out, "--geometry=", &self.geometry);
        push_flag(&mut out, "--ontop", self.ontop);
        push_flag(&mut out, "--fullscreen", self.fullscreen);
        let focus = match self.focus_on {
            Some(focus) => Some(focus.value().to_owned()),
            None => None,
        };
        push_option(&mut out, "--focus-on=", &focus);
        let mut title = "--title=".to_owned();
        match &self.title {
            Some(text) => title.append(text.as_str()),
            None => title.append(DEFAULT_WINDOW_TITLE),
        }
        let ghost before = texts(out@);
        let ghost last = title@;
        out.push(title);
        assert(texts(out@) =~= before.push(last));
        assert(texts(out@) =~= self.arg_texts());
        out
    }

    pub open spec fn vo_text(self) -> Seq<char> {
        match self.vo {
            Some(vo) => vo@,
            None => seq![],
        }
    }

    /// What the output is set to; an empty text leaves the choice to the player.
    pub fn vo_value(&self) -> (r: String)
        ensures
            r@ == self.vo_text(),
    {
        match &self.vo {
            Some(vo) => vo.clone(),
            None => String::new(),
        }
    }
}

fn push_option(out: &mut Vec<String>, prefix: &str, value: &Option<String>)
    ensures
        texts(final(out)@) == texts(old(out)@) + option_text(prefix@, maybe_text(*value)),
{
    if let Some(text) = value {
        let mut arg = prefix.to_owned();
        arg.append(text.as_str());
        out.push(arg);
    }
    assert(texts(out@) =~= texts(old(out)@) + option_text(prefix@, maybe_text(*value)));
}

fn push_flag(out: &mut Vec<String>, flag: &str, on: bool)
    ensures
        texts(final(out)@) == texts(old(out)@) + flag_arg(flag@, on),
{
    if on {
        out.push(flag.to_owned());
    }
    assert(texts(out@) =~= texts(old(out)@) + flag_arg(flag@, on));
}

/// Appends the texts of `more`.
fn push_all(out: &mut Vec<String>, more: Vec<String>)
    ensures
        texts(final(out)@) == texts(old(out)@) + texts(more@),
{
    let ghost added = more@;
    let mut more = more;
    out.append(&mut more);
    assert(texts(out@) =~= texts(old(out)@) + texts(added));
}

/// Everything that the player's arguments follow from. Times are milliseconds.
#[derive(Debug, PartialEq, Eq)]
pub struct LaunchPlan {
    pub mode: DisplayMode,
    /// Kept in a window too, for the way back into the terminal.
    pub geometry: Geometry,
    pub fps_cap: Option<FpsCap>,
    pub window: WindowOptions,
    /// Carried over from the video before.
    pub speed: Speed,
    pub subtitles: SubtitleLaunch,
    /// Where to go on; `None` starts at the beginning.
    pub resume_at: Option<u64>,
    /// The user's own arguments, and those for the cookies.
    pub extra_args: Vec<String>,
}

/// A number of milliseconds in seconds, without zeros behind the point.
pub open spec fn seconds_text(millis: nat) -> Seq<char> {
    if millis % 1000 == 0 {
        decimal(millis / 1000)
    } else {
        crate::mpv::fraction_text(millis)
    }
}

pub fn seconds(millis: u64) -> (r: String)
    ensures
        r@ == seconds_text(millis as nat),
{
    if millis % 1000 == 0 {
        number(millis / 1000)
    } else {
        crate::mpv::fraction(millis)
    }
}

/// The argument for a frame rate limit, or none.
pub open spec fn cap_args(cap: Option<FpsCap>) -> Seq<Seq<char>> {
    match cap {
        Some(cap) => seq![cap.arg_text()],
        None => seq![],
    }
}

impl LaunchPlan {
    /// The arguments that belong to the place where the picture is shown. A window
    /// draws fast enough to need no frame rate limit.
    pub open spec fn output_texts(self) -> Seq<Seq<char>> {
        match self.mode {
            DisplayMode::Embedded => seq!["--vo=kitty"@] + option_args(
                "--vo-kitty-"@,
                kitty_settings(self.geometry),
            ) + cap_args(self.fps_cap),
            DisplayMode::Text => seq!["--vo=tct"@] + option_args(
                "--vo-tct-"@,
                tct_settings(self.geometry),
            ) + cap_args(self.fps_cap),
            DisplayMode::Window => self.window.arg_texts(),
        }
    }

    /// The arguments that are the same wherever the picture is shown.
    pub open spec fn common_texts(self) -> Seq<Seq<char>> {
        (if self.speed.tenths == crate::speed::NORMAL_TENTHS {
            seq![]
        } else {
            seq!["--speed="@ + self.speed.written()]
        }) + self.subtitles.arg_texts() + (match self.resume_at {
            Some(millis) => seq!["--start="@ + seconds_text(millis as nat)],
            None => seq![],
        })
    }

    /// All arguments. The user's own come last, where they win.
    pub open spec fn arg_texts(self) -> Seq<Seq<char>> {
        self.output_texts() + self.common_texts() + texts(self.extra_args@)
    }

    /// The plan that follows from the settings alone. Speed, subtitles and the place
    /// to go on from belong to the video, and are filled in by the caller.
    pub fn new(mode: DisplayMode, geometry: Geometry, settings: &Settings) -> (r: Self)
        ensures
            r.mode == mode,
            r.geometry == geometry,
            r.fps_cap == settings.fps_cap,
            r.window == settings.window,
            r.speed.tenths == crate::speed::NORMAL_TENTHS,
            r.subtitles.wants(settings.subtitles, true),
            r.resume_at is None,
            r.extra_args@ == settings.extra_args@,
    {
        LaunchPlan {
            mode,
            geometry,
            fps_cap: settings.fps_cap,
            window: settings.window.clone(),
            speed: Speed::normal(),
            subtitles: SubtitleLaunch::new(&settings.subtitles, true),
            resume_at: None,
            extra_args: copied(&settings.extra_args),
        }
    }

    pub fn args(&self) -> (r: Vec<String>)
        ensures
            texts(r@) == self.arg_texts(),
    {
        let mut out: Vec<String> = Vec::new();
        match self.mode {
            DisplayMode::Embedded => {
                out.push("--vo=kitty".to_owned());
                assert(texts(out@) =~= seq!["--vo=kitty"@]);
                push_all(&mut out, self.geometry.mpv_args());
                push_cap(&mut out, self.fps_cap);
            },
            DisplayMode::Text => {
                out.push("--vo=tct".to_owned());
                assert(texts(out@) =~= seq!["--vo=tct"@]);
                push_all(&mut out, self.geometry.tct_args());
                push_cap(&mut out, self.fps_cap);
            },
            DisplayMode::Window => {
                assert(texts(out@) =~= seq![]);
                push_all(&mut out, self.window.args());
                assert(texts(out@) =~= self.window.arg_texts());
            },
        }
        assert(texts(out@) == self.output_texts());
        let ghost before = texts(out@);
        if let Some(arg) = self.speed.launch_arg() {
            out.push(arg);
        }
        let ghost fast = texts(out@);
        assert(fast =~= before + (if self.speed.tenths == crate::speed::NORMAL_TENTHS {
            seq![]
        } else {
            seq!["--speed="@ + self.speed.written()]
        }));
        push_all(&mut out, self.subtitles.args());
        let ghost titled = texts(out@);
        if let Some(millis) = self.resume_at {
            let mut arg = "--start=".to_owned();
            arg.append(seconds(millis).as_str());
            let ghost shown = arg@;
            out.push(arg);
            assert(texts(out@) =~= titled.push(shown));
        }
        assert(titled =~= before + (if self.speed.tenths == crate::speed::NORMAL_TENTHS {
            seq![]
        } else {
            seq!["--speed="@ + self.speed.written()]
        }) + self.subtitles.arg_texts());
        assert(texts(out@) =~= before + self.common_texts());
        push_all(&mut out, copied(&self.extra_args));
        assert(texts(out@) =~= self.arg_texts());
        out
    }
}

fn push_cap(out: &mut Vec<String>, cap: Option<FpsCap>)
    ensures
        texts(final(out)@) == texts(old(out)@) + cap_args(cap),
{
    if let Some(cap) = cap {
        out.push(cap.launch_arg());
    }
    assert(texts(out@) =~= texts(old(out)@) + cap_args(cap));
}

/// The user's own arguments are the last ones, whatever else is asked for.
pub proof fn law_extra_args_come_last(plan: LaunchPlan)
    ensures
        plan.arg_texts().len() >= plan.extra_args@.len(),
        plan.arg_texts().skip(plan.arg_texts().len() - plan.extra_args@.len()) == texts(
            plan.extra_args@,
        ),
{
    assert(plan.arg_texts().skip(plan.arg_texts().len() - plan.extra_args@.len()) =~= texts(
        plan.extra_args@,
    ));
}

/// Speed, subtitles, the place to go on from and the user's own arguments do not
/// depend on where the picture is shown.
pub proof fn law_common_args_in_every_mode(a: LaunchPlan, b: LaunchPlan)
    requires
        a == (LaunchPlan { mode: a.mode, ..b }),
    ensures
        a.arg_texts().skip(a.output_texts().len() as int) == b.arg_texts().skip(
            b.output_texts().len() as int,
        ),
{
    assert(a.arg_texts().skip(a.output_texts().len() as int) =~= a.common_texts() + texts(
        a.extra_args@,
    ));
    assert(b.arg_texts().skip(b.output_texts().len() as int) =~= b.common_texts() + texts(
        b.extra_args@,
    ));
}

/// The frame rate filter is put back on the way back from a window only: that is the
/// only way on which it was taken out.
pub open spec fn restoring(from: DisplayMode, cap: Option<FpsCap>) -> Seq<Seq<ArgView>> {
    match cap {
        Some(cap) if from == DisplayMode::Window => seq![cap.adding()],
        _ => seq![],
    }
}

pub fn restored_cap(from: DisplayMode, cap: Option<FpsCap>) -> (r: Option<MpvCommand>)
    ensures
        r is Some <==> restoring(from, cap).len() == 1,
        r matches Some(command) ==> restoring(from, cap) == seq![command@]
            && command.request_id is None,
{
    match cap {
        Some(cap) => if from == DisplayMode::Window {
            Some(cap.add_command())
        } else {
            None
        },
        None => None,
    }
}

/// Commands that set each of those options.
pub open spec fn settings_of(prefix: Seq<char>, options: Seq<(Seq<char>, ArgView)>) -> Seq<
    Seq<ArgView>,
> {
    options.map_values(|option: (Seq<char>, ArgView)| setting(prefix + option.0, option.1))
}

/// The commands that move the picture from one place to another. The output reads
/// its settings when it is made, so they come first and the output last.
pub open spec fn switching(
    from: DisplayMode,
    to: DisplayMode,
    geometry: Geometry,
    cap: Option<FpsCap>,
    window: WindowOptions,
) -> Seq<Seq<ArgView>> {
    match to {
        DisplayMode::Window => (if cap is Some {
            seq![FpsCap::removing()]
        } else {
            seq![]
        }) + seq![setting("vo"@, ArgView::Text(window.vo_text()))],
        DisplayMode::Embedded => settings_of("vo-kitty-"@, kitty_settings(geometry)) + restoring(
            from,
            cap,
        ) + seq![setting("vo"@, ArgView::Text("kitty"@))],
        DisplayMode::Text => settings_of("vo-tct-"@, tct_settings(geometry)) + restoring(from, cap)
            + seq![setting("vo"@, ArgView::Text("tct"@))],
    }
}

/// Where the options of an output belong.
#[derive(Clone, Copy, PartialEq, Eq, Structural)]
enum Output {
    Kitty,
    Tct,
}

impl Output {
    spec fn prefix(self) -> Seq<char> {
        match self {
            Output::Kitty => "vo-kitty-"@,
            Output::Tct => "vo-tct-"@,
        }
    }
}

/// The commands that set each of those options.
fn option_commands(output: Output, options: Vec<(&'static str, MpvArg)>) -> (r: Vec<MpvCommand>)
    ensures
        command_views(r@) == settings_of(output.prefix(), option_views(options@)),
        unasked(r@),
{
    let ghost wanted = settings_of(output.prefix(), option_views(options@));
    let mut options = options;
    let ghost all = options@;
    let mut out: Vec<MpvCommand> = Vec::new();
    while options.len() > 0
        invariant
            wanted == settings_of(output.prefix(), option_views(all)),
            out@.len() + options@.len() == all.len(),
            options@ == all.skip(out@.len() as int),
            command_views(out@) == wanted.take(out@.len() as int),
            unasked(out@),
        decreases options.len(),
    {
        let ghost before = out@;
        let ghost n = out@.len() as int;
        let (key, value) = options.remove(0);
        assert((key, value) == all[n]);
        let ghost held = value@;
        let command = match output {
            Output::Kitty => set_kitty_option(key, value),
            Output::Tct => set_tct_option(key, value),
        };
        let ghost shown = command@;
        out.push(command);
        proof {
            assert(options@ =~= all.skip(n + 1));
            assert(wanted[n] == setting(output.prefix() + key@, held));
            assert(command_views(out@) =~= command_views(before).push(shown));
            assert(command_views(out@) =~= wanted.take(n + 1));
        }
    }
    assert(wanted.take(out@.len() as int) =~= wanted);
    out
}

fn push_command(out: &mut Vec<MpvCommand>, command: MpvCommand)
    ensures
        command_views(final(out)@) == command_views(old(out)@) + seq![command@],
        unasked(old(out)@) && command.request_id is None ==> unasked(final(out)@),
{
    let ghost shown = command@;
    out.push(command);
    assert(command_views(out@) =~= command_views(old(out)@) + seq![shown]);
}

/// A new size takes effect once the picture is taken away and brought back.
pub open spec fn redrawing() -> Seq<Seq<ArgView>> {
    seq![setting("vid"@, ArgView::Text("no"@)), setting("vid"@, ArgView::Text("auto"@))]
}

/// What tells the player that its picture has another size. A window has its own.
pub open spec fn resizing(mode: DisplayMode, geometry: Geometry) -> Seq<Seq<ArgView>> {
    match mode {
        DisplayMode::Embedded => settings_of("vo-kitty-"@, kitty_settings(geometry)) + redrawing(),
        DisplayMode::Text => settings_of("vo-tct-"@, tct_settings(geometry)) + redrawing(),
        DisplayMode::Window => seq![],
    }
}

/// Tells the player the size of its picture in the terminal.
pub fn resize_commands(mode: DisplayMode, geometry: &Geometry) -> (r: Vec<MpvCommand>)
    ensures
        command_views(r@) == resizing(mode, *geometry),
        unasked(r@),
{
    let mut out = match mode {
        DisplayMode::Embedded => option_commands(Output::Kitty, geometry.kitty_options()),
        DisplayMode::Text => option_commands(Output::Tct, geometry.tct_options()),
        DisplayMode::Window => {
            let none: Vec<MpvCommand> = Vec::new();
            assert(command_views(none@) =~= seq![]);
            return none;
        },
    };
    let ghost before = command_views(out@);
    push_command(&mut out, set_property("vid", MpvArg::Text("no".to_owned())));
    push_command(&mut out, set_property("vid", MpvArg::Text("auto".to_owned())));
    assert(command_views(out@) =~= before + redrawing());
    out
}

/// Moves the picture from one place to another.
pub fn switch_commands(
    from: DisplayMode,
    to: DisplayMode,
    geometry: &Geometry,
    cap: Option<FpsCap>,
    window: &WindowOptions,
) -> (r: Vec<MpvCommand>)
    ensures
        command_views(r@) == switching(from, to, *geometry, cap, *window),
        unasked(r@),
{
    match to {
        DisplayMode::Window => {
            let mut out: Vec<MpvCommand> = Vec::new();
            assert(command_views(out@) =~= seq![]);
            if cap.is_some() {
                push_command(&mut out, FpsCap::remove_command());
                assert(command_views(out@) =~= seq![FpsCap::removing()]);
            }
            push_command(&mut out, set_property("vo", MpvArg::Text(window.vo_value())));
            out
        },
        DisplayMode::Embedded => {
            let mut out = option_commands(Output::Kitty, geometry.kitty_options());
            let ghost before = command_views(out@);
            if let Some(command) = restored_cap(from, cap) {
                push_command(&mut out, command);
            } else {
                assert(before + restoring(from, cap) =~= before);
            }
            push_command(&mut out, set_property("vo", MpvArg::Text("kitty".to_owned())));
            out
        },
        DisplayMode::Text => {
            let mut out = option_commands(Output::Tct, geometry.tct_options());
            let ghost before = command_views(out@);
            if let Some(command) = restored_cap(from, cap) {
                push_command(&mut out, command);
            } else {
                assert(before + restoring(from, cap) =~= before);
            }
            push_command(&mut out, set_property("vo", MpvArg::Text("tct".to_owned())));
            out
        },
    }
}

/// The output is always set last, after everything that it reads.
pub proof fn law_switch_sets_the_output_last(
    from: DisplayMode,
    to: DisplayMode,
    geometry: Geometry,
    cap: Option<FpsCap>,
    window: WindowOptions,
)
    ensures
        switching(from, to, geometry, cap, window).len() > 0,
        switching(from, to, geometry, cap, window).last() == setting(
            "vo"@,
            ArgView::Text(
                match to {
                    DisplayMode::Window => window.vo_text(),
                    DisplayMode::Embedded => "kitty"@,
                    DisplayMode::Text => "tct"@,
                },
            ),
        ),
{
}

/// The picture goes from the terminal's graphics to text, from there to a window of its own
/// and from there back.
pub proof fn law_display_modes_go_round(mode: DisplayMode)
    ensures
        mode == DisplayMode::Embedded ==> mode.following() == DisplayMode::Text
            && mode.preceding() == DisplayMode::Window,
        mode == DisplayMode::Text ==> mode.following() == DisplayMode::Window && mode.preceding()
            == DisplayMode::Embedded,
        mode == DisplayMode::Window ==> mode.following() == DisplayMode::Embedded
            && mode.preceding() == DisplayMode::Text,
        mode.decoder() is None <==> mode == DisplayMode::Window,
        mode.decoder() == Some(DecoderKind::Kitty) <==> mode == DisplayMode::Embedded,
        mode.decoder() == Some(DecoderKind::Text) <==> mode == DisplayMode::Text,
        mode.word() == "embedded"@ <==> mode == DisplayMode::Embedded,
        mode.word() == "text"@ <==> mode == DisplayMode::Text,
        mode.word() == "window"@ <==> mode == DisplayMode::Window,
        mode == DisplayMode::Embedded ==> mode.name() == "埋め込み"@,
        mode == DisplayMode::Text ==> mode.name() == "テキスト"@,
        mode == DisplayMode::Window ==> mode.name() == "別ウィンドウ"@,
{
    reveal_strlit("embedded");
    reveal_strlit("text");
    reveal_strlit("window");
    assert("embedded"@.len() == 8 && "text"@.len() == 4 && "window"@.len() == 6);
}

/// An output is that of the terminal's graphics or of text by its name, and any other is a
/// window.
pub proof fn law_output_tells_the_mode(vo: Seq<char>)
    ensures
        DisplayMode::of_output(vo) == DisplayMode::Embedded <==> vo == "kitty"@,
        DisplayMode::of_output(vo) == DisplayMode::Text <==> vo == "tct"@,
        DisplayMode::of_output(vo) == DisplayMode::Window <==> vo != "kitty"@ && vo != "tct"@,
{
    reveal_strlit("kitty");
    reveal_strlit("tct");
    assert("kitty"@.len() == 5 && "tct"@.len() == 3);
}

/// Once the player was told to go to the terminal's graphics or to text, the output that it
/// was told is that of the mode gone to.
pub proof fn law_switch_leads_to_its_mode(
    from: DisplayMode,
    to: DisplayMode,
    geometry: Geometry,
    cap: Option<FpsCap>,
    window: WindowOptions,
    vo: Seq<char>,
)
    requires
        to != DisplayMode::Window,
        switching(from, to, geometry, cap, window).last() == setting("vo"@, ArgView::Text(vo)),
    ensures
        DisplayMode::of_output(vo) == to,
{
    law_output_tells_the_mode(vo);
    let told = if to == DisplayMode::Embedded {
        "kitty"@
    } else {
        "tct"@
    };
    law_output_tells_the_mode(told);
    assert(switching(from, to, geometry, cap, window).last() == setting("vo"@, ArgView::Text(told)));
    assert(setting("vo"@, ArgView::Text(vo))[2] == setting("vo"@, ArgView::Text(told))[2]);
}

/// A window has no cap on its pictures: the cap goes before the picture does. It comes back
/// with the picture, and it is not set twice. The cells of the picture are told first.
pub proof fn law_cap_follows_the_picture(
    from: DisplayMode,
    to: DisplayMode,
    geometry: Geometry,
    cap: Option<FpsCap>,
    window: WindowOptions,
)
    ensures
        ({
            let told = switching(from, to, geometry, cap, window);
            &&& to == DisplayMode::Window && cap is Some ==> told.len() == 2 && told[0]
                == FpsCap::removing()
            &&& to == DisplayMode::Window && cap is None ==> told.len() == 1
            &&& to == DisplayMode::Window ==> told.last() == setting(
                "vo"@,
                ArgView::Text(window.vo_text()),
            )
            &&& to == DisplayMode::Embedded ==> told.take(kitty_settings(geometry).len() as int)
                == settings_of("vo-kitty-"@, kitty_settings(geometry))
            &&& to == DisplayMode::Text ==> told.take(tct_settings(geometry).len() as int)
                == settings_of("vo-tct-"@, tct_settings(geometry))
            &&& to == DisplayMode::Embedded && from == DisplayMode::Window && cap is Some
                ==> told.len() == kitty_settings(geometry).len() + 2 && told[told.len() - 2]
                == cap->0.adding()
            &&& to == DisplayMode::Text && from == DisplayMode::Window && cap is Some ==> told.len()
                == tct_settings(geometry).len() + 2 && told[told.len() - 2] == cap->0.adding()
            &&& to == DisplayMode::Embedded && (from != DisplayMode::Window || cap is None)
                ==> told.len() == kitty_settings(geometry).len() + 1
            &&& to == DisplayMode::Text && (from != DisplayMode::Window || cap is None)
                ==> told.len() == tct_settings(geometry).len() + 1
        }),
        restoring(from, cap).len() == 1 <==> from == DisplayMode::Window && cap is Some,
        from != DisplayMode::Window ==> restoring(from, cap).len() == 0,
{
    let told = switching(from, to, geometry, cap, window);
    let kitty = settings_of("vo-kitty-"@, kitty_settings(geometry));
    let tct = settings_of("vo-tct-"@, tct_settings(geometry));
    if to == DisplayMode::Embedded {
        assert(told.take(kitty_settings(geometry).len() as int) =~= kitty);
    } else if to == DisplayMode::Text {
        assert(told.take(tct_settings(geometry).len() as int) =~= tct);
    }
}

/// Each option is set under its own name, in its place.
pub proof fn law_options_are_set_in_order(
    prefix: Seq<char>,
    options: Seq<(Seq<char>, ArgView)>,
    more: Seq<(Seq<char>, ArgView)>,
    i: int,
)
    requires
        0 <= i < options.len(),
    ensures
        settings_of(prefix, options).len() == options.len(),
        settings_of(prefix, options)[i] == setting(prefix + options[i].0, options[i].1),
        settings_of(prefix, options + more) == settings_of(prefix, options) + settings_of(
            prefix,
            more,
        ),
{
    assert(settings_of(prefix, options + more) =~= settings_of(prefix, options) + settings_of(
        prefix,
        more,
    ));
}

/// A new size is told to the terminal's outputs, and the picture is then taken away and put
/// back, so that it is drawn anew. A window is told nothing.
pub proof fn law_new_size_is_drawn_anew(mode: DisplayMode, geometry: Geometry)
    ensures
        ({
            let told = resizing(mode, geometry);
            &&& mode == DisplayMode::Window <==> told.len() == 0
            &&& mode != DisplayMode::Window ==> told.len() >= 2 && told.last() == setting(
                "vid"@,
                ArgView::Text("auto"@),
            ) && told[told.len() - 2] == setting("vid"@, ArgView::Text("no"@))
            &&& mode == DisplayMode::Embedded ==> told.drop_last().drop_last() == settings_of(
                "vo-kitty-"@,
                kitty_settings(geometry),
            )
            &&& mode == DisplayMode::Text ==> told.drop_last().drop_last() == settings_of(
                "vo-tct-"@,
                tct_settings(geometry),
            )
        }),
{
    let told = resizing(mode, geometry);
    if mode == DisplayMode::Embedded {
        assert(told.drop_last().drop_last() =~= settings_of(
            "vo-kitty-"@,
            kitty_settings(geometry),
        ));
    } else if mode == DisplayMode::Text {
        assert(told.drop_last().drop_last() =~= settings_of("vo-tct-"@, tct_settings(geometry)));
    }
}

/// A cap on the pictures a second is a number from 1 to 120, and keeps it.
pub proof fn law_cap_keeps_its_number(fps: int)
    ensures
        FpsCap::of(fps) is Some <==> 1 <= fps <= 120,
        FpsCap::of(fps) matches Some(cap) ==> cap.fps == fps && cap.wf(),
{
}

/// The filter that is set carries the label by which it is taken away again, and its number.
pub proof fn law_cap_is_taken_away_by_its_label(cap: FpsCap)
    ensures
        cap.adding() == spoken(seq!["vf"@, "add"@, cap_filter(cap.fps as nat)]),
        FpsCap::removing() == spoken(seq!["vf"@, "remove"@, "@"@ + CAP_LABEL@]),
        ("@"@ + CAP_LABEL@).is_prefix_of(cap_filter(cap.fps as nat)),
        cap.arg_text() == "--vf-append="@ + cap_filter(cap.fps as nat),
        cap_filter(cap.fps as nat) == "@tuitube-cap:lavfi=[select=floor((t-prev_selected_t)*"@
            + decimal(cap.fps as nat) + "+0.001)]"@,
{
    reveal_strlit("@");
    reveal_strlit("tuitube-cap");
    reveal_strlit("@tuitube-cap:lavfi=[select=floor((t-prev_selected_t)*");
    let label = "@"@ + CAP_LABEL@;
    let filter = cap_filter(cap.fps as nat);
    assert(filter.take(12) =~= label);
    assert(label =~= filter.subrange(0, label.len() as int));
}

/// The qualities grow from low to native, and each has its word. What they allow is a
/// picture of 320 by 180, of 640 by 360, of 960 by 540, or any.
pub proof fn law_qualities_go_round(quality: Quality)
    ensures
        quality == Quality::Low ==> quality.following() == Quality::Medium && quality.budget()
            == 57_600 && quality.word() == "low"@,
        quality == Quality::Medium ==> quality.following() == Quality::High && quality.budget()
            == 230_400 && quality.word() == "medium"@,
        quality == Quality::High ==> quality.following() == Quality::Native && quality.budget()
            == 518_400 && quality.word() == "high"@,
        quality == Quality::Native ==> quality.following() == Quality::Low && quality.budget()
            == u32::MAX && quality.word() == "native"@,
        quality != Quality::Low ==> quality.preceding().budget() < quality.budget(),
{
}

/// The words for when a window takes the focus.
pub proof fn law_focus_words(focus: FocusOn)
    ensures
        focus.word() == "never"@ <==> focus == FocusOn::Never,
        focus.word() == "open"@ <==> focus == FocusOn::Open,
        focus.word() == "all"@ <==> focus == FocusOn::All,
{
    reveal_strlit("never");
    reveal_strlit("open");
    reveal_strlit("all");
    assert("never"@.len() == 5 && "open"@.len() == 4 && "all"@.len() == 3);
}

/// A window gets an argument for each option that is set and no other; the last is the
/// title, which is always there.
pub proof fn law_window_gets_what_is_set(window: WindowOptions)
    ensures
        ({
            let args = window.arg_texts();
            &&& window.vo matches Some(vo) ==> args[0] == "--vo="@ + vo@
            &&& window.autofit matches Some(size) ==> args.contains("--autofit="@ + size@)
            &&& window.geometry matches Some(place) ==> args.contains("--geometry="@ + place@)
            &&& window.ontop ==> args.contains("--ontop"@)
            &&& window.fullscreen ==> args.contains("--fullscreen"@)
            &&& window.focus_on matches Some(focus) ==> args.contains("--focus-on="@ + focus.word())
            &&& window.title matches Some(title) ==> args.last() == "--title="@ + title@
            &&& window.title is None ==> args.last() == "--title="@ + "tuitube - ${media-title}"@
            &&& args.len() == 1 + (if window.vo is Some {
                1int
            } else {
                0
            }) + (if window.autofit is Some {
                1int
            } else {
                0
            }) + (if window.geometry is Some {
                1int
            } else {
                0
            }) + (if window.ontop {
                1int
            } else {
                0
            }) + (if window.fullscreen {
                1int
            } else {
                0
            }) + (if window.focus_on is Some {
                1int
            } else {
                0
            })
        }),
        window.vo matches Some(vo) ==> window.vo_text() == vo@,
        window.vo is None ==> window.vo_text().len() == 0,
{
    let args = window.arg_texts();
    let n1 = option_text("--vo="@, maybe_text(window.vo)).len() as int;
    let n2 = n1 + option_text("--autofit="@, maybe_text(window.autofit)).len();
    let n3 = n2 + option_text("--geometry="@, maybe_text(window.geometry)).len();
    let n4 = n3 + flag_arg("--ontop"@, window.ontop).len();
    let n5 = n4 + flag_arg("--fullscreen"@, window.fullscreen).len();
    if let Some(size) = window.autofit {
        assert(args[n1] == "--autofit="@ + size@);
    }
    if let Some(place) = window.geometry {
        assert(args[n2] == "--geometry="@ + place@);
    }
    if window.ontop {
        assert(args[n3] == "--ontop"@);
    }
    if window.fullscreen {
        assert(args[n4] == "--fullscreen"@);
    }
    if let Some(focus) = window.focus_on {
        assert(args[n5] == "--focus-on="@ + focus.word());
    }
}

/// The output comes first among the arguments. In the terminal the cells of the picture
/// follow, and the cap after them; a window has its own options and no cap.
pub proof fn law_output_comes_first(plan: LaunchPlan)
    ensures
        plan.mode == DisplayMode::Embedded ==> plan.arg_texts()[0] == "--vo=kitty"@,
        plan.mode == DisplayMode::Text ==> plan.arg_texts()[0] == "--vo=tct"@,
        plan.mode == DisplayMode::Window ==> plan.output_texts() == plan.window.arg_texts(),
        plan.output_texts().is_prefix_of(plan.arg_texts()),
        plan.mode != DisplayMode::Window ==> (plan.fps_cap matches Some(cap)
            ==> plan.output_texts().last() == cap.arg_text()),
        plan.mode == DisplayMode::Embedded && plan.fps_cap is None ==> plan.output_texts()
            == seq!["--vo=kitty"@] + option_args("--vo-kitty-"@, kitty_settings(plan.geometry)),
        plan.mode == DisplayMode::Text && plan.fps_cap is None ==> plan.output_texts() == seq![
            "--vo=tct"@,
        ] + option_args("--vo-tct-"@, tct_settings(plan.geometry)),
{
    let out = plan.output_texts();
    assert(plan.arg_texts().subrange(0, out.len() as int) =~= out);
    if plan.mode != DisplayMode::Window {
        assert(plan.arg_texts()[0] == out[0]);
    }
    assert(seq!["--vo=kitty"@] + option_args("--vo-kitty-"@, kitty_settings(plan.geometry))
        + Seq::<Seq<char>>::empty() =~= seq!["--vo=kitty"@] + option_args(
        "--vo-kitty-"@,
        kitty_settings(plan.geometry),
    ));
    assert(seq!["--vo=tct"@] + option_args("--vo-tct-"@, tct_settings(plan.geometry))
        + Seq::<Seq<char>>::empty() =~= seq!["--vo=tct"@] + option_args(
        "--vo-tct-"@,
        tct_settings(plan.geometry),
    ));
}

/// A speed other than the normal one comes first among what every output gets, and a place
/// to start from last; neither is there where it is not wanted.
pub proof fn law_speed_and_start_are_given(plan: LaunchPlan)
    ensures
        plan.speed.tenths != 10 ==> plan.common_texts()[0] == "--speed="@ + plan.speed.written(),
        plan.resume_at matches Some(millis) ==> plan.common_texts().last() == "--start="@
            + seconds_text(millis as nat),
        plan.speed.tenths == 10 && plan.resume_at is None ==> plan.common_texts()
            == plan.subtitles.arg_texts(),
        plan.common_texts().len() == plan.subtitles.arg_texts().len() + (if plan.speed.tenths
            == 10 {
            0int
        } else {
            1
        }) + (if plan.resume_at is Some {
            1int
        } else {
            0
        }),
{
    if plan.speed.tenths == 10 && plan.resume_at is None {
        assert(plan.common_texts() =~= plan.subtitles.arg_texts());
    }
}

/// Whole seconds are written without a fraction, and all else with one.
pub proof fn law_whole_seconds_have_no_fraction(secs: nat, rest: nat)
    requires
        rest < 1_000,
    ensures
        rest == 0 ==> seconds_text(secs * 1_000 + rest) == decimal(secs),
        rest > 0 ==> seconds_text(secs * 1_000 + rest) == crate::mpv::fraction_text(
            secs * 1_000 + rest,
        ),
{
}

} // verus!
