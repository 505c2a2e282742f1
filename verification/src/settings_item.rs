//! The rows of the settings screen: what each shows, and how keys change it.

use crate::display::{DisplayMode, FpsCap};
use crate::settings::{
    DisplaySettings, EnvOverridden, SearchSettings, Settings, ThumbnailSettings, FPS_LIMIT_VAR,
    MAX_FPS_CAP, MAX_SEARCH_LIMIT, MAX_SEARCH_TIMEOUT_SECS, MAX_THUMB_TIMEOUT_SECS,
    MIN_SEARCH_LIMIT, MIN_SEARCH_TIMEOUT_SECS,
};
use crate::subtitles::SubtitleSettings;
use crate::text::{decimal, joined, number, parse_number, read_number};
use vstd::prelude::*;
use vstd::string::*;

verus! {

/// A setting that can be changed on the settings screen. The others are changed in
/// the settings file.
#[derive(Debug, Clone, Copy, PartialEq, Eq, Structural)]
pub enum SettingsItem {
    DisplayMode,
    DisplayQuality,
    FpsCap,
    SubtitlesEnabled,
    SearchLayout,
    SearchLimit,
    SearchTimeoutSecs,
    ThumbnailsEnabled,
    ThumbnailsMaxCached,
    ThumbnailsTimeoutSecs,
}

/// The rows of the screen, from top to bottom.
pub const SETTINGS_ITEMS: [SettingsItem; 10] = [
    SettingsItem::DisplayMode,
    SettingsItem::DisplayQuality,
    SettingsItem::FpsCap,
    SettingsItem::SubtitlesEnabled,
    SettingsItem::SearchLayout,
    SettingsItem::SearchLimit,
    SettingsItem::SearchTimeoutSecs,
    SettingsItem::ThumbnailsEnabled,
    SettingsItem::ThumbnailsMaxCached,
    SettingsItem::ThumbnailsTimeoutSecs,
];

/// The steps of the rows with numbers.
pub const FPS_CAP_STEP: u64 = 5;

pub const SEARCH_LIMIT_STEP: u64 = 1;

pub const SEARCH_TIMEOUT_STEP: u64 = 5;

pub const MAX_CACHED_STEP: u64 = 50;

pub const THUMB_TIMEOUT_STEP: u64 = 5;

/// Nothing can be fetched in no time.
pub const MIN_THUMB_TIMEOUT_SECS: u64 = 1;

pub open spec fn lesser(a: int, b: int) -> int {
    if a < b {
        a
    } else {
        b
    }
}

pub open spec fn greater(a: int, b: int) -> int {
    if a > b {
        a
    } else {
        b
    }
}

pub open spec fn between(n: int, low: int, high: int) -> int {
    if n < low {
        low
    } else if n > high {
        high
    } else {
        n
    }
}

/// The next mark of the scale, or the upper end.
pub open spec fn up_from(current: int, width: int, high: int) -> int {
    lesser(current - current % width + width, high)
}

/// The mark of the scale before `current`, or the lower end. A lower end that is no
/// mark does not move the marks.
pub open spec fn down_from(current: int, width: int, low: int) -> int {
    greater(greater(current - 1, 0) - greater(current - 1, 0) % width, low)
}

/// One step on the scale, kept within the range.
pub open spec fn stepped(current: int, width: int, low: int, high: int, up: bool) -> int {
    if up {
        greater(up_from(current, width, high), low)
    } else {
        lesser(down_from(current, width, low), high)
    }
}

proof fn lemma_mark(n: int, width: int)
    requires
        n >= 0,
        width > 0,
    ensures
        0 <= n / width * width <= n,
        n / width * width == n - n % width,
{
    assert(0 <= n / width * width <= n && n / width * width == n - n % width) by (nonlinear_arith)
        requires
            n >= 0,
            width > 0,
    ;
}

pub fn step_up(current: u64, step: u64, max: u64) -> (r: u64)
    requires
        step > 0,
    ensures
        r == up_from(current as int, step as int, max as int),
{
    proof {
        lemma_mark(current as int, step as int);
    }
    let next: u64 = (current / step * step).saturating_add(step);
    if next < max {
        next
    } else {
        max
    }
}

pub fn step_down(current: u64, step: u64, min: u64) -> (r: u64)
    requires
        step > 0,
    ensures
        r == down_from(current as int, step as int, min as int),
{
    let below: u64 = current.saturating_sub(1);
    proof {
        lemma_mark(below as int, step as int);
    }
    let mark: u64 = below / step * step;
    if mark > min {
        mark
    } else {
        min
    }
}

/// Moves a number by one mark.
pub fn step(current: u64, width: u64, min: u64, max: u64, up: bool) -> (r: u64)
    requires
        width > 0,
    ensures
        r == stepped(current as int, width as int, min as int, max as int, up),
{
    if up {
        let next: u64 = step_up(current, width, max);
        if next > min {
            next
        } else {
            min
        }
    } else {
        let next: u64 = step_down(current, width, min);
        if next < max {
            next
        } else {
            max
        }
    }
}

/// A step ends within the range, wherever it began.
pub proof fn law_steps_stay_in_range(current: int, width: int, low: int, high: int, up: bool)
    requires
        low <= high,
    ensures
        low <= stepped(current, width, low, high, up) <= high,
{
}

/// A step changes the number in its direction, but for the end of the range.
pub proof fn law_steps_move(current: int, width: int, low: int, high: int)
    requires
        0 <= low <= current <= high,
        width > 0,
    ensures
        current < high ==> stepped(current, width, low, high, true) > current,
        current == high ==> stepped(current, width, low, high, true) == high,
        current > low ==> stepped(current, width, low, high, false) < current,
        current == low ==> stepped(current, width, low, high, false) == low,
{
    lemma_mark(current, width);
    if current > 0 {
        lemma_mark(current - 1, width);
    }
}

pub open spec fn word_of(on: bool) -> Seq<char> {
    if on {
        "true"@
    } else {
        "false"@
    }
}

fn bool_word(on: bool) -> (r: String)
    ensures
        r@ == word_of(on),
{
    if on {
        "true".to_owned()
    } else {
        "false".to_owned()
    }
}

pub open spec fn fps_of(cap: Option<FpsCap>) -> int {
    match cap {
        Some(cap) => cap.fps as int,
        None => 0,
    }
}

impl SettingsItem {
    /// The name of the setting in the settings file.
    pub open spec fn name(self) -> Seq<char> {
        match self {
            SettingsItem::DisplayMode => "display.mode"@,
            SettingsItem::DisplayQuality => "display.quality"@,
            SettingsItem::FpsCap => "fps_cap"@,
            SettingsItem::SubtitlesEnabled => "subtitles.enabled"@,
            SettingsItem::SearchLayout => "search.layout"@,
            SettingsItem::SearchLimit => "search.limit"@,
            SettingsItem::SearchTimeoutSecs => "search.timeout_secs"@,
            SettingsItem::ThumbnailsEnabled => "thumbnails.enabled"@,
            SettingsItem::ThumbnailsMaxCached => "thumbnails.max_cached"@,
            SettingsItem::ThumbnailsTimeoutSecs => "thumbnails.timeout_secs"@,
        }
    }

    pub fn label(self) -> (r: &'static str)
        ensures
            r@ == self.name(),
    {
        match self {
            SettingsItem::DisplayMode => "display.mode",
            SettingsItem::DisplayQuality => "display.quality",
            SettingsItem::FpsCap => "fps_cap",
            SettingsItem::SubtitlesEnabled => "subtitles.enabled",
            SettingsItem::SearchLayout => "search.layout",
            SettingsItem::SearchLimit => "search.limit",
            SettingsItem::SearchTimeoutSecs => "search.timeout_secs",
            SettingsItem::ThumbnailsEnabled => "thumbnails.enabled",
            SettingsItem::ThumbnailsMaxCached => "thumbnails.max_cached",
            SettingsItem::ThumbnailsTimeoutSecs => "thumbnails.timeout_secs",
        }
    }

    /// The value as the settings file has it.
    pub open spec fn value_text(self, settings: Settings) -> Seq<char> {
        match self {
            SettingsItem::DisplayMode => settings.display.mode.word(),
            SettingsItem::DisplayQuality => settings.display.quality.word(),
            SettingsItem::FpsCap => match settings.fps_cap {
                Some(cap) => decimal(cap.fps as nat),
                None => "0 (無制限)"@,
            },
            SettingsItem::SubtitlesEnabled => word_of(settings.subtitles.enabled),
            SettingsItem::SearchLayout => settings.search.layout.word(),
            SettingsItem::SearchLimit => decimal(settings.search.limit as nat),
            SettingsItem::SearchTimeoutSecs => decimal(settings.search.timeout_secs as nat),
            SettingsItem::ThumbnailsEnabled => word_of(settings.thumbnails.enabled),
            SettingsItem::ThumbnailsMaxCached => decimal(settings.thumbnails.max_cached as nat),
            SettingsItem::ThumbnailsTimeoutSecs => decimal(settings.thumbnails.timeout_secs as nat),
        }
    }

    pub fn value(self, settings: &Settings) -> (r: String)
        ensures
            r@ == self.value_text(*settings),
    {
        match self {
            SettingsItem::DisplayMode => settings.display.mode.key().to_owned(),
            SettingsItem::DisplayQuality => settings.display.quality.label().to_owned(),
            SettingsItem::FpsCap => match settings.fps_cap {
                Some(cap) => number(cap.get() as u64),
                None => "0 (無制限)".to_owned(),
            },
            SettingsItem::SubtitlesEnabled => bool_word(settings.subtitles.enabled),
            SettingsItem::SearchLayout => settings.search.layout.key().to_owned(),
            SettingsItem::SearchLimit => number(settings.search.limit as u64),
            SettingsItem::SearchTimeoutSecs => number(settings.search.timeout_secs),
            SettingsItem::ThumbnailsEnabled => bool_word(settings.thumbnails.enabled),
            SettingsItem::ThumbnailsMaxCached => number(settings.thumbnails.max_cached as u64),
            SettingsItem::ThumbnailsTimeoutSecs => number(settings.thumbnails.timeout_secs),
        }
    }

    pub open spec fn row_text(self, settings: Settings) -> Seq<char> {
        self.name() + ": "@ + self.value_text(settings)
    }

    pub fn row(self, settings: &Settings) -> (r: String)
        ensures
            r@ == self.row_text(*settings),
    {
        joined(self.label(), ": ", self.value(settings).as_str())
    }

    pub open spec fn var_text(self, overridden: EnvOverridden) -> Option<Seq<char>> {
        if self == SettingsItem::FpsCap && overridden.fps_cap is Some {
            Some(FPS_LIMIT_VAR@)
        } else {
            None
        }
    }

    /// The environment variable that stands in for the setting, which is then not
    /// saved.
    pub fn env_var(self, overridden: &EnvOverridden) -> (r: Option<&'static str>)
        ensures
            r is Some <==> self.var_text(*overridden) is Some,
            r matches Some(name) ==> self.var_text(*overridden) == Some(name@),
    {
        match self {
            SettingsItem::FpsCap => if overridden.fps_cap.is_some() {
                Some(FPS_LIMIT_VAR)
            } else {
                None
            },
            _ => None,
        }
    }

    pub open spec fn numeric(self) -> bool {
        ||| self == SettingsItem::FpsCap
        ||| self == SettingsItem::SearchLimit
        ||| self == SettingsItem::SearchTimeoutSecs
        ||| self == SettingsItem::ThumbnailsMaxCached
        ||| self == SettingsItem::ThumbnailsTimeoutSecs
    }

    /// Whether digits can be typed into the row.
    pub fn is_numeric(self) -> (r: bool)
        ensures
            r == self.numeric(),
    {
        match self {
            SettingsItem::FpsCap => true,
            SettingsItem::SearchLimit => true,
            SettingsItem::SearchTimeoutSecs => true,
            SettingsItem::ThumbnailsMaxCached => true,
            SettingsItem::ThumbnailsTimeoutSecs => true,
            _ => false,
        }
    }

    /// The smallest number that the row takes.
    pub open spec fn low(self) -> int {
        match self {
            SettingsItem::SearchLimit => MIN_SEARCH_LIMIT as int,
            SettingsItem::SearchTimeoutSecs => MIN_SEARCH_TIMEOUT_SECS as int,
            SettingsItem::ThumbnailsTimeoutSecs => MIN_THUMB_TIMEOUT_SECS as int,
            _ => 0,
        }
    }

    /// The largest number that the row takes.
    pub open spec fn high(self) -> int {
        match self {
            SettingsItem::FpsCap => MAX_FPS_CAP as int,
            SettingsItem::SearchLimit => MAX_SEARCH_LIMIT as int,
            SettingsItem::SearchTimeoutSecs => MAX_SEARCH_TIMEOUT_SECS as int,
            SettingsItem::ThumbnailsMaxCached => usize::MAX as int,
            SettingsItem::ThumbnailsTimeoutSecs => MAX_THUMB_TIMEOUT_SECS as int,
            _ => 0,
        }
    }

    /// How many digits can be typed into the row: as many as its largest number has.
    /// Rows without numbers take none.
    pub open spec fn digits(self) -> nat {
        if self.numeric() {
            decimal(self.high() as nat).len()
        } else {
            0
        }
    }

    pub fn max_digits(self) -> (r: usize)
        ensures
            r == self.digits(),
    {
        let max: u64 = match self {
            SettingsItem::FpsCap => MAX_FPS_CAP as u64,
            SettingsItem::SearchLimit => MAX_SEARCH_LIMIT as u64,
            SettingsItem::SearchTimeoutSecs => MAX_SEARCH_TIMEOUT_SECS,
            SettingsItem::ThumbnailsMaxCached => usize::MAX as u64,
            SettingsItem::ThumbnailsTimeoutSecs => MAX_THUMB_TIMEOUT_SECS,
            _ => {
                return 0;
            },
        };
        number(max).as_str().unicode_len()
    }

    /// The number of a row with a number.
    pub open spec fn held(self, settings: Settings) -> int {
        match self {
            SettingsItem::FpsCap => fps_of(settings.fps_cap),
            SettingsItem::SearchLimit => settings.search.limit as int,
            SettingsItem::SearchTimeoutSecs => settings.search.timeout_secs as int,
            SettingsItem::ThumbnailsMaxCached => settings.thumbnails.max_cached as int,
            SettingsItem::ThumbnailsTimeoutSecs => settings.thumbnails.timeout_secs as int,
            _ => 0,
        }
    }

    /// The settings with the number of the row set to `n`. No frames at all stands
    /// for no limit.
    pub open spec fn with_number(self, settings: Settings, n: int) -> Settings {
        match self {
            SettingsItem::FpsCap => Settings { fps_cap: FpsCap::of(n), ..settings },
            SettingsItem::SearchLimit => Settings {
                search: SearchSettings { limit: n as usize, ..settings.search },
                ..settings
            },
            SettingsItem::SearchTimeoutSecs => Settings {
                search: SearchSettings { timeout_secs: n as u64, ..settings.search },
                ..settings
            },
            SettingsItem::ThumbnailsMaxCached => Settings {
                thumbnails: ThumbnailSettings { max_cached: n as usize, ..settings.thumbnails },
                ..settings
            },
            SettingsItem::ThumbnailsTimeoutSecs => Settings {
                thumbnails: ThumbnailSettings { timeout_secs: n as u64, ..settings.thumbnails },
                ..settings
            },
            _ => settings,
        }
    }

    /// Takes a typed number over. One outside the range is moved to the nearer end;
    /// text that is no number, and rows without numbers, change nothing.
    pub fn apply_numeric(self, settings: &mut Settings, raw: &str) -> (r: bool)
        ensures
            r == (self.numeric() && read_number(raw@) is Some),
            r ==> *final(settings) == self.with_number(
                *old(settings),
                between(read_number(raw@)->0 as int, self.low(), self.high()),
            ),
            !r ==> *final(settings) == *old(settings),
    {
        let value: u64 = match parse_number(raw) {
            Some(value) => value,
            None => {
                return false;
            },
        };
        match self {
            SettingsItem::FpsCap => {
                let fps: u64 = within(value, 0, MAX_FPS_CAP as u64);
                settings.fps_cap = FpsCap::new(fps as u32);
            },
            SettingsItem::SearchLimit => {
                let limit: u64 = within(value, MIN_SEARCH_LIMIT as u64, MAX_SEARCH_LIMIT as u64);
                settings.search.limit = limit as usize;
            },
            SettingsItem::SearchTimeoutSecs => {
                settings.search.timeout_secs = within(
                    value,
                    MIN_SEARCH_TIMEOUT_SECS,
                    MAX_SEARCH_TIMEOUT_SECS,
                );
            },
            SettingsItem::ThumbnailsMaxCached => {
                let count: u64 = within(value, 0, usize::MAX as u64);
                settings.thumbnails.max_cached = count as usize;
            },
            SettingsItem::ThumbnailsTimeoutSecs => {
                settings.thumbnails.timeout_secs = within(
                    value,
                    MIN_THUMB_TIMEOUT_SECS,
                    MAX_THUMB_TIMEOUT_SECS,
                );
            },
            _ => {
                return false;
            },
        }
        true
    }

    pub open spec fn step_width(self) -> int {
        match self {
            SettingsItem::FpsCap => FPS_CAP_STEP as int,
            SettingsItem::SearchLimit => SEARCH_LIMIT_STEP as int,
            SettingsItem::SearchTimeoutSecs => SEARCH_TIMEOUT_STEP as int,
            SettingsItem::ThumbnailsMaxCached => MAX_CACHED_STEP as int,
            SettingsItem::ThumbnailsTimeoutSecs => THUMB_TIMEOUT_STEP as int,
            _ => 1,
        }
    }

    /// The settings after one press of an arrow key on the row. A choice goes one
    /// further or back, a switch flips, a number moves by one mark.
    pub open spec fn adjusted(self, settings: Settings, up: bool) -> Settings {
        match self {
            SettingsItem::DisplayMode => Settings {
                display: DisplaySettings {
                    mode: if up {
                        settings.display.mode.following()
                    } else {
                        settings.display.mode.preceding()
                    },
                    ..settings.display
                },
                ..settings
            },
            SettingsItem::DisplayQuality => Settings {
                display: DisplaySettings {
                    quality: if up {
                        settings.display.quality.following()
                    } else {
                        settings.display.quality.preceding()
                    },
                    ..settings.display
                },
                ..settings
            },
            SettingsItem::SubtitlesEnabled => Settings {
                subtitles: SubtitleSettings {
                    enabled: !settings.subtitles.enabled,
                    ..settings.subtitles
                },
                ..settings
            },
            SettingsItem::SearchLayout => Settings {
                search: SearchSettings {
                    layout: settings.search.layout.other(),
                    ..settings.search
                },
                ..settings
            },
            SettingsItem::ThumbnailsEnabled => Settings {
                thumbnails: ThumbnailSettings {
                    enabled: !settings.thumbnails.enabled,
                    ..settings.thumbnails
                },
                ..settings
            },
            _ => self.with_number(
                settings,
                stepped(self.held(settings), self.step_width(), self.low(), self.high(), up),
            ),
        }
    }

    pub fn adjust(self, settings: &mut Settings, delta: i32)
        ensures
            *final(settings) == self.adjusted(*old(settings), delta >= 0),
    {
        let up: bool = delta >= 0;
        match self {
            SettingsItem::DisplayMode => {
                let mode = settings.display.mode;
                settings.display.mode = if up {
                    mode.next()
                } else {
                    mode.prev()
                };
            },
            SettingsItem::DisplayQuality => {
                let quality = settings.display.quality;
                settings.display.quality = if up {
                    quality.next()
                } else {
                    quality.prev()
                };
            },
            SettingsItem::FpsCap => {
                let current: u64 = match settings.fps_cap {
                    Some(cap) => cap.get() as u64,
                    None => 0,
                };
                let next: u64 = step(current, FPS_CAP_STEP, 0, MAX_FPS_CAP as u64, up);
                settings.fps_cap = FpsCap::new(next as u32);
            },
            SettingsItem::SubtitlesEnabled => {
                settings.subtitles.enabled = !settings.subtitles.enabled;
            },
            SettingsItem::SearchLayout => {
                let layout = settings.search.layout;
                settings.search.layout = if up {
                    layout.next()
                } else {
                    layout.prev()
                };
            },
            SettingsItem::SearchLimit => {
                let current: u64 = settings.search.limit as u64;
                let next: u64 = step(
                    current,
                    SEARCH_LIMIT_STEP,
                    MIN_SEARCH_LIMIT as u64,
                    MAX_SEARCH_LIMIT as u64,
                    up,
                );
                settings.search.limit = next as usize;
            },
            SettingsItem::SearchTimeoutSecs => {
                settings.search.timeout_secs = step(
                    settings.search.timeout_secs,
                    SEARCH_TIMEOUT_STEP,
                    MIN_SEARCH_TIMEOUT_SECS,
                    MAX_SEARCH_TIMEOUT_SECS,
                    up,
                );
            },
            SettingsItem::ThumbnailsEnabled => {
                settings.thumbnails.enabled = !settings.thumbnails.enabled;
            },
            SettingsItem::ThumbnailsMaxCached => {
                let current: u64 = settings.thumbnails.max_cached as u64;
                let next: u64 = step(current, MAX_CACHED_STEP, 0, usize::MAX as u64, up);
                settings.thumbnails.max_cached = next as usize;
            },
            SettingsItem::ThumbnailsTimeoutSecs => {
                settings.thumbnails.timeout_secs = step(
                    settings.thumbnails.timeout_secs,
                    THUMB_TIMEOUT_STEP,
                    MIN_THUMB_TIMEOUT_SECS,
                    MAX_THUMB_TIMEOUT_SECS,
                    up,
                );
            },
        }
    }
}

fn within(n: u64, low: u64, high: u64) -> (r: u64)
    ensures
        r == between(n as int, low as int, high as int),
{
    if n < low {
        low
    } else if n > high {
        high
    } else {
        n
    }
}

/// An arrow key changes what its own row shows and no other row.
pub proof fn law_adjust_changes_one_row(
    item: SettingsItem,
    other: SettingsItem,
    settings: Settings,
    up: bool,
)
    requires
        item != other,
    ensures
        other.value_text(item.adjusted(settings, up)) == other.value_text(settings),
{
}

/// A typed number changes what its own row shows and no other row.
pub proof fn law_typing_changes_one_row(
    item: SettingsItem,
    other: SettingsItem,
    settings: Settings,
    n: int,
)
    requires
        item != other,
    ensures
        other.value_text(item.with_number(settings, n)) == other.value_text(settings),
{
}

/// Whatever is pressed or typed, a number ends within its range.
pub proof fn law_numbers_stay_in_range(item: SettingsItem, settings: Settings, up: bool, n: int)
    requires
        item.numeric(),
    ensures
        item.low() <= item.held(item.adjusted(settings, up)) <= item.high(),
        item.low() <= item.held(item.with_number(settings, between(n, item.low(), item.high())))
            <= item.high(),
{
}

/// A choice that went one further goes back, and a switch pressed twice is as it was.
pub proof fn law_choices_step_back(item: SettingsItem, settings: Settings, up: bool)
    requires
        !item.numeric(),
    ensures
        item.adjusted(item.adjusted(settings, up), !up) == settings,
{
    crate::display::law_display_mode_steps_back(settings.display.mode);
    crate::display::law_quality_steps_back(settings.display.quality);
}

/// Digits can be typed into exactly the rows that take a typed number.
pub proof fn law_digits_where_numeric(item: SettingsItem)
    ensures
        item.digits() > 0 <==> item.numeric(),
{
}

/// A step up leads to the next multiple of the width, and a step down to the one before;
/// the ends of the range are where it stops.
pub proof fn law_steps_lead_to_marks(current: int, width: int, low: int, high: int)
    requires
        0 <= low <= current <= high,
        width > 0,
    ensures
        ({
            let up = stepped(current, width, low, high, true);
            &&& up == high || (up % width == 0 && current < up <= current + width)
            &&& up == high && current < high ==> high <= current - current % width + width
        }),
        ({
            let down = stepped(current, width, low, high, false);
            &&& down == low || (down % width == 0 && current - width <= down < current)
            &&& down == low && low < current ==> forall|mark: int|
                low < mark < current ==> #[trigger] (mark % width) != 0
        }),
{
    lemma_mark(current, width);
    let mark = current - current % width;
    assert((mark + width) % width == 0 && current < mark + width <= current + width)
        by (nonlinear_arith)
        requires
            width > 0,
            current >= 0,
            mark == current - current % width,
    ;
    let below = if current > 0 {
        current - 1
    } else {
        0
    };
    lemma_mark(below, width);
    let under = below - below % width;
    assert(under % width == 0 && under <= below < under + width) by (nonlinear_arith)
        requires
            width > 0,
            below >= 0,
            under == below - below % width,
    ;
    let down = stepped(current, width, low, high, false);
    if down == low && low < current {
        assert forall|m: int| low < m < current implies #[trigger] (m % width) != 0 by {
            if m % width == 0 {
                assert(under <= low);
                assert(m <= under) by (nonlinear_arith)
                    requires
                        width > 0,
                        m % width == 0,
                        under % width == 0,
                        m < under + width,
                ;
            }
        }
    }
}

/// The ranges of the rows with numbers, and the steps of their arrow keys.
pub proof fn law_ranges_of_the_rows()
    ensures
        SettingsItem::FpsCap.low() == 0 && SettingsItem::FpsCap.high() == 120,
        SettingsItem::SearchLimit.low() == 1 && SettingsItem::SearchLimit.high() == 1000,
        SettingsItem::SearchTimeoutSecs.low() == 5 && SettingsItem::SearchTimeoutSecs.high() == 300,
        SettingsItem::ThumbnailsMaxCached.low() == 0,
        SettingsItem::ThumbnailsMaxCached.high() == usize::MAX,
        SettingsItem::ThumbnailsTimeoutSecs.low() == 1
            && SettingsItem::ThumbnailsTimeoutSecs.high() == 120,
        SettingsItem::FpsCap.step_width() == 5,
        SettingsItem::SearchLimit.step_width() == 1,
        SettingsItem::SearchTimeoutSecs.step_width() == 5,
        SettingsItem::ThumbnailsMaxCached.step_width() == 50,
        SettingsItem::ThumbnailsTimeoutSecs.step_width() == 5,
{
}

/// An arrow key moves the number of its row by one step within the range of the row.
pub proof fn law_arrows_move_the_number(item: SettingsItem, settings: Settings, up: bool)
    requires
        item.numeric(),
        item.low() <= item.held(settings) <= item.high(),
    ensures
        item.held(item.adjusted(settings, up)) == stepped(
            item.held(settings),
            item.step_width(),
            item.low(),
            item.high(),
            up,
        ),
        up && item.held(settings) < item.high() ==> item.held(item.adjusted(settings, up))
            > item.held(settings),
        !up && item.held(settings) > item.low() ==> item.held(item.adjusted(settings, up))
            < item.held(settings),
{
    law_steps_move(item.held(settings), item.step_width(), item.low(), item.high());
    law_steps_stay_in_range(item.held(settings), item.step_width(), item.low(), item.high(), up);
}

/// A number that is typed is what the row holds then, and one outside the range is the
/// nearer end.
pub proof fn law_typed_number_is_held(item: SettingsItem, settings: Settings, n: int)
    requires
        item.numeric(),
    ensures
        item.low() <= n <= item.high() ==> item.held(item.with_number(settings, n)) == n,
        n < item.low() ==> between(n, item.low(), item.high()) == item.low(),
        n > item.high() ==> between(n, item.low(), item.high()) == item.high(),
        item.low() <= n <= item.high() ==> between(n, item.low(), item.high()) == n,
{
}

/// The number of a row is the setting that the row is named after.
pub proof fn law_rows_hold_their_settings(settings: Settings)
    ensures
        SettingsItem::SearchLimit.held(settings) == settings.search.limit,
        SettingsItem::SearchTimeoutSecs.held(settings) == settings.search.timeout_secs,
        SettingsItem::ThumbnailsMaxCached.held(settings) == settings.thumbnails.max_cached,
        SettingsItem::ThumbnailsTimeoutSecs.held(settings) == settings.thumbnails.timeout_secs,
        settings.fps_cap matches Some(cap) ==> SettingsItem::FpsCap.held(settings) == cap.fps,
        settings.fps_cap is None ==> SettingsItem::FpsCap.held(settings) == 0,
        SettingsItem::SearchLimit.value_text(settings) == decimal(settings.search.limit as nat),
        SettingsItem::SearchTimeoutSecs.value_text(settings) == decimal(
            settings.search.timeout_secs as nat,
        ),
        SettingsItem::ThumbnailsMaxCached.value_text(settings) == decimal(
            settings.thumbnails.max_cached as nat,
        ),
        SettingsItem::ThumbnailsTimeoutSecs.value_text(settings) == decimal(
            settings.thumbnails.timeout_secs as nat,
        ),
        SettingsItem::DisplayMode.value_text(settings) == settings.display.mode.word(),
        SettingsItem::DisplayQuality.value_text(settings) == settings.display.quality.word(),
        SettingsItem::SearchLayout.value_text(settings) == settings.search.layout.word(),
        settings.subtitles.enabled ==> SettingsItem::SubtitlesEnabled.value_text(settings)
            == "true"@,
        !settings.subtitles.enabled ==> SettingsItem::SubtitlesEnabled.value_text(settings)
            == "false"@,
        settings.thumbnails.enabled ==> SettingsItem::ThumbnailsEnabled.value_text(settings)
            == "true"@,
        !settings.thumbnails.enabled ==> SettingsItem::ThumbnailsEnabled.value_text(settings)
            == "false"@,
{
}

/// A switch is turned over by either key, and a second press turns it back; so does the
/// other layout.
pub proof fn law_switches_turn_over(settings: Settings, up: bool)
    ensures
        SettingsItem::SubtitlesEnabled.adjusted(settings, up).subtitles.enabled
            != settings.subtitles.enabled,
        SettingsItem::ThumbnailsEnabled.adjusted(settings, up).thumbnails.enabled
            != settings.thumbnails.enabled,
        SettingsItem::SearchLayout.adjusted(settings, up).search.layout != settings.search.layout,
        SettingsItem::SubtitlesEnabled.adjusted(
            SettingsItem::SubtitlesEnabled.adjusted(settings, up),
            up,
        ) == settings,
        SettingsItem::ThumbnailsEnabled.adjusted(
            SettingsItem::ThumbnailsEnabled.adjusted(settings, up),
            up,
        ) == settings,
        SettingsItem::DisplayMode.adjusted(settings, true).display.mode
            == settings.display.mode.following(),
        SettingsItem::DisplayMode.adjusted(settings, false).display.mode
            == settings.display.mode.preceding(),
        SettingsItem::DisplayQuality.adjusted(settings, true).display.quality
            == settings.display.quality.following(),
        SettingsItem::DisplayQuality.adjusted(settings, false).display.quality
            == settings.display.quality.preceding(),
{
}

/// A row begins with the name of its setting and ends with the value.
pub proof fn law_row_names_its_setting(item: SettingsItem, settings: Settings)
    ensures
        ({
            let row = item.row_text(settings);
            let name = item.name();
            let value = item.value_text(settings);
            &&& row.len() == name.len() + 2 + value.len()
            &&& row.take(name.len() as int) == name
            &&& row.skip(row.len() - value.len()) == value
        }),
{
    reveal_strlit(": ");
    let row = item.row_text(settings);
    assert(row.take(item.name().len() as int) =~= item.name());
    assert(row.skip(row.len() - item.value_text(settings).len()) =~= item.value_text(settings));
}

/// Only the row of the frame rate can be replaced by the environment, and says so where it
/// is.
pub proof fn law_environment_shows_on_its_row(item: SettingsItem, overridden: EnvOverridden)
    ensures
        item.var_text(overridden) is Some <==> item == SettingsItem::FpsCap && overridden.fps_cap
            is Some,
        item.var_text(overridden) matches Some(name) ==> name == "TUITUBE_FPS_LIMIT"@,
{
}

/// A cap is shown as its number, and none as no limit.
pub proof fn law_cap_is_shown(settings: Settings)
    ensures
        settings.fps_cap is None ==> SettingsItem::FpsCap.value_text(settings) == "0 (無制限)"@,
        settings.fps_cap matches Some(cap) ==> SettingsItem::FpsCap.value_text(settings) == decimal(
            cap.fps as nat,
        ),
{
}

/// Each row is called as its entry of the file is.
pub proof fn law_rows_are_called_as_in_the_file(item: SettingsItem)
    ensures
        item is DisplayMode ==> item.name() == "display.mode"@,
        item is DisplayQuality ==> item.name() == "display.quality"@,
        item is FpsCap ==> item.name() == "fps_cap"@,
        item is SubtitlesEnabled ==> item.name() == "subtitles.enabled"@,
        item is SearchLayout ==> item.name() == "search.layout"@,
        item is SearchLimit ==> item.name() == "search.limit"@,
        item is SearchTimeoutSecs ==> item.name() == "search.timeout_secs"@,
        item is ThumbnailsEnabled ==> item.name() == "thumbnails.enabled"@,
        item is ThumbnailsMaxCached ==> item.name() == "thumbnails.max_cached"@,
        item is ThumbnailsTimeoutSecs ==> item.name() == "thumbnails.timeout_secs"@,
{
}

} // verus!
