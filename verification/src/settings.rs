//! What the user can set.

use crate::cookies::CookieSource;
use crate::display::{copy_of, DisplayMode, FpsCap, Quality, WindowOptions};
use crate::grid::LayoutMode;
use crate::subtitles::{SubLang, SubtitleSettings};
use crate::text::{copied, texts};
use vstd::prelude::*;
use vstd::string::*;

verus! {

pub const MAX_FPS_CAP: u32 = 120;

pub const MIN_SEARCH_LIMIT: usize = 1;

pub const MAX_SEARCH_LIMIT: usize = 1000;

pub const MIN_SEARCH_TIMEOUT_SECS: u64 = 5;

pub const MAX_SEARCH_TIMEOUT_SECS: u64 = 300;

pub const MAX_THUMB_TIMEOUT_SECS: u64 = 120;

/// The environment variable that sets the frame rate limit.
pub const FPS_LIMIT_VAR: &'static str = "TUITUBE_FPS_LIMIT";

#[derive(Debug, Clone, Copy, PartialEq, Eq, Structural)]
pub struct DisplaySettings {
    pub mode: DisplayMode,
    pub quality: Quality,
    /// How many pixels a frame may have, where the user gives the number. It goes before
    /// the quality.
    pub max_frame_pixels: Option<u32>,
}

impl DisplaySettings {
    /// How many pixels a frame may have.
    pub open spec fn budget(self) -> int {
        match self.max_frame_pixels {
            Some(pixels) => pixels as int,
            None => self.quality.budget(),
        }
    }

    pub fn max_pixels(&self) -> (r: u32)
        ensures
            r == self.budget(),
    {
        match self.max_frame_pixels {
            Some(pixels) => pixels,
            None => self.quality.max_pixels(),
        }
    }
}

#[derive(Debug, Clone, Copy, PartialEq, Eq, Structural)]
pub struct SearchSettings {
    pub layout: LayoutMode,
    pub limit: usize,
    pub timeout_secs: u64,
    pub cache_enabled: bool,
    pub cache_ttl_secs: u64,
}

#[derive(Debug, PartialEq, Eq)]
pub struct ThumbnailSettings {
    pub enabled: bool,
    pub max_cached: usize,
    pub timeout_secs: u64,
    pub cache_dir: Option<String>,
}

#[derive(Debug, Clone, Copy, PartialEq, Eq, Structural)]
pub struct EngagementSettings {
    pub enabled: bool,
    pub ttl_secs: u64,
    pub max_concurrent_requests: usize,
}

#[derive(Debug, PartialEq, Eq)]
pub struct DownloadSettings {
    pub dir: Option<String>,
    pub debug: bool,
}

/// Everything that can be set.
#[derive(Debug, PartialEq, Eq)]
pub struct Settings {
    pub display: DisplaySettings,
    pub fps_cap: Option<FpsCap>,
    pub subtitles: SubtitleSettings,
    pub search: SearchSettings,
    pub thumbnails: ThumbnailSettings,
    pub engagement: EngagementSettings,
    pub download: DownloadSettings,
    pub window: WindowOptions,
    pub cookies: Option<CookieSource>,
    /// Arguments of the user's own for the player.
    pub extra_args: Vec<String>,
}

/// Two settings hold the same values.
pub open spec fn same_settings(a: Settings, b: Settings) -> bool {
    &&& a == (Settings { extra_args: a.extra_args, ..b })
    &&& a.extra_args@ == b.extra_args@
}

impl Clone for Settings {
    fn clone(&self) -> (r: Self)
        ensures
            same_settings(r, *self),
    {
        Settings {
            display: self.display,
            fps_cap: self.fps_cap,
            subtitles: self.subtitles.clone(),
            search: self.search,
            thumbnails: ThumbnailSettings {
                enabled: self.thumbnails.enabled,
                max_cached: self.thumbnails.max_cached,
                timeout_secs: self.thumbnails.timeout_secs,
                cache_dir: copy_of(&self.thumbnails.cache_dir),
            },
            engagement: self.engagement,
            download: DownloadSettings {
                dir: copy_of(&self.download.dir),
                debug: self.download.debug,
            },
            window: self.window.clone(),
            cookies: match &self.cookies {
                Some(source) => Some(source.clone()),
                None => None,
            },
            extra_args: copied(&self.extra_args),
        }
    }
}

/// The settings of someone who set nothing.
pub open spec fn are_defaults(s: Settings) -> bool {
    &&& s.display == (DisplaySettings {
        mode: DisplayMode::Embedded,
        quality: Quality::Medium,
        max_frame_pixels: None,
    })
    &&& s.fps_cap == Some(FpsCap { fps: 15 })
    &&& s.subtitles.enabled
    &&& s.subtitles.lang.list@ == "ja-orig,ja"@
    &&& s.search == (SearchSettings {
        layout: LayoutMode::Grid,
        limit: 10,
        timeout_secs: 30,
        cache_enabled: false,
        cache_ttl_secs: 300,
    })
    &&& s.thumbnails == (ThumbnailSettings {
        enabled: true,
        max_cached: 500,
        timeout_secs: 10,
        cache_dir: None,
    })
    &&& s.engagement == (EngagementSettings {
        enabled: true,
        ttl_secs: 604_800,
        max_concurrent_requests: 3,
    })
    &&& s.download == (DownloadSettings { dir: None, debug: false })
    &&& s.window == (WindowOptions {
        vo: None,
        autofit: None,
        geometry: None,
        ontop: false,
        fullscreen: false,
        focus_on: None,
        title: None,
    })
    &&& s.cookies is None
    &&& s.extra_args@.len() == 0
}

impl Default for Settings {
    fn default() -> (r: Self)
        ensures
            are_defaults(r),
    {
        Settings {
            display: DisplaySettings {
                mode: DisplayMode::Embedded,
                quality: Quality::Medium,
                max_frame_pixels: None,
            },
            fps_cap: Some(FpsCap { fps: 15 }),
            subtitles: SubtitleSettings {
                enabled: true,
                lang: SubLang { list: "ja-orig,ja".to_owned() },
            },
            search: SearchSettings {
                layout: LayoutMode::Grid,
                limit: 10,
                timeout_secs: 30,
                cache_enabled: false,
                cache_ttl_secs: 300,
            },
            thumbnails: ThumbnailSettings {
                enabled: true,
                max_cached: 500,
                timeout_secs: 10,
                cache_dir: None,
            },
            engagement: EngagementSettings {
                enabled: true,
                ttl_secs: 604_800,
                max_concurrent_requests: 3,
            },
            download: DownloadSettings { dir: None, debug: false },
            window: WindowOptions::default(),
            cookies: None,
            extra_args: Vec::new(),
        }
    }
}

/// What the environment has replaced: for each such setting, what the file said.
#[derive(Debug, PartialEq, Eq)]
pub struct EnvOverridden {
    pub fps_cap: Option<Option<FpsCap>>,
    pub cookies: Option<Option<CookieSource>>,
}

impl Default for EnvOverridden {
    fn default() -> (r: Self)
        ensures
            r == (EnvOverridden { fps_cap: None, cookies: None }),
    {
        EnvOverridden { fps_cap: None, cookies: None }
    }
}

impl EnvOverridden {
    /// `r` are those settings with the file's own values where the environment
    /// replaced them.
    pub open spec fn restores(self, settings: Settings, r: Settings) -> bool {
        &&& r == (Settings {
            fps_cap: match self.fps_cap {
                Some(cap) => cap,
                None => settings.fps_cap,
            },
            cookies: match self.cookies {
                Some(source) => source,
                None => settings.cookies,
            },
            extra_args: r.extra_args,
            ..settings
        })
        &&& r.extra_args@ == settings.extra_args@
    }

    /// What may be written to the file: a passing wish of the environment is not.
    pub fn restore(&self, settings: &Settings) -> (r: Settings)
        ensures
            self.restores(*settings, r),
    {
        let mut out = settings.clone();
        if let Some(cap) = self.fps_cap {
            out.fps_cap = cap;
        }
        if let Some(source) = &self.cookies {
            out.cookies = match source {
                Some(source) => Some(source.clone()),
                None => None,
            };
        }
        out
    }

    pub open spec fn none(self) -> bool {
        self.fps_cap is None && self.cookies is None
    }

    pub fn is_empty(&self) -> (r: bool)
        ensures
            r == self.none(),
    {
        self.fps_cap.is_none() && self.cookies.is_none()
    }

    pub open spec fn key_texts(self) -> Seq<Seq<char>> {
        (if self.fps_cap is Some {
            seq!["fps_cap"@]
        } else {
            seq![]
        }) + (if self.cookies is Some {
            seq!["cookies.browser"@]
        } else {
            seq![]
        })
    }

    /// The names of the settings that the environment replaced.
    pub fn keys(&self) -> (r: Vec<String>)
        ensures
            texts(r@) == self.key_texts(),
    {
        let mut out: Vec<String> = Vec::new();
        if self.fps_cap.is_some() {
            out.push("fps_cap".to_owned());
        }
        if self.cookies.is_some() {
            out.push("cookies.browser".to_owned());
        }
        assert(texts(out@) =~= self.key_texts());
        out
    }
}

/// A passing wish of the environment is never written: where it replaced a setting the
/// file's own value is, and every other setting is written as it was edited.
pub proof fn law_environment_is_not_written(
    overridden: EnvOverridden,
    edited: Settings,
    written: Settings,
)
    requires
        overridden.restores(edited, written),
    ensures
        overridden.fps_cap matches Some(cap) ==> written.fps_cap == cap,
        overridden.cookies matches Some(source) ==> written.cookies == source,
        overridden.fps_cap is None ==> written.fps_cap == edited.fps_cap,
        overridden.cookies is None ==> written.cookies == edited.cookies,
        written.display == edited.display,
        written.subtitles == edited.subtitles,
        written.search == edited.search,
        written.thumbnails == edited.thumbnails,
        written.engagement == edited.engagement,
        written.download == edited.download,
        written.window == edited.window,
        written.extra_args@ == edited.extra_args@,
        overridden.none() ==> same_settings(written, edited),
{
}

/// A number of pixels goes before the quality, whose budget holds where there is none.
pub proof fn law_pixels_go_before_the_quality(display: DisplaySettings)
    ensures
        display.max_frame_pixels matches Some(pixels) ==> display.budget() == pixels,
        display.max_frame_pixels is None ==> display.budget() == display.quality.budget(),
{
}

/// What someone who set nothing has.
pub proof fn law_defaults_of_the_settings(s: Settings)
    requires
        are_defaults(s),
    ensures
        s.display.mode == DisplayMode::Embedded,
        s.display.quality == Quality::Medium,
        s.fps_cap == Some(FpsCap { fps: 15 }),
        s.subtitles.enabled,
        s.search.layout == LayoutMode::Grid,
        s.search.limit == 10,
        s.search.timeout_secs == 30,
        !s.search.cache_enabled,
        s.search.cache_ttl_secs == 300,
        s.thumbnails.enabled,
        s.thumbnails.max_cached == 500,
        s.thumbnails.timeout_secs == 10,
        s.engagement.enabled,
        s.engagement.ttl_secs == 7 * 24 * 60 * 60,
        s.engagement.max_concurrent_requests == 3,
        !s.download.debug,
        s.cookies is None,
{
}

/// Settings that hold the same values are the same in each of them, and the other way
/// round.
pub proof fn law_same_settings_hold_the_same(a: Settings, b: Settings)
    ensures
        same_settings(a, a),
        same_settings(a, b) ==> same_settings(b, a),
        same_settings(a, b) ==> a.display == b.display && a.fps_cap == b.fps_cap && a.subtitles
            == b.subtitles && a.search == b.search && a.thumbnails == b.thumbnails && a.engagement
            == b.engagement && a.download == b.download && a.window == b.window && a.cookies
            == b.cookies && a.extra_args@ == b.extra_args@,
{
}

/// The settings that the environment replaced are named, each once.
pub proof fn law_replaced_settings_are_named(overridden: EnvOverridden)
    ensures
        overridden.key_texts().contains("fps_cap"@) <==> overridden.fps_cap is Some,
        overridden.key_texts().contains("cookies.browser"@) <==> overridden.cookies is Some,
        overridden.none() <==> overridden.key_texts().len() == 0,
        overridden.fps_cap is Some && overridden.cookies is Some ==> overridden.key_texts()
            == seq!["fps_cap"@, "cookies.browser"@],
{
    reveal_strlit("fps_cap");
    reveal_strlit("cookies.browser");
    assert("fps_cap"@.len() != "cookies.browser"@.len());
    let keys = overridden.key_texts();
    if overridden.fps_cap is Some {
        assert(keys[0] == "fps_cap"@);
    }
    if overridden.cookies is Some {
        assert(keys[keys.len() - 1] == "cookies.browser"@);
    }
    if overridden.fps_cap is Some && overridden.cookies is Some {
        assert(keys =~= seq!["fps_cap"@, "cookies.browser"@]);
    }
}

} // verus!
