//! What plays, and where it is. Times are milliseconds; a position that the player
//! reports can lie before the beginning.

use crate::mpv::{
    flag_in, number_in, text_in, Reported, REQ_CURRENT_VO, REQ_DURATION, REQ_PAUSE, REQ_TIME_POS,
    REQ_VOLUME,
};
use crate::text::{decimal, joined, number};
use vstd::prelude::*;
use vstd::string::*;

verus! {

/// How long the player's old position is ignored after a seek.
pub const SEEK_HOLD: u64 = 2_000;

/// A seek lands on a key frame, so this far from the target counts as there.
pub const SEEK_TOLERANCE: i64 = 3_000;

/// A seek that the player has not confirmed yet.
#[derive(Debug, Clone, Copy, PartialEq, Eq, Structural)]
pub struct PendingSeek {
    pub target: i64,
    pub sent_at: u64,
}

/// The running video.
#[derive(Debug, PartialEq, Eq)]
pub struct Playback {
    pub id: String,
    pub title: String,
    pub url: String,
    pub channel_id: Option<String>,
    pub paused: Option<bool>,
    pub time_pos: Option<i64>,
    pub duration: Option<i64>,
    /// In thousandths of a percent.
    pub volume: Option<i64>,
    pub pending_seek: Option<PendingSeek>,
    /// The output that the player really uses.
    pub current_vo: Option<String>,
}

/// `now` is less than `hold` after `since`; a clock that went back counts as no time.
pub open spec fn within(since: u64, hold: u64, now: u64) -> bool {
    now < since || now - since < hold
}

pub fn is_within(since: u64, hold: u64, now: u64) -> (r: bool)
    ensures
        r == within(since, hold, now),
{
    now < since || now - since < hold
}

pub open spec fn distance(a: int, b: int) -> int {
    if a < b {
        b - a
    } else {
        a - b
    }
}

impl Default for Playback {
    fn default() -> (r: Self)
        ensures
            r.is_idle(),
    {
        Playback {
            id: String::new(),
            title: String::new(),
            url: String::new(),
            channel_id: None,
            paused: None,
            time_pos: None,
            duration: None,
            volume: None,
            pending_seek: None,
            current_vo: None,
        }
    }
}

impl Playback {
    /// Nothing plays.
    pub open spec fn is_idle(self) -> bool {
        &&& self.id@.len() == 0
        &&& self.title@.len() == 0
        &&& self.url@.len() == 0
        &&& self.channel_id is None
        &&& self.is_unpolled()
    }

    /// The player has not reported anything yet.
    pub open spec fn is_unpolled(self) -> bool {
        &&& self.paused is None
        &&& self.time_pos is None
        &&& self.duration is None
        &&& self.volume is None
        &&& self.pending_seek is None
        &&& self.current_vo is None
    }

    /// Shows the target of a seek before the player is there.
    pub fn begin_seek(&mut self, target: i64, now: u64)
        ensures
            *final(self) == (Playback {
                time_pos: Some(target),
                pending_seek: Some(PendingSeek { target, sent_at: now }),
                ..*old(self)
            }),
    {
        self.time_pos = Some(target);
        self.pending_seek = Some(PendingSeek { target, sent_at: now });
    }

    pub open spec fn base(self) -> Option<i64> {
        match self.pending_seek {
            Some(pending) => Some(pending.target),
            None => self.time_pos,
        }
    }

    /// What a step starts from. Steps add up while a key is held.
    pub fn seek_base(&self) -> (r: Option<i64>)
        ensures
            r == self.base(),
    {
        match self.pending_seek {
            Some(pending) => Some(pending.target),
            None => self.time_pos,
        }
    }

    /// A polled position is from before the seek: it came within the hold, and far from
    /// the target or not at all.
    pub open spec fn is_stale(self, polled: Option<i64>, now: u64) -> bool {
        self.pending_seek matches Some(pending) && within(pending.sent_at, SEEK_HOLD, now)
            && match polled {
            Some(at) => distance(at as int, pending.target as int) > SEEK_TOLERANCE,
            None => true,
        }
    }

    /// Takes in a polled position. The player answers from before the seek for a while.
    pub fn reconcile_time_pos(&mut self, polled: Option<i64>, now: u64)
        ensures
            *final(self) == (if old(self).is_stale(polled, now) {
                *old(self)
            } else {
                Playback { time_pos: polled, pending_seek: None, ..*old(self) }
            }),
    {
        if let Some(pending) = self.pending_seek {
            let far: bool = match polled {
                Some(at) => {
                    let a: i128 = at as i128;
                    let b: i128 = pending.target as i128;
                    (if a < b {
                        b - a
                    } else {
                        a - b
                    }) > SEEK_TOLERANCE as i128
                },
                None => true,
            };
            if is_within(pending.sent_at, SEEK_HOLD, now) && far {
                return ;
            }
        }
        self.pending_seek = None;
        self.time_pos = polled;
    }
}

impl Playback {
    /// What is known of the video once the answer to a poll was taken in. An answer
    /// without a value, or about something else, leaves nothing behind of the property.
    pub open spec fn polled(self, id: u64, data: Option<Reported>, now: u64) -> Playback {
        if id == REQ_TIME_POS {
            if self.is_stale(number_in(data), now) {
                self
            } else {
                Playback { time_pos: number_in(data), pending_seek: None, ..self }
            }
        } else if id == REQ_DURATION {
            Playback { duration: number_in(data), ..self }
        } else if id == REQ_PAUSE {
            Playback { paused: flag_in(data), ..self }
        } else if id == REQ_VOLUME {
            Playback { volume: number_in(data), ..self }
        } else if id == REQ_CURRENT_VO {
            Playback { current_vo: text_in(data), ..self }
        } else {
            self
        }
    }

    pub fn apply_property(&mut self, id: u64, data: &Option<Reported>, now: u64)
        ensures
            *final(self) == old(self).polled(id, *data, now),
    {
        let number: Option<i64> = match data {
            Some(Reported::Number(n)) => Some(*n),
            _ => None,
        };
        if id == REQ_TIME_POS {
            self.reconcile_time_pos(number, now);
        } else if id == REQ_DURATION {
            self.duration = number;
        } else if id == REQ_PAUSE {
            self.paused = match data {
                Some(Reported::Flag(on)) => Some(*on),
                _ => None,
            };
        } else if id == REQ_VOLUME {
            self.volume = number;
        } else if id == REQ_CURRENT_VO {
            self.current_vo = match data {
                Some(Reported::Text(text)) => Some(text.clone()),
                _ => None,
            };
        }
    }
}

/// A position within the video. Where its length is not known, only the beginning
/// bounds it.
pub open spec fn clamped_target(target: int, duration: Option<i64>) -> int {
    let ahead = match duration {
        Some(end) if target > end => end as int,
        _ => target,
    };
    if ahead < 0 {
        0
    } else {
        ahead
    }
}

pub fn clamp_target(target: i64, duration: Option<i64>) -> (r: i64)
    ensures
        r == clamped_target(target as int, duration),
{
    let ahead: i64 = match duration {
        Some(end) => if target > end {
            end
        } else {
            target
        },
        None => target,
    };
    if ahead < 0 {
        0
    } else {
        ahead
    }
}

/// A seek is shown within the video, whatever was asked for.
pub proof fn law_seek_stays_in_the_video(target: int, end: i64)
    requires
        end >= 0,
    ensures
        0 <= clamped_target(target, Some(end)) <= end,
        0 <= target <= end ==> clamped_target(target, Some(end)) == target,
{
}

/// Two digits at least.
pub open spec fn two_digits(n: nat) -> Seq<char> {
    if n < 10 {
        "0"@ + decimal(n)
    } else {
        decimal(n)
    }
}

fn padded(n: u64) -> (r: String)
    ensures
        r@ == two_digits(n as nat),
{
    if n < 10 {
        let mut out = "0".to_owned();
        out.append(number(n).as_str());
        out
    } else {
        number(n)
    }
}

/// The whole seconds nearest to a time, halves up; none before the beginning.
pub open spec fn whole_seconds(millis: int) -> int {
    if millis < 0 {
        0
    } else {
        (millis + 500) / 1000
    }
}

/// A time in minutes and seconds, and hours where there are any.
pub open spec fn time_text(time: Option<i64>) -> Seq<char> {
    match time {
        None => "--:--"@,
        Some(millis) => {
            let total = whole_seconds(millis as int) as nat;
            let minutes = two_digits(total % 3600 / 60) + ":"@ + two_digits(total % 60);
            if total >= 3600 {
                decimal(total / 3600) + ":"@ + minutes
            } else {
                minutes
            }
        },
    }
}

pub fn format_time(time: Option<i64>) -> (r: String)
    ensures
        r@ == time_text(time),
{
    let millis: i64 = match time {
        None => {
            return "--:--".to_owned();
        },
        Some(millis) => millis,
    };
    let total: u64 = if millis < 0 {
        0
    } else {
        (millis as u64 + 500) / 1000
    };
    let minutes = joined(
        padded(total % 3600 / 60).as_str(),
        ":",
        padded(total % 60).as_str(),
    );
    if total >= 3600 {
        joined(number(total / 3600).as_str(), ":", minutes.as_str())
    } else {
        minutes
    }
}

/// Less than the hold after it began something still holds, and then no longer; a clock
/// that went back does not end it.
pub proof fn law_hold_ends(since: u64, hold: u64, now: u64)
    ensures
        since <= now < since + hold ==> within(since, hold, now),
        now >= since + hold ==> !within(since, hold, now),
        now < since ==> within(since, hold, now),
{
}

/// For two seconds after a seek a report that is more than three seconds off, or none, is
/// from before and changes nothing. Any other is believed, and ends the seek.
pub proof fn law_seek_holds_two_seconds(
    playback: Playback,
    pending: PendingSeek,
    polled: Option<i64>,
    now: u64,
)
    requires
        playback.pending_seek == Some(pending),
    ensures
        pending.sent_at <= now < pending.sent_at + 2_000 && polled is None ==> playback.is_stale(
            polled,
            now,
        ),
        pending.sent_at <= now < pending.sent_at + 2_000 && (polled matches Some(at) && (at
            > pending.target + 3_000 || at < pending.target - 3_000)) ==> playback.is_stale(
            polled,
            now,
        ),
        polled matches Some(at) ==> pending.target - 3_000 <= at <= pending.target + 3_000
            ==> !playback.is_stale(polled, now),
        now >= pending.sent_at + 2_000 ==> !playback.is_stale(polled, now),
{
}

/// Without a seek every report is believed.
pub proof fn law_reports_are_believed(playback: Playback, polled: Option<i64>, now: u64)
    requires
        playback.pending_seek is None,
    ensures
        !playback.is_stale(polled, now),
{
}

/// A step starts from where the last seek leads, and without one from where the video is.
pub proof fn law_steps_start_from_the_target(playback: Playback)
    ensures
        playback.pending_seek matches Some(pending) ==> playback.base() == Some(pending.target),
        playback.pending_seek is None ==> playback.base() == playback.time_pos,
{
}

/// Each report changes what it is about and nothing else: place, length, pause, volume and
/// output each have their own number.
pub proof fn law_reports_are_told_apart(
    playback: Playback,
    id: u64,
    data: Option<Reported>,
    now: u64,
)
    ensures
        id != 1 ==> playback.polled(id, data, now).time_pos == playback.time_pos && playback.polled(
            id,
            data,
            now,
        ).pending_seek == playback.pending_seek,
        id == 1 && !playback.is_stale(number_in(data), now) ==> playback.polled(
            id,
            data,
            now,
        ).time_pos == number_in(data) && playback.polled(id, data, now).pending_seek is None,
        id == 1 && playback.is_stale(number_in(data), now) ==> playback.polled(id, data, now)
            == playback,
        id == 2 ==> playback.polled(id, data, now).duration == number_in(data),
        id != 2 ==> playback.polled(id, data, now).duration == playback.duration,
        id == 3 ==> playback.polled(id, data, now).paused == flag_in(data),
        id != 3 ==> playback.polled(id, data, now).paused == playback.paused,
        id == 4 ==> playback.polled(id, data, now).volume == number_in(data),
        id != 4 ==> playback.polled(id, data, now).volume == playback.volume,
        id == 7 ==> playback.polled(id, data, now).current_vo == text_in(data),
        id != 7 ==> playback.polled(id, data, now).current_vo == playback.current_vo,
        playback.polled(id, data, now).id == playback.id,
        playback.polled(id, data, now).title == playback.title,
        playback.polled(id, data, now).url == playback.url,
        playback.polled(id, data, now).channel_id == playback.channel_id,
{
}

/// A place before the beginning is the beginning, one past a known end is that end, and
/// any other is itself.
pub proof fn law_seek_goes_where_it_is_asked(target: int, duration: Option<i64>)
    ensures
        target < 0 ==> clamped_target(target, duration) == 0,
        target >= 0 && duration is None ==> clamped_target(target, duration) == target,
        duration matches Some(end) ==> 0 <= end < target ==> clamped_target(target, duration)
            == end,
        duration matches Some(end) ==> 0 <= target <= end ==> clamped_target(target, duration)
            == target,
{
}

/// A time is shown to the nearest second, and not before the beginning.
pub proof fn law_seconds_are_nearest(millis: int)
    ensures
        millis >= 0 ==> -500 < whole_seconds(millis) * 1000 - millis <= 500,
        millis < 0 ==> whole_seconds(millis) == 0,
{
}

/// A time is shown in minutes and seconds of two digits each, behind the hours if there are
/// any; and what is not known is shown as such.
pub proof fn law_time_is_shown_by_the_clock(hours: nat, minutes: nat, seconds: nat)
    requires
        minutes < 60,
        seconds < 60,
        hours * 3600 + 3600 <= 9_000_000_000_000_000,
    ensures
        ({
            let millis = ((hours * 3600 + minutes * 60 + seconds) * 1000) as i64;
            let clock = two_digits(minutes) + ":"@ + two_digits(seconds);
            &&& hours == 0 ==> time_text(Some(millis)) == clock
            &&& hours > 0 ==> time_text(Some(millis)) == decimal(hours) + ":"@ + clock
        }),
        time_text(None) == "--:--"@,
        two_digits(minutes).len() == 2,
        two_digits(seconds).len() == 2,
        minutes < 10 ==> two_digits(minutes)[0] == '0',
        two_digits(minutes).last() as nat == 48 + minutes % 10,
        minutes >= 10 ==> two_digits(minutes)[0] as nat == 48 + minutes / 10,
{
    let total = hours * 3600 + minutes * 60 + seconds;
    assert(whole_seconds((total * 1000) as int) == total);
    assert(total % 3600 / 60 == minutes);
    assert(total % 60 == seconds);
    assert(total / 3600 == hours);
    reveal_strlit("0");
    reveal_with_fuel(decimal, 3);
}

/// Nothing is known of a video that no report came of, and nothing plays at first.
pub proof fn law_nothing_is_known_at_first(playback: Playback)
    ensures
        playback.is_unpolled() ==> playback.paused is None && playback.time_pos is None
            && playback.duration is None && playback.volume is None && playback.pending_seek is None
            && playback.current_vo is None,
        playback.is_idle() ==> playback.is_unpolled() && playback.id@.len() == 0
            && playback.title@.len() == 0 && playback.url@.len() == 0 && playback.channel_id
            is None,
{
}

} // verus!
