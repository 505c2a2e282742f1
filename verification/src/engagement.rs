//! Which videos are liked and which channels subscribed to, as far as it is known,
//! and when it has to be asked again. Nothing here asks. Times are milliseconds since
//! the epoch.

use crate::collections::{TextMap, TextSet};
use crate::paths::{app_cache_dir, app_dir, file_below, join_path, seen};
use crate::text::{in_order, maybe_text, sorted, texts};
use vstd::prelude::*;
use vstd::string::*;

verus! {

/// No more channels than this are remembered; those asked for longest ago go first.
pub const MAX_CHANNELS: usize = 500;

pub const ENGAGEMENT_FILE: &'static str = "engagement.json";

/// Why nothing can be kept.
pub const NO_ENGAGEMENT_PATH: &'static str =
    "いいね済み/登録済みの控えの置き場が分かりません ($HOME を設定してください)";

/// Liked videos and subscribed channels.
#[derive(Debug, PartialEq, Eq)]
pub struct EngagementCache {
    pub liked_videos: TextSet,
    /// When the whole list of likes was last fetched.
    pub liked_last_confirmed: Option<u64>,
    /// A channel that is not here was not asked for.
    pub subscribed_channels: TextMap<bool>,
    pub channel_last_confirmed: TextMap<u64>,
}

/// What was confirmed at `last` has to be asked again: the time to live has passed, or
/// the clock was set back and `last` lies ahead.
pub open spec fn is_expired(last: u64, now: u64, ttl: u64) -> bool {
    now < last || now - last > ttl
}

pub fn expired(last: u64, now: u64, ttl: u64) -> (r: bool)
    ensures
        r == is_expired(last, now, ttl),
{
    now < last || now - last > ttl
}

/// A channel was never asked for, or too long ago.
pub open spec fn is_due(confirmed: Map<Seq<char>, u64>, id: Seq<char>, now: u64, ttl: u64) -> bool {
    confirmed.dom().contains(id) ==> is_expired(confirmed[id], now, ttl)
}

/// Those of the first `n` ids that are due, each where it first stands.
pub open spec fn due_ids(
    ids: Seq<Seq<char>>,
    confirmed: Map<Seq<char>, u64>,
    now: u64,
    ttl: u64,
    n: int,
) -> Seq<Seq<char>>
    decreases n,
{
    if n <= 0 {
        seq![]
    } else {
        let before = due_ids(ids, confirmed, now, ttl, n - 1);
        if ids.take(n - 1).contains(ids[n - 1]) || !is_due(confirmed, ids[n - 1], now, ttl) {
            before
        } else {
            before.push(ids[n - 1])
        }
    }
}

/// What stays of both maps where the oldest channels had to go: at most `max` are
/// remembered unless nothing is left to tell their age by, none went without need,
/// and none went before one that was confirmed earlier.
pub open spec fn is_evicted(
    subscribed: Map<Seq<char>, bool>,
    confirmed: Map<Seq<char>, u64>,
    max: nat,
    kept_subscribed: Map<Seq<char>, bool>,
    kept_confirmed: Map<Seq<char>, u64>,
) -> bool {
    let gone = confirmed.dom().difference(kept_confirmed.dom());
    &&& kept_subscribed == subscribed.remove_keys(gone)
    &&& kept_confirmed == confirmed.remove_keys(gone)
    &&& kept_subscribed.dom().len() <= max || kept_confirmed.dom() == Set::<Seq<char>>::empty()
    &&& subscribed.dom().len() <= max ==> gone == Set::<Seq<char>>::empty()
    &&& subscribed.dom().len() > max ==> kept_subscribed.dom().len() >= max
    &&& forall|a: Seq<char>, b: Seq<char>|
        gone.contains(a) && kept_confirmed.dom().contains(b) ==> #[trigger] confirmed[a]
            <= #[trigger] confirmed[b]
}

/// The likes with one more, or with one less.
pub open spec fn likes_with(likes: Set<Seq<char>>, id: Seq<char>, liked: bool) -> Set<Seq<char>> {
    if liked {
        likes.insert(id)
    } else {
        likes.remove(id)
    }
}

/// When the list of likes was confirmed, once a like of its own came: a list that was never
/// fetched stays so.
pub open spec fn confirmed_again(last: Option<u64>, now: u64) -> Option<u64> {
    if last is Some {
        Some(now)
    } else {
        None
    }
}

impl Default for EngagementCache {
    fn default() -> (r: Self)
        ensures
            r.wf(),
            r.none(),
    {
        EngagementCache {
            liked_videos: TextSet::new(),
            liked_last_confirmed: None,
            subscribed_channels: TextMap::new(),
            channel_last_confirmed: TextMap::new(),
        }
    }
}

impl EngagementCache {
    pub open spec fn wf(self) -> bool {
        &&& self.liked_videos.wf()
        &&& self.subscribed_channels.wf()
        &&& self.channel_last_confirmed.wf()
    }

    /// Nothing is known.
    pub open spec fn none(self) -> bool {
        &&& self.liked_videos@ == Set::<Seq<char>>::empty()
        &&& self.liked_last_confirmed is None
        &&& self.subscribed_channels@ == Map::<Seq<char>, bool>::empty()
        &&& self.channel_last_confirmed@ == Map::<Seq<char>, u64>::empty()
    }

    /// The list of likes is fetched as a whole, so a video that is not on it is not
    /// liked.
    pub fn is_liked(&self, video_id: &str) -> (r: bool)
        ensures
            r == self.liked_videos@.contains(video_id@),
    {
        self.liked_videos.contains(video_id)
    }

    /// What is known of a channel.
    pub open spec fn subscription(self, channel_id: Seq<char>) -> Option<bool> {
        if self.subscribed_channels@.dom().contains(channel_id) {
            Some(self.subscribed_channels@[channel_id])
        } else {
            None
        }
    }

    /// `None` for a channel that was not asked for.
    pub fn is_subscribed(&self, channel_id: &str) -> (r: Option<bool>)
        ensures
            r == self.subscription(channel_id@),
    {
        self.subscribed_channels.get(channel_id)
    }

    pub fn is_empty(&self) -> (r: bool)
        ensures
            r == self.none(),
    {
        self.liked_videos.is_empty() && self.liked_last_confirmed.is_none()
            && self.subscribed_channels.is_empty() && self.channel_last_confirmed.is_empty()
    }

    /// The list of likes was never fetched, or too long ago.
    pub open spec fn likes_due(self, now: u64, ttl: u64) -> bool {
        match self.liked_last_confirmed {
            None => true,
            Some(last) => is_expired(last, now, ttl),
        }
    }

    pub fn liked_needs_refresh(&self, now: u64, ttl: u64) -> (r: bool)
        ensures
            r == self.likes_due(now, ttl),
    {
        match self.liked_last_confirmed {
            None => true,
            Some(last) => expired(last, now, ttl),
        }
    }

    pub open spec fn due(self, ids: Seq<Seq<char>>, now: u64, ttl: u64) -> Seq<Seq<char>> {
        due_ids(ids, self.channel_last_confirmed@, now, ttl, ids.len() as int)
    }

    /// The channels of a list that have to be asked for, in the order of the list and
    /// each once.
    pub fn channels_needing_refresh(&self, channel_ids: &Vec<String>, now: u64, ttl: u64) -> (r:
        Vec<String>)
        ensures
            texts(r@) == self.due(texts(channel_ids@), now, ttl),
    {
        let mut out: Vec<String> = Vec::new();
        let mut met = TextSet::new();
        let ghost ids = texts(channel_ids@);
        assert(texts(out@) =~= seq![]);
        assert(ids.take(0).to_set() =~= Set::<Seq<char>>::empty());
        for i in 0..channel_ids.len()
            invariant
                ids == texts(channel_ids@),
                met.wf(),
                met@ == ids.take(i as int).to_set(),
                texts(out@) == due_ids(
                    ids,
                    self.channel_last_confirmed@,
                    now,
                    ttl,
                    i as int,
                ),
        {
            let ghost before = out@;
            let id = channel_ids[i].as_str();
            assert(id@ == ids[i as int]);
            let due: bool = match self.channel_last_confirmed.get(id) {
                None => true,
                Some(last) => expired(last, now, ttl),
            };
            let new: bool = !met.contains(id);
            if new && due {
                out.push(channel_ids[i].clone());
                assert(texts(out@) =~= texts(before).push(ids[i as int]));
            }
            met.insert(id);
            proof {
                lemma_take_set(ids, i as int);
            }
        }
        out
    }

    /// Takes over a whole list of likes.
    pub fn replace_liked(&mut self, video_ids: &Vec<String>, now: u64)
        requires
            old(self).wf(),
        ensures
            final(self).wf(),
            final(self).liked_videos@ == texts(video_ids@).to_set(),
            *final(self) == (EngagementCache {
                liked_videos: final(self).liked_videos,
                liked_last_confirmed: Some(now),
                ..*old(self)
            }),
    {
        self.liked_videos = TextSet::from_list(video_ids);
        self.liked_last_confirmed = Some(now);
    }

    /// Takes over a like, or one taken back, that was sent from here. It does not
    /// stand in for the first fetch of the list.
    pub fn remember_like(&mut self, video_id: &str, liked: bool, now: u64)
        requires
            old(self).wf(),
        ensures
            final(self).wf(),
            final(self).liked_videos@ == likes_with(old(self).liked_videos@, video_id@, liked),
            *final(self) == (EngagementCache {
                liked_videos: final(self).liked_videos,
                liked_last_confirmed: confirmed_again(old(self).liked_last_confirmed, now),
                ..*old(self)
            }),
    {
        if liked {
            self.liked_videos.insert(video_id);
        } else {
            self.liked_videos.remove(video_id);
        }
        if self.liked_last_confirmed.is_some() {
            self.liked_last_confirmed = Some(now);
        }
    }

    /// Takes over a subscription, or one ended, that was sent from here.
    pub fn remember_subscription(&mut self, channel_id: &str, subscribed: bool, now: u64)
        requires
            old(self).wf(),
        ensures
            final(self).wf(),
            is_evicted(
                old(self).subscribed_channels@.insert(channel_id@, subscribed),
                old(self).channel_last_confirmed@.insert(channel_id@, now),
                MAX_CHANNELS as nat,
                final(self).subscribed_channels@,
                final(self).channel_last_confirmed@,
            ),
            final(self).liked_videos == old(self).liked_videos,
            final(self).liked_last_confirmed == old(self).liked_last_confirmed,
    {
        self.subscribed_channels.insert(channel_id, subscribed);
        self.channel_last_confirmed.insert(channel_id, now);
        self.enforce_channel_capacity();
    }

    /// Takes over an answer about many channels. A channel that was asked for and not
    /// answered is not subscribed to.
    pub fn remember_channels(&mut self, asked: &Vec<String>, subscribed: &Vec<String>, now: u64)
        requires
            old(self).wf(),
        ensures
            final(self).wf(),
            is_evicted(
                with_answers(
                    old(self).subscribed_channels@,
                    texts(asked@),
                    texts(subscribed@).to_set(),
                    asked@.len() as int,
                ),
                with_times(
                    old(self).channel_last_confirmed@,
                    texts(asked@),
                    now,
                    asked@.len() as int,
                ),
                MAX_CHANNELS as nat,
                final(self).subscribed_channels@,
                final(self).channel_last_confirmed@,
            ),
            final(self).liked_videos == old(self).liked_videos,
            final(self).liked_last_confirmed == old(self).liked_last_confirmed,
    {
        let found = TextSet::from_list(subscribed);
        for i in 0..asked.len()
            invariant
                self.wf(),
                found@ == texts(subscribed@).to_set(),
                self.subscribed_channels@ == with_answers(
                    old(self).subscribed_channels@,
                    texts(asked@),
                    texts(subscribed@).to_set(),
                    i as int,
                ),
                self.channel_last_confirmed@ == with_times(
                    old(self).channel_last_confirmed@,
                    texts(asked@),
                    now,
                    i as int,
                ),
                self.liked_videos == old(self).liked_videos,
                self.liked_last_confirmed == old(self).liked_last_confirmed,
        {
            let id = asked[i].as_str();
            assert(id@ == texts(asked@)[i as int]);
            self.subscribed_channels.insert(id, found.contains(id));
            self.channel_last_confirmed.insert(id, now);
        }
        self.enforce_channel_capacity();
    }

    /// Drops the channels confirmed longest ago while there are too many.
    pub fn enforce_channel_capacity(&mut self)
        requires
            old(self).wf(),
        ensures
            final(self).wf(),
            is_evicted(
                old(self).subscribed_channels@,
                old(self).channel_last_confirmed@,
                MAX_CHANNELS as nat,
                final(self).subscribed_channels@,
                final(self).channel_last_confirmed@,
            ),
            final(self).liked_videos == old(self).liked_videos,
            final(self).liked_last_confirmed == old(self).liked_last_confirmed,
    {
        let ghost subscribed = self.subscribed_channels@;
        let ghost confirmed = self.channel_last_confirmed@;
        let ghost mut gone = Set::<Seq<char>>::empty();
        assert(subscribed.remove_keys(gone) =~= subscribed);
        assert(confirmed.remove_keys(gone) =~= confirmed);
        loop
            invariant
                self.wf(),
                self.liked_videos == old(self).liked_videos,
                self.liked_last_confirmed == old(self).liked_last_confirmed,
                gone.subset_of(confirmed.dom()),
                self.subscribed_channels@ == subscribed.remove_keys(gone),
                self.channel_last_confirmed@ == confirmed.remove_keys(gone),
                subscribed.dom().len() <= MAX_CHANNELS ==> gone == Set::<Seq<char>>::empty(),
                subscribed.dom().len() > MAX_CHANNELS ==> self.subscribed_channels@.dom().len()
                    >= MAX_CHANNELS,
                forall|a: Seq<char>, b: Seq<char>|
                    gone.contains(a) && self.channel_last_confirmed@.dom().contains(b)
                        ==> #[trigger] confirmed[a] <= #[trigger] confirmed[b],
            ensures
                self.subscribed_channels@.dom().len() <= MAX_CHANNELS
                    || self.channel_last_confirmed@.dom() == Set::<Seq<char>>::empty(),
            decreases self.channel_last_confirmed@.dom().len(),
        {
            if self.subscribed_channels.len() <= MAX_CHANNELS {
                break ;
            }
            assert(subscribed.dom().len() > MAX_CHANNELS) by {
                if gone == Set::<Seq<char>>::empty() {
                    assert(subscribed.remove_keys(gone) =~= subscribed);
                }
            }
            let oldest = match self.channel_last_confirmed.least() {
                Some(oldest) => oldest,
                None => {
                    break ;
                },
            };
            let ghost key = oldest@;
            let ghost before = self.channel_last_confirmed@;
            let ghost before_subscribed = self.subscribed_channels@;
            self.subscribed_channels.remove(oldest.as_str());
            self.channel_last_confirmed.remove(oldest.as_str());
            proof {
                assert forall|a: Seq<char>, b: Seq<char>|
                    gone.insert(key).contains(a)
                        && self.channel_last_confirmed@.dom().contains(b) implies
                    #[trigger] confirmed[a] <= #[trigger] confirmed[b] by {
                    assert(before.dom().contains(b));
                    assert(before[b] == confirmed[b] && before[key] == confirmed[key]);
                    if !gone.contains(a) {
                        assert(a == key);
                    }
                }
                gone = gone.insert(key);
                assert(self.subscribed_channels@ =~= subscribed.remove_keys(gone));
                assert(self.channel_last_confirmed@ =~= confirmed.remove_keys(gone));
                assert(self.subscribed_channels@.dom() =~= before_subscribed.dom().remove(key));
                assert(self.channel_last_confirmed@.dom() =~= before.dom().remove(key));
            }
        }
        proof {
            assert(confirmed.dom().difference(self.channel_last_confirmed@.dom()) =~= gone);
        }
    }
}

/// One more text of a list belongs to the set of those met.
pub proof fn lemma_take_set(ids: Seq<Seq<char>>, i: int)
    requires
        0 <= i < ids.len(),
    ensures
        ids.take(i + 1).to_set() == ids.take(i).to_set().insert(ids[i]),
{
    let a = ids.take(i);
    let b = ids.take(i + 1);
    assert forall|t: Seq<char>| b.to_set().contains(t) <==> a.to_set().insert(
        ids[i],
    ).contains(t) by {
        if b.contains(t) {
            let k = choose|k: int| 0 <= k < b.len() && b[k] == t;
            if k < i {
                assert(a[k] == t);
            }
        }
        if a.contains(t) {
            let k = choose|k: int| 0 <= k < a.len() && a[k] == t;
            assert(b[k] == t);
        }
        assert(b[i] == ids[i]);
    }
    assert(b.to_set() =~= a.to_set().insert(ids[i]));
}

/// The answers for the first `n` channels entered.
pub open spec fn with_answers(
    map: Map<Seq<char>, bool>,
    asked: Seq<Seq<char>>,
    found: Set<Seq<char>>,
    n: int,
) -> Map<Seq<char>, bool>
    decreases n,
{
    if n <= 0 {
        map
    } else {
        with_answers(map, asked, found, n - 1).insert(asked[n - 1], found.contains(asked[n - 1]))
    }
}

/// The time entered for the first `n` channels.
pub open spec fn with_times(
    map: Map<Seq<char>, u64>,
    asked: Seq<Seq<char>>,
    now: u64,
    n: int,
) -> Map<Seq<char>, u64>
    decreases n,
{
    if n <= 0 {
        map
    } else {
        with_times(map, asked, now, n - 1).insert(asked[n - 1], now)
    }
}

/// The channels to ask for are those of the list that are due, each once.
pub proof fn law_due_channels(
    ids: Seq<Seq<char>>,
    confirmed: Map<Seq<char>, u64>,
    now: u64,
    ttl: u64,
    n: int,
)
    requires
        0 <= n <= ids.len(),
    ensures
        due_ids(ids, confirmed, now, ttl, n).no_duplicates(),
        forall|id: Seq<char>| #[trigger]
            due_ids(ids, confirmed, now, ttl, n).contains(id) <==> ids.take(n).contains(id)
                && is_due(confirmed, id, now, ttl),
    decreases n,
{
    if n > 0 {
        law_due_channels(ids, confirmed, now, ttl, n - 1);
        let before = due_ids(ids, confirmed, now, ttl, n - 1);
        let list = due_ids(ids, confirmed, now, ttl, n);
        let last = ids[n - 1];
        let a = ids.take(n - 1);
        let b = ids.take(n);
        assert(b =~= a.push(last));
        assert forall|id: Seq<char>| #[trigger] b.contains(id) <==> a.contains(id) || id == last by {
            if a.contains(id) {
                let k = choose|k: int| 0 <= k < a.len() && a[k] == id;
                assert(b[k] == id);
            }
            assert(b[n - 1] == last);
            if b.contains(id) && id != last {
                let k = choose|k: int| 0 <= k < b.len() && b[k] == id;
                assert(a[k] == id);
            }
        }
        assert forall|id: Seq<char>| #[trigger] list.contains(id) <==> ids.take(n).contains(id)
            && is_due(confirmed, id, now, ttl) by {
            assert(before.contains(id) <==> ids.take(n - 1).contains(id) && is_due(
                confirmed,
                id,
                now,
                ttl,
            ));
            if list.len() > before.len() {
                assert(list =~= before.push(last));
                assert(list[before.len() as int] == last);
                if before.contains(id) {
                    let k = choose|k: int| 0 <= k < before.len() && before[k] == id;
                    assert(list[k] == id);
                }
                if list.contains(id) && id != last {
                    let k = choose|k: int| 0 <= k < list.len() && list[k] == id;
                    assert(before[k] == id);
                }
            }
        }
        if list.len() > before.len() {
            assert(!before.contains(last)) by {
                assert(before.contains(last) <==> ids.take(n - 1).contains(last) && is_due(
                    confirmed,
                    last,
                    now,
                    ttl,
                ));
            }
        }
    }
}

/// Where every remembered channel has a time, no more than the limit stay, and every
/// one that stays has a time again.
pub proof fn law_capacity_is_kept(
    subscribed: Map<Seq<char>, bool>,
    confirmed: Map<Seq<char>, u64>,
    max: nat,
    kept_subscribed: Map<Seq<char>, bool>,
    kept_confirmed: Map<Seq<char>, u64>,
)
    requires
        subscribed.dom().subset_of(confirmed.dom()),
        is_evicted(subscribed, confirmed, max, kept_subscribed, kept_confirmed),
    ensures
        kept_subscribed.dom().len() <= max,
        kept_subscribed.dom().subset_of(kept_confirmed.dom()),
{
    if kept_confirmed.dom() == Set::<Seq<char>>::empty() {
        assert(kept_subscribed.dom() =~= Set::<Seq<char>>::empty());
    }
}

/// A channel that has just been answered for is not asked for again at once.
pub proof fn law_answered_is_not_due(
    map: Map<Seq<char>, u64>,
    asked: Seq<Seq<char>>,
    now: u64,
    ttl: u64,
    n: int,
    i: int,
)
    requires
        0 <= i < n <= asked.len(),
    ensures
        !is_due(with_times(map, asked, now, n), asked[i], now, ttl),
    decreases n,
{
    if i < n - 1 {
        law_answered_is_not_due(map, asked, now, ttl, n - 1, i);
    }
}

/// The seconds since the epoch.
pub fn to_unix(time: u64) -> (r: u64)
    ensures
        r == time / 1000,
{
    time / 1000
}

/// A number of seconds since the epoch as a time; one too far ahead is the last time
/// there is.
pub fn from_unix(secs: u64) -> (r: u64)
    ensures
        r == (if secs * 1000 <= u64::MAX {
            secs * 1000
        } else {
            u64::MAX as int
        }),
{
    if secs <= u64::MAX / 1000 {
        secs * 1000
    } else {
        u64::MAX
    }
}

/// Where what is known is kept, beside the thumbnails.
pub fn cache_path(xdg_cache_home: Option<&str>, home: Option<&str>) -> (r: Option<String>)
    ensures
        maybe_text(r) == file_below(
            app_dir(seen(xdg_cache_home), seen(home), ".cache"@),
            ENGAGEMENT_FILE@,
        ),
{
    match app_cache_dir(xdg_cache_home, home) {
        Some(dir) => Some(join_path(dir.as_str(), ENGAGEMENT_FILE)),
        None => None,
    }
}

/// What is kept in the file. Times are seconds, so that any machine can read them.
#[derive(Debug, PartialEq, Eq)]
pub struct EngagementFile {
    pub liked_videos: Vec<String>,
    pub liked_last_confirmed: Option<u64>,
    pub subscribed_channels: Vec<(String, bool)>,
    pub channel_last_confirmed: Vec<(String, u64)>,
}

/// The map that the first `n` pairs make; a later pair wins.
pub open spec fn map_of<V>(pairs: Seq<(String, V)>, n: int) -> Map<Seq<char>, V>
    decreases n,
{
    if n <= 0 {
        Map::empty()
    } else {
        map_of(pairs, n - 1).insert(pairs[n - 1].0@, pairs[n - 1].1)
    }
}

/// A number of seconds as a time.
pub open spec fn time_of(secs: u64) -> u64 {
    if secs * 1000 <= u64::MAX {
        (secs * 1000) as u64
    } else {
        u64::MAX
    }
}

pub open spec fn timed(map: Map<Seq<char>, u64>) -> Map<Seq<char>, u64> {
    map.map_values(|secs: u64| time_of(secs))
}

/// The cache is what the file says.
pub open spec fn is_cache_of(cache: EngagementCache, file: EngagementFile) -> bool {
    &&& cache.liked_videos@ == texts(file.liked_videos@).to_set()
    &&& cache.liked_last_confirmed == (match file.liked_last_confirmed {
        Some(secs) => Some(time_of(secs)),
        None => None,
    })
    &&& cache.subscribed_channels@ == map_of(
        file.subscribed_channels@,
        file.subscribed_channels@.len() as int,
    )
    &&& cache.channel_last_confirmed@ == timed(
        map_of(file.channel_last_confirmed@, file.channel_last_confirmed@.len() as int),
    )
}

/// The file says what the cache holds, with the likes in order.
pub open spec fn is_file_of(file: EngagementFile, cache: EngagementCache) -> bool {
    &&& in_order(texts(file.liked_videos@))
    &&& texts(file.liked_videos@).to_set() == cache.liked_videos@
    &&& file.liked_last_confirmed == (match cache.liked_last_confirmed {
        Some(time) => Some(time / 1000),
        None => None,
    })
    &&& map_of(file.subscribed_channels@, file.subscribed_channels@.len() as int)
        == cache.subscribed_channels@
    &&& map_of(file.channel_last_confirmed@, file.channel_last_confirmed@.len() as int)
        == cache.channel_last_confirmed@.map_values(|time: u64| time / 1000)
}

impl EngagementCache {
    /// The cache that a file stands for.
    pub fn from_file(file: &EngagementFile) -> (r: Self)
        ensures
            r.wf(),
            is_cache_of(r, *file),
    {
        let mut subscribed: TextMap<bool> = TextMap::new();
        for i in 0..file.subscribed_channels.len()
            invariant
                subscribed.wf(),
                subscribed@ == map_of(file.subscribed_channels@, i as int),
        {
            let pair = &file.subscribed_channels[i];
            subscribed.insert(pair.0.as_str(), pair.1);
        }
        let mut confirmed: TextMap<u64> = TextMap::new();
        assert(confirmed@ =~= timed(map_of(file.channel_last_confirmed@, 0)));
        for i in 0..file.channel_last_confirmed.len()
            invariant
                confirmed.wf(),
                confirmed@ == timed(map_of(file.channel_last_confirmed@, i as int)),
        {
            let pair = &file.channel_last_confirmed[i];
            confirmed.insert(pair.0.as_str(), from_unix(pair.1));
            assert(confirmed@ =~= timed(map_of(file.channel_last_confirmed@, i + 1)));
        }
        EngagementCache {
            liked_videos: TextSet::from_list(&file.liked_videos),
            liked_last_confirmed: match file.liked_last_confirmed {
                Some(secs) => Some(from_unix(secs)),
                None => None,
            },
            subscribed_channels: subscribed,
            channel_last_confirmed: confirmed,
        }
    }

    /// What is to be kept. The likes are in order, so that two files compare.
    pub fn to_file(&self) -> (r: EngagementFile)
        requires
            self.wf(),
        ensures
            is_file_of(r, *self),
    {
        let items = self.liked_videos.items();
        let liked = sorted(&items);
        proof {
            lemma_same_items(texts(liked@), texts(items@));
        }
        let names = self.subscribed_channels.keys();
        let mut subscribed: Vec<(String, bool)> = Vec::new();
        let ghost keys = texts(names@);
        assert(map_of(subscribed@, 0) =~= self.subscribed_channels@.restrict(
            keys.take(0).to_set(),
        ));
        for i in 0..names.len()
            invariant
                keys == texts(names@),
                keys.to_set() == self.subscribed_channels@.dom(),
                subscribed@.len() == i,
                map_of(subscribed@, i as int) == self.subscribed_channels@.restrict(
                    keys.take(i as int).to_set(),
                ),
        {
            let ghost before = subscribed@;
            assert(names@[i as int]@ == keys[i as int]);
            assert(keys.to_set().contains(keys[i as int]));
            if let Some(on) = self.subscribed_channels.get(names[i].as_str()) {
                subscribed.push((names[i].clone(), on));
            }
            proof {
                lemma_map_of_prefix(before, subscribed@, i as int);
                lemma_take_set(keys, i as int);
                assert(map_of(subscribed@, i + 1) == map_of(before, i as int).insert(
                    keys[i as int],
                    self.subscribed_channels@[keys[i as int]],
                ));
                assert(map_of(subscribed@, i + 1) =~= self.subscribed_channels@.restrict(
                    keys.take(i + 1).to_set(),
                ));
            }
        }
        proof {
            assert(keys.take(names@.len() as int) =~= keys);
            assert(map_of(subscribed@, subscribed@.len() as int) =~= self.subscribed_channels@);
        }
        let timed_names = self.channel_last_confirmed.keys();
        let mut confirmed: Vec<(String, u64)> = Vec::new();
        let ghost keys = texts(timed_names@);
        let ghost wanted = self.channel_last_confirmed@.map_values(|time: u64| time / 1000);
        assert(map_of(confirmed@, 0) =~= wanted.restrict(keys.take(0).to_set()));
        for i in 0..timed_names.len()
            invariant
                keys == texts(timed_names@),
                keys.to_set() == self.channel_last_confirmed@.dom(),
                wanted == self.channel_last_confirmed@.map_values(|time: u64| time / 1000),
                confirmed@.len() == i,
                map_of(confirmed@, i as int) == wanted.restrict(keys.take(i as int).to_set()),
        {
            let ghost before = confirmed@;
            assert(timed_names@[i as int]@ == keys[i as int]);
            assert(keys.to_set().contains(keys[i as int]));
            if let Some(time) = self.channel_last_confirmed.get(timed_names[i].as_str()) {
                confirmed.push((timed_names[i].clone(), to_unix(time)));
            }
            proof {
                lemma_map_of_prefix(before, confirmed@, i as int);
                lemma_take_set(keys, i as int);
                assert(map_of(confirmed@, i + 1) == map_of(before, i as int).insert(
                    keys[i as int],
                    wanted[keys[i as int]],
                ));
                assert(map_of(confirmed@, i + 1) =~= wanted.restrict(keys.take(i + 1).to_set()));
            }
        }
        proof {
            assert(keys.take(timed_names@.len() as int) =~= keys);
            assert(map_of(confirmed@, confirmed@.len() as int) =~= wanted);
        }
        EngagementFile {
            liked_videos: liked,
            liked_last_confirmed: match self.liked_last_confirmed {
                Some(time) => Some(to_unix(time)),
                None => None,
            },
            subscribed_channels: subscribed,
            channel_last_confirmed: confirmed,
        }
    }
}

/// Two lists with the same items have the same set of items.
proof fn lemma_same_items(a: Seq<Seq<char>>, b: Seq<Seq<char>>)
    requires
        a.to_multiset() == b.to_multiset(),
    ensures
        a.to_set() == b.to_set(),
{
    a.to_multiset_ensures();
    b.to_multiset_ensures();
    assert forall|t: Seq<char>| a.to_set().contains(t) <==> b.to_set().contains(t) by {
        assert(a.contains(t) <==> a.to_multiset().count(t) > 0);
        assert(b.contains(t) <==> b.to_multiset().count(t) > 0);
    }
    assert(a.to_set() =~= b.to_set());
}

/// The map of the first pairs does not depend on those that follow.
proof fn lemma_map_of_prefix<V>(a: Seq<(String, V)>, b: Seq<(String, V)>, n: int)
    requires
        n <= a.len(),
        n <= b.len(),
        forall|i: int| 0 <= i < n ==> #[trigger] a[i] == #[trigger] b[i],
    ensures
        map_of(a, n) == map_of(b, n),
    decreases n,
{
    if n > 0 {
        lemma_map_of_prefix(a, b, n - 1);
    }
}

/// What is written is read back: the same likes, the same channels, and each time to
/// the second.
pub proof fn law_file_reads_back(
    cache: EngagementCache,
    file: EngagementFile,
    loaded: EngagementCache,
)
    requires
        is_file_of(file, cache),
        is_cache_of(loaded, file),
    ensures
        loaded.liked_videos@ == cache.liked_videos@,
        loaded.liked_last_confirmed == (match cache.liked_last_confirmed {
            Some(time) => Some((time - time % 1000) as u64),
            None => None,
        }),
        loaded.subscribed_channels@ == cache.subscribed_channels@,
        loaded.channel_last_confirmed@ == cache.channel_last_confirmed@.map_values(
            |time: u64| (time - time % 1000) as u64,
        ),
{
    assert(loaded.channel_last_confirmed@ =~= cache.channel_last_confirmed@.map_values(
        |time: u64| (time - time % 1000) as u64,
    ));
}

/// What is known at the start, given what was read. A file that is missing or broken
/// tells nothing.
pub fn load_from(file: &Option<EngagementFile>) -> (r: EngagementCache)
    ensures
        r.wf(),
        match *file {
            Some(file) => is_cache_of(r, file),
            None => r.none(),
        },
{
    match file {
        Some(file) => EngagementCache::from_file(file),
        None => EngagementCache::default(),
    }
}

/// What is to be written, given where to: nothing where nothing is known, for then no
/// file is needed.
pub fn save_to(path: Option<&str>, cache: &EngagementCache) -> (r: Result<
    Option<EngagementFile>,
    String,
>)
    requires
        cache.wf(),
    ensures
        r is Err <==> path is None,
        r matches Err(reason) ==> reason@ == NO_ENGAGEMENT_PATH@,
        r matches Ok(file) ==> (file is None <==> cache.none()),
        r matches Ok(Some(file)) ==> is_file_of(file, *cache),
{
    if path.is_none() {
        return Err(NO_ENGAGEMENT_PATH.to_owned());
    }
    if cache.is_empty() {
        return Ok(None);
    }
    Ok(Some(cache.to_file()))
}

/// What was confirmed has to be asked again once its time to live has passed, not before;
/// and where the clock was set back to before it.
pub proof fn law_marks_expire(last: u64, now: u64, ttl: u64)
    ensures
        last <= now <= last + ttl ==> !is_expired(last, now, ttl),
        now > last + ttl ==> is_expired(last, now, ttl),
        now < last ==> is_expired(last, now, ttl),
{
}

/// A channel that was never asked for is due, and one that was once that has expired.
pub proof fn law_unknown_channel_is_due(
    confirmed: Map<Seq<char>, u64>,
    id: Seq<char>,
    now: u64,
    ttl: u64,
)
    ensures
        !confirmed.dom().contains(id) ==> is_due(confirmed, id, now, ttl),
        confirmed.dom().contains(id) && confirmed[id] <= now <= confirmed[id] + ttl ==> !is_due(
            confirmed,
            id,
            now,
            ttl,
        ),
        confirmed.dom().contains(id) && now > confirmed[id] + ttl ==> is_due(
            confirmed,
            id,
            now,
            ttl,
        ),
{
}

/// The likes are due where they were never fetched, and once what was has expired.
pub proof fn law_unknown_likes_are_due(cache: EngagementCache, now: u64, ttl: u64)
    ensures
        cache.liked_last_confirmed is None ==> cache.likes_due(now, ttl),
        cache.liked_last_confirmed matches Some(last) ==> last <= now <= last + ttl
            ==> !cache.likes_due(now, ttl),
        cache.liked_last_confirmed matches Some(last) ==> now > last + ttl ==> cache.likes_due(
            now,
            ttl,
        ),
{
}

/// A like that was sent is known, one that was taken back is not, and no other changes.
pub proof fn law_like_is_remembered(
    likes: Set<Seq<char>>,
    id: Seq<char>,
    other: Seq<char>,
    liked: bool,
    last: Option<u64>,
    now: u64,
)
    ensures
        likes_with(likes, id, liked).contains(id) == liked,
        other != id ==> likes_with(likes, id, liked).contains(other) == likes.contains(other),
        last is None ==> confirmed_again(last, now) is None,
        last is Some ==> confirmed_again(last, now) == Some(now),
{
}

/// A channel that was asked for is known from then on: subscribed to where the answer names
/// it, and else not. The others are as they were.
pub proof fn law_answers_are_taken_over(
    map: Map<Seq<char>, bool>,
    times: Map<Seq<char>, u64>,
    asked: Seq<Seq<char>>,
    found: Set<Seq<char>>,
    now: u64,
    n: int,
    id: Seq<char>,
)
    requires
        0 <= n <= asked.len(),
    ensures
        (exists|i: int| 0 <= i < n && #[trigger] asked[i] == id) ==> with_answers(
            map,
            asked,
            found,
            n,
        ).dom().contains(id) && with_answers(map, asked, found, n)[id] == found.contains(id)
            && with_times(times, asked, now, n).dom().contains(id) && with_times(
            times,
            asked,
            now,
            n,
        )[id] == now,
        (forall|i: int| 0 <= i < n ==> #[trigger] asked[i] != id) ==> {
            &&& with_answers(map, asked, found, n).dom().contains(id) == map.dom().contains(id)
            &&& map.dom().contains(id) ==> with_answers(map, asked, found, n)[id] == map[id]
            &&& with_times(times, asked, now, n).dom().contains(id) == times.dom().contains(id)
            &&& times.dom().contains(id) ==> with_times(times, asked, now, n)[id] == times[id]
        },
    decreases n,
{
    if n > 0 {
        law_answers_are_taken_over(map, times, asked, found, now, n - 1, id);
        if exists|i: int| 0 <= i < n && #[trigger] asked[i] == id {
            let i = choose|i: int| 0 <= i < n && #[trigger] asked[i] == id;
            if asked[n - 1] != id {
                assert(i < n - 1 && asked[i] == id);
            }
        }
    }
}

/// What is known of a channel is what was answered for it, and of one that was not asked
/// for nothing is.
pub proof fn law_subscription_is_what_was_answered(cache: EngagementCache, id: Seq<char>)
    ensures
        cache.subscription(id) is Some <==> cache.subscribed_channels@.dom().contains(id),
        cache.subscription(id) matches Some(on) ==> on == cache.subscribed_channels@[id],
{
}

/// Of too many channels those go that were confirmed longest ago, as few as have to, and
/// none while there is room; what is known of the others stays. Five hundred are kept.
pub proof fn law_longest_confirmed_channel_goes_first(
    subscribed: Map<Seq<char>, bool>,
    confirmed: Map<Seq<char>, u64>,
    max: nat,
    kept_subscribed: Map<Seq<char>, bool>,
    kept_confirmed: Map<Seq<char>, u64>,
    gone: Seq<char>,
    kept: Seq<char>,
)
    requires
        is_evicted(subscribed, confirmed, max, kept_subscribed, kept_confirmed),
    ensures
        confirmed.dom().contains(gone) && !kept_confirmed.dom().contains(gone)
            && kept_confirmed.dom().contains(kept) ==> confirmed[gone] <= confirmed[kept],
        subscribed.dom().len() <= max ==> kept_subscribed == subscribed && kept_confirmed
            == confirmed,
        kept_subscribed.dom().contains(kept) ==> subscribed.dom().contains(kept)
            && kept_subscribed[kept] == subscribed[kept],
        kept_confirmed.dom().contains(kept) ==> confirmed.dom().contains(kept)
            && kept_confirmed[kept] == confirmed[kept],
        subscribed.dom().len() > max ==> kept_subscribed.dom().len() >= max,
        MAX_CHANNELS == 500,
{
    let out = confirmed.dom().difference(kept_confirmed.dom());
    if confirmed.dom().contains(gone) && !kept_confirmed.dom().contains(gone)
        && kept_confirmed.dom().contains(kept) {
        assert(out.contains(gone));
        assert(confirmed[gone] <= confirmed[kept]);
    }
    if subscribed.dom().len() <= max {
        assert(kept_subscribed =~= subscribed);
        assert(kept_confirmed =~= confirmed);
    }
}

/// A number of seconds is a time a thousand times as large, and is read back from it.
pub proof fn law_seconds_are_thousands(secs: u64)
    ensures
        secs * 1000 <= u64::MAX ==> time_of(secs) == secs * 1000 && time_of(secs) / 1000 == secs,
        secs * 1000 > u64::MAX ==> time_of(secs) == u64::MAX,
{
}

/// The pairs of a file make a map in which the last pair of a name counts.
pub proof fn law_last_pair_counts<V>(pairs: Seq<(String, V)>, n: int, i: int)
    requires
        0 <= n <= pairs.len(),
    ensures
        0 <= i < n && (forall|j: int| i < j < n ==> (#[trigger] pairs[j]).0@ != pairs[i].0@)
            ==> map_of(pairs, n).dom().contains(pairs[i].0@) && map_of(pairs, n)[pairs[i].0@]
            == pairs[i].1,
        forall|name: Seq<char>| #[trigger]
            map_of(pairs, n).dom().contains(name) ==> exists|j: int|
                0 <= j < n && (#[trigger] pairs[j]).0@ == name,
    decreases n,
{
    if n > 0 {
        law_last_pair_counts(pairs, n - 1, i);
        assert forall|name: Seq<char>| #[trigger] map_of(pairs, n).dom().contains(name) implies
            exists|j: int| 0 <= j < n && (#[trigger] pairs[j]).0@ == name by {
            if name == pairs[n - 1].0@ {
                assert(pairs[n - 1].0@ == name);
            } else {
                assert(map_of(pairs, n - 1).dom().contains(name));
            }
        }
    }
}

/// A cache without anything in it knows of no like and of no channel.
pub proof fn law_empty_cache_knows_nothing(cache: EngagementCache, id: Seq<char>)
    requires
        cache.none(),
    ensures
        !cache.liked_videos@.contains(id),
        cache.subscription(id) is None,
        cache.liked_last_confirmed is None,
        !cache.channel_last_confirmed@.dom().contains(id),
{
}

/// The file holds each like once it is liked and no other, in the order of the texts, and
/// tells times in whole seconds.
pub proof fn law_file_holds_the_likes_in_order(
    file: EngagementFile,
    cache: EngagementCache,
    i: int,
    j: int,
)
    requires
        is_file_of(file, cache),
        0 <= i <= j < file.liked_videos@.len(),
    ensures
        crate::text::text_le(file.liked_videos@[i]@, file.liked_videos@[j]@),
        cache.liked_videos@.contains(file.liked_videos@[i]@),
        cache.liked_last_confirmed is None <==> file.liked_last_confirmed is None,
        cache.liked_last_confirmed matches Some(time) ==> file.liked_last_confirmed == Some(
            (time / 1000) as u64,
        ),
{
    let list = texts(file.liked_videos@);
    assert(list[i] == file.liked_videos@[i]@ && list[j] == file.liked_videos@[j]@);
    assert(list.to_set().contains(list[i]));
}

} // verus!
