//! What runs besides the screen: the player, the tasks in the background, and the
//! searches that are kept. Times are milliseconds.

use crate::app::{bump, bumped, App};
use crate::collections::TextMap;
use crate::cookies::{ChannelTab, Feed, Target};
use crate::mpv::flag_text;
use crate::oauth;
use crate::search::{copy_results, SearchResult};
use crate::text::{decimal, is_digit, joined, law_numbers_read_back, lemma_decimal, number, texts};
use vstd::prelude::*;
use vstd::string::*;

verus! {

/// How many searches are kept: enough for every tab with and without cookies.
pub const CACHE_CAPACITY: usize = 64;

/// What a search found, and when.
#[derive(Debug, PartialEq, Eq)]
pub struct CacheEntry {
    pub results: Vec<SearchResult>,
    pub fetched_at: u64,
}

/// The running player.
#[derive(Debug, Clone, Copy, PartialEq, Eq, Structural)]
pub struct Player {
    pub nonce: u64,
}

/// What runs. Each kind of task has a number that moves on when a task is given up, so
/// that an answer that still comes is known to be late. A flag tells whether a task of
/// that kind is wanted.
#[derive(Debug, PartialEq, Eq)]
pub struct Session {
    pub player: Option<Player>,
    pub player_nonce: u64,
    pub search_nonce: u64,
    pub search_task: bool,
    /// Goes by the number of the search.
    pub thumbs_task: bool,
    pub comments_task: bool,
    pub comments_nonce: u64,
    /// Finds the channel of one video.
    pub channel_lookup_task: bool,
    pub channel_lookup_nonce: u64,
    /// Sends in the name of the user.
    pub oauth_task: bool,
    pub oauth_nonce: u64,
    /// What is being sent, to be remembered once it was.
    pub oauth_action: Option<oauth::Action>,
    /// Goes by the number of the search.
    pub engagement_task: bool,
    pub download_task: bool,
    pub download_nonce: u64,
    /// The latest size of the terminal, and when the picture is to follow it.
    pub pending_resize: Option<(u16, u16)>,
    pub resize_at: Option<u64>,
    /// Images have to be taken off the terminal.
    pub owe_clear: bool,
    pub search_cache: TextMap<CacheEntry>,
    /// What the running search is kept under.
    pub pending_cache_key: Option<String>,
}

impl Session {
    pub open spec fn wf(self) -> bool {
        self.search_cache.wf()
    }

    /// Nothing runs, and nothing ran.
    pub open spec fn is_new(self) -> bool {
        &&& self == (Session {
            player: None,
            player_nonce: 0,
            search_nonce: 0,
            search_task: false,
            thumbs_task: false,
            comments_task: false,
            comments_nonce: 0,
            channel_lookup_task: false,
            channel_lookup_nonce: 0,
            oauth_task: false,
            oauth_nonce: 0,
            oauth_action: None,
            engagement_task: false,
            download_task: false,
            download_nonce: 0,
            pending_resize: None,
            resize_at: None,
            owe_clear: false,
            search_cache: self.search_cache,
            pending_cache_key: None,
        })
        &&& self.search_cache@ == Map::<Seq<char>, CacheEntry>::empty()
    }
}

impl Default for Session {
    fn default() -> (r: Self)
        ensures
            r.wf(),
            r.is_new(),
    {
        Session {
            player: None,
            player_nonce: 0,
            search_nonce: 0,
            search_task: false,
            thumbs_task: false,
            comments_task: false,
            comments_nonce: 0,
            channel_lookup_task: false,
            channel_lookup_nonce: 0,
            oauth_task: false,
            oauth_nonce: 0,
            oauth_action: None,
            engagement_task: false,
            download_task: false,
            download_nonce: 0,
            pending_resize: None,
            resize_at: None,
            owe_clear: false,
            search_cache: TextMap::new(),
            pending_cache_key: None,
        }
    }
}

// ---- the key of a search ----

/// A text as `Debug` writes it: in quotes, with what is special escaped.
pub uninterp spec fn debug_text(text: Seq<char>) -> Seq<char>;

/// The `Debug` form of a text. Which characters it escapes is not restated here, nor that
/// no two texts have the same form: the documentation does not say so.
#[verifier::external_body]
fn debugged(text: &str) -> (r: String)
    ensures
        r@ == debug_text(text@),
{
    format!("{text:?}")
}

/// The words or the id that a target names; a feed names none.
pub open spec fn named_by(target: Target) -> Seq<char> {
    match target {
        Target::Search(query) => query@,
        Target::Feed(_) => seq![],
        Target::Channel { id, .. } => id@,
    }
}

pub open spec fn feed_word(feed: Feed) -> Seq<char> {
    match feed {
        Feed::Recommended => "Recommended"@,
        Feed::History => "History"@,
        Feed::Subscriptions => "Subscriptions"@,
        Feed::WatchLater => "WatchLater"@,
    }
}

pub open spec fn tab_word(tab: ChannelTab) -> Seq<char> {
    match tab {
        ChannelTab::Videos => "Videos"@,
        ChannelTab::Shorts => "Shorts"@,
        ChannelTab::Streams => "Streams"@,
    }
}

/// A target in the key of a search, given what it names in quotes.
pub open spec fn target_text(target: Target, quoted: Seq<char>) -> Seq<char> {
    match target {
        Target::Search(_) => "Search("@ + quoted + ")"@,
        Target::Feed(feed) => "Feed("@ + feed_word(feed) + ")"@,
        Target::Channel { tab, .. } => "Channel { id: "@ + quoted + (", tab: "@ + tab_word(tab)
            + " }"@),
    }
}

/// The key of a search, given its target.
pub open spec fn key_text(target: Seq<char>, limit: nat, used_cookies: bool) -> Seq<char> {
    target + ("|"@ + decimal(limit) + ("|"@ + flag_text(used_cookies)))
}

/// The key of a search: its target, how many results it asks for, and whether with
/// cookies.
pub open spec fn search_key(target: Target, limit: usize, used_cookies: bool) -> Seq<char> {
    key_text(target_text(target, debug_text(named_by(target))), limit as nat, used_cookies)
}

pub fn describe_target(target: &Target, quoted: &str) -> (r: String)
    ensures
        r@ == target_text(*target, quoted@),
{
    match target {
        Target::Search(_) => joined("Search(", quoted, ")"),
        Target::Feed(feed) => joined(
            "Feed(",
            match feed {
                Feed::Recommended => "Recommended",
                Feed::History => "History",
                Feed::Subscriptions => "Subscriptions",
                Feed::WatchLater => "WatchLater",
            },
            ")",
        ),
        Target::Channel { tab, .. } => joined(
            "Channel { id: ",
            quoted,
            joined(
                ", tab: ",
                match tab {
                    ChannelTab::Videos => "Videos",
                    ChannelTab::Shorts => "Shorts",
                    ChannelTab::Streams => "Streams",
                },
                " }",
            ).as_str(),
        ),
    }
}

/// The same search has the same key. Cookies change what is found, so they count.
pub fn cache_key(target: &Target, limit: usize, used_cookies: bool) -> (r: String)
    ensures
        r@ == search_key(*target, limit, used_cookies),
{
    let quoted = match target {
        Target::Search(query) => debugged(query.as_str()),
        Target::Feed(_) => String::new(),
        Target::Channel { id, .. } => debugged(id.as_str()),
    };
    let mut cookies = "|".to_owned();
    cookies.append(
        if used_cookies {
            "true"
        } else {
            "false"
        },
    );
    let tail = joined("|", number(limit as u64).as_str(), cookies.as_str());
    let mut out = describe_target(target, quoted.as_str());
    out.append(tail.as_str());
    out
}

/// The end of a key says for itself how many results were asked for, and whether with
/// cookies.
pub proof fn law_keys_tell_searches_apart(
    a: Seq<char>,
    limit_a: u64,
    cookies_a: bool,
    b: Seq<char>,
    limit_b: u64,
    cookies_b: bool,
)
    requires
        key_text(a, limit_a as nat, cookies_a) == key_text(b, limit_b as nat, cookies_b),
    ensures
        a == b,
        limit_a == limit_b,
        cookies_a == cookies_b,
{
    reveal_strlit("true");
    reveal_strlit("false");
    reveal_strlit("|");
    let key = key_text(a, limit_a as nat, cookies_a);
    let n = key.len() as int;
    let da = decimal(limit_a as nat);
    let db = decimal(limit_b as nat);
    lemma_decimal(limit_a as nat);
    lemma_decimal(limit_b as nat);
    let fa = "|"@ + flag_text(cookies_a);
    let fb = "|"@ + flag_text(cookies_b);
    assert(key[n - 2] == fa[fa.len() - 2]);
    assert(key[n - 2] == fb[fb.len() - 2]);
    assert(cookies_a == cookies_b);
    let m = n - fa.len();
    let ka = a + ("|"@ + da);
    let kb = b + ("|"@ + db);
    assert(key =~= ka + fa);
    assert(key =~= kb + fb);
    assert(key.take(m) =~= ka);
    assert(key.take(m) =~= kb);
    if da.len() < db.len() {
        let at = m - da.len() - 1;
        assert(ka[at] == '|');
        assert(kb[at] == db[at - b.len() - 1]);
        assert(is_digit(db[at - b.len() - 1]));
    }
    if db.len() < da.len() {
        let at = m - db.len() - 1;
        assert(kb[at] == '|');
        assert(ka[at] == da[at - a.len() - 1]);
        assert(is_digit(da[at - a.len() - 1]));
    }
    assert(da =~= ka.skip(a.len() as int + 1));
    assert(db =~= kb.skip(b.len() as int + 1));
    assert(a =~= ka.take(a.len() as int));
    assert(b =~= kb.take(b.len() as int));
    law_numbers_read_back(limit_a);
    law_numbers_read_back(limit_b);
}

/// Two targets in keys are told apart by their kind, by the feed or the tab, and by how
/// what they name is written.
pub proof fn law_targets_tell_apart(a: Target, quoted_a: Seq<char>, b: Target, quoted_b: Seq<char>)
    requires
        target_text(a, quoted_a) == target_text(b, quoted_b),
    ensures
        match (a, b) {
            (Target::Search(_), Target::Search(_)) => quoted_a == quoted_b,
            (Target::Feed(x), Target::Feed(y)) => x == y,
            (Target::Channel { tab: x, .. }, Target::Channel { tab: y, .. }) => x == y && quoted_a
                == quoted_b,
            _ => false,
        },
{
    reveal_strlit("Search(");
    reveal_strlit("Feed(");
    reveal_strlit("Channel { id: ");
    reveal_strlit(")");
    reveal_strlit(", tab: ");
    reveal_strlit(" }");
    reveal_strlit("Recommended");
    reveal_strlit("History");
    reveal_strlit("Subscriptions");
    reveal_strlit("WatchLater");
    reveal_strlit("Videos");
    reveal_strlit("Shorts");
    reveal_strlit("Streams");
    let t = target_text(a, quoted_a);
    let n = t.len() as int;
    assert(t[0] == (match a {
        Target::Search(_) => 'S',
        Target::Feed(_) => 'F',
        Target::Channel { .. } => 'C',
    }));
    assert(t[0] == (match b {
        Target::Search(_) => 'S',
        Target::Feed(_) => 'F',
        Target::Channel { .. } => 'C',
    }));
    match (a, b) {
        (Target::Search(_), Target::Search(_)) => {
            assert(quoted_a =~= t.subrange(7, n - 1));
            assert(quoted_b =~= t.subrange(7, n - 1));
        },
        (Target::Feed(x), Target::Feed(y)) => {
            assert(t[5] == feed_word(x)[0]);
            assert(t[5] == feed_word(y)[0]);
        },
        (Target::Channel { tab: x, .. }, Target::Channel { tab: y, .. }) => {
            let ex = ", tab: "@ + tab_word(x) + " }"@;
            let ey = ", tab: "@ + tab_word(y) + " }"@;
            assert(t[n - 4] == ex[ex.len() - 4]);
            assert(t[n - 4] == ey[ey.len() - 4]);
            assert(x == y);
            assert(quoted_a =~= t.subrange(14, n - ex.len()));
            assert(quoted_b =~= t.subrange(14, n - ex.len()));
        },
        _ => {},
    }
}

/// Two targets ask for the same.
pub open spec fn same_target(a: Target, b: Target) -> bool {
    match (a, b) {
        (Target::Search(x), Target::Search(y)) => x@ == y@,
        (Target::Feed(x), Target::Feed(y)) => x == y,
        (Target::Channel { id: x, tab: s }, Target::Channel { id: y, tab: t }) => x@ == y@ && s
            == t,
        _ => false,
    }
}

/// The same search always has the same key. Two searches with the same key ask for as
/// many results, both with cookies or both without; and where what the two name is not
/// written alike unless it is alike, they are the same search.
pub proof fn law_different_searches_have_different_keys(
    a: Target,
    limit_a: usize,
    cookies_a: bool,
    b: Target,
    limit_b: usize,
    cookies_b: bool,
)
    ensures
        same_target(a, b) && limit_a == limit_b && cookies_a == cookies_b ==> search_key(
            a,
            limit_a,
            cookies_a,
        ) == search_key(b, limit_b, cookies_b),
        search_key(a, limit_a, cookies_a) == search_key(b, limit_b, cookies_b) ==> limit_a
            == limit_b && cookies_a == cookies_b,
        (debug_text(named_by(a)) == debug_text(named_by(b)) ==> named_by(a) == named_by(b)) ==> (
        search_key(a, limit_a, cookies_a) == search_key(b, limit_b, cookies_b) <==> same_target(
            a,
            b,
        ) && limit_a == limit_b && cookies_a == cookies_b),
{
    let quoted_a = debug_text(named_by(a));
    let quoted_b = debug_text(named_by(b));
    if search_key(a, limit_a, cookies_a) == search_key(b, limit_b, cookies_b) {
        law_keys_tell_searches_apart(
            target_text(a, quoted_a),
            limit_a as u64,
            cookies_a,
            target_text(b, quoted_b),
            limit_b as u64,
            cookies_b,
        );
        law_targets_tell_apart(a, quoted_a, b, quoted_b);
    }
}

// ---- the searches that are kept ----

/// What was fetched then is still served: it is younger than the time to live.
pub open spec fn is_fresh(fetched_at: u64, ttl: u64, now: u64) -> bool {
    (if now < fetched_at {
        0
    } else {
        now - fetched_at
    }) < ttl
}

fn fresh(fetched_at: u64, ttl: u64, now: u64) -> (r: bool)
    ensures
        r == is_fresh(fetched_at, ttl, now),
{
    now.saturating_sub(fetched_at) < ttl
}

/// The search under that key is kept and still served.
pub open spec fn is_served(
    cache: Map<Seq<char>, CacheEntry>,
    key: Seq<char>,
    ttl: u64,
    now: u64,
) -> bool {
    cache.dom().contains(key) && is_fresh(cache[key].fetched_at, ttl, now)
}

/// The searches besides the one under that key that are still served.
pub open spec fn others_served(
    cache: Map<Seq<char>, CacheEntry>,
    key: Seq<char>,
    ttl: u64,
    now: u64,
) -> Set<Seq<char>> {
    cache.dom().filter(|k: Seq<char>| k != key && is_fresh(cache[k].fetched_at, ttl, now))
}

/// What is kept once a search was remembered: the search itself, and of the others that
/// are still served as many as there is room for, the youngest.
pub open spec fn is_remembered(
    before: Map<Seq<char>, CacheEntry>,
    key: Seq<char>,
    results: Seq<SearchResult>,
    ttl: u64,
    now: u64,
    after: Map<Seq<char>, CacheEntry>,
) -> bool {
    let others = others_served(before, key, ttl, now);
    &&& after.dom().contains(key)
    &&& after[key].results@ == results
    &&& after[key].fetched_at == now
    &&& forall|k: Seq<char>| #[trigger]
        after.dom().contains(k) && k != key ==> others.contains(k) && after[k] == before[k]
    &&& others.len() < CACHE_CAPACITY ==> others.subset_of(after.dom())
    &&& others.len() >= CACHE_CAPACITY ==> after.dom().len() == CACHE_CAPACITY
    &&& forall|a: Seq<char>, b: Seq<char>|
        others.contains(a) && !after.dom().contains(a) && after.dom().contains(b) && b != key
            ==> #[trigger] before[a].fetched_at <= #[trigger] before[b].fetched_at
}

/// What is kept of a search, while it is still served.
pub fn cached_results(session: &Session, key: &str, ttl: u64, now: u64) -> (r: Option<
    Vec<SearchResult>,
>)
    ensures
        r is Some <==> is_served(session.search_cache@, key@, ttl, now),
        r matches Some(results) ==> results@ == session.search_cache@[key@].results@,
{
    match session.search_cache.entry(key) {
        Some(entry) => if fresh(entry.fetched_at, ttl, now) {
            Some(copy_results(&entry.results))
        } else {
            None
        },
        None => None,
    }
}

/// Takes out what is not served any more.
fn drop_stale(cache: &mut TextMap<CacheEntry>, key: &str, ttl: u64, now: u64)
    requires
        old(cache).wf(),
    ensures
        final(cache).wf(),
        final(cache)@ == old(cache)@.restrict(others_served(old(cache)@, key@, ttl, now)),
{
    let ghost before = cache@;
    let keys = cache.keys();
    let ghost all = texts(keys@);
    let ghost others = others_served(before, key@, ttl, now);
    proof {
        assert(before.dom() == all.to_set());
        assert(cache@ =~= before.remove_keys(all.take(0).to_set().difference(others)));
    }
    for i in 0..keys.len()
        invariant
            cache.wf(),
            all == texts(keys@),
            before.dom() == all.to_set(),
            others == others_served(before, key@, ttl, now),
            cache@ == before.remove_keys(all.take(i as int).to_set().difference(others)),
            all.no_duplicates(),
    {
        let k = keys[i].as_str();
        let ghost held = cache@;
        proof {
            assert(k@ == all[i as int]);
            crate::engagement::lemma_take_set(all, i as int);
            assert(all.to_set().contains(k@));
            assert(!all.take(i as int).to_set().contains(k@)) by {
                if all.take(i as int).to_set().contains(k@) {
                    let j = choose|j: int| 0 <= j < i && all.take(i as int)[j] == k@;
                    assert(all[j] == all[i as int]);
                }
            }
            assert(cache@.dom().contains(k@));
            assert(cache@[k@] == before[k@]);
        }
        let keep: bool = !crate::text::same(k, key) && match cache.entry(k) {
            Some(entry) => fresh(entry.fetched_at, ttl, now),
            None => false,
        };
        if !keep {
            cache.remove(k);
        }
        assert(cache@ =~= before.remove_keys(all.take(i + 1).to_set().difference(others)));
    }
    proof {
        assert(all.take(keys@.len() as int) =~= all);
        assert(cache@ =~= before.restrict(others));
    }
}

/// The search that was fetched longest ago.
fn oldest(cache: &TextMap<CacheEntry>) -> (r: Option<String>)
    requires
        cache.wf(),
    ensures
        cache@.dom().finite(),
        r is None <==> cache@.dom().len() == 0,
        r matches Some(key) ==> cache@.dom().contains(key@) && forall|k: Seq<char>| #[trigger]
            cache@.dom().contains(k) ==> cache@[key@].fetched_at <= cache@[k].fetched_at,
{
    let size: usize = cache.len();
    let keys = cache.keys();
    let ghost all = texts(keys@);
    if size == 0 {
        return None;
    }
    proof {
        all.unique_seq_to_set();
        assert(all.len() > 0);
    }
    let mut best: usize = 0;
    let mut least: u64 = u64::MAX;
    for i in 0..keys.len()
        invariant
            all == texts(keys@),
            all.to_set() == cache@.dom(),
            best < keys@.len(),
            i == 0 ==> least == u64::MAX && best == 0,
            i > 0 ==> cache@[all[best as int]].fetched_at == least,
            forall|j: int| 0 <= j < i ==> least <= cache@[#[trigger] all[j]].fetched_at,
    {
        let k = keys[i].as_str();
        proof {
            assert(k@ == all[i as int]);
            assert(all.to_set().contains(all[i as int]));
        }
        match cache.entry(k) {
            Some(entry) => {
                if i == 0 || entry.fetched_at < least {
                    best = i;
                    least = entry.fetched_at;
                }
            },
            None => {},
        }
    }
    proof {
        assert(all.to_set().contains(all[best as int]));
        assert forall|k: Seq<char>| #[trigger] cache@.dom().contains(k) implies cache@[keys@[best
            as int]@].fetched_at <= cache@[k].fetched_at by {
            let j = choose|j: int| 0 <= j < all.len() && all[j] == k;
            assert(least <= cache@[all[j]].fetched_at);
        }
    }
    Some(keys[best].clone())
}

/// Keeps what a search found, if it is to be kept. The search that it replaces takes no
/// room.
pub fn remember_search(session: &mut Session, results: &Vec<SearchResult>, ttl: u64, now: u64)
    requires
        old(session).wf(),
    ensures
        final(session).wf(),
        *final(session) == (Session {
            pending_cache_key: None,
            search_cache: final(session).search_cache,
            ..*old(session)
        }),
        match old(session).pending_cache_key {
            None => final(session).search_cache == old(session).search_cache,
            Some(key) => is_remembered(
                old(session).search_cache@,
                key@,
                results@,
                ttl,
                now,
                final(session).search_cache@,
            ),
        },
{
    let key = match session.pending_cache_key.take() {
        Some(key) => key,
        None => {
            return ;
        },
    };
    let ghost before = session.search_cache@;
    let ghost others = others_served(before, key@, ttl, now);
    drop_stale(&mut session.search_cache, key.as_str(), ttl, now);
    proof {
        session.search_cache.lemma_finite();
        assert(before.restrict(others).dom() =~= others);
        assert(session.search_cache@.dom() == others);
    }
    while session.search_cache.len() >= CACHE_CAPACITY
        invariant
            session.search_cache.wf(),
            session.search_cache@.dom().finite(),
            others == others_served(before, key@, ttl, now),
            *session == (Session {
                pending_cache_key: None,
                search_cache: session.search_cache,
                ..*old(session)
            }),
            session.search_cache@.dom().subset_of(others),
            forall|k: Seq<char>| #[trigger]
                session.search_cache@.dom().contains(k) ==> session.search_cache@[k] == before[k],
            others.len() < CACHE_CAPACITY ==> session.search_cache@.dom() == others,
            others.len() >= CACHE_CAPACITY ==> session.search_cache@.dom().len() >= CACHE_CAPACITY
                - 1,
            forall|a: Seq<char>, b: Seq<char>|
                others.contains(a) && !session.search_cache@.dom().contains(a)
                    && session.search_cache@.dom().contains(b) ==> #[trigger] before[a].fetched_at
                    <= #[trigger] before[b].fetched_at,
        ensures
            session.search_cache@.dom().len() < CACHE_CAPACITY,
        decreases session.search_cache@.dom().len(),
    {
        let ghost held = session.search_cache@;
        let first = match oldest(&session.search_cache) {
            Some(first) => first,
            None => {
                break ;
            },
        };
        session.search_cache.remove(first.as_str());
        proof {
            assert(session.search_cache@.dom() =~= held.dom().remove(first@));
            assert forall|a: Seq<char>, b: Seq<char>|
                others.contains(a) && !session.search_cache@.dom().contains(a)
                    && session.search_cache@.dom().contains(b) implies #[trigger] before[a].fetched_at
                <= #[trigger] before[b].fetched_at by {
                assert(held.dom().contains(b));
                if a == first@ {
                    assert(held[a].fetched_at <= held[b].fetched_at);
                }
            }
        }
    }
    let ghost held = session.search_cache@;
    let entry = CacheEntry { results: copy_results(results), fetched_at: now };
    session.search_cache.insert(key.as_str(), entry);
    proof {
        assert(!held.dom().contains(key@));
        assert(session.search_cache@.dom() =~= held.dom().insert(key@));
    }
}

/// However many searches there are, no more than a fixed number of them is kept.
pub proof fn law_cache_stays_within_its_capacity(
    before: Map<Seq<char>, CacheEntry>,
    key: Seq<char>,
    results: Seq<SearchResult>,
    ttl: u64,
    now: u64,
    after: Map<Seq<char>, CacheEntry>,
)
    requires
        before.dom().finite(),
        is_remembered(before, key, results, ttl, now, after),
    ensures
        after.dom().len() <= CACHE_CAPACITY,
{
    let others = others_served(before, key, ttl, now);
    if others.len() < CACHE_CAPACITY {
        assert(after.dom() =~= others.insert(key));
    }
}

/// A search that was remembered is served with what it found until its time to live has
/// passed, and not after.
pub proof fn law_remembered_search_is_served(
    before: Map<Seq<char>, CacheEntry>,
    key: Seq<char>,
    results: Seq<SearchResult>,
    ttl: u64,
    now: u64,
    after: Map<Seq<char>, CacheEntry>,
    later: u64,
)
    requires
        is_remembered(before, key, results, ttl, now, after),
        now <= later,
    ensures
        is_served(after, key, ttl, later) <==> later - now < ttl,
        after[key].results@ == results,
{
}

// ---- giving tasks up ----

/// The session once the search for a channel was given up.
pub open spec fn lookup_cancelled(session: Session) -> Session {
    Session {
        channel_lookup_task: false,
        channel_lookup_nonce: bumped(session.channel_lookup_nonce),
        ..session
    }
}

/// The session once what was being sent was given up.
pub open spec fn oauth_cancelled(session: Session) -> Session {
    Session {
        oauth_task: false,
        oauth_action: None,
        oauth_nonce: bumped(session.oauth_nonce),
        ..session
    }
}

/// The session once the search was given up, and with it what hangs on the list: the
/// search for a channel, and what is being sent, whose notice goes too.
pub open spec fn search_cancelled(session: Session) -> Session {
    oauth_cancelled(
        lookup_cancelled(
            Session {
                search_task: false,
                search_nonce: bumped(session.search_nonce),
                pending_cache_key: None,
                ..session
            },
        ),
    )
}

/// The application once the search was given up.
pub open spec fn without_search(app: App) -> App {
    App { searching: false, notice: None, notice_until: None, ..app }
}

pub open spec fn comments_cancelled(session: Session) -> Session {
    Session {
        comments_task: false,
        comments_nonce: bumped(session.comments_nonce),
        ..session
    }
}

pub open spec fn download_cancelled(session: Session) -> Session {
    Session {
        download_task: false,
        download_nonce: bumped(session.download_nonce),
        ..session
    }
}

pub fn cancel_channel_lookup(session: &mut Session)
    ensures
        *final(session) == lookup_cancelled(*old(session)),
{
    session.channel_lookup_task = false;
    session.channel_lookup_nonce = bump(session.channel_lookup_nonce);
}

pub fn cancel_oauth(session: &mut Session)
    ensures
        *final(session) == oauth_cancelled(*old(session)),
{
    session.oauth_task = false;
    session.oauth_action = None;
    session.oauth_nonce = bump(session.oauth_nonce);
}

/// Gives the running search up. Its answer, if it still comes, is dropped.
pub fn cancel_search(app: &mut App, session: &mut Session)
    ensures
        *final(app) == without_search(*old(app)),
        *final(session) == search_cancelled(*old(session)),
{
    session.search_task = false;
    session.search_nonce = bump(session.search_nonce);
    session.pending_cache_key = None;
    app.searching = false;
    app.set_notice(None);
    cancel_channel_lookup(session);
    cancel_oauth(session);
}

pub fn cancel_comments(session: &mut Session)
    ensures
        *final(session) == comments_cancelled(*old(session)),
{
    session.comments_task = false;
    session.comments_nonce = bump(session.comments_nonce);
}

pub fn cancel_download(session: &mut Session)
    ensures
        *final(session) == download_cancelled(*old(session)),
{
    session.download_task = false;
    session.download_nonce = bump(session.download_nonce);
}

/// What was given up is told by its number: an answer that carries the number from
/// before is late.
pub proof fn law_late_answers_are_told(session: Session)
    ensures
        search_cancelled(session).search_nonce != session.search_nonce,
        search_cancelled(session).channel_lookup_nonce != session.channel_lookup_nonce,
        search_cancelled(session).oauth_nonce != session.oauth_nonce,
        lookup_cancelled(session).channel_lookup_nonce != session.channel_lookup_nonce,
        oauth_cancelled(session).oauth_nonce != session.oauth_nonce,
        comments_cancelled(session).comments_nonce != session.comments_nonce,
        download_cancelled(session).download_nonce != session.download_nonce,
{
}

/// A search that was given up is not kept, whatever it would have found.
pub proof fn law_cancelled_search_is_not_kept(session: Session)
    ensures
        search_cancelled(session).pending_cache_key is None,
        search_cancelled(session).search_cache == session.search_cache,
{
}

/// What was fetched is served for as long as its time to live, and a clock that went back
/// does not end that.
pub proof fn law_search_is_fresh_for_its_time(fetched_at: u64, ttl: u64, now: u64)
    ensures
        fetched_at <= now < fetched_at + ttl ==> is_fresh(fetched_at, ttl, now),
        now >= fetched_at + ttl ==> !is_fresh(fetched_at, ttl, now),
        now < fetched_at && ttl > 0 ==> is_fresh(fetched_at, ttl, now),
{
}

/// While there is room a search that is still served stays, with what it found; one that is
/// not goes, and nothing is kept that was not there.
pub proof fn law_kept_searches_stay(
    before: Map<Seq<char>, CacheEntry>,
    key: Seq<char>,
    results: Seq<SearchResult>,
    ttl: u64,
    now: u64,
    after: Map<Seq<char>, CacheEntry>,
    other: Seq<char>,
)
    requires
        is_remembered(before, key, results, ttl, now, after),
        other != key,
    ensures
        after.dom().contains(other) ==> before.dom().contains(other) && after[other]
            == before[other] && is_fresh(before[other].fetched_at, ttl, now),
        before.dom().finite() && before.dom().len() < CACHE_CAPACITY && before.dom().contains(other)
            && is_fresh(before[other].fetched_at, ttl, now) ==> after.dom().contains(other),
        CACHE_CAPACITY == 64,
{
    let others = others_served(before, key, ttl, now);
    if before.dom().finite() && before.dom().len() < CACHE_CAPACITY {
        assert(others.subset_of(before.dom()));
        vstd::set_lib::lemma_len_subset(others, before.dom());
        if before.dom().contains(other) && is_fresh(before[other].fetched_at, ttl, now) {
            assert(others.contains(other));
        }
    }
}

/// Where there is no room the searches that were fetched longest ago go first.
pub proof fn law_oldest_search_goes_first(
    before: Map<Seq<char>, CacheEntry>,
    key: Seq<char>,
    results: Seq<SearchResult>,
    ttl: u64,
    now: u64,
    after: Map<Seq<char>, CacheEntry>,
    gone: Seq<char>,
    kept: Seq<char>,
)
    requires
        is_remembered(before, key, results, ttl, now, after),
        before.dom().contains(gone),
        gone != key,
        is_fresh(before[gone].fetched_at, ttl, now),
        !after.dom().contains(gone),
        after.dom().contains(kept),
        kept != key,
    ensures
        before[gone].fetched_at <= before[kept].fetched_at,
{
    let others = others_served(before, key, ttl, now);
    assert(others.contains(gone));
    assert(before[gone].fetched_at <= before[kept].fetched_at);
}

/// Giving the search up ends it, what looks for a channel and what is sent, and nothing
/// else: the player, comments, downloads and what is kept go on.
pub proof fn law_giving_up_ends_what_hangs_on_the_list(session: Session)
    ensures
        ({
            let after = search_cancelled(session);
            &&& !after.search_task
            &&& !after.channel_lookup_task
            &&& !after.oauth_task
            &&& after.oauth_action is None
            &&& after.pending_cache_key is None
            &&& after.player == session.player
            &&& after.player_nonce == session.player_nonce
            &&& after.comments_task == session.comments_task
            &&& after.comments_nonce == session.comments_nonce
            &&& after.download_task == session.download_task
            &&& after.download_nonce == session.download_nonce
            &&& after.search_cache == session.search_cache
            &&& after.thumbs_task == session.thumbs_task
            &&& after.engagement_task == session.engagement_task
        }),
{
}

/// Giving one task up ends that one, and the others go on.
pub proof fn law_giving_one_up_leaves_the_others(session: Session)
    ensures
        !lookup_cancelled(session).channel_lookup_task,
        lookup_cancelled(session).search_nonce == session.search_nonce,
        lookup_cancelled(session).search_task == session.search_task,
        !oauth_cancelled(session).oauth_task,
        oauth_cancelled(session).oauth_action is None,
        oauth_cancelled(session).search_nonce == session.search_nonce,
        !comments_cancelled(session).comments_task,
        comments_cancelled(session).search_nonce == session.search_nonce,
        comments_cancelled(session).download_nonce == session.download_nonce,
        comments_cancelled(session).player == session.player,
        !download_cancelled(session).download_task,
        download_cancelled(session).search_nonce == session.search_nonce,
        download_cancelled(session).comments_nonce == session.comments_nonce,
        download_cancelled(session).player == session.player,
{
}

/// Without its search the list is not waited for and the notice is gone; everything else
/// stays as it was.
pub proof fn law_given_up_search_leaves_the_list(app: App)
    ensures
        !without_search(app).searching,
        without_search(app).notice is None,
        without_search(app).notice_until is None,
        without_search(app).list() == app.list(),
        without_search(app).place() == app.place(),
        without_search(app).mode == app.mode,
        without_search(app).error == app.error,
        without_search(app).playback == app.playback,
{
}

/// At first nothing plays, nothing is asked for and no search is kept.
pub proof fn law_session_starts_empty(session: Session, key: Seq<char>)
    requires
        session.is_new(),
    ensures
        !session.search_cache@.dom().contains(key),
        session.player is None,
        session.pending_cache_key is None,
        session.pending_resize is None,
        session.resize_at is None,
        session.oauth_action is None,
        !session.search_task && !session.thumbs_task && !session.comments_task,
        !session.channel_lookup_task && !session.oauth_task && !session.engagement_task,
        !session.download_task,
        !session.owe_clear,
{
}

} // verus!
