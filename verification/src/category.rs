//! The tabs of the search screen. Each stands for a fixed search, but for the first,
//! which takes what is typed.

use crate::cookies::{Feed, Target};
use crate::search::SearchResult;
use crate::text::{trim, trimmed};
use vstd::prelude::*;
use vstd::string::*;

verus! {

/// The tab that is always first, and takes what is typed.
pub const ALL_LABEL: &'static str = "すべて";

#[derive(Debug, PartialEq, Eq)]
pub struct Category {
    pub label: String,
    pub query: String,
}

/// What a category holds: its label and its search.
pub open spec fn category_texts(list: Seq<Category>) -> Seq<(Seq<char>, Seq<char>)> {
    list.map_values(|category: Category| (category.label@, category.query@))
}

impl Category {
    pub fn new(label: &str, query: &str) -> (r: Self)
        ensures
            r.label@ == label@,
            r.query@ == query@,
    {
        Category { label: label.to_owned(), query: query.to_owned() }
    }
}

/// The tabs of someone who set none: five keywords, and the account's lists.
pub open spec fn default_texts() -> Seq<(Seq<char>, Seq<char>)> {
    seq![
        ("音楽"@, "音楽"@),
        ("ゲーム"@, "ゲーム"@),
        ("ニュース"@, "ニュース"@),
        ("アニメ"@, "アニメ"@),
        ("スポーツ"@, "スポーツ"@),
        (Feed::Recommended.name(), Feed::Recommended.word()),
        (Feed::History.name(), Feed::History.word()),
        (Feed::Subscriptions.name(), Feed::Subscriptions.word()),
        (Feed::WatchLater.name(), Feed::WatchLater.word()),
    ]
}

pub fn default_categories() -> (r: Vec<Category>)
    ensures
        category_texts(r@) == default_texts(),
{
    let mut out: Vec<Category> = Vec::new();
    out.push(Category::new("音楽", "音楽"));
    out.push(Category::new("ゲーム", "ゲーム"));
    out.push(Category::new("ニュース", "ニュース"));
    out.push(Category::new("アニメ", "アニメ"));
    out.push(Category::new("スポーツ", "スポーツ"));
    let feeds = Feed::all();
    let ghost head = out@;
    for i in 0..4
        invariant
            feeds@ == seq![
                Feed::Recommended,
                Feed::History,
                Feed::Subscriptions,
                Feed::WatchLater,
            ],
            out@.len() == 5 + i,
            head.len() == 5,
            forall|j: int| 0 <= j < 5 ==> #[trigger] out@[j] == head[j],
            forall|j: int|
                5 <= j < 5 + i ==> (#[trigger] out@[j]).label@ == feeds@[j - 5].name()
                    && out@[j].query@ == feeds@[j - 5].word(),
    {
        out.push(Category::new(feeds[i].label(), feeds[i].keyword()));
    }
    assert(category_texts(out@) =~= default_texts());
    out
}

/// What a tab keeps while another is looked at.
#[derive(Debug, PartialEq, Eq)]
pub struct TabState {
    pub results: Vec<SearchResult>,
    pub selected: usize,
    pub scroll: usize,
    /// An empty list counts as loaded too.
    pub loaded: bool,
    /// The user asked for a fresh list, and it has not come yet.
    pub reload: bool,
    /// How many results the list was asked for with; only searches say so.
    pub requested_limit: usize,
}

impl TabState {
    /// Nothing was loaded yet.
    pub open spec fn is_new(self) -> bool {
        &&& self.results@.len() == 0
        &&& self.selected == 0
        &&& self.scroll == 0
        &&& !self.loaded
        &&& !self.reload
        &&& self.requested_limit == 0
    }
}

impl Default for TabState {
    fn default() -> (r: Self)
        ensures
            r.is_new(),
    {
        TabState {
            results: Vec::new(),
            selected: 0,
            scroll: 0,
            loaded: false,
            reload: false,
            requested_limit: 0,
        }
    }
}

#[derive(Debug, PartialEq, Eq)]
pub struct Tabs {
    pub categories: Vec<Category>,
    pub selected: usize,
    pub states: Vec<TabState>,
    /// The first tab that is drawn. How wide the screen is only the drawing knows.
    pub window: usize,
}

impl Default for Tabs {
    fn default() -> (r: Self)
        ensures
            r.wf(),
            r.is_fresh(),
            category_texts(r.categories@) == seq![(ALL_LABEL@, Seq::<char>::empty())]
                + default_texts(),
    {
        Tabs::with_categories(default_categories())
    }
}

impl Tabs {
    /// There is a tab for all, each tab has its state, and one of them is selected.
    pub open spec fn wf(self) -> bool {
        &&& self.categories@.len() == self.states@.len()
        &&& self.selected < self.categories@.len()
    }

    /// The first tab is selected, and nothing was loaded.
    pub open spec fn is_fresh(self) -> bool {
        &&& self.selected == 0
        &&& self.window == 0
        &&& forall|i: int| 0 <= i < self.states@.len() ==> (#[trigger] self.states@[i]).is_new()
    }

    /// Puts the tab for all in front.
    pub fn with_categories(categories: Vec<Category>) -> (r: Self)
        ensures
            r.wf(),
            r.is_fresh(),
            category_texts(r.categories@) == seq![(ALL_LABEL@, Seq::<char>::empty())]
                + category_texts(categories@),
    {
        let ghost given = categories@;
        let mut categories = categories;
        let mut all: Vec<Category> = Vec::new();
        all.push(Category::new(ALL_LABEL, ""));
        proof {
            reveal_strlit("");
            assert(""@ =~= Seq::<char>::empty());
        }
        all.append(&mut categories);
        assert(category_texts(all@) =~= seq![(ALL_LABEL@, Seq::<char>::empty())] + category_texts(
            given,
        ));
        let mut states: Vec<TabState> = Vec::new();
        for i in 0..all.len()
            invariant
                states@.len() == i,
                forall|j: int| 0 <= j < i ==> (#[trigger] states@[j]).is_new(),
        {
            states.push(TabState::default());
        }
        Tabs { categories: all, selected: 0, states, window: 0 }
    }

    pub fn window(&self) -> (r: usize)
        ensures
            r == self.window,
    {
        self.window
    }

    /// Keeps what was drawn, to move it as little as possible next time.
    pub fn remember_window(&mut self, start: usize)
        ensures
            *final(self) == (Tabs { window: start, ..*old(self) }),
    {
        self.window = start;
    }

    pub open spec fn following(self) -> int {
        next_in(self.selected as int, self.categories@.len() as int)
    }

    pub open spec fn preceding(self) -> int {
        prev_in(self.selected as int, self.categories@.len() as int)
    }

    pub fn next(&mut self)
        requires
            old(self).wf(),
        ensures
            final(self).wf(),
            *final(self) == (Tabs { selected: old(self).following() as usize, ..*old(self) }),
    {
        let last: usize = self.categories.len() - 1;
        proof {
            lemma_round(self.selected as int, self.categories@.len() as int);
        }
        self.selected = if self.selected < last {
            self.selected + 1
        } else {
            0
        };
    }

    pub fn prev(&mut self)
        requires
            old(self).wf(),
        ensures
            final(self).wf(),
            *final(self) == (Tabs { selected: old(self).preceding() as usize, ..*old(self) }),
    {
        let last: usize = self.categories.len() - 1;
        proof {
            lemma_round(self.selected as int, self.categories@.len() as int);
        }
        self.selected = if self.selected > 0 {
            self.selected - 1
        } else {
            last
        };
    }

    /// Selects the tab at a place, where there is one, and says whether it did.
    pub fn select(&mut self, index: usize) -> (r: bool)
        requires
            old(self).wf(),
        ensures
            final(self).wf(),
            r == (index < old(self).categories@.len()),
            *final(self) == (Tabs {
                selected: if r {
                    index
                } else {
                    old(self).selected
                },
                ..*old(self)
            }),
    {
        if index >= self.categories.len() {
            return false;
        }
        self.selected = index;
        true
    }

    pub fn labels(&self) -> (r: Vec<&str>)
        ensures
            r@.len() == self.categories@.len(),
            forall|i: int|
                0 <= i < r@.len() ==> (#[trigger] r@[i])@ == self.categories@[i].label@,
    {
        let mut out: Vec<&str> = Vec::new();
        for i in 0..self.categories.len()
            invariant
                out@.len() == i,
                forall|j: int| 0 <= j < i ==> (#[trigger] out@[j])@ == self.categories@[j].label@,
        {
            out.push(self.categories[i].label.as_str());
        }
        out
    }

    pub fn selected(&self) -> (r: usize)
        ensures
            r == self.selected,
    {
        self.selected
    }

    pub fn is_all(&self) -> (r: bool)
        ensures
            r == (self.selected == 0),
    {
        self.selected == 0
    }

    /// What is typed belongs to the first tab, so a search from there goes back to it.
    pub fn select_all(&mut self)
        requires
            old(self).wf(),
        ensures
            final(self).wf(),
            *final(self) == (Tabs { selected: 0, ..*old(self) }),
    {
        self.selected = 0;
    }

    /// What the selected tab searches for: what is typed, or its own search.
    pub open spec fn search_text(self, query: Seq<char>) -> Seq<char> {
        trimmed(
            if self.selected == 0 {
                query
            } else {
                self.categories@[self.selected as int].query@
            },
        )
    }

    pub fn target(&self, query: &str) -> (r: Option<Target>)
        requires
            self.wf(),
        ensures
            r is Some <==> self.search_text(query@).len() > 0,
            r matches Some(target) ==> target.is_for(self.search_text(query@)),
    {
        let text = if self.selected == 0 {
            trim(query)
        } else {
            trim(self.categories[self.selected].query.as_str())
        };
        if text.as_str().is_empty() {
            None
        } else {
            Some(Target::for_query(text.as_str()))
        }
    }

    pub open spec fn current(self) -> TabState {
        self.states@[self.selected as int]
    }

    /// The same tabs with another state of the selected one.
    pub open spec fn with_current(self, state: TabState, after: Tabs) -> bool {
        &&& after == (Tabs { states: after.states, ..self })
        &&& after.states@ == self.states@.update(self.selected as int, state)
    }

    pub fn state(&self) -> (r: &TabState)
        requires
            self.wf(),
        ensures
            *r == self.current(),
    {
        &self.states[self.selected]
    }

    pub fn state_mut(&mut self) -> (r: &mut TabState)
        requires
            old(self).wf(),
        ensures
            *r == old(self).current(),
            old(self).with_current(*final(r), *final(self)),
    {
        &mut self.states[self.selected]
    }
}

/// The place after `n` of `count`, and round.
pub open spec fn next_in(n: int, count: int) -> int {
    (n + 1) % count
}

/// The place before `n` of `count`, and round.
pub open spec fn prev_in(n: int, count: int) -> int {
    (n + count - 1) % count
}

pub proof fn lemma_round(n: int, count: int)
    requires
        0 <= n < count,
    ensures
        next_in(n, count) == (if n + 1 < count {
            n + 1
        } else {
            0
        }),
        prev_in(n, count) == (if n > 0 {
            n - 1
        } else {
            count - 1
        }),
{
    if n + 1 < count {
        vstd::arithmetic::div_mod::lemma_small_mod((n + 1) as nat, count as nat);
    } else {
        vstd::arithmetic::div_mod::lemma_mod_self_0(count);
    }
    if n > 0 {
        vstd::arithmetic::div_mod::lemma_mod_add_multiples_vanish(n - 1, count);
        vstd::arithmetic::div_mod::lemma_small_mod((n - 1) as nat, count as nat);
    } else {
        vstd::arithmetic::div_mod::lemma_small_mod((count - 1) as nat, count as nat);
    }
}

/// A step back undoes a step forward and the other way round, and no step leaves the
/// row of tabs.
pub proof fn law_tabs_step_back(n: int, count: int)
    requires
        0 <= n < count,
    ensures
        0 <= next_in(n, count) < count,
        0 <= prev_in(n, count) < count,
        prev_in(next_in(n, count), count) == n,
        next_in(prev_in(n, count), count) == n,
{
    lemma_round(n, count);
    lemma_round(next_in(n, count), count);
    lemma_round(prev_in(n, count), count);
}

/// A step goes to the tab beside, and at the ends round to the other end.
pub proof fn law_tabs_go_round(n: int, count: int)
    requires
        0 <= n < count,
    ensures
        n + 1 < count ==> next_in(n, count) - 1 == n,
        n + 1 == count ==> next_in(n, count) == 0,
        n > 0 ==> prev_in(n, count) + 1 == n,
        n == 0 ==> prev_in(n, count) + 1 == count,
{
    lemma_round(n, count);
}

/// The tabs that are selected next and before are those beside the selected one.
pub proof fn law_tabs_beside(tabs: Tabs)
    requires
        tabs.wf(),
    ensures
        tabs.selected + 1 < tabs.categories@.len() ==> tabs.following() == tabs.selected + 1,
        tabs.selected + 1 == tabs.categories@.len() ==> tabs.following() == 0,
        tabs.selected > 0 ==> tabs.preceding() == tabs.selected - 1,
        tabs.selected == 0 ==> tabs.preceding() == tabs.categories@.len() - 1,
{
    lemma_round(tabs.selected as int, tabs.categories@.len() as int);
}

/// The first tab searches for what is typed, and every other for its own, whatever is
/// typed; white space around it does not count.
pub proof fn law_first_tab_takes_what_is_typed(tabs: Tabs, query: Seq<char>, other: Seq<char>)
    ensures
        tabs.selected == 0 ==> tabs.search_text(query) == trimmed(query),
        tabs.selected > 0 ==> tabs.search_text(query) == tabs.search_text(other),
        tabs.selected > 0 ==> tabs.search_text(query) == trimmed(
            tabs.categories@[tabs.selected as int].query@,
        ),
{
}

/// Each tab keeps its own state: changing that of the selected one changes no other.
pub proof fn law_tabs_are_apart(tabs: Tabs, state: TabState, after: Tabs, i: int)
    requires
        tabs.wf(),
        tabs.with_current(state, after),
        0 <= i < tabs.states@.len(),
    ensures
        after.current() == state,
        i != tabs.selected ==> after.states@[i] == tabs.states@[i],
        after.states@.len() == tabs.states@.len(),
        after.selected == tabs.selected,
        after.categories == tabs.categories,
        after.window == tabs.window,
        tabs.current() == tabs.states@[tabs.selected as int],
{
}

/// The tabs of someone who set none: five keywords, each its own search, and then the four
/// lists of the account.
pub proof fn law_default_tabs()
    ensures
        default_texts().len() == 9,
        forall|i: int|
            0 <= i < 5 ==> (#[trigger] default_texts()[i]).0 == default_texts()[i].1,
        default_texts()[0].0 == "音楽"@,
        default_texts()[1].0 == "ゲーム"@,
        default_texts()[2].0 == "ニュース"@,
        default_texts()[3].0 == "アニメ"@,
        default_texts()[4].0 == "スポーツ"@,
        default_texts()[5].1 == ":ytrec"@,
        default_texts()[6].1 == ":ythis"@,
        default_texts()[7].1 == ":ytsubs"@,
        default_texts()[8].1 == ":ytwatchlater"@,
{
}

/// Fresh tabs show the first tab, and no tab has a list yet.
pub proof fn law_fresh_tabs_are_empty(tabs: Tabs, i: int)
    requires
        tabs.is_fresh(),
        0 <= i < tabs.states@.len(),
    ensures
        tabs.selected == 0,
        tabs.window == 0,
        tabs.states@[i].results@.len() == 0,
        tabs.states@[i].selected == 0,
        tabs.states@[i].scroll == 0,
        !tabs.states@[i].loaded,
        !tabs.states@[i].reload,
        tabs.states@[i].requested_limit == 0,
{
}

} // verus!
