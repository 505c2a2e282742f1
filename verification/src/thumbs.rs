//! Which thumbnails are there, and whether they have to be drawn again.

use crate::collections::TextSet;
use crate::text::texts;
use vstd::prelude::*;
use vstd::string::*;

verus! {

#[derive(Debug, PartialEq, Eq)]
pub struct Thumbs {
    /// The videos whose thumbnail was fetched at `px`.
    pub known: TextSet,
    pub px: (u32, u32),
    pub dirty: bool,
    pub fetching: bool,
    /// Why none are fetched any more.
    pub disabled: Option<String>,
}

impl Default for Thumbs {
    fn default() -> (r: Self)
        ensures
            r.wf(),
            r.known@ == Set::<Seq<char>>::empty(),
            r.px == (0u32, 0u32),
            !r.dirty,
            !r.fetching,
            r.disabled is None,
    {
        Thumbs {
            known: TextSet::new(),
            px: (0, 0),
            dirty: false,
            fetching: false,
            disabled: None,
        }
    }
}

/// Those of the first `n` ids that are not known.
pub open spec fn unknown_ids(ids: Seq<Seq<char>>, known: Set<Seq<char>>, n: int) -> Seq<Seq<char>>
    decreases n,
{
    if n <= 0 {
        seq![]
    } else if known.contains(ids[n - 1]) {
        unknown_ids(ids, known, n - 1)
    } else {
        unknown_ids(ids, known, n - 1).push(ids[n - 1])
    }
}

impl Thumbs {
    pub open spec fn wf(self) -> bool {
        self.known.wf()
    }

    /// What is known at that size.
    pub open spec fn known_at(self, px: (u32, u32)) -> Set<Seq<char>> {
        if self.px == px {
            self.known@
        } else {
            Set::empty()
        }
    }

    /// `after` is `self` where the list became that of those videos and was not drawn
    /// yet.
    pub open spec fn reset_to(self, ids: Set<Seq<char>>, after: Thumbs) -> bool {
        &&& after == (Thumbs { known: after.known, dirty: true, ..self })
        &&& after.known@ == self.known@.intersect(ids)
    }

    /// The list changed: what is not on it any more is forgotten.
    pub fn reset(&mut self, ids: &Vec<String>)
        requires
            old(self).wf(),
        ensures
            final(self).wf(),
            final(self).known@ == old(self).known@.intersect(texts(ids@).to_set()),
            *final(self) == (Thumbs { known: final(self).known, ..*old(self) }),
    {
        let mut kept = TextSet::new();
        let ghost all = texts(ids@);
        assert(kept@ =~= self.known@.intersect(all.take(0).to_set()));
        for i in 0..ids.len()
            invariant
                kept.wf(),
                all == texts(ids@),
                *self == *old(self),
                kept@ == self.known@.intersect(all.take(i as int).to_set()),
        {
            let id = ids[i].as_str();
            assert(id@ == all[i as int]);
            if self.known.contains(id) {
                kept.insert(id);
            }
            proof {
                crate::engagement::lemma_take_set(all, i as int);
                assert(kept@ =~= self.known@.intersect(all.take(i + 1).to_set()));
            }
        }
        assert(all.take(ids@.len() as int) =~= all);
        self.known = kept;
    }

    pub fn mark_dirty(&mut self)
        ensures
            *final(self) == (Thumbs { dirty: true, ..*old(self) }),
    {
        self.dirty = true;
    }

    /// Whether they have to be drawn again; asked once.
    pub fn take_dirty(&mut self) -> (r: bool)
        ensures
            r == old(self).dirty,
            *final(self) == (Thumbs { dirty: false, ..*old(self) }),
    {
        let was: bool = self.dirty;
        self.dirty = false;
        was
    }

    pub fn set_fetching(&mut self, fetching: bool)
        ensures
            *final(self) == (Thumbs { fetching, ..*old(self) }),
    {
        self.fetching = fetching;
    }

    pub fn is_fetching(&self) -> (r: bool)
        ensures
            r == self.fetching,
    {
        self.fetching
    }

    /// Thumbnails came at that size. Those of another size are of no use any more, and
    /// the new ones have to be drawn.
    pub fn apply(&mut self, ids: &Vec<String>, px: (u32, u32))
        requires
            old(self).wf(),
        ensures
            final(self).wf(),
            final(self).known@ == old(self).known_at(px).union(texts(ids@).to_set()),
            *final(self) == (Thumbs { known: final(self).known, px, dirty: true, ..*old(self) }),
    {
        if !(self.px.0 == px.0 && self.px.1 == px.1) {
            self.known = TextSet::new();
            self.px = px;
        }
        self.dirty = true;
        let ghost all = texts(ids@);
        let ghost started = *self;
        assert(self.known@ =~= started.known@.union(all.take(0).to_set()));
        for i in 0..ids.len()
            invariant
                self.wf(),
                all == texts(ids@),
                *self == (Thumbs { known: self.known, ..started }),
                self.known@ == started.known@.union(all.take(i as int).to_set()),
        {
            let id = ids[i].as_str();
            assert(id@ == all[i as int]);
            self.known.insert(id);
            proof {
                crate::engagement::lemma_take_set(all, i as int);
                assert(self.known@ =~= started.known@.union(all.take(i + 1).to_set()));
            }
        }
        assert(all.take(ids@.len() as int) =~= all);
    }

    /// None are fetched any more.
    pub fn disable(&mut self, reason: String)
        ensures
            *final(self) == (Thumbs { disabled: Some(reason), ..*old(self) }),
    {
        self.disabled = Some(reason);
    }

    /// The videos of a list whose thumbnails are still to be fetched.
    pub fn wanted(&self, ids: &Vec<String>, px: (u32, u32)) -> (r: Vec<String>)
        ensures
            texts(r@) == unknown_ids(texts(ids@), self.known_at(px), ids@.len() as int),
    {
        let same_size: bool = self.px.0 == px.0 && self.px.1 == px.1;
        let mut out: Vec<String> = Vec::new();
        assert(texts(out@) =~= seq![]);
        for i in 0..ids.len()
            invariant
                same_size == (self.px == px),
                texts(out@) == unknown_ids(texts(ids@), self.known_at(px), i as int),
        {
            let ghost before = out@;
            assert(ids@[i as int]@ == texts(ids@)[i as int]);
            if !(same_size && self.known.contains(ids[i].as_str())) {
                out.push(ids[i].clone());
                assert(texts(out@) =~= texts(before).push(texts(ids@)[i as int]));
            }
        }
        out
    }
}

proof fn lemma_unknown_ids_prefix(a: Seq<Seq<char>>, b: Seq<Seq<char>>, known: Set<Seq<char>>, n: int)
    requires
        0 <= n <= a.len(),
    ensures
        unknown_ids(a + b, known, n) == unknown_ids(a, known, n),
    decreases n,
{
    if n > 0 {
        lemma_unknown_ids_prefix(a, b, known, n - 1);
        assert((a + b)[n - 1] == a[n - 1]);
    }
}

/// What is wanted of two lists, one after the other, is what is wanted of both: in order.
pub proof fn law_wanted_lists_join(a: Seq<Seq<char>>, b: Seq<Seq<char>>, known: Set<Seq<char>>)
    ensures
        unknown_ids(a + b, known, (a + b).len() as int) == unknown_ids(a, known, a.len() as int) + unknown_ids(
            b, known,
            b.len() as int,
        ),
    decreases b.len(),
{
    let n = b.len() as int;
    if n == 0 {
        assert(a + b =~= a);
        assert(unknown_ids(a, known, a.len() as int) + unknown_ids(b, known, 0) =~= unknown_ids(a, known, a.len() as int));
    } else {
        let c = b.drop_last();
        let end = seq![b.last()];
        law_wanted_lists_join(a, c, known);
        assert(a + b =~= (a + c) + end);
        assert(b =~= c + end);
        lemma_unknown_ids_prefix(a + c, end, known, a.len() + n - 1);
        lemma_unknown_ids_prefix(c, end, known, n - 1);
        assert((a + b)[a.len() + n - 1] == b[n - 1]);
        assert(unknown_ids(a + b, known, (a + b).len() as int) =~= unknown_ids(a, known, a.len() as int) + unknown_ids(
            b, known,
            n,
        ));
    }
}

/// A thumbnail is wanted just where it is not known.
pub proof fn law_unknown_is_wanted(id: Seq<char>, known: Set<Seq<char>>)
    ensures
        known.contains(id) ==> unknown_ids(seq![id], known, 1).len() == 0,
        !known.contains(id) ==> unknown_ids(seq![id], known, 1) == seq![id],
{
    reveal_with_fuel(unknown_ids, 2);
    if !known.contains(id) {
        assert(unknown_ids(seq![id], known, 1) =~= seq![id]);
    }
}

/// What is known at one size is not known at another.
pub proof fn law_known_at_one_size(thumbs: Thumbs, px: (u32, u32), id: Seq<char>)
    ensures
        thumbs.known_at(px).contains(id) <==> thumbs.px == px && thumbs.known@.contains(id),
{
}

/// A new list keeps the thumbnails that it shares with the old one, and is to be drawn.
pub proof fn law_shared_thumbnails_are_kept(
    thumbs: Thumbs,
    ids: Set<Seq<char>>,
    after: Thumbs,
    id: Seq<char>,
)
    requires
        thumbs.reset_to(ids, after),
    ensures
        after.known@.contains(id) <==> thumbs.known@.contains(id) && ids.contains(id),
        after.dirty,
        after.px == thumbs.px,
        after.fetching == thumbs.fetching,
        after.disabled == thumbs.disabled,
{
}

} // verus!
