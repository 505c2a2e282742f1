//! Where videos were left, to go on from there. Times are milliseconds.

use crate::text::same;
use vstd::prelude::*;
use vstd::string::*;

verus! {

/// A shorter video is started anew.
pub const MIN_DURATION: u64 = 60_000;

/// What was left this soon is started anew.
pub const MIN_POSITION: u64 = 10_000;

/// How many places are kept.
pub const RESUME_CAPACITY: usize = 500;

/// Where one video was left.
#[derive(Debug, PartialEq, Eq)]
pub struct Place {
    pub id: String,
    pub at: u64,
}

/// The places where videos were left, the one left last at the end.
#[derive(Debug, PartialEq, Eq)]
pub struct ResumeBook {
    pub places: Vec<Place>,
}

/// A place is worth keeping: the video is long enough, and it was left neither at its
/// beginning nor within its last twentieth.
pub open spec fn worth_keeping(position: u64, duration: u64) -> bool {
    &&& duration >= MIN_DURATION
    &&& position >= MIN_POSITION
    &&& position < duration - duration / 20
}

/// Where the video was left, as the list says.
pub open spec fn place_of(places: Seq<(Seq<char>, u64)>, id: Seq<char>) -> Option<u64>
    decreases places.len(),
{
    if places.len() == 0 {
        None
    } else if places.last().0 == id {
        Some(places.last().1)
    } else {
        place_of(places.drop_last(), id)
    }
}

/// The list without that video.
pub open spec fn without(places: Seq<(Seq<char>, u64)>, id: Seq<char>) -> Seq<(Seq<char>, u64)>
    decreases places.len(),
{
    if places.len() == 0 {
        places
    } else if places.last().0 == id {
        without(places.drop_last(), id)
    } else {
        without(places.drop_last(), id).push(places.last())
    }
}

/// The list with at most as many places as are kept: the oldest goes.
pub open spec fn within_capacity(places: Seq<(Seq<char>, u64)>) -> Seq<(Seq<char>, u64)> {
    if places.len() > RESUME_CAPACITY {
        places.skip(1)
    } else {
        places
    }
}

impl View for ResumeBook {
    type V = Seq<(Seq<char>, u64)>;

    open spec fn view(&self) -> Seq<(Seq<char>, u64)> {
        Seq::new(self.places@.len(), |i: int| (self.places@[i].id@, self.places@[i].at))
    }
}

impl Default for ResumeBook {
    fn default() -> (r: Self)
        ensures
            r.wf(),
            r@.len() == 0,
    {
        ResumeBook { places: Vec::new() }
    }
}

impl ResumeBook {
    pub open spec fn wf(self) -> bool {
        self.places@.len() <= RESUME_CAPACITY
    }

    /// What is kept where a video was left at that place.
    pub open spec fn remembered(self, id: Seq<char>, position: u64, duration: u64) -> Seq<
        (Seq<char>, u64),
    > {
        if worth_keeping(position, duration) {
            within_capacity(without(self@, id).push((id, position)))
        } else {
            without(self@, id)
        }
    }

    /// Drops the place of a video.
    pub fn forget(&mut self, id: &str)
        ensures
            final(self)@ == without(old(self)@, id@),
            final(self).places@.len() <= old(self).places@.len(),
    {
        let mut kept: Vec<Place> = Vec::new();
        for i in 0..self.places.len()
            invariant
                *self == *old(self),
                kept@.len() <= i,
                (ResumeBook { places: kept })@ == without(self@.take(i as int), id@),
        {
            let ghost before = ResumeBook { places: kept };
            assert(self@.take(i + 1).drop_last() =~= self@.take(i as int));
            assert(self@.take(i + 1).last() == self@[i as int]);
            let place = &self.places[i];
            if !same(place.id.as_str(), id) {
                kept.push(Place { id: place.id.clone(), at: place.at });
                assert((ResumeBook { places: kept })@ =~= before@.push(self@[i as int]));
            }
        }
        assert(self@.take(self@.len() as int) =~= self@);
        self.places = kept;
    }

    pub fn remember(&mut self, id: &str, position: u64, duration: u64)
        requires
            old(self).wf(),
        ensures
            final(self).wf(),
            final(self)@ == old(self).remembered(id@, position, duration),
    {
        self.forget(id);
        if duration >= MIN_DURATION && position >= MIN_POSITION && position < duration - duration
            / 20 {
            let ghost before = *self;
            self.places.push(Place { id: id.to_owned(), at: position });
            assert(self@ =~= before@.push((id@, position)));
            if self.places.len() > RESUME_CAPACITY {
                let ghost full = *self;
                self.places.remove(0);
                assert(self@ =~= full@.skip(1));
            }
        }
    }

    pub fn lookup(&self, id: &str) -> (r: Option<u64>)
        ensures
            r == place_of(self@, id@),
    {
        let mut n: usize = self.places.len();
        assert(self@.take(n as int) =~= self@);
        while n > 0
            invariant
                n <= self.places@.len(),
                place_of(self@, id@) == place_of(self@.take(n as int), id@),
            decreases n,
        {
            n -= 1;
            assert(self@.take(n + 1).drop_last() =~= self@.take(n as int));
            assert(self@.take(n + 1).last() == self@[n as int]);
            if same(self.places[n].id.as_str(), id) {
                return Some(self.places[n].at);
            }
        }
        None
    }
}

proof fn lemma_without(places: Seq<(Seq<char>, u64)>, id: Seq<char>, other: Seq<char>)
    ensures
        place_of(without(places, id), other) == (if other == id {
            None
        } else {
            place_of(places, other)
        }),
    decreases places.len(),
{
    if places.len() > 0 {
        lemma_without(places.drop_last(), id, other);
        let rest = without(places.drop_last(), id);
        assert(rest.push(places.last()).drop_last() =~= rest);
    }
}

/// What was worth keeping is found again, and what was not is not found.
pub proof fn law_left_place_is_found_again(
    book: ResumeBook,
    id: Seq<char>,
    position: u64,
    duration: u64,
)
    ensures
        place_of(book.remembered(id, position, duration), id) == (if worth_keeping(
            position,
            duration,
        ) {
            Some(position)
        } else {
            None
        }),
{
    lemma_without(book@, id, id);
}

/// While there is room, leaving one video keeps the places of the others.
pub proof fn law_other_places_are_kept(
    book: ResumeBook,
    id: Seq<char>,
    position: u64,
    duration: u64,
    other: Seq<char>,
)
    requires
        book@.len() < RESUME_CAPACITY,
        other != id,
    ensures
        place_of(book.remembered(id, position, duration), other) == place_of(book@, other),
{
    lemma_without(book@, id, other);
    lemma_without_length(book@, id);
    let rest = without(book@, id);
    assert(rest.push((id, position)).drop_last() =~= rest);
}

proof fn lemma_without_length(places: Seq<(Seq<char>, u64)>, id: Seq<char>)
    ensures
        without(places, id).len() <= places.len(),
    decreases places.len(),
{
    if places.len() > 0 {
        lemma_without_length(places.drop_last(), id);
    }
}

/// The book never holds more than it may.
pub proof fn law_book_stays_within_its_capacity(
    book: ResumeBook,
    id: Seq<char>,
    position: u64,
    duration: u64,
)
    requires
        book.wf(),
    ensures
        book.remembered(id, position, duration).len() <= RESUME_CAPACITY,
{
    lemma_without_length(book@, id);
}

/// A place is kept just where the video lasts a minute or more and was left after its
/// first ten seconds and before its last twentieth. Where it is not kept, the video
/// starts anew, whatever was kept of it before.
pub proof fn law_last_twentieth_starts_anew(
    book: ResumeBook,
    id: Seq<char>,
    position: u64,
    duration: u64,
)
    ensures
        place_of(book.remembered(id, position, duration), id) == Some(position) <==> duration
            >= 60_000 && position >= 10_000 && 20 * position < 19 * duration,
        place_of(book.remembered(id, position, duration), id) is None <==> duration < 60_000
            || position < 10_000 || 20 * position >= 19 * duration,
{
    law_left_place_is_found_again(book, id, position, duration);
}

/// A place is found where the list has one for the video, and then the one that was put
/// there last.
pub proof fn law_latest_place_is_found(places: Seq<(Seq<char>, u64)>, id: Seq<char>)
    ensures
        place_of(places, id) is None <==> forall|i: int|
            0 <= i < places.len() ==> (#[trigger] places[i]).0 != id,
        place_of(places, id) matches Some(at) ==> exists|i: int|
            {
                &&& 0 <= i < places.len()
                &&& #[trigger] places[i] == (id, at)
                &&& forall|j: int| i < j < places.len() ==> (#[trigger] places[j]).0 != id
            },
    decreases places.len(),
{
    if places.len() > 0 {
        let rest = places.drop_last();
        let end = places.len() - 1;
        if places[end].0 == id {
            assert(places[end] == (id, places[end].1));
        } else {
            law_latest_place_is_found(rest, id);
            if place_of(rest, id) is None {
                assert forall|i: int| 0 <= i < places.len() implies (#[trigger] places[i]).0
                    != id by {
                    if i < end {
                        assert(rest[i].0 != id);
                    }
                }
            } else {
                let at = place_of(rest, id)->0;
                let i = choose|i: int|
                    {
                        &&& 0 <= i < rest.len()
                        &&& #[trigger] rest[i] == (id, at)
                        &&& forall|j: int| i < j < rest.len() ==> (#[trigger] rest[j]).0 != id
                    };
                assert(places[i] == (id, at));
                assert forall|j: int| i < j < places.len() implies (#[trigger] places[j]).0
                    != id by {
                    if j < end {
                        assert(rest[j].0 != id);
                    }
                }
            }
        }
    }
}

/// A video that is forgotten has no place any more, and the others keep theirs.
pub proof fn law_forgetting_drops_one_video(
    places: Seq<(Seq<char>, u64)>,
    id: Seq<char>,
    other: Seq<char>,
)
    ensures
        place_of(without(places, id), id) is None,
        other != id ==> place_of(without(places, id), other) == place_of(places, other),
        without(places, id).len() <= places.len(),
        place_of(places, id) is None ==> without(places, id) == places,
    decreases places.len(),
{
    lemma_without(places, id, id);
    lemma_without(places, id, other);
    lemma_without_length(places, id);
    if places.len() > 0 && place_of(places, id) is None {
        law_forgetting_drops_one_video(places.drop_last(), id, other);
        assert(places.drop_last().push(places.last()) =~= places);
    }
}

/// What is kept stands last. Where the book was full, the place that was kept longest
/// goes, and all the others move up.
pub proof fn law_longest_kept_goes_first(
    book: ResumeBook,
    id: Seq<char>,
    position: u64,
    duration: u64,
    i: int,
)
    requires
        duration >= 60_000,
        position >= 10_000,
        20 * position < 19 * duration,
    ensures
        book.remembered(id, position, duration).len() > 0,
        book.remembered(id, position, duration).last() == (id, position),
        book@.len() == 500 && place_of(book@, id) is None ==> book.remembered(
            id,
            position,
            duration,
        ).len() == 500,
        book@.len() == 500 && place_of(book@, id) is None && 0 <= i < 499 ==> book.remembered(
            id,
            position,
            duration,
        )[i] == book@[i + 1],
        book@.len() < 500 && place_of(book@, id) is None ==> book.remembered(
            id,
            position,
            duration,
        ) == book@.push((id, position)),
{
    lemma_without_length(book@, id);
    law_forgetting_drops_one_video(book@, id, id);
}

} // verus!
