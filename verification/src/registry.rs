//! The saved places: at most one under each tag.

use vstd::prelude::*;
use vstd::string::StringExecFns;
use crate::errors::AppError;
use crate::weather::Coordinates;
use crate::weather::Place;
use crate::weather::PlaceTag;
use crate::weather::PlaceView;

verus! {

/// No two places of `s` have the same tag.
pub open spec fn distinct_tags(s: Seq<PlaceView>) -> bool {
    forall|i: int, j: int| 0 <= i < j < s.len() ==> s[i].tag != s[j].tag
}

/// Whether a place of `s` has the tag.
pub open spec fn has_tag(s: Seq<PlaceView>, tag: Seq<char>) -> bool {
    exists|i: int| 0 <= i < s.len() && #[trigger] s[i].tag == tag
}

/// Where in `s` a place with the tag stands, if one does.
pub open spec fn position_of(s: Seq<PlaceView>, tag: Seq<char>) -> int {
    choose|i: int| 0 <= i < s.len() && #[trigger] s[i].tag == tag
}

/// The places of `s` by their tags.
pub open spec fn as_map(s: Seq<PlaceView>) -> Map<Seq<char>, Coordinates> {
    Map::new(|tag: Seq<char>| has_tag(s, tag), |tag: Seq<char>| s[position_of(s, tag)].coordinates)
}

/// `s` after `p` was saved: in the place of the one with its tag, or at the
/// end where there was none.
pub open spec fn upserted(s: Seq<PlaceView>, p: PlaceView) -> Seq<PlaceView> {
    if has_tag(s, p.tag) {
        s.update(position_of(s, p.tag), p)
    } else {
        s.push(p)
    }
}

/// `s` without the place that has the tag, the others in their order.
pub open spec fn removed(s: Seq<PlaceView>, tag: Seq<char>) -> Seq<PlaceView> {
    if has_tag(s, tag) {
        s.remove(position_of(s, tag))
    } else {
        s
    }
}

/// The places that are kept of a list: of those with one tag, the first.
pub open spec fn loaded(list: Seq<PlaceView>) -> Seq<PlaceView>
    decreases list.len(),
{
    if list.len() == 0 {
        Seq::empty()
    } else {
        let kept = loaded(list.drop_last());
        if has_tag(kept, list.last().tag) {
            kept
        } else {
            kept.push(list.last())
        }
    }
}

/// The lines that show the places, under their heading, each place followed
/// by an empty line.
pub open spec fn places_text(s: Seq<PlaceView>) -> Seq<char>
    decreases s.len(),
{
    if s.len() == 0 {
        "Places: \n"@
    } else {
        places_text(s.drop_last()) + s.last().text() + "\n"@
    }
}

/// `s[i]` holds the place that the map of `s` has under its tag.
pub proof fn lemma_map_holds_each(s: Seq<PlaceView>, i: int)
    requires
        distinct_tags(s),
        0 <= i < s.len(),
    ensures
        has_tag(s, s[i].tag),
        position_of(s, s[i].tag) == i,
        as_map(s).dom().contains(s[i].tag),
        as_map(s)[s[i].tag] == s[i].coordinates,
{
    let tag = s[i].tag;
    assert(s[i].tag == tag);
    let j = position_of(s, tag);
    assert(0 <= j < s.len() && s[j].tag == tag);
    if j < i {
        assert(s[j].tag != s[i].tag);
    } else if i < j {
        assert(s[i].tag != s[j].tag);
    }
}

/// The saved places.
#[derive(Debug)]
pub struct PlaceRegistry {
    places: Vec<Place>,
}

impl View for PlaceRegistry {
    type V = Map<Seq<char>, Coordinates>;

    /// The coordinates of each saved place under its tag.
    open spec fn view(&self) -> Map<Seq<char>, Coordinates> {
        as_map(self.entries())
    }
}

impl PlaceRegistry {
    /// The places in the order in which they are shown.
    pub closed spec fn entries(self) -> Seq<PlaceView> {
        self.places.deep_view()
    }

    /// No tag is saved twice.
    pub open spec fn wf(self) -> bool {
        distinct_tags(self.entries())
    }

    /// A registry with no place in it.
    pub fn new() -> (r: PlaceRegistry)
        ensures
            r.wf(),
            r.entries() == Seq::<PlaceView>::empty(),
    {
        let places: Vec<Place> = Vec::new();
        assert(places.deep_view() =~= Seq::<PlaceView>::empty());
        PlaceRegistry { places }
    }

    /// The registry of a list of places: of those with one tag, the first
    /// is kept.
    pub fn from_places(list: Vec<Place>) -> (r: PlaceRegistry)
        ensures
            r.wf(),
            r.entries() == loaded(list.deep_view()),
    {
        let mut registry = PlaceRegistry::new();
        let mut i: usize = 0;
        let ghost all = list.deep_view();
        proof {
            assert(all.take(0) =~= Seq::<PlaceView>::empty());
        }
        while i < list.len()
            invariant
                i <= list.len(),
                all == list.deep_view(),
                registry.wf(),
                registry.entries() == loaded(all.take(i as int)),
            decreases list.len() - i,
        {
            proof {
                assert(all.take(i + 1).drop_last() =~= all.take(i as int));
                assert(all.take(i + 1).last() == list[i as int]@);
            }
            if registry.find(&list[i].tag).is_none() {
                let ghost before = registry.entries();
                let place = list[i].clone();
                registry.places.push(place);
                assert(registry.places.deep_view() =~= before.push(place@));
                proof {
                    lemma_upserted_distinct(before, place@);
                }
            }
            i += 1;
        }
        assert(all.take(i as int) =~= all);
        registry
    }

    /// The lines that show the places, under their heading.
    pub fn report(&self) -> (s: String)
        ensures
            s@ == places_text(self.entries()),
    {
        let mut out = String::from_str("Places: \n");
        let mut i: usize = 0;
        let ghost all = self.entries();
        proof {
            assert(all.take(0) =~= Seq::<PlaceView>::empty());
        }
        while i < self.places.len()
            invariant
                i <= self.places.len(),
                all == self.places.deep_view(),
                out@ == places_text(all.take(i as int)),
            decreases self.places.len() - i,
        {
            proof {
                assert(all.take(i + 1).drop_last() =~= all.take(i as int));
                assert(all.take(i + 1).last() == self.places[i as int]@);
            }
            let block = self.places[i].render();
            out.append(block.as_str());
            out.append("\n");
            i += 1;
        }
        assert(all.take(i as int) =~= all);
        out
    }

    /// How many places are saved.
    pub fn len(&self) -> (n: usize)
        ensures
            n == self.entries().len(),
    {
        self.places.len()
    }

    /// Where the place with the tag stands, if one is saved.
    fn find(&self, tag: &PlaceTag) -> (r: Option<usize>)
        ensures
            match r {
                Some(i) => i < self.entries().len() && self.entries()[i as int].tag == tag@,
                None => !has_tag(self.entries(), tag@),
            },
    {
        let mut i: usize = 0;
        while i < self.places.len()
            invariant
                i <= self.places.len(),
                forall|k: int| 0 <= k < i ==> self.places.deep_view()[k].tag != tag@,
            decreases self.places.len() - i,
        {
            if self.places[i].tag.same(tag) {
                return Some(i);
            }
            i += 1;
        }
        None
    }

    /// A copy of every saved place, in the order in which they are shown.
    pub fn list(&self) -> (r: Vec<Place>)
        ensures
            r.deep_view() == self.entries(),
    {
        let mut out: Vec<Place> = Vec::new();
        let mut i: usize = 0;
        while i < self.places.len()
            invariant
                i <= self.places.len(),
                out.deep_view() =~= self.places.deep_view().take(i as int),
            decreases self.places.len() - i,
        {
            let ghost done = out.deep_view();
            let place = self.places[i].clone();
            out.push(place);
            assert(out.deep_view() =~= done.push(place@));
            i += 1;
        }
        assert(self.places.deep_view().take(i as int) =~= self.places.deep_view());
        out
    }

    /// The coordinates saved under the tag, if any are.
    pub fn resolve(&self, tag: &PlaceTag) -> (r: Option<Coordinates>)
        requires
            self.wf(),
        ensures
            r is Some <==> self@.dom().contains(tag@),
            r matches Some(c) ==> c == self@[tag@],
    {
        match self.find(tag) {
            Some(i) => {
                proof {
                    lemma_map_holds_each(self.entries(), i as int);
                }
                Some(self.places[i].coordinates)
            },
            None => None,
        }
    }

    /// The place saved under the tag, if one is.
    pub fn place_by_tag(&self, tag: &PlaceTag) -> (r: Option<Place>)
        requires
            self.wf(),
        ensures
            r is Some <==> self@.dom().contains(tag@),
            r matches Some(p) ==> p@.tag == tag@ && p@.coordinates == self@[tag@],
    {
        match self.find(tag) {
            Some(i) => {
                proof {
                    lemma_map_holds_each(self.entries(), i as int);
                }
                Some(self.places[i].clone())
            },
            None => None,
        }
    }

    /// Saves a place under its tag: in the place of the one that has the
    /// tag, or as a new one. Coordinates off the globe are refused, and
    /// nothing changes then.
    pub fn upsert(&mut self, place: Place) -> (r: Result<(), AppError>)
        requires
            old(self).wf(),
        ensures
            final(self).wf(),
            r == place.coordinates.validation(),
            r is Err ==> *final(self) == *old(self),
            r is Ok ==> final(self).entries() == upserted(old(self).entries(), place@),
            r is Ok ==> final(self)@ == old(self)@.insert(place@.tag, place@.coordinates),
            r is Ok ==> final(self).entries().len() == if old(self)@.dom().contains(place@.tag) {
                old(self).entries().len()
            } else {
                old(self).entries().len() + 1
            },
    {
        match place.coordinates.validate() {
            Err(e) => {
                return Err(e);
            },
            Ok(()) => {},
        }
        self.replace(place);
        Ok(())
    }

    /// Saves a place under its tag, whatever its coordinates.
    fn replace(&mut self, place: Place)
        requires
            old(self).wf(),
        ensures
            final(self).wf(),
            final(self).entries() == upserted(old(self).entries(), place@),
            final(self)@ == old(self)@.insert(place@.tag, place@.coordinates),
            final(self).entries().len() == if old(self)@.dom().contains(place@.tag) {
                old(self).entries().len()
            } else {
                old(self).entries().len() + 1
            },
    {
        let ghost before = self.entries();
        match self.find(&place.tag) {
            Some(i) => {
                proof {
                    lemma_map_holds_each(before, i as int);
                }
                self.places.set(i, place);
                assert(self.places.deep_view() =~= before.update(i as int, place@));
            },
            None => {
                self.places.push(place);
                assert(self.places.deep_view() =~= before.push(place@));
            },
        }
        proof {
            lemma_upserted_distinct(before, place@);
            lemma_upserted_map(before, place@);
        }
    }

    /// Removes the place saved under the tag, and tells whether there was
    /// one.
    pub fn remove(&mut self, tag: &PlaceTag) -> (r: bool)
        requires
            old(self).wf(),
        ensures
            final(self).wf(),
            r == old(self)@.dom().contains(tag@),
            final(self).entries() == removed(old(self).entries(), tag@),
            final(self)@ == old(self)@.remove(tag@),
            !r ==> *final(self) == *old(self),
            r ==> final(self).entries().len() == old(self).entries().len() - 1,
    {
        let ghost before = self.entries();
        proof {
            lemma_removed_distinct(before, tag@);
            lemma_removed_map(before, tag@);
        }
        match self.find(tag) {
            Some(i) => {
                proof {
                    lemma_map_holds_each(before, i as int);
                }
                let _ = self.places.remove(i);
                assert(self.places.deep_view() =~= before.remove(i as int));
                true
            },
            None => false,
        }
    }
}

/// Saving a place keeps the tags distinct.
pub proof fn lemma_upserted_distinct(s: Seq<PlaceView>, p: PlaceView)
    requires
        distinct_tags(s),
    ensures
        distinct_tags(upserted(s, p)),
{
    let t = upserted(s, p);
    if has_tag(s, p.tag) {
        let k = position_of(s, p.tag);
        assert forall|i: int, j: int| 0 <= i < j < t.len() implies t[i].tag != t[j].tag by {
            assert(t[i].tag == s[i].tag);
            assert(t[j].tag == s[j].tag);
        }
    } else {
        assert forall|i: int, j: int| 0 <= i < j < t.len() implies t[i].tag != t[j].tag by {
            if j == s.len() {
                assert(s[i].tag == t[i].tag);
            }
        }
    }
}

/// Removing a place keeps the tags distinct.
pub proof fn lemma_removed_distinct(s: Seq<PlaceView>, tag: Seq<char>)
    requires
        distinct_tags(s),
    ensures
        distinct_tags(removed(s, tag)),
{
    let t = removed(s, tag);
    if has_tag(s, tag) {
        let k = position_of(s, tag);
        assert forall|i: int, j: int| 0 <= i < j < t.len() implies t[i].tag != t[j].tag by {
            let a = if i < k { i } else { i + 1 };
            let b = if j < k { j } else { j + 1 };
            assert(t[i] == s[a]);
            assert(t[j] == s[b]);
        }
    }
}

/// As many tags are saved as there are places.
pub proof fn lemma_map_size(s: Seq<PlaceView>)
    requires
        distinct_tags(s),
    ensures
        as_map(s).dom().finite(),
        as_map(s).dom().len() == s.len(),
    decreases s.len(),
{
    if s.len() == 0 {
        assert(as_map(s).dom() =~= Set::<Seq<char>>::empty());
    } else {
        let rest = s.drop_last();
        let last = s.last();
        lemma_map_size(rest);
        assert(!as_map(rest).dom().contains(last.tag)) by {
            if has_tag(rest, last.tag) {
                let i = position_of(rest, last.tag);
                assert(s[i].tag != s[s.len() - 1].tag);
            }
        }
        assert forall|tag: Seq<char>| as_map(s).dom().contains(tag) <==> as_map(rest).dom().insert(
            last.tag,
        ).contains(tag) by {
            if has_tag(s, tag) {
                let i = position_of(s, tag);
                if i < rest.len() {
                    assert(rest[i].tag == tag);
                }
            }
            if has_tag(rest, tag) {
                let i = position_of(rest, tag);
                assert(s[i].tag == tag);
            }
            if tag == last.tag {
                assert(s[s.len() - 1].tag == tag);
            }
        }
        assert(as_map(s).dom() =~= as_map(rest).dom().insert(last.tag));
    }
}

/// Saving a place puts its coordinates under its tag and leaves every other
/// tag as it was.
pub proof fn lemma_upserted_map(s: Seq<PlaceView>, p: PlaceView)
    requires
        distinct_tags(s),
    ensures
        as_map(upserted(s, p)) == as_map(s).insert(p.tag, p.coordinates),
{
    let t = upserted(s, p);
    let target = as_map(s).insert(p.tag, p.coordinates);
    lemma_upserted_distinct(s, p);
    let k = if has_tag(s, p.tag) {
        position_of(s, p.tag)
    } else {
        s.len() as int
    };
    assert(0 <= k < t.len() && t[k] == p);
    assert forall|i: int| 0 <= i < s.len() && i != k implies t[i] == s[i] by {}
    assert forall|tag: Seq<char>| as_map(t).dom().contains(tag) <==> target.dom().contains(
        tag,
    ) by {
        if has_tag(t, tag) {
            let i = position_of(t, tag);
            if i != k {
                assert(s[i].tag == tag);
            }
        }
        if has_tag(s, tag) {
            let i = position_of(s, tag);
            if i != k {
                assert(t[i].tag == tag);
            } else {
                assert(t[k].tag == tag);
            }
        }
        if tag == p.tag {
            assert(t[k].tag == tag);
        }
    }
    assert forall|tag: Seq<char>| as_map(t).dom().contains(tag) implies as_map(t)[tag]
        == target[tag] by {
        let i = position_of(t, tag);
        lemma_map_holds_each(t, i);
        if i != k {
            assert(s[i].tag == tag);
            lemma_map_holds_each(s, i);
        }
    }
    assert(as_map(t) =~= target);
}

/// Removing a tag takes it out of the map and leaves every other tag as it
/// was.
pub proof fn lemma_removed_map(s: Seq<PlaceView>, tag: Seq<char>)
    requires
        distinct_tags(s),
    ensures
        as_map(removed(s, tag)) == as_map(s).remove(tag),
{
    let t = removed(s, tag);
    let target = as_map(s).remove(tag);
    lemma_removed_distinct(s, tag);
    if has_tag(s, tag) {
        let k = position_of(s, tag);
        assert forall|i: int| 0 <= i < t.len() implies t[i] == s[if i < k {
            i
        } else {
            i + 1
        }] by {}
        assert forall|other: Seq<char>| as_map(t).dom().contains(other) <==> target.dom().contains(
            other,
        ) by {
            if has_tag(t, other) {
                let i = position_of(t, other);
                let a = if i < k {
                    i
                } else {
                    i + 1
                };
                assert(s[a].tag == other);
                if other == tag {
                    lemma_map_holds_each(s, a);
                }
            }
            if has_tag(s, other) && other != tag {
                let a = position_of(s, other);
                let i = if a < k {
                    a
                } else {
                    a - 1
                };
                assert(t[i].tag == other);
            }
        }
        assert forall|other: Seq<char>| as_map(t).dom().contains(other) implies as_map(t)[other]
            == target[other] by {
            let i = position_of(t, other);
            lemma_map_holds_each(t, i);
            let a = if i < k {
                i
            } else {
                i + 1
            };
            assert(s[a].tag == other);
            lemma_map_holds_each(s, a);
        }
        assert(as_map(t) =~= target);
    } else {
        assert(as_map(t) =~= target);
    }
}

/// Saving a place under a tag that is already saved moves that place and
/// leaves the number of places as it was; under a new tag it adds exactly
/// one. Either way the tag then leads to the new coordinates.
pub proof fn law_upsert(s: Seq<PlaceView>, p: PlaceView)
    requires
        distinct_tags(s),
    ensures
        distinct_tags(upserted(s, p)),
        as_map(s).dom().contains(p.tag) ==> upserted(s, p).len() == s.len(),
        !as_map(s).dom().contains(p.tag) ==> upserted(s, p).len() == s.len() + 1,
        as_map(upserted(s, p)).dom().len() == upserted(s, p).len(),
        as_map(upserted(s, p)).dom().contains(p.tag),
        as_map(upserted(s, p))[p.tag] == p.coordinates,
        forall|tag: Seq<char>|
            tag != p.tag ==> (as_map(upserted(s, p)).dom().contains(tag) <==> as_map(
                s,
            ).dom().contains(tag)),
        forall|tag: Seq<char>|
            tag != p.tag && as_map(s).dom().contains(tag) ==> as_map(upserted(s, p))[tag] == as_map(
                s,
            )[tag],
{
    lemma_upserted_distinct(s, p);
    lemma_upserted_map(s, p);
    lemma_map_size(upserted(s, p));
}

/// Removing a tag that is not saved changes nothing; removing one that is
/// saved leaves exactly one place less, and the tag leads nowhere
/// afterwards.
pub proof fn law_remove(s: Seq<PlaceView>, tag: Seq<char>)
    requires
        distinct_tags(s),
    ensures
        distinct_tags(removed(s, tag)),
        !as_map(s).dom().contains(tag) ==> removed(s, tag) == s,
        as_map(s).dom().contains(tag) ==> removed(s, tag).len() == s.len() - 1,
        as_map(removed(s, tag)).dom().len() == removed(s, tag).len(),
        !as_map(removed(s, tag)).dom().contains(tag),
        forall|other: Seq<char>|
            other != tag ==> (as_map(removed(s, tag)).dom().contains(other) <==> as_map(
                s,
            ).dom().contains(other)),
        forall|other: Seq<char>|
            other != tag && as_map(s).dom().contains(other) ==> as_map(removed(s, tag))[other]
                == as_map(s)[other],
{
    lemma_removed_distinct(s, tag);
    lemma_removed_map(s, tag);
    lemma_map_size(removed(s, tag));
}

/// A registry that is listed and made again from the list is the registry
/// it was: the same places in the same order.
pub proof fn law_round_trip(s: Seq<PlaceView>)
    requires
        distinct_tags(s),
    ensures
        loaded(s) == s,
        as_map(loaded(s)) == as_map(s),
    decreases s.len(),
{
    if s.len() > 0 {
        let rest = s.drop_last();
        law_round_trip(rest);
        if has_tag(rest, s.last().tag) {
            let i = position_of(rest, s.last().tag);
            assert(s[i].tag != s[s.len() - 1].tag);
        }
        assert(rest.push(s.last()) =~= s);
    } else {
        assert(loaded(s) =~= s);
    }
}

} // verus!
