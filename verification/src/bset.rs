//! A vector of attributes kept in the order of their ordinals.

use vstd::prelude::*;

verus! {

/// Something with a fixed position among its kind.
///
/// The attributes of a group are ordered by their ordinals, so that a
/// collection of them is written in the same order whatever the order in
/// which they were set.
pub trait Ordinal {
    /// The position of `self` among its kind.
    spec fn spec_ordinal(&self) -> usize;

    /// The position of `self` among its kind.
    fn ordinal(&self) -> (r: usize)
        ensures
            r == self.spec_ordinal(),
    ;
}

/// Whether the ordinals of `s` never decrease.
pub open spec fn sorted<A: Ordinal>(s: Seq<A>) -> bool {
    forall|i: int, j: int|
        0 <= i <= j < s.len() ==> (#[trigger] s[i]).spec_ordinal() <= (
        #[trigger] s[j]).spec_ordinal()
}

/// A sequence without items is sorted.
pub proof fn lemma_empty_is_sorted<A: Ordinal>()
    ensures
        sorted(Seq::<A>::empty()),
{
}

/// The number of items of `s` whose ordinal is below `key`.
///
/// In a sorted sequence this is the index of the first item whose ordinal
/// is `key` or more, and the length where there is none.
pub open spec fn rank<A: Ordinal>(s: Seq<A>, key: int) -> int
    decreases s.len(),
{
    if s.len() == 0 {
        0
    } else {
        rank(s.drop_last(), key) + if s.last().spec_ordinal() < key {
            1int
        } else {
            0int
        }
    }
}

/// Whether `i` parts `s` into the items with an ordinal below `key`, before
/// `i`, and the others, from `i` on.
pub open spec fn parts_at<A: Ordinal>(s: Seq<A>, key: int, i: int) -> bool {
    &&& 0 <= i <= s.len()
    &&& forall|j: int| 0 <= j < i ==> (#[trigger] s[j]).spec_ordinal() < key
    &&& forall|j: int| i <= j < s.len() ==> (#[trigger] s[j]).spec_ordinal() >= key
}

/// An index that parts a sequence at `key` is the rank of `key`.
pub proof fn lemma_parts_at_is_rank<A: Ordinal>(s: Seq<A>, key: int, i: int)
    requires
        parts_at(s, key, i),
    ensures
        rank(s, key) == i,
    decreases s.len(),
{
    if s.len() > 0 {
        let t = s.drop_last();
        if i == s.len() {
            assert(s[i - 1].spec_ordinal() < key);
            lemma_parts_at_is_rank(t, key, i - 1);
        } else {
            assert(s[s.len() - 1].spec_ordinal() >= key);
            lemma_parts_at_is_rank(t, key, i);
        }
    }
}

/// The rank of `key` parts a sorted sequence at `key`.
pub proof fn lemma_rank_parts<A: Ordinal>(s: Seq<A>, key: int)
    requires
        sorted(s),
    ensures
        parts_at(s, key, rank(s, key)),
    decreases s.len(),
{
    if s.len() > 0 {
        let t = s.drop_last();
        lemma_rank_parts(t, key);
        let r = rank(t, key);
        if s.last().spec_ordinal() < key {
            if r < t.len() {
                assert(t[r].spec_ordinal() >= key);
                assert(s[r].spec_ordinal() <= s[s.len() - 1].spec_ordinal());
            }
            assert(r == t.len());
        }
        assert forall|j: int| 0 <= j < rank(s, key) implies (#[trigger] s[j]).spec_ordinal()
            < key by {
            if j < t.len() {
                assert(s[j] == t[j]);
            }
        }
        assert forall|j: int| rank(s, key) <= j < s.len() implies (
        #[trigger] s[j]).spec_ordinal() >= key by {
            if j < t.len() {
                assert(s[j] == t[j]);
            }
        }
    }
}

/// An ordered set using binary search to find and insert items.
///
/// The view is the sequence of the items. The container never reorders
/// them: [`BSet::insert`] and [`BSet::set`] put an item where it belongs in
/// a sorted sequence, and ask for a sorted sequence to start with.
#[derive(Clone, Debug, PartialEq)]
pub struct BSet<A> {
    items: Vec<A>,
}

impl<A> View for BSet<A> {
    type V = Seq<A>;

    /// The items, in the order in which they are stored.
    closed spec fn view(&self) -> Seq<A> {
        self.items@
    }
}

impl<A> BSet<A> {
    /// Makes an empty set.
    pub fn new() -> (r: Self)
        ensures
            r@ == Seq::<A>::empty(),
    {
        BSet { items: Vec::new() }
    }

    /// The number of items.
    pub fn len(&self) -> (r: usize)
        ensures
            r == self@.len(),
    {
        self.items.len()
    }

    /// The items as a slice.
    pub fn as_slice(&self) -> (r: &[A])
        ensures
            r@ == self@,
    {
        self.items.as_slice()
    }
}

impl<A> core::ops::Deref for BSet<A> {
    type Target = [A];

    fn deref(&self) -> (r: &[A])
        ensures
            r@ == self@,
    {
        self.items.as_slice()
    }
}

/// Where a binary search for `key` ends in the sorted sequence `s`: at the
/// first item with that ordinal, or else at the index where such an item
/// would have to go.
pub open spec fn search_result<A: Ordinal>(s: Seq<A>, key: int) -> Result<int, int> {
    let i = rank(s, key);
    if i < s.len() && s[i].spec_ordinal() == key {
        Ok(i)
    } else {
        Err(i)
    }
}

/// Putting an item behind the items whose ordinal is not above its own
/// keeps a sorted sequence sorted.
pub proof fn lemma_insert_keeps_sorted<A: Ordinal>(s: Seq<A>, item: A)
    requires
        sorted(s),
    ensures
        sorted(s.insert(rank(s, item.spec_ordinal() + 1), item)),
{
    let key = item.spec_ordinal();
    let i = rank(s, key + 1);
    lemma_rank_parts(s, key + 1);
    lemma_insert_at_keeps_sorted(s, i, item);
}

/// Putting an item between the items with a smaller or equal ordinal and
/// those with a greater or equal one keeps a sorted sequence sorted.
pub proof fn lemma_insert_at_keeps_sorted<A: Ordinal>(s: Seq<A>, i: int, item: A)
    requires
        sorted(s),
        0 <= i <= s.len(),
        forall|j: int| 0 <= j < i ==> (#[trigger] s[j]).spec_ordinal() <= item.spec_ordinal(),
        forall|j: int|
            i <= j < s.len() ==> (#[trigger] s[j]).spec_ordinal() >= item.spec_ordinal(),
    ensures
        sorted(s.insert(i, item)),
{
    let t = s.insert(i, item);
    assert forall|a: int, b: int| 0 <= a <= b < t.len() implies (#[trigger] t[a]).spec_ordinal()
        <= (#[trigger] t[b]).spec_ordinal() by {
        if a < i {
            assert(t[a] == s[a]);
        } else if a > i {
            assert(t[a] == s[a - 1]);
        }
        if b < i {
            assert(t[b] == s[b]);
        } else if b > i {
            assert(t[b] == s[b - 1]);
        }
    }
}

/// Putting an item in the place of one with the same ordinal keeps a sorted
/// sequence sorted.
pub proof fn lemma_update_keeps_sorted<A: Ordinal>(s: Seq<A>, i: int, item: A)
    requires
        sorted(s),
        0 <= i < s.len(),
        s[i].spec_ordinal() == item.spec_ordinal(),
    ensures
        sorted(s.update(i, item)),
{
    let t = s.update(i, item);
    assert forall|a: int, b: int| 0 <= a <= b < t.len() implies (#[trigger] t[a]).spec_ordinal()
        <= (#[trigger] t[b]).spec_ordinal() by {
        assert(t[a].spec_ordinal() == s[a].spec_ordinal());
        assert(t[b].spec_ordinal() == s[b].spec_ordinal());
    }
}

/// A search for an ordinal that occurs in a sorted sequence ends at the
/// first item that has it.
pub proof fn lemma_search_present<A: Ordinal>(s: Seq<A>, key: int, j: int)
    requires
        sorted(s),
        0 <= j < s.len(),
        s[j].spec_ordinal() == key,
    ensures
        search_result(s, key) is Ok,
        0 <= search_result(s, key)->Ok_0 <= j,
        s[search_result(s, key)->Ok_0].spec_ordinal() == key,
        forall|k: int|
            0 <= k < search_result(s, key)->Ok_0 ==> (#[trigger] s[k]).spec_ordinal() < key,
{
    lemma_rank_parts(s, key);
    let i = rank(s, key);
    if j < i {
        assert(s[j].spec_ordinal() < key);
    }
    assert(s[i].spec_ordinal() <= s[j].spec_ordinal());
}

/// A search for an ordinal that does not occur in a sorted sequence ends at
/// the one index where an item with that ordinal keeps the sequence sorted:
/// behind the smaller ordinals and before the greater ones.
pub proof fn lemma_search_absent<A: Ordinal>(s: Seq<A>, key: int)
    requires
        sorted(s),
        forall|j: int| 0 <= j < s.len() ==> (#[trigger] s[j]).spec_ordinal() != key,
    ensures
        search_result(s, key) is Err,
        0 <= search_result(s, key)->Err_0 <= s.len(),
        forall|k: int|
            0 <= k < search_result(s, key)->Err_0 ==> (#[trigger] s[k]).spec_ordinal() < key,
        forall|k: int|
            search_result(s, key)->Err_0 <= k < s.len() ==> (#[trigger] s[k]).spec_ordinal()
                > key,
{
    lemma_rank_parts(s, key);
}

impl<A: Ordinal> BSet<A> {
    /// Whether the items are in the order of their ordinals.
    pub open spec fn is_sorted(&self) -> bool {
        sorted(self@)
    }

    /// The index of the first item whose ordinal is `key` or more, or the
    /// length if there is none.
    pub fn lower_bound(&self, key: usize) -> (i: usize)
        requires
            self.is_sorted(),
        ensures
            i == rank(self@, key as int),
    {
        let mut lo: usize = 0;
        let mut hi: usize = self.items.len();
        while lo < hi
            invariant
                lo <= hi <= self.items.len(),
                sorted(self.items@),
                forall|j: int| 0 <= j < lo ==> (#[trigger] self.items@[j]).spec_ordinal() < key,
                forall|j: int|
                    hi <= j < self.items.len() ==> (#[trigger] self.items@[j]).spec_ordinal()
                        >= key,
            decreases hi - lo,
        {
            let mid: usize = lo + (hi - lo) / 2;
            if self.items[mid].ordinal() < key {
                assert forall|j: int| 0 <= j < mid + 1 implies (
                #[trigger] self.items@[j]).spec_ordinal() < key by {
                    assert(self.items@[j].spec_ordinal() <= self.items@[mid as int].spec_ordinal());
                }
                lo = mid + 1;
            } else {
                assert forall|j: int| mid <= j < self.items.len() implies (
                #[trigger] self.items@[j]).spec_ordinal() >= key by {
                    assert(self.items@[mid as int].spec_ordinal() <= self.items@[j].spec_ordinal());
                }
                hi = mid;
            }
        }
        proof {
            lemma_parts_at_is_rank(self@, key as int, lo as int);
        }
        lo
    }

    /// The index behind the last item whose ordinal is `key` or less, or 0
    /// if there is none.
    pub fn upper_bound(&self, key: usize) -> (i: usize)
        requires
            self.is_sorted(),
        ensures
            i == rank(self@, key + 1),
    {
        if key == usize::MAX {
            proof {
                lemma_parts_at_is_rank(self@, key + 1, self@.len() as int);
            }
            self.items.len()
        } else {
            self.lower_bound(key + 1)
        }
    }

    /// Searches for an item with the ordinal `key`.
    ///
    /// Returns `Ok` with the index of the first such item, or `Err` with the
    /// index at which an item with this ordinal can be inserted.
    pub fn search(&self, key: usize) -> (r: Result<usize, usize>)
        requires
            self.is_sorted(),
        ensures
            match r {
                Ok(i) => search_result(self@, key as int) == Ok::<int, int>(i as int),
                Err(i) => search_result(self@, key as int) == Err::<int, int>(i as int),
            },
    {
        let i = self.lower_bound(key);
        if i < self.items.len() && self.items[i].ordinal() == key {
            Ok(i)
        } else {
            Err(i)
        }
    }

    /// The first item with the ordinal `key`, if there is one.
    pub fn get(&self, key: usize) -> (r: Option<&A>)
        requires
            self.is_sorted(),
        ensures
            r == match search_result(self@, key as int) {
                Ok(i) => Some(&self@[i]),
                Err(_) => None,
            },
    {
        match self.search(key) {
            Ok(i) => Some(&self.items[i]),
            Err(_) => None,
        }
    }

    /// Inserts `item` behind the items whose ordinal is not above its own.
    ///
    /// Items with the same ordinal stay, in the order in which they came.
    pub fn insert(&mut self, item: A)
        requires
            old(self).is_sorted(),
        ensures
            final(self).is_sorted(),
            final(self)@ == old(self)@.insert(rank(old(self)@, item.spec_ordinal() + 1), item),
    {
        let i = self.upper_bound(item.ordinal());
        proof {
            lemma_rank_parts(self@, item.spec_ordinal() + 1);
            lemma_insert_keeps_sorted(self@, item);
        }
        self.items.insert(i, item);
    }

    /// Puts `item` in the place of the first item with the same ordinal, or
    /// inserts it where it belongs if there is none.
    pub fn set(&mut self, item: A)
        requires
            old(self).is_sorted(),
        ensures
            final(self).is_sorted(),
            final(self)@ == match search_result(old(self)@, item.spec_ordinal() as int) {
                Ok(i) => old(self)@.update(i, item),
                Err(i) => old(self)@.insert(i, item),
            },
    {
        let key = item.ordinal();
        proof {
            lemma_rank_parts(self@, key as int);
        }
        match self.search(key) {
            Ok(i) => {
                proof {
                    lemma_update_keeps_sorted(self@, i as int, item);
                }
                self.items.set(i, item);
            },
            Err(i) => {
                proof {
                    lemma_insert_at_keeps_sorted(self@, i as int, item);
                }
                self.items.insert(i, item);
            },
        }
    }
}

} // verus!
