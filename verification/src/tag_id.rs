//! Identifiers of structure elements.

use vstd::prelude::*;
use vstd::slice::slice_to_vec;

use core::cmp::Ordering;
use smallvec::SmallVec;
use vstd::std_specs::cmp::{PartialEqSpec, PartialEqSpecImpl, PartialOrdSpecImpl};
use vstd::std_specs::convert::FromSpecImpl;

verus! {

/// The byte that starts every identifier made of bytes that a user supplied,
/// the letter `U`.
///
/// Identifiers that are assigned automatically never start with it, so the
/// two kinds cannot collide.
pub const USER_PREFIX: u8 = 0x55;

/// The bytes of an identifier, held in a `smallvec::SmallVec` that keeps up
/// to 16 of them inline.
///
/// The verifier does not look inside; what it holds is
/// [`id_bytes_contents`].
#[verifier::external_body]
#[derive(Debug, Eq, PartialEq, Ord, PartialOrd, Hash)]
pub struct IdBytes {
    buf: SmallVec<[u8; 16]>,
}

/// The bytes that an [`IdBytes`] holds, in order.
pub uninterp spec fn id_bytes_contents(b: IdBytes) -> Seq<u8>;

/// `SmallVec::from_vec`: the small vector holds the elements of `v`, in the
/// order of `v`.
#[verifier::external_body]
fn id_bytes_from_vec(v: Vec<u8>) -> (b: IdBytes)
    ensures
        id_bytes_contents(b) == v@,
{
    IdBytes { buf: SmallVec::from_vec(v) }
}

/// `SmallVec::as_slice`: the slice is the whole contents.
#[verifier::external_body]
fn id_bytes_as_slice(b: &IdBytes) -> (s: &[u8])
    ensures
        s@ == id_bytes_contents(*b),
{
    b.buf.as_slice()
}

/// Whether `a` comes before `b` in the order of a dictionary: at the first
/// index where they differ `a` has the smaller byte, or `a` ends there and
/// `b` goes on.
pub open spec fn lex_less(a: Seq<u8>, b: Seq<u8>) -> bool
    decreases a.len(),
{
    if b.len() == 0 {
        false
    } else if a.len() == 0 {
        true
    } else if a[0] != b[0] {
        a[0] < b[0]
    } else {
        lex_less(a.drop_first(), b.drop_first())
    }
}

/// Of two byte sequences either one comes before the other or they are
/// the same, and only one of the three holds.
pub proof fn lemma_lex_less_trichotomy(a: Seq<u8>, b: Seq<u8>)
    ensures
        a == b || lex_less(a, b) || lex_less(b, a),
        !(a == b && lex_less(a, b)),
        !(a == b && lex_less(b, a)),
        !(lex_less(a, b) && lex_less(b, a)),
    decreases a.len(),
{
    if a.len() > 0 && b.len() > 0 {
        lemma_lex_less_trichotomy(a.drop_first(), b.drop_first());
        if a[0] == b[0] && a.drop_first() == b.drop_first() {
            assert(a.len() == b.len()) by {
                assert(a.drop_first().len() == b.drop_first().len());
            }
            assert forall|i: int| 0 <= i < a.len() implies a[i] == b[i] by {
                if i > 0 {
                    assert(a[i] == a.drop_first()[i - 1]);
                    assert(b[i] == b.drop_first()[i - 1]);
                }
            }
            assert(a =~= b);
        }
    } else if a.len() == 0 && b.len() == 0 {
        assert(a =~= b);
    }
}

/// What comes before a sequence comes before everything behind that
/// sequence.
pub proof fn lemma_lex_less_transitive(a: Seq<u8>, b: Seq<u8>, c: Seq<u8>)
    requires
        lex_less(a, b),
        lex_less(b, c),
    ensures
        lex_less(a, c),
    decreases a.len(),
{
    if a.len() > 0 && a[0] == b[0] && b[0] == c[0] {
        lemma_lex_less_transitive(a.drop_first(), b.drop_first(), c.drop_first());
    }
}

/// Whether two slices hold the same bytes.
fn bytes_equal(a: &[u8], b: &[u8]) -> (r: bool)
    ensures
        r == (a@ == b@),
{
    if a.len() != b.len() {
        return false;
    }
    let mut i: usize = 0;
    while i < a.len()
        invariant
            i <= a.len(),
            a.len() == b.len(),
            a@.subrange(0, i as int) == b@.subrange(0, i as int),
        decreases a.len() - i,
    {
        if a[i] != b[i] {
            assert(a@[i as int] != b@[i as int]);
            return false;
        }
        i = i + 1;
        assert(a@.subrange(0, i as int) == a@.subrange(0, i - 1).push(a@[i - 1]));
        assert(b@.subrange(0, i as int) == b@.subrange(0, i - 1).push(b@[i - 1]));
    }
    assert(a@ == a@.subrange(0, i as int));
    assert(b@ == b@.subrange(0, i as int));
    true
}

/// Whether the bytes of `a` come before those of `b`.
fn bytes_less(a: &[u8], b: &[u8]) -> (r: bool)
    ensures
        r == lex_less(a@, b@),
{
    let mut i: usize = 0;
    assert(a@.skip(0) == a@ && b@.skip(0) == b@);
    while i < a.len() && i < b.len()
        invariant
            i <= a.len(),
            i <= b.len(),
            lex_less(a@, b@) == lex_less(a@.skip(i as int), b@.skip(i as int)),
        decreases a.len() - i,
    {
        if a[i] != b[i] {
            return a[i] < b[i];
        }
        assert(a@.skip(i as int).drop_first() == a@.skip(i + 1));
        assert(b@.skip(i as int).drop_first() == b@.skip(i + 1));
        i = i + 1;
    }
    a.len() < b.len()
}

/// An identifier of a tag.
///
/// An identifier is a sequence of bytes, its view. Identifiers are equal
/// when their bytes are, and they are ordered as their bytes are in a
/// dictionary.
#[derive(Debug, Eq, Ord, Hash)]
pub struct TagId {
    bytes: IdBytes,
}

impl View for TagId {
    type V = Seq<u8>;

    /// The bytes of the identifier, the prefix included.
    closed spec fn view(&self) -> Seq<u8> {
        id_bytes_contents(self.bytes)
    }
}

impl TagId {
    /// The bytes of the identifier that a user's `bytes` give: the prefix,
    /// then `bytes`.
    pub open spec fn user_id(bytes: Seq<u8>) -> Seq<u8> {
        seq![USER_PREFIX] + bytes
    }

    /// Whether `id` lies among the identifiers made of a user's bytes.
    pub open spec fn is_user_id(id: Seq<u8>) -> bool {
        id.len() > 0 && id[0] == USER_PREFIX
    }

    /// Makes the identifier of a user's `bytes`.
    fn of_user_bytes(bytes: &[u8]) -> (r: TagId)
        ensures
            r@ == Self::user_id(bytes@),
    {
        let mut v: Vec<u8> = Vec::new();
        v.push(USER_PREFIX);
        let mut i: usize = 0;
        while i < bytes.len()
            invariant
                i <= bytes.len(),
                v@ == Self::user_id(bytes@.subrange(0, i as int)),
            decreases bytes.len() - i,
        {
            v.push(bytes[i]);
            i = i + 1;
            assert(bytes@.subrange(0, i as int) == bytes@.subrange(0, i - 1).push(
                bytes@[i - 1],
            ));
        }
        assert(bytes@.subrange(0, i as int) == bytes@);
        TagId { bytes: id_bytes_from_vec(v) }
    }

    /// Returns the identifier as a byte slice.
    pub fn as_bytes(&self) -> (r: &[u8])
        ensures
            r@ == self@,
    {
        id_bytes_as_slice(&self.bytes)
    }

    /// The identifier of a user's bytes starts with the prefix, and the
    /// bytes follow it unchanged.
    pub proof fn lemma_user_id_shape(bytes: Seq<u8>)
        ensures
            Self::user_id(bytes).len() == bytes.len() + 1,
            Self::user_id(bytes)[0] == USER_PREFIX,
            Self::user_id(bytes).skip(1) == bytes,
            Self::is_user_id(Self::user_id(bytes)),
    {
    }

    /// Different bytes give different identifiers.
    pub proof fn lemma_user_id_injective(b1: Seq<u8>, b2: Seq<u8>)
        requires
            b1 != b2,
        ensures
            Self::user_id(b1) != Self::user_id(b2),
    {
        Self::lemma_user_id_shape(b1);
        Self::lemma_user_id_shape(b2);
    }

    /// Identifiers made of different bytes are different, and `==` tells
    /// them apart.
    pub proof fn lemma_made_of_different_bytes(a: TagId, b: TagId, b1: Seq<u8>, b2: Seq<u8>)
        requires
            a@ == Self::user_id(b1),
            b@ == Self::user_id(b2),
            b1 != b2,
        ensures
            a != b,
            !PartialEqSpec::eq_spec(&a, &b),
    {
        Self::lemma_user_id_injective(b1, b2);
    }

    /// No identifier outside the user's namespace is the identifier of a
    /// user's bytes.
    pub proof fn lemma_user_id_separate(bytes: Seq<u8>, other: Seq<u8>)
        requires
            !Self::is_user_id(other),
        ensures
            Self::user_id(bytes) != other,
    {
    }
}

impl<'a> From<&'a [u8]> for TagId {
    /// Makes the identifier of a user's bytes: the prefix, then the bytes.
    fn from(value: &'a [u8]) -> (r: TagId)
        ensures
            r@ == TagId::user_id(value@),
    {
        TagId::of_user_bytes(value)
    }
}

impl<'a> FromSpecImpl<&'a [u8]> for TagId {
    /// An identifier is known by its bytes alone, so the conversion is
    /// specified by the contract of `from` and not by a value.
    open spec fn obeys_from_spec() -> bool {
        false
    }

    open spec fn from_spec(v: &'a [u8]) -> TagId {
        arbitrary()
    }
}

impl From<Vec<u8>> for TagId {
    /// Makes the identifier of a user's bytes: the prefix, then the bytes.
    fn from(value: Vec<u8>) -> (r: TagId)
        ensures
            r@ == TagId::user_id(value@),
    {
        TagId::of_user_bytes(value.as_slice())
    }
}

impl FromSpecImpl<Vec<u8>> for TagId {
    /// An identifier is known by its bytes alone, so the conversion is
    /// specified by the contract of `from` and not by a value.
    open spec fn obeys_from_spec() -> bool {
        false
    }

    open spec fn from_spec(v: Vec<u8>) -> TagId {
        arbitrary()
    }
}

impl<const N: usize> From<[u8; N]> for TagId {
    /// Makes the identifier of a user's bytes: the prefix, then the bytes.
    fn from(value: [u8; N]) -> (r: TagId)
        ensures
            r@ == TagId::user_id(value@),
    {
        TagId::of_user_bytes(value.as_slice())
    }
}

impl<const N: usize> FromSpecImpl<[u8; N]> for TagId {
    /// An identifier is known by its bytes alone, so the conversion is
    /// specified by the contract of `from` and not by a value.
    open spec fn obeys_from_spec() -> bool {
        false
    }

    open spec fn from_spec(v: [u8; N]) -> TagId {
        arbitrary()
    }
}

impl Clone for TagId {
    fn clone(&self) -> (r: TagId)
        ensures
            r@ == self@,
    {
        TagId { bytes: id_bytes_from_vec(slice_to_vec(self.as_bytes())) }
    }
}

impl PartialEq for TagId {
    fn eq(&self, other: &TagId) -> (r: bool) {
        bytes_equal(self.as_bytes(), other.as_bytes())
    }
}

impl PartialEqSpecImpl for TagId {
    open spec fn obeys_eq_spec() -> bool {
        true
    }

    open spec fn eq_spec(&self, other: &TagId) -> bool {
        self@ == other@
    }
}

impl PartialOrd for TagId {
    fn partial_cmp(&self, other: &TagId) -> (r: Option<Ordering>) {
        let a = self.as_bytes();
        let b = other.as_bytes();
        if bytes_equal(a, b) {
            Some(Ordering::Equal)
        } else if bytes_less(a, b) {
            Some(Ordering::Less)
        } else {
            Some(Ordering::Greater)
        }
    }
}

impl PartialOrdSpecImpl for TagId {
    open spec fn obeys_partial_cmp_spec() -> bool {
        true
    }

    open spec fn partial_cmp_spec(&self, other: &TagId) -> Option<Ordering> {
        if self@ == other@ {
            Some(Ordering::Equal)
        } else if lex_less(self@, other@) {
            Some(Ordering::Less)
        } else {
            Some(Ordering::Greater)
        }
    }
}

/// A list of identifiers, held in a `smallvec::SmallVec` that keeps one of
/// them inline.
///
/// The view is the sequence of the identifiers' bytes. The verifier does
/// not look inside; what the list holds is [`tag_ids_contents`].
#[verifier::external_body]
#[derive(Debug)]
pub struct TagIds {
    buf: SmallVec<[TagId; 1]>,
}

/// The bytes of each identifier that a [`TagIds`] holds, in order.
pub uninterp spec fn tag_ids_contents(l: TagIds) -> Seq<Seq<u8>>;

/// `SmallVec::from_vec`: the small vector holds the elements of `v`, in the
/// order of `v`.
#[verifier::external_body]
fn tag_ids_from_vec(v: Vec<TagId>) -> (l: TagIds)
    ensures
        tag_ids_contents(l) == TagIds::bytes_of(v@),
{
    TagIds { buf: SmallVec::from_vec(v) }
}

/// `SmallVec::as_slice`: the slice is the whole contents.
#[verifier::external_body]
fn tag_ids_as_slice(l: &TagIds) -> (s: &[TagId])
    ensures
        TagIds::bytes_of(s@) == tag_ids_contents(*l),
{
    l.buf.as_slice()
}

impl View for TagIds {
    type V = Seq<Seq<u8>>;

    /// The bytes of each identifier, in order.
    closed spec fn view(&self) -> Seq<Seq<u8>> {
        tag_ids_contents(*self)
    }
}

impl TagIds {
    /// The bytes of each identifier of `ids`, in order.
    pub open spec fn bytes_of(ids: Seq<TagId>) -> Seq<Seq<u8>> {
        ids.map_values(|id: TagId| id@)
    }

    /// Makes the list of the identifiers of `ids`, in the same order.
    pub fn new(ids: Vec<TagId>) -> (r: Self)
        ensures
            r@ == Self::bytes_of(ids@),
    {
        tag_ids_from_vec(ids)
    }

    /// The identifiers as a slice.
    pub fn as_slice(&self) -> (r: &[TagId])
        ensures
            Self::bytes_of(r@) == self@,
    {
        tag_ids_as_slice(self)
    }
}

impl Clone for TagIds {
    fn clone(&self) -> (r: TagIds)
        ensures
            r@ == self@,
    {
        let ids = self.as_slice();
        let mut v: Vec<TagId> = Vec::new();
        let mut i: usize = 0;
        while i < ids.len()
            invariant
                i <= ids.len(),
                v@.len() == i,
                forall|k: int| 0 <= k < i ==> (#[trigger] v@[k])@ == ids@[k]@,
            decreases ids.len() - i,
        {
            v.push(ids[i].clone());
            i = i + 1;
        }
        assert(Self::bytes_of(v@) == Self::bytes_of(ids@));
        TagIds::new(v)
    }
}

impl PartialEq for TagIds {
    fn eq(&self, other: &TagIds) -> (r: bool) {
        let a = self.as_slice();
        let b = other.as_slice();
        if a.len() != b.len() {
            assert(Self::bytes_of(a@).len() != Self::bytes_of(b@).len());
            return false;
        }
        let mut i: usize = 0;
        while i < a.len()
            invariant
                i <= a.len(),
                a.len() == b.len(),
                Self::bytes_of(a@) == self@,
                Self::bytes_of(b@) == other@,
                forall|k: int| 0 <= k < i ==> (#[trigger] a@[k])@ == b@[k]@,
            decreases a.len() - i,
        {
            if a[i] != b[i] {
                assert(Self::bytes_of(a@)[i as int] != Self::bytes_of(b@)[i as int]);
                return false;
            }
            i = i + 1;
        }
        assert(Self::bytes_of(a@) == Self::bytes_of(b@));
        true
    }
}

impl PartialEqSpecImpl for TagIds {
    open spec fn obeys_eq_spec() -> bool {
        true
    }

    open spec fn eq_spec(&self, other: &TagIds) -> bool {
        self@ == other@
    }
}

} // verus!
