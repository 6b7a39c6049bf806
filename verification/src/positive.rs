//! Positive 32-bit integers.

use vstd::prelude::*;

verus! {

/// An integer between 1 and `u32::MAX`.
///
/// Zero cannot be represented: executable code makes a value only through
/// [`Positive::one`] and [`Positive::new`], and the latter refuses zero.
#[derive(Debug, Copy, Clone, PartialEq, Eq, Structural, Hash)]
pub struct Positive {
    value: u32,
}

impl View for Positive {
    type V = int;

    /// The integer that `self` holds.
    closed spec fn view(&self) -> int {
        self.value as int
    }
}

impl Positive {
    /// What every value in executable code satisfies: it is at least 1.
    #[verifier::type_invariant]
    pub closed spec fn inv(self) -> bool {
        self.value >= 1
    }

    /// The value 1.
    pub closed spec fn spec_one() -> Self {
        Positive { value: 1 }
    }

    /// The value 1, the smallest there is.
    pub fn one() -> (r: Self)
        ensures
            r == Self::spec_one(),
            r@ == 1,
    {
        Positive { value: 1 }
    }

    /// Makes a positive integer of `value`, unless `value` is zero.
    pub fn new(value: u32) -> (r: Option<Self>)
        ensures
            value == 0 <==> r is None,
            r matches Some(p) ==> p@ == value,
    {
        if value == 0 {
            None
        } else {
            Some(Positive { value })
        }
    }

    /// The integer as a `u32`.
    pub fn get(self) -> (r: u32)
        ensures
            r == self@,
            r >= 1,
    {
        proof {
            use_type_invariant(self);
        }
        self.value
    }

    /// [`Positive::spec_one`] holds the integer 1 and is a valid value.
    pub proof fn lemma_one()
        ensures
            Self::spec_one()@ == 1,
            Self::spec_one().inv(),
    {
    }

    /// The invariant says that the integer is at least 1 and fits in 32
    /// bits.
    pub proof fn lemma_inv_is_range(self)
        ensures
            self.inv() <==> 1 <= self@ <= u32::MAX,
    {
    }

    /// A value is determined by the integer that it holds.
    pub proof fn lemma_view_injective(a: Self, b: Self)
        requires
            a@ == b@,
        ensures
            a == b,
    {
    }
}

} // verus!
