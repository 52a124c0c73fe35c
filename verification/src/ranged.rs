use vstd::prelude::*;

verus! {

/// A ranged `u8`.
///
/// A ranged integer is an integer which must take a specific value within a
/// range of possible values -- in this case, the value must be in the range
/// `MIN..=MAX`. The range is an invariant of the type: the validating
/// constructor [`RangedU8::new`] is the only way to obtain an instance, and
/// the stored value is read-only thereafter. Equality and ordering follow
/// the wrapped value.
#[derive(Debug, Clone, Copy, PartialEq, Eq, PartialOrd, Ord)]
pub struct RangedU8<const MIN: u8, const MAX: u8>(u8);

impl<const MIN: u8, const MAX: u8> RangedU8<MIN, MAX> {
    /// The wrapped value.
    pub closed spec fn spec_get(self) -> u8 {
        self.0
    }

    #[verifier::type_invariant]
    spec fn in_range(self) -> bool {
        MIN <= self.0 <= MAX
    }

    /// Creates a new `RangedU8<MIN, MAX>`.
    ///
    /// Returns [`Some`] if the `value` provided is within the range
    /// `MIN..=MAX`, or [`None`] if the `value` provided is outside that
    /// range. The caller decides what an out-of-range value means: this
    /// constructor never panics.
    pub fn new(value: u8) -> (r: Option<Self>)
        ensures
            r is Some <==> MIN <= value <= MAX,
            r matches Some(v) ==> v.spec_get() == value,
    {
        if value >= MIN && value <= MAX {
            Some(Self(value))
        } else {
            None
        }
    }

    /// Retrieve the inner value of the `RangedU8`; total, and always within
    /// `MIN..=MAX`.
    pub fn get(self) -> (r: u8)
        ensures
            r == self.spec_get(),
            MIN <= r <= MAX,
    {
        proof {
            use_type_invariant(self);
        }
        self.0
    }
}

/// A ranged `usize`.
///
/// A ranged integer is an integer which must take a specific value within a
/// range of possible values -- in this case, the value must be in the range
/// `MIN..=MAX`. The range is an invariant of the type: the validating
/// constructor [`RangedUsize::new`] is the only way to obtain an instance,
/// and the stored value is read-only thereafter. Equality and ordering
/// follow the wrapped value.
#[derive(Debug, Clone, Copy, PartialEq, Eq, PartialOrd, Ord)]
pub struct RangedUsize<const MIN: usize, const MAX: usize>(usize);

impl<const MIN: usize, const MAX: usize> RangedUsize<MIN, MAX> {
    /// The wrapped value.
    pub closed spec fn spec_get(self) -> usize {
        self.0
    }

    #[verifier::type_invariant]
    spec fn in_range(self) -> bool {
        MIN <= self.0 <= MAX
    }

    /// Creates a new `RangedUsize<MIN, MAX>`.
    ///
    /// Returns [`Some`] if the `value` provided is within the range
    /// `MIN..=MAX`, or [`None`] if the `value` provided is outside that
    /// range. The caller decides what an out-of-range value means: this
    /// constructor never panics.
    pub fn new(value: usize) -> (r: Option<Self>)
        ensures
            r is Some <==> MIN <= value <= MAX,
            r matches Some(v) ==> v.spec_get() == value,
    {
        if value >= MIN && value <= MAX {
            Some(Self(value))
        } else {
            None
        }
    }

    /// Retrieve the inner value of the `RangedUsize`; total, and always
    /// within `MIN..=MAX`.
    pub fn get(self) -> (r: usize)
        ensures
            r == self.spec_get(),
            MIN <= r <= MAX,
    {
        proof {
            use_type_invariant(self);
        }
        self.0
    }
}

} // verus!
