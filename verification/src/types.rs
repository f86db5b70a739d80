use vstd::prelude::*;

verus! {

/// An `i32` that is greater than zero.
#[derive(Debug, Clone, Copy)]
pub struct PositiveI32 {
    value: i32,
}

impl View for PositiveI32 {
    type V = int;

    closed spec fn view(&self) -> int {
        self.value as int
    }
}

impl PositiveI32 {
    #[verifier::type_invariant]
    spec fn positive(self) -> bool {
        self.value > 0
    }

    /// Wraps `value` if it is greater than zero.
    pub fn new(value: i32) -> (r: Option<PositiveI32>)
        ensures
            r is Some <==> value > 0,
            r matches Some(p) ==> p@ == value,
    {
        if value > 0 {
            Some(PositiveI32 { value })
        } else {
            None
        }
    }

    /// The value of a `PositiveI32` is an `i32`.
    pub proof fn lemma_fits_i32(self)
        ensures
            i32::MIN <= self@ <= i32::MAX,
    {
    }

    /// The wrapped value.
    pub fn get(&self) -> (r: i32)
        ensures
            r == self@,
            r > 0,
    {
        proof {
            use_type_invariant(self);
        }
        self.value
    }
}

/// An `i32` that is zero or greater.
#[derive(Debug, Clone, Copy)]
pub struct NonNegativeI32 {
    value: i32,
}

impl View for NonNegativeI32 {
    type V = int;

    closed spec fn view(&self) -> int {
        self.value as int
    }
}

impl NonNegativeI32 {
    #[verifier::type_invariant]
    spec fn non_negative(self) -> bool {
        self.value >= 0
    }

    /// Wraps `value` if it is not negative.
    pub fn new(value: i32) -> (r: Option<NonNegativeI32>)
        ensures
            r is Some <==> value >= 0,
            r matches Some(p) ==> p@ == value,
    {
        if value >= 0 {
            Some(NonNegativeI32 { value })
        } else {
            None
        }
    }

    /// The wrapped value.
    pub fn get(&self) -> (r: i32)
        ensures
            r == self@,
            r >= 0,
    {
        proof {
            use_type_invariant(self);
        }
        self.value
    }
}

} // verus!
