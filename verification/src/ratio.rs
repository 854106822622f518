use vstd::prelude::*;

verus! {

/// An exact fraction of two unsigned integers.
///
/// Sizes and coefficients that are not whole numbers are kept as fractions, so
/// that nothing is rounded before the value reaches the device.
#[derive(Clone, Copy, Debug, PartialEq, Eq, Structural)]
pub struct Ratio {
    pub numer: u64,
    pub denom: u64,
}

impl Ratio {
    /// The fraction `numer / denom`.
    pub fn new(numer: u64, denom: u64) -> (ratio: Ratio)
        ensures
            ratio == (Ratio { numer, denom }),
    {
        Ratio { numer, denom }
    }

    /// The whole number `value`, as a fraction over one.
    pub fn whole(value: u64) -> (ratio: Ratio)
        ensures
            ratio == (Ratio { numer: value, denom: 1 }),
    {
        Ratio { numer: value, denom: 1 }
    }
}

} // verus!
