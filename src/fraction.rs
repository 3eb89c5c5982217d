use vstd::prelude::*;

verus! {

/// An exact rational severity.
///
/// The ratio that a slash applies is `denominator / numerator`: a severity of
/// 1.5% is written with `denominator == 3` and `numerator == 200`. The field
/// names are kept as they are stored; the formula, not the names, is what the
/// slash computation follows.
#[derive(Clone, Copy, Debug, PartialEq, Eq)]
pub struct Fraction<T> {
    /// The multiplier of the balance.
    pub denominator: T,
    /// The divisor of the product; zero means that nothing is slashed.
    pub numerator: T,
}

impl<T: Copy> Fraction<T> {
    /// Builds a fraction from its two stored fields, in storage order.
    pub fn new(denominator: T, numerator: T) -> (r: Self)
        ensures
            r.denominator == denominator,
            r.numerator == numerator,
    {
        Fraction { denominator, numerator }
    }

    /// The multiplier of the balance.
    pub fn denominator(&self) -> (r: T)
        ensures
            r == self.denominator,
    {
        self.denominator
    }

    /// The divisor of the product.
    pub fn numerator(&self) -> (r: T)
        ensures
            r == self.numerator,
    {
        self.numerator
    }
}

} // verus!
