use vstd::prelude::*;

verus! {

/// An exact quotient of a pixel count by an image extent.
///
/// A fraction whose denominator is zero has no finite value. It is unbounded
/// with the sign of its numerator, and undefined when the numerator is zero
/// as well, which is what IEEE 754 division gives for the same operands.
#[derive(Debug, Clone, Copy, PartialEq, Eq, Structural)]
pub struct Fraction {
    pub numerator: i32,
    pub denominator: usize,
}

impl Fraction {
    /// Neither a finite nor an unbounded value: zero over zero.
    pub open spec fn is_undefined(self) -> bool {
        self.numerator == 0 && self.denominator == 0
    }

    /// The order of two defined fractions by value.
    ///
    /// With a positive denominator on either side this is the comparison of
    /// the cross products. Two unbounded fractions compare by their signs.
    pub open spec fn le(self, other: Fraction) -> bool {
        if self.denominator == 0 && other.denominator == 0 {
            self.numerator < 0 || other.numerator > 0
        } else {
            self.numerator * other.denominator <= other.numerator * self.denominator
        }
    }

    /// The smaller of two fractions. An undefined operand is passed over, and
    /// of two equal values the first is kept.
    pub open spec fn spec_min(self, other: Fraction) -> Fraction {
        if self.is_undefined() {
            other
        } else if other.is_undefined() {
            self
        } else if self.le(other) {
            self
        } else {
            other
        }
    }

    /// Builds the fraction `numerator / denominator`.
    pub fn new(numerator: i32, denominator: usize) -> (fraction: Fraction)
        ensures
            fraction == (Fraction { numerator, denominator }),
    {
        Fraction { numerator, denominator }
    }

    /// Returns the smaller of `self` and `other`.
    pub fn min(self, other: Fraction) -> (smaller: Fraction)
        ensures
            smaller == self.spec_min(other),
    {
        if self.numerator == 0 && self.denominator == 0 {
            return other;
        }
        if other.numerator == 0 && other.denominator == 0 {
            return self;
        }
        if self.denominator == 0 && other.denominator == 0 {
            return if self.numerator < 0 || other.numerator > 0 {
                self
            } else {
                other
            };
        }
        let left: i128 = cross_product(self.numerator, other.denominator);
        let right: i128 = cross_product(other.numerator, self.denominator);
        if left <= right {
            self
        } else {
            other
        }
    }
}

/// Of two fractions with positive denominators, the smaller is one of the
/// two and is greater than neither.
pub proof fn lemma_min_is_least(a: Fraction, b: Fraction)
    requires
        a.denominator > 0,
        b.denominator > 0,
    ensures
        a.spec_min(b) == a || a.spec_min(b) == b,
        a.spec_min(b).le(a),
        a.spec_min(b).le(b),
{
}

/// The product of a numerator and a denominator, in a width that holds it.
fn cross_product(numerator: i32, denominator: usize) -> (product: i128)
    ensures
        product == numerator * denominator,
{
    let n: i128 = numerator as i128;
    let d: i128 = denominator as i128;
    assert(-0x8000_0000 * 0x1_0000_0000_0000_0000 <= n * d <= 0x8000_0000
        * 0x1_0000_0000_0000_0000) by (nonlinear_arith)
        requires
            -0x8000_0000 <= n <= 0x8000_0000,
            0 <= d <= 0x1_0000_0000_0000_0000,
    ;
    n * d
}

} // verus!
