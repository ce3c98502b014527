//! Capability contracts for the scalar types a Lorentz vector can be built over.
//!
//! Each capability is a trait that pairs every executable operation with a
//! specification function of the same shape. The executable operation promises
//! to return exactly the value of its specification function, so an
//! implementation commits to operations that are functions of their arguments
//! alone. Everything the vector, observable and boost code proves is stated
//! over these specification functions and therefore holds for any scalar
//! backend that keeps this promise: native reals, complex numbers or
//! differentiable numbers.
//!
//! Nothing here claims that the operations obey the algebraic laws of a
//! mathematical field. Rounded arithmetic does not, and the laws that the
//! library proves name the exact scalar identities they rest on.
use vstd::prelude::*;

verus! {

/// Ring-like arithmetic with an inverse, a fused multiply-add, an equality
/// test and two neutral elements: the least a scalar must offer to back a
/// vector.
pub trait Field: Sized + Copy + core::fmt::Debug {
    /// The neutral element of addition.
    spec fn zero_spec() -> Self;

    /// The neutral element of multiplication.
    spec fn one_spec() -> Self;

    /// The sum `self + rhs`.
    spec fn add_spec(self, rhs: Self) -> Self;

    /// The difference `self - rhs`.
    spec fn sub_spec(self, rhs: Self) -> Self;

    /// The product `self * rhs`.
    spec fn mul_spec(self, rhs: Self) -> Self;

    /// The quotient `self / rhs`.
    spec fn div_spec(self, rhs: Self) -> Self;

    /// The additive inverse `-self`.
    spec fn neg_spec(self) -> Self;

    /// The multiplicative inverse `1 / self`. A scalar without a true inverse
    /// yields whatever the backend defines, such as an infinity.
    spec fn inv_spec(self) -> Self;

    /// The fused multiply-add `self * a + b`, rounded once where the
    /// backend fuses the two operations.
    spec fn mul_add_spec(self, a: Self, b: Self) -> Self;

    /// The backend's equality test. It need not agree with equality of
    /// values: a not-a-number differs from itself, and zeros of either sign
    /// compare equal.
    spec fn eq_spec(self, rhs: Self) -> bool;

    fn zero() -> (r: Self)
        ensures
            r == Self::zero_spec(),
    ;

    fn one() -> (r: Self)
        ensures
            r == Self::one_spec(),
    ;

    fn add(self, rhs: Self) -> (r: Self)
        ensures
            r == self.add_spec(rhs),
    ;

    fn sub(self, rhs: Self) -> (r: Self)
        ensures
            r == self.sub_spec(rhs),
    ;

    fn mul(self, rhs: Self) -> (r: Self)
        ensures
            r == self.mul_spec(rhs),
    ;

    fn div(self, rhs: Self) -> (r: Self)
        ensures
            r == self.div_spec(rhs),
    ;

    fn neg(self) -> (r: Self)
        ensures
            r == self.neg_spec(),
    ;

    fn inv(self) -> (r: Self)
        ensures
            r == self.inv_spec(),
    ;

    fn mul_add(self, a: Self, b: Self) -> (r: Self)
        ensures
            r == self.mul_add_spec(a, b),
    ;

    fn eq(self, rhs: Self) -> (r: bool)
        ensures
            r == self.eq_spec(rhs),
    ;
}

/// A field that behaves like a floating-point real number: it is ordered, has
/// a machine epsilon and extreme values, and offers the elementary functions
/// that the kinematic observables and the boosts need.
pub trait RealNumberLike: Field {
    /// The strict order `self < rhs`.
    spec fn lt_spec(self, rhs: Self) -> bool;

    /// The strict order `self > rhs`.
    spec fn gt_spec(self, rhs: Self) -> bool;

    /// The machine epsilon: the gap between one and the next larger value.
    spec fn epsilon_spec() -> Self;

    /// The largest finite value.
    spec fn max_value_spec() -> Self;

    /// The smallest finite value.
    spec fn min_value_spec() -> Self;

    /// The absolute value.
    spec fn abs_spec(self) -> Self;

    /// The magnitude of `self` with the sign of `sign`.
    spec fn copysign_spec(self, sign: Self) -> Self;

    /// The square root.
    spec fn sqrt_spec(self) -> Self;

    /// The natural logarithm.
    spec fn ln_spec(self) -> Self;

    /// The tangent, of an angle in radians.
    spec fn tan_spec(self) -> Self;

    /// The inverse cosine, in radians.
    spec fn acos_spec(self) -> Self;

    /// The angle of the point with ordinate `self` and abscissa `other`, in
    /// radians: the four-quadrant inverse tangent of `self / other`.
    spec fn atan2_spec(self, other: Self) -> Self;

    fn lt(self, rhs: Self) -> (r: bool)
        ensures
            r == self.lt_spec(rhs),
    ;

    fn gt(self, rhs: Self) -> (r: bool)
        ensures
            r == self.gt_spec(rhs),
    ;

    fn epsilon() -> (r: Self)
        ensures
            r == Self::epsilon_spec(),
    ;

    fn max_value() -> (r: Self)
        ensures
            r == Self::max_value_spec(),
    ;

    fn min_value() -> (r: Self)
        ensures
            r == Self::min_value_spec(),
    ;

    fn abs(self) -> (r: Self)
        ensures
            r == self.abs_spec(),
    ;

    fn copysign(self, sign: Self) -> (r: Self)
        ensures
            r == self.copysign_spec(sign),
    ;

    fn sqrt(self) -> (r: Self)
        ensures
            r == self.sqrt_spec(),
    ;

    fn ln(self) -> (r: Self)
        ensures
            r == self.ln_spec(),
    ;

    fn tan(self) -> (r: Self)
        ensures
            r == self.tan_spec(),
    ;

    fn acos(self) -> (r: Self)
        ensures
            r == self.acos_spec(),
    ;

    fn atan2(self, other: Self) -> (r: Self)
        ensures
            r == self.atan2_spec(other),
    ;
}

/// A field built on plain real numbers, such as a differentiable number: it
/// mixes with a plain real in sums, differences, products, quotients and
/// comparisons. Boost factors and beam energies are plain reals
/// even where the vectors they act on carry derivatives.
pub trait RealField: Field {
    /// The plain real number type that this field mixes with.
    type Real: Field;

    /// The field element that stands for a plain real.
    spec fn from_real_spec(r: Self::Real) -> Self;

    /// The plain real that the field element is built on: its real
    /// component, without what it carries besides.
    spec fn real_part_spec(self) -> Self::Real;

    /// The sum `self + r` with a plain real.
    spec fn add_real_spec(self, r: Self::Real) -> Self;

    /// The difference `self - r` with a plain real.
    spec fn sub_real_spec(self, r: Self::Real) -> Self;

    /// The product `self * r` with a plain real.
    spec fn mul_real_spec(self, r: Self::Real) -> Self;

    /// The quotient `self / r` by a plain real.
    spec fn div_real_spec(self, r: Self::Real) -> Self;

    /// The strict order `self < r` against a plain real.
    spec fn lt_real_spec(self, r: Self::Real) -> bool;

    fn from_real(r: Self::Real) -> (s: Self)
        ensures
            s == Self::from_real_spec(r),
    ;

    fn real_part(self) -> (r: Self::Real)
        ensures
            r == self.real_part_spec(),
    ;

    fn add_real(self, r: Self::Real) -> (s: Self)
        ensures
            s == self.add_real_spec(r),
    ;

    fn sub_real(self, r: Self::Real) -> (s: Self)
        ensures
            s == self.sub_real_spec(r),
    ;

    fn mul_real(self, r: Self::Real) -> (s: Self)
        ensures
            s == self.mul_real_spec(r),
    ;

    fn div_real(self, r: Self::Real) -> (s: Self)
        ensures
            s == self.div_real_spec(r),
    ;

    fn lt_real(self, r: Self::Real) -> (b: bool)
        ensures
            b == self.lt_real_spec(r),
    ;
}

} // verus!
