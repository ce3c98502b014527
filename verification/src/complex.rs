//! Complex numbers over a field, as a scalar type for vectors, and the
//! passage between real and complex vectors.
//!
//! The arithmetic is the usual one of pairs `(re, im)`, spelled out operation
//! by operation so that a rounded backend gives the same digits wherever the
//! same formulas are used.
use crate::field::{Field, RealNumberLike};
use crate::vector::LorentzVector;
use vstd::prelude::*;
use vstd::std_specs::ops::{AddSpecImpl, SubSpecImpl};

verus! {

/// The complex number `re + i im`.
#[derive(Debug, Copy, Clone)]
pub struct Complex<T> {
    /// The real part.
    pub re: T,
    /// The imaginary part.
    pub im: T,
}

impl<T: Field> Complex<T> {
    /// The squared norm `re^2 + im^2`.
    pub open spec fn norm_sqr_spec(self) -> T {
        self.re.mul_spec(self.re).add_spec(self.im.mul_spec(self.im))
    }

    /// The sum with a real number: it adds to the real part only.
    pub open spec fn add_real_spec(self, r: T) -> Self {
        Complex { re: self.re.add_spec(r), im: self.im }
    }

    /// The difference with a real number: it subtracts from the real part
    /// only.
    pub open spec fn sub_real_spec(self, r: T) -> Self {
        Complex { re: self.re.sub_spec(r), im: self.im }
    }

    /// The complex number with the given real and imaginary part.
    pub fn new(re: T, im: T) -> (r: Self)
        ensures
            r == (Complex { re, im }),
    {
        Complex { re, im }
    }

    /// The squared norm.
    pub fn norm_sqr(&self) -> (r: T)
        ensures
            r == self.norm_sqr_spec(),
    {
        self.re.mul(self.re).add(self.im.mul(self.im))
    }

    /// The sum with the real number `r`.
    pub fn add_real(self, r: T) -> (s: Self)
        ensures
            s == self.add_real_spec(r),
    {
        Complex { re: self.re.add(r), im: self.im }
    }

    /// The difference with the real number `r`.
    pub fn sub_real(self, r: T) -> (s: Self)
        ensures
            s == self.sub_real_spec(r),
    {
        Complex { re: self.re.sub(r), im: self.im }
    }
}

impl<T: Field> Field for Complex<T> {
    open spec fn zero_spec() -> Self {
        Complex { re: T::zero_spec(), im: T::zero_spec() }
    }

    open spec fn one_spec() -> Self {
        Complex { re: T::one_spec(), im: T::zero_spec() }
    }

    /// `(a + i b) + (c + i d) = (a + c) + i (b + d)`.
    open spec fn add_spec(self, rhs: Self) -> Self {
        Complex { re: self.re.add_spec(rhs.re), im: self.im.add_spec(rhs.im) }
    }

    /// `(a + i b) - (c + i d) = (a - c) + i (b - d)`.
    open spec fn sub_spec(self, rhs: Self) -> Self {
        Complex { re: self.re.sub_spec(rhs.re), im: self.im.sub_spec(rhs.im) }
    }

    /// `(a + i b) (c + i d) = (a c - b d) + i (a d + b c)`.
    open spec fn mul_spec(self, rhs: Self) -> Self {
        Complex {
            re: self.re.mul_spec(rhs.re).sub_spec(self.im.mul_spec(rhs.im)),
            im: self.re.mul_spec(rhs.im).add_spec(self.im.mul_spec(rhs.re)),
        }
    }

    /// `(a + i b) / (c + i d) = (a c + b d) / n + i (b c - a d) / n` with the
    /// squared norm `n = c^2 + d^2` of the divisor.
    open spec fn div_spec(self, rhs: Self) -> Self {
        Complex {
            re: self.re.mul_spec(rhs.re).add_spec(self.im.mul_spec(rhs.im)).div_spec(
                rhs.norm_sqr_spec(),
            ),
            im: self.im.mul_spec(rhs.re).sub_spec(self.re.mul_spec(rhs.im)).div_spec(
                rhs.norm_sqr_spec(),
            ),
        }
    }

    /// `-(a + i b) = -a + i (-b)`.
    open spec fn neg_spec(self) -> Self {
        Complex { re: self.re.neg_spec(), im: self.im.neg_spec() }
    }

    /// `1 / (a + i b) = a / n + i (-b) / n` with the squared norm
    /// `n = a^2 + b^2`.
    open spec fn inv_spec(self) -> Self {
        Complex {
            re: self.re.div_spec(self.norm_sqr_spec()),
            im: self.im.neg_spec().div_spec(self.norm_sqr_spec()),
        }
    }

    /// `(a + i b) (c + i d) + (e + i f)
    ///   = (fma(a, c, e) - b d) + i fma(a, d, fma(b, c, f))`.
    open spec fn mul_add_spec(self, a: Self, b: Self) -> Self {
        Complex {
            re: self.re.mul_add_spec(a.re, b.re).sub_spec(self.im.mul_spec(a.im)),
            im: self.re.mul_add_spec(a.im, self.im.mul_add_spec(a.re, b.im)),
        }
    }

    /// Two complex numbers compare equal where both parts do.
    open spec fn eq_spec(self, rhs: Self) -> bool {
        self.re.eq_spec(rhs.re) && self.im.eq_spec(rhs.im)
    }

    fn zero() -> (r: Self) {
        Complex { re: T::zero(), im: T::zero() }
    }

    fn one() -> (r: Self) {
        Complex { re: T::one(), im: T::zero() }
    }

    fn add(self, rhs: Self) -> (r: Self) {
        Complex { re: self.re.add(rhs.re), im: self.im.add(rhs.im) }
    }

    fn sub(self, rhs: Self) -> (r: Self) {
        Complex { re: self.re.sub(rhs.re), im: self.im.sub(rhs.im) }
    }

    fn mul(self, rhs: Self) -> (r: Self) {
        let re = self.re.mul(rhs.re).sub(self.im.mul(rhs.im));
        let im = self.re.mul(rhs.im).add(self.im.mul(rhs.re));
        Complex { re, im }
    }

    fn div(self, rhs: Self) -> (r: Self) {
        let norm_sqr = rhs.norm_sqr();
        let re = self.re.mul(rhs.re).add(self.im.mul(rhs.im));
        let im = self.im.mul(rhs.re).sub(self.re.mul(rhs.im));
        Complex { re: re.div(norm_sqr), im: im.div(norm_sqr) }
    }

    fn neg(self) -> (r: Self) {
        Complex { re: self.re.neg(), im: self.im.neg() }
    }

    fn inv(self) -> (r: Self) {
        let norm_sqr = self.norm_sqr();
        Complex { re: self.re.div(norm_sqr), im: self.im.neg().div(norm_sqr) }
    }

    fn mul_add(self, a: Self, b: Self) -> (r: Self) {
        let re = self.re.mul_add(a.re, b.re).sub(self.im.mul(a.im));
        let im = self.re.mul_add(a.im, self.im.mul_add(a.re, b.im));
        Complex { re, im }
    }

    fn eq(self, rhs: Self) -> (r: bool) {
        self.re.eq(rhs.re) && self.im.eq(rhs.im)
    }
}

impl<T: RealNumberLike> LorentzVector<T> {
    /// The complex vector whose real parts are the components of the vector
    /// and whose imaginary parts are zero, for `on_real_axis`; the one whose
    /// imaginary parts are the components and whose real parts are zero,
    /// otherwise.
    pub open spec fn to_complex_spec(self, on_real_axis: bool) -> LorentzVector<Complex<T>> {
        if on_real_axis {
            LorentzVector {
                t: Complex { re: self.t, im: T::zero_spec() },
                x: Complex { re: self.x, im: T::zero_spec() },
                y: Complex { re: self.y, im: T::zero_spec() },
                z: Complex { re: self.z, im: T::zero_spec() },
            }
        } else {
            LorentzVector {
                t: Complex { re: T::zero_spec(), im: self.t },
                x: Complex { re: T::zero_spec(), im: self.x },
                y: Complex { re: T::zero_spec(), im: self.y },
                z: Complex { re: T::zero_spec(), im: self.z },
            }
        }
    }

    /// The vector as a complex one: along the real axis for `on_real_axis`,
    /// along the imaginary axis otherwise.
    pub fn to_complex(&self, on_real_axis: bool) -> (r: LorentzVector<Complex<T>>)
        ensures
            r == self.to_complex_spec(on_real_axis),
    {
        if on_real_axis {
            LorentzVector {
                t: Complex::new(self.t, T::zero()),
                x: Complex::new(self.x, T::zero()),
                y: Complex::new(self.y, T::zero()),
                z: Complex::new(self.z, T::zero()),
            }
        } else {
            LorentzVector {
                t: Complex::new(T::zero(), self.t),
                x: Complex::new(T::zero(), self.x),
                y: Complex::new(T::zero(), self.y),
                z: Complex::new(T::zero(), self.z),
            }
        }
    }
}

impl<T: RealNumberLike> LorentzVector<Complex<T>> {
    /// The vector of the real parts.
    pub open spec fn real_part_spec(self) -> LorentzVector<T> {
        LorentzVector { t: self.t.re, x: self.x.re, y: self.y.re, z: self.z.re }
    }

    /// The vector of the imaginary parts.
    pub open spec fn imag_spec(self) -> LorentzVector<T> {
        LorentzVector { t: self.t.im, x: self.x.im, y: self.y.im, z: self.z.im }
    }

    /// The sum with a real vector, taken as one with zero imaginary parts:
    /// the real parts add, the imaginary parts stay.
    pub open spec fn plus_real(self, other: LorentzVector<T>) -> Self {
        LorentzVector {
            t: self.t.add_real_spec(other.t),
            x: self.x.add_real_spec(other.x),
            y: self.y.add_real_spec(other.y),
            z: self.z.add_real_spec(other.z),
        }
    }

    /// The difference with a real vector, taken as one with zero imaginary
    /// parts.
    pub open spec fn minus_real(self, other: LorentzVector<T>) -> Self {
        LorentzVector {
            t: self.t.sub_real_spec(other.t),
            x: self.x.sub_real_spec(other.x),
            y: self.y.sub_real_spec(other.y),
            z: self.z.sub_real_spec(other.z),
        }
    }

    /// The vector of the real parts of the components.
    pub fn real_part(&self) -> (r: LorentzVector<T>)
        ensures
            r == self.real_part_spec(),
    {
        LorentzVector { t: self.t.re, x: self.x.re, y: self.y.re, z: self.z.re }
    }

    /// The vector of the imaginary parts of the components.
    pub fn imag(&self) -> (r: LorentzVector<T>)
        ensures
            r == self.imag_spec(),
    {
        LorentzVector { t: self.t.im, x: self.x.im, y: self.y.im, z: self.z.im }
    }
}

impl<T: RealNumberLike> core::ops::Add<LorentzVector<T>> for LorentzVector<Complex<T>> {
    type Output = LorentzVector<Complex<T>>;

    fn add(self, other: LorentzVector<T>) -> (r: LorentzVector<Complex<T>>) {
        LorentzVector {
            t: self.t.add_real(other.t),
            x: self.x.add_real(other.x),
            y: self.y.add_real(other.y),
            z: self.z.add_real(other.z),
        }
    }
}

impl<T: RealNumberLike> AddSpecImpl<LorentzVector<T>> for LorentzVector<Complex<T>> {
    open spec fn obeys_add_spec() -> bool {
        true
    }

    open spec fn add_req(self, rhs: LorentzVector<T>) -> bool {
        true
    }

    open spec fn add_spec(self, rhs: LorentzVector<T>) -> LorentzVector<Complex<T>> {
        self.plus_real(rhs)
    }
}

impl<T: RealNumberLike> core::ops::Sub<LorentzVector<T>> for LorentzVector<Complex<T>> {
    type Output = LorentzVector<Complex<T>>;

    fn sub(self, other: LorentzVector<T>) -> (r: LorentzVector<Complex<T>>) {
        LorentzVector {
            t: self.t.sub_real(other.t),
            x: self.x.sub_real(other.x),
            y: self.y.sub_real(other.y),
            z: self.z.sub_real(other.z),
        }
    }
}

impl<T: RealNumberLike> SubSpecImpl<LorentzVector<T>> for LorentzVector<Complex<T>> {
    open spec fn obeys_sub_spec() -> bool {
        true
    }

    open spec fn sub_req(self, rhs: LorentzVector<T>) -> bool {
        true
    }

    open spec fn sub_spec(self, rhs: LorentzVector<T>) -> LorentzVector<Complex<T>> {
        self.minus_real(rhs)
    }
}

} // verus!
