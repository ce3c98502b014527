//! Vector arithmetic: sums, differences, scaling, negation, component-wise
//! inversion, the in-place variants and access to a component by its index.
//!
//! The operators `+`, `-`, unary `-`, `*` by a scalar and `/` by a scalar are
//! available on vectors by value; their meaning in contracts is given by the
//! specification functions `plus`, `minus`, `negated`, `times` and `over`.
use crate::field::Field;
use crate::vector::LorentzVector;
use vstd::prelude::*;
use vstd::std_specs::ops::{AddSpecImpl, DivSpecImpl, MulSpecImpl, NegSpecImpl, SubSpecImpl};

verus! {

impl<T: Field> LorentzVector<T> {
    /// The component-wise sum.
    pub open spec fn plus(self, other: Self) -> Self {
        LorentzVector {
            t: self.t.add_spec(other.t),
            x: self.x.add_spec(other.x),
            y: self.y.add_spec(other.y),
            z: self.z.add_spec(other.z),
        }
    }

    /// The component-wise difference.
    pub open spec fn minus(self, other: Self) -> Self {
        LorentzVector {
            t: self.t.sub_spec(other.t),
            x: self.x.sub_spec(other.x),
            y: self.y.sub_spec(other.y),
            z: self.z.sub_spec(other.z),
        }
    }

    /// The vector with every component negated.
    pub open spec fn negated(self) -> Self {
        LorentzVector {
            t: self.t.neg_spec(),
            x: self.x.neg_spec(),
            y: self.y.neg_spec(),
            z: self.z.neg_spec(),
        }
    }

    /// The vector with every component multiplied by `s` on the right.
    pub open spec fn times(self, s: T) -> Self {
        LorentzVector {
            t: self.t.mul_spec(s),
            x: self.x.mul_spec(s),
            y: self.y.mul_spec(s),
            z: self.z.mul_spec(s),
        }
    }

    /// The vector divided by `s`: every component multiplied by the inverse
    /// of `s`. Where `s` has no true inverse the result is whatever the
    /// inverse that the scalar type defines leads to.
    pub open spec fn over(self, s: T) -> Self {
        self.times(s.inv_spec())
    }

    /// The vector of the inverses of the components.
    pub open spec fn inverted(self) -> Self {
        LorentzVector {
            t: self.t.inv_spec(),
            x: self.x.inv_spec(),
            y: self.y.inv_spec(),
            z: self.z.inv_spec(),
        }
    }

    /// The component at `index`: 0, 1, 2, 3 stand for `t`, `x`, `y`, `z`.
    pub open spec fn component(self, index: int) -> T
        recommends
            0 <= index < 4,
    {
        if index == 0 {
            self.t
        } else if index == 1 {
            self.x
        } else if index == 2 {
            self.y
        } else {
            self.z
        }
    }

    /// The vector with the component at `index` replaced by `value`.
    pub open spec fn with_component(self, index: int, value: T) -> Self
        recommends
            0 <= index < 4,
    {
        if index == 0 {
            LorentzVector { t: value, ..self }
        } else if index == 1 {
            LorentzVector { x: value, ..self }
        } else if index == 2 {
            LorentzVector { y: value, ..self }
        } else {
            LorentzVector { z: value, ..self }
        }
    }

    /// The vector that `add_signed` yields: `self` for sign 0, the sum for
    /// sign 1, the difference for sign -1.
    pub open spec fn add_signed_spec(self, other: Self, sign: int) -> Self
        recommends
            -1 <= sign <= 1,
    {
        if sign == 0 {
            self
        } else if sign == 1 {
            self.plus(other)
        } else {
            self.minus(other)
        }
    }

    /// Returns `self` for sign 0, `self + other` for sign 1 and
    /// `self - other` for sign -1, and leaves `self` as it was. No other sign
    /// is accepted.
    pub fn add_signed(&mut self, other: &LorentzVector<T>, sign: i8) -> (r: LorentzVector<T>)
        requires
            -1 <= sign <= 1,
        ensures
            r == old(self).add_signed_spec(*other, sign as int),
            *final(self) == *old(self),
    {
        if sign == 0 {
            *self
        } else if sign == 1 {
            *self + *other
        } else {
            *self - *other
        }
    }

    /// The vector of the inverses of the components.
    pub fn inv(self) -> (r: LorentzVector<T>)
        ensures
            r == self.inverted(),
    {
        LorentzVector { t: self.t.inv(), x: self.x.inv(), y: self.y.inv(), z: self.z.inv() }
    }

    /// Adds `other` to the vector in place.
    pub fn add_assign(&mut self, other: &LorentzVector<T>)
        ensures
            *final(self) == old(self).plus(*other),
    {
        self.t = self.t.add(other.t);
        self.x = self.x.add(other.x);
        self.y = self.y.add(other.y);
        self.z = self.z.add(other.z);
    }

    /// Subtracts `other` from the vector in place.
    pub fn sub_assign(&mut self, other: &LorentzVector<T>)
        ensures
            *final(self) == old(self).minus(*other),
    {
        self.t = self.t.sub(other.t);
        self.x = self.x.sub(other.x);
        self.y = self.y.sub(other.y);
        self.z = self.z.sub(other.z);
    }

    /// Multiplies the vector by the scalar `other` in place.
    pub fn mul_assign(&mut self, other: T)
        ensures
            *final(self) == old(self).times(other),
    {
        self.t = self.t.mul(other);
        self.x = self.x.mul(other);
        self.y = self.y.mul(other);
        self.z = self.z.mul(other);
    }

    /// The component at `index`: 0, 1, 2, 3 stand for `t`, `x`, `y`, `z`. No
    /// other index is accepted.
    pub fn index(&self, index: usize) -> (r: &T)
        requires
            index < 4,
        ensures
            *r == self.component(index as int),
    {
        if index == 0 {
            &self.t
        } else if index == 1 {
            &self.x
        } else if index == 2 {
            &self.y
        } else {
            &self.z
        }
    }

    /// A mutable reference to the component at `index`: the vector ends up
    /// with that component replaced by whatever is written through the
    /// reference, and the other three unchanged. No index above 3 is
    /// accepted.
    pub fn index_mut(&mut self, index: usize) -> (r: &mut T)
        requires
            index < 4,
        ensures
            *r == old(self).component(index as int),
            *final(self) == old(self).with_component(index as int, *final(r)),
    {
        if index == 0 {
            &mut self.t
        } else if index == 1 {
            &mut self.x
        } else if index == 2 {
            &mut self.y
        } else {
            &mut self.z
        }
    }
}

impl<T: Field> core::ops::Neg for LorentzVector<T> {
    type Output = LorentzVector<T>;

    fn neg(self) -> (r: LorentzVector<T>) {
        LorentzVector { t: self.t.neg(), x: self.x.neg(), y: self.y.neg(), z: self.z.neg() }
    }
}

impl<T: Field> NegSpecImpl for LorentzVector<T> {
    open spec fn obeys_neg_spec() -> bool {
        true
    }

    open spec fn neg_req(self) -> bool {
        true
    }

    open spec fn neg_spec(self) -> LorentzVector<T> {
        self.negated()
    }
}

impl<T: Field> core::ops::Add for LorentzVector<T> {
    type Output = LorentzVector<T>;

    fn add(self, other: LorentzVector<T>) -> (r: LorentzVector<T>) {
        LorentzVector {
            t: self.t.add(other.t),
            x: self.x.add(other.x),
            y: self.y.add(other.y),
            z: self.z.add(other.z),
        }
    }
}

impl<T: Field> AddSpecImpl for LorentzVector<T> {
    open spec fn obeys_add_spec() -> bool {
        true
    }

    open spec fn add_req(self, rhs: LorentzVector<T>) -> bool {
        true
    }

    open spec fn add_spec(self, rhs: LorentzVector<T>) -> LorentzVector<T> {
        self.plus(rhs)
    }
}

impl<T: Field> core::ops::Sub for LorentzVector<T> {
    type Output = LorentzVector<T>;

    fn sub(self, other: LorentzVector<T>) -> (r: LorentzVector<T>) {
        LorentzVector {
            t: self.t.sub(other.t),
            x: self.x.sub(other.x),
            y: self.y.sub(other.y),
            z: self.z.sub(other.z),
        }
    }
}

impl<T: Field> SubSpecImpl for LorentzVector<T> {
    open spec fn obeys_sub_spec() -> bool {
        true
    }

    open spec fn sub_req(self, rhs: LorentzVector<T>) -> bool {
        true
    }

    open spec fn sub_spec(self, rhs: LorentzVector<T>) -> LorentzVector<T> {
        self.minus(rhs)
    }
}

impl<T: Field> core::ops::Mul<T> for LorentzVector<T> {
    type Output = LorentzVector<T>;

    fn mul(self, other: T) -> (r: LorentzVector<T>) {
        LorentzVector {
            t: self.t.mul(other),
            x: self.x.mul(other),
            y: self.y.mul(other),
            z: self.z.mul(other),
        }
    }
}

impl<T: Field> MulSpecImpl<T> for LorentzVector<T> {
    open spec fn obeys_mul_spec() -> bool {
        true
    }

    open spec fn mul_req(self, rhs: T) -> bool {
        true
    }

    open spec fn mul_spec(self, rhs: T) -> LorentzVector<T> {
        self.times(rhs)
    }
}

impl<T: Field> core::ops::Div<T> for LorentzVector<T> {
    type Output = LorentzVector<T>;

    fn div(self, other: T) -> (r: LorentzVector<T>) {
        let o = other.inv();
        self * o
    }
}

impl<T: Field> DivSpecImpl<T> for LorentzVector<T> {
    open spec fn obeys_div_spec() -> bool {
        true
    }

    open spec fn div_req(self, rhs: T) -> bool {
        true
    }

    open spec fn div_spec(self, rhs: T) -> LorentzVector<T> {
        self.over(rhs)
    }
}

} // verus!
