//! Arithmetic between a vector over a real field and plain real numbers or
//! vectors of them. Boost parameters and beam energies are plain reals even
//! where the vectors they act on carry more, such as derivatives.
use crate::field::RealField;
use crate::vector::LorentzVector;
use vstd::prelude::*;

verus! {

impl<T: RealField> LorentzVector<T> {
    /// The component-wise sum with a vector of plain reals.
    pub open spec fn plus_real(self, other: LorentzVector<T::Real>) -> Self {
        LorentzVector {
            t: self.t.add_real_spec(other.t),
            x: self.x.add_real_spec(other.x),
            y: self.y.add_real_spec(other.y),
            z: self.z.add_real_spec(other.z),
        }
    }

    /// The component-wise difference with a vector of plain reals.
    pub open spec fn minus_real(self, other: LorentzVector<T::Real>) -> Self {
        LorentzVector {
            t: self.t.sub_real_spec(other.t),
            x: self.x.sub_real_spec(other.x),
            y: self.y.sub_real_spec(other.y),
            z: self.z.sub_real_spec(other.z),
        }
    }

    /// The vector with every component multiplied by the plain real `r`.
    pub open spec fn times_real(self, r: T::Real) -> Self {
        LorentzVector {
            t: self.t.mul_real_spec(r),
            x: self.x.mul_real_spec(r),
            y: self.y.mul_real_spec(r),
            z: self.z.mul_real_spec(r),
        }
    }

    /// The vector of the real components of the components.
    pub open spec fn real_part_spec(self) -> LorentzVector<T::Real> {
        LorentzVector {
            t: self.t.real_part_spec(),
            x: self.x.real_part_spec(),
            y: self.y.real_part_spec(),
            z: self.z.real_part_spec(),
        }
    }

    /// The sum with a vector of plain reals.
    pub fn add_real(&self, other: &LorentzVector<T::Real>) -> (r: LorentzVector<T>)
        ensures
            r == self.plus_real(*other),
    {
        LorentzVector {
            t: self.t.add_real(other.t),
            x: self.x.add_real(other.x),
            y: self.y.add_real(other.y),
            z: self.z.add_real(other.z),
        }
    }

    /// The difference with a vector of plain reals.
    pub fn sub_real(&self, other: &LorentzVector<T::Real>) -> (r: LorentzVector<T>)
        ensures
            r == self.minus_real(*other),
    {
        LorentzVector {
            t: self.t.sub_real(other.t),
            x: self.x.sub_real(other.x),
            y: self.y.sub_real(other.y),
            z: self.z.sub_real(other.z),
        }
    }

    /// The vector scaled by the plain real `other`.
    pub fn mul_real(&self, other: T::Real) -> (r: LorentzVector<T>)
        ensures
            r == self.times_real(other),
    {
        LorentzVector {
            t: self.t.mul_real(other),
            x: self.x.mul_real(other),
            y: self.y.mul_real(other),
            z: self.z.mul_real(other),
        }
    }

    /// Adds a vector of plain reals to the vector in place.
    pub fn add_assign_real(&mut self, other: LorentzVector<T::Real>)
        ensures
            *final(self) == old(self).plus_real(other),
    {
        self.t = self.t.add_real(other.t);
        self.x = self.x.add_real(other.x);
        self.y = self.y.add_real(other.y);
        self.z = self.z.add_real(other.z);
    }

    /// Subtracts a vector of plain reals from the vector in place.
    pub fn sub_assign_real(&mut self, other: LorentzVector<T::Real>)
        ensures
            *final(self) == old(self).minus_real(other),
    {
        self.t = self.t.sub_real(other.t);
        self.x = self.x.sub_real(other.x);
        self.y = self.y.sub_real(other.y);
        self.z = self.z.sub_real(other.z);
    }

    /// Multiplies the vector by the plain real `other` in place.
    pub fn mul_assign_real(&mut self, other: T::Real)
        ensures
            *final(self) == old(self).times_real(other),
    {
        self.t = self.t.mul_real(other);
        self.x = self.x.mul_real(other);
        self.y = self.y.mul_real(other);
        self.z = self.z.mul_real(other);
    }

    /// The vector of the real components: what is left of each component
    /// without what it carries besides the plain real.
    pub fn real_part(&self) -> (r: LorentzVector<T::Real>)
        ensures
            r == self.real_part_spec(),
    {
        LorentzVector {
            t: self.t.real_part(),
            x: self.x.real_part(),
            y: self.y.real_part(),
            z: self.z.real_part(),
        }
    }
}

} // verus!
