//! The four-component vector, its constructors and its products.
use crate::field::Field;
use vstd::prelude::*;
use vstd::std_specs::convert::{FromSpec, IntoSpec};
use vstd::string::StringExecFns;

verus! {

/// A four-vector `(t, x, y, z)` under the metric signature `(+, -, -, -)`:
/// `t` is the time-like or energy-like component, `x`, `y`, `z` are the
/// spatial ones. It is a plain value with no invariant beyond its type.
#[derive(Debug, Copy, Clone)]
pub struct LorentzVector<T: Field> {
    pub t: T,
    pub x: T,
    pub y: T,
    pub z: T,
}

impl<T: Field> LorentzVector<T> {
    /// The vector whose four components are the scalar zero.
    pub open spec fn zero_spec() -> Self {
        LorentzVector { t: T::zero_spec(), x: T::zero_spec(), y: T::zero_spec(), z: T::zero_spec() }
    }

    /// The vector with the spatial components negated.
    pub open spec fn dual_spec(self) -> Self {
        LorentzVector {
            t: self.t,
            x: self.x.neg_spec(),
            y: self.y.neg_spec(),
            z: self.z.neg_spec(),
        }
    }

    /// The spatial product `x1 x2 + y1 y2 + z1 z2`, summed from the left.
    pub open spec fn spatial_dot_spec(self, other: Self) -> T {
        self.x.mul_spec(other.x).add_spec(self.y.mul_spec(other.y)).add_spec(
            self.z.mul_spec(other.z),
        )
    }

    /// The spatial product of the vector with itself.
    pub open spec fn spatial_squared_spec(self) -> T {
        self.spatial_dot_spec(self)
    }

    /// The Minkowski product `t1 t2 - x1 x2 - y1 y2 - z1 z2`, with the
    /// spatial terms subtracted one after the other.
    pub open spec fn dot_spec(self, other: Self) -> T {
        self.t.mul_spec(other.t).sub_spec(self.x.mul_spec(other.x)).sub_spec(
            self.y.mul_spec(other.y),
        ).sub_spec(self.z.mul_spec(other.z))
    }

    /// The Minkowski product of the vector with itself.
    pub open spec fn square_spec(self) -> T {
        self.dot_spec(self)
    }

    /// The Minkowski product in which the spatial product is formed first
    /// and subtracted from `t1 t2` in one step.
    pub open spec fn dot_less_spatial_spec(self, other: Self) -> T {
        self.t.mul_spec(other.t).sub_spec(self.spatial_dot_spec(other))
    }

    /// The product under the all-positive metric,
    /// `t1 t2 + x1 x2 + y1 y2 + z1 z2`, summed from the left.
    pub open spec fn euclidean_dot_spec(self, other: Self) -> T {
        self.t.mul_spec(other.t).add_spec(self.x.mul_spec(other.x)).add_spec(
            self.y.mul_spec(other.y),
        ).add_spec(self.z.mul_spec(other.z))
    }

    /// The all-positive product of the vector with itself.
    pub open spec fn euclidean_square_spec(self) -> T {
        self.euclidean_dot_spec(self)
    }

    /// The component-wise product.
    pub open spec fn comp_mul_spec(self, other: Self) -> Self {
        LorentzVector {
            t: self.t.mul_spec(other.t),
            x: self.x.mul_spec(other.x),
            y: self.y.mul_spec(other.y),
            z: self.z.mul_spec(other.z),
        }
    }

    /// The zero vector.
    pub fn new() -> (r: Self)
        ensures
            r == Self::zero_spec(),
    {
        LorentzVector { t: T::zero(), x: T::zero(), y: T::zero(), z: T::zero() }
    }

    /// The vector with the given components.
    pub fn from_args(t: T, x: T, y: T, z: T) -> (r: Self)
        ensures
            r == (LorentzVector { t, x, y, z }),
    {
        LorentzVector { t, x, y, z }
    }

    /// The vector whose components are the four elements of `v`, in the
    /// order `t`, `x`, `y`, `z`.
    pub fn from_slice(v: &[T]) -> (r: Self)
        requires
            v@.len() == 4,
        ensures
            r == (LorentzVector { t: v@[0], x: v@[1], y: v@[2], z: v@[3] }),
    {
        LorentzVector { t: v[0], x: v[1], y: v[2], z: v[3] }
    }

    /// The vector whose components are the four elements of `v`, in the
    /// order `t`, `x`, `y`, `z`.
    pub fn from_vec(v: Vec<T>) -> (r: Self)
        requires
            v@.len() == 4,
        ensures
            r == (LorentzVector { t: v@[0], x: v@[1], y: v@[2], z: v@[3] }),
    {
        LorentzVector { t: v[0], x: v[1], y: v[2], z: v[3] }
    }

    /// The dual vector: the same time component, the spatial ones negated.
    pub fn dual(&self) -> (r: Self)
        ensures
            r == self.dual_spec(),
    {
        LorentzVector { t: self.t, x: self.x.neg(), y: self.y.neg(), z: self.z.neg() }
    }

    /// The Minkowski square `t^2 - x^2 - y^2 - z^2`.
    pub fn square(&self) -> (r: T)
        ensures
            r == self.square_spec(),
    {
        self.t.mul(self.t).sub(self.x.mul(self.x)).sub(self.y.mul(self.y)).sub(self.z.mul(self.z))
    }

    /// The Minkowski product with `other`.
    pub fn dot(&self, other: &LorentzVector<T>) -> (r: T)
        ensures
            r == self.dot_spec(*other),
    {
        self.t.mul(other.t).sub(self.x.mul(other.x)).sub(self.y.mul(other.y)).sub(
            self.z.mul(other.z),
        )
    }

    /// The spatial square `x^2 + y^2 + z^2`.
    pub fn spatial_squared(&self) -> (r: T)
        ensures
            r == self.spatial_squared_spec(),
    {
        self.x.mul(self.x).add(self.y.mul(self.y)).add(self.z.mul(self.z))
    }

    /// The spatial product with `other`.
    pub fn spatial_dot(&self, other: &LorentzVector<T>) -> (r: T)
        ensures
            r == self.spatial_dot_spec(*other),
    {
        self.x.mul(other.x).add(self.y.mul(other.y)).add(self.z.mul(other.z))
    }

    /// The Minkowski and the spatial product with `other` from one pass: the
    /// spatial product is formed once and subtracted from `t1 t2`.
    pub fn dot_spatial_dot(&self, other: &LorentzVector<T>) -> (r: (T, T))
        ensures
            r.0 == self.dot_less_spatial_spec(*other),
            r.1 == self.spatial_dot_spec(*other),
    {
        let s = self.x.mul(other.x).add(self.y.mul(other.y)).add(self.z.mul(other.z));
        (self.t.mul(other.t).sub(s), s)
    }

    /// The square under the all-positive metric, `t^2 + x^2 + y^2 + z^2`.
    pub fn euclidean_square(&self) -> (r: T)
        ensures
            r == self.euclidean_square_spec(),
    {
        self.t.mul(self.t).add(self.x.mul(self.x)).add(self.y.mul(self.y)).add(self.z.mul(self.z))
    }

    /// The component-wise product with `other`.
    pub fn comp_mul(&self, other: &LorentzVector<T>) -> (r: Self)
        ensures
            r == self.comp_mul_spec(*other),
    {
        LorentzVector::from_args(
            self.t.mul(other.t),
            self.x.mul(other.x),
            self.y.mul(other.y),
            self.z.mul(other.z),
        )
    }

    /// The product with `other` under the all-positive metric.
    pub fn euclidean_dot(&self, other: &LorentzVector<T>) -> (r: T)
        ensures
            r == self.euclidean_dot_spec(*other),
    {
        self.t.mul(other.t).add(self.x.mul(other.x)).add(self.y.mul(other.y)).add(
            self.z.mul(other.z),
        )
    }

    /// Applies `map` to each component, in the order `t`, `x`, `y`, `z`, and
    /// collects the results in a vector over the scalar type it returns.
    pub fn map<F, U: Field>(&self, map: F) -> (r: LorentzVector<U>) where F: Fn(T) -> U
        requires
            call_requires(map, (self.t,)),
            call_requires(map, (self.x,)),
            call_requires(map, (self.y,)),
            call_requires(map, (self.z,)),
        ensures
            call_ensures(map, (self.t,), r.t),
            call_ensures(map, (self.x,), r.x),
            call_ensures(map, (self.y,), r.y),
            call_ensures(map, (self.z,), r.z),
    {
        LorentzVector { t: map(self.t), x: map(self.x), y: map(self.y), z: map(self.z) }
    }

    /// Converts a vector over `U` component by component through `Into`.
    pub fn from<U: Field + Into<T>>(a: LorentzVector<U>) -> (r: Self)
        ensures
            call_ensures(U::into, (a.t,), r.t),
            call_ensures(U::into, (a.x,), r.x),
            call_ensures(U::into, (a.y,), r.y),
            call_ensures(U::into, (a.z,), r.z),
            U::obeys_into_spec() ==> r == (LorentzVector {
                t: a.t.into_spec(),
                x: a.x.into_spec(),
                y: a.y.into_spec(),
                z: a.z.into_spec(),
            }),
    {
        LorentzVector { t: a.t.into(), x: a.x.into(), y: a.y.into(), z: a.z.into() }
    }

    /// Converts the vector component by component through `From`.
    pub fn convert<U: Field + From<T>>(&self) -> (r: LorentzVector<U>)
        ensures
            call_ensures(U::from, (self.t,), r.t),
            call_ensures(U::from, (self.x,), r.x),
            call_ensures(U::from, (self.y,), r.y),
            call_ensures(U::from, (self.z,), r.z),
            U::obeys_from_spec() ==> r == (LorentzVector {
                t: U::from_spec(self.t),
                x: U::from_spec(self.x),
                y: U::from_spec(self.y),
                z: U::from_spec(self.z),
            }),
    {
        LorentzVector {
            t: U::from(self.t),
            x: U::from(self.x),
            y: U::from(self.y),
            z: U::from(self.z),
        }
    }

    /// Converts the vector component by component with `convert`, which
    /// answers `None` for a value that the target type cannot represent. No
    /// vector with such a component is accepted.
    pub fn cast<U: Field, F>(&self, convert: F) -> (r: LorentzVector<U>) where
        F: Fn(T) -> Option<U>,

        requires
            call_requires(convert, (self.t,)),
            call_requires(convert, (self.x,)),
            call_requires(convert, (self.y,)),
            call_requires(convert, (self.z,)),
            forall|o: Option<U>| call_ensures(convert, (self.t,), o) ==> o.is_some(),
            forall|o: Option<U>| call_ensures(convert, (self.x,), o) ==> o.is_some(),
            forall|o: Option<U>| call_ensures(convert, (self.y,), o) ==> o.is_some(),
            forall|o: Option<U>| call_ensures(convert, (self.z,), o) ==> o.is_some(),
        ensures
            call_ensures(convert, (self.t,), Some(r.t)),
            call_ensures(convert, (self.x,), Some(r.x)),
            call_ensures(convert, (self.y,), Some(r.y)),
            call_ensures(convert, (self.z,), Some(r.z)),
    {
        LorentzVector {
            t: convert(self.t).unwrap(),
            x: convert(self.x).unwrap(),
            y: convert(self.y).unwrap(),
            z: convert(self.z).unwrap(),
        }
    }
}

impl<T: Field> Default for LorentzVector<T> {
    /// The zero vector.
    fn default() -> (r: LorentzVector<T>)
        ensures
            r == Self::zero_spec(),
    {
        LorentzVector { t: T::zero(), x: T::zero(), y: T::zero(), z: T::zero() }
    }
}

impl<T: Field> LorentzVector<T> {
    /// The spatial product formed by fused multiply-adds from the last term
    /// inwards: `fma(x1, x2, fma(y1, y2, z1 z2))`.
    pub open spec fn spatial_dot_impr_spec(self, other: Self) -> T {
        self.x.mul_add_spec(other.x, self.y.mul_add_spec(other.y, self.z.mul_spec(other.z)))
    }

    /// The fused spatial product of the vector with itself.
    pub open spec fn spatial_squared_impr_spec(self) -> T {
        self.spatial_dot_impr_spec(self)
    }

    /// The Minkowski product as one fused multiply-add of `t1 t2` and the
    /// negated fused spatial product.
    pub open spec fn dot_impr_spec(self, other: Self) -> T {
        self.t.mul_add_spec(other.t, self.spatial_dot_impr_spec(other).neg_spec())
    }

    /// The fused Minkowski product of the vector with itself.
    pub open spec fn square_impr_spec(self) -> T {
        self.dot_impr_spec(self)
    }

    /// The Minkowski square by fused multiply-adds, which round less often
    /// than `square` and so lose less to cancellation.
    pub fn square_impr(&self) -> (r: T)
        ensures
            r == self.square_impr_spec(),
    {
        self.t.mul_add(self.t, self.spatial_squared_impr().neg())
    }

    /// The spatial square by fused multiply-adds.
    pub fn spatial_squared_impr(&self) -> (r: T)
        ensures
            r == self.spatial_squared_impr_spec(),
    {
        self.x.mul_add(self.x, self.y.mul_add(self.y, self.z.mul(self.z)))
    }

    /// The Minkowski product with `other` by fused multiply-adds.
    pub fn dot_impr(&self, other: &LorentzVector<T>) -> (r: T)
        ensures
            r == self.dot_impr_spec(*other),
    {
        self.t.mul_add(other.t, self.spatial_dot_impr(other).neg())
    }

    /// The spatial product with `other` by fused multiply-adds.
    pub fn spatial_dot_impr(&self, other: &LorentzVector<T>) -> (r: T)
        ensures
            r == self.spatial_dot_impr_spec(*other),
    {
        self.x.mul_add(other.x, self.y.mul_add(other.y, self.z.mul(other.z)))
    }
}

impl<T: Field + core::fmt::Display> LorentzVector<T> {
    /// The text `(t:.., x:.., y:.., z:..)` with each component in the form
    /// that its own `Display` gives it.
    pub fn to_string(&self) -> (r: String)
        ensures
            (exists|t: String, x: String, y: String, z: String|
                {
                    &&& vstd::string::to_string_from_display_ensures::<T>(&self.t, t)
                    &&& vstd::string::to_string_from_display_ensures::<T>(&self.x, x)
                    &&& vstd::string::to_string_from_display_ensures::<T>(&self.y, y)
                    &&& vstd::string::to_string_from_display_ensures::<T>(&self.z, z)
                    &&& r@ == "(t:"@ + t@ + ", x:"@ + x@ + ", y:"@ + y@ + ", z:"@ + z@ + ")"@
                }),
    {
        let t = self.t.to_string();
        let x = self.x.to_string();
        let y = self.y.to_string();
        let z = self.z.to_string();
        let r = String::from_str("(t:").concat(t.as_str()).concat(", x:").concat(x.as_str()).concat(
            ", y:",
        ).concat(y.as_str()).concat(", z:").concat(z.as_str()).concat(")");
        r
    }
}

} // verus!
