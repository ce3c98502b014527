//! Laws of the vector operations.
//!
//! The scalar arithmetic may round, so a law of exact arithmetic holds of a
//! vector operation only as far as the scalar operations underneath are
//! exact on the values at hand. Each law below names the scalar identities
//! it rests on, component by component, and holds for every scalar type.
use crate::complex::Complex;
use crate::field::{Field, RealNumberLike};
use crate::sequence::{ConversionError, DecodeError};
use crate::vector::LorentzVector;
use vstd::prelude::*;

verus! {

/// Adding `b` to `a` and subtracting it again gives `a` back.
pub open spec fn add_sub_cancels<T: Field>(a: T, b: T) -> bool {
    a.add_spec(b).sub_spec(b) == a
}

/// The product of `a` and `b` does not depend on their order.
pub open spec fn mul_commutes<T: Field>(a: T, b: T) -> bool {
    a.mul_spec(b) == b.mul_spec(a)
}

/// Multiplying `a` by `s` and then by the inverse of `s` gives `a` back.
pub open spec fn mul_inv_cancels<T: Field>(a: T, s: T) -> bool {
    a.mul_spec(s).mul_spec(s.inv_spec()) == a
}

/// The identities with zero and one that a boost of `v` by the velocity zero
/// rests on.
pub open spec fn exact_at_rest<T: RealNumberLike>(v: LorentzVector<T>) -> bool {
    let zero = T::zero_spec();
    let one = T::one_spec();
    // The squared velocity, 0 0 + 0 0 + 0 0, is zero and not above zero.
    &&& zero.mul_spec(zero) == zero
    &&& zero.add_spec(zero) == zero
    &&& !zero.gt_spec(zero)
    // The Lorentz factor, 1 / sqrt(1 - 0), is one.
    &&& one.sub_spec(zero) == one
    &&& one.sqrt_spec() == one
    &&& one.inv_spec() == one
    // The product of the velocity with the momentum is zero.
    &&& v.x.mul_spec(zero) == zero
    &&& v.y.mul_spec(zero) == zero
    &&& v.z.mul_spec(zero) == zero
    // The time component: 1 (t + 0) and 0 + 1 t are t.
    &&& v.t.add_spec(zero) == v.t
    &&& zero.add_spec(v.t) == v.t
    &&& one.mul_spec(v.t) == v.t
    // The spatial components: 0 t + c, fused, is c.
    &&& zero.mul_add_spec(v.t, v.x) == v.x
    &&& zero.mul_add_spec(v.t, v.y) == v.y
    &&& zero.mul_add_spec(v.t, v.z) == v.z
}

/// The identities that make `p` coincide spatially with itself: each spatial
/// component less itself is zero, the norm of the zero vector is zero, and
/// zero lies below the square of the tolerance.
pub open spec fn exact_self_distance<T: RealNumberLike>(p: LorentzVector<T>) -> bool {
    let zero = T::zero_spec();
    &&& p.x.sub_spec(p.x) == zero
    &&& p.y.sub_spec(p.y) == zero
    &&& p.z.sub_spec(p.z) == zero
    &&& zero.mul_spec(zero) == zero
    &&& zero.add_spec(zero) == zero
    &&& zero.sqrt_spec() == zero
    &&& zero.lt_spec(
        LorentzVector::<T>::tolerance_spec().mul_spec(LorentzVector::<T>::tolerance_spec()),
    )
}

/// The sum of two vectors less the second is the first, exactly where the
/// scalar sum and difference cancel in each of the four components.
pub proof fn lemma_add_then_sub<T: Field>(a: LorentzVector<T>, b: LorentzVector<T>)
    ensures
        a.plus(b).minus(b) == a <==> ({
            &&& add_sub_cancels(a.t, b.t)
            &&& add_sub_cancels(a.x, b.x)
            &&& add_sub_cancels(a.y, b.y)
            &&& add_sub_cancels(a.z, b.z)
        }),
{
}

/// The Minkowski product is symmetric where the scalar product of each pair
/// of components is.
pub proof fn lemma_dot_symmetric<T: Field>(a: LorentzVector<T>, b: LorentzVector<T>)
    requires
        mul_commutes(a.t, b.t),
        mul_commutes(a.x, b.x),
        mul_commutes(a.y, b.y),
        mul_commutes(a.z, b.z),
    ensures
        a.dot_spec(b) == b.dot_spec(a),
        a.spatial_dot_spec(b) == b.spatial_dot_spec(a),
        a.euclidean_dot_spec(b) == b.euclidean_dot_spec(a),
{
}

/// A vector scaled by `s` and then divided by `s` is the vector again,
/// exactly where multiplying by `s` and by its inverse cancel in each of the
/// four components.
pub proof fn lemma_scale_then_divide<T: Field>(a: LorentzVector<T>, s: T)
    ensures
        a.times(s).over(s) == a <==> ({
            &&& mul_inv_cancels(a.t, s)
            &&& mul_inv_cancels(a.x, s)
            &&& mul_inv_cancels(a.y, s)
            &&& mul_inv_cancels(a.z, s)
        }),
{
}

/// The Minkowski square of the zero vector is zero, and that of the unit
/// vector in time is one, where the products and differences of zero and
/// one are exact.
pub proof fn lemma_square_of_units<T: Field>()
    requires
        T::zero_spec().mul_spec(T::zero_spec()) == T::zero_spec(),
        T::zero_spec().sub_spec(T::zero_spec()) == T::zero_spec(),
        T::one_spec().mul_spec(T::one_spec()) == T::one_spec(),
        T::one_spec().sub_spec(T::zero_spec()) == T::one_spec(),
    ensures
        LorentzVector::<T>::zero_spec().square_spec() == T::zero_spec(),
        (LorentzVector {
            t: T::one_spec(),
            x: T::zero_spec(),
            y: T::zero_spec(),
            z: T::zero_spec(),
        }).square_spec() == T::one_spec(),
{
}

/// A boost by a velocity whose three components are zero leaves a vector
/// unchanged, where the arithmetic with zero and one is exact on it.
pub proof fn lemma_boost_at_rest<T: RealNumberLike>(v: LorentzVector<T>, b: LorentzVector<T>)
    requires
        b.x == T::zero_spec(),
        b.y == T::zero_spec(),
        b.z == T::zero_spec(),
        exact_at_rest(v),
    ensures
        v.boost_spec(b) == v,
{
}

/// The boost that carries `p` onto itself sends every vector to the zero
/// vector, the identity offset, where `p` coincides with itself: where each
/// of its spatial components less itself is exactly zero.
pub proof fn lemma_boost_from_to_itself<T: RealNumberLike>(v: LorentzVector<T>, p: LorentzVector<T>)
    requires
        exact_self_distance(p),
    ensures
        LorentzVector::coincide_spec(p, p),
        v.boost_from_to_spec(p, p) == LorentzVector::<T>::zero_spec(),
{
}

/// A vector written out as its four components and read back is the same
/// vector, by the rule of the host language and by that of a structured
/// data format.
pub proof fn lemma_sequence_round_trip<T: Field>(v: LorentzVector<T>)
    ensures
        v.to_sequence_spec().len() == 4,
        LorentzVector::from_sequence_spec(v.to_sequence_spec()) == Ok::<_, ConversionError>(v),
        LorentzVector::decode_spec(v.to_sequence_spec()) == Ok::<_, DecodeError>(v),
{
}

/// A complex vector written out as four pairs of a real and an imaginary
/// part and read back is the same vector.
pub proof fn lemma_pairs_round_trip<T: RealNumberLike>(v: LorentzVector<Complex<T>>)
    ensures
        v.to_pairs_spec().len() == 4,
        LorentzVector::from_pairs_spec(v.to_pairs_spec()) == Ok::<_, ConversionError>(v),
{
}

/// A sequence is read as a vector only where it has a length that its rule
/// accepts: three or four from a host language, exactly four from a
/// structured data format.
pub proof fn lemma_length_decides<T: RealNumberLike>(s: Seq<T>, pairs: Seq<(T, T)>)
    ensures
        LorentzVector::<T>::from_sequence_spec(s).is_ok() <==> s.len() == 3 || s.len() == 4,
        LorentzVector::<T>::decode_spec(s).is_ok() <==> s.len() == 4,
        LorentzVector::<Complex<T>>::from_pairs_spec(pairs).is_ok() <==> pairs.len() == 3
            || pairs.len() == 4,
{
}

} // verus!
