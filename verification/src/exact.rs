//! Laws of the vector operations over scalars that compute exactly.
//!
//! A scalar type computes exactly where its values can be read as real
//! numbers in such a way that every operation is the operation of the real
//! numbers. Rounded arithmetic is not of this kind; what holds here holds of
//! it up to rounding only. The laws say what the formulas of the library
//! compute when nothing is lost on the way.
use crate::algebra::{
    lemma_aligned_cosine, lemma_equal_mass_ratios, lemma_half, lemma_image_square,
    lemma_light_cone, lemma_no_length, lemma_offset_difference, lemma_offset_scaled,
    lemma_product_of_difference, lemma_ratio_growth, lemma_root_of_unit, lemma_sign,
    lemma_square_kept, lemma_square_of_negative, lemma_squares, lemma_unit_direction,
    lemma_unit_length,
};
use crate::field::{Field, RealNumberLike};
use crate::vector::LorentzVector;
use vstd::prelude::*;

verus! {

/// Whether two scalars read as the same real number.
pub open spec fn same_value<T>(value: spec_fn(T) -> real, a: T, b: T) -> bool {
    value(a) == value(b)
}

/// Whether `value` reads the scalars of `T` as real numbers under which the
/// field operations of `T` are exact: scalars of the same value are the same
/// scalar, zero and one are `0` and `1`, sums, differences, products and
/// negations are those of the real numbers, and a quotient or an inverse by
/// what is not zero gives the dividend or one back when multiplied by it.
pub open spec fn exact_field<T: Field>(value: spec_fn(T) -> real) -> bool {
    &&& forall|a: T, b: T| #[trigger] same_value(value, a, b) ==> a == b
    &&& value(T::zero_spec()) == 0 as real
    &&& value(T::one_spec()) == 1 as real
    &&& forall|a: T, b: T| #[trigger] value(a.add_spec(b)) == value(a) + value(b)
    &&& forall|a: T, b: T| #[trigger] value(a.sub_spec(b)) == value(a) - value(b)
    &&& forall|a: T, b: T| #[trigger] value(a.mul_spec(b)) == value(a) * value(b)
    &&& forall|a: T| #[trigger] value(a.neg_spec()) == -value(a)
    &&& forall|a: T, b: T|
        value(b) != 0 as real ==> #[trigger] value(a.div_spec(b)) * value(b) == value(a)
    &&& forall|a: T|
        value(a) != 0 as real ==> #[trigger] value(a.inv_spec()) * value(a) == 1 as real
}

/// Whether `value` reads the scalars of `T` as real numbers under which, on
/// top of the field operations, the order, the square root of what is not
/// negative and the fused multiply-add are exact, and the machine epsilon is
/// positive.
pub open spec fn exact_real<T: RealNumberLike>(value: spec_fn(T) -> real) -> bool {
    &&& exact_field(value)
    &&& forall|a: T, b: T| #[trigger] a.lt_spec(b) == (value(a) < value(b))
    &&& forall|a: T, b: T| #[trigger] a.gt_spec(b) == (value(a) > value(b))
    &&& forall|a: T|
        value(a) >= 0 as real ==> {
            &&& #[trigger] value(a.sqrt_spec()) >= 0 as real
            &&& value(a.sqrt_spec()) * value(a.sqrt_spec()) == value(a)
        }
    &&& forall|a: T, b: T, c: T|
        #[trigger] value(a.mul_add_spec(b, c)) == value(a) * value(b) + value(c)
    &&& value(T::epsilon_spec()) > 0 as real
}

/// Whether `value` reads the scalars of `T` as real numbers under which the
/// equality test and the absolute value are exact.
pub open spec fn exact_signs<T: RealNumberLike>(value: spec_fn(T) -> real) -> bool {
    &&& forall|a: T, b: T| #[trigger] a.eq_spec(b) == (value(a) == value(b))
    &&& forall|a: T|
        #[trigger] value(a.abs_spec()) == if value(a) >= 0 as real {
            value(a)
        } else {
            -value(a)
        }
}

/// The sum of two vectors less the second is the first.
pub proof fn lemma_exact_add_then_sub<T: Field>(
    value: spec_fn(T) -> real,
    a: LorentzVector<T>,
    b: LorentzVector<T>,
)
    requires
        exact_field(value),
    ensures
        a.plus(b).minus(b) == a,
{
    let r = a.plus(b).minus(b);
    assert(same_value(value, r.t, a.t));
    assert(same_value(value, r.x, a.x));
    assert(same_value(value, r.y, a.y));
    assert(same_value(value, r.z, a.z));
}

/// The product of two scalars does not depend on their order.
proof fn lemma_exact_mul_commutes<T: Field>(value: spec_fn(T) -> real, a: T, b: T)
    requires
        exact_field(value),
    ensures
        a.mul_spec(b) == b.mul_spec(a),
{
    assert(value(a) * value(b) == value(b) * value(a)) by (nonlinear_arith);
    assert(same_value(value, a.mul_spec(b), b.mul_spec(a)));
}

/// The Minkowski product, the spatial product and the product under the
/// all-positive metric are symmetric.
pub proof fn lemma_exact_dot_symmetric<T: Field>(
    value: spec_fn(T) -> real,
    a: LorentzVector<T>,
    b: LorentzVector<T>,
)
    requires
        exact_field(value),
    ensures
        a.dot_spec(b) == b.dot_spec(a),
        a.spatial_dot_spec(b) == b.spatial_dot_spec(a),
        a.euclidean_dot_spec(b) == b.euclidean_dot_spec(a),
{
    lemma_exact_mul_commutes(value, a.t, b.t);
    lemma_exact_mul_commutes(value, a.x, b.x);
    lemma_exact_mul_commutes(value, a.y, b.y);
    lemma_exact_mul_commutes(value, a.z, b.z);
}

/// A scalar multiplied by a scalar other than zero and then by its inverse
/// is the scalar again.
proof fn lemma_exact_mul_then_inv<T: Field>(value: spec_fn(T) -> real, a: T, s: T)
    requires
        exact_field(value),
        value(s) != 0 as real,
    ensures
        a.mul_spec(s).mul_spec(s.inv_spec()) == a,
{
    let r = a.mul_spec(s).mul_spec(s.inv_spec());
    let i = value(s.inv_spec());
    assert(value(r) == value(a)) by (nonlinear_arith)
        requires
            i * value(s) == 1 as real,
            value(r) == (value(a) * value(s)) * i,
    {
        assert((value(a) * value(s)) * i == value(a) * (i * value(s)));
    }
    assert(same_value(value, r, a));
}

/// A vector scaled by a scalar other than zero and then divided by it is
/// the vector again.
pub proof fn lemma_exact_scale_then_divide<T: Field>(
    value: spec_fn(T) -> real,
    a: LorentzVector<T>,
    s: T,
)
    requires
        exact_field(value),
        s != T::zero_spec(),
    ensures
        a.times(s).over(s) == a,
{
    assert(value(s) != 0 as real) by {
        if value(s) == 0 as real {
            assert(same_value(value, s, T::zero_spec()));
        }
    }
    lemma_exact_mul_then_inv(value, a.t, s);
    lemma_exact_mul_then_inv(value, a.x, s);
    lemma_exact_mul_then_inv(value, a.y, s);
    lemma_exact_mul_then_inv(value, a.z, s);
}

/// The value of the Minkowski square of a vector.
proof fn lemma_exact_square<T: Field>(value: spec_fn(T) -> real, v: LorentzVector<T>)
    requires
        exact_field(value),
    ensures
        value(v.square_spec()) == value(v.t) * value(v.t) - value(v.x) * value(v.x) - value(v.y)
            * value(v.y) - value(v.z) * value(v.z),
{
}

/// A boost by a velocity whose three components are zero leaves every
/// vector unchanged.
pub proof fn lemma_exact_boost_at_rest<T: RealNumberLike>(
    value: spec_fn(T) -> real,
    v: LorentzVector<T>,
    b: LorentzVector<T>,
)
    requires
        exact_real(value),
        b.x == T::zero_spec(),
        b.y == T::zero_spec(),
        b.z == T::zero_spec(),
    ensures
        v.boost_spec(b) == v,
{
    let zero = T::zero_spec();
    let one = T::one_spec();
    let b2 = b.spatial_squared_spec();
    assert(value(b2) == 0 as real) by (nonlinear_arith)
        requires
            value(b2) == value(zero) * value(zero) + value(zero) * value(zero) + value(zero)
                * value(zero),
            value(zero) == 0 as real,
    ;
    let root = one.sub_spec(b2).sqrt_spec();
    assert(value(one.sub_spec(b2)) == 1 as real);
    lemma_root_of_unit(value(root));
    let gamma = LorentzVector::<T>::gamma_spec(b2);
    assert(value(gamma) == 1 as real) by (nonlinear_arith)
        requires
            value(gamma) * value(root) == 1 as real,
            value(root) == 1 as real,
    ;
    assert(!b2.gt_spec(zero));
    assert(LorentzVector::<T>::gamma2_spec(b2) == zero);
    let bp = v.spatial_dot_spec(b);
    assert(value(bp) == 0 as real) by (nonlinear_arith)
        requires
            value(bp) == value(v.x) * value(zero) + value(v.y) * value(zero) + value(v.z) * value(
                zero,
            ),
            value(zero) == 0 as real,
    ;
    let factor = zero.mul_spec(bp).add_spec(gamma.mul_spec(v.t));
    assert(value(factor) == value(v.t)) by (nonlinear_arith)
        requires
            value(factor) == value(zero) * value(bp) + value(gamma) * value(v.t),
            value(zero) == 0 as real,
            value(gamma) == 1 as real,
    ;
    let r = v.boost_spec(b);
    assert(value(r.t) == value(v.t)) by (nonlinear_arith)
        requires
            value(r.t) == value(gamma) * (value(v.t) + value(bp)),
            value(bp) == 0 as real,
            value(gamma) == 1 as real,
    ;
    assert(value(r.x) == value(v.x)) by (nonlinear_arith)
        requires
            value(r.x) == value(zero) * value(factor) + value(v.x),
            value(zero) == 0 as real,
    ;
    assert(value(r.y) == value(v.y)) by (nonlinear_arith)
        requires
            value(r.y) == value(zero) * value(factor) + value(v.y),
            value(zero) == 0 as real,
    ;
    assert(value(r.z) == value(v.z)) by (nonlinear_arith)
        requires
            value(r.z) == value(zero) * value(factor) + value(v.z),
            value(zero) == 0 as real,
    ;
    assert(same_value(value, r.t, v.t));
    assert(same_value(value, r.x, v.x));
    assert(same_value(value, r.y, v.y));
    assert(same_value(value, r.z, v.z));
}

/// The Lorentz factor of a velocity below one: `gamma^2 (1 - s) = 1`.
proof fn lemma_exact_gamma<T: RealNumberLike>(value: spec_fn(T) -> real, b2: T)
    requires
        exact_real(value),
        value(b2) < 1 as real,
    ensures
        (value(LorentzVector::<T>::gamma_spec(b2)) * value(LorentzVector::<T>::gamma_spec(b2))) * (
        (1 as real) - value(b2)) == 1 as real,
{
    let w = T::one_spec().sub_spec(b2);
    let root = value(w.sqrt_spec());
    let gam = value(LorentzVector::<T>::gamma_spec(b2));
    assert(value(w) == (1 as real) - value(b2));
    assert(root * root == value(w));
    assert(root != 0 as real) by {
        if root == 0 as real {
            assert(root * root == 0 as real) by (nonlinear_arith)
                requires
                    root == 0 as real,
            ;
        }
    }
    assert(gam * root == 1 as real);
    assert((gam * root) * (gam * root) == (gam * gam) * (root * root)) by (nonlinear_arith);
    assert((1 as real) * (1 as real) == 1 as real) by (nonlinear_arith);
}

/// The values of the components of a boosted vector, for a velocity that
/// is not zero.
proof fn lemma_exact_boost_values<T: RealNumberLike>(
    value: spec_fn(T) -> real,
    v: LorentzVector<T>,
    b: LorentzVector<T>,
)
    requires
        exact_real(value),
        b.spatial_squared_spec().gt_spec(T::zero_spec()),
    ensures
        ({
            let b2 = b.spatial_squared_spec();
            let gam = value(LorentzVector::<T>::gamma_spec(b2));
            let gam2 = value(LorentzVector::<T>::gamma2_spec(b2));
            let bp = value(v.spatial_dot_spec(b));
            let f = gam2 * bp + gam * value(v.t);
            let r = v.boost_spec(b);
            &&& value(b2) == value(b.x) * value(b.x) + value(b.y) * value(b.y) + value(b.z)
                * value(b.z)
            &&& value(b2) > 0 as real
            &&& gam2 * value(b2) == gam - (1 as real)
            &&& bp == value(v.x) * value(b.x) + value(v.y) * value(b.y) + value(v.z) * value(b.z)
            &&& value(r.t) == gam * (value(v.t) + bp)
            &&& value(r.x) == value(b.x) * f + value(v.x)
            &&& value(r.y) == value(b.y) * f + value(v.y)
            &&& value(r.z) == value(b.z) * f + value(v.z)
        }),
{
    let b2 = b.spatial_squared_spec();
    let gamma = LorentzVector::<T>::gamma_spec(b2);
    let gamma2 = LorentzVector::<T>::gamma2_spec(b2);
    assert(gamma2 == gamma.sub_spec(T::one_spec()).div_spec(b2));
    assert(value(b2) > 0 as real);
    assert(value(gamma2) * value(b2) == value(gamma) - (1 as real));
}

/// A boost by a velocity below one that is not zero keeps the Minkowski
/// square of every vector.
proof fn lemma_exact_moving_boost_keeps_square<T: RealNumberLike>(
    value: spec_fn(T) -> real,
    v: LorentzVector<T>,
    b: LorentzVector<T>,
)
    requires
        exact_real(value),
        b.spatial_squared_spec().lt_spec(T::one_spec()),
        b.spatial_squared_spec().gt_spec(T::zero_spec()),
    ensures
        v.boost_spec(b).square_spec() == v.square_spec(),
{
    let b2 = b.spatial_squared_spec();
    let gam = value(LorentzVector::<T>::gamma_spec(b2));
    let gam2 = value(LorentzVector::<T>::gamma2_spec(b2));
    let bp = value(v.spatial_dot_spec(b));
    let r = v.boost_spec(b);
    lemma_exact_boost_values(value, v, b);
    lemma_exact_gamma(value, b2);
    lemma_square_kept(
        value(v.t),
        value(v.x),
        value(v.y),
        value(v.z),
        value(b.x),
        value(b.y),
        value(b.z),
        value(b2),
        bp,
        gam,
        gam2,
        value(r.t),
        value(r.x),
        value(r.y),
        value(r.z),
    );
    lemma_exact_square(value, r);
    lemma_exact_square(value, v);
    assert(same_value(value, r.square_spec(), v.square_spec()));
}

/// A boost by a velocity below one keeps the Minkowski square of every
/// vector.
pub proof fn lemma_exact_boost_keeps_square<T: RealNumberLike>(
    value: spec_fn(T) -> real,
    v: LorentzVector<T>,
    b: LorentzVector<T>,
)
    requires
        exact_real(value),
        b.spatial_squared_spec().lt_spec(T::one_spec()),
    ensures
        v.boost_spec(b).square_spec() == v.square_spec(),
{
    let zero = T::zero_spec();
    if b.spatial_squared_spec().gt_spec(zero) {
        lemma_exact_moving_boost_keeps_square(value, v, b);
    } else {
        lemma_squares(value(b.x), value(b.y), value(b.z));
        lemma_no_length(value(b.x), value(b.y), value(b.z));
        assert(same_value(value, b.x, zero));
        assert(same_value(value, b.y, zero));
        assert(same_value(value, b.z, zero));
        lemma_exact_boost_at_rest(value, v, b);
    }
}

/// The square of the tolerance of the light-cone construction is positive.
proof fn lemma_exact_tolerance<T: RealNumberLike>(value: spec_fn(T) -> real)
    requires
        exact_real(value),
    ensures
        value(LorentzVector::<T>::tolerance_spec().mul_spec(LorentzVector::<T>::tolerance_spec()))
            > 0 as real,
{
    let tolerance = LorentzVector::<T>::tolerance_spec();
    assert(value(tolerance.mul_spec(tolerance)) > 0 as real) by (nonlinear_arith)
        requires
            value(tolerance.mul_spec(tolerance)) == value(tolerance) * value(tolerance),
            value(tolerance) == value(T::epsilon_spec()) + value(T::epsilon_spec()),
            value(T::epsilon_spec()) > 0 as real,
    ;
}

/// Every vector coincides spatially with itself, so the boost that carries
/// a vector onto itself sends every vector to the zero vector, the identity
/// offset.
pub proof fn lemma_exact_boost_from_to_itself<T: RealNumberLike>(
    value: spec_fn(T) -> real,
    v: LorentzVector<T>,
    p: LorentzVector<T>,
)
    requires
        exact_real(value),
    ensures
        LorentzVector::coincide_spec(p, p),
        v.boost_from_to_spec(p, p) == LorentzVector::<T>::zero_spec(),
{
    let d = p.minus(p);
    let s = d.spatial_squared_spec();
    assert(value(s) == 0 as real) by (nonlinear_arith)
        requires
            value(s) == value(d.x) * value(d.x) + value(d.y) * value(d.y) + value(d.z) * value(
                d.z,
            ),
            value(d.x) == 0 as real,
            value(d.y) == 0 as real,
            value(d.z) == 0 as real,
    ;
    lemma_root_of_unit(value(d.spatial_distance_spec()));
    lemma_exact_tolerance(value);
}

/// Where `p` and `q` do not coincide spatially, their distance `|d|` is
/// positive and the direction from `p` to `q` is the unit vector of their
/// difference `d`.
proof fn lemma_exact_direction<T: RealNumberLike>(
    value: spec_fn(T) -> real,
    p: LorentzVector<T>,
    q: LorentzVector<T>,
)
    requires
        exact_real(value),
        !LorentzVector::coincide_spec(p, q),
    ensures
        ({
            let n = LorentzVector::direction_spec(p, q);
            let d = value(q.minus(p).spatial_distance_spec());
            &&& d > 0 as real
            &&& value(n.x) * d == value(q.x) - value(p.x)
            &&& value(n.y) * d == value(q.y) - value(p.y)
            &&& value(n.z) * d == value(q.z) - value(p.z)
            &&& value(n.x) * (value(q.x) - value(p.x)) + value(n.y) * (value(q.y) - value(p.y))
                + value(n.z) * (value(q.z) - value(p.z)) == d
            &&& value(n.x) * value(n.x) + value(n.y) * value(n.y) + value(n.z) * value(n.z)
                == 1 as real
        }),
{
    let back = p.minus(q);
    let delta = q.minus(p);
    let dx = value(delta.x);
    let dy = value(delta.y);
    let dz = value(delta.z);
    lemma_squares(dx, dy, dz);
    assert(value(back.x) == -dx);
    assert(value(back.y) == -dy);
    assert(value(back.z) == -dz);
    assert(value(back.spatial_squared_spec()) == (-dx) * (-dx) + (-dy) * (-dy) + (-dz) * (-dz));
    assert(value(delta.spatial_squared_spec()) == dx * dx + dy * dy + dz * dz);
    assert(same_value(value, back.spatial_squared_spec(), delta.spatial_squared_spec()));
    let distance = delta.spatial_distance_spec();
    let d = value(distance);
    lemma_exact_tolerance(value);
    assert(d > 0 as real);
    assert(d * d == dx * dx + dy * dy + dz * dz);
    let i = value(distance.inv_spec());
    assert(i * d == 1 as real);
    let n = LorentzVector::direction_spec(p, q);
    assert(value(n.x) == dx * i);
    assert(value(n.y) == dy * i);
    assert(value(n.z) == dz * i);
    lemma_unit_direction(dx, dy, dz, d, i, value(n.x), value(n.y), value(n.z));
    lemma_unit_length(dx, dy, dz, d, i, value(n.x), value(n.y), value(n.z));
}

/// The light-cone components of `v` for the direction `n` are
/// `t + n . v` and `t - n . v`.
proof fn lemma_exact_components<T: RealNumberLike>(
    value: spec_fn(T) -> real,
    v: LorentzVector<T>,
    n: LorentzVector<T>,
)
    requires
        exact_real(value),
    ensures
        value(LorentzVector::plus_component_spec(v, n)) == value(v.t) + (value(n.x) * value(v.x)
            + value(n.y) * value(v.y) + value(n.z) * value(v.z)),
        value(LorentzVector::minus_component_spec(v, n)) == value(v.t) - (value(n.x) * value(v.x)
            + value(n.y) * value(v.y) + value(n.z) * value(v.z)),
{
    lemma_light_cone(
        value(v.t),
        value(v.x),
        value(v.y),
        value(v.z),
        value(n.x),
        value(n.y),
        value(n.z),
        value(LorentzVector::plus_component_spec(v, n)),
        value(LorentzVector::minus_component_spec(v, n)),
    );
}

/// Twice a component of a light-cone offset: the component `w` of the
/// light-cone direction times the ratio less one times the light-cone
/// component `c` that the offset scales.
proof fn lemma_exact_offset_of<T: RealNumberLike>(value: spec_fn(T) -> real, w: T, ratio: T, c: T)
    requires
        exact_real(value),
    ensures
        (2 as real) * value(
            w.mul_spec(ratio.sub_spec(T::one_spec())).mul_spec(
                LorentzVector::<T>::two_spec().inv_spec(),
            ).mul_spec(c),
        ) == value(w) * ((value(ratio) - (1 as real)) * value(c)),
{
    let two = LorentzVector::<T>::two_spec();
    assert(value(two) == 2 as real);
    let r = w.mul_spec(ratio.sub_spec(T::one_spec())).mul_spec(two.inv_spec()).mul_spec(c);
    lemma_offset_scaled(
        value(w),
        value(ratio) - (1 as real),
        value(two.inv_spec()),
        value(c),
        value(r),
    );
}

/// The components of the plus offset of `v`: `beta (1, n)` with
/// `2 beta = (b - 1) (t + n . v)`.
proof fn lemma_exact_plus_offset<T: RealNumberLike>(
    value: spec_fn(T) -> real,
    v: LorentzVector<T>,
    n: LorentzVector<T>,
    ratio_b: T,
)
    requires
        exact_real(value),
    ensures
        ({
            let first = LorentzVector::plus_offset_spec(v, n, ratio_b);
            let beta = value(first.t);
            &&& (2 as real) * beta == (value(ratio_b) - (1 as real)) * value(
                LorentzVector::plus_component_spec(v, n),
            )
            &&& value(first.x) == value(n.x) * beta
            &&& value(first.y) == value(n.y) * beta
            &&& value(first.z) == value(n.z) * beta
        }),
{
    let first = LorentzVector::plus_offset_spec(v, n, ratio_b);
    let along = LorentzVector::light_cone_along_spec(n);
    let c = LorentzVector::plus_component_spec(v, n);
    let g = (value(ratio_b) - (1 as real)) * value(c);
    lemma_exact_offset_of(value, along.t, ratio_b, c);
    lemma_exact_offset_of(value, along.x, ratio_b, c);
    lemma_exact_offset_of(value, along.y, ratio_b, c);
    lemma_exact_offset_of(value, along.z, ratio_b, c);
    assert(value(along.t) == 1 as real);
    assert((2 as real) * value(first.t) == (1 as real) * g);
    assert((2 as real) * value(first.t) == g);
    lemma_half(value(n.x), g, value(first.x), value(first.t));
    lemma_half(value(n.y), g, value(first.y), value(first.t));
    lemma_half(value(n.z), g, value(first.z), value(first.t));
}

/// The components of the minus offset of `v`: `alpha (1, -n)` with
/// `2 alpha = (a - 1) (t - n . v)`.
proof fn lemma_exact_minus_offset<T: RealNumberLike>(
    value: spec_fn(T) -> real,
    v: LorentzVector<T>,
    n: LorentzVector<T>,
    ratio_a: T,
)
    requires
        exact_real(value),
    ensures
        ({
            let second = LorentzVector::minus_offset_spec(v, n, ratio_a);
            let alpha = value(second.t);
            &&& (2 as real) * alpha == (value(ratio_a) - (1 as real)) * value(
                LorentzVector::minus_component_spec(v, n),
            )
            &&& value(second.x) == (-value(n.x)) * alpha
            &&& value(second.y) == (-value(n.y)) * alpha
            &&& value(second.z) == (-value(n.z)) * alpha
        }),
{
    let second = LorentzVector::minus_offset_spec(v, n, ratio_a);
    let against = LorentzVector::light_cone_against_spec(n);
    let c = LorentzVector::minus_component_spec(v, n);
    let g = (value(ratio_a) - (1 as real)) * value(c);
    lemma_exact_offset_of(value, against.t, ratio_a, c);
    lemma_exact_offset_of(value, against.x, ratio_a, c);
    lemma_exact_offset_of(value, against.y, ratio_a, c);
    lemma_exact_offset_of(value, against.z, ratio_a, c);
    assert(value(against.t) == 1 as real);
    assert((2 as real) * value(second.t) == (1 as real) * g);
    assert((2 as real) * value(second.t) == g);
    lemma_half(-value(n.x), g, value(second.x), value(second.t));
    lemma_half(-value(n.y), g, value(second.y), value(second.t));
    lemma_half(-value(n.z), g, value(second.z), value(second.t));
}

/// The boost from `p` to `q` carries `p` onto `q`, where the two differ in
/// their spatial position, neither pair of light-cone components is
/// negligible, and no light-cone component of `p` is zero.
pub proof fn lemma_exact_boost_from_to_reaches<T: RealNumberLike>(
    value: spec_fn(T) -> real,
    p: LorentzVector<T>,
    q: LorentzVector<T>,
)
    requires
        exact_real(value),
        !LorentzVector::coincide_spec(p, q),
        !LorentzVector::minus_negligible_spec(p, q),
        !LorentzVector::plus_negligible_spec(p, q),
        LorentzVector::plus_component_spec(p, LorentzVector::direction_spec(p, q))
            != T::zero_spec(),
        LorentzVector::minus_component_spec(p, LorentzVector::direction_spec(p, q))
            != T::zero_spec(),
    ensures
        p.boost_from_to_spec(p, q) == q,
{
    let n = LorentzVector::direction_spec(p, q);
    let d = value(q.minus(p).spatial_distance_spec());
    lemma_exact_direction(value, p, q);
    let p_plus = LorentzVector::plus_component_spec(p, n);
    let p_minus = LorentzVector::minus_component_spec(p, n);
    let q_plus = LorentzVector::plus_component_spec(q, n);
    let q_minus = LorentzVector::minus_component_spec(q, n);
    lemma_exact_components(value, p, n);
    lemma_exact_components(value, q, n);
    assert(value(p_plus) != 0 as real) by {
        if value(p_plus) == 0 as real {
            assert(same_value(value, p_plus, T::zero_spec()));
        }
    }
    assert(value(p_minus) != 0 as real) by {
        if value(p_minus) == 0 as real {
            assert(same_value(value, p_minus, T::zero_spec()));
        }
    }
    // The ratios are the quotients of the components, so the offsets make
    // up for the growth of the two components from p to q.
    let ratios = LorentzVector::light_cone_ratios_spec(p, q);
    assert(ratios.0 == q_minus.div_spec(p_minus));
    assert(ratios.1 == q_plus.div_spec(p_plus));
    let first = LorentzVector::plus_offset_spec(p, n, ratios.1);
    let second = LorentzVector::minus_offset_spec(p, n, ratios.0);
    lemma_exact_plus_offset(value, p, n, ratios.1);
    lemma_exact_minus_offset(value, p, n, ratios.0);
    let beta = value(first.t);
    let alpha = value(second.t);
    lemma_ratio_growth(value(ratios.1), value(p_plus));
    lemma_ratio_growth(value(ratios.0), value(p_minus));
    assert((2 as real) * beta == value(q_plus) - value(p_plus));
    assert((2 as real) * alpha == value(q_minus) - value(p_minus));
    // The two growths add up to twice the growth in time and differ by
    // twice the distance.
    lemma_product_of_difference(
        value(n.x),
        value(n.y),
        value(n.z),
        value(p.x),
        value(p.y),
        value(p.z),
        value(q.x),
        value(q.y),
        value(q.z),
    );
    assert(beta + alpha == value(q.t) - value(p.t));
    assert(beta - alpha == d);
    let r = p.boost_from_to_spec(p, q);
    assert(r == p.plus(first).plus(second));
    lemma_offset_difference(value(p.x), value(n.x), beta, alpha);
    lemma_offset_difference(value(p.y), value(n.y), beta, alpha);
    lemma_offset_difference(value(p.z), value(n.z), beta, alpha);
    assert(same_value(value, r.t, q.t));
    assert(same_value(value, r.x, q.x));
    assert(same_value(value, r.y, q.y));
    assert(same_value(value, r.z, q.z));
}

/// The ratios by which the boost between two vectors of the same
/// Minkowski square scales the light-cone components have the product
/// one.
proof fn lemma_exact_ratios_of_equal_squares<T: RealNumberLike>(
    value: spec_fn(T) -> real,
    p: LorentzVector<T>,
    q: LorentzVector<T>,
)
    requires
        exact_real(value),
        !LorentzVector::coincide_spec(p, q),
        !LorentzVector::minus_negligible_spec(p, q),
        !LorentzVector::plus_negligible_spec(p, q),
        LorentzVector::plus_component_spec(p, LorentzVector::direction_spec(p, q))
            != T::zero_spec(),
        LorentzVector::minus_component_spec(p, LorentzVector::direction_spec(p, q))
            != T::zero_spec(),
        p.square_spec() == q.square_spec(),
    ensures
        value(LorentzVector::light_cone_ratios_spec(p, q).0) * value(
            LorentzVector::light_cone_ratios_spec(p, q).1,
        ) == 1 as real,
{
    let n = LorentzVector::direction_spec(p, q);
    let d = value(q.minus(p).spatial_distance_spec());
    lemma_exact_direction(value, p, q);
    let p_plus = LorentzVector::plus_component_spec(p, n);
    let p_minus = LorentzVector::minus_component_spec(p, n);
    let q_plus = LorentzVector::plus_component_spec(q, n);
    let q_minus = LorentzVector::minus_component_spec(q, n);
    lemma_exact_components(value, p, n);
    lemma_exact_components(value, q, n);
    assert(value(p_plus) != 0 as real) by {
        if value(p_plus) == 0 as real {
            assert(same_value(value, p_plus, T::zero_spec()));
        }
    }
    assert(value(p_minus) != 0 as real) by {
        if value(p_minus) == 0 as real {
            assert(same_value(value, p_minus, T::zero_spec()));
        }
    }
    let ratios = LorentzVector::light_cone_ratios_spec(p, q);
    assert(ratios.0 == q_minus.div_spec(p_minus));
    assert(ratios.1 == q_plus.div_spec(p_plus));
    lemma_exact_square(value, p);
    lemma_exact_square(value, q);
    lemma_equal_mass_ratios(
        value(p.t),
        value(p.x),
        value(p.y),
        value(p.z),
        value(q.t),
        value(q.x),
        value(q.y),
        value(q.z),
        value(n.x),
        value(n.y),
        value(n.z),
        d,
        value(p_plus),
        value(p_minus),
        value(q_plus),
        value(q_minus),
        value(ratios.0),
        value(ratios.1),
    );
}

/// The scaling of the light-cone components for a unit direction by two
/// ratios whose product is one keeps the Minkowski square of every vector.
proof fn lemma_exact_image_keeps_square<T: RealNumberLike>(
    value: spec_fn(T) -> real,
    v: LorentzVector<T>,
    n: LorentzVector<T>,
    ratio_a: T,
    ratio_b: T,
)
    requires
        exact_real(value),
        value(n.x) * value(n.x) + value(n.y) * value(n.y) + value(n.z) * value(n.z) == 1 as real,
        value(ratio_a) * value(ratio_b) == 1 as real,
    ensures
        v.light_cone_image_spec(n, ratio_a, ratio_b).square_spec() == v.square_spec(),
{
    let first = LorentzVector::plus_offset_spec(v, n, ratio_b);
    let second = LorentzVector::minus_offset_spec(v, n, ratio_a);
    let r = v.light_cone_image_spec(n, ratio_a, ratio_b);
    lemma_exact_plus_offset(value, v, n, ratio_b);
    lemma_exact_minus_offset(value, v, n, ratio_a);
    lemma_exact_components(value, v, n);
    assert(r == v.plus(first).plus(second));
    assert(value(r.t) == value(v.t) + value(first.t) + value(second.t));
    assert(value(r.x) == value(v.x) + value(first.x) + value(second.x));
    assert(value(r.y) == value(v.y) + value(first.y) + value(second.y));
    assert(value(r.z) == value(v.z) + value(first.z) + value(second.z));
    lemma_image_square(
        value(v.t),
        value(v.x),
        value(v.y),
        value(v.z),
        value(n.x),
        value(n.y),
        value(n.z),
        value(ratio_a),
        value(ratio_b),
        value(LorentzVector::plus_component_spec(v, n)),
        value(LorentzVector::minus_component_spec(v, n)),
        value(first.t),
        value(second.t),
        value(r.t),
        value(r.x),
        value(r.y),
        value(r.z),
    );
    lemma_exact_square(value, r);
    lemma_exact_square(value, v);
    assert(same_value(value, r.square_spec(), v.square_spec()));
}

/// The boost between two vectors of the same Minkowski square keeps the
/// Minkowski square of every vector, where the two differ in their spatial
/// position, neither pair of light-cone components is negligible, and no
/// light-cone component of `p` is zero.
pub proof fn lemma_exact_boost_from_to_keeps_square<T: RealNumberLike>(
    value: spec_fn(T) -> real,
    v: LorentzVector<T>,
    p: LorentzVector<T>,
    q: LorentzVector<T>,
)
    requires
        exact_real(value),
        !LorentzVector::coincide_spec(p, q),
        !LorentzVector::minus_negligible_spec(p, q),
        !LorentzVector::plus_negligible_spec(p, q),
        LorentzVector::plus_component_spec(p, LorentzVector::direction_spec(p, q))
            != T::zero_spec(),
        LorentzVector::minus_component_spec(p, LorentzVector::direction_spec(p, q))
            != T::zero_spec(),
        p.square_spec() == q.square_spec(),
    ensures
        v.boost_from_to_spec(p, q).square_spec() == v.square_spec(),
{
    let n = LorentzVector::direction_spec(p, q);
    let ratios = LorentzVector::light_cone_ratios_spec(p, q);
    lemma_exact_direction(value, p, q);
    lemma_exact_ratios_of_equal_squares(value, p, q);
    lemma_exact_image_keeps_square(value, v, n, ratios.0, ratios.1);
}

/// The azimuthal separation of two vectors whose transverse parts are
/// multiples of each other, `b` being `scale` times `a` across the axis:
/// it is the inverse cosine of one where they point the same way, and the
/// inverse cosine of minus one where they point opposite ways.
pub proof fn lemma_exact_delphi_aligned<T: RealNumberLike>(
    value: spec_fn(T) -> real,
    a: LorentzVector<T>,
    b: LorentzVector<T>,
    scale: real,
)
    requires
        exact_real(value),
        exact_signs(value),
        scale != 0 as real,
        value(b.x) == scale * value(a.x),
        value(b.y) == scale * value(a.y),
        value(a.x) != 0 as real || value(a.y) != 0 as real,
    ensures
        a.delphi_defined_spec(b),
        scale > 0 as real ==> a.getdelphi_spec(b) == T::one_spec().acos_spec(),
        scale < 0 as real ==> a.getdelphi_spec(b) == T::one_spec().neg_spec().acos_spec(),
{
    let one = T::one_spec();
    let magnitude = if scale > 0 as real {
        scale
    } else {
        -scale
    };
    lemma_square_of_negative(scale);
    lemma_squares(value(a.x), value(a.y), 0 as real);
    lemma_squares(value(b.x), value(b.y), 0 as real);
    let cosine = a.cos_delphi_spec(b);
    let c = value(cosine);
    lemma_aligned_cosine(
        value(a.x),
        value(a.y),
        scale,
        magnitude,
        value(b.x),
        value(b.y),
        value(a.pt_spec()),
        value(b.pt_spec()),
        c,
    );
    lemma_sign(c, scale);
    assert(!a.azimuth_undefined_spec(b));
    if scale > 0 as real {
        assert(same_value(value, cosine, one));
    } else {
        assert(same_value(value, cosine, one.neg_spec()));
    }
    assert(value(cosine.abs_spec()) == 1 as real);
    assert(!cosine.abs_spec().gt_spec(one));
    assert(!cosine.abs_spec().gt_spec(one.add_spec(T::epsilon_spec())));
}

} // verus!
