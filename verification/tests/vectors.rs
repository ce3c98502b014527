//! Constructors, products, arithmetic, complex scalars and the sequence
//! interface, on double-precision components.
use lorentz_vector::complex::Complex;
use lorentz_vector::field::{Field, RealField, RealNumberLike};
use lorentz_vector::sequence::{ConversionError, DecodeError};
use lorentz_vector::vector::LorentzVector;

/// A double-precision real as a scalar of the library.
#[derive(Debug, Clone, Copy, PartialEq)]
struct R(f64);

impl std::fmt::Display for R {
    fn fmt(&self, f: &mut std::fmt::Formatter) -> std::fmt::Result {
        std::fmt::Display::fmt(&self.0, f)
    }
}

impl Field for R {
    fn mul_add_spec(self, a: Self, b: Self) -> Self {
        R(self.0.mul_add(a.0, b.0))
    }

    fn mul_add(self, a: Self, b: Self) -> Self {
        R(self.0.mul_add(a.0, b.0))
    }

    fn zero_spec() -> Self {
        R(0.0)
    }

    fn one_spec() -> Self {
        R(1.0)
    }

    fn add_spec(self, rhs: Self) -> Self {
        R(self.0 + rhs.0)
    }

    fn sub_spec(self, rhs: Self) -> Self {
        R(self.0 - rhs.0)
    }

    fn mul_spec(self, rhs: Self) -> Self {
        R(self.0 * rhs.0)
    }

    fn div_spec(self, rhs: Self) -> Self {
        R(self.0 / rhs.0)
    }

    fn neg_spec(self) -> Self {
        R(-self.0)
    }

    fn inv_spec(self) -> Self {
        R(1.0 / self.0)
    }

    fn eq_spec(self, rhs: Self) -> bool {
        self.0 == rhs.0
    }

    fn zero() -> Self {
        R(0.0)
    }

    fn one() -> Self {
        R(1.0)
    }

    fn add(self, rhs: Self) -> Self {
        R(self.0 + rhs.0)
    }

    fn sub(self, rhs: Self) -> Self {
        R(self.0 - rhs.0)
    }

    fn mul(self, rhs: Self) -> Self {
        R(self.0 * rhs.0)
    }

    fn div(self, rhs: Self) -> Self {
        R(self.0 / rhs.0)
    }

    fn neg(self) -> Self {
        R(-self.0)
    }

    fn inv(self) -> Self {
        R(1.0 / self.0)
    }

    fn eq(self, rhs: Self) -> bool {
        self.0 == rhs.0
    }
}

impl RealNumberLike for R {
    fn lt_spec(self, rhs: Self) -> bool {
        self.0 < rhs.0
    }

    fn gt_spec(self, rhs: Self) -> bool {
        self.0 > rhs.0
    }

    fn epsilon_spec() -> Self {
        R(f64::EPSILON)
    }

    fn max_value_spec() -> Self {
        R(f64::MAX)
    }

    fn min_value_spec() -> Self {
        R(f64::MIN)
    }

    fn abs_spec(self) -> Self {
        R(self.0.abs())
    }

    fn copysign_spec(self, sign: Self) -> Self {
        R(self.0.copysign(sign.0))
    }

    fn sqrt_spec(self) -> Self {
        R(self.0.sqrt())
    }

    fn ln_spec(self) -> Self {
        R(self.0.ln())
    }

    fn tan_spec(self) -> Self {
        R(self.0.tan())
    }

    fn acos_spec(self) -> Self {
        R(self.0.acos())
    }

    fn atan2_spec(self, other: Self) -> Self {
        R(self.0.atan2(other.0))
    }

    fn lt(self, rhs: Self) -> bool {
        self.0 < rhs.0
    }

    fn gt(self, rhs: Self) -> bool {
        self.0 > rhs.0
    }

    fn epsilon() -> Self {
        R(f64::EPSILON)
    }

    fn max_value() -> Self {
        R(f64::MAX)
    }

    fn min_value() -> Self {
        R(f64::MIN)
    }

    fn abs(self) -> Self {
        R(self.0.abs())
    }

    fn copysign(self, sign: Self) -> Self {
        R(self.0.copysign(sign.0))
    }

    fn sqrt(self) -> Self {
        R(self.0.sqrt())
    }

    fn ln(self) -> Self {
        R(self.0.ln())
    }

    fn tan(self) -> Self {
        R(self.0.tan())
    }

    fn acos(self) -> Self {
        R(self.0.acos())
    }

    fn atan2(self, other: Self) -> Self {
        R(self.0.atan2(other.0))
    }
}

/// The vector over `R` with the given components.
fn vector(t: f64, x: f64, y: f64, z: f64) -> LorentzVector<R> {
    LorentzVector::from_args(R(t), R(x), R(y), R(z))
}

/// The components of a vector over `R` as plain numbers.
fn parts(v: &LorentzVector<R>) -> [f64; 4] {
    [v.t.0, v.x.0, v.y.0, v.z.0]
}

/// The complex vector over `R` with the given real and imaginary parts.
fn complex_vector(re: [f64; 4], im: [f64; 4]) -> LorentzVector<Complex<R>> {
    LorentzVector::from_args(
        Complex::new(R(re[0]), R(im[0])),
        Complex::new(R(re[1]), R(im[1])),
        Complex::new(R(re[2]), R(im[2])),
        Complex::new(R(re[3]), R(im[3])),
    )
}

/// The real and the imaginary parts of a complex vector as plain numbers.
fn complex_parts(v: &LorentzVector<Complex<R>>) -> ([f64; 4], [f64; 4]) {
    ([v.t.re.0, v.x.re.0, v.y.re.0, v.z.re.0], [v.t.im.0, v.x.im.0, v.y.im.0, v.z.im.0])
}

/// A single-precision real as a second scalar type, for conversions.
#[derive(Debug, Clone, Copy, PartialEq)]
struct S(f32);

impl Field for S {
    fn mul_add_spec(self, a: Self, b: Self) -> Self {
        S(self.0.mul_add(a.0, b.0))
    }

    fn mul_add(self, a: Self, b: Self) -> Self {
        S(self.0.mul_add(a.0, b.0))
    }

    fn zero_spec() -> Self {
        S(0.0)
    }

    fn one_spec() -> Self {
        S(1.0)
    }

    fn add_spec(self, rhs: Self) -> Self {
        S(self.0 + rhs.0)
    }

    fn sub_spec(self, rhs: Self) -> Self {
        S(self.0 - rhs.0)
    }

    fn mul_spec(self, rhs: Self) -> Self {
        S(self.0 * rhs.0)
    }

    fn div_spec(self, rhs: Self) -> Self {
        S(self.0 / rhs.0)
    }

    fn neg_spec(self) -> Self {
        S(-self.0)
    }

    fn inv_spec(self) -> Self {
        S(1.0 / self.0)
    }

    fn eq_spec(self, rhs: Self) -> bool {
        self.0 == rhs.0
    }

    fn zero() -> Self {
        S(0.0)
    }

    fn one() -> Self {
        S(1.0)
    }

    fn add(self, rhs: Self) -> Self {
        S(self.0 + rhs.0)
    }

    fn sub(self, rhs: Self) -> Self {
        S(self.0 - rhs.0)
    }

    fn mul(self, rhs: Self) -> Self {
        S(self.0 * rhs.0)
    }

    fn div(self, rhs: Self) -> Self {
        S(self.0 / rhs.0)
    }

    fn neg(self) -> Self {
        S(-self.0)
    }

    fn inv(self) -> Self {
        S(1.0 / self.0)
    }

    fn eq(self, rhs: Self) -> bool {
        self.0 == rhs.0
    }
}

impl From<S> for R {
    fn from(s: S) -> R {
        R(f64::from(s.0))
    }
}

/// Narrows a double to single precision where it fits.
fn narrow(r: R) -> Option<S> {
    if r.0.is_finite() && r.0.abs() <= f64::from(f32::MAX) {
        Some(S(r.0 as f32))
    } else {
        None
    }
}

/// A number with one derivative, `re + du e` with `e e = 0`, as a real field
/// over `R`.
#[derive(Debug, Clone, Copy, PartialEq)]
struct D {
    re: f64,
    du: f64,
}

impl Field for D {
    fn mul_add_spec(self, a: Self, b: Self) -> Self {
        self.mul_spec(a).add_spec(b)
    }

    fn mul_add(self, a: Self, b: Self) -> Self {
        self.mul_add_spec(a, b)
    }

    fn zero_spec() -> Self {
        D { re: 0.0, du: 0.0 }
    }

    fn one_spec() -> Self {
        D { re: 1.0, du: 0.0 }
    }

    fn add_spec(self, rhs: Self) -> Self {
        D { re: self.re + rhs.re, du: self.du + rhs.du }
    }

    fn sub_spec(self, rhs: Self) -> Self {
        D { re: self.re - rhs.re, du: self.du - rhs.du }
    }

    fn mul_spec(self, rhs: Self) -> Self {
        D { re: self.re * rhs.re, du: self.re * rhs.du + self.du * rhs.re }
    }

    fn div_spec(self, rhs: Self) -> Self {
        self.mul_spec(rhs.inv_spec())
    }

    fn neg_spec(self) -> Self {
        D { re: -self.re, du: -self.du }
    }

    fn inv_spec(self) -> Self {
        D { re: 1.0 / self.re, du: -self.du / (self.re * self.re) }
    }

    fn eq_spec(self, rhs: Self) -> bool {
        self.re == rhs.re && self.du == rhs.du
    }

    fn zero() -> Self {
        Self::zero_spec()
    }

    fn one() -> Self {
        Self::one_spec()
    }

    fn add(self, rhs: Self) -> Self {
        self.add_spec(rhs)
    }

    fn sub(self, rhs: Self) -> Self {
        self.sub_spec(rhs)
    }

    fn mul(self, rhs: Self) -> Self {
        self.mul_spec(rhs)
    }

    fn div(self, rhs: Self) -> Self {
        self.div_spec(rhs)
    }

    fn neg(self) -> Self {
        self.neg_spec()
    }

    fn inv(self) -> Self {
        self.inv_spec()
    }

    fn eq(self, rhs: Self) -> bool {
        self.eq_spec(rhs)
    }
}

impl RealField for D {
    type Real = R;

    fn from_real_spec(r: R) -> Self {
        D { re: r.0, du: 0.0 }
    }

    fn real_part_spec(self) -> R {
        R(self.re)
    }

    fn add_real_spec(self, r: R) -> Self {
        D { re: self.re + r.0, du: self.du }
    }

    fn sub_real_spec(self, r: R) -> Self {
        D { re: self.re - r.0, du: self.du }
    }

    fn mul_real_spec(self, r: R) -> Self {
        D { re: self.re * r.0, du: self.du * r.0 }
    }

    fn div_real_spec(self, r: R) -> Self {
        D { re: self.re / r.0, du: self.du / r.0 }
    }

    fn lt_real_spec(self, r: R) -> bool {
        self.re < r.0
    }

    fn from_real(r: R) -> Self {
        Self::from_real_spec(r)
    }

    fn real_part(self) -> R {
        self.real_part_spec()
    }

    fn add_real(self, r: R) -> Self {
        self.add_real_spec(r)
    }

    fn sub_real(self, r: R) -> Self {
        self.sub_real_spec(r)
    }

    fn mul_real(self, r: R) -> Self {
        self.mul_real_spec(r)
    }

    fn div_real(self, r: R) -> Self {
        self.div_real_spec(r)
    }

    fn lt_real(self, r: R) -> bool {
        self.lt_real_spec(r)
    }
}

/// The vector of numbers with derivatives whose real parts are `re` and
/// whose derivatives are `du`.
fn dual_vector(re: [f64; 4], du: [f64; 4]) -> LorentzVector<D> {
    LorentzVector::from_args(
        D { re: re[0], du: du[0] },
        D { re: re[1], du: du[1] },
        D { re: re[2], du: du[2] },
        D { re: re[3], du: du[3] },
    )
}

/// The real parts and the derivatives of a vector over `D`.
fn dual_parts(v: &LorentzVector<D>) -> ([f64; 4], [f64; 4]) {
    ([v.t.re, v.x.re, v.y.re, v.z.re], [v.t.du, v.x.du, v.y.du, v.z.du])
}

#[test]
fn new_is_the_zero_vector() {
    let v: LorentzVector<R> = LorentzVector::new();
    assert_eq!(parts(&v), [0.0, 0.0, 0.0, 0.0]);
}

#[test]
fn default_is_the_zero_vector() {
    let v: LorentzVector<R> = Default::default();
    assert_eq!(parts(&v), [0.0, 0.0, 0.0, 0.0]);
}

#[test]
fn from_args_takes_t_x_y_z_in_order() {
    let v = LorentzVector::from_args(R(1.0), R(2.0), R(3.0), R(4.0));
    assert_eq!(v.t, R(1.0));
    assert_eq!(v.x, R(2.0));
    assert_eq!(v.y, R(3.0));
    assert_eq!(v.z, R(4.0));
}

#[test]
fn from_slice_reads_four_components() {
    let v = LorentzVector::from_slice(&[R(1.0), R(2.0), R(3.0), R(4.0)]);
    assert_eq!(parts(&v), [1.0, 2.0, 3.0, 4.0]);
}

#[test]
fn from_vec_reads_four_components() {
    let v = LorentzVector::from_vec(vec![R(-1.0), R(0.5), R(3.0), R(8.0)]);
    assert_eq!(parts(&v), [-1.0, 0.5, 3.0, 8.0]);
}

#[test]
fn a_vector_is_copied_component_by_component() {
    let v = vector(1.0, 2.0, 3.0, 4.0);
    let mut w = v;
    w.x = R(9.0);
    assert_eq!(parts(&v), [1.0, 2.0, 3.0, 4.0]);
    assert_eq!(parts(&w), [1.0, 9.0, 3.0, 4.0]);
    assert_eq!(parts(&v.clone()), [1.0, 2.0, 3.0, 4.0]);
}

#[test]
fn dual_negates_the_spatial_components() {
    let v = vector(1.0, 2.0, -3.0, 4.0).dual();
    assert_eq!(parts(&v), [1.0, -2.0, 3.0, -4.0]);
}

#[test]
fn square_of_the_zero_vector_is_zero() {
    assert_eq!(vector(0.0, 0.0, 0.0, 0.0).square(), R(0.0));
}

#[test]
fn square_of_the_unit_time_vector_is_one() {
    assert_eq!(vector(1.0, 0.0, 0.0, 0.0).square(), R(1.0));
}

#[test]
fn square_subtracts_the_spatial_squares() {
    assert_eq!(vector(5.0, 1.0, 2.0, 3.0).square(), R(11.0));
    assert_eq!(vector(0.0, 1.0, 0.0, 0.0).square(), R(-1.0));
}

#[test]
fn dot_uses_the_minkowski_metric() {
    let a = vector(1.0, 2.0, 3.0, 4.0);
    let b = vector(5.0, 6.0, 7.0, 8.0);
    assert_eq!(a.dot(&b), R(-60.0));
}

#[test]
fn dot_is_symmetric() {
    let a = vector(1.5, -2.0, 3.25, 4.0);
    let b = vector(5.0, 6.5, -7.0, 0.125);
    assert_eq!(a.dot(&b), b.dot(&a));
    assert_eq!(a.spatial_dot(&b), b.spatial_dot(&a));
    assert_eq!(a.euclidean_dot(&b), b.euclidean_dot(&a));
}

#[test]
fn spatial_products_leave_time_out() {
    let a = vector(1.0, 2.0, 3.0, 4.0);
    let b = vector(5.0, 6.0, 7.0, 8.0);
    assert_eq!(a.spatial_dot(&b), R(65.0));
    assert_eq!(a.spatial_squared(), R(29.0));
}

#[test]
fn dot_spatial_dot_gives_both_products() {
    let a = vector(1.0, 2.0, 3.0, 4.0);
    let b = vector(5.0, 6.0, 7.0, 8.0);
    assert_eq!(a.dot_spatial_dot(&b), (R(-60.0), R(65.0)));
}

#[test]
fn euclidean_products_add_all_four_terms() {
    let a = vector(1.0, 2.0, 3.0, 4.0);
    let b = vector(5.0, 6.0, 7.0, 8.0);
    assert_eq!(a.euclidean_dot(&b), R(70.0));
    assert_eq!(a.euclidean_square(), R(30.0));
}

#[test]
fn comp_mul_multiplies_component_by_component() {
    let a = vector(1.0, 2.0, 3.0, 4.0);
    let b = vector(5.0, 6.0, 7.0, 8.0);
    assert_eq!(parts(&a.comp_mul(&b)), [5.0, 12.0, 21.0, 32.0]);
}

#[test]
fn fused_products_agree_on_exact_inputs() {
    let a = vector(1.0, 2.0, 3.0, 4.0);
    let b = vector(5.0, 6.0, 7.0, 8.0);
    assert_eq!(a.square_impr(), R(-28.0));
    assert_eq!(a.spatial_squared_impr(), R(29.0));
    assert_eq!(a.dot_impr(&b), R(-60.0));
    assert_eq!(a.spatial_dot_impr(&b), R(65.0));
}

#[test]
fn fused_square_keeps_what_the_plain_square_rounds_away() {
    // a^2 = 1 + 2^-26 + 2^-54, of which a double keeps 1 + 2^-26.
    let a = 1.0 + (2.0f64).powi(-27);
    let v = vector(a, a, 0.0, 0.0);
    assert_eq!(v.square(), R(0.0));
    assert_eq!(v.square_impr(), R((2.0f64).powi(-54)));
}

#[test]
fn sum_then_difference_gives_the_first_vector_back() {
    let a = vector(1.0, 2.0, 3.0, 4.0);
    let b = vector(0.5, 0.25, -8.0, 16.0);
    assert_eq!(parts(&((a + b) - b)), [1.0, 2.0, 3.0, 4.0]);
}

#[test]
fn scale_then_divide_gives_the_vector_back() {
    let a = vector(1.0, -2.0, 3.5, 4.0);
    assert_eq!(parts(&((a * R(4.0)) / R(4.0))), [1.0, -2.0, 3.5, 4.0]);
}

#[test]
fn operators_act_component_by_component() {
    let a = vector(1.0, 2.0, 3.0, 4.0);
    let b = vector(5.0, 7.0, 9.0, 11.0);
    assert_eq!(parts(&(a + b)), [6.0, 9.0, 12.0, 15.0]);
    assert_eq!(parts(&(a - b)), [-4.0, -5.0, -6.0, -7.0]);
    assert_eq!(parts(&(-a)), [-1.0, -2.0, -3.0, -4.0]);
    assert_eq!(parts(&(a * R(3.0))), [3.0, 6.0, 9.0, 12.0]);
    assert_eq!(parts(&(b / R(2.0))), [2.5, 3.5, 4.5, 5.5]);
}

#[test]
fn division_multiplies_by_the_inverse() {
    // 1/3 is rounded before the product is formed: 9 * (1/3) is 3, while
    // 5 * (1/3) differs from 5/3 in the last place.
    let v = vector(9.0, 5.0, 0.0, -3.0) / R(3.0);
    let third = 1.0 / 3.0;
    assert_eq!(parts(&v), [9.0 * third, 5.0 * third, 0.0, -3.0 * third]);
    assert_ne!(v.x.0, 5.0 / 3.0);
}

#[test]
fn division_by_zero_gives_what_the_inverse_defines() {
    let v = vector(1.0, -1.0, 0.0, 2.0) / R(0.0);
    assert_eq!(v.t.0, f64::INFINITY);
    assert_eq!(v.x.0, f64::NEG_INFINITY);
    assert!(v.y.0.is_nan());
    assert_eq!(v.z.0, f64::INFINITY);
}

#[test]
fn inv_inverts_each_component() {
    let v = vector(1.0, 2.0, -4.0, 8.0).inv();
    assert_eq!(parts(&v), [1.0, 0.5, -0.25, 0.125]);
}

#[test]
fn compound_assignments_mirror_the_operators() {
    let mut v = vector(1.0, 2.0, 3.0, 4.0);
    v.add_assign(&vector(1.0, 1.0, 1.0, 1.0));
    assert_eq!(parts(&v), [2.0, 3.0, 4.0, 5.0]);
    v.sub_assign(&vector(2.0, 2.0, 2.0, 2.0));
    assert_eq!(parts(&v), [0.0, 1.0, 2.0, 3.0]);
    v.mul_assign(R(-2.0));
    assert_eq!(parts(&v), [-0.0, -2.0, -4.0, -6.0]);
}

#[test]
fn add_signed_follows_the_sign() {
    let mut a = vector(1.0, 2.0, 3.0, 4.0);
    let b = vector(10.0, 20.0, 30.0, 40.0);
    assert_eq!(parts(&a.add_signed(&b, 0)), [1.0, 2.0, 3.0, 4.0]);
    assert_eq!(parts(&a.add_signed(&b, 1)), [11.0, 22.0, 33.0, 44.0]);
    assert_eq!(parts(&a.add_signed(&b, -1)), [-9.0, -18.0, -27.0, -36.0]);
    assert_eq!(parts(&a), [1.0, 2.0, 3.0, 4.0]);
}

#[test]
fn index_maps_0_to_3_onto_t_x_y_z() {
    let v = vector(1.0, 2.0, 3.0, 4.0);
    assert_eq!(*v.index(0), R(1.0));
    assert_eq!(*v.index(1), R(2.0));
    assert_eq!(*v.index(2), R(3.0));
    assert_eq!(*v.index(3), R(4.0));
}

#[test]
fn index_mut_writes_one_component() {
    let mut v = vector(1.0, 2.0, 3.0, 4.0);
    *v.index_mut(0) = R(-1.0);
    assert_eq!(parts(&v), [-1.0, 2.0, 3.0, 4.0]);
    *v.index_mut(2) = R(7.0);
    assert_eq!(parts(&v), [-1.0, 2.0, 7.0, 4.0]);
    *v.index_mut(1) = R(0.5);
    *v.index_mut(3) = R(0.25);
    assert_eq!(parts(&v), [-1.0, 0.5, 7.0, 0.25]);
}

#[test]
fn map_transforms_each_component() {
    let v = vector(1.0, 2.0, 3.0, 4.0).map(|c| R(c.0 * c.0 + 1.0));
    assert_eq!(parts(&v), [2.0, 5.0, 10.0, 17.0]);
}

#[test]
fn map_may_change_the_scalar_type() {
    let v: LorentzVector<Complex<R>> = vector(1.0, 2.0, 3.0, 4.0).map(|c| Complex::new(c, c.neg()));
    assert_eq!(complex_parts(&v), ([1.0, 2.0, 3.0, 4.0], [-1.0, -2.0, -3.0, -4.0]));
}

#[test]
fn from_and_convert_widen_each_component() {
    let single = LorentzVector::from_args(S(1.5), S(-2.0), S(0.25), S(4.0));
    let wide: LorentzVector<R> = LorentzVector::from(single);
    assert_eq!(parts(&wide), [1.5, -2.0, 0.25, 4.0]);
    let converted: LorentzVector<R> = single.convert();
    assert_eq!(parts(&converted), [1.5, -2.0, 0.25, 4.0]);
}

#[test]
fn cast_converts_what_the_target_can_hold() {
    let v: LorentzVector<S> = vector(1.5, -2.0, 0.25, 1.0e30).cast(narrow);
    assert_eq!(v.t, S(1.5));
    assert_eq!(v.x, S(-2.0));
    assert_eq!(v.y, S(0.25));
    assert_eq!(v.z, S(1.0e30));
    assert_eq!(narrow(R(1.0e300)), None);
    assert_eq!(narrow(R(f64::NAN)), None);
}

#[test]
fn to_string_lists_the_named_components() {
    assert_eq!(vector(1.0, 2.5, -3.0, 0.0).to_string(), "(t:1, x:2.5, y:-3, z:0)");
}

#[test]
fn complex_arithmetic_follows_the_pair_formulas() {
    let a = Complex::new(R(1.0), R(2.0));
    let b = Complex::new(R(3.0), R(4.0));
    let sum = a.add(b);
    assert_eq!((sum.re, sum.im), (R(4.0), R(6.0)));
    let difference = a.sub(b);
    assert_eq!((difference.re, difference.im), (R(-2.0), R(-2.0)));
    let product = a.mul(b);
    assert_eq!((product.re, product.im), (R(-5.0), R(10.0)));
    let quotient = a.div(b);
    assert_eq!((quotient.re, quotient.im), (R(0.44), R(0.08)));
    let negation = a.neg();
    assert_eq!((negation.re, negation.im), (R(-1.0), R(-2.0)));
    let inverse = b.inv();
    assert_eq!((inverse.re, inverse.im), (R(0.12), R(-0.16)));
    assert_eq!(b.norm_sqr(), R(25.0));
}

#[test]
fn complex_neutral_elements_and_equality() {
    let zero: Complex<R> = Complex::zero();
    let one: Complex<R> = Complex::one();
    assert_eq!((zero.re, zero.im), (R(0.0), R(0.0)));
    assert_eq!((one.re, one.im), (R(1.0), R(0.0)));
    let a = Complex::new(R(1.0), R(2.0));
    assert!(a.eq(Complex::new(R(1.0), R(2.0))));
    assert!(!a.eq(Complex::new(R(1.0), R(-2.0))));
    assert!(!a.eq(Complex::new(R(0.0), R(2.0))));
    let product = a.mul(one);
    assert_eq!((product.re, product.im), (R(1.0), R(2.0)));
}

#[test]
fn complex_fused_multiply_add() {
    let a = Complex::new(R(1.0), R(2.0));
    let b = Complex::new(R(3.0), R(4.0));
    let c = Complex::new(R(5.0), R(6.0));
    let r = a.mul_add(b, c);
    assert_eq!((r.re, r.im), (R(0.0), R(16.0)));
}

#[test]
fn complex_and_real_numbers_mix_in_the_real_part() {
    let a = Complex::new(R(1.0), R(2.0));
    let sum = a.add_real(R(0.5));
    assert_eq!((sum.re, sum.im), (R(1.5), R(2.0)));
    let difference = a.sub_real(R(0.5));
    assert_eq!((difference.re, difference.im), (R(0.5), R(2.0)));
}

#[test]
fn to_complex_lies_on_the_chosen_axis() {
    let v = vector(1.0, 2.0, 3.0, 4.0);
    assert_eq!(complex_parts(&v.to_complex(true)), ([1.0, 2.0, 3.0, 4.0], [0.0; 4]));
    assert_eq!(complex_parts(&v.to_complex(false)), ([0.0; 4], [1.0, 2.0, 3.0, 4.0]));
}

#[test]
fn real_part_and_imag_split_a_complex_vector() {
    let v = complex_vector([1.0, 2.0, 3.0, 4.0], [5.0, 6.0, 7.0, 8.0]);
    assert_eq!(parts(&v.real_part()), [1.0, 2.0, 3.0, 4.0]);
    assert_eq!(parts(&v.imag()), [5.0, 6.0, 7.0, 8.0]);
}

#[test]
fn complex_vectors_have_minkowski_products() {
    let v = complex_vector([1.0, 0.0, 0.0, 0.0], [1.0, 0.0, 0.0, 0.0]);
    let s = v.square();
    assert_eq!((s.re, s.im), (R(0.0), R(2.0)));
    let w = complex_vector([0.0, 1.0, 0.0, 0.0], [0.0, 0.0, 2.0, 0.0]);
    let d = v.dot(&w);
    assert_eq!((d.re, d.im), (R(0.0), R(0.0)));
    let u = complex_vector([2.0, 1.0, 0.0, 0.0], [0.0, 1.0, 0.0, 0.0]);
    let e = u.dot(&w);
    assert_eq!((e.re, e.im), (R(-1.0), R(-1.0)));
}

#[test]
fn complex_and_real_vectors_add_and_subtract() {
    let c = complex_vector([1.0, 2.0, 3.0, 4.0], [5.0, 6.0, 7.0, 8.0]);
    let r = vector(10.0, 20.0, 30.0, 40.0);
    assert_eq!(complex_parts(&(c + r)), ([11.0, 22.0, 33.0, 44.0], [5.0, 6.0, 7.0, 8.0]));
    assert_eq!(complex_parts(&(c - r)), ([-9.0, -18.0, -27.0, -36.0], [5.0, 6.0, 7.0, 8.0]));
}

#[test]
fn real_field_vectors_mix_with_plain_real_vectors() {
    let d = dual_vector([1.0, 2.0, 3.0, 4.0], [0.5, 0.25, 0.125, 1.0]);
    let r = vector(10.0, 20.0, 30.0, 40.0);
    assert_eq!(dual_parts(&d.add_real(&r)), ([11.0, 22.0, 33.0, 44.0], [0.5, 0.25, 0.125, 1.0]));
    assert_eq!(dual_parts(&d.sub_real(&r)), ([-9.0, -18.0, -27.0, -36.0], [0.5, 0.25, 0.125, 1.0]));
    assert_eq!(dual_parts(&d.mul_real(R(2.0))), ([2.0, 4.0, 6.0, 8.0], [1.0, 0.5, 0.25, 2.0]));
}

#[test]
fn real_field_vectors_mix_in_place() {
    let mut d = dual_vector([1.0, 2.0, 3.0, 4.0], [0.5, 0.25, 0.125, 1.0]);
    d.add_assign_real(vector(1.0, 1.0, 1.0, 1.0));
    assert_eq!(dual_parts(&d), ([2.0, 3.0, 4.0, 5.0], [0.5, 0.25, 0.125, 1.0]));
    d.sub_assign_real(vector(2.0, 3.0, 4.0, 5.0));
    assert_eq!(dual_parts(&d), ([0.0, 0.0, 0.0, 0.0], [0.5, 0.25, 0.125, 1.0]));
    d.mul_assign_real(R(4.0));
    assert_eq!(dual_parts(&d), ([0.0, 0.0, 0.0, 0.0], [2.0, 1.0, 0.5, 4.0]));
}

#[test]
fn real_part_drops_the_derivatives() {
    let d = dual_vector([1.0, 2.0, 3.0, 4.0], [0.5, 0.25, 0.125, 1.0]);
    assert_eq!(parts(&d.real_part()), [1.0, 2.0, 3.0, 4.0]);
}

#[test]
fn real_field_vectors_have_products_with_derivatives() {
    // (t + e)^2 - x^2 = t^2 - x^2 + 2 t e
    let d = dual_vector([3.0, 2.0, 0.0, 0.0], [1.0, 0.0, 0.0, 0.0]);
    let s = d.square();
    assert_eq!((s.re, s.du), (5.0, 6.0));
}

#[test]
fn from_sequence_reads_four_elements_in_order() {
    let v = LorentzVector::from_sequence(&[R(1.0), R(2.0), R(3.0), R(4.0)]).unwrap();
    assert_eq!(parts(&v), [1.0, 2.0, 3.0, 4.0]);
}

#[test]
fn from_sequence_reads_three_elements_as_purely_spatial() {
    let v = LorentzVector::from_sequence(&[R(2.0), R(3.0), R(4.0)]).unwrap();
    assert_eq!(parts(&v), [0.0, 2.0, 3.0, 4.0]);
}

#[test]
fn from_sequence_rejects_other_lengths() {
    let five = [R(1.0), R(2.0), R(3.0), R(4.0), R(5.0)];
    for n in [0usize, 1, 2, 5] {
        let r = LorentzVector::from_sequence(&five[..n]);
        assert_eq!(r.err(), Some(ConversionError::InvalidLength));
    }
}

#[test]
fn decode_reads_exactly_four_elements() {
    let v = LorentzVector::decode(&[R(1.0), R(2.0), R(3.0), R(4.0)]).unwrap();
    assert_eq!(parts(&v), [1.0, 2.0, 3.0, 4.0]);
}

#[test]
fn decode_names_the_first_missing_component() {
    let four = [R(1.0), R(2.0), R(3.0), R(4.0)];
    assert_eq!(LorentzVector::decode(&four[..0]).err(), Some(DecodeError::MissingT));
    assert_eq!(LorentzVector::decode(&four[..1]).err(), Some(DecodeError::MissingX));
    assert_eq!(LorentzVector::decode(&four[..2]).err(), Some(DecodeError::MissingY));
    assert_eq!(LorentzVector::decode(&four[..3]).err(), Some(DecodeError::MissingZ));
}

#[test]
fn decode_rejects_a_fifth_element() {
    let five = [R(1.0), R(2.0), R(3.0), R(4.0), R(5.0)];
    assert_eq!(LorentzVector::decode(&five).err(), Some(DecodeError::Surplus));
}

#[test]
fn error_messages() {
    assert_eq!(
        ConversionError::InvalidLength.message(),
        "Invalid list length for LorentzVector conversion"
    );
    assert_eq!(DecodeError::MissingT.message(), "Cannot read t-component");
    assert_eq!(DecodeError::MissingX.message(), "Cannot read x-component");
    assert_eq!(DecodeError::MissingY.message(), "Cannot read y-component");
    assert_eq!(DecodeError::MissingZ.message(), "Cannot read z-component");
    assert_eq!(DecodeError::Surplus.message(), "More than four components");
}

#[test]
fn to_array_gives_t_x_y_z_in_order() {
    assert_eq!(vector(1.0, 2.0, 3.0, 4.0).to_array(), [R(1.0), R(2.0), R(3.0), R(4.0)]);
}

#[test]
fn a_vector_survives_the_round_trip_through_a_sequence() {
    let v = vector(1.5, -2.0, 0.1, 1.0e-300);
    let read = LorentzVector::from_sequence(&v.to_array()).unwrap();
    assert_eq!(parts(&read), parts(&v));
    let decoded = LorentzVector::decode(&v.to_array()).unwrap();
    assert_eq!(parts(&decoded), parts(&v));
}

#[test]
fn from_pairs_reads_four_pairs_in_order() {
    let pairs = [(R(1.0), R(5.0)), (R(2.0), R(6.0)), (R(3.0), R(7.0)), (R(4.0), R(8.0))];
    let v = LorentzVector::from_pairs(&pairs).unwrap();
    assert_eq!(complex_parts(&v), ([1.0, 2.0, 3.0, 4.0], [5.0, 6.0, 7.0, 8.0]));
}

#[test]
fn from_pairs_reads_three_pairs_as_purely_spatial() {
    let pairs = [(R(2.0), R(6.0)), (R(3.0), R(7.0)), (R(4.0), R(8.0))];
    let v = LorentzVector::from_pairs(&pairs).unwrap();
    assert_eq!(complex_parts(&v), ([0.0, 2.0, 3.0, 4.0], [0.0, 6.0, 7.0, 8.0]));
}

#[test]
fn from_pairs_rejects_other_lengths() {
    let five = [(R(1.0), R(0.0)); 5];
    for n in [0usize, 1, 2, 5] {
        let r = LorentzVector::from_pairs(&five[..n]);
        assert_eq!(r.err(), Some(ConversionError::InvalidLength));
    }
}

#[test]
fn a_complex_vector_survives_the_round_trip_through_pairs() {
    let v = complex_vector([1.0, 2.0, 3.0, 4.0], [5.0, 6.0, 7.0, 8.0]);
    assert_eq!(
        v.to_pairs(),
        [(R(1.0), R(5.0)), (R(2.0), R(6.0)), (R(3.0), R(7.0)), (R(4.0), R(8.0))]
    );
    let read = LorentzVector::from_pairs(&v.to_pairs()).unwrap();
    assert_eq!(complex_parts(&read), complex_parts(&v));
}
