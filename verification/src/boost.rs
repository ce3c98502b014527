//! Changes of reference frame: the boost by a velocity, the boost that
//! carries one vector onto another along light-cone directions, and the
//! passage from the centre-of-mass frame to the lab frame.
use crate::field::RealNumberLike;
use crate::vector::LorentzVector;
use vstd::prelude::*;

verus! {

impl<T: RealNumberLike> LorentzVector<T> {
    /// The Lorentz factor `1 / sqrt(1 - b2)` of a velocity of squared
    /// magnitude `b2`.
    pub open spec fn gamma_spec(b2: T) -> T {
        T::one_spec().sub_spec(b2).sqrt_spec().inv_spec()
    }

    /// The second-order coefficient `(gamma - 1) / b2` of the boost. For a
    /// velocity at rest, where `b2` is not above zero, it is zero: the
    /// quotient would be `0 / 0` there.
    pub open spec fn gamma2_spec(b2: T) -> T {
        if b2.gt_spec(T::zero_spec()) {
            Self::gamma_spec(b2).sub_spec(T::one_spec()).div_spec(b2)
        } else {
            T::zero_spec()
        }
    }

    /// The image of the vector under the boost by the velocity whose
    /// components are the spatial components of `boost_vector`. With
    /// `b2 = |b|^2`, `bp = b . p`, `gamma = 1 / sqrt(1 - b2)` and
    /// `gamma2 = (gamma - 1) / b2` it is
    /// `t' = gamma (t + bp)` and `p' = p + b (gamma2 bp + gamma t)`,
    /// the latter formed by one fused multiply-add for each component.
    pub open spec fn boost_spec(self, boost_vector: Self) -> Self {
        let b2 = boost_vector.spatial_squared_spec();
        let gamma = Self::gamma_spec(b2);
        let bp = self.spatial_dot_spec(boost_vector);
        let factor = Self::gamma2_spec(b2).mul_spec(bp).add_spec(gamma.mul_spec(self.t));
        LorentzVector {
            t: gamma.mul_spec(self.t.add_spec(bp)),
            x: boost_vector.x.mul_add_spec(factor, self.x),
            y: boost_vector.y.mul_add_spec(factor, self.y),
            z: boost_vector.z.mul_add_spec(factor, self.z),
        }
    }

    /// The tolerance of the light-cone construction: twice the machine
    /// epsilon.
    pub open spec fn tolerance_spec() -> T {
        T::epsilon_spec().add_spec(T::epsilon_spec())
    }

    /// Whether `p` and `q` have numerically the same spatial position: the
    /// spatial norm of `p - q` lies below the square of the tolerance.
    pub open spec fn coincide_spec(p: Self, q: Self) -> bool {
        p.minus(q).spatial_distance_spec().lt_spec(
            Self::tolerance_spec().mul_spec(Self::tolerance_spec()),
        )
    }

    /// The difference `q - p` divided by its spatial norm: its spatial part
    /// is the unit vector that points from `p` to `q`.
    pub open spec fn direction_spec(p: Self, q: Self) -> Self {
        let d = q.minus(p);
        d.over(d.spatial_distance_spec())
    }

    /// The light-cone direction `(1, n)` along the spatial part of `n`.
    pub open spec fn light_cone_along_spec(n: Self) -> Self {
        LorentzVector { t: T::one_spec(), x: n.x, y: n.y, z: n.z }
    }

    /// The light-cone direction `(1, -n)` against the spatial part of `n`.
    pub open spec fn light_cone_against_spec(n: Self) -> Self {
        LorentzVector { t: T::one_spec(), x: n.x.neg_spec(), y: n.y.neg_spec(), z: n.z.neg_spec() }
    }

    /// The plus component of `v` for the direction `n`: its Minkowski
    /// product with `(1, -n)`, that is `t + n . v`.
    pub open spec fn plus_component_spec(v: Self, n: Self) -> T {
        v.dot_spec(Self::light_cone_against_spec(n))
    }

    /// The minus component of `v` for the direction `n`: its Minkowski
    /// product with `(1, n)`, that is `t - n . v`.
    pub open spec fn minus_component_spec(v: Self, n: Self) -> T {
        v.dot_spec(Self::light_cone_along_spec(n))
    }

    /// Whether a light-cone component is negligible next to the Euclidean
    /// norm of its vector: their quotient lies below the tolerance.
    pub open spec fn negligible_spec(component: T, norm: T) -> bool {
        component.div_spec(norm).lt_spec(Self::tolerance_spec())
    }

    /// Whether the minus components of both `p` and `q` are negligible.
    pub open spec fn minus_negligible_spec(p: Self, q: Self) -> bool {
        let n = Self::direction_spec(p, q);
        Self::negligible_spec(Self::minus_component_spec(p, n), p.euclidean_distance_spec())
            && Self::negligible_spec(
            Self::minus_component_spec(q, n),
            q.euclidean_distance_spec(),
        )
    }

    /// Whether the plus components of both `p` and `q` are negligible.
    pub open spec fn plus_negligible_spec(p: Self, q: Self) -> bool {
        let n = Self::direction_spec(p, q);
        Self::negligible_spec(Self::plus_component_spec(p, n), p.euclidean_distance_spec())
            && Self::negligible_spec(Self::plus_component_spec(q, n), q.euclidean_distance_spec())
    }

    /// The ratios `(a, b)` by which the boost from `p` to `q` scales the
    /// minus and the plus components. Each is the quotient of the component
    /// of `q` by that of `p`, unless the pair is negligible: a ratio whose
    /// pair is negligible is the reciprocal of the other one, and both are
    /// one where both pairs are negligible.
    pub open spec fn light_cone_ratios_spec(p: Self, q: Self) -> (T, T) {
        let n = Self::direction_spec(p, q);
        let by_minus = Self::minus_component_spec(q, n).div_spec(Self::minus_component_spec(p, n));
        let by_plus = Self::plus_component_spec(q, n).div_spec(Self::plus_component_spec(p, n));
        if Self::minus_negligible_spec(p, q) {
            if Self::plus_negligible_spec(p, q) {
                (T::one_spec(), T::one_spec())
            } else {
                (T::one_spec().div_spec(by_plus), by_plus)
            }
        } else {
            if Self::plus_negligible_spec(p, q) {
                (by_minus, T::one_spec().div_spec(by_minus))
            } else {
                (by_minus, by_plus)
            }
        }
    }

    /// The offset that scales the plus component of `v` for the direction
    /// `n` by `ratio_b`: with `na = (1, n)` and `nb = (1, -n)` it is
    /// `na (ratio_b - 1) / 2 (v . nb)`.
    pub open spec fn plus_offset_spec(v: Self, n: Self, ratio_b: T) -> Self {
        Self::light_cone_along_spec(n).times(ratio_b.sub_spec(T::one_spec())).over(
            Self::two_spec(),
        ).times(Self::plus_component_spec(v, n))
    }

    /// The offset that scales the minus component of `v` for the direction
    /// `n` by `ratio_a`: with `na = (1, n)` and `nb = (1, -n)` it is
    /// `nb (ratio_a - 1) / 2 (v . na)`.
    pub open spec fn minus_offset_spec(v: Self, n: Self, ratio_a: T) -> Self {
        Self::light_cone_against_spec(n).times(ratio_a.sub_spec(T::one_spec())).over(
            Self::two_spec(),
        ).times(Self::minus_component_spec(v, n))
    }

    /// The image of the vector under the map that scales its light-cone
    /// components for the direction `n`, the minus component by `ratio_a`
    /// and the plus component by `ratio_b`: the vector and its two offsets,
    /// the plus offset added first.
    pub open spec fn light_cone_image_spec(self, n: Self, ratio_a: T, ratio_b: T) -> Self {
        self.plus(Self::plus_offset_spec(self, n, ratio_b)).plus(
            Self::minus_offset_spec(self, n, ratio_a),
        )
    }

    /// The image of the vector under the boost that carries `p` onto `q`.
    /// Where `p` and `q` coincide spatially it is the zero vector. Otherwise
    /// it is the image under the scaling of the light-cone components, for
    /// the direction from `p` to `q`, by the ratios `(a, b)`:
    /// `v + na (b - 1) / 2 (v . nb) + nb (a - 1) / 2 (v . na)`.
    pub open spec fn boost_from_to_spec(self, p: Self, q: Self) -> Self {
        if Self::coincide_spec(p, q) {
            Self::zero_spec()
        } else {
            let ratios = Self::light_cone_ratios_spec(p, q);
            self.light_cone_image_spec(Self::direction_spec(p, q), ratios.0, ratios.1)
        }
    }

    /// The four-momentum that the lab frame sees for two beams of energies
    /// `ebeam1` and `ebeam2` with momentum fractions `x1` and `x2`: the sum of
    /// two purely longitudinal vectors `(x e, 0, 0, +-x e)`, the sign of each
    /// taken from `z1` and `z2`.
    pub open spec fn lab_target_spec(x1: T, x2: T, ebeam1: T, ebeam2: T, z1: T, z2: T) -> Self {
        let e1 = x1.mul_spec(ebeam1);
        let e2 = x2.mul_spec(ebeam2);
        let zero = T::zero_spec();
        (LorentzVector { t: e1, x: zero, y: zero, z: e1.copysign_spec(z1) }).plus(
            LorentzVector { t: e2, x: zero, y: zero, z: e2.copysign_spec(z2) },
        )
    }

    /// The four-momentum of the same system in its centre-of-mass frame:
    /// purely time-like, of magnitude `2 sqrt(x1 x2 ebeam1 ebeam2)`.
    pub open spec fn com_source_spec(x1: T, x2: T, ebeam1: T, ebeam2: T) -> Self {
        LorentzVector {
            t: Self::two_spec().mul_spec(
                x1.mul_spec(x2).mul_spec(ebeam1).mul_spec(ebeam2).sqrt_spec(),
            ),
            x: T::zero_spec(),
            y: T::zero_spec(),
            z: T::zero_spec(),
        }
    }

    /// Boosts the vector by the velocity given by the spatial components of
    /// `boost_vector`, whose magnitude must stay below one for a physical
    /// result.
    pub fn boost(&self, boost_vector: &LorentzVector<T>) -> (r: LorentzVector<T>)
        ensures
            r == self.boost_spec(*boost_vector),
    {
        let b2 = boost_vector.spatial_squared();
        let gamma = T::one().sub(b2).sqrt().inv();

        let bp = self.spatial_dot(boost_vector);
        let gamma2 = if b2.gt(T::zero()) {
            gamma.sub(T::one()).div(b2)
        } else {
            T::zero()
        };
        let factor = gamma2.mul(bp).add(gamma.mul(self.t));
        LorentzVector::from_args(
            gamma.mul(self.t.add(bp)),
            boost_vector.x.mul_add(factor, self.x),
            boost_vector.y.mul_add(factor, self.y),
            boost_vector.z.mul_add(factor, self.z),
        )
    }

    /// Applies to the vector the pure boost that sends `p` onto `q`.
    pub fn boost_from_to(&self, p: &LorentzVector<T>, q: &LorentzVector<T>) -> (r: LorentzVector<T>)
        ensures
            r == self.boost_from_to_spec(*p, *q),
    {
        let eps = T::epsilon().add(T::epsilon());
        let p_abs = p.euclidean_distance();
        let q_abs = q.euclidean_distance();

        if (*p - *q).spatial_distance().lt(eps.mul(eps)) {
            return LorentzVector::new();
        }
        let mut n_vec = *q - *p;
        n_vec = n_vec / n_vec.spatial_distance();

        let na = LorentzVector::from_args(T::one(), n_vec.x, n_vec.y, n_vec.z);
        let nb = LorentzVector::from_args(T::one(), n_vec.x.neg(), n_vec.y.neg(), n_vec.z.neg());

        let p_plus = p.dot(&nb);
        let p_minus = p.dot(&na);
        let q_plus = q.dot(&nb);
        let q_minus = q.dot(&na);
        let ratioa;
        let ratiob;
        if p_minus.div(p_abs).lt(eps) && q_minus.div(q_abs).lt(eps) {
            if p_plus.div(p_abs).lt(eps) && q_plus.div(q_abs).lt(eps) {
                ratioa = T::one();
                ratiob = T::one();
            } else {
                ratiob = q_plus.div(p_plus);
                ratioa = T::one().div(ratiob);
            }
        } else {
            if p_plus.div(p_abs).lt(eps) && q_plus.div(q_abs).lt(eps) {
                ratioa = q_minus.div(p_minus);
                ratiob = T::one().div(ratioa);
            } else {
                ratioa = q_minus.div(p_minus);
                ratiob = q_plus.div(p_plus);
            }
        }
        let plus = self.dot(&nb);
        let minus = self.dot(&na);
        let two = T::one().add(T::one());

        *self + na * ratiob.sub(T::one()) / two * plus + nb * ratioa.sub(T::one()) / two * minus
    }

    /// Carries a configuration from its centre-of-mass frame to the lab
    /// frame: every momentum of the list is replaced by its image under the
    /// boost from the centre-of-mass four-momentum to the lab four-momentum
    /// of two beams of energies `ebeam1`, `ebeam2` with momentum fractions
    /// `x1`, `x2`. The first two momenta of the list, as they come in, give
    /// the beams their directions, so the list holds at least two.
    pub fn boost_from_com_to_lab_frame(
        momenta: &mut [LorentzVector<T>],
        x1: T,
        x2: T,
        ebeam1: T,
        ebeam2: T,
    )
        requires
            old(momenta)@.len() >= 2,
        ensures
            final(momenta)@.len() == old(momenta)@.len(),
            forall|i: int|
                0 <= i < old(momenta)@.len() ==> #[trigger] final(momenta)@[i] == old(
                    momenta,
                )@[i].boost_from_to_spec(
                    Self::com_source_spec(x1, x2, ebeam1, ebeam2),
                    Self::lab_target_spec(
                        x1,
                        x2,
                        ebeam1,
                        ebeam2,
                        old(momenta)@[0].z,
                        old(momenta)@[1].z,
                    ),
                ),
    {
        let e1 = x1.mul(ebeam1);
        let e2 = x2.mul(ebeam2);
        let target_summed = LorentzVector::from_args(
            e1,
            T::zero(),
            T::zero(),
            e1.copysign(momenta[0].z),
        ) + LorentzVector::from_args(e2, T::zero(), T::zero(), e2.copysign(momenta[1].z));

        let source_summed = LorentzVector::from_args(
            T::one().add(T::one()).mul(x1.mul(x2).mul(ebeam1).mul(ebeam2).sqrt()),
            T::zero(),
            T::zero(),
            T::zero(),
        );

        let n = momenta.len();
        let mut i: usize = 0;
        while i < n
            invariant
                i <= n,
                n == momenta@.len(),
                n == old(momenta)@.len(),
                forall|j: int|
                    0 <= j < i ==> #[trigger] momenta@[j] == old(momenta)@[j].boost_from_to_spec(
                        source_summed,
                        target_summed,
                    ),
                forall|j: int| i <= j < n ==> #[trigger] momenta@[j] == old(momenta)@[j],
            decreases n - i,
        {
            let image = momenta[i].boost_from_to(&source_summed, &target_summed);
            momenta[i] = image;
            i += 1;
        }
    }
}

} // verus!
