//! Kinematic observables of one or two vectors over a real-number-like
//! scalar: norms, transverse momentum, pseudorapidity and angular
//! separations.
use crate::field::RealNumberLike;
use crate::vector::LorentzVector;
use vstd::prelude::*;

verus! {

impl<T: RealNumberLike> LorentzVector<T> {
    /// The scalar two, formed as one plus one.
    pub open spec fn two_spec() -> T {
        T::one_spec().add_spec(T::one_spec())
    }

    /// The Euclidean norm of `(x, y, z)`.
    pub open spec fn spatial_distance_spec(self) -> T {
        self.spatial_squared_spec().sqrt_spec()
    }

    /// The Euclidean norm of all four components.
    pub open spec fn euclidean_distance_spec(self) -> T {
        self.euclidean_square_spec().sqrt_spec()
    }

    /// The transverse momentum: the Euclidean norm of `(x, y)`.
    pub open spec fn pt_spec(self) -> T {
        self.x.mul_spec(self.x).add_spec(self.y.mul_spec(self.y)).sqrt_spec()
    }

    /// Whether the direction of the vector is undefined: both the transverse
    /// momentum and `|z|` lie below the machine epsilon.
    pub open spec fn direction_undefined_spec(self) -> bool {
        self.pt_spec().lt_spec(T::epsilon_spec()) && self.z.abs_spec().lt_spec(T::epsilon_spec())
    }

    /// The polar angle `atan2(pt, z)`.
    pub open spec fn polar_angle_spec(self) -> T {
        self.pt_spec().atan2_spec(self.z)
    }

    /// The pseudorapidity `-ln(tan(theta / 2))` of the polar angle `theta`.
    /// Where the direction is undefined it is the largest value for
    /// `z > 0` and the smallest value otherwise.
    pub open spec fn pseudo_rap_spec(self) -> T {
        if self.direction_undefined_spec() {
            if self.z.gt_spec(T::zero_spec()) {
                T::max_value_spec()
            } else {
                T::min_value_spec()
            }
        } else {
            self.polar_angle_spec().div_spec(Self::two_spec()).tan_spec().ln_spec().neg_spec()
        }
    }

    /// Whether the azimuthal angle of one of the two vectors is undefined:
    /// its transverse momentum compares equal to zero.
    pub open spec fn azimuth_undefined_spec(self, other: Self) -> bool {
        self.pt_spec().eq_spec(T::zero_spec()) || other.pt_spec().eq_spec(T::zero_spec())
    }

    /// The cosine of the azimuthal separation,
    /// `(x1 x2 + y1 y2) / (pt1 pt2)`, as the arithmetic yields it: rounding
    /// may leave it slightly outside `[-1, 1]`.
    pub open spec fn cos_delphi_spec(self, other: Self) -> T {
        self.x.mul_spec(other.x).add_spec(self.y.mul_spec(other.y)).div_spec(
            self.pt_spec().mul_spec(other.pt_spec()),
        )
    }

    /// Whether the two vectors have an azimuthal separation: either an
    /// azimuthal angle is undefined, which has the sentinel for its answer,
    /// or the magnitude of the cosine does not exceed one by more than the
    /// machine epsilon.
    pub open spec fn delphi_defined_spec(self, other: Self) -> bool {
        self.azimuth_undefined_spec(other) || !self.cos_delphi_spec(other).abs_spec().gt_spec(
            T::one_spec().add_spec(T::epsilon_spec()),
        )
    }

    /// The azimuthal separation. It is the largest value, as a sentinel,
    /// where an azimuthal angle is undefined. Otherwise it is the inverse
    /// cosine of the cosine of the separation, which is first replaced by
    /// its sign, that is by itself over its magnitude, where its magnitude
    /// exceeds one.
    pub open spec fn getdelphi_spec(self, other: Self) -> T {
        let c = self.cos_delphi_spec(other);
        if self.azimuth_undefined_spec(other) {
            T::max_value_spec()
        } else if c.abs_spec().gt_spec(T::one_spec()) {
            c.div_spec(c.abs_spec()).acos_spec()
        } else {
            c.acos_spec()
        }
    }

    /// The separation `sqrt(d_eta^2 + d_phi^2)` in pseudorapidity and
    /// azimuth.
    pub open spec fn delta_r_spec(self, other: Self) -> T {
        let delta_eta = self.pseudo_rap_spec().sub_spec(other.pseudo_rap_spec());
        let delta_phi = self.getdelphi_spec(other);
        delta_eta.mul_spec(delta_eta).add_spec(delta_phi.mul_spec(delta_phi)).sqrt_spec()
    }

    /// The Euclidean norm of the spatial components.
    pub fn spatial_distance(&self) -> (r: T)
        ensures
            r == self.spatial_distance_spec(),
    {
        self.x.mul(self.x).add(self.y.mul(self.y)).add(self.z.mul(self.z)).sqrt()
    }

    /// The Euclidean norm of all four components.
    pub fn euclidean_distance(&self) -> (r: T)
        ensures
            r == self.euclidean_distance_spec(),
    {
        self.t.mul(self.t).add(self.x.mul(self.x)).add(self.y.mul(self.y)).add(
            self.z.mul(self.z),
        ).sqrt()
    }

    /// The transverse momentum.
    pub fn pt(&self) -> (r: T)
        ensures
            r == self.pt_spec(),
    {
        self.x.mul(self.x).add(self.y.mul(self.y)).sqrt()
    }

    /// The pseudorapidity.
    pub fn pseudo_rap(&self) -> (r: T)
        ensures
            r == self.pseudo_rap_spec(),
    {
        let pt = self.pt();
        if pt.lt(T::epsilon()) && self.z.abs().lt(T::epsilon()) {
            if self.z.gt(T::zero()) {
                return T::max_value();
            } else {
                return T::min_value();
            }
        }
        let th = pt.atan2(self.z);
        th.div(T::one().add(T::one())).tan().ln().neg()
    }

    /// Whether `getdelphi` and `delta_r` accept the pair: the cosine of the
    /// azimuthal separation is within the machine epsilon of `[-1, 1]`, or an
    /// azimuthal angle is undefined.
    pub fn delphi_defined(&self, other: &LorentzVector<T>) -> (r: bool)
        ensures
            r == self.delphi_defined_spec(*other),
    {
        let pt1 = self.pt();
        let pt2 = other.pt();
        if pt1.eq(T::zero()) || pt2.eq(T::zero()) {
            return true;
        }
        let c = self.x.mul(other.x).add(self.y.mul(other.y)).div(pt1.mul(pt2));
        !c.abs().gt(T::one().add(T::epsilon()))
    }

    /// The azimuthal separation from `other`. A pair whose cosine lies further
    /// than the machine epsilon outside `[-1, 1]` is physically inconsistent
    /// and not accepted.
    pub fn getdelphi(&self, other: &LorentzVector<T>) -> (r: T)
        requires
            self.delphi_defined_spec(*other),
        ensures
            r == self.getdelphi_spec(*other),
    {
        let pt1 = self.pt();
        let pt2 = other.pt();
        if pt1.eq(T::zero()) || pt2.eq(T::zero()) {
            return T::max_value();
        }
        let tmp = self.x.mul(other.x).add(self.y.mul(other.y)).div(pt1.mul(pt2));
        if tmp.abs().gt(T::one()) {
            tmp.div(tmp.abs()).acos()
        } else {
            tmp.acos()
        }
    }

    /// The separation from `other` in pseudorapidity and azimuth. It accepts
    /// the pairs that `getdelphi` accepts.
    pub fn delta_r(&self, other: &LorentzVector<T>) -> (r: T)
        requires
            self.delphi_defined_spec(*other),
        ensures
            r == self.delta_r_spec(*other),
    {
        let delta_eta = self.pseudo_rap().sub(other.pseudo_rap());
        let delta_phi = self.getdelphi(other);
        delta_eta.mul(delta_eta).add(delta_phi.mul(delta_phi)).sqrt()
    }
}

} // verus!
