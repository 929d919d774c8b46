//! The state of the double pendulum in phase space.
use vstd::prelude::*;
use crate::binary64::{lemma_zero_magnitude, Binary64, SIGN_MASK};

verus! {

/// The encoding of the double nearest to pi.
pub const PI_BITS: u64 = 0x4009_21fb_5444_2d18;

/// A point of the pendulum's phase space, or a vector between two such
/// points: two angles in radians and two angular velocities. It is a plain
/// value; each pixel's evaluation owns the two that it evolves.
#[derive(Clone, Copy, Debug, PartialEq, Eq, Structural)]
pub struct PhaseState {
    /// The angle of the inner arm.
    pub theta1: Binary64,
    /// The angle of the outer arm.
    pub theta2: Binary64,
    /// The angular velocity of the inner arm.
    pub omega1: Binary64,
    /// The angular velocity of the outer arm.
    pub omega2: Binary64,
}

impl PhaseState {
    /// Every coordinate is a finite number.
    pub open spec fn finite(self) -> bool {
        &&& self.theta1.finite()
        &&& self.theta2.finite()
        &&& self.omega1.finite()
        &&& self.omega2.finite()
    }

    /// Whether every coordinate is a finite number. A trajectory that has
    /// left the finite numbers has run into a singularity of the equations of
    /// motion and is not followed further.
    pub fn is_finite(&self) -> (r: bool)
        ensures
            r == self.finite(),
    {
        self.theta1.is_finite() && self.theta2.is_finite() && self.omega1.is_finite()
            && self.omega2.is_finite()
    }

    /// The range of angles that the unit interval of a pixel coordinate is
    /// mapped onto, for either arm: from minus pi to pi.
    pub fn angle_range() -> (range: (Binary64, Binary64))
        ensures
            range.0.bits == SIGN_MASK + PI_BITS,
            range.1.bits == PI_BITS,
            range.0.finite() && range.1.finite(),
            range.0.value() == -range.1.value(),
            range.0.below(range.1),
    {
        let high = Binary64 { bits: PI_BITS };
        let low = Binary64 { bits: 0x8000_0000_0000_0000 + PI_BITS };
        proof {
            lemma_zero_magnitude(high);
        }
        (low, high)
    }

    /// The pendulum released from rest at the given angles.
    pub fn at_rest(theta1: Binary64, theta2: Binary64) -> (s: PhaseState)
        ensures
            s.theta1 == theta1,
            s.theta2 == theta2,
            s.omega1.bits == 0,
            s.omega2.bits == 0,
    {
        PhaseState { theta1, theta2, omega1: Binary64::zero(), omega2: Binary64::zero() }
    }

    /// The vector of length `delta0` along the axis of the inner arm's
    /// angle: the direction in which the perturbed trajectory is set off from
    /// the reference.
    pub fn along_theta1(delta0: Binary64) -> (v: PhaseState)
        ensures
            v.theta1 == delta0,
            v.theta2.bits == 0,
            v.omega1.bits == 0,
            v.omega2.bits == 0,
    {
        PhaseState {
            theta1: delta0,
            theta2: Binary64::zero(),
            omega1: Binary64::zero(),
            omega2: Binary64::zero(),
        }
    }

    /// The time derivative of this state, given the two angular
    /// accelerations that the equations of motion yield for it. The angles
    /// change at the rate of the angular velocities, exactly: the first two
    /// coordinates of the result are this state's velocities, bit for bit.
    pub fn derivative(&self, alpha1: Binary64, alpha2: Binary64) -> (d: PhaseState)
        ensures
            d.theta1 == self.omega1,
            d.theta2 == self.omega2,
            d.omega1 == alpha1,
            d.omega2 == alpha2,
    {
        PhaseState { theta1: self.omega1, theta2: self.omega2, omega1: alpha1, omega2: alpha2 }
    }
}

} // verus!
