//! The numerical guards of the equations of motion and the decisions of the
//! search for a disc crossing.
use crate::ieee::{have_opposite_signs, opposite_signs, Double};
use vstd::prelude::*;

verus! {

/// Bits of 0.0.
pub const ZERO: u64 = 0;

/// Bits of 1e-24: a potential this little below zero is roundoff of zero.
pub const ROUNDOFF: u64 = 0x3AF3_57C2_99A8_8EA7;

/// Bits of 1e-10: below this value of `sin^2(theta)` a state is at a pole.
pub const POLE: u64 = 0x3DDB_7CDF_D9D7_BDBB;

/// Bits of 1e-12: a crossing is located when `theta` is this close to the
/// equator.
pub const CROSSING_TOLERANCE: u64 = 0x3D71_9799_812D_EA11;

/// Bits of 1e-15: the search ends when its interval of the affine parameter
/// is narrower.
pub const NARROWEST_INTERVAL: u64 = 0x3CD2_03AF_9EE7_5616;

/// Most bisections in the search for one crossing.
pub const MAX_BISECTIONS: usize = 20;

/// What the sign of a Carter potential says of the motion.
#[derive(Debug, Clone, Copy, PartialEq, Eq, Structural)]
pub enum PotentialState {
    /// The potential is positive: the coordinate moves.
    Moving,
    /// The potential is zero, or below zero by less than 1e-24: a turning
    /// point within roundoff.
    TurningPoint,
    /// The potential is further below zero, or not a number: the motion has
    /// overshot a turning point and the branch sign is due to flip.
    Overshot,
}

/// The state that a potential stands for.
pub open spec fn potential_state(potential: Double) -> PotentialState {
    if potential.positive() {
        PotentialState::Moving
    } else if !potential.nan() && potential.magnitude_value().below(Double { bits: ROUNDOFF }) {
        PotentialState::TurningPoint
    } else {
        PotentialState::Overshot
    }
}

pub fn classify_potential(potential: Double) -> (state: PotentialState)
    ensures
        state == potential_state(potential),
{
    if potential.is_positive() {
        PotentialState::Moving
    } else if !potential.is_nan() && potential.abs().lt(Double { bits: ROUNDOFF }) {
        PotentialState::TurningPoint
    } else {
        PotentialState::Overshot
    }
}

/// A potential with everything that is not positive clamped to zero.
pub open spec fn clamped(potential: Double) -> Double {
    if potential.positive() {
        potential
    } else {
        Double { bits: ZERO }
    }
}

/// Clamps a Carter potential at zero: under a square root a potential that
/// roundoff or an overshoot took below zero counts as the turning point that
/// it stands for.
pub fn clamp_potential(potential: Double) -> (p: Double)
    ensures
        p == clamped(potential),
        !p.nan(),
        !p.negative(),
{
    if potential.is_positive() {
        potential
    } else {
        Double { bits: ZERO }
    }
}

/// So close to a pole that the polar and azimuthal velocities are taken to be
/// zero: dividing by `sin^2(theta)` would blow up.
pub fn near_pole(sin_squared_theta: Double) -> (b: bool)
    ensures
        b == sin_squared_theta.below(Double { bits: POLE }),
{
    sin_squared_theta.lt(Double { bits: POLE })
}

/// How the search for a crossing goes on after a trial point.
#[derive(Debug, Clone, Copy, PartialEq, Eq, Structural)]
pub enum BisectionMove {
    /// The trial point is on the equator within the tolerance.
    Converged,
    /// The crossing lies between the trial point and the right end: the
    /// trial point becomes the left end.
    RaiseLeft,
    /// The crossing lies between the left end and the trial point: the trial
    /// point becomes the right end.
    LowerRight,
}

/// The move after a trial point whose `theta` is `offset_mid` off the
/// equator, when the right end is `offset_right` off it.
pub open spec fn bisection_move_of(offset_mid: Double, offset_right: Double) -> BisectionMove {
    if offset_mid.magnitude_value().below(Double { bits: CROSSING_TOLERANCE }) {
        BisectionMove::Converged
    } else if opposite_signs(offset_mid, offset_right) {
        BisectionMove::RaiseLeft
    } else {
        BisectionMove::LowerRight
    }
}

pub fn bisection_move(offset_mid: Double, offset_right: Double) -> (m: BisectionMove)
    ensures
        m == bisection_move_of(offset_mid, offset_right),
{
    if offset_mid.abs().lt(Double { bits: CROSSING_TOLERANCE }) {
        BisectionMove::Converged
    } else if have_opposite_signs(offset_mid, offset_right) {
        BisectionMove::RaiseLeft
    } else {
        BisectionMove::LowerRight
    }
}

/// The two ends of a step lie on opposite sides of the equator, so that a
/// crossing lies between them.
pub fn brackets_crossing(offset_left: Double, offset_right: Double) -> (b: bool)
    ensures
        b == opposite_signs(offset_left, offset_right),
{
    have_opposite_signs(offset_left, offset_right)
}

/// The first of two states is strictly nearer to the equator.
pub fn nearer_to_equator(offset_first: Double, offset_second: Double) -> (b: bool)
    ensures
        b == offset_first.magnitude_value().below(offset_second.magnitude_value()),
{
    offset_first.abs().lt(offset_second.abs())
}

/// The interval of the search has become too narrow to halve again.
pub fn interval_exhausted(width: Double) -> (b: bool)
    ensures
        b == width.magnitude_value().below(Double { bits: NARROWEST_INTERVAL }),
{
    width.abs().lt(Double { bits: NARROWEST_INTERVAL })
}

} // verus!
