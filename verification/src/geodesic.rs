//! A photon's constants of motion, and what became of a traced ray.
use crate::ieee::{Double, Single};
use vstd::prelude::*;

verus! {

/// Bits of 0.0.
pub const ZERO: u64 = 0;

/// Bits of the binary64 number nearest to pi.
pub const PI: u64 = 0x4009_21FB_5444_2D18;

/// Where a photon starts, in Boyer-Lindquist coordinates, with its three
/// constants of motion. Made once per pixel and never changed.
#[derive(Debug, Clone, Copy, PartialEq, Eq, Structural)]
pub struct PhotonState {
    pub r: Double,
    pub theta: Double,
    pub phi: Double,
    /// `E = -k_t`.
    pub energy: Double,
    /// `L_z = k_phi`.
    pub angular_momentum: Double,
    /// Carter's constant `Q`.
    pub carter_q: Double,
}

/// `r > 0` and `0 <= theta <= pi`.
pub open spec fn valid_position(r: Double, theta: Double) -> bool {
    &&& r.positive()
    &&& (Double { bits: ZERO }).at_most(theta)
    &&& theta.at_most(Double { bits: PI })
}

/// Tests `valid_position`, for callers that cannot prove it.
pub fn check_position(r: Double, theta: Double) -> (ok: bool)
    ensures
        ok == valid_position(r, theta),
{
    r.is_positive() && theta.ge(Double { bits: ZERO }) && theta.le(Double { bits: PI })
}

impl PhotonState {
    pub open spec fn wf(self) -> bool {
        valid_position(self.r, self.theta)
    }

    pub fn new(
        r: Double,
        theta: Double,
        phi: Double,
        energy: Double,
        angular_momentum: Double,
        carter_q: Double,
    ) -> (p: Self)
        requires
            valid_position(r, theta),
        ensures
            p == (PhotonState { r, theta, phi, energy, angular_momentum, carter_q }),
            p.wf(),
    {
        PhotonState { r, theta, phi, energy, angular_momentum, carter_q }
    }
}

/// What became of a ray at one of its order slots.
#[derive(Debug, Clone, Copy, PartialEq, Eq, Structural)]
pub enum GeodesicResult {
    /// The ray crossed the disc.
    DiscHit {
        r: Double,
        theta: Double,
        phi: Double,
        energy: Double,
        angular_momentum: Double,
        carter_q: Double,
        /// `b = L_z / E`.
        impact_parameter: Double,
        redshift_factor: Double,
        /// Affine parameter at the crossing.
        affine_parameter: Double,
        /// `|phi - phi_0| / 2 pi`.
        phi_wraps: Double,
        /// 0 is the direct image, 1 the photon ring, and so on.
        order: u8,
        null_invariant_error: Double,
        turns_r: u8,
        turns_theta: u8,
        /// Sine and cosine of `phi` in single precision, as the position
        /// texture stores them.
        sin_phi: Single,
        cos_phi: Single,
    },
    /// The ray fell into the black hole.
    Captured { turns_r: u8, turns_theta: u8 },
    /// The ray left for infinity.
    Escaped { turns_r: u8, turns_theta: u8 },
    /// The ray's state stopped being a number.
    Aborted { turns_r: u8, turns_theta: u8 },
}

/// The double-precision fields of a disc hit, with its order and turn counts.
#[derive(Debug, Clone, Copy, PartialEq, Eq, Structural)]
pub struct DiscHitData {
    pub r: Double,
    pub theta: Double,
    pub phi: Double,
    pub energy: Double,
    pub angular_momentum: Double,
    pub carter_q: Double,
    pub impact_parameter: Double,
    pub redshift_factor: Double,
    pub affine_parameter: Double,
    pub phi_wraps: Double,
    pub order: u8,
    pub null_invariant_error: Double,
    pub turns_r: u8,
    pub turns_theta: u8,
}

impl GeodesicResult {
    pub open spec fn hit(self) -> bool {
        self is DiscHit
    }

    /// Radial and polar turn counts, whatever the variant.
    pub open spec fn turns(self) -> (u8, u8) {
        match self {
            GeodesicResult::DiscHit { turns_r, turns_theta, .. } => (turns_r, turns_theta),
            GeodesicResult::Captured { turns_r, turns_theta } => (turns_r, turns_theta),
            GeodesicResult::Escaped { turns_r, turns_theta } => (turns_r, turns_theta),
            GeodesicResult::Aborted { turns_r, turns_theta } => (turns_r, turns_theta),
        }
    }

    pub open spec fn hit_data(self) -> Option<DiscHitData> {
        match self {
            GeodesicResult::DiscHit {
                r,
                theta,
                phi,
                energy,
                angular_momentum,
                carter_q,
                impact_parameter,
                redshift_factor,
                affine_parameter,
                phi_wraps,
                order,
                null_invariant_error,
                turns_r,
                turns_theta,
                ..
            } => Some(
                DiscHitData {
                    r,
                    theta,
                    phi,
                    energy,
                    angular_momentum,
                    carter_q,
                    impact_parameter,
                    redshift_factor,
                    affine_parameter,
                    phi_wraps,
                    order,
                    null_invariant_error,
                    turns_r,
                    turns_theta,
                },
            ),
            _ => None,
        }
    }

    pub fn is_hit(&self) -> (b: bool)
        ensures
            b == self.hit(),
    {
        match self {
            GeodesicResult::DiscHit { .. } => true,
            _ => false,
        }
    }

    /// The fields of a disc hit; `None` for a miss.
    pub fn disc_hit_data(&self) -> (d: Option<DiscHitData>)
        ensures
            d == self.hit_data(),
    {
        match self {
            GeodesicResult::DiscHit {
                r,
                theta,
                phi,
                energy,
                angular_momentum,
                carter_q,
                impact_parameter,
                redshift_factor,
                affine_parameter,
                phi_wraps,
                order,
                null_invariant_error,
                turns_r,
                turns_theta,
                ..
            } => Some(
                DiscHitData {
                    r: *r,
                    theta: *theta,
                    phi: *phi,
                    energy: *energy,
                    angular_momentum: *angular_momentum,
                    carter_q: *carter_q,
                    impact_parameter: *impact_parameter,
                    redshift_factor: *redshift_factor,
                    affine_parameter: *affine_parameter,
                    phi_wraps: *phi_wraps,
                    order: *order,
                    null_invariant_error: *null_invariant_error,
                    turns_r: *turns_r,
                    turns_theta: *turns_theta,
                },
            ),
            _ => None,
        }
    }

    pub fn turning_points(&self) -> (t: (u8, u8))
        ensures
            t == self.turns(),
    {
        match self {
            GeodesicResult::DiscHit { turns_r, turns_theta, .. } => (*turns_r, *turns_theta),
            GeodesicResult::Captured { turns_r, turns_theta } => (*turns_r, *turns_theta),
            GeodesicResult::Escaped { turns_r, turns_theta } => (*turns_r, *turns_theta),
            GeodesicResult::Aborted { turns_r, turns_theta } => (*turns_r, *turns_theta),
        }
    }
}

} // verus!
