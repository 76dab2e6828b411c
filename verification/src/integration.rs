//! The decisions taken along one ray: branch signs at turning points, turn
//! counters, termination and the collection of disc crossings by order.
//!
//! The numerical stepper is a `Stepper` supplied by the caller. Everything it
//! reports is checked here, so what is proved holds of every stepper.
use crate::geodesic::{GeodesicResult, PhotonState};
use crate::ieee::{have_opposite_signs, opposite_signs, Double, Single};
use vstd::prelude::*;

verus! {

/// Bits of 0.0.
pub const ZERO: u64 = 0;

/// Bits of 1e-12: a coordinate that changed by no more did not move.
pub const MOVE_THRESHOLD: u64 = 0x3D71_9799_812D_EA11;

/// Bits of 1000.0: beyond this radius a ray has escaped.
pub const ESCAPE_RADIUS: u64 = 0x408F_4000_0000_0000;

/// Bits of 10.0: a ray that runs out of steps inside this radius counts as
/// captured.
pub const NEAR_RADIUS: u64 = 0x4024_0000_0000_0000;

/// Bits of 100.0: a ray that runs out of steps outside this radius counts as
/// escaped.
pub const FAR_RADIUS: u64 = 0x4059_0000_0000_0000;

/// Which branch of the square root a first-order equation of motion takes.
#[derive(Debug, Clone, Copy, PartialEq, Eq, Structural)]
pub enum Sign {
    /// The coordinate decreases.
    Minus,
    /// The coordinate increases.
    Plus,
}

impl Sign {
    pub open spec fn flipped(self) -> Sign {
        match self {
            Sign::Minus => Sign::Plus,
            Sign::Plus => Sign::Minus,
        }
    }

    /// The direction of an increment: `Plus` where `d >= 0`.
    pub open spec fn direction_of(d: Double) -> Sign {
        if (Double { bits: ZERO }).at_most(d) {
            Sign::Plus
        } else {
            Sign::Minus
        }
    }

    pub fn flip(self) -> (s: Sign)
        ensures
            s == self.flipped(),
    {
        match self {
            Sign::Minus => Sign::Plus,
            Sign::Plus => Sign::Minus,
        }
    }

    pub fn of_increment(d: Double) -> (s: Sign)
        ensures
            s == Sign::direction_of(d),
    {
        if d.ge(Double { bits: ZERO }) {
            Sign::Plus
        } else {
            Sign::Minus
        }
    }

    pub fn is_minus(self) -> (b: bool)
        ensures
            b == (self == Sign::Minus),
    {
        match self {
            Sign::Minus => true,
            Sign::Plus => false,
        }
    }

    pub fn same(self, other: Sign) -> (b: bool)
        ensures
            b == (self == other),
    {
        self.is_minus() == other.is_minus()
    }
}

/// A potential went through a turning point over a step: it was positive and
/// is exactly zero, or it changed sign.
pub open spec fn turned(before: Double, after: Double) -> bool {
    (before.positive() && after.zero()) || opposite_signs(before, after)
}

/// The branch sign after a step over which the potential went from `before`
/// to `after`: flipped at a turning point.
pub open spec fn turning_flip(sign: Sign, before: Double, after: Double) -> Sign {
    if turned(before, after) {
        sign.flipped()
    } else {
        sign
    }
}

pub fn flip_at_turning_point(sign: Sign, before: Double, after: Double) -> (s: Sign)
    ensures
        s == turning_flip(sign, before, after),
{
    if (before.is_positive() && after.is_zero()) || have_opposite_signs(before, after) {
        sign.flip()
    } else {
        sign
    }
}

/// The branch sign of one interior stage of a step: the direction of the
/// stage's increment, flipped where the potential at the stage is not
/// positive.
pub open spec fn stage_sign_of(increment: Double, potential: Double) -> Sign {
    if potential.at_most(Double { bits: ZERO }) {
        Sign::direction_of(increment).flipped()
    } else {
        Sign::direction_of(increment)
    }
}

pub fn stage_sign(increment: Double, potential: Double) -> (s: Sign)
    ensures
        s == stage_sign_of(increment, potential),
{
    let local = Sign::of_increment(increment);
    if potential.le(Double { bits: ZERO }) {
        local.flip()
    } else {
        local
    }
}

/// `|d| > 1e-12`.
pub open spec fn moved(d: Double) -> bool {
    (Double { bits: MOVE_THRESHOLD }).below(d.magnitude_value())
}

/// The branch sign after an accepted step. The stepper first flips the sign
/// it started with at a turning point; a coordinate that moved then takes the
/// direction of its increment; the turning-point rule is applied once more.
pub open spec fn sign_after_step(sign: Sign, d: Double, before: Double, after: Double) -> Sign {
    let trial = turning_flip(sign, before, after);
    let primary = if moved(d) {
        Sign::direction_of(d)
    } else {
        trial
    };
    turning_flip(primary, before, after)
}

pub fn next_sign(sign: Sign, d: Double, before: Double, after: Double) -> (s: Sign)
    ensures
        s == sign_after_step(sign, d, before, after),
{
    let trial = flip_at_turning_point(sign, before, after);
    let primary = if d.abs().gt(Double { bits: MOVE_THRESHOLD }) {
        Sign::of_increment(d)
    } else {
        trial
    };
    flip_at_turning_point(primary, before, after)
}

/// A turn counter after a step: one more where the sign changed, and 255
/// stays 255.
pub open spec fn counted(turns: u8, changed: bool) -> u8 {
    if changed && turns < 255 {
        (turns + 1) as u8
    } else {
        turns
    }
}

pub fn count_turn(turns: u8, changed: bool) -> (t: u8)
    ensures
        t == counted(turns, changed),
        t >= turns,
        t - turns <= 1,
        turns == 255 ==> t == 255,
{
    if changed && turns < 255 {
        turns + 1
    } else {
        turns
    }
}

/// Number of sign changes among the steps of a ray.
pub open spec fn changes_in(changes: Seq<bool>) -> nat
    decreases changes.len(),
{
    if changes.len() == 0 {
        0
    } else {
        changes_in(changes.drop_last()) + if changes.last() {
            1nat
        } else {
            0nat
        }
    }
}

/// A turn counter after the steps of a ray, of which `changes[i]` says
/// whether step `i` changed the sign.
pub open spec fn turns_after(turns: u8, changes: Seq<bool>) -> u8
    decreases changes.len(),
{
    if changes.len() == 0 {
        turns
    } else {
        counted(turns_after(turns, changes.drop_last()), changes.last())
    }
}

/// Along a ray a turn counter never goes down and never wraps: after any
/// steps it holds the number of sign changes added to where it started, or
/// 255 where that is more.
pub proof fn lemma_turns_saturate(turns: u8, changes: Seq<bool>)
    ensures
        turns_after(turns, changes) >= turns,
        turns_after(turns, changes) == if turns + changes_in(changes) > 255 {
            255
        } else {
            turns + changes_in(changes)
        },
        changes.len() > 0 ==> turns_after(turns, changes) >= turns_after(
            turns,
            changes.drop_last(),
        ),
    decreases changes.len(),
{
    if changes.len() > 0 {
        lemma_turns_saturate(turns, changes.drop_last());
    }
}

/// Bits of 1e-12, the error tolerance of a step.
pub const TOLERANCE: u64 = 0x3D71_9799_812D_EA11;

/// Bits of 1e-14: an error below this counts as none.
pub const NEGLIGIBLE_ERROR: u64 = 0x3D06_849B_86A1_2B9B;

/// Bits of 1e-8, the smallest step size.
pub const MIN_STEP: u64 = 0x3E45_798E_E230_8C3A;

/// Bits of 0.5, the largest step size.
pub const MAX_STEP: u64 = 0x3FE0_0000_0000_0000;

/// A trial step is accepted where its error estimate is within the tolerance,
/// and at the smallest step size whatever the error.
pub open spec fn acceptable(error: Double, step_size: Double) -> bool {
    error.at_most(Double { bits: TOLERANCE }) || step_size.at_most(Double { bits: MIN_STEP })
}

pub fn step_accepted(error: Double, step_size: Double) -> (b: bool)
    ensures
        b == acceptable(error, step_size),
{
    error.le(Double { bits: TOLERANCE }) || step_size.le(Double { bits: MIN_STEP })
}

/// The error estimate is so small that the step size grows by the largest
/// factor.
pub fn error_negligible(error: Double) -> (b: bool)
    ensures
        b == error.below(Double { bits: NEGLIGIBLE_ERROR }),
{
    error.lt(Double { bits: NEGLIGIBLE_ERROR })
}

/// A proposed step size brought into `[1e-8, 0.5]`; one that is not a number
/// becomes the smallest step.
pub open spec fn clamped_step(proposed: Double) -> Double {
    if proposed.nan() || proposed.below(Double { bits: MIN_STEP }) {
        Double { bits: MIN_STEP }
    } else if (Double { bits: MAX_STEP }).below(proposed) {
        Double { bits: MAX_STEP }
    } else {
        proposed
    }
}

pub fn clamp_step(proposed: Double) -> (h: Double)
    ensures
        h == clamped_step(proposed),
        (Double { bits: MIN_STEP }).at_most(h),
        h.at_most(Double { bits: MAX_STEP }),
{
    if proposed.is_nan() || proposed.lt(Double { bits: MIN_STEP }) {
        Double { bits: MIN_STEP }
    } else if proposed.gt(Double { bits: MAX_STEP }) {
        Double { bits: MAX_STEP }
    } else {
        proposed
    }
}

/// How a ray ended without filling all its order slots.
#[derive(Debug, Clone, Copy, PartialEq, Eq, Structural)]
pub enum Termination {
    Escaped,
    Captured,
    Aborted,
}

impl Termination {
    /// The record that fills a slot of a ray that ended this way.
    pub open spec fn record(self, turns_r: u8, turns_theta: u8) -> GeodesicResult {
        match self {
            Termination::Escaped => GeodesicResult::Escaped { turns_r, turns_theta },
            Termination::Captured => GeodesicResult::Captured { turns_r, turns_theta },
            Termination::Aborted => GeodesicResult::Aborted { turns_r, turns_theta },
        }
    }

    pub fn to_result(self, turns_r: u8, turns_theta: u8) -> (g: GeodesicResult)
        ensures
            g == self.record(turns_r, turns_theta),
    {
        match self {
            Termination::Escaped => GeodesicResult::Escaped { turns_r, turns_theta },
            Termination::Captured => GeodesicResult::Captured { turns_r, turns_theta },
            Termination::Aborted => GeodesicResult::Aborted { turns_r, turns_theta },
        }
    }
}

/// The radii that decide a ray's fate.
#[derive(Debug, Clone, Copy, PartialEq, Eq, Structural)]
pub struct RayLimits {
    /// A ray inside this radius is captured: the horizon radius times 1.01.
    pub capture_radius: Double,
    /// Inner edge of the disc.
    pub disc_inner: Double,
    /// Outer edge of the disc.
    pub disc_outer: Double,
}

impl RayLimits {
    /// `disc_inner <= r <= disc_outer`.
    pub open spec fn on_disc(self, r: Double) -> bool {
        self.disc_inner.at_most(r) && r.at_most(self.disc_outer)
    }

    pub fn is_on_disc(&self, r: Double) -> (b: bool)
        ensures
            b == self.on_disc(r),
    {
        r.ge(self.disc_inner) && r.le(self.disc_outer)
    }
}

/// What a stepper reports of one accepted step.
#[derive(Debug, Clone, Copy, PartialEq, Eq, Structural)]
pub struct StepReport {
    /// The state after the step.
    pub r: Double,
    pub theta: Double,
    pub phi: Double,
    /// `r` after the step minus `r` before it.
    pub dr: Double,
    /// `theta` after the step minus `theta` before it.
    pub dtheta: Double,
    /// The radial potential `R`, clamped at zero, before and after the step.
    pub r_potential_before: Double,
    pub r_potential_after: Double,
    /// The polar potential, clamped at zero, before and after the step.
    pub theta_potential_before: Double,
    pub theta_potential_after: Double,
    /// `theta - pi/2` before and after the step.
    pub polar_offset_before: Double,
    pub polar_offset_after: Double,
}

impl StepReport {
    /// All three coordinates after the step are finite numbers.
    pub open spec fn finite_state(self) -> bool {
        self.r.finite() && self.theta.finite() && self.phi.finite()
    }

    /// The step went through the equatorial plane.
    pub open spec fn crossed_equator(self) -> bool {
        opposite_signs(self.polar_offset_before, self.polar_offset_after)
    }

    /// How the step ends the ray, if it does.
    pub open spec fn termination(self, capture_radius: Double) -> Option<Termination> {
        if !self.finite_state() {
            Some(Termination::Aborted)
        } else if self.r.below(capture_radius) {
            Some(Termination::Captured)
        } else if (Double { bits: ESCAPE_RADIUS }).below(self.r) {
            Some(Termination::Escaped)
        } else {
            None
        }
    }

    pub fn classify(&self, capture_radius: Double) -> (t: Option<Termination>)
        ensures
            t == self.termination(capture_radius),
    {
        if !(self.r.is_finite() && self.theta.is_finite() && self.phi.is_finite()) {
            Some(Termination::Aborted)
        } else if self.r.lt(capture_radius) {
            Some(Termination::Captured)
        } else if self.r.gt(Double { bits: ESCAPE_RADIUS }) {
            Some(Termination::Escaped)
        } else {
            None
        }
    }
}

/// A ray that goes on after a step stands at a finite radius outside the
/// horizon and within the escape radius: the capture radius lies outside the
/// horizon, and a step to a radius inside the capture radius ends the ray.
pub proof fn lemma_running_ray_outside_horizon(
    report: StepReport,
    horizon: Double,
    capture_radius: Double,
)
    requires
        horizon.below(capture_radius),
        report.termination(capture_radius).is_none(),
    ensures
        report.r.finite(),
        horizon.below(report.r),
        capture_radius.at_most(report.r),
        report.r.at_most(Double { bits: ESCAPE_RADIUS }),
{
}

/// The fate of a ray that ran out of steps at radius `r`, moving in the
/// radial direction `sign_r`.
pub open spec fn exhausted_termination(r: Double, sign_r: Sign) -> Termination {
    if r.below(Double { bits: NEAR_RADIUS }) {
        Termination::Captured
    } else if (Double { bits: FAR_RADIUS }).below(r) {
        Termination::Escaped
    } else if sign_r == Sign::Minus {
        Termination::Captured
    } else {
        Termination::Escaped
    }
}

pub fn classify_exhausted(r: Double, sign_r: Sign) -> (t: Termination)
    ensures
        t == exhausted_termination(r, sign_r),
{
    if r.lt(Double { bits: NEAR_RADIUS }) {
        Termination::Captured
    } else if r.gt(Double { bits: FAR_RADIUS }) {
        Termination::Escaped
    } else if sign_r.is_minus() {
        Termination::Captured
    } else {
        Termination::Escaped
    }
}

/// A located crossing of the equatorial plane.
#[derive(Debug, Clone, Copy, PartialEq, Eq, Structural)]
pub struct Crossing {
    pub r: Double,
    pub theta: Double,
    pub phi: Double,
    pub impact_parameter: Double,
    pub redshift_factor: Double,
    pub affine_parameter: Double,
    pub phi_wraps: Double,
    pub null_invariant_error: Double,
    /// Sine and cosine of `phi`, in single precision.
    pub sin_phi: Single,
    pub cos_phi: Single,
}

/// The disc hit recorded for a crossing of the ray of `photon`.
pub open spec fn hit_record(
    photon: PhotonState,
    crossing: Crossing,
    order: u8,
    turns_r: u8,
    turns_theta: u8,
) -> GeodesicResult {
    GeodesicResult::DiscHit {
        r: crossing.r,
        theta: crossing.theta,
        phi: crossing.phi,
        energy: photon.energy,
        angular_momentum: photon.angular_momentum,
        carter_q: photon.carter_q,
        impact_parameter: crossing.impact_parameter,
        redshift_factor: crossing.redshift_factor,
        affine_parameter: crossing.affine_parameter,
        phi_wraps: crossing.phi_wraps,
        order,
        null_invariant_error: crossing.null_invariant_error,
        turns_r,
        turns_theta,
        sin_phi: crossing.sin_phi,
        cos_phi: crossing.cos_phi,
    }
}

/// `slots` with every slot from `from` on replaced by `value`.
pub open spec fn filled(slots: Seq<GeodesicResult>, from: int, value: GeodesicResult) -> Seq<
    GeodesicResult,
> {
    Seq::new(
        slots.len(),
        |i: int|
            if i >= from {
                value
            } else {
                slots[i]
            },
    )
}

fn fill_from(slots: &mut Vec<GeodesicResult>, from: usize, value: GeodesicResult)
    ensures
        final(slots)@ == filled(old(slots)@, from as int, value),
{
    let n = slots.len();
    let mut i: usize = from;
    while i < n
        invariant
            n == slots@.len(),
            n == old(slots)@.len(),
            from <= i,
            forall|k: int| 0 <= k < n && k < from ==> slots@[k] == old(slots)@[k],
            forall|k: int| from <= k < i && k < n ==> slots@[k] == value,
            forall|k: int| i <= k < n ==> slots@[k] == old(slots)@[k],
        decreases n - i,
    {
        slots[i] = value;
        i = i + 1;
    }
    assert(slots@ =~= filled(old(slots)@, from as int, value));
}

/// Makes an empty list into `count` slots that all hold `value`.
fn fill_to(slots: &mut Vec<GeodesicResult>, count: u8, value: GeodesicResult)
    requires
        old(slots)@.len() == 0,
    ensures
        final(slots)@ == Seq::new(count as nat, |i: int| value),
{
    let mut i: u8 = 0;
    while i < count
        invariant
            i <= count,
            slots@.len() == i,
            forall|k: int| 0 <= k < i ==> slots@[k] == value,
        decreases count - i,
    {
        slots.push(value);
        i = i + 1;
    }
    assert(slots@ =~= Seq::new(count as nat, |i: int| value));
}

/// What the caller of `RayTracker::advance` does next.
#[derive(Debug, Clone, Copy, PartialEq, Eq, Structural)]
pub enum StepAction {
    /// Take another step.
    Continue,
    /// The step went through the equatorial plane: locate the crossing and
    /// hand it to `RayTracker::record_crossing`.
    LocateCrossing,
    /// The ray has ended.
    Finished,
}

/// `a` is at most `b` in both counts.
pub open spec fn turns_at_most(a: (u8, u8), b: (u8, u8)) -> bool {
    a.0 <= b.0 && a.1 <= b.1
}

/// The bookkeeping of one ray: branch signs, turn counters, and the order
/// slots filled so far.
pub struct RayTracker {
    pub photon: PhotonState,
    pub limits: RayLimits,
    pub max_orders: u8,
    /// Branch signs after the last accepted step.
    pub sign_r: Sign,
    pub sign_theta: Sign,
    /// Sign changes counted so far, saturating at 255.
    pub turns_r: u8,
    pub turns_theta: u8,
    /// Radius after the last accepted step.
    pub last_r: Double,
    /// Number of disc crossings recorded; the next one gets this order.
    pub disc_crossings: u8,
    /// How the ray ended, if it ended before all slots were hits.
    pub termination: Option<Termination>,
    pub finished: bool,
    /// One slot per order.
    pub results: Vec<GeodesicResult>,
}

impl RayTracker {
    /// Slot `k` holds the hit of order `k` of this ray, on the disc, with
    /// turn counts that the ray had reached.
    pub open spec fn recorded(self, k: int) -> bool {
        &&& self.results@[k] matches GeodesicResult::DiscHit {
            r,
            energy,
            angular_momentum,
            carter_q,
            order,
            ..
        }
        &&& order == k
        &&& self.limits.on_disc(r)
        &&& energy == self.photon.energy
        &&& angular_momentum == self.photon.angular_momentum
        &&& carter_q == self.photon.carter_q
        &&& turns_at_most(self.results@[k].turns(), (self.turns_r, self.turns_theta))
    }

    /// What the slots without a hit hold: the termination record once the ray
    /// has ended, and until then an escape without turns.
    pub open spec fn pending(self) -> GeodesicResult {
        match self.termination {
            Some(t) => t.record(self.turns_r, self.turns_theta),
            None => GeodesicResult::Escaped { turns_r: 0, turns_theta: 0 },
        }
    }

    pub open spec fn wf(self) -> bool {
        &&& self.results@.len() == self.max_orders
        &&& self.disc_crossings <= self.max_orders
        &&& self.finished <==> (self.disc_crossings == self.max_orders
            || self.termination.is_some())
        &&& forall|k: int| 0 <= k < self.disc_crossings ==> self.recorded(k)
        &&& forall|i: int, j: int|
            0 <= i < j < self.disc_crossings ==> turns_at_most(
                (#[trigger] self.results@[i]).turns(),
                (#[trigger] self.results@[j]).turns(),
            )
        &&& forall|k: int|
            self.disc_crossings <= k < self.max_orders ==> #[trigger] self.results@[k]
                == self.pending()
    }

    /// A tracker at the start of a ray: moving inward, no turns, every slot an
    /// escape without turns.
    pub fn new(
        photon: PhotonState,
        initial_sign_theta: Sign,
        limits: RayLimits,
        max_orders: u8,
    ) -> (t: Self)
        ensures
            t.wf(),
            t.photon == photon,
            t.limits == limits,
            t.max_orders == max_orders,
            t.sign_r == Sign::Minus,
            t.sign_theta == initial_sign_theta,
            t.turns_r == 0 && t.turns_theta == 0,
            t.last_r == photon.r,
            t.disc_crossings == 0,
            t.termination.is_none(),
            t.finished == (max_orders == 0),
            t.results@ == Seq::new(
                max_orders as nat,
                |i: int| GeodesicResult::Escaped { turns_r: 0, turns_theta: 0 },
            ),
    {
        let mut results: Vec<GeodesicResult> = Vec::new();
        fill_to(&mut results, max_orders, GeodesicResult::Escaped { turns_r: 0, turns_theta: 0 });
        RayTracker {
            photon,
            limits,
            max_orders,
            sign_r: Sign::Minus,
            sign_theta: initial_sign_theta,
            turns_r: 0,
            turns_theta: 0,
            last_r: photon.r,
            disc_crossings: 0,
            termination: None,
            finished: max_orders == 0,
            results,
        }
    }

    /// Takes in one accepted step: updates both branch signs and turn
    /// counters, then ends the ray if the step left the numbers, fell inside
    /// the capture radius or went beyond the escape radius, and otherwise
    /// says whether the step crossed the equatorial plane.
    pub fn advance(&mut self, report: &StepReport) -> (action: StepAction)
        requires
            old(self).wf(),
            !old(self).finished,
        ensures
            final(self).wf(),
            final(self).photon == old(self).photon,
            final(self).limits == old(self).limits,
            final(self).max_orders == old(self).max_orders,
            final(self).disc_crossings == old(self).disc_crossings,
            final(self).last_r == report.r,
            final(self).sign_r == sign_after_step(
                old(self).sign_r,
                report.dr,
                report.r_potential_before,
                report.r_potential_after,
            ),
            final(self).sign_theta == sign_after_step(
                old(self).sign_theta,
                report.dtheta,
                report.theta_potential_before,
                report.theta_potential_after,
            ),
            final(self).turns_r == counted(
                old(self).turns_r,
                final(self).sign_r != old(self).sign_r,
            ),
            final(self).turns_theta == counted(
                old(self).turns_theta,
                final(self).sign_theta != old(self).sign_theta,
            ),
            final(self).termination == report.termination(old(self).limits.capture_radius),
            final(self).finished == final(self).termination.is_some(),
            final(self).results@ == (match final(self).termination {
                Some(t) => filled(
                    old(self).results@,
                    old(self).disc_crossings as int,
                    t.record(final(self).turns_r, final(self).turns_theta),
                ),
                None => old(self).results@,
            }),
            action == (if final(self).finished {
                StepAction::Finished
            } else if report.crossed_equator() {
                StepAction::LocateCrossing
            } else {
                StepAction::Continue
            }),
    {
        let sign_r = next_sign(
            self.sign_r,
            report.dr,
            report.r_potential_before,
            report.r_potential_after,
        );
        let sign_theta = next_sign(
            self.sign_theta,
            report.dtheta,
            report.theta_potential_before,
            report.theta_potential_after,
        );
        self.turns_r = count_turn(self.turns_r, !sign_r.same(self.sign_r));
        self.turns_theta = count_turn(self.turns_theta, !sign_theta.same(self.sign_theta));
        self.sign_r = sign_r;
        self.sign_theta = sign_theta;
        self.last_r = report.r;
        proof {
            assert forall|k: int| 0 <= k < self.disc_crossings implies self.recorded(k) by {
                assert(old(self).recorded(k));
            }
        }
        match report.classify(self.limits.capture_radius) {
            Some(t) => {
                let record = t.to_result(self.turns_r, self.turns_theta);
                let ghost before = *self;
                fill_from(&mut self.results, self.disc_crossings as usize, record);
                self.termination = Some(t);
                self.finished = true;
                proof {
                    assert forall|k: int| 0 <= k < self.disc_crossings implies self.recorded(
                        k,
                    ) by {
                        assert(before.recorded(k));
                    }
                }
                StepAction::Finished
            },
            None => {
                if have_opposite_signs(report.polar_offset_before, report.polar_offset_after) {
                    StepAction::LocateCrossing
                } else {
                    StepAction::Continue
                }
            },
        }
    }

    /// Takes in a located crossing. One on the disc becomes the hit of the
    /// next order, and the ray ends when every order has its hit; one off the
    /// disc changes nothing.
    pub fn record_crossing(&mut self, crossing: &Crossing) -> (action: StepAction)
        requires
            old(self).wf(),
            !old(self).finished,
        ensures
            final(self).wf(),
            !old(self).limits.on_disc(crossing.r) ==> *final(self) == *old(self),
            old(self).limits.on_disc(crossing.r) ==> {
                &&& final(self).results@ == old(self).results@.update(
                    old(self).disc_crossings as int,
                    hit_record(
                        old(self).photon,
                        *crossing,
                        old(self).disc_crossings,
                        old(self).turns_r,
                        old(self).turns_theta,
                    ),
                )
                &&& final(self).disc_crossings == old(self).disc_crossings + 1
                &&& final(self).finished == (final(self).disc_crossings == old(self).max_orders)
                &&& final(self).photon == old(self).photon
                &&& final(self).limits == old(self).limits
                &&& final(self).max_orders == old(self).max_orders
                &&& final(self).sign_r == old(self).sign_r
                &&& final(self).sign_theta == old(self).sign_theta
                &&& final(self).turns_r == old(self).turns_r
                &&& final(self).turns_theta == old(self).turns_theta
                &&& final(self).last_r == old(self).last_r
                &&& final(self).termination == old(self).termination
            },
            action == (if final(self).finished {
                StepAction::Finished
            } else {
                StepAction::Continue
            }),
    {
        if !self.limits.is_on_disc(crossing.r) {
            return StepAction::Continue;
        }
        let order = self.disc_crossings;
        let hit = GeodesicResult::DiscHit {
            r: crossing.r,
            theta: crossing.theta,
            phi: crossing.phi,
            energy: self.photon.energy,
            angular_momentum: self.photon.angular_momentum,
            carter_q: self.photon.carter_q,
            impact_parameter: crossing.impact_parameter,
            redshift_factor: crossing.redshift_factor,
            affine_parameter: crossing.affine_parameter,
            phi_wraps: crossing.phi_wraps,
            order,
            null_invariant_error: crossing.null_invariant_error,
            turns_r: self.turns_r,
            turns_theta: self.turns_theta,
            sin_phi: crossing.sin_phi,
            cos_phi: crossing.cos_phi,
        };
        self.results[order as usize] = hit;
        self.disc_crossings = order + 1;
        self.finished = self.disc_crossings == self.max_orders;
        proof {
            assert forall|k: int| 0 <= k < self.disc_crossings implies self.recorded(k) by {
                if k < order {
                    assert(old(self).recorded(k));
                }
            }
            assert forall|i: int, j: int| 0 <= i < j < self.disc_crossings implies turns_at_most(
                (#[trigger] self.results@[i]).turns(),
                (#[trigger] self.results@[j]).turns(),
            ) by {
                assert(old(self).recorded(i));
            }
        }
        if self.finished {
            StepAction::Finished
        } else {
            StepAction::Continue
        }
    }

    /// Ends a ray that ran out of steps: the slots without a hit get the fate
    /// guessed from the last radius and the radial direction.
    pub fn exhaust(&mut self)
        requires
            old(self).wf(),
            !old(self).finished,
        ensures
            final(self).wf(),
            final(self).finished,
            final(self).termination == Some(
                exhausted_termination(old(self).last_r, old(self).sign_r),
            ),
            final(self).results@ == filled(
                old(self).results@,
                old(self).disc_crossings as int,
                exhausted_termination(old(self).last_r, old(self).sign_r).record(
                    old(self).turns_r,
                    old(self).turns_theta,
                ),
            ),
            final(self).photon == old(self).photon,
            final(self).limits == old(self).limits,
            final(self).max_orders == old(self).max_orders,
            final(self).disc_crossings == old(self).disc_crossings,
            final(self).sign_r == old(self).sign_r,
            final(self).sign_theta == old(self).sign_theta,
            final(self).turns_r == old(self).turns_r,
            final(self).turns_theta == old(self).turns_theta,
            final(self).last_r == old(self).last_r,
    {
        let t = classify_exhausted(self.last_r, self.sign_r);
        let record = t.to_result(self.turns_r, self.turns_theta);
        fill_from(&mut self.results, self.disc_crossings as usize, record);
        self.termination = Some(t);
        self.finished = true;
        proof {
            assert forall|k: int| 0 <= k < self.disc_crossings implies self.recorded(k) by {
                assert(old(self).recorded(k));
            }
        }
    }

    /// The order slots, one result each.
    pub fn into_results(self) -> (results: Vec<GeodesicResult>)
        ensures
            results == self.results,
    {
        self.results
    }
}

/// What holds of the order slots of every traced ray, whatever the stepper
/// reported.
pub open spec fn well_traced(
    results: Seq<GeodesicResult>,
    photon: PhotonState,
    limits: RayLimits,
) -> bool {
    // A hit stands in the slot of its order, lies on the disc, and carries
    // the ray's constants of motion.
    &&& forall|k: int|
        0 <= k < results.len() && (#[trigger] results[k]).hit() ==> {
            &&& results[k] matches GeodesicResult::DiscHit {
                r,
                energy,
                angular_momentum,
                carter_q,
                order,
                ..
            }
            &&& order == k
            &&& limits.on_disc(r)
            &&& energy == photon.energy
            &&& angular_momentum == photon.angular_momentum
            &&& carter_q == photon.carter_q
        }
    // The hits come first.
    &&& forall|i: int, j: int|
        0 <= i < j < results.len() && (#[trigger] results[j]).hit() ==> (
        #[trigger] results[i]).hit()
    // All slots without a hit hold the same termination record.
    &&& forall|i: int, j: int|
        0 <= i < j < results.len() && !(#[trigger] results[i]).hit() ==> #[trigger] results[j]
            == results[i]
    // Turn counts never go down from one slot to the next.
    &&& forall|i: int, j: int|
        0 <= i < j < results.len() ==> turns_at_most(
            (#[trigger] results[i]).turns(),
            (#[trigger] results[j]).turns(),
        )
}

/// The numerical side of a ray: it owns the ray's position and advances it.
pub trait Stepper {
    /// Takes one accepted step from the current state on the given branches
    /// and reports it.
    fn step(&mut self, sign_r: Sign, sign_theta: Sign) -> StepReport;

    /// Locates the crossing of the equatorial plane inside the step reported
    /// last.
    fn locate_crossing(&mut self) -> Crossing;
}

/// Traces one ray and collects its disc crossings, at most `max_orders` of
/// them, in at most `max_steps` accepted steps. Returns one result per order:
/// the hits in the order in which the ray made them, then the ray's
/// termination in every slot that is left.
pub fn integrate_geodesic_multi_order<S: Stepper>(
    stepper: &mut S,
    photon: PhotonState,
    initial_sign_theta: Sign,
    limits: RayLimits,
    max_orders: u8,
    max_steps: usize,
) -> (results: Vec<GeodesicResult>)
    ensures
        results@.len() == max_orders,
        well_traced(results@, photon, limits),
        max_steps == 0 ==> results@ == Seq::new(
            max_orders as nat,
            |i: int| exhausted_termination(photon.r, Sign::Minus).record(0, 0),
        ),
{
    let mut tracker = RayTracker::new(photon, initial_sign_theta, limits, max_orders);
    let mut steps_taken: usize = 0;
    while steps_taken < max_steps && !tracker.finished
        invariant
            tracker.wf(),
            tracker.photon == photon,
            tracker.limits == limits,
            tracker.max_orders == max_orders,
            steps_taken <= max_steps,
            steps_taken == 0 ==> tracker.disc_crossings == 0 && tracker.termination.is_none()
                && tracker.turns_r == 0 && tracker.turns_theta == 0 && tracker.last_r == photon.r
                && tracker.sign_r == Sign::Minus,
        decreases max_steps - steps_taken,
    {
        let report = stepper.step(tracker.sign_r, tracker.sign_theta);
        steps_taken = steps_taken + 1;
        let action = tracker.advance(&report);
        match action {
            StepAction::LocateCrossing => {
                let crossing = stepper.locate_crossing();
                let _ = tracker.record_crossing(&crossing);
            },
            _ => {},
        }
    }
    if !tracker.finished {
        tracker.exhaust();
    }
    proof {
        let r = tracker.results@;
        let n = tracker.disc_crossings as int;
        assert forall|k: int| 0 <= k < n implies (#[trigger] r[k]).hit() by {
            assert(tracker.recorded(k));
        }
        assert forall|k: int| n <= k < r.len() implies !(#[trigger] r[k]).hit() && r[k].turns() == (
            tracker.turns_r,
            tracker.turns_theta,
        ) by {
            assert(r[k] == tracker.pending());
        }
        assert forall|k: int| 0 <= k < n implies turns_at_most(
            (#[trigger] r[k]).turns(),
            (tracker.turns_r, tracker.turns_theta),
        ) by {
            assert(tracker.recorded(k));
        }
        assert forall|k: int| 0 <= k < r.len() && (#[trigger] r[k]).hit() implies {
            &&& r[k] matches GeodesicResult::DiscHit {
                r: radius,
                energy,
                angular_momentum,
                carter_q,
                order,
                ..
            }
            &&& order == k
            &&& limits.on_disc(radius)
            &&& energy == photon.energy
            &&& angular_momentum == photon.angular_momentum
            &&& carter_q == photon.carter_q
        } by {
            assert(k < n);
            assert(tracker.recorded(k));
        }
        if max_steps == 0 {
            assert(r =~= Seq::new(
                max_orders as nat,
                |i: int| exhausted_termination(photon.r, Sign::Minus).record(0, 0),
            ));
        }
    }
    tracker.into_results()
}

/// The results of a ray that could not be started, such as one from an
/// observer on the polar axis: aborted in every order, without a turn.
pub fn refused_ray(max_orders: u8) -> (results: Vec<GeodesicResult>)
    ensures
        results@ == Seq::new(
            max_orders as nat,
            |i: int| GeodesicResult::Aborted { turns_r: 0, turns_theta: 0 },
        ),
{
    let mut results: Vec<GeodesicResult> = Vec::new();
    fill_to(&mut results, max_orders, GeodesicResult::Aborted { turns_r: 0, turns_theta: 0 });
    results
}

/// Traces a ray for its direct image alone, starting toward growing `theta`.
pub fn integrate_geodesic<S: Stepper>(
    stepper: &mut S,
    photon: PhotonState,
    limits: RayLimits,
    max_steps: usize,
) -> (result: GeodesicResult)
    ensures
        well_traced(seq![result], photon, limits),
        max_steps == 0 ==> result == exhausted_termination(photon.r, Sign::Minus).record(0, 0),
{
    let results = integrate_geodesic_multi_order(
        stepper,
        photon,
        Sign::Plus,
        limits,
        1,
        max_steps,
    );
    assert(results@ =~= seq![results@[0]]);
    results[0]
}

} // verus!
