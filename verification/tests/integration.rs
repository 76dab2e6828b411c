use kerr_black_hole::geodesic::{GeodesicResult, PhotonState};
use kerr_black_hole::ieee::{Double, Single};
use kerr_black_hole::integration::{
    clamp_step, classify_exhausted, count_turn, error_negligible, flip_at_turning_point,
    integrate_geodesic, integrate_geodesic_multi_order, next_sign, stage_sign, step_accepted,
    Crossing, RayLimits, RayTracker, Sign, StepAction, StepReport, Stepper, Termination,
};

fn num(x: f64) -> Double {
    Double::from_bits(x.to_bits())
}

fn photon() -> PhotonState {
    PhotonState::new(num(50.0), num(1.0), num(0.0), num(1.0), num(2.5), num(7.0))
}

fn limits() -> RayLimits {
    RayLimits { capture_radius: num(1.45), disc_inner: num(2.32), disc_outer: num(20.0) }
}

fn quiet_step(r: f64) -> StepReport {
    StepReport {
        r: num(r),
        theta: num(1.0),
        phi: num(0.5),
        dr: num(-0.1),
        dtheta: num(0.01),
        r_potential_before: num(3.0),
        r_potential_after: num(2.0),
        theta_potential_before: num(1.0),
        theta_potential_after: num(1.0),
        polar_offset_before: num(-0.5),
        polar_offset_after: num(-0.4),
    }
}

fn crossing_step(r: f64) -> StepReport {
    StepReport { polar_offset_before: num(-0.01), polar_offset_after: num(0.02), ..quiet_step(r) }
}

fn crossing_at(r: f64) -> Crossing {
    Crossing {
        r: num(r),
        theta: num(std::f64::consts::FRAC_PI_2),
        phi: num(0.25),
        impact_parameter: num(2.5),
        redshift_factor: num(0.9),
        affine_parameter: num(48.0),
        phi_wraps: num(0.1),
        null_invariant_error: num(1e-15),
        sin_phi: Single::from_bits(2),
        cos_phi: Single::from_bits(3),
    }
}

struct Script {
    steps: Vec<StepReport>,
    crossings: Vec<Crossing>,
    next_step: usize,
    next_crossing: usize,
    signs_seen: Vec<(Sign, Sign)>,
}

impl Script {
    fn new(steps: Vec<StepReport>, crossings: Vec<Crossing>) -> Script {
        Script { steps, crossings, next_step: 0, next_crossing: 0, signs_seen: Vec::new() }
    }
}

impl Stepper for Script {
    fn step(&mut self, sign_r: Sign, sign_theta: Sign) -> StepReport {
        self.signs_seen.push((sign_r, sign_theta));
        let i = self.next_step.min(self.steps.len() - 1);
        self.next_step += 1;
        self.steps[i]
    }

    fn locate_crossing(&mut self) -> Crossing {
        let i = self.next_crossing.min(self.crossings.len() - 1);
        self.next_crossing += 1;
        self.crossings[i]
    }
}

#[test]
fn sign_follows_the_increment_when_the_coordinate_moved() {
    assert_eq!(next_sign(Sign::Minus, num(0.5), num(1.0), num(1.0)), Sign::Plus);
    assert_eq!(next_sign(Sign::Plus, num(-0.5), num(1.0), num(1.0)), Sign::Minus);
    assert_eq!(next_sign(Sign::Minus, num(1e-13), num(1.0), num(1.0)), Sign::Minus);
    assert_eq!(next_sign(Sign::Plus, num(-1e-13), num(1.0), num(1.0)), Sign::Plus);
    assert_eq!(next_sign(Sign::Plus, num(f64::NAN), num(1.0), num(1.0)), Sign::Plus);
}

#[test]
fn sign_flips_where_the_potential_reaches_zero() {
    assert_eq!(flip_at_turning_point(Sign::Minus, num(2.0), num(0.0)), Sign::Plus);
    assert_eq!(flip_at_turning_point(Sign::Minus, num(2.0), num(-0.0)), Sign::Plus);
    assert_eq!(flip_at_turning_point(Sign::Minus, num(0.0), num(0.0)), Sign::Minus);
    assert_eq!(flip_at_turning_point(Sign::Plus, num(2.0), num(-1.0)), Sign::Minus);
    assert_eq!(flip_at_turning_point(Sign::Plus, num(-2.0), num(1.0)), Sign::Minus);
    assert_eq!(flip_at_turning_point(Sign::Plus, num(2.0), num(1.0)), Sign::Plus);
    // The coordinate moved outward and the potential reached zero: the
    // direction of the increment is taken, then flipped.
    assert_eq!(next_sign(Sign::Minus, num(0.5), num(2.0), num(0.0)), Sign::Minus);
    // The coordinate stood still: the two flips cancel.
    assert_eq!(next_sign(Sign::Minus, num(0.0), num(2.0), num(0.0)), Sign::Minus);
}

#[test]
fn stage_sign_flips_on_a_spent_potential() {
    assert_eq!(stage_sign(num(0.1), num(1.0)), Sign::Plus);
    assert_eq!(stage_sign(num(-0.1), num(1.0)), Sign::Minus);
    assert_eq!(stage_sign(num(0.0), num(1.0)), Sign::Plus);
    assert_eq!(stage_sign(num(0.1), num(0.0)), Sign::Minus);
    assert_eq!(stage_sign(num(-0.1), num(0.0)), Sign::Plus);
}

#[test]
fn turn_counter_saturates_at_255() {
    assert_eq!(count_turn(0, true), 1);
    assert_eq!(count_turn(7, false), 7);
    assert_eq!(count_turn(254, true), 255);
    assert_eq!(count_turn(255, true), 255);
    assert_eq!(count_turn(255, false), 255);
    let mut turns = 0u8;
    let mut last = 0u8;
    for _ in 0..300 {
        turns = count_turn(turns, true);
        assert!(turns >= last);
        last = turns;
    }
    assert_eq!(turns, 255);
}

#[test]
fn step_control_accepts_and_clamps() {
    assert!(step_accepted(num(1e-12), num(0.05)));
    assert!(step_accepted(num(5e-13), num(0.05)));
    assert!(!step_accepted(num(2e-12), num(0.05)));
    assert!(step_accepted(num(1.0), num(1e-8)));
    assert!(!step_accepted(num(f64::NAN), num(0.05)));
    assert!(step_accepted(num(f64::NAN), num(1e-9)));
    assert!(error_negligible(num(9e-15)));
    assert!(!error_negligible(num(1e-14)));
    assert_eq!(clamp_step(num(0.25)), num(0.25));
    assert_eq!(clamp_step(num(3.0)), num(0.5));
    assert_eq!(clamp_step(num(1e-9)), num(1e-8));
    assert_eq!(clamp_step(num(-1.0)), num(1e-8));
    assert_eq!(clamp_step(num(f64::NAN)), num(1e-8));
}

#[test]
fn exhausted_ray_is_classified_by_radius_then_direction() {
    assert_eq!(classify_exhausted(num(9.9), Sign::Plus), Termination::Captured);
    assert_eq!(classify_exhausted(num(100.1), Sign::Minus), Termination::Escaped);
    assert_eq!(classify_exhausted(num(10.0), Sign::Minus), Termination::Captured);
    assert_eq!(classify_exhausted(num(10.0), Sign::Plus), Termination::Escaped);
    assert_eq!(classify_exhausted(num(100.0), Sign::Plus), Termination::Escaped);
    assert_eq!(classify_exhausted(num(50.0), Sign::Minus), Termination::Captured);
}

#[test]
fn step_report_classification() {
    let cap = num(1.45);
    assert_eq!(quiet_step(30.0).classify(cap), None);
    assert_eq!(quiet_step(1.44).classify(cap), Some(Termination::Captured));
    assert_eq!(quiet_step(1.45).classify(cap), None);
    assert_eq!(quiet_step(1000.0).classify(cap), None);
    assert_eq!(quiet_step(1000.5).classify(cap), Some(Termination::Escaped));
    assert_eq!(quiet_step(f64::NAN).classify(cap), Some(Termination::Aborted));
    assert_eq!(quiet_step(f64::INFINITY).classify(cap), Some(Termination::Aborted));
    let odd = StepReport { phi: num(f64::NAN), ..quiet_step(30.0) };
    assert_eq!(odd.classify(cap), Some(Termination::Aborted));
}

#[test]
fn tracker_starts_inward_with_escape_slots() {
    let t = RayTracker::new(photon(), Sign::Plus, limits(), 3);
    assert_eq!(t.sign_r, Sign::Minus);
    assert_eq!(t.sign_theta, Sign::Plus);
    assert!(!t.finished);
    assert_eq!(t.results.len(), 3);
    for r in t.results.iter() {
        assert_eq!(*r, GeodesicResult::Escaped { turns_r: 0, turns_theta: 0 });
    }
}

#[test]
fn tracker_counts_turns_and_records_hits_in_order() {
    let mut t = RayTracker::new(photon(), Sign::Plus, limits(), 2);
    // Inward, theta growing: no sign changes.
    assert_eq!(t.advance(&quiet_step(40.0)), StepAction::Continue);
    assert_eq!((t.turns_r, t.turns_theta), (0, 0));
    // Radial turning point: r grows now.
    let out = StepReport { dr: num(0.2), ..crossing_step(5.0) };
    assert_eq!(t.advance(&out), StepAction::LocateCrossing);
    assert_eq!(t.sign_r, Sign::Plus);
    assert_eq!((t.turns_r, t.turns_theta), (1, 0));
    // A crossing off the disc changes nothing.
    assert_eq!(t.record_crossing(&crossing_at(25.0)), StepAction::Continue);
    assert_eq!(t.disc_crossings, 0);
    assert_eq!(t.record_crossing(&crossing_at(2.0)), StepAction::Continue);
    assert_eq!(t.disc_crossings, 0);
    // One on the disc is the order 0 hit.
    assert_eq!(t.record_crossing(&crossing_at(6.0)), StepAction::Continue);
    assert_eq!(t.disc_crossings, 1);
    match t.results[0] {
        GeodesicResult::DiscHit { r, order, turns_r, turns_theta, energy, sin_phi, cos_phi, .. } => {
            assert_eq!(r, num(6.0));
            assert_eq!(order, 0);
            assert_eq!((turns_r, turns_theta), (1, 0));
            assert_eq!(energy, num(1.0));
            assert_eq!((sin_phi, cos_phi), (Single::from_bits(2), Single::from_bits(3)));
        }
        _ => panic!("slot 0 must hold a hit"),
    }
    // The edges of the disc count as on the disc.
    assert_eq!(t.record_crossing(&crossing_at(20.0)), StepAction::Finished);
    assert!(t.finished);
    assert!(t.results[1].is_hit());
    let results = t.into_results();
    assert_eq!(results.len(), 2);
}

#[test]
fn capture_fills_the_remaining_slots() {
    let mut t = RayTracker::new(photon(), Sign::Plus, limits(), 3);
    assert_eq!(t.advance(&crossing_step(8.0)), StepAction::LocateCrossing);
    assert_eq!(t.record_crossing(&crossing_at(8.0)), StepAction::Continue);
    let turn = StepReport { dtheta: num(-0.3), ..quiet_step(1.2) };
    assert_eq!(t.advance(&turn), StepAction::Finished);
    assert!(t.finished);
    assert_eq!(t.termination, Some(Termination::Captured));
    assert!(t.results[0].is_hit());
    assert_eq!(t.results[1], GeodesicResult::Captured { turns_r: 0, turns_theta: 1 });
    assert_eq!(t.results[2], GeodesicResult::Captured { turns_r: 0, turns_theta: 1 });
}

#[test]
fn escape_and_abort_fill_every_slot() {
    let mut t = RayTracker::new(photon(), Sign::Minus, limits(), 2);
    assert_eq!(t.advance(&StepReport { dr: num(5.0), ..quiet_step(1200.0) }), StepAction::Finished);
    assert_eq!(t.results[0], GeodesicResult::Escaped { turns_r: 1, turns_theta: 1 });
    assert_eq!(t.results[1], GeodesicResult::Escaped { turns_r: 1, turns_theta: 1 });

    let mut t = RayTracker::new(photon(), Sign::Plus, limits(), 2);
    assert_eq!(t.advance(&quiet_step(f64::NAN)), StepAction::Finished);
    assert_eq!(t.termination, Some(Termination::Aborted));
    assert_eq!(t.results[0], GeodesicResult::Aborted { turns_r: 0, turns_theta: 0 });
    assert_eq!(t.results[1], GeodesicResult::Aborted { turns_r: 0, turns_theta: 0 });
}

#[test]
fn exhaust_guesses_the_fate() {
    let mut t = RayTracker::new(photon(), Sign::Plus, limits(), 2);
    assert_eq!(t.advance(&quiet_step(50.0)), StepAction::Continue);
    t.exhaust();
    assert!(t.finished);
    assert_eq!(t.results[0], GeodesicResult::Captured { turns_r: 0, turns_theta: 0 });
    let mut t = RayTracker::new(photon(), Sign::Plus, limits(), 1);
    assert_eq!(t.advance(&StepReport { dr: num(1.0), ..quiet_step(50.0) }), StepAction::Continue);
    t.exhaust();
    assert_eq!(t.results[0], GeodesicResult::Escaped { turns_r: 1, turns_theta: 0 });
}

#[test]
fn integrate_collects_hits_then_termination() {
    let steps = vec![quiet_step(40.0), crossing_step(9.0), quiet_step(4.0), quiet_step(1.0)];
    let mut script = Script::new(steps, vec![crossing_at(9.0)]);
    let results =
        integrate_geodesic_multi_order(&mut script, photon(), Sign::Plus, limits(), 3, 10000);
    assert_eq!(results.len(), 3);
    assert!(results[0].is_hit());
    assert_eq!(results[0].disc_hit_data().unwrap().order, 0);
    assert_eq!(results[0].disc_hit_data().unwrap().r, num(9.0));
    assert_eq!(results[1], GeodesicResult::Captured { turns_r: 0, turns_theta: 0 });
    assert_eq!(results[2], GeodesicResult::Captured { turns_r: 0, turns_theta: 0 });
    assert_eq!(script.next_step, 4);
    assert_eq!(script.signs_seen[0], (Sign::Minus, Sign::Plus));
}

#[test]
fn integrate_stops_when_every_order_is_hit() {
    let mut script = Script::new(vec![crossing_step(9.0)], vec![crossing_at(9.0), crossing_at(7.0)]);
    let results =
        integrate_geodesic_multi_order(&mut script, photon(), Sign::Plus, limits(), 2, 10000);
    assert_eq!(results.len(), 2);
    assert_eq!(results[0].disc_hit_data().unwrap().order, 0);
    assert_eq!(results[1].disc_hit_data().unwrap().order, 1);
    assert_eq!(results[1].disc_hit_data().unwrap().r, num(7.0));
    assert_eq!(script.next_step, 2);
}

#[test]
fn integrate_runs_out_of_steps() {
    let mut script = Script::new(vec![quiet_step(40.0)], vec![crossing_at(9.0)]);
    let results = integrate_geodesic_multi_order(&mut script, photon(), Sign::Plus, limits(), 2, 25);
    assert_eq!(script.next_step, 25);
    assert_eq!(results[0], GeodesicResult::Captured { turns_r: 0, turns_theta: 0 });
    assert_eq!(results[1], GeodesicResult::Captured { turns_r: 0, turns_theta: 0 });

    let mut script = Script::new(vec![quiet_step(40.0)], vec![crossing_at(9.0)]);
    let results = integrate_geodesic_multi_order(&mut script, photon(), Sign::Plus, limits(), 2, 0);
    assert_eq!(script.next_step, 0);
    assert_eq!(results[0], GeodesicResult::Captured { turns_r: 0, turns_theta: 0 });
    assert_eq!(results.len(), 2);
}

#[test]
fn turn_counts_never_decrease_along_a_ray() {
    let wobble_out = StepReport { dr: num(0.3), ..crossing_step(9.0) };
    let wobble_in = StepReport { dr: num(-0.3), ..crossing_step(9.0) };
    let mut steps = Vec::new();
    for i in 0..600 {
        steps.push(if i % 2 == 0 { wobble_out } else { wobble_in });
    }
    let crossings = vec![crossing_at(25.0); 1];
    let mut script = Script::new(steps.clone(), crossings);
    let results =
        integrate_geodesic_multi_order(&mut script, photon(), Sign::Plus, limits(), 2, 600);
    assert_eq!(results[0].turning_points(), (255, 0));

    let mut script = Script::new(steps, vec![crossing_at(9.0), crossing_at(25.0)]);
    let results =
        integrate_geodesic_multi_order(&mut script, photon(), Sign::Plus, limits(), 3, 600);
    assert!(results[0].is_hit());
    let mut last = (0u8, 0u8);
    for r in results.iter() {
        let t = r.turning_points();
        assert!(t.0 >= last.0 && t.1 >= last.1);
        last = t;
    }
    assert_eq!(last, (255, 0));
}

#[test]
fn single_order_integration_starts_toward_growing_theta() {
    let mut script = Script::new(vec![crossing_step(9.0)], vec![crossing_at(9.0)]);
    let result = integrate_geodesic(&mut script, photon(), limits(), 100);
    assert!(result.is_hit());
    assert_eq!(script.signs_seen[0], (Sign::Minus, Sign::Plus));
}
