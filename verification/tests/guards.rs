use kerr_black_hole::artifacts::binary_artifacts;
use kerr_black_hole::geodesic::GeodesicResult;
use kerr_black_hole::guards::{
    bisection_move, brackets_crossing, clamp_potential, classify_potential, interval_exhausted,
    near_pole, nearer_to_equator, BisectionMove, PotentialState, MAX_BISECTIONS,
};
use kerr_black_hole::ieee::{Double, Single};
use kerr_black_hole::integration::refused_ray;
use kerr_black_hole::render::render_transfer_maps;
use kerr_black_hole::types::{BlackHole, BlackHoleType, Camera, RenderConfig};

fn n(x: f64) -> Double {
    Double::from_bits(x.to_bits())
}

#[test]
fn potentials_are_clamped_at_zero() {
    assert_eq!(clamp_potential(n(2.5)), n(2.5));
    assert_eq!(clamp_potential(n(0.0)), n(0.0));
    assert_eq!(clamp_potential(n(-0.0)), n(0.0));
    assert_eq!(clamp_potential(n(-1e-30)), n(0.0));
    assert_eq!(clamp_potential(n(-3.0)), n(0.0));
    assert_eq!(clamp_potential(n(f64::NAN)), n(0.0));
    assert_eq!(clamp_potential(n(f64::INFINITY)), n(f64::INFINITY));
    for x in [2.5, 0.0, -0.0, -1e-30, -3.0, f64::NAN, 1e-300] {
        assert_eq!(f64::from_bits(clamp_potential(n(x)).to_bits()), x.max(0.0));
    }
    assert_eq!(classify_potential(n(1e-30)), PotentialState::Moving);
    assert_eq!(classify_potential(n(0.0)), PotentialState::TurningPoint);
    assert_eq!(classify_potential(n(-9e-25)), PotentialState::TurningPoint);
    assert_eq!(classify_potential(n(-1e-24)), PotentialState::Overshot);
    assert_eq!(classify_potential(n(-1.0)), PotentialState::Overshot);
    assert_eq!(classify_potential(n(f64::NAN)), PotentialState::Overshot);
}

#[test]
fn poles_are_guarded() {
    assert!(near_pole(n(0.0)));
    assert!(near_pole(n(9.9e-11)));
    assert!(!near_pole(n(1e-10)));
    assert!(!near_pole(n(0.5)));
    assert!(!near_pole(n(f64::NAN)));
}

#[test]
fn bisection_moves_toward_the_crossing() {
    assert_eq!(MAX_BISECTIONS, 20);
    assert_eq!(bisection_move(n(5e-13), n(0.1)), BisectionMove::Converged);
    assert_eq!(bisection_move(n(-5e-13), n(0.1)), BisectionMove::Converged);
    assert_eq!(bisection_move(n(-0.01), n(0.1)), BisectionMove::RaiseLeft);
    assert_eq!(bisection_move(n(0.01), n(-0.1)), BisectionMove::RaiseLeft);
    assert_eq!(bisection_move(n(0.01), n(0.1)), BisectionMove::LowerRight);
    assert_eq!(bisection_move(n(-0.01), n(-0.1)), BisectionMove::LowerRight);
    assert_eq!(bisection_move(n(1e-12), n(0.1)), BisectionMove::LowerRight);
    assert!(brackets_crossing(n(-0.2), n(0.1)));
    assert!(brackets_crossing(n(0.2), n(-0.1)));
    assert!(!brackets_crossing(n(0.2), n(0.1)));
    assert!(!brackets_crossing(n(0.0), n(0.1)));
    assert!(nearer_to_equator(n(-0.1), n(0.2)));
    assert!(!nearer_to_equator(n(0.2), n(0.2)));
    assert!(interval_exhausted(n(9e-16)));
    assert!(interval_exhausted(n(-9e-16)));
    assert!(!interval_exhausted(n(1e-15)));
}

#[test]
fn a_refused_ray_is_aborted_in_every_order() {
    assert_eq!(refused_ray(3), vec![GeodesicResult::Aborted { turns_r: 0, turns_theta: 0 }; 3]);
    assert!(refused_ray(0).is_empty());
}

fn sample_hit(order: u8, r: f64) -> GeodesicResult {
    GeodesicResult::DiscHit {
        r: n(r),
        theta: n(1.5),
        phi: n(0.5),
        energy: n(1.0),
        angular_momentum: n(2.0),
        carter_q: n(3.0),
        impact_parameter: n(2.0),
        redshift_factor: n(1.25),
        affine_parameter: n(47.0),
        phi_wraps: n(0.1),
        order,
        null_invariant_error: n(1e-14),
        turns_r: 0,
        turns_theta: 1,
        sin_phi: Single::from_bits((0.5f64.sin() as f32).to_bits()),
        cos_phi: Single::from_bits((0.5f64.cos() as f32).to_bits()),
    }
}

#[test]
fn rendering_twice_gives_the_same_bytes() {
    let config = RenderConfig::new(4, 2, 2);
    let black_hole = BlackHole::new(n(1.0), BlackHoleType::kerr_retrograde(n(0.9)));
    let camera = Camera::new(n(50.0), n(75.0), n(120.0));
    let miss = GeodesicResult::Captured { turns_r: 1, turns_theta: 0 };
    let traced: Vec<Vec<GeodesicResult>> = (0..8)
        .map(|p| match p % 3 {
            0 => vec![sample_hit(0, 9.0 + p as f64), sample_hit(1, 10.5)],
            1 => vec![sample_hit(0, 12.0), miss],
            _ => vec![miss, miss],
        })
        .collect();
    let flux: Vec<Single> = (0..256).map(|i| Single::from_bits((i as f32 / 255.0).to_bits())).collect();
    let render = || {
        render_transfer_maps(
            &black_hole,
            &camera,
            &config,
            "75deg".to_string(),
            false,
            n(8.7),
            n(20.0),
            flux.clone(),
            &traced,
        )
    };
    let (first, second) = (render(), render());
    let (a, b) = (binary_artifacts(&first), binary_artifacts(&second));
    assert_eq!(a.len(), 5);
    assert_eq!(a.len(), b.len());
    for (x, y) in a.iter().zip(b.iter()) {
        assert_eq!(x.file, y.file);
        assert_eq!(x.bytes, y.bytes);
    }
    assert_eq!(first.manifest.disc_hits, 6);
}
