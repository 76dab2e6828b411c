use kerr_black_hole::cli::{order_description, parse_black_hole_type, parse_camera_angle};
use kerr_black_hole::geodesic::{check_position, GeodesicResult, PhotonState};
use kerr_black_hole::high_precision::{encode_document, NumberTexts};
use kerr_black_hole::ieee::Double;
use kerr_black_hole::stats::{
    extract_critical_curve, IndexGrid, Outlier, OutlierCategory, OutlierSeverity,
};
use kerr_black_hole::text::{bool_name, decimal};
use kerr_black_hole::transfer_maps::{HighPrecisionData, PositionData};
use kerr_black_hole::types::{
    check_camera, check_mass_and_spin, check_render_config, BlackHole, BlackHoleType,
    OrbitDirection, RenderConfig,
};
use std::io::Read;

fn value(x: f64) -> Double {
    Double::from_bits(x.to_bits())
}

fn fixed(x: f64) -> String {
    format!("{:.15}", x)
}

fn hit_entry(x: u32, y: u32, order: u8) -> PositionData {
    PositionData {
        pixel_x: x,
        pixel_y: y,
        r: value(6.5),
        theta: value(1.5),
        phi: value(0.25),
        energy: value(1.0),
        angular_momentum: value(-3.0),
        carter_q: value(4.0),
        impact_parameter: value(-3.0),
        redshift_factor: value(0.75),
        affine_parameter: value(48.0),
        phi_wraps: value(0.125),
        order,
        hit: true,
        null_invariant_error: value(0.0),
        turns_r: 1,
        turns_theta: 2,
        ..PositionData::default()
    }
}

fn texts_of(p: &PositionData) -> NumberTexts {
    let f = |d: Double| fixed(f64::from_bits(d.to_bits()));
    NumberTexts {
        r: f(p.r),
        theta: f(p.theta),
        phi: f(p.phi),
        energy: f(p.energy),
        angular_momentum: f(p.angular_momentum),
        carter_q: f(p.carter_q),
        impact_parameter: f(p.impact_parameter),
        redshift_factor: f(p.redshift_factor),
        affine_parameter: f(p.affine_parameter),
        phi_wraps: f(p.phi_wraps),
        null_invariant_error: f(p.null_invariant_error),
    }
}

#[test]
fn whole_numbers_are_written_in_decimal() {
    for n in [0u64, 1, 9, 10, 11, 99, 100, 255, 1280, 4294967295, u64::MAX] {
        assert_eq!(decimal(n), n.to_string());
    }
    assert_eq!(bool_name(true), "true");
    assert_eq!(bool_name(false), "false");
}

#[test]
fn json_document_lists_written_entries() {
    let miss = PositionData { pixel_x: 1, pixel_y: 0, captured: true, ..PositionData::default() };
    let data = HighPrecisionData {
        positions: vec![
            hit_entry(0, 0, 0),
            PositionData::default(),
            miss,
            PositionData::default(),
        ],
    };
    let numbers: Vec<NumberTexts> = data.positions.iter().map(texts_of).collect();
    let json = data.to_json(&numbers);
    let expected = "{\n  \"positions\": [\n    {\"pixel_x\": 0, \"pixel_y\": 0, \"r\": 6.500000000000000, \"theta\": 1.500000000000000, \"phi\": 0.250000000000000, \"energy\": 1.000000000000000, \"angular_momentum\": -3.000000000000000, \"carter_q\": 4.000000000000000, \"impact_parameter\": -3.000000000000000, \"redshift_factor\": 0.750000000000000, \"affine_parameter\": 48.000000000000000, \"phi_wraps\": 0.125000000000000, \"order\": 0, \"null_invariant_error\": 0.000000000000000, \"turns_r\": 1, \"turns_theta\": 2, \"hit\": true},\n    {\"pixel_x\": 1, \"pixel_y\": 0, \"hit\": false, \"escaped\": false, \"captured\": true, \"aborted\": false}\n  ]\n}";
    assert_eq!(json, expected);
    let parsed: serde_json::Value = serde_json::from_str(&json).unwrap();
    assert_eq!(parsed["positions"].as_array().unwrap().len(), 2);
}

#[test]
fn json_document_of_an_empty_table() {
    let data = HighPrecisionData { positions: vec![PositionData::default(); 3] };
    let numbers: Vec<NumberTexts> = data.positions.iter().map(texts_of).collect();
    assert_eq!(data.to_json(&numbers), "{\n  \"positions\": [\n\n  ]\n}");
    let none = HighPrecisionData { positions: Vec::new() };
    assert_eq!(none.to_json(&Vec::new()), "{\n  \"positions\": [\n\n  ]\n}");
}

#[test]
fn table_statistics_count_hits_by_order() {
    let miss = PositionData { escaped: true, order: 1, ..PositionData::default() };
    let data = HighPrecisionData {
        positions: vec![
            hit_entry(0, 0, 0),
            hit_entry(0, 0, 1),
            hit_entry(1, 0, 0),
            miss,
            hit_entry(2, 0, 2),
            hit_entry(2, 0, 4),
            PositionData::default(),
        ],
    };
    let s = data.statistics();
    assert_eq!(s.total_pixels, 7);
    assert_eq!(s.total_hits, 5);
    assert_eq!(s.order_0_hits, 2);
    assert_eq!(s.order_1_hits, 1);
    assert_eq!(s.order_2_plus_hits, 2);
}

#[test]
fn documents_are_stored_plain_or_gzipped() {
    let json = "{\n  \"positions\": [\n\n  ]\n}".repeat(50);
    let plain = encode_document(&json, false).unwrap();
    assert_eq!(plain.name, "high_precision.json");
    assert_eq!(plain.bytes, json.as_bytes());
    let packed = encode_document(&json, true).unwrap();
    assert_eq!(packed.name, "high_precision.json.gz");
    assert_ne!(packed.bytes, json.as_bytes());
    assert!(packed.bytes.len() < json.len());
    assert_eq!(&packed.bytes[..4], &[0x1f, 0x8b, 8, 0]);
    let mut back = String::new();
    flate2::read::GzDecoder::new(&packed.bytes[..]).read_to_string(&mut back).unwrap();
    assert_eq!(back, json);
    let again = encode_document(&json, true).unwrap();
    assert_eq!(again.bytes, packed.bytes);
}

#[test]
fn index_grid_keeps_indices_inside_the_image() {
    let mut grid = IndexGrid::new(4, 3);
    assert_eq!(grid.get(0, 0), None);
    grid.set(1, 2, 7);
    grid.set(3, 0, 9);
    grid.set(4, 0, 11);
    grid.set(0, 3, 12);
    assert_eq!(grid.get(1, 2), Some(7));
    assert_eq!(grid.get(3, 0), Some(9));
    assert_eq!(grid.get(2, 1), None);
    assert_eq!(grid.get(4, 0), None);
    assert_eq!(grid.get(0, 3), None);
    grid.set(1, 2, 8);
    assert_eq!(grid.get(1, 2), Some(8));
    let empty = IndexGrid::new(0, 0);
    assert_eq!(empty.get(0, 0), None);
}

#[test]
fn outlier_taxonomy() {
    assert_eq!(OutlierSeverity::Critical.label(), "Critical");
    assert_eq!(OutlierSeverity::High.label(), "High");
    assert_eq!(OutlierSeverity::Medium.label(), "Medium");
    assert_eq!(OutlierSeverity::Info.label(), "Info");
    assert_eq!(OutlierSeverity::Critical.color(), "#DC2626");
    assert_eq!(OutlierSeverity::High.color(), "#EA580C");
    assert_eq!(OutlierSeverity::Medium.color(), "#CA8A04");
    assert_eq!(OutlierSeverity::Info.color(), "#9CA3AF");
    assert!(OutlierSeverity::Critical > OutlierSeverity::High);
    assert!(OutlierSeverity::High > OutlierSeverity::Medium);
    assert!(OutlierSeverity::Medium > OutlierSeverity::Info);
    assert!(OutlierSeverity::Critical.exceeds(&OutlierSeverity::Info));
    assert!(!OutlierSeverity::Info.exceeds(&OutlierSeverity::Info));
    assert_eq!(OutlierSeverity::Critical.rank(), 3);
    assert_eq!(OutlierSeverity::Info.rank(), 0);
    let expected = [
        (OutlierCategory::NegativeK, OutlierSeverity::Critical, "Negative Carter Constant"),
        (OutlierCategory::LargeNullInvariant, OutlierSeverity::Critical, "Large Null Invariant Error"),
        (OutlierCategory::InvalidState, OutlierSeverity::Critical, "Invalid State (NaN/∞)"),
        (OutlierCategory::InvalidRadius, OutlierSeverity::Critical, "Invalid Radius"),
        (OutlierCategory::InvalidTheta, OutlierSeverity::Critical, "Invalid Theta"),
        (OutlierCategory::ExtremeNI, OutlierSeverity::High, "Extreme NI (Statistical)"),
        (OutlierCategory::SpatialDiscontinuity, OutlierSeverity::High, "Spatial Discontinuity"),
        (OutlierCategory::ExtremeAffine, OutlierSeverity::Medium, "Extreme Affine Parameter"),
        (OutlierCategory::ExtremeWraps, OutlierSeverity::Medium, "Extreme φ-Wraps"),
        (OutlierCategory::RapidTurningPoints, OutlierSeverity::Medium, "Rapid Turning Points"),
        (OutlierCategory::PhaseSpaceEdgeCase, OutlierSeverity::Info, "Phase-Space Edge Case"),
        (OutlierCategory::SpatialGradient, OutlierSeverity::Info, "Smooth Spatial Gradient"),
        (OutlierCategory::LongAffine, OutlierSeverity::Info, "Long Affine Parameter (Outer Disc)"),
        (OutlierCategory::RoundoffK, OutlierSeverity::Info, "K Roundoff (Machine Precision)"),
    ];
    for (category, severity, label) in expected {
        assert_eq!(category.severity(), severity);
        assert_eq!(category.label(), label);
    }
    let o = Outlier::new(3, 4, 1, OutlierCategory::ExtremeWraps, value(2.5), "wraps".to_string());
    assert_eq!(o.severity, OutlierSeverity::Medium);
    assert_eq!((o.pixel_x, o.pixel_y, o.order), (3, 4, 1));
    assert_eq!(o.details, "wraps");
}

#[test]
fn critical_curve_is_the_edge_of_the_captured_region() {
    // A 5 x 5 image with the centre pixel captured.
    let mut records = Vec::new();
    for y in 0..5u32 {
        for x in 0..5u32 {
            records.push(PositionData {
                pixel_x: x,
                pixel_y: y,
                captured: x == 2 && y == 2,
                escaped: !(x == 2 && y == 2),
                ..PositionData::default()
            });
        }
    }
    let curve = extract_critical_curve(&records, 5, 5);
    assert_eq!(curve, vec![(2, 1), (1, 2), (2, 2), (3, 2), (2, 3)]);
    // A captured pixel on the border marks its inner neighbour only.
    let border = vec![PositionData { pixel_x: 0, pixel_y: 1, captured: true, ..PositionData::default() }];
    assert_eq!(extract_critical_curve(&border, 4, 4), vec![(1, 1)]);
    // Records outside the image and images without an interior give nothing.
    let outside = vec![PositionData { pixel_x: 9, pixel_y: 9, captured: true, ..PositionData::default() }];
    assert_eq!(extract_critical_curve(&outside, 4, 4), vec![]);
    assert_eq!(extract_critical_curve(&records, 2, 5), vec![]);
    assert_eq!(extract_critical_curve(&records, 5, 0), vec![]);
    assert_eq!(extract_critical_curve(&records, 0, 0), vec![]);
    assert_eq!(extract_critical_curve(&Vec::<PositionData>::new(), 6, 6), vec![]);
}

#[test]
fn presets_and_black_hole_types_are_parsed() {
    assert_eq!(parse_camera_angle("30deg"), Ok(value(30.0)));
    assert_eq!(parse_camera_angle("45deg"), Ok(value(45.0)));
    assert_eq!(parse_camera_angle("60deg"), Ok(value(60.0)));
    assert_eq!(parse_camera_angle("75deg"), Ok(value(75.0)));
    assert_eq!(
        parse_camera_angle("90deg"),
        Err("Invalid preset: '90deg'. Must be one of: 30deg, 45deg, 60deg, 75deg".to_string())
    );
    assert_eq!(parse_black_hole_type("prograde"), Ok(BlackHoleType::kerr_prograde(value(0.9))));
    assert_eq!(parse_black_hole_type("retrograde"), Ok(BlackHoleType::kerr_retrograde(value(0.9))));
    assert_eq!(parse_black_hole_type("schwarzschild"), Ok(BlackHoleType::schwarzschild()));
    assert_eq!(
        parse_black_hole_type("kerr"),
        Err("Invalid black hole type: 'kerr'. Must be one of: prograde, retrograde, schwarzschild"
            .to_string())
    );
    assert_eq!(order_description(1), "primary only");
    assert_eq!(order_description(2), "primary + photon ring");
    assert_eq!(order_description(3), "primary + photon ring + subring");
    assert_eq!(order_description(4), "up to 3rd order");
    assert_eq!(order_description(5), "up to 4th order");
    assert_eq!(order_description(0), "unknown");
    assert_eq!(order_description(6), "unknown");
}

#[test]
fn black_hole_types_and_bounds() {
    let kerr = BlackHoleType::kerr_retrograde(value(0.9));
    assert_eq!(kerr.spin(), value(0.9));
    assert_eq!(kerr.direction(), OrbitDirection::Retrograde);
    assert_eq!(kerr.name(), "Kerr (Retrograde)");
    assert_eq!(BlackHoleType::kerr_prograde(value(0.5)).name(), "Kerr (Prograde)");
    assert_eq!(BlackHoleType::schwarzschild().name(), "Schwarzschild");
    assert_eq!(BlackHoleType::schwarzschild().spin(), value(0.0));
    assert_eq!(BlackHoleType::schwarzschild().direction(), OrbitDirection::Prograde);
    assert_eq!(OrbitDirection::default(), OrbitDirection::Prograde);

    assert!(check_mass_and_spin(value(1.0), value(0.0)));
    assert!(check_mass_and_spin(value(1.0), value(0.9)));
    assert!(check_mass_and_spin(value(2.0), value(1.999)));
    assert!(!check_mass_and_spin(value(1.0), value(1.0)));
    assert!(!check_mass_and_spin(value(1.0), value(-0.1)));
    assert!(!check_mass_and_spin(value(0.0), value(0.0)));
    assert!(!check_mass_and_spin(value(-1.0), value(0.0)));
    assert!(!check_mass_and_spin(value(1.0), value(f64::NAN)));
    assert!(!check_mass_and_spin(value(f64::NAN), value(0.5)));
    assert!(BlackHole::try_new(value(1.0), kerr).is_some());
    assert!(BlackHole::try_new(value(0.5), kerr).is_none());
    let bh = BlackHole::kerr_prograde(value(1.0), value(0.9));
    assert_eq!(bh.a(), value(0.9));
    assert!(!bh.is_schwarzschild());
    assert!(BlackHole::schwarzschild(value(1.0)).is_schwarzschild());
    assert!(BlackHole::kerr_retrograde(value(1.0), value(5e-11)).is_schwarzschild());
    assert!(!BlackHole::kerr_retrograde(value(1.0), value(1e-10)).is_schwarzschild());

    assert!(check_camera(value(50.0), value(0.0), value(120.0)));
    assert!(check_camera(value(50.0), value(90.0), value(179.9)));
    assert!(!check_camera(value(50.0), value(90.5), value(120.0)));
    assert!(!check_camera(value(50.0), value(30.0), value(180.0)));
    assert!(!check_camera(value(50.0), value(30.0), value(0.0)));
    assert!(!check_camera(value(0.0), value(30.0), value(120.0)));

    assert!(check_render_config(1280, 720, 5));
    assert!(check_render_config(1, 1, 1));
    assert!(!check_render_config(0, 720, 2));
    assert!(!check_render_config(1280, 0, 2));
    assert!(!check_render_config(1280, 720, 0));
    assert!(!check_render_config(1280, 720, 6));
    let config = RenderConfig::new(1280, 720, 2);
    assert_eq!(config.pixel_count(), 921600);
    assert_eq!(config.checked_pixel_count(), Some(921600));

    assert!(check_position(value(50.0), value(0.0)));
    assert!(check_position(value(50.0), value(std::f64::consts::PI)));
    assert!(!check_position(value(0.0), value(1.0)));
    assert!(!check_position(value(50.0), value(3.2)));
    assert!(!check_position(value(50.0), value(-0.1)));
    let p = PhotonState::new(value(50.0), value(1.0), value(0.0), value(1.0), value(2.0), value(3.0));
    assert_eq!(p.carter_q, value(3.0));
    let miss = GeodesicResult::Captured { turns_r: 2, turns_theta: 3 };
    assert!(!miss.is_hit());
    assert_eq!(miss.disc_hit_data(), None);
    assert_eq!(miss.turning_points(), (2, 3));
}
