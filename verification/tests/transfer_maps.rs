use kerr_black_hole::artifacts::{binary_artifacts, encode_singles};
use kerr_black_hole::geodesic::GeodesicResult;
use kerr_black_hole::ieee::{Double, Single};
use kerr_black_hole::manifest::{Manifest, TextureFile};
use kerr_black_hole::render::{check_renderable, render_transfer_maps};
use kerr_black_hole::transfer_maps::{check_packable, make_entry, PositionData, TransferMaps};
use kerr_black_hole::types::{BlackHole, BlackHoleType, Camera, RenderConfig};

fn dbl(x: f64) -> Double {
    Double::from_bits(x.to_bits())
}

fn single(x: f32) -> Single {
    Single::from_bits(x.to_bits())
}

fn manifest_for(orders: u8) -> Manifest {
    Manifest::new(4, 3, "60deg".to_string(), dbl(60.0), dbl(0.9), orders, dbl(2.32), dbl(20.0), 0)
}

fn hit(order: u8, r: f64, phi: f64) -> GeodesicResult {
    GeodesicResult::DiscHit {
        r: dbl(r),
        theta: dbl(std::f64::consts::FRAC_PI_2),
        phi: dbl(phi),
        energy: dbl(1.0000000001),
        angular_momentum: dbl(-3.5),
        carter_q: dbl(12.0),
        impact_parameter: dbl(-3.5),
        redshift_factor: dbl(0.8),
        affine_parameter: dbl(51.0),
        phi_wraps: dbl(0.2),
        order,
        null_invariant_error: dbl(1e-15),
        turns_r: 1,
        turns_theta: 2,
        sin_phi: single(phi.sin() as f32),
        cos_phi: single(phi.cos() as f32),
    }
}

fn floats(buf: &[Single]) -> Vec<f32> {
    buf.iter().map(|s| f32::from_bits(s.to_bits())).collect()
}

#[test]
fn new_maps_are_blank() {
    let maps = TransferMaps::new(4, 3, manifest_for(2), 256, 2, true);
    for buf in [
        &maps.t1_rgba32f,
        &maps.t2_rgba32f,
        &maps.t3_rgba32f,
        &maps.t4_rgba32f,
        &maps.t5_rgba32f,
        &maps.t6_rgba32f,
    ] {
        assert_eq!(buf.len(), 4 * 3 * 4);
        assert!(buf.iter().all(|s| s.to_bits() == 0));
    }
    assert_eq!(maps.flux_r32f.len(), 256);
    let table = maps.high_precision_data.as_ref().unwrap();
    assert_eq!(table.positions.len(), 4 * 3 * 2);
    assert!(table.positions.iter().all(|p| *p == PositionData::default()));
    assert!(TransferMaps::new(4, 3, manifest_for(2), 256, 2, false).high_precision_data.is_none());
}

#[test]
fn hits_go_to_the_textures_of_their_order() {
    let mut maps = TransferMaps::new(4, 3, manifest_for(3), 256, 3, true);
    let results = vec![hit(0, 6.0, 0.5), hit(1, 7.0, 1.5), hit(2, 8.0, 2.5)];
    assert!(check_packable(&results, 3));
    maps.pack_pixel_multi_order(2, 1, &results);
    let base = (1 * 4 + 2) * 4;
    let t1 = floats(&maps.t1_rgba32f);
    assert_eq!(&t1[base..base + 4], &[6.0, (0.5f64).sin() as f32, (0.5f64).cos() as f32, 1.0]);
    let t2 = floats(&maps.t2_rgba32f);
    assert_eq!(&t2[base..base + 4], &[1.0, -3.5, 0.0, 0.0]);
    let t3 = floats(&maps.t3_rgba32f);
    assert_eq!(&t3[base..base + 4], &[7.0, (1.5f64).sin() as f32, (1.5f64).cos() as f32, 0.3]);
    let t4 = floats(&maps.t4_rgba32f);
    assert_eq!(&t4[base..base + 4], &[1.0, -3.5, 1.0, 0.0]);
    let t5 = floats(&maps.t5_rgba32f);
    assert_eq!(&t5[base..base + 4], &[8.0, (2.5f64).sin() as f32, (2.5f64).cos() as f32, 0.1]);
    let t6 = floats(&maps.t6_rgba32f);
    assert_eq!(&t6[base..base + 4], &[1.0, -3.5, 2.0, 0.0]);
    // Nothing outside the pixel's four channels was written.
    for t in [&t1, &t2, &t3, &t4, &t5, &t6] {
        for (i, v) in t.iter().enumerate() {
            if i < base || i >= base + 4 {
                assert_eq!(v.to_bits(), 0);
            }
        }
    }
    let table = &maps.high_precision_data.as_ref().unwrap().positions;
    let first = (1 * 4 + 2) * 3;
    for k in 0..3 {
        assert!(table[first + k].hit);
        assert_eq!(table[first + k].order, k as u8);
        assert_eq!((table[first + k].pixel_x, table[first + k].pixel_y), (2, 1));
        assert_eq!(table[first + k], make_entry(&results[k], 2, 1));
    }
    for (i, p) in table.iter().enumerate() {
        if i < first || i >= first + 3 {
            assert_eq!(*p, PositionData::default());
        }
    }
}

#[test]
fn a_miss_is_tabled_once_and_leaves_the_textures_alone() {
    let mut maps = TransferMaps::new(4, 3, manifest_for(3), 256, 3, true);
    let miss = GeodesicResult::Captured { turns_r: 3, turns_theta: 4 };
    maps.pack_pixel_multi_order(0, 2, &[miss, miss, miss]);
    for buf in [&maps.t1_rgba32f, &maps.t3_rgba32f, &maps.t5_rgba32f, &maps.t2_rgba32f] {
        assert!(buf.iter().all(|s| s.to_bits() == 0));
    }
    let table = &maps.high_precision_data.as_ref().unwrap().positions;
    let first = (2 * 4 + 0) * 3;
    assert!(table[first].captured && !table[first].hit && !table[first].escaped);
    assert_eq!((table[first].pixel_x, table[first].pixel_y), (0, 2));
    assert_eq!((table[first].turns_r, table[first].turns_theta), (3, 4));
    assert_eq!(table[first + 1], PositionData::default());
    assert_eq!(table[first + 2], PositionData::default());
}

#[test]
fn a_hit_followed_by_misses_keeps_the_later_slots_blank() {
    let mut maps = TransferMaps::new(4, 3, manifest_for(2), 256, 2, true);
    let miss = GeodesicResult::Escaped { turns_r: 0, turns_theta: 1 };
    maps.pack_pixel_multi_order(3, 2, &[hit(0, 9.0, 0.0), miss]);
    let base = (2 * 4 + 3) * 4;
    assert_eq!(floats(&maps.t1_rgba32f)[base], 9.0);
    assert_eq!(floats(&maps.t1_rgba32f)[base + 3], 1.0);
    assert!(maps.t3_rgba32f.iter().all(|s| s.to_bits() == 0));
    let table = &maps.high_precision_data.as_ref().unwrap().positions;
    let first = (2 * 4 + 3) * 2;
    assert!(table[first].hit);
    assert_eq!(table[first + 1], PositionData::default());
}

#[test]
fn the_highest_orders_share_one_texture_pair() {
    let mut maps = TransferMaps::new(4, 3, manifest_for(5), 256, 5, false);
    let results =
        vec![hit(0, 6.0, 0.0), hit(1, 7.0, 0.0), hit(2, 8.0, 0.0), hit(3, 9.0, 0.0), hit(4, 10.0, 0.0)];
    maps.pack_pixel_multi_order(1, 0, &results);
    let base = 1 * 4;
    assert_eq!(floats(&maps.t5_rgba32f)[base], 10.0);
    assert_eq!(floats(&maps.t6_rgba32f)[base + 2], 4.0);
    let results = vec![
        hit(0, 6.0, 0.0),
        hit(1, 7.0, 0.0),
        hit(2, 8.0, 0.0),
        GeodesicResult::Escaped { turns_r: 0, turns_theta: 0 },
        GeodesicResult::Escaped { turns_r: 0, turns_theta: 0 },
    ];
    maps.pack_pixel_multi_order(2, 0, &results);
    assert_eq!(floats(&maps.t5_rgba32f)[2 * 4], 8.0);
    assert_eq!(floats(&maps.t6_rgba32f)[2 * 4 + 2], 2.0);
}

#[test]
fn results_are_packable_when_hits_stand_in_their_slots() {
    let miss = GeodesicResult::Aborted { turns_r: 0, turns_theta: 0 };
    assert!(check_packable(&[hit(0, 6.0, 0.0), miss], 2));
    assert!(check_packable(&[miss, miss], 2));
    assert!(check_packable(&[], 2));
    assert!(check_packable(&[hit(1, 6.0, 0.0), miss], 2));
    assert!(check_packable(&[miss, hit(0, 6.0, 0.0)], 2));
    assert!(!check_packable(&[hit(2, 6.0, 0.0), miss], 2));
    assert!(!check_packable(&[miss, miss, miss], 2));
}

#[test]
fn a_hit_outside_the_slot_of_its_order_is_tabled_by_its_order() {
    let mut maps = TransferMaps::new(4, 3, manifest_for(3), 256, 3, true);
    let miss = GeodesicResult::Escaped { turns_r: 1, turns_theta: 1 };
    // Slot 0 holds a hit of order 2, slot 1 a miss, slot 2 a hit of order 0.
    let results = vec![hit(2, 6.25, 0.5), miss, hit(0, 7.5, 1.5)];
    assert!(check_packable(&results, 3));
    maps.pack_pixel_multi_order(1, 1, &results);
    let base = (1 * 4 + 1) * 4;
    // The slot picks the textures and the weight.
    assert_eq!(&floats(&maps.t1_rgba32f)[base..base + 4], &[6.25, (0.5f64).sin() as f32, (0.5f64).cos() as f32, 1.0]);
    assert_eq!(&floats(&maps.t2_rgba32f)[base..base + 4], &[1.0, -3.5, 2.0, 0.0]);
    assert!(maps.t3_rgba32f.iter().all(|s| s.to_bits() == 0));
    assert_eq!(&floats(&maps.t5_rgba32f)[base..base + 4], &[7.5, (1.5f64).sin() as f32, (1.5f64).cos() as f32, 0.1]);
    assert_eq!(&floats(&maps.t6_rgba32f)[base..base + 4], &[1.0, -3.5, 0.0, 0.0]);
    // The order picks the entry of the table.
    let table = &maps.high_precision_data.as_ref().unwrap().positions;
    let first = (1 * 4 + 1) * 3;
    assert_eq!(table[first], make_entry(&results[2], 1, 1));
    assert_eq!(table[first + 1], PositionData::default());
    assert_eq!(table[first + 2], make_entry(&results[0], 1, 1));
    for (i, p) in table.iter().enumerate() {
        if i < first || i >= first + 3 {
            assert_eq!(*p, PositionData::default());
        }
    }
    for t in [&maps.t1_rgba32f, &maps.t2_rgba32f, &maps.t5_rgba32f, &maps.t6_rgba32f] {
        for (i, v) in t.iter().enumerate() {
            if i < base || i >= base + 4 {
                assert_eq!(v.to_bits(), 0);
            }
        }
    }
    // A miss in slot 0 is tabled, and a later hit of order 0 replaces it.
    let mut maps = TransferMaps::new(4, 3, manifest_for(2), 256, 2, true);
    let results = vec![miss, hit(0, 9.0, 0.0)];
    maps.pack_pixel_multi_order(0, 0, &results);
    let table = &maps.high_precision_data.as_ref().unwrap().positions;
    assert_eq!(table[0], make_entry(&results[1], 0, 0));
    assert_eq!(table[1], PositionData::default());
    assert_eq!(floats(&maps.t3_rgba32f)[0], 9.0);
}

#[test]
fn single_result_packing_writes_order_zero_textures() {
    let mut maps = TransferMaps::new(4, 3, manifest_for(1), 256, 1, true);
    maps.pack_pixel(1, 1, &hit(0, 6.5, 1.0));
    let base = (1 * 4 + 1) * 4;
    assert_eq!(
        &floats(&maps.t1_rgba32f)[base..base + 4],
        &[6.5, (1.0f64).sin() as f32, (1.0f64).cos() as f32, 1.0]
    );
    assert_eq!(&floats(&maps.t2_rgba32f)[base..base + 4], &[1.0, -3.5, 0.0, 0.0]);
    maps.pack_pixel(2, 1, &GeodesicResult::Aborted { turns_r: 9, turns_theta: 8 });
    let table = &maps.high_precision_data.as_ref().unwrap().positions;
    assert!(table[5].hit);
    assert!(table[6].aborted);
    assert_eq!((table[6].turns_r, table[6].turns_theta), (9, 8));
    assert_eq!(table[7], PositionData::default());
}

#[test]
fn render_packs_every_pixel_and_counts_order_zero_hits() {
    let config = RenderConfig::new(3, 2, 2);
    let black_hole = BlackHole::new(dbl(1.0), BlackHoleType::kerr_prograde(dbl(0.9)));
    let camera = Camera::new(dbl(50.0), dbl(60.0), dbl(120.0));
    let miss = GeodesicResult::Escaped { turns_r: 0, turns_theta: 0 };
    let mut traced = Vec::new();
    for p in 0..6u32 {
        if p % 2 == 0 {
            traced.push(vec![hit(0, 6.0 + p as f64, 0.0), if p == 4 { hit(1, 3.0, 0.0) } else { miss }]);
        } else {
            traced.push(vec![miss, miss]);
        }
    }
    assert!(check_renderable(&traced, &config));
    let flux: Vec<Single> = (0..256).map(|i| single(i as f32)).collect();
    let maps = render_transfer_maps(
        &black_hole,
        &camera,
        &config,
        "60deg".to_string(),
        true,
        dbl(2.32),
        dbl(20.0),
        flux.clone(),
        &traced,
    );
    assert_eq!(maps.manifest.disc_hits, 3);
    assert_eq!(maps.manifest.orders, 2);
    assert_eq!(maps.manifest.preset, "60deg");
    assert_eq!(maps.manifest.spin, dbl(0.9));
    assert_eq!(maps.manifest.inclination, dbl(60.0));
    assert_eq!(maps.flux_r32f, flux);
    let t1 = floats(&maps.t1_rgba32f);
    let t3 = floats(&maps.t3_rgba32f);
    for p in 0..6usize {
        if p % 2 == 0 {
            assert_eq!(t1[p * 4], 6.0 + p as f32);
            assert_eq!(t1[p * 4 + 3], 1.0);
        } else {
            assert_eq!(&t1[p * 4..p * 4 + 4], &[0.0, 0.0, 0.0, 0.0]);
        }
        if p == 4 {
            assert_eq!(t3[p * 4], 3.0);
            assert_eq!(t3[p * 4 + 3], 0.3);
        } else {
            assert_eq!(&t3[p * 4..p * 4 + 4], &[0.0, 0.0, 0.0, 0.0]);
        }
    }
    let table = &maps.high_precision_data.as_ref().unwrap().positions;
    assert_eq!(table.len(), 12);
    for p in 0..6usize {
        let (x, y) = ((p % 3) as u32, (p / 3) as u32);
        assert_eq!((table[2 * p].pixel_x, table[2 * p].pixel_y), (x, y));
        assert_eq!(table[2 * p].hit, p % 2 == 0);
        assert_eq!(table[2 * p].escaped, p % 2 == 1);
        if p == 4 {
            assert!(table[2 * p + 1].hit);
        } else {
            assert_eq!(table[2 * p + 1], PositionData::default());
        }
    }
}

#[test]
fn render_input_shape_is_checked() {
    let config = RenderConfig::new(2, 2, 2);
    let miss = GeodesicResult::Escaped { turns_r: 0, turns_theta: 0 };
    assert!(check_renderable(&vec![vec![miss, miss]; 4], &config));
    assert!(!check_renderable(&vec![vec![miss, miss]; 3], &config));
    assert!(!check_renderable(&vec![vec![miss]; 4], &config));
    assert!(check_renderable(&vec![vec![miss, hit(0, 6.0, 0.0)]; 4], &config));
    assert!(!check_renderable(&vec![vec![miss, hit(2, 6.0, 0.0)]; 4], &config));
}

#[test]
fn manifest_names_the_files_that_are_written() {
    for orders in 1..=5u8 {
        let m = manifest_for(orders);
        assert_eq!(m.t1_url, "/blackhole/60deg/t1_rgba32f.bin");
        assert_eq!(m.t2_url, "/blackhole/60deg/t2_rgba32f.bin");
        assert_eq!(m.flux_url, "/blackhole/60deg/flux_r32f.bin");
        assert_eq!(m.t3_url.is_some(), orders > 1);
        assert_eq!(m.t4_url.is_some(), orders > 1);
        assert_eq!(m.t5_url.is_some(), orders > 2);
        assert_eq!(m.t6_url.is_some(), orders > 2);
        if orders > 2 {
            assert_eq!(m.t3_url.as_deref(), Some("/blackhole/60deg/t3_rgba32f.bin"));
            assert_eq!(m.t4_url.as_deref(), Some("/blackhole/60deg/t4_rgba32f.bin"));
            assert_eq!(m.t5_url.as_deref(), Some("/blackhole/60deg/t5_rgba32f.bin"));
            assert_eq!(m.t6_url.as_deref(), Some("/blackhole/60deg/t6_rgba32f.bin"));
        }
        let maps = TransferMaps::new(4, 3, manifest_for(orders), 256, orders, false);
        let files: Vec<TextureFile> = binary_artifacts(&maps).iter().map(|a| a.file).collect();
        for file in [
            TextureFile::T1,
            TextureFile::T2,
            TextureFile::T3,
            TextureFile::T4,
            TextureFile::T5,
            TextureFile::T6,
            TextureFile::Flux,
        ] {
            assert_eq!(files.contains(&file), file.is_written(orders));
            let named = match file {
                TextureFile::T1 | TextureFile::T2 | TextureFile::Flux => true,
                TextureFile::T3 => m.t3_url.is_some(),
                TextureFile::T4 => m.t4_url.is_some(),
                TextureFile::T5 => m.t5_url.is_some(),
                TextureFile::T6 => m.t6_url.is_some(),
            };
            assert_eq!(files.contains(&file), named);
        }
    }
}

#[test]
fn manifest_keeps_provenance() {
    let m = Manifest::with_provenance(
        8,
        6,
        "30deg".to_string(),
        dbl(30.0),
        dbl(0.0),
        1,
        dbl(6.0),
        dbl(20.0),
        17,
        Some("abc123".to_string()),
        None,
        Some("2024-01-01T00:00:00Z".to_string()),
    );
    assert_eq!((m.width, m.height, m.orders, m.disc_hits), (8, 6, 1, 17));
    assert_eq!(m.git_sha.as_deref(), Some("abc123"));
    assert_eq!(m.rustc_version, None);
    assert_eq!(m.build_timestamp.as_deref(), Some("2024-01-01T00:00:00Z"));
    assert_eq!(m.r_in, dbl(6.0));
}

#[test]
fn textures_are_written_as_little_endian_singles() {
    let values = [0.0f32, 1.0, -2.5, 0.3, 0.1, f32::MAX, f32::MIN_POSITIVE, 1234.5678];
    let singles: Vec<Single> = values.iter().map(|v| single(*v)).collect();
    let bytes = encode_singles(&singles);
    let expected: Vec<u8> = values.iter().flat_map(|v| v.to_le_bytes()).collect();
    assert_eq!(bytes, expected);
    assert_eq!(encode_singles(&Vec::new()), Vec::<u8>::new());
}

#[test]
fn artifacts_hold_the_bytes_of_their_textures() {
    let mut maps = TransferMaps::new(2, 1, manifest_for(2), 3, 2, false);
    maps.pack_pixel_multi_order(1, 0, &[hit(0, 6.0, 0.0), hit(1, 7.0, 0.0)]);
    maps.flux_r32f = vec![single(0.0), single(0.5), single(1.0)];
    let artifacts = binary_artifacts(&maps);
    let names: Vec<&str> = artifacts.iter().map(|a| a.file.file_name()).collect();
    assert_eq!(
        names,
        vec!["t1_rgba32f.bin", "t2_rgba32f.bin", "t3_rgba32f.bin", "t4_rgba32f.bin", "flux_r32f.bin"]
    );
    assert_eq!(artifacts[0].bytes.len(), 2 * 1 * 4 * 4);
    assert_eq!(&artifacts[0].bytes[16..20], &6.0f32.to_le_bytes());
    assert_eq!(&artifacts[0].bytes[28..32], &1.0f32.to_le_bytes());
    assert_eq!(&artifacts[2].bytes[16..20], &7.0f32.to_le_bytes());
    assert_eq!(&artifacts[2].bytes[28..32], &0.3f32.to_le_bytes());
    assert_eq!(&artifacts[3].bytes[24..28], &1.0f32.to_le_bytes());
    assert_eq!(artifacts[4].bytes.len(), 12);
    assert_eq!(&artifacts[4].bytes[4..8], &0.5f32.to_le_bytes());
}
