//! What the command line names: viewing presets and black hole types.
use crate::ieee::Double;
use crate::types::BlackHoleType;
use vstd::prelude::*;
use vstd::string::StringExecFns;

verus! {

/// Bits of 30.0.
pub const DEGREES_30: u64 = 0x403E_0000_0000_0000;

/// Bits of 45.0.
pub const DEGREES_45: u64 = 0x4046_8000_0000_0000;

/// Bits of 60.0.
pub const DEGREES_60: u64 = 0x404E_0000_0000_0000;

/// Bits of 75.0.
pub const DEGREES_75: u64 = 0x4052_C000_0000_0000;

/// Bits of 0.9, the spin of the Kerr presets.
pub const KERR_SPIN: u64 = 0x3FEC_CCCC_CCCC_CCCD;

fn same_text(a: &str, b: &str) -> (same: bool)
    ensures
        same == (a@ == b@),
{
    let left = a.to_owned();
    let right = b.to_owned();
    left == right
}

/// The inclination in degrees that a preset stands for.
pub open spec fn preset_angle(preset: Seq<char>) -> Option<Double> {
    if preset == "30deg"@ {
        Some(Double { bits: DEGREES_30 })
    } else if preset == "45deg"@ {
        Some(Double { bits: DEGREES_45 })
    } else if preset == "60deg"@ {
        Some(Double { bits: DEGREES_60 })
    } else if preset == "75deg"@ {
        Some(Double { bits: DEGREES_75 })
    } else {
        None
    }
}

/// What is said of a preset that is none.
pub open spec fn invalid_preset_message(preset: Seq<char>) -> Seq<char> {
    "Invalid preset: '"@ + preset + "'. Must be one of: 30deg, 45deg, 60deg, 75deg"@
}

/// The inclination of a preset: 30, 45, 60 or 75 degrees for `30deg`,
/// `45deg`, `60deg` and `75deg`, and an error for anything else.
pub fn parse_camera_angle(preset: &str) -> (angle: Result<Double, String>)
    ensures
        match preset_angle(preset@) {
            Some(a) => angle == Ok::<Double, String>(a),
            None => angle matches Err(message) && message@ == invalid_preset_message(preset@),
        },
{
    if same_text(preset, "30deg") {
        Ok(Double { bits: DEGREES_30 })
    } else if same_text(preset, "45deg") {
        Ok(Double { bits: DEGREES_45 })
    } else if same_text(preset, "60deg") {
        Ok(Double { bits: DEGREES_60 })
    } else if same_text(preset, "75deg") {
        Ok(Double { bits: DEGREES_75 })
    } else {
        Err(
            String::from_str("Invalid preset: '").concat(preset).concat(
                "'. Must be one of: 30deg, 45deg, 60deg, 75deg",
            ),
        )
    }
}

/// The black hole that a name stands for.
pub open spec fn named_black_hole(name: Seq<char>) -> Option<BlackHoleType> {
    if name == "prograde"@ {
        Some(
            BlackHoleType::Kerr {
                spin: Double { bits: KERR_SPIN },
                direction: crate::types::OrbitDirection::Prograde,
            },
        )
    } else if name == "retrograde"@ {
        Some(
            BlackHoleType::Kerr {
                spin: Double { bits: KERR_SPIN },
                direction: crate::types::OrbitDirection::Retrograde,
            },
        )
    } else if name == "schwarzschild"@ {
        Some(BlackHoleType::Schwarzschild)
    } else {
        None
    }
}

/// Bits of 1.0, the mass of every black hole that the command line names.
pub const UNIT_MASS: u64 = 0x3FF0_0000_0000_0000;

/// Every black hole that the command line names has a spin within its
/// bounds: `0 <= a < M` with `M = 1`.
pub proof fn lemma_named_black_holes_are_valid(name: Seq<char>)
    ensures
        named_black_hole(name) matches Some(t) ==> crate::types::valid_mass_and_spin(
            Double { bits: UNIT_MASS },
            t.spin_of(),
        ),
{
}

/// What is said of a black hole type that is none.
pub open spec fn invalid_black_hole_message(name: Seq<char>) -> Seq<char> {
    "Invalid black hole type: '"@ + name
        + "'. Must be one of: prograde, retrograde, schwarzschild"@
}

/// The black hole of a name: spin 0.9 with a prograde or retrograde disc for
/// `prograde` and `retrograde`, no spin for `schwarzschild`, and an error for
/// anything else.
pub fn parse_black_hole_type(bh_type: &str) -> (parsed: Result<BlackHoleType, String>)
    ensures
        match named_black_hole(bh_type@) {
            Some(t) => parsed == Ok::<BlackHoleType, String>(t),
            None => parsed matches Err(message) && message@ == invalid_black_hole_message(
                bh_type@,
            ),
        },
{
    if same_text(bh_type, "prograde") {
        Ok(BlackHoleType::kerr_prograde(Double { bits: KERR_SPIN }))
    } else if same_text(bh_type, "retrograde") {
        Ok(BlackHoleType::kerr_retrograde(Double { bits: KERR_SPIN }))
    } else if same_text(bh_type, "schwarzschild") {
        Ok(BlackHoleType::schwarzschild())
    } else {
        Err(
            String::from_str("Invalid black hole type: '").concat(bh_type).concat(
                "'. Must be one of: prograde, retrograde, schwarzschild",
            ),
        )
    }
}

/// What a number of orders shows, in words.
pub open spec fn order_description_of(orders: u8) -> Seq<char> {
    if orders == 1 {
        "primary only"@
    } else if orders == 2 {
        "primary + photon ring"@
    } else if orders == 3 {
        "primary + photon ring + subring"@
    } else if orders == 4 {
        "up to 3rd order"@
    } else if orders == 5 {
        "up to 4th order"@
    } else {
        "unknown"@
    }
}

pub fn order_description(orders: u8) -> (words: &'static str)
    ensures
        words@ == order_description_of(orders),
{
    match orders {
        1 => "primary only",
        2 => "primary + photon ring",
        3 => "primary + photon ring + subring",
        4 => "up to 3rd order",
        5 => "up to 4th order",
        _ => "unknown",
    }
}

} // verus!
