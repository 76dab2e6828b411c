//! The scene: black hole, camera and image.
use crate::ieee::Double;
use vstd::prelude::*;

verus! {

/// Bits of 0.0.
pub const ZERO: u64 = 0;

/// Bits of 1e-10, below which a spin counts as no spin.
pub const SPIN_EPSILON: u64 = 0x3DDB_7CDF_D9D7_BDBB;

/// Bits of 90.0, the largest inclination in degrees.
pub const MAX_INCLINATION: u64 = 0x4056_8000_0000_0000;

/// Bits of 180.0, the bound of the field of view in degrees.
pub const FOV_BOUND: u64 = 0x4066_8000_0000_0000;

/// Largest number of disc crossings traced per ray.
pub const MAX_ORDERS: u8 = 5;

/// Direction of the disc's orbit relative to the black hole's spin.
#[derive(Debug, Clone, Copy, PartialEq, Eq, Structural)]
pub enum OrbitDirection {
    Prograde,
    Retrograde,
}

impl Default for OrbitDirection {
    fn default() -> (d: Self)
        ensures
            d == OrbitDirection::Prograde,
    {
        OrbitDirection::Prograde
    }
}

/// Which black hole is rendered.
#[derive(Debug, Clone, Copy, PartialEq, Eq, Structural)]
pub enum BlackHoleType {
    /// Spinning, with the spin `a/M` and the direction of the disc.
    Kerr { spin: Double, direction: OrbitDirection },
    /// Not spinning.
    Schwarzschild,
}

impl BlackHoleType {
    pub open spec fn spin_of(self) -> Double {
        match self {
            BlackHoleType::Kerr { spin, .. } => spin,
            BlackHoleType::Schwarzschild => Double { bits: ZERO },
        }
    }

    pub open spec fn direction_of(self) -> OrbitDirection {
        match self {
            BlackHoleType::Kerr { direction, .. } => direction,
            BlackHoleType::Schwarzschild => OrbitDirection::Prograde,
        }
    }

    pub open spec fn name_of(self) -> Seq<char> {
        match self {
            BlackHoleType::Kerr { direction: OrbitDirection::Prograde, .. } => "Kerr (Prograde)"@,
            BlackHoleType::Kerr { direction: OrbitDirection::Retrograde, .. } => "Kerr (Retrograde)"@,
            BlackHoleType::Schwarzschild => "Schwarzschild"@,
        }
    }

    pub fn kerr_prograde(spin: Double) -> (t: Self)
        ensures
            t == (BlackHoleType::Kerr { spin, direction: OrbitDirection::Prograde }),
    {
        BlackHoleType::Kerr { spin, direction: OrbitDirection::Prograde }
    }

    pub fn kerr_retrograde(spin: Double) -> (t: Self)
        ensures
            t == (BlackHoleType::Kerr { spin, direction: OrbitDirection::Retrograde }),
    {
        BlackHoleType::Kerr { spin, direction: OrbitDirection::Retrograde }
    }

    pub fn schwarzschild() -> (t: Self)
        ensures
            t == BlackHoleType::Schwarzschild,
    {
        BlackHoleType::Schwarzschild
    }

    /// The spin; 0.0 without one.
    pub fn spin(&self) -> (s: Double)
        ensures
            s == self.spin_of(),
    {
        match self {
            BlackHoleType::Kerr { spin, .. } => *spin,
            BlackHoleType::Schwarzschild => Double { bits: ZERO },
        }
    }

    /// The orbit direction; prograde where there is no spin.
    pub fn direction(&self) -> (d: OrbitDirection)
        ensures
            d == self.direction_of(),
    {
        match self {
            BlackHoleType::Kerr { direction, .. } => *direction,
            BlackHoleType::Schwarzschild => OrbitDirection::Prograde,
        }
    }

    /// A name for people to read.
    pub fn name(&self) -> (n: &'static str)
        ensures
            n@ == self.name_of(),
    {
        match self {
            BlackHoleType::Kerr { direction, .. } => {
                match direction {
                    OrbitDirection::Prograde => "Kerr (Prograde)",
                    OrbitDirection::Retrograde => "Kerr (Retrograde)",
                }
            },
            BlackHoleType::Schwarzschild => "Schwarzschild",
        }
    }
}

/// A black hole of mass `M` and spin `a`, in geometric units.
#[derive(Debug, Clone, Copy, PartialEq, Eq, Structural)]
pub struct BlackHole {
    pub mass: Double,
    pub spin: Double,
}

/// `M > 0` and `0 <= a < M`.
pub open spec fn valid_mass_and_spin(mass: Double, spin: Double) -> bool {
    &&& mass.positive()
    &&& (Double { bits: ZERO }).at_most(spin)
    &&& spin.below(mass)
}

/// Tests `valid_mass_and_spin`, for callers that cannot prove it.
pub fn check_mass_and_spin(mass: Double, spin: Double) -> (ok: bool)
    ensures
        ok == valid_mass_and_spin(mass, spin),
{
    mass.is_positive() && spin.ge(Double { bits: ZERO }) && spin.lt(mass)
}

impl BlackHole {
    /// The invariant of every black hole the library makes: `0 <= a < M`.
    pub open spec fn wf(self) -> bool {
        valid_mass_and_spin(self.mass, self.spin)
    }

    pub fn new(mass: Double, bh_type: BlackHoleType) -> (bh: Self)
        requires
            valid_mass_and_spin(mass, bh_type.spin_of()),
        ensures
            bh.mass == mass,
            bh.spin == bh_type.spin_of(),
            bh.wf(),
    {
        BlackHole { mass, spin: bh_type.spin() }
    }

    /// `new` for callers that cannot prove the bounds: `None` outside them.
    pub fn try_new(mass: Double, bh_type: BlackHoleType) -> (bh: Option<Self>)
        ensures
            bh.is_some() == valid_mass_and_spin(mass, bh_type.spin_of()),
            bh matches Some(b) ==> b.mass == mass && b.spin == bh_type.spin_of() && b.wf(),
    {
        if check_mass_and_spin(mass, bh_type.spin()) {
            Some(BlackHole::new(mass, bh_type))
        } else {
            None
        }
    }

    pub fn kerr_prograde(mass: Double, spin: Double) -> (bh: Self)
        requires
            valid_mass_and_spin(mass, spin),
        ensures
            bh == (BlackHole { mass, spin }),
            bh.wf(),
    {
        BlackHole::new(mass, BlackHoleType::kerr_prograde(spin))
    }

    pub fn kerr_retrograde(mass: Double, spin: Double) -> (bh: Self)
        requires
            valid_mass_and_spin(mass, spin),
        ensures
            bh == (BlackHole { mass, spin }),
            bh.wf(),
    {
        BlackHole::new(mass, BlackHoleType::kerr_retrograde(spin))
    }

    pub fn schwarzschild(mass: Double) -> (bh: Self)
        requires
            mass.positive(),
        ensures
            bh == (BlackHole { mass, spin: Double { bits: ZERO } }),
            bh.wf(),
    {
        BlackHole::new(mass, BlackHoleType::schwarzschild())
    }

    /// The spin parameter `a`.
    pub fn a(&self) -> (a: Double)
        ensures
            a == self.spin,
    {
        self.spin
    }

    /// The spin is too small to matter: `|a| < 1e-10`.
    pub fn is_schwarzschild(&self) -> (b: bool)
        ensures
            b == self.spin.magnitude_value().below(Double { bits: SPIN_EPSILON }),
    {
        self.spin.abs().lt(Double { bits: SPIN_EPSILON })
    }
}

/// The observer: at rest, looking at the black hole.
#[derive(Debug, Clone, Copy, PartialEq, Eq, Structural)]
pub struct Camera {
    /// Distance from the centre, in units of `M`.
    pub distance: Double,
    /// Inclination in degrees: 0 is face-on, 90 edge-on.
    pub inclination: Double,
    /// Field of view in degrees.
    pub fov: Double,
}

/// `D > 0`, `0 <= i <= 90` and `0 < fov < 180`.
pub open spec fn valid_camera(distance: Double, inclination: Double, fov: Double) -> bool {
    &&& distance.positive()
    &&& (Double { bits: ZERO }).at_most(inclination)
    &&& inclination.at_most(Double { bits: MAX_INCLINATION })
    &&& fov.positive()
    &&& fov.below(Double { bits: FOV_BOUND })
}

/// Tests `valid_camera`, for callers that cannot prove it.
pub fn check_camera(distance: Double, inclination: Double, fov: Double) -> (ok: bool)
    ensures
        ok == valid_camera(distance, inclination, fov),
{
    distance.is_positive() && inclination.ge(Double { bits: ZERO }) && inclination.le(
        Double { bits: MAX_INCLINATION },
    ) && fov.is_positive() && fov.lt(Double { bits: FOV_BOUND })
}

impl Camera {
    pub open spec fn wf(self) -> bool {
        valid_camera(self.distance, self.inclination, self.fov)
    }

    pub fn new(distance: Double, inclination: Double, fov: Double) -> (c: Self)
        requires
            valid_camera(distance, inclination, fov),
        ensures
            c == (Camera { distance, inclination, fov }),
            c.wf(),
    {
        Camera { distance, inclination, fov }
    }
}

/// Size of the image and number of disc crossings traced per ray.
#[derive(Debug, Clone, Copy, PartialEq, Eq, Structural)]
pub struct RenderConfig {
    pub width: u32,
    pub height: u32,
    /// 1 is the direct image only, 2 adds the photon ring, more add subrings.
    pub max_orders: u8,
}

/// Both dimensions positive and `1 <= max_orders <= 5`.
pub open spec fn valid_render_config(width: u32, height: u32, max_orders: u8) -> bool {
    width > 0 && height > 0 && 1 <= max_orders <= MAX_ORDERS
}

/// Tests `valid_render_config`, for callers that cannot prove it.
pub fn check_render_config(width: u32, height: u32, max_orders: u8) -> (ok: bool)
    ensures
        ok == valid_render_config(width, height, max_orders),
{
    width > 0 && height > 0 && 1 <= max_orders && max_orders <= MAX_ORDERS
}

impl RenderConfig {
    pub open spec fn wf(self) -> bool {
        valid_render_config(self.width, self.height, self.max_orders)
    }

    /// Number of pixels, as a mathematical integer.
    pub open spec fn pixels(self) -> int {
        self.width * self.height
    }

    pub fn new(width: u32, height: u32, max_orders: u8) -> (c: Self)
        requires
            valid_render_config(width, height, max_orders),
        ensures
            c == (RenderConfig { width, height, max_orders }),
            c.wf(),
    {
        RenderConfig { width, height, max_orders }
    }

    /// Number of pixels to render.
    pub fn pixel_count(&self) -> (n: usize)
        requires
            self.pixels() <= usize::MAX,
        ensures
            n == self.pixels(),
    {
        assert(self.width * self.height == self.pixels());
        (self.width as usize) * (self.height as usize)
    }

    /// `pixel_count` without a bound on the size: `None` where the count does
    /// not fit.
    pub fn checked_pixel_count(&self) -> (n: Option<usize>)
        ensures
            n.is_some() == (self.pixels() <= usize::MAX),
            n matches Some(k) ==> k == self.pixels(),
    {
        assert(self.width * self.height <= 0xFFFF_FFFF * 0xFFFF_FFFF) by (nonlinear_arith)
            requires
                self.width <= 0xFFFF_FFFF,
                self.height <= 0xFFFF_FFFF,
        ;
        let wide: u64 = (self.width as u64) * (self.height as u64);
        if wide <= usize::MAX as u64 {
            Some(self.pixel_count())
        } else {
            None
        }
    }
}

} // verus!
