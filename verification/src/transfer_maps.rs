//! Transfer maps: per-order textures of where each pixel's ray met the disc,
//! with an optional table of the same crossings in double precision.
use crate::geodesic::GeodesicResult;
use crate::ieee::{Double, Single};
use crate::manifest::Manifest;
use vstd::prelude::*;

verus! {

/// Channels per pixel of a texture.
pub const CHANNELS: usize = 4;

/// Bits of the binary32 weight of an order 0 hit, 1.0.
pub const WEIGHT_PRIMARY: u32 = 0x3F80_0000;

/// Bits of the binary32 weight of an order 1 hit, 0.3.
pub const WEIGHT_SECONDARY: u32 = 0x3E99_999A;

/// Bits of the binary32 weight of a hit of order 2 or higher, 0.1.
pub const WEIGHT_HIGHER: u32 = 0x3DCC_CCCD;

/// `n` zeros.
fn zeroed(n: usize) -> (v: Vec<Single>)
    ensures
        v@ == Seq::new(n as nat, |i: int| Single { bits: 0 }),
{
    let v = vec![Single { bits: 0 }; n];
    assert(v@ =~= Seq::new(n as nat, |i: int| Single { bits: 0 }));
    v
}

/// One entry of the high-precision table: a disc hit in double precision, or
/// how the pixel's ray ended.
#[derive(Debug, Clone, Copy, PartialEq, Eq, Structural)]
pub struct PositionData {
    pub pixel_x: u32,
    pub pixel_y: u32,
    pub r: Double,
    pub theta: Double,
    pub phi: Double,
    pub energy: Double,
    pub angular_momentum: Double,
    pub carter_q: Double,
    pub impact_parameter: Double,
    pub redshift_factor: Double,
    pub affine_parameter: Double,
    pub phi_wraps: Double,
    pub order: u8,
    pub hit: bool,
    pub null_invariant_error: Double,
    pub escaped: bool,
    pub captured: bool,
    pub aborted: bool,
    pub turns_r: u8,
    pub turns_theta: u8,
}

/// The entry of a slot that nothing was written to: all zero, no flag set.
pub open spec fn blank_entry() -> PositionData {
    PositionData {
        pixel_x: 0,
        pixel_y: 0,
        r: Double { bits: 0 },
        theta: Double { bits: 0 },
        phi: Double { bits: 0 },
        energy: Double { bits: 0 },
        angular_momentum: Double { bits: 0 },
        carter_q: Double { bits: 0 },
        impact_parameter: Double { bits: 0 },
        redshift_factor: Double { bits: 0 },
        affine_parameter: Double { bits: 0 },
        phi_wraps: Double { bits: 0 },
        order: 0,
        hit: false,
        null_invariant_error: Double { bits: 0 },
        escaped: false,
        captured: false,
        aborted: false,
        turns_r: 0,
        turns_theta: 0,
    }
}

impl Default for PositionData {
    fn default() -> (p: Self)
        ensures
            p == blank_entry(),
    {
        PositionData {
            pixel_x: 0,
            pixel_y: 0,
            r: Double { bits: 0 },
            theta: Double { bits: 0 },
            phi: Double { bits: 0 },
            energy: Double { bits: 0 },
            angular_momentum: Double { bits: 0 },
            carter_q: Double { bits: 0 },
            impact_parameter: Double { bits: 0 },
            redshift_factor: Double { bits: 0 },
            affine_parameter: Double { bits: 0 },
            phi_wraps: Double { bits: 0 },
            order: 0,
            hit: false,
            null_invariant_error: Double { bits: 0 },
            escaped: false,
            captured: false,
            aborted: false,
            turns_r: 0,
            turns_theta: 0,
        }
    }
}

impl PositionData {
    /// Something was written to the entry: a hit or a termination.
    pub open spec fn written(self) -> bool {
        self.hit || self.escaped || self.captured || self.aborted
    }

    pub fn is_written(&self) -> (b: bool)
        ensures
            b == self.written(),
    {
        self.hit || self.escaped || self.captured || self.aborted
    }
}

/// The table entry of a result of the pixel `(x, y)`.
pub open spec fn entry_of(result: GeodesicResult, x: u32, y: u32) -> PositionData {
    match result {
        GeodesicResult::DiscHit {
            r,
            theta,
            phi,
            energy,
            angular_momentum,
            carter_q,
            impact_parameter,
            redshift_factor,
            affine_parameter,
            phi_wraps,
            order,
            null_invariant_error,
            turns_r,
            turns_theta,
            ..
        } => PositionData {
            pixel_x: x,
            pixel_y: y,
            r,
            theta,
            phi,
            energy,
            angular_momentum,
            carter_q,
            impact_parameter,
            redshift_factor,
            affine_parameter,
            phi_wraps,
            order,
            hit: true,
            null_invariant_error,
            escaped: false,
            captured: false,
            aborted: false,
            turns_r,
            turns_theta,
        },
        GeodesicResult::Escaped { turns_r, turns_theta } => PositionData {
            pixel_x: x,
            pixel_y: y,
            escaped: true,
            turns_r,
            turns_theta,
            ..blank_entry()
        },
        GeodesicResult::Captured { turns_r, turns_theta } => PositionData {
            pixel_x: x,
            pixel_y: y,
            captured: true,
            turns_r,
            turns_theta,
            ..blank_entry()
        },
        GeodesicResult::Aborted { turns_r, turns_theta } => PositionData {
            pixel_x: x,
            pixel_y: y,
            aborted: true,
            turns_r,
            turns_theta,
            ..blank_entry()
        },
    }
}

/// Makes the table entry of a result of the pixel `(x, y)`.
pub fn make_entry(result: &GeodesicResult, x: u32, y: u32) -> (p: PositionData)
    ensures
        p == entry_of(*result, x, y),
        p.written(),
        p.hit == result.hit(),
{
    let blank = PositionData::default();
    match result {
        GeodesicResult::DiscHit {
            r,
            theta,
            phi,
            energy,
            angular_momentum,
            carter_q,
            impact_parameter,
            redshift_factor,
            affine_parameter,
            phi_wraps,
            order,
            null_invariant_error,
            turns_r,
            turns_theta,
            ..
        } => PositionData {
            pixel_x: x,
            pixel_y: y,
            r: *r,
            theta: *theta,
            phi: *phi,
            energy: *energy,
            angular_momentum: *angular_momentum,
            carter_q: *carter_q,
            impact_parameter: *impact_parameter,
            redshift_factor: *redshift_factor,
            affine_parameter: *affine_parameter,
            phi_wraps: *phi_wraps,
            order: *order,
            hit: true,
            null_invariant_error: *null_invariant_error,
            escaped: false,
            captured: false,
            aborted: false,
            turns_r: *turns_r,
            turns_theta: *turns_theta,
        },
        GeodesicResult::Escaped { turns_r, turns_theta } => PositionData {
            pixel_x: x,
            pixel_y: y,
            escaped: true,
            turns_r: *turns_r,
            turns_theta: *turns_theta,
            ..blank
        },
        GeodesicResult::Captured { turns_r, turns_theta } => PositionData {
            pixel_x: x,
            pixel_y: y,
            captured: true,
            turns_r: *turns_r,
            turns_theta: *turns_theta,
            ..blank
        },
        GeodesicResult::Aborted { turns_r, turns_theta } => PositionData {
            pixel_x: x,
            pixel_y: y,
            aborted: true,
            turns_r: *turns_r,
            turns_theta: *turns_theta,
            ..blank
        },
    }
}

/// The high-precision table: one entry per pixel and order, pixel-major.
#[derive(Debug, Clone)]
pub struct HighPrecisionData {
    pub positions: Vec<PositionData>,
}

/// The transfer maps of one render.
pub struct TransferMaps {
    /// Order 0 positions.
    pub t1_rgba32f: Vec<Single>,
    /// Order 0 physics.
    pub t2_rgba32f: Vec<Single>,
    /// Order 1 positions.
    pub t3_rgba32f: Vec<Single>,
    /// Order 1 physics.
    pub t4_rgba32f: Vec<Single>,
    /// Order 2 and higher positions.
    pub t5_rgba32f: Vec<Single>,
    /// Order 2 and higher physics.
    pub t6_rgba32f: Vec<Single>,
    /// Emissivity lookup table.
    pub flux_r32f: Vec<Single>,
    pub manifest: Manifest,
    pub width: u32,
    pub height: u32,
    pub max_orders: u8,
    pub high_precision_data: Option<HighPrecisionData>,
}

/// Length of a texture of `width` by `height` pixels.
pub open spec fn texture_len(width: u32, height: u32) -> int {
    width * height * CHANNELS
}

/// Length of the high-precision table of an image with `max_orders` orders.
pub open spec fn table_len(width: u32, height: u32, max_orders: u8) -> int {
    width * height * max_orders
}

impl TransferMaps {
    /// One of the six textures, by its number from 1 to 6.
    pub open spec fn texture(self, number: int) -> Seq<Single> {
        if number == 1 {
            self.t1_rgba32f@
        } else if number == 2 {
            self.t2_rgba32f@
        } else if number == 3 {
            self.t3_rgba32f@
        } else if number == 4 {
            self.t4_rgba32f@
        } else if number == 5 {
            self.t5_rgba32f@
        } else {
            self.t6_rgba32f@
        }
    }

    /// The high-precision table, where it is kept.
    pub open spec fn table(self) -> Option<Seq<PositionData>> {
        match self.high_precision_data {
            Some(hp) => Some(hp.positions@),
            None => None,
        }
    }

    /// Every texture has four channels per pixel and the table one entry per
    /// pixel and order.
    pub open spec fn wf(self) -> bool {
        &&& forall|number: int|
            1 <= number <= 6 ==> (#[trigger] self.texture(number)).len() == texture_len(
                self.width,
                self.height,
            )
        &&& self.table() matches Some(t) ==> t.len() == table_len(
            self.width,
            self.height,
            self.max_orders,
        )
    }

    /// Maps with every texture, the lookup table and the high-precision table
    /// blank.
    pub fn new(
        width: u32,
        height: u32,
        manifest: Manifest,
        flux_samples: usize,
        max_orders: u8,
        export_high_precision: bool,
    ) -> (maps: Self)
        requires
            texture_len(width, height) <= usize::MAX,
            export_high_precision ==> table_len(width, height, max_orders) <= usize::MAX,
        ensures
            maps.wf(),
            maps.width == width,
            maps.height == height,
            maps.max_orders == max_orders,
            maps.manifest == manifest,
            forall|number: int|
                1 <= number <= 6 ==> #[trigger] maps.texture(number) == Seq::new(
                    texture_len(width, height) as nat,
                    |i: int| Single { bits: 0 },
                ),
            maps.flux_r32f@ == Seq::new(flux_samples as nat, |i: int| Single { bits: 0 }),
            maps.table() == if export_high_precision {
                Some(
                    Seq::new(
                        table_len(width, height, max_orders) as nat,
                        |i: int| blank_entry(),
                    ),
                )
            } else {
                None
            },
    {
        assert(width * height <= texture_len(width, height)) by (nonlinear_arith)
            requires
                texture_len(width, height) == width * height * 4,
        ;
        let pixel_count: usize = (width as usize) * (height as usize);
        let high_precision_data = if export_high_precision {
            let positions = vec![PositionData::default(); pixel_count * (max_orders as usize)];
            assert(positions@ =~= Seq::new(
                table_len(width, height, max_orders) as nat,
                |i: int| blank_entry(),
            ));
            Some(HighPrecisionData { positions })
        } else {
            None
        };
        TransferMaps {
            t1_rgba32f: zeroed(pixel_count * CHANNELS),
            t2_rgba32f: zeroed(pixel_count * CHANNELS),
            t3_rgba32f: zeroed(pixel_count * CHANNELS),
            t4_rgba32f: zeroed(pixel_count * CHANNELS),
            t5_rgba32f: zeroed(pixel_count * CHANNELS),
            t6_rgba32f: zeroed(pixel_count * CHANNELS),
            flux_r32f: zeroed(flux_samples),
            manifest,
            width,
            height,
            max_orders,
            high_precision_data,
        }
    }
}

/// The texture pair that shows the hits of an order: 0 for order 0, 1 for
/// order 1, 2 for every higher order.
pub open spec fn pair_of(order: int) -> int {
    if order <= 0 {
        0
    } else if order == 1 {
        1
    } else {
        2
    }
}

/// The weight that a texture pair gives its hits: 1.0, 0.3 and 0.1.
pub open spec fn weight_of(pair: int) -> Single {
    if pair <= 0 {
        Single { bits: WEIGHT_PRIMARY }
    } else if pair == 1 {
        Single { bits: WEIGHT_SECONDARY }
    } else {
        Single { bits: WEIGHT_HIGHER }
    }
}

/// Among the first `n` slots, the one whose hit the textures of `pair` show:
/// the last hit among the slots of that pair.
pub open spec fn shown_hit(results: Seq<GeodesicResult>, pair: int, n: int) -> Option<int>
    decreases n,
{
    if n <= 0 {
        None
    } else if pair_of(n - 1) == pair && results[n - 1].hit() {
        Some(n - 1)
    } else {
        shown_hit(results, pair, n - 1)
    }
}

/// The four channels of a hit in a position texture: the radius rounded to
/// single precision, sine and cosine of `phi`, and the weight of the pair.
pub open spec fn position_channels(result: GeodesicResult, pair: int) -> Seq<Single> {
    match result {
        GeodesicResult::DiscHit { r, sin_phi, cos_phi, .. } => seq![
            Single::nearest(r),
            sin_phi,
            cos_phi,
            weight_of(pair),
        ],
        _ => Seq::empty(),
    }
}

/// The four channels of a hit in a physics texture: energy and angular
/// momentum rounded to single precision, the hit's order, and zero.
pub open spec fn physics_channels(result: GeodesicResult) -> Seq<Single> {
    match result {
        GeodesicResult::DiscHit { energy, angular_momentum, order, .. } => seq![
            Single::nearest(energy),
            Single::nearest(angular_momentum),
            Single { bits: crate::ieee::single_bits_of(order) as u32 },
            Single { bits: 0 },
        ],
        _ => Seq::empty(),
    }
}

/// `buf` with `channels` written from index `base` on.
pub open spec fn overlaid(buf: Seq<Single>, base: int, channels: Seq<Single>) -> Seq<Single> {
    Seq::new(
        buf.len(),
        |i: int|
            if base <= i < base + channels.len() {
                channels[i - base]
            } else {
                buf[i]
            },
    )
}

/// A texture after the first `n` results of a pixel were packed at `base`.
/// `number` is the texture's number from 1 to 6: odd numbers are position
/// textures, even ones physics textures.
pub open spec fn texture_after(
    buf: Seq<Single>,
    base: int,
    results: Seq<GeodesicResult>,
    number: int,
    n: int,
) -> Seq<Single> {
    let pair = (number - 1) / 2;
    match shown_hit(results, pair, n) {
        Some(k) => overlaid(
            buf,
            base,
            if number % 2 == 1 {
                position_channels(results[k], pair)
            } else {
                physics_channels(results[k])
            },
        ),
        None => buf,
    }
}

/// The result in slot `k` of a pixel writes the pixel's entry `j` of the
/// table: a hit that of its own order, a termination the first entry if it is
/// the first result.
pub open spec fn writes_entry(result: GeodesicResult, k: int, j: int) -> bool {
    match result {
        GeodesicResult::DiscHit { order, .. } => order == j,
        _ => k == 0 && j == 0,
    }
}

/// Among the first `n` results of a pixel, the last that writes the pixel's
/// entry `j` of the table.
pub open spec fn entry_writer(results: Seq<GeodesicResult>, j: int, n: int) -> Option<int>
    decreases n,
{
    if n <= 0 {
        None
    } else if writes_entry(results[n - 1], n - 1, j) {
        Some(n - 1)
    } else {
        entry_writer(results, j, n - 1)
    }
}

/// The table after the first `n` results of the pixel `(x, y)`, whose entries
/// start at `first`, were packed: each entry holds what the last result that
/// writes it says, and what it held where none does.
pub open spec fn table_after(
    table: Seq<PositionData>,
    first: int,
    results: Seq<GeodesicResult>,
    x: u32,
    y: u32,
    n: int,
) -> Seq<PositionData> {
    Seq::new(
        table.len(),
        |i: int|
            match entry_writer(results, i - first, n) {
                Some(k) => entry_of(results[k], x, y),
                None => table[i],
            },
    )
}

/// The results of one pixel as the packer takes them: at most one per order,
/// and every hit of an order below the number of orders. A hit need not
/// stand in the slot of its order: the slot picks the texture pair, the order
/// the entry of the table.
pub open spec fn packable(results: Seq<GeodesicResult>, max_orders: u8) -> bool {
    &&& results.len() <= max_orders
    &&& forall|k: int|
        0 <= k < results.len() ==> (#[trigger] results[k] matches GeodesicResult::DiscHit {
            order,
            ..
        } ==> order < max_orders)
}

/// Tests `packable`, for callers that cannot prove it.
pub fn check_packable(results: &[GeodesicResult], max_orders: u8) -> (ok: bool)
    ensures
        ok == packable(results@, max_orders),
{
    if results.len() > max_orders as usize {
        return false;
    }
    let mut k: usize = 0;
    while k < results.len()
        invariant
            k <= results@.len() <= max_orders,
            forall|j: int|
                0 <= j < k ==> (#[trigger] results@[j] matches GeodesicResult::DiscHit {
                    order,
                    ..
                } ==> order < max_orders),
        decreases results@.len() - k,
    {
        match &results[k] {
            GeodesicResult::DiscHit { order, .. } => {
                if *order >= max_orders {
                    return false;
                }
            },
            _ => {},
        }
        k = k + 1;
    }
    true
}

fn write_texel(buf: &mut Vec<Single>, base: usize, a: Single, b: Single, c: Single, d: Single)
    requires
        base + 4 <= old(buf)@.len(),
    ensures
        final(buf)@ == overlaid(old(buf)@, base as int, seq![a, b, c, d]),
{
    assert(base + 4 <= buf.len() <= usize::MAX);
    buf[base] = a;
    buf[base + 1] = b;
    buf[base + 2] = c;
    buf[base + 3] = d;
    assert(buf@ =~= overlaid(old(buf)@, base as int, seq![a, b, c, d]));
}

/// The weight of the hits of a slot.
fn weight(k: usize) -> (w: Single)
    ensures
        w == weight_of(pair_of(k as int)),
{
    if k == 0 {
        Single { bits: WEIGHT_PRIMARY }
    } else if k == 1 {
        Single { bits: WEIGHT_SECONDARY }
    } else {
        Single { bits: WEIGHT_HIGHER }
    }
}

/// A pixel's index lies inside the image, so its channels lie inside a
/// texture and its slots inside the table.
pub proof fn lemma_pixel_in_bounds(width: u32, height: u32, max_orders: u8, x: u32, y: u32)
    requires
        x < width,
        y < height,
    ensures
        0 <= y * width + x < width * height,
        (y * width + x) * CHANNELS + CHANNELS <= texture_len(width, height),
        (y * width + x) * max_orders + max_orders <= table_len(width, height, max_orders),
{
    let idx = y * width + x;
    let pixels = width * height;
    assert(idx + 1 <= pixels) by (nonlinear_arith)
        requires
            idx == y * width + x,
            pixels == width * height,
            0 <= x < width,
            0 <= y < height,
    ;
    assert(0 <= idx) by (nonlinear_arith)
        requires
            idx == y * width + x,
            0 <= x,
            0 <= y,
            0 <= width,
    ;
    assert((idx + 1) * 4 <= pixels * 4);
    assert((idx + 1) * max_orders <= pixels * max_orders) by (nonlinear_arith)
        requires
            idx + 1 <= pixels,
            0 <= max_orders,
    ;
    assert(idx * max_orders + max_orders == (idx + 1) * max_orders) by (nonlinear_arith);
}

/// The result that `entry_writer` finds writes that entry, and the entry is
/// one of the pixel's own.
pub proof fn lemma_entry_writer_writes(
    results: Seq<GeodesicResult>,
    max_orders: u8,
    j: int,
    n: int,
)
    requires
        packable(results, max_orders),
        n <= results.len(),
    ensures
        entry_writer(results, j, n) matches Some(k) ==> 0 <= k < n && writes_entry(
            results[k],
            k,
            j,
        ) && 0 <= j < max_orders,
        entry_writer(results, j, n).is_none() ==> forall|k: int|
            0 <= k < n ==> !writes_entry(#[trigger] results[k], k, j),
    decreases n,
{
    if n > 0 {
        lemma_entry_writer_writes(results, max_orders, j, n - 1);
    }
}

/// Packing a pixel writes to its own channels and entries and to no others:
/// outside the four channels at `base` a texture keeps what it had, and so
/// does the table outside the pixel's entries, which start at `first`.
pub proof fn lemma_pack_writes_own_slots(
    buf: Seq<Single>,
    table: Seq<PositionData>,
    base: int,
    first: int,
    results: Seq<GeodesicResult>,
    max_orders: u8,
    number: int,
    x: u32,
    y: u32,
    i: int,
)
    requires
        1 <= number <= 6,
        packable(results, max_orders),
    ensures
        texture_after(buf, base, results, number, results.len() as int).len() == buf.len(),
        0 <= i < buf.len() && !(base <= i < base + CHANNELS) ==> texture_after(
            buf,
            base,
            results,
            number,
            results.len() as int,
        )[i] == buf[i],
        table_after(table, first, results, x, y, results.len() as int).len() == table.len(),
        0 <= i < table.len() && !(first <= i < first + max_orders) ==> table_after(
            table,
            first,
            results,
            x,
            y,
            results.len() as int,
        )[i] == table[i],
{
    let pair = (number - 1) / 2;
    let n = results.len() as int;
    lemma_shown_hit_is_hit(results, pair, n);
    lemma_entry_writer_writes(results, max_orders, i - first, n);
}

/// The slot that `shown_hit` finds holds a hit of the pair.
pub proof fn lemma_shown_hit_is_hit(results: Seq<GeodesicResult>, pair: int, n: int)
    ensures
        shown_hit(results, pair, n) matches Some(k) ==> 0 <= k < n && results[k].hit() && pair_of(
            k,
        ) == pair,
        shown_hit(results, pair, n).is_none() ==> forall|k: int|
            0 <= k < n && pair_of(k) == pair ==> !(#[trigger] results[k]).hit(),
    decreases n,
{
    if n > 0 {
        lemma_shown_hit_is_hit(results, pair, n - 1);
    }
}

/// With at most three results, a hit in slot `k` is what the textures of pair
/// `k` show at the pixel: the position texture holds the radius in single
/// precision, sine and cosine of `phi` and the weight of the pair, the
/// physics texture energy and angular momentum in single precision, the
/// hit's order and zero.
pub proof fn lemma_hit_is_shown(
    buf: Seq<Single>,
    base: int,
    results: Seq<GeodesicResult>,
    k: int,
    channel: int,
)
    requires
        0 <= k < results.len() <= 3,
        results[k].hit(),
        0 <= channel < CHANNELS,
        0 <= base,
        base + CHANNELS <= buf.len(),
    ensures
        texture_after(buf, base, results, 2 * k + 1, results.len() as int)[base + channel]
            == position_channels(results[k], k)[channel],
        texture_after(buf, base, results, 2 * k + 2, results.len() as int)[base + channel]
            == physics_channels(results[k])[channel],
        position_channels(results[k], k)[3] == weight_of(k),
{
    reveal_with_fuel(shown_hit, 4);
    assert(shown_hit(results, k, results.len() as int) == Some(k));
}

impl TransferMaps {
    /// Row-major index of a pixel.
    pub open spec fn pixel_index(self, x: u32, y: u32) -> int {
        y * self.width + x
    }

    /// Packs the single result of the pixel `(x, y)` of a render with one
    /// order: a hit goes to the order 0 textures with full weight, and any
    /// result to the pixel's entry of the table.
    pub fn pack_pixel(&mut self, x: u32, y: u32, result: &GeodesicResult)
        requires
            old(self).wf(),
            x < old(self).width,
            y < old(self).height,
            old(self).max_orders >= 1,
        ensures
            final(self).wf(),
            final(self).t1_rgba32f@ == if result.hit() {
                overlaid(
                    old(self).t1_rgba32f@,
                    old(self).pixel_index(x, y) * CHANNELS,
                    position_channels(*result, 0),
                )
            } else {
                old(self).t1_rgba32f@
            },
            final(self).t2_rgba32f@ == if result.hit() {
                overlaid(
                    old(self).t2_rgba32f@,
                    old(self).pixel_index(x, y) * CHANNELS,
                    physics_channels(*result),
                )
            } else {
                old(self).t2_rgba32f@
            },
            forall|number: int|
                3 <= number <= 6 ==> #[trigger] final(self).texture(number) == old(self).texture(
                    number,
                ),
            final(self).table() == (match old(self).table() {
                Some(t) => Some(t.update(old(self).pixel_index(x, y), entry_of(*result, x, y))),
                None => None,
            }),
            final(self).flux_r32f == old(self).flux_r32f,
            final(self).manifest == old(self).manifest,
            final(self).width == old(self).width,
            final(self).height == old(self).height,
            final(self).max_orders == old(self).max_orders,
    {
        proof {
            lemma_pixel_in_bounds(self.width, self.height, self.max_orders, x, y);
            assert(self.texture(1).len() == texture_len(self.width, self.height));
            assert(self.texture(2).len() == texture_len(self.width, self.height));
            assert(self.t1_rgba32f.len() <= usize::MAX);
            assert(0 <= y * self.width <= y * self.width + x) by (nonlinear_arith)
                requires
                    0 <= y,
                    0 <= self.width,
                    0 <= x,
            ;
        }
        let ghost before = *self;
        let idx: usize = (y as usize) * (self.width as usize) + (x as usize);
        let base: usize = idx * CHANNELS;
        match result {
            GeodesicResult::DiscHit { r, energy, angular_momentum, sin_phi, cos_phi, order, .. } => {
                write_texel(
                    &mut self.t1_rgba32f,
                    base,
                    Single::from_double(*r),
                    *sin_phi,
                    *cos_phi,
                    Single { bits: WEIGHT_PRIMARY },
                );
                write_texel(
                    &mut self.t2_rgba32f,
                    base,
                    Single::from_double(*energy),
                    Single::from_double(*angular_momentum),
                    Single::from_u8(*order),
                    Single { bits: 0 },
                );
            },
            _ => {},
        }
        let entry = make_entry(result, x, y);
        match &mut self.high_precision_data {
            Some(hp) => {
                proof {
                    assert(before.table().unwrap().len() == table_len(
                        self.width,
                        self.height,
                        self.max_orders,
                    ));
                    assert(idx < table_len(self.width, self.height, self.max_orders))
                        by (nonlinear_arith)
                        requires
                            idx * self.max_orders + self.max_orders <= table_len(
                                self.width,
                                self.height,
                                self.max_orders,
                            ),
                            self.max_orders >= 1,
                            idx >= 0,
                    ;
                }
                hp.positions[idx] = entry;
            },
            None => {},
        }
        proof {
            assert forall|number: int| 1 <= number <= 6 implies (#[trigger] self.texture(
                number,
            )).len() == texture_len(self.width, self.height) by {
                assert(before.texture(number).len() == texture_len(self.width, self.height));
            }
        }
    }

    /// Packs the results of the pixel `(x, y)`. A hit in slot `k` goes to the
    /// four channels of its pixel in the texture pair of `k`, with radius,
    /// energy and angular momentum rounded to single precision, and to the
    /// entry of its own order in the table; a termination goes to the pixel's
    /// first entry of the table if it is the first result, and nowhere else.
    /// Nothing outside the pixel's channels and entries changes.
    pub fn pack_pixel_multi_order(&mut self, x: u32, y: u32, results: &[GeodesicResult])
        requires
            old(self).wf(),
            x < old(self).width,
            y < old(self).height,
            packable(results@, old(self).max_orders),
        ensures
            final(self).wf(),
            forall|number: int|
                1 <= number <= 6 ==> #[trigger] final(self).texture(number) == texture_after(
                    old(self).texture(number),
                    old(self).pixel_index(x, y) * CHANNELS,
                    results@,
                    number,
                    results@.len() as int,
                ),
            final(self).table() == (match old(self).table() {
                Some(t) => Some(
                    table_after(
                        t,
                        old(self).pixel_index(x, y) * old(self).max_orders,
                        results@,
                        x,
                        y,
                        results@.len() as int,
                    ),
                ),
                None => None,
            }),
            final(self).flux_r32f == old(self).flux_r32f,
            final(self).manifest == old(self).manifest,
            final(self).width == old(self).width,
            final(self).height == old(self).height,
            final(self).max_orders == old(self).max_orders,
    {
        proof {
            lemma_pixel_in_bounds(self.width, self.height, self.max_orders, x, y);
            assert(self.texture(1).len() == texture_len(self.width, self.height));
            assert(self.t1_rgba32f.len() <= usize::MAX);
            assert(0 <= y * self.width <= y * self.width + x) by (nonlinear_arith)
                requires
                    0 <= y,
                    0 <= self.width,
                    0 <= x,
            ;
        }
        let idx: usize = (y as usize) * (self.width as usize) + (x as usize);
        let base: usize = idx * CHANNELS;
        let n: usize = results.len();
        let ghost first: int = idx * self.max_orders;
        let mut k: usize = 0;
        while k < n
            invariant
                k <= n,
                n == results@.len(),
                packable(results@, self.max_orders),
                self.wf(),
                idx == old(self).pixel_index(x, y),
                base == idx * CHANNELS,
                base + CHANNELS <= texture_len(self.width, self.height),
                first == idx * self.max_orders,
                first + self.max_orders <= table_len(self.width, self.height, self.max_orders),
                forall|number: int|
                    1 <= number <= 6 ==> #[trigger] self.texture(number) == texture_after(
                        old(self).texture(number),
                        base as int,
                        results@,
                        number,
                        k as int,
                    ),
                self.table() == (match old(self).table() {
                    Some(t) => Some(table_after(t, first, results@, x, y, k as int)),
                    None => None,
                }),
                self.flux_r32f == old(self).flux_r32f,
                self.manifest == old(self).manifest,
                self.width == old(self).width,
                self.height == old(self).height,
                self.max_orders == old(self).max_orders,
            decreases n - k,
        {
            let ghost before = *self;
            let result = &results[k];
            // The entry of the table that this result writes, if it writes one.
            let mut entry_slot: Option<usize> = None;
            match result {
                GeodesicResult::DiscHit {
                    r,
                    energy,
                    angular_momentum,
                    sin_phi,
                    cos_phi,
                    order,
                    ..
                } => {
                    let w = weight(k);
                    let radius = Single::from_double(*r);
                    let e = Single::from_double(*energy);
                    let l = Single::from_double(*angular_momentum);
                    let ord = Single::from_u8(*order);
                    proof {
                        assert(before.texture(1).len() == texture_len(self.width, self.height));
                        assert(before.texture(2).len() == texture_len(self.width, self.height));
                        assert(before.texture(3).len() == texture_len(self.width, self.height));
                        assert(before.texture(4).len() == texture_len(self.width, self.height));
                        assert(before.texture(5).len() == texture_len(self.width, self.height));
                        assert(before.texture(6).len() == texture_len(self.width, self.height));
                    }
                    if k == 0 {
                        write_texel(&mut self.t1_rgba32f, base, radius, *sin_phi, *cos_phi, w);
                        write_texel(&mut self.t2_rgba32f, base, e, l, ord, Single { bits: 0 });
                    } else if k == 1 {
                        write_texel(&mut self.t3_rgba32f, base, radius, *sin_phi, *cos_phi, w);
                        write_texel(&mut self.t4_rgba32f, base, e, l, ord, Single { bits: 0 });
                    } else {
                        write_texel(&mut self.t5_rgba32f, base, radius, *sin_phi, *cos_phi, w);
                        write_texel(&mut self.t6_rgba32f, base, e, l, ord, Single { bits: 0 });
                    }
                    entry_slot = Some(*order as usize);
                },
                _ => {
                    if k == 0 {
                        entry_slot = Some(0);
                    }
                },
            }
            match entry_slot {
                Some(j) => {
                    let entry = make_entry(result, x, y);
                    match &mut self.high_precision_data {
                        Some(hp) => {
                            proof {
                                assert(j < self.max_orders);
                                assert(hp.positions.len() <= usize::MAX);
                                assert(0 <= idx * self.max_orders) by (nonlinear_arith)
                                    requires
                                        0 <= idx,
                                        0 <= self.max_orders,
                                ;
                            }
                            let slot: usize = idx * (self.max_orders as usize) + j;
                            hp.positions[slot] = entry;
                        },
                        None => {},
                    }
                },
                None => {},
            }
            proof {
                let next = k as int + 1;
                assert forall|number: int| 1 <= number <= 6 implies #[trigger] self.texture(
                    number,
                ) == texture_after(
                    old(self).texture(number),
                    base as int,
                    results@,
                    number,
                    next,
                ) by {
                    let pair = (number - 1) / 2;
                    let was = texture_after(
                        old(self).texture(number),
                        base as int,
                        results@,
                        number,
                        k as int,
                    );
                    assert(before.texture(number) == was);
                    if pair_of(k as int) == pair && results@[k as int].hit() {
                        assert(shown_hit(results@, pair, next) == Some(k as int));
                        assert(self.texture(number) =~= texture_after(
                            old(self).texture(number),
                            base as int,
                            results@,
                            number,
                            next,
                        ));
                    } else {
                        assert(shown_hit(results@, pair, next) == shown_hit(
                            results@,
                            pair,
                            k as int,
                        ));
                        assert(self.texture(number) == before.texture(number));
                    }
                }
                assert forall|number: int| 1 <= number <= 6 implies (#[trigger] self.texture(
                    number,
                )).len() == texture_len(self.width, self.height) by {
                    assert(before.texture(number).len() == texture_len(self.width, self.height));
                }
                match old(self).table() {
                    Some(t) => {
                        assert(before.table().unwrap().len() == table_len(
                            self.width,
                            self.height,
                            self.max_orders,
                        ));
                        assert(self.table().unwrap() =~= table_after(
                            t,
                            first,
                            results@,
                            x,
                            y,
                            next,
                        ));
                    },
                    None => {},
                }
            }
            k = k + 1;
        }
    }
}

} // verus!
