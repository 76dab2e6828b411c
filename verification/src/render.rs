//! Assembling the transfer maps of a whole image from the traced rays.
use crate::geodesic::GeodesicResult;
use crate::ieee::{Double, Single};
use crate::manifest::Manifest;
use crate::transfer_maps::{
    blank_entry, check_packable, entry_of, entry_writer, lemma_entry_writer_writes,
    lemma_pixel_in_bounds, lemma_shown_hit_is_hit, packable, physics_channels,
    position_channels, shown_hit, table_after, table_len, texture_after, texture_len,
    PositionData, TransferMaps, CHANNELS,
};
use crate::types::{BlackHole, Camera, RenderConfig};
use vstd::prelude::*;

verus! {

/// Number of samples of the emissivity lookup table.
pub const FLUX_SAMPLES: usize = 256;

/// The four channels that texture `number` shows of a pixel with these
/// results: those of the hit that its pair shows, or zeros without one.
pub open spec fn pixel_channels(results: Seq<GeodesicResult>, number: int) -> Seq<Single> {
    let pair = (number - 1) / 2;
    match shown_hit(results, pair, results.len() as int) {
        Some(k) => if number % 2 == 1 {
            position_channels(results[k], pair)
        } else {
            physics_channels(results[k])
        },
        None => Seq::new(CHANNELS as nat, |c: int| Single { bits: 0 }),
    }
}

/// Texture `number` of an image, of `len` channels in all, after its first
/// `done` pixels were packed.
pub open spec fn rendered_texture(
    traced: Seq<Vec<GeodesicResult>>,
    number: int,
    done: int,
    len: int,
) -> Seq<Single> {
    Seq::new(
        len as nat,
        |i: int|
            if 0 <= i / 4 < done {
                pixel_channels(traced[i / 4]@, number)[i % 4]
            } else {
                Single { bits: 0 }
            },
    )
}

/// Entry `k` of the pixel with index `p` in the table: what the last result
/// that writes it says (a hit of order `k`, or a termination that is the
/// first result, for `k == 0`), and blank where none does.
pub open spec fn slot_entry(results: Seq<GeodesicResult>, k: int, p: int, width: u32) -> PositionData {
    match entry_writer(results, k, results.len() as int) {
        Some(j) => entry_of(results[j], (p % (width as int)) as u32, (p / (width as int)) as u32),
        None => blank_entry(),
    }
}

/// The high-precision table of an image, of `len` entries in all, after its
/// first `done` pixels were packed.
pub open spec fn rendered_table(
    traced: Seq<Vec<GeodesicResult>>,
    width: u32,
    max_orders: u8,
    done: int,
    len: int,
) -> Seq<PositionData> {
    Seq::new(
        len as nat,
        |i: int|
            if 0 <= i / (max_orders as int) < done {
                slot_entry(
                    traced[i / (max_orders as int)]@,
                    i % (max_orders as int),
                    i / (max_orders as int),
                    width,
                )
            } else {
                blank_entry()
            },
    )
}

/// Number of pixels among the first `done` whose order 0 result is a hit.
pub open spec fn disc_hit_count(traced: Seq<Vec<GeodesicResult>>, done: int) -> nat
    decreases done,
{
    if done <= 0 {
        0
    } else {
        disc_hit_count(traced, done - 1) + if traced[done - 1]@.len() > 0 && traced[done
            - 1]@[0].hit() {
            1nat
        } else {
            0nat
        }
    }
}

/// The traced rays of an image as the renderer takes them: one list of
/// results per pixel, row by row, each with one result per order of the image
/// and every hit of an order below the number of orders.
pub open spec fn renderable(traced: Seq<Vec<GeodesicResult>>, config: RenderConfig) -> bool {
    &&& traced.len() == config.pixels()
    &&& forall|p: int|
        0 <= p < traced.len() ==> (#[trigger] traced[p])@.len() == config.max_orders && packable(
            traced[p]@,
            config.max_orders,
        )
}

/// Tests `renderable`, for callers that cannot prove it.
pub fn check_renderable(traced: &Vec<Vec<GeodesicResult>>, config: &RenderConfig) -> (ok: bool)
    ensures
        ok == renderable(traced@, *config),
{
    let given = traced.len();
    let count = match config.checked_pixel_count() {
        Some(n) => n,
        None => {
            assert(given < config.pixels());
            return false;
        },
    };
    if given != count {
        return false;
    }
    let mut p: usize = 0;
    while p < traced.len()
        invariant
            p <= traced@.len(),
            traced@.len() == config.pixels(),
            forall|q: int|
                0 <= q < p ==> (#[trigger] traced@[q])@.len() == config.max_orders && packable(
                    traced@[q]@,
                    config.max_orders,
                ),
        decreases traced@.len() - p,
    {
        let results = &traced[p];
        if results.len() != config.max_orders as usize || !check_packable(
            results.as_slice(),
            config.max_orders,
        ) {
            return false;
        }
        p = p + 1;
    }
    true
}

/// Index `i` belongs to the group of `size` consecutive indices that starts
/// at `p * size` exactly if `i / size == p`, and then stands at `i % size` in
/// it.
proof fn lemma_group_of_index(i: int, p: int, size: int)
    requires
        size > 0,
        0 <= i,
        0 <= p,
    ensures
        (p * size <= i < p * size + size) <==> i / size == p,
        i / size == p ==> i % size == i - p * size,
{
    vstd::arithmetic::div_mod::lemma_fundamental_div_mod(i, size);
    vstd::arithmetic::div_mod::lemma_mod_pos_bound(i, size);
    if p * size <= i < p * size + size {
        vstd::arithmetic::div_mod::lemma_fundamental_div_mod_converse(i, size, p, i - p * size);
    }
    if i / size == p {
        assert(size * (i / size) == p * size) by (nonlinear_arith)
            requires
                i / size == p,
        ;
    }
}

/// Packing the next pixel takes a texture from the image of `p` pixels to
/// the image of `p + 1`.
proof fn lemma_texture_step(traced: Seq<Vec<GeodesicResult>>, number: int, p: int, len: int)
    requires
        1 <= number <= 6,
        0 <= p < traced.len(),
        p * 4 + 4 <= len,
    ensures
        texture_after(
            rendered_texture(traced, number, p, len),
            p * 4,
            traced[p]@,
            number,
            traced[p]@.len() as int,
        ) == rendered_texture(traced, number, p + 1, len),
{
    let results = traced[p]@;
    let pair = (number - 1) / 2;
    let before = rendered_texture(traced, number, p, len);
    let after = texture_after(before, p * 4, results, number, results.len() as int);
    let goal = rendered_texture(traced, number, p + 1, len);
    lemma_shown_hit_is_hit(results, pair, results.len() as int);
    assert(after.len() == goal.len());
    assert forall|i: int| 0 <= i < len implies after[i] == goal[i] by {
        lemma_group_of_index(i, p, 4);
    }
    assert(after =~= goal);
}

/// Packing the next pixel takes the table from the image of `p` pixels to the
/// image of `p + 1`.
proof fn lemma_table_step(
    traced: Seq<Vec<GeodesicResult>>,
    width: u32,
    max_orders: u8,
    p: int,
    len: int,
)
    requires
        max_orders >= 1,
        0 <= p < traced.len(),
        packable(traced[p]@, max_orders),
        p * max_orders + max_orders <= len,
    ensures
        table_after(
            rendered_table(traced, width, max_orders, p, len),
            p * max_orders,
            traced[p]@,
            (p % (width as int)) as u32,
            (p / (width as int)) as u32,
            traced[p]@.len() as int,
        ) == rendered_table(traced, width, max_orders, p + 1, len),
{
    let results = traced[p]@;
    let before = rendered_table(traced, width, max_orders, p, len);
    let after = table_after(
        before,
        p * max_orders,
        results,
        (p % (width as int)) as u32,
        (p / (width as int)) as u32,
        results.len() as int,
    );
    let goal = rendered_table(traced, width, max_orders, p + 1, len);
    assert(after.len() == goal.len());
    assert forall|i: int| 0 <= i < len implies after[i] == goal[i] by {
        lemma_group_of_index(i, p, max_orders as int);
        lemma_entry_writer_writes(results, max_orders, i - p * max_orders, results.len() as int);
    }
    assert(after =~= goal);
}

/// In the maps of a whole image every pixel has its own four channels of each
/// texture and its own entries of the table, and they hold what the pixel's
/// own results say: the channels those of the hit that the texture's pair
/// shows, or zeros; entry `k` what the pixel's results write there, or the
/// blank entry. Where every hit of the pixel stands in the slot of its order,
/// a slot from 1 on without a hit leaves its entry blank.
pub proof fn lemma_pixel_owns_its_slots(
    traced: Seq<Vec<GeodesicResult>>,
    config: RenderConfig,
    number: int,
    p: int,
    channel: int,
    k: int,
)
    requires
        config.wf(),
        renderable(traced, config),
        1 <= number <= 6,
        0 <= p < config.pixels(),
        0 <= channel < 4,
        0 <= k < config.max_orders,
    ensures
        p * 4 + channel < texture_len(config.width, config.height),
        rendered_texture(
            traced,
            number,
            config.pixels(),
            texture_len(config.width, config.height),
        )[p * 4 + channel] == pixel_channels(traced[p]@, number)[channel],
        p * config.max_orders + k < table_len(config.width, config.height, config.max_orders),
        rendered_table(
            traced,
            config.width,
            config.max_orders,
            config.pixels(),
            table_len(config.width, config.height, config.max_orders),
        )[p * config.max_orders + k] == slot_entry(traced[p]@, k, p, config.width),
        (forall|j: int|
            0 <= j < traced[p]@.len() ==> (#[trigger] traced[p]@[j] matches GeodesicResult::DiscHit {
                order,
                ..
            } ==> order == j)) && !traced[p]@[k].hit() && k >= 1 ==> slot_entry(
            traced[p]@,
            k,
            p,
            config.width,
        ) == blank_entry(),
{
    let n = config.max_orders as int;
    let pixels = config.pixels();
    lemma_entry_writer_writes(traced[p]@, config.max_orders, k, traced[p]@.len() as int);
    lemma_group_of_index(p * 4 + channel, p, 4);
    lemma_group_of_index(p * n + k, p, n);
    assert((p + 1) * n <= pixels * n) by (nonlinear_arith)
        requires
            p + 1 <= pixels,
            n >= 0,
    ;
    assert((p + 1) * n == p * n + n) by (nonlinear_arith);
}

/// Builds the transfer maps of an image from the results of its rays.
///
/// Every texture shows, at the four channels of each pixel, the hit that the
/// pixel's ray made in an order of the texture's pair, and zeros where it
/// made none. The high-precision table, where it is asked for, holds for each
/// pixel its hits at the slots of their orders and, for a ray without an
/// order 0 hit, the ray's termination at the pixel's first slot. The manifest
/// counts the pixels with an order 0 hit.
pub fn render_transfer_maps(
    black_hole: &BlackHole,
    camera: &Camera,
    config: &RenderConfig,
    preset_name: String,
    export_high_precision: bool,
    r_inner: Double,
    r_outer: Double,
    flux: Vec<Single>,
    traced: &Vec<Vec<GeodesicResult>>,
) -> (maps: TransferMaps)
    requires
        config.wf(),
        renderable(traced@, *config),
        texture_len(config.width, config.height) <= usize::MAX,
        export_high_precision ==> table_len(config.width, config.height, config.max_orders)
            <= usize::MAX,
    ensures
        maps.wf(),
        maps.width == config.width,
        maps.height == config.height,
        maps.max_orders == config.max_orders,
        forall|number: int|
            1 <= number <= 6 ==> #[trigger] maps.texture(number) == rendered_texture(
                traced@,
                number,
                config.pixels(),
                texture_len(config.width, config.height),
            ),
        maps.table() == if export_high_precision {
            Some(
                rendered_table(
                    traced@,
                    config.width,
                    config.max_orders,
                    config.pixels(),
                    table_len(config.width, config.height, config.max_orders),
                ),
            )
        } else {
            None
        },
        maps.flux_r32f@ == flux@,
        maps.manifest.wf(),
        maps.manifest.width == config.width,
        maps.manifest.height == config.height,
        maps.manifest.preset@ == preset_name@,
        maps.manifest.inclination == camera.inclination,
        maps.manifest.spin == black_hole.spin,
        maps.manifest.orders == config.max_orders,
        maps.manifest.r_in == r_inner,
        maps.manifest.r_out == r_outer,
        maps.manifest.disc_hits == disc_hit_count(traced@, config.pixels()),
{
    let width = config.width;
    let height = config.height;
    let max_orders = config.max_orders;
    let count = traced.len();
    let ghost tex_len = texture_len(width, height);
    let ghost tab_len = table_len(width, height, max_orders);

    let mut disc_hits: usize = 0;
    let mut q: usize = 0;
    while q < count
        invariant
            q <= count,
            count == traced@.len(),
            renderable(traced@, *config),
            config.wf(),
            disc_hits == disc_hit_count(traced@, q as int),
            disc_hits <= q,
        decreases count - q,
    {
        if traced[q][0].is_hit() {
            disc_hits = disc_hits + 1;
        }
        q = q + 1;
    }

    let manifest = Manifest::new(
        width,
        height,
        preset_name,
        camera.inclination,
        black_hole.spin,
        max_orders,
        r_inner,
        r_outer,
        disc_hits,
    );
    let mut maps = TransferMaps::new(
        width,
        height,
        manifest,
        FLUX_SAMPLES,
        max_orders,
        export_high_precision,
    );
    let ghost fresh = maps;
    maps.flux_r32f = flux;
    proof {
        assert forall|number: int| 1 <= number <= 6 implies #[trigger] maps.texture(number)
            == rendered_texture(traced@, number, 0, tex_len) by {
            assert(maps.texture(number) == fresh.texture(number));
            assert(fresh.texture(number).len() == tex_len);
            assert(maps.texture(number) =~= rendered_texture(traced@, number, 0, tex_len));
        }
        if export_high_precision {
            assert(maps.table().unwrap() =~= rendered_table(
                traced@,
                width,
                max_orders,
                0,
                tab_len,
            ));
        }
    }

    let mut p: usize = 0;
    let mut x: u32 = 0;
    let mut y: u32 = 0;
    while p < count
        invariant
            p <= count,
            count == traced@.len(),
            count == width * height,
            renderable(traced@, *config),
            config.wf(),
            width == config.width,
            height == config.height,
            max_orders == config.max_orders,
            tex_len == texture_len(width, height),
            tab_len == table_len(width, height, max_orders),
            p == y * width + x,
            x < width,
            p < count ==> y < height,
            maps.wf(),
            maps.width == width,
            maps.height == height,
            maps.max_orders == max_orders,
            forall|number: int|
                1 <= number <= 6 ==> #[trigger] maps.texture(number) == rendered_texture(
                    traced@,
                    number,
                    p as int,
                    tex_len,
                ),
            maps.table() == if export_high_precision {
                Some(rendered_table(traced@, width, max_orders, p as int, tab_len))
            } else {
                None
            },
            maps.flux_r32f@ == flux@,
            maps.manifest == manifest,
        decreases count - p,
    {
        let ghost before = maps;
        proof {
            lemma_pixel_in_bounds(width, height, max_orders, x, y);
            lemma_group_of_index(p as int, y as int, width as int);
        }
        maps.pack_pixel_multi_order(x, y, traced[p].as_slice());
        proof {
            assert(before.pixel_index(x, y) == p);
            assert forall|number: int| 1 <= number <= 6 implies #[trigger] maps.texture(number)
                == rendered_texture(traced@, number, p as int + 1, tex_len) by {
                lemma_texture_step(traced@, number, p as int, tex_len);
                assert(before.texture(number) == rendered_texture(
                    traced@,
                    number,
                    p as int,
                    tex_len,
                ));
            }
            if export_high_precision {
                lemma_table_step(traced@, width, max_orders, p as int, tab_len);
            }
        }
        p = p + 1;
        if x + 1 < width {
            x = x + 1;
        } else {
            x = 0;
            proof {
                assert((y + 1) * width == y * width + width) by (nonlinear_arith);
                assert(height * width == width * height) by (nonlinear_arith);
            }
            if p < count {
                proof {
                    assert(y + 1 < height) by (nonlinear_arith)
                        requires
                            p < width * height,
                            p == (y + 1) * width,
                            width > 0,
                    ;
                }
                y = y + 1;
            } else {
                y = height;
            }
        }
    }
    maps
}

} // verus!
