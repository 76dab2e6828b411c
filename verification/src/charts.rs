//! The layouts of the report's charts that are made of whole numbers: which
//! cells are drawn, where, and in which colour.
use crate::text::{decimal, decimal_text};
use vstd::prelude::*;
use vstd::string::StringExecFns;

verus! {

/// `ceil(size / factor)`: the number of blocks of `factor` pixels that cover
/// `size` pixels.
pub open spec fn blocks(size: u32, factor: u32) -> int {
    (size + factor - 1) / (factor as int)
}

pub(crate) fn block_count(size: u32, factor: u32) -> (n: u32)
    requires
        factor > 0,
    ensures
        n == blocks(size, factor),
        n <= size,
        n * factor >= size,
        n > 0 ==> (n - 1) * factor < size,
{
    let wide: u64 = (size as u64 + factor as u64 - 1) / (factor as u64);
    proof {
        let _ = block_count_bounds(size, factor);
    }
    wide as u32
}

/// A bitmask of orders shows the order `target`: bit `target` is set, or, for
/// the target 2, any bit from 2 on.
pub open spec fn mask_shows(mask: u8, target: u8) -> bool {
    if target == 2 {
        mask >= 4
    } else {
        mask & (1u8 << target) != 0
    }
}

/// The pixel `(px, py)` has a hit of the order `target`.
pub open spec fn pixel_shows(
    pixel_orders: Seq<Option<u8>>,
    width: u32,
    height: u32,
    target: u8,
    px: int,
    py: int,
) -> bool {
    &&& 0 <= px < width
    &&& 0 <= py < height
    &&& py * width + px < pixel_orders.len()
    &&& pixel_orders[py * width + px] matches Some(mask)
    &&& mask_shows(mask, target)
}

/// One of the first `dx_end` pixels of row `dy` of the block `(tx, ty)` has a
/// hit of the order.
pub open spec fn block_row_lit(
    pixel_orders: Seq<Option<u8>>,
    width: u32,
    height: u32,
    target: u8,
    factor: u32,
    tx: int,
    ty: int,
    dy: int,
    dx_end: int,
) -> bool
    decreases dx_end,
{
    if dx_end <= 0 {
        false
    } else {
        block_row_lit(pixel_orders, width, height, target, factor, tx, ty, dy, dx_end - 1)
            || pixel_shows(
            pixel_orders,
            width,
            height,
            target,
            tx * factor + dx_end - 1,
            ty * factor + dy,
        )
    }
}

/// One of the pixels in the first `dy_end` rows of the block `(tx, ty)` has a
/// hit of the order.
pub open spec fn block_lit(
    pixel_orders: Seq<Option<u8>>,
    width: u32,
    height: u32,
    target: u8,
    factor: u32,
    tx: int,
    ty: int,
    dy_end: int,
) -> bool
    decreases dy_end,
{
    if dy_end <= 0 {
        false
    } else {
        block_lit(pixel_orders, width, height, target, factor, tx, ty, dy_end - 1)
            || block_row_lit(
            pixel_orders,
            width,
            height,
            target,
            factor,
            tx,
            ty,
            dy_end - 1,
            factor as int,
        )
    }
}

/// The lit blocks among the first `tx_end` of the block row `ty`, from left to
/// right.
pub open spec fn lit_in_row(
    pixel_orders: Seq<Option<u8>>,
    width: u32,
    height: u32,
    target: u8,
    factor: u32,
    ty: int,
    tx_end: int,
) -> Seq<(u32, u32)>
    decreases tx_end,
{
    if tx_end <= 0 {
        Seq::empty()
    } else {
        let before = lit_in_row(pixel_orders, width, height, target, factor, ty, tx_end - 1);
        if block_lit(pixel_orders, width, height, target, factor, tx_end - 1, ty, factor as int) {
            before.push(((tx_end - 1) as u32, ty as u32))
        } else {
            before
        }
    }
}

/// The lit blocks of the first `ty_end` block rows, row by row.
pub open spec fn lit_in_rows(
    pixel_orders: Seq<Option<u8>>,
    width: u32,
    height: u32,
    target: u8,
    factor: u32,
    ty_end: int,
) -> Seq<(u32, u32)>
    decreases ty_end,
{
    if ty_end <= 0 {
        Seq::empty()
    } else {
        lit_in_rows(pixel_orders, width, height, target, factor, ty_end - 1) + lit_in_row(
            pixel_orders,
            width,
            height,
            target,
            factor,
            ty_end - 1,
            blocks(width, factor),
        )
    }
}

/// The title of the thumbnail of an order.
pub open spec fn thumbnail_title(target: u8) -> Seq<char> {
    if target == 2 {
        "Order 2+"@
    } else {
        "Order "@ + decimal_text(target as int)
    }
}

/// A thumbnail of the pixels that an order hits: the image in blocks of
/// `downsample_factor` pixels a side, with the blocks to draw.
pub struct OrderThumbnail {
    /// Blocks across and down.
    pub thumb_width: u32,
    pub thumb_height: u32,
    /// Size of the drawing: two units per block, at most 200 by 120.
    pub svg_width: u32,
    pub svg_height: u32,
    /// The blocks with a hit of the order, as `(tx, ty)`, row by row.
    pub lit: Vec<(u32, u32)>,
    /// Number of blocks in all.
    pub total_count: u64,
    pub title: String,
}

fn shows(mask: u8, target: u8) -> (b: bool)
    requires
        target < 8,
    ensures
        b == mask_shows(mask, target),
{
    if target == 2 {
        mask >= 4
    } else {
        let bit: u8 = 1u8 << target;
        (mask & bit) != 0
    }
}

fn pixel_has_order(
    pixel_orders: &[Option<u8>],
    width: u32,
    height: u32,
    target: u8,
    px: u64,
    py: u64,
) -> (b: bool)
    requires
        target < 8,
        px <= 0x2_0000_0000,
        py <= 0x2_0000_0000,
    ensures
        b == pixel_shows(pixel_orders@, width, height, target, px as int, py as int),
{
    if px >= width as u64 || py >= height as u64 {
        return false;
    }
    assert(py * width + px <= 0xFFFF_FFFF * 0xFFFF_FFFF + 0xFFFF_FFFF) by (nonlinear_arith)
        requires
            0 <= py <= 0xFFFF_FFFF,
            0 <= width <= 0xFFFF_FFFF,
            0 <= px <= 0xFFFF_FFFF,
    ;
    let idx: u64 = py * (width as u64) + px;
    let len = pixel_orders.len();
    if idx >= len as u64 {
        return false;
    }
    match pixel_orders[idx as usize] {
        Some(mask) => shows(mask, target),
        None => false,
    }
}

fn block_has_order(
    pixel_orders: &[Option<u8>],
    width: u32,
    height: u32,
    target: u8,
    factor: u32,
    tx: u32,
    ty: u32,
) -> (b: bool)
    requires
        target < 8,
        factor > 0,
        tx < blocks(width, factor),
        ty < blocks(height, factor),
    ensures
        b == block_lit(
            pixel_orders@,
            width,
            height,
            target,
            factor,
            tx as int,
            ty as int,
            factor as int,
        ),
{
    proof {
        let _ = block_count_bounds(width, factor);
        let _ = block_count_bounds(height, factor);
    }
    assert(tx * factor < width && ty * factor < height) by (nonlinear_arith)
        requires
            tx + 1 <= blocks(width, factor),
            ty + 1 <= blocks(height, factor),
            blocks(width, factor) > 0 ==> (blocks(width, factor) - 1) * factor < width,
            blocks(height, factor) > 0 ==> (blocks(height, factor) - 1) * factor < height,
            factor > 0,
            tx >= 0,
            ty >= 0,
    ;
    let x0: u64 = (tx as u64) * (factor as u64);
    let y0: u64 = (ty as u64) * (factor as u64);
    let mut found = false;
    let mut dy: u32 = 0;
    while dy < factor && !found
        invariant
            dy <= factor,
            target < 8,
            factor > 0,
            x0 == tx * factor,
            y0 == ty * factor,
            x0 < width,
            y0 < height,
            found == block_lit(
                pixel_orders@,
                width,
                height,
                target,
                factor,
                tx as int,
                ty as int,
                dy as int,
            ),
            found ==> block_lit(
                pixel_orders@,
                width,
                height,
                target,
                factor,
                tx as int,
                ty as int,
                factor as int,
            ),
        decreases factor - dy + if found { 0int } else { 1int },
    {
        let mut in_row = false;
        let mut dx: u32 = 0;
        while dx < factor && !in_row
            invariant
                dx <= factor,
                dy < factor,
                target < 8,
                x0 == tx * factor,
                y0 == ty * factor,
                x0 < width,
                y0 < height,
                in_row == block_row_lit(
                    pixel_orders@,
                    width,
                    height,
                    target,
                    factor,
                    tx as int,
                    ty as int,
                    dy as int,
                    dx as int,
                ),
                in_row ==> block_row_lit(
                    pixel_orders@,
                    width,
                    height,
                    target,
                    factor,
                    tx as int,
                    ty as int,
                    dy as int,
                    factor as int,
                ),
            decreases factor - dx + if in_row { 0int } else { 1int },
        {
            in_row = pixel_has_order(
                pixel_orders,
                width,
                height,
                target,
                x0 + dx as u64,
                y0 + dy as u64,
            );
            dx = dx + 1;
            proof {
                if in_row {
                    lemma_row_stays_lit(
                        pixel_orders@,
                        width,
                        height,
                        target,
                        factor,
                        tx as int,
                        ty as int,
                        dy as int,
                        dx as int,
                        factor as int,
                    );
                }
            }
        }
        found = in_row;
        dy = dy + 1;
        proof {
            if found {
                lemma_block_stays_lit(
                    pixel_orders@,
                    width,
                    height,
                    target,
                    factor,
                    tx as int,
                    ty as int,
                    dy as int,
                    factor as int,
                );
            }
        }
    }
    found
}

/// What `block_count` says of the number of blocks, for proofs.
proof fn block_count_bounds(size: u32, factor: u32) -> (n: int)
    requires
        factor > 0,
    ensures
        n == blocks(size, factor),
        0 <= n <= size,
        n * factor >= size,
        n > 0 ==> (n - 1) * factor < size,
{
    let s = size as int;
    let f = factor as int;
    let q = (s + f - 1) / f;
    vstd::arithmetic::div_mod::lemma_fundamental_div_mod(s + f - 1, f);
    vstd::arithmetic::div_mod::lemma_mod_pos_bound(s + f - 1, f);
    assert(f * q <= s + f - 1 < f * q + f);
    assert(q * f == f * q) by (nonlinear_arith);
    assert((q - 1) * f == q * f - f) by (nonlinear_arith);
    assert(0 <= q <= s) by (nonlinear_arith)
        requires
            f * q <= s + f - 1 < f * q + f,
            f >= 1,
            s >= 0,
    ;
    q
}

/// A row that is lit within its first `a` pixels is lit within its first `b`.
proof fn lemma_row_stays_lit(
    pixel_orders: Seq<Option<u8>>,
    width: u32,
    height: u32,
    target: u8,
    factor: u32,
    tx: int,
    ty: int,
    dy: int,
    a: int,
    b: int,
)
    requires
        a <= b,
        block_row_lit(pixel_orders, width, height, target, factor, tx, ty, dy, a),
    ensures
        block_row_lit(pixel_orders, width, height, target, factor, tx, ty, dy, b),
    decreases b - a,
{
    if a < b {
        lemma_row_stays_lit(pixel_orders, width, height, target, factor, tx, ty, dy, a, b - 1);
    }
}

/// A block that is lit within its first `a` rows is lit within its first `b`.
proof fn lemma_block_stays_lit(
    pixel_orders: Seq<Option<u8>>,
    width: u32,
    height: u32,
    target: u8,
    factor: u32,
    tx: int,
    ty: int,
    a: int,
    b: int,
)
    requires
        a <= b,
        block_lit(pixel_orders, width, height, target, factor, tx, ty, a),
    ensures
        block_lit(pixel_orders, width, height, target, factor, tx, ty, b),
    decreases b - a,
{
    if a < b {
        lemma_block_stays_lit(pixel_orders, width, height, target, factor, tx, ty, a, b - 1);
    }
}

/// Lays out the thumbnail of an order: the image is cut into blocks of
/// `downsample_factor` pixels a side, and a block is drawn if one of its
/// pixels has a hit of the order in its bitmask (for the target 2, of any
/// order from 2 on).
pub fn generate_order_thumbnail_svg(
    width: u32,
    height: u32,
    pixel_orders: &[Option<u8>],
    target_order: u8,
    downsample_factor: u32,
) -> (thumbnail: OrderThumbnail)
    requires
        downsample_factor > 0,
        target_order < 8,
    ensures
        thumbnail.thumb_width == blocks(width, downsample_factor),
        thumbnail.thumb_height == blocks(height, downsample_factor),
        thumbnail.svg_width == if thumbnail.thumb_width * 2 < 200 {
            thumbnail.thumb_width * 2
        } else {
            200
        },
        thumbnail.svg_height == if thumbnail.thumb_height * 2 < 120 {
            thumbnail.thumb_height * 2
        } else {
            120
        },
        thumbnail.lit@ == lit_in_rows(
            pixel_orders@,
            width,
            height,
            target_order,
            downsample_factor,
            thumbnail.thumb_height as int,
        ),
        thumbnail.total_count == thumbnail.thumb_width * thumbnail.thumb_height,
        thumbnail.title@ == thumbnail_title(target_order),
{
    let thumb_width = block_count(width, downsample_factor);
    let thumb_height = block_count(height, downsample_factor);
    let svg_width: u32 = if thumb_width < 100 {
        thumb_width * 2
    } else {
        200
    };
    let svg_height: u32 = if thumb_height < 60 {
        thumb_height * 2
    } else {
        120
    };
    let mut lit: Vec<(u32, u32)> = Vec::new();
    let mut ty: u32 = 0;
    while ty < thumb_height
        invariant
            ty <= thumb_height,
            downsample_factor > 0,
            target_order < 8,
            thumb_width == blocks(width, downsample_factor),
            thumb_height == blocks(height, downsample_factor),
            lit@ == lit_in_rows(
                pixel_orders@,
                width,
                height,
                target_order,
                downsample_factor,
                ty as int,
            ),
        decreases thumb_height - ty,
    {
        let ghost above = lit@;
        let mut tx: u32 = 0;
        while tx < thumb_width
            invariant
                tx <= thumb_width,
                ty < thumb_height,
                downsample_factor > 0,
                target_order < 8,
                thumb_width == blocks(width, downsample_factor),
                thumb_height == blocks(height, downsample_factor),
                lit@ == above + lit_in_row(
                    pixel_orders@,
                    width,
                    height,
                    target_order,
                    downsample_factor,
                    ty as int,
                    tx as int,
                ),
            decreases thumb_width - tx,
        {
            if block_has_order(
                pixel_orders,
                width,
                height,
                target_order,
                downsample_factor,
                tx,
                ty,
            ) {
                lit.push((tx, ty));
                assert(lit@ =~= above + lit_in_row(
                    pixel_orders@,
                    width,
                    height,
                    target_order,
                    downsample_factor,
                    ty as int,
                    tx + 1,
                ));
            }
            tx = tx + 1;
        }
        ty = ty + 1;
    }
    let title = if target_order == 2 {
        String::from_str("Order 2+")
    } else {
        String::from_str("Order ").concat(decimal(target_order as u64).as_str())
    };
    assert(thumb_width * thumb_height <= 0xFFFF_FFFF * 0xFFFF_FFFF) by (nonlinear_arith)
        requires
            0 <= thumb_width <= 0xFFFF_FFFF,
            0 <= thumb_height <= 0xFFFF_FFFF,
    ;
    OrderThumbnail {
        thumb_width,
        thumb_height,
        svg_width,
        svg_height,
        lit,
        total_count: (thumb_width as u64) * (thumb_height as u64),
        title,
    }
}

/// One slice of the pie of misses, with the place of its legend line.
#[derive(Debug, Clone, Copy, PartialEq, Eq)]
pub struct PieSlice {
    pub label: &'static str,
    pub color: &'static str,
    pub count: usize,
    pub legend_y: usize,
}

/// The pie of the rays that made no hit, by how they ended.
pub struct MissTaxonomyPie {
    pub total_miss: usize,
    /// The slices to draw, clockwise from three o'clock.
    pub slices: Vec<PieSlice>,
}

/// Label of the slice of a kind of miss: 0 escaped, 1 captured, 2 aborted.
pub open spec fn slice_label(kind: int) -> Seq<char> {
    if kind == 0 {
        "Escaped"@
    } else if kind == 1 {
        "Captured"@
    } else {
        "Aborted"@
    }
}

/// Colour of the slice of a kind of miss: blue, red and grey.
pub open spec fn slice_color(kind: int) -> Seq<char> {
    if kind == 0 {
        "#3B82F6"@
    } else if kind == 1 {
        "#EF4444"@
    } else {
        "#6B7280"@
    }
}

/// Which kinds of miss get a slice: those that occurred, in the order
/// escaped, captured, aborted, and none where there was no miss at all.
pub open spec fn slice_kinds(
    escaped: usize,
    captured: usize,
    aborted: usize,
    total_miss: usize,
) -> Seq<int> {
    if total_miss == 0 {
        Seq::empty()
    } else {
        (if escaped != 0 {
            seq![0int]
        } else {
            Seq::empty()
        }) + (if captured != 0 {
            seq![1int]
        } else {
            Seq::empty()
        }) + (if aborted != 0 {
            seq![2int]
        } else {
            Seq::empty()
        })
    }
}

/// The count of a kind of miss.
pub open spec fn count_of_kind(escaped: usize, captured: usize, aborted: usize, kind: int) -> usize {
    if kind == 0 {
        escaped
    } else if kind == 1 {
        captured
    } else {
        aborted
    }
}

fn slice_of(kind: usize, count: usize) -> (s: PieSlice)
    requires
        kind < 3,
    ensures
        s.label@ == slice_label(kind as int),
        s.color@ == slice_color(kind as int),
        s.count == count,
        s.legend_y == 250 + kind * 25,
{
    if kind == 0 {
        PieSlice { label: "Escaped", color: "#3B82F6", count, legend_y: 250 }
    } else if kind == 1 {
        PieSlice { label: "Captured", color: "#EF4444", count, legend_y: 275 }
    } else {
        PieSlice { label: "Aborted", color: "#6B7280", count, legend_y: 300 }
    }
}

/// Lays out the pie of misses: one slice for each kind of miss that
/// occurred, with its label, colour and count, and its legend line 25 units
/// below that of the kind before it.
pub fn generate_miss_taxonomy_pie(
    escaped: usize,
    captured: usize,
    aborted: usize,
    total_miss: usize,
) -> (pie: MissTaxonomyPie)
    ensures
        pie.total_miss == total_miss,
        pie.slices@.len() == slice_kinds(escaped, captured, aborted, total_miss).len(),
        forall|i: int|
            0 <= i < pie.slices@.len() ==> {
                let kind = slice_kinds(escaped, captured, aborted, total_miss)[i];
                &&& (#[trigger] pie.slices@[i]).label@ == slice_label(kind)
                &&& pie.slices@[i].color@ == slice_color(kind)
                &&& pie.slices@[i].count == count_of_kind(escaped, captured, aborted, kind)
                &&& pie.slices@[i].legend_y == 250 + kind * 25
            },
{
    let mut slices: Vec<PieSlice> = Vec::new();
    if total_miss != 0 {
        if escaped != 0 {
            slices.push(slice_of(0, escaped));
        }
        if captured != 0 {
            slices.push(slice_of(1, captured));
        }
        if aborted != 0 {
            slices.push(slice_of(2, aborted));
        }
    }
    MissTaxonomyPie { total_miss, slices }
}

} // verus!
