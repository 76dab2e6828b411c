//! What the records of a high-precision table say of each pixel: which orders
//! hit it, and how its ray ended if none did.
use crate::transfer_maps::PositionData;
use vstd::prelude::*;

verus! {

/// Most orders that a bitmask of orders has room for.
pub const MASK_ORDERS: u8 = 8;

/// How the ray of a pixel ended without a hit, from the least telling end to
/// the most telling.
#[derive(Debug, Clone, Copy, PartialEq, Eq, Structural)]
pub enum MissReason {
    Escaped,
    Aborted,
    Captured,
}

impl MissReason {
    /// The place of the reason in the order: 0 for `Escaped`, 2 for
    /// `Captured`.
    pub open spec fn rank_of(self) -> int {
        match self {
            MissReason::Escaped => 0,
            MissReason::Aborted => 1,
            MissReason::Captured => 2,
        }
    }

    fn rank(self) -> (r: u8)
        ensures
            r == self.rank_of(),
    {
        match self {
            MissReason::Escaped => 0,
            MissReason::Aborted => 1,
            MissReason::Captured => 2,
        }
    }
}

/// The reason that a record without a hit gives: captured before aborted
/// before escaped.
pub open spec fn reason_of(record: PositionData) -> MissReason {
    if record.captured {
        MissReason::Captured
    } else if record.aborted {
        MissReason::Aborted
    } else {
        MissReason::Escaped
    }
}

/// The more telling of a pixel's reason so far and one more.
pub open spec fn merged(so_far: Option<MissReason>, reason: MissReason) -> Option<MissReason> {
    match so_far {
        Some(old) => if reason.rank_of() > old.rank_of() {
            Some(reason)
        } else {
            Some(old)
        },
        None => Some(reason),
    }
}

/// Row-major index of the pixel of a record.
pub open spec fn pixel_of(record: PositionData, width: u32) -> int {
    record.pixel_y * width + record.pixel_x
}

/// The bitmask of the orders that hit the pixel with index `p` among the
/// first `n` records: bit `k` for order `k`; none without a hit.
pub open spec fn orders_among(
    records: Seq<PositionData>,
    width: u32,
    n: int,
    p: int,
) -> Option<u8>
    decreases n,
{
    if n <= 0 {
        None
    } else {
        let before = orders_among(records, width, n - 1, p);
        let record = records[n - 1];
        if record.hit && pixel_of(record, width) == p {
            match before {
                Some(mask) => Some(mask | (1u8 << record.order)),
                None => Some(1u8 << record.order),
            }
        } else {
            before
        }
    }
}

/// The most telling reason among those of the first `n` records that are
/// without a hit and belong to the pixel with index `p`.
pub open spec fn reason_among(
    records: Seq<PositionData>,
    width: u32,
    n: int,
    p: int,
) -> Option<MissReason>
    decreases n,
{
    if n <= 0 {
        None
    } else {
        let before = reason_among(records, width, n - 1, p);
        let record = records[n - 1];
        if !record.hit && pixel_of(record, width) == p {
            merged(before, reason_of(record))
        } else {
            before
        }
    }
}

/// The buckets that pixels are counted in, by the orders that hit them.
#[derive(Debug, Clone, Copy, PartialEq, Eq, Structural)]
pub enum Bucket {
    /// Any order hit.
    AnyHit,
    /// Order 0 hit and no other.
    OnlyOrder0,
    /// Orders 0 and 1 hit and no other.
    Orders0And1,
    /// An order from 2 on hit.
    Order2Plus,
}

/// A pixel with these orders belongs to the bucket.
pub open spec fn in_bucket(orders: Option<u8>, bucket: Bucket) -> bool {
    match orders {
        Some(mask) => match bucket {
            Bucket::AnyHit => true,
            Bucket::OnlyOrder0 => mask == 1,
            Bucket::Orders0And1 => mask == 3,
            Bucket::Order2Plus => mask >= 4,
        },
        None => false,
    }
}

/// Number of the first `n` pixels in the bucket.
pub open spec fn pixels_in(pixel_orders: Seq<Option<u8>>, n: int, bucket: Bucket) -> nat
    decreases n,
{
    if n <= 0 {
        0
    } else {
        pixels_in(pixel_orders, n - 1, bucket) + if in_bucket(pixel_orders[n - 1], bucket) {
            1nat
        } else {
            0nat
        }
    }
}

/// Number of the first `n` pixels whose rays ended for the reason.
pub open spec fn pixels_missed(
    reasons: Seq<Option<MissReason>>,
    n: int,
    reason: MissReason,
) -> nat
    decreases n,
{
    if n <= 0 {
        0
    } else {
        pixels_missed(reasons, n - 1, reason) + if reasons[n - 1] == Some(reason) {
            1nat
        } else {
            0nat
        }
    }
}

/// The records that a summary takes: every one in the image, and every hit
/// of an order that a bitmask has room for.
pub open spec fn summarizable(records: Seq<PositionData>, width: u32, height: u32) -> bool {
    forall|i: int|
        0 <= i < records.len() ==> {
            &&& (#[trigger] records[i]).pixel_x < width
            &&& records[i].pixel_y < height
            &&& records[i].hit ==> records[i].order < MASK_ORDERS
        }
}

/// Tests `summarizable`, for callers that cannot prove it.
pub fn check_summarizable(records: &[PositionData], width: u32, height: u32) -> (ok: bool)
    ensures
        ok == summarizable(records@, width, height),
{
    let mut i: usize = 0;
    while i < records.len()
        invariant
            i <= records@.len(),
            summarizable(records@.take(i as int), width, height),
        decreases records@.len() - i,
    {
        let record = &records[i];
        if record.pixel_x >= width || record.pixel_y >= height || (record.hit && record.order
            >= MASK_ORDERS) {
            return false;
        }
        assert forall|j: int| 0 <= j < i + 1 implies {
            &&& (#[trigger] records@.take(i + 1)[j]).pixel_x < width
            &&& records@.take(i + 1)[j].pixel_y < height
            &&& records@.take(i + 1)[j].hit ==> records@.take(i + 1)[j].order < MASK_ORDERS
        } by {
            if j < i {
                assert(records@.take(i as int)[j] == records@[j]);
            }
        }
        i = i + 1;
    }
    assert(records@.take(records@.len() as int) =~= records@);
    true
}

/// What the records say of the pixels of an image.
pub struct PixelSummary {
    /// For each pixel, the bitmask of the orders that hit it, if any did.
    pub pixel_orders: Vec<Option<u8>>,
    /// For each pixel, how its ray ended without a hit, if a record says so.
    pub miss_reasons: Vec<Option<MissReason>>,
    pub total_hit_pixels: usize,
    pub only_order_0: usize,
    pub orders_0_and_1: usize,
    pub orders_2_plus: usize,
    pub miss_escaped: usize,
    pub miss_captured: usize,
    pub miss_aborted: usize,
}

/// Gathers the records of an image by pixel: the orders that hit each pixel,
/// the most telling end of the rays without a hit, and how many pixels fall
/// in which bucket.
pub fn summarize_pixels(records: &[PositionData], width: u32, height: u32) -> (s: PixelSummary)
    requires
        summarizable(records@, width, height),
        width * height <= usize::MAX,
    ensures
        s.pixel_orders@.len() == width * height,
        s.miss_reasons@.len() == width * height,
        forall|p: int|
            0 <= p < width * height ==> #[trigger] s.pixel_orders@[p] == orders_among(
                records@,
                width,
                records@.len() as int,
                p,
            ),
        forall|p: int|
            0 <= p < width * height ==> #[trigger] s.miss_reasons@[p] == reason_among(
                records@,
                width,
                records@.len() as int,
                p,
            ),
        s.total_hit_pixels == pixels_in(s.pixel_orders@, width * height, Bucket::AnyHit),
        s.only_order_0 == pixels_in(s.pixel_orders@, width * height, Bucket::OnlyOrder0),
        s.orders_0_and_1 == pixels_in(s.pixel_orders@, width * height, Bucket::Orders0And1),
        s.orders_2_plus == pixels_in(s.pixel_orders@, width * height, Bucket::Order2Plus),
        s.miss_escaped == pixels_missed(s.miss_reasons@, width * height, MissReason::Escaped),
        s.miss_captured == pixels_missed(s.miss_reasons@, width * height, MissReason::Captured),
        s.miss_aborted == pixels_missed(s.miss_reasons@, width * height, MissReason::Aborted),
{
    assert(width * height >= 0) by (nonlinear_arith)
        requires
            width >= 0,
            height >= 0,
    ;
    let pixels: usize = (width as usize) * (height as usize);
    let mut pixel_orders: Vec<Option<u8>> = vec![None; pixels];
    let mut miss_reasons: Vec<Option<MissReason>> = vec![None; pixels];
    let count = records.len();
    let mut k: usize = 0;
    while k < count
        invariant
            k <= count,
            count == records@.len(),
            pixels == width * height,
            summarizable(records@, width, height),
            pixel_orders@.len() == pixels,
            miss_reasons@.len() == pixels,
            forall|p: int|
                0 <= p < pixels ==> #[trigger] pixel_orders@[p] == orders_among(
                    records@,
                    width,
                    k as int,
                    p,
                ),
            forall|p: int|
                0 <= p < pixels ==> #[trigger] miss_reasons@[p] == reason_among(
                    records@,
                    width,
                    k as int,
                    p,
                ),
        decreases count - k,
    {
        let record = &records[k];
        proof {
            crate::transfer_maps::lemma_pixel_in_bounds(
                width,
                height,
                1,
                record.pixel_x,
                record.pixel_y,
            );
            assert(0 <= record.pixel_y * width <= record.pixel_y * width + record.pixel_x)
                by (nonlinear_arith)
                requires
                    0 <= record.pixel_y,
                    0 <= width,
                    0 <= record.pixel_x,
            ;
        }
        let idx: usize = (record.pixel_y as usize) * (width as usize) + (record.pixel_x as usize);
        if record.hit {
            let bit: u8 = 1u8 << record.order;
            let mask: u8 = match pixel_orders[idx] {
                Some(old) => old | bit,
                None => bit,
            };
            pixel_orders[idx] = Some(mask);
        } else {
            let reason = if record.captured {
                MissReason::Captured
            } else if record.aborted {
                MissReason::Aborted
            } else {
                MissReason::Escaped
            };
            let kept = match miss_reasons[idx] {
                Some(old) => if reason.rank() > old.rank() {
                    reason
                } else {
                    old
                },
                None => reason,
            };
            miss_reasons[idx] = Some(kept);
        }
        k = k + 1;
    }
    let mut total_hit_pixels: usize = 0;
    let mut only_order_0: usize = 0;
    let mut orders_0_and_1: usize = 0;
    let mut orders_2_plus: usize = 0;
    let mut miss_escaped: usize = 0;
    let mut miss_captured: usize = 0;
    let mut miss_aborted: usize = 0;
    let mut p: usize = 0;
    while p < pixels
        invariant
            p <= pixels,
            pixel_orders@.len() == pixels,
            miss_reasons@.len() == pixels,
            total_hit_pixels == pixels_in(pixel_orders@, p as int, Bucket::AnyHit),
            only_order_0 == pixels_in(pixel_orders@, p as int, Bucket::OnlyOrder0),
            orders_0_and_1 == pixels_in(pixel_orders@, p as int, Bucket::Orders0And1),
            orders_2_plus == pixels_in(pixel_orders@, p as int, Bucket::Order2Plus),
            miss_escaped == pixels_missed(miss_reasons@, p as int, MissReason::Escaped),
            miss_captured == pixels_missed(miss_reasons@, p as int, MissReason::Captured),
            miss_aborted == pixels_missed(miss_reasons@, p as int, MissReason::Aborted),
            total_hit_pixels <= p,
            only_order_0 <= p,
            orders_0_and_1 <= p,
            orders_2_plus <= p,
            miss_escaped <= p,
            miss_captured <= p,
            miss_aborted <= p,
        decreases pixels - p,
    {
        match pixel_orders[p] {
            Some(mask) => {
                total_hit_pixels = total_hit_pixels + 1;
                if mask == 1 {
                    only_order_0 = only_order_0 + 1;
                }
                if mask == 3 {
                    orders_0_and_1 = orders_0_and_1 + 1;
                }
                if mask >= 4 {
                    orders_2_plus = orders_2_plus + 1;
                }
            },
            None => {},
        }
        match miss_reasons[p] {
            Some(MissReason::Escaped) => {
                miss_escaped = miss_escaped + 1;
            },
            Some(MissReason::Captured) => {
                miss_captured = miss_captured + 1;
            },
            Some(MissReason::Aborted) => {
                miss_aborted = miss_aborted + 1;
            },
            None => {},
        }
        p = p + 1;
    }
    PixelSummary {
        pixel_orders,
        miss_reasons,
        total_hit_pixels,
        only_order_0,
        orders_0_and_1,
        orders_2_plus,
        miss_escaped,
        miss_captured,
        miss_aborted,
    }
}

} // verus!
