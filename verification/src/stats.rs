//! Tools for analysing a high-precision table: a pixel index, the outlier
//! taxonomy, and the critical curve between captured and other rays.
use crate::ieee::Double;
use vstd::prelude::*;

verus! {

/// For each pixel of an image, the index of its record, if it has one.
pub struct IndexGrid {
    grid: Vec<Vec<Option<usize>>>,
    width: usize,
    height: usize,
}

impl IndexGrid {
    pub closed spec fn width_of(self) -> usize {
        self.width
    }

    pub closed spec fn height_of(self) -> usize {
        self.height
    }

    /// The grid has `height` rows of `width` cells.
    pub closed spec fn wf(self) -> bool {
        &&& self.grid@.len() == self.height
        &&& forall|y: int| 0 <= y < self.height ==> (#[trigger] self.grid@[y])@.len() == self.width
    }

    /// The index kept for the pixel `(x, y)`: none outside the image.
    pub closed spec fn cell(self, x: int, y: int) -> Option<usize> {
        if 0 <= x < self.width && 0 <= y < self.height {
            self.grid@[y]@[x]
        } else {
            None
        }
    }

    /// An index of `width` by `height` pixels, all without a record.
    pub fn new(width: usize, height: usize) -> (g: Self)
        ensures
            g.wf(),
            g.width_of() == width,
            g.height_of() == height,
            forall|x: int, y: int| g.cell(x, y).is_none(),
    {
        let mut grid: Vec<Vec<Option<usize>>> = Vec::new();
        let mut y: usize = 0;
        while y < height
            invariant
                y <= height,
                grid@.len() == y,
                forall|j: int|
                    0 <= j < y ==> (#[trigger] grid@[j])@ == Seq::new(
                        width as nat,
                        |i: int| None::<usize>,
                    ),
            decreases height - y,
        {
            let row: Vec<Option<usize>> = vec![None; width];
            assert(row@ =~= Seq::new(width as nat, |i: int| None::<usize>));
            grid.push(row);
            y = y + 1;
        }
        IndexGrid { grid, width, height }
    }

    /// Keeps `index` for the pixel `(x, y)`; does nothing outside the image.
    pub fn set(&mut self, x: u32, y: u32, index: usize)
        requires
            old(self).wf(),
        ensures
            final(self).wf(),
            final(self).width_of() == old(self).width_of(),
            final(self).height_of() == old(self).height_of(),
            forall|i: int, j: int|
                #[trigger] final(self).cell(i, j) == if i == x && j == y && x < old(
                    self,
                ).width_of() && y < old(self).height_of() {
                    Some(index)
                } else {
                    old(self).cell(i, j)
                },
    {
        let x = x as usize;
        let y = y as usize;
        if x < self.width && y < self.height {
            self.grid[y][x] = Some(index);
        }
    }

    /// The index kept for the pixel `(x, y)`.
    pub fn get(&self, x: u32, y: u32) -> (index: Option<usize>)
        requires
            self.wf(),
        ensures
            index == self.cell(x as int, y as int),
    {
        let x = x as usize;
        let y = y as usize;
        if x < self.width && y < self.height {
            self.grid[y][x]
        } else {
            None
        }
    }
}

/// A record of one disc hit, as the statistics read it.
pub trait GeodesicRecord {
    spec fn order_of(&self) -> u8;

    fn order(&self) -> (o: u8)
        ensures
            o == self.order_of(),
    ;

    fn null_invariant_error(&self) -> Double;

    fn affine_parameter(&self) -> Double;

    fn redshift_factor(&self) -> Double;

    fn phi_wraps(&self) -> Double;

    fn turns_r(&self) -> u8;

    fn turns_theta(&self) -> u8;
}

impl GeodesicRecord for crate::transfer_maps::PositionData {
    open spec fn order_of(&self) -> u8 {
        self.order
    }

    fn order(&self) -> (o: u8) {
        self.order
    }

    fn null_invariant_error(&self) -> (error: Double)
        ensures
            error == self.null_invariant_error,
    {
        self.null_invariant_error
    }

    fn affine_parameter(&self) -> (lambda: Double)
        ensures
            lambda == self.affine_parameter,
    {
        self.affine_parameter
    }

    fn redshift_factor(&self) -> (g: Double)
        ensures
            g == self.redshift_factor,
    {
        self.redshift_factor
    }

    fn phi_wraps(&self) -> (wraps: Double)
        ensures
            wraps == self.phi_wraps,
    {
        self.phi_wraps
    }

    fn turns_r(&self) -> (turns: u8)
        ensures
            turns == self.turns_r,
    {
        self.turns_r
    }

    fn turns_theta(&self) -> (turns: u8)
        ensures
            turns == self.turns_theta,
    {
        self.turns_theta
    }
}

/// The step in `x` to the `k`-th of the eight neighbours of a pixel, which
/// come in the order N, S, W, E, NW, NE, SW, SE.
pub open spec fn neighbour_dx(k: int) -> int {
    if k == 2 || k == 4 || k == 6 {
        -1
    } else if k == 3 || k == 5 || k == 7 {
        1
    } else {
        0
    }
}

/// The step in `y` to the `k`-th of the eight neighbours of a pixel; north is
/// toward smaller `y`.
pub open spec fn neighbour_dy(k: int) -> int {
    if k == 0 || k == 4 || k == 5 {
        -1
    } else if k == 1 || k == 6 || k == 7 {
        1
    } else {
        0
    }
}

/// The index of a neighbour that counts: the pixel `(nx, ny)` has an index,
/// the index points into `positions`, and the record there is of the order.
pub open spec fn counted_neighbour<T: GeodesicRecord>(
    grid: IndexGrid,
    positions: Seq<T>,
    order: u8,
    nx: int,
    ny: int,
) -> Option<usize> {
    match grid.cell(nx, ny) {
        Some(idx) => if idx < positions.len() && positions[idx as int].order_of() == order {
            Some(idx)
        } else {
            None
        },
        None => None,
    }
}

/// The indices of those of the first `k` neighbours of `(x, y)` that count.
pub open spec fn neighbours_among<T: GeodesicRecord>(
    grid: IndexGrid,
    positions: Seq<T>,
    order: u8,
    x: int,
    y: int,
    k: int,
) -> Seq<usize>
    decreases k,
{
    if k <= 0 {
        Seq::empty()
    } else {
        let before = neighbours_among(grid, positions, order, x, y, k - 1);
        match counted_neighbour(
            grid,
            positions,
            order,
            x + neighbour_dx(k - 1),
            y + neighbour_dy(k - 1),
        ) {
            Some(idx) => before.push(idx),
            None => before,
        }
    }
}

fn neighbour_offset(k: usize) -> (d: (i64, i64))
    requires
        k < 8,
    ensures
        d.0 == neighbour_dx(k as int),
        d.1 == neighbour_dy(k as int),
{
    if k == 0 {
        (0, -1)
    } else if k == 1 {
        (0, 1)
    } else if k == 2 {
        (-1, 0)
    } else if k == 3 {
        (1, 0)
    } else if k == 4 {
        (-1, -1)
    } else if k == 5 {
        (1, -1)
    } else if k == 6 {
        (-1, 1)
    } else {
        (1, 1)
    }
}

impl IndexGrid {
    /// The indices of the records of the order `order` at the eight
    /// neighbours of the pixel `(x, y)`, in the order N, S, W, E, NW, NE, SW,
    /// SE. Neighbours outside the image, without an index, with an index
    /// beyond `positions`, or of another order are left out.
    pub fn get_neighbors_8_same_order<T: GeodesicRecord>(
        &self,
        x: u32,
        y: u32,
        order: u8,
        positions: &[T],
    ) -> (neighbours: Vec<usize>)
        requires
            self.wf(),
        ensures
            neighbours@ == neighbours_among(*self, positions@, order, x as int, y as int, 8),
    {
        let mut neighbours: Vec<usize> = Vec::new();
        let mut k: usize = 0;
        while k < 8
            invariant
                k <= 8,
                self.wf(),
                neighbours@ == neighbours_among(
                    *self,
                    positions@,
                    order,
                    x as int,
                    y as int,
                    k as int,
                ),
            decreases 8 - k,
        {
            let (dx, dy) = neighbour_offset(k);
            let nx: i64 = x as i64 + dx;
            let ny: i64 = y as i64 + dy;
            match self.cell_at(nx, ny) {
                Some(idx) => {
                    if idx < positions.len() && positions[idx].order() == order {
                        neighbours.push(idx);
                    }
                },
                None => {},
            }
            k = k + 1;
        }
        neighbours
    }

    /// The index kept for a pixel whose coordinates may lie outside the image
    /// on any side.
    fn cell_at(&self, x: i64, y: i64) -> (index: Option<usize>)
        requires
            self.wf(),
        ensures
            index == self.cell(x as int, y as int),
    {
        if x < 0 || y < 0 {
            return None;
        }
        if x as u64 >= self.width as u64 || y as u64 >= self.height as u64 {
            return None;
        }
        self.grid[y as usize][x as usize]
    }
}

/// A record that says where its ray entered the image and whether the ray was
/// captured.
pub trait CriticalCurveRecord {
    spec fn pixel_x_of(&self) -> u32;

    spec fn pixel_y_of(&self) -> u32;

    spec fn captured(&self) -> bool;

    fn pixel_x(&self) -> (x: u32)
        ensures
            x == self.pixel_x_of(),
    ;

    fn pixel_y(&self) -> (y: u32)
        ensures
            y == self.pixel_y_of(),
    ;

    fn is_captured(&self) -> (b: bool)
        ensures
            b == self.captured(),
    ;
}

impl CriticalCurveRecord for crate::transfer_maps::PositionData {
    open spec fn pixel_x_of(&self) -> u32 {
        self.pixel_x
    }

    open spec fn pixel_y_of(&self) -> u32 {
        self.pixel_y
    }

    open spec fn captured(&self) -> bool {
        self.captured
    }

    fn pixel_x(&self) -> (x: u32) {
        self.pixel_x
    }

    fn pixel_y(&self) -> (y: u32) {
        self.pixel_y
    }

    fn is_captured(&self) -> (b: bool) {
        self.captured
    }
}

/// One of the first `n` records is a captured ray of the pixel `(x, y)`.
pub open spec fn captured_among<T: CriticalCurveRecord>(
    records: Seq<T>,
    n: int,
    x: int,
    y: int,
) -> bool
    decreases n,
{
    if n <= 0 {
        false
    } else {
        captured_among(records, n - 1, x, y) || (records[n - 1].pixel_x_of() == x && records[n
            - 1].pixel_y_of() == y && records[n - 1].captured())
    }
}

/// The pixel `(x, y)` is captured and one of its four neighbours is not, or
/// the other way round.
pub open spec fn on_curve<T: CriticalCurveRecord>(records: Seq<T>, x: int, y: int) -> bool {
    let n = records.len() as int;
    let centre = captured_among(records, n, x, y);
    ||| centre != captured_among(records, n, x, y - 1)
    ||| centre != captured_among(records, n, x, y + 1)
    ||| centre != captured_among(records, n, x - 1, y)
    ||| centre != captured_among(records, n, x + 1, y)
}

/// The pixels of row `y` on the curve, among the columns from 1 up to but not
/// including `x_end`, from left to right.
pub open spec fn curve_in_row<T: CriticalCurveRecord>(records: Seq<T>, y: int, x_end: int) -> Seq<
    (u32, u32),
>
    decreases x_end,
{
    if x_end <= 1 {
        Seq::empty()
    } else {
        let before = curve_in_row(records, y, x_end - 1);
        if on_curve(records, x_end - 1, y) {
            before.push(((x_end - 1) as u32, y as u32))
        } else {
            before
        }
    }
}

/// The pixels on the curve among the interior columns of the rows from 1 up
/// to but not including `y_end`, row by row.
pub open spec fn curve_in_rows<T: CriticalCurveRecord>(
    records: Seq<T>,
    width: int,
    y_end: int,
) -> Seq<(u32, u32)>
    decreases y_end,
{
    if y_end <= 1 {
        Seq::empty()
    } else {
        curve_in_rows(records, width, y_end - 1) + curve_in_row(records, y_end - 1, width - 1)
    }
}

/// The critical curve of an image: the pixels off the image's border that
/// differ from one of their four neighbours in whether a captured ray was
/// recorded for them, row by row and from left to right.
pub fn extract_critical_curve<T: CriticalCurveRecord>(
    records: &[T],
    width: usize,
    height: usize,
) -> (curve: Vec<(u32, u32)>)
    requires
        width <= u32::MAX,
        height <= u32::MAX,
    ensures
        curve@ == curve_in_rows(records@, width as int, height - 1),
{
    let mut grid: Vec<Vec<bool>> = Vec::new();
    let mut row_count: usize = 0;
    while row_count < height
        invariant
            row_count <= height,
            grid@.len() == row_count,
            forall|j: int| 0 <= j < row_count ==> (#[trigger] grid@[j])@.len() == width,
            forall|i: int, j: int|
                0 <= j < row_count && 0 <= i < width ==> !(#[trigger] grid@[j]@[i]),
        decreases height - row_count,
    {
        let row: Vec<bool> = vec![false; width];
        grid.push(row);
        row_count = row_count + 1;
    }
    let count = records.len();
    let mut k: usize = 0;
    while k < count
        invariant
            k <= count,
            count == records@.len(),
            grid@.len() == height,
            forall|j: int| 0 <= j < height ==> (#[trigger] grid@[j])@.len() == width,
            forall|i: int, j: int|
                0 <= j < height && 0 <= i < width ==> #[trigger] grid@[j]@[i] == captured_among(
                    records@,
                    k as int,
                    i,
                    j,
                ),
        decreases count - k,
    {
        let record = &records[k];
        let x = record.pixel_x() as usize;
        let y = record.pixel_y() as usize;
        if x < width && y < height {
            if record.is_captured() {
                grid[y][x] = true;
            }
        }
        k = k + 1;
    }
    let mut curve: Vec<(u32, u32)> = Vec::new();
    if height < 2 || width < 2 {
        proof {
            lemma_no_interior(records@, width as int, height - 1);
        }
        return curve;
    }
    let mut y: usize = 1;
    while y < height - 1
        invariant
            1 <= y <= height - 1,
            2 <= width <= u32::MAX,
            height <= u32::MAX,
            count == records@.len(),
            grid@.len() == height,
            forall|j: int| 0 <= j < height ==> (#[trigger] grid@[j])@.len() == width,
            forall|i: int, j: int|
                0 <= j < height && 0 <= i < width ==> #[trigger] grid@[j]@[i] == captured_among(
                    records@,
                    count as int,
                    i,
                    j,
                ),
            curve@ == curve_in_rows(records@, width as int, y as int),
        decreases height - y,
    {
        let ghost above = curve@;
        let mut x: usize = 1;
        while x < width - 1
            invariant
                1 <= x <= width - 1,
                1 <= y < height - 1,
                2 <= width <= u32::MAX,
                height <= u32::MAX,
                count == records@.len(),
                grid@.len() == height,
                forall|j: int| 0 <= j < height ==> (#[trigger] grid@[j])@.len() == width,
                forall|i: int, j: int|
                    0 <= j < height && 0 <= i < width ==> #[trigger] grid@[j]@[i]
                        == captured_among(records@, count as int, i, j),
                curve@ == above + curve_in_row(records@, y as int, x as int),
            decreases width - x,
        {
            let centre = grid[y][x];
            let up = grid[y - 1][x];
            let down = grid[y + 1][x];
            let left = grid[y][x - 1];
            let right = grid[y][x + 1];
            if centre != up || centre != down || centre != left || centre != right {
                curve.push((x as u32, y as u32));
                assert(curve@ =~= above + curve_in_row(records@, y as int, x + 1));
            }
            x = x + 1;
        }
        y = y + 1;
    }
    curve
}

/// An image of fewer than two rows or columns has no pixel off its border.
proof fn lemma_no_interior<T: CriticalCurveRecord>(records: Seq<T>, width: int, y_end: int)
    requires
        width < 2 || y_end < 1,
    ensures
        curve_in_rows(records, width, y_end) == Seq::<(u32, u32)>::empty(),
    decreases y_end,
{
    if y_end > 1 {
        lemma_no_interior(records, width, y_end - 1);
        assert(curve_in_row(records, y_end - 1, width - 1) == Seq::<(u32, u32)>::empty());
    }
}

/// How much an outlier matters, from least to most.
#[derive(Debug, Clone, Copy, PartialEq, Eq, PartialOrd, Ord, Structural)]
pub enum OutlierSeverity {
    /// Roundoff at machine precision.
    Info,
    /// Edge cases expected of complex geodesics.
    Medium,
    /// Statistical anomalies: rare but valid.
    High,
    /// Violations of the physics.
    Critical,
}

impl OutlierSeverity {
    /// The place of the severity in the order: 0 for `Info`, 3 for
    /// `Critical`.
    pub open spec fn rank_of(self) -> int {
        match self {
            OutlierSeverity::Info => 0,
            OutlierSeverity::Medium => 1,
            OutlierSeverity::High => 2,
            OutlierSeverity::Critical => 3,
        }
    }

    pub open spec fn label_of(self) -> Seq<char> {
        match self {
            OutlierSeverity::Critical => "Critical"@,
            OutlierSeverity::High => "High"@,
            OutlierSeverity::Medium => "Medium"@,
            OutlierSeverity::Info => "Info"@,
        }
    }

    pub open spec fn color_of(self) -> Seq<char> {
        match self {
            OutlierSeverity::Critical => "#DC2626"@,
            OutlierSeverity::High => "#EA580C"@,
            OutlierSeverity::Medium => "#CA8A04"@,
            OutlierSeverity::Info => "#9CA3AF"@,
        }
    }

    pub fn rank(&self) -> (r: u8)
        ensures
            r == self.rank_of(),
    {
        match self {
            OutlierSeverity::Info => 0,
            OutlierSeverity::Medium => 1,
            OutlierSeverity::High => 2,
            OutlierSeverity::Critical => 3,
        }
    }

    /// `self` matters more than `other`.
    pub fn exceeds(&self, other: &OutlierSeverity) -> (b: bool)
        ensures
            b == (self.rank_of() > other.rank_of()),
    {
        self.rank() > other.rank()
    }

    /// A name for people to read.
    pub fn label(&self) -> (s: &'static str)
        ensures
            s@ == self.label_of(),
    {
        match self {
            OutlierSeverity::Critical => "Critical",
            OutlierSeverity::High => "High",
            OutlierSeverity::Medium => "Medium",
            OutlierSeverity::Info => "Info",
        }
    }

    /// The colour that charts draw the severity in.
    pub fn color(&self) -> (s: &'static str)
        ensures
            s@ == self.color_of(),
    {
        match self {
            OutlierSeverity::Critical => "#DC2626",
            OutlierSeverity::High => "#EA580C",
            OutlierSeverity::Medium => "#CA8A04",
            OutlierSeverity::Info => "#9CA3AF",
        }
    }
}

/// The kinds of outlier.
#[derive(Debug, Clone, Copy, PartialEq, Eq, Structural)]
pub enum OutlierCategory {
    /// `K < -1e-12`.
    NegativeK,
    /// Null invariant above 1e-9.
    LargeNullInvariant,
    /// A field that is not a finite number.
    InvalidState,
    /// A hit inside the horizon or beyond 1000 M.
    InvalidRadius,
    /// A hit with `theta` outside `[0, pi]`.
    InvalidTheta,
    /// Null invariant far in the tail of its order.
    ExtremeNI,
    /// A pixel far from its eight neighbours.
    SpatialDiscontinuity,
    /// Affine parameter far from the median and above 100 M.
    ExtremeAffine,
    /// More windings than 99% of the order.
    ExtremeWraps,
    /// More turning points than 99% of the order.
    RapidTurningPoints,
    /// A rare but valid combination of the constants of motion.
    PhaseSpaceEdgeCase,
    /// Far from the neighbours in deviations, close in value.
    SpatialGradient,
    /// Affine parameter far from the median, below 100 M.
    LongAffine,
    /// `|K| < 1e-12`.
    RoundoffK,
}

impl OutlierCategory {
    pub open spec fn severity_of(self) -> OutlierSeverity {
        match self {
            OutlierCategory::NegativeK
            | OutlierCategory::LargeNullInvariant
            | OutlierCategory::InvalidState
            | OutlierCategory::InvalidRadius
            | OutlierCategory::InvalidTheta => OutlierSeverity::Critical,
            OutlierCategory::ExtremeNI | OutlierCategory::SpatialDiscontinuity => OutlierSeverity::High,
            OutlierCategory::ExtremeAffine
            | OutlierCategory::ExtremeWraps
            | OutlierCategory::RapidTurningPoints => OutlierSeverity::Medium,
            OutlierCategory::PhaseSpaceEdgeCase
            | OutlierCategory::SpatialGradient
            | OutlierCategory::LongAffine
            | OutlierCategory::RoundoffK => OutlierSeverity::Info,
        }
    }

    pub open spec fn label_of(self) -> Seq<char> {
        match self {
            OutlierCategory::NegativeK => "Negative Carter Constant"@,
            OutlierCategory::LargeNullInvariant => "Large Null Invariant Error"@,
            OutlierCategory::InvalidState => "Invalid State (NaN/∞)"@,
            OutlierCategory::InvalidRadius => "Invalid Radius"@,
            OutlierCategory::InvalidTheta => "Invalid Theta"@,
            OutlierCategory::ExtremeNI => "Extreme NI (Statistical)"@,
            OutlierCategory::SpatialDiscontinuity => "Spatial Discontinuity"@,
            OutlierCategory::ExtremeAffine => "Extreme Affine Parameter"@,
            OutlierCategory::ExtremeWraps => "Extreme φ-Wraps"@,
            OutlierCategory::RapidTurningPoints => "Rapid Turning Points"@,
            OutlierCategory::PhaseSpaceEdgeCase => "Phase-Space Edge Case"@,
            OutlierCategory::SpatialGradient => "Smooth Spatial Gradient"@,
            OutlierCategory::LongAffine => "Long Affine Parameter (Outer Disc)"@,
            OutlierCategory::RoundoffK => "K Roundoff (Machine Precision)"@,
        }
    }

    /// How much an outlier of this kind matters.
    pub fn severity(&self) -> (s: OutlierSeverity)
        ensures
            s == self.severity_of(),
    {
        match self {
            OutlierCategory::NegativeK
            | OutlierCategory::LargeNullInvariant
            | OutlierCategory::InvalidState
            | OutlierCategory::InvalidRadius
            | OutlierCategory::InvalidTheta => OutlierSeverity::Critical,
            OutlierCategory::ExtremeNI | OutlierCategory::SpatialDiscontinuity => OutlierSeverity::High,
            OutlierCategory::ExtremeAffine
            | OutlierCategory::ExtremeWraps
            | OutlierCategory::RapidTurningPoints => OutlierSeverity::Medium,
            OutlierCategory::PhaseSpaceEdgeCase
            | OutlierCategory::SpatialGradient
            | OutlierCategory::LongAffine
            | OutlierCategory::RoundoffK => OutlierSeverity::Info,
        }
    }

    /// A name for people to read.
    pub fn label(&self) -> (s: &'static str)
        ensures
            s@ == self.label_of(),
    {
        match self {
            OutlierCategory::NegativeK => "Negative Carter Constant",
            OutlierCategory::LargeNullInvariant => "Large Null Invariant Error",
            OutlierCategory::InvalidState => "Invalid State (NaN/∞)",
            OutlierCategory::InvalidRadius => "Invalid Radius",
            OutlierCategory::InvalidTheta => "Invalid Theta",
            OutlierCategory::ExtremeNI => "Extreme NI (Statistical)",
            OutlierCategory::SpatialDiscontinuity => "Spatial Discontinuity",
            OutlierCategory::ExtremeAffine => "Extreme Affine Parameter",
            OutlierCategory::ExtremeWraps => "Extreme φ-Wraps",
            OutlierCategory::RapidTurningPoints => "Rapid Turning Points",
            OutlierCategory::PhaseSpaceEdgeCase => "Phase-Space Edge Case",
            OutlierCategory::SpatialGradient => "Smooth Spatial Gradient",
            OutlierCategory::LongAffine => "Long Affine Parameter (Outer Disc)",
            OutlierCategory::RoundoffK => "K Roundoff (Machine Precision)",
        }
    }
}

/// An outlier with the pixel and order where it was found.
#[derive(Debug, Clone)]
pub struct Outlier {
    pub pixel_x: u32,
    pub pixel_y: u32,
    pub order: u8,
    pub category: OutlierCategory,
    pub severity: OutlierSeverity,
    /// The value that stands out.
    pub value: Double,
    pub details: String,
}

impl Outlier {
    /// An outlier of a category, with the severity of that category.
    pub fn new(
        pixel_x: u32,
        pixel_y: u32,
        order: u8,
        category: OutlierCategory,
        value: Double,
        details: String,
    ) -> (o: Self)
        ensures
            o.pixel_x == pixel_x,
            o.pixel_y == pixel_y,
            o.order == order,
            o.category == category,
            o.severity == category.severity_of(),
            o.value == value,
            o.details == details,
    {
        Outlier {
            pixel_x,
            pixel_y,
            order,
            severity: category.severity(),
            category,
            value,
            details,
        }
    }
}

} // verus!
