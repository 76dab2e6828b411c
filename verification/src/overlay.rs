//! The chart of where the outliers of an image lie.
use crate::charts::{block_count, blocks};
use crate::stats::{Outlier, OutlierSeverity};
use crate::text::{decimal, decimal_text, digit_text};
use vstd::prelude::*;
use vstd::string::StringExecFns;

verus! {

/// A cell of the chart: a block of pixels with the number of its outliers and
/// the gravest of their severities.
#[derive(Debug, Clone, Copy, PartialEq, Eq, Structural)]
pub struct OverlayCell {
    pub gx: u32,
    pub gy: u32,
    pub count: usize,
    pub severity: OutlierSeverity,
}

/// The first of the first `n` cells that stands at `(gx, gy)`.
pub open spec fn find_cell(cells: Seq<OverlayCell>, gx: u32, gy: u32, n: int) -> Option<int>
    decreases n,
{
    if n <= 0 {
        None
    } else {
        match find_cell(cells, gx, gy, n - 1) {
            Some(i) => Some(i),
            None => if cells[n - 1].gx == gx && cells[n - 1].gy == gy {
                Some(n - 1)
            } else {
                None
            },
        }
    }
}

/// The graver of two severities.
pub open spec fn graver(a: OutlierSeverity, b: OutlierSeverity) -> OutlierSeverity {
    if b.rank_of() > a.rank_of() {
        b
    } else {
        a
    }
}

/// The cells after one more outlier of the block `(gx, gy)`: its cell counts
/// one more and takes the outlier's severity if that is graver; a block
/// without a cell gets one at the end.
pub open spec fn with_outlier(
    cells: Seq<OverlayCell>,
    gx: u32,
    gy: u32,
    severity: OutlierSeverity,
) -> Seq<OverlayCell> {
    match find_cell(cells, gx, gy, cells.len() as int) {
        Some(i) => cells.update(
            i,
            OverlayCell {
                gx,
                gy,
                count: (cells[i].count + 1) as usize,
                severity: graver(cells[i].severity, severity),
            },
        ),
        None => cells.push(OverlayCell { gx, gy, count: 1, severity }),
    }
}

/// The cells of the first `n` outliers of an image cut into blocks of
/// `factor` pixels a side, in the order in which their blocks first occur.
/// Outliers outside the image are left out.
pub open spec fn overlay_cells(
    outliers: Seq<Outlier>,
    image_width: u32,
    image_height: u32,
    factor: u32,
    n: int,
) -> Seq<OverlayCell>
    decreases n,
{
    if n <= 0 {
        Seq::empty()
    } else {
        let before = overlay_cells(outliers, image_width, image_height, factor, n - 1);
        let o = outliers[n - 1];
        let gx = (o.pixel_x / factor) as u32;
        let gy = (o.pixel_y / factor) as u32;
        if gx < blocks(image_width, factor) && gy < blocks(image_height, factor) {
            with_outlier(before, gx, gy, o.severity)
        } else {
            before
        }
    }
}

fn position_of(cells: &Vec<OverlayCell>, gx: u32, gy: u32) -> (found: Option<usize>)
    ensures
        match found {
            Some(i) => i < cells@.len() && find_cell(cells@, gx, gy, cells@.len() as int) == Some(
                i as int,
            ),
            None => find_cell(cells@, gx, gy, cells@.len() as int).is_none(),
        },
{
    let n = cells.len();
    let mut i: usize = 0;
    while i < n
        invariant
            i <= n,
            n == cells@.len(),
            find_cell(cells@, gx, gy, i as int).is_none(),
        decreases n - i,
    {
        if cells[i].gx == gx && cells[i].gy == gy {
            proof {
                lemma_found_stays(cells@, gx, gy, i + 1, n as int);
            }
            return Some(i);
        }
        i = i + 1;
    }
    None
}

/// A cell found among the first `a` cells is the one found among the first
/// `b`.
proof fn lemma_found_stays(cells: Seq<OverlayCell>, gx: u32, gy: u32, a: int, b: int)
    requires
        a <= b,
        find_cell(cells, gx, gy, a).is_some(),
    ensures
        find_cell(cells, gx, gy, b) == find_cell(cells, gx, gy, a),
    decreases b - a,
{
    if a < b {
        lemma_found_stays(cells, gx, gy, a, b - 1);
    }
}

/// Gathers the outliers of an image into the cells of its chart.
pub fn collect_overlay_cells(
    outliers: &[Outlier],
    image_width: u32,
    image_height: u32,
    downsample_factor: u32,
) -> (cells: Vec<OverlayCell>)
    requires
        downsample_factor > 0,
    ensures
        cells@ == overlay_cells(
            outliers@,
            image_width,
            image_height,
            downsample_factor,
            outliers@.len() as int,
        ),
{
    let grid_w: u32 = block_count(image_width, downsample_factor);
    let grid_h: u32 = block_count(image_height, downsample_factor);
    let mut cells: Vec<OverlayCell> = Vec::new();
    let n = outliers.len();
    let mut k: usize = 0;
    while k < n
        invariant
            k <= n,
            n == outliers@.len(),
            downsample_factor > 0,
            grid_w == blocks(image_width, downsample_factor),
            grid_h == blocks(image_height, downsample_factor),
            cells@ == overlay_cells(
                outliers@,
                image_width,
                image_height,
                downsample_factor,
                k as int,
            ),
            forall|i: int| 0 <= i < cells@.len() ==> (#[trigger] cells@[i]).count <= k,
        decreases n - k,
    {
        let outlier = &outliers[k];
        let gx: u32 = outlier.pixel_x / downsample_factor;
        let gy: u32 = outlier.pixel_y / downsample_factor;
        if gx < grid_w && gy < grid_h {
            match position_of(&cells, gx, gy) {
                Some(i) => {
                    let old_cell = cells[i];
                    let severity = if outlier.severity.exceeds(&old_cell.severity) {
                        outlier.severity
                    } else {
                        old_cell.severity
                    };
                    cells[i] = OverlayCell { gx, gy, count: old_cell.count + 1, severity };
                },
                None => {
                    cells.push(OverlayCell { gx, gy, count: 1, severity: outlier.severity });
                },
            }
        }
        k = k + 1;
    }
    cells
}

/// How opaque a cell is drawn, with two decimals: a tenth per outlier, at
/// least 0.30 and at most 1.00.
pub open spec fn opacity_text(count: usize) -> Seq<char> {
    if count >= 10 {
        "1.00"@
    } else if count <= 3 {
        "0.30"@
    } else {
        "0."@ + digit_text(count as int) + "0"@
    }
}

fn opacity(count: usize) -> (s: String)
    ensures
        s@ == opacity_text(count),
{
    if count >= 10 {
        String::from_str("1.00")
    } else if count <= 3 {
        String::from_str("0.30")
    } else {
        proof {
            crate::text::lemma_digit_characters(count as int);
        }
        String::from_str("0.").concat(decimal(count as u64).as_str()).concat("0")
    }
}

/// The rectangle of a cell: two units a side, in the colour of its severity.
pub open spec fn cell_text(cell: OverlayCell) -> Seq<char> {
    "<rect x=\""@ + decimal_text(cell.gx * 2) + "\" y=\""@ + decimal_text(50 + cell.gy * 2)
        + "\" width=\"2\" height=\"2\" fill=\""@ + cell.severity.color_of() + "\" opacity=\""@
        + opacity_text(cell.count) + "\"/>"@
}

fn write_cell(cell: &OverlayCell) -> (s: String)
    ensures
        s@ == cell_text(*cell),
{
    let x: u64 = (cell.gx as u64) * 2;
    let y: u64 = 50 + (cell.gy as u64) * 2;
    String::from_str("<rect x=\"").concat(decimal(x).as_str()).concat("\" y=\"").concat(
        decimal(y).as_str(),
    ).concat("\" width=\"2\" height=\"2\" fill=\"").concat(cell.severity.color()).concat(
        "\" opacity=\"",
    ).concat(opacity(cell.count).as_str()).concat("\"/>")
}

/// The rectangles of the first `n` cells.
pub open spec fn cells_text(cells: Seq<OverlayCell>, n: int) -> Seq<char>
    decreases n,
{
    if n <= 0 {
        Seq::empty()
    } else {
        cells_text(cells, n - 1) + cell_text(cells[n - 1])
    }
}

/// The legend line of a severity, with its colour swatch, at height `y`.
pub open spec fn legend_text(legend_x: int, y: int, severity: OutlierSeverity) -> Seq<char> {
    "<rect x=\""@ + decimal_text(legend_x) + "\" y=\""@ + decimal_text(y - 10)
        + "\" width=\"12\" height=\"12\" fill=\""@ + severity.color_of() + "\"/>"@ + "<text x=\""@
        + decimal_text(legend_x + 16) + "\" y=\""@ + decimal_text(y)
        + "\" class=\"outlier-legend\">"@ + severity.label_of() + "</text>"@
}

fn write_legend(legend_x: u64, y: u64, severity: OutlierSeverity) -> (s: String)
    requires
        legend_x <= 0x3_0000_0000,
        10 <= y <= 1000,
    ensures
        s@ == legend_text(legend_x as int, y as int, severity),
{
    String::from_str("<rect x=\"").concat(decimal(legend_x).as_str()).concat("\" y=\"").concat(
        decimal(y - 10).as_str(),
    ).concat("\" width=\"12\" height=\"12\" fill=\"").concat(severity.color()).concat(
        "\"/>",
    ).concat("<text x=\"").concat(decimal(legend_x + 16).as_str()).concat("\" y=\"").concat(
        decimal(y).as_str(),
    ).concat("\" class=\"outlier-legend\">").concat(severity.label()).concat("</text>")
}

/// What stands before the cells: the frame of the drawing, its style, the
/// title, and the line that counts outliers and cells.
pub open spec fn overlay_head(width: int, height: int, outliers: int, regions: int) -> Seq<char> {
    "<svg xmlns=\"http://www.w3.org/2000/svg\" viewBox=\"0 0 "@ + decimal_text(width) + " "@
        + decimal_text(height) + "\" width=\""@ + decimal_text(width) + "\" height=\""@
        + decimal_text(height)
        + "\">\n<style>\n  .outlier-title { font: bold 14px sans-serif; fill: #1f2937; }\n  .outlier-label { font: 11px sans-serif; fill: #6b7280; }\n  .outlier-legend { font: 10px sans-serif; fill: #374151; }\n</style>\n<rect width=\"100%\" height=\"100%\" fill=\"#f9fafb\" />\n"@
        + "<text x=\""@ + decimal_text(width / 2)
        + "\" y=\"20\" text-anchor=\"middle\" class=\"outlier-title\">Outlier Spatial Distribution</text>"@
        + "<text x=\""@ + decimal_text(width / 2)
        + "\" y=\"38\" text-anchor=\"middle\" class=\"outlier-label\">"@ + decimal_text(outliers)
        + " outliers detected across "@ + decimal_text(regions) + " regions</text>"@
}

fn write_head(width: u64, height: u64, outliers: usize, regions: usize) -> (s: String)
    ensures
        s@ == overlay_head(width as int, height as int, outliers as int, regions as int),
{
    String::from_str("<svg xmlns=\"http://www.w3.org/2000/svg\" viewBox=\"0 0 ").concat(
        decimal(width).as_str(),
    ).concat(" ").concat(decimal(height).as_str()).concat("\" width=\"").concat(
        decimal(width).as_str(),
    ).concat("\" height=\"").concat(decimal(height).as_str()).concat(
        "\">\n<style>\n  .outlier-title { font: bold 14px sans-serif; fill: #1f2937; }\n  .outlier-label { font: 11px sans-serif; fill: #6b7280; }\n  .outlier-legend { font: 10px sans-serif; fill: #374151; }\n</style>\n<rect width=\"100%\" height=\"100%\" fill=\"#f9fafb\" />\n",
    ).concat("<text x=\"").concat(decimal(width / 2).as_str()).concat(
        "\" y=\"20\" text-anchor=\"middle\" class=\"outlier-title\">Outlier Spatial Distribution</text>",
    ).concat("<text x=\"").concat(decimal(width / 2).as_str()).concat(
        "\" y=\"38\" text-anchor=\"middle\" class=\"outlier-label\">",
    ).concat(decimal(outliers as u64).as_str()).concat(" outliers detected across ").concat(
        decimal(regions as u64).as_str(),
    ).concat(" regions</text>")
}

/// What stands after the cells: the legend of severities and of density.
pub open spec fn overlay_tail(legend_x: int) -> Seq<char> {
    "<text x=\""@ + decimal_text(legend_x)
        + "\" y=\"60\" class=\"outlier-legend\" font-weight=\"bold\">Severity:</text>"@
        + legend_text(legend_x, 80, OutlierSeverity::Critical) + legend_text(
        legend_x,
        100,
        OutlierSeverity::High,
    ) + legend_text(legend_x, 120, OutlierSeverity::Medium) + legend_text(
        legend_x,
        140,
        OutlierSeverity::Info,
    ) + "<text x=\""@ + decimal_text(legend_x)
        + "\" y=\"180\" class=\"outlier-legend\" font-weight=\"bold\">Density:</text>"@
        + "<text x=\""@ + decimal_text(legend_x)
        + "\" y=\"195\" class=\"outlier-legend\">darker = more outliers</text>"@ + "</svg>"@
}

fn write_tail(legend_x: u64) -> (s: String)
    requires
        legend_x <= 0x3_0000_0000,
    ensures
        s@ == overlay_tail(legend_x as int),
{
    String::from_str("<text x=\"").concat(decimal(legend_x).as_str()).concat(
        "\" y=\"60\" class=\"outlier-legend\" font-weight=\"bold\">Severity:</text>",
    ).concat(write_legend(legend_x, 80, OutlierSeverity::Critical).as_str()).concat(
        write_legend(legend_x, 100, OutlierSeverity::High).as_str(),
    ).concat(write_legend(legend_x, 120, OutlierSeverity::Medium).as_str()).concat(
        write_legend(legend_x, 140, OutlierSeverity::Info).as_str(),
    ).concat("<text x=\"").concat(decimal(legend_x).as_str()).concat(
        "\" y=\"180\" class=\"outlier-legend\" font-weight=\"bold\">Density:</text>",
    ).concat("<text x=\"").concat(decimal(legend_x).as_str()).concat(
        "\" y=\"195\" class=\"outlier-legend\">darker = more outliers</text>",
    ).concat("</svg>")
}

/// The chart of the outliers of an image, as SVG: a drawing two units wide
/// and high per block, 100 units wider for the legend and 60 higher for the
/// title; one rectangle per cell; then the legend.
pub open spec fn overlay_svg(
    cells: Seq<OverlayCell>,
    outliers: int,
    image_width: u32,
    image_height: u32,
    factor: u32,
) -> Seq<char> {
    let svg_w = blocks(image_width, factor) * 2;
    let svg_h = blocks(image_height, factor) * 2;
    overlay_head(svg_w + 100, svg_h + 60, outliers, cells.len() as int) + cells_text(
        cells,
        cells.len() as int,
    ) + overlay_tail(svg_w + 10)
}

/// Draws where the outliers of an image lie: the image is cut into blocks of
/// `downsample_factor` pixels a side, and each block with an outlier is drawn
/// in the colour of its gravest outlier, the more opaque the more outliers it
/// has. The blocks are drawn in the order in which their first outliers come.
pub fn generate_outlier_overlay_svg(
    outliers: &[Outlier],
    image_width: u32,
    image_height: u32,
    downsample_factor: u32,
) -> (svg: String)
    requires
        downsample_factor > 0,
    ensures
        svg@ == overlay_svg(
            overlay_cells(
                outliers@,
                image_width,
                image_height,
                downsample_factor,
                outliers@.len() as int,
            ),
            outliers@.len() as int,
            image_width,
            image_height,
            downsample_factor,
        ),
{
    let cells = collect_overlay_cells(outliers, image_width, image_height, downsample_factor);
    let grid_w: u32 = block_count(image_width, downsample_factor);
    let grid_h: u32 = block_count(image_height, downsample_factor);
    let svg_w: u64 = (grid_w as u64) * 2;
    let svg_h: u64 = (grid_h as u64) * 2;
    let mut svg = write_head(svg_w + 100, svg_h + 60, outliers.len(), cells.len());
    let ghost head = svg@;
    let n = cells.len();
    let mut i: usize = 0;
    while i < n
        invariant
            i <= n,
            n == cells@.len(),
            svg@ == head + cells_text(cells@, i as int),
        decreases n - i,
    {
        let rect = write_cell(&cells[i]);
        svg.append(rect.as_str());
        assert(svg@ =~= head + cells_text(cells@, i + 1));
        i = i + 1;
    }
    svg.append(write_tail(svg_w + 10).as_str());
    svg
}

} // verus!
