use kerr_black_hole::ieee::Double;
use kerr_black_hole::stats::{extract_critical_curve, CriticalCurveRecord, GeodesicRecord, IndexGrid};

struct Sample {
    x: u32,
    y: u32,
    order: u8,
    captured: bool,
}

impl GeodesicRecord for Sample {
    fn order_of(&self) -> u8 {
        self.order
    }
    fn order(&self) -> u8 {
        self.order
    }
    fn null_invariant_error(&self) -> Double {
        Double::from_bits(0)
    }
    fn affine_parameter(&self) -> Double {
        Double::from_bits(0)
    }
    fn redshift_factor(&self) -> Double {
        Double::from_bits(0)
    }
    fn phi_wraps(&self) -> Double {
        Double::from_bits(0)
    }
    fn turns_r(&self) -> u8 {
        0
    }
    fn turns_theta(&self) -> u8 {
        0
    }
}

impl CriticalCurveRecord for Sample {
    fn pixel_x_of(&self) -> u32 {
        self.x
    }
    fn pixel_y_of(&self) -> u32 {
        self.y
    }
    fn captured(&self) -> bool {
        self.captured
    }
    fn pixel_x(&self) -> u32 {
        self.x
    }
    fn pixel_y(&self) -> u32 {
        self.y
    }
    fn is_captured(&self) -> bool {
        self.captured
    }
}

fn image() -> (IndexGrid, Vec<Sample>) {
    // 3 x 3 image, one record per pixel, row by row; the middle column is of
    // order 1, the rest of order 0.
    let mut grid = IndexGrid::new(3, 3);
    let mut records = Vec::new();
    for y in 0..3u32 {
        for x in 0..3u32 {
            grid.set(x, y, records.len());
            records.push(Sample { x, y, order: if x == 1 { 1 } else { 0 }, captured: x == 1 && y == 1 });
        }
    }
    (grid, records)
}

#[test]
fn neighbours_come_in_compass_order() {
    let (grid, records) = image();
    // N, S, W, E, NW, NE, SW, SE of the centre.
    assert_eq!(grid.get_neighbors_8_same_order(1, 1, 1, &records), vec![1, 7]);
    assert_eq!(grid.get_neighbors_8_same_order(1, 1, 0, &records), vec![3, 5, 0, 2, 6, 8]);
    // A corner has three neighbours.
    assert_eq!(grid.get_neighbors_8_same_order(0, 0, 0, &records), vec![3]);
    assert_eq!(grid.get_neighbors_8_same_order(0, 0, 1, &records), vec![1, 4]);
    assert_eq!(grid.get_neighbors_8_same_order(2, 2, 0, &records), vec![5]);
    // Indices beyond the records are left out.
    assert_eq!(grid.get_neighbors_8_same_order(1, 1, 0, &records[..4]), vec![3, 0, 2]);
    // A pixel off the image may still have neighbours on it.
    assert_eq!(grid.get_neighbors_8_same_order(3, 1, 0, &records), vec![5, 2, 8]);
    assert_eq!(grid.get_neighbors_8_same_order(u32::MAX, u32::MAX, 0, &records), vec![]);
}

#[test]
fn critical_curve_of_records_of_another_type() {
    let (_, records) = image();
    assert_eq!(extract_critical_curve(&records, 3, 3), vec![(1, 1)]);
}
