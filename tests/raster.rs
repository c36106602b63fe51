use raytracer::raster::pixel_order;

#[test]
fn pixel_order_rows_top_down_columns_left_right() {
    let r = pixel_order(3, 2);
    assert_eq!(
        r,
        vec![(2, 0), (2, 1), (2, 2), (1, 0), (1, 1), (1, 2), (0, 0), (0, 1), (0, 2)]
    );
}

#[test]
fn pixel_order_zero_width_is_empty() {
    assert!(pixel_order(0, 5).is_empty());
}

#[test]
fn pixel_order_zero_height_is_one_row() {
    assert_eq!(pixel_order(2, 0), vec![(0, 0), (0, 1)]);
}

#[test]
fn pixel_order_length_and_corners() {
    let r = pixel_order(1200, 800);
    assert_eq!(r.len(), 801 * 1200);
    assert_eq!(r[0], (800, 0));
    assert_eq!(r[1199], (800, 1199));
    assert_eq!(r[1200], (799, 0));
    assert_eq!(r[r.len() - 1], (0, 1199));
}
