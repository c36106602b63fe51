use raytracer::ppm::encode_ppm;

#[test]
fn ppm_empty_image_is_header_only() {
    let out = encode_ppm(0, 0, &vec![]);
    assert_eq!(String::from_utf8(out).unwrap(), "P3\n0 0\n255\n");
}

#[test]
fn ppm_pixels_one_per_line_without_trailing_newline() {
    let px = vec![(255, 0, 7), (10, 100, 99)];
    let out = encode_ppm(2, 1, &px);
    assert_eq!(String::from_utf8(out).unwrap(), "P3\n2 1\n255\n255 0 7\n10 100 99");
}

#[test]
fn ppm_single_pixel() {
    let out = encode_ppm(1, 1, &vec![(0, 0, 0)]);
    assert_eq!(String::from_utf8(out).unwrap(), "P3\n1 1\n255\n0 0 0");
}

#[test]
fn ppm_large_dimensions_in_decimal() {
    let out = encode_ppm(1200, 800, &vec![(128, 64, 9)]);
    assert_eq!(String::from_utf8(out).unwrap(), "P3\n1200 800\n255\n128 64 9");
    let big = encode_ppm(usize::MAX, 10, &vec![]);
    let expected = format!("P3\n{} 10\n255\n", usize::MAX);
    assert_eq!(String::from_utf8(big).unwrap(), expected);
}
