use feathered::vector::{Matrix4, Point};

fn pt(x: f32, y: f32, z: f32) -> Point {
    Point::new(x.to_bits(), y.to_bits(), z.to_bits())
}

#[test]
fn dot_of_two_vectors() {
    let r = pt(1.0, 2.0, 3.0).dot(pt(4.0, -5.0, 6.0));
    assert_eq!(f32::from_bits(r), 12.0);
}

#[test]
fn cross_of_axes() {
    assert_eq!(pt(1.0, 0.0, 0.0).cross(pt(0.0, 1.0, 0.0)), pt(0.0, 0.0, 1.0));
}

#[test]
fn difference_of_points() {
    assert_eq!(pt(1.0, 2.0, 3.0).sub(pt(0.5, 4.0, 3.0)), pt(0.5, -2.0, 0.0));
}

#[test]
fn negation_flips_every_sign() {
    assert_eq!(pt(1.0, -2.0, 0.0).neg(), pt(-1.0, 2.0, -0.0));
}

#[test]
fn normalize_scales_to_unit_length() {
    assert_eq!(pt(0.0, 3.0, 4.0).normalize(), pt(0.0, 3.0 * (1.0 / 5.0), 4.0 * (1.0 / 5.0)));
}

#[test]
fn normalize_of_zero_is_canonical_nan() {
    let r = pt(0.0, 0.0, 0.0).normalize();
    assert_eq!(r, Point::new(0x7fc0_0000, 0x7fc0_0000, 0x7fc0_0000));
}

#[test]
fn identity_keeps_a_point() {
    let p = pt(1.5, -2.0, 8.0);
    assert_eq!(Matrix4::identity().transform_point(p), p);
}

#[test]
fn translation_moves_a_point() {
    let mut cols = [0u32; 16];
    cols[0] = 1.0f32.to_bits();
    cols[5] = 1.0f32.to_bits();
    cols[10] = 1.0f32.to_bits();
    cols[12] = 2.0f32.to_bits();
    cols[13] = 3.0f32.to_bits();
    cols[14] = 4.0f32.to_bits();
    cols[15] = 1.0f32.to_bits();
    let m = Matrix4::from_cols_array(cols);
    assert_eq!(m.transform_point(pt(1.0, 1.0, 1.0)), pt(3.0, 4.0, 5.0));
}
