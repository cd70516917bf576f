use dke_sim::lin_math::find_value_from_lut;
use dke_sim::lin_math::linear_interpolate;

fn three_point_table() -> Vec<(i64, i64)> {
    vec![(0, 1), (10, 2), (20, 4)]
}

#[test]
fn find_value_clamps_below_minimum() {
    let lut = three_point_table();
    assert_eq!(find_value_from_lut(&lut, -1000), 1);
}

#[test]
fn find_value_clamps_above_maximum() {
    let lut = three_point_table();
    assert_eq!(find_value_from_lut(&lut, 1000), 4);
}

#[test]
fn find_value_at_boundary_keys() {
    let lut = three_point_table();
    assert_eq!(find_value_from_lut(&lut, 0), 1);
    assert_eq!(find_value_from_lut(&lut, 20), 4);
}

#[test]
fn find_value_interpolates_between_keys() {
    let lut = three_point_table();
    assert_eq!(find_value_from_lut(&lut, 15), 3);
    assert_eq!(find_value_from_lut(&lut, 10), 2);
    // 1 + 5 * (2 - 1) / 10 rounds the exact 1.5 down
    assert_eq!(find_value_from_lut(&lut, 5), 1);
}

#[test]
fn find_value_empty_table_is_zero() {
    let lut: Vec<(i64, i64)> = Vec::new();
    assert_eq!(find_value_from_lut(&lut, 7), 0);
}

#[test]
fn find_value_single_point_table() {
    let lut = vec![(5, 7)];
    assert_eq!(find_value_from_lut(&lut, 4), 7);
    assert_eq!(find_value_from_lut(&lut, 5), 7);
    assert_eq!(find_value_from_lut(&lut, 6), 7);
}

#[test]
fn linear_interpolate_exact_values() {
    assert_eq!(linear_interpolate(15, 10, 20, 2, 4), 3);
    assert_eq!(linear_interpolate(12, 10, 20, 0, 5), 1);
    assert_eq!(linear_interpolate(10, 10, 20, 2, 4), 2);
    assert_eq!(linear_interpolate(20, 10, 20, 2, 4), 4);
}

#[test]
fn linear_interpolate_descending_values() {
    // 4 + 5 * (2 - 4) / 10 rounds the exact 3.0 to 3
    assert_eq!(linear_interpolate(5, 0, 10, 4, 2), 3);
    // 4 + 3 * (2 - 4) / 10 rounds the exact 3.4 down to 3
    assert_eq!(linear_interpolate(3, 0, 10, 4, 2), 3);
}
