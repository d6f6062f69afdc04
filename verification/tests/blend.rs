use cntour::blend::{check_layer_count, gradient_neighbor_indices, is_supported_blend, LayerCountError};
use cntour::values::BlendType;

#[test]
fn layer_counts_between_one_and_sixteen() {
    assert_eq!(check_layer_count(0), Err(LayerCountError::OutOfRange));
    assert_eq!(check_layer_count(1), Ok(()));
    assert_eq!(check_layer_count(16), Ok(()));
    assert_eq!(check_layer_count(17), Err(LayerCountError::OutOfRange));
}

#[test]
fn gradient_neighbours_inside() {
    // 4 x 3 image, pixel (1, 1) at position 5
    assert_eq!(gradient_neighbor_indices(1, 1, 4, 3), [6, 4, 9, 1]);
}

#[test]
fn gradient_neighbours_held_at_borders() {
    assert_eq!(gradient_neighbor_indices(0, 0, 4, 3), [1, 0, 4, 0]);
    assert_eq!(gradient_neighbor_indices(3, 2, 4, 3), [11, 10, 11, 7]);
    assert_eq!(gradient_neighbor_indices(0, 0, 1, 1), [0, 0, 0, 0]);
}

#[test]
fn screen_blend_has_no_rule() {
    assert!(is_supported_blend(BlendType::Linear));
    assert!(is_supported_blend(BlendType::Gradient));
    assert!(!is_supported_blend(BlendType::Screen));
}
