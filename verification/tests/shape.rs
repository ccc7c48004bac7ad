use mnn_tensor::shape::normalize;
use mnn_tensor::shape::AsTensorShape;
use mnn_tensor::shape::TensorShape;
use mnn_tensor::sys;

#[test]
fn as_tensor_shape_test_vec() {
    let small = vec![1, 2, 3].as_tensor_shape();
    assert_eq!(small.as_slice(), &[1, 2, 3]);
    let large = vec![12, 23, 34, 45, 67].as_tensor_shape();
    assert_eq!(large.as_slice(), &[12, 23, 34, 45]);
}

#[test]
fn as_tensor_shape_test_array() {
    let small = [1, 2, 3].as_tensor_shape();
    assert_eq!(small.as_slice(), &[1, 2, 3]);
    let large = [12, 23, 34, 45, 67].as_tensor_shape();
    assert_eq!(large.as_slice(), &[12, 23, 34, 45]);
}

#[test]
fn as_tensor_shape_test_ref() {
    let small: TensorShape = (&[1, 2, 3]).as_tensor_shape();
    assert_eq!(small.as_slice(), &[1, 2, 3]);
    let large: TensorShape = (&[12, 23, 34, 45, 67]).as_tensor_shape();
    assert_eq!(large.as_slice(), &[12, 23, 34, 45]);
}

#[test]
fn normalize_keeps_a_short_sequence_whole() {
    let empty: [i32; 0] = [];
    assert_eq!(normalize(&empty).len(), 0);
    assert_eq!(normalize(&[7]).as_slice(), &[7]);
    assert_eq!(normalize(&[7, 8, 9, 10]).as_slice(), &[7, 8, 9, 10]);
}

#[test]
fn normalize_drops_what_follows_the_fourth_entry() {
    let shape = normalize(&[1, 2, 3, 4, 5, 6, 7]);
    assert_eq!(shape.len(), 4);
    assert_eq!(shape.as_slice(), &[1, 2, 3, 4]);
}

#[test]
fn padding_is_stored_and_not_counted() {
    let shape = normalize(&[5, 6]);
    assert_eq!(shape.len(), 2);
    let record = sys::TensorShape::from(shape);
    assert_eq!(record.size, 2);
    assert_eq!(record.shape, [5, 6, 1, 1]);
}

#[test]
fn a_shape_normalizes_to_itself() {
    let shape = normalize(&[3, -1, 4]);
    let again = shape.as_tensor_shape();
    assert_eq!(again.as_slice(), shape.as_slice());
    assert_eq!(sys::TensorShape::from(again).shape, sys::TensorShape::from(shape).shape);
}

#[test]
fn shape_derefs_and_indexes_over_its_rank() {
    let shape = normalize(&[2, 3, 4]);
    let slice: &[i32] = &shape;
    assert_eq!(slice, &[2, 3, 4]);
    assert_eq!(shape[0], 2);
    assert_eq!(shape[2], 4);
    assert_eq!(shape.iter().copied().sum::<i32>(), 9);
}

#[test]
fn set_replaces_one_extent() {
    let mut shape = normalize(&[2, 3, 4]);
    shape.set(1, 30);
    assert_eq!(shape.as_slice(), &[2, 30, 4]);
    assert_eq!(shape.len(), 3);
}

#[test]
fn dynamic_marker_is_found() {
    assert!(normalize(&[1, -1, 3]).has_dynamic());
    assert!(!normalize(&[1, 2, 3]).has_dynamic());
    assert!(!normalize(&[1, 2, 3, 4, -1]).has_dynamic());
}

#[test]
fn record_of_more_than_four_is_read_as_four() {
    let record = sys::TensorShape { shape: [9, 8, 7, 6], size: 11 };
    let shape = TensorShape::from(record);
    assert_eq!(shape.as_slice(), &[9, 8, 7, 6]);
    let short = sys::TensorShape { shape: [9, 8, 7, 6], size: 2 };
    let shape = TensorShape::from(short);
    assert_eq!(shape.as_slice(), &[9, 8]);
    assert_eq!(sys::TensorShape::from(shape).shape, [9, 8, 1, 1]);
}

#[test]
fn element_count_is_the_product_of_the_extents() {
    assert_eq!(sys::count_elements(&sys::TensorShape::from(normalize(&[1, 2, 3]))), 6);
    assert_eq!(sys::count_elements(&sys::TensorShape::from(normalize(&[]))), 1);
    assert_eq!(sys::count_elements(&sys::TensorShape::from(normalize(&[4, -1, 3]))), 0);
    assert_eq!(sys::count_elements(&sys::TensorShape::from(normalize(&[2, 3, 4, 5, 100]))), 120);
    let huge = sys::count_elements(&sys::TensorShape::from(normalize(&[i32::MAX; 4])));
    assert_eq!(huge, 2147483647u128 * 2147483647 * 2147483647 * 2147483647);
}
