use chroma_distance::errors::DistanceFunctionError;
use chroma_distance::evaluator::check_dimensions;

#[test]
fn unequal_lengths_are_a_dimension_mismatch() {
    let a: [f32; 3] = [1.0, 2.0, 3.0];
    let b: [f32; 2] = [1.0, 2.0];
    assert!(matches!(
        check_dimensions(&a, &b),
        Err(DistanceFunctionError::DimensionMismatch)
    ));
    assert!(matches!(
        check_dimensions(&b, &a),
        Err(DistanceFunctionError::DimensionMismatch)
    ));
}

#[test]
fn equal_lengths_may_be_compared() {
    let a: [f32; 2] = [0.0, 0.0];
    let b: [f32; 2] = [3.0, 4.0];
    assert!(check_dimensions(&a, &b).is_ok());
}

#[test]
fn empty_vectors_may_be_compared() {
    let a: [f32; 0] = [];
    assert!(check_dimensions(&a, &a).is_ok());
    let b: [f32; 1] = [1.0];
    assert!(check_dimensions(&a, &b).is_err());
}
