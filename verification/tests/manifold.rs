use manifold3d::manifold::{
    batch_members, batch_plan, circular_segments_or_default, is_empty_from_raw,
    original_id_from_raw, property_channel_or_none, unzip_pairs, BatchPlan, ManifoldOpType,
};
use manifold3d::{
    BooleanOperation, EdgeSplitCount, EdgeSplitCountError, NonNegativeI32, Plane, PositiveI32,
    Rotation,
};

#[test]
fn boolean_operations_have_the_c_api_codes() {
    assert_eq!(ManifoldOpType::from(BooleanOperation::Add), 0);
    assert_eq!(ManifoldOpType::from(BooleanOperation::Subtract), 1);
    assert_eq!(ManifoldOpType::from(BooleanOperation::Intersect), 2);
}

#[test]
fn edge_split_count_accepts_three() {
    let split_count = EdgeSplitCount::new(PositiveI32::new(3).unwrap());
    assert!(split_count.is_ok());
    assert_eq!(split_count.unwrap().get().get(), 3);
}

#[test]
fn edge_split_count_accepts_the_minimum() {
    let split_count = EdgeSplitCount::new(PositiveI32::new(EdgeSplitCount::MINIMUM).unwrap());
    assert_eq!(i32::from(split_count.unwrap()), 2);
}

#[test]
fn edge_split_count_rejects_one() {
    let split_count = EdgeSplitCount::new(PositiveI32::new(1).unwrap());
    assert_eq!(
        split_count.err(),
        Some(EdgeSplitCountError::TooSmall { minimum: 2, actual: 1 })
    );
}

#[test]
fn positive_and_non_negative_bounds() {
    assert!(PositiveI32::new(0).is_none());
    assert!(PositiveI32::new(-4).is_none());
    assert_eq!(PositiveI32::new(i32::MAX).unwrap().get(), i32::MAX);
    assert_eq!(NonNegativeI32::new(0).unwrap().get(), 0);
    assert!(NonNegativeI32::new(-1).is_none());
}

#[test]
fn plane_and_rotation_keep_their_parts() {
    let plane = Plane::new((0.0f64, 1.0f64, 0.0f64));
    assert_eq!(plane.normal, (0.0, 1.0, 0.0));
    let rotation = Rotation::new(0.0f64, 45.0f64, 90.0f64);
    assert_eq!((rotation.x, rotation.y, rotation.z), (0.0, 45.0, 90.0));
}

#[test]
fn circular_segments_default_to_zero() {
    assert_eq!(circular_segments_or_default(None), 0);
    assert_eq!(circular_segments_or_default(Some(PositiveI32::new(32).unwrap())), 32);
}

#[test]
fn property_channel_defaults_to_minus_one() {
    assert_eq!(property_channel_or_none(None), -1);
    assert_eq!(property_channel_or_none(Some(NonNegativeI32::new(0).unwrap())), 0);
    assert_eq!(property_channel_or_none(Some(NonNegativeI32::new(1).unwrap())), 1);
}

#[test]
fn original_id_minus_one_is_none() {
    assert_eq!(original_id_from_raw(-1), None);
    assert_eq!(original_id_from_raw(0), Some(0));
    assert_eq!(original_id_from_raw(17), Some(17));
}

#[test]
fn empty_flag_is_one() {
    assert!(is_empty_from_raw(1));
    assert!(!is_empty_from_raw(0));
}

#[test]
fn batch_plan_copies_when_alone() {
    assert_eq!(batch_plan(0), BatchPlan::CopyOfSelf);
    assert_eq!(batch_plan(4), BatchPlan::Combine { count: 5 });
}

#[test]
fn batch_members_put_self_first() {
    assert_eq!(batch_members(10, &[20, 30, 40, 50]), vec![10, 20, 30, 40, 50]);
    assert_eq!(batch_members('a', &[]), vec!['a']);
}

#[test]
fn unzip_pairs_keeps_lockstep() {
    let (indices, smoothness) = unzip_pairs(&vec![(0usize, 0.5f64), (1, 1.0), (7, 0.0)]);
    assert_eq!(indices, vec![0, 1, 7]);
    assert_eq!(smoothness, vec![0.5, 1.0, 0.0]);
    let (no_indices, no_values) = unzip_pairs::<usize, f64>(&vec![]);
    assert!(no_indices.is_empty() && no_values.is_empty());
}
