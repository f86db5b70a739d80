use vstd::prelude::*;

use crate::types::{NonNegativeI32, PositiveI32};

verus! {

/// The code by which the C API of the manifold library names a Boolean operation.
pub type ManifoldOpType = u32;

/// Represents a boolean operation that can be performed on a manifold.
#[derive(Debug, Clone, Copy, PartialEq, Eq, Structural)]
pub enum BooleanOperation {
    /// Represents a union or addition operation.
    Add,
    /// Represents a subtraction operation.
    Subtract,
    /// Represents an intersection operation.
    Intersect,
}

/// The operation code of the C API for `op`.
pub open spec fn op_type_code(op: BooleanOperation) -> ManifoldOpType {
    match op {
        BooleanOperation::Add => 0,
        BooleanOperation::Subtract => 1,
        BooleanOperation::Intersect => 2,
    }
}

impl From<BooleanOperation> for ManifoldOpType {
    fn from(val: BooleanOperation) -> (r: ManifoldOpType)
        ensures
            val == BooleanOperation::Add <==> r == 0,
            val == BooleanOperation::Subtract <==> r == 1,
            val == BooleanOperation::Intersect <==> r == 2,
    {
        match val {
            BooleanOperation::Add => 0,
            BooleanOperation::Subtract => 1,
            BooleanOperation::Intersect => 2,
        }
    }
}

impl vstd::std_specs::convert::FromSpecImpl<BooleanOperation> for ManifoldOpType {
    open spec fn obeys_from_spec() -> bool {
        true
    }

    open spec fn from_spec(v: BooleanOperation) -> ManifoldOpType {
        op_type_code(v)
    }
}

/// Each Boolean operation has an operation code of its own.
pub proof fn lemma_op_codes_distinct(a: BooleanOperation, b: BooleanOperation)
    ensures
        op_type_code(a) == op_type_code(b) <==> a == b,
        op_type_code(a) < 3,
        a == BooleanOperation::Add <==> op_type_code(a) == 0,
        a == BooleanOperation::Subtract <==> op_type_code(a) == 1,
        a == BooleanOperation::Intersect <==> op_type_code(a) == 2,
{
}

/// An error when creating an [EdgeSplitCount].
#[derive(Debug, Clone, Copy, PartialEq, Eq, Structural)]
pub enum EdgeSplitCountError {
    /// The provided edge split count is smaller than `minimum`.
    TooSmall { minimum: i32, actual: i32 },
}

/// A positive number of pieces that every edge is split into, at least
/// [EdgeSplitCount::MINIMUM].
#[derive(Debug, Clone, Copy)]
pub struct EdgeSplitCount(PositiveI32);

impl View for EdgeSplitCount {
    type V = int;

    closed spec fn view(&self) -> int {
        self.0@
    }
}

impl EdgeSplitCount {
    /// The smallest edge split count.
    pub const MINIMUM: i32 = 2;

    #[verifier::type_invariant]
    spec fn at_least_minimum(self) -> bool {
        self.0@ >= Self::MINIMUM
    }

    /// Creates a new [EdgeSplitCount] if `num` is at least the minimum split
    /// count, and reports how far it falls short otherwise.
    pub fn new(num: PositiveI32) -> (r: Result<EdgeSplitCount, EdgeSplitCountError>)
        ensures
            r is Ok <==> num@ >= Self::MINIMUM,
            r matches Ok(c) ==> c@ == num@,
            r matches Err(e) ==> e == (EdgeSplitCountError::TooSmall {
                minimum: Self::MINIMUM,
                actual: num@ as i32,
            }),
    {
        let actual = num.get();
        if actual < EdgeSplitCount::MINIMUM {
            return Err(EdgeSplitCountError::TooSmall { minimum: EdgeSplitCount::MINIMUM, actual });
        }
        Ok(EdgeSplitCount(num))
    }

    /// Returns the split count.
    pub fn get(&self) -> (r: PositiveI32)
        ensures
            r@ == self@,
            r@ >= Self::MINIMUM,
    {
        proof {
            use_type_invariant(self);
        }
        self.0
    }
}

impl From<EdgeSplitCount> for i32 {
    fn from(val: EdgeSplitCount) -> (r: i32)
        ensures
            r == val@,
            r >= EdgeSplitCount::MINIMUM,
    {
        val.get().get()
    }
}

impl vstd::std_specs::convert::FromSpecImpl<EdgeSplitCount> for i32 {
    open spec fn obeys_from_spec() -> bool {
        true
    }

    open spec fn from_spec(v: EdgeSplitCount) -> i32 {
        v@ as i32
    }
}

/// Converting an edge split count to `i32` gives back the count it was built
/// from.
pub proof fn lemma_edge_split_count_into_i32(c: EdgeSplitCount)
    ensures
        <i32 as vstd::std_specs::convert::FromSpec<EdgeSplitCount>>::from_spec(c) == c@,
{
    c.0.lemma_fits_i32();
}

/// Represents a plane in 3D space, by its normal vector.
pub struct Plane<V> {
    /// The normal vector of the plane.
    pub normal: V,
}

impl<V> Plane<V> {
    /// Creates a new [Plane] from a given normal vector.
    #[must_use]
    pub fn new(normal: V) -> (r: Plane<V>)
        ensures
            r.normal == normal,
    {
        Plane { normal }
    }
}

/// Represents a rotation in 3D space, by its angles around the three axes.
pub struct Rotation<A> {
    /// The rotation around the x-axis.
    pub x: A,
    /// The rotation around the y-axis.
    pub y: A,
    /// The rotation around the z-axis.
    pub z: A,
}

impl<A> Rotation<A> {
    /// Creates a new [Rotation] with the given x, y, and z rotations.
    #[must_use]
    pub fn new(x: A, y: A, z: A) -> (r: Rotation<A>)
        ensures
            r.x == x,
            r.y == y,
            r.z == z,
    {
        Rotation { x, y, z }
    }
}

/// The segment count handed to the library for a circular shape: zero, which
/// makes the library use its global quality defaults, where none is given.
pub fn circular_segments_or_default(circular_segments: Option<PositiveI32>) -> (r: i32)
    ensures
        circular_segments is None ==> r == 0,
        circular_segments matches Some(c) ==> r == c@,
        r == 0 <==> circular_segments is None,
{
    match circular_segments {
        None => 0,
        Some(c) => c.get(),
    }
}

/// The property channel handed to the library for an optional channel index:
/// `-1`, which stores nothing, where none is given.
pub fn property_channel_or_none(index: Option<NonNegativeI32>) -> (r: i32)
    ensures
        index is None ==> r == -1,
        index matches Some(i) ==> r == i@,
        r == -1 <==> index is None,
{
    match index {
        None => -1,
        Some(value) => value.get(),
    }
}

/// The original ID that the library reports, where `-1` means that the mesh
/// is not an original.
pub fn original_id_from_raw(id: i32) -> (r: Option<i32>)
    ensures
        r == (if id == -1 { None } else { Some(id) }),
{
    if id == -1 {
        None
    } else {
        Some(id)
    }
}

/// Whether the library's emptiness flag says "empty".
pub fn is_empty_from_raw(flag: i32) -> (r: bool)
    ensures
        r == (flag == 1),
{
    flag == 1
}

/// How a batch operation over a manifold and `others` proceeds.
#[derive(Debug, Clone, Copy, PartialEq, Eq, Structural)]
pub enum BatchPlan {
    /// There are no others: the result is a copy of the manifold itself.
    CopyOfSelf,
    /// The manifold and the others, `count` in all, go to the library together.
    Combine { count: usize },
}

/// Decides how a batch operation over a manifold and `others_len` others
/// proceeds.
pub fn batch_plan(others_len: usize) -> (r: BatchPlan)
    requires
        others_len < usize::MAX,
    ensures
        others_len == 0 ==> r == BatchPlan::CopyOfSelf,
        others_len > 0 ==> r == (BatchPlan::Combine { count: (others_len + 1) as usize }),
{
    if others_len == 0 {
        BatchPlan::CopyOfSelf
    } else {
        BatchPlan::Combine { count: others_len + 1 }
    }
}

/// The members of a batch in the order the library receives them: `first`
/// at index zero, then each of `others` in order.
pub fn batch_members<T: Copy>(first: T, others: &[T]) -> (r: Vec<T>)
    requires
        others@.len() < usize::MAX,
    ensures
        r@ == seq![first] + others@,
{
    let mut members: Vec<T> = Vec::new();
    members.push(first);
    let n = others.len();
    let mut i: usize = 0;
    while i < n
        invariant
            n == others@.len(),
            i <= n,
            members@ == seq![first] + others@.take(i as int),
        decreases n - i,
    {
        members.push(others[i]);
        assert(others@.take(i as int + 1) == others@.take(i as int).push(others@[i as int]));
        i = i + 1;
    }
    assert(others@.take(n as int) == others@);
    members
}

/// Splits (half-edge index, value) pairs into an array of indices and an
/// array of values, kept in lockstep.
pub fn unzip_pairs<I: Copy, S: Copy>(pairs: &Vec<(I, S)>) -> (r: (Vec<I>, Vec<S>))
    ensures
        r.0@.len() == pairs@.len(),
        r.1@.len() == pairs@.len(),
        forall|k: int| 0 <= k < pairs@.len() ==> r.0@[k] == pairs@[k].0 && r.1@[k] == pairs@[k].1,
{
    let mut indices: Vec<I> = Vec::new();
    let mut values: Vec<S> = Vec::new();
    let n = pairs.len();
    let mut i: usize = 0;
    while i < n
        invariant
            n == pairs@.len(),
            i <= n,
            indices@.len() == i,
            values@.len() == i,
            forall|k: int| 0 <= k < i ==> indices@[k] == pairs@[k].0 && values@[k] == pairs@[k].1,
        decreases n - i,
    {
        let (index, value) = pairs[i];
        indices.push(index);
        values.push(value);
        i = i + 1;
    }
    (indices, values)
}

} // verus!
