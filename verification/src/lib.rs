//! Verified decision logic of a safe wrapper around the manifold mesh
//! library: decoding of its status codes, its operation codes, validated
//! parameters, and how batch operations and optional arguments are handed to
//! the library.

pub mod error;
pub mod manifold;
pub mod types;

pub use error::{check_error, last_operation_status, Error, ManifoldErrorExt, RawError};
pub use manifold::{BooleanOperation, EdgeSplitCount, EdgeSplitCountError, Plane, Rotation};
pub use types::{NonNegativeI32, PositiveI32};
