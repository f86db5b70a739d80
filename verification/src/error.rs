use vstd::prelude::*;

verus! {

/// A status code as reported by the C API of the manifold library.
pub type RawError = u32;

/// The outcome of a manifold operation, decoded from its status code.
#[derive(Debug, Clone, Copy, PartialEq, Eq, Structural)]
#[non_exhaustive]
pub enum Error {
    NoError,
    NonFiniteVertex,
    NotManifold,
    VertexIndexOutOfBounds,
    PropertiesWrongLength,
    MissingPositionProperties,
    MergeVectorsDifferentLengths,
    MergeIndexOutOfBounds,
    TransformWrongLength,
    RunIndexWrongLength,
    FaceIdWrongLength,
    InvalidConstruction,
    Unknown(RawError),
}

/// The error that a status code stands for.
pub open spec fn error_of_code(code: RawError) -> Error {
    if code == 0 {
        Error::NoError
    } else if code == 1 {
        Error::NonFiniteVertex
    } else if code == 2 {
        Error::NotManifold
    } else if code == 3 {
        Error::VertexIndexOutOfBounds
    } else if code == 4 {
        Error::PropertiesWrongLength
    } else if code == 5 {
        Error::MissingPositionProperties
    } else if code == 6 {
        Error::MergeVectorsDifferentLengths
    } else if code == 7 {
        Error::MergeIndexOutOfBounds
    } else if code == 8 {
        Error::TransformWrongLength
    } else if code == 9 {
        Error::RunIndexWrongLength
    } else if code == 10 {
        Error::FaceIdWrongLength
    } else if code == 11 {
        Error::InvalidConstruction
    } else {
        Error::Unknown(code)
    }
}

impl From<RawError> for Error {
    /// Decodes a status code of the manifold library.
    fn from(value: RawError) -> (e: Error)
        ensures
            value == 0 <==> e == Error::NoError,
            value == 1 <==> e == Error::NonFiniteVertex,
            value == 2 <==> e == Error::NotManifold,
            value == 3 <==> e == Error::VertexIndexOutOfBounds,
            value == 4 <==> e == Error::PropertiesWrongLength,
            value == 5 <==> e == Error::MissingPositionProperties,
            value == 6 <==> e == Error::MergeVectorsDifferentLengths,
            value == 7 <==> e == Error::MergeIndexOutOfBounds,
            value == 8 <==> e == Error::TransformWrongLength,
            value == 9 <==> e == Error::RunIndexWrongLength,
            value == 10 <==> e == Error::FaceIdWrongLength,
            value == 11 <==> e == Error::InvalidConstruction,
            value > 11 <==> e == Error::Unknown(value),
    {
        match value {
            0 => Error::NoError,
            1 => Error::NonFiniteVertex,
            2 => Error::NotManifold,
            3 => Error::VertexIndexOutOfBounds,
            4 => Error::PropertiesWrongLength,
            5 => Error::MissingPositionProperties,
            6 => Error::MergeVectorsDifferentLengths,
            7 => Error::MergeIndexOutOfBounds,
            8 => Error::TransformWrongLength,
            9 => Error::RunIndexWrongLength,
            10 => Error::FaceIdWrongLength,
            11 => Error::InvalidConstruction,
            value => Error::Unknown(value),
        }
    }
}

impl vstd::std_specs::convert::FromSpecImpl<RawError> for Error {
    open spec fn obeys_from_spec() -> bool {
        true
    }

    open spec fn from_spec(v: RawError) -> Error {
        error_of_code(v)
    }
}

/// Tells a failing status code from a successful one.
pub trait ManifoldErrorExt {
    fn is_error(&self) -> bool;
}

impl ManifoldErrorExt for RawError {
    fn is_error(&self) -> (r: bool)
        ensures
            r == (*self != 0),
    {
        *self != 0
    }
}

/// What `check_error` gives back for a value whose last operation reported `status`.
pub open spec fn checked<T>(value: T, status: RawError) -> Result<T, Error> {
    if status == 0 {
        Ok(value)
    } else {
        Err(error_of_code(status))
    }
}

/// What `last_operation_status` reports for `status`.
pub open spec fn reported_status(status: RawError) -> Option<Error> {
    if status != 0 {
        Some(error_of_code(status))
    } else {
        None
    }
}

/// Hands `value` back when its last operation succeeded, and the decoded
/// error of that operation otherwise.
pub fn check_error<T>(value: T, status: RawError) -> (r: Result<T, Error>)
    ensures
        r == checked(value, status),
        r is Ok <==> status == 0,
        r matches Ok(v) ==> v == value,
        r matches Err(e) ==> e == error_of_code(status) && e != Error::NoError,
{
    match Error::from(status) {
        Error::NoError => Ok(value),
        e => Err(e),
    }
}

/// The error of the last operation, if it failed.
pub fn last_operation_status(status: RawError) -> (r: Option<Error>)
    ensures
        r == reported_status(status),
        r is None <==> status == 0,
        r matches Some(e) ==> e == error_of_code(status) && e != Error::NoError,
{
    if status.is_error() {
        Some(Error::from(status))
    } else {
        None
    }
}

/// Only the status code zero decodes to `Error::NoError`.
pub proof fn lemma_no_error_iff_zero(code: RawError)
    ensures
        (error_of_code(code) == Error::NoError) <==> code == 0,
{
}

/// Every failing status code makes `check_error` fail with the error that the
/// code stands for, and never with `NoError`; only status zero lets the value
/// through, unchanged.
pub proof fn lemma_check_error_fails_on_every_failure<T>(value: T, status: RawError)
    ensures
        status == 0 ==> checked(value, status) == Ok::<T, Error>(value),
        status != 0 ==> checked(value, status) == Err::<T, Error>(error_of_code(status)),
        status != 0 ==> error_of_code(status) != Error::NoError,
        reported_status(status) is None <==> status == 0,
        status != 0 ==> reported_status(status) == Some(error_of_code(status)),
{
}

/// The codes of the C API decode to their named errors; every code past the
/// last named one is kept as `Unknown`.
pub proof fn lemma_known_and_unknown_codes(code: RawError)
    ensures
        code == 0 <==> error_of_code(code) == Error::NoError,
        code == 1 <==> error_of_code(code) == Error::NonFiniteVertex,
        code == 2 <==> error_of_code(code) == Error::NotManifold,
        code == 3 <==> error_of_code(code) == Error::VertexIndexOutOfBounds,
        code == 4 <==> error_of_code(code) == Error::PropertiesWrongLength,
        code == 5 <==> error_of_code(code) == Error::MissingPositionProperties,
        code == 6 <==> error_of_code(code) == Error::MergeVectorsDifferentLengths,
        code == 7 <==> error_of_code(code) == Error::MergeIndexOutOfBounds,
        code == 8 <==> error_of_code(code) == Error::TransformWrongLength,
        code == 9 <==> error_of_code(code) == Error::RunIndexWrongLength,
        code == 10 <==> error_of_code(code) == Error::FaceIdWrongLength,
        code == 11 <==> error_of_code(code) == Error::InvalidConstruction,
        code > 11 <==> error_of_code(code) == Error::Unknown(code),
{
}

/// Two different status codes never decode to the same error: decoding loses
/// nothing, unknown codes included.
pub proof fn lemma_decoding_injective(a: RawError, b: RawError)
    ensures
        error_of_code(a) == error_of_code(b) ==> a == b,
{
}

/// `check_error` fails exactly when `last_operation_status` reports an error,
/// and with that same error.
pub proof fn lemma_check_agrees_with_status<T>(value: T, status: RawError)
    ensures
        checked(value, status) is Ok <==> reported_status(status) is None,
        checked(value, status) is Ok ==> checked(value, status) == Ok::<T, Error>(value),
        forall|e: Error|
            checked(value, status) == Err::<T, Error>(e) <==> reported_status(status) == Some(e),
{
}

} // verus!
