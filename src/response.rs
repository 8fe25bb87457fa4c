//! The error taxonomy and the normalizer that turns a response into a result.

use vstd::prelude::*;

verus! {

/// The structured error body that the service returns on failure.
#[derive(Clone, Debug, PartialEq, Eq)]
pub struct DataStoreErrorResponse {
    pub code: String,
    pub message: String,
}

/// The kinds of failure of an operation.
#[derive(Clone, Debug, PartialEq, Eq)]
pub enum ApiError {
    /// The request could not be sent, or no response came back.
    Transport(String),
    /// The service rejected the request with a decodable envelope.
    DataStoreError(DataStoreErrorResponse),
    /// A success response whose body is not the expected payload.
    UndecodableBody,
    /// A failure response whose body is not an error envelope.
    UndecodableErrorResponse { status: u16 },
}

/// Whether a status code is in the success class (2xx).
pub open spec fn success_status(status: u16) -> bool {
    200 <= status && status <= 299
}

/// Whether a status code is in the success class (2xx).
pub fn is_success(status: u16) -> (r: bool)
    ensures
        r == success_status(status),
{
    200 <= status && status <= 299
}

/// The result of an operation with a payload, from the status, the decoded
/// payload (for a success status) and the decoded envelope (for any other).
pub open spec fn outcome_of<T>(
    status: u16,
    payload: Option<T>,
    envelope: Option<DataStoreErrorResponse>,
) -> Result<T, ApiError> {
    if success_status(status) {
        match payload {
            Some(t) => Ok(t),
            None => Err(ApiError::UndecodableBody),
        }
    } else {
        match envelope {
            Some(e) => Err(ApiError::DataStoreError(e)),
            None => Err(ApiError::UndecodableErrorResponse { status }),
        }
    }
}

/// The result of an operation without a payload: a success status is success
/// whatever the body holds.
pub open spec fn unit_outcome_of(status: u16, envelope: Option<DataStoreErrorResponse>) -> Result<
    (),
    ApiError,
> {
    if success_status(status) {
        Ok(())
    } else {
        match envelope {
            Some(e) => Err(ApiError::DataStoreError(e)),
            None => Err(ApiError::UndecodableErrorResponse { status }),
        }
    }
}

/// Normalizes the response of an operation that returns a payload.
/// `payload` is the body decoded as the expected type, `None` where it did not
/// decode; `envelope` is the body decoded as an error envelope, `None` where it
/// did not decode. Only the one that the status class selects is read.
pub fn handle_res<T>(
    status: u16,
    payload: Option<T>,
    envelope: Option<DataStoreErrorResponse>,
) -> (r: Result<T, ApiError>)
    ensures
        r == outcome_of(status, payload, envelope),
{
    if is_success(status) {
        match payload {
            Some(t) => Ok(t),
            None => Err(ApiError::UndecodableBody),
        }
    } else {
        match envelope {
            Some(e) => Err(ApiError::DataStoreError(e)),
            None => Err(ApiError::UndecodableErrorResponse { status }),
        }
    }
}

/// Normalizes the response of an operation without a payload.
pub fn handle_res_ok(status: u16, envelope: Option<DataStoreErrorResponse>) -> (r: Result<(), ApiError>)
    ensures
        r == unit_outcome_of(status, envelope),
{
    if is_success(status) {
        Ok(())
    } else {
        match envelope {
            Some(e) => Err(ApiError::DataStoreError(e)),
            None => Err(ApiError::UndecodableErrorResponse { status }),
        }
    }
}

} // verus!
