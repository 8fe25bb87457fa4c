use ordered_datastore::response::{
    handle_res, handle_res_ok, is_success, ApiError, DataStoreErrorResponse,
};

fn not_found() -> DataStoreErrorResponse {
    DataStoreErrorResponse {
        code: "NOT_FOUND".to_string(),
        message: "Entry not found.".to_string(),
    }
}

#[test]
fn success_class_bounds() {
    assert!(!is_success(199));
    assert!(is_success(200));
    assert!(is_success(204));
    assert!(is_success(299));
    assert!(!is_success(300));
    assert!(!is_success(404));
}

#[test]
fn failure_with_envelope_is_service_error() {
    let r: Result<u32, ApiError> = handle_res(404, None, Some(not_found()));
    assert_eq!(r, Err(ApiError::DataStoreError(not_found())));
    match r {
        Err(ApiError::DataStoreError(e)) => {
            assert_eq!(e.code, "NOT_FOUND");
            assert_eq!(e.message, "Entry not found.");
        }
        _ => panic!("expected a service error"),
    }
}

#[test]
fn failure_without_envelope_is_undecodable() {
    let r: Result<u32, ApiError> = handle_res(500, Some(1), None);
    assert_eq!(r, Err(ApiError::UndecodableErrorResponse { status: 500 }));
}

#[test]
fn success_with_payload_is_ok() {
    let r: Result<u32, ApiError> = handle_res(200, Some(42), Some(not_found()));
    assert_eq!(r, Ok(42));
}

#[test]
fn success_without_payload_is_undecodable_body() {
    let r: Result<u32, ApiError> = handle_res(200, None, None);
    assert_eq!(r, Err(ApiError::UndecodableBody));
}

#[test]
fn unit_success_needs_no_body() {
    assert_eq!(handle_res_ok(204, None), Ok(()));
    assert_eq!(handle_res_ok(200, None), Ok(()));
}

#[test]
fn unit_failure_carries_envelope() {
    assert_eq!(handle_res_ok(409, Some(not_found())), Err(ApiError::DataStoreError(not_found())));
    assert_eq!(handle_res_ok(503, None), Err(ApiError::UndecodableErrorResponse { status: 503 }));
}
