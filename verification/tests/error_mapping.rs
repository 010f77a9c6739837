use video_search::errors::{error_response_of, fallback_error_response, AppError};

#[test]
fn status_codes_by_variant() {
    assert_eq!(AppError::NotFound.status_code(), 404);
    assert_eq!(AppError::Forbidden.status_code(), 403);
    assert_eq!(AppError::Unexpected.status_code(), 500);
}

#[test]
fn error_types_by_variant() {
    assert_eq!(AppError::NotFound.error_type(), "not_found");
    assert_eq!(AppError::Forbidden.error_type(), "forbidden");
    assert_eq!(AppError::Unexpected.error_type(), "internal_server_error");
}

#[test]
fn messages_by_variant() {
    assert_eq!(AppError::NotFound.message(), "The requested item was not found.");
    assert_eq!(AppError::Forbidden.message(), "You are forbidden to access this resource.");
    assert_eq!(AppError::Unexpected.message(), "An unexpected error occurred.");
}

#[test]
fn response_payload_of_a_recognized_error() {
    let r = error_response_of(&AppError::NotFound);
    assert_eq!(r.error_code, 404);
    assert_eq!(r.error_message, "The requested item was not found.");
    assert_eq!(r.time_stamp, "not_found");
}

#[test]
fn response_payload_of_an_unrecognized_error() {
    let r = fallback_error_response();
    assert_eq!(r.error_code, 500);
    assert_eq!(r.error_message, "An unexpected internal server error occurred.");
    assert_eq!(r.time_stamp, "internal_server_error");
}
