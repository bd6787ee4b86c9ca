use screen_ocr::api::{ApiError, ApiStatus};

#[test]
fn each_error_answers_with_its_status_code() {
    let cases = [
        (ApiError::bad_request("a".to_string()), ApiStatus::BadRequest, 400),
        (ApiError::unauthorized("b".to_string()), ApiStatus::Unauthorized, 401),
        (ApiError::conflict("c".to_string()), ApiStatus::Conflict, 409),
        (ApiError::internal("d".to_string()), ApiStatus::InternalServerError, 500),
        (ApiError::bad_gateway("e".to_string()), ApiStatus::BadGateway, 502),
    ];
    for (error, status, code) in cases {
        assert_eq!(error.status, status);
        assert_eq!(status.code(), code);
        let message = error.message.clone();
        let (answered, body) = error.into_response();
        assert_eq!(answered, code);
        assert_eq!(body.error, message);
    }
}
