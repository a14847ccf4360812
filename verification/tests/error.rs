use anime_recommend::error::AppError;
use axum::http::StatusCode;

#[test]
fn notfound() {
    let res = AppError::NotFound("なし".into()).into_response();
    assert_eq!(res.status(), StatusCode::NOT_FOUND.as_u16());
}

#[test]
fn external() {
    let res = AppError::External("api error".into()).into_response();
    assert_eq!(res.status(), StatusCode::INTERNAL_SERVER_ERROR.as_u16());
}

#[test]
fn every_error_status() {
    let cases = vec![
        (AppError::Database("boom".into()), StatusCode::INTERNAL_SERVER_ERROR),
        (AppError::NotFound("a".into()), StatusCode::NOT_FOUND),
        (AppError::BadRequest("b".into()), StatusCode::BAD_REQUEST),
        (AppError::Unauthorized("c".into()), StatusCode::UNAUTHORIZED),
        (AppError::Conflict("d".into()), StatusCode::CONFLICT),
        (AppError::External("e".into()), StatusCode::INTERNAL_SERVER_ERROR),
        (AppError::TooManyRequests("f".into()), StatusCode::TOO_MANY_REQUESTS),
    ];
    for (err, code) in cases {
        assert_eq!(err.status_code(), code.as_u16());
        assert_eq!(err.into_response().status, code.as_u16());
    }
}

#[test]
fn database_error_details_hidden() {
    let res = AppError::Database("connection refused to 10.0.0.5".into()).into_response();
    assert_eq!(res.message, "サーバ内部でエラーが発生しました");
}

#[test]
fn client_error_message_kept() {
    let res = AppError::BadRequest("不正なstatusです".into()).into_response();
    assert_eq!(res.message, "不正なstatusです");
    assert_eq!(res.status, 400);
}
