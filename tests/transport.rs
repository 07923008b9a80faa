use poly_rc::transport::{decode_outcome, request_url, triage_response};
use poly_rc::{ApiError, HttpError, Retryable, StatusCode, TransportFault};

fn fault() -> TransportFault {
    TransportFault {
        status: None,
        url: Some("https://example.test/book".to_string()),
        is_decode: false,
        is_timeout: false,
        is_connect: false,
        message: "boom".to_string(),
        detail: "Boom { kind: Request }".to_string(),
    }
}

#[test]
fn url_is_base_followed_by_path() {
    assert_eq!(
        request_url("https://clob.example", Some("/book")),
        "https://clob.example/book"
    );
    assert_eq!(request_url("https://clob.example", None), "https://clob.example");
    assert_eq!(request_url("https://clob.example", Some("")), "https://clob.example");
}

#[test]
fn not_found_is_http_error_with_body() {
    let r = triage_response(
        StatusCode { code: 404 },
        "https://clob.example/book?token_id=1".to_string(),
        Ok("not found".to_string()),
    );
    match r {
        Err(ApiError::Http(e)) => {
            assert_eq!(e.status, 404);
            assert_eq!(e.body, "not found");
            assert_eq!(e.url, Some("https://clob.example/book?token_id=1".to_string()));
        }
        other => panic!("expected an HTTP error, got {:?}", other),
    }
}

#[test]
fn server_error_with_unreadable_body_is_still_http() {
    let mut f = fault();
    f.is_decode = true;
    let r = triage_response(StatusCode { code: 503 }, "u".to_string(), Err(f));
    match r {
        Err(ApiError::Http(e)) => {
            assert_eq!(e.status, 503);
            assert_eq!(e.body, "");
        }
        other => panic!("expected an HTTP error, got {:?}", other),
    }
}

#[test]
fn success_hands_back_body() {
    let r = triage_response(StatusCode { code: 200 }, "u".to_string(), Ok("{}".to_string()));
    assert_eq!(r, Ok("{}".to_string()));
    let r = triage_response(StatusCode { code: 399 }, "u".to_string(), Ok("x".to_string()));
    assert_eq!(r, Ok("x".to_string()));
    let r = triage_response(StatusCode { code: 600 }, "u".to_string(), Ok("y".to_string()));
    assert_eq!(r, Ok("y".to_string()));
}

#[test]
fn connection_failure_is_unexpected() {
    let mut f = fault();
    f.is_connect = true;
    assert_eq!(
        ApiError::from_fault(f.clone()),
        ApiError::Unexpected("Connection error".to_string())
    );
    let r = triage_response(StatusCode { code: 200 }, "u".to_string(), Err(f));
    assert_eq!(r, Err(ApiError::Unexpected("Connection error".to_string())));
}

#[test]
fn fault_classification() {
    let mut timeout = fault();
    timeout.is_timeout = true;
    timeout.is_connect = true;
    assert_eq!(
        ApiError::from_fault(timeout),
        ApiError::Unexpected("Request timeout".to_string())
    );

    let mut decode = fault();
    decode.is_decode = true;
    decode.is_timeout = true;
    assert_eq!(
        ApiError::from_fault(decode),
        ApiError::Decode("Response decoding error: Boom { kind: Request }".to_string())
    );

    assert_eq!(
        ApiError::from_fault(fault()),
        ApiError::Unexpected("Request error".to_string())
    );

    let mut with_status = fault();
    with_status.status = Some(429);
    with_status.is_decode = true;
    assert_eq!(
        ApiError::from_fault(with_status),
        ApiError::Http(HttpError {
            status: 429,
            url: Some("https://example.test/book".to_string()),
            body: "boom".to_string(),
        })
    );
}

#[test]
fn http_error_from_fault_defaults_to_internal_server_error() {
    let e = HttpError::from_fault(fault());
    assert_eq!(e.status, 500);
    assert_eq!(e.body, "boom");
    let mut f = fault();
    f.status = Some(418);
    assert_eq!(HttpError::from_fault(f).status, 418);
}

#[test]
fn invalid_json_after_success_is_decode_error() {
    let body = triage_response(
        StatusCode { code: 200 },
        "u".to_string(),
        Ok("not json".to_string()),
    )
    .unwrap();
    let parsed: Result<serde_json::Value, String> =
        serde_json::from_str(&body).map_err(|e| e.to_string());
    let message = parsed.as_ref().err().unwrap().clone();
    let r = decode_outcome(parsed);
    match r {
        Err(ApiError::Decode(m)) => {
            assert_eq!(m, format!("JSON decode error: {}", message));
        }
        other => panic!("expected a decode error, got {:?}", other),
    }
    assert_eq!(decode_outcome::<u8>(Ok(3)), Ok(3));
}

#[test]
fn conversions_into_api_error() {
    let e = HttpError {
        status: 400,
        url: None,
        body: "Test".to_string(),
    };
    assert_eq!(ApiError::from(e.clone()), ApiError::Http(e));
    assert_eq!(
        ApiError::from("x".to_string()),
        ApiError::Unexpected("x".to_string())
    );
    assert_eq!(
        ApiError::json_decode("eof"),
        ApiError::Decode("JSON decode error: eof".to_string())
    );
}

#[test]
fn retryable_statuses() {
    for code in [429u16, 500, 502, 503, 504] {
        assert!(StatusCode { code }.is_retryable());
    }
    for code in [200u16, 400, 404, 501, 505] {
        assert!(!StatusCode { code }.is_retryable());
    }
    assert_eq!(StatusCode { code: 404 }.retry_delay(), Some(10));
    assert!(StatusCode { code: 404 }.is_client_error());
    assert!(StatusCode { code: 599 }.is_server_error());
    assert!(!StatusCode { code: 600 }.is_server_error());
}

#[test]
fn retryable_faults() {
    let mut f = fault();
    assert!(!f.is_retryable());
    f.is_timeout = true;
    assert!(f.is_retryable());
    let mut g = fault();
    g.is_connect = true;
    assert!(g.is_retryable());
    assert_eq!(g.retry_delay(), Some(10));
}
