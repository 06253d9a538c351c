use api_response::response::{ApiHttpResponse, ApiStatusVariant};
use api_response::transport::{status_code_text, transport_directive, wire_status_code};

fn empty_array_literal() -> serde_json::Value {
    serde_json::Value::String("[]".to_string())
}

fn label_of(code: u16) -> String {
    ApiStatusVariant::try_from(code)
        .expect("classification is total")
        .to_string()
}

#[test]
fn test_init_response() {
    let response = ApiHttpResponse::default();

    let default_response = ApiHttpResponse {
        code: 200,
        status: String::from("success"),
        message: String::new(),
        data: Some(empty_array_literal()),
        errors: Some(empty_array_literal()),
    };

    assert_eq!(response, default_response)
}

#[test]
fn classification_is_total_and_labels_are_nonempty() {
    for code in 0..=u16::MAX {
        let category = ApiStatusVariant::try_from(code).expect("classification is total");
        assert!(!category.to_string().is_empty());
    }
}

#[test]
fn table_rows_have_their_listed_labels() {
    let table: [(u16, &str); 18] = [
        (200, "success"),
        (400, "bad request"),
        (401, "unauthorized"),
        (403, "forbidden"),
        (404, "not found"),
        (405, "method not allowed"),
        (406, "not acceptable"),
        (408, "request timeout"),
        (409, "conflict"),
        (415, "unsupported media type"),
        (422, "unprocessable content"),
        (429, "too many request"),
        (500, "internal server error"),
        (501, "not implemented"),
        (502, "bad gateway"),
        (503, "service unavailable"),
        (504, "gateway timeout"),
        (999, "unknown error"),
    ];
    for (code, label) in table {
        assert_eq!(label_of(code), label);
    }
}

#[test]
fn unlisted_codes_fall_back_to_unknown_error() {
    for code in [0u16, 100, 201, 204, 301, 302, 402, 407, 410, 418, 505, 600, 999, u16::MAX] {
        let category = ApiStatusVariant::try_from(code).expect("classification is total");
        assert!(matches!(
            category,
            ApiStatusVariant::ResponseError(api_response::response::ErrorResponseCode::UnknownError)
        ));
        assert_eq!(category.to_string(), "unknown error");
    }
}

#[test]
fn independently_constructed_defaults_are_equal() {
    let a = ApiHttpResponse::default();
    let b = ApiHttpResponse::default();
    assert!(a.equals(&b));
    assert_eq!(a, b);
    assert_eq!(a.code, 200);
    assert_eq!(a.status, "success");
    assert_eq!(a.message, "");
    assert_eq!(a.data, Some(empty_array_literal()));
    assert_eq!(a.errors, Some(empty_array_literal()));
}

fn sample_envelope() -> ApiHttpResponse {
    ApiHttpResponse {
        code: 404,
        status: String::from("not found"),
        message: String::from("resource missing"),
        data: Some(serde_json::Value::Array(vec![serde_json::Value::Bool(true)])),
        errors: None,
    }
}

#[test]
fn identical_envelopes_are_equal() {
    assert!(sample_envelope().equals(&sample_envelope()));
    assert_eq!(sample_envelope(), sample_envelope());
}

#[test]
fn changing_any_field_breaks_equality() {
    let base = sample_envelope();

    let mut other = sample_envelope();
    other.code = 400;
    assert!(!base.equals(&other));

    let mut other = sample_envelope();
    other.status = String::from("bad request");
    assert!(!base.equals(&other));

    let mut other = sample_envelope();
    other.message = String::from("other message");
    assert!(!base.equals(&other));

    let mut other = sample_envelope();
    other.data = Some(serde_json::Value::Array(vec![serde_json::Value::Bool(false)]));
    assert!(!base.equals(&other));

    let mut other = sample_envelope();
    other.data = None;
    assert!(!base.equals(&other));

    let mut other = sample_envelope();
    other.errors = Some(serde_json::Value::Null);
    assert!(!base.equals(&other));
}

#[test]
fn transport_directive_for_not_found() {
    let envelope = ApiHttpResponse {
        code: 404,
        status: String::from("not found"),
        message: String::from("resource missing"),
        data: None,
        errors: None,
    };
    let directive = transport_directive(&envelope);
    assert_eq!(directive.wire_code, 404);
    assert_eq!(directive.body_code, 404);
    assert_eq!(directive.status_text, "404");
    assert_eq!(directive.content_type, "application/json");
    assert_eq!(directive.accept, "application/json");
}

#[test]
fn invalid_code_goes_on_the_wire_as_500_but_stays_in_the_body() {
    let envelope = ApiHttpResponse {
        code: 999,
        status: String::from("unknown error"),
        message: String::new(),
        data: None,
        errors: None,
    };
    let directive = transport_directive(&envelope);
    assert_eq!(directive.wire_code, 500);
    assert_eq!(directive.body_code, 999);
    assert_eq!(directive.status_text, "999");
}

#[test]
fn wire_code_substitution_edges() {
    assert_eq!(wire_status_code(99), 500);
    assert_eq!(wire_status_code(100), 100);
    assert_eq!(wire_status_code(200), 200);
    assert_eq!(wire_status_code(599), 599);
    assert_eq!(wire_status_code(600), 500);
    assert_eq!(wire_status_code(0), 500);
    assert_eq!(wire_status_code(u16::MAX), 500);
}

#[test]
fn status_codes_render_in_decimal() {
    assert_eq!(status_code_text(0), "0");
    assert_eq!(status_code_text(7), "7");
    assert_eq!(status_code_text(10), "10");
    assert_eq!(status_code_text(200), "200");
    assert_eq!(status_code_text(404), "404");
    assert_eq!(status_code_text(1000), "1000");
    assert_eq!(status_code_text(u16::MAX), "65535");
}
