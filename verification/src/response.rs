//! The response envelope and the status-code classification: a total mapping
//! from numeric HTTP status codes to a category variant and a canonical
//! lowercase label, and the envelope value that carries a response to the
//! transport layer.

use vstd::prelude::*;

use crate::json_payload::{json_text, json_text_of, value_eq};

verus! {

/// The standardized response value: a status label, the numeric code, a
/// free-text message, and optional JSON payload and error detail.
///
/// `status` is advisory: it should equal the canonical label of `code`
/// (`spec_label(spec_classify(code))`), but callers may override it, so the
/// type does not enforce that. `code` is not range-checked. An absent payload
/// (`None`) is distinct from an empty one.
#[derive(Debug, PartialEq, Eq)]
pub struct ApiHttpResponse {
    pub status: String,
    pub code: u16,
    pub message: String,
    pub data: Option<serde_json::Value>,
    pub errors: Option<serde_json::Value>,
}

impl ApiHttpResponse {
    /// Structural equality over all five fields, payload contents included.
    pub open spec fn spec_eq(&self, other: &ApiHttpResponse) -> bool {
        &&& self.status@ == other.status@
        &&& self.code == other.code
        &&& self.message@ == other.message@
        &&& self.data == other.data
        &&& self.errors == other.errors
    }

    /// Two envelopes are equal exactly when every field matches: same label,
    /// same code, same message, and the same payload and error contents.
    pub fn equals(&self, other: &ApiHttpResponse) -> (r: bool)
        ensures
            r == self.spec_eq(other),
    {
        let data_eq: bool = match (&self.data, &other.data) {
            (Some(a), Some(b)) => value_eq(a, b),
            (None, None) => true,
            _ => false,
        };
        let errors_eq: bool = match (&self.errors, &other.errors) {
            (Some(a), Some(b)) => value_eq(a, b),
            (None, None) => true,
            _ => false,
        };
        self.status == other.status && self.code == other.code
            && self.message == other.message && data_eq && errors_eq
    }
}

impl Default for ApiHttpResponse {
    /// The "empty success" envelope: code 200, label "success", no message,
    /// and both payload fields set to the literal placeholder text `"[]"` (a
    /// JSON string token, deliberately neither a real empty array nor
    /// absence).
    fn default() -> (r: Self)
        ensures
            r.code == 200,
            r.status@ == "success"@,
            r.message@ == Seq::<char>::empty(),
            r.data == Some(json_text_of("[]"@)),
            r.errors == Some(json_text_of("[]"@)),
    {
        ApiHttpResponse {
            code: 200,
            status: String::from_str("success"),
            message: String::new(),
            data: Some(json_text("[]")),
            errors: Some(json_text("[]")),
        }
    }
}

/// Category of an API response, derived from its numeric status code.
///
/// New reason variants may be added over time, so callers outside this crate
/// must match with a catch-all arm.
#[non_exhaustive]
pub enum ApiStatusVariant {
    ResponseOk,
    ResponseFailed(FailedResponseCode),
    ResponseError(ErrorResponseCode),
}

/// Client-side (4xx) failure reasons.
#[non_exhaustive]
pub enum FailedResponseCode {
    BadRequest,
    Unauthorized,
    Forbidden,
    NotFound,
    MethodNotAllowed,
    NotAcceptable,
    RequestTimeout,
    Conflict,
    UnsupportedMediaType,
    UnprocessableContent,
    TooManyRequest,
}

/// Server-side (5xx) error reasons, plus the catch-all for any code the
/// classification table does not list.
#[non_exhaustive]
pub enum ErrorResponseCode {
    InternalServerError,
    NotImplemented,
    BadGateway,
    ServiceUnavailable,
    GatewayTimeout,
    UnknownError,
}

/// The classification table: which codes have a row of their own. Every other
/// code falls through to `ErrorResponseCode::UnknownError`.
pub open spec fn is_listed_code(code: u16) -> bool {
    ||| code == 200
    ||| code == 400
    ||| code == 401
    ||| code == 403
    ||| code == 404
    ||| code == 405
    ||| code == 406
    ||| code == 408
    ||| code == 409
    ||| code == 415
    ||| code == 422
    ||| code == 429
    ||| code == 500
    ||| code == 501
    ||| code == 502
    ||| code == 503
    ||| code == 504
}

/// Total classification of a numeric status code: exactly one category for
/// every `u16`, with `UnknownError` for every code outside the table.
pub open spec fn spec_classify(code: u16) -> ApiStatusVariant {
    if code == 200 {
        ApiStatusVariant::ResponseOk
    } else if code == 400 {
        ApiStatusVariant::ResponseFailed(FailedResponseCode::BadRequest)
    } else if code == 401 {
        ApiStatusVariant::ResponseFailed(FailedResponseCode::Unauthorized)
    } else if code == 403 {
        ApiStatusVariant::ResponseFailed(FailedResponseCode::Forbidden)
    } else if code == 404 {
        ApiStatusVariant::ResponseFailed(FailedResponseCode::NotFound)
    } else if code == 405 {
        ApiStatusVariant::ResponseFailed(FailedResponseCode::MethodNotAllowed)
    } else if code == 406 {
        ApiStatusVariant::ResponseFailed(FailedResponseCode::NotAcceptable)
    } else if code == 408 {
        ApiStatusVariant::ResponseFailed(FailedResponseCode::RequestTimeout)
    } else if code == 409 {
        ApiStatusVariant::ResponseFailed(FailedResponseCode::Conflict)
    } else if code == 415 {
        ApiStatusVariant::ResponseFailed(FailedResponseCode::UnsupportedMediaType)
    } else if code == 422 {
        ApiStatusVariant::ResponseFailed(FailedResponseCode::UnprocessableContent)
    } else if code == 429 {
        ApiStatusVariant::ResponseFailed(FailedResponseCode::TooManyRequest)
    } else if code == 500 {
        ApiStatusVariant::ResponseError(ErrorResponseCode::InternalServerError)
    } else if code == 501 {
        ApiStatusVariant::ResponseError(ErrorResponseCode::NotImplemented)
    } else if code == 502 {
        ApiStatusVariant::ResponseError(ErrorResponseCode::BadGateway)
    } else if code == 503 {
        ApiStatusVariant::ResponseError(ErrorResponseCode::ServiceUnavailable)
    } else if code == 504 {
        ApiStatusVariant::ResponseError(ErrorResponseCode::GatewayTimeout)
    } else {
        ApiStatusVariant::ResponseError(ErrorResponseCode::UnknownError)
    }
}

/// The canonical lowercase, space-separated label of a category.
pub open spec fn spec_label(v: ApiStatusVariant) -> Seq<char> {
    match v {
        ApiStatusVariant::ResponseOk => "success"@,
        ApiStatusVariant::ResponseFailed(f) => match f {
            FailedResponseCode::BadRequest => "bad request"@,
            FailedResponseCode::Unauthorized => "unauthorized"@,
            FailedResponseCode::Forbidden => "forbidden"@,
            FailedResponseCode::NotFound => "not found"@,
            FailedResponseCode::MethodNotAllowed => "method not allowed"@,
            FailedResponseCode::NotAcceptable => "not acceptable"@,
            FailedResponseCode::RequestTimeout => "request timeout"@,
            FailedResponseCode::Conflict => "conflict"@,
            FailedResponseCode::UnsupportedMediaType => "unsupported media type"@,
            FailedResponseCode::UnprocessableContent => "unprocessable content"@,
            FailedResponseCode::TooManyRequest => "too many request"@,
        },
        ApiStatusVariant::ResponseError(e) => match e {
            ErrorResponseCode::InternalServerError => "internal server error"@,
            ErrorResponseCode::NotImplemented => "not implemented"@,
            ErrorResponseCode::BadGateway => "bad gateway"@,
            ErrorResponseCode::ServiceUnavailable => "service unavailable"@,
            ErrorResponseCode::GatewayTimeout => "gateway timeout"@,
            ErrorResponseCode::UnknownError => "unknown error"@,
        },
    }
}

impl ApiStatusVariant {
    /// Classifies a numeric status code. Total: every `u16` yields `Ok` of
    /// exactly one category, and no input is ever refused.
    pub fn try_from(status: u16) -> (r: Result<ApiStatusVariant, ()>)
        ensures
            r == Ok::<ApiStatusVariant, ()>(spec_classify(status)),
    {
        match status {
            200 => Ok(ApiStatusVariant::ResponseOk),
            400 => Ok(ApiStatusVariant::ResponseFailed(FailedResponseCode::BadRequest)),
            401 => Ok(ApiStatusVariant::ResponseFailed(FailedResponseCode::Unauthorized)),
            403 => Ok(ApiStatusVariant::ResponseFailed(FailedResponseCode::Forbidden)),
            404 => Ok(ApiStatusVariant::ResponseFailed(FailedResponseCode::NotFound)),
            405 => Ok(ApiStatusVariant::ResponseFailed(FailedResponseCode::MethodNotAllowed)),
            406 => Ok(ApiStatusVariant::ResponseFailed(FailedResponseCode::NotAcceptable)),
            408 => Ok(ApiStatusVariant::ResponseFailed(FailedResponseCode::RequestTimeout)),
            409 => Ok(ApiStatusVariant::ResponseFailed(FailedResponseCode::Conflict)),
            415 => Ok(ApiStatusVariant::ResponseFailed(FailedResponseCode::UnsupportedMediaType)),
            422 => Ok(ApiStatusVariant::ResponseFailed(FailedResponseCode::UnprocessableContent)),
            429 => Ok(ApiStatusVariant::ResponseFailed(FailedResponseCode::TooManyRequest)),
            500 => Ok(ApiStatusVariant::ResponseError(ErrorResponseCode::InternalServerError)),
            501 => Ok(ApiStatusVariant::ResponseError(ErrorResponseCode::NotImplemented)),
            502 => Ok(ApiStatusVariant::ResponseError(ErrorResponseCode::BadGateway)),
            503 => Ok(ApiStatusVariant::ResponseError(ErrorResponseCode::ServiceUnavailable)),
            504 => Ok(ApiStatusVariant::ResponseError(ErrorResponseCode::GatewayTimeout)),
            _ => Ok(ApiStatusVariant::ResponseError(ErrorResponseCode::UnknownError)),
        }
    }

    /// The canonical label of this category, as an owned string.
    pub fn to_string(&self) -> (s: String)
        ensures
            s@ == spec_label(*self),
    {
        match self {
            ApiStatusVariant::ResponseOk => String::from_str("success"),
            ApiStatusVariant::ResponseFailed(f) => match f {
                FailedResponseCode::BadRequest => String::from_str("bad request"),
                FailedResponseCode::Unauthorized => String::from_str("unauthorized"),
                FailedResponseCode::Forbidden => String::from_str("forbidden"),
                FailedResponseCode::NotFound => String::from_str("not found"),
                FailedResponseCode::MethodNotAllowed => String::from_str("method not allowed"),
                FailedResponseCode::NotAcceptable => String::from_str("not acceptable"),
                FailedResponseCode::RequestTimeout => String::from_str("request timeout"),
                FailedResponseCode::Conflict => String::from_str("conflict"),
                FailedResponseCode::UnsupportedMediaType => {
                    String::from_str("unsupported media type")
                },
                FailedResponseCode::UnprocessableContent => {
                    String::from_str("unprocessable content")
                },
                FailedResponseCode::TooManyRequest => String::from_str("too many request"),
            },
            ApiStatusVariant::ResponseError(e) => match e {
                ErrorResponseCode::InternalServerError => String::from_str("internal server error"),
                ErrorResponseCode::NotImplemented => String::from_str("not implemented"),
                ErrorResponseCode::BadGateway => String::from_str("bad gateway"),
                ErrorResponseCode::ServiceUnavailable => String::from_str("service unavailable"),
                ErrorResponseCode::GatewayTimeout => String::from_str("gateway timeout"),
                ErrorResponseCode::UnknownError => String::from_str("unknown error"),
            },
        }
    }
}

/// Classification is total and every label is a non-empty string: for every
/// `u16` code there is exactly one category, and its label has characters.
pub proof fn lemma_classification_total(code: u16)
    ensures
        spec_label(spec_classify(code)).len() > 0,
{
    lemma_label_nonempty(spec_classify(code));
}

/// Every category's canonical label is a non-empty string.
pub proof fn lemma_label_nonempty(v: ApiStatusVariant)
    ensures
        spec_label(v).len() > 0,
{
    reveal_strlit("success");
    reveal_strlit("bad request");
    reveal_strlit("unauthorized");
    reveal_strlit("forbidden");
    reveal_strlit("not found");
    reveal_strlit("method not allowed");
    reveal_strlit("not acceptable");
    reveal_strlit("request timeout");
    reveal_strlit("conflict");
    reveal_strlit("unsupported media type");
    reveal_strlit("unprocessable content");
    reveal_strlit("too many request");
    reveal_strlit("internal server error");
    reveal_strlit("not implemented");
    reveal_strlit("bad gateway");
    reveal_strlit("service unavailable");
    reveal_strlit("gateway timeout");
    reveal_strlit("unknown error");
}

/// Fallback: every code without a row in the classification table, 2xx and
/// 3xx codes included, classifies as `UnknownError` with label
/// "unknown error".
pub proof fn lemma_unlisted_code_fallback(code: u16)
    requires
        !is_listed_code(code),
    ensures
        spec_classify(code) == ApiStatusVariant::ResponseError(ErrorResponseCode::UnknownError),
        spec_label(spec_classify(code)) == "unknown error"@,
{
}

} // verus!
