//! The error body every failing endpoint answers with: a message, and for
//! validation failures the per-field reasons.

use vstd::prelude::*;

use crate::validate::FieldErrors;

verus! {

/// The per-field reasons of a validation failure, as carried in an error
/// body.
#[derive(Clone, Debug, PartialEq, Eq)]
pub struct ResponseErrorObject {
    pub fields: Option<FieldErrors>,
}

/// The JSON shape of an error response: a message, and optionally a
/// structured error object.
#[derive(Clone, Debug, PartialEq, Eq)]
pub struct ApiErrorResponse {
    pub message: String,
    pub error: Option<ResponseErrorObject>,
}

impl ApiErrorResponse {
    /// A bare message with no structured detail.
    pub fn from(v: &str) -> (r: ApiErrorResponse)
        ensures
            r.message@ == v@,
            r.error is None,
    {
        ApiErrorResponse { message: v.to_owned(), error: None }
    }

    /// The body of a validation failure: the fixed message and all the
    /// per-field reasons.
    pub fn from_field_errors(fields: FieldErrors) -> (r: ApiErrorResponse)
        ensures
            r.message@ == "error validating fields"@,
            r.error matches Some(o) && o.fields matches Some(f) && f == fields,
    {
        ApiErrorResponse {
            message: "error validating fields".to_owned(),
            error: Some(ResponseErrorObject { fields: Some(fields) }),
        }
    }
}

} // verus!
