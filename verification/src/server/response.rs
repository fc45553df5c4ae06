//! Error replies of the HTTP API.
use vstd::prelude::*;

use crate::json::{Json, JsonView};

verus! {

/// An error reply: its HTTP status, a message that is safe to show, a
/// machine-readable type, and details where there are some.
#[derive(Debug)]
pub struct ApiError {
    pub status: u16,
    pub message: String,
    pub error_type: &'static str,
    pub details: Option<Json>,
}

/// The model of an [`ApiError`].
pub struct ApiErrorView {
    pub status: u16,
    pub message: Seq<char>,
    pub error_type: Seq<char>,
    pub details: Option<JsonView>,
}

impl View for ApiError {
    type V = ApiErrorView;

    open spec fn view(&self) -> ApiErrorView {
        ApiErrorView {
            status: self.status,
            message: self.message@,
            error_type: self.error_type@,
            details: match self.details {
                Some(details) => Some(details@),
                None => None,
            },
        }
    }
}

/// An error reply without details.
pub open spec fn plain_error(status: u16, message: Seq<char>, error_type: Seq<char>) -> ApiErrorView {
    ApiErrorView { status, message, error_type, details: None }
}

/// An error reply without details.
pub fn create_error(status: u16, message: &str, error_type: &'static str) -> (r: ApiError)
    ensures
        r@ == plain_error(status, message@, error_type@),
{
    ApiError { status, message: message.to_owned(), error_type, details: None }
}

} // verus!
