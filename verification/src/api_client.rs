//! Errors of the daemon API client, and how an unsuccessful response is
//! classified by its status code.

use vstd::prelude::*;

verus! {

/// Errors returned by the API client.
#[derive(Debug)]
pub enum ApiClientError {
    /// The requested resource was not found.
    NotFound(String),
    /// The request was invalid or malformed.
    BadRequest(String),
    /// A conflict occurred, such as adding a duplicate subscription.
    Conflict(String),
    /// An upstream network or HTTP error, with its description.
    Http(String),
    /// JSON serialization or deserialization failed, with its description.
    Json(String),
    /// An unexpected error response: the HTTP status code and the server's
    /// message.
    Api { status: u16, message: String },
}

/// The error for an unsuccessful response with status `status` and the
/// server's message: 404, 400 and 409 have variants of their own, every
/// other status is carried as it came.
pub fn map_error(status: u16, message: String) -> (e: ApiClientError)
    ensures
        status == 404 ==> (e matches ApiClientError::NotFound(m) && m@ == message@),
        status == 400 ==> (e matches ApiClientError::BadRequest(m) && m@ == message@),
        status == 409 ==> (e matches ApiClientError::Conflict(m) && m@ == message@),
        status != 404 && status != 400 && status != 409 ==> (e matches ApiClientError::Api { status: s, message: m }
            && s == status && m@ == message@),
{
    if status == 404 {
        ApiClientError::NotFound(message)
    } else if status == 400 {
        ApiClientError::BadRequest(message)
    } else if status == 409 {
        ApiClientError::Conflict(message)
    } else {
        ApiClientError::Api { status, message }
    }
}

} // verus!
