//! The ways in which a request to the service can fail.

use vstd::prelude::*;

verus! {

/// Why an operation could not be completed.
#[derive(Debug)]
pub enum HackerNewsApiError {
    /// The request could not be formed; the text says why.
    BadRequest(&'static str),
    /// The transport failed or the service answered without success.
    RequestFailed(String),
    /// The body of the answer did not have the expected shape.
    DecodeFailed(String),
}

/// The text carried by a request that lacks the id of the item it asks for.
pub open spec fn missing_item_id() -> Seq<char> {
    "An item lookup needs the id of the item"@
}

/// The text carried by a request whose address could not be formed.
pub open spec fn malformed_address() -> Seq<char> {
    "The address of the service could not be formed"@
}

impl HackerNewsApiError {
    /// The description of this error as one line of text.
    pub open spec fn description(self) -> Seq<char> {
        match self {
            HackerNewsApiError::BadRequest(reason) => "Request failed: "@ + reason@,
            HackerNewsApiError::RequestFailed(detail) => "Async Request Failed: "@ + detail@,
            HackerNewsApiError::DecodeFailed(detail) => "Decoding Failed: "@ + detail@,
        }
    }

    /// Renders the description of this error.
    pub fn message(&self) -> (s: String)
        ensures
            s@ == self.description(),
    {
        match self {
            HackerNewsApiError::BadRequest(reason) => {
                String::from_str("Request failed: ").concat(reason)
            },
            HackerNewsApiError::RequestFailed(detail) => {
                String::from_str("Async Request Failed: ").concat(detail.as_str())
            },
            HackerNewsApiError::DecodeFailed(detail) => {
                String::from_str("Decoding Failed: ").concat(detail.as_str())
            },
        }
    }
}

/// The error reported for a response code that the service does not document.
pub fn map_response_err(code: Option<String>) -> (err: HackerNewsApiError)
    ensures
        code.is_some() ==> err == HackerNewsApiError::BadRequest("Unknown Error..."),
        code.is_none() ==> err == HackerNewsApiError::BadRequest("Uknown Error..."),
{
    match code {
        Some(_) => HackerNewsApiError::BadRequest("Unknown Error..."),
        None => HackerNewsApiError::BadRequest("Uknown Error..."),
    }
}

} // verus!
