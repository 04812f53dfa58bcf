//! The ways an exchange can fail.
use vstd::prelude::*;
use vstd::string::*;

verus! {

/// Why an exchange failed. Each variant carries the detail behind it.
#[derive(Debug)]
pub enum HttpError {
    /// The method is not one of GET, POST, PUT, DELETE; carries the method.
    UnsupportedMethod(String),
    /// The URL did not parse while deriving the digest URI; carries the reason.
    InvalidUrl(String),
    /// The final request could not be sent; carries the transport's message.
    RequestFailed(String),
    /// The response body could not be read as text; carries the reason.
    BodyReadFailed(String),
}

impl HttpError {
    /// The human-readable message: a fixed phrase per kind, then the detail.
    pub fn message(&self) -> (r: String)
        ensures
            r@ == self.message_spec(),
    {
        match self {
            HttpError::UnsupportedMethod(d) => String::from_str("Unsupported HTTP method: ").concat(d.as_str()),
            HttpError::InvalidUrl(d) => String::from_str("Invalid URL: ").concat(d.as_str()),
            HttpError::RequestFailed(d) => String::from_str("HTTP request failed: ").concat(d.as_str()),
            HttpError::BodyReadFailed(d) => String::from_str("Failed to read response body: ").concat(d.as_str()),
        }
    }

    pub open spec fn message_spec(&self) -> Seq<char> {
        match self {
            HttpError::UnsupportedMethod(d) => "Unsupported HTTP method: "@ + d@,
            HttpError::InvalidUrl(d) => "Invalid URL: "@ + d@,
            HttpError::RequestFailed(d) => "HTTP request failed: "@ + d@,
            HttpError::BodyReadFailed(d) => "Failed to read response body: "@ + d@,
        }
    }
}

} // verus!
