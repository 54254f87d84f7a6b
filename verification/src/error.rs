//! Error type for the WEBSERVICES client.

use vstd::prelude::*;

verus! {

/// Error type for the WEBSERVICES client.
///
/// Variants that wrap a lower-layer failure (transport, header conversion,
/// URL handling, decoding) carry the underlying error rendered as a string,
/// so that the embedding application can surface it.
#[derive(Clone, Debug)]
pub enum WWSVCError {
    /// The client is not authenticated.
    NotAuthenticated,
    /// Missing credentials.
    MissingCredentials,
    /// Header value contained non-ASCII characters.
    HeaderValueToStrError,
    /// Invalid header name or value.
    InvalidHeader,
    /// The request to the server has failed.
    ReqwestError(String),
    /// An invalid header value has been provided.
    InvalidHeaderValue(String),
    /// Url parsing error.
    UrlParseError,
    /// The response body did not match the expected shape.
    DecodeError(String),
}

impl WWSVCError {
    /// A human-readable description of the error.
    pub fn message(&self) -> (r: String)
        ensures
            r@.len() > 0,
    {
        let r = match self {
            WWSVCError::NotAuthenticated => "The client is not authenticated.".to_owned(),
            WWSVCError::MissingCredentials => "Missing credentials.".to_owned(),
            WWSVCError::HeaderValueToStrError => {
                "Header value contained non-ASCII characters.".to_owned()
            },
            WWSVCError::InvalidHeader => "Invalid header name or value.".to_owned(),
            WWSVCError::ReqwestError(m) => m.clone(),
            WWSVCError::InvalidHeaderValue(m) => m.clone(),
            WWSVCError::UrlParseError => "Failed to parse URL.".to_owned(),
            WWSVCError::DecodeError(m) => m.clone(),
        };
        proof {
            reveal_strlit("The client is not authenticated.");
            reveal_strlit("Missing credentials.");
            reveal_strlit("Header value contained non-ASCII characters.");
            reveal_strlit("Invalid header name or value.");
            reveal_strlit("Failed to parse URL.");
            reveal_strlit("Request failed.");
        }
        if r.as_str().unicode_len() == 0 {
            "Request failed.".to_owned()
        } else {
            r
        }
    }
}

} // verus!
