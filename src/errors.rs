use vstd::prelude::*;

verus! {

/// What a storage operation can fail with.
#[derive(Debug)]
pub enum ClientError {
    /// The service answered with a failure status, or with a body that is not
    /// the expected success shape: its status code and its body, verbatim.
    StorageError { status: u16, message: String },
    /// A header value holds a character that a header cannot carry.
    InvalidHeaderValue(reqwest::header::InvalidHeaderValue),
    /// A header name is empty, too long, or holds a character outside a token.
    InvalidHeaderName(reqwest::header::InvalidHeaderName),
    /// A URL could not be parsed.
    UrlParseError { message: String },
    /// A signed URL carries no `token` query parameter.
    InvalidToken { message: String },
}

} // verus!
