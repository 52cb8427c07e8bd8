use vstd::prelude::*;

verus! {

/// The ways an operation can fail.
#[derive(Debug)]
pub enum ClientError {
    /// A builder lacked a field that its request needs; nothing was sent.
    UsageError { field: String },
    /// The request never got an answer (connection, TLS, timeout).
    TransportError { cause: String },
    /// The service answered with a status outside 200..=299.
    APIError { code: u16, errors: Vec<String> },
    /// A success answer did not have the shape the request expects.
    ResponseError { reason: String },
}

impl ClientError {
    /// The status code of an API-level failure.
    pub fn api_code(&self) -> (r: Option<u16>)
        ensures
            r == (match self {
                ClientError::APIError { code, .. } => Some(*code),
                _ => None,
            }),
    {
        match self {
            ClientError::APIError { code, .. } => Some(*code),
            _ => None,
        }
    }
}

} // verus!
