use vstd::prelude::*;

verus! {

/// Why a call to the API failed.
#[derive(Debug)]
pub enum ApiError {
    /// No response was obtained: connection, timeout, TLS or DNS failure.
    Transport(String),
    /// The server answered with its error envelope: its code and message.
    Api { code: i32, msg: String },
    /// The body matched none of the shapes that the resource may take.
    Decode(String),
}

pub type ApiResult<T> = Result<T, ApiError>;

/// The envelope that every resource of the API is answered in: either the
/// payload, or the server's error code and message.
#[derive(Debug)]
pub enum ApiResponse<T> {
    Success(T),
    Error { code: i32, msg: String },
}

impl<T> ApiResponse<T> {
    /// What the envelope stands for: its payload, or the server's error.
    pub open spec fn api_result(self) -> Result<T, ApiError> {
        match self {
            ApiResponse::Success(p) => Ok(p),
            ApiResponse::Error { code, msg } => Err(ApiError::Api { code, msg }),
        }
    }

    /// Unwraps the envelope; a server error becomes `ApiError::Api` with the
    /// server's code and message.
    pub fn into_api_result(self) -> (r: ApiResult<T>)
        ensures
            r == self.api_result(),
    {
        match self {
            ApiResponse::Success(p) => Ok(p),
            ApiResponse::Error { code, msg } => Err(ApiError::Api { code, msg }),
        }
    }
}

} // verus!
