//! The error taxonomy shared by every operation: invalid caller input,
//! failed authentication, missing owned resources, and generic internal
//! failures whose cause is never surfaced to the client.
use vstd::prelude::*;

verus! {

#[derive(Debug)]
pub enum ApiError {
    BadRequest(String),
    Unauthorized(String),
    NotFound(String),
    Internal,
}

impl ApiError {
    /// The HTTP status code each variant maps to.
    pub fn status_code(&self) -> (code: u16)
        ensures
            code == match self {
                ApiError::BadRequest(_) => 400u16,
                ApiError::Unauthorized(_) => 401u16,
                ApiError::NotFound(_) => 404u16,
                ApiError::Internal => 500u16,
            },
    {
        match self {
            ApiError::BadRequest(_) => 400,
            ApiError::Unauthorized(_) => 401,
            ApiError::NotFound(_) => 404,
            ApiError::Internal => 500,
        }
    }

    /// The client-visible message. Internal failures are deliberately generic.
    pub fn message(&self) -> (m: String)
        ensures
            m@ == self.message_spec(),
    {
        match self {
            ApiError::BadRequest(m) => m.clone(),
            ApiError::Unauthorized(m) => m.clone(),
            ApiError::NotFound(m) => m.clone(),
            ApiError::Internal => String::from_str("Internal server error"),
        }
    }

    pub open spec fn message_spec(&self) -> Seq<char> {
        match self {
            ApiError::BadRequest(m) => m@,
            ApiError::Unauthorized(m) => m@,
            ApiError::NotFound(m) => m@,
            ApiError::Internal => "Internal server error"@,
        }
    }
}

/// The result is a 400 rejection carrying exactly this message.
pub open spec fn err_bad_request<T>(r: Result<T, ApiError>, msg: Seq<char>) -> bool {
    match r {
        Err(ApiError::BadRequest(m)) => m@ == msg,
        _ => false,
    }
}

/// The result is a 401 rejection carrying exactly this message.
pub open spec fn err_unauthorized<T>(r: Result<T, ApiError>, msg: Seq<char>) -> bool {
    match r {
        Err(ApiError::Unauthorized(m)) => m@ == msg,
        _ => false,
    }
}

/// The result is a 404 rejection carrying exactly this message.
pub open spec fn err_not_found<T>(r: Result<T, ApiError>, msg: Seq<char>) -> bool {
    match r {
        Err(ApiError::NotFound(m)) => m@ == msg,
        _ => false,
    }
}

pub open spec fn err_internal<T>(r: Result<T, ApiError>) -> bool {
    match r {
        Err(ApiError::Internal) => true,
        _ => false,
    }
}

} // verus!
