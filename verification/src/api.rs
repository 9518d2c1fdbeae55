//! The errors that a request handler can answer with.

use vstd::prelude::*;
use vstd::std_specs::convert::FromSpecImpl;

use crate::api::jwt::AuthError;

pub mod counter_record;
pub mod jwt;

verus! {

/// Why a handler could not serve a request.
pub enum ApiError {
    /// The resource asked for does not exist.
    NotFound,
    /// The request was not authenticated.
    Auth(AuthError),
    /// A lower layer failed; the text says how, for the operator and never
    /// for the client.
    Internal(String),
}

impl From<AuthError> for ApiError {
    fn from(err: AuthError) -> (r: ApiError) {
        ApiError::Auth(err)
    }
}

impl FromSpecImpl<AuthError> for ApiError {
    open spec fn obeys_from_spec() -> bool {
        true
    }

    open spec fn from_spec(err: AuthError) -> ApiError {
        ApiError::Auth(err)
    }
}

impl ApiError {
    /// The HTTP status that answers this error.
    pub open spec fn status_spec(self) -> u16 {
        match self {
            ApiError::NotFound => 404,
            ApiError::Auth(err) => err.status_spec(),
            ApiError::Internal(_) => 500,
        }
    }

    /// The message that answers this error, if it is answered with one. An
    /// internal failure is answered in the same words whatever it was.
    pub open spec fn message_spec(self) -> Option<Seq<char>> {
        match self {
            ApiError::NotFound => None,
            ApiError::Auth(err) => Some(err.message_spec()),
            ApiError::Internal(_) => Some("Internal server error"@),
        }
    }

    /// The HTTP status that answers this error.
    pub fn status(&self) -> (r: u16)
        ensures
            r == self.status_spec(),
    {
        match self {
            ApiError::NotFound => 404,
            ApiError::Auth(err) => err.status(),
            ApiError::Internal(_) => 500,
        }
    }

    /// The message that answers this error, if it is answered with one.
    pub fn message(&self) -> (r: Option<&'static str>)
        ensures
            r is Some <==> self.message_spec() is Some,
            r matches Some(m) ==> self.message_spec() == Some(m@),
    {
        match self {
            ApiError::NotFound => None,
            ApiError::Auth(err) => Some(err.message()),
            ApiError::Internal(_) => Some("Internal server error"),
        }
    }
}

/// Every error is answered with a client or server error status, and an
/// authentication error with the status of its own.
pub proof fn lemma_status_is_error(err: ApiError)
    ensures
        400 <= err.status_spec() < 600,
        err matches ApiError::Auth(e) ==> err.status_spec() == e.status_spec(),
{
}

} // verus!
