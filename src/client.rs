//! The client's side of a call: how a response is read into a result.
use vstd::prelude::*;
use crate::error::{ErrorCode, ServerError, status_of};

verus! {

/// Why a client call failed.
#[derive(Debug)]
pub enum ClientError {
    /// No response was obtained (connection, timeout, name resolution).
    Transport(String),
    /// The response's status was not a success; the body held this error.
    BadStatus(u16, ServerError),
    /// The body could not be decoded.
    Decode(String),
    /// The request could not be built.
    BuildRequest(String),
}

/// Whether a transport status means success.
pub open spec fn is_success(status: u16) -> bool {
    200 <= status < 300
}

/// Reads a response with status `status`. `message` is the body decoded as
/// the expected message, and `envelope` the body decoded as an error
/// envelope; only the one that the status selects is looked at.
pub fn read_response<T>(
    status: u16,
    message: Result<T, String>,
    envelope: Result<ServerError, String>,
) -> (r: Result<T, ClientError>)
    ensures
        is_success(status) ==> match message {
            Ok(m) => r == Ok::<T, ClientError>(m),
            Err(c) => r == Err::<T, ClientError>(ClientError::Decode(c)),
        },
        !is_success(status) ==> match envelope {
            Ok(e) => r == Err::<T, ClientError>(ClientError::BadStatus(status, e)),
            Err(c) => r == Err::<T, ClientError>(ClientError::Decode(c)),
        },
{
    if 200 <= status && status < 300 {
        match message {
            Ok(m) => Ok(m),
            Err(c) => Err(ClientError::Decode(c)),
        }
    } else {
        match envelope {
            Ok(e) => Err(ClientError::BadStatus(status, e)),
            Err(c) => Err(ClientError::Decode(c)),
        }
    }
}

/// No error code is sent with a success status, so a client reads every
/// error a server returns as `BadStatus` carrying that same error.
pub proof fn lemma_error_status_not_success(code: ErrorCode)
    ensures
        !is_success(status_of(code)),
{
}

} // verus!
