//! One request, one reply: what becomes of the outcome of an exchange.

use crate::error::ClientError;
use crate::subject::Operation;
use vstd::prelude::*;

verus! {

/// Why an exchange brought no reply.
#[derive(Clone, Debug, PartialEq, Eq)]
pub enum RequestError {
    /// The timeout elapsed first. A reply that comes later is not waited for.
    TimedOut,
    /// The connection failed; the text is the connection's own.
    Transport(String),
}

/// Settles the race between a reply and the timeout. `raced` is `None` when
/// the timeout elapsed first, else what the connection returned: the bytes
/// of the reply, or its failure. A failure of the connection stays what it
/// is and is never reported as a timeout. Nothing is tried a second time.
pub fn request_timeout(raced: Option<Result<Vec<u8>, String>>) -> (r: Result<Vec<u8>, RequestError>)
    ensures
        r == match raced {
            None => Err::<Vec<u8>, RequestError>(RequestError::TimedOut),
            Some(Ok(reply)) => Ok(reply),
            Some(Err(detail)) => Err(RequestError::Transport(detail)),
        },
{
    match raced {
        None => Err(RequestError::TimedOut),
        Some(Ok(reply)) => Ok(reply),
        Some(Err(detail)) => Err(RequestError::Transport(detail)),
    }
}

/// What a call returns once its exchange has ended. `reply` holds the
/// decoded reply, the reason why the reply could not be decoded, or the
/// reason why there was none.
pub open spec fn concluded<T>(
    operation: Operation,
    reply: Result<Result<T, String>, RequestError>,
) -> Result<T, ClientError> {
    match reply {
        Ok(Ok(value)) => Ok(value),
        Ok(Err(detail)) => Err(ClientError::Decode { detail }),
        Err(RequestError::TimedOut) => Err(ClientError::TimedOut { operation }),
        Err(RequestError::Transport(detail)) => Err(ClientError::Transport { operation, detail }),
    }
}

/// Turns the end of an exchange into the result of the call that made it.
/// A decoded reply is returned as it is, whatever it says: a rejection by
/// the other side is a reply. A reply that cannot be decoded fails the
/// call, and so does a missing one, each under its own kind.
pub fn conclude<T>(operation: Operation, reply: Result<Result<T, String>, RequestError>) -> (r:
    Result<T, ClientError>)
    ensures
        r == concluded(operation, reply),
{
    match reply {
        Ok(Ok(value)) => Ok(value),
        Ok(Err(detail)) => Err(ClientError::Decode { detail }),
        Err(RequestError::TimedOut) => Err(ClientError::TimedOut { operation }),
        Err(RequestError::Transport(detail)) => Err(ClientError::Transport { operation, detail }),
    }
}

} // verus!
