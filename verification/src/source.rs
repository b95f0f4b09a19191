//! Where SMS requests come from: a non-blocking source of raw payloads.
use vstd::prelude::*;

use crate::error::ServiceError;

verus! {

/// A non-blocking source of raw request payloads.
pub trait MessageSource: Send {
    /// The next payload if one is waiting, `None` if none is, or the
    /// transport's error.
    fn try_next(&mut self) -> Result<Option<Vec<u8>>, ServiceError>;
}

/// Why a non-blocking receive returned no payload.
#[derive(Clone, Copy, Debug, PartialEq, Eq)]
pub enum ReceiveError {
    /// Nothing is waiting; a blocking receive would have blocked.
    WouldBlock,
    /// The transport failed, with this error number.
    Failed(i32),
}

/// What a source reports for the result of one non-blocking receive: a
/// payload is passed on, an empty queue is no message, any other failure
/// is a ZeroMQ error.
pub fn receive_outcome(received: Result<Vec<u8>, ReceiveError>) -> (r: Result<Option<Vec<u8>>, ServiceError>)
    ensures
        match received {
            Ok(bytes) => r == Ok::<Option<Vec<u8>>, ServiceError>(Some(bytes)),
            Err(ReceiveError::WouldBlock) => r == Ok::<Option<Vec<u8>>, ServiceError>(None),
            Err(ReceiveError::Failed(code)) => r == Err::<Option<Vec<u8>>, ServiceError>(ServiceError::Zmq(code)),
        },
{
    match received {
        Ok(bytes) => Ok(Some(bytes)),
        Err(ReceiveError::WouldBlock) => Ok(None),
        Err(ReceiveError::Failed(code)) => Err(ServiceError::Zmq(code)),
    }
}

} // verus!
