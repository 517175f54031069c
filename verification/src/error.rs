//! Error type shared by all drivers.
//!
//! Errors come from two sources: the transport (a bus error of type `E`
//! from the caller's UART or GPIO) and the protocol (checksum mismatch,
//! unexpected response, invalid reading, timeout).

use vstd::prelude::*;

verus! {

/// All errors returned by the URM37 driver, generic over the transport error `E`.
#[derive(Debug, PartialEq, Eq, Clone, Copy)]
pub enum Error<E> {
    /// The transport (UART, GPIO, ...) failed with error `E`.
    Bus(E),
    /// The received checksum does not match the one computed from the data.
    ChecksumMismatch {
        /// The checksum computed from the received command and data bytes.
        expected: u8,
        /// The checksum byte that was received.
        got: u8,
    },
    /// The response does not match the command that was sent.
    UnexpectedResponse,
    /// The sensor returned its invalid-reading sentinel `0xFFFF`.
    InvalidReading,
    /// No response arrived (end of input before a whole frame was read).
    Timeout,
}

/// A transport outcome as a driver result: a transport error becomes `Bus`,
/// a success is kept.
pub fn bus_result<T, E>(outcome: Result<T, E>) -> (r: Result<T, Error<E>>)
    ensures
        match outcome {
            Ok(v) => r == Ok::<T, Error<E>>(v),
            Err(e) => r == Err::<T, Error<E>>(Error::Bus(e)),
        },
{
    match outcome {
        Ok(v) => Ok(v),
        Err(e) => Err(Error::Bus(e)),
    }
}

impl<E> From<E> for Error<E> {
    fn from(e: E) -> (r: Self) {
        Error::Bus(e)
    }
}

impl<E> vstd::std_specs::convert::FromSpecImpl<E> for Error<E> {
    open spec fn obeys_from_spec() -> bool {
        true
    }

    open spec fn from_spec(e: E) -> Self {
        Error::Bus(e)
    }
}

} // verus!
