//! Synchronous UART driver: its state, and the decision taken on each
//! outcome of a transaction.
//!
//! A transaction writes one request frame and reads one 4-byte response.
//! The reads and writes themselves go through the caller's transport
//! (`embedded_io::Read + Write`); the functions here say what a transaction
//! and each driver operation return for every outcome of that transport.
//! The asynchronous driver ([`crate::uart_async`]) takes the same decisions.

use vstd::prelude::*;

use crate::error::Error;
use crate::protocol::{
    be_u16, checksum_of, checksum_ok, encode_threshold, frame_bytes, temperature_tenths,
    EepromRegister, Frame, INVALID_DIST_TEMP,
};

verus! {

/// How reading a whole response frame from the transport can fail.
#[derive(Debug, Clone, Copy, PartialEq, Eq)]
pub enum ReadFailure<E> {
    /// The input ended before 4 bytes were read.
    UnexpectedEof,
    /// The transport failed with error `E`.
    Other(E),
}

/// What a transaction yields once the response bytes were read, or failed to be.
pub open spec fn transact_spec<E>(read: Result<[u8; 4], ReadFailure<E>>) -> Result<Seq<u8>, Error<E>> {
    match read {
        Err(ReadFailure::UnexpectedEof) => Err(Error::Timeout),
        Err(ReadFailure::Other(e)) => Err(Error::Bus(e)),
        Ok(raw) => if checksum_ok(raw@) {
            Ok(raw@)
        } else {
            Err(Error::ChecksumMismatch { expected: checksum_of(raw@[0], raw@[1], raw@[2]), got: raw@[3] })
        },
    }
}

/// The response frame of a transaction, given the outcome of reading its 4 bytes:
/// an end of input is a timeout, a transport error is a bus error, and the
/// bytes must carry a valid checksum.
pub fn transact_result<E>(read: Result<[u8; 4], ReadFailure<E>>) -> (r: Result<Frame, Error<E>>)
    ensures
        match (r, transact_spec(read)) {
            (Ok(f), Ok(bytes)) => f@ == bytes,
            (Err(e1), Err(e2)) => e1 == e2,
            _ => false,
        },
        read matches Ok(raw) ==> (r is Ok <==> checksum_ok(raw@)),
        read matches Ok(raw) ==> (if checksum_ok(raw@) {
            r matches Ok(f) && f@ == raw@
        } else {
            r == Err::<Frame, Error<E>>(
                Error::ChecksumMismatch { expected: checksum_of(raw@[0], raw@[1], raw@[2]), got: raw@[3] },
            )
        }),
        read matches Err(ReadFailure::UnexpectedEof) ==> r == Err::<Frame, Error<E>>(Error::Timeout),
        read matches Err(ReadFailure::Other(e)) ==> r == Err::<Frame, Error<E>>(Error::Bus(e)),
{
    match read {
        Err(ReadFailure::UnexpectedEof) => Err(Error::Timeout),
        Err(ReadFailure::Other(e)) => Err(Error::Bus(e)),
        Ok(buf) => match Frame::parse(buf) {
            Ok(frame) => Ok(frame),
            Err((expected, got)) => Err(Error::ChecksumMismatch { expected, got }),
        },
    }
}

/// A complete read of 4 bytes with a valid checksum is always accepted as
/// the response, whatever its command and data bytes; one with an invalid
/// checksum is always a checksum mismatch; a failed read never yields a frame.
pub proof fn lemma_transaction_accepts_every_checked_frame<E>(raw: [u8; 4])
    ensures
        checksum_ok(raw@) ==> transact_spec::<E>(Ok(raw)) == Ok::<Seq<u8>, Error<E>>(raw@),
        !checksum_ok(raw@) ==> transact_spec::<E>(Ok(raw)) == Err::<Seq<u8>, Error<E>>(
            Error::ChecksumMismatch { expected: checksum_of(raw@[0], raw@[1], raw@[2]), got: raw@[3] },
        ),
        transact_spec::<E>(Err(ReadFailure::UnexpectedEof)) == Err::<Seq<u8>, Error<E>>(Error::Timeout),
{
}

/// The result of a distance read, given the result of its transaction:
/// the distance in cm, or `InvalidReading` for the sentinel `0xFFFF`.
pub fn read_distance_result<E>(resp: Result<Frame, Error<E>>) -> (r: Result<u16, Error<E>>)
    ensures
        match resp {
            Err(e) => r == Err::<u16, Error<E>>(e),
            Ok(f) => if be_u16(f@[1], f@[2]) == INVALID_DIST_TEMP {
                r == Err::<u16, Error<E>>(Error::InvalidReading)
            } else {
                r == Ok::<u16, Error<E>>(be_u16(f@[1], f@[2]))
            },
        },
{
    match resp {
        Err(e) => Err(e),
        Ok(frame) => match frame.decode_distance() {
            Some(cm) => Ok(cm),
            None => Err(Error::InvalidReading),
        },
    }
}

/// The result of a temperature read, given the result of its transaction,
/// in tenths of a degree Celsius, or `InvalidReading` for the sentinel `0xFFFF`.
pub fn read_temperature_result<E>(resp: Result<Frame, Error<E>>) -> (r: Result<i16, Error<E>>)
    ensures
        match resp {
            Err(e) => r == Err::<i16, Error<E>>(e),
            Ok(f) => if be_u16(f@[1], f@[2]) == INVALID_DIST_TEMP {
                r == Err::<i16, Error<E>>(Error::InvalidReading)
            } else {
                r == Ok::<i16, Error<E>>(temperature_tenths(f@[1], f@[2]) as i16)
            },
        },
{
    match resp {
        Err(e) => Err(e),
        Ok(frame) => match frame.decode_temperature() {
            Some(t) => Ok(t),
            None => Err(Error::InvalidReading),
        },
    }
}

/// The result of an EEPROM read, given the result of its transaction: the
/// register's value, which the sensor answers in `DATA1` of
/// `[0x33, address, value, SUM]`.
pub fn eeprom_read_result<E>(resp: Result<Frame, Error<E>>) -> (r: Result<u8, Error<E>>)
    ensures
        match resp {
            Err(e) => r == Err::<u8, Error<E>>(e),
            Ok(f) => r == Ok::<u8, Error<E>>(f@[2]),
        },
{
    match resp {
        Err(e) => Err(e),
        Ok(frame) => {
            let raw = frame.raw_data();
            Ok(raw[2])
        },
    }
}

/// The result of an EEPROM write, given the result of its transaction.
pub fn eeprom_write_result<E>(resp: Result<Frame, Error<E>>) -> (r: Result<(), Error<E>>)
    ensures
        match resp {
            Err(e) => r == Err::<(), Error<E>>(e),
            Ok(_) => r == Ok::<(), Error<E>>(()),
        },
{
    match resp {
        Err(e) => Err(e),
        Ok(_) => Ok(()),
    }
}

/// The two EEPROM writes that set the comparator threshold, in the order they
/// are sent: the high byte into `LargerDist`, then the low byte into `LessDist`.
pub fn comp_threshold_requests(distance_cm: u16) -> (r: (Frame, Frame))
    ensures
        r.0@ == frame_bytes(0x44, EepromRegister::LargerDist.address(), (distance_cm / 256) as u8),
        r.1@ == frame_bytes(0x44, EepromRegister::LessDist.address(), (distance_cm % 256) as u8),
{
    let (high, low) = encode_threshold(distance_cm);
    (
        Frame::eeprom_write_request(EepromRegister::LargerDist, high),
        Frame::eeprom_write_request(EepromRegister::LessDist, low),
    )
}

/// The next step of setting the comparator threshold.
pub enum ThresholdStep<E> {
    /// Send this EEPROM write and report its result.
    Write(Frame),
    /// The operation is over, with this result.
    Finished(Result<(), Error<E>>),
}

/// The next step of setting the comparator threshold to `distance_cm`, given
/// how many writes were made and the result of the last one (`Ok(())` before
/// the first): a failed write ends the operation with its error; otherwise
/// the high byte is written into `LargerDist`, then the low byte into
/// `LessDist`, and then the operation succeeds.
pub fn comp_threshold_step<E>(distance_cm: u16, writes_done: usize, last: Result<(), Error<E>>) -> (s: ThresholdStep<E>)
    ensures
        match last {
            Err(e) => s == ThresholdStep::<E>::Finished(Err(e)),
            Ok(_) => if writes_done == 0 {
                s matches ThresholdStep::Write(f)
                    && f@ == frame_bytes(0x44, EepromRegister::LargerDist.address(), (distance_cm / 256) as u8)
            } else if writes_done == 1 {
                s matches ThresholdStep::Write(f)
                    && f@ == frame_bytes(0x44, EepromRegister::LessDist.address(), (distance_cm % 256) as u8)
            } else {
                s == ThresholdStep::<E>::Finished(Ok(()))
            },
        },
{
    match last {
        Err(e) => ThresholdStep::Finished(Err(e)),
        Ok(()) => {
            let (high, low) = comp_threshold_requests(distance_cm);
            if writes_done == 0 {
                ThresholdStep::Write(high)
            } else if writes_done == 1 {
                ThresholdStep::Write(low)
            } else {
                ThresholdStep::Finished(Ok(()))
            }
        },
    }
}

/// The value bytes of the two comparator-threshold writes decode back to the
/// threshold.
pub proof fn lemma_comp_threshold_roundtrip(distance_cm: u16)
    ensures
        be_u16(
            frame_bytes(0x44, EepromRegister::LargerDist.address(), (distance_cm / 256) as u8)[2],
            frame_bytes(0x44, EepromRegister::LessDist.address(), (distance_cm % 256) as u8)[2],
        ) == distance_cm,
{
}

/// Blocking URM37 UART driver over a transport `UART`
/// (an `embedded_io::Read + Write` in use).
pub struct Urm37Uart<UART> {
    uart: UART,
}

impl<UART> Urm37Uart<UART> {
    /// The transport the driver holds.
    pub closed spec fn transport(&self) -> UART {
        self.uart
    }

    /// Creates a driver over the transport.
    pub fn new(uart: UART) -> (s: Self)
        ensures
            s.transport() == uart,
    {
        Urm37Uart { uart }
    }

    /// Gives the transport back.
    pub fn release(self) -> (uart: UART)
        ensures
            uart == self.transport(),
    {
        self.uart
    }

    /// The transport, to perform a transaction's reads and writes on.
    pub fn transport_mut(&mut self) -> (uart: &mut UART)
        ensures
            *uart == old(self).transport(),
            final(self).transport() == *final(uart),
    {
        &mut self.uart
    }
}

} // verus!
