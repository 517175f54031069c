//! Asynchronous UART driver state.
//!
//! The driver holds an `embedded_io_async::Read + Write` transport; the
//! caller awaits the reads and writes on it. A transaction and each driver
//! operation take the same decisions as the blocking driver, stated in
//! [`crate::uart`]: [`crate::uart::transact_result`],
//! [`crate::uart::read_distance_result`] and the functions beside it.

use vstd::prelude::*;

verus! {

/// Asynchronous URM37 UART driver over a transport `UART`
/// (an `embedded_io_async::Read + Write` in use).
pub struct Urm37UartAsync<UART> {
    uart: UART,
}

impl<UART> Urm37UartAsync<UART> {
    /// The transport the driver holds.
    pub closed spec fn transport(&self) -> UART {
        self.uart
    }

    /// Creates a driver over the transport.
    pub fn new(uart: UART) -> (s: Self)
        ensures
            s.transport() == uart,
    {
        Urm37UartAsync { uart }
    }

    /// Gives the transport back.
    pub fn release(self) -> (uart: UART)
        ensures
            uart == self.transport(),
    {
        self.uart
    }

    /// The transport, to await a transaction's reads and writes on.
    pub fn transport_mut(&mut self) -> (uart: &mut UART)
        ensures
            *uart == old(self).transport(),
            final(self).transport() == *final(uart),
    {
        &mut self.uart
    }
}

} // verus!
