//! Driver logic for the DFRobot URM37 V4.0 ultrasonic distance sensor.
//!
//! The sensor speaks a 4-byte UART protocol (`[CMD, DATA0, DATA1, SUM]`),
//! can report distance as an ECHO pulse width, and as an analog voltage.
//! This crate holds the verified part of the driver: frame building and
//! checking, response decoding, the decisions taken on each transport
//! outcome, and the integer conversions of the PWM and analog modes.
//! The transport itself (UART reads and writes, GPIO, timers, ADC
//! sampling hardware) is driven by the caller.

pub mod protocol;
pub mod error;
pub mod eeprom;
pub mod uart;
pub mod uart_async;
pub mod pwm;
pub mod analog;

pub use protocol::{encode_threshold, decode_threshold, EepromRegister};
