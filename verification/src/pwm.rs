//! PWM echo measurement: driver state and the conversion of an echo pulse
//! into a distance.
//!
//! The sensor reports a distance as a LOW pulse on ECHO of 50 µs per cm.
//! In autonomous mode (`MeasureMode = 0xAA`) the sensor pulses on its own;
//! in passive mode (`0xBB`) the host first pulls TRIG low for the trigger
//! duration. Driving TRIG (an `embedded_hal::digital::OutputPin`), waiting
//! (an `embedded_hal_async::delay::DelayNs`) and capturing the pulse are done
//! by the caller on the parts this driver holds; the driver decides what a
//! captured pulse means.

use vstd::prelude::*;

use crate::error::Error;

verus! {

/// Default trigger pulse duration, in milliseconds.
pub const DEFAULT_TRIGGER_DURATION_MS: u32 = 10;

/// Pulses this long or longer (in µs) are out of range.
pub const DEFAULT_MAX_TIMEOUT_US: u32 = 50000;

/// Microseconds of ECHO LOW per centimetre.
pub const ECHO_US_PER_CM: u32 = 50;

/// What a captured echo pulse (`None`: no pulse, or the capture timed out)
/// means, for pulses shorter than `max_timeout_us` being in range.
pub open spec fn echo_spec<E>(pulse: Option<u32>, max_timeout_us: u32) -> Result<Option<u16>, Error<E>> {
    match pulse {
        None => Err(Error::Timeout),
        Some(duration_us) => if 0 < duration_us && duration_us < max_timeout_us {
            Ok(Some((duration_us / 50) as u16))
        } else {
            Ok(None)
        },
    }
}

/// 50 µs of echo is one centimetre: every in-range pulse `d` is `d / 50`
/// cm, a pulse is reported out of range only when it is 0 or reaches the
/// limit, and no pulse is a timeout.
pub proof fn lemma_echo_distance<E>(d: u32, max_timeout_us: u32)
    ensures
        0 < d < max_timeout_us ==> echo_spec::<E>(Some(d), max_timeout_us) == Ok::<Option<u16>, Error<E>>(
            Some((d / 50) as u16),
        ),
        0 < d < max_timeout_us && max_timeout_us <= DEFAULT_MAX_TIMEOUT_US ==> (d / 50) as u16 as int
            == d as int / 50,
        echo_spec::<E>(Some(d), max_timeout_us) == Ok::<Option<u16>, Error<E>>(None) <==> (d == 0 || d
            >= max_timeout_us),
        echo_spec::<E>(None, max_timeout_us) == Err::<Option<u16>, Error<E>>(Error::Timeout),
{
}

/// PWM driver holding the TRIG pin, an echo pulse reader and a delay provider.
pub struct Urm37Pwm<TRIG, READER, DELAY> {
    trig: TRIG,
    pulse_reader: READER,
    delay: DELAY,
    trigger_duration_ms: u32,
    max_timeout_us: u32,
}

impl<TRIG, READER, DELAY> Urm37Pwm<TRIG, READER, DELAY> {
    /// The TRIG pin.
    pub closed spec fn trig_pin(&self) -> TRIG {
        self.trig
    }

    /// The echo pulse reader.
    pub closed spec fn reader(&self) -> READER {
        self.pulse_reader
    }

    /// The delay provider.
    pub closed spec fn delay_provider(&self) -> DELAY {
        self.delay
    }

    /// The trigger pulse duration, in milliseconds.
    pub closed spec fn trigger_ms(&self) -> u32 {
        self.trigger_duration_ms
    }

    /// The pulse duration (µs) from which a pulse is out of range.
    pub closed spec fn max_timeout(&self) -> u32 {
        self.max_timeout_us
    }

    /// Creates a driver from a TRIG pin that is already driven HIGH (the
    /// sensor triggers on a falling edge), a pulse reader and a delay
    /// provider, with a 10 ms trigger pulse and a 50000 µs pulse limit.
    pub fn new(trig: TRIG, pulse_reader: READER, delay: DELAY) -> (s: Self)
        ensures
            s.trig_pin() == trig,
            s.reader() == pulse_reader,
            s.delay_provider() == delay,
            s.trigger_ms() == DEFAULT_TRIGGER_DURATION_MS,
            s.max_timeout() == DEFAULT_MAX_TIMEOUT_US,
    {
        Urm37Pwm {
            trig,
            pulse_reader,
            delay,
            trigger_duration_ms: DEFAULT_TRIGGER_DURATION_MS,
            max_timeout_us: DEFAULT_MAX_TIMEOUT_US,
        }
    }

    /// Sets the trigger pulse duration, in milliseconds.
    pub fn set_trigger_duration(&mut self, ms: u32)
        ensures
            final(self).trigger_ms() == ms,
            final(self).max_timeout() == old(self).max_timeout(),
            final(self).trig_pin() == old(self).trig_pin(),
            final(self).reader() == old(self).reader(),
            final(self).delay_provider() == old(self).delay_provider(),
    {
        self.trigger_duration_ms = ms;
    }

    /// The trigger pulse duration, in milliseconds.
    pub fn trigger_duration(&self) -> (ms: u32)
        ensures
            ms == self.trigger_ms(),
    {
        self.trigger_duration_ms
    }

    /// Gives back the TRIG pin, the pulse reader and the delay provider.
    pub fn release(self) -> (parts: (TRIG, READER, DELAY))
        ensures
            parts == (self.trig_pin(), self.reader(), self.delay_provider()),
    {
        (self.trig, self.pulse_reader, self.delay)
    }

    /// The TRIG pin, the pulse reader and the delay provider, to drive a
    /// measurement on; the configuration is left as it is.
    pub fn parts_mut(&mut self) -> (parts: (&mut TRIG, &mut READER, &mut DELAY))
        ensures
            *parts.0 == old(self).trig_pin(),
            *parts.1 == old(self).reader(),
            *parts.2 == old(self).delay_provider(),
            final(self).trig_pin() == *final(parts.0),
            final(self).reader() == *final(parts.1),
            final(self).delay_provider() == *final(parts.2),
            final(self).trigger_ms() == old(self).trigger_ms(),
            final(self).max_timeout() == old(self).max_timeout(),
    {
        (&mut self.trig, &mut self.pulse_reader, &mut self.delay)
    }

    /// The result of a measurement, given what the pulse reader captured:
    /// no pulse is a timeout; a pulse of `d` µs with `0 < d < max_timeout`
    /// is `d / 50` cm; any other pulse is out of range (`Ok(None)`).
    pub fn echo_result<E>(&self, pulse: Option<u32>) -> (r: Result<Option<u16>, Error<E>>)
        ensures
            r == echo_spec::<E>(pulse, self.max_timeout()),
            pulse is None ==> r == Err::<Option<u16>, Error<E>>(Error::Timeout),
            pulse matches Some(d) ==> (if 0 < d < self.max_timeout() {
                r == Ok::<Option<u16>, Error<E>>(Some((d / 50) as u16))
            } else {
                r == Ok::<Option<u16>, Error<E>>(None)
            }),
            r == Ok::<Option<u16>, Error<E>>(None) ==> (pulse matches Some(d) && (d == 0 || d
                >= self.max_timeout())),
    {
        match pulse {
            Some(duration_us) => {
                if duration_us > 0 && duration_us < self.max_timeout_us {
                    Ok(Some((duration_us / ECHO_US_PER_CM) as u16))
                } else {
                    Ok(None)
                }
            },
            None => Err(Error::Timeout),
        }
    }
}

} // verus!
