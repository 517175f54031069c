//! Analog mode: the sensor outputs on DAC_OUT a voltage proportional to the
//! distance, from 0 V (0 cm) to Vcc (800 cm).
//!
//! So `distance (cm) = (voltage / Vcc) × 800`. Sampling the ADC is the
//! caller's part ([`AdcReader`]); this module averages samples and holds the
//! integer conversions.

use vstd::prelude::*;

verus! {

/// Maximum sensor range in analog mode (cm).
pub const ANALOG_MAX_RANGE_CM: u16 = 800;

/// Maximum ADC value for 12-bit resolution.
pub const ANALOG_MAX_ADC_VALUE: u16 = 4095;

/// An ADC peripheral that reads the sensor's DAC_OUT pin; implemented by the
/// user for their hardware.
pub trait AdcReader {
    /// Error type of the ADC.
    type Error;

    /// Reads one raw ADC sample (0 to the ADC's maximum value).
    fn read(&mut self) -> Result<u16, Self::Error>;
}

/// The sum of the samples.
pub open spec fn sample_sum(samples: Seq<u16>) -> int
    decreases samples.len(),
{
    if samples.len() == 0 {
        0
    } else {
        sample_sum(samples.drop_last()) + samples.last()
    }
}

/// The sum of no samples is 0, and appending a sample adds its value; so
/// the sum of a sequence is the sum of all its values.
pub proof fn lemma_sample_sum_append(samples: Seq<u16>, v: u16)
    ensures
        sample_sum(Seq::<u16>::empty()) == 0,
        sample_sum(samples.push(v)) == sample_sum(samples) + v as int,
        sample_sum(seq![v]) == v as int,
{
    assert(samples.push(v).drop_last() =~= samples);
    assert(seq![v].drop_last() =~= Seq::<u16>::empty());
}

/// The sum of `n` samples is at most `n × 65535`.
proof fn lemma_sample_sum_bound(samples: Seq<u16>)
    ensures
        0 <= sample_sum(samples) <= samples.len() * 65535,
    decreases samples.len(),
{
    if samples.len() > 0 {
        lemma_sample_sum_bound(samples.drop_last());
    }
}

/// The running average of a fixed number of ADC samples, fed one read
/// outcome at a time: sampling stops at the first failed read, and after
/// the last sample the floor mean is the result.
pub struct SampleAverage {
    target: usize,
    taken: usize,
    sum: u128,
    values: Ghost<Seq<u16>>,
}

impl SampleAverage {
    /// The samples taken so far, oldest first.
    pub closed spec fn samples(&self) -> Seq<u16> {
        self.values@
    }

    /// The number of samples to average.
    pub closed spec fn count(&self) -> usize {
        self.target
    }

    /// The running sum agrees with the samples, and more samples are due.
    pub closed spec fn wf(&self) -> bool {
        &&& self.target > 0
        &&& self.taken == self.values@.len()
        &&& self.taken < self.target
        &&& self.sum == sample_sum(self.values@)
    }

    /// Starts an average of `num_samples` samples.
    pub fn new(num_samples: usize) -> (s: Self)
        requires
            num_samples > 0,
        ensures
            s.wf(),
            s.count() == num_samples,
            s.samples() == Seq::<u16>::empty(),
    {
        SampleAverage { target: num_samples, taken: 0, sum: 0, values: Ghost(Seq::empty()) }
    }

    /// Takes the outcome of one ADC read. A failed read ends the sampling
    /// with its error; a successful read adds its value, and the last one
    /// ends the sampling with the floor mean of all samples. While more
    /// samples are due, the result is `None`.
    pub fn add_read<E>(&mut self, outcome: Result<u16, E>) -> (r: Option<Result<u16, E>>)
        requires
            old(self).wf(),
        ensures
            final(self).count() == old(self).count(),
            match outcome {
                Err(e) => {
                    &&& r == Some(Err::<u16, E>(e))
                    &&& final(self).samples() == old(self).samples()
                },
                Ok(v) => {
                    &&& final(self).samples() == old(self).samples().push(v)
                    &&& if final(self).samples().len() == final(self).count() {
                        r matches Some(Ok(avg))
                            && avg == sample_sum(final(self).samples()) / (final(self).count() as int)
                    } else {
                        &&& r == None::<Result<u16, E>>
                        &&& final(self).wf()
                    }
                },
            },
    {
        match outcome {
            Err(e) => Some(Err(e)),
            Ok(v) => {
                proof {
                    lemma_sample_sum_bound(self.values@);
                    let k = self.values@.len() as int;
                    assert(k * 65535 + 65535 <= u128::MAX) by (nonlinear_arith)
                        requires
                            0 <= k < 0x1_0000_0000_0000_0000,
                    ;
                }
                let ghost before = self.values@;
                self.sum = self.sum + v as u128;
                proof {
                    self.values@ = self.values@.push(v);
                    assert(self.values@.drop_last() =~= before);
                }
                self.taken = self.taken + 1;
                if self.taken == self.target {
                    proof {
                        lemma_sample_sum_bound(self.values@);
                        let s = self.sum as int;
                        let m = self.target as int;
                        assert(s / m <= 65535) by (nonlinear_arith)
                            requires
                                0 <= s <= m * 65535,
                                m > 0,
                        ;
                    }
                    Some(Ok((self.sum / (self.target as u128)) as u16))
                } else {
                    None
                }
            },
        }
    }
}

/// The reads made after the first `before.len()` of `after`.
pub open spec fn reads_since<E>(before: Seq<Result<u16, E>>, after: Seq<Result<u16, E>>) -> Seq<Result<u16, E>> {
    after.skip(before.len() as int)
}

/// Every read succeeded.
pub open spec fn all_ok<E>(reads: Seq<Result<u16, E>>) -> bool {
    forall|i: int| 0 <= i < reads.len() ==> (#[trigger] reads[i]) is Ok
}

/// The values of successful reads.
pub open spec fn read_values<E>(reads: Seq<Result<u16, E>>) -> Seq<u16> {
    reads.map_values(|o: Result<u16, E>| match o {
        Ok(v) => v,
        Err(_) => 0u16,
    })
}

/// Analog sensor driver that reads and averages ADC samples.
///
/// Besides the ADC, the driver keeps a ghost record of the outcome of every
/// `read` it made on it, oldest first, taken as each call returns.
pub struct AnalogSensor<R: AdcReader> {
    reader: R,
    log: Ghost<Seq<Result<u16, R::Error>>>,
}

impl<R: AdcReader> AnalogSensor<R> {
    /// The ADC reader the driver holds.
    pub closed spec fn adc(&self) -> R {
        self.reader
    }

    /// The outcomes of the ADC reads the driver made, oldest first.
    pub closed spec fn readings(&self) -> Seq<Result<u16, R::Error>> {
        self.log@
    }

    /// Creates an analog sensor over an ADC reader.
    pub fn new(reader: R) -> (s: Self)
        ensures
            s.adc() == reader,
            s.readings() == Seq::<Result<u16, R::Error>>::empty(),
    {
        AnalogSensor { reader, log: Ghost(Seq::empty()) }
    }

    /// Reads ADC samples until `num_samples` were read or a read fails, and
    /// returns what [`SampleAverage::add_read`] makes of those outcomes: the
    /// floor mean of the samples, or the error of the first failed read.
    ///
    /// Over the record of the reads made during the call: a success means
    /// exactly `num_samples` reads, all successful, and the floor mean of
    /// their values in order; a failure means the last read made failed with
    /// that error, after successful ones.
    pub fn read_average(&mut self, num_samples: usize) -> (r: Result<u16, R::Error>)
        requires
            num_samples > 0,
        ensures
            r matches Ok(avg) ==> exists|samples: Seq<u16>|
                samples.len() == num_samples && avg == #[trigger] sample_sum(samples) / (num_samples as int),
            final(self).readings().take(old(self).readings().len() as int) == old(self).readings(),
            ({
                let reads = reads_since(old(self).readings(), final(self).readings());
                match r {
                    Ok(avg) => {
                        &&& reads.len() == num_samples
                        &&& all_ok(reads)
                        &&& avg == sample_sum(read_values(reads)) / (num_samples as int)
                    },
                    Err(e) => {
                        &&& 1 <= reads.len() <= num_samples
                        &&& all_ok(reads.drop_last())
                        &&& reads.last() == Err::<u16, R::Error>(e)
                    },
                }
            }),
    {
        let ghost start = self.log@;
        let mut average = SampleAverage::new(num_samples);
        loop
            invariant
                average.wf(),
                average.count() == num_samples,
                start == old(self).readings(),
                self.log@.take(start.len() as int) == start,
                self.log@.len() == start.len() + average.samples().len(),
                all_ok(reads_since(start, self.log@)),
                read_values(reads_since(start, self.log@)) == average.samples(),
            decreases num_samples - average.samples().len(),
        {
            let outcome = self.reader.read();
            let ghost got = outcome;
            let ghost before = self.log@;
            proof {
                self.log@ = self.log@.push(got);
                assert(self.log@.take(start.len() as int) =~= before.take(start.len() as int));
                assert(reads_since(start, self.log@) =~= reads_since(start, before).push(got));
                assert(reads_since(start, self.log@).drop_last() =~= reads_since(start, before));
            }
            let step = average.add_read(outcome);
            proof {
                if got is Ok {
                    assert(read_values(reads_since(start, self.log@)) =~= average.samples());
                }
            }
            match step {
                Some(result) => {
                    return result;
                },
                None => {},
            }
        }
    }
}

/// Converts a distance (cm) to the expected ADC value, the reverse of the
/// ADC-to-distance conversion: `distance × adc_max / 800`, rounded down and
/// kept to its low 16 bits.
pub fn distance_cm_to_adc(distance_cm: u16, adc_max: u16) -> (adc: u16)
    ensures
        adc == ((distance_cm * adc_max) / 800) % 65536,
{
    if ANALOG_MAX_RANGE_CM == 0 {
        return 0;
    }
    assert(distance_cm * adc_max <= 65535 * 65535) by (nonlinear_arith);
    let scaled: u32 = (distance_cm as u32) * (adc_max as u32) / (ANALOG_MAX_RANGE_CM as u32);
    assert(scaled as u16 == scaled % 65536) by (bit_vector);
    scaled as u16
}

/// Converts a voltage measured on DAC_OUT (mV) to a distance (cm):
/// `voltage × 800 / vcc`, rounded down and kept to its low 16 bits, and 0
/// when `vcc_mv` is 0.
pub fn voltage_mv_to_distance_cm(voltage_mv: u32, vcc_mv: u32) -> (cm: u16)
    requires
        vcc_mv != 0 ==> voltage_mv * 800 <= u32::MAX,
    ensures
        vcc_mv == 0 ==> cm == 0,
        vcc_mv != 0 ==> cm == ((voltage_mv * 800) / (vcc_mv as int)) % 65536,
{
    if vcc_mv == 0 {
        return 0;
    }
    let scaled: u32 = (voltage_mv * (ANALOG_MAX_RANGE_CM as u32)) / vcc_mv;
    assert(scaled as u16 == scaled % 65536) by (bit_vector);
    scaled as u16
}

/// A voltage equal to Vcc is the full range of 800 cm.
pub proof fn lemma_full_scale_voltage(vcc_mv: u32)
    requires
        vcc_mv > 0,
        vcc_mv * 800 <= u32::MAX,
    ensures
        ((vcc_mv * 800) / (vcc_mv as int)) % 65536 == 800,
{
    assert((vcc_mv * 800) / (vcc_mv as int) == 800) by (nonlinear_arith)
        requires
            vcc_mv > 0,
    ;
}

/// The full range of 800 cm is the ADC's maximum value.
pub proof fn lemma_full_scale_adc(adc_max: u16)
    ensures
        ((800 * adc_max) / 800) % 65536 == adc_max,
{
}

} // verus!
