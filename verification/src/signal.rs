//! How a batch of synthetic sample points is laid out: which frequency each
//! channel carries, which instants the points of a batch stand for, and how
//! long a batch takes to collect.
//!
//! The waveform itself is the caller's: a function from a frequency in hertz
//! and an instant in microseconds to the bit pattern of the value there.
use crate::clock::{elapsed_micros, micros_between};
use crate::config::accepted;
use crate::types::{AdcConfig, AdcData, DriverError, SampleView};
use vstd::prelude::*;

verus! {

/// The frequency in hertz of the wave on the channel at position `channel`
/// of the configured list.
pub open spec fn channel_frequency(channel: nat) -> nat {
    2 + 4 * channel
}

/// The microseconds between two consecutive sample points, rounded down.
pub open spec fn sample_interval(sample_rate: nat) -> nat {
    1_000_000nat / sample_rate
}

/// The instant of the sample point at `index` of a batch that starts at
/// `base`.
pub open spec fn sample_instant(base: nat, sample_rate: nat, index: nat) -> nat {
    base + index * sample_interval(sample_rate)
}

/// The milliseconds that collecting a batch takes, rounded down.
pub open spec fn batch_duration(batch_size: nat, sample_rate: nat) -> nat {
    1000nat * batch_size / sample_rate
}

/// `point` is what `wave` gives at `instant` on each of `channels` channels:
/// one value per channel, that of the channel's frequency.
pub open spec fn is_sample_point<F: Fn(u64, u64) -> u32>(
    point: SampleView,
    channels: nat,
    instant: nat,
    wave: &F,
) -> bool {
    &&& point.timestamp == instant
    &&& point.samples.len() == channels
    &&& forall|c: int|
        0 <= c < channels ==> (#[trigger] point.samples[c]).len() == 1 && call_ensures(
            *wave,
            (channel_frequency(c as nat) as u64, instant as u64),
            point.samples[c][0],
        )
}

/// The frequency of every channel fits the waveform's argument.
pub open spec fn frequencies_fit(channels: nat) -> bool {
    channel_frequency(channels) <= u64::MAX
}

/// The instants of a batch of `config` that starts at `base` fit the
/// timestamp of a sample point.
pub open spec fn batch_fits(config: &AdcConfig, base: u64) -> bool {
    sample_instant(base as nat, config.sample_rate as nat, config.batch_size as nat) <= u64::MAX
}

/// A batch of `config` that starts at `base` can be generated and waited
/// for: the sample rate is positive, and the frequencies, the instants and
/// the duration of the batch fit their 64 bits.
pub open spec fn can_sample(config: &AdcConfig, base: u64) -> bool {
    &&& config.sample_rate > 0
    &&& frequencies_fit(config.channels@.len())
    &&& batch_fits(config, base)
    &&& 1000 * config.batch_size <= u64::MAX
}

/// Decides whether a batch of `config` that starts at `base_timestamp` can
/// be generated and waited for.
pub fn check_sampling(config: &AdcConfig, base_timestamp: u64) -> (ok: bool)
    ensures
        ok == can_sample(config, base_timestamp),
{
    if config.sample_rate == 0 {
        return false;
    }
    let channels = config.channels.len() as u64;
    if channels > (u64::MAX - 2) / 4 {
        return false;
    }
    let batch_size = config.batch_size as u64;
    if batch_size > u64::MAX / 1000 {
        return false;
    }
    let interval: u64 = (1_000_000 / config.sample_rate) as u64;
    match batch_size.checked_mul(interval) {
        Some(span) => span <= u64::MAX - base_timestamp,
        None => false,
    }
}

/// Builds the sample point of the instant `relative_micros`: on each
/// configured channel the value of `wave` at the channel's frequency.
pub fn test_data<F: Fn(u64, u64) -> u32>(
    config: &AdcConfig,
    relative_micros: u64,
    wave: &F,
) -> (point: AdcData)
    requires
        frequencies_fit(config.channels@.len()),
        forall|hz: u64, micros: u64| call_requires(*wave, (hz, micros)),
    ensures
        is_sample_point(point@, config.channels@.len(), relative_micros as nat, wave),
{
    let count = config.channels.len();
    let mut samples: Vec<Vec<u32>> = Vec::with_capacity(count);
    let mut channel: usize = 0;
    while channel < count
        invariant
            count == config.channels@.len(),
            frequencies_fit(count as nat),
            channel <= count,
            samples@.len() == channel,
            forall|hz: u64, micros: u64| call_requires(*wave, (hz, micros)),
            forall|c: int|
                0 <= c < channel ==> (#[trigger] samples@[c])@.len() == 1 && call_ensures(
                    *wave,
                    (channel_frequency(c as nat) as u64, relative_micros),
                    samples@[c]@[0],
                ),
        decreases count - channel,
    {
        let hz: u64 = 2 + 4 * (channel as u64);
        let value = wave(hz, relative_micros);
        let mut readings: Vec<u32> = Vec::with_capacity(1);
        readings.push(value);
        samples.push(readings);
        channel += 1;
    }
    let point = AdcData { samples, timestamp: relative_micros };
    assert(is_sample_point(point@, count as nat, relative_micros as nat, wave));
    point
}

/// `batch` is the batch of `config` that starts at `base`: as many sample
/// points as the batch size, one sample interval apart, each what `wave`
/// gives at its instant.
pub open spec fn is_batch<F: Fn(u64, u64) -> u32>(
    batch: Seq<AdcData>,
    config: &AdcConfig,
    base: u64,
    wave: &F,
) -> bool {
    &&& batch.len() == config.batch_size
    &&& forall|i: int|
        0 <= i < batch.len() ==> is_sample_point(
            (#[trigger] batch[i])@,
            config.channels@.len(),
            sample_instant(base as nat, config.sample_rate as nat, i as nat),
            wave,
        )
}

/// Builds the batch of `config` that starts at `base_timestamp`: as many
/// sample points as the batch size, one sample interval apart.
pub fn generate_batch<F: Fn(u64, u64) -> u32>(
    config: &AdcConfig,
    base_timestamp: u64,
    wave: &F,
) -> (batch: Vec<AdcData>)
    requires
        config.sample_rate > 0,
        batch_fits(config, base_timestamp),
        frequencies_fit(config.channels@.len()),
        forall|hz: u64, micros: u64| call_requires(*wave, (hz, micros)),
    ensures
        is_batch(batch@, config, base_timestamp, wave),
{
    let batch_size = config.batch_size;
    let interval: u64 = (1_000_000 / config.sample_rate) as u64;
    let mut batch: Vec<AdcData> = Vec::with_capacity(batch_size);
    let mut i: usize = 0;
    while i < batch_size
        invariant
            batch_size == config.batch_size,
            interval == sample_interval(config.sample_rate as nat),
            batch_fits(config, base_timestamp),
            frequencies_fit(config.channels@.len()),
            forall|hz: u64, micros: u64| call_requires(*wave, (hz, micros)),
            i <= batch_size,
            batch@.len() == i,
            forall|k: int|
                0 <= k < i ==> is_sample_point(
                    (#[trigger] batch@[k])@,
                    config.channels@.len(),
                    sample_instant(base_timestamp as nat, config.sample_rate as nat, k as nat),
                    wave,
                ),
        decreases batch_size - i,
    {
        assert(i * interval <= batch_size * interval) by (nonlinear_arith)
            requires
                i <= batch_size,
                interval >= 0,
        ;
        let relative_timestamp: u64 = base_timestamp + (i as u64) * interval;
        let point = test_data(config, relative_timestamp, wave);
        batch.push(point);
        i += 1;
    }
    batch
}

/// The milliseconds to wait after a batch of `config`, so that batches
/// follow one another as they would come from the converter.
pub fn batch_sleep_millis(config: &AdcConfig) -> (millis: u64)
    requires
        config.sample_rate > 0,
        1000 * config.batch_size <= u64::MAX,
    ensures
        millis == batch_duration(config.batch_size as nat, config.sample_rate as nat),
{
    (1000 * (config.batch_size as u64)) / (config.sample_rate as u64)
}

/// One turn of the sampling task: the batch to put on the queue and the
/// milliseconds to wait after it, or `None` where the task has to end.
///
/// `snapshot` is what the task read from the driver, `start_time` the clock
/// when the task began, and `reading` the clock now. The task ends where
/// the driver gave no configuration, where the clock could not be read, and
/// where the batch cannot be sampled.
pub fn sampling_turn<F: Fn(u64, u64) -> u32>(
    snapshot: Option<AdcConfig>,
    start_time: u64,
    reading: Result<u64, DriverError>,
    wave: &F,
) -> (turn: Option<(Vec<AdcData>, u64)>)
    requires
        forall|hz: u64, micros: u64| call_requires(*wave, (hz, micros)),
    ensures
        match (snapshot, reading) {
            (Some(config), Ok(now)) => if can_sample(&config, micros_between(start_time, now)) {
                &&& turn matches Some((batch, millis))
                &&& is_batch(batch@, &config, micros_between(start_time, now), wave)
                &&& millis == batch_duration(config.batch_size as nat, config.sample_rate as nat)
            } else {
                turn is None
            },
            _ => turn is None,
        },
{
    match (snapshot, reading) {
        (Some(config), Ok(now)) => {
            let base_timestamp = elapsed_micros(start_time, now);
            if check_sampling(&config, base_timestamp) {
                let batch = generate_batch(&config, base_timestamp, wave);
                let millis = batch_sleep_millis(&config);
                Some((batch, millis))
            } else {
                None
            }
        },
        _ => None,
    }
}

/// A configuration that a driver accepts can be sampled at every start
/// instant that leaves ten thousand seconds below the end of the 64-bit
/// range.
pub proof fn lemma_accepted_can_sample(config: &AdcConfig, additional: nat, base: u64)
    requires
        accepted(config@, additional),
        base + 10_000_000_000 <= u64::MAX,
    ensures
        can_sample(config, base),
{
    let interval = sample_interval(config.sample_rate as nat);
    assert(interval <= 1_000_000) by (nonlinear_arith)
        requires
            interval == 1_000_000nat / (config.sample_rate as nat),
            config.sample_rate > 0,
    ;
    assert(config.batch_size * interval <= 10_000_000_000) by (nonlinear_arith)
        requires
            config.batch_size <= 10000,
            interval <= 1_000_000,
    ;
}

/// Two consecutive sample points of a batch are exactly one sample interval
/// apart.
pub proof fn lemma_consecutive_instants(base: nat, sample_rate: nat, index: nat)
    ensures
        sample_instant(base, sample_rate, index + 1) - sample_instant(base, sample_rate, index)
            == sample_interval(sample_rate),
{
    assert((index + 1) * sample_interval(sample_rate) == index * sample_interval(sample_rate)
        + sample_interval(sample_rate)) by (nonlinear_arith);
}

} // verus!
