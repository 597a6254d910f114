//! The settings of one oscillator, and the builder that validates them.
//!
//! Frequency and amplitude factor are IEEE 754 single-precision numbers. The library
//! carries them as their bit patterns, as `to_bits` gives them, and never computes
//! with them: the caller's tone source does.

use vstd::prelude::*;

verus! {

/// The bit pattern of 440.0, the A above middle C in hertz.
pub const DEFAULT_FREQUENCY: u32 = 0x43dc_0000;

/// A common sample rate, in hertz.
pub const DEFAULT_SAMPLE_RATE: u32 = 48000;

/// Mono.
pub const DEFAULT_CHANNELS: usize = 1;

/// The bit pattern of 1.0: the tone at full scale.
pub const DEFAULT_FACTOR: u32 = 0x3f80_0000;

/// The bit pattern of positive infinity, the largest pattern of a positive number.
pub const POSITIVE_INFINITY: u32 = 0x7f80_0000;

/// Whether the single-precision number with these bits is greater than zero: its sign
/// bit is clear and it is neither zero nor a NaN.
pub open spec fn positive_single(bits: u32) -> bool {
    0 < bits <= POSITIVE_INFINITY
}

/// Decides `positive_single`.
pub fn is_positive_single(bits: u32) -> (positive: bool)
    ensures
        positive == positive_single(bits),
{
    0 < bits && bits <= POSITIVE_INFINITY
}

/// Why a builder's settings make no oscillator.
#[derive(Debug, Clone, Copy, PartialEq, Eq, Structural)]
pub enum ConfigError {
    /// The frequency is zero, negative or not a number.
    NonPositiveFrequency,
    /// The sample rate is zero.
    ZeroSampleRate,
    /// There is no channel to write to.
    ZeroChannels,
}

/// The validated settings of one oscillator.
#[derive(Debug, Clone, Copy)]
pub struct TonePlayerConfig {
    frequency: u32,
    sample_rate: u32,
    channels: usize,
    mix: bool,
    factor: u32,
}

impl TonePlayerConfig {
    #[verifier::type_invariant]
    spec fn valid(&self) -> bool {
        &&& positive_single(self.frequency)
        &&& self.sample_rate > 0
        &&& self.channels > 0
    }

    /// The frequency in hertz, as bits.
    pub closed spec fn spec_frequency(&self) -> u32 {
        self.frequency
    }

    /// The sample rate in hertz.
    pub closed spec fn spec_sample_rate(&self) -> u32 {
        self.sample_rate
    }

    /// The number of interleaved channels.
    pub closed spec fn spec_channels(&self) -> usize {
        self.channels
    }

    /// Whether the tone is added to what the buffer holds.
    pub closed spec fn spec_mix(&self) -> bool {
        self.mix
    }

    /// The amplitude factor, as bits.
    pub closed spec fn spec_factor(&self) -> u32 {
        self.factor
    }

    /// The frequency in hertz, as bits. It is greater than zero.
    #[verifier::when_used_as_spec(spec_frequency)]
    pub fn frequency(&self) -> (bits: u32)
        ensures
            bits == self.spec_frequency(),
            positive_single(bits),
    {
        proof {
            use_type_invariant(self);
        }
        self.frequency
    }

    /// The sample rate in hertz. It is not zero.
    #[verifier::when_used_as_spec(spec_sample_rate)]
    pub fn sample_rate(&self) -> (rate: u32)
        ensures
            rate == self.spec_sample_rate(),
            rate > 0,
    {
        proof {
            use_type_invariant(self);
        }
        self.sample_rate
    }

    /// The number of interleaved channels. It is not zero.
    #[verifier::when_used_as_spec(spec_channels)]
    pub fn channels(&self) -> (channels: usize)
        ensures
            channels == self.spec_channels(),
            channels > 0,
    {
        proof {
            use_type_invariant(self);
        }
        self.channels
    }

    /// Whether the tone is added to what the buffer holds rather than replacing it.
    #[verifier::when_used_as_spec(spec_mix)]
    pub fn mix(&self) -> (mix: bool)
        ensures
            mix == self.spec_mix(),
    {
        self.mix
    }

    /// The amplitude factor, as bits.
    #[verifier::when_used_as_spec(spec_factor)]
    pub fn factor(&self) -> (bits: u32)
        ensures
            bits == self.spec_factor(),
    {
        self.factor
    }
}

impl Default for TonePlayerConfig {
    /// A 440 Hz tone at full scale, mono at 48 kHz, replacing what the buffer holds.
    fn default() -> (config: Self)
        ensures
            config.frequency() == DEFAULT_FREQUENCY,
            config.sample_rate() == DEFAULT_SAMPLE_RATE,
            config.channels() == DEFAULT_CHANNELS,
            config.mix() == false,
            config.factor() == DEFAULT_FACTOR,
    {
        TonePlayerConfig {
            frequency: DEFAULT_FREQUENCY,
            sample_rate: DEFAULT_SAMPLE_RATE,
            channels: DEFAULT_CHANNELS,
            mix: false,
            factor: DEFAULT_FACTOR,
        }
    }
}

/// The settings of an oscillator before they are validated. Each starts at its default
/// and can be replaced; `build` validates all of them at once.
#[derive(Debug, Clone, Copy)]
pub struct TonePlayerConfigBuilder {
    pub frequency: u32,
    pub sample_rate: u32,
    pub channels: usize,
    pub mix: bool,
    pub factor: u32,
}

impl Default for TonePlayerConfigBuilder {
    fn default() -> (builder: Self)
        ensures
            builder == (TonePlayerConfigBuilder {
                frequency: DEFAULT_FREQUENCY,
                sample_rate: DEFAULT_SAMPLE_RATE,
                channels: DEFAULT_CHANNELS,
                mix: false,
                factor: DEFAULT_FACTOR,
            }),
    {
        TonePlayerConfigBuilder {
            frequency: DEFAULT_FREQUENCY,
            sample_rate: DEFAULT_SAMPLE_RATE,
            channels: DEFAULT_CHANNELS,
            mix: false,
            factor: DEFAULT_FACTOR,
        }
    }
}

impl TonePlayerConfigBuilder {
    /// The first fault in the settings, in the order frequency, sample rate, channels;
    /// `None` where they make an oscillator.
    pub open spec fn fault(&self) -> Option<ConfigError> {
        if !positive_single(self.frequency) {
            Some(ConfigError::NonPositiveFrequency)
        } else if self.sample_rate == 0 {
            Some(ConfigError::ZeroSampleRate)
        } else if self.channels == 0 {
            Some(ConfigError::ZeroChannels)
        } else {
            None
        }
    }

    /// Sets the frequency in hertz, given as the bits of a single-precision number.
    pub fn frequency(self, bits: u32) -> (builder: Self)
        ensures
            builder == (TonePlayerConfigBuilder { frequency: bits, ..self }),
    {
        TonePlayerConfigBuilder { frequency: bits, ..self }
    }

    /// Sets the sample rate in hertz.
    pub fn sample_rate(self, rate: u32) -> (builder: Self)
        ensures
            builder == (TonePlayerConfigBuilder { sample_rate: rate, ..self }),
    {
        TonePlayerConfigBuilder { sample_rate: rate, ..self }
    }

    /// Sets the number of interleaved channels.
    pub fn channels(self, channels: usize) -> (builder: Self)
        ensures
            builder == (TonePlayerConfigBuilder { channels, ..self }),
    {
        TonePlayerConfigBuilder { channels, ..self }
    }

    /// Chooses between adding the tone to the buffer and replacing what it holds.
    pub fn mix(self, mix: bool) -> (builder: Self)
        ensures
            builder == (TonePlayerConfigBuilder { mix, ..self }),
    {
        TonePlayerConfigBuilder { mix, ..self }
    }

    /// Sets the amplitude factor, given as the bits of a single-precision number.
    pub fn factor(self, bits: u32) -> (builder: Self)
        ensures
            builder == (TonePlayerConfigBuilder { factor: bits, ..self }),
    {
        TonePlayerConfigBuilder { factor: bits, ..self }
    }

    /// Validates the settings. They are accepted exactly where they have no fault, and
    /// the oscillator's settings are then the builder's.
    pub fn build(self) -> (built: Result<TonePlayerConfig, ConfigError>)
        ensures
            match self.fault() {
                Some(error) => built == Err::<TonePlayerConfig, ConfigError>(error),
                None => built is Ok && built->Ok_0.frequency() == self.frequency
                    && built->Ok_0.sample_rate() == self.sample_rate
                    && built->Ok_0.channels() == self.channels
                    && built->Ok_0.mix() == self.mix
                    && built->Ok_0.factor() == self.factor,
            },
    {
        if !is_positive_single(self.frequency) {
            Err(ConfigError::NonPositiveFrequency)
        } else if self.sample_rate == 0 {
            Err(ConfigError::ZeroSampleRate)
        } else if self.channels == 0 {
            Err(ConfigError::ZeroChannels)
        } else {
            Ok(
                TonePlayerConfig {
                    frequency: self.frequency,
                    sample_rate: self.sample_rate,
                    channels: self.channels,
                    mix: self.mix,
                    factor: self.factor,
                },
            )
        }
    }
}

} // verus!
