//! The integer parameters of a PCM signal: sample rate, sample width and channel count.

use vstd::prelude::*;

verus! {

/// The widest sample this library stores: samples are held as `u16`.
pub const MAX_BITS_PER_SAMPLE: u32 = 16;

/// Why a sample format was refused.
#[derive(Clone, Copy, Debug, PartialEq, Eq, Structural)]
pub enum FormatError {
    /// The sample rate was zero.
    ZeroSampleRate,
    /// The sample width was zero or wider than 16 bits.
    UnsupportedBitDepth,
    /// The channel count was zero.
    ZeroChannels,
}

/// What `PcmFormat::new` does with the given parameters.
pub open spec fn format_check(sample_rate: u32, bits_per_sample: u32, number_of_channels: u32) -> Option<
    FormatError,
> {
    if sample_rate == 0 {
        Some(FormatError::ZeroSampleRate)
    } else if bits_per_sample == 0 || bits_per_sample > MAX_BITS_PER_SAMPLE {
        Some(FormatError::UnsupportedBitDepth)
    } else if number_of_channels == 0 {
        Some(FormatError::ZeroChannels)
    } else {
        None
    }
}

/// A validated PCM sample format: a positive sample rate in Hz, a sample width of
/// 1 to 16 bits, and a positive number of channels.
#[derive(Clone, Copy, Debug)]
pub struct PcmFormat {
    sample_rate: u32,
    bits_per_sample: u32,
    number_of_channels: u32,
}

impl PcmFormat {
    #[verifier::type_invariant]
    spec fn valid(self) -> bool {
        format_check(self.sample_rate, self.bits_per_sample, self.number_of_channels) is None
    }

    pub closed spec fn spec_sample_rate(self) -> u32 {
        self.sample_rate
    }

    pub closed spec fn spec_bits_per_sample(self) -> u32 {
        self.bits_per_sample
    }

    pub closed spec fn spec_number_of_channels(self) -> u32 {
        self.number_of_channels
    }

    /// Builds a format, refusing a zero sample rate, a zero or wider than 16-bit
    /// sample, and a zero channel count, in that order.
    pub fn new(sample_rate: u32, bits_per_sample: u32, number_of_channels: u32) -> (r: Result<
        PcmFormat,
        FormatError,
    >)
        ensures
            r is Err <==> format_check(sample_rate, bits_per_sample, number_of_channels) is Some,
            r matches Err(e) ==> format_check(sample_rate, bits_per_sample, number_of_channels)
                == Some(e),
            r matches Ok(f) ==> (f.spec_sample_rate() == sample_rate && f.spec_bits_per_sample()
                == bits_per_sample && f.spec_number_of_channels() == number_of_channels),
    {
        if sample_rate == 0 {
            Err(FormatError::ZeroSampleRate)
        } else if bits_per_sample == 0 || bits_per_sample > MAX_BITS_PER_SAMPLE {
            Err(FormatError::UnsupportedBitDepth)
        } else if number_of_channels == 0 {
            Err(FormatError::ZeroChannels)
        } else {
            Ok(PcmFormat { sample_rate, bits_per_sample, number_of_channels })
        }
    }

    pub fn get_sample_rate(&self) -> (r: u32)
        ensures
            r == self.spec_sample_rate(),
            r > 0,
    {
        proof {
            use_type_invariant(self);
        }
        self.sample_rate
    }

    pub fn get_bits_per_sample(&self) -> (r: u32)
        ensures
            r == self.spec_bits_per_sample(),
            1 <= r <= MAX_BITS_PER_SAMPLE,
    {
        proof {
            use_type_invariant(self);
        }
        self.bits_per_sample
    }

    pub fn get_number_of_channels(&self) -> (r: u32)
        ensures
            r == self.spec_number_of_channels(),
            r > 0,
    {
        proof {
            use_type_invariant(self);
        }
        self.number_of_channels
    }

    /// The largest quantized sample value, `2^bits_per_sample - 1`.
    pub fn max_sample_value(&self) -> (r: u16)
        ensures
            r == vstd::arithmetic::power2::pow2(self.spec_bits_per_sample() as nat) - 1,
    {
        proof {
            use_type_invariant(self);
        }
        let bits = self.bits_per_sample;
        proof {
            vstd::arithmetic::power2::lemma2_to64();
            if bits < 16 {
                vstd::arithmetic::power2::lemma_pow2_strictly_increases(bits as nat, 16);
            }
            vstd::bits::lemma_u32_shl_is_mul(1, bits);
        }
        let full: u32 = 1u32 << bits;
        (full - 1) as u16
    }
}

} // verus!
