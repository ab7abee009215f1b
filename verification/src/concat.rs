//! Joining tracks into one Red Book image: which source formats can be copied in.
use vstd::prelude::*;

use crate::text::{decimal, push_decimal, push_str};
use crate::wav::{RED_BOOK_SAMPLE_RATE, WavError};

verus! {

/// Errors in joining tracks into one WAV file.
#[derive(Debug)]
pub enum ConcatError {
    /// There is nothing to join.
    NoTracks,
    /// A source could not be read: path and reason.
    ReadError(String, String),
    /// The output could not be written: path and reason.
    WriteError(String, String),
    /// A source's format cannot be copied in: the reason.
    FormatMismatch(String),
    /// A sample could not be written: the reason.
    SampleError(String),
    /// A WAV file could not be handled.
    WavError(WavError),
}

/// How the samples of a source are copied into the 16-bit image.
#[derive(Debug, Clone, Copy, PartialEq, Eq, Structural)]
pub enum SourceSamples {
    /// 16-bit samples, copied as they are
    Copy16,
    /// 24-bit samples, each shifted right by 8 bits
    Shift24,
}

/// The reason for a sample rate other than Red Book's.
pub open spec fn rate_mismatch_text(rate: u32) -> Seq<char> {
    "Sample rate "@ + decimal(rate as nat) + " doesn't match Red Book 44100"@
}

/// The reason for a bit depth that cannot be copied in.
pub open spec fn bit_depth_text(bits: u16) -> Seq<char> {
    "Unsupported bit depth: "@ + decimal(bits as nat)
}

/// Whether `r` is the format mismatch with reason `m`.
pub open spec fn is_format_mismatch(r: Result<SourceSamples, ConcatError>, m: Seq<char>) -> bool {
    r matches Err(ConcatError::FormatMismatch(s)) && s@ == m
}

/// Check that a source with this sample rate and bit depth can be copied into
/// the image: the rate must be 44.1 kHz, and the depth 16 or 24 bits.
pub fn source_samples(sample_rate: u32, bits_per_sample: u16) -> (r: Result<SourceSamples, ConcatError>)
    ensures
        sample_rate != 44100 ==> is_format_mismatch(r, rate_mismatch_text(sample_rate)),
        sample_rate == 44100 && bits_per_sample == 16 ==> r == Ok::<SourceSamples, ConcatError>(SourceSamples::Copy16),
        sample_rate == 44100 && bits_per_sample == 24 ==> r == Ok::<SourceSamples, ConcatError>(SourceSamples::Shift24),
        sample_rate == 44100 && bits_per_sample != 16 && bits_per_sample != 24 ==> is_format_mismatch(
            r,
            bit_depth_text(bits_per_sample),
        ),
{
    if sample_rate != RED_BOOK_SAMPLE_RATE {
        let mut m = String::from_str("Sample rate ");
        push_decimal(&mut m, sample_rate as u64);
        push_str(&mut m, " doesn't match Red Book 44100");
        return Err(ConcatError::FormatMismatch(m));
    }
    if bits_per_sample == 16 {
        Ok(SourceSamples::Copy16)
    } else if bits_per_sample == 24 {
        Ok(SourceSamples::Shift24)
    } else {
        let mut m = String::from_str("Unsupported bit depth: ");
        push_decimal(&mut m, bits_per_sample as u64);
        Err(ConcatError::FormatMismatch(m))
    }
}

/// The 16-bit sample for a 24-bit sample: its top 16 bits, which for a sample
/// in the 24-bit range is the sample divided by 256 and rounded down. A value
/// outside that range keeps the low 16 bits of the shifted value.
pub fn sample_24_to_16(sample: i32) -> (r: i16)
    ensures
        r == (sample >> 8) as i16,
        -0x80_0000 <= sample < 0x80_0000 ==> r as int == sample as int / 256,
{
    let shifted = sample >> 8;
    assert(-0x80_0000 <= sample < 0x80_0000 ==> (-0x8000 <= shifted < 0x8000 && shifted as int
        == sample as int / 256)) by (bit_vector)
        requires
            shifted == sample >> 8,
    ;
    shifted as i16
}

} // verus!
