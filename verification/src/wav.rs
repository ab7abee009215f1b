use vstd::prelude::*;

use crate::text::{decimal, push_decimal, push_str, string_views};
use crate::time::Duration;

verus! {

/// Red Book CD audio sample rate in Hz.
pub const RED_BOOK_SAMPLE_RATE: u32 = 44100;

/// Red Book CD audio bits per sample.
pub const RED_BOOK_BITS_PER_SAMPLE: u16 = 16;

/// Red Book CD audio channel count.
pub const RED_BOOK_CHANNELS: u16 = 2;

/// Information about a WAV file.
#[derive(Debug)]
pub struct WavInfo {
    /// Sample rate in Hz
    pub sample_rate: u32,
    /// Bits per sample
    pub bits_per_sample: u16,
    /// Number of channels
    pub channels: u16,
    /// Duration of the audio
    pub duration: Duration,
    /// Number of samples (per channel)
    pub num_samples: u64,
    /// File path
    pub path: String,
}

/// Errors in reading and checking WAV files.
#[derive(Debug)]
pub enum WavError {
    /// The file could not be opened: path and reason.
    OpenError(String, String),
    /// The file could not be read: path and reason.
    ReadError(String, String),
    /// The file could not be written: path and reason.
    WriteError(String, String),
    /// The file's format is not Red Book audio.
    NotCompliant { path: String, issues: Vec<String> },
}

/// Errors in reading a WAV file for its waveform.
#[derive(Debug)]
pub enum WaveformError {
    /// The file could not be read: path and reason.
    ReadError(String, String),
}

/// Whether the format is 44.1 kHz, 16-bit stereo.
pub open spec fn red_book_compliant(rate: u32, bits: u16, channels: u16) -> bool {
    rate == 44100 && bits == 16 && channels == 2
}

/// The message for a sample rate other than 44.1 kHz.
pub open spec fn rate_issue(rate: u32) -> Seq<char> {
    "Sample rate is "@ + decimal(rate as nat) + "Hz (needs 44100Hz)"@
}

/// The message for a bit depth other than 16.
pub open spec fn bits_issue(bits: u16) -> Seq<char> {
    "Bit depth is "@ + decimal(bits as nat) + " (needs 16)"@
}

/// The message for a channel count other than 2.
pub open spec fn channels_issue(channels: u16) -> Seq<char> {
    "Channels: "@ + decimal(channels as nat) + " (needs 2 stereo)"@
}

/// The format issues of a WAV file, in the order rate, bit depth, channels.
pub open spec fn format_issue_texts(rate: u32, bits: u16, channels: u16) -> Seq<Seq<char>> {
    (if rate != 44100 {
        seq![rate_issue(rate)]
    } else {
        Seq::empty()
    }) + (if bits != 16 {
        seq![bits_issue(bits)]
    } else {
        Seq::empty()
    }) + (if channels != 2 {
        seq![channels_issue(channels)]
    } else {
        Seq::empty()
    })
}

/// The human-readable format: "44100Hz, 16-bit, 2 channels", with "channel" for one.
pub open spec fn format_description_text(rate: u32, bits: u16, channels: u16) -> Seq<char> {
    decimal(rate as nat) + "Hz, "@ + decimal(bits as nat) + "-bit, "@ + decimal(channels as nat)
        + " channel"@ + if channels == 1 {
        Seq::empty()
    } else {
        seq!['s']
    }
}

impl WavInfo {
    /// Check if the WAV file is Red Book compliant.
    pub fn is_red_book_compliant(&self) -> (b: bool)
        ensures
            b == red_book_compliant(self.sample_rate, self.bits_per_sample, self.channels),
    {
        self.sample_rate == RED_BOOK_SAMPLE_RATE && self.bits_per_sample
            == RED_BOOK_BITS_PER_SAMPLE && self.channels == RED_BOOK_CHANNELS
    }

    /// Get a list of format issues (empty if compliant).
    pub fn format_issues(&self) -> (v: Vec<String>)
        ensures
            string_views(v@) == format_issue_texts(
                self.sample_rate,
                self.bits_per_sample,
                self.channels,
            ),
    {
        let mut issues: Vec<String> = Vec::new();
        if self.sample_rate != RED_BOOK_SAMPLE_RATE {
            let mut m = String::new();
            push_str(&mut m, "Sample rate is ");
            push_decimal(&mut m, self.sample_rate as u64);
            push_str(&mut m, "Hz (needs 44100Hz)");
            issues.push(m);
        }
        let ghost after_rate = issues@;
        if self.bits_per_sample != RED_BOOK_BITS_PER_SAMPLE {
            let mut m = String::new();
            push_str(&mut m, "Bit depth is ");
            push_decimal(&mut m, self.bits_per_sample as u64);
            push_str(&mut m, " (needs 16)");
            issues.push(m);
        }
        let ghost after_bits = issues@;
        if self.channels != RED_BOOK_CHANNELS {
            let mut m = String::new();
            push_str(&mut m, "Channels: ");
            push_decimal(&mut m, self.channels as u64);
            push_str(&mut m, " (needs 2 stereo)");
            issues.push(m);
        }
        assert(string_views(issues@) =~= format_issue_texts(
            self.sample_rate,
            self.bits_per_sample,
            self.channels,
        ));
        issues
    }

    /// Get a human-readable format description.
    pub fn format_description(&self) -> (s: String)
        ensures
            s@ == format_description_text(self.sample_rate, self.bits_per_sample, self.channels),
    {
        let mut s = String::new();
        push_decimal(&mut s, self.sample_rate as u64);
        push_str(&mut s, "Hz, ");
        push_decimal(&mut s, self.bits_per_sample as u64);
        push_str(&mut s, "-bit, ");
        push_decimal(&mut s, self.channels as u64);
        push_str(&mut s, " channel");
        if self.channels != 1 {
            push_str(&mut s, "s");
            proof {
                reveal_strlit("s");
            }
        }
        assert(s@ =~= format_description_text(self.sample_rate, self.bits_per_sample, self.channels));
        s
    }
}

/// Validate a WAV file's information for Red Book compliance: the information
/// back when it is compliant, else its path and format issues.
pub fn validate_wav(info: WavInfo) -> (r: Result<WavInfo, WavError>)
    ensures
        red_book_compliant(info.sample_rate, info.bits_per_sample, info.channels) ==> r == Ok::<
            WavInfo,
            WavError,
        >(info),
        !red_book_compliant(info.sample_rate, info.bits_per_sample, info.channels) ==> (r matches Err(
            WavError::NotCompliant { path, issues },
        ) && path == info.path && string_views(issues@) == format_issue_texts(
            info.sample_rate,
            info.bits_per_sample,
            info.channels,
        )),
{
    if !info.is_red_book_compliant() {
        let issues = info.format_issues();
        return Err(WavError::NotCompliant { path: info.path, issues });
    }
    Ok(info)
}

} // verus!
