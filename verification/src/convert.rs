use vstd::prelude::*;

use crate::text::{decimal, push_decimal, push_str};
use crate::wav::{RED_BOOK_BITS_PER_SAMPLE, RED_BOOK_CHANNELS, RED_BOOK_SAMPLE_RATE};

verus! {

/// Options for WAV conversion.
#[derive(Debug, Clone, Copy, PartialEq, Eq, Structural)]
pub struct ConvertOptions {
    /// Target sample rate (default: 44100)
    pub sample_rate: u32,
    /// Target bit depth (default: 16)
    pub bits_per_sample: u16,
    /// Target channels (default: 2 for stereo)
    pub channels: u16,
    /// Dithering for bit depth reduction (recommended for 24->16 bit)
    pub dither: bool,
}

/// Whether `o` asks for Red Book output with dithering.
pub open spec fn is_red_book_options(o: ConvertOptions) -> bool {
    o.sample_rate == 44100 && o.bits_per_sample == 16 && o.channels == 2 && o.dither
}

impl Default for ConvertOptions {
    fn default() -> (o: ConvertOptions)
        ensures
            is_red_book_options(o),
    {
        ConvertOptions {
            sample_rate: RED_BOOK_SAMPLE_RATE,
            bits_per_sample: RED_BOOK_BITS_PER_SAMPLE,
            channels: RED_BOOK_CHANNELS,
            dither: true,
        }
    }
}

impl ConvertOptions {
    /// Create options for Red Book compliant output.
    pub fn red_book() -> (o: ConvertOptions)
        ensures
            is_red_book_options(o),
    {
        ConvertOptions::default()
    }
}

/// Errors in converting WAV files.
#[derive(Debug)]
pub enum ConvertError {
    /// The input could not be read: path and reason.
    ReadError(String, String),
    /// The output could not be written: path and reason.
    WriteError(String, String),
    /// The sample format is not handled.
    UnsupportedFormat(String),
    /// No conversion between these channel counts.
    UnsupportedChannelConversion(u16, u16),
    /// The resampler failed.
    ResampleError(String),
}

/// Result of a WAV conversion.
#[derive(Debug, Clone, Copy, PartialEq, Eq, Structural)]
pub struct ConversionResult {
    pub input_sample_rate: u32,
    pub output_sample_rate: u32,
    pub input_bits: u16,
    pub output_bits: u16,
    pub input_channels: u16,
    pub output_channels: u16,
    pub resampled: bool,
    pub bit_converted: bool,
    pub channel_converted: bool,
}

/// `parts` joined with `sep` between neighbours.
pub open spec fn join(parts: Seq<Seq<char>>, sep: Seq<char>) -> Seq<char>
    decreases parts.len(),
{
    if parts.len() == 0 {
        Seq::empty()
    } else if parts.len() == 1 {
        parts[0]
    } else {
        join(parts.drop_last(), sep) + sep + parts.last()
    }
}

/// "mono" for one channel, "stereo" for any other count.
pub open spec fn channel_word(channels: u16) -> Seq<char> {
    if channels == 1 {
        "mono"@
    } else {
        "stereo"@
    }
}

/// The changes a conversion made, in the order rate, bit depth, channels.
pub open spec fn change_texts(r: ConversionResult) -> Seq<Seq<char>> {
    (if r.resampled {
        seq![
            decimal(r.input_sample_rate as nat) + "Hz -> "@ + decimal(r.output_sample_rate as nat)
                + "Hz"@,
        ]
    } else {
        Seq::empty()
    }) + (if r.bit_converted {
        seq![
            decimal(r.input_bits as nat) + "-bit -> "@ + decimal(r.output_bits as nat)
                + "-bit"@,
        ]
    } else {
        Seq::empty()
    }) + (if r.channel_converted {
        seq![channel_word(r.input_channels) + " -> "@ + channel_word(r.output_channels)]
    } else {
        Seq::empty()
    })
}

/// The conversion summary: the changes joined by ", ", or "No conversion needed".
pub open spec fn summary_text(r: ConversionResult) -> Seq<char> {
    if change_texts(r).len() == 0 {
        "No conversion needed"@
    } else {
        join(change_texts(r), ", "@)
    }
}

/// Appends "mono" or "stereo" for the channel count.
fn push_channel_word(s: &mut String, channels: u16)
    ensures
        final(s)@ == old(s)@ + channel_word(channels),
{
    if channels == 1 {
        push_str(s, "mono");
    } else {
        push_str(s, "stereo");
    }
}

impl ConversionResult {
    /// What converting a file of the given format with `options` does: resample,
    /// convert bit depth and channels wherever the input differs from the target.
    pub fn plan(
        input_sample_rate: u32,
        input_bits: u16,
        input_channels: u16,
        options: &ConvertOptions,
    ) -> (r: ConversionResult)
        ensures
            r.input_sample_rate == input_sample_rate,
            r.output_sample_rate == options.sample_rate,
            r.input_bits == input_bits,
            r.output_bits == options.bits_per_sample,
            r.input_channels == input_channels,
            r.output_channels == options.channels,
            r.resampled == (input_sample_rate != options.sample_rate),
            r.bit_converted == (input_bits != options.bits_per_sample),
            r.channel_converted == (input_channels != options.channels),
    {
        ConversionResult {
            input_sample_rate,
            output_sample_rate: options.sample_rate,
            input_bits,
            output_bits: options.bits_per_sample,
            input_channels,
            output_channels: options.channels,
            resampled: input_sample_rate != options.sample_rate,
            bit_converted: input_bits != options.bits_per_sample,
            channel_converted: input_channels != options.channels,
        }
    }

    /// Get a human-readable summary of the conversion.
    pub fn summary(&self) -> (s: String)
        ensures
            s@ == summary_text(*self),
    {
        let mut s = String::new();
        let mut count: usize = 0;
        let ghost texts = change_texts(*self);
        if self.resampled {
            push_decimal(&mut s, self.input_sample_rate as u64);
            push_str(&mut s, "Hz -> ");
            push_decimal(&mut s, self.output_sample_rate as u64);
            push_str(&mut s, "Hz");
            count = count + 1;
        }
        let ghost p1: Seq<Seq<char>> = if self.resampled {
            seq![
                decimal(self.input_sample_rate as nat) + "Hz -> "@ + decimal(
                    self.output_sample_rate as nat,
                ) + "Hz"@,
            ]
        } else {
            Seq::empty()
        };
        assert(s@ =~= join(p1, ", "@));
        let ghost s1 = s@;
        if self.bit_converted {
            if count > 0 {
                push_str(&mut s, ", ");
            }
            push_decimal(&mut s, self.input_bits as u64);
            push_str(&mut s, "-bit -> ");
            push_decimal(&mut s, self.output_bits as u64);
            push_str(&mut s, "-bit");
            count = count + 1;
        }
        let ghost p2: Seq<Seq<char>> = p1 + if self.bit_converted {
            seq![
                decimal(self.input_bits as nat) + "-bit -> "@ + decimal(self.output_bits as nat)
                    + "-bit"@,
            ]
        } else {
            Seq::empty()
        };
        proof {
            if self.bit_converted {
                assert(p2.drop_last() =~= p1);
            } else {
                assert(p2 =~= p1);
            }
        }
        assert(s@ =~= join(p2, ", "@));
        assert(count == p2.len());
        if self.channel_converted {
            if count > 0 {
                push_str(&mut s, ", ");
            }
            push_channel_word(&mut s, self.input_channels);
            push_str(&mut s, " -> ");
            push_channel_word(&mut s, self.output_channels);
            count = count + 1;
        }
        let ghost p3: Seq<Seq<char>> = p2 + if self.channel_converted {
            seq![channel_word(self.input_channels) + " -> "@ + channel_word(self.output_channels)]
        } else {
            Seq::empty()
        };
        proof {
            if self.channel_converted {
                assert(p3.drop_last() =~= p2);
            } else {
                assert(p3 =~= p2);
            }
        }
        assert(s@ =~= join(p3, ", "@));
        assert(p3 =~= texts);
        if count == 0 {
            return String::from_str("No conversion needed");
        }
        s
    }
}

/// The sample encodings the converter reads.
#[derive(Debug, Clone, Copy, PartialEq, Eq, Structural)]
pub enum SampleDecoding {
    /// 8-bit integer samples
    Int8,
    /// 16-bit integer samples
    Int16,
    /// 24-bit integer samples
    Int24,
    /// 32-bit integer samples
    Int32,
    /// 32-bit float samples
    Float32,
}

/// Whether WAV samples are integers or floats.
#[derive(Debug, Clone, Copy, PartialEq, Eq, Structural)]
pub enum SampleFormat {
    /// Integer samples
    Int,
    /// Floating-point samples
    Float,
}

/// The name of a sample format as its debug form shows it.
pub open spec fn format_word(f: SampleFormat) -> Seq<char> {
    match f {
        SampleFormat::Int => "Int"@,
        SampleFormat::Float => "Float"@,
    }
}

/// How to read samples of the given format and width: integers of 8, 16, 24 or
/// 32 bits, or 32-bit floats; any other combination is unsupported.
pub fn sample_decoding(format: SampleFormat, bits: u16) -> (r: Result<
    SampleDecoding,
    ConvertError,
>)
    ensures
        (format, bits) == (SampleFormat::Int, 8u16) ==> r == Ok::<SampleDecoding, ConvertError>(
            SampleDecoding::Int8,
        ),
        (format, bits) == (SampleFormat::Int, 16u16) ==> r == Ok::<SampleDecoding, ConvertError>(
            SampleDecoding::Int16,
        ),
        (format, bits) == (SampleFormat::Int, 24u16) ==> r == Ok::<SampleDecoding, ConvertError>(
            SampleDecoding::Int24,
        ),
        (format, bits) == (SampleFormat::Int, 32u16) ==> r == Ok::<SampleDecoding, ConvertError>(
            SampleDecoding::Int32,
        ),
        (format, bits) == (SampleFormat::Float, 32u16) ==> r == Ok::<SampleDecoding, ConvertError>(
            SampleDecoding::Float32,
        ),
        !(format == SampleFormat::Int && (bits == 8 || bits == 16 || bits == 24 || bits == 32))
            && !(format == SampleFormat::Float && bits == 32) ==> (r matches Err(
            ConvertError::UnsupportedFormat(m),
        ) && m@ == decimal(bits as nat) + "-bit "@ + format_word(format)),
{
    match (format, bits) {
        (SampleFormat::Int, 8) => Ok(SampleDecoding::Int8),
        (SampleFormat::Int, 16) => Ok(SampleDecoding::Int16),
        (SampleFormat::Int, 24) => Ok(SampleDecoding::Int24),
        (SampleFormat::Int, 32) => Ok(SampleDecoding::Int32),
        (SampleFormat::Float, 32) => Ok(SampleDecoding::Float32),
        _ => {
            let mut m = String::new();
            push_decimal(&mut m, bits as u64);
            push_str(&mut m, "-bit ");
            match format {
                SampleFormat::Int => push_str(&mut m, "Int"),
                SampleFormat::Float => push_str(&mut m, "Float"),
            }
            Err(ConvertError::UnsupportedFormat(m))
        },
    }
}

/// The sample encodings the converter writes.
#[derive(Debug, Clone, Copy, PartialEq, Eq, Structural)]
pub enum SampleEncoding {
    /// 16-bit integers, dithered when asked
    Int16,
    /// 24-bit integers
    Int24,
}

/// How to write samples of the given width: 16 or 24 bits; any other is unsupported.
pub fn sample_encoding(bits: u16) -> (r: Result<SampleEncoding, ConvertError>)
    ensures
        bits == 16 ==> r == Ok::<SampleEncoding, ConvertError>(SampleEncoding::Int16),
        bits == 24 ==> r == Ok::<SampleEncoding, ConvertError>(SampleEncoding::Int24),
        bits != 16 && bits != 24 ==> (r matches Err(ConvertError::UnsupportedFormat(m)) && m@
            == "Cannot write "@ + decimal(bits as nat) + "-bit audio"@),
{
    match bits {
        16 => Ok(SampleEncoding::Int16),
        24 => Ok(SampleEncoding::Int24),
        _ => {
            let mut m = String::new();
            push_str(&mut m, "Cannot write ");
            push_decimal(&mut m, bits as u64);
            push_str(&mut m, "-bit audio");
            Err(ConvertError::UnsupportedFormat(m))
        },
    }
}

/// The channel conversions the converter makes.
#[derive(Debug, Clone, Copy, PartialEq, Eq, Structural)]
pub enum ChannelConversion {
    /// Duplicate each mono sample into a stereo frame
    MonoToStereo,
    /// Average each stereo frame into one mono sample
    StereoToMono,
    /// Keep the samples as they are
    Unchanged,
}

/// How to convert `from` channels into `to`: mono to stereo, stereo to mono, or
/// nothing for equal counts; any other pair is unsupported.
pub fn channel_conversion(from: u16, to: u16) -> (r: Result<ChannelConversion, ConvertError>)
    ensures
        from == 1 && to == 2 ==> r == Ok::<ChannelConversion, ConvertError>(
            ChannelConversion::MonoToStereo,
        ),
        from == 2 && to == 1 ==> r == Ok::<ChannelConversion, ConvertError>(
            ChannelConversion::StereoToMono,
        ),
        from == to ==> r == Ok::<ChannelConversion, ConvertError>(ChannelConversion::Unchanged),
        !(from == 1 && to == 2) && !(from == 2 && to == 1) && from != to ==> (r matches Err(
            ConvertError::UnsupportedChannelConversion(a, b),
        ) && a == from && b == to),
{
    if from == 1 && to == 2 {
        Ok(ChannelConversion::MonoToStereo)
    } else if from == 2 && to == 1 {
        Ok(ChannelConversion::StereoToMono)
    } else if from == to {
        Ok(ChannelConversion::Unchanged)
    } else {
        Err(ConvertError::UnsupportedChannelConversion(from, to))
    }
}

/// One step of the dither noise generator: the linear congruential recurrence
/// `state * 1103515245 + 12345`, wrapping at 32 bits.
pub fn dither_step(state: u32) -> (next: u32)
    ensures
        next == (state * 1103515245 + 12345) % 0x1_0000_0000,
{
    let wide: u64 = (state as u64) * 1103515245 + 12345;
    (wide % 0x1_0000_0000) as u32
}

} // verus!
