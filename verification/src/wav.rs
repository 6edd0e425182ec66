//! The WAVE encoder, which the `hound` crate provides.

use vstd::prelude::*;
use crate::audio::SampleKind;

verus! {

/// The error type of `hound`.
#[verifier::external_type_specification]
#[verifier::external_body]
pub struct ExHoundError(hound::Error);

/// The most samples one WAVE file holds: the container counts its bytes, header
/// included, in 32 bits, and a sample takes four of them.
pub const MAX_SAMPLES: usize = 1_073_741_808;

/// The number of bytes before the first sample of a file of 32-bit samples.
pub const HEADER_LEN: usize = 68;

/// The four bytes of a 32-bit sample, lowest first.
pub open spec fn le_bytes(sample: u32) -> Seq<u8> {
    seq![
        (sample & 0xff) as u8,
        ((sample >> 8) & 0xff) as u8,
        ((sample >> 16) & 0xff) as u8,
        ((sample >> 24) & 0xff) as u8,
    ]
}

/// Whether the file is a header followed by the samples, four bytes each, in
/// order and with nothing after them.
pub open spec fn carries(file: Seq<u8>, samples: Seq<u32>) -> bool {
    &&& file.len() == HEADER_LEN + 4 * samples.len()
    &&& forall|i: int|
        0 <= i < samples.len() ==> file.subrange(HEADER_LEN + 4 * i, HEADER_LEN + 4 * i + 4)
            == le_bytes(#[trigger] samples[i])
}

/// The WAVE file that `hound` writes for samples given by their bit patterns, at
/// the channel count, sample rate and sample depth, as float samples or as
/// integer ones.
pub uninterp spec fn wav_file(
    channels: u16,
    sample_rate: u32,
    bits_per_sample: u16,
    float: bool,
    samples: Seq<u32>,
) -> Seq<u8>;

/// Encodes 32-bit samples as a WAVE file in memory.
///
/// Calls `hound::WavWriter::new` on a cursor over an empty buffer, then
/// `WavWriter::write_sample` once for each sample in order, then
/// `WavWriter::finalize`; the writer borrows the buffer from the first call to the
/// last, so the three stand together. A sample is handed over as the `i32` with
/// its bit pattern, of which `hound` writes the same four bytes as of the float.
///
/// The contract claims three things of `hound`. The file is a function of the
/// arguments. At this depth it is a header of 68 bytes followed by the four
/// bytes of each sample, lowest first. And a file comes back whenever the
/// samples fill whole frames: `hound` fails on an unsupported depth, on a sample
/// too wide for the depth, on an unfinished frame and on a failure of the
/// writer, of which only the unfinished frame is left at 32 bits on a buffer in
/// memory. The arguments left out are those on which `hound` panics: it divides
/// by the sample rate and the channel count and counts bytes in 32 bits.
#[verifier::external_body]
pub(crate) fn encode_wav(
    channels: u16,
    sample_rate: u32,
    bits_per_sample: u16,
    kind: SampleKind,
    samples: &Vec<u32>,
) -> (outcome: Result<Vec<u8>, hound::Error>)
    requires
        channels >= 1,
        sample_rate >= 1,
        bits_per_sample == 32,
        sample_rate * 4 * channels <= u32::MAX,
        samples.len() <= MAX_SAMPLES,
    ensures
        outcome matches Ok(bytes) ==> bytes@ == wav_file(
            channels,
            sample_rate,
            bits_per_sample,
            kind is Float,
            samples@,
        ) && carries(bytes@, samples@),
        samples@.len() % (channels as nat) == 0 ==> outcome is Ok,
{
    let sample_format = match kind {
        SampleKind::Float => hound::SampleFormat::Float,
        SampleKind::Int => hound::SampleFormat::Int,
    };
    let spec = hound::WavSpec { channels, sample_rate, bits_per_sample, sample_format };
    let mut cursor = std::io::Cursor::new(Vec::new());
    let mut writer = hound::WavWriter::new(&mut cursor, spec)?;
    for sample in samples {
        writer.write_sample(*sample as i32)?;
    }
    writer.finalize()?;
    Ok(cursor.into_inner())
}

/// The text of a `hound` error, as its `Display` impl gives it. Nothing is claimed
/// of the text.
#[verifier::external_body]
pub(crate) fn error_text(error: &hound::Error) -> String {
    error.to_string()
}

} // verus!
