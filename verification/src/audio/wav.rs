//! WAV framing of 16-bit mono PCM, and decoding of raw little-endian PCM.

use vstd::prelude::*;

use super::backends::AudioError;

verus! {

/// Little-endian bytes of a 16-bit unsigned value.
pub open spec fn le16(x: int) -> Seq<u8> {
    seq![(x % 256) as u8, ((x / 256) % 256) as u8]
}

/// Little-endian bytes of a 32-bit unsigned value.
pub open spec fn le32(x: int) -> Seq<u8> {
    seq![
        (x % 256) as u8,
        ((x / 256) % 256) as u8,
        ((x / 65536) % 256) as u8,
        ((x / 16777216) % 256) as u8,
    ]
}

/// Two's-complement bits of a sample, as an unsigned value.
pub open spec fn sample_bits(s: i16) -> int {
    if s >= 0 {
        s as int
    } else {
        s as int + 65536
    }
}

/// Little-endian bytes of the samples, one after the other.
pub open spec fn pcm16_bytes(samples: Seq<i16>) -> Seq<u8>
    decreases samples.len(),
{
    if samples.len() == 0 {
        Seq::empty()
    } else {
        pcm16_bytes(samples.drop_last()) + le16(sample_bits(samples.last()))
    }
}

/// A canonical 44-byte WAV header for 16-bit mono integer PCM followed by
/// the samples: "RIFF", the file size less 8, "WAVE", a 16-byte "fmt "
/// chunk (format 1, one channel, the sample rate, twice the sample rate
/// bytes per second, block align 2, 16 bits), and the "data" chunk.
pub open spec fn wav_pcm16_mono(samples: Seq<i16>, sample_rate: u32) -> Seq<u8> {
    let n = samples.len() as int;
    seq![0x52u8, 0x49u8, 0x46u8, 0x46u8] + le32(36 + 2 * n) + seq![0x57u8, 0x41u8, 0x56u8, 0x45u8]
        + seq![0x66u8, 0x6du8, 0x74u8, 0x20u8] + le32(16) + le16(1) + le16(1) + le32(
        sample_rate as int,
    ) + le32(2 * sample_rate) + le16(2) + le16(16) + seq![0x64u8, 0x61u8, 0x74u8, 0x61u8]
        + le32(2 * n) + pcm16_bytes(samples)
}

/// Largest sample count whose WAV sizes fit the 32-bit size fields.
pub const WAV_MAX_SAMPLES: usize = 0x7fff_ffed;

/// Largest sample rate whose byte rate fits 32 bits.
pub const WAV_MAX_SAMPLE_RATE: u32 = 0x7fff_ffff;

/// Writes 16-bit mono integer PCM with `hound::WavWriter` into memory.
///
/// For this format hound writes the plain 16-byte PCM format chunk, so
/// the bytes are the canonical 44-byte header and the little-endian
/// samples. Writing into a vector does not fail; hound's 32-bit size
/// arithmetic stays in range for the admitted rates and lengths.
#[verifier::external_body]
fn hound_write_pcm16_mono(samples: &[i16], sample_rate: u32) -> (r: Result<Vec<u8>, String>)
    requires
        0 < sample_rate <= WAV_MAX_SAMPLE_RATE,
        samples@.len() <= WAV_MAX_SAMPLES,
    ensures
        r is Ok,
        r->Ok_0@ == wav_pcm16_mono(samples@, sample_rate),
{
    let spec = hound::WavSpec {
        channels: 1,
        sample_rate,
        bits_per_sample: 16,
        sample_format: hound::SampleFormat::Int,
    };
    let mut data: Vec<u8> = Vec::new();
    let mut writer = hound::WavWriter::new(std::io::Cursor::new(&mut data), spec).map_err(
        |e| e.to_string(),
    )?;
    for s in samples {
        writer.write_sample(*s).map_err(|e| e.to_string())?;
    }
    writer.finalize().map_err(|e| e.to_string())?;
    Ok(data)
}

/// Encodes 16-bit samples as a mono WAV file in memory.
pub fn encode_wav(samples: &[i16], sample_rate: u32) -> (r: Result<Vec<u8>, AudioError>)
    requires
        0 < sample_rate <= WAV_MAX_SAMPLE_RATE,
        samples@.len() <= WAV_MAX_SAMPLES,
    ensures
        r matches Ok(b) && b@ == wav_pcm16_mono(samples@, sample_rate),
{
    match hound_write_pcm16_mono(samples, sample_rate) {
        Ok(bytes) => Ok(bytes),
        Err(e) => Err(AudioError::PlaybackFailed(e)),
    }
}

/// The sample whose little-endian bytes are `b0`, `b1`.
pub open spec fn le_i16(b0: u8, b1: u8) -> i16 {
    let u = b0 as int + 256 * b1 as int;
    if u < 32768 {
        u as i16
    } else {
        (u - 65536) as i16
    }
}

/// Samples of raw little-endian 16-bit PCM; a trailing odd byte is ignored.
pub open spec fn decode_pcm16(bytes: Seq<u8>) -> Seq<i16> {
    Seq::new(bytes.len() / 2, |i: int| le_i16(bytes[2 * i], bytes[2 * i + 1]))
}

/// Decodes raw little-endian 16-bit PCM (pairs of bytes; a trailing odd
/// byte is ignored).
pub fn decode_pcm16_le(bytes: &[u8]) -> (samples: Vec<i16>)
    ensures
        samples@ == decode_pcm16(bytes@),
{
    let len = bytes.len();
    let n = len / 2;
    let mut out: Vec<i16> = Vec::new();
    let mut i: usize = 0;
    while i < n
        invariant
            len == bytes@.len(),
            n == len / 2,
            i <= n,
            out@.len() == i,
            forall|k: int| 0 <= k < i ==> out@[k] == le_i16(bytes@[2 * k], bytes@[2 * k + 1]),
        decreases n - i,
    {
        assert(2 * i + 1 < len);
        let b0 = bytes[2 * i];
        let b1 = bytes[2 * i + 1];
        let u: u32 = b0 as u32 + 256 * (b1 as u32);
        let s: i16 = if u < 32768 {
            u as i16
        } else {
            (u as i32 - 65536) as i16
        };
        out.push(s);
        i = i + 1;
    }
    assert(out@ =~= decode_pcm16(bytes@));
    out
}

proof fn lemma_pcm16_bytes_len(samples: Seq<i16>)
    ensures
        pcm16_bytes(samples).len() == 2 * samples.len(),
    decreases samples.len(),
{
    if samples.len() > 0 {
        lemma_pcm16_bytes_len(samples.drop_last());
    }
}

proof fn lemma_pcm16_bytes_at(samples: Seq<i16>, i: int)
    requires
        0 <= i < samples.len(),
    ensures
        pcm16_bytes(samples)[2 * i] == le16(sample_bits(samples[i]))[0],
        pcm16_bytes(samples)[2 * i + 1] == le16(sample_bits(samples[i]))[1],
    decreases samples.len(),
{
    lemma_pcm16_bytes_len(samples.drop_last());
    if i < samples.len() - 1 {
        lemma_pcm16_bytes_at(samples.drop_last(), i);
    }
}

/// Decoding the bytes that framing writes for a sample gives the sample
/// back.
pub proof fn lemma_sample_roundtrip(s: i16)
    ensures
        le_i16(le16(sample_bits(s))[0], le16(sample_bits(s))[1]) == s,
{
}

/// Decoding the PCM data written for samples gives exactly those samples:
/// the data part of an encoded WAV file decodes to what was encoded.
pub proof fn lemma_pcm16_roundtrip(samples: Seq<i16>)
    ensures
        decode_pcm16(pcm16_bytes(samples)) == samples,
{
    lemma_pcm16_bytes_len(samples);
    assert forall|i: int| 0 <= i < samples.len() implies #[trigger] decode_pcm16(
        pcm16_bytes(samples),
    )[i] == samples[i] by {
        lemma_pcm16_bytes_at(samples, i);
        lemma_sample_roundtrip(samples[i]);
    }
    assert(decode_pcm16(pcm16_bytes(samples)) =~= samples);
}

/// An encoded WAV file is the 44-byte header followed by the PCM data, so
/// its length is 44 plus two bytes per sample, and its data decodes back
/// to the samples.
pub proof fn lemma_wav_layout(samples: Seq<i16>, sample_rate: u32)
    ensures
        wav_pcm16_mono(samples, sample_rate).len() == 44 + 2 * samples.len(),
        wav_pcm16_mono(samples, sample_rate).subrange(0, 4) == seq![0x52u8, 0x49u8, 0x46u8, 0x46u8],
        wav_pcm16_mono(samples, sample_rate).subrange(8, 12) == seq![0x57u8, 0x41u8, 0x56u8, 0x45u8],
        decode_pcm16(
            wav_pcm16_mono(samples, sample_rate).subrange(44, 44 + 2 * samples.len() as int),
        ) == samples,
{
    lemma_pcm16_bytes_len(samples);
    lemma_pcm16_roundtrip(samples);
    let w = wav_pcm16_mono(samples, sample_rate);
    assert(w.subrange(0, 4) =~= seq![0x52u8, 0x49u8, 0x46u8, 0x46u8]);
    assert(w.subrange(8, 12) =~= seq![0x57u8, 0x41u8, 0x56u8, 0x45u8]);
    assert(w.subrange(44, 44 + 2 * samples.len() as int) =~= pcm16_bytes(samples));
}

} // verus!
