//! The RIFF/WAVE container: a 44-byte header for one PCM data chunk, then the samples.

use vstd::prelude::*;
use crate::format::PcmFormat;
use crate::le_bytes::{
    le16, le32, le_u16, le_u32, lemma_le16_round_trip, lemma_le32_round_trip, read_le16, read_le32,
};

verus! {

/// Size of the `fmt ` chunk body for PCM.
pub const SUBCHUNK1_SIZE: u32 = 16;

/// The audio format code of uncompressed PCM.
pub const PCM_AUDIO_FORMAT: u16 = 1;

/// Length of the header that precedes the sample data.
pub const WAV_HEADER_LEN: usize = 44;

/// The sample width that the container is written with: each sample is a `u16`.
pub const WAV_BITS_PER_SAMPLE: u32 = 16;

/// Bytes that each sample takes in the data chunk.
pub const WAV_BYTES_PER_SAMPLE: u32 = 2;

/// Why a container could not be written.
#[derive(Clone, Copy, Debug, PartialEq, Eq, Structural)]
pub enum WavError {
    /// The format's sample width is not 16 bits, the width the samples are written with.
    UnsupportedBitDepth,
    /// A header field cannot hold its value: the channel count or block size does not
    /// fit in 16 bits, or the byte rate or a chunk size does not fit in 32 bits.
    HeaderOverflow,
}

/// "RIFF" in ASCII.
pub open spec fn riff_tag() -> Seq<u8> {
    seq![0x52u8, 0x49u8, 0x46u8, 0x46u8]
}

/// "WAVE" in ASCII.
pub open spec fn wave_tag() -> Seq<u8> {
    seq![0x57u8, 0x41u8, 0x56u8, 0x45u8]
}

/// "fmt " in ASCII.
pub open spec fn fmt_tag() -> Seq<u8> {
    seq![0x66u8, 0x6du8, 0x74u8, 0x20u8]
}

/// "data" in ASCII.
pub open spec fn data_tag() -> Seq<u8> {
    seq![0x64u8, 0x61u8, 0x74u8, 0x61u8]
}

/// Bytes in one frame: one 16-bit sample for each channel.
pub open spec fn block_align(f: PcmFormat) -> int {
    f.spec_number_of_channels() * WAV_BYTES_PER_SAMPLE
}

/// Bytes per second of audio.
pub open spec fn byte_rate(f: PcmFormat) -> int {
    f.spec_sample_rate() * block_align(f)
}

/// Size of the data chunk for `n` samples, counted over all channels: the bytes that
/// follow the header.
pub open spec fn data_chunk_size(n: int) -> int {
    n * WAV_BYTES_PER_SAMPLE
}

/// Whether every header field of a file of `n` samples fits its width.
pub open spec fn wav_fits(f: PcmFormat, n: int) -> bool {
    &&& f.spec_number_of_channels() <= u16::MAX
    &&& block_align(f) <= u16::MAX
    &&& byte_rate(f) <= u32::MAX
    &&& 36 + data_chunk_size(n) <= u32::MAX
}

/// The 44-byte header of a file of `n` samples.
#[verifier::opaque]
pub open spec fn wav_header(f: PcmFormat, n: int) -> Seq<u8> {
    riff_tag() + le32(36 + data_chunk_size(n)) + wave_tag() + fmt_tag() + le32(
        SUBCHUNK1_SIZE as int,
    ) + le16(PCM_AUDIO_FORMAT as int) + le16(f.spec_number_of_channels() as int) + le32(
        f.spec_sample_rate() as int,
    ) + le32(byte_rate(f)) + le16(block_align(f)) + le16(WAV_BITS_PER_SAMPLE as int)
        + data_tag() + le32(data_chunk_size(n))
}

/// The samples, each as two little-endian bytes, in order.
pub open spec fn sample_bytes(data: Seq<u16>) -> Seq<u8>
    decreases data.len(),
{
    if data.len() == 0 {
        Seq::empty()
    } else {
        sample_bytes(data.drop_last()) + le16(data.last() as int)
    }
}

/// The whole file: header, then samples.
pub open spec fn wav_file(f: PcmFormat, data: Seq<u16>) -> Seq<u8> {
    wav_header(f, data.len() as int) + sample_bytes(data)
}

fn put_u16(out: &mut Vec<u8>, n: u16)
    ensures
        final(out)@ == old(out)@ + le16(n as int),
{
    let b = le_u16(n);
    out.push(b[0]);
    out.push(b[1]);
    assert(final(out)@ =~= old(out)@ + le16(n as int));
}

fn put_u32(out: &mut Vec<u8>, n: u32)
    ensures
        final(out)@ == old(out)@ + le32(n as int),
{
    let b = le_u32(n);
    out.push(b[0]);
    out.push(b[1]);
    out.push(b[2]);
    out.push(b[3]);
    assert(final(out)@ =~= old(out)@ + le32(n as int));
}

fn put_tag(out: &mut Vec<u8>, a: u8, b: u8, c: u8, d: u8)
    ensures
        final(out)@ == old(out)@ + seq![a, b, c, d],
{
    out.push(a);
    out.push(b);
    out.push(c);
    out.push(d);
    assert(final(out)@ =~= old(out)@ + seq![a, b, c, d]);
}

/// Encodes `data`, the samples of all channels interleaved, as a WAVE file of the
/// given 16-bit format: the header fields computed from the format and the number of
/// bytes written, then each sample as a little-endian `u16`. Refuses a format of
/// another width, and fails when a header field cannot hold its value.
pub fn encode_wav(format: &PcmFormat, data: &Vec<u16>) -> (r: Result<Vec<u8>, WavError>)
    ensures
        format.spec_bits_per_sample() != WAV_BITS_PER_SAMPLE ==> r == Err::<Vec<u8>, WavError>(
            WavError::UnsupportedBitDepth,
        ),
        format.spec_bits_per_sample() == WAV_BITS_PER_SAMPLE && !wav_fits(
            *format,
            data@.len() as int,
        ) ==> r == Err::<Vec<u8>, WavError>(WavError::HeaderOverflow),
        r is Ok <==> (format.spec_bits_per_sample() == WAV_BITS_PER_SAMPLE && wav_fits(
            *format,
            data@.len() as int,
        )),
        r matches Ok(bytes) ==> bytes@ == wav_file(*format, data@),
{
    let channels = format.get_number_of_channels();
    let bits = format.get_bits_per_sample();
    let rate = format.get_sample_rate();
    if bits != WAV_BITS_PER_SAMPLE {
        return Err(WavError::UnsupportedBitDepth);
    }
    if channels > 0xFFFF {
        return Err(WavError::HeaderOverflow);
    }
    let align: u32 = channels * WAV_BYTES_PER_SAMPLE;
    if align > 0xFFFF {
        return Err(WavError::HeaderOverflow);
    }
    assert(rate * align <= 0xFFFF_FFFF * 0xFFFF) by (nonlinear_arith)
        requires
            rate <= 0xFFFF_FFFF,
            align <= 0xFFFF,
    ;
    let rate_wide: u64 = rate as u64 * align as u64;
    if rate_wide > 0xFFFF_FFFF {
        return Err(WavError::HeaderOverflow);
    }
    let n = data.len();
    let size_wide: u128 = n as u128 * WAV_BYTES_PER_SAMPLE as u128;
    if size_wide > 0xFFFF_FFFF - 36 {
        return Err(WavError::HeaderOverflow);
    }
    let data_size = size_wide as u32;
    let mut out: Vec<u8> = Vec::new();
    put_tag(&mut out, 0x52, 0x49, 0x46, 0x46);
    put_u32(&mut out, 36 + data_size);
    put_tag(&mut out, 0x57, 0x41, 0x56, 0x45);
    put_tag(&mut out, 0x66, 0x6d, 0x74, 0x20);
    put_u32(&mut out, SUBCHUNK1_SIZE);
    put_u16(&mut out, PCM_AUDIO_FORMAT);
    put_u16(&mut out, channels as u16);
    put_u32(&mut out, rate);
    put_u32(&mut out, rate_wide as u32);
    put_u16(&mut out, align as u16);
    put_u16(&mut out, WAV_BITS_PER_SAMPLE as u16);
    put_tag(&mut out, 0x64, 0x61, 0x74, 0x61);
    put_u32(&mut out, data_size);
    assert(out@ =~= wav_header(*format, n as int)) by {
        reveal(wav_header);
    }
    let mut i: usize = 0;
    while i < n
        invariant
            n == data@.len(),
            i <= n,
            out@ == wav_header(*format, n as int) + sample_bytes(data@.subrange(0, i as int)),
        decreases n - i,
    {
        put_u16(&mut out, data[i]);
        proof {
            let done = data@.subrange(0, i + 1);
            assert(done.drop_last() =~= data@.subrange(0, i as int));
            assert(out@ =~= wav_header(*format, n as int) + sample_bytes(done));
        }
        i = i + 1;
    }
    assert(data@.subrange(0, n as int) =~= data@);
    Ok(out)
}

/// The sample bytes are two for each sample, and the two at twice a sample's index
/// read back as that sample.
pub proof fn lemma_sample_bytes_round_trip(data: Seq<u16>)
    ensures
        sample_bytes(data).len() == 2 * data.len(),
        forall|i: int|
            0 <= i < data.len() ==> #[trigger] read_le16(sample_bytes(data), 2 * i) == data[i],
    decreases data.len(),
{
    if data.len() > 0 {
        let init = data.drop_last();
        lemma_sample_bytes_round_trip(init);
        lemma_le16_round_trip(data.last() as int);
        let b = sample_bytes(data);
        assert forall|i: int| 0 <= i < data.len() implies #[trigger] read_le16(b, 2 * i)
            == data[i] by {
            if i < init.len() {
                assert(read_le16(sample_bytes(init), 2 * i) == init[i]);
            }
        }
    }
}

/// The header of a file of `n` samples is 44 bytes long, holds the four tags in place,
/// and its fields read back as the format, the PCM code and the chunk sizes.
pub proof fn lemma_wav_header_fields(f: PcmFormat, n: int)
    requires
        n >= 0,
        wav_fits(f, n),
    ensures
        wav_header(f, n).len() == WAV_HEADER_LEN,
        wav_header(f, n).subrange(0, 4) == riff_tag(),
        wav_header(f, n).subrange(8, 12) == wave_tag(),
        wav_header(f, n).subrange(12, 16) == fmt_tag(),
        wav_header(f, n).subrange(36, 40) == data_tag(),
        read_le32(wav_header(f, n), 4) == 36 + data_chunk_size(n),
        read_le32(wav_header(f, n), 16) == SUBCHUNK1_SIZE,
        read_le16(wav_header(f, n), 20) == PCM_AUDIO_FORMAT,
        read_le16(wav_header(f, n), 22) == f.spec_number_of_channels(),
        read_le32(wav_header(f, n), 24) == f.spec_sample_rate(),
        read_le32(wav_header(f, n), 28) == byte_rate(f),
        read_le16(wav_header(f, n), 32) == block_align(f),
        read_le16(wav_header(f, n), 34) == WAV_BITS_PER_SAMPLE,
        read_le32(wav_header(f, n), 40) == data_chunk_size(n),
{
    reveal(wav_header);
    let size = data_chunk_size(n);
    let h = wav_header(f, n);
    assert(0 <= byte_rate(f)) by (nonlinear_arith)
        requires
            byte_rate(f) == f.spec_sample_rate() * block_align(f),
            f.spec_sample_rate() >= 0,
            block_align(f) >= 0,
    ;
    lemma_le32_round_trip(36 + size);
    lemma_le32_round_trip(SUBCHUNK1_SIZE as int);
    lemma_le16_round_trip(PCM_AUDIO_FORMAT as int);
    lemma_le16_round_trip(f.spec_number_of_channels() as int);
    lemma_le32_round_trip(f.spec_sample_rate() as int);
    lemma_le32_round_trip(byte_rate(f));
    lemma_le16_round_trip(block_align(f));
    lemma_le16_round_trip(WAV_BITS_PER_SAMPLE as int);
    lemma_le32_round_trip(size);
    assert(h.len() == 44);
    assert(h.subrange(0, 4) =~= riff_tag());
    assert(h.subrange(4, 8) =~= le32(36 + size));
    assert(h.subrange(8, 12) =~= wave_tag());
    assert(h.subrange(12, 16) =~= fmt_tag());
    assert(h.subrange(16, 20) =~= le32(SUBCHUNK1_SIZE as int));
    assert(h.subrange(20, 22) =~= le16(PCM_AUDIO_FORMAT as int));
    assert(h.subrange(22, 24) =~= le16(f.spec_number_of_channels() as int));
    assert(h.subrange(24, 28) =~= le32(f.spec_sample_rate() as int));
    assert(h.subrange(28, 32) =~= le32(byte_rate(f)));
    assert(h.subrange(32, 34) =~= le16(block_align(f)));
    assert(h.subrange(34, 36) =~= le16(WAV_BITS_PER_SAMPLE as int));
    assert(h.subrange(36, 40) =~= data_tag());
    assert(h.subrange(40, 44) =~= le32(size));
}

/// Writing `n` 16-bit samples gives a file of `44 + 2n` bytes whose header tags are in
/// place, whose header fields read back as the format, the PCM code and the chunk
/// sizes, whose two size fields count exactly the bytes that follow them, and whose
/// data section reads back as the samples, in order.
pub proof fn lemma_wav_round_trip(f: PcmFormat, data: Seq<u16>)
    requires
        f.spec_bits_per_sample() == WAV_BITS_PER_SAMPLE,
        wav_fits(f, data.len() as int),
    ensures
        wav_file(f, data).len() == WAV_HEADER_LEN + 2 * data.len(),
        wav_file(f, data).subrange(0, 4) == riff_tag(),
        wav_file(f, data).subrange(8, 12) == wave_tag(),
        wav_file(f, data).subrange(12, 16) == fmt_tag(),
        wav_file(f, data).subrange(36, 40) == data_tag(),
        read_le32(wav_file(f, data), 4) == wav_file(f, data).len() - 8,
        read_le32(wav_file(f, data), 16) == SUBCHUNK1_SIZE,
        read_le16(wav_file(f, data), 20) == PCM_AUDIO_FORMAT,
        read_le16(wav_file(f, data), 22) == f.spec_number_of_channels(),
        read_le32(wav_file(f, data), 24) == f.spec_sample_rate(),
        read_le32(wav_file(f, data), 28) == byte_rate(f),
        read_le16(wav_file(f, data), 32) == block_align(f),
        read_le16(wav_file(f, data), 34) == f.spec_bits_per_sample(),
        read_le32(wav_file(f, data), 40) == wav_file(f, data).len() - WAV_HEADER_LEN,
        forall|i: int|
            0 <= i < data.len() ==> #[trigger] read_le16(wav_file(f, data), WAV_HEADER_LEN + 2 * i)
                == data[i],
{
    let n = data.len() as int;
    let h = wav_header(f, n);
    let w = wav_file(f, data);
    let s = sample_bytes(data);
    lemma_wav_header_fields(f, n);
    lemma_sample_bytes_round_trip(data);
    assert(w.len() == 44 + 2 * n);
    assert forall|k: int| 0 <= k < 44 implies #[trigger] w[k] == h[k] by {}
    assert(w.subrange(0, 4) =~= h.subrange(0, 4));
    assert(w.subrange(8, 12) =~= h.subrange(8, 12));
    assert(w.subrange(12, 16) =~= h.subrange(12, 16));
    assert(w.subrange(36, 40) =~= h.subrange(36, 40));
    assert forall|i: int| 0 <= i < data.len() implies #[trigger] read_le16(
        w,
        WAV_HEADER_LEN + 2 * i,
    ) == data[i] by {
        assert(read_le16(s, 2 * i) == data[i]);
        assert(w[44 + 2 * i] == s[2 * i]);
        assert(w[44 + 2 * i + 1] == s[2 * i + 1]);
    }
}

} // verus!
