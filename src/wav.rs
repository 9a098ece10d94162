//! WAV (RIFF, uncompressed PCM, 16 bits per sample) encoding.
use vstd::prelude::*;

verus! {

/// Bits stored per sample in every file this module writes.
pub const BITS_PER_SAMPLE: u16 = 16;

/// Size in bytes of the RIFF/WAVE header that precedes the sample data.
pub const HEADER_LEN: usize = 44;

/// The largest number of samples whose data chunk size fits the 32-bit
/// RIFF size field (`36 + 2 * n <= u32::MAX`).
pub const MAX_SAMPLES: usize = 2147483629;

/// Sample rate and channel count that a capture session runs at.
#[derive(Clone, Copy, Debug, PartialEq, Eq, Structural)]
pub struct AudioFormat {
    pub sample_rate: u32,
    pub channels: u16,
}

impl AudioFormat {
    /// A usable format: a positive rate and at least one channel.
    pub open spec fn valid(self) -> bool {
        self.sample_rate > 0 && self.channels > 0
    }

    /// Bytes per second of audio: `sample_rate * channels * 2`.
    pub open spec fn spec_byte_rate(self) -> int {
        self.sample_rate as int * self.channels as int * 2
    }

    /// Bytes per frame (one sample of every channel): `channels * 2`.
    pub open spec fn spec_block_align(self) -> int {
        self.channels as int * 2
    }

    /// Whether the byte rate and block alignment fit their header fields.
    pub open spec fn fits_header(self) -> bool {
        self.spec_byte_rate() <= u32::MAX && self.spec_block_align() <= u16::MAX
    }

    pub fn new(sample_rate: u32, channels: u16) -> (r: AudioFormat)
        ensures
            r.sample_rate == sample_rate,
            r.channels == channels,
    {
        AudioFormat { sample_rate, channels }
    }

    /// Whether the format is usable: a positive rate and at least one channel.
    pub fn is_valid(&self) -> (r: bool)
        ensures
            r == self.valid(),
    {
        self.sample_rate > 0 && self.channels > 0
    }

    /// Whether a WAV header can describe this format: it is valid and its
    /// byte rate and block alignment fit their fields.
    pub fn is_writable(&self) -> (r: bool)
        ensures
            r == (self.valid() && self.fits_header()),
    {
        let rate = self.sample_rate as u64;
        let ch = self.channels as u64;
        assert(rate * ch * 2 <= 0xffff_ffff * 0xffff * 2) by (nonlinear_arith)
            requires
                rate <= 0xffff_ffff,
                ch <= 0xffff,
        ;
        rate > 0 && ch > 0 && rate * ch * 2 <= 0xffff_ffff && ch * 2 <= 0xffff
    }

    /// Byte rate field of the header.
    pub fn byte_rate(&self) -> (r: u32)
        requires
            self.fits_header(),
        ensures
            r as int == self.spec_byte_rate(),
    {
        let rate = self.sample_rate as u64;
        let ch = self.channels as u64;
        assert(rate * ch <= rate * ch * 2 <= 0xffff_ffff) by (nonlinear_arith)
            requires
                rate * ch * 2 <= 0xffff_ffff,
        ;
        (rate * ch * 2) as u32
    }

    /// Block alignment field of the header.
    pub fn block_align(&self) -> (r: u16)
        requires
            self.fits_header(),
        ensures
            r as int == self.spec_block_align(),
    {
        self.channels * 2
    }
}

/// Little-endian bytes of a 16-bit value.
pub open spec fn le16(v: u16) -> Seq<u8> {
    seq![(v % 256) as u8, (v / 256) as u8]
}

/// Little-endian bytes of a 32-bit value.
pub open spec fn le32(v: u32) -> Seq<u8> {
    seq![
        (v % 256) as u8,
        ((v / 256) % 256) as u8,
        ((v / 65536) % 256) as u8,
        (v / 16777216) as u8,
    ]
}

/// ASCII bytes of a four-letter chunk tag.
pub open spec fn tag(a: char, b: char, c: char, d: char) -> Seq<u8> {
    seq![a as u8, b as u8, c as u8, d as u8]
}

/// Size of the data chunk for `n` samples.
pub open spec fn data_size(n: nat) -> int {
    n as int * 2
}

/// Whether `n` samples fit the header's 32-bit size fields.
pub open spec fn fits_samples(n: nat) -> bool {
    n <= MAX_SAMPLES
}

/// The 44-byte header for `n` samples of format `f`.
pub open spec fn wav_header(f: AudioFormat, n: nat) -> Seq<u8> {
    tag('R', 'I', 'F', 'F') + le32((36 + data_size(n)) as u32) + tag('W', 'A', 'V', 'E')
        + tag('f', 'm', 't', ' ') + le32(16) + le16(1) + le16(f.channels) + le32(f.sample_rate)
        + le32(f.spec_byte_rate() as u32) + le16(f.spec_block_align() as u16)
        + le16(BITS_PER_SAMPLE) + tag('d', 'a', 't', 'a') + le32(data_size(n) as u32)
}

/// Sample data: each sample as two's-complement little-endian bytes, in order.
pub open spec fn pcm_bytes(samples: Seq<i16>) -> Seq<u8>
    decreases samples.len(),
{
    if samples.len() == 0 {
        seq![]
    } else {
        pcm_bytes(samples.drop_last()) + le16(samples.last() as u16)
    }
}

/// A complete WAV file holding `samples` in format `f`.
pub open spec fn wav_file(f: AudioFormat, samples: Seq<i16>) -> Seq<u8> {
    wav_header(f, samples.len()) + pcm_bytes(samples)
}

/// `floor(total * 1000 / (sample_rate * channels))`.
pub open spec fn spec_duration_ms(total: nat, f: AudioFormat) -> int {
    (total as int * 1000) / (f.sample_rate as int * f.channels as int)
}

proof fn lemma_pcm_bytes_len(samples: Seq<i16>)
    ensures
        pcm_bytes(samples).len() == 2 * samples.len(),
    decreases samples.len(),
{
    if samples.len() > 0 {
        lemma_pcm_bytes_len(samples.drop_last());
    }
}

fn push_u16_le(out: &mut Vec<u8>, v: u16)
    ensures
        final(out)@ == old(out)@ + le16(v),
{
    out.push((v % 256) as u8);
    out.push((v / 256) as u8);
    assert(final(out)@ =~= old(out)@ + le16(v));
}

fn push_u32_le(out: &mut Vec<u8>, v: u32)
    ensures
        final(out)@ == old(out)@ + le32(v),
{
    out.push((v % 256) as u8);
    out.push(((v / 256) % 256) as u8);
    out.push(((v / 65536) % 256) as u8);
    out.push((v / 16777216) as u8);
    assert(final(out)@ =~= old(out)@ + le32(v));
}

fn push_tag(out: &mut Vec<u8>, a: u8, b: u8, c: u8, d: u8)
    ensures
        final(out)@ == old(out)@ + seq![a, b, c, d],
{
    out.push(a);
    out.push(b);
    out.push(c);
    out.push(d);
    assert(final(out)@ =~= old(out)@ + seq![a, b, c, d]);
}

/// Builds the RIFF/WAVE header for `num_samples` samples of format `format`.
pub fn encode_header(format: AudioFormat, num_samples: usize) -> (r: Vec<u8>)
    requires
        format.fits_header(),
        fits_samples(num_samples as nat),
    ensures
        r@ == wav_header(format, num_samples as nat),
        r@.len() == HEADER_LEN,
{
    let data_size: u32 = (num_samples as u32) * 2;
    let mut out: Vec<u8> = Vec::new();
    push_tag(&mut out, 82, 73, 70, 70);
    push_u32_le(&mut out, 36 + data_size);
    push_tag(&mut out, 87, 65, 86, 69);
    push_tag(&mut out, 102, 109, 116, 32);
    push_u32_le(&mut out, 16);
    push_u16_le(&mut out, 1);
    push_u16_le(&mut out, format.channels);
    push_u32_le(&mut out, format.sample_rate);
    push_u32_le(&mut out, format.byte_rate());
    push_u16_le(&mut out, format.block_align());
    push_u16_le(&mut out, BITS_PER_SAMPLE);
    push_tag(&mut out, 100, 97, 116, 97);
    push_u32_le(&mut out, data_size);
    assert(out@ =~= wav_header(format, num_samples as nat));
    out
}

/// Encodes `samples` (already scaled to signed 16-bit) as a WAV file.
pub fn encode_wav(samples: &Vec<i16>, format: AudioFormat) -> (r: Vec<u8>)
    requires
        format.fits_header(),
        fits_samples(samples@.len()),
    ensures
        r@ == wav_file(format, samples@),
        r@.len() == HEADER_LEN + 2 * samples@.len(),
{
    let mut out = encode_header(format, samples.len());
    let mut i: usize = 0;
    while i < samples.len()
        invariant
            i <= samples@.len(),
            out@ == wav_header(format, samples@.len()) + pcm_bytes(samples@.subrange(0, i as int)),
        decreases samples@.len() - i,
    {
        proof {
            let next = samples@.subrange(0, i + 1);
            assert(next.drop_last() =~= samples@.subrange(0, i as int));
        }
        push_u16_le(&mut out, samples[i] as u16);
        i += 1;
        assert(out@ =~= wav_header(format, samples@.len()) + pcm_bytes(samples@.subrange(0, i as int)));
    }
    assert(samples@.subrange(0, samples@.len() as int) =~= samples@);
    proof {
        lemma_pcm_bytes_len(samples@);
    }
    out
}

/// Encoding is a function of its input: the same samples and format always
/// give the same bytes.
pub proof fn lemma_encoding_deterministic(f: AudioFormat, a: Seq<i16>, b: Seq<i16>)
    requires
        a == b,
    ensures
        wav_file(f, a) == wav_file(f, b),
{
}

/// The header's byte-rate field (bytes 28..32) is `sample_rate * channels * 2`,
/// its block-alignment field (bytes 32..34) is `channels * 2`, its
/// bits-per-sample field (bytes 34..36) is 16, and the channel count and
/// sample rate stand at bytes 22..24 and 24..28, for every format whose
/// values fit their fields.
pub proof fn lemma_header_consistent(f: AudioFormat, n: nat)
    requires
        f.valid(),
        f.fits_header(),
        fits_samples(n),
    ensures
        wav_header(f, n).len() == HEADER_LEN,
        wav_header(f, n).subrange(22, 24) == le16(f.channels),
        wav_header(f, n).subrange(24, 28) == le32(f.sample_rate),
        wav_header(f, n).subrange(28, 32) == le32((f.sample_rate * f.channels * 2) as u32),
        wav_header(f, n).subrange(32, 34) == le16((f.channels * 2) as u16),
        wav_header(f, n).subrange(34, 36) == le16(16),
        wav_header(f, n).subrange(40, 44) == le32((2 * n) as u32),
{
    let h = wav_header(f, n);
    assert(h.subrange(22, 24) =~= le16(f.channels));
    assert(h.subrange(24, 28) =~= le32(f.sample_rate));
    assert(h.subrange(28, 32) =~= le32((f.sample_rate * f.channels * 2) as u32));
    assert(h.subrange(32, 34) =~= le16((f.channels * 2) as u16));
    assert(h.subrange(34, 36) =~= le16(16));
    assert(h.subrange(40, 44) =~= le32((2 * n) as u32));
}

/// A file's first 44 bytes are its header, so the header fields above are
/// what `encode_wav` writes.
pub proof fn lemma_file_starts_with_header(f: AudioFormat, samples: Seq<i16>)
    ensures
        wav_file(f, samples).subrange(0, HEADER_LEN as int) == wav_header(f, samples.len()),
{
    assert(wav_header(f, samples.len()).len() == HEADER_LEN);
    assert(wav_file(f, samples).subrange(0, HEADER_LEN as int) =~= wav_header(f, samples.len()));
}

/// Milliseconds of audio in `total_samples` interleaved samples of `format`.
pub fn duration_ms(total_samples: usize, format: AudioFormat) -> (r: u64)
    requires
        format.valid(),
        fits_samples(total_samples as nat),
    ensures
        r as int == spec_duration_ms(total_samples as nat, format),
{
    let rate = format.sample_rate as u64;
    let ch = format.channels as u64;
    assert(rate * ch <= 0xffff_ffff * 0xffff && rate * ch > 0) by (nonlinear_arith)
        requires
            0 < rate <= 0xffff_ffff,
            0 < ch <= 0xffff,
    ;
    let frames_den: u64 = rate * ch;
    ((total_samples as u64) * 1000) / frames_den
}

} // verus!
