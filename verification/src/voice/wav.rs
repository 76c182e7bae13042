//! Reading the audio a TTS engine wrote: WAV files (RIFF chunks) and raw
//! 16-bit little-endian PCM.
//!
//! A WAV file starts with `RIFF`, a size, and `WAVE`, then a list of chunks,
//! each a 4-byte id, a 4-byte little-endian size and the body, padded to an
//! even length. The `fmt ` chunk gives the sample rate (bytes 4..8 of its
//! body) and bits per sample (bytes 14..16); the `data` chunk holds the
//! samples.
use vstd::prelude::*;

verus! {

/// Sample rate assumed when the file does not say (espeak-ng's default).
pub const DEFAULT_WAV_SAMPLE_RATE: u32 = 22050;

/// Bits per sample assumed when the file does not say.
pub const DEFAULT_BITS_PER_SAMPLE: u16 = 16;

/// Why TTS output could not be read.
#[derive(Debug, Clone, Copy, PartialEq, Eq, Structural)]
pub enum WavError {
    /// Fewer than 12 bytes (the length found).
    OutputTooShort(usize),
    /// No `RIFF` … `WAVE` header.
    NotWav,
    /// No non-empty `data` chunk.
    NoDataChunk,
    /// Samples of another width than 8 or 16 bits (the width found).
    UnsupportedBitsPerSample(u16),
}

/// Decoded samples, as stored.
#[derive(Debug, Clone)]
pub enum PcmSamples {
    /// Signed 16-bit samples.
    Signed16(Vec<i16>),
    /// Unsigned 8-bit samples (128 is silence).
    Unsigned8(Vec<u8>),
}

/// The little-endian `u16` at `i`.
pub open spec fn le_u16_at(b: Seq<u8>, i: int) -> int {
    b[i] + b[i + 1] * 0x100
}

/// The little-endian `u32` at `i`.
pub open spec fn le_u32_at(b: Seq<u8>, i: int) -> int {
    b[i] + b[i + 1] * 0x100 + b[i + 2] * 0x1_0000 + b[i + 3] * 0x100_0000
}

/// The four bytes at `i` are `tag`.
pub open spec fn tag_at(b: Seq<u8>, i: int, tag: Seq<u8>) -> bool {
    0 <= i && i + 4 <= b.len() && b.subrange(i, i + 4) == tag
}

pub open spec fn riff_tag() -> Seq<u8> {
    seq![0x52u8, 0x49u8, 0x46u8, 0x46u8]
}

pub open spec fn wave_tag() -> Seq<u8> {
    seq![0x57u8, 0x41u8, 0x56u8, 0x45u8]
}

pub open spec fn fmt_tag() -> Seq<u8> {
    seq![0x66u8, 0x6du8, 0x74u8, 0x20u8]
}

pub open spec fn data_tag() -> Seq<u8> {
    seq![0x64u8, 0x61u8, 0x74u8, 0x61u8]
}

/// Walks the chunks from offset `pos` with the format so far (`rate`,
/// `bits`); gives the format and the `data` chunk's body as (start, length),
/// or (0, 0) when no `data` chunk is found. A `fmt ` chunk is read only when
/// its body lies within the file and has at least 16 bytes; a `data` chunk's
/// length is cut at the end of the file; the walk stops at the first `data`
/// chunk or when no whole chunk header is left.
pub open spec fn scan_chunks(b: Seq<u8>, pos: int, rate: u32, bits: u16) -> (u32, u16, int, int)
    decreases b.len() - pos,
{
    if pos < 0 || pos + 8 > b.len() {
        (rate, bits, 0, 0)
    } else {
        let size = le_u32_at(b, pos + 4);
        let next = pos + 8 + size + size % 2;
        if tag_at(b, pos, data_tag()) {
            let start = pos + 8;
            (rate, bits, start, if size < b.len() - start {
                size
            } else {
                b.len() - start
            })
        } else {
            let (rate2, bits2) = if tag_at(b, pos, fmt_tag()) && pos + 8 + size <= b.len() && size
                >= 16 {
                (le_u32_at(b, pos + 12) as u32, le_u16_at(b, pos + 22) as u16)
            } else {
                (rate, bits)
            };
            if next > b.len() {
                (rate2, bits2, 0, 0)
            } else {
                scan_chunks(b, next, rate2, bits2)
            }
        }
    }
}

/// The sample of two little-endian bytes, as a signed 16-bit value.
pub open spec fn le_i16(lo: u8, hi: u8) -> i16 {
    let v = lo + hi * 0x100;
    if v >= 0x8000 {
        (v - 0x1_0000) as i16
    } else {
        v as i16
    }
}

/// The 16-bit little-endian samples of `bytes` (a trailing odd byte is
/// ignored).
pub open spec fn pcm16_le(bytes: Seq<u8>) -> Seq<i16> {
    Seq::new(bytes.len() / 2, |i: int| le_i16(bytes[2 * i], bytes[2 * i + 1]))
}

/// What reading a WAV file gives: sample rate, bits per sample, and the
/// `data` chunk's body as (start, length).
pub open spec fn wav_layout(b: Seq<u8>) -> Result<(u32, u16, int, int), WavError> {
    if b.len() < 12 {
        Err(WavError::OutputTooShort(b.len() as usize))
    } else if !tag_at(b, 0, riff_tag()) || !tag_at(b, 8, wave_tag()) {
        Err(WavError::NotWav)
    } else {
        let (rate, bits, start, len) = scan_chunks(
            b,
            12,
            DEFAULT_WAV_SAMPLE_RATE,
            DEFAULT_BITS_PER_SAMPLE,
        );
        if start == 0 || len == 0 {
            Err(WavError::NoDataChunk)
        } else if bits != 16 && bits != 8 {
            Err(WavError::UnsupportedBitsPerSample(bits))
        } else {
            Ok((rate, bits, start, len))
        }
    }
}

fn read_le_u16(b: &[u8], i: usize) -> (r: u16)
    requires
        i + 2 <= b@.len(),
    ensures
        r == le_u16_at(b@, i as int),
{
    (b[i] as u16) + (b[i + 1] as u16) * 0x100
}

fn read_le_u32(b: &[u8], i: usize) -> (r: u32)
    requires
        i + 4 <= b@.len(),
    ensures
        r == le_u32_at(b@, i as int),
{
    (b[i] as u32) + (b[i + 1] as u32) * 0x100 + (b[i + 2] as u32) * 0x1_0000 + (b[i + 3] as u32)
        * 0x100_0000
}

fn has_tag(b: &[u8], i: usize, t0: u8, t1: u8, t2: u8, t3: u8) -> (r: bool)
    requires
        i + 4 <= b@.len(),
    ensures
        r == (b@.subrange(i as int, i + 4) == seq![t0, t1, t2, t3]),
{
    let r = b[i] == t0 && b[i + 1] == t1 && b[i + 2] == t2 && b[i + 3] == t3;
    assert(r ==> b@.subrange(i as int, i + 4) =~= seq![t0, t1, t2, t3]);
    assert(b@.subrange(i as int, i + 4) == seq![t0, t1, t2, t3] ==> {
        &&& b@.subrange(i as int, i + 4)[0] == t0
        &&& b@.subrange(i as int, i + 4)[1] == t1
        &&& b@.subrange(i as int, i + 4)[2] == t2
        &&& b@.subrange(i as int, i + 4)[3] == t3
    });
    r
}

/// The signed 16-bit little-endian samples of `pcm` (a trailing odd byte is
/// ignored).
pub fn decode_pcm16_le(pcm: &[u8]) -> (r: Vec<i16>)
    ensures
        r@ == pcm16_le(pcm@),
{
    let plen = pcm.len();
    let n = plen / 2;
    let mut out: Vec<i16> = Vec::new();
    let mut i: usize = 0;
    while i < n
        invariant
            plen == pcm@.len(),
            n == pcm@.len() / 2,
            i <= n,
            out@ == pcm16_le(pcm@).take(i as int),
        decreases n - i,
    {
        assert(2 * i + 1 < plen);
        let lo = pcm[2 * i];
        let hi = pcm[2 * i + 1];
        let v: u32 = (lo as u32) + (hi as u32) * 0x100;
        let s: i16 = if v >= 0x8000 {
            (v as i32 - 0x1_0000) as i16
        } else {
            v as i16
        };
        out.push(s);
        assert(out@ =~= pcm16_le(pcm@).take(i + 1));
        i = i + 1;
    }
    assert(out@ =~= pcm16_le(pcm@));
    out
}

fn copy_bytes(b: &[u8], start: usize, len: usize) -> (r: Vec<u8>)
    requires
        start + len <= b@.len(),
    ensures
        r@ == b@.subrange(start as int, start + len),
{
    let blen = b.len();
    let mut out: Vec<u8> = Vec::new();
    let mut i: usize = 0;
    while i < len
        invariant
            blen == b@.len(),
            start + len <= b@.len(),
            i <= len,
            out@ == b@.subrange(start as int, start + i),
        decreases len - i,
    {
        out.push(b[start + i]);
        assert(out@ =~= b@.subrange(start as int, start + i + 1));
        i = i + 1;
    }
    out
}

/// Reads the samples out of a WAV file: the sample rate and the `data`
/// chunk's samples, decoded by their width.
///
/// Errors, in the order checked: fewer than 12 bytes; no `RIFF`/`WAVE`
/// header; no non-empty `data` chunk; samples neither 8 nor 16 bits wide.
pub fn decode_wav(wav: &[u8]) -> (r: Result<(u32, PcmSamples), WavError>)
    ensures
        match wav_layout(wav@) {
            Err(e) => r == Err::<(u32, PcmSamples), WavError>(e),
            Ok((rate, bits, start, len)) => r matches Ok((rt, s)) && (rt == rate && (bits == 16
                ==> (s matches PcmSamples::Signed16(v) && v@ == pcm16_le(
                wav@.subrange(start, start + len),
            ))) && (bits == 8 ==> (s matches PcmSamples::Unsigned8(v) && v@ == wav@.subrange(
                start,
                start + len,
            )))),
        },
{
    let n = wav.len();
    if n < 12 {
        return Err(WavError::OutputTooShort(n));
    }
    let riff = has_tag(wav, 0, 0x52, 0x49, 0x46, 0x46);
    let wave = has_tag(wav, 8, 0x57, 0x41, 0x56, 0x45);
    if !riff || !wave {
        return Err(WavError::NotWav);
    }
    let mut rate: u32 = DEFAULT_WAV_SAMPLE_RATE;
    let mut bits: u16 = DEFAULT_BITS_PER_SAMPLE;
    let mut data_start: usize = 0;
    let mut data_len: usize = 0;
    let mut pos: usize = 12;
    let mut found = false;
    while !found && pos <= n && n - pos >= 8
        invariant
            n == wav@.len(),
            12 <= pos <= n,
            !found ==> data_start == 0 && data_len == 0,
            found ==> scan_chunks(wav@, 12, DEFAULT_WAV_SAMPLE_RATE, DEFAULT_BITS_PER_SAMPLE) == (
                rate,
                bits,
                data_start as int,
                data_len as int,
            ),
            found ==> data_start + data_len <= n,
            !found ==> scan_chunks(wav@, 12, DEFAULT_WAV_SAMPLE_RATE, DEFAULT_BITS_PER_SAMPLE)
                == scan_chunks(wav@, pos as int, rate, bits),
        decreases (n - pos) as int + if found {
            0int
        } else {
            1int
        },
    {
        let size = read_le_u32(wav, pos + 4) as usize;
        let is_data = has_tag(wav, pos, 0x64, 0x61, 0x74, 0x61);
        let is_fmt = has_tag(wav, pos, 0x66, 0x6d, 0x74, 0x20);
        let body = pos + 8;
        if is_data {
            data_start = body;
            data_len = if size < n - body {
                size
            } else {
                n - body
            };
            found = true;
        } else {
            if is_fmt && size <= n - body && size >= 16 {
                rate = read_le_u32(wav, pos + 12);
                bits = read_le_u16(wav, pos + 22);
            }
            if size > n - body {
                pos = n;
            } else {
                let end = body + size;
                if size % 2 == 1 {
                    if end == n {
                        pos = n;
                    } else {
                        pos = end + 1;
                    }
                } else {
                    pos = end;
                }
            }
        }
    }
    if data_start == 0 || data_len == 0 {
        return Err(WavError::NoDataChunk);
    }
    if bits == 16 {
        let pcm = &wav[data_start..data_start + data_len];
        Ok((rate, PcmSamples::Signed16(decode_pcm16_le(pcm))))
    } else if bits == 8 {
        Ok((rate, PcmSamples::Unsigned8(copy_bytes(wav, data_start, data_len))))
    } else {
        Err(WavError::UnsupportedBitsPerSample(bits))
    }
}

} // verus!
