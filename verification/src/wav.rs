//! Reading the fire burst sample: a RIFF/WAVE file with 16-bit PCM samples.
//!
//! The file is a 12-byte `RIFF`…`WAVE` header followed by chunks, each an
//! ASCII tag, a little-endian 32-bit payload size, the payload, and one pad
//! byte when the size is odd. The `fmt ` chunk (at least 16 bytes) carries the
//! channel count, the sample rate and the sample width; the `data` chunk
//! carries interleaved little-endian samples.
use vstd::prelude::*;

verus! {

/// Why a byte string is not a usable sample.
#[derive(Debug, Clone, Copy, PartialEq, Eq, Structural)]
pub enum WavError {
    /// Shorter than a header, or not tagged `RIFF` … `WAVE`.
    NotWave,
    /// A chunk claims more bytes than the file holds.
    TruncatedChunk,
    /// No sample rate, no channels, not 16-bit, or no sample data.
    Unsupported,
}

impl WavError {
    pub open spec fn spec_message(self) -> Seq<char> {
        match self {
            WavError::NotWave => "not a WAVE file"@,
            WavError::TruncatedChunk => "truncated chunk"@,
            WavError::Unsupported => "unsupported wav"@,
        }
    }

    pub fn message(self) -> (r: &'static str)
        ensures
            r@ == self.spec_message(),
    {
        match self {
            WavError::NotWave => "not a WAVE file",
            WavError::TruncatedChunk => "truncated chunk",
            WavError::Unsupported => "unsupported wav",
        }
    }
}

/// A decoded sample: its rate, its channel count, and the samples of every
/// complete frame, channels interleaved.
#[derive(Debug, Clone, PartialEq, Eq)]
pub struct WavPcm16 {
    pub sample_rate: u32,
    pub channels: u16,
    pub samples: Vec<i16>,
}

/// What the chunk walk has collected so far; `data` is the byte range of the
/// last `data` chunk.
pub struct WavFields {
    pub sample_rate: u32,
    pub channels: u16,
    pub bits: u16,
    pub data_start: int,
    pub data_end: int,
}

pub open spec fn no_fields() -> WavFields {
    WavFields { sample_rate: 0, channels: 0, bits: 0, data_start: 0, data_end: 0 }
}

pub open spec fn le_u16(b: Seq<u8>, at: int) -> int {
    b[at] + 256 * b[at + 1]
}

pub open spec fn le_u32(b: Seq<u8>, at: int) -> int {
    b[at] + 256 * b[at + 1] + 65536 * b[at + 2] + 16777216 * b[at + 3]
}

/// A little-endian 16-bit two's-complement sample.
pub open spec fn le_i16(b: Seq<u8>, at: int) -> int {
    let v = le_u16(b, at);
    if v >= 32768 {
        v - 65536
    } else {
        v
    }
}

/// The four bytes at `at` spell `t`.
pub open spec fn has_tag(b: Seq<u8>, at: int, t: Seq<u8>) -> bool {
    b.subrange(at, at + 4) == t
}

pub open spec fn riff_tag() -> Seq<u8> {
    seq![0x52u8, 0x49u8, 0x46u8, 0x46u8]
}

pub open spec fn wave_tag() -> Seq<u8> {
    seq![0x57u8, 0x41u8, 0x56u8, 0x45u8]
}

pub open spec fn fmt_tag() -> Seq<u8> {
    seq![0x66u8, 0x6du8, 0x74u8, 0x20u8]
}

pub open spec fn data_tag() -> Seq<u8> {
    seq![0x64u8, 0x61u8, 0x74u8, 0x61u8]
}

/// Walks the chunks from `pos` while a whole chunk header fits, collecting the
/// format fields and the data range; a chunk running past the end is an error.
pub open spec fn scan_chunks(b: Seq<u8>, pos: int, acc: WavFields) -> Result<WavFields, WavError>
    decreases b.len() + 1 - pos,
{
    if pos < 0 || pos + 8 > b.len() {
        Ok(acc)
    } else {
        let size = le_u32(b, pos + 4);
        let start = pos + 8;
        let end = start + size;
        if end > b.len() {
            Err(WavError::TruncatedChunk)
        } else {
            let next = if has_tag(b, pos, fmt_tag()) && size >= 16 {
                WavFields {
                    channels: le_u16(b, start + 2) as u16,
                    sample_rate: le_u32(b, start + 4) as u32,
                    bits: le_u16(b, start + 14) as u16,
                    ..acc
                }
            } else if has_tag(b, pos, data_tag()) {
                WavFields { data_start: start, data_end: end, ..acc }
            } else {
                acc
            };
            scan_chunks(b, end + size % 2, next)
        }
    }
}

/// The samples of every complete frame of the data range, in file order.
pub open spec fn frame_samples(b: Seq<u8>, f: WavFields) -> Seq<int> {
    let frame_bytes = 2 * f.channels;
    let frames = (f.data_end - f.data_start) / frame_bytes;
    Seq::new((frames * f.channels) as nat, |k: int| le_i16(b, f.data_start + 2 * k))
}

/// The decoded file, or why it cannot be used.
pub open spec fn spec_decode(b: Seq<u8>) -> Result<(u32, u16, Seq<int>), WavError> {
    if b.len() < 44 || !has_tag(b, 0, riff_tag()) || !has_tag(b, 8, wave_tag()) {
        Err(WavError::NotWave)
    } else {
        match scan_chunks(b, 12, no_fields()) {
            Err(e) => Err(e),
            Ok(f) => if f.sample_rate == 0 || f.channels == 0 || f.bits != 16 || f.data_end
                <= f.data_start {
                Err(WavError::Unsupported)
            } else {
                Ok((f.sample_rate, f.channels, frame_samples(b, f)))
            },
        }
    }
}

fn read_u16(b: &[u8], at: usize) -> (r: u16)
    requires
        at + 1 < b@.len(),
    ensures
        r == le_u16(b@, at as int),
{
    b[at] as u16 + 256 * (b[at + 1] as u16)
}

fn read_u32(b: &[u8], at: usize) -> (r: u32)
    requires
        at + 3 < b@.len(),
    ensures
        r == le_u32(b@, at as int),
{
    b[at] as u32 + 256 * (b[at + 1] as u32) + 65536 * (b[at + 2] as u32) + 16777216 * (
    b[at + 3] as u32)
}

fn read_i16(b: &[u8], at: usize) -> (r: i16)
    requires
        at + 1 < b@.len(),
    ensures
        r == le_i16(b@, at as int),
{
    let v = read_u16(b, at);
    if v >= 32768 {
        (v as i32 - 65536) as i16
    } else {
        v as i16
    }
}

fn tag_is(b: &[u8], at: usize, t: [u8; 4]) -> (r: bool)
    requires
        at + 3 < b@.len(),
    ensures
        r == has_tag(b@, at as int, t@),
{
    let r = b[at] == t[0] && b[at + 1] == t[1] && b[at + 2] == t[2] && b[at + 3] == t[3];
    proof {
        if r {
            assert(b@.subrange(at as int, at + 4) =~= t@);
        } else {
            if b@.subrange(at as int, at + 4) == t@ {
                assert(b@.subrange(at as int, at + 4)[0] == t@[0]);
                assert(b@.subrange(at as int, at + 4)[1] == t@[1]);
                assert(b@.subrange(at as int, at + 4)[2] == t@[2]);
                assert(b@.subrange(at as int, at + 4)[3] == t@[3]);
            }
        }
    }
    r
}

/// Decodes a 16-bit PCM WAVE file into its rate, channel count and the
/// interleaved samples of its complete frames.
pub fn decode_wav_pcm16(bytes: &[u8]) -> (r: Result<WavPcm16, WavError>)
    requires
        bytes@.len() <= isize::MAX,
    ensures
        match r {
            Ok(w) => spec_decode(bytes@) == Ok::<(u32, u16, Seq<int>), WavError>(
                (w.sample_rate, w.channels, w.samples@.map_values(|s: i16| s as int)),
            ),
            Err(e) => spec_decode(bytes@) == Err::<(u32, u16, Seq<int>), WavError>(e),
        },
{
    let riff: [u8; 4] = [0x52, 0x49, 0x46, 0x46];
    let wave: [u8; 4] = [0x57, 0x41, 0x56, 0x45];
    let fmt: [u8; 4] = [0x66, 0x6d, 0x74, 0x20];
    let data: [u8; 4] = [0x64, 0x61, 0x74, 0x61];
    assert(riff@ =~= riff_tag());
    assert(wave@ =~= wave_tag());
    assert(fmt@ =~= fmt_tag());
    assert(data@ =~= data_tag());
    if bytes.len() < 44 || !tag_is(bytes, 0, riff) || !tag_is(bytes, 8, wave) {
        return Err(WavError::NotWave);
    }
    let ghost b = bytes@;
    let mut pos: usize = 12;
    let mut sr: u32 = 0;
    let mut ch: u16 = 0;
    let mut bits: u16 = 0;
    let mut data_start: usize = 0;
    let mut data_end: usize = 0;
    while pos <= bytes.len() && bytes.len() - pos >= 8
        invariant
            b == bytes@,
            b.len() >= 44,
            b.len() <= isize::MAX,
            has_tag(b, 0, riff_tag()),
            has_tag(b, 8, wave_tag()),
            12 <= pos <= b.len() + 1,
            data_start <= data_end <= b.len(),
            scan_chunks(b, 12, no_fields()) == scan_chunks(
                b,
                pos as int,
                WavFields {
                    sample_rate: sr,
                    channels: ch,
                    bits,
                    data_start: data_start as int,
                    data_end: data_end as int,
                },
            ),
            fmt@ == fmt_tag(),
            data@ == data_tag(),
        decreases b.len() + 1 - pos,
    {
        let size = read_u32(bytes, pos + 4) as usize;
        let start = pos + 8;
        let ghost acc = WavFields {
            sample_rate: sr,
            channels: ch,
            bits,
            data_start: data_start as int,
            data_end: data_end as int,
        };
        if size > bytes.len() - start {
            assert(scan_chunks(b, pos as int, acc) == Err::<WavFields, WavError>(
                WavError::TruncatedChunk,
            ));
            return Err(WavError::TruncatedChunk);
        }
        let end = start + size;
        if tag_is(bytes, pos, fmt) && size >= 16 {
            ch = read_u16(bytes, start + 2);
            sr = read_u32(bytes, start + 4);
            bits = read_u16(bytes, start + 14);
        } else if tag_is(bytes, pos, data) {
            data_start = start;
            data_end = end;
        }
        pos = end + size % 2;
    }
    if sr == 0 || ch == 0 || bits != 16 || data_end <= data_start {
        return Err(WavError::Unsupported);
    }
    let ghost f = WavFields {
        sample_rate: sr,
        channels: ch,
        bits,
        data_start: data_start as int,
        data_end: data_end as int,
    };
    let step = ch as usize;
    let mut samples: Vec<i16> = Vec::new();
    let mut i: usize = data_start;
    let ghost mut fr: int = 0;
    while data_end - i >= 2 * step
        invariant
            b == bytes@,
            data_start <= i <= data_end <= b.len(),
            1 <= step <= u16::MAX,
            0 <= fr,
            i == data_start + 2 * (step * fr),
            samples@.len() == step * fr,
            forall|k: int|
                0 <= k < samples@.len() ==> samples@[k] as int == le_i16(b, data_start + 2 * k),
        decreases data_end - i,
    {
        let mut c: usize = 0;
        while c < step
            invariant
                b == bytes@,
                data_start <= i,
                i + 2 * step <= data_end <= b.len(),
                c <= step,
                i == data_start + 2 * (step * fr),
                samples@.len() == step * fr + c,
                forall|k: int|
                    0 <= k < samples@.len() ==> samples@[k] as int == le_i16(
                        b,
                        data_start + 2 * k,
                    ),
            decreases step - c,
        {
            samples.push(read_i16(bytes, i + 2 * c));
            c = c + 1;
        }
        proof {
            assert(step * (fr + 1) == step * fr + step) by (nonlinear_arith);
            fr = fr + 1;
        }
        i = i + 2 * step;
    }
    proof {
        let want = frame_samples(b, f);
        let r = data_end - i;
        assert((2 * step) * fr == 2 * (step * fr)) by (nonlinear_arith);
        vstd::arithmetic::div_mod::lemma_fundamental_div_mod_converse(
            data_end - data_start,
            2 * step as int,
            fr,
            r,
        );
        assert(fr * step == step * fr) by (nonlinear_arith);
        assert(samples@.map_values(|s: i16| s as int) =~= want);
    }
    Ok(WavPcm16 { sample_rate: sr, channels: ch, samples })
}

} // verus!
