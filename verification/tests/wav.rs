use ua571::wav::{decode_wav_pcm16, WavError};

fn chunk(tag: &[u8; 4], payload: &[u8]) -> Vec<u8> {
    let mut out = tag.to_vec();
    out.extend_from_slice(&(payload.len() as u32).to_le_bytes());
    out.extend_from_slice(payload);
    if payload.len() % 2 == 1 {
        out.push(0);
    }
    out
}

fn fmt_payload(channels: u16, rate: u32, bits: u16) -> Vec<u8> {
    let mut p = Vec::new();
    p.extend_from_slice(&1u16.to_le_bytes());
    p.extend_from_slice(&channels.to_le_bytes());
    p.extend_from_slice(&rate.to_le_bytes());
    p.extend_from_slice(&(rate * u32::from(channels) * 2).to_le_bytes());
    p.extend_from_slice(&(channels * 2).to_le_bytes());
    p.extend_from_slice(&bits.to_le_bytes());
    p
}

fn wav(chunks: &[Vec<u8>]) -> Vec<u8> {
    let body: Vec<u8> = chunks.concat();
    let mut out = b"RIFF".to_vec();
    out.extend_from_slice(&((body.len() + 4) as u32).to_le_bytes());
    out.extend_from_slice(b"WAVE");
    out.extend_from_slice(&body);
    out
}

fn samples(values: &[i16]) -> Vec<u8> {
    values.iter().flat_map(|v| v.to_le_bytes()).collect()
}

#[test]
fn decodes_mono_pcm16() {
    let data = samples(&[0, 1000, -1000, i16::MAX, i16::MIN]);
    let bytes = wav(&[
        chunk(b"fmt ", &fmt_payload(1, 22_050, 16)),
        chunk(b"LIST", b"abc"),
        chunk(b"data", &data),
    ]);
    let w = decode_wav_pcm16(&bytes).unwrap();
    assert_eq!(w.sample_rate, 22_050);
    assert_eq!(w.channels, 1);
    assert_eq!(w.samples, vec![0, 1000, -1000, i16::MAX, i16::MIN]);
}

#[test]
fn stereo_keeps_whole_frames_only() {
    let mut data = samples(&[1, 2, 3, 4]);
    data.extend_from_slice(&[9, 9]);
    let bytes = wav(&[
        chunk(b"fmt ", &fmt_payload(2, 44_100, 16)),
        chunk(b"data", &data),
    ]);
    let w = decode_wav_pcm16(&bytes).unwrap();
    assert_eq!(w.channels, 2);
    assert_eq!(w.samples, vec![1, 2, 3, 4]);
}

#[test]
fn rejects_what_is_not_pcm16_wave() {
    assert_eq!(decode_wav_pcm16(b"RIFF"), Err(WavError::NotWave));
    let mut not_wave = wav(&[chunk(b"data", &samples(&[1; 20]))]);
    not_wave[8] = b'X';
    assert_eq!(decode_wav_pcm16(&not_wave), Err(WavError::NotWave));

    let eight_bit = wav(&[
        chunk(b"fmt ", &fmt_payload(1, 8_000, 8)),
        chunk(b"data", &[1u8; 40]),
    ]);
    assert_eq!(decode_wav_pcm16(&eight_bit), Err(WavError::Unsupported));

    let no_data = wav(&[
        chunk(b"fmt ", &fmt_payload(1, 8_000, 16)),
        chunk(b"LIST", &[0u8; 20]),
    ]);
    assert_eq!(decode_wav_pcm16(&no_data), Err(WavError::Unsupported));

    let mut truncated = wav(&[
        chunk(b"fmt ", &fmt_payload(1, 8_000, 16)),
        chunk(b"data", &samples(&[5; 10])),
    ]);
    let n = truncated.len();
    truncated.truncate(n - 4);
    assert_eq!(decode_wav_pcm16(&truncated), Err(WavError::TruncatedChunk));
    assert_eq!(WavError::TruncatedChunk.message(), "truncated chunk");
    assert_eq!(WavError::NotWave.message(), "not a WAVE file");
    assert_eq!(WavError::Unsupported.message(), "unsupported wav");
}
