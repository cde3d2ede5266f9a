//! 16-bit PCM WAV framing for audio sent to the speech-to-text service, and
//! decoding of raw little-endian sample bytes delivered by the audio device.

use vstd::prelude::*;

verus! {

/// Sample rate of the audio that is sent for transcription, in Hz.
pub const WAV_SAMPLE_RATE: u32 = 16000;

/// Number of channels in the encoded audio (mono).
pub const WAV_CHANNELS: u16 = 1;

/// Bits per encoded sample.
pub const WAV_BITS_PER_SAMPLE: u16 = 16;

/// Length of the RIFF/WAVE header that precedes the sample data.
pub const WAV_HEADER_LEN: usize = 44;

/// Little-endian bytes of a 16-bit value.
pub open spec fn le_u16(v: u16) -> Seq<u8> {
    seq![(v % 256) as u8, (v / 256) as u8]
}

/// Little-endian bytes of a 32-bit value.
pub open spec fn le_u32(v: u32) -> Seq<u8> {
    seq![
        (v % 256) as u8,
        ((v / 256) % 256) as u8,
        ((v / 65536) % 256) as u8,
        (v / 16777216) as u8,
    ]
}

/// The ASCII bytes of a four-letter chunk tag.
pub open spec fn tag(a: u8, b: u8, c: u8, d: u8) -> Seq<u8> {
    seq![a, b, c, d]
}

/// The 44-byte header of a mono 16 kHz 16-bit PCM WAV file holding `n` samples.
/// Size fields are 32-bit and wrap as the format's fields do.
pub open spec fn wav_header(n: nat) -> Seq<u8> {
    tag(0x52, 0x49, 0x46, 0x46)  // "RIFF"
    + le_u32((36 + 2 * n) as u32)
    + tag(0x57, 0x41, 0x56, 0x45)  // "WAVE"
    + tag(0x66, 0x6d, 0x74, 0x20)  // "fmt "
    + le_u32(16)
    + le_u16(1)
    + le_u16(WAV_CHANNELS)
    + le_u32(WAV_SAMPLE_RATE)
    + le_u32(32000)
    + le_u16(2)
    + le_u16(WAV_BITS_PER_SAMPLE)
    + tag(0x64, 0x61, 0x74, 0x61)  // "data"
    + le_u32((2 * n) as u32)
}

/// Two's-complement little-endian bytes of each sample, in order.
pub open spec fn pcm_bytes(s: Seq<i16>) -> Seq<u8>
    decreases s.len(),
{
    if s.len() == 0 {
        Seq::empty()
    } else {
        pcm_bytes(s.drop_last()) + le_u16(s.last() as u16)
    }
}

/// A complete WAV file holding the given samples.
pub open spec fn wav_bytes(s: Seq<i16>) -> Seq<u8> {
    wav_header(s.len()) + pcm_bytes(s)
}

fn push_u16_le(buf: &mut Vec<u8>, v: u16)
    ensures
        final(buf)@ == old(buf)@ + le_u16(v),
{
    buf.push((v % 256) as u8);
    buf.push((v / 256) as u8);
}

fn push_u32_le(buf: &mut Vec<u8>, v: u32)
    ensures
        final(buf)@ == old(buf)@ + le_u32(v),
{
    buf.push((v % 256) as u8);
    buf.push(((v / 256) % 256) as u8);
    buf.push(((v / 65536) % 256) as u8);
    buf.push((v / 16777216) as u8);
}

fn push_tag(buf: &mut Vec<u8>, a: u8, b: u8, c: u8, d: u8)
    ensures
        final(buf)@ == old(buf)@ + tag(a, b, c, d),
{
    buf.push(a);
    buf.push(b);
    buf.push(c);
    buf.push(d);
}

/// Encodes mono 16 kHz samples as a 16-bit PCM WAV file in memory: the
/// 44-byte header followed by each sample's two little-endian bytes.
pub fn encode_wav(samples: &[i16]) -> (buf: Vec<u8>)
    requires
        samples@.len() * 2 + 44 <= usize::MAX,
    ensures
        buf@ == wav_bytes(samples@),
        buf@.len() == 44 + 2 * samples@.len(),
{
    let n = samples.len();
    let pcm_data_len: usize = n * 2;
    let mut buf: Vec<u8> = Vec::with_capacity(44 + pcm_data_len);

    push_tag(&mut buf, 0x52, 0x49, 0x46, 0x46);
    push_u32_le(&mut buf, (36 + pcm_data_len) as u32);
    push_tag(&mut buf, 0x57, 0x41, 0x56, 0x45);
    push_tag(&mut buf, 0x66, 0x6d, 0x74, 0x20);
    push_u32_le(&mut buf, 16);
    push_u16_le(&mut buf, 1);
    push_u16_le(&mut buf, WAV_CHANNELS);
    push_u32_le(&mut buf, WAV_SAMPLE_RATE);
    push_u32_le(&mut buf, 32000);
    push_u16_le(&mut buf, 2);
    push_u16_le(&mut buf, WAV_BITS_PER_SAMPLE);
    push_tag(&mut buf, 0x64, 0x61, 0x74, 0x61);
    push_u32_le(&mut buf, pcm_data_len as u32);
    assert(buf@ == wav_header(n as nat));
    assert(samples@.take(0) =~= Seq::<i16>::empty());

    let mut i: usize = 0;
    while i < n
        invariant
            n == samples@.len(),
            i <= n,
            buf@ == wav_header(n as nat) + pcm_bytes(samples@.take(i as int)),
        decreases n - i,
    {
        let s = samples[i];
        push_u16_le(&mut buf, s as u16);
        assert(samples@.take(i as int + 1).drop_last() =~= samples@.take(i as int));
        i = i + 1;
    }
    assert(samples@.take(n as int) =~= samples@);
    proof {
        lemma_pcm_bytes_len(samples@);
    }
    buf
}

/// Each sample contributes exactly two bytes.
pub proof fn lemma_pcm_bytes_len(s: Seq<i16>)
    ensures
        pcm_bytes(s).len() == 2 * s.len(),
    decreases s.len(),
{
    if s.len() > 0 {
        lemma_pcm_bytes_len(s.drop_last());
    }
}

} // verus!
