//! Decoding of the raw sample bytes that the loopback capture delivers, and
//! the names under which output devices are listed.

use vstd::prelude::*;
use crate::wav::{le_u16, pcm_bytes, wav_bytes, lemma_pcm_bytes_len};
use crate::text::{concat2, decimal, decimal_string};


verus! {

/// The signed 16-bit sample whose little-endian bytes are `lo`, `hi`.
pub open spec fn i16_from_le(lo: u8, hi: u8) -> i16 {
    ((lo as int + 256 * hi as int) as u16) as i16
}

/// The 32-bit word whose little-endian bytes are `b0`..`b3`.
pub open spec fn u32_from_le(b0: u8, b1: u8, b2: u8, b3: u8) -> u32 {
    (b0 as int + 256 * b1 as int + 65536 * b2 as int + 16777216 * b3 as int) as u32
}

/// The 16-bit samples held by a byte buffer, two bytes each; a trailing odd
/// byte is ignored.
pub open spec fn pcm16_samples(bytes: Seq<u8>) -> Seq<i16> {
    Seq::new(bytes.len() / 2, |i: int| i16_from_le(bytes[2 * i], bytes[2 * i + 1]))
}

/// The 32-bit words held by a byte buffer, four bytes each; trailing bytes
/// that do not fill a word are ignored.
pub open spec fn word32_samples(bytes: Seq<u8>) -> Seq<u32> {
    Seq::new(
        bytes.len() / 4,
        |i: int| u32_from_le(bytes[4 * i], bytes[4 * i + 1], bytes[4 * i + 2], bytes[4 * i + 3]),
    )
}

/// Samples read from the device, by sample format.
pub enum DecodedSamples {
    /// 32-bit IEEE float samples, each given by its bit pattern.
    Float32Bits(Vec<u32>),
    /// Signed 16-bit integer samples.
    Pcm16(Vec<i16>),
    /// A sample width that is not supported; no samples.
    Unsupported,
}

/// Splits a buffer into little-endian 16-bit samples.
pub fn decode_pcm16(bytes: &[u8]) -> (out: Vec<i16>)
    ensures
        out@ == pcm16_samples(bytes@),
{
    let len = bytes.len();
    let n = len / 2;
    let mut out: Vec<i16> = Vec::with_capacity(n);
    let mut i: usize = 0;
    while i < n
        invariant
            len == bytes@.len(),
            n == len / 2,
            i <= n,
            out@ =~= pcm16_samples(bytes@).take(i as int),
        decreases n - i,
    {
        assert(2 * i + 1 < len);
        let lo = bytes[2 * i];
        let hi = bytes[2 * i + 1];
        let v: u16 = lo as u16 + (hi as u16) * 256;
        out.push(#[verifier::truncate] (v as i16));
        i = i + 1;
    }
    out
}

/// Splits a buffer into little-endian 32-bit words.
pub fn decode_words32(bytes: &[u8]) -> (out: Vec<u32>)
    ensures
        out@ == word32_samples(bytes@),
{
    let len = bytes.len();
    let n = len / 4;
    let mut out: Vec<u32> = Vec::with_capacity(n);
    let mut i: usize = 0;
    while i < n
        invariant
            len == bytes@.len(),
            n == len / 4,
            i <= n,
            out@ =~= word32_samples(bytes@).take(i as int),
        decreases n - i,
    {
        assert(4 * i + 3 < len);
        let b0 = bytes[4 * i] as u32;
        let b1 = bytes[4 * i + 1] as u32;
        let b2 = bytes[4 * i + 2] as u32;
        let b3 = bytes[4 * i + 3] as u32;
        out.push(b0 + 256 * b1 + 65536 * b2 + 16777216 * b3);
        i = i + 1;
    }
    out
}

/// Decodes the bytes of a captured packet by the device's sample width:
/// 32 bits are float samples, 16 bits are integer samples, any other width
/// is unsupported and yields no samples.
pub fn decode_samples(bytes: &[u8], bits_per_sample: u16) -> (out: DecodedSamples)
    ensures
        bits_per_sample == 32 ==> (out matches DecodedSamples::Float32Bits(w) && w@ == word32_samples(bytes@)),
        bits_per_sample == 16 ==> (out matches DecodedSamples::Pcm16(s) && s@ == pcm16_samples(bytes@)),
        bits_per_sample != 32 && bits_per_sample != 16 ==> out is Unsupported,
{
    if bits_per_sample == 32 {
        DecodedSamples::Float32Bits(decode_words32(bytes))
    } else if bits_per_sample == 16 {
        DecodedSamples::Pcm16(decode_pcm16(bytes))
    } else {
        DecodedSamples::Unsupported
    }
}

proof fn lemma_pcm_bytes_index(s: Seq<i16>, i: int)
    requires
        0 <= i < s.len(),
    ensures
        pcm_bytes(s).len() == 2 * s.len(),
        pcm_bytes(s)[2 * i] == le_u16(s[i] as u16)[0],
        pcm_bytes(s)[2 * i + 1] == le_u16(s[i] as u16)[1],
    decreases s.len(),
{
    lemma_pcm_bytes_len(s);
    lemma_pcm_bytes_len(s.drop_last());
    if i < s.len() - 1 {
        lemma_pcm_bytes_index(s.drop_last(), i);
    }
}

/// A buffer holds one sample per complete pair of bytes, and reading the
/// bytes that `pcm_bytes` writes gives back every sample, in order.
pub proof fn lemma_pcm16_round_trip(s: Seq<i16>)
    ensures
        pcm16_samples(pcm_bytes(s)) == s,
        forall|b: Seq<u8>| #[trigger] pcm16_samples(b).len() == b.len() / 2,
{
    lemma_pcm_bytes_len(s);
    let d = pcm16_samples(pcm_bytes(s));
    assert forall|i: int| 0 <= i < s.len() implies d[i] == s[i] by {
        lemma_pcm_bytes_index(s, i);
        let v: i16 = s[i];
        let u: u16 = v as u16;
        assert(((u % 256) as u8) as int + 256 * ((u / 256) as u8) as int == u as int);
        assert(((u as int) as u16) == u);
        assert((u as i16) == v) by (bit_vector)
            requires u == v as u16;
    }
    assert(d =~= s);
}

/// The little-endian bytes of a sequence of 32-bit words, four per word.
pub open spec fn word_le_bytes(w: Seq<u32>) -> Seq<u8> {
    Seq::new(
        4 * w.len(),
        |i: int| ((w[i / 4] >> (8 * (i % 4)) as u32) & 0xff) as u8,
    )
}

/// A buffer holds one word per complete group of four bytes, and reading the
/// little-endian bytes of any words gives back every word, in order.
pub proof fn lemma_words32_round_trip(w: Seq<u32>, bytes: Seq<u8>)
    ensures
        word32_samples(bytes).len() == bytes.len() / 4,
        word32_samples(word_le_bytes(w)) == w,
{
    let b = word_le_bytes(w);
    let d = word32_samples(b);
    assert(b.len() / 4 == w.len());
    assert forall|i: int| 0 <= i < w.len() implies d[i] == w[i] by {
        let x: u32 = w[i];
        assert(b[4 * i] == ((x >> 0u32) & 0xff) as u8);
        assert(b[4 * i + 1] == ((x >> 8u32) & 0xff) as u8);
        assert(b[4 * i + 2] == ((x >> 16u32) & 0xff) as u8);
        assert(b[4 * i + 3] == ((x >> 24u32) & 0xff) as u8);
        assert((((x >> 0u32) & 0xff) as u8) as int + 256 * (((x >> 8u32) & 0xff) as u8) as int
            + 65536 * (((x >> 16u32) & 0xff) as u8) as int + 16777216 * (((x >> 24u32) & 0xff) as u8) as int
            == x as int) by (bit_vector);
    }
    assert(d =~= w);
}

/// The sample data of an encoded WAV file, read back as 16-bit samples, is
/// exactly the samples that were encoded.
pub proof fn lemma_wav_data_round_trip(s: Seq<i16>)
    ensures
        wav_bytes(s).len() == 44 + 2 * s.len(),
        pcm16_samples(wav_bytes(s).skip(44)) == s,
{
    lemma_pcm_bytes_len(s);
    assert(wav_bytes(s).skip(44) =~= pcm_bytes(s));
    lemma_pcm16_round_trip(s);
}

/// The identifier under which the output device at `index` is listed.
pub fn device_id(index: u32) -> (s: String)
    ensures
        s@ == "device_"@ + decimal(index as nat),
{
    concat2("device_", decimal_string(index as u64).as_str())
}

/// The name shown for the output device at `index` when the device does not
/// report one.
pub fn fallback_device_name(index: u32) -> (s: String)
    ensures
        s@ == "Device "@ + decimal(index as nat),
{
    concat2("Device ", decimal_string(index as u64).as_str())
}

} // verus!
