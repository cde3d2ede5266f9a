use aether_echo::audio::{decode_pcm16, decode_samples, device_id, fallback_device_name, DecodedSamples};
use aether_echo::wav::encode_wav;

#[test]
fn wav_header_for_no_samples() {
    let bytes = encode_wav(&[]);
    let expected: Vec<u8> = vec![
        b'R', b'I', b'F', b'F', 36, 0, 0, 0, b'W', b'A', b'V', b'E', b'f', b'm', b't', b' ', 16, 0,
        0, 0, 1, 0, 1, 0, 0x80, 0x3e, 0, 0, 0x00, 0x7d, 0, 0, 2, 0, 16, 0, b'd', b'a', b't', b'a',
        0, 0, 0, 0,
    ];
    assert_eq!(bytes, expected);
}

#[test]
fn wav_samples_are_little_endian_twos_complement() {
    let bytes = encode_wav(&[0, 1, -1, i16::MAX, i16::MIN, 0x1234]);
    assert_eq!(bytes.len(), 44 + 12);
    assert_eq!(&bytes[4..8], &[48u8, 0, 0, 0]);
    assert_eq!(&bytes[40..44], &[12u8, 0, 0, 0]);
    assert_eq!(
        &bytes[44..],
        &[0u8, 0, 1, 0, 0xff, 0xff, 0xff, 0x7f, 0x00, 0x80, 0x34, 0x12]
    );
}

#[test]
fn wav_data_reads_back_as_the_encoded_samples() {
    let samples: Vec<i16> = vec![-32768, -2, -1, 0, 1, 2, 255, 256, 32767];
    let bytes = encode_wav(&samples);
    assert_eq!(decode_pcm16(&bytes[44..]), samples);
}

#[test]
fn pcm16_ignores_an_odd_trailing_byte() {
    assert_eq!(decode_pcm16(&[0xff, 0x7f, 0x00, 0x80, 0x05]), vec![32767, -32768]);
}

#[test]
fn decode_by_sample_width() {
    match decode_samples(&[0, 0, 0x80, 0x3f, 0, 0, 0x00, 0xbf, 7], 32) {
        DecodedSamples::Float32Bits(w) => {
            assert_eq!(w, vec![0x3f80_0000, 0xbf00_0000]);
            assert_eq!(f32::from_bits(w[0]), 1.0f32);
            assert_eq!(f32::from_bits(w[1]), -0.5f32);
        }
        _ => panic!("expected float samples"),
    }
    match decode_samples(&[0x00, 0x40, 0x00, 0xc0], 16) {
        DecodedSamples::Pcm16(s) => assert_eq!(s, vec![16384, -16384]),
        _ => panic!("expected integer samples"),
    }
    assert!(matches!(decode_samples(&[1, 2, 3], 24), DecodedSamples::Unsupported));
    assert!(matches!(decode_samples(&[1, 2, 3], 8), DecodedSamples::Unsupported));
}

#[test]
fn device_names() {
    assert_eq!(device_id(0), "device_0");
    assert_eq!(device_id(12), "device_12");
    assert_eq!(fallback_device_name(3), "Device 3");
    assert_eq!(fallback_device_name(4294967295), "Device 4294967295");
}
