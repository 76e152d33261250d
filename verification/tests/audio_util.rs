use ironclaw::audio_util::{
    downsample_16_to_8, mulaw_to_pcm16, pcm16_from_le_bytes, pcm16_to_le_bytes, pcm16_to_mulaw,
    upsample_8_to_16,
};

#[test]
fn mulaw_decodes_known_codes() {
    assert_eq!(mulaw_to_pcm16(&[0x00, 0x7f, 0x80, 0xff, 0x0f]), vec![-32124, 0, 32124, 0, -16764]);
    assert_eq!(mulaw_to_pcm16(&[]), Vec::<i16>::new());
}

#[test]
fn mulaw_encodes_known_samples() {
    assert_eq!(
        pcm16_to_mulaw(&[0, 1000, -1000, 32767, -32767, 100, 5000, -8]),
        vec![0xff, 206, 78, 0x80, 0x00, 242, 171, 126]
    );
}

#[test]
fn mulaw_encodes_negative_zero_and_min() {
    // Small negative samples quantise to "negative zero"; i16::MIN clips like
    // -32767 to the loudest negative code.
    assert_eq!(pcm16_to_mulaw(&[-1, -3]), vec![0x7f, 0x7f]);
    assert_eq!(pcm16_to_mulaw(&[i16::MIN, -32767]), vec![0x00, 0x00]);
    assert_eq!(mulaw_to_pcm16(&pcm16_to_mulaw(&[i16::MIN])), vec![-32124]);
    assert_eq!(pcm16_to_mulaw(&[-4]), vec![0x7e]);
}

#[test]
fn mulaw_quantisation_keeps_sample_order() {
    let samples: Vec<i16> = vec![i16::MIN, -32767, -20000, -1000, -130, -4, -1, 0, 1, 7, 500, 8000, 32635, 32767];
    let decoded = mulaw_to_pcm16(&pcm16_to_mulaw(&samples));
    for pair in decoded.windows(2) {
        assert!(pair[0] <= pair[1]);
    }
}

#[test]
fn mulaw_code_roundtrip_all_codes() {
    let codes: Vec<u8> = (0u8..=255).filter(|&c| c != 0x7f).collect();
    let decoded = mulaw_to_pcm16(&codes);
    assert_eq!(pcm16_to_mulaw(&decoded), codes);
    // 0x7F decodes to 0, which encodes as 0xFF.
    assert_eq!(pcm16_to_mulaw(&mulaw_to_pcm16(&[0x7f])), vec![0xff]);
}

#[test]
fn upsample_interpolates_and_repeats_last() {
    assert_eq!(upsample_8_to_16(&[100, -101, 7]), vec![100, 0, -101, -47, 7, 7]);
    assert_eq!(upsample_8_to_16(&[i16::MIN, i16::MIN]), vec![i16::MIN; 4]);
    assert_eq!(upsample_8_to_16(&[5]), vec![5, 5]);
    assert_eq!(upsample_8_to_16(&[]), Vec::<i16>::new());
}

#[test]
fn downsample_keeps_even_positions() {
    assert_eq!(downsample_16_to_8(&[1, 2, 3, 4, 5]), vec![1, 3, 5]);
    assert_eq!(downsample_16_to_8(&[1, 2]), vec![1]);
    assert_eq!(downsample_16_to_8(&[]), Vec::<i16>::new());
}

#[test]
fn downsample_inverts_upsample() {
    let x = vec![3, -9, 12000, -32768, 32767, 0];
    assert_eq!(downsample_16_to_8(&upsample_8_to_16(&x)), x);
}

#[test]
fn le_bytes_roundtrip() {
    let samples = vec![0, 1, -1, 256, i16::MIN, i16::MAX];
    let bytes = pcm16_to_le_bytes(&samples);
    assert_eq!(bytes, vec![0, 0, 1, 0, 0xff, 0xff, 0, 1, 0, 0x80, 0xff, 0x7f]);
    assert_eq!(pcm16_from_le_bytes(&bytes), samples);
    // A trailing odd byte is dropped.
    assert_eq!(pcm16_from_le_bytes(&[0xe8, 0x03, 0x05]), vec![1000]);
}
