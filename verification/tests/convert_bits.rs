use stt_core::convert::{
    bf16_to_f32_bits, build_gpt2_byte_decoder, f16_to_f32_bits, tensor_to_f32_bits, TensorDtype,
};

fn f16_to_f32(bits: u16) -> f32 {
    f32::from_bits(f16_to_f32_bits(bits))
}

fn bf16_to_f32(bits: u16) -> f32 {
    f32::from_bits(bf16_to_f32_bits(bits))
}

#[test]
fn f16_to_f32_roundtrips_common_values() {
    // 1.0 in f16 is 0x3C00
    assert!((f16_to_f32(0x3C00) - 1.0).abs() < 1e-6);
    // 0.0 in f16 is 0x0000
    assert_eq!(f16_to_f32(0x0000), 0.0);
    // -2.0 in f16 is 0xC000
    assert!((f16_to_f32(0xC000) - (-2.0)).abs() < 1e-6);
}

#[test]
fn f16_subnormals_keep_their_value() {
    // The smallest positive subnormal is 2^-24.
    assert_eq!(f16_to_f32(0x0001), 2f32.powi(-24));
    // The largest subnormal is 1023 * 2^-24.
    assert_eq!(f16_to_f32(0x03ff), 1023.0 * 2f32.powi(-24));
    assert_eq!(f16_to_f32(0x8200), -512.0 * 2f32.powi(-24));
}

#[test]
fn f16_special_values() {
    assert_eq!(f16_to_f32_bits(0x8000), 0x8000_0000);
    assert_eq!(f16_to_f32(0x7c00), f32::INFINITY);
    assert_eq!(f16_to_f32(0xfc00), f32::NEG_INFINITY);
    assert!(f16_to_f32(0x7e00).is_nan());
    // 65504 is the largest finite half.
    assert_eq!(f16_to_f32(0x7bff), 65504.0);
}

#[test]
fn bf16_to_f32_matches_truncated_mantissa() {
    // 1.0 in bf16 is 0x3F80
    assert!((bf16_to_f32(0x3F80) - 1.0).abs() < 1e-6);
}

#[test]
fn tensor_to_f32_handles_f32_dtype() {
    let value = 3.5f32;
    let bytes = value.to_le_bytes().to_vec();
    let out: Vec<f32> = tensor_to_f32_bits(&bytes, TensorDtype::F32)
        .unwrap()
        .into_iter()
        .map(f32::from_bits)
        .collect();
    assert_eq!(out, vec![3.5]);
}

#[test]
fn tensor_to_f32_returns_none_for_unsupported_dtype() {
    assert!(tensor_to_f32_bits(&[0, 0], TensorDtype::Other).is_none());
}

#[test]
fn tensor_payloads_drop_a_trailing_partial_element() {
    let out = tensor_to_f32_bits(&[0x00, 0x3c, 0x00, 0xc0, 0x7f], TensorDtype::F16).unwrap();
    assert_eq!(out, vec![0x3f80_0000, 0xc000_0000]);
    let out = tensor_to_f32_bits(&[0x80, 0x3f, 0x01], TensorDtype::BF16).unwrap();
    assert_eq!(out, vec![0x3f80_0000]);
    let out = tensor_to_f32_bits(&[1, 2, 3], TensorDtype::F32).unwrap();
    assert!(out.is_empty());
}

#[test]
fn build_gpt2_byte_decoder_covers_all_256_bytes() {
    let decoder = build_gpt2_byte_decoder();
    let mut seen: Vec<u8> = decoder.values().copied().collect();
    seen.sort_unstable();
    seen.dedup();
    assert_eq!(seen.len(), 256);
}

#[test]
fn gpt2_byte_decoder_known_code_points() {
    let decoder = build_gpt2_byte_decoder();
    assert_eq!(decoder.len(), 256);
    assert_eq!(decoder.get(&('A' as u32)), Some(&b'A'));
    // 'Ġ' (U+0120) stands for the space byte.
    assert_eq!(decoder.get(&0x120), Some(&b' '));
    // U+0100 stands for byte 0.
    assert_eq!(decoder.get(&0x100), Some(&0u8));
    assert_eq!(decoder.get(&0x20), None);
}
