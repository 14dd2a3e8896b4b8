use image_classify::{select_result, total_order_key, u32_from_le, output_vector_from_bytes, PipelineError};

fn bits(values: &[f32]) -> Vec<u32> {
    let mut out: Vec<u32> = Vec::new();
    for v in values {
        out.push(v.to_bits());
    }
    out
}

#[test]
fn selects_maximum_index_and_probability() {
    let output = bits(&[0.1, 0.9, 0.05]);
    let (index, probability_bits) = select_result(&output).unwrap();
    assert_eq!(index, 1);
    assert_eq!(probability_bits, 0.9f32.to_bits());
    assert_eq!(f32::from_bits(probability_bits), 0.9f32);
}

#[test]
fn index_always_within_bounds() {
    let samples: Vec<Vec<f32>> = vec![
        vec![0.25],
        vec![-1.0, -2.0, -3.0],
        vec![5.0, 5.0, 5.0, 5.0],
        vec![0.0, f32::INFINITY, f32::NEG_INFINITY],
    ];
    for sample in samples {
        let output = bits(&sample);
        let (index, probability_bits) = select_result(&output).unwrap();
        assert!(index < output.len());
        assert_eq!(probability_bits, output[index]);
    }
}

#[test]
fn ties_break_to_first_occurrence() {
    let output = bits(&[0.5, 0.7, 0.7, 0.2]);
    let (index, _) = select_result(&output).unwrap();
    assert_eq!(index, 1);
}

#[test]
fn nan_never_beats_a_number() {
    let output = bits(&[f32::NAN, 0.2, 0.1]);
    let (index, probability_bits) = select_result(&output).unwrap();
    assert_eq!(index, 1);
    assert_eq!(f32::from_bits(probability_bits), 0.2f32);
}

#[test]
fn all_nan_output_keeps_first_position() {
    let output = bits(&[f32::NAN, f32::NAN, f32::NAN]);
    let (index, _) = select_result(&output).unwrap();
    assert_eq!(index, 0);
}

#[test]
fn negative_values_ordered_correctly() {
    let output = bits(&[-0.5, -0.1, -0.9]);
    let (index, probability_bits) = select_result(&output).unwrap();
    assert_eq!(index, 1);
    assert_eq!(f32::from_bits(probability_bits), -0.1f32);
}

#[test]
fn empty_output_fails_with_empty_output_error() {
    let output: Vec<u32> = Vec::new();
    let r = select_result(&output);
    assert_eq!(r, Err(PipelineError::EmptyOutput));
}

#[test]
fn key_order_matches_float_order() {
    let samples: Vec<f32> = vec![
        f32::NEG_INFINITY,
        -100.25,
        -1.0,
        -0.0,
        0.0,
        0.05,
        0.1,
        0.9,
        1.0,
        100.25,
        f32::INFINITY,
    ];
    for i in 0..samples.len() {
        for j in 0..samples.len() {
            let ki = total_order_key(samples[i].to_bits());
            let kj = total_order_key(samples[j].to_bits());
            if samples[i] < samples[j] {
                assert!(ki < kj);
            }
            if samples[i] == samples[j] && i != j {
                // -0.0 and +0.0 compare equal as floats but have distinct,
                // deliberately ordered keys; identical bit patterns share a key.
                assert!(samples[i].to_bits() == samples[j].to_bits() || ki != kj);
            }
        }
    }
    let nan_key = total_order_key(f32::NAN.to_bits());
    let neg_inf_key = total_order_key(f32::NEG_INFINITY.to_bits());
    assert!(nan_key < neg_inf_key);
}

#[test]
fn reads_little_endian_words() {
    assert_eq!(u32_from_le(0x78, 0x56, 0x34, 0x12), 0x1234_5678);
    assert_eq!(u32_from_le(0, 0, 0x80, 0x3f), 1.0f32.to_bits());
}

#[test]
fn output_vector_from_raw_bytes_matches_float_bits() {
    let values: Vec<f32> = vec![0.1, 0.9, 0.05, -2.5];
    let mut raw: Vec<u8> = Vec::new();
    for v in &values {
        raw.extend_from_slice(&v.to_le_bytes());
    }
    let out = output_vector_from_bytes(&raw).unwrap();
    assert_eq!(out.len(), values.len());
    for (k, v) in values.iter().enumerate() {
        assert_eq!(out[k], v.to_bits());
    }
}

#[test]
fn ragged_output_buffer_fails_with_output_read_error() {
    let raw: Vec<u8> = vec![1, 2, 3, 4, 5];
    assert_eq!(output_vector_from_bytes(&raw), Err(PipelineError::OutputRead));
}
