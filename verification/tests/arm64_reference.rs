// Reference computations the arm64 numerics are held against, checked on
// known values.

use nfl_profiles::arm64::Arm64Profile;

fn reference_bias_add(acc: &[f32], bias: &[f32], n: usize) -> Vec<f32> {
    let b = acc.len() / n;
    let mut out = acc.to_vec();
    for i in 0..b {
        for j in 0..n {
            out[i * n + j] += bias[j];
        }
    }
    out
}

fn reference_softmax_stable(input: &[f32], b: usize, k: usize) -> Vec<f32> {
    let mut out = vec![0.0f32; b * k];
    for i in 0..b {
        let row = &input[i * k..(i + 1) * k];
        let max = row.iter().cloned().fold(f32::NEG_INFINITY, f32::max);
        let mut sum = 0.0f32;
        for kk in 0..k {
            let e = (row[kk] - max).exp();
            out[i * k + kk] = e;
            sum += e;
        }
        for kk in 0..k {
            out[i * k + kk] /= sum;
        }
    }
    out
}

#[test]
fn reference_softmax_stable_known_values() {
    let input = [1.0f32, 2.0, 3.0];
    let output = reference_softmax_stable(&input, 1, 3);
    assert!((output[0] - 0.0900).abs() < 1e-4, "got {}", output[0]);
    assert!((output[1] - 0.2447).abs() < 1e-4, "got {}", output[1]);
    assert!((output[2] - 0.6652).abs() < 1e-4, "got {}", output[2]);
}

#[test]
fn reference_bias_add_known_values() {
    let acc = [1.0f32, 2.0, 3.0];
    let bias = [0.5f32, -1.0, 2.5];
    let out = reference_bias_add(&acc, &bias, 3);
    assert_eq!(out, vec![1.5, 1.0, 5.5]);
}

#[test]
fn arm64_symbols_take_the_macho_prefix() {
    assert_eq!(Arm64Profile.sym_prefix(), "_");
}
