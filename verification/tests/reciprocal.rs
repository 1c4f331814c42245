// The single-precision reciprocal computed on integers, held against the
// hardware division.

use nfl_profiles::f32bits::f32_recip_bits;

#[test]
fn reciprocal_of_zero_is_infinity() {
    assert_eq!(f32_recip_bits(0), f32::INFINITY.to_bits());
}

#[test]
fn reciprocal_known_values() {
    assert_eq!(f32_recip_bits(1), 0x3f80_0000);
    assert_eq!(f32_recip_bits(2), 0x3f00_0000);
    assert_eq!(f32_recip_bits(3), 0x3eaa_aaab);
    assert_eq!(f32_recip_bits(32), 0x3d00_0000);
}

#[test]
fn reciprocal_matches_f32_division() {
    let mut samples: Vec<u64> = (1..5000).collect();
    for shift in 0..64 {
        let p = 1u64 << shift;
        samples.extend([p, p.wrapping_sub(1), p + 1, p.wrapping_mul(3), p | (p >> 1) | 1]);
    }
    samples.extend([16_777_215, 16_777_216, 16_777_217, 16_777_219, 33_554_431, 12_345_678_901, u64::MAX]);
    for d in samples {
        if d == 0 {
            continue;
        }
        let want = (1.0_f32 / d as f32).to_bits();
        assert_eq!(f32_recip_bits(d), want, "d={d}");
    }
}

#[test]
fn reciprocal_of_power_of_two_is_exact() {
    for k in 0..64u32 {
        assert_eq!(f32_recip_bits(1u64 << k), (127 - k) << 23, "k={k}");
    }
}
