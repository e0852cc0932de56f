use kb_engine::kb_utils::{
    cg_quat_ident, cg_vec3_one, cg_vec3_up, cg_vec3_zero, cg_vec4_zero,
    fraction_word_from_bytes, kb_random_fraction_word, kb_random_u32,
    kb_random_u32_checked, random_in_range, word_from_bytes, CgQuat, CgVec3, CgVec4, KbFloat,
    INFINITY_BITS, MAX_BITS, ONE_BITS, SIGN_BIT, ZERO_BITS,
};

fn f(v: f32) -> KbFloat {
    KbFloat::from_bits(v.to_bits())
}

fn samples() -> Vec<f32> {
    vec![
        0.0,
        -0.0,
        1.0,
        -1.0,
        0.5,
        -0.5,
        1.9,
        -1.9,
        2.1,
        0.0001,
        0.001,
        f32::MIN_POSITIVE,
        -f32::MIN_POSITIVE,
        f32::from_bits(1),
        f32::from_bits(0x8000_0001),
        f32::MAX,
        f32::MIN,
        f32::INFINITY,
        f32::NEG_INFINITY,
        f32::NAN,
        -f32::NAN,
        f32::from_bits(0x7f80_0001),
        f32::from_bits(0xffff_ffff),
        3.4e38,
        1.0e-40,
        123456.0,
        -123456.0,
    ]
}

#[test]
fn constants_are_the_patterns_of_their_numbers() {
    assert_eq!(ZERO_BITS, 0.0f32.to_bits());
    assert_eq!(ONE_BITS, 1.0f32.to_bits());
    assert_eq!(MAX_BITS, f32::MAX.to_bits());
    assert_eq!(INFINITY_BITS, f32::INFINITY.to_bits());
    assert_eq!(SIGN_BIT, (-0.0f32).to_bits());
    assert_eq!(KbFloat::zero().to_bits(), 0.0f32.to_bits());
    assert_eq!(KbFloat::one().to_bits(), 1.0f32.to_bits());
    assert_eq!(KbFloat::max_value().to_bits(), f32::MAX.to_bits());
}

#[test]
fn lt_agrees_with_the_hardware() {
    for a in samples() {
        for b in samples() {
            assert_eq!(f(a).lt(f(b)), a < b, "{a:?} < {b:?}");
        }
    }
}

#[test]
fn le_agrees_with_the_hardware() {
    for a in samples() {
        for b in samples() {
            assert_eq!(f(a).le(f(b)), a <= b, "{a:?} <= {b:?}");
        }
    }
}

#[test]
fn gt_agrees_with_the_hardware() {
    for a in samples() {
        for b in samples() {
            assert_eq!(f(a).gt(f(b)), a > b, "{a:?} > {b:?}");
        }
    }
}

#[test]
fn ge_agrees_with_the_hardware() {
    for a in samples() {
        for b in samples() {
            assert_eq!(f(a).ge(f(b)), a >= b, "{a:?} >= {b:?}");
        }
    }
}

#[test]
fn is_nan_agrees_with_the_hardware() {
    for a in samples() {
        assert_eq!(f(a).is_nan(), a.is_nan(), "{a:?}");
    }
}

#[test]
fn abs_and_neg_agree_with_the_hardware() {
    for a in samples() {
        assert_eq!(f(a).abs().to_bits(), a.abs().to_bits(), "{a:?}");
        assert_eq!(f(a).neg().to_bits(), (-a).to_bits(), "{a:?}");
    }
}

#[test]
fn key_orders_numbers_as_they_are_ordered() {
    for a in samples() {
        for b in samples() {
            if a.is_nan() || b.is_nan() {
                continue;
            }
            assert_eq!(f(a).key() < f(b).key(), a < b, "{a:?} {b:?}");
            assert_eq!(f(a).key() == f(b).key(), a == b, "{a:?} {b:?}");
        }
    }
    assert_eq!(f(0.0).key(), 0);
    assert_eq!(f(-0.0).key(), 0);
    assert_eq!(f(1.0).key(), 0x3f80_0000);
    assert_eq!(f(-1.0).key(), -0x3f80_0000);
}

#[test]
fn equality_is_by_pattern() {
    assert!(f(0.0) != f(-0.0));
    assert!(f(f32::NAN) == f(f32::NAN));
    assert_eq!(KbFloat::from_bits(7).bits, 7);
}

#[test]
fn named_vectors() {
    let zero = cg_vec3_zero();
    assert_eq!((zero.x, zero.y, zero.z), (f(0.0), f(0.0), f(0.0)));
    let one = cg_vec3_one();
    assert_eq!((one.x, one.y, one.z), (f(1.0), f(1.0), f(1.0)));
    let up = cg_vec3_up();
    assert_eq!((up.x, up.y, up.z), (f(0.0), f(1.0), f(0.0)));
    let zero4 = cg_vec4_zero();
    assert_eq!(zero4, CgVec4::new(f(0.0), f(0.0), f(0.0), f(0.0)));
    let ident = cg_quat_ident();
    assert_eq!(ident, CgQuat::new(f(1.0), f(0.0), f(0.0), f(0.0)));
    assert_eq!(ident.s, f(1.0));
    assert_eq!(ident.v, zero);
    assert_eq!(CgVec3::new(f(1.0), f(2.0), f(3.0)).z, f(3.0));
}

#[test]
fn word_from_bytes_is_little_endian() {
    assert_eq!(word_from_bytes([0, 0, 0, 0]), 0);
    assert_eq!(word_from_bytes([1, 0, 0, 0]), 1);
    assert_eq!(word_from_bytes([0x78, 0x56, 0x34, 0x12]), 0x1234_5678);
    assert_eq!(word_from_bytes([0xff, 0xff, 0xff, 0xff]), u32::MAX);
    assert_eq!(word_from_bytes([1, 2, 3, 4]), u32::from_le_bytes([1, 2, 3, 4]));
}

#[test]
fn random_in_range_reduces_the_word() {
    assert_eq!(random_in_range(1, 2, 0), 1);
    assert_eq!(random_in_range(1, 2, 1), 2);
    assert_eq!(random_in_range(1, 2, 2), 1);
    assert_eq!(random_in_range(0, 3, 7), 3);
    assert_eq!(random_in_range(10, 19, 1234), 14);
    assert_eq!(random_in_range(5, 5, 99), 5);
    assert_eq!(random_in_range(1, u32::MAX, u32::MAX), 1);
    assert_eq!(random_in_range(0, u32::MAX - 1, u32::MAX), 0);
}

#[test]
fn random_numbers_stay_in_range() {
    for _ in 0..200 {
        let v = kb_random_u32(1, 2);
        assert!(v == 1 || v == 2);
        let w = kb_random_u32(0, 3);
        assert!(w <= 3);
        assert_eq!(kb_random_u32(7, 7), 7);
    }
}

#[test]
fn random_numbers_differ() {
    let mut seen = [false; 4];
    for _ in 0..400 {
        seen[kb_random_u32(0, 3) as usize] = true;
    }
    assert_eq!(seen, [true; 4]);
}

#[test]
fn random_checked_refuses_ranges_without_modulus() {
    assert_eq!(kb_random_u32_checked(3, 2), None);
    assert_eq!(kb_random_u32_checked(0, u32::MAX), None);
    let v = kb_random_u32_checked(4, 6);
    assert!(matches!(v, Some(4..=6)));
    assert_eq!(kb_random_u32_checked(9, 9), Some(9));
}

fn folded(bytes: [u8; 4]) -> u32 {
    let mut t = bytes[0] as u32;
    t = t + (bytes[1] as u32) << 8;
    t = t + (bytes[2] as u32) << 16;
    t = t + (bytes[3] as u32) << 24;
    t
}

#[test]
fn the_fraction_word_keeps_the_last_byte_only() {
    assert_eq!(fraction_word_from_bytes([0, 0, 0, 0]), 0);
    assert_eq!(fraction_word_from_bytes([0xff, 0xff, 0xff, 0]), 0);
    assert_eq!(fraction_word_from_bytes([0, 0, 0, 1]), 0x0100_0000);
    assert_eq!(fraction_word_from_bytes([1, 2, 3, 4]), 0x0400_0000);
    assert_eq!(fraction_word_from_bytes([0xff, 0xff, 0xff, 0xff]), 0xff00_0000);
    for bytes in [[0u8, 0, 0, 0], [1, 2, 3, 4], [255, 255, 255, 255], [9, 0, 200, 77], [255, 1, 0, 128]] {
        assert_eq!(fraction_word_from_bytes(bytes), folded(bytes));
    }
}

#[test]
fn random_fraction_words_are_multiples_of_the_highest_place() {
    let mut seen = std::collections::HashSet::new();
    for _ in 0..200 {
        let word = kb_random_fraction_word();
        assert_eq!(word % 0x0100_0000, 0);
        seen.insert(word);
    }
    assert!(seen.len() > 1);
}
