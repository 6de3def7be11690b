use voxel_mesh::single::{single_of, EXACT_MAX};

#[test]
fn small_wholes_have_their_patterns() {
    assert_eq!(single_of(0), 0x0000_0000);
    assert_eq!(single_of(1), 0x3f80_0000);
    assert_eq!(single_of(-1), 0xbf80_0000);
    assert_eq!(single_of(2), 0x4000_0000);
    assert_eq!(single_of(3), 0x4040_0000);
    assert_eq!(single_of(16), 0x4180_0000);
    assert_eq!(single_of(-17), 0xc188_0000);
}

#[test]
fn ends_of_the_exact_range_have_their_patterns() {
    assert_eq!(EXACT_MAX, 16_777_216);
    assert_eq!(single_of(EXACT_MAX), 0x4b80_0000);
    assert_eq!(single_of(-EXACT_MAX), 0xcb80_0000);
    assert_eq!(single_of(EXACT_MAX - 1), 0x4b7f_ffff);
    assert_eq!(single_of(-(EXACT_MAX - 1)), 0xcb7f_ffff);
}

#[test]
fn patterns_are_those_of_the_machine() {
    for n in -70_000..=70_000 {
        assert_eq!(single_of(n), (n as f32).to_bits(), "{}", n);
    }
    for shift in 0..=24 {
        let power: i32 = 1 << shift;
        for n in [power - 1, power, (power + 1).min(EXACT_MAX)] {
            assert_eq!(single_of(n), (n as f32).to_bits(), "{}", n);
            assert_eq!(single_of(-n), (-n as f32).to_bits(), "{}", -n);
        }
    }
    let mut n: i32 = -EXACT_MAX;
    while n <= EXACT_MAX {
        assert_eq!(single_of(n), (n as f32).to_bits(), "{}", n);
        n += 4099;
    }
}

#[test]
fn patterns_decode_to_the_whole_number() {
    for n in [0, 1, -1, 5, 255, 256, -4097, 1_000_000, EXACT_MAX, -EXACT_MAX] {
        assert_eq!(f32::from_bits(single_of(n)), n as f32);
        assert_eq!(f32::from_bits(single_of(n)) as i32, n);
    }
}

#[test]
fn different_wholes_have_different_patterns() {
    let mut seen = std::collections::HashSet::new();
    for n in -5000..=5000 {
        assert!(seen.insert(single_of(n)), "{}", n);
    }
}
