use petsim::numeric::{clamp_i64, div_floor, div_trunc, isqrt, wrap_angle};
use petsim::terrain::{chunk_coord, chunk_parity, generate_chunk, Feature, FeatureKind};
use petsim::trig::{cos_mrad, sin_mrad};

#[test]
fn div_trunc_rounds_toward_zero() {
    assert_eq!(div_trunc(7, 2), 3);
    assert_eq!(div_trunc(-7, 2), -3);
    assert_eq!(div_trunc(19, 20), 0);
    assert_eq!(div_trunc(-19, 20), 0);
    assert_eq!(div_trunc(1140 * 19, 20), 1083);
}

#[test]
fn div_floor_rounds_down() {
    assert_eq!(div_floor(7, 2), 3);
    assert_eq!(div_floor(-7, 2), -4);
    assert_eq!(div_floor(-1, 20000), -1);
    assert_eq!(div_floor(-20000, 20000), -1);
    assert_eq!(div_floor(0, 20000), 0);
}

#[test]
fn isqrt_exact_values() {
    assert_eq!(isqrt(0), 0);
    assert_eq!(isqrt(1), 1);
    assert_eq!(isqrt(99), 9);
    assert_eq!(isqrt(100), 10);
    assert_eq!(isqrt(10_000 * 10_000), 10_000);
    assert_eq!(isqrt(10_000 * 10_000 - 1), 9_999);
}

#[test]
fn wrap_angle_normalizes() {
    assert_eq!(wrap_angle(0), 0);
    assert_eq!(wrap_angle(6283), 0);
    assert_eq!(wrap_angle(6284), 1);
    assert_eq!(wrap_angle(-1), 6282);
    assert_eq!(wrap_angle(-6283), 0);
    assert_eq!(wrap_angle(12567), 1);
}

#[test]
fn clamp_bounds() {
    assert_eq!(clamp_i64(5, 0, 10), 5);
    assert_eq!(clamp_i64(-5, 0, 10), 0);
    assert_eq!(clamp_i64(15, 0, 10), 10);
}

#[test]
fn trig_key_angles() {
    // sine of 0 is 0; sine of a quarter turn is exactly 1.
    assert_eq!(sin_mrad(0), 0);
    assert_eq!(sin_mrad(1571), 1000);
    assert_eq!(cos_mrad(0), 1000);
    // the second half-turn mirrors the first with opposite sign
    assert_eq!(sin_mrad(3142 + 1571), -1000);
    // results never leave the unit range
    let mut a = 0i64;
    while a < 6283 {
        let s = sin_mrad(a);
        let c = cos_mrad(a);
        assert!((-1000..=1000).contains(&s));
        assert!((-1000..=1000).contains(&c));
        a += 7;
    }
}

#[test]
fn chunk_coord_floors() {
    assert_eq!(chunk_coord(0), 0);
    assert_eq!(chunk_coord(19_999), 0);
    assert_eq!(chunk_coord(20_000), 1);
    assert_eq!(chunk_coord(-1), -1);
    assert_eq!(chunk_coord(-20_000), -1);
    assert_eq!(chunk_coord(-20_001), -2);
}

#[test]
fn chunk_parity_checkerboard() {
    assert!(chunk_parity(0, 0));
    assert!(!chunk_parity(1, 0));
    assert!(!chunk_parity(0, 1));
    assert!(chunk_parity(1, 1));
    assert!(!chunk_parity(-1, 0));
    assert!(chunk_parity(-1, 1));
}

#[test]
fn generate_chunk_is_deterministic() {
    // repeated calls agree exactly: count, positions, kinds, order
    for &(cx, cz) in &[(0, 0), (1, 0), (0, 1), (-3, 7), (1000, -1000)] {
        let a = generate_chunk(cx, cz);
        let b = generate_chunk(cx, cz);
        assert_eq!(a, b);
    }
}

#[test]
fn generate_chunk_counts_in_range() {
    for cx in -5..5 {
        for cz in -5..5 {
            let f = generate_chunk(cx, cz);
            assert!(f.len() >= 2 && f.len() <= 6);
        }
    }
}

#[test]
fn generate_chunk_features_inside_chunk() {
    let f = generate_chunk(0, 0);
    for feat in &f {
        assert!(feat.x >= 0 && feat.x < 20_000);
        assert!(feat.z >= 0 && feat.z < 20_000);
    }
    let g = generate_chunk(-2, 3);
    for feat in &g {
        assert!(feat.x >= -40_000 && feat.x < -20_000);
        assert!(feat.z >= 60_000 && feat.z < 80_000);
    }
}

#[test]
fn neighbor_chunks_differ() {
    // different coordinates give internally reproducible but
    // (overwhelmingly) different layouts
    let a = generate_chunk(0, 0);
    let b = generate_chunk(1, 0);
    assert_eq!(a, generate_chunk(0, 0));
    assert_eq!(b, generate_chunk(1, 0));
    let same = a.len() == b.len()
        && a.iter().zip(b.iter()).all(|(x, y)| {
            x.x - 0 == y.x - 20_000 && x.z == y.z && x.kind == y.kind
        });
    assert!(!same);
}

#[test]
fn feature_kind_copies_compare() {
    let f = Feature { x: 1, z: 2, kind: FeatureKind::Tree };
    let g = f;
    assert_eq!(f, g);
    assert_ne!(FeatureKind::Hill, FeatureKind::Bush);
}
