use lcr_auto_configure::quantizer::{calculate_nearest_rounded_positions, quantize};

#[test]
fn tie_rule_rounds_away_from_zero() {
    assert_eq!(quantize(512), 1024);
    assert_eq!(quantize(-512), -1024);
    assert_eq!(quantize(511), 0);
    assert_eq!(quantize(1536), 2048);
}

#[test]
fn quantize_exact_values() {
    assert_eq!(quantize(0), 0);
    assert_eq!(quantize(1), 0);
    assert_eq!(quantize(1023), 1024);
    assert_eq!(quantize(1024), 1024);
    assert_eq!(quantize(2047), 2048);
    assert_eq!(quantize(-1), 0);
    assert_eq!(quantize(-1023), -1024);
    assert_eq!(quantize(-4100), -4096);
}

#[test]
fn quantize_is_idempotent() {
    for x in [-5000, -1536, -512, -1, 0, 1, 511, 512, 700, 1536, 123456] {
        assert_eq!(quantize(quantize(x)), quantize(x));
    }
}

#[test]
fn quantize_is_symmetric() {
    for x in [0, 1, 511, 512, 513, 700, 1024, 1536, 99999] {
        assert_eq!(quantize(-x), -quantize(x));
    }
}

#[test]
fn quantize_near_the_range_limit() {
    assert_eq!(quantize(0x7fff_f9ff), 0x7fff_f800);
    assert_eq!(quantize(-0x7fff_f9ff), -0x7fff_f800);
    assert_eq!(quantize(i32::MIN), i32::MIN);
}

#[test]
fn quantize_vector_elementwise() {
    let pos = vec![3, -2, 1019, 5, -1030, 2];
    assert_eq!(calculate_nearest_rounded_positions(&pos), vec![0, 0, 1024, 0, -1024, 0]);
}

#[test]
fn quantize_empty_vector() {
    let pos: Vec<i32> = Vec::new();
    assert_eq!(calculate_nearest_rounded_positions(&pos), Vec::<i32>::new());
}
