use gpu_alloc_block::align::{align_down, align_up};

#[test]
fn align_down_clears_mask_bits() {
    assert_eq!(align_down(10, 63), 0);
    assert_eq!(align_down(100, 63), 64);
    assert_eq!(align_down(127, 63), 64);
    assert_eq!(align_down(0, 63), 0);
}

#[test]
fn align_up_rounds_to_next_boundary() {
    assert_eq!(align_up(30, 63), Some(64));
    assert_eq!(align_up(1, 255), Some(256));
    assert_eq!(align_up(0, 63), Some(0));
}

#[test]
fn aligned_values_are_kept() {
    for x in [0u64, 64, 128, 4096, u64::MAX - 63] {
        assert_eq!(align_down(x, 63), x);
        assert_eq!(align_up(x, 63), Some(x));
    }
}

#[test]
fn align_bounds_hold_on_samples() {
    for x in [1u64, 5, 63, 65, 1000, 123_456_789] {
        let down = align_down(x, 63);
        let up = align_up(x, 63).unwrap();
        assert!(down <= x && x <= up);
        assert_eq!(down % 64, 0);
        assert_eq!(up % 64, 0);
        assert!(x - down < 64 && up - x < 64);
    }
}

#[test]
fn align_up_reports_overflow_near_max() {
    assert_eq!(align_up(u64::MAX, 63), None);
    assert_eq!(align_up(u64::MAX - 62, 63), None);
    assert_eq!(align_up(u64::MAX - 63, 63), Some(u64::MAX - 63));
    assert_eq!(align_up(u64::MAX, 0), Some(u64::MAX));
}
