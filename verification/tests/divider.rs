use hackrf::auto_divider;

#[test]
fn divider_is_one_for_clean_rates() {
    // A power of two aligns at the first step.
    assert_eq!(auto_divider(8_388_608), (8_388_608, 1));
    assert_eq!(auto_divider(1), (1, 1));
    // Common integer rates fall back to a divider of 1 unchanged.
    assert_eq!(auto_divider(10_000_000), (10_000_000, 1));
    assert_eq!(auto_divider(20_000_000), (20_000_000, 1));
    assert_eq!(auto_divider(912_345_678), (912_345_678, 1));
}

#[test]
fn divider_found_by_alignment() {
    // Small rates whose fraction aligns on a later multiple.
    assert_eq!(auto_divider(3), (6, 2));
    assert_eq!(auto_divider(5), (20, 4));
    assert_eq!(auto_divider(9), (72, 8));
}

#[test]
fn adjusted_rate_saturates() {
    // 0xAAAAAAAA finds divider 3; the product saturates to the 32-bit
    // maximum instead of wrapping.
    assert_eq!(auto_divider(2_863_311_530), (u32::MAX, 3));
}

#[test]
fn divider_never_zero() {
    for freq in [1u32, 2, 3, 17, 1000, 44_100, 48_000, 10_000_000, u32::MAX] {
        let (_, divider) = auto_divider(freq);
        assert!(divider >= 1);
        assert!(divider < 32);
    }
}
