use raydium_integration::compute_slippage_threshold;

#[test]
fn threshold_example_base_input() {
    assert_eq!(compute_slippage_threshold(1_000_000, 500, true), 950_000);
}

#[test]
fn threshold_example_base_output() {
    assert_eq!(compute_slippage_threshold(1_000_000, 500, false), 1_050_000);
}

#[test]
fn threshold_protective_on_input_side() {
    assert_eq!(compute_slippage_threshold(100, 1, true), 99);
    assert_eq!(compute_slippage_threshold(10_000, 1, true), 9_999);
    assert_eq!(
        compute_slippage_threshold(u64::MAX, 500, true),
        17_524_406_870_024_074_034
    );
}

#[test]
fn threshold_output_side_can_round_down_to_expectation() {
    // One unit at the smallest tolerance scales up by less than one whole
    // denominator unit, so truncating division gives the expectation back.
    assert_eq!(compute_slippage_threshold(100, 1, false), 100);
    assert_eq!(compute_slippage_threshold(10_000, 1, false), 10_001);
}

#[test]
fn threshold_moves_with_tolerance() {
    assert_eq!(compute_slippage_threshold(1_000_000, 100, true), 990_000);
    assert!(
        compute_slippage_threshold(1_000_000, 100, true)
            >= compute_slippage_threshold(1_000_000, 500, true)
    );
    assert_eq!(compute_slippage_threshold(1_000_000, 100, false), 1_010_000);
    assert!(
        compute_slippage_threshold(1_000_000, 100, false)
            <= compute_slippage_threshold(1_000_000, 500, false)
    );
}

#[test]
fn threshold_narrows_to_64_bits() {
    // Scaling the largest expectation up overflows 64 bits; the bound is
    // the mathematical value reduced modulo 2^64, as the final narrowing
    // leaves it.
    assert_eq!(
        compute_slippage_threshold(u64::MAX, 500, false),
        922_337_203_685_477_579
    );
}
