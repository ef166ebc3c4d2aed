use mini_sdl::{next_power_of_two, quantize};

#[test]
fn quantize_rounds_to_nearest_multiple() {
    // 1/60 s against the 1/1440 s step: 24 steps is the nearest multiple.
    assert_eq!(quantize(16_666_667, 694_444), 16_666_656);
    assert_eq!(16_666_656 % 694_444, 0);
    // An exact multiple stays put.
    assert_eq!(quantize(1_000_000, 100), 1_000_000);
    // Below the midpoint rounds down, at the midpoint rounds up.
    assert_eq!(quantize(1_049, 100), 1_000);
    assert_eq!(quantize(1_050, 100), 1_100);
}

#[test]
fn quantize_boundary_rule_keeps_tiny_values_raw() {
    // The nearest multiple would be zero, so the value passes through.
    assert_eq!(quantize(300_000, 694_444), 300_000);
    assert_eq!(quantize(1, 694_444), 1);
    assert_eq!(quantize(0, 694_444), 0);
    // Just past half a step, quantization engages again.
    assert_eq!(quantize(347_223, 694_444), 694_444);
}

#[test]
fn quantize_near_the_u64_ceiling() {
    // Near the largest value the contract admits for this step size.
    let value = u64::MAX - 694_444;
    let r = quantize(value, 694_444);
    assert_eq!(r, 18_446_744_073_708_875_924);
    assert_eq!(r % 694_444, 0);
}

#[test]
fn next_power_of_two_values() {
    assert_eq!(next_power_of_two(1), 1);
    assert_eq!(next_power_of_two(2), 2);
    assert_eq!(next_power_of_two(3), 4);
    assert_eq!(next_power_of_two(4), 4);
    assert_eq!(next_power_of_two(5), 8);
    assert_eq!(next_power_of_two(1023), 1024);
    assert_eq!(next_power_of_two(1024), 1024);
    assert_eq!(next_power_of_two(1025), 2048);
    assert_eq!(next_power_of_two(12345), 16384);
    assert_eq!(next_power_of_two(0x8000_0000), 0x8000_0000);
}
