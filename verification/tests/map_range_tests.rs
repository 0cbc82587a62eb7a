use map_range::{CheckedMapRange, MapRange};

#[test]
fn test_i32_map() {
    assert_eq!(5_i32.map_range(0..10, -10..10), 0);
}

#[test]
fn extrapolation_beyond_source_interval() {
    assert_eq!(10_i32.map_range(0..5, -5..0), 5);
    assert_eq!(10_i32.map_range(0..5, 0..-5), -10);
}

#[test]
fn checked_reversed_unsigned_destination_is_none() {
    assert_eq!(10_u32.checked_map_range(0..5, 5..2), None);
}

#[test]
fn checked_unsigned_scaling() {
    assert_eq!(10_u32.checked_map_range(0..5, 2..5), Some(8));
}

#[test]
fn checked_u8_overflowing_intermediate_is_none() {
    assert_eq!(200_u8.checked_map_range(0..10, 0..20), None);
}

#[test]
fn identity_maps_value_unchanged() {
    assert_eq!(7_i32.map_range(2..9, 2..9), 7);
    assert_eq!(7_u32.map_range(2..9, 2..9), 7);
    assert_eq!((-3_i64).map_range(-10..10, -10..10), -3);
    assert_eq!(0_u8.map_range(0..1, 0..1), 0);
}

#[test]
fn reversed_destination_reflects_result() {
    // Mapping into [b0, b1) and into [b1, b0) always sums to b0 + b1.
    let forward = 3_i32.map_range(0..10, 0..20);
    let backward = 3_i32.map_range(0..10, 20..0);
    assert_eq!(forward, 6);
    assert_eq!(backward, 14);
    assert_eq!(forward + backward, 20);
}

#[test]
fn reversed_destination_negates_direction_of_change() {
    let at_low = 2_i32.map_range(0..10, 20..0);
    let at_high = 8_i32.map_range(0..10, 20..0);
    assert_eq!(at_low, 16);
    assert_eq!(at_high, 4);
    assert!(at_high <= at_low);
}

#[test]
fn checked_agrees_with_unchecked() {
    assert_eq!(
        7_i32.checked_map_range(0..10, -10..10),
        Some(7_i32.map_range(0..10, -10..10))
    );
    assert_eq!(
        9_u32.checked_map_range(3..13, 100..200),
        Some(9_u32.map_range(3..13, 100..200))
    );
}

#[test]
fn checked_zero_width_source_is_none() {
    assert_eq!(5_i32.checked_map_range(4..4, 0..10), None);
    assert_eq!(0_u32.checked_map_range(0..0, 0..10), None);
    assert_eq!(200_u8.checked_map_range(7..7, 3..5), None);
}

#[test]
fn checked_unsigned_underflow_is_none() {
    assert_eq!(3_u32.checked_map_range(5..10, 0..10), None);
    assert_eq!(0_u64.checked_map_range(1..4, 0..10), None);
}

#[test]
fn checked_signed_unrepresentable_steps_are_none() {
    // The scaled intermediate value exceeds i8's range.
    assert_eq!(100_i8.checked_map_range(0..10, 0..20), None);
    // The quotient i32::MIN / -1 is not representable.
    assert_eq!(i32::MIN.checked_map_range(0..-1, 0..1), None);
    // The final addition overflows.
    assert_eq!(120_i8.checked_map_range(0..120, 9..127), None);
}

#[test]
fn division_truncates_toward_zero() {
    // Scaling -5 by one half gives -2, not -3: Rust's `/` truncates.
    assert_eq!((-5_i32).map_range(0..10, 0..5), -2);
    assert_eq!(5_i32.map_range(0..10, 0..5), 2);
}

#[test]
fn maps_every_unsigned_width() {
    assert_eq!(5_u8.map_range(0..10, 0..20), 10);
    assert_eq!(5_u16.map_range(0..10, 0..20), 10);
    assert_eq!(5_u32.map_range(0..10, 0..20), 10);
    assert_eq!(5_u64.map_range(0..10, 0..20), 10);
    assert_eq!(5_u128.map_range(0..10, 0..20), 10);
    assert_eq!(5_usize.map_range(0..10, 0..20), 10);
}

#[test]
fn maps_every_signed_width() {
    assert_eq!(5_i8.map_range(0..10, -10..10), 0);
    assert_eq!(5_i16.map_range(0..10, -10..10), 0);
    assert_eq!(5_i32.map_range(0..10, -10..10), 0);
    assert_eq!(5_i64.map_range(0..10, -10..10), 0);
    assert_eq!(5_i128.map_range(0..10, -10..10), 0);
    assert_eq!(5_isize.map_range(0..10, -10..10), 0);
}

#[test]
fn checked_maps_every_width() {
    assert_eq!(10_u8.checked_map_range(0..5, 2..5), Some(8));
    assert_eq!(10_u16.checked_map_range(0..5, 2..5), Some(8));
    assert_eq!(10_u32.checked_map_range(0..5, 2..5), Some(8));
    assert_eq!(10_u64.checked_map_range(0..5, 2..5), Some(8));
    assert_eq!(10_u128.checked_map_range(0..5, 2..5), Some(8));
    assert_eq!(10_usize.checked_map_range(0..5, 2..5), Some(8));
    assert_eq!(10_i8.checked_map_range(0..5, 2..5), Some(8));
    assert_eq!(10_i16.checked_map_range(0..5, 2..5), Some(8));
    assert_eq!(10_i32.checked_map_range(0..5, 2..5), Some(8));
    assert_eq!(10_i64.checked_map_range(0..5, 2..5), Some(8));
    assert_eq!(10_i128.checked_map_range(0..5, 2..5), Some(8));
    assert_eq!(10_isize.checked_map_range(0..5, 2..5), Some(8));
}
