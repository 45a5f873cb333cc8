use trading_bot::wide::{wide_le, wide_product, Wide};

#[test]
fn small_products_stay_in_the_low_half() {
    let product = wide_product(6, 7);
    assert_eq!((product.high, product.low), (0, 42));
    let zero = wide_product(0, u64::MAX);
    assert_eq!((zero.high, zero.low), (0, 0));
    let also_zero = wide_product(u128::MAX, 0);
    assert_eq!((also_zero.high, also_zero.low), (0, 0));
    let same = wide_product(u128::MAX, 1);
    assert_eq!((same.high, same.low), (0, u128::MAX));
}

#[test]
fn products_carry_into_the_high_half() {
    let doubled = wide_product(1u128 << 127, 2);
    assert_eq!((doubled.high, doubled.low), (1, 0));
    let doubled_max = wide_product(u128::MAX, 2);
    assert_eq!((doubled_max.high, doubled_max.low), (1, u128::MAX - 1));
    // (2^128 - 1) * (2^64 - 1) = (2^64 - 2) * 2^128 + (2^128 - 2^64 + 1)
    let largest = wide_product(u128::MAX, u64::MAX);
    assert_eq!(largest.high, (1u128 << 64) - 2);
    assert_eq!(largest.low, u128::MAX - (1u128 << 64) + 2);
    // (2^64 - 1) * 2^64 * 10^6 just crosses the half
    let scaled = wide_product(((1u128 << 64) - 1) << 64, 1_000_000);
    assert_eq!(scaled.high, 999_999);
    assert_eq!(scaled.low, u128::MAX - (1_000_000u128 << 64) + 1);
}

#[test]
fn product_agrees_with_plain_multiplication_where_that_fits() {
    let cases: [(u128, u64); 5] = [
        (1, 1),
        (123_456_789_012_345_678_901_234_567, 89),
        (u64::MAX as u128, u64::MAX),
        ((1u128 << 64) + 12345, (1u64 << 63) - 1),
        (u128::MAX / (u64::MAX as u128), u64::MAX),
    ];
    for (a, b) in cases {
        let product = wide_product(a, b);
        assert_eq!(product.high, 0);
        assert_eq!(product.low, a * b as u128);
    }
}

#[test]
fn wide_numbers_compare_by_the_high_half_first() {
    let small = Wide { high: 0, low: u128::MAX };
    let large = Wide { high: 1, low: 0 };
    assert!(wide_le(&small, &large));
    assert!(!wide_le(&large, &small));
    assert!(wide_le(&small, &small));
    assert!(wide_le(&large, &large));
    let a = Wide { high: 5, low: 10 };
    let b = Wide { high: 5, low: 11 };
    assert!(wide_le(&a, &b));
    assert!(!wide_le(&b, &a));
}
