use ledger_utils::{format_crypto_amount, format_crypto_amount_with_symbol};

#[test]
fn format_one_cent() {
    assert_eq!(format_crypto_amount(1000000, 8), "0.01");
}

#[test]
fn format_trailing_zeros_stripped() {
    assert_eq!(format_crypto_amount(321000000, 8), "3.21");
}

#[test]
fn format_six_decimals() {
    assert_eq!(format_crypto_amount(9876543210, 6), "9876.54321");
}

#[test]
fn format_all_fraction_digits_kept() {
    assert_eq!(format_crypto_amount(123456789, 8), "1.23456789");
}

#[test]
fn format_whole_amount_drops_point() {
    assert_eq!(format_crypto_amount(400000000, 8), "4");
    assert_eq!(format_crypto_amount(10000000000, 8), "100");
}

#[test]
fn format_zero() {
    assert_eq!(format_crypto_amount(0, 8), "0");
    assert_eq!(format_crypto_amount(0, 0), "0");
}

#[test]
fn format_no_decimals() {
    assert_eq!(format_crypto_amount(120, 0), "120");
}

#[test]
fn format_leading_fraction_zeros_kept() {
    assert_eq!(format_crypto_amount(100000001, 8), "1.00000001");
    assert_eq!(format_crypto_amount(1, 8), "0.00000001");
}

#[test]
fn format_largest_amount() {
    assert_eq!(format_crypto_amount(u128::MAX, 38), "3.40282366920938463463374607431768211455");
    assert_eq!(format_crypto_amount(u128::MAX, 0), "340282366920938463463374607431768211455");
}

#[test]
fn format_never_ends_with_point_or_fraction_zero() {
    for units in [0u128, 5, 10, 100, 1230, 1000000, 99999999, 100000000, 250000000] {
        for decimals in [0u8, 1, 2, 8] {
            let s = format_crypto_amount(units, decimals);
            assert!(!s.ends_with('.'), "{s}");
            if s.contains('.') {
                assert!(!s.ends_with('0'), "{s}");
            }
        }
    }
}

#[test]
fn format_with_symbol() {
    assert_eq!(format_crypto_amount_with_symbol(321000000, 8, "CHAT"), "3.21 CHAT");
    assert_eq!(format_crypto_amount_with_symbol(100000000, 8, "ICP"), "1 ICP");
}
