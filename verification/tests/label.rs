//! The labels of the indicators.

use ta::label::{decimal_string, label};

#[test]
fn numbers_are_written_in_decimal() {
    assert_eq!(decimal_string(0), "0");
    assert_eq!(decimal_string(7), "7");
    assert_eq!(decimal_string(9), "9");
    assert_eq!(decimal_string(10), "10");
    assert_eq!(decimal_string(1234567890), "1234567890");
    assert_eq!(decimal_string(100200), "100200");
    assert_eq!(decimal_string(usize::MAX), format!("{}", usize::MAX));
}

#[test]
fn a_label_is_the_abbreviation_and_the_period_in_brackets() {
    assert_eq!(label("SMA", 5), "SMA(5)");
    assert_eq!(label("RMA", 7), "RMA(7)");
    assert_eq!(label("MA", 9), "MA(9)");
    assert_eq!(label("", 120), "(120)");
}
