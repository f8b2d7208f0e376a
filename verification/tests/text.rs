use walrus_cli::text::{decimal_string, push_zero_padded, same_text};
use walrus_cli::units::{format_bytes, format_mist};

#[test]
fn decimal_of_zero_and_more() {
    assert_eq!(decimal_string(0), "0");
    assert_eq!(decimal_string(7), "7");
    assert_eq!(decimal_string(1000), "1000");
    assert_eq!(decimal_string(u64::MAX), "18446744073709551615");
}

#[test]
fn zero_padding_keeps_the_width() {
    let mut out = String::from("x");
    push_zero_padded(&mut out, 7, 3);
    assert_eq!(out, "x007");
    let mut cut = String::new();
    push_zero_padded(&mut cut, 12345, 2);
    assert_eq!(cut, "45");
}

#[test]
fn same_text_compares_characters() {
    assert!(same_text("store", "store"));
    assert!(!same_text("store", "stor"));
    assert!(!same_text("store", "Store"));
}

#[test]
fn bytes_below_one_kib_are_plain() {
    assert_eq!(format_bytes(0), "0 B");
    assert_eq!(format_bytes(1000), "1000 B");
    assert_eq!(format_bytes(1023), "1023 B");
}

#[test]
fn bytes_above_one_kib_take_the_largest_unit() {
    assert_eq!(format_bytes(1024), "1.00 KiB");
    assert_eq!(format_bytes(1536), "1.50 KiB");
    assert_eq!(format_bytes(10680), "10.42 KiB");
    assert_eq!(format_bytes(10 * 1024 * 1024), "10.00 MiB");
    assert_eq!(format_bytes(1 << 30), "1.00 GiB");
    assert_eq!(format_bytes(1 << 40), "1.00 TiB");
    assert_eq!(format_bytes(1 << 50), "1.00 PiB");
    assert_eq!(format_bytes(u64::MAX), "15.99 EiB");
}

#[test]
fn prices_are_in_mist_or_sui() {
    assert_eq!(format_mist(0), "0 MIST");
    assert_eq!(format_mist(55), "55 MIST");
    assert_eq!(format_mist(999_999), "999999 MIST");
    assert_eq!(format_mist(1_000_000), "0.001 SUI");
    assert_eq!(format_mist(1_500_000_000), "1.500 SUI");
    assert_eq!(format_mist(12_345_678_901), "12.345 SUI");
}
