use drogue_server::decimal::u64_to_decimal;

#[test]
fn renders_zero() {
    assert_eq!(u64_to_decimal(0), "0");
}

#[test]
fn renders_single_digits() {
    assert_eq!(u64_to_decimal(7), "7");
    assert_eq!(u64_to_decimal(9), "9");
}

#[test]
fn renders_ports() {
    assert_eq!(u64_to_decimal(10), "10");
    assert_eq!(u64_to_decimal(8080), "8080");
    assert_eq!(u64_to_decimal(65535), "65535");
}

#[test]
fn renders_largest_value() {
    assert_eq!(u64_to_decimal(u64::MAX), "18446744073709551615");
}

#[test]
fn rendering_reads_back() {
    for n in [0u64, 1, 42, 100, 1883, 5683, 123456789] {
        assert_eq!(u64_to_decimal(n).parse::<u64>().unwrap(), n);
    }
}
