use jdw_suite::text::{decimal, push_decimal};

#[test]
fn decimal_of_small_and_large_numbers() {
    assert_eq!(decimal(0), "0");
    assert_eq!(decimal(7), "7");
    assert_eq!(decimal(10), "10");
    assert_eq!(decimal(13340), "13340");
    assert_eq!(decimal(u64::MAX), u64::MAX.to_string());
}

#[test]
fn decimal_reads_back_as_the_number() {
    for n in [0u64, 1, 9, 99, 100, 65535, 4294967296, 123456789012345] {
        assert_eq!(decimal(n).parse::<u64>().unwrap(), n);
    }
}

#[test]
fn push_decimal_appends() {
    let mut s = "port ".to_string();
    push_decimal(&mut s, 42);
    assert_eq!(s, "port 42");
}
