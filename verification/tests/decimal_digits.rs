use stylus_benchmark::usize_to_decimal;

#[test]
fn decimal_of_zero_and_single_digits() {
    assert_eq!(usize_to_decimal(0), b"0".to_vec());
    assert_eq!(usize_to_decimal(9), b"9".to_vec());
}

#[test]
fn decimal_of_multi_digit_numbers() {
    assert_eq!(usize_to_decimal(10), b"10".to_vec());
    assert_eq!(usize_to_decimal(2000), b"2000".to_vec());
    assert_eq!(usize_to_decimal(400_000_000), b"400000000".to_vec());
}

#[test]
fn decimal_matches_std_formatting() {
    for n in [0usize, 1, 7, 10, 99, 100, 101, 65535, 1 << 31, usize::MAX] {
        assert_eq!(usize_to_decimal(n), format!("{}", n).into_bytes());
    }
}

#[test]
fn decimal_reads_back() {
    for n in [0usize, 5, 42, 123_456_789, usize::MAX] {
        let digits = String::from_utf8(usize_to_decimal(n)).unwrap();
        assert_eq!(digits.parse::<usize>().unwrap(), n);
    }
}
