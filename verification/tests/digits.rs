use engine::digits::to_decimal;

#[test]
fn decimal_of_single_digits() {
    let digits = ["0", "1", "2", "3", "4", "5", "6", "7", "8", "9"];
    for (number, text) in digits.iter().enumerate() {
        assert_eq!(*text, to_decimal(number));
    }
}

#[test]
fn decimal_of_longer_numbers() {
    assert_eq!("10", to_decimal(10));
    assert_eq!("99", to_decimal(99));
    assert_eq!("100", to_decimal(100));
    assert_eq!("1203", to_decimal(1203));
    assert_eq!("9876543210", to_decimal(9876543210));
}

#[test]
fn decimal_agrees_with_the_standard_notation() {
    for number in [0, 7, 10, 42, 1000, 65535, 65536, usize::MAX - 1, usize::MAX] {
        assert_eq!(number.to_string(), to_decimal(number));
    }
}
