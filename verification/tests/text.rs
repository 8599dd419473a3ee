use ferro_vault::text::{i32_text, parse_i32, u64_text, IntFault};

#[test]
fn numbers_are_written_as_the_formatter_writes_them() {
    for n in [0u64, 7, 10, 99, 100, 268_435_456, u64::MAX] {
        assert_eq!(u64_text(n), format!("{}", n));
    }
    for i in [0i32, 3, -1, -10, i32::MAX, i32::MIN] {
        assert_eq!(i32_text(i), format!("{}", i));
    }
}

#[test]
fn a_descriptor_number_is_read_back() {
    for fd in [0i32, 3, 1023, -7, i32::MAX, i32::MIN] {
        assert_eq!(parse_i32(&i32_text(fd)), Ok(fd));
    }
}

#[test]
fn parsing_accepts_signs_and_leading_zeros() {
    assert_eq!(parse_i32("+3"), Ok(3));
    assert_eq!(parse_i32("-0"), Ok(0));
    assert_eq!(parse_i32("0003"), Ok(3));
}

#[test]
fn parsing_reports_each_fault() {
    assert_eq!(parse_i32(""), Err(IntFault::Empty));
    assert_eq!(parse_i32("-"), Err(IntFault::InvalidDigit));
    assert_eq!(parse_i32("+"), Err(IntFault::InvalidDigit));
    assert_eq!(parse_i32(" 3"), Err(IntFault::InvalidDigit));
    assert_eq!(parse_i32("3é"), Err(IntFault::InvalidDigit));
    assert_eq!(parse_i32("2147483648"), Err(IntFault::PosOverflow));
    assert_eq!(parse_i32("-2147483649"), Err(IntFault::NegOverflow));
}

#[test]
fn parsing_agrees_with_the_standard_library() {
    let texts = [
        "", "+", "-", "--1", "+-1", "3", "+3", "-3", "3x", "x3", "99999999999x", "999999999x",
        "2147483647", "2147483648", "-2147483648", "-2147483649", "-99999999999 ", "0x10", "3\n",
    ];
    for text in texts {
        match (parse_i32(text), text.parse::<i32>()) {
            (Ok(ours), Ok(theirs)) => assert_eq!(ours, theirs),
            (Err(ours), Err(theirs)) => assert_eq!(ours.debug_text(), format!("{:?}", theirs)),
            (ours, theirs) => panic!("{:?}: {:?} but {:?}", text, ours, theirs),
        }
    }
}
