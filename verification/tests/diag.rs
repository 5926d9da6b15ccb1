use constant_cstr::diag::{null_diagnostic, to_decimal};

#[test]
fn decimal_zero() {
    assert_eq!(to_decimal(0), "0");
}

#[test]
fn decimal_single_digit() {
    assert_eq!(to_decimal(7), "7");
}

#[test]
fn decimal_multi_digit() {
    assert_eq!(to_decimal(1234), "1234");
}

#[test]
fn decimal_round_number() {
    assert_eq!(to_decimal(100), "100");
}

#[test]
fn diagnostic_exact_message() {
    let m = null_diagnostic("\"hi\"", 7);
    assert_eq!(m, "\"hi\" contains a null byte at position 7");
}
