use minikernel::calc::{evaluate_expression, CalcError};

#[test]
fn four_operators_evaluate() {
    assert_eq!(evaluate_expression(b"2 + 3"), Ok(5));
    assert_eq!(evaluate_expression(b"10 - 4"), Ok(6));
    assert_eq!(evaluate_expression(b"6 * 7"), Ok(42));
    assert_eq!(evaluate_expression(b"84 / 2"), Ok(42));
}

#[test]
fn signs_and_negative_results() {
    assert_eq!(evaluate_expression(b"-7 + -3"), Ok(-10));
    assert_eq!(evaluate_expression(b"+4 * -2"), Ok(-8));
    assert_eq!(evaluate_expression(b"3 - 10"), Ok(-7));
}

#[test]
fn division_truncates_toward_zero() {
    assert_eq!(evaluate_expression(b"-7 / 2"), Ok(-3));
    assert_eq!(evaluate_expression(b"7 / -2"), Ok(-3));
    assert_eq!(evaluate_expression(b"-7 / -2"), Ok(3));
}

#[test]
fn division_edge_cases() {
    assert_eq!(evaluate_expression(b"1 / 0"), Err(CalcError::DivisionByZero));
    // the one overflowing quotient wraps back to the minimum
    assert_eq!(evaluate_expression(b"-2147483648 / -1"), Ok(i32::MIN));
}

#[test]
fn addition_and_subtraction_wrap() {
    assert_eq!(evaluate_expression(b"2147483647 + 1"), Ok(i32::MIN));
    assert_eq!(evaluate_expression(b"-2147483648 - 1"), Ok(i32::MAX));
    assert_eq!(evaluate_expression(b"65536 * 65536"), Ok(0));
}

#[test]
fn malformed_numbers_are_rejected() {
    assert_eq!(evaluate_expression(b""), Err(CalcError::InvalidNumber));
    assert_eq!(evaluate_expression(b"x + 1"), Err(CalcError::InvalidNumber));
    assert_eq!(evaluate_expression(b"5 +"), Err(CalcError::InvalidNumber));
    assert_eq!(evaluate_expression(b"5 + y"), Err(CalcError::InvalidNumber));
    assert_eq!(evaluate_expression(b"2147483648 + 0"), Err(CalcError::InvalidNumber));
    assert_eq!(evaluate_expression(b"99999999999 + 1"), Err(CalcError::InvalidNumber));
}

#[test]
fn operator_errors() {
    assert_eq!(evaluate_expression(b"5"), Err(CalcError::MissingOperator));
    assert_eq!(evaluate_expression(b"5 & 3"), Err(CalcError::UnknownOperator));
    assert_eq!(evaluate_expression(b"5 ** 3"), Err(CalcError::UnknownOperator));
}

#[test]
fn extra_tokens_are_ignored() {
    assert_eq!(evaluate_expression(b"1 + 2 anything else"), Ok(3));
    assert_eq!(evaluate_expression(b"  1   +   2  "), Ok(3));
}

#[test]
fn error_messages_match_the_console_lines() {
    assert_eq!(CalcError::InvalidNumber.message(), "Invalid number");
    assert_eq!(CalcError::MissingOperator.message(), "Missing operator");
    assert_eq!(CalcError::DivisionByZero.message(), "Division by zero");
    assert_eq!(CalcError::UnknownOperator.message(), "Unknown operator");
}
