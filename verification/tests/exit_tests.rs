use subenv::exitcode::{exit_code_text, propagated_code};

#[test]
fn failing_child_code_is_rendered_exactly() {
    assert_eq!(exit_code_text(Some(7)), "7");
}

#[test]
fn missing_code_counts_as_zero() {
    assert_eq!(exit_code_text(None), "0");
    assert_eq!(propagated_code(None), 0);
}

#[test]
fn zero_is_rendered_as_zero() {
    assert_eq!(exit_code_text(Some(0)), "0");
}

#[test]
fn multi_digit_codes_are_rendered_exactly() {
    assert_eq!(exit_code_text(Some(255)), "255");
    assert_eq!(exit_code_text(Some(1000)), "1000");
    assert_eq!(exit_code_text(Some(i32::MAX)), "2147483647");
}

#[test]
fn negative_codes_carry_a_sign() {
    assert_eq!(exit_code_text(Some(-3)), "-3");
    assert_eq!(exit_code_text(Some(i32::MIN)), "-2147483648");
}

#[test]
fn the_supervisor_mirrors_the_child() {
    assert_eq!(propagated_code(Some(7)), 7);
    assert_eq!(propagated_code(Some(0)), 0);
}
