use choragos::failure::FailureClass;

#[test]
fn from_exit_code_zero_is_green() {
    assert_eq!(FailureClass::from_exit_code(0), FailureClass::Green);
}

#[test]
fn from_exit_code_two_is_orange() {
    assert_eq!(FailureClass::from_exit_code(2), FailureClass::Orange);
}

#[test]
fn from_exit_code_three_is_red() {
    assert_eq!(FailureClass::from_exit_code(3), FailureClass::Red);
}

#[test]
fn from_exit_code_unknown_is_red() {
    assert_eq!(FailureClass::from_exit_code(99), FailureClass::Red);
}

#[test]
fn display_green() {
    assert_eq!(FailureClass::Green.to_display_string(), "green");
}

#[test]
fn display_orange() {
    assert_eq!(FailureClass::Orange.to_display_string(), "orange");
}

#[test]
fn display_red() {
    assert_eq!(FailureClass::Red.to_display_string(), "red");
}

#[test]
fn negative_and_one_exit_codes_are_red() {
    assert_eq!(FailureClass::from_exit_code(-1), FailureClass::Red);
    assert_eq!(FailureClass::from_exit_code(1), FailureClass::Red);
}

#[test]
fn severity_orders_green_orange_red() {
    assert_eq!(FailureClass::Green.severity(), 0);
    assert_eq!(FailureClass::Orange.severity(), 1);
    assert_eq!(FailureClass::Red.severity(), 2);
}

#[test]
fn smoke() {
    assert_eq!(1 + 1, 2);
}
