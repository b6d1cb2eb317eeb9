use interop::bindings::{sum_as_string, SumError, UserData};

#[test]
fn test_sum_as_string() {
    let result = sum_as_string(3, 5).unwrap();
    assert_eq!(result, "8");
}

#[test]
fn sum_is_written_in_decimal() {
    assert_eq!(sum_as_string(0, 0).unwrap(), "0");
    assert_eq!(sum_as_string(9, 1).unwrap(), "10");
    assert_eq!(sum_as_string(123, 877).unwrap(), "1000");
    assert_eq!(sum_as_string(usize::MAX, 0).unwrap(), usize::MAX.to_string());
    assert_eq!(sum_as_string(usize::MAX - 1, 1).unwrap(), usize::MAX.to_string());
}

#[test]
fn sum_that_does_not_fit_is_an_error() {
    assert_eq!(sum_as_string(usize::MAX, 1), Err(SumError::Overflow));
    assert_eq!(sum_as_string(usize::MAX, usize::MAX), Err(SumError::Overflow));
}

#[test]
fn user_is_printed_with_name_and_number() {
    let user = UserData { id: 34, name: "Yu".to_string() };
    assert_eq!(user.repr(), "User Yu(id: 34)");
    assert_eq!(user.as_tuple(), (34, "Yu".to_string()));
}

#[test]
fn user_with_largest_number() {
    let user = UserData { id: u32::MAX, name: String::new() };
    assert_eq!(user.repr(), "User (id: 4294967295)");
    assert_eq!(user.as_tuple(), (4294967295, String::new()));
}
