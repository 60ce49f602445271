use data_service::text::push_decimal;

fn decimal_of(n: u32) -> String {
    let mut s = String::new();
    push_decimal(&mut s, n);
    s
}

#[test]
fn decimal_of_zero() {
    assert_eq!(decimal_of(0), "0");
}

#[test]
fn decimal_of_single_and_multi_digit() {
    assert_eq!(decimal_of(7), "7");
    assert_eq!(decimal_of(10), "10");
    assert_eq!(decimal_of(905), "905");
}

#[test]
fn decimal_of_largest() {
    assert_eq!(decimal_of(u32::MAX), "4294967295");
}

#[test]
fn decimal_appends_after_existing_text() {
    let mut s = "id=".to_string();
    push_decimal(&mut s, 42);
    assert_eq!(s, "id=42");
}
