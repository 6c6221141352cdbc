use amqpiothub::text::{int_to_text, parse_i64};

#[test]
fn integers_to_text() {
    assert_eq!(int_to_text(0), "0");
    assert_eq!(int_to_text(1700086400), "1700086400");
    assert_eq!(int_to_text(-42), "-42");
    assert_eq!(int_to_text(i64::MIN), "-9223372036854775808");
    assert_eq!(int_to_text(i64::MAX), "9223372036854775807");
}

#[test]
fn integers_from_text() {
    assert_eq!(parse_i64("1700086400"), Some(1700086400));
    assert_eq!(parse_i64("-9223372036854775808"), Some(i64::MIN));
    assert_eq!(parse_i64("9223372036854775807"), Some(i64::MAX));
    assert_eq!(parse_i64("9223372036854775808"), None);
    assert_eq!(parse_i64("99999999999999999999999"), None);
    assert_eq!(parse_i64("007"), Some(7));
    assert_eq!(parse_i64(""), None);
    assert_eq!(parse_i64("-"), None);
    assert_eq!(parse_i64("1-2"), None);
}
