use host_bridge::codec::can_convert_js_number_to_int;
use host_bridge::codec::number_from_i32;
use host_bridge::codec::number_from_u64;
use host_bridge::codec::u64_to_decimal;
use host_bridge::host::HostNumber;
use host_bridge::host::NumberClass;
use host_bridge::host::MAX_SAFE_INTEGER;

fn integral(value: u64, text: &str) -> HostNumber {
    HostNumber { class: NumberClass::Integral { value }, text: text.to_string() }
}

#[test]
fn decimal_rendering_of_zero() {
    assert_eq!(u64_to_decimal(0), "0");
}

#[test]
fn decimal_rendering_of_single_digit() {
    assert_eq!(u64_to_decimal(7), "7");
}

#[test]
fn decimal_rendering_of_many_digits() {
    assert_eq!(u64_to_decimal(1234567890), "1234567890");
}

#[test]
fn decimal_rendering_of_max_safe_integer() {
    assert_eq!(u64_to_decimal(9007199254740991), "9007199254740991");
}

#[test]
fn range_check_accepts_integer_in_range() {
    assert!(can_convert_js_number_to_int(&integral(200, "200"), 255));
}

#[test]
fn range_check_rejects_integer_above_range() {
    assert!(!can_convert_js_number_to_int(&integral(256, "256"), 255));
}

#[test]
fn range_check_rejects_non_integral() {
    let n = HostNumber { class: NumberClass::NonIntegral, text: "2.5".to_string() };
    assert!(!can_convert_js_number_to_int(&n, MAX_SAFE_INTEGER));
}

#[test]
fn range_check_rejects_not_finite() {
    let n = HostNumber { class: NumberClass::NotFinite, text: "NaN".to_string() };
    assert!(!can_convert_js_number_to_int(&n, MAX_SAFE_INTEGER));
}

#[test]
fn range_check_rejects_negative() {
    let n = HostNumber { class: NumberClass::Negative { magnitude: 1 }, text: "-1".to_string() };
    assert!(!can_convert_js_number_to_int(&n, MAX_SAFE_INTEGER));
}

#[test]
fn range_check_rejects_huge() {
    let n = HostNumber { class: NumberClass::Huge, text: "1e300".to_string() };
    assert!(!can_convert_js_number_to_int(&n, MAX_SAFE_INTEGER));
}

#[test]
fn number_from_u64_carries_value_and_text() {
    let n = number_from_u64(42);
    assert!(matches!(n.class, NumberClass::Integral { value: 42 }));
    assert_eq!(n.text, "42");
}

#[test]
fn number_from_i32_non_negative() {
    let n = number_from_i32(31337);
    assert!(matches!(n.class, NumberClass::Integral { value: 31337 }));
    assert_eq!(n.text, "31337");
}

#[test]
fn number_from_i32_negative() {
    let n = number_from_i32(-48);
    assert!(matches!(n.class, NumberClass::Negative { magnitude: 48 }));
    assert_eq!(n.text, "-48");
}

#[test]
fn number_from_i32_minimum() {
    let n = number_from_i32(i32::MIN);
    assert!(matches!(n.class, NumberClass::Negative { magnitude: 2147483648 }));
    assert_eq!(n.text, "-2147483648");
}
