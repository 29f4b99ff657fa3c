use host_bridge::convert::ArgTypeInfo;
use host_bridge::convert::ResultTypeInfo;
use host_bridge::convert::SimpleArgTypeInfo;
use host_bridge::host::HostContext;
use host_bridge::host::HostException;
use host_bridge::host::HostNumber;
use host_bridge::host::HostValue;
use host_bridge::host::NumberClass;

fn number(value: u64, text: &str) -> HostValue {
    HostValue::Number(HostNumber { class: NumberClass::Integral { value }, text: text.to_string() })
}

#[test]
fn u64_round_trip_small_value() {
    let mut cx = HostContext::new(false);
    let to_host = 5u64.convert_into(&mut cx).unwrap();
    let back = <u64 as SimpleArgTypeInfo>::convert_from(&to_host).unwrap();
    assert_eq!(back, 5);
}

#[test]
fn u64_round_trip_max_safe_integer() {
    let mut cx = HostContext::new(false);
    let to_host = 9007199254740991u64.convert_into(&mut cx).unwrap();
    let back = <u64 as SimpleArgTypeInfo>::convert_from(&to_host).unwrap();
    assert_eq!(back, 9007199254740991);
}

#[test]
fn u64_beyond_safe_integer_fails_outbound() {
    let mut cx = HostContext::new(false);
    match 9007199254740992u64.convert_into(&mut cx) {
        Err(HostException::Range { value_text, target_type }) => {
            assert_eq!(value_text, "9007199254740992");
            assert_eq!(target_type, "f64");
        },
        _ => panic!("expected a range error"),
    }
}

#[test]
fn u64_from_non_integral_number_names_value_and_type() {
    let v = HostValue::Number(HostNumber {
        class: NumberClass::NonIntegral,
        text: "2.5".to_string(),
    });
    match <u64 as SimpleArgTypeInfo>::convert_from(&v) {
        Err(HostException::Range { value_text, target_type }) => {
            assert_eq!(value_text, "2.5");
            assert_eq!(target_type, "u64");
        },
        _ => panic!("expected a range error"),
    }
}

#[test]
fn u64_from_infinite_number_names_value_and_type() {
    let v = HostValue::Number(HostNumber {
        class: NumberClass::NotFinite,
        text: "inf".to_string(),
    });
    match <u64 as SimpleArgTypeInfo>::convert_from(&v) {
        Err(HostException::Range { value_text, target_type }) => {
            assert_eq!(value_text, "inf");
            assert_eq!(target_type, "u64");
        },
        _ => panic!("expected a range error"),
    }
}

#[test]
fn u8_accepts_its_maximum_and_rejects_beyond() {
    assert_eq!(<u8 as SimpleArgTypeInfo>::convert_from(&number(255, "255")).unwrap(), 255);
    match <u8 as SimpleArgTypeInfo>::convert_from(&number(256, "256")) {
        Err(HostException::Range { value_text, target_type }) => {
            assert_eq!(value_text, "256");
            assert_eq!(target_type, "u8");
        },
        _ => panic!("expected a range error"),
    }
}

#[test]
fn u32_accepts_its_maximum_and_rejects_beyond() {
    assert_eq!(
        <u32 as SimpleArgTypeInfo>::convert_from(&number(4294967295, "4294967295")).unwrap(),
        4294967295
    );
    assert!(matches!(
        <u32 as SimpleArgTypeInfo>::convert_from(&number(4294967296, "4294967296")),
        Err(HostException::Range { .. })
    ));
}

#[test]
fn i32_rejects_negative_input() {
    let v = HostValue::Number(HostNumber {
        class: NumberClass::Negative { magnitude: 1 },
        text: "-1".to_string(),
    });
    match <i32 as SimpleArgTypeInfo>::convert_from(&v) {
        Err(HostException::Range { value_text, target_type }) => {
            assert_eq!(value_text, "-1");
            assert_eq!(target_type, "i32");
        },
        _ => panic!("expected a range error"),
    }
}

#[test]
fn i32_negative_result_converts_with_sign() {
    let mut cx = HostContext::new(false);
    match (-48i32).convert_into(&mut cx).unwrap() {
        HostValue::Number(n) => {
            assert!(matches!(n.class, NumberClass::Negative { magnitude: 48 }));
            assert_eq!(n.text, "-48");
        },
        _ => panic!("expected a number"),
    }
}

#[test]
fn string_converts_losslessly_both_ways() {
    let mut cx = HostContext::new(false);
    let v = HostValue::Text("hello".to_string());
    let s = <String as SimpleArgTypeInfo>::convert_from(&v).unwrap();
    assert_eq!(s, "hello");
    match s.convert_into(&mut cx).unwrap() {
        HostValue::Text(t) => assert_eq!(t, "hello"),
        _ => panic!("expected text"),
    }
}

#[test]
fn bool_converts_both_ways() {
    let mut cx = HostContext::new(false);
    assert!(<bool as SimpleArgTypeInfo>::convert_from(&HostValue::Boolean(true)).unwrap());
    assert!(matches!(true.convert_into(&mut cx).unwrap(), HostValue::Boolean(true)));
}

#[test]
fn unit_converts_to_undefined() {
    let mut cx = HostContext::new(false);
    assert!(matches!(().convert_into(&mut cx).unwrap(), HostValue::Undefined));
}

#[test]
fn optional_null_converts_to_absence() {
    let mut stored = <Option<u64> as ArgTypeInfo>::borrow(&HostValue::Null).unwrap();
    let loaded = <Option<u64> as ArgTypeInfo>::load_from(&mut stored);
    assert_eq!(loaded, None);
}

#[test]
fn optional_wrong_type_fails_with_type_error() {
    match <Option<u64> as ArgTypeInfo>::borrow(&HostValue::Boolean(true)) {
        Err(HostException::Type { expected }) => assert_eq!(expected, "number"),
        _ => panic!("expected a type error"),
    }
}

#[test]
fn optional_present_value_delegates_to_element() {
    let mut stored = <Option<u64> as ArgTypeInfo>::borrow(&number(7, "7")).unwrap();
    let loaded = <Option<u64> as ArgTypeInfo>::load_from(&mut stored);
    assert_eq!(loaded, Some(7));
}

#[test]
fn optional_present_out_of_range_delegates_element_error() {
    assert!(matches!(
        <Option<u8> as ArgTypeInfo>::borrow(&number(300, "300")),
        Err(HostException::Range { .. })
    ));
}

#[test]
fn optional_none_result_converts_to_null() {
    let mut cx = HostContext::new(false);
    let r: Option<u64> = None;
    assert!(matches!(r.convert_into(&mut cx).unwrap(), HostValue::Null));
}

#[test]
fn optional_some_result_delegates() {
    let mut cx = HostContext::new(false);
    match Some(3u64).convert_into(&mut cx).unwrap() {
        HostValue::Number(n) => assert_eq!(n.text, "3"),
        _ => panic!("expected a number"),
    }
}

#[test]
fn byte_vector_result_allocates_a_host_buffer() {
    let mut cx = HostContext::new(false);
    let bytes = vec![1u8, 2, 3];
    match bytes.convert_into(&mut cx).unwrap() {
        HostValue::Buffer(handle) => {
            assert_eq!(cx.read_buffer(handle), &vec![1u8, 2, 3]);
        },
        _ => panic!("expected a buffer"),
    }
}

#[test]
fn fallible_result_passes_errors_through() {
    let mut cx = HostContext::new(false);
    let failing: Result<u64, HostException> =
        Err(HostException::Generic { message: "boom".to_string() });
    match failing.convert_into(&mut cx) {
        Err(HostException::Generic { message }) => assert_eq!(message, "boom"),
        _ => panic!("expected the error to pass through"),
    }
}

#[test]
fn simple_storage_loads_the_converted_value_once() {
    let mut stored = <u64 as ArgTypeInfo>::borrow(&number(9, "9")).unwrap();
    assert!(stored.is_some());
    let loaded = <u64 as ArgTypeInfo>::load_from(&mut stored);
    assert_eq!(loaded, 9);
    assert!(stored.is_none());
}
