use host_bridge::async_call::finalize_all;
use host_bridge::async_call::save_all;
use host_bridge::async_call::settle_deferred;
use host_bridge::async_call::Settlement;
use host_bridge::buffer::PersistentAssumedImmutableBuffer;
use host_bridge::convert::AsyncArgTypeInfo;
use host_bridge::convert::DefaultFinalize;
use host_bridge::error::ErrorRegistry;
use host_bridge::error::Module;
use host_bridge::error::ProtocolError;
use host_bridge::host::HostContext;
use host_bridge::host::HostException;
use host_bridge::host::HostNumber;
use host_bridge::host::HostValue;
use host_bridge::host::NumberClass;

fn number(value: u64, text: &str) -> HostValue {
    HostValue::Number(HostNumber { class: NumberClass::Integral { value }, text: text.to_string() })
}

fn bare_module() -> Module {
    let mut module = Module::new();
    host_bridge::error::node_registerErrorClasses(&mut module, ErrorRegistry::new());
    module
}

#[test]
fn save_all_persists_every_argument() {
    let mut cx = HostContext::new(false);
    let args = vec![number(1, "1"), number(2, "2"), number(3, "3")];
    let mut storages = save_all::<u64>(&mut cx, &args).unwrap();
    assert_eq!(storages.len(), 3);
    let loaded: Vec<u64> =
        storages.iter_mut().map(<u64 as AsyncArgTypeInfo>::load_async_arg).collect();
    assert_eq!(loaded, vec![1, 2, 3]);
    assert_eq!(cx.live_roots, 0);
}

#[test]
fn save_all_rejects_a_wrong_typed_argument_and_keeps_nothing() {
    let mut cx = HostContext::new(false);
    let args = vec![number(1, "1"), HostValue::Boolean(true)];
    match save_all::<u64>(&mut cx, &args) {
        Err((HostException::Type { expected }, warnings)) => {
            assert_eq!(expected, "number");
            assert_eq!(warnings, 0);
        },
        _ => panic!("expected a type error"),
    }
    assert_eq!(cx.live_roots, 0);
}

#[test]
fn save_all_rejects_an_out_of_range_argument() {
    let mut cx = HostContext::new(false);
    let args = vec![number(1, "1"), number(9007199254740992, "9007199254740992")];
    match save_all::<u64>(&mut cx, &args) {
        Err((HostException::Range { value_text, target_type }, _)) => {
            assert_eq!(value_text, "9007199254740992");
            assert_eq!(target_type, "u64");
        },
        _ => panic!("expected a range error"),
    }
}

#[test]
fn save_all_lifts_null_through_the_optional_adapter() {
    let mut cx = HostContext::new(false);
    let args = vec![HostValue::Null, number(4, "4")];
    let mut storages = save_all::<Option<u64>>(&mut cx, &args).unwrap();
    let loaded: Vec<Option<u64>> =
        storages.iter_mut().map(<Option<u64> as AsyncArgTypeInfo>::load_async_arg).collect();
    assert_eq!(loaded, vec![None, Some(4)]);
}

#[test]
fn successful_call_settles_fulfilled_after_finalization() {
    let mut cx = HostContext::new(false);
    let module = bare_module();
    let args = vec![number(40, "40"), number(2, "2")];
    let mut storages = save_all::<u64>(&mut cx, &args).unwrap();
    let a = <u64 as AsyncArgTypeInfo>::load_async_arg(&mut storages[0]);
    let b = <u64 as AsyncArgTypeInfo>::load_async_arg(&mut storages[1]);
    let outcome: Result<u64, ProtocolError> = Ok(a + b);
    let settled = settle_deferred(outcome, storages, &mut cx, &module);
    match settled.settlement {
        Settlement::Fulfilled(HostValue::Number(n)) => assert_eq!(n.text, "42"),
        _ => panic!("expected fulfillment with a number"),
    }
    assert_eq!(settled.integrity_warnings, 0);
    assert!(!settled.mapping_warned);
    assert_eq!(cx.live_roots, 0);
}

#[test]
fn failing_call_still_finalizes_every_storage_and_rejects_with_the_error() {
    let mut cx = HostContext::new(false);
    let module = bare_module();
    let first = cx.alloc_buffer(vec![1u8, 2]);
    let second = cx.alloc_buffer(vec![3u8, 4]);
    let storages = vec![
        PersistentAssumedImmutableBuffer::new(&mut cx, first),
        PersistentAssumedImmutableBuffer::new(&mut cx, second),
    ];
    assert_eq!(cx.live_roots, 2);
    let outcome: Result<u64, ProtocolError> =
        Err(ProtocolError::Other { description: "storage failure".to_string() });
    let settled = settle_deferred(outcome, storages, &mut cx, &module);
    match settled.settlement {
        Settlement::Rejected(HostException::Generic { message }) => {
            assert_eq!(message, "storage failure");
        },
        _ => panic!("expected rejection with the native error"),
    }
    assert_eq!(cx.live_roots, 0);
    assert_eq!(settled.integrity_warnings, 0);
}

#[test]
fn rejected_call_reports_mutated_persistent_buffers() {
    let mut cx = HostContext::new(false);
    let module = bare_module();
    let first = cx.alloc_buffer(vec![1u8, 2]);
    let second = cx.alloc_buffer(vec![3u8, 4]);
    let storages = vec![
        PersistentAssumedImmutableBuffer::new(&mut cx, first),
        PersistentAssumedImmutableBuffer::new(&mut cx, second),
    ];
    cx.mutate_buffer(second, vec![3u8, 5]);
    let outcome: Result<u64, ProtocolError> =
        Err(ProtocolError::Other { description: "boom".to_string() });
    let settled = settle_deferred(outcome, storages, &mut cx, &module);
    assert_eq!(settled.integrity_warnings, 1);
    assert_eq!(cx.live_roots, 0);
}

#[test]
fn result_conversion_failure_rejects_after_finalization() {
    let mut cx = HostContext::new(false);
    let module = bare_module();
    let storages: Vec<DefaultFinalize<Option<u64>>> = Vec::new();
    let outcome: Result<u64, ProtocolError> = Ok(9007199254740992);
    let settled = settle_deferred(outcome, storages, &mut cx, &module);
    match settled.settlement {
        Settlement::Rejected(HostException::Range { target_type, .. }) => {
            assert_eq!(target_type, "f64");
        },
        _ => panic!("expected rejection with a range error"),
    }
}

#[test]
fn finalize_all_releases_every_root_exactly_once() {
    let mut cx = HostContext::new(false);
    let a = cx.alloc_buffer(vec![9u8]);
    let b = cx.alloc_buffer(vec![8u8]);
    let c = cx.alloc_buffer(vec![7u8]);
    let storages = vec![
        PersistentAssumedImmutableBuffer::new(&mut cx, a),
        PersistentAssumedImmutableBuffer::new(&mut cx, b),
        PersistentAssumedImmutableBuffer::new(&mut cx, c),
    ];
    assert_eq!(cx.live_roots, 3);
    let warnings = finalize_all(storages, &mut cx);
    assert_eq!(warnings, 0);
    assert_eq!(cx.live_roots, 0);
}
