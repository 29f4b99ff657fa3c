use host_bridge::convert::ArgTypeInfo;
use host_bridge::convert::borrow_all;
use host_bridge::env::AsyncEnv;
use host_bridge::env::Env;
use host_bridge::env::SyncEnv;
use host_bridge::host::HostContext;
use host_bridge::host::HostException;
use host_bridge::host::HostNumber;
use host_bridge::host::HostValue;
use host_bridge::host::NumberClass;

fn number(value: u64, text: &str) -> HostValue {
    HostValue::Number(HostNumber { class: NumberClass::Integral { value }, text: text.to_string() })
}

#[test]
fn sync_env_allocates_a_host_buffer() {
    let mut cx = HostContext::new(false);
    match SyncEnv.buffer(&mut cx, vec![4u8, 5, 6]).unwrap() {
        HostValue::Buffer(handle) => assert_eq!(cx.read_buffer(handle), &vec![4u8, 5, 6]),
        _ => panic!("expected a buffer"),
    }
    assert_eq!(cx.live_roots, 0);
}

#[test]
fn async_env_keeps_an_owned_copy() {
    let mut cx = HostContext::new(false);
    let copy = AsyncEnv.buffer(&mut cx, vec![4u8, 5, 6]).unwrap();
    assert_eq!(copy, vec![4u8, 5, 6]);
    assert_eq!(cx.buffers, Vec::<Vec<u8>>::new());
}

#[test]
fn borrow_all_converts_every_argument() {
    let args = vec![number(1, "1"), number(2, "2")];
    let mut storages = borrow_all::<u64>(&args).unwrap();
    let a = <u64 as ArgTypeInfo>::load_from(&mut storages[0]);
    let b = <u64 as ArgTypeInfo>::load_from(&mut storages[1]);
    assert_eq!((a, b), (1, 2));
}

#[test]
fn borrow_all_fails_whole_on_a_wrong_typed_argument() {
    let args = vec![number(1, "1"), HostValue::Text("two".to_string())];
    match borrow_all::<u64>(&args) {
        Err(HostException::Type { expected }) => assert_eq!(expected, "number"),
        _ => panic!("expected a type error"),
    }
}

#[test]
fn borrow_all_fails_whole_on_an_out_of_range_argument() {
    let args = vec![number(1, "1"), number(300, "300")];
    assert!(matches!(borrow_all::<u8>(&args), Err(HostException::Range { .. })));
}
