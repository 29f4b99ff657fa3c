use host_bridge::host::HostContext;
use host_bridge::host::HostException;
use host_bridge::object::PersistentBoxedValue;
use host_bridge::object::WrapperObject;

#[test]
fn lookup_succeeds_on_a_wrapper_and_fails_elsewhere() {
    let wrapper = WrapperObject::wrap(41u64);
    assert!(wrapper.lookup());
    let not_a_wrapper: WrapperObject<u64> = WrapperObject::without_handle();
    assert!(!not_a_wrapper.lookup());
}

#[test]
fn shared_borrows_may_overlap() {
    let mut wrapper = WrapperObject::wrap(1u64);
    assert!(wrapper.try_borrow());
    assert!(wrapper.try_borrow());
    assert_eq!(*wrapper.read(), 1);
    wrapper.release_shared();
    wrapper.release_shared();
}

#[test]
fn exclusive_borrow_fails_while_shared_borrow_is_outstanding() {
    let mut wrapper = WrapperObject::wrap(1u64);
    assert!(wrapper.try_borrow());
    assert!(!wrapper.try_borrow_mut());
    wrapper.release_shared();
    assert!(wrapper.try_borrow_mut());
}

#[test]
fn exclusive_borrow_fails_while_exclusive_borrow_is_outstanding() {
    let mut wrapper = WrapperObject::wrap(1u64);
    assert!(wrapper.try_borrow_mut());
    assert!(!wrapper.try_borrow_mut());
    wrapper.release_mut();
    assert!(wrapper.try_borrow_mut());
}

#[test]
fn shared_borrow_fails_while_exclusive_borrow_is_outstanding() {
    let mut wrapper = WrapperObject::wrap(1u64);
    assert!(wrapper.try_borrow_mut());
    assert!(!wrapper.try_borrow());
    wrapper.release_mut();
    assert!(wrapper.try_borrow());
}

#[test]
fn replace_through_exclusive_borrow() {
    let mut wrapper = WrapperObject::wrap(1u64);
    assert!(wrapper.try_borrow_mut());
    let previous = wrapper.replace(2);
    assert_eq!(previous, 1);
    wrapper.release_mut();
    assert!(wrapper.try_borrow());
    assert_eq!(*wrapper.read(), 2);
    wrapper.release_shared();
}

#[test]
fn persistent_handle_validates_before_rooting() {
    let mut cx = HostContext::new(false);
    let not_a_wrapper: WrapperObject<u64> = WrapperObject::without_handle();
    match PersistentBoxedValue::new(&mut cx, &not_a_wrapper) {
        Err(HostException::Type { expected }) => assert_eq!(expected, "_nativeHandle"),
        _ => panic!("expected a type error"),
    }
    assert_eq!(cx.live_roots, 0);
}

#[test]
fn persistent_handle_roots_until_finalized() {
    let mut cx = HostContext::new(false);
    let wrapper = WrapperObject::wrap(77u64);
    let handle = PersistentBoxedValue::new(&mut cx, &wrapper).unwrap();
    assert_eq!(cx.live_roots, 1);
    assert_eq!(*handle.value(&wrapper), 77);
    handle.finalize(&mut cx);
    assert_eq!(cx.live_roots, 0);
}
