//! Tests of the runtime string heap and the owned string container.

use zend_marshal::runtime::Runtime;
use zend_marshal::zend_string::ZendString;
use zend_marshal::Error;

#[test]
fn construct_round_trips_request_scoped() {
    let mut rt = Runtime::new();
    let zs = ZendString::new(&mut rt, "hello world", false);
    assert_eq!(zs.try_into_string(&rt), Ok("hello world".to_string()));
}

#[test]
fn construct_round_trips_persistent() {
    let mut rt = Runtime::new();
    let zs = ZendString::new(&mut rt, "hello world", true);
    assert_eq!(zs.try_into_string(&rt), Ok("hello world".to_string()));
}

#[test]
fn construct_round_trips_embedded_zero_bytes() {
    let mut rt = Runtime::new();
    let text = "ab\0cd\0";
    let zs = ZendString::new(&mut rt, text, false);
    assert_eq!(zs.try_into_string(&rt), Ok(text.to_string()));
    let zs2 = ZendString::new(&mut rt, text, true);
    assert_eq!(zs2.try_into_string(&rt), Ok(text.to_string()));
}

#[test]
fn construct_round_trips_multibyte_text() {
    let mut rt = Runtime::new();
    let text = "héllo wörld ✓";
    let zs = ZendString::new(&mut rt, text, false);
    assert_eq!(zs.try_into_string(&rt), Ok(text.to_string()));
}

#[test]
fn release_transfers_ownership_single_free() {
    let mut rt = Runtime::new();
    let zs = ZendString::new(&mut rt, "once", false);
    assert_eq!(rt.string_refcount(zs.borrow_ptr()), Some(1));
    let raw = zs.release();
    // The wrapper is consumed: only the raw handle's one release remains.
    assert!(rt.handle_is_valid(raw));
    rt.string_release(raw);
    assert!(!rt.handle_is_valid(raw));
}

#[test]
fn wrap_null_handle_is_nothing() {
    assert!(ZendString::from_ptr(0, true).is_none());
    assert!(ZendString::from_ptr(0, false).is_none());
}

#[test]
fn wrap_valid_handle_round_trips_bytes() {
    let mut rt = Runtime::new();
    let zs = ZendString::new(&mut rt, "shared", false);
    let raw = zs.release();
    let wrapped = ZendString::from_ptr(raw, true).expect("non-null handle");
    assert_eq!(wrapped.try_into_string(&rt), Ok("shared".to_string()));
}

#[test]
fn dispose_of_borrowed_wrapper_keeps_cell() {
    let mut rt = Runtime::new();
    let zs = ZendString::new(&mut rt, "kept", false);
    let raw = zs.release();
    let borrowed = ZendString::from_ptr(raw, false).expect("non-null handle");
    borrowed.dispose(&mut rt);
    assert!(rt.handle_is_valid(raw));
}

#[test]
fn dispose_of_owning_wrapper_frees_cell() {
    let mut rt = Runtime::new();
    let zs = ZendString::new(&mut rt, "gone", false);
    let raw = zs.borrow_ptr();
    zs.dispose(&mut rt);
    assert!(!rt.handle_is_valid(raw));
}

#[test]
fn stale_handle_is_invalid_pointer() {
    let mut rt = Runtime::new();
    let zs = ZendString::new(&mut rt, "stale", false);
    let raw = zs.release();
    rt.string_release(raw);
    let wrapped = ZendString::from_ptr(raw, false).expect("non-null handle");
    assert_eq!(wrapped.try_into_string(&rt), Err(Error::InvalidPointer));
}

#[test]
fn non_utf8_bytes_are_invalid_encoding() {
    let mut rt = Runtime::new();
    let raw = rt.string_init(vec![0xff, 0xfe, 0x61], false);
    let wrapped = ZendString::from_ptr(raw, false).expect("non-null handle");
    assert_eq!(wrapped.try_into_string(&rt), Err(Error::InvalidEncoding));
}

#[test]
fn interned_strings_share_one_allocation() {
    let mut rt = Runtime::new();
    let a = ZendString::new_interned(&mut rt, "symbol");
    let b = ZendString::new_interned(&mut rt, "symbol");
    let c = ZendString::new_interned(&mut rt, "other");
    assert_eq!(a.borrow_ptr(), b.borrow_ptr());
    assert_ne!(a.borrow_ptr(), c.borrow_ptr());
    assert_eq!(a.try_into_string(&rt), Ok("symbol".to_string()));
}

#[test]
fn plain_construction_does_not_intern() {
    let mut rt = Runtime::new();
    let a = ZendString::new(&mut rt, "twice", false);
    let b = ZendString::new(&mut rt, "twice", false);
    assert_ne!(a.borrow_ptr(), b.borrow_ptr());
}

#[test]
fn refcount_reaching_zero_frees_cell() {
    let mut rt = Runtime::new();
    let raw = rt.string_init(vec![b'x'], false);
    assert_eq!(rt.string_refcount(raw), Some(1));
    assert_eq!(rt.string_bytes(raw), Some(vec![b'x']));
    rt.string_release(raw);
    assert_eq!(rt.string_refcount(raw), None);
    assert_eq!(rt.string_bytes(raw), None);
}
