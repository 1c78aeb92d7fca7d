//! The panic boundary's answers.

use rtorch_for_models_api::err::{last_error, ErrorSlot, RTORCH_API_E_RT};
use rtorch_for_models_api::guard::{ffi_guard_outcome, ffi_guard_ptr_outcome};

#[test]
fn ffi_guard_catches_internal_panic() {
    let mut slot = ErrorSlot::new();
    let rc = ffi_guard_outcome(None, &mut slot);
    assert_eq!(rc, RTORCH_API_E_RT, "panic must become E_RT");
    assert!(last_error(&slot).contains("panic caught"));
}

#[test]
fn ffi_guard_ptr_returns_null_on_panic() {
    let mut slot = ErrorSlot::new();
    let p: Option<u8> = ffi_guard_ptr_outcome(None, &mut slot);
    assert!(p.is_none(), "panic must yield a null pointer");
    assert!(last_error(&slot).contains("panic caught"));
}

#[test]
fn ffi_guard_ok_returns_code() {
    let mut slot = ErrorSlot::new();
    let rc = ffi_guard_outcome(Some(7), &mut slot);
    assert_eq!(rc, 7);
}
