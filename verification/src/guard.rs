//! What an entry point answers once the panic boundary around it has run:
//! the body's own result, or a runtime error when the body panicked.

use vstd::prelude::*;
use crate::err::{err, ErrorSlot, RTORCH_API_E_RT};

verus! {

/// `body` is the code the guarded body returned, or `None` when it panicked.
/// A panic becomes `E_RT` with a message that says so; a return passes through.
pub fn ffi_guard_outcome(body: Option<i32>, slot: &mut ErrorSlot) -> (rc: i32)
    ensures
        body matches Some(c) ==> rc == c && final(slot)@ == old(slot)@,
        body is None ==> rc == RTORCH_API_E_RT && final(slot)@
            == "rtorch_api: panic caught at C boundary"@,
{
    match body {
        Some(c) => c,
        None => err(slot, RTORCH_API_E_RT, "rtorch_api: panic caught at C boundary"),
    }
}

/// Like [`ffi_guard_outcome`] for entry points that hand back a handle: a panic
/// yields no handle (a null pointer) and records the message.
pub fn ffi_guard_ptr_outcome<T>(body: Option<Option<T>>, slot: &mut ErrorSlot) -> (handle: Option<T>)
    ensures
        body matches Some(h) ==> handle == h && final(slot)@ == old(slot)@,
        body is None ==> handle is None && final(slot)@
            == "rtorch_api: panic caught at C boundary"@,
{
    match body {
        Some(h) => h,
        None => {
            err(slot, RTORCH_API_E_RT, "rtorch_api: panic caught at C boundary");
            None
        },
    }
}

} // verus!
