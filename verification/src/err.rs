//! Error codes shared by every layer, and the last-error slot that the C ABI
//! reports failures through.

use vstd::prelude::*;

verus! {

/// Success.
pub const RTORCH_API_OK: i32 = 0;
/// A bad argument (null pointer, unknown name, buffer too small, ...).
pub const RTORCH_API_E_PARAM: i32 = 1;
/// An allocation that is refused as too large.
pub const RTORCH_API_E_NOMEM: i32 = 2;
/// A runtime failure (a caught panic, a poisoned lock).
pub const RTORCH_API_E_RT: i32 = 3;
/// An I/O failure.
pub const RTORCH_API_E_IO: i32 = 4;
/// A payload or formula that could not be parsed, compiled or run.
pub const RTORCH_API_E_PARSE: i32 = 5;

/// The last-error message of one thread: every failing entry point overwrites
/// it, and a caller reads it back after seeing a non-zero code or a null handle.
pub struct ErrorSlot {
    msg: String,
}

impl View for ErrorSlot {
    type V = Seq<char>;

    closed spec fn view(&self) -> Seq<char> {
        self.msg@
    }
}

impl ErrorSlot {
    /// A slot that holds the empty message.
    pub fn new() -> (slot: Self)
        ensures
            slot@ == Seq::<char>::empty(),
    {
        ErrorSlot { msg: String::new() }
    }
}

/// Overwrite the last-error message.
pub fn set_last_error(slot: &mut ErrorSlot, msg: &str)
    ensures
        final(slot)@ == msg@,
{
    slot.msg = msg.to_owned();
}

/// Read the current last-error message (valid until the next set).
pub fn last_error(slot: &ErrorSlot) -> (msg: String)
    ensures
        msg@ == slot@,
{
    slot.msg.clone()
}

/// Report an error: record `msg` as the last error and hand back `code`.
pub fn err(slot: &mut ErrorSlot, code: i32, msg: &str) -> (rc: i32)
    ensures
        rc == code,
        final(slot)@ == msg@,
{
    set_last_error(slot, msg);
    code
}

/// The text a NUL-terminated copy of `msg` can carry: `msg` itself, or the
/// empty string when `msg` holds a NUL character (which a C string cannot).
pub open spec fn c_text(msg: Seq<char>) -> Seq<char> {
    if msg.contains('\0') {
        Seq::empty()
    } else {
        msg
    }
}

/// The text handed to C for `msg` (see [`c_text`]).
pub fn cstr_text(msg: &str) -> (text: String)
    ensures
        text@ == c_text(msg@),
        !text@.contains('\0'),
        !msg@.contains('\0') ==> text@ == msg@,
{
    let n = msg.unicode_len();
    let mut i: usize = 0;
    while i < n
        invariant
            n == msg@.len(),
            i <= n,
            forall|j: int| 0 <= j < i ==> msg@[j] != '\0',
        decreases n - i,
    {
        if msg.get_char(i) == '\0' {
            return String::new();
        }
        i = i + 1;
    }
    msg.to_owned()
}

/// A message without a NUL is handed to C whole, every character of it; a
/// message with a NUL is handed over as the empty string.
pub proof fn c_text_keeps_text_without_nul(msg: Seq<char>)
    ensures
        !msg.contains('\0') ==> c_text(msg) == msg,
        msg.contains('\0') ==> c_text(msg).len() == 0,
{
}

/// The C copy of a message never holds a NUL, and copying it again changes
/// nothing.
pub proof fn c_text_is_idempotent(msg: Seq<char>)
    ensures
        !c_text(msg).contains('\0'),
        c_text(c_text(msg)) == c_text(msg),
{
}

} // verus!
