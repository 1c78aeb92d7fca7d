//! The safe shell of the RTorch plugin layer: the decisions behind every C ABI
//! entry point (argument checks, error codes, buffer copies, handle accessors
//! and the rule registry), stated as contracts and proved.
//!
//! The raw-pointer boundary itself (`extern "C"` symbols, `catch_unwind`, the
//! thread-local last-error slot and the global rule table) is a thin layer that
//! hands plain values to these functions.

pub mod err;
pub mod guard;
pub mod tensor;
pub mod buffer;
pub mod rtw;
pub mod payload;
pub mod rule;
pub mod text;
pub mod session;
