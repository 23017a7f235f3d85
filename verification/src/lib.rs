//! Result-code handling for a native shader compiler's C-style ABI.
//!
//! The native library reports the outcome of every call as a signed
//! 32-bit code: a negative code reports failure, a non-negative code
//! reports success. This crate translates such raw codes into Rust's
//! `Result`, preserving the failing code exactly.

use vstd::prelude::*;

verus! {

/// A raw result code as the native library's ABI returns it.
pub type SlangResult = i32;

/// The code reporting plain success.
pub const S_OK: SlangResult = 0;

/// The failure code for an invalid argument.
pub const E_INVALIDARG: SlangResult = -2147024809;

/// The failure code for a requested interface that is not available.
pub const E_NOINTERFACE: SlangResult = -2147467262;

/// A raw result code reports failure exactly when it is negative.
pub open spec fn is_failure(code: SlangResult) -> bool {
    code < 0
}

/// Translates a raw result code into a `Result`: every negative code
/// becomes a failure carrying that exact code, and every non-negative
/// code becomes success.
pub fn result_from_ffi(result: SlangResult) -> (r: Result<(), SlangResult>)
    ensures
        is_failure(result) ==> r == Result::<(), SlangResult>::Err(result),
        !is_failure(result) ==> r == Result::<(), SlangResult>::Ok(()),
{
    if result < 0 {
        Err(result)
    } else {
        Ok(())
    }
}

} // verus!
