use vstd::prelude::*;

use crate::errors::{opt_text, surfaced_error, WinEvtError};
use crate::handle::ResourceHandle;

verus! {

/// Takes a handle that an open call returned: a null one is a failure, whose
/// status is `last_error` (and `extended` its extended text, if asked for).
pub fn not_null(raw: u64, last_error: u32, extended: Option<String>) -> (r: Result<
    ResourceHandle,
    WinEvtError,
>)
    ensures
        raw != 0 <==> r is Ok,
        raw != 0 ==> r->Ok_0@ == raw,
        raw == 0 ==> r->Err_0@ == surfaced_error(last_error, opt_text(extended)),
{
    match ResourceHandle::from_raw(raw) {
        Some(h) => Ok(h),
        None => Err(WinEvtError::from_failed_call(last_error, extended)),
    }
}

/// A call that returns 0 on failure: 0 is a failure, whose status is
/// `last_error` (and `extended` its extended text, if asked for). A
/// "buffer too small" status is reported as an ordinary failure.
pub fn check_okay(b: i32, last_error: u32, extended: Option<String>) -> (r: Result<(), WinEvtError>)
    ensures
        b != 0 <==> r is Ok,
        b == 0 ==> r->Err_0@ == surfaced_error(last_error, opt_text(extended)),
{
    if b == 0 {
        Err(WinEvtError::from_failed_call(last_error, extended))
    } else {
        Ok(())
    }
}

/// A call that returns a `BOOL`: `FALSE` (0) is a failure, whose status is
/// `last_error` (and `extended` its extended text, if asked for). A
/// "buffer too small" status is reported as an ordinary failure.
pub fn check_bool(b: i32, last_error: u32, extended: Option<String>) -> (r: Result<(), WinEvtError>)
    ensures
        b != 0 <==> r is Ok,
        b == 0 ==> r->Err_0@ == surfaced_error(last_error, opt_text(extended)),
{
    check_okay(b, last_error, extended)
}

} // verus!
