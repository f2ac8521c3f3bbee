use vstd::prelude::*;

use crate::errors::{WinEvtError, WinEvtErrorKind};

verus! {

/// One live handle of the event-log service, never null, owned by one value.
///
/// It is neither `Clone` nor `Copy`: releasing it takes it by value, so it is
/// released at most once.
#[derive(Debug, PartialEq, Eq)]
pub struct ResourceHandle {
    raw: u64,
}

impl View for ResourceHandle {
    type V = u64;

    closed spec fn view(&self) -> u64 {
        self.raw
    }
}

impl ResourceHandle {
    #[verifier::type_invariant]
    spec fn non_null(&self) -> bool {
        self.raw != 0
    }

    /// Takes ownership of a raw handle value; a null value is no handle.
    pub fn from_raw(raw: u64) -> (r: Option<ResourceHandle>)
        ensures
            r is Some <==> raw != 0,
            r is Some ==> r->0@ == raw,
    {
        if raw == 0 {
            None
        } else {
            Some(ResourceHandle { raw })
        }
    }

    /// The raw value, to hand to the service.
    pub fn raw(&self) -> (r: u64)
        ensures
            r == self@,
            r != 0,
    {
        proof {
            use_type_invariant(self);
        }
        self.raw
    }

    /// Gives the handle up after the service was asked to release it: `closed`
    /// tells whether it did, `last_error` is its status when it did not.
    pub fn release(self, closed: bool, last_error: u32) -> (r: Result<(), WinEvtError>)
        ensures
            closed <==> r is Ok,
            !closed ==> r->Err_0@ == (WinEvtErrorKind::ReleaseFailed { code: last_error }),
    {
        if closed {
            Ok(())
        } else {
            Err(WinEvtError::ReleaseFailed { code: last_error })
        }
    }
}

} // verus!
