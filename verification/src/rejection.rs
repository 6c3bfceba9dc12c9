//! Classification of call rejections.

use vstd::prelude::*;

verus! {

/// Rejection code attached to the response of a call to another guest module.
///
/// A zero code ([`RejectionCode::NoError`]) signals success and is never
/// stored as an error: the recorded payload is then the raw reply bytes.
/// Every other code is paired with a human-readable message when a call
/// fails.  A code outside the documented range is kept verbatim in
/// [`RejectionCode::Unknown`].
#[derive(Debug, Clone, Copy, PartialEq, Eq, Structural)]
pub enum RejectionCode {
    NoError,
    SysFatal,
    SysTransient,
    DestinationInvalid,
    CanisterReject,
    CanisterError,
    Unknown(i32),
}

/// The classification that a raw host code denotes.
pub open spec fn rejection_of(code: i32) -> RejectionCode {
    if code == 0 {
        RejectionCode::NoError
    } else if code == 1 {
        RejectionCode::SysFatal
    } else if code == 2 {
        RejectionCode::SysTransient
    } else if code == 3 {
        RejectionCode::DestinationInvalid
    } else if code == 4 {
        RejectionCode::CanisterReject
    } else if code == 5 {
        RejectionCode::CanisterError
    } else {
        RejectionCode::Unknown(code)
    }
}

impl From<i32> for RejectionCode {
    fn from(code: i32) -> (r: Self) {
        match code {
            0 => RejectionCode::NoError,
            1 => RejectionCode::SysFatal,
            2 => RejectionCode::SysTransient,
            3 => RejectionCode::DestinationInvalid,
            4 => RejectionCode::CanisterReject,
            5 => RejectionCode::CanisterError,
            _ => RejectionCode::Unknown(code),
        }
    }
}

impl vstd::std_specs::convert::FromSpecImpl<i32> for RejectionCode {
    open spec fn obeys_from_spec() -> bool {
        true
    }

    open spec fn from_spec(code: i32) -> Self {
        rejection_of(code)
    }
}

impl From<u32> for RejectionCode {
    fn from(code: u32) -> (r: Self) {
        RejectionCode::from(#[verifier::truncate] (code as i32))
    }
}

impl vstd::std_specs::convert::FromSpecImpl<u32> for RejectionCode {
    open spec fn obeys_from_spec() -> bool {
        true
    }

    open spec fn from_spec(code: u32) -> Self {
        rejection_of(code as i32)
    }
}

} // verus!
