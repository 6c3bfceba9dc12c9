//! Typed call wrappers: the wire codec composed with dispatch and the
//! future, exposing results in application terms.
//!
//! For the argument shapes offered here encoding cannot fail (the codec
//! wrappers promise it), so a typed call always dispatches.  The loopback
//! functions drive one whole call against a host that accepts the
//! transmission and echoes the request payload back as a successful reply;
//! they state, and prove, that the bridge end to end reproduces the typed
//! arguments.

use vstd::prelude::*;
use vstd::string::StringExecFns;

use crate::callback::{callback, CallbackContext};
use crate::cell::CellStore;
use crate::codec::{
    decode_nat64_args, decode_nat64_text_args, decode_unit_args, encode_nat64_args,
    encode_nat64_text_args, encode_unit_args, nat64_args_decoded, nat64_args_wire,
    nat64_text_args_decoded, nat64_text_args_wire,
};
use crate::dispatch::{
    call_dispatched, call_raw_internal, high_word, low_word, split_payment, CallRegistration,
    CyclesAdded,
};
use crate::future::{CallFuture, CallPoll};
use crate::rejection::RejectionCode;
use crate::state::{CallResult, ResumeHandle};

verus! {

/// How a typed call fails once its outcome has arrived.
#[derive(Debug, PartialEq, Eq)]
pub enum CallError {
    /// The call was rejected, synchronously or by the callee, with the
    /// recorded code and message.
    Rejected(RejectionCode, String),
    /// The reply bytes did not decode as the expected type: a protocol
    /// mismatch with the callee.
    DecodeFailed,
}

/// Turns a resolved raw outcome into a typed 64-bit natural result:
/// rejections pass through verbatim, a reply yields exactly what the
/// decoder makes of its bytes — the value, or the malformed-reply error.
pub fn finish_call_nat64(outcome: CallResult<Vec<u8>>) -> (r: Result<u64, CallError>)
    ensures
        outcome matches Err((c, m)) ==> r == Err::<u64, CallError>(CallError::Rejected(c, m)),
        outcome matches Ok(b) ==> r == match nat64_args_decoded(b@) {
            Some(x) => Ok::<u64, CallError>(x),
            None => Err::<u64, CallError>(CallError::DecodeFailed),
        },
        outcome matches Ok(b) ==> (forall|x: u64|
            b@ == #[trigger] nat64_args_wire(x) ==> r == Ok::<u64, CallError>(x)),
{
    match outcome {
        Ok(bytes) => match decode_nat64_args(&bytes) {
            Some(x) => Ok(x),
            None => Err(CallError::DecodeFailed),
        },
        Err((c, m)) => Err(CallError::Rejected(c, m)),
    }
}

/// Turns a resolved raw outcome into a typed pair result, as
/// [`finish_call_nat64`] does for a single value.
pub fn finish_call_nat64_text(outcome: CallResult<Vec<u8>>) -> (r: Result<(u64, String), CallError>)
    ensures
        outcome matches Err((c, m)) ==> r == Err::<(u64, String), CallError>(
            CallError::Rejected(c, m),
        ),
        outcome matches Ok(b) ==> {
            &&& (nat64_text_args_decoded(b@) is None ==> r == Err::<(u64, String), CallError>(
                CallError::DecodeFailed,
            ))
            &&& (nat64_text_args_decoded(b@) matches Some(q) ==> {
                &&& r is Ok
                &&& r.unwrap().0 == q.0
                &&& r.unwrap().1@ == q.1
            })
        },
        outcome matches Ok(b) ==> (forall|x: u64, t: Seq<char>|
            b@ == #[trigger] nat64_text_args_wire(x, t) ==> {
                &&& r is Ok
                &&& r.unwrap().0 == x
                &&& r.unwrap().1@ == t
            }),
{
    match outcome {
        Ok(bytes) => match decode_nat64_text_args(&bytes) {
            Some(p) => Ok(p),
            None => Err(CallError::DecodeFailed),
        },
        Err((c, m)) => Err(CallError::Rejected(c, m)),
    }
}

/// The fixed diagnostic paired with inbound argument data that does not
/// decode.
pub open spec fn decode_failure_note() -> Seq<char> {
    "Failed to decode arguments"@
}

/// The typed result of the current inbound response, read from the host's
/// accessors: on a zero rejection code, exactly what the decoder makes of
/// the argument data; otherwise the rejection message.
pub fn msg_result_nat64(ctx: CallbackContext) -> (r: Result<u64, String>)
    ensures
        ctx.reject_code != 0 ==> r == Err::<u64, String>(ctx.reject_message),
        ctx.reject_code == 0 ==> {
            &&& (nat64_args_decoded(ctx.arg_data@) matches Some(x) ==> r == Ok::<u64, String>(x))
            &&& (nat64_args_decoded(ctx.arg_data@) is None ==> (r matches Err(m) && m@
                == decode_failure_note()))
        },
{
    if ctx.reject_code == 0 {
        match decode_nat64_args(&ctx.arg_data) {
            Some(x) => Ok(x),
            None => Err(String::from_str("Failed to decode arguments")),
        }
    } else {
        Err(ctx.reject_message)
    }
}

/// A typed call carrying one 64-bit natural argument and no payment:
/// encodes the argument — which cannot fail for this shape — and
/// dispatches.
pub fn call_nat64(
    store: &mut CellStore,
    callee: Vec<u8>,
    method: String,
    x: u64,
    err_code: i32,
) -> (r: (CallFuture, CallRegistration))
    ensures
        call_dispatched(
            *old(store),
            *final(store),
            r.0,
            r.1,
            callee,
            method,
            r.1.payload,
            CyclesAdded::NotAdded,
            err_code,
        ),
        r.1.payload@ == nat64_args_wire(x),
{
    match encode_nat64_args(x) {
        Some(bytes) => call_raw_internal(
            store,
            callee,
            method,
            bytes,
            CyclesAdded::NotAdded,
            err_code,
        ),
        None => vstd::pervasive::unreached(),
    }
}

/// As [`call_nat64`], paying a 64-bit cycle amount with the call.
pub fn call_nat64_with_payment(
    store: &mut CellStore,
    callee: Vec<u8>,
    method: String,
    x: u64,
    payment: u64,
    err_code: i32,
) -> (r: (CallFuture, CallRegistration))
    ensures
        call_dispatched(
            *old(store),
            *final(store),
            r.0,
            r.1,
            callee,
            method,
            r.1.payload,
            if payment > 0 {
                CyclesAdded::Added(payment)
            } else {
                CyclesAdded::NotAdded
            },
            err_code,
        ),
        r.1.payload@ == nat64_args_wire(x),
{
    let cycles = if payment > 0 {
        CyclesAdded::Added(payment)
    } else {
        CyclesAdded::NotAdded
    };
    match encode_nat64_args(x) {
        Some(bytes) => call_raw_internal(store, callee, method, bytes, cycles, err_code),
        None => vstd::pervasive::unreached(),
    }
}

/// As [`call_nat64`], paying a 128-bit cycle amount with the call: a
/// positive amount reaches the host split into its high and low words.
pub fn call_nat64_with_payment128(
    store: &mut CellStore,
    callee: Vec<u8>,
    method: String,
    x: u64,
    payment: u128,
    err_code: i32,
) -> (r: (CallFuture, CallRegistration))
    ensures
        call_dispatched(
            *old(store),
            *final(store),
            r.0,
            r.1,
            callee,
            method,
            r.1.payload,
            r.1.cycles,
            err_code,
        ),
        r.1.payload@ == nat64_args_wire(x),
        payment == 0 ==> r.1.cycles == CyclesAdded::NotAdded,
        payment > 0 ==> {
            &&& r.1.cycles matches CyclesAdded::Added128(high, low)
            &&& high as u128 == high_word(payment)
            &&& low as u128 == low_word(payment)
        },
{
    let cycles = if payment > 0 {
        let (high, low) = split_payment(payment);
        CyclesAdded::Added128(high, low)
    } else {
        CyclesAdded::NotAdded
    };
    match encode_nat64_args(x) {
        Some(bytes) => call_raw_internal(store, callee, method, bytes, cycles, err_code),
        None => vstd::pervasive::unreached(),
    }
}

/// Drives one raw call against a loopback host: the transmission is
/// accepted, and the completion entry point then fires with no error,
/// carrying the request payload back as the reply.  The future provably
/// resolves to exactly the request bytes.
pub fn loopback_call_raw(
    store: &mut CellStore,
    callee: Vec<u8>,
    method: String,
    args: Vec<u8>,
) -> (r: CallResult<Vec<u8>>)
    ensures
        r == Ok::<Vec<u8>, (RejectionCode, String)>(args),
{
    let (fut, reg) = call_raw_internal(store, callee, method, args, CyclesAdded::NotAdded, 0);
    let CallRegistration { payload, token, .. } = reg;
    let ctx = CallbackContext {
        reject_code: 0,
        arg_data: payload,
        reject_message: String::from_str(""),
    };
    let _ = callback(store, token, ctx);
    match fut.poll(store, ResumeHandle { task: 0 }) {
        CallPoll::Ready(outcome) => outcome,
        CallPoll::Pending => vstd::pervasive::unreached(),
    }
}

/// Law: the round trip.  Encoding a 64-bit natural, transmitting it, and
/// decoding the bytes a loopback host echoes back as a successful reply
/// reproduces the argument, always.
pub fn loopback_call_nat64(
    store: &mut CellStore,
    callee: Vec<u8>,
    method: String,
    x: u64,
) -> (r: Result<u64, CallError>)
    ensures
        r == Ok::<u64, CallError>(x),
{
    match encode_nat64_args(x) {
        Some(bytes) => {
            let outcome = loopback_call_raw(store, callee, method, bytes);
            finish_call_nat64(outcome)
        },
        None => vstd::pervasive::unreached(),
    }
}

/// Law: the round trip for the empty argument tuple, as
/// [`loopback_call_nat64`] states it for a single value.
pub fn loopback_call_unit(store: &mut CellStore, callee: Vec<u8>, method: String) -> (r: Result<
    (),
    CallError,
>)
    ensures
        r == Ok::<(), CallError>(()),
{
    match encode_unit_args() {
        Some(bytes) => {
            let outcome = loopback_call_raw(store, callee, method, bytes);
            match outcome {
                Ok(reply) => {
                    if decode_unit_args(&reply) {
                        Ok(())
                    } else {
                        vstd::pervasive::unreached()
                    }
                },
                Err(_) => vstd::pervasive::unreached(),
            }
        },
        None => vstd::pervasive::unreached(),
    }
}

/// Law: the round trip for a pair of a 64-bit natural and a text, as
/// [`loopback_call_nat64`] states it for a single value.
pub fn loopback_call_nat64_text(
    store: &mut CellStore,
    callee: Vec<u8>,
    method: String,
    x: u64,
    s: String,
) -> (r: Result<(u64, String), CallError>)
    ensures
        r is Ok,
        r matches Ok(p) ==> {
            &&& p.0 == x
            &&& p.1@ == s@
        },
{
    match encode_nat64_text_args(x, &s) {
        Some(bytes) => {
            let outcome = loopback_call_raw(store, callee, method, bytes);
            finish_call_nat64_text(outcome)
        },
        None => vstd::pervasive::unreached(),
    }
}

} // verus!
