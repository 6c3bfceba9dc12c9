//! The dispatch routine: registering one outbound call with the host.
//!
//! Dispatch builds the call's shared cell, lends one share to the host as a
//! raw token (the same token serves the completion and the cleanup entry
//! point — both must mutate the same storage), and describes what the host
//! received as a plain [`CallRegistration`] value.  The synchronous code the
//! host's transmit primitive returned enters as an argument: a zero code
//! means a callback will fire later, a non-zero code means the call was
//! rejected before any callback was scheduled, and dispatch itself must then
//! record the outcome — the one path where the bridge, not a callback,
//! writes it.

use vstd::prelude::*;
use vstd::string::StringExecFns;

use crate::cell::{CellStore, CellToken, WasmCell};
use crate::future::CallFuture;
use crate::rejection::{rejection_of, RejectionCode};
use crate::state::{CallFutureState, CallResult};

verus! {

/// What reached the host's cycle-crediting primitives for one call.
#[derive(Debug, Clone, Copy, PartialEq, Eq, Structural)]
pub enum CyclesAdded {
    /// No payment was attached; the crediting primitive was not invoked.
    NotAdded,
    /// A 64-bit amount, credited through the single-word primitive.
    Added(u64),
    /// A 128-bit amount, credited as its high and low 64-bit words.
    Added128(u64, u64),
}

/// What the host received when the call was registered: the callee identity
/// bytes, the method name, the request payload, the attached payment, and
/// the raw token registered as user data for both entry points.
pub struct CallRegistration {
    pub callee: Vec<u8>,
    pub method: String,
    pub payload: Vec<u8>,
    pub cycles: CyclesAdded,
    pub token: CellToken,
}

/// The high 64-bit word of a 128-bit cycle amount.
pub open spec fn high_word(amount: u128) -> u128 {
    amount >> 64
}

/// The low 64-bit word of a 128-bit cycle amount.
pub open spec fn low_word(amount: u128) -> u128 {
    amount & 0xffff_ffff_ffff_ffff
}

/// Law: the two 64-bit words of a 128-bit cycle amount each fit in a word
/// and recombine to exactly the original amount.
pub proof fn lemma_words_recombine(amount: u128)
    ensures
        high_word(amount) < 0x1_0000_0000_0000_0000,
        low_word(amount) < 0x1_0000_0000_0000_0000,
        high_word(amount) * 0x1_0000_0000_0000_0000 + low_word(amount) == amount,
{
    assert((amount >> 64) < 0x1_0000_0000_0000_0000) by (bit_vector);
    assert((amount & 0xffff_ffff_ffff_ffff) < 0x1_0000_0000_0000_0000) by (bit_vector);
    assert(amount == ((amount >> 64) << 64) | (amount & 0xffff_ffff_ffff_ffff)) by (bit_vector);
    assert(((amount >> 64) << 64) | (amount & 0xffff_ffff_ffff_ffff) == (amount >> 64)
        * 0x1_0000_0000_0000_0000 + (amount & 0xffff_ffff_ffff_ffff)) by (bit_vector);
}

/// Splits a 128-bit cycle amount into its high and low 64-bit words, the
/// form in which the host's 128-bit crediting primitive takes it.
pub fn split_payment(amount: u128) -> (r: (u64, u64))
    ensures
        r.0 as u128 == high_word(amount),
        r.1 as u128 == low_word(amount),
{
    proof {
        assert((((amount >> 64) as u64) as u128) == amount >> 64) by (bit_vector);
        assert((((amount & 0xffff_ffff_ffff_ffff) as u64) as u128) == (amount
            & 0xffff_ffff_ffff_ffff)) by (bit_vector);
    }
    let high = (amount >> 64) as u64;
    let low = (amount & 0xffff_ffff_ffff_ffff) as u64;
    (high, low)
}

/// The fixed diagnostic paired with a synchronous transmission failure.
pub open spec fn send_failure_note() -> Seq<char> {
    "Couldn't send message"@
}

/// What dispatch records in the fresh cell for a given synchronous
/// transmission code: nothing on zero (a callback will fire later),
/// otherwise a rejection carrying that code's classification and the fixed
/// diagnostic — no callback will ever fire for such a call.
pub open spec fn dispatch_recorded(err_code: i32, result: Option<CallResult<Vec<u8>>>) -> bool {
    if err_code == 0 {
        result is None
    } else {
        &&& result matches Some(r)
        &&& r matches Err((c, m))
        &&& c == rejection_of(err_code)
        &&& m@ == send_failure_note()
    }
}

/// Law: a call whose synchronous transmission returns a non-zero code is
/// already resolved when dispatch returns — the cell holds a rejection
/// carrying that code's classification and the fixed diagnostic, before
/// any callback could have fired — so the future's first poll is ready.
pub proof fn lemma_sync_failure_resolves_immediately(
    err_code: i32,
    result: Option<CallResult<Vec<u8>>>,
)
    requires
        err_code != 0,
        dispatch_recorded(err_code, result),
    ensures
        result matches Some(r) && r matches Err((c, m)) && c == rejection_of(err_code) && m@
            == send_failure_note(),
{
}

/// Full contract of dispatch: a fresh cell was appended whose two shares
/// are the returned future and the registered token, the registration
/// carries the inputs verbatim, and the cell's outcome slot reflects the
/// synchronous transmission code.
pub open spec fn call_dispatched(
    pre: CellStore,
    post: CellStore,
    fut: CallFuture,
    reg: CallRegistration,
    callee: Vec<u8>,
    method: String,
    args: Vec<u8>,
    cycles: CyclesAdded,
    err_code: i32,
) -> bool {
    let idx = pre.slots@.len() as int;
    &&& reg.callee == callee
    &&& reg.method == method
    &&& reg.payload == args
    &&& reg.cycles == cycles
    &&& post.slots@.len() == pre.slots@.len() + 1
    &&& forall|j: int| 0 <= j < pre.slots@.len() ==> post.slots@[j] == pre.slots@[j]
    &&& fut.state.idx == idx
    &&& reg.token.idx == idx
    &&& post.slots@[idx].shares == 1
    &&& post.slots@[idx].raws == 1
    &&& post.slots@[idx].value is Some
    &&& post.state_at(idx).waker is None
    &&& dispatch_recorded(err_code, post.state_at(idx).result)
}

/// Registers one call with the host.  `err_code` is what the host's
/// transmit primitive returned synchronously.  Returns the pollable future
/// over the (possibly already-resolved) cell, and the registration record.
pub fn call_raw_internal(
    store: &mut CellStore,
    callee: Vec<u8>,
    method: String,
    args: Vec<u8>,
    cycles: CyclesAdded,
    err_code: i32,
) -> (r: (CallFuture, CallRegistration))
    ensures
        call_dispatched(
            *old(store),
            *final(store),
            r.0,
            r.1,
            callee,
            method,
            args,
            cycles,
            err_code,
        ),
{
    let state = WasmCell::new(store, CallFutureState::empty());
    let extra = state.clone_share(store);
    let token = extra.into_raw(store);
    if err_code != 0 {
        let st = state.borrow_mut(store);
        let _ = st.record_outcome(
            Err((RejectionCode::from(err_code), String::from_str("Couldn't send message"))),
        );
    }
    (CallFuture { state }, CallRegistration { callee, method, payload: args, cycles, token })
}

/// Dispatch with an optional 64-bit payment: a positive amount reaches the
/// host through the single-word crediting primitive, a zero amount skips it.
pub fn call_raw(
    store: &mut CellStore,
    callee: Vec<u8>,
    method: String,
    args: Vec<u8>,
    payment: u64,
    err_code: i32,
) -> (r: (CallFuture, CallRegistration))
    ensures
        call_dispatched(
            *old(store),
            *final(store),
            r.0,
            r.1,
            callee,
            method,
            args,
            if payment > 0 {
                CyclesAdded::Added(payment)
            } else {
                CyclesAdded::NotAdded
            },
            err_code,
        ),
{
    let cycles = if payment > 0 {
        CyclesAdded::Added(payment)
    } else {
        CyclesAdded::NotAdded
    };
    call_raw_internal(store, callee, method, args, cycles, err_code)
}

/// Dispatch with an optional 128-bit payment: a positive amount is split
/// into its high and low words and reaches the host through the two-word
/// crediting primitive, a zero amount skips it.
pub fn call_raw128(
    store: &mut CellStore,
    callee: Vec<u8>,
    method: String,
    args: Vec<u8>,
    payment: u128,
    err_code: i32,
) -> (r: (CallFuture, CallRegistration))
    ensures
        call_dispatched(
            *old(store),
            *final(store),
            r.0,
            r.1,
            callee,
            method,
            args,
            r.1.cycles,
            err_code,
        ),
        payment == 0 ==> r.1.cycles == CyclesAdded::NotAdded,
        payment > 0 ==> {
            &&& r.1.cycles matches CyclesAdded::Added128(high, low)
            &&& high as u128 == high_word(payment)
            &&& low as u128 == low_word(payment)
        },
{
    let cycles = if payment > 0 {
        let (high, low) = split_payment(payment);
        CyclesAdded::Added128(high, low)
    } else {
        CyclesAdded::NotAdded
    };
    call_raw_internal(store, callee, method, args, cycles, err_code)
}

} // verus!
