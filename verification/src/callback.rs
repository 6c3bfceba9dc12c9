//! The two host-invoked entry points of the bridge.
//!
//! The host invokes exactly one of the two for a given call, exactly once:
//! the completion entry point when a reply or reject arrives, the cleanup
//! entry point when a prior trap made the completion path untrustworthy.
//! Both reconstruct the cell share from the registered token, record the
//! outcome, and hand any stored resumption handle back to the scheduler —
//! resumption is signalled, never executed here.  What the host attaches to
//! the invocation (the rejection code, the reply bytes, the rejection
//! message) enters as a plain [`CallbackContext`] value.

use vstd::prelude::*;

use crate::cell::{same_slots_except, CellStore, CellToken, WasmCell};
use crate::future::{CallFuture, CallPoll};
use crate::rejection::{rejection_of, RejectionCode};
use crate::state::{CallResult, ResumeHandle};

verus! {

/// What the host's accessors yield during one callback invocation: the
/// rejection code of the response, the raw reply bytes (meaningful on a
/// zero code), and the rejection message (meaningful on a non-zero code).
pub struct CallbackContext {
    pub reject_code: i32,
    pub arg_data: Vec<u8>,
    pub reject_message: String,
}

/// The outcome a completion with context `ctx` records: the reply bytes on
/// a zero code, otherwise the code's classification paired with the message.
pub open spec fn completion_outcome(ctx: CallbackContext) -> CallResult<Vec<u8>> {
    if ctx.reject_code == 0 {
        Ok(ctx.arg_data)
    } else {
        Err((rejection_of(ctx.reject_code), ctx.reject_message))
    }
}

/// What an entry point asks of the scheduler afterwards: which task to
/// resume, and whether the resumed task must only unwind and be dropped
/// instead of executing its remaining continuation logic.
#[derive(Debug, Clone, Copy, PartialEq, Eq, Structural)]
pub struct WakeSignal {
    pub handle: ResumeHandle,
    pub suppress_continuation: bool,
}

/// Common contract of the two entry points on the store: the token's share
/// is reclaimed and released, the outcome is recorded exactly once, and the
/// stored resumption handle is taken out and handed back.  When the token
/// was the last share (the future was abandoned), the cell is freed instead.
pub open spec fn outcome_delivered(
    pre: CellStore,
    post: CellStore,
    idx: int,
    ctx: CallbackContext,
    w: Option<WakeSignal>,
) -> bool {
    &&& same_slots_except(pre, post, idx)
    &&& post.slots@[idx].shares == pre.slots@[idx].shares
    &&& post.slots@[idx].raws == pre.slots@[idx].raws - 1
    &&& (w is Some <==> pre.state_at(idx).waker is Some)
    &&& (w matches Some(s) ==> pre.state_at(idx).waker == Some(s.handle))
    &&& if pre.slots@[idx].total_shares() == 1 {
        post.slots@[idx].value is None
    } else {
        &&& post.slots@[idx].value is Some
        &&& post.state_at(idx).waker is None
        &&& post.state_at(idx).result == if pre.state_at(idx).result is None {
            Some(completion_outcome(ctx))
        } else {
            pre.state_at(idx).result
        }
    }
}

/// The completion entry point, invoked by the host when a reply or reject
/// for the call arrives.  Records [`completion_outcome`] and signals an
/// ordinary wake: the scheduler may drive the task's continuation normally.
pub fn callback(store: &mut CellStore, token: CellToken, ctx: CallbackContext) -> (w: Option<
    WakeSignal,
>)
    requires
        token.live(*old(store)),
        old(store).slots@[token.idx as int].shares < u64::MAX,
    ensures
        outcome_delivered(*old(store), *final(store), token.idx as int, ctx, w),
        w matches Some(s) ==> !s.suppress_continuation,
{
    let state = WasmCell::from_raw(store, token);
    let outcome: CallResult<Vec<u8>> = if ctx.reject_code == 0 {
        Ok(ctx.arg_data)
    } else {
        Err((RejectionCode::from(ctx.reject_code), ctx.reject_message))
    };
    let st = state.borrow_mut(store);
    let _ = st.record_outcome(outcome);
    let handle = st.take_waker();
    let _ = state.release(store);
    match handle {
        Some(h) => Some(WakeSignal { handle: h, suppress_continuation: false }),
        None => None,
    }
}

/// The cleanup entry point, invoked by the host instead of [`callback`]
/// when normal completion is impossible (typically: a prior attempt to run
/// the completion entry point trapped).  State reconstruction and outcome
/// recording are identical — the slot needs some value before release even
/// if the application discards it — but any wake it emits carries the
/// suppression flag: the scheduler must resume the task only far enough to
/// unwind and drop it, because its continuation ran in a context where a
/// trap already indicated inconsistent state.
pub fn cleanup(store: &mut CellStore, token: CellToken, ctx: CallbackContext) -> (w: Option<
    WakeSignal,
>)
    requires
        token.live(*old(store)),
        old(store).slots@[token.idx as int].shares < u64::MAX,
    ensures
        outcome_delivered(*old(store), *final(store), token.idx as int, ctx, w),
        w matches Some(s) ==> s.suppress_continuation,
{
    let state = WasmCell::from_raw(store, token);
    let outcome: CallResult<Vec<u8>> = if ctx.reject_code == 0 {
        Ok(ctx.arg_data)
    } else {
        Err((RejectionCode::from(ctx.reject_code), ctx.reject_message))
    };
    let st = state.borrow_mut(store);
    let _ = st.record_outcome(outcome);
    let handle = st.take_waker();
    let _ = state.release(store);
    match handle {
        Some(h) => Some(WakeSignal { handle: h, suppress_continuation: true }),
        None => None,
    }
}

/// Law: a call still awaiting its outcome resolves, once the host invokes
/// the completion entry point and the scheduler re-polls the woken task, to
/// exactly the completion's outcome — `Ok` of the reply bytes the host
/// supplied on a zero code, the classified code with its message otherwise.
pub fn completion_resolves_future(
    store: &mut CellStore,
    fut: &CallFuture,
    token: CellToken,
    ctx: CallbackContext,
) -> (r: CallResult<Vec<u8>>)
    requires
        fut.state.live(*old(store)),
        token.live(*old(store)),
        token.idx == fut.state.idx,
        old(store).slots@[token.idx as int].shares < u64::MAX,
        old(store).state_at(token.idx as int).result is None,
    ensures
        r == completion_outcome(ctx),
        same_slots_except(*old(store), *final(store), token.idx as int),
        final(store).slots@[token.idx as int].shares == old(store).slots@[token.idx as int].shares,
        final(store).slots@[token.idx as int].raws == old(store).slots@[token.idx as int].raws - 1,
        final(store).slots@[token.idx as int].value is Some,
        final(store).state_at(token.idx as int).result is None,
{
    let w = callback(store, token, ctx);
    let handle = match w {
        Some(sig) => sig.handle,
        None => ResumeHandle { task: 0 },
    };
    match fut.poll(store, handle) {
        CallPoll::Ready(outcome) => outcome,
        CallPoll::Pending => vstd::pervasive::unreached(),
    }
}

/// Law: a call that receives a completion with no error resolves to `Ok`
/// of exactly the reply bytes the host supplied at callback time.
pub proof fn lemma_no_error_completion_resolves_to_reply(ctx: CallbackContext)
    requires
        ctx.reject_code == 0,
    ensures
        completion_outcome(ctx) == Ok::<Vec<u8>, (RejectionCode, String)>(ctx.arg_data),
{
}

/// Law: a call that receives a completion with a non-zero code resolves to
/// `Err` of exactly the host-reported code's classification and message.
pub proof fn lemma_reject_completion_resolves_to_error(ctx: CallbackContext)
    requires
        ctx.reject_code != 0,
    ensures
        completion_outcome(ctx) == Err::<Vec<u8>, (RejectionCode, String)>(
            (rejection_of(ctx.reject_code), ctx.reject_message),
        ),
{
}

/// Law: delivering a completion into a call that still awaits its outcome,
/// while the future keeps a live share, records exactly
/// [`completion_outcome`] — so the future's next poll returns it.
pub proof fn lemma_delivery_records_completion_outcome(
    pre: CellStore,
    post: CellStore,
    idx: int,
    ctx: CallbackContext,
    w: Option<WakeSignal>,
)
    requires
        0 <= idx < pre.slots@.len(),
        pre.slots@[idx].value is Some,
        pre.state_at(idx).result is None,
        pre.slots@[idx].total_shares() > 1,
        outcome_delivered(pre, post, idx, ctx, w),
    ensures
        post.state_at(idx).result == Some(completion_outcome(ctx)),
{
}

} // verus!
