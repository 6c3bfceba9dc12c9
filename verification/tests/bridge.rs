//! Scenario tests driving the bridge as the host and scheduler would.

use call_bridge::callback::{callback, cleanup, completion_resolves_future, CallbackContext};
use call_bridge::cell::{CellStore, WasmCell};
use call_bridge::dispatch::{call_raw, call_raw_internal, CallRegistration, CyclesAdded};
use call_bridge::future::CallPoll;
use call_bridge::rejection::RejectionCode;
use call_bridge::state::{CallFutureState, ResumeHandle};

fn no_error_ctx(reply: Vec<u8>) -> CallbackContext {
    CallbackContext {
        reject_code: 0,
        arg_data: reply,
        reject_message: String::new(),
    }
}

fn reject_ctx(code: i32, message: &str) -> CallbackContext {
    CallbackContext {
        reject_code: code,
        arg_data: Vec::new(),
        reject_message: message.to_string(),
    }
}

#[test]
fn completion_no_error_resolves_to_reply_bytes() {
    let mut store = CellStore::new();
    let (fut, reg) = call_raw(
        &mut store,
        vec![0xab],
        "greet".to_string(),
        vec![1, 2, 3],
        0,
        0,
    );
    assert!(matches!(
        fut.poll(&mut store, ResumeHandle { task: 3 }),
        CallPoll::Pending
    ));
    let CallRegistration { token, .. } = reg;
    let w = callback(&mut store, token, no_error_ctx(vec![9, 8, 7]));
    let sig = w.expect("a stored handle must be woken");
    assert_eq!(sig.handle, ResumeHandle { task: 3 });
    assert!(!sig.suppress_continuation);
    match fut.poll(&mut store, ResumeHandle { task: 3 }) {
        CallPoll::Ready(outcome) => assert_eq!(outcome, Ok(vec![9, 8, 7])),
        CallPoll::Pending => panic!("outcome was recorded"),
    }
}

#[test]
fn completion_reject_resolves_to_code_and_message() {
    let mut store = CellStore::new();
    let (fut, reg) = call_raw(&mut store, vec![], "greet".to_string(), vec![], 0, 0);
    let CallRegistration { token, .. } = reg;
    let w = callback(&mut store, token, reject_ctx(4, "denied"));
    assert!(w.is_none(), "nothing polled, so nothing to wake");
    match fut.poll(&mut store, ResumeHandle { task: 1 }) {
        CallPoll::Ready(outcome) => assert_eq!(
            outcome,
            Err((RejectionCode::CanisterReject, "denied".to_string()))
        ),
        CallPoll::Pending => panic!("outcome was recorded"),
    }
}

#[test]
fn sync_transmit_failure_resolves_immediately() {
    let mut store = CellStore::new();
    let (fut, reg) = call_raw(&mut store, vec![], "greet".to_string(), vec![], 0, 2);
    // No callback has been invoked: the host still holds the token.
    assert_eq!(store.slots[reg.token.idx].raws, 1);
    match fut.poll(&mut store, ResumeHandle { task: 1 }) {
        CallPoll::Ready(outcome) => assert_eq!(
            outcome,
            Err((
                RejectionCode::SysTransient,
                "Couldn't send message".to_string()
            ))
        ),
        CallPoll::Pending => panic!("a synchronous failure is ready before any callback"),
    }
}

#[test]
fn cleanup_wake_suppresses_continuation() {
    let mut store = CellStore::new();
    let (fut, reg) = call_raw(&mut store, vec![], "greet".to_string(), vec![], 0, 0);
    assert!(matches!(
        fut.poll(&mut store, ResumeHandle { task: 5 }),
        CallPoll::Pending
    ));
    let CallRegistration { token, .. } = reg;
    // The host determined the completion path trapped; cleanup fires instead.
    let w = cleanup(&mut store, token, reject_ctx(5, "trapped"));
    let sig = w.expect("the suspended task must still be resumed to unwind");
    assert_eq!(sig.handle, ResumeHandle { task: 5 });
    assert!(sig.suppress_continuation);
    // The scheduler's side of the contract: under suppression the task is
    // dropped without running its continuation past the last suspend point.
    let mut continuation_ran = false;
    if !sig.suppress_continuation {
        let _ = fut.poll(&mut store, sig.handle);
        continuation_ran = true;
    } else {
        // Drop the task: release the future's share without polling it.
        let _ = fut.state.release(&mut store);
    }
    assert!(!continuation_ran);
    // Both shares are gone; the cell was freed.
    assert!(store.slots[0].value.is_none());
}

#[test]
fn outcome_recorded_exactly_once() {
    let mut state = CallFutureState::empty();
    assert!(state.record_outcome(Ok(vec![1])));
    assert!(!state.record_outcome(Ok(vec![2])));
    assert!(!state.record_outcome(Err((RejectionCode::SysFatal, "late".to_string()))));
    assert_eq!(state.result, Some(Ok(vec![1])));
}

#[test]
fn second_recording_through_the_cell_is_rejected() {
    let mut store = CellStore::new();
    let (fut, reg) = call_raw(&mut store, vec![], "greet".to_string(), vec![], 0, 0);
    let CallRegistration { token, .. } = reg;
    let _ = callback(&mut store, token, no_error_ctx(vec![7]));
    // Simulated host misbehavior: a second outcome for the same cell.
    let fresh = fut
        .state
        .borrow_mut(&mut store)
        .record_outcome(Err((RejectionCode::Unknown(9), "again".to_string())));
    assert!(!fresh);
    match fut.poll(&mut store, ResumeHandle { task: 1 }) {
        CallPoll::Ready(outcome) => assert_eq!(outcome, Ok(vec![7])),
        CallPoll::Pending => panic!("the first outcome is preserved"),
    }
}

#[test]
fn resolved_future_suspends_again_after_consumption() {
    let mut store = CellStore::new();
    let (fut, reg) = call_raw(&mut store, vec![], "greet".to_string(), vec![], 0, 0);
    let CallRegistration { token, .. } = reg;
    let _ = callback(&mut store, token, no_error_ctx(vec![1]));
    assert!(matches!(
        fut.poll(&mut store, ResumeHandle { task: 1 }),
        CallPoll::Ready(_)
    ));
    // The outcome is taken out on first observation.
    assert!(matches!(
        fut.poll(&mut store, ResumeHandle { task: 2 }),
        CallPoll::Pending
    ));
}

#[test]
fn any_completion_resolves_to_its_outcome() {
    let mut store = CellStore::new();
    let (fut, reg) = call_raw(&mut store, vec![], "greet".to_string(), vec![], 0, 0);
    let CallRegistration { token, .. } = reg;
    let outcome = completion_resolves_future(&mut store, &fut, token, no_error_ctx(vec![4, 2]));
    assert_eq!(outcome, Ok(vec![4, 2]));

    let (fut2, reg2) = call_raw(&mut store, vec![], "greet".to_string(), vec![], 0, 0);
    let CallRegistration { token: token2, .. } = reg2;
    let outcome2 = completion_resolves_future(&mut store, &fut2, token2, reject_ctx(2, "later"));
    assert_eq!(
        outcome2,
        Err((RejectionCode::SysTransient, "later".to_string()))
    );
}

#[test]
fn rejection_code_mapping() {
    assert_eq!(RejectionCode::from(0), RejectionCode::NoError);
    assert_eq!(RejectionCode::from(1), RejectionCode::SysFatal);
    assert_eq!(RejectionCode::from(2), RejectionCode::SysTransient);
    assert_eq!(RejectionCode::from(3), RejectionCode::DestinationInvalid);
    assert_eq!(RejectionCode::from(4), RejectionCode::CanisterReject);
    assert_eq!(RejectionCode::from(5), RejectionCode::CanisterError);
    assert_eq!(RejectionCode::from(6), RejectionCode::Unknown(6));
    assert_eq!(RejectionCode::from(-1), RejectionCode::Unknown(-1));
    assert_eq!(RejectionCode::from(3u32), RejectionCode::DestinationInvalid);
    assert_eq!(RejectionCode::from(u32::MAX), RejectionCode::Unknown(-1));
}

#[test]
fn cell_shares_and_tokens_count_down_to_release() {
    let mut store = CellStore::new();
    let a = WasmCell::new(&mut store, CallFutureState::empty());
    let b = a.clone_share(&mut store);
    assert_eq!(a.as_ptr(), b.as_ptr());
    let token = b.into_raw(&mut store);
    assert_eq!(store.slots[0].shares, 1);
    assert_eq!(store.slots[0].raws, 1);
    assert!(a.release(&mut store).is_none());
    let c = WasmCell::from_raw(&mut store, token);
    let freed = c.release(&mut store);
    let last = freed.expect("the last share frees the cell and hands its value back");
    assert!(last.result.is_none());
    assert!(store.slots[0].value.is_none());
}

#[test]
fn abandoned_future_is_freed_by_the_callback() {
    let mut store = CellStore::new();
    let (fut, reg) = call_raw_internal(
        &mut store,
        vec![],
        "greet".to_string(),
        vec![],
        CyclesAdded::NotAdded,
        0,
    );
    // The application drops the future without polling it to completion.
    assert!(fut.state.release(&mut store).is_none());
    // The cell stays alive under the host's outstanding share...
    assert!(store.slots[0].value.is_some());
    let CallRegistration { token, .. } = reg;
    // ...until the callback fires, after which it is fully released.
    let w = callback(&mut store, token, no_error_ctx(vec![1]));
    assert!(w.is_none());
    assert!(store.slots[0].value.is_none());
}
