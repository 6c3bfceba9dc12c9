//! The pollable object returned to application code for one outbound call.

use vstd::prelude::*;

use crate::cell::{same_slots_except, CellStore, WasmCell};
use crate::state::{CallResult, ResumeHandle};

verus! {

/// What one poll of a [`CallFuture`] reports.
pub enum CallPoll {
    /// The outcome has arrived and is handed out.
    Ready(CallResult<Vec<u8>>),
    /// No outcome yet; the caller's resumption handle was stored and the
    /// task should suspend (return control to its scheduler — polling never
    /// blocks, the host model offers no blocking primitive).
    Pending,
}

/// The pollable object for one outbound call.  Stateless beyond one share
/// of the call's cell: its only role is to observe the recorded outcome
/// and, while none is there, to install the current resumption handle.
pub struct CallFuture {
    pub state: WasmCell,
}

impl CallFuture {
    /// The future's share of the call's cell is still live in `store`.
    pub open spec fn live(self, store: CellStore) -> bool {
        self.state.live(store)
    }

    /// Polls the call.  Once an outcome is recorded, it is taken out and
    /// returned: the future resolves exactly once, and a later poll finds
    /// the cell empty again and suspends.  While no outcome is recorded,
    /// `handle` is stored (replacing any previously stored handle) and the
    /// poll reports [`CallPoll::Pending`].
    pub fn poll(&self, store: &mut CellStore, handle: ResumeHandle) -> (r: CallPoll)
        requires
            self.state.live(*old(store)),
        ensures
            same_slots_except(*old(store), *final(store), self.state.idx as int),
            final(store).slots@[self.state.idx as int].shares == old(store).slots@[self.state.idx
                as int].shares,
            final(store).slots@[self.state.idx as int].raws == old(store).slots@[self.state.idx
                as int].raws,
            final(store).slots@[self.state.idx as int].value is Some,
            old(store).state_at(self.state.idx as int).result matches Some(res) ==> {
                &&& r == CallPoll::Ready(res)
                &&& final(store).state_at(self.state.idx as int).result is None
                &&& final(store).state_at(self.state.idx as int).waker == old(store).state_at(
                    self.state.idx as int,
                ).waker
            },
            old(store).state_at(self.state.idx as int).result is None ==> {
                &&& r == CallPoll::Pending
                &&& final(store).state_at(self.state.idx as int).result is None
                &&& final(store).state_at(self.state.idx as int).waker == Some(handle)
            },
    {
        let st = self.state.borrow_mut(store);
        let mut taken: Option<CallResult<Vec<u8>>> = None;
        core::mem::swap(&mut taken, &mut st.result);
        match taken {
            Some(res) => CallPoll::Ready(res),
            None => {
                st.waker = Some(handle);
                CallPoll::Pending
            },
        }
    }
}

} // verus!
