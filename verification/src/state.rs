//! The per-call shared state: one recorded outcome and one resumption handle.

use vstd::prelude::*;

use crate::rejection::RejectionCode;

verus! {

/// The result of a call: the raw reply bytes on success, otherwise a
/// rejection code paired with its message.
pub type CallResult<R> = Result<R, (RejectionCode, String)>;

/// The opaque token a suspended task leaves behind so that the scheduler
/// knows which task to re-poll once the call's outcome arrives.
#[derive(Debug, Clone, Copy, PartialEq, Eq, Structural)]
pub struct ResumeHandle {
    pub task: u64,
}

/// State shared between the pollable future and the host-invoked entry
/// points for one in-flight call.
///
/// `result` is written exactly once: by the completion or cleanup entry
/// point, or by the dispatch routine itself when transmission fails
/// synchronously.  `waker` holds the resumption handle of the task that last
/// polled the future while no outcome was recorded.
pub struct CallFutureState {
    pub result: Option<CallResult<Vec<u8>>>,
    pub waker: Option<ResumeHandle>,
}

impl CallFutureState {
    /// A state with no outcome and no stored resumption handle, as built
    /// immediately before a call is registered with the host.
    pub fn empty() -> (s: Self)
        ensures
            s.result is None,
            s.waker is None,
    {
        CallFutureState { result: None, waker: None }
    }

    /// Records `outcome` if none is recorded yet and reports whether it was
    /// recorded.  An outcome already present is never overwritten: a second
    /// recording attempt leaves the state untouched and is rejected.
    pub fn record_outcome(&mut self, outcome: CallResult<Vec<u8>>) -> (fresh: bool)
        ensures
            old(self).result is None ==> {
                &&& fresh
                &&& final(self).result == Some(outcome)
                &&& final(self).waker == old(self).waker
            },
            old(self).result is Some ==> {
                &&& !fresh
                &&& *final(self) == *old(self)
            },
    {
        if self.result.is_none() {
            self.result = Some(outcome);
            true
        } else {
            false
        }
    }

    /// Takes the stored resumption handle out, leaving none behind.
    pub fn take_waker(&mut self) -> (w: Option<ResumeHandle>)
        ensures
            w == old(self).waker,
            final(self).waker is None,
            final(self).result == old(self).result,
    {
        let w = self.waker;
        self.waker = None;
        w
    }
}

} // verus!
