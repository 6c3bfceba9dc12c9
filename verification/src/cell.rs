//! A reference-counted cell with an explicit raw-token escape hatch.
//!
//! The host's callback model can only carry an opaque token from the point
//! where a call is registered to the single later invocation of one of its
//! entry points.  Ownership of the per-call state must therefore be lent out
//! as a bare value and reclaimed later.  Here that contract is made explicit
//! and checked: every cell lives in a slot of a [`CellStore`] owned by the
//! driver, a [`WasmCell`] is one counted share of a slot, and
//! [`WasmCell::into_raw`] / [`WasmCell::from_raw`] move one share into and
//! out of token form.  A [`CellToken`] is single-use by ownership, so a token
//! cannot be reconstructed twice.  The slot's storage is freed exactly when
//! the last share, raw tokens included, is released.
//!
//! The narrow capability surface — new, clone, scoped exclusive access, and
//! the raw round trip — is all that the call logic above is written
//! against, so any cell with these operations (a single-owner-thread form
//! or one synchronized for a host build that demands thread safety) can
//! stand behind it.

use vstd::prelude::*;

use crate::state::CallFutureState;

verus! {

/// One reference-counted slot backing a cell.
pub struct CellSlot {
    /// The cell's value; `None` once every share has been released.
    pub value: Option<CallFutureState>,
    /// Shares currently held as [`WasmCell`] handles.
    pub shares: u64,
    /// Shares currently lent out as raw [`CellToken`]s.
    pub raws: u64,
}

impl CellSlot {
    /// Total owning shares of this slot, raw tokens included.
    pub open spec fn total_shares(self) -> int {
        self.shares + self.raws
    }
}

/// The arena owning the storage of every cell.
///
/// The driver (scheduler, test harness) owns the store and passes it to each
/// operation; the handles themselves carry no storage.  Passing the store
/// explicitly is what makes the sharing verifiable: all access to a cell is
/// scoped and exclusive for the duration of one operation, which is exactly
/// the discipline the single-threaded host model imposes.
pub struct CellStore {
    pub slots: Vec<CellSlot>,
}

impl CellStore {
    /// An empty store with no cells.
    pub fn new() -> (s: Self)
        ensures
            s.slots@.len() == 0,
    {
        CellStore { slots: Vec::new() }
    }

    /// The value held by slot `i`; meaningful only while the slot is occupied.
    pub open spec fn state_at(self, i: int) -> CallFutureState {
        self.slots@[i].value.unwrap()
    }
}

/// All slots other than `i` coincide between `pre` and `post`, and the
/// number of slots is unchanged.
pub open spec fn same_slots_except(pre: CellStore, post: CellStore, i: int) -> bool {
    &&& post.slots@.len() == pre.slots@.len()
    &&& forall|j: int| 0 <= j < pre.slots@.len() && j != i ==> post.slots@[j] == pre.slots@[j]
}

/// An owning share of one reference-counted cell.
///
/// Cloning a share does not copy the cell: all shares of one slot read and
/// write the same storage.
pub struct WasmCell {
    pub idx: usize,
}

/// One share of a cell in suspended, raw form: produced by
/// [`WasmCell::into_raw`], consumed by [`WasmCell::from_raw`].  This is the
/// value registered with the host as the user data of the completion and
/// cleanup entry points.
pub struct CellToken {
    pub idx: usize,
}

impl CellToken {
    /// The token points at an occupied slot that counts it among its raw shares.
    pub open spec fn live(self, store: CellStore) -> bool {
        &&& (self.idx as int) < store.slots@.len()
        &&& store.slots@[self.idx as int].value is Some
        &&& store.slots@[self.idx as int].raws >= 1
    }
}

impl WasmCell {
    /// The handle points at an occupied slot that counts it among its shares.
    pub open spec fn live(self, store: CellStore) -> bool {
        &&& (self.idx as int) < store.slots@.len()
        &&& store.slots@[self.idx as int].value is Some
        &&& store.slots@[self.idx as int].shares >= 1
    }

    /// Allocates a fresh cell holding `val`, with the returned handle as its
    /// only share.
    pub fn new(store: &mut CellStore, val: CallFutureState) -> (c: WasmCell)
        ensures
            c.idx == old(store).slots@.len(),
            final(store).slots@ == old(store).slots@.push(
                (CellSlot { value: Some(val), shares: 1, raws: 0 }),
            ),
            c.live(*final(store)),
    {
        let idx = store.slots.len();
        store.slots.push(CellSlot { value: Some(val), shares: 1, raws: 0 });
        WasmCell { idx }
    }

    /// Creates another owning share of the same cell.
    pub fn clone_share(&self, store: &mut CellStore) -> (c: WasmCell)
        requires
            self.live(*old(store)),
            old(store).slots@[self.idx as int].shares < u64::MAX,
        ensures
            c.idx == self.idx,
            same_slots_except(*old(store), *final(store), self.idx as int),
            final(store).slots@[self.idx as int].value == old(store).slots@[self.idx as int].value,
            final(store).slots@[self.idx as int].raws == old(store).slots@[self.idx as int].raws,
            final(store).slots@[self.idx as int].shares == old(store).slots@[self.idx as int].shares
                + 1,
            c.live(*final(store)),
            self.live(*final(store)),
    {
        let slot = &mut store.slots[self.idx];
        slot.shares = slot.shares + 1;
        WasmCell { idx: self.idx }
    }

    /// Converts this share into a raw token, suspending its normal release.
    /// Reconstructing the share with [`WasmCell::from_raw`] resumes it.
    pub fn into_raw(self, store: &mut CellStore) -> (t: CellToken)
        requires
            self.live(*old(store)),
            old(store).slots@[self.idx as int].raws < u64::MAX,
        ensures
            t.idx == self.idx,
            same_slots_except(*old(store), *final(store), self.idx as int),
            final(store).slots@[self.idx as int].value == old(store).slots@[self.idx as int].value,
            final(store).slots@[self.idx as int].shares == old(store).slots@[self.idx as int].shares
                - 1,
            final(store).slots@[self.idx as int].raws == old(store).slots@[self.idx as int].raws
                + 1,
            t.live(*final(store)),
    {
        let slot = &mut store.slots[self.idx];
        slot.shares = slot.shares - 1;
        slot.raws = slot.raws + 1;
        CellToken { idx: self.idx }
    }

    /// Reconstructs an owning share from a token previously produced by
    /// [`WasmCell::into_raw`].  The token is consumed: ownership guarantees
    /// each token is reconstructed exactly once.
    pub fn from_raw(store: &mut CellStore, token: CellToken) -> (c: WasmCell)
        requires
            token.live(*old(store)),
            old(store).slots@[token.idx as int].shares < u64::MAX,
        ensures
            c.idx == token.idx,
            same_slots_except(*old(store), *final(store), token.idx as int),
            final(store).slots@[token.idx as int].value == old(store).slots@[token.idx
                as int].value,
            final(store).slots@[token.idx as int].shares == old(store).slots@[token.idx
                as int].shares + 1,
            final(store).slots@[token.idx as int].raws == old(store).slots@[token.idx as int].raws
                - 1,
            c.live(*final(store)),
    {
        let slot = &mut store.slots[token.idx];
        slot.shares = slot.shares + 1;
        slot.raws = slot.raws - 1;
        WasmCell { idx: token.idx }
    }

    /// The cell's stable address: two shares point at the same cell exactly
    /// when their addresses agree.
    pub fn as_ptr(&self) -> (p: usize)
        ensures
            p == self.idx,
    {
        self.idx
    }

    /// Exclusive, scoped access to the cell's value.  The access never
    /// suspends: it lasts for the lifetime of the returned borrow, which the
    /// caller must end before touching the store again.
    pub fn borrow_mut<'a>(&self, store: &'a mut CellStore) -> (v: &'a mut CallFutureState)
        requires
            self.live(*old(store)),
        ensures
            *v == old(store).state_at(self.idx as int),
            final(store).slots@ == old(store).slots@.update(
                self.idx as int,
                (CellSlot {
                    value: Some(*final(v)),
                    shares: old(store).slots@[self.idx as int].shares,
                    raws: old(store).slots@[self.idx as int].raws,
                }),
            ),
    {
        let slot = &mut store.slots[self.idx];
        match &mut slot.value {
            Some(v) => v,
            None => vstd::pervasive::unreached(),
        }
    }

    /// Releases this share.  When it is the last one, raw tokens included,
    /// the cell's storage is freed and its final value handed back.
    pub fn release(self, store: &mut CellStore) -> (freed: Option<CallFutureState>)
        requires
            self.live(*old(store)),
        ensures
            same_slots_except(*old(store), *final(store), self.idx as int),
            final(store).slots@[self.idx as int].shares == old(store).slots@[self.idx
                as int].shares - 1,
            final(store).slots@[self.idx as int].raws == old(store).slots@[self.idx as int].raws,
            old(store).slots@[self.idx as int].total_shares() == 1 ==> {
                &&& final(store).slots@[self.idx as int].value is None
                &&& freed == old(store).slots@[self.idx as int].value
            },
            old(store).slots@[self.idx as int].total_shares() > 1 ==> {
                &&& final(store).slots@[self.idx as int].value == old(store).slots@[self.idx
                    as int].value
                &&& freed is None
            },
    {
        let slot = &mut store.slots[self.idx];
        slot.shares = slot.shares - 1;
        if slot.shares == 0 && slot.raws == 0 {
            let mut freed: Option<CallFutureState> = None;
            core::mem::swap(&mut freed, &mut slot.value);
            freed
        } else {
            None
        }
    }
}

} // verus!
