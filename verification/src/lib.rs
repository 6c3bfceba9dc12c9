//! A bridge between a callback-based host messaging interface and a
//! suspend/resume (poll-based) programming model.
//!
//! Guest code issues an outbound call by registering a completion and a
//! cleanup entry point with the host, together with an opaque token; the host
//! later invokes exactly one of the two, asynchronously, with no call-stack
//! continuity to the initiator.  This crate turns that protocol into a
//! pollable future: a reference-counted state cell is shared between the
//! future and the registered entry points, whichever entry point fires
//! records the outcome exactly once, and the future observes it on its next
//! poll.
//!
//! The host itself (transmission, callback scheduling, the accessors for the
//! current message) lives outside this crate; its decisions enter the bridge
//! as plain values: the synchronous code its transmit primitive returned, and
//! the code, reply bytes and rejection message it attaches to a callback
//! invocation.  A driver, such as a test harness or a scheduler, owns the
//! [`cell::CellStore`] that backs every cell and plays the host's part.

pub mod callback;
pub mod cell;
pub mod codec;
pub mod dispatch;
pub mod future;
pub mod rejection;
pub mod reply;
pub mod state;
pub mod typed;
