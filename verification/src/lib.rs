//! Fault injection for byte streams.
//!
//! A stream adapter replays a script of [`PartialOp`]s, one per call: an
//! operation is passed through untouched, cut short to a byte limit, or
//! replaced by a fabricated failure. Code that buffers, retries or applies
//! flow control can so be exercised against short writes, interrupted calls
//! and would-block stalls without an unreliable transport.
//!
//! There are two policies. The blocking one ([`blocking`], [`PartialWrite`])
//! turns each behavior into one synchronous call and hands every failure
//! on. The polling one ([`futures_util`], [`PartialAsyncWrite`]) does the
//! same for one poll attempt, except that a would-block failure becomes
//! "not ready": the caller is woken at once and polls again.
//!
//! The crate knows no stream trait. What to call on the inner stream, and
//! how to wake a task, is handed to it as a function at each call, and it
//! decides from the script whether that function is called and on how much
//! of the caller's buffer. Every decision is stated and proved: which
//! behavior a call consumes, what the inner stream is handed, that a
//! scripted failure leaves the inner stream as it was, and that the answer
//! of the inner stream comes back unchanged. [`run`] proves what follows for
//! a whole run of calls.

pub mod async_write;
pub mod blocking;
pub mod error_kind;
pub mod futures_util;
pub mod partial_op;
pub mod proptest_types;
pub mod run;
pub mod source;
pub mod write;

pub use async_write::PartialAsyncWrite;
pub use blocking::{Call, Called};
pub use error_kind::ErrorKind;
pub use futures_util::{Attempt, Polled};
pub use partial_op::{Behavior, ByteLimit, PartialOp};
pub use proptest_types::partial_op_from_draw;
pub use source::OpSource;
pub use write::PartialWrite;
