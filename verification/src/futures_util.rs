//! The polling policy: one scripted behavior per poll attempt, with a
//! would-block failure turned into "not ready, poll again".

use vstd::prelude::*;
use vstd::slice::slice_subrange;
use crate::blocking::{call_plan, cap, first_bytes, plan_call, Call};
use crate::error_kind::ErrorKind;
use crate::partial_op::{Behavior, PartialOp};
use crate::source::pulled_view;

verus! {

/// What a polling adapter does for one poll attempt.
#[derive(Clone, Copy, Debug, PartialEq, Eq, Hash)]
pub enum Attempt {
    /// Poll the inner stream and hand its answer back unchanged, "not ready"
    /// included: the inner stream has then registered the wake-up itself.
    /// With `Some(n)` the inner stream sees only the first `n` bytes of the
    /// caller's buffer; with `None` it sees the whole buffer.
    Forward(Option<usize>),
    /// Do not touch the inner stream; the attempt is ready, with a failure
    /// of this classification.
    Fail(ErrorKind),
    /// Do not touch the inner stream; wake the polling task at once and
    /// answer "not ready", so that the caller polls again on its next turn.
    RetryScheduled,
}

impl Attempt {
    /// Whether the inner stream is polled at all.
    pub open spec fn touches_inner(self) -> bool {
        self is Forward
    }

    /// The byte limit that the inner stream is polled with, if it is polled
    /// and limited.
    pub open spec fn limit(self) -> Option<usize> {
        match self {
            Attempt::Forward(limit) => limit,
            _ => None,
        }
    }

    /// The number of bytes that the inner stream is handed by an attempt
    /// whose buffer has `len` bytes; none where the attempt has no buffer.
    pub open spec fn offered(self, len: Option<usize>) -> nat {
        match (self, len) {
            (Attempt::Forward(Some(n)), Some(_)) => n as nat,
            (Attempt::Forward(None), Some(l)) => l as nat,
            _ => 0,
        }
    }

    /// How a blocking call reads under polling. A poll has no failure that
    /// means "would block": it has "not ready" instead.
    pub open spec fn of_call(call: Call) -> Attempt {
        match call {
            Call::Forward(limit) => Attempt::Forward(limit),
            Call::Fail(kind) => if kind.would_block() {
                Attempt::RetryScheduled
            } else {
                Attempt::Fail(kind)
            },
        }
    }

    /// Turns the decision of the blocking policy into that for a poll attempt.
    pub fn from_call(call: Call) -> (attempt: Attempt)
        ensures
            attempt == Attempt::of_call(call),
    {
        match call {
            Call::Forward(limit) => Attempt::Forward(limit),
            Call::Fail(kind) => if kind.is_would_block() {
                Attempt::RetryScheduled
            } else {
                Attempt::Fail(kind)
            },
        }
    }
}

/// The polling policy. `pulled` is what the source gave for this attempt
/// (`None` once it has run dry), `len` the length of the caller's buffer
/// (`None` for an attempt without one, such as a flush).
pub open spec fn poll_plan(pulled: Option<Behavior>, len: Option<usize>) -> Attempt {
    Attempt::of_call(call_plan(pulled, len))
}

/// Decides one poll attempt from the behavior pulled for it.
///
/// A failure is never classified as would-block, and a limit never cuts a
/// non-empty buffer down to nothing.
pub fn plan_poll(pulled: Option<PartialOp>, len: Option<usize>) -> (attempt: Attempt)
    ensures
        attempt == poll_plan(pulled_view(pulled), len),
        attempt matches Attempt::Fail(kind) ==> !kind.would_block(),
        len matches Some(l) ==> (l > 0 ==> attempt.offered(len) > 0 || !attempt.touches_inner()),
{
    Attempt::from_call(plan_call(pulled, len))
}

/// How one poll attempt on a polling adapter ended.
#[derive(Debug, PartialEq, Eq)]
pub enum Polled<T> {
    /// The inner stream was polled, and this is its answer, unchanged. Where
    /// the answer is "not ready", the inner stream has registered the
    /// wake-up itself.
    Inner(T),
    /// The inner stream was not touched. The attempt is ready, with a
    /// failure of this classification, which is never would-block.
    Failed(ErrorKind),
    /// The inner stream was not touched, and the polling task has been
    /// woken. The attempt is not ready; the task polls again on its next
    /// turn, and that attempt pulls a behavior of its own.
    RetryScheduled,
}

impl<T> Polled<T> {
    /// Whether a poll attempt that was decided as `attempt` ends like this.
    pub open spec fn settles(self, attempt: Attempt) -> bool {
        match attempt {
            Attempt::Forward(_) => self is Inner,
            Attempt::Fail(kind) => self == Polled::<T>::Failed(kind),
            Attempt::RetryScheduled => self is RetryScheduled,
        }
    }
}

/// Decides one attempt to write from the behavior pulled for it, and carries
/// the decision out.
///
/// `call` polls the inner stream: it is handed the stream and the part of
/// `buf` that the behavior lets through, which is all of `buf` or its first
/// bytes up to the behavior's limit. `wake` wakes the polling task.
///
/// Only where the behavior lets the attempt through is `call` called. A
/// scripted failure leaves the stream as it was. On a would-block failure
/// no outside event would ever wake the task, so `wake` is called before
/// the attempt is answered "not ready". It can be called in no other case:
/// in no other case is it known to be callable.
pub fn poll_write_with<S, T, F: FnOnce(&mut S, &[u8]) -> T, K: FnOnce()>(
    pulled: Option<PartialOp>,
    buf: &[u8],
    stream: &mut S,
    call: F,
    wake: K,
) -> (polled: Polled<T>)
    requires
        poll_plan(pulled_view(pulled), Some(buf.len())) is Forward ==> forall|
            s: &mut S,
            piece: &[u8],
        |
            *s == *old(stream) && piece@ == buf@.take(cap(pulled_view(pulled), buf@.len()) as int)
                ==> call.requires((s, piece)),
        poll_plan(pulled_view(pulled), Some(buf.len())) is RetryScheduled ==> wake.requires(()),
    ensures
        polled.settles(poll_plan(pulled_view(pulled), Some(buf.len()))),
        polled matches Polled::Inner(answer) ==> exists|s: &mut S|
            {
                &&& *s == *old(stream)
                &&& *final(s) == *final(stream)
                &&& call.ensures((s, first_bytes(buf, cap(pulled_view(pulled), buf@.len()))), answer)
            },
        polled is Inner ==> first_bytes(buf, cap(pulled_view(pulled), buf@.len()))@ == buf@.take(
            cap(pulled_view(pulled), buf@.len()) as int,
        ),
        !(polled is Inner) ==> *final(stream) == *old(stream),
        polled is RetryScheduled ==> wake.ensures((), ()),
        polled matches Polled::Failed(kind) ==> !kind.would_block(),
{
    match plan_poll(pulled, Some(buf.len())) {
        Attempt::Forward(Some(n)) => {
            let piece = slice_subrange(buf, 0, n);
            assert(piece =~= first_bytes(buf, n as nat));
            Polled::Inner(call(stream, piece))
        },
        Attempt::Forward(None) => {
            assert(buf@.take(buf@.len() as int) =~= buf@);
            assert(buf =~= first_bytes(buf, buf@.len()));
            Polled::Inner(call(stream, buf))
        },
        Attempt::Fail(kind) => Polled::Failed(kind),
        Attempt::RetryScheduled => {
            wake();
            Polled::RetryScheduled
        },
    }
}

/// Decides one poll attempt on a buffer that the caller keeps to itself,
/// such as a read into one, from the behavior pulled for it, and carries
/// the decision out.
///
/// `call` polls the inner stream: it is handed the stream and, where the
/// behavior limits the attempt, the number of bytes of the buffer that the
/// stream may use, which is never more than `len`. `wake` wakes the polling
/// task. For the rest the attempt is carried out as [`poll_write_with`]
/// says.
pub fn poll_with<S, T, F: FnOnce(&mut S, Option<usize>) -> T, K: FnOnce()>(
    pulled: Option<PartialOp>,
    len: usize,
    stream: &mut S,
    call: F,
    wake: K,
) -> (polled: Polled<T>)
    requires
        poll_plan(pulled_view(pulled), Some(len)) is Forward ==> forall|s: &mut S|
            *s == *old(stream) ==> call.requires(
                (s, poll_plan(pulled_view(pulled), Some(len)).limit()),
            ),
        poll_plan(pulled_view(pulled), Some(len)) is RetryScheduled ==> wake.requires(()),
    ensures
        polled.settles(poll_plan(pulled_view(pulled), Some(len))),
        polled matches Polled::Inner(answer) ==> exists|s: &mut S|
            {
                &&& *s == *old(stream)
                &&& *final(s) == *final(stream)
                &&& call.ensures((s, poll_plan(pulled_view(pulled), Some(len)).limit()), answer)
            },
        !(polled is Inner) ==> *final(stream) == *old(stream),
        polled is RetryScheduled ==> wake.ensures((), ()),
        polled matches Polled::Failed(kind) ==> !kind.would_block(),
{
    match plan_poll(pulled, Some(len)) {
        Attempt::Forward(limit) => Polled::Inner(call(stream, limit)),
        Attempt::Fail(kind) => Polled::Failed(kind),
        Attempt::RetryScheduled => {
            wake();
            Polled::RetryScheduled
        },
    }
}

/// Decides one poll attempt that has no buffer, such as a flush or a close,
/// from the behavior pulled for it, and carries the decision out.
///
/// `call` polls the inner stream, and `wake` wakes the polling task. A byte
/// limit means nothing here: the attempt goes through as under no
/// restriction. For the rest the attempt is carried out as
/// [`poll_write_with`] says.
pub fn poll_with_no_limit<S, T, F: FnOnce(&mut S) -> T, K: FnOnce()>(
    pulled: Option<PartialOp>,
    stream: &mut S,
    call: F,
    wake: K,
) -> (polled: Polled<T>)
    requires
        poll_plan(pulled_view(pulled), None) is Forward ==> forall|s: &mut S|
            *s == *old(stream) ==> call.requires((s,)),
        poll_plan(pulled_view(pulled), None) is RetryScheduled ==> wake.requires(()),
    ensures
        polled.settles(poll_plan(pulled_view(pulled), None)),
        polled matches Polled::Inner(answer) ==> exists|s: &mut S|
            {
                &&& *s == *old(stream)
                &&& *final(s) == *final(stream)
                &&& call.ensures((s,), answer)
            },
        !(polled is Inner) ==> *final(stream) == *old(stream),
        polled is RetryScheduled ==> wake.ensures((), ()),
        polled matches Polled::Failed(kind) ==> !kind.would_block(),
{
    match plan_poll(pulled, None) {
        Attempt::Forward(_) => Polled::Inner(call(stream)),
        Attempt::Fail(kind) => Polled::Failed(kind),
        Attempt::RetryScheduled => {
            wake();
            Polled::RetryScheduled
        },
    }
}

} // verus!
