//! An adapter for poll-based writers that breaks writes up as scripted.

use vstd::prelude::*;
use crate::blocking::{cap, first_bytes};
use crate::futures_util::{poll_plan, poll_with_no_limit, poll_write_with, Polled};
use crate::partial_op::{Behavior, PartialOp};
use crate::source::{head, script_of, tail, OpSource};

verus! {

/// A poll-based writer together with the script that governs it.
///
/// The adapter owns both and nothing else. How the writer is polled, and
/// how the polling task is woken, is up to the adapter's caller, who passes
/// each `poll_` method the two calls to make. The adapter decides from its
/// script which of them is made, and on how much of the caller's buffer.
pub struct PartialAsyncWrite<W> {
    inner: W,
    ops: OpSource,
}

impl<W> PartialAsyncWrite<W> {
    /// The wrapped writer.
    pub closed spec fn inner(&self) -> W {
        self.inner
    }

    /// The part of the script that has not been consumed yet.
    pub closed spec fn script(&self) -> Seq<Behavior> {
        self.ops@
    }

    /// Wraps `inner`, to replay `ops` from its start.
    pub fn new(inner: W, ops: Vec<PartialOp>) -> (writer: Self)
        ensures
            writer.inner() == inner,
            writer.script() == script_of(ops@),
    {
        PartialAsyncWrite { inner, ops: OpSource::new(ops) }
    }

    /// Discards what is left of the script and starts over with `ops`.
    pub fn set_ops(&mut self, ops: Vec<PartialOp>) -> (writer: &mut Self)
        ensures
            writer.inner() == old(self).inner(),
            writer.script() == script_of(ops@),
            *final(self) == *final(writer),
    {
        self.ops.replace(ops);
        self
    }

    /// The wrapped writer.
    pub fn get_ref(&self) -> (inner: &W)
        ensures
            *inner == self.inner(),
    {
        &self.inner
    }

    /// The wrapped writer, to change it past the script. The script stays
    /// as it is.
    pub fn get_mut(&mut self) -> (inner: &mut W)
        ensures
            *inner == old(self).inner(),
            final(self).inner() == *final(inner),
            final(self).script() == old(self).script(),
    {
        &mut self.inner
    }

    /// Gives the wrapped writer back.
    pub fn into_inner(self) -> (inner: W)
        ensures
            inner == self.inner(),
    {
        self.inner
    }

    /// Takes the adapter apart, into the wrapped writer and the behaviors
    /// that are left.
    pub fn into_parts(self) -> (parts: (W, Vec<PartialOp>))
        ensures
            parts.0 == self.inner(),
            script_of(parts.1@) == self.script(),
    {
        (self.inner, self.ops.into_remaining())
    }

    /// One attempt to write `buf`.
    ///
    /// `write` polls the inner writer: it is handed the writer and the part
    /// of `buf` that the script lets through, which is all of `buf` or its
    /// first bytes up to a limit. `wake` wakes the polling task.
    ///
    /// The attempt consumes one behavior, whatever comes of it. Only where
    /// that behavior lets the attempt through is `write` called; a scripted
    /// failure leaves the writer as it was. Only on a would-block failure is
    /// `wake` called, and the attempt is then not ready.
    pub fn poll_write<T, F: FnOnce(&mut W, &[u8]) -> T, K: FnOnce()>(
        &mut self,
        buf: &[u8],
        write: F,
        wake: K,
    ) -> (polled: Polled<T>)
        requires
            poll_plan(head(old(self).script()), Some(buf.len())) is Forward ==> forall|
                inner: &mut W,
                piece: &[u8],
            |
                *inner == old(self).inner() && piece@ == buf@.take(
                    cap(head(old(self).script()), buf@.len()) as int,
                ) ==> write.requires((inner, piece)),
            poll_plan(head(old(self).script()), Some(buf.len())) is RetryScheduled
                ==> wake.requires(()),
        ensures
            final(self).script() == tail(old(self).script()),
            polled.settles(poll_plan(head(old(self).script()), Some(buf.len()))),
            polled matches Polled::Inner(answer) ==> exists|inner: &mut W|
                {
                    &&& *inner == old(self).inner()
                    &&& *final(inner) == final(self).inner()
                    &&& write.ensures(
                        (inner, first_bytes(buf, cap(head(old(self).script()), buf@.len()))),
                        answer,
                    )
                },
            polled is Inner ==> first_bytes(buf, cap(head(old(self).script()), buf@.len()))@
                == buf@.take(cap(head(old(self).script()), buf@.len()) as int),
            !(polled is Inner) ==> final(self).inner() == old(self).inner(),
            polled is RetryScheduled ==> wake.ensures((), ()),
            polled matches Polled::Failed(kind) ==> !kind.would_block(),
    {
        let pulled = self.ops.next();
        poll_write_with(pulled, buf, &mut self.inner, write, wake)
    }

    /// One attempt to flush. `flush` polls the inner writer, and `wake` wakes
    /// the polling task.
    ///
    /// The attempt consumes one behavior. A byte limit lets it through like
    /// no restriction; a scripted failure leaves the writer as it was. Only
    /// on a would-block failure is `wake` called, and the attempt is then
    /// not ready.
    pub fn poll_flush<T, F: FnOnce(&mut W) -> T, K: FnOnce()>(&mut self, flush: F, wake: K) -> (polled:
        Polled<T>)
        requires
            poll_plan(head(old(self).script()), None) is Forward ==> forall|inner: &mut W|
                *inner == old(self).inner() ==> flush.requires((inner,)),
            poll_plan(head(old(self).script()), None) is RetryScheduled ==> wake.requires(()),
        ensures
            final(self).script() == tail(old(self).script()),
            polled.settles(poll_plan(head(old(self).script()), None)),
            polled matches Polled::Inner(answer) ==> exists|inner: &mut W|
                {
                    &&& *inner == old(self).inner()
                    &&& *final(inner) == final(self).inner()
                    &&& flush.ensures((inner,), answer)
                },
            !(polled is Inner) ==> final(self).inner() == old(self).inner(),
            polled is RetryScheduled ==> wake.ensures((), ()),
            polled matches Polled::Failed(kind) ==> !kind.would_block(),
    {
        let pulled = self.ops.next();
        poll_with_no_limit(pulled, &mut self.inner, flush, wake)
    }

    /// One attempt to close. `close` polls the inner writer, and `wake` wakes
    /// the polling task.
    ///
    /// The attempt consumes one behavior. A byte limit lets it through like
    /// no restriction; a scripted failure leaves the writer as it was. Only
    /// on a would-block failure is `wake` called, and the attempt is then
    /// not ready.
    pub fn poll_close<T, F: FnOnce(&mut W) -> T, K: FnOnce()>(&mut self, close: F, wake: K) -> (polled:
        Polled<T>)
        requires
            poll_plan(head(old(self).script()), None) is Forward ==> forall|inner: &mut W|
                *inner == old(self).inner() ==> close.requires((inner,)),
            poll_plan(head(old(self).script()), None) is RetryScheduled ==> wake.requires(()),
        ensures
            final(self).script() == tail(old(self).script()),
            polled.settles(poll_plan(head(old(self).script()), None)),
            polled matches Polled::Inner(answer) ==> exists|inner: &mut W|
                {
                    &&& *inner == old(self).inner()
                    &&& *final(inner) == final(self).inner()
                    &&& close.ensures((inner,), answer)
                },
            !(polled is Inner) ==> final(self).inner() == old(self).inner(),
            polled is RetryScheduled ==> wake.ensures((), ()),
            polled matches Polled::Failed(kind) ==> !kind.would_block(),
    {
        let pulled = self.ops.next();
        poll_with_no_limit(pulled, &mut self.inner, close, wake)
    }

    /// One attempt to shut down. `shutdown` polls the inner writer, and `wake` wakes
    /// the polling task.
    ///
    /// The attempt consumes one behavior. A byte limit lets it through like
    /// no restriction; a scripted failure leaves the writer as it was. Only
    /// on a would-block failure is `wake` called, and the attempt is then
    /// not ready.
    pub fn poll_shutdown<T, F: FnOnce(&mut W) -> T, K: FnOnce()>(&mut self, shutdown: F, wake: K) -> (polled:
        Polled<T>)
        requires
            poll_plan(head(old(self).script()), None) is Forward ==> forall|inner: &mut W|
                *inner == old(self).inner() ==> shutdown.requires((inner,)),
            poll_plan(head(old(self).script()), None) is RetryScheduled ==> wake.requires(()),
        ensures
            final(self).script() == tail(old(self).script()),
            polled.settles(poll_plan(head(old(self).script()), None)),
            polled matches Polled::Inner(answer) ==> exists|inner: &mut W|
                {
                    &&& *inner == old(self).inner()
                    &&& *final(inner) == final(self).inner()
                    &&& shutdown.ensures((inner,), answer)
                },
            !(polled is Inner) ==> final(self).inner() == old(self).inner(),
            polled is RetryScheduled ==> wake.ensures((), ()),
            polled matches Polled::Failed(kind) ==> !kind.would_block(),
    {
        let pulled = self.ops.next();
        poll_with_no_limit(pulled, &mut self.inner, shutdown, wake)
    }
}

} // verus!
