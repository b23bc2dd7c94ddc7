//! An adapter for blocking writers that breaks writes up as scripted.

use vstd::prelude::*;
use crate::blocking::{call_plan, call_with_no_limit, cap, first_bytes, write_with, Called};
use crate::partial_op::{Behavior, PartialOp};
use crate::source::{head, script_of, tail, OpSource};

verus! {

/// A blocking writer together with the script that governs it.
///
/// The adapter owns both and nothing else. How the writer is called is up
/// to the adapter's caller, who passes `write` and `flush` the call to make.
/// The adapter decides from its script whether the call is made, and on how
/// much of the caller's buffer.
pub struct PartialWrite<W> {
    inner: W,
    ops: OpSource,
}

impl<W> PartialWrite<W> {
    /// The wrapped writer.
    pub closed spec fn inner(&self) -> W {
        self.inner
    }

    /// The part of the script that has not been consumed yet.
    pub closed spec fn script(&self) -> Seq<Behavior> {
        self.ops@
    }

    /// Wraps `inner`, to replay `ops` from its start.
    pub fn new(inner: W, ops: Vec<PartialOp>) -> (writer: Self)
        ensures
            writer.inner() == inner,
            writer.script() == script_of(ops@),
    {
        PartialWrite { inner, ops: OpSource::new(ops) }
    }

    /// Discards what is left of the script and starts over with `ops`.
    pub fn set_ops(&mut self, ops: Vec<PartialOp>) -> (writer: &mut Self)
        ensures
            writer.inner() == old(self).inner(),
            writer.script() == script_of(ops@),
            *final(self) == *final(writer),
    {
        self.ops.replace(ops);
        self
    }

    /// The wrapped writer.
    pub fn get_ref(&self) -> (inner: &W)
        ensures
            *inner == self.inner(),
    {
        &self.inner
    }

    /// The wrapped writer, to change it past the script. The script stays
    /// as it is.
    pub fn get_mut(&mut self) -> (inner: &mut W)
        ensures
            *inner == old(self).inner(),
            final(self).inner() == *final(inner),
            final(self).script() == old(self).script(),
    {
        &mut self.inner
    }

    /// Gives the wrapped writer back.
    pub fn into_inner(self) -> (inner: W)
        ensures
            inner == self.inner(),
    {
        self.inner
    }

    /// Takes the adapter apart, into the wrapped writer and the behaviors
    /// that are left.
    pub fn into_parts(self) -> (parts: (W, Vec<PartialOp>))
        ensures
            parts.0 == self.inner(),
            script_of(parts.1@) == self.script(),
    {
        (self.inner, self.ops.into_remaining())
    }

    /// One call to write `buf`.
    ///
    /// `write` calls the inner writer: it is handed the writer and the part
    /// of `buf` that the script lets through, which is all of `buf` or its
    /// first bytes up to a limit. The call consumes one behavior, whatever
    /// the inner writer answers. Only where that behavior lets the call
    /// through is `write` called; a scripted failure leaves the writer as it
    /// was.
    pub fn write<T, F: FnOnce(&mut W, &[u8]) -> T>(&mut self, buf: &[u8], write: F) -> (called:
        Called<T>)
        requires
            call_plan(head(old(self).script()), Some(buf.len())) is Forward ==> forall|
                inner: &mut W,
                piece: &[u8],
            |
                *inner == old(self).inner() && piece@ == buf@.take(
                    cap(head(old(self).script()), buf@.len()) as int,
                ) ==> write.requires((inner, piece)),
        ensures
            final(self).script() == tail(old(self).script()),
            called.settles(call_plan(head(old(self).script()), Some(buf.len()))),
            called matches Called::Inner(answer) ==> exists|inner: &mut W|
                {
                    &&& *inner == old(self).inner()
                    &&& *final(inner) == final(self).inner()
                    &&& write.ensures(
                        (inner, first_bytes(buf, cap(head(old(self).script()), buf@.len()))),
                        answer,
                    )
                },
            called is Inner ==> first_bytes(buf, cap(head(old(self).script()), buf@.len()))@
                == buf@.take(cap(head(old(self).script()), buf@.len()) as int),
            !(called is Inner) ==> final(self).inner() == old(self).inner(),
    {
        let pulled = self.ops.next();
        write_with(pulled, buf, &mut self.inner, write)
    }

    /// One call to flush. `flush` calls the inner writer.
    ///
    /// The call consumes one behavior. A byte limit lets it through like no
    /// restriction; a scripted failure leaves the writer as it was.
    pub fn flush<T, F: FnOnce(&mut W) -> T>(&mut self, flush: F) -> (called: Called<T>)
        requires
            call_plan(head(old(self).script()), None) is Forward ==> forall|inner: &mut W|
                *inner == old(self).inner() ==> flush.requires((inner,)),
        ensures
            final(self).script() == tail(old(self).script()),
            called.settles(call_plan(head(old(self).script()), None)),
            called matches Called::Inner(answer) ==> exists|inner: &mut W|
                {
                    &&& *inner == old(self).inner()
                    &&& *final(inner) == final(self).inner()
                    &&& flush.ensures((inner,), answer)
                },
            !(called is Inner) ==> final(self).inner() == old(self).inner(),
    {
        let pulled = self.ops.next();
        call_with_no_limit(pulled, &mut self.inner, flush)
    }
}

} // verus!
