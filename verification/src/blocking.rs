//! The blocking policy: one scripted behavior becomes one synchronous call.

use vstd::prelude::*;
use vstd::slice::slice_subrange;
use crate::error_kind::ErrorKind;
use crate::partial_op::{Behavior, PartialOp};
use crate::source::pulled_view;

verus! {

/// What a blocking adapter does for one call.
#[derive(Clone, Copy, Debug, PartialEq, Eq, Hash)]
pub enum Call {
    /// Make the call on the inner stream and hand its result back unchanged.
    /// With `Some(n)` the inner stream sees only the first `n` bytes of the
    /// caller's buffer; with `None` it sees the whole buffer.
    Forward(Option<usize>),
    /// Do not touch the inner stream; fail with this classification.
    Fail(ErrorKind),
}

impl Call {
    /// Whether the inner stream is called at all.
    pub open spec fn touches_inner(self) -> bool {
        self is Forward
    }

    /// The byte limit that the inner stream is called with, if it is called
    /// and limited.
    pub open spec fn limit(self) -> Option<usize> {
        match self {
            Call::Forward(limit) => limit,
            Call::Fail(_) => None,
        }
    }

    /// The number of bytes that the inner stream is handed by a call whose
    /// buffer has `len` bytes; none where the call has no buffer.
    pub open spec fn offered(self, len: Option<usize>) -> nat {
        match (self, len) {
            (Call::Forward(Some(n)), Some(_)) => n as nat,
            (Call::Forward(None), Some(l)) => l as nat,
            _ => 0,
        }
    }
}

/// The smaller of a limit and a buffer's length.
pub open spec fn clip(limit: nat, len: usize) -> usize {
    if limit <= len {
        limit as usize
    } else {
        len
    }
}

/// The cap on a call: how many bytes of a buffer of `len` bytes the call may
/// hand to the inner stream, given what it pulled from the script.
pub open spec fn cap(pulled: Option<Behavior>, len: nat) -> nat {
    match pulled {
        Some(behavior) => behavior.cap(len),
        None => len,
    }
}

/// The first `n` bytes of a buffer, as the slice that a call is handed.
/// Slices of equal content are equal, so their content names them.
pub open spec fn first_bytes(buf: &[u8], n: nat) -> &[u8] {
    choose|piece: &[u8]| piece@ == buf@.take(n as int)
}

/// The blocking policy. `pulled` is what the source gave for this call
/// (`None` once it has run dry), `len` the length of the caller's buffer
/// (`None` for a call without one, such as a flush).
pub open spec fn call_plan(pulled: Option<Behavior>, len: Option<usize>) -> Call {
    match pulled {
        Some(Behavior::Failure(kind)) => Call::Fail(kind),
        Some(Behavior::LimitedTo(limit)) => match len {
            Some(l) => Call::Forward(Some(clip(limit, l))),
            None => Call::Forward(None),
        },
        Some(Behavior::Unlimited) | None => Call::Forward(None),
    }
}

/// Decides one blocking call from the behavior pulled for it.
///
/// A limit never cuts a non-empty buffer down to nothing.
pub fn plan_call(pulled: Option<PartialOp>, len: Option<usize>) -> (call: Call)
    ensures
        call == call_plan(pulled_view(pulled), len),
        len matches Some(l) ==> (l > 0 ==> call.offered(len) > 0 || call is Fail),
{
    match pulled {
        Some(PartialOp::Error(kind)) => Call::Fail(kind),
        Some(PartialOp::Limited(limit)) => match len {
            Some(l) => {
                let n: usize = limit.get();
                if n <= l {
                    Call::Forward(Some(n))
                } else {
                    Call::Forward(Some(l))
                }
            },
            None => Call::Forward(None),
        },
        Some(PartialOp::Unlimited) | None => Call::Forward(None),
    }
}

/// How one call on a blocking adapter ended.
#[derive(Debug, PartialEq, Eq)]
pub enum Called<T> {
    /// The inner stream was called, and this is its answer, unchanged.
    Inner(T),
    /// The inner stream was not touched. The call fails with this
    /// classification, would-block included: nothing is retried here.
    Failed(ErrorKind),
}

impl<T> Called<T> {
    /// Whether a call that was decided as `call` ends like this.
    pub open spec fn settles(self, call: Call) -> bool {
        match call {
            Call::Forward(_) => self is Inner,
            Call::Fail(kind) => self == Called::<T>::Failed(kind),
        }
    }
}

/// Decides one blocking write from the behavior pulled for it, and carries
/// the decision out.
///
/// `call` makes the call on the inner stream: it is handed the stream and
/// the part of `buf` that the behavior lets through, which is all of `buf`
/// or its first bytes up to the behavior's limit. Only where the behavior
/// lets the write through is `call` called; a scripted failure leaves the
/// stream as it was.
pub fn write_with<S, T, F: FnOnce(&mut S, &[u8]) -> T>(
    pulled: Option<PartialOp>,
    buf: &[u8],
    stream: &mut S,
    call: F,
) -> (called: Called<T>)
    requires
        call_plan(pulled_view(pulled), Some(buf.len())) is Forward ==> forall|
            s: &mut S,
            piece: &[u8],
        |
            *s == *old(stream) && piece@ == buf@.take(cap(pulled_view(pulled), buf@.len()) as int)
                ==> call.requires((s, piece)),
    ensures
        called.settles(call_plan(pulled_view(pulled), Some(buf.len()))),
        called matches Called::Inner(answer) ==> exists|s: &mut S|
            {
                &&& *s == *old(stream)
                &&& *final(s) == *final(stream)
                &&& call.ensures((s, first_bytes(buf, cap(pulled_view(pulled), buf@.len()))), answer)
            },
        called is Inner ==> first_bytes(buf, cap(pulled_view(pulled), buf@.len()))@ == buf@.take(
            cap(pulled_view(pulled), buf@.len()) as int,
        ),
        !(called is Inner) ==> *final(stream) == *old(stream),
{
    match plan_call(pulled, Some(buf.len())) {
        Call::Forward(Some(n)) => {
            let piece = slice_subrange(buf, 0, n);
            assert(piece =~= first_bytes(buf, n as nat));
            Called::Inner(call(stream, piece))
        },
        Call::Forward(None) => {
            assert(buf@.take(buf@.len() as int) =~= buf@);
            assert(buf =~= first_bytes(buf, buf@.len()));
            Called::Inner(call(stream, buf))
        },
        Call::Fail(kind) => Called::Failed(kind),
    }
}

/// Decides one blocking call on a buffer that the caller keeps to itself,
/// such as a read into one, from the behavior pulled for it, and carries
/// the decision out.
///
/// `call` makes the call on the inner stream: it is handed the stream and,
/// where the behavior limits the call, the number of bytes of the buffer
/// that the stream may use, which is never more than `len`. Only where the
/// behavior lets the call through is `call` called; a scripted failure
/// leaves the stream as it was.
pub fn call_with<S, T, F: FnOnce(&mut S, Option<usize>) -> T>(
    pulled: Option<PartialOp>,
    len: usize,
    stream: &mut S,
    call: F,
) -> (called: Called<T>)
    requires
        call_plan(pulled_view(pulled), Some(len)) is Forward ==> forall|s: &mut S|
            *s == *old(stream) ==> call.requires(
                (s, call_plan(pulled_view(pulled), Some(len)).limit()),
            ),
    ensures
        called.settles(call_plan(pulled_view(pulled), Some(len))),
        called matches Called::Inner(answer) ==> exists|s: &mut S|
            {
                &&& *s == *old(stream)
                &&& *final(s) == *final(stream)
                &&& call.ensures((s, call_plan(pulled_view(pulled), Some(len)).limit()), answer)
            },
        !(called is Inner) ==> *final(stream) == *old(stream),
{
    match plan_call(pulled, Some(len)) {
        Call::Forward(limit) => Called::Inner(call(stream, limit)),
        Call::Fail(kind) => Called::Failed(kind),
    }
}

/// Decides one blocking call that has no buffer, such as a flush, from the
/// behavior pulled for it, and carries the decision out.
///
/// `call` makes the call on the inner stream. A byte limit means nothing
/// here: the call goes through as under no restriction. A scripted failure
/// leaves the stream as it was.
pub fn call_with_no_limit<S, T, F: FnOnce(&mut S) -> T>(
    pulled: Option<PartialOp>,
    stream: &mut S,
    call: F,
) -> (called: Called<T>)
    requires
        call_plan(pulled_view(pulled), None) is Forward ==> forall|s: &mut S|
            *s == *old(stream) ==> call.requires((s,)),
    ensures
        called.settles(call_plan(pulled_view(pulled), None)),
        called matches Called::Inner(answer) ==> exists|s: &mut S|
            {
                &&& *s == *old(stream)
                &&& *final(s) == *final(stream)
                &&& call.ensures((s,), answer)
            },
        !(called is Inner) ==> *final(stream) == *old(stream),
{
    match plan_call(pulled, None) {
        Call::Forward(_) => Called::Inner(call(stream)),
        Call::Fail(kind) => Called::Failed(kind),
    }
}

} // verus!
