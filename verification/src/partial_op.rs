//! The scripted behaviors: what one call on an adapter is made to do.

use vstd::prelude::*;
use crate::error_kind::ErrorKind;

verus! {

/// The mathematical model of one scripted behavior. It is the view of a
/// [`PartialOp`].
pub enum Behavior {
    /// Impose no restriction: the call reaches the inner stream as it is.
    Unlimited,
    /// Let the inner stream see at most this many bytes.
    LimitedTo(nat),
    /// Leave the inner stream alone and fail with this classification.
    Failure(ErrorKind),
}

impl Behavior {
    /// A limit is a positive number of bytes. Every [`PartialOp`] that
    /// exists at run time has a valid view: a [`ByteLimit`] cannot be made
    /// of zero.
    pub open spec fn valid(self) -> bool {
        self matches Behavior::LimitedTo(n) ==> n > 0
    }

    /// The number of bytes that a call for `len` bytes may hand to the inner
    /// stream under this behavior.
    pub open spec fn cap(self, len: nat) -> nat {
        match self {
            Behavior::Unlimited => len,
            Behavior::LimitedTo(n) => if n <= len { n } else { len },
            Behavior::Failure(_) => 0,
        }
    }
}

/// A positive number of bytes.
#[derive(Clone, Copy, Debug, PartialEq, Eq, Hash)]
pub struct ByteLimit {
    n: usize,
}

impl View for ByteLimit {
    type V = nat;

    closed spec fn view(&self) -> nat {
        self.n as nat
    }
}

impl ByteLimit {
    #[verifier::type_invariant]
    spec fn positive(self) -> bool {
        self.n > 0
    }

    /// A limit of `n` bytes, unless `n` is zero.
    pub fn new(n: usize) -> (limit: Option<ByteLimit>)
        ensures
            n == 0 <==> limit is None,
            limit matches Some(l) ==> l@ == n,
    {
        if n == 0 {
            None
        } else {
            Some(ByteLimit { n })
        }
    }

    /// The number of bytes.
    pub fn get(&self) -> (n: usize)
        ensures
            n == self@,
            n > 0,
    {
        proof {
            use_type_invariant(self);
        }
        self.n
    }
}

/// One scripted behavior: what a single call on an adapter is made to do.
#[derive(Clone, Copy, Debug, PartialEq, Eq, Hash)]
pub enum PartialOp {
    /// Let the inner stream see at most this many bytes of the call.
    Limited(ByteLimit),
    /// Pass the call through without restriction.
    Unlimited,
    /// Fail with this classification, without touching the inner stream.
    Error(ErrorKind),
}

impl View for PartialOp {
    type V = Behavior;

    open spec fn view(&self) -> Behavior {
        match *self {
            PartialOp::Limited(limit) => Behavior::LimitedTo(limit@),
            PartialOp::Unlimited => Behavior::Unlimited,
            PartialOp::Error(kind) => Behavior::Failure(kind),
        }
    }
}

impl PartialOp {
    /// A behavior that limits a call to `n` bytes. There is none for zero
    /// bytes: a stream that takes nothing is not a short one but a closed one.
    pub fn limited(n: usize) -> (op: Option<PartialOp>)
        ensures
            n == 0 <==> op is None,
            op matches Some(o) ==> o@ == Behavior::LimitedTo(n as nat) && o@.valid(),
    {
        match ByteLimit::new(n) {
            Some(limit) => Some(PartialOp::Limited(limit)),
            None => None,
        }
    }
}

} // verus!
