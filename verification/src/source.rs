//! The behavior source: a script of behaviors, consumed in order.

use vstd::prelude::*;
use crate::partial_op::{Behavior, PartialOp};

verus! {

/// The script that a sequence of behaviors stands for.
pub open spec fn script_of(ops: Seq<PartialOp>) -> Seq<Behavior> {
    ops.map_values(|op: PartialOp| op@)
}

/// The model of what a call has pulled from a source: a behavior, or nothing
/// where the source has run dry.
pub open spec fn pulled_view(pulled: Option<PartialOp>) -> Option<Behavior> {
    match pulled {
        Some(op) => Some(op@),
        None => None,
    }
}

/// The behavior that the next call pulls from a script, if the script has
/// not run dry.
pub open spec fn head(script: Seq<Behavior>) -> Option<Behavior> {
    if script.len() > 0 {
        Some(script[0])
    } else {
        None
    }
}

/// The script that is left once a call has pulled its behavior. A script
/// that has run dry stays so.
pub open spec fn tail(script: Seq<Behavior>) -> Seq<Behavior> {
    if script.len() > 0 {
        script.skip(1)
    } else {
        script
    }
}

/// An ordered supply of scripted behaviors. Each call on an adapter pulls
/// one; the script can be replaced at any time.
///
/// The view is the part of the script that has not been consumed yet.
pub struct OpSource {
    ops: Vec<PartialOp>,
    pos: usize,
}

impl View for OpSource {
    type V = Seq<Behavior>;

    closed spec fn view(&self) -> Seq<Behavior> {
        script_of(self.ops@.skip(self.pos as int))
    }
}

impl OpSource {
    #[verifier::type_invariant]
    spec fn in_bounds(self) -> bool {
        self.pos <= self.ops.len()
    }

    /// A source that yields `ops` from its start.
    pub fn new(ops: Vec<PartialOp>) -> (source: OpSource)
        ensures
            source@ == script_of(ops@),
    {
        proof {
            assert(ops@.skip(0) =~= ops@);
        }
        OpSource { ops, pos: 0 }
    }

    /// Discards what is left of the script and starts over with `ops`.
    pub fn replace(&mut self, ops: Vec<PartialOp>)
        ensures
            final(self)@ == script_of(ops@),
    {
        proof {
            assert(ops@.skip(0) =~= ops@);
        }
        self.pos = 0;
        self.ops = ops;
    }

    /// Gives up the source for the behaviors that it has not yielded yet.
    pub fn into_remaining(self) -> (ops: Vec<PartialOp>)
        ensures
            script_of(ops@) == self@,
    {
        proof {
            use_type_invariant(&self);
        }
        let mut ops = self.ops;
        ops.split_off(self.pos)
    }

    /// Pulls the next behavior, or `None` once the script has run dry.
    pub fn next(&mut self) -> (op: Option<PartialOp>)
        ensures
            pulled_view(op) == head(old(self)@),
            final(self)@ == tail(old(self)@),
    {
        proof {
            use_type_invariant(&*self);
        }
        if self.pos < self.ops.len() {
            let op = self.ops[self.pos];
            proof {
                assert(self.ops@.skip(self.pos as int).skip(1) =~= self.ops@.skip(self.pos + 1));
            }
            self.pos = self.pos + 1;
            Some(op)
        } else {
            None
        }
    }
}

} // verus!
