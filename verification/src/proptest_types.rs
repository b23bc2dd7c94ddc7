//! Support for randomly generated scripts.
//!
//! A generator draws, for each behavior, an optional failure and a number of
//! bytes. What the behavior then is, is decided here; drawing the values is
//! the generator's business.

use vstd::prelude::*;
use crate::error_kind::ErrorKind;
use crate::partial_op::{Behavior, PartialOp};

verus! {

/// The behavior that one draw stands for: the failure if one was drawn, and
/// else a limit of `limit` bytes.
///
/// A generated script never passes a call through without restriction, and
/// never limits one to zero bytes: to a writer's caller that can mean that
/// the writer takes no more at all. So a draw of no failure and zero bytes
/// stands for nothing.
pub fn partial_op_from_draw(error_kind: Option<ErrorKind>, limit: usize) -> (op: Option<PartialOp>)
    ensures
        op is None <==> error_kind is None && limit == 0,
        op matches Some(o) ==> o@.valid() && o@ == match error_kind {
            Some(kind) => Behavior::Failure(kind),
            None => Behavior::LimitedTo(limit as nat),
        },
{
    match error_kind {
        Some(kind) => Some(PartialOp::Error(kind)),
        None => PartialOp::limited(limit),
    }
}

} // verus!
