//! The three ways in which an operation hands the stack's integer to its caller.
//!
//! The stack has no single error space, and the callers above this layer rely
//! on each operation's own convention. The conventions are therefore kept
//! apart on purpose: every request is tagged with one of them, and nothing
//! here merges them into a common error type.

use vstd::prelude::*;

verus! {

/// What a normalised operation reports on success.
pub const SUCCESS: i32 = 0;

/// What a normalised operation reports on every failure, and what an
/// operation reports when this layer itself declines to forward it.
pub const FAILURE: i32 = -1;

/// How an operation surfaces the integer that the stack returned.
#[derive(Clone, Copy, Debug, PartialEq, Eq, Structural)]
pub enum Convention {
    /// The stack's integer, untouched. Whether zero, a positive or a negative
    /// value means success depends on the operation.
    RawPassthrough,
    /// `SUCCESS` where the stack returned zero, `FAILURE` for anything else.
    /// The stack's own failure code is dropped.
    BinaryOutcome,
    /// A handle or a negative failure, untouched. Zero is a valid handle, so
    /// this must never be folded into the binary outcome.
    HandleOrError,
}

impl Convention {
    /// The integer the caller sees when the stack returned `raw`.
    pub open spec fn surfaced(self, raw: i32) -> i32 {
        if self == Convention::BinaryOutcome && raw != 0 {
            FAILURE
        } else {
            raw
        }
    }

    /// Surfaces the stack's integer `raw` under this convention.
    pub fn surface(self, raw: i32) -> (code: i32)
        ensures
            code == self.surfaced(raw),
            self == Convention::BinaryOutcome ==> code == SUCCESS || code == FAILURE,
            self == Convention::BinaryOutcome ==> (code == SUCCESS <==> raw == 0),
            self != Convention::BinaryOutcome ==> code == raw,
    {
        match self {
            Convention::BinaryOutcome => {
                if raw == 0 {
                    SUCCESS
                } else {
                    FAILURE
                }
            },
            Convention::RawPassthrough => raw,
            Convention::HandleOrError => raw,
        }
    }
}

} // verus!
