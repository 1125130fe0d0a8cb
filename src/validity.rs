use vstd::prelude::*;
use crate::oracle::{Call, Module};

verus! {

/// How eagerly the pool schedules a transaction; larger goes first.
pub type TransactionPriority = u64;

/// For how many blocks a pooled transaction stays valid.
pub type TransactionLongevity = u64;

/// A tag that a pooled transaction requires or provides.
pub type TransactionTag = Vec<u8>;

/// The pool's terms for admitting a transaction.
#[derive(Debug, PartialEq, Eq)]
pub struct ValidTransaction {
    pub priority: TransactionPriority,
    pub requires: Vec<TransactionTag>,
    pub provides: Vec<TransactionTag>,
    pub longevity: TransactionLongevity,
    pub propagate: bool,
}

/// Why the admission policy turned a transaction away.
#[derive(Clone, Copy, Debug, PartialEq, Eq, Structural)]
pub enum InvalidTransaction {
    /// The call is not one that may come unsigned.
    InvalidCall,
}

/// The admission policy's decision.
pub type TransactionValidity = Result<ValidTransaction, InvalidTransaction>;

/// Top priority, no dependencies, nothing provided, unlimited lifetime, broadcast.
pub open spec fn is_eager(t: ValidTransaction) -> bool {
    &&& t.priority == u64::MAX
    &&& t.requires@.len() == 0
    &&& t.provides@.len() == 0
    &&& t.longevity == u64::MAX
    &&& t.propagate
}

/// The decision that the policy owes to a call.
pub open spec fn admits(call: Call, r: TransactionValidity) -> bool {
    match call {
        Call::SubmitPrice(_) => r is Ok && is_eager(r->Ok_0),
        _ => r == Err::<ValidTransaction, InvalidTransaction>(InvalidTransaction::InvalidCall),
    }
}

impl Module {
    /// The admission policy for unsigned calls. A price submission is always
    /// admitted, whatever its value, on the most eager terms; any other call is
    /// refused. It reads no storage.
    pub fn validate_unsigned(call: &Call) -> (r: TransactionValidity)
        ensures
            admits(*call, r),
    {
        match call {
            Call::SubmitPrice(_) => Ok(
                ValidTransaction {
                    priority: TransactionPriority::MAX,
                    requires: Vec::new(),
                    provides: Vec::new(),
                    longevity: TransactionLongevity::MAX,
                    propagate: true,
                },
            ),
            _ => Err(InvalidTransaction::InvalidCall),
        }
    }
}

} // verus!
