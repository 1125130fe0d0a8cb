use vstd::prelude::*;
use crate::convert::{saturate_u64, saturated_u64};
use crate::oracle::{Call, Module};

verus! {

/// The broadcast interface could not take the call: the node may not author
/// unsigned transactions, or the transport failed.
#[derive(Clone, Copy, Debug, PartialEq, Eq, Structural)]
pub struct BroadcastFailure;

/// What the host provides to the module: a way to hand an unsigned call to
/// the transaction pool. Whether that succeeds is up to the host.
pub trait Trait {
    fn submit_unsigned(&mut self, call: Call) -> Result<(), BroadcastFailure>;
}

/// How one run of the offchain worker ended.
#[derive(Clone, Copy, Debug, PartialEq, Eq, Structural)]
pub enum WorkerOutcome {
    /// The broadcast interface took the submission.
    Submitted,
    /// The broadcast interface refused it; the failure goes no further.
    BroadcastFailed,
}

/// The outcome that a broadcast result stands for.
pub open spec fn outcome_spec(res: Result<(), BroadcastFailure>) -> WorkerOutcome {
    match res {
        Ok(()) => WorkerOutcome::Submitted,
        Err(_) => WorkerOutcome::BroadcastFailed,
    }
}

impl Module {
    /// The submission that the worker makes at block `n`: the block number
    /// saturated into `u64` as the price.
    pub fn price_submission(n: u128) -> (r: Call)
        ensures
            r == Call::SubmitPrice(saturate_u64(n)),
    {
        Call::SubmitPrice(saturated_u64(n))
    }

    /// Turns what the broadcast interface returned into the worker's outcome.
    pub fn broadcast_outcome(res: Result<(), BroadcastFailure>) -> (r: WorkerOutcome)
        ensures
            r == outcome_spec(res),
    {
        match res {
            Ok(()) => WorkerOutcome::Submitted,
            Err(_) => WorkerOutcome::BroadcastFailed,
        }
    }

    /// Computes the candidate price for block `n` and hands it, as an unsigned
    /// `submit_price` call, to the broadcast interface, once. A failure there is
    /// swallowed and reported only in the outcome. No storage is touched.
    pub fn get_price<T: Trait>(n: u128, submitter: &mut T) -> (r: WorkerOutcome)
        ensures
            r == WorkerOutcome::Submitted || r == WorkerOutcome::BroadcastFailed,
    {
        let call = Self::price_submission(n);
        let res = submitter.submit_unsigned(call);
        Self::broadcast_outcome(res)
    }

    /// The per-block hook: runs the worker for block `n`, outside the state
    /// transition; it has no access to the module's storage.
    pub fn offchain_worker<T: Trait>(n: u128, submitter: &mut T) -> (r: WorkerOutcome)
        ensures
            r == WorkerOutcome::Submitted || r == WorkerOutcome::BroadcastFailed,
    {
        Self::get_price(n, submitter)
    }
}

} // verus!
