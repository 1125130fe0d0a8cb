use price_oracle::convert::saturated_u64;
use price_oracle::oracle::{Call, Module, Origin};
use price_oracle::worker::{BroadcastFailure, Trait, WorkerOutcome};

struct Pool {
    accept: bool,
    seen: Vec<Call>,
}

impl Trait for Pool {
    fn submit_unsigned(&mut self, call: Call) -> Result<(), BroadcastFailure> {
        self.seen.push(call);
        if self.accept {
            Ok(())
        } else {
            Err(BroadcastFailure)
        }
    }
}

#[test]
fn saturation_keeps_small_values_and_clamps_large_ones() {
    assert_eq!(saturated_u64(0), 0);
    assert_eq!(saturated_u64(5), 5);
    assert_eq!(saturated_u64(u64::MAX as u128), u64::MAX);
    assert_eq!(saturated_u64(u64::MAX as u128 + 1), u64::MAX);
    assert_eq!(saturated_u64(u128::MAX), u64::MAX);
}

#[test]
fn submission_carries_saturated_height() {
    assert_eq!(Module::price_submission(5), Call::SubmitPrice(5));
    assert_eq!(Module::price_submission(u128::MAX), Call::SubmitPrice(u64::MAX));
}

#[test]
fn broadcast_result_maps_to_outcome() {
    assert_eq!(Module::broadcast_outcome(Ok(())), WorkerOutcome::Submitted);
    assert_eq!(Module::broadcast_outcome(Err(BroadcastFailure)), WorkerOutcome::BroadcastFailed);
}

#[test]
fn worker_at_height_five_with_failing_broadcast() {
    let mut m = Module::new();
    assert_eq!(m.submit_price(Origin::Unsigned, 100), Ok(()));
    let mut pool = Pool { accept: false, seen: vec![] };
    assert_eq!(Module::offchain_worker(5, &mut pool), WorkerOutcome::BroadcastFailed);
    assert_eq!(pool.seen, vec![Call::SubmitPrice(5)]);
    assert_eq!(m.price(), 100);
}

#[test]
fn worker_submits_once_and_applied_submission_sets_price() {
    let mut m = Module::new();
    let mut pool = Pool { accept: true, seen: vec![] };
    assert_eq!(Module::get_price(7, &mut pool), WorkerOutcome::Submitted);
    assert_eq!(pool.seen, vec![Call::SubmitPrice(7)]);
    assert!(Module::validate_unsigned(&pool.seen[0]).is_ok());
    assert_eq!(m.dispatch(Origin::Unsigned, pool.seen[0]), Ok(()));
    assert_eq!(m.price(), 7);
}

#[test]
fn worker_saturates_huge_heights() {
    let mut pool = Pool { accept: true, seen: vec![] };
    assert_eq!(Module::offchain_worker(u128::MAX, &mut pool), WorkerOutcome::Submitted);
    assert_eq!(pool.seen, vec![Call::SubmitPrice(u64::MAX)]);
}
