//! Dispatch weights of the vault ledger's calls.

use vstd::prelude::*;

verus! {

/// The cost of one dispatched call: computation time and proof size.
#[derive(Clone, Copy, Debug, PartialEq, Eq, Structural)]
pub struct Weight {
    pub ref_time: u64,
    pub proof_size: u64,
}

/// The weight of each of the ledger's calls.
pub trait WeightInfo {
    fn deposit_funds() -> Weight;

    fn withdraw_funds() -> Weight;

    fn subscribe_to_strategy() -> Weight;

    fn execute_strategy() -> Weight;
}

/// Fixed weights for the ledger's calls.
pub struct WeightInfoImpl;

impl WeightInfo for WeightInfoImpl {
    fn deposit_funds() -> Weight {
        Weight { ref_time: 10_000, proof_size: 0 }
    }

    fn withdraw_funds() -> Weight {
        Weight { ref_time: 10_000, proof_size: 0 }
    }

    fn subscribe_to_strategy() -> Weight {
        Weight { ref_time: 15_000, proof_size: 0 }
    }

    fn execute_strategy() -> Weight {
        Weight { ref_time: 20_000, proof_size: 0 }
    }
}

} // verus!
