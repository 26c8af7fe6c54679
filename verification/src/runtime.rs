//! The test runtime's configuration and the small helpers it plugs into the
//! session, transaction-payment and rewards pallets.
use vstd::prelude::*;
use crate::substrate::{dummy_key_type, dummy_key_type_id};

verus! {

/// Block hashes kept by the system pallet.
pub const BLOCK_HASH_COUNT: u64 = 250;
/// Maximum weight of a block.
pub const MAXIMUM_BLOCK_WEIGHT: u32 = 1024;
/// Maximum length of a block in bytes.
pub const MAXIMUM_BLOCK_LENGTH: u32 = 2048;
/// Minimum time between two blocks, in milliseconds.
pub const MINIMUM_PERIOD: u64 = 1;
/// The smallest balance an account may hold.
pub const EXISTENTIAL_DEPOSIT: u64 = 10;
/// Fee per byte of a transaction.
pub const TRANSACTION_BYTE_FEE: u64 = 0;
/// Base fee of a contract transaction.
pub const CONTRACT_TRANSACTION_BASE_FEE: u64 = 0;
/// Fee per byte of a contract transaction.
pub const CONTRACT_TRANSACTION_BYTE_FEE: u64 = 0;
/// Fee for instantiating a contract.
pub const CONTRACT_FEE: u64 = 0;
/// Deposit left by a contract's tombstone.
pub const TOMBSTONE_DEPOSIT: u64 = 0;
/// Rent per byte of contract storage.
pub const RENT_BYTE_FEE: u64 = 0;
/// Offset of the rent deposit.
pub const RENT_DEPOSIT_OFFSET: u64 = 0;
/// Reward for evicting a contract.
pub const SURCHARGE_REWARD: u64 = 0;
/// Sessions that make up an era.
pub const SESSIONS_PER_ERA: u32 = 10;
/// Eras that bonded funds stay locked.
pub const BONDING_DURATION: u32 = 3;

/// The test runtime.
#[derive(Clone, Copy, PartialEq, Eq, Debug)]
pub struct Test;

/// The session handler of the test runtime: it holds keys of the dummy key
/// type and reacts to no session event.
pub struct TestSessionHandler;

impl TestSessionHandler {
    /// The key types this handler expects: the dummy key type alone.
    pub fn key_type_ids() -> (ids: Vec<[u8; 4]>)
        ensures
            ids@.len() == 1,
            ids@[0]@ == dummy_key_type(),
    {
        let mut ids: Vec<[u8; 4]> = Vec::new();
        ids.push(dummy_key_type_id());
        ids
    }
}

/// One term `coeff * weight^degree` of a weight-to-fee polynomial; the
/// coefficient is `coeff_integer + coeff_frac_parts / 10^9`.
#[derive(Clone, Copy, PartialEq, Eq, Debug)]
pub struct FeeCoefficient {
    pub coeff_integer: u64,
    pub coeff_frac_parts: u32,
    pub negative: bool,
    pub degree: u8,
}

/// The weight-to-fee conversion of the test runtime.
pub struct WeightToFee;

impl WeightToFee {
    /// The polynomial has no terms, so weight costs nothing.
    pub fn polynomial() -> (coefficients: Vec<FeeCoefficient>)
        ensures
            coefficients@.len() == 0,
    {
        Vec::new()
    }
}

/// The validator set that the rewards pallet is offered for every era.
pub open spec fn dummy_validators() -> Seq<u64> {
    seq![1u64, 2, 3]
}

/// Offers the rewards pallet a fixed validator set.
pub struct DummyMaybeValidators;

impl DummyMaybeValidators {
    /// Whatever the era, the validators are accounts 1, 2 and 3.
    pub fn compute(current_era: u32) -> (validators: Option<Vec<u64>>)
        ensures
            validators is Some,
            validators.unwrap()@ == dummy_validators(),
    {
        let v: Vec<u64> = vec![1u64, 2, 3];
        Some(v)
    }
}

} // verus!
