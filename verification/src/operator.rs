//! Deploying operated contracts in the test runtime: the code blob and its
//! hash, the staking parameters the operators choose, and the check that an
//! instantiation was registered with the contract-operator pallet.
use vstd::prelude::*;
use crate::substrate::{blake2_256_of, blake_two_256, perbill_from_percent, perbill_parts_of_percent};

verus! {

/// Free balance given to each operator before it uploads code.
pub const OPERATOR_FUNDING: u64 = 1_000_000;

/// Endowment each operated contract is instantiated with.
pub const INSTANTIATE_ENDOWMENT: u64 = 100;

/// Share, in percent, that operators ask for in the test parameters.
pub const TEST_OPTION_PERCENT: u32 = 20;

/// Staking parameters an operator attaches to its contract.
#[derive(Clone, Copy, PartialEq, Eq, Debug)]
pub struct StakingParameters {
    pub can_be_nominated: bool,
    pub option_expired: u128,
    pub option_p: u32,
}

/// The parameters both test operators use: nominations allowed, the option
/// expires after 100, and the operator's share is 20 percent in parts per
/// billion.
pub open spec fn test_staking_parameters_spec() -> StakingParameters {
    StakingParameters {
        can_be_nominated: true,
        option_expired: 100,
        option_p: perbill_parts_of_percent(TEST_OPTION_PERCENT),
    }
}

/// Builds the parameters both test operators use.
pub fn test_staking_parameters() -> (params: StakingParameters)
    ensures
        params == test_staking_parameters_spec(),
        params.can_be_nominated,
        params.option_expired == 100,
        params.option_p == 200_000_000,
{
    StakingParameters {
        can_be_nominated: true,
        option_expired: 100,
        option_p: perbill_from_percent(TEST_OPTION_PERCENT),
    }
}

/// A compiled module together with its code hash under the runtime's hashing.
pub fn code_with_hash(wasm: Vec<u8>) -> (module: (Vec<u8>, [u8; 32]))
    ensures
        module.0@ == wasm@,
        module.1@ == blake2_256_of(wasm@),
{
    let hash = blake_two_256(wasm.as_slice());
    (wasm, hash)
}

/// What the chain's storage says about one operated contract and its operator
/// after instantiation.
pub struct ContractRegistration {
    /// The contracts pallet holds an entry for the contract.
    pub contract_exists: bool,
    /// The contracts recorded for the operator, `None` when it has no entry.
    pub operator_contracts: Option<Vec<u64>>,
    /// The operator recorded for the contract.
    pub contract_operator: Option<u64>,
    /// The parameters recorded for the contract.
    pub contract_parameters: Option<StakingParameters>,
}

/// `operator` is registered as the sole operator of `contract`, with `params`.
pub open spec fn registered_as(
    r: ContractRegistration,
    operator: u64,
    contract: u64,
    params: StakingParameters,
) -> bool {
    &&& r.contract_exists
    &&& r.operator_contracts is Some
    &&& r.operator_contracts.unwrap()@ == seq![contract]
    &&& r.contract_operator == Some(operator)
    &&& r.contract_parameters == Some(params)
}

fn same_parameters(a: &StakingParameters, b: &StakingParameters) -> (same: bool)
    ensures
        same == (*a == *b),
{
    a.can_be_nominated == b.can_be_nominated && a.option_expired == b.option_expired
        && a.option_p == b.option_p
}

/// Whether the storage shows that `operator` instantiated `contract` with
/// `params`: the contract exists, the operator operates exactly that contract,
/// the contract is operated by that operator, and its parameters are `params`.
pub fn instantiation_registered(
    r: &ContractRegistration,
    operator: u64,
    contract: u64,
    params: &StakingParameters,
) -> (ok: bool)
    ensures
        ok == registered_as(*r, operator, contract, *params),
        ok ==> r.contract_exists,
        ok ==> r.operator_contracts is Some && r.operator_contracts.unwrap()@.len() == 1
            && r.operator_contracts.unwrap()@[0] == contract,
        ok ==> r.contract_operator == Some(operator),
        ok ==> r.contract_parameters is Some
            && r.contract_parameters.unwrap().can_be_nominated == params.can_be_nominated
            && r.contract_parameters.unwrap().option_expired == params.option_expired
            && r.contract_parameters.unwrap().option_p == params.option_p,
{
    if !r.contract_exists {
        return false;
    }
    let contracts_ok = match &r.operator_contracts {
        Some(contracts) => contracts.len() == 1 && contracts[0] == contract,
        None => false,
    };
    if !contracts_ok {
        return false;
    }
    proof {
        assert(r.operator_contracts.unwrap()@ =~= seq![contract]);
    }
    let operator_ok = match r.contract_operator {
        Some(o) => o == operator,
        None => false,
    };
    if !operator_ok {
        return false;
    }
    match &r.contract_parameters {
        Some(p) => same_parameters(p, params),
        None => false,
    }
}

/// A registration is accepted exactly when every record matches: the contract
/// exists, its operator operates that one contract and no other, the contract
/// is operated by that operator, and every field of the recorded parameters
/// equals the requested one.
pub proof fn lemma_registered_as_fields(
    r: ContractRegistration,
    operator: u64,
    contract: u64,
    params: StakingParameters,
)
    ensures
        registered_as(r, operator, contract, params) <==> {
            &&& r.contract_exists
            &&& r.operator_contracts is Some
            &&& r.operator_contracts.unwrap()@.len() == 1
            &&& r.operator_contracts.unwrap()@[0] == contract
            &&& r.contract_operator is Some
            &&& r.contract_operator.unwrap() == operator
            &&& r.contract_parameters is Some
            &&& r.contract_parameters.unwrap().can_be_nominated == params.can_be_nominated
            &&& r.contract_parameters.unwrap().option_expired == params.option_expired
            &&& r.contract_parameters.unwrap().option_p == params.option_p
        },
{
    if r.operator_contracts is Some && r.operator_contracts.unwrap()@.len() == 1
        && r.operator_contracts.unwrap()@[0] == contract {
        assert(r.operator_contracts.unwrap()@ =~= seq![contract]);
    }
}

/// One set of records registers at most one deployment: if it shows `o1`
/// deploying `c1` with `p1` and `o2` deploying `c2` with `p2`, these are the
/// same operator, contract and parameters. In particular an operator that
/// operates two contracts, or parameters that differ from the requested ones in
/// any field, are never accepted.
pub proof fn lemma_registration_unique(
    r: ContractRegistration,
    o1: u64,
    c1: u64,
    p1: StakingParameters,
    o2: u64,
    c2: u64,
    p2: StakingParameters,
)
    requires
        registered_as(r, o1, c1, p1),
        registered_as(r, o2, c2, p2),
    ensures
        o1 == o2,
        c1 == c2,
        p1 == p2,
{
    assert(r.operator_contracts.unwrap()@[0] == c1);
    assert(r.operator_contracts.unwrap()@[0] == c2);
}

/// Records that list more than one contract for the operator are never an
/// accepted registration, whatever they hold otherwise.
pub proof fn lemma_registration_needs_single_contract(
    r: ContractRegistration,
    operator: u64,
    contract: u64,
    params: StakingParameters,
)
    requires
        r.operator_contracts is Some,
        r.operator_contracts.unwrap()@.len() != 1,
    ensures
        !registered_as(r, operator, contract, params),
{
}

} // verus!
