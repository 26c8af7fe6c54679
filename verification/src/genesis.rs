//! The accounts of the test runtime and the genesis state it starts from.
use vstd::prelude::*;
use crate::runtime::EXISTENTIAL_DEPOSIT;

verus! {

pub const ALICE_STASH: u64 = 1;
pub const BOB_STASH: u64 = 2;
pub const ALICE_CTRL: u64 = 3;
pub const BOB_CTRL: u64 = 4;
pub const VALIDATOR_A: u64 = 5;
pub const VALIDATOR_B: u64 = 6;
pub const OPERATOR_A: u64 = 9;
pub const OPERATOR_B: u64 = 10;
pub const OPERATED_CONTRACT_A: u64 = 19;
pub const OPERATED_CONTRACT_B: u64 = 20;
pub const BOB_CONTRACT: u64 = 12;

/// The free balance of each endowed account at genesis, in order.
pub open spec fn genesis_balances_spec() -> Seq<(u64, u64)> {
    seq![
        (ALICE_STASH, 1000u64),
        (BOB_STASH, 2000u64),
        (ALICE_CTRL, 10u64),
        (BOB_CTRL, 20u64),
        (VALIDATOR_A, 1_000_000u64),
        (VALIDATOR_B, 1_000_000u64),
    ]
}

/// The validators of the genesis session.
pub open spec fn genesis_validators_spec() -> Seq<u64> {
    seq![VALIDATOR_A, VALIDATOR_B]
}

/// The session key entry of a validator: its account, its validator id and
/// its authority id are all the validator's own number.
pub open spec fn session_key_of(validator: u64) -> (u64, u64, u64) {
    (validator, validator, validator)
}

/// The sum of the balances in `balances`.
pub open spec fn total_balance(balances: Seq<(u64, u64)>) -> int
    decreases balances.len(),
{
    if balances.len() == 0 {
        0
    } else {
        total_balance(balances.drop_last()) + balances.last().1
    }
}

/// The endowed accounts and their balances.
pub fn genesis_balances() -> (balances: Vec<(u64, u64)>)
    ensures
        balances@ == genesis_balances_spec(),
{
    let balances: Vec<(u64, u64)> = vec![
        (ALICE_STASH, 1000u64),
        (BOB_STASH, 2000u64),
        (ALICE_CTRL, 10u64),
        (BOB_CTRL, 20u64),
        (VALIDATOR_A, 1_000_000u64),
        (VALIDATOR_B, 1_000_000u64),
    ];
    assert(balances@ =~= genesis_balances_spec());
    balances
}

/// The validators of the genesis session.
pub fn genesis_validators() -> (validators: Vec<u64>)
    ensures
        validators@ == genesis_validators_spec(),
{
    let validators: Vec<u64> = vec![VALIDATOR_A, VALIDATOR_B];
    assert(validators@ =~= genesis_validators_spec());
    validators
}

/// One session key entry per validator, in the validators' order.
pub fn session_keys(validators: &Vec<u64>) -> (keys: Vec<(u64, u64, u64)>)
    ensures
        keys@ == validators@.map_values(|v: u64| session_key_of(v)),
{
    let mut keys: Vec<(u64, u64, u64)> = Vec::new();
    let n = validators.len();
    for i in 0..n
        invariant
            n == validators@.len(),
            keys@ =~= validators@.take(i as int).map_values(|v: u64| session_key_of(v)),
    {
        let v = validators[i];
        keys.push((v, v, v));
        assert(validators@.take(i + 1) =~= validators@.take(i as int).push(v));
    }
    assert(validators@.take(n as int) =~= validators@);
    keys
}

/// What the test runtime's storage holds at genesis, besides the defaults of
/// every pallet.
pub struct TestGenesis {
    /// Free balances of the endowed accounts.
    pub balances: Vec<(u64, u64)>,
    /// Whether contracts may print (the contracts schedule's `enable_println`).
    pub enable_println: bool,
    /// Session keys: (account, validator id, authority id).
    pub session_keys: Vec<(u64, u64, u64)>,
}

/// The genesis of the test runtime: the endowed accounts, a contracts schedule
/// that lets contracts print, and a session key for each genesis validator.
pub fn test_genesis() -> (genesis: TestGenesis)
    ensures
        genesis.balances@ == genesis_balances_spec(),
        genesis.enable_println,
        genesis.session_keys@ == genesis_validators_spec().map_values(|v: u64| session_key_of(v)),
{
    let validators = genesis_validators();
    let keys = session_keys(&validators);
    TestGenesis { balances: genesis_balances(), enable_println: true, session_keys: keys }
}

/// Every account endowed at genesis holds at least the existential deposit, so
/// none of them is reaped.
pub proof fn lemma_genesis_balances_exist()
    ensures
        forall|i: int|
            0 <= i < genesis_balances_spec().len() ==> #[trigger] genesis_balances_spec()[i].1
                >= EXISTENTIAL_DEPOSIT,
{
}

/// No account is endowed twice at genesis.
pub proof fn lemma_genesis_accounts_distinct()
    ensures
        forall|i: int, j: int|
            0 <= i < j < genesis_balances_spec().len() ==> #[trigger] genesis_balances_spec()[i].0
                != #[trigger] genesis_balances_spec()[j].0,
{
}

/// Every genesis validator is an endowed account.
pub proof fn lemma_validators_endowed()
    ensures
        forall|k: int|
            0 <= k < genesis_validators_spec().len() ==> exists|i: int|
                0 <= i < genesis_balances_spec().len() && #[trigger] genesis_balances_spec()[i].0
                    == #[trigger] genesis_validators_spec()[k],
{
    assert(genesis_balances_spec()[4].0 == genesis_validators_spec()[0]);
    assert(genesis_balances_spec()[5].0 == genesis_validators_spec()[1]);
}

/// The total issuance at genesis is 2_003_030.
pub proof fn lemma_genesis_total_issuance()
    ensures
        total_balance(genesis_balances_spec()) == 2_003_030,
{
    reveal_with_fuel(total_balance, 7);
    let s = genesis_balances_spec();
    assert(s.drop_last() =~= s.take(5));
    assert(s.take(5).drop_last() =~= s.take(4));
    assert(s.take(4).drop_last() =~= s.take(3));
    assert(s.take(3).drop_last() =~= s.take(2));
    assert(s.take(2).drop_last() =~= s.take(1));
    assert(s.take(1).drop_last() =~= s.take(0));
}

} // verus!
