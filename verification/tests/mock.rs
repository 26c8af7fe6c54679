use dapps_staking_mock::clock::{
    advance_era, advance_session, can_advance_session, ChainClock, EraStep, PER_SESSION,
};
use dapps_staking_mock::contracts::{DummyContractAddressFor, DummyTrieIdGenerator};
use dapps_staking_mock::genesis::{
    genesis_balances, genesis_validators, session_keys, test_genesis, ALICE_CTRL, ALICE_STASH,
    BOB_CONTRACT, BOB_CTRL, BOB_STASH, OPERATED_CONTRACT_A, OPERATED_CONTRACT_B, OPERATOR_A,
    OPERATOR_B, VALIDATOR_A, VALIDATOR_B,
};
use dapps_staking_mock::operator::{
    code_with_hash, instantiation_registered, test_staking_parameters, ContractRegistration,
    StakingParameters,
};
use dapps_staking_mock::runtime::{
    DummyMaybeValidators, TestSessionHandler, WeightToFee, EXISTENTIAL_DEPOSIT,
};

fn hex(bytes: &[u8]) -> String {
    bytes.iter().map(|b| format!("{:02x}", b)).collect()
}

#[test]
fn advance_session_moves_block_and_time() {
    let mut clock = ChainClock { block_number: 0, timestamp: 0 };
    let index = advance_session(&mut clock);
    assert_eq!(clock, ChainClock { block_number: 1, timestamp: 60_000 });
    assert_eq!(index, 1);
}

#[test]
fn sessions_keep_time_in_lockstep_with_blocks() {
    let mut clock = ChainClock { block_number: 0, timestamp: 0 };
    for n in 1..=25u64 {
        let index = advance_session(&mut clock);
        assert_eq!(clock.block_number, n);
        assert_eq!(clock.timestamp, n * PER_SESSION);
        assert_eq!(index as u64, n);
    }
}

#[test]
fn session_index_truncates_to_u32() {
    let mut clock = ChainClock { block_number: u32::MAX as u64, timestamp: 7 };
    let index = advance_session(&mut clock);
    assert_eq!(clock.block_number, 1u64 << 32);
    assert_eq!(clock.timestamp, 7 + PER_SESSION);
    assert_eq!(index, 0);
}

#[test]
fn clock_at_its_limits_cannot_advance() {
    assert!(can_advance_session(&ChainClock { block_number: 3, timestamp: 5 }));
    assert!(!can_advance_session(&ChainClock { block_number: u64::MAX, timestamp: 0 }));
    assert!(!can_advance_session(&ChainClock { block_number: 0, timestamp: u64::MAX - PER_SESSION + 1 }));
    assert!(can_advance_session(&ChainClock { block_number: 0, timestamp: u64::MAX - PER_SESSION }));
}

#[test]
fn advance_era_steps_while_era_is_unchanged() {
    let mut clock = ChainClock { block_number: 4, timestamp: 240_000 };
    let step = advance_era(2, 2, &mut clock);
    assert_eq!(step, EraStep::AdvanceSession(5));
    assert_eq!(clock, ChainClock { block_number: 5, timestamp: 300_000 });
}

#[test]
fn advance_era_stops_when_era_changes() {
    let mut clock = ChainClock { block_number: 10, timestamp: 600_000 };
    let step = advance_era(0, 1, &mut clock);
    assert_eq!(step, EraStep::Finished);
    assert_eq!(clock, ChainClock { block_number: 10, timestamp: 600_000 });
}

#[test]
fn advance_era_loop_runs_until_era_changes() {
    // An era that ends every ten blocks, as a rewards pallet would report it.
    let era_at = |block: u64| (block / 10) as u32;
    let mut clock = ChainClock { block_number: 3, timestamp: 180_000 };
    let start = era_at(clock.block_number);
    let mut sessions = 0;
    loop {
        match advance_era(start, era_at(clock.block_number), &mut clock) {
            EraStep::AdvanceSession(index) => {
                sessions += 1;
                assert_eq!(index as u64, clock.block_number);
            }
            EraStep::Finished => break,
        }
    }
    assert_eq!(sessions, 7);
    assert_eq!(clock, ChainClock { block_number: 10, timestamp: 600_000 });
}

#[test]
fn contract_address_is_origin_plus_ten() {
    let hash = [0u8; 32];
    assert_eq!(DummyContractAddressFor::contract_address_for(&hash, &[], &OPERATOR_A), OPERATED_CONTRACT_A);
    assert_eq!(DummyContractAddressFor::contract_address_for(&hash, &[1, 2], &OPERATOR_B), OPERATED_CONTRACT_B);
    assert_eq!(DummyContractAddressFor::contract_address_for(&[7u8; 32], &[], &BOB_STASH), BOB_CONTRACT);
    assert_eq!(DummyContractAddressFor::contract_address_for(&hash, &[], &(u64::MAX - 10)), u64::MAX);
}

#[test]
fn trie_id_bumps_counter_and_encodes_seed_and_account() {
    let mut counter = 0u64;
    let id = DummyTrieIdGenerator::trie_id(&mut counter, &0x0102_0304_0506_0708);
    assert_eq!(counter, 1);
    let mut expected = b":child_storage:default:".to_vec();
    expected.extend_from_slice(&1u64.to_le_bytes());
    expected.extend_from_slice(&0x0102_0304_0506_0708u64.to_le_bytes());
    assert_eq!(id, expected);
    assert_eq!(&id[23..31], &[1, 0, 0, 0, 0, 0, 0, 0]);
    assert_eq!(&id[31..], &[8, 7, 6, 5, 4, 3, 2, 1]);
}

#[test]
fn trie_id_counter_wraps() {
    let mut counter = u64::MAX;
    let id = DummyTrieIdGenerator::trie_id(&mut counter, &OPERATOR_A);
    assert_eq!(counter, 0);
    assert_eq!(&id[23..31], &[0u8; 8]);
    assert_eq!(id.len(), 39);
}

#[test]
fn consecutive_trie_ids_differ() {
    let mut counter = 41u64;
    let a = DummyTrieIdGenerator::trie_id(&mut counter, &OPERATOR_A);
    let b = DummyTrieIdGenerator::trie_id(&mut counter, &OPERATOR_A);
    assert_eq!(counter, 43);
    assert_ne!(a, b);
}

#[test]
fn genesis_endows_the_test_accounts() {
    let balances = genesis_balances();
    assert_eq!(
        balances,
        vec![
            (ALICE_STASH, 1000),
            (BOB_STASH, 2000),
            (ALICE_CTRL, 10),
            (BOB_CTRL, 20),
            (VALIDATOR_A, 1_000_000),
            (VALIDATOR_B, 1_000_000),
        ]
    );
    assert!(balances.iter().all(|(_, b)| *b >= EXISTENTIAL_DEPOSIT));
    assert_eq!(balances.iter().map(|(_, b)| b).sum::<u64>(), 2_003_030);
}

#[test]
fn genesis_session_keys_belong_to_validators() {
    assert_eq!(genesis_validators(), vec![VALIDATOR_A, VALIDATOR_B]);
    let genesis = test_genesis();
    assert!(genesis.enable_println);
    assert_eq!(genesis.session_keys, vec![(5, 5, 5), (6, 6, 6)]);
    assert_eq!(genesis.balances.len(), 6);
    assert_eq!(session_keys(&vec![]), vec![]);
    assert_eq!(session_keys(&vec![9, 1]), vec![(9, 9, 9), (1, 1, 1)]);
}

#[test]
fn maybe_validators_are_fixed() {
    assert_eq!(DummyMaybeValidators::compute(0), Some(vec![1, 2, 3]));
    assert_eq!(DummyMaybeValidators::compute(77), Some(vec![1, 2, 3]));
}

#[test]
fn weight_costs_nothing() {
    assert!(WeightToFee::polynomial().is_empty());
}

#[test]
fn session_handler_uses_dummy_keys() {
    assert_eq!(TestSessionHandler::key_type_ids(), vec![*b"dumy"]);
}

#[test]
fn test_parameters_ask_twenty_percent() {
    let params = test_staking_parameters();
    assert_eq!(
        params,
        StakingParameters { can_be_nominated: true, option_expired: 100, option_p: 200_000_000 }
    );
}

#[test]
fn code_hash_is_blake2_256() {
    let (wasm, hash) = code_with_hash(vec![]);
    assert!(wasm.is_empty());
    assert_eq!(hex(&hash), "0e5751c026e543b2e8ab2eb06099daa1d1e5df47778f7787faab45cdf12fe3a8");
    let (wasm, hash) = code_with_hash(b"abc".to_vec());
    assert_eq!(wasm, b"abc".to_vec());
    assert_eq!(hex(&hash), "bddd813c634239723171ef3fee98579b94964e3bb1cb3e427262c8c068d52319");
}

fn registration(params: StakingParameters) -> ContractRegistration {
    ContractRegistration {
        contract_exists: true,
        operator_contracts: Some(vec![OPERATED_CONTRACT_A]),
        contract_operator: Some(OPERATOR_A),
        contract_parameters: Some(params),
    }
}

#[test]
fn instantiation_is_registered() {
    let params = test_staking_parameters();
    assert!(instantiation_registered(&registration(params), OPERATOR_A, OPERATED_CONTRACT_A, &params));
}

#[test]
fn instantiation_checks_every_record() {
    let params = test_staking_parameters();
    let other = StakingParameters { option_p: 0, ..params };

    let mut r = registration(params);
    r.contract_exists = false;
    assert!(!instantiation_registered(&r, OPERATOR_A, OPERATED_CONTRACT_A, &params));

    let mut r = registration(params);
    r.operator_contracts = None;
    assert!(!instantiation_registered(&r, OPERATOR_A, OPERATED_CONTRACT_A, &params));

    let mut r = registration(params);
    r.operator_contracts = Some(vec![OPERATED_CONTRACT_A, OPERATED_CONTRACT_B]);
    assert!(!instantiation_registered(&r, OPERATOR_A, OPERATED_CONTRACT_A, &params));

    let mut r = registration(params);
    r.operator_contracts = Some(vec![OPERATED_CONTRACT_B]);
    assert!(!instantiation_registered(&r, OPERATOR_A, OPERATED_CONTRACT_A, &params));

    let mut r = registration(params);
    r.contract_operator = Some(OPERATOR_B);
    assert!(!instantiation_registered(&r, OPERATOR_A, OPERATED_CONTRACT_A, &params));

    let mut r = registration(params);
    r.contract_operator = None;
    assert!(!instantiation_registered(&r, OPERATOR_A, OPERATED_CONTRACT_A, &params));

    assert!(!instantiation_registered(&registration(other), OPERATOR_A, OPERATED_CONTRACT_A, &params));

    let mut r = registration(params);
    r.contract_parameters = None;
    assert!(!instantiation_registered(&r, OPERATOR_A, OPERATED_CONTRACT_A, &params));
}
