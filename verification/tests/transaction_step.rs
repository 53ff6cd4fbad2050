use evm_loader::account::{
    system_program_id, Account, FinalizedState, Holder, Operator, State, Treasury, TAG_ACCOUNT,
    TAG_FINALIZED_STATE, TAG_HOLDER, TAG_TREASURY,
};
use evm_loader::error::{Error, ProgramError, RlpError, Secp256k1RecoverError};
use evm_loader::gasometer::Gasometer;
use evm_loader::instruction::transaction_step::{
    finalize, Completion, ExitStatus, Run, Settlement,
};
use evm_loader::instruction::transaction_step_from_account::{
    begin_state, begin_transaction, execute, hash_log_record, process, Accounts, Step,
};
use evm_loader::types::{Address, Pubkey, Transaction, U256};

const PROGRAM: Pubkey = Pubkey([0xaa; 32]);
const OPERATOR: Pubkey = Pubkey([0x01; 32]);

/// Signed for chain 1.
const FOREIGN: &str = "f86c098504a817c800825208943535353535353535353535353535353535353535880de0b6b3a76400008025a028ef61340bd939bc2195fe537567866003e1a15d3c71ff63e1590620aa636276a067cbe9d8997f761aecb703304b3800ccf555c9f3dc64214b297fb1966a3b6d83";
/// Signed for chain 111, gas limit 1,000,000.
const LOCAL: &str = "f86a80843b9aca00830f42409411111111111111111111111111111111111111118084deadbeef820102a09377c312145a5afb911bf9e8c067bcf6094c533603687850df502b61290bbf5ea067a70ad3a666ed68ac10b61f18179248c22f0ed18a1eb99abf1fffaf679c52b3";
const LOCAL_SENDER: &str = "19e7e376e7c213b7e7e7e46cc70a5dd086daff2a";
const LOCAL_HASH: &str = "edc865dcaefbabcde171abccb378cb27b1d0fd28b426d3ad2f585e96ee0c7830";
/// Signed for chain 111, gas limit 20,000.
const TIGHT: &str = "f8610103824e209422222222222222222222222222222222222222220780820101a008b2a8c29506cdf27fe61b47f6f0852e0ad0abc1fcb50ebce19d2fd9eed93ed7a03231bfd51d2b604afe6894777bc80e409ae01d7187df41d1307e5f153fb4b9a5";
/// Signed for no chain, gas limit 50,000.
const LEGACY: &str = "f84d050282c35080018260001ba06edef0df956c324f56785e2e6c14a7bcfa7ba24859af5c5bee712f69e3f37613a041296c2ed274057c1776b9fb97bcba16a40bbff14dd18da8dc5919976627274a";
const LEGACY_SENDER: &str = "1563915e194d8cfba1943570603f7606a3115508";
/// Signed for no chain, gas limit 2^255.
const LEGACY_HUGE: &str = "f86b0502a0800000000000000000000000000000000000000000000000000000000000000080018260001ba06edef0df956c324f56785e2e6c14a7bcfa7ba24859af5c5bee712f69e3f37613a053855100ebc869609f0007a666fa8dfbcbac076c9076975fe5e4a051c11a3bcb";

fn bytes(text: &str) -> Vec<u8> {
    hex::decode(text).unwrap()
}

fn address(text: &str) -> Address {
    let raw = bytes(text);
    let mut out = [0u8; 20];
    out.copy_from_slice(&raw);
    Address(out)
}

fn account(key: Pubkey, owner: Pubkey, data: Vec<u8>) -> Account {
    Account { key, owner, lamports: 1_000_000, data, is_signer: false, is_writable: true }
}

fn holder_account(raw: &[u8]) -> Account {
    let trx = Transaction::from_rlp(raw).unwrap();
    let holder = Holder { owner: OPERATOR, transaction_hash: trx.hash, transaction: raw.to_vec() };
    account(Pubkey([0x0f; 32]), PROGRAM, holder.pack())
}

fn declared(keys: &[u8]) -> Vec<Account> {
    keys.iter().map(|k| account(Pubkey([*k; 32]), PROGRAM, vec![])).collect()
}

fn accounts<'a>(remaining: &'a [Account], all: &'a [Account]) -> Accounts<'a> {
    Accounts {
        operator: Operator { key: OPERATOR, lamports: 10 },
        treasury: Treasury { key: Pubkey([2; 32]), index: 0, lamports: 0 },
        operator_ether_account: evm_loader::account::EthereumAccount {
            key: Pubkey([3; 32]),
            address: Address([3; 20]),
        },
        system_program: system_program_id(),
        neon_program: PROGRAM,
        remaining_accounts: remaining,
        all_accounts: all,
    }
}

fn invocation(target: Account, treasury_index: u32, extra: &[u8]) -> Vec<Account> {
    let mut operator = account(OPERATOR, system_program_id(), vec![]);
    operator.is_signer = true;
    let (treasury_key, _) = Treasury::address(&PROGRAM, treasury_index).unwrap();
    let treasury = account(treasury_key, PROGRAM, vec![TAG_TREASURY]);
    let mut ether = vec![TAG_ACCOUNT];
    ether.extend_from_slice(&[0x77; 20]);
    let ether = account(Pubkey([3; 32]), PROGRAM, ether);
    let system = account(system_program_id(), system_program_id(), vec![]);
    let neon = account(PROGRAM, system_program_id(), vec![]);
    let mut all = vec![target, operator, treasury, ether, system, neon];
    all.extend(declared(extra));
    all
}

fn instruction(treasury_index: u32, step_count: u32) -> Vec<u8> {
    let mut out = treasury_index.to_le_bytes().to_vec();
    out.extend_from_slice(&step_count.to_le_bytes());
    out
}

fn run(steps: u64, gas: u128, exit_status: ExitStatus, continuation: &[u8]) -> Run {
    Run {
        steps_executed: steps,
        gas_used: U256::new(gas),
        exit_status,
        continuation: continuation.to_vec(),
    }
}

#[test]
fn process_begins_a_transaction() {
    let all = invocation(holder_account(&bytes(LOCAL)), 5, &[]);
    let step = process(&PROGRAM, &all, &instruction(5, 600)).unwrap();
    match step {
        Step::Begin { storage, gasometer, trx, caller, step_count } => {
            assert_eq!(step_count, 600);
            assert_eq!(caller, address(LOCAL_SENDER));
            assert_eq!(trx.hash.to_vec(), bytes(LOCAL_HASH));
            assert_eq!(trx.chain_id, Some(U256::new(111)));
            assert_eq!(
                storage,
                State {
                    owner: OPERATOR,
                    transaction_hash: trx.hash,
                    caller: address(LOCAL_SENDER),
                    gas_limit: U256::new(1_000_000),
                    gas_used: U256::zero(),
                    accounts: vec![],
                    continuation: vec![],
                }
            );
            assert_eq!(gasometer.used_gas(), U256::new(5_000 + 10_000 + 5_000));
            assert_eq!(gasometer.used_gas_total(), U256::new(20_000));
            assert_eq!(gasometer.gas_limit(), U256::new(1_000_000));
        }
        other => panic!("{:?}", other),
    }
}

#[test]
fn process_reserves_the_declared_accounts() {
    let all = invocation(holder_account(&bytes(LOCAL)), 0, &[0x41, 0x42, 0x43]);
    match process(&PROGRAM, &all, &instruction(0, 1)).unwrap() {
        Step::Begin { storage, gasometer, step_count, .. } => {
            assert_eq!(step_count, 1);
            assert_eq!(
                storage.accounts,
                vec![Pubkey([0x41; 32]), Pubkey([0x42; 32]), Pubkey([0x43; 32])]
            );
            assert_eq!(gasometer.used_gas(), U256::new(5_000 + 3_000 + 10_000 + 5_000));
        }
        other => panic!("{:?}", other),
    }
}

#[test]
fn process_reads_the_step_budget_as_four_bytes() {
    let all = invocation(holder_account(&bytes(LOCAL)), 0, &[]);
    let mut data = instruction(0, u32::MAX);
    data.extend_from_slice(&[0xff; 4]);
    match process(&PROGRAM, &all, &data).unwrap() {
        Step::Begin { step_count, .. } => assert_eq!(step_count, u32::MAX as u64),
        other => panic!("{:?}", other),
    }
}

#[test]
fn process_refuses_a_transaction_for_another_chain() {
    let all = invocation(holder_account(&bytes(FOREIGN)), 0, &[]);
    assert_eq!(
        process(&PROGRAM, &all, &instruction(0, 600)),
        Err(Error::InvalidChainId(U256::new(1)))
    );
}

#[test]
fn process_checks_the_accounts_in_their_places() {
    let good = invocation(holder_account(&bytes(LOCAL)), 2, &[]);
    assert!(process(&PROGRAM, &good, &instruction(2, 600)).is_ok());

    let mut unsigned = good.clone();
    unsigned[1].is_signer = false;
    assert_eq!(
        process(&PROGRAM, &unsigned, &instruction(2, 600)),
        Err(Error::UnauthorizedOperator)
    );

    let (expected, _) = Treasury::address(&PROGRAM, 3).unwrap();
    assert_eq!(
        process(&PROGRAM, &good, &instruction(3, 600)),
        Err(Error::AccountInvalidKey(good[2].key, expected))
    );

    let mut wrong_ether = good.clone();
    wrong_ether[3].data[0] = TAG_HOLDER;
    assert_eq!(
        process(&PROGRAM, &wrong_ether, &instruction(2, 600)),
        Err(Error::AccountInvalidTag(Pubkey([3; 32]), TAG_HOLDER, TAG_ACCOUNT))
    );

    let mut wrong_system = good.clone();
    wrong_system[4].key = Pubkey([9; 32]);
    assert_eq!(
        process(&PROGRAM, &wrong_system, &instruction(2, 600)),
        Err(Error::AccountInvalidKey(Pubkey([9; 32]), system_program_id()))
    );

    let mut wrong_program = good.clone();
    wrong_program[5].key = Pubkey([9; 32]);
    assert_eq!(
        process(&PROGRAM, &wrong_program, &instruction(2, 600)),
        Err(Error::AccountInvalidKey(Pubkey([9; 32]), PROGRAM))
    );
}

#[test]
fn execute_accepts_the_configured_chain_only() {
    let target = holder_account(&bytes(FOREIGN));
    let none: Vec<Account> = vec![];
    let all = accounts(&none, &none);
    assert!(execute(&PROGRAM, &target, &all, 10, Some(U256::new(1))).is_ok());
    assert_eq!(
        execute(&PROGRAM, &target, &all, 10, Some(U256::new(2))),
        Err(Error::InvalidChainId(U256::new(1)))
    );
    assert_eq!(
        execute(&PROGRAM, &target, &all, 10, Some(U256::from_words(1, 1))),
        Err(Error::InvalidChainId(U256::new(1)))
    );
    assert_eq!(
        execute(&PROGRAM, &target, &all, 10, None),
        Err(Error::InvalidChainId(U256::new(1)))
    );
}

#[test]
fn legacy_transaction_begins_with_a_multiplied_limit() {
    let target = holder_account(&bytes(LEGACY));
    let none: Vec<Account> = vec![];
    let all = accounts(&none, &none);
    for expected in [Some(U256::new(111)), Some(U256::new(1)), None] {
        match execute(&PROGRAM, &target, &all, 10, expected).unwrap() {
            Step::Begin { storage, gasometer, trx, caller, .. } => {
                assert_eq!(trx.chain_id, None);
                assert_eq!(trx.gas_limit, U256::new(50_000));
                assert_eq!(storage.gas_limit, U256::new(50_000_000));
                assert_eq!(gasometer.gas_limit(), U256::new(50_000_000));
                assert_eq!(caller, address(LEGACY_SENDER));
            }
            other => panic!("{:?}", other),
        }
    }
}

#[test]
fn multiplied_limit_stops_at_the_top() {
    let target = holder_account(&bytes(LEGACY_HUGE));
    let none: Vec<Account> = vec![];
    let all = accounts(&none, &none);
    match execute(&PROGRAM, &target, &all, 10, Some(U256::new(111))).unwrap() {
        Step::Begin { storage, .. } => assert_eq!(storage.gas_limit, U256::max_value()),
        other => panic!("{:?}", other),
    }
}

#[test]
fn begin_refuses_a_holder_bound_to_another_hash() {
    let raw = bytes(LOCAL);
    let trx = Transaction::from_rlp(&raw).unwrap();
    let mut stored = trx.hash;
    stored[0] ^= 0x80;
    let holder = Holder { owner: OPERATOR, transaction_hash: stored, transaction: raw };
    let target = account(Pubkey([0x0f; 32]), PROGRAM, holder.pack());
    let none: Vec<Account> = vec![];
    assert_eq!(
        execute(&PROGRAM, &target, &accounts(&none, &none), 10, Some(U256::new(111))),
        Err(Error::HolderInvalidHash(trx.hash, stored))
    );
    let all = invocation(target, 0, &[]);
    assert_eq!(
        process(&PROGRAM, &all, &instruction(0, 10)),
        Err(Error::HolderInvalidHash(trx.hash, stored))
    );
}

#[test]
fn begin_refuses_a_holder_of_another_operator() {
    let raw = bytes(LOCAL);
    let trx = Transaction::from_rlp(&raw).unwrap();
    let holder = Holder { owner: Pubkey([7; 32]), transaction_hash: trx.hash, transaction: raw };
    let target = account(Pubkey([0x0f; 32]), PROGRAM, holder.pack());
    let none: Vec<Account> = vec![];
    assert_eq!(
        execute(&PROGRAM, &target, &accounts(&none, &none), 10, Some(U256::new(111))),
        Err(Error::HolderInvalidOwner(Pubkey([7; 32]), OPERATOR))
    );
}

#[test]
fn begin_refuses_what_is_no_transaction() {
    let none: Vec<Account> = vec![];
    for payload in [vec![], vec![0x80], vec![0xc0], vec![0xc1, 0x80, 0x00], vec![0xff; 20]] {
        let holder = Holder { owner: OPERATOR, transaction_hash: [0; 32], transaction: payload };
        let target = account(Pubkey([0x0f; 32]), PROGRAM, holder.pack());
        let result = execute(&PROGRAM, &target, &accounts(&none, &none), 10, Some(U256::new(111)));
        assert!(matches!(result, Err(Error::RlpError(_))));
    }
    let mut trailing = bytes(LOCAL);
    trailing.push(0);
    let holder = Holder { owner: OPERATOR, transaction_hash: [0; 32], transaction: trailing };
    let target = account(Pubkey([0x0f; 32]), PROGRAM, holder.pack());
    assert_eq!(
        execute(&PROGRAM, &target, &accounts(&none, &none), 10, Some(U256::new(111))),
        Err(Error::RlpError(RlpError::RlpInconsistentLengthAndData))
    );
}

#[test]
fn begin_refuses_a_signature_that_recovers_to_nobody() {
    let raw = [0xcd, 0x80, 0x01, 0x82, 0x52, 0x08, 0x80, 0x80, 0x82, 0x60, 0x01, 0x1b, 0x80, 0x80];
    let target = holder_account(&raw);
    let none: Vec<Account> = vec![];
    assert_eq!(
        execute(&PROGRAM, &target, &accounts(&none, &none), 10, Some(U256::new(111))),
        Err(Error::Secp256k1Error(Secp256k1RecoverError::InvalidSignature))
    );
}

#[test]
fn begin_fails_where_the_limit_does_not_cover_its_costs() {
    let target = holder_account(&bytes(TIGHT));
    let none: Vec<Account> = vec![];
    match execute(&PROGRAM, &target, &accounts(&none, &none), 10, Some(U256::new(111))).unwrap() {
        Step::Begin { storage, gasometer, .. } => {
            assert_eq!(storage.gas_limit, U256::new(20_000));
            assert_eq!(gasometer.used_gas(), U256::new(20_000));
            assert_eq!(gasometer.remaining(), U256::zero());
        }
        other => panic!("{:?}", other),
    }
    let one = declared(&[0x41]);
    assert_eq!(
        execute(&PROGRAM, &target, &accounts(&one, &one), 10, Some(U256::new(111))),
        Err(Error::OutOfGas(U256::new(4_000), U256::new(5_000)))
    );
    let many = declared(&[0x41; 16]);
    assert_eq!(
        execute(&PROGRAM, &target, &accounts(&many, &many), 10, Some(U256::new(111))),
        Err(Error::OutOfGas(U256::new(15_000), U256::new(16_000)))
    );
}

#[test]
fn begin_state_charges_in_order() {
    let trx = Transaction::from_rlp(&bytes(TIGHT)).unwrap();
    let operator = Operator { key: OPERATOR, lamports: 0 };
    let mut short = trx.clone();
    short.gas_limit = U256::new(4_999);
    assert_eq!(
        begin_state(short, Address([5; 20]), &operator, &[], 10),
        Err(Error::OutOfGas(U256::new(4_999), U256::new(5_000)))
    );
    let mut short = trx.clone();
    short.gas_limit = U256::new(14_999);
    assert_eq!(
        begin_state(short, Address([5; 20]), &operator, &[], 10),
        Err(Error::OutOfGas(U256::new(9_999), U256::new(10_000)))
    );
    let mut long = trx.clone();
    long.rlp_len = 951;
    long.gas_limit = U256::new(24_999);
    assert_eq!(
        begin_state(long, Address([5; 20]), &operator, &[], 10),
        Err(Error::OutOfGas(U256::new(9_999), U256::new(10_000)))
    );
    match begin_state(trx.clone(), Address([5; 20]), &operator, &declared(&[8]), 77) {
        Err(e) => assert_eq!(e, Error::OutOfGas(U256::new(4_000), U256::new(5_000))),
        Ok(step) => panic!("{:?}", step),
    }
    let mut roomy = trx.clone();
    roomy.gas_limit = U256::new(21_000);
    match begin_state(roomy, Address([5; 20]), &operator, &declared(&[8]), 77).unwrap() {
        Step::Begin { storage, gasometer, caller, step_count, .. } => {
            assert_eq!(storage.caller, Address([5; 20]));
            assert_eq!(caller, Address([5; 20]));
            assert_eq!(storage.accounts, vec![Pubkey([8; 32])]);
            assert_eq!(storage.owner, OPERATOR);
            assert_eq!(storage.transaction_hash, trx.hash);
            assert_eq!(gasometer.used_gas(), U256::new(21_000));
            assert_eq!(step_count, 77);
        }
        other => panic!("{:?}", other),
    }
}

#[test]
fn begin_transaction_checks_hash_then_chain() {
    let raw = bytes(FOREIGN);
    let trx = Transaction::from_rlp(&raw).unwrap();
    let operator = Operator { key: OPERATOR, lamports: 0 };
    let bound = Holder { owner: OPERATOR, transaction_hash: trx.hash, transaction: raw.clone() };
    let unbound = Holder { owner: OPERATOR, transaction_hash: [0; 32], transaction: raw };
    assert_eq!(
        begin_transaction(&unbound, trx.clone(), &operator, &[], 1, Some(U256::new(111))),
        Err(Error::HolderInvalidHash(trx.hash, [0; 32]))
    );
    assert_eq!(
        begin_transaction(&bound, trx.clone(), &operator, &[], 1, Some(U256::new(111))),
        Err(Error::InvalidChainId(U256::new(1)))
    );
    assert!(begin_transaction(&bound, trx, &operator, &[], 1, Some(U256::new(1))).is_ok());
}

#[test]
fn finalized_account_refuses_whatever_it_holds() {
    let none: Vec<Account> = vec![];
    let some = declared(&[1, 2]);
    let marker = FinalizedState { owner: OPERATOR, transaction_hash: [4; 32] }.pack();
    let mut as_holder = Holder {
        owner: OPERATOR,
        transaction_hash: [0; 32],
        transaction: bytes(LOCAL),
    }
    .pack();
    as_holder[0] = TAG_FINALIZED_STATE;
    for data in [marker, as_holder, vec![TAG_FINALIZED_STATE], vec![TAG_FINALIZED_STATE; 500]] {
        let target = account(Pubkey([0x0f; 32]), PROGRAM, data);
        for expected in [Some(U256::new(111)), None] {
            assert_eq!(
                execute(&PROGRAM, &target, &accounts(&none, &none), 10, expected),
                Err(Error::StorageAccountFinalized)
            );
            assert_eq!(
                execute(&PROGRAM, &target, &accounts(&some, &some), 0, expected),
                Err(Error::StorageAccountFinalized)
            );
        }
        assert_eq!(State::restore(&PROGRAM, &target, &some), Err(Error::StorageAccountFinalized));
        let all = invocation(target, 0, &[1, 2]);
        assert_eq!(
            process(&PROGRAM, &all, &instruction(0, 10)),
            Err(Error::StorageAccountFinalized)
        );
    }
}

#[test]
fn other_tags_are_refused_with_the_tag_found() {
    let none: Vec<Account> = vec![];
    for found in [0u8, TAG_ACCOUNT, TAG_TREASURY, 200] {
        let target = account(Pubkey([0x0f; 32]), PROGRAM, vec![found, 1, 2, 3]);
        assert_eq!(
            execute(&PROGRAM, &target, &accounts(&none, &none), 10, None),
            Err(Error::AccountInvalidTag(Pubkey([0x0f; 32]), found, TAG_HOLDER))
        );
    }
    let foreign = account(Pubkey([0x0f; 32]), Pubkey([0; 32]), vec![TAG_HOLDER]);
    assert_eq!(
        execute(&PROGRAM, &foreign, &accounts(&none, &none), 10, None),
        Err(Error::AccountInvalidOwner(Pubkey([0x0f; 32]), PROGRAM))
    );
    let empty = account(Pubkey([0x0f; 32]), PROGRAM, vec![]);
    assert_eq!(
        execute(&PROGRAM, &empty, &accounts(&none, &none), 10, None),
        Err(Error::AccountInvalidData(Pubkey([0x0f; 32])))
    );
}

fn stored_state(gas_limit: u128, gas_used: u128, reserved: &[u8]) -> State {
    State {
        owner: OPERATOR,
        transaction_hash: [6; 32],
        caller: Address([7; 20]),
        gas_limit: U256::new(gas_limit),
        gas_used: U256::new(gas_used),
        accounts: reserved.iter().map(|k| Pubkey([*k; 32])).collect(),
        continuation: vec![1, 2, 3],
    }
}

#[test]
fn continue_resumes_from_the_stored_gas() {
    let state = stored_state(100_000, 30_000, &[0x41, 0x42]);
    let target = account(Pubkey([0x0f; 32]), PROGRAM, state.pack());
    let remaining = declared(&[0x41, 0x42]);
    match execute(&PROGRAM, &target, &accounts(&remaining, &remaining), 250, None).unwrap() {
        Step::Continue { storage, gasometer, step_count } => {
            assert_eq!(storage, state);
            assert_eq!(step_count, 250);
            assert_eq!(gasometer.used_gas(), U256::new(5_000));
            assert_eq!(gasometer.used_gas_total(), U256::new(35_000));
            assert_eq!(gasometer.remaining(), U256::new(65_000));
        }
        other => panic!("{:?}", other),
    }
}

#[test]
fn continue_may_come_from_another_operator() {
    let mut state = stored_state(100_000, 30_000, &[]);
    state.owner = Pubkey([0x33; 32]);
    let target = account(Pubkey([0x0f; 32]), PROGRAM, state.pack());
    let all = invocation(target, 0, &[]);
    assert!(matches!(
        process(&PROGRAM, &all, &instruction(0, 10)),
        Ok(Step::Continue { .. })
    ));
}

#[test]
fn continue_wants_the_accounts_declared_at_begin() {
    let state = stored_state(100_000, 30_000, &[0x41, 0x42]);
    let target = account(Pubkey([0x0f; 32]), PROGRAM, state.pack());
    let swapped = declared(&[0x42, 0x41]);
    assert_eq!(
        execute(&PROGRAM, &target, &accounts(&swapped, &swapped), 10, None),
        Err(Error::AccountInvalidKey(Pubkey([0x42; 32]), Pubkey([0x41; 32])))
    );
    let fewer = declared(&[0x41]);
    assert_eq!(
        execute(&PROGRAM, &target, &accounts(&fewer, &fewer), 10, None),
        Err(Error::ProgramError(ProgramError::NotEnoughAccountKeys))
    );
}

#[test]
fn continue_fails_where_the_base_cost_is_not_covered() {
    let state = stored_state(100_000, 95_001, &[]);
    let target = account(Pubkey([0x0f; 32]), PROGRAM, state.pack());
    let none: Vec<Account> = vec![];
    assert_eq!(
        execute(&PROGRAM, &target, &accounts(&none, &none), 10, None),
        Err(Error::OutOfGas(U256::new(4_999), U256::new(5_000)))
    );
    let state = stored_state(100_000, 95_000, &[]);
    let target = account(Pubkey([0x0f; 32]), PROGRAM, state.pack());
    assert!(execute(&PROGRAM, &target, &accounts(&none, &none), 10, None).is_ok());
}

#[test]
fn finalize_keeps_a_transaction_that_ran_out_of_steps() {
    let mut state = stored_state(100_000, 30_000, &[0x41]);
    let mut meter = Gasometer::new(Some(state.gas_used), state.gas_limit).unwrap();
    meter.record_solana_transaction_cost().unwrap();
    let before = state.clone();
    let settlement =
        finalize(&mut state, meter, run(500, 12_345, ExitStatus::StepLimit, &[9, 9])).unwrap();
    assert_eq!(
        settlement,
        Settlement { completion: Completion::Suspended, treasury_payment: 5_000 }
    );
    assert_eq!(state.gas_used, U256::new(30_000 + 5_000 + 12_345));
    assert_eq!(state.continuation, vec![9, 9]);
    assert_eq!(state.gas_limit, before.gas_limit);
    assert_eq!(state.accounts, before.accounts);
    assert_eq!(state.transaction_hash, before.transaction_hash);
    assert_eq!(state.caller, before.caller);
    assert_eq!(state.owner, before.owner);
}

#[test]
fn finalize_ends_a_transaction_that_stopped() {
    for exit in [
        ExitStatus::Stop,
        ExitStatus::Return(vec![1]),
        ExitStatus::Revert(evm_loader::error::build_revert_message("no")),
        ExitStatus::Suicide,
    ] {
        let mut state = stored_state(100_000, 30_000, &[0x41]);
        let meter = Gasometer::new(Some(state.gas_used), state.gas_limit).unwrap();
        let settlement = finalize(&mut state, meter, run(3, 70_000, exit, &[9, 9])).unwrap();
        assert_eq!(
            settlement.completion,
            Completion::Finalized(FinalizedState { owner: OPERATOR, transaction_hash: [6; 32] })
        );
        assert_eq!(settlement.treasury_payment, 5_000);
        assert_eq!(state.gas_used, U256::new(100_000));
    }
}

#[test]
fn finalize_pays_the_treasury_only_for_steps() {
    let mut state = stored_state(100_000, 0, &[]);
    let meter = Gasometer::new(Some(state.gas_used), state.gas_limit).unwrap();
    let settlement = finalize(&mut state, meter, run(0, 0, ExitStatus::StepLimit, &[])).unwrap();
    assert_eq!(settlement.treasury_payment, 0);
    assert_eq!(state.gas_used, U256::zero());
}

#[test]
fn finalize_past_the_limit_leaves_the_state_as_it_was() {
    let mut state = stored_state(100_000, 30_000, &[0x41]);
    let mut meter = Gasometer::new(Some(state.gas_used), state.gas_limit).unwrap();
    meter.record_solana_transaction_cost().unwrap();
    let before = state.clone();
    assert_eq!(
        finalize(&mut state, meter, run(500, 65_001, ExitStatus::Stop, &[9, 9])),
        Err(Error::OutOfGas(U256::new(65_000), U256::new(65_001)))
    );
    assert_eq!(state, before);
    assert_eq!(
        finalize(&mut state, meter, run(500, 65_001, ExitStatus::StepLimit, &[9, 9])),
        Err(Error::OutOfGas(U256::new(65_000), U256::new(65_001)))
    );
    assert_eq!(state, before);
    assert!(finalize(&mut state, meter, run(500, 65_000, ExitStatus::StepLimit, &[9])).is_ok());
    assert_eq!(state.gas_used, state.gas_limit);
}

#[test]
fn a_transaction_runs_from_holder_to_marker() {
    let key = Pubkey([0x0f; 32]);
    let mut target = holder_account(&bytes(LOCAL));
    let remaining = declared(&[0x41, 0x42]);
    let all = accounts(&remaining, &remaining);
    let chain = Some(U256::new(111));

    let (mut state, meter) = match execute(&PROGRAM, &target, &all, 500, chain).unwrap() {
        Step::Begin { storage, gasometer, .. } => (storage, gasometer),
        other => panic!("{:?}", other),
    };
    assert_eq!(hash_log_record(&state.transaction_hash), vec![b"HASH".to_vec(), bytes(LOCAL_HASH)]);
    let settlement =
        finalize(&mut state, meter, run(500, 100_000, ExitStatus::StepLimit, &[1, 2, 3])).unwrap();
    assert_eq!(settlement.completion, Completion::Suspended);
    assert_eq!(state.gas_used, U256::new(22_000 + 100_000));
    target = account(key, PROGRAM, state.pack());

    let mut used = 122_000u128;
    for round in 0..3u8 {
        let (mut state, meter) = match execute(&PROGRAM, &target, &all, 500, chain).unwrap() {
            Step::Continue { storage, gasometer, .. } => (storage, gasometer),
            other => panic!("{:?}", other),
        };
        assert_eq!(state.gas_used, U256::new(used));
        assert_eq!(state.continuation, vec![1, 2, 3 + round]);
        let settlement = finalize(
            &mut state,
            meter,
            run(500, 200_000, ExitStatus::StepLimit, &[1, 2, 4 + round]),
        )
        .unwrap();
        assert_eq!(settlement.completion, Completion::Suspended);
        used += 205_000;
        assert_eq!(state.gas_used, U256::new(used));
        assert!(state.gas_used.le(&state.gas_limit));
        target = account(key, PROGRAM, state.pack());
    }

    let (mut state, meter) = match execute(&PROGRAM, &target, &all, 500, chain).unwrap() {
        Step::Continue { storage, gasometer, .. } => (storage, gasometer),
        other => panic!("{:?}", other),
    };
    let stored = state.clone();
    assert_eq!(
        finalize(&mut state, meter, run(500, 300_000, ExitStatus::Stop, &[])),
        Err(Error::OutOfGas(U256::new(1_000_000 - used - 5_000), U256::new(300_000)))
    );
    assert_eq!(state, stored);

    let settlement =
        finalize(&mut state, meter, run(120, 100_000, ExitStatus::Return(vec![7]), &[])).unwrap();
    let marker = match settlement.completion {
        Completion::Finalized(marker) => marker,
        other => panic!("{:?}", other),
    };
    assert_eq!(marker.transaction_hash.to_vec(), bytes(LOCAL_HASH));
    target = account(key, PROGRAM, marker.pack());
    assert_eq!(execute(&PROGRAM, &target, &all, 500, chain), Err(Error::StorageAccountFinalized));
}

#[test]
fn hash_log_record_is_the_word_and_the_hash() {
    let record = hash_log_record(&[0xab; 32]);
    assert_eq!(record, vec![vec![0x48, 0x41, 0x53, 0x48], vec![0xab; 32]]);
}
