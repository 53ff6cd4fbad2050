use evm_loader::account::{
    check_key, resolve, role, system_program_id, tag, Account, AccountRole, EthereumAccount,
    FinalizedState, Holder, MainTreasury, Operator, State, Treasury, TAG_ACCOUNT,
    TAG_FINALIZED_STATE, TAG_HOLDER, TAG_STATE, TAG_TREASURY,
};
use evm_loader::error::{Error, ProgramError};
use evm_loader::types::{Address, Pubkey, Transaction, U256};

const PROGRAM: Pubkey = Pubkey([0xaa; 32]);

fn account(key: u8, owner: Pubkey, data: Vec<u8>) -> Account {
    Account { key: Pubkey([key; 32]), owner, lamports: 1_000, data, is_signer: false, is_writable: true }
}

fn state() -> State {
    State {
        owner: Pubkey([1; 32]),
        transaction_hash: [2; 32],
        caller: Address([3; 20]),
        gas_limit: U256::from_words(1, 2),
        gas_used: U256::new(77),
        accounts: vec![Pubkey([4; 32]), Pubkey([5; 32])],
        continuation: vec![9, 8, 7],
    }
}

#[test]
fn roles_are_read_from_tags() {
    assert_eq!(role(TAG_HOLDER), AccountRole::Holder);
    assert_eq!(role(TAG_STATE), AccountRole::State);
    assert_eq!(role(TAG_FINALIZED_STATE), AccountRole::FinalizedState);
    assert_eq!(role(TAG_TREASURY), AccountRole::Treasury);
    assert_eq!(role(0), AccountRole::Invalid);
    assert_eq!(role(TAG_ACCOUNT), AccountRole::Invalid);
    assert_eq!(role(255), AccountRole::Invalid);
    assert_eq!(Holder::TAG, TAG_HOLDER);
    assert_eq!(State::TAG, TAG_STATE);
    assert_eq!(FinalizedState::TAG, TAG_FINALIZED_STATE);
}

#[test]
fn tag_is_the_first_byte_of_a_program_account() {
    assert_eq!(tag(&PROGRAM, &account(1, PROGRAM, vec![51, 0, 0])), Ok(51));
    assert_eq!(resolve(&PROGRAM, &account(1, PROGRAM, vec![51])), Ok(AccountRole::Holder));
    assert_eq!(resolve(&PROGRAM, &account(1, PROGRAM, vec![31, 1, 2])), Ok(AccountRole::FinalizedState));
    assert_eq!(resolve(&PROGRAM, &account(1, PROGRAM, vec![99])), Ok(AccountRole::Invalid));
    assert_eq!(
        tag(&PROGRAM, &account(1, Pubkey([0xab; 32]), vec![51])),
        Err(Error::AccountInvalidOwner(Pubkey([1; 32]), PROGRAM))
    );
    assert_eq!(
        tag(&PROGRAM, &account(1, PROGRAM, vec![])),
        Err(Error::AccountInvalidData(Pubkey([1; 32])))
    );
    assert_eq!(
        resolve(&PROGRAM, &account(1, PROGRAM, vec![])),
        Err(Error::AccountInvalidData(Pubkey([1; 32])))
    );
}

#[test]
fn operator_must_have_signed() {
    let mut info = account(1, system_program_id(), vec![]);
    assert_eq!(Operator::from_account(&info), Err(Error::UnauthorizedOperator));
    info.is_signer = true;
    assert_eq!(
        Operator::from_account(&info),
        Ok(Operator { key: Pubkey([1; 32]), lamports: 1_000 })
    );
}

#[test]
fn ethereum_account_holds_an_address() {
    let mut data = vec![TAG_ACCOUNT];
    data.extend_from_slice(&[0x35; 20]);
    data.extend_from_slice(&[0; 8]);
    assert_eq!(
        EthereumAccount::from_account(&PROGRAM, &account(3, PROGRAM, data.clone())),
        Ok(EthereumAccount { key: Pubkey([3; 32]), address: Address([0x35; 20]) })
    );
    assert_eq!(
        EthereumAccount::from_account(&PROGRAM, &account(3, PROGRAM, data[..20].to_vec())),
        Err(Error::AccountInvalidData(Pubkey([3; 32])))
    );
    data[0] = TAG_HOLDER;
    assert_eq!(
        EthereumAccount::from_account(&PROGRAM, &account(3, PROGRAM, data.clone())),
        Err(Error::AccountInvalidTag(Pubkey([3; 32]), TAG_HOLDER, TAG_ACCOUNT))
    );
    assert_eq!(
        EthereumAccount::from_account(&PROGRAM, &account(3, Pubkey([0; 32]), data)),
        Err(Error::AccountInvalidOwner(Pubkey([3; 32]), PROGRAM))
    );
}

#[test]
fn check_key_names_both_keys() {
    let info = account(4, PROGRAM, vec![]);
    assert_eq!(check_key(&info, &Pubkey([4; 32])), Ok(()));
    assert_eq!(
        check_key(&info, &Pubkey([5; 32])),
        Err(Error::AccountInvalidKey(Pubkey([4; 32]), Pubkey([5; 32])))
    );
    assert_eq!(system_program_id(), Pubkey([0; 32]));
}

#[test]
fn treasury_addresses_are_derived_from_the_index() {
    let program = solana_program::pubkey::Pubkey::new_from_array(PROGRAM.0);
    for index in [0u32, 1, 7, 127, 0x0102_0304] {
        let (key, bump) = solana_program::pubkey::Pubkey::find_program_address(
            &[b"treasury_pool", &index.to_le_bytes()],
            &program,
        );
        assert_eq!(Treasury::address(&PROGRAM, index), Some((Pubkey(key.to_bytes()), bump)));
    }
    let (key, bump) =
        solana_program::pubkey::Pubkey::find_program_address(&[b"treasury_pool"], &program);
    assert_eq!(MainTreasury::address(&PROGRAM), Some((Pubkey(key.to_bytes()), bump)));
    assert_ne!(Treasury::address(&PROGRAM, 0), Treasury::address(&PROGRAM, 1));
    assert_ne!(Treasury::address(&PROGRAM, 0), MainTreasury::address(&PROGRAM));
    assert_ne!(Treasury::address(&PROGRAM, 0), Treasury::address(&Pubkey([0xab; 32]), 0));
}

#[test]
fn treasury_account_must_have_the_derived_key() {
    let (key, _) = Treasury::address(&PROGRAM, 3).unwrap();
    let mut info = account(0, PROGRAM, vec![]);
    info.key = key;
    info.lamports = 55;
    assert_eq!(
        Treasury::from_account(&PROGRAM, 3, &info),
        Ok(Treasury { key, index: 3, lamports: 55 })
    );
    let (other, _) = Treasury::address(&PROGRAM, 4).unwrap();
    assert_eq!(
        Treasury::from_account(&PROGRAM, 4, &info),
        Err(Error::AccountInvalidKey(key, other))
    );
}

#[test]
fn holder_round_trip() {
    let holder =
        Holder { owner: Pubkey([1; 32]), transaction_hash: [2; 32], transaction: vec![3, 4, 5] };
    let data = holder.pack();
    let mut expected = vec![TAG_HOLDER];
    expected.extend_from_slice(&[1; 32]);
    expected.extend_from_slice(&[2; 32]);
    expected.extend_from_slice(&[3, 0, 0, 0, 0, 0, 0, 0]);
    expected.extend_from_slice(&[3, 4, 5]);
    assert_eq!(data, expected);
    assert_eq!(Holder::from_account(&PROGRAM, &account(9, PROGRAM, data)), Ok(holder.clone()));
    assert_eq!(holder.transaction(), &[3, 4, 5]);
}

#[test]
fn holder_ignores_what_follows_the_transaction() {
    let holder =
        Holder { owner: Pubkey([1; 32]), transaction_hash: [2; 32], transaction: vec![3, 4, 5] };
    let mut data = holder.pack();
    data.extend_from_slice(&[0xee; 40]);
    assert_eq!(Holder::from_account(&PROGRAM, &account(9, PROGRAM, data)), Ok(holder));
}

#[test]
fn holder_must_be_whole() {
    let holder =
        Holder { owner: Pubkey([1; 32]), transaction_hash: [2; 32], transaction: vec![3, 4, 5] };
    let data = holder.pack();
    for len in [1usize, 72, 73, 75] {
        assert_eq!(
            Holder::from_account(&PROGRAM, &account(9, PROGRAM, data[..len].to_vec())),
            Err(Error::AccountInvalidData(Pubkey([9; 32])))
        );
    }
    let mut state_tagged = data.clone();
    state_tagged[0] = TAG_STATE;
    assert_eq!(
        Holder::from_account(&PROGRAM, &account(9, PROGRAM, state_tagged)),
        Err(Error::AccountInvalidTag(Pubkey([9; 32]), TAG_STATE, TAG_HOLDER))
    );
    assert_eq!(
        Holder::from_account(&PROGRAM, &account(9, Pubkey([0; 32]), data)),
        Err(Error::AccountInvalidOwner(Pubkey([9; 32]), PROGRAM))
    );
}

#[test]
fn holder_validations_name_both_sides() {
    let raw = [0xcd, 0x80, 0x01, 0x82, 0x52, 0x08, 0x80, 0x80, 0x82, 0x60, 0x01, 0x1b, 0x01, 0x01];
    let trx = Transaction::from_rlp(&raw).unwrap();
    let holder =
        Holder { owner: Pubkey([1; 32]), transaction_hash: trx.hash, transaction: raw.to_vec() };
    assert_eq!(holder.validate_transaction(&trx), Ok(()));
    assert_eq!(holder.validate_owner(&Operator { key: Pubkey([1; 32]), lamports: 0 }), Ok(()));
    assert_eq!(
        holder.validate_owner(&Operator { key: Pubkey([2; 32]), lamports: 0 }),
        Err(Error::HolderInvalidOwner(Pubkey([1; 32]), Pubkey([2; 32])))
    );
    let mut bound_elsewhere = holder.clone();
    bound_elsewhere.transaction_hash[31] ^= 1;
    assert_eq!(
        bound_elsewhere.validate_transaction(&trx),
        Err(Error::HolderInvalidHash(trx.hash, bound_elsewhere.transaction_hash))
    );
}

#[test]
fn state_round_trip() {
    let state = state();
    let data = state.pack();
    assert_eq!(data.len(), 157 + 64 + 3);
    assert_eq!(data[0], TAG_STATE);
    assert_eq!(&data[1..33], &[1; 32]);
    assert_eq!(&data[33..65], &[2; 32]);
    assert_eq!(&data[65..85], &[3; 20]);
    assert_eq!(&data[85..117], &state.gas_limit.to_be_bytes());
    assert_eq!(&data[117..149], &state.gas_used.to_be_bytes());
    assert_eq!(&data[149..157], &[2, 0, 0, 0, 0, 0, 0, 0]);
    assert_eq!(&data[157..189], &[4; 32]);
    assert_eq!(&data[189..221], &[5; 32]);
    assert_eq!(&data[221..], &[9, 8, 7]);
    assert_eq!(State::unpack(&data), Some(state));
}

#[test]
fn state_without_accounts_or_continuation_round_trips() {
    let mut state = state();
    state.accounts.clear();
    state.continuation.clear();
    let data = state.pack();
    assert_eq!(data.len(), 157);
    assert_eq!(State::unpack(&data), Some(state));
}

#[test]
fn state_must_be_whole_and_within_its_limit() {
    let data = state().pack();
    assert_eq!(State::unpack(&data[..156]), None);
    assert_eq!(State::unpack(&data[..157]), None);
    assert_eq!(State::unpack(&data[..220]), None);
    assert!(State::unpack(&data[..221]).is_some());
    let mut overdrawn = state();
    overdrawn.gas_used = U256::from_words(1, 3);
    assert_eq!(State::unpack(&overdrawn.pack()), None);
    overdrawn.gas_used = U256::from_words(1, 2);
    assert!(State::unpack(&overdrawn.pack()).is_some());
    let mut many = data.clone();
    many[149..157].copy_from_slice(&[0xff; 8]);
    assert_eq!(State::unpack(&many), None);
}

#[test]
fn restore_wants_the_reserved_accounts_in_order() {
    let info = account(9, PROGRAM, state().pack());
    let a = account(4, PROGRAM, vec![]);
    let b = account(5, PROGRAM, vec![]);
    let c = account(6, PROGRAM, vec![]);
    assert_eq!(State::restore(&PROGRAM, &info, &[a.clone(), b.clone()]), Ok(state()));
    assert_eq!(
        State::restore(&PROGRAM, &info, &[b.clone(), a.clone()]),
        Err(Error::AccountInvalidKey(Pubkey([5; 32]), Pubkey([4; 32])))
    );
    assert_eq!(
        State::restore(&PROGRAM, &info, &[a.clone(), c.clone()]),
        Err(Error::AccountInvalidKey(Pubkey([6; 32]), Pubkey([5; 32])))
    );
    assert_eq!(
        State::restore(&PROGRAM, &info, &[a.clone()]),
        Err(Error::ProgramError(ProgramError::NotEnoughAccountKeys))
    );
    assert_eq!(
        State::restore(&PROGRAM, &info, &[a, b, c]),
        Err(Error::ProgramError(ProgramError::NotEnoughAccountKeys))
    );
}

#[test]
fn restore_refuses_what_is_no_state() {
    let mut data = state().pack();
    data[0] = TAG_FINALIZED_STATE;
    assert_eq!(
        State::restore(&PROGRAM, &account(9, PROGRAM, data.clone()), &[]),
        Err(Error::StorageAccountFinalized)
    );
    data[0] = TAG_HOLDER;
    assert_eq!(
        State::restore(&PROGRAM, &account(9, PROGRAM, data.clone()), &[]),
        Err(Error::AccountInvalidTag(Pubkey([9; 32]), TAG_HOLDER, TAG_STATE))
    );
    data[0] = TAG_STATE;
    assert_eq!(
        State::restore(&PROGRAM, &account(9, PROGRAM, data[..100].to_vec()), &[]),
        Err(Error::AccountInvalidData(Pubkey([9; 32])))
    );
    assert_eq!(
        State::restore(&PROGRAM, &account(9, Pubkey([0; 32]), data), &[]),
        Err(Error::AccountInvalidOwner(Pubkey([9; 32]), PROGRAM))
    );
}

#[test]
fn marker_keeps_owner_and_hash() {
    let marker = state().finalize();
    assert_eq!(marker, FinalizedState { owner: Pubkey([1; 32]), transaction_hash: [2; 32] });
    let data = marker.pack();
    let mut expected = vec![TAG_FINALIZED_STATE];
    expected.extend_from_slice(&[1; 32]);
    expected.extend_from_slice(&[2; 32]);
    assert_eq!(data, expected);
}

#[test]
fn state_reserves_exactly_its_accounts() {
    let state = state();
    assert!(state.reserves(&Pubkey([4; 32])));
    assert!(state.reserves(&Pubkey([5; 32])));
    assert!(!state.reserves(&Pubkey([6; 32])));
    let mut none = state.clone();
    none.accounts.clear();
    assert!(!none.reserves(&Pubkey([4; 32])));
}
