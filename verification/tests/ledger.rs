use nadrunner::codec::{MINT_AUTHORITY_LEN, TOKEN_ACCOUNT_LEN};
use nadrunner::dispatch::process_instruction;
use nadrunner::errors::{NadrunnerError, TokenError};
use nadrunner::keys::Pubkey;
use nadrunner::state::{AccountSlot, MintAuthority, NadrunnerToken};
use nadrunner::transitions::{
    admin_mint, initialize_mint_authority, initialize_token_account, mint_game_score,
    transfer_tokens, update_mint_authority, MAX_GAME_MINT,
};

fn key(b: u8) -> Pubkey {
    Pubkey::new(vec![b; 32])
}

const PROGRAM: u8 = 0xAA;

/// A record slot assigned to the program, holding `data`.
fn record_slot(data: Vec<u8>) -> AccountSlot {
    AccountSlot {
        key: key(0x10),
        owner: key(PROGRAM),
        is_signer: false,
        lamports: 1_000_000_000,
        data,
    }
}

/// A signing participant with address byte `k`.
fn signer_slot(k: u8) -> AccountSlot {
    AccountSlot { key: key(k), owner: key(0xEE), is_signer: true, lamports: 0, data: vec![] }
}

fn token_data(owner: u8, amount: u64) -> Vec<u8> {
    NadrunnerToken { is_initialized: true, owner: key(owner), amount }.pack()
}

fn authority_data(signer: u8) -> Vec<u8> {
    MintAuthority { is_initialized: true, signer_pubkey: key(signer) }.pack()
}

#[test]
fn initialize_token_account_sets_fresh_record() {
    let program_id = key(PROGRAM);
    let mut slot = record_slot(vec![0u8; TOKEN_ACCOUNT_LEN]);
    let owner = signer_slot(5);
    assert!(initialize_token_account(&program_id, &mut slot, &owner, true).is_ok());
    let record = NadrunnerToken::unpack(&slot.data).unwrap();
    assert!(record.is_initialized);
    assert_eq!(record.owner.bytes, vec![5u8; 32]);
    assert_eq!(record.amount, 0);
}

#[test]
fn initialize_rejects_foreign_slot() {
    let program_id = key(PROGRAM);
    let mut slot = record_slot(vec![0u8; TOKEN_ACCOUNT_LEN]);
    slot.owner = key(0xBB);
    let owner = signer_slot(5);
    assert_eq!(
        initialize_token_account(&program_id, &mut slot, &owner, true).unwrap_err(),
        TokenError::IncorrectProgramId
    );
    assert_eq!(slot.data, vec![0u8; TOKEN_ACCOUNT_LEN]);
}

#[test]
fn initialize_requires_rent_exemption() {
    let program_id = key(PROGRAM);
    let mut slot = record_slot(vec![0u8; TOKEN_ACCOUNT_LEN]);
    let owner = signer_slot(5);
    assert_eq!(
        initialize_token_account(&program_id, &mut slot, &owner, false).unwrap_err(),
        TokenError::AccountNotRentExempt
    );
    assert_eq!(slot.data, vec![0u8; TOKEN_ACCOUNT_LEN]);
}

#[test]
fn initialize_requires_signer() {
    let program_id = key(PROGRAM);
    let mut slot = record_slot(vec![0u8; TOKEN_ACCOUNT_LEN]);
    let mut owner = signer_slot(5);
    owner.is_signer = false;
    assert_eq!(
        initialize_token_account(&program_id, &mut slot, &owner, true).unwrap_err(),
        TokenError::MissingRequiredSignature
    );
}

#[test]
fn initialize_twice_fails_and_keeps_first_record() {
    let program_id = key(PROGRAM);
    let mut slot = record_slot(vec![0u8; TOKEN_ACCOUNT_LEN]);
    let owner = signer_slot(5);
    assert!(initialize_token_account(&program_id, &mut slot, &owner, true).is_ok());
    let first = slot.data.clone();
    let other = signer_slot(6);
    assert_eq!(
        initialize_token_account(&program_id, &mut slot, &other, true).unwrap_err(),
        TokenError::AccountAlreadyInitialized
    );
    assert_eq!(slot.data, first);
}

#[test]
fn initialize_mint_authority_stores_deployer() {
    let program_id = key(PROGRAM);
    let mut slot = record_slot(vec![0u8; MINT_AUTHORITY_LEN]);
    let deployer = signer_slot(0xD0);
    assert!(initialize_mint_authority(&program_id, &mut slot, &deployer, true).is_ok());
    let record = MintAuthority::unpack(&slot.data).unwrap();
    assert!(record.is_initialized);
    assert_eq!(record.signer_pubkey.bytes, vec![0xD0u8; 32]);
}

#[test]
fn update_authority_rotates_signer() {
    let program_id = key(PROGRAM);
    let mut authority = record_slot(authority_data(0xA1));
    let current = signer_slot(0xA1);
    let new_signer = key(0xB2);
    assert!(
        update_mint_authority(&program_id, &mut authority, &current, &new_signer).is_ok()
    );
    let record = MintAuthority::unpack(&authority.data).unwrap();
    assert_eq!(record.signer_pubkey.bytes, vec![0xB2u8; 32]);

    // The old signer can no longer mint...
    let mut token = record_slot(token_data(5, 0));
    assert_eq!(
        admin_mint(&program_id, &authority, &current, &mut token, 10).unwrap_err(),
        TokenError::InvalidAccountData
    );
    // ...while the new one can.
    let new_admin = signer_slot(0xB2);
    assert!(admin_mint(&program_id, &authority, &new_admin, &mut token, 10).is_ok());
    assert_eq!(NadrunnerToken::unpack(&token.data).unwrap().amount, 10);
}

#[test]
fn update_authority_rejects_wrong_signer() {
    let program_id = key(PROGRAM);
    let mut authority = record_slot(authority_data(0xA1));
    let stranger = signer_slot(0xC3);
    let before = authority.data.clone();
    assert_eq!(
        update_mint_authority(&program_id, &mut authority, &stranger, &key(0xB2)).unwrap_err(),
        TokenError::InvalidAccountData
    );
    assert_eq!(authority.data, before);
}

#[test]
fn admin_mint_credits_amount() {
    let program_id = key(PROGRAM);
    let authority = record_slot(authority_data(0xA1));
    let admin = signer_slot(0xA1);
    let mut token = record_slot(token_data(5, 40));
    assert!(admin_mint(&program_id, &authority, &admin, &mut token, 1000).is_ok());
    assert_eq!(NadrunnerToken::unpack(&token.data).unwrap().amount, 1040);
}

#[test]
fn admin_mint_rejects_wrong_signer() {
    let program_id = key(PROGRAM);
    let authority = record_slot(authority_data(0xA1));
    let stranger = signer_slot(0xC3);
    let mut token = record_slot(token_data(5, 40));
    let before = token.data.clone();
    assert_eq!(
        admin_mint(&program_id, &authority, &stranger, &mut token, 1000).unwrap_err(),
        TokenError::InvalidAccountData
    );
    assert_eq!(token.data, before);
}

#[test]
fn admin_mint_rejects_overflow() {
    let program_id = key(PROGRAM);
    let authority = record_slot(authority_data(0xA1));
    let admin = signer_slot(0xA1);
    let mut token = record_slot(token_data(5, u64::MAX - 1));
    assert_eq!(
        admin_mint(&program_id, &authority, &admin, &mut token, 2).unwrap_err(),
        TokenError::ArithmeticOverflow
    );
    assert_eq!(NadrunnerToken::unpack(&token.data).unwrap().amount, u64::MAX - 1);
}

#[test]
fn admin_mint_rejects_uninitialized_token_account() {
    let program_id = key(PROGRAM);
    let authority = record_slot(authority_data(0xA1));
    let admin = signer_slot(0xA1);
    let mut token = record_slot(vec![0u8; TOKEN_ACCOUNT_LEN]);
    assert_eq!(
        admin_mint(&program_id, &authority, &admin, &mut token, 1).unwrap_err(),
        TokenError::UninitializedAccount
    );
}

#[test]
fn mint_game_score_at_cap_succeeds() {
    let program_id = key(PROGRAM);
    let mut token = record_slot(token_data(5, 7));
    let player = signer_slot(5);
    let authority = record_slot(authority_data(0xA1));
    let signature = [0u8; 64];
    assert!(
        mint_game_score(
            &program_id,
            &mut token,
            &player,
            &authority,
            99,
            MAX_GAME_MINT,
            &signature
        )
        .is_ok()
    );
    assert_eq!(
        NadrunnerToken::unpack(&token.data).unwrap().amount,
        MAX_GAME_MINT + 7
    );
}

#[test]
fn mint_game_score_above_cap_fails() {
    let program_id = key(PROGRAM);
    let mut token = record_slot(token_data(5, 7));
    let player = signer_slot(5);
    let authority = record_slot(authority_data(0xA1));
    let signature = [0u8; 64];
    let before = token.data.clone();
    assert_eq!(
        mint_game_score(
            &program_id,
            &mut token,
            &player,
            &authority,
            99,
            MAX_GAME_MINT + 1,
            &signature
        )
        .unwrap_err(),
        TokenError::Custom(NadrunnerError::ScoreExceedsMaximum)
    );
    assert_eq!(token.data, before);
}

#[test]
fn mint_game_score_requires_player_ownership() {
    let program_id = key(PROGRAM);
    let mut token = record_slot(token_data(5, 7));
    let not_owner = signer_slot(6);
    let authority = record_slot(authority_data(0xA1));
    let signature = [0u8; 64];
    assert_eq!(
        mint_game_score(&program_id, &mut token, &not_owner, &authority, 99, 10, &signature)
            .unwrap_err(),
        TokenError::InvalidAccountData
    );
}

#[test]
fn mint_game_score_requires_signature() {
    let program_id = key(PROGRAM);
    let mut token = record_slot(token_data(5, 7));
    let mut player = signer_slot(5);
    player.is_signer = false;
    let authority = record_slot(authority_data(0xA1));
    let signature = [0u8; 64];
    assert_eq!(
        mint_game_score(&program_id, &mut token, &player, &authority, 99, 10, &signature)
            .unwrap_err(),
        TokenError::MissingRequiredSignature
    );
}

#[test]
fn transfer_moves_and_conserves() {
    let program_id = key(PROGRAM);
    let mut source = record_slot(token_data(5, 1000));
    let mut dest = record_slot(token_data(6, 0));
    let owner = signer_slot(5);
    assert!(transfer_tokens(&program_id, &mut source, &mut dest, &owner, 400).is_ok());
    let s = NadrunnerToken::unpack(&source.data).unwrap();
    let d = NadrunnerToken::unpack(&dest.data).unwrap();
    assert_eq!(s.amount, 600);
    assert_eq!(d.amount, 400);
    assert_eq!(s.amount + d.amount, 1000);
    // Neither record's owner moved.
    assert_eq!(s.owner.bytes, vec![5u8; 32]);
    assert_eq!(d.owner.bytes, vec![6u8; 32]);
}

#[test]
fn transfer_insufficient_leaves_both_unchanged() {
    let program_id = key(PROGRAM);
    let mut source = record_slot(token_data(5, 300));
    let mut dest = record_slot(token_data(6, 77));
    let owner = signer_slot(5);
    let source_before = source.data.clone();
    let dest_before = dest.data.clone();
    assert_eq!(
        transfer_tokens(&program_id, &mut source, &mut dest, &owner, 301).unwrap_err(),
        TokenError::InsufficientFunds
    );
    assert_eq!(source.data, source_before);
    assert_eq!(dest.data, dest_before);
}

#[test]
fn transfer_rejects_overflowing_destination() {
    let program_id = key(PROGRAM);
    let mut source = record_slot(token_data(5, 300));
    let mut dest = record_slot(token_data(6, u64::MAX - 10));
    let owner = signer_slot(5);
    assert_eq!(
        transfer_tokens(&program_id, &mut source, &mut dest, &owner, 11).unwrap_err(),
        TokenError::ArithmeticOverflow
    );
    assert_eq!(NadrunnerToken::unpack(&source.data).unwrap().amount, 300);
}

#[test]
fn transfer_rejects_wrong_owner() {
    let program_id = key(PROGRAM);
    let mut source = record_slot(token_data(5, 300));
    let mut dest = record_slot(token_data(6, 0));
    let stranger = signer_slot(7);
    assert_eq!(
        transfer_tokens(&program_id, &mut source, &mut dest, &stranger, 10).unwrap_err(),
        TokenError::InvalidAccountData
    );
}

#[test]
fn dispatch_rejects_empty_data() {
    let program_id = key(PROGRAM);
    let mut accounts: Vec<AccountSlot> = vec![];
    assert_eq!(
        process_instruction(&program_id, &mut accounts, &vec![], true, 0).unwrap_err(),
        TokenError::InvalidInstructionData
    );
}

#[test]
fn dispatch_rejects_unknown_opcode() {
    let program_id = key(PROGRAM);
    let mut accounts: Vec<AccountSlot> = vec![];
    assert_eq!(
        process_instruction(&program_id, &mut accounts, &vec![9], true, 0).unwrap_err(),
        TokenError::InvalidInstructionData
    );
}

#[test]
fn dispatch_rejects_short_payload() {
    let program_id = key(PROGRAM);
    let mut accounts = vec![record_slot(authority_data(0xA1)), signer_slot(0xA1)];
    let mut data = vec![2u8];
    data.extend_from_slice(&[0u8; 10]);
    assert_eq!(
        process_instruction(&program_id, &mut accounts, &data, true, 0).unwrap_err(),
        TokenError::InvalidInstructionData
    );
}

#[test]
fn dispatch_rejects_missing_accounts() {
    let program_id = key(PROGRAM);
    let mut accounts = vec![record_slot(vec![0u8; TOKEN_ACCOUNT_LEN])];
    assert_eq!(
        process_instruction(&program_id, &mut accounts, &vec![0], true, 0).unwrap_err(),
        TokenError::NotEnoughAccountKeys
    );
}

/// End to end: initialize two token accounts and the authority, mint
/// 1000 to the first holder, then transfer 400 to the second.
#[test]
fn end_to_end_mint_and_transfer() {
    let program_id = key(PROGRAM);
    let sysvar = signer_slot(0xFE);

    // Initialize the token account of holder O.
    let mut accounts = vec![
        record_slot(vec![0u8; TOKEN_ACCOUNT_LEN]),
        signer_slot(5),
        sysvar.dup(),
    ];
    assert!(process_instruction(&program_id, &mut accounts, &vec![0], true, 0).is_ok());
    let o_account = accounts.remove(0);
    assert_eq!(NadrunnerToken::unpack(&o_account.data).unwrap().amount, 0);

    // Initialize the token account of holder D.
    let mut accounts = vec![
        record_slot(vec![0u8; TOKEN_ACCOUNT_LEN]),
        signer_slot(6),
        sysvar.dup(),
    ];
    assert!(process_instruction(&program_id, &mut accounts, &vec![0], true, 0).is_ok());
    let d_account = accounts.remove(0);

    // Initialize the mint authority under deployer A.
    let mut accounts = vec![
        record_slot(vec![0u8; MINT_AUTHORITY_LEN]),
        signer_slot(0xA1),
        sysvar.dup(),
    ];
    assert!(process_instruction(&program_id, &mut accounts, &vec![1], true, 0).is_ok());
    let authority_account = accounts.remove(0);

    // AdminMint(1000) by authority A into O's account.
    let mut data = vec![3u8];
    data.extend_from_slice(&1000u64.to_le_bytes());
    let mut accounts = vec![authority_account, signer_slot(0xA1), o_account];
    assert!(process_instruction(&program_id, &mut accounts, &data, true, 0).is_ok());
    let o_account = accounts.remove(2);
    assert_eq!(NadrunnerToken::unpack(&o_account.data).unwrap().amount, 1000);

    // TransferTokens(400) from O to D.
    let mut data = vec![5u8];
    data.extend_from_slice(&400u64.to_le_bytes());
    let mut accounts = vec![o_account, d_account, signer_slot(5)];
    assert!(process_instruction(&program_id, &mut accounts, &data, true, 0).is_ok());
    assert_eq!(NadrunnerToken::unpack(&accounts[0].data).unwrap().amount, 600);
    assert_eq!(NadrunnerToken::unpack(&accounts[1].data).unwrap().amount, 400);
}
