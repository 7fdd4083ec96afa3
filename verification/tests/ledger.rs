//! Processor tests: the instruction scenarios, the authorization rules, and
//! one input for every error the ledger can report.

use token_ledger::error::TokenError;
use token_ledger::instruction::{
    initialize_account, initialize_mint, initialize_portfolio, mint_to, AuthorityType,
    TokenInstruction,
};
use token_ledger::processor::{AccountHandle, Processor};
use token_ledger::state::{Account, AccountState, Mint, Multisig, Portfolio};

fn key(n: u8) -> [u8; 32] {
    [n; 32]
}

fn handle(key: [u8; 32], is_signer: bool, owner: [u8; 32], lamports: u64, data: Vec<u8>)
    -> AccountHandle {
    AccountHandle { key, is_signer, is_writable: true, owner, lamports, data }
}

fn mint_record(
    authority: Option<[u8; 32]>,
    freeze: Option<[u8; 32]>,
    supply: u64,
    decimals: u8,
) -> Vec<u8> {
    let m = Mint {
        mint_authority: authority,
        supply,
        decimals,
        is_initialized: true,
        freeze_authority: freeze,
        mint_id_asset: None,
        pubkey_swap: None,
    };
    let mut buf = vec![0; Mint::get_packed_len()];
    Mint::pack(m, &mut buf).unwrap();
    buf
}

fn account_record(
    mint: [u8; 32],
    owner: [u8; 32],
    amount: u64,
    usdc: u64,
    asset: u64,
    state: AccountState,
) -> Vec<u8> {
    let a = Account {
        mint,
        owner,
        amount,
        delegate: None,
        state,
        is_native: None,
        delegated_amount: 0,
        close_authority: None,
        asset,
        usdc,
    };
    let mut buf = vec![0; Account::get_packed_len()];
    Account::pack(a, &mut buf).unwrap();
    buf
}

#[test]
fn test_withdraw() {}

#[test]
fn test_unique_account_sizes() {
    assert_ne!(Mint::get_packed_len(), 0);
    assert_ne!(Mint::get_packed_len(), Account::get_packed_len());
    assert_ne!(Mint::get_packed_len(), Multisig::get_packed_len());
    assert_ne!(Account::get_packed_len(), 0);
    assert_ne!(Account::get_packed_len(), Multisig::get_packed_len());
    assert_ne!(Multisig::get_packed_len(), 0);
}

#[test]
fn test_create_portfolio() {
    let program_id = key(1);
    let creator_account = key(2);
    let owner = key(3);
    let meta_data_url: Vec<u8> = {
        let mut v = Vec::new();
        while v.len() < 128 {
            for b in [97u8, 97, 98, 98, 99, 99].iter() {
                if v.len() < 128 {
                    v.push(*b);
                }
            }
        }
        v
    };
    let meta_data_hash: u16 = 3;
    let amounts: [u8; 9] = [4, 6, 8, 2, 8, 5, 2, 1, 3];
    let periods: [u8; 9] = [5, 7, 9, 3, 4, 7, 7, 2, 4];
    let asset_keys: Vec<[u8; 32]> = (10u8..28).map(key).collect();

    let ix = initialize_portfolio(
        &program_id,
        &creator_account,
        &owner,
        &meta_data_url,
        &meta_data_hash,
        &amounts[0],
        &asset_keys[0],
        &periods[0],
        &asset_keys[1],
        &amounts[1],
        &asset_keys[2],
        &periods[1],
        &asset_keys[3],
        &amounts[2],
        &asset_keys[4],
        &periods[2],
        &asset_keys[5],
        &amounts[3],
        &asset_keys[6],
        &periods[3],
        &asset_keys[7],
        &amounts[4],
        &asset_keys[8],
        &periods[4],
        &asset_keys[9],
        &amounts[5],
        &asset_keys[10],
        &periods[5],
        &asset_keys[11],
        &amounts[6],
        &asset_keys[12],
        &periods[6],
        &asset_keys[13],
        &amounts[7],
        &asset_keys[14],
        &periods[7],
        &asset_keys[15],
        &amounts[8],
        &asset_keys[16],
        &periods[8],
        &asset_keys[17],
    )
    .unwrap();

    // The processor walks: the descriptor, the creator, the nine pairs of
    // asset handles, then the owner.
    let portfolio_key = key(9);
    let mut accounts = vec![handle(
        portfolio_key,
        false,
        program_id,
        42,
        vec![0; Portfolio::get_packed_len()],
    )];
    accounts.push(handle(creator_account, true, program_id, 42, Vec::new()));
    for k in asset_keys.iter() {
        accounts.push(handle(*k, false, program_id, 42, Vec::new()));
    }
    accounts.push(handle(owner, true, program_id, 42, Vec::new()));

    Processor::process(&program_id, &mut accounts, &ix.data, 0).unwrap();

    let portfolio = Portfolio::unpack(&accounts[0].data).unwrap();
    assert_eq!(portfolio.is_initialize, 1);
    assert_eq!(portfolio.portfolio_account, portfolio_key);
    assert_eq!(portfolio.creator_portfolio, creator_account);
    assert_eq!(portfolio.metadataUrl, meta_data_url);
    assert_eq!(portfolio.metadataHash, 3);
    assert_eq!(portfolio.amountAsset1, 4);
    assert_eq!(portfolio.addressAsset1, asset_keys[0]);
    assert_eq!(portfolio.periodAsset1, 5);
    assert_eq!(portfolio.assetToSoldIntoAsset1, asset_keys[1]);
    assert_eq!(portfolio.amountAsset9, 3);
    assert_eq!(portfolio.addressAsset9, asset_keys[16]);

    // re-initialization is rejected
    assert_eq!(
        Processor::process(&program_id, &mut accounts, &ix.data, 0),
        Err(TokenError::AlreadyInUse)
    );
}

#[test]
fn test_initialize_mint_and_mint_to() {
    // InitializeMint(decimals = 2, authority = A), then MintTo of 1000:
    // the account ends at amount 1000, usdc 2000, asset 500; supply is 1000.
    let program_id = key(1);
    let mint_key = key(2);
    let authority = key(3);
    let account_key = key(4);
    let owner_key = key(5);
    let rent_key = token_ledger::key::RENT_SYSVAR;

    let ix = initialize_mint(&program_id, &mint_key, 2, &authority, None, None, None).unwrap();
    let mut accounts = vec![
        handle(mint_key, false, program_id, 100, vec![0; Mint::get_packed_len()]),
        handle(rent_key, false, program_id, 0, Vec::new()),
    ];
    Processor::process(&program_id, &mut accounts, &ix.data, 100).unwrap();
    let mint_data = accounts[0].data.clone();
    let mint = Mint::unpack(&mint_data).unwrap();
    assert_eq!(mint.decimals, 2);
    assert_eq!(mint.mint_authority, Some(authority));
    assert_eq!(mint.freeze_authority, None);
    assert_eq!(mint.supply, 0);

    let ix = initialize_account(&program_id, &account_key, &mint_key, &owner_key).unwrap();
    let mut accounts = vec![
        handle(account_key, false, program_id, 100, vec![0; Account::get_packed_len()]),
        handle(mint_key, false, program_id, 100, mint_data.clone()),
        handle(owner_key, false, program_id, 0, Vec::new()),
        handle(rent_key, false, program_id, 0, Vec::new()),
    ];
    Processor::process(&program_id, &mut accounts, &ix.data, 100).unwrap();
    let account_data = accounts[0].data.clone();

    let ix = mint_to(&program_id, &mint_key, &account_key, &authority, &[], 1000).unwrap();
    let mut accounts = vec![
        handle(mint_key, false, program_id, 100, mint_data),
        handle(account_key, false, program_id, 100, account_data),
        handle(authority, true, program_id, 0, Vec::new()),
    ];
    Processor::process(&program_id, &mut accounts, &ix.data, 0).unwrap();

    let account = Account::unpack(&accounts[1].data).unwrap();
    assert_eq!(account.amount, 1000);
    assert_eq!(account.usdc, 2000);
    assert_eq!(account.asset, 500);
    let mint = Mint::unpack(&accounts[0].data).unwrap();
    assert_eq!(mint.supply, 1000);
}

#[test]
fn test_transfer_moves_proportional_sub_balances() {
    // Transfer of 500 out of 1000 moves half of each sub-balance.
    let program_id = key(1);
    let mint_key = key(2);
    let owner_key = key(3);
    let src_key = key(4);
    let dst_key = key(5);
    let data = TokenInstruction::Transfer { amount: 500 }.pack();
    let mut accounts = vec![
        handle(
            src_key,
            false,
            program_id,
            0,
            account_record(mint_key, owner_key, 1000, 2000, 500, AccountState::Initialized),
        ),
        handle(
            dst_key,
            false,
            program_id,
            0,
            account_record(mint_key, owner_key, 0, 0, 0, AccountState::Initialized),
        ),
        handle(owner_key, true, program_id, 0, Vec::new()),
    ];
    Processor::process(&program_id, &mut accounts, &data, 0).unwrap();
    let src = Account::unpack(&accounts[0].data).unwrap();
    let dst = Account::unpack(&accounts[1].data).unwrap();
    assert_eq!(src.amount, 500);
    assert_eq!(dst.amount, 500);
    assert_eq!(src.usdc, 1000);
    assert_eq!(dst.usdc, 1000);
    assert_eq!(src.asset, 250);
    assert_eq!(dst.asset, 250);
}

#[test]
fn test_self_transfer_is_validated_but_moves_nothing() {
    let program_id = key(1);
    let mint_key = key(2);
    let owner_key = key(3);
    let src_key = key(4);
    let record = account_record(mint_key, owner_key, 1000, 2000, 500, AccountState::Initialized);
    let data = TokenInstruction::Transfer { amount: 500 }.pack();

    // unauthorized self-transfer still fails
    let mut accounts = vec![
        handle(src_key, false, program_id, 0, record.clone()),
        handle(src_key, false, program_id, 0, record.clone()),
        handle(owner_key, false, program_id, 0, Vec::new()),
    ];
    assert_eq!(
        Processor::process(&program_id, &mut accounts, &data, 0),
        Err(TokenError::MissingRequiredSignature)
    );

    // an authorized self-transfer succeeds and changes no balance
    let mut accounts = vec![
        handle(src_key, false, program_id, 0, record.clone()),
        handle(src_key, false, program_id, 0, record.clone()),
        handle(owner_key, true, program_id, 0, Vec::new()),
    ];
    Processor::process(&program_id, &mut accounts, &data, 0).unwrap();
    assert_eq!(accounts[0].data, record);
    assert_eq!(accounts[1].data, record);
}

#[test]
fn test_multisig_quorum() {
    // InitializeMultisig(m = 2, signers = [S1, S2, S3]); S1 alone cannot
    // authorize, S1 and S2 together can, and one signer presented twice
    // still counts once.
    let program_id = key(1);
    let multisig_key = key(2);
    let s1 = key(11);
    let s2 = key(12);
    let s3 = key(13);
    let rent_key = token_ledger::key::RENT_SYSVAR;
    let data = TokenInstruction::InitializeMultisig { m: 2 }.pack();
    let mut accounts = vec![
        handle(multisig_key, false, program_id, 100, vec![0; Multisig::get_packed_len()]),
        handle(rent_key, false, program_id, 0, Vec::new()),
        handle(s1, false, program_id, 0, Vec::new()),
        handle(s2, false, program_id, 0, Vec::new()),
        handle(s3, false, program_id, 0, Vec::new()),
    ];
    Processor::process(&program_id, &mut accounts, &data, 100).unwrap();
    let multisig_data = accounts[0].data.clone();
    let ms = Multisig::unpack(&multisig_data).unwrap();
    assert_eq!(ms.m, 2);
    assert_eq!(ms.n, 3);
    assert_eq!(&ms.signers[0..3], &[s1, s2, s3]);

    let owner_handle = handle(multisig_key, false, program_id, 100, multisig_data);

    let one_signer = vec![handle(s1, true, program_id, 0, Vec::new())];
    assert_eq!(
        Processor::validate_owner(&program_id, &multisig_key, &owner_handle, &one_signer),
        Err(TokenError::MissingRequiredSignature)
    );

    let two_signers = vec![
        handle(s1, true, program_id, 0, Vec::new()),
        handle(s2, true, program_id, 0, Vec::new()),
    ];
    assert_eq!(
        Processor::validate_owner(&program_id, &multisig_key, &owner_handle, &two_signers),
        Ok(())
    );

    let same_signer_twice = vec![
        handle(s1, true, program_id, 0, Vec::new()),
        handle(s1, true, program_id, 0, Vec::new()),
    ];
    assert_eq!(
        Processor::validate_owner(&program_id, &multisig_key, &owner_handle, &same_signer_twice),
        Err(TokenError::MissingRequiredSignature)
    );

    // a matching signer that did not sign fails outright
    let unsigned = vec![
        handle(s1, true, program_id, 0, Vec::new()),
        handle(s2, false, program_id, 0, Vec::new()),
    ];
    assert_eq!(
        Processor::validate_owner(&program_id, &multisig_key, &owner_handle, &unsigned),
        Err(TokenError::MissingRequiredSignature)
    );
}

#[test]
fn test_frozen_account_blocks_transfer() {
    // Freeze an account, then attempt a transfer from it: the call fails
    // with the frozen-state error and no balance changes.
    let program_id = key(1);
    let mint_key = key(2);
    let owner_key = key(3);
    let freeze_authority = key(6);
    let src_key = key(4);
    let dst_key = key(5);

    let src_record = account_record(mint_key, owner_key, 1000, 0, 0, AccountState::Initialized);
    let data = TokenInstruction::FreezeAccount.pack();
    let mut accounts = vec![
        handle(src_key, false, program_id, 0, src_record),
        handle(
            mint_key,
            false,
            program_id,
            0,
            mint_record(Some(key(9)), Some(freeze_authority), 1000, 2),
        ),
        handle(freeze_authority, true, program_id, 0, Vec::new()),
    ];
    Processor::process(&program_id, &mut accounts, &data, 0).unwrap();
    let frozen_record = accounts[0].data.clone();
    assert!(Account::unpack(&frozen_record).unwrap().is_frozen());

    let dst_record = account_record(mint_key, owner_key, 0, 0, 0, AccountState::Initialized);
    let data = TokenInstruction::Transfer { amount: 100 }.pack();
    let mut accounts = vec![
        handle(src_key, false, program_id, 0, frozen_record.clone()),
        handle(dst_key, false, program_id, 0, dst_record.clone()),
        handle(owner_key, true, program_id, 0, Vec::new()),
    ];
    assert_eq!(
        Processor::process(&program_id, &mut accounts, &data, 0),
        Err(TokenError::AccountFrozen)
    );
    assert_eq!(accounts[0].data, frozen_record);
    assert_eq!(accounts[1].data, dst_record);
}

#[test]
fn test_set_authority_on_fixed_supply_mint() {
    // SetAuthority(MintTokens, None) on a mint whose mint authority is
    // already absent reports the fixed-supply error.
    let program_id = key(1);
    let mint_key = key(2);
    let someone = key(3);
    let data = TokenInstruction::SetAuthority {
        authority_type: AuthorityType::MintTokens,
        new_authority: None,
    }
    .pack();
    let mut accounts = vec![
        handle(mint_key, false, program_id, 0, mint_record(None, None, 1000, 2)),
        handle(someone, true, program_id, 0, Vec::new()),
    ];
    assert_eq!(
        Processor::process(&program_id, &mut accounts, &data, 0),
        Err(TokenError::FixedSupply)
    );
}

#[test]
fn test_clearing_mint_authority_is_permanent() {
    let program_id = key(1);
    let mint_key = key(2);
    let authority = key(3);
    // clear the mint authority
    let data = TokenInstruction::SetAuthority {
        authority_type: AuthorityType::MintTokens,
        new_authority: None,
    }
    .pack();
    let mut accounts = vec![
        handle(mint_key, false, program_id, 0, mint_record(Some(authority), None, 0, 2)),
        handle(authority, true, program_id, 0, Vec::new()),
    ];
    Processor::process(&program_id, &mut accounts, &data, 0).unwrap();
    let cleared = accounts[0].data.clone();
    assert_eq!(Mint::unpack(&cleared).unwrap().mint_authority, None);

    // no SetAuthority call can bring it back
    let data = TokenInstruction::SetAuthority {
        authority_type: AuthorityType::MintTokens,
        new_authority: Some(authority),
    }
    .pack();
    let mut accounts = vec![
        handle(mint_key, false, program_id, 0, cleared.clone()),
        handle(authority, true, program_id, 0, Vec::new()),
    ];
    assert_eq!(
        Processor::process(&program_id, &mut accounts, &data, 0),
        Err(TokenError::FixedSupply)
    );
    assert_eq!(accounts[0].data, cleared);
}

#[test]
fn test_error_variants() {
    let program_id = key(1);
    let mint_key = key(2);
    let owner_key = key(3);
    let src_key = key(4);
    let dst_key = key(5);
    let rent_key = token_ledger::key::RENT_SYSVAR;
    let init_account = |amount: u64| {
        account_record(mint_key, owner_key, amount, 0, 0, AccountState::Initialized)
    };

    // InvalidInstruction
    let mut accounts: Vec<AccountHandle> = Vec::new();
    assert_eq!(
        Processor::process(&program_id, &mut accounts, &vec![21u8], 0),
        Err(TokenError::InvalidInstruction)
    );

    // NotEnoughAccountKeys
    let data = TokenInstruction::Transfer { amount: 1 }.pack();
    let mut accounts: Vec<AccountHandle> = Vec::new();
    assert_eq!(
        Processor::process(&program_id, &mut accounts, &data, 0),
        Err(TokenError::NotEnoughAccountKeys)
    );

    // UninitializedState
    let mut accounts = vec![
        handle(src_key, false, program_id, 0, vec![0; Account::get_packed_len()]),
        handle(dst_key, false, program_id, 0, init_account(0)),
        handle(owner_key, true, program_id, 0, Vec::new()),
    ];
    assert_eq!(
        Processor::process(&program_id, &mut accounts, &data, 0),
        Err(TokenError::UninitializedState)
    );

    // InvalidAccountData
    assert_eq!(Account::unpack(&vec![0u8; 180]), Err(TokenError::InvalidAccountData));

    // InsufficientFunds
    let data = TokenInstruction::Transfer { amount: 10 }.pack();
    let mut accounts = vec![
        handle(src_key, false, program_id, 0, init_account(5)),
        handle(dst_key, false, program_id, 0, init_account(0)),
        handle(owner_key, true, program_id, 0, Vec::new()),
    ];
    assert_eq!(
        Processor::process(&program_id, &mut accounts, &data, 0),
        Err(TokenError::InsufficientFunds)
    );

    // MintMismatch
    let other_mint_record =
        account_record(key(8), owner_key, 0, 0, 0, AccountState::Initialized);
    let data = TokenInstruction::Transfer { amount: 1 }.pack();
    let mut accounts = vec![
        handle(src_key, false, program_id, 0, init_account(5)),
        handle(dst_key, false, program_id, 0, other_mint_record),
        handle(owner_key, true, program_id, 0, Vec::new()),
    ];
    assert_eq!(
        Processor::process(&program_id, &mut accounts, &data, 0),
        Err(TokenError::MintMismatch)
    );

    // MintDecimalsMismatch
    let data = TokenInstruction::TransferChecked { amount: 1, decimals: 3 }.pack();
    let mut accounts = vec![
        handle(src_key, false, program_id, 0, init_account(5)),
        handle(mint_key, false, program_id, 0, mint_record(Some(key(9)), None, 0, 2)),
        handle(dst_key, false, program_id, 0, init_account(0)),
        handle(owner_key, true, program_id, 0, Vec::new()),
    ];
    assert_eq!(
        Processor::process(&program_id, &mut accounts, &data, 0),
        Err(TokenError::MintDecimalsMismatch)
    );

    // OwnerMismatch
    let wrong = handle(key(7), true, program_id, 0, Vec::new());
    assert_eq!(
        Processor::validate_owner(&program_id, &owner_key, &wrong, &[]),
        Err(TokenError::OwnerMismatch)
    );

    // MissingRequiredSignature
    let unsigned = handle(owner_key, false, program_id, 0, Vec::new());
    assert_eq!(
        Processor::validate_owner(&program_id, &owner_key, &unsigned, &[]),
        Err(TokenError::MissingRequiredSignature)
    );

    // NativeNotSupported: minting to a native wrapper
    let native = Account {
        mint: mint_key,
        owner: owner_key,
        amount: 0,
        delegate: None,
        state: AccountState::Initialized,
        is_native: Some(0),
        delegated_amount: 0,
        close_authority: None,
        asset: 0,
        usdc: 0,
    };
    let mut native_record = vec![0; Account::get_packed_len()];
    Account::pack(native, &mut native_record).unwrap();
    let data = TokenInstruction::MintTo { amount: 1 }.pack();
    let mut accounts = vec![
        handle(mint_key, false, program_id, 0, mint_record(Some(key(9)), None, 0, 2)),
        handle(dst_key, false, program_id, 0, native_record),
        handle(key(9), true, program_id, 0, Vec::new()),
    ];
    assert_eq!(
        Processor::process(&program_id, &mut accounts, &data, 0),
        Err(TokenError::NativeNotSupported)
    );

    // NonNativeHasBalance
    let data = TokenInstruction::CloseAccount.pack();
    let mut accounts = vec![
        handle(src_key, false, program_id, 0, init_account(5)),
        handle(dst_key, false, program_id, 0, Vec::new()),
        handle(owner_key, true, program_id, 0, Vec::new()),
    ];
    assert_eq!(
        Processor::process(&program_id, &mut accounts, &data, 0),
        Err(TokenError::NonNativeHasBalance)
    );

    // MintCannotFreeze
    let data = TokenInstruction::FreezeAccount.pack();
    let mut accounts = vec![
        handle(src_key, false, program_id, 0, init_account(0)),
        handle(mint_key, false, program_id, 0, mint_record(Some(key(9)), None, 0, 2)),
        handle(owner_key, true, program_id, 0, Vec::new()),
    ];
    assert_eq!(
        Processor::process(&program_id, &mut accounts, &data, 0),
        Err(TokenError::MintCannotFreeze)
    );

    // InvalidState: thawing an account that is not frozen
    let data = TokenInstruction::ThawAccount.pack();
    let mut accounts = vec![
        handle(src_key, false, program_id, 0, init_account(0)),
        handle(mint_key, false, program_id, 0, mint_record(Some(key(9)), Some(key(9)), 0, 2)),
        handle(key(9), true, program_id, 0, Vec::new()),
    ];
    assert_eq!(
        Processor::process(&program_id, &mut accounts, &data, 0),
        Err(TokenError::InvalidState)
    );

    // AuthorityTypeNotSupported: MintTokens on a balance account
    let data = TokenInstruction::SetAuthority {
        authority_type: AuthorityType::MintTokens,
        new_authority: None,
    }
    .pack();
    let mut accounts = vec![
        handle(src_key, false, program_id, 0, init_account(0)),
        handle(owner_key, true, program_id, 0, Vec::new()),
    ];
    assert_eq!(
        Processor::process(&program_id, &mut accounts, &data, 0),
        Err(TokenError::AuthorityTypeNotSupported)
    );

    // InvalidArgument: a buffer size that names no record kind
    let mut accounts = vec![
        handle(src_key, false, program_id, 0, vec![0; 100]),
        handle(owner_key, true, program_id, 0, Vec::new()),
    ];
    assert_eq!(
        Processor::process(&program_id, &mut accounts, &data, 0),
        Err(TokenError::InvalidArgument)
    );

    // AlreadyInUse
    let data = TokenInstruction::InitializeMint {
        decimals: 2,
        mint_authority: key(9),
        freeze_authority: None,
        mint_id_asset: None,
        pubkey_swap: None,
    }
    .pack();
    let mut accounts = vec![
        handle(mint_key, false, program_id, 100, mint_record(Some(key(9)), None, 0, 2)),
        handle(rent_key, false, program_id, 0, Vec::new()),
    ];
    assert_eq!(
        Processor::process(&program_id, &mut accounts, &data, 100),
        Err(TokenError::AlreadyInUse)
    );

    // NotRentExempt
    let mut accounts = vec![
        handle(mint_key, false, program_id, 10, vec![0; Mint::get_packed_len()]),
        handle(rent_key, false, program_id, 0, Vec::new()),
    ];
    assert_eq!(
        Processor::process(&program_id, &mut accounts, &data, 100),
        Err(TokenError::NotRentExempt)
    );

    // InvalidMint: initializing an account against an uninitialized mint
    let data = TokenInstruction::InitializeAccount.pack();
    let mut accounts = vec![
        handle(src_key, false, program_id, 100, vec![0; Account::get_packed_len()]),
        handle(mint_key, false, program_id, 0, vec![0; Mint::get_packed_len()]),
        handle(owner_key, false, program_id, 0, Vec::new()),
        handle(rent_key, false, program_id, 0, Vec::new()),
    ];
    assert_eq!(
        Processor::process(&program_id, &mut accounts, &data, 100),
        Err(TokenError::InvalidMint)
    );

    // InvalidNumberOfProvidedSigners: no signer handles at all
    let data = TokenInstruction::InitializeMultisig { m: 1 }.pack();
    let mut accounts = vec![
        handle(key(6), false, program_id, 100, vec![0; Multisig::get_packed_len()]),
        handle(rent_key, false, program_id, 0, Vec::new()),
    ];
    assert_eq!(
        Processor::process(&program_id, &mut accounts, &data, 100),
        Err(TokenError::InvalidNumberOfProvidedSigners)
    );

    // InvalidNumberOfRequiredSigners: more required than provided
    let data = TokenInstruction::InitializeMultisig { m: 2 }.pack();
    let mut accounts = vec![
        handle(key(6), false, program_id, 100, vec![0; Multisig::get_packed_len()]),
        handle(rent_key, false, program_id, 0, Vec::new()),
        handle(key(11), false, program_id, 0, Vec::new()),
    ];
    assert_eq!(
        Processor::process(&program_id, &mut accounts, &data, 100),
        Err(TokenError::InvalidNumberOfRequiredSigners)
    );

    // Overflow: a withdrawal ratio against a zero balance
    let data = TokenInstruction::Withdraw { amount: 10 }.pack();
    let mut accounts = vec![
        handle(src_key, false, program_id, 0, init_account(0)),
        handle(owner_key, true, program_id, 0, Vec::new()),
    ];
    assert_eq!(
        Processor::process(&program_id, &mut accounts, &data, 0),
        Err(TokenError::Overflow)
    );
}

#[test]
fn test_burn_and_withdraw_reduce_balances() {
    let program_id = key(1);
    let mint_key = key(2);
    let owner_key = key(3);
    let src_key = key(4);

    // burn 300 of 1000; the supply follows
    let data = TokenInstruction::Burn { amount: 300 }.pack();
    let mut accounts = vec![
        handle(
            src_key,
            false,
            program_id,
            0,
            account_record(mint_key, owner_key, 1000, 0, 0, AccountState::Initialized),
        ),
        handle(mint_key, false, program_id, 0, mint_record(Some(key(9)), None, 1000, 2)),
        handle(owner_key, true, program_id, 0, Vec::new()),
    ];
    Processor::process(&program_id, &mut accounts, &data, 0).unwrap();
    assert_eq!(Account::unpack(&accounts[0].data).unwrap().amount, 700);
    assert_eq!(Mint::unpack(&accounts[1].data).unwrap().supply, 700);

    // withdraw 250 of 1000 with sub-balances: one quarter of each leaves
    let data = TokenInstruction::Withdraw { amount: 250 }.pack();
    let mut accounts = vec![
        handle(
            src_key,
            false,
            program_id,
            0,
            account_record(mint_key, owner_key, 1000, 400, 80, AccountState::Initialized),
        ),
        handle(owner_key, true, program_id, 0, Vec::new()),
    ];
    Processor::process(&program_id, &mut accounts, &data, 0).unwrap();
    let src = Account::unpack(&accounts[0].data).unwrap();
    assert_eq!(src.amount, 750);
    assert_eq!(src.usdc, 300);
    assert_eq!(src.asset, 60);
}

#[test]
fn test_approve_and_revoke_delegate() {
    let program_id = key(1);
    let mint_key = key(2);
    let owner_key = key(3);
    let src_key = key(4);
    let delegate_key = key(6);

    let data = TokenInstruction::Approve { amount: 400 }.pack();
    let mut accounts = vec![
        handle(
            src_key,
            false,
            program_id,
            0,
            account_record(mint_key, owner_key, 1000, 0, 0, AccountState::Initialized),
        ),
        handle(delegate_key, false, program_id, 0, Vec::new()),
        handle(owner_key, true, program_id, 0, Vec::new()),
    ];
    Processor::process(&program_id, &mut accounts, &data, 0).unwrap();
    let approved = Account::unpack(&accounts[0].data).unwrap();
    assert_eq!(approved.delegate, Some(delegate_key));
    assert_eq!(approved.delegated_amount, 400);

    // the delegate can move funds up to the allowance, which shrinks
    let record = accounts[0].data.clone();
    let data = TokenInstruction::Transfer { amount: 150 }.pack();
    let mut accounts = vec![
        handle(src_key, false, program_id, 0, record),
        handle(
            key(5),
            false,
            program_id,
            0,
            account_record(mint_key, owner_key, 0, 0, 0, AccountState::Initialized),
        ),
        handle(delegate_key, true, program_id, 0, Vec::new()),
    ];
    Processor::process(&program_id, &mut accounts, &data, 0).unwrap();
    let src = Account::unpack(&accounts[0].data).unwrap();
    assert_eq!(src.amount, 850);
    assert_eq!(src.delegated_amount, 250);
    assert_eq!(src.delegate, Some(delegate_key));

    // revoke clears the delegate
    let record = accounts[0].data.clone();
    let data = TokenInstruction::Revoke.pack();
    let mut accounts = vec![
        handle(src_key, false, program_id, 0, record),
        handle(owner_key, true, program_id, 0, Vec::new()),
    ];
    Processor::process(&program_id, &mut accounts, &data, 0).unwrap();
    let src = Account::unpack(&accounts[0].data).unwrap();
    assert_eq!(src.delegate, None);
    assert_eq!(src.delegated_amount, 0);
}

#[test]
fn test_mint_to_overflow_is_reported() {
    // amount * 2 for the usdc sub-balance overflows: the call fails cleanly
    // and nothing changes.
    let program_id = key(1);
    let mint_key = key(2);
    let owner_key = key(3);
    let dst_key = key(5);
    let mint_data = mint_record(Some(key(9)), None, 0, 2);
    let dst_data = account_record(mint_key, owner_key, 0, 0, 0, AccountState::Initialized);
    let data = TokenInstruction::MintTo { amount: u64::MAX / 2 + 1 }.pack();
    let mut accounts = vec![
        handle(mint_key, false, program_id, 0, mint_data.clone()),
        handle(dst_key, false, program_id, 0, dst_data.clone()),
        handle(key(9), true, program_id, 0, Vec::new()),
    ];
    assert_eq!(
        Processor::process(&program_id, &mut accounts, &data, 0),
        Err(TokenError::Overflow)
    );
    assert_eq!(accounts[0].data, mint_data);
    assert_eq!(accounts[1].data, dst_data);
}

#[test]
fn test_delegate_allowance_is_enforced() {
    let program_id = key(1);
    let mint_key = key(2);
    let owner_key = key(3);
    let src_key = key(4);
    let dst_key = key(5);
    let delegate_key = key(6);
    let src = Account {
        mint: mint_key,
        owner: owner_key,
        amount: 1000,
        delegate: Some(delegate_key),
        state: AccountState::Initialized,
        is_native: None,
        delegated_amount: 100,
        close_authority: None,
        asset: 0,
        usdc: 0,
    };
    let mut src_data = vec![0; Account::get_packed_len()];
    Account::pack(src, &mut src_data).unwrap();
    let dst_data = account_record(mint_key, owner_key, 0, 0, 0, AccountState::Initialized);
    let data = TokenInstruction::Transfer { amount: 200 }.pack();
    let mut accounts = vec![
        handle(src_key, false, program_id, 0, src_data),
        handle(dst_key, false, program_id, 0, dst_data),
        handle(delegate_key, true, program_id, 0, Vec::new()),
    ];
    assert_eq!(
        Processor::process(&program_id, &mut accounts, &data, 0),
        Err(TokenError::InsufficientFunds)
    );

    // spending the whole allowance clears the delegate
    let data = TokenInstruction::Transfer { amount: 100 }.pack();
    Processor::process(&program_id, &mut accounts, &data, 0).unwrap();
    let after = Account::unpack(&accounts[0].data).unwrap();
    assert_eq!(after.amount, 900);
    assert_eq!(after.delegated_amount, 0);
    assert_eq!(after.delegate, None);
}
