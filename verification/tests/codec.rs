//! Byte-exact codec tests: packing and unpacking of the five records and of
//! the instruction set.

use token_ledger::error::TokenError;
use token_ledger::instruction::{AuthorityType, TokenInstruction, MAX_SIGNERS};
use token_ledger::state::{Account, AccountState, Mint, Multisig, Portfolio, UserPortfolio};

fn key(n: u8) -> [u8; 32] {
    [n; 32]
}

#[test]
fn test_instruction_packing() {
    let check = TokenInstruction::InitializeMint {
        decimals: 2,
        mint_authority: key(1),
        freeze_authority: None,
        mint_id_asset: None,
        pubkey_swap: None,
    };
    let packed = check.pack();
    let mut expect = Vec::from([0u8, 2]);
    expect.extend_from_slice(&[1u8; 32]);
    expect.extend_from_slice(&[0]);
    expect.extend_from_slice(&[0]);
    expect.extend_from_slice(&[0]);
    assert_eq!(packed, expect);
    let unpacked = TokenInstruction::unpack(&expect).unwrap();
    assert_eq!(unpacked, check);

    let check = TokenInstruction::Revoke;
    let packed = check.pack();
    let expect = Vec::from([5u8]);
    assert_eq!(packed, expect);
    let unpacked = TokenInstruction::unpack(&expect).unwrap();
    assert_eq!(unpacked, check);

    let check = TokenInstruction::SetAuthority {
        authority_type: AuthorityType::FreezeAccount,
        new_authority: Some(key(4)),
    };
    let packed = check.pack();
    let mut expect = Vec::from([6u8, 1]);
    expect.extend_from_slice(&[1]);
    expect.extend_from_slice(&[4u8; 32]);
    assert_eq!(packed, expect);
    let unpacked = TokenInstruction::unpack(&expect).unwrap();
    assert_eq!(unpacked, check);

    let check = TokenInstruction::MintTo { amount: 1 };
    let packed = check.pack();
    let expect = Vec::from([7u8, 1, 0, 0, 0, 0, 0, 0, 0]);
    assert_eq!(packed, expect);
    let unpacked = TokenInstruction::unpack(&expect).unwrap();
    assert_eq!(unpacked, check);

    let check = TokenInstruction::Burn { amount: 1 };
    let packed = check.pack();
    let expect = Vec::from([8u8, 1, 0, 0, 0, 0, 0, 0, 0]);
    assert_eq!(packed, expect);
    let unpacked = TokenInstruction::unpack(&expect).unwrap();
    assert_eq!(unpacked, check);

    let check = TokenInstruction::CloseAccount;
    let packed = check.pack();
    let expect = Vec::from([9u8]);
    assert_eq!(packed, expect);
    let unpacked = TokenInstruction::unpack(&expect).unwrap();
    assert_eq!(unpacked, check);

    let check = TokenInstruction::FreezeAccount;
    let packed = check.pack();
    let expect = Vec::from([10u8]);
    assert_eq!(packed, expect);
    let unpacked = TokenInstruction::unpack(&expect).unwrap();
    assert_eq!(unpacked, check);

    let check = TokenInstruction::ThawAccount;
    let packed = check.pack();
    let expect = Vec::from([11u8]);
    assert_eq!(packed, expect);
    let unpacked = TokenInstruction::unpack(&expect).unwrap();
    assert_eq!(unpacked, check);

    let check = TokenInstruction::TransferChecked { amount: 1, decimals: 2 };
    let packed = check.pack();
    let expect = Vec::from([12u8, 1, 0, 0, 0, 0, 0, 0, 0, 2]);
    assert_eq!(packed, expect);
    let unpacked = TokenInstruction::unpack(&expect).unwrap();
    assert_eq!(unpacked, check);

    let check = TokenInstruction::ApproveChecked { amount: 1, decimals: 2 };
    let packed = check.pack();
    let expect = Vec::from([13u8, 1, 0, 0, 0, 0, 0, 0, 0, 2]);
    assert_eq!(packed, expect);
    let unpacked = TokenInstruction::unpack(&expect).unwrap();
    assert_eq!(unpacked, check);

    let check = TokenInstruction::MintToChecked { amount: 1, decimals: 2 };
    let packed = check.pack();
    let expect = Vec::from([14u8, 1, 0, 0, 0, 0, 0, 0, 0, 2]);
    assert_eq!(packed, expect);
    let unpacked = TokenInstruction::unpack(&expect).unwrap();
    assert_eq!(unpacked, check);

    let check = TokenInstruction::BurnChecked { amount: 1, decimals: 2 };
    let packed = check.pack();
    let expect = Vec::from([15u8, 1, 0, 0, 0, 0, 0, 0, 0, 2]);
    assert_eq!(packed, expect);
    let unpacked = TokenInstruction::unpack(&expect).unwrap();
    assert_eq!(unpacked, check);

    let check = TokenInstruction::InitializeAccount2 { owner: key(2) };
    let packed = check.pack();
    let mut expect = vec![16u8];
    expect.extend_from_slice(&[2u8; 32]);
    assert_eq!(packed, expect);
    let unpacked = TokenInstruction::unpack(&expect).unwrap();
    assert_eq!(unpacked, check);
}

fn metadata_url() -> Vec<u8> {
    [
        97, 97, 98, 98, 99, 99, 97, 97, 98, 98, 99, 99, 97, 97, 98, 98, 99, 99, 97, 97, 98, 98,
        99, 99, 97, 97, 98, 98, 99, 99, 97, 97, 98, 98, 99, 99, 97, 97, 98, 98, 99, 99, 97, 97,
        98, 98, 99, 99, 97, 97, 98, 98, 99, 99, 97, 97, 98, 98, 99, 99, 97, 97, 98, 98, 99, 99,
        97, 97, 98, 98, 99, 99, 97, 97, 98, 98, 99, 99, 97, 97, 98, 98, 99, 99, 97, 97, 98, 98,
        99, 99, 97, 97, 98, 98, 99, 99, 97, 97, 98, 98, 99, 99, 97, 97, 98, 98, 99, 99, 97, 97,
        98, 98, 99, 99, 97, 97, 98, 98, 99, 99, 97, 97, 98, 98, 99, 99, 97, 97,
    ]
    .to_vec()
}

#[test]
fn test_pack_unpack() {
    // Account
    let check = Account {
        mint: key(1),
        owner: key(2),
        amount: 3,
        asset: 8,
        usdc: 8,
        delegate: Some(key(4)),
        state: AccountState::Frozen,
        is_native: Some(5),
        delegated_amount: 6,
        close_authority: Some(key(7)),
    };
    let mut packed = vec![0; Account::get_packed_len() + 1];
    assert_eq!(Err(TokenError::InvalidAccountData), Account::pack(check, &mut packed));
    let mut packed = vec![0; Account::get_packed_len() - 1];
    assert_eq!(Err(TokenError::InvalidAccountData), Account::pack(check, &mut packed));

    let mut packed = vec![0; Account::get_packed_len()];
    Account::pack(check, &mut packed).unwrap();
    let expect = vec![
        1, 1, 1, 1, 1, 1, 1, 1, 1, 1, 1, 1, 1, 1, 1, 1, 1, 1, 1, 1, 1, 1, 1, 1, 1, 1, 1, 1, 1, 1,
        1, 1, 2, 2, 2, 2, 2, 2, 2, 2, 2, 2, 2, 2, 2, 2, 2, 2, 2, 2, 2, 2, 2, 2, 2, 2, 2, 2, 2, 2,
        2, 2, 2, 2, 3, 0, 0, 0, 0, 0, 0, 0, 1, 0, 0, 0, 4, 4, 4, 4, 4, 4, 4, 4, 4, 4, 4, 4, 4, 4,
        4, 4, 4, 4, 4, 4, 4, 4, 4, 4, 4, 4, 4, 4, 4, 4, 4, 4, 2, 1, 0, 0, 0, 5, 0, 0, 0, 0, 0, 0,
        0, 6, 0, 0, 0, 0, 0, 0, 0, 1, 0, 0, 0, 7, 7, 7, 7, 7, 7, 7, 7, 7, 7, 7, 7, 7, 7, 7, 7, 7,
        7, 7, 7, 7, 7, 7, 7, 7, 7, 7, 7, 7, 7, 7, 7, 8, 0, 0, 0, 0, 0, 0, 0, 8, 0, 0, 0, 0, 0, 0,
        0,
    ];
    assert_eq!(packed, expect);
    let unpacked = Account::unpack(&packed).unwrap();
    assert_eq!(unpacked, check);

    // Portfolio
    let check = Portfolio {
        portfolio_account: key(1),
        creator_portfolio: key(2),
        metadataUrl: metadata_url(),
        metadataHash: 3,
        is_initialize: 0,
        amountAsset1: 4,
        addressAsset1: key(1),
        periodAsset1: 6,
        assetToSoldIntoAsset1: key(1),
        amountAsset2: 4,
        addressAsset2: key(2),
        periodAsset2: 5,
        assetToSoldIntoAsset2: key(2),
        amountAsset3: 4,
        addressAsset3: key(3),
        periodAsset3: 5,
        assetToSoldIntoAsset3: key(3),
        amountAsset4: 4,
        addressAsset4: key(4),
        periodAsset4: 5,
        assetToSoldIntoAsset4: key(4),
        amountAsset5: 4,
        addressAsset5: key(5),
        periodAsset5: 5,
        assetToSoldIntoAsset5: key(5),
        amountAsset6: 4,
        addressAsset6: key(6),
        periodAsset6: 5,
        assetToSoldIntoAsset6: key(6),
        amountAsset7: 4,
        addressAsset7: key(7),
        periodAsset7: 6,
        assetToSoldIntoAsset7: key(7),
        amountAsset8: 4,
        addressAsset8: key(8),
        periodAsset8: 5,
        assetToSoldIntoAsset8: key(8),
        amountAsset9: 4,
        addressAsset9: key(9),
        periodAsset9: 5,
        assetToSoldIntoAsset9: key(9),
    };
    let mut packed = vec![0; Portfolio::get_packed_len() + 1];
    assert_eq!(Err(TokenError::InvalidAccountData), Portfolio::pack(check.clone(), &mut packed));
    let mut packed = vec![0; Portfolio::get_packed_len() - 1];
    assert_eq!(Err(TokenError::InvalidAccountData), Portfolio::pack(check.clone(), &mut packed));
    let mut packed = vec![0; Portfolio::get_packed_len()];
    Portfolio::pack(check.clone(), &mut packed).unwrap();
    let mut expect: Vec<u8> = Vec::new();
    expect.extend_from_slice(&[1u8; 32]);
    expect.extend_from_slice(&[2u8; 32]);
    expect.extend_from_slice(&metadata_url());
    expect.extend_from_slice(&[3, 0]);
    expect.push(0);
    let groups: [(u8, u8, u8); 9] = [
        (4, 1, 6),
        (4, 2, 5),
        (4, 3, 5),
        (4, 4, 5),
        (4, 5, 5),
        (4, 6, 5),
        (4, 7, 6),
        (4, 8, 5),
        (4, 9, 5),
    ];
    for (amount, who, period) in groups.iter() {
        expect.push(*amount);
        expect.extend_from_slice(&[*who; 32]);
        expect.push(*period);
        expect.extend_from_slice(&[*who; 32]);
    }
    assert_eq!(packed, expect);
    let unpacked = Portfolio::unpack(&packed).unwrap();
    assert_eq!(unpacked, check);
}

#[test]
fn test_mint_pack_unpack() {
    let check = Mint {
        mint_authority: Some(key(1)),
        supply: 42,
        decimals: 7,
        is_initialized: true,
        freeze_authority: Some(key(2)),
        mint_id_asset: Some(key(17)),
        pubkey_swap: Some(key(18)),
    };
    let mut packed = vec![0; Mint::get_packed_len() + 1];
    assert_eq!(Err(TokenError::InvalidAccountData), Mint::pack(check, &mut packed));
    let mut packed = vec![0; Mint::get_packed_len() - 1];
    assert_eq!(Err(TokenError::InvalidAccountData), Mint::pack(check, &mut packed));
    let mut packed = vec![0; Mint::get_packed_len()];
    Mint::pack(check, &mut packed).unwrap();
    let mut expect: Vec<u8> = vec![1, 0, 0, 0];
    expect.extend_from_slice(&[1u8; 32]);
    expect.extend_from_slice(&[42, 0, 0, 0, 0, 0, 0, 0]);
    expect.push(7);
    expect.push(1);
    expect.extend_from_slice(&[1, 0, 0, 0]);
    expect.extend_from_slice(&[2u8; 32]);
    expect.extend_from_slice(&[1, 0, 0, 0]);
    expect.extend_from_slice(&[17u8; 32]);
    expect.extend_from_slice(&[1, 0, 0, 0]);
    expect.extend_from_slice(&[18u8; 32]);
    assert_eq!(packed, expect);
    let unpacked = Mint::unpack(&packed).unwrap();
    assert_eq!(unpacked, check);
}

#[test]
fn test_multisig_pack_unpack() {
    let check = Multisig { m: 1, n: 2, is_initialized: true, signers: vec![key(3); MAX_SIGNERS] };
    let mut packed = vec![0; Multisig::get_packed_len() + 1];
    assert_eq!(Err(TokenError::InvalidAccountData), Multisig::pack(check.clone(), &mut packed));
    let mut packed = vec![0; Multisig::get_packed_len() - 1];
    assert_eq!(Err(TokenError::InvalidAccountData), Multisig::pack(check.clone(), &mut packed));
    let mut packed = vec![0; Multisig::get_packed_len()];
    Multisig::pack(check.clone(), &mut packed).unwrap();
    let mut expect: Vec<u8> = vec![1, 2, 1];
    expect.extend_from_slice(&[3u8; 32 * MAX_SIGNERS]);
    assert_eq!(packed, expect);
    let unpacked = Multisig::unpack(&packed).unwrap();
    assert_eq!(unpacked, check);
}

#[test]
fn test_user_portfolio_pack_unpack() {
    let check = UserPortfolio {
        user_portfolio_account: key(1),
        portfolio_address: key(2),
        owner: key(3),
        delegate: key(4),
        delegated_amount: 77,
        splu_asset1: key(11),
        splu_asset2: key(12),
        splu_asset3: key(13),
        splu_asset4: key(14),
        splu_asset5: key(15),
        splu_asset6: key(16),
        splu_asset7: key(17),
        splu_asset8: key(18),
        splu_asset9: key(19),
    };
    let mut packed = vec![0; UserPortfolio::get_packed_len()];
    UserPortfolio::pack(check, &mut packed).unwrap();
    let mut expect: Vec<u8> = Vec::new();
    expect.extend_from_slice(&[1u8; 32]);
    expect.extend_from_slice(&[2u8; 32]);
    expect.extend_from_slice(&[3u8; 32]);
    expect.extend_from_slice(&[4u8; 32]);
    expect.extend_from_slice(&[77, 0, 0, 0, 0, 0, 0, 0]);
    for n in 11u8..20 {
        expect.extend_from_slice(&[n; 32]);
    }
    assert_eq!(packed, expect);
    let unpacked = UserPortfolio::unpack(&packed).unwrap();
    assert_eq!(unpacked, check);
}

#[test]
fn test_instruction_unpack_rejects_malformed() {
    // empty input
    assert_eq!(TokenInstruction::unpack(&vec![]), Err(TokenError::InvalidInstruction));
    // unknown discriminant
    assert_eq!(TokenInstruction::unpack(&vec![21u8]), Err(TokenError::InvalidInstruction));
    // amount field cut short
    assert_eq!(TokenInstruction::unpack(&vec![3u8, 1, 0]), Err(TokenError::InvalidInstruction));
    // invalid authority type
    assert_eq!(
        TokenInstruction::unpack(&vec![6u8, 9, 0]),
        Err(TokenError::InvalidInstruction)
    );
    // invalid option tag
    let mut buf = vec![0u8, 2];
    buf.extend_from_slice(&[1u8; 32]);
    buf.push(7);
    assert_eq!(TokenInstruction::unpack(&buf), Err(TokenError::InvalidInstruction));
}

#[test]
fn test_portfolio_instruction_round_trip() {
    let check = TokenInstruction::InitializePortfolio {
        metaDataUrl: metadata_url(),
        metaDataHash: 3,
        amountAsset1: 4,
        periodAsset1: 5,
        amountAsset2: 6,
        periodAsset2: 7,
        amountAsset3: 8,
        periodAsset3: 9,
        amountAsset4: 2,
        periodAsset4: 3,
        amountAsset5: 8,
        periodAsset5: 4,
        amountAsset6: 5,
        periodAsset6: 7,
        amountAsset7: 2,
        periodAsset7: 7,
        amountAsset8: 1,
        periodAsset8: 2,
        amountAsset9: 3,
        periodAsset9: 4,
    };
    let packed = check.pack();
    assert_eq!(packed.len(), 149);
    assert_eq!(packed[0], 19);
    let unpacked = TokenInstruction::unpack(&packed).unwrap();
    assert_eq!(unpacked, check);

    let check = TokenInstruction::createInitUserPortfolio {
        delegated_amount: 9,
        valueAsset1: 1,
        valueAsset2: 2,
        valueAsset3: 3,
        valueAsset4: 4,
        valueAsset5: 5,
        valueAsset6: 6,
        valueAsset7: 7,
        valueAsset8: 8,
        valueAsset9: 9,
    };
    let packed = check.pack();
    assert_eq!(packed.len(), 81);
    assert_eq!(packed[0], 20);
    let unpacked = TokenInstruction::unpack(&packed).unwrap();
    assert_eq!(unpacked, check);

    let check = TokenInstruction::Deposit { amount: 100, volatility: 20, nonce: 255 };
    let packed = check.pack();
    assert_eq!(packed, vec![17u8, 100, 0, 0, 0, 0, 0, 0, 0, 20, 0, 0, 0, 0, 0, 0, 0, 255]);
    let unpacked = TokenInstruction::unpack(&packed).unwrap();
    assert_eq!(unpacked, check);

    let check = TokenInstruction::Withdraw { amount: 100 };
    let packed = check.pack();
    assert_eq!(packed, vec![18u8, 100, 0, 0, 0, 0, 0, 0, 0]);
    let unpacked = TokenInstruction::unpack(&packed).unwrap();
    assert_eq!(unpacked, check);
}
