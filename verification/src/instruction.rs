//! The tagged instruction codec: twenty-one instruction variants serialized
//! to and from a byte buffer with a leading one-byte discriminant.
//!
//! Decoding consumes fields left to right and fails with
//! `TokenError::InvalidInstruction` whenever the remaining buffer is shorter
//! than a field requires; trailing bytes beyond the last field are ignored.
//! Optional keys here use a one-byte presence tag (0 = absent, 1 = present
//! followed by the 32-byte key), unlike the four-byte tag of the record
//! layouts.

use vstd::prelude::*;
use vstd::bytes::{spec_u16_from_le_bytes, spec_u16_to_le_bytes, spec_u64_from_le_bytes,
    spec_u64_to_le_bytes};
use crate::bytesutil::{opt_key_view, push_bytes, push_key, push_u16_le, push_u64_le, read_key_at,
    read_u16_le, read_u64_le, read_u8_at, read_bytes_at, lemma_u16_le_round_trip,
    lemma_u64_le_round_trip};
use crate::error::TokenError;
use crate::key::{Pubkey, RENT_SYSVAR};

verus! {

broadcast use crate::bytesutil::group_codec_lens;

/// Minimum number of multisignature signers.
pub const MIN_SIGNERS: usize = 1;

/// Maximum number of multisignature signers.
pub const MAX_SIGNERS: usize = 11;

/// Checks that a signer count lies between `MIN_SIGNERS` and `MAX_SIGNERS`.
pub fn is_valid_signer_index(index: usize) -> (r: bool)
    ensures
        r == (MIN_SIGNERS <= index <= MAX_SIGNERS),
{
    MIN_SIGNERS <= index && index <= MAX_SIGNERS
}

/// The authority kind a `SetAuthority` instruction updates.
#[derive(Clone, Copy, Debug, PartialEq, Eq, Structural)]
pub enum AuthorityType {
    /// Authority to mint new tokens.
    MintTokens,
    /// Authority to freeze any account associated with the mint.
    FreezeAccount,
    /// Owner of a given balance account.
    AccountOwner,
    /// Authority to close a balance account.
    CloseAccount,
}

/// The byte that encodes an authority type.
pub open spec fn spec_authority_type_byte(t: AuthorityType) -> u8 {
    match t {
        AuthorityType::MintTokens => 0u8,
        AuthorityType::FreezeAccount => 1u8,
        AuthorityType::AccountOwner => 2u8,
        AuthorityType::CloseAccount => 3u8,
    }
}

/// The authority type encoded by a byte, if any.
pub open spec fn spec_byte_authority_type(b: u8) -> Option<AuthorityType> {
    if b == 0u8 {
        Some(AuthorityType::MintTokens)
    } else if b == 1u8 {
        Some(AuthorityType::FreezeAccount)
    } else if b == 2u8 {
        Some(AuthorityType::AccountOwner)
    } else if b == 3u8 {
        Some(AuthorityType::CloseAccount)
    } else {
        None
    }
}

impl AuthorityType {
    /// The byte this authority type is encoded as.
    pub fn into(&self) -> (b: u8)
        ensures
            b == spec_authority_type_byte(*self),
    {
        match self {
            AuthorityType::MintTokens => 0,
            AuthorityType::FreezeAccount => 1,
            AuthorityType::AccountOwner => 2,
            AuthorityType::CloseAccount => 3,
        }
    }

    /// The authority type a byte encodes, or `InvalidInstruction`.
    pub fn from(index: u8) -> (r: Result<AuthorityType, TokenError>)
        ensures
            match r {
                Ok(t) => spec_byte_authority_type(index) == Some(t),
                Err(e) => spec_byte_authority_type(index) is None && e
                    == TokenError::InvalidInstruction,
            },
    {
        if index == 0 {
            Ok(AuthorityType::MintTokens)
        } else if index == 1 {
            Ok(AuthorityType::FreezeAccount)
        } else if index == 2 {
            Ok(AuthorityType::AccountOwner)
        } else if index == 3 {
            Ok(AuthorityType::CloseAccount)
        } else {
            Err(TokenError::InvalidInstruction)
        }
    }
}

/// An instruction of the ledger, as decoded from its byte buffer.
#[allow(non_camel_case_types)]
#[allow(non_snake_case)]
#[derive(Clone, Debug, PartialEq)]
pub enum TokenInstruction {
    /// Initializes a new asset class.
    InitializeMint {
        /// Number of base-10 digits to the right of the decimal place.
        decimals: u8,
        /// The authority allowed to mint tokens.
        mint_authority: Pubkey,
        /// The freeze authority of the mint, if any.
        freeze_authority: Option<Pubkey>,
        /// Reference to the hedged asset, if any.
        mint_id_asset: Option<Pubkey>,
        /// Reference to the swap program, if any.
        pubkey_swap: Option<Pubkey>,
    },
    /// Initializes a new balance account; the owner comes from the account list.
    InitializeAccount,
    /// Initializes a multisignature descriptor with the provided signers.
    InitializeMultisig {
        /// The number of signatures required.
        m: u8,
    },
    /// Transfers tokens, directly or through a delegate.
    Transfer {
        /// The amount of tokens to transfer.
        amount: u64,
    },
    /// Approves a delegate over part of the balance.
    Approve {
        /// The amount the delegate is approved for.
        amount: u64,
    },
    /// Revokes the delegate's authority.
    Revoke,
    /// Sets a new authority of a mint or balance account.
    SetAuthority {
        /// The kind of authority to update.
        authority_type: AuthorityType,
        /// The new authority, or absent to clear it where allowed.
        new_authority: Option<Pubkey>,
    },
    /// Mints new tokens to a balance account.
    MintTo {
        /// The amount of new tokens to mint.
        amount: u64,
    },
    /// Burns tokens from a balance account.
    Burn {
        /// The amount of tokens to burn.
        amount: u64,
    },
    /// Closes a balance account, moving its lamports to a destination.
    CloseAccount,
    /// Freezes an initialized balance account.
    FreezeAccount,
    /// Thaws a frozen balance account.
    ThawAccount,
    /// Transfer whose mint and decimals are checked against the caller's.
    TransferChecked {
        /// The amount of tokens to transfer.
        amount: u64,
        /// Expected number of decimals.
        decimals: u8,
    },
    /// Approve whose mint and decimals are checked against the caller's.
    ApproveChecked {
        /// The amount the delegate is approved for.
        amount: u64,
        /// Expected number of decimals.
        decimals: u8,
    },
    /// MintTo whose decimals are checked against the caller's.
    MintToChecked {
        /// The amount of new tokens to mint.
        amount: u64,
        /// Expected number of decimals.
        decimals: u8,
    },
    /// Burn whose decimals are checked against the caller's.
    BurnChecked {
        /// The amount of tokens to burn.
        amount: u64,
        /// Expected number of decimals.
        decimals: u8,
    },
    /// Like InitializeAccount, with the owner in the instruction bytes.
    InitializeAccount2 {
        /// The new account's owner.
        owner: Pubkey,
    },
    /// Deposits an amount towards the hedged asset.
    Deposit {
        /// The amount to deposit.
        amount: u64,
        /// The volatility parameter.
        volatility: u64,
        /// Nonce used to derive a valid program address.
        nonce: u8,
    },
    /// Withdraws funds after conversion.
    Withdraw {
        /// The amount to withdraw.
        amount: u64,
    },
    /// Initializes a portfolio descriptor.
    InitializePortfolio {
        /// The metadata blob of the new portfolio; 128 bytes.
        metaDataUrl: Vec<u8>,
        /// Integrity hash of the metadata blob.
        metaDataHash: u16,
        /// Allocation percentage of asset 1.
        amountAsset1: u8,
        /// Rebalance period of asset 1.
        periodAsset1: u8,
        /// Allocation percentage of asset 2.
        amountAsset2: u8,
        /// Rebalance period of asset 2.
        periodAsset2: u8,
        /// Allocation percentage of asset 3.
        amountAsset3: u8,
        /// Rebalance period of asset 3.
        periodAsset3: u8,
        /// Allocation percentage of asset 4.
        amountAsset4: u8,
        /// Rebalance period of asset 4.
        periodAsset4: u8,
        /// Allocation percentage of asset 5.
        amountAsset5: u8,
        /// Rebalance period of asset 5.
        periodAsset5: u8,
        /// Allocation percentage of asset 6.
        amountAsset6: u8,
        /// Rebalance period of asset 6.
        periodAsset6: u8,
        /// Allocation percentage of asset 7.
        amountAsset7: u8,
        /// Rebalance period of asset 7.
        periodAsset7: u8,
        /// Allocation percentage of asset 8.
        amountAsset8: u8,
        /// Rebalance period of asset 8.
        periodAsset8: u8,
        /// Allocation percentage of asset 9.
        amountAsset9: u8,
        /// Rebalance period of asset 9.
        periodAsset9: u8,
    },
    /// Creates and initializes a user portfolio.
    createInitUserPortfolio {
        /// The amount delegated.
        delegated_amount: u64,
        /// The user's value for asset 1.
        valueAsset1: u64,
        /// The user's value for asset 2.
        valueAsset2: u64,
        /// The user's value for asset 3.
        valueAsset3: u64,
        /// The user's value for asset 4.
        valueAsset4: u64,
        /// The user's value for asset 5.
        valueAsset5: u64,
        /// The user's value for asset 6.
        valueAsset6: u64,
        /// The user's value for asset 7.
        valueAsset7: u64,
        /// The user's value for asset 8.
        valueAsset8: u64,
        /// The user's value for asset 9.
        valueAsset9: u64,
    },
}

/// Mathematical view of an instruction: the same variants over byte
/// sequences.
#[allow(non_camel_case_types)]
#[allow(non_snake_case)]
#[verifier::ext_equal]
pub enum TokenInstructionView {
    /// Initializes a new asset class.
    InitializeMint {
        /// Number of base-10 digits to the right of the decimal place.
        decimals: u8,
        /// The authority allowed to mint tokens.
        mint_authority: Seq<u8>,
        /// The freeze authority of the mint, if any.
        freeze_authority: Option<Seq<u8>>,
        /// Reference to the hedged asset, if any.
        mint_id_asset: Option<Seq<u8>>,
        /// Reference to the swap program, if any.
        pubkey_swap: Option<Seq<u8>>,
    },
    /// Initializes a new balance account.
    InitializeAccount,
    /// Initializes a multisignature descriptor.
    InitializeMultisig {
        /// The number of signatures required.
        m: u8,
    },
    /// Transfers tokens.
    Transfer {
        /// The amount of tokens to transfer.
        amount: u64,
    },
    /// Approves a delegate.
    Approve {
        /// The amount the delegate is approved for.
        amount: u64,
    },
    /// Revokes the delegate's authority.
    Revoke,
    /// Sets a new authority.
    SetAuthority {
        /// The kind of authority to update.
        authority_type: AuthorityType,
        /// The new authority, or absent.
        new_authority: Option<Seq<u8>>,
    },
    /// Mints new tokens.
    MintTo {
        /// The amount of new tokens to mint.
        amount: u64,
    },
    /// Burns tokens.
    Burn {
        /// The amount of tokens to burn.
        amount: u64,
    },
    /// Closes a balance account.
    CloseAccount,
    /// Freezes a balance account.
    FreezeAccount,
    /// Thaws a balance account.
    ThawAccount,
    /// Checked transfer.
    TransferChecked {
        /// The amount of tokens to transfer.
        amount: u64,
        /// Expected number of decimals.
        decimals: u8,
    },
    /// Checked approve.
    ApproveChecked {
        /// The amount the delegate is approved for.
        amount: u64,
        /// Expected number of decimals.
        decimals: u8,
    },
    /// Checked mint.
    MintToChecked {
        /// The amount of new tokens to mint.
        amount: u64,
        /// Expected number of decimals.
        decimals: u8,
    },
    /// Checked burn.
    BurnChecked {
        /// The amount of tokens to burn.
        amount: u64,
        /// Expected number of decimals.
        decimals: u8,
    },
    /// Balance-account initialization with an explicit owner.
    InitializeAccount2 {
        /// The new account's owner.
        owner: Seq<u8>,
    },
    /// Deposits an amount towards the hedged asset.
    Deposit {
        /// The amount to deposit.
        amount: u64,
        /// The volatility parameter.
        volatility: u64,
        /// Nonce used to derive a valid program address.
        nonce: u8,
    },
    /// Withdraws funds.
    Withdraw {
        /// The amount to withdraw.
        amount: u64,
    },
    /// Initializes a portfolio descriptor.
    InitializePortfolio {
        /// The metadata blob of the new portfolio; 128 bytes.
        metaDataUrl: Seq<u8>,
        /// Integrity hash of the metadata blob.
        metaDataHash: u16,
        /// Allocation percentage of asset 1.
        amountAsset1: u8,
        /// Rebalance period of asset 1.
        periodAsset1: u8,
        /// Allocation percentage of asset 2.
        amountAsset2: u8,
        /// Rebalance period of asset 2.
        periodAsset2: u8,
        /// Allocation percentage of asset 3.
        amountAsset3: u8,
        /// Rebalance period of asset 3.
        periodAsset3: u8,
        /// Allocation percentage of asset 4.
        amountAsset4: u8,
        /// Rebalance period of asset 4.
        periodAsset4: u8,
        /// Allocation percentage of asset 5.
        amountAsset5: u8,
        /// Rebalance period of asset 5.
        periodAsset5: u8,
        /// Allocation percentage of asset 6.
        amountAsset6: u8,
        /// Rebalance period of asset 6.
        periodAsset6: u8,
        /// Allocation percentage of asset 7.
        amountAsset7: u8,
        /// Rebalance period of asset 7.
        periodAsset7: u8,
        /// Allocation percentage of asset 8.
        amountAsset8: u8,
        /// Rebalance period of asset 8.
        periodAsset8: u8,
        /// Allocation percentage of asset 9.
        amountAsset9: u8,
        /// Rebalance period of asset 9.
        periodAsset9: u8,
    },
    /// Creates and initializes a user portfolio.
    createInitUserPortfolio {
        /// The amount delegated.
        delegated_amount: u64,
        /// The user's value for asset 1.
        valueAsset1: u64,
        /// The user's value for asset 2.
        valueAsset2: u64,
        /// The user's value for asset 3.
        valueAsset3: u64,
        /// The user's value for asset 4.
        valueAsset4: u64,
        /// The user's value for asset 5.
        valueAsset5: u64,
        /// The user's value for asset 6.
        valueAsset6: u64,
        /// The user's value for asset 7.
        valueAsset7: u64,
        /// The user's value for asset 8.
        valueAsset8: u64,
        /// The user's value for asset 9.
        valueAsset9: u64,
    },
}

impl View for TokenInstruction {
    type V = TokenInstructionView;

    open spec fn view(&self) -> TokenInstructionView {
        match self {
            TokenInstruction::InitializeMint {
                decimals,
                mint_authority,
                freeze_authority,
                mint_id_asset,
                pubkey_swap,
            } => TokenInstructionView::InitializeMint {
                decimals: *decimals,
                mint_authority: mint_authority@,
                freeze_authority: opt_key_view(*freeze_authority),
                mint_id_asset: opt_key_view(*mint_id_asset),
                pubkey_swap: opt_key_view(*pubkey_swap),
            },
            TokenInstruction::InitializeAccount => TokenInstructionView::InitializeAccount,
            TokenInstruction::InitializeMultisig { m } => TokenInstructionView::InitializeMultisig {
                m: *m,
            },
            TokenInstruction::Transfer { amount } => TokenInstructionView::Transfer {
                amount: *amount,
            },
            TokenInstruction::Approve { amount } => TokenInstructionView::Approve {
                amount: *amount,
            },
            TokenInstruction::Revoke => TokenInstructionView::Revoke,
            TokenInstruction::SetAuthority { authority_type, new_authority } => {
                TokenInstructionView::SetAuthority {
                    authority_type: *authority_type,
                    new_authority: opt_key_view(*new_authority),
                }
            },
            TokenInstruction::MintTo { amount } => TokenInstructionView::MintTo {
                amount: *amount,
            },
            TokenInstruction::Burn { amount } => TokenInstructionView::Burn { amount: *amount },
            TokenInstruction::CloseAccount => TokenInstructionView::CloseAccount,
            TokenInstruction::FreezeAccount => TokenInstructionView::FreezeAccount,
            TokenInstruction::ThawAccount => TokenInstructionView::ThawAccount,
            TokenInstruction::TransferChecked { amount, decimals } => {
                TokenInstructionView::TransferChecked { amount: *amount, decimals: *decimals }
            },
            TokenInstruction::ApproveChecked { amount, decimals } => {
                TokenInstructionView::ApproveChecked { amount: *amount, decimals: *decimals }
            },
            TokenInstruction::MintToChecked { amount, decimals } => {
                TokenInstructionView::MintToChecked { amount: *amount, decimals: *decimals }
            },
            TokenInstruction::BurnChecked { amount, decimals } => {
                TokenInstructionView::BurnChecked { amount: *amount, decimals: *decimals }
            },
            TokenInstruction::InitializeAccount2 { owner } => {
                TokenInstructionView::InitializeAccount2 { owner: owner@ }
            },
            TokenInstruction::Deposit { amount, volatility, nonce } => {
                TokenInstructionView::Deposit {
                    amount: *amount,
                    volatility: *volatility,
                    nonce: *nonce,
                }
            },
            TokenInstruction::Withdraw { amount } => TokenInstructionView::Withdraw {
                amount: *amount,
            },
            TokenInstruction::InitializePortfolio {
                metaDataUrl,
                metaDataHash,
                amountAsset1,
                periodAsset1,
                amountAsset2,
                periodAsset2,
                amountAsset3,
                periodAsset3,
                amountAsset4,
                periodAsset4,
                amountAsset5,
                periodAsset5,
                amountAsset6,
                periodAsset6,
                amountAsset7,
                periodAsset7,
                amountAsset8,
                periodAsset8,
                amountAsset9,
                periodAsset9,
            } => TokenInstructionView::InitializePortfolio {
                metaDataUrl: metaDataUrl@,
                metaDataHash: *metaDataHash,
                amountAsset1: *amountAsset1,
                periodAsset1: *periodAsset1,
                amountAsset2: *amountAsset2,
                periodAsset2: *periodAsset2,
                amountAsset3: *amountAsset3,
                periodAsset3: *periodAsset3,
                amountAsset4: *amountAsset4,
                periodAsset4: *periodAsset4,
                amountAsset5: *amountAsset5,
                periodAsset5: *periodAsset5,
                amountAsset6: *amountAsset6,
                periodAsset6: *periodAsset6,
                amountAsset7: *amountAsset7,
                periodAsset7: *periodAsset7,
                amountAsset8: *amountAsset8,
                periodAsset8: *periodAsset8,
                amountAsset9: *amountAsset9,
                periodAsset9: *periodAsset9,
            },
            TokenInstruction::createInitUserPortfolio {
                delegated_amount,
                valueAsset1,
                valueAsset2,
                valueAsset3,
                valueAsset4,
                valueAsset5,
                valueAsset6,
                valueAsset7,
                valueAsset8,
                valueAsset9,
            } => TokenInstructionView::createInitUserPortfolio {
                delegated_amount: *delegated_amount,
                valueAsset1: *valueAsset1,
                valueAsset2: *valueAsset2,
                valueAsset3: *valueAsset3,
                valueAsset4: *valueAsset4,
                valueAsset5: *valueAsset5,
                valueAsset6: *valueAsset6,
                valueAsset7: *valueAsset7,
                valueAsset8: *valueAsset8,
                valueAsset9: *valueAsset9,
            },
        }
    }
}

impl TokenInstructionView {
    /// Every key is 32 bytes and the metadata blob is 128 bytes.
    pub open spec fn wf(self) -> bool {
        match self {
            TokenInstructionView::InitializeMint {
                mint_authority,
                freeze_authority,
                mint_id_asset,
                pubkey_swap,
                ..
            } => mint_authority.len() == 32 && crate::state::opt_key_wf(freeze_authority)
                && crate::state::opt_key_wf(mint_id_asset) && crate::state::opt_key_wf(
                pubkey_swap,
            ),
            TokenInstructionView::SetAuthority { new_authority, .. } => crate::state::opt_key_wf(
                new_authority,
            ),
            TokenInstructionView::InitializeAccount2 { owner } => owner.len() == 32,
            TokenInstructionView::InitializePortfolio { metaDataUrl, .. } => metaDataUrl.len()
                == 128,
            _ => true,
        }
    }
}

/// Encoding of an instruction-level optional key: a one-byte tag, and the
/// 32-byte key when present.
pub open spec fn spec_opt_key_ix_enc(o: Option<Seq<u8>>) -> Seq<u8> {
    match o {
        None => seq![0u8],
        Some(k) => seq![1u8] + k,
    }
}

/// Decoding of an instruction-level optional key at cursor `pos`: the value
/// and the next cursor, or `None` when the buffer is short or the tag invalid.
pub open spec fn spec_opt_key_ix_dec(s: Seq<u8>, pos: int) -> Option<(Option<Seq<u8>>, int)> {
    if pos < s.len() {
        if s[pos] == 0u8 {
            Some((None, pos + 1))
        } else if s[pos] == 1u8 && pos + 33 <= s.len() {
            Some((Some(s.subrange(pos + 1, pos + 33)), pos + 33))
        } else {
            None
        }
    } else {
        None
    }
}

/// An instruction-level optional key decodes back from where it was encoded.
pub proof fn lemma_opt_key_ix_at(s: Seq<u8>, pos: int, o: Option<Seq<u8>>)
    requires
        crate::state::opt_key_wf(o),
        0 <= pos,
        pos + spec_opt_key_ix_enc(o).len() <= s.len(),
        s.subrange(pos, pos + spec_opt_key_ix_enc(o).len()) == spec_opt_key_ix_enc(o),
    ensures
        spec_opt_key_ix_dec(s, pos) == Some((o, pos + spec_opt_key_ix_enc(o).len())),
{
    let e = spec_opt_key_ix_enc(o);
    assert(s.subrange(pos, pos + e.len()) == e);
    assert(s[pos] == e[0]);
    match o {
        None => {}
        Some(k) => {
            assert(e.len() == 33);
            assert forall|i: int| 0 <= i < 32 implies s.subrange(pos + 1, pos + 33)[i] == k[i] by {
                assert(s.subrange(pos, pos + 33)[i + 1] == e[i + 1]);
            }
            assert(s.subrange(pos + 1, pos + 33) =~= k);
        }
    }
}

/// Byte encoding of an instruction: the discriminant byte followed by the
/// variant's fields in order, with no padding.
pub open spec fn spec_instruction_enc(v: TokenInstructionView) -> Seq<u8> {
    match v {
        TokenInstructionView::InitializeMint {
            decimals,
            mint_authority,
            freeze_authority,
            mint_id_asset,
            pubkey_swap,
        } => seq![0u8, decimals] + mint_authority + spec_opt_key_ix_enc(freeze_authority)
            + spec_opt_key_ix_enc(mint_id_asset) + spec_opt_key_ix_enc(pubkey_swap),
        TokenInstructionView::InitializeAccount => seq![1u8],
        TokenInstructionView::InitializeMultisig { m } => seq![2u8, m],
        TokenInstructionView::Transfer { amount } => seq![3u8] + spec_u64_to_le_bytes(amount),
        TokenInstructionView::Approve { amount } => seq![4u8] + spec_u64_to_le_bytes(amount),
        TokenInstructionView::Revoke => seq![5u8],
        TokenInstructionView::SetAuthority { authority_type, new_authority } => seq![
            6u8,
            spec_authority_type_byte(authority_type),
        ] + spec_opt_key_ix_enc(new_authority),
        TokenInstructionView::MintTo { amount } => seq![7u8] + spec_u64_to_le_bytes(amount),
        TokenInstructionView::Burn { amount } => seq![8u8] + spec_u64_to_le_bytes(amount),
        TokenInstructionView::CloseAccount => seq![9u8],
        TokenInstructionView::FreezeAccount => seq![10u8],
        TokenInstructionView::ThawAccount => seq![11u8],
        TokenInstructionView::TransferChecked { amount, decimals } => seq![12u8]
            + spec_u64_to_le_bytes(amount) + seq![decimals],
        TokenInstructionView::ApproveChecked { amount, decimals } => seq![13u8]
            + spec_u64_to_le_bytes(amount) + seq![decimals],
        TokenInstructionView::MintToChecked { amount, decimals } => seq![14u8]
            + spec_u64_to_le_bytes(amount) + seq![decimals],
        TokenInstructionView::BurnChecked { amount, decimals } => seq![15u8]
            + spec_u64_to_le_bytes(amount) + seq![decimals],
        TokenInstructionView::InitializeAccount2 { owner } => seq![16u8] + owner,
        TokenInstructionView::Deposit { amount, volatility, nonce } => seq![17u8]
            + spec_u64_to_le_bytes(amount) + spec_u64_to_le_bytes(volatility) + seq![nonce],
        TokenInstructionView::Withdraw { amount } => seq![18u8] + spec_u64_to_le_bytes(amount),
        TokenInstructionView::InitializePortfolio {
            metaDataUrl,
            metaDataHash,
            amountAsset1,
            periodAsset1,
            amountAsset2,
            periodAsset2,
            amountAsset3,
            periodAsset3,
            amountAsset4,
            periodAsset4,
            amountAsset5,
            periodAsset5,
            amountAsset6,
            periodAsset6,
            amountAsset7,
            periodAsset7,
            amountAsset8,
            periodAsset8,
            amountAsset9,
            periodAsset9,
        } => seq![19u8] + metaDataUrl + spec_u16_to_le_bytes(metaDataHash) + seq![
            amountAsset1,
            periodAsset1,
            amountAsset2,
            periodAsset2,
            amountAsset3,
            periodAsset3,
            amountAsset4,
            periodAsset4,
            amountAsset5,
            periodAsset5,
            amountAsset6,
            periodAsset6,
            amountAsset7,
            periodAsset7,
            amountAsset8,
            periodAsset8,
            amountAsset9,
            periodAsset9,
        ],
        TokenInstructionView::createInitUserPortfolio {
            delegated_amount,
            valueAsset1,
            valueAsset2,
            valueAsset3,
            valueAsset4,
            valueAsset5,
            valueAsset6,
            valueAsset7,
            valueAsset8,
            valueAsset9,
        } => seq![20u8] + spec_u64_to_le_bytes(delegated_amount)+ spec_u64_to_le_bytes(valueAsset1) + spec_u64_to_le_bytes(valueAsset2) + spec_u64_to_le_bytes(valueAsset3) + spec_u64_to_le_bytes(valueAsset4) + spec_u64_to_le_bytes(valueAsset5) + spec_u64_to_le_bytes(valueAsset6) + spec_u64_to_le_bytes(valueAsset7) + spec_u64_to_le_bytes(valueAsset8) + spec_u64_to_le_bytes(valueAsset9),
    }
}

/// Byte decoding of an instruction; `None` means the buffer is malformed.
/// Bytes beyond the last field of a variant are ignored.
pub open spec fn spec_instruction_dec(s: Seq<u8>) -> Option<TokenInstructionView> {
    if s.len() < 1 {
        None
    } else {
        let tag = s[0];
        if tag == 0u8 {
            if s.len() < 34 {
                None
            } else {
                match spec_opt_key_ix_dec(s, 34) {
                    None => None,
                    Some((freeze_authority, p2)) => match spec_opt_key_ix_dec(s, p2) {
                        None => None,
                        Some((mint_id_asset, p3)) => match spec_opt_key_ix_dec(s, p3) {
                            None => None,
                            Some((pubkey_swap, _p4)) => Some(
                                TokenInstructionView::InitializeMint {
                                    decimals: s[1],
                                    mint_authority: s.subrange(2, 34),
                                    freeze_authority,
                                    mint_id_asset,
                                    pubkey_swap,
                                },
                            ),
                        },
                    },
                }
            }
        } else if tag == 1u8 {
            Some(TokenInstructionView::InitializeAccount)
        } else if tag == 2u8 {
            if s.len() < 2 {
                None
            } else {
                Some(TokenInstructionView::InitializeMultisig { m: s[1] })
            }
        } else if tag == 3u8 || tag == 4u8 || tag == 7u8 || tag == 8u8 || tag == 18u8 {
            if s.len() < 9 {
                None
            } else {
                let amount = spec_u64_from_le_bytes(s.subrange(1, 9));
                if tag == 3u8 {
                    Some(TokenInstructionView::Transfer { amount })
                } else if tag == 4u8 {
                    Some(TokenInstructionView::Approve { amount })
                } else if tag == 7u8 {
                    Some(TokenInstructionView::MintTo { amount })
                } else if tag == 8u8 {
                    Some(TokenInstructionView::Burn { amount })
                } else {
                    Some(TokenInstructionView::Withdraw { amount })
                }
            }
        } else if tag == 17u8 {
            if s.len() < 18 {
                None
            } else {
                Some(
                    TokenInstructionView::Deposit {
                        amount: spec_u64_from_le_bytes(s.subrange(1, 9)),
                        volatility: spec_u64_from_le_bytes(s.subrange(9, 17)),
                        nonce: s[17],
                    },
                )
            }
        } else if tag == 5u8 {
            Some(TokenInstructionView::Revoke)
        } else if tag == 6u8 {
            if s.len() < 2 {
                None
            } else {
                match spec_byte_authority_type(s[1]) {
                    None => None,
                    Some(authority_type) => match spec_opt_key_ix_dec(s, 2) {
                        None => None,
                        Some((new_authority, _p)) => Some(
                            TokenInstructionView::SetAuthority { authority_type, new_authority },
                        ),
                    },
                }
            }
        } else if tag == 9u8 {
            Some(TokenInstructionView::CloseAccount)
        } else if tag == 10u8 {
            Some(TokenInstructionView::FreezeAccount)
        } else if tag == 11u8 {
            Some(TokenInstructionView::ThawAccount)
        } else if tag == 12u8 || tag == 13u8 || tag == 14u8 || tag == 15u8 {
            if s.len() < 10 {
                None
            } else {
                let amount = spec_u64_from_le_bytes(s.subrange(1, 9));
                let decimals = s[9];
                if tag == 12u8 {
                    Some(TokenInstructionView::TransferChecked { amount, decimals })
                } else if tag == 13u8 {
                    Some(TokenInstructionView::ApproveChecked { amount, decimals })
                } else if tag == 14u8 {
                    Some(TokenInstructionView::MintToChecked { amount, decimals })
                } else {
                    Some(TokenInstructionView::BurnChecked { amount, decimals })
                }
            }
        } else if tag == 16u8 {
            if s.len() < 33 {
                None
            } else {
                Some(TokenInstructionView::InitializeAccount2 { owner: s.subrange(1, 33) })
            }
        } else if tag == 19u8 {
            if s.len() < 149 {
                None
            } else {
                Some(
                    TokenInstructionView::InitializePortfolio {
                        metaDataUrl: s.subrange(1, 129),
                        metaDataHash: spec_u16_from_le_bytes(s.subrange(129, 131)),
                amountAsset1: s[131],
                periodAsset1: s[132],
                amountAsset2: s[133],
                periodAsset2: s[134],
                amountAsset3: s[135],
                periodAsset3: s[136],
                amountAsset4: s[137],
                periodAsset4: s[138],
                amountAsset5: s[139],
                periodAsset5: s[140],
                amountAsset6: s[141],
                periodAsset6: s[142],
                amountAsset7: s[143],
                periodAsset7: s[144],
                amountAsset8: s[145],
                periodAsset8: s[146],
                amountAsset9: s[147],
                periodAsset9: s[148],
                    },
                )
            }
        } else if tag == 20u8 {
            if s.len() < 81 {
                None
            } else {
                Some(
                    TokenInstructionView::createInitUserPortfolio {
                        delegated_amount: spec_u64_from_le_bytes(s.subrange(1, 9)),
                valueAsset1: spec_u64_from_le_bytes(s.subrange(9, 17)),
                valueAsset2: spec_u64_from_le_bytes(s.subrange(17, 25)),
                valueAsset3: spec_u64_from_le_bytes(s.subrange(25, 33)),
                valueAsset4: spec_u64_from_le_bytes(s.subrange(33, 41)),
                valueAsset5: spec_u64_from_le_bytes(s.subrange(41, 49)),
                valueAsset6: spec_u64_from_le_bytes(s.subrange(49, 57)),
                valueAsset7: spec_u64_from_le_bytes(s.subrange(57, 65)),
                valueAsset8: spec_u64_from_le_bytes(s.subrange(65, 73)),
                valueAsset9: spec_u64_from_le_bytes(s.subrange(73, 81)),
                    },
                )
            }
        } else {
            None
        }
    }
}

/// Round trip of the instruction codec: decoding what was encoded yields the
/// instruction back, for every well-formed instruction.
pub proof fn lemma_instruction_round_trip(v: TokenInstructionView)
    requires
        v.wf(),
    ensures
        spec_instruction_dec(spec_instruction_enc(v)) == Some(v),
{
    let e = spec_instruction_enc(v);
    match v {
        TokenInstructionView::InitializeMint {
            decimals,
            mint_authority,
            freeze_authority,
            mint_id_asset,
            pubkey_swap,
        } => {
            let e1 = spec_opt_key_ix_enc(freeze_authority);
            let e2 = spec_opt_key_ix_enc(mint_id_asset);
            let e3 = spec_opt_key_ix_enc(pubkey_swap);
            let l1 = e1.len() as int;
            let l2 = e2.len() as int;
            let l3 = e3.len() as int;
            assert(e.subrange(2, 34) =~= mint_authority);
            assert(e.subrange(34, 34 + l1) =~= e1);
            lemma_opt_key_ix_at(e, 34, freeze_authority);
            assert(e.subrange(34 + l1, 34 + l1 + l2) =~= e2);
            lemma_opt_key_ix_at(e, 34 + l1, mint_id_asset);
            assert(e.subrange(34 + l1 + l2, 34 + l1 + l2 + l3) =~= e3);
            lemma_opt_key_ix_at(e, 34 + l1 + l2, pubkey_swap);
        }
        TokenInstructionView::InitializeAccount => {}
        TokenInstructionView::InitializeMultisig { m } => {}
        TokenInstructionView::Transfer { amount } => {
            assert(e.subrange(1, 9) =~= spec_u64_to_le_bytes(amount));
            lemma_u64_le_round_trip(amount);
        }
        TokenInstructionView::Approve { amount } => {
            assert(e.subrange(1, 9) =~= spec_u64_to_le_bytes(amount));
            lemma_u64_le_round_trip(amount);
        }
        TokenInstructionView::Revoke => {}
        TokenInstructionView::SetAuthority { authority_type, new_authority } => {
            let e1 = spec_opt_key_ix_enc(new_authority);
            let l1 = e1.len() as int;
            assert(e[1] == spec_authority_type_byte(authority_type));
            assert(e.subrange(2, 2 + l1) =~= e1);
            lemma_opt_key_ix_at(e, 2, new_authority);
        }
        TokenInstructionView::MintTo { amount } => {
            assert(e.subrange(1, 9) =~= spec_u64_to_le_bytes(amount));
            lemma_u64_le_round_trip(amount);
        }
        TokenInstructionView::Burn { amount } => {
            assert(e.subrange(1, 9) =~= spec_u64_to_le_bytes(amount));
            lemma_u64_le_round_trip(amount);
        }
        TokenInstructionView::CloseAccount => {}
        TokenInstructionView::FreezeAccount => {}
        TokenInstructionView::ThawAccount => {}
        TokenInstructionView::TransferChecked { amount, decimals } => {
            assert(e.subrange(1, 9) =~= spec_u64_to_le_bytes(amount));
            lemma_u64_le_round_trip(amount);
            assert(e[9] == decimals);
        }
        TokenInstructionView::ApproveChecked { amount, decimals } => {
            assert(e.subrange(1, 9) =~= spec_u64_to_le_bytes(amount));
            lemma_u64_le_round_trip(amount);
            assert(e[9] == decimals);
        }
        TokenInstructionView::MintToChecked { amount, decimals } => {
            assert(e.subrange(1, 9) =~= spec_u64_to_le_bytes(amount));
            lemma_u64_le_round_trip(amount);
            assert(e[9] == decimals);
        }
        TokenInstructionView::BurnChecked { amount, decimals } => {
            assert(e.subrange(1, 9) =~= spec_u64_to_le_bytes(amount));
            lemma_u64_le_round_trip(amount);
            assert(e[9] == decimals);
        }
        TokenInstructionView::InitializeAccount2 { owner } => {
            assert(e.subrange(1, 33) =~= owner);
        }
        TokenInstructionView::Deposit { amount, volatility, nonce } => {
            assert(e.subrange(1, 9) =~= spec_u64_to_le_bytes(amount));
            lemma_u64_le_round_trip(amount);
            assert(e.subrange(9, 17) =~= spec_u64_to_le_bytes(volatility));
            lemma_u64_le_round_trip(volatility);
            assert(e[17] == nonce);
        }
        TokenInstructionView::Withdraw { amount } => {
            assert(e.subrange(1, 9) =~= spec_u64_to_le_bytes(amount));
            lemma_u64_le_round_trip(amount);
        }
        TokenInstructionView::InitializePortfolio {
            metaDataUrl,
            metaDataHash,
            amountAsset1,
            periodAsset1,
            amountAsset2,
            periodAsset2,
            amountAsset3,
            periodAsset3,
            amountAsset4,
            periodAsset4,
            amountAsset5,
            periodAsset5,
            amountAsset6,
            periodAsset6,
            amountAsset7,
            periodAsset7,
            amountAsset8,
            periodAsset8,
            amountAsset9,
            periodAsset9,
        } => {
            assert(e.subrange(1, 129) =~= metaDataUrl);
            assert(e.subrange(129, 131) =~= spec_u16_to_le_bytes(metaDataHash));
            lemma_u16_le_round_trip(metaDataHash);
            assert(e[131] == amountAsset1);
            assert(e[132] == periodAsset1);
            assert(e[133] == amountAsset2);
            assert(e[134] == periodAsset2);
            assert(e[135] == amountAsset3);
            assert(e[136] == periodAsset3);
            assert(e[137] == amountAsset4);
            assert(e[138] == periodAsset4);
            assert(e[139] == amountAsset5);
            assert(e[140] == periodAsset5);
            assert(e[141] == amountAsset6);
            assert(e[142] == periodAsset6);
            assert(e[143] == amountAsset7);
            assert(e[144] == periodAsset7);
            assert(e[145] == amountAsset8);
            assert(e[146] == periodAsset8);
            assert(e[147] == amountAsset9);
            assert(e[148] == periodAsset9);
        }
        TokenInstructionView::createInitUserPortfolio {
            delegated_amount,
            valueAsset1,
            valueAsset2,
            valueAsset3,
            valueAsset4,
            valueAsset5,
            valueAsset6,
            valueAsset7,
            valueAsset8,
            valueAsset9,
        } => {
            assert(e.subrange(1, 9) =~= spec_u64_to_le_bytes(delegated_amount));
            lemma_u64_le_round_trip(delegated_amount);
            assert(e.subrange(9, 17) =~= spec_u64_to_le_bytes(valueAsset1));
            lemma_u64_le_round_trip(valueAsset1);
            assert(e.subrange(17, 25) =~= spec_u64_to_le_bytes(valueAsset2));
            lemma_u64_le_round_trip(valueAsset2);
            assert(e.subrange(25, 33) =~= spec_u64_to_le_bytes(valueAsset3));
            lemma_u64_le_round_trip(valueAsset3);
            assert(e.subrange(33, 41) =~= spec_u64_to_le_bytes(valueAsset4));
            lemma_u64_le_round_trip(valueAsset4);
            assert(e.subrange(41, 49) =~= spec_u64_to_le_bytes(valueAsset5));
            lemma_u64_le_round_trip(valueAsset5);
            assert(e.subrange(49, 57) =~= spec_u64_to_le_bytes(valueAsset6));
            lemma_u64_le_round_trip(valueAsset6);
            assert(e.subrange(57, 65) =~= spec_u64_to_le_bytes(valueAsset7));
            lemma_u64_le_round_trip(valueAsset7);
            assert(e.subrange(65, 73) =~= spec_u64_to_le_bytes(valueAsset8));
            lemma_u64_le_round_trip(valueAsset8);
            assert(e.subrange(73, 81) =~= spec_u64_to_le_bytes(valueAsset9));
            lemma_u64_le_round_trip(valueAsset9);
        }
    }
    assert(spec_instruction_dec(e) == Some(v));
}

impl TokenInstruction {
    /// Reads a 32-byte key at cursor `pos`, returning the key and the next
    /// cursor.
    fn unpack_pubkey(input: &Vec<u8>, pos: usize) -> (r: Result<(Pubkey, usize), TokenError>)
        ensures
            match r {
                Ok((k, p)) => pos + 32 <= input.len() && k@ == input@.subrange(
                    pos as int,
                    pos + 32,
                ) && p == pos + 32,
                Err(e) => input.len() < pos + 32 && e == TokenError::InvalidInstruction,
            },
    {
        if pos <= input.len() && input.len() - pos >= 32 {
            let k = read_key_at(input, pos);
            Ok((k, pos + 32))
        } else {
            Err(TokenError::InvalidInstruction)
        }
    }

    /// Reads an optional key at cursor `pos`, returning the value and the
    /// next cursor.
    fn unpack_pubkey_option(input: &Vec<u8>, pos: usize) -> (r: Result<
        (Option<Pubkey>, usize),
        TokenError,
    >)
        ensures
            match r {
                Ok((o, p)) => spec_opt_key_ix_dec(input@, pos as int) == Some(
                    (opt_key_view(o), p as int),
                ) && p <= input.len(),
                Err(e) => spec_opt_key_ix_dec(input@, pos as int) is None && e
                    == TokenError::InvalidInstruction,
            },
    {
        if pos >= input.len() {
            return Err(TokenError::InvalidInstruction);
        }
        let tag = read_u8_at(input, pos);
        if tag == 0 {
            Ok((None, pos + 1))
        } else if tag == 1 && input.len() - (pos + 1) >= 32 {
            let k = read_key_at(input, pos + 1);
            Ok((Some(k), pos + 33))
        } else {
            Err(TokenError::InvalidInstruction)
        }
    }

    /// Appends an optional key: a one-byte tag, then the key when present.
    fn pack_pubkey_option(value: &Option<Pubkey>, buf: &mut Vec<u8>)
        ensures
            final(buf)@ == old(buf)@ + spec_opt_key_ix_enc(opt_key_view(*value)),
    {
        match value {
            Some(key) => {
                buf.push(1);
                push_key(buf, key);
                assert(buf@ =~= old(buf)@ + spec_opt_key_ix_enc(opt_key_view(*value)));
            }
            None => {
                buf.push(0);
                assert(buf@ =~= old(buf)@ + spec_opt_key_ix_enc(opt_key_view(*value)));
            }
        }
    }

    /// Reads a little-endian `u64` at cursor `pos`, checking the remaining
    /// length.
    fn unpack_u64(input: &Vec<u8>, pos: usize) -> (r: Result<u64, TokenError>)
        ensures
            match r {
                Ok(v) => pos + 8 <= input.len() && v == spec_u64_from_le_bytes(
                    input@.subrange(pos as int, pos + 8),
                ),
                Err(e) => input.len() < pos + 8 && e == TokenError::InvalidInstruction,
            },
    {
        if pos <= input.len() && input.len() - pos >= 8 {
            Ok(read_u64_le(input, pos))
        } else {
            Err(TokenError::InvalidInstruction)
        }
    }

    /// Decodes an instruction from a byte buffer. The first byte is the
    /// discriminant; each variant's fields follow, consumed left to right; a
    /// buffer too short for a field, an invalid discriminant, an invalid
    /// authority type or an invalid option tag is rejected as
    /// `InvalidInstruction`, never a panic.
    #[allow(non_snake_case)]
    pub fn unpack(input: &Vec<u8>) -> (r: Result<TokenInstruction, TokenError>)
        ensures
            match r {
                Ok(ix) => spec_instruction_dec(input@) == Some(ix@),
                Err(e) => spec_instruction_dec(input@) is None && e
                    == TokenError::InvalidInstruction,
            },
    {
        if input.len() < 1 {
            return Err(TokenError::InvalidInstruction);
        }
        let tag = read_u8_at(input, 0);
        if tag == 0 {
            if input.len() < 34 {
                return Err(TokenError::InvalidInstruction);
            }
            let decimals = read_u8_at(input, 1);
            let mint_authority = read_key_at(input, 2);
            let (freeze_authority, p2) = Self::unpack_pubkey_option(input, 34)?;
            let (mint_id_asset, p3) = Self::unpack_pubkey_option(input, p2)?;
            let (pubkey_swap, _p4) = Self::unpack_pubkey_option(input, p3)?;
            Ok(
                TokenInstruction::InitializeMint {
                    decimals,
                    mint_authority,
                    freeze_authority,
                    mint_id_asset,
                    pubkey_swap,
                },
            )
        } else if tag == 1 {
            Ok(TokenInstruction::InitializeAccount)
        } else if tag == 2 {
            if input.len() < 2 {
                return Err(TokenError::InvalidInstruction);
            }
            let m = read_u8_at(input, 1);
            Ok(TokenInstruction::InitializeMultisig { m })
        } else if tag == 3 || tag == 4 || tag == 7 || tag == 8 || tag == 18 {
            let amount = Self::unpack_u64(input, 1)?;
            if tag == 3 {
                Ok(TokenInstruction::Transfer { amount })
            } else if tag == 4 {
                Ok(TokenInstruction::Approve { amount })
            } else if tag == 7 {
                Ok(TokenInstruction::MintTo { amount })
            } else if tag == 8 {
                Ok(TokenInstruction::Burn { amount })
            } else {
                Ok(TokenInstruction::Withdraw { amount })
            }
        } else if tag == 17 {
            let amount = Self::unpack_u64(input, 1)?;
            let volatility = Self::unpack_u64(input, 9)?;
            if input.len() < 18 {
                return Err(TokenError::InvalidInstruction);
            }
            let nonce = read_u8_at(input, 17);
            Ok(TokenInstruction::Deposit { amount, volatility, nonce })
        } else if tag == 5 {
            Ok(TokenInstruction::Revoke)
        } else if tag == 6 {
            if input.len() < 2 {
                return Err(TokenError::InvalidInstruction);
            }
            let authority_type = AuthorityType::from(read_u8_at(input, 1))?;
            let (new_authority, _p) = Self::unpack_pubkey_option(input, 2)?;
            Ok(TokenInstruction::SetAuthority { authority_type, new_authority })
        } else if tag == 9 {
            Ok(TokenInstruction::CloseAccount)
        } else if tag == 10 {
            Ok(TokenInstruction::FreezeAccount)
        } else if tag == 11 {
            Ok(TokenInstruction::ThawAccount)
        } else if tag == 12 || tag == 13 || tag == 14 || tag == 15 {
            let amount = Self::unpack_u64(input, 1)?;
            if input.len() < 10 {
                return Err(TokenError::InvalidInstruction);
            }
            let decimals = read_u8_at(input, 9);
            if tag == 12 {
                Ok(TokenInstruction::TransferChecked { amount, decimals })
            } else if tag == 13 {
                Ok(TokenInstruction::ApproveChecked { amount, decimals })
            } else if tag == 14 {
                Ok(TokenInstruction::MintToChecked { amount, decimals })
            } else {
                Ok(TokenInstruction::BurnChecked { amount, decimals })
            }
        } else if tag == 16 {
            let (owner, _p) = Self::unpack_pubkey(input, 1)?;
            Ok(TokenInstruction::InitializeAccount2 { owner })
        } else if tag == 19 {
            if input.len() < 149 {
                return Err(TokenError::InvalidInstruction);
            }
            let metaDataUrl = read_bytes_at(input, 1, 128);
            let metaDataHash = read_u16_le(input, 129);
            let amountAsset1 = read_u8_at(input, 131);
            let periodAsset1 = read_u8_at(input, 132);
            let amountAsset2 = read_u8_at(input, 133);
            let periodAsset2 = read_u8_at(input, 134);
            let amountAsset3 = read_u8_at(input, 135);
            let periodAsset3 = read_u8_at(input, 136);
            let amountAsset4 = read_u8_at(input, 137);
            let periodAsset4 = read_u8_at(input, 138);
            let amountAsset5 = read_u8_at(input, 139);
            let periodAsset5 = read_u8_at(input, 140);
            let amountAsset6 = read_u8_at(input, 141);
            let periodAsset6 = read_u8_at(input, 142);
            let amountAsset7 = read_u8_at(input, 143);
            let periodAsset7 = read_u8_at(input, 144);
            let amountAsset8 = read_u8_at(input, 145);
            let periodAsset8 = read_u8_at(input, 146);
            let amountAsset9 = read_u8_at(input, 147);
            let periodAsset9 = read_u8_at(input, 148);
            let result = TokenInstruction::InitializePortfolio {
                metaDataUrl,
                metaDataHash,
                amountAsset1,
                periodAsset1,
                amountAsset2,
                periodAsset2,
                amountAsset3,
                periodAsset3,
                amountAsset4,
                periodAsset4,
                amountAsset5,
                periodAsset5,
                amountAsset6,
                periodAsset6,
                amountAsset7,
                periodAsset7,
                amountAsset8,
                periodAsset8,
                amountAsset9,
                periodAsset9,
            };
            assert(spec_instruction_dec(input@) == Some(result@));
            Ok(result)
        } else if tag == 20 {
            if input.len() < 81 {
                return Err(TokenError::InvalidInstruction);
            }
            let delegated_amount = read_u64_le(input, 1);
            let valueAsset1 = read_u64_le(input, 9);
            let valueAsset2 = read_u64_le(input, 17);
            let valueAsset3 = read_u64_le(input, 25);
            let valueAsset4 = read_u64_le(input, 33);
            let valueAsset5 = read_u64_le(input, 41);
            let valueAsset6 = read_u64_le(input, 49);
            let valueAsset7 = read_u64_le(input, 57);
            let valueAsset8 = read_u64_le(input, 65);
            let valueAsset9 = read_u64_le(input, 73);
            let result = TokenInstruction::createInitUserPortfolio {
                delegated_amount,
                valueAsset1,
                valueAsset2,
                valueAsset3,
                valueAsset4,
                valueAsset5,
                valueAsset6,
                valueAsset7,
                valueAsset8,
                valueAsset9,
            };
            assert(spec_instruction_dec(input@) == Some(result@));
            Ok(result)
        } else {
            Err(TokenError::InvalidInstruction)
        }
    }

    /// Encodes the instruction into a fresh byte buffer: the discriminant
    /// byte, then the variant's fields in order.
    #[allow(non_snake_case)]
    pub fn pack(&self) -> (buf: Vec<u8>)
        ensures
            buf@ == spec_instruction_enc(self@),
    {
        let mut buf: Vec<u8> = Vec::new();
        match self {
            TokenInstruction::InitializeMint {
                decimals,
                mint_authority,
                freeze_authority,
                mint_id_asset,
                pubkey_swap,
            } => {
                buf.push(0);
                buf.push(*decimals);
                push_key(&mut buf, mint_authority);
                Self::pack_pubkey_option(freeze_authority, &mut buf);
                Self::pack_pubkey_option(mint_id_asset, &mut buf);
                Self::pack_pubkey_option(pubkey_swap, &mut buf);
                assert(buf@ =~= spec_instruction_enc(self@));
            }
            TokenInstruction::InitializeAccount => {
                buf.push(1);
                assert(buf@ =~= spec_instruction_enc(self@));
            }
            TokenInstruction::InitializeMultisig { m } => {
                buf.push(2);
                buf.push(*m);
                assert(buf@ =~= spec_instruction_enc(self@));
            }
            TokenInstruction::Transfer { amount } => {
                buf.push(3);
                push_u64_le(&mut buf, *amount);
                assert(buf@ =~= spec_instruction_enc(self@));
            }
            TokenInstruction::Approve { amount } => {
                buf.push(4);
                push_u64_le(&mut buf, *amount);
                assert(buf@ =~= spec_instruction_enc(self@));
            }
            TokenInstruction::Revoke => {
                buf.push(5);
                assert(buf@ =~= spec_instruction_enc(self@));
            }
            TokenInstruction::SetAuthority { authority_type, new_authority } => {
                buf.push(6);
                buf.push(authority_type.into());
                Self::pack_pubkey_option(new_authority, &mut buf);
                assert(buf@ =~= spec_instruction_enc(self@));
            }
            TokenInstruction::MintTo { amount } => {
                buf.push(7);
                push_u64_le(&mut buf, *amount);
                assert(buf@ =~= spec_instruction_enc(self@));
            }
            TokenInstruction::Burn { amount } => {
                buf.push(8);
                push_u64_le(&mut buf, *amount);
                assert(buf@ =~= spec_instruction_enc(self@));
            }
            TokenInstruction::CloseAccount => {
                buf.push(9);
                assert(buf@ =~= spec_instruction_enc(self@));
            }
            TokenInstruction::FreezeAccount => {
                buf.push(10);
                assert(buf@ =~= spec_instruction_enc(self@));
            }
            TokenInstruction::ThawAccount => {
                buf.push(11);
                assert(buf@ =~= spec_instruction_enc(self@));
            }
            TokenInstruction::TransferChecked { amount, decimals } => {
                buf.push(12);
                push_u64_le(&mut buf, *amount);
                buf.push(*decimals);
                assert(buf@ =~= spec_instruction_enc(self@));
            }
            TokenInstruction::ApproveChecked { amount, decimals } => {
                buf.push(13);
                push_u64_le(&mut buf, *amount);
                buf.push(*decimals);
                assert(buf@ =~= spec_instruction_enc(self@));
            }
            TokenInstruction::MintToChecked { amount, decimals } => {
                buf.push(14);
                push_u64_le(&mut buf, *amount);
                buf.push(*decimals);
                assert(buf@ =~= spec_instruction_enc(self@));
            }
            TokenInstruction::BurnChecked { amount, decimals } => {
                buf.push(15);
                push_u64_le(&mut buf, *amount);
                buf.push(*decimals);
                assert(buf@ =~= spec_instruction_enc(self@));
            }
            TokenInstruction::InitializeAccount2 { owner } => {
                buf.push(16);
                push_key(&mut buf, owner);
                assert(buf@ =~= spec_instruction_enc(self@));
            }
            TokenInstruction::Deposit { amount, volatility, nonce } => {
                buf.push(17);
                push_u64_le(&mut buf, *amount);
                push_u64_le(&mut buf, *volatility);
                buf.push(*nonce);
                assert(buf@ =~= spec_instruction_enc(self@));
            }
            TokenInstruction::Withdraw { amount } => {
                buf.push(18);
                push_u64_le(&mut buf, *amount);
                assert(buf@ =~= spec_instruction_enc(self@));
            }
            TokenInstruction::InitializePortfolio {
                metaDataUrl,
                metaDataHash,
                amountAsset1,
                periodAsset1,
                amountAsset2,
                periodAsset2,
                amountAsset3,
                periodAsset3,
                amountAsset4,
                periodAsset4,
                amountAsset5,
                periodAsset5,
                amountAsset6,
                periodAsset6,
                amountAsset7,
                periodAsset7,
                amountAsset8,
                periodAsset8,
                amountAsset9,
                periodAsset9,
            } => {
                buf.push(19);
                push_bytes(&mut buf, metaDataUrl.as_slice());
                push_u16_le(&mut buf, *metaDataHash);
                buf.push(*amountAsset1);
                buf.push(*periodAsset1);
                buf.push(*amountAsset2);
                buf.push(*periodAsset2);
                buf.push(*amountAsset3);
                buf.push(*periodAsset3);
                buf.push(*amountAsset4);
                buf.push(*periodAsset4);
                buf.push(*amountAsset5);
                buf.push(*periodAsset5);
                buf.push(*amountAsset6);
                buf.push(*periodAsset6);
                buf.push(*amountAsset7);
                buf.push(*periodAsset7);
                buf.push(*amountAsset8);
                buf.push(*periodAsset8);
                buf.push(*amountAsset9);
                buf.push(*periodAsset9);
                assert(buf@ =~= spec_instruction_enc(self@));
            }
            TokenInstruction::createInitUserPortfolio {
                delegated_amount,
                valueAsset1,
                valueAsset2,
                valueAsset3,
                valueAsset4,
                valueAsset5,
                valueAsset6,
                valueAsset7,
                valueAsset8,
                valueAsset9,
            } => {
                buf.push(20);
                push_u64_le(&mut buf, *delegated_amount);
                push_u64_le(&mut buf, *valueAsset1);
                push_u64_le(&mut buf, *valueAsset2);
                push_u64_le(&mut buf, *valueAsset3);
                push_u64_le(&mut buf, *valueAsset4);
                push_u64_le(&mut buf, *valueAsset5);
                push_u64_le(&mut buf, *valueAsset6);
                push_u64_le(&mut buf, *valueAsset7);
                push_u64_le(&mut buf, *valueAsset8);
                push_u64_le(&mut buf, *valueAsset9);
                assert(buf@ =~= spec_instruction_enc(self@));
            }
        }
        buf
    }
}


/// Mathematical view of an account reference named by a built instruction.
#[verifier::ext_equal]
pub struct MetaView {
    /// The referenced key.
    pub pubkey: Seq<u8>,
    /// Whether the holder of the key must sign.
    pub is_signer: bool,
    /// Whether the account must be writable.
    pub is_writable: bool,
}

/// An account reference named by a built instruction.
#[derive(Clone, Copy, Debug, PartialEq)]
pub struct AccountMeta {
    /// The referenced key.
    pub pubkey: Pubkey,
    /// Whether the holder of the key must sign.
    pub is_signer: bool,
    /// Whether the account must be writable.
    pub is_writable: bool,
}

impl View for AccountMeta {
    type V = MetaView;

    open spec fn view(&self) -> MetaView {
        MetaView { pubkey: self.pubkey@, is_signer: self.is_signer, is_writable: self.is_writable }
    }
}

impl AccountMeta {
    /// A writable account reference.
    pub fn new(pubkey: Pubkey, is_signer: bool) -> (m: AccountMeta)
        ensures
            m@ == (MetaView { pubkey: pubkey@, is_signer, is_writable: true }),
    {
        AccountMeta { pubkey, is_signer, is_writable: true }
    }

    /// A read-only account reference.
    pub fn new_readonly(pubkey: Pubkey, is_signer: bool) -> (m: AccountMeta)
        ensures
            m@ == (MetaView { pubkey: pubkey@, is_signer, is_writable: false }),
    {
        AccountMeta { pubkey, is_signer, is_writable: false }
    }
}

/// The views of a sequence of account references.
pub open spec fn metas_view(s: Seq<AccountMeta>) -> Seq<MetaView> {
    Seq::new(s.len(), |i: int| s[i]@)
}

/// Mathematical view of a built instruction.
#[verifier::ext_equal]
pub struct InstructionView {
    /// The program to invoke.
    pub program_id: Seq<u8>,
    /// The accounts the instruction names, in order.
    pub accounts: Seq<MetaView>,
    /// The serialized instruction data.
    pub data: Seq<u8>,
}

/// A built instruction, ready to be handed to the host for dispatch: the
/// program to invoke, the accounts it names, and the serialized data.
pub struct Instruction {
    /// The program to invoke.
    pub program_id: Pubkey,
    /// The accounts the instruction names, in order.
    pub accounts: Vec<AccountMeta>,
    /// The serialized instruction data.
    pub data: Vec<u8>,
}

impl View for Instruction {
    type V = InstructionView;

    open spec fn view(&self) -> InstructionView {
        InstructionView {
            program_id: self.program_id@,
            accounts: metas_view(self.accounts@),
            data: self.data@,
        }
    }
}

/// The key carried by an optional key reference, as bytes.
pub open spec fn opt_ref_key_view(o: Option<&Pubkey>) -> Option<Seq<u8>> {
    match o {
        Some(k) => Some(k@),
        None => None,
    }
}

/// Appends one read-only, signing account reference per signer key.
fn push_signer_metas(metas: &mut Vec<AccountMeta>, signer_pubkeys: &[&Pubkey])
    ensures
        final(metas)@.len() == old(metas)@.len() + signer_pubkeys@.len(),
        forall|i: int| 0 <= i < old(metas)@.len() ==> final(metas)@[i] == old(metas)@[i],
        forall|i: int|
            0 <= i < signer_pubkeys@.len() ==> (#[trigger] final(metas)@[old(metas)@.len() + i])@
                == (MetaView {
                pubkey: signer_pubkeys@[i]@,
                is_signer: true,
                is_writable: false,
            }),
{
    let n = signer_pubkeys.len();
    let mut i: usize = 0;
    while i < n
        invariant
            0 <= i <= n,
            n == signer_pubkeys@.len(),
            metas@.len() == old(metas)@.len() + i,
            forall|j: int| 0 <= j < old(metas)@.len() ==> metas@[j] == old(metas)@[j],
            forall|j: int|
                0 <= j < i ==> (#[trigger] metas@[old(metas)@.len() + j])@ == (MetaView {
                    pubkey: signer_pubkeys@[j]@,
                    is_signer: true,
                    is_writable: false,
                }),
        decreases n - i,
    {
        let k = *vstd::slice::slice_index_get(signer_pubkeys, i);
        metas.push(AccountMeta::new_readonly(*k, true));
        i = i + 1;
    }
}

/// Builds a `Transfer` instruction.
pub fn transfer(
    token_program_id: &Pubkey,
    source_pubkey: &Pubkey,
    destination_pubkey: &Pubkey,
    authority_pubkey: &Pubkey,
    signer_pubkeys: &[&Pubkey],
    amount: u64,
) -> (r: Result<Instruction, TokenError>)
    ensures
        r is Ok,
        ({
            let ix = r->Ok_0@;
            &&& ix.program_id == token_program_id@
            &&& ix.data == spec_instruction_enc(TokenInstructionView::Transfer { amount })
            &&& ix.accounts.len() == 3 + signer_pubkeys@.len()
            &&& ix.accounts[0] == (MetaView { pubkey: source_pubkey@, is_signer: false, is_writable: true })
            &&& ix.accounts[1] == (MetaView { pubkey: destination_pubkey@, is_signer: false, is_writable: true })
            &&& ix.accounts[2] == (MetaView { pubkey: authority_pubkey@, is_signer: signer_pubkeys@.len() == 0, is_writable: false })
            &&& forall|i: int|
                0 <= i < signer_pubkeys@.len() ==> ix.accounts[3 + i] == (MetaView {
                    pubkey: signer_pubkeys@[i]@,
                    is_signer: true,
                    is_writable: false,
                })
        }),
{
    let data = TokenInstruction::Transfer { amount }.pack();
    let mut accounts: Vec<AccountMeta> = Vec::new();
    accounts.push(AccountMeta::new(*source_pubkey, false));
    accounts.push(AccountMeta::new(*destination_pubkey, false));
    accounts.push(AccountMeta::new_readonly(*authority_pubkey, signer_pubkeys.is_empty()));
    push_signer_metas(&mut accounts, signer_pubkeys);
    Ok(Instruction { program_id: *token_program_id, accounts, data })
}

/// Builds an `Approve` instruction.
pub fn approve(
    token_program_id: &Pubkey,
    source_pubkey: &Pubkey,
    delegate_pubkey: &Pubkey,
    owner_pubkey: &Pubkey,
    signer_pubkeys: &[&Pubkey],
    amount: u64,
) -> (r: Result<Instruction, TokenError>)
    ensures
        r is Ok,
        ({
            let ix = r->Ok_0@;
            &&& ix.program_id == token_program_id@
            &&& ix.data == spec_instruction_enc(TokenInstructionView::Approve { amount })
            &&& ix.accounts.len() == 3 + signer_pubkeys@.len()
            &&& ix.accounts[0] == (MetaView { pubkey: source_pubkey@, is_signer: false, is_writable: true })
            &&& ix.accounts[1] == (MetaView { pubkey: delegate_pubkey@, is_signer: false, is_writable: false })
            &&& ix.accounts[2] == (MetaView { pubkey: owner_pubkey@, is_signer: signer_pubkeys@.len() == 0, is_writable: false })
            &&& forall|i: int|
                0 <= i < signer_pubkeys@.len() ==> ix.accounts[3 + i] == (MetaView {
                    pubkey: signer_pubkeys@[i]@,
                    is_signer: true,
                    is_writable: false,
                })
        }),
{
    let data = TokenInstruction::Approve { amount }.pack();
    let mut accounts: Vec<AccountMeta> = Vec::new();
    accounts.push(AccountMeta::new(*source_pubkey, false));
    accounts.push(AccountMeta::new_readonly(*delegate_pubkey, false));
    accounts.push(AccountMeta::new_readonly(*owner_pubkey, signer_pubkeys.is_empty()));
    push_signer_metas(&mut accounts, signer_pubkeys);
    Ok(Instruction { program_id: *token_program_id, accounts, data })
}

/// Builds a `Revoke` instruction.
pub fn revoke(
    token_program_id: &Pubkey,
    source_pubkey: &Pubkey,
    owner_pubkey: &Pubkey,
    signer_pubkeys: &[&Pubkey],
) -> (r: Result<Instruction, TokenError>)
    ensures
        r is Ok,
        ({
            let ix = r->Ok_0@;
            &&& ix.program_id == token_program_id@
            &&& ix.data == spec_instruction_enc(TokenInstructionView::Revoke)
            &&& ix.accounts.len() == 2 + signer_pubkeys@.len()
            &&& ix.accounts[0] == (MetaView { pubkey: source_pubkey@, is_signer: false, is_writable: true })
            &&& ix.accounts[1] == (MetaView { pubkey: owner_pubkey@, is_signer: signer_pubkeys@.len() == 0, is_writable: false })
            &&& forall|i: int|
                0 <= i < signer_pubkeys@.len() ==> ix.accounts[2 + i] == (MetaView {
                    pubkey: signer_pubkeys@[i]@,
                    is_signer: true,
                    is_writable: false,
                })
        }),
{
    let data = TokenInstruction::Revoke.pack();
    let mut accounts: Vec<AccountMeta> = Vec::new();
    accounts.push(AccountMeta::new(*source_pubkey, false));
    accounts.push(AccountMeta::new_readonly(*owner_pubkey, signer_pubkeys.is_empty()));
    push_signer_metas(&mut accounts, signer_pubkeys);
    Ok(Instruction { program_id: *token_program_id, accounts, data })
}

/// Builds a `SetAuthority` instruction.
pub fn set_authority(
    token_program_id: &Pubkey,
    owned_pubkey: &Pubkey,
    new_authority_pubkey: Option<&Pubkey>,
    authority_type: AuthorityType,
    owner_pubkey: &Pubkey,
    signer_pubkeys: &[&Pubkey],
) -> (r: Result<Instruction, TokenError>)
    ensures
        r is Ok,
        ({
            let ix = r->Ok_0@;
            &&& ix.program_id == token_program_id@
            &&& ix.data == spec_instruction_enc(TokenInstructionView::SetAuthority {
                authority_type,
                new_authority: opt_ref_key_view(new_authority_pubkey),
            })
            &&& ix.accounts.len() == 2 + signer_pubkeys@.len()
            &&& ix.accounts[0] == (MetaView { pubkey: owned_pubkey@, is_signer: false, is_writable: true })
            &&& ix.accounts[1] == (MetaView { pubkey: owner_pubkey@, is_signer: signer_pubkeys@.len() == 0, is_writable: false })
            &&& forall|i: int|
                0 <= i < signer_pubkeys@.len() ==> ix.accounts[2 + i] == (MetaView {
                    pubkey: signer_pubkeys@[i]@,
                    is_signer: true,
                    is_writable: false,
                })
        }),
{
    let new_authority: Option<Pubkey> = match new_authority_pubkey {
        Some(k) => Some(*k),
        None => None,
    };
    let data = TokenInstruction::SetAuthority { authority_type, new_authority }.pack();
    let mut accounts: Vec<AccountMeta> = Vec::new();
    accounts.push(AccountMeta::new(*owned_pubkey, false));
    accounts.push(AccountMeta::new_readonly(*owner_pubkey, signer_pubkeys.is_empty()));
    push_signer_metas(&mut accounts, signer_pubkeys);
    Ok(Instruction { program_id: *token_program_id, accounts, data })
}

/// Builds a `MintTo` instruction.
pub fn mint_to(
    token_program_id: &Pubkey,
    mint_pubkey: &Pubkey,
    account_pubkey: &Pubkey,
    owner_pubkey: &Pubkey,
    signer_pubkeys: &[&Pubkey],
    amount: u64,
) -> (r: Result<Instruction, TokenError>)
    ensures
        r is Ok,
        ({
            let ix = r->Ok_0@;
            &&& ix.program_id == token_program_id@
            &&& ix.data == spec_instruction_enc(TokenInstructionView::MintTo { amount })
            &&& ix.accounts.len() == 3 + signer_pubkeys@.len()
            &&& ix.accounts[0] == (MetaView { pubkey: mint_pubkey@, is_signer: false, is_writable: true })
            &&& ix.accounts[1] == (MetaView { pubkey: account_pubkey@, is_signer: false, is_writable: true })
            &&& ix.accounts[2] == (MetaView { pubkey: owner_pubkey@, is_signer: signer_pubkeys@.len() == 0, is_writable: false })
            &&& forall|i: int|
                0 <= i < signer_pubkeys@.len() ==> ix.accounts[3 + i] == (MetaView {
                    pubkey: signer_pubkeys@[i]@,
                    is_signer: true,
                    is_writable: false,
                })
        }),
{
    let data = TokenInstruction::MintTo { amount }.pack();
    let mut accounts: Vec<AccountMeta> = Vec::new();
    accounts.push(AccountMeta::new(*mint_pubkey, false));
    accounts.push(AccountMeta::new(*account_pubkey, false));
    accounts.push(AccountMeta::new_readonly(*owner_pubkey, signer_pubkeys.is_empty()));
    push_signer_metas(&mut accounts, signer_pubkeys);
    Ok(Instruction { program_id: *token_program_id, accounts, data })
}

/// Builds a `Burn` instruction.
pub fn burn(
    token_program_id: &Pubkey,
    account_pubkey: &Pubkey,
    mint_pubkey: &Pubkey,
    authority_pubkey: &Pubkey,
    signer_pubkeys: &[&Pubkey],
    amount: u64,
) -> (r: Result<Instruction, TokenError>)
    ensures
        r is Ok,
        ({
            let ix = r->Ok_0@;
            &&& ix.program_id == token_program_id@
            &&& ix.data == spec_instruction_enc(TokenInstructionView::Burn { amount })
            &&& ix.accounts.len() == 3 + signer_pubkeys@.len()
            &&& ix.accounts[0] == (MetaView { pubkey: account_pubkey@, is_signer: false, is_writable: true })
            &&& ix.accounts[1] == (MetaView { pubkey: mint_pubkey@, is_signer: false, is_writable: true })
            &&& ix.accounts[2] == (MetaView { pubkey: authority_pubkey@, is_signer: signer_pubkeys@.len() == 0, is_writable: false })
            &&& forall|i: int|
                0 <= i < signer_pubkeys@.len() ==> ix.accounts[3 + i] == (MetaView {
                    pubkey: signer_pubkeys@[i]@,
                    is_signer: true,
                    is_writable: false,
                })
        }),
{
    let data = TokenInstruction::Burn { amount }.pack();
    let mut accounts: Vec<AccountMeta> = Vec::new();
    accounts.push(AccountMeta::new(*account_pubkey, false));
    accounts.push(AccountMeta::new(*mint_pubkey, false));
    accounts.push(AccountMeta::new_readonly(*authority_pubkey, signer_pubkeys.is_empty()));
    push_signer_metas(&mut accounts, signer_pubkeys);
    Ok(Instruction { program_id: *token_program_id, accounts, data })
}

/// Builds a `CloseAccount` instruction.
pub fn close_account(
    token_program_id: &Pubkey,
    account_pubkey: &Pubkey,
    destination_pubkey: &Pubkey,
    owner_pubkey: &Pubkey,
    signer_pubkeys: &[&Pubkey],
) -> (r: Result<Instruction, TokenError>)
    ensures
        r is Ok,
        ({
            let ix = r->Ok_0@;
            &&& ix.program_id == token_program_id@
            &&& ix.data == spec_instruction_enc(TokenInstructionView::CloseAccount)
            &&& ix.accounts.len() == 3 + signer_pubkeys@.len()
            &&& ix.accounts[0] == (MetaView { pubkey: account_pubkey@, is_signer: false, is_writable: true })
            &&& ix.accounts[1] == (MetaView { pubkey: destination_pubkey@, is_signer: false, is_writable: true })
            &&& ix.accounts[2] == (MetaView { pubkey: owner_pubkey@, is_signer: signer_pubkeys@.len() == 0, is_writable: false })
            &&& forall|i: int|
                0 <= i < signer_pubkeys@.len() ==> ix.accounts[3 + i] == (MetaView {
                    pubkey: signer_pubkeys@[i]@,
                    is_signer: true,
                    is_writable: false,
                })
        }),
{
    let data = TokenInstruction::CloseAccount.pack();
    let mut accounts: Vec<AccountMeta> = Vec::new();
    accounts.push(AccountMeta::new(*account_pubkey, false));
    accounts.push(AccountMeta::new(*destination_pubkey, false));
    accounts.push(AccountMeta::new_readonly(*owner_pubkey, signer_pubkeys.is_empty()));
    push_signer_metas(&mut accounts, signer_pubkeys);
    Ok(Instruction { program_id: *token_program_id, accounts, data })
}

/// Builds a `FreezeAccount` instruction.
pub fn freeze_account(
    token_program_id: &Pubkey,
    account_pubkey: &Pubkey,
    mint_pubkey: &Pubkey,
    owner_pubkey: &Pubkey,
    signer_pubkeys: &[&Pubkey],
) -> (r: Result<Instruction, TokenError>)
    ensures
        r is Ok,
        ({
            let ix = r->Ok_0@;
            &&& ix.program_id == token_program_id@
            &&& ix.data == spec_instruction_enc(TokenInstructionView::FreezeAccount)
            &&& ix.accounts.len() == 3 + signer_pubkeys@.len()
            &&& ix.accounts[0] == (MetaView { pubkey: account_pubkey@, is_signer: false, is_writable: true })
            &&& ix.accounts[1] == (MetaView { pubkey: mint_pubkey@, is_signer: false, is_writable: false })
            &&& ix.accounts[2] == (MetaView { pubkey: owner_pubkey@, is_signer: signer_pubkeys@.len() == 0, is_writable: false })
            &&& forall|i: int|
                0 <= i < signer_pubkeys@.len() ==> ix.accounts[3 + i] == (MetaView {
                    pubkey: signer_pubkeys@[i]@,
                    is_signer: true,
                    is_writable: false,
                })
        }),
{
    let data = TokenInstruction::FreezeAccount.pack();
    let mut accounts: Vec<AccountMeta> = Vec::new();
    accounts.push(AccountMeta::new(*account_pubkey, false));
    accounts.push(AccountMeta::new_readonly(*mint_pubkey, false));
    accounts.push(AccountMeta::new_readonly(*owner_pubkey, signer_pubkeys.is_empty()));
    push_signer_metas(&mut accounts, signer_pubkeys);
    Ok(Instruction { program_id: *token_program_id, accounts, data })
}

/// Builds a `ThawAccount` instruction.
pub fn thaw_account(
    token_program_id: &Pubkey,
    account_pubkey: &Pubkey,
    mint_pubkey: &Pubkey,
    owner_pubkey: &Pubkey,
    signer_pubkeys: &[&Pubkey],
) -> (r: Result<Instruction, TokenError>)
    ensures
        r is Ok,
        ({
            let ix = r->Ok_0@;
            &&& ix.program_id == token_program_id@
            &&& ix.data == spec_instruction_enc(TokenInstructionView::ThawAccount)
            &&& ix.accounts.len() == 3 + signer_pubkeys@.len()
            &&& ix.accounts[0] == (MetaView { pubkey: account_pubkey@, is_signer: false, is_writable: true })
            &&& ix.accounts[1] == (MetaView { pubkey: mint_pubkey@, is_signer: false, is_writable: false })
            &&& ix.accounts[2] == (MetaView { pubkey: owner_pubkey@, is_signer: signer_pubkeys@.len() == 0, is_writable: false })
            &&& forall|i: int|
                0 <= i < signer_pubkeys@.len() ==> ix.accounts[3 + i] == (MetaView {
                    pubkey: signer_pubkeys@[i]@,
                    is_signer: true,
                    is_writable: false,
                })
        }),
{
    let data = TokenInstruction::ThawAccount.pack();
    let mut accounts: Vec<AccountMeta> = Vec::new();
    accounts.push(AccountMeta::new(*account_pubkey, false));
    accounts.push(AccountMeta::new_readonly(*mint_pubkey, false));
    accounts.push(AccountMeta::new_readonly(*owner_pubkey, signer_pubkeys.is_empty()));
    push_signer_metas(&mut accounts, signer_pubkeys);
    Ok(Instruction { program_id: *token_program_id, accounts, data })
}

/// Builds a `TransferChecked` instruction.
pub fn transfer_checked(
    token_program_id: &Pubkey,
    source_pubkey: &Pubkey,
    mint_pubkey: &Pubkey,
    destination_pubkey: &Pubkey,
    authority_pubkey: &Pubkey,
    signer_pubkeys: &[&Pubkey],
    amount: u64,
    decimals: u8,
) -> (r: Result<Instruction, TokenError>)
    ensures
        r is Ok,
        ({
            let ix = r->Ok_0@;
            &&& ix.program_id == token_program_id@
            &&& ix.data == spec_instruction_enc(TokenInstructionView::TransferChecked { amount, decimals })
            &&& ix.accounts.len() == 4 + signer_pubkeys@.len()
            &&& ix.accounts[0] == (MetaView { pubkey: source_pubkey@, is_signer: false, is_writable: true })
            &&& ix.accounts[1] == (MetaView { pubkey: mint_pubkey@, is_signer: false, is_writable: false })
            &&& ix.accounts[2] == (MetaView { pubkey: destination_pubkey@, is_signer: false, is_writable: true })
            &&& ix.accounts[3] == (MetaView { pubkey: authority_pubkey@, is_signer: signer_pubkeys@.len() == 0, is_writable: false })
            &&& forall|i: int|
                0 <= i < signer_pubkeys@.len() ==> ix.accounts[4 + i] == (MetaView {
                    pubkey: signer_pubkeys@[i]@,
                    is_signer: true,
                    is_writable: false,
                })
        }),
{
    let data = TokenInstruction::TransferChecked { amount, decimals }.pack();
    let mut accounts: Vec<AccountMeta> = Vec::new();
    accounts.push(AccountMeta::new(*source_pubkey, false));
    accounts.push(AccountMeta::new_readonly(*mint_pubkey, false));
    accounts.push(AccountMeta::new(*destination_pubkey, false));
    accounts.push(AccountMeta::new_readonly(*authority_pubkey, signer_pubkeys.is_empty()));
    push_signer_metas(&mut accounts, signer_pubkeys);
    Ok(Instruction { program_id: *token_program_id, accounts, data })
}

/// Builds an `ApproveChecked` instruction.
pub fn approve_checked(
    token_program_id: &Pubkey,
    source_pubkey: &Pubkey,
    mint_pubkey: &Pubkey,
    delegate_pubkey: &Pubkey,
    owner_pubkey: &Pubkey,
    signer_pubkeys: &[&Pubkey],
    amount: u64,
    decimals: u8,
) -> (r: Result<Instruction, TokenError>)
    ensures
        r is Ok,
        ({
            let ix = r->Ok_0@;
            &&& ix.program_id == token_program_id@
            &&& ix.data == spec_instruction_enc(TokenInstructionView::ApproveChecked { amount, decimals })
            &&& ix.accounts.len() == 4 + signer_pubkeys@.len()
            &&& ix.accounts[0] == (MetaView { pubkey: source_pubkey@, is_signer: false, is_writable: true })
            &&& ix.accounts[1] == (MetaView { pubkey: mint_pubkey@, is_signer: false, is_writable: false })
            &&& ix.accounts[2] == (MetaView { pubkey: delegate_pubkey@, is_signer: false, is_writable: false })
            &&& ix.accounts[3] == (MetaView { pubkey: owner_pubkey@, is_signer: signer_pubkeys@.len() == 0, is_writable: false })
            &&& forall|i: int|
                0 <= i < signer_pubkeys@.len() ==> ix.accounts[4 + i] == (MetaView {
                    pubkey: signer_pubkeys@[i]@,
                    is_signer: true,
                    is_writable: false,
                })
        }),
{
    let data = TokenInstruction::ApproveChecked { amount, decimals }.pack();
    let mut accounts: Vec<AccountMeta> = Vec::new();
    accounts.push(AccountMeta::new(*source_pubkey, false));
    accounts.push(AccountMeta::new_readonly(*mint_pubkey, false));
    accounts.push(AccountMeta::new_readonly(*delegate_pubkey, false));
    accounts.push(AccountMeta::new_readonly(*owner_pubkey, signer_pubkeys.is_empty()));
    push_signer_metas(&mut accounts, signer_pubkeys);
    Ok(Instruction { program_id: *token_program_id, accounts, data })
}

/// Builds a `MintToChecked` instruction.
pub fn mint_to_checked(
    token_program_id: &Pubkey,
    mint_pubkey: &Pubkey,
    account_pubkey: &Pubkey,
    owner_pubkey: &Pubkey,
    signer_pubkeys: &[&Pubkey],
    amount: u64,
    decimals: u8,
) -> (r: Result<Instruction, TokenError>)
    ensures
        r is Ok,
        ({
            let ix = r->Ok_0@;
            &&& ix.program_id == token_program_id@
            &&& ix.data == spec_instruction_enc(TokenInstructionView::MintToChecked { amount, decimals })
            &&& ix.accounts.len() == 3 + signer_pubkeys@.len()
            &&& ix.accounts[0] == (MetaView { pubkey: mint_pubkey@, is_signer: false, is_writable: true })
            &&& ix.accounts[1] == (MetaView { pubkey: account_pubkey@, is_signer: false, is_writable: true })
            &&& ix.accounts[2] == (MetaView { pubkey: owner_pubkey@, is_signer: signer_pubkeys@.len() == 0, is_writable: false })
            &&& forall|i: int|
                0 <= i < signer_pubkeys@.len() ==> ix.accounts[3 + i] == (MetaView {
                    pubkey: signer_pubkeys@[i]@,
                    is_signer: true,
                    is_writable: false,
                })
        }),
{
    let data = TokenInstruction::MintToChecked { amount, decimals }.pack();
    let mut accounts: Vec<AccountMeta> = Vec::new();
    accounts.push(AccountMeta::new(*mint_pubkey, false));
    accounts.push(AccountMeta::new(*account_pubkey, false));
    accounts.push(AccountMeta::new_readonly(*owner_pubkey, signer_pubkeys.is_empty()));
    push_signer_metas(&mut accounts, signer_pubkeys);
    Ok(Instruction { program_id: *token_program_id, accounts, data })
}

/// Builds a `BurnChecked` instruction.
pub fn burn_checked(
    token_program_id: &Pubkey,
    account_pubkey: &Pubkey,
    mint_pubkey: &Pubkey,
    authority_pubkey: &Pubkey,
    signer_pubkeys: &[&Pubkey],
    amount: u64,
    decimals: u8,
) -> (r: Result<Instruction, TokenError>)
    ensures
        r is Ok,
        ({
            let ix = r->Ok_0@;
            &&& ix.program_id == token_program_id@
            &&& ix.data == spec_instruction_enc(TokenInstructionView::BurnChecked { amount, decimals })
            &&& ix.accounts.len() == 3 + signer_pubkeys@.len()
            &&& ix.accounts[0] == (MetaView { pubkey: account_pubkey@, is_signer: false, is_writable: true })
            &&& ix.accounts[1] == (MetaView { pubkey: mint_pubkey@, is_signer: false, is_writable: true })
            &&& ix.accounts[2] == (MetaView { pubkey: authority_pubkey@, is_signer: signer_pubkeys@.len() == 0, is_writable: false })
            &&& forall|i: int|
                0 <= i < signer_pubkeys@.len() ==> ix.accounts[3 + i] == (MetaView {
                    pubkey: signer_pubkeys@[i]@,
                    is_signer: true,
                    is_writable: false,
                })
        }),
{
    let data = TokenInstruction::BurnChecked { amount, decimals }.pack();
    let mut accounts: Vec<AccountMeta> = Vec::new();
    accounts.push(AccountMeta::new(*account_pubkey, false));
    accounts.push(AccountMeta::new(*mint_pubkey, false));
    accounts.push(AccountMeta::new_readonly(*authority_pubkey, signer_pubkeys.is_empty()));
    push_signer_metas(&mut accounts, signer_pubkeys);
    Ok(Instruction { program_id: *token_program_id, accounts, data })
}

/// Builds an `InitializeMint` instruction.
pub fn initialize_mint(
    token_program_id: &Pubkey,
    mint_pubkey: &Pubkey,
    decimals: u8,
    mint_authority_pubkey: &Pubkey,
    freeze_authority_pubkey: Option<&Pubkey>,
    cmint_id_asset: Option<&Pubkey>,
    cpubkey_swap: Option<&Pubkey>,
) -> (r: Result<Instruction, TokenError>)
    ensures
        r is Ok,
        ({
            let ix = r->Ok_0@;
            &&& ix.program_id == token_program_id@
            &&& ix.data == spec_instruction_enc(TokenInstructionView::InitializeMint {
                decimals,
                mint_authority: mint_authority_pubkey@,
                freeze_authority: opt_ref_key_view(freeze_authority_pubkey),
                mint_id_asset: opt_ref_key_view(cmint_id_asset),
                pubkey_swap: opt_ref_key_view(cpubkey_swap),
            })
            &&& ix.accounts.len() == 2
            &&& ix.accounts[0] == (MetaView { pubkey: mint_pubkey@, is_signer: false, is_writable: true })
            &&& ix.accounts[1] == (MetaView { pubkey: RENT_SYSVAR@, is_signer: false, is_writable: false })
        }),
{
    let freeze_authority: Option<Pubkey> = match freeze_authority_pubkey {
        Some(k) => Some(*k),
        None => None,
    };
    let mint_id_asset: Option<Pubkey> = match cmint_id_asset {
        Some(k) => Some(*k),
        None => None,
    };
    let pubkey_swap: Option<Pubkey> = match cpubkey_swap {
        Some(k) => Some(*k),
        None => None,
    };
    let data = TokenInstruction::InitializeMint {
        decimals,
        mint_authority: *mint_authority_pubkey,
        freeze_authority,
        mint_id_asset,
        pubkey_swap,
    }.pack();
    let mut accounts: Vec<AccountMeta> = Vec::new();
    accounts.push(AccountMeta::new(*mint_pubkey, false));
    accounts.push(AccountMeta::new_readonly(RENT_SYSVAR, false));
    Ok(Instruction { program_id: *token_program_id, accounts, data })
}

/// Builds an `InitializeAccount` instruction.
pub fn initialize_account(
    token_program_id: &Pubkey,
    account_pubkey: &Pubkey,
    mint_pubkey: &Pubkey,
    owner_pubkey: &Pubkey,
) -> (r: Result<Instruction, TokenError>)
    ensures
        r is Ok,
        ({
            let ix = r->Ok_0@;
            &&& ix.program_id == token_program_id@
            &&& ix.data == spec_instruction_enc(TokenInstructionView::InitializeAccount)
            &&& ix.accounts.len() == 4
            &&& ix.accounts[0] == (MetaView { pubkey: account_pubkey@, is_signer: false, is_writable: true })
            &&& ix.accounts[1] == (MetaView { pubkey: mint_pubkey@, is_signer: false, is_writable: false })
            &&& ix.accounts[2] == (MetaView { pubkey: owner_pubkey@, is_signer: false, is_writable: false })
            &&& ix.accounts[3] == (MetaView { pubkey: RENT_SYSVAR@, is_signer: false, is_writable: false })
        }),
{
    let data = TokenInstruction::InitializeAccount.pack();
    let mut accounts: Vec<AccountMeta> = Vec::new();
    accounts.push(AccountMeta::new(*account_pubkey, false));
    accounts.push(AccountMeta::new_readonly(*mint_pubkey, false));
    accounts.push(AccountMeta::new_readonly(*owner_pubkey, false));
    accounts.push(AccountMeta::new_readonly(RENT_SYSVAR, false));
    Ok(Instruction { program_id: *token_program_id, accounts, data })
}

/// Builds an `InitializeAccount2` instruction.
pub fn initialize_account2(
    token_program_id: &Pubkey,
    account_pubkey: &Pubkey,
    mint_pubkey: &Pubkey,
    owner_pubkey: &Pubkey,
) -> (r: Result<Instruction, TokenError>)
    ensures
        r is Ok,
        ({
            let ix = r->Ok_0@;
            &&& ix.program_id == token_program_id@
            &&& ix.data == spec_instruction_enc(TokenInstructionView::InitializeAccount2 { owner: owner_pubkey@ })
            &&& ix.accounts.len() == 3
            &&& ix.accounts[0] == (MetaView { pubkey: account_pubkey@, is_signer: false, is_writable: true })
            &&& ix.accounts[1] == (MetaView { pubkey: mint_pubkey@, is_signer: false, is_writable: false })
            &&& ix.accounts[2] == (MetaView { pubkey: RENT_SYSVAR@, is_signer: false, is_writable: false })
        }),
{
    let data = TokenInstruction::InitializeAccount2 { owner: *owner_pubkey }.pack();
    let mut accounts: Vec<AccountMeta> = Vec::new();
    accounts.push(AccountMeta::new(*account_pubkey, false));
    accounts.push(AccountMeta::new_readonly(*mint_pubkey, false));
    accounts.push(AccountMeta::new_readonly(RENT_SYSVAR, false));
    Ok(Instruction { program_id: *token_program_id, accounts, data })
}

/// Builds an `InitializeMultisig` instruction; the required count, the
/// number of signer keys, and their relation must all lie within the
/// one-to-eleven bounds.
pub fn initialize_multisig(
    token_program_id: &Pubkey,
    multisig_pubkey: &Pubkey,
    signer_pubkeys: &[&Pubkey],
    m: u8,
) -> (r: Result<Instruction, TokenError>)
    ensures
        r is Ok <==> (MIN_SIGNERS <= m as int <= MAX_SIGNERS && MIN_SIGNERS
            <= signer_pubkeys@.len() <= MAX_SIGNERS && m as int <= signer_pubkeys@.len()),
        r is Err ==> r->Err_0 == TokenError::MissingRequiredSignature,
        r is Ok ==> ({
            let ix = r->Ok_0@;
            &&& ix.program_id == token_program_id@
            &&& ix.data == spec_instruction_enc(TokenInstructionView::InitializeMultisig { m })
            &&& ix.accounts.len() == 2 + signer_pubkeys@.len()
            &&& ix.accounts[0] == (MetaView {
                pubkey: multisig_pubkey@,
                is_signer: false,
                is_writable: true,
            })
            &&& ix.accounts[1] == (MetaView {
                pubkey: RENT_SYSVAR@,
                is_signer: false,
                is_writable: false,
            })
            &&& forall|i: int|
                0 <= i < signer_pubkeys@.len() ==> ix.accounts[2 + i] == (MetaView {
                    pubkey: signer_pubkeys@[i]@,
                    is_signer: false,
                    is_writable: false,
                })
        }),
{
    if !is_valid_signer_index(m as usize) || !is_valid_signer_index(signer_pubkeys.len()) || m
        as usize > signer_pubkeys.len() {
        return Err(TokenError::MissingRequiredSignature);
    }
    let data = TokenInstruction::InitializeMultisig { m }.pack();
    let mut accounts: Vec<AccountMeta> = Vec::new();
    accounts.push(AccountMeta::new(*multisig_pubkey, false));
    accounts.push(AccountMeta::new_readonly(RENT_SYSVAR, false));
    let n = signer_pubkeys.len();
    let mut i: usize = 0;
    while i < n
        invariant
            0 <= i <= n,
            n == signer_pubkeys@.len(),
            accounts@.len() == 2 + i,
            accounts@[0]@ == (MetaView {
                pubkey: multisig_pubkey@,
                is_signer: false,
                is_writable: true,
            }),
            accounts@[1]@ == (MetaView {
                pubkey: RENT_SYSVAR@,
                is_signer: false,
                is_writable: false,
            }),
            forall|j: int|
                0 <= j < i ==> (#[trigger] accounts@[2 + j])@ == (MetaView {
                    pubkey: signer_pubkeys@[j]@,
                    is_signer: false,
                    is_writable: false,
                }),
        decreases n - i,
    {
        let k = *vstd::slice::slice_index_get(signer_pubkeys, i);
        accounts.push(AccountMeta::new_readonly(*k, false));
        i = i + 1;
    }
    Ok(Instruction { program_id: *token_program_id, accounts, data })
}

/// Builds a `Deposit` instruction naming the thirteen handles the swap
/// chassis routes through.
pub fn deposit(
    program_id: &Pubkey,
    swap_info: &Pubkey,
    owner_key: &Pubkey,
    account_key: &Pubkey,
    source_info: &Pubkey,
    swap_source_info: &Pubkey,
    swap_destination_info: &Pubkey,
    destination_info: &Pubkey,
    pool_mint_info: &Pubkey,
    pool_fee_account_info: &Pubkey,
    token_program_info: &Pubkey,
    host_fee_account: &Pubkey,
    prog_address: &Pubkey,
    pubkey_swap: &Pubkey,
    amount: u64,
    volatility: u64,
    nonce: u8,
) -> (r: Result<Instruction, TokenError>)
    ensures
        r is Ok,
        ({
            let ix = r->Ok_0@;
            &&& ix.program_id == program_id@
            &&& ix.data == spec_instruction_enc(
                TokenInstructionView::Deposit { amount, volatility, nonce },
            )
            &&& ix.accounts.len() == 13
            &&& ix.accounts[0] == (MetaView {
                pubkey: swap_info@,
                is_signer: false,
                is_writable: true,
            })
            &&& ix.accounts[1] == (MetaView {
                pubkey: owner_key@,
                is_signer: true,
                is_writable: true,
            })
            &&& ix.accounts[2] == (MetaView {
                pubkey: account_key@,
                is_signer: false,
                is_writable: true,
            })
            &&& ix.accounts[3] == (MetaView {
                pubkey: source_info@,
                is_signer: false,
                is_writable: true,
            })
            &&& ix.accounts[4] == (MetaView {
                pubkey: swap_source_info@,
                is_signer: false,
                is_writable: true,
            })
            &&& ix.accounts[5] == (MetaView {
                pubkey: swap_destination_info@,
                is_signer: false,
                is_writable: true,
            })
            &&& ix.accounts[6] == (MetaView {
                pubkey: destination_info@,
                is_signer: false,
                is_writable: true,
            })
            &&& ix.accounts[7] == (MetaView {
                pubkey: pool_mint_info@,
                is_signer: false,
                is_writable: true,
            })
            &&& ix.accounts[8] == (MetaView {
                pubkey: pool_fee_account_info@,
                is_signer: false,
                is_writable: true,
            })
            &&& ix.accounts[9] == (MetaView {
                pubkey: token_program_info@,
                is_signer: false,
                is_writable: true,
            })
            &&& ix.accounts[10] == (MetaView {
                pubkey: host_fee_account@,
                is_signer: false,
                is_writable: true,
            })
            &&& ix.accounts[11] == (MetaView {
                pubkey: prog_address@,
                is_signer: false,
                is_writable: true,
            })
            &&& ix.accounts[12] == (MetaView {
                pubkey: pubkey_swap@,
                is_signer: false,
                is_writable: true,
            })
        }),
{
    let data = TokenInstruction::Deposit { amount, volatility, nonce }.pack();
    let mut accounts: Vec<AccountMeta> = Vec::new();
    accounts.push(AccountMeta::new(*swap_info, false));
    accounts.push(AccountMeta::new(*owner_key, true));
    accounts.push(AccountMeta::new(*account_key, false));
    accounts.push(AccountMeta::new(*source_info, false));
    accounts.push(AccountMeta::new(*swap_source_info, false));
    accounts.push(AccountMeta::new(*swap_destination_info, false));
    accounts.push(AccountMeta::new(*destination_info, false));
    accounts.push(AccountMeta::new(*pool_mint_info, false));
    accounts.push(AccountMeta::new(*pool_fee_account_info, false));
    accounts.push(AccountMeta::new(*token_program_info, false));
    accounts.push(AccountMeta::new(*host_fee_account, false));
    accounts.push(AccountMeta::new(*prog_address, false));
    accounts.push(AccountMeta::new(*pubkey_swap, false));
    Ok(Instruction { program_id: *program_id, accounts, data })
}

/// Builds a `Withdraw` instruction.
pub fn withdraw(program_id: &Pubkey, account: &Pubkey, owner: &Pubkey, amount: u64) -> (r: Result<
    Instruction,
    TokenError,
>)
    ensures
        r is Ok,
        ({
            let ix = r->Ok_0@;
            &&& ix.program_id == program_id@
            &&& ix.data == spec_instruction_enc(TokenInstructionView::Withdraw { amount })
            &&& ix.accounts.len() == 2
            &&& ix.accounts[0] == (MetaView {
                pubkey: account@,
                is_signer: false,
                is_writable: true,
            })
            &&& ix.accounts[1] == (MetaView {
                pubkey: owner@,
                is_signer: true,
                is_writable: true,
            })
        }),
{
    let data = TokenInstruction::Withdraw { amount }.pack();
    let mut accounts: Vec<AccountMeta> = Vec::new();
    accounts.push(AccountMeta::new(*account, false));
    accounts.push(AccountMeta::new(*owner, true));
    Ok(Instruction { program_id: *program_id, accounts, data })
}

/// Builds an `InitializePortfolio` instruction.
#[allow(non_snake_case)]
pub fn initialize_portfolio(
    program_id: &Pubkey,
    creatorAccount: &Pubkey,
    owner: &Pubkey,
    metaDataUrl: &Vec<u8>,
    metaDataHash: &u16,
    amountAsset1: &u8,
    addressAsset1: &Pubkey,
    periodAsset1: &u8,
    assetToSoldIntoAsset1: &Pubkey,
    amountAsset2: &u8,
    addressAsset2: &Pubkey,
    periodAsset2: &u8,
    assetToSoldIntoAsset2: &Pubkey,
    amountAsset3: &u8,
    addressAsset3: &Pubkey,
    periodAsset3: &u8,
    assetToSoldIntoAsset3: &Pubkey,
    amountAsset4: &u8,
    addressAsset4: &Pubkey,
    periodAsset4: &u8,
    assetToSoldIntoAsset4: &Pubkey,
    amountAsset5: &u8,
    addressAsset5: &Pubkey,
    periodAsset5: &u8,
    assetToSoldIntoAsset5: &Pubkey,
    amountAsset6: &u8,
    addressAsset6: &Pubkey,
    periodAsset6: &u8,
    assetToSoldIntoAsset6: &Pubkey,
    amountAsset7: &u8,
    addressAsset7: &Pubkey,
    periodAsset7: &u8,
    assetToSoldIntoAsset7: &Pubkey,
    amountAsset8: &u8,
    addressAsset8: &Pubkey,
    periodAsset8: &u8,
    assetToSoldIntoAsset8: &Pubkey,
    amountAsset9: &u8,
    addressAsset9: &Pubkey,
    periodAsset9: &u8,
    assetToSoldIntoAsset9: &Pubkey,
) -> (r: Result<Instruction, TokenError>)
    ensures
        r is Ok,
        ({
            let ix = r->Ok_0@;
            &&& ix.program_id == program_id@
            &&& ix.data == spec_instruction_enc(
                TokenInstructionView::InitializePortfolio {
                    metaDataUrl: metaDataUrl@,
                    metaDataHash: *metaDataHash,
                amountAsset1: *amountAsset1,
                periodAsset1: *periodAsset1,
                amountAsset2: *amountAsset2,
                periodAsset2: *periodAsset2,
                amountAsset3: *amountAsset3,
                periodAsset3: *periodAsset3,
                amountAsset4: *amountAsset4,
                periodAsset4: *periodAsset4,
                amountAsset5: *amountAsset5,
                periodAsset5: *periodAsset5,
                amountAsset6: *amountAsset6,
                periodAsset6: *periodAsset6,
                amountAsset7: *amountAsset7,
                periodAsset7: *periodAsset7,
                amountAsset8: *amountAsset8,
                periodAsset8: *periodAsset8,
                amountAsset9: *amountAsset9,
                periodAsset9: *periodAsset9,
                },
            )
            &&& ix.accounts.len() == 20
            &&& ix.accounts[0] == (MetaView {
                pubkey: creatorAccount@,
                is_signer: true,
                is_writable: true,
            })
            &&& ix.accounts[1] == (MetaView {
                pubkey: addressAsset1@,
                is_signer: false,
                is_writable: true,
            })
            &&& ix.accounts[2] == (MetaView {
                pubkey: assetToSoldIntoAsset1@,
                is_signer: false,
                is_writable: true,
            })
            &&& ix.accounts[3] == (MetaView {
                pubkey: addressAsset2@,
                is_signer: false,
                is_writable: true,
            })
            &&& ix.accounts[4] == (MetaView {
                pubkey: assetToSoldIntoAsset2@,
                is_signer: false,
                is_writable: true,
            })
            &&& ix.accounts[5] == (MetaView {
                pubkey: addressAsset3@,
                is_signer: false,
                is_writable: true,
            })
            &&& ix.accounts[6] == (MetaView {
                pubkey: assetToSoldIntoAsset3@,
                is_signer: false,
                is_writable: true,
            })
            &&& ix.accounts[7] == (MetaView {
                pubkey: addressAsset4@,
                is_signer: false,
                is_writable: true,
            })
            &&& ix.accounts[8] == (MetaView {
                pubkey: assetToSoldIntoAsset4@,
                is_signer: false,
                is_writable: true,
            })
            &&& ix.accounts[9] == (MetaView {
                pubkey: addressAsset5@,
                is_signer: false,
                is_writable: true,
            })
            &&& ix.accounts[10] == (MetaView {
                pubkey: assetToSoldIntoAsset5@,
                is_signer: false,
                is_writable: true,
            })
            &&& ix.accounts[11] == (MetaView {
                pubkey: addressAsset6@,
                is_signer: false,
                is_writable: true,
            })
            &&& ix.accounts[12] == (MetaView {
                pubkey: assetToSoldIntoAsset6@,
                is_signer: false,
                is_writable: true,
            })
            &&& ix.accounts[13] == (MetaView {
                pubkey: addressAsset7@,
                is_signer: false,
                is_writable: true,
            })
            &&& ix.accounts[14] == (MetaView {
                pubkey: assetToSoldIntoAsset7@,
                is_signer: false,
                is_writable: true,
            })
            &&& ix.accounts[15] == (MetaView {
                pubkey: addressAsset8@,
                is_signer: false,
                is_writable: true,
            })
            &&& ix.accounts[16] == (MetaView {
                pubkey: assetToSoldIntoAsset8@,
                is_signer: false,
                is_writable: true,
            })
            &&& ix.accounts[17] == (MetaView {
                pubkey: addressAsset9@,
                is_signer: false,
                is_writable: true,
            })
            &&& ix.accounts[18] == (MetaView {
                pubkey: assetToSoldIntoAsset9@,
                is_signer: false,
                is_writable: true,
            })
            &&& ix.accounts[19] == (MetaView {
                pubkey: owner@,
                is_signer: true,
                is_writable: true,
            })
        }),
{
    let url = crate::bytesutil::read_bytes_at(metaDataUrl, 0, metaDataUrl.len());
    assert(url@ =~= metaDataUrl@);
    let data = TokenInstruction::InitializePortfolio {
        metaDataUrl: url,
        metaDataHash: *metaDataHash,
        amountAsset1: *amountAsset1,
        periodAsset1: *periodAsset1,
        amountAsset2: *amountAsset2,
        periodAsset2: *periodAsset2,
        amountAsset3: *amountAsset3,
        periodAsset3: *periodAsset3,
        amountAsset4: *amountAsset4,
        periodAsset4: *periodAsset4,
        amountAsset5: *amountAsset5,
        periodAsset5: *periodAsset5,
        amountAsset6: *amountAsset6,
        periodAsset6: *periodAsset6,
        amountAsset7: *amountAsset7,
        periodAsset7: *periodAsset7,
        amountAsset8: *amountAsset8,
        periodAsset8: *periodAsset8,
        amountAsset9: *amountAsset9,
        periodAsset9: *periodAsset9,
    }.pack();
    let mut accounts: Vec<AccountMeta> = Vec::new();
    accounts.push(AccountMeta::new(*creatorAccount, true));
    accounts.push(AccountMeta::new(*addressAsset1, false));
    accounts.push(AccountMeta::new(*assetToSoldIntoAsset1, false));
    accounts.push(AccountMeta::new(*addressAsset2, false));
    accounts.push(AccountMeta::new(*assetToSoldIntoAsset2, false));
    accounts.push(AccountMeta::new(*addressAsset3, false));
    accounts.push(AccountMeta::new(*assetToSoldIntoAsset3, false));
    accounts.push(AccountMeta::new(*addressAsset4, false));
    accounts.push(AccountMeta::new(*assetToSoldIntoAsset4, false));
    accounts.push(AccountMeta::new(*addressAsset5, false));
    accounts.push(AccountMeta::new(*assetToSoldIntoAsset5, false));
    accounts.push(AccountMeta::new(*addressAsset6, false));
    accounts.push(AccountMeta::new(*assetToSoldIntoAsset6, false));
    accounts.push(AccountMeta::new(*addressAsset7, false));
    accounts.push(AccountMeta::new(*assetToSoldIntoAsset7, false));
    accounts.push(AccountMeta::new(*addressAsset8, false));
    accounts.push(AccountMeta::new(*assetToSoldIntoAsset8, false));
    accounts.push(AccountMeta::new(*addressAsset9, false));
    accounts.push(AccountMeta::new(*assetToSoldIntoAsset9, false));
    accounts.push(AccountMeta::new(*owner, true));
    Ok(Instruction { program_id: *program_id, accounts, data })
}

/// Builds a `createInitUserPortfolio` instruction.
#[allow(non_snake_case)]
pub fn create_Init_User_Portfolio(
    program_id: &Pubkey,
    userPortfolioAccount: &Pubkey,
    portfolioAddress: &Pubkey,
    owner: &Pubkey,
    delegate: &Pubkey,
    addressAsset1: &Pubkey,
    addressAsset2: &Pubkey,
    addressAsset3: &Pubkey,
    addressAsset4: &Pubkey,
    addressAsset5: &Pubkey,
    addressAsset6: &Pubkey,
    addressAsset7: &Pubkey,
    addressAsset8: &Pubkey,
    addressAsset9: &Pubkey,
    delegated_amount: &u64,
    valueAsset1: &u64,
    valueAsset2: &u64,
    valueAsset3: &u64,
    valueAsset4: &u64,
    valueAsset5: &u64,
    valueAsset6: &u64,
    valueAsset7: &u64,
    valueAsset8: &u64,
    valueAsset9: &u64,
) -> (r: Result<Instruction, TokenError>)
    ensures
        r is Ok,
        ({
            let ix = r->Ok_0@;
            &&& ix.program_id == program_id@
            &&& ix.data == spec_instruction_enc(
                TokenInstructionView::createInitUserPortfolio {
                    delegated_amount: *delegated_amount,
                valueAsset1: *valueAsset1,
                valueAsset2: *valueAsset2,
                valueAsset3: *valueAsset3,
                valueAsset4: *valueAsset4,
                valueAsset5: *valueAsset5,
                valueAsset6: *valueAsset6,
                valueAsset7: *valueAsset7,
                valueAsset8: *valueAsset8,
                valueAsset9: *valueAsset9,
                },
            )
            &&& ix.accounts.len() == 13
            &&& ix.accounts[0] == (MetaView {
                pubkey: userPortfolioAccount@,
                is_signer: false,
                is_writable: true,
            })
            &&& ix.accounts[1] == (MetaView {
                pubkey: portfolioAddress@,
                is_signer: false,
                is_writable: true,
            })
            &&& ix.accounts[2] == (MetaView {
                pubkey: owner@,
                is_signer: true,
                is_writable: true,
            })
            &&& ix.accounts[3] == (MetaView {
                pubkey: delegate@,
                is_signer: false,
                is_writable: true,
            })
            &&& ix.accounts[4] == (MetaView {
                pubkey: addressAsset1@,
                is_signer: false,
                is_writable: true,
            })
            &&& ix.accounts[5] == (MetaView {
                pubkey: addressAsset2@,
                is_signer: false,
                is_writable: true,
            })
            &&& ix.accounts[6] == (MetaView {
                pubkey: addressAsset3@,
                is_signer: false,
                is_writable: true,
            })
            &&& ix.accounts[7] == (MetaView {
                pubkey: addressAsset4@,
                is_signer: false,
                is_writable: true,
            })
            &&& ix.accounts[8] == (MetaView {
                pubkey: addressAsset5@,
                is_signer: false,
                is_writable: true,
            })
            &&& ix.accounts[9] == (MetaView {
                pubkey: addressAsset6@,
                is_signer: false,
                is_writable: true,
            })
            &&& ix.accounts[10] == (MetaView {
                pubkey: addressAsset7@,
                is_signer: false,
                is_writable: true,
            })
            &&& ix.accounts[11] == (MetaView {
                pubkey: addressAsset8@,
                is_signer: false,
                is_writable: true,
            })
            &&& ix.accounts[12] == (MetaView {
                pubkey: addressAsset9@,
                is_signer: false,
                is_writable: true,
            })
        }),
{
    let data = TokenInstruction::createInitUserPortfolio {
        delegated_amount: *delegated_amount,
        valueAsset1: *valueAsset1,
        valueAsset2: *valueAsset2,
        valueAsset3: *valueAsset3,
        valueAsset4: *valueAsset4,
        valueAsset5: *valueAsset5,
        valueAsset6: *valueAsset6,
        valueAsset7: *valueAsset7,
        valueAsset8: *valueAsset8,
        valueAsset9: *valueAsset9,
    }.pack();
    let mut accounts: Vec<AccountMeta> = Vec::new();
    accounts.push(AccountMeta::new(*userPortfolioAccount, false));
    accounts.push(AccountMeta::new(*portfolioAddress, false));
    accounts.push(AccountMeta::new(*owner, true));
    accounts.push(AccountMeta::new(*delegate, false));
    accounts.push(AccountMeta::new(*addressAsset1, false));
    accounts.push(AccountMeta::new(*addressAsset2, false));
    accounts.push(AccountMeta::new(*addressAsset3, false));
    accounts.push(AccountMeta::new(*addressAsset4, false));
    accounts.push(AccountMeta::new(*addressAsset5, false));
    accounts.push(AccountMeta::new(*addressAsset6, false));
    accounts.push(AccountMeta::new(*addressAsset7, false));
    accounts.push(AccountMeta::new(*addressAsset8, false));
    accounts.push(AccountMeta::new(*addressAsset9, false));
    Ok(Instruction { program_id: *program_id, accounts, data })
}

} // verus!
