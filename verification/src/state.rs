//! The five fixed-layout ledger records and their byte codecs.
//!
//! Every record lives in a caller-owned buffer of its exact packed length.
//! Encoding overwrites the buffer field by field at fixed offsets; decoding
//! validates only optional-field tags and the lifecycle byte. The payload of
//! an absent optional field keeps whatever bytes the buffer already held, so
//! encoding is a function of the record and of the previous buffer contents.

use vstd::prelude::*;
use vstd::bytes::{spec_u16_from_le_bytes, spec_u16_to_le_bytes, spec_u64_from_le_bytes,
    spec_u64_to_le_bytes};
use crate::bytesutil::{opt_key_view, read_bytes_at, read_copt_key, read_copt_u64, read_key_at,
    read_u16_le, read_u64_le, read_u8_at, spec_copt_key_dec, spec_copt_key_enc, spec_copt_u64_dec,
    spec_copt_u64_enc, write_bytes_at, write_copt_key, write_copt_u64, write_key_at, write_u16_le,
    write_u64_le, write_u8_at, lemma_copt_key_round_trip, lemma_copt_u64_round_trip,
    lemma_u16_le_round_trip, lemma_u64_le_round_trip};
use crate::error::TokenError;
use crate::key::Pubkey;
use crate::instruction::MAX_SIGNERS;

verus! {

broadcast use crate::bytesutil::group_codec_lens;

/// Packed length of an asset-class (mint) record.
pub const MINT_LEN: usize = 154;

/// Whether an optional key, seen as bytes, is well formed (32 bytes when present).
pub open spec fn opt_key_wf(o: Option<Seq<u8>>) -> bool {
    match o {
        Some(k) => k.len() == 32,
        None => true,
    }
}

/// Mathematical view of an asset-class record.
#[verifier::ext_equal]
pub struct MintView {
    /// Authority allowed to mint new tokens; absent means the supply is fixed.
    pub mint_authority: Option<Seq<u8>>,
    /// Total supply of tokens.
    pub supply: u64,
    /// Number of base-10 digits to the right of the decimal place.
    pub decimals: u8,
    /// Whether the record has been initialized.
    pub is_initialized: bool,
    /// Authority allowed to freeze balance accounts of this asset class.
    pub freeze_authority: Option<Seq<u8>>,
    /// Reference to the asset hedged by this asset class.
    pub mint_id_asset: Option<Seq<u8>>,
    /// Reference to the swap program tied to this asset class.
    pub pubkey_swap: Option<Seq<u8>>,
}

impl MintView {
    /// Every present key is exactly 32 bytes.
    pub open spec fn wf(self) -> bool {
        opt_key_wf(self.mint_authority) && opt_key_wf(self.freeze_authority) && opt_key_wf(
            self.mint_id_asset,
        ) && opt_key_wf(self.pubkey_swap)
    }
}

/// Asset-class ("mint") record.
#[derive(Clone, Copy, Debug, PartialEq)]
pub struct Mint {
    /// Authority allowed to mint new tokens; absent means the supply is fixed.
    pub mint_authority: Option<Pubkey>,
    /// Total supply of tokens.
    pub supply: u64,
    /// Number of base-10 digits to the right of the decimal place.
    pub decimals: u8,
    /// Whether the record has been initialized.
    pub is_initialized: bool,
    /// Authority allowed to freeze balance accounts of this asset class.
    pub freeze_authority: Option<Pubkey>,
    /// Reference to the asset hedged by this asset class.
    pub mint_id_asset: Option<Pubkey>,
    /// Reference to the swap program tied to this asset class.
    pub pubkey_swap: Option<Pubkey>,
}

impl View for Mint {
    type V = MintView;

    open spec fn view(&self) -> MintView {
        MintView {
            mint_authority: opt_key_view(self.mint_authority),
            supply: self.supply,
            decimals: self.decimals,
            is_initialized: self.is_initialized,
            freeze_authority: opt_key_view(self.freeze_authority),
            mint_id_asset: opt_key_view(self.mint_id_asset),
            pubkey_swap: opt_key_view(self.pubkey_swap),
        }
    }
}

/// Byte encoding of a mint record over the previous buffer contents `prev`.
#[verifier::opaque]
pub open spec fn spec_mint_enc(v: MintView, prev: Seq<u8>) -> Seq<u8> {
    spec_copt_key_enc(v.mint_authority, prev.subrange(0, 36)) + spec_u64_to_le_bytes(v.supply)
        + seq![v.decimals] + seq![if v.is_initialized { 1u8 } else { 0u8 }] + spec_copt_key_enc(
        v.freeze_authority,
        prev.subrange(46, 82),
    ) + spec_copt_key_enc(v.mint_id_asset, prev.subrange(82, 118)) + spec_copt_key_enc(
        v.pubkey_swap,
        prev.subrange(118, 154),
    )
}

/// Byte decoding of a mint record; `None` means an invalid tag or lifecycle byte.
#[verifier::opaque]
pub open spec fn spec_mint_dec(s: Seq<u8>) -> Option<MintView>
    recommends
        s.len() == MINT_LEN,
{
    match spec_copt_key_dec(s.subrange(0, 36)) {
        None => None,
        Some(mint_authority) => if s[45] == 0u8 || s[45] == 1u8 {
            match spec_copt_key_dec(s.subrange(46, 82)) {
                None => None,
                Some(freeze_authority) => match spec_copt_key_dec(s.subrange(82, 118)) {
                    None => None,
                    Some(mint_id_asset) => match spec_copt_key_dec(s.subrange(118, 154)) {
                        None => None,
                        Some(pubkey_swap) => Some(
                            MintView {
                                mint_authority,
                                supply: spec_u64_from_le_bytes(s.subrange(36, 44)),
                                decimals: s[44],
                                is_initialized: s[45] == 1u8,
                                freeze_authority,
                                mint_id_asset,
                                pubkey_swap,
                            },
                        ),
                    },
                },
            }
        } else {
            None
        },
    }
}

/// What unpacking an uninitialized-tolerant mint buffer yields.
pub open spec fn spec_mint_unpack_unchecked(s: Seq<u8>) -> Result<MintView, TokenError> {
    if s.len() != MINT_LEN {
        Err(TokenError::InvalidAccountData)
    } else {
        match spec_mint_dec(s) {
            None => Err(TokenError::InvalidAccountData),
            Some(v) => Ok(v),
        }
    }
}

/// What unpacking a mint buffer yields: the decoded record, which must be
/// initialized.
pub open spec fn spec_mint_unpack(s: Seq<u8>) -> Result<MintView, TokenError> {
    match spec_mint_unpack_unchecked(s) {
        Err(e) => Err(e),
        Ok(v) => if v.is_initialized {
            Ok(v)
        } else {
            Err(TokenError::UninitializedState)
        },
    }
}

/// Decoding an encoded mint record yields the record back, whatever bytes the
/// buffer held before.
pub proof fn lemma_mint_round_trip(v: MintView, prev: Seq<u8>)
    requires
        v.wf(),
        prev.len() == MINT_LEN,
    ensures
        spec_mint_enc(v, prev).len() == MINT_LEN,
        spec_mint_dec(spec_mint_enc(v, prev)) == Some(v),
{
    reveal(spec_mint_enc);
    reveal(spec_mint_dec);
    let e = spec_mint_enc(v, prev);
    lemma_copt_key_round_trip(v.mint_authority, prev.subrange(0, 36));
    lemma_copt_key_round_trip(v.freeze_authority, prev.subrange(46, 82));
    lemma_copt_key_round_trip(v.mint_id_asset, prev.subrange(82, 118));
    lemma_copt_key_round_trip(v.pubkey_swap, prev.subrange(118, 154));
    lemma_u64_le_round_trip(v.supply);
    assert(e.subrange(0, 36) =~= spec_copt_key_enc(v.mint_authority, prev.subrange(0, 36)));
    assert(e.subrange(36, 44) =~= spec_u64_to_le_bytes(v.supply));
    assert(e.subrange(46, 82) =~= spec_copt_key_enc(v.freeze_authority, prev.subrange(46, 82)));
    assert(e.subrange(82, 118) =~= spec_copt_key_enc(v.mint_id_asset, prev.subrange(82, 118)));
    assert(e.subrange(118, 154) =~= spec_copt_key_enc(v.pubkey_swap, prev.subrange(118, 154)));
    assert(e[44] == v.decimals);
    assert(e[45] == if v.is_initialized { 1u8 } else { 0u8 });
    assert(spec_mint_dec(e) == Some(v));
}

impl Mint {
    /// The packed length of a mint record.
    pub fn get_packed_len() -> (n: usize)
        ensures
            n == MINT_LEN,
    {
        MINT_LEN
    }

    /// Whether the record has been initialized.
    pub fn is_initialized(&self) -> (r: bool)
        ensures
            r == self@.is_initialized,
    {
        self.is_initialized
    }

    /// Decodes a mint record from its exactly sized buffer.
    pub fn unpack_from_slice(src: &Vec<u8>) -> (r: Result<Mint, TokenError>)
        requires
            src.len() == MINT_LEN,
        ensures
            match r {
                Ok(m) => spec_mint_dec(src@) == Some(m@),
                Err(e) => spec_mint_dec(src@) is None && e == TokenError::InvalidAccountData,
            },
    {
        proof {
            reveal(spec_mint_dec);
        }
        let mint_authority = read_copt_key(src, 0)?;
        let supply = read_u64_le(src, 36);
        let decimals = read_u8_at(src, 44);
        let init_byte = read_u8_at(src, 45);
        if init_byte != 0 && init_byte != 1 {
            return Err(TokenError::InvalidAccountData);
        }
        let freeze_authority = read_copt_key(src, 46)?;
        let mint_id_asset = read_copt_key(src, 82)?;
        let pubkey_swap = read_copt_key(src, 118)?;
        Ok(
            Mint {
                mint_authority,
                supply,
                decimals,
                is_initialized: init_byte == 1,
                freeze_authority,
                mint_id_asset,
                pubkey_swap,
            },
        )
    }

    /// Decodes a mint record, checking the buffer length but not the
    /// initialized flag.
    pub fn unpack_unchecked(src: &Vec<u8>) -> (r: Result<Mint, TokenError>)
        ensures
            match r {
                Ok(m) => spec_mint_unpack_unchecked(src@) == Ok::<MintView, TokenError>(m@),
                Err(e) => spec_mint_unpack_unchecked(src@) == Err::<MintView, TokenError>(e),
            },
    {
        if src.len() != MINT_LEN {
            return Err(TokenError::InvalidAccountData);
        }
        Self::unpack_from_slice(src)
    }

    /// Decodes an initialized mint record.
    pub fn unpack(src: &Vec<u8>) -> (r: Result<Mint, TokenError>)
        ensures
            match r {
                Ok(m) => spec_mint_unpack(src@) == Ok::<MintView, TokenError>(m@),
                Err(e) => spec_mint_unpack(src@) == Err::<MintView, TokenError>(e),
            },
    {
        let m = Self::unpack_unchecked(src)?;
        if !m.is_initialized {
            return Err(TokenError::UninitializedState);
        }
        Ok(m)
    }

    /// Encodes the record into its exactly sized buffer.
    pub fn pack_into_slice(&self, dst: &mut Vec<u8>)
        requires
            old(dst).len() == MINT_LEN,
        ensures
            final(dst).len() == MINT_LEN,
            final(dst)@ == spec_mint_enc(self@, old(dst)@),
    {
        proof {
            reveal(spec_mint_enc);
        }
        write_copt_key(dst, 0, &self.mint_authority);
        write_u64_le(dst, 36, self.supply);
        write_u8_at(dst, 44, self.decimals);
        write_u8_at(dst, 45, if self.is_initialized { 1 } else { 0 });
        assert(dst@.subrange(46, 82) =~= old(dst)@.subrange(46, 82));
        write_copt_key(dst, 46, &self.freeze_authority);
        assert(dst@.subrange(82, 118) =~= old(dst)@.subrange(82, 118));
        write_copt_key(dst, 82, &self.mint_id_asset);
        assert(dst@.subrange(118, 154) =~= old(dst)@.subrange(118, 154));
        write_copt_key(dst, 118, &self.pubkey_swap);
        assert(dst@.subrange(0, 36) =~= spec_copt_key_enc(
            self@.mint_authority,
            old(dst)@.subrange(0, 36),
        ));
        assert(dst@.subrange(36, 44) =~= spec_u64_to_le_bytes(self.supply));
        assert(dst@.subrange(46, 82) =~= spec_copt_key_enc(
            self@.freeze_authority,
            old(dst)@.subrange(46, 82),
        ));
        assert(dst@.subrange(82, 118) =~= spec_copt_key_enc(
            self@.mint_id_asset,
            old(dst)@.subrange(82, 118),
        ));
        assert(dst@.subrange(118, 154) =~= spec_copt_key_enc(
            self@.pubkey_swap,
            old(dst)@.subrange(118, 154),
        ));
        assert(dst@ =~= spec_mint_enc(self@, old(dst)@));
    }

    /// Encodes the record, first checking that the buffer has the packed length.
    pub fn pack(src: Mint, dst: &mut Vec<u8>) -> (r: Result<(), TokenError>)
        ensures
            match r {
                Ok(()) => old(dst).len() == MINT_LEN && final(dst)@ == spec_mint_enc(
                    src@,
                    old(dst)@,
                ),
                Err(e) => old(dst).len() != MINT_LEN && final(dst)@ == old(dst)@ && e
                    == TokenError::InvalidAccountData,
            },
    {
        if dst.len() != MINT_LEN {
            return Err(TokenError::InvalidAccountData);
        }
        src.pack_into_slice(dst);
        Ok(())
    }
}

/// Packed length of a balance-account record.
pub const ACCOUNT_LEN: usize = 181;

/// Lifecycle state of a balance account.
#[derive(Clone, Copy, Debug, PartialEq, Eq, Structural)]
pub enum AccountState {
    /// The record has not been initialized yet.
    Uninitialized,
    /// The owner and delegate may operate on the account.
    Initialized,
    /// The freeze authority has frozen the account; nobody may operate on it.
    Frozen,
}

impl Default for AccountState {
    /// A fresh balance account is uninitialized.
    fn default() -> (s: Self)
        ensures
            s == AccountState::Uninitialized,
    {
        AccountState::Uninitialized
    }
}

/// The lifecycle byte that encodes an account state.
pub open spec fn spec_state_byte(s: AccountState) -> u8 {
    match s {
        AccountState::Uninitialized => 0u8,
        AccountState::Initialized => 1u8,
        AccountState::Frozen => 2u8,
    }
}

/// The account state encoded by a lifecycle byte, if any.
pub open spec fn spec_byte_state(b: u8) -> Option<AccountState> {
    if b == 0u8 {
        Some(AccountState::Uninitialized)
    } else if b == 1u8 {
        Some(AccountState::Initialized)
    } else if b == 2u8 {
        Some(AccountState::Frozen)
    } else {
        None
    }
}

/// Mathematical view of a balance-account record.
#[verifier::ext_equal]
pub struct AccountView {
    /// The asset class this balance belongs to.
    pub mint: Seq<u8>,
    /// The owner of the balance.
    pub owner: Seq<u8>,
    /// The token amount held.
    pub amount: u64,
    /// The delegate, if one has been approved.
    pub delegate: Option<Seq<u8>>,
    /// Lifecycle state.
    pub state: AccountState,
    /// Present when this balance wraps native currency; the value is the
    /// rent-exempt reserve that must stay on the account.
    pub is_native: Option<u64>,
    /// The amount the delegate is authorized to move.
    pub delegated_amount: u64,
    /// The authority allowed to close the account, if set.
    pub close_authority: Option<Seq<u8>>,
    /// The asset sub-balance.
    pub asset: u64,
    /// The usdc sub-balance.
    pub usdc: u64,
}

impl AccountView {
    /// Every key is exactly 32 bytes.
    pub open spec fn wf(self) -> bool {
        self.mint.len() == 32 && self.owner.len() == 32 && opt_key_wf(self.delegate)
            && opt_key_wf(self.close_authority)
    }

    /// Whether the account is frozen.
    pub open spec fn is_frozen(self) -> bool {
        self.state == AccountState::Frozen
    }

    /// Whether the account wraps native currency.
    pub open spec fn is_native(self) -> bool {
        self.is_native is Some
    }
}

/// Balance-account record.
#[derive(Clone, Copy, Debug, PartialEq)]
pub struct Account {
    /// The asset class this balance belongs to.
    pub mint: Pubkey,
    /// The owner of the balance.
    pub owner: Pubkey,
    /// The token amount held.
    pub amount: u64,
    /// The delegate, if one has been approved.
    pub delegate: Option<Pubkey>,
    /// Lifecycle state.
    pub state: AccountState,
    /// Present when this balance wraps native currency; the value is the
    /// rent-exempt reserve that must stay on the account.
    pub is_native: Option<u64>,
    /// The amount the delegate is authorized to move.
    pub delegated_amount: u64,
    /// The authority allowed to close the account, if set.
    pub close_authority: Option<Pubkey>,
    /// The asset sub-balance.
    pub asset: u64,
    /// The usdc sub-balance.
    pub usdc: u64,
}

impl View for Account {
    type V = AccountView;

    open spec fn view(&self) -> AccountView {
        AccountView {
            mint: self.mint@,
            owner: self.owner@,
            amount: self.amount,
            delegate: opt_key_view(self.delegate),
            state: self.state,
            is_native: self.is_native,
            delegated_amount: self.delegated_amount,
            close_authority: opt_key_view(self.close_authority),
            asset: self.asset,
            usdc: self.usdc,
        }
    }
}

/// Byte encoding of a balance account over the previous buffer contents.
#[verifier::opaque]
pub open spec fn spec_account_enc(v: AccountView, prev: Seq<u8>) -> Seq<u8> {
    v.mint + v.owner + spec_u64_to_le_bytes(v.amount) + spec_copt_key_enc(
        v.delegate,
        prev.subrange(72, 108),
    ) + seq![spec_state_byte(v.state)] + spec_copt_u64_enc(v.is_native, prev.subrange(109, 121))
        + spec_u64_to_le_bytes(v.delegated_amount) + spec_copt_key_enc(
        v.close_authority,
        prev.subrange(129, 165),
    ) + spec_u64_to_le_bytes(v.asset) + spec_u64_to_le_bytes(v.usdc)
}

/// Byte decoding of a balance account; `None` means an invalid tag or
/// lifecycle byte.
#[verifier::opaque]
pub open spec fn spec_account_dec(s: Seq<u8>) -> Option<AccountView>
    recommends
        s.len() == ACCOUNT_LEN,
{
    match spec_copt_key_dec(s.subrange(72, 108)) {
        None => None,
        Some(delegate) => match spec_byte_state(s[108]) {
            None => None,
            Some(state) => match spec_copt_u64_dec(s.subrange(109, 121)) {
                None => None,
                Some(is_native) => match spec_copt_key_dec(s.subrange(129, 165)) {
                    None => None,
                    Some(close_authority) => Some(
                        AccountView {
                            mint: s.subrange(0, 32),
                            owner: s.subrange(32, 64),
                            amount: spec_u64_from_le_bytes(s.subrange(64, 72)),
                            delegate,
                            state,
                            is_native,
                            delegated_amount: spec_u64_from_le_bytes(s.subrange(121, 129)),
                            close_authority,
                            asset: spec_u64_from_le_bytes(s.subrange(165, 173)),
                            usdc: spec_u64_from_le_bytes(s.subrange(173, 181)),
                        },
                    ),
                },
            },
        },
    }
}

/// What unpacking an uninitialized-tolerant account buffer yields.
pub open spec fn spec_account_unpack_unchecked(s: Seq<u8>) -> Result<AccountView, TokenError> {
    if s.len() != ACCOUNT_LEN {
        Err(TokenError::InvalidAccountData)
    } else {
        match spec_account_dec(s) {
            None => Err(TokenError::InvalidAccountData),
            Some(v) => Ok(v),
        }
    }
}

/// What unpacking an account buffer yields: the decoded record, which must
/// not be uninitialized.
pub open spec fn spec_account_unpack(s: Seq<u8>) -> Result<AccountView, TokenError> {
    match spec_account_unpack_unchecked(s) {
        Err(e) => Err(e),
        Ok(v) => if v.state != AccountState::Uninitialized {
            Ok(v)
        } else {
            Err(TokenError::UninitializedState)
        },
    }
}

/// Decoding an encoded balance account yields the record back.
pub proof fn lemma_account_round_trip(v: AccountView, prev: Seq<u8>)
    requires
        v.wf(),
        prev.len() == ACCOUNT_LEN,
    ensures
        spec_account_enc(v, prev).len() == ACCOUNT_LEN,
        spec_account_dec(spec_account_enc(v, prev)) == Some(v),
{
    reveal(spec_account_enc);
    reveal(spec_account_dec);
    let e = spec_account_enc(v, prev);
    lemma_copt_key_round_trip(v.delegate, prev.subrange(72, 108));
    lemma_copt_u64_round_trip(v.is_native, prev.subrange(109, 121));
    lemma_copt_key_round_trip(v.close_authority, prev.subrange(129, 165));
    lemma_u64_le_round_trip(v.amount);
    lemma_u64_le_round_trip(v.delegated_amount);
    lemma_u64_le_round_trip(v.asset);
    lemma_u64_le_round_trip(v.usdc);
    assert(e.subrange(0, 32) =~= v.mint);
    assert(e.subrange(32, 64) =~= v.owner);
    assert(e.subrange(64, 72) =~= spec_u64_to_le_bytes(v.amount));
    assert(e.subrange(72, 108) =~= spec_copt_key_enc(v.delegate, prev.subrange(72, 108)));
    assert(e[108] == spec_state_byte(v.state));
    assert(e.subrange(109, 121) =~= spec_copt_u64_enc(v.is_native, prev.subrange(109, 121)));
    assert(e.subrange(121, 129) =~= spec_u64_to_le_bytes(v.delegated_amount));
    assert(e.subrange(129, 165) =~= spec_copt_key_enc(v.close_authority, prev.subrange(129, 165)));
    assert(e.subrange(165, 173) =~= spec_u64_to_le_bytes(v.asset));
    assert(e.subrange(173, 181) =~= spec_u64_to_le_bytes(v.usdc));
    assert(spec_account_dec(e) == Some(v));
}

impl Account {
    /// The packed length of a balance-account record.
    pub fn get_packed_len() -> (n: usize)
        ensures
            n == ACCOUNT_LEN,
    {
        ACCOUNT_LEN
    }

    /// Whether the account is frozen.
    pub fn is_frozen(&self) -> (r: bool)
        ensures
            r == self@.is_frozen(),
    {
        self.state == AccountState::Frozen
    }

    /// Whether the account wraps native currency.
    pub fn is_native(&self) -> (r: bool)
        ensures
            r == self@.is_native(),
    {
        self.is_native.is_some()
    }

    /// Whether the record has been initialized.
    pub fn is_initialized(&self) -> (r: bool)
        ensures
            r == (self@.state != AccountState::Uninitialized),
    {
        self.state != AccountState::Uninitialized
    }

    /// Decodes a balance account from its exactly sized buffer.
    pub fn unpack_from_slice(src: &Vec<u8>) -> (r: Result<Account, TokenError>)
        requires
            src.len() == ACCOUNT_LEN,
        ensures
            match r {
                Ok(a) => spec_account_dec(src@) == Some(a@),
                Err(e) => spec_account_dec(src@) is None && e == TokenError::InvalidAccountData,
            },
    {
        proof {
            reveal(spec_account_dec);
        }
        let mint = read_key_at(src, 0);
        let owner = read_key_at(src, 32);
        let amount = read_u64_le(src, 64);
        let delegate = read_copt_key(src, 72);
        let delegate = match delegate {
            Ok(d) => d,
            Err(e) => {
                return Err(e);
            },
        };
        let state_byte = read_u8_at(src, 108);
        let state = if state_byte == 0 {
            AccountState::Uninitialized
        } else if state_byte == 1 {
            AccountState::Initialized
        } else if state_byte == 2 {
            AccountState::Frozen
        } else {
            return Err(TokenError::InvalidAccountData);
        };
        let is_native = read_copt_u64(src, 109)?;
        let delegated_amount = read_u64_le(src, 121);
        let close_authority = read_copt_key(src, 129)?;
        let asset = read_u64_le(src, 165);
        let usdc = read_u64_le(src, 173);
        Ok(
            Account {
                mint,
                owner,
                amount,
                delegate,
                state,
                is_native,
                delegated_amount,
                close_authority,
                asset,
                usdc,
            },
        )
    }

    /// Decodes a balance account, checking the buffer length but not the
    /// lifecycle state.
    pub fn unpack_unchecked(src: &Vec<u8>) -> (r: Result<Account, TokenError>)
        ensures
            match r {
                Ok(a) => spec_account_unpack_unchecked(src@) == Ok::<AccountView, TokenError>(a@),
                Err(e) => spec_account_unpack_unchecked(src@) == Err::<AccountView, TokenError>(e),
            },
    {
        if src.len() != ACCOUNT_LEN {
            return Err(TokenError::InvalidAccountData);
        }
        Self::unpack_from_slice(src)
    }

    /// Decodes an initialized balance account.
    pub fn unpack(src: &Vec<u8>) -> (r: Result<Account, TokenError>)
        ensures
            match r {
                Ok(a) => spec_account_unpack(src@) == Ok::<AccountView, TokenError>(a@),
                Err(e) => spec_account_unpack(src@) == Err::<AccountView, TokenError>(e),
            },
    {
        let a = Self::unpack_unchecked(src)?;
        if !a.is_initialized() {
            return Err(TokenError::UninitializedState);
        }
        Ok(a)
    }

    /// Encodes the record into its exactly sized buffer.
    pub fn pack_into_slice(&self, dst: &mut Vec<u8>)
        requires
            old(dst).len() == ACCOUNT_LEN,
        ensures
            final(dst).len() == ACCOUNT_LEN,
            final(dst)@ == spec_account_enc(self@, old(dst)@),
    {
        proof {
            reveal(spec_account_enc);
        }
        write_key_at(dst, 0, &self.mint);
        write_key_at(dst, 32, &self.owner);
        write_u64_le(dst, 64, self.amount);
        assert(dst@.subrange(72, 108) =~= old(dst)@.subrange(72, 108));
        write_copt_key(dst, 72, &self.delegate);
        let state_byte: u8 = match self.state {
            AccountState::Uninitialized => 0,
            AccountState::Initialized => 1,
            AccountState::Frozen => 2,
        };
        write_u8_at(dst, 108, state_byte);
        assert(dst@.subrange(109, 121) =~= old(dst)@.subrange(109, 121));
        write_copt_u64(dst, 109, &self.is_native);
        write_u64_le(dst, 121, self.delegated_amount);
        assert(dst@.subrange(129, 165) =~= old(dst)@.subrange(129, 165));
        write_copt_key(dst, 129, &self.close_authority);
        write_u64_le(dst, 165, self.asset);
        write_u64_le(dst, 173, self.usdc);
        assert(dst@.subrange(0, 32) =~= self@.mint);
        assert(dst@.subrange(32, 64) =~= self@.owner);
        assert(dst@.subrange(64, 72) =~= spec_u64_to_le_bytes(self.amount));
        assert(dst@.subrange(72, 108) =~= spec_copt_key_enc(
            self@.delegate,
            old(dst)@.subrange(72, 108),
        ));
        assert(dst@[108] == spec_state_byte(self@.state));
        assert(dst@.subrange(109, 121) =~= spec_copt_u64_enc(
            self@.is_native,
            old(dst)@.subrange(109, 121),
        ));
        assert(dst@.subrange(121, 129) =~= spec_u64_to_le_bytes(self.delegated_amount));
        assert(dst@.subrange(129, 165) =~= spec_copt_key_enc(
            self@.close_authority,
            old(dst)@.subrange(129, 165),
        ));
        assert(dst@.subrange(165, 173) =~= spec_u64_to_le_bytes(self.asset));
        assert(dst@.subrange(173, 181) =~= spec_u64_to_le_bytes(self.usdc));
        assert(dst@ =~= spec_account_enc(self@, old(dst)@));
    }

    /// Encodes the record, first checking that the buffer has the packed length.
    pub fn pack(src: Account, dst: &mut Vec<u8>) -> (r: Result<(), TokenError>)
        ensures
            match r {
                Ok(()) => old(dst).len() == ACCOUNT_LEN && final(dst)@ == spec_account_enc(
                    src@,
                    old(dst)@,
                ),
                Err(e) => old(dst).len() != ACCOUNT_LEN && final(dst)@ == old(dst)@ && e
                    == TokenError::InvalidAccountData,
            },
    {
        if dst.len() != ACCOUNT_LEN {
            return Err(TokenError::InvalidAccountData);
        }
        src.pack_into_slice(dst);
        Ok(())
    }
}

/// Packed length of a multisignature descriptor.
pub const MULTISIG_LEN: usize = 355;

/// The 32-byte keys of `keys`, laid out one after the other.
pub open spec fn spec_keys_flat(keys: Seq<Seq<u8>>) -> Seq<u8> {
    Seq::new(keys.len() * 32, |p: int| keys[p / 32][p % 32])
}

/// Index arithmetic for the flattened key layout.
pub proof fn lemma_keys_flat_index(keys: Seq<Seq<u8>>, i: int, t: int)
    requires
        0 <= i < keys.len(),
        0 <= t < 32,
    ensures
        spec_keys_flat(keys)[32 * i + t] == keys[i][t],
{
    vstd::arithmetic::div_mod::lemma_fundamental_div_mod_converse(32 * i + t, 32, i, t);
}

/// Mathematical view of a multisignature descriptor.
#[verifier::ext_equal]
pub struct MultisigView {
    /// Number of signatures required.
    pub m: u8,
    /// Number of registered signers.
    pub n: u8,
    /// Whether the record has been initialized.
    pub is_initialized: bool,
    /// The registered signer keys; unused slots are zero-filled.
    pub signers: Seq<Seq<u8>>,
}

impl MultisigView {
    /// Eleven slots of 32 bytes each.
    pub open spec fn wf(self) -> bool {
        self.signers.len() == MAX_SIGNERS && forall|i: int|
            0 <= i < self.signers.len() ==> (#[trigger] self.signers[i]).len() == 32
    }
}

/// Multisignature descriptor record.
#[derive(Clone, Debug, PartialEq)]
pub struct Multisig {
    /// Number of signatures required.
    pub m: u8,
    /// Number of registered signers.
    pub n: u8,
    /// Whether the record has been initialized.
    pub is_initialized: bool,
    /// The registered signer keys; unused slots are zero-filled.
    pub signers: Vec<Pubkey>,
}

impl View for Multisig {
    type V = MultisigView;

    open spec fn view(&self) -> MultisigView {
        MultisigView {
            m: self.m,
            n: self.n,
            is_initialized: self.is_initialized,
            signers: Seq::new(self.signers@.len(), |i: int| self.signers@[i]@),
        }
    }
}

/// Byte encoding of a multisignature descriptor; it has no optional fields,
/// so it does not depend on the previous buffer contents.
#[verifier::opaque]
pub open spec fn spec_multisig_enc(v: MultisigView) -> Seq<u8> {
    seq![v.m, v.n, if v.is_initialized { 1u8 } else { 0u8 }] + spec_keys_flat(v.signers)
}

/// Byte decoding of a multisignature descriptor; `None` means an invalid
/// initialized flag.
#[verifier::opaque]
pub open spec fn spec_multisig_dec(s: Seq<u8>) -> Option<MultisigView>
    recommends
        s.len() == MULTISIG_LEN,
{
    if s[2] == 0u8 || s[2] == 1u8 {
        Some(
            MultisigView {
                m: s[0],
                n: s[1],
                is_initialized: s[2] == 1u8,
                signers: Seq::new(MAX_SIGNERS as nat, |i: int| s.subrange(3 + 32 * i, 35 + 32 * i)),
            },
        )
    } else {
        None
    }
}

/// What unpacking an uninitialized-tolerant multisig buffer yields.
pub open spec fn spec_multisig_unpack_unchecked(s: Seq<u8>) -> Result<MultisigView, TokenError> {
    if s.len() != MULTISIG_LEN {
        Err(TokenError::InvalidAccountData)
    } else {
        match spec_multisig_dec(s) {
            None => Err(TokenError::InvalidAccountData),
            Some(v) => Ok(v),
        }
    }
}

/// What unpacking a multisig buffer yields: the decoded record, which must be
/// initialized.
pub open spec fn spec_multisig_unpack(s: Seq<u8>) -> Result<MultisigView, TokenError> {
    match spec_multisig_unpack_unchecked(s) {
        Err(e) => Err(e),
        Ok(v) => if v.is_initialized {
            Ok(v)
        } else {
            Err(TokenError::UninitializedState)
        },
    }
}

/// Decoding an encoded multisignature descriptor yields the record back.
pub proof fn lemma_multisig_round_trip(v: MultisigView)
    requires
        v.wf(),
    ensures
        spec_multisig_enc(v).len() == MULTISIG_LEN,
        spec_multisig_dec(spec_multisig_enc(v)) == Some(v),
{
    reveal(spec_multisig_enc);
    reveal(spec_multisig_dec);
    let e = spec_multisig_enc(v);
    let d = spec_multisig_dec(e);
    assert(e.len() == MULTISIG_LEN);
    assert forall|i: int| 0 <= i < MAX_SIGNERS implies e.subrange(3 + 32 * i, 35 + 32 * i)
        =~= v.signers[i] by {
        assert forall|t: int| 0 <= t < 32 implies e.subrange(3 + 32 * i, 35 + 32 * i)[t]
            == v.signers[i][t] by {
            lemma_keys_flat_index(v.signers, i, t);
            assert(e[3 + 32 * i + t] == spec_keys_flat(v.signers)[32 * i + t]);
        }
    }
    assert(d->0.signers =~= v.signers);
    assert(d->0 =~= v);
}

impl Multisig {
    /// The packed length of a multisignature descriptor.
    pub fn get_packed_len() -> (n: usize)
        ensures
            n == MULTISIG_LEN,
    {
        MULTISIG_LEN
    }

    /// Whether the record has been initialized.
    pub fn is_initialized(&self) -> (r: bool)
        ensures
            r == self@.is_initialized,
    {
        self.is_initialized
    }

    /// Decodes a multisignature descriptor from its exactly sized buffer.
    pub fn unpack_from_slice(src: &Vec<u8>) -> (r: Result<Multisig, TokenError>)
        requires
            src.len() == MULTISIG_LEN,
        ensures
            match r {
                Ok(m) => spec_multisig_dec(src@) == Some(m@),
                Err(e) => spec_multisig_dec(src@) is None && e == TokenError::InvalidAccountData,
            },
    {
        proof {
            reveal(spec_multisig_dec);
        }
        let m = read_u8_at(src, 0);
        let n = read_u8_at(src, 1);
        let init_byte = read_u8_at(src, 2);
        if init_byte != 0 && init_byte != 1 {
            return Err(TokenError::InvalidAccountData);
        }
        let mut signers: Vec<Pubkey> = Vec::new();
        let mut i: usize = 0;
        while i < MAX_SIGNERS
            invariant
                0 <= i <= MAX_SIGNERS,
                src.len() == MULTISIG_LEN,
                signers@.len() == i,
                forall|j: int|
                    0 <= j < i ==> (#[trigger] signers@[j])@ == src@.subrange(
                        3 + 32 * j,
                        35 + 32 * j,
                    ),
            decreases MAX_SIGNERS - i,
        {
            let k = read_key_at(src, 3 + 32 * i);
            signers.push(k);
            i = i + 1;
        }
        let result = Multisig { m, n, is_initialized: init_byte == 1, signers };
        assert(result@.signers =~= spec_multisig_dec(src@)->0.signers);
        assert(result@ =~= spec_multisig_dec(src@)->0);
        Ok(result)
    }

    /// Decodes a multisignature descriptor, checking the buffer length but
    /// not the initialized flag.
    pub fn unpack_unchecked(src: &Vec<u8>) -> (r: Result<Multisig, TokenError>)
        ensures
            match r {
                Ok(m) => spec_multisig_unpack_unchecked(src@) == Ok::<MultisigView, TokenError>(
                    m@,
                ),
                Err(e) => spec_multisig_unpack_unchecked(src@) == Err::<MultisigView, TokenError>(
                    e,
                ),
            },
    {
        if src.len() != MULTISIG_LEN {
            return Err(TokenError::InvalidAccountData);
        }
        Self::unpack_from_slice(src)
    }

    /// Decodes an initialized multisignature descriptor.
    pub fn unpack(src: &Vec<u8>) -> (r: Result<Multisig, TokenError>)
        ensures
            match r {
                Ok(m) => spec_multisig_unpack(src@) == Ok::<MultisigView, TokenError>(m@),
                Err(e) => spec_multisig_unpack(src@) == Err::<MultisigView, TokenError>(e),
            },
    {
        let m = Self::unpack_unchecked(src)?;
        if !m.is_initialized {
            return Err(TokenError::UninitializedState);
        }
        Ok(m)
    }

    /// Encodes the record into its exactly sized buffer.
    pub fn pack_into_slice(&self, dst: &mut Vec<u8>)
        requires
            old(dst).len() == MULTISIG_LEN,
            self@.wf(),
        ensures
            final(dst).len() == MULTISIG_LEN,
            final(dst)@ == spec_multisig_enc(self@),
    {
        proof {
            reveal(spec_multisig_enc);
        }
        write_u8_at(dst, 0, self.m);
        write_u8_at(dst, 1, self.n);
        write_u8_at(dst, 2, if self.is_initialized { 1 } else { 0 });
        let mut i: usize = 0;
        while i < MAX_SIGNERS
            invariant
                0 <= i <= MAX_SIGNERS,
                self@.wf(),
                self.signers@.len() == MAX_SIGNERS,
                dst.len() == MULTISIG_LEN,
                dst@[0] == self.m,
                dst@[1] == self.n,
                dst@[2] == if self.is_initialized { 1u8 } else { 0u8 },
                forall|j: int, t: int|
                    0 <= j < i && 0 <= t < 32 ==> dst@[3 + 32 * j + t] == (
                    #[trigger] self@.signers[j][t]),
            decreases MAX_SIGNERS - i,
        {
            let k = &self.signers[i];
            write_key_at(dst, 3 + 32 * i, k);
            assert forall|j: int, t: int| 0 <= j < i + 1 && 0 <= t < 32 implies dst@[3 + 32 * j
                + t] == (#[trigger] self@.signers[j][t]) by {
                if j < i {
                    assert(3 + 32 * j + t < 3 + 32 * i);
                }
            }
            i = i + 1;
        }
        assert forall|p: int| 0 <= p < MULTISIG_LEN implies dst@[p] == spec_multisig_enc(self@)[p]
            by {
            if p >= 3 {
                let q = p - 3;
                vstd::arithmetic::div_mod::lemma_fundamental_div_mod(q, 32);
                let j = q / 32;
                let t = q % 32;
                assert(dst@[3 + 32 * j + t] == self@.signers[j][t]);
            }
        }
        assert(dst@ =~= spec_multisig_enc(self@));
    }

    /// Encodes the record, first checking that the buffer has the packed length.
    pub fn pack(src: Multisig, dst: &mut Vec<u8>) -> (r: Result<(), TokenError>)
        requires
            src@.wf(),
        ensures
            match r {
                Ok(()) => old(dst).len() == MULTISIG_LEN && final(dst)@ == spec_multisig_enc(src@),
                Err(e) => old(dst).len() != MULTISIG_LEN && final(dst)@ == old(dst)@ && e
                    == TokenError::InvalidAccountData,
            },
    {
        if dst.len() != MULTISIG_LEN {
            return Err(TokenError::InvalidAccountData);
        }
        src.pack_into_slice(dst);
        Ok(())
    }
}

/// Packed length of a portfolio descriptor.
pub const PORTFOLIO_LEN: usize = 789;

/// Mathematical view of a portfolio descriptor.
#[allow(non_snake_case)]
#[verifier::ext_equal]
pub struct PortfolioView {
    /// Self-reference to the descriptor account.
    pub portfolio_account: Seq<u8>,
    /// The creator of the portfolio.
    pub creator_portfolio: Seq<u8>,
    /// Opaque metadata blob (for instance a URL); 128 bytes, not interpreted.
    pub metadataUrl: Seq<u8>,
    /// Integrity hash of the metadata blob.
    pub metadataHash: u16,
    /// Initialized flag byte; 1 once the descriptor has been written.
    pub is_initialize: u8,
    /// Allocation percentage of the first asset.
    pub amountAsset1: u8,
    /// Address of the first asset.
    pub addressAsset1: Seq<u8>,
    /// Rebalance period of the first asset.
    pub periodAsset1: u8,
    /// The asset the first asset is sold into.
    pub assetToSoldIntoAsset1: Seq<u8>,
    /// Allocation percentage of the second asset.
    pub amountAsset2: u8,
    /// Address of the second asset.
    pub addressAsset2: Seq<u8>,
    /// Rebalance period of the second asset.
    pub periodAsset2: u8,
    /// The asset the second asset is sold into.
    pub assetToSoldIntoAsset2: Seq<u8>,
    /// Allocation percentage of the third asset.
    pub amountAsset3: u8,
    /// Address of the third asset.
    pub addressAsset3: Seq<u8>,
    /// Rebalance period of the third asset.
    pub periodAsset3: u8,
    /// The asset the third asset is sold into.
    pub assetToSoldIntoAsset3: Seq<u8>,
    /// Allocation percentage of the fourth asset.
    pub amountAsset4: u8,
    /// Address of the fourth asset.
    pub addressAsset4: Seq<u8>,
    /// Rebalance period of the fourth asset.
    pub periodAsset4: u8,
    /// The asset the fourth asset is sold into.
    pub assetToSoldIntoAsset4: Seq<u8>,
    /// Allocation percentage of the fifth asset.
    pub amountAsset5: u8,
    /// Address of the fifth asset.
    pub addressAsset5: Seq<u8>,
    /// Rebalance period of the fifth asset.
    pub periodAsset5: u8,
    /// The asset the fifth asset is sold into.
    pub assetToSoldIntoAsset5: Seq<u8>,
    /// Allocation percentage of the sixth asset.
    pub amountAsset6: u8,
    /// Address of the sixth asset.
    pub addressAsset6: Seq<u8>,
    /// Rebalance period of the sixth asset.
    pub periodAsset6: u8,
    /// The asset the sixth asset is sold into.
    pub assetToSoldIntoAsset6: Seq<u8>,
    /// Allocation percentage of the seventh asset.
    pub amountAsset7: u8,
    /// Address of the seventh asset.
    pub addressAsset7: Seq<u8>,
    /// Rebalance period of the seventh asset.
    pub periodAsset7: u8,
    /// The asset the seventh asset is sold into.
    pub assetToSoldIntoAsset7: Seq<u8>,
    /// Allocation percentage of the eighth asset.
    pub amountAsset8: u8,
    /// Address of the eighth asset.
    pub addressAsset8: Seq<u8>,
    /// Rebalance period of the eighth asset.
    pub periodAsset8: u8,
    /// The asset the eighth asset is sold into.
    pub assetToSoldIntoAsset8: Seq<u8>,
    /// Allocation percentage of the ninth asset.
    pub amountAsset9: u8,
    /// Address of the ninth asset.
    pub addressAsset9: Seq<u8>,
    /// Rebalance period of the ninth asset.
    pub periodAsset9: u8,
    /// The asset the ninth asset is sold into.
    pub assetToSoldIntoAsset9: Seq<u8>,
}

impl PortfolioView {
    /// The metadata blob is 128 bytes and every key is 32 bytes.
    pub open spec fn wf(self) -> bool {
        self.portfolio_account.len() == 32 && self.creator_portfolio.len() == 32
            && self.metadataUrl.len() == 128
            && self.addressAsset1.len() == 32 && self.assetToSoldIntoAsset1.len() == 32
            && self.addressAsset2.len() == 32 && self.assetToSoldIntoAsset2.len() == 32
            && self.addressAsset3.len() == 32 && self.assetToSoldIntoAsset3.len() == 32
            && self.addressAsset4.len() == 32 && self.assetToSoldIntoAsset4.len() == 32
            && self.addressAsset5.len() == 32 && self.assetToSoldIntoAsset5.len() == 32
            && self.addressAsset6.len() == 32 && self.assetToSoldIntoAsset6.len() == 32
            && self.addressAsset7.len() == 32 && self.assetToSoldIntoAsset7.len() == 32
            && self.addressAsset8.len() == 32 && self.assetToSoldIntoAsset8.len() == 32
            && self.addressAsset9.len() == 32 && self.assetToSoldIntoAsset9.len() == 32
    }
}

/// Portfolio descriptor record.
#[allow(non_snake_case)]
#[derive(Clone, Debug, PartialEq)]
pub struct Portfolio {
    /// Self-reference to the descriptor account.
    pub portfolio_account: Pubkey,
    /// The creator of the portfolio.
    pub creator_portfolio: Pubkey,
    /// Opaque metadata blob (for instance a URL); 128 bytes, not interpreted.
    pub metadataUrl: Vec<u8>,
    /// Integrity hash of the metadata blob.
    pub metadataHash: u16,
    /// Initialized flag byte; 1 once the descriptor has been written.
    pub is_initialize: u8,
    /// Allocation percentage of the first asset.
    pub amountAsset1: u8,
    /// Address of the first asset.
    pub addressAsset1: Pubkey,
    /// Rebalance period of the first asset.
    pub periodAsset1: u8,
    /// The asset the first asset is sold into.
    pub assetToSoldIntoAsset1: Pubkey,
    /// Allocation percentage of the second asset.
    pub amountAsset2: u8,
    /// Address of the second asset.
    pub addressAsset2: Pubkey,
    /// Rebalance period of the second asset.
    pub periodAsset2: u8,
    /// The asset the second asset is sold into.
    pub assetToSoldIntoAsset2: Pubkey,
    /// Allocation percentage of the third asset.
    pub amountAsset3: u8,
    /// Address of the third asset.
    pub addressAsset3: Pubkey,
    /// Rebalance period of the third asset.
    pub periodAsset3: u8,
    /// The asset the third asset is sold into.
    pub assetToSoldIntoAsset3: Pubkey,
    /// Allocation percentage of the fourth asset.
    pub amountAsset4: u8,
    /// Address of the fourth asset.
    pub addressAsset4: Pubkey,
    /// Rebalance period of the fourth asset.
    pub periodAsset4: u8,
    /// The asset the fourth asset is sold into.
    pub assetToSoldIntoAsset4: Pubkey,
    /// Allocation percentage of the fifth asset.
    pub amountAsset5: u8,
    /// Address of the fifth asset.
    pub addressAsset5: Pubkey,
    /// Rebalance period of the fifth asset.
    pub periodAsset5: u8,
    /// The asset the fifth asset is sold into.
    pub assetToSoldIntoAsset5: Pubkey,
    /// Allocation percentage of the sixth asset.
    pub amountAsset6: u8,
    /// Address of the sixth asset.
    pub addressAsset6: Pubkey,
    /// Rebalance period of the sixth asset.
    pub periodAsset6: u8,
    /// The asset the sixth asset is sold into.
    pub assetToSoldIntoAsset6: Pubkey,
    /// Allocation percentage of the seventh asset.
    pub amountAsset7: u8,
    /// Address of the seventh asset.
    pub addressAsset7: Pubkey,
    /// Rebalance period of the seventh asset.
    pub periodAsset7: u8,
    /// The asset the seventh asset is sold into.
    pub assetToSoldIntoAsset7: Pubkey,
    /// Allocation percentage of the eighth asset.
    pub amountAsset8: u8,
    /// Address of the eighth asset.
    pub addressAsset8: Pubkey,
    /// Rebalance period of the eighth asset.
    pub periodAsset8: u8,
    /// The asset the eighth asset is sold into.
    pub assetToSoldIntoAsset8: Pubkey,
    /// Allocation percentage of the ninth asset.
    pub amountAsset9: u8,
    /// Address of the ninth asset.
    pub addressAsset9: Pubkey,
    /// Rebalance period of the ninth asset.
    pub periodAsset9: u8,
    /// The asset the ninth asset is sold into.
    pub assetToSoldIntoAsset9: Pubkey,
}

impl View for Portfolio {
    type V = PortfolioView;

    open spec fn view(&self) -> PortfolioView {
        PortfolioView {
            portfolio_account: self.portfolio_account@,
            creator_portfolio: self.creator_portfolio@,
            metadataUrl: self.metadataUrl@,
            metadataHash: self.metadataHash,
            is_initialize: self.is_initialize,
            amountAsset1: self.amountAsset1,
            addressAsset1: self.addressAsset1@,
            periodAsset1: self.periodAsset1,
            assetToSoldIntoAsset1: self.assetToSoldIntoAsset1@,
            amountAsset2: self.amountAsset2,
            addressAsset2: self.addressAsset2@,
            periodAsset2: self.periodAsset2,
            assetToSoldIntoAsset2: self.assetToSoldIntoAsset2@,
            amountAsset3: self.amountAsset3,
            addressAsset3: self.addressAsset3@,
            periodAsset3: self.periodAsset3,
            assetToSoldIntoAsset3: self.assetToSoldIntoAsset3@,
            amountAsset4: self.amountAsset4,
            addressAsset4: self.addressAsset4@,
            periodAsset4: self.periodAsset4,
            assetToSoldIntoAsset4: self.assetToSoldIntoAsset4@,
            amountAsset5: self.amountAsset5,
            addressAsset5: self.addressAsset5@,
            periodAsset5: self.periodAsset5,
            assetToSoldIntoAsset5: self.assetToSoldIntoAsset5@,
            amountAsset6: self.amountAsset6,
            addressAsset6: self.addressAsset6@,
            periodAsset6: self.periodAsset6,
            assetToSoldIntoAsset6: self.assetToSoldIntoAsset6@,
            amountAsset7: self.amountAsset7,
            addressAsset7: self.addressAsset7@,
            periodAsset7: self.periodAsset7,
            assetToSoldIntoAsset7: self.assetToSoldIntoAsset7@,
            amountAsset8: self.amountAsset8,
            addressAsset8: self.addressAsset8@,
            periodAsset8: self.periodAsset8,
            assetToSoldIntoAsset8: self.assetToSoldIntoAsset8@,
            amountAsset9: self.amountAsset9,
            addressAsset9: self.addressAsset9@,
            periodAsset9: self.periodAsset9,
            assetToSoldIntoAsset9: self.assetToSoldIntoAsset9@,
        }
    }
}


/// Byte encoding of one portfolio asset group: allocation percentage, asset
/// address, rebalance period, and the asset it is sold into.
pub open spec fn spec_asset_group_enc(amount: u8, address: Seq<u8>, period: u8, sold: Seq<u8>)
    -> Seq<u8> {
    seq![amount] + address + seq![period] + sold
}

/// An asset-group segment is 66 bytes.
pub broadcast proof fn lemma_asset_group_enc_len(amount: u8, address: Seq<u8>, period: u8,
    sold: Seq<u8>)
    ensures
        (address.len() == 32 && sold.len() == 32) ==> (#[trigger] spec_asset_group_enc(
            amount,
            address,
            period,
            sold,
        )).len() == 66,
{
}

/// Where each field of an asset group sits inside its 66-byte segment.
pub proof fn lemma_asset_group_fields(amount: u8, address: Seq<u8>, period: u8, sold: Seq<u8>)
    requires
        address.len() == 32,
        sold.len() == 32,
    ensures
        spec_asset_group_enc(amount, address, period, sold).len() == 66,
        spec_asset_group_enc(amount, address, period, sold)[0] == amount,
        spec_asset_group_enc(amount, address, period, sold).subrange(1, 33) == address,
        spec_asset_group_enc(amount, address, period, sold)[33] == period,
        spec_asset_group_enc(amount, address, period, sold).subrange(34, 66) == sold,
{
    let e = spec_asset_group_enc(amount, address, period, sold);
    assert(e.subrange(1, 33) =~= address);
    assert(e.subrange(34, 66) =~= sold);
}

/// Writes one asset group at `off`.
fn write_asset_group(dst: &mut Vec<u8>, off: usize, amount: u8, address: &Pubkey, period: u8,
    sold: &Pubkey)
    requires
        off + 66 <= old(dst).len(),
    ensures
        final(dst).len() == old(dst).len(),
        final(dst)@ == crate::bytesutil::spliced(
            old(dst)@,
            off as int,
            spec_asset_group_enc(amount, address@, period, sold@),
        ),
{
    write_u8_at(dst, off, amount);
    write_key_at(dst, off + 1, address);
    write_u8_at(dst, off + 33, period);
    write_key_at(dst, off + 34, sold);
    assert(dst@ =~= crate::bytesutil::spliced(
        old(dst)@,
        off as int,
        spec_asset_group_enc(amount, address@, period, sold@),
    ));
}

/// Byte encoding of a portfolio descriptor; it has no optional fields, so it
/// does not depend on the previous buffer contents.
#[verifier::opaque]
pub open spec fn spec_portfolio_enc(v: PortfolioView) -> Seq<u8> {
    v.portfolio_account + v.creator_portfolio + v.metadataUrl + spec_u16_to_le_bytes(
        v.metadataHash,
    ) + seq![v.is_initialize]
        + spec_asset_group_enc(v.amountAsset1, v.addressAsset1, v.periodAsset1, v.assetToSoldIntoAsset1)
        + spec_asset_group_enc(v.amountAsset2, v.addressAsset2, v.periodAsset2, v.assetToSoldIntoAsset2)
        + spec_asset_group_enc(v.amountAsset3, v.addressAsset3, v.periodAsset3, v.assetToSoldIntoAsset3)
        + spec_asset_group_enc(v.amountAsset4, v.addressAsset4, v.periodAsset4, v.assetToSoldIntoAsset4)
        + spec_asset_group_enc(v.amountAsset5, v.addressAsset5, v.periodAsset5, v.assetToSoldIntoAsset5)
        + spec_asset_group_enc(v.amountAsset6, v.addressAsset6, v.periodAsset6, v.assetToSoldIntoAsset6)
        + spec_asset_group_enc(v.amountAsset7, v.addressAsset7, v.periodAsset7, v.assetToSoldIntoAsset7)
        + spec_asset_group_enc(v.amountAsset8, v.addressAsset8, v.periodAsset8, v.assetToSoldIntoAsset8)
        + spec_asset_group_enc(v.amountAsset9, v.addressAsset9, v.periodAsset9, v.assetToSoldIntoAsset9)
}

/// Byte decoding of a portfolio descriptor; every field is read verbatim, so
/// decoding is total.
#[verifier::opaque]
pub open spec fn spec_portfolio_dec(s: Seq<u8>) -> PortfolioView
    recommends
        s.len() == PORTFOLIO_LEN,
{
    PortfolioView {
        portfolio_account: s.subrange(0, 32),
        creator_portfolio: s.subrange(32, 64),
        metadataUrl: s.subrange(64, 192),
        metadataHash: spec_u16_from_le_bytes(s.subrange(192, 194)),
        is_initialize: s[194],
        amountAsset1: s[195],
        addressAsset1: s.subrange(196, 228),
        periodAsset1: s[228],
        assetToSoldIntoAsset1: s.subrange(229, 261),
        amountAsset2: s[261],
        addressAsset2: s.subrange(262, 294),
        periodAsset2: s[294],
        assetToSoldIntoAsset2: s.subrange(295, 327),
        amountAsset3: s[327],
        addressAsset3: s.subrange(328, 360),
        periodAsset3: s[360],
        assetToSoldIntoAsset3: s.subrange(361, 393),
        amountAsset4: s[393],
        addressAsset4: s.subrange(394, 426),
        periodAsset4: s[426],
        assetToSoldIntoAsset4: s.subrange(427, 459),
        amountAsset5: s[459],
        addressAsset5: s.subrange(460, 492),
        periodAsset5: s[492],
        assetToSoldIntoAsset5: s.subrange(493, 525),
        amountAsset6: s[525],
        addressAsset6: s.subrange(526, 558),
        periodAsset6: s[558],
        assetToSoldIntoAsset6: s.subrange(559, 591),
        amountAsset7: s[591],
        addressAsset7: s.subrange(592, 624),
        periodAsset7: s[624],
        assetToSoldIntoAsset7: s.subrange(625, 657),
        amountAsset8: s[657],
        addressAsset8: s.subrange(658, 690),
        periodAsset8: s[690],
        assetToSoldIntoAsset8: s.subrange(691, 723),
        amountAsset9: s[723],
        addressAsset9: s.subrange(724, 756),
        periodAsset9: s[756],
        assetToSoldIntoAsset9: s.subrange(757, 789),
    }
}

/// What unpacking a portfolio buffer yields; only the length is checked.
pub open spec fn spec_portfolio_unpack(s: Seq<u8>) -> Result<PortfolioView, TokenError> {
    if s.len() != PORTFOLIO_LEN {
        Err(TokenError::InvalidAccountData)
    } else {
        Ok(spec_portfolio_dec(s))
    }
}

/// Decoding an encoded portfolio descriptor yields the record back.
pub proof fn lemma_portfolio_round_trip(v: PortfolioView)
    requires
        v.wf(),
    ensures
        spec_portfolio_enc(v).len() == PORTFOLIO_LEN,
        spec_portfolio_dec(spec_portfolio_enc(v)) == v,
{
    broadcast use lemma_asset_group_enc_len;
    reveal(spec_portfolio_enc);
    reveal(spec_portfolio_dec);
    let e = spec_portfolio_enc(v);
    lemma_u16_le_round_trip(v.metadataHash);
    assert(e.len() == PORTFOLIO_LEN);
    assert(e.subrange(0, 32) =~= v.portfolio_account);
    assert(e.subrange(32, 64) =~= v.creator_portfolio);
    assert(e.subrange(64, 192) =~= v.metadataUrl);
    assert(e.subrange(192, 194) =~= spec_u16_to_le_bytes(v.metadataHash));
    assert(e[194] == v.is_initialize);
    assert(e.subrange(195, 261) =~= spec_asset_group_enc(
        v.amountAsset1,
        v.addressAsset1,
        v.periodAsset1,
        v.assetToSoldIntoAsset1,
    ));
    lemma_asset_group_fields(v.amountAsset1, v.addressAsset1, v.periodAsset1, v.assetToSoldIntoAsset1);
    assert(e.subrange(261, 327) =~= spec_asset_group_enc(
        v.amountAsset2,
        v.addressAsset2,
        v.periodAsset2,
        v.assetToSoldIntoAsset2,
    ));
    lemma_asset_group_fields(v.amountAsset2, v.addressAsset2, v.periodAsset2, v.assetToSoldIntoAsset2);
    assert(e.subrange(327, 393) =~= spec_asset_group_enc(
        v.amountAsset3,
        v.addressAsset3,
        v.periodAsset3,
        v.assetToSoldIntoAsset3,
    ));
    lemma_asset_group_fields(v.amountAsset3, v.addressAsset3, v.periodAsset3, v.assetToSoldIntoAsset3);
    assert(e.subrange(393, 459) =~= spec_asset_group_enc(
        v.amountAsset4,
        v.addressAsset4,
        v.periodAsset4,
        v.assetToSoldIntoAsset4,
    ));
    lemma_asset_group_fields(v.amountAsset4, v.addressAsset4, v.periodAsset4, v.assetToSoldIntoAsset4);
    assert(e.subrange(459, 525) =~= spec_asset_group_enc(
        v.amountAsset5,
        v.addressAsset5,
        v.periodAsset5,
        v.assetToSoldIntoAsset5,
    ));
    lemma_asset_group_fields(v.amountAsset5, v.addressAsset5, v.periodAsset5, v.assetToSoldIntoAsset5);
    assert(e.subrange(525, 591) =~= spec_asset_group_enc(
        v.amountAsset6,
        v.addressAsset6,
        v.periodAsset6,
        v.assetToSoldIntoAsset6,
    ));
    lemma_asset_group_fields(v.amountAsset6, v.addressAsset6, v.periodAsset6, v.assetToSoldIntoAsset6);
    assert(e.subrange(591, 657) =~= spec_asset_group_enc(
        v.amountAsset7,
        v.addressAsset7,
        v.periodAsset7,
        v.assetToSoldIntoAsset7,
    ));
    lemma_asset_group_fields(v.amountAsset7, v.addressAsset7, v.periodAsset7, v.assetToSoldIntoAsset7);
    assert(e.subrange(657, 723) =~= spec_asset_group_enc(
        v.amountAsset8,
        v.addressAsset8,
        v.periodAsset8,
        v.assetToSoldIntoAsset8,
    ));
    lemma_asset_group_fields(v.amountAsset8, v.addressAsset8, v.periodAsset8, v.assetToSoldIntoAsset8);
    assert(e.subrange(723, 789) =~= spec_asset_group_enc(
        v.amountAsset9,
        v.addressAsset9,
        v.periodAsset9,
        v.assetToSoldIntoAsset9,
    ));
    lemma_asset_group_fields(v.amountAsset9, v.addressAsset9, v.periodAsset9, v.assetToSoldIntoAsset9);
    assert(spec_portfolio_dec(e) =~= v);
}

impl Portfolio {
    /// The packed length of a portfolio descriptor.
    pub fn get_packed_len() -> (n: usize)
        ensures
            n == PORTFOLIO_LEN,
    {
        PORTFOLIO_LEN
    }

    /// A portfolio descriptor carries its lifecycle in the `is_initialize`
    /// byte, which callers check themselves.
    pub fn is_initialized(&self) -> (r: bool)
        ensures
            r == true,
    {
        true
    }

    /// Decodes a portfolio descriptor from its exactly sized buffer; every
    /// field is read verbatim, so decoding cannot fail.
    pub fn unpack_from_slice(src: &Vec<u8>) -> (r: Result<Portfolio, TokenError>)
        requires
            src.len() == PORTFOLIO_LEN,
        ensures
            r is Ok && r->Ok_0@ == spec_portfolio_dec(src@),
    {
        proof {
            reveal(spec_portfolio_dec);
        }
        let portfolio_account = read_key_at(src, 0);
        let creator_portfolio = read_key_at(src, 32);
        let metadataUrl = read_bytes_at(src, 64, 128);
        let metadataHash = read_u16_le(src, 192);
        let is_initialize = read_u8_at(src, 194);
        let amountAsset1 = read_u8_at(src, 195);
        let addressAsset1 = read_key_at(src, 196);
        let periodAsset1 = read_u8_at(src, 228);
        let assetToSoldIntoAsset1 = read_key_at(src, 229);
        let amountAsset2 = read_u8_at(src, 261);
        let addressAsset2 = read_key_at(src, 262);
        let periodAsset2 = read_u8_at(src, 294);
        let assetToSoldIntoAsset2 = read_key_at(src, 295);
        let amountAsset3 = read_u8_at(src, 327);
        let addressAsset3 = read_key_at(src, 328);
        let periodAsset3 = read_u8_at(src, 360);
        let assetToSoldIntoAsset3 = read_key_at(src, 361);
        let amountAsset4 = read_u8_at(src, 393);
        let addressAsset4 = read_key_at(src, 394);
        let periodAsset4 = read_u8_at(src, 426);
        let assetToSoldIntoAsset4 = read_key_at(src, 427);
        let amountAsset5 = read_u8_at(src, 459);
        let addressAsset5 = read_key_at(src, 460);
        let periodAsset5 = read_u8_at(src, 492);
        let assetToSoldIntoAsset5 = read_key_at(src, 493);
        let amountAsset6 = read_u8_at(src, 525);
        let addressAsset6 = read_key_at(src, 526);
        let periodAsset6 = read_u8_at(src, 558);
        let assetToSoldIntoAsset6 = read_key_at(src, 559);
        let amountAsset7 = read_u8_at(src, 591);
        let addressAsset7 = read_key_at(src, 592);
        let periodAsset7 = read_u8_at(src, 624);
        let assetToSoldIntoAsset7 = read_key_at(src, 625);
        let amountAsset8 = read_u8_at(src, 657);
        let addressAsset8 = read_key_at(src, 658);
        let periodAsset8 = read_u8_at(src, 690);
        let assetToSoldIntoAsset8 = read_key_at(src, 691);
        let amountAsset9 = read_u8_at(src, 723);
        let addressAsset9 = read_key_at(src, 724);
        let periodAsset9 = read_u8_at(src, 756);
        let assetToSoldIntoAsset9 = read_key_at(src, 757);
        let result = Portfolio {
            portfolio_account,
            creator_portfolio,
            metadataUrl,
            metadataHash,
            is_initialize,
                amountAsset1,
                addressAsset1,
                periodAsset1,
                assetToSoldIntoAsset1,
                amountAsset2,
                addressAsset2,
                periodAsset2,
                assetToSoldIntoAsset2,
                amountAsset3,
                addressAsset3,
                periodAsset3,
                assetToSoldIntoAsset3,
                amountAsset4,
                addressAsset4,
                periodAsset4,
                assetToSoldIntoAsset4,
                amountAsset5,
                addressAsset5,
                periodAsset5,
                assetToSoldIntoAsset5,
                amountAsset6,
                addressAsset6,
                periodAsset6,
                assetToSoldIntoAsset6,
                amountAsset7,
                addressAsset7,
                periodAsset7,
                assetToSoldIntoAsset7,
                amountAsset8,
                addressAsset8,
                periodAsset8,
                assetToSoldIntoAsset8,
                amountAsset9,
                addressAsset9,
                periodAsset9,
                assetToSoldIntoAsset9,
        };
        assert(result@ =~= spec_portfolio_dec(src@));
        Ok(result)
    }

    /// Decodes a portfolio descriptor, checking the buffer length.
    pub fn unpack_unchecked(src: &Vec<u8>) -> (r: Result<Portfolio, TokenError>)
        ensures
            match r {
                Ok(p) => spec_portfolio_unpack(src@) == Ok::<PortfolioView, TokenError>(p@),
                Err(e) => spec_portfolio_unpack(src@) == Err::<PortfolioView, TokenError>(e),
            },
    {
        if src.len() != PORTFOLIO_LEN {
            return Err(TokenError::InvalidAccountData);
        }
        Self::unpack_from_slice(src)
    }

    /// Decodes a portfolio descriptor; the length is the only check.
    pub fn unpack(src: &Vec<u8>) -> (r: Result<Portfolio, TokenError>)
        ensures
            match r {
                Ok(p) => spec_portfolio_unpack(src@) == Ok::<PortfolioView, TokenError>(p@),
                Err(e) => spec_portfolio_unpack(src@) == Err::<PortfolioView, TokenError>(e),
            },
    {
        Self::unpack_unchecked(src)
    }

    /// Encodes the record into its exactly sized buffer.
    pub fn pack_into_slice(&self, dst: &mut Vec<u8>)
        requires
            old(dst).len() == PORTFOLIO_LEN,
            self@.wf(),
        ensures
            final(dst).len() == PORTFOLIO_LEN,
            final(dst)@ == spec_portfolio_enc(self@),
    {
        proof {
            broadcast use lemma_asset_group_enc_len;
            reveal(spec_portfolio_enc);
        }
        write_key_at(dst, 0, &self.portfolio_account);
        write_key_at(dst, 32, &self.creator_portfolio);
        write_bytes_at(dst, 64, self.metadataUrl.as_slice());
        write_u16_le(dst, 192, self.metadataHash);
        write_u8_at(dst, 194, self.is_initialize);
        write_asset_group(dst, 195, self.amountAsset1, &self.addressAsset1, self.periodAsset1, &self.assetToSoldIntoAsset1);
        write_asset_group(dst, 261, self.amountAsset2, &self.addressAsset2, self.periodAsset2, &self.assetToSoldIntoAsset2);
        write_asset_group(dst, 327, self.amountAsset3, &self.addressAsset3, self.periodAsset3, &self.assetToSoldIntoAsset3);
        write_asset_group(dst, 393, self.amountAsset4, &self.addressAsset4, self.periodAsset4, &self.assetToSoldIntoAsset4);
        write_asset_group(dst, 459, self.amountAsset5, &self.addressAsset5, self.periodAsset5, &self.assetToSoldIntoAsset5);
        write_asset_group(dst, 525, self.amountAsset6, &self.addressAsset6, self.periodAsset6, &self.assetToSoldIntoAsset6);
        write_asset_group(dst, 591, self.amountAsset7, &self.addressAsset7, self.periodAsset7, &self.assetToSoldIntoAsset7);
        write_asset_group(dst, 657, self.amountAsset8, &self.addressAsset8, self.periodAsset8, &self.assetToSoldIntoAsset8);
        write_asset_group(dst, 723, self.amountAsset9, &self.addressAsset9, self.periodAsset9, &self.assetToSoldIntoAsset9);
        assert(dst@.subrange(0, 32) =~= self@.portfolio_account);
        assert(dst@.subrange(32, 64) =~= self@.creator_portfolio);
        assert(dst@.subrange(64, 192) =~= self@.metadataUrl);
        assert(dst@.subrange(192, 194) =~= spec_u16_to_le_bytes(self.metadataHash));
        assert(dst@[194] == self@.is_initialize);
        assert(dst@.subrange(195, 261) =~= spec_asset_group_enc(
            self@.amountAsset1,
            self@.addressAsset1,
            self@.periodAsset1,
            self@.assetToSoldIntoAsset1,
        ));
        assert(dst@.subrange(261, 327) =~= spec_asset_group_enc(
            self@.amountAsset2,
            self@.addressAsset2,
            self@.periodAsset2,
            self@.assetToSoldIntoAsset2,
        ));
        assert(dst@.subrange(327, 393) =~= spec_asset_group_enc(
            self@.amountAsset3,
            self@.addressAsset3,
            self@.periodAsset3,
            self@.assetToSoldIntoAsset3,
        ));
        assert(dst@.subrange(393, 459) =~= spec_asset_group_enc(
            self@.amountAsset4,
            self@.addressAsset4,
            self@.periodAsset4,
            self@.assetToSoldIntoAsset4,
        ));
        assert(dst@.subrange(459, 525) =~= spec_asset_group_enc(
            self@.amountAsset5,
            self@.addressAsset5,
            self@.periodAsset5,
            self@.assetToSoldIntoAsset5,
        ));
        assert(dst@.subrange(525, 591) =~= spec_asset_group_enc(
            self@.amountAsset6,
            self@.addressAsset6,
            self@.periodAsset6,
            self@.assetToSoldIntoAsset6,
        ));
        assert(dst@.subrange(591, 657) =~= spec_asset_group_enc(
            self@.amountAsset7,
            self@.addressAsset7,
            self@.periodAsset7,
            self@.assetToSoldIntoAsset7,
        ));
        assert(dst@.subrange(657, 723) =~= spec_asset_group_enc(
            self@.amountAsset8,
            self@.addressAsset8,
            self@.periodAsset8,
            self@.assetToSoldIntoAsset8,
        ));
        assert(dst@.subrange(723, 789) =~= spec_asset_group_enc(
            self@.amountAsset9,
            self@.addressAsset9,
            self@.periodAsset9,
            self@.assetToSoldIntoAsset9,
        ));
        assert(dst@ =~= spec_portfolio_enc(self@));
    }

    /// Encodes the record, first checking that the buffer has the packed length.
    pub fn pack(src: Portfolio, dst: &mut Vec<u8>) -> (r: Result<(), TokenError>)
        requires
            src@.wf(),
        ensures
            match r {
                Ok(()) => old(dst).len() == PORTFOLIO_LEN && final(dst)@ == spec_portfolio_enc(
                    src@,
                ),
                Err(e) => old(dst).len() != PORTFOLIO_LEN && final(dst)@ == old(dst)@ && e
                    == TokenError::InvalidAccountData,
            },
    {
        if dst.len() != PORTFOLIO_LEN {
            return Err(TokenError::InvalidAccountData);
        }
        src.pack_into_slice(dst);
        Ok(())
    }
}

/// Packed length of a user-portfolio descriptor.
pub const USER_PORTFOLIO_LEN: usize = 424;

/// Mathematical view of a user-portfolio descriptor.
#[verifier::ext_equal]
pub struct UserPortfolioView {
    /// Self-reference to the descriptor account.
    pub user_portfolio_account: Seq<u8>,
    /// The portfolio this user subscription belongs to.
    pub portfolio_address: Seq<u8>,
    /// The owner of this subscription.
    pub owner: Seq<u8>,
    /// The delegate authorized over `delegated_amount`.
    pub delegate: Seq<u8>,
    /// The amount delegated.
    pub delegated_amount: u64,
    /// Sub-account for the first asset.
    pub splu_asset1: Seq<u8>,
    /// Sub-account for the second asset.
    pub splu_asset2: Seq<u8>,
    /// Sub-account for the third asset.
    pub splu_asset3: Seq<u8>,
    /// Sub-account for the fourth asset.
    pub splu_asset4: Seq<u8>,
    /// Sub-account for the fifth asset.
    pub splu_asset5: Seq<u8>,
    /// Sub-account for the sixth asset.
    pub splu_asset6: Seq<u8>,
    /// Sub-account for the seventh asset.
    pub splu_asset7: Seq<u8>,
    /// Sub-account for the eighth asset.
    pub splu_asset8: Seq<u8>,
    /// Sub-account for the ninth asset.
    pub splu_asset9: Seq<u8>,
}

impl UserPortfolioView {
    /// Every key is exactly 32 bytes.
    pub open spec fn wf(self) -> bool {
        self.user_portfolio_account.len() == 32 && self.portfolio_address.len() == 32
            && self.owner.len() == 32 && self.delegate.len() == 32
            && self.splu_asset1.len() == 32
            && self.splu_asset2.len() == 32
            && self.splu_asset3.len() == 32
            && self.splu_asset4.len() == 32
            && self.splu_asset5.len() == 32
            && self.splu_asset6.len() == 32
            && self.splu_asset7.len() == 32
            && self.splu_asset8.len() == 32
            && self.splu_asset9.len() == 32
    }
}

/// User-portfolio descriptor record.
#[derive(Clone, Copy, Debug, PartialEq)]
pub struct UserPortfolio {
    /// Self-reference to the descriptor account.
    pub user_portfolio_account: Pubkey,
    /// The portfolio this user subscription belongs to.
    pub portfolio_address: Pubkey,
    /// The owner of this subscription.
    pub owner: Pubkey,
    /// The delegate authorized over `delegated_amount`.
    pub delegate: Pubkey,
    /// The amount delegated.
    pub delegated_amount: u64,
    /// Sub-account for the first asset.
    pub splu_asset1: Pubkey,
    /// Sub-account for the second asset.
    pub splu_asset2: Pubkey,
    /// Sub-account for the third asset.
    pub splu_asset3: Pubkey,
    /// Sub-account for the fourth asset.
    pub splu_asset4: Pubkey,
    /// Sub-account for the fifth asset.
    pub splu_asset5: Pubkey,
    /// Sub-account for the sixth asset.
    pub splu_asset6: Pubkey,
    /// Sub-account for the seventh asset.
    pub splu_asset7: Pubkey,
    /// Sub-account for the eighth asset.
    pub splu_asset8: Pubkey,
    /// Sub-account for the ninth asset.
    pub splu_asset9: Pubkey,
}

impl View for UserPortfolio {
    type V = UserPortfolioView;

    open spec fn view(&self) -> UserPortfolioView {
        UserPortfolioView {
            user_portfolio_account: self.user_portfolio_account@,
            portfolio_address: self.portfolio_address@,
            owner: self.owner@,
            delegate: self.delegate@,
            delegated_amount: self.delegated_amount,
            splu_asset1: self.splu_asset1@,
            splu_asset2: self.splu_asset2@,
            splu_asset3: self.splu_asset3@,
            splu_asset4: self.splu_asset4@,
            splu_asset5: self.splu_asset5@,
            splu_asset6: self.splu_asset6@,
            splu_asset7: self.splu_asset7@,
            splu_asset8: self.splu_asset8@,
            splu_asset9: self.splu_asset9@,
        }
    }
}

/// Byte encoding of a user-portfolio descriptor; it has no optional fields,
/// so it does not depend on the previous buffer contents.
#[verifier::opaque]
pub open spec fn spec_user_portfolio_enc(v: UserPortfolioView) -> Seq<u8> {
    v.user_portfolio_account + v.portfolio_address + v.owner + v.delegate + spec_u64_to_le_bytes(
        v.delegated_amount,
    )
        + v.splu_asset1
        + v.splu_asset2
        + v.splu_asset3
        + v.splu_asset4
        + v.splu_asset5
        + v.splu_asset6
        + v.splu_asset7
        + v.splu_asset8
        + v.splu_asset9
}

/// Byte decoding of a user-portfolio descriptor; every field is read
/// verbatim, so decoding is total.
#[verifier::opaque]
pub open spec fn spec_user_portfolio_dec(s: Seq<u8>) -> UserPortfolioView
    recommends
        s.len() == USER_PORTFOLIO_LEN,
{
    UserPortfolioView {
        user_portfolio_account: s.subrange(0, 32),
        portfolio_address: s.subrange(32, 64),
        owner: s.subrange(64, 96),
        delegate: s.subrange(96, 128),
        delegated_amount: spec_u64_from_le_bytes(s.subrange(128, 136)),
        splu_asset1: s.subrange(136, 168),
        splu_asset2: s.subrange(168, 200),
        splu_asset3: s.subrange(200, 232),
        splu_asset4: s.subrange(232, 264),
        splu_asset5: s.subrange(264, 296),
        splu_asset6: s.subrange(296, 328),
        splu_asset7: s.subrange(328, 360),
        splu_asset8: s.subrange(360, 392),
        splu_asset9: s.subrange(392, 424),
    }
}

/// What unpacking a user-portfolio buffer yields; only the length is checked.
pub open spec fn spec_user_portfolio_unpack(s: Seq<u8>) -> Result<UserPortfolioView, TokenError> {
    if s.len() != USER_PORTFOLIO_LEN {
        Err(TokenError::InvalidAccountData)
    } else {
        Ok(spec_user_portfolio_dec(s))
    }
}

/// Decoding an encoded user-portfolio descriptor yields the record back.
pub proof fn lemma_user_portfolio_round_trip(v: UserPortfolioView)
    requires
        v.wf(),
    ensures
        spec_user_portfolio_enc(v).len() == USER_PORTFOLIO_LEN,
        spec_user_portfolio_dec(spec_user_portfolio_enc(v)) == v,
{
    reveal(spec_user_portfolio_enc);
    reveal(spec_user_portfolio_dec);
    let e = spec_user_portfolio_enc(v);
    lemma_u64_le_round_trip(v.delegated_amount);
    assert(e.len() == USER_PORTFOLIO_LEN);
    assert(e.subrange(0, 32) =~= v.user_portfolio_account);
    assert(e.subrange(32, 64) =~= v.portfolio_address);
    assert(e.subrange(64, 96) =~= v.owner);
    assert(e.subrange(96, 128) =~= v.delegate);
    assert(e.subrange(128, 136) =~= spec_u64_to_le_bytes(v.delegated_amount));
    assert(e.subrange(136, 168) =~= v.splu_asset1);
    assert(e.subrange(168, 200) =~= v.splu_asset2);
    assert(e.subrange(200, 232) =~= v.splu_asset3);
    assert(e.subrange(232, 264) =~= v.splu_asset4);
    assert(e.subrange(264, 296) =~= v.splu_asset5);
    assert(e.subrange(296, 328) =~= v.splu_asset6);
    assert(e.subrange(328, 360) =~= v.splu_asset7);
    assert(e.subrange(360, 392) =~= v.splu_asset8);
    assert(e.subrange(392, 424) =~= v.splu_asset9);
    assert(spec_user_portfolio_dec(e) =~= v);
}

impl UserPortfolio {
    /// The packed length of a user-portfolio descriptor.
    pub fn get_packed_len() -> (n: usize)
        ensures
            n == USER_PORTFOLIO_LEN,
    {
        USER_PORTFOLIO_LEN
    }

    /// A user-portfolio descriptor carries no lifecycle flag.
    pub fn is_initialized(&self) -> (r: bool)
        ensures
            r == true,
    {
        true
    }

    /// Decodes a user-portfolio descriptor from its exactly sized buffer;
    /// every field is read verbatim, so decoding cannot fail.
    pub fn unpack_from_slice(src: &Vec<u8>) -> (r: Result<UserPortfolio, TokenError>)
        requires
            src.len() == USER_PORTFOLIO_LEN,
        ensures
            r is Ok && r->Ok_0@ == spec_user_portfolio_dec(src@),
    {
        proof {
            reveal(spec_user_portfolio_dec);
        }
        let user_portfolio_account = read_key_at(src, 0);
        let portfolio_address = read_key_at(src, 32);
        let owner = read_key_at(src, 64);
        let delegate = read_key_at(src, 96);
        let delegated_amount = read_u64_le(src, 128);
        let splu_asset1 = read_key_at(src, 136);
        let splu_asset2 = read_key_at(src, 168);
        let splu_asset3 = read_key_at(src, 200);
        let splu_asset4 = read_key_at(src, 232);
        let splu_asset5 = read_key_at(src, 264);
        let splu_asset6 = read_key_at(src, 296);
        let splu_asset7 = read_key_at(src, 328);
        let splu_asset8 = read_key_at(src, 360);
        let splu_asset9 = read_key_at(src, 392);
        let result = UserPortfolio {
            user_portfolio_account,
            portfolio_address,
            owner,
            delegate,
            delegated_amount,
            splu_asset1,
            splu_asset2,
            splu_asset3,
            splu_asset4,
            splu_asset5,
            splu_asset6,
            splu_asset7,
            splu_asset8,
            splu_asset9,
        };
        assert(result@ =~= spec_user_portfolio_dec(src@));
        Ok(result)
    }

    /// Decodes a user-portfolio descriptor, checking the buffer length.
    pub fn unpack_unchecked(src: &Vec<u8>) -> (r: Result<UserPortfolio, TokenError>)
        ensures
            match r {
                Ok(p) => spec_user_portfolio_unpack(src@) == Ok::<UserPortfolioView, TokenError>(
                    p@,
                ),
                Err(e) => spec_user_portfolio_unpack(src@) == Err::<
                    UserPortfolioView,
                    TokenError,
                >(e),
            },
    {
        if src.len() != USER_PORTFOLIO_LEN {
            return Err(TokenError::InvalidAccountData);
        }
        Self::unpack_from_slice(src)
    }

    /// Decodes a user-portfolio descriptor; the length is the only check.
    pub fn unpack(src: &Vec<u8>) -> (r: Result<UserPortfolio, TokenError>)
        ensures
            match r {
                Ok(p) => spec_user_portfolio_unpack(src@) == Ok::<UserPortfolioView, TokenError>(
                    p@,
                ),
                Err(e) => spec_user_portfolio_unpack(src@) == Err::<
                    UserPortfolioView,
                    TokenError,
                >(e),
            },
    {
        Self::unpack_unchecked(src)
    }

    /// Encodes the record into its exactly sized buffer.
    pub fn pack_into_slice(&self, dst: &mut Vec<u8>)
        requires
            old(dst).len() == USER_PORTFOLIO_LEN,
        ensures
            final(dst).len() == USER_PORTFOLIO_LEN,
            final(dst)@ == spec_user_portfolio_enc(self@),
    {
        proof {
            reveal(spec_user_portfolio_enc);
        }
        write_key_at(dst, 0, &self.user_portfolio_account);
        write_key_at(dst, 32, &self.portfolio_address);
        write_key_at(dst, 64, &self.owner);
        write_key_at(dst, 96, &self.delegate);
        write_u64_le(dst, 128, self.delegated_amount);
        write_key_at(dst, 136, &self.splu_asset1);
        write_key_at(dst, 168, &self.splu_asset2);
        write_key_at(dst, 200, &self.splu_asset3);
        write_key_at(dst, 232, &self.splu_asset4);
        write_key_at(dst, 264, &self.splu_asset5);
        write_key_at(dst, 296, &self.splu_asset6);
        write_key_at(dst, 328, &self.splu_asset7);
        write_key_at(dst, 360, &self.splu_asset8);
        write_key_at(dst, 392, &self.splu_asset9);
        assert(dst@.subrange(0, 32) =~= self@.user_portfolio_account);
        assert(dst@.subrange(32, 64) =~= self@.portfolio_address);
        assert(dst@.subrange(64, 96) =~= self@.owner);
        assert(dst@.subrange(96, 128) =~= self@.delegate);
        assert(dst@.subrange(128, 136) =~= spec_u64_to_le_bytes(self.delegated_amount));
        assert(dst@.subrange(136, 168) =~= self@.splu_asset1);
        assert(dst@.subrange(168, 200) =~= self@.splu_asset2);
        assert(dst@.subrange(200, 232) =~= self@.splu_asset3);
        assert(dst@.subrange(232, 264) =~= self@.splu_asset4);
        assert(dst@.subrange(264, 296) =~= self@.splu_asset5);
        assert(dst@.subrange(296, 328) =~= self@.splu_asset6);
        assert(dst@.subrange(328, 360) =~= self@.splu_asset7);
        assert(dst@.subrange(360, 392) =~= self@.splu_asset8);
        assert(dst@.subrange(392, 424) =~= self@.splu_asset9);
        assert(dst@ =~= spec_user_portfolio_enc(self@));
    }

    /// Encodes the record, first checking that the buffer has the packed length.
    pub fn pack(src: UserPortfolio, dst: &mut Vec<u8>) -> (r: Result<(), TokenError>)
        ensures
            match r {
                Ok(()) => old(dst).len() == USER_PORTFOLIO_LEN && final(dst)@
                    == spec_user_portfolio_enc(src@),
                Err(e) => old(dst).len() != USER_PORTFOLIO_LEN && final(dst)@ == old(dst)@ && e
                    == TokenError::InvalidAccountData,
            },
    {
        if dst.len() != USER_PORTFOLIO_LEN {
            return Err(TokenError::InvalidAccountData);
        }
        src.pack_into_slice(dst);
        Ok(())
    }
}

/// A successfully decoded mint record is well formed: every present key is
/// 32 bytes.
pub broadcast proof fn lemma_mint_unpack_wf(s: Seq<u8>)
    ensures
        (#[trigger] spec_mint_unpack_unchecked(s)) is Ok ==> spec_mint_unpack_unchecked(
            s,
        )->Ok_0.wf(),
        (#[trigger] spec_mint_unpack(s)) is Ok ==> spec_mint_unpack(s)->Ok_0.wf(),
{
    reveal(spec_mint_dec);
}

/// A successfully decoded balance account is well formed: every key is 32
/// bytes.
pub broadcast proof fn lemma_account_unpack_wf(s: Seq<u8>)
    ensures
        (#[trigger] spec_account_unpack_unchecked(s)) is Ok ==> spec_account_unpack_unchecked(
            s,
        )->Ok_0.wf(),
        (#[trigger] spec_account_unpack(s)) is Ok ==> spec_account_unpack(s)->Ok_0.wf(),
{
    reveal(spec_account_dec);
}

/// A successfully decoded multisignature descriptor is well formed: eleven
/// slots of 32 bytes each.
pub broadcast proof fn lemma_multisig_unpack_wf(s: Seq<u8>)
    ensures
        (#[trigger] spec_multisig_unpack_unchecked(s)) is Ok ==> spec_multisig_unpack_unchecked(
            s,
        )->Ok_0.wf(),
        (#[trigger] spec_multisig_unpack(s)) is Ok ==> spec_multisig_unpack(s)->Ok_0.wf(),
{
    reveal(spec_multisig_dec);
}

} // verus!