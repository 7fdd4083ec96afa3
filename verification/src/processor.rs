//! The per-instruction state machine over host-supplied account handles.
//!
//! The host hands every invocation a program identity, an ordered list of
//! account handles (key, signer and writable flags, owning-program identity,
//! lamport balance, and the record's backing buffer), and the raw instruction
//! bytes. Each handler decodes the records it needs, asks the authorization
//! rules whether the presented signers satisfy the record's authority,
//! applies the mutation under checked arithmetic, and re-encodes the records.
//! On any failure the handle list is left exactly as it was.
//!
//! Rent exemption is the host's judgement: callers pass the host-computed
//! minimum balance for the record being created, and a record is rent exempt
//! when its handle holds at least that many lamports.

use vstd::prelude::*;
use crate::error::TokenError;
use crate::instruction::{AuthorityType, TokenInstruction, TokenInstructionView, MAX_SIGNERS};
use crate::key::{key_eq, Pubkey, NATIVE_MINT};
use crate::state::{Account, AccountState, AccountView, Mint, MintView, Multisig, MultisigView,
    Portfolio, PortfolioView, UserPortfolio, UserPortfolioView, spec_account_enc,
    spec_account_unpack, spec_account_unpack_unchecked, spec_mint_enc, spec_mint_unpack,
    spec_mint_unpack_unchecked, spec_multisig_enc, spec_multisig_unpack,
    spec_multisig_unpack_unchecked, spec_portfolio_enc, spec_portfolio_unpack,
    spec_user_portfolio_enc, spec_user_portfolio_unpack, ACCOUNT_LEN, MINT_LEN, MULTISIG_LEN};

verus! {

broadcast use
    crate::bytesutil::group_codec_lens,
    crate::state::lemma_mint_unpack_wf,
    crate::state::lemma_account_unpack_wf,
    crate::state::lemma_multisig_unpack_wf;

/// Mathematical view of an account handle.
#[verifier::ext_equal]
pub struct HandleView {
    /// The handle's public key.
    pub key: Seq<u8>,
    /// Whether the holder of this key signed the invocation.
    pub is_signer: bool,
    /// Whether the host granted write access to this handle.
    pub is_writable: bool,
    /// The identity of the program that owns the handle's buffer.
    pub owner: Seq<u8>,
    /// The handle's balance of external (native) currency.
    pub lamports: u64,
    /// The record's backing buffer.
    pub data: Seq<u8>,
}

/// A host-supplied account handle: a record's backing buffer together with
/// the metadata the host attests about it.
pub struct AccountHandle {
    /// The handle's public key.
    pub key: Pubkey,
    /// Whether the holder of this key signed the invocation.
    pub is_signer: bool,
    /// Whether the host granted write access to this handle.
    pub is_writable: bool,
    /// The identity of the program that owns the handle's buffer.
    pub owner: Pubkey,
    /// The handle's balance of external (native) currency.
    pub lamports: u64,
    /// The record's backing buffer.
    pub data: Vec<u8>,
}

impl View for AccountHandle {
    type V = HandleView;

    open spec fn view(&self) -> HandleView {
        HandleView {
            key: self.key@,
            is_signer: self.is_signer,
            is_writable: self.is_writable,
            owner: self.owner@,
            lamports: self.lamports,
            data: self.data@,
        }
    }
}

/// The views of a sequence of handles.
pub open spec fn handles(accounts: Seq<AccountHandle>) -> Seq<HandleView> {
    Seq::new(accounts.len(), |i: int| accounts[i]@)
}

/// How many entries of `m` are set.
pub open spec fn count_true(m: Seq<bool>) -> int
    decreases m.len(),
{
    if m.len() == 0 {
        0
    } else {
        (if m[0] {
            1int
        } else {
            0int
        }) + count_true(m.skip(1))
    }
}

/// Setting an unset entry raises the count by one.
pub proof fn lemma_count_true_update(m: Seq<bool>, i: int)
    requires
        0 <= i < m.len(),
        !m[i],
    ensures
        count_true(m.update(i, true)) == count_true(m) + 1,
    decreases i,
{
    if i == 0 {
        assert(m.update(0, true).skip(1) =~= m.skip(1));
    } else {
        assert(m.update(i, true).skip(1) =~= m.skip(1).update(i - 1, true));
        lemma_count_true_update(m.skip(1), i - 1);
    }
}

/// A sequence with no entry set has count zero.
pub proof fn lemma_count_true_zero(m: Seq<bool>)
    requires
        forall|j: int| 0 <= j < m.len() ==> !m[j],
    ensures
        count_true(m) == 0,
    decreases m.len(),
{
    if m.len() > 0 {
        lemma_count_true_zero(m.skip(1));
    }
}

/// The count is between zero and the length.
pub proof fn lemma_count_true_bound(m: Seq<bool>)
    ensures
        0 <= count_true(m) <= m.len(),
    decreases m.len(),
{
    if m.len() > 0 {
        lemma_count_true_bound(m.skip(1));
    }
}

/// One pass of a single presented handle over the signer slots from `pos`
/// on: each unmatched slot whose key equals the handle's key is matched,
/// provided the handle signed; a handle that did not sign but matches an
/// unmatched slot fails the whole check (`None`). Returns the updated match
/// flags and the number of slots newly matched.
pub open spec fn spec_match_handle(slots: Seq<Seq<u8>>, matched: Seq<bool>, h: HandleView, pos: int)
    -> Option<(Seq<bool>, int)>
    recommends
        matched.len() == slots.len(),
        0 <= pos,
    decreases slots.len() - pos,
{
    if pos < 0 || pos >= slots.len() {
        Some((matched, 0))
    } else if slots[pos] == h.key && !matched[pos] {
        if !h.is_signer {
            None
        } else {
            match spec_match_handle(slots, matched.update(pos, true), h, pos + 1) {
                None => None,
                Some((m2, c)) => Some((m2, c + 1)),
            }
        }
    } else {
        spec_match_handle(slots, matched, h, pos + 1)
    }
}

/// A successful pass keeps the flag count consistent: the new count is the
/// old one plus the slots gained, no flag is ever cleared, and the length is
/// kept.
pub proof fn lemma_match_handle_count(slots: Seq<Seq<u8>>, matched: Seq<bool>, h: HandleView,
    pos: int)
    requires
        matched.len() == slots.len(),
        0 <= pos,
    ensures
        match spec_match_handle(slots, matched, h, pos) {
            None => true,
            Some((m2, c)) => m2.len() == matched.len() && c >= 0 && count_true(m2) == count_true(
                matched,
            ) + c,
        },
    decreases slots.len() - pos,
{
    if pos >= slots.len() {
    } else if slots[pos] == h.key && !matched[pos] {
        if h.is_signer {
            lemma_count_true_update(matched, pos);
            lemma_match_handle_count(slots, matched.update(pos, true), h, pos + 1);
        }
    } else {
        lemma_match_handle_count(slots, matched, h, pos + 1);
    }
}

/// Scans the presented handles from index `i` on, threading the match flags
/// through `spec_match_handle`; returns the final flags and the total number
/// of slots matched, or `None` when some matching handle did not sign.
pub open spec fn spec_quorum_scan(slots: Seq<Seq<u8>>, matched: Seq<bool>,
    signers: Seq<HandleView>, i: int) -> Option<(Seq<bool>, int)>
    recommends
        matched.len() == slots.len(),
        0 <= i,
    decreases signers.len() - i,
{
    if i < 0 || i >= signers.len() {
        Some((matched, 0))
    } else {
        match spec_match_handle(slots, matched, signers[i], 0) {
            None => None,
            Some((m2, c)) => match spec_quorum_scan(slots, m2, signers, i + 1) {
                None => None,
                Some((m3, c2)) => Some((m3, c + c2)),
            },
        }
    }
}

/// A successful scan keeps the flag count consistent with the total gained.
pub proof fn lemma_quorum_scan_count(slots: Seq<Seq<u8>>, matched: Seq<bool>,
    signers: Seq<HandleView>, i: int)
    requires
        matched.len() == slots.len(),
        0 <= i,
    ensures
        match spec_quorum_scan(slots, matched, signers, i) {
            None => true,
            Some((m3, c)) => m3.len() == matched.len() && c >= 0 && count_true(m3) == count_true(
                matched,
            ) + c,
        },
    decreases signers.len() - i,
{
    if i < signers.len() {
        lemma_match_handle_count(slots, matched, signers[i], 0);
        match spec_match_handle(slots, matched, signers[i], 0) {
            None => {}
            Some((m2, c)) => {
                lemma_quorum_scan_count(slots, m2, signers, i + 1);
            }
        }
    }
}

/// A sequence of `n` cleared match flags.
pub open spec fn all_false(n: nat) -> Seq<bool> {
    Seq::new(n, |i: int| false)
}

/// The slots of a multisignature descriptor that quorum checking walks: the
/// first `n` registered keys, bounded by the eleven stored slots.
pub open spec fn spec_quorum_slots(ms: MultisigView) -> Seq<Seq<u8>> {
    ms.signers.take(if ms.n as int <= MAX_SIGNERS as int {
        ms.n as int
    } else {
        MAX_SIGNERS as int
    })
}

/// Multisignature quorum checking: every presented handle is matched against
/// the not-yet-matched slots; a matching handle that did not sign fails, and
/// at least `m` distinct slots must end up matched.
pub open spec fn spec_validate_multisig(ms: MultisigView, signers: Seq<HandleView>) -> Result<
    (),
    TokenError,
> {
    let slots = spec_quorum_slots(ms);
    match spec_quorum_scan(slots, all_false(slots.len()), signers, 0) {
        None => Err(TokenError::MissingRequiredSignature),
        Some((mf, c)) => if c >= ms.m as int {
            Ok(())
        } else {
            Err(TokenError::MissingRequiredSignature)
        },
    }
}

/// The single authorization rule of the ledger. The presented handle's key
/// must equal the expected owner. If the handle's buffer belongs to this
/// program and has the multisignature layout, it is decoded and quorum
/// checking runs over the presented signer handles; otherwise the handle
/// itself must have signed.
pub open spec fn spec_validate_owner(program_id: Seq<u8>, expected_owner: Seq<u8>,
    owner_acct: HandleView, signers: Seq<HandleView>) -> Result<(), TokenError> {
    if expected_owner != owner_acct.key {
        Err(TokenError::OwnerMismatch)
    } else if program_id == owner_acct.owner && owner_acct.data.len() == MULTISIG_LEN {
        match spec_multisig_unpack(owner_acct.data) {
            Err(e) => Err(e),
            Ok(ms) => spec_validate_multisig(ms, signers),
        }
    } else if !owner_acct.is_signer {
        Err(TokenError::MissingRequiredSignature)
    } else {
        Ok(())
    }
}


/// The handle `h` with its backing buffer replaced by `d`.
pub open spec fn with_data(h: HandleView, d: Seq<u8>) -> HandleView {
    HandleView { data: d, ..h }
}

/// The handle `h` with its lamport balance replaced by `l`.
pub open spec fn with_lamports(h: HandleView, l: u64) -> HandleView {
    HandleView { lamports: l, ..h }
}

/// What initializing an asset class does: the target buffer (handle 0; handle
/// 1 is the host's rent sysvar) must decode as a mint record that is not yet
/// initialized and must be rent exempt; its authority, decimals and optional
/// keys are populated, the initialized flag is set, and the record is
/// re-encoded. A buffer that does not decode is reported as
/// `InvalidAccountData` rather than aborting the process.
pub open spec fn spec_process_initialize_mint(accounts: Seq<HandleView>, decimals: u8,
    mint_authority: Seq<u8>, freeze_authority: Option<Seq<u8>>, mint_id_asset: Option<Seq<u8>>,
    pubkey_swap: Option<Seq<u8>>, rent_minimum_balance: u64) -> Result<Seq<HandleView>, TokenError> {
    if accounts.len() < 2 {
        Err(TokenError::NotEnoughAccountKeys)
    } else {
        let mint_info = accounts[0];
        match spec_mint_unpack_unchecked(mint_info.data) {
            Err(e) => Err(e),
            Ok(mint) => if mint.is_initialized {
                Err(TokenError::AlreadyInUse)
            } else if mint_info.lamports < rent_minimum_balance {
                Err(TokenError::NotRentExempt)
            } else {
                let new_mint = MintView {
                    mint_authority: Some(mint_authority),
                    supply: mint.supply,
                    decimals,
                    is_initialized: true,
                    freeze_authority,
                    mint_id_asset,
                    pubkey_swap,
                };
                Ok(accounts.update(0, with_data(mint_info, spec_mint_enc(new_mint, mint_info.data))))
            },
        }
    }
}


/// What initializing a balance account does: handle 0 is the account to
/// initialize, handle 1 the asset class it will belong to, then the owner
/// handle when the owner key is not supplied directly, then the host's rent
/// sysvar. The record must not be initialized yet and must be rent exempt;
/// unless the asset class is the native-currency sentinel it must decode as
/// an initialized mint. A native-wrapper account starts with the lamports
/// beyond the rent-exempt reserve as its amount; any other account starts at
/// zero.
pub open spec fn spec_process_initialize_account(accounts: Seq<HandleView>,
    owner: Option<Seq<u8>>, rent_minimum_balance: u64) -> Result<Seq<HandleView>, TokenError> {
    let needed: int = if owner is Some {
        3
    } else {
        4
    };
    if accounts.len() < needed {
        Err(TokenError::NotEnoughAccountKeys)
    } else {
        let new_account_info = accounts[0];
        let mint_info = accounts[1];
        let owner_key = match owner {
            Some(k) => k,
            None => accounts[2].key,
        };
        match spec_account_unpack_unchecked(new_account_info.data) {
            Err(e) => Err(e),
            Ok(account) => if account.state != AccountState::Uninitialized {
                Err(TokenError::AlreadyInUse)
            } else if new_account_info.lamports < rent_minimum_balance {
                Err(TokenError::NotRentExempt)
            } else if mint_info.key != NATIVE_MINT@ && spec_mint_unpack(mint_info.data) is Err {
                Err(TokenError::InvalidMint)
            } else {
                let native = mint_info.key == NATIVE_MINT@;
                let new_account = AccountView {
                    mint: mint_info.key,
                    owner: owner_key,
                    amount: if native {
                        (new_account_info.lamports - rent_minimum_balance) as u64
                    } else {
                        0u64
                    },
                    delegate: None,
                    state: AccountState::Initialized,
                    is_native: if native {
                        Some(rent_minimum_balance)
                    } else {
                        None
                    },
                    delegated_amount: 0u64,
                    close_authority: account.close_authority,
                    asset: 0u64,
                    usdc: 0u64,
                };
                Ok(
                    accounts.update(
                        0,
                        with_data(
                            new_account_info,
                            spec_account_enc(new_account, new_account_info.data),
                        ),
                    ),
                )
            },
        }
    }
}

/// What initializing a multisignature descriptor does: handle 0 is the
/// descriptor, handle 1 the host's rent sysvar, and every further handle a
/// registered signer. The record must not be initialized yet and must be
/// rent exempt; both the signer count and the required count must lie
/// between one and eleven, and the required count cannot exceed the signer
/// count. The signer keys fill the first slots; the remaining slots keep the
/// bytes the buffer already held.
pub open spec fn spec_process_initialize_multisig(accounts: Seq<HandleView>, m: u8,
    rent_minimum_balance: u64) -> Result<Seq<HandleView>, TokenError> {
    if accounts.len() < 2 {
        Err(TokenError::NotEnoughAccountKeys)
    } else {
        let multisig_info = accounts[0];
        let n = accounts.len() - 2;
        match spec_multisig_unpack_unchecked(multisig_info.data) {
            Err(e) => Err(e),
            Ok(ms) => if ms.is_initialized {
                Err(TokenError::AlreadyInUse)
            } else if multisig_info.lamports < rent_minimum_balance {
                Err(TokenError::NotRentExempt)
            } else if !(1 <= n <= MAX_SIGNERS) {
                Err(TokenError::InvalidNumberOfProvidedSigners)
            } else if !(1 <= m <= MAX_SIGNERS) || m as int > n {
                Err(TokenError::InvalidNumberOfRequiredSigners)
            } else {
                let new_ms = MultisigView {
                    m,
                    n: n as u8,
                    is_initialized: true,
                    signers: Seq::new(
                        MAX_SIGNERS as nat,
                        |i: int|
                            if i < n {
                                accounts[2 + i].key
                            } else {
                                ms.signers[i]
                            },
                    ),
                };
                Ok(accounts.update(0, with_data(multisig_info, spec_multisig_enc(new_ms))))
            },
        }
    }
}


/// The delegate-or-owner authorization step of a transfer or burn: when the
/// presented authority equals the record's delegate, the delegate must be
/// validated and must hold a sufficient allowance, which is reduced (the
/// delegate is cleared when the allowance reaches zero); otherwise the
/// record's owner must be validated. A self-transfer leaves the allowance
/// untouched.
pub open spec fn spec_authorize_spender(program_id: Seq<u8>, source: AccountView,
    authority_info: HandleView, signers: Seq<HandleView>, amount: u64, self_transfer: bool)
    -> Result<AccountView, TokenError> {
    match source.delegate {
        Some(d) if authority_info.key == d => match spec_validate_owner(
            program_id,
            d,
            authority_info,
            signers,
        ) {
            Err(e) => Err(e),
            Ok(()) => if source.delegated_amount < amount {
                Err(TokenError::InsufficientFunds)
            } else if !self_transfer {
                let new_da = (source.delegated_amount - amount) as u64;
                Ok(
                    AccountView {
                        delegated_amount: new_da,
                        delegate: if new_da == 0 {
                            None
                        } else {
                            source.delegate
                        },
                        ..source
                    },
                )
            } else {
                Ok(source)
            },
        },
        _ => match spec_validate_owner(program_id, source.owner, authority_info, signers) {
            Err(e) => Err(e),
            Ok(()) => Ok(source),
        },
    }
}

/// The proportional sub-balance ratio of a transfer or withdrawal: the moved
/// share of the primary balance, in percent, rounded down. Fails when the
/// percentage computation overflows or the balance is zero.
pub open spec fn spec_ratio(amount: u64, balance: u64) -> Result<u64, TokenError> {
    if amount * 100 > u64::MAX {
        Err(TokenError::Overflow)
    } else if balance == 0 {
        Err(TokenError::Overflow)
    } else {
        Ok(((amount * 100) / (balance as int)) as u64)
    }
}

/// The share of a sub-balance moved by a transfer or withdrawal: the
/// sub-balance times the percentage ratio, divided by one hundred. Fails
/// when the product overflows.
pub open spec fn spec_sub_balance_share(sub: u64, value: u64) -> Result<u64, TokenError> {
    if sub * value > u64::MAX {
        Err(TokenError::Overflow)
    } else {
        Ok(((sub * value) / 100) as u64)
    }
}

/// What a transfer does once the source, destination and (for the checked
/// variant) asset class have been decoded and validated and the spender
/// authorized: the amount moves between the primary balances, the usdc and
/// asset sub-balances move in proportion to the share of the source balance
/// transferred, and a native wrapper moves the same amount of lamports; all
/// arithmetic is checked.
pub open spec fn spec_transfer_amounts(source: AccountView, dest: AccountView,
    source_info: HandleView, dest_info: HandleView, amount: u64) -> Result<
    (AccountView, AccountView, u64, u64),
    TokenError,
> {
    match spec_ratio(amount, source.amount) {
        Err(e) => Err(e),
        Ok(value) => match spec_sub_balance_share(source.usdc, value) {
            Err(e) => Err(e),
            Ok(usdc_moved) => match spec_sub_balance_share(source.asset, value) {
                Err(e) => Err(e),
                Ok(asset_moved) => if source.amount < amount {
                    Err(TokenError::Overflow)
                } else if dest.amount + amount > u64::MAX {
                    Err(TokenError::Overflow)
                } else if source.usdc < usdc_moved {
                    Err(TokenError::Overflow)
                } else if dest.usdc + usdc_moved > u64::MAX {
                    Err(TokenError::Overflow)
                } else if source.asset < asset_moved {
                    Err(TokenError::Overflow)
                } else if dest.asset + asset_moved > u64::MAX {
                    Err(TokenError::Overflow)
                } else if source.is_native() && source_info.lamports < amount {
                    Err(TokenError::Overflow)
                } else if source.is_native() && dest_info.lamports + amount > u64::MAX {
                    Err(TokenError::Overflow)
                } else {
                    let new_source = AccountView {
                        amount: (source.amount - amount) as u64,
                        usdc: (source.usdc - usdc_moved) as u64,
                        asset: (source.asset - asset_moved) as u64,
                        ..source
                    };
                    let new_dest = AccountView {
                        amount: (dest.amount + amount) as u64,
                        usdc: (dest.usdc + usdc_moved) as u64,
                        asset: (dest.asset + asset_moved) as u64,
                        ..dest
                    };
                    let src_lamports = if source.is_native() {
                        (source_info.lamports - amount) as u64
                    } else {
                        source_info.lamports
                    };
                    let dst_lamports = if source.is_native() {
                        (dest_info.lamports + amount) as u64
                    } else {
                        dest_info.lamports
                    };
                    Ok((new_source, new_dest, src_lamports, dst_lamports))
                },
            },
        },
    }
}

/// What a transfer does. Handles: source, then (checked variant only) the
/// asset class, then destination, then the owner or delegate, then the
/// presented signers. Both balance accounts must decode and be unfrozen and
/// of one asset class; the source must hold the amount; the checked variant
/// pins the asset class key and decimals; the spender is authorized as owner
/// or delegate; a transfer onto the same handle key is validated in full but
/// moves nothing.
pub open spec fn spec_process_transfer(program_id: Seq<u8>, accounts: Seq<HandleView>,
    amount: u64, expected_decimals: Option<u8>) -> Result<Seq<HandleView>, TokenError> {
    let needed: int = if expected_decimals is Some {
        4
    } else {
        3
    };
    if accounts.len() < needed {
        Err(TokenError::NotEnoughAccountKeys)
    } else {
        let dst_i: int = if expected_decimals is Some {
            2
        } else {
            1
        };
        let auth_i: int = dst_i + 1;
        let source_info = accounts[0];
        let dest_info = accounts[dst_i];
        let authority_info = accounts[auth_i];
        let signers = accounts.skip(auth_i + 1);
        match spec_account_unpack(source_info.data) {
            Err(e) => Err(e),
            Ok(source) => match spec_account_unpack(dest_info.data) {
                Err(e) => Err(e),
                Ok(dest) => if source.is_frozen() || dest.is_frozen() {
                    Err(TokenError::AccountFrozen)
                } else if source.amount < amount {
                    Err(TokenError::InsufficientFunds)
                } else if source.mint != dest.mint {
                    Err(TokenError::MintMismatch)
                } else {
                    let mint_check: Result<(), TokenError> = match expected_decimals {
                        None => Ok(()),
                        Some(d) => if source.mint != accounts[1].key {
                            Err(TokenError::MintMismatch)
                        } else {
                            match spec_mint_unpack(accounts[1].data) {
                                Err(e) => Err(e),
                                Ok(mint) => if d != mint.decimals {
                                    Err(TokenError::MintDecimalsMismatch)
                                } else {
                                    Ok(())
                                },
                            }
                        },
                    };
                    match mint_check {
                        Err(e) => Err(e),
                        Ok(()) => {
                            let self_transfer = source_info.key == dest_info.key;
                            match spec_authorize_spender(
                                program_id,
                                source,
                                authority_info,
                                signers,
                                amount,
                                self_transfer,
                            ) {
                                Err(e) => Err(e),
                                Ok(source1) => if self_transfer {
                                    Ok(accounts)
                                } else {
                                    match spec_transfer_amounts(
                                        source1,
                                        dest,
                                        source_info,
                                        dest_info,
                                        amount,
                                    ) {
                                        Err(e) => Err(e),
                                        Ok((new_source, new_dest, src_l, dst_l)) => Ok(
                                            accounts.update(
                                                0,
                                                with_data(
                                                    with_lamports(source_info, src_l),
                                                    spec_account_enc(new_source, source_info.data),
                                                ),
                                            ).update(
                                                dst_i,
                                                with_data(
                                                    with_lamports(dest_info, dst_l),
                                                    spec_account_enc(new_dest, dest_info.data),
                                                ),
                                            ),
                                        ),
                                    }
                                },
                            }
                        },
                    }
                },
            },
        }
    }
}


/// What approving a delegate does. Handles: source, then (checked variant
/// only) the asset class, then the delegate, then the owner, then the
/// presented signers. The source must decode, not be frozen, and pass the
/// optional asset-class check; the owner must authorize; the delegate and
/// allowance are then stored verbatim.
pub open spec fn spec_process_approve(program_id: Seq<u8>, accounts: Seq<HandleView>,
    amount: u64, expected_decimals: Option<u8>) -> Result<Seq<HandleView>, TokenError> {
    let needed: int = if expected_decimals is Some {
        4
    } else {
        3
    };
    if accounts.len() < needed {
        Err(TokenError::NotEnoughAccountKeys)
    } else {
        let delegate_i: int = if expected_decimals is Some {
            2
        } else {
            1
        };
        let owner_i: int = delegate_i + 1;
        let source_info = accounts[0];
        let signers = accounts.skip(owner_i + 1);
        match spec_account_unpack(source_info.data) {
            Err(e) => Err(e),
            Ok(source) => if source.is_frozen() {
                Err(TokenError::AccountFrozen)
            } else {
                let mint_check: Result<(), TokenError> = match expected_decimals {
                    None => Ok(()),
                    Some(d) => if source.mint != accounts[1].key {
                        Err(TokenError::MintMismatch)
                    } else {
                        match spec_mint_unpack(accounts[1].data) {
                            Err(e) => Err(e),
                            Ok(mint) => if d != mint.decimals {
                                Err(TokenError::MintDecimalsMismatch)
                            } else {
                                Ok(())
                            },
                        }
                    },
                };
                match mint_check {
                    Err(e) => Err(e),
                    Ok(()) => match spec_validate_owner(
                        program_id,
                        source.owner,
                        accounts[owner_i],
                        signers,
                    ) {
                        Err(e) => Err(e),
                        Ok(()) => {
                            let new_source = AccountView {
                                delegate: Some(accounts[delegate_i].key),
                                delegated_amount: amount,
                                ..source
                            };
                            Ok(
                                accounts.update(
                                    0,
                                    with_data(
                                        source_info,
                                        spec_account_enc(new_source, source_info.data),
                                    ),
                                ),
                            )
                        },
                    },
                }
            },
        }
    }
}

/// What approving a delegate over a user portfolio does. Handles: the user
/// portfolio, the delegate, the owner, then the presented signers. The
/// descriptor must decode and its owner must authorize; the delegate key and
/// allowance are then stored verbatim.
pub open spec fn spec_process_approve_user_portfolio(program_id: Seq<u8>,
    accounts: Seq<HandleView>, amount: u64) -> Result<Seq<HandleView>, TokenError> {
    if accounts.len() < 3 {
        Err(TokenError::NotEnoughAccountKeys)
    } else {
        let source_info = accounts[0];
        let signers = accounts.skip(3);
        match spec_user_portfolio_unpack(source_info.data) {
            Err(e) => Err(e),
            Ok(up) => match spec_validate_owner(program_id, up.owner, accounts[2], signers) {
                Err(e) => Err(e),
                Ok(()) => {
                    let new_up = UserPortfolioView {
                        delegate: accounts[1].key,
                        delegated_amount: amount,
                        ..up
                    };
                    Ok(
                        accounts.update(
                            0,
                            with_data(source_info, spec_user_portfolio_enc(new_up)),
                        ),
                    )
                },
            },
        }
    }
}

/// What revoking a delegate does. Handles: source, the owner, then the
/// presented signers. The source must decode and not be frozen; the owner
/// must authorize; the delegate and allowance are then cleared.
pub open spec fn spec_process_revoke(program_id: Seq<u8>, accounts: Seq<HandleView>) -> Result<
    Seq<HandleView>,
    TokenError,
> {
    if accounts.len() < 1 {
        Err(TokenError::NotEnoughAccountKeys)
    } else {
        let source_info = accounts[0];
        match spec_account_unpack(source_info.data) {
            Err(e) => Err(e),
            Ok(source) => if accounts.len() < 2 {
                Err(TokenError::NotEnoughAccountKeys)
            } else if source.is_frozen() {
                Err(TokenError::AccountFrozen)
            } else {
                match spec_validate_owner(program_id, source.owner, accounts[1], accounts.skip(2)) {
                    Err(e) => Err(e),
                    Ok(()) => {
                        let new_source = AccountView {
                            delegate: None,
                            delegated_amount: 0u64,
                            ..source
                        };
                        Ok(
                            accounts.update(
                                0,
                                with_data(
                                    source_info,
                                    spec_account_enc(new_source, source_info.data),
                                ),
                            ),
                        )
                    },
                }
            },
        }
    }
}

/// What setting an authority does. Handles: the target record, the current
/// authority, then the presented signers. The record kind is decided by the
/// buffer size. On a balance account, `AccountOwner` requires a present new
/// authority and the current owner's approval, and `CloseAccount` lets the
/// close authority (or the owner when none is set) install or clear a close
/// authority. On an asset class, `MintTokens` and `FreezeAccount` require
/// the respective authority to still be present — once cleared it can never
/// be re-established — and that authority's approval. Every other pairing is
/// unsupported.
pub open spec fn spec_process_set_authority(program_id: Seq<u8>, accounts: Seq<HandleView>,
    authority_type: AuthorityType, new_authority: Option<Seq<u8>>) -> Result<
    Seq<HandleView>,
    TokenError,
> {
    if accounts.len() < 2 {
        Err(TokenError::NotEnoughAccountKeys)
    } else {
        let account_info = accounts[0];
        let authority_info = accounts[1];
        let signers = accounts.skip(2);
        if account_info.data.len() == ACCOUNT_LEN {
            match spec_account_unpack(account_info.data) {
                Err(e) => Err(e),
                Ok(account) => if account.is_frozen() {
                    Err(TokenError::AccountFrozen)
                } else {
                    match authority_type {
                        AuthorityType::AccountOwner => match spec_validate_owner(
                            program_id,
                            account.owner,
                            authority_info,
                            signers,
                        ) {
                            Err(e) => Err(e),
                            Ok(()) => match new_authority {
                                Some(authority) => {
                                    let new_account = AccountView { owner: authority, ..account };
                                    Ok(
                                        accounts.update(
                                            0,
                                            with_data(
                                                account_info,
                                                spec_account_enc(new_account, account_info.data),
                                            ),
                                        ),
                                    )
                                },
                                None => Err(TokenError::InvalidInstruction),
                            },
                        },
                        AuthorityType::CloseAccount => {
                            let authority = match account.close_authority {
                                Some(a) => a,
                                None => account.owner,
                            };
                            match spec_validate_owner(
                                program_id,
                                authority,
                                authority_info,
                                signers,
                            ) {
                                Err(e) => Err(e),
                                Ok(()) => {
                                    let new_account = AccountView {
                                        close_authority: new_authority,
                                        ..account
                                    };
                                    Ok(
                                        accounts.update(
                                            0,
                                            with_data(
                                                account_info,
                                                spec_account_enc(new_account, account_info.data),
                                            ),
                                        ),
                                    )
                                },
                            }
                        },
                        _ => Err(TokenError::AuthorityTypeNotSupported),
                    }
                },
            }
        } else if account_info.data.len() == MINT_LEN {
            match spec_mint_unpack(account_info.data) {
                Err(e) => Err(e),
                Ok(mint) => match authority_type {
                    AuthorityType::MintTokens => match mint.mint_authority {
                        None => Err(TokenError::FixedSupply),
                        Some(mint_authority) => match spec_validate_owner(
                            program_id,
                            mint_authority,
                            authority_info,
                            signers,
                        ) {
                            Err(e) => Err(e),
                            Ok(()) => {
                                let new_mint = MintView {
                                    mint_authority: new_authority,
                                    ..mint
                                };
                                Ok(
                                    accounts.update(
                                        0,
                                        with_data(
                                            account_info,
                                            spec_mint_enc(new_mint, account_info.data),
                                        ),
                                    ),
                                )
                            },
                        },
                    },
                    AuthorityType::FreezeAccount => match mint.freeze_authority {
                        None => Err(TokenError::MintCannotFreeze),
                        Some(freeze_authority) => match spec_validate_owner(
                            program_id,
                            freeze_authority,
                            authority_info,
                            signers,
                        ) {
                            Err(e) => Err(e),
                            Ok(()) => {
                                let new_mint = MintView {
                                    freeze_authority: new_authority,
                                    ..mint
                                };
                                Ok(
                                    accounts.update(
                                        0,
                                        with_data(
                                            account_info,
                                            spec_mint_enc(new_mint, account_info.data),
                                        ),
                                    ),
                                )
                            },
                        },
                    },
                    _ => Err(TokenError::AuthorityTypeNotSupported),
                },
            }
        } else {
            Err(TokenError::InvalidArgument)
        }
    }
}


/// What minting does. Handles: the asset class, the destination account, the
/// mint authority, then the presented signers. The destination must decode,
/// not be frozen and not wrap native currency, and belong to the asset class
/// in handle 0; the mint authority must still be present and authorize. The
/// amount is added to the destination balance and the total supply under
/// checked arithmetic, and the sub-balances are re-seeded: usdc to twice the
/// amount, asset to half of it.
pub open spec fn spec_process_mint_to(program_id: Seq<u8>, accounts: Seq<HandleView>,
    amount: u64, expected_decimals: Option<u8>) -> Result<Seq<HandleView>, TokenError> {
    if accounts.len() < 3 {
        Err(TokenError::NotEnoughAccountKeys)
    } else {
        let mint_info = accounts[0];
        let dest_info = accounts[1];
        let owner_info = accounts[2];
        let signers = accounts.skip(3);
        match spec_account_unpack(dest_info.data) {
            Err(e) => Err(e),
            Ok(dest) => if dest.is_frozen() {
                Err(TokenError::AccountFrozen)
            } else if dest.is_native() {
                Err(TokenError::NativeNotSupported)
            } else if mint_info.key != dest.mint {
                Err(TokenError::MintMismatch)
            } else {
                match spec_mint_unpack(mint_info.data) {
                    Err(e) => Err(e),
                    Ok(mint) => if expected_decimals is Some && expected_decimals->0
                        != mint.decimals {
                        Err(TokenError::MintDecimalsMismatch)
                    } else {
                        match mint.mint_authority {
                            None => Err(TokenError::FixedSupply),
                            Some(mint_authority) => match spec_validate_owner(
                                program_id,
                                mint_authority,
                                owner_info,
                                signers,
                            ) {
                                Err(e) => Err(e),
                                Ok(()) => if dest.amount + amount > u64::MAX {
                                    Err(TokenError::Overflow)
                                } else if amount * 2 > u64::MAX {
                                    Err(TokenError::Overflow)
                                } else if mint.supply + amount > u64::MAX {
                                    Err(TokenError::Overflow)
                                } else {
                                    let new_dest = AccountView {
                                        amount: (dest.amount + amount) as u64,
                                        usdc: (amount * 2) as u64,
                                        asset: amount / 2,
                                        ..dest
                                    };
                                    let new_mint = MintView {
                                        supply: (mint.supply + amount) as u64,
                                        ..mint
                                    };
                                    Ok(
                                        accounts.update(
                                            1,
                                            with_data(
                                                dest_info,
                                                spec_account_enc(new_dest, dest_info.data),
                                            ),
                                        ).update(
                                            0,
                                            with_data(
                                                mint_info,
                                                spec_mint_enc(new_mint, mint_info.data),
                                            ),
                                        ),
                                    )
                                },
                            },
                        }
                    },
                }
            },
        }
    }
}

/// What burning does. Handles: the account to burn from, the asset class,
/// the owner or delegate, then the presented signers. Both records must
/// decode; the source must not be frozen or native, must hold the amount,
/// and must belong to the asset class; the spender is authorized as owner or
/// delegate (reducing the delegate's allowance). The amount leaves the
/// source balance and the total supply under checked arithmetic.
pub open spec fn spec_process_burn(program_id: Seq<u8>, accounts: Seq<HandleView>, amount: u64,
    expected_decimals: Option<u8>) -> Result<Seq<HandleView>, TokenError> {
    if accounts.len() < 3 {
        Err(TokenError::NotEnoughAccountKeys)
    } else {
        let source_info = accounts[0];
        let mint_info = accounts[1];
        let authority_info = accounts[2];
        let signers = accounts.skip(3);
        match spec_account_unpack(source_info.data) {
            Err(e) => Err(e),
            Ok(source) => match spec_mint_unpack(mint_info.data) {
                Err(e) => Err(e),
                Ok(mint) => if source.is_frozen() {
                    Err(TokenError::AccountFrozen)
                } else if source.is_native() {
                    Err(TokenError::NativeNotSupported)
                } else if source.amount < amount {
                    Err(TokenError::InsufficientFunds)
                } else if mint_info.key != source.mint {
                    Err(TokenError::MintMismatch)
                } else if expected_decimals is Some && expected_decimals->0 != mint.decimals {
                    Err(TokenError::MintDecimalsMismatch)
                } else {
                    match spec_authorize_spender(
                        program_id,
                        source,
                        authority_info,
                        signers,
                        amount,
                        false,
                    ) {
                        Err(e) => Err(e),
                        Ok(source1) => if mint.supply < amount {
                            Err(TokenError::Overflow)
                        } else {
                            let new_source = AccountView {
                                amount: (source1.amount - amount) as u64,
                                ..source1
                            };
                            let new_mint = MintView {
                                supply: (mint.supply - amount) as u64,
                                ..mint
                            };
                            Ok(
                                accounts.update(
                                    0,
                                    with_data(
                                        source_info,
                                        spec_account_enc(new_source, source_info.data),
                                    ),
                                ).update(
                                    1,
                                    with_data(mint_info, spec_mint_enc(new_mint, mint_info.data)),
                                ),
                            )
                        },
                    }
                },
            },
        }
    }
}

/// What closing an account does. Handles: the account to close, the lamport
/// destination, the close authority (or owner), then the presented signers.
/// A non-native account may only be closed with a zero balance. All of the
/// account's lamports move to the destination and its balance is zeroed.
pub open spec fn spec_process_close_account(program_id: Seq<u8>, accounts: Seq<HandleView>)
    -> Result<Seq<HandleView>, TokenError> {
    if accounts.len() < 3 {
        Err(TokenError::NotEnoughAccountKeys)
    } else {
        let source_info = accounts[0];
        let dest_info = accounts[1];
        let authority_info = accounts[2];
        let signers = accounts.skip(3);
        match spec_account_unpack(source_info.data) {
            Err(e) => Err(e),
            Ok(source) => if !source.is_native() && source.amount != 0 {
                Err(TokenError::NonNativeHasBalance)
            } else {
                let authority = match source.close_authority {
                    Some(a) => a,
                    None => source.owner,
                };
                match spec_validate_owner(program_id, authority, authority_info, signers) {
                    Err(e) => Err(e),
                    Ok(()) => if dest_info.lamports + source_info.lamports > u64::MAX {
                        Err(TokenError::Overflow)
                    } else {
                        let new_source = AccountView { amount: 0u64, ..source };
                        Ok(
                            accounts.update(
                                1,
                                with_lamports(
                                    dest_info,
                                    (dest_info.lamports + source_info.lamports) as u64,
                                ),
                            ).update(0, with_lamports(source_info, 0u64)).update(
                                0,
                                with_data(
                                    with_lamports(source_info, 0u64),
                                    spec_account_enc(new_source, source_info.data),
                                ),
                            ),
                        )
                    },
                }
            },
        }
    }
}

/// What freezing or thawing does. Handles: the account, its asset class, the
/// freeze authority, then the presented signers. The account must decode,
/// not already be in the requested state, not be native, and belong to the
/// asset class; the asset class must still have a freeze authority, which
/// must authorize. The account's state is then set to frozen or initialized.
pub open spec fn spec_process_toggle_freeze_account(program_id: Seq<u8>,
    accounts: Seq<HandleView>, freeze: bool) -> Result<Seq<HandleView>, TokenError> {
    if accounts.len() < 3 {
        Err(TokenError::NotEnoughAccountKeys)
    } else {
        let source_info = accounts[0];
        let mint_info = accounts[1];
        let authority_info = accounts[2];
        let signers = accounts.skip(3);
        match spec_account_unpack(source_info.data) {
            Err(e) => Err(e),
            Ok(source) => if freeze == source.is_frozen() {
                Err(TokenError::InvalidState)
            } else if source.is_native() {
                Err(TokenError::NativeNotSupported)
            } else if mint_info.key != source.mint {
                Err(TokenError::MintMismatch)
            } else {
                match spec_mint_unpack(mint_info.data) {
                    Err(e) => Err(e),
                    Ok(mint) => match mint.freeze_authority {
                        None => Err(TokenError::MintCannotFreeze),
                        Some(authority) => match spec_validate_owner(
                            program_id,
                            authority,
                            authority_info,
                            signers,
                        ) {
                            Err(e) => Err(e),
                            Ok(()) => {
                                let new_source = AccountView {
                                    state: if freeze {
                                        AccountState::Frozen
                                    } else {
                                        AccountState::Initialized
                                    },
                                    ..source
                                };
                                Ok(
                                    accounts.update(
                                        0,
                                        with_data(
                                            source_info,
                                            spec_account_enc(new_source, source_info.data),
                                        ),
                                    ),
                                )
                            },
                        },
                    },
                }
            },
        }
    }
}


/// What a deposit does: the instruction names thirteen handles (the swap
/// chassis and the accounts it would route through); the ledger validates
/// their presence and leaves every buffer untouched, the swap itself being
/// the host's work.
pub open spec fn spec_process_deposit(accounts: Seq<HandleView>, amount: u64, volatility: u64,
    nonce: u8) -> Result<Seq<HandleView>, TokenError> {
    if accounts.len() < 13 {
        Err(TokenError::NotEnoughAccountKeys)
    } else {
        Ok(accounts)
    }
}

/// What a withdrawal does. Handles: the account, the owner, then the
/// presented signers. After the owner's authorization the amount leaves the
/// primary balance and the usdc and asset sub-balances are reduced by the
/// proportional share, exactly as in a transfer; all arithmetic is checked.
pub open spec fn spec_process_withdraw(program_id: Seq<u8>, accounts: Seq<HandleView>,
    amount: u64) -> Result<Seq<HandleView>, TokenError> {
    if accounts.len() < 2 {
        Err(TokenError::NotEnoughAccountKeys)
    } else {
        let source_info = accounts[0];
        let signers = accounts.skip(2);
        match spec_account_unpack(source_info.data) {
            Err(e) => Err(e),
            Ok(source) => match spec_validate_owner(
                program_id,
                source.owner,
                accounts[1],
                signers,
            ) {
                Err(e) => Err(e),
                Ok(()) => match spec_ratio(amount, source.amount) {
                    Err(e) => Err(e),
                    Ok(value) => match spec_sub_balance_share(source.usdc, value) {
                        Err(e) => Err(e),
                        Ok(usdc_burned) => match spec_sub_balance_share(source.asset, value) {
                            Err(e) => Err(e),
                            Ok(asset_burned) => if source.amount < amount {
                                Err(TokenError::Overflow)
                            } else if source.usdc < usdc_burned {
                                Err(TokenError::Overflow)
                            } else if source.asset < asset_burned {
                                Err(TokenError::Overflow)
                            } else {
                                let new_source = AccountView {
                                    amount: (source.amount - amount) as u64,
                                    usdc: (source.usdc - usdc_burned) as u64,
                                    asset: (source.asset - asset_burned) as u64,
                                    ..source
                                };
                                Ok(
                                    accounts.update(
                                        0,
                                        with_data(
                                            source_info,
                                            spec_account_enc(new_source, source_info.data),
                                        ),
                                    ),
                                )
                            },
                        },
                    },
                },
            },
        }
    }
}

/// What initializing a portfolio descriptor does. Handles: the descriptor,
/// its creator, nine pairs of (asset address, sell-into asset), then the
/// owner. The descriptor must not be initialized yet; the metadata blob,
/// its hash and the per-asset allocations and periods come from the
/// instruction, the asset keys from the handles; the initialized flag is
/// then set. The allocation percentages are not validated to sum to one
/// hundred; that is the caller's responsibility.
pub open spec fn spec_process_initialize_portfolio(accounts: Seq<HandleView>,
    meta_data_url: Seq<u8>, meta_data_hash: u16, amounts: Seq<u8>, periods: Seq<u8>) -> Result<
    Seq<HandleView>,
    TokenError,
> {
    if accounts.len() < 21 {
        Err(TokenError::NotEnoughAccountKeys)
    } else {
        let portfolio_info = accounts[0];
        match spec_portfolio_unpack(portfolio_info.data) {
            Err(e) => Err(e),
            Ok(p) => if p.is_initialize == 1 {
                Err(TokenError::AlreadyInUse)
            } else {
                let new_p = PortfolioView {
                    portfolio_account: portfolio_info.key,
                    creator_portfolio: accounts[1].key,
                    metadataUrl: meta_data_url,
                    metadataHash: meta_data_hash,
                    is_initialize: 1u8,
                    amountAsset1: amounts[0],
                    addressAsset1: accounts[2].key,
                    periodAsset1: periods[0],
                    assetToSoldIntoAsset1: accounts[3].key,
                    amountAsset2: amounts[1],
                    addressAsset2: accounts[4].key,
                    periodAsset2: periods[1],
                    assetToSoldIntoAsset2: accounts[5].key,
                    amountAsset3: amounts[2],
                    addressAsset3: accounts[6].key,
                    periodAsset3: periods[2],
                    assetToSoldIntoAsset3: accounts[7].key,
                    amountAsset4: amounts[3],
                    addressAsset4: accounts[8].key,
                    periodAsset4: periods[3],
                    assetToSoldIntoAsset4: accounts[9].key,
                    amountAsset5: amounts[4],
                    addressAsset5: accounts[10].key,
                    periodAsset5: periods[4],
                    assetToSoldIntoAsset5: accounts[11].key,
                    amountAsset6: amounts[5],
                    addressAsset6: accounts[12].key,
                    periodAsset6: periods[5],
                    assetToSoldIntoAsset6: accounts[13].key,
                    amountAsset7: amounts[6],
                    addressAsset7: accounts[14].key,
                    periodAsset7: periods[6],
                    assetToSoldIntoAsset7: accounts[15].key,
                    amountAsset8: amounts[7],
                    addressAsset8: accounts[16].key,
                    periodAsset8: periods[7],
                    assetToSoldIntoAsset8: accounts[17].key,
                    amountAsset9: amounts[8],
                    addressAsset9: accounts[18].key,
                    periodAsset9: periods[8],
                    assetToSoldIntoAsset9: accounts[19].key,
                };
                Ok(accounts.update(0, with_data(portfolio_info, spec_portfolio_enc(new_p))))
            },
        }
    }
}

/// What creating a user portfolio does. Handles: the descriptor, the
/// portfolio it subscribes to, the owner, the delegate. The self-reference,
/// portfolio reference and owner keys and the delegated amount are written
/// verbatim over the decoded record; there is no initialized flag, so
/// re-initialization silently overwrites.
pub open spec fn spec_process_create_init_user_portfolio(accounts: Seq<HandleView>,
    delegated_amount: u64) -> Result<Seq<HandleView>, TokenError> {
    if accounts.len() < 4 {
        Err(TokenError::NotEnoughAccountKeys)
    } else {
        let up_info = accounts[0];
        match spec_user_portfolio_unpack(up_info.data) {
            Err(e) => Err(e),
            Ok(up) => {
                let new_up = UserPortfolioView {
                    user_portfolio_account: up_info.key,
                    portfolio_address: accounts[1].key,
                    owner: accounts[2].key,
                    delegated_amount,
                    ..up
                };
                Ok(accounts.update(0, with_data(up_info, spec_user_portfolio_enc(new_up))))
            },
        }
    }
}


/// What one invocation of the ledger does: the instruction bytes are
/// decoded and the matching handler runs over the handles. The host-computed
/// rent-exemption threshold is passed through to the initializers.
pub open spec fn spec_process(program_id: Seq<u8>, accounts: Seq<HandleView>, input: Seq<u8>,
    rent_minimum_balance: u64) -> Result<Seq<HandleView>, TokenError> {
    match crate::instruction::spec_instruction_dec(input) {
        None => Err(TokenError::InvalidInstruction),
        Some(ix) => match ix {
            TokenInstructionView::InitializeMint {
                decimals,
                mint_authority,
                freeze_authority,
                mint_id_asset,
                pubkey_swap,
            } => spec_process_initialize_mint(
                accounts,
                decimals,
                mint_authority,
                freeze_authority,
                mint_id_asset,
                pubkey_swap,
                rent_minimum_balance,
            ),
            TokenInstructionView::InitializeAccount => spec_process_initialize_account(
                accounts,
                None,
                rent_minimum_balance,
            ),
            TokenInstructionView::InitializeAccount2 { owner } => spec_process_initialize_account(
                accounts,
                Some(owner),
                rent_minimum_balance,
            ),
            TokenInstructionView::InitializeMultisig { m } => spec_process_initialize_multisig(
                accounts,
                m,
                rent_minimum_balance,
            ),
            TokenInstructionView::Transfer { amount } => spec_process_transfer(
                program_id,
                accounts,
                amount,
                None,
            ),
            TokenInstructionView::Approve { amount } => spec_process_approve(
                program_id,
                accounts,
                amount,
                None,
            ),
            TokenInstructionView::Revoke => spec_process_revoke(program_id, accounts),
            TokenInstructionView::SetAuthority { authority_type, new_authority } => {
                spec_process_set_authority(program_id, accounts, authority_type, new_authority)
            },
            TokenInstructionView::MintTo { amount } => spec_process_mint_to(
                program_id,
                accounts,
                amount,
                None,
            ),
            TokenInstructionView::Burn { amount } => spec_process_burn(
                program_id,
                accounts,
                amount,
                None,
            ),
            TokenInstructionView::CloseAccount => spec_process_close_account(
                program_id,
                accounts,
            ),
            TokenInstructionView::FreezeAccount => spec_process_toggle_freeze_account(
                program_id,
                accounts,
                true,
            ),
            TokenInstructionView::ThawAccount => spec_process_toggle_freeze_account(
                program_id,
                accounts,
                false,
            ),
            TokenInstructionView::TransferChecked { amount, decimals } => spec_process_transfer(
                program_id,
                accounts,
                amount,
                Some(decimals),
            ),
            TokenInstructionView::ApproveChecked { amount, decimals } => spec_process_approve(
                program_id,
                accounts,
                amount,
                Some(decimals),
            ),
            TokenInstructionView::MintToChecked { amount, decimals } => spec_process_mint_to(
                program_id,
                accounts,
                amount,
                Some(decimals),
            ),
            TokenInstructionView::BurnChecked { amount, decimals } => spec_process_burn(
                program_id,
                accounts,
                amount,
                Some(decimals),
            ),
            TokenInstructionView::Deposit { amount, volatility, nonce } => spec_process_deposit(
                accounts,
                amount,
                volatility,
                nonce,
            ),
            TokenInstructionView::Withdraw { amount } => spec_process_withdraw(
                program_id,
                accounts,
                amount,
            ),
            TokenInstructionView::InitializePortfolio {
                metaDataUrl,
                metaDataHash,
                amountAsset1,
                periodAsset1,
                amountAsset2,
                periodAsset2,
                amountAsset3,
                periodAsset3,
                amountAsset4,
                periodAsset4,
                amountAsset5,
                periodAsset5,
                amountAsset6,
                periodAsset6,
                amountAsset7,
                periodAsset7,
                amountAsset8,
                periodAsset8,
                amountAsset9,
                periodAsset9,
            } => spec_process_initialize_portfolio(
                accounts,
                metaDataUrl,
                metaDataHash,
                seq![amountAsset1, amountAsset2, amountAsset3, amountAsset4, amountAsset5, amountAsset6, amountAsset7, amountAsset8, amountAsset9],
                seq![periodAsset1, periodAsset2, periodAsset3, periodAsset4, periodAsset5, periodAsset6, periodAsset7, periodAsset8, periodAsset9],
            ),
            TokenInstructionView::createInitUserPortfolio {
                delegated_amount,
                valueAsset1: _,
                valueAsset2: _,
                valueAsset3: _,
                valueAsset4: _,
                valueAsset5: _,
                valueAsset6: _,
                valueAsset7: _,
                valueAsset8: _,
                valueAsset9: _,
            } => spec_process_create_init_user_portfolio(accounts, delegated_amount),
        },
    }
}

/// Program state handler: the per-instruction processors and the
/// authorization rule they share.
pub struct Processor {}

impl Processor {
    /// One pass of a single presented handle over the signer slots,
    /// mutating the match flags; returns how many slots were newly matched.
    fn match_one_handle(ms: &Multisig, n_slots: usize, matched: &mut Vec<bool>,
        h: &AccountHandle) -> (r: Result<u8, TokenError>)
        requires
            ms@.wf(),
            n_slots <= MAX_SIGNERS,
            n_slots == spec_quorum_slots(ms@).len(),
            old(matched)@.len() == n_slots,
            count_true(old(matched)@) <= n_slots,
        ensures
            match r {
                Ok(c) => spec_match_handle(spec_quorum_slots(ms@), old(matched)@, h@, 0) == Some(
                    (final(matched)@, c as int),
                ) && final(matched)@.len() == n_slots && count_true(final(matched)@) == count_true(
                    old(matched)@,
                ) + c,
                Err(e) => spec_match_handle(spec_quorum_slots(ms@), old(matched)@, h@, 0) is None
                    && e == TokenError::MissingRequiredSignature && final(matched)@ == old(
                    matched,
                )@,
            },
    {
        let ghost slots = spec_quorum_slots(ms@);
        let mut pos: usize = 0;
        let mut gained: u8 = 0;
        proof {
            lemma_count_true_bound(matched@);
        }
        while pos < n_slots
            invariant
                ms@.wf(),
                n_slots <= MAX_SIGNERS,
                n_slots == slots.len(),
                slots == spec_quorum_slots(ms@),
                matched@.len() == n_slots,
                pos <= n_slots,
                0 <= count_true(old(matched)@),
                gained as int + count_true(old(matched)@) == count_true(matched@),
                count_true(matched@) <= n_slots,
                !h.is_signer ==> matched@ == old(matched)@ && gained == 0,
                spec_match_handle(slots, old(matched)@, h@, 0) == (match spec_match_handle(
                    slots,
                    matched@,
                    h@,
                    pos as int,
                ) {
                    None => None::<(Seq<bool>, int)>,
                    Some((mf, c)) => Some((mf, gained + c)),
                }),
            decreases n_slots - pos,
        {
            let slot_matches = key_eq(&ms.signers[pos], &h.key);
            if slot_matches && !matched[pos] {
                if !h.is_signer {
                    assert(spec_match_handle(slots, matched@, h@, pos as int) is None);
                    return Err(TokenError::MissingRequiredSignature);
                }
                proof {
                    lemma_count_true_update(matched@, pos as int);
                    lemma_match_handle_count(slots, matched@.update(pos as int, true), h@, pos
                        + 1);
                    lemma_count_true_bound(matched@.update(pos as int, true));
                }
                matched[pos] = true;
                gained = gained + 1;
            }
            pos = pos + 1;
        }
        Ok(gained)
    }


    /// Replaces the backing buffer of the handle at `i`.
    fn set_handle_data(accounts: &mut Vec<AccountHandle>, i: usize, data: Vec<u8>)
        requires
            i < old(accounts).len(),
        ensures
            final(accounts)@.len() == old(accounts)@.len(),
            handles(final(accounts)@) == handles(old(accounts)@).update(
                i as int,
                with_data(handles(old(accounts)@)[i as int], data@),
            ),
    {
        let ghost d = data@;
        let h = AccountHandle {
            key: accounts[i].key,
            is_signer: accounts[i].is_signer,
            is_writable: accounts[i].is_writable,
            owner: accounts[i].owner,
            lamports: accounts[i].lamports,
            data,
        };
        accounts[i] = h;
        assert(handles(accounts@) =~= handles(old(accounts)@).update(
            i as int,
            with_data(handles(old(accounts)@)[i as int], d),
        ));
    }

    /// Replaces the lamport balance of the handle at `i`.
    fn set_handle_lamports(accounts: &mut Vec<AccountHandle>, i: usize, lamports: u64)
        requires
            i < old(accounts).len(),
        ensures
            final(accounts)@.len() == old(accounts)@.len(),
            handles(final(accounts)@) == handles(old(accounts)@).update(
                i as int,
                with_lamports(handles(old(accounts)@)[i as int], lamports),
            ),
    {
        accounts[i].lamports = lamports;
        assert(handles(accounts@) =~= handles(old(accounts)@).update(
            i as int,
            with_lamports(handles(old(accounts)@)[i as int], lamports),
        ));
    }

    /// Initializes an asset class: populates the authority, decimals and
    /// optional keys of the not-yet-initialized mint record in handle 0 and
    /// sets its initialized flag, requiring the handle to hold at least the
    /// host-computed rent-exemption balance.
    pub fn process_initialize_mint(accounts: &mut Vec<AccountHandle>, decimals: u8,
        mint_authority: Pubkey, freeze_authority: Option<Pubkey>, mint_id_asset: Option<Pubkey>,
        pubkey_swap: Option<Pubkey>, _program_id: &Pubkey, rent_minimum_balance: u64) -> (r:
        Result<(), TokenError>)
        ensures
            match r {
                Ok(()) => spec_process_initialize_mint(
                    handles(old(accounts)@),
                    decimals,
                    mint_authority@,
                    crate::bytesutil::opt_key_view(freeze_authority),
                    crate::bytesutil::opt_key_view(mint_id_asset),
                    crate::bytesutil::opt_key_view(pubkey_swap),
                    rent_minimum_balance,
                ) == Ok::<Seq<HandleView>, TokenError>(handles(final(accounts)@)),
                Err(e) => spec_process_initialize_mint(
                    handles(old(accounts)@),
                    decimals,
                    mint_authority@,
                    crate::bytesutil::opt_key_view(freeze_authority),
                    crate::bytesutil::opt_key_view(mint_id_asset),
                    crate::bytesutil::opt_key_view(pubkey_swap),
                    rent_minimum_balance,
                ) == Err::<Seq<HandleView>, TokenError>(e) && final(accounts)@ == old(accounts)@,
            },
    {
        if accounts.len() < 2 {
            return Err(TokenError::NotEnoughAccountKeys);
        }
        assert(handles(old(accounts)@)[0] == accounts[0]@);
        let mut mint = Mint::unpack_unchecked(&accounts[0].data)?;
        if mint.is_initialized {
            return Err(TokenError::AlreadyInUse);
        }
        if accounts[0].lamports < rent_minimum_balance {
            return Err(TokenError::NotRentExempt);
        }
        mint.mint_authority = Some(mint_authority);
        mint.decimals = decimals;
        mint.is_initialized = true;
        mint.freeze_authority = freeze_authority;
        mint.mint_id_asset = mint_id_asset;
        mint.pubkey_swap = pubkey_swap;
        let data_len = accounts[0].data.len();
        let mut buf = crate::bytesutil::read_bytes_at(&accounts[0].data, 0, data_len);
        assert(buf@ =~= accounts[0]@.data);
        mint.pack_into_slice(&mut buf);
        Self::set_handle_data(accounts, 0, buf);
        proof {
            let olds = handles(old(accounts)@);
            let expect = spec_process_initialize_mint(
                olds,
                decimals,
                mint_authority@,
                crate::bytesutil::opt_key_view(freeze_authority),
                crate::bytesutil::opt_key_view(mint_id_asset),
                crate::bytesutil::opt_key_view(pubkey_swap),
                rent_minimum_balance,
            );
            assert(expect is Ok);
            assert(handles(accounts@) =~= expect->Ok_0);
        }
        Ok(())
    }


    /// Shared body of the two balance-account initializers; `owner` is the
    /// owner key when it comes from the instruction bytes, else the owner is
    /// the third handle.
    fn _process_initialize_account(accounts: &mut Vec<AccountHandle>, owner: Option<Pubkey>,
        rent_minimum_balance: u64) -> (r: Result<(), TokenError>)
        ensures
            match r {
                Ok(()) => spec_process_initialize_account(
                    handles(old(accounts)@),
                    crate::bytesutil::opt_key_view(owner),
                    rent_minimum_balance,
                ) == Ok::<Seq<HandleView>, TokenError>(handles(final(accounts)@)),
                Err(e) => spec_process_initialize_account(
                    handles(old(accounts)@),
                    crate::bytesutil::opt_key_view(owner),
                    rent_minimum_balance,
                ) == Err::<Seq<HandleView>, TokenError>(e) && final(accounts)@ == old(accounts)@,
            },
    {
        let needed: usize = if owner.is_some() {
            3
        } else {
            4
        };
        if accounts.len() < needed {
            return Err(TokenError::NotEnoughAccountKeys);
        }
        assert(handles(old(accounts)@)[0] == accounts[0]@);
        assert(handles(old(accounts)@)[1] == accounts[1]@);
        let owner_key: Pubkey = match owner {
            Some(k) => k,
            None => {
                assert(handles(old(accounts)@)[2] == accounts[2]@);
                accounts[2].key
            },
        };
        let account = Account::unpack_unchecked(&accounts[0].data)?;
        if account.is_initialized() {
            return Err(TokenError::AlreadyInUse);
        }
        if accounts[0].lamports < rent_minimum_balance {
            return Err(TokenError::NotRentExempt);
        }
        let native = key_eq(&accounts[1].key, &NATIVE_MINT);
        if !native {
            match Mint::unpack(&accounts[1].data) {
                Ok(_) => {},
                Err(_) => {
                    return Err(TokenError::InvalidMint);
                },
            }
        }
        let new_account = Account {
            mint: accounts[1].key,
            owner: owner_key,
            amount: if native {
                accounts[0].lamports - rent_minimum_balance
            } else {
                0
            },
            delegate: None,
            state: AccountState::Initialized,
            is_native: if native {
                Some(rent_minimum_balance)
            } else {
                None
            },
            delegated_amount: 0,
            close_authority: account.close_authority,
            asset: 0,
            usdc: 0,
        };
        let data_len = accounts[0].data.len();
        let mut buf = crate::bytesutil::read_bytes_at(&accounts[0].data, 0, data_len);
        assert(buf@ =~= accounts[0]@.data);
        new_account.pack_into_slice(&mut buf);
        Self::set_handle_data(accounts, 0, buf);
        proof {
            let expect = spec_process_initialize_account(
                handles(old(accounts)@),
                crate::bytesutil::opt_key_view(owner),
                rent_minimum_balance,
            );
            assert(expect is Ok);
            assert(handles(accounts@) =~= expect->Ok_0);
        }
        Ok(())
    }

    /// Initializes a balance account whose owner is the third handle.
    pub fn process_initialize_account(accounts: &mut Vec<AccountHandle>,
        rent_minimum_balance: u64) -> (r: Result<(), TokenError>)
        ensures
            match r {
                Ok(()) => spec_process_initialize_account(
                    handles(old(accounts)@),
                    None,
                    rent_minimum_balance,
                ) == Ok::<Seq<HandleView>, TokenError>(handles(final(accounts)@)),
                Err(e) => spec_process_initialize_account(
                    handles(old(accounts)@),
                    None,
                    rent_minimum_balance,
                ) == Err::<Seq<HandleView>, TokenError>(e) && final(accounts)@ == old(accounts)@,
            },
    {
        Self::_process_initialize_account(accounts, None, rent_minimum_balance)
    }

    /// Initializes a balance account whose owner key came in the instruction
    /// bytes.
    pub fn process_initialize_account2(accounts: &mut Vec<AccountHandle>, owner: Pubkey,
        rent_minimum_balance: u64) -> (r: Result<(), TokenError>)
        ensures
            match r {
                Ok(()) => spec_process_initialize_account(
                    handles(old(accounts)@),
                    Some(owner@),
                    rent_minimum_balance,
                ) == Ok::<Seq<HandleView>, TokenError>(handles(final(accounts)@)),
                Err(e) => spec_process_initialize_account(
                    handles(old(accounts)@),
                    Some(owner@),
                    rent_minimum_balance,
                ) == Err::<Seq<HandleView>, TokenError>(e) && final(accounts)@ == old(accounts)@,
            },
    {
        Self::_process_initialize_account(accounts, Some(owner), rent_minimum_balance)
    }

    /// Initializes a multisignature descriptor from the presented signer
    /// handles; the signer count and the required count must lie between one
    /// and eleven, and the required count cannot exceed the signer count.
    #[verifier::loop_isolation(false)]
    pub fn process_initialize_multisig(accounts: &mut Vec<AccountHandle>, m: u8,
        rent_minimum_balance: u64) -> (r: Result<(), TokenError>)
        ensures
            match r {
                Ok(()) => spec_process_initialize_multisig(
                    handles(old(accounts)@),
                    m,
                    rent_minimum_balance,
                ) == Ok::<Seq<HandleView>, TokenError>(handles(final(accounts)@)),
                Err(e) => spec_process_initialize_multisig(
                    handles(old(accounts)@),
                    m,
                    rent_minimum_balance,
                ) == Err::<Seq<HandleView>, TokenError>(e) && final(accounts)@ == old(accounts)@,
            },
    {
        if accounts.len() < 2 {
            return Err(TokenError::NotEnoughAccountKeys);
        }
        assert(handles(old(accounts)@)[0] == accounts[0]@);
        let mut multisig = Multisig::unpack_unchecked(&accounts[0].data)?;
        if multisig.is_initialized {
            return Err(TokenError::AlreadyInUse);
        }
        if accounts[0].lamports < rent_minimum_balance {
            return Err(TokenError::NotRentExempt);
        }
        let n = accounts.len() - 2;
        if !(1 <= n && n <= MAX_SIGNERS) {
            return Err(TokenError::InvalidNumberOfProvidedSigners);
        }
        if !(1 <= m as usize && m as usize <= MAX_SIGNERS) || m as usize > n {
            return Err(TokenError::InvalidNumberOfRequiredSigners);
        }
        let ghost ms0 = multisig@;
        proof {
            crate::state::lemma_multisig_unpack_wf(accounts@[0].data@);
        }
        assert(ms0.signers.len() == MAX_SIGNERS);
        assert(multisig.signers@.len() == MAX_SIGNERS);
        multisig.m = m;
        multisig.n = n as u8;
        multisig.is_initialized = true;
        let mut i: usize = 0;
        while i < n
            invariant
                accounts@ == old(accounts)@,
                n == accounts.len() - 2,
                1 <= n <= MAX_SIGNERS,
                i <= n,
                multisig.signers@.len() == MAX_SIGNERS,
                forall|j: int|
                    0 <= j < i ==> (#[trigger] multisig.signers@[j])@ == accounts@[2 + j]@.key,
                forall|j: int|
                    i <= j < MAX_SIGNERS ==> (#[trigger] multisig.signers@[j])@
                        == ms0.signers[j],
                multisig.m == m,
                multisig.n == n as u8,
                multisig.is_initialized,
            decreases n - i,
        {
            let k = accounts[2 + i].key;
            multisig.signers[i] = k;
            i = i + 1;
        }
        let ghost expect = spec_process_initialize_multisig(
            handles(old(accounts)@),
            m,
            rent_minimum_balance,
        );
        assert(expect is Ok);
        proof {
            let new_ms = MultisigView {
                m,
                n: n as u8,
                is_initialized: true,
                signers: Seq::new(
                    MAX_SIGNERS as nat,
                    |j: int|
                        if j < n {
                            handles(old(accounts)@)[2 + j].key
                        } else {
                            spec_multisig_unpack_unchecked(
                                handles(old(accounts)@)[0].data,
                            )->Ok_0.signers[j]
                        },
                ),
            };
            assert(multisig@.signers =~= new_ms.signers);
            assert(multisig@ =~= new_ms);
        }
        let data_len = accounts[0].data.len();
        let mut buf = crate::bytesutil::read_bytes_at(&accounts[0].data, 0, data_len);
        assert(buf@ =~= accounts[0]@.data);
        multisig.pack_into_slice(&mut buf);
        Self::set_handle_data(accounts, 0, buf);
        proof {
            assert(handles(accounts@) =~= expect->Ok_0);
        }
        Ok(())
    }



    /// Applies the balance arithmetic and re-encoding of a transfer whose
    /// checks and authorization already passed: moves the amount, the
    /// proportional sub-balance shares, and (for a native wrapper) the
    /// lamports from handle 0 to the handle at `dst_i`.
    #[verifier::loop_isolation(false)]
    fn apply_transfer(accounts: &mut Vec<AccountHandle>, dst_i: usize, source_account: Account,
        dest_account: Account, amount: u64) -> (r: Result<(), TokenError>)
        requires
            0 < dst_i < old(accounts).len(),
            old(accounts)@[0]@.data.len() == ACCOUNT_LEN,
            old(accounts)@[dst_i as int]@.data.len() == ACCOUNT_LEN,
        ensures
            match r {
                Ok(()) => spec_transfer_amounts(
                    source_account@,
                    dest_account@,
                    handles(old(accounts)@)[0],
                    handles(old(accounts)@)[dst_i as int],
                    amount,
                ) is Ok && handles(final(accounts)@) == ({
                    let olds = handles(old(accounts)@);
                    let ta = spec_transfer_amounts(
                        source_account@,
                        dest_account@,
                        olds[0],
                        olds[dst_i as int],
                        amount,
                    );
                    olds.update(
                        0,
                        with_data(
                            with_lamports(olds[0], ta->Ok_0.2),
                            spec_account_enc(ta->Ok_0.0, olds[0].data),
                        ),
                    ).update(
                        dst_i as int,
                        with_data(
                            with_lamports(olds[dst_i as int], ta->Ok_0.3),
                            spec_account_enc(ta->Ok_0.1, olds[dst_i as int].data),
                        ),
                    )
                }),
                Err(e) => spec_transfer_amounts(
                    source_account@,
                    dest_account@,
                    handles(old(accounts)@)[0],
                    handles(old(accounts)@)[dst_i as int],
                    amount,
                ) == Err::<(AccountView, AccountView, u64, u64), TokenError>(e)
                    && final(accounts)@ == old(accounts)@,
            },
    {
        let ghost olds = handles(old(accounts)@);
        assert(olds[0] == accounts[0]@);
        assert(olds[dst_i as int] == accounts[dst_i as int]@);
        let mut source_account = source_account;
        let mut dest_account = dest_account;
        let ghost src1 = source_account@;
        let ghost dst0 = dest_account@;
        let value = match amount.checked_mul(100) {
            None => {
                return Err(TokenError::Overflow);
            },
            Some(v) => match v.checked_div(source_account.amount) {
                None => {
                    return Err(TokenError::Overflow);
                },
                Some(v2) => v2,
            },
        };
        let usdc_moved = match source_account.usdc.checked_mul(value) {
            None => {
                return Err(TokenError::Overflow);
            },
            Some(x) => x / 100,
        };
        let asset_moved = match source_account.asset.checked_mul(value) {
            None => {
                return Err(TokenError::Overflow);
            },
            Some(x) => x / 100,
        };
        source_account.amount = match source_account.amount.checked_sub(amount) {
            None => {
                return Err(TokenError::Overflow);
            },
            Some(x) => x,
        };
        dest_account.amount = match dest_account.amount.checked_add(amount) {
            None => {
                return Err(TokenError::Overflow);
            },
            Some(x) => x,
        };
        source_account.usdc = match source_account.usdc.checked_sub(usdc_moved) {
            None => {
                return Err(TokenError::Overflow);
            },
            Some(x) => x,
        };
        dest_account.usdc = match dest_account.usdc.checked_add(usdc_moved) {
            None => {
                return Err(TokenError::Overflow);
            },
            Some(x) => x,
        };
        source_account.asset = match source_account.asset.checked_sub(asset_moved) {
            None => {
                return Err(TokenError::Overflow);
            },
            Some(x) => x,
        };
        dest_account.asset = match dest_account.asset.checked_add(asset_moved) {
            None => {
                return Err(TokenError::Overflow);
            },
            Some(x) => x,
        };
        if source_account.is_native() {
            let src_l = match accounts[0].lamports.checked_sub(amount) {
                None => {
                    return Err(TokenError::Overflow);
                },
                Some(x) => x,
            };
            let dst_l = match accounts[dst_i].lamports.checked_add(amount) {
                None => {
                    return Err(TokenError::Overflow);
                },
                Some(x) => x,
            };
            Self::set_handle_lamports(accounts, 0, src_l);
            Self::set_handle_lamports(accounts, dst_i, dst_l);
        }
        proof {
            assert(spec_ratio(amount, src1.amount) == Ok::<u64, TokenError>(value));
            assert(spec_sub_balance_share(src1.usdc, value) == Ok::<u64, TokenError>(usdc_moved));
            assert(spec_sub_balance_share(src1.asset, value) == Ok::<u64, TokenError>(
                asset_moved,
            ));
            let ta = spec_transfer_amounts(src1, dst0, olds[0], olds[dst_i as int], amount);
            assert(ta is Ok);
            assert(ta->Ok_0.0 =~= source_account@);
            assert(ta->Ok_0.1 =~= dest_account@);
            assert(handles(accounts@)[0] == accounts@[0]@);
            assert(handles(accounts@)[dst_i as int] == accounts@[dst_i as int]@);
            assert(ta->Ok_0.2 == accounts@[0]@.lamports);
            assert(ta->Ok_0.3 == accounts@[dst_i as int]@.lamports);
            assert(accounts@[0]@.data == olds[0].data);
            assert(accounts@[dst_i as int]@.data == olds[dst_i as int].data);
        }
        let src_data_len = accounts[0].data.len();
        let mut src_buf = crate::bytesutil::read_bytes_at(&accounts[0].data, 0, src_data_len);
        assert(src_buf@ =~= olds[0].data);
        source_account.pack_into_slice(&mut src_buf);
        Self::set_handle_data(accounts, 0, src_buf);
        assert(handles(accounts@)[dst_i as int] == accounts@[dst_i as int]@);
        assert(accounts@[dst_i as int]@.data == olds[dst_i as int].data);
        let dst_data_len = accounts[dst_i].data.len();
        let mut dst_buf = crate::bytesutil::read_bytes_at(&accounts[dst_i].data, 0, dst_data_len);
        assert(dst_buf@ =~= olds[dst_i as int].data);
        dest_account.pack_into_slice(&mut dst_buf);
        Self::set_handle_data(accounts, dst_i, dst_buf);
        assert(handles(accounts@) =~= ({
            let ta = spec_transfer_amounts(src1, dst0, olds[0], olds[dst_i as int], amount);
            olds.update(
                0,
                with_data(
                    with_lamports(olds[0], ta->Ok_0.2),
                    spec_account_enc(ta->Ok_0.0, olds[0].data),
                ),
            ).update(
                dst_i as int,
                with_data(
                    with_lamports(olds[dst_i as int], ta->Ok_0.3),
                    spec_account_enc(ta->Ok_0.1, olds[dst_i as int].data),
                ),
            )
        }));
        Ok(())
    }

    /// Transfers tokens between two balance accounts, directly or through a
    /// delegate. The amount moves between the primary balances; the usdc and
    /// asset sub-balances move in proportion to the share of the source
    /// balance transferred; a native wrapper moves the same amount of
    /// lamports. A transfer onto the same handle key is validated in full —
    /// authorization and funds included — but moves nothing.
    #[verifier::loop_isolation(false)]
    #[verifier::rlimit(100)]
    #[verifier::spinoff_prover]
    pub fn process_transfer(program_id: &Pubkey, accounts: &mut Vec<AccountHandle>, amount: u64,
        expected_decimals: Option<u8>) -> (r: Result<(), TokenError>)
        ensures
            match r {
                Ok(()) => spec_process_transfer(
                    program_id@,
                    handles(old(accounts)@),
                    amount,
                    expected_decimals,
                ) == Ok::<Seq<HandleView>, TokenError>(handles(final(accounts)@)),
                Err(e) => spec_process_transfer(
                    program_id@,
                    handles(old(accounts)@),
                    amount,
                    expected_decimals,
                ) == Err::<Seq<HandleView>, TokenError>(e) && final(accounts)@ == old(accounts)@,
            },
    {
        let needed: usize = if expected_decimals.is_some() {
            4
        } else {
            3
        };
        if accounts.len() < needed {
            return Err(TokenError::NotEnoughAccountKeys);
        }
        let dst_i: usize = if expected_decimals.is_some() {
            2
        } else {
            1
        };
        let auth_i: usize = dst_i + 1;
        let ghost olds = handles(old(accounts)@);
        assert(olds[0] == accounts[0]@);
        assert(olds[dst_i as int] == accounts[dst_i as int]@);
        assert(olds[auth_i as int] == accounts[auth_i as int]@);
        let mut source_account = Account::unpack(&accounts[0].data)?;
        let mut dest_account = Account::unpack(&accounts[dst_i].data)?;
        if source_account.is_frozen() || dest_account.is_frozen() {
            return Err(TokenError::AccountFrozen);
        }
        if source_account.amount < amount {
            return Err(TokenError::InsufficientFunds);
        }
        if !key_eq(&source_account.mint, &dest_account.mint) {
            return Err(TokenError::MintMismatch);
        }
        match expected_decimals {
            Some(d) => {
                assert(olds[1] == accounts[1]@);
                if !key_eq(&source_account.mint, &accounts[1].key) {
                    return Err(TokenError::MintMismatch);
                }
                let mint = Mint::unpack(&accounts[1].data)?;
                if d != mint.decimals {
                    return Err(TokenError::MintDecimalsMismatch);
                }
            },
            None => {},
        }
        let self_transfer = key_eq(&accounts[0].key, &accounts[dst_i].key);
        let ghost src0 = source_account@;
        let ghost sviews = olds.skip(auth_i + 1);
        let signers = vstd::slice::slice_subrange(accounts.as_slice(), auth_i + 1, accounts.len());
        assert(handles(signers@) =~= sviews);
        let use_delegate = match &source_account.delegate {
            Some(d) => key_eq(d, &accounts[auth_i].key),
            None => false,
        };
        if use_delegate {
            let d = source_account.delegate.unwrap();
            Self::validate_owner(program_id, &d, &accounts[auth_i], signers)?;
            if source_account.delegated_amount < amount {
                return Err(TokenError::InsufficientFunds);
            }
            if !self_transfer {
                source_account.delegated_amount = source_account.delegated_amount - amount;
                if source_account.delegated_amount == 0 {
                    source_account.delegate = None;
                }
            }
        } else {
            Self::validate_owner(program_id, &source_account.owner, &accounts[auth_i], signers)?;
        }
        assert(spec_authorize_spender(
            program_id@,
            src0,
            olds[auth_i as int],
            sviews,
            amount,
            self_transfer,
        ) == Ok::<AccountView, TokenError>(source_account@));
        if self_transfer {
            assert(handles(accounts@) == olds);
            return Ok(());
        }
        let ghost src1 = source_account@;
        let ghost dst0 = dest_account@;
        Self::apply_transfer(accounts, dst_i, source_account, dest_account, amount)?;
        proof {
            let expect = spec_process_transfer(program_id@, olds, amount, expected_decimals);
            assert(expect is Ok);
            assert(handles(accounts@) =~= expect->Ok_0);
        }
        Ok(())
    }


    /// Approves a delegate over part of the balance: after the optional
    /// asset-class check and the owner's authorization, stores the delegate
    /// and the approved allowance.
    #[verifier::loop_isolation(false)]
    pub fn process_approve(program_id: &Pubkey, accounts: &mut Vec<AccountHandle>, amount: u64,
        expected_decimals: Option<u8>) -> (r: Result<(), TokenError>)
        ensures
            match r {
                Ok(()) => spec_process_approve(
                    program_id@,
                    handles(old(accounts)@),
                    amount,
                    expected_decimals,
                ) == Ok::<Seq<HandleView>, TokenError>(handles(final(accounts)@)),
                Err(e) => spec_process_approve(
                    program_id@,
                    handles(old(accounts)@),
                    amount,
                    expected_decimals,
                ) == Err::<Seq<HandleView>, TokenError>(e) && final(accounts)@ == old(accounts)@,
            },
    {
        let needed: usize = if expected_decimals.is_some() {
            4
        } else {
            3
        };
        if accounts.len() < needed {
            return Err(TokenError::NotEnoughAccountKeys);
        }
        let delegate_i: usize = if expected_decimals.is_some() {
            2
        } else {
            1
        };
        let owner_i: usize = delegate_i + 1;
        let ghost olds = handles(old(accounts)@);
        assert(olds[0] == accounts[0]@);
        assert(olds[delegate_i as int] == accounts[delegate_i as int]@);
        assert(olds[owner_i as int] == accounts[owner_i as int]@);
        let mut source_account = Account::unpack(&accounts[0].data)?;
        if source_account.is_frozen() {
            return Err(TokenError::AccountFrozen);
        }
        match expected_decimals {
            Some(d) => {
                assert(olds[1] == accounts[1]@);
                if !key_eq(&source_account.mint, &accounts[1].key) {
                    return Err(TokenError::MintMismatch);
                }
                let mint = Mint::unpack(&accounts[1].data)?;
                if d != mint.decimals {
                    return Err(TokenError::MintDecimalsMismatch);
                }
            },
            None => {},
        }
        let ghost sviews = olds.skip(owner_i + 1);
        let signers = vstd::slice::slice_subrange(accounts.as_slice(), owner_i + 1, accounts.len());
        assert(handles(signers@) =~= sviews);
        Self::validate_owner(program_id, &source_account.owner, &accounts[owner_i], signers)?;
        source_account.delegate = Some(accounts[delegate_i].key);
        source_account.delegated_amount = amount;
        let data_len = accounts[0].data.len();
        let mut buf = crate::bytesutil::read_bytes_at(&accounts[0].data, 0, data_len);
        assert(buf@ =~= olds[0].data);
        source_account.pack_into_slice(&mut buf);
        Self::set_handle_data(accounts, 0, buf);
        proof {
            let expect = spec_process_approve(program_id@, olds, amount, expected_decimals);
            assert(expect is Ok);
            assert(handles(accounts@) =~= expect->Ok_0);
        }
        Ok(())
    }

    /// Approves a delegate over a user portfolio: after the owner's
    /// authorization, stores the delegate key and the approved allowance.
    #[allow(non_snake_case)]
    #[verifier::loop_isolation(false)]
    pub fn process_approve_User_Portfolio(program_id: &Pubkey, accounts: &mut Vec<AccountHandle>,
        amount: u64) -> (r: Result<(), TokenError>)
        ensures
            match r {
                Ok(()) => spec_process_approve_user_portfolio(
                    program_id@,
                    handles(old(accounts)@),
                    amount,
                ) == Ok::<Seq<HandleView>, TokenError>(handles(final(accounts)@)),
                Err(e) => spec_process_approve_user_portfolio(
                    program_id@,
                    handles(old(accounts)@),
                    amount,
                ) == Err::<Seq<HandleView>, TokenError>(e) && final(accounts)@ == old(accounts)@,
            },
    {
        if accounts.len() < 3 {
            return Err(TokenError::NotEnoughAccountKeys);
        }
        let ghost olds = handles(old(accounts)@);
        assert(olds[0] == accounts[0]@);
        assert(olds[1] == accounts[1]@);
        assert(olds[2] == accounts[2]@);
        let mut source_account = UserPortfolio::unpack(&accounts[0].data)?;
        let ghost sviews = olds.skip(3);
        let signers = vstd::slice::slice_subrange(accounts.as_slice(), 3, accounts.len());
        assert(handles(signers@) =~= sviews);
        Self::validate_owner(program_id, &source_account.owner, &accounts[2], signers)?;
        source_account.delegate = accounts[1].key;
        source_account.delegated_amount = amount;
        let data_len = accounts[0].data.len();
        let mut buf = crate::bytesutil::read_bytes_at(&accounts[0].data, 0, data_len);
        assert(buf@ =~= olds[0].data);
        source_account.pack_into_slice(&mut buf);
        Self::set_handle_data(accounts, 0, buf);
        proof {
            let expect = spec_process_approve_user_portfolio(program_id@, olds, amount);
            assert(expect is Ok);
            assert(handles(accounts@) =~= expect->Ok_0);
        }
        Ok(())
    }

    /// Revokes the delegate's authority: after the owner's authorization,
    /// clears the delegate and its allowance.
    #[verifier::loop_isolation(false)]
    pub fn process_revoke(program_id: &Pubkey, accounts: &mut Vec<AccountHandle>) -> (r: Result<
        (),
        TokenError,
    >)
        ensures
            match r {
                Ok(()) => spec_process_revoke(program_id@, handles(old(accounts)@)) == Ok::<
                    Seq<HandleView>,
                    TokenError,
                >(handles(final(accounts)@)),
                Err(e) => spec_process_revoke(program_id@, handles(old(accounts)@)) == Err::<
                    Seq<HandleView>,
                    TokenError,
                >(e) && final(accounts)@ == old(accounts)@,
            },
    {
        if accounts.len() < 1 {
            return Err(TokenError::NotEnoughAccountKeys);
        }
        let ghost olds = handles(old(accounts)@);
        assert(olds[0] == accounts[0]@);
        let mut source_account = Account::unpack(&accounts[0].data)?;
        if accounts.len() < 2 {
            return Err(TokenError::NotEnoughAccountKeys);
        }
        assert(olds[1] == accounts[1]@);
        if source_account.is_frozen() {
            return Err(TokenError::AccountFrozen);
        }
        let ghost sviews = olds.skip(2);
        let signers = vstd::slice::slice_subrange(accounts.as_slice(), 2, accounts.len());
        assert(handles(signers@) =~= sviews);
        Self::validate_owner(program_id, &source_account.owner, &accounts[1], signers)?;
        source_account.delegate = None;
        source_account.delegated_amount = 0;
        let data_len = accounts[0].data.len();
        let mut buf = crate::bytesutil::read_bytes_at(&accounts[0].data, 0, data_len);
        assert(buf@ =~= olds[0].data);
        source_account.pack_into_slice(&mut buf);
        Self::set_handle_data(accounts, 0, buf);
        proof {
            let expect = spec_process_revoke(program_id@, olds);
            assert(expect is Ok);
            assert(handles(accounts@) =~= expect->Ok_0);
        }
        Ok(())
    }

    /// Sets a new authority of a balance account or asset class; the record
    /// kind is decided by the buffer size. Ownership of a balance account
    /// may be transferred but never cleared; a close authority may be
    /// cleared; a mint or freeze authority may be changed only while still
    /// present, so once cleared it can never come back.
    #[verifier::loop_isolation(false)]
    pub fn process_set_authority(program_id: &Pubkey, accounts: &mut Vec<AccountHandle>,
        authority_type: AuthorityType, new_authority: Option<Pubkey>) -> (r: Result<
        (),
        TokenError,
    >)
        ensures
            match r {
                Ok(()) => spec_process_set_authority(
                    program_id@,
                    handles(old(accounts)@),
                    authority_type,
                    crate::bytesutil::opt_key_view(new_authority),
                ) == Ok::<Seq<HandleView>, TokenError>(handles(final(accounts)@)),
                Err(e) => spec_process_set_authority(
                    program_id@,
                    handles(old(accounts)@),
                    authority_type,
                    crate::bytesutil::opt_key_view(new_authority),
                ) == Err::<Seq<HandleView>, TokenError>(e) && final(accounts)@ == old(accounts)@,
            },
    {
        if accounts.len() < 2 {
            return Err(TokenError::NotEnoughAccountKeys);
        }
        let ghost olds = handles(old(accounts)@);
        assert(olds[0] == accounts[0]@);
        assert(olds[1] == accounts[1]@);
        let ghost sviews = olds.skip(2);
        let signers = vstd::slice::slice_subrange(accounts.as_slice(), 2, accounts.len());
        assert(handles(signers@) =~= sviews);
        if accounts[0].data.len() == ACCOUNT_LEN {
            let mut account = Account::unpack(&accounts[0].data)?;
            if account.is_frozen() {
                return Err(TokenError::AccountFrozen);
            }
            match authority_type {
                AuthorityType::AccountOwner => {
                    Self::validate_owner(program_id, &account.owner, &accounts[1], signers)?;
                    match new_authority {
                        Some(authority) => {
                            account.owner = authority;
                        },
                        None => {
                            return Err(TokenError::InvalidInstruction);
                        },
                    }
                },
                AuthorityType::CloseAccount => {
                    let authority = match account.close_authority {
                        Some(a) => a,
                        None => account.owner,
                    };
                    Self::validate_owner(program_id, &authority, &accounts[1], signers)?;
                    account.close_authority = new_authority;
                },
                _ => {
                    return Err(TokenError::AuthorityTypeNotSupported);
                },
            }
            let data_len = accounts[0].data.len();
            let mut buf = crate::bytesutil::read_bytes_at(&accounts[0].data, 0, data_len);
            assert(buf@ =~= olds[0].data);
            account.pack_into_slice(&mut buf);
            Self::set_handle_data(accounts, 0, buf);
            proof {
                let expect = spec_process_set_authority(
                    program_id@,
                    olds,
                    authority_type,
                    crate::bytesutil::opt_key_view(new_authority),
                );
                assert(expect is Ok);
                assert(handles(accounts@) =~= expect->Ok_0);
            }
            Ok(())
        } else if accounts[0].data.len() == MINT_LEN {
            let mut mint = Mint::unpack(&accounts[0].data)?;
            match authority_type {
                AuthorityType::MintTokens => {
                    let mint_authority = match mint.mint_authority {
                        Some(a) => a,
                        None => {
                            return Err(TokenError::FixedSupply);
                        },
                    };
                    Self::validate_owner(program_id, &mint_authority, &accounts[1], signers)?;
                    mint.mint_authority = new_authority;
                },
                AuthorityType::FreezeAccount => {
                    let freeze_authority = match mint.freeze_authority {
                        Some(a) => a,
                        None => {
                            return Err(TokenError::MintCannotFreeze);
                        },
                    };
                    Self::validate_owner(program_id, &freeze_authority, &accounts[1], signers)?;
                    mint.freeze_authority = new_authority;
                },
                _ => {
                    return Err(TokenError::AuthorityTypeNotSupported);
                },
            }
            let data_len = accounts[0].data.len();
            let mut buf = crate::bytesutil::read_bytes_at(&accounts[0].data, 0, data_len);
            assert(buf@ =~= olds[0].data);
            mint.pack_into_slice(&mut buf);
            Self::set_handle_data(accounts, 0, buf);
            proof {
                let expect = spec_process_set_authority(
                    program_id@,
                    olds,
                    authority_type,
                    crate::bytesutil::opt_key_view(new_authority),
                );
                assert(expect is Ok);
                assert(handles(accounts@) =~= expect->Ok_0);
            }
            Ok(())
        } else {
            Err(TokenError::InvalidArgument)
        }
    }


    /// Mints new tokens to a balance account under the mint authority,
    /// raising the balance and the total supply and re-seeding the usdc and
    /// asset sub-balances from the minted amount.
    #[verifier::loop_isolation(false)]
    pub fn process_mint_to(program_id: &Pubkey, accounts: &mut Vec<AccountHandle>, amount: u64,
        expected_decimals: Option<u8>) -> (r: Result<(), TokenError>)
        ensures
            match r {
                Ok(()) => spec_process_mint_to(
                    program_id@,
                    handles(old(accounts)@),
                    amount,
                    expected_decimals,
                ) == Ok::<Seq<HandleView>, TokenError>(handles(final(accounts)@)),
                Err(e) => spec_process_mint_to(
                    program_id@,
                    handles(old(accounts)@),
                    amount,
                    expected_decimals,
                ) == Err::<Seq<HandleView>, TokenError>(e) && final(accounts)@ == old(accounts)@,
            },
    {
        if accounts.len() < 3 {
            return Err(TokenError::NotEnoughAccountKeys);
        }
        let ghost olds = handles(old(accounts)@);
        assert(olds[0] == accounts[0]@);
        assert(olds[1] == accounts[1]@);
        assert(olds[2] == accounts[2]@);
        let mut dest_account = Account::unpack(&accounts[1].data)?;
        if dest_account.is_frozen() {
            return Err(TokenError::AccountFrozen);
        }
        if dest_account.is_native() {
            return Err(TokenError::NativeNotSupported);
        }
        if !key_eq(&accounts[0].key, &dest_account.mint) {
            return Err(TokenError::MintMismatch);
        }
        let mut mint = Mint::unpack(&accounts[0].data)?;
        match expected_decimals {
            Some(d) => {
                if d != mint.decimals {
                    return Err(TokenError::MintDecimalsMismatch);
                }
            },
            None => {},
        }
        let ghost sviews = olds.skip(3);
        let signers = vstd::slice::slice_subrange(accounts.as_slice(), 3, accounts.len());
        assert(handles(signers@) =~= sviews);
        match mint.mint_authority {
            Some(mint_authority) => {
                Self::validate_owner(program_id, &mint_authority, &accounts[2], signers)?;
            },
            None => {
                return Err(TokenError::FixedSupply);
            },
        }
        dest_account.amount = match dest_account.amount.checked_add(amount) {
            None => {
                return Err(TokenError::Overflow);
            },
            Some(x) => x,
        };
        dest_account.usdc = match amount.checked_mul(2) {
            None => {
                return Err(TokenError::Overflow);
            },
            Some(x) => x,
        };
        dest_account.asset = amount / 2;
        mint.supply = match mint.supply.checked_add(amount) {
            None => {
                return Err(TokenError::Overflow);
            },
            Some(x) => x,
        };
        let dest_len = accounts[1].data.len();
        let mut dest_buf = crate::bytesutil::read_bytes_at(&accounts[1].data, 0, dest_len);
        assert(dest_buf@ =~= olds[1].data);
        dest_account.pack_into_slice(&mut dest_buf);
        Self::set_handle_data(accounts, 1, dest_buf);
        assert(handles(accounts@)[0] == accounts@[0]@);
        assert(accounts@[0]@.data == olds[0].data);
        let mint_len = accounts[0].data.len();
        let mut mint_buf = crate::bytesutil::read_bytes_at(&accounts[0].data, 0, mint_len);
        assert(mint_buf@ =~= olds[0].data);
        mint.pack_into_slice(&mut mint_buf);
        Self::set_handle_data(accounts, 0, mint_buf);
        proof {
            let expect = spec_process_mint_to(program_id@, olds, amount, expected_decimals);
            assert(expect is Ok);
            assert(handles(accounts@) =~= expect->Ok_0);
        }
        Ok(())
    }

    /// Burns tokens from a balance account under the owner's or delegate's
    /// authority, lowering the balance and the total supply.
    #[verifier::loop_isolation(false)]
    pub fn process_burn(program_id: &Pubkey, accounts: &mut Vec<AccountHandle>, amount: u64,
        expected_decimals: Option<u8>) -> (r: Result<(), TokenError>)
        ensures
            match r {
                Ok(()) => spec_process_burn(
                    program_id@,
                    handles(old(accounts)@),
                    amount,
                    expected_decimals,
                ) == Ok::<Seq<HandleView>, TokenError>(handles(final(accounts)@)),
                Err(e) => spec_process_burn(
                    program_id@,
                    handles(old(accounts)@),
                    amount,
                    expected_decimals,
                ) == Err::<Seq<HandleView>, TokenError>(e) && final(accounts)@ == old(accounts)@,
            },
    {
        if accounts.len() < 3 {
            return Err(TokenError::NotEnoughAccountKeys);
        }
        let ghost olds = handles(old(accounts)@);
        assert(olds[0] == accounts[0]@);
        assert(olds[1] == accounts[1]@);
        assert(olds[2] == accounts[2]@);
        let mut source_account = Account::unpack(&accounts[0].data)?;
        let mut mint = Mint::unpack(&accounts[1].data)?;
        if source_account.is_frozen() {
            return Err(TokenError::AccountFrozen);
        }
        if source_account.is_native() {
            return Err(TokenError::NativeNotSupported);
        }
        if source_account.amount < amount {
            return Err(TokenError::InsufficientFunds);
        }
        if !key_eq(&accounts[1].key, &source_account.mint) {
            return Err(TokenError::MintMismatch);
        }
        match expected_decimals {
            Some(d) => {
                if d != mint.decimals {
                    return Err(TokenError::MintDecimalsMismatch);
                }
            },
            None => {},
        }
        let ghost src0 = source_account@;
        let ghost sviews = olds.skip(3);
        let signers = vstd::slice::slice_subrange(accounts.as_slice(), 3, accounts.len());
        assert(handles(signers@) =~= sviews);
        let use_delegate = match &source_account.delegate {
            Some(d) => key_eq(d, &accounts[2].key),
            None => false,
        };
        if use_delegate {
            let d = source_account.delegate.unwrap();
            Self::validate_owner(program_id, &d, &accounts[2], signers)?;
            if source_account.delegated_amount < amount {
                return Err(TokenError::InsufficientFunds);
            }
            source_account.delegated_amount = source_account.delegated_amount - amount;
            if source_account.delegated_amount == 0 {
                source_account.delegate = None;
            }
        } else {
            Self::validate_owner(program_id, &source_account.owner, &accounts[2], signers)?;
        }
        assert(spec_authorize_spender(program_id@, src0, olds[2], sviews, amount, false)
            == Ok::<AccountView, TokenError>(source_account@));
        source_account.amount = source_account.amount - amount;
        mint.supply = match mint.supply.checked_sub(amount) {
            None => {
                return Err(TokenError::Overflow);
            },
            Some(x) => x,
        };
        let src_len = accounts[0].data.len();
        let mut src_buf = crate::bytesutil::read_bytes_at(&accounts[0].data, 0, src_len);
        assert(src_buf@ =~= olds[0].data);
        source_account.pack_into_slice(&mut src_buf);
        Self::set_handle_data(accounts, 0, src_buf);
        assert(handles(accounts@)[1] == accounts@[1]@);
        assert(accounts@[1]@.data == olds[1].data);
        let mint_len = accounts[1].data.len();
        let mut mint_buf = crate::bytesutil::read_bytes_at(&accounts[1].data, 0, mint_len);
        assert(mint_buf@ =~= olds[1].data);
        mint.pack_into_slice(&mut mint_buf);
        Self::set_handle_data(accounts, 1, mint_buf);
        proof {
            let expect = spec_process_burn(program_id@, olds, amount, expected_decimals);
            assert(expect is Ok);
            assert(handles(accounts@) =~= expect->Ok_0);
        }
        Ok(())
    }

    /// Closes a balance account under its close authority (or owner): a
    /// non-native account must hold a zero balance; all lamports move to the
    /// destination handle and the account's balance is zeroed.
    #[verifier::loop_isolation(false)]
    pub fn process_close_account(program_id: &Pubkey, accounts: &mut Vec<AccountHandle>) -> (r:
        Result<(), TokenError>)
        ensures
            match r {
                Ok(()) => spec_process_close_account(program_id@, handles(old(accounts)@)) == Ok::<
                    Seq<HandleView>,
                    TokenError,
                >(handles(final(accounts)@)),
                Err(e) => spec_process_close_account(program_id@, handles(old(accounts)@))
                    == Err::<Seq<HandleView>, TokenError>(e) && final(accounts)@ == old(
                    accounts,
                )@,
            },
    {
        if accounts.len() < 3 {
            return Err(TokenError::NotEnoughAccountKeys);
        }
        let ghost olds = handles(old(accounts)@);
        assert(olds[0] == accounts[0]@);
        assert(olds[1] == accounts[1]@);
        assert(olds[2] == accounts[2]@);
        let mut source_account = Account::unpack(&accounts[0].data)?;
        if !source_account.is_native() && source_account.amount != 0 {
            return Err(TokenError::NonNativeHasBalance);
        }
        let authority = match source_account.close_authority {
            Some(a) => a,
            None => source_account.owner,
        };
        let ghost sviews = olds.skip(3);
        let signers = vstd::slice::slice_subrange(accounts.as_slice(), 3, accounts.len());
        assert(handles(signers@) =~= sviews);
        Self::validate_owner(program_id, &authority, &accounts[2], signers)?;
        let dest_lamports = match accounts[1].lamports.checked_add(accounts[0].lamports) {
            None => {
                return Err(TokenError::Overflow);
            },
            Some(x) => x,
        };
        Self::set_handle_lamports(accounts, 1, dest_lamports);
        Self::set_handle_lamports(accounts, 0, 0);
        source_account.amount = 0;
        assert(handles(accounts@)[0] == accounts@[0]@);
        assert(accounts@[0]@.data == olds[0].data);
        let src_len = accounts[0].data.len();
        let mut src_buf = crate::bytesutil::read_bytes_at(&accounts[0].data, 0, src_len);
        assert(src_buf@ =~= olds[0].data);
        source_account.pack_into_slice(&mut src_buf);
        Self::set_handle_data(accounts, 0, src_buf);
        proof {
            let expect = spec_process_close_account(program_id@, olds);
            assert(expect is Ok);
            assert(handles(accounts@) =~= expect->Ok_0);
        }
        Ok(())
    }

    /// Freezes or thaws a balance account under the asset class's freeze
    /// authority; the account must not already be in the requested state.
    #[verifier::loop_isolation(false)]
    pub fn process_toggle_freeze_account(program_id: &Pubkey, accounts: &mut Vec<AccountHandle>,
        freeze: bool) -> (r: Result<(), TokenError>)
        ensures
            match r {
                Ok(()) => spec_process_toggle_freeze_account(
                    program_id@,
                    handles(old(accounts)@),
                    freeze,
                ) == Ok::<Seq<HandleView>, TokenError>(handles(final(accounts)@)),
                Err(e) => spec_process_toggle_freeze_account(
                    program_id@,
                    handles(old(accounts)@),
                    freeze,
                ) == Err::<Seq<HandleView>, TokenError>(e) && final(accounts)@ == old(accounts)@,
            },
    {
        if accounts.len() < 3 {
            return Err(TokenError::NotEnoughAccountKeys);
        }
        let ghost olds = handles(old(accounts)@);
        assert(olds[0] == accounts[0]@);
        assert(olds[1] == accounts[1]@);
        assert(olds[2] == accounts[2]@);
        let mut source_account = Account::unpack(&accounts[0].data)?;
        if freeze == source_account.is_frozen() {
            return Err(TokenError::InvalidState);
        }
        if source_account.is_native() {
            return Err(TokenError::NativeNotSupported);
        }
        if !key_eq(&accounts[1].key, &source_account.mint) {
            return Err(TokenError::MintMismatch);
        }
        let mint = Mint::unpack(&accounts[1].data)?;
        let ghost sviews = olds.skip(3);
        let signers = vstd::slice::slice_subrange(accounts.as_slice(), 3, accounts.len());
        assert(handles(signers@) =~= sviews);
        match mint.freeze_authority {
            Some(authority) => {
                Self::validate_owner(program_id, &authority, &accounts[2], signers)?;
            },
            None => {
                return Err(TokenError::MintCannotFreeze);
            },
        }
        source_account.state = if freeze {
            AccountState::Frozen
        } else {
            AccountState::Initialized
        };
        let src_len = accounts[0].data.len();
        let mut src_buf = crate::bytesutil::read_bytes_at(&accounts[0].data, 0, src_len);
        assert(src_buf@ =~= olds[0].data);
        source_account.pack_into_slice(&mut src_buf);
        Self::set_handle_data(accounts, 0, src_buf);
        proof {
            let expect = spec_process_toggle_freeze_account(program_id@, olds, freeze);
            assert(expect is Ok);
            assert(handles(accounts@) =~= expect->Ok_0);
        }
        Ok(())
    }


    /// Performs the ledger's part of a deposit: validates that the thirteen
    /// handles the swap chassis routes through are present; the swap itself
    /// is the host's work and no buffer changes.
    pub fn process_deposit(_program_id: &Pubkey, accounts: &mut Vec<AccountHandle>, amount: u64,
        volatility: u64, nonce: u8) -> (r: Result<(), TokenError>)
        ensures
            final(accounts)@ == old(accounts)@,
            match r {
                Ok(()) => spec_process_deposit(
                    handles(old(accounts)@),
                    amount,
                    volatility,
                    nonce,
                ) == Ok::<Seq<HandleView>, TokenError>(handles(final(accounts)@)),
                Err(e) => spec_process_deposit(handles(old(accounts)@), amount, volatility, nonce)
                    == Err::<Seq<HandleView>, TokenError>(e),
            },
    {
        if accounts.len() < 13 {
            return Err(TokenError::NotEnoughAccountKeys);
        }
        Ok(())
    }

    /// Withdraws an amount from a balance account under the owner's
    /// authority, reducing the usdc and asset sub-balances by the same
    /// proportional share as a transfer.
    #[verifier::loop_isolation(false)]
    pub fn process_withdraw(program_id: &Pubkey, accounts: &mut Vec<AccountHandle>, amount: u64)
        -> (r: Result<(), TokenError>)
        ensures
            match r {
                Ok(()) => spec_process_withdraw(program_id@, handles(old(accounts)@), amount)
                    == Ok::<Seq<HandleView>, TokenError>(handles(final(accounts)@)),
                Err(e) => spec_process_withdraw(program_id@, handles(old(accounts)@), amount)
                    == Err::<Seq<HandleView>, TokenError>(e) && final(accounts)@ == old(
                    accounts,
                )@,
            },
    {
        if accounts.len() < 2 {
            return Err(TokenError::NotEnoughAccountKeys);
        }
        let ghost olds = handles(old(accounts)@);
        assert(olds[0] == accounts[0]@);
        assert(olds[1] == accounts[1]@);
        let mut source_account = Account::unpack(&accounts[0].data)?;
        let ghost sviews = olds.skip(2);
        let signers = vstd::slice::slice_subrange(accounts.as_slice(), 2, accounts.len());
        assert(handles(signers@) =~= sviews);
        Self::validate_owner(program_id, &source_account.owner, &accounts[1], signers)?;
        let value = match amount.checked_mul(100) {
            None => {
                return Err(TokenError::Overflow);
            },
            Some(v) => match v.checked_div(source_account.amount) {
                None => {
                    return Err(TokenError::Overflow);
                },
                Some(v2) => v2,
            },
        };
        let usdc_burned = match source_account.usdc.checked_mul(value) {
            None => {
                return Err(TokenError::Overflow);
            },
            Some(x) => x / 100,
        };
        let asset_burned = match source_account.asset.checked_mul(value) {
            None => {
                return Err(TokenError::Overflow);
            },
            Some(x) => x / 100,
        };
        source_account.amount = match source_account.amount.checked_sub(amount) {
            None => {
                return Err(TokenError::Overflow);
            },
            Some(x) => x,
        };
        source_account.usdc = match source_account.usdc.checked_sub(usdc_burned) {
            None => {
                return Err(TokenError::Overflow);
            },
            Some(x) => x,
        };
        source_account.asset = match source_account.asset.checked_sub(asset_burned) {
            None => {
                return Err(TokenError::Overflow);
            },
            Some(x) => x,
        };
        let src_len = accounts[0].data.len();
        let mut src_buf = crate::bytesutil::read_bytes_at(&accounts[0].data, 0, src_len);
        assert(src_buf@ =~= olds[0].data);
        source_account.pack_into_slice(&mut src_buf);
        Self::set_handle_data(accounts, 0, src_buf);
        proof {
            let expect = spec_process_withdraw(program_id@, olds, amount);
            assert(expect is Ok);
            assert(handles(accounts@) =~= expect->Ok_0);
        }
        Ok(())
    }

    /// Initializes a portfolio descriptor: writes the creator, metadata and
    /// the nine asset allocations, addresses, periods and sell-into targets,
    /// and sets the initialized flag. The allocation percentages are not
    /// validated to sum to one hundred; that is the caller's responsibility.
    #[allow(non_snake_case)]
    #[verifier::loop_isolation(false)]
    pub fn process_initialize_portfolio(_program_id: &Pubkey, accounts: &mut Vec<AccountHandle>,
        metaDataUrl: Vec<u8>, metaDataHash: u16,
        amountAsset1: u8, periodAsset1: u8,
        amountAsset2: u8, periodAsset2: u8,
        amountAsset3: u8, periodAsset3: u8,
        amountAsset4: u8, periodAsset4: u8,
        amountAsset5: u8, periodAsset5: u8,
        amountAsset6: u8, periodAsset6: u8,
        amountAsset7: u8, periodAsset7: u8,
        amountAsset8: u8, periodAsset8: u8,
        amountAsset9: u8, periodAsset9: u8,
    ) -> (r: Result<(), TokenError>)
        requires
            metaDataUrl@.len() == 128,
        ensures
            match r {
                Ok(()) => spec_process_initialize_portfolio(
                    handles(old(accounts)@),
                    metaDataUrl@,
                    metaDataHash,
                    seq![amountAsset1, amountAsset2, amountAsset3, amountAsset4, amountAsset5, amountAsset6, amountAsset7, amountAsset8, amountAsset9],
                    seq![periodAsset1, periodAsset2, periodAsset3, periodAsset4, periodAsset5, periodAsset6, periodAsset7, periodAsset8, periodAsset9],
                ) == Ok::<Seq<HandleView>, TokenError>(handles(final(accounts)@)),
                Err(e) => spec_process_initialize_portfolio(
                    handles(old(accounts)@),
                    metaDataUrl@,
                    metaDataHash,
                    seq![amountAsset1, amountAsset2, amountAsset3, amountAsset4, amountAsset5, amountAsset6, amountAsset7, amountAsset8, amountAsset9],
                    seq![periodAsset1, periodAsset2, periodAsset3, periodAsset4, periodAsset5, periodAsset6, periodAsset7, periodAsset8, periodAsset9],
                ) == Err::<Seq<HandleView>, TokenError>(e) && final(accounts)@ == old(accounts)@,
            },
    {
        if accounts.len() < 21 {
            return Err(TokenError::NotEnoughAccountKeys);
        }
        let ghost olds = handles(old(accounts)@);
        assert(forall|i: int| 0 <= i < 21 ==> olds[i] == accounts@[i]@);
        let portfolio = Portfolio::unpack(&accounts[0].data)?;
        if portfolio.is_initialize == 1 {
            return Err(TokenError::AlreadyInUse);
        }
        let new_portfolio = Portfolio {
            portfolio_account: accounts[0].key,
            creator_portfolio: accounts[1].key,
            metadataUrl: metaDataUrl,
            metadataHash: metaDataHash,
            is_initialize: 1,
            amountAsset1,
            addressAsset1: accounts[2].key,
            periodAsset1,
            assetToSoldIntoAsset1: accounts[3].key,
            amountAsset2,
            addressAsset2: accounts[4].key,
            periodAsset2,
            assetToSoldIntoAsset2: accounts[5].key,
            amountAsset3,
            addressAsset3: accounts[6].key,
            periodAsset3,
            assetToSoldIntoAsset3: accounts[7].key,
            amountAsset4,
            addressAsset4: accounts[8].key,
            periodAsset4,
            assetToSoldIntoAsset4: accounts[9].key,
            amountAsset5,
            addressAsset5: accounts[10].key,
            periodAsset5,
            assetToSoldIntoAsset5: accounts[11].key,
            amountAsset6,
            addressAsset6: accounts[12].key,
            periodAsset6,
            assetToSoldIntoAsset6: accounts[13].key,
            amountAsset7,
            addressAsset7: accounts[14].key,
            periodAsset7,
            assetToSoldIntoAsset7: accounts[15].key,
            amountAsset8,
            addressAsset8: accounts[16].key,
            periodAsset8,
            assetToSoldIntoAsset8: accounts[17].key,
            amountAsset9,
            addressAsset9: accounts[18].key,
            periodAsset9,
            assetToSoldIntoAsset9: accounts[19].key,
        };
        let data_len = accounts[0].data.len();
        let mut buf = crate::bytesutil::read_bytes_at(&accounts[0].data, 0, data_len);
        assert(buf@ =~= olds[0].data);
        new_portfolio.pack_into_slice(&mut buf);
        Self::set_handle_data(accounts, 0, buf);
        proof {
            let expect = spec_process_initialize_portfolio(
                olds,
                new_portfolio@.metadataUrl,
                metaDataHash,
                seq![amountAsset1, amountAsset2, amountAsset3, amountAsset4, amountAsset5, amountAsset6, amountAsset7, amountAsset8, amountAsset9],
                seq![periodAsset1, periodAsset2, periodAsset3, periodAsset4, periodAsset5, periodAsset6, periodAsset7, periodAsset8, periodAsset9],
            );
            assert(expect is Ok);
            assert(handles(accounts@) =~= expect->Ok_0);
        }
        Ok(())
    }

    /// Creates a user portfolio: writes the self-reference, portfolio
    /// reference, owner and delegated amount over the decoded record. The
    /// record has no initialized flag, so re-initialization silently
    /// overwrites.
    #[allow(non_snake_case)]
    #[verifier::loop_isolation(false)]
    pub fn process_create_Init_User_Portfolio(_program_id: &Pubkey,
        accounts: &mut Vec<AccountHandle>, delegated_amount: u64) -> (r: Result<(), TokenError>)
        ensures
            match r {
                Ok(()) => spec_process_create_init_user_portfolio(
                    handles(old(accounts)@),
                    delegated_amount,
                ) == Ok::<Seq<HandleView>, TokenError>(handles(final(accounts)@)),
                Err(e) => spec_process_create_init_user_portfolio(
                    handles(old(accounts)@),
                    delegated_amount,
                ) == Err::<Seq<HandleView>, TokenError>(e) && final(accounts)@ == old(accounts)@,
            },
    {
        if accounts.len() < 4 {
            return Err(TokenError::NotEnoughAccountKeys);
        }
        let ghost olds = handles(old(accounts)@);
        assert(olds[0] == accounts[0]@);
        assert(olds[1] == accounts[1]@);
        assert(olds[2] == accounts[2]@);
        let mut user_portfolio = UserPortfolio::unpack(&accounts[0].data)?;
        user_portfolio.user_portfolio_account = accounts[0].key;
        user_portfolio.portfolio_address = accounts[1].key;
        user_portfolio.owner = accounts[2].key;
        user_portfolio.delegated_amount = delegated_amount;
        let data_len = accounts[0].data.len();
        let mut buf = crate::bytesutil::read_bytes_at(&accounts[0].data, 0, data_len);
        assert(buf@ =~= olds[0].data);
        user_portfolio.pack_into_slice(&mut buf);
        Self::set_handle_data(accounts, 0, buf);
        proof {
            let expect = spec_process_create_init_user_portfolio(olds, delegated_amount);
            assert(expect is Ok);
            assert(handles(accounts@) =~= expect->Ok_0);
        }
        Ok(())
    }


    /// Decodes the instruction bytes and runs the matching handler. One
    /// terminal outcome per invocation: on success the touched records are
    /// re-encoded in place; on any failure the handles are exactly as the
    /// host passed them. `rent_minimum_balance` is the host's rent-exemption
    /// threshold for the record an initializer would create.
    #[allow(non_snake_case)]
    pub fn process(program_id: &Pubkey, accounts: &mut Vec<AccountHandle>, input: &Vec<u8>,
        rent_minimum_balance: u64) -> (r: Result<(), TokenError>)
        ensures
            match r {
                Ok(()) => spec_process(
                    program_id@,
                    handles(old(accounts)@),
                    input@,
                    rent_minimum_balance,
                ) == Ok::<Seq<HandleView>, TokenError>(handles(final(accounts)@)),
                Err(e) => spec_process(
                    program_id@,
                    handles(old(accounts)@),
                    input@,
                    rent_minimum_balance,
                ) == Err::<Seq<HandleView>, TokenError>(e) && final(accounts)@ == old(accounts)@,
            },
    {
        let instruction = TokenInstruction::unpack(input)?;
        match instruction {
            TokenInstruction::InitializeMint {
                decimals,
                mint_authority,
                freeze_authority,
                mint_id_asset,
                pubkey_swap,
            } => Self::process_initialize_mint(
                accounts,
                decimals,
                mint_authority,
                freeze_authority,
                mint_id_asset,
                pubkey_swap,
                program_id,
                rent_minimum_balance,
            ),
            TokenInstruction::InitializeAccount => Self::process_initialize_account(
                accounts,
                rent_minimum_balance,
            ),
            TokenInstruction::InitializeAccount2 { owner } => Self::process_initialize_account2(
                accounts,
                owner,
                rent_minimum_balance,
            ),
            TokenInstruction::InitializeMultisig { m } => Self::process_initialize_multisig(
                accounts,
                m,
                rent_minimum_balance,
            ),
            TokenInstruction::Transfer { amount } => Self::process_transfer(
                program_id,
                accounts,
                amount,
                None,
            ),
            TokenInstruction::Approve { amount } => Self::process_approve(
                program_id,
                accounts,
                amount,
                None,
            ),
            TokenInstruction::Revoke => Self::process_revoke(program_id, accounts),
            TokenInstruction::SetAuthority { authority_type, new_authority } => {
                Self::process_set_authority(program_id, accounts, authority_type, new_authority)
            },
            TokenInstruction::MintTo { amount } => Self::process_mint_to(
                program_id,
                accounts,
                amount,
                None,
            ),
            TokenInstruction::Burn { amount } => Self::process_burn(
                program_id,
                accounts,
                amount,
                None,
            ),
            TokenInstruction::CloseAccount => Self::process_close_account(program_id, accounts),
            TokenInstruction::FreezeAccount => Self::process_toggle_freeze_account(
                program_id,
                accounts,
                true,
            ),
            TokenInstruction::ThawAccount => Self::process_toggle_freeze_account(
                program_id,
                accounts,
                false,
            ),
            TokenInstruction::TransferChecked { amount, decimals } => Self::process_transfer(
                program_id,
                accounts,
                amount,
                Some(decimals),
            ),
            TokenInstruction::ApproveChecked { amount, decimals } => Self::process_approve(
                program_id,
                accounts,
                amount,
                Some(decimals),
            ),
            TokenInstruction::MintToChecked { amount, decimals } => Self::process_mint_to(
                program_id,
                accounts,
                amount,
                Some(decimals),
            ),
            TokenInstruction::BurnChecked { amount, decimals } => Self::process_burn(
                program_id,
                accounts,
                amount,
                Some(decimals),
            ),
            TokenInstruction::Deposit { amount, volatility, nonce } => Self::process_deposit(
                program_id,
                accounts,
                amount,
                volatility,
                nonce,
            ),
            TokenInstruction::Withdraw { amount } => Self::process_withdraw(
                program_id,
                accounts,
                amount,
            ),
            TokenInstruction::InitializePortfolio {
                metaDataUrl,
                metaDataHash,
                amountAsset1,
                periodAsset1,
                amountAsset2,
                periodAsset2,
                amountAsset3,
                periodAsset3,
                amountAsset4,
                periodAsset4,
                amountAsset5,
                periodAsset5,
                amountAsset6,
                periodAsset6,
                amountAsset7,
                periodAsset7,
                amountAsset8,
                periodAsset8,
                amountAsset9,
                periodAsset9,
            } => {
                assert(metaDataUrl@.len() == 128);
                Self::process_initialize_portfolio(
                    program_id,
                    accounts,
                    metaDataUrl,
                    metaDataHash,
                    amountAsset1,
                    periodAsset1,
                    amountAsset2,
                    periodAsset2,
                    amountAsset3,
                    periodAsset3,
                    amountAsset4,
                    periodAsset4,
                    amountAsset5,
                    periodAsset5,
                    amountAsset6,
                    periodAsset6,
                    amountAsset7,
                    periodAsset7,
                    amountAsset8,
                    periodAsset8,
                    amountAsset9,
                    periodAsset9,
                )
            },
            TokenInstruction::createInitUserPortfolio {
                delegated_amount,
                valueAsset1,
                valueAsset2,
                valueAsset3,
                valueAsset4,
                valueAsset5,
                valueAsset6,
                valueAsset7,
                valueAsset8,
                valueAsset9,
            } => Self::process_create_Init_User_Portfolio(
                program_id,
                accounts,
                delegated_amount,
            ),
        }
    }

    /// Validates that the expected owner authorized this invocation: the
    /// presented handle must carry the expected key and either hold a
    /// multisignature descriptor of this program, whose quorum the presented
    /// signer handles must satisfy, or have signed itself.
    #[verifier::loop_isolation(false)]
    pub fn validate_owner(program_id: &Pubkey, expected_owner: &Pubkey,
        owner_account_info: &AccountHandle, signers: &[AccountHandle]) -> (r: Result<
        (),
        TokenError,
    >)
        ensures
            match r {
                Ok(()) => spec_validate_owner(
                    program_id@,
                    expected_owner@,
                    owner_account_info@,
                    handles(signers@),
                ) == Ok::<(), TokenError>(()),
                Err(e) => spec_validate_owner(
                    program_id@,
                    expected_owner@,
                    owner_account_info@,
                    handles(signers@),
                ) == Err::<(), TokenError>(e),
            },
    {
        if !key_eq(expected_owner, &owner_account_info.key) {
            return Err(TokenError::OwnerMismatch);
        }
        if key_eq(program_id, &owner_account_info.owner) && owner_account_info.data.len()
            == MULTISIG_LEN {
            let multisig = Multisig::unpack(&owner_account_info.data)?;
            let ghost ms = multisig@;
            let ghost slots = spec_quorum_slots(ms);
            let n_slots: usize = if multisig.n as usize <= MAX_SIGNERS {
                multisig.n as usize
            } else {
                MAX_SIGNERS
            };
            assert(n_slots == slots.len()) by {
                assert(ms.signers.len() == MAX_SIGNERS);
            }
            let mut matched: Vec<bool> = Vec::new();
            let mut k: usize = 0;
            while k < n_slots
                invariant
                    k <= n_slots,
                    matched@.len() == k,
                    forall|j: int| 0 <= j < k ==> !matched@[j],
                decreases n_slots - k,
            {
                matched.push(false);
                k = k + 1;
            }
            assert(matched@ =~= all_false(slots.len()));
            proof {
                lemma_count_true_zero(matched@);
            }
            let mut num_signers: u8 = 0;
            let mut i: usize = 0;
            let ghost sviews = handles(signers@);
            let ghost matched0 = matched@;
            while i < signers.len()
                invariant
                    ms == multisig@,
                    ms.wf(),
                    n_slots <= MAX_SIGNERS,
                    n_slots == slots.len(),
                    slots == spec_quorum_slots(ms),
                    sviews == handles(signers@),
                    matched@.len() == n_slots,
                    i <= signers.len(),
                    num_signers as int + count_true(matched0) == count_true(matched@),
                    count_true(matched0) == 0,
                    count_true(matched@) <= n_slots,
                    spec_quorum_scan(slots, matched0, sviews, 0) == (match spec_quorum_scan(
                        slots,
                        matched@,
                        sviews,
                        i as int,
                    ) {
                        None => None::<(Seq<bool>, int)>,
                        Some((mf, c)) => Some((mf, num_signers + c)),
                    }),
                decreases signers.len() - i,
            {
                let h = &signers[i];
                assert(h@ == sviews[i as int]);
                let gained = match Self::match_one_handle(&multisig, n_slots, &mut matched, h) {
                    Ok(g) => g,
                    Err(e) => {
                        assert(spec_quorum_scan(slots, matched@, sviews, i as int) is None);
                        assert(spec_quorum_scan(slots, matched0, sviews, 0) is None);
                        return Err(e);
                    },
                };
                proof {
                    lemma_count_true_bound(matched@);
                }
                assert(num_signers as int + gained as int <= n_slots as int);
                num_signers = num_signers + gained;
                i = i + 1;
            }
            if num_signers < multisig.m {
                return Err(TokenError::MissingRequiredSignature);
            }
            return Ok(());
        } else if !owner_account_info.is_signer {
            return Err(TokenError::MissingRequiredSignature);
        }
        Ok(())
    }
}

/// A successful pass marks slots only forward of `pos`, never clears one,
/// and marks a slot only when the handle signed and carries the slot's key.
pub proof fn lemma_match_handle_matched_by(slots: Seq<Seq<u8>>, matched: Seq<bool>,
    h: HandleView, pos: int)
    requires
        matched.len() == slots.len(),
        0 <= pos,
    ensures
        match spec_match_handle(slots, matched, h, pos) {
            None => true,
            Some((m2, c)) => forall|j: int|
                0 <= j < slots.len() && #[trigger] m2[j] ==> matched[j] || (h.is_signer && h.key
                    == slots[j]),
        },
    decreases slots.len() - pos,
{
    if pos >= slots.len() {
    } else if slots[pos] == h.key && !matched[pos] {
        if h.is_signer {
            lemma_match_handle_matched_by(slots, matched.update(pos, true), h, pos + 1);
        }
    } else {
        lemma_match_handle_matched_by(slots, matched, h, pos + 1);
    }
}

/// A successful scan marks a slot only when some presented handle signed
/// and carries the slot's key.
pub proof fn lemma_quorum_scan_matched_by(slots: Seq<Seq<u8>>, matched: Seq<bool>,
    signers: Seq<HandleView>, i: int)
    requires
        matched.len() == slots.len(),
        0 <= i,
    ensures
        match spec_quorum_scan(slots, matched, signers, i) {
            None => true,
            Some((m3, c)) => forall|j: int|
                0 <= j < slots.len() && #[trigger] m3[j] ==> matched[j] || (exists|i2: int|
                    i <= i2 < signers.len() && #[trigger] signers[i2].is_signer && signers[i2].key
                        == slots[j]),
        },
    decreases signers.len() - i,
{
    if i < signers.len() {
        lemma_match_handle_matched_by(slots, matched, signers[i], 0);
        lemma_match_handle_count(slots, matched, signers[i], 0);
        match spec_match_handle(slots, matched, signers[i], 0) {
            None => {}
            Some((m2, c)) => {
                lemma_quorum_scan_matched_by(slots, m2, signers, i + 1);
                match spec_quorum_scan(slots, m2, signers, i + 1) {
                    None => {}
                    Some((m3, c2)) => {
                        assert forall|j: int|
                            0 <= j < slots.len() && #[trigger] m3[j] implies matched[j] || (
                        exists|i2: int|
                            i <= i2 < signers.len() && #[trigger] signers[i2].is_signer
                                && signers[i2].key == slots[j]) by {
                            if !matched[j] {
                                if m2[j] {
                                    assert(signers[i].is_signer && signers[i].key == slots[j]);
                                }
                            }
                        }
                    }
                }
            }
        }
    }
}

/// Quorum invariant: multisignature validation succeeds exactly when the
/// scan over the presented handles matches at least `m` signer slots. The
/// matched count equals the number of distinct matched slots — one physical
/// signer can never satisfy the same logical slot twice — and every matched
/// slot carries the key of a presented handle that signed.
pub proof fn lemma_quorum_invariant(ms: MultisigView, signers: Seq<HandleView>)
    requires
        ms.wf(),
    ensures
        ({
            let slots = spec_quorum_slots(ms);
            match spec_quorum_scan(slots, all_false(slots.len()), signers, 0) {
                None => spec_validate_multisig(ms, signers) == Err::<(), TokenError>(
                    TokenError::MissingRequiredSignature,
                ),
                Some((mf, c)) => {
                    &&& (spec_validate_multisig(ms, signers) == Ok::<(), TokenError>(())) <==> c
                        >= ms.m as int
                    &&& c == count_true(mf)
                    &&& c <= slots.len()
                    &&& forall|j: int|
                        0 <= j < slots.len() && #[trigger] mf[j] ==> exists|i: int|
                            0 <= i < signers.len() && #[trigger] signers[i].is_signer
                                && signers[i].key == slots[j]
                },
            }
        }),
{
    let slots = spec_quorum_slots(ms);
    let m0 = all_false(slots.len());
    lemma_count_true_zero(m0);
    lemma_quorum_scan_count(slots, m0, signers, 0);
    lemma_quorum_scan_matched_by(slots, m0, signers, 0);
    match spec_quorum_scan(slots, m0, signers, 0) {
        None => {}
        Some((mf, c)) => {
            lemma_count_true_bound(mf);
        }
    }
}

/// Balance invariant for transfers: a successful application of the
/// transfer arithmetic conserves the sum of the two accounts' primary
/// amounts, of their usdc sub-balances, and of their asset sub-balances; the
/// source loses exactly the transferred amount and the destination gains it.
/// All balances are unsigned, so none can drop below zero.
pub proof fn lemma_transfer_conserves_balances(source: AccountView, dest: AccountView,
    source_info: HandleView, dest_info: HandleView, amount: u64)
    requires
        spec_transfer_amounts(source, dest, source_info, dest_info, amount) is Ok,
    ensures
        ({
            let r = spec_transfer_amounts(source, dest, source_info, dest_info, amount)->Ok_0;
            &&& r.0.amount + r.1.amount == source.amount + dest.amount
            &&& r.0.usdc + r.1.usdc == source.usdc + dest.usdc
            &&& r.0.asset + r.1.asset == source.asset + dest.asset
            &&& r.0.amount == source.amount - amount
            &&& r.1.amount == dest.amount + amount
        }),
{
}

/// Balance invariant for transfers, at the buffer level: after a successful
/// transfer the re-encoded source and destination decode again, and the sum
/// of their primary amounts, usdc sub-balances and asset sub-balances is
/// exactly what the two records held before; a transfer onto the same handle
/// key leaves every buffer as it was.
pub proof fn lemma_transfer_conserves_in_buffers(program_id: Seq<u8>, accounts: Seq<HandleView>,
    amount: u64, expected_decimals: Option<u8>)
    requires
        spec_process_transfer(program_id, accounts, amount, expected_decimals) is Ok,
    ensures
        ({
            let dst_i: int = if expected_decimals is Some {
                2
            } else {
                1
            };
            let source = spec_account_unpack(accounts[0].data)->Ok_0;
            let dest = spec_account_unpack(accounts[dst_i].data)->Ok_0;
            let r = spec_process_transfer(program_id, accounts, amount, expected_decimals)->Ok_0;
            &&& spec_account_unpack(accounts[0].data) is Ok
            &&& spec_account_unpack(accounts[dst_i].data) is Ok
            &&& accounts[0].key == accounts[dst_i].key ==> r == accounts
            &&& accounts[0].key != accounts[dst_i].key ==> ({
                let new_source = crate::state::spec_account_dec(r[0].data);
                let new_dest = crate::state::spec_account_dec(r[dst_i].data);
                &&& new_source is Some
                &&& new_dest is Some
                &&& new_source->0.amount + new_dest->0.amount == source.amount + dest.amount
                &&& new_source->0.usdc + new_dest->0.usdc == source.usdc + dest.usdc
                &&& new_source->0.asset + new_dest->0.asset == source.asset + dest.asset
            })
        }),
{
    let dst_i: int = if expected_decimals is Some {
        2
    } else {
        1
    };
    let auth_i = dst_i + 1;
    let source = spec_account_unpack(accounts[0].data)->Ok_0;
    let dest = spec_account_unpack(accounts[dst_i].data)->Ok_0;
    crate::state::lemma_account_unpack_wf(accounts[0].data);
    crate::state::lemma_account_unpack_wf(accounts[dst_i].data);
    if accounts[0].key != accounts[dst_i].key {
        let source1 = spec_authorize_spender(
            program_id,
            source,
            accounts[auth_i],
            accounts.skip(auth_i + 1),
            amount,
            false,
        )->Ok_0;
        lemma_transfer_conserves_balances(source1, dest, accounts[0], accounts[dst_i], amount);
        let ta = spec_transfer_amounts(source1, dest, accounts[0], accounts[dst_i], amount)->Ok_0;
        crate::state::lemma_account_round_trip(ta.0, accounts[0].data);
        crate::state::lemma_account_round_trip(ta.1, accounts[dst_i].data);
    }
}

/// Balance invariant for withdrawals: a successful withdrawal re-encodes
/// the source with exactly the amount removed from the primary balance and
/// with usdc and asset sub-balances no larger than before; nothing else in
/// the record changes.
pub proof fn lemma_withdraw_reduces_balances(program_id: Seq<u8>, accounts: Seq<HandleView>,
    amount: u64)
    requires
        spec_process_withdraw(program_id, accounts, amount) is Ok,
    ensures
        ({
            let source = spec_account_unpack(accounts[0].data)->Ok_0;
            let r = spec_process_withdraw(program_id, accounts, amount)->Ok_0;
            let new_source = crate::state::spec_account_dec(r[0].data);
            &&& spec_account_unpack(accounts[0].data) is Ok
            &&& new_source is Some
            &&& new_source->0.amount == source.amount - amount
            &&& new_source->0.usdc <= source.usdc
            &&& new_source->0.asset <= source.asset
            &&& new_source->0.owner == source.owner
            &&& new_source->0.mint == source.mint
        }),
{
    let source = spec_account_unpack(accounts[0].data)->Ok_0;
    crate::state::lemma_account_unpack_wf(accounts[0].data);
    let r = spec_process_withdraw(program_id, accounts, amount)->Ok_0;
    let value = spec_ratio(amount, source.amount)->Ok_0;
    let usdc_burned = spec_sub_balance_share(source.usdc, value)->Ok_0;
    let asset_burned = spec_sub_balance_share(source.asset, value)->Ok_0;
    let new_source = AccountView {
        amount: (source.amount - amount) as u64,
        usdc: (source.usdc - usdc_burned) as u64,
        asset: (source.asset - asset_burned) as u64,
        ..source
    };
    crate::state::lemma_account_round_trip(new_source, accounts[0].data);
}

/// Frozen-account exclusion: every balance-moving or delegating instruction
/// that reaches a frozen balance account stops with `AccountFrozen` (and by
/// the processor contracts an error leaves every buffer untouched). Thawing
/// is the one instruction allowed to touch a frozen account.
pub proof fn lemma_frozen_account_rejected(program_id: Seq<u8>, accounts: Seq<HandleView>,
    amount: u64, expected_decimals: Option<u8>, authority_type: AuthorityType,
    new_authority: Option<Seq<u8>>)
    ensures
        accounts.len() >= (if expected_decimals is Some { 4int } else { 3int })
            && spec_account_unpack(accounts[0].data) is Ok && spec_account_unpack(
            accounts[0].data,
        )->Ok_0.is_frozen() && spec_account_unpack(
            accounts[if expected_decimals is Some { 2int } else { 1int }].data,
        ) is Ok ==> spec_process_transfer(program_id, accounts, amount, expected_decimals)
            == Err::<Seq<HandleView>, TokenError>(TokenError::AccountFrozen),
        accounts.len() >= (if expected_decimals is Some { 4int } else { 3int })
            && spec_account_unpack(accounts[0].data) is Ok && spec_account_unpack(
            accounts[0].data,
        )->Ok_0.is_frozen() ==> spec_process_approve(
            program_id,
            accounts,
            amount,
            expected_decimals,
        ) == Err::<Seq<HandleView>, TokenError>(TokenError::AccountFrozen),
        accounts.len() >= 2 && spec_account_unpack(accounts[0].data) is Ok
            && spec_account_unpack(accounts[0].data)->Ok_0.is_frozen() ==> spec_process_revoke(
            program_id,
            accounts,
        ) == Err::<Seq<HandleView>, TokenError>(TokenError::AccountFrozen),
        accounts.len() >= 3 && spec_account_unpack(accounts[0].data) is Ok
            && spec_account_unpack(accounts[0].data)->Ok_0.is_frozen() && spec_mint_unpack(
            accounts[1].data,
        ) is Ok ==> spec_process_burn(program_id, accounts, amount, expected_decimals) == Err::<
            Seq<HandleView>,
            TokenError,
        >(TokenError::AccountFrozen),
        accounts.len() >= 3 && spec_account_unpack(accounts[1].data) is Ok
            && spec_account_unpack(accounts[1].data)->Ok_0.is_frozen() ==> spec_process_mint_to(
            program_id,
            accounts,
            amount,
            expected_decimals,
        ) == Err::<Seq<HandleView>, TokenError>(TokenError::AccountFrozen),
        accounts.len() >= 2 && accounts[0].data.len() == ACCOUNT_LEN && spec_account_unpack(
            accounts[0].data,
        ) is Ok && spec_account_unpack(accounts[0].data)->Ok_0.is_frozen()
            ==> spec_process_set_authority(program_id, accounts, authority_type, new_authority)
            == Err::<Seq<HandleView>, TokenError>(TokenError::AccountFrozen),
{
}

/// One-way authority transitions: once an asset class's mint authority (or
/// freeze authority) is absent, no `SetAuthority` call can make it present
/// again — a cleared authority errors as `FixedSupply` (or
/// `MintCannotFreeze`) before anything is written, and a call that changes
/// the other authority re-encodes the record with the cleared one still
/// absent. Since a failed call leaves every buffer untouched, no sequence
/// of calls can ever restore a cleared authority.
pub proof fn lemma_authority_clear_is_permanent(program_id: Seq<u8>, accounts: Seq<HandleView>,
    authority_type: AuthorityType, new_authority: Option<Seq<u8>>)
    requires
        accounts.len() >= 2,
        accounts[0].data.len() == MINT_LEN,
        spec_mint_unpack(accounts[0].data) is Ok,
        crate::state::opt_key_wf(new_authority),
    ensures
        ({
            let mint = spec_mint_unpack(accounts[0].data)->Ok_0;
            let r = spec_process_set_authority(program_id, accounts, authority_type, new_authority);
            &&& mint.mint_authority is None && authority_type == AuthorityType::MintTokens ==> r
                == Err::<Seq<HandleView>, TokenError>(TokenError::FixedSupply)
            &&& mint.freeze_authority is None && authority_type == AuthorityType::FreezeAccount
                ==> r == Err::<Seq<HandleView>, TokenError>(TokenError::MintCannotFreeze)
            &&& r is Ok ==> ({
                let new_mint = crate::state::spec_mint_dec(r->Ok_0[0].data);
                &&& new_mint is Some
                &&& mint.mint_authority is None ==> new_mint->0.mint_authority is None
                &&& mint.freeze_authority is None ==> new_mint->0.freeze_authority is None
            })
        }),
{
    let mint = spec_mint_unpack(accounts[0].data)->Ok_0;
    crate::state::lemma_mint_unpack_wf(accounts[0].data);
    let r = spec_process_set_authority(program_id, accounts, authority_type, new_authority);
    if r is Ok {
        match authority_type {
            AuthorityType::MintTokens => {
                let new_mint = MintView { mint_authority: new_authority, ..mint };
                crate::state::lemma_mint_round_trip(new_mint, accounts[0].data);
            }
            AuthorityType::FreezeAccount => {
                let new_mint = MintView { freeze_authority: new_authority, ..mint };
                crate::state::lemma_mint_round_trip(new_mint, accounts[0].data);
            }
            _ => {}
        }
    }
}

/// Balance invariant for burns: a successful burn removes exactly the
/// amount from the source's primary balance and from the asset class's
/// total supply, and the source's sub-balances are untouched.
pub proof fn lemma_burn_reduces_balances(program_id: Seq<u8>, accounts: Seq<HandleView>,
    amount: u64, expected_decimals: Option<u8>)
    requires
        spec_process_burn(program_id, accounts, amount, expected_decimals) is Ok,
    ensures
        ({
            let source = spec_account_unpack(accounts[0].data)->Ok_0;
            let mint = spec_mint_unpack(accounts[1].data)->Ok_0;
            let r = spec_process_burn(program_id, accounts, amount, expected_decimals)->Ok_0;
            let new_source = crate::state::spec_account_dec(r[0].data);
            let new_mint = crate::state::spec_mint_dec(r[1].data);
            &&& spec_account_unpack(accounts[0].data) is Ok
            &&& spec_mint_unpack(accounts[1].data) is Ok
            &&& new_source is Some
            &&& new_mint is Some
            &&& new_source->0.amount == source.amount - amount
            &&& new_source->0.usdc == source.usdc
            &&& new_source->0.asset == source.asset
            &&& new_mint->0.supply == mint.supply - amount
        }),
{
    let source = spec_account_unpack(accounts[0].data)->Ok_0;
    let mint = spec_mint_unpack(accounts[1].data)->Ok_0;
    crate::state::lemma_account_unpack_wf(accounts[0].data);
    crate::state::lemma_mint_unpack_wf(accounts[1].data);
    let source1 = spec_authorize_spender(
        program_id,
        source,
        accounts[2],
        accounts.skip(3),
        amount,
        false,
    )->Ok_0;
    let new_source = AccountView { amount: (source1.amount - amount) as u64, ..source1 };
    crate::state::lemma_account_round_trip(new_source, accounts[0].data);
    let new_mint = MintView { supply: (mint.supply - amount) as u64, ..mint };
    crate::state::lemma_mint_round_trip(new_mint, accounts[1].data);
}


} // verus!
