//! The six state-transition functions.
//!
//! Each is a single pass of checks followed by a commit: it either fails
//! before touching any slot's record bytes, or all of its writes land
//! together. The exact outcome of every transition, for every input, is
//! captured by a spec function here, and each executable transition is
//! proved against it.
use vstd::prelude::*;

use crate::codec::{
    spec_pack_authority, spec_pack_token, spec_unpack_authority_checked,
    spec_unpack_authority_unchecked, spec_unpack_token_checked, spec_unpack_token_unchecked,
};
use crate::errors::{NadrunnerError, TokenError};
use crate::host::{keccak256, keccak_of};
use crate::keys::Pubkey;
use crate::state::{AccountSlot, AuthorityView, MintAuthority, NadrunnerToken, SlotView, TokenView};

use vstd::bytes::{
    spec_u32_to_le_bytes, spec_u64_to_le_bytes, u32_to_le_bytes, u64_to_le_bytes,
};

verus! {

/// The largest amount a single game-score redemption may mint:
/// 10,000 whole tokens of 10^9 smallest units each.
pub const MAX_GAME_MINT: u64 = 10000_000_000_000;

/// Outcome of `InitializeTokenAccount`: the new record bytes for the token
/// slot, or the error that aborts the instruction.
pub open spec fn spec_initialize_token_account(
    pid: Seq<u8>,
    token_slot: SlotView,
    owner: SlotView,
    rent_exempt: bool,
) -> Result<Seq<u8>, TokenError> {
    if token_slot.owner != pid {
        Err(TokenError::IncorrectProgramId)
    } else if !rent_exempt {
        Err(TokenError::AccountNotRentExempt)
    } else if !owner.is_signer {
        Err(TokenError::MissingRequiredSignature)
    } else {
        match spec_unpack_token_unchecked(token_slot.data) {
            Ok(t) => if t.is_initialized {
                Err(TokenError::AccountAlreadyInitialized)
            } else {
                Ok(
                    spec_pack_token(
                        TokenView { is_initialized: true, owner: owner.key, amount: 0 },
                    ),
                )
            },
            Err(e) => Err(e),
        }
    }
}

/// Outcome of `InitializeMintAuthority`: the new record bytes for the
/// authority slot, or the error that aborts the instruction.
pub open spec fn spec_initialize_mint_authority(
    pid: Seq<u8>,
    authority_slot: SlotView,
    owner: SlotView,
    rent_exempt: bool,
) -> Result<Seq<u8>, TokenError> {
    if authority_slot.owner != pid {
        Err(TokenError::IncorrectProgramId)
    } else if !rent_exempt {
        Err(TokenError::AccountNotRentExempt)
    } else if !owner.is_signer {
        Err(TokenError::MissingRequiredSignature)
    } else {
        match spec_unpack_authority_unchecked(authority_slot.data) {
            Ok(a) => if a.is_initialized {
                Err(TokenError::AccountAlreadyInitialized)
            } else {
                Ok(
                    spec_pack_authority(
                        AuthorityView { is_initialized: true, signer_pubkey: owner.key },
                    ),
                )
            },
            Err(e) => Err(e),
        }
    }
}

/// Outcome of `UpdateMintAuthority`: the new record bytes for the
/// authority slot, or the error that aborts the instruction.
pub open spec fn spec_update_mint_authority(
    pid: Seq<u8>,
    authority_slot: SlotView,
    current_owner: SlotView,
    new_signer: Seq<u8>,
) -> Result<Seq<u8>, TokenError> {
    if authority_slot.owner != pid {
        Err(TokenError::IncorrectProgramId)
    } else if !current_owner.is_signer {
        Err(TokenError::MissingRequiredSignature)
    } else {
        match spec_unpack_authority_checked(authority_slot.data) {
            Ok(a) => if a.signer_pubkey != current_owner.key {
                Err(TokenError::InvalidAccountData)
            } else {
                Ok(
                    spec_pack_authority(
                        AuthorityView { is_initialized: true, signer_pubkey: new_signer },
                    ),
                )
            },
            Err(e) => Err(e),
        }
    }
}

/// Outcome of `AdminMint`: the new record bytes for the token slot, or
/// the error that aborts the instruction.
pub open spec fn spec_admin_mint(
    pid: Seq<u8>,
    authority_slot: SlotView,
    owner: SlotView,
    token_slot: SlotView,
    amount: u64,
) -> Result<Seq<u8>, TokenError> {
    if authority_slot.owner != pid || token_slot.owner != pid {
        Err(TokenError::IncorrectProgramId)
    } else if !owner.is_signer {
        Err(TokenError::MissingRequiredSignature)
    } else {
        match spec_unpack_authority_checked(authority_slot.data) {
            Ok(a) => if a.signer_pubkey != owner.key {
                Err(TokenError::InvalidAccountData)
            } else {
                match spec_unpack_token_checked(token_slot.data) {
                    Ok(t) => if t.amount + amount > u64::MAX {
                        Err(TokenError::ArithmeticOverflow)
                    } else {
                        Ok(
                            spec_pack_token(
                                TokenView {
                                    is_initialized: true,
                                    owner: t.owner,
                                    amount: (t.amount + amount) as u64,
                                },
                            ),
                        )
                    },
                    Err(e) => Err(e),
                }
            },
            Err(e) => Err(e),
        }
    }
}

/// Outcome of `MintGameScore`: the new record bytes for the token slot,
/// or the error that aborts the instruction.
///
/// The outcome does not depend on the supplied signature bytes or on the
/// ledger clock: the digest the instruction computes over
/// player, score and clock is never compared against anything (see
/// `mint_game_score`).
pub open spec fn spec_mint_game_score(
    pid: Seq<u8>,
    token_slot: SlotView,
    player: SlotView,
    authority_slot: SlotView,
    score: u64,
) -> Result<Seq<u8>, TokenError> {
    if score > MAX_GAME_MINT {
        Err(TokenError::Custom(NadrunnerError::ScoreExceedsMaximum))
    } else if token_slot.owner != pid || authority_slot.owner != pid {
        Err(TokenError::IncorrectProgramId)
    } else if !player.is_signer {
        Err(TokenError::MissingRequiredSignature)
    } else {
        match spec_unpack_token_checked(token_slot.data) {
            Ok(t) => if t.owner != player.key {
                Err(TokenError::InvalidAccountData)
            } else {
                match spec_unpack_authority_checked(authority_slot.data) {
                    Ok(_a) => if t.amount + score > u64::MAX {
                        Err(TokenError::ArithmeticOverflow)
                    } else {
                        Ok(
                            spec_pack_token(
                                TokenView {
                                    is_initialized: true,
                                    owner: t.owner,
                                    amount: (t.amount + score) as u64,
                                },
                            ),
                        )
                    },
                    Err(e) => Err(e),
                }
            },
            Err(e) => Err(e),
        }
    }
}

/// Outcome of `TransferTokens`: the new record bytes for the source and
/// destination slots, or the error that aborts the instruction.
pub open spec fn spec_transfer_tokens(
    pid: Seq<u8>,
    source: SlotView,
    dest: SlotView,
    owner: SlotView,
    amount: u64,
) -> Result<(Seq<u8>, Seq<u8>), TokenError> {
    if source.owner != pid || dest.owner != pid {
        Err(TokenError::IncorrectProgramId)
    } else if !owner.is_signer {
        Err(TokenError::MissingRequiredSignature)
    } else {
        match spec_unpack_token_checked(source.data) {
            Ok(s) => if s.owner != owner.key {
                Err(TokenError::InvalidAccountData)
            } else if s.amount < amount {
                Err(TokenError::InsufficientFunds)
            } else {
                match spec_unpack_token_checked(dest.data) {
                    Ok(d) => if d.amount + amount > u64::MAX {
                        Err(TokenError::ArithmeticOverflow)
                    } else {
                        Ok(
                            (
                                spec_pack_token(
                                    TokenView {
                                        is_initialized: true,
                                        owner: s.owner,
                                        amount: (s.amount - amount) as u64,
                                    },
                                ),
                                spec_pack_token(
                                    TokenView {
                                        is_initialized: true,
                                        owner: d.owner,
                                        amount: (d.amount + amount) as u64,
                                    },
                                ),
                            ),
                        )
                    },
                    Err(e) => Err(e),
                }
            },
            Err(e) => Err(e),
        }
    }
}

/// Relates a slot before and after `InitializeTokenAccount` to the spec
/// outcome: on success only the record bytes change; on failure nothing
/// does, and the error is the one the spec names.
pub open spec fn init_token_account_outcome(
    pid: Seq<u8>,
    pre: SlotView,
    owner: SlotView,
    rent_exempt: bool,
    post: SlotView,
    r: Result<(), TokenError>,
) -> bool {
    match spec_initialize_token_account(pid, pre, owner, rent_exempt) {
        Ok(d) => r is Ok && post == pre.with_data(d),
        Err(e) => r == Err::<(), TokenError>(e) && post == pre,
    }
}

/// As `init_token_account_outcome`, for `InitializeMintAuthority`.
pub open spec fn init_mint_authority_outcome(
    pid: Seq<u8>,
    pre: SlotView,
    owner: SlotView,
    rent_exempt: bool,
    post: SlotView,
    r: Result<(), TokenError>,
) -> bool {
    match spec_initialize_mint_authority(pid, pre, owner, rent_exempt) {
        Ok(d) => r is Ok && post == pre.with_data(d),
        Err(e) => r == Err::<(), TokenError>(e) && post == pre,
    }
}

/// Initializes a token account record. `rent_exempt` is the host rent
/// collaborator's answer for this slot's balance and record length; the
/// caller obtains it from the host and hands it in as a plain value.
///
/// The record is constructed exactly once: the slot must be assigned to
/// this program, rent-exempt, signed for by its future owner, and not yet
/// initialized. On success the slot holds the packed record
/// `{initialized, owner, amount: 0}`; on failure the slot is untouched.
pub fn initialize_token_account(
    program_id: &Pubkey,
    token_account: &mut AccountSlot,
    owner: &AccountSlot,
    rent_exempt: bool,
) -> (r: Result<(), TokenError>)
    requires
        program_id.wf(),
        old(token_account).wf(),
        owner.wf(),
    ensures
        final(token_account).wf(),
        init_token_account_outcome(
            program_id@,
            old(token_account)@,
            owner@,
            rent_exempt,
            final(token_account)@,
            r,
        ),
{
    if !token_account.owner.eq_key(program_id) {
        return Err(TokenError::IncorrectProgramId);
    }
    if !rent_exempt {
        return Err(TokenError::AccountNotRentExempt);
    }
    if !owner.is_signer {
        return Err(TokenError::MissingRequiredSignature);
    }
    let record = match NadrunnerToken::unpack_unchecked(&token_account.data) {
        Ok(t) => t,
        Err(e) => {
            return Err(e);
        },
    };
    if record.is_initialized {
        return Err(TokenError::AccountAlreadyInitialized);
    }
    let new_record = NadrunnerToken { is_initialized: true, owner: owner.key.dup(), amount: 0 };
    token_account.data = new_record.pack();
    proof {
        assert(token_account@ =~= old(token_account)@.with_data(token_account@.data));
    }
    Ok(())
}

/// Initializes the mint-authority record. `rent_exempt` is the host rent
/// collaborator's answer for this slot, handed in as a plain value. The
/// deployer who signs this first call becomes the initial minting
/// authority.
pub fn initialize_mint_authority(
    program_id: &Pubkey,
    mint_authority_account: &mut AccountSlot,
    owner: &AccountSlot,
    rent_exempt: bool,
) -> (r: Result<(), TokenError>)
    requires
        program_id.wf(),
        old(mint_authority_account).wf(),
        owner.wf(),
    ensures
        final(mint_authority_account).wf(),
        init_mint_authority_outcome(
            program_id@,
            old(mint_authority_account)@,
            owner@,
            rent_exempt,
            final(mint_authority_account)@,
            r,
        ),
{
    if !mint_authority_account.owner.eq_key(program_id) {
        return Err(TokenError::IncorrectProgramId);
    }
    if !rent_exempt {
        return Err(TokenError::AccountNotRentExempt);
    }
    if !owner.is_signer {
        return Err(TokenError::MissingRequiredSignature);
    }
    let record = match MintAuthority::unpack_unchecked(&mint_authority_account.data) {
        Ok(a) => a,
        Err(e) => {
            return Err(e);
        },
    };
    if record.is_initialized {
        return Err(TokenError::AccountAlreadyInitialized);
    }
    let new_record = MintAuthority { is_initialized: true, signer_pubkey: owner.key.dup() };
    mint_authority_account.data = new_record.pack();
    proof {
        assert(mint_authority_account@ =~= old(mint_authority_account)@.with_data(
            mint_authority_account@.data,
        ));
    }
    Ok(())
}

/// Rotates the stored minting authority to `new_signer`.
///
/// Only the currently stored authority, signing the call, may rotate it;
/// a mismatching signer fails with `InvalidAccountData` and changes
/// nothing.
pub fn update_mint_authority(
    program_id: &Pubkey,
    mint_authority_account: &mut AccountSlot,
    current_owner: &AccountSlot,
    new_signer: &Pubkey,
) -> (r: Result<(), TokenError>)
    requires
        program_id.wf(),
        old(mint_authority_account).wf(),
        current_owner.wf(),
        new_signer.wf(),
    ensures
        final(mint_authority_account).wf(),
        ({
            match spec_update_mint_authority(
                program_id@,
                old(mint_authority_account)@,
                current_owner@,
                new_signer@,
            ) {
                Ok(d) => r is Ok && final(mint_authority_account)@ == old(
                    mint_authority_account,
                )@.with_data(d),
                Err(e) => r == Err::<(), TokenError>(e) && final(mint_authority_account)@ == old(
                    mint_authority_account,
                )@,
            }
        }),
{
    if !mint_authority_account.owner.eq_key(program_id) {
        return Err(TokenError::IncorrectProgramId);
    }
    if !current_owner.is_signer {
        return Err(TokenError::MissingRequiredSignature);
    }
    let record = match MintAuthority::unpack(&mint_authority_account.data) {
        Ok(a) => a,
        Err(e) => {
            return Err(e);
        },
    };
    if !record.signer_pubkey.eq_key(&current_owner.key) {
        return Err(TokenError::InvalidAccountData);
    }
    let new_record = MintAuthority { is_initialized: true, signer_pubkey: new_signer.dup() };
    mint_authority_account.data = new_record.pack();
    proof {
        assert(mint_authority_account@ =~= old(mint_authority_account)@.with_data(
            mint_authority_account@.data,
        ));
    }
    Ok(())
}

/// Mints `amount` new tokens into a token account, authorized by the
/// stored minting authority.
///
/// Fails with `InvalidAccountData` whenever the signing admin is not the
/// currently stored authority, and with `ArithmeticOverflow` if the
/// balance cannot take the increase; on any failure nothing changes.
pub fn admin_mint(
    program_id: &Pubkey,
    mint_authority_account: &AccountSlot,
    owner: &AccountSlot,
    token_account: &mut AccountSlot,
    amount: u64,
) -> (r: Result<(), TokenError>)
    requires
        program_id.wf(),
        mint_authority_account.wf(),
        owner.wf(),
        old(token_account).wf(),
    ensures
        final(token_account).wf(),
        ({
            match spec_admin_mint(
                program_id@,
                mint_authority_account@,
                owner@,
                old(token_account)@,
                amount,
            ) {
                Ok(d) => r is Ok && final(token_account)@ == old(token_account)@.with_data(d),
                Err(e) => r == Err::<(), TokenError>(e) && final(token_account)@ == old(
                    token_account,
                )@,
            }
        }),
{
    if !mint_authority_account.owner.eq_key(program_id) || !token_account.owner.eq_key(
        program_id,
    ) {
        return Err(TokenError::IncorrectProgramId);
    }
    if !owner.is_signer {
        return Err(TokenError::MissingRequiredSignature);
    }
    let authority = match MintAuthority::unpack(&mint_authority_account.data) {
        Ok(a) => a,
        Err(e) => {
            return Err(e);
        },
    };
    if !authority.signer_pubkey.eq_key(&owner.key) {
        return Err(TokenError::InvalidAccountData);
    }
    let record = match NadrunnerToken::unpack(&token_account.data) {
        Ok(t) => t,
        Err(e) => {
            return Err(e);
        },
    };
    let new_amount = match record.amount.checked_add(amount) {
        Some(v) => v,
        None => {
            return Err(TokenError::ArithmeticOverflow);
        },
    };
    let new_record = NadrunnerToken {
        is_initialized: true,
        owner: record.owner,
        amount: new_amount,
    };
    token_account.data = new_record.pack();
    proof {
        assert(token_account@ =~= old(token_account)@.with_data(token_account@.data));
    }
    Ok(())
}

/// The domain-separated message a game-score redemption binds itself to:
/// the player's key, the score in eight little-endian bytes, and the
/// ledger slot modulo 2^32 in four little-endian bytes as a replay-domain
/// separator.
pub open spec fn spec_game_score_message(player: Seq<u8>, score: u64, clock_slot: u64) -> Seq<u8> {
    player + spec_u64_to_le_bytes(score) + spec_u32_to_le_bytes((clock_slot & 0xFFFFFFFF) as u32)
}

/// The keccak-256 digest of the game-score message for this player,
/// score and ledger slot.
pub fn game_score_digest(player: &Pubkey, score: u64, clock_slot: u64) -> (r: Vec<u8>)
    requires
        player.wf(),
    ensures
        r@ == keccak_of(spec_game_score_message(player@, score, clock_slot)),
        r@.len() == 32,
{
    let mut message = crate::keys::clone_bytes(&player.bytes);
    let mut score_bytes = u64_to_le_bytes(score);
    message.append(&mut score_bytes);
    let masked: u64 = clock_slot & 0xFFFFFFFF;
    proof {
        assert(clock_slot & 0xFFFFFFFFu64 <= 0xFFFFFFFFu64) by (bit_vector);
    }
    let mut epoch_bytes = u32_to_le_bytes(masked as u32);
    message.append(&mut epoch_bytes);
    proof {
        assert(message@ =~= spec_game_score_message(player@, score, clock_slot));
    }
    keccak256(&message)
}

/// Credits a signed game score to the player's own token account, up to
/// `MAX_GAME_MINT` per call.
///
/// The instruction computes the keccak-256 digest of the domain-separated
/// message, but the digest is never compared against the supplied
/// `signature` bytes or against the stored authority key: redeeming a
/// score is gated only on the player's signature and ownership of the
/// token account, as `spec_mint_game_score` records. Whether that digest
/// should be checked against a recovered signer before crediting is a
/// deliberately open decision; nothing here invents a scheme.
#[allow(unused_variables)]
pub fn mint_game_score(
    program_id: &Pubkey,
    token_account: &mut AccountSlot,
    player: &AccountSlot,
    mint_authority_account: &AccountSlot,
    clock_slot: u64,
    score: u64,
    signature: &[u8],
) -> (r: Result<(), TokenError>)
    requires
        program_id.wf(),
        old(token_account).wf(),
        player.wf(),
        mint_authority_account.wf(),
    ensures
        final(token_account).wf(),
        ({
            match spec_mint_game_score(
                program_id@,
                old(token_account)@,
                player@,
                mint_authority_account@,
                score,
            ) {
                Ok(d) => r is Ok && final(token_account)@ == old(token_account)@.with_data(d),
                Err(e) => r == Err::<(), TokenError>(e) && final(token_account)@ == old(
                    token_account,
                )@,
            }
        }),
{
    if score > MAX_GAME_MINT {
        return Err(TokenError::Custom(NadrunnerError::ScoreExceedsMaximum));
    }
    if !token_account.owner.eq_key(program_id) || !mint_authority_account.owner.eq_key(
        program_id,
    ) {
        return Err(TokenError::IncorrectProgramId);
    }
    if !player.is_signer {
        return Err(TokenError::MissingRequiredSignature);
    }
    let record = match NadrunnerToken::unpack(&token_account.data) {
        Ok(t) => t,
        Err(e) => {
            return Err(e);
        },
    };
    if !record.owner.eq_key(&player.key) {
        return Err(TokenError::InvalidAccountData);
    }
    match MintAuthority::unpack(&mint_authority_account.data) {
        Ok(_) => {},
        Err(e) => {
            return Err(e);
        },
    }
    let _digest = game_score_digest(&player.key, score, clock_slot);
    let new_amount = match record.amount.checked_add(score) {
        Some(v) => v,
        None => {
            return Err(TokenError::ArithmeticOverflow);
        },
    };
    let new_record = NadrunnerToken {
        is_initialized: true,
        owner: record.owner,
        amount: new_amount,
    };
    token_account.data = new_record.pack();
    proof {
        assert(token_account@ =~= old(token_account)@.with_data(token_account@.data));
    }
    Ok(())
}

/// Moves `amount` tokens from `source_account` to `destination_account`.
///
/// Both new balances are staged and checked before either slot is
/// written: the two commits land together or not at all. A short source
/// balance fails with `InsufficientFunds` and changes nothing.
pub fn transfer_tokens(
    program_id: &Pubkey,
    source_account: &mut AccountSlot,
    destination_account: &mut AccountSlot,
    owner: &AccountSlot,
    amount: u64,
) -> (r: Result<(), TokenError>)
    requires
        program_id.wf(),
        old(source_account).wf(),
        old(destination_account).wf(),
        owner.wf(),
    ensures
        final(source_account).wf(),
        final(destination_account).wf(),
        ({
            match spec_transfer_tokens(
                program_id@,
                old(source_account)@,
                old(destination_account)@,
                owner@,
                amount,
            ) {
                Ok(pair) => r is Ok && final(source_account)@ == old(source_account)@.with_data(
                    pair.0,
                ) && final(destination_account)@ == old(destination_account)@.with_data(pair.1),
                Err(e) => r == Err::<(), TokenError>(e) && final(source_account)@ == old(
                    source_account,
                )@ && final(destination_account)@ == old(destination_account)@,
            }
        }),
{
    if !source_account.owner.eq_key(program_id) || !destination_account.owner.eq_key(program_id) {
        return Err(TokenError::IncorrectProgramId);
    }
    if !owner.is_signer {
        return Err(TokenError::MissingRequiredSignature);
    }
    let source_record = match NadrunnerToken::unpack(&source_account.data) {
        Ok(t) => t,
        Err(e) => {
            return Err(e);
        },
    };
    if !source_record.owner.eq_key(&owner.key) {
        return Err(TokenError::InvalidAccountData);
    }
    if source_record.amount < amount {
        return Err(TokenError::InsufficientFunds);
    }
    let destination_record = match NadrunnerToken::unpack(&destination_account.data) {
        Ok(t) => t,
        Err(e) => {
            return Err(e);
        },
    };
    let new_source_amount = match source_record.amount.checked_sub(amount) {
        Some(v) => v,
        None => {
            return Err(TokenError::ArithmeticOverflow);
        },
    };
    let new_destination_amount = match destination_record.amount.checked_add(amount) {
        Some(v) => v,
        None => {
            return Err(TokenError::ArithmeticOverflow);
        },
    };
    let new_source = NadrunnerToken {
        is_initialized: true,
        owner: source_record.owner,
        amount: new_source_amount,
    };
    let new_destination = NadrunnerToken {
        is_initialized: true,
        owner: destination_record.owner,
        amount: new_destination_amount,
    };
    source_account.data = new_source.pack();
    destination_account.data = new_destination.pack();
    proof {
        assert(source_account@ =~= old(source_account)@.with_data(source_account@.data));
        assert(destination_account@ =~= old(destination_account)@.with_data(
            destination_account@.data,
        ));
    }
    Ok(())
}

} // verus!
