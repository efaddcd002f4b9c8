//! The ledger's governing laws, proved once and for all over the
//! transition spec functions.
use vstd::prelude::*;

use crate::codec::{
    lemma_authority_round_trip, lemma_token_round_trip, spec_unpack_authority,
    spec_unpack_authority_checked, spec_unpack_token, spec_unpack_token_checked,
};
use crate::errors::{NadrunnerError, TokenError};
use crate::keys::KEY_LEN;
use crate::state::{AuthorityView, SlotView, TokenView};
use crate::transitions::{
    spec_admin_mint, spec_initialize_token_account, spec_mint_game_score, spec_transfer_tokens,
    spec_update_mint_authority, MAX_GAME_MINT,
};

verus! {

/// Conservation: every successful transfer leaves the summed balances of
/// source and destination unchanged.
pub proof fn lemma_transfer_conserves(
    pid: Seq<u8>,
    source: SlotView,
    dest: SlotView,
    owner: SlotView,
    amount: u64,
)
    requires
        spec_transfer_tokens(pid, source, dest, owner, amount) is Ok,
    ensures
        ({
            let p = spec_transfer_tokens(pid, source, dest, owner, amount)->Ok_0;
            spec_unpack_token(p.0).amount + spec_unpack_token(p.1).amount
                == spec_unpack_token(source.data).amount + spec_unpack_token(dest.data).amount
        }),
{
    let s = spec_unpack_token(source.data);
    let d = spec_unpack_token(dest.data);
    lemma_token_round_trip(
        TokenView { is_initialized: true, owner: s.owner, amount: (s.amount - amount) as u64 },
    );
    lemma_token_round_trip(
        TokenView { is_initialized: true, owner: d.owner, amount: (d.amount + amount) as u64 },
    );
}

/// Asking for more than the source balance always fails with
/// `InsufficientFunds`. (That no record changes on any failure is part of
/// `transfer_tokens`' own contract.)
pub proof fn lemma_transfer_insufficient(
    pid: Seq<u8>,
    source: SlotView,
    dest: SlotView,
    owner: SlotView,
    amount: u64,
)
    requires
        source.owner == pid,
        dest.owner == pid,
        owner.is_signer,
        spec_unpack_token_checked(source.data) is Ok,
        spec_unpack_token(source.data).owner == owner.key,
        spec_unpack_token(source.data).amount < amount,
    ensures
        spec_transfer_tokens(pid, source, dest, owner, amount) == Err::<
            (Seq<u8>, Seq<u8>),
            TokenError,
        >(TokenError::InsufficientFunds),
{
}

/// Initializing the same slot twice fails: after one successful
/// initialization, a second attempt — however well-formed — reports
/// `AccountAlreadyInitialized`. (That the failure leaves the first
/// call's record bytes in place is part of the transitions' own
/// contracts.)
pub proof fn lemma_initialize_token_account_twice(
    pid: Seq<u8>,
    slot: SlotView,
    owner1: SlotView,
    owner2: SlotView,
)
    requires
        owner1.key.len() == KEY_LEN,
        owner2.is_signer,
        spec_initialize_token_account(pid, slot, owner1, true) is Ok,
    ensures
        ({
            let d = spec_initialize_token_account(pid, slot, owner1, true)->Ok_0;
            spec_initialize_token_account(pid, slot.with_data(d), owner2, true) == Err::<
                Seq<u8>,
                TokenError,
            >(TokenError::AccountAlreadyInitialized)
        }),
{
    lemma_token_round_trip(
        TokenView { is_initialized: true, owner: owner1.key, amount: 0 },
    );
}

/// Administrative minting by anyone but the stored authority fails with
/// `InvalidAccountData`, however valid the signature was.
pub proof fn lemma_admin_mint_wrong_signer(
    pid: Seq<u8>,
    authority_slot: SlotView,
    owner: SlotView,
    token_slot: SlotView,
    amount: u64,
)
    requires
        authority_slot.owner == pid,
        token_slot.owner == pid,
        owner.is_signer,
        spec_unpack_authority_checked(authority_slot.data) is Ok,
        spec_unpack_authority(authority_slot.data).signer_pubkey != owner.key,
    ensures
        spec_admin_mint(pid, authority_slot, owner, token_slot, amount) == Err::<
            Seq<u8>,
            TokenError,
        >(TokenError::InvalidAccountData),
{
}

/// A game score of exactly `MAX_GAME_MINT` is credited whenever the
/// instruction's other checks pass and the balance can take it.
pub proof fn lemma_mint_game_score_at_cap(
    pid: Seq<u8>,
    token_slot: SlotView,
    player: SlotView,
    authority_slot: SlotView,
)
    requires
        token_slot.owner == pid,
        authority_slot.owner == pid,
        player.is_signer,
        spec_unpack_token_checked(token_slot.data) is Ok,
        spec_unpack_token(token_slot.data).owner == player.key,
        spec_unpack_authority_checked(authority_slot.data) is Ok,
        spec_unpack_token(token_slot.data).amount + MAX_GAME_MINT <= u64::MAX,
    ensures
        spec_mint_game_score(pid, token_slot, player, authority_slot, MAX_GAME_MINT) is Ok,
{
}

/// Any score above `MAX_GAME_MINT` fails with `ScoreExceedsMaximum`,
/// whatever the accounts hold.
pub proof fn lemma_mint_game_score_over_cap(
    pid: Seq<u8>,
    token_slot: SlotView,
    player: SlotView,
    authority_slot: SlotView,
    score: u64,
)
    requires
        score > MAX_GAME_MINT,
    ensures
        spec_mint_game_score(pid, token_slot, player, authority_slot, score) == Err::<
            Seq<u8>,
            TokenError,
        >(TokenError::Custom(NadrunnerError::ScoreExceedsMaximum)),
{
}

/// A holder's key is immutable: administrative minting changes only the
/// balance, never the record's owner.
pub proof fn lemma_admin_mint_preserves_owner(
    pid: Seq<u8>,
    authority_slot: SlotView,
    owner: SlotView,
    token_slot: SlotView,
    amount: u64,
)
    requires
        spec_admin_mint(pid, authority_slot, owner, token_slot, amount) is Ok,
    ensures
        spec_unpack_token(spec_admin_mint(pid, authority_slot, owner, token_slot, amount)->Ok_0)
            .owner == spec_unpack_token(token_slot.data).owner,
{
    let t = spec_unpack_token(token_slot.data);
    lemma_token_round_trip(
        TokenView { is_initialized: true, owner: t.owner, amount: (t.amount + amount) as u64 },
    );
}

/// A holder's key is immutable: a redeemed game score changes only the
/// balance, never the record's owner.
pub proof fn lemma_mint_game_score_preserves_owner(
    pid: Seq<u8>,
    token_slot: SlotView,
    player: SlotView,
    authority_slot: SlotView,
    score: u64,
)
    requires
        spec_mint_game_score(pid, token_slot, player, authority_slot, score) is Ok,
    ensures
        spec_unpack_token(
            spec_mint_game_score(pid, token_slot, player, authority_slot, score)->Ok_0,
        ).owner == spec_unpack_token(token_slot.data).owner,
{
    let t = spec_unpack_token(token_slot.data);
    lemma_token_round_trip(
        TokenView { is_initialized: true, owner: t.owner, amount: (t.amount + score) as u64 },
    );
}

/// A holder's key is immutable: a transfer changes only the two
/// balances, never either record's owner.
pub proof fn lemma_transfer_preserves_owners(
    pid: Seq<u8>,
    source: SlotView,
    dest: SlotView,
    owner: SlotView,
    amount: u64,
)
    requires
        spec_transfer_tokens(pid, source, dest, owner, amount) is Ok,
    ensures
        ({
            let p = spec_transfer_tokens(pid, source, dest, owner, amount)->Ok_0;
            spec_unpack_token(p.0).owner == spec_unpack_token(source.data).owner
                && spec_unpack_token(p.1).owner == spec_unpack_token(dest.data).owner
        }),
{
    let s = spec_unpack_token(source.data);
    let d = spec_unpack_token(dest.data);
    lemma_token_round_trip(
        TokenView { is_initialized: true, owner: s.owner, amount: (s.amount - amount) as u64 },
    );
    lemma_token_round_trip(
        TokenView { is_initialized: true, owner: d.owner, amount: (d.amount + amount) as u64 },
    );
}

/// Rotating the authority by anyone but the stored signer fails with
/// `InvalidAccountData`.
pub proof fn lemma_update_authority_wrong_signer(
    pid: Seq<u8>,
    authority_slot: SlotView,
    current_owner: SlotView,
    new_signer: Seq<u8>,
)
    requires
        authority_slot.owner == pid,
        current_owner.is_signer,
        spec_unpack_authority_checked(authority_slot.data) is Ok,
        spec_unpack_authority(authority_slot.data).signer_pubkey != current_owner.key,
    ensures
        spec_update_mint_authority(pid, authority_slot, current_owner, new_signer) == Err::<
            Seq<u8>,
            TokenError,
        >(TokenError::InvalidAccountData),
{
}

/// A successful rotation stores exactly the new signer, and the old
/// signer can no longer mint: a subsequent administrative mint under the
/// old key fails with `InvalidAccountData`.
pub proof fn lemma_update_authority_rotates(
    pid: Seq<u8>,
    authority_slot: SlotView,
    current_owner: SlotView,
    new_signer: Seq<u8>,
    old_admin: SlotView,
    token_slot: SlotView,
    amount: u64,
)
    requires
        new_signer.len() == KEY_LEN,
        spec_update_mint_authority(pid, authority_slot, current_owner, new_signer) is Ok,
        old_admin.is_signer,
        old_admin.key == current_owner.key,
        old_admin.key != new_signer,
        token_slot.owner == pid,
    ensures
        ({
            let d = spec_update_mint_authority(pid, authority_slot, current_owner, new_signer)
                ->Ok_0;
            spec_unpack_authority(d).is_initialized && spec_unpack_authority(d).signer_pubkey
                == new_signer && spec_admin_mint(
                pid,
                authority_slot.with_data(d),
                old_admin,
                token_slot,
                amount,
            ) == Err::<Seq<u8>, TokenError>(TokenError::InvalidAccountData)
        }),
{
    lemma_authority_round_trip(
        AuthorityView { is_initialized: true, signer_pubkey: new_signer },
    );
}

} // verus!
