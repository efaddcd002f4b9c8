//! The two record kinds and the storage-slot model the instructions act on.
use vstd::prelude::*;

use crate::keys::{clone_bytes, Pubkey, KEY_LEN};

verus! {

/// One balance record per holder.
#[derive(Debug)]
pub struct NadrunnerToken {
    pub is_initialized: bool,
    /// The identity authorized to move these funds. Immutable after
    /// initialization: no instruction changes it.
    pub owner: Pubkey,
    /// The balance, in the smallest token denomination.
    pub amount: u64,
}

/// The mathematical value of a token record.
#[verifier::ext_equal]
pub struct TokenView {
    pub is_initialized: bool,
    pub owner: Seq<u8>,
    pub amount: u64,
}

impl View for NadrunnerToken {
    type V = TokenView;

    open spec fn view(&self) -> TokenView {
        TokenView { is_initialized: self.is_initialized, owner: self.owner@, amount: self.amount }
    }
}

impl NadrunnerToken {
    pub open spec fn wf(&self) -> bool {
        self.owner.wf()
    }

    pub fn is_initialized(&self) -> (r: bool)
        ensures
            r == self.is_initialized,
    {
        self.is_initialized
    }
}

/// The singleton record naming the identity allowed to authorize minting.
#[derive(Debug)]
pub struct MintAuthority {
    pub is_initialized: bool,
    /// The identity currently allowed to approve administrative minting.
    pub signer_pubkey: Pubkey,
}

/// The mathematical value of a mint-authority record.
#[verifier::ext_equal]
pub struct AuthorityView {
    pub is_initialized: bool,
    pub signer_pubkey: Seq<u8>,
}

impl View for MintAuthority {
    type V = AuthorityView;

    open spec fn view(&self) -> AuthorityView {
        AuthorityView { is_initialized: self.is_initialized, signer_pubkey: self.signer_pubkey@ }
    }
}

impl MintAuthority {
    pub open spec fn wf(&self) -> bool {
        self.signer_pubkey.wf()
    }

    pub fn is_initialized(&self) -> (r: bool)
        ensures
            r == self.is_initialized,
    {
        self.is_initialized
    }
}

/// One caller-addressable storage slot, as the host hands it to an
/// instruction: its address, the program it is assigned to, whether its
/// identity signed the invoking call, its balance, and its record bytes.
#[derive(Debug)]
pub struct AccountSlot {
    /// The slot's own address.
    pub key: Pubkey,
    /// The program the slot is currently assigned to.
    pub owner: Pubkey,
    /// Whether this identity cryptographically signed the invoking call,
    /// as attested by the host runtime.
    pub is_signer: bool,
    /// The slot's balance, used only for the rent-exemption check.
    pub lamports: u64,
    /// The serialized record held in the slot.
    pub data: Vec<u8>,
}

/// The mathematical value of a storage slot.
#[verifier::ext_equal]
pub struct SlotView {
    pub key: Seq<u8>,
    pub owner: Seq<u8>,
    pub is_signer: bool,
    pub lamports: u64,
    pub data: Seq<u8>,
}

impl View for AccountSlot {
    type V = SlotView;

    open spec fn view(&self) -> SlotView {
        SlotView {
            key: self.key@,
            owner: self.owner@,
            is_signer: self.is_signer,
            lamports: self.lamports,
            data: self.data@,
        }
    }
}

impl SlotView {
    /// A well-formed slot carries 32-byte identifiers.
    pub open spec fn wf(&self) -> bool {
        self.key.len() == KEY_LEN && self.owner.len() == KEY_LEN
    }

    /// The same slot with new record bytes; every other field unchanged.
    pub open spec fn with_data(self, data: Seq<u8>) -> SlotView {
        SlotView { data, ..self }
    }
}

impl AccountSlot {
    pub open spec fn wf(&self) -> bool {
        self@.wf()
    }

    /// An independent copy of the slot.
    pub fn dup(&self) -> (r: AccountSlot)
        ensures
            r@ == self@,
    {
        let r = AccountSlot {
            key: self.key.dup(),
            owner: self.owner.dup(),
            is_signer: self.is_signer,
            lamports: self.lamports,
            data: clone_bytes(&self.data),
        };
        proof {
            assert(r@ =~= self@);
        }
        r
    }
}

} // verus!
