//! Fixed-width binary encoding of the two record kinds.
//!
//! A token record occupies exactly 41 bytes: a one-byte initialization
//! flag, the 32-byte owner key, and the 8-byte amount in little-endian
//! order. A mint-authority record occupies exactly 33 bytes: the flag and
//! the 32-byte signer key. The codec never reads or writes beyond those
//! lengths.
use vstd::prelude::*;

use vstd::bytes::{
    lemma_auto_spec_u64_to_from_le_bytes, spec_u64_from_le_bytes, spec_u64_to_le_bytes,
    u64_from_le_bytes, u64_to_le_bytes,
};
use vstd::slice::slice_subrange;

use crate::errors::TokenError;
use crate::keys::{Pubkey, KEY_LEN};
use crate::state::{AuthorityView, MintAuthority, NadrunnerToken, TokenView};

verus! {

/// The packed length of a token record: flag, owner key, amount.
pub const TOKEN_ACCOUNT_LEN: usize = 41;

/// The packed length of a mint-authority record: flag, signer key.
pub const MINT_AUTHORITY_LEN: usize = 33;

/// The single byte that encodes the initialization flag.
pub open spec fn flag_byte(b: bool) -> u8 {
    if b {
        1u8
    } else {
        0u8
    }
}

/// The exact 41 bytes a token record packs to.
pub open spec fn spec_pack_token(t: TokenView) -> Seq<u8> {
    seq![flag_byte(t.is_initialized)] + t.owner + spec_u64_to_le_bytes(t.amount)
}

/// Whether 41 bytes decode to a token record: the flag byte must be
/// exactly 0 or 1.
pub open spec fn token_bytes_valid(d: Seq<u8>) -> bool {
    d.len() == TOKEN_ACCOUNT_LEN && (d[0] == 0 || d[0] == 1)
}

/// The token record encoded by valid bytes.
pub open spec fn spec_unpack_token(d: Seq<u8>) -> TokenView
    recommends
        token_bytes_valid(d),
{
    TokenView {
        is_initialized: d[0] == 1,
        owner: d.subrange(1, 33),
        amount: spec_u64_from_le_bytes(d.subrange(33, 41)),
    }
}

/// Decoding that tolerates an uninitialized record, as the initialize
/// paths need for freshly allocated all-zero storage.
pub open spec fn spec_unpack_token_unchecked(d: Seq<u8>) -> Result<TokenView, TokenError> {
    if token_bytes_valid(d) {
        Ok(spec_unpack_token(d))
    } else {
        Err(TokenError::InvalidAccountData)
    }
}

/// Decoding as every non-initialize instruction performs it: the record
/// must also be initialized.
pub open spec fn spec_unpack_token_checked(d: Seq<u8>) -> Result<TokenView, TokenError> {
    match spec_unpack_token_unchecked(d) {
        Ok(t) => if t.is_initialized {
            Ok(t)
        } else {
            Err(TokenError::UninitializedAccount)
        },
        Err(e) => Err(e),
    }
}

/// The exact 33 bytes a mint-authority record packs to.
pub open spec fn spec_pack_authority(a: AuthorityView) -> Seq<u8> {
    seq![flag_byte(a.is_initialized)] + a.signer_pubkey
}

/// Whether 33 bytes decode to a mint-authority record.
pub open spec fn authority_bytes_valid(d: Seq<u8>) -> bool {
    d.len() == MINT_AUTHORITY_LEN && (d[0] == 0 || d[0] == 1)
}

/// The mint-authority record encoded by valid bytes.
pub open spec fn spec_unpack_authority(d: Seq<u8>) -> AuthorityView
    recommends
        authority_bytes_valid(d),
{
    AuthorityView { is_initialized: d[0] == 1, signer_pubkey: d.subrange(1, 33) }
}

/// Authority decoding that tolerates an uninitialized record.
pub open spec fn spec_unpack_authority_unchecked(d: Seq<u8>) -> Result<AuthorityView, TokenError> {
    if authority_bytes_valid(d) {
        Ok(spec_unpack_authority(d))
    } else {
        Err(TokenError::InvalidAccountData)
    }
}

/// Authority decoding that also demands an initialized record.
pub open spec fn spec_unpack_authority_checked(d: Seq<u8>) -> Result<AuthorityView, TokenError> {
    match spec_unpack_authority_unchecked(d) {
        Ok(a) => if a.is_initialized {
            Ok(a)
        } else {
            Err(TokenError::UninitializedAccount)
        },
        Err(e) => Err(e),
    }
}

/// Packing and unpacking a token record are inverse to each other.
pub proof fn lemma_token_round_trip(t: TokenView)
    requires
        t.owner.len() == KEY_LEN,
    ensures
        spec_pack_token(t).len() == TOKEN_ACCOUNT_LEN,
        token_bytes_valid(spec_pack_token(t)),
        spec_unpack_token(spec_pack_token(t)) == t,
        spec_pack_token(t)[0] == flag_byte(t.is_initialized),
{
    lemma_auto_spec_u64_to_from_le_bytes();
    let d = spec_pack_token(t);
    assert(d.subrange(1, 33) =~= t.owner);
    assert(d.subrange(33, 41) =~= spec_u64_to_le_bytes(t.amount));
    assert(spec_unpack_token(d) =~= t);
}

/// Packing and unpacking a mint-authority record are inverse to each other.
pub proof fn lemma_authority_round_trip(a: AuthorityView)
    requires
        a.signer_pubkey.len() == KEY_LEN,
    ensures
        spec_pack_authority(a).len() == MINT_AUTHORITY_LEN,
        authority_bytes_valid(spec_pack_authority(a)),
        spec_unpack_authority(spec_pack_authority(a)) == a,
        spec_pack_authority(a)[0] == flag_byte(a.is_initialized),
{
    let d = spec_pack_authority(a);
    assert(d.subrange(1, 33) =~= a.signer_pubkey);
    assert(spec_unpack_authority(d) =~= a);
}

impl NadrunnerToken {
    /// The exact 41 bytes this record packs to, fields in declared order.
    pub fn pack(&self) -> (r: Vec<u8>)
        requires
            self.wf(),
        ensures
            r@ == spec_pack_token(self@),
            r@.len() == TOKEN_ACCOUNT_LEN,
    {
        proof {
            lemma_auto_spec_u64_to_from_le_bytes();
        }
        let mut out: Vec<u8> = Vec::new();
        out.push(if self.is_initialized {
            1u8
        } else {
            0u8
        });
        let mut i: usize = 0;
        while i < KEY_LEN
            invariant
                i <= KEY_LEN,
                self.wf(),
                out@ == seq![flag_byte(self.is_initialized)] + self.owner@.subrange(0, i as int),
            decreases KEY_LEN - i,
        {
            out.push(self.owner.bytes[i]);
            i += 1;
            proof {
                assert(out@ =~= seq![flag_byte(self.is_initialized)] + self.owner@.subrange(
                    0,
                    i as int,
                ));
            }
        }
        let mut amount_bytes = u64_to_le_bytes(self.amount);
        out.append(&mut amount_bytes);
        proof {
            assert(self.owner@.subrange(0, KEY_LEN as int) =~= self.owner@);
            assert(out@ =~= spec_pack_token(self@));
        }
        out
    }

    /// Writes the packed record over the slot bytes, whole or not at all.
    pub fn pack_into_slice(&self, dst: &mut Vec<u8>)
        requires
            self.wf(),
            old(dst)@.len() == TOKEN_ACCOUNT_LEN,
        ensures
            final(dst)@ == spec_pack_token(self@),
            final(dst)@.len() == TOKEN_ACCOUNT_LEN,
    {
        let packed = self.pack();
        *dst = packed;
    }

    /// Decodes exactly 41 bytes; fails if the flag byte is not 0 or 1.
    pub fn unpack_from_slice(src: &Vec<u8>) -> (r: Result<NadrunnerToken, TokenError>)
        requires
            src@.len() == TOKEN_ACCOUNT_LEN,
        ensures
            match r {
                Ok(t) => token_bytes_valid(src@) && t@ == spec_unpack_token(src@) && t.wf(),
                Err(e) => !token_bytes_valid(src@) && e == TokenError::InvalidAccountData,
            },
    {
        let flag = src[0];
        let is_initialized = if flag == 0 {
            false
        } else if flag == 1 {
            true
        } else {
            return Err(TokenError::InvalidAccountData);
        };
        let mut owner_bytes: Vec<u8> = Vec::new();
        let mut i: usize = 1;
        while i < 33
            invariant
                1 <= i <= 33,
                src@.len() == TOKEN_ACCOUNT_LEN,
                owner_bytes@ == src@.subrange(1, i as int),
            decreases 33 - i,
        {
            owner_bytes.push(src[i]);
            i += 1;
            proof {
                assert(owner_bytes@ =~= src@.subrange(1, i as int));
            }
        }
        let owner = Pubkey::new(owner_bytes);
        let amount = u64_from_le_bytes(slice_subrange(src.as_slice(), 33, 41));
        Ok(NadrunnerToken { is_initialized, owner, amount })
    }

    /// Decoding that tolerates a freshly allocated, all-zero slot; only the
    /// length and the flag byte are checked.
    pub fn unpack_unchecked(src: &Vec<u8>) -> (r: Result<NadrunnerToken, TokenError>)
        ensures
            match r {
                Ok(t) => spec_unpack_token_unchecked(src@) == Ok::<TokenView, TokenError>(t@)
                    && t.wf(),
                Err(e) => spec_unpack_token_unchecked(src@) == Err::<TokenView, TokenError>(e),
            },
    {
        if src.len() != TOKEN_ACCOUNT_LEN {
            return Err(TokenError::InvalidAccountData);
        }
        Self::unpack_from_slice(src)
    }

    /// Decoding as the non-initialize instructions perform it: the record
    /// must decode and be initialized.
    pub fn unpack(src: &Vec<u8>) -> (r: Result<NadrunnerToken, TokenError>)
        ensures
            match r {
                Ok(t) => spec_unpack_token_checked(src@) == Ok::<TokenView, TokenError>(t@)
                    && t.wf() && t.is_initialized,
                Err(e) => spec_unpack_token_checked(src@) == Err::<TokenView, TokenError>(e),
            },
    {
        let t = match Self::unpack_unchecked(src) {
            Ok(t) => t,
            Err(e) => {
                return Err(e);
            },
        };
        if t.is_initialized() {
            Ok(t)
        } else {
            Err(TokenError::UninitializedAccount)
        }
    }
}

impl MintAuthority {
    /// The exact 33 bytes this record packs to, fields in declared order.
    pub fn pack(&self) -> (r: Vec<u8>)
        requires
            self.wf(),
        ensures
            r@ == spec_pack_authority(self@),
            r@.len() == MINT_AUTHORITY_LEN,
    {
        let mut out: Vec<u8> = Vec::new();
        out.push(if self.is_initialized {
            1u8
        } else {
            0u8
        });
        let mut i: usize = 0;
        while i < KEY_LEN
            invariant
                i <= KEY_LEN,
                self.wf(),
                out@ == seq![flag_byte(self.is_initialized)] + self.signer_pubkey@.subrange(
                    0,
                    i as int,
                ),
            decreases KEY_LEN - i,
        {
            out.push(self.signer_pubkey.bytes[i]);
            i += 1;
            proof {
                assert(out@ =~= seq![flag_byte(self.is_initialized)]
                    + self.signer_pubkey@.subrange(0, i as int));
            }
        }
        proof {
            assert(self.signer_pubkey@.subrange(0, KEY_LEN as int) =~= self.signer_pubkey@);
            assert(out@ =~= spec_pack_authority(self@));
        }
        out
    }

    /// Writes the packed record over the slot bytes, whole or not at all.
    pub fn pack_into_slice(&self, dst: &mut Vec<u8>)
        requires
            self.wf(),
            old(dst)@.len() == MINT_AUTHORITY_LEN,
        ensures
            final(dst)@ == spec_pack_authority(self@),
            final(dst)@.len() == MINT_AUTHORITY_LEN,
    {
        let packed = self.pack();
        *dst = packed;
    }

    /// Decodes exactly 33 bytes; fails if the flag byte is not 0 or 1.
    pub fn unpack_from_slice(src: &Vec<u8>) -> (r: Result<MintAuthority, TokenError>)
        requires
            src@.len() == MINT_AUTHORITY_LEN,
        ensures
            match r {
                Ok(a) => authority_bytes_valid(src@) && a@ == spec_unpack_authority(src@)
                    && a.wf(),
                Err(e) => !authority_bytes_valid(src@) && e == TokenError::InvalidAccountData,
            },
    {
        let flag = src[0];
        let is_initialized = if flag == 0 {
            false
        } else if flag == 1 {
            true
        } else {
            return Err(TokenError::InvalidAccountData);
        };
        let mut signer_bytes: Vec<u8> = Vec::new();
        let mut i: usize = 1;
        while i < 33
            invariant
                1 <= i <= 33,
                src@.len() == MINT_AUTHORITY_LEN,
                signer_bytes@ == src@.subrange(1, i as int),
            decreases 33 - i,
        {
            signer_bytes.push(src[i]);
            i += 1;
            proof {
                assert(signer_bytes@ =~= src@.subrange(1, i as int));
            }
        }
        let signer_pubkey = Pubkey::new(signer_bytes);
        Ok(MintAuthority { is_initialized, signer_pubkey })
    }

    /// Decoding that tolerates a freshly allocated, all-zero slot.
    pub fn unpack_unchecked(src: &Vec<u8>) -> (r: Result<MintAuthority, TokenError>)
        ensures
            match r {
                Ok(a) => spec_unpack_authority_unchecked(src@) == Ok::<AuthorityView, TokenError>(
                    a@,
                ) && a.wf(),
                Err(e) => spec_unpack_authority_unchecked(src@) == Err::<
                    AuthorityView,
                    TokenError,
                >(e),
            },
    {
        if src.len() != MINT_AUTHORITY_LEN {
            return Err(TokenError::InvalidAccountData);
        }
        Self::unpack_from_slice(src)
    }

    /// Decoding as the non-initialize instructions perform it.
    pub fn unpack(src: &Vec<u8>) -> (r: Result<MintAuthority, TokenError>)
        ensures
            match r {
                Ok(a) => spec_unpack_authority_checked(src@) == Ok::<AuthorityView, TokenError>(a@)
                    && a.wf() && a.is_initialized,
                Err(e) => spec_unpack_authority_checked(src@) == Err::<AuthorityView, TokenError>(
                    e,
                ),
            },
    {
        let a = match Self::unpack_unchecked(src) {
            Ok(a) => a,
            Err(e) => {
                return Err(e);
            },
        };
        if a.is_initialized() {
            Ok(a)
        } else {
            Err(TokenError::UninitializedAccount)
        }
    }
}

} // verus!
