//! The host-runtime collaborator the instructions consult: the
//! keccak-256 digest is computed by the host's own library, and the item
//! here is the only place where its answer enters the verified code.
use vstd::prelude::*;

verus! {

/// The keccak-256 digest of a byte string, as the host's library
/// computes it.
pub uninterp spec fn keccak_of(message: Seq<u8>) -> Seq<u8>;

/// Relies on solana's `keccak::hash`: the 32-byte keccak-256 digest,
/// a function of the message bytes alone.
#[verifier::external_body]
pub(crate) fn keccak256(message: &Vec<u8>) -> (r: Vec<u8>)
    ensures
        r@ == keccak_of(message@),
        r@.len() == 32,
{
    solana_program::keccak::hash(message.as_slice()).to_bytes().to_vec()
}

} // verus!
