//! The Keccak-256 digest used to derive the winner index. The digest itself
//! is computed by an outside crate; this module gives its result a name that
//! the winner-draw contract can speak of.

use vstd::prelude::*;

verus! {

/// The Keccak-256 digest of a byte sequence. The digest is a pure function of
/// the input bytes; nothing further is assumed of its value.
pub uninterp spec fn keccak_of(data: Seq<u8>) -> Seq<u8>;

/// Relies on `solana_keccak_hasher::hash` (Keccak-256): the digest depends on
/// the input bytes alone and is exactly 32 bytes long.
#[verifier::external_body]
pub(crate) fn keccak256(data: &Vec<u8>) -> (r: Vec<u8>)
    ensures
        r@ == keccak_of(data@),
        r@.len() == 32,
{
    solana_keccak_hasher::hash(data.as_slice()).to_bytes().to_vec()
}

} // verus!
