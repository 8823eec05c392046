//! Commitment engine: deterministic one-way hashing of sensitive
//! fields into fixed-size digests that may appear in public state
//! without revealing their preimages.
//!
//! The digest itself comes from Keccak-256; this module names its
//! result `keccak_of` and builds the composite, field-binding
//! commitments on top of it.

use vstd::prelude::*;

verus! {

/// The Keccak-256 digest of a byte sequence, as computed by the
/// hashing routine this crate relies on. The digest is a function of
/// the input bytes alone.
pub uninterp spec fn keccak_of(data: Seq<u8>) -> Seq<u8>;

/// Relies on anchor_lang::solana_program::keccak::hash: a Keccak-256
/// digest of the input bytes, 32 bytes long, depending on the input
/// alone.
#[verifier::external_body]
pub(crate) fn keccak256(data: &[u8]) -> (r: [u8; 32])
    ensures
        r@ == keccak_of(data@),
{
    anchor_lang::solana_program::keccak::hash(data).to_bytes()
}

/// Commit to an arbitrary byte buffer: the public digest reveals
/// nothing of the buffer, while equal buffers always yield equal
/// digests.
pub fn commitment(data: &Vec<u8>) -> (r: [u8; 32])
    ensures
        r@ == keccak_of(data@),
{
    keccak256(data.as_slice())
}

/// Commitment determinism: committing equal byte buffers yields
/// equal digests.
pub proof fn lemma_commitment_deterministic(b1: Seq<u8>, b2: Seq<u8>)
    requires
        b1 == b2,
    ensures
        keccak_of(b1) == keccak_of(b2),
{
}

/// The canonical encoding of a bridge request that its commitment is
/// computed over: amount (little endian) || source chain || dest
/// chain || user key. Binding all fields into one digest means none
/// can be substituted without changing it.
pub open spec fn bridge_amount_encoding(
    amount: u64,
    source_chain: Seq<u8>,
    dest_chain: Seq<u8>,
    user: Seq<u8>,
) -> Seq<u8> {
    vstd::bytes::spec_u64_to_le_bytes(amount) + source_chain + dest_chain + user
}

/// Composite commitment over a bridge request: a digest of the
/// canonical encoding of all its fields.
pub fn commit_bridge_amount(
    amount: u64,
    source_chain: &Vec<u8>,
    dest_chain: &Vec<u8>,
    user: &[u8; 32],
) -> (r: [u8; 32])
    ensures
        r@ == keccak_of(bridge_amount_encoding(amount, source_chain@, dest_chain@, user@)),
{
    let mut buffer = vstd::bytes::u64_to_le_bytes(amount);
    buffer.extend_from_slice(source_chain.as_slice());
    buffer.extend_from_slice(dest_chain.as_slice());
    buffer.extend_from_slice(user.as_slice());
    proof {
        assert(buffer@ =~= bridge_amount_encoding(amount, source_chain@, dest_chain@, user@));
    }
    keccak256(buffer.as_slice())
}

/// Non-reversible transform of a raw user identity: its Keccak-256
/// digest, suitable for audit records that must not carry the
/// identity itself.
pub fn hash_user_id(user_pubkey: &[u8; 32]) -> (r: [u8; 32])
    ensures
        r@ == keccak_of(user_pubkey@),
{
    keccak256(user_pubkey.as_slice())
}

} // verus!
