//! Keccak-256 and the identifiers derived with it.

use crate::identity::Identity;
use vstd::bytes::{spec_u64_to_le_bytes, u64_to_le_bytes};
use vstd::prelude::*;

verus! {

/// The Keccak-256 digest of a byte string.
pub uninterp spec fn keccak256(data: Seq<u8>) -> Seq<u8>;

/// Calls `anchor_lang::solana_program::keccak::hash` and hands back the 32
/// bytes of the `Hash` it returns. The digest is a function of the input bytes
/// alone; nothing else is claimed of it.
#[verifier::external_body]
pub(crate) fn keccak256_digest(data: &[u8]) -> (digest: [u8; 32])
    ensures
        digest@ == keccak256(data@),
{
    anchor_lang::solana_program::keccak::hash(data).to_bytes()
}

/// First four bytes of a digest read as a big-endian number.
pub open spec fn leading_u32(digest: Seq<u8>) -> int
    recommends
        digest.len() >= 4,
{
    digest[0] as int * 0x100_0000 + digest[1] as int * 0x1_0000 + digest[2] as int * 0x100
        + digest[3] as int
}

/// Reduces a digest to the numeric identifier held in a group.
pub fn id_from_digest(digest: &[u8; 32]) -> (id: u32)
    ensures
        id as int == leading_u32(digest@),
{
    let b0: u32 = digest[0] as u32;
    let b1: u32 = digest[1] as u32;
    let b2: u32 = digest[2] as u32;
    let b3: u32 = digest[3] as u32;
    b0 * 0x100_0000 + b1 * 0x1_0000 + b2 * 0x100 + b3
}

/// The identifier of the group of a provider: the leading four bytes of the
/// digest of the provider's UTF-8 bytes.
pub open spec fn group_id(provider: Seq<char>) -> int {
    leading_u32(keccak256(vstd::utf8::encode_utf8(provider)))
}

/// Computes the identifier of the group of `provider`.
pub fn fetch_group_id(provider: &str) -> (id: u32)
    ensures
        id as int == group_id(provider@),
{
    let digest = keccak256_digest(provider.as_bytes());
    id_from_digest(&digest)
}

/// What is hashed into a dapp's identifier: the creator's bytes, then the
/// commitment root in little-endian order.
pub open spec fn dapp_id_preimage(creator: Identity, group_root: u64) -> Seq<u8> {
    creator@ + spec_u64_to_le_bytes(group_root)
}

/// The identifier of the dapp that `creator` binds to `group_root`.
pub open spec fn dapp_id(creator: Identity, group_root: u64) -> Seq<u8> {
    keccak256(dapp_id_preimage(creator, group_root))
}

/// Lays out what is hashed into a dapp's identifier.
pub fn dapp_id_input(creator: &Identity, group_root: u64) -> (input: Vec<u8>)
    ensures
        input@ == dapp_id_preimage(*creator, group_root),
{
    let mut input: Vec<u8> = Vec::new();
    let mut i: usize = 0;
    while i < 32
        invariant
            i <= 32,
            input@ == creator@.subrange(0, i as int),
        decreases 32 - i,
    {
        input.push(creator.bytes[i]);
        i += 1;
    }
    assert(creator@.subrange(0, 32) == creator@);
    let mut root = u64_to_le_bytes(group_root);
    input.append(&mut root);
    input
}

/// Computes the identifier of the dapp that `creator` binds to `group_root`.
pub fn fetch_dapp_id(creator: &Identity, group_root: u64) -> (id: [u8; 32])
    ensures
        id@ == dapp_id(*creator, group_root),
{
    let input = dapp_id_input(creator, group_root);
    keccak256_digest(input.as_slice())
}

} // verus!
