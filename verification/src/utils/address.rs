//! The addresses under which records are stored. An address is derived from a
//! namespace tag, an entity tag and the seed of the record, so the same seed
//! always leads to the same address.

use crate::constants::{SEED_DAPP, SEED_EPOCH, SEED_EPOCH_CONFIG, SEED_GROUP, SEED_PREFIX};
use crate::identity::{identity_from, lemma_identity_from, Identity};
use anchor_lang::prelude::Pubkey;
use vstd::bytes::{spec_u32_to_le_bytes, u32_to_le_bytes};
use vstd::prelude::*;
use vstd::slice::slice_to_vec;

verus! {

/// The address that a program derives from a list of seeds, with the bump
/// that completes it, or `None` where the seeds admit no address.
pub uninterp spec fn program_address(seeds: Seq<Seq<u8>>, program_id: Seq<u8>) -> Option<
    (Seq<u8>, u8),
>;

/// The byte strings that a list of seeds holds.
pub open spec fn seed_bytes(seeds: Seq<Vec<u8>>) -> Seq<Seq<u8>> {
    seeds.map_values(|seed: Vec<u8>| seed@)
}

/// Calls `Pubkey::try_find_program_address` on the seeds and the program
/// identity. What comes back is a function of the two alone: the address and
/// its bump, or nothing where the function finds none (a seed longer than 32
/// bytes, too many seeds, or no bump that works).
#[verifier::external_body]
pub(crate) fn find_program_address(seeds: &Vec<Vec<u8>>, program_id: &Identity) -> (found: Option<
    (Identity, u8),
>)
    ensures
        match found {
            Some((address, bump)) => program_address(seed_bytes(seeds@), program_id@) == Some(
                (address@, bump),
            ),
            None => program_address(seed_bytes(seeds@), program_id@) is None,
        },
{
    let parts: Vec<&[u8]> = seeds.iter().map(|seed| seed.as_slice()).collect();
    let program = Pubkey::new_from_array(program_id.bytes);
    match Pubkey::try_find_program_address(&parts, &program) {
        Some((key, bump)) => Some((Identity { bytes: key.to_bytes() }, bump)),
        None => None,
    }
}

/// The address and bump that the program derives from a list of seeds.
pub open spec fn derived_address(seeds: Seq<Seq<u8>>, program_id: Identity) -> Option<
    (Identity, u8),
> {
    match program_address(seeds, program_id@) {
        Some((bytes, bump)) => Some((identity_from(bytes), bump)),
        None => None,
    }
}

/// Derives the address and bump of a list of seeds.
pub fn find_address(seeds: &Vec<Vec<u8>>, program_id: &Identity) -> (found: Option<(Identity, u8)>)
    ensures
        found == derived_address(seed_bytes(seeds@), *program_id),
{
    let found = find_program_address(seeds, program_id);
    proof {
        if let Some((address, bump)) = found {
            lemma_identity_from(address);
        }
    }
    found
}

/// Seeds of the group of a provider.
pub open spec fn group_seeds(provider: Seq<char>) -> Seq<Seq<u8>> {
    seq![SEED_PREFIX@, SEED_GROUP@, vstd::utf8::encode_utf8(provider)]
}

/// Seeds of the epoch configuration made with a creation key.
pub open spec fn epoch_config_seeds(create_key: Identity) -> Seq<Seq<u8>> {
    seq![SEED_PREFIX@, SEED_EPOCH_CONFIG@, create_key@]
}

/// Seeds of the epoch that an epoch configuration lists at a position.
pub open spec fn epoch_seeds(epoch_config: Identity, position: u32) -> Seq<Seq<u8>> {
    seq![SEED_PREFIX@, SEED_EPOCH@, epoch_config@, spec_u32_to_le_bytes(position)]
}

/// Seeds of the dapp made with a creation key for a group.
pub open spec fn dapp_seeds(create_key: Identity, group: Identity) -> Seq<Seq<u8>> {
    seq![SEED_PREFIX@, SEED_DAPP@, create_key@, group@]
}

/// Address and bump of the group of a provider.
pub open spec fn group_address(provider: Seq<char>, program_id: Identity) -> Option<(Identity, u8)> {
    derived_address(group_seeds(provider), program_id)
}

/// Address and bump of the epoch configuration made with a creation key.
pub open spec fn epoch_config_address(create_key: Identity, program_id: Identity) -> Option<
    (Identity, u8),
> {
    derived_address(epoch_config_seeds(create_key), program_id)
}

/// Address and bump of the epoch that an epoch configuration lists at a
/// position.
pub open spec fn epoch_address(epoch_config: Identity, position: u32, program_id: Identity) -> Option<
    (Identity, u8),
> {
    derived_address(epoch_seeds(epoch_config, position), program_id)
}

/// Address and bump of the dapp made with a creation key for a group.
pub open spec fn dapp_address(create_key: Identity, group: Identity, program_id: Identity) -> Option<
    (Identity, u8),
> {
    derived_address(dapp_seeds(create_key, group), program_id)
}

/// Derives the address and bump of the group of `provider`.
pub fn find_group_address(provider: &str, program_id: &Identity) -> (found: Option<(Identity, u8)>)
    ensures
        found == group_address(provider@, *program_id),
{
    let mut seeds: Vec<Vec<u8>> = Vec::new();
    seeds.push(slice_to_vec(SEED_PREFIX.as_slice()));
    seeds.push(slice_to_vec(SEED_GROUP.as_slice()));
    seeds.push(slice_to_vec(provider.as_bytes()));
    assert(seed_bytes(seeds@) =~= group_seeds(provider@));
    find_address(&seeds, program_id)
}

/// Derives the address and bump of the epoch configuration made with
/// `create_key`.
pub fn find_epoch_config_address(create_key: &Identity, program_id: &Identity) -> (found: Option<
    (Identity, u8),
>)
    ensures
        found == epoch_config_address(*create_key, *program_id),
{
    let mut seeds: Vec<Vec<u8>> = Vec::new();
    seeds.push(slice_to_vec(SEED_PREFIX.as_slice()));
    seeds.push(slice_to_vec(SEED_EPOCH_CONFIG.as_slice()));
    seeds.push(slice_to_vec(create_key.bytes.as_slice()));
    assert(seed_bytes(seeds@) =~= epoch_config_seeds(*create_key));
    find_address(&seeds, program_id)
}

/// Derives the address and bump of the epoch that `epoch_config` lists at
/// `position`.
pub fn find_epoch_address(epoch_config: &Identity, position: u32, program_id: &Identity) -> (found:
    Option<(Identity, u8)>)
    ensures
        found == epoch_address(*epoch_config, position, *program_id),
{
    let mut seeds: Vec<Vec<u8>> = Vec::new();
    seeds.push(slice_to_vec(SEED_PREFIX.as_slice()));
    seeds.push(slice_to_vec(SEED_EPOCH.as_slice()));
    seeds.push(slice_to_vec(epoch_config.bytes.as_slice()));
    seeds.push(u32_to_le_bytes(position));
    assert(seed_bytes(seeds@) =~= epoch_seeds(*epoch_config, position));
    find_address(&seeds, program_id)
}

/// Derives the address and bump of the dapp made with `create_key` for the
/// group stored at `group`.
pub fn find_dapp_address(create_key: &Identity, group: &Identity, program_id: &Identity) -> (found:
    Option<(Identity, u8)>)
    ensures
        found == dapp_address(*create_key, *group, *program_id),
{
    let mut seeds: Vec<Vec<u8>> = Vec::new();
    seeds.push(slice_to_vec(SEED_PREFIX.as_slice()));
    seeds.push(slice_to_vec(SEED_DAPP.as_slice()));
    seeds.push(slice_to_vec(create_key.bytes.as_slice()));
    seeds.push(slice_to_vec(group.bytes.as_slice()));
    assert(seed_bytes(seeds@) =~= dapp_seeds(*create_key, *group));
    find_address(&seeds, program_id)
}

} // verus!
