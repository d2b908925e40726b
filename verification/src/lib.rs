//! Witness-quorum attestation: groups of member identities, rotating epochs of
//! witnesses with a claim threshold, and the decision whether a claim carries
//! enough distinct witness signatures.
//!
//! The records are in [`state`], the operations on single records in
//! [`instructions`], and the components that own the records in [`registry`].
//! The functions of this file are the operations that the library exposes;
//! each is one atomic request, and a request that is refused changes nothing.

pub mod constants;
pub mod errors;
pub mod events;
pub mod identity;
pub mod instructions;
pub mod laws;
pub mod registry;
pub mod state;
pub mod storage;
pub mod utils;

use crate::errors::NcashError;
use crate::events::{CreateDappEvent, CreateGroupEvent};
use crate::identity::Identity;
use crate::instructions::epoch::add_epoch::{proposed_epoch, AddEpochArgs};
use crate::instructions::group::verify_proof::{attestation_views, VerifyProofArgs};
use crate::registry::dapps::{after_create_dapp, create_dapp_outcome, DappRegistry};
use crate::registry::epochs::{
    after_change_epoch_index, after_initialize, change_epoch_index_outcome,
    configs_after_register_epoch, epochs_after_register_epoch, initialize_outcome,
    register_epoch_outcome, verify_proof_outcome, EpochManager,
};
use crate::registry::groups::{after_create_group, create_group_outcome, GroupRegistry};
use crate::state::epoch::witness_views;
use crate::utils::hashing::{dapp_id, group_id};
use vstd::prelude::*;

verus! {

/// The program whose record addresses the library derives by default.
pub const PROGRAM_ID: [u8; 32] = [
    0x14, 0x58, 0x3c, 0x1b, 0x7a, 0xc7, 0x65, 0x5f, 0x86, 0x69, 0x9d, 0x94, 0x67, 0xf9, 0x00, 0x44,
    0xfb, 0x0e, 0x55, 0xd9, 0xb8, 0xfe, 0xa1, 0xb9, 0xac, 0xff, 0x1a, 0x4b, 0x13, 0xb7, 0x2f, 0x3e,
];

/// Initializes the epoch configuration of `create_key` with `payer` as its
/// deployer, index zero and no epochs, and hands back its address. A
/// duration of zero is refused with `InvalidEpochDuration`, a creation key
/// whose configuration exists with `AlreadyExists`.
pub fn initialize_epoch_config(
    manager: &mut EpochManager,
    create_key: &Identity,
    payer: &Identity,
    epoch_duration_seconds: u64,
) -> (made: Result<Identity, NcashError>)
    requires
        old(manager).wf(),
    ensures
        final(manager).wf(),
        final(manager).program_id() == old(manager).program_id(),
        final(manager).epochs() == old(manager).epochs(),
        final(manager).configs() == after_initialize(
            old(manager).configs(),
            old(manager).program_id(),
            *create_key,
            *payer,
            epoch_duration_seconds,
        ),
        match made {
            Ok(address) => initialize_outcome(
                old(manager).configs(),
                old(manager).program_id(),
                *create_key,
                epoch_duration_seconds,
            ) matches Ok((a, _)) && a == address,
            Err(e) => initialize_outcome(
                old(manager).configs(),
                old(manager).program_id(),
                *create_key,
                epoch_duration_seconds,
            ) == Err::<(Identity, u8), NcashError>(e),
        },
{
    manager.initialize(create_key, payer, epoch_duration_seconds)
}

/// Moves the epoch index of the configuration stored at `epoch_config` to
/// `new_epoch_index`. Only the deployer may (`Unauthorized`), and only
/// upward (`InvalidEpochIndex`); a vacant address gives `NotFound`.
pub fn change_epoch_index(
    manager: &mut EpochManager,
    epoch_config: &Identity,
    deployer: &Identity,
    new_epoch_index: u32,
) -> (changed: Result<(), NcashError>)
    requires
        old(manager).wf(),
    ensures
        final(manager).wf(),
        final(manager).program_id() == old(manager).program_id(),
        final(manager).epochs() == old(manager).epochs(),
        changed == change_epoch_index_outcome(
            old(manager).configs(),
            *epoch_config,
            *deployer,
            new_epoch_index,
        ),
        final(manager).configs() == after_change_epoch_index(
            old(manager).configs(),
            *epoch_config,
            *deployer,
            new_epoch_index,
        ),
{
    manager.change_epoch_index(epoch_config, deployer, new_epoch_index)
}

/// Registers the epoch of `args` under the configuration stored at
/// `epoch_config` and hands back the address of the epoch. The deployer, the
/// witnesses, the threshold and the room in the configuration are checked in
/// that order.
pub fn add_epoch(
    manager: &mut EpochManager,
    epoch_config: &Identity,
    deployer: &Identity,
    args: AddEpochArgs,
) -> (made: Result<Identity, NcashError>)
    requires
        old(manager).wf(),
    ensures
        final(manager).wf(),
        final(manager).program_id() == old(manager).program_id(),
        made == register_epoch_outcome(
            old(manager).configs(),
            old(manager).epochs(),
            old(manager).program_id(),
            *epoch_config,
            *deployer,
            proposed_epoch(witness_views(args.witnesses@), args.minimum_witnesses_for_claim),
        ),
        final(manager).configs() == configs_after_register_epoch(
            old(manager).configs(),
            old(manager).epochs(),
            old(manager).program_id(),
            *epoch_config,
            *deployer,
            proposed_epoch(witness_views(args.witnesses@), args.minimum_witnesses_for_claim),
        ),
        final(manager).epochs() == epochs_after_register_epoch(
            old(manager).configs(),
            old(manager).epochs(),
            old(manager).program_id(),
            *epoch_config,
            *deployer,
            proposed_epoch(witness_views(args.witnesses@), args.minimum_witnesses_for_claim),
        ),
{
    manager.add_epoch(epoch_config, deployer, args)
}

/// Creates the group of `provider` for `creator` and hands back the event
/// that announces it. An empty provider is refused with `InvalidProvider`,
/// one over its bound with `ProviderTooLong`, a provider whose group exists
/// with `AlreadyExists`.
pub fn create_group(registry: &mut GroupRegistry, creator: &Identity, provider: String) -> (created:
    Result<CreateGroupEvent, NcashError>)
    requires
        old(registry).wf(),
    ensures
        final(registry).wf(),
        final(registry).program_id() == old(registry).program_id(),
        final(registry)@ == after_create_group(
            old(registry)@,
            old(registry).program_id(),
            *creator,
            provider@,
        ),
        match created {
            Ok(event) => {
                &&& create_group_outcome(
                    old(registry)@,
                    old(registry).program_id(),
                    provider@,
                ) matches Ok((address, _))
                &&& event.group_address == address
                &&& event.id as int == group_id(provider@)
                &&& event.provider@ == provider@
            },
            Err(e) => create_group_outcome(old(registry)@, old(registry).program_id(), provider@)
                == Err::<(Identity, u8), NcashError>(e),
        },
{
    registry.create(creator, provider)
}

/// Verifies a claim against the active epoch of the configuration stored at
/// `epoch_config`: accepted when at least as many distinct witnesses of the
/// epoch as its threshold have signed the claim, refused with
/// `InsufficientWitnesses` otherwise, and with `NotFound` where there is no
/// active epoch. Nothing is changed.
pub fn verify_proof(manager: &EpochManager, epoch_config: &Identity, args: &VerifyProofArgs) -> (decision:
    Result<(), NcashError>)
    requires
        manager.wf(),
    ensures
        decision == verify_proof_outcome(
            manager.configs(),
            manager.epochs(),
            *epoch_config,
            args.claim@,
            attestation_views(args.attestations@),
        ),
{
    manager.verify_proof(epoch_config, args)
}

/// Creates the dapp that `payer` binds, under `create_key`, to the group
/// stored at `group` and to the commitment root `group_root`, and hands back
/// its address and the event that announces it. A group that is not there
/// gives `NotFound`, a pair of creation key and group whose dapp exists
/// `AlreadyExists`.
pub fn create_dapp(
    dapps: &mut DappRegistry,
    groups: &GroupRegistry,
    payer: &Identity,
    create_key: &Identity,
    group: &Identity,
    group_root: u64,
) -> (created: Result<(Identity, CreateDappEvent), NcashError>)
    requires
        old(dapps).wf(),
        groups.wf(),
    ensures
        final(dapps).wf(),
        final(dapps).program_id() == old(dapps).program_id(),
        final(dapps)@ == after_create_dapp(
            old(dapps)@,
            groups@,
            old(dapps).program_id(),
            *payer,
            *create_key,
            *group,
            group_root,
        ),
        match created {
            Ok((address, event)) => {
                &&& create_dapp_outcome(
                    old(dapps)@,
                    groups@,
                    old(dapps).program_id(),
                    *create_key,
                    *group,
                ) matches Ok((a, _))
                &&& a == address
                &&& event.id@ == dapp_id(*payer, group_root)
            },
            Err(e) => create_dapp_outcome(
                old(dapps)@,
                groups@,
                old(dapps).program_id(),
                *create_key,
                *group,
            ) == Err::<(Identity, u8), NcashError>(e),
        },
{
    dapps.create(groups, payer, create_key, group, group_root)
}

} // verus!
