//! What holds of the operations whatever the records and the requests are.

use crate::constants::{MAX_MEMBERS, MAX_WITNESSES};
use crate::errors::NcashError;
use crate::identity::{
    first_position, lemma_first_position_exists, lemma_remove_preserves_uniqueness, Identity,
};
use crate::instructions::group::verify_proof::{
    checked_against, verdict, vouchers, AttestationView, CheckedAttestationView,
};
use crate::registry::dapps::{after_create_dapp, create_dapp_outcome};
use crate::registry::epochs::{
    after_initialize, configs_after_register_epoch, epochs_after_register_epoch,
    initialize_outcome, register_epoch_outcome,
};
use crate::registry::groups::{after_create_group, create_group_outcome};
use crate::state::epoch::{all_witnesses_valid, lemma_validation_ok_iff_valid, EpochView};
use crate::state::dapp::DappView;
use crate::state::epoch_config::EpochConfigView;
use crate::state::group::GroupView;
use vstd::prelude::*;

verus! {

/// The group of a provider is created once: whatever the first creation of
/// a provider's group did, a second one for the same provider is refused and
/// changes nothing, and it is refused with `AlreadyExists` where the first
/// was accepted.
pub proof fn create_group_twice_fails(
    groups: Map<Identity, GroupView>,
    program_id: Identity,
    first_creator: Identity,
    second_creator: Identity,
    provider: Seq<char>,
)
    ensures
        ({
            let once = after_create_group(groups, program_id, first_creator, provider);
            &&& create_group_outcome(once, program_id, provider) is Err
            &&& after_create_group(once, program_id, second_creator, provider) == once
            &&& create_group_outcome(groups, program_id, provider) is Ok ==> create_group_outcome(
                once,
                program_id,
                provider,
            ) == Err::<(Identity, u8), NcashError>(NcashError::AlreadyExists)
        }),
{
}

/// The epoch configuration of a creation key is initialized once: a second
/// initialization with the same key is refused and changes nothing, whoever
/// pays and whatever the duration, and it is refused with `AlreadyExists`
/// where the first was accepted and the duration is not zero.
pub proof fn initialize_twice_fails(
    configs: Map<Identity, EpochConfigView>,
    program_id: Identity,
    create_key: Identity,
    first_payer: Identity,
    first_duration: u64,
    second_payer: Identity,
    second_duration: u64,
)
    requires
        initialize_outcome(configs, program_id, create_key, first_duration) is Ok,
    ensures
        ({
            let once = after_initialize(
                configs,
                program_id,
                create_key,
                first_payer,
                first_duration,
            );
            &&& initialize_outcome(once, program_id, create_key, second_duration) is Err
            &&& after_initialize(once, program_id, create_key, second_payer, second_duration)
                == once
            &&& second_duration > 0 ==> initialize_outcome(
                once,
                program_id,
                create_key,
                second_duration,
            ) == Err::<(Identity, u8), NcashError>(NcashError::AlreadyExists)
        }),
{
}

/// The dapp of a creation key and a group is created once: after a creation
/// that was accepted, a creation with the same key for the same group is
/// refused with `AlreadyExists` and changes nothing, whoever pays and
/// whatever the commitment root.
pub proof fn create_dapp_twice_fails(
    dapps: Map<Identity, DappView>,
    groups: Map<Identity, GroupView>,
    program_id: Identity,
    create_key: Identity,
    group: Identity,
    first_payer: Identity,
    first_root: u64,
    second_payer: Identity,
    second_root: u64,
)
    requires
        create_dapp_outcome(dapps, groups, program_id, create_key, group) is Ok,
    ensures
        ({
            let once = after_create_dapp(
                dapps,
                groups,
                program_id,
                first_payer,
                create_key,
                group,
                first_root,
            );
            &&& create_dapp_outcome(once, groups, program_id, create_key, group) == Err::<
                (Identity, u8),
                NcashError,
            >(NcashError::AlreadyExists)
            &&& after_create_dapp(
                once,
                groups,
                program_id,
                second_payer,
                create_key,
                group,
                second_root,
            ) == once
        }),
{
}

/// A dapp keeps what it was created with: the creation of another dapp,
/// whether accepted or refused, leaves every dapp that exists as it is, and
/// so its commitment root. No other operation takes the dapps at all.
pub proof fn existing_dapps_are_kept(
    dapps: Map<Identity, DappView>,
    groups: Map<Identity, GroupView>,
    program_id: Identity,
    payer: Identity,
    create_key: Identity,
    group: Identity,
    group_root: u64,
    existing: Identity,
)
    requires
        dapps.dom().contains(existing),
    ensures
        ({
            let after = after_create_dapp(
                dapps,
                groups,
                program_id,
                payer,
                create_key,
                group,
                group_root,
            );
            after.dom().contains(existing) && after[existing] == dapps[existing]
        }),
{
}

/// A change of the member list of a group.
pub enum MemberChange {
    /// `add_member` with this member.
    Add(Identity),
    /// `remove_member` with this member.
    Remove(Identity),
}

/// The group after a sequence of changes of its member list, each applied
/// to what the one before it left.
pub open spec fn after_member_changes(group: GroupView, changes: Seq<MemberChange>) -> GroupView
    decreases changes.len(),
{
    if changes.len() == 0 {
        group
    } else {
        let next = match changes[0] {
            MemberChange::Add(member) => group.after_add_member(member),
            MemberChange::Remove(member) => group.after_remove_member(member),
        };
        after_member_changes(next, changes.drop_first())
    }
}

/// Whatever members are added to and removed from a valid group, in whatever
/// order, the group stays valid: it never holds more than `MAX_MEMBERS`
/// members, and none of them twice.
pub proof fn member_count_stays_bounded(group: GroupView, changes: Seq<MemberChange>)
    requires
        group.valid(),
    ensures
        after_member_changes(group, changes).valid(),
        after_member_changes(group, changes).members.len() <= MAX_MEMBERS,
    decreases changes.len(),
{
    if changes.len() > 0 {
        let next = match changes[0] {
            MemberChange::Add(member) => group.after_add_member(member),
            MemberChange::Remove(member) => group.after_remove_member(member),
        };
        match changes[0] {
            MemberChange::Add(member) => {},
            MemberChange::Remove(member) => {
                if group.members.contains(member) {
                    lemma_first_position_exists(group.members, member);
                    lemma_remove_preserves_uniqueness(
                        group.members,
                        first_position(group.members, member),
                    );
                }
            },
        }
        member_count_stays_bounded(next, changes.drop_first());
    }
}

/// Adding a member that the group holds is refused and leaves the group as
/// it was. Where the group has room left, it is refused with
/// `DuplicateMember`.
pub proof fn add_existing_member_is_refused(group: GroupView, member: Identity)
    requires
        group.members.contains(member),
    ensures
        group.add_member_outcome(member) is Err,
        group.after_add_member(member) == group,
        group.members.len() < MAX_MEMBERS ==> group.add_member_outcome(member) == Err::<
            (),
            NcashError,
        >(NcashError::DuplicateMember),
{
}

/// The indices that a sequence of requests to change the epoch index sets,
/// one for each request that is accepted, in the order of the requests. A
/// request is the signer and the new index.
pub open spec fn accepted_indices(config: EpochConfigView, requests: Seq<(Identity, u32)>) -> Seq<u32>
    decreases requests.len(),
{
    if requests.len() == 0 {
        Seq::empty()
    } else {
        let (signer, new_index) = requests[0];
        let rest = accepted_indices(
            config.after_change_index(signer, new_index),
            requests.drop_first(),
        );
        if config.change_index_outcome(signer, new_index) is Ok {
            seq![new_index] + rest
        } else {
            rest
        }
    }
}

/// The indices that successive accepted changes set are each above the one
/// before, and all above the index that the configuration had at first.
pub proof fn accepted_indices_increase(config: EpochConfigView, requests: Seq<(Identity, u32)>)
    ensures
        forall|i: int|
            0 <= i < accepted_indices(config, requests).len() ==> config.epoch_index
                < #[trigger] accepted_indices(config, requests)[i],
        forall|i: int, j: int|
            0 <= i < j < accepted_indices(config, requests).len() ==> accepted_indices(
                config,
                requests,
            )[i] < accepted_indices(config, requests)[j],
    decreases requests.len(),
{
    if requests.len() > 0 {
        let (signer, new_index) = requests[0];
        let next = config.after_change_index(signer, new_index);
        accepted_indices_increase(next, requests.drop_first());
        let rest = accepted_indices(next, requests.drop_first());
        let all = accepted_indices(config, requests);
        if config.change_index_outcome(signer, new_index) is Ok {
            assert(all == seq![new_index] + rest);
            assert forall|i: int| 0 <= i < all.len() implies config.epoch_index < #[trigger] all[i] by {
                if i > 0 {
                    assert(all[i] == rest[i - 1]);
                }
            }
            assert forall|i: int, j: int| 0 <= i < j < all.len() implies all[i] < all[j] by {
                assert(all[j] == rest[j - 1]);
                if i > 0 {
                    assert(all[i] == rest[i - 1]);
                }
            }
        }
    }
}

/// A request for an epoch index that is not above the current one is
/// refused and changes nothing; from the deployer it is refused with
/// `InvalidEpochIndex`.
pub proof fn stale_epoch_index_is_refused(config: EpochConfigView, signer: Identity, new_index: u32)
    requires
        new_index <= config.epoch_index,
    ensures
        config.change_index_outcome(signer, new_index) is Err,
        config.after_change_index(signer, new_index) == config,
        signer == config.deployer ==> config.change_index_outcome(signer, new_index) == Err::<
            (),
            NcashError,
        >(NcashError::InvalidEpochIndex),
{
}

/// An epoch whose threshold is above the number of its witnesses is never
/// registered: the request is refused, and neither the configurations nor
/// the epochs change. Where nothing else is wrong with the request (the
/// configuration is there, the signer is its deployer, and the witnesses
/// pass their checks), it is refused with `InvalidWitnessClaimCount`.
pub proof fn excessive_threshold_is_refused(
    configs: Map<Identity, EpochConfigView>,
    epochs: Map<Identity, EpochView>,
    program_id: Identity,
    config: Identity,
    signer: Identity,
    epoch: EpochView,
)
    requires
        epoch.minimum_witnesses_for_claim > epoch.witnesses.len(),
    ensures
        register_epoch_outcome(configs, epochs, program_id, config, signer, epoch) is Err,
        configs_after_register_epoch(configs, epochs, program_id, config, signer, epoch)
            == configs,
        epochs_after_register_epoch(configs, epochs, program_id, config, signer, epoch) == epochs,
        configs.dom().contains(config) && signer == configs[config].deployer
            && epoch.witnesses.len() <= MAX_WITNESSES && all_witnesses_valid(epoch.witnesses)
            ==> register_epoch_outcome(configs, epochs, program_id, config, signer, epoch)
            == Err::<Identity, NcashError>(NcashError::InvalidWitnessClaimCount),
{
    lemma_validation_ok_iff_valid(epoch);
}

/// The decision on a claim depends on the epoch, the claim and the set of
/// the attestations only: attestations that differ in order or in how often
/// one is repeated give the same decision.
pub proof fn decision_is_determined(
    epoch: EpochView,
    claim: Seq<u8>,
    first: Seq<AttestationView>,
    second: Seq<AttestationView>,
)
    requires
        first.to_set() == second.to_set(),
    ensures
        vouchers(epoch, checked_against(claim, first)) == vouchers(
            epoch,
            checked_against(claim, second),
        ),
        verdict(epoch, checked_against(claim, first)) == verdict(
            epoch,
            checked_against(claim, second),
        ),
{
    let a = checked_against(claim, first);
    let b = checked_against(claim, second);
    assert forall|w: Seq<u8>| vouchers(epoch, a).contains(w) implies vouchers(epoch, b).contains(
        w,
    ) by {
        lemma_same_set_vouches(epoch, claim, first, second, w);
    }
    assert forall|w: Seq<u8>| vouchers(epoch, b).contains(w) implies vouchers(epoch, a).contains(
        w,
    ) by {
        lemma_same_set_vouches(epoch, claim, second, first, w);
    }
    assert(vouchers(epoch, a) =~= vouchers(epoch, b));
}

/// A witness for which an attestation of `first` counts is one for which an
/// attestation of `second` counts, where `second` holds every attestation of
/// `first`.
proof fn lemma_same_set_vouches(
    epoch: EpochView,
    claim: Seq<u8>,
    first: Seq<AttestationView>,
    second: Seq<AttestationView>,
    witness: Seq<u8>,
)
    requires
        first.to_set() == second.to_set(),
        vouchers(epoch, checked_against(claim, first)).contains(witness),
    ensures
        vouchers(epoch, checked_against(claim, second)).contains(witness),
{
    let a = checked_against(claim, first);
    let b = checked_against(claim, second);
    let i = choose|i: int| 0 <= i < a.len() && (#[trigger] a[i]).vouches_as(epoch, witness);
    assert(first.to_set().contains(first[i]));
    assert(second.contains(first[i]));
    let j = choose|j: int| 0 <= j < second.len() && second[j] == first[i];
    assert(b[j] == a[i]);
    assert(b[j].vouches_as(epoch, witness));
}

/// The witnesses that vouch are finitely many, and no more than the
/// attestations.
pub proof fn vouchers_are_bounded(epoch: EpochView, checked: Seq<CheckedAttestationView>)
    ensures
        vouchers(epoch, checked).finite(),
        vouchers(epoch, checked).len() <= checked.len(),
    decreases checked.len(),
{
    if checked.len() == 0 {
        assert(vouchers(epoch, checked) =~= Set::empty());
    } else {
        let init = checked.drop_last();
        let last = checked.last();
        vouchers_are_bounded(epoch, init);
        let address = crate::utils::ethereum::ethereum_address_bytes(
            vstd::utf8::encode_utf8(last.witness_address),
        );
        let grown = vouchers(epoch, init).insert(address);
        assert forall|w: Seq<u8>| vouchers(epoch, checked).contains(w) implies grown.contains(w) by {
            let k = choose|k: int|
                0 <= k < checked.len() && (#[trigger] checked[k]).vouches_as(epoch, w);
            if k < init.len() {
                assert(init[k] == checked[k]);
                assert(init[k].vouches_as(epoch, w));
            }
        }
        vstd::set_lib::lemma_len_subset(vouchers(epoch, checked), grown);
    }
}

/// The quorum boundary: with one witness less than the threshold the claim
/// is refused with `InsufficientWitnesses`, and with exactly as many
/// witnesses as the threshold it is accepted. In general it is accepted
/// exactly when the witnesses that vouch are at least the threshold.
pub proof fn quorum_boundary(epoch: EpochView, checked: Seq<CheckedAttestationView>)
    ensures
        vouchers(epoch, checked).len() + 1 == epoch.minimum_witnesses_for_claim ==> verdict(
            epoch,
            checked,
        ) == Err::<(), NcashError>(NcashError::InsufficientWitnesses),
        vouchers(epoch, checked).len() == epoch.minimum_witnesses_for_claim ==> verdict(
            epoch,
            checked,
        ) == Ok::<(), NcashError>(()),
        verdict(epoch, checked) is Ok <==> vouchers(epoch, checked).len()
            >= epoch.minimum_witnesses_for_claim,
        verdict(epoch, checked) is Err ==> verdict(epoch, checked) == Err::<(), NcashError>(
            NcashError::InsufficientWitnesses,
        ),
{
}

} // verus!
