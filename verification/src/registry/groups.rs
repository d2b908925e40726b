//! The registry of groups: one group for each provider.

use crate::errors::NcashError;
use crate::events::CreateGroupEvent;
use crate::identity::Identity;
use crate::instructions::group::create::{create, created_group, CreateGroup, CreateGroupArgs};
use crate::state::group::{check_provider, provider_violation, Group, GroupView};
use crate::storage::Store;
use crate::utils::address::{find_group_address, group_address};
use crate::utils::hashing::group_id;
use vstd::prelude::*;

verus! {

/// Owns the groups, each under the address derived from its provider.
pub struct GroupRegistry {
    program_id: Identity,
    store: Store<Group>,
}

/// The outcome of the creation of a group: the address and bump under which
/// it is stored. The provider is checked first; then the address is derived,
/// and it must be vacant.
pub open spec fn create_group_outcome(
    groups: Map<Identity, GroupView>,
    program_id: Identity,
    provider: Seq<char>,
) -> Result<(Identity, u8), NcashError> {
    match provider_violation(provider) {
        Some(e) => Err(e),
        None => match group_address(provider, program_id) {
            None => Err(NcashError::AddressUnavailable),
            Some((address, bump)) => if groups.dom().contains(address) {
                Err(NcashError::AlreadyExists)
            } else {
                Ok((address, bump))
            },
        },
    }
}

/// The groups after a creation: the new group is stored where the creation
/// was accepted, and nothing changes where it was not.
pub open spec fn after_create_group(
    groups: Map<Identity, GroupView>,
    program_id: Identity,
    creator: Identity,
    provider: Seq<char>,
) -> Map<Identity, GroupView> {
    match create_group_outcome(groups, program_id, provider) {
        Ok((address, bump)) => groups.insert(
            address,
            created_group(CreateGroup { group: address, bump, creator }, provider),
        ),
        Err(_) => groups,
    }
}

/// Whether `signer` may change the group stored at `group`: the group must
/// be there, and `signer` must be its creator.
pub open spec fn group_access(groups: Map<Identity, GroupView>, group: Identity, signer: Identity) -> Result<
    (),
    NcashError,
> {
    if !groups.dom().contains(group) {
        Err(NcashError::NotFound)
    } else if signer != groups[group].creator {
        Err(NcashError::Unauthorized)
    } else {
        Ok(())
    }
}

/// The outcome of adding a member to the group stored at `group`.
pub open spec fn add_member_outcome(
    groups: Map<Identity, GroupView>,
    group: Identity,
    signer: Identity,
    member: Identity,
) -> Result<(), NcashError> {
    match group_access(groups, group, signer) {
        Err(e) => Err(e),
        Ok(()) => groups[group].add_member_outcome(member),
    }
}

/// The groups after a member was added.
pub open spec fn after_add_member(
    groups: Map<Identity, GroupView>,
    group: Identity,
    signer: Identity,
    member: Identity,
) -> Map<Identity, GroupView> {
    if add_member_outcome(groups, group, signer, member) is Ok {
        groups.insert(group, groups[group].after_add_member(member))
    } else {
        groups
    }
}

/// The groups after a member was removed.
pub open spec fn after_remove_member(
    groups: Map<Identity, GroupView>,
    group: Identity,
    signer: Identity,
    member: Identity,
) -> Map<Identity, GroupView> {
    if group_access(groups, group, signer) is Ok {
        groups.insert(group, groups[group].after_remove_member(member))
    } else {
        groups
    }
}

impl View for GroupRegistry {
    type V = Map<Identity, GroupView>;

    /// The group stored under each occupied address.
    closed spec fn view(&self) -> Map<Identity, GroupView> {
        self.store@.map_values(|group: Group| group@)
    }
}

impl GroupRegistry {
    /// The program whose addresses the registry derives.
    pub closed spec fn program_id(&self) -> Identity {
        self.program_id
    }

    /// The invariant of the registry: every stored group meets the invariant
    /// of a group.
    pub closed spec fn wf(&self) -> bool {
        &&& self.store.wf()
        &&& forall|address: Identity| #[trigger]
            self.store@.dom().contains(address) ==> self.store@[address]@.valid()
    }

    /// Every group of the registry meets the invariant of a group: whatever
    /// was done to the registry, no group holds more than `MAX_MEMBERS`
    /// members, or a member twice.
    pub proof fn stored_groups_are_valid(&self)
        requires
            self.wf(),
        ensures
            forall|address: Identity| #[trigger]
                self@.dom().contains(address) ==> self@[address].valid(),
    {
    }

    /// An empty registry for the program `program_id`.
    pub fn new(program_id: Identity) -> (registry: GroupRegistry)
        ensures
            registry.wf(),
            registry.program_id() == program_id,
            registry@ == Map::<Identity, GroupView>::empty(),
    {
        let registry = GroupRegistry { program_id, store: Store::new() };
        assert(registry@ =~= Map::<Identity, GroupView>::empty());
        registry
    }

    /// Creates the group of `provider` for `creator`. An empty provider is
    /// refused with `InvalidProvider`, one over its bound with
    /// `ProviderTooLong`; a provider whose group exists is refused with
    /// `AlreadyExists`. Whatever is refused changes nothing.
    pub fn create(&mut self, creator: &Identity, provider: String) -> (created: Result<
        CreateGroupEvent,
        NcashError,
    >)
        requires
            old(self).wf(),
        ensures
            final(self).wf(),
            final(self).program_id() == old(self).program_id(),
            final(self)@ == after_create_group(
                old(self)@,
                old(self).program_id(),
                *creator,
                provider@,
            ),
            match created {
                Ok(event) => {
                    &&& create_group_outcome(old(self)@, old(self).program_id(), provider@) matches Ok(
                        (address, _),
                    )
                    &&& event.group_address == address
                    &&& event.id as int == group_id(provider@)
                    &&& event.provider@ == provider@
                },
                Err(e) => create_group_outcome(old(self)@, old(self).program_id(), provider@)
                    == Err::<(Identity, u8), NcashError>(e),
            },
    {
        check_provider(provider.as_str())?;
        let (address, bump) = match find_group_address(provider.as_str(), &self.program_id) {
            Some(found) => found,
            None => {
                return Err(NcashError::AddressUnavailable);
            },
        };
        if self.store.contains(&address) {
            return Err(NcashError::AlreadyExists);
        }
        let ctx = CreateGroup { group: address, bump, creator: *creator };
        let (group, event) = create(&ctx, CreateGroupArgs { provider })?;
        let stored = self.store.init(address, group);
        proof {
            assert(stored is Ok);
            assert(self@ =~= old(self)@.insert(address, group@));
        }
        Ok(event)
    }

    /// Opens the group stored at `address`. A vacant address gives
    /// `NotFound`.
    pub fn group(&self, address: &Identity) -> (opened: Result<&Group, NcashError>)
        requires
            self.wf(),
        ensures
            match opened {
                Ok(group) => self@.dom().contains(*address) && group@ == self@[*address]
                    && group@.valid(),
                Err(e) => e == NcashError::NotFound && !self@.dom().contains(*address),
            },
    {
        self.store.open(address)
    }

    /// Adds `member` to the group stored at `group`, on behalf of `signer`.
    /// A vacant address gives `NotFound`, a signer other than the creator
    /// `Unauthorized`, a full group `MaxMembersReached`, a member that the
    /// group holds `DuplicateMember`. Whatever is refused changes nothing.
    pub fn add_member(&mut self, group: &Identity, signer: &Identity, member: Identity) -> (added:
        Result<(), NcashError>)
        requires
            old(self).wf(),
        ensures
            final(self).wf(),
            final(self).program_id() == old(self).program_id(),
            added == add_member_outcome(old(self)@, *group, *signer, member),
            final(self)@ == after_add_member(old(self)@, *group, *signer, member),
    {
        let mut record = self.take_for(group, signer)?;
        let added = record.add_member(member);
        let validated = record.validate();
        assert(validated is Ok);
        let stored = self.store.init(*group, record);
        proof {
            assert(stored is Ok);
            if added is Ok {
                assert(self@ =~= old(self)@.insert(*group, old(self)@[*group].after_add_member(member)));
            } else {
                assert(self@ =~= old(self)@);
            }
        }
        added
    }

    /// Removes `member` from the group stored at `group`, on behalf of
    /// `signer`. A vacant address gives `NotFound`, a signer other than the
    /// creator `Unauthorized`. A member that the group does not hold changes
    /// nothing, and the call succeeds.
    pub fn remove_member(&mut self, group: &Identity, signer: &Identity, member: &Identity) -> (removed:
        Result<(), NcashError>)
        requires
            old(self).wf(),
        ensures
            final(self).wf(),
            final(self).program_id() == old(self).program_id(),
            removed == group_access(old(self)@, *group, *signer),
            final(self)@ == after_remove_member(old(self)@, *group, *signer, *member),
    {
        let mut record = self.take_for(group, signer)?;
        let removed = record.remove_member(member);
        let validated = record.validate();
        assert(validated is Ok);
        let stored = self.store.init(*group, record);
        proof {
            assert(stored is Ok);
            assert(self@ =~= old(self)@.insert(
                *group,
                old(self)@[*group].after_remove_member(*member),
            ));
        }
        removed
    }

    /// Takes the group stored at `group` out of the storage for a change by
    /// `signer`. Where the change is refused the storage is left as it was.
    fn take_for(&mut self, group: &Identity, signer: &Identity) -> (taken: Result<Group, NcashError>)
        requires
            old(self).wf(),
        ensures
            final(self).program_id == old(self).program_id,
            final(self).store.wf(),
            match taken {
                Ok(record) => {
                    &&& group_access(old(self)@, *group, *signer) is Ok
                    &&& record@ == old(self)@[*group]
                    &&& record@.valid()
                    &&& final(self).store@ == old(self).store@.remove(*group)
                },
                Err(e) => group_access(old(self)@, *group, *signer) == Err::<(), NcashError>(e)
                    && *final(self) == *old(self),
            },
    {
        let creator = self.store.open(group)?.creator;
        if *signer != creator {
            return Err(NcashError::Unauthorized);
        }
        let taken = self.store.take(group);
        assert(taken is Ok);
        taken
    }
}

} // verus!
