//! The registry of dapps: one dapp for each pair of a creation key and a
//! group.

use crate::errors::NcashError;
use crate::events::CreateDappEvent;
use crate::identity::Identity;
use crate::instructions::dapp::create::{created_dapp, CreateDapp, CreateDappArgs};
use crate::registry::groups::GroupRegistry;
use crate::state::dapp::{Dapp, DappView};
use crate::state::group::GroupView;
use crate::storage::Store;
use crate::utils::address::{dapp_address, find_dapp_address};
use crate::utils::hashing::dapp_id;
use vstd::prelude::*;

verus! {

/// Owns the dapps, each under the address derived from its creation key and
/// its group.
pub struct DappRegistry {
    program_id: Identity,
    store: Store<Dapp>,
}

/// The outcome of the creation of a dapp: the address and bump under which
/// it is stored. The group must be there; then the address is derived, and
/// it must be vacant.
pub open spec fn create_dapp_outcome(
    dapps: Map<Identity, DappView>,
    groups: Map<Identity, GroupView>,
    program_id: Identity,
    create_key: Identity,
    group: Identity,
) -> Result<(Identity, u8), NcashError> {
    if !groups.dom().contains(group) {
        Err(NcashError::NotFound)
    } else {
        match dapp_address(create_key, group, program_id) {
            None => Err(NcashError::AddressUnavailable),
            Some((address, bump)) => if dapps.dom().contains(address) {
                Err(NcashError::AlreadyExists)
            } else {
                Ok((address, bump))
            },
        }
    }
}

/// The dapps after a creation: the new dapp is stored where the creation was
/// accepted, and nothing changes where it was not.
pub open spec fn after_create_dapp(
    dapps: Map<Identity, DappView>,
    groups: Map<Identity, GroupView>,
    program_id: Identity,
    payer: Identity,
    create_key: Identity,
    group: Identity,
    group_root: u64,
) -> Map<Identity, DappView> {
    match create_dapp_outcome(dapps, groups, program_id, create_key, group) {
        Ok((address, bump)) => dapps.insert(
            address,
            created_dapp(CreateDapp { bump, group, create_key, payer }, group_root),
        ),
        Err(_) => dapps,
    }
}

impl View for DappRegistry {
    type V = Map<Identity, DappView>;

    /// The dapp stored under each occupied address.
    closed spec fn view(&self) -> Map<Identity, DappView> {
        self.store@.map_values(|dapp: Dapp| dapp@)
    }
}

impl DappRegistry {
    /// The program whose addresses the registry derives.
    pub closed spec fn program_id(&self) -> Identity {
        self.program_id
    }

    /// The invariant of the registry.
    pub closed spec fn wf(&self) -> bool {
        self.store.wf()
    }

    /// An empty registry for the program `program_id`.
    pub fn new(program_id: Identity) -> (registry: DappRegistry)
        ensures
            registry.wf(),
            registry.program_id() == program_id,
            registry@ == Map::<Identity, DappView>::empty(),
    {
        let registry = DappRegistry { program_id, store: Store::new() };
        assert(registry@ =~= Map::<Identity, DappView>::empty());
        registry
    }

    /// Creates the dapp that `payer` binds, under `create_key`, to the group
    /// stored at `group` and to the commitment root `group_root`. A group
    /// that is not there gives `NotFound`; a pair of creation key and group
    /// whose dapp exists gives `AlreadyExists`. Whatever is refused changes
    /// nothing. The dapp keeps the root as it was given: later changes of
    /// the group do not reach it.
    pub fn create(
        &mut self,
        groups: &GroupRegistry,
        payer: &Identity,
        create_key: &Identity,
        group: &Identity,
        group_root: u64,
    ) -> (created: Result<(Identity, CreateDappEvent), NcashError>)
        requires
            old(self).wf(),
            groups.wf(),
        ensures
            final(self).wf(),
            final(self).program_id() == old(self).program_id(),
            final(self)@ == after_create_dapp(
                old(self)@,
                groups@,
                old(self).program_id(),
                *payer,
                *create_key,
                *group,
                group_root,
            ),
            match created {
                Ok((address, event)) => {
                    &&& create_dapp_outcome(
                        old(self)@,
                        groups@,
                        old(self).program_id(),
                        *create_key,
                        *group,
                    ) matches Ok((a, _))
                    &&& a == address
                    &&& event.id@ == dapp_id(*payer, group_root)
                },
                Err(e) => create_dapp_outcome(
                    old(self)@,
                    groups@,
                    old(self).program_id(),
                    *create_key,
                    *group,
                ) == Err::<(Identity, u8), NcashError>(e),
            },
    {
        if let Err(e) = groups.group(group) {
            return Err(e);
        }
        let (address, bump) = match find_dapp_address(create_key, group, &self.program_id) {
            Some(found) => found,
            None => {
                return Err(NcashError::AddressUnavailable);
            },
        };
        if self.store.contains(&address) {
            return Err(NcashError::AlreadyExists);
        }
        let ctx = CreateDapp { bump, group: *group, create_key: *create_key, payer: *payer };
        let (dapp, event) = CreateDapp::execute(&ctx, CreateDappArgs { group_root });
        let stored = self.store.init(address, dapp);
        proof {
            assert(stored is Ok);
            assert(self@ =~= old(self)@.insert(address, dapp@));
        }
        Ok((address, event))
    }

    /// Opens the dapp stored at `address`. A vacant address gives `NotFound`.
    pub fn dapp(&self, address: &Identity) -> (opened: Result<&Dapp, NcashError>)
        requires
            self.wf(),
        ensures
            match opened {
                Ok(dapp) => self@.dom().contains(*address) && dapp@ == self@[*address],
                Err(e) => e == NcashError::NotFound && !self@.dom().contains(*address),
            },
    {
        self.store.open(address)
    }
}

} // verus!
