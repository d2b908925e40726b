//! The manager of epochs: the epoch configurations, one for each creation
//! key, and the epochs registered under them.

use crate::errors::NcashError;
use crate::identity::Identity;
use crate::instructions::epoch::add_epoch::{add_epoch_outcome, proposed_epoch, AddEpoch, AddEpochArgs};
use crate::instructions::epoch::change_epoch_index::{ChangeEpochIndex, ChangeEpochIndexArgs};
use crate::instructions::epoch::initialize::{
    initial_epoch_config, InitializeEpochConfig, InitializeEpochConfigArgs,
};
use crate::instructions::group::verify_proof::{
    attestation_views, checked_against, verdict, verify, AttestationView, VerifyProofArgs,
};
use crate::state::epoch::{witness_views, Epoch, EpochView};
use crate::state::epoch_config::{EpochConfig, EpochConfigView};
use crate::storage::Store;
use crate::utils::address::{
    epoch_address, epoch_config_address, find_epoch_address, find_epoch_config_address,
};
use vstd::prelude::*;

verus! {

/// Owns the epoch configurations and the epochs.
pub struct EpochManager {
    program_id: Identity,
    configs: Store<EpochConfig>,
    epochs: Store<Epoch>,
}

/// The invariant over the records of the manager: every configuration and
/// every epoch meets its own invariant, and every epoch that a configuration
/// lists is stored.
pub open spec fn records_consistent(
    configs: Map<Identity, EpochConfigView>,
    epochs: Map<Identity, EpochView>,
) -> bool {
    &&& forall|c: Identity| #[trigger] configs.dom().contains(c) ==> configs[c].valid()
    &&& forall|c: Identity, i: int|
        configs.dom().contains(c) && 0 <= i < configs[c].epochs.len() ==> epochs.dom().contains(
            #[trigger] configs[c].epochs[i],
        )
    &&& forall|e: Identity| #[trigger] epochs.dom().contains(e) ==> epochs[e].valid()
}

/// The outcome of the initialization of an epoch configuration: the address
/// and bump under which it is stored. The duration is checked first; then
/// the address is derived, and it must be vacant.
pub open spec fn initialize_outcome(
    configs: Map<Identity, EpochConfigView>,
    program_id: Identity,
    create_key: Identity,
    epoch_duration_seconds: u64,
) -> Result<(Identity, u8), NcashError> {
    if epoch_duration_seconds == 0 {
        Err(NcashError::InvalidEpochDuration)
    } else {
        match epoch_config_address(create_key, program_id) {
            None => Err(NcashError::AddressUnavailable),
            Some((address, bump)) => if configs.dom().contains(address) {
                Err(NcashError::AlreadyExists)
            } else {
                Ok((address, bump))
            },
        }
    }
}

/// The configurations after an initialization.
pub open spec fn after_initialize(
    configs: Map<Identity, EpochConfigView>,
    program_id: Identity,
    create_key: Identity,
    payer: Identity,
    epoch_duration_seconds: u64,
) -> Map<Identity, EpochConfigView> {
    match initialize_outcome(configs, program_id, create_key, epoch_duration_seconds) {
        Ok((address, bump)) => configs.insert(
            address,
            initial_epoch_config(
                InitializeEpochConfig { bump, create_key, payer },
                epoch_duration_seconds,
            ),
        ),
        Err(_) => configs,
    }
}

/// The outcome of a change of the epoch index of the configuration stored at
/// `config`.
pub open spec fn change_epoch_index_outcome(
    configs: Map<Identity, EpochConfigView>,
    config: Identity,
    signer: Identity,
    new_index: u32,
) -> Result<(), NcashError> {
    if !configs.dom().contains(config) {
        Err(NcashError::NotFound)
    } else {
        configs[config].change_index_outcome(signer, new_index)
    }
}

/// The configurations after a change of the epoch index.
pub open spec fn after_change_epoch_index(
    configs: Map<Identity, EpochConfigView>,
    config: Identity,
    signer: Identity,
    new_index: u32,
) -> Map<Identity, EpochConfigView> {
    if change_epoch_index_outcome(configs, config, signer, new_index) is Ok {
        configs.insert(config, configs[config].after_change_index(signer, new_index))
    } else {
        configs
    }
}

/// The outcome of an increment of the epoch index of the configuration
/// stored at `config`.
pub open spec fn increment_epoch_outcome(
    configs: Map<Identity, EpochConfigView>,
    config: Identity,
    signer: Identity,
) -> Result<(), NcashError> {
    if !configs.dom().contains(config) {
        Err(NcashError::NotFound)
    } else if signer != configs[config].deployer {
        Err(NcashError::Unauthorized)
    } else if configs[config].epoch_index == u32::MAX {
        Err(NcashError::EpochIndexOverflow)
    } else {
        Ok(())
    }
}

/// The configurations after an increment of the epoch index.
pub open spec fn after_increment_epoch(
    configs: Map<Identity, EpochConfigView>,
    config: Identity,
    signer: Identity,
) -> Map<Identity, EpochConfigView> {
    if increment_epoch_outcome(configs, config, signer) is Ok {
        configs.insert(
            config,
            EpochConfigView {
                epoch_index: (configs[config].epoch_index + 1) as u32,
                ..configs[config]
            },
        )
    } else {
        configs
    }
}

/// The outcome of the registration of an epoch under the configuration
/// stored at `config`: the address under which the epoch is stored. The
/// configuration must be there; then the signer, the epoch and the room in
/// the configuration are checked; then the address is derived from the
/// configuration and the position of the epoch in its list, and it must be
/// vacant.
pub open spec fn register_epoch_outcome(
    configs: Map<Identity, EpochConfigView>,
    epochs: Map<Identity, EpochView>,
    program_id: Identity,
    config: Identity,
    signer: Identity,
    epoch: EpochView,
) -> Result<Identity, NcashError> {
    if !configs.dom().contains(config) {
        Err(NcashError::NotFound)
    } else {
        match add_epoch_outcome(configs[config], signer, epoch) {
            Err(e) => Err(e),
            Ok(()) => match epoch_address(
                config,
                configs[config].epochs.len() as u32,
                program_id,
            ) {
                None => Err(NcashError::AddressUnavailable),
                Some((address, _)) => if epochs.dom().contains(address) {
                    Err(NcashError::AlreadyExists)
                } else {
                    Ok(address)
                },
            },
        }
    }
}

/// The configurations after the registration of an epoch: where it was
/// accepted, the configuration lists the address of the epoch last.
pub open spec fn configs_after_register_epoch(
    configs: Map<Identity, EpochConfigView>,
    epochs: Map<Identity, EpochView>,
    program_id: Identity,
    config: Identity,
    signer: Identity,
    epoch: EpochView,
) -> Map<Identity, EpochConfigView> {
    match register_epoch_outcome(configs, epochs, program_id, config, signer, epoch) {
        Ok(address) => configs.insert(
            config,
            EpochConfigView { epochs: configs[config].epochs.push(address), ..configs[config] },
        ),
        Err(_) => configs,
    }
}

/// The epochs after the registration of an epoch: where it was accepted, the
/// epoch is stored at its address.
pub open spec fn epochs_after_register_epoch(
    configs: Map<Identity, EpochConfigView>,
    epochs: Map<Identity, EpochView>,
    program_id: Identity,
    config: Identity,
    signer: Identity,
    epoch: EpochView,
) -> Map<Identity, EpochView> {
    match register_epoch_outcome(configs, epochs, program_id, config, signer, epoch) {
        Ok(address) => epochs.insert(address, epoch),
        Err(_) => epochs,
    }
}

/// The address of the active epoch of the configuration stored at `config`:
/// the epoch that the configuration lists at its current epoch index.
/// `NotFound` where the configuration is not there, or lists no epoch at
/// that index.
pub open spec fn active_epoch_address(
    configs: Map<Identity, EpochConfigView>,
    config: Identity,
) -> Result<Identity, NcashError> {
    if !configs.dom().contains(config) {
        Err(NcashError::NotFound)
    } else {
        configs[config].active_epoch()
    }
}

/// The decision on a claim under the configuration stored at `config`: that
/// of its active epoch, or `NotFound` where there is none.
pub open spec fn verify_proof_outcome(
    configs: Map<Identity, EpochConfigView>,
    epochs: Map<Identity, EpochView>,
    config: Identity,
    claim: Seq<u8>,
    attestations: Seq<AttestationView>,
) -> Result<(), NcashError> {
    match active_epoch_address(configs, config) {
        Err(e) => Err(e),
        Ok(address) => verdict(epochs[address], checked_against(claim, attestations)),
    }
}

impl EpochManager {
    /// The program whose addresses the manager derives.
    pub closed spec fn program_id(&self) -> Identity {
        self.program_id
    }

    /// The epoch configuration stored under each occupied address.
    pub closed spec fn configs(&self) -> Map<Identity, EpochConfigView> {
        self.configs@.map_values(|config: EpochConfig| config@)
    }

    /// The epoch stored under each occupied address.
    pub closed spec fn epochs(&self) -> Map<Identity, EpochView> {
        self.epochs@.map_values(|epoch: Epoch| epoch@)
    }

    /// The invariant of the manager.
    pub closed spec fn wf(&self) -> bool {
        &&& self.configs.wf()
        &&& self.epochs.wf()
        &&& records_consistent(self.configs(), self.epochs())
    }

    /// The records of the manager are consistent, whatever was done to it.
    pub proof fn stored_records_are_consistent(&self)
        requires
            self.wf(),
        ensures
            records_consistent(self.configs(), self.epochs()),
    {
    }

    /// An empty manager for the program `program_id`.
    pub fn new(program_id: Identity) -> (manager: EpochManager)
        ensures
            manager.wf(),
            manager.program_id() == program_id,
            manager.configs() == Map::<Identity, EpochConfigView>::empty(),
            manager.epochs() == Map::<Identity, EpochView>::empty(),
    {
        let manager = EpochManager { program_id, configs: Store::new(), epochs: Store::new() };
        assert(manager.configs() =~= Map::<Identity, EpochConfigView>::empty());
        assert(manager.epochs() =~= Map::<Identity, EpochView>::empty());
        manager
    }

    /// Initializes the epoch configuration of `create_key`, with `payer` as
    /// its deployer, index zero and no epochs, and hands back its address. A
    /// duration of zero is refused with `InvalidEpochDuration`, a creation
    /// key whose configuration exists with `AlreadyExists`. Whatever is
    /// refused changes nothing.
    pub fn initialize(
        &mut self,
        create_key: &Identity,
        payer: &Identity,
        epoch_duration_seconds: u64,
    ) -> (made: Result<Identity, NcashError>)
        requires
            old(self).wf(),
        ensures
            final(self).wf(),
            final(self).program_id() == old(self).program_id(),
            final(self).epochs() == old(self).epochs(),
            final(self).configs() == after_initialize(
                old(self).configs(),
                old(self).program_id(),
                *create_key,
                *payer,
                epoch_duration_seconds,
            ),
            match made {
                Ok(address) => initialize_outcome(
                    old(self).configs(),
                    old(self).program_id(),
                    *create_key,
                    epoch_duration_seconds,
                ) matches Ok((a, _)) && a == address,
                Err(e) => initialize_outcome(
                    old(self).configs(),
                    old(self).program_id(),
                    *create_key,
                    epoch_duration_seconds,
                ) == Err::<(Identity, u8), NcashError>(e),
            },
    {
        if epoch_duration_seconds == 0 {
            return Err(NcashError::InvalidEpochDuration);
        }
        let (address, bump) = match find_epoch_config_address(create_key, &self.program_id) {
            Some(found) => found,
            None => {
                return Err(NcashError::AddressUnavailable);
            },
        };
        if self.configs.contains(&address) {
            return Err(NcashError::AlreadyExists);
        }
        let ctx = InitializeEpochConfig { bump, create_key: *create_key, payer: *payer };
        let config = InitializeEpochConfig::execute(
            &ctx,
            InitializeEpochConfigArgs { epoch_duration_seconds },
        )?;
        let stored = self.configs.init(address, config);
        proof {
            assert(stored is Ok);
            assert(self.configs() =~= old(self).configs().insert(address, config@));
        }
        Ok(address)
    }

    /// Opens the epoch configuration stored at `address`. A vacant address
    /// gives `NotFound`.
    pub fn config(&self, address: &Identity) -> (opened: Result<&EpochConfig, NcashError>)
        requires
            self.wf(),
        ensures
            match opened {
                Ok(config) => self.configs().dom().contains(*address) && config@
                    == self.configs()[*address] && config@.valid(),
                Err(e) => e == NcashError::NotFound && !self.configs().dom().contains(*address),
            },
    {
        let opened = self.configs.open(address);
        proof {
            if opened is Ok {
                assert(self.configs().dom().contains(*address));
            }
        }
        opened
    }

    /// Opens the epoch stored at `address`. A vacant address gives
    /// `NotFound`.
    pub fn epoch(&self, address: &Identity) -> (opened: Result<&Epoch, NcashError>)
        requires
            self.wf(),
        ensures
            match opened {
                Ok(epoch) => self.epochs().dom().contains(*address) && epoch@
                    == self.epochs()[*address] && epoch@.valid(),
                Err(e) => e == NcashError::NotFound && !self.epochs().dom().contains(*address),
            },
    {
        let opened = self.epochs.open(address);
        proof {
            if opened is Ok {
                assert(self.epochs().dom().contains(*address));
            }
        }
        opened
    }

    /// Moves the epoch index of the configuration stored at `config` to
    /// `new_epoch_index`, on behalf of `signer`. A vacant address gives
    /// `NotFound`, a signer other than the deployer `Unauthorized`, an index
    /// that is not above the current one `InvalidEpochIndex`. Whatever is
    /// refused changes nothing.
    pub fn change_epoch_index(&mut self, config: &Identity, signer: &Identity, new_epoch_index: u32) -> (changed:
        Result<(), NcashError>)
        requires
            old(self).wf(),
        ensures
            final(self).wf(),
            final(self).program_id() == old(self).program_id(),
            final(self).epochs() == old(self).epochs(),
            changed == change_epoch_index_outcome(
                old(self).configs(),
                *config,
                *signer,
                new_epoch_index,
            ),
            final(self).configs() == after_change_epoch_index(
                old(self).configs(),
                *config,
                *signer,
                new_epoch_index,
            ),
    {
        let mut record = self.configs.take(config)?;
        let ghost before = record@;
        let changed = ChangeEpochIndex::execute(
            &ChangeEpochIndex { deployer: *signer },
            &mut record,
            ChangeEpochIndexArgs { new_epoch_index },
        );
        let stored = self.configs.init(*config, record);
        proof {
            assert(stored is Ok);
            assert(record@.epochs == before.epochs);
            assert(self.configs() =~= old(self).configs().insert(*config, record@));
            assert(old(self).configs().insert(*config, before) =~= old(self).configs());
        }
        changed
    }

    /// Adds one to the epoch index of the configuration stored at `config`,
    /// on behalf of `signer`. A vacant address gives `NotFound`, a signer
    /// other than the deployer `Unauthorized`, the largest index
    /// `EpochIndexOverflow`. Whatever is refused changes nothing.
    pub fn increment_epoch(&mut self, config: &Identity, signer: &Identity) -> (incremented: Result<
        (),
        NcashError,
    >)
        requires
            old(self).wf(),
        ensures
            final(self).wf(),
            final(self).program_id() == old(self).program_id(),
            final(self).epochs() == old(self).epochs(),
            incremented == increment_epoch_outcome(old(self).configs(), *config, *signer),
            final(self).configs() == after_increment_epoch(old(self).configs(), *config, *signer),
    {
        let deployer = self.configs.open(config)?.deployer;
        if *signer != deployer {
            return Err(NcashError::Unauthorized);
        }
        let taken = self.configs.take(config);
        let mut record = match taken {
            Ok(record) => record,
            Err(e) => {
                return Err(e);
            },
        };
        let ghost before = record@;
        let incremented = record.increment_epoch();
        let stored = self.configs.init(*config, record);
        proof {
            assert(stored is Ok);
            assert(record@.epochs == before.epochs);
            assert(self.configs() =~= old(self).configs().insert(*config, record@));
            assert(old(self).configs().insert(*config, before) =~= old(self).configs());
        }
        incremented
    }

    /// Registers the epoch of `args` under the configuration stored at
    /// `config`, on behalf of `signer`, and hands back the address of the
    /// epoch. A vacant address gives `NotFound`; a signer other than the
    /// deployer `Unauthorized`; more witnesses than the limit
    /// `MaxWitnessesReached`; the first witness that fails its check
    /// `InvalidWitness` or `HostTooLong`; a threshold above the number of
    /// witnesses `InvalidWitnessClaimCount`; a full configuration
    /// `MaxEpochLengthReached`. Whatever is refused changes nothing.
    pub fn add_epoch(&mut self, config: &Identity, signer: &Identity, args: AddEpochArgs) -> (made:
        Result<Identity, NcashError>)
        requires
            old(self).wf(),
        ensures
            final(self).wf(),
            final(self).program_id() == old(self).program_id(),
            made == register_epoch_outcome(
                old(self).configs(),
                old(self).epochs(),
                old(self).program_id(),
                *config,
                *signer,
                proposed_epoch(witness_views(args.witnesses@), args.minimum_witnesses_for_claim),
            ),
            final(self).configs() == configs_after_register_epoch(
                old(self).configs(),
                old(self).epochs(),
                old(self).program_id(),
                *config,
                *signer,
                proposed_epoch(witness_views(args.witnesses@), args.minimum_witnesses_for_claim),
            ),
            final(self).epochs() == epochs_after_register_epoch(
                old(self).configs(),
                old(self).epochs(),
                old(self).program_id(),
                *config,
                *signer,
                proposed_epoch(witness_views(args.witnesses@), args.minimum_witnesses_for_claim),
            ),
    {
        let opened = self.configs.open(config)?;
        let epoch = AddEpoch::prepare(signer, opened, args)?;
        let position = opened.epochs.len() as u32;
        let (address, _) = match find_epoch_address(config, position, &self.program_id) {
            Some(found) => found,
            None => {
                return Err(NcashError::AddressUnavailable);
            },
        };
        if self.epochs.contains(&address) {
            return Err(NcashError::AlreadyExists);
        }
        let taken = self.configs.take(config);
        let mut record = match taken {
            Ok(record) => record,
            Err(e) => {
                return Err(e);
            },
        };
        let ghost before = record@;
        let listed = record.add_epoch(address);
        let stored_config = self.configs.init(*config, record);
        let stored_epoch = self.epochs.init(address, epoch);
        proof {
            assert(listed is Ok && stored_config is Ok && stored_epoch is Ok);
            assert(record@.epochs == before.epochs.push(address));
            assert(self.configs() =~= old(self).configs().insert(*config, record@));
            assert(self.epochs() =~= old(self).epochs().insert(address, epoch@));
            assert forall|c: Identity, i: int|
                self.configs().dom().contains(c) && 0 <= i
                    < self.configs()[c].epochs.len() implies self.epochs().dom().contains(
                #[trigger] self.configs()[c].epochs[i],
            ) by {
                if c == *config && i == before.epochs.len() {
                } else {
                    assert(old(self).epochs().dom().contains(old(self).configs()[c].epochs[i]));
                }
            }
        }
        Ok(address)
    }

    /// Resolves the active epoch of the configuration stored at `config`:
    /// the epoch that the configuration lists at its current epoch index.
    pub fn active_epoch(&self, config: &Identity) -> (resolved: Result<&Epoch, NcashError>)
        requires
            self.wf(),
        ensures
            match resolved {
                Ok(epoch) => active_epoch_address(self.configs(), *config) matches Ok(address)
                    && epoch@ == self.epochs()[address] && epoch@.valid(),
                Err(e) => active_epoch_address(self.configs(), *config) == Err::<
                    Identity,
                    NcashError,
                >(e),
            },
    {
        let address = self.configs.open(config)?.active_epoch()?;
        proof {
            let listed = self.configs()[*config];
            assert(self.epochs().dom().contains(listed.epochs[listed.epoch_index as int]));
        }
        self.epochs.open(&address)
    }

    /// Verifies a claim against the active epoch of the configuration stored
    /// at `config`. The claim is accepted when at least as many distinct
    /// witnesses of that epoch as its threshold have signed it, and is
    /// refused with `InsufficientWitnesses` otherwise; `NotFound` where
    /// there is no active epoch. Nothing is changed.
    pub fn verify_proof(&self, config: &Identity, args: &VerifyProofArgs) -> (decision: Result<
        (),
        NcashError,
    >)
        requires
            self.wf(),
        ensures
            decision == verify_proof_outcome(
                self.configs(),
                self.epochs(),
                *config,
                args.claim@,
                attestation_views(args.attestations@),
            ),
    {
        let epoch = self.active_epoch(config)?;
        verify(epoch, args)
    }
}

} // verus!
