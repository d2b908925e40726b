//! An epoch configuration: the current epoch index and the epochs registered
//! under one deployer.

use crate::constants::MAX_EPOCHS;
use crate::errors::NcashError;
use crate::identity::{
    contains_identity, lemma_first_position, position_of_identity, without_first, Identity,
};
use vstd::prelude::*;

verus! {

/// Configuration of the epochs of one deployer.
#[derive(Clone, Debug)]
pub struct EpochConfig {
    /// Bump of the address at which the configuration is stored.
    pub bump: u8,
    /// The key from which the address of the configuration was derived.
    pub create_key: Identity,
    /// The authority that may change the configuration.
    pub deployer: Identity,
    /// Duration of an epoch in seconds. It is kept as metadata; nothing
    /// advances the index when it elapses.
    pub epoch_duration_seconds: u64,
    /// The current epoch index. It only ever increases.
    pub epoch_index: u32,
    /// Addresses of the registered epochs, in the order of registration.
    pub epochs: Vec<Identity>,
}

/// What an epoch configuration holds.
pub struct EpochConfigView {
    pub bump: u8,
    pub create_key: Identity,
    pub deployer: Identity,
    pub epoch_duration_seconds: u64,
    pub epoch_index: u32,
    pub epochs: Seq<Identity>,
}

impl View for EpochConfig {
    type V = EpochConfigView;

    open spec fn view(&self) -> EpochConfigView {
        EpochConfigView {
            bump: self.bump,
            create_key: self.create_key,
            deployer: self.deployer,
            epoch_duration_seconds: self.epoch_duration_seconds,
            epoch_index: self.epoch_index,
            epochs: self.epochs@,
        }
    }
}

impl EpochConfigView {
    /// The invariant of an epoch configuration: a duration above zero and at
    /// most `MAX_EPOCHS` epochs.
    pub open spec fn valid(self) -> bool {
        &&& self.epoch_duration_seconds > 0
        &&& self.epochs.len() <= MAX_EPOCHS
    }

    /// The outcome of validation, which looks at the number of epochs.
    pub open spec fn validation(self) -> Result<(), NcashError> {
        if self.epochs.len() > MAX_EPOCHS {
            Err(NcashError::MaxEpochLengthReached)
        } else {
            Ok(())
        }
    }

    /// The outcome of registering an epoch: a full list refuses.
    pub open spec fn add_epoch_outcome(self) -> Result<(), NcashError> {
        if self.epochs.len() >= MAX_EPOCHS {
            Err(NcashError::MaxEpochLengthReached)
        } else {
            Ok(())
        }
    }

    /// The configuration after `epoch` was registered: it comes last where
    /// the list had room, and nothing changes where it had none.
    pub open spec fn after_add_epoch(self, epoch: Identity) -> EpochConfigView {
        if self.add_epoch_outcome() is Ok {
            EpochConfigView { epochs: self.epochs.push(epoch), ..self }
        } else {
            self
        }
    }

    /// The configuration after `epoch` was removed: the others keep their
    /// order.
    pub open spec fn after_remove_epoch(self, epoch: Identity) -> EpochConfigView {
        EpochConfigView { epochs: without_first(self.epochs, epoch), ..self }
    }

    /// The address of the active epoch: the epoch that the configuration
    /// lists at its current epoch index. `NotFound` where it lists none
    /// there.
    pub open spec fn active_epoch(self) -> Result<Identity, NcashError> {
        if self.epoch_index >= self.epochs.len() {
            Err(NcashError::NotFound)
        } else {
            Ok(self.epochs[self.epoch_index as int])
        }
    }

    /// The outcome of moving the index to `new_index` on behalf of `signer`:
    /// only the deployer may, and only upward.
    pub open spec fn change_index_outcome(self, signer: Identity, new_index: u32) -> Result<
        (),
        NcashError,
    > {
        if signer != self.deployer {
            Err(NcashError::Unauthorized)
        } else if new_index <= self.epoch_index {
            Err(NcashError::InvalidEpochIndex)
        } else {
            Ok(())
        }
    }

    /// The configuration after the index was moved: the index is `new_index`
    /// where the call was accepted, and nothing changes where it was not.
    pub open spec fn after_change_index(self, signer: Identity, new_index: u32) -> EpochConfigView {
        if self.change_index_outcome(signer, new_index) is Ok {
            EpochConfigView { epoch_index: new_index, ..self }
        } else {
            self
        }
    }
}

impl EpochConfig {
    /// Bytes of a stored configuration that lists the most epochs: 89 bytes
    /// of fixed fields, and 32 for each of `MAX_EPOCHS` epochs.
    pub const LEN: usize = 409;

    /// Bytes of a stored configuration that lists `epochs`: 89 bytes of fixed
    /// fields, and 32 for each epoch.
    pub fn size(epochs: &[Identity]) -> (bytes: usize)
        requires
            89 + epochs@.len() * 32 <= usize::MAX,
        ensures
            bytes == 89 + epochs@.len() * 32,
            epochs@.len() <= MAX_EPOCHS ==> bytes <= EpochConfig::LEN,
    {
        8 + 1 + 32 + 32 + 8 + 4 + 4 + (epochs.len() * 32)
    }

    /// Checks the state of the configuration.
    pub fn validate(&self) -> (checked: Result<(), NcashError>)
        ensures
            checked == self@.validation(),
            self@.valid() ==> checked is Ok,
    {
        self.validate_epochs_length()?;
        Ok(())
    }

    /// Fails with `MaxEpochLengthReached` exactly when the list holds more
    /// than `MAX_EPOCHS` epochs.
    pub fn validate_epochs_length(&self) -> (checked: Result<(), NcashError>)
        ensures
            checked == self@.validation(),
    {
        if self.epochs.len() > MAX_EPOCHS as usize {
            return Err(NcashError::MaxEpochLengthReached);
        }
        Ok(())
    }

    /// Registers `epoch` at the end of the list. A full list refuses with
    /// `MaxEpochLengthReached` and is left as it was; a list with room
    /// always takes the epoch.
    pub fn add_epoch(&mut self, epoch: Identity) -> (added: Result<(), NcashError>)
        ensures
            added == old(self)@.add_epoch_outcome(),
            final(self)@ == old(self)@.after_add_epoch(epoch),
            added is Err ==> *final(self) == *old(self),
            old(self)@.valid() ==> final(self)@.valid(),
    {
        if self.epochs.len() >= MAX_EPOCHS as usize {
            return Err(NcashError::MaxEpochLengthReached);
        }
        self.epochs.push(epoch);
        Ok(())
    }

    /// Removes `epoch` from the list, keeping the order of the others. Where
    /// `epoch` is not listed nothing changes, and the call succeeds all the
    /// same.
    pub fn remove_epoch(&mut self, epoch: &Identity) -> (removed: Result<(), NcashError>)
        ensures
            removed == Ok::<(), NcashError>(()),
            final(self)@ == old(self)@.after_remove_epoch(*epoch),
            !old(self)@.epochs.contains(*epoch) ==> *final(self) == *old(self),
            old(self)@.valid() ==> final(self)@.valid(),
    {
        if let Some(pos) = position_of_identity(&self.epochs, epoch) {
            proof {
                lemma_first_position(self.epochs@, *epoch, pos as int);
            }
            self.epochs.remove(pos);
        }
        Ok(())
    }

    /// Adds one to the epoch index. At the largest index the call fails with
    /// `EpochIndexOverflow` and changes nothing.
    pub fn increment_epoch(&mut self) -> (incremented: Result<(), NcashError>)
        ensures
            incremented == if old(self).epoch_index == u32::MAX {
                Err::<(), NcashError>(NcashError::EpochIndexOverflow)
            } else {
                Ok(())
            },
            incremented is Ok ==> final(self)@ == (EpochConfigView {
                epoch_index: (old(self).epoch_index + 1) as u32,
                ..old(self)@
            }),
            incremented is Err ==> *final(self) == *old(self),
    {
        match self.epoch_index.checked_add(1) {
            Some(next) => {
                self.epoch_index = next;
                Ok(())
            },
            None => Err(NcashError::EpochIndexOverflow),
        }
    }

    /// Resolves the address of the active epoch: the epoch listed at the
    /// current epoch index, or `NotFound` where none is listed there.
    pub fn active_epoch(&self) -> (resolved: Result<Identity, NcashError>)
        ensures
            resolved == self@.active_epoch(),
    {
        let index = self.epoch_index as usize;
        if index >= self.epochs.len() {
            return Err(NcashError::NotFound);
        }
        Ok(self.epochs[index])
    }

    /// Whether `epoch` is registered.
    pub fn contains_epoch(&self, epoch: &Identity) -> (listed: bool)
        ensures
            listed == self@.epochs.contains(*epoch),
    {
        contains_identity(&self.epochs, epoch)
    }
}

} // verus!
