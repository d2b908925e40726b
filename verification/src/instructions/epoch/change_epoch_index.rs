//! The one transition of the epoch index: upward, by the deployer.

use crate::errors::NcashError;
use crate::identity::Identity;
use crate::state::epoch_config::EpochConfig;
use vstd::prelude::*;

verus! {

/// Who asks for a change of the epoch index.
#[derive(Clone, Copy, Debug)]
pub struct ChangeEpochIndex {
    /// The signer, who must be the deployer of the configuration.
    pub deployer: Identity,
}

/// Arguments of a change of the epoch index.
#[derive(Clone, Copy, Debug)]
pub struct ChangeEpochIndexArgs {
    /// The new epoch index, above the current one.
    pub new_epoch_index: u32,
}

impl ChangeEpochIndex {
    /// Moves the epoch index of `epoch_config` to `args.new_epoch_index`. A
    /// signer other than the deployer is refused with `Unauthorized`, an
    /// index that is not above the current one with `InvalidEpochIndex`;
    /// the configuration is then left as it was.
    pub fn execute(
        ctx: &ChangeEpochIndex,
        epoch_config: &mut EpochConfig,
        args: ChangeEpochIndexArgs,
    ) -> (changed: Result<(), NcashError>)
        ensures
            changed == old(epoch_config)@.change_index_outcome(ctx.deployer, args.new_epoch_index),
            final(epoch_config)@ == old(epoch_config)@.after_change_index(
                ctx.deployer,
                args.new_epoch_index,
            ),
            changed is Err ==> *final(epoch_config) == *old(epoch_config),
            changed is Ok ==> final(epoch_config).epoch_index > old(epoch_config).epoch_index,
            old(epoch_config)@.valid() ==> final(epoch_config)@.valid(),
    {
        if ctx.deployer != epoch_config.deployer {
            return Err(NcashError::Unauthorized);
        }
        Self::validate_epoch_index(args.new_epoch_index, epoch_config.epoch_index)?;
        epoch_config.epoch_index = args.new_epoch_index;
        Ok(())
    }

    /// Fails with `InvalidEpochIndex` unless the new index is above the
    /// current one.
    fn validate_epoch_index(new_index: u32, current_index: u32) -> (checked: Result<(), NcashError>)
        ensures
            checked == if new_index > current_index {
                Ok::<(), NcashError>(())
            } else {
                Err(NcashError::InvalidEpochIndex)
            },
    {
        if new_index <= current_index {
            return Err(NcashError::InvalidEpochIndex);
        }
        Ok(())
    }
}

} // verus!
