//! Initialization of an epoch configuration.

use crate::errors::NcashError;
use crate::identity::Identity;
use crate::state::epoch_config::{EpochConfig, EpochConfigView};
use vstd::prelude::*;

verus! {

/// Who initializes an epoch configuration, and with which key.
#[derive(Clone, Copy, Debug)]
pub struct InitializeEpochConfig {
    /// Bump of the address derived for the configuration.
    pub bump: u8,
    /// The key from which the address is derived: one configuration for
    /// each key.
    pub create_key: Identity,
    /// The signer that pays, who becomes the deployer.
    pub payer: Identity,
}

/// Arguments of the initialization of an epoch configuration.
#[derive(Clone, Copy, Debug)]
pub struct InitializeEpochConfigArgs {
    /// Duration of each epoch in seconds, above zero.
    pub epoch_duration_seconds: u64,
}

/// The configuration that an initialization makes: index zero and no epochs.
pub open spec fn initial_epoch_config(
    ctx: InitializeEpochConfig,
    epoch_duration_seconds: u64,
) -> EpochConfigView {
    EpochConfigView {
        bump: ctx.bump,
        create_key: ctx.create_key,
        deployer: ctx.payer,
        epoch_duration_seconds,
        epoch_index: 0,
        epochs: Seq::empty(),
    }
}

impl InitializeEpochConfig {
    /// Makes the epoch configuration of `ctx.create_key`, with `ctx.payer` as
    /// its deployer. A duration of zero is refused with
    /// `InvalidEpochDuration`.
    pub fn execute(ctx: &InitializeEpochConfig, args: InitializeEpochConfigArgs) -> (made: Result<
        EpochConfig,
        NcashError,
    >)
        ensures
            match made {
                Ok(config) => {
                    &&& args.epoch_duration_seconds > 0
                    &&& config@ == initial_epoch_config(*ctx, args.epoch_duration_seconds)
                    &&& config@.valid()
                },
                Err(e) => args.epoch_duration_seconds == 0 && e == NcashError::InvalidEpochDuration,
            },
    {
        Self::validate_epoch_duration(args.epoch_duration_seconds)?;
        Ok(
            EpochConfig {
                bump: ctx.bump,
                create_key: ctx.create_key,
                deployer: ctx.payer,
                epoch_duration_seconds: args.epoch_duration_seconds,
                epoch_index: 0,
                epochs: Vec::new(),
            },
        )
    }

    /// Fails with `InvalidEpochDuration` exactly when the duration is zero.
    fn validate_epoch_duration(duration_seconds: u64) -> (checked: Result<(), NcashError>)
        ensures
            checked == if duration_seconds > 0 {
                Ok::<(), NcashError>(())
            } else {
                Err(NcashError::InvalidEpochDuration)
            },
    {
        if duration_seconds == 0 {
            return Err(NcashError::InvalidEpochDuration);
        }
        Ok(())
    }
}

} // verus!
