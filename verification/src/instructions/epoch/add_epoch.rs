//! Registration of an epoch under an epoch configuration.

use crate::errors::NcashError;
use crate::identity::Identity;
use crate::state::epoch::{witness_views, Epoch, EpochView, Witness, WitnessView};
use crate::state::epoch_config::{EpochConfig, EpochConfigView};
use vstd::prelude::*;

verus! {

/// Who registers an epoch, and where it will be stored.
#[derive(Clone, Copy, Debug)]
pub struct AddEpoch {
    /// Address derived for the epoch.
    pub epoch: Identity,
    /// The signer, who must be the deployer of the configuration.
    pub deployer: Identity,
}

/// Arguments of the registration of an epoch.
#[derive(Clone, Debug)]
pub struct AddEpochArgs {
    /// The witnesses of the epoch.
    pub witnesses: Vec<Witness>,
    /// How many distinct witnesses must sign a claim.
    pub minimum_witnesses_for_claim: u8,
}

/// The epoch that a registration makes.
pub open spec fn proposed_epoch(witnesses: Seq<WitnessView>, minimum: u8) -> EpochView {
    EpochView { minimum_witnesses_for_claim: minimum, witnesses }
}

/// The outcome of a registration. The signer is checked first, then the
/// epoch (the number of witnesses, each witness in order, the threshold),
/// then the room left in the configuration.
pub open spec fn add_epoch_outcome(
    config: EpochConfigView,
    signer: Identity,
    epoch: EpochView,
) -> Result<(), NcashError> {
    if signer != config.deployer {
        Err(NcashError::Unauthorized)
    } else if epoch.validation() is Err {
        epoch.validation()
    } else {
        config.add_epoch_outcome()
    }
}

impl AddEpoch {
    /// Checks a registration without changing anything, and hands back the
    /// epoch that it would register.
    pub fn prepare(signer: &Identity, epoch_config: &EpochConfig, args: AddEpochArgs) -> (made:
        Result<Epoch, NcashError>)
        ensures
            match made {
                Ok(epoch) => {
                    &&& add_epoch_outcome(epoch_config@, *signer, epoch@) is Ok
                    &&& epoch@ == proposed_epoch(
                        witness_views(args.witnesses@),
                        args.minimum_witnesses_for_claim,
                    )
                    &&& epoch@.valid()
                },
                Err(e) => add_epoch_outcome(
                    epoch_config@,
                    *signer,
                    proposed_epoch(
                        witness_views(args.witnesses@),
                        args.minimum_witnesses_for_claim,
                    ),
                ) == Err::<(), NcashError>(e),
            },
    {
        if *signer != epoch_config.deployer {
            return Err(NcashError::Unauthorized);
        }
        let epoch = Epoch {
            minimum_witnesses_for_claim: args.minimum_witnesses_for_claim,
            witnesses: args.witnesses,
        };
        epoch.validate()?;
        if epoch_config.epochs.len() >= crate::constants::MAX_EPOCHS as usize {
            return Err(NcashError::MaxEpochLengthReached);
        }
        Ok(epoch)
    }

    /// Registers the epoch of `args` under `epoch_config`, at the address
    /// `ctx.epoch`, and hands the epoch back. Whatever is refused leaves the
    /// configuration as it was.
    pub fn execute(ctx: &AddEpoch, epoch_config: &mut EpochConfig, args: AddEpochArgs) -> (made:
        Result<Epoch, NcashError>)
        ensures
            match made {
                Ok(epoch) => {
                    &&& add_epoch_outcome(old(epoch_config)@, ctx.deployer, epoch@) is Ok
                    &&& epoch@ == proposed_epoch(
                        witness_views(args.witnesses@),
                        args.minimum_witnesses_for_claim,
                    )
                    &&& epoch@.valid()
                    &&& final(epoch_config)@ == old(epoch_config)@.after_add_epoch(ctx.epoch)
                },
                Err(e) => {
                    &&& add_epoch_outcome(
                        old(epoch_config)@,
                        ctx.deployer,
                        proposed_epoch(
                            witness_views(args.witnesses@),
                            args.minimum_witnesses_for_claim,
                        ),
                    ) == Err::<(), NcashError>(e)
                    &&& *final(epoch_config) == *old(epoch_config)
                },
            },
            old(epoch_config)@.valid() ==> final(epoch_config)@.valid(),
    {
        let epoch = Self::prepare(&ctx.deployer, epoch_config, args)?;
        let added = epoch_config.add_epoch(ctx.epoch);
        assert(added is Ok);
        Ok(epoch)
    }
}

} // verus!
