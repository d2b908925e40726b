//! Creation of a dapp.

use crate::events::CreateDappEvent;
use crate::identity::Identity;
use crate::state::dapp::{Dapp, DappData, DappView};
use crate::utils::hashing::{dapp_id, fetch_dapp_id};
use vstd::prelude::*;

verus! {

/// Who creates a dapp, for which group, and where it will be stored.
#[derive(Clone, Copy, Debug)]
pub struct CreateDapp {
    /// Bump of the address derived for the dapp.
    pub bump: u8,
    /// Address of the group that the dapp belongs to.
    pub group: Identity,
    /// The key from which, with the group, the address is derived.
    pub create_key: Identity,
    /// The signer that pays, who becomes the creator.
    pub payer: Identity,
}

/// Arguments of the creation of a dapp.
#[derive(Clone, Copy, Debug)]
pub struct CreateDappArgs {
    /// Commitment root of the group's membership, frozen into the dapp.
    pub group_root: u64,
}

/// The dapp that a creation makes: the identifier derived from the payer and
/// the root, and the root as it was given.
pub open spec fn created_dapp(ctx: CreateDapp, group_root: u64) -> DappView {
    DappView {
        id: dapp_id(ctx.payer, group_root),
        bump: ctx.bump,
        create_key: ctx.create_key,
        creator: ctx.payer,
        group: ctx.group,
        group_root,
    }
}

impl CreateDapp {
    /// Makes the dapp that `ctx.payer` binds to `ctx.group` with the root
    /// `args.group_root`, and the event that announces it.
    pub fn execute(ctx: &CreateDapp, args: CreateDappArgs) -> (made: (Dapp, CreateDappEvent))
        ensures
            made.0@ == created_dapp(*ctx, args.group_root),
            made.1.id == made.0.id,
    {
        let dapp_id = fetch_dapp_id(&ctx.payer, args.group_root);
        let dapp = Dapp::init(
            DappData {
                bump: ctx.bump,
                create_key: ctx.create_key,
                creator: ctx.payer,
                group: ctx.group,
                group_root: args.group_root,
                id: dapp_id,
            },
        );
        (dapp, CreateDappEvent { id: dapp_id })
    }
}

} // verus!
