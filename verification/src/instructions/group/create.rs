//! Creation of a group.

use crate::errors::NcashError;
use crate::events::CreateGroupEvent;
use crate::identity::Identity;
use crate::state::group::{Group, GroupView};
use crate::utils::hashing::{fetch_group_id, group_id};
use vstd::prelude::*;

verus! {

/// Who creates a group, and where it will be stored.
#[derive(Clone, Copy, Debug)]
pub struct CreateGroup {
    /// Address derived for the group.
    pub group: Identity,
    /// Bump of that address.
    pub bump: u8,
    /// The signer, who becomes the creator of the group.
    pub creator: Identity,
}

/// Arguments of the creation of a group.
#[derive(Clone, Debug)]
pub struct CreateGroupArgs {
    pub provider: String,
}

/// The group that a creation makes: no members yet, and the identifier
/// derived from the provider.
pub open spec fn created_group(ctx: CreateGroup, provider: Seq<char>) -> GroupView {
    GroupView {
        id: group_id(provider) as u32,
        bump: ctx.bump,
        creator: ctx.creator,
        provider,
        members: Seq::empty(),
    }
}

/// Makes the group of `args.provider`, created by `ctx.creator`, and the
/// event that announces it. An empty provider is refused with
/// `InvalidProvider`, one over its bound with `ProviderTooLong`.
pub fn create(ctx: &CreateGroup, args: CreateGroupArgs) -> (made: Result<
    (Group, CreateGroupEvent),
    NcashError,
>)
    ensures
        match made {
            Ok((group, event)) => {
                &&& group@ == created_group(*ctx, args.provider@)
                &&& group@.valid()
                &&& event.id == group.id
                &&& event.group_address == ctx.group
                &&& event.provider@ == args.provider@
            },
            Err(e) => created_group(*ctx, args.provider@).provider_violation() == Some(e),
        },
        made is Ok <==> created_group(*ctx, args.provider@).provider_violation() is None,
{
    let id = fetch_group_id(args.provider.as_str());
    let group = Group {
        id,
        bump: ctx.bump,
        creator: ctx.creator,
        provider: args.provider.clone(),
        members: Vec::new(),
    };
    group.validate()?;
    let event = CreateGroupEvent { id, group_address: ctx.group, provider: args.provider };
    Ok((group, event))
}

} // verus!
