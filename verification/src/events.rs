//! What the operations tell the outside when they succeed.

use crate::identity::Identity;
use vstd::prelude::*;

verus! {

/// A group was created.
#[derive(Clone, Debug)]
pub struct CreateGroupEvent {
    /// Identifier of the group.
    pub id: u32,
    /// Address at which the group is stored.
    pub group_address: Identity,
    /// Provider of the group.
    pub provider: String,
}

/// A dapp was created.
#[derive(Clone, Copy, Debug)]
pub struct CreateDappEvent {
    /// Identifier of the dapp.
    pub id: [u8; 32],
}

} // verus!
