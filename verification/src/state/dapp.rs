//! A dapp: an application bound to one group and to the commitment root that
//! the group had when the dapp was made.

use crate::identity::Identity;
use vstd::prelude::*;

verus! {

/// The values from which a dapp is initialized.
#[derive(Clone, Copy, Debug)]
pub struct DappData {
    pub bump: u8,
    pub create_key: Identity,
    pub creator: Identity,
    pub group: Identity,
    pub group_root: u64,
    pub id: [u8; 32],
}

/// An application identity bound to a group and a frozen commitment root.
#[derive(Clone, Copy, Debug)]
pub struct Dapp {
    /// Identifier derived from the creator and the commitment root.
    pub id: [u8; 32],
    /// Bump of the address at which the dapp is stored.
    pub bump: u8,
    /// The key from which, with the group, the address of the dapp was
    /// derived.
    pub create_key: Identity,
    /// The identity that created the dapp.
    pub creator: Identity,
    /// Address of the group that the dapp belongs to.
    pub group: Identity,
    /// The commitment root of the group as it was when the dapp was made.
    pub group_root: u64,
}

/// What a dapp holds.
pub struct DappView {
    pub id: Seq<u8>,
    pub bump: u8,
    pub create_key: Identity,
    pub creator: Identity,
    pub group: Identity,
    pub group_root: u64,
}

impl View for Dapp {
    type V = DappView;

    open spec fn view(&self) -> DappView {
        DappView {
            id: self.id@,
            bump: self.bump,
            create_key: self.create_key,
            creator: self.creator,
            group: self.group,
            group_root: self.group_root,
        }
    }
}

impl Dapp {
    /// Bytes of a stored dapp: a tag of 8, the identifier of 32, the bump,
    /// three identities of 32 each, and the root of 8.
    pub const LEN: usize = 145;

    /// The dapp that holds the values of `data`.
    pub fn init(data: DappData) -> (dapp: Dapp)
        ensures
            dapp@ == (DappView {
                id: data.id@,
                bump: data.bump,
                create_key: data.create_key,
                creator: data.creator,
                group: data.group,
                group_root: data.group_root,
            }),
    {
        Dapp {
            id: data.id,
            bump: data.bump,
            create_key: data.create_key,
            creator: data.creator,
            group: data.group,
            group_root: data.group_root,
        }
    }
}

} // verus!
