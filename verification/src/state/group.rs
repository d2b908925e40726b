//! A group: the member identities gathered under a provider label.

use crate::constants::{MAX_GROUP_PROVIDER_SIZE, MAX_MEMBERS};
use crate::errors::NcashError;
use crate::identity::{
    contains_identity, lemma_first_position, lemma_remove_preserves_uniqueness,
    position_of_identity, without_first, Identity,
};
use vstd::prelude::*;
use vstd::utf8::encode_utf8;

verus! {

/// A named collection of member identities under a provider.
#[derive(Clone, Debug)]
pub struct Group {
    /// Identifier derived from the provider.
    pub id: u32,
    /// Bump of the address at which the group is stored.
    pub bump: u8,
    /// The identity that created the group and may change it.
    pub creator: Identity,
    /// Provider label, such as `github`.
    pub provider: String,
    /// The members, in the order in which they were added.
    pub members: Vec<Identity>,
}

/// What a group holds.
pub struct GroupView {
    pub id: u32,
    pub bump: u8,
    pub creator: Identity,
    pub provider: Seq<char>,
    pub members: Seq<Identity>,
}

impl View for Group {
    type V = GroupView;

    open spec fn view(&self) -> GroupView {
        GroupView {
            id: self.id,
            bump: self.bump,
            creator: self.creator,
            provider: self.provider@,
            members: self.members@,
        }
    }
}

/// Why a provider label is refused, if it is: it takes more bytes than its
/// bound, or it is empty.
pub open spec fn provider_violation(provider: Seq<char>) -> Option<NcashError> {
    if encode_utf8(provider).len() > MAX_GROUP_PROVIDER_SIZE {
        Some(NcashError::ProviderTooLong)
    } else if provider.len() == 0 {
        Some(NcashError::InvalidProvider)
    } else {
        None
    }
}

/// Checks a provider label: its length first, then that it is not empty.
pub fn check_provider(provider: &str) -> (checked: Result<(), NcashError>)
    ensures
        checked == match provider_violation(provider@) {
            Some(e) => Err::<(), NcashError>(e),
            None => Ok(()),
        },
{
    if provider.as_bytes().len() > MAX_GROUP_PROVIDER_SIZE {
        return Err(NcashError::ProviderTooLong);
    }
    if provider.is_empty() {
        return Err(NcashError::InvalidProvider);
    }
    Ok(())
}

impl GroupView {
    /// Why the provider label is refused, if it is.
    pub open spec fn provider_violation(self) -> Option<NcashError> {
        provider_violation(self.provider)
    }

    /// Why the member list is refused, if it is.
    pub open spec fn members_violation(self) -> Option<NcashError> {
        if self.members.len() > MAX_MEMBERS {
            Some(NcashError::MaxMembersReached)
        } else if !self.members.no_duplicates() {
            Some(NcashError::DuplicateMember)
        } else {
            None
        }
    }

    /// The invariant of a group: a provider that is neither empty nor longer
    /// than its bound, and at most `MAX_MEMBERS` members, none of them twice.
    pub open spec fn valid(self) -> bool {
        &&& self.provider.len() > 0
        &&& encode_utf8(self.provider).len() <= MAX_GROUP_PROVIDER_SIZE
        &&& self.members.len() <= MAX_MEMBERS
        &&& self.members.no_duplicates()
    }

    /// The outcome of validation: the provider is checked before the members.
    pub open spec fn validation(self) -> Result<(), NcashError> {
        match self.provider_violation() {
            Some(e) => Err(e),
            None => match self.members_violation() {
                Some(e) => Err(e),
                None => Ok(()),
            },
        }
    }

    /// The outcome of adding `member`: the capacity is checked before the
    /// member is looked for.
    pub open spec fn add_member_outcome(self, member: Identity) -> Result<(), NcashError> {
        if self.members.len() >= MAX_MEMBERS {
            Err(NcashError::MaxMembersReached)
        } else if self.members.contains(member) {
            Err(NcashError::DuplicateMember)
        } else {
            Ok(())
        }
    }

    /// The group after `member` was added: `member` comes last where it was
    /// accepted, and nothing changes where it was not.
    pub open spec fn after_add_member(self, member: Identity) -> GroupView {
        if self.add_member_outcome(member) is Ok {
            GroupView { members: self.members.push(member), ..self }
        } else {
            self
        }
    }

    /// The group after `member` was removed: the others keep their order.
    pub open spec fn after_remove_member(self, member: Identity) -> GroupView {
        GroupView { members: without_first(self.members, member), ..self }
    }
}

impl Group {
    /// Bytes of a stored group that holds the most members: 85 bytes of
    /// fixed fields with the provider at its bound, and 32 for each of
    /// `MAX_MEMBERS` members.
    pub const LEN: usize = 6485;

    /// Bytes of a stored group that holds `members`: 85 bytes of fixed fields
    /// with the provider at its bound, and 32 for each member.
    pub fn size(members: &[Identity]) -> (bytes: usize)
        requires
            85 + members@.len() * 32 <= usize::MAX,
        ensures
            bytes == 85 + members@.len() * 32,
            members@.len() <= MAX_MEMBERS ==> bytes <= Group::LEN,
    {
        8 + 4 + 1 + 32 + 4 + MAX_GROUP_PROVIDER_SIZE + 4 + (members.len() * 32)
    }

    /// Checks the invariant of the group and reports the first check that
    /// fails.
    pub fn validate(&self) -> (checked: Result<(), NcashError>)
        ensures
            checked == self@.validation(),
            checked is Ok <==> self@.valid(),
    {
        self.validate_provider()?;
        self.validate_members()?;
        Ok(())
    }

    /// Checks the provider label.
    fn validate_provider(&self) -> (checked: Result<(), NcashError>)
        ensures
            checked == match self@.provider_violation() {
                Some(e) => Err::<(), NcashError>(e),
                None => Ok(()),
            },
    {
        check_provider(self.provider.as_str())
    }

    /// Checks the member list: its length first, then that no member occurs
    /// twice.
    fn validate_members(&self) -> (checked: Result<(), NcashError>)
        ensures
            checked == match self@.members_violation() {
                Some(e) => Err::<(), NcashError>(e),
                None => Ok(()),
            },
    {
        if self.members.len() > MAX_MEMBERS as usize {
            return Err(NcashError::MaxMembersReached);
        }
        self.check_duplicate_members()?;
        Ok(())
    }

    /// Fails with `DuplicateMember` exactly when some member occurs twice.
    fn check_duplicate_members(&self) -> (checked: Result<(), NcashError>)
        ensures
            checked == if self.members@.no_duplicates() {
                Ok::<(), NcashError>(())
            } else {
                Err(NcashError::DuplicateMember)
            },
    {
        let mut i: usize = 0;
        while i < self.members.len()
            invariant
                i <= self.members.len(),
                forall|a: int, b: int|
                    0 <= a < b < i ==> self.members[a] != self.members[b],
            decreases self.members.len() - i,
        {
            let mut j: usize = 0;
            while j < i
                invariant
                    j <= i < self.members.len(),
                    forall|a: int| 0 <= a < j ==> self.members[a] != self.members[i as int],
                decreases i - j,
            {
                if self.members[j] == self.members[i] {
                    return Err(NcashError::DuplicateMember);
                }
                j += 1;
            }
            i += 1;
        }
        Ok(())
    }

    /// Adds `member` at the end of the member list. A full group refuses with
    /// `MaxMembersReached`, a group that holds `member` with
    /// `DuplicateMember`; the group is then left as it was.
    pub fn add_member(&mut self, member: Identity) -> (added: Result<(), NcashError>)
        ensures
            added == old(self)@.add_member_outcome(member),
            final(self)@ == old(self)@.after_add_member(member),
            added is Err ==> *final(self) == *old(self),
            old(self)@.valid() ==> final(self)@.valid(),
    {
        if self.members.len() >= MAX_MEMBERS as usize {
            return Err(NcashError::MaxMembersReached);
        }
        if contains_identity(&self.members, &member) {
            return Err(NcashError::DuplicateMember);
        }
        self.members.push(member);
        Ok(())
    }

    /// Removes `member`, keeping the order of the others. Where `member` is
    /// not in the group nothing changes, and the call succeeds all the same.
    pub fn remove_member(&mut self, member: &Identity) -> (removed: Result<(), NcashError>)
        ensures
            removed == Ok::<(), NcashError>(()),
            final(self)@ == old(self)@.after_remove_member(*member),
            !old(self)@.members.contains(*member) ==> *final(self) == *old(self),
            old(self)@.valid() ==> final(self)@.valid() && !final(self)@.members.contains(*member),
    {
        if let Some(pos) = position_of_identity(&self.members, member) {
            proof {
                lemma_first_position(self.members@, *member, pos as int);
                lemma_remove_preserves_uniqueness(self.members@, pos as int);
            }
            self.members.remove(pos);
        }
        Ok(())
    }

    /// Whether `member` is in the group.
    pub fn has_member(&self, member: &Identity) -> (held: bool)
        ensures
            held == self@.members.contains(*member),
    {
        contains_identity(&self.members, member)
    }

    /// The number of members.
    pub fn member_count(&self) -> (count: usize)
        ensures
            count == self@.members.len(),
    {
        self.members.len()
    }

    /// Removes every member.
    pub fn clear_members(&mut self)
        ensures
            final(self)@ == (GroupView { members: Seq::empty(), ..old(self)@ }),
    {
        self.members.clear();
    }
}

} // verus!
