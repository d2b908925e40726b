//! The failures that operations report.

use vstd::prelude::*;

verus! {

/// Why an operation was refused. Every failure leaves the records untouched.
#[derive(Clone, Copy, Debug, PartialEq, Eq, Structural)]
pub enum NcashError {
    /// The signer is not the authority recorded in the record.
    Unauthorized,
    /// An epoch duration of zero seconds.
    InvalidEpochDuration,
    /// A new epoch index that is not above the current one.
    InvalidEpochIndex,
    /// The epoch configuration already lists the most epochs it can.
    MaxEpochLengthReached,
    /// More witnesses than an epoch can register.
    MaxWitnessesReached,
    /// The group already holds the most members it can.
    MaxMembersReached,
    /// A witness address that is not `0x` and forty hexadecimal digits.
    InvalidWitness,
    /// A witness endpoint longer than the bound.
    HostTooLong,
    /// A claim threshold above the number of witnesses.
    InvalidWitnessClaimCount,
    /// A provider label longer than the bound.
    ProviderTooLong,
    /// An empty provider label.
    InvalidProvider,
    /// A member that the group already holds.
    DuplicateMember,
    /// The epoch index cannot be incremented any further.
    EpochIndexOverflow,
    /// An attestation under an address that is no witness of the epoch.
    UnknownWitness,
    /// Fewer distinct valid witness signatures than the threshold.
    InsufficientWitnesses,
    /// A record is already stored under the derived address.
    AlreadyExists,
    /// No record is stored under the address.
    NotFound,
    /// No address can be derived from the seeds.
    AddressUnavailable,
}

} // verus!
