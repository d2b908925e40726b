//! Capacity limits, string bounds and the tags from which record addresses
//! are derived.

use vstd::prelude::*;

verus! {

/// Most members a group can hold.
pub const MAX_MEMBERS: u32 = 200;

/// Most witnesses an epoch can register.
pub const MAX_WITNESSES: u32 = 5;

/// Most epochs an epoch configuration can list.
pub const MAX_EPOCHS: u32 = 10;

/// Longest provider label, in bytes. A provider is also an address seed, and
/// a seed is at most this long.
pub const MAX_GROUP_PROVIDER_SIZE: usize = 32;

/// Longest witness address, in bytes: `0x` and forty hexadecimal digits.
pub const MAX_WITNESS_ADDRESS_SIZE: usize = 42;

/// Longest witness endpoint, in bytes.
pub const MAX_WITNESS_URL_SIZE: usize = 200;

/// Namespace tag, first seed of every record address: `ncash`.
pub const SEED_PREFIX: [u8; 5] = [0x6e, 0x63, 0x61, 0x73, 0x68];

/// Entity tag of epoch configurations: `epoch_config`.
pub const SEED_EPOCH_CONFIG: [u8; 12] = [
    0x65, 0x70, 0x6f, 0x63, 0x68, 0x5f, 0x63, 0x6f, 0x6e, 0x66, 0x69, 0x67,
];

/// Entity tag of epochs: `epoch`.
pub const SEED_EPOCH: [u8; 5] = [0x65, 0x70, 0x6f, 0x63, 0x68];

/// Entity tag of groups: `group`.
pub const SEED_GROUP: [u8; 5] = [0x67, 0x72, 0x6f, 0x75, 0x70];

/// Entity tag of dapps: `dapp`.
pub const SEED_DAPP: [u8; 4] = [0x64, 0x61, 0x70, 0x70];

} // verus!
