use ncash::errors::NcashError;
use ncash::identity::Identity;
use ncash::instructions::epoch::add_epoch::AddEpochArgs;
use ncash::instructions::group::verify_proof::{Attestation, VerifyProofArgs};
use ncash::registry::dapps::DappRegistry;
use ncash::registry::epochs::EpochManager;
use ncash::registry::groups::GroupRegistry;
use ncash::state::epoch::Witness;
use ncash::storage::Store;
use ncash::utils::address::{find_epoch_address, find_group_address};
use ncash::{
    add_epoch, change_epoch_index, create_dapp, create_group, initialize_epoch_config,
    verify_proof, PROGRAM_ID,
};

const CLAIM: &[u8] = b"claim: identity belongs to group github";
const W1: &str = "0x7e5f4552091a69125d5dfcb7b8c2659029395bdf";
const W2: &str = "0x2b5ad5c4795c026514f8317c7a215e218dccd6cf";
const W3: &str = "0x6813eb9362372eef6200f3b1dbc3f819671cba69";
const W4: &str = "0x1eff47bc3a10a45d4b230b5d10e37751fe6aa718";

const SIG1: [u8; 65] = [
    0x6e, 0xa8, 0xd0, 0x85, 0x27, 0x42, 0xf3, 0x07, 0x75, 0x68, 0x14, 0xd0, 0xaf, 0x07, 0xb9, 0x5b,
    0x28, 0xba, 0x85, 0xba, 0xee, 0x87, 0xdb, 0xc1, 0x9c, 0x74, 0x41, 0xb5, 0xcb, 0x7b, 0x6a, 0xef,
    0x4f, 0x81, 0xeb, 0x83, 0xba, 0xba, 0x7b, 0xf0, 0x1c, 0x2f, 0x9f, 0x66, 0x7a, 0xab, 0x22, 0x4f,
    0x07, 0x8d, 0x10, 0x31, 0xef, 0x85, 0x0c, 0x62, 0x96, 0x77, 0xad, 0x0b, 0xc0, 0xc6, 0xd1, 0x70,
    0x1b,
];

const SIG2: [u8; 65] = [
    0xfd, 0x67, 0xe3, 0xc7, 0x66, 0x8d, 0x9d, 0x68, 0x7c, 0x3c, 0x79, 0x83, 0x2d, 0x06, 0x3a, 0xfb,
    0x1f, 0x91, 0xb2, 0x54, 0x3c, 0xb9, 0xde, 0xb5, 0x39, 0x05, 0x33, 0x47, 0xdc, 0x96, 0xb2, 0x7b,
    0x7d, 0xbb, 0x32, 0x07, 0x9a, 0xdd, 0x44, 0x96, 0x55, 0x65, 0xf8, 0xe2, 0xae, 0xf4, 0x94, 0x81,
    0xa9, 0xa1, 0x14, 0x57, 0xd6, 0xc0, 0xea, 0x2f, 0x26, 0x18, 0x60, 0xcd, 0xf6, 0x44, 0x4d, 0x6e,
    0x1c,
];

const SIG4: [u8; 65] = [
    0x1f, 0xb1, 0xfa, 0x1d, 0x12, 0x07, 0x3c, 0x83, 0x68, 0xcf, 0x56, 0x44, 0x39, 0x02, 0x23, 0x0f,
    0x6b, 0xc5, 0xc9, 0x95, 0x27, 0x31, 0xf0, 0x14, 0xc8, 0x7f, 0xdf, 0xcd, 0xda, 0x29, 0x0b, 0x8b,
    0x6e, 0x6a, 0xfc, 0xb4, 0x91, 0x15, 0x10, 0xec, 0xe9, 0xe7, 0x45, 0x89, 0x4d, 0x62, 0x7e, 0x7b,
    0xb8, 0xd9, 0x40, 0x6c, 0x99, 0x48, 0xf4, 0x31, 0x49, 0xfa, 0xa5, 0x9e, 0xc8, 0xd7, 0x92, 0x53,
    0x1c,
];

fn id(n: u8) -> Identity {
    Identity::new([n; 32])
}

fn program() -> Identity {
    Identity::new(PROGRAM_ID)
}

fn witness(address: &str) -> Witness {
    Witness { address: address.to_string(), url: "https://witness.example".to_string() }
}

fn epoch_args(addresses: &[&str], threshold: u8) -> AddEpochArgs {
    AddEpochArgs {
        witnesses: addresses.iter().map(|a| witness(a)).collect(),
        minimum_witnesses_for_claim: threshold,
    }
}

fn attestation(address: &str, signature: &[u8]) -> Attestation {
    Attestation { witness_address: address.to_string(), signature: signature.to_vec() }
}

#[test]
fn store_keeps_one_record_for_each_address() {
    let mut store: Store<u32> = Store::new();
    assert!(!store.contains(&id(1)));
    assert_eq!(store.open(&id(1)), Err(NcashError::NotFound));
    assert_eq!(store.init(id(1), 10), Ok(()));
    assert_eq!(store.init(id(2), 20), Ok(()));
    assert_eq!(store.init(id(1), 11), Err(NcashError::AlreadyExists));
    assert_eq!(store.open(&id(1)), Ok(&10));
    assert_eq!(store.open(&id(2)), Ok(&20));
    assert_eq!(store.take(&id(1)), Ok(10));
    assert!(!store.contains(&id(1)));
    assert_eq!(store.take(&id(1)), Err(NcashError::NotFound));
    assert_eq!(store.open(&id(2)), Ok(&20));
    assert_eq!(store.init(id(1), 12), Ok(()));
    assert_eq!(store.open(&id(1)), Ok(&12));
}

#[test]
fn epoch_configuration_starts_empty_and_takes_epochs() {
    let mut manager = EpochManager::new(program());
    let deployer = id(2);
    let config = initialize_epoch_config(&mut manager, &id(1), &deployer, 3600).unwrap();
    {
        let stored = manager.config(&config).unwrap();
        assert_eq!(stored.epoch_index, 0);
        assert!(stored.epochs.is_empty());
        assert_eq!(stored.epoch_duration_seconds, 3600);
        assert_eq!(stored.deployer, deployer);
        assert_eq!(stored.create_key, id(1));
    }
    let first = add_epoch(&mut manager, &config, &deployer, epoch_args(&[W1, W2, W3], 2)).unwrap();
    assert_eq!(manager.config(&config).unwrap().epochs, vec![first]);
    assert_eq!(manager.epoch(&first).unwrap().witnesses.len(), 3);
    assert_eq!(manager.epoch(&first).unwrap().minimum_witnesses_for_claim, 2);
    assert_eq!(find_epoch_address(&config, 0, &program()).unwrap().0, first);

    let second = add_epoch(&mut manager, &config, &deployer, epoch_args(&[W4], 4));
    assert_eq!(second, Err(NcashError::InvalidWitnessClaimCount));
    assert_eq!(manager.config(&config).unwrap().epochs, vec![first]);
    assert_eq!(manager.config(&config).unwrap().epoch_index, 0);
}

#[test]
fn initialize_epoch_config_is_once_for_each_key() {
    let mut manager = EpochManager::new(program());
    assert_eq!(
        initialize_epoch_config(&mut manager, &id(1), &id(2), 0),
        Err(NcashError::InvalidEpochDuration)
    );
    let config = initialize_epoch_config(&mut manager, &id(1), &id(2), 60).unwrap();
    assert_eq!(
        initialize_epoch_config(&mut manager, &id(1), &id(2), 60),
        Err(NcashError::AlreadyExists)
    );
    assert_eq!(
        initialize_epoch_config(&mut manager, &id(1), &id(3), 90),
        Err(NcashError::AlreadyExists)
    );
    assert_eq!(manager.config(&config).unwrap().epoch_duration_seconds, 60);
    assert_eq!(manager.config(&config).unwrap().deployer, id(2));
    let other = initialize_epoch_config(&mut manager, &id(4), &id(2), 60).unwrap();
    assert_ne!(other, config);
    assert_eq!(manager.config(&id(9)).unwrap_err(), NcashError::NotFound);
}

#[test]
fn change_epoch_index_is_monotonic() {
    let mut manager = EpochManager::new(program());
    let deployer = id(2);
    let config = initialize_epoch_config(&mut manager, &id(1), &deployer, 3600).unwrap();
    assert_eq!(change_epoch_index(&mut manager, &config, &deployer, 0), Err(NcashError::InvalidEpochIndex));
    let mut last = 0;
    for next in [1u32, 2, 10, 11, 4000, u32::MAX] {
        assert_eq!(change_epoch_index(&mut manager, &config, &deployer, next), Ok(()));
        let now = manager.config(&config).unwrap().epoch_index;
        assert_eq!(now, next);
        assert!(now > last);
        for stale in [0, last, next] {
            assert_eq!(
                change_epoch_index(&mut manager, &config, &deployer, stale),
                Err(NcashError::InvalidEpochIndex)
            );
            assert_eq!(manager.config(&config).unwrap().epoch_index, next);
        }
        last = now;
    }
    assert_eq!(manager.increment_epoch(&config, &deployer), Err(NcashError::EpochIndexOverflow));
    assert_eq!(manager.config(&config).unwrap().epoch_index, u32::MAX);
}

#[test]
fn change_epoch_index_needs_deployer_and_configuration() {
    let mut manager = EpochManager::new(program());
    let config = initialize_epoch_config(&mut manager, &id(1), &id(2), 3600).unwrap();
    assert_eq!(change_epoch_index(&mut manager, &config, &id(3), 5), Err(NcashError::Unauthorized));
    assert_eq!(change_epoch_index(&mut manager, &id(8), &id(2), 5), Err(NcashError::NotFound));
    assert_eq!(manager.config(&config).unwrap().epoch_index, 0);
    assert_eq!(manager.increment_epoch(&config, &id(3)), Err(NcashError::Unauthorized));
    assert_eq!(manager.increment_epoch(&id(8), &id(2)), Err(NcashError::NotFound));
    assert_eq!(manager.increment_epoch(&config, &id(2)), Ok(()));
    assert_eq!(manager.config(&config).unwrap().epoch_index, 1);
}

#[test]
fn add_epoch_refusals_change_nothing() {
    let mut manager = EpochManager::new(program());
    let deployer = id(2);
    let config = initialize_epoch_config(&mut manager, &id(1), &deployer, 3600).unwrap();
    assert_eq!(
        add_epoch(&mut manager, &id(8), &deployer, epoch_args(&[W1], 1)),
        Err(NcashError::NotFound)
    );
    assert_eq!(
        add_epoch(&mut manager, &config, &id(3), epoch_args(&[W1], 1)),
        Err(NcashError::Unauthorized)
    );
    assert_eq!(
        add_epoch(&mut manager, &config, &deployer, epoch_args(&[W1, W2, W3, W4, W1, W2], 1)),
        Err(NcashError::MaxWitnessesReached)
    );
    assert_eq!(
        add_epoch(&mut manager, &config, &deployer, epoch_args(&[W1, "0x12"], 1)),
        Err(NcashError::InvalidWitness)
    );
    let long = AddEpochArgs {
        witnesses: vec![Witness { address: W1.to_string(), url: "u".repeat(201) }],
        minimum_witnesses_for_claim: 1,
    };
    assert_eq!(add_epoch(&mut manager, &config, &deployer, long), Err(NcashError::HostTooLong));
    assert_eq!(
        add_epoch(&mut manager, &config, &deployer, epoch_args(&[W1, W2], 3)),
        Err(NcashError::InvalidWitnessClaimCount)
    );
    assert!(manager.config(&config).unwrap().epochs.is_empty());
    let would_be = find_epoch_address(&config, 0, &program()).unwrap().0;
    assert_eq!(manager.epoch(&would_be).unwrap_err(), NcashError::NotFound);
}

#[test]
fn add_epoch_fills_the_configuration() {
    let mut manager = EpochManager::new(program());
    let deployer = id(2);
    let config = initialize_epoch_config(&mut manager, &id(1), &deployer, 3600).unwrap();
    let mut listed = Vec::new();
    for _ in 0..10 {
        listed.push(add_epoch(&mut manager, &config, &deployer, epoch_args(&[W1], 1)).unwrap());
    }
    assert_eq!(manager.config(&config).unwrap().epochs, listed);
    for (i, a) in listed.iter().enumerate() {
        for b in &listed[i + 1..] {
            assert_ne!(a, b);
        }
    }
    assert_eq!(
        add_epoch(&mut manager, &config, &deployer, epoch_args(&[W1], 1)),
        Err(NcashError::MaxEpochLengthReached)
    );
    // The epoch is checked before the room.
    assert_eq!(
        add_epoch(&mut manager, &config, &deployer, epoch_args(&[W1], 2)),
        Err(NcashError::InvalidWitnessClaimCount)
    );
    assert_eq!(manager.config(&config).unwrap().epochs.len(), 10);
}

#[test]
fn verify_proof_uses_the_active_epoch() {
    let mut manager = EpochManager::new(program());
    let deployer = id(2);
    let config = initialize_epoch_config(&mut manager, &id(1), &deployer, 3600).unwrap();
    let request = VerifyProofArgs {
        claim: CLAIM.to_vec(),
        attestations: vec![attestation(W1, &SIG1), attestation(W2, &SIG2)],
    };
    // No epoch yet.
    assert_eq!(verify_proof(&manager, &config, &request), Err(NcashError::NotFound));
    assert_eq!(verify_proof(&manager, &id(8), &request), Err(NcashError::NotFound));

    add_epoch(&mut manager, &config, &deployer, epoch_args(&[W1, W2, W3], 2)).unwrap();
    assert_eq!(verify_proof(&manager, &config, &request), Ok(()));
    assert_eq!(verify_proof(&manager, &config, &request), Ok(()));
    let one = VerifyProofArgs { claim: CLAIM.to_vec(), attestations: vec![attestation(W1, &SIG1)] };
    assert_eq!(verify_proof(&manager, &config, &one), Err(NcashError::InsufficientWitnesses));

    // The next epoch has other witnesses; it becomes active with the index.
    add_epoch(&mut manager, &config, &deployer, epoch_args(&[W4], 1)).unwrap();
    assert_eq!(verify_proof(&manager, &config, &request), Ok(()));
    assert_eq!(change_epoch_index(&mut manager, &config, &deployer, 1), Ok(()));
    assert_eq!(verify_proof(&manager, &config, &request), Err(NcashError::InsufficientWitnesses));
    let by_fourth =
        VerifyProofArgs { claim: CLAIM.to_vec(), attestations: vec![attestation(W4, &SIG4)] };
    assert_eq!(verify_proof(&manager, &config, &by_fourth), Ok(()));

    // An index beyond the registered epochs has no active epoch.
    assert_eq!(change_epoch_index(&mut manager, &config, &deployer, 2), Ok(()));
    assert_eq!(verify_proof(&manager, &config, &by_fourth), Err(NcashError::NotFound));
}

#[test]
fn group_is_created_once() {
    let mut registry = GroupRegistry::new(program());
    let event = create_group(&mut registry, &id(1), "github".to_string()).unwrap();
    assert_eq!(event.id, 128023507);
    assert_eq!(event.provider, "github");
    assert_eq!(event.group_address, find_group_address("github", &program()).unwrap().0);
    {
        let stored = registry.group(&event.group_address).unwrap();
        assert_eq!(stored.id, 128023507);
        assert_eq!(stored.creator, id(1));
        assert_eq!(stored.provider, "github");
        assert_eq!(stored.bump, find_group_address("github", &program()).unwrap().1);
        assert!(stored.members.is_empty());
    }
    let again = create_group(&mut registry, &id(1), "github".to_string());
    assert_eq!(again.unwrap_err(), NcashError::AlreadyExists);
    let by_another = create_group(&mut registry, &id(2), "github".to_string());
    assert_eq!(by_another.unwrap_err(), NcashError::AlreadyExists);
    assert_eq!(registry.group(&event.group_address).unwrap().creator, id(1));
}

#[test]
fn every_provider_is_created_once() {
    let mut registry = GroupRegistry::new(program());
    for provider in ["github", "google", "g", "0123456789abcdef0123456789abcdef", "\u{20ac}uro"] {
        assert!(create_group(&mut registry, &id(1), provider.to_string()).is_ok(), "{provider}");
        assert_eq!(
            create_group(&mut registry, &id(1), provider.to_string()).unwrap_err(),
            NcashError::AlreadyExists
        );
    }
    for provider in ["", "0123456789abcdef0123456789abcdef0"] {
        let first = create_group(&mut registry, &id(1), provider.to_string()).unwrap_err();
        let second = create_group(&mut registry, &id(1), provider.to_string()).unwrap_err();
        assert_eq!(first, second);
    }
    assert_eq!(
        create_group(&mut registry, &id(1), String::new()).unwrap_err(),
        NcashError::InvalidProvider
    );
    assert_eq!(
        create_group(&mut registry, &id(1), "p".repeat(33)).unwrap_err(),
        NcashError::ProviderTooLong
    );
}

#[test]
fn group_members_change_through_the_registry() {
    let mut registry = GroupRegistry::new(program());
    let creator = id(1);
    let group = create_group(&mut registry, &creator, "github".to_string()).unwrap().group_address;
    assert_eq!(registry.add_member(&group, &creator, id(10)), Ok(()));
    assert_eq!(registry.add_member(&group, &creator, id(11)), Ok(()));
    assert_eq!(registry.add_member(&group, &creator, id(10)), Err(NcashError::DuplicateMember));
    assert_eq!(registry.add_member(&group, &id(2), id(12)), Err(NcashError::Unauthorized));
    assert_eq!(registry.add_member(&id(9), &creator, id(12)), Err(NcashError::NotFound));
    assert_eq!(registry.group(&group).unwrap().members, vec![id(10), id(11)]);
    assert_eq!(registry.remove_member(&group, &id(2), &id(10)), Err(NcashError::Unauthorized));
    assert_eq!(registry.remove_member(&id(9), &creator, &id(10)), Err(NcashError::NotFound));
    assert_eq!(registry.remove_member(&group, &creator, &id(99)), Ok(()));
    assert_eq!(registry.group(&group).unwrap().members, vec![id(10), id(11)]);
    assert_eq!(registry.remove_member(&group, &creator, &id(10)), Ok(()));
    assert_eq!(registry.group(&group).unwrap().members, vec![id(11)]);
    assert_eq!(registry.group(&group).unwrap().provider, "github");
}

#[test]
fn registry_group_holds_at_most_the_limit() {
    let mut registry = GroupRegistry::new(program());
    let creator = id(1);
    let group = create_group(&mut registry, &creator, "github".to_string()).unwrap().group_address;
    for n in 0..200u32 {
        let mut bytes = [0xee; 32];
        bytes[0..4].copy_from_slice(&n.to_le_bytes());
        assert_eq!(registry.add_member(&group, &creator, Identity::new(bytes)), Ok(()));
    }
    assert_eq!(registry.add_member(&group, &creator, id(3)), Err(NcashError::MaxMembersReached));
    assert_eq!(registry.group(&group).unwrap().member_count(), 200);
}

#[test]
fn dapp_keeps_its_snapshot() {
    let mut groups = GroupRegistry::new(program());
    let mut dapps = DappRegistry::new(program());
    let creator = id(1);
    let payer = id(7);
    let group = create_group(&mut groups, &creator, "github".to_string()).unwrap().group_address;

    let (first, event) = create_dapp(&mut dapps, &groups, &payer, &id(20), &group, 42).unwrap();
    let expected: [u8; 32] = [
        0xed, 0x7a, 0xef, 0xdf, 0xa6, 0x96, 0xb0, 0xb8, 0xb9, 0x45, 0xe9, 0x50, 0x1d, 0xb0, 0x20,
        0x1b, 0x67, 0x60, 0x82, 0x87, 0xe0, 0x26, 0x9c, 0xcb, 0x52, 0x5e, 0x79, 0xd4, 0x72, 0xa9,
        0x4b, 0xbf,
    ];
    assert_eq!(event.id, expected);
    {
        let stored = dapps.dapp(&first).unwrap();
        assert_eq!(stored.id, expected);
        assert_eq!(stored.group_root, 42);
        assert_eq!(stored.group, group);
        assert_eq!(stored.creator, payer);
        assert_eq!(stored.create_key, id(20));
    }

    // The same creation key and group again, whatever the root or the payer.
    assert_eq!(
        create_dapp(&mut dapps, &groups, &payer, &id(20), &group, 42).unwrap_err(),
        NcashError::AlreadyExists
    );
    assert_eq!(
        create_dapp(&mut dapps, &groups, &id(8), &id(20), &group, 43).unwrap_err(),
        NcashError::AlreadyExists
    );
    assert_eq!(dapps.dapp(&first).unwrap().group_root, 42);

    // Another root, under another creation key.
    let (second, other_event) = create_dapp(&mut dapps, &groups, &payer, &id(21), &group, 43).unwrap();
    assert_ne!(second, first);
    assert_ne!(other_event.id, event.id);
    assert_eq!(dapps.dapp(&second).unwrap().group_root, 43);

    // Later changes of the group reach neither dapp.
    assert_eq!(groups.add_member(&group, &creator, id(30)), Ok(()));
    assert_eq!(groups.add_member(&group, &creator, id(31)), Ok(()));
    assert_eq!(groups.remove_member(&group, &creator, &id(30)), Ok(()));
    let kept = dapps.dapp(&first).unwrap();
    assert_eq!(kept.id, expected);
    assert_eq!(kept.group_root, 42);
    assert_eq!(kept.group, group);
    assert_eq!(dapps.dapp(&second).unwrap().group_root, 43);
    assert_eq!(dapps.dapp(&second).unwrap().id, other_event.id);
}

#[test]
fn dapp_needs_its_group() {
    let groups = GroupRegistry::new(program());
    let mut dapps = DappRegistry::new(program());
    assert_eq!(
        create_dapp(&mut dapps, &groups, &id(7), &id(20), &id(5), 42).unwrap_err(),
        NcashError::NotFound
    );
    assert_eq!(dapps.dapp(&id(5)).unwrap_err(), NcashError::NotFound);
}
