use ncash::constants::{MAX_EPOCHS, MAX_WITNESSES, MAX_WITNESS_URL_SIZE};
use ncash::errors::NcashError;
use ncash::identity::Identity;
use ncash::instructions::epoch::add_epoch::{AddEpoch, AddEpochArgs};
use ncash::instructions::epoch::change_epoch_index::{ChangeEpochIndex, ChangeEpochIndexArgs};
use ncash::instructions::epoch::initialize::{InitializeEpochConfig, InitializeEpochConfigArgs};
use ncash::state::dapp::Dapp;
use ncash::state::epoch::{Epoch, Witness};
use ncash::state::epoch_config::EpochConfig;
use ncash::state::group::Group;

const W1: &str = "0x7e5f4552091a69125d5dfcb7b8c2659029395bdf";
const W2: &str = "0x2b5ad5c4795c026514f8317c7a215e218dccd6cf";
const W3: &str = "0x6813eb9362372eef6200f3b1dbc3f819671cba69";
const W4: &str = "0x1eff47bc3a10a45d4b230b5d10e37751fe6aa718";

fn id(n: u8) -> Identity {
    Identity::new([n; 32])
}

fn witness(address: &str) -> Witness {
    Witness { address: address.to_string(), url: "https://witness.example".to_string() }
}

fn config(epoch_index: u32, epochs: Vec<Identity>) -> EpochConfig {
    EpochConfig {
        bump: 255,
        create_key: id(1),
        deployer: id(2),
        epoch_duration_seconds: 3600,
        epoch_index,
        epochs,
    }
}

#[test]
fn epoch_size_counts_witnesses() {
    assert_eq!(Epoch::size(&[]), 66);
    assert_eq!(Epoch::size(&[witness(W1)]), 66 + 250);
    assert_eq!(Epoch::size(&[witness(W1), witness(W2), witness(W3)]), 66 + 750);
    assert_eq!(Epoch::LEN, 66 + 5 * 250);
}

#[test]
fn valid_epoch_validates() {
    let epoch = Epoch {
        minimum_witnesses_for_claim: 2,
        witnesses: vec![witness(W1), witness(W2), witness(W3)],
    };
    assert_eq!(epoch.validate(), Ok(()));
    let at_threshold = Epoch { minimum_witnesses_for_claim: 1, witnesses: vec![witness(W1)] };
    assert_eq!(at_threshold.validate(), Ok(()));
    let empty = Epoch { minimum_witnesses_for_claim: 0, witnesses: vec![] };
    assert_eq!(empty.validate(), Ok(()));
}

#[test]
fn threshold_above_witness_count_is_refused() {
    let epoch = Epoch { minimum_witnesses_for_claim: 4, witnesses: vec![witness(W4)] };
    assert_eq!(epoch.validate(), Err(NcashError::InvalidWitnessClaimCount));
    let none = Epoch { minimum_witnesses_for_claim: 1, witnesses: vec![] };
    assert_eq!(none.validate(), Err(NcashError::InvalidWitnessClaimCount));
}

#[test]
fn too_many_witnesses_are_refused() {
    let witnesses: Vec<Witness> = (0..=MAX_WITNESSES).map(|_| witness(W1)).collect();
    let epoch = Epoch { minimum_witnesses_for_claim: 1, witnesses };
    assert_eq!(epoch.validate(), Err(NcashError::MaxWitnessesReached));
    let most: Vec<Witness> = (0..MAX_WITNESSES).map(|_| witness(W1)).collect();
    assert_eq!(Epoch { minimum_witnesses_for_claim: 1, witnesses: most }.validate(), Ok(()));
}

#[test]
fn malformed_witness_address_is_refused() {
    for bad in [
        "",
        "7e5f4552091a69125d5dfcb7b8c2659029395bdf",
        "0x7e5f4552091a69125d5dfcb7b8c2659029395bd",
        "0x7e5f4552091a69125d5dfcb7b8c2659029395bdf0",
        "0x7e5f4552091a69125d5dfcb7b8c2659029395bdg",
        "0X7e5f4552091a69125d5dfcb7b8c2659029395bdf",
        "1x7e5f4552091a69125d5dfcb7b8c2659029395bdf",
    ] {
        let epoch = Epoch { minimum_witnesses_for_claim: 1, witnesses: vec![witness(bad)] };
        assert_eq!(epoch.validate(), Err(NcashError::InvalidWitness), "{bad}");
        assert_eq!(witness(bad).validate(), Err(NcashError::InvalidWitness));
    }
}

#[test]
fn long_witness_url_is_refused() {
    let at_bound = Witness { address: W1.to_string(), url: "u".repeat(MAX_WITNESS_URL_SIZE) };
    assert_eq!(at_bound.validate(), Ok(()));
    let over = Witness { address: W1.to_string(), url: "u".repeat(MAX_WITNESS_URL_SIZE + 1) };
    assert_eq!(over.validate(), Err(NcashError::HostTooLong));
    let epoch = Epoch { minimum_witnesses_for_claim: 1, witnesses: vec![witness(W2), over] };
    assert_eq!(epoch.validate(), Err(NcashError::HostTooLong));
}

#[test]
fn first_failing_witness_gives_the_error() {
    let long_url = Witness { address: W1.to_string(), url: "u".repeat(MAX_WITNESS_URL_SIZE + 1) };
    let bad_address = witness("nonsense");
    let both = Witness { address: "nonsense".to_string(), url: "u".repeat(500) };
    let a = Epoch {
        minimum_witnesses_for_claim: 9,
        witnesses: vec![witness(W1), long_url.clone(), bad_address.clone()],
    };
    assert_eq!(a.validate(), Err(NcashError::HostTooLong));
    let b = Epoch {
        minimum_witnesses_for_claim: 9,
        witnesses: vec![witness(W1), bad_address, long_url],
    };
    assert_eq!(b.validate(), Err(NcashError::InvalidWitness));
    // Within one witness the address is looked at before the endpoint.
    let c = Epoch { minimum_witnesses_for_claim: 0, witnesses: vec![both] };
    assert_eq!(c.validate(), Err(NcashError::InvalidWitness));
}

#[test]
fn epoch_config_size_counts_epochs() {
    assert_eq!(EpochConfig::size(&[]), 89);
    assert_eq!(EpochConfig::size(&[id(1), id(2)]), 89 + 64);
    assert_eq!(EpochConfig::LEN, 89 + 10 * 32);
}

#[test]
fn epoch_config_validates_its_length() {
    let full: Vec<Identity> = (0..MAX_EPOCHS as u8).map(id).collect();
    assert_eq!(config(0, full.clone()).validate(), Ok(()));
    assert_eq!(config(0, full.clone()).validate_epochs_length(), Ok(()));
    let mut over = full;
    over.push(id(99));
    assert_eq!(config(0, over.clone()).validate(), Err(NcashError::MaxEpochLengthReached));
    assert_eq!(config(0, over).validate_epochs_length(), Err(NcashError::MaxEpochLengthReached));
}

#[test]
fn epoch_config_add_epoch_appends_whenever_there_is_room() {
    let mut c = config(0, vec![]);
    assert_eq!(c.add_epoch(id(1)), Ok(()));
    assert_eq!(c.add_epoch(id(2)), Ok(()));
    assert_eq!(c.epochs, vec![id(1), id(2)]);
    // An epoch that is listed already is appended all the same.
    assert_eq!(c.add_epoch(id(1)), Ok(()));
    assert_eq!(c.epochs, vec![id(1), id(2), id(1)]);
    assert_eq!(c.epoch_index, 0);
    assert_eq!(c.deployer, id(2));
    assert_eq!(c.create_key, id(1));
    assert_eq!(c.epoch_duration_seconds, 3600);
    assert!(c.contains_epoch(&id(2)));
    assert!(!c.contains_epoch(&id(3)));
}

#[test]
fn add_epoch_appends_an_address_that_is_listed() {
    let ctx = AddEpoch { epoch: id(40), deployer: id(2) };
    let mut c = config(0, vec![id(40)]);
    let args = AddEpochArgs { witnesses: vec![witness(W1)], minimum_witnesses_for_claim: 1 };
    assert!(AddEpoch::execute(&ctx, &mut c, args).is_ok());
    assert_eq!(c.epochs, vec![id(40), id(40)]);
}

#[test]
fn sizes_stay_within_the_stored_lengths() {
    let most_witnesses: Vec<Witness> = (0..MAX_WITNESSES).map(|_| witness(W1)).collect();
    assert_eq!(Epoch::size(&most_witnesses), Epoch::LEN);
    assert_eq!(Epoch::LEN, 1316);
    let most_epochs: Vec<Identity> = (0..MAX_EPOCHS as u8).map(id).collect();
    assert_eq!(EpochConfig::size(&most_epochs), EpochConfig::LEN);
    assert_eq!(EpochConfig::LEN, 409);
    let most_members: Vec<Identity> = (0..200u8).map(id).collect();
    assert_eq!(Group::size(&most_members), Group::LEN);
    assert_eq!(Group::LEN, 6485);
    assert_eq!(Dapp::LEN, 145);
}

#[test]
fn epoch_config_add_epoch_fails_when_full() {
    let full: Vec<Identity> = (0..MAX_EPOCHS as u8).map(id).collect();
    let mut c = config(0, full.clone());
    assert_eq!(c.add_epoch(id(50)), Err(NcashError::MaxEpochLengthReached));
    assert_eq!(c.add_epoch(id(0)), Err(NcashError::MaxEpochLengthReached));
    assert_eq!(c.epochs, full);
}

#[test]
fn epoch_config_remove_epoch_is_idempotent() {
    let mut c = config(0, vec![id(1), id(2), id(3)]);
    assert_eq!(c.remove_epoch(&id(2)), Ok(()));
    assert_eq!(c.epochs, vec![id(1), id(3)]);
    assert_eq!(c.remove_epoch(&id(2)), Ok(()));
    assert_eq!(c.epochs, vec![id(1), id(3)]);
}

#[test]
fn active_epoch_is_the_one_at_the_index() {
    assert_eq!(config(0, vec![]).active_epoch(), Err(NcashError::NotFound));
    assert_eq!(config(0, vec![id(1), id(2)]).active_epoch(), Ok(id(1)));
    assert_eq!(config(1, vec![id(1), id(2)]).active_epoch(), Ok(id(2)));
    assert_eq!(config(2, vec![id(1), id(2)]).active_epoch(), Err(NcashError::NotFound));
    assert_eq!(config(u32::MAX, vec![id(1), id(2)]).active_epoch(), Err(NcashError::NotFound));
}

#[test]
fn increment_epoch_adds_one() {
    let mut c = config(7, vec![]);
    assert_eq!(c.increment_epoch(), Ok(()));
    assert_eq!(c.epoch_index, 8);
    let mut near = config(u32::MAX - 1, vec![]);
    assert_eq!(near.increment_epoch(), Ok(()));
    assert_eq!(near.epoch_index, u32::MAX);
}

#[test]
fn increment_epoch_overflow_fails() {
    let mut c = config(u32::MAX, vec![id(1)]);
    assert_eq!(c.increment_epoch(), Err(NcashError::EpochIndexOverflow));
    assert_eq!(c.epoch_index, u32::MAX);
    assert_eq!(c.epochs, vec![id(1)]);
}

#[test]
fn initialize_makes_an_empty_configuration() {
    let ctx = InitializeEpochConfig { bump: 250, create_key: id(1), payer: id(2) };
    let c = InitializeEpochConfig::execute(
        &ctx,
        InitializeEpochConfigArgs { epoch_duration_seconds: 3600 },
    )
    .unwrap();
    assert_eq!(c.bump, 250);
    assert_eq!(c.create_key, id(1));
    assert_eq!(c.deployer, id(2));
    assert_eq!(c.epoch_duration_seconds, 3600);
    assert_eq!(c.epoch_index, 0);
    assert!(c.epochs.is_empty());
}

#[test]
fn initialize_refuses_zero_duration() {
    let ctx = InitializeEpochConfig { bump: 250, create_key: id(1), payer: id(2) };
    let refused =
        InitializeEpochConfig::execute(&ctx, InitializeEpochConfigArgs { epoch_duration_seconds: 0 });
    assert_eq!(refused.unwrap_err(), NcashError::InvalidEpochDuration);
    let shortest =
        InitializeEpochConfig::execute(&ctx, InitializeEpochConfigArgs { epoch_duration_seconds: 1 });
    assert_eq!(shortest.unwrap().epoch_duration_seconds, 1);
}

#[test]
fn change_epoch_index_moves_upward_only() {
    let ctx = ChangeEpochIndex { deployer: id(2) };
    let mut c = config(0, vec![id(1)]);
    let step = |c: &mut EpochConfig, n: u32| {
        ChangeEpochIndex::execute(&ctx, c, ChangeEpochIndexArgs { new_epoch_index: n })
    };
    assert_eq!(step(&mut c, 1), Ok(()));
    assert_eq!(c.epoch_index, 1);
    assert_eq!(step(&mut c, 5), Ok(()));
    assert_eq!(c.epoch_index, 5);
    assert_eq!(step(&mut c, 5), Err(NcashError::InvalidEpochIndex));
    assert_eq!(step(&mut c, 4), Err(NcashError::InvalidEpochIndex));
    assert_eq!(step(&mut c, 0), Err(NcashError::InvalidEpochIndex));
    assert_eq!(c.epoch_index, 5);
    assert_eq!(step(&mut c, u32::MAX), Ok(()));
    assert_eq!(c.epoch_index, u32::MAX);
    assert_eq!(step(&mut c, u32::MAX), Err(NcashError::InvalidEpochIndex));
    assert_eq!(c.epochs, vec![id(1)]);
    assert_eq!(c.epoch_duration_seconds, 3600);
}

#[test]
fn change_epoch_index_needs_the_deployer() {
    let stranger = ChangeEpochIndex { deployer: id(3) };
    let mut c = config(2, vec![]);
    let refused =
        ChangeEpochIndex::execute(&stranger, &mut c, ChangeEpochIndexArgs { new_epoch_index: 9 });
    assert_eq!(refused, Err(NcashError::Unauthorized));
    assert_eq!(c.epoch_index, 2);
    // The signer is looked at before the index.
    let stale =
        ChangeEpochIndex::execute(&stranger, &mut c, ChangeEpochIndexArgs { new_epoch_index: 1 });
    assert_eq!(stale, Err(NcashError::Unauthorized));
}

#[test]
fn add_epoch_registers_a_valid_epoch() {
    let ctx = AddEpoch { epoch: id(40), deployer: id(2) };
    let mut c = config(0, vec![]);
    let args = AddEpochArgs {
        witnesses: vec![witness(W1), witness(W2), witness(W3)],
        minimum_witnesses_for_claim: 2,
    };
    let epoch = AddEpoch::execute(&ctx, &mut c, args).unwrap();
    assert_eq!(epoch.minimum_witnesses_for_claim, 2);
    assert_eq!(epoch.witnesses.len(), 3);
    assert_eq!(epoch.witnesses[1].address, W2);
    assert_eq!(c.epochs, vec![id(40)]);
    assert_eq!(c.epoch_index, 0);
}

#[test]
fn add_epoch_checks_in_order() {
    let full: Vec<Identity> = (0..MAX_EPOCHS as u8).map(id).collect();
    let mut c = config(0, full.clone());
    let bad_threshold =
        || AddEpochArgs { witnesses: vec![witness(W4)], minimum_witnesses_for_claim: 4 };
    let good = || AddEpochArgs { witnesses: vec![witness(W4)], minimum_witnesses_for_claim: 1 };
    let stranger = AddEpoch { epoch: id(40), deployer: id(3) };
    let deployer = AddEpoch { epoch: id(40), deployer: id(2) };
    assert_eq!(
        AddEpoch::execute(&stranger, &mut c, bad_threshold()).unwrap_err(),
        NcashError::Unauthorized
    );
    assert_eq!(
        AddEpoch::execute(&deployer, &mut c, bad_threshold()).unwrap_err(),
        NcashError::InvalidWitnessClaimCount
    );
    assert_eq!(
        AddEpoch::execute(&deployer, &mut c, good()).unwrap_err(),
        NcashError::MaxEpochLengthReached
    );
    assert_eq!(c.epochs, full);
    assert_eq!(
        AddEpoch::prepare(&id(2), &c, good()).unwrap_err(),
        NcashError::MaxEpochLengthReached
    );
}
