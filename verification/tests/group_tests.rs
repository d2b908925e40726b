use ncash::constants::{MAX_GROUP_PROVIDER_SIZE, MAX_MEMBERS};
use ncash::errors::NcashError;
use ncash::identity::{contains_identity, position_of_identity, Identity};
use ncash::instructions::group::create::{create, CreateGroup, CreateGroupArgs};
use ncash::state::group::{check_provider, Group};

fn id(n: u8) -> Identity {
    Identity::new([n; 32])
}

fn numbered(n: u32) -> Identity {
    let mut bytes = [0u8; 32];
    bytes[0..4].copy_from_slice(&n.to_le_bytes());
    bytes[31] = 0xaa;
    Identity::new(bytes)
}

fn group(provider: &str, members: Vec<Identity>) -> Group {
    Group { id: 1, bump: 255, creator: id(9), provider: provider.to_string(), members }
}

fn full_group() -> Group {
    let members: Vec<Identity> = (0..MAX_MEMBERS).map(numbered).collect();
    group("github", members)
}

#[test]
fn identity_equality_is_by_bytes() {
    assert_eq!(id(1), id(1));
    assert_ne!(id(1), id(2));
    let mut bytes = [1u8; 32];
    bytes[31] = 2;
    assert_ne!(id(1), Identity::new(bytes));
    assert_eq!(id(3).to_bytes(), [3u8; 32]);
}

#[test]
fn identity_lists_are_searched_in_order() {
    let items = vec![id(1), id(2), id(1)];
    assert_eq!(position_of_identity(&items, &id(1)), Some(0));
    assert_eq!(position_of_identity(&items, &id(2)), Some(1));
    assert_eq!(position_of_identity(&items, &id(3)), None);
    assert!(contains_identity(&items, &id(2)));
    assert!(!contains_identity(&items, &id(3)));
}

#[test]
fn group_size_counts_members() {
    assert_eq!(Group::size(&[]), 85);
    assert_eq!(Group::size(&[id(1), id(2), id(3)]), 85 + 96);
    assert_eq!(Group::LEN, 85 + 200 * 32);
}

#[test]
fn valid_group_validates() {
    assert_eq!(group("github", vec![]).validate(), Ok(()));
    assert_eq!(group("github", vec![id(1), id(2)]).validate(), Ok(()));
    assert_eq!(full_group().validate(), Ok(()));
}

#[test]
fn empty_provider_is_invalid() {
    assert_eq!(group("", vec![]).validate(), Err(NcashError::InvalidProvider));
    assert_eq!(check_provider(""), Err(NcashError::InvalidProvider));
}

#[test]
fn long_provider_is_refused() {
    let longest = "p".repeat(MAX_GROUP_PROVIDER_SIZE);
    let too_long = "p".repeat(MAX_GROUP_PROVIDER_SIZE + 1);
    assert_eq!(group(&longest, vec![]).validate(), Ok(()));
    assert_eq!(group(&too_long, vec![]).validate(), Err(NcashError::ProviderTooLong));
    assert_eq!(check_provider(&too_long), Err(NcashError::ProviderTooLong));
}

#[test]
fn provider_length_is_counted_in_bytes() {
    // Eleven characters of three bytes each: 33 bytes.
    let wide = "\u{20ac}".repeat(11);
    assert_eq!(wide.chars().count(), 11);
    assert_eq!(check_provider(&wide), Err(NcashError::ProviderTooLong));
    let fits = "\u{20ac}".repeat(10);
    assert_eq!(check_provider(&fits), Ok(()));
}

#[test]
fn provider_is_checked_before_members() {
    let g = group("", vec![id(1), id(1)]);
    assert_eq!(g.validate(), Err(NcashError::InvalidProvider));
}

#[test]
fn duplicate_members_are_invalid() {
    assert_eq!(
        group("github", vec![id(1), id(2), id(1)]).validate(),
        Err(NcashError::DuplicateMember)
    );
    assert_eq!(group("github", vec![id(4), id(4)]).validate(), Err(NcashError::DuplicateMember));
}

#[test]
fn too_many_members_are_invalid() {
    let mut g = full_group();
    g.members.push(numbered(MAX_MEMBERS));
    assert_eq!(g.validate(), Err(NcashError::MaxMembersReached));
    // The length is looked at before duplicates are.
    g.members.push(numbered(0));
    assert_eq!(g.validate(), Err(NcashError::MaxMembersReached));
}

#[test]
fn add_member_appends_in_order() {
    let mut g = group("github", vec![]);
    assert_eq!(g.add_member(id(3)), Ok(()));
    assert_eq!(g.add_member(id(1)), Ok(()));
    assert_eq!(g.add_member(id(2)), Ok(()));
    assert_eq!(g.members, vec![id(3), id(1), id(2)]);
    assert_eq!(g.member_count(), 3);
    assert!(g.has_member(&id(1)));
    assert!(!g.has_member(&id(4)));
    assert_eq!(g.validate(), Ok(()));
}

#[test]
fn add_existing_member_fails_and_changes_nothing() {
    let mut g = group("github", vec![id(1), id(2)]);
    assert_eq!(g.add_member(id(2)), Err(NcashError::DuplicateMember));
    assert_eq!(g.members, vec![id(1), id(2)]);
    assert_eq!(g.id, 1);
    assert_eq!(g.bump, 255);
    assert_eq!(g.creator, id(9));
    assert_eq!(g.provider, "github");
}

#[test]
fn add_member_to_full_group_fails() {
    let mut g = full_group();
    assert_eq!(g.member_count(), MAX_MEMBERS as usize);
    assert_eq!(g.add_member(id(7)), Err(NcashError::MaxMembersReached));
    assert_eq!(g.member_count(), MAX_MEMBERS as usize);
    // Capacity is looked at before the member is looked for.
    assert_eq!(g.add_member(numbered(0)), Err(NcashError::MaxMembersReached));
    assert_eq!(g.member_count(), MAX_MEMBERS as usize);
}

#[test]
fn group_fills_up_to_the_limit() {
    let mut g = group("github", vec![]);
    for n in 0..MAX_MEMBERS {
        assert_eq!(g.add_member(numbered(n)), Ok(()));
    }
    assert_eq!(g.member_count(), MAX_MEMBERS as usize);
    assert_eq!(g.add_member(numbered(MAX_MEMBERS)), Err(NcashError::MaxMembersReached));
    assert_eq!(g.remove_member(&numbered(5)), Ok(()));
    assert_eq!(g.member_count(), MAX_MEMBERS as usize - 1);
    assert_eq!(g.add_member(numbered(MAX_MEMBERS)), Ok(()));
    assert_eq!(g.member_count(), MAX_MEMBERS as usize);
    assert_eq!(g.validate(), Ok(()));
}

#[test]
fn member_count_stays_within_limit_over_mixed_changes() {
    let mut g = group("github", vec![]);
    for round in 0..3u32 {
        for n in 0..(MAX_MEMBERS + 20) {
            let _ = g.add_member(numbered(n + round));
            assert!(g.member_count() <= MAX_MEMBERS as usize);
        }
        for n in (0..MAX_MEMBERS).step_by(3) {
            assert_eq!(g.remove_member(&numbered(n)), Ok(()));
            assert!(g.member_count() <= MAX_MEMBERS as usize);
        }
        assert_eq!(g.validate(), Ok(()));
    }
}

#[test]
fn remove_member_keeps_the_order_of_the_others() {
    let mut g = group("github", vec![id(1), id(2), id(3), id(4)]);
    assert_eq!(g.remove_member(&id(2)), Ok(()));
    assert_eq!(g.members, vec![id(1), id(3), id(4)]);
    assert_eq!(g.remove_member(&id(4)), Ok(()));
    assert_eq!(g.members, vec![id(1), id(3)]);
    assert!(!g.has_member(&id(2)));
}

#[test]
fn remove_absent_member_succeeds_and_changes_nothing() {
    let mut g = group("github", vec![id(1), id(2)]);
    assert_eq!(g.remove_member(&id(5)), Ok(()));
    assert_eq!(g.members, vec![id(1), id(2)]);
    let mut empty = group("github", vec![]);
    assert_eq!(empty.remove_member(&id(5)), Ok(()));
    assert_eq!(empty.member_count(), 0);
}

#[test]
fn remove_member_takes_the_first_occurrence() {
    let mut g = group("github", vec![id(1), id(2), id(1)]);
    assert_eq!(g.remove_member(&id(1)), Ok(()));
    assert_eq!(g.members, vec![id(2), id(1)]);
}

#[test]
fn clear_members_empties_the_group() {
    let mut g = group("github", vec![id(1), id(2)]);
    g.clear_members();
    assert_eq!(g.member_count(), 0);
    assert_eq!(g.provider, "github");
    assert_eq!(g.creator, id(9));
    assert_eq!(g.validate(), Ok(()));
}

#[test]
fn create_makes_an_empty_group_with_the_derived_id() {
    let ctx = CreateGroup { group: id(5), bump: 254, creator: id(6) };
    let (g, event) = create(&ctx, CreateGroupArgs { provider: "github".to_string() }).unwrap();
    assert_eq!(g.id, 128023507);
    assert_eq!(g.bump, 254);
    assert_eq!(g.creator, id(6));
    assert_eq!(g.provider, "github");
    assert!(g.members.is_empty());
    assert_eq!(event.id, 128023507);
    assert_eq!(event.group_address, id(5));
    assert_eq!(event.provider, "github");
}

#[test]
fn create_refuses_bad_providers() {
    let ctx = CreateGroup { group: id(5), bump: 254, creator: id(6) };
    assert_eq!(
        create(&ctx, CreateGroupArgs { provider: String::new() }).unwrap_err(),
        NcashError::InvalidProvider
    );
    assert_eq!(
        create(&ctx, CreateGroupArgs { provider: "x".repeat(33) }).unwrap_err(),
        NcashError::ProviderTooLong
    );
}
