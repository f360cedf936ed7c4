use onda::moderation::error::ErrorCodes;
use onda::moderation::state::{Member, Role, Team};
use onda::moderation::{add_member, init_delete_action, initialize, remove_member};
use onda::pubkey::Pubkey;

fn key(n: u64) -> Pubkey {
    Pubkey { w0: n, w1: 0, w2: 0, w3: 1 }
}

#[test]
fn new_team_has_owner() {
    let team = initialize(key(1), key(100));
    assert_eq!(team.forum, key(100));
    assert_eq!(team.members, vec![Member { address: key(1), role: Role::Owner }]);
}

#[test]
fn team_sizes() {
    assert_eq!(Team::get_size(0), 44);
    assert_eq!(Team::get_size(1), 77);
    assert_eq!(Team::get_size(3), 143);
}

#[test]
fn adding_members() {
    let mut team = initialize(key(1), key(100));
    assert_eq!(add_member(&mut team, key(1), key(2), Role::Owner), Err(ErrorCodes::Unauthorized));
    assert_eq!(add_member(&mut team, key(1), key(1), Role::Admin), Err(ErrorCodes::MemberAlreadyExists));
    assert_eq!(add_member(&mut team, key(9), key(2), Role::Admin), Err(ErrorCodes::Unauthorized));
    assert_eq!(add_member(&mut team, key(1), key(2), Role::Admin), Ok(()));
    assert_eq!(add_member(&mut team, key(2), key(3), Role::Moderator), Ok(()));
    assert_eq!(add_member(&mut team, key(3), key(4), Role::Moderator), Err(ErrorCodes::Unauthorized));
    assert_eq!(team.members.len(), 3);
    assert_eq!(team.members[2], Member { address: key(3), role: Role::Moderator });
}

#[test]
fn removing_members() {
    let mut team = initialize(key(1), key(100));
    add_member(&mut team, key(1), key(2), Role::Admin).unwrap();
    add_member(&mut team, key(1), key(3), Role::Moderator).unwrap();
    assert_eq!(remove_member(&mut team, key(1), key(9)), Err(ErrorCodes::MemberNotFound));
    assert_eq!(remove_member(&mut team, key(9), key(3)), Err(ErrorCodes::Unauthorized));
    assert_eq!(remove_member(&mut team, key(2), key(1)), Err(ErrorCodes::Unauthorized));
    assert_eq!(remove_member(&mut team, key(3), key(2)), Err(ErrorCodes::Unauthorized));
    assert_eq!(team.members.len(), 3);
    assert_eq!(remove_member(&mut team, key(2), key(3)), Ok(()));
    assert_eq!(
        team.members,
        vec![Member { address: key(1), role: Role::Owner }, Member { address: key(2), role: Role::Admin }]
    );
}

#[test]
fn add_then_remove_restores() {
    let mut team = initialize(key(1), key(100));
    add_member(&mut team, key(1), key(2), Role::Admin).unwrap();
    let before = team.members.clone();
    add_member(&mut team, key(2), key(5), Role::Moderator).unwrap();
    remove_member(&mut team, key(2), key(5)).unwrap();
    assert_eq!(team.members, before);
}

#[test]
fn delete_action_needs_membership() {
    let team = initialize(key(1), key(100));
    assert_eq!(init_delete_action(&team, key(1)), Ok(()));
    assert_eq!(init_delete_action(&team, key(2)), Err(ErrorCodes::MemberNotFound));
}
