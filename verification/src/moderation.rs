//! The moderation program: a forum's team of owner, admins and moderators.

pub mod error;
pub mod state;

use vstd::prelude::*;
use crate::pubkey::Pubkey;
use crate::moderation::error::ErrorCodes;
use crate::moderation::state::{Member, Role, Team};

verus! {

/// Some member has address `a`.
pub open spec fn has_member(s: Seq<Member>, a: Pubkey) -> bool {
    exists|i: int| 0 <= i < s.len() && (#[trigger] s[i]).address == a
}

/// Member `i` is the first with address `a`.
pub open spec fn is_first_match(s: Seq<Member>, a: Pubkey, i: int) -> bool {
    &&& 0 <= i < s.len()
    &&& s[i].address == a
    &&& forall|j: int| 0 <= j < i ==> (#[trigger] s[j]).address != a
}

/// The role of the first member with address `a`, if any.
pub open spec fn role_of(s: Seq<Member>, a: Pubkey) -> Option<Role> {
    if exists|i: int| is_first_match(s, a, i) {
        Some(s[choose|i: int| is_first_match(s, a, i)].role)
    } else {
        None
    }
}

/// No two members share an address.
pub open spec fn unique_members(s: Seq<Member>) -> bool {
    forall|i: int, j: int| 0 <= i < j < s.len() ==> (#[trigger] s[i]).address != (#[trigger] s[j]).address
}

pub open spec fn is_owner(m: Member) -> bool {
    m.role == Role::Owner
}

/// How many members are owners.
pub open spec fn owner_count(s: Seq<Member>) -> nat {
    s.filter(|m: Member| is_owner(m)).len()
}

pub open spec fn not_address(a: Pubkey) -> spec_fn(Member) -> bool {
    |m: Member| m.address != a
}

proof fn lemma_first_match_role(s: Seq<Member>, a: Pubkey, i: int)
    requires
        is_first_match(s, a, i),
    ensures
        role_of(s, a) == Some(s[i].role),
{
    let k = choose|k: int| is_first_match(s, a, k);
    assert(is_first_match(s, a, k));
    if k < i {
        assert(s[k].address != a);
    }
    if i < k {
        assert(s[i].address != a);
    }
}

proof fn lemma_no_member_role(s: Seq<Member>, a: Pubkey)
    requires
        !has_member(s, a),
    ensures
        role_of(s, a) is None,
{
    if exists|i: int| is_first_match(s, a, i) {
        let k = choose|k: int| is_first_match(s, a, k);
        assert(s[k].address == a);
    }
}

/// The role of the first member with address `a` (see `role_of`).
fn find_role(members: &Vec<Member>, a: &Pubkey) -> (r: Option<Role>)
    ensures
        r == role_of(members@, *a),
        r is None <==> !has_member(members@, *a),
{
    let mut i: usize = 0;
    while i < members.len()
        invariant
            0 <= i <= members@.len(),
            forall|j: int| 0 <= j < i ==> (#[trigger] members@[j]).address != *a,
        decreases members@.len() - i,
    {
        if members[i].address == *a {
            proof {
                lemma_first_match_role(members@, *a, i as int);
            }
            return Some(members[i].role);
        }
        i = i + 1;
    }
    proof {
        lemma_no_member_role(members@, *a);
    }
    None
}

/// A new team for the forum `forum_config`, with `admin` as its owner.
/// The forum is then handed to the team.
pub fn initialize(admin: Pubkey, forum_config: Pubkey) -> (r: Team)
    ensures
        r.forum == forum_config,
        r.members@ == seq![Member { address: admin, role: Role::Owner }],
{
    let mut members: Vec<Member> = Vec::new();
    members.push(Member { address: admin, role: Role::Owner });
    Team { forum: forum_config, members }
}

/// What `add_member` answers: nobody is added as an owner; the new member
/// must not be one already; `admin` must be the owner or an admin.  On
/// success the member is appended.
pub open spec fn spec_add_member(s: Seq<Member>, admin: Pubkey, new_member: Pubkey, role: Role) -> Result<Seq<Member>, ErrorCodes> {
    if role == Role::Owner {
        Err(ErrorCodes::Unauthorized)
    } else if has_member(s, new_member) {
        Err(ErrorCodes::MemberAlreadyExists)
    } else {
        match role_of(s, admin) {
            None => Err(ErrorCodes::Unauthorized),
            Some(Role::Moderator) => Err(ErrorCodes::Unauthorized),
            Some(_) => Ok(s.push(Member { address: new_member, role })),
        }
    }
}

/// Adds `new_member` with `role` to the team (see `spec_add_member`).
pub fn add_member(team: &mut Team, admin: Pubkey, new_member: Pubkey, role: Role) -> (r: Result<(), ErrorCodes>)
    ensures
        match spec_add_member(old(team).members@, admin, new_member, role) {
            Ok(members) => r == Ok::<(), ErrorCodes>(()) && final(team).members@ == members && final(team).forum
                == old(team).forum,
            Err(e) => r == Err::<(), ErrorCodes>(e) && *final(team) == *old(team),
        },
{
    if role == Role::Owner {
        return Err(ErrorCodes::Unauthorized);
    }
    match find_role(&team.members, &new_member) {
        Some(_) => {
            return Err(ErrorCodes::MemberAlreadyExists);
        },
        None => {},
    }
    match find_role(&team.members, &admin) {
        None => {
            return Err(ErrorCodes::Unauthorized);
        },
        Some(Role::Moderator) => {
            return Err(ErrorCodes::Unauthorized);
        },
        Some(_) => {},
    }
    team.members.push(Member { address: new_member, role });
    Ok(())
}

/// What `remove_member` answers: `member` must be on the team and `admin`
/// too; owners cannot be removed; `admin` must be the owner or an admin.
/// On success every member with the address `member` leaves.
pub open spec fn spec_remove_member(s: Seq<Member>, admin: Pubkey, member: Pubkey) -> Result<Seq<Member>, ErrorCodes> {
    match role_of(s, member) {
        None => Err(ErrorCodes::MemberNotFound),
        Some(member_role) => match role_of(s, admin) {
            None => Err(ErrorCodes::Unauthorized),
            Some(admin_role) => if member_role == Role::Owner {
                Err(ErrorCodes::Unauthorized)
            } else if admin_role == Role::Moderator {
                Err(ErrorCodes::Unauthorized)
            } else {
                Ok(s.filter(not_address(member)))
            },
        },
    }
}

/// Removes `member` from the team (see `spec_remove_member`).  The team
/// cannot be empty: its account shrinks by one member first.
pub fn remove_member(team: &mut Team, admin: Pubkey, member: Pubkey) -> (r: Result<(), ErrorCodes>)
    requires
        old(team).members@.len() > 0,
    ensures
        match spec_remove_member(old(team).members@, admin, member) {
            Ok(members) => r == Ok::<(), ErrorCodes>(()) && final(team).members@ == members && final(team).forum
                == old(team).forum,
            Err(e) => r == Err::<(), ErrorCodes>(e) && *final(team) == *old(team),
        },
{
    let member_role = match find_role(&team.members, &member) {
        None => {
            return Err(ErrorCodes::MemberNotFound);
        },
        Some(role) => role,
    };
    let admin_role = match find_role(&team.members, &admin) {
        None => {
            return Err(ErrorCodes::Unauthorized);
        },
        Some(role) => role,
    };
    if member_role == Role::Owner {
        return Err(ErrorCodes::Unauthorized);
    }
    match admin_role {
        Role::Owner => {},
        Role::Admin => {},
        _ => {
            return Err(ErrorCodes::Unauthorized);
        },
    }
    let ghost old_members = team.members@;
    let mut kept: Vec<Member> = Vec::new();
    let mut i: usize = 0;
    while i < team.members.len()
        invariant
            0 <= i <= team.members@.len(),
            team.members@ == old_members,
            kept@ == old_members.take(i as int).filter(not_address(member)),
        decreases team.members@.len() - i,
    {
        let m = team.members[i];
        proof {
            old_members.take(i as int).lemma_filter_push(m, not_address(member));
            assert(old_members.take(i as int).push(m) =~= old_members.take(i + 1));
        }
        if m.address != member {
            kept.push(m);
        }
        i = i + 1;
    }
    assert(old_members.take(old_members.len() as int) =~= old_members);
    team.members = kept;
    Ok(())
}

/// Whether `member` may act for the team: it must be on it.
pub fn init_delete_action(team: &Team, member: Pubkey) -> (r: Result<(), ErrorCodes>)
    ensures
        r == if has_member(team.members@, member) {
            Ok::<(), ErrorCodes>(())
        } else {
            Err(ErrorCodes::MemberNotFound)
        },
{
    match find_role(&team.members, &member) {
        None => Err(ErrorCodes::MemberNotFound),
        Some(_) => Ok(()),
    }
}

proof fn lemma_filter_members(s: Seq<Member>, a: Pubkey)
    ensures
        unique_members(s) ==> unique_members(s.filter(not_address(a))),
        forall|b: Pubkey| has_member(s.filter(not_address(a)), b) == (has_member(s, b) && b != a),
        (forall|i: int| 0 <= i < s.len() && is_owner(#[trigger] s[i]) ==> s[i].address != a) ==> owner_count(
            s.filter(not_address(a)),
        ) == owner_count(s),
        !has_member(s, a) ==> s.filter(not_address(a)) == s,
    decreases s.len(),
{
    reveal(Seq::filter);
    let p = not_address(a);
    if s.len() > 0 {
        let init = s.drop_last();
        let last = s.last();
        lemma_filter_members(init, a);
        let fi = init.filter(p);
        assert(s.filter(p) == if p(last) { fi.push(last) } else { fi });
        assert(init.push(last) =~= s);
        init.lemma_filter_push(last, |m: Member| is_owner(m));
        fi.lemma_filter_push(last, |m: Member| is_owner(m));
        assert forall|b: Pubkey| has_member(s, b) == (has_member(init, b) || last.address == b) by {
            if has_member(s, b) {
                let i = choose|i: int| 0 <= i < s.len() && (#[trigger] s[i]).address == b;
                if i < s.len() - 1 {
                    assert(init[i] == s[i]);
                }
            }
            if has_member(init, b) {
                let i = choose|i: int| 0 <= i < init.len() && (#[trigger] init[i]).address == b;
                assert(s[i] == init[i]);
            }
            if last.address == b {
                assert(s[s.len() - 1] == last);
            }
        }
        assert forall|b: Pubkey| has_member(s.filter(p), b) == (has_member(fi, b) || (p(last) && last.address == b)) by {
            if p(last) {
                let f = fi.push(last);
                if has_member(f, b) {
                    let i = choose|i: int| 0 <= i < f.len() && (#[trigger] f[i]).address == b;
                    if i < f.len() - 1 {
                        assert(fi[i] == f[i]);
                    }
                }
                if has_member(fi, b) {
                    let i = choose|i: int| 0 <= i < fi.len() && (#[trigger] fi[i]).address == b;
                    assert(f[i] == fi[i]);
                }
                if last.address == b {
                    assert(f[f.len() - 1] == last);
                }
            }
        }
        if unique_members(s) {
            assert(unique_members(init)) by {
                assert forall|i: int, j: int| 0 <= i < j < init.len() implies (#[trigger] init[i]).address
                    != (#[trigger] init[j]).address by {
                    assert(init[i] == s[i] && init[j] == s[j]);
                }
            }
            if p(last) {
                let f = fi.push(last);
                assert(!has_member(init, last.address)) by {
                    if has_member(init, last.address) {
                        let i = choose|i: int| 0 <= i < init.len() && (#[trigger] init[i]).address == last.address;
                        assert(s[i] == init[i]);
                        assert(s[s.len() - 1] == last);
                    }
                }
                assert forall|i: int, j: int| 0 <= i < j < f.len() implies (#[trigger] f[i]).address
                    != (#[trigger] f[j]).address by {
                    if j == f.len() - 1 {
                        assert(f[i] == fi[i]);
                        assert(f[j] == last);
                        if f[i].address == last.address {
                            assert(has_member(fi, last.address));
                        }
                    } else {
                        assert(f[i] == fi[i] && f[j] == fi[j]);
                    }
                }
            }
        }
        if forall|i: int| 0 <= i < s.len() && is_owner(#[trigger] s[i]) ==> s[i].address != a {
            assert forall|i: int| 0 <= i < init.len() && is_owner(#[trigger] init[i]) implies init[i].address != a by {
                assert(s[i] == init[i]);
            }
            assert(s[s.len() - 1] == last);
        }
        if !has_member(s, a) {
            assert(!has_member(init, a));
            assert(p(last));
        }
    } else {
        assert(s.filter(p) =~= s);
    }
}

/// A new team has exactly one owner, and no address twice.
pub proof fn law_initialize_team(admin: Pubkey)
    ensures
        unique_members(seq![Member { address: admin, role: Role::Owner }]),
        owner_count(seq![Member { address: admin, role: Role::Owner }]) == 1,
{
    let s = seq![Member { address: admin, role: Role::Owner }];
    Seq::<Member>::empty().lemma_filter_push(s[0], |m: Member| is_owner(m));
    assert(Seq::<Member>::empty().push(s[0]) =~= s);
    reveal(Seq::filter);
    assert(Seq::<Member>::empty().filter(|m: Member| is_owner(m)) =~= Seq::<Member>::empty());
}

/// Adding a member keeps every address once and the number of owners
/// unchanged, and the new member is on the team.
pub proof fn law_add_member_keeps_team(s: Seq<Member>, admin: Pubkey, new_member: Pubkey, role: Role)
    requires
        unique_members(s),
        spec_add_member(s, admin, new_member, role) is Ok,
    ensures
        ({
            let t = spec_add_member(s, admin, new_member, role)->Ok_0;
            &&& unique_members(t)
            &&& owner_count(t) == owner_count(s)
            &&& has_member(t, new_member)
            &&& forall|b: Pubkey| b != new_member ==> has_member(t, b) == has_member(s, b)
        }),
{
    let m = Member { address: new_member, role };
    let t = s.push(m);
    s.lemma_filter_push(m, |x: Member| is_owner(x));
    assert forall|i: int, j: int| 0 <= i < j < t.len() implies (#[trigger] t[i]).address != (#[trigger] t[j]).address by {
        if j == t.len() - 1 {
            assert(t[i] == s[i]);
            if s[i].address == new_member {
                assert(has_member(s, new_member));
            }
        } else {
            assert(t[i] == s[i] && t[j] == s[j]);
        }
    }
    assert(t[t.len() - 1] == m);
    assert forall|b: Pubkey| b != new_member implies has_member(t, b) == has_member(s, b) by {
        if has_member(t, b) {
            let i = choose|i: int| 0 <= i < t.len() && (#[trigger] t[i]).address == b;
            assert(i < s.len());
            assert(s[i] == t[i]);
        }
        if has_member(s, b) {
            let i = choose|i: int| 0 <= i < s.len() && (#[trigger] s[i]).address == b;
            assert(t[i] == s[i]);
        }
    }
}

/// Removing a member keeps every address once and the number of owners
/// unchanged (the owner cannot be removed); the member is gone and every
/// other member stays.
pub proof fn law_remove_member_keeps_team(s: Seq<Member>, admin: Pubkey, member: Pubkey)
    requires
        unique_members(s),
        spec_remove_member(s, admin, member) is Ok,
    ensures
        ({
            let t = spec_remove_member(s, admin, member)->Ok_0;
            &&& unique_members(t)
            &&& owner_count(t) == owner_count(s)
            &&& !has_member(t, member)
            &&& forall|b: Pubkey| b != member ==> has_member(t, b) == has_member(s, b)
        }),
{
    let k = choose|k: int| is_first_match(s, member, k);
    assert(is_first_match(s, member, k));
    lemma_first_match_role(s, member, k);
    assert forall|i: int| 0 <= i < s.len() && is_owner(#[trigger] s[i]) implies s[i].address != member by {
        if s[i].address == member && i != k {
            if i < k {
                assert(s[i].address != member);
            } else {
                assert(s[k].address != s[i].address);
            }
        }
    }
    lemma_filter_members(s, member);
}

/// Adding a member and then removing it, by the same admin, gives back the
/// team as it was.
pub proof fn law_add_then_remove_restores(s: Seq<Member>, admin: Pubkey, new_member: Pubkey, role: Role)
    requires
        unique_members(s),
        spec_add_member(s, admin, new_member, role) is Ok,
    ensures
        spec_remove_member(spec_add_member(s, admin, new_member, role)->Ok_0, admin, new_member) == Ok::<
            Seq<Member>,
            ErrorCodes,
        >(s),
{
    let m = Member { address: new_member, role };
    let t = s.push(m);
    assert(t[t.len() - 1] == m);
    assert(is_first_match(t, new_member, s.len() as int)) by {
        assert forall|j: int| 0 <= j < s.len() implies (#[trigger] t[j]).address != new_member by {
            assert(t[j] == s[j]);
            if s[j].address == new_member {
                assert(has_member(s, new_member));
            }
        }
    }
    lemma_first_match_role(t, new_member, s.len() as int);
    let k = choose|k: int| is_first_match(s, admin, k);
    assert(is_first_match(s, admin, k));
    lemma_first_match_role(s, admin, k);
    assert(is_first_match(t, admin, k)) by {
        assert(t[k] == s[k]);
        assert forall|j: int| 0 <= j < k implies (#[trigger] t[j]).address != admin by {
            assert(t[j] == s[j]);
        }
    }
    lemma_first_match_role(t, admin, k);
    s.lemma_filter_push(m, not_address(new_member));
    lemma_filter_members(s, new_member);
}


/// Nobody is added as an owner, and only the owner or an admin adds
/// members: a moderator or an outsider is refused.
pub proof fn law_only_owner_or_admin_adds(s: Seq<Member>, admin: Pubkey, new_member: Pubkey, role: Role)
    ensures
        role == Role::Owner ==> spec_add_member(s, admin, new_member, role) == Err::<Seq<Member>, ErrorCodes>(
            ErrorCodes::Unauthorized,
        ),
        spec_add_member(s, admin, new_member, role) is Ok ==> (role_of(s, admin) == Some(Role::Owner) || role_of(
            s,
            admin,
        ) == Some(Role::Admin)) && role != Role::Owner && !has_member(s, new_member),
{
}

/// Only the owner or an admin removes members, and never the owner.
pub proof fn law_only_owner_or_admin_removes(s: Seq<Member>, admin: Pubkey, member: Pubkey)
    ensures
        spec_remove_member(s, admin, member) is Ok ==> (role_of(s, admin) == Some(Role::Owner) || role_of(
            s,
            admin,
        ) == Some(Role::Admin)) && role_of(s, member) is Some && role_of(s, member) != Some(Role::Owner),
{
}

} // verus!
