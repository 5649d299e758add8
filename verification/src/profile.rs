//! Profile updates: apply a partial change set to the owning user's
//! record, enforcing the same uniqueness constraints as registration.

use vstd::prelude::*;
use vstd::pervasive::VecAdditionalExecFns;

use crate::store::seq_has_user_id;
use crate::store::CredentialStore;
use crate::store::User;
use crate::validate::eq_ignore_case;
use crate::validate::str_eq;
use crate::validate::str_eq_ignore_case;

verus! {

/// A partial profile change: absent fields stay as they are.
pub struct UpdateUser {
    pub username: Option<String>,
    pub email: Option<String>,
    pub phone_number: Option<String>,
    pub bio: Option<String>,
    pub profile_pic: Option<String>,
}

/// Failure of a profile update.
#[derive(Debug)]
pub enum UpdateError {
    NotFound,
    UsernameTaken,
    EmailTaken,
    PhoneTaken,
}

/// The record after a change set lands on a user row.
pub open spec fn apply_changes(u: User, c: UpdateUser) -> User {
    User {
        id: u.id,
        username: match c.username {
            Some(name) => name,
            None => u.username,
        },
        email: match c.email {
            Some(email) => email,
            None => u.email,
        },
        phone_number: match c.phone_number {
            Some(phone) => phone,
            None => u.phone_number,
        },
        two_factor_auth: u.two_factor_auth,
        password_hash: u.password_hash,
        profile_pic: match c.profile_pic {
            Some(pic) => Some(pic),
            None => u.profile_pic,
        },
        bio: match c.bio {
            Some(bio) => Some(bio),
            None => u.bio,
        },
        created_at: u.created_at,
    }
}

/// A changed field would collide with a row other than `i`'s.
pub open spec fn update_conflicts(users: Seq<User>, i: int, c: UpdateUser) -> bool {
    exists|j: int|
        #![trigger users[j]]
        0 <= j < users.len() && j != i && {
            ||| (c.username matches Some(name) && eq_ignore_case(users[j].username@, name@))
            ||| (c.email matches Some(email) && eq_ignore_case(users[j].email@, email@))
            ||| (c.phone_number matches Some(phone) && users[j].phone_number@ == phone@)
        }
}

/// Apply a validated change set to the user's own record; the owning row
/// is found by id, and a username (case-insensitive), email or phone
/// collision with any other row rejects the whole update.
#[verifier::rlimit(60)]
pub fn apply_profile_update(store: &mut CredentialStore, user_id: u64, changes: UpdateUser) -> (r:
    Result<bool, UpdateError>)
    requires
        old(store).wf(),
    ensures
        final(store).wf(),
        final(store).friend_requests@ == old(store).friend_requests@,
        final(store).friendships@ == old(store).friendships@,
        final(store).next_id == old(store).next_id,
        match r {
            Ok(_) => exists|i: int|
                {
                    &&& 0 <= i < old(store).users@.len()
                    &&& #[trigger] old(store).users@[i].id == user_id
                    &&& !update_conflicts(old(store).users@, i, changes)
                    &&& final(store).users@ == old(store).users@.update(
                        i,
                        apply_changes(old(store).users@[i], changes),
                    )
                },
            Err(UpdateError::NotFound) => *final(store) == *old(store) && !old(
                store,
            ).has_user_id(user_id),
            Err(_) => *final(store) == *old(store) && exists|i: int|
                {
                    &&& 0 <= i < old(store).users@.len()
                    &&& #[trigger] old(store).users@[i].id == user_id
                    &&& update_conflicts(old(store).users@, i, changes)
                },
        },
{
    let n = store.users.len();
    let mut idx: usize = 0;
    let mut found = false;
    let mut k: usize = 0;
    while k < n
        invariant
            k <= n == store.users@.len(),
            !found ==> forall|j: int| 0 <= j < k ==> #[trigger] store.users@[j].id != user_id,
            found ==> idx < k && store.users@[idx as int].id == user_id,
        decreases n - k,
    {
        if !found && store.users[k].id == user_id {
            idx = k;
            found = true;
        }
        k = k + 1;
    }
    if !found {
        return Err(UpdateError::NotFound);
    }

    // Check each changed unique field against every other row.
    let mut j: usize = 0;
    while j < n
        invariant
            j <= n == store.users@.len(),
            *store == *old(store),
            old(store).wf(),
            idx < n,
            store.users@[idx as int].id == user_id,
            forall|m: int|
                #![trigger store.users@[m]]
                0 <= m < j && m != idx ==> !{
                    ||| (changes.username matches Some(name) && eq_ignore_case(
                        store.users@[m].username@,
                        name@,
                    ))
                    ||| (changes.email matches Some(email) && eq_ignore_case(
                        store.users@[m].email@,
                        email@,
                    ))
                    ||| (changes.phone_number matches Some(phone) && store.users@[m].phone_number@
                        == phone@)
                },
        decreases n - j,
    {
        if j != idx {
            if let Some(name) = &changes.username {
                if str_eq_ignore_case(store.users[j].username.as_str(), name.as_str()) {
                    proof {
                        assert(update_conflicts(store.users@, idx as int, changes));
                    }
                    return Err(UpdateError::UsernameTaken);
                }
            }
            if let Some(email) = &changes.email {
                if str_eq_ignore_case(store.users[j].email.as_str(), email.as_str()) {
                    proof {
                        assert(update_conflicts(store.users@, idx as int, changes));
                    }
                    return Err(UpdateError::EmailTaken);
                }
            }
            if let Some(phone) = &changes.phone_number {
                if str_eq(store.users[j].phone_number.as_str(), phone.as_str()) {
                    proof {
                        assert(update_conflicts(store.users@, idx as int, changes));
                    }
                    return Err(UpdateError::PhoneTaken);
                }
            }
        }
        j = j + 1;
    }

    let old_row = store.users[idx].clone();
    let updated = User {
        id: old_row.id,
        username: match changes.username {
            Some(name) => name,
            None => old_row.username,
        },
        email: match changes.email {
            Some(email) => email,
            None => old_row.email,
        },
        phone_number: match changes.phone_number {
            Some(phone) => phone,
            None => old_row.phone_number,
        },
        two_factor_auth: old_row.two_factor_auth,
        password_hash: old_row.password_hash,
        profile_pic: match changes.profile_pic {
            Some(pic) => Some(pic),
            None => old_row.profile_pic,
        },
        bio: match changes.bio {
            Some(bio) => Some(bio),
            None => old_row.bio,
        },
        created_at: old_row.created_at,
    };
    store.users.set(idx, updated);
    proof {
        let pre = *old(store);
        let post = *store;
        let i = idx as int;
        assert(post.users@ == pre.users@.update(i, apply_changes(pre.users@[i], changes)));
        assert(!update_conflicts(pre.users@, i, changes));
        // Ids are unchanged row by row, so lookups and referential
        // integrity carry over.
        assert forall|id: u64| seq_has_user_id(pre.users@, id) == seq_has_user_id(
            post.users@,
            id,
        ) by {
            if seq_has_user_id(pre.users@, id) {
                let w = choose|w: int| 0 <= w < pre.users@.len() && #[trigger] pre.users@[w].id
                    == id;
                assert(post.users@[w].id == id);
            }
            if seq_has_user_id(post.users@, id) {
                let w = choose|w: int| 0 <= w < post.users@.len() && #[trigger] post.users@[w].id
                    == id;
                assert(pre.users@[w].id == id);
            }
        }
        assert(post.users_wf()) by {
            assert forall|a: int, b: int| 0 <= a < b < post.users@.len() implies #[trigger] post
                .users@[a].id != #[trigger] post.users@[b].id by {
                assert(pre.users@[a].id != pre.users@[b].id);
            }
            assert forall|a: int, b: int| 0 <= a < b < post.users@.len() implies !eq_ignore_case(
                #[trigger] post.users@[a].username@,
                #[trigger] post.users@[b].username@,
            ) by {
                if a != i && b != i {
                    assert(!eq_ignore_case(pre.users@[a].username@, pre.users@[b].username@));
                }
            }
            assert forall|a: int, b: int| 0 <= a < b < post.users@.len() implies !eq_ignore_case(
                #[trigger] post.users@[a].email@,
                #[trigger] post.users@[b].email@,
            ) by {
                if a != i && b != i {
                    assert(!eq_ignore_case(pre.users@[a].email@, pre.users@[b].email@));
                }
            }
            assert forall|a: int, b: int| 0 <= a < b < post.users@.len() implies #[trigger] post
                .users@[a].phone_number@ != #[trigger] post.users@[b].phone_number@ by {
                if a != i && b != i {
                    assert(pre.users@[a].phone_number@ != pre.users@[b].phone_number@);
                }
            }
            assert forall|a: int| 0 <= a < post.users@.len() implies #[trigger] post.users@[a].id
                < post.next_id by {
                assert(pre.users@[a].id < pre.next_id);
            }
        }
        assert(post.requests_wf()) by {
            assert(post.friend_requests@ == pre.friend_requests@);
            assert forall|m: int| 0 <= m < post.friend_requests@.len() implies #[trigger] post
                .friend_requests@[m].requester != post.friend_requests@[m].receiver
                && seq_has_user_id(post.users@, post.friend_requests@[m].requester)
                && seq_has_user_id(post.users@, post.friend_requests@[m].receiver) by {
                assert(pre.friend_requests@[m].requester != pre.friend_requests@[m].receiver);
                assert(seq_has_user_id(pre.users@, pre.friend_requests@[m].requester));
                assert(seq_has_user_id(pre.users@, pre.friend_requests@[m].receiver));
            }
            assert forall|m1: int, m2: int| 0 <= m1 < m2 < post.friend_requests@.len()
                implies #[trigger] post.friend_requests@[m1] != #[trigger] post
                .friend_requests@[m2] by {
                assert(pre.friend_requests@[m1] != pre.friend_requests@[m2]);
            }
        }
        assert(post.friendships_wf()) by {
            assert(post.friendships@ == pre.friendships@);
            assert forall|m: int| 0 <= m < post.friendships@.len() implies #[trigger] post
                .friendships@[m].user1 != post.friendships@[m].user2 && seq_has_user_id(
                post.users@,
                post.friendships@[m].user1,
            ) && seq_has_user_id(post.users@, post.friendships@[m].user2) by {
                assert(pre.friendships@[m].user1 != pre.friendships@[m].user2);
                assert(seq_has_user_id(pre.users@, pre.friendships@[m].user1));
                assert(seq_has_user_id(pre.users@, pre.friendships@[m].user2));
            }
            assert forall|m1: int, m2: int| 0 <= m1 < m2 < post.friendships@.len()
                implies !crate::store::same_edge(
                #[trigger] post.friendships@[m1],
                #[trigger] post.friendships@[m2],
            ) by {
                assert(!crate::store::same_edge(pre.friendships@[m1], pre.friendships@[m2]));
            }
        }
    }
    Ok(true)
}

/// Another account than `id`'s already holds this username,
/// case-insensitively.
pub open spec fn username_taken_by_other(users: Seq<User>, id: u64, name: Seq<char>) -> bool {
    exists|j: int|
        #![trigger users[j]]
        0 <= j < users.len() && users[j].id != id && eq_ignore_case(users[j].username@, name)
}

/// Another account than `id`'s already holds this email,
/// case-insensitively.
pub open spec fn email_taken_by_other(users: Seq<User>, id: u64, email: Seq<char>) -> bool {
    exists|j: int|
        #![trigger users[j]]
        0 <= j < users.len() && users[j].id != id && eq_ignore_case(users[j].email@, email)
}

/// Another account than `id`'s already holds this phone number.
pub open spec fn phone_taken_by_other(users: Seq<User>, id: u64, phone: Seq<char>) -> bool {
    exists|j: int|
        #![trigger users[j]]
        0 <= j < users.len() && users[j].id != id && users[j].phone_number@ == phone
}

/// Whether a username is already held by an account other than `id`'s.
pub fn username_taken_by_other_exec(store: &CredentialStore, id: u64, name: &str) -> (r: bool)
    ensures
        r == username_taken_by_other(store.users@, id, name@),
{
    let n = store.users.len();
    let mut j: usize = 0;
    while j < n
        invariant
            j <= n == store.users@.len(),
            forall|m: int|
                #![trigger store.users@[m]]
                0 <= m < j ==> !(store.users@[m].id != id && eq_ignore_case(
                    store.users@[m].username@,
                    name@,
                )),
        decreases n - j,
    {
        if store.users[j].id != id && str_eq_ignore_case(store.users[j].username.as_str(), name) {
            return true;
        }
        j = j + 1;
    }
    false
}

/// Whether an email is already held by an account other than `id`'s.
pub fn email_taken_by_other_exec(store: &CredentialStore, id: u64, email: &str) -> (r: bool)
    ensures
        r == email_taken_by_other(store.users@, id, email@),
{
    let n = store.users.len();
    let mut j: usize = 0;
    while j < n
        invariant
            j <= n == store.users@.len(),
            forall|m: int|
                #![trigger store.users@[m]]
                0 <= m < j ==> !(store.users@[m].id != id && eq_ignore_case(
                    store.users@[m].email@,
                    email@,
                )),
        decreases n - j,
    {
        if store.users[j].id != id && str_eq_ignore_case(store.users[j].email.as_str(), email) {
            return true;
        }
        j = j + 1;
    }
    false
}

/// Whether a phone number is already held by an account other than `id`'s.
pub fn phone_taken_by_other_exec(store: &CredentialStore, id: u64, phone: &str) -> (r: bool)
    ensures
        r == phone_taken_by_other(store.users@, id, phone@),
{
    let n = store.users.len();
    let mut j: usize = 0;
    while j < n
        invariant
            j <= n == store.users@.len(),
            forall|m: int|
                #![trigger store.users@[m]]
                0 <= m < j ==> !(store.users@[m].id != id && store.users@[m].phone_number@
                    == phone@),
        decreases n - j,
    {
        if store.users[j].id != id && str_eq(store.users[j].phone_number.as_str(), phone) {
            return true;
        }
        j = j + 1;
    }
    false
}

/// At the row carrying `users[i].id`, a change set conflicts exactly when
/// one of its supplied unique fields is already held by another account —
/// provided ids are unique, so no second row shares that id.
pub proof fn lemma_conflicts_iff_taken(users: Seq<User>, i: int, c: UpdateUser)
    requires
        0 <= i < users.len(),
        forall|a: int, b: int|
            0 <= a < b < users.len() ==> #[trigger] users[a].id != #[trigger] users[b].id,
    ensures
        update_conflicts(users, i, c) <==> {
            ||| (c.username is Some && username_taken_by_other(users, users[i].id, c.username->0@))
            ||| (c.email is Some && email_taken_by_other(users, users[i].id, c.email->0@))
            ||| (c.phone_number is Some && phone_taken_by_other(
                users,
                users[i].id,
                c.phone_number->0@,
            ))
        },
{
    if update_conflicts(users, i, c) {
        let j = choose|j: int|
            #![trigger users[j]]
            0 <= j < users.len() && j != i && {
                ||| (c.username matches Some(name) && eq_ignore_case(users[j].username@, name@))
                ||| (c.email matches Some(email) && eq_ignore_case(users[j].email@, email@))
                ||| (c.phone_number matches Some(phone) && users[j].phone_number@ == phone@)
            };
        if j < i {
            assert(users[j].id != users[i].id);
        } else {
            assert(users[i].id != users[j].id);
        }
    }
    if c.username is Some && username_taken_by_other(users, users[i].id, c.username->0@) {
        let j = choose|j: int|
            #![trigger users[j]]
            0 <= j < users.len() && users[j].id != users[i].id && eq_ignore_case(
                users[j].username@,
                c.username->0@,
            );
        assert(j != i);
        assert(update_conflicts(users, i, c));
    }
    if c.email is Some && email_taken_by_other(users, users[i].id, c.email->0@) {
        let j = choose|j: int|
            #![trigger users[j]]
            0 <= j < users.len() && users[j].id != users[i].id && eq_ignore_case(
                users[j].email@,
                c.email->0@,
            );
        assert(j != i);
        assert(update_conflicts(users, i, c));
    }
    if c.phone_number is Some && phone_taken_by_other(users, users[i].id, c.phone_number->0@) {
        let j = choose|j: int|
            #![trigger users[j]]
            0 <= j < users.len() && users[j].id != users[i].id && users[j].phone_number@
                == c.phone_number->0@;
        assert(j != i);
        assert(update_conflicts(users, i, c));
    }
}

/// Check a proposed new username: `Ok(true)` for a well-formed name that
/// no other account holds (case-insensitively), `Ok(false)` for a
/// malformed name, and the conflict error for a name already taken.
pub fn validate_new_username(store: &CredentialStore, new_username: &str) -> (r: Result<
    bool,
    UpdateError,
>)
    ensures
        r matches Ok(true) ==> crate::validate::spec_valid_username(new_username@)
            && !store.has_username_ci(new_username@),
        r matches Ok(false) <==> !crate::validate::spec_valid_username(new_username@),
        r is Err ==> store.has_username_ci(new_username@),
{
    if !crate::validate::validate_existing_username(new_username) {
        return Ok(false);
    }
    match store.find_user_by_username_ci(new_username) {
        Some(_) => Err(UpdateError::UsernameTaken),
        None => Ok(true),
    }
}

} // verus!
