//! Credential store: the persisted user records and the friendship /
//! friend-request relation, held as in-memory tables whose well-formedness
//! captures the relational constraints the engines rely on (unique ids,
//! case-insensitively unique usernames, unique email and phone, request and
//! edge uniqueness, no self-edges, referential integrity).

use vstd::prelude::*;

use crate::password::bcrypt_matches;
use crate::password::verify_password;
use crate::validate::eq_ignore_case;
use crate::validate::str_eq;
use crate::validate::str_eq_ignore_case;

verus! {

/// A user account row.
pub struct User {
    pub id: u64,
    pub username: String,
    pub email: String,
    pub phone_number: String,
    pub two_factor_auth: bool,
    pub password_hash: String,
    pub profile_pic: Option<String>,
    pub bio: Option<String>,
    pub created_at: u64,
}

impl Clone for User {
    fn clone(&self) -> (r: Self)
        ensures
            r == *self,
    {
        User {
            id: self.id,
            username: self.username.clone(),
            email: self.email.clone(),
            phone_number: self.phone_number.clone(),
            two_factor_auth: self.two_factor_auth,
            password_hash: self.password_hash.clone(),
            profile_pic: match &self.profile_pic {
                Some(p) => Some(p.clone()),
                None => None,
            },
            bio: match &self.bio {
                Some(b) => Some(b.clone()),
                None => None,
            },
            created_at: self.created_at,
        }
    }
}

/// A pending, directed friend request row.
#[derive(Clone, Copy, PartialEq, Eq, Structural)]
pub struct FriendRequest {
    pub requester: u64,
    pub receiver: u64,
}

/// A confirmed friendship row; the pair is undirected, so queries consider
/// both column orders.
#[derive(Clone, Copy, PartialEq, Eq, Structural)]
pub struct Friendship {
    pub user1: u64,
    pub user2: u64,
}

/// Outcome of inserting a user row.
#[derive(Debug)]
pub enum AddUserError {
    UsernameTaken,
    EmailTaken,
    PhoneTaken,
    StoreFull,
}

pub struct CredentialStore {
    pub users: Vec<User>,
    pub friend_requests: Vec<FriendRequest>,
    pub friendships: Vec<Friendship>,
    pub next_id: u64,
}

/// A row with this user id exists among `users`.
pub open spec fn seq_has_user_id(users: Seq<User>, id: u64) -> bool {
    exists|i: int| 0 <= i < users.len() && #[trigger] users[i].id == id
}

/// `name` resolves, case-insensitively, to the row with this id.
pub open spec fn seq_resolves_username(users: Seq<User>, name: Seq<char>, id: u64) -> bool {
    exists|i: int|
        0 <= i < users.len() && eq_ignore_case(#[trigger] users[i].username@, name) && users[i].id
            == id
}

pub open spec fn seq_has_username_ci(users: Seq<User>, name: Seq<char>) -> bool {
    exists|i: int| 0 <= i < users.len() && eq_ignore_case(#[trigger] users[i].username@, name)
}

pub open spec fn seq_has_email(users: Seq<User>, email: Seq<char>) -> bool {
    exists|i: int| 0 <= i < users.len() && eq_ignore_case(#[trigger] users[i].email@, email)
}

pub open spec fn seq_has_phone(users: Seq<User>, phone: Seq<char>) -> bool {
    exists|i: int| 0 <= i < users.len() && #[trigger] users[i].phone_number@ == phone
}

impl CredentialStore {
    pub open spec fn has_user_id(self, id: u64) -> bool {
        seq_has_user_id(self.users@, id)
    }

    /// `name` resolves, case-insensitively, to the user with this id.
    pub open spec fn resolves_username(self, name: Seq<char>, id: u64) -> bool {
        seq_resolves_username(self.users@, name, id)
    }

    pub open spec fn has_username_ci(self, name: Seq<char>) -> bool {
        seq_has_username_ci(self.users@, name)
    }

    pub open spec fn has_email(self, email: Seq<char>) -> bool {
        seq_has_email(self.users@, email)
    }

    pub open spec fn has_phone(self, phone: Seq<char>) -> bool {
        seq_has_phone(self.users@, phone)
    }

    /// A pending request from `requester` to `receiver` exists.
    pub open spec fn has_request(self, requester: u64, receiver: u64) -> bool {
        self.friend_requests@.contains(FriendRequest { requester, receiver })
    }

    /// A friendship edge between `a` and `b` exists, in either column order.
    pub open spec fn are_friends(self, a: u64, b: u64) -> bool {
        self.friendships@.contains(Friendship { user1: a, user2: b })
            || self.friendships@.contains(Friendship { user1: b, user2: a })
    }

    /// How many friendship rows join `a` and `b`, counting both column
    /// orders; well-formedness keeps this at most one.
    pub open spec fn edge_count(self, a: u64, b: u64) -> nat {
        self.friendships@.filter(
            |f: Friendship|
                (f.user1 == a && f.user2 == b) || (f.user1 == b && f.user2 == a),
        ).len()
    }

    pub open spec fn users_wf(self) -> bool {
        seq_users_wf(self.users@, self.next_id)
    }

    pub open spec fn requests_wf(self) -> bool {
        seq_requests_wf(self.friend_requests@, self.users@)
    }

    pub open spec fn friendships_wf(self) -> bool {
        seq_friendships_wf(self.friendships@, self.users@)
    }

    pub open spec fn wf(self) -> bool {
        &&& self.users_wf()
        &&& self.requests_wf()
        &&& self.friendships_wf()
    }

    /// An empty store.
    pub fn new() -> (r: CredentialStore)
        ensures
            r.wf(),
            r.users@ =~= Seq::<User>::empty(),
            r.friend_requests@ =~= Seq::<FriendRequest>::empty(),
            r.friendships@ =~= Seq::<Friendship>::empty(),
            r.next_id == 1,
    {
        CredentialStore {
            users: Vec::new(),
            friend_requests: Vec::new(),
            friendships: Vec::new(),
            next_id: 1,
        }
    }

    fn find_index_by_id(&self, user_id: u64) -> (r: Option<usize>)
        ensures
            match r {
                Some(i) => i < self.users@.len() && self.users@[i as int].id == user_id,
                None => !self.has_user_id(user_id),
            },
    {
        let n = self.users.len();
        let mut i: usize = 0;
        while i < n
            invariant
                i <= n == self.users@.len(),
                forall|j: int| 0 <= j < i ==> #[trigger] self.users@[j].id != user_id,
            decreases n - i,
        {
            if self.users[i].id == user_id {
                return Some(i);
            }
            i = i + 1;
        }
        None
    }

    /// Look up a user row by id.
    pub fn get_user_by_id(&self, user_id: u64) -> (r: Option<&User>)
        ensures
            match r {
                Some(u) => self.users@.contains(*u) && u.id == user_id,
                None => !self.has_user_id(user_id),
            },
    {
        match self.find_index_by_id(user_id) {
            Some(i) => Some(&self.users[i]),
            None => None,
        }
    }

    /// Whether a user row with this id exists.
    pub fn contains_user(&self, user_id: u64) -> (r: bool)
        ensures
            r == self.has_user_id(user_id),
    {
        match self.find_index_by_id(user_id) {
            Some(_) => true,
            None => false,
        }
    }

    /// Look up a user row by exact username.
    pub fn find_user_by_username(&self, username: &str) -> (r: Option<&User>)
        ensures
            match r {
                Some(u) => self.users@.contains(*u) && u.username@ == username@,
                None => forall|i: int|
                    0 <= i < self.users@.len() ==> #[trigger] self.users@[i].username@
                        != username@,
            },
    {
        let n = self.users.len();
        let mut i: usize = 0;
        while i < n
            invariant
                i <= n == self.users@.len(),
                forall|j: int| 0 <= j < i ==> #[trigger] self.users@[j].username@ != username@,
            decreases n - i,
        {
            if str_eq(self.users[i].username.as_str(), username) {
                return Some(&self.users[i]);
            }
            i = i + 1;
        }
        None
    }

    /// Look up a user row by username, case-insensitively.
    pub fn find_user_by_username_ci(&self, username: &str) -> (r: Option<&User>)
        ensures
            match r {
                Some(u) => self.users@.contains(*u) && eq_ignore_case(u.username@, username@)
                    && self.resolves_username(username@, u.id),
                None => !self.has_username_ci(username@),
            },
    {
        let n = self.users.len();
        let mut i: usize = 0;
        while i < n
            invariant
                i <= n == self.users@.len(),
                forall|j: int|
                    0 <= j < i ==> !eq_ignore_case(#[trigger] self.users@[j].username@, username@),
            decreases n - i,
        {
            if str_eq_ignore_case(self.users[i].username.as_str(), username) {
                return Some(&self.users[i]);
            }
            i = i + 1;
        }
        None
    }

    pub(crate) fn has_username_ci_exec(&self, username: &str) -> (r: bool)
        ensures
            r == self.has_username_ci(username@),
    {
        match self.find_user_by_username_ci(username) {
            Some(_) => true,
            None => false,
        }
    }

    pub(crate) fn has_email_exec(&self, email: &str) -> (r: bool)
        ensures
            r == self.has_email(email@),
    {
        let n = self.users.len();
        let mut i: usize = 0;
        while i < n
            invariant
                i <= n == self.users@.len(),
                forall|j: int|
                    0 <= j < i ==> !eq_ignore_case(#[trigger] self.users@[j].email@, email@),
            decreases n - i,
        {
            if str_eq_ignore_case(self.users[i].email.as_str(), email) {
                return true;
            }
            i = i + 1;
        }
        false
    }

    pub(crate) fn has_phone_exec(&self, phone: &str) -> (r: bool)
        ensures
            r == self.has_phone(phone@),
    {
        let n = self.users.len();
        let mut i: usize = 0;
        while i < n
            invariant
                i <= n == self.users@.len(),
                forall|j: int| 0 <= j < i ==> #[trigger] self.users@[j].phone_number@ != phone@,
            decreases n - i,
        {
            if str_eq(self.users[i].phone_number.as_str(), phone) {
                return true;
            }
            i = i + 1;
        }
        false
    }
}

/// Two rows join the same unordered pair of users.
pub open spec fn same_edge(e: Friendship, f: Friendship) -> bool {
    (e.user1 == f.user1 && e.user2 == f.user2) || (e.user1 == f.user2 && e.user2 == f.user1)
}

/// Uniqueness of user ids, case-folded usernames, emails and phone
/// numbers, and the bound ids stay under the id counter.
pub open spec fn seq_users_wf(users: Seq<User>, next_id: u64) -> bool {
    &&& forall|i: int, j: int|
        0 <= i < j < users.len() ==> #[trigger] users[i].id != #[trigger] users[j].id
    &&& forall|i: int, j: int|
        0 <= i < j < users.len() ==> !eq_ignore_case(
            #[trigger] users[i].username@,
            #[trigger] users[j].username@,
        )
    &&& forall|i: int, j: int|
        0 <= i < j < users.len() ==> !eq_ignore_case(
            #[trigger] users[i].email@,
            #[trigger] users[j].email@,
        )
    &&& forall|i: int, j: int|
        0 <= i < j < users.len() ==> #[trigger] users[i].phone_number@
            != #[trigger] users[j].phone_number@
    &&& forall|i: int| 0 <= i < users.len() ==> #[trigger] users[i].id < next_id
}

/// No self-request, referential integrity, and per-pair uniqueness of
/// pending requests.
pub open spec fn seq_requests_wf(requests: Seq<FriendRequest>, users: Seq<User>) -> bool {
    &&& forall|i: int|
        0 <= i < requests.len() ==> #[trigger] requests[i].requester != requests[i].receiver
    &&& forall|i: int|
        0 <= i < requests.len() ==> seq_has_user_id(users, #[trigger] requests[i].requester)
            && seq_has_user_id(users, requests[i].receiver)
    &&& forall|i: int, j: int|
        0 <= i < j < requests.len() ==> #[trigger] requests[i] != #[trigger] requests[j]
}

/// No self-edge, referential integrity, and at most one edge per
/// unordered pair.
pub open spec fn seq_friendships_wf(friendships: Seq<Friendship>, users: Seq<User>) -> bool {
    &&& forall|i: int|
        0 <= i < friendships.len() ==> #[trigger] friendships[i].user1 != friendships[i].user2
    &&& forall|i: int|
        0 <= i < friendships.len() ==> seq_has_user_id(users, #[trigger] friendships[i].user1)
            && seq_has_user_id(users, friendships[i].user2)
    &&& forall|i: int, j: int|
        0 <= i < j < friendships.len() ==> !same_edge(
            #[trigger] friendships[i],
            #[trigger] friendships[j],
        )
}

/// The user row that `add_user_to_db` inserts.
pub open spec fn new_user_record(
    id: u64,
    username: String,
    email: String,
    phone_number: String,
    password_hash: String,
    now: u64,
) -> User {
    User {
        id,
        username,
        email,
        phone_number,
        two_factor_auth: false,
        password_hash,
        profile_pic: None,
        bio: None,
        created_at: now,
    }
}

/// Insert a new user row, enforcing the uniqueness constraints on
/// username (case-insensitive), email and phone number; on success the
/// fresh id is returned.
pub fn add_user_to_db(
    store: &mut CredentialStore,
    username: String,
    email: String,
    phone_number: String,
    password_hash: String,
    now: u64,
) -> (r: Result<u64, AddUserError>)
    requires
        old(store).wf(),
    ensures
        final(store).wf(),
        final(store).friend_requests@ == old(store).friend_requests@,
        final(store).friendships@ == old(store).friendships@,
        match r {
            Ok(id) => {
                &&& id == old(store).next_id
                &&& !old(store).has_username_ci(username@)
                &&& !old(store).has_email(email@)
                &&& !old(store).has_phone(phone_number@)
                &&& final(store).users@ == old(store).users@.push(
                    new_user_record(id, username, email, phone_number, password_hash, now),
                )
                &&& final(store).next_id == old(store).next_id + 1
                &&& final(store).has_user_id(id)
            },
            Err(AddUserError::UsernameTaken) => *final(store) == *old(store) && old(
                store,
            ).has_username_ci(username@),
            Err(AddUserError::EmailTaken) => *final(store) == *old(store) && !old(
                store,
            ).has_username_ci(username@) && old(store).has_email(email@),
            Err(AddUserError::PhoneTaken) => *final(store) == *old(store) && !old(
                store,
            ).has_username_ci(username@) && !old(store).has_email(email@) && old(store).has_phone(
                phone_number@,
            ),
            Err(AddUserError::StoreFull) => *final(store) == *old(store) && old(store).next_id
                == u64::MAX,
        },
{
    if store.has_username_ci_exec(username.as_str()) {
        return Err(AddUserError::UsernameTaken);
    }
    if store.has_email_exec(email.as_str()) {
        return Err(AddUserError::EmailTaken);
    }
    if store.has_phone_exec(phone_number.as_str()) {
        return Err(AddUserError::PhoneTaken);
    }
    if store.next_id == u64::MAX {
        return Err(AddUserError::StoreFull);
    }
    let id = store.next_id;
    let user = User {
        id,
        username,
        email,
        phone_number,
        two_factor_auth: false,
        password_hash,
        profile_pic: None,
        bio: None,
        created_at: now,
    };
    store.users.push(user);
    store.next_id = id + 1;
    proof {
        let post = *store;
        let pre = *old(store);
        let n = pre.users@.len() as int;
        assert(post.users@[n].id == id);
        assert forall|other: u64| pre.has_user_id(other) implies post.has_user_id(other) by {
            let i = choose|i: int| 0 <= i < pre.users@.len() && #[trigger] pre.users@[i].id == other;
            assert(post.users@[i].id == other);
        }
        assert(post.users_wf()) by {
            assert forall|i: int, j: int| 0 <= i < j < post.users@.len() implies #[trigger] post
                .users@[i].id != #[trigger] post.users@[j].id by {
                if j == n {
                    assert(pre.users@[i].id < pre.next_id);
                }
            }
            assert forall|i: int, j: int| 0 <= i < j < post.users@.len() implies !eq_ignore_case(
                #[trigger] post.users@[i].username@,
                #[trigger] post.users@[j].username@,
            ) by {
                if j == n {
                    assert(!eq_ignore_case(pre.users@[i].username@, post.users@[n].username@));
                }
            }
            assert forall|i: int, j: int| 0 <= i < j < post.users@.len() implies !eq_ignore_case(
                #[trigger] post.users@[i].email@,
                #[trigger] post.users@[j].email@,
            ) by {
                if j == n {
                    assert(!eq_ignore_case(pre.users@[i].email@, post.users@[n].email@));
                }
            }
            assert forall|i: int, j: int| 0 <= i < j < post.users@.len() implies #[trigger] post
                .users@[i].phone_number@ != #[trigger] post.users@[j].phone_number@ by {
                if j == n {
                    assert(pre.users@[i].phone_number@ != post.users@[n].phone_number@);
                }
            }
        }
        assert(post.requests_wf()) by {
            assert forall|i: int| 0 <= i < post.friend_requests@.len() implies post.has_user_id(
                #[trigger] post.friend_requests@[i].requester,
            ) && post.has_user_id(post.friend_requests@[i].receiver) by {
                assert(pre.has_user_id(pre.friend_requests@[i].requester));
                assert(pre.has_user_id(pre.friend_requests@[i].receiver));
            }
        }
        assert(post.friendships_wf()) by {
            assert forall|i: int| 0 <= i < post.friendships@.len() implies post.has_user_id(
                #[trigger] post.friendships@[i].user1,
            ) && post.has_user_id(post.friendships@[i].user2) by {
                assert(pre.has_user_id(pre.friendships@[i].user1));
                assert(pre.has_user_id(pre.friendships@[i].user2));
            }
        }
    }
    Ok(id)
}

/// Resolve a user by exact username and check the password against the
/// stored hash; any failure is indistinguishable to the caller.
pub fn authenticate_user<'a>(store: &'a CredentialStore, username: &str, password: &str) -> (r:
    Option<&'a User>)
    requires
        store.wf(),
    ensures
        match r {
            Some(u) => store.users@.contains(*u) && u.username@ == username@ && bcrypt_matches(
                password@,
                u.password_hash@,
            ),
            None => forall|i: int|
                0 <= i < store.users@.len() ==> (#[trigger] store.users@[i].username@ != username@
                    || !bcrypt_matches(password@, store.users@[i].password_hash@)),
        },
{
    match store.find_user_by_username(username) {
        Some(user) => {
            if verify_password(password, user.password_hash.as_str()) {
                Some(user)
            } else {
                proof {
                    // The exact-match row is unique, because usernames are
                    // unique even case-insensitively.
                    let k = choose|k: int|
                        0 <= k < store.users@.len() && store.users@[k] == *user;
                    assert forall|i: int| 0 <= i < store.users@.len() implies (
                    #[trigger] store.users@[i].username@ != username@ || !bcrypt_matches(
                        password@,
                        store.users@[i].password_hash@,
                    )) by {
                        if store.users@[i].username@ == username@ && i != k {
                            assert(eq_ignore_case(
                                store.users@[i].username@,
                                store.users@[k].username@,
                            ));
                        }
                    }
                }
                None
            }
        },
        None => None,
    }
}

} // verus!
