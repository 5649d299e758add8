//! Friendship engine: the request / accept / decline / remove workflow over
//! the credential store, enforcing the relationship invariants (no
//! self-requests, deduplicated requests, at most one undirected edge per
//! pair, idempotent removal).

use vstd::prelude::*;

use crate::store::CredentialStore;
use crate::store::FriendRequest;
use crate::store::Friendship;
use crate::store::User;
use crate::validate::eq_ignore_case;

verus! {

/// Outcome of sending a friend request.
#[derive(Debug)]
pub enum AddFriendResult {
    Created,
    AlreadyExists,
    AlreadyFriends,
}

/// Failure of a friendship operation: a reference did not resolve.
#[derive(Debug)]
pub enum FriendError {
    ReceiverNotFound,
    RequesterNotFound,
}

/// Outcome of resolving a pending request.
#[derive(Debug)]
pub enum UpdateFriendOutcome {
    Accepted,
    Declined,
    NotFound,
}

/// Whether a friendship edge between `a` and `b` exists in the store, in
/// either column order.
pub fn are_friends_exec(store: &CredentialStore, a: u64, b: u64) -> (r: bool)
    ensures
        r == store.are_friends(a, b),
{
    let n = store.friendships.len();
    let mut i: usize = 0;
    while i < n
        invariant
            i <= n == store.friendships@.len(),
            forall|j: int|
                0 <= j < i ==> #[trigger] store.friendships@[j] != (Friendship {
                    user1: a,
                    user2: b,
                }) && store.friendships@[j] != (Friendship { user1: b, user2: a }),
        decreases n - i,
    {
        let f = &store.friendships[i];
        if (f.user1 == a && f.user2 == b) || (f.user1 == b && f.user2 == a) {
            return true;
        }
        i = i + 1;
    }
    false
}

/// Whether a pending request from `requester` to `receiver` exists.
pub fn has_request_exec(store: &CredentialStore, requester: u64, receiver: u64) -> (r: bool)
    ensures
        r == store.has_request(requester, receiver),
{
    let n = store.friend_requests.len();
    let mut i: usize = 0;
    while i < n
        invariant
            i <= n == store.friend_requests@.len(),
            forall|j: int|
                0 <= j < i ==> #[trigger] store.friend_requests@[j] != (FriendRequest {
                    requester,
                    receiver,
                }),
        decreases n - i,
    {
        let f = &store.friend_requests[i];
        if f.requester == requester && f.receiver == receiver {
            return true;
        }
        i = i + 1;
    }
    false
}

fn has_user_id_exec(store: &CredentialStore, id: u64) -> (r: bool)
    ensures
        r == store.has_user_id(id),
{
    match store.get_user_by_id(id) {
        Some(u) => {
            proof {
                let k = choose|k: int|
                    0 <= k < store.users@.len() && store.users@[k] == *u;
                assert(store.users@[k].id == id);
            }
            true
        },
        None => false,
    }
}

/// What sending a friend request changes: users and friendships are
/// untouched; the result classifies the situation found, and exactly on
/// `Created` one request row for the resolved receiver is appended.
pub open spec fn add_request_post(
    pre: CredentialStore,
    post: CredentialStore,
    requester: u64,
    name: Seq<char>,
    r: Result<AddFriendResult, FriendError>,
) -> bool {
    &&& post.users@ == pre.users@
    &&& post.friendships@ == pre.friendships@
    &&& post.next_id == pre.next_id
    &&& match r {
        Ok(AddFriendResult::Created) => exists|rid: u64|
            {
                &&& #[trigger] pre.resolves_username(name, rid)
                &&& rid != requester
                &&& !pre.are_friends(requester, rid)
                &&& !pre.has_request(requester, rid)
                &&& pre.has_user_id(requester)
                &&& post.friend_requests@ == pre.friend_requests@.push(
                    FriendRequest { requester, receiver: rid },
                )
            },
        Ok(AddFriendResult::AlreadyExists) => {
            &&& post.friend_requests@ == pre.friend_requests@
            &&& (pre.resolves_username(name, requester) || exists|rid: u64|
                {
                    &&& #[trigger] pre.resolves_username(name, rid)
                    &&& rid != requester
                    &&& !pre.are_friends(requester, rid)
                    &&& pre.has_request(requester, rid)
                })
        },
        Ok(AddFriendResult::AlreadyFriends) => {
            &&& post.friend_requests@ == pre.friend_requests@
            &&& exists|rid: u64|
                {
                    &&& #[trigger] pre.resolves_username(name, rid)
                    &&& rid != requester
                    &&& pre.are_friends(requester, rid)
                }
        },
        Err(FriendError::ReceiverNotFound) => {
            &&& post.friend_requests@ == pre.friend_requests@
            &&& !pre.has_username_ci(name)
        },
        Err(FriendError::RequesterNotFound) => {
            &&& post.friend_requests@ == pre.friend_requests@
            &&& !pre.has_user_id(requester)
        },
    }
}

/// Send a friend request: resolve the receiver by username
/// (case-insensitively); a receiver equal to the requester or an existing
/// request makes this a deduplicated no-op, an existing friendship is
/// reported as such, and only a fresh pair gains a request row.
pub fn add_friend_request_to_db(
    store: &mut CredentialStore,
    requesting_id: u64,
    responding_username: &str,
) -> (r: Result<AddFriendResult, FriendError>)
    requires
        old(store).wf(),
    ensures
        final(store).wf(),
        add_request_post(*old(store), *final(store), requesting_id, responding_username@, r),
{
    let receiver_id = match store.find_user_by_username_ci(responding_username) {
        Some(u) => u.id,
        None => {
            return Err(FriendError::ReceiverNotFound);
        },
    };
    if receiver_id == requesting_id {
        // Cannot friend yourself; indistinguishable from a duplicate.
        return Ok(AddFriendResult::AlreadyExists);
    }
    if are_friends_exec(store, requesting_id, receiver_id) {
        return Ok(AddFriendResult::AlreadyFriends);
    }
    if !has_user_id_exec(store, requesting_id) {
        return Err(FriendError::RequesterNotFound);
    }
    if has_request_exec(store, requesting_id, receiver_id) {
        return Ok(AddFriendResult::AlreadyExists);
    }
    store.friend_requests.push(FriendRequest { requester: requesting_id, receiver: receiver_id });
    proof {
        let pre = *old(store);
        let post = *store;
        let n = pre.friend_requests@.len() as int;
        assert(post.requests_wf()) by {
            assert forall|i: int| 0 <= i < post.friend_requests@.len() implies post.has_user_id(
                #[trigger] post.friend_requests@[i].requester,
            ) && post.has_user_id(post.friend_requests@[i].receiver) by {
                if i < n {
                    assert(pre.has_user_id(pre.friend_requests@[i].requester));
                    assert(pre.has_user_id(pre.friend_requests@[i].receiver));
                } else {
                    assert(pre.resolves_username(responding_username@, receiver_id));
                    let k = choose|k: int|
                        0 <= k < pre.users@.len() && eq_ignore_case(
                            #[trigger] pre.users@[k].username@,
                            responding_username@,
                        ) && pre.users@[k].id == receiver_id;
                    assert(post.users@[k].id == receiver_id);
                }
            }
            assert forall|i: int, j: int|
                0 <= i < j < post.friend_requests@.len() implies #[trigger] post.friend_requests@[i]
                != #[trigger] post.friend_requests@[j] by {
                if j == n {
                    assert(!pre.has_request(requesting_id, receiver_id));
                    assert(pre.friend_requests@.contains(pre.friend_requests@[i]));
                }
            }
        }
        assert(post.friendships_wf()) by {
            assert forall|i: int| 0 <= i < post.friendships@.len() implies post.has_user_id(
                #[trigger] post.friendships@[i].user1,
            ) && post.has_user_id(post.friendships@[i].user2) by {
                assert(pre.has_user_id(pre.friendships@[i].user1));
                assert(pre.has_user_id(pre.friendships@[i].user2));
            }
        }
    }
    Ok(AddFriendResult::Created)
}

/// What resolving a request changes: if no matching request row exists the
/// store is untouched and the outcome says so; otherwise the row is
/// deleted, and on acceptance the friendship edge is created unless it
/// already exists.
pub open spec fn resolve_request_post(
    pre: CredentialStore,
    post: CredentialStore,
    responder: u64,
    requester: u64,
    accept: bool,
    r: UpdateFriendOutcome,
) -> bool {
    &&& post.users@ == pre.users@
    &&& post.next_id == pre.next_id
    &&& if !pre.has_request(requester, responder) {
        &&& r matches UpdateFriendOutcome::NotFound
        &&& post.friend_requests@ == pre.friend_requests@
        &&& post.friendships@ == pre.friendships@
    } else {
        &&& (r matches UpdateFriendOutcome::Accepted <==> accept)
        &&& (r matches UpdateFriendOutcome::Declined <==> !accept)
        &&& !post.has_request(requester, responder)
        &&& post.friend_requests@.len() == pre.friend_requests@.len() - 1
        &&& (forall|a: u64, b: u64|
            !(a == requester && b == responder) ==> #[trigger] post.has_request(a, b)
                == pre.has_request(a, b))
        &&& if accept && !pre.are_friends(requester, responder) {
            post.friendships@ == pre.friendships@.push(
                Friendship { user1: requester, user2: responder },
            )
        } else {
            post.friendships@ == pre.friendships@
        }
        &&& (accept ==> post.are_friends(requester, responder))
    }
}

/// Resolve a pending request from `requesting_user_id` to
/// `responding_user_id`: the request row is deleted first, then acceptance
/// inserts the edge (a no-op if it already exists) and declining ends
/// there. A request that no longer exists is reported as such and nothing
/// is inserted.
pub fn update_friend_request(
    store: &mut CredentialStore,
    responding_user_id: u64,
    requesting_user_id: u64,
    accept: bool,
) -> (r: UpdateFriendOutcome)
    requires
        old(store).wf(),
    ensures
        final(store).wf(),
        resolve_request_post(
            *old(store),
            *final(store),
            responding_user_id,
            requesting_user_id,
            accept,
            r,
        ),
{
    let target = FriendRequest { requester: requesting_user_id, receiver: responding_user_id };
    let n = store.friend_requests.len();
    let mut found: Option<usize> = None;
    let mut i: usize = 0;
    while i < n
        invariant
            i <= n == store.friend_requests@.len(),
            target == (FriendRequest {
                requester: requesting_user_id,
                receiver: responding_user_id,
            }),
            match found {
                Some(k) => k < i && store.friend_requests@[k as int] == target,
                None => forall|j: int| 0 <= j < i ==> #[trigger] store.friend_requests@[j]
                    != target,
            },
        decreases n - i,
    {
        if found.is_none() {
            let f = &store.friend_requests[i];
            if f.requester == requesting_user_id && f.receiver == responding_user_id {
                found = Some(i);
            }
        }
        i = i + 1;
    }
    let idx = match found {
        Some(k) => k,
        None => {
            return UpdateFriendOutcome::NotFound;
        },
    };
    proof {
        assert(old(store).friend_requests@.contains(target));
    }
    store.friend_requests.remove(idx);
    let ghost mid = *store;
    proof {
        let pre = *old(store);
        let post = mid;
        let m = pre.friend_requests@.len() as int;
        // After removing the unique matching row no occurrence remains,
        // and every other pair keeps its rows.
        assert forall|j: int| 0 <= j < post.friend_requests@.len() implies #[trigger] post
            .friend_requests@[j] != target by {
            if j < idx {
                assert(post.friend_requests@[j] == pre.friend_requests@[j]);
            } else {
                assert(post.friend_requests@[j] == pre.friend_requests@[j + 1]);
            }
        }
        assert(!post.has_request(requesting_user_id, responding_user_id));
        assert forall|a: u64, b: u64| !(a == requesting_user_id && b == responding_user_id)
            implies #[trigger] post.has_request(a, b) == pre.has_request(a, b) by {
            let fr = FriendRequest { requester: a, receiver: b };
            if pre.has_request(a, b) {
                let k = choose|k: int|
                    0 <= k < pre.friend_requests@.len() && pre.friend_requests@[k] == fr;
                if k < idx {
                    assert(post.friend_requests@[k] == fr);
                } else {
                    assert(k > idx);
                    assert(post.friend_requests@[k - 1] == fr);
                }
                assert(post.has_request(a, b));
            }
            if post.has_request(a, b) {
                let k = choose|k: int|
                    0 <= k < post.friend_requests@.len() && post.friend_requests@[k] == fr;
                if k < idx {
                    assert(pre.friend_requests@[k] == fr);
                } else {
                    assert(pre.friend_requests@[k + 1] == fr);
                }
                assert(pre.has_request(a, b));
            }
        }
        assert(post.requests_wf()) by {
            assert forall|j: int| 0 <= j < post.friend_requests@.len() implies #[trigger] post
                .friend_requests@[j].requester != post.friend_requests@[j].receiver
                && post.has_user_id(post.friend_requests@[j].requester) && post.has_user_id(
                post.friend_requests@[j].receiver,
            ) by {
                let jj = if j < idx {
                    j
                } else {
                    j + 1
                };
                assert(post.friend_requests@[j] == pre.friend_requests@[jj]);
                assert(pre.has_user_id(pre.friend_requests@[jj].requester));
                assert(pre.has_user_id(pre.friend_requests@[jj].receiver));
            }
            assert forall|j1: int, j2: int|
                0 <= j1 < j2 < post.friend_requests@.len() implies #[trigger] post
                .friend_requests@[j1] != #[trigger] post.friend_requests@[j2] by {
                let a1 = if j1 < idx {
                    j1
                } else {
                    j1 + 1
                };
                let a2 = if j2 < idx {
                    j2
                } else {
                    j2 + 1
                };
                assert(post.friend_requests@[j1] == pre.friend_requests@[a1]);
                assert(post.friend_requests@[j2] == pre.friend_requests@[a2]);
            }
        }
        assert(post.friendships_wf()) by {
            assert forall|j: int| 0 <= j < post.friendships@.len() implies post.has_user_id(
                #[trigger] post.friendships@[j].user1,
            ) && post.has_user_id(post.friendships@[j].user2) by {
                assert(pre.has_user_id(pre.friendships@[j].user1));
                assert(pre.has_user_id(pre.friendships@[j].user2));
            }
        }
    }
    if !accept {
        return UpdateFriendOutcome::Declined;
    }
    if !are_friends_exec(store, requesting_user_id, responding_user_id) {
        store.friendships.push(
            Friendship { user1: requesting_user_id, user2: responding_user_id },
        );
        proof {
            let pre = *old(store);
            let post = *store;
            let e = pre.friend_requests@[idx as int];
            assert(e.requester == requesting_user_id && e.receiver == responding_user_id);
            assert(requesting_user_id != responding_user_id);
            let ln = mid.friendships@.len() as int;
            assert(post.friendships_wf()) by {
                assert forall|j: int| 0 <= j < post.friendships@.len() implies post.has_user_id(
                    #[trigger] post.friendships@[j].user1,
                ) && post.has_user_id(post.friendships@[j].user2) by {
                    if j < ln {
                        assert(mid.has_user_id(mid.friendships@[j].user1));
                        assert(mid.has_user_id(mid.friendships@[j].user2));
                    } else {
                        assert(pre.has_user_id(requesting_user_id)) by {
                            assert(pre.friend_requests@.contains(e));
                        }
                        assert(pre.has_user_id(responding_user_id));
                        let k1 = choose|k: int|
                            0 <= k < pre.users@.len() && #[trigger] pre.users@[k].id
                                == requesting_user_id;
                        let k2 = choose|k: int|
                            0 <= k < pre.users@.len() && #[trigger] pre.users@[k].id
                                == responding_user_id;
                        assert(post.users@[k1].id == requesting_user_id);
                        assert(post.users@[k2].id == responding_user_id);
                    }
                }
                assert forall|j1: int, j2: int|
                    0 <= j1 < j2 < post.friendships@.len() implies !crate::store::same_edge(
                    #[trigger] post.friendships@[j1],
                    #[trigger] post.friendships@[j2],
                ) by {
                    if j2 == ln {
                        assert(!mid.are_friends(requesting_user_id, responding_user_id));
                        assert(mid.friendships@.contains(mid.friendships@[j1]));
                        if crate::store::same_edge(post.friendships@[j1], post.friendships@[j2]) {
                            let f1 = mid.friendships@[j1];
                            if f1.user1 == requesting_user_id && f1.user2 == responding_user_id {
                                assert(mid.friendships@.contains(
                                    Friendship {
                                        user1: requesting_user_id,
                                        user2: responding_user_id,
                                    },
                                ));
                            } else {
                                assert(mid.friendships@.contains(
                                    Friendship {
                                        user1: responding_user_id,
                                        user2: requesting_user_id,
                                    },
                                ));
                            }
                        }
                    }
                }
            }
            assert(post.are_friends(requesting_user_id, responding_user_id)) by {
                assert(post.friendships@[ln] == (Friendship {
                    user1: requesting_user_id,
                    user2: responding_user_id,
                }));
                assert(post.friendships@.contains(
                    Friendship { user1: requesting_user_id, user2: responding_user_id },
                ));
            }
        }
    }
    proof {
        // Carry the request-table facts from the state right after the
        // delete to the final state: the table itself did not change.
        assert(store.friend_requests@ == mid.friend_requests@);
        assert forall|a: u64, b: u64| !(a == requesting_user_id && b == responding_user_id)
            implies #[trigger] (*store).has_request(a, b) == old(store).has_request(a, b) by {
            assert((*store).has_request(a, b) == mid.has_request(a, b));
            assert(mid.has_request(a, b) == old(store).has_request(a, b));
        }
        assert(!(*store).has_request(requesting_user_id, responding_user_id)) by {
            assert(!mid.has_request(requesting_user_id, responding_user_id));
        }
        assert((*store).requests_wf()) by {
            assert(mid.requests_wf());
            assert(store.users@ == mid.users@);
        }
    }
    UpdateFriendOutcome::Accepted
}

/// What removing a friendship changes: only the edge between the two users
/// (in either column order) disappears; the count of deleted rows is
/// returned, and removing an absent edge deletes nothing.
pub open spec fn remove_friend_post(
    pre: CredentialStore,
    post: CredentialStore,
    user: u64,
    other: u64,
    removed: usize,
) -> bool {
    &&& post.users@ == pre.users@
    &&& post.friend_requests@ == pre.friend_requests@
    &&& post.next_id == pre.next_id
    &&& !post.are_friends(user, other)
    &&& (forall|a: u64, b: u64|
        !((a == user && b == other) || (a == other && b == user)) ==> #[trigger] post.are_friends(
            a,
            b,
        ) == pre.are_friends(a, b))
    &&& removed == if pre.are_friends(user, other) {
        1int
    } else {
        0int
    }
    &&& post.friendships@.len() == pre.friendships@.len() - removed
    &&& (removed == 0 ==> post.friendships@ == pre.friendships@)
}

/// Remove the friendship between two users, whatever the column order of
/// the stored edge; removal is idempotent, and removing an edge that is
/// not there succeeds while deleting zero rows.
pub fn remove_friend(store: &mut CredentialStore, user_id: u64, removed_friend_id: u64) -> (r:
    usize)
    requires
        old(store).wf(),
    ensures
        final(store).wf(),
        remove_friend_post(*old(store), *final(store), user_id, removed_friend_id, r),
{
    let n = store.friendships.len();
    let mut found: Option<usize> = None;
    let mut i: usize = 0;
    while i < n
        invariant
            i <= n == store.friendships@.len(),
            match found {
                Some(k) => k < i && ((store.friendships@[k as int].user1 == user_id
                    && store.friendships@[k as int].user2 == removed_friend_id) || (
                store.friendships@[k as int].user1 == removed_friend_id
                    && store.friendships@[k as int].user2 == user_id)),
                None => forall|j: int|
                    0 <= j < i ==> !crate::store::same_edge(
                        #[trigger] store.friendships@[j],
                        Friendship { user1: user_id, user2: removed_friend_id },
                    ),
            },
        decreases n - i,
    {
        if found.is_none() {
            let f = &store.friendships[i];
            if (f.user1 == user_id && f.user2 == removed_friend_id) || (f.user1
                == removed_friend_id && f.user2 == user_id) {
                found = Some(i);
            }
        }
        i = i + 1;
    }
    let idx = match found {
        Some(k) => k,
        None => {
            proof {
                let pre = *store;
                if pre.are_friends(user_id, removed_friend_id) {
                    let fr = Friendship { user1: user_id, user2: removed_friend_id };
                    let rf = Friendship { user1: removed_friend_id, user2: user_id };
                    if pre.friendships@.contains(fr) {
                        let k = choose|k: int|
                            0 <= k < pre.friendships@.len() && pre.friendships@[k] == fr;
                        assert(crate::store::same_edge(pre.friendships@[k], fr));
                    } else {
                        let k = choose|k: int|
                            0 <= k < pre.friendships@.len() && pre.friendships@[k] == rf;
                        assert(crate::store::same_edge(pre.friendships@[k], fr));
                    }
                }
            }
            return 0;
        },
    };
    store.friendships.remove(idx);
    proof {
        let pre = *old(store);
        let post = *store;
        let target = pre.friendships@[idx as int];
        // The removed row was the only edge joining the pair.
        assert forall|j: int| 0 <= j < post.friendships@.len() implies !crate::store::same_edge(
            #[trigger] post.friendships@[j],
            Friendship { user1: user_id, user2: removed_friend_id },
        ) by {
            let jj = if j < idx {
                j
            } else {
                j + 1
            };
            assert(post.friendships@[j] == pre.friendships@[jj]);
            if jj != idx {
                assert(!crate::store::same_edge(pre.friendships@[jj], target) || !crate::store::same_edge(
                    pre.friendships@[idx as int],
                    target,
                ));
            }
        }
        assert(!post.are_friends(user_id, removed_friend_id)) by {
            let fr = Friendship { user1: user_id, user2: removed_friend_id };
            let rf = Friendship { user1: removed_friend_id, user2: user_id };
            if post.friendships@.contains(fr) {
                let k = choose|k: int|
                    0 <= k < post.friendships@.len() && post.friendships@[k] == fr;
                assert(crate::store::same_edge(post.friendships@[k], fr));
            }
            if post.friendships@.contains(rf) {
                let k = choose|k: int|
                    0 <= k < post.friendships@.len() && post.friendships@[k] == rf;
                assert(crate::store::same_edge(post.friendships@[k], fr));
            }
        }
        assert(pre.are_friends(user_id, removed_friend_id)) by {
            if target.user1 == user_id {
                assert(pre.friendships@.contains(
                    Friendship { user1: user_id, user2: removed_friend_id },
                ));
            } else {
                assert(pre.friendships@.contains(
                    Friendship { user1: removed_friend_id, user2: user_id },
                ));
            }
        }
        assert forall|a: u64, b: u64|
            !((a == user_id && b == removed_friend_id) || (a == removed_friend_id && b
                == user_id)) implies #[trigger] post.are_friends(a, b) == pre.are_friends(
            a,
            b,
        ) by {
            let fr = Friendship { user1: a, user2: b };
            let rf = Friendship { user1: b, user2: a };
            if pre.are_friends(a, b) {
                let m = if pre.friendships@.contains(fr) {
                    choose|k: int| 0 <= k < pre.friendships@.len() && pre.friendships@[k] == fr
                } else {
                    choose|k: int| 0 <= k < pre.friendships@.len() && pre.friendships@[k] == rf
                };
                assert(m != idx);
                if m < idx {
                    assert(post.friendships@[m] == pre.friendships@[m]);
                } else {
                    assert(post.friendships@[m - 1] == pre.friendships@[m]);
                }
                assert(post.are_friends(a, b));
            }
            if post.are_friends(a, b) {
                let m = if post.friendships@.contains(fr) {
                    choose|k: int| 0 <= k < post.friendships@.len() && post.friendships@[k] == fr
                } else {
                    choose|k: int| 0 <= k < post.friendships@.len() && post.friendships@[k] == rf
                };
                let mm = if m < idx {
                    m
                } else {
                    m + 1
                };
                assert(pre.friendships@[mm] == post.friendships@[m]);
                assert(pre.are_friends(a, b));
            }
        }
        assert(post.requests_wf()) by {
            assert forall|j: int| 0 <= j < post.friend_requests@.len() implies post.has_user_id(
                #[trigger] post.friend_requests@[j].requester,
            ) && post.has_user_id(post.friend_requests@[j].receiver) by {
                assert(pre.has_user_id(pre.friend_requests@[j].requester));
                assert(pre.has_user_id(pre.friend_requests@[j].receiver));
            }
        }
        assert(post.friendships_wf()) by {
            assert forall|j: int| 0 <= j < post.friendships@.len() implies #[trigger] post
                .friendships@[j].user1 != post.friendships@[j].user2 && post.has_user_id(
                post.friendships@[j].user1,
            ) && post.has_user_id(post.friendships@[j].user2) by {
                let jj = if j < idx {
                    j
                } else {
                    j + 1
                };
                assert(post.friendships@[j] == pre.friendships@[jj]);
                assert(pre.has_user_id(pre.friendships@[jj].user1));
                assert(pre.has_user_id(pre.friendships@[jj].user2));
            }
            assert forall|j1: int, j2: int|
                0 <= j1 < j2 < post.friendships@.len() implies !crate::store::same_edge(
                #[trigger] post.friendships@[j1],
                #[trigger] post.friendships@[j2],
            ) by {
                let a1 = if j1 < idx {
                    j1
                } else {
                    j1 + 1
                };
                let a2 = if j2 < idx {
                    j2
                } else {
                    j2 + 1
                };
                assert(post.friendships@[j1] == pre.friendships@[a1]);
                assert(post.friendships@[j2] == pre.friendships@[a2]);
            }
        }
    }
    1
}

/// All users joined to `user_id` by a friendship edge: every returned row
/// is a stored user who is a friend of `user_id`, every such user appears,
/// and no id appears twice.
/// The selection of users who are friends of `user_id`.
pub open spec fn friend_of(store: CredentialStore, user_id: u64) -> spec_fn(User) -> bool {
    |u: User| store.are_friends(user_id, u.id)
}

/// The selection of users with a pending request to `user_id`.
pub open spec fn requester_to(store: CredentialStore, user_id: u64) -> spec_fn(User) -> bool {
    |u: User| store.has_request(u.id, user_id)
}

/// All users joined to `user_id` by a friendship edge, in store order:
/// exactly the user rows whose id is a friend of `user_id`.
pub fn get_all_friends(store: &CredentialStore, user_id: u64) -> (r: Vec<User>)
    ensures
        r@ == store.users@.filter(friend_of(*store, user_id)),
{
    let ghost pred = friend_of(*store, user_id);
    let n = store.users.len();
    let mut r: Vec<User> = Vec::new();
    let mut i: usize = 0;
    proof {
        reveal(Seq::filter);
        assert(r@ =~= store.users@.subrange(0, 0).filter(pred));
    }
    while i < n
        invariant
            i <= n == store.users@.len(),
            pred == friend_of(*store, user_id),
            r@ == store.users@.subrange(0, i as int).filter(pred),
        decreases n - i,
    {
        let u = &store.users[i];
        let keep = are_friends_exec(store, user_id, u.id);
        if keep {
            r.push(u.clone());
        }
        proof {
            reveal(Seq::filter);
            let prefix = store.users@.subrange(0, i as int);
            let ext = store.users@.subrange(0, i as int + 1);
            assert(ext.drop_last() =~= prefix);
            assert(ext.last() == store.users@[i as int]);
            assert(pred(store.users@[i as int]) == store.are_friends(
                user_id,
                store.users@[i as int].id,
            ));
        }
        i = i + 1;
    }
    proof {
        assert(store.users@.subrange(0, n as int) =~= store.users@);
    }
    r
}

/// All users with a pending friend request to `user_id`, in store order:
/// exactly the user rows whose id has a request to `user_id` pending.
pub fn get_all_friend_requests(store: &CredentialStore, user_id: u64) -> (r: Vec<User>)
    ensures
        r@ == store.users@.filter(requester_to(*store, user_id)),
{
    let ghost pred = requester_to(*store, user_id);
    let n = store.users.len();
    let mut r: Vec<User> = Vec::new();
    let mut i: usize = 0;
    proof {
        reveal(Seq::filter);
        assert(r@ =~= store.users@.subrange(0, 0).filter(pred));
    }
    while i < n
        invariant
            i <= n == store.users@.len(),
            pred == requester_to(*store, user_id),
            r@ == store.users@.subrange(0, i as int).filter(pred),
        decreases n - i,
    {
        let u = &store.users[i];
        let keep = has_request_exec(store, u.id, user_id);
        if keep {
            r.push(u.clone());
        }
        proof {
            reveal(Seq::filter);
            let prefix = store.users@.subrange(0, i as int);
            let ext = store.users@.subrange(0, i as int + 1);
            assert(ext.drop_last() =~= prefix);
            assert(ext.last() == store.users@[i as int]);
            assert(pred(store.users@[i as int]) == store.has_request(
                store.users@[i as int].id,
                user_id,
            ));
        }
        i = i + 1;
    }
    proof {
        assert(store.users@.subrange(0, n as int) =~= store.users@);
    }
    r
}

} // verus!
