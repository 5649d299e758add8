//! Laws of the friendship workflow, proved over the transition predicates
//! that the engine's operations ensure.

use vstd::prelude::*;

use crate::friend::add_request_post;
use crate::friend::remove_friend_post;
use crate::friend::resolve_request_post;
use crate::friend::AddFriendResult;
use crate::friend::FriendError;
use crate::friend::UpdateFriendOutcome;
use crate::store::same_edge;
use crate::store::CredentialStore;
use crate::store::FriendRequest;
use crate::store::Friendship;
use crate::validate::eq_ignore_case;

verus! {

/// The rows joining the unordered pair `a`, `b`.
pub open spec fn joins_pair(a: u64, b: u64) -> spec_fn(Friendship) -> bool {
    |f: Friendship| (f.user1 == a && f.user2 == b) || (f.user1 == b && f.user2 == a)
}

/// How many rows join the unordered pair `a`, `b`.
pub open spec fn edge_count(friendships: Seq<Friendship>, a: u64, b: u64) -> nat {
    friendships.filter(joins_pair(a, b)).len()
}

/// In a table with at most one row per unordered pair, the count of rows
/// joining a pair is one if some row does and zero otherwise.
pub proof fn lemma_edge_count_unique(s: Seq<Friendship>, a: u64, b: u64)
    requires
        forall|i: int, j: int| 0 <= i < j < s.len() ==> !same_edge(#[trigger] s[i], #[trigger] s[j]),
    ensures
        edge_count(s, a, b) == if s.contains(Friendship { user1: a, user2: b }) || s.contains(
            Friendship { user1: b, user2: a },
        ) {
            1nat
        } else {
            0nat
        },
    decreases s.len(),
{
    reveal(Seq::filter);
    let pred = joins_pair(a, b);
    let fr = Friendship { user1: a, user2: b };
    let rf = Friendship { user1: b, user2: a };
    if s.len() == 0 {
        assert(!s.contains(fr) && !s.contains(rf));
    } else {
        let rest = s.drop_last();
        let last = s.last();
        assert(forall|i: int, j: int|
            0 <= i < j < rest.len() ==> !same_edge(#[trigger] rest[i], #[trigger] rest[j]));
        lemma_edge_count_unique(rest, a, b);
        if pred(last) {
            // No earlier row joins the same pair.
            assert forall|i: int| 0 <= i < rest.len() implies #[trigger] rest[i] != fr && rest[i]
                != rf by {
                assert(!same_edge(s[i], s[s.len() - 1]));
            }
            assert(!rest.contains(fr) && !rest.contains(rf));
            assert(last == fr || last == rf);
            assert(s.contains(fr) || s.contains(rf)) by {
                assert(s[s.len() - 1] == last);
            }
            assert(edge_count(s, a, b) == 1);
        } else {
            assert(last != fr && last != rf);
            if s.contains(fr) {
                let i = choose|i: int| 0 <= i < s.len() && s[i] == fr;
                assert(rest[i] == fr);
                assert(rest.contains(fr));
            }
            if s.contains(rf) {
                let i = choose|i: int| 0 <= i < s.len() && s[i] == rf;
                assert(rest[i] == rf);
                assert(rest.contains(rf));
            }
            if rest.contains(fr) {
                let i = choose|i: int| 0 <= i < rest.len() && rest[i] == fr;
                assert(s[i] == fr);
            }
            if rest.contains(rf) {
                let i = choose|i: int| 0 <= i < rest.len() && rest[i] == rf;
                assert(s[i] == rf);
            }
        }
    }
}

/// In a well-formed user table a username resolves to at most one id.
pub proof fn lemma_resolution_unique(s: CredentialStore, name: Seq<char>, id1: u64, id2: u64)
    requires
        s.users_wf(),
        s.resolves_username(name, id1),
        s.resolves_username(name, id2),
    ensures
        id1 == id2,
{
    let i1 = choose|i: int|
        0 <= i < s.users@.len() && eq_ignore_case(#[trigger] s.users@[i].username@, name)
            && s.users@[i].id == id1;
    let i2 = choose|i: int|
        0 <= i < s.users@.len() && eq_ignore_case(#[trigger] s.users@[i].username@, name)
            && s.users@[i].id == id2;
    if i1 != i2 {
        assert(eq_ignore_case(s.users@[i1].username@, s.users@[i2].username@));
    }
}

/// Sending the same friend request twice creates it once: after a
/// `Created` outcome, repeating the identical request reports
/// `AlreadyExists` and adds no row.
pub proof fn lemma_duplicate_request(
    s0: CredentialStore,
    s1: CredentialStore,
    s2: CredentialStore,
    requester: u64,
    name: Seq<char>,
    r1: Result<AddFriendResult, FriendError>,
    r2: Result<AddFriendResult, FriendError>,
)
    requires
        s0.wf(),
        s1.wf(),
        add_request_post(s0, s1, requester, name, r1),
        add_request_post(s1, s2, requester, name, r2),
        r1 matches Ok(AddFriendResult::Created),
    ensures
        r2 matches Ok(AddFriendResult::AlreadyExists),
        s2.friend_requests@ == s1.friend_requests@,
{
    let rid = choose|rid: u64|
        {
            &&& #[trigger] s0.resolves_username(name, rid)
            &&& rid != requester
            &&& !s0.are_friends(requester, rid)
            &&& !s0.has_request(requester, rid)
            &&& s0.has_user_id(requester)
            &&& s1.friend_requests@ == s0.friend_requests@.push(
                FriendRequest { requester, receiver: rid },
            )
        };
    let target = FriendRequest { requester, receiver: rid };
    assert(s1.has_request(requester, rid)) by {
        assert(s1.friend_requests@[s0.friend_requests@.len() as int] == target);
    }
    assert(s1.resolves_username(name, rid));
    match r2 {
        Ok(AddFriendResult::Created) => {
            let rid2 = choose|rid2: u64|
                {
                    &&& #[trigger] s1.resolves_username(name, rid2)
                    &&& rid2 != requester
                    &&& !s1.are_friends(requester, rid2)
                    &&& !s1.has_request(requester, rid2)
                    &&& s1.has_user_id(requester)
                    &&& s2.friend_requests@ == s1.friend_requests@.push(
                        FriendRequest { requester, receiver: rid2 },
                    )
                };
            lemma_resolution_unique(s1, name, rid, rid2);
            assert(false);
        },
        Ok(AddFriendResult::AlreadyExists) => {
        },
        Ok(AddFriendResult::AlreadyFriends) => {
            let rid2 = choose|rid2: u64|
                {
                    &&& #[trigger] s1.resolves_username(name, rid2)
                    &&& rid2 != requester
                    &&& s1.are_friends(requester, rid2)
                };
            lemma_resolution_unique(s1, name, rid, rid2);
            assert(false);
        },
        Err(FriendError::ReceiverNotFound) => {
            assert(s1.has_username_ci(name));
            assert(false);
        },
        Err(FriendError::RequesterNotFound) => {
            assert(s1.has_user_id(requester));
            assert(false);
        },
    }
}

/// A request from `a` that resolves to `b`, accepted by `b`, leaves
/// exactly one friendship edge between the two, visible from either side.
pub proof fn lemma_request_then_accept(
    s0: CredentialStore,
    s1: CredentialStore,
    s2: CredentialStore,
    a: u64,
    name: Seq<char>,
    b: u64,
    r1: Result<AddFriendResult, FriendError>,
    r2: UpdateFriendOutcome,
)
    requires
        s0.wf(),
        s1.wf(),
        s2.wf(),
        s0.resolves_username(name, b),
        add_request_post(s0, s1, a, name, r1),
        r1 matches Ok(AddFriendResult::Created),
        resolve_request_post(s1, s2, b, a, true, r2),
    ensures
        r2 matches UpdateFriendOutcome::Accepted,
        s2.are_friends(a, b),
        s2.are_friends(b, a),
        edge_count(s2.friendships@, a, b) == 1,
{
    let rid = choose|rid: u64|
        {
            &&& #[trigger] s0.resolves_username(name, rid)
            &&& rid != a
            &&& !s0.are_friends(a, rid)
            &&& !s0.has_request(a, rid)
            &&& s0.has_user_id(a)
            &&& s1.friend_requests@ == s0.friend_requests@.push(
                FriendRequest { requester: a, receiver: rid },
            )
        };
    lemma_resolution_unique(s0, name, rid, b);
    assert(s1.has_request(a, b)) by {
        assert(s1.friend_requests@[s0.friend_requests@.len() as int] == (FriendRequest {
            requester: a,
            receiver: b,
        }));
    }
    assert(s2.are_friends(a, b));
    lemma_edge_count_unique(s2.friendships@, a, b);
}

/// A request from `a` that resolves to `b`, declined by `b`, leaves no
/// friendship edge and no pending request between the two (given neither
/// existed before the request was sent).
pub proof fn lemma_request_then_decline(
    s0: CredentialStore,
    s1: CredentialStore,
    s2: CredentialStore,
    a: u64,
    name: Seq<char>,
    b: u64,
    r1: Result<AddFriendResult, FriendError>,
    r2: UpdateFriendOutcome,
)
    requires
        s0.wf(),
        s1.wf(),
        s2.wf(),
        s0.resolves_username(name, b),
        !s0.has_request(b, a),
        add_request_post(s0, s1, a, name, r1),
        r1 matches Ok(AddFriendResult::Created),
        resolve_request_post(s1, s2, b, a, false, r2),
    ensures
        r2 matches UpdateFriendOutcome::Declined,
        !s2.are_friends(a, b),
        edge_count(s2.friendships@, a, b) == 0,
        !s2.has_request(a, b),
        !s2.has_request(b, a),
{
    let rid = choose|rid: u64|
        {
            &&& #[trigger] s0.resolves_username(name, rid)
            &&& rid != a
            &&& !s0.are_friends(a, rid)
            &&& !s0.has_request(a, rid)
            &&& s0.has_user_id(a)
            &&& s1.friend_requests@ == s0.friend_requests@.push(
                FriendRequest { requester: a, receiver: rid },
            )
        };
    lemma_resolution_unique(s0, name, rid, b);
    assert(s1.has_request(a, b)) by {
        assert(s1.friend_requests@[s0.friend_requests@.len() as int] == (FriendRequest {
            requester: a,
            receiver: b,
        }));
    }
    assert(!s2.are_friends(a, b)) by {
        assert(s2.friendships@ == s0.friendships@);
    }
    assert(!s1.has_request(b, a)) by {
        if s1.has_request(b, a) {
            let k = choose|k: int|
                0 <= k < s1.friend_requests@.len() && s1.friend_requests@[k] == (FriendRequest {
                    requester: b,
                    receiver: a,
                });
            if k < s0.friend_requests@.len() {
                assert(s0.friend_requests@[k] == (FriendRequest { requester: b, receiver: a }));
                assert(s0.has_request(b, a));
            } else {
                assert(s1.friend_requests@[k] == (FriendRequest { requester: a, receiver: b }));
            }
        }
    }
    assert(!s2.has_request(b, a)) by {
        if a == b {
        } else {
            assert(s2.has_request(b, a) == s1.has_request(b, a));
        }
    }
    lemma_edge_count_unique(s2.friendships@, a, b);
}

/// Requesting friendship with oneself — a receiver username that resolves
/// to the requester — never creates a request row.
pub proof fn lemma_self_request(
    s0: CredentialStore,
    s1: CredentialStore,
    requester: u64,
    name: Seq<char>,
    r1: Result<AddFriendResult, FriendError>,
)
    requires
        s0.wf(),
        s0.resolves_username(name, requester),
        add_request_post(s0, s1, requester, name, r1),
    ensures
        !(r1 matches Ok(AddFriendResult::Created)),
        s1.friend_requests@ == s0.friend_requests@,
{
    match r1 {
        Ok(AddFriendResult::Created) => {
            let rid = choose|rid: u64|
                {
                    &&& #[trigger] s0.resolves_username(name, rid)
                    &&& rid != requester
                    &&& !s0.are_friends(requester, rid)
                    &&& !s0.has_request(requester, rid)
                    &&& s0.has_user_id(requester)
                    &&& s1.friend_requests@ == s0.friend_requests@.push(
                        FriendRequest { requester, receiver: rid },
                    )
                };
            lemma_resolution_unique(s0, name, rid, requester);
            assert(false);
        },
        _ => {
        },
    }
}

/// Removing a friendship twice in a row: both calls succeed, and the
/// second deletes zero rows and leaves the table exactly as it was.
pub proof fn lemma_remove_idempotent(
    s0: CredentialStore,
    s1: CredentialStore,
    s2: CredentialStore,
    a: u64,
    b: u64,
    n1: usize,
    n2: usize,
)
    requires
        remove_friend_post(s0, s1, a, b, n1),
        remove_friend_post(s1, s2, a, b, n2),
    ensures
        n2 == 0,
        s2.friendships@ == s1.friendships@,
{
}

} // verus!
