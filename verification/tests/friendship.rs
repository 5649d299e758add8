use backend::friend::{
    add_friend_request_to_db, get_all_friend_requests, get_all_friends, remove_friend,
    update_friend_request, AddFriendResult, FriendError, UpdateFriendOutcome,
};
use backend::profile::{validate_new_username, UpdateError};
use backend::store::{add_user_to_db, AddUserError, CredentialStore};

fn seeded_store() -> (CredentialStore, u64, u64, u64) {
    let mut store = CredentialStore::new();
    let a = add_user_to_db(
        &mut store,
        "alice0101".to_string(),
        "alice@example.com".to_string(),
        "1234567".to_string(),
        "hash-a".to_string(),
        100,
    )
    .ok()
    .unwrap();
    let b = add_user_to_db(
        &mut store,
        "bobby0101".to_string(),
        "bob@example.com".to_string(),
        "2234567".to_string(),
        "hash-b".to_string(),
        100,
    )
    .ok()
    .unwrap();
    let c = add_user_to_db(
        &mut store,
        "carol0101".to_string(),
        "carol@example.com".to_string(),
        "3234567".to_string(),
        "hash-c".to_string(),
        100,
    )
    .ok()
    .unwrap();
    (store, a, b, c)
}

#[test]
fn duplicate_request_is_reported_once() {
    let (mut store, a, _b, _c) = seeded_store();
    let first = add_friend_request_to_db(&mut store, a, "bobby0101");
    assert!(matches!(first, Ok(AddFriendResult::Created)));
    let second = add_friend_request_to_db(&mut store, a, "bobby0101");
    assert!(matches!(second, Ok(AddFriendResult::AlreadyExists)));
    assert_eq!(store.friend_requests.len(), 1);
}

#[test]
fn receiver_resolves_case_insensitively() {
    let (mut store, a, b, _c) = seeded_store();
    let r = add_friend_request_to_db(&mut store, a, "BOBBY0101");
    assert!(matches!(r, Ok(AddFriendResult::Created)));
    assert_eq!(store.friend_requests[0].requester, a);
    assert_eq!(store.friend_requests[0].receiver, b);
}

#[test]
fn unknown_receiver_is_an_error() {
    let (mut store, a, _b, _c) = seeded_store();
    let r = add_friend_request_to_db(&mut store, a, "nosuchuser1");
    assert!(matches!(r, Err(FriendError::ReceiverNotFound)));
    assert_eq!(store.friend_requests.len(), 0);
}

#[test]
fn accept_creates_exactly_one_edge_visible_from_both_sides() {
    let (mut store, a, b, _c) = seeded_store();
    add_friend_request_to_db(&mut store, a, "bobby0101").unwrap();
    let outcome = update_friend_request(&mut store, b, a, true);
    assert!(matches!(outcome, UpdateFriendOutcome::Accepted));
    assert_eq!(store.friendships.len(), 1);
    assert_eq!(store.friend_requests.len(), 0);
    let of_a = get_all_friends(&store, a);
    let of_b = get_all_friends(&store, b);
    assert_eq!(of_a.len(), 1);
    assert_eq!(of_a[0].id, b);
    assert_eq!(of_b.len(), 1);
    assert_eq!(of_b[0].id, a);
}

#[test]
fn accepting_when_already_friends_keeps_one_edge() {
    let (mut store, a, b, _c) = seeded_store();
    add_friend_request_to_db(&mut store, a, "bobby0101").unwrap();
    update_friend_request(&mut store, b, a, true);
    // A reverse request can still exist and resolve; the edge stays unique.
    add_friend_request_to_db(&mut store, b, "alice0101");
    assert!(matches!(
        add_friend_request_to_db(&mut store, b, "alice0101"),
        Ok(AddFriendResult::AlreadyFriends)
    ));
    assert_eq!(store.friendships.len(), 1);
}

#[test]
fn decline_leaves_no_edge_and_no_request() {
    let (mut store, a, b, _c) = seeded_store();
    add_friend_request_to_db(&mut store, a, "bobby0101").unwrap();
    let outcome = update_friend_request(&mut store, b, a, false);
    assert!(matches!(outcome, UpdateFriendOutcome::Declined));
    assert_eq!(store.friendships.len(), 0);
    assert_eq!(store.friend_requests.len(), 0);
    assert_eq!(get_all_friends(&store, a).len(), 0);
    assert_eq!(get_all_friends(&store, b).len(), 0);
}

#[test]
fn resolving_a_missing_request_changes_nothing() {
    let (mut store, a, b, _c) = seeded_store();
    let outcome = update_friend_request(&mut store, b, a, true);
    assert!(matches!(outcome, UpdateFriendOutcome::NotFound));
    assert_eq!(store.friendships.len(), 0);
}

#[test]
fn self_request_never_creates_a_row() {
    let (mut store, a, _b, _c) = seeded_store();
    let r = add_friend_request_to_db(&mut store, a, "alice0101");
    assert!(matches!(r, Ok(AddFriendResult::AlreadyExists)));
    let r = add_friend_request_to_db(&mut store, a, "ALICE0101");
    assert!(matches!(r, Ok(AddFriendResult::AlreadyExists)));
    assert_eq!(store.friend_requests.len(), 0);
}

#[test]
fn remove_is_idempotent() {
    let (mut store, a, b, _c) = seeded_store();
    add_friend_request_to_db(&mut store, a, "bobby0101").unwrap();
    update_friend_request(&mut store, b, a, true);
    assert_eq!(store.friendships.len(), 1);
    let first = remove_friend(&mut store, b, a);
    assert_eq!(first, 1);
    let second = remove_friend(&mut store, b, a);
    assert_eq!(second, 0);
    assert_eq!(store.friendships.len(), 0);
}

#[test]
fn remove_matches_either_column_order() {
    let (mut store, a, b, _c) = seeded_store();
    add_friend_request_to_db(&mut store, a, "bobby0101").unwrap();
    update_friend_request(&mut store, b, a, true);
    // The row was inserted as (requester, responder) = (a, b); remove as
    // (a, b) from the other party's side.
    assert_eq!(remove_friend(&mut store, a, b), 1);
}

#[test]
fn pending_requests_list_requesters() {
    let (mut store, a, b, c) = seeded_store();
    add_friend_request_to_db(&mut store, a, "carol0101").unwrap();
    add_friend_request_to_db(&mut store, b, "carol0101").unwrap();
    let pending = get_all_friend_requests(&store, c);
    assert_eq!(pending.len(), 2);
    let ids: Vec<u64> = pending.iter().map(|u| u.id).collect();
    assert!(ids.contains(&a));
    assert!(ids.contains(&b));
    assert_eq!(get_all_friend_requests(&store, a).len(), 0);
}

#[test]
fn registration_conflicts_are_detected() {
    let (mut store, _a, _b, _c) = seeded_store();
    // Username uniqueness is case-insensitive.
    assert!(matches!(
        add_user_to_db(
            &mut store,
            "ALICE0101".to_string(),
            "other@example.com".to_string(),
            "9234567".to_string(),
            "hash".to_string(),
            100,
        ),
        Err(AddUserError::UsernameTaken)
    ));
    assert!(matches!(
        add_user_to_db(
            &mut store,
            "dave01010".to_string(),
            "alice@example.com".to_string(),
            "9234567".to_string(),
            "hash".to_string(),
            100,
        ),
        Err(AddUserError::EmailTaken)
    ));
    assert!(matches!(
        add_user_to_db(
            &mut store,
            "dave01010".to_string(),
            "dave@example.com".to_string(),
            "1234567".to_string(),
            "hash".to_string(),
            100,
        ),
        Err(AddUserError::PhoneTaken)
    ));
    assert_eq!(store.users.len(), 3);
}

#[test]
fn new_username_check_reports_format_and_conflicts() {
    let (store, _a, _b, _c) = seeded_store();
    assert!(matches!(validate_new_username(&store, "dave01010"), Ok(true)));
    assert!(matches!(validate_new_username(&store, "dave"), Ok(false)));
    assert!(matches!(
        validate_new_username(&store, "Alice0101"),
        Err(UpdateError::UsernameTaken)
    ));
}
