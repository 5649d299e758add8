use backend::api::{
    get_all, get_csrf, get_me, patch_add, patch_profile, post_add, post_login, post_logout,
    post_refresh, post_register, LoginResponse, RefreshResponse, RegisterResponse,
};
use backend::csrf::verify_csrf_token;
use backend::jwt::{decode_jwt_token, JwtConfig, JwtTokenKind, ACCESS_TOKEN_LIFETIME_SECS};
use backend::profile::UpdateUser;
use backend::store::CredentialStore;

fn test_config() -> JwtConfig {
    JwtConfig {
        access_secret: "access-secret-for-tests".to_string(),
        refresh_secret: "refresh-secret-for-tests".to_string(),
    }
}

fn csrf() -> Option<String> {
    Some("token-echoed-in-header".to_string())
}

fn no_changes() -> UpdateUser {
    UpdateUser { username: None, email: None, phone_number: None, bio: None, profile_pic: None }
}

#[test]
fn register_login_refresh_scenario() {
    let mut store = CredentialStore::new();
    let config = test_config();
    let header = csrf();
    let now = 1_700_000_000u64;

    let registered = post_register(
        &mut store,
        &config,
        header.as_ref(),
        "alice0101",
        "alice@example.com",
        "1234567",
        "Str0ng!Passw0rd",
        now,
    );
    let user_id = match registered {
        RegisterResponse::Success { user, user_id, access_cookie, refresh_cookie } => {
            assert_eq!(access_cookie.name, "access_token");
            assert_eq!(refresh_cookie.name, "refresh_token");
            assert!(access_cookie.http_only && refresh_cookie.http_only);
            // Registration is fused with login: the response carries the
            // sanitized projection of the new account.
            assert_eq!(user.id, user_id);
            assert_eq!(user.username, "alice0101");
            assert_eq!(user.email, "alice@example.com");
            assert_eq!(user.phone_number, "1234567");
            assert!(!user.two_factor_auth);
            assert_eq!(user.bio, None);
            user_id
        },
        _ => panic!("registration should succeed"),
    };

    let logged_in = post_login(
        &store,
        &config,
        header.as_ref(),
        "alice0101",
        "Str0ng!Passw0rd",
        now + 5,
    );
    let (user, refresh_cookie, first_access) = match logged_in {
        LoginResponse::Success { user, access_cookie, refresh_cookie } => {
            (user, refresh_cookie, access_cookie)
        },
        _ => panic!("login should succeed"),
    };
    assert_eq!(user.id, user_id);
    assert_eq!(user.username, "alice0101");
    let first_claims =
        decode_jwt_token(&config, &first_access.value, JwtTokenKind::ACCESS, now + 5).unwrap();

    // Refresh with the REFRESH cookie yields a new ACCESS token with a
    // later expiry than the original.
    let later = now + 120;
    let refreshed = post_refresh(&store, &config, Some(&refresh_cookie.value), later);
    match refreshed {
        RefreshResponse::Success { access_cookie } => {
            let claims =
                decode_jwt_token(&config, &access_cookie.value, JwtTokenKind::ACCESS, later)
                    .unwrap();
            assert_eq!(claims.sub, user_id);
            assert_eq!(claims.exp, later + ACCESS_TOKEN_LIFETIME_SECS);
            assert!(claims.exp > first_claims.exp);
        },
        _ => panic!("refresh should succeed"),
    }
}

#[test]
fn login_failures_are_uniform() {
    let mut store = CredentialStore::new();
    let config = test_config();
    let header = csrf();
    let now = 1_700_000_000u64;
    post_register(
        &mut store,
        &config,
        header.as_ref(),
        "alice0101",
        "alice@example.com",
        "1234567",
        "Str0ng!Passw0rd",
        now,
    );

    // Unknown user and wrong password produce the same rejection.
    let unknown = post_login(&store, &config, header.as_ref(), "bobby0101", "Str0ng!Passw0rd", now);
    let wrong = post_login(&store, &config, header.as_ref(), "alice0101", "Wr0ng!Passw0rd", now);
    for outcome in [unknown, wrong] {
        match outcome {
            LoginResponse::Rejected(rep) => {
                assert_eq!(rep.status, 401);
                assert_eq!(rep.body, "{\"detail\":\"incorrect login\"}");
            },
            _ => panic!("login should be rejected"),
        }
    }

    let no_csrf = post_login(&store, &config, None, "alice0101", "Str0ng!Passw0rd", now);
    match no_csrf {
        LoginResponse::CsrfFailed(rep) => {
            assert_eq!(rep.status, 401);
            assert_eq!(rep.body, "{\"detail\":\"csrf failed\"}");
        },
        _ => panic!("login without the CSRF header must fail the guard"),
    }
}

#[test]
fn register_rejects_bad_fields_and_duplicates() {
    let mut store = CredentialStore::new();
    let config = test_config();
    let header = csrf();
    let now = 1_700_000_000u64;

    let bad_username = post_register(
        &mut store,
        &config,
        header.as_ref(),
        "alice01",
        "alice@example.com",
        "1234567",
        "Str0ng!Passw0rd",
        now,
    );
    match bad_username {
        RegisterResponse::Invalid(rep) => {
            assert_eq!(rep.status, 400);
            assert_eq!(rep.body, "{\"detail\":\"invalid username format\"}");
        },
        _ => panic!("a malformed username must be rejected"),
    }
    assert_eq!(store.users.len(), 0);

    post_register(
        &mut store,
        &config,
        header.as_ref(),
        "alice0101",
        "alice@example.com",
        "1234567",
        "Str0ng!Passw0rd",
        now,
    );
    let duplicate = post_register(
        &mut store,
        &config,
        header.as_ref(),
        "ALICE0101",
        "other@example.com",
        "7654321",
        "Str0ng!Passw0rd",
        now,
    );
    match duplicate {
        RegisterResponse::Conflict(rep) => {
            assert_eq!(rep.status, 400);
            assert_eq!(rep.body, "{\"detail\":\"username taken\"}");
        },
        _ => panic!("duplicate username must conflict"),
    }
    let email_taken = post_register(
        &mut store,
        &config,
        header.as_ref(),
        "bobby0101",
        "alice@example.com",
        "7654321",
        "Str0ng!Passw0rd",
        now,
    );
    match email_taken {
        RegisterResponse::Conflict(rep) => {
            assert_eq!(rep.status, 400);
            assert_eq!(rep.body, "{\"detail\":\"email taken\"}");
        },
        _ => panic!("duplicate email must conflict"),
    }
    let phone_taken = post_register(
        &mut store,
        &config,
        header.as_ref(),
        "bobby0101",
        "bob@example.com",
        "1234567",
        "Str0ng!Passw0rd",
        now,
    );
    match phone_taken {
        RegisterResponse::Conflict(rep) => {
            assert_eq!(rep.status, 400);
            assert_eq!(rep.body, "{\"detail\":\"phone number taken\"}");
        },
        _ => panic!("duplicate phone number must conflict"),
    }
    assert_eq!(store.users.len(), 1);
}

#[test]
fn csrf_absent_on_friend_add_rejects_and_stores_nothing() {
    let mut store = CredentialStore::new();
    let config = test_config();
    let header = csrf();
    let now = 1_700_000_000u64;
    post_register(
        &mut store,
        &config,
        header.as_ref(),
        "alice0101",
        "alice@example.com",
        "1234567",
        "Str0ng!Passw0rd",
        now,
    );
    let token = "irrelevant".to_string();
    let reply = post_add(&mut store, &config, None, Some(&token), "bobby0101", now);
    assert_eq!(reply.status, 401);
    assert_eq!(reply.body, "{\"detail\":\"csrf failed\"}");
    assert_eq!(store.friend_requests.len(), 0);
}

#[test]
fn friend_endpoints_follow_the_request_lifecycle() {
    let mut store = CredentialStore::new();
    let config = test_config();
    let header = csrf();
    let now = 1_700_000_000u64;

    let alice = match post_register(
        &mut store,
        &config,
        header.as_ref(),
        "alice0101",
        "alice@example.com",
        "1234567",
        "Str0ng!Passw0rd",
        now,
    ) {
        RegisterResponse::Success { user_id, access_cookie, .. } => (user_id, access_cookie.value),
        _ => panic!("registration should succeed"),
    };
    let bob = match post_register(
        &mut store,
        &config,
        header.as_ref(),
        "bobby0101",
        "bob@example.com",
        "7654321",
        "Str0ng!Passw0rd",
        now,
    ) {
        RegisterResponse::Success { user_id, access_cookie, .. } => (user_id, access_cookie.value),
        _ => panic!("registration should succeed"),
    };

    let sent = post_add(&mut store, &config, header.as_ref(), Some(&alice.1), "bobby0101", now);
    assert_eq!(sent.status, 200);
    assert_eq!(sent.body, "{\"detail\":\"friend request sent successfully\"}");

    let again = post_add(&mut store, &config, header.as_ref(), Some(&alice.1), "bobby0101", now);
    assert_eq!(again.status, 400);
    assert_eq!(again.body, "{\"detail\":\"friend request already exists\"}");

    let accepted =
        patch_add(&mut store, &config, header.as_ref(), Some(&bob.1), alice.0, true, now);
    assert_eq!(accepted.status, 200);
    assert_eq!(accepted.body, "{\"detail\":\"friend request accepted\"}");

    let friends_of_bob = get_all(&store, &config, Some(&bob.1), now).unwrap();
    assert_eq!(friends_of_bob.len(), 1);
    assert_eq!(friends_of_bob[0].id, alice.0);

    let now_friends =
        post_add(&mut store, &config, header.as_ref(), Some(&alice.1), "bobby0101", now);
    assert_eq!(now_friends.status, 400);
    assert_eq!(now_friends.body, "{\"detail\":\"already friends with this user\"}");

    // An expired ACCESS token is told apart from a malformed one.
    let expired = post_add(
        &mut store,
        &config,
        header.as_ref(),
        Some(&alice.1),
        "bobby0101",
        now + 100_000,
    );
    assert_eq!(expired.status, 401);
    assert_eq!(expired.body, "{\"detail\":\"access token expired\"}");
    let garbage = "garbage".to_string();
    let invalid = post_add(&mut store, &config, header.as_ref(), Some(&garbage), "bobby0101", now);
    assert_eq!(invalid.status, 401);
    assert_eq!(invalid.body, "{\"detail\":\"invalid access token\"}");

    // A receiver that no username resolves to is an unresolvable
    // reference, answered 404.
    let missing = post_add(
        &mut store,
        &config,
        header.as_ref(),
        Some(&alice.1),
        "nosuchuser1",
        now,
    );
    assert_eq!(missing.status, 404);
    assert_eq!(missing.body, "{\"detail\":\"User not found\"}");
}

#[test]
fn me_and_profile_updates() {
    let mut store = CredentialStore::new();
    let config = test_config();
    let header = csrf();
    let now = 1_700_000_000u64;
    let (id, access) = match post_register(
        &mut store,
        &config,
        header.as_ref(),
        "alice0101",
        "alice@example.com",
        "1234567",
        "Str0ng!Passw0rd",
        now,
    ) {
        RegisterResponse::Success { user_id, access_cookie, .. } => (user_id, access_cookie.value),
        _ => panic!("registration should succeed"),
    };

    let me = get_me(&store, &config, Some(&access), now).unwrap();
    assert_eq!(me.id, id);
    assert_eq!(me.username, "alice0101");
    assert_eq!(me.bio, None);

    let mut changes = no_changes();
    changes.bio = Some("hello there".to_string());
    let updated = patch_profile(&mut store, &config, header.as_ref(), Some(&access), changes, now);
    assert_eq!(updated.status, 200);
    let me = get_me(&store, &config, Some(&access), now).unwrap();
    assert_eq!(me.bio, Some("hello there".to_string()));

    let mut bad = no_changes();
    bad.email = Some("not-an-email".to_string());
    let rejected = patch_profile(&mut store, &config, header.as_ref(), Some(&access), bad, now);
    assert_eq!(rejected.status, 400);
    assert_eq!(rejected.body, "{\"detail\":\"invalid email format\"}");

    let missing = get_me(&store, &config, None, now);
    match missing {
        Err(rep) => assert_eq!(rep.body, "{\"detail\":\"missing jwt token\"}"),
        Ok(_) => panic!("a request without a token cannot resolve a user"),
    }
}

#[test]
fn logout_clears_both_cookies() {
    let out = post_logout();
    assert_eq!(out.access_cookie.name, "access_token");
    assert_eq!(out.access_cookie.value, "");
    assert_eq!(out.access_cookie.max_age_secs, 0);
    assert_eq!(out.refresh_cookie.name, "refresh_token");
    assert_eq!(out.refresh_cookie.value, "");
    assert_eq!(out.refresh_cookie.max_age_secs, 0);
    assert_eq!(out.body.body, "{\"detail\":\"logout successful\"}");
}

#[test]
fn refresh_requires_a_refresh_token_for_an_existing_user() {
    let mut store = CredentialStore::new();
    let config = test_config();
    let header = csrf();
    let now = 1_700_000_000u64;
    let access = match post_register(
        &mut store,
        &config,
        header.as_ref(),
        "alice0101",
        "alice@example.com",
        "1234567",
        "Str0ng!Passw0rd",
        now,
    ) {
        RegisterResponse::Success { access_cookie, .. } => access_cookie.value,
        _ => panic!("registration should succeed"),
    };
    // No cookie at all.
    assert!(matches!(
        post_refresh(&store, &config, None, now),
        RefreshResponse::Forbidden(_)
    ));
    // An ACCESS token is not accepted in place of a REFRESH token.
    assert!(matches!(
        post_refresh(&store, &config, Some(&access), now),
        RefreshResponse::Forbidden(_)
    ));
}

#[test]
fn csrf_guard_checks_header_presence() {
    let token = generate_nonempty_csrf();
    assert!(verify_csrf_token(Some(&token)));
    assert!(!verify_csrf_token(None));
}

fn generate_nonempty_csrf() -> String {
    let token = get_csrf();
    assert!(!token.is_empty());
    token
}

#[test]
fn email_uniqueness_folds_case() {
    let mut store = CredentialStore::new();
    let config = test_config();
    let header = csrf();
    let now = 1_700_000_000u64;
    post_register(
        &mut store,
        &config,
        header.as_ref(),
        "alice0101",
        "alice@example.com",
        "1234567",
        "Str0ng!Passw0rd",
        now,
    );
    let shouting = post_register(
        &mut store,
        &config,
        header.as_ref(),
        "bobby0101",
        "ALICE@EXAMPLE.COM",
        "7654321",
        "Str0ng!Passw0rd",
        now,
    );
    match shouting {
        RegisterResponse::Conflict(rep) => {
            assert_eq!(rep.status, 400);
            assert_eq!(rep.body, "{\"detail\":\"email taken\"}");
        },
        _ => panic!("an email differing only in case must conflict"),
    }
    assert_eq!(store.users.len(), 1);
}

#[test]
fn profile_update_checks_each_field_in_order() {
    let mut store = CredentialStore::new();
    let config = test_config();
    let header = csrf();
    let now = 1_700_000_000u64;
    post_register(
        &mut store,
        &config,
        header.as_ref(),
        "alice0101",
        "alice@example.com",
        "1234567",
        "Str0ng!Passw0rd",
        now,
    );
    let access = match post_register(
        &mut store,
        &config,
        header.as_ref(),
        "bobby0101",
        "bob@example.com",
        "7654321",
        "Str0ng!Passw0rd",
        now,
    ) {
        RegisterResponse::Success { access_cookie, .. } => access_cookie.value,
        _ => panic!("registration should succeed"),
    };
    // A taken username is reported before a malformed email is even looked
    // at: format, then uniqueness, one field at a time.
    let mut changes = no_changes();
    changes.username = Some("ALICE0101".to_string());
    changes.email = Some("not-an-email".to_string());
    let rep = patch_profile(&mut store, &config, header.as_ref(), Some(&access), changes, now);
    assert_eq!(rep.status, 400);
    assert_eq!(rep.body, "{\"detail\":\"username taken\"}");
    // An email taken by another account, case-folded, is rejected too.
    let mut changes = no_changes();
    changes.email = Some("Alice@Example.Com".to_string());
    let rep = patch_profile(&mut store, &config, header.as_ref(), Some(&access), changes, now);
    assert_eq!(rep.status, 400);
    assert_eq!(rep.body, "{\"detail\":\"email taken\"}");
    // Updating a field to the caller's own current value stays allowed.
    let mut changes = no_changes();
    changes.email = Some("BOB@example.com".to_string());
    let rep = patch_profile(&mut store, &config, header.as_ref(), Some(&access), changes, now);
    assert_eq!(rep.status, 200);
}
