//! Endpoint handlers: the session flow (register, login, refresh, logout,
//! me) and the friendship and profile endpoints, each guarded by the CSRF
//! check before anything else when it mutates state.

use vstd::prelude::*;

use crate::csrf::verify_csrf_token;
use crate::friend::add_friend_request_to_db;
use crate::friend::add_request_post;
use crate::friend::remove_friend;
use crate::friend::remove_friend_post;
use crate::friend::resolve_request_post;
use crate::friend::update_friend_request;
use crate::friend::AddFriendResult;
use crate::friend::FriendError;
use crate::friend::UpdateFriendOutcome;
use crate::jwt::decode_jwt_token;
use crate::jwt::jwt_decoded;
use crate::jwt::encode_jwt_token;
use crate::jwt::jwt_token_of;
use crate::jwt::spec_issuer;
use crate::jwt::valid_token_for;
use crate::jwt::JwtConfig;
use crate::jwt::JwtError;
use crate::jwt::JwtTokenKind;
use crate::jwt::ACCESS_TOKEN_LIFETIME_SECS;
use crate::jwt::REFRESH_TOKEN_LIFETIME_SECS;
use crate::password::bcrypt_matches;
use crate::password::hash_password;
use crate::profile::apply_profile_update;
use crate::profile::UpdateError;
use crate::profile::UpdateUser;
use crate::store::add_user_to_db;
use crate::store::authenticate_user;
use crate::store::CredentialStore;
use crate::store::User;
use crate::validate::spec_valid_bio;
use crate::validate::spec_valid_email;
use crate::validate::spec_valid_password;
use crate::validate::spec_valid_phone;
use crate::validate::spec_valid_profile_pic;
use crate::validate::spec_valid_username;
use crate::validate::validate_bio;
use crate::validate::validate_email;
use crate::validate::validate_existing_username;
use crate::validate::validate_password;
use crate::validate::validate_phone_number;
use crate::validate::validate_profile_pic;

verus! {

/// An HTTP-level reply: a status code and a JSON body.
#[derive(Debug)]
pub struct Reply {
    pub status: u16,
    pub body: String,
}

fn reply(status: u16, body: &str) -> (r: Reply)
    ensures
        r.status == status,
        r.body@ == body@,
{
    Reply { status, body: body.to_owned() }
}

/// A cookie directive as the session flow issues it: `HttpOnly`,
/// same-site-lax, scoped to the root path, with the token lifetime as its
/// max-age (zero to clear).
#[derive(Debug)]
pub struct SetCookie {
    pub name: String,
    pub value: String,
    pub max_age_secs: u64,
    pub http_only: bool,
    pub same_site_lax: bool,
    pub path: String,
}

/// The shape of every token cookie this flow sets.
pub open spec fn cookie_spec(c: SetCookie, name: Seq<char>, value: Seq<char>, max_age: u64) -> bool {
    &&& c.name@ == name
    &&& c.value@ == value
    &&& c.max_age_secs == max_age
    &&& c.http_only
    &&& c.same_site_lax
    &&& c.path@ == "/"@
}

fn make_cookie(name: &str, value: String, max_age_secs: u64) -> (c: SetCookie)
    ensures
        cookie_spec(c, name@, value@, max_age_secs),
{
    SetCookie {
        name: name.to_owned(),
        value,
        max_age_secs,
        http_only: true,
        same_site_lax: true,
        path: "/".to_owned(),
    }
}

/// The sanitized user projection returned to clients; it never carries the
/// password hash.
#[derive(Debug)]
pub struct PublicUser {
    pub id: u64,
    pub username: String,
    pub email: String,
    pub phone_number: String,
    pub two_factor_auth: bool,
    pub profile_pic: Option<String>,
    pub bio: Option<String>,
    pub created_at: u64,
}

/// `p` shows exactly the public fields of the stored row `u`.
pub open spec fn is_public_projection(p: PublicUser, u: User) -> bool {
    &&& p.id == u.id
    &&& p.username@ == u.username@
    &&& p.email@ == u.email@
    &&& p.phone_number@ == u.phone_number@
    &&& p.two_factor_auth == u.two_factor_auth
    &&& match (p.profile_pic, u.profile_pic) {
        (Some(a), Some(b)) => a@ == b@,
        (None, None) => true,
        _ => false,
    }
    &&& match (p.bio, u.bio) {
        (Some(a), Some(b)) => a@ == b@,
        (None, None) => true,
        _ => false,
    }
    &&& p.created_at == u.created_at
}

fn project_user(u: &User) -> (p: PublicUser)
    ensures
        is_public_projection(p, *u),
{
    PublicUser {
        id: u.id,
        username: u.username.clone(),
        email: u.email.clone(),
        phone_number: u.phone_number.clone(),
        two_factor_auth: u.two_factor_auth,
        profile_pic: match &u.profile_pic {
            Some(p) => Some(p.clone()),
            None => None,
        },
        bio: match &u.bio {
            Some(b) => Some(b.clone()),
            None => None,
        },
        created_at: u.created_at,
    }
}

/// Resolve the caller from the ACCESS token cookie, or build the
/// unauthorized reply that tells the client what lapsed.
fn resolve_caller(config: &JwtConfig, access_token: Option<&String>, now: u64) -> (r: Result<
    u64,
    Reply,
>)
    ensures
        r matches Ok(id) ==> access_token matches Some(t) && valid_token_for(
            t@,
            config.spec_secret(JwtTokenKind::ACCESS),
            id,
            now,
        ),
        r matches Err(rep) ==> rep.status == 401,
        access_token is None ==> (r matches Err(rep) && rep.body@
            == "{\"detail\":\"missing jwt token\"}"@),
        access_token matches Some(t) ==> jwt_decoded(
            t@,
            config.spec_secret(JwtTokenKind::ACCESS),
        ) matches Some(d) ==> d.exp > now ==> (r matches Ok(id) && id == d.sub),
        (access_token matches Some(t) && (jwt_decoded(
            t@,
            config.spec_secret(JwtTokenKind::ACCESS),
        ) matches Some(d) && d.exp <= now)) ==> (r matches Err(rep) && rep.body@
            == "{\"detail\":\"access token expired\"}"@),
        (access_token matches Some(t) && jwt_decoded(
            t@,
            config.spec_secret(JwtTokenKind::ACCESS),
        ) is None) ==> (r matches Err(rep) && rep.body@
            == "{\"detail\":\"invalid access token\"}"@),
{
    let token = match access_token {
        Some(t) => t,
        None => {
            return Err(reply(401, "{\"detail\":\"missing jwt token\"}"));
        },
    };
    match decode_jwt_token(config, token.as_str(), JwtTokenKind::ACCESS, now) {
        Ok(claims) => Ok(claims.sub),
        Err(JwtError::Expired) => Err(reply(401, "{\"detail\":\"access token expired\"}")),
        Err(JwtError::Invalid) => Err(reply(401, "{\"detail\":\"invalid access token\"}")),
        Err(JwtError::Other(_)) => Err(reply(401, "{\"detail\":\"token verification failed\"}")),
    }
}

/// No stored row matches this username with this password.
pub open spec fn no_matching_login(
    store: CredentialStore,
    username: Seq<char>,
    password: Seq<char>,
) -> bool {
    forall|i: int|
        0 <= i < store.users@.len() ==> (#[trigger] store.users@[i].username@ != username
            || !bcrypt_matches(password, store.users@[i].password_hash@))
}

pub enum LoginResponse {
    Success { user: PublicUser, access_cookie: SetCookie, refresh_cookie: SetCookie },
    CsrfFailed(Reply),
    Rejected(Reply),
    ServerError(Reply),
}

/// Log a user in: CSRF first, then field-format checks, then the password
/// check against the stored hash; every failure after the CSRF guard is
/// the same uniform rejection, and success carries the sanitized user
/// projection and the fresh ACCESS and REFRESH cookies.
pub fn post_login(
    store: &CredentialStore,
    config: &JwtConfig,
    csrf_header: Option<&String>,
    username: &str,
    password: &str,
    now: u64,
) -> (r: LoginResponse)
    requires
        store.wf(),
        now + REFRESH_TOKEN_LIFETIME_SECS <= u64::MAX,
    ensures
        (r is CsrfFailed) <==> csrf_header is None,
        r matches LoginResponse::CsrfFailed(rep) ==> rep.status == 401 && rep.body@
            == "{\"detail\":\"csrf failed\"}"@,
        (r is Rejected) <==> (csrf_header is Some && (!spec_valid_username(username@)
            || !spec_valid_password(password@) || no_matching_login(*store, username@, password@))),
        r matches LoginResponse::Rejected(rep) ==> rep.status == 401 && rep.body@
            == "{\"detail\":\"incorrect login\"}"@,
        r matches LoginResponse::Success { user, access_cookie, refresh_cookie } ==> exists|i: int|
            {
                &&& 0 <= i < store.users@.len()
                &&& (#[trigger] store.users@[i].username@) == username@
                &&& bcrypt_matches(password@, store.users@[i].password_hash@)
                &&& is_public_projection(user, store.users@[i])
                &&& cookie_spec(
                    access_cookie,
                    "access_token"@,
                    jwt_token_of(
                        store.users@[i].id,
                        spec_issuer(),
                        now,
                        (now + ACCESS_TOKEN_LIFETIME_SECS) as u64,
                        config.spec_secret(JwtTokenKind::ACCESS),
                    ),
                    ACCESS_TOKEN_LIFETIME_SECS,
                )
                &&& cookie_spec(
                    refresh_cookie,
                    "refresh_token"@,
                    jwt_token_of(
                        store.users@[i].id,
                        spec_issuer(),
                        now,
                        (now + REFRESH_TOKEN_LIFETIME_SECS) as u64,
                        config.spec_secret(JwtTokenKind::REFRESH),
                    ),
                    REFRESH_TOKEN_LIFETIME_SECS,
                )
            },
        r matches LoginResponse::ServerError(rep) ==> rep.status == 500,
        (csrf_header is Some && spec_valid_username(username@) && spec_valid_password(password@)
            && !no_matching_login(*store, username@, password@)) ==> r is Success,
{
    if !verify_csrf_token(csrf_header) {
        return LoginResponse::CsrfFailed(reply(401, "{\"detail\":\"csrf failed\"}"));
    }
    if !validate_existing_username(username) {
        proof {
            assert(no_matching_login(*store, username@, password@) || !spec_valid_username(
                username@,
            ));
        }
        return LoginResponse::Rejected(reply(401, "{\"detail\":\"incorrect login\"}"));
    }
    if !validate_password(password.to_owned()) {
        return LoginResponse::Rejected(reply(401, "{\"detail\":\"incorrect login\"}"));
    }
    let user = match authenticate_user(store, username, password) {
        Some(user) => user,
        None => {
            return LoginResponse::Rejected(reply(401, "{\"detail\":\"incorrect login\"}"));
        },
    };
    proof {
        let i = choose|i: int| 0 <= i < store.users@.len() && store.users@[i] == *user;
        assert(store.users@[i].username@ == username@);
        assert(!no_matching_login(*store, username@, password@));
    }
    let access_token = match encode_jwt_token(config, user.id, JwtTokenKind::ACCESS, now) {
        Ok(t) => t,
        Err(_) => {
            return LoginResponse::ServerError(
                reply(500, "{\"detail\":\"an unexpected error occurred\"}"),
            );
        },
    };
    let refresh_token = match encode_jwt_token(config, user.id, JwtTokenKind::REFRESH, now) {
        Ok(t) => t,
        Err(_) => {
            return LoginResponse::ServerError(
                reply(500, "{\"detail\":\"an unexpected error occurred\"}"),
            );
        },
    };
    let projection = project_user(user);
    let ghost row = *user;
    let access_cookie = make_cookie("access_token", access_token, ACCESS_TOKEN_LIFETIME_SECS);
    let refresh_cookie = make_cookie("refresh_token", refresh_token, REFRESH_TOKEN_LIFETIME_SECS);
    proof {
        let i = choose|i: int| 0 <= i < store.users@.len() && store.users@[i] == row;
        assert(store.users@[i].username@ == username@);
    }
    LoginResponse::Success { user: projection, access_cookie, refresh_cookie }
}

pub enum RegisterResponse {
    Success { user: PublicUser, user_id: u64, access_cookie: SetCookie, refresh_cookie: SetCookie },
    CsrfFailed(Reply),
    Invalid(Reply),
    Conflict(Reply),
    ServerError(Reply),
}

/// The field-specific rejection a registration is owed, checked field by
/// field: each field's format, then its uniqueness, with the password
/// format last. The flag says whether the rejection is a conflict (a
/// taken value) rather than a format failure.
pub open spec fn register_rejection(
    store: CredentialStore,
    username: Seq<char>,
    email: Seq<char>,
    phone: Seq<char>,
    password: Seq<char>,
) -> Option<(bool, Seq<char>)> {
    if !spec_valid_username(username) {
        Option::Some((false, "{\"detail\":\"invalid username format\"}"@))
    } else if store.has_username_ci(username) {
        Option::Some((true, "{\"detail\":\"username taken\"}"@))
    } else if !spec_valid_email(email) {
        Option::Some((false, "{\"detail\":\"invalid email format\"}"@))
    } else if store.has_email(email) {
        Option::Some((true, "{\"detail\":\"email taken\"}"@))
    } else if !spec_valid_phone(phone) {
        Option::Some((false, "{\"detail\":\"invalid phone number format\"}"@))
    } else if store.has_phone(phone) {
        Option::Some((true, "{\"detail\":\"phone number taken\"}"@))
    } else if !spec_valid_password(password) {
        Option::Some((false, "{\"detail\":\"invalid password format\"}"@))
    } else {
        Option::None
    }
}

/// Register a new account and, as one fused step, authenticate it: after
/// the CSRF guard, each field's format and uniqueness are checked field
/// by field and answered with a field-specific 400; then the
/// password is hashed, the user row is inserted and a fresh token pair is
/// issued. With no rejection owed, only a hashing or id-space failure can
/// stand between the caller and success.
pub fn post_register(
    store: &mut CredentialStore,
    config: &JwtConfig,
    csrf_header: Option<&String>,
    username: &str,
    email: &str,
    phone_number: &str,
    password: &str,
    now: u64,
) -> (r: RegisterResponse)
    requires
        old(store).wf(),
        now + REFRESH_TOKEN_LIFETIME_SECS <= u64::MAX,
    ensures
        final(store).wf(),
        !(r is Success) ==> *final(store) == *old(store),
        (r is CsrfFailed) <==> csrf_header is None,
        r matches RegisterResponse::CsrfFailed(rep) ==> rep.status == 401 && rep.body@
            == "{\"detail\":\"csrf failed\"}"@,
        csrf_header is Some ==> (match register_rejection(
            *old(store),
            username@,
            email@,
            phone_number@,
            password@,
        ) {
            Option::Some(rej) => {
                &&& !(r is Success) && !(r is CsrfFailed) && !(r is ServerError)
                &&& (r matches RegisterResponse::Invalid(rep) ==> !rej.0 && rep.status == 400
                    && rep.body@ == rej.1)
                &&& (r matches RegisterResponse::Conflict(rep) ==> rej.0 && rep.status == 400
                    && rep.body@ == rej.1)
            },
            Option::None => (r is Success) || (r is ServerError),
        }),
        r matches RegisterResponse::ServerError(rep) ==> rep.status == 500,
        (csrf_header is Some && register_rejection(
            *old(store),
            username@,
            email@,
            phone_number@,
            password@,
        ) is None && old(store).next_id < u64::MAX) ==> r is Success,
        r matches RegisterResponse::Success { user, user_id, access_cookie, refresh_cookie } ==> {
            &&& user_id == old(store).next_id
            &&& is_public_projection(user, final(store).users@.last())
            &&& final(store).users@.len() == old(store).users@.len() + 1
            &&& final(store).users@.last().id == user_id
            &&& final(store).users@.last().username@ == username@
            &&& final(store).users@.last().email@ == email@
            &&& final(store).users@.last().phone_number@ == phone_number@
            &&& !final(store).users@.last().two_factor_auth
            &&& final(store).users@.last().created_at == now
            &&& bcrypt_matches(password@, final(store).users@.last().password_hash@)
            &&& final(store).users@ == old(store).users@.push(final(store).users@.last())
            &&& final(store).friend_requests@ == old(store).friend_requests@
            &&& final(store).friendships@ == old(store).friendships@
            &&& cookie_spec(
                access_cookie,
                "access_token"@,
                jwt_token_of(
                    user_id,
                    spec_issuer(),
                    now,
                    (now + ACCESS_TOKEN_LIFETIME_SECS) as u64,
                    config.spec_secret(JwtTokenKind::ACCESS),
                ),
                ACCESS_TOKEN_LIFETIME_SECS,
            )
            &&& cookie_spec(
                refresh_cookie,
                "refresh_token"@,
                jwt_token_of(
                    user_id,
                    spec_issuer(),
                    now,
                    (now + REFRESH_TOKEN_LIFETIME_SECS) as u64,
                    config.spec_secret(JwtTokenKind::REFRESH),
                ),
                REFRESH_TOKEN_LIFETIME_SECS,
            )
        },
{
    if !verify_csrf_token(csrf_header) {
        return RegisterResponse::CsrfFailed(reply(401, "{\"detail\":\"csrf failed\"}"));
    }
    if !validate_existing_username(username) {
        return RegisterResponse::Invalid(reply(400, "{\"detail\":\"invalid username format\"}"));
    }
    if store.has_username_ci_exec(username) {
        return RegisterResponse::Conflict(reply(400, "{\"detail\":\"username taken\"}"));
    }
    if !validate_email(email.to_owned()) {
        return RegisterResponse::Invalid(reply(400, "{\"detail\":\"invalid email format\"}"));
    }
    if store.has_email_exec(email) {
        return RegisterResponse::Conflict(reply(400, "{\"detail\":\"email taken\"}"));
    }
    if !validate_phone_number(phone_number.to_owned()) {
        return RegisterResponse::Invalid(
            reply(400, "{\"detail\":\"invalid phone number format\"}"),
        );
    }
    if store.has_phone_exec(phone_number) {
        return RegisterResponse::Conflict(reply(400, "{\"detail\":\"phone number taken\"}"));
    }
    if !validate_password(password.to_owned()) {
        return RegisterResponse::Invalid(reply(400, "{\"detail\":\"invalid password format\"}"));
    }
    let password_hash = match hash_password(password, 10) {
        Ok(h) => h,
        Err(_) => {
            return RegisterResponse::ServerError(
                reply(500, "{\"detail\":\"an unexpected error occurred\"}"),
            );
        },
    };
    // Sign the fused-login token pair for the id the insert will assign,
    // so that the store is only ever touched on the way to success.
    let fresh_id = store.next_id;
    let access_token = match encode_jwt_token(config, fresh_id, JwtTokenKind::ACCESS, now) {
        Ok(t) => t,
        Err(_) => {
            return RegisterResponse::ServerError(
                reply(500, "{\"detail\":\"an unexpected error occurred\"}"),
            );
        },
    };
    let refresh_token = match encode_jwt_token(config, fresh_id, JwtTokenKind::REFRESH, now) {
        Ok(t) => t,
        Err(_) => {
            return RegisterResponse::ServerError(
                reply(500, "{\"detail\":\"an unexpected error occurred\"}"),
            );
        },
    };
    let user_id = match add_user_to_db(
        store,
        username.to_owned(),
        email.to_owned(),
        phone_number.to_owned(),
        password_hash,
        now,
    ) {
        Ok(id) => id,
        Err(_) => {
            return RegisterResponse::ServerError(
                reply(500, "{\"detail\":\"an unexpected error occurred\"}"),
            );
        },
    };
    let access_cookie = make_cookie("access_token", access_token, ACCESS_TOKEN_LIFETIME_SECS);
    let refresh_cookie = make_cookie("refresh_token", refresh_token, REFRESH_TOKEN_LIFETIME_SECS);
    // The fused-login response body: the sanitized projection of the row
    // just inserted, every field of which is already in hand.
    let user = PublicUser {
        id: user_id,
        username: username.to_owned(),
        email: email.to_owned(),
        phone_number: phone_number.to_owned(),
        two_factor_auth: false,
        profile_pic: None,
        bio: None,
        created_at: now,
    };
    RegisterResponse::Success { user, user_id, access_cookie, refresh_cookie }
}

pub enum RefreshResponse {
    Success { access_cookie: SetCookie },
    Forbidden(Reply),
    ServerError(Reply),
}

/// Mint a new ACCESS token for the subject of a valid REFRESH token whose
/// user still exists; the REFRESH token itself is not rotated. A missing,
/// invalid or expired REFRESH token, or a vanished subject, is forbidden.
pub fn post_refresh(
    store: &CredentialStore,
    config: &JwtConfig,
    refresh_token: Option<&String>,
    now: u64,
) -> (r: RefreshResponse)
    requires
        store.wf(),
        now + ACCESS_TOKEN_LIFETIME_SECS <= u64::MAX,
    ensures
        refresh_token is None ==> r is Forbidden,
        r matches RefreshResponse::Forbidden(rep) ==> rep.status == 403,
        (refresh_token matches Some(t) && jwt_decoded(
            t@,
            config.spec_secret(JwtTokenKind::REFRESH),
        ) is None) ==> r is Forbidden,
        (refresh_token matches Some(t) && (jwt_decoded(
            t@,
            config.spec_secret(JwtTokenKind::REFRESH),
        ) matches Some(d) && d.exp <= now)) ==> r is Forbidden,
        (refresh_token matches Some(t) && (jwt_decoded(
            t@,
            config.spec_secret(JwtTokenKind::REFRESH),
        ) matches Some(d) && d.exp > now && !store.has_user_id(d.sub))) ==> r is Forbidden,
        refresh_token matches Some(t) ==> jwt_decoded(
            t@,
            config.spec_secret(JwtTokenKind::REFRESH),
        ) matches Some(d) ==> (d.exp > now && store.has_user_id(d.sub)) ==> (
        r matches RefreshResponse::Success { access_cookie } && cookie_spec(
            access_cookie,
            "access_token"@,
            jwt_token_of(
                d.sub,
                spec_issuer(),
                now,
                (now + ACCESS_TOKEN_LIFETIME_SECS) as u64,
                config.spec_secret(JwtTokenKind::ACCESS),
            ),
            ACCESS_TOKEN_LIFETIME_SECS,
        ) && (jwt_decoded(
            access_cookie.value@,
            config.spec_secret(JwtTokenKind::ACCESS),
        ) matches Some(nd) && nd.sub == d.sub && nd.exp == now + ACCESS_TOKEN_LIFETIME_SECS)),
        r matches RefreshResponse::Success { access_cookie } ==> (refresh_token matches Some(t)
            && (jwt_decoded(t@, config.spec_secret(JwtTokenKind::REFRESH)) matches Some(d) && d.exp
            > now && store.has_user_id(d.sub))),
        r matches RefreshResponse::ServerError(rep) ==> rep.status == 500,
{
    let token = match refresh_token {
        Some(t) => t,
        None => {
            return RefreshResponse::Forbidden(reply(403, "{\"detail\":\"missing refresh token\"}"));
        },
    };
    let claims = match decode_jwt_token(config, token.as_str(), JwtTokenKind::REFRESH, now) {
        Ok(claims) => claims,
        Err(_) => {
            return RefreshResponse::Forbidden(reply(403, "{\"detail\":\"invalid refresh token\"}"));
        },
    };
    if !store.contains_user(claims.sub) {
        return RefreshResponse::Forbidden(reply(403, "{\"detail\":\"User not found\"}"));
    }
    let access_token = match encode_jwt_token(config, claims.sub, JwtTokenKind::ACCESS, now) {
        Ok(t) => t,
        Err(_) => {
            return RefreshResponse::ServerError(
                reply(500, "{\"detail\":\"internal server error\"}"),
            );
        },
    };
    let access_cookie = make_cookie("access_token", access_token, ACCESS_TOKEN_LIFETIME_SECS);
    RefreshResponse::Success { access_cookie }
}

pub struct LogoutResponse {
    pub access_cookie: SetCookie,
    pub refresh_cookie: SetCookie,
    pub body: Reply,
}

/// Log out: unconditionally direct the client to drop both tokens by
/// setting empty, zero-lifetime cookies; logout always succeeds and does
/// not depend on the caller's authentication state.
pub fn post_logout() -> (r: LogoutResponse)
    ensures
        cookie_spec(r.access_cookie, "access_token"@, Seq::<char>::empty(), 0),
        cookie_spec(r.refresh_cookie, "refresh_token"@, Seq::<char>::empty(), 0),
        r.body.status == 200,
        r.body.body@ == "{\"detail\":\"logout successful\"}"@,
{
    let (access_value, refresh_value) = crate::jwt::clear_jwt_tokens();
    LogoutResponse {
        access_cookie: make_cookie("access_token", access_value, 0),
        refresh_cookie: make_cookie("refresh_token", refresh_value, 0),
        body: reply(200, "{\"detail\":\"logout successful\"}"),
    }
}

/// Return the caller's own sanitized record, resolved from the ACCESS
/// token.
pub fn get_me(
    store: &CredentialStore,
    config: &JwtConfig,
    access_token: Option<&String>,
    now: u64,
) -> (r: Result<PublicUser, Reply>)
    requires
        store.wf(),
    ensures
        access_token is None ==> r is Err,
        r matches Ok(p) ==> exists|i: int|
            {
                &&& 0 <= i < store.users@.len()
                &&& is_public_projection(p, #[trigger] store.users@[i])
                &&& access_token matches Some(t) && valid_token_for(
                    t@,
                    config.spec_secret(JwtTokenKind::ACCESS),
                    store.users@[i].id,
                    now,
                )
            },
        r matches Err(rep) ==> rep.status == 401,
        access_token matches Some(t) ==> jwt_decoded(
            t@,
            config.spec_secret(JwtTokenKind::ACCESS),
        ) matches Some(d) ==> (d.exp > now && store.has_user_id(d.sub)) ==> (r matches Ok(p)
            && exists|i: int|
            0 <= i < store.users@.len() && (#[trigger] store.users@[i]).id == d.sub
                && is_public_projection(p, store.users@[i])),
        access_token matches Some(t) ==> jwt_decoded(
            t@,
            config.spec_secret(JwtTokenKind::ACCESS),
        ) matches Some(d) ==> (d.exp > now && !store.has_user_id(d.sub)) ==> (r matches Err(rep)
            && rep.body@ == "{\"detail\":\"User not found\"}"@),
{
    let caller = match resolve_caller(config, access_token, now) {
        Ok(id) => id,
        Err(rep) => {
            return Err(rep);
        },
    };
    match store.get_user_by_id(caller) {
        Some(user) => {
            let p = project_user(user);
            proof {
                let i = choose|i: int| 0 <= i < store.users@.len() && store.users@[i] == *user;
                assert(is_public_projection(p, store.users@[i]));
            }
            Ok(p)
        },
        None => Err(reply(401, "{\"detail\":\"User not found\"}")),
    }
}

/// Return the caller's profile; the same resolution as `get_me`, kept as
/// the profile endpoint.
pub fn get_profile(
    store: &CredentialStore,
    config: &JwtConfig,
    access_token: Option<&String>,
    now: u64,
) -> (r: Result<PublicUser, Reply>)
    requires
        store.wf(),
    ensures
        access_token is None ==> r is Err,
        r matches Ok(p) ==> exists|i: int|
            {
                &&& 0 <= i < store.users@.len()
                &&& is_public_projection(p, #[trigger] store.users@[i])
                &&& access_token matches Some(t) && valid_token_for(
                    t@,
                    config.spec_secret(JwtTokenKind::ACCESS),
                    store.users@[i].id,
                    now,
                )
            },
        r matches Err(rep) ==> rep.status == 401,
        access_token matches Some(t) ==> jwt_decoded(
            t@,
            config.spec_secret(JwtTokenKind::ACCESS),
        ) matches Some(d) ==> (d.exp > now && store.has_user_id(d.sub)) ==> (r matches Ok(p)
            && exists|i: int|
            0 <= i < store.users@.len() && (#[trigger] store.users@[i]).id == d.sub
                && is_public_projection(p, store.users@[i])),
        access_token matches Some(t) ==> jwt_decoded(
            t@,
            config.spec_secret(JwtTokenKind::ACCESS),
        ) matches Some(d) ==> (d.exp > now && !store.has_user_id(d.sub)) ==> (r matches Err(rep)
            && rep.body@ == "{\"detail\":\"User not found\"}"@),
{
    get_me(store, config, access_token, now)
}

/// The rejection a profile change set is owed for the caller `id`,
/// checked field by field — each supplied field's format, then its
/// uniqueness against every other account — in field order.
pub open spec fn profile_rejection(
    store: CredentialStore,
    id: u64,
    changes: UpdateUser,
) -> Option<Seq<char>> {
    if changes.username matches Some(name) && !spec_valid_username(name@) {
        Option::Some("{\"detail\":\"invalid username format\"}"@)
    } else if changes.username matches Some(name) && crate::profile::username_taken_by_other(
        store.users@,
        id,
        name@,
    ) {
        Option::Some("{\"detail\":\"username taken\"}"@)
    } else if changes.email matches Some(email) && !spec_valid_email(email@) {
        Option::Some("{\"detail\":\"invalid email format\"}"@)
    } else if changes.email matches Some(email) && crate::profile::email_taken_by_other(
        store.users@,
        id,
        email@,
    ) {
        Option::Some("{\"detail\":\"email taken\"}"@)
    } else if changes.phone_number matches Some(phone) && !spec_valid_phone(phone@) {
        Option::Some("{\"detail\":\"invalid phone number format\"}"@)
    } else if changes.phone_number matches Some(phone) && crate::profile::phone_taken_by_other(
        store.users@,
        id,
        phone@,
    ) {
        Option::Some("{\"detail\":\"phone number taken\"}"@)
    } else if changes.bio matches Some(bio) && !spec_valid_bio(bio@) {
        Option::Some("{\"detail\":\"invalid bio format\"}"@)
    } else if changes.profile_pic matches Some(pic) && !spec_valid_profile_pic(pic@) {
        Option::Some("{\"detail\":\"invalid profile pic format\"}"@)
    } else {
        Option::None
    }
}

/// Update the caller's profile: CSRF first, then the caller's identity,
/// then each supplied field — its format, then its uniqueness against
/// every other account — in field order. With a valid caller and no
/// rejection owed, the update and its 200 reply are owed.
pub fn patch_profile(
    store: &mut CredentialStore,
    config: &JwtConfig,
    csrf_header: Option<&String>,
    access_token: Option<&String>,
    changes: UpdateUser,
    now: u64,
) -> (r: Reply)
    requires
        old(store).wf(),
    ensures
        final(store).wf(),
        csrf_header is None ==> (r.status == 401 && r.body@ == "{\"detail\":\"csrf failed\"}"@
            && *final(store) == *old(store)),
        access_token is None ==> (*final(store) == *old(store) && r.status == 401),
        (csrf_header is Some && (access_token matches Some(t) && jwt_decoded(
            t@,
            config.spec_secret(JwtTokenKind::ACCESS),
        ) is None)) ==> (*final(store) == *old(store) && r.status == 401),
        (csrf_header is Some && (access_token matches Some(t) && (jwt_decoded(
            t@,
            config.spec_secret(JwtTokenKind::ACCESS),
        ) matches Some(d) && d.exp <= now))) ==> (*final(store) == *old(store) && r.status == 401),
        r.status != 200 ==> *final(store) == *old(store),
        r.status == 200 ==> csrf_header is Some && exists|i: int|
            {
                &&& 0 <= i < old(store).users@.len()
                &&& access_token matches Some(t) && valid_token_for(
                    t@,
                    config.spec_secret(JwtTokenKind::ACCESS),
                    (#[trigger] old(store).users@[i]).id,
                    now,
                )
                &&& final(store).users@ == old(store).users@.update(
                    i,
                    crate::profile::apply_changes(old(store).users@[i], changes),
                )
                &&& (changes.username matches Some(name) ==> spec_valid_username(name@))
                &&& (changes.email matches Some(email) ==> spec_valid_email(email@))
                &&& (changes.phone_number matches Some(phone) ==> spec_valid_phone(phone@))
                &&& (changes.bio matches Some(bio) ==> spec_valid_bio(bio@))
                &&& (changes.profile_pic matches Some(pic) ==> spec_valid_profile_pic(pic@))
            },
        access_token matches Some(t) ==> jwt_decoded(
            t@,
            config.spec_secret(JwtTokenKind::ACCESS),
        ) matches Some(d) ==> (csrf_header is Some && d.exp > now) ==> (match profile_rejection(
            *old(store),
            d.sub,
            changes,
        ) {
            Option::Some(body) => r.status == 400 && r.body@ == body && *final(store) == *old(
                store,
            ),
            Option::None => {
                &&& (!old(store).has_user_id(d.sub) ==> r.status == 400 && r.body@
                    == "{\"detail\":\"failed to update user\"}"@)
                &&& (old(store).has_user_id(d.sub) ==> r.status == 200)
            },
        }),
        final(store).friend_requests@ == old(store).friend_requests@,
        final(store).friendships@ == old(store).friendships@,
{
    if !verify_csrf_token(csrf_header) {
        return reply(401, "{\"detail\":\"csrf failed\"}");
    }
    let caller = match resolve_caller(config, access_token, now) {
        Ok(id) => id,
        Err(rep) => {
            return rep;
        },
    };
    if let Some(name) = &changes.username {
        if !validate_existing_username(name.as_str()) {
            return reply(400, "{\"detail\":\"invalid username format\"}");
        }
        if crate::profile::username_taken_by_other_exec(store, caller, name.as_str()) {
            return reply(400, "{\"detail\":\"username taken\"}");
        }
    }
    if let Some(email) = &changes.email {
        if !validate_email(email.clone()) {
            return reply(400, "{\"detail\":\"invalid email format\"}");
        }
        if crate::profile::email_taken_by_other_exec(store, caller, email.as_str()) {
            return reply(400, "{\"detail\":\"email taken\"}");
        }
    }
    if let Some(phone) = &changes.phone_number {
        if !validate_phone_number(phone.clone()) {
            return reply(400, "{\"detail\":\"invalid phone number format\"}");
        }
        if crate::profile::phone_taken_by_other_exec(store, caller, phone.as_str()) {
            return reply(400, "{\"detail\":\"phone number taken\"}");
        }
    }
    if let Some(bio) = &changes.bio {
        if !validate_bio(bio.as_str()) {
            return reply(400, "{\"detail\":\"invalid bio format\"}");
        }
    }
    if let Some(pic) = &changes.profile_pic {
        if !validate_profile_pic(pic.as_str()) {
            return reply(400, "{\"detail\":\"invalid profile pic format\"}");
        }
    }
    match apply_profile_update(store, caller, changes) {
        Ok(_) => {
            proof {
                let i = choose|i: int|
                    {
                        &&& 0 <= i < old(store).users@.len()
                        &&& #[trigger] old(store).users@[i].id == caller
                        &&& !crate::profile::update_conflicts(old(store).users@, i, changes)
                        &&& store.users@ == old(store).users@.update(
                            i,
                            crate::profile::apply_changes(old(store).users@[i], changes),
                        )
                    };
                assert(0 <= i < old(store).users@.len() && old(store).users@[i].id == caller);
            }
            reply(200, "")
        },
        Err(UpdateError::NotFound) => reply(400, "{\"detail\":\"failed to update user\"}"),
        Err(_) => {
            // Unreachable: the per-field checks above already excluded
            // every collision the store update could find.
            proof {
                let i = choose|i: int|
                    {
                        &&& 0 <= i < old(store).users@.len()
                        &&& #[trigger] old(store).users@[i].id == caller
                        &&& crate::profile::update_conflicts(old(store).users@, i, changes)
                    };
                crate::profile::lemma_conflicts_iff_taken(old(store).users@, i, changes);
                assert(false);
            }
            reply(400, "{\"detail\":\"failed to update user\"}")
        },
    }
}

/// The reply owed for each outcome of sending a friend request.
pub open spec fn add_friend_reply(r: Reply, res: Result<AddFriendResult, FriendError>) -> bool {
    match res {
        Ok(AddFriendResult::Created) => r.status == 200 && r.body@
            == "{\"detail\":\"friend request sent successfully\"}"@,
        Ok(AddFriendResult::AlreadyExists) => r.status == 400 && r.body@
            == "{\"detail\":\"friend request already exists\"}"@,
        Ok(AddFriendResult::AlreadyFriends) => r.status == 400 && r.body@
            == "{\"detail\":\"already friends with this user\"}"@,
        Err(FriendError::ReceiverNotFound) => r.status == 404 && r.body@
            == "{\"detail\":\"User not found\"}"@,
        Err(FriendError::RequesterNotFound) => r.status == 500 && r.body@
            == "{\"detail\":\"could not send friend request\"}"@,
    }
}

/// The reply owed for each outcome of resolving a pending request.
pub open spec fn resolve_reply(r: Reply, res: UpdateFriendOutcome) -> bool {
    match res {
        UpdateFriendOutcome::Accepted => r.status == 200 && r.body@
            == "{\"detail\":\"friend request accepted\"}"@,
        UpdateFriendOutcome::Declined => r.status == 200 && r.body@
            == "{\"detail\":\"friend request declined\"}"@,
        UpdateFriendOutcome::NotFound => r.status == 200 && r.body@
            == "{\"detail\":\"friend request no longer exists\"}"@,
    }
}

/// Send a friend request to the user a username resolves to: the CSRF
/// guard runs before anything else, then the caller's identity, then the
/// username's format, then the engine; with a valid caller and username
/// the engine's outcome and its exact reply are owed.
pub fn post_add(
    store: &mut CredentialStore,
    config: &JwtConfig,
    csrf_header: Option<&String>,
    access_token: Option<&String>,
    username: &str,
    now: u64,
) -> (r: Reply)
    requires
        old(store).wf(),
    ensures
        final(store).wf(),
        final(store).users@ == old(store).users@,
        final(store).friendships@ == old(store).friendships@,
        csrf_header is None ==> (r.status == 401 && r.body@ == "{\"detail\":\"csrf failed\"}"@
            && *final(store) == *old(store)),
        access_token is None ==> (*final(store) == *old(store) && r.status == 401),
        (csrf_header is Some && (access_token matches Some(t) && jwt_decoded(
            t@,
            config.spec_secret(JwtTokenKind::ACCESS),
        ) is None)) ==> (*final(store) == *old(store) && r.status == 401),
        (csrf_header is Some && (access_token matches Some(t) && (jwt_decoded(
            t@,
            config.spec_secret(JwtTokenKind::ACCESS),
        ) matches Some(d) && d.exp <= now))) ==> (*final(store) == *old(store) && r.status == 401),
        access_token matches Some(t) ==> jwt_decoded(
            t@,
            config.spec_secret(JwtTokenKind::ACCESS),
        ) matches Some(d) ==> (csrf_header is Some && d.exp > now) ==> (if !spec_valid_username(
            username@,
        ) {
            *final(store) == *old(store) && r.status == 401 && r.body@
                == "{\"detail\":\"invalid username\"}"@
        } else {
            exists|res: Result<AddFriendResult, FriendError>|
                #[trigger] add_request_post(*old(store), *final(store), d.sub, username@, res)
                    && add_friend_reply(r, res)
        }),
{
    if !verify_csrf_token(csrf_header) {
        return reply(401, "{\"detail\":\"csrf failed\"}");
    }
    let caller = match resolve_caller(config, access_token, now) {
        Ok(id) => id,
        Err(rep) => {
            return rep;
        },
    };
    if !validate_existing_username(username) {
        return reply(401, "{\"detail\":\"invalid username\"}");
    }
    send_friend_request(store, caller, username)
}

/// Send a friend request on behalf of an authenticated caller and put the
/// engine's outcome into words: created, already pending, already friends,
/// an unresolvable receiver, or a dangling caller reference. An
/// unresolvable receiver is a request-level failure (404); only the
/// dangling caller reference — an internal inconsistency — is answered
/// with a 500.
pub fn send_friend_request(
    store: &mut CredentialStore,
    requesting_user_id: u64,
    receiver_username: &str,
) -> (r: Reply)
    requires
        old(store).wf(),
    ensures
        final(store).wf(),
        exists|res: Result<AddFriendResult, FriendError>|
            #[trigger] add_request_post(
                *old(store),
                *final(store),
                requesting_user_id,
                receiver_username@,
                res,
            ) && add_friend_reply(r, res),
{
    match add_friend_request_to_db(store, requesting_user_id, receiver_username) {
        Ok(AddFriendResult::Created) => reply(
            200,
            "{\"detail\":\"friend request sent successfully\"}",
        ),
        Ok(AddFriendResult::AlreadyExists) => reply(
            400,
            "{\"detail\":\"friend request already exists\"}",
        ),
        Ok(AddFriendResult::AlreadyFriends) => reply(
            400,
            "{\"detail\":\"already friends with this user\"}",
        ),
        Err(FriendError::ReceiverNotFound) => reply(404, "{\"detail\":\"User not found\"}"),
        Err(FriendError::RequesterNotFound) => reply(
            500,
            "{\"detail\":\"could not send friend request\"}",
        ),
    }
}

/// Resolve a pending friend request addressed to the caller, accepting or
/// declining it; the CSRF guard runs first, and with a valid caller the
/// engine's outcome and its exact reply are owed.
pub fn patch_add(
    store: &mut CredentialStore,
    config: &JwtConfig,
    csrf_header: Option<&String>,
    access_token: Option<&String>,
    requesting_user_id: u64,
    accept: bool,
    now: u64,
) -> (r: Reply)
    requires
        old(store).wf(),
    ensures
        final(store).wf(),
        final(store).users@ == old(store).users@,
        csrf_header is None ==> (r.status == 401 && r.body@ == "{\"detail\":\"csrf failed\"}"@
            && *final(store) == *old(store)),
        access_token is None ==> (*final(store) == *old(store) && r.status == 401),
        (csrf_header is Some && (access_token matches Some(t) && jwt_decoded(
            t@,
            config.spec_secret(JwtTokenKind::ACCESS),
        ) is None)) ==> (*final(store) == *old(store) && r.status == 401),
        (csrf_header is Some && (access_token matches Some(t) && (jwt_decoded(
            t@,
            config.spec_secret(JwtTokenKind::ACCESS),
        ) matches Some(d) && d.exp <= now))) ==> (*final(store) == *old(store) && r.status == 401),
        access_token matches Some(t) ==> jwt_decoded(
            t@,
            config.spec_secret(JwtTokenKind::ACCESS),
        ) matches Some(d) ==> (csrf_header is Some && d.exp > now) ==> exists|
            res: UpdateFriendOutcome,
        |
            #[trigger] resolve_request_post(
                *old(store),
                *final(store),
                d.sub,
                requesting_user_id,
                accept,
                res,
            ) && resolve_reply(r, res),
{
    if !verify_csrf_token(csrf_header) {
        return reply(401, "{\"detail\":\"csrf failed\"}");
    }
    let caller = match resolve_caller(config, access_token, now) {
        Ok(id) => id,
        Err(rep) => {
            return rep;
        },
    };
    match update_friend_request(store, caller, requesting_user_id, accept) {
        UpdateFriendOutcome::Accepted => reply(200, "{\"detail\":\"friend request accepted\"}"),
        UpdateFriendOutcome::Declined => reply(200, "{\"detail\":\"friend request declined\"}"),
        UpdateFriendOutcome::NotFound => reply(
            200,
            "{\"detail\":\"friend request no longer exists\"}",
        ),
    }
}

/// Remove the friendship between the caller and another user; the CSRF
/// guard runs first, and with a valid caller the idempotent removal and
/// its success reply are owed.
pub fn post_remove(
    store: &mut CredentialStore,
    config: &JwtConfig,
    csrf_header: Option<&String>,
    access_token: Option<&String>,
    removed_friend_id: u64,
    now: u64,
) -> (r: Reply)
    requires
        old(store).wf(),
    ensures
        final(store).wf(),
        final(store).users@ == old(store).users@,
        final(store).friend_requests@ == old(store).friend_requests@,
        csrf_header is None ==> (r.status == 401 && r.body@ == "{\"detail\":\"csrf failed\"}"@
            && *final(store) == *old(store)),
        access_token is None ==> (*final(store) == *old(store) && r.status == 401),
        (csrf_header is Some && (access_token matches Some(t) && jwt_decoded(
            t@,
            config.spec_secret(JwtTokenKind::ACCESS),
        ) is None)) ==> (*final(store) == *old(store) && r.status == 401),
        (csrf_header is Some && (access_token matches Some(t) && (jwt_decoded(
            t@,
            config.spec_secret(JwtTokenKind::ACCESS),
        ) matches Some(d) && d.exp <= now))) ==> (*final(store) == *old(store) && r.status == 401),
        access_token matches Some(t) ==> jwt_decoded(
            t@,
            config.spec_secret(JwtTokenKind::ACCESS),
        ) matches Some(d) ==> (csrf_header is Some && d.exp > now) ==> ((exists|n: usize|
            #[trigger] remove_friend_post(
                *old(store),
                *final(store),
                d.sub,
                removed_friend_id,
                n,
            )) && r.status == 200 && r.body@ == "{\"detail\":\"friend removed successfully\"}"@),
{
    if !verify_csrf_token(csrf_header) {
        return reply(401, "{\"detail\":\"csrf failed\"}");
    }
    let caller = match resolve_caller(config, access_token, now) {
        Ok(id) => id,
        Err(rep) => {
            return rep;
        },
    };
    remove_friend(store, caller, removed_friend_id);
    reply(200, "{\"detail\":\"friend removed successfully\"}")
}

/// List the caller's friends.
pub fn get_all(
    store: &CredentialStore,
    config: &JwtConfig,
    access_token: Option<&String>,
    now: u64,
) -> (r: Result<Vec<User>, Reply>)
    requires
        store.wf(),
    ensures
        access_token is None ==> r is Err,
        r matches Ok(users) ==> exists|id: u64|
            {
                &&& access_token matches Some(t) && valid_token_for(
                    t@,
                    config.spec_secret(JwtTokenKind::ACCESS),
                    id,
                    now,
                )
                &&& users@ == store.users@.filter(#[trigger] crate::friend::friend_of(*store, id))
            },
        r matches Err(rep) ==> rep.status == 401,
        access_token matches Some(t) ==> jwt_decoded(
            t@,
            config.spec_secret(JwtTokenKind::ACCESS),
        ) matches Some(d) ==> d.exp > now ==> (r matches Ok(users) && users@
            == store.users@.filter(crate::friend::friend_of(*store, d.sub))),
{
    let caller = match resolve_caller(config, access_token, now) {
        Ok(id) => id,
        Err(rep) => {
            return Err(rep);
        },
    };
    Ok(crate::friend::get_all_friends(store, caller))
}

/// List the users with a pending friend request to the caller.
pub fn get_friend_requests(
    store: &CredentialStore,
    config: &JwtConfig,
    access_token: Option<&String>,
    now: u64,
) -> (r: Result<Vec<User>, Reply>)
    requires
        store.wf(),
    ensures
        access_token is None ==> r is Err,
        r matches Ok(users) ==> exists|id: u64|
            {
                &&& access_token matches Some(t) && valid_token_for(
                    t@,
                    config.spec_secret(JwtTokenKind::ACCESS),
                    id,
                    now,
                )
                &&& users@ == store.users@.filter(
                    #[trigger] crate::friend::requester_to(*store, id),
                )
            },
        r matches Err(rep) ==> rep.status == 401,
        access_token matches Some(t) ==> jwt_decoded(
            t@,
            config.spec_secret(JwtTokenKind::ACCESS),
        ) matches Some(d) ==> d.exp > now ==> (r matches Ok(users) && users@
            == store.users@.filter(crate::friend::requester_to(*store, d.sub))),
{
    let caller = match resolve_caller(config, access_token, now) {
        Ok(id) => id,
        Err(rep) => {
            return Err(rep);
        },
    };
    Ok(crate::friend::get_all_friend_requests(store, caller))
}

/// Serve a fresh CSRF token for the issuing endpoint.
pub fn get_csrf() -> (r: String) {
    crate::csrf::generate_csrf_token()
}

} // verus!
