//! Token engine: stateless issuance and validation of signed, time-bounded
//! session claims of two kinds (ACCESS and REFRESH), each with its own
//! signing secret and lifetime.

use vstd::prelude::*;

verus! {

/// Lifetime of an ACCESS token, in seconds (minutes-scale).
pub const ACCESS_TOKEN_LIFETIME_SECS: u64 = 900;

/// Lifetime of a REFRESH token, in seconds (days-scale).
pub const REFRESH_TOKEN_LIFETIME_SECS: u64 = 604800;

/// The session claims carried by a token: subject (user id), issuer,
/// issued-at and expiry times as UTC timestamps in seconds.
#[derive(Debug)]
pub struct Claims {
    pub exp: u64,
    pub iat: u64,
    pub iss: String,
    pub sub: u64,
}

#[derive(Clone, Copy, Debug, PartialEq, Eq, Structural)]
pub enum JwtTokenKind {
    ACCESS,
    REFRESH,
}

#[derive(Debug)]
pub enum JwtError {
    Expired,
    Invalid,
    Other(String),
}

/// Signing configuration injected into the token engine: one independent
/// secret per token kind.
pub struct JwtConfig {
    pub access_secret: String,
    pub refresh_secret: String,
}

impl JwtConfig {
    /// The two secrets must differ, so that a token of one kind can never
    /// validate as the other.
    pub open spec fn wf(self) -> bool {
        self.access_secret@ != self.refresh_secret@
    }

    pub open spec fn spec_secret(self, kind: JwtTokenKind) -> Seq<char> {
        match kind {
            JwtTokenKind::ACCESS => self.access_secret@,
            JwtTokenKind::REFRESH => self.refresh_secret@,
        }
    }

    fn secret_for(&self, kind: JwtTokenKind) -> (r: &String)
        ensures
            r@ == self.spec_secret(kind),
    {
        match kind {
            JwtTokenKind::ACCESS => &self.access_secret,
            JwtTokenKind::REFRESH => &self.refresh_secret,
        }
    }
}

pub open spec fn spec_lifetime(kind: JwtTokenKind) -> u64 {
    match kind {
        JwtTokenKind::ACCESS => ACCESS_TOKEN_LIFETIME_SECS,
        JwtTokenKind::REFRESH => REFRESH_TOKEN_LIFETIME_SECS,
    }
}

fn token_lifetime_secs(kind: JwtTokenKind) -> (r: u64)
    ensures
        r == spec_lifetime(kind),
{
    match kind {
        JwtTokenKind::ACCESS => ACCESS_TOKEN_LIFETIME_SECS,
        JwtTokenKind::REFRESH => REFRESH_TOKEN_LIFETIME_SECS,
    }
}

/// The signed compact token that `jsonwebtoken::encode` produces, with the
/// default header, for claims with these four fields under this secret.
/// The result depends on the claims and the secret alone.
pub uninterp spec fn jwt_token_of(
    sub: u64,
    iss: Seq<char>,
    iat: u64,
    exp: u64,
    secret: Seq<char>,
) -> Seq<char>;

/// What HS256 decoding of a token string under a secret yields: the four
/// claim fields read back out of a payload whose signature verifies, or
/// nothing for a string that fails verification or parsing. Any valid
/// serialization of the claims is accepted — key order, whitespace and
/// unknown extra fields do not matter — so this is broader than the
/// inverse image of `jwt_token_of`. A function of the token and the
/// secret alone.
pub uninterp spec fn jwt_decoded(token: Seq<char>, secret: Seq<char>) -> Option<Claims>;

/// Relies on jsonwebtoken::encode with the default (HS256) header: the
/// token is a deterministic function of the claims and the secret. The
/// claims serialize with their fields in sorted key order, so equal claims
/// give byte-equal payloads, and the produced token decodes back to
/// exactly the claims it was minted with. For an HMAC key (any byte
/// string) and these claims the encode call cannot fail: the key family
/// matches the header, HMAC-SHA256 accepts keys of every length, and
/// serializing the header and the numeric-and-string claims is infallible
/// — so success is promised.
#[verifier::external_body]
fn jwt_sign(claims: &Claims, secret: &str) -> (r: Result<String, String>)
    ensures
        r is Ok,
        r matches Ok(t) ==> t@ == jwt_token_of(
            claims.sub,
            claims.iss@,
            claims.iat,
            claims.exp,
            secret@,
        ),
        r matches Ok(t) ==> (jwt_decoded(t@, secret@) matches Some(d) && d.sub == claims.sub
            && d.iss@ == claims.iss@ && d.iat == claims.iat && d.exp == claims.exp),
{
    let mut m = serde_json::Map::new();
    m.insert("exp".to_string(), serde_json::Value::from(claims.exp));
    m.insert("iat".to_string(), serde_json::Value::from(claims.iat));
    m.insert("iss".to_string(), serde_json::Value::from(claims.iss.clone()));
    m.insert("sub".to_string(), serde_json::Value::from(claims.sub));
    jsonwebtoken::encode(
        &jsonwebtoken::Header::default(),
        &serde_json::Value::Object(m),
        &jsonwebtoken::EncodingKey::from_secret(secret.as_bytes()),
    )
    .map_err(|e| e.to_string())
}

/// Signature verification recovers claims exactly: whenever `token` is the
/// encoding of some claims under `secret`, the result is `Ok` with those
/// claims.
pub open spec fn verify_recovers_claims(
    token: Seq<char>,
    secret: Seq<char>,
    r: Result<Claims, JwtError>,
) -> bool {
    forall|sub: u64, iss: Seq<char>, iat: u64, exp: u64|
        token == jwt_token_of(sub, iss, iat, exp, secret) ==> (r matches Ok(c) && c.sub == sub
            && c.iss@ == iss && c.iat == iat && c.exp == exp)
}

/// Signature verification rejects foreign keys: a token encoded under any
/// secret other than `secret` fails as a bad signature.
pub open spec fn verify_rejects_other_secrets(
    token: Seq<char>,
    secret: Seq<char>,
    r: Result<Claims, JwtError>,
) -> bool {
    forall|sub: u64, iss: Seq<char>, iat: u64, exp: u64, other: Seq<char>|
        other != secret && token == jwt_token_of(sub, iss, iat, exp, other) ==> r matches Err(
            JwtError::Invalid,
        )
}

#[verifier::external_type_specification]
#[verifier::external_body]
pub struct ExValue(serde_json::Value);

/// Relies on serde_json::Value's accessors: reads the four claim fields
/// back out of the decoded payload, exactly as `jwt_sign` put them in.
/// The contract on this step is carried by `jwt_verify`, whose body makes
/// this call.
#[verifier::external_body]
fn claims_from_value(d: serde_json::Value) -> (r: Option<Claims>) {
    match (
        d.get("sub").and_then(|x| x.as_u64()),
        d.get("iss").and_then(|x| x.as_str()),
        d.get("iat").and_then(|x| x.as_u64()),
        d.get("exp").and_then(|x| x.as_u64()),
    ) {
        (Some(sub), Some(iss), Some(iat), Some(exp)) => Some(
            Claims { exp, iat, iss: iss.to_string(), sub },
        ),
        _ => None,
    }
}

/// Relies on jsonwebtoken::decode restricted to HS256, with expiry, claim
/// and audience validation turned off: the call returns exactly what
/// `jwt_decoded` names — the claims of any validly signed serialization,
/// canonical or not — so a token produced under this secret verifies and
/// yields the claims it was minted with, and a token produced under any
/// other secret fails as a bad signature. One idealization, declared
/// here: HMAC collisions between distinct keys or distinct claims are
/// assumed not to occur. With this pinned configuration the HS256
/// verifier itself cannot fail to build, so every failure is token-caused
/// — malformed input or a bad signature — and maps to `Invalid`;
/// `Expired` and `Other` are never produced here.
#[verifier::external_body]
fn jwt_verify(token: &str, secret: &str) -> (r: Result<Claims, JwtError>)
    ensures
        r matches Ok(c) ==> (jwt_decoded(token@, secret@) matches Some(d) && d.sub == c.sub
            && d.iss@ == c.iss@ && d.iat == c.iat && d.exp == c.exp),
        (r is Err) <==> jwt_decoded(token@, secret@) is None,
        verify_recovers_claims(token@, secret@, r),
        verify_rejects_other_secrets(token@, secret@, r),
        r is Ok || r matches Err(JwtError::Invalid),
{
    let key = jsonwebtoken::DecodingKey::from_secret(secret.as_bytes());
    let mut v = jsonwebtoken::Validation::new(jsonwebtoken::Algorithm::HS256);
    v.validate_exp = false;
    v.validate_aud = false;
    v.required_spec_claims.clear();
    match jsonwebtoken::decode::<serde_json::Value>(token, &key, &v) {
        Ok(data) => claims_from_value(data.claims).ok_or(JwtError::Invalid),
        Err(_) => Err(JwtError::Invalid),
    }
}

pub open spec fn spec_issuer() -> Seq<char> {
    "http://127.0.0.1:8080"@
}

/// Claims for `user_id` issued at `now`: expiry is `now` plus the lifetime
/// of the token kind.
pub fn create_jwt_claims(user_id: u64, token_type: JwtTokenKind, now: u64) -> (r: Claims)
    requires
        now + spec_lifetime(token_type) <= u64::MAX,
    ensures
        r.sub == user_id,
        r.iss@ == spec_issuer(),
        r.iat == now,
        r.exp == now + spec_lifetime(token_type),
{
    let lifetime = token_lifetime_secs(token_type);
    Claims { exp: now + lifetime, iat: now, iss: "http://127.0.0.1:8080".to_owned(), sub: user_id }
}

/// Issue a signed token of the given kind for `user_id` at time `now`;
/// HS256 signing cannot fail, so the token is owed.
pub fn encode_jwt_token(config: &JwtConfig, user_id: u64, token_kind: JwtTokenKind, now: u64) -> (r:
    Result<String, JwtError>)
    requires
        now + spec_lifetime(token_kind) <= u64::MAX,
    ensures
        r is Ok,
        r matches Ok(t) ==> t@ == jwt_token_of(
            user_id,
            spec_issuer(),
            now,
            (now + spec_lifetime(token_kind)) as u64,
            config.spec_secret(token_kind),
        ),
        r matches Ok(t) ==> (jwt_decoded(t@, config.spec_secret(token_kind)) matches Some(d)
            && d.sub == user_id && d.iss@ == spec_issuer() && d.iat == now && d.exp == now
            + spec_lifetime(token_kind)),
{
    let claims = create_jwt_claims(user_id, token_kind, now);
    match jwt_sign(&claims, config.secret_for(token_kind).as_str()) {
        Ok(token) => Ok(token),
        Err(msg) => Err(JwtError::Other(msg)),
    }
}

/// Validate a token string as the given kind at time `now`: the signature
/// must verify under that kind's secret and the claims must not be expired.
///
/// The outcome is exactly determined: `Ok` with the decoded claims iff the
/// token decodes under this kind's secret and is unexpired; `Expired` iff
/// it decodes but its expiry has passed — so a token minted with its
/// expiry in the past always yields `Expired`, never `Invalid`; `Invalid`
/// iff it does not decode at all, a token minted under any other secret
/// included. `Other` is reserved for internal failures, which the pinned
/// HS256 configuration does not produce.
pub fn decode_jwt_token(config: &JwtConfig, token: &str, token_kind: JwtTokenKind, now: u64) -> (r:
    Result<Claims, JwtError>)
    ensures
        r matches Ok(c) ==> (jwt_decoded(token@, config.spec_secret(token_kind)) matches Some(d)
            && d.sub == c.sub && d.iss@ == c.iss@ && d.iat == c.iat && d.exp == c.exp && c.exp
            > now),
        (r is Ok) <==> (jwt_decoded(token@, config.spec_secret(token_kind)) matches Some(d)
            && d.exp > now),
        forall|sub: u64, iss: Seq<char>, iat: u64, exp: u64|
            token@ == jwt_token_of(sub, iss, iat, exp, config.spec_secret(token_kind)) ==> (if exp
                > now {
                r matches Ok(c) && c.sub == sub && c.iss@ == iss && c.iat == iat && c.exp == exp
            } else {
                r matches Err(JwtError::Expired)
            }),
        r matches Err(JwtError::Expired) <==> (jwt_decoded(token@, config.spec_secret(token_kind))
            matches Some(d) && d.exp <= now),
        r matches Err(JwtError::Invalid) <==> jwt_decoded(
            token@,
            config.spec_secret(token_kind),
        ) is None,
        !(r matches Err(JwtError::Other(_))),
        forall|sub: u64, iss: Seq<char>, iat: u64, exp: u64, other: Seq<char>|
            other != config.spec_secret(token_kind) && token@ == jwt_token_of(
                sub,
                iss,
                iat,
                exp,
                other,
            ) ==> r matches Err(JwtError::Invalid),
{
    match jwt_verify(token, config.secret_for(token_kind).as_str()) {
        Ok(claims) => {
            if claims.exp <= now {
                Err(JwtError::Expired)
            } else {
                Ok(claims)
            }
        },
        Err(e) => Err(e),
    }
}

/// `token` decodes under `secret` to unexpired claims for subject `id`.
pub open spec fn valid_token_for(token: Seq<char>, secret: Seq<char>, id: u64, now: u64) -> bool {
    jwt_decoded(token, secret) matches Some(d) && d.sub == id && d.exp > now
}

/// Validate a token and return the subject user id it was issued for;
/// every error kind of the validation is propagated unchanged.
pub fn extract_user_id_from_jwt_token(
    config: &JwtConfig,
    token: &str,
    token_kind: JwtTokenKind,
    now: u64,
) -> (r: Result<u64, JwtError>)
    ensures
        r matches Ok(id) ==> valid_token_for(token@, config.spec_secret(token_kind), id, now),
        (r is Ok) <==> (jwt_decoded(token@, config.spec_secret(token_kind)) matches Some(d)
            && d.exp > now),
        forall|sub: u64, iss: Seq<char>, iat: u64, exp: u64|
            token@ == jwt_token_of(sub, iss, iat, exp, config.spec_secret(token_kind)) ==> (if exp
                > now {
                r matches Ok(id) && id == sub
            } else {
                r matches Err(JwtError::Expired)
            }),
        r matches Err(JwtError::Expired) <==> (jwt_decoded(token@, config.spec_secret(token_kind))
            matches Some(d) && d.exp <= now),
        r matches Err(JwtError::Invalid) <==> jwt_decoded(
            token@,
            config.spec_secret(token_kind),
        ) is None,
        !(r matches Err(JwtError::Other(_))),
        forall|sub: u64, iss: Seq<char>, iat: u64, exp: u64, other: Seq<char>|
            other != config.spec_secret(token_kind) && token@ == jwt_token_of(
                sub,
                iss,
                iat,
                exp,
                other,
            ) ==> r matches Err(JwtError::Invalid),
{
    match decode_jwt_token(config, token, token_kind, now) {
        Ok(claims) => Ok(claims.sub),
        Err(e) => Err(e),
    }
}

/// Issue the ACCESS and REFRESH pair for a user at time `now`; signing
/// cannot fail, so exactly this pair is returned.
pub fn generate_jwt_tokens_for_user(config: &JwtConfig, id: u64, now: u64) -> (r: (String, String))
    requires
        now + REFRESH_TOKEN_LIFETIME_SECS <= u64::MAX,
    ensures
        r.0@ == jwt_token_of(
            id,
            spec_issuer(),
            now,
            (now + ACCESS_TOKEN_LIFETIME_SECS) as u64,
            config.spec_secret(JwtTokenKind::ACCESS),
        ),
        r.1@ == jwt_token_of(
            id,
            spec_issuer(),
            now,
            (now + REFRESH_TOKEN_LIFETIME_SECS) as u64,
            config.spec_secret(JwtTokenKind::REFRESH),
        ),
        jwt_decoded(r.0@, config.spec_secret(JwtTokenKind::ACCESS)) matches Some(d) && d.sub == id
            && d.exp == now + ACCESS_TOKEN_LIFETIME_SECS,
        jwt_decoded(r.1@, config.spec_secret(JwtTokenKind::REFRESH)) matches Some(d) && d.sub == id
            && d.exp == now + REFRESH_TOKEN_LIFETIME_SECS,
{
    let access_token = match encode_jwt_token(config, id, JwtTokenKind::ACCESS, now) {
        Ok(token) => token,
        Err(_) => String::new(),
    };
    let refresh_token = match encode_jwt_token(config, id, JwtTokenKind::REFRESH, now) {
        Ok(token) => token,
        Err(_) => String::new(),
    };
    (access_token, refresh_token)
}

/// The pair of cleared token values a client is told to store on logout.
pub fn clear_jwt_tokens() -> (r: (String, String))
    ensures
        r.0@ == Seq::<char>::empty(),
        r.1@ == Seq::<char>::empty(),
{
    (String::new(), String::new())
}

} // verus!
