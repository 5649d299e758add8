//! CSRF guard: a token generator for the dedicated issuing endpoint, and
//! the stateless check that gates every state-mutating request on the
//! presence of the designated header. The guard deliberately implements
//! the minimal presence-only form: the server hands out an authenticated
//! encrypted token, and a mutating request passes the guard exactly when
//! the client echoes a header at all — the token's value is never
//! inspected.

use csrf::CsrfProtection;
use vstd::prelude::*;

verus! {

/// Relies on csrf::AesGcmCsrfProtection::generate_token_pair: the token is
/// drawn from process randomness, so nothing is promised of its value
/// beyond non-emptiness — it is the base64 form of an encrypted 64-byte
/// value.
#[verifier::external_body]
fn generate_token_string() -> (r: Option<String>)
    ensures
        r matches Some(t) ==> t@.len() > 0,
{
    let protect = csrf::AesGcmCsrfProtection::from_key(*b"01234567012345670123456701234567");
    match protect.generate_token_pair(None, 300) {
        Ok((token, _)) => Some(token.b64_string()),
        Err(_) => None,
    }
}

/// Generate the token handed out by the CSRF endpoint; a generation
/// failure yields an empty token, which no check accepts as a header value
/// worth sending.
pub fn generate_csrf_token() -> String {
    match generate_token_string() {
        Some(token) => token,
        None => String::new(),
    }
}

/// The guard every mutating endpoint calls first: the designated header
/// must be present on the request. It returns a verdict, never an error.
pub fn verify_csrf_token(csrf_header: Option<&String>) -> (r: bool)
    ensures
        r == csrf_header is Some,
{
    match csrf_header {
        Some(_) => true,
        None => false,
    }
}

} // verus!
