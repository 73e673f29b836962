//! Data model of the authentication boundary, and the one piece of it
//! that is plain logic: extracting the bearer token from an
//! authorization header value.  Verifying the token's signature is the
//! boundary's own work.

use vstd::prelude::*;
use vstd::string::*;
use crate::wire::{match_at, substr_owned};

verus! {

/// Body of an authentication failure response.
pub struct ErrorResponse {
    pub status: String,
    pub message: String,
}

/// The claims carried by an access token.
pub struct TokenClaims {
    pub sub: String,
    pub iat: usize,
}

/// The authenticated caller, as established from a token's subject.
pub struct UserId(pub String);

/// Configuration of token verification.
pub struct JwtConfig {
    pub jwt_secret: String,
}

impl JwtConfig {
    pub fn init(jwt_secret: String) -> (r: JwtConfig)
        ensures
            r.jwt_secret == jwt_secret,
    {
        JwtConfig { jwt_secret }
    }
}

/// The scheme prefix of an authorization header value.
pub open spec fn bearer_prefix() -> Seq<char> {
    "Bearer "@
}

/// The token part of an authorization header value: everything after
/// the `Bearer ` scheme prefix, or nothing when the prefix is absent.
pub fn bearer_token(header_value: &str) -> (r: Option<String>)
    ensures
        match r {
            Some(t) => header_value@.len() >= bearer_prefix().len() && header_value@.subrange(
                0,
                bearer_prefix().len() as int,
            ) == bearer_prefix() && t@ == header_value@.skip(bearer_prefix().len() as int),
            None => header_value@.len() < bearer_prefix().len() || header_value@.subrange(
                0,
                bearer_prefix().len() as int,
            ) != bearer_prefix(),
        },
{
    let scheme = "Bearer ";
    let pl: usize = scheme.unicode_len();
    let n: usize = header_value.unicode_len();
    if n < pl {
        return None;
    }
    if !match_at(header_value, 0, pl, scheme) {
        return None;
    }
    let t = substr_owned(header_value, pl, n);
    proof {
        assert(t@ =~= header_value@.skip(bearer_prefix().len() as int));
    }
    Some(t)
}

} // verus!
