//! Request-level authorization guard: reads the session token from the `t`
//! cookie slot, decodes it, and yields the authenticated principal or a
//! rejection. Stateless; it never touches storage.

use vstd::prelude::*;
use crate::clock;
use crate::token::{decode_outcome, jwt_payload, JwtDecodeError, TokenCodec};

verus! {

/// The cookie slot the session token travels in.
pub const TOKEN_COOKIE: &'static str = "t";

/// An authenticated principal: the user id carried by a verified token.
#[derive(Debug)]
pub struct JwtGuard(pub String);

/// Why a request was rejected by the guard.
#[derive(Debug, Clone, Copy, PartialEq, Eq, Structural)]
pub enum JwtGuardError {
    /// No token was presented at all.
    Missing,
    /// A token was presented but did not decode to a valid, unexpired claim set.
    TokenError(JwtDecodeError),
}

impl JwtGuard {
    /// The guard's state machine against an explicit clock reading: no cookie
    /// rejects with `Missing`; a cookie is decoded and either authenticates
    /// its subject or rejects with the decode failure.
    pub fn from_cookie_at(codec: &TokenCodec, cookie: Option<&String>, now: i64) -> (r: Result<
        JwtGuard,
        JwtGuardError,
    >)
        ensures
            cookie is None ==> r == Result::Err::<JwtGuard, _>(JwtGuardError::Missing),
            cookie matches Some(t) ==> ({
                let outcome = decode_outcome(jwt_payload(t@, codec.spec_secret()), now as int);
                match r {
                    Result::Ok(guard) => outcome == Result::Ok::<_, JwtDecodeError>(guard.0@),
                    Result::Err(JwtGuardError::TokenError(e)) => outcome == Result::Err::<
                        Seq<char>,
                        _,
                    >(e),
                    Result::Err(JwtGuardError::Missing) => false,
                }
            }),
    {
        match cookie {
            Option::None => Result::Err(JwtGuardError::Missing),
            Option::Some(t) => match codec.decode_token_at(t.as_str(), now) {
                Result::Ok(id) => Result::Ok(JwtGuard(id)),
                Result::Err(e) => Result::Err(JwtGuardError::TokenError(e)),
            },
        }
    }

    /// The guard against the current clock reading.
    pub fn from_cookie(codec: &TokenCodec, cookie: Option<&String>) -> (r: Result<
        JwtGuard,
        JwtGuardError,
    >)
        ensures
            cookie is None <==> r == Result::Err::<JwtGuard, _>(JwtGuardError::Missing),
            cookie matches Some(t) ==> (r matches Result::Ok(guard) ==> jwt_payload(
                t@,
                codec.spec_secret(),
            ) matches Some(p) && p.0 == guard.0@),
    {
        Self::from_cookie_at(codec, cookie, clock::now_seconds())
    }
}

} // verus!
