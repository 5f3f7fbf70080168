//! Session tokens: a claim set of user id and expiry, signed with a
//! process-wide symmetric secret. Signing and signature verification are done
//! by a standard JWT library; the expiry rule itself is decided here.

use vstd::prelude::*;
use crate::clock;

verus! {

/// Seconds a session token stays valid after issuance: 24 hours.
pub const SESSION_LIFETIME_SECS: i64 = 86400;

/// Why decoding a token failed.
#[derive(Debug, Clone, Copy, PartialEq, Eq, Structural)]
pub enum JwtDecodeError {
    /// The signature is valid but the expiry lies in the past.
    Expired,
    /// Malformed token, bad signature, or any other decode failure.
    Generic,
}

/// The claim set carried by a session token: the subject's user id and the
/// expiry as whole seconds since the Unix epoch.
#[derive(Debug)]
pub struct Claims {
    pub exp: i64,
    pub id: String,
}

impl Claims {
    pub fn new(exp: i64, id: String) -> (c: Claims)
        ensures
            c.exp == exp,
            c.id == id,
    {
        Claims { exp, id }
    }
}

/// The compact signed token that the JWT library produces for the given
/// secret and claim set; deterministic in all three arguments.
pub uninterp spec fn token_of(secret: Seq<u8>, id: Seq<char>, exp: int) -> Seq<char>;

/// What signature-checking decode yields for a token under a secret: the
/// claim set's id and expiry when the token is well-formed, carries those two
/// claims, and its signature verifies; nothing otherwise. Deterministic: no
/// clock is involved, expiry is judged separately.
pub uninterp spec fn jwt_payload(token: Seq<char>, secret: Seq<u8>) -> Option<(Seq<char>, int)>;

/// The decode outcome the codec owes for a given payload and clock reading:
/// the subject while the token is unexpired, `Expired` once the clock has
/// reached the expiry, `Generic` when signature checking yielded nothing.
pub open spec fn decode_outcome(payload: Option<(Seq<char>, int)>, now: int) -> Result<
    Seq<char>,
    JwtDecodeError,
> {
    match payload {
        Option::Some(p) => if now < p.1 {
            Result::Ok(p.0)
        } else {
            Result::Err(JwtDecodeError::Expired)
        },
        Option::None => Result::Err(JwtDecodeError::Generic),
    }
}

/// Relies on jsonwebtoken::encode (HS256, default header): the token is a
/// deterministic function of secret and claims, and jsonwebtoken::decode of
/// that token under the same secret yields the same claims back. For an HMAC
/// secret this call cannot fail — the key family always matches the header's
/// algorithm, serializing the two-entry claim object cannot fail, and HS256
/// signing is unconditional — so the result is owed unconditionally.
#[verifier::external_body]
fn jwt_encode_raw(secret: &[u8], id: &str, exp: i64) -> (r: String)
    ensures
        r@ == token_of(secret@, id@, exp as int),
        jwt_payload(r@, secret@) == Some((id@, exp as int)),
{
    let mut claims = serde_json::Map::new();
    claims.insert("exp".to_string(), serde_json::Value::from(exp));
    claims.insert("id".to_string(), serde_json::Value::from(id));
    jsonwebtoken::encode(
        &jsonwebtoken::Header::default(),
        &serde_json::Value::Object(claims),
        &jsonwebtoken::EncodingKey::from_secret(secret),
    ).unwrap()
}

/// Relies on jsonwebtoken::decode (HS256; signature check only, expiry and
/// other claim checks disabled): yields the `id` and `exp` claims exactly when
/// the token parses and its signature verifies under the secret.
#[verifier::external_body]
fn jwt_decode_raw(secret: &[u8], token: &str) -> (r: Option<(String, i64)>)
    ensures
        r is Some <==> jwt_payload(token@, secret@) is Some,
        r matches Some(p) ==> jwt_payload(token@, secret@) == Some((p.0@, p.1 as int)),
{
    let mut validation = jsonwebtoken::Validation::new(jsonwebtoken::Algorithm::HS256);
    validation.validate_exp = false;
    validation.validate_aud = false;
    validation.required_spec_claims = std::collections::HashSet::new();
    let data = jsonwebtoken::decode::<serde_json::Value>(
        token,
        &jsonwebtoken::DecodingKey::from_secret(secret),
        &validation,
    ).ok()?;
    let id = data.claims.get("id")?.as_str()?.to_string();
    let exp = data.claims.get("exp")?.as_i64()?;
    Some((id, exp))
}

/// Signs and decodes session tokens under one symmetric secret, constructed
/// once and passed wherever tokens are handled.
pub struct TokenCodec {
    secret: Vec<u8>,
}

impl TokenCodec {
    pub closed spec fn spec_secret(&self) -> Seq<u8> {
        self.secret@
    }

    pub fn new(secret: Vec<u8>) -> (c: TokenCodec)
        ensures
            c.spec_secret() == secret@,
    {
        TokenCodec { secret }
    }

    /// Builds the claim set `{subject: user_id, expires_at: now + 24h}` and
    /// signs it. Signing is owed: the HMAC encoder cannot fail.
    pub fn sign_token_at(&self, user_id: &str, now: i64) -> (r: String)
        requires
            now <= i64::MAX - SESSION_LIFETIME_SECS,
        ensures
            r@ == token_of(self.spec_secret(), user_id@, now + SESSION_LIFETIME_SECS),
            jwt_payload(r@, self.spec_secret()) == Some(
                (user_id@, now + SESSION_LIFETIME_SECS),
            ),
    {
        let claims = Claims::new(now + SESSION_LIFETIME_SECS, user_id.to_owned());
        jwt_encode_raw(self.secret.as_slice(), user_id, claims.exp)
    }

    /// Signs a token expiring 24 hours from the current clock reading; `None`
    /// only if that reading leaves no room for the lifetime in an `i64`.
    pub fn sign_token(&self, user_id: &str) -> (r: Option<String>)
        ensures
            r matches Some(t) ==> exists|exp: int|
                t@ == #[trigger] token_of(self.spec_secret(), user_id@, exp) && jwt_payload(
                    t@,
                    self.spec_secret(),
                ) == Some((user_id@, exp)),
    {
        let now = clock::now_seconds();
        if now <= i64::MAX - SESSION_LIFETIME_SECS {
            Some(self.sign_token_at(user_id, now))
        } else {
            None
        }
    }

    /// Verifies the signature, then judges the expiry against `now`: the
    /// subject while `now < exp`, `Expired` from the expiry on, `Generic` for
    /// anything whose signature check yielded nothing.
    pub fn decode_token_at(&self, token: &str, now: i64) -> (r: Result<String, JwtDecodeError>)
        ensures
            ({
                let outcome = decode_outcome(jwt_payload(token@, self.spec_secret()), now as int);
                match r {
                    Result::Ok(id) => outcome == Result::Ok::<_, JwtDecodeError>(id@),
                    Result::Err(e) => outcome == Result::Err::<Seq<char>, _>(e),
                }
            }),
    {
        match jwt_decode_raw(self.secret.as_slice(), token) {
            Option::None => Result::Err(JwtDecodeError::Generic),
            Option::Some((id, exp)) => if now < exp {
                Result::Ok(id)
            } else {
                Result::Err(JwtDecodeError::Expired)
            },
        }
    }

    /// Decodes against the current clock reading.
    pub fn decode_token(&self, token: &str) -> (r: Result<String, JwtDecodeError>)
        ensures
            r is Ok ==> (jwt_payload(token@, self.spec_secret()) matches Some(p) && p.0
                == r->Ok_0@),
            r == Result::Err::<String, _>(JwtDecodeError::Generic) <==> jwt_payload(
                token@,
                self.spec_secret(),
            ) is None,
    {
        self.decode_token_at(token, clock::now_seconds())
    }

    /// A token signed at `signed_at` decodes back to the same user id at any
    /// clock reading before the 24-hour boundary, and to `Expired` at the
    /// boundary and beyond. The law itself stands in the `ensures`, over the
    /// token the signer owes for these arguments.
    pub fn sign_then_decode(&self, user_id: &str, signed_at: i64, decoded_at: i64) -> (r: bool)
        requires
            signed_at <= i64::MAX - SESSION_LIFETIME_SECS,
        ensures
            r,
            ({
                let token = token_of(
                    self.spec_secret(),
                    user_id@,
                    signed_at + SESSION_LIFETIME_SECS,
                );
                let outcome = decode_outcome(
                    jwt_payload(token, self.spec_secret()),
                    decoded_at as int,
                );
                if decoded_at < signed_at + SESSION_LIFETIME_SECS {
                    outcome == Result::Ok::<Seq<char>, JwtDecodeError>(user_id@)
                } else {
                    outcome == Result::Err::<Seq<char>, JwtDecodeError>(JwtDecodeError::Expired)
                }
            }),
    {
        let token = self.sign_token_at(user_id, signed_at);
        let decoded = self.decode_token_at(token.as_str(), decoded_at);
        if decoded_at < signed_at + SESSION_LIFETIME_SECS {
            match decoded {
                Result::Ok(id) => id == user_id.to_owned(),
                Result::Err(_) => false,
            }
        } else {
            match decoded {
                Result::Ok(_) => false,
                Result::Err(e) => e == JwtDecodeError::Expired,
            }
        }
    }
}

} // verus!
