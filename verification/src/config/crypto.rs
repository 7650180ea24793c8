//! Signed, time-bounded session tokens.

use std::sync::Arc;
use vstd::prelude::*;

verus! {

/// Seconds for which a session token is valid: one day.
pub const TOKEN_LIFETIME_SECS: i64 = 86_400;

/// Holds the two process-wide secrets: the key of the password hasher and the
/// secret that session tokens are signed with.
#[derive(Debug, Clone)]
pub struct CryptoService {
    pub key: Arc<String>,
    pub jwt_secret: Arc<String>,
}

/// What a session token states: who it was issued to, and until when it holds.
#[derive(Debug, Clone, Copy, PartialEq, Eq, Structural)]
pub struct Claims {
    pub sub: u128,
    pub exp: i64,
}

/// Why the crypto service could not do what it was asked.
#[derive(Debug, Clone, Copy, PartialEq, Eq, Structural)]
pub enum CryptoError {
    /// The password hasher failed to produce a hash.
    Hashing,
    /// The password hasher could not read the stored hash.
    Verifying,
    /// No token could be made.
    TokenCreation,
    /// The token is malformed, carries a wrong signature or has expired.
    TokenInvalid,
}

/// The token that `jsonwebtoken::encode` makes of the claims `sub` and `exp`
/// under the HS256 `secret`, or `None` where it reports an error.
pub uninterp spec fn hs256_token(secret: Seq<char>, subject: u128, expires_at: i64) -> Option<Seq<char>>;

/// The claims `sub` and `exp` that `jsonwebtoken::decode` reads from `token`
/// when it checks the HS256 signature under `secret` and does not look at the
/// clock, or `None` where the token is refused.
pub uninterp spec fn hs256_claims(secret: Seq<char>, token: Seq<char>) -> Option<(u128, i64)>;

/// The error of `jsonwebtoken`, `jsonwebtoken::errors::Error`. Nothing is read
/// of it: every failure to make a token is one to the library.
#[verifier::external_type_specification]
#[verifier::external_body]
pub struct ExJwtError(jsonwebtoken::errors::Error);

/// Calls `jsonwebtoken::encode` with the default header (HS256) on a claims
/// object with the two members `sub`, the subject as a hyphenated UUID, and
/// `exp`.
///
/// Trusted: the result is a function of the three arguments, and a token made
/// with a non-negative expiry is read back by `jsonwebtoken::decode`, under
/// the same secret, as the claims it was made of.
#[verifier::external_body]
fn encode_hs256(secret: &str, subject: u128, expires_at: i64) -> (r: Result<String, jsonwebtoken::errors::Error>)
    ensures
        (match r {
            Ok(token) => Some(token@),
            Err(_) => None,
        }) == hs256_token(secret@, subject, expires_at),
        r matches Ok(token) ==> (expires_at >= 0 ==> hs256_claims(secret@, token@) == Some(
            (subject, expires_at),
        )),
{
    let mut claims = serde_json::Map::new();
    claims.insert("sub".to_string(), uuid::Uuid::from_u128(subject).to_string().into());
    claims.insert("exp".to_string(), expires_at.into());
    let key = jsonwebtoken::EncodingKey::from_secret(secret.as_bytes());
    jsonwebtoken::encode(&jsonwebtoken::Header::default(), &claims, &key)
}

/// Calls `jsonwebtoken::decode` with the default validation (HS256 only) but
/// for the expiry check, which is switched off, and reads `sub` as a UUID and
/// `exp` as an integer from the claims. The expiry is held against an instant
/// by the caller, so that the call does not read the clock.
///
/// Trusted: the result is a function of the two arguments.
#[verifier::external_body]
fn decode_hs256(secret: &str, token: &str) -> (r: Option<(u128, i64)>)
    ensures
        r == hs256_claims(secret@, token@),
{
    let mut validation = jsonwebtoken::Validation::default();
    validation.validate_exp = false;
    let key = jsonwebtoken::DecodingKey::from_secret(secret.as_bytes());
    let claims = jsonwebtoken::decode::<serde_json::Value>(token, &key, &validation).ok()?.claims;
    let subject = uuid::Uuid::parse_str(claims.get("sub")?.as_str()?).ok()?;
    Some((subject.as_u128(), claims.get("exp")?.as_i64()?))
}

/// Calls `chrono::Utc::now` and gives the reading in seconds since the epoch.
///
/// Trusted: the reading is not before the epoch, and it lies so far below the
/// end of `i64` that a day can be added to it. `Utc::now` takes the time that
/// has passed since the epoch and keeps it as a date, and the dates of chrono
/// end some 262,000 years after the epoch. Which instant it is, is not known.
#[verifier::external_body]
pub(crate) fn current_timestamp() -> (r: i64)
    ensures
        0 <= r,
        r + TOKEN_LIFETIME_SECS <= i64::MAX,
{
    chrono::Utc::now().timestamp()
}

/// The instant at which a token issued at `now` expires.
pub open spec fn expiry_of(now: int) -> int {
    now + TOKEN_LIFETIME_SECS
}

/// What issuing a token for `subject` at the instant `now` gives under
/// `secret`: the token, or the reason why there is none.
pub open spec fn issued(secret: Seq<char>, subject: u128, now: i64) -> Result<Seq<char>, CryptoError> {
    if expiry_of(now as int) > i64::MAX {
        Err(CryptoError::TokenCreation)
    } else {
        match hs256_token(secret, subject, expiry_of(now as int) as i64) {
            Some(token) => Ok(token),
            None => Err(CryptoError::TokenCreation),
        }
    }
}

/// Whether the clock can show the instant `now`: it is not before the epoch,
/// and a token issued then expires at an instant that an `i64` holds.
pub open spec fn clock_reading(now: i64) -> bool {
    0 <= now && now + TOKEN_LIFETIME_SECS <= i64::MAX
}

/// The claims of a token issued for `subject` at the instant `now`.
pub open spec fn claims_issued(subject: u128, now: i64) -> Claims {
    Claims { sub: subject, exp: expiry_of(now as int) as i64 }
}

/// What is made at the instant `now` of what the decoder read from a token:
/// the claims, unless there are none or their expiry has passed. A token is
/// good up to and including its expiry instant.
pub open spec fn claims_of(decoded: Option<(u128, i64)>, now: i64) -> Result<Claims, CryptoError> {
    match decoded {
        Some((sub, exp)) => if exp < now {
            Err(CryptoError::TokenInvalid)
        } else {
            Ok(Claims { sub, exp })
        },
        None => Err(CryptoError::TokenInvalid),
    }
}

/// What verifying `token` at the instant `now` gives under `secret`: the
/// claims of a token that is well formed, rightly signed and not yet expired.
pub open spec fn verified(secret: Seq<char>, token: Seq<char>, now: i64) -> Result<Claims, CryptoError> {
    claims_of(hs256_claims(secret, token), now)
}

/// Whether `token` carries `claims` under `secret` for as long as they say:
/// at every instant up to and including their expiry it verifies and gives
/// them, and at every later instant it is refused as invalid.
pub open spec fn holds_until_expiry(secret: Seq<char>, token: Seq<char>, claims: Claims) -> bool {
    forall|at: i64| #[trigger]
        verified(secret, token, at) == (if at <= claims.exp {
            Ok::<Claims, CryptoError>(claims)
        } else {
            Err::<Claims, CryptoError>(CryptoError::TokenInvalid)
        })
}

/// What is made of the encoder's answer: the token, or the failure to make
/// one.
pub open spec fn token_of(encoded: Result<String, jsonwebtoken::errors::Error>) -> Result<
    Seq<char>,
    CryptoError,
> {
    match encoded {
        Ok(token) => Ok(token@),
        Err(_) => Err(CryptoError::TokenCreation),
    }
}

/// Takes what the decoder read from a token and judges it at the instant
/// `now`: claims that have not expired are the result, anything else is an
/// invalid token.
pub fn claims_at(decoded: Option<(u128, i64)>, now: i64) -> (r: Result<Claims, CryptoError>)
    ensures
        r == claims_of(decoded, now),
{
    match decoded {
        None => Err(CryptoError::TokenInvalid),
        Some((sub, exp)) => if exp < now {
            Err(CryptoError::TokenInvalid)
        } else {
            Ok(Claims { sub, exp })
        },
    }
}

/// Takes the encoder's answer: its token is the result, and any error of its
/// own is the failure to make one.
pub fn token_or_failure(encoded: Result<String, jsonwebtoken::errors::Error>) -> (r: Result<
    String,
    CryptoError,
>)
    ensures
        token_view(r) == token_of(encoded),
{
    match encoded {
        Ok(token) => Ok(token),
        Err(_) => Err(CryptoError::TokenCreation),
    }
}

/// The view of a result that holds a token.
pub open spec fn token_view(r: Result<String, CryptoError>) -> Result<Seq<char>, CryptoError> {
    match r {
        Ok(token) => Ok(token@),
        Err(e) => Err(e),
    }
}

impl CryptoService {
    /// The secret that tokens are signed with.
    pub open spec fn signing_secret(&self) -> Seq<char> {
        self.jwt_secret@
    }

    /// Issues a token for `user_id` at the instant `now`. It expires one day
    /// later; where that instant does not fit in an `i64`, no token is made.
    ///
    /// Up to and including its expiry the token verifies under this service
    /// and gives back `user_id`; after it, the token is refused. This holds of
    /// a token whose expiry is not before the epoch: an earlier expiry cannot
    /// be read back.
    pub fn generate_jwt_at(&self, user_id: u128, now: i64) -> (r: Result<String, CryptoError>)
        ensures
            token_view(r) == issued(self.signing_secret(), user_id, now),
            r matches Ok(token) ==> (0 <= expiry_of(now as int) ==> holds_until_expiry(
                self.signing_secret(),
                token@,
                claims_issued(user_id, now),
            )),
    {
        match now.checked_add(TOKEN_LIFETIME_SECS) {
            None => Err(CryptoError::TokenCreation),
            Some(expires_at) => token_or_failure(
                encode_hs256(self.jwt_secret.as_str(), user_id, expires_at),
            ),
        }
    }

    /// Issues a token for `user_id` at the instant the clock shows. No reading
    /// of the clock stands in the way of a token: there is one wherever the
    /// encoder makes one, and it holds for a day from that instant.
    pub fn generate_jwt(&self, user_id: u128) -> (r: Result<String, CryptoError>)
        ensures
            exists|now: i64|
                clock_reading(now) && token_view(r) == #[trigger] issued(
                    self.signing_secret(),
                    user_id,
                    now,
                ) && (r matches Ok(token) ==> holds_until_expiry(
                    self.signing_secret(),
                    token@,
                    claims_issued(user_id, now),
                )),
    {
        let now = current_timestamp();
        self.generate_jwt_at(user_id, now)
    }

    /// Verifies `token` at the instant `now`: its signature under this
    /// service's secret, its structure and its expiry.
    pub fn verify_jwt_at(&self, token: &str, now: i64) -> (r: Result<Claims, CryptoError>)
        ensures
            r == verified(self.signing_secret(), token@, now),
    {
        claims_at(decode_hs256(self.jwt_secret.as_str(), token), now)
    }

    /// Verifies `token` at the instant the clock shows.
    pub fn verify_jwt(&self, token: &str) -> (r: Result<Claims, CryptoError>)
        ensures
            exists|now: i64|
                clock_reading(now) && r == #[trigger] verified(self.signing_secret(), token@, now),
    {
        let now = current_timestamp();
        self.verify_jwt_at(token, now)
    }
}

/// A token holds up to its expiry and no longer: if it verifies at one
/// instant, then at every instant up to and including its expiry it verifies
/// with the same claims, and at every later instant it is refused as invalid.
pub proof fn lemma_token_expires(secret: Seq<char>, token: Seq<char>, at: i64, now: i64)
    ensures
        verified(secret, token, at) matches Ok(claims) ==> verified(secret, token, now) == (if now
            <= claims.exp {
            Ok::<Claims, CryptoError>(claims)
        } else {
            Err::<Claims, CryptoError>(CryptoError::TokenInvalid)
        }),
        verified(secret, token, now) matches Ok(claims) ==> now <= claims.exp,
        verified(secret, token, now) matches Err(error) ==> error == CryptoError::TokenInvalid,
{
}

} // verus!
