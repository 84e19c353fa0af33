//! Token issuance and verification: signed, time-bounded claims under a
//! process-wide symmetric secret. A token is valid exactly when its
//! signature checks out and it has not expired; no grace period.

use vstd::prelude::*;

verus! {

/// How long an issued token stays valid, in seconds (three hours).
pub const TOKEN_LIFETIME_SECS: u64 = 10800;

/// What decoding a token under a secret yields: the signed email and expiry
/// when the structure and signature are good, nothing otherwise.
pub uninterp spec fn decode_of(token: Seq<char>, secret: Seq<u8>) -> Option<(Seq<char>, int)>;

/// The expiry stamped on a token issued at `now`: three hours later, with a
/// clock reading before the epoch treated as the epoch.
pub open spec fn exp_at(now: int) -> int {
    if now < 0 {
        TOKEN_LIFETIME_SECS as int
    } else {
        now + TOKEN_LIFETIME_SECS
    }
}

/// Whether verification at time `now` accepts the token: it decodes and its
/// expiry has not passed.
pub open spec fn token_accepted(token: Seq<char>, secret: Seq<u8>, now: int) -> bool {
    decode_of(token, secret) matches Some(c) && now <= c.1
}

/// Whether the token carries `email` as its signed subject.
pub open spec fn token_issued_for(token: Seq<char>, secret: Seq<u8>, email: Seq<char>) -> bool {
    decode_of(token, secret) matches Some(c) && c.0 == email
}

/// Whether the token decodes to `email` with an expiry of the issued shape:
/// three hours past some clock reading.
pub open spec fn token_freshly_issued_for(
    token: Seq<char>,
    secret: Seq<u8>,
    email: Seq<char>,
) -> bool {
    exists|t: int| decode_of(token, secret) == Some((email, exp_at(t)))
}

/// An ASCII digit or letter, as a byte.
pub open spec fn is_ascii_alphanumeric_byte(b: u8) -> bool {
    (0x30 <= b <= 0x39) || (0x41 <= b <= 0x5a) || (0x61 <= b <= 0x7a)
}

/// The signed payload inside a token: subject email and absolute expiry in
/// seconds since the epoch.
#[derive(Clone, Debug)]
pub struct Claims {
    pub email: String,
    pub exp: u64,
}

/// Why a token was rejected: bad structure or signature, or an expiry in the
/// past.
#[derive(Clone, Copy, PartialEq, Eq, Structural, Debug)]
pub enum TokenError {
    InvalidToken,
    ExpiredToken,
}

/// The signing secret for the process lifetime, immutable after start.
pub struct Keys {
    secret: Vec<u8>,
}

impl View for Keys {
    type V = Seq<u8>;

    closed spec fn view(&self) -> Seq<u8> {
        self.secret@
    }
}

/// Relies on rand's Alphanumeric distribution and SampleString: sampling a
/// string of length 60 yields 60 ASCII alphanumeric characters, one byte
/// each. Entropy-source failure is unrecoverable and stops the process.
#[verifier::external_body]
fn random_alphanumeric_60() -> (r: Vec<u8>)
    ensures
        r@.len() == 60,
        forall|j: int| 0 <= j < r@.len() ==> is_ascii_alphanumeric_byte(r@[j]),
{
    let alph = rand::distr::Alphanumeric;
    rand::distr::SampleString::sample_string(&alph, &mut rand::rng(), 60).into_bytes()
}

/// Relies on std::time::SystemTime::now: the current time in whole seconds
/// since the Unix epoch (zero if the clock reads before the epoch). Nothing
/// is assumed of the reading: callers state what holds for every value.
#[verifier::external_body]
pub(crate) fn now_unix_seconds() -> (r: i64) {
    let secs = std::time::SystemTime::now()
        .duration_since(std::time::UNIX_EPOCH)
        .unwrap_or(std::time::Duration::ZERO)
        .as_secs();
    if secs > i64::MAX as u64 {
        i64::MAX
    } else {
        secs as i64
    }
}

/// Relies on jsonwebtoken::encode with an HMAC secret: the token it returns
/// decodes, under the same secret, to exactly the claims that were signed.
/// Signing a serializable payload with a symmetric secret does not fail.
#[verifier::external_body]
fn jwt_encode(email: &String, exp: u64, secret: &Vec<u8>) -> (r: String)
    ensures
        decode_of(r@, secret@) == Some((email@, exp as int)),
        r@.len() > 0,
{
    let mut claims = serde_json::Map::new();
    claims.insert("email".to_string(), serde_json::Value::String(email.clone()));
    claims.insert("exp".to_string(), serde_json::Value::Number(serde_json::Number::from(exp)));
    let key = jsonwebtoken::EncodingKey::from_secret(secret);
    jsonwebtoken::encode(&jsonwebtoken::Header::default(), &serde_json::Value::Object(claims), &key)
        .expect("signing with a symmetric secret cannot fail")
}

/// Relies on jsonwebtoken::decode with an HMAC secret and expiry checking
/// turned off: the outcome depends on the token and the secret alone, and a
/// token with bad structure or a bad signature yields no claims.
#[verifier::external_body]
fn jwt_decode(token: &str, secret: &Vec<u8>) -> (r: Option<(String, u64)>)
    ensures
        match r {
            Some(c) => decode_of(token@, secret@) == Some((c.0@, c.1 as int)),
            None => decode_of(token@, secret@) is None,
        },
{
    let key = jsonwebtoken::DecodingKey::from_secret(secret);
    let mut validation = jsonwebtoken::Validation::default();
    validation.validate_exp = false;
    validation.required_spec_claims.clear();
    let data = jsonwebtoken::decode::<serde_json::Value>(token, &key, &validation).ok()?;
    let email = data.claims.get("email")?.as_str()?.to_string();
    let exp = data.claims.get("exp")?.as_u64()?;
    Some((email, exp))
}

impl Keys {
    /// Wraps an explicit signing secret.
    pub fn new(secret: Vec<u8>) -> (r: Keys)
        ensures
            r@ == secret@,
    {
        Keys { secret }
    }

    /// Draws a fresh 60-character alphanumeric signing secret, once at
    /// process start.
    pub fn generate() -> (r: Keys)
        ensures
            r@.len() == 60,
            forall|j: int| 0 <= j < r@.len() ==> is_ascii_alphanumeric_byte(r@[j]),
    {
        Keys::new(random_alphanumeric_60())
    }

    /// Issues a signed token for `email`, expiring three hours after `now`.
    pub fn issue(&self, email: &String, now: i64) -> (r: String)
        ensures
            decode_of(r@, self@) == Some((email@, exp_at(now as int))),
            r@.len() > 0,
    {
        let base: u64 = if now < 0 {
            0
        } else {
            now as u64
        };
        let exp: u64 = base + TOKEN_LIFETIME_SECS;
        jwt_encode(email, exp, &self.secret)
    }

    /// Issues a signed token for `email` against the current clock.
    pub fn issue_now(&self, email: &String) -> (r: String)
        ensures
            token_issued_for(r@, self@, email@),
            token_freshly_issued_for(r@, self@, email@),
            r@.len() > 0,
    {
        let now = now_unix_seconds();
        let token = self.issue(email, now);
        proof {
            assert(decode_of(token@, self@) == Some((email@, exp_at(now as int))));
        }
        token
    }

    /// Checks a token's structure, signature and expiry against `now`:
    /// malformed or badly signed tokens are invalid, a passed expiry is
    /// expired, anything else yields exactly the signed claims.
    pub fn verify_token(&self, token: &str, now: i64) -> (r: Result<Claims, TokenError>)
        ensures
            r is Ok <==> token_accepted(token@, self@, now as int),
            (r matches Ok(cl) ==> decode_of(token@, self@) == Some((cl.email@, cl.exp as int))),
            r == Err::<Claims, TokenError>(TokenError::InvalidToken) <==> decode_of(
                token@,
                self@,
            ) is None,
            r == Err::<Claims, TokenError>(TokenError::ExpiredToken) <==> (decode_of(token@, self@)
                matches Some(c) && now as int > c.1),
    {
        match jwt_decode(token, &self.secret) {
            Option::None => Err(TokenError::InvalidToken),
            Option::Some((email, exp)) => {
                if now >= 0 && (now as u64) > exp {
                    Err(TokenError::ExpiredToken)
                } else {
                    Ok(Claims { email, exp })
                }
            },
        }
    }

    /// Checks a token against the current clock.
    pub fn verify_token_now(&self, token: &str) -> (r: Result<Claims, TokenError>)
        ensures
            (r matches Ok(cl) ==> decode_of(token@, self@) == Some((cl.email@, cl.exp as int))),
            r == Err::<Claims, TokenError>(TokenError::InvalidToken) <==> decode_of(
                token@,
                self@,
            ) is None,
    {
        let now = now_unix_seconds();
        self.verify_token(token, now)
    }
}

/// Law: a token that decodes to `email` with expiry `exp` is accepted, with
/// exactly that email, at any check time up to `exp`, and rejected as
/// expired at any later time. With `exp == exp_at(issue_time)` this is the
/// issue/verify round trip.
pub proof fn lemma_token_round_trip(
    token: Seq<char>,
    secret: Seq<u8>,
    email: Seq<char>,
    exp: int,
    now: int,
)
    requires
        decode_of(token, secret) == Some((email, exp)),
    ensures
        now <= exp ==> token_accepted(token, secret, now) && token_issued_for(
            token,
            secret,
            email,
        ),
        now > exp ==> !token_accepted(token, secret, now),
{
}

} // verus!
