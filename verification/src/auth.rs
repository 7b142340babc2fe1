//! Credential codec and identity extraction.
//!
//! A credential is a signed, time-bound token encoding the subject id, the
//! display name, an expiry and an issue time.  Tokens are produced by
//! [`create_token`] and checked by [`validate_token`]; [`extract`] is the
//! single gate every protected operation passes through, turning the raw
//! header value of an inbound request into a verified [`Identity`] or a
//! classified [`AuthError`].
//!
//! Signing and signature checking are done by the `jsonwebtoken` crate
//! behind two trusted wrappers; expiry is checked here, in verified code,
//! against a caller-supplied clock reading (`expires_at > now`, second
//! resolution, no leeway).

use vstd::prelude::*;

use jsonwebtoken::{decode, encode, DecodingKey, EncodingKey, Header, Validation};
use serde_json::Value;

use crate::decimal::{int_dec, spec_parse_i32, i64_to_dec, parse_i32_dec};

verus! {

/// Claims carried inside a credential: subject id (as a decimal string),
/// display name, expiry and issue time as epoch seconds.
#[derive(Debug)]
pub struct Claims {
    pub sub: String,
    pub username: String,
    pub exp: i64,
    pub iat: i64,
}

impl Claims {
    /// The claim fields as mathematical values, in the order
    /// (subject, name, expiry, issued-at).
    pub open spec fn view_fields(&self) -> (Seq<char>, Seq<char>, int, int) {
        (self.sub@, self.username@, self.exp as int, self.iat as int)
    }

    /// Stamps fresh claims: issued now, expiring `validity_hours` later.
    pub fn new(user_id: i32, username: String, now: i64, validity_hours: i64) -> (c: Claims)
        requires
            0 <= validity_hours,
            validity_hours * 3600 <= i64::MAX,
            now + validity_hours * 3600 <= i64::MAX,
        ensures
            c.sub@ == int_dec(user_id as int),
            c.username == username,
            c.iat == now,
            c.exp == now + validity_hours * 3600,
    {
        let exp = now + validity_hours * 3600;
        Claims { sub: i64_to_dec(user_id as i64), username, exp, iat: now }
    }
}

/// Why an inbound credential was rejected.
#[derive(Clone, Copy, Debug, PartialEq, Eq, Structural)]
pub enum AuthError {
    InvalidToken,
    MissingToken,
    TokenExpired,
}

impl AuthError {
    /// The operator-safe message for this failure.
    pub fn message(&self) -> (m: &'static str)
        ensures
            m@ == match self {
                AuthError::InvalidToken => "Invalid token"@,
                AuthError::MissingToken => "Missing token"@,
                AuthError::TokenExpired => "Token expired"@,
            },
    {
        match self {
            AuthError::InvalidToken => "Invalid token",
            AuthError::MissingToken => "Missing token",
            AuthError::TokenExpired => "Token expired",
        }
    }
}

/// Codec configuration, built once at process start and passed into the
/// codec: the server-held signing secret and the validity window in hours.
#[derive(Debug)]
pub struct CodecConfig {
    pub secret: Vec<u8>,
    pub validity_hours: i64,
}

/// The token that signing produces for a secret and the four claim fields.
/// The result is a function of the arguments alone: the signature scheme and
/// the claim serialization are deterministic.
pub uninterp spec fn token_of(
    secret: Seq<u8>,
    sub: Seq<char>,
    username: Seq<char>,
    exp: int,
    iat: int,
) -> Seq<char>;

/// The claim fields that signature checking recovers from a token under a
/// secret, or `None` when the token is malformed or its signature does not
/// check out.  A function of the arguments alone: no clock is consulted.
pub uninterp spec fn token_claims(secret: Seq<u8>, token: Seq<char>) -> Option<
    (Seq<char>, Seq<char>, int, int),
>;

/// Relies on `jsonwebtoken::encode` with the default HS256 header: the
/// returned token is a deterministic function of the secret and the claims,
/// and `jsonwebtoken::decode` under the same secret recovers exactly the
/// claims that were encoded.  Signing never fails: an HMAC secret matches
/// the HS256 header's key family, and serializing a JSON value cannot
/// error.
#[verifier::external_body]
fn encode_claims(claims: &Claims, secret: &Vec<u8>) -> (r: Result<String, ()>)
    ensures
        r is Ok,
        r matches Ok(t) ==> t@ == token_of(
            secret@,
            claims.sub@,
            claims.username@,
            claims.exp as int,
            claims.iat as int,
        ),
        r matches Ok(t) ==> token_claims(secret@, t@) == Some(claims.view_fields()),
{
    let mut m = serde_json::Map::new();
    m.insert("sub".to_string(), Value::String(claims.sub.clone()));
    m.insert("username".to_string(), Value::String(claims.username.clone()));
    m.insert("exp".to_string(), Value::from(claims.exp));
    m.insert("iat".to_string(), Value::from(claims.iat));
    let key = EncodingKey::from_secret(secret.as_slice());
    encode(&Header::default(), &Value::Object(m), &key).map_err(|_| ())
}

/// Relies on `jsonwebtoken::decode` with expiry validation switched off: it
/// checks the HS256 signature and returns the encoded claim fields, a
/// function of the secret and the token alone.
#[verifier::external_body]
fn decode_claims(token: &str, secret: &Vec<u8>) -> (r: Result<Claims, ()>)
    ensures
        r matches Ok(c) ==> token_claims(secret@, token@) == Some(c.view_fields()),
        r matches Err(_) ==> token_claims(secret@, token@) is None,
{
    let key = DecodingKey::from_secret(secret.as_slice());
    let mut v = Validation::default();
    v.validate_exp = false;
    v.required_spec_claims.clear();
    let c = decode::<Value>(token, &key, &v).map_err(|_| ())?.claims;
    match (c["sub"].as_str(), c["username"].as_str(), c["exp"].as_i64(), c["iat"].as_i64()) {
        (Some(s), Some(u), Some(e), Some(i)) => {
            Ok(Claims { sub: s.to_string(), username: u.to_string(), exp: e, iat: i })
        },
        _ => Err(()),
    }
}

/// Creates a credential for `user_id` and `username`, issued at `now` and
/// valid for the configured window.  Always succeeds: HS256 signing cannot
/// fail.
pub fn create_token(user_id: i32, username: String, cfg: &CodecConfig, now: i64) -> (r: Result<
    String,
    (),
>)
    requires
        0 <= cfg.validity_hours,
        cfg.validity_hours * 3600 <= i64::MAX,
        now + cfg.validity_hours * 3600 <= i64::MAX,
    ensures
        r is Ok,
        r matches Ok(t) ==> t@ == token_of(
            cfg.secret@,
            int_dec(user_id as int),
            username@,
            now + cfg.validity_hours * 3600,
            now as int,
        ),
        r matches Ok(t) ==> token_claims(cfg.secret@, t@) == Some(
            (int_dec(user_id as int), username@, now + cfg.validity_hours * 3600, now as int),
        ),
{
    let claims = Claims::new(user_id, username, now, cfg.validity_hours);
    encode_claims(&claims, &cfg.secret)
}

/// What verifying `token` under `secret` at time `now` yields: the claim
/// fields when the signature checks out and the expiry lies ahead, otherwise
/// the classified failure.  Expiry wins only over valid signatures;
/// anything undecodable is invalid.
pub open spec fn spec_validate(secret: Seq<u8>, token: Seq<char>, now: int) -> Result<
    (Seq<char>, Seq<char>, int, int),
    AuthError,
> {
    match token_claims(secret, token) {
        Some(c) => if c.2 > now {
            Ok(c)
        } else {
            Err(AuthError::TokenExpired)
        },
        None => Err(AuthError::InvalidToken),
    }
}

/// Verifies a credential: checks the signature, then checks
/// `expires_at > now`.
pub fn validate_token(token: &str, secret: &Vec<u8>, now: i64) -> (r: Result<Claims, AuthError>)
    ensures
        match r {
            Ok(c) => spec_validate(secret@, token@, now as int) == Ok::<_, AuthError>(
                c.view_fields(),
            ),
            Err(e) => spec_validate(secret@, token@, now as int) == Err::<
                (Seq<char>, Seq<char>, int, int),
                _,
            >(e),
        },
{
    match decode_claims(token, secret) {
        Err(_) => Err(AuthError::InvalidToken),
        Ok(c) => {
            if c.exp > now {
                Ok(c)
            } else {
                Err(AuthError::TokenExpired)
            }
        },
    }
}

/// A verified caller principal, produced only by successful credential
/// verification and valid for the current call.
#[derive(Debug)]
pub struct Identity {
    pub subject_id: i32,
    pub display_name: String,
    pub issued_at: i64,
    pub expires_at: i64,
}

/// What extraction yields for a raw credential: `MissingToken` when no
/// credential came with the request, the verification failure when the token
/// does not verify, `InvalidToken` when its subject is no well-formed id,
/// and the identity fields (subject, name, issued-at, expires-at) otherwise.
pub open spec fn spec_extract(secret: Seq<u8>, raw: Option<Seq<char>>, now: int) -> Result<
    (int, Seq<char>, int, int),
    AuthError,
> {
    match raw {
        None => Err(AuthError::MissingToken),
        Some(t) => match spec_validate(secret, t, now) {
            Err(e) => Err(e),
            Ok(c) => match spec_parse_i32(c.0) {
                Some(id) => Ok((id as int, c.1, c.3, c.2)),
                None => Err(AuthError::InvalidToken),
            },
        },
    }
}

/// The identity extractor: the single gate in front of every protected
/// operation.  On failure the caller must terminate immediately with an
/// unauthorized outcome; no protected work may happen without the returned
/// identity.
pub fn extract(raw: Option<&str>, secret: &Vec<u8>, now: i64) -> (r: Result<Identity, AuthError>)
    ensures
        match r {
            Ok(ident) => spec_extract(
                secret@,
                match raw {
                    Some(t) => Some(t@),
                    None => None,
                },
                now as int,
            ) == Ok::<_, AuthError>(
                (
                    ident.subject_id as int,
                    ident.display_name@,
                    ident.issued_at as int,
                    ident.expires_at as int,
                ),
            ),
            Err(e) => spec_extract(
                secret@,
                match raw {
                    Some(t) => Some(t@),
                    None => None,
                },
                now as int,
            ) == Err::<(int, Seq<char>, int, int), _>(e),
        },
{
    match raw {
        None => Err(AuthError::MissingToken),
        Some(t) => match validate_token(t, secret, now) {
            Err(e) => Err(e),
            Ok(c) => match parse_i32_dec(c.sub.as_str()) {
                Some(id) => Ok(
                    Identity {
                        subject_id: id,
                        display_name: c.username,
                        issued_at: c.iat,
                        expires_at: c.exp,
                    },
                ),
                None => Err(AuthError::InvalidToken),
            },
        },
    }
}

/// Response of the protected probe endpoint.
#[derive(Debug)]
pub struct ProtectedResponse {
    pub message: String,
    pub user_id: String,
    pub username: String,
}

/// The protected probe: echoes the verified claims back.
pub fn protected(claims: Claims) -> (r: ProtectedResponse)
    ensures
        r.message@ == "You are authenticated!"@,
        r.user_id == claims.sub,
        r.username == claims.username,
{
    ProtectedResponse {
        message: "You are authenticated!".to_owned(),
        user_id: claims.sub,
        username: claims.username,
    }
}

/// Whether `password` matches the bcrypt `hash`: the answer that
/// `bcrypt::verify` gives, a function of the two arguments alone.
pub uninterp spec fn bcrypt_matches(password: Seq<char>, hash: Seq<char>) -> bool;

/// Whether `hash` is a well-formed bcrypt hash: the shape under which
/// `bcrypt::verify` reaches an answer — prefix, cost, salt and digest all
/// parse.  A function of the hash alone: the password side of a comparison
/// is truncated, never rejected.
pub uninterp spec fn bcrypt_wf(hash: Seq<char>) -> bool;

/// Relies on `bcrypt::hash` with the default cost: the returned hash embeds
/// a fresh random salt, is well-formed, and `bcrypt::verify` accepts the
/// hashed password against it.
#[verifier::external_body]
pub fn hash_password(password: &str) -> (r: Result<String, ()>)
    ensures
        r matches Ok(h) ==> bcrypt_matches(password@, h@),
        r matches Ok(h) ==> bcrypt_wf(h@),
{
    bcrypt::hash(password, bcrypt::DEFAULT_COST).map_err(|_| ())
}

/// Relies on `bcrypt::verify`: whether the password matches the hash, a
/// deterministic function of the password and the hash.  It errs exactly
/// when the hash itself is malformed, so a well-formed hash always yields
/// an answer.
#[verifier::external_body]
pub fn verify_password(password: &str, hash: &str) -> (r: Result<bool, ()>)
    ensures
        r matches Ok(b) ==> b == bcrypt_matches(password@, hash@),
        bcrypt_wf(hash@) ==> r is Ok,
{
    bcrypt::verify(password, hash).map_err(|_| ())
}

/// A credential issued for a subject verifies successfully at any check time
/// before its expiry, and extraction recovers the same subject id and
/// display name.  The hypotheses are exactly what issuing promises of the
/// token it returned.
pub proof fn lemma_issue_then_verify(
    secret: Seq<u8>,
    user_id: i32,
    username: Seq<char>,
    exp: int,
    iat: int,
    t: Seq<char>,
    check: int,
)
    requires
        token_claims(secret, t) == Some((int_dec(user_id as int), username, exp, iat)),
        check < exp,
    ensures
        spec_validate(secret, t, check) == Ok::<_, AuthError>(
            (int_dec(user_id as int), username, exp, iat),
        ),
        spec_extract(secret, Some(t), check) == Ok::<_, AuthError>(
            (user_id as int, username, iat, exp),
        ),
{
    crate::decimal::lemma_parse_roundtrip(user_id);
}

/// Once the check time reaches the expiry, verification fails with
/// `TokenExpired` — even though the signature is valid.
pub proof fn lemma_verify_expired(
    secret: Seq<u8>,
    t: Seq<char>,
    fields: (Seq<char>, Seq<char>, int, int),
    now: int,
)
    requires
        token_claims(secret, t) == Some(fields),
        now >= fields.2,
    ensures
        spec_validate(secret, t, now) == Err::<(Seq<char>, Seq<char>, int, int), _>(
            AuthError::TokenExpired,
        ),
        spec_extract(secret, Some(t), now) == Err::<(int, Seq<char>, int, int), _>(
            AuthError::TokenExpired,
        ),
{
}

/// A token that does not decode under the secret — in particular any token
/// whose signed payload was altered — never verifies: it fails with
/// `InvalidToken`, at every check time.
pub proof fn lemma_verify_tampered(secret: Seq<u8>, t: Seq<char>, now: int)
    requires
        token_claims(secret, t) is None,
    ensures
        spec_validate(secret, t, now) == Err::<(Seq<char>, Seq<char>, int, int), _>(
            AuthError::InvalidToken,
        ),
        spec_extract(secret, Some(t), now) == Err::<(int, Seq<char>, int, int), _>(
            AuthError::InvalidToken,
        ),
{
}

} // verus!
