//! Session tokens: signed claims that say who is logged in, and until when.

use std::collections::BTreeMap;

use vstd::prelude::*;

use crate::text::text_view;

verus! {

/// How long a token lasts: thirty days, in seconds.
pub const TOKEN_LIFETIME: i64 = 30 * 24 * 60 * 60;

/// For how long a token is still accepted once it has expired, in seconds.
pub const LEEWAY: i64 = 60;

/// The latest moment that the clock can show, in seconds since the Unix epoch.
pub const LAST_MOMENT: i64 = 8_210_266_876_799;

/// What a token says: the user's identifier, the user's name, and when the
/// token expires and was issued, in seconds since the Unix epoch.
pub struct Claims {
    pub sub: String,
    pub username: String,
    pub exp: i64,
    pub iat: i64,
}

/// Claims with their texts as sequences of characters.
pub struct ClaimsView {
    pub sub: Seq<char>,
    pub username: Seq<char>,
    pub exp: i64,
    pub iat: i64,
}

impl View for Claims {
    type V = ClaimsView;

    open spec fn view(&self) -> ClaimsView {
        ClaimsView { sub: self.sub@, username: self.username@, exp: self.exp, iat: self.iat }
    }
}

/// The fields that a token's payload holds, each where it is there and has
/// the right kind of value.
pub struct Payload {
    pub sub: Option<String>,
    pub username: Option<String>,
    pub exp: Option<i64>,
    pub iat: Option<i64>,
}

impl View for Payload {
    type V = (Option<Seq<char>>, Option<Seq<char>>, Option<i64>, Option<i64>);

    open spec fn view(&self) -> Self::V {
        (text_view(self.sub), text_view(self.username), self.exp, self.iat)
    }
}

/// Why a token is not accepted.
#[derive(Debug)]
pub enum TokenError {
    /// The token is not one that this secret signed, or it has expired.
    Refused(String),
    /// The token is genuine but does not hold the claims of a session.
    Incomplete,
}

/// The token that `jsonwebtoken::encode` makes of the four claims with the
/// default header and an HMAC key made of the secret.
pub uninterp spec fn jwt_token(
    sub: Seq<char>,
    username: Seq<char>,
    exp: i64,
    iat: i64,
    secret: Seq<char>,
) -> Seq<char>;

/// The payload of a token that `jsonwebtoken::decode` accepts with the default
/// validation and an HMAC key made of the secret for as long as the token has
/// not expired: the fields `sub`, `username`, `exp` and `iat`. Nothing where it
/// never accepts the token, whatever the time.
pub uninterp spec fn jwt_payload(token: Seq<char>, secret: Seq<char>) -> Option<
    (Option<Seq<char>>, Option<Seq<char>>, Option<i64>, Option<i64>),
>;

/// A token with this expiry is past the leeway at a moment.
pub open spec fn expired(exp: i64, now: u64) -> bool {
    exp + LEEWAY < now
}

/// What the decoding of a token with a payload gives at a moment: the payload
/// where it has not expired, an error where it has or there is none. Of a
/// payload whose expiry is no `i64` it may be either.
pub open spec fn decoded_at(
    decoded: Result<Payload, String>,
    payload: Option<(Option<Seq<char>>, Option<Seq<char>>, Option<i64>, Option<i64>)>,
    now: u64,
) -> bool {
    match decoded {
        Ok(read) => payload == Some(read@) && (read.exp matches Some(exp) ==> !expired(exp, now)),
        Err(_) => payload matches Some(read) ==> (read.2 matches Some(exp) ==> expired(exp, now)),
    }
}

/// The characters that a token is made of: those of the URL-safe Base64
/// alphabet, and dots.
pub open spec fn token_text(token: Seq<char>) -> bool {
    forall|i: int|
        0 <= i < token.len() ==> {
            let c = #[trigger] token[i];
            ||| 'a' <= c <= 'z'
            ||| 'A' <= c <= 'Z'
            ||| '0' <= c <= '9'
            ||| c == '-' || c == '_' || c == '.'
        }
}

/// Calls `jsonwebtoken::encode` with the default header (HMAC with SHA-256) on
/// a JSON object of the four claims, in the order in which they stand in
/// `Claims`. With an HMAC key this does not fail. The token depends on the
/// claims and the secret alone and is named by `jwt_token`; it is made of the
/// characters of `token_text`. Where the expiry is not negative,
/// `jsonwebtoken::decode` reads the same claims back with the same secret, as
/// long as the token has not expired.
#[verifier::external_body]
fn jwt_encode(claims: &Claims, secret: &str) -> (encoded: Result<String, String>)
    ensures
        encoded is Ok,
        token_text(encoded->Ok_0@),
        encoded->Ok_0@ == jwt_token(
            claims.sub@,
            claims.username@,
            claims.exp,
            claims.iat,
            secret@,
        ),
        claims.exp >= 0 ==> jwt_payload(encoded->Ok_0@, secret@) == Some(
            (Some(claims.sub@), Some(claims.username@), Some(claims.exp), Some(claims.iat)),
        ),
{
    let mut object = serde_json::Map::new();
    object.insert("sub".to_string(), serde_json::Value::from(claims.sub.as_str()));
    object.insert("username".to_string(), serde_json::Value::from(claims.username.as_str()));
    object.insert("exp".to_string(), serde_json::Value::from(claims.exp));
    object.insert("iat".to_string(), serde_json::Value::from(claims.iat));
    let header = jsonwebtoken::Header::default();
    let key = jsonwebtoken::EncodingKey::from_secret(secret.as_bytes());
    jsonwebtoken::encode(&header, &object, &key).map_err(|e| e.to_string())
}

/// Calls `jsonwebtoken::decode` with the default validation (HMAC with SHA-256,
/// an expiry that is not past by more than a minute, no audience). It reads the
/// clock once, in seconds since the Unix epoch. What the clock shows is left
/// open; at that moment a token is refused only if it has expired or is never
/// accepted, and what is handed out otherwise is named by `jwt_payload`. The
/// payload is read as a JSON object whose values
/// are kept as they are written. Of these only the four fields are read, with
/// `serde_json::from_str`, so what other fields hold does not matter as long as
/// it is JSON in UTF-8. A field that stands twice has its last value, but `sub`
/// and `exp`, of which the validation refuses a second one. An error is handed
/// on as its text, of which nothing is said.
#[verifier::external_body]
fn jwt_decode(token: &str, secret: &str) -> (decoded: Result<Payload, String>)
    ensures
        exists|now: u64| decoded_at(decoded, jwt_payload(token@, secret@), now),
{
    let key = jsonwebtoken::DecodingKey::from_secret(secret.as_bytes());
    let validation = jsonwebtoken::Validation::default();
    let fields: BTreeMap<String, Box<serde_json::value::RawValue>> =
        jsonwebtoken::decode(token, &key, &validation).map_err(|e| e.to_string())?.claims;
    let field = |name: &str| fields.get(name).map(|value| value.get());
    Ok(Payload {
        sub: field("sub").and_then(|json| serde_json::from_str(json).ok()),
        username: field("username").and_then(|json| serde_json::from_str(json).ok()),
        exp: field("exp").and_then(|json| serde_json::from_str(json).ok()),
        iat: field("iat").and_then(|json| serde_json::from_str(json).ok()),
    })
}

/// Calls `chrono::Utc::now` and takes its Unix timestamp. A clock before the
/// epoch, or after the last moment that chrono can hold, makes it panic. What
/// the clock shows between these is left open.
#[verifier::external_body]
fn unix_now() -> (now: i64)
    ensures
        0 <= now <= LAST_MOMENT,
{
    chrono::Utc::now().timestamp()
}

/// The clock showed this moment when it was read.
pub closed spec fn clock_showed(now: i64) -> bool {
    call_ensures(unix_now, (), now)
}

/// The decoder gave this of the token and the secret when it was asked.
pub closed spec fn decoder_gave(
    token: &str,
    secret: &str,
    decoded: Result<Payload, String>,
) -> bool {
    call_ensures(jwt_decode, (token, secret), decoded)
}

/// The clock showed a moment where reading it gives that moment, and in no
/// other way; the decoder gave what asking it gives.
proof fn moments_and_payloads_come_from_outside(
    now: i64,
    token: &str,
    secret: &str,
    decoded: Result<Payload, String>,
)
    ensures
        clock_showed(now) ==> call_ensures(unix_now, (), now),
        decoder_gave(token, secret, decoded) ==> call_ensures(
            jwt_decode,
            (token, secret),
            decoded,
        ),
{
}

/// The claims of a user whose session begins at a moment.
pub open spec fn session_claims(user_id: Seq<char>, username: Seq<char>, now: i64) -> ClaimsView {
    ClaimsView { sub: user_id, username, exp: (now + TOKEN_LIFETIME) as i64, iat: now }
}

/// The token of a user whose session begins at a moment.
pub open spec fn session_token(
    user_id: Seq<char>,
    username: Seq<char>,
    secret: Seq<char>,
    now: i64,
) -> Seq<char> {
    let claims = session_claims(user_id, username, now);
    jwt_token(claims.sub, claims.username, claims.exp, claims.iat, secret)
}

/// The claims of a token that the secret signed, where it holds all four.
pub open spec fn signed_claims(token: Seq<char>, secret: Seq<char>) -> Option<ClaimsView> {
    match jwt_payload(token, secret) {
        Some(payload) => complete_claims(payload),
        None => None,
    }
}

/// The claims of a token that the secret signed and that has not expired at a
/// moment.
pub open spec fn valid_claims(token: Seq<char>, secret: Seq<char>, now: u64) -> Option<ClaimsView> {
    match signed_claims(token, secret) {
        Some(claims) => if expired(claims.exp, now) {
            None
        } else {
            Some(claims)
        },
        None => None,
    }
}

/// The claims that were handed out, if any.
pub open spec fn accepted_claims(verified: Result<Claims, TokenError>) -> Option<ClaimsView> {
    match verified {
        Ok(claims) => Some(claims@),
        Err(_) => None,
    }
}

/// The claims in a payload, where all four are there.
pub open spec fn complete_claims(
    payload: (Option<Seq<char>>, Option<Seq<char>>, Option<i64>, Option<i64>),
) -> Option<ClaimsView> {
    match payload {
        (Some(sub), Some(username), Some(exp), Some(iat)) => Some(
            ClaimsView { sub, username, exp, iat },
        ),
        _ => None,
    }
}

/// The claims of a user whose session begins at a moment.
pub fn claims_at(user_id: &str, username: &str, now: i64) -> (claims: Claims)
    requires
        now + TOKEN_LIFETIME <= i64::MAX,
    ensures
        claims@ == session_claims(user_id@, username@, now),
{
    Claims {
        sub: user_id.to_string(),
        username: username.to_string(),
        iat: now,
        exp: now + TOKEN_LIFETIME,
    }
}

/// Signs the token of a user whose session begins at a moment.
pub fn create_token_at(user_id: &str, username: &str, secret: &str, now: i64) -> (token: Result<
    String,
    String,
>)
    requires
        now + TOKEN_LIFETIME <= i64::MAX,
    ensures
        token is Ok,
        token->Ok_0@ == session_token(user_id@, username@, secret@, now),
        token_text(token->Ok_0@),
        now + TOKEN_LIFETIME >= 0 ==> signed_claims(token->Ok_0@, secret@) == Some(
            session_claims(user_id@, username@, now),
        ),
{
    let claims = claims_at(user_id, username, now);
    jwt_encode(&claims, secret)
}

/// Signs the token of a user whose session begins now.
pub fn create_token(user_id: &str, username: &str, secret: &str) -> (token: Result<
    String,
    String,
>)
    ensures
        token is Ok,
        token_text(token->Ok_0@),
        exists|now: i64|
            {
                &&& clock_showed(now)
                &&& 0 <= now <= LAST_MOMENT
                &&& token->Ok_0@ == #[trigger] session_token(user_id@, username@, secret@, now)
                &&& signed_claims(token->Ok_0@, secret@) == Some(
                    session_claims(user_id@, username@, now),
                )
            },
{
    let now: i64 = unix_now();
    create_token_at(user_id, username, secret, now)
}

/// The claims in what the decoding of a token gave.
pub fn claims_of(decoded: Result<Payload, String>) -> (claims: Result<Claims, TokenError>)
    ensures
        match decoded {
            Ok(payload) => match complete_claims(payload@) {
                Some(expected) => claims matches Ok(c) && c@ == expected,
                None => claims matches Err(TokenError::Incomplete),
            },
            Err(error) => claims matches Err(TokenError::Refused(text)) && text == error,
        },
{
    match decoded {
        Ok(payload) => match (payload.sub, payload.username, payload.exp, payload.iat) {
            (Some(sub), Some(username), Some(exp), Some(iat)) => Ok(
                Claims { sub, username, exp, iat },
            ),
            _ => Err(TokenError::Incomplete),
        },
        Err(error) => Err(TokenError::Refused(error)),
    }
}

/// The claims of a token, where the secret signed it and it has not expired at
/// the moment that the clock shows.
pub fn verify_token(token: &str, secret: &str) -> (claims: Result<Claims, TokenError>)
    ensures
        exists|now: u64|
            accepted_claims(claims) == #[trigger] valid_claims(token@, secret@, now),
        claims matches Err(TokenError::Incomplete) ==> jwt_payload(token@, secret@) is Some
            && signed_claims(token@, secret@) is None,
        exists|decoded: Result<Payload, String>| #[trigger]
            decoder_gave(token, secret, decoded) && call_ensures(claims_of, (decoded,), claims),
{
    let decoded = jwt_decode(token, secret);
    let ghost now = choose|now: u64| decoded_at(decoded, jwt_payload(token@, secret@), now);
    let claims = claims_of(decoded);
    assert(accepted_claims(claims) == valid_claims(token@, secret@, now));
    assert(decoder_gave(token, secret, decoded));
    claims
}

} // verus!
